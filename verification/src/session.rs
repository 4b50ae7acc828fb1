//! The connection-session loop: the state machine that cycles the device
//! between discoverable-and-unconnected and connected-and-serving.
//!
//! The payload is built once at startup and owned by the session for its
//! whole life. The loop then repeats: show the idle frame and advertise;
//! when a peer connects, play the connect tune, show the heart and start
//! the three task groups (event router, one debounce task per button,
//! the stick sampler); when any of them observes a disconnect, every
//! sibling task of the session is cancelled in that same step, the
//! disconnect tune plays, and the device is back to advertising. A failed
//! advertise attempt simply re-enters advertising — the idle state is
//! the retry. While the session is not connected no notification may be
//! issued: every push asks the session first, so nothing is ever
//! attempted against a stale connection.

use vstd::prelude::*;
use crate::advertiser::{spec_adv_data, spec_scan_data, Advertiser, AdvertiserBuilder};
use crate::audio::Tune;
use crate::display::DisplayFrame;
use crate::gatt::{spec_get, spec_is_button, AttrValue, BleServer};
use crate::hid::Notification;
use crate::stick::{STICK_X_HANDLE, STICK_Y_HANDLE};
use vstd::string::StringSliceAdditionalSpecFns;

verus! {

/// Milliseconds the idle frame is shown before each advertising round.
pub const IDLE_FRAME_MS: u64 = 2000;

/// Milliseconds the connect frame is shown when a peer arrives.
pub const CONNECT_FRAME_MS: u64 = 1000;

/// Where the device stands in its serve cycle.
#[derive(Clone, Copy, PartialEq, Eq, Structural, Debug)]
pub enum SessionState {
    /// Unconnected and quiet; the next step is to advertise.
    Idle,
    /// Broadcasting the payload, suspended until a peer connects or the
    /// attempt fails.
    Advertising,
    /// Serving the one connected peer; the session tasks run.
    Connected,
}

/// The local feedback owed on entering advertising.
pub struct AdvertisingStart {
    /// The frame to show while discoverable.
    pub show: DisplayFrame,
    /// How long to show it, in milliseconds.
    pub show_ms: u64,
}

/// The local feedback owed when an advertising round ends.
pub struct ConnectOutcome {
    /// The tune and frame to play on a connect; nothing on a failed
    /// attempt, which just re-enters advertising.
    pub feedback: Option<(Tune, DisplayFrame)>,
    /// How long the connect frame blocks, in milliseconds.
    pub show_ms: u64,
    /// Whether the session task groups start now.
    pub start_tasks: bool,
}

/// What the disconnect transition demands.
pub struct DisconnectActions {
    /// Every sibling task of the session is cancelled, in this step.
    pub cancel_tasks: bool,
    /// The tune to play on the way back to advertising.
    pub play: Tune,
}

/// The session orchestrator: the immutable payload pair and the state
/// of the serve cycle. At most one connection is active at a time, and
/// the task groups run exactly while it is.
pub struct Session {
    /// The advertisement payload, built once and never rebuilt.
    pub adv: Advertiser,
    /// Where the cycle stands.
    pub state: SessionState,
    /// Whether the per-session task groups are running.
    pub tasks_running: bool,
}

/// The session after the disconnect transition: back to idle, every
/// session task gone, the payload untouched.
pub open spec fn spec_after_disconnect(s: Session) -> Session {
    Session { state: SessionState::Idle, tasks_running: false, ..s }
}

/// Whether a notification may be issued: only while the one connection
/// is live and the session tasks own it.
pub open spec fn spec_may_notify(s: Session) -> bool {
    s.state == SessionState::Connected && s.tasks_running
}

impl Session {
    /// Tasks run exactly while the session serves a connection.
    pub open spec fn wf(&self) -> bool {
        self.tasks_running <==> self.state == SessionState::Connected
    }

    /// Build the payload for the given device name — once, at startup —
    /// and start the cycle idle and quiet.
    pub fn new(name: &str) -> (s: Session)
        ensures
            s.wf(),
            s.state == SessionState::Idle,
            !s.tasks_running,
            s.adv.advertiser_data@ == spec_adv_data(name.spec_bytes()),
            s.adv.scan_data@ == spec_scan_data(),
    {
        let adv = AdvertiserBuilder::new(name).build();
        Session { adv, state: SessionState::Idle, tasks_running: false }
    }

    /// Leave idle for an advertising round: the idle frame goes up and
    /// the payload goes on the air.
    pub fn begin_advertising(&mut self) -> (a: AdvertisingStart)
        requires
            old(self).wf(),
            old(self).state == SessionState::Idle,
        ensures
            final(self).wf(),
            final(self).state == SessionState::Advertising,
            !final(self).tasks_running,
            final(self).adv == old(self).adv,
            a.show == DisplayFrame::QuestionMark,
            a.show_ms == IDLE_FRAME_MS,
    {
        self.state = SessionState::Advertising;
        AdvertisingStart { show: DisplayFrame::QuestionMark, show_ms: IDLE_FRAME_MS }
    }

    /// An advertising round ended. A connect enters the serving state,
    /// owes the connect tune and the heart frame, and starts the task
    /// groups; a failed attempt owes nothing and falls back to idle,
    /// from where the loop simply advertises again.
    pub fn on_advertise_result(&mut self, connected: bool) -> (r: ConnectOutcome)
        requires
            old(self).wf(),
            old(self).state == SessionState::Advertising,
        ensures
            final(self).wf(),
            final(self).adv == old(self).adv,
            connected ==> final(self).state == SessionState::Connected
                && final(self).tasks_running
                && r.feedback == Some((Tune::Connect, DisplayFrame::Heart))
                && r.show_ms == CONNECT_FRAME_MS
                && r.start_tasks,
            !connected ==> final(self).state == SessionState::Idle
                && !final(self).tasks_running
                && r.feedback is None
                && r.show_ms == 0
                && !r.start_tasks,
            spec_may_notify(*final(self)) == connected,
    {
        if connected {
            self.state = SessionState::Connected;
            self.tasks_running = true;
            ConnectOutcome {
                feedback: Some((Tune::Connect, DisplayFrame::Heart)),
                show_ms: CONNECT_FRAME_MS,
                start_tasks: true,
            }
        } else {
            self.state = SessionState::Idle;
            self.tasks_running = false;
            ConnectOutcome { feedback: None, show_ms: 0, start_tasks: false }
        }
    }

    /// A disconnect was observed — by the transport, by the event
    /// router, or as an unrecoverable protocol error; all three end the
    /// session the same way. The transition cancels every sibling task
    /// of the session in this one step, owes the disconnect tune, and
    /// returns the cycle to idle; the payload survives for the next
    /// round.
    pub fn on_disconnect(&mut self) -> (r: DisconnectActions)
        requires
            old(self).wf(),
            old(self).state == SessionState::Connected,
        ensures
            final(self).wf(),
            *final(self) == spec_after_disconnect(*old(self)),
            !final(self).tasks_running,
            !spec_may_notify(*final(self)),
            r.cancel_tasks,
            r.play == Tune::Disconnect,
    {
        self.state = SessionState::Idle;
        self.tasks_running = false;
        DisconnectActions { cancel_tasks: true, play: Tune::Disconnect }
    }

    /// Whether a notification may be pushed right now. Every push is
    /// gated on this check, so none is ever attempted against a
    /// connection known to be disconnected.
    pub fn may_notify(&self) -> (r: bool)
        ensures
            r == spec_may_notify(*self),
    {
        match self.state {
            SessionState::Connected => self.tasks_running,
            _ => false,
        }
    }

    /// Push a button notification: the value behind the button's handle
    /// is published, but only while the session may notify at all. A
    /// gated-off push touches nothing — cancelled work leaves no trace.
    pub fn publish_button(&self, server: &mut BleServer, n: Notification) -> (sent: bool)
        ensures
            sent == (spec_may_notify(*self) && spec_is_button(n.handle)),
            !spec_may_notify(*self) ==> *final(server) == *old(server),
            final(server).hid == old(server).hid,
            final(server).stick == old(server).stick,
            final(server).player == old(server).player,
            spec_may_notify(*self) ==> spec_get(final(server).table, n.handle) == (
            if spec_is_button(n.handle) {
                Some(AttrValue::Bool(n.value))
            } else {
                spec_get(old(server).table, n.handle)
            }),
            forall|h: u16| h != n.handle ==> spec_get(final(server).table, h) == spec_get(
                old(server).table,
                h,
            ),
    {
        if self.may_notify() {
            server.set_button(n.handle, n.value)
        } else {
            false
        }
    }

    /// Push a stick-level notification, under the same gate: published
    /// only while the session may notify, and a gated-off push touches
    /// nothing.
    pub fn publish_level(&self, server: &mut BleServer, handle: u16, level: i8) -> (sent: bool)
        ensures
            sent == (spec_may_notify(*self) && (handle == STICK_X_HANDLE || handle
                == STICK_Y_HANDLE)),
            !spec_may_notify(*self) ==> *final(server) == *old(server),
            final(server).hid == old(server).hid,
            final(server).stick == old(server).stick,
            final(server).player == old(server).player,
            spec_may_notify(*self) ==> spec_get(final(server).table, handle) == (
            if handle == STICK_X_HANDLE || handle == STICK_Y_HANDLE {
                Some(AttrValue::Signed(level))
            } else {
                spec_get(old(server).table, handle)
            }),
            forall|h: u16| h != handle ==> spec_get(final(server).table, h) == spec_get(
                old(server).table,
                h,
            ),
    {
        if self.may_notify() {
            server.set_level(handle, level)
        } else {
            false
        }
    }
}

/// Disconnecting quiesces the session in one transition: immediately
/// after it no session task is running, no notification is permitted
/// against the stale connection, and the payload is kept unchanged for
/// the next session.
pub proof fn lemma_disconnect_quiesces(s: Session)
    ensures
        !spec_after_disconnect(s).tasks_running,
        !spec_may_notify(spec_after_disconnect(s)),
        spec_after_disconnect(s).adv == s.adv,
        spec_after_disconnect(s).state == SessionState::Idle,
{
}

} // verus!
