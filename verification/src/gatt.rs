//! The attribute server: the catalog of remotely exposed values and the
//! router that consumes inbound read/write events during a session.
//!
//! The catalog is fixed for the life of the process: six button booleans
//! (read, notify), two signed stick levels (read, notify), and a player
//! index a peer may write to say which player the controller belongs to.
//! The router inspects one inbound event at a time: a disconnect ends
//! the session, a write to the player index is applied, reads observe
//! without mutating, and anything unmatched is ignored.

use vstd::prelude::*;
use crate::hid::{
    ButtonService, BUTTON_A_HANDLE, BUTTON_B_HANDLE, BUTTON_C_HANDLE, BUTTON_D_HANDLE,
    BUTTON_E_HANDLE, BUTTON_F_HANDLE,
};
use crate::stick::{StickService, STICK_X_HANDLE, STICK_Y_HANDLE};

verus! {

/// Attribute handle of the player index.
pub const PLAYER_INDEX_HANDLE: u16 = 9;

/// Lets a central decide which player this controller belongs to.
pub struct Player {
    /// The handle of the player-index attribute.
    pub index: u16,
}

impl Player {
    /// The handle is the catalog's stable one.
    pub open spec fn wf(&self) -> bool {
        self.index == PLAYER_INDEX_HANDLE
    }

    /// The fixed player attribute catalog.
    pub fn new() -> (p: Self)
        ensures
            p.wf(),
    {
        Player { index: PLAYER_INDEX_HANDLE }
    }
}

/// A value published through the attribute table.
#[derive(Clone, Copy, PartialEq, Eq, Structural, Debug)]
pub enum AttrValue {
    /// A button state.
    Bool(bool),
    /// A stick level.
    Signed(i8),
    /// The player index.
    Unsigned(u8),
}

/// The live values of every attribute in the catalog.
pub struct AttrTable {
    pub button_a: bool,
    pub button_b: bool,
    pub button_c: bool,
    pub button_d: bool,
    pub button_e: bool,
    pub button_f: bool,
    pub stick_x: i8,
    pub stick_y: i8,
    pub player_index: u8,
}

/// Whether a handle addresses one of the six button values.
pub open spec fn spec_is_button(handle: u16) -> bool {
    BUTTON_A_HANDLE <= handle <= BUTTON_F_HANDLE
}

/// Whether a peer may read the value behind a handle.
pub open spec fn spec_readable(handle: u16) -> bool {
    BUTTON_A_HANDLE <= handle <= PLAYER_INDEX_HANDLE
}

/// Whether the device pushes changes of the value behind a handle.
pub open spec fn spec_notifiable(handle: u16) -> bool {
    BUTTON_A_HANDLE <= handle <= STICK_Y_HANDLE
}

/// Whether a peer may write the value behind a handle.
pub open spec fn spec_writable(handle: u16) -> bool {
    handle == PLAYER_INDEX_HANDLE
}

/// The value a handle currently addresses, and `None` off the catalog.
pub open spec fn spec_get(table: AttrTable, handle: u16) -> Option<AttrValue> {
    if handle == BUTTON_A_HANDLE {
        Some(AttrValue::Bool(table.button_a))
    } else if handle == BUTTON_B_HANDLE {
        Some(AttrValue::Bool(table.button_b))
    } else if handle == BUTTON_C_HANDLE {
        Some(AttrValue::Bool(table.button_c))
    } else if handle == BUTTON_D_HANDLE {
        Some(AttrValue::Bool(table.button_d))
    } else if handle == BUTTON_E_HANDLE {
        Some(AttrValue::Bool(table.button_e))
    } else if handle == BUTTON_F_HANDLE {
        Some(AttrValue::Bool(table.button_f))
    } else if handle == STICK_X_HANDLE {
        Some(AttrValue::Signed(table.stick_x))
    } else if handle == STICK_Y_HANDLE {
        Some(AttrValue::Signed(table.stick_y))
    } else if handle == PLAYER_INDEX_HANDLE {
        Some(AttrValue::Unsigned(table.player_index))
    } else {
        None
    }
}

/// An inbound event observed on the connection.
pub enum ConnectionEvent {
    /// The peer is gone; the session is over.
    Disconnected {
        /// Transport-reported reason code.
        reason: u8,
    },
    /// The peer read the value behind a handle.
    Read {
        handle: u16,
    },
    /// The peer wrote bytes to the value behind a handle.
    Write {
        handle: u16,
        data: Vec<u8>,
    },
}

/// What the router decided about one inbound event.
#[derive(Clone, Copy, PartialEq, Eq, Structural, Debug)]
pub enum RouterOutcome {
    /// A disconnect was observed: report upward and end the session.
    SessionEnded,
    /// A read was observed; nothing changed.
    Observed,
    /// A write to the player index was applied, carrying this value.
    WriteApplied(u8),
    /// The event addressed nothing writable, or carried no payload.
    Ignored,
}

/// The attribute server: the fixed catalog plus the live values.
/// One instance exists for the process lifetime; every task of a
/// session reads the catalog through a shared reference.
pub struct BleServer {
    /// The button attribute catalog.
    pub hid: ButtonService,
    /// The stick attribute catalog.
    pub stick: StickService,
    /// The player-index attribute catalog.
    pub player: Player,
    /// The live values.
    pub table: AttrTable,
}

impl BleServer {
    /// The catalog carries the stable handles.
    pub open spec fn wf(&self) -> bool {
        &&& self.hid.wf()
        &&& self.stick.wf()
        &&& self.player.wf()
    }

    /// A fresh server: the fixed catalog, every value at rest (buttons
    /// released, stick centered, player index zero).
    pub fn new() -> (s: Self)
        ensures
            s.wf(),
            s.table == (AttrTable {
                button_a: false,
                button_b: false,
                button_c: false,
                button_d: false,
                button_e: false,
                button_f: false,
                stick_x: 0,
                stick_y: 0,
                player_index: 0,
            }),
    {
        BleServer {
            hid: ButtonService::new(),
            stick: StickService::new(),
            player: Player::new(),
            table: AttrTable {
                button_a: false,
                button_b: false,
                button_c: false,
                button_d: false,
                button_e: false,
                button_f: false,
                stick_x: 0,
                stick_y: 0,
                player_index: 0,
            },
        }
    }

    /// Read the value behind a handle, as a peer read does.
    pub fn get(&self, handle: u16) -> (r: Option<AttrValue>)
        ensures
            r == spec_get(self.table, handle),
    {
        if handle == BUTTON_A_HANDLE {
            Some(AttrValue::Bool(self.table.button_a))
        } else if handle == BUTTON_B_HANDLE {
            Some(AttrValue::Bool(self.table.button_b))
        } else if handle == BUTTON_C_HANDLE {
            Some(AttrValue::Bool(self.table.button_c))
        } else if handle == BUTTON_D_HANDLE {
            Some(AttrValue::Bool(self.table.button_d))
        } else if handle == BUTTON_E_HANDLE {
            Some(AttrValue::Bool(self.table.button_e))
        } else if handle == BUTTON_F_HANDLE {
            Some(AttrValue::Bool(self.table.button_f))
        } else if handle == STICK_X_HANDLE {
            Some(AttrValue::Signed(self.table.stick_x))
        } else if handle == STICK_Y_HANDLE {
            Some(AttrValue::Signed(self.table.stick_y))
        } else if handle == PLAYER_INDEX_HANDLE {
            Some(AttrValue::Unsigned(self.table.player_index))
        } else {
            None
        }
    }

    /// Publish a button state: the value behind the handle changes and
    /// the call reports whether the handle addressed a button at all.
    pub fn set_button(&mut self, handle: u16, value: bool) -> (ok: bool)
        ensures
            ok == spec_is_button(handle),
            final(self).hid == old(self).hid,
            final(self).stick == old(self).stick,
            final(self).player == old(self).player,
            spec_get(final(self).table, handle) == (if spec_is_button(handle) {
                Some(AttrValue::Bool(value))
            } else {
                spec_get(old(self).table, handle)
            }),
            forall|h: u16| h != handle ==> spec_get(final(self).table, h) == spec_get(
                old(self).table,
                h,
            ),
    {
        if handle == BUTTON_A_HANDLE {
            self.table.button_a = value;
            true
        } else if handle == BUTTON_B_HANDLE {
            self.table.button_b = value;
            true
        } else if handle == BUTTON_C_HANDLE {
            self.table.button_c = value;
            true
        } else if handle == BUTTON_D_HANDLE {
            self.table.button_d = value;
            true
        } else if handle == BUTTON_E_HANDLE {
            self.table.button_e = value;
            true
        } else if handle == BUTTON_F_HANDLE {
            self.table.button_f = value;
            true
        } else {
            false
        }
    }

    /// Publish a stick level: the value behind the handle changes and
    /// the call reports whether the handle addressed a stick axis.
    pub fn set_level(&mut self, handle: u16, value: i8) -> (ok: bool)
        ensures
            ok == (handle == STICK_X_HANDLE || handle == STICK_Y_HANDLE),
            final(self).hid == old(self).hid,
            final(self).stick == old(self).stick,
            final(self).player == old(self).player,
            spec_get(final(self).table, handle) == (if handle == STICK_X_HANDLE || handle
                == STICK_Y_HANDLE {
                Some(AttrValue::Signed(value))
            } else {
                spec_get(old(self).table, handle)
            }),
            forall|h: u16| h != handle ==> spec_get(final(self).table, h) == spec_get(
                old(self).table,
                h,
            ),
    {
        if handle == STICK_X_HANDLE {
            self.table.stick_x = value;
            true
        } else if handle == STICK_Y_HANDLE {
            self.table.stick_y = value;
            true
        } else {
            false
        }
    }

    /// Route one inbound event, as the session's event loop does.
    /// A disconnect is reported upward untouched; a write whose handle
    /// matches the writable player index and that carries at least one
    /// byte is applied, its first byte becoming the index; every other
    /// event leaves every value exactly as it was.
    pub fn handle_event(&mut self, ev: &ConnectionEvent) -> (r: RouterOutcome)
        ensures
            final(self).hid == old(self).hid,
            final(self).stick == old(self).stick,
            final(self).player == old(self).player,
            match ev {
                ConnectionEvent::Disconnected { .. } => {
                    &&& r == RouterOutcome::SessionEnded
                    &&& final(self).table == old(self).table
                },
                ConnectionEvent::Read { .. } => {
                    &&& r == RouterOutcome::Observed
                    &&& final(self).table == old(self).table
                },
                ConnectionEvent::Write { handle, data } => {
                    if spec_writable(*handle) && data@.len() > 0 {
                        &&& r == RouterOutcome::WriteApplied(data@[0])
                        &&& final(self).table == (AttrTable {
                            player_index: data@[0],
                            ..old(self).table
                        })
                    } else {
                        &&& r == RouterOutcome::Ignored
                        &&& final(self).table == old(self).table
                    }
                },
            },
    {
        match ev {
            ConnectionEvent::Disconnected { .. } => RouterOutcome::SessionEnded,
            ConnectionEvent::Read { .. } => RouterOutcome::Observed,
            ConnectionEvent::Write { handle, data } => {
                if *handle == PLAYER_INDEX_HANDLE && data.len() > 0 {
                    let value = data[0];
                    self.table.player_index = value;
                    RouterOutcome::WriteApplied(value)
                } else {
                    RouterOutcome::Ignored
                }
            },
        }
    }
}

/// Whether an event reports the peer gone.
pub open spec fn spec_is_disconnect(ev: ConnectionEvent) -> bool {
    ev matches ConnectionEvent::Disconnected { .. }
}

/// The table one routed event leaves behind: a matched write moves the
/// player index, everything else changes nothing.
pub open spec fn spec_route_table(table: AttrTable, ev: ConnectionEvent) -> AttrTable {
    match ev {
        ConnectionEvent::Write { handle, data } => if spec_writable(handle) && data@.len() > 0 {
            AttrTable { player_index: data@[0], ..table }
        } else {
            table
        },
        _ => table,
    }
}

/// The table left behind by routing events in arrival order, stopping at
/// the first disconnect: nothing after it is applied.
pub open spec fn spec_route_all(table: AttrTable, events: Seq<ConnectionEvent>) -> AttrTable
    decreases events.len(),
{
    if events.len() == 0 {
        table
    } else if spec_is_disconnect(events[0]) {
        table
    } else {
        spec_route_all(spec_route_table(table, events[0]), events.skip(1))
    }
}

impl BleServer {
    /// Route inbound events in arrival order, as the session's event
    /// loop does, stopping at the first disconnect. Returns how many
    /// events were consumed before it: every write up to there has been
    /// applied in order, and nothing delivered after the disconnect
    /// touches the table.
    pub fn run_until_disconnect(&mut self, events: &Vec<ConnectionEvent>) -> (n: usize)
        ensures
            n <= events@.len(),
            final(self).hid == old(self).hid,
            final(self).stick == old(self).stick,
            final(self).player == old(self).player,
            final(self).table == spec_route_all(old(self).table, events@),
            n < events@.len() ==> spec_is_disconnect(events@[n as int]),
            forall|j: int| 0 <= j < n ==> !spec_is_disconnect(events@[j]),
            n == events@.len() ==> forall|j: int| 0 <= j < events@.len()
                ==> !spec_is_disconnect(events@[j]),
    {
        let ghost all = events@;
        let ghost start = self.table;
        let mut i: usize = 0;
        proof {
            assert(all.skip(0) =~= all);
        }
        while i < events.len()
            invariant
                i <= all.len(),
                events@ == all,
                start == old(self).table,
                self.hid == old(self).hid,
                self.stick == old(self).stick,
                self.player == old(self).player,
                spec_route_all(self.table, all.skip(i as int)) == spec_route_all(start, all),
                forall|j: int| 0 <= j < i ==> !spec_is_disconnect(all[j]),
            decreases all.len() - i,
        {
            proof {
                assert(all.skip(i as int)[0] == all[i as int]);
                assert(all.skip(i as int).skip(1) =~= all.skip(i as int + 1));
            }
            let ended = match self.handle_event(&events[i]) {
                RouterOutcome::SessionEnded => true,
                _ => false,
            };
            if ended {
                proof {
                    assert(spec_is_disconnect(all[i as int]));
                    assert(spec_route_all(self.table, all.skip(i as int)) == self.table);
                }
                return i;
            }
            i = i + 1;
        }
        assert(all.skip(all.len() as int) =~= Seq::<ConnectionEvent>::empty());
        i
    }
}

/// An applied write touches nothing but the one writable attribute:
/// every handle that is not writable reads back exactly as before.
pub proof fn lemma_router_isolation(table: AttrTable, written: u8)
    ensures
        forall|h: u16| !spec_writable(h) ==> spec_get(
            (AttrTable { player_index: written, ..table }),
            h,
        ) == spec_get(table, h),
{
}

} // verus!
