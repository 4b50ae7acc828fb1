//! Analog-stick input: per-axis level quantization with change detection.
//!
//! Each axis turns a raw converter reading into a small signed level:
//! the calibration offset is subtracted, the remainder is divided by a
//! fixed divisor (truncating toward zero, as the hardware arithmetic
//! does), the result is negated to match the stick's orientation and
//! clamped to the signed-byte range. A notification is owed exactly when
//! the level differs from the last one notified; identical samples are
//! swallowed so analog noise never saturates the link.

use vstd::prelude::*;
use vstd::arithmetic::div_mod::{
    lemma_div_basics_2, lemma_div_is_ordered_by_denominator, lemma_div_pos_is_pos,
};

verus! {

/// Attribute handle of the stick's horizontal level.
pub const STICK_X_HANDLE: u16 = 7;

/// Attribute handle of the stick's vertical level.
pub const STICK_Y_HANDLE: u16 = 8;

/// Calibration offset: half the converter's full range.
pub const STICK_OFFSET: i16 = 1870;

/// Divisor that maps the centered reading onto a range of roughly
/// minus three to three levels.
pub const STICK_DIVIDER: i16 = 623;

/// Milliseconds between two samples of the stick.
pub const STICK_POLL_MS: u64 = 20;

/// The schema entries for the two stick axes: each level is readable
/// and notifiable under its own stable handle.
pub struct StickService {
    pub x: u16,
    pub y: u16,
}

impl StickService {
    /// The axis handles are the catalog's stable ones.
    pub open spec fn wf(&self) -> bool {
        &&& self.x == STICK_X_HANDLE
        &&& self.y == STICK_Y_HANDLE
    }

    /// The fixed stick attribute catalog.
    pub fn new() -> (s: Self)
        ensures
            s.wf(),
    {
        StickService { x: STICK_X_HANDLE, y: STICK_Y_HANDLE }
    }
}

/// Division truncating toward zero, as the machine division does.
pub open spec fn div_trunc(a: int, b: int) -> int
    recommends
        b != 0,
{
    if a == 0 {
        0
    } else if a > 0 && b > 0 {
        a / b
    } else if a < 0 && b < 0 {
        (a * -1) / (b * -1)
    } else if a < 0 {
        ((a * -1) / b) * -1
    } else {
        (a / (b * -1)) * -1
    }
}

/// Clamp a value into the signed-byte range.
pub open spec fn clamp_i8(v: int) -> int {
    if v > 127 {
        127
    } else if v < -128 {
        -128
    } else {
        v
    }
}

/// The level a raw reading quantizes to: offset removed, scaled down,
/// inverted and clamped to a signed byte.
pub open spec fn quantize(raw: int, offset: int, divider: int) -> int
    recommends
        divider != 0,
{
    clamp_i8(-div_trunc(raw - offset, divider))
}

/// Truncating division never grows the magnitude of the numerator.
proof fn lemma_div_trunc_bound(a: int, b: int)
    requires
        b != 0,
    ensures
        a >= 0 ==> -a <= div_trunc(a, b) <= a,
        a < 0 ==> a <= div_trunc(a, b) <= -a,
{
    let m = if a >= 0 { a } else { -a };
    let d = if b > 0 { b } else { -b };
    assert(m >= 0 && d >= 1);
    lemma_div_pos_is_pos(m, d);
    lemma_div_is_ordered_by_denominator(m, 1, d);
    lemma_div_basics_2(m);
    assert(0 <= m / d <= m);
}

/// One analog channel: its calibration, and the last level notified.
/// A channel is created once at startup and reused across sessions; the
/// stored level deliberately survives a disconnect, so a reconnecting
/// peer sees the last-known level until the next change.
pub struct Axis {
    /// Calibration offset subtracted from every raw reading.
    pub offset: i16,
    /// Divisor that scales the centered reading down to a level.
    pub divider: i16,
    /// The last level notified for this channel.
    pub old: i8,
}

impl Axis {
    /// The divisor is usable as a divisor.
    pub open spec fn wf(&self) -> bool {
        self.divider != 0
    }

    /// A fresh channel, calibrated and centered on level zero.
    pub fn new(offset: i16, divider: i16) -> (a: Self)
        requires
            divider != 0,
        ensures
            a.offset == offset,
            a.divider == divider,
            a.old == 0,
            a.wf(),
    {
        Self { offset, divider, old: 0 }
    }

    /// Quantize one raw reading. The result is `Some(level)` exactly when
    /// the level differs from the last one notified, in which case the
    /// stored level moves to it; an unchanged level returns `None` and
    /// leaves the channel as it was.
    pub fn changed(&mut self, new_raw: i16) -> (r: Option<i8>)
        requires
            old(self).wf(),
        ensures
            final(self).offset == old(self).offset,
            final(self).divider == old(self).divider,
            final(self).wf(),
            ({
                let q = quantize(new_raw as int, old(self).offset as int, old(self).divider as int);
                &&& (r is Some <==> q != old(self).old as int)
                &&& (r matches Some(v) ==> v as int == q && final(self).old == v)
                &&& (r is None ==> *final(self) == *old(self))
            }),
    {
        let diff: i32 = new_raw as i32 - self.offset as i32;
        let d: i32 = self.divider as i32;
        proof {
            lemma_div_trunc_bound(diff as int, d as int);
        }
        let q0: i32 = match diff.checked_div(d) {
            Some(q) => q,
            None => 0,
        };
        assert(q0 == div_trunc(diff as int, d as int));
        let neg: i32 = -q0;
        let new: i8 = if neg > 127 {
            127
        } else if neg < -128 {
            -128
        } else {
            neg as i8
        };
        assert(new as int == quantize(new_raw as int, self.offset as int, self.divider as int));
        if new != self.old {
            self.old = new;
            Some(new)
        } else {
            None
        }
    }
}

/// The levels notified over a whole run of raw samples, starting from a
/// last-notified level.
pub open spec fn quant_emissions(prev: int, offset: int, divider: int, samples: Seq<int>) -> Seq<int>
    decreases samples.len(),
{
    if samples.len() == 0 {
        Seq::empty()
    } else {
        let q = quantize(samples[0], offset, divider);
        if q != prev {
            seq![q] + quant_emissions(q, offset, divider, samples.skip(1))
        } else {
            quant_emissions(prev, offset, divider, samples.skip(1))
        }
    }
}

/// The last-notified level a channel reaches after a whole run of raw
/// samples.
pub open spec fn level_after(prev: int, offset: int, divider: int, samples: Seq<int>) -> int
    decreases samples.len(),
{
    if samples.len() == 0 {
        prev
    } else {
        let q = quantize(samples[0], offset, divider);
        if q != prev {
            level_after(q, offset, divider, samples.skip(1))
        } else {
            level_after(prev, offset, divider, samples.skip(1))
        }
    }
}

impl Axis {
    /// Quantize a whole run of raw samples and collect every level
    /// notified along the way: exactly the emission sequence the
    /// change-only and idempotence laws speak about.
    pub fn run_samples(&mut self, samples: &Vec<i16>) -> (emitted: Vec<i8>)
        requires
            old(self).wf(),
        ensures
            final(self).offset == old(self).offset,
            final(self).divider == old(self).divider,
            final(self).wf(),
            emitted@.map_values(|v: i8| v as int) == quant_emissions(
                old(self).old as int,
                old(self).offset as int,
                old(self).divider as int,
                samples@.map_values(|r: i16| r as int),
            ),
            final(self).old as int == level_after(
                old(self).old as int,
                old(self).offset as int,
                old(self).divider as int,
                samples@.map_values(|r: i16| r as int),
            ),
    {
        let ghost mapped: Seq<int> = samples@.map_values(|r: i16| r as int);
        let ghost start: int = self.old as int;
        let ghost off: int = self.offset as int;
        let ghost div: int = self.divider as int;
        let mut emitted: Vec<i8> = Vec::new();
        let mut i: usize = 0;
        proof {
            assert(mapped.skip(0) =~= mapped);
            assert(emitted@.map_values(|v: i8| v as int) + quant_emissions(start, off, div, mapped)
                =~= quant_emissions(start, off, div, mapped));
        }
        while i < samples.len()
            invariant
                i <= samples@.len(),
                mapped == samples@.map_values(|r: i16| r as int),
                self.offset as int == off,
                self.divider as int == div,
                self.wf(),
                emitted@.map_values(|v: i8| v as int) + quant_emissions(
                    self.old as int,
                    off,
                    div,
                    mapped.skip(i as int),
                ) == quant_emissions(start, off, div, mapped),
                level_after(self.old as int, off, div, mapped.skip(i as int)) == level_after(
                    start,
                    off,
                    div,
                    mapped,
                ),
            decreases samples@.len() - i,
        {
            proof {
                assert(mapped.skip(i as int)[0] == mapped[i as int]);
                assert(mapped[i as int] == samples@[i as int] as int);
                assert(mapped.skip(i as int).skip(1) =~= mapped.skip(i as int + 1));
            }
            match self.changed(samples[i]) {
                Some(level) => {
                    emitted.push(level);
                    assert(emitted@.map_values(|v: i8| v as int) + quant_emissions(
                        self.old as int,
                        off,
                        div,
                        mapped.skip(i as int + 1),
                    ) =~= quant_emissions(start, off, div, mapped));
                },
                None => {},
            }
            i = i + 1;
        }
        assert(mapped.skip(samples@.len() as int) =~= Seq::<int>::empty());
        emitted
    }
}

/// Notifications happen exactly on level changes: the first notified
/// level differs from the starting level, and no two back-to-back
/// notifications carry the same level.
pub proof fn lemma_quantizer_emits_only_changes(prev: int, offset: int, divider: int, samples: Seq<int>)
    ensures
        quant_emissions(prev, offset, divider, samples).len() > 0
            ==> quant_emissions(prev, offset, divider, samples)[0] != prev,
        forall|i: int| 0 <= i < quant_emissions(prev, offset, divider, samples).len() - 1
            ==> quant_emissions(prev, offset, divider, samples)[i + 1]
                != #[trigger] quant_emissions(prev, offset, divider, samples)[i],
    decreases samples.len(),
{
    let e = quant_emissions(prev, offset, divider, samples);
    if samples.len() > 0 {
        let q = quantize(samples[0], offset, divider);
        if q != prev {
            let rest = quant_emissions(q, offset, divider, samples.skip(1));
            lemma_quantizer_emits_only_changes(q, offset, divider, samples.skip(1));
            assert(e == seq![q] + rest);
            assert forall|i: int| 0 <= i < e.len() - 1 implies e[i + 1] != #[trigger] e[i] by {
                if i > 0 {
                    assert(e[i] == rest[i - 1]);
                    assert(e[i + 1] == rest[i]);
                } else {
                    assert(e[0] == q);
                    if rest.len() > 0 {
                        assert(e[1] == rest[0]);
                    }
                }
            }
        } else {
            lemma_quantizer_emits_only_changes(prev, offset, divider, samples.skip(1));
        }
    }
}

/// Samples whose level never leaves the last-notified one produce no
/// notification at all.
pub proof fn lemma_quantizer_quiet_when_unchanged(prev: int, offset: int, divider: int, samples: Seq<int>)
    requires
        forall|i: int| 0 <= i < samples.len()
            ==> quantize(#[trigger] samples[i], offset, divider) == prev,
    ensures
        quant_emissions(prev, offset, divider, samples) == Seq::<int>::empty(),
    decreases samples.len(),
{
    if samples.len() > 0 {
        assert(forall|i: int| 0 <= i < samples.skip(1).len()
            ==> #[trigger] samples.skip(1)[i] == samples[i + 1]);
        lemma_quantizer_quiet_when_unchanged(prev, offset, divider, samples.skip(1));
    }
}

/// Repeating one and the same raw sample notifies at most once: after
/// the first change every further identical sample is swallowed.
pub proof fn lemma_quantizer_idempotent(prev: int, offset: int, divider: int, samples: Seq<int>)
    requires
        forall|i: int| 0 <= i < samples.len() ==> #[trigger] samples[i] == samples[0],
    ensures
        quant_emissions(prev, offset, divider, samples).len() <= 1,
{
    if samples.len() > 0 {
        let q = quantize(samples[0], offset, divider);
        assert(forall|i: int| 0 <= i < samples.skip(1).len()
            ==> #[trigger] samples.skip(1)[i] == samples[i + 1]);
        assert(forall|i: int| 0 <= i < samples.skip(1).len()
            ==> quantize(#[trigger] samples.skip(1)[i], offset, divider) == q);
        if q != prev {
            lemma_quantizer_quiet_when_unchanged(q, offset, divider, samples.skip(1));
        } else {
            lemma_quantizer_quiet_when_unchanged(prev, offset, divider, samples.skip(1));
            assert(forall|i: int| 0 <= i < samples.len()
                ==> quantize(#[trigger] samples[i], offset, divider) == prev);
            lemma_quantizer_quiet_when_unchanged(prev, offset, divider, samples);
        }
    }
}

/// What one pair of samples asks the surrounding task to do.
pub struct StickStep {
    /// The new horizontal level to notify, if it changed.
    pub notify_x: Option<i8>,
    /// The new vertical level to notify, if it changed.
    pub notify_y: Option<i8>,
    /// The stick position to show, unless the stick is centered.
    pub show: Option<(i8, i8)>,
}

/// Consume one sample of both channels: each axis decides its own
/// notification, and the position is shown whenever the stick does not
/// rest centered on both axes.
pub fn stick_step(x_axis: &mut Axis, y_axis: &mut Axis, raw_x: i16, raw_y: i16) -> (r: StickStep)
    requires
        old(x_axis).wf(),
        old(y_axis).wf(),
    ensures
        final(x_axis).wf(),
        final(y_axis).wf(),
        final(x_axis).offset == old(x_axis).offset,
        final(x_axis).divider == old(x_axis).divider,
        final(y_axis).offset == old(y_axis).offset,
        final(y_axis).divider == old(y_axis).divider,
        ({
            let qx = quantize(raw_x as int, old(x_axis).offset as int, old(x_axis).divider as int);
            &&& (r.notify_x is Some <==> qx != old(x_axis).old as int)
            &&& (r.notify_x matches Some(v) ==> v as int == qx && final(x_axis).old == v)
            &&& (r.notify_x is None ==> *final(x_axis) == *old(x_axis))
        }),
        ({
            let qy = quantize(raw_y as int, old(y_axis).offset as int, old(y_axis).divider as int);
            &&& (r.notify_y is Some <==> qy != old(y_axis).old as int)
            &&& (r.notify_y matches Some(v) ==> v as int == qy && final(y_axis).old == v)
            &&& (r.notify_y is None ==> *final(y_axis) == *old(y_axis))
        }),
        r.show == (if final(x_axis).old == 0 && final(y_axis).old == 0 {
            None::<(i8, i8)>
        } else {
            Some((final(x_axis).old, final(y_axis).old))
        }),
{
    let notify_x = x_axis.changed(raw_x);
    let notify_y = y_axis.changed(raw_y);
    let show = if x_axis.old == 0 && y_axis.old == 0 {
        None
    } else {
        Some((x_axis.old, y_axis.old))
    };
    StickStep { notify_x, notify_y, show }
}

} // verus!
