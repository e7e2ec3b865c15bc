//! The parameter cell: the live value of one integer parameter.
//!
//! An `IntParameter` holds the current plain value and the current
//! normalized modulation amount in two independent slots, composes nothing
//! on read, and hands every successful write synchronously to an optional
//! change-notification sink. Each write clamps into the declared range, so
//! the stored plain value lies in `[min, max]` at all times.
//!
//! The notification sink is the caller's procedure. Every write's contract
//! says that the installed sink has heard the current plain value when the
//! write returns (the sink's `heard` predicate). The sink runs in the
//! writing thread, immediately after the slot is stored; an implementation
//! meant for the audio-safe path must not allocate, block, or run unbounded
//! work — that timing obligation lies on the implementor and cannot be
//! stated here.

use vstd::prelude::*;

use crate::formatter::IntFormatter;
use crate::info::ParameterInfo;
use crate::normalized::Normalized;
use crate::range::IntRange;

verus! {

/// A boundary failure: a plain value outside the declared range, or text
/// that does not denote a value. Routine and recoverable; no write happens
/// when one is reported.
#[derive(Clone, Copy, PartialEq, Eq, Structural, Debug)]
pub enum Error {
    OutOfDomain,
    ParseFailure,
}

/// A change-notification sink: called synchronously with the new plain
/// value after every successful value or modulation write.
///
/// `heard(plain)` says what it means for this sink to have taken delivery
/// of a notification carrying `plain`; `notify` must leave the sink in a
/// state where that holds, and every write operation of the cell promises
/// it of the installed sink. When installed on the audio-safe path,
/// `notify` must also not allocate, lock, perform I/O, or run for
/// unbounded time; that timing contract cannot be enforced statically and
/// binds the implementor.
pub trait ChangeSink {
    /// True when this sink has taken delivery of a notification that the
    /// plain value is `plain`. The default holds of any state: a sink that
    /// keeps no record of deliveries (or one implemented outside verified
    /// code) need not refine it. A sink that does keep a record overrides
    /// it, and `notify`'s contract then pins that record.
    open spec fn heard(&self, plain: i64) -> bool {
        true
    }

    fn notify(&mut self, plain: i64)
        ensures
            final(self).heard(plain),
    ;
}

/// A sink that ignores every notification; discarding is its way of
/// taking delivery.
#[derive(Clone, Copy)]
pub struct SilentSink;

impl ChangeSink for SilentSink {
    fn notify(&mut self, plain: i64) {
    }
}

/// A sink that records the most recent notification; handy for tests and
/// for polling consumers.
#[derive(Clone)]
pub struct RecordingSink {
    pub last_plain: Option<i64>,
}

impl RecordingSink {
    /// A sink that has seen no notification yet.
    pub fn new() -> (r: RecordingSink)
        ensures
            r.last_plain is None,
    {
        RecordingSink { last_plain: None }
    }
}

impl ChangeSink for RecordingSink {
    /// This sink has heard `plain` exactly when it is the recorded value.
    open spec fn heard(&self, plain: i64) -> bool {
        self.last_plain == Some(plain)
    }

    fn notify(&mut self, plain: i64) {
        self.last_plain = Some(plain);
    }
}

/// The live state of one integer parameter: metadata, the current plain
/// value, the current modulation amount, the shared immutable range and
/// formatter policies, and the optional notification sink.
pub struct IntParameter<S: ChangeSink> {
    pub info: ParameterInfo,
    pub value: i64,
    pub modulation: Normalized,
    pub range: IntRange,
    pub formatter: IntFormatter,
    pub sink: Option<S>,
}

impl<S: ChangeSink> IntParameter<S> {
    /// The cell is well formed: the range is ordered, the stored plain
    /// value lies inside it, the metadata's step count is the range's, and
    /// the metadata's default is a unit value.
    pub open spec fn wf(self) -> bool {
        &&& self.range.wf()
        &&& self.range.spec_min() <= self.value <= self.range.spec_max()
        &&& self.info@.steps == self.range.spec_steps()
        &&& self.info.wf()
    }

    /// The notification duty discharged: a sink that was installed before
    /// the write has heard `plain` afterwards, and no sink appears where
    /// none was installed. Every write operation promises this of the
    /// plain value it holds when it returns.
    pub open spec fn notified_from(self, before: IntParameter<S>, plain: i64) -> bool {
        &&& before.sink is None ==> self.sink is None
        &&& before.sink is Some ==> (self.sink matches Some(s) && s.heard(plain))
    }

    /// A parameter over the given range, holding the plain value that
    /// normalized 0.0 selects, with no path, no unit suffix and no sink.
    pub fn new(id: u32, name: String, range: IntRange) -> (r: IntParameter<S>)
        requires
            range.wf(),
        ensures
            r.wf(),
            r.info@.id == id,
            r.info@.name == name@,
            r.info@.default_normalized_units == 0,
            r.value == range.spec_min(),
            r.modulation@ == 0,
            r.range == range,
            r.sink is None,
            r.formatter.spec_unit() == Seq::<char>::empty(),
    {
        let info = ParameterInfo::new(id, name).with_steps(range.steps());
        let value = range.normalized_to_plain(Normalized::zero());
        proof {
            assert(Normalized::spec_clamped_units(0) == 0);
            assert(0 * (range.spec_steps() + 1) == 0);
            assert(0int / (crate::normalized::UNIT_SCALE as int) == 0) by (nonlinear_arith)
                requires
                    0 < crate::normalized::UNIT_SCALE,
            ;
        }
        let formatter = IntFormatter::new("");
        proof {
            reveal_strlit("");
            assert(formatter.spec_unit() =~= Seq::<char>::empty());
        }
        IntParameter {
            info,
            value,
            modulation: Normalized::zero(),
            range,
            formatter,
            sink: None,
        }
    }

    /// The same parameter with the given hierarchical path.
    pub fn with_path(self, path: String) -> (r: IntParameter<S>)
        ensures
            r == (IntParameter { info: r.info, ..self }),
            r.info@ == (crate::info::ParameterInfoView { path: path@, ..self.info@ }),
            r.wf() == self.wf(),
    {
        IntParameter { info: self.info.with_path(path), ..self }
    }

    /// The same parameter with the given default plain value, which also
    /// becomes the current value. The default must lie in the range.
    pub fn with_default_value(self, value: i64) -> (r: IntParameter<S>)
        requires
            self.wf(),
            self.range.spec_min() <= value <= self.range.spec_max(),
        ensures
            r.wf(),
            r.value == value,
            r.info@ == (crate::info::ParameterInfoView {
                default_normalized_units: self.range.spec_plain_to_normalized(value as int),
                ..self.info@
            }),
            r.modulation == self.modulation,
            r.range == self.range,
            r.formatter == self.formatter,
            r.sink == self.sink,
    {
        let default_normalized = self.range.plain_to_normalized(value).unwrap();
        IntParameter {
            info: self.info.with_default_normalized_value(default_normalized),
            value,
            ..self
        }
    }

    /// The same parameter with the given formatter.
    pub fn with_formatter(self, formatter: IntFormatter) -> (r: IntParameter<S>)
        ensures
            r == (IntParameter { formatter, ..self }),
            r.wf() == self.wf(),
    {
        IntParameter { formatter, ..self }
    }

    /// The same parameter with the given notification sink installed.
    pub fn on_value_changed(self, sink: S) -> (r: IntParameter<S>)
        ensures
            r == (IntParameter { sink: Some(sink), ..self }),
            r.wf() == self.wf(),
    {
        IntParameter { sink: Some(sink), ..self }
    }

    /// Hands the current plain value to the sink, when one is installed.
    fn changed(&mut self)
        ensures
            *final(self) == (IntParameter { sink: final(self).sink, ..*old(self) }),
            final(self).notified_from(*old(self), old(self).value),
    {
        let plain = self.value;
        match &mut self.sink {
            Some(sink) => sink.notify(plain),
            None => {},
        }
    }

    /// Stores a plain value, clamped into the range, and notifies.
    pub fn set_value(&mut self, value: i64)
        requires
            old(self).wf(),
        ensures
            final(self).wf(),
            final(self).value == old(self).range.spec_clamp(value as int),
            *final(self) == (IntParameter {
                value: final(self).value,
                sink: final(self).sink,
                ..*old(self)
            }),
            final(self).notified_from(*old(self), final(self).value),
    {
        let value = self.range.clamp(value);
        self.value = value;
        self.changed();
    }

    /// The default plain value, derived from the metadata's normalized
    /// default through the range mapping.
    pub fn default_value(&self) -> (r: i64)
        requires
            self.wf(),
        ensures
            r == self.range.spec_normalized_to_plain(self.info@.default_normalized_units),
            self.range.spec_min() <= r <= self.range.spec_max(),
    {
        self.range.normalized_to_plain(self.info.default_normalized_value())
    }

    /// The display text of the current value.
    pub fn to_string(&self) -> (r: String)
        requires
            self.wf(),
        ensures
            r@ == self.formatter.spec_value_to_string(self.value as int),
    {
        self.formatter.value_to_string(self.value)
    }

    /// The parameter's metadata.
    pub fn info(&self) -> (r: &ParameterInfo)
        ensures
            r == self.info,
    {
        &self.info
    }

    /// The current value in normalized form: a unit value under the
    /// range's mapping.
    pub fn normalized_value(&self) -> (r: Normalized)
        requires
            self.wf(),
        ensures
            r@ == self.range.spec_plain_to_normalized(self.value as int),
            r.is_unit(),
    {
        self.range.plain_to_normalized(self.value).unwrap()
    }

    /// Clamps the given normalized value into the unit interval, stores
    /// the plain value it selects, and notifies. Never fails: the mapping
    /// is total.
    pub fn set_normalized_value(&mut self, normalized: Normalized) -> (r: Result<(), Error>)
        requires
            old(self).wf(),
        ensures
            r is Ok,
            final(self).wf(),
            final(self).value == old(self).range.spec_normalized_to_plain(normalized@),
            *final(self) == (IntParameter {
                value: final(self).value,
                sink: final(self).sink,
                ..*old(self)
            }),
            final(self).notified_from(*old(self), final(self).value),
    {
        let plain = self.range.normalized_to_plain(normalized);
        self.set_value(plain);
        Ok(())
    }

    /// The current modulation amount, exactly as stored: modulation is not
    /// clamped and may lie outside the unit interval.
    pub fn normalized_modulation(&self) -> (r: Normalized)
        ensures
            r == self.modulation,
    {
        self.modulation
    }

    /// Stores a modulation amount, unclamped, and notifies. The base value
    /// is untouched: modulation never alters the stored plain value.
    pub fn set_normalized_modulation(&mut self, amount: Normalized)
        ensures
            final(self).modulation == amount,
            final(self).value == old(self).value,
            *final(self) == (IntParameter {
                modulation: amount,
                sink: final(self).sink,
                ..*old(self)
            }),
            final(self).notified_from(*old(self), old(self).value),
            old(self).wf() ==> final(self).wf(),
    {
        self.modulation = amount;
        self.changed();
    }

    /// The display text of the plain value a normalized value selects.
    pub fn normalized_to_string(&self, normalized: Normalized) -> (r: String)
        requires
            self.wf(),
        ensures
            r@ == self.formatter.spec_value_to_string(
                self.range.spec_normalized_to_plain(normalized@),
            ),
    {
        let plain = self.range.normalized_to_plain(normalized);
        self.formatter.value_to_string(plain)
    }

    /// The normalized value denoted by display text: `None` when the text
    /// does not parse or the parsed plain value lies outside the range.
    pub fn string_to_normalized(&self, string: &str) -> (r: Option<Normalized>)
        requires
            self.wf(),
        ensures
            r is Some <==> (self.formatter.spec_string_to_value(string@) matches Some(p)
                && self.range.spec_min() <= p <= self.range.spec_max()),
            r matches Some(n) ==> (self.formatter.spec_string_to_value(string@) matches Some(p)
                && n@ == self.range.spec_plain_to_normalized(p as int) && n.is_unit()),
    {
        match self.formatter.string_to_value(string) {
            Some(plain) => self.range.plain_to_normalized(plain),
            None => None,
        }
    }

    /// The current plain value in its canonical persisted form. Exact for
    /// every representable value.
    pub fn serialize_value(&self) -> (r: i64)
        ensures
            r == self.value,
    {
        self.value
    }

    /// Restores a persisted plain value: out-of-range values are clamped,
    /// never rejected, so state saved under an older, wider range still
    /// loads. Notifies like any other write.
    pub fn deserialize_value(&mut self, value: i64) -> (r: Result<(), Error>)
        requires
            old(self).wf(),
        ensures
            r is Ok,
            final(self).wf(),
            final(self).value == old(self).range.spec_clamp(value as int),
            *final(self) == (IntParameter {
                value: final(self).value,
                sink: final(self).sink,
                ..*old(self)
            }),
            final(self).notified_from(*old(self), final(self).value),
    {
        self.set_value(value);
        Ok(())
    }

    /// The plain value a normalized value selects; total, by clamping.
    pub fn normalized_to_plain(&self, normalized: Normalized) -> (r: i64)
        requires
            self.wf(),
        ensures
            r == self.range.spec_normalized_to_plain(normalized@),
            self.range.spec_min() <= r <= self.range.spec_max(),
    {
        self.range.normalized_to_plain(normalized)
    }

    /// The normalized form of an in-range plain value.
    pub fn plain_to_normalized(&self, plain: i64) -> (r: Normalized)
        requires
            self.wf(),
            self.range.spec_min() <= plain <= self.range.spec_max(),
        ensures
            r@ == self.range.spec_plain_to_normalized(plain as int),
            r.is_unit(),
    {
        self.range.plain_to_normalized(plain).unwrap()
    }

    /// A detached snapshot: an independent cell holding the same current
    /// value and modulation and sharing the same immutable policies, with
    /// no notification wiring. Later writes to either cell never reach the
    /// other.
    pub fn snapshot(&self) -> (r: IntParameter<S>)
        ensures
            r.info@ == self.info@,
            r.value == self.value,
            r.modulation == self.modulation,
            r.range == self.range,
            r.formatter == self.formatter,
            r.sink is None,
            r.wf() == self.wf(),
    {
        IntParameter {
            info: self.info.clone(),
            value: self.value,
            modulation: self.modulation,
            range: self.range,
            formatter: self.formatter,
            sink: None,
        }
    }
}

/// Serialization round-trip law: the persisted form of a well-formed cell's
/// value restores unchanged, because a stored value is already clamped; so
/// deserializing what `serialize_value` returned leaves the value as it
/// was.
pub proof fn lemma_serialize_round_trip<S: ChangeSink>(p: IntParameter<S>)
    requires
        p.wf(),
    ensures
        p.range.spec_clamp(p.value as int) == p.value,
{
}

impl<S: ChangeSink + Clone> Clone for IntParameter<S> {
    /// A value-identical, storage-independent copy. The copy keeps a clone
    /// of the sink but none of the original's live storage: writes to one
    /// cell never reach the other.
    fn clone(&self) -> (r: Self)
        ensures
            r.info@ == self.info@,
            r.value == self.value,
            r.modulation == self.modulation,
            r.range == self.range,
            r.formatter == self.formatter,
            r.sink is Some <==> self.sink is Some,
            r.wf() == self.wf(),
    {
        let sink = match &self.sink {
            Some(sink) => Some(sink.clone()),
            None => None,
        };
        IntParameter {
            info: self.info.clone(),
            value: self.value,
            modulation: self.modulation,
            range: self.range,
            formatter: self.formatter,
            sink,
        }
    }
}

} // verus!
