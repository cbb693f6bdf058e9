//! Instants relative to the Unix epoch.

use vstd::prelude::*;
use crate::calendar::{strftime_at, strftime_text, text_view};
use crate::decimal::{decimal_text, fraction_text, push_decimal, push_fraction};

verus! {

/// Nanoseconds in one second.
pub const NANOS_PER_SEC: u32 = 1_000_000_000;

/// An instant: `secs` whole seconds since 1970-01-01T00:00:00Z, negative
/// before it, and `nanos` nanoseconds past that second.
#[derive(Clone, Copy, Debug)]
pub struct Timestamp {
    pub(crate) secs: i64,
    pub(crate) nanos: u32,
}

impl View for Timestamp {
    type V = int;

    /// Nanoseconds since the epoch.
    closed spec fn view(&self) -> int {
        self.secs * NANOS_PER_SEC + self.nanos
    }
}

/// The numeral of `nanos` nanoseconds in seconds: a minus sign if negative,
/// the whole seconds, and, unless the rest is zero, a point and the rest's
/// digits down to the last that is not zero.
pub open spec fn epoch_text(nanos: int) -> Seq<char> {
    let magnitude = if nanos < 0 {
        -nanos
    } else {
        nanos
    };
    let sign = if nanos < 0 {
        seq!['-']
    } else {
        Seq::empty()
    };
    sign + decimal_text((magnitude / (NANOS_PER_SEC as int)) as nat) + fraction_text(
        (magnitude % (NANOS_PER_SEC as int)) as nat,
    )
}

impl Timestamp {
    #[verifier::type_invariant]
    spec fn in_range(self) -> bool {
        self.nanos < NANOS_PER_SEC
    }

    /// Whole seconds since the epoch, rounded down.
    pub closed spec fn whole_secs(self) -> int {
        self.secs as int
    }

    /// Nanoseconds past the whole second.
    pub closed spec fn subsec(self) -> int {
        self.nanos as int
    }

    /// The instant `nanos` nanoseconds after second `secs`; `None` unless
    /// `nanos` is less than a second.
    pub fn new(secs: i64, nanos: u32) -> (made: Option<Timestamp>)
        ensures
            made is Some <==> nanos < NANOS_PER_SEC,
            made matches Some(t) ==> t.whole_secs() == secs && t.subsec() == nanos && t@ == secs
                * NANOS_PER_SEC + nanos,
    {
        if nanos < NANOS_PER_SEC {
            Some(Timestamp { secs, nanos })
        } else {
            None
        }
    }

    /// The instant that lies `secs` seconds and `nanos` nanoseconds after
    /// the epoch; `None` unless `nanos` is less than a second and the
    /// seconds can be counted.
    pub fn after_epoch(secs: u64, nanos: u32) -> (made: Option<Timestamp>)
        ensures
            made is Some <==> nanos < NANOS_PER_SEC && secs <= i64::MAX,
            made matches Some(t) ==> t.whole_secs() == secs && t.subsec() == nanos && t@ == secs
                * NANOS_PER_SEC + nanos,
    {
        if nanos < NANOS_PER_SEC && secs <= i64::MAX as u64 {
            Some(Timestamp { secs: secs as i64, nanos })
        } else {
            None
        }
    }

    /// The instant that lies `secs` seconds and `nanos` nanoseconds before
    /// the epoch; `None` unless `nanos` is less than a second and the
    /// seconds can be counted. Its whole seconds are rounded down, so that
    /// the nanoseconds past them are never negative.
    pub fn before_epoch(secs: u64, nanos: u32) -> (made: Option<Timestamp>)
        ensures
            made is Some <==> nanos < NANOS_PER_SEC && secs * NANOS_PER_SEC + nanos <= -i64::MIN
                * NANOS_PER_SEC,
            made matches Some(t) ==> {
                &&& t@ == -(secs * NANOS_PER_SEC + nanos)
                &&& 0 <= t.subsec() < NANOS_PER_SEC
                &&& nanos == 0 ==> t.whole_secs() == -secs && t.subsec() == 0
                &&& nanos != 0 ==> t.whole_secs() == -secs - 1 && t.subsec() == NANOS_PER_SEC
                    - nanos
            },
    {
        if nanos >= NANOS_PER_SEC {
            None
        } else if secs <= i64::MAX as u64 {
            let whole: i64 = -(secs as i64);
            if nanos == 0 {
                Some(Timestamp { secs: whole, nanos: 0 })
            } else {
                Some(Timestamp { secs: whole - 1, nanos: NANOS_PER_SEC - nanos })
            }
        } else if secs == i64::MAX as u64 + 1 && nanos == 0 {
            Some(Timestamp { secs: i64::MIN, nanos: 0 })
        } else {
            None
        }
    }

    /// The nanoseconds since the epoch are those of the whole seconds and
    /// those past them: the seconds since the epoch and the calendar date
    /// are written of one and the same instant.
    pub proof fn lemma_view_of_parts(self)
        ensures
            self@ == self.whole_secs() * NANOS_PER_SEC + self.subsec(),
    {
    }

    /// From the epoch on, the numeral of an instant is the decimal numeral
    /// of its whole seconds, followed by its nanoseconds as a fraction: the
    /// seconds that are written are the seconds whose calendar date is
    /// written.
    pub proof fn lemma_epoch_text_of_parts(self)
        requires
            0 <= self.whole_secs(),
            0 <= self.subsec() < NANOS_PER_SEC,
        ensures
            epoch_text(self@) == decimal_text(self.whole_secs() as nat) + fraction_text(
                self.subsec() as nat,
            ),
    {
        assert(Seq::<char>::empty() + decimal_text(self.whole_secs() as nat) =~= decimal_text(
            self.whole_secs() as nat,
        ));
    }

    /// Whole seconds since the epoch, rounded down.
    pub fn secs(&self) -> (secs: i64)
        ensures
            secs == self.whole_secs(),
    {
        self.secs
    }

    /// Nanoseconds past the whole second.
    pub fn subsec_nanos(&self) -> (nanos: u32)
        ensures
            nanos == self.subsec(),
            nanos < NANOS_PER_SEC,
    {
        proof {
            use_type_invariant(self);
        }
        self.nanos
    }

    /// The instant as seconds since the epoch, in decimal.
    pub fn epoch_string(&self) -> (text: String)
        ensures
            text@ == epoch_text(self@),
    {
        proof {
            use_type_invariant(self);
        }
        let mut text = String::new();
        let whole: u64;
        let part: u32;
        if self.secs >= 0 {
            whole = self.secs as u64;
            part = self.nanos;
        } else {
            proof {
                reveal_strlit("-");
            }
            text.append("-");
            let below: u64 = (-(self.secs + 1)) as u64;
            if self.nanos == 0 {
                whole = below + 1;
                part = 0;
            } else {
                whole = below;
                part = NANOS_PER_SEC - self.nanos;
            }
        }
        push_decimal(&mut text, whole);
        push_fraction(&mut text, part);
        text
    }

    /// The instant's calendar date and time under the strftime template
    /// `template`, in a zone `east` seconds ahead of UTC.
    pub fn calendar_string(&self, template: &str, east: i32) -> (text: Option<String>)
        ensures
            text_view(text) == strftime_text(
                self.whole_secs(),
                self.subsec(),
                east as int,
                template@,
            ),
    {
        strftime_at(self.secs, self.nanos, east, template)
    }
}

} // verus!
