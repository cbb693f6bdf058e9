//! What a run is asked to report, and how.

use vstd::prelude::*;

verus! {

/// How a timestamp is written.
#[derive(Clone, Copy, Debug, PartialEq, Eq, Structural)]
pub enum UnitMode {
    /// Seconds since the Unix epoch.
    Epoch,
    /// A calendar date and time in the local time zone.
    Human,
    /// The seconds, a space, and the calendar date and time.
    Both,
}

impl UnitMode {
    /// The mode that a selector names: `e`, `h` or `a`.
    pub open spec fn of_selector(selector: Seq<char>) -> Option<UnitMode> {
        if selector == seq!['e'] {
            Some(UnitMode::Epoch)
        } else if selector == seq!['h'] {
            Some(UnitMode::Human)
        } else if selector == seq!['a'] {
            Some(UnitMode::Both)
        } else {
            None
        }
    }

    /// The selector that names a mode.
    pub open spec fn selector_text(self) -> Seq<char> {
        match self {
            UnitMode::Epoch => seq!['e'],
            UnitMode::Human => seq!['h'],
            UnitMode::Both => seq!['a'],
        }
    }

    /// Whether the mode writes a calendar date.
    pub open spec fn needs_calendar(self) -> bool {
        self != UnitMode::Epoch
    }

    /// Reads a selector; `None` for anything but `e`, `h` and `a`.
    pub fn from_selector(selector: &str) -> (mode: Option<UnitMode>)
        ensures
            mode == Self::of_selector(selector@),
    {
        if selector.unicode_len() != 1 {
            return None;
        }
        let c = selector.get_char(0);
        assert(selector@ =~= seq![c]);
        if c == 'e' {
            Some(UnitMode::Epoch)
        } else if c == 'h' {
            Some(UnitMode::Human)
        } else if c == 'a' {
            Some(UnitMode::Both)
        } else {
            None
        }
    }

    /// The selector that names this mode.
    pub fn selector(&self) -> (text: &'static str)
        ensures
            text@ == self.selector_text(),
    {
        proof {
            reveal_strlit("e");
            reveal_strlit("h");
            reveal_strlit("a");
        }
        let text: &'static str = match self {
            UnitMode::Epoch => "e",
            UnitMode::Human => "h",
            UnitMode::Both => "a",
        };
        text
    }

    /// Reading a mode's selector gives the mode back.
    pub proof fn lemma_selector_round_trip(self)
        ensures
            Self::of_selector(self.selector_text()) == Some(self),
    {
        assert(seq!['h'][0] == 'h');
        assert(seq!['a'][0] == 'a');
    }
}

impl Default for UnitMode {
    /// The calendar date alone.
    fn default() -> (mode: UnitMode)
        ensures
            mode == UnitMode::Human,
    {
        UnitMode::Human
    }
}

/// The template used when none is given: year, month, day, and the time on
/// the 24-hour clock.
pub const DEFAULT_FORMAT: &'static str = "%Y-%m-%d %H:%M:%S";

/// The request of one run.
#[derive(Clone, Debug)]
pub struct Options {
    /// The paths to report on, in order.
    pub files: Vec<String>,
    /// Whether creation times were asked for.
    pub want_creation: bool,
    /// Whether modification times were asked for.
    pub want_modified: bool,
    /// Whether access times were asked for.
    pub want_accessed: bool,
    /// How each timestamp is written.
    pub unit_mode: UnitMode,
    /// The strftime template of the calendar date.
    pub output_format: String,
}

impl Options {
    /// Whether no kind of timestamp was asked for.
    pub open spec fn none_selected(self) -> bool {
        !self.want_modified && !self.want_creation && !self.want_accessed
    }

    /// Whether modification times are reported: when asked for, or when
    /// nothing was.
    pub open spec fn reports_modified(self) -> bool {
        self.want_modified || self.none_selected()
    }

    /// Whether creation times are reported: when asked for, or when nothing
    /// was.
    pub open spec fn reports_creation(self) -> bool {
        self.want_creation || self.none_selected()
    }

    /// Whether access times are reported: when asked for, or when nothing
    /// was.
    pub open spec fn reports_accessed(self) -> bool {
        self.want_accessed || self.none_selected()
    }

    /// A request for `files` with nothing selected, the default mode and the
    /// default template.
    pub fn new(files: Vec<String>) -> (options: Options)
        ensures
            options.files == files,
            options.none_selected(),
            options.unit_mode == UnitMode::Human,
            options.output_format@ == DEFAULT_FORMAT@,
    {
        Options {
            files,
            want_creation: false,
            want_modified: false,
            want_accessed: false,
            unit_mode: UnitMode::Human,
            output_format: DEFAULT_FORMAT.to_owned(),
        }
    }

    /// Whether modification times are reported.
    pub fn shows_modified(&self) -> (shown: bool)
        ensures
            shown == self.reports_modified(),
    {
        self.want_modified || !(self.want_creation || self.want_accessed)
    }

    /// Whether creation times are reported.
    pub fn shows_creation(&self) -> (shown: bool)
        ensures
            shown == self.reports_creation(),
    {
        self.want_creation || !(self.want_modified || self.want_accessed)
    }

    /// Whether access times are reported.
    pub fn shows_accessed(&self) -> (shown: bool)
        ensures
            shown == self.reports_accessed(),
    {
        self.want_accessed || !(self.want_modified || self.want_creation)
    }
}

} // verus!
