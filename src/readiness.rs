//! What the reconciler reads from the media element.
use vstd::prelude::*;

verus! {

/// How much media data the element has buffered, in the host's order.
#[derive(Clone, Copy, Debug, PartialEq, Eq, Structural)]
pub enum Readiness {
    Nothing,
    Metadata,
    CurrentData,
    FutureData,
    EnoughData,
}

impl Readiness {
    /// The host's numeric level of this readiness, from 0 to 4.
    pub open spec fn level(self) -> nat {
        match self {
            Readiness::Nothing => 0,
            Readiness::Metadata => 1,
            Readiness::CurrentData => 2,
            Readiness::FutureData => 3,
            Readiness::EnoughData => 4,
        }
    }

    /// Enough is buffered to play through without stalling at once.
    pub open spec fn spec_is_ready(self) -> bool {
        self.level() >= 3
    }

    /// The readiness that the host reports as `level`; a level past the last
    /// named one counts as the last.
    pub fn from_level(level: u16) -> (r: Readiness)
        ensures
            level <= 4 ==> r.level() == level,
            level > 4 ==> r == Readiness::EnoughData,
    {
        match level {
            0 => Readiness::Nothing,
            1 => Readiness::Metadata,
            2 => Readiness::CurrentData,
            3 => Readiness::FutureData,
            _ => Readiness::EnoughData,
        }
    }

    /// Whether the element has buffered past the play threshold.
    pub fn is_ready(&self) -> (r: bool)
        ensures
            r == self.spec_is_ready(),
    {
        match self {
            Readiness::FutureData | Readiness::EnoughData => true,
            _ => false,
        }
    }
}

/// The result of `str::trim` on a source URL: the text without its leading
/// and trailing white space.
pub uninterp spec fn trimmed(s: Seq<char>) -> Seq<char>;

/// Relies on `str::trim`: the result depends on the text alone, and the
/// trimmed form of an empty text is empty.
#[verifier::external_body]
fn trim(s: &str) -> (r: &str)
    ensures
        r@ == trimmed(s@),
        s@.len() == 0 ==> r@.len() == 0,
{
    s.trim()
}

/// A source is blank when nothing is left of it once white space is trimmed.
pub open spec fn spec_is_blank(source: Seq<char>) -> bool {
    trimmed(source).len() == 0
}

/// Whether the element's source URL is empty or only white space.
pub fn is_blank_source(source: &str) -> (r: bool)
    ensures
        r == spec_is_blank(source@),
        source@.len() == 0 ==> r,
{
    let t = trim(source);
    t.is_empty()
}

/// One reading of the element's live state, taken just before a decision.
#[derive(Clone, Copy, Debug, PartialEq, Eq, Structural)]
pub struct Observation {
    /// The element's source is a non-blank URL.
    pub has_source: bool,
    /// The element reports itself paused.
    pub paused: bool,
    pub readiness: Readiness,
}

impl Observation {
    /// Reads the element's state from its raw properties.
    pub fn read(source: &str, paused: bool, level: u16) -> (r: Observation)
        ensures
            r.has_source == !spec_is_blank(source@),
            r.paused == paused,
            level <= 4 ==> r.readiness.level() == level,
            level > 4 ==> r.readiness == Readiness::EnoughData,
    {
        Observation {
            has_source: !is_blank_source(source),
            paused,
            readiness: Readiness::from_level(level),
        }
    }
}

} // verus!
