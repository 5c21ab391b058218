//! Laptop lid state and the two lid-state input protocols.

use vstd::prelude::*;
use crate::text::contains_seq;
use crate::text::contains_str;
use crate::text::str_eq;

verus! {

/// The position of the laptop lid.
#[derive(Debug, Clone, Copy, PartialEq, Eq, Structural)]
pub enum LidState {
    Open,
    Closed,
}

impl LidState {
    /// True exactly when the lid is open.
    pub fn is_open(&self) -> (r: bool)
        ensures
            r == (*self is Open),
    {
        match self {
            LidState::Open => true,
            LidState::Closed => false,
        }
    }
}

/// An event read from the acpid socket that this system reacts to.
#[derive(Debug, Clone, Copy, PartialEq, Eq, Structural)]
pub enum AcpidEvent {
    LidEvent(LidState),
}

/// The two recognized acpid lines; every other line is no event.
pub open spec fn acpid_event_of(line: Seq<char>) -> Option<AcpidEvent> {
    if line == "button/lid LID close"@ {
        Some(AcpidEvent::LidEvent(LidState::Closed))
    } else if line == "button/lid LID open"@ {
        Some(AcpidEvent::LidEvent(LidState::Open))
    } else {
        None
    }
}

impl AcpidEvent {
    /// Parse one trimmed line from the acpid socket. Exactly the lines
    /// `button/lid LID close` and `button/lid LID open` are events; any
    /// other line is ignored, not an error.
    pub fn parse(line: &str) -> (r: Option<AcpidEvent>)
        ensures
            r == acpid_event_of(line@),
    {
        if str_eq(line, "button/lid LID close") {
            Some(AcpidEvent::LidEvent(LidState::Closed))
        } else if str_eq(line, "button/lid LID open") {
            Some(AcpidEvent::LidEvent(LidState::Open))
        } else {
            None
        }
    }
}

/// The lid state encoded in the lid state file's text: any content
/// containing "open" is open, else any containing "closed" is closed, and
/// anything else is unrecognized.
pub open spec fn lid_state_of(content: Seq<char>) -> Option<LidState> {
    if contains_seq(content, "open"@) {
        Some(LidState::Open)
    } else if contains_seq(content, "closed"@) {
        Some(LidState::Closed)
    } else {
        None
    }
}

/// Parse the text content of the lid state file. `None` exactly when the
/// content mentions neither "open" nor "closed": that is the error case the
/// caller must report.
pub fn parse_lid_state(content: &str) -> (r: Option<LidState>)
    ensures
        r == lid_state_of(content@),
{
    if contains_str(content, "open") {
        Some(LidState::Open)
    } else if contains_str(content, "closed") {
        Some(LidState::Closed)
    } else {
        None
    }
}

} // verus!
