//! What the detection engine answers, as the session reads it.
//!
//! The engine answers every request with a status code. Each kind of request
//! has a small set of codes that the engine documents; a code outside that
//! set is no answer at all, and the conversions here say so instead of
//! reading a meaning into it.

use vstd::prelude::*;

verus! {

/// The answer of the engine to a request to take a mode or a sample rate.
#[derive(Debug, Clone, Copy, PartialEq, Eq, Structural)]
pub enum ConfigReply {
    /// The engine took the value: status code 0.
    Accepted,
    /// The engine refused the value as invalid: status code -1.
    Rejected,
}

impl ConfigReply {
    /// The answer that a status code stands for, if the engine documents
    /// the code.
    pub open spec fn from_code_spec(code: int) -> Option<ConfigReply> {
        if code == 0 {
            Some(ConfigReply::Accepted)
        } else if code == -1 {
            Some(ConfigReply::Rejected)
        } else {
            None
        }
    }

    /// What a configuration call reports to its caller on this answer.
    pub open spec fn outcome_spec(self) -> Option<()> {
        match self {
            ConfigReply::Accepted => Some(()),
            ConfigReply::Rejected => None,
        }
    }

    /// Reads the status code that the engine returned to a configuration
    /// request. `None` means that the engine broke its own contract.
    pub fn from_code(code: i32) -> (reply: Option<ConfigReply>)
        ensures
            reply == ConfigReply::from_code_spec(code as int),
    {
        match code {
            0 => Some(ConfigReply::Accepted),
            -1 => Some(ConfigReply::Rejected),
            _ => None,
        }
    }

    /// What a configuration call reports to its caller on this answer:
    /// `Some(())` where the engine took the value, `None` where it refused.
    pub fn outcome(&self) -> (res: Option<()>)
        ensures
            res == self.outcome_spec(),
    {
        match self {
            ConfigReply::Accepted => Some(()),
            ConfigReply::Rejected => None,
        }
    }
}

/// The answer of the engine to a frame.
#[derive(Debug, Clone, Copy, PartialEq, Eq, Structural)]
pub enum FrameReply {
    /// The engine refused the frame for its length: status code -1.
    Rejected,
    /// The engine found no active voice in the frame: status code 0.
    NonVoice,
    /// The engine found active voice in the frame: status code 1.
    Voice,
}

impl FrameReply {
    /// The answer that a status code stands for, if the engine documents
    /// the code.
    pub open spec fn from_code_spec(code: int) -> Option<FrameReply> {
        if code == -1 {
            Some(FrameReply::Rejected)
        } else if code == 0 {
            Some(FrameReply::NonVoice)
        } else if code == 1 {
            Some(FrameReply::Voice)
        } else {
            None
        }
    }

    /// The decision that this answer carries: whether the frame holds
    /// voice, or `None` where the engine decided nothing.
    pub open spec fn decision_spec(self) -> Option<bool> {
        match self {
            FrameReply::Rejected => None,
            FrameReply::NonVoice => Some(false),
            FrameReply::Voice => Some(true),
        }
    }

    /// Reads the status code that the engine returned for a frame. `None`
    /// means that the engine broke its own contract.
    pub fn from_code(code: i32) -> (reply: Option<FrameReply>)
        ensures
            reply == FrameReply::from_code_spec(code as int),
    {
        match code {
            -1 => Some(FrameReply::Rejected),
            0 => Some(FrameReply::NonVoice),
            1 => Some(FrameReply::Voice),
            _ => None,
        }
    }

    /// The decision that this answer carries.
    pub fn decision(&self) -> (res: Option<bool>)
        ensures
            res == self.decision_spec(),
    {
        match self {
            FrameReply::Rejected => None,
            FrameReply::NonVoice => Some(false),
            FrameReply::Voice => Some(true),
        }
    }
}

} // verus!
