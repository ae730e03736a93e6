//! Errors of the single-value channel between the audio callback and the
//! server.

use vstd::prelude::*;

verus! {

/// Why a value could not be taken from the channel.
#[derive(Clone, Copy, Debug, PartialEq, Eq, Structural)]
pub enum ChannelErr {
    /// The lock around the value was poisoned.
    Lock,
    /// No value was waiting.
    NoVal,
}

impl ChannelErr {
    pub open spec fn message_spec(self) -> Seq<char> {
        match self {
            ChannelErr::Lock => "Lock poisoned"@,
            ChannelErr::NoVal => "No value found"@,
        }
    }

    /// The error's message.
    pub fn message(&self) -> (s: &'static str)
        ensures
            s@ == self.message_spec(),
    {
        match self {
            ChannelErr::Lock => "Lock poisoned",
            ChannelErr::NoVal => "No value found",
        }
    }
}

} // verus!
