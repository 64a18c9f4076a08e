//! The physical roles a sample stream can play within a frame.

use vstd::prelude::*;

verus! {

/// The role of one channel of a stream.
///
/// `Invalid` is a sentinel and never names a real channel. The audio engine
/// identifies each role by a signed code, from -1 for `Invalid` up to 9 for
/// `LowFrequency`; the variants are declared in the order of their codes.
#[derive(Clone, Copy, Debug, PartialEq, Eq, PartialOrd, Ord, Hash, Structural)]
pub enum Channel {
    Invalid,
    Mono,
    Left,
    Right,
    Center,
    LeftSurround,
    RightSurround,
    RearLeftSurround,
    RearCenter,
    RearRightSurround,
    LowFrequency,
}

impl Channel {
    /// The engine's code for this role.
    pub open spec fn code_spec(self) -> int {
        match self {
            Channel::Invalid => -1,
            Channel::Mono => 0,
            Channel::Left => 1,
            Channel::Right => 2,
            Channel::Center => 3,
            Channel::LeftSurround => 4,
            Channel::RightSurround => 5,
            Channel::RearLeftSurround => 6,
            Channel::RearCenter => 7,
            Channel::RearRightSurround => 8,
            Channel::LowFrequency => 9,
        }
    }

    /// The role that a code stands for. Every code outside 0..=9 reads as
    /// `Invalid`.
    pub open spec fn from_code_spec(code: int) -> Channel {
        if code == 0 {
            Channel::Mono
        } else if code == 1 {
            Channel::Left
        } else if code == 2 {
            Channel::Right
        } else if code == 3 {
            Channel::Center
        } else if code == 4 {
            Channel::LeftSurround
        } else if code == 5 {
            Channel::RightSurround
        } else if code == 6 {
            Channel::RearLeftSurround
        } else if code == 7 {
            Channel::RearCenter
        } else if code == 8 {
            Channel::RearRightSurround
        } else if code == 9 {
            Channel::LowFrequency
        } else {
            Channel::Invalid
        }
    }

    /// Whether this is one of the ten real roles.
    pub open spec fn is_real(self) -> bool {
        self != Channel::Invalid
    }

    /// Returns the engine's code for this role.
    pub fn code(self) -> (code: i32)
        ensures
            code == self.code_spec(),
    {
        match self {
            Channel::Invalid => -1,
            Channel::Mono => 0,
            Channel::Left => 1,
            Channel::Right => 2,
            Channel::Center => 3,
            Channel::LeftSurround => 4,
            Channel::RightSurround => 5,
            Channel::RearLeftSurround => 6,
            Channel::RearCenter => 7,
            Channel::RearRightSurround => 8,
            Channel::LowFrequency => 9,
        }
    }

    /// Returns the role that `code` stands for, `Invalid` where it stands for
    /// none.
    pub fn from_code(code: i32) -> (channel: Channel)
        ensures
            channel == Channel::from_code_spec(code as int),
    {
        match code {
            0 => Channel::Mono,
            1 => Channel::Left,
            2 => Channel::Right,
            3 => Channel::Center,
            4 => Channel::LeftSurround,
            5 => Channel::RightSurround,
            6 => Channel::RearLeftSurround,
            7 => Channel::RearCenter,
            8 => Channel::RearRightSurround,
            9 => Channel::LowFrequency,
            _ => Channel::Invalid,
        }
    }

    /// A role survives the trip through its code, and every code lies in
    /// -1..=9.
    pub proof fn lemma_code_round_trip(self)
        ensures
            Channel::from_code_spec(self.code_spec()) == self,
            -1 <= self.code_spec() <= 9,
            self.is_real() <==> 0 <= self.code_spec(),
    {
    }

    /// Two roles with the same code are the same role.
    pub proof fn lemma_code_injective(self, other: Channel)
        requires
            self.code_spec() == other.code_spec(),
        ensures
            self == other,
    {
    }
}

} // verus!
