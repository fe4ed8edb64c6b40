use vstd::prelude::*;

verus! {

/// Why an operation on a campaign was rejected. A rejected operation changes
/// nothing: neither the roster nor any balance.
#[derive(Clone, Copy, Debug, PartialEq, Eq, Structural)]
pub enum ErrorCode {
    /// A join was attempted while the roster already holds `capacity` entries.
    RosterFull,
    /// A join was attempted by a participant who is already enrolled.
    DuplicateParticipant,
    /// A leave was attempted by a participant who is not enrolled.
    ParticipantNotFound,
    /// A distribution was attempted with nobody enrolled.
    EmptyRoster,
    /// A distribution was attempted on a campaign that has already paid out.
    AlreadyDistributed,
    /// The paying side holds too little, or the receiving balance cannot hold
    /// the amount.
    TransferFailed,
}

impl ErrorCode {
    /// A short description of the rejection, for display.
    pub fn message(&self) -> (text: &'static str)
        ensures
            text@ == (match *self {
                ErrorCode::RosterFull => "Userlist is full"@,
                ErrorCode::DuplicateParticipant => "User already in userlist"@,
                ErrorCode::ParticipantNotFound => "User not in userlist"@,
                ErrorCode::EmptyRoster => "Userlist is empty"@,
                ErrorCode::AlreadyDistributed => "Rewards already distributed"@,
                ErrorCode::TransferFailed => "Transfer failed"@,
            }),
    {
        match self {
            ErrorCode::RosterFull => "Userlist is full",
            ErrorCode::DuplicateParticipant => "User already in userlist",
            ErrorCode::ParticipantNotFound => "User not in userlist",
            ErrorCode::EmptyRoster => "Userlist is empty",
            ErrorCode::AlreadyDistributed => "Rewards already distributed",
            ErrorCode::TransferFailed => "Transfer failed",
        }
    }
}

} // verus!
