//! The records that the queries hand out, and the form in which a claim is stored.

use soroban_sdk::Address;
use vstd::prelude::*;

verus! {

/// Where a claim stands. `Pending` is the only state that is not terminal.
#[derive(Clone, Copy, Debug, PartialEq, Eq, Structural)]
pub enum ClaimStatus {
    Pending,
    Claimed,
    Cancelled,
}

impl ClaimStatus {
    /// The state that a stored number stands for, if it stands for one.
    pub open spec fn spec_from_code(code: u32) -> Option<ClaimStatus> {
        if code == 0 {
            Some(ClaimStatus::Pending)
        } else if code == 1 {
            Some(ClaimStatus::Claimed)
        } else if code == 2 {
            Some(ClaimStatus::Cancelled)
        } else {
            None
        }
    }

    /// A claim in a terminal state can no longer be finalized.
    pub open spec fn spec_is_terminal(self) -> bool {
        self != ClaimStatus::Pending
    }

    pub fn from_code(code: u32) -> (s: Option<ClaimStatus>)
        ensures
            s == Self::spec_from_code(code),
    {
        if code == 0 {
            Some(ClaimStatus::Pending)
        } else if code == 1 {
            Some(ClaimStatus::Claimed)
        } else if code == 2 {
            Some(ClaimStatus::Cancelled)
        } else {
            None
        }
    }

    #[verifier::when_used_as_spec(spec_is_terminal)]
    pub fn is_terminal(self) -> (t: bool)
        ensures
            t == self.spec_is_terminal(),
    {
        match self {
            ClaimStatus::Pending => false,
            ClaimStatus::Claimed => true,
            ClaimStatus::Cancelled => true,
        }
    }
}

/// The settings of the claim window, both in seconds.
#[derive(Clone, Debug, PartialEq, Eq, Structural)]
pub struct ClaimWindowConfig {
    /// How long the window stays open.
    pub window_duration_secs: u64,
    /// The least time between the start of the window and a claim.
    pub min_claim_delay_secs: u64,
}

impl ClaimWindowConfig {
    /// The settings that hold while none were stored: both zero.
    pub open spec fn unset() -> ClaimWindowConfig {
        ClaimWindowConfig { window_duration_secs: 0, min_claim_delay_secs: 0 }
    }
}

impl ClaimWindowConfig {
    /// The settings in force: the stored ones, or the unset ones where none
    /// were stored.
    pub fn or_unset(stored: Option<ClaimWindowConfig>) -> (config: ClaimWindowConfig)
        ensures
            config == match stored {
                Some(settings) => settings,
                None => ClaimWindowConfig::unset(),
            },
    {
        match stored {
            Some(settings) => settings,
            None => ClaimWindowConfig::default(),
        }
    }
}

impl Default for ClaimWindowConfig {
    fn default() -> (c: ClaimWindowConfig)
        ensures
            c == ClaimWindowConfig::unset(),
    {
        ClaimWindowConfig { window_duration_secs: 0, min_claim_delay_secs: 0 }
    }
}

/// A transfer of `amount` of `token` from `creator` to `recipient` that waits
/// to be finalized.
#[derive(Clone, Debug, PartialEq, Eq)]
pub struct PendingClaim {
    pub id: u64,
    pub creator: Address,
    pub recipient: Address,
    pub amount: i128,
    pub token: Address,
    pub status: ClaimStatus,
    pub created_at: u64,
    pub claim_window_start: u64,
    pub claim_window_end: u64,
}

/// What a lookup of one claim id gives.
#[derive(Clone, Debug, PartialEq, Eq)]
pub enum GetClaimResult {
    Found(PendingClaim),
    NotFound,
}

/// A claim as its entry holds it: the state is still a number.
#[derive(Clone, Debug, PartialEq, Eq)]
pub struct ClaimRecord {
    pub id: u64,
    pub creator: Address,
    pub recipient: Address,
    pub amount: i128,
    pub token: Address,
    pub status: u32,
    pub created_at: u64,
    pub claim_window_start: u64,
    pub claim_window_end: u64,
}

impl ClaimRecord {
    /// The claim that the record stands for: every field as it is, the state
    /// read from its number. There is none where the number names no state.
    pub open spec fn spec_decode(self) -> Option<PendingClaim> {
        match ClaimStatus::spec_from_code(self.status) {
            Some(status) => Some(
                PendingClaim {
                    id: self.id,
                    creator: self.creator,
                    recipient: self.recipient,
                    amount: self.amount,
                    token: self.token,
                    status,
                    created_at: self.created_at,
                    claim_window_start: self.claim_window_start,
                    claim_window_end: self.claim_window_end,
                },
            ),
            None => None,
        }
    }

    #[verifier::when_used_as_spec(spec_decode)]
    pub fn decode(self) -> (c: Option<PendingClaim>)
        ensures
            c == self.spec_decode(),
    {
        match ClaimStatus::from_code(self.status) {
            Some(status) => Some(
                PendingClaim {
                    id: self.id,
                    creator: self.creator,
                    recipient: self.recipient,
                    amount: self.amount,
                    token: self.token,
                    status,
                    created_at: self.created_at,
                    claim_window_start: self.claim_window_start,
                    claim_window_end: self.claim_window_end,
                },
            ),
            None => None,
        }
    }
}

impl GetClaimResult {
    /// The answer to a lookup, given what the entry of the claim holds:
    /// `NotFound` where there is no entry, else the claim that the record
    /// stands for. There is no answer where the record names no state.
    pub open spec fn spec_from_stored(stored: Option<ClaimRecord>) -> Option<GetClaimResult> {
        match stored {
            None => Some(GetClaimResult::NotFound),
            Some(record) => match record.spec_decode() {
                Some(claim) => Some(GetClaimResult::Found(claim)),
                None => None,
            },
        }
    }

    #[verifier::when_used_as_spec(spec_from_stored)]
    pub fn from_stored(stored: Option<ClaimRecord>) -> (found: Option<GetClaimResult>)
        ensures
            found == Self::spec_from_stored(stored),
    {
        match stored {
            None => Some(GetClaimResult::NotFound),
            Some(record) => match record.decode() {
                Some(claim) => Some(GetClaimResult::Found(claim)),
                None => None,
            },
        }
    }
}

} // verus!
