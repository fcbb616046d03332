use vstd::prelude::*;
use vstd::string::*;

verus! {

/// Why an operation of the ledger was refused.
#[derive(Clone, Copy, Debug, PartialEq, Eq, Structural)]
pub enum LedgerError {
    /// The (review, user) pair already has a like.
    AlreadyLiked,
    /// The reward would lift the total supply above the configured ceiling.
    SupplyCapReached,
    /// The reward would wrap the total supply or the balance.
    Overflow,
    /// The caller is not the authority of the configuration.
    Unauthorized,
}

impl LedgerError {
    /// The text shown to a caller for this error.
    pub open spec fn text(self) -> Seq<char> {
        match self {
            LedgerError::AlreadyLiked => "Already liked this review"@,
            LedgerError::SupplyCapReached => "Maximum supply reached"@,
            LedgerError::Overflow => "Supply or balance overflow"@,
            LedgerError::Unauthorized => "Only admin can update token config"@,
        }
    }

    pub fn message(&self) -> (s: String)
        ensures
            s@ == self.text(),
    {
        match self {
            LedgerError::AlreadyLiked => String::from_str("Already liked this review"),
            LedgerError::SupplyCapReached => String::from_str("Maximum supply reached"),
            LedgerError::Overflow => String::from_str("Supply or balance overflow"),
            LedgerError::Unauthorized => String::from_str("Only admin can update token config"),
        }
    }
}

} // verus!
