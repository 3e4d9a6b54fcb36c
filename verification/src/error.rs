//! The error taxonomy of the marketplace core.  Every rejection carries
//! enough context (the offending value) to reproduce it; none is silently
//! swallowed.

use vstd::prelude::*;

verus! {

/// What was wrong with the funds attached to a request.
#[derive(Clone, Copy, PartialEq, Eq, Structural, Debug)]
pub enum PaymentIssue {
    /// No coin, or a zero amount, where payment was required.
    NoFunds,
    /// More than one coin attached.
    MultipleDenoms,
    /// The attached coin is not the settlement currency.
    MissingDenom,
    /// Funds were attached to a request that takes none.
    NonPayable,
}

#[derive(Debug, PartialEq)]
pub enum ContractError {
    /// A failure of an external collaborator that this core only relays.
    Std { msg: String },
    Unauthorized {},
    InvalidReserveAddress { reason: String },
    InvalidPrice {},
    InvalidFinder { reason: String },
    PriceTooSmall(u128),
    InvalidFindersFeeBps(u64),
    InvalidExpirationRange {},
    AskExpired {},
    AskNotActive {},
    AskUnchanged {},
    TokenReserved {},
    ItemNotForSale {},
    InvalidListingFee(u128),
    InvalidListing {},
    BidExpired {},
    UnauthorizedOwner {},
    CollectionNotTradable {},
    BidNotFound {},
    Payment(PaymentIssue),
}

impl ContractError {
    pub open spec fn spec_label(self) -> Seq<char> {
        match self {
            ContractError::Std { .. } => "Std"@,
            ContractError::Unauthorized { .. } => "Unauthorized"@,
            ContractError::InvalidReserveAddress { .. } => "InvalidReserveAddress"@,
            ContractError::InvalidPrice { .. } => "InvalidPrice"@,
            ContractError::InvalidFinder { .. } => "InvalidFinder"@,
            ContractError::PriceTooSmall(..) => "PriceTooSmall"@,
            ContractError::InvalidFindersFeeBps(..) => "InvalidFindersFeeBps"@,
            ContractError::InvalidExpirationRange { .. } => "InvalidExpirationRange"@,
            ContractError::AskExpired { .. } => "AskExpired"@,
            ContractError::AskNotActive { .. } => "AskNotActive"@,
            ContractError::AskUnchanged { .. } => "AskUnchanged"@,
            ContractError::TokenReserved { .. } => "TokenReserved"@,
            ContractError::ItemNotForSale { .. } => "ItemNotForSale"@,
            ContractError::InvalidListingFee(..) => "InvalidListingFee"@,
            ContractError::InvalidListing { .. } => "InvalidListing"@,
            ContractError::BidExpired { .. } => "BidExpired"@,
            ContractError::UnauthorizedOwner { .. } => "UnauthorizedOwner"@,
            ContractError::CollectionNotTradable { .. } => "CollectionNotTradable"@,
            ContractError::BidNotFound { .. } => "BidNotFound"@,
            ContractError::Payment(..) => "Payment"@,
        }
    }

    /// A short name for the error variant, for reporting at the boundary.
    pub fn label(&self) -> (s: &'static str)
        ensures
            s@ == self.spec_label(),
    {
        match self {
            ContractError::Std { .. } => "Std",
            ContractError::Unauthorized { .. } => "Unauthorized",
            ContractError::InvalidReserveAddress { .. } => "InvalidReserveAddress",
            ContractError::InvalidPrice { .. } => "InvalidPrice",
            ContractError::InvalidFinder { .. } => "InvalidFinder",
            ContractError::PriceTooSmall(..) => "PriceTooSmall",
            ContractError::InvalidFindersFeeBps(..) => "InvalidFindersFeeBps",
            ContractError::InvalidExpirationRange { .. } => "InvalidExpirationRange",
            ContractError::AskExpired { .. } => "AskExpired",
            ContractError::AskNotActive { .. } => "AskNotActive",
            ContractError::AskUnchanged { .. } => "AskUnchanged",
            ContractError::TokenReserved { .. } => "TokenReserved",
            ContractError::ItemNotForSale { .. } => "ItemNotForSale",
            ContractError::InvalidListingFee(..) => "InvalidListingFee",
            ContractError::InvalidListing { .. } => "InvalidListing",
            ContractError::BidExpired { .. } => "BidExpired",
            ContractError::UnauthorizedOwner { .. } => "UnauthorizedOwner",
            ContractError::CollectionNotTradable { .. } => "CollectionNotTradable",
            ContractError::BidNotFound { .. } => "BidNotFound",
            ContractError::Payment(..) => "Payment",
        }
    }
}

} // verus!
