//! The closed taxonomy of validation failures, grouped by the entity they guard.
//!
//! Every failure is detected inside the transition that owns the check and is
//! handed to the caller as one of these values. None is retried or downgraded.

use vstd::prelude::*;

verus! {

/// Failures raised while creating an issuer.
#[derive(Clone, Copy, Debug, PartialEq, Eq, Structural)]
pub enum IssuerError {
    /// The issuer record already carries a non-zero authorized pool.
    AlreadyInitialized,
}

/// Failures raised while creating a stock class.
#[derive(Clone, Copy, Debug, PartialEq, Eq, Structural)]
pub enum StockClassError {
    /// A stock class must be created with a non-empty authorized pool.
    SharesAuthorizedCannotBeZero,
}

/// Failures raised while issuing stock.
#[derive(Clone, Copy, Debug, PartialEq, Eq, Structural)]
pub enum StockError {
    /// The issuance does not fit in what is left of the authorized pool.
    InsufficientShares,
    /// The quantity is zero.
    InvalidQuantity,
    /// The share price is zero.
    InvalidSharePrice,
}

/// Failures raised while creating a stock plan or checking one against an issuance.
#[derive(Clone, Copy, Debug, PartialEq, Eq, Structural)]
pub enum StockPlanError {
    /// The plan names no stock class.
    InvalidStockClassCount,
    /// The number of stock classes presented differs from the number the plan declares.
    StockClassCountMismatch,
    /// A stock class presented is not the one the plan declares in that place.
    StockClassIdMismatch,
}

/// Failures raised while issuing a convertible.
#[derive(Clone, Copy, Debug, PartialEq, Eq, Structural)]
pub enum ConvertibleError {
    /// The investment amount is zero.
    InvalidAmount,
}

/// Failures raised while issuing or exercising equity compensation.
#[derive(Clone, Copy, Debug, PartialEq, Eq, Structural)]
pub enum EquityCompensationError {
    /// The quantity is zero.
    InvalidQuantity,
    /// The grant holds fewer shares than the exercise asks for.
    InsufficientShares,
    /// The resulting stock position is not sized to the exercised quantity.
    QuantityMismatch,
    /// The resulting stock position belongs to another stakeholder.
    InvalidStakeholder,
}

/// Failures raised while issuing a warrant.
#[derive(Clone, Copy, Debug, PartialEq, Eq, Structural)]
pub enum WarrantError {
    /// The quantity is zero.
    InvalidQuantity,
}

impl IssuerError {
    /// The text shown to the caller.
    pub fn message(&self) -> (text: String)
        ensures
            text@ == "Issuer has already been initialized"@,
    {
        "Issuer has already been initialized".to_owned()
    }
}

impl StockClassError {
    /// The text shown to the caller.
    pub fn message(&self) -> (text: String)
        ensures
            text@ == "Shares authorized cannot be zero"@,
    {
        "Shares authorized cannot be zero".to_owned()
    }
}

impl StockError {
    /// The text of each variant.
    pub open spec fn message_spec(self) -> Seq<char> {
        match self {
            StockError::InsufficientShares => "Insufficient shares available for issuance"@,
            StockError::InvalidQuantity => "Quantity must be greater than zero"@,
            StockError::InvalidSharePrice => "Share price must be greater than zero"@,
        }
    }

    /// The text shown to the caller.
    pub fn message(&self) -> (text: String)
        ensures
            text@ == self.message_spec(),
    {
        match self {
            StockError::InsufficientShares => "Insufficient shares available for issuance".to_owned(),
            StockError::InvalidQuantity => "Quantity must be greater than zero".to_owned(),
            StockError::InvalidSharePrice => "Share price must be greater than zero".to_owned(),
        }
    }
}

impl StockPlanError {
    /// The text of each variant.
    pub open spec fn message_spec(self) -> Seq<char> {
        match self {
            StockPlanError::InvalidStockClassCount => "Stock class count must be greater than zero"@,
            StockPlanError::StockClassCountMismatch => "Stock class count mismatch"@,
            StockPlanError::StockClassIdMismatch => "Stock class ID mismatch"@,
        }
    }

    /// The text shown to the caller.
    pub fn message(&self) -> (text: String)
        ensures
            text@ == self.message_spec(),
    {
        match self {
            StockPlanError::InvalidStockClassCount => "Stock class count must be greater than zero".to_owned(),
            StockPlanError::StockClassCountMismatch => "Stock class count mismatch".to_owned(),
            StockPlanError::StockClassIdMismatch => "Stock class ID mismatch".to_owned(),
        }
    }
}

impl ConvertibleError {
    /// The text shown to the caller.
    pub fn message(&self) -> (text: String)
        ensures
            text@ == "Investment amount must be greater than zero"@,
    {
        "Investment amount must be greater than zero".to_owned()
    }
}

impl EquityCompensationError {
    /// The text of each variant.
    pub open spec fn message_spec(self) -> Seq<char> {
        match self {
            EquityCompensationError::InvalidQuantity => "Quantity must be greater than zero"@,
            EquityCompensationError::InsufficientShares => "Insufficient shares available"@,
            EquityCompensationError::QuantityMismatch => "Stock position quantity must match exercise quantity"@,
            EquityCompensationError::InvalidStakeholder => "Stock position must belong to same stakeholder"@,
        }
    }

    /// The text shown to the caller.
    pub fn message(&self) -> (text: String)
        ensures
            text@ == self.message_spec(),
    {
        match self {
            EquityCompensationError::InvalidQuantity => "Quantity must be greater than zero".to_owned(),
            EquityCompensationError::InsufficientShares => "Insufficient shares available".to_owned(),
            EquityCompensationError::QuantityMismatch => "Stock position quantity must match exercise quantity".to_owned(),
            EquityCompensationError::InvalidStakeholder => "Stock position must belong to same stakeholder".to_owned(),
        }
    }
}

impl WarrantError {
    /// The text shown to the caller.
    pub fn message(&self) -> (text: String)
        ensures
            text@ == "Quantity must be greater than zero"@,
    {
        "Quantity must be greater than zero".to_owned()
    }
}

} // verus!
