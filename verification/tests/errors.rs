use ocp_solana::errors::{
    ConvertibleError, EquityCompensationError, IssuerError, StockClassError, StockError,
    StockPlanError, WarrantError,
};

#[test]
fn issuer_error_message() {
    assert_eq!(IssuerError::AlreadyInitialized.message(), "Issuer has already been initialized");
}

#[test]
fn stock_class_error_message() {
    assert_eq!(
        StockClassError::SharesAuthorizedCannotBeZero.message(),
        "Shares authorized cannot be zero"
    );
}

#[test]
fn stock_error_messages() {
    assert_eq!(
        StockError::InsufficientShares.message(),
        "Insufficient shares available for issuance"
    );
    assert_eq!(StockError::InvalidQuantity.message(), "Quantity must be greater than zero");
    assert_eq!(StockError::InvalidSharePrice.message(), "Share price must be greater than zero");
}

#[test]
fn stock_plan_error_messages() {
    assert_eq!(
        StockPlanError::InvalidStockClassCount.message(),
        "Stock class count must be greater than zero"
    );
    assert_eq!(StockPlanError::StockClassCountMismatch.message(), "Stock class count mismatch");
    assert_eq!(StockPlanError::StockClassIdMismatch.message(), "Stock class ID mismatch");
}

#[test]
fn convertible_error_message() {
    assert_eq!(
        ConvertibleError::InvalidAmount.message(),
        "Investment amount must be greater than zero"
    );
}

#[test]
fn equity_compensation_error_messages() {
    assert_eq!(
        EquityCompensationError::InvalidQuantity.message(),
        "Quantity must be greater than zero"
    );
    assert_eq!(
        EquityCompensationError::InsufficientShares.message(),
        "Insufficient shares available"
    );
    assert_eq!(
        EquityCompensationError::QuantityMismatch.message(),
        "Stock position quantity must match exercise quantity"
    );
    assert_eq!(
        EquityCompensationError::InvalidStakeholder.message(),
        "Stock position must belong to same stakeholder"
    );
}

#[test]
fn warrant_error_message() {
    assert_eq!(WarrantError::InvalidQuantity.message(), "Quantity must be greater than zero");
}
