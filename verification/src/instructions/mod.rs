//! The transitions of the ledger, one module per kind of entity.
//!
//! A transition works on the records it names, which the caller has loaded.
//! It validates, changes the records in place and returns the event of the
//! operation; when it refuses, it changes nothing.

pub mod convertible;
pub mod equity_compensation;
pub mod issuer;
pub mod stakeholder;
pub mod stock;
pub mod stock_class;
pub mod stock_plan;
pub mod warrant;

pub use convertible::{issue_convertible, IssueConvertible};
pub use equity_compensation::{
    exercise_equity_compensation, issue_equity_compensation, ExerciseEquityCompensation,
    IssueEquityCompensation,
};
pub use issuer::{
    adjust_authorized_shares, initialize_issuer, AdjustAuthorizedShares, InitializeIssuer,
};
pub use stakeholder::{create_stakeholder, CreateStakeholder};
pub use stock::{issue_stock, IssueStock};
pub use stock_class::{
    adjust_stock_class_shares, create_stock_class, AdjustStockClassShares, CreateStockClass,
};
pub use stock_plan::{
    adjust_stock_plan_shares, create_stock_plan, AdjustStockPlanShares, CreateStockPlan,
};
pub use warrant::{issue_warrant, IssueWarrant};
