//! Issuing stock.

use vstd::prelude::*;
use crate::errors::StockError;
use crate::events::StockIssued;
use crate::state::{Issuer, Stakeholder, StockActivePosition, StockClass};

verus! {

/// The records an issuance of stock works on. `position` is the record to
/// fill.
#[derive(Debug, PartialEq, Eq)]
pub struct IssueStock {
    pub stock_class: StockClass,
    pub issuer: Issuer,
    pub stakeholder: Stakeholder,
    pub position: StockActivePosition,
}

/// What a counter of issued shares reads after `quantity` more are issued, if
/// that stays within `limit`.
pub open spec fn raised(issued: u64, quantity: u64, limit: u64) -> Option<u64> {
    if issued + quantity <= limit {
        Some((issued + quantity) as u64)
    } else {
        None
    }
}

/// Adds `quantity` to a counter of issued shares, unless the sum would pass
/// `limit`. The addition is checked: a sum that leaves the range of the
/// counter is refused like any other that passes the limit.
pub fn raise_issued(issued: u64, quantity: u64, limit: u64) -> (r: Option<u64>)
    ensures
        r == raised(issued, quantity, limit),
{
    match issued.checked_add(quantity) {
        Some(sum) => if sum <= limit {
            Some(sum)
        } else {
            None
        },
        None => None,
    }
}

impl IssueStock {
    /// Why the issuance is refused, if it is. The checks are made in this
    /// order, and the first that fails decides. The issuer's counter has no
    /// limit of its own but the range of the counter.
    pub open spec fn rejection(self, quantity: u64, share_price: u64) -> Option<StockError> {
        if quantity == 0 {
            Some(StockError::InvalidQuantity)
        } else if share_price == 0 {
            Some(StockError::InvalidSharePrice)
        } else if self.stock_class.shares_issued + quantity > self.stock_class.shares_authorized {
            Some(StockError::InsufficientShares)
        } else if self.issuer.shares_issued + quantity > u64::MAX {
            Some(StockError::InsufficientShares)
        } else {
            None
        }
    }

    /// The position a successful issuance writes.
    pub open spec fn issued_position(
        self,
        security_id: [u8; 16],
        quantity: u64,
        share_price: u64,
    ) -> StockActivePosition {
        StockActivePosition {
            stakeholder_id: self.stakeholder.id,
            stock_class_id: self.stock_class.id,
            security_id,
            quantity,
            share_price,
        }
    }

    /// The records after a successful issuance: the position is written, and
    /// the counters of the stock class and of the issuer are both `quantity`
    /// higher.
    pub open spec fn issued(self, security_id: [u8; 16], quantity: u64, share_price: u64) -> Self {
        IssueStock {
            stock_class: StockClass {
                shares_issued: (self.stock_class.shares_issued + quantity) as u64,
                ..self.stock_class
            },
            issuer: Issuer {
                shares_issued: (self.issuer.shares_issued + quantity) as u64,
                ..self.issuer
            },
            stakeholder: self.stakeholder,
            position: self.issued_position(security_id, quantity, share_price),
        }
    }

    /// The event of a successful issuance.
    pub open spec fn event(
        self,
        security_id: [u8; 16],
        quantity: u64,
        share_price: u64,
    ) -> StockIssued {
        StockIssued {
            stock_class_id: self.stock_class.id,
            security_id,
            stakeholder_id: self.stakeholder.id,
            quantity,
            share_price,
            issuer_id: self.issuer.id,
        }
    }
}

/// Issues `quantity` shares of the stock class to the stakeholder under the
/// security `security_id`, at `share_price` a share.
///
/// Refused when the quantity or the price is zero, or when the stock class
/// has fewer than `quantity` shares left to issue. On any refusal the
/// records stay as they are.
pub fn issue_stock(
    ctx: &mut IssueStock,
    security_id: [u8; 16],
    quantity: u64,
    share_price: u64,
) -> (r: Result<StockIssued, StockError>)
    ensures
        old(ctx).rejection(quantity, share_price) matches Some(e) ==> r == Err::<
            StockIssued,
            StockError,
        >(e) && *final(ctx) == *old(ctx),
        old(ctx).rejection(quantity, share_price) is None ==> r == Ok::<StockIssued, StockError>(
            old(ctx).event(security_id, quantity, share_price),
        ) && *final(ctx) == old(ctx).issued(security_id, quantity, share_price),
{
    if quantity == 0 {
        return Err(StockError::InvalidQuantity);
    }
    if share_price == 0 {
        return Err(StockError::InvalidSharePrice);
    }
    let class_issued = match raise_issued(
        ctx.stock_class.shares_issued,
        quantity,
        ctx.stock_class.shares_authorized,
    ) {
        Some(sum) => sum,
        None => {
            return Err(StockError::InsufficientShares);
        },
    };
    let issuer_issued = match raise_issued(ctx.issuer.shares_issued, quantity, u64::MAX) {
        Some(sum) => sum,
        None => {
            return Err(StockError::InsufficientShares);
        },
    };
    ctx.position.stakeholder_id = ctx.stakeholder.id;
    ctx.position.stock_class_id = ctx.stock_class.id;
    ctx.position.security_id = security_id;
    ctx.position.quantity = quantity;
    ctx.position.share_price = share_price;
    ctx.stock_class.shares_issued = class_issued;
    ctx.issuer.shares_issued = issuer_issued;
    Ok(
        StockIssued {
            stock_class_id: ctx.stock_class.id,
            security_id,
            stakeholder_id: ctx.stakeholder.id,
            quantity,
            share_price,
            issuer_id: ctx.issuer.id,
        },
    )
}

/// An issuance of no shares is always refused as an invalid quantity.
pub proof fn zero_quantity_is_refused(ctx: IssueStock, share_price: u64)
    ensures
        ctx.rejection(0, share_price) == Some(StockError::InvalidQuantity),
{
}

/// An issuance that would take the stock class past its authorized pool is
/// refused for want of shares, whatever else holds of it, as long as the
/// quantity and the price are not zero.
pub proof fn over_issuance_is_refused(ctx: IssueStock, quantity: u64, share_price: u64)
    requires
        quantity > 0,
        share_price > 0,
        ctx.stock_class.shares_issued + quantity > ctx.stock_class.shares_authorized,
    ensures
        ctx.rejection(quantity, share_price) == Some(StockError::InsufficientShares),
{
}

/// An issuance that takes the stock class exactly to its authorized pool is
/// accepted, provided the issuer's own counter can hold the sum.
pub proof fn issuance_to_the_limit_is_accepted(ctx: IssueStock, quantity: u64, share_price: u64)
    requires
        quantity > 0,
        share_price > 0,
        ctx.stock_class.shares_issued + quantity == ctx.stock_class.shares_authorized,
        ctx.issuer.shares_issued + quantity <= u64::MAX,
    ensures
        ctx.rejection(quantity, share_price) is None,
{
}

/// A successful issuance leaves the stock class within its authorized pool,
/// and both counters exactly `quantity` higher.
pub proof fn issuance_stays_within_authorized(
    ctx: IssueStock,
    security_id: [u8; 16],
    quantity: u64,
    share_price: u64,
)
    requires
        ctx.rejection(quantity, share_price) is None,
    ensures
        ({
            let after = ctx.issued(security_id, quantity, share_price);
            &&& after.stock_class.shares_issued <= after.stock_class.shares_authorized
            &&& after.stock_class.shares_issued == ctx.stock_class.shares_issued + quantity
            &&& after.issuer.shares_issued == ctx.issuer.shares_issued + quantity
            &&& after.position.quantity == quantity
        }),
{
}

} // verus!
