//! Creating stock classes and resizing their authorized pool.

use vstd::prelude::*;
use crate::errors::StockClassError;
use crate::events::{StockClassCreated, StockClassSharesAdjusted};
use crate::state::{Issuer, StockClass};

verus! {

/// The records the creation of a stock class works on. `stock_class` is the
/// record to fill.
#[derive(Debug, PartialEq, Eq)]
pub struct CreateStockClass {
    pub issuer: Issuer,
    pub stock_class: StockClass,
}

/// The records a resizing of a stock class works on.
#[derive(Debug, PartialEq, Eq)]
pub struct AdjustStockClassShares {
    pub issuer: Issuer,
    pub stock_class: StockClass,
}

impl CreateStockClass {
    /// Why the creation is refused, if it is.
    pub open spec fn rejection(self, initial_shares_authorized: u64) -> Option<StockClassError> {
        if initial_shares_authorized == 0 {
            Some(StockClassError::SharesAuthorizedCannotBeZero)
        } else {
            None
        }
    }

    /// The records after a successful creation: the stock class holds what
    /// was given, and has issued nothing.
    pub open spec fn created(
        self,
        id: [u8; 16],
        class_type: String,
        price_per_share: u64,
        initial_shares_authorized: u64,
    ) -> Self {
        CreateStockClass {
            stock_class: StockClass {
                id,
                class_type,
                price_per_share,
                shares_issued: 0,
                shares_authorized: initial_shares_authorized,
            },
            ..self
        }
    }

    /// The event of a successful creation.
    pub open spec fn event(
        self,
        id: [u8; 16],
        class_type: String,
        price_per_share: u64,
        initial_shares_authorized: u64,
    ) -> StockClassCreated {
        StockClassCreated {
            id,
            class_type,
            price_per_share,
            initial_shares_authorized,
            issuer_id: self.issuer.id,
        }
    }
}

impl AdjustStockClassShares {
    /// The records after the resizing: the authorized pool has the new size,
    /// whatever has been issued.
    pub open spec fn adjusted(self, new_shares_authorized: u64) -> Self {
        AdjustStockClassShares {
            stock_class: StockClass { shares_authorized: new_shares_authorized, ..self.stock_class },
            ..self
        }
    }

    /// The event of the resizing.
    pub open spec fn event(self, new_shares_authorized: u64) -> StockClassSharesAdjusted {
        StockClassSharesAdjusted {
            stock_class_id: self.stock_class.id,
            new_shares_authorized,
            issuer_id: self.issuer.id,
        }
    }
}

/// Creates the stock class `id` with an authorized pool of
/// `initial_shares_authorized` shares, none of them issued.
///
/// An empty pool is refused and the records stay as they are.
pub fn create_stock_class(
    ctx: &mut CreateStockClass,
    id: [u8; 16],
    class_type: String,
    price_per_share: u64,
    initial_shares_authorized: u64,
) -> (r: Result<StockClassCreated, StockClassError>)
    ensures
        old(ctx).rejection(initial_shares_authorized) matches Some(e) ==> r == Err::<
            StockClassCreated,
            StockClassError,
        >(e) && *final(ctx) == *old(ctx),
        old(ctx).rejection(initial_shares_authorized) is None ==> r == Ok::<
            StockClassCreated,
            StockClassError,
        >(old(ctx).event(id, class_type, price_per_share, initial_shares_authorized)) && *final(ctx)
            == old(ctx).created(id, class_type, price_per_share, initial_shares_authorized),
{
    if initial_shares_authorized == 0 {
        return Err(StockClassError::SharesAuthorizedCannotBeZero);
    }
    let event = StockClassCreated {
        id,
        class_type: class_type.clone(),
        price_per_share,
        initial_shares_authorized,
        issuer_id: ctx.issuer.id,
    };
    ctx.stock_class.id = id;
    ctx.stock_class.class_type = class_type;
    ctx.stock_class.price_per_share = price_per_share;
    ctx.stock_class.shares_issued = 0;
    ctx.stock_class.shares_authorized = initial_shares_authorized;
    Ok(event)
}

/// Sets the authorized pool of the stock class to `new_shares_authorized`.
/// The new size is taken as it is; it is not held against what has been
/// issued.
pub fn adjust_stock_class_shares(ctx: &mut AdjustStockClassShares, new_shares_authorized: u64) -> (event:
    StockClassSharesAdjusted)
    ensures
        event == old(ctx).event(new_shares_authorized),
        *final(ctx) == old(ctx).adjusted(new_shares_authorized),
{
    ctx.stock_class.shares_authorized = new_shares_authorized;
    StockClassSharesAdjusted {
        stock_class_id: ctx.stock_class.id,
        new_shares_authorized,
        issuer_id: ctx.issuer.id,
    }
}

} // verus!
