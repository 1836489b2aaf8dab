//! Creating stock plans and resizing their reserved pool.

use vstd::prelude::*;
use crate::errors::StockPlanError;
use crate::events::{StockPlanCreated, StockPlanSharesAdjusted};
use crate::state::{same_id, Issuer, StockClass, StockPlan};

verus! {

/// The records the creation of a stock plan works on. `stock_plan` is the
/// record to fill; `stock_class` is a stock class the plan draws on.
#[derive(Debug, PartialEq, Eq)]
pub struct CreateStockPlan {
    pub issuer: Issuer,
    pub stock_plan: StockPlan,
    pub stock_class: StockClass,
}

/// The records a resizing of a stock plan works on.
#[derive(Debug, PartialEq, Eq)]
pub struct AdjustStockPlanShares {
    pub issuer: Issuer,
    pub stock_plan: StockPlan,
}

impl CreateStockPlan {
    /// Why the creation is refused, if it is.
    pub open spec fn rejection(self, stock_class_ids: Vec<[u8; 16]>) -> Option<StockPlanError> {
        if stock_class_ids@.len() == 0 {
            Some(StockPlanError::InvalidStockClassCount)
        } else {
            None
        }
    }

    /// The records after a successful creation: the plan holds the list and
    /// the reserved pool exactly as they were given.
    pub open spec fn created(
        self,
        id: [u8; 16],
        stock_class_ids: Vec<[u8; 16]>,
        shares_reserved: u64,
    ) -> Self {
        CreateStockPlan { stock_plan: StockPlan { id, stock_class_ids, shares_reserved }, ..self }
    }

    /// The event of a successful creation.
    pub open spec fn event(self, id: [u8; 16], shares_reserved: u64) -> StockPlanCreated {
        StockPlanCreated { id, shares_reserved, issuer_id: self.issuer.id }
    }
}

impl AdjustStockPlanShares {
    /// The records after the resizing.
    pub open spec fn adjusted(self, new_shares_reserved: u64) -> Self {
        AdjustStockPlanShares {
            stock_plan: StockPlan { shares_reserved: new_shares_reserved, ..self.stock_plan },
            ..self
        }
    }

    /// The event of the resizing.
    pub open spec fn event(self, new_shares_reserved: u64) -> StockPlanSharesAdjusted {
        StockPlanSharesAdjusted { id: self.stock_plan.id, new_shares_reserved }
    }
}

/// Creates the stock plan `id`, drawing on the stock classes
/// `stock_class_ids` in that order, with `shares_reserved` shares reserved.
///
/// An empty list is refused and the records stay as they are.
pub fn create_stock_plan(
    ctx: &mut CreateStockPlan,
    id: [u8; 16],
    stock_class_ids: Vec<[u8; 16]>,
    shares_reserved: u64,
) -> (r: Result<StockPlanCreated, StockPlanError>)
    ensures
        old(ctx).rejection(stock_class_ids) matches Some(e) ==> r == Err::<
            StockPlanCreated,
            StockPlanError,
        >(e) && *final(ctx) == *old(ctx),
        old(ctx).rejection(stock_class_ids) is None ==> r == Ok::<StockPlanCreated, StockPlanError>(
            old(ctx).event(id, shares_reserved),
        ) && *final(ctx) == old(ctx).created(id, stock_class_ids, shares_reserved),
{
    if stock_class_ids.len() == 0 {
        return Err(StockPlanError::InvalidStockClassCount);
    }
    ctx.stock_plan.id = id;
    ctx.stock_plan.stock_class_ids = stock_class_ids;
    ctx.stock_plan.shares_reserved = shares_reserved;
    Ok(StockPlanCreated { id, shares_reserved, issuer_id: ctx.issuer.id })
}

/// Sets the reserved pool of the stock plan to `new_shares_reserved`.
pub fn adjust_stock_plan_shares(ctx: &mut AdjustStockPlanShares, new_shares_reserved: u64) -> (event:
    StockPlanSharesAdjusted)
    ensures
        event == old(ctx).event(new_shares_reserved),
        *final(ctx) == old(ctx).adjusted(new_shares_reserved),
{
    ctx.stock_plan.shares_reserved = new_shares_reserved;
    StockPlanSharesAdjusted { id: ctx.stock_plan.id, new_shares_reserved }
}

/// What holding a list of stock classes against the list a plan declares
/// gives: the lists must be as long as each other and name the same stock
/// class in each place.
pub open spec fn stock_classes_mismatch(
    declared: Seq<[u8; 16]>,
    presented: Seq<[u8; 16]>,
) -> Option<StockPlanError> {
    if presented.len() != declared.len() {
        Some(StockPlanError::StockClassCountMismatch)
    } else if presented != declared {
        Some(StockPlanError::StockClassIdMismatch)
    } else {
        None
    }
}

/// Holds the stock classes presented with an operation against the ones the
/// plan declares. No transition makes this check by itself; it is here for
/// the caller that names a plan and stock classes together.
pub fn check_stock_classes(plan: &StockPlan, presented: &Vec<[u8; 16]>) -> (r: Result<
    (),
    StockPlanError,
>)
    ensures
        stock_classes_mismatch(plan.stock_class_ids@, presented@) matches Some(e) ==> r == Err::<
            (),
            StockPlanError,
        >(e),
        stock_classes_mismatch(plan.stock_class_ids@, presented@) is None ==> r is Ok,
{
    if presented.len() != plan.stock_class_ids.len() {
        return Err(StockPlanError::StockClassCountMismatch);
    }
    let mut i: usize = 0;
    while i < presented.len()
        invariant
            i <= presented.len(),
            presented.len() == plan.stock_class_ids.len(),
            forall|k: int| 0 <= k < i ==> presented@[k] == plan.stock_class_ids@[k],
        decreases presented.len() - i,
    {
        if !same_id(&presented[i], &plan.stock_class_ids[i]) {
            return Err(StockPlanError::StockClassIdMismatch);
        }
        i += 1;
    }
    assert(presented@ =~= plan.stock_class_ids@);
    Ok(())
}

} // verus!
