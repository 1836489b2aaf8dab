//! Granting equity compensation and exercising a grant.

use vstd::prelude::*;
use crate::errors::EquityCompensationError;
use crate::events::{EquityCompensationExercised, EquityCompensationIssued};
use crate::state::{
    plan_id_bytes, plan_id_to_bytes, same_id, EquityCompensationActivePosition, Issuer,
    Stakeholder, StockActivePosition, StockClass, StockPlan,
};

verus! {

/// The records a grant of equity compensation works on. `position` is the
/// record to fill.
#[derive(Debug, PartialEq, Eq)]
pub struct IssueEquityCompensation {
    pub issuer: Issuer,
    pub stakeholder: Stakeholder,
    pub stock_class: StockClass,
    pub stock_plan: Option<StockPlan>,
    pub position: EquityCompensationActivePosition,
}

/// The records an exercise works on. `stock_position` is the stock that
/// results from the exercise; it exists before the exercise and is left as
/// it is.
#[derive(Clone, Copy, Debug, PartialEq, Eq)]
pub struct ExerciseEquityCompensation {
    pub issuer: Issuer,
    pub equity_position: EquityCompensationActivePosition,
    pub stock_position: StockActivePosition,
}

impl IssueEquityCompensation {
    /// Why the grant is refused, if it is.
    pub open spec fn rejection(self, quantity: u64) -> Option<EquityCompensationError> {
        if quantity == 0 {
            Some(EquityCompensationError::InvalidQuantity)
        } else {
            None
        }
    }

    /// The plan the grant is made under, if any.
    pub open spec fn plan_id(self) -> Option<[u8; 16]> {
        match self.stock_plan {
            Some(plan) => Some(plan.id),
            None => None,
        }
    }

    /// The position a successful grant writes.
    pub open spec fn granted_position(
        self,
        security_id: [u8; 16],
        quantity: u64,
    ) -> EquityCompensationActivePosition {
        EquityCompensationActivePosition {
            stakeholder_id: self.stakeholder.id,
            stock_class_id: self.stock_class.id,
            stock_plan_id: self.plan_id(),
            security_id,
            quantity,
        }
    }

    /// The records after a successful grant.
    pub open spec fn granted(self, security_id: [u8; 16], quantity: u64) -> Self {
        IssueEquityCompensation { position: self.granted_position(security_id, quantity), ..self }
    }

    /// The event of a successful grant. The plan is sixteen zero bytes when
    /// there is none.
    pub open spec fn event(self, security_id: [u8; 16], quantity: u64) -> EquityCompensationIssued {
        EquityCompensationIssued {
            security_id,
            stakeholder_id: self.stakeholder.id,
            stock_class_id: self.stock_class.id,
            stock_plan_id: plan_id_bytes(self.plan_id()),
            quantity,
        }
    }
}

impl ExerciseEquityCompensation {
    /// Why the exercise is refused, if it is. The checks are made in this
    /// order, and the first that fails decides.
    pub open spec fn rejection(self, quantity: u64) -> Option<EquityCompensationError> {
        if quantity == 0 {
            Some(EquityCompensationError::InvalidQuantity)
        } else if self.equity_position.quantity < quantity {
            Some(EquityCompensationError::InsufficientShares)
        } else if self.stock_position.quantity != quantity {
            Some(EquityCompensationError::QuantityMismatch)
        } else if self.stock_position.stakeholder_id != self.equity_position.stakeholder_id {
            Some(EquityCompensationError::InvalidStakeholder)
        } else {
            None
        }
    }

    /// The records after a successful exercise: the grant holds `quantity`
    /// fewer shares, nothing else has changed.
    pub open spec fn exercised(self, quantity: u64) -> Self {
        ExerciseEquityCompensation {
            equity_position: EquityCompensationActivePosition {
                quantity: (self.equity_position.quantity - quantity) as u64,
                ..self.equity_position
            },
            ..self
        }
    }

    /// The event of a successful exercise.
    pub open spec fn event(self, quantity: u64) -> EquityCompensationExercised {
        EquityCompensationExercised {
            equity_comp_security_id: self.equity_position.security_id,
            resulting_stock_security_id: self.stock_position.security_id,
            quantity,
        }
    }
}

/// Grants `quantity` shares of equity compensation under the security
/// `security_id` to the stakeholder, drawing on the stock class and, if one
/// is given, the stock plan.
///
/// A zero quantity is refused and the records stay as they are.
pub fn issue_equity_compensation(
    ctx: &mut IssueEquityCompensation,
    security_id: [u8; 16],
    quantity: u64,
) -> (r: Result<EquityCompensationIssued, EquityCompensationError>)
    ensures
        old(ctx).rejection(quantity) matches Some(e) ==> r == Err::<
            EquityCompensationIssued,
            EquityCompensationError,
        >(e) && *final(ctx) == *old(ctx),
        old(ctx).rejection(quantity) is None ==> r == Ok::<
            EquityCompensationIssued,
            EquityCompensationError,
        >(old(ctx).event(security_id, quantity)) && *final(ctx) == old(ctx).granted(
            security_id,
            quantity,
        ),
{
    if quantity == 0 {
        return Err(EquityCompensationError::InvalidQuantity);
    }
    let stock_plan_id = match &ctx.stock_plan {
        Some(plan) => Some(plan.id),
        None => None,
    };
    ctx.position.stakeholder_id = ctx.stakeholder.id;
    ctx.position.stock_class_id = ctx.stock_class.id;
    ctx.position.stock_plan_id = stock_plan_id;
    ctx.position.security_id = security_id;
    ctx.position.quantity = quantity;
    Ok(
        EquityCompensationIssued {
            security_id,
            stakeholder_id: ctx.stakeholder.id,
            stock_class_id: ctx.stock_class.id,
            stock_plan_id: plan_id_to_bytes(stock_plan_id),
            quantity,
        },
    )
}

/// Exercises `quantity` shares of the grant into the stock position.
///
/// The grant is reduced by exactly `quantity`; the subtraction is checked.
/// On any refusal the records stay as they are.
pub fn exercise_equity_compensation(ctx: &mut ExerciseEquityCompensation, quantity: u64) -> (r:
    Result<EquityCompensationExercised, EquityCompensationError>)
    ensures
        old(ctx).rejection(quantity) matches Some(e) ==> r == Err::<
            EquityCompensationExercised,
            EquityCompensationError,
        >(e) && *final(ctx) == *old(ctx),
        old(ctx).rejection(quantity) is None ==> r == Ok::<
            EquityCompensationExercised,
            EquityCompensationError,
        >(old(ctx).event(quantity)) && *final(ctx) == old(ctx).exercised(quantity),
{
    if quantity == 0 {
        return Err(EquityCompensationError::InvalidQuantity);
    }
    if ctx.equity_position.quantity < quantity {
        return Err(EquityCompensationError::InsufficientShares);
    }
    if ctx.stock_position.quantity != quantity {
        return Err(EquityCompensationError::QuantityMismatch);
    }
    if !same_id(&ctx.stock_position.stakeholder_id, &ctx.equity_position.stakeholder_id) {
        return Err(EquityCompensationError::InvalidStakeholder);
    }
    match ctx.equity_position.quantity.checked_sub(quantity) {
        None => Err(EquityCompensationError::InsufficientShares),
        Some(remaining) => {
            ctx.equity_position.quantity = remaining;
            Ok(
                EquityCompensationExercised {
                    equity_comp_security_id: ctx.equity_position.security_id,
                    resulting_stock_security_id: ctx.stock_position.security_id,
                    quantity,
                },
            )
        },
    }
}

/// An exercise that leaves less in the grant than it took cannot be made a
/// second time: the same call is then refused for want of shares. So a grant
/// that was exercised down to nothing refuses every further exercise.
pub proof fn exercise_does_not_repeat(ctx: ExerciseEquityCompensation, quantity: u64)
    requires
        ctx.rejection(quantity) is None,
        ctx.equity_position.quantity - quantity < quantity,
    ensures
        ctx.exercised(quantity).rejection(quantity) == Some(
            EquityCompensationError::InsufficientShares,
        ),
{
}

/// A successful exercise takes exactly `quantity` from the grant, and an
/// exercise of more than the grant holds is refused for want of shares.
pub proof fn exercise_takes_exactly(ctx: ExerciseEquityCompensation, quantity: u64)
    ensures
        ctx.rejection(quantity) is None ==> ctx.exercised(quantity).equity_position.quantity
            + quantity == ctx.equity_position.quantity,
        quantity > ctx.equity_position.quantity ==> ctx.rejection(quantity) == Some(
            EquityCompensationError::InsufficientShares,
        ),
{
}

} // verus!
