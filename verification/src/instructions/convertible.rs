//! Issuing convertibles.

use vstd::prelude::*;
use crate::errors::ConvertibleError;
use crate::events::ConvertibleIssued;
use crate::state::{ConvertibleActivePosition, Issuer, Stakeholder};

verus! {

/// The records an issuance of a convertible works on. `position` is the
/// record to fill.
#[derive(Clone, Copy, Debug, PartialEq, Eq)]
pub struct IssueConvertible {
    pub issuer: Issuer,
    pub stakeholder: Stakeholder,
    pub position: ConvertibleActivePosition,
}

impl IssueConvertible {
    /// Why the issuance is refused, if it is.
    pub open spec fn rejection(self, investment_amount: u64) -> Option<ConvertibleError> {
        if investment_amount == 0 {
            Some(ConvertibleError::InvalidAmount)
        } else {
            None
        }
    }

    /// The records after a successful issuance.
    pub open spec fn issued(self, security_id: [u8; 16], investment_amount: u64) -> Self {
        IssueConvertible {
            position: ConvertibleActivePosition {
                stakeholder_id: self.stakeholder.id,
                security_id,
                investment_amount,
            },
            ..self
        }
    }

    /// The event of a successful issuance.
    pub open spec fn event(self, security_id: [u8; 16], investment_amount: u64) -> ConvertibleIssued {
        ConvertibleIssued { stakeholder_id: self.stakeholder.id, security_id, investment_amount }
    }
}

/// Issues a convertible of `investment_amount` to the stakeholder under the
/// security `security_id`.
///
/// A zero amount is refused and the records stay as they are.
pub fn issue_convertible(
    ctx: &mut IssueConvertible,
    security_id: [u8; 16],
    investment_amount: u64,
) -> (r: Result<ConvertibleIssued, ConvertibleError>)
    ensures
        old(ctx).rejection(investment_amount) matches Some(e) ==> r == Err::<
            ConvertibleIssued,
            ConvertibleError,
        >(e) && *final(ctx) == *old(ctx),
        old(ctx).rejection(investment_amount) is None ==> r == Ok::<
            ConvertibleIssued,
            ConvertibleError,
        >(old(ctx).event(security_id, investment_amount)) && *final(ctx) == old(ctx).issued(
            security_id,
            investment_amount,
        ),
{
    if investment_amount == 0 {
        return Err(ConvertibleError::InvalidAmount);
    }
    ctx.position.stakeholder_id = ctx.stakeholder.id;
    ctx.position.security_id = security_id;
    ctx.position.investment_amount = investment_amount;
    Ok(ConvertibleIssued { stakeholder_id: ctx.stakeholder.id, security_id, investment_amount })
}

} // verus!
