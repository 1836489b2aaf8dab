//! Issuing warrants.

use vstd::prelude::*;
use crate::errors::WarrantError;
use crate::events::WarrantIssued;
use crate::state::{Issuer, Stakeholder, WarrantActivePosition};

verus! {

/// The records an issuance of a warrant works on. `position` is the record
/// to fill.
#[derive(Clone, Copy, Debug, PartialEq, Eq)]
pub struct IssueWarrant {
    pub issuer: Issuer,
    pub stakeholder: Stakeholder,
    pub position: WarrantActivePosition,
}

impl IssueWarrant {
    /// Why the issuance is refused, if it is.
    pub open spec fn rejection(self, quantity: u64) -> Option<WarrantError> {
        if quantity == 0 {
            Some(WarrantError::InvalidQuantity)
        } else {
            None
        }
    }

    /// The records after a successful issuance.
    pub open spec fn issued(self, security_id: [u8; 16], quantity: u64) -> Self {
        IssueWarrant {
            position: WarrantActivePosition {
                stakeholder_id: self.stakeholder.id,
                security_id,
                quantity,
            },
            ..self
        }
    }

    /// The event of a successful issuance.
    pub open spec fn event(self, security_id: [u8; 16], quantity: u64) -> WarrantIssued {
        WarrantIssued { stakeholder_id: self.stakeholder.id, security_id, quantity }
    }
}

/// Issues a warrant for `quantity` shares to the stakeholder under the
/// security `security_id`.
///
/// A zero quantity is refused and the records stay as they are.
pub fn issue_warrant(ctx: &mut IssueWarrant, security_id: [u8; 16], quantity: u64) -> (r: Result<
    WarrantIssued,
    WarrantError,
>)
    ensures
        old(ctx).rejection(quantity) matches Some(e) ==> r == Err::<WarrantIssued, WarrantError>(e)
            && *final(ctx) == *old(ctx),
        old(ctx).rejection(quantity) is None ==> r == Ok::<WarrantIssued, WarrantError>(
            old(ctx).event(security_id, quantity),
        ) && *final(ctx) == old(ctx).issued(security_id, quantity),
{
    if quantity == 0 {
        return Err(WarrantError::InvalidQuantity);
    }
    ctx.position.stakeholder_id = ctx.stakeholder.id;
    ctx.position.security_id = security_id;
    ctx.position.quantity = quantity;
    Ok(WarrantIssued { stakeholder_id: ctx.stakeholder.id, security_id, quantity })
}

} // verus!
