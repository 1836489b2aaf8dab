//! Creating stakeholders.

use vstd::prelude::*;
use crate::events::StakeholderCreated;
use crate::state::{Issuer, Stakeholder};

verus! {

/// The records the creation of a stakeholder works on. `stakeholder` is the
/// record to fill.
#[derive(Clone, Copy, Debug, PartialEq, Eq)]
pub struct CreateStakeholder {
    pub issuer: Issuer,
    pub stakeholder: Stakeholder,
}

impl CreateStakeholder {
    /// The records after the creation.
    pub open spec fn created(self, id: [u8; 16]) -> Self {
        CreateStakeholder { stakeholder: Stakeholder { id }, ..self }
    }

    /// The event of the creation.
    pub open spec fn event(self, id: [u8; 16]) -> StakeholderCreated {
        StakeholderCreated { id, issuer_id: self.issuer.id }
    }
}

/// Creates the stakeholder `id`.
pub fn create_stakeholder(ctx: &mut CreateStakeholder, id: [u8; 16]) -> (event: StakeholderCreated)
    ensures
        event == old(ctx).event(id),
        *final(ctx) == old(ctx).created(id),
{
    ctx.stakeholder.id = id;
    StakeholderCreated { id, issuer_id: ctx.issuer.id }
}

} // verus!
