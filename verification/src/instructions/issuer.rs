//! Creating issuers and resizing their authorized pool.

use vstd::prelude::*;
use crate::errors::IssuerError;
use crate::events::{IssuerAuthorizedSharesAdjusted, IssuerInitialized};
use crate::state::Issuer;

verus! {

/// The record the creation of an issuer works on: the one to fill.
#[derive(Clone, Copy, Debug, PartialEq, Eq)]
pub struct InitializeIssuer {
    pub issuer: Issuer,
}

/// The record a resizing of an issuer works on.
#[derive(Clone, Copy, Debug, PartialEq, Eq)]
pub struct AdjustAuthorizedShares {
    pub issuer: Issuer,
}

impl InitializeIssuer {
    /// Why the creation is refused, if it is: a record with a non-zero
    /// authorized pool has been filled before.
    pub open spec fn rejection(self) -> Option<IssuerError> {
        if self.issuer.shares_authorized != 0 {
            Some(IssuerError::AlreadyInitialized)
        } else {
            None
        }
    }

    /// The record after a successful creation.
    pub open spec fn initialized(self, id: [u8; 16], initial_shares_authorized: u64) -> Self {
        InitializeIssuer {
            issuer: Issuer { id, shares_issued: 0, shares_authorized: initial_shares_authorized },
        }
    }

    /// The event of a successful creation.
    pub open spec fn event(id: [u8; 16], initial_shares_authorized: u64) -> IssuerInitialized {
        IssuerInitialized { id, initial_shares_authorized }
    }
}

impl AdjustAuthorizedShares {
    /// The record after the resizing: the authorized pool has the new size,
    /// whatever has been issued.
    pub open spec fn adjusted(self, new_shares_authorized: u64) -> Self {
        AdjustAuthorizedShares {
            issuer: Issuer { shares_authorized: new_shares_authorized, ..self.issuer },
        }
    }

    /// The event of the resizing.
    pub open spec fn event(self, new_shares_authorized: u64) -> IssuerAuthorizedSharesAdjusted {
        IssuerAuthorizedSharesAdjusted { issuer_id: self.issuer.id, new_shares_authorized }
    }
}

/// Creates the issuer `id` with an authorized pool of
/// `initial_shares_authorized` shares, none of them issued.
///
/// Refused when the record has been filled before, and the record stays as
/// it is.
pub fn initialize_issuer(ctx: &mut InitializeIssuer, id: [u8; 16], initial_shares_authorized: u64) -> (r:
    Result<IssuerInitialized, IssuerError>)
    ensures
        old(ctx).rejection() matches Some(e) ==> r == Err::<IssuerInitialized, IssuerError>(e)
            && *final(ctx) == *old(ctx),
        old(ctx).rejection() is None ==> r == Ok::<IssuerInitialized, IssuerError>(
            InitializeIssuer::event(id, initial_shares_authorized),
        ) && *final(ctx) == old(ctx).initialized(id, initial_shares_authorized),
{
    if ctx.issuer.shares_authorized != 0 {
        return Err(IssuerError::AlreadyInitialized);
    }
    ctx.issuer.id = id;
    ctx.issuer.shares_issued = 0;
    ctx.issuer.shares_authorized = initial_shares_authorized;
    Ok(IssuerInitialized { id, initial_shares_authorized })
}

/// Sets the authorized pool of the issuer to `new_shares_authorized`. The
/// new size is taken as it is; it is not held against what has been issued.
pub fn adjust_authorized_shares(ctx: &mut AdjustAuthorizedShares, new_shares_authorized: u64) -> (event:
    IssuerAuthorizedSharesAdjusted)
    ensures
        event == old(ctx).event(new_shares_authorized),
        *final(ctx) == old(ctx).adjusted(new_shares_authorized),
{
    ctx.issuer.shares_authorized = new_shares_authorized;
    IssuerAuthorizedSharesAdjusted { issuer_id: ctx.issuer.id, new_shares_authorized }
}

} // verus!
