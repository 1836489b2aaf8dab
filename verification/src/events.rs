//! The events of the ledger.
//!
//! Every successful transition yields exactly one event: the kind of the
//! operation and its payload. The ledger keeps events in that typed form.
//! For publication, an event of a transaction (an adjustment, an issuance or
//! an exercise) is wrapped in a `TxCreated` envelope that carries its
//! transaction kind, the bytes of its payload and the issuer. An event that
//! records the creation of an entity has no transaction kind and is published
//! under its own type.

use vstd::prelude::*;
use vstd::bytes::spec_u64_to_le_bytes;
use crate::wire::{id_serializes, quantity_serializes, EventError, PayloadWriter};

verus! {

/// The vocabulary of transaction kinds. Some kinds are reserved: no
/// transition produces them yet.
#[derive(Clone, Copy, Debug, PartialEq, Eq, Structural)]
pub enum TxType {
    Invalid,
    IssuerAuthorizedSharesAdjustment,
    StockClassAuthorizedSharesAdjustment,
    StockAcceptance,
    StockCancellation,
    StockIssuance,
    StockReissuance,
    StockRepurchase,
    StockRetraction,
    StockTransfer,
    ConvertibleIssuance,
    EquityCompensationIssuance,
    StockPlanPoolAdjustment,
    WarrantIssuance,
    EquityCompensationExercise,
}

/// The envelope a transaction is published in.
#[derive(Debug, PartialEq, Eq)]
pub struct TxCreated {
    pub tx_type: TxType,
    pub tx_data: Vec<u8>,
    pub issuer_id: [u8; 16],
}

/// An issuer was created.
#[derive(Clone, Copy, Debug, PartialEq, Eq)]
pub struct IssuerInitialized {
    pub id: [u8; 16],
    pub initial_shares_authorized: u64,
}

/// The authorized pool of an issuer was set to a new size.
#[derive(Clone, Copy, Debug, PartialEq, Eq)]
pub struct IssuerAuthorizedSharesAdjusted {
    pub issuer_id: [u8; 16],
    pub new_shares_authorized: u64,
}

/// A stock class was created.
#[derive(Debug, PartialEq, Eq)]
pub struct StockClassCreated {
    pub id: [u8; 16],
    pub class_type: String,
    pub price_per_share: u64,
    pub initial_shares_authorized: u64,
    pub issuer_id: [u8; 16],
}

/// The authorized pool of a stock class was set to a new size.
#[derive(Clone, Copy, Debug, PartialEq, Eq)]
pub struct StockClassSharesAdjusted {
    pub stock_class_id: [u8; 16],
    pub new_shares_authorized: u64,
    pub issuer_id: [u8; 16],
}

/// A stakeholder was created.
#[derive(Clone, Copy, Debug, PartialEq, Eq)]
pub struct StakeholderCreated {
    pub id: [u8; 16],
    pub issuer_id: [u8; 16],
}

/// Stock was issued to a stakeholder.
#[derive(Clone, Copy, Debug, PartialEq, Eq)]
pub struct StockIssued {
    pub stock_class_id: [u8; 16],
    pub security_id: [u8; 16],
    pub stakeholder_id: [u8; 16],
    pub quantity: u64,
    pub share_price: u64,
    pub issuer_id: [u8; 16],
}

/// A stock plan was created.
#[derive(Clone, Copy, Debug, PartialEq, Eq)]
pub struct StockPlanCreated {
    pub id: [u8; 16],
    pub shares_reserved: u64,
    pub issuer_id: [u8; 16],
}

/// The reserved pool of a stock plan was set to a new size.
#[derive(Clone, Copy, Debug, PartialEq, Eq)]
pub struct StockPlanSharesAdjusted {
    pub id: [u8; 16],
    pub new_shares_reserved: u64,
}

/// A convertible was issued to a stakeholder.
#[derive(Clone, Copy, Debug, PartialEq, Eq)]
pub struct ConvertibleIssued {
    pub stakeholder_id: [u8; 16],
    pub security_id: [u8; 16],
    pub investment_amount: u64,
}

/// Equity compensation was granted to a stakeholder. On the wire the plan is
/// sixteen zero bytes when the grant was made under no plan.
#[derive(Clone, Copy, Debug, PartialEq, Eq)]
pub struct EquityCompensationIssued {
    pub security_id: [u8; 16],
    pub stakeholder_id: [u8; 16],
    pub stock_class_id: [u8; 16],
    pub stock_plan_id: [u8; 16],
    pub quantity: u64,
}

/// Part or all of a grant of equity compensation was exercised.
#[derive(Clone, Copy, Debug, PartialEq, Eq)]
pub struct EquityCompensationExercised {
    pub equity_comp_security_id: [u8; 16],
    pub resulting_stock_security_id: [u8; 16],
    pub quantity: u64,
}

/// A warrant was issued to a stakeholder.
#[derive(Clone, Copy, Debug, PartialEq, Eq)]
pub struct WarrantIssued {
    pub stakeholder_id: [u8; 16],
    pub security_id: [u8; 16],
    pub quantity: u64,
}

/// One event of the ledger: the kind of the operation and its payload.
#[derive(Debug, PartialEq, Eq)]
pub enum Event {
    IssuerInitialized(IssuerInitialized),
    IssuerAuthorizedSharesAdjusted(IssuerAuthorizedSharesAdjusted),
    StockClassCreated(StockClassCreated),
    StockClassSharesAdjusted(StockClassSharesAdjusted),
    StakeholderCreated(StakeholderCreated),
    StockPlanCreated(StockPlanCreated),
    StockPlanSharesAdjusted(StockPlanSharesAdjusted),
    StockIssued(StockIssued),
    ConvertibleIssued(ConvertibleIssued),
    EquityCompensationIssued(EquityCompensationIssued),
    EquityCompensationExercised(EquityCompensationExercised),
    WarrantIssued(WarrantIssued),
}

impl IssuerAuthorizedSharesAdjusted {
    /// The payload bytes: the issuer, then the new size of the pool.
    pub open spec fn encoding(self) -> Seq<u8> {
        self.issuer_id@ + spec_u64_to_le_bytes(self.new_shares_authorized)
    }

    /// Whether the serializer accepts every field of the payload.
    pub open spec fn serializes(self) -> bool {
        &&& id_serializes(self.issuer_id)
        &&& quantity_serializes(self.new_shares_authorized)
    }

    /// Serializes the payload: its bytes when the serializer accepts every
    /// field, the failure otherwise.
    pub fn try_to_vec(&self) -> (r: Result<Vec<u8>, EventError>)
        ensures
            self.serializes() ==> r is Ok && r->Ok_0@ == self.encoding(),
            !self.serializes() ==> r == Err::<Vec<u8>, EventError>(EventError::BorshIo),
    {
        let mut writer = PayloadWriter::new();
        writer.id(&self.issuer_id);
        writer.quantity(self.new_shares_authorized);
        writer.finish()
    }
}

impl StockClassSharesAdjusted {
    /// The payload bytes: the stock class, the new size of the pool, the issuer.
    pub open spec fn encoding(self) -> Seq<u8> {
        self.stock_class_id@ + spec_u64_to_le_bytes(self.new_shares_authorized) + self.issuer_id@
    }

    /// Whether the serializer accepts every field of the payload.
    pub open spec fn serializes(self) -> bool {
        &&& id_serializes(self.stock_class_id)
        &&& quantity_serializes(self.new_shares_authorized)
        &&& id_serializes(self.issuer_id)
    }

    /// Serializes the payload: its bytes when the serializer accepts every
    /// field, the failure otherwise.
    pub fn try_to_vec(&self) -> (r: Result<Vec<u8>, EventError>)
        ensures
            self.serializes() ==> r is Ok && r->Ok_0@ == self.encoding(),
            !self.serializes() ==> r == Err::<Vec<u8>, EventError>(EventError::BorshIo),
    {
        let mut writer = PayloadWriter::new();
        writer.id(&self.stock_class_id);
        writer.quantity(self.new_shares_authorized);
        writer.id(&self.issuer_id);
        writer.finish()
    }
}

impl StockPlanSharesAdjusted {
    /// The payload bytes: the stock plan, then the new size of the pool.
    pub open spec fn encoding(self) -> Seq<u8> {
        self.id@ + spec_u64_to_le_bytes(self.new_shares_reserved)
    }

    /// Whether the serializer accepts every field of the payload.
    pub open spec fn serializes(self) -> bool {
        &&& id_serializes(self.id)
        &&& quantity_serializes(self.new_shares_reserved)
    }

    /// Serializes the payload: its bytes when the serializer accepts every
    /// field, the failure otherwise.
    pub fn try_to_vec(&self) -> (r: Result<Vec<u8>, EventError>)
        ensures
            self.serializes() ==> r is Ok && r->Ok_0@ == self.encoding(),
            !self.serializes() ==> r == Err::<Vec<u8>, EventError>(EventError::BorshIo),
    {
        let mut writer = PayloadWriter::new();
        writer.id(&self.id);
        writer.quantity(self.new_shares_reserved);
        writer.finish()
    }
}

impl StockIssued {
    /// The payload bytes: the stock class, the security, the stakeholder, the
    /// quantity, the share price, the issuer.
    pub open spec fn encoding(self) -> Seq<u8> {
        self.stock_class_id@ + self.security_id@ + self.stakeholder_id@ + spec_u64_to_le_bytes(
            self.quantity,
        ) + spec_u64_to_le_bytes(self.share_price) + self.issuer_id@
    }

    /// Whether the serializer accepts every field of the payload.
    pub open spec fn serializes(self) -> bool {
        &&& id_serializes(self.stock_class_id)
        &&& id_serializes(self.security_id)
        &&& id_serializes(self.stakeholder_id)
        &&& quantity_serializes(self.quantity)
        &&& quantity_serializes(self.share_price)
        &&& id_serializes(self.issuer_id)
    }

    /// Serializes the payload: its bytes when the serializer accepts every
    /// field, the failure otherwise.
    pub fn try_to_vec(&self) -> (r: Result<Vec<u8>, EventError>)
        ensures
            self.serializes() ==> r is Ok && r->Ok_0@ == self.encoding(),
            !self.serializes() ==> r == Err::<Vec<u8>, EventError>(EventError::BorshIo),
    {
        let mut writer = PayloadWriter::new();
        writer.id(&self.stock_class_id);
        writer.id(&self.security_id);
        writer.id(&self.stakeholder_id);
        writer.quantity(self.quantity);
        writer.quantity(self.share_price);
        writer.id(&self.issuer_id);
        writer.finish()
    }
}

impl ConvertibleIssued {
    /// The payload bytes: the stakeholder, the security, the amount invested.
    pub open spec fn encoding(self) -> Seq<u8> {
        self.stakeholder_id@ + self.security_id@ + spec_u64_to_le_bytes(self.investment_amount)
    }

    /// Whether the serializer accepts every field of the payload.
    pub open spec fn serializes(self) -> bool {
        &&& id_serializes(self.stakeholder_id)
        &&& id_serializes(self.security_id)
        &&& quantity_serializes(self.investment_amount)
    }

    /// Serializes the payload: its bytes when the serializer accepts every
    /// field, the failure otherwise.
    pub fn try_to_vec(&self) -> (r: Result<Vec<u8>, EventError>)
        ensures
            self.serializes() ==> r is Ok && r->Ok_0@ == self.encoding(),
            !self.serializes() ==> r == Err::<Vec<u8>, EventError>(EventError::BorshIo),
    {
        let mut writer = PayloadWriter::new();
        writer.id(&self.stakeholder_id);
        writer.id(&self.security_id);
        writer.quantity(self.investment_amount);
        writer.finish()
    }
}

impl EquityCompensationIssued {
    /// The payload bytes: the security, the stakeholder, the stock class, the
    /// stock plan, the quantity.
    pub open spec fn encoding(self) -> Seq<u8> {
        self.security_id@ + self.stakeholder_id@ + self.stock_class_id@ + self.stock_plan_id@
            + spec_u64_to_le_bytes(self.quantity)
    }

    /// Whether the serializer accepts every field of the payload.
    pub open spec fn serializes(self) -> bool {
        &&& id_serializes(self.security_id)
        &&& id_serializes(self.stakeholder_id)
        &&& id_serializes(self.stock_class_id)
        &&& id_serializes(self.stock_plan_id)
        &&& quantity_serializes(self.quantity)
    }

    /// Serializes the payload: its bytes when the serializer accepts every
    /// field, the failure otherwise.
    pub fn try_to_vec(&self) -> (r: Result<Vec<u8>, EventError>)
        ensures
            self.serializes() ==> r is Ok && r->Ok_0@ == self.encoding(),
            !self.serializes() ==> r == Err::<Vec<u8>, EventError>(EventError::BorshIo),
    {
        let mut writer = PayloadWriter::new();
        writer.id(&self.security_id);
        writer.id(&self.stakeholder_id);
        writer.id(&self.stock_class_id);
        writer.id(&self.stock_plan_id);
        writer.quantity(self.quantity);
        writer.finish()
    }
}

impl EquityCompensationExercised {
    /// The payload bytes: the grant's security, the resulting stock's
    /// security, the quantity.
    pub open spec fn encoding(self) -> Seq<u8> {
        self.equity_comp_security_id@ + self.resulting_stock_security_id@ + spec_u64_to_le_bytes(
            self.quantity,
        )
    }

    /// Whether the serializer accepts every field of the payload.
    pub open spec fn serializes(self) -> bool {
        &&& id_serializes(self.equity_comp_security_id)
        &&& id_serializes(self.resulting_stock_security_id)
        &&& quantity_serializes(self.quantity)
    }

    /// Serializes the payload: its bytes when the serializer accepts every
    /// field, the failure otherwise.
    pub fn try_to_vec(&self) -> (r: Result<Vec<u8>, EventError>)
        ensures
            self.serializes() ==> r is Ok && r->Ok_0@ == self.encoding(),
            !self.serializes() ==> r == Err::<Vec<u8>, EventError>(EventError::BorshIo),
    {
        let mut writer = PayloadWriter::new();
        writer.id(&self.equity_comp_security_id);
        writer.id(&self.resulting_stock_security_id);
        writer.quantity(self.quantity);
        writer.finish()
    }
}

impl WarrantIssued {
    /// The payload bytes: the stakeholder, the security, the quantity.
    pub open spec fn encoding(self) -> Seq<u8> {
        self.stakeholder_id@ + self.security_id@ + spec_u64_to_le_bytes(self.quantity)
    }

    /// Whether the serializer accepts every field of the payload.
    pub open spec fn serializes(self) -> bool {
        &&& id_serializes(self.stakeholder_id)
        &&& id_serializes(self.security_id)
        &&& quantity_serializes(self.quantity)
    }

    /// Serializes the payload: its bytes when the serializer accepts every
    /// field, the failure otherwise.
    pub fn try_to_vec(&self) -> (r: Result<Vec<u8>, EventError>)
        ensures
            self.serializes() ==> r is Ok && r->Ok_0@ == self.encoding(),
            !self.serializes() ==> r == Err::<Vec<u8>, EventError>(EventError::BorshIo),
    {
        let mut writer = PayloadWriter::new();
        writer.id(&self.stakeholder_id);
        writer.id(&self.security_id);
        writer.quantity(self.quantity);
        writer.finish()
    }
}

impl Event {
    /// The transaction kind of the event, if it records a transaction.
    pub open spec fn tx_type_spec(self) -> Option<TxType> {
        match self {
            Event::IssuerInitialized(_) => None,
            Event::IssuerAuthorizedSharesAdjusted(_) => Some(
                TxType::IssuerAuthorizedSharesAdjustment,
            ),
            Event::StockClassCreated(_) => None,
            Event::StockClassSharesAdjusted(_) => Some(TxType::StockClassAuthorizedSharesAdjustment),
            Event::StakeholderCreated(_) => None,
            Event::StockPlanCreated(_) => None,
            Event::StockPlanSharesAdjusted(_) => Some(TxType::StockPlanPoolAdjustment),
            Event::StockIssued(_) => Some(TxType::StockIssuance),
            Event::ConvertibleIssued(_) => Some(TxType::ConvertibleIssuance),
            Event::EquityCompensationIssued(_) => Some(TxType::EquityCompensationIssuance),
            Event::EquityCompensationExercised(_) => Some(TxType::EquityCompensationExercise),
            Event::WarrantIssued(_) => Some(TxType::WarrantIssuance),
        }
    }

    /// The payload bytes of a transaction; empty for an event that records
    /// no transaction.
    pub open spec fn encoding(self) -> Seq<u8> {
        match self {
            Event::IssuerAuthorizedSharesAdjusted(payload) => payload.encoding(),
            Event::StockClassSharesAdjusted(payload) => payload.encoding(),
            Event::StockPlanSharesAdjusted(payload) => payload.encoding(),
            Event::StockIssued(payload) => payload.encoding(),
            Event::ConvertibleIssued(payload) => payload.encoding(),
            Event::EquityCompensationIssued(payload) => payload.encoding(),
            Event::EquityCompensationExercised(payload) => payload.encoding(),
            Event::WarrantIssued(payload) => payload.encoding(),
            _ => Seq::<u8>::empty(),
        }
    }

    /// Whether the serializer accepts every field of the payload. An event
    /// that records no transaction has no payload to accept.
    pub open spec fn serializes(self) -> bool {
        match self {
            Event::IssuerAuthorizedSharesAdjusted(payload) => payload.serializes(),
            Event::StockClassSharesAdjusted(payload) => payload.serializes(),
            Event::StockPlanSharesAdjusted(payload) => payload.serializes(),
            Event::StockIssued(payload) => payload.serializes(),
            Event::ConvertibleIssued(payload) => payload.serializes(),
            Event::EquityCompensationIssued(payload) => payload.serializes(),
            Event::EquityCompensationExercised(payload) => payload.serializes(),
            Event::WarrantIssued(payload) => payload.serializes(),
            _ => false,
        }
    }

    /// Why the event cannot be rendered as an envelope, if it cannot: it
    /// records no transaction, or the serializer does not accept a field of
    /// its payload.
    pub open spec fn envelope_error(self) -> Option<EventError> {
        if self.tx_type_spec() is None {
            Some(EventError::NotATransaction)
        } else if !self.serializes() {
            Some(EventError::BorshIo)
        } else {
            None
        }
    }

    /// The transaction kind of the event, if it records a transaction.
    pub fn tx_type(&self) -> (kind: Option<TxType>)
        ensures
            kind == self.tx_type_spec(),
    {
        match self {
            Event::IssuerInitialized(_) => None,
            Event::IssuerAuthorizedSharesAdjusted(_) => Some(
                TxType::IssuerAuthorizedSharesAdjustment,
            ),
            Event::StockClassCreated(_) => None,
            Event::StockClassSharesAdjusted(_) => Some(TxType::StockClassAuthorizedSharesAdjustment),
            Event::StakeholderCreated(_) => None,
            Event::StockPlanCreated(_) => None,
            Event::StockPlanSharesAdjusted(_) => Some(TxType::StockPlanPoolAdjustment),
            Event::StockIssued(_) => Some(TxType::StockIssuance),
            Event::ConvertibleIssued(_) => Some(TxType::ConvertibleIssuance),
            Event::EquityCompensationIssued(_) => Some(TxType::EquityCompensationIssuance),
            Event::EquityCompensationExercised(_) => Some(TxType::EquityCompensationExercise),
            Event::WarrantIssued(_) => Some(TxType::WarrantIssuance),
        }
    }

    /// Serializes the payload of a transaction.
    pub fn try_to_vec(&self) -> (r: Result<Vec<u8>, EventError>)
        ensures
            self.envelope_error() matches Some(e) ==> r == Err::<Vec<u8>, EventError>(e),
            self.envelope_error() is None ==> r is Ok && r->Ok_0@ == self.encoding(),
    {
        match self {
            Event::IssuerAuthorizedSharesAdjusted(payload) => payload.try_to_vec(),
            Event::StockClassSharesAdjusted(payload) => payload.try_to_vec(),
            Event::StockPlanSharesAdjusted(payload) => payload.try_to_vec(),
            Event::StockIssued(payload) => payload.try_to_vec(),
            Event::ConvertibleIssued(payload) => payload.try_to_vec(),
            Event::EquityCompensationIssued(payload) => payload.try_to_vec(),
            Event::EquityCompensationExercised(payload) => payload.try_to_vec(),
            Event::WarrantIssued(payload) => payload.try_to_vec(),
            _ => Err(EventError::NotATransaction),
        }
    }
}

impl TxCreated {
    /// Puts a transaction kind, the outcome of serializing its payload and
    /// the issuer together: an envelope when there is a kind and the payload
    /// was serialized, the failure otherwise.
    pub fn assemble(
        kind: Option<TxType>,
        payload: Result<Vec<u8>, EventError>,
        issuer_id: [u8; 16],
    ) -> (r: Result<TxCreated, EventError>)
        ensures
            kind is None ==> r == Err::<TxCreated, EventError>(EventError::NotATransaction),
            kind is Some && payload is Err ==> r == Err::<TxCreated, EventError>(payload->Err_0),
            kind is Some && payload is Ok ==> r is Ok && r->Ok_0.tx_type == kind->Some_0
                && r->Ok_0.tx_data == payload->Ok_0 && r->Ok_0.issuer_id == issuer_id,
    {
        match kind {
            None => Err(EventError::NotATransaction),
            Some(tx_type) => match payload {
                Ok(tx_data) => Ok(TxCreated { tx_type, tx_data, issuer_id }),
                Err(e) => Err(e),
            },
        }
    }

    /// Renders the event of a transaction of `issuer_id` as an envelope:
    /// the kind of the transaction, the bytes of its payload and the issuer.
    /// Refused for an event that records no transaction, and when the
    /// serializer does not accept a field.
    pub fn from_event(event: &Event, issuer_id: [u8; 16]) -> (r: Result<TxCreated, EventError>)
        ensures
            event.envelope_error() matches Some(e) ==> r == Err::<TxCreated, EventError>(e),
            event.envelope_error() is None ==> r is Ok && Some(r->Ok_0.tx_type)
                == event.tx_type_spec() && r->Ok_0.tx_data@ == event.encoding()
                && r->Ok_0.issuer_id == issuer_id,
    {
        TxCreated::assemble(event.tx_type(), event.try_to_vec(), issuer_id)
    }
}

} // verus!
