//! The ledger as a state machine: its state, and for each operation the
//! state and the event that follow from a state and the operation's inputs,
//! or the reason why the operation is refused.
//!
//! An operation loads the records it names, in a fixed order, runs the
//! transition on them and writes them back. The first check that fails
//! decides the error. A refused operation leaves the state as it is.

use vstd::prelude::*;
use crate::errors::{
    ConvertibleError, EquityCompensationError, IssuerError, StockClassError, StockError,
    StockPlanError, WarrantError,
};
use crate::events::{
    Event, IssuerInitialized, StakeholderCreated, StockClassCreated, StockPlanCreated, TxCreated,
};
use crate::instructions::{
    AdjustAuthorizedShares, AdjustStockClassShares, AdjustStockPlanShares,
    ExerciseEquityCompensation, IssueConvertible, IssueEquityCompensation, IssueStock,
    IssueWarrant,
};
use crate::state::{
    ConvertibleActivePosition, EquityCompensationActivePosition, EquityCompensationKey, Issuer,
    PositionKey, Stakeholder, StockActivePosition, StockClass, StockPlan, WarrantActivePosition,
};
use crate::store::{contains_key, index_of};
use crate::wire::EventError;

verus! {

/// The kinds of record the ledger stores.
#[derive(Clone, Copy, Debug, PartialEq, Eq, Structural)]
pub enum RecordKind {
    Issuer,
    StockClass,
    Stakeholder,
    StockPlan,
    StockPosition,
    ConvertiblePosition,
    EquityCompensationPosition,
    WarrantPosition,
}

/// Why the ledger refuses an operation.
#[derive(Clone, Copy, Debug, PartialEq, Eq, Structural)]
pub enum LedgerError {
    /// A record that the operation names is not stored.
    NotFound(RecordKind),
    /// The record that the operation would create is stored already.
    AlreadyExists(RecordKind),
    Issuer(IssuerError),
    StockClass(StockClassError),
    Stock(StockError),
    StockPlan(StockPlanError),
    Convertible(ConvertibleError),
    EquityCompensation(EquityCompensationError),
    Warrant(WarrantError),
}

/// One entry of the event log: the issuer in whose scope the operation ran,
/// and the event of the operation.
#[derive(Debug, PartialEq, Eq)]
pub struct LogEntry {
    pub issuer_id: [u8; 16],
    pub event: Event,
}

impl LogEntry {
    /// Renders the entry as a transaction envelope, when its event records a
    /// transaction.
    pub fn to_tx(&self) -> (r: Result<TxCreated, EventError>)
        ensures
            self.event.envelope_error() matches Some(e) ==> r == Err::<TxCreated, EventError>(e),
            self.event.envelope_error() is None ==> r is Ok && Some(r->Ok_0.tx_type)
                == self.event.tx_type_spec() && r->Ok_0.tx_data@ == self.event.encoding()
                && r->Ok_0.issuer_id == self.issuer_id,
    {
        TxCreated::from_event(&self.event, self.issuer_id)
    }
}

/// One operation of the ledger with its inputs.
#[allow(inconsistent_fields)]
#[derive(Debug, PartialEq, Eq)]
pub enum Instruction {
    InitializeIssuer { id: [u8; 16], initial_shares_authorized: u64 },
    AdjustAuthorizedShares { issuer_id: [u8; 16], new_shares_authorized: u64 },
    CreateStockClass {
        issuer_id: [u8; 16],
        id: [u8; 16],
        class_type: String,
        price_per_share: u64,
        initial_shares_authorized: u64,
    },
    AdjustStockClassShares {
        issuer_id: [u8; 16],
        stock_class_id: [u8; 16],
        new_shares_authorized: u64,
    },
    CreateStakeholder { issuer_id: [u8; 16], id: [u8; 16] },
    CreateStockPlan {
        issuer_id: [u8; 16],
        id: [u8; 16],
        stock_class_ids: Vec<[u8; 16]>,
        shares_reserved: u64,
    },
    AdjustStockPlanShares { issuer_id: [u8; 16], stock_plan_id: [u8; 16], new_shares_reserved: u64 },
    IssueStock {
        issuer_id: [u8; 16],
        stock_class_id: [u8; 16],
        security_id: [u8; 16],
        quantity: u64,
        share_price: u64,
        stakeholder_id: [u8; 16],
    },
    IssueConvertible {
        issuer_id: [u8; 16],
        security_id: [u8; 16],
        investment_amount: u64,
        stakeholder_id: [u8; 16],
    },
    IssueEquityCompensation {
        issuer_id: [u8; 16],
        security_id: [u8; 16],
        quantity: u64,
        stakeholder_id: [u8; 16],
        stock_class_id: [u8; 16],
        stock_plan_id: Option<[u8; 16]>,
    },
    ExerciseEquityCompensation {
        issuer_id: [u8; 16],
        equity_position: EquityCompensationKey,
        stock_position: PositionKey,
        quantity: u64,
    },
    IssueWarrant {
        issuer_id: [u8; 16],
        security_id: [u8; 16],
        quantity: u64,
        stakeholder_id: [u8; 16],
    },
}

impl Instruction {
    /// The issuer in whose scope the operation runs.
    pub open spec fn scope(self) -> [u8; 16] {
        match self {
            Instruction::InitializeIssuer { id, .. } => id,
            Instruction::AdjustAuthorizedShares { issuer_id, .. } => issuer_id,
            Instruction::CreateStockClass { issuer_id, .. } => issuer_id,
            Instruction::AdjustStockClassShares { issuer_id, .. } => issuer_id,
            Instruction::CreateStakeholder { issuer_id, .. } => issuer_id,
            Instruction::CreateStockPlan { issuer_id, .. } => issuer_id,
            Instruction::AdjustStockPlanShares { issuer_id, .. } => issuer_id,
            Instruction::IssueStock { issuer_id, .. } => issuer_id,
            Instruction::IssueConvertible { issuer_id, .. } => issuer_id,
            Instruction::IssueEquityCompensation { issuer_id, .. } => issuer_id,
            Instruction::ExerciseEquityCompensation { issuer_id, .. } => issuer_id,
            Instruction::IssueWarrant { issuer_id, .. } => issuer_id,
        }
    }
}

/// Everything the ledger holds: the records of each kind in the order of
/// their creation, and the event log.
pub struct LedgerState {
    pub issuers: Seq<Issuer>,
    pub stock_classes: Seq<StockClass>,
    pub stakeholders: Seq<Stakeholder>,
    pub stock_plans: Seq<StockPlan>,
    pub stock_positions: Seq<StockActivePosition>,
    pub convertible_positions: Seq<ConvertibleActivePosition>,
    pub equity_compensation_positions: Seq<EquityCompensationActivePosition>,
    pub warrant_positions: Seq<WarrantActivePosition>,
    pub events: Seq<LogEntry>,
}

/// Whether every stock class that `stock_class_ids` lists is stored.
pub open spec fn all_stock_classes_stored(
    stock_classes: Seq<StockClass>,
    stock_class_ids: Seq<[u8; 16]>,
) -> bool {
    forall|k: int|
        0 <= k < stock_class_ids.len() ==> contains_key(stock_classes, #[trigger] stock_class_ids[k])
}

/// Whether `after` and `r` are what carrying out an operation on `before`
/// leaves: the next state and success when the operation is accepted, the
/// state as it was and the error when it is refused.
pub open spec fn carried_out(
    before: LedgerState,
    attempt: Result<LedgerState, LedgerError>,
    r: Result<(), LedgerError>,
    after: LedgerState,
) -> bool {
    match attempt {
        Ok(next) => r is Ok && after == next,
        Err(e) => r == Err::<(), LedgerError>(e) && after == before,
    }
}

impl LedgerState {
    /// The ledger before anything was recorded.
    pub open spec fn empty() -> LedgerState {
        LedgerState {
            issuers: Seq::empty(),
            stock_classes: Seq::empty(),
            stakeholders: Seq::empty(),
            stock_plans: Seq::empty(),
            stock_positions: Seq::empty(),
            convertible_positions: Seq::empty(),
            equity_compensation_positions: Seq::empty(),
            warrant_positions: Seq::empty(),
            events: Seq::empty(),
        }
    }

    /// The state with one more entry in the event log.
    pub open spec fn logged(self, issuer_id: [u8; 16], event: Event) -> LedgerState {
        LedgerState { events: self.events.push(LogEntry { issuer_id, event }), ..self }
    }

    /// The stored issuer `id`.
    pub open spec fn issuer(self, id: [u8; 16]) -> Issuer {
        self.issuers[index_of(self.issuers, id)]
    }

    /// The stored stock class `id`.
    pub open spec fn stock_class(self, id: [u8; 16]) -> StockClass {
        self.stock_classes[index_of(self.stock_classes, id)]
    }

    /// The stored stakeholder `id`.
    pub open spec fn stakeholder(self, id: [u8; 16]) -> Stakeholder {
        self.stakeholders[index_of(self.stakeholders, id)]
    }

    /// The stored stock plan `id`.
    pub open spec fn stock_plan(self, id: [u8; 16]) -> StockPlan {
        self.stock_plans[index_of(self.stock_plans, id)]
    }

    /// Creates an issuer that has issued nothing. Refused as already
    /// initialized when an issuer is stored under `id`.
    pub open spec fn initialize_issuer(
        self,
        id: [u8; 16],
        initial_shares_authorized: u64,
    ) -> Result<LedgerState, LedgerError> {
        if contains_key(self.issuers, id) {
            Err(LedgerError::Issuer(IssuerError::AlreadyInitialized))
        } else {
            Ok(
                LedgerState {
                    issuers: self.issuers.push(
                        Issuer { id, shares_issued: 0, shares_authorized: initial_shares_authorized },
                    ),
                    ..self
                }.logged(
                    id,
                    Event::IssuerInitialized(IssuerInitialized { id, initial_shares_authorized }),
                ),
            )
        }
    }

    /// Resizes the authorized pool of an issuer.
    pub open spec fn adjust_authorized_shares(
        self,
        issuer_id: [u8; 16],
        new_shares_authorized: u64,
    ) -> Result<LedgerState, LedgerError> {
        if !contains_key(self.issuers, issuer_id) {
            Err(LedgerError::NotFound(RecordKind::Issuer))
        } else {
            let ctx = AdjustAuthorizedShares { issuer: self.issuer(issuer_id) };
            Ok(
                LedgerState {
                    issuers: self.issuers.update(
                        index_of(self.issuers, issuer_id),
                        ctx.adjusted(new_shares_authorized).issuer,
                    ),
                    ..self
                }.logged(
                    issuer_id,
                    Event::IssuerAuthorizedSharesAdjusted(ctx.event(new_shares_authorized)),
                ),
            )
        }
    }

    /// Creates a stock class of an issuer. The stock class has issued nothing.
    pub open spec fn create_stock_class(
        self,
        issuer_id: [u8; 16],
        id: [u8; 16],
        class_type: String,
        price_per_share: u64,
        initial_shares_authorized: u64,
    ) -> Result<LedgerState, LedgerError> {
        if !contains_key(self.issuers, issuer_id) {
            Err(LedgerError::NotFound(RecordKind::Issuer))
        } else if contains_key(self.stock_classes, id) {
            Err(LedgerError::AlreadyExists(RecordKind::StockClass))
        } else if initial_shares_authorized == 0 {
            Err(LedgerError::StockClass(StockClassError::SharesAuthorizedCannotBeZero))
        } else {
            Ok(
                LedgerState {
                    stock_classes: self.stock_classes.push(
                        StockClass {
                            id,
                            class_type,
                            price_per_share,
                            shares_issued: 0,
                            shares_authorized: initial_shares_authorized,
                        },
                    ),
                    ..self
                }.logged(
                    issuer_id,
                    Event::StockClassCreated(
                        StockClassCreated {
                            id,
                            class_type,
                            price_per_share,
                            initial_shares_authorized,
                            issuer_id,
                        },
                    ),
                ),
            )
        }
    }

    /// Resizes the authorized pool of a stock class.
    pub open spec fn adjust_stock_class_shares(
        self,
        issuer_id: [u8; 16],
        stock_class_id: [u8; 16],
        new_shares_authorized: u64,
    ) -> Result<LedgerState, LedgerError> {
        if !contains_key(self.issuers, issuer_id) {
            Err(LedgerError::NotFound(RecordKind::Issuer))
        } else if !contains_key(self.stock_classes, stock_class_id) {
            Err(LedgerError::NotFound(RecordKind::StockClass))
        } else {
            let ctx = AdjustStockClassShares {
                issuer: self.issuer(issuer_id),
                stock_class: self.stock_class(stock_class_id),
            };
            Ok(
                LedgerState {
                    stock_classes: self.stock_classes.update(
                        index_of(self.stock_classes, stock_class_id),
                        ctx.adjusted(new_shares_authorized).stock_class,
                    ),
                    ..self
                }.logged(issuer_id, Event::StockClassSharesAdjusted(ctx.event(new_shares_authorized))),
            )
        }
    }

    /// Creates a stakeholder of an issuer.
    pub open spec fn create_stakeholder(self, issuer_id: [u8; 16], id: [u8; 16]) -> Result<
        LedgerState,
        LedgerError,
    > {
        if !contains_key(self.issuers, issuer_id) {
            Err(LedgerError::NotFound(RecordKind::Issuer))
        } else if contains_key(self.stakeholders, id) {
            Err(LedgerError::AlreadyExists(RecordKind::Stakeholder))
        } else {
            Ok(
                LedgerState {
                    stakeholders: self.stakeholders.push(Stakeholder { id }),
                    ..self
                }.logged(issuer_id, Event::StakeholderCreated(StakeholderCreated { id, issuer_id })),
            )
        }
    }

    /// Creates a stock plan of an issuer. Every stock class that the plan
    /// lists must be stored.
    pub open spec fn create_stock_plan(
        self,
        issuer_id: [u8; 16],
        id: [u8; 16],
        stock_class_ids: Vec<[u8; 16]>,
        shares_reserved: u64,
    ) -> Result<LedgerState, LedgerError> {
        if !contains_key(self.issuers, issuer_id) {
            Err(LedgerError::NotFound(RecordKind::Issuer))
        } else if contains_key(self.stock_plans, id) {
            Err(LedgerError::AlreadyExists(RecordKind::StockPlan))
        } else if stock_class_ids@.len() == 0 {
            Err(LedgerError::StockPlan(StockPlanError::InvalidStockClassCount))
        } else if !all_stock_classes_stored(self.stock_classes, stock_class_ids@) {
            Err(LedgerError::NotFound(RecordKind::StockClass))
        } else {
            Ok(
                LedgerState {
                    stock_plans: self.stock_plans.push(
                        StockPlan { id, stock_class_ids, shares_reserved },
                    ),
                    ..self
                }.logged(
                    issuer_id,
                    Event::StockPlanCreated(StockPlanCreated { id, shares_reserved, issuer_id }),
                ),
            )
        }
    }

    /// Resizes the reserved pool of a stock plan.
    pub open spec fn adjust_stock_plan_shares(
        self,
        issuer_id: [u8; 16],
        stock_plan_id: [u8; 16],
        new_shares_reserved: u64,
    ) -> Result<LedgerState, LedgerError> {
        if !contains_key(self.issuers, issuer_id) {
            Err(LedgerError::NotFound(RecordKind::Issuer))
        } else if !contains_key(self.stock_plans, stock_plan_id) {
            Err(LedgerError::NotFound(RecordKind::StockPlan))
        } else {
            let ctx = AdjustStockPlanShares {
                issuer: self.issuer(issuer_id),
                stock_plan: self.stock_plan(stock_plan_id),
            };
            Ok(
                LedgerState {
                    stock_plans: self.stock_plans.update(
                        index_of(self.stock_plans, stock_plan_id),
                        ctx.adjusted(new_shares_reserved).stock_plan,
                    ),
                    ..self
                }.logged(issuer_id, Event::StockPlanSharesAdjusted(ctx.event(new_shares_reserved))),
            )
        }
    }

    /// Issues stock of a stock class to a stakeholder, and counts it for the
    /// stock class and for the issuer.
    pub open spec fn issue_stock(
        self,
        issuer_id: [u8; 16],
        stock_class_id: [u8; 16],
        security_id: [u8; 16],
        quantity: u64,
        share_price: u64,
        stakeholder_id: [u8; 16],
    ) -> Result<LedgerState, LedgerError> {
        if !contains_key(self.stock_classes, stock_class_id) {
            Err(LedgerError::NotFound(RecordKind::StockClass))
        } else if !contains_key(self.issuers, issuer_id) {
            Err(LedgerError::NotFound(RecordKind::Issuer))
        } else if !contains_key(self.stakeholders, stakeholder_id) {
            Err(LedgerError::NotFound(RecordKind::Stakeholder))
        } else if contains_key(self.stock_positions, PositionKey { stakeholder_id, security_id }) {
            Err(LedgerError::AlreadyExists(RecordKind::StockPosition))
        } else {
            let ctx = IssueStock {
                stock_class: self.stock_class(stock_class_id),
                issuer: self.issuer(issuer_id),
                stakeholder: self.stakeholder(stakeholder_id),
                position: StockActivePosition::blank(),
            };
            match ctx.rejection(quantity, share_price) {
                Some(e) => Err(LedgerError::Stock(e)),
                None => {
                    let after = ctx.issued(security_id, quantity, share_price);
                    Ok(
                        LedgerState {
                            stock_classes: self.stock_classes.update(
                                index_of(self.stock_classes, stock_class_id),
                                after.stock_class,
                            ),
                            issuers: self.issuers.update(
                                index_of(self.issuers, issuer_id),
                                after.issuer,
                            ),
                            stock_positions: self.stock_positions.push(after.position),
                            ..self
                        }.logged(
                            issuer_id,
                            Event::StockIssued(ctx.event(security_id, quantity, share_price)),
                        ),
                    )
                },
            }
        }
    }

    /// Issues a convertible to a stakeholder.
    pub open spec fn issue_convertible(
        self,
        issuer_id: [u8; 16],
        security_id: [u8; 16],
        investment_amount: u64,
        stakeholder_id: [u8; 16],
    ) -> Result<LedgerState, LedgerError> {
        if !contains_key(self.issuers, issuer_id) {
            Err(LedgerError::NotFound(RecordKind::Issuer))
        } else if !contains_key(self.stakeholders, stakeholder_id) {
            Err(LedgerError::NotFound(RecordKind::Stakeholder))
        } else if contains_key(
            self.convertible_positions,
            PositionKey { stakeholder_id, security_id },
        ) {
            Err(LedgerError::AlreadyExists(RecordKind::ConvertiblePosition))
        } else {
            let ctx = IssueConvertible {
                issuer: self.issuer(issuer_id),
                stakeholder: self.stakeholder(stakeholder_id),
                position: ConvertibleActivePosition::blank(),
            };
            match ctx.rejection(investment_amount) {
                Some(e) => Err(LedgerError::Convertible(e)),
                None => Ok(
                    LedgerState {
                        convertible_positions: self.convertible_positions.push(
                            ctx.issued(security_id, investment_amount).position,
                        ),
                        ..self
                    }.logged(
                        issuer_id,
                        Event::ConvertibleIssued(ctx.event(security_id, investment_amount)),
                    ),
                ),
            }
        }
    }

    /// Grants equity compensation to a stakeholder, drawing on a stock class
    /// and, if one is named, a stock plan.
    pub open spec fn issue_equity_compensation(
        self,
        issuer_id: [u8; 16],
        security_id: [u8; 16],
        quantity: u64,
        stakeholder_id: [u8; 16],
        stock_class_id: [u8; 16],
        stock_plan_id: Option<[u8; 16]>,
    ) -> Result<LedgerState, LedgerError> {
        if !contains_key(self.issuers, issuer_id) {
            Err(LedgerError::NotFound(RecordKind::Issuer))
        } else if !contains_key(self.stakeholders, stakeholder_id) {
            Err(LedgerError::NotFound(RecordKind::Stakeholder))
        } else if !contains_key(self.stock_classes, stock_class_id) {
            Err(LedgerError::NotFound(RecordKind::StockClass))
        } else if stock_plan_id is Some && !contains_key(self.stock_plans, stock_plan_id->Some_0) {
            Err(LedgerError::NotFound(RecordKind::StockPlan))
        } else if contains_key(
            self.equity_compensation_positions,
            EquityCompensationKey { security_id, stock_class_id, stakeholder_id },
        ) {
            Err(LedgerError::AlreadyExists(RecordKind::EquityCompensationPosition))
        } else {
            let ctx = IssueEquityCompensation {
                issuer: self.issuer(issuer_id),
                stakeholder: self.stakeholder(stakeholder_id),
                stock_class: self.stock_class(stock_class_id),
                stock_plan: match stock_plan_id {
                    Some(id) => Some(self.stock_plan(id)),
                    None => None,
                },
                position: EquityCompensationActivePosition::blank(),
            };
            match ctx.rejection(quantity) {
                Some(e) => Err(LedgerError::EquityCompensation(e)),
                None => Ok(
                    LedgerState {
                        equity_compensation_positions: self.equity_compensation_positions.push(
                            ctx.granted(security_id, quantity).position,
                        ),
                        ..self
                    }.logged(
                        issuer_id,
                        Event::EquityCompensationIssued(ctx.event(security_id, quantity)),
                    ),
                ),
            }
        }
    }

    /// Exercises part or all of a grant into a stock position that is
    /// already stored.
    pub open spec fn exercise_equity_compensation(
        self,
        issuer_id: [u8; 16],
        equity_position: EquityCompensationKey,
        stock_position: PositionKey,
        quantity: u64,
    ) -> Result<LedgerState, LedgerError> {
        if !contains_key(self.issuers, issuer_id) {
            Err(LedgerError::NotFound(RecordKind::Issuer))
        } else if !contains_key(self.equity_compensation_positions, equity_position) {
            Err(LedgerError::NotFound(RecordKind::EquityCompensationPosition))
        } else if !contains_key(self.stock_positions, stock_position) {
            Err(LedgerError::NotFound(RecordKind::StockPosition))
        } else {
            let at = index_of(self.equity_compensation_positions, equity_position);
            let ctx = ExerciseEquityCompensation {
                issuer: self.issuer(issuer_id),
                equity_position: self.equity_compensation_positions[at],
                stock_position: self.stock_positions[index_of(self.stock_positions, stock_position)],
            };
            match ctx.rejection(quantity) {
                Some(e) => Err(LedgerError::EquityCompensation(e)),
                None => Ok(
                    LedgerState {
                        equity_compensation_positions: self.equity_compensation_positions.update(
                            at,
                            ctx.exercised(quantity).equity_position,
                        ),
                        ..self
                    }.logged(issuer_id, Event::EquityCompensationExercised(ctx.event(quantity))),
                ),
            }
        }
    }

    /// Issues a warrant to a stakeholder.
    pub open spec fn issue_warrant(
        self,
        issuer_id: [u8; 16],
        security_id: [u8; 16],
        quantity: u64,
        stakeholder_id: [u8; 16],
    ) -> Result<LedgerState, LedgerError> {
        if !contains_key(self.issuers, issuer_id) {
            Err(LedgerError::NotFound(RecordKind::Issuer))
        } else if !contains_key(self.stakeholders, stakeholder_id) {
            Err(LedgerError::NotFound(RecordKind::Stakeholder))
        } else if contains_key(self.warrant_positions, PositionKey { stakeholder_id, security_id }) {
            Err(LedgerError::AlreadyExists(RecordKind::WarrantPosition))
        } else {
            let ctx = IssueWarrant {
                issuer: self.issuer(issuer_id),
                stakeholder: self.stakeholder(stakeholder_id),
                position: WarrantActivePosition::blank(),
            };
            match ctx.rejection(quantity) {
                Some(e) => Err(LedgerError::Warrant(e)),
                None => Ok(
                    LedgerState {
                        warrant_positions: self.warrant_positions.push(
                            ctx.issued(security_id, quantity).position,
                        ),
                        ..self
                    }.logged(issuer_id, Event::WarrantIssued(ctx.event(security_id, quantity))),
                ),
            }
        }
    }

    /// What an operation makes of the state.
    pub open spec fn apply(self, instruction: Instruction) -> Result<LedgerState, LedgerError> {
        match instruction {
            Instruction::InitializeIssuer { id, initial_shares_authorized } => {
                self.initialize_issuer(id, initial_shares_authorized)
            },
            Instruction::AdjustAuthorizedShares { issuer_id, new_shares_authorized } => {
                self.adjust_authorized_shares(issuer_id, new_shares_authorized)
            },
            Instruction::CreateStockClass {
                issuer_id,
                id,
                class_type,
                price_per_share,
                initial_shares_authorized,
            } => self.create_stock_class(
                issuer_id,
                id,
                class_type,
                price_per_share,
                initial_shares_authorized,
            ),
            Instruction::AdjustStockClassShares {
                issuer_id,
                stock_class_id,
                new_shares_authorized,
            } => self.adjust_stock_class_shares(issuer_id, stock_class_id, new_shares_authorized),
            Instruction::CreateStakeholder { issuer_id, id } => {
                self.create_stakeholder(issuer_id, id)
            },
            Instruction::CreateStockPlan { issuer_id, id, stock_class_ids, shares_reserved } => {
                self.create_stock_plan(issuer_id, id, stock_class_ids, shares_reserved)
            },
            Instruction::AdjustStockPlanShares { issuer_id, stock_plan_id, new_shares_reserved } => {
                self.adjust_stock_plan_shares(issuer_id, stock_plan_id, new_shares_reserved)
            },
            Instruction::IssueStock {
                issuer_id,
                stock_class_id,
                security_id,
                quantity,
                share_price,
                stakeholder_id,
            } => self.issue_stock(
                issuer_id,
                stock_class_id,
                security_id,
                quantity,
                share_price,
                stakeholder_id,
            ),
            Instruction::IssueConvertible {
                issuer_id,
                security_id,
                investment_amount,
                stakeholder_id,
            } => self.issue_convertible(issuer_id, security_id, investment_amount, stakeholder_id),
            Instruction::IssueEquityCompensation {
                issuer_id,
                security_id,
                quantity,
                stakeholder_id,
                stock_class_id,
                stock_plan_id,
            } => self.issue_equity_compensation(
                issuer_id,
                security_id,
                quantity,
                stakeholder_id,
                stock_class_id,
                stock_plan_id,
            ),
            Instruction::ExerciseEquityCompensation {
                issuer_id,
                equity_position,
                stock_position,
                quantity,
            } => self.exercise_equity_compensation(
                issuer_id,
                equity_position,
                stock_position,
                quantity,
            ),
            Instruction::IssueWarrant { issuer_id, security_id, quantity, stakeholder_id } => {
                self.issue_warrant(issuer_id, security_id, quantity, stakeholder_id)
            },
        }
    }

    /// The state after one operation: what the operation makes of it, or the
    /// state as it was when the operation is refused.
    pub open spec fn step(self, instruction: Instruction) -> LedgerState {
        match self.apply(instruction) {
            Ok(next) => next,
            Err(_) => self,
        }
    }

    /// The state after a run of operations, carried out in order.
    pub open spec fn run(self, instructions: Seq<Instruction>) -> LedgerState
        decreases instructions.len(),
    {
        if instructions.len() == 0 {
            self
        } else {
            self.run(instructions.drop_last()).step(instructions.last())
        }
    }
}

/// An operation that is refused leaves the state as it was.
pub proof fn refused_operation_changes_nothing(s: LedgerState, instruction: Instruction)
    requires
        s.apply(instruction) is Err,
    ensures
        s.step(instruction) == s,
{
}

/// An issuance of no stock is refused whatever the ledger holds, and as an
/// invalid quantity when the records it names are stored and the position
/// is new.
pub proof fn issuing_no_stock_is_refused(
    s: LedgerState,
    issuer_id: [u8; 16],
    stock_class_id: [u8; 16],
    security_id: [u8; 16],
    share_price: u64,
    stakeholder_id: [u8; 16],
)
    ensures
        s.issue_stock(issuer_id, stock_class_id, security_id, 0, share_price, stakeholder_id) is Err,
        contains_key(s.stock_classes, stock_class_id) && contains_key(s.issuers, issuer_id)
            && contains_key(s.stakeholders, stakeholder_id) && !contains_key(
            s.stock_positions,
            PositionKey { stakeholder_id, security_id },
        ) ==> s.issue_stock(
            issuer_id,
            stock_class_id,
            security_id,
            0,
            share_price,
            stakeholder_id,
        ) == Err::<LedgerState, LedgerError>(LedgerError::Stock(StockError::InvalidQuantity)),
{
}

} // verus!
