//! The ledger as keyed storage: what is stored under each key, without the
//! order in which records were created.
//!
//! Each operation is described once more on this view: which keys it looks
//! up, and what it stores under which key. The two descriptions agree, and
//! the ledger meets both.

use vstd::prelude::*;
use crate::errors::{IssuerError, StockClassError, StockPlanError};
use crate::events::{
    Event, IssuerInitialized, StakeholderCreated, StockClassCreated, StockPlanCreated,
};
use crate::instructions::{
    AdjustAuthorizedShares, AdjustStockClassShares, AdjustStockPlanShares,
    ExerciseEquityCompensation, IssueConvertible, IssueEquityCompensation, IssueStock,
    IssueWarrant,
};
use crate::model::{
    all_stock_classes_stored, Instruction, LedgerError, LedgerState, LogEntry, RecordKind,
};
use crate::state::{
    ConvertibleActivePosition, EquityCompensationActivePosition, EquityCompensationKey, Issuer,
    PositionKey, Stakeholder, StockActivePosition, StockClass, StockPlan, WarrantActivePosition,
};
use crate::store::{
    by_key, index_of, lemma_by_key_push, lemma_by_key_replace, lemma_index_of_key,
};

verus! {

/// What the ledger stores under each key, and the event log.
pub struct KeyedState {
    pub issuers: Map<[u8; 16], Issuer>,
    pub stock_classes: Map<[u8; 16], StockClass>,
    pub stakeholders: Map<[u8; 16], Stakeholder>,
    pub stock_plans: Map<[u8; 16], StockPlan>,
    pub stock_positions: Map<PositionKey, StockActivePosition>,
    pub convertible_positions: Map<PositionKey, ConvertibleActivePosition>,
    pub equity_compensation_positions: Map<
        EquityCompensationKey,
        EquityCompensationActivePosition,
    >,
    pub warrant_positions: Map<PositionKey, WarrantActivePosition>,
    pub events: Seq<LogEntry>,
}

impl LedgerState {
    /// The records by their keys.
    pub open spec fn keyed(self) -> KeyedState {
        KeyedState {
            issuers: by_key(self.issuers),
            stock_classes: by_key(self.stock_classes),
            stakeholders: by_key(self.stakeholders),
            stock_plans: by_key(self.stock_plans),
            stock_positions: by_key(self.stock_positions),
            convertible_positions: by_key(self.convertible_positions),
            equity_compensation_positions: by_key(self.equity_compensation_positions),
            warrant_positions: by_key(self.warrant_positions),
            events: self.events,
        }
    }
}

/// Whether `after` and `r` are what carrying out an operation on `before`
/// leaves: the next state and success when the operation is accepted, the
/// state as it was and the error when it is refused.
pub open spec fn carried_out_keyed(
    before: KeyedState,
    attempt: Result<KeyedState, LedgerError>,
    r: Result<(), LedgerError>,
    after: KeyedState,
) -> bool {
    match attempt {
        Ok(next) => r is Ok && after == next,
        Err(e) => r == Err::<(), LedgerError>(e) && after == before,
    }
}

/// Whether what an operation makes of the records in order is, by their
/// keys, what it makes of the records by their keys.
pub open spec fn agree(
    ordered: Result<LedgerState, LedgerError>,
    keyed: Result<KeyedState, LedgerError>,
) -> bool {
    match ordered {
        Ok(next) => keyed == Ok::<KeyedState, LedgerError>(next.keyed()),
        Err(e) => keyed == Err::<KeyedState, LedgerError>(e),
    }
}

/// Whether every stock class that `stock_class_ids` lists is stored.
pub open spec fn all_stock_classes_keyed(
    stock_classes: Map<[u8; 16], StockClass>,
    stock_class_ids: Seq<[u8; 16]>,
) -> bool {
    forall|k: int|
        0 <= k < stock_class_ids.len() ==> stock_classes.contains_key(#[trigger] stock_class_ids[k])
}

impl KeyedState {
    /// The ledger before anything was recorded.
    pub open spec fn empty() -> KeyedState {
        KeyedState {
            issuers: Map::empty(),
            stock_classes: Map::empty(),
            stakeholders: Map::empty(),
            stock_plans: Map::empty(),
            stock_positions: Map::empty(),
            convertible_positions: Map::empty(),
            equity_compensation_positions: Map::empty(),
            warrant_positions: Map::empty(),
            events: Seq::empty(),
        }
    }

    /// The state with one more entry in the event log.
    pub open spec fn logged(self, issuer_id: [u8; 16], event: Event) -> KeyedState {
        KeyedState { events: self.events.push(LogEntry { issuer_id, event }), ..self }
    }

    /// Creates an issuer that has issued nothing. Refused as already
    /// initialized when an issuer is stored under `id`.
    pub open spec fn initialize_issuer(
        self,
        id: [u8; 16],
        initial_shares_authorized: u64,
    ) -> Result<KeyedState, LedgerError> {
        if self.issuers.contains_key(id) {
            Err(LedgerError::Issuer(IssuerError::AlreadyInitialized))
        } else {
            Ok(
                KeyedState {
                    issuers: self.issuers.insert(
                        id,
                        Issuer { id, shares_issued: 0, shares_authorized: initial_shares_authorized },
                    ),
                    ..self
                }.logged(
                    id,
                    Event::IssuerInitialized(IssuerInitialized { id, initial_shares_authorized }),
                ),
            )
        }
    }

    /// Resizes the authorized pool of an issuer.
    pub open spec fn adjust_authorized_shares(
        self,
        issuer_id: [u8; 16],
        new_shares_authorized: u64,
    ) -> Result<KeyedState, LedgerError> {
        if !self.issuers.contains_key(issuer_id) {
            Err(LedgerError::NotFound(RecordKind::Issuer))
        } else {
            let ctx = AdjustAuthorizedShares { issuer: self.issuers[issuer_id] };
            Ok(
                KeyedState {
                    issuers: self.issuers.insert(
                        issuer_id,
                        ctx.adjusted(new_shares_authorized).issuer,
                    ),
                    ..self
                }.logged(
                    issuer_id,
                    Event::IssuerAuthorizedSharesAdjusted(ctx.event(new_shares_authorized)),
                ),
            )
        }
    }

    /// Creates a stock class of an issuer. The stock class has issued nothing.
    pub open spec fn create_stock_class(
        self,
        issuer_id: [u8; 16],
        id: [u8; 16],
        class_type: String,
        price_per_share: u64,
        initial_shares_authorized: u64,
    ) -> Result<KeyedState, LedgerError> {
        if !self.issuers.contains_key(issuer_id) {
            Err(LedgerError::NotFound(RecordKind::Issuer))
        } else if self.stock_classes.contains_key(id) {
            Err(LedgerError::AlreadyExists(RecordKind::StockClass))
        } else if initial_shares_authorized == 0 {
            Err(LedgerError::StockClass(StockClassError::SharesAuthorizedCannotBeZero))
        } else {
            Ok(
                KeyedState {
                    stock_classes: self.stock_classes.insert(
                        id,
                        StockClass {
                            id,
                            class_type,
                            price_per_share,
                            shares_issued: 0,
                            shares_authorized: initial_shares_authorized,
                        },
                    ),
                    ..self
                }.logged(
                    issuer_id,
                    Event::StockClassCreated(
                        StockClassCreated {
                            id,
                            class_type,
                            price_per_share,
                            initial_shares_authorized,
                            issuer_id,
                        },
                    ),
                ),
            )
        }
    }

    /// Resizes the authorized pool of a stock class.
    pub open spec fn adjust_stock_class_shares(
        self,
        issuer_id: [u8; 16],
        stock_class_id: [u8; 16],
        new_shares_authorized: u64,
    ) -> Result<KeyedState, LedgerError> {
        if !self.issuers.contains_key(issuer_id) {
            Err(LedgerError::NotFound(RecordKind::Issuer))
        } else if !self.stock_classes.contains_key(stock_class_id) {
            Err(LedgerError::NotFound(RecordKind::StockClass))
        } else {
            let ctx = AdjustStockClassShares {
                issuer: self.issuers[issuer_id],
                stock_class: self.stock_classes[stock_class_id],
            };
            Ok(
                KeyedState {
                    stock_classes: self.stock_classes.insert(
                        stock_class_id,
                        ctx.adjusted(new_shares_authorized).stock_class,
                    ),
                    ..self
                }.logged(issuer_id, Event::StockClassSharesAdjusted(ctx.event(new_shares_authorized))),
            )
        }
    }

    /// Creates a stakeholder of an issuer.
    pub open spec fn create_stakeholder(self, issuer_id: [u8; 16], id: [u8; 16]) -> Result<
        KeyedState,
        LedgerError,
    > {
        if !self.issuers.contains_key(issuer_id) {
            Err(LedgerError::NotFound(RecordKind::Issuer))
        } else if self.stakeholders.contains_key(id) {
            Err(LedgerError::AlreadyExists(RecordKind::Stakeholder))
        } else {
            Ok(
                KeyedState {
                    stakeholders: self.stakeholders.insert(id, Stakeholder { id }),
                    ..self
                }.logged(issuer_id, Event::StakeholderCreated(StakeholderCreated { id, issuer_id })),
            )
        }
    }

    /// Creates a stock plan of an issuer. Every stock class that the plan
    /// lists must be stored.
    pub open spec fn create_stock_plan(
        self,
        issuer_id: [u8; 16],
        id: [u8; 16],
        stock_class_ids: Vec<[u8; 16]>,
        shares_reserved: u64,
    ) -> Result<KeyedState, LedgerError> {
        if !self.issuers.contains_key(issuer_id) {
            Err(LedgerError::NotFound(RecordKind::Issuer))
        } else if self.stock_plans.contains_key(id) {
            Err(LedgerError::AlreadyExists(RecordKind::StockPlan))
        } else if stock_class_ids@.len() == 0 {
            Err(LedgerError::StockPlan(StockPlanError::InvalidStockClassCount))
        } else if !all_stock_classes_keyed(self.stock_classes, stock_class_ids@) {
            Err(LedgerError::NotFound(RecordKind::StockClass))
        } else {
            Ok(
                KeyedState {
                    stock_plans: self.stock_plans.insert(
                        id,
                        StockPlan { id, stock_class_ids, shares_reserved },
                    ),
                    ..self
                }.logged(
                    issuer_id,
                    Event::StockPlanCreated(StockPlanCreated { id, shares_reserved, issuer_id }),
                ),
            )
        }
    }

    /// Resizes the reserved pool of a stock plan.
    pub open spec fn adjust_stock_plan_shares(
        self,
        issuer_id: [u8; 16],
        stock_plan_id: [u8; 16],
        new_shares_reserved: u64,
    ) -> Result<KeyedState, LedgerError> {
        if !self.issuers.contains_key(issuer_id) {
            Err(LedgerError::NotFound(RecordKind::Issuer))
        } else if !self.stock_plans.contains_key(stock_plan_id) {
            Err(LedgerError::NotFound(RecordKind::StockPlan))
        } else {
            let ctx = AdjustStockPlanShares {
                issuer: self.issuers[issuer_id],
                stock_plan: self.stock_plans[stock_plan_id],
            };
            Ok(
                KeyedState {
                    stock_plans: self.stock_plans.insert(
                        stock_plan_id,
                        ctx.adjusted(new_shares_reserved).stock_plan,
                    ),
                    ..self
                }.logged(issuer_id, Event::StockPlanSharesAdjusted(ctx.event(new_shares_reserved))),
            )
        }
    }

    /// Issues stock of a stock class to a stakeholder, and counts it for the
    /// stock class and for the issuer.
    pub open spec fn issue_stock(
        self,
        issuer_id: [u8; 16],
        stock_class_id: [u8; 16],
        security_id: [u8; 16],
        quantity: u64,
        share_price: u64,
        stakeholder_id: [u8; 16],
    ) -> Result<KeyedState, LedgerError> {
        if !self.stock_classes.contains_key(stock_class_id) {
            Err(LedgerError::NotFound(RecordKind::StockClass))
        } else if !self.issuers.contains_key(issuer_id) {
            Err(LedgerError::NotFound(RecordKind::Issuer))
        } else if !self.stakeholders.contains_key(stakeholder_id) {
            Err(LedgerError::NotFound(RecordKind::Stakeholder))
        } else if self.stock_positions.contains_key(PositionKey { stakeholder_id, security_id }) {
            Err(LedgerError::AlreadyExists(RecordKind::StockPosition))
        } else {
            let ctx = IssueStock {
                stock_class: self.stock_classes[stock_class_id],
                issuer: self.issuers[issuer_id],
                stakeholder: self.stakeholders[stakeholder_id],
                position: StockActivePosition::blank(),
            };
            match ctx.rejection(quantity, share_price) {
                Some(e) => Err(LedgerError::Stock(e)),
                None => {
                    let after = ctx.issued(security_id, quantity, share_price);
                    Ok(
                        KeyedState {
                            stock_classes: self.stock_classes.insert(
                                stock_class_id,
                                after.stock_class,
                            ),
                            issuers: self.issuers.insert(issuer_id, after.issuer),
                            stock_positions: self.stock_positions.insert(
                                PositionKey { stakeholder_id, security_id },
                                after.position,
                            ),
                            ..self
                        }.logged(
                            issuer_id,
                            Event::StockIssued(ctx.event(security_id, quantity, share_price)),
                        ),
                    )
                },
            }
        }
    }

    /// Issues a convertible to a stakeholder.
    pub open spec fn issue_convertible(
        self,
        issuer_id: [u8; 16],
        security_id: [u8; 16],
        investment_amount: u64,
        stakeholder_id: [u8; 16],
    ) -> Result<KeyedState, LedgerError> {
        if !self.issuers.contains_key(issuer_id) {
            Err(LedgerError::NotFound(RecordKind::Issuer))
        } else if !self.stakeholders.contains_key(stakeholder_id) {
            Err(LedgerError::NotFound(RecordKind::Stakeholder))
        } else if self.convertible_positions.contains_key(
            PositionKey { stakeholder_id, security_id },
        ) {
            Err(LedgerError::AlreadyExists(RecordKind::ConvertiblePosition))
        } else {
            let ctx = IssueConvertible {
                issuer: self.issuers[issuer_id],
                stakeholder: self.stakeholders[stakeholder_id],
                position: ConvertibleActivePosition::blank(),
            };
            match ctx.rejection(investment_amount) {
                Some(e) => Err(LedgerError::Convertible(e)),
                None => Ok(
                    KeyedState {
                        convertible_positions: self.convertible_positions.insert(
                            PositionKey { stakeholder_id, security_id },
                            ctx.issued(security_id, investment_amount).position,
                        ),
                        ..self
                    }.logged(
                        issuer_id,
                        Event::ConvertibleIssued(ctx.event(security_id, investment_amount)),
                    ),
                ),
            }
        }
    }

    /// Grants equity compensation to a stakeholder, drawing on a stock class
    /// and, if one is named, a stock plan.
    pub open spec fn issue_equity_compensation(
        self,
        issuer_id: [u8; 16],
        security_id: [u8; 16],
        quantity: u64,
        stakeholder_id: [u8; 16],
        stock_class_id: [u8; 16],
        stock_plan_id: Option<[u8; 16]>,
    ) -> Result<KeyedState, LedgerError> {
        if !self.issuers.contains_key(issuer_id) {
            Err(LedgerError::NotFound(RecordKind::Issuer))
        } else if !self.stakeholders.contains_key(stakeholder_id) {
            Err(LedgerError::NotFound(RecordKind::Stakeholder))
        } else if !self.stock_classes.contains_key(stock_class_id) {
            Err(LedgerError::NotFound(RecordKind::StockClass))
        } else if stock_plan_id is Some && !self.stock_plans.contains_key(stock_plan_id->Some_0) {
            Err(LedgerError::NotFound(RecordKind::StockPlan))
        } else if self.equity_compensation_positions.contains_key(
            EquityCompensationKey { security_id, stock_class_id, stakeholder_id },
        ) {
            Err(LedgerError::AlreadyExists(RecordKind::EquityCompensationPosition))
        } else {
            let ctx = IssueEquityCompensation {
                issuer: self.issuers[issuer_id],
                stakeholder: self.stakeholders[stakeholder_id],
                stock_class: self.stock_classes[stock_class_id],
                stock_plan: match stock_plan_id {
                    Some(id) => Some(self.stock_plans[id]),
                    None => None,
                },
                position: EquityCompensationActivePosition::blank(),
            };
            match ctx.rejection(quantity) {
                Some(e) => Err(LedgerError::EquityCompensation(e)),
                None => Ok(
                    KeyedState {
                        equity_compensation_positions: self.equity_compensation_positions.insert(
                            EquityCompensationKey { security_id, stock_class_id, stakeholder_id },
                            ctx.granted(security_id, quantity).position,
                        ),
                        ..self
                    }.logged(
                        issuer_id,
                        Event::EquityCompensationIssued(ctx.event(security_id, quantity)),
                    ),
                ),
            }
        }
    }

    /// Exercises part or all of a grant into a stock position that is
    /// already stored.
    pub open spec fn exercise_equity_compensation(
        self,
        issuer_id: [u8; 16],
        equity_position: EquityCompensationKey,
        stock_position: PositionKey,
        quantity: u64,
    ) -> Result<KeyedState, LedgerError> {
        if !self.issuers.contains_key(issuer_id) {
            Err(LedgerError::NotFound(RecordKind::Issuer))
        } else if !self.equity_compensation_positions.contains_key(equity_position) {
            Err(LedgerError::NotFound(RecordKind::EquityCompensationPosition))
        } else if !self.stock_positions.contains_key(stock_position) {
            Err(LedgerError::NotFound(RecordKind::StockPosition))
        } else {
            let ctx = ExerciseEquityCompensation {
                issuer: self.issuers[issuer_id],
                equity_position: self.equity_compensation_positions[equity_position],
                stock_position: self.stock_positions[stock_position],
            };
            match ctx.rejection(quantity) {
                Some(e) => Err(LedgerError::EquityCompensation(e)),
                None => Ok(
                    KeyedState {
                        equity_compensation_positions: self.equity_compensation_positions.insert(
                            equity_position,
                            ctx.exercised(quantity).equity_position,
                        ),
                        ..self
                    }.logged(issuer_id, Event::EquityCompensationExercised(ctx.event(quantity))),
                ),
            }
        }
    }

    /// Issues a warrant to a stakeholder.
    pub open spec fn issue_warrant(
        self,
        issuer_id: [u8; 16],
        security_id: [u8; 16],
        quantity: u64,
        stakeholder_id: [u8; 16],
    ) -> Result<KeyedState, LedgerError> {
        if !self.issuers.contains_key(issuer_id) {
            Err(LedgerError::NotFound(RecordKind::Issuer))
        } else if !self.stakeholders.contains_key(stakeholder_id) {
            Err(LedgerError::NotFound(RecordKind::Stakeholder))
        } else if self.warrant_positions.contains_key(PositionKey { stakeholder_id, security_id }) {
            Err(LedgerError::AlreadyExists(RecordKind::WarrantPosition))
        } else {
            let ctx = IssueWarrant {
                issuer: self.issuers[issuer_id],
                stakeholder: self.stakeholders[stakeholder_id],
                position: WarrantActivePosition::blank(),
            };
            match ctx.rejection(quantity) {
                Some(e) => Err(LedgerError::Warrant(e)),
                None => Ok(
                    KeyedState {
                        warrant_positions: self.warrant_positions.insert(
                            PositionKey { stakeholder_id, security_id },
                            ctx.issued(security_id, quantity).position,
                        ),
                        ..self
                    }.logged(issuer_id, Event::WarrantIssued(ctx.event(security_id, quantity))),
                ),
            }
        }
    }

    /// What an operation makes of the state.
    pub open spec fn apply(self, instruction: Instruction) -> Result<KeyedState, LedgerError> {
        match instruction {
            Instruction::InitializeIssuer { id, initial_shares_authorized } => {
                self.initialize_issuer(id, initial_shares_authorized)
            },
            Instruction::AdjustAuthorizedShares { issuer_id, new_shares_authorized } => {
                self.adjust_authorized_shares(issuer_id, new_shares_authorized)
            },
            Instruction::CreateStockClass {
                issuer_id,
                id,
                class_type,
                price_per_share,
                initial_shares_authorized,
            } => self.create_stock_class(
                issuer_id,
                id,
                class_type,
                price_per_share,
                initial_shares_authorized,
            ),
            Instruction::AdjustStockClassShares {
                issuer_id,
                stock_class_id,
                new_shares_authorized,
            } => self.adjust_stock_class_shares(issuer_id, stock_class_id, new_shares_authorized),
            Instruction::CreateStakeholder { issuer_id, id } => {
                self.create_stakeholder(issuer_id, id)
            },
            Instruction::CreateStockPlan { issuer_id, id, stock_class_ids, shares_reserved } => {
                self.create_stock_plan(issuer_id, id, stock_class_ids, shares_reserved)
            },
            Instruction::AdjustStockPlanShares { issuer_id, stock_plan_id, new_shares_reserved } => {
                self.adjust_stock_plan_shares(issuer_id, stock_plan_id, new_shares_reserved)
            },
            Instruction::IssueStock {
                issuer_id,
                stock_class_id,
                security_id,
                quantity,
                share_price,
                stakeholder_id,
            } => self.issue_stock(
                issuer_id,
                stock_class_id,
                security_id,
                quantity,
                share_price,
                stakeholder_id,
            ),
            Instruction::IssueConvertible {
                issuer_id,
                security_id,
                investment_amount,
                stakeholder_id,
            } => self.issue_convertible(issuer_id, security_id, investment_amount, stakeholder_id),
            Instruction::IssueEquityCompensation {
                issuer_id,
                security_id,
                quantity,
                stakeholder_id,
                stock_class_id,
                stock_plan_id,
            } => self.issue_equity_compensation(
                issuer_id,
                security_id,
                quantity,
                stakeholder_id,
                stock_class_id,
                stock_plan_id,
            ),
            Instruction::ExerciseEquityCompensation {
                issuer_id,
                equity_position,
                stock_position,
                quantity,
            } => self.exercise_equity_compensation(
                issuer_id,
                equity_position,
                stock_position,
                quantity,
            ),
            Instruction::IssueWarrant { issuer_id, security_id, quantity, stakeholder_id } => {
                self.issue_warrant(issuer_id, security_id, quantity, stakeholder_id)
            },
        }
    }
}

/// The empty ledger stores nothing under any key.
pub proof fn lemma_empty_keyed()
    ensures
        LedgerState::empty().keyed() == KeyedState::empty(),
{
    let s = LedgerState::empty().keyed();
    assert(s.issuers =~= Map::empty());
    assert(s.stock_classes =~= Map::empty());
    assert(s.stakeholders =~= Map::empty());
    assert(s.stock_plans =~= Map::empty());
    assert(s.stock_positions =~= Map::empty());
    assert(s.convertible_positions =~= Map::empty());
    assert(s.equity_compensation_positions =~= Map::empty());
    assert(s.warrant_positions =~= Map::empty());
}

/// Creating an issuer does the same to the records in order and to the records
/// by their keys.
pub proof fn lemma_initialize_issuer_keyed(
    s: LedgerState,
    id: [u8; 16],
    initial_shares_authorized: u64,
)
    requires
        s.wf(),
    ensures
        agree(s.initialize_issuer(id, initial_shares_authorized), s.keyed().initialize_issuer(id, initial_shares_authorized)),
{
    if let Ok(next) = s.initialize_issuer(id, initial_shares_authorized) {
        lemma_by_key_push(s.issuers, next.issuers.last());
    }
}

/// Resizing an issuer does the same to the records in order and to the records
/// by their keys.
pub proof fn lemma_adjust_authorized_shares_keyed(
    s: LedgerState,
    issuer_id: [u8; 16],
    new_shares_authorized: u64,
)
    requires
        s.wf(),
    ensures
        agree(s.adjust_authorized_shares(issuer_id, new_shares_authorized), s.keyed().adjust_authorized_shares(issuer_id, new_shares_authorized)),
{
    if let Ok(next) = s.adjust_authorized_shares(issuer_id, new_shares_authorized) {
        let i = index_of(s.issuers, issuer_id);
        lemma_index_of_key(s.issuers, issuer_id);
        lemma_by_key_replace(s.issuers, i, next.issuers[i]);
    }
}

/// Creating a stock class does the same to the records in order and to the records
/// by their keys.
pub proof fn lemma_create_stock_class_keyed(
    s: LedgerState,
    issuer_id: [u8; 16],
    id: [u8; 16],
    class_type: String,
    price_per_share: u64,
    initial_shares_authorized: u64,
)
    requires
        s.wf(),
    ensures
        agree(s.create_stock_class(issuer_id, id, class_type, price_per_share, initial_shares_authorized), s.keyed().create_stock_class(issuer_id, id, class_type, price_per_share, initial_shares_authorized)),
{
    if let Ok(next) = s.create_stock_class(issuer_id, id, class_type, price_per_share, initial_shares_authorized) {
        lemma_by_key_push(s.stock_classes, next.stock_classes.last());
    }
}

/// Resizing a stock class does the same to the records in order and to the records
/// by their keys.
pub proof fn lemma_adjust_stock_class_shares_keyed(
    s: LedgerState,
    issuer_id: [u8; 16],
    stock_class_id: [u8; 16],
    new_shares_authorized: u64,
)
    requires
        s.wf(),
    ensures
        agree(s.adjust_stock_class_shares(issuer_id, stock_class_id, new_shares_authorized), s.keyed().adjust_stock_class_shares(issuer_id, stock_class_id, new_shares_authorized)),
{
    if let Ok(next) = s.adjust_stock_class_shares(issuer_id, stock_class_id, new_shares_authorized) {
        let c = index_of(s.stock_classes, stock_class_id);
        lemma_index_of_key(s.stock_classes, stock_class_id);
        lemma_by_key_replace(s.stock_classes, c, next.stock_classes[c]);
    }
}

/// Creating a stakeholder does the same to the records in order and to the records
/// by their keys.
pub proof fn lemma_create_stakeholder_keyed(
    s: LedgerState,
    issuer_id: [u8; 16],
    id: [u8; 16],
)
    requires
        s.wf(),
    ensures
        agree(s.create_stakeholder(issuer_id, id), s.keyed().create_stakeholder(issuer_id, id)),
{
    if let Ok(next) = s.create_stakeholder(issuer_id, id) {
        lemma_by_key_push(s.stakeholders, next.stakeholders.last());
    }
}

/// Creating a stock plan does the same to the records in order and to the records
/// by their keys.
pub proof fn lemma_create_stock_plan_keyed(
    s: LedgerState,
    issuer_id: [u8; 16],
    id: [u8; 16],
    stock_class_ids: Vec<[u8; 16]>,
    shares_reserved: u64,
)
    requires
        s.wf(),
    ensures
        agree(s.create_stock_plan(issuer_id, id, stock_class_ids, shares_reserved), s.keyed().create_stock_plan(issuer_id, id, stock_class_ids, shares_reserved)),
{
    assert(all_stock_classes_stored(s.stock_classes, stock_class_ids@) == all_stock_classes_keyed(
        s.keyed().stock_classes,
        stock_class_ids@,
    ));
    if let Ok(next) = s.create_stock_plan(issuer_id, id, stock_class_ids, shares_reserved) {
        lemma_by_key_push(s.stock_plans, next.stock_plans.last());
    }
}

/// Resizing a stock plan does the same to the records in order and to the records
/// by their keys.
pub proof fn lemma_adjust_stock_plan_shares_keyed(
    s: LedgerState,
    issuer_id: [u8; 16],
    stock_plan_id: [u8; 16],
    new_shares_reserved: u64,
)
    requires
        s.wf(),
    ensures
        agree(s.adjust_stock_plan_shares(issuer_id, stock_plan_id, new_shares_reserved), s.keyed().adjust_stock_plan_shares(issuer_id, stock_plan_id, new_shares_reserved)),
{
    if let Ok(next) = s.adjust_stock_plan_shares(issuer_id, stock_plan_id, new_shares_reserved) {
        let p = index_of(s.stock_plans, stock_plan_id);
        lemma_index_of_key(s.stock_plans, stock_plan_id);
        lemma_by_key_replace(s.stock_plans, p, next.stock_plans[p]);
    }
}

/// Issuing stock does the same to the records in order and to the records
/// by their keys.
pub proof fn lemma_issue_stock_keyed(
    s: LedgerState,
    issuer_id: [u8; 16],
    stock_class_id: [u8; 16],
    security_id: [u8; 16],
    quantity: u64,
    share_price: u64,
    stakeholder_id: [u8; 16],
)
    requires
        s.wf(),
    ensures
        agree(s.issue_stock(issuer_id, stock_class_id, security_id, quantity, share_price, stakeholder_id), s.keyed().issue_stock(issuer_id, stock_class_id, security_id, quantity, share_price, stakeholder_id)),
{
    if let Ok(next) = s.issue_stock(issuer_id, stock_class_id, security_id, quantity, share_price, stakeholder_id) {
        let c = index_of(s.stock_classes, stock_class_id);
        let i = index_of(s.issuers, issuer_id);
        lemma_index_of_key(s.stock_classes, stock_class_id);
        lemma_index_of_key(s.issuers, issuer_id);
        lemma_index_of_key(s.stakeholders, stakeholder_id);
        lemma_by_key_replace(s.stock_classes, c, next.stock_classes[c]);
        lemma_by_key_replace(s.issuers, i, next.issuers[i]);
        lemma_by_key_push(s.stock_positions, next.stock_positions.last());
    }
}

/// Issuing a convertible does the same to the records in order and to the records
/// by their keys.
pub proof fn lemma_issue_convertible_keyed(
    s: LedgerState,
    issuer_id: [u8; 16],
    security_id: [u8; 16],
    investment_amount: u64,
    stakeholder_id: [u8; 16],
)
    requires
        s.wf(),
    ensures
        agree(s.issue_convertible(issuer_id, security_id, investment_amount, stakeholder_id), s.keyed().issue_convertible(issuer_id, security_id, investment_amount, stakeholder_id)),
{
    if let Ok(next) = s.issue_convertible(issuer_id, security_id, investment_amount, stakeholder_id) {
        lemma_index_of_key(s.stakeholders, stakeholder_id);
        lemma_by_key_push(s.convertible_positions, next.convertible_positions.last());
    }
}

/// Granting equity compensation does the same to the records in order and to the records
/// by their keys.
pub proof fn lemma_issue_equity_compensation_keyed(
    s: LedgerState,
    issuer_id: [u8; 16],
    security_id: [u8; 16],
    quantity: u64,
    stakeholder_id: [u8; 16],
    stock_class_id: [u8; 16],
    stock_plan_id: Option<[u8; 16]>,
)
    requires
        s.wf(),
    ensures
        agree(s.issue_equity_compensation(issuer_id, security_id, quantity, stakeholder_id, stock_class_id, stock_plan_id), s.keyed().issue_equity_compensation(issuer_id, security_id, quantity, stakeholder_id, stock_class_id, stock_plan_id)),
{
    if let Ok(next) = s.issue_equity_compensation(issuer_id, security_id, quantity, stakeholder_id, stock_class_id, stock_plan_id) {
        lemma_index_of_key(s.stakeholders, stakeholder_id);
        lemma_index_of_key(s.stock_classes, stock_class_id);
        if let Some(plan) = stock_plan_id {
            lemma_index_of_key(s.stock_plans, plan);
        }
        lemma_by_key_push(
            s.equity_compensation_positions,
            next.equity_compensation_positions.last(),
        );
    }
}

/// Exercising a grant does the same to the records in order and to the records
/// by their keys.
pub proof fn lemma_exercise_equity_compensation_keyed(
    s: LedgerState,
    issuer_id: [u8; 16],
    equity_position: EquityCompensationKey,
    stock_position: PositionKey,
    quantity: u64,
)
    requires
        s.wf(),
    ensures
        agree(s.exercise_equity_compensation(issuer_id, equity_position, stock_position, quantity), s.keyed().exercise_equity_compensation(issuer_id, equity_position, stock_position, quantity)),
{
    if let Ok(next) = s.exercise_equity_compensation(issuer_id, equity_position, stock_position, quantity) {
        let at = index_of(s.equity_compensation_positions, equity_position);
        lemma_index_of_key(s.equity_compensation_positions, equity_position);
        lemma_by_key_replace(
            s.equity_compensation_positions,
            at,
            next.equity_compensation_positions[at],
        );
    }
}

/// Issuing a warrant does the same to the records in order and to the records
/// by their keys.
pub proof fn lemma_issue_warrant_keyed(
    s: LedgerState,
    issuer_id: [u8; 16],
    security_id: [u8; 16],
    quantity: u64,
    stakeholder_id: [u8; 16],
)
    requires
        s.wf(),
    ensures
        agree(s.issue_warrant(issuer_id, security_id, quantity, stakeholder_id), s.keyed().issue_warrant(issuer_id, security_id, quantity, stakeholder_id)),
{
    if let Ok(next) = s.issue_warrant(issuer_id, security_id, quantity, stakeholder_id) {
        lemma_index_of_key(s.stakeholders, stakeholder_id);
        lemma_by_key_push(s.warrant_positions, next.warrant_positions.last());
    }
}

/// Every operation does the same to the records in order and to the
/// records by their keys.
pub proof fn lemma_apply_keyed(s: LedgerState, instruction: Instruction)
    requires
        s.wf(),
    ensures
        agree(s.apply(instruction), s.keyed().apply(instruction)),
{
    match instruction {
        Instruction::InitializeIssuer { id, initial_shares_authorized } => {
            lemma_initialize_issuer_keyed(s, id, initial_shares_authorized);
        },
        Instruction::AdjustAuthorizedShares { issuer_id, new_shares_authorized } => {
            lemma_adjust_authorized_shares_keyed(s, issuer_id, new_shares_authorized);
        },
        Instruction::CreateStockClass { issuer_id, id, class_type, price_per_share, initial_shares_authorized } => {
            lemma_create_stock_class_keyed(s, issuer_id, id, class_type, price_per_share, initial_shares_authorized);
        },
        Instruction::AdjustStockClassShares { issuer_id, stock_class_id, new_shares_authorized } => {
            lemma_adjust_stock_class_shares_keyed(s, issuer_id, stock_class_id, new_shares_authorized);
        },
        Instruction::CreateStakeholder { issuer_id, id } => {
            lemma_create_stakeholder_keyed(s, issuer_id, id);
        },
        Instruction::CreateStockPlan { issuer_id, id, stock_class_ids, shares_reserved } => {
            lemma_create_stock_plan_keyed(s, issuer_id, id, stock_class_ids, shares_reserved);
        },
        Instruction::AdjustStockPlanShares { issuer_id, stock_plan_id, new_shares_reserved } => {
            lemma_adjust_stock_plan_shares_keyed(s, issuer_id, stock_plan_id, new_shares_reserved);
        },
        Instruction::IssueStock { issuer_id, stock_class_id, security_id, quantity, share_price, stakeholder_id } => {
            lemma_issue_stock_keyed(s, issuer_id, stock_class_id, security_id, quantity, share_price, stakeholder_id);
        },
        Instruction::IssueConvertible { issuer_id, security_id, investment_amount, stakeholder_id } => {
            lemma_issue_convertible_keyed(s, issuer_id, security_id, investment_amount, stakeholder_id);
        },
        Instruction::IssueEquityCompensation { issuer_id, security_id, quantity, stakeholder_id, stock_class_id, stock_plan_id } => {
            lemma_issue_equity_compensation_keyed(s, issuer_id, security_id, quantity, stakeholder_id, stock_class_id, stock_plan_id);
        },
        Instruction::ExerciseEquityCompensation { issuer_id, equity_position, stock_position, quantity } => {
            lemma_exercise_equity_compensation_keyed(s, issuer_id, equity_position, stock_position, quantity);
        },
        Instruction::IssueWarrant { issuer_id, security_id, quantity, stakeholder_id } => {
            lemma_issue_warrant_keyed(s, issuer_id, security_id, quantity, stakeholder_id);
        },
    }
}

} // verus!
