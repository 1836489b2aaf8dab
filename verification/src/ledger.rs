//! The ledger: the record store, the event log and the operations on them.
//!
//! Each operation names the records it works on by their keys. It loads
//! them, runs the transition on them, writes them back and appends the event
//! of the operation to the log. An operation that is refused leaves the
//! ledger exactly as it was. Who may call an operation is for the host to
//! decide: the ledger keeps no registry of authorities.

use vstd::prelude::*;
use crate::conservation::{
    lemma_adjust_authorized_shares_keeps_wf, lemma_adjust_stock_class_shares_keeps_wf,
    lemma_adjust_stock_plan_shares_keeps_wf, lemma_create_stakeholder_keeps_wf,
    lemma_create_stock_class_keeps_wf, lemma_create_stock_plan_keeps_wf,
    lemma_exercise_equity_compensation_keeps_wf, lemma_initialize_issuer_keeps_wf,
    lemma_issue_convertible_keeps_wf, lemma_issue_equity_compensation_keeps_wf,
    lemma_issue_stock_keeps_wf, lemma_issue_warrant_keeps_wf,
};
use crate::errors::{IssuerError, StockPlanError};
use crate::events::Event;
use crate::instructions::{
    adjust_authorized_shares, adjust_stock_class_shares, adjust_stock_plan_shares,
    create_stakeholder, create_stock_class, create_stock_plan, exercise_equity_compensation,
    initialize_issuer, issue_convertible, issue_equity_compensation, issue_stock, issue_warrant,
    AdjustAuthorizedShares, AdjustStockClassShares, AdjustStockPlanShares, CreateStakeholder,
    CreateStockClass, CreateStockPlan, ExerciseEquityCompensation, InitializeIssuer,
    IssueConvertible, IssueEquityCompensation, IssueStock, IssueWarrant,
};
use crate::keyed::{
    carried_out_keyed, lemma_adjust_authorized_shares_keyed, lemma_adjust_stock_class_shares_keyed,
    lemma_adjust_stock_plan_shares_keyed, lemma_apply_keyed, lemma_create_stakeholder_keyed,
    lemma_create_stock_class_keyed, lemma_create_stock_plan_keyed, lemma_empty_keyed,
    lemma_exercise_equity_compensation_keyed, lemma_initialize_issuer_keyed,
    lemma_issue_convertible_keyed, lemma_issue_equity_compensation_keyed,
    lemma_issue_stock_keyed, lemma_issue_warrant_keyed, KeyedState,
};
use crate::model::{
    all_stock_classes_stored, carried_out, Instruction, LedgerError, LedgerState, LogEntry,
    RecordKind,
};
use crate::state::{
    ConvertibleActivePosition, EquityCompensationActivePosition, EquityCompensationKey, Issuer,
    PositionKey, Stakeholder, StockActivePosition, StockClass, StockPlan, WarrantActivePosition,
};
use crate::store::{contains_key, index_of, Table};

verus! {

/// The tables of the record store and the event log.
struct Records {
    issuers: Table<Issuer>,
    stock_classes: Table<StockClass>,
    stakeholders: Table<Stakeholder>,
    stock_plans: Table<StockPlan>,
    stock_positions: Table<StockActivePosition>,
    convertible_positions: Table<ConvertibleActivePosition>,
    equity_compensation_positions: Table<EquityCompensationActivePosition>,
    warrant_positions: Table<WarrantActivePosition>,
    events: Vec<LogEntry>,
}

impl View for Records {
    type V = LedgerState;

    closed spec fn view(&self) -> LedgerState {
        LedgerState {
            issuers: self.issuers@,
            stock_classes: self.stock_classes@,
            stakeholders: self.stakeholders@,
            stock_plans: self.stock_plans@,
            stock_positions: self.stock_positions@,
            convertible_positions: self.convertible_positions@,
            equity_compensation_positions: self.equity_compensation_positions@,
            warrant_positions: self.warrant_positions@,
            events: self.events@,
        }
    }
}

impl Records {
    /// Empty tables and an empty log.
    fn new() -> (ledger: Self)
        ensures
            ledger@ == LedgerState::empty(),
            ledger@.wf(),
    {
        let ledger = Records {
            issuers: Table::new(),
            stock_classes: Table::new(),
            stakeholders: Table::new(),
            stock_plans: Table::new(),
            stock_positions: Table::new(),
            convertible_positions: Table::new(),
            equity_compensation_positions: Table::new(),
            warrant_positions: Table::new(),
            events: Vec::new(),
        };
        assert(LedgerState::empty().wf());
        ledger
    }

    /// Issues stock of a stock class to a stakeholder, and counts it for the
    /// stock class and for the issuer.
    fn issue_stock(
        &mut self,
        issuer_id: [u8; 16],
        stock_class_id: [u8; 16],
        security_id: [u8; 16],
        quantity: u64,
        share_price: u64,
        stakeholder_id: [u8; 16],
    ) -> (r: Result<(), LedgerError>)
        requires
            old(self)@.wf(),
        ensures
            final(self)@.wf(),
            carried_out(
                old(self)@,
                old(self)@.issue_stock(
                    issuer_id,
                    stock_class_id,
                    security_id,
                    quantity,
                    share_price,
                    stakeholder_id,
                ),
                r,
                final(self)@,
            ),
    {
        let c = match self.stock_classes.find(&stock_class_id) {
            Some(c) => c,
            None => {
                return Err(LedgerError::NotFound(RecordKind::StockClass));
            },
        };
        let i = match self.issuers.find(&issuer_id) {
            Some(i) => i,
            None => {
                return Err(LedgerError::NotFound(RecordKind::Issuer));
            },
        };
        let h = match self.stakeholders.find(&stakeholder_id) {
            Some(h) => h,
            None => {
                return Err(LedgerError::NotFound(RecordKind::Stakeholder));
            },
        };
        let key = PositionKey { stakeholder_id, security_id };
        if self.stock_positions.find(&key).is_some() {
            return Err(LedgerError::AlreadyExists(RecordKind::StockPosition));
        }
        let mut ctx = IssueStock {
            stock_class: self.stock_classes.at(c).clone(),
            issuer: *self.issuers.at(i),
            stakeholder: *self.stakeholders.at(h),
            position: StockActivePosition::default(),
        };
        match issue_stock(&mut ctx, security_id, quantity, share_price) {
            Err(e) => Err(LedgerError::Stock(e)),
            Ok(event) => {
                proof {
                    lemma_issue_stock_keeps_wf(
                        self@,
                        issuer_id,
                        stock_class_id,
                        security_id,
                        quantity,
                        share_price,
                        stakeholder_id,
                    );
                }
                let IssueStock { stock_class, issuer, stakeholder: _, position } = ctx;
                self.stock_classes.exchange(c, stock_class);
                self.issuers.exchange(i, issuer);
                self.stock_positions.append(position);
                self.events.push(LogEntry { issuer_id, event: Event::StockIssued(event) });
                Ok(())
            },
        }
    }

    /// Creates an issuer that has issued nothing.
    fn initialize_issuer(&mut self, id: [u8; 16], initial_shares_authorized: u64) -> (r: Result<
        (),
        LedgerError,
    >)
        requires
            old(self)@.wf(),
        ensures
            final(self)@.wf(),
            carried_out(
                old(self)@,
                old(self)@.initialize_issuer(id, initial_shares_authorized),
                r,
                final(self)@,
            ),
    {
        if self.issuers.find(&id).is_some() {
            return Err(LedgerError::Issuer(IssuerError::AlreadyInitialized));
        }
        let mut ctx = InitializeIssuer { issuer: Issuer::default() };
        match initialize_issuer(&mut ctx, id, initial_shares_authorized) {
            Err(e) => Err(LedgerError::Issuer(e)),
            Ok(event) => {
                proof {
                    lemma_initialize_issuer_keeps_wf(self@, id, initial_shares_authorized);
                }
                self.issuers.append(ctx.issuer);
                self.events.push(LogEntry { issuer_id: id, event: Event::IssuerInitialized(event) });
                Ok(())
            },
        }
    }

    /// Sets the authorized pool of an issuer to a new size.
    fn adjust_authorized_shares(&mut self, issuer_id: [u8; 16], new_shares_authorized: u64) -> (r:
        Result<(), LedgerError>)
        requires
            old(self)@.wf(),
        ensures
            final(self)@.wf(),
            carried_out(
                old(self)@,
                old(self)@.adjust_authorized_shares(issuer_id, new_shares_authorized),
                r,
                final(self)@,
            ),
    {
        let i = match self.issuers.find(&issuer_id) {
            Some(i) => i,
            None => {
                return Err(LedgerError::NotFound(RecordKind::Issuer));
            },
        };
        let mut ctx = AdjustAuthorizedShares { issuer: *self.issuers.at(i) };
        let event = adjust_authorized_shares(&mut ctx, new_shares_authorized);
        proof {
            lemma_adjust_authorized_shares_keeps_wf(self@, issuer_id, new_shares_authorized);
        }
        self.issuers.exchange(i, ctx.issuer);
        self.events.push(LogEntry { issuer_id, event: Event::IssuerAuthorizedSharesAdjusted(event) });
        Ok(())
    }

    /// Creates a stock class of an issuer. The stock class has issued
    /// nothing.
    fn create_stock_class(
        &mut self,
        issuer_id: [u8; 16],
        id: [u8; 16],
        class_type: String,
        price_per_share: u64,
        initial_shares_authorized: u64,
    ) -> (r: Result<(), LedgerError>)
        requires
            old(self)@.wf(),
        ensures
            final(self)@.wf(),
            carried_out(
                old(self)@,
                old(self)@.create_stock_class(
                    issuer_id,
                    id,
                    class_type,
                    price_per_share,
                    initial_shares_authorized,
                ),
                r,
                final(self)@,
            ),
    {
        let i = match self.issuers.find(&issuer_id) {
            Some(i) => i,
            None => {
                return Err(LedgerError::NotFound(RecordKind::Issuer));
            },
        };
        if self.stock_classes.find(&id).is_some() {
            return Err(LedgerError::AlreadyExists(RecordKind::StockClass));
        }
        let mut ctx = CreateStockClass {
            issuer: *self.issuers.at(i),
            stock_class: StockClass::default(),
        };
        let ghost given = class_type;
        match create_stock_class(
            &mut ctx,
            id,
            class_type,
            price_per_share,
            initial_shares_authorized,
        ) {
            Err(e) => Err(LedgerError::StockClass(e)),
            Ok(event) => {
                proof {
                    lemma_create_stock_class_keeps_wf(
                        self@,
                        issuer_id,
                        id,
                        given,
                        price_per_share,
                        initial_shares_authorized,
                    );
                }
                let CreateStockClass { issuer: _, stock_class } = ctx;
                self.stock_classes.append(stock_class);
                self.events.push(LogEntry { issuer_id, event: Event::StockClassCreated(event) });
                Ok(())
            },
        }
    }

    /// Sets the authorized pool of a stock class to a new size.
    fn adjust_stock_class_shares(
        &mut self,
        issuer_id: [u8; 16],
        stock_class_id: [u8; 16],
        new_shares_authorized: u64,
    ) -> (r: Result<(), LedgerError>)
        requires
            old(self)@.wf(),
        ensures
            final(self)@.wf(),
            carried_out(
                old(self)@,
                old(self)@.adjust_stock_class_shares(
                    issuer_id,
                    stock_class_id,
                    new_shares_authorized,
                ),
                r,
                final(self)@,
            ),
    {
        let i = match self.issuers.find(&issuer_id) {
            Some(i) => i,
            None => {
                return Err(LedgerError::NotFound(RecordKind::Issuer));
            },
        };
        let c = match self.stock_classes.find(&stock_class_id) {
            Some(c) => c,
            None => {
                return Err(LedgerError::NotFound(RecordKind::StockClass));
            },
        };
        let mut ctx = AdjustStockClassShares {
            issuer: *self.issuers.at(i),
            stock_class: self.stock_classes.at(c).clone(),
        };
        let event = adjust_stock_class_shares(&mut ctx, new_shares_authorized);
        proof {
            lemma_adjust_stock_class_shares_keeps_wf(
                self@,
                issuer_id,
                stock_class_id,
                new_shares_authorized,
            );
        }
        let AdjustStockClassShares { issuer: _, stock_class } = ctx;
        self.stock_classes.exchange(c, stock_class);
        self.events.push(LogEntry { issuer_id, event: Event::StockClassSharesAdjusted(event) });
        Ok(())
    }

    /// Creates a stakeholder of an issuer.
    fn create_stakeholder(&mut self, issuer_id: [u8; 16], id: [u8; 16]) -> (r: Result<
        (),
        LedgerError,
    >)
        requires
            old(self)@.wf(),
        ensures
            final(self)@.wf(),
            carried_out(
                old(self)@,
                old(self)@.create_stakeholder(issuer_id, id),
                r,
                final(self)@,
            ),
    {
        let i = match self.issuers.find(&issuer_id) {
            Some(i) => i,
            None => {
                return Err(LedgerError::NotFound(RecordKind::Issuer));
            },
        };
        if self.stakeholders.find(&id).is_some() {
            return Err(LedgerError::AlreadyExists(RecordKind::Stakeholder));
        }
        let mut ctx = CreateStakeholder {
            issuer: *self.issuers.at(i),
            stakeholder: Stakeholder::default(),
        };
        let event = create_stakeholder(&mut ctx, id);
        proof {
            lemma_create_stakeholder_keeps_wf(self@, issuer_id, id);
        }
        self.stakeholders.append(ctx.stakeholder);
        self.events.push(LogEntry { issuer_id, event: Event::StakeholderCreated(event) });
        Ok(())
    }

    /// The place of the first stock class of `stock_class_ids` that is not
    /// stored, if there is one.
    fn first_unknown_stock_class(&self, stock_class_ids: &Vec<[u8; 16]>) -> (unknown: Option<usize>)
        ensures
            unknown is None <==> all_stock_classes_stored(self@.stock_classes, stock_class_ids@),
            unknown matches Some(k) ==> k < stock_class_ids@.len() && !contains_key(
                self@.stock_classes,
                stock_class_ids@[k as int],
            ),
    {
        let mut k: usize = 0;
        while k < stock_class_ids.len()
            invariant
                k <= stock_class_ids.len(),
                forall|j: int|
                    0 <= j < k ==> contains_key(self.stock_classes@, #[trigger] stock_class_ids@[j]),
            decreases stock_class_ids.len() - k,
        {
            if self.stock_classes.find(&stock_class_ids[k]).is_none() {
                return Some(k);
            }
            k += 1;
        }
        None
    }

    /// Creates a stock plan of an issuer. Every stock class that the plan
    /// lists must be stored.
    fn create_stock_plan(
        &mut self,
        issuer_id: [u8; 16],
        id: [u8; 16],
        stock_class_ids: Vec<[u8; 16]>,
        shares_reserved: u64,
    ) -> (r: Result<(), LedgerError>)
        requires
            old(self)@.wf(),
        ensures
            final(self)@.wf(),
            carried_out(
                old(self)@,
                old(self)@.create_stock_plan(issuer_id, id, stock_class_ids, shares_reserved),
                r,
                final(self)@,
            ),
    {
        let i = match self.issuers.find(&issuer_id) {
            Some(i) => i,
            None => {
                return Err(LedgerError::NotFound(RecordKind::Issuer));
            },
        };
        if self.stock_plans.find(&id).is_some() {
            return Err(LedgerError::AlreadyExists(RecordKind::StockPlan));
        }
        if stock_class_ids.len() == 0 {
            return Err(LedgerError::StockPlan(StockPlanError::InvalidStockClassCount));
        }
        if self.first_unknown_stock_class(&stock_class_ids).is_some() {
            return Err(LedgerError::NotFound(RecordKind::StockClass));
        }
        let first = match self.stock_classes.find(&stock_class_ids[0]) {
            Some(first) => first,
            None => {
                return Err(LedgerError::NotFound(RecordKind::StockClass));
            },
        };
        let mut ctx = CreateStockPlan {
            issuer: *self.issuers.at(i),
            stock_plan: StockPlan::default(),
            stock_class: self.stock_classes.at(first).clone(),
        };
        let ghost given = stock_class_ids;
        match create_stock_plan(&mut ctx, id, stock_class_ids, shares_reserved) {
            Err(e) => Err(LedgerError::StockPlan(e)),
            Ok(event) => {
                proof {
                    lemma_create_stock_plan_keeps_wf(self@, issuer_id, id, given, shares_reserved);
                }
                let CreateStockPlan { issuer: _, stock_plan, stock_class: _ } = ctx;
                self.stock_plans.append(stock_plan);
                self.events.push(LogEntry { issuer_id, event: Event::StockPlanCreated(event) });
                Ok(())
            },
        }
    }

    /// Sets the reserved pool of a stock plan to a new size.
    fn adjust_stock_plan_shares(
        &mut self,
        issuer_id: [u8; 16],
        stock_plan_id: [u8; 16],
        new_shares_reserved: u64,
    ) -> (r: Result<(), LedgerError>)
        requires
            old(self)@.wf(),
        ensures
            final(self)@.wf(),
            carried_out(
                old(self)@,
                old(self)@.adjust_stock_plan_shares(issuer_id, stock_plan_id, new_shares_reserved),
                r,
                final(self)@,
            ),
    {
        let i = match self.issuers.find(&issuer_id) {
            Some(i) => i,
            None => {
                return Err(LedgerError::NotFound(RecordKind::Issuer));
            },
        };
        let p = match self.stock_plans.find(&stock_plan_id) {
            Some(p) => p,
            None => {
                return Err(LedgerError::NotFound(RecordKind::StockPlan));
            },
        };
        let stand_in = StockPlan { id: stock_plan_id, stock_class_ids: Vec::new(), shares_reserved: 0 };
        let mut ctx = AdjustStockPlanShares {
            issuer: *self.issuers.at(i),
            stock_plan: self.stock_plans.exchange(p, stand_in),
        };
        let event = adjust_stock_plan_shares(&mut ctx, new_shares_reserved);
        proof {
            lemma_adjust_stock_plan_shares_keeps_wf(
                old(self)@,
                issuer_id,
                stock_plan_id,
                new_shares_reserved,
            );
        }
        let AdjustStockPlanShares { issuer: _, stock_plan } = ctx;
        self.stock_plans.exchange(p, stock_plan);
        self.events.push(LogEntry { issuer_id, event: Event::StockPlanSharesAdjusted(event) });
        assert(self.stock_plans@ =~= old(self)@.stock_plans.update(p as int, stock_plan));
        Ok(())
    }

    /// Issues a convertible to a stakeholder.
    fn issue_convertible(
        &mut self,
        issuer_id: [u8; 16],
        security_id: [u8; 16],
        investment_amount: u64,
        stakeholder_id: [u8; 16],
    ) -> (r: Result<(), LedgerError>)
        requires
            old(self)@.wf(),
        ensures
            final(self)@.wf(),
            carried_out(
                old(self)@,
                old(self)@.issue_convertible(
                    issuer_id,
                    security_id,
                    investment_amount,
                    stakeholder_id,
                ),
                r,
                final(self)@,
            ),
    {
        let i = match self.issuers.find(&issuer_id) {
            Some(i) => i,
            None => {
                return Err(LedgerError::NotFound(RecordKind::Issuer));
            },
        };
        let h = match self.stakeholders.find(&stakeholder_id) {
            Some(h) => h,
            None => {
                return Err(LedgerError::NotFound(RecordKind::Stakeholder));
            },
        };
        let key = PositionKey { stakeholder_id, security_id };
        if self.convertible_positions.find(&key).is_some() {
            return Err(LedgerError::AlreadyExists(RecordKind::ConvertiblePosition));
        }
        let mut ctx = IssueConvertible {
            issuer: *self.issuers.at(i),
            stakeholder: *self.stakeholders.at(h),
            position: ConvertibleActivePosition::default(),
        };
        match issue_convertible(&mut ctx, security_id, investment_amount) {
            Err(e) => Err(LedgerError::Convertible(e)),
            Ok(event) => {
                proof {
                    lemma_issue_convertible_keeps_wf(
                        self@,
                        issuer_id,
                        security_id,
                        investment_amount,
                        stakeholder_id,
                    );
                }
                self.convertible_positions.append(ctx.position);
                self.events.push(LogEntry { issuer_id, event: Event::ConvertibleIssued(event) });
                Ok(())
            },
        }
    }

    /// Grants equity compensation to a stakeholder, drawing on a stock class
    /// and, if one is named, a stock plan.
    fn issue_equity_compensation(
        &mut self,
        issuer_id: [u8; 16],
        security_id: [u8; 16],
        quantity: u64,
        stakeholder_id: [u8; 16],
        stock_class_id: [u8; 16],
        stock_plan_id: Option<[u8; 16]>,
    ) -> (r: Result<(), LedgerError>)
        requires
            old(self)@.wf(),
        ensures
            final(self)@.wf(),
            carried_out(
                old(self)@,
                old(self)@.issue_equity_compensation(
                    issuer_id,
                    security_id,
                    quantity,
                    stakeholder_id,
                    stock_class_id,
                    stock_plan_id,
                ),
                r,
                final(self)@,
            ),
    {
        let i = match self.issuers.find(&issuer_id) {
            Some(i) => i,
            None => {
                return Err(LedgerError::NotFound(RecordKind::Issuer));
            },
        };
        let h = match self.stakeholders.find(&stakeholder_id) {
            Some(h) => h,
            None => {
                return Err(LedgerError::NotFound(RecordKind::Stakeholder));
            },
        };
        let c = match self.stock_classes.find(&stock_class_id) {
            Some(c) => c,
            None => {
                return Err(LedgerError::NotFound(RecordKind::StockClass));
            },
        };
        let p = match stock_plan_id {
            Some(plan_id) => match self.stock_plans.find(&plan_id) {
                Some(p) => Some(p),
                None => {
                    return Err(LedgerError::NotFound(RecordKind::StockPlan));
                },
            },
            None => None,
        };
        let key = EquityCompensationKey { security_id, stock_class_id, stakeholder_id };
        if self.equity_compensation_positions.find(&key).is_some() {
            return Err(LedgerError::AlreadyExists(RecordKind::EquityCompensationPosition));
        }
        let stock_plan = match (p, stock_plan_id) {
            (Some(p), Some(plan_id)) => {
                let stand_in = StockPlan {
                    id: plan_id,
                    stock_class_ids: Vec::new(),
                    shares_reserved: 0,
                };
                Some(self.stock_plans.exchange(p, stand_in))
            },
            _ => None,
        };
        let mut ctx = IssueEquityCompensation {
            issuer: *self.issuers.at(i),
            stakeholder: *self.stakeholders.at(h),
            stock_class: self.stock_classes.at(c).clone(),
            stock_plan,
            position: EquityCompensationActivePosition::default(),
        };
        let outcome = issue_equity_compensation(&mut ctx, security_id, quantity);
        let IssueEquityCompensation {
            issuer: _,
            stakeholder: _,
            stock_class: _,
            stock_plan,
            position,
        } = ctx;
        match (p, stock_plan) {
            (Some(p), Some(plan)) => {
                self.stock_plans.exchange(p, plan);
            },
            _ => {},
        }
        assert(self.stock_plans@ =~= old(self)@.stock_plans);
        match outcome {
            Err(e) => Err(LedgerError::EquityCompensation(e)),
            Ok(event) => {
                proof {
                    lemma_issue_equity_compensation_keeps_wf(
                        old(self)@,
                        issuer_id,
                        security_id,
                        quantity,
                        stakeholder_id,
                        stock_class_id,
                        stock_plan_id,
                    );
                }
                self.equity_compensation_positions.append(position);
                self.events.push(
                    LogEntry { issuer_id, event: Event::EquityCompensationIssued(event) },
                );
                Ok(())
            },
        }
    }

    /// Exercises part or all of a grant into a stock position that is
    /// already stored.
    fn exercise_equity_compensation(
        &mut self,
        issuer_id: [u8; 16],
        equity_position: EquityCompensationKey,
        stock_position: PositionKey,
        quantity: u64,
    ) -> (r: Result<(), LedgerError>)
        requires
            old(self)@.wf(),
        ensures
            final(self)@.wf(),
            carried_out(
                old(self)@,
                old(self)@.exercise_equity_compensation(
                    issuer_id,
                    equity_position,
                    stock_position,
                    quantity,
                ),
                r,
                final(self)@,
            ),
    {
        let i = match self.issuers.find(&issuer_id) {
            Some(i) => i,
            None => {
                return Err(LedgerError::NotFound(RecordKind::Issuer));
            },
        };
        let e = match self.equity_compensation_positions.find(&equity_position) {
            Some(e) => e,
            None => {
                return Err(LedgerError::NotFound(RecordKind::EquityCompensationPosition));
            },
        };
        let t = match self.stock_positions.find(&stock_position) {
            Some(t) => t,
            None => {
                return Err(LedgerError::NotFound(RecordKind::StockPosition));
            },
        };
        let mut ctx = ExerciseEquityCompensation {
            issuer: *self.issuers.at(i),
            equity_position: *self.equity_compensation_positions.at(e),
            stock_position: *self.stock_positions.at(t),
        };
        match exercise_equity_compensation(&mut ctx, quantity) {
            Err(e) => Err(LedgerError::EquityCompensation(e)),
            Ok(event) => {
                proof {
                    lemma_exercise_equity_compensation_keeps_wf(
                        self@,
                        issuer_id,
                        equity_position,
                        stock_position,
                        quantity,
                    );
                }
                self.equity_compensation_positions.exchange(e, ctx.equity_position);
                self.events.push(
                    LogEntry { issuer_id, event: Event::EquityCompensationExercised(event) },
                );
                Ok(())
            },
        }
    }

    /// Issues a warrant to a stakeholder.
    fn issue_warrant(
        &mut self,
        issuer_id: [u8; 16],
        security_id: [u8; 16],
        quantity: u64,
        stakeholder_id: [u8; 16],
    ) -> (r: Result<(), LedgerError>)
        requires
            old(self)@.wf(),
        ensures
            final(self)@.wf(),
            carried_out(
                old(self)@,
                old(self)@.issue_warrant(issuer_id, security_id, quantity, stakeholder_id),
                r,
                final(self)@,
            ),
    {
        let i = match self.issuers.find(&issuer_id) {
            Some(i) => i,
            None => {
                return Err(LedgerError::NotFound(RecordKind::Issuer));
            },
        };
        let h = match self.stakeholders.find(&stakeholder_id) {
            Some(h) => h,
            None => {
                return Err(LedgerError::NotFound(RecordKind::Stakeholder));
            },
        };
        let key = PositionKey { stakeholder_id, security_id };
        if self.warrant_positions.find(&key).is_some() {
            return Err(LedgerError::AlreadyExists(RecordKind::WarrantPosition));
        }
        let mut ctx = IssueWarrant {
            issuer: *self.issuers.at(i),
            stakeholder: *self.stakeholders.at(h),
            position: WarrantActivePosition::default(),
        };
        match issue_warrant(&mut ctx, security_id, quantity) {
            Err(e) => Err(LedgerError::Warrant(e)),
            Ok(event) => {
                proof {
                    lemma_issue_warrant_keeps_wf(
                        self@,
                        issuer_id,
                        security_id,
                        quantity,
                        stakeholder_id,
                    );
                }
                self.warrant_positions.append(ctx.position);
                self.events.push(LogEntry { issuer_id, event: Event::WarrantIssued(event) });
                Ok(())
            },
        }
    }

    /// Carries out one operation.
    fn execute(&mut self, instruction: Instruction) -> (r: Result<(), LedgerError>)
        requires
            old(self)@.wf(),
        ensures
            final(self)@.wf(),
            carried_out(old(self)@, old(self)@.apply(instruction), r, final(self)@),
    {
        match instruction {
            Instruction::InitializeIssuer { id, initial_shares_authorized } => {
                self.initialize_issuer(id, initial_shares_authorized)
            },
            Instruction::AdjustAuthorizedShares { issuer_id, new_shares_authorized } => {
                self.adjust_authorized_shares(issuer_id, new_shares_authorized)
            },
            Instruction::CreateStockClass {
                issuer_id,
                id,
                class_type,
                price_per_share,
                initial_shares_authorized,
            } => self.create_stock_class(
                issuer_id,
                id,
                class_type,
                price_per_share,
                initial_shares_authorized,
            ),
            Instruction::AdjustStockClassShares {
                issuer_id,
                stock_class_id,
                new_shares_authorized,
            } => self.adjust_stock_class_shares(issuer_id, stock_class_id, new_shares_authorized),
            Instruction::CreateStakeholder { issuer_id, id } => {
                self.create_stakeholder(issuer_id, id)
            },
            Instruction::CreateStockPlan { issuer_id, id, stock_class_ids, shares_reserved } => {
                self.create_stock_plan(issuer_id, id, stock_class_ids, shares_reserved)
            },
            Instruction::AdjustStockPlanShares { issuer_id, stock_plan_id, new_shares_reserved } => {
                self.adjust_stock_plan_shares(issuer_id, stock_plan_id, new_shares_reserved)
            },
            Instruction::IssueStock {
                issuer_id,
                stock_class_id,
                security_id,
                quantity,
                share_price,
                stakeholder_id,
            } => self.issue_stock(
                issuer_id,
                stock_class_id,
                security_id,
                quantity,
                share_price,
                stakeholder_id,
            ),
            Instruction::IssueConvertible {
                issuer_id,
                security_id,
                investment_amount,
                stakeholder_id,
            } => self.issue_convertible(issuer_id, security_id, investment_amount, stakeholder_id),
            Instruction::IssueEquityCompensation {
                issuer_id,
                security_id,
                quantity,
                stakeholder_id,
                stock_class_id,
                stock_plan_id,
            } => self.issue_equity_compensation(
                issuer_id,
                security_id,
                quantity,
                stakeholder_id,
                stock_class_id,
                stock_plan_id,
            ),
            Instruction::ExerciseEquityCompensation {
                issuer_id,
                equity_position,
                stock_position,
                quantity,
            } => self.exercise_equity_compensation(
                issuer_id,
                equity_position,
                stock_position,
                quantity,
            ),
            Instruction::IssueWarrant { issuer_id, security_id, quantity, stakeholder_id } => {
                self.issue_warrant(issuer_id, security_id, quantity, stakeholder_id)
            },
        }
    }

    /// The issuer stored under `id`, if there is one.
    fn issuer(&self, id: &[u8; 16]) -> (record: Option<&Issuer>)
        requires
            self@.wf(),
        ensures
            record is Some <==> contains_key(self@.issuers, *id),
            record matches Some(found) ==> *found == self@.issuer(*id),
    {
        self.issuers.get(id)
    }

    /// The stock class stored under `id`, if there is one.
    fn stock_class(&self, id: &[u8; 16]) -> (record: Option<&StockClass>)
        requires
            self@.wf(),
        ensures
            record is Some <==> contains_key(self@.stock_classes, *id),
            record matches Some(found) ==> *found == self@.stock_class(*id),
    {
        self.stock_classes.get(id)
    }

    /// The stakeholder stored under `id`, if there is one.
    fn stakeholder(&self, id: &[u8; 16]) -> (record: Option<&Stakeholder>)
        requires
            self@.wf(),
        ensures
            record is Some <==> contains_key(self@.stakeholders, *id),
            record matches Some(found) ==> *found == self@.stakeholder(*id),
    {
        self.stakeholders.get(id)
    }

    /// The stock plan stored under `id`, if there is one.
    fn stock_plan(&self, id: &[u8; 16]) -> (record: Option<&StockPlan>)
        requires
            self@.wf(),
        ensures
            record is Some <==> contains_key(self@.stock_plans, *id),
            record matches Some(found) ==> *found == self@.stock_plan(*id),
    {
        self.stock_plans.get(id)
    }

    /// The stock position stored under `key`, if there is one.
    fn stock_position(&self, key: &PositionKey) -> (record: Option<&StockActivePosition>)
        requires
            self@.wf(),
        ensures
            record is Some <==> contains_key(self@.stock_positions, *key),
            record matches Some(found) ==> *found == self@.stock_positions[index_of(
                self@.stock_positions,
                *key,
            )],
    {
        self.stock_positions.get(key)
    }

    /// The convertible position stored under `key`, if there is one.
    fn convertible_position(&self, key: &PositionKey) -> (record: Option<
        &ConvertibleActivePosition,
    >)
        requires
            self@.wf(),
        ensures
            record is Some <==> contains_key(self@.convertible_positions, *key),
            record matches Some(found) ==> *found == self@.convertible_positions[index_of(
                self@.convertible_positions,
                *key,
            )],
    {
        self.convertible_positions.get(key)
    }

    /// The equity compensation position stored under `key`, if there is one.
    fn equity_compensation_position(&self, key: &EquityCompensationKey) -> (record: Option<
        &EquityCompensationActivePosition,
    >)
        requires
            self@.wf(),
        ensures
            record is Some <==> contains_key(self@.equity_compensation_positions, *key),
            record matches Some(found) ==> *found == self@.equity_compensation_positions[index_of(
                self@.equity_compensation_positions,
                *key,
            )],
    {
        self.equity_compensation_positions.get(key)
    }

    /// The warrant position stored under `key`, if there is one.
    fn warrant_position(&self, key: &PositionKey) -> (record: Option<&WarrantActivePosition>)
        requires
            self@.wf(),
        ensures
            record is Some <==> contains_key(self@.warrant_positions, *key),
            record matches Some(found) ==> *found == self@.warrant_positions[index_of(
                self@.warrant_positions,
                *key,
            )],
    {
        self.warrant_positions.get(key)
    }

    /// The event log, oldest entry first.
    fn events(&self) -> (log: &Vec<LogEntry>)
        ensures
            log@ == self@.events,
    {
        &self.events
    }
}

/// The records of a capitalization table and the log of what was done to
/// them. A ledger is well formed at all times: see `LedgerState::wf`.
///
/// What an operation does is stated twice: on the records in the order of
/// their creation (`LedgerState`), and on the records by their keys
/// (`KeyedState`).
pub struct Ledger {
    records: Records,
}

impl View for Ledger {
    type V = LedgerState;

    closed spec fn view(&self) -> LedgerState {
        self.records@
    }
}

impl Ledger {
    #[verifier::type_invariant]
    spec fn well_formed(self) -> bool {
        self.records@.wf()
    }

    /// A ledger that holds nothing.
    pub fn new() -> (ledger: Self)
        ensures
            ledger@ == LedgerState::empty(),
            ledger@.keyed() == KeyedState::empty(),
            ledger@.wf(),
    {
        proof {
            lemma_empty_keyed();
        }
        Ledger { records: Records::new() }
    }

    /// Takes the records out for an operation and leaves none behind.
    fn take(&mut self) -> (records: Records)
        ensures
            records@ == old(self)@,
            records@.wf(),
    {
        proof {
            use_type_invariant(&*self);
        }
        let mut records = Records::new();
        std::mem::swap(&mut self.records, &mut records);
        records
    }

    /// Puts the records back after an operation.
    fn put(&mut self, records: Records)
        requires
            records@.wf(),
        ensures
            final(self)@ == records@,
    {
        self.records = records;
    }

    /// Creates an issuer that has issued nothing.
    pub fn initialize_issuer(
        &mut self,
        id: [u8; 16],
        initial_shares_authorized: u64,
    ) -> (r: Result<(), LedgerError>)
        ensures
            old(self)@.wf(),
            final(self)@.wf(),
            carried_out(
                old(self)@,
                old(self)@.initialize_issuer(
                    id,
                    initial_shares_authorized,
                ),
                r,
                final(self)@,
            ),
            carried_out_keyed(
                old(self)@.keyed(),
                old(self)@.keyed().initialize_issuer(
                    id,
                    initial_shares_authorized,
                ),
                r,
                final(self)@.keyed(),
            ),
    {
        let mut records = self.take();
        proof {
            lemma_initialize_issuer_keyed(records@, id, initial_shares_authorized);
        }
        let r = records.initialize_issuer(id, initial_shares_authorized);
        self.put(records);
        r
    }

    /// Sets the authorized pool of an issuer to a new size.
    pub fn adjust_authorized_shares(
        &mut self,
        issuer_id: [u8; 16],
        new_shares_authorized: u64,
    ) -> (r: Result<(), LedgerError>)
        ensures
            old(self)@.wf(),
            final(self)@.wf(),
            carried_out(
                old(self)@,
                old(self)@.adjust_authorized_shares(
                    issuer_id,
                    new_shares_authorized,
                ),
                r,
                final(self)@,
            ),
            carried_out_keyed(
                old(self)@.keyed(),
                old(self)@.keyed().adjust_authorized_shares(
                    issuer_id,
                    new_shares_authorized,
                ),
                r,
                final(self)@.keyed(),
            ),
    {
        let mut records = self.take();
        proof {
            lemma_adjust_authorized_shares_keyed(records@, issuer_id, new_shares_authorized);
        }
        let r = records.adjust_authorized_shares(issuer_id, new_shares_authorized);
        self.put(records);
        r
    }

    /// Creates a stock class of an issuer. The stock class has issued
    /// nothing.
    pub fn create_stock_class(
        &mut self,
        issuer_id: [u8; 16],
        id: [u8; 16],
        class_type: String,
        price_per_share: u64,
        initial_shares_authorized: u64,
    ) -> (r: Result<(), LedgerError>)
        ensures
            old(self)@.wf(),
            final(self)@.wf(),
            carried_out(
                old(self)@,
                old(self)@.create_stock_class(
                    issuer_id,
                    id,
                    class_type,
                    price_per_share,
                    initial_shares_authorized,
                ),
                r,
                final(self)@,
            ),
            carried_out_keyed(
                old(self)@.keyed(),
                old(self)@.keyed().create_stock_class(
                    issuer_id,
                    id,
                    class_type,
                    price_per_share,
                    initial_shares_authorized,
                ),
                r,
                final(self)@.keyed(),
            ),
    {
        let mut records = self.take();
        proof {
            lemma_create_stock_class_keyed(records@, issuer_id, id, class_type, price_per_share, initial_shares_authorized);
        }
        let r = records.create_stock_class(issuer_id, id, class_type, price_per_share, initial_shares_authorized);
        self.put(records);
        r
    }

    /// Sets the authorized pool of a stock class to a new size.
    pub fn adjust_stock_class_shares(
        &mut self,
        issuer_id: [u8; 16],
        stock_class_id: [u8; 16],
        new_shares_authorized: u64,
    ) -> (r: Result<(), LedgerError>)
        ensures
            old(self)@.wf(),
            final(self)@.wf(),
            carried_out(
                old(self)@,
                old(self)@.adjust_stock_class_shares(
                    issuer_id,
                    stock_class_id,
                    new_shares_authorized,
                ),
                r,
                final(self)@,
            ),
            carried_out_keyed(
                old(self)@.keyed(),
                old(self)@.keyed().adjust_stock_class_shares(
                    issuer_id,
                    stock_class_id,
                    new_shares_authorized,
                ),
                r,
                final(self)@.keyed(),
            ),
    {
        let mut records = self.take();
        proof {
            lemma_adjust_stock_class_shares_keyed(records@, issuer_id, stock_class_id, new_shares_authorized);
        }
        let r = records.adjust_stock_class_shares(issuer_id, stock_class_id, new_shares_authorized);
        self.put(records);
        r
    }

    /// Creates a stakeholder of an issuer.
    pub fn create_stakeholder(
        &mut self,
        issuer_id: [u8; 16],
        id: [u8; 16],
    ) -> (r: Result<(), LedgerError>)
        ensures
            old(self)@.wf(),
            final(self)@.wf(),
            carried_out(
                old(self)@,
                old(self)@.create_stakeholder(
                    issuer_id,
                    id,
                ),
                r,
                final(self)@,
            ),
            carried_out_keyed(
                old(self)@.keyed(),
                old(self)@.keyed().create_stakeholder(
                    issuer_id,
                    id,
                ),
                r,
                final(self)@.keyed(),
            ),
    {
        let mut records = self.take();
        proof {
            lemma_create_stakeholder_keyed(records@, issuer_id, id);
        }
        let r = records.create_stakeholder(issuer_id, id);
        self.put(records);
        r
    }

    /// Creates a stock plan of an issuer. Every stock class that the plan
    /// lists must be stored.
    pub fn create_stock_plan(
        &mut self,
        issuer_id: [u8; 16],
        id: [u8; 16],
        stock_class_ids: Vec<[u8; 16]>,
        shares_reserved: u64,
    ) -> (r: Result<(), LedgerError>)
        ensures
            old(self)@.wf(),
            final(self)@.wf(),
            carried_out(
                old(self)@,
                old(self)@.create_stock_plan(
                    issuer_id,
                    id,
                    stock_class_ids,
                    shares_reserved,
                ),
                r,
                final(self)@,
            ),
            carried_out_keyed(
                old(self)@.keyed(),
                old(self)@.keyed().create_stock_plan(
                    issuer_id,
                    id,
                    stock_class_ids,
                    shares_reserved,
                ),
                r,
                final(self)@.keyed(),
            ),
    {
        let mut records = self.take();
        proof {
            lemma_create_stock_plan_keyed(records@, issuer_id, id, stock_class_ids, shares_reserved);
        }
        let r = records.create_stock_plan(issuer_id, id, stock_class_ids, shares_reserved);
        self.put(records);
        r
    }

    /// Sets the reserved pool of a stock plan to a new size.
    pub fn adjust_stock_plan_shares(
        &mut self,
        issuer_id: [u8; 16],
        stock_plan_id: [u8; 16],
        new_shares_reserved: u64,
    ) -> (r: Result<(), LedgerError>)
        ensures
            old(self)@.wf(),
            final(self)@.wf(),
            carried_out(
                old(self)@,
                old(self)@.adjust_stock_plan_shares(
                    issuer_id,
                    stock_plan_id,
                    new_shares_reserved,
                ),
                r,
                final(self)@,
            ),
            carried_out_keyed(
                old(self)@.keyed(),
                old(self)@.keyed().adjust_stock_plan_shares(
                    issuer_id,
                    stock_plan_id,
                    new_shares_reserved,
                ),
                r,
                final(self)@.keyed(),
            ),
    {
        let mut records = self.take();
        proof {
            lemma_adjust_stock_plan_shares_keyed(records@, issuer_id, stock_plan_id, new_shares_reserved);
        }
        let r = records.adjust_stock_plan_shares(issuer_id, stock_plan_id, new_shares_reserved);
        self.put(records);
        r
    }

    /// Issues stock of a stock class to a stakeholder, and counts it for the
    /// stock class and for the issuer.
    pub fn issue_stock(
        &mut self,
        issuer_id: [u8; 16],
        stock_class_id: [u8; 16],
        security_id: [u8; 16],
        quantity: u64,
        share_price: u64,
        stakeholder_id: [u8; 16],
    ) -> (r: Result<(), LedgerError>)
        ensures
            old(self)@.wf(),
            final(self)@.wf(),
            carried_out(
                old(self)@,
                old(self)@.issue_stock(
                    issuer_id,
                    stock_class_id,
                    security_id,
                    quantity,
                    share_price,
                    stakeholder_id,
                ),
                r,
                final(self)@,
            ),
            carried_out_keyed(
                old(self)@.keyed(),
                old(self)@.keyed().issue_stock(
                    issuer_id,
                    stock_class_id,
                    security_id,
                    quantity,
                    share_price,
                    stakeholder_id,
                ),
                r,
                final(self)@.keyed(),
            ),
    {
        let mut records = self.take();
        proof {
            lemma_issue_stock_keyed(records@, issuer_id, stock_class_id, security_id, quantity, share_price, stakeholder_id);
        }
        let r = records.issue_stock(issuer_id, stock_class_id, security_id, quantity, share_price, stakeholder_id);
        self.put(records);
        r
    }

    /// Issues a convertible to a stakeholder.
    pub fn issue_convertible(
        &mut self,
        issuer_id: [u8; 16],
        security_id: [u8; 16],
        investment_amount: u64,
        stakeholder_id: [u8; 16],
    ) -> (r: Result<(), LedgerError>)
        ensures
            old(self)@.wf(),
            final(self)@.wf(),
            carried_out(
                old(self)@,
                old(self)@.issue_convertible(
                    issuer_id,
                    security_id,
                    investment_amount,
                    stakeholder_id,
                ),
                r,
                final(self)@,
            ),
            carried_out_keyed(
                old(self)@.keyed(),
                old(self)@.keyed().issue_convertible(
                    issuer_id,
                    security_id,
                    investment_amount,
                    stakeholder_id,
                ),
                r,
                final(self)@.keyed(),
            ),
    {
        let mut records = self.take();
        proof {
            lemma_issue_convertible_keyed(records@, issuer_id, security_id, investment_amount, stakeholder_id);
        }
        let r = records.issue_convertible(issuer_id, security_id, investment_amount, stakeholder_id);
        self.put(records);
        r
    }

    /// Grants equity compensation to a stakeholder, drawing on a stock class
    /// and, if one is named, a stock plan.
    pub fn issue_equity_compensation(
        &mut self,
        issuer_id: [u8; 16],
        security_id: [u8; 16],
        quantity: u64,
        stakeholder_id: [u8; 16],
        stock_class_id: [u8; 16],
        stock_plan_id: Option<[u8; 16]>,
    ) -> (r: Result<(), LedgerError>)
        ensures
            old(self)@.wf(),
            final(self)@.wf(),
            carried_out(
                old(self)@,
                old(self)@.issue_equity_compensation(
                    issuer_id,
                    security_id,
                    quantity,
                    stakeholder_id,
                    stock_class_id,
                    stock_plan_id,
                ),
                r,
                final(self)@,
            ),
            carried_out_keyed(
                old(self)@.keyed(),
                old(self)@.keyed().issue_equity_compensation(
                    issuer_id,
                    security_id,
                    quantity,
                    stakeholder_id,
                    stock_class_id,
                    stock_plan_id,
                ),
                r,
                final(self)@.keyed(),
            ),
    {
        let mut records = self.take();
        proof {
            lemma_issue_equity_compensation_keyed(records@, issuer_id, security_id, quantity, stakeholder_id, stock_class_id, stock_plan_id);
        }
        let r = records.issue_equity_compensation(issuer_id, security_id, quantity, stakeholder_id, stock_class_id, stock_plan_id);
        self.put(records);
        r
    }

    /// Exercises part or all of a grant into a stock position that is
    /// already stored.
    pub fn exercise_equity_compensation(
        &mut self,
        issuer_id: [u8; 16],
        equity_position: EquityCompensationKey,
        stock_position: PositionKey,
        quantity: u64,
    ) -> (r: Result<(), LedgerError>)
        ensures
            old(self)@.wf(),
            final(self)@.wf(),
            carried_out(
                old(self)@,
                old(self)@.exercise_equity_compensation(
                    issuer_id,
                    equity_position,
                    stock_position,
                    quantity,
                ),
                r,
                final(self)@,
            ),
            carried_out_keyed(
                old(self)@.keyed(),
                old(self)@.keyed().exercise_equity_compensation(
                    issuer_id,
                    equity_position,
                    stock_position,
                    quantity,
                ),
                r,
                final(self)@.keyed(),
            ),
    {
        let mut records = self.take();
        proof {
            lemma_exercise_equity_compensation_keyed(records@, issuer_id, equity_position, stock_position, quantity);
        }
        let r = records.exercise_equity_compensation(issuer_id, equity_position, stock_position, quantity);
        self.put(records);
        r
    }

    /// Issues a warrant to a stakeholder.
    pub fn issue_warrant(
        &mut self,
        issuer_id: [u8; 16],
        security_id: [u8; 16],
        quantity: u64,
        stakeholder_id: [u8; 16],
    ) -> (r: Result<(), LedgerError>)
        ensures
            old(self)@.wf(),
            final(self)@.wf(),
            carried_out(
                old(self)@,
                old(self)@.issue_warrant(
                    issuer_id,
                    security_id,
                    quantity,
                    stakeholder_id,
                ),
                r,
                final(self)@,
            ),
            carried_out_keyed(
                old(self)@.keyed(),
                old(self)@.keyed().issue_warrant(
                    issuer_id,
                    security_id,
                    quantity,
                    stakeholder_id,
                ),
                r,
                final(self)@.keyed(),
            ),
    {
        let mut records = self.take();
        proof {
            lemma_issue_warrant_keyed(records@, issuer_id, security_id, quantity, stakeholder_id);
        }
        let r = records.issue_warrant(issuer_id, security_id, quantity, stakeholder_id);
        self.put(records);
        r
    }

    /// Carries out one operation.
    pub fn execute(&mut self, instruction: Instruction) -> (r: Result<(), LedgerError>)
        ensures
            old(self)@.wf(),
            final(self)@.wf(),
            carried_out(old(self)@, old(self)@.apply(instruction), r, final(self)@),
            carried_out_keyed(
                old(self)@.keyed(),
                old(self)@.keyed().apply(instruction),
                r,
                final(self)@.keyed(),
            ),
    {
        let mut records = self.take();
        proof {
            lemma_apply_keyed(records@, instruction);
        }
        let r = records.execute(instruction);
        self.put(records);
        r
    }

    /// The issuer stored under `id`, if there is one.
    pub fn issuer(&self, id: &[u8; 16]) -> (record: Option<&Issuer>)
        ensures
            self@.wf(),
            record is Some <==> self@.keyed().issuers.contains_key(*id),
            record matches Some(found) ==> *found == self@.keyed().issuers[*id],
    {
        proof {
            use_type_invariant(self);
        }
        self.records.issuer(id)
    }

    /// The stock class stored under `id`, if there is one.
    pub fn stock_class(&self, id: &[u8; 16]) -> (record: Option<&StockClass>)
        ensures
            self@.wf(),
            record is Some <==> self@.keyed().stock_classes.contains_key(*id),
            record matches Some(found) ==> *found == self@.keyed().stock_classes[*id],
    {
        proof {
            use_type_invariant(self);
        }
        self.records.stock_class(id)
    }

    /// The stakeholder stored under `id`, if there is one.
    pub fn stakeholder(&self, id: &[u8; 16]) -> (record: Option<&Stakeholder>)
        ensures
            self@.wf(),
            record is Some <==> self@.keyed().stakeholders.contains_key(*id),
            record matches Some(found) ==> *found == self@.keyed().stakeholders[*id],
    {
        proof {
            use_type_invariant(self);
        }
        self.records.stakeholder(id)
    }

    /// The stock plan stored under `id`, if there is one.
    pub fn stock_plan(&self, id: &[u8; 16]) -> (record: Option<&StockPlan>)
        ensures
            self@.wf(),
            record is Some <==> self@.keyed().stock_plans.contains_key(*id),
            record matches Some(found) ==> *found == self@.keyed().stock_plans[*id],
    {
        proof {
            use_type_invariant(self);
        }
        self.records.stock_plan(id)
    }

    /// The stock position stored under `key`, if there is one.
    pub fn stock_position(&self, key: &PositionKey) -> (record: Option<&StockActivePosition>)
        ensures
            self@.wf(),
            record is Some <==> self@.keyed().stock_positions.contains_key(*key),
            record matches Some(found) ==> *found == self@.keyed().stock_positions[*key],
    {
        proof {
            use_type_invariant(self);
        }
        self.records.stock_position(key)
    }

    /// The convertible position stored under `key`, if there is one.
    pub fn convertible_position(&self, key: &PositionKey) -> (record: Option<&ConvertibleActivePosition>)
        ensures
            self@.wf(),
            record is Some <==> self@.keyed().convertible_positions.contains_key(*key),
            record matches Some(found) ==> *found == self@.keyed().convertible_positions[*key],
    {
        proof {
            use_type_invariant(self);
        }
        self.records.convertible_position(key)
    }

    /// The equity compensation position stored under `key`, if there is one.
    pub fn equity_compensation_position(&self, key: &EquityCompensationKey) -> (record: Option<&EquityCompensationActivePosition>)
        ensures
            self@.wf(),
            record is Some <==> self@.keyed().equity_compensation_positions.contains_key(*key),
            record matches Some(found) ==> *found == self@.keyed().equity_compensation_positions[*key],
    {
        proof {
            use_type_invariant(self);
        }
        self.records.equity_compensation_position(key)
    }

    /// The warrant position stored under `key`, if there is one.
    pub fn warrant_position(&self, key: &PositionKey) -> (record: Option<&WarrantActivePosition>)
        ensures
            self@.wf(),
            record is Some <==> self@.keyed().warrant_positions.contains_key(*key),
            record matches Some(found) ==> *found == self@.keyed().warrant_positions[*key],
    {
        proof {
            use_type_invariant(self);
        }
        self.records.warrant_position(key)
    }

    /// The event log, oldest entry first.
    pub fn events(&self) -> (log: &Vec<LogEntry>)
        ensures
            log@ == self@.events,
    {
        self.records.events()
    }
}

} // verus!
