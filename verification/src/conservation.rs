//! What holds of every state the ledger can reach.
//!
//! No two records of a kind share a key; every reference from one record to
//! another resolves; every stored record is valid; the counter of each stock
//! class equals the sum of the quantities of the stock positions issued
//! against it; and the counters of the issuers add up to the counters of the
//! stock classes.

use vstd::prelude::*;
use crate::model::{all_stock_classes_stored, Instruction, LedgerState};
use crate::state::{
    EquityCompensationKey, Issuer, Keyed, PositionKey, StockActivePosition, StockClass,
};
use crate::store::{
    contains_key, distinct_keys, index_of, lemma_index_of_key, lemma_push_record,
    lemma_replace_record,
};

verus! {

/// The sum of `weight` over the items of `items`.
pub open spec fn total<T>(items: Seq<T>, weight: spec_fn(T) -> nat) -> nat
    decreases items.len(),
{
    if items.len() == 0 {
        0
    } else {
        total(items.drop_last(), weight) + weight(items.last())
    }
}

/// What a stock position counts for the stock class `stock_class_id`: its
/// quantity when it was issued against that stock class, nothing otherwise.
pub open spec fn quantity_against(stock_class_id: [u8; 16]) -> spec_fn(StockActivePosition) -> nat {
    |position: StockActivePosition|
        if position.stock_class_id == stock_class_id {
            position.quantity as nat
        } else {
            0nat
        }
}

/// The issued counter of a stock class.
pub open spec fn stock_class_issued() -> spec_fn(StockClass) -> nat {
    |stock_class: StockClass| stock_class.shares_issued as nat
}

/// The authorized pool of a stock class.
pub open spec fn stock_class_authorized() -> spec_fn(StockClass) -> nat {
    |stock_class: StockClass| stock_class.shares_authorized as nat
}

/// The issued counter of an issuer.
pub open spec fn issuer_issued() -> spec_fn(Issuer) -> nat {
    |issuer: Issuer| issuer.shares_issued as nat
}

/// The sum of the quantities of the stock positions issued against the
/// stock class `stock_class_id`.
pub open spec fn issued_against(
    positions: Seq<StockActivePosition>,
    stock_class_id: [u8; 16],
) -> nat {
    total(positions, quantity_against(stock_class_id))
}

/// The sum of the issued counters of the stock classes.
pub open spec fn issued_by_stock_classes(stock_classes: Seq<StockClass>) -> nat {
    total(stock_classes, stock_class_issued())
}

/// The sum of the authorized pools of the stock classes.
pub open spec fn authorized_by_stock_classes(stock_classes: Seq<StockClass>) -> nat {
    total(stock_classes, stock_class_authorized())
}

/// The sum of the issued counters of the issuers.
pub open spec fn issued_by_issuers(issuers: Seq<Issuer>) -> nat {
    total(issuers, issuer_issued())
}

/// One more item adds its weight to the sum.
pub proof fn lemma_total_push<T>(items: Seq<T>, weight: spec_fn(T) -> nat, item: T)
    ensures
        total(items.push(item), weight) == total(items, weight) + weight(item),
{
    assert(items.push(item).drop_last() =~= items);
}

/// Replacing an item changes the sum by the difference of the weights.
pub proof fn lemma_total_update<T>(items: Seq<T>, weight: spec_fn(T) -> nat, i: int, item: T)
    requires
        0 <= i < items.len(),
    ensures
        total(items.update(i, item), weight) + weight(items[i]) == total(items, weight) + weight(
            item,
        ),
    decreases items.len(),
{
    let after = items.update(i, item);
    if i == items.len() - 1 {
        assert(after.drop_last() =~= items.drop_last());
    } else {
        assert(after.drop_last() =~= items.drop_last().update(i, item));
        lemma_total_update(items.drop_last(), weight, i, item);
    }
}

/// No item weighs more than the sum.
pub proof fn lemma_total_bounds_item<T>(items: Seq<T>, weight: spec_fn(T) -> nat, i: int)
    requires
        0 <= i < items.len(),
    ensures
        weight(items[i]) <= total(items, weight),
    decreases items.len(),
{
    if i < items.len() - 1 {
        lemma_total_bounds_item(items.drop_last(), weight, i);
    }
}

/// A sum of weights is at most the sum of weights that are item by item at
/// least as large.
pub proof fn lemma_total_le<T>(items: Seq<T>, lower: spec_fn(T) -> nat, upper: spec_fn(T) -> nat)
    requires
        forall|i: int| 0 <= i < items.len() ==> lower(#[trigger] items[i]) <= upper(items[i]),
    ensures
        total(items, lower) <= total(items, upper),
    decreases items.len(),
{
    if items.len() > 0 {
        assert forall|i: int| 0 <= i < items.drop_last().len() implies lower(
            #[trigger] items.drop_last()[i],
        ) <= upper(items.drop_last()[i]) by {
            assert(items.drop_last()[i] == items[i]);
        }
        lemma_total_le(items.drop_last(), lower, upper);
        assert(items.last() == items[items.len() - 1]);
    }
}

/// Items without weight add up to nothing.
pub proof fn lemma_total_zero<T>(items: Seq<T>, weight: spec_fn(T) -> nat)
    requires
        forall|i: int| 0 <= i < items.len() ==> weight(#[trigger] items[i]) == 0,
    ensures
        total(items, weight) == 0,
    decreases items.len(),
{
    if items.len() > 0 {
        assert forall|i: int| 0 <= i < items.drop_last().len() implies weight(
            #[trigger] items.drop_last()[i],
        ) == 0 by {
            assert(items.drop_last()[i] == items[i]);
        }
        lemma_total_zero(items.drop_last(), weight);
        assert(items.last() == items[items.len() - 1]);
    }
}

impl LedgerState {
    /// No two records of a kind share a key.
    pub open spec fn keys_are_distinct(self) -> bool {
        &&& distinct_keys(self.issuers)
        &&& distinct_keys(self.stock_classes)
        &&& distinct_keys(self.stakeholders)
        &&& distinct_keys(self.stock_plans)
        &&& distinct_keys(self.stock_positions)
        &&& distinct_keys(self.convertible_positions)
        &&& distinct_keys(self.equity_compensation_positions)
        &&& distinct_keys(self.warrant_positions)
    }

    /// Every position belongs to a stored stakeholder, every stock class or
    /// stock plan that a record names is stored.
    pub open spec fn references_resolve(self) -> bool {
        &&& forall|i: int|
            0 <= i < self.stock_positions.len() ==> {
                &&& contains_key(
                    self.stock_classes,
                    (#[trigger] self.stock_positions[i]).stock_class_id,
                )
                &&& contains_key(self.stakeholders, self.stock_positions[i].stakeholder_id)
            }
        &&& forall|i: int|
            0 <= i < self.convertible_positions.len() ==> contains_key(
                self.stakeholders,
                (#[trigger] self.convertible_positions[i]).stakeholder_id,
            )
        &&& forall|i: int|
            0 <= i < self.warrant_positions.len() ==> contains_key(
                self.stakeholders,
                (#[trigger] self.warrant_positions[i]).stakeholder_id,
            )
        &&& forall|i: int|
            0 <= i < self.equity_compensation_positions.len() ==> {
                &&& contains_key(
                    self.stakeholders,
                    (#[trigger] self.equity_compensation_positions[i]).stakeholder_id,
                )
                &&& contains_key(
                    self.stock_classes,
                    self.equity_compensation_positions[i].stock_class_id,
                )
                &&& self.equity_compensation_positions[i].stock_plan_id matches Some(plan)
                    ==> contains_key(self.stock_plans, plan)
            }
        &&& forall|i: int|
            0 <= i < self.stock_plans.len() ==> all_stock_classes_stored(
                self.stock_classes,
                (#[trigger] self.stock_plans[i]).stock_class_ids@,
            )
    }

    /// Every stored position holds a quantity or an amount above zero, stock
    /// at a price above zero, and every stock plan lists a stock class. A
    /// grant of equity compensation may be exercised down to nothing.
    pub open spec fn records_are_valid(self) -> bool {
        &&& forall|i: int|
            0 <= i < self.stock_positions.len() ==> (#[trigger] self.stock_positions[i]).quantity
                > 0 && self.stock_positions[i].share_price > 0
        &&& forall|i: int|
            0 <= i < self.convertible_positions.len() ==> (
            #[trigger] self.convertible_positions[i]).investment_amount > 0
        &&& forall|i: int|
            0 <= i < self.warrant_positions.len() ==> (#[trigger] self.warrant_positions[i]).quantity
                > 0
        &&& forall|i: int|
            0 <= i < self.stock_plans.len() ==> (#[trigger] self.stock_plans[i]).stock_class_ids@.len()
                > 0
    }

    /// The counter of every stock class is the sum of the quantities of the
    /// stock positions issued against it, and the counters of the issuers
    /// add up to the counters of the stock classes.
    pub open spec fn counters_match(self) -> bool {
        &&& forall|c: int|
            0 <= c < self.stock_classes.len() ==> (#[trigger] self.stock_classes[c]).shares_issued
                == issued_against(self.stock_positions, self.stock_classes[c].id)
        &&& issued_by_issuers(self.issuers) == issued_by_stock_classes(self.stock_classes)
    }

    /// What holds of every state the ledger can reach.
    pub open spec fn wf(self) -> bool {
        &&& self.keys_are_distinct()
        &&& self.references_resolve()
        &&& self.records_are_valid()
        &&& self.counters_match()
    }

    /// Every stock class has issued no more than its authorized pool.
    pub open spec fn stock_classes_within_authorized(self) -> bool {
        forall|c: int|
            0 <= c < self.stock_classes.len() ==> (#[trigger] self.stock_classes[c]).shares_issued
                <= self.stock_classes[c].shares_authorized
    }

    /// Every issuer has issued no more than its authorized pool.
    pub open spec fn issuers_within_authorized(self) -> bool {
        forall|i: int|
            0 <= i < self.issuers.len() ==> (#[trigger] self.issuers[i]).shares_issued
                <= self.issuers[i].shares_authorized
    }
}

/// Issuing stock keeps the ledger well formed.
pub proof fn lemma_issue_stock_keeps_wf(
    s: LedgerState,
    issuer_id: [u8; 16],
    stock_class_id: [u8; 16],
    security_id: [u8; 16],
    quantity: u64,
    share_price: u64,
    stakeholder_id: [u8; 16],
)
    requires
        s.wf(),
    ensures
        s.issue_stock(
            issuer_id,
            stock_class_id,
            security_id,
            quantity,
            share_price,
            stakeholder_id,
        ) matches Ok(next) ==> next.wf(),
{
    let attempt = s.issue_stock(
        issuer_id,
        stock_class_id,
        security_id,
        quantity,
        share_price,
        stakeholder_id,
    );
    if let Ok(next) = attempt {
        let c = index_of(s.stock_classes, stock_class_id);
        let i = index_of(s.issuers, issuer_id);
        let h = index_of(s.stakeholders, stakeholder_id);
        lemma_index_of_key(s.stock_classes, stock_class_id);
        lemma_index_of_key(s.issuers, issuer_id);
        lemma_index_of_key(s.stakeholders, stakeholder_id);
        let position = next.stock_positions.last();
        lemma_replace_record(s.stock_classes, c, next.stock_classes[c]);
        lemma_replace_record(s.issuers, i, next.issuers[i]);
        lemma_push_record(s.stock_positions, position);
        assert(next.keys_are_distinct());
        assert(next.references_resolve());
        assert(next.records_are_valid());
        assert forall|k: int| 0 <= k < next.stock_classes.len() implies (
        #[trigger] next.stock_classes[k]).shares_issued == issued_against(
            next.stock_positions,
            next.stock_classes[k].id,
        ) by {
            lemma_total_push(s.stock_positions, quantity_against(s.stock_classes[k].id), position);
            if k != c {
                if k < c {
                    assert(s.stock_classes[k].key() != s.stock_classes[c].key());
                } else {
                    assert(s.stock_classes[c].key() != s.stock_classes[k].key());
                }
            }
        }
        lemma_total_update(s.stock_classes, stock_class_issued(), c, next.stock_classes[c]);
        lemma_total_update(s.issuers, issuer_issued(), i, next.issuers[i]);
        assert(next.counters_match());
    }
}

/// Creating an issuer keeps the ledger well formed.
pub proof fn lemma_initialize_issuer_keeps_wf(
    s: LedgerState,
    id: [u8; 16],
    initial_shares_authorized: u64,
)
    requires
        s.wf(),
    ensures
        s.initialize_issuer(id, initial_shares_authorized) matches Ok(next) ==> next.wf(),
{
    if let Ok(next) = s.initialize_issuer(id, initial_shares_authorized) {
        let issuer = next.issuers.last();
        lemma_push_record(s.issuers, issuer);
        lemma_total_push(s.issuers, issuer_issued(), issuer);
    }
}

/// Resizing an issuer keeps the ledger well formed.
pub proof fn lemma_adjust_authorized_shares_keeps_wf(
    s: LedgerState,
    issuer_id: [u8; 16],
    new_shares_authorized: u64,
)
    requires
        s.wf(),
    ensures
        s.adjust_authorized_shares(issuer_id, new_shares_authorized) matches Ok(next)
            ==> next.wf(),
{
    if let Ok(next) = s.adjust_authorized_shares(issuer_id, new_shares_authorized) {
        let i = index_of(s.issuers, issuer_id);
        lemma_index_of_key(s.issuers, issuer_id);
        lemma_replace_record(s.issuers, i, next.issuers[i]);
        lemma_total_update(s.issuers, issuer_issued(), i, next.issuers[i]);
    }
}

/// No stock position counts for a stock class that is not stored.
pub proof fn lemma_nothing_issued_against_unknown(s: LedgerState, stock_class_id: [u8; 16])
    requires
        s.references_resolve(),
        !contains_key(s.stock_classes, stock_class_id),
    ensures
        issued_against(s.stock_positions, stock_class_id) == 0,
{
    let weight = quantity_against(stock_class_id);
    assert forall|i: int| 0 <= i < s.stock_positions.len() implies weight(
        #[trigger] s.stock_positions[i],
    ) == 0 by {
        assert(contains_key(s.stock_classes, s.stock_positions[i].stock_class_id));
    }
    lemma_total_zero(s.stock_positions, weight);
}

/// Creating a stock class keeps the ledger well formed.
pub proof fn lemma_create_stock_class_keeps_wf(
    s: LedgerState,
    issuer_id: [u8; 16],
    id: [u8; 16],
    class_type: String,
    price_per_share: u64,
    initial_shares_authorized: u64,
)
    requires
        s.wf(),
    ensures
        s.create_stock_class(
            issuer_id,
            id,
            class_type,
            price_per_share,
            initial_shares_authorized,
        ) matches Ok(next) ==> next.wf(),
{
    if let Ok(next) = s.create_stock_class(
        issuer_id,
        id,
        class_type,
        price_per_share,
        initial_shares_authorized,
    ) {
        let stock_class = next.stock_classes.last();
        lemma_push_record(s.stock_classes, stock_class);
        assert(next.keys_are_distinct());
        assert(next.references_resolve());
        lemma_nothing_issued_against_unknown(s, id);
        lemma_total_push(s.stock_classes, stock_class_issued(), stock_class);
        assert forall|k: int| 0 <= k < next.stock_classes.len() implies (
        #[trigger] next.stock_classes[k]).shares_issued == issued_against(
            next.stock_positions,
            next.stock_classes[k].id,
        ) by {
            if k < s.stock_classes.len() {
                assert(next.stock_classes[k] == s.stock_classes[k]);
            }
        }
    }
}

/// Resizing a stock class keeps the ledger well formed.
pub proof fn lemma_adjust_stock_class_shares_keeps_wf(
    s: LedgerState,
    issuer_id: [u8; 16],
    stock_class_id: [u8; 16],
    new_shares_authorized: u64,
)
    requires
        s.wf(),
    ensures
        s.adjust_stock_class_shares(issuer_id, stock_class_id, new_shares_authorized) matches Ok(
            next,
        ) ==> next.wf(),
{
    if let Ok(next) = s.adjust_stock_class_shares(issuer_id, stock_class_id, new_shares_authorized) {
        let c = index_of(s.stock_classes, stock_class_id);
        lemma_index_of_key(s.stock_classes, stock_class_id);
        lemma_replace_record(s.stock_classes, c, next.stock_classes[c]);
        lemma_total_update(s.stock_classes, stock_class_issued(), c, next.stock_classes[c]);
        assert(next.keys_are_distinct());
        assert(next.references_resolve());
        assert forall|k: int| 0 <= k < next.stock_classes.len() implies (
        #[trigger] next.stock_classes[k]).shares_issued == issued_against(
            next.stock_positions,
            next.stock_classes[k].id,
        ) by {
            assert(next.stock_classes[k].id == s.stock_classes[k].id);
            assert(next.stock_classes[k].shares_issued == s.stock_classes[k].shares_issued);
        }
    }
}

/// Creating a stakeholder keeps the ledger well formed.
pub proof fn lemma_create_stakeholder_keeps_wf(s: LedgerState, issuer_id: [u8; 16], id: [u8; 16])
    requires
        s.wf(),
    ensures
        s.create_stakeholder(issuer_id, id) matches Ok(next) ==> next.wf(),
{
    if let Ok(next) = s.create_stakeholder(issuer_id, id) {
        lemma_push_record(s.stakeholders, next.stakeholders.last());
    }
}

/// Creating a stock plan keeps the ledger well formed.
pub proof fn lemma_create_stock_plan_keeps_wf(
    s: LedgerState,
    issuer_id: [u8; 16],
    id: [u8; 16],
    stock_class_ids: Vec<[u8; 16]>,
    shares_reserved: u64,
)
    requires
        s.wf(),
    ensures
        s.create_stock_plan(issuer_id, id, stock_class_ids, shares_reserved) matches Ok(next)
            ==> next.wf(),
{
    if let Ok(next) = s.create_stock_plan(issuer_id, id, stock_class_ids, shares_reserved) {
        lemma_push_record(s.stock_plans, next.stock_plans.last());
        assert(next.keys_are_distinct());
        assert forall|i: int| 0 <= i < next.stock_plans.len() implies all_stock_classes_stored(
            next.stock_classes,
            (#[trigger] next.stock_plans[i]).stock_class_ids@,
        ) by {
            if i < s.stock_plans.len() {
                assert(next.stock_plans[i] == s.stock_plans[i]);
            }
        }
        assert forall|i: int| 0 <= i < next.stock_plans.len() implies (
        #[trigger] next.stock_plans[i]).stock_class_ids@.len() > 0 by {
            if i < s.stock_plans.len() {
                assert(next.stock_plans[i] == s.stock_plans[i]);
            }
        }
    }
}

/// Resizing a stock plan keeps the ledger well formed.
pub proof fn lemma_adjust_stock_plan_shares_keeps_wf(
    s: LedgerState,
    issuer_id: [u8; 16],
    stock_plan_id: [u8; 16],
    new_shares_reserved: u64,
)
    requires
        s.wf(),
    ensures
        s.adjust_stock_plan_shares(issuer_id, stock_plan_id, new_shares_reserved) matches Ok(next)
            ==> next.wf(),
{
    if let Ok(next) = s.adjust_stock_plan_shares(issuer_id, stock_plan_id, new_shares_reserved) {
        let p = index_of(s.stock_plans, stock_plan_id);
        lemma_index_of_key(s.stock_plans, stock_plan_id);
        lemma_replace_record(s.stock_plans, p, next.stock_plans[p]);
        assert(next.keys_are_distinct());
        assert forall|i: int| 0 <= i < next.stock_plans.len() implies all_stock_classes_stored(
            next.stock_classes,
            (#[trigger] next.stock_plans[i]).stock_class_ids@,
        ) && next.stock_plans[i].stock_class_ids@.len() > 0 by {
            assert(next.stock_plans[i].stock_class_ids == s.stock_plans[i].stock_class_ids);
        }
    }
}

/// Issuing a convertible keeps the ledger well formed.
pub proof fn lemma_issue_convertible_keeps_wf(
    s: LedgerState,
    issuer_id: [u8; 16],
    security_id: [u8; 16],
    investment_amount: u64,
    stakeholder_id: [u8; 16],
)
    requires
        s.wf(),
    ensures
        s.issue_convertible(issuer_id, security_id, investment_amount, stakeholder_id) matches Ok(
            next,
        ) ==> next.wf(),
{
    if let Ok(next) = s.issue_convertible(issuer_id, security_id, investment_amount, stakeholder_id) {
        lemma_index_of_key(s.stakeholders, stakeholder_id);
        lemma_push_record(s.convertible_positions, next.convertible_positions.last());
        assert(next.keys_are_distinct());
        assert forall|i: int| 0 <= i < next.convertible_positions.len() implies contains_key(
            next.stakeholders,
            (#[trigger] next.convertible_positions[i]).stakeholder_id,
        ) && next.convertible_positions[i].investment_amount > 0 by {
            if i < s.convertible_positions.len() {
                assert(next.convertible_positions[i] == s.convertible_positions[i]);
            }
        }
    }
}

/// Granting equity compensation keeps the ledger well formed.
pub proof fn lemma_issue_equity_compensation_keeps_wf(
    s: LedgerState,
    issuer_id: [u8; 16],
    security_id: [u8; 16],
    quantity: u64,
    stakeholder_id: [u8; 16],
    stock_class_id: [u8; 16],
    stock_plan_id: Option<[u8; 16]>,
)
    requires
        s.wf(),
    ensures
        s.issue_equity_compensation(
            issuer_id,
            security_id,
            quantity,
            stakeholder_id,
            stock_class_id,
            stock_plan_id,
        ) matches Ok(next) ==> next.wf(),
{
    if let Ok(next) = s.issue_equity_compensation(
        issuer_id,
        security_id,
        quantity,
        stakeholder_id,
        stock_class_id,
        stock_plan_id,
    ) {
        lemma_index_of_key(s.stakeholders, stakeholder_id);
        lemma_index_of_key(s.stock_classes, stock_class_id);
        if let Some(plan) = stock_plan_id {
            lemma_index_of_key(s.stock_plans, plan);
        }
        let position = next.equity_compensation_positions.last();
        assert(position.key() == EquityCompensationKey {
            security_id,
            stock_class_id,
            stakeholder_id,
        });
        lemma_push_record(s.equity_compensation_positions, position);
        assert(next.keys_are_distinct());
        assert forall|i: int| 0 <= i < next.equity_compensation_positions.len() implies {
            &&& contains_key(
                next.stakeholders,
                (#[trigger] next.equity_compensation_positions[i]).stakeholder_id,
            )
            &&& contains_key(
                next.stock_classes,
                next.equity_compensation_positions[i].stock_class_id,
            )
            &&& next.equity_compensation_positions[i].stock_plan_id matches Some(plan)
                ==> contains_key(next.stock_plans, plan)
        } by {
            if i < s.equity_compensation_positions.len() {
                assert(next.equity_compensation_positions[i] == s.equity_compensation_positions[i]);
            }
        }
    }
}

/// Exercising a grant keeps the ledger well formed.
pub proof fn lemma_exercise_equity_compensation_keeps_wf(
    s: LedgerState,
    issuer_id: [u8; 16],
    equity_position: EquityCompensationKey,
    stock_position: PositionKey,
    quantity: u64,
)
    requires
        s.wf(),
    ensures
        s.exercise_equity_compensation(issuer_id, equity_position, stock_position, quantity) matches Ok(
            next,
        ) ==> next.wf(),
{
    if let Ok(next) = s.exercise_equity_compensation(
        issuer_id,
        equity_position,
        stock_position,
        quantity,
    ) {
        let at = index_of(s.equity_compensation_positions, equity_position);
        lemma_index_of_key(s.equity_compensation_positions, equity_position);
        lemma_replace_record(
            s.equity_compensation_positions,
            at,
            next.equity_compensation_positions[at],
        );
        assert(next.keys_are_distinct());
        assert forall|i: int| 0 <= i < next.equity_compensation_positions.len() implies {
            &&& contains_key(
                next.stakeholders,
                (#[trigger] next.equity_compensation_positions[i]).stakeholder_id,
            )
            &&& contains_key(
                next.stock_classes,
                next.equity_compensation_positions[i].stock_class_id,
            )
            &&& next.equity_compensation_positions[i].stock_plan_id matches Some(plan)
                ==> contains_key(next.stock_plans, plan)
        } by {
            assert(next.equity_compensation_positions[i].stakeholder_id
                == s.equity_compensation_positions[i].stakeholder_id);
            assert(next.equity_compensation_positions[i].stock_class_id
                == s.equity_compensation_positions[i].stock_class_id);
            assert(next.equity_compensation_positions[i].stock_plan_id
                == s.equity_compensation_positions[i].stock_plan_id);
        }
    }
}

/// Issuing a warrant keeps the ledger well formed.
pub proof fn lemma_issue_warrant_keeps_wf(
    s: LedgerState,
    issuer_id: [u8; 16],
    security_id: [u8; 16],
    quantity: u64,
    stakeholder_id: [u8; 16],
)
    requires
        s.wf(),
    ensures
        s.issue_warrant(issuer_id, security_id, quantity, stakeholder_id) matches Ok(next)
            ==> next.wf(),
{
    if let Ok(next) = s.issue_warrant(issuer_id, security_id, quantity, stakeholder_id) {
        lemma_index_of_key(s.stakeholders, stakeholder_id);
        lemma_push_record(s.warrant_positions, next.warrant_positions.last());
        assert(next.keys_are_distinct());
        assert forall|i: int| 0 <= i < next.warrant_positions.len() implies contains_key(
            next.stakeholders,
            (#[trigger] next.warrant_positions[i]).stakeholder_id,
        ) && next.warrant_positions[i].quantity > 0 by {
            if i < s.warrant_positions.len() {
                assert(next.warrant_positions[i] == s.warrant_positions[i]);
            }
        }
    }
}

/// Whatever the operation and its inputs, carrying it out from a well-formed
/// state gives a well-formed state.
pub proof fn step_keeps_wf(s: LedgerState, instruction: Instruction)
    requires
        s.wf(),
    ensures
        s.step(instruction).wf(),
{
    match instruction {
        Instruction::InitializeIssuer { id, initial_shares_authorized } => {
            lemma_initialize_issuer_keeps_wf(s, id, initial_shares_authorized);
        },
        Instruction::AdjustAuthorizedShares { issuer_id, new_shares_authorized } => {
            lemma_adjust_authorized_shares_keeps_wf(s, issuer_id, new_shares_authorized);
        },
        Instruction::CreateStockClass {
            issuer_id,
            id,
            class_type,
            price_per_share,
            initial_shares_authorized,
        } => {
            lemma_create_stock_class_keeps_wf(
                s,
                issuer_id,
                id,
                class_type,
                price_per_share,
                initial_shares_authorized,
            );
        },
        Instruction::AdjustStockClassShares { issuer_id, stock_class_id, new_shares_authorized } => {
            lemma_adjust_stock_class_shares_keeps_wf(
                s,
                issuer_id,
                stock_class_id,
                new_shares_authorized,
            );
        },
        Instruction::CreateStakeholder { issuer_id, id } => {
            lemma_create_stakeholder_keeps_wf(s, issuer_id, id);
        },
        Instruction::CreateStockPlan { issuer_id, id, stock_class_ids, shares_reserved } => {
            lemma_create_stock_plan_keeps_wf(s, issuer_id, id, stock_class_ids, shares_reserved);
        },
        Instruction::AdjustStockPlanShares { issuer_id, stock_plan_id, new_shares_reserved } => {
            lemma_adjust_stock_plan_shares_keeps_wf(s, issuer_id, stock_plan_id, new_shares_reserved);
        },
        Instruction::IssueStock {
            issuer_id,
            stock_class_id,
            security_id,
            quantity,
            share_price,
            stakeholder_id,
        } => {
            lemma_issue_stock_keeps_wf(
                s,
                issuer_id,
                stock_class_id,
                security_id,
                quantity,
                share_price,
                stakeholder_id,
            );
        },
        Instruction::IssueConvertible {
            issuer_id,
            security_id,
            investment_amount,
            stakeholder_id,
        } => {
            lemma_issue_convertible_keeps_wf(
                s,
                issuer_id,
                security_id,
                investment_amount,
                stakeholder_id,
            );
        },
        Instruction::IssueEquityCompensation {
            issuer_id,
            security_id,
            quantity,
            stakeholder_id,
            stock_class_id,
            stock_plan_id,
        } => {
            lemma_issue_equity_compensation_keeps_wf(
                s,
                issuer_id,
                security_id,
                quantity,
                stakeholder_id,
                stock_class_id,
                stock_plan_id,
            );
        },
        Instruction::ExerciseEquityCompensation {
            issuer_id,
            equity_position,
            stock_position,
            quantity,
        } => {
            lemma_exercise_equity_compensation_keeps_wf(
                s,
                issuer_id,
                equity_position,
                stock_position,
                quantity,
            );
        },
        Instruction::IssueWarrant { issuer_id, security_id, quantity, stakeholder_id } => {
            lemma_issue_warrant_keeps_wf(s, issuer_id, security_id, quantity, stakeholder_id);
        },
    }
}

/// Every state that a run of operations reaches from the empty ledger is
/// well formed, whatever the operations and whichever of them were refused.
pub proof fn every_run_is_well_formed(instructions: Seq<Instruction>)
    ensures
        LedgerState::empty().run(instructions).wf(),
    decreases instructions.len(),
{
    if instructions.len() == 0 {
        assert(LedgerState::empty().wf());
    } else {
        every_run_is_well_formed(instructions.drop_last());
        step_keeps_wf(LedgerState::empty().run(instructions.drop_last()), instructions.last());
    }
}

/// In every state that a run of operations reaches from the empty ledger,
/// the issued counter of each stock class is the sum of the quantities of
/// the stock positions issued against it.
pub proof fn issued_counter_is_sum_of_positions(instructions: Seq<Instruction>, c: int)
    requires
        0 <= c < LedgerState::empty().run(instructions).stock_classes.len(),
    ensures
        ({
            let s = LedgerState::empty().run(instructions);
            s.stock_classes[c].shares_issued == issued_against(
                s.stock_positions,
                s.stock_classes[c].id,
            )
        }),
{
    every_run_is_well_formed(instructions);
}

impl LedgerState {
    /// Whether the operation is accepted and sets the authorized pool of a
    /// stock class below what the stock class has issued.
    pub open spec fn cuts_stock_class_below_issued(self, instruction: Instruction) -> bool {
        &&& self.apply(instruction) is Ok
        &&& instruction matches Instruction::AdjustStockClassShares {
            stock_class_id,
            new_shares_authorized,
            ..
        }
        &&& new_shares_authorized < self.stock_class(stock_class_id).shares_issued
    }

    /// Whether the operation is accepted and sets the authorized pool of an
    /// issuer below what the issuer has issued.
    pub open spec fn cuts_issuer_below_issued(self, instruction: Instruction) -> bool {
        &&& self.apply(instruction) is Ok
        &&& instruction matches Instruction::AdjustAuthorizedShares {
            issuer_id,
            new_shares_authorized,
        }
        &&& new_shares_authorized < self.issuer(issuer_id).shares_issued
    }

    /// Whether the operation is an accepted issuance of stock that takes the
    /// issuer past its authorized pool. Issuance is held against the pool of
    /// the stock class only.
    pub open spec fn issues_past_issuer_pool(self, instruction: Instruction) -> bool {
        &&& self.apply(instruction) is Ok
        &&& instruction matches Instruction::IssueStock { issuer_id, quantity, .. }
        &&& self.issuer(issuer_id).shares_issued + quantity > self.issuer(
            issuer_id,
        ).shares_authorized
    }
}

/// Stock classes that have issued no more than their authorized pools still
/// have not after any operation, unless the operation sets the pool of a
/// stock class below what it has issued.
pub proof fn stock_classes_stay_within_authorized(s: LedgerState, instruction: Instruction)
    requires
        s.wf(),
        s.stock_classes_within_authorized(),
        !s.cuts_stock_class_below_issued(instruction),
    ensures
        s.step(instruction).stock_classes_within_authorized(),
{
    let next = s.step(instruction);
    match instruction {
        Instruction::CreateStockClass { .. } => {
            assert forall|c: int| 0 <= c < next.stock_classes.len() implies (
            #[trigger] next.stock_classes[c]).shares_issued
                <= next.stock_classes[c].shares_authorized by {
                if c < s.stock_classes.len() {
                    assert(next.stock_classes[c] == s.stock_classes[c]);
                }
            }
        },
        Instruction::AdjustStockClassShares { stock_class_id, .. } => {
            if s.apply(instruction) is Ok {
                lemma_index_of_key(s.stock_classes, stock_class_id);
                assert forall|c: int| 0 <= c < next.stock_classes.len() implies (
                #[trigger] next.stock_classes[c]).shares_issued
                    <= next.stock_classes[c].shares_authorized by {
                    if c != index_of(s.stock_classes, stock_class_id) {
                        assert(next.stock_classes[c] == s.stock_classes[c]);
                    }
                }
            }
        },
        Instruction::IssueStock { stock_class_id, .. } => {
            if s.apply(instruction) is Ok {
                lemma_index_of_key(s.stock_classes, stock_class_id);
                assert forall|c: int| 0 <= c < next.stock_classes.len() implies (
                #[trigger] next.stock_classes[c]).shares_issued
                    <= next.stock_classes[c].shares_authorized by {
                    if c != index_of(s.stock_classes, stock_class_id) {
                        assert(next.stock_classes[c] == s.stock_classes[c]);
                    }
                }
            }
        },
        _ => {
            assert(next.stock_classes == s.stock_classes);
        },
    }
}

/// Issuers that have issued no more than their authorized pools still have
/// not after any operation, unless the operation sets the pool of an issuer
/// below what it has issued, or issues stock past the pool of the issuer.
pub proof fn issuers_stay_within_authorized(s: LedgerState, instruction: Instruction)
    requires
        s.wf(),
        s.issuers_within_authorized(),
        !s.cuts_issuer_below_issued(instruction),
        !s.issues_past_issuer_pool(instruction),
    ensures
        s.step(instruction).issuers_within_authorized(),
{
    let next = s.step(instruction);
    match instruction {
        Instruction::InitializeIssuer { .. } => {
            assert forall|i: int| 0 <= i < next.issuers.len() implies (
            #[trigger] next.issuers[i]).shares_issued <= next.issuers[i].shares_authorized by {
                if i < s.issuers.len() {
                    assert(next.issuers[i] == s.issuers[i]);
                }
            }
        },
        Instruction::AdjustAuthorizedShares { issuer_id, .. } => {
            if s.apply(instruction) is Ok {
                lemma_index_of_key(s.issuers, issuer_id);
                assert forall|i: int| 0 <= i < next.issuers.len() implies (
                #[trigger] next.issuers[i]).shares_issued <= next.issuers[i].shares_authorized by {
                    if i != index_of(s.issuers, issuer_id) {
                        assert(next.issuers[i] == s.issuers[i]);
                    }
                }
            }
        },
        Instruction::IssueStock { issuer_id, .. } => {
            if s.apply(instruction) is Ok {
                lemma_index_of_key(s.issuers, issuer_id);
                assert forall|i: int| 0 <= i < next.issuers.len() implies (
                #[trigger] next.issuers[i]).shares_issued <= next.issuers[i].shares_authorized by {
                    if i != index_of(s.issuers, issuer_id) {
                        assert(next.issuers[i] == s.issuers[i]);
                    }
                }
            }
        },
        _ => {
            assert(next.issuers == s.issuers);
        },
    }
}

/// In a well-formed ledger whose stock classes have issued no more than
/// their authorized pools, no issuer has issued more than the authorized
/// pools of the stock classes add up to. So an issuer whose own pool is at
/// least that sum has issued no more than its pool.
pub proof fn issuers_are_bounded_by_stock_class_pools(s: LedgerState, i: int)
    requires
        s.wf(),
        s.stock_classes_within_authorized(),
        0 <= i < s.issuers.len(),
    ensures
        s.issuers[i].shares_issued <= authorized_by_stock_classes(s.stock_classes),
        authorized_by_stock_classes(s.stock_classes) <= s.issuers[i].shares_authorized
            ==> s.issuers[i].shares_issued <= s.issuers[i].shares_authorized,
{
    lemma_total_bounds_item(s.issuers, issuer_issued(), i);
    lemma_total_le(s.stock_classes, stock_class_issued(), stock_class_authorized());
}

/// After any run of operations from the empty ledger in which no pool of a
/// stock class is resized, every stock class has issued no more than its
/// authorized pool.
pub proof fn stock_classes_within_authorized_after_run(instructions: Seq<Instruction>)
    requires
        forall|k: int|
            0 <= k < instructions.len() ==> !(#[trigger] instructions[k] is AdjustStockClassShares),
    ensures
        LedgerState::empty().run(instructions).stock_classes_within_authorized(),
    decreases instructions.len(),
{
    if instructions.len() > 0 {
        let earlier = instructions.drop_last();
        assert forall|k: int| 0 <= k < earlier.len() implies !(
        #[trigger] earlier[k] is AdjustStockClassShares) by {
            assert(earlier[k] == instructions[k]);
        }
        stock_classes_within_authorized_after_run(earlier);
        every_run_is_well_formed(earlier);
        assert(instructions.last() == instructions[instructions.len() - 1]);
        stock_classes_stay_within_authorized(
            LedgerState::empty().run(earlier),
            instructions.last(),
        );
    }
}

/// After any such run, an issuer whose authorized pool is at least the sum
/// of the authorized pools of the stock classes has issued no more than its
/// pool.
pub proof fn issuer_within_authorized_after_run(instructions: Seq<Instruction>, i: int)
    requires
        forall|k: int|
            0 <= k < instructions.len() ==> !(#[trigger] instructions[k] is AdjustStockClassShares),
        0 <= i < LedgerState::empty().run(instructions).issuers.len(),
        authorized_by_stock_classes(LedgerState::empty().run(instructions).stock_classes)
            <= LedgerState::empty().run(instructions).issuers[i].shares_authorized,
    ensures
        LedgerState::empty().run(instructions).issuers[i].shares_issued
            <= LedgerState::empty().run(instructions).issuers[i].shares_authorized,
{
    every_run_is_well_formed(instructions);
    stock_classes_within_authorized_after_run(instructions);
    issuers_are_bounded_by_stock_class_pools(LedgerState::empty().run(instructions), i);
}

} // verus!
