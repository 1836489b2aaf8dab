//! What an operation may and may not do to records that are already stored.
//!
//! Nothing is ever deleted. A stakeholder and an issued position of stock,
//! of a convertible or of a warrant stay as they were created. A grant of
//! equity compensation only shrinks. The event log only grows, by one entry
//! for each operation that is accepted.

use vstd::prelude::*;
use crate::model::{Instruction, LedgerState};
use crate::state::Keyed;
use crate::store::lemma_index_of_key;

verus! {

/// Whether `later` holds, in the same place and under the same key, every
/// record that `earlier` holds.
pub open spec fn keeps_keys<R: Keyed>(earlier: Seq<R>, later: Seq<R>) -> bool {
    &&& earlier.len() <= later.len()
    &&& forall|i: int| 0 <= i < earlier.len() ==> (#[trigger] later[i]).key() == earlier[i].key()
}

/// No operation deletes a record or moves it to another key.
pub proof fn nothing_is_deleted(s: LedgerState, instruction: Instruction)
    requires
        s.wf(),
    ensures
        keeps_keys(s.issuers, s.step(instruction).issuers),
        keeps_keys(s.stock_classes, s.step(instruction).stock_classes),
        keeps_keys(s.stakeholders, s.step(instruction).stakeholders),
        keeps_keys(s.stock_plans, s.step(instruction).stock_plans),
        keeps_keys(s.stock_positions, s.step(instruction).stock_positions),
        keeps_keys(s.convertible_positions, s.step(instruction).convertible_positions),
        keeps_keys(
            s.equity_compensation_positions,
            s.step(instruction).equity_compensation_positions,
        ),
        keeps_keys(s.warrant_positions, s.step(instruction).warrant_positions),
{
    if s.apply(instruction) is Ok {
        match instruction {
            Instruction::AdjustAuthorizedShares { issuer_id, .. } => {
                lemma_index_of_key(s.issuers, issuer_id);
            },
            Instruction::AdjustStockClassShares { stock_class_id, .. } => {
                lemma_index_of_key(s.stock_classes, stock_class_id);
            },
            Instruction::AdjustStockPlanShares { stock_plan_id, .. } => {
                lemma_index_of_key(s.stock_plans, stock_plan_id);
            },
            Instruction::IssueStock { issuer_id, stock_class_id, .. } => {
                lemma_index_of_key(s.issuers, issuer_id);
                lemma_index_of_key(s.stock_classes, stock_class_id);
            },
            Instruction::ExerciseEquityCompensation { equity_position, .. } => {
                lemma_index_of_key(s.equity_compensation_positions, equity_position);
            },
            _ => {},
        }
    }
}

/// Whether `later` is `earlier`, or `earlier` with one more item at the end.
pub open spec fn same_or_one_more<T>(earlier: Seq<T>, later: Seq<T>) -> bool {
    later == earlier || (later.len() == earlier.len() + 1 && later.drop_last() == earlier)
}

/// A sequence that is the same or has one more item starts with the old one.
pub proof fn lemma_same_or_one_more_is_prefix<T>(earlier: Seq<T>, later: Seq<T>)
    requires
        same_or_one_more(earlier, later),
    ensures
        earlier.is_prefix_of(later),
{
    assert(earlier =~= later.subrange(0, earlier.len() as int));
}

/// What an operation does to the tables of stakeholders and positions: each
/// stays as it is or gets one more record, but for the grants, of which an
/// exercise replaces one.
proof fn lemma_step_on_positions(s: LedgerState, instruction: Instruction)
    ensures
        same_or_one_more(s.stakeholders, s.step(instruction).stakeholders),
        same_or_one_more(s.stock_positions, s.step(instruction).stock_positions),
        same_or_one_more(s.convertible_positions, s.step(instruction).convertible_positions),
        same_or_one_more(s.warrant_positions, s.step(instruction).warrant_positions),
        !(instruction is ExerciseEquityCompensation) ==> same_or_one_more(
            s.equity_compensation_positions,
            s.step(instruction).equity_compensation_positions,
        ),
{
    let next = s.step(instruction);
    match instruction {
        Instruction::InitializeIssuer { id, initial_shares_authorized } => {
            assert(s.apply(instruction) == s.initialize_issuer(id, initial_shares_authorized));
        },
        Instruction::AdjustAuthorizedShares { issuer_id, new_shares_authorized } => {
            assert(s.apply(instruction) == s.adjust_authorized_shares(
                issuer_id,
                new_shares_authorized,
            ));
        },
        Instruction::CreateStockClass {
            issuer_id,
            id,
            class_type,
            price_per_share,
            initial_shares_authorized,
        } => {
            assert(s.apply(instruction) == s.create_stock_class(
                issuer_id,
                id,
                class_type,
                price_per_share,
                initial_shares_authorized,
            ));
        },
        Instruction::AdjustStockClassShares { issuer_id, stock_class_id, new_shares_authorized } => {
            assert(s.apply(instruction) == s.adjust_stock_class_shares(
                issuer_id,
                stock_class_id,
                new_shares_authorized,
            ));
        },
        Instruction::CreateStakeholder { issuer_id, id } => {
            assert(s.apply(instruction) == s.create_stakeholder(issuer_id, id));
            if s.apply(instruction) is Ok {
                assert(next.stakeholders.drop_last() =~= s.stakeholders);
            }
        },
        Instruction::CreateStockPlan { issuer_id, id, stock_class_ids, shares_reserved } => {
            assert(s.apply(instruction) == s.create_stock_plan(
                issuer_id,
                id,
                stock_class_ids,
                shares_reserved,
            ));
        },
        Instruction::AdjustStockPlanShares { issuer_id, stock_plan_id, new_shares_reserved } => {
            assert(s.apply(instruction) == s.adjust_stock_plan_shares(
                issuer_id,
                stock_plan_id,
                new_shares_reserved,
            ));
        },
        Instruction::IssueStock {
            issuer_id,
            stock_class_id,
            security_id,
            quantity,
            share_price,
            stakeholder_id,
        } => {
            assert(s.apply(instruction) == s.issue_stock(
                issuer_id,
                stock_class_id,
                security_id,
                quantity,
                share_price,
                stakeholder_id,
            ));
            if s.apply(instruction) is Ok {
                assert(next.stock_positions.drop_last() =~= s.stock_positions);
            }
        },
        Instruction::IssueConvertible {
            issuer_id,
            security_id,
            investment_amount,
            stakeholder_id,
        } => {
            assert(s.apply(instruction) == s.issue_convertible(
                issuer_id,
                security_id,
                investment_amount,
                stakeholder_id,
            ));
            if s.apply(instruction) is Ok {
                assert(next.convertible_positions.drop_last() =~= s.convertible_positions);
            }
        },
        Instruction::IssueEquityCompensation {
            issuer_id,
            security_id,
            quantity,
            stakeholder_id,
            stock_class_id,
            stock_plan_id,
        } => {
            assert(s.apply(instruction) == s.issue_equity_compensation(
                issuer_id,
                security_id,
                quantity,
                stakeholder_id,
                stock_class_id,
                stock_plan_id,
            ));
            if s.apply(instruction) is Ok {
                assert(next.equity_compensation_positions.drop_last()
                    =~= s.equity_compensation_positions);
            }
        },
        Instruction::ExerciseEquityCompensation {
            issuer_id,
            equity_position,
            stock_position,
            quantity,
        } => {
            assert(s.apply(instruction) == s.exercise_equity_compensation(
                issuer_id,
                equity_position,
                stock_position,
                quantity,
            ));
        },
        Instruction::IssueWarrant { issuer_id, security_id, quantity, stakeholder_id } => {
            assert(s.apply(instruction) == s.issue_warrant(
                issuer_id,
                security_id,
                quantity,
                stakeholder_id,
            ));
            if s.apply(instruction) is Ok {
                assert(next.warrant_positions.drop_last() =~= s.warrant_positions);
            }
        },
    }
}

/// A stakeholder and an issued position of stock, of a convertible or of a
/// warrant stay exactly as they were created, whatever operation follows.
pub proof fn issued_positions_are_immutable(s: LedgerState, instruction: Instruction)
    ensures
        s.stakeholders.is_prefix_of(s.step(instruction).stakeholders),
        s.stock_positions.is_prefix_of(s.step(instruction).stock_positions),
        s.convertible_positions.is_prefix_of(s.step(instruction).convertible_positions),
        s.warrant_positions.is_prefix_of(s.step(instruction).warrant_positions),
{
    let next = s.step(instruction);
    lemma_step_on_positions(s, instruction);
    lemma_same_or_one_more_is_prefix(s.stakeholders, next.stakeholders);
    lemma_same_or_one_more_is_prefix(s.stock_positions, next.stock_positions);
    lemma_same_or_one_more_is_prefix(s.convertible_positions, next.convertible_positions);
    lemma_same_or_one_more_is_prefix(s.warrant_positions, next.warrant_positions);
}

/// A grant of equity compensation never grows, and an operation changes
/// nothing of it but the quantity that is left.
pub proof fn grants_only_shrink(s: LedgerState, instruction: Instruction, k: int)
    requires
        s.wf(),
        0 <= k < s.equity_compensation_positions.len(),
    ensures
        k < s.step(instruction).equity_compensation_positions.len(),
        s.step(instruction).equity_compensation_positions[k].quantity
            <= s.equity_compensation_positions[k].quantity,
        s.step(instruction).equity_compensation_positions[k].stakeholder_id
            == s.equity_compensation_positions[k].stakeholder_id,
        s.step(instruction).equity_compensation_positions[k].stock_class_id
            == s.equity_compensation_positions[k].stock_class_id,
        s.step(instruction).equity_compensation_positions[k].stock_plan_id
            == s.equity_compensation_positions[k].stock_plan_id,
        s.step(instruction).equity_compensation_positions[k].security_id
            == s.equity_compensation_positions[k].security_id,
{
    let next = s.step(instruction);
    match instruction {
        Instruction::ExerciseEquityCompensation {
            issuer_id,
            equity_position,
            stock_position,
            quantity,
        } => {
            assert(s.apply(instruction) == s.exercise_equity_compensation(
                issuer_id,
                equity_position,
                stock_position,
                quantity,
            ));
            if s.apply(instruction) is Ok {
                lemma_index_of_key(s.equity_compensation_positions, equity_position);
            }
        },
        _ => {
            lemma_step_on_positions(s, instruction);
            lemma_same_or_one_more_is_prefix(
                s.equity_compensation_positions,
                next.equity_compensation_positions,
            );
        },
    }
}

/// Only the resizing of a pool changes the size of the pool, and only the
/// issuance of stock changes a counter of issued shares.
pub proof fn pools_and_counters_change_by_their_own_operations(
    s: LedgerState,
    instruction: Instruction,
    k: int,
)
    requires
        s.wf(),
    ensures
        0 <= k < s.issuers.len() && !(instruction is AdjustAuthorizedShares) ==> s.step(
            instruction,
        ).issuers[k].shares_authorized == s.issuers[k].shares_authorized,
        0 <= k < s.issuers.len() && !(instruction is IssueStock) ==> s.step(
            instruction,
        ).issuers[k].shares_issued == s.issuers[k].shares_issued,
        0 <= k < s.stock_classes.len() && !(instruction is AdjustStockClassShares) ==> s.step(
            instruction,
        ).stock_classes[k].shares_authorized == s.stock_classes[k].shares_authorized,
        0 <= k < s.stock_classes.len() && !(instruction is IssueStock) ==> s.step(
            instruction,
        ).stock_classes[k].shares_issued == s.stock_classes[k].shares_issued,
        0 <= k < s.stock_plans.len() && !(instruction is AdjustStockPlanShares) ==> s.step(
            instruction,
        ).stock_plans[k].shares_reserved == s.stock_plans[k].shares_reserved,
        0 <= k < s.stock_plans.len() ==> s.step(instruction).stock_plans[k].stock_class_ids
            == s.stock_plans[k].stock_class_ids,
{
    if s.apply(instruction) is Ok {
        match instruction {
            Instruction::AdjustAuthorizedShares { issuer_id, .. } => {
                lemma_index_of_key(s.issuers, issuer_id);
            },
            Instruction::AdjustStockClassShares { stock_class_id, .. } => {
                lemma_index_of_key(s.stock_classes, stock_class_id);
            },
            Instruction::AdjustStockPlanShares { stock_plan_id, .. } => {
                lemma_index_of_key(s.stock_plans, stock_plan_id);
            },
            Instruction::IssueStock { issuer_id, stock_class_id, .. } => {
                lemma_index_of_key(s.issuers, issuer_id);
                lemma_index_of_key(s.stock_classes, stock_class_id);
            },
            _ => {},
        }
    }
}

/// The event log is only appended to: an operation that is accepted adds
/// exactly one entry, in the scope of the issuer it names, and an operation
/// that is refused adds none.
pub proof fn every_success_logs_one_event(s: LedgerState, instruction: Instruction)
    ensures
        s.apply(instruction) matches Ok(next) ==> next.events.len() == s.events.len() + 1
            && next.events.drop_last() == s.events && next.events.last().issuer_id
            == instruction.scope(),
        s.apply(instruction) is Err ==> s.step(instruction).events == s.events,
{
    if let Ok(next) = s.apply(instruction) {
        assert(next.events.drop_last() =~= s.events);
    }
}

} // verus!
