use ocp_solana::errors::{
    ConvertibleError, EquityCompensationError, IssuerError, StockClassError, StockError,
    StockPlanError, WarrantError,
};
use ocp_solana::events::{
    EquityCompensationExercised, Event, IssuerInitialized, StockIssued, TxType,
};
use ocp_solana::ledger::Ledger;
use ocp_solana::model::{Instruction, LedgerError, LogEntry, RecordKind};
use ocp_solana::state::{
    ConvertibleActivePosition, EquityCompensationActivePosition, EquityCompensationKey, Issuer,
    PositionKey, Stakeholder, StockActivePosition, StockClass, StockPlan, WarrantActivePosition,
};

const I1: [u8; 16] = [0x11; 16];
const I2: [u8; 16] = [0x12; 16];
const C1: [u8; 16] = [0xc1; 16];
const C2: [u8; 16] = [0xc2; 16];
const S1: [u8; 16] = [0x51; 16];
const S2: [u8; 16] = [0x52; 16];
const PLAN: [u8; 16] = [0xa1; 16];
const SEC1: [u8; 16] = [0xe1; 16];
const SEC2: [u8; 16] = [0xe2; 16];
const SEC3: [u8; 16] = [0xe3; 16];

fn common() -> String {
    String::from("COMMON")
}

fn seeded() -> Ledger {
    let mut ledger = Ledger::new();
    assert_eq!(ledger.initialize_issuer(I1, 1000), Ok(()));
    assert_eq!(ledger.create_stock_class(I1, C1, common(), 10, 500), Ok(()));
    assert_eq!(ledger.create_stakeholder(I1, S1), Ok(()));
    ledger
}

fn stock_key(stakeholder_id: [u8; 16], security_id: [u8; 16]) -> PositionKey {
    PositionKey { stakeholder_id, security_id }
}

fn grant_key(security_id: [u8; 16]) -> EquityCompensationKey {
    EquityCompensationKey { security_id, stock_class_id: C1, stakeholder_id: S1 }
}

fn issued(ledger: &Ledger, stock_class_id: [u8; 16]) -> u64 {
    ledger.stock_class(&stock_class_id).unwrap().shares_issued
}

#[test]
fn new_ledger_holds_nothing() {
    let ledger = Ledger::new();
    assert_eq!(ledger.issuer(&I1), None);
    assert_eq!(ledger.stock_class(&C1), None);
    assert_eq!(ledger.stakeholder(&S1), None);
    assert_eq!(ledger.stock_plan(&PLAN), None);
    assert_eq!(ledger.stock_position(&stock_key(S1, SEC1)), None);
    assert_eq!(ledger.convertible_position(&stock_key(S1, SEC1)), None);
    assert_eq!(ledger.equity_compensation_position(&grant_key(SEC1)), None);
    assert_eq!(ledger.warrant_position(&stock_key(S1, SEC1)), None);
    assert!(ledger.events().is_empty());
}

#[test]
fn issue_within_then_past_the_class_pool() {
    let mut ledger = seeded();
    assert_eq!(ledger.issue_stock(I1, C1, SEC1, 200, 10, S1), Ok(()));
    assert_eq!(issued(&ledger, C1), 200);
    assert_eq!(ledger.issuer(&I1).unwrap().shares_issued, 200);
    assert_eq!(
        ledger.issue_stock(I1, C1, SEC2, 400, 10, S1),
        Err(LedgerError::Stock(StockError::InsufficientShares))
    );
    assert_eq!(issued(&ledger, C1), 200);
    assert_eq!(ledger.issuer(&I1).unwrap().shares_issued, 200);
    assert_eq!(ledger.stock_position(&stock_key(S1, SEC2)), None);
    assert_eq!(
        ledger.stock_position(&stock_key(S1, SEC1)),
        Some(&StockActivePosition {
            stakeholder_id: S1,
            stock_class_id: C1,
            security_id: SEC1,
            quantity: 200,
            share_price: 10,
        })
    );
    assert_eq!(ledger.events().len(), 4);
}

#[test]
fn stock_plan_needs_a_class() {
    let mut ledger = seeded();
    assert_eq!(
        ledger.create_stock_plan(I1, PLAN, vec![], 300),
        Err(LedgerError::StockPlan(StockPlanError::InvalidStockClassCount))
    );
    assert_eq!(ledger.stock_plan(&PLAN), None);
    assert_eq!(ledger.create_stock_plan(I1, PLAN, vec![C1], 300), Ok(()));
    assert_eq!(
        ledger.stock_plan(&PLAN),
        Some(&StockPlan { id: PLAN, stock_class_ids: vec![C1], shares_reserved: 300 })
    );
}

#[test]
fn grant_then_exercise() {
    let mut ledger = seeded();
    assert_eq!(ledger.issue_equity_compensation(I1, SEC1, 50, S1, C1, None), Ok(()));
    assert_eq!(ledger.issue_stock(I1, C1, SEC2, 60, 10, S1), Ok(()));
    assert_eq!(
        ledger.exercise_equity_compensation(I1, grant_key(SEC1), stock_key(S1, SEC2), 60),
        Err(LedgerError::EquityCompensation(EquityCompensationError::InsufficientShares))
    );
    assert_eq!(ledger.equity_compensation_position(&grant_key(SEC1)).unwrap().quantity, 50);
    assert_eq!(ledger.issue_stock(I1, C1, SEC3, 50, 10, S1), Ok(()));
    assert_eq!(
        ledger.exercise_equity_compensation(I1, grant_key(SEC1), stock_key(S1, SEC3), 50),
        Ok(())
    );
    assert_eq!(
        ledger.equity_compensation_position(&grant_key(SEC1)),
        Some(&EquityCompensationActivePosition {
            stakeholder_id: S1,
            stock_class_id: C1,
            stock_plan_id: None,
            security_id: SEC1,
            quantity: 0,
        })
    );
    assert_eq!(ledger.stock_position(&stock_key(S1, SEC3)).unwrap().quantity, 50);
    assert_eq!(
        ledger.events().last(),
        Some(&LogEntry {
            issuer_id: I1,
            event: Event::EquityCompensationExercised(EquityCompensationExercised {
                equity_comp_security_id: SEC1,
                resulting_stock_security_id: SEC3,
                quantity: 50,
            }),
        })
    );
    assert_eq!(
        ledger.exercise_equity_compensation(I1, grant_key(SEC1), stock_key(S1, SEC3), 50),
        Err(LedgerError::EquityCompensation(EquityCompensationError::InsufficientShares))
    );
    assert_eq!(ledger.equity_compensation_position(&grant_key(SEC1)).unwrap().quantity, 0);
}

#[test]
fn initialize_issuer_twice_is_refused() {
    let mut ledger = Ledger::new();
    assert_eq!(ledger.initialize_issuer(I1, 1000), Ok(()));
    assert_eq!(
        ledger.initialize_issuer(I1, 2000),
        Err(LedgerError::Issuer(IssuerError::AlreadyInitialized))
    );
    assert_eq!(
        ledger.issuer(&I1),
        Some(&Issuer { id: I1, shares_issued: 0, shares_authorized: 1000 })
    );
    assert_eq!(ledger.events().len(), 1);
    assert_eq!(
        ledger.events()[0],
        LogEntry {
            issuer_id: I1,
            event: Event::IssuerInitialized(IssuerInitialized {
                id: I1,
                initial_shares_authorized: 1000,
            }),
        }
    );
}

#[test]
fn initialize_issuer_with_an_empty_pool_still_counts_as_initialized() {
    let mut ledger = Ledger::new();
    assert_eq!(ledger.initialize_issuer(I1, 0), Ok(()));
    assert_eq!(
        ledger.initialize_issuer(I1, 5),
        Err(LedgerError::Issuer(IssuerError::AlreadyInitialized))
    );
    assert_eq!(ledger.issuer(&I1).unwrap().shares_authorized, 0);
}

#[test]
fn issuers_are_kept_apart() {
    let mut ledger = seeded();
    assert_eq!(ledger.initialize_issuer(I2, 77), Ok(()));
    assert_eq!(ledger.adjust_authorized_shares(I2, 78), Ok(()));
    assert_eq!(ledger.issuer(&I1).unwrap().shares_authorized, 1000);
    assert_eq!(ledger.issuer(&I2).unwrap().shares_authorized, 78);
}

#[test]
fn adjustments_overwrite_without_a_floor() {
    let mut ledger = seeded();
    assert_eq!(ledger.issue_stock(I1, C1, SEC1, 200, 10, S1), Ok(()));
    assert_eq!(ledger.adjust_authorized_shares(I1, 100), Ok(()));
    assert_eq!(
        ledger.issuer(&I1),
        Some(&Issuer { id: I1, shares_issued: 200, shares_authorized: 100 })
    );
    assert_eq!(ledger.adjust_stock_class_shares(I1, C1, 150), Ok(()));
    assert_eq!(
        ledger.stock_class(&C1),
        Some(&StockClass {
            id: C1,
            class_type: common(),
            price_per_share: 10,
            shares_issued: 200,
            shares_authorized: 150,
        })
    );
    assert_eq!(
        ledger.issue_stock(I1, C1, SEC2, 1, 10, S1),
        Err(LedgerError::Stock(StockError::InsufficientShares))
    );
    assert_eq!(ledger.adjust_stock_class_shares(I1, C1, 201), Ok(()));
    assert_eq!(ledger.issue_stock(I1, C1, SEC2, 1, 10, S1), Ok(()));
    assert_eq!(issued(&ledger, C1), 201);
}

#[test]
fn adjusting_twice_to_the_same_value_logs_twice() {
    let mut ledger = seeded();
    let before = ledger.events().len();
    assert_eq!(ledger.adjust_authorized_shares(I1, 900), Ok(()));
    assert_eq!(ledger.adjust_authorized_shares(I1, 900), Ok(()));
    assert_eq!(ledger.events().len(), before + 2);
    assert_eq!(ledger.issuer(&I1).unwrap().shares_authorized, 900);
}

#[test]
fn adjust_stock_plan_shares_keeps_the_list() {
    let mut ledger = seeded();
    assert_eq!(ledger.create_stock_class(I1, C2, common(), 10, 500), Ok(()));
    assert_eq!(ledger.create_stock_plan(I1, PLAN, vec![C2, C1], 300), Ok(()));
    assert_eq!(ledger.adjust_stock_plan_shares(I1, PLAN, 40), Ok(()));
    assert_eq!(
        ledger.stock_plan(&PLAN),
        Some(&StockPlan { id: PLAN, stock_class_ids: vec![C2, C1], shares_reserved: 40 })
    );
}

#[test]
fn operations_on_missing_records_are_refused() {
    let mut ledger = seeded();
    let missing = |kind| Err(LedgerError::NotFound(kind));
    assert_eq!(ledger.adjust_authorized_shares(I2, 1), missing(RecordKind::Issuer));
    assert_eq!(ledger.create_stock_class(I2, C2, common(), 1, 1), missing(RecordKind::Issuer));
    assert_eq!(ledger.adjust_stock_class_shares(I2, C1, 1), missing(RecordKind::Issuer));
    assert_eq!(ledger.adjust_stock_class_shares(I1, C2, 1), missing(RecordKind::StockClass));
    assert_eq!(ledger.create_stakeholder(I2, S2), missing(RecordKind::Issuer));
    assert_eq!(ledger.create_stock_plan(I2, PLAN, vec![C1], 1), missing(RecordKind::Issuer));
    assert_eq!(ledger.create_stock_plan(I1, PLAN, vec![C1, C2], 1), missing(RecordKind::StockClass));
    assert_eq!(ledger.adjust_stock_plan_shares(I1, PLAN, 1), missing(RecordKind::StockPlan));
    assert_eq!(ledger.issue_stock(I1, C2, SEC1, 1, 1, S1), missing(RecordKind::StockClass));
    assert_eq!(ledger.issue_stock(I2, C1, SEC1, 1, 1, S1), missing(RecordKind::Issuer));
    assert_eq!(ledger.issue_stock(I1, C1, SEC1, 1, 1, S2), missing(RecordKind::Stakeholder));
    assert_eq!(ledger.issue_convertible(I2, SEC1, 1, S1), missing(RecordKind::Issuer));
    assert_eq!(ledger.issue_convertible(I1, SEC1, 1, S2), missing(RecordKind::Stakeholder));
    assert_eq!(
        ledger.issue_equity_compensation(I1, SEC1, 1, S1, C2, None),
        missing(RecordKind::StockClass)
    );
    assert_eq!(
        ledger.issue_equity_compensation(I1, SEC1, 1, S1, C1, Some(PLAN)),
        missing(RecordKind::StockPlan)
    );
    assert_eq!(
        ledger.exercise_equity_compensation(I1, grant_key(SEC1), stock_key(S1, SEC2), 1),
        missing(RecordKind::EquityCompensationPosition)
    );
    assert_eq!(ledger.issue_warrant(I1, SEC1, 1, S2), missing(RecordKind::Stakeholder));
    assert_eq!(ledger.events().len(), 3);
}

#[test]
fn exercise_needs_the_stock_position_to_exist() {
    let mut ledger = seeded();
    assert_eq!(ledger.issue_equity_compensation(I1, SEC1, 50, S1, C1, None), Ok(()));
    assert_eq!(
        ledger.exercise_equity_compensation(I1, grant_key(SEC1), stock_key(S1, SEC2), 50),
        Err(LedgerError::NotFound(RecordKind::StockPosition))
    );
    assert_eq!(ledger.equity_compensation_position(&grant_key(SEC1)).unwrap().quantity, 50);
}

#[test]
fn creating_twice_under_one_key_is_refused() {
    let mut ledger = seeded();
    let taken = |kind| Err(LedgerError::AlreadyExists(kind));
    assert_eq!(ledger.create_stock_class(I1, C1, common(), 1, 1), taken(RecordKind::StockClass));
    assert_eq!(ledger.create_stakeholder(I1, S1), taken(RecordKind::Stakeholder));
    assert_eq!(ledger.create_stock_plan(I1, PLAN, vec![C1], 5), Ok(()));
    assert_eq!(ledger.create_stock_plan(I1, PLAN, vec![C1], 6), taken(RecordKind::StockPlan));
    assert_eq!(ledger.issue_stock(I1, C1, SEC1, 5, 1, S1), Ok(()));
    assert_eq!(ledger.issue_stock(I1, C1, SEC1, 6, 1, S1), taken(RecordKind::StockPosition));
    assert_eq!(ledger.issue_convertible(I1, SEC1, 5, S1), Ok(()));
    assert_eq!(
        ledger.issue_convertible(I1, SEC1, 6, S1),
        taken(RecordKind::ConvertiblePosition)
    );
    assert_eq!(ledger.issue_equity_compensation(I1, SEC1, 5, S1, C1, Some(PLAN)), Ok(()));
    assert_eq!(
        ledger.issue_equity_compensation(I1, SEC1, 6, S1, C1, None),
        taken(RecordKind::EquityCompensationPosition)
    );
    assert_eq!(ledger.issue_warrant(I1, SEC1, 5, S1), Ok(()));
    assert_eq!(ledger.issue_warrant(I1, SEC1, 6, S1), taken(RecordKind::WarrantPosition));
    assert_eq!(ledger.stock_plan(&PLAN).unwrap().shares_reserved, 5);
    assert_eq!(ledger.stock_position(&stock_key(S1, SEC1)).unwrap().quantity, 5);
    assert_eq!(issued(&ledger, C1), 5);
    assert_eq!(
        ledger.convertible_position(&stock_key(S1, SEC1)),
        Some(&ConvertibleActivePosition {
            stakeholder_id: S1,
            security_id: SEC1,
            investment_amount: 5,
        })
    );
    assert_eq!(
        ledger.equity_compensation_position(&grant_key(SEC1)).unwrap().stock_plan_id,
        Some(PLAN)
    );
    assert_eq!(
        ledger.warrant_position(&stock_key(S1, SEC1)),
        Some(&WarrantActivePosition { stakeholder_id: S1, security_id: SEC1, quantity: 5 })
    );
}

#[test]
fn one_security_may_be_held_by_two_stakeholders() {
    let mut ledger = seeded();
    assert_eq!(ledger.create_stakeholder(I1, S2), Ok(()));
    assert_eq!(ledger.issue_stock(I1, C1, SEC1, 5, 1, S1), Ok(()));
    assert_eq!(ledger.issue_stock(I1, C1, SEC1, 7, 1, S2), Ok(()));
    assert_eq!(ledger.stock_position(&stock_key(S1, SEC1)).unwrap().quantity, 5);
    assert_eq!(ledger.stock_position(&stock_key(S2, SEC1)).unwrap().quantity, 7);
    assert_eq!(issued(&ledger, C1), 12);
}

#[test]
fn validation_failures_leave_the_ledger_alone() {
    let mut ledger = seeded();
    assert_eq!(
        ledger.create_stock_class(I1, C2, common(), 1, 0),
        Err(LedgerError::StockClass(StockClassError::SharesAuthorizedCannotBeZero))
    );
    assert_eq!(
        ledger.issue_stock(I1, C1, SEC1, 0, 10, S1),
        Err(LedgerError::Stock(StockError::InvalidQuantity))
    );
    assert_eq!(
        ledger.issue_stock(I1, C1, SEC1, 10, 0, S1),
        Err(LedgerError::Stock(StockError::InvalidSharePrice))
    );
    assert_eq!(
        ledger.issue_stock(I1, C1, SEC1, 501, 10, S1),
        Err(LedgerError::Stock(StockError::InsufficientShares))
    );
    assert_eq!(
        ledger.issue_convertible(I1, SEC1, 0, S1),
        Err(LedgerError::Convertible(ConvertibleError::InvalidAmount))
    );
    assert_eq!(
        ledger.issue_equity_compensation(I1, SEC1, 0, S1, C1, None),
        Err(LedgerError::EquityCompensation(EquityCompensationError::InvalidQuantity))
    );
    assert_eq!(
        ledger.issue_warrant(I1, SEC1, 0, S1),
        Err(LedgerError::Warrant(WarrantError::InvalidQuantity))
    );
    assert_eq!(ledger.stock_class(&C2), None);
    assert_eq!(ledger.stock_position(&stock_key(S1, SEC1)), None);
    assert_eq!(ledger.convertible_position(&stock_key(S1, SEC1)), None);
    assert_eq!(ledger.equity_compensation_position(&grant_key(SEC1)), None);
    assert_eq!(ledger.warrant_position(&stock_key(S1, SEC1)), None);
    assert_eq!(issued(&ledger, C1), 0);
    assert_eq!(ledger.issuer(&I1).unwrap().shares_issued, 0);
    assert_eq!(ledger.events().len(), 3);
    assert_eq!(ledger.stakeholder(&S1), Some(&Stakeholder { id: S1 }));
}

#[test]
fn a_failed_grant_under_a_plan_leaves_the_plan_alone() {
    let mut ledger = seeded();
    assert_eq!(ledger.create_stock_plan(I1, PLAN, vec![C1], 300), Ok(()));
    assert_eq!(
        ledger.issue_equity_compensation(I1, SEC1, 0, S1, C1, Some(PLAN)),
        Err(LedgerError::EquityCompensation(EquityCompensationError::InvalidQuantity))
    );
    assert_eq!(
        ledger.stock_plan(&PLAN),
        Some(&StockPlan { id: PLAN, stock_class_ids: vec![C1], shares_reserved: 300 })
    );
    assert_eq!(ledger.issue_equity_compensation(I1, SEC1, 9, S1, C1, Some(PLAN)), Ok(()));
    assert_eq!(
        ledger.stock_plan(&PLAN),
        Some(&StockPlan { id: PLAN, stock_class_ids: vec![C1], shares_reserved: 300 })
    );
}

#[test]
fn issuing_exactly_to_the_pool_succeeds() {
    let mut ledger = seeded();
    assert_eq!(ledger.issue_stock(I1, C1, SEC1, 200, 10, S1), Ok(()));
    assert_eq!(ledger.issue_stock(I1, C1, SEC2, 300, 10, S1), Ok(()));
    assert_eq!(issued(&ledger, C1), 500);
    assert_eq!(
        ledger.issue_stock(I1, C1, SEC3, 1, 10, S1),
        Err(LedgerError::Stock(StockError::InsufficientShares))
    );
}

#[test]
fn the_issuer_pool_does_not_limit_issuance() {
    let mut ledger = Ledger::new();
    assert_eq!(ledger.initialize_issuer(I1, 100), Ok(()));
    assert_eq!(ledger.create_stock_class(I1, C1, common(), 10, 500), Ok(()));
    assert_eq!(ledger.create_stakeholder(I1, S1), Ok(()));
    assert_eq!(ledger.issue_stock(I1, C1, SEC1, 200, 10, S1), Ok(()));
    assert_eq!(
        ledger.issuer(&I1),
        Some(&Issuer { id: I1, shares_issued: 200, shares_authorized: 100 })
    );
}

#[test]
fn stock_issuance_is_logged_with_its_payload() {
    let mut ledger = seeded();
    assert_eq!(ledger.issue_stock(I1, C1, SEC1, 200, 10, S1), Ok(()));
    let entry = ledger.events().last().unwrap();
    assert_eq!(
        entry,
        &LogEntry {
            issuer_id: I1,
            event: Event::StockIssued(StockIssued {
                stock_class_id: C1,
                security_id: SEC1,
                stakeholder_id: S1,
                quantity: 200,
                share_price: 10,
                issuer_id: I1,
            }),
        }
    );
    let tx = entry.to_tx().unwrap();
    assert_eq!(tx.tx_type, TxType::StockIssuance);
    assert_eq!(tx.issuer_id, I1);
    assert_eq!(tx.tx_data.len(), 80);
    assert_eq!(&tx.tx_data[48..56], &[200, 0, 0, 0, 0, 0, 0, 0]);
}

#[test]
fn every_success_logs_exactly_one_event() {
    let mut ledger = Ledger::new();
    let steps = vec![
        Instruction::InitializeIssuer { id: I1, initial_shares_authorized: 1000 },
        Instruction::AdjustAuthorizedShares { issuer_id: I1, new_shares_authorized: 2000 },
        Instruction::CreateStockClass {
            issuer_id: I1,
            id: C1,
            class_type: common(),
            price_per_share: 10,
            initial_shares_authorized: 500,
        },
        Instruction::AdjustStockClassShares {
            issuer_id: I1,
            stock_class_id: C1,
            new_shares_authorized: 600,
        },
        Instruction::CreateStakeholder { issuer_id: I1, id: S1 },
        Instruction::CreateStockPlan {
            issuer_id: I1,
            id: PLAN,
            stock_class_ids: vec![C1],
            shares_reserved: 100,
        },
        Instruction::AdjustStockPlanShares {
            issuer_id: I1,
            stock_plan_id: PLAN,
            new_shares_reserved: 150,
        },
        Instruction::IssueStock {
            issuer_id: I1,
            stock_class_id: C1,
            security_id: SEC1,
            quantity: 40,
            share_price: 10,
            stakeholder_id: S1,
        },
        Instruction::IssueConvertible {
            issuer_id: I1,
            security_id: SEC1,
            investment_amount: 5000,
            stakeholder_id: S1,
        },
        Instruction::IssueEquityCompensation {
            issuer_id: I1,
            security_id: SEC2,
            quantity: 40,
            stakeholder_id: S1,
            stock_class_id: C1,
            stock_plan_id: Some(PLAN),
        },
        Instruction::ExerciseEquityCompensation {
            issuer_id: I1,
            equity_position: grant_key(SEC2),
            stock_position: stock_key(S1, SEC1),
            quantity: 40,
        },
        Instruction::IssueWarrant {
            issuer_id: I1,
            security_id: SEC1,
            quantity: 3,
            stakeholder_id: S1,
        },
    ];
    let mut done = 0;
    for step in steps {
        assert_eq!(ledger.execute(step), Ok(()));
        done += 1;
        assert_eq!(ledger.events().len(), done);
    }
    let kinds: Vec<Option<TxType>> = ledger.events().iter().map(|e| e.event.tx_type()).collect();
    assert_eq!(
        kinds,
        vec![
            None,
            Some(TxType::IssuerAuthorizedSharesAdjustment),
            None,
            Some(TxType::StockClassAuthorizedSharesAdjustment),
            None,
            None,
            Some(TxType::StockPlanPoolAdjustment),
            Some(TxType::StockIssuance),
            Some(TxType::ConvertibleIssuance),
            Some(TxType::EquityCompensationIssuance),
            Some(TxType::EquityCompensationExercise),
            Some(TxType::WarrantIssuance),
        ]
    );
    assert!(ledger.events().iter().all(|e| e.issuer_id == I1));
    assert_eq!(ledger.equity_compensation_position(&grant_key(SEC2)).unwrap().quantity, 0);
}

#[test]
fn refused_instructions_log_nothing() {
    let mut ledger = seeded();
    let refused = Instruction::IssueStock {
        issuer_id: I1,
        stock_class_id: C1,
        security_id: SEC1,
        quantity: 0,
        share_price: 10,
        stakeholder_id: S1,
    };
    assert_eq!(ledger.execute(refused), Err(LedgerError::Stock(StockError::InvalidQuantity)));
    assert_eq!(ledger.events().len(), 3);
}

#[test]
fn counters_equal_the_sum_of_positions_after_a_run() {
    let mut ledger = Ledger::new();
    assert_eq!(ledger.initialize_issuer(I1, 10_000), Ok(()));
    assert_eq!(ledger.create_stock_class(I1, C1, common(), 10, 500), Ok(()));
    assert_eq!(ledger.create_stock_class(I1, C2, common(), 10, 300), Ok(()));
    assert_eq!(ledger.create_stakeholder(I1, S1), Ok(()));
    assert_eq!(ledger.create_stakeholder(I1, S2), Ok(()));
    let mut sum_c1 = 0u64;
    let mut sum_c2 = 0u64;
    let mut state = 0x2545_f491_4f6c_dd1du64;
    for round in 0..200u8 {
        state ^= state << 13;
        state ^= state >> 7;
        state ^= state << 17;
        let quantity = state % 40;
        let to_c1 = state & 0x100 == 0;
        let holder = if state & 0x200 == 0 { S1 } else { S2 };
        let class = if to_c1 { C1 } else { C2 };
        let mut security = [0u8; 16];
        security[0] = round;
        let before_class = issued(&ledger, class);
        let before_issuer = ledger.issuer(&I1).unwrap().shares_issued;
        match ledger.issue_stock(I1, class, security, quantity, 10, holder) {
            Ok(()) => {
                assert!(quantity > 0);
                if to_c1 {
                    sum_c1 += quantity;
                } else {
                    sum_c2 += quantity;
                }
                assert_eq!(
                    ledger.stock_position(&stock_key(holder, security)).unwrap().quantity,
                    quantity
                );
            }
            Err(LedgerError::Stock(StockError::InvalidQuantity)) => assert_eq!(quantity, 0),
            Err(LedgerError::Stock(StockError::InsufficientShares)) => {
                let pool = ledger.stock_class(&class).unwrap().shares_authorized;
                assert!(before_class + quantity > pool);
                assert_eq!(issued(&ledger, class), before_class);
                assert_eq!(ledger.issuer(&I1).unwrap().shares_issued, before_issuer);
            }
            Err(other) => panic!("refused for {:?}", other),
        }
        assert_eq!(issued(&ledger, C1), sum_c1);
        assert_eq!(issued(&ledger, C2), sum_c2);
        assert_eq!(ledger.issuer(&I1).unwrap().shares_issued, sum_c1 + sum_c2);
        assert!(issued(&ledger, C1) <= 500);
        assert!(issued(&ledger, C2) <= 300);
        assert!(ledger.issuer(&I1).unwrap().shares_issued <= 10_000);
    }
    assert!(sum_c1 > 0 && sum_c2 > 0);
}

#[test]
fn stored_positions_and_stakeholders_never_change() {
    let mut ledger = seeded();
    assert_eq!(ledger.issue_stock(I1, C1, SEC1, 50, 10, S1), Ok(()));
    assert_eq!(ledger.issue_convertible(I1, SEC1, 900, S1), Ok(()));
    assert_eq!(ledger.issue_warrant(I1, SEC1, 8, S1), Ok(()));
    assert_eq!(ledger.issue_equity_compensation(I1, SEC1, 50, S1, C1, None), Ok(()));
    let stock = *ledger.stock_position(&stock_key(S1, SEC1)).unwrap();
    let convertible = *ledger.convertible_position(&stock_key(S1, SEC1)).unwrap();
    let warrant = *ledger.warrant_position(&stock_key(S1, SEC1)).unwrap();
    assert_eq!(ledger.create_stakeholder(I1, S2), Ok(()));
    assert_eq!(ledger.create_stock_class(I1, C2, common(), 1, 70), Ok(()));
    assert_eq!(ledger.create_stock_plan(I1, PLAN, vec![C1, C2], 10), Ok(()));
    assert_eq!(ledger.adjust_authorized_shares(I1, 5), Ok(()));
    assert_eq!(ledger.adjust_stock_class_shares(I1, C1, 5000), Ok(()));
    assert_eq!(ledger.adjust_stock_plan_shares(I1, PLAN, 11), Ok(()));
    assert_eq!(ledger.issue_stock(I1, C1, SEC2, 60, 10, S2), Ok(()));
    assert_eq!(ledger.issue_stock(I1, C2, SEC3, 70, 10, S1), Ok(()));
    assert_eq!(
        ledger.exercise_equity_compensation(I1, grant_key(SEC1), stock_key(S1, SEC1), 50),
        Ok(())
    );
    assert_eq!(ledger.stock_position(&stock_key(S1, SEC1)), Some(&stock));
    assert_eq!(ledger.convertible_position(&stock_key(S1, SEC1)), Some(&convertible));
    assert_eq!(ledger.warrant_position(&stock_key(S1, SEC1)), Some(&warrant));
    assert_eq!(ledger.stakeholder(&S1), Some(&Stakeholder { id: S1 }));
    assert_eq!(issued(&ledger, C1), 110);
    assert_eq!(issued(&ledger, C2), 70);
    assert_eq!(ledger.issuer(&I1).unwrap().shares_issued, 180);
    assert_eq!(ledger.equity_compensation_position(&grant_key(SEC1)).unwrap().quantity, 0);
}

#[test]
fn a_grant_only_shrinks() {
    let mut ledger = seeded();
    assert_eq!(ledger.issue_equity_compensation(I1, SEC1, 50, S1, C1, None), Ok(()));
    assert_eq!(ledger.issue_stock(I1, C1, SEC2, 20, 10, S1), Ok(()));
    let mut left = 50;
    for _ in 0..4 {
        let outcome =
            ledger.exercise_equity_compensation(I1, grant_key(SEC1), stock_key(S1, SEC2), 20);
        let now = ledger.equity_compensation_position(&grant_key(SEC1)).unwrap().quantity;
        match outcome {
            Ok(()) => assert_eq!(now + 20, left),
            Err(e) => {
                assert_eq!(
                    e,
                    LedgerError::EquityCompensation(EquityCompensationError::InsufficientShares)
                );
                assert_eq!(now, left);
            }
        }
        assert!(now <= left);
        left = now;
    }
    assert_eq!(left, 10);
}

#[test]
fn the_issuer_counter_does_not_wrap() {
    let mut ledger = Ledger::new();
    assert_eq!(ledger.initialize_issuer(I1, 1), Ok(()));
    assert_eq!(ledger.create_stock_class(I1, C1, common(), 1, u64::MAX), Ok(()));
    assert_eq!(ledger.create_stock_class(I1, C2, common(), 1, 5), Ok(()));
    assert_eq!(ledger.create_stakeholder(I1, S1), Ok(()));
    assert_eq!(ledger.issue_stock(I1, C1, SEC1, u64::MAX - 2, 1, S1), Ok(()));
    assert_eq!(
        ledger.issue_stock(I1, C2, SEC2, 3, 1, S1),
        Err(LedgerError::Stock(StockError::InsufficientShares))
    );
    assert_eq!(issued(&ledger, C2), 0);
    assert_eq!(ledger.issuer(&I1).unwrap().shares_issued, u64::MAX - 2);
    assert_eq!(ledger.issue_stock(I1, C2, SEC2, 2, 1, S1), Ok(()));
    assert_eq!(issued(&ledger, C2), 2);
    assert_eq!(ledger.issuer(&I1).unwrap().shares_issued, u64::MAX);
}
