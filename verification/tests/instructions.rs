use ocp_solana::errors::{
    ConvertibleError, EquityCompensationError, IssuerError, StockClassError, StockError,
    StockPlanError, WarrantError,
};
use ocp_solana::events::{
    ConvertibleIssued, EquityCompensationExercised, EquityCompensationIssued,
    IssuerAuthorizedSharesAdjusted, IssuerInitialized, StakeholderCreated, StockClassCreated,
    StockClassSharesAdjusted, StockIssued, StockPlanCreated, StockPlanSharesAdjusted,
    WarrantIssued,
};
use ocp_solana::instructions::stock::raise_issued;
use ocp_solana::instructions::stock_plan::check_stock_classes;
use ocp_solana::instructions::{
    adjust_authorized_shares, adjust_stock_class_shares, adjust_stock_plan_shares,
    create_stakeholder, create_stock_class, create_stock_plan, exercise_equity_compensation,
    initialize_issuer, issue_convertible, issue_equity_compensation, issue_stock, issue_warrant,
    AdjustAuthorizedShares, AdjustStockClassShares, AdjustStockPlanShares, CreateStakeholder,
    CreateStockClass, CreateStockPlan, ExerciseEquityCompensation, InitializeIssuer,
    IssueConvertible, IssueEquityCompensation, IssueStock, IssueWarrant,
};
use ocp_solana::state::{
    ConvertibleActivePosition, EquityCompensationActivePosition, Issuer, Stakeholder,
    StockActivePosition, StockClass, StockPlan, WarrantActivePosition,
};

fn id(n: u8) -> [u8; 16] {
    let mut bytes = [0u8; 16];
    bytes[0] = n;
    bytes[15] = n;
    bytes
}

fn issuer(n: u8, issued: u64, authorized: u64) -> Issuer {
    Issuer { id: id(n), shares_issued: issued, shares_authorized: authorized }
}

fn stock_class(n: u8, issued: u64, authorized: u64) -> StockClass {
    StockClass {
        id: id(n),
        class_type: String::from("COMMON"),
        price_per_share: 10,
        shares_issued: issued,
        shares_authorized: authorized,
    }
}

fn stock_ctx(class_issued: u64, class_authorized: u64, issuer_issued: u64) -> IssueStock {
    IssueStock {
        stock_class: stock_class(2, class_issued, class_authorized),
        issuer: issuer(1, issuer_issued, 1000),
        stakeholder: Stakeholder { id: id(3) },
        position: StockActivePosition::default(),
    }
}

fn exercise_ctx(granted: u64, stock_quantity: u64, stock_holder: u8) -> ExerciseEquityCompensation {
    ExerciseEquityCompensation {
        issuer: issuer(1, 0, 1000),
        equity_position: EquityCompensationActivePosition {
            stakeholder_id: id(3),
            stock_class_id: id(2),
            stock_plan_id: None,
            security_id: id(7),
            quantity: granted,
        },
        stock_position: StockActivePosition {
            stakeholder_id: id(stock_holder),
            stock_class_id: id(2),
            security_id: id(8),
            quantity: stock_quantity,
            share_price: 10,
        },
    }
}

#[test]
fn blank_records_are_zeroed() {
    assert_eq!(Issuer::default(), Issuer { id: [0; 16], shares_issued: 0, shares_authorized: 0 });
    assert_eq!(Stakeholder::default(), Stakeholder { id: [0; 16] });
    assert_eq!(
        StockClass::default(),
        StockClass {
            id: [0; 16],
            class_type: String::new(),
            price_per_share: 0,
            shares_issued: 0,
            shares_authorized: 0,
        }
    );
    assert_eq!(
        StockPlan::default(),
        StockPlan { id: [0; 16], stock_class_ids: vec![], shares_reserved: 0 }
    );
    assert_eq!(StockActivePosition::default().quantity, 0);
    assert_eq!(ConvertibleActivePosition::default().investment_amount, 0);
    assert_eq!(EquityCompensationActivePosition::default().stock_plan_id, None);
    assert_eq!(WarrantActivePosition::default().quantity, 0);
}

#[test]
fn initialize_issuer_fills_the_record() {
    let mut ctx = InitializeIssuer { issuer: Issuer::default() };
    let event = initialize_issuer(&mut ctx, id(1), 1000);
    assert_eq!(event, Ok(IssuerInitialized { id: id(1), initial_shares_authorized: 1000 }));
    assert_eq!(ctx.issuer, issuer(1, 0, 1000));
}

#[test]
fn initialize_issuer_refuses_a_filled_record() {
    let mut ctx = InitializeIssuer { issuer: issuer(1, 40, 1000) };
    let event = initialize_issuer(&mut ctx, id(9), 5);
    assert_eq!(event, Err(IssuerError::AlreadyInitialized));
    assert_eq!(ctx.issuer, issuer(1, 40, 1000));
}

#[test]
fn initialize_issuer_accepts_a_record_with_an_empty_pool() {
    let mut ctx = InitializeIssuer { issuer: issuer(1, 40, 0) };
    let event = initialize_issuer(&mut ctx, id(9), 5);
    assert_eq!(event, Ok(IssuerInitialized { id: id(9), initial_shares_authorized: 5 }));
    assert_eq!(ctx.issuer, issuer(9, 0, 5));
}

#[test]
fn adjust_authorized_shares_overwrites_without_a_floor() {
    let mut ctx = AdjustAuthorizedShares { issuer: issuer(1, 300, 1000) };
    let event = adjust_authorized_shares(&mut ctx, 100);
    assert_eq!(
        event,
        IssuerAuthorizedSharesAdjusted { issuer_id: id(1), new_shares_authorized: 100 }
    );
    assert_eq!(ctx.issuer, issuer(1, 300, 100));
}

#[test]
fn create_stock_class_fills_the_record() {
    let mut ctx = CreateStockClass { issuer: issuer(1, 0, 1000), stock_class: StockClass::default() };
    let event = create_stock_class(&mut ctx, id(2), String::from("PREFERRED"), 25, 500);
    assert_eq!(
        event,
        Ok(StockClassCreated {
            id: id(2),
            class_type: String::from("PREFERRED"),
            price_per_share: 25,
            initial_shares_authorized: 500,
            issuer_id: id(1),
        })
    );
    assert_eq!(
        ctx.stock_class,
        StockClass {
            id: id(2),
            class_type: String::from("PREFERRED"),
            price_per_share: 25,
            shares_issued: 0,
            shares_authorized: 500,
        }
    );
    assert_eq!(ctx.issuer, issuer(1, 0, 1000));
}

#[test]
fn create_stock_class_refuses_an_empty_pool() {
    let mut ctx = CreateStockClass { issuer: issuer(1, 0, 1000), stock_class: StockClass::default() };
    let event = create_stock_class(&mut ctx, id(2), String::from("COMMON"), 25, 0);
    assert_eq!(event, Err(StockClassError::SharesAuthorizedCannotBeZero));
    assert_eq!(ctx.stock_class, StockClass::default());
}

#[test]
fn adjust_stock_class_shares_overwrites_without_a_floor() {
    let mut ctx = AdjustStockClassShares {
        issuer: issuer(1, 0, 1000),
        stock_class: stock_class(2, 200, 500),
    };
    let event = adjust_stock_class_shares(&mut ctx, 50);
    assert_eq!(
        event,
        StockClassSharesAdjusted {
            stock_class_id: id(2),
            new_shares_authorized: 50,
            issuer_id: id(1),
        }
    );
    assert_eq!(ctx.stock_class, stock_class(2, 200, 50));
}

#[test]
fn create_stakeholder_fills_the_record() {
    let mut ctx = CreateStakeholder { issuer: issuer(1, 0, 1000), stakeholder: Stakeholder::default() };
    let event = create_stakeholder(&mut ctx, id(3));
    assert_eq!(event, StakeholderCreated { id: id(3), issuer_id: id(1) });
    assert_eq!(ctx.stakeholder, Stakeholder { id: id(3) });
}

#[test]
fn create_stock_plan_with_an_empty_list_is_refused() {
    let mut ctx = CreateStockPlan {
        issuer: issuer(1, 0, 1000),
        stock_plan: StockPlan::default(),
        stock_class: stock_class(2, 0, 500),
    };
    let event = create_stock_plan(&mut ctx, id(4), vec![], 300);
    assert_eq!(event, Err(StockPlanError::InvalidStockClassCount));
    assert_eq!(ctx.stock_plan, StockPlan::default());
}

#[test]
fn create_stock_plan_with_one_class_stores_reserved_verbatim() {
    let mut ctx = CreateStockPlan {
        issuer: issuer(1, 0, 1000),
        stock_plan: StockPlan::default(),
        stock_class: stock_class(2, 0, 500),
    };
    let event = create_stock_plan(&mut ctx, id(4), vec![id(2)], 18_446_744_073_709_551_615);
    assert_eq!(
        event,
        Ok(StockPlanCreated {
            id: id(4),
            shares_reserved: 18_446_744_073_709_551_615,
            issuer_id: id(1),
        })
    );
    assert_eq!(
        ctx.stock_plan,
        StockPlan {
            id: id(4),
            stock_class_ids: vec![id(2)],
            shares_reserved: 18_446_744_073_709_551_615,
        }
    );
}

#[test]
fn create_stock_plan_keeps_the_order_of_the_list() {
    let mut ctx = CreateStockPlan {
        issuer: issuer(1, 0, 1000),
        stock_plan: StockPlan::default(),
        stock_class: stock_class(2, 0, 500),
    };
    let event = create_stock_plan(&mut ctx, id(4), vec![id(6), id(2), id(5)], 0);
    assert!(event.is_ok());
    assert_eq!(ctx.stock_plan.stock_class_ids, vec![id(6), id(2), id(5)]);
    assert_eq!(ctx.stock_plan.shares_reserved, 0);
}

#[test]
fn adjust_stock_plan_shares_overwrites() {
    let mut ctx = AdjustStockPlanShares {
        issuer: issuer(1, 0, 1000),
        stock_plan: StockPlan { id: id(4), stock_class_ids: vec![id(2)], shares_reserved: 300 },
    };
    let event = adjust_stock_plan_shares(&mut ctx, 120);
    assert_eq!(event, StockPlanSharesAdjusted { id: id(4), new_shares_reserved: 120 });
    assert_eq!(
        ctx.stock_plan,
        StockPlan { id: id(4), stock_class_ids: vec![id(2)], shares_reserved: 120 }
    );
}

#[test]
fn stock_plan_covers_its_classes_only() {
    let plan = StockPlan { id: id(4), stock_class_ids: vec![id(2), id(5)], shares_reserved: 1 };
    assert!(plan.covers(&id(2)));
    assert!(plan.covers(&id(5)));
    assert!(!plan.covers(&id(6)));
    assert!(!StockPlan::default().covers(&id(2)));
}

#[test]
fn check_stock_classes_tells_count_from_id_mismatch() {
    let plan = StockPlan { id: id(4), stock_class_ids: vec![id(2), id(5)], shares_reserved: 1 };
    assert_eq!(check_stock_classes(&plan, &vec![id(2), id(5)]), Ok(()));
    assert_eq!(
        check_stock_classes(&plan, &vec![id(2)]),
        Err(StockPlanError::StockClassCountMismatch)
    );
    assert_eq!(
        check_stock_classes(&plan, &vec![id(2), id(5), id(6)]),
        Err(StockPlanError::StockClassCountMismatch)
    );
    assert_eq!(
        check_stock_classes(&plan, &vec![id(5), id(2)]),
        Err(StockPlanError::StockClassIdMismatch)
    );
    assert_eq!(
        check_stock_classes(&plan, &vec![id(2), id(6)]),
        Err(StockPlanError::StockClassIdMismatch)
    );
}

#[test]
fn raise_issued_is_checked() {
    assert_eq!(raise_issued(200, 300, 500), Some(500));
    assert_eq!(raise_issued(200, 301, 500), None);
    assert_eq!(raise_issued(0, 0, 0), Some(0));
    assert_eq!(raise_issued(u64::MAX, 1, u64::MAX), None);
    assert_eq!(raise_issued(u64::MAX - 1, 1, u64::MAX), Some(u64::MAX));
    assert_eq!(raise_issued(u64::MAX, u64::MAX, u64::MAX), None);
}

#[test]
fn issue_stock_writes_position_and_both_counters() {
    let mut ctx = stock_ctx(0, 500, 40);
    let event = issue_stock(&mut ctx, id(7), 200, 10);
    assert_eq!(
        event,
        Ok(StockIssued {
            stock_class_id: id(2),
            security_id: id(7),
            stakeholder_id: id(3),
            quantity: 200,
            share_price: 10,
            issuer_id: id(1),
        })
    );
    assert_eq!(
        ctx.position,
        StockActivePosition {
            stakeholder_id: id(3),
            stock_class_id: id(2),
            security_id: id(7),
            quantity: 200,
            share_price: 10,
        }
    );
    assert_eq!(ctx.stock_class, stock_class(2, 200, 500));
    assert_eq!(ctx.issuer, issuer(1, 240, 1000));
    assert_eq!(ctx.stakeholder, Stakeholder { id: id(3) });
}

#[test]
fn issue_stock_with_zero_quantity_changes_nothing() {
    let mut ctx = stock_ctx(100, 500, 100);
    let event = issue_stock(&mut ctx, id(7), 0, 10);
    assert_eq!(event, Err(StockError::InvalidQuantity));
    assert_eq!(ctx, stock_ctx(100, 500, 100));
}

#[test]
fn issue_stock_with_zero_quantity_and_zero_price_is_an_invalid_quantity() {
    let mut ctx = stock_ctx(500, 500, 100);
    assert_eq!(issue_stock(&mut ctx, id(7), 0, 0), Err(StockError::InvalidQuantity));
    assert_eq!(ctx, stock_ctx(500, 500, 100));
}

#[test]
fn issue_stock_with_zero_price_changes_nothing() {
    let mut ctx = stock_ctx(100, 500, 100);
    let event = issue_stock(&mut ctx, id(7), 5, 0);
    assert_eq!(event, Err(StockError::InvalidSharePrice));
    assert_eq!(ctx, stock_ctx(100, 500, 100));
}

#[test]
fn issue_stock_past_the_pool_changes_nothing() {
    let mut ctx = stock_ctx(200, 500, 200);
    let event = issue_stock(&mut ctx, id(7), 400, 10);
    assert_eq!(event, Err(StockError::InsufficientShares));
    assert_eq!(ctx, stock_ctx(200, 500, 200));
    assert_eq!(issue_stock(&mut ctx, id(7), 301, 10), Err(StockError::InsufficientShares));
    assert_eq!(ctx, stock_ctx(200, 500, 200));
}

#[test]
fn issue_stock_exactly_to_the_pool_succeeds() {
    let mut ctx = stock_ctx(200, 500, 200);
    assert!(issue_stock(&mut ctx, id(7), 300, 10).is_ok());
    assert_eq!(ctx.stock_class.shares_issued, 500);
    assert_eq!(ctx.stock_class.shares_authorized, 500);
    assert_eq!(ctx.issuer.shares_issued, 500);
    assert_eq!(issue_stock(&mut ctx, id(8), 1, 10), Err(StockError::InsufficientShares));
}

#[test]
fn issue_stock_does_not_wrap_the_class_counter() {
    let mut ctx = stock_ctx(u64::MAX - 1, u64::MAX, 0);
    assert_eq!(issue_stock(&mut ctx, id(7), 2, 10), Err(StockError::InsufficientShares));
    assert_eq!(issue_stock(&mut ctx, id(7), u64::MAX, 10), Err(StockError::InsufficientShares));
    assert_eq!(ctx, stock_ctx(u64::MAX - 1, u64::MAX, 0));
    assert!(issue_stock(&mut ctx, id(7), 1, 10).is_ok());
    assert_eq!(ctx.stock_class.shares_issued, u64::MAX);
}

#[test]
fn issue_stock_does_not_wrap_the_issuer_counter() {
    let mut ctx = stock_ctx(0, 500, u64::MAX - 10);
    assert_eq!(issue_stock(&mut ctx, id(7), 11, 10), Err(StockError::InsufficientShares));
    assert_eq!(ctx, stock_ctx(0, 500, u64::MAX - 10));
    assert!(issue_stock(&mut ctx, id(7), 10, 10).is_ok());
    assert_eq!(ctx.issuer.shares_issued, u64::MAX);
    assert_eq!(ctx.stock_class.shares_issued, 10);
}

#[test]
fn issue_stock_is_not_held_against_the_issuer_pool() {
    let mut ctx = IssueStock {
        stock_class: stock_class(2, 0, 500),
        issuer: issuer(1, 0, 100),
        stakeholder: Stakeholder { id: id(3) },
        position: StockActivePosition::default(),
    };
    assert!(issue_stock(&mut ctx, id(7), 200, 10).is_ok());
    assert_eq!(ctx.issuer, issuer(1, 200, 100));
}

#[test]
fn issue_convertible_fills_the_position() {
    let mut ctx = IssueConvertible {
        issuer: issuer(1, 0, 1000),
        stakeholder: Stakeholder { id: id(3) },
        position: ConvertibleActivePosition::default(),
    };
    let event = issue_convertible(&mut ctx, id(7), 25_000);
    assert_eq!(
        event,
        Ok(ConvertibleIssued { stakeholder_id: id(3), security_id: id(7), investment_amount: 25_000 })
    );
    assert_eq!(
        ctx.position,
        ConvertibleActivePosition {
            stakeholder_id: id(3),
            security_id: id(7),
            investment_amount: 25_000,
        }
    );
}

#[test]
fn issue_convertible_refuses_a_zero_amount() {
    let mut ctx = IssueConvertible {
        issuer: issuer(1, 0, 1000),
        stakeholder: Stakeholder { id: id(3) },
        position: ConvertibleActivePosition::default(),
    };
    assert_eq!(issue_convertible(&mut ctx, id(7), 0), Err(ConvertibleError::InvalidAmount));
    assert_eq!(ctx.position, ConvertibleActivePosition::default());
}

#[test]
fn issue_warrant_fills_the_position() {
    let mut ctx = IssueWarrant {
        issuer: issuer(1, 0, 1000),
        stakeholder: Stakeholder { id: id(3) },
        position: WarrantActivePosition::default(),
    };
    let event = issue_warrant(&mut ctx, id(7), 75);
    assert_eq!(event, Ok(WarrantIssued { stakeholder_id: id(3), security_id: id(7), quantity: 75 }));
    assert_eq!(
        ctx.position,
        WarrantActivePosition { stakeholder_id: id(3), security_id: id(7), quantity: 75 }
    );
}

#[test]
fn issue_warrant_refuses_a_zero_quantity() {
    let mut ctx = IssueWarrant {
        issuer: issuer(1, 0, 1000),
        stakeholder: Stakeholder { id: id(3) },
        position: WarrantActivePosition::default(),
    };
    assert_eq!(issue_warrant(&mut ctx, id(7), 0), Err(WarrantError::InvalidQuantity));
    assert_eq!(ctx.position, WarrantActivePosition::default());
}

#[test]
fn issue_equity_compensation_without_a_plan() {
    let mut ctx = IssueEquityCompensation {
        issuer: issuer(1, 0, 1000),
        stakeholder: Stakeholder { id: id(3) },
        stock_class: stock_class(2, 0, 500),
        stock_plan: None,
        position: EquityCompensationActivePosition::default(),
    };
    let event = issue_equity_compensation(&mut ctx, id(7), 50);
    assert_eq!(
        event,
        Ok(EquityCompensationIssued {
            security_id: id(7),
            stakeholder_id: id(3),
            stock_class_id: id(2),
            stock_plan_id: [0; 16],
            quantity: 50,
        })
    );
    assert_eq!(
        ctx.position,
        EquityCompensationActivePosition {
            stakeholder_id: id(3),
            stock_class_id: id(2),
            stock_plan_id: None,
            security_id: id(7),
            quantity: 50,
        }
    );
    assert_eq!(ctx.stock_class, stock_class(2, 0, 500));
}

#[test]
fn issue_equity_compensation_under_a_plan() {
    let mut ctx = IssueEquityCompensation {
        issuer: issuer(1, 0, 1000),
        stakeholder: Stakeholder { id: id(3) },
        stock_class: stock_class(2, 0, 500),
        stock_plan: Some(StockPlan { id: id(4), stock_class_ids: vec![id(2)], shares_reserved: 9 }),
        position: EquityCompensationActivePosition::default(),
    };
    let event = issue_equity_compensation(&mut ctx, id(7), 50);
    assert_eq!(
        event,
        Ok(EquityCompensationIssued {
            security_id: id(7),
            stakeholder_id: id(3),
            stock_class_id: id(2),
            stock_plan_id: id(4),
            quantity: 50,
        })
    );
    assert_eq!(ctx.position.stock_plan_id, Some(id(4)));
    assert_eq!(
        ctx.stock_plan,
        Some(StockPlan { id: id(4), stock_class_ids: vec![id(2)], shares_reserved: 9 })
    );
}

#[test]
fn issue_equity_compensation_does_not_hold_the_class_against_the_plan() {
    let mut ctx = IssueEquityCompensation {
        issuer: issuer(1, 0, 1000),
        stakeholder: Stakeholder { id: id(3) },
        stock_class: stock_class(2, 0, 500),
        stock_plan: Some(StockPlan { id: id(4), stock_class_ids: vec![id(6)], shares_reserved: 9 }),
        position: EquityCompensationActivePosition::default(),
    };
    assert!(issue_equity_compensation(&mut ctx, id(7), 50).is_ok());
    assert_eq!(ctx.position.stock_class_id, id(2));
    assert_eq!(ctx.position.stock_plan_id, Some(id(4)));
}

#[test]
fn issue_equity_compensation_refuses_a_zero_quantity() {
    let mut ctx = IssueEquityCompensation {
        issuer: issuer(1, 0, 1000),
        stakeholder: Stakeholder { id: id(3) },
        stock_class: stock_class(2, 0, 500),
        stock_plan: None,
        position: EquityCompensationActivePosition::default(),
    };
    assert_eq!(
        issue_equity_compensation(&mut ctx, id(7), 0),
        Err(EquityCompensationError::InvalidQuantity)
    );
    assert_eq!(ctx.position, EquityCompensationActivePosition::default());
}

#[test]
fn exercise_takes_exactly_the_quantity() {
    let mut ctx = exercise_ctx(50, 20, 3);
    let event = exercise_equity_compensation(&mut ctx, 20);
    assert_eq!(
        event,
        Ok(EquityCompensationExercised {
            equity_comp_security_id: id(7),
            resulting_stock_security_id: id(8),
            quantity: 20,
        })
    );
    assert_eq!(ctx.equity_position.quantity, 30);
    assert_eq!(ctx.stock_position, exercise_ctx(50, 20, 3).stock_position);
    assert_eq!(ctx.issuer, exercise_ctx(50, 20, 3).issuer);
}

#[test]
fn exercise_of_more_than_granted_is_refused() {
    let mut ctx = exercise_ctx(50, 60, 3);
    assert_eq!(
        exercise_equity_compensation(&mut ctx, 60),
        Err(EquityCompensationError::InsufficientShares)
    );
    assert_eq!(ctx, exercise_ctx(50, 60, 3));
}

#[test]
fn exercise_of_all_leaves_nothing_and_cannot_repeat() {
    let mut ctx = exercise_ctx(50, 50, 3);
    assert!(exercise_equity_compensation(&mut ctx, 50).is_ok());
    assert_eq!(ctx.equity_position.quantity, 0);
    assert_eq!(
        exercise_equity_compensation(&mut ctx, 50),
        Err(EquityCompensationError::InsufficientShares)
    );
    assert_eq!(ctx.equity_position.quantity, 0);
}

#[test]
fn exercise_can_repeat_while_the_grant_lasts() {
    let mut ctx = exercise_ctx(50, 20, 3);
    assert!(exercise_equity_compensation(&mut ctx, 20).is_ok());
    assert!(exercise_equity_compensation(&mut ctx, 20).is_ok());
    assert_eq!(ctx.equity_position.quantity, 10);
    assert_eq!(
        exercise_equity_compensation(&mut ctx, 20),
        Err(EquityCompensationError::InsufficientShares)
    );
    assert_eq!(ctx.equity_position.quantity, 10);
}

#[test]
fn exercise_of_nothing_is_refused() {
    let mut ctx = exercise_ctx(50, 0, 3);
    assert_eq!(
        exercise_equity_compensation(&mut ctx, 0),
        Err(EquityCompensationError::InvalidQuantity)
    );
    assert_eq!(ctx, exercise_ctx(50, 0, 3));
}

#[test]
fn exercise_into_a_stock_position_of_another_size_is_refused() {
    let mut ctx = exercise_ctx(50, 30, 3);
    assert_eq!(
        exercise_equity_compensation(&mut ctx, 20),
        Err(EquityCompensationError::QuantityMismatch)
    );
    assert_eq!(ctx, exercise_ctx(50, 30, 3));
}

#[test]
fn exercise_into_a_stock_position_of_another_stakeholder_is_refused() {
    let mut ctx = exercise_ctx(50, 20, 9);
    assert_eq!(
        exercise_equity_compensation(&mut ctx, 20),
        Err(EquityCompensationError::InvalidStakeholder)
    );
    assert_eq!(ctx, exercise_ctx(50, 20, 9));
}

#[test]
fn exercise_checks_in_order() {
    let mut ctx = exercise_ctx(50, 30, 9);
    assert_eq!(
        exercise_equity_compensation(&mut ctx, 0),
        Err(EquityCompensationError::InvalidQuantity)
    );
    assert_eq!(
        exercise_equity_compensation(&mut ctx, 60),
        Err(EquityCompensationError::InsufficientShares)
    );
    assert_eq!(
        exercise_equity_compensation(&mut ctx, 20),
        Err(EquityCompensationError::QuantityMismatch)
    );
    assert_eq!(
        exercise_equity_compensation(&mut ctx, 30),
        Err(EquityCompensationError::InvalidStakeholder)
    );
}
