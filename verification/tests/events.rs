use ocp_solana::events::{
    ConvertibleIssued, EquityCompensationExercised, EquityCompensationIssued, Event,
    IssuerAuthorizedSharesAdjusted, IssuerInitialized, StakeholderCreated, StockClassCreated,
    StockClassSharesAdjusted, StockIssued, StockPlanCreated, StockPlanSharesAdjusted, TxCreated,
    TxType, WarrantIssued,
};
use ocp_solana::model::LogEntry;
use ocp_solana::wire::{EventError, PayloadWriter};

fn ident(n: u8) -> [u8; 16] {
    let mut bytes = [0u8; 16];
    for (k, byte) in bytes.iter_mut().enumerate() {
        *byte = n.wrapping_mul(16).wrapping_add(k as u8);
    }
    bytes
}

fn concat(parts: &[&[u8]]) -> Vec<u8> {
    let mut out = Vec::new();
    for part in parts {
        out.extend_from_slice(part);
    }
    out
}

fn stock_issued() -> StockIssued {
    StockIssued {
        stock_class_id: ident(2),
        security_id: ident(7),
        stakeholder_id: ident(3),
        quantity: 200,
        share_price: 0x0102_0304_0506_0708,
        issuer_id: ident(1),
    }
}

#[test]
fn payload_writer_lays_fields_out_in_order() {
    let mut writer = PayloadWriter::new();
    writer.id(&ident(1));
    writer.quantity(0x0102_0304_0506_0708);
    writer.quantity(1);
    writer.id(&ident(2));
    let bytes = writer.finish().unwrap();
    assert_eq!(bytes.len(), 48);
    assert_eq!(&bytes[0..16], &ident(1));
    assert_eq!(&bytes[16..24], &[8, 7, 6, 5, 4, 3, 2, 1]);
    assert_eq!(&bytes[24..32], &[1, 0, 0, 0, 0, 0, 0, 0]);
    assert_eq!(&bytes[32..48], &ident(2));
}

#[test]
fn payload_writer_without_fields_is_empty() {
    assert_eq!(PayloadWriter::new().finish(), Ok(vec![]));
}

#[test]
fn payload_writer_appends_what_it_is_given() {
    let mut writer = PayloadWriter::new();
    writer.push(Ok(vec![1, 2, 3]));
    writer.push(Ok(vec![]));
    writer.push(Ok(vec![4]));
    assert_eq!(writer.finish(), Ok(vec![1, 2, 3, 4]));
}

#[test]
fn payload_writer_remembers_a_failure() {
    let mut writer = PayloadWriter::new();
    writer.push(Ok(vec![1, 2, 3]));
    writer.push(Err(std::io::Error::new(std::io::ErrorKind::Other, "no room")));
    writer.push(Ok(vec![4]));
    writer.quantity(5);
    assert_eq!(writer.finish(), Err(EventError::BorshIo));
}

#[test]
fn quantity_is_little_endian() {
    let mut writer = PayloadWriter::new();
    writer.quantity(u64::MAX);
    writer.quantity(0);
    writer.quantity(256);
    assert_eq!(
        writer.finish(),
        Ok(vec![
            255, 255, 255, 255, 255, 255, 255, 255, 0, 0, 0, 0, 0, 0, 0, 0, 0, 1, 0, 0, 0, 0, 0,
            0
        ])
    );
}

#[test]
fn stock_issued_payload() {
    let bytes = stock_issued().try_to_vec().unwrap();
    let expected = concat(&[
        &ident(2),
        &ident(7),
        &ident(3),
        &[200, 0, 0, 0, 0, 0, 0, 0],
        &[8, 7, 6, 5, 4, 3, 2, 1],
        &ident(1),
    ]);
    assert_eq!(bytes, expected);
    assert_eq!(bytes.len(), 80);
}

#[test]
fn stock_issued_payload_is_what_the_serializer_gives_for_the_fields() {
    let event = stock_issued();
    let fields = (
        event.stock_class_id,
        event.security_id,
        event.stakeholder_id,
        event.quantity,
        event.share_price,
        event.issuer_id,
    );
    assert_eq!(
        event.try_to_vec().unwrap(),
        anchor_lang::AnchorSerialize::try_to_vec(&fields).unwrap()
    );
}

#[test]
fn issuer_adjustment_payload() {
    let event = IssuerAuthorizedSharesAdjusted { issuer_id: ident(1), new_shares_authorized: 1000 };
    assert_eq!(
        event.try_to_vec().unwrap(),
        concat(&[&ident(1), &[0xe8, 0x03, 0, 0, 0, 0, 0, 0]])
    );
}

#[test]
fn stock_class_adjustment_payload() {
    let event = StockClassSharesAdjusted {
        stock_class_id: ident(2),
        new_shares_authorized: 65_536,
        issuer_id: ident(1),
    };
    assert_eq!(
        event.try_to_vec().unwrap(),
        concat(&[&ident(2), &[0, 0, 1, 0, 0, 0, 0, 0], &ident(1)])
    );
}

#[test]
fn stock_plan_adjustment_payload() {
    let event = StockPlanSharesAdjusted { id: ident(4), new_shares_reserved: 7 };
    assert_eq!(event.try_to_vec().unwrap(), concat(&[&ident(4), &[7, 0, 0, 0, 0, 0, 0, 0]]));
}

#[test]
fn convertible_issued_payload() {
    let event = ConvertibleIssued {
        stakeholder_id: ident(3),
        security_id: ident(7),
        investment_amount: 25_000,
    };
    assert_eq!(
        event.try_to_vec().unwrap(),
        concat(&[&ident(3), &ident(7), &[0xa8, 0x61, 0, 0, 0, 0, 0, 0]])
    );
    assert_eq!(
        event.try_to_vec().unwrap(),
        anchor_lang::AnchorSerialize::try_to_vec(&(ident(3), ident(7), 25_000u64)).unwrap()
    );
}

#[test]
fn equity_compensation_issued_payload() {
    let event = EquityCompensationIssued {
        security_id: ident(7),
        stakeholder_id: ident(3),
        stock_class_id: ident(2),
        stock_plan_id: [0; 16],
        quantity: 50,
    };
    assert_eq!(
        event.try_to_vec().unwrap(),
        concat(&[&ident(7), &ident(3), &ident(2), &[0; 16], &[50, 0, 0, 0, 0, 0, 0, 0]])
    );
}

#[test]
fn equity_compensation_exercised_payload() {
    let event = EquityCompensationExercised {
        equity_comp_security_id: ident(7),
        resulting_stock_security_id: ident(8),
        quantity: 50,
    };
    assert_eq!(
        event.try_to_vec().unwrap(),
        concat(&[&ident(7), &ident(8), &[50, 0, 0, 0, 0, 0, 0, 0]])
    );
}

#[test]
fn warrant_issued_payload() {
    let event = WarrantIssued { stakeholder_id: ident(3), security_id: ident(7), quantity: 75 };
    assert_eq!(
        event.try_to_vec().unwrap(),
        concat(&[&ident(3), &ident(7), &[75, 0, 0, 0, 0, 0, 0, 0]])
    );
}

#[test]
fn transactions_have_a_kind() {
    let adjusted = IssuerAuthorizedSharesAdjusted { issuer_id: ident(1), new_shares_authorized: 1 };
    assert_eq!(
        Event::IssuerAuthorizedSharesAdjusted(adjusted).tx_type(),
        Some(TxType::IssuerAuthorizedSharesAdjustment)
    );
    let adjusted = StockClassSharesAdjusted {
        stock_class_id: ident(2),
        new_shares_authorized: 1,
        issuer_id: ident(1),
    };
    assert_eq!(
        Event::StockClassSharesAdjusted(adjusted).tx_type(),
        Some(TxType::StockClassAuthorizedSharesAdjustment)
    );
    let adjusted = StockPlanSharesAdjusted { id: ident(4), new_shares_reserved: 1 };
    assert_eq!(
        Event::StockPlanSharesAdjusted(adjusted).tx_type(),
        Some(TxType::StockPlanPoolAdjustment)
    );
    assert_eq!(Event::StockIssued(stock_issued()).tx_type(), Some(TxType::StockIssuance));
    let issued = ConvertibleIssued {
        stakeholder_id: ident(3),
        security_id: ident(7),
        investment_amount: 1,
    };
    assert_eq!(Event::ConvertibleIssued(issued).tx_type(), Some(TxType::ConvertibleIssuance));
    let issued = EquityCompensationIssued {
        security_id: ident(7),
        stakeholder_id: ident(3),
        stock_class_id: ident(2),
        stock_plan_id: ident(4),
        quantity: 1,
    };
    assert_eq!(
        Event::EquityCompensationIssued(issued).tx_type(),
        Some(TxType::EquityCompensationIssuance)
    );
    let exercised = EquityCompensationExercised {
        equity_comp_security_id: ident(7),
        resulting_stock_security_id: ident(8),
        quantity: 1,
    };
    assert_eq!(
        Event::EquityCompensationExercised(exercised).tx_type(),
        Some(TxType::EquityCompensationExercise)
    );
    let issued = WarrantIssued { stakeholder_id: ident(3), security_id: ident(7), quantity: 1 };
    assert_eq!(Event::WarrantIssued(issued).tx_type(), Some(TxType::WarrantIssuance));
}

#[test]
fn creations_have_no_kind_and_no_envelope() {
    let events = vec![
        Event::IssuerInitialized(IssuerInitialized { id: ident(1), initial_shares_authorized: 1 }),
        Event::StockClassCreated(StockClassCreated {
            id: ident(2),
            class_type: String::from("COMMON"),
            price_per_share: 1,
            initial_shares_authorized: 1,
            issuer_id: ident(1),
        }),
        Event::StakeholderCreated(StakeholderCreated { id: ident(3), issuer_id: ident(1) }),
        Event::StockPlanCreated(StockPlanCreated {
            id: ident(4),
            shares_reserved: 1,
            issuer_id: ident(1),
        }),
    ];
    for event in events {
        assert_eq!(event.tx_type(), None);
        assert_eq!(event.try_to_vec(), Err(EventError::NotATransaction));
        assert_eq!(TxCreated::from_event(&event, ident(1)), Err(EventError::NotATransaction));
    }
}

#[test]
fn envelope_of_a_stock_issuance() {
    let event = Event::StockIssued(stock_issued());
    let tx = TxCreated::from_event(&event, ident(1)).unwrap();
    assert_eq!(tx.tx_type, TxType::StockIssuance);
    assert_eq!(tx.tx_data, stock_issued().try_to_vec().unwrap());
    assert_eq!(tx.issuer_id, ident(1));
}

#[test]
fn envelope_of_a_log_entry_carries_the_issuer_of_the_entry() {
    let issued = WarrantIssued { stakeholder_id: ident(3), security_id: ident(7), quantity: 75 };
    let entry = LogEntry { issuer_id: ident(9), event: Event::WarrantIssued(issued) };
    assert_eq!(
        entry.to_tx(),
        Ok(TxCreated {
            tx_type: TxType::WarrantIssuance,
            tx_data: concat(&[&ident(3), &ident(7), &[75, 0, 0, 0, 0, 0, 0, 0]]),
            issuer_id: ident(9),
        })
    );
}

#[test]
fn assemble_needs_a_kind_and_a_payload() {
    assert_eq!(
        TxCreated::assemble(Some(TxType::StockTransfer), Ok(vec![1, 2]), ident(1)),
        Ok(TxCreated { tx_type: TxType::StockTransfer, tx_data: vec![1, 2], issuer_id: ident(1) })
    );
    assert_eq!(
        TxCreated::assemble(None, Ok(vec![1, 2]), ident(1)),
        Err(EventError::NotATransaction)
    );
    assert_eq!(
        TxCreated::assemble(Some(TxType::StockTransfer), Err(EventError::BorshIo), ident(1)),
        Err(EventError::BorshIo)
    );
    assert_eq!(
        TxCreated::assemble(None, Err(EventError::BorshIo), ident(1)),
        Err(EventError::NotATransaction)
    );
}
