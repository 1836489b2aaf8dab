use ocp_solana::state::{
    plan_id_from_bytes, plan_id_to_bytes, same_id, EquityCompensationActivePosition,
    EquityCompensationKey, Issuer, Keyed, PositionKey, StockActivePosition,
};
use ocp_solana::store::Table;

fn key(n: u8) -> [u8; 16] {
    [n; 16]
}

fn issuer_with_pool(n: u8, authorized: u64) -> Issuer {
    Issuer { id: key(n), shares_issued: 0, shares_authorized: authorized }
}

#[test]
fn same_id_compares_every_byte() {
    assert!(same_id(&key(1), &key(1)));
    assert!(!same_id(&key(1), &key(2)));
    let mut last = key(1);
    last[15] = 0;
    assert!(!same_id(&key(1), &last));
    let mut first = key(1);
    first[0] = 0;
    assert!(!same_id(&first, &key(1)));
}

#[test]
fn position_key_is_stakeholder_and_security() {
    let position = StockActivePosition {
        stakeholder_id: key(3),
        stock_class_id: key(2),
        security_id: key(7),
        quantity: 1,
        share_price: 1,
    };
    assert_eq!(position.key_of(), PositionKey { stakeholder_id: key(3), security_id: key(7) });
    assert!(position.has_key(&PositionKey { stakeholder_id: key(3), security_id: key(7) }));
    assert!(!position.has_key(&PositionKey { stakeholder_id: key(7), security_id: key(3) }));
    assert!(!position.has_key(&PositionKey { stakeholder_id: key(3), security_id: key(2) }));
}

#[test]
fn equity_compensation_key_names_the_stock_class_too() {
    let position = EquityCompensationActivePosition {
        stakeholder_id: key(3),
        stock_class_id: key(2),
        stock_plan_id: Some(key(4)),
        security_id: key(7),
        quantity: 1,
    };
    let own = EquityCompensationKey {
        security_id: key(7),
        stock_class_id: key(2),
        stakeholder_id: key(3),
    };
    assert_eq!(position.key_of(), own);
    assert!(position.has_key(&own));
    assert!(!position.has_key(&EquityCompensationKey { stock_class_id: key(5), ..own }));
    assert!(!position.has_key(&EquityCompensationKey { security_id: key(5), ..own }));
    assert!(!position.has_key(&EquityCompensationKey { stakeholder_id: key(5), ..own }));
}

#[test]
fn table_starts_empty() {
    let table: Table<Issuer> = Table::new();
    assert_eq!(table.len(), 0);
    assert_eq!(table.find(&key(1)), None);
    assert_eq!(table.get(&key(1)), None);
}

#[test]
fn table_creates_once_per_key() {
    let mut table: Table<Issuer> = Table::new();
    assert_eq!(table.create(issuer_with_pool(1, 10)), Ok(()));
    assert_eq!(table.create(issuer_with_pool(2, 20)), Ok(()));
    assert_eq!(table.create(issuer_with_pool(1, 30)), Err(issuer_with_pool(1, 30)));
    assert_eq!(table.len(), 2);
    assert_eq!(table.find(&key(1)), Some(0));
    assert_eq!(table.find(&key(2)), Some(1));
    assert_eq!(table.find(&key(3)), None);
    assert_eq!(table.get(&key(1)), Some(&issuer_with_pool(1, 10)));
    assert_eq!(table.get(&key(2)), Some(&issuer_with_pool(2, 20)));
}

#[test]
fn table_replaces_under_the_same_key() {
    let mut table: Table<Issuer> = Table::new();
    assert_eq!(table.create(issuer_with_pool(1, 10)), Ok(()));
    assert_eq!(table.create(issuer_with_pool(2, 20)), Ok(()));
    assert_eq!(table.replace(issuer_with_pool(2, 25)), Ok(issuer_with_pool(2, 20)));
    assert_eq!(table.replace(issuer_with_pool(3, 35)), Err(issuer_with_pool(3, 35)));
    assert_eq!(table.len(), 2);
    assert_eq!(table.get(&key(1)), Some(&issuer_with_pool(1, 10)));
    assert_eq!(table.get(&key(2)), Some(&issuer_with_pool(2, 25)));
    assert_eq!(table.find(&key(2)), Some(1));
}

#[test]
fn table_keeps_the_order_of_creation() {
    let mut table: Table<Issuer> = Table::new();
    for n in [5u8, 3, 9, 1] {
        assert_eq!(table.create(issuer_with_pool(n, u64::from(n))), Ok(()));
    }
    assert_eq!(table.len(), 4);
    assert_eq!(table.find(&key(5)), Some(0));
    assert_eq!(table.find(&key(3)), Some(1));
    assert_eq!(table.find(&key(9)), Some(2));
    assert_eq!(table.find(&key(1)), Some(3));
    assert_eq!(table.replace(issuer_with_pool(3, 33)), Ok(issuer_with_pool(3, 3)));
    assert_eq!(table.find(&key(3)), Some(1));
    assert_eq!(table.find(&key(1)), Some(3));
    assert_eq!(table.get(&key(3)), Some(&issuer_with_pool(3, 33)));
}

#[test]
fn no_plan_is_written_as_zero_bytes() {
    assert_eq!(plan_id_to_bytes(None), [0u8; 16]);
    assert_eq!(plan_id_to_bytes(Some(key(4))), key(4));
    assert_eq!(plan_id_from_bytes([0u8; 16]), None);
    assert_eq!(plan_id_from_bytes(key(4)), Some(key(4)));
    let mut almost = [0u8; 16];
    almost[15] = 1;
    assert_eq!(plan_id_from_bytes(almost), Some(almost));
    assert_eq!(plan_id_to_bytes(plan_id_from_bytes(almost)), almost);
    assert_eq!(plan_id_to_bytes(Some([0u8; 16])), [0u8; 16]);
}
