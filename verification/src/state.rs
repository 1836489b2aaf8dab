//! The records of the ledger and the keys they are stored under.
//!
//! Identifiers are sixteen opaque bytes. Quantities, prices and amounts are
//! unsigned 64-bit integers.

use vstd::prelude::*;

verus! {

/// The identifier made of sixteen zero bytes.
pub open spec fn zero_id() -> [u8; 16] {
    vstd::array::spec_array_fill_for_copy_type::<u8, 16>(0u8)
}

/// Tells whether two identifiers hold the same bytes.
pub fn same_id(a: &[u8; 16], b: &[u8; 16]) -> (same: bool)
    ensures
        same == (*a == *b),
{
    let mut i: usize = 0;
    while i < 16
        invariant
            i <= 16,
            forall|k: int| 0 <= k < i ==> a[k] == b[k],
        decreases 16 - i,
    {
        if a[i] != b[i] {
            return false;
        }
        i += 1;
    }
    assert(*a =~= *b);
    true
}

/// How an optional stock plan is written where there is room for an
/// identifier only: the identifier of the plan, or sixteen zero bytes for no
/// plan.
pub open spec fn plan_id_bytes(stock_plan_id: Option<[u8; 16]>) -> [u8; 16] {
    match stock_plan_id {
        Some(id) => id,
        None => zero_id(),
    }
}

/// Writes an optional stock plan as sixteen bytes, zero for no plan.
pub fn plan_id_to_bytes(stock_plan_id: Option<[u8; 16]>) -> (bytes: [u8; 16])
    ensures
        bytes == plan_id_bytes(stock_plan_id),
{
    match stock_plan_id {
        Some(id) => id,
        None => [0u8; 16],
    }
}

/// Reads an optional stock plan from sixteen bytes: zero bytes stand for no
/// plan, anything else is the identifier of the plan.
pub fn plan_id_from_bytes(bytes: [u8; 16]) -> (stock_plan_id: Option<[u8; 16]>)
    ensures
        bytes == zero_id() ==> stock_plan_id is None,
        bytes != zero_id() ==> stock_plan_id == Some(bytes),
        plan_id_bytes(stock_plan_id) == bytes,
{
    let zero = [0u8; 16];
    if same_id(&bytes, &zero) {
        None
    } else {
        Some(bytes)
    }
}

/// A record that is stored under a key derived from its own fields.
pub trait Keyed {
    /// The type of the key.
    type Key;

    /// The key this record is stored under.
    spec fn key(&self) -> Self::Key;

    /// Tells whether this record is stored under `key`.
    fn has_key(&self, key: &Self::Key) -> (found: bool)
        ensures
            found == (self.key() == *key),
    ;

    /// The key this record is stored under.
    fn key_of(&self) -> (key: Self::Key)
        ensures
            key == self.key(),
    ;
}

/// The key of a position held by a stakeholder: the stakeholder and the security.
#[derive(Clone, Copy, Debug, PartialEq, Eq)]
pub struct PositionKey {
    pub stakeholder_id: [u8; 16],
    pub security_id: [u8; 16],
}

/// The key of an equity compensation position: the security, the stock class
/// it draws on and the stakeholder.
#[derive(Clone, Copy, Debug, PartialEq, Eq)]
pub struct EquityCompensationKey {
    pub security_id: [u8; 16],
    pub stock_class_id: [u8; 16],
    pub stakeholder_id: [u8; 16],
}

/// The company whose capitalization is tracked.
#[derive(Clone, Copy, Debug, PartialEq, Eq)]
pub struct Issuer {
    pub id: [u8; 16],
    pub shares_issued: u64,
    pub shares_authorized: u64,
}

/// A category of equity with its own authorized and issued pool.
#[derive(Debug, PartialEq, Eq)]
pub struct StockClass {
    pub id: [u8; 16],
    pub class_type: String,
    pub price_per_share: u64,
    pub shares_issued: u64,
    pub shares_authorized: u64,
}

/// A stakeholder's holding of issued stock.
#[derive(Clone, Copy, Debug, PartialEq, Eq)]
pub struct StockActivePosition {
    pub stakeholder_id: [u8; 16],
    pub stock_class_id: [u8; 16],
    pub security_id: [u8; 16],
    pub quantity: u64,
    pub share_price: u64,
}

/// A shorter name for the record of a stock holding.
pub type StockPosition = StockActivePosition;

/// A party that can hold positions.
#[derive(Clone, Copy, Debug, PartialEq, Eq)]
pub struct Stakeholder {
    pub id: [u8; 16],
}

/// A pool of shares reserved to back equity compensation, drawn from one or
/// more stock classes.
#[derive(Debug, PartialEq, Eq)]
pub struct StockPlan {
    pub id: [u8; 16],
    pub stock_class_ids: Vec<[u8; 16]>,
    pub shares_reserved: u64,
}

/// A stakeholder's holding of a convertible.
#[derive(Clone, Copy, Debug, PartialEq, Eq)]
pub struct ConvertibleActivePosition {
    pub stakeholder_id: [u8; 16],
    pub security_id: [u8; 16],
    pub investment_amount: u64,
}

/// A grant of equity compensation and what is left of it to exercise.
#[derive(Clone, Copy, Debug, PartialEq, Eq)]
pub struct EquityCompensationActivePosition {
    pub stakeholder_id: [u8; 16],
    pub stock_class_id: [u8; 16],
    /// The plan the grant was made under, if any.
    pub stock_plan_id: Option<[u8; 16]>,
    pub security_id: [u8; 16],
    pub quantity: u64,
}

/// A stakeholder's holding of a warrant.
#[derive(Clone, Copy, Debug, PartialEq, Eq)]
pub struct WarrantActivePosition {
    pub stakeholder_id: [u8; 16],
    pub security_id: [u8; 16],
    pub quantity: u64,
}

impl Issuer {
    /// The record as the store hands it out before it is first written.
    pub open spec fn blank() -> Issuer {
        Issuer { id: zero_id(), shares_issued: 0, shares_authorized: 0 }
    }
}

impl Default for Issuer {
    fn default() -> (record: Self)
        ensures
            record == Issuer::blank(),
    {
        Issuer { id: [0u8; 16], shares_issued: 0, shares_authorized: 0 }
    }
}

impl Keyed for Issuer {
    type Key = [u8; 16];

    open spec fn key(&self) -> [u8; 16] {
        self.id
    }

    fn has_key(&self, key: &[u8; 16]) -> (found: bool) {
        same_id(&self.id, key)
    }

    fn key_of(&self) -> (key: [u8; 16]) {
        self.id
    }
}

impl Clone for StockClass {
    fn clone(&self) -> (copy: Self)
        ensures
            copy == *self,
    {
        StockClass {
            id: self.id,
            class_type: self.class_type.clone(),
            price_per_share: self.price_per_share,
            shares_issued: self.shares_issued,
            shares_authorized: self.shares_authorized,
        }
    }
}

impl Default for StockClass {
    fn default() -> (record: Self)
        ensures
            record.id == zero_id(),
            record.class_type@ == Seq::<char>::empty(),
            record.price_per_share == 0,
            record.shares_issued == 0,
            record.shares_authorized == 0,
    {
        StockClass {
            id: [0u8; 16],
            class_type: String::new(),
            price_per_share: 0,
            shares_issued: 0,
            shares_authorized: 0,
        }
    }
}

impl Keyed for StockClass {
    type Key = [u8; 16];

    open spec fn key(&self) -> [u8; 16] {
        self.id
    }

    fn has_key(&self, key: &[u8; 16]) -> (found: bool) {
        same_id(&self.id, key)
    }

    fn key_of(&self) -> (key: [u8; 16]) {
        self.id
    }
}

impl Stakeholder {
    /// The record as the store hands it out before it is first written.
    pub open spec fn blank() -> Stakeholder {
        Stakeholder { id: zero_id() }
    }
}

impl Default for Stakeholder {
    fn default() -> (record: Self)
        ensures
            record == Stakeholder::blank(),
    {
        Stakeholder { id: [0u8; 16] }
    }
}

impl Keyed for Stakeholder {
    type Key = [u8; 16];

    open spec fn key(&self) -> [u8; 16] {
        self.id
    }

    fn has_key(&self, key: &[u8; 16]) -> (found: bool) {
        same_id(&self.id, key)
    }

    fn key_of(&self) -> (key: [u8; 16]) {
        self.id
    }
}

impl Default for StockPlan {
    fn default() -> (record: Self)
        ensures
            record.id == zero_id(),
            record.stock_class_ids@ == Seq::<[u8; 16]>::empty(),
            record.shares_reserved == 0,
    {
        StockPlan { id: [0u8; 16], stock_class_ids: Vec::new(), shares_reserved: 0 }
    }
}

impl Keyed for StockPlan {
    type Key = [u8; 16];

    open spec fn key(&self) -> [u8; 16] {
        self.id
    }

    fn has_key(&self, key: &[u8; 16]) -> (found: bool) {
        same_id(&self.id, key)
    }

    fn key_of(&self) -> (key: [u8; 16]) {
        self.id
    }
}

impl StockPlan {
    /// Whether the plan draws on the stock class `stock_class_id`.
    pub open spec fn covers_spec(self, stock_class_id: [u8; 16]) -> bool {
        self.stock_class_ids@.contains(stock_class_id)
    }

    /// Tells whether the plan draws on the stock class `stock_class_id`.
    pub fn covers(&self, stock_class_id: &[u8; 16]) -> (covered: bool)
        ensures
            covered == self.covers_spec(*stock_class_id),
    {
        let mut i: usize = 0;
        while i < self.stock_class_ids.len()
            invariant
                i <= self.stock_class_ids.len(),
                forall|k: int| 0 <= k < i ==> self.stock_class_ids@[k] != *stock_class_id,
            decreases self.stock_class_ids.len() - i,
        {
            if same_id(&self.stock_class_ids[i], stock_class_id) {
                return true;
            }
            i += 1;
        }
        false
    }
}

impl PositionKey {
    /// Tells whether this key names `stakeholder_id` and `security_id`.
    pub fn names(&self, stakeholder_id: &[u8; 16], security_id: &[u8; 16]) -> (same: bool)
        ensures
            same == (self.stakeholder_id == *stakeholder_id && self.security_id == *security_id),
    {
        same_id(&self.stakeholder_id, stakeholder_id) && same_id(&self.security_id, security_id)
    }
}

impl StockActivePosition {
    /// The record as the store hands it out before it is first written.
    pub open spec fn blank() -> StockActivePosition {
        StockActivePosition {
            stakeholder_id: zero_id(),
            stock_class_id: zero_id(),
            security_id: zero_id(),
            quantity: 0,
            share_price: 0,
        }
    }
}

impl Default for StockActivePosition {
    fn default() -> (record: Self)
        ensures
            record == StockActivePosition::blank(),
    {
        StockActivePosition {
            stakeholder_id: [0u8; 16],
            stock_class_id: [0u8; 16],
            security_id: [0u8; 16],
            quantity: 0,
            share_price: 0,
        }
    }
}

impl Keyed for StockActivePosition {
    type Key = PositionKey;

    open spec fn key(&self) -> PositionKey {
        PositionKey { stakeholder_id: self.stakeholder_id, security_id: self.security_id }
    }

    fn has_key(&self, key: &PositionKey) -> (found: bool) {
        key.names(&self.stakeholder_id, &self.security_id)
    }

    fn key_of(&self) -> (key: PositionKey) {
        PositionKey { stakeholder_id: self.stakeholder_id, security_id: self.security_id }
    }
}

impl ConvertibleActivePosition {
    /// The record as the store hands it out before it is first written.
    pub open spec fn blank() -> ConvertibleActivePosition {
        ConvertibleActivePosition {
            stakeholder_id: zero_id(),
            security_id: zero_id(),
            investment_amount: 0,
        }
    }
}

impl Default for ConvertibleActivePosition {
    fn default() -> (record: Self)
        ensures
            record == ConvertibleActivePosition::blank(),
    {
        ConvertibleActivePosition {
            stakeholder_id: [0u8; 16],
            security_id: [0u8; 16],
            investment_amount: 0,
        }
    }
}

impl Keyed for ConvertibleActivePosition {
    type Key = PositionKey;

    open spec fn key(&self) -> PositionKey {
        PositionKey { stakeholder_id: self.stakeholder_id, security_id: self.security_id }
    }

    fn has_key(&self, key: &PositionKey) -> (found: bool) {
        key.names(&self.stakeholder_id, &self.security_id)
    }

    fn key_of(&self) -> (key: PositionKey) {
        PositionKey { stakeholder_id: self.stakeholder_id, security_id: self.security_id }
    }
}

impl EquityCompensationActivePosition {
    /// The record as the store hands it out before it is first written.
    pub open spec fn blank() -> EquityCompensationActivePosition {
        EquityCompensationActivePosition {
            stakeholder_id: zero_id(),
            stock_class_id: zero_id(),
            stock_plan_id: None,
            security_id: zero_id(),
            quantity: 0,
        }
    }
}

impl Default for EquityCompensationActivePosition {
    fn default() -> (record: Self)
        ensures
            record == EquityCompensationActivePosition::blank(),
    {
        EquityCompensationActivePosition {
            stakeholder_id: [0u8; 16],
            stock_class_id: [0u8; 16],
            stock_plan_id: None,
            security_id: [0u8; 16],
            quantity: 0,
        }
    }
}

impl Keyed for EquityCompensationActivePosition {
    type Key = EquityCompensationKey;

    open spec fn key(&self) -> EquityCompensationKey {
        EquityCompensationKey {
            security_id: self.security_id,
            stock_class_id: self.stock_class_id,
            stakeholder_id: self.stakeholder_id,
        }
    }

    fn has_key(&self, key: &EquityCompensationKey) -> (found: bool) {
        same_id(&self.security_id, &key.security_id) && same_id(
            &self.stock_class_id,
            &key.stock_class_id,
        ) && same_id(&self.stakeholder_id, &key.stakeholder_id)
    }

    fn key_of(&self) -> (key: EquityCompensationKey) {
        EquityCompensationKey {
            security_id: self.security_id,
            stock_class_id: self.stock_class_id,
            stakeholder_id: self.stakeholder_id,
        }
    }
}

impl WarrantActivePosition {
    /// The record as the store hands it out before it is first written.
    pub open spec fn blank() -> WarrantActivePosition {
        WarrantActivePosition { stakeholder_id: zero_id(), security_id: zero_id(), quantity: 0 }
    }
}

impl Default for WarrantActivePosition {
    fn default() -> (record: Self)
        ensures
            record == WarrantActivePosition::blank(),
    {
        WarrantActivePosition { stakeholder_id: [0u8; 16], security_id: [0u8; 16], quantity: 0 }
    }
}

impl Keyed for WarrantActivePosition {
    type Key = PositionKey;

    open spec fn key(&self) -> PositionKey {
        PositionKey { stakeholder_id: self.stakeholder_id, security_id: self.security_id }
    }

    fn has_key(&self, key: &PositionKey) -> (found: bool) {
        key.names(&self.stakeholder_id, &self.security_id)
    }

    fn key_of(&self) -> (key: PositionKey) {
        PositionKey { stakeholder_id: self.stakeholder_id, security_id: self.security_id }
    }
}

} // verus!
