//! Lots (batches) of consumable stock with expiry dates.
use vstd::prelude::*;
use crate::clock::current_day;

verus! {

/// A lot of an item; the expiry date is a day number counted from the first day of
/// the common era.
#[derive(Debug, Clone)]
pub struct LotRecord {
    pub id: u128,
    pub item_id: u128,
    pub lot_number: String,
    pub expiry_date: Option<i32>,
    pub quantity: i64,
    pub location_id: Option<u128>,
    pub received_at: String,
    pub notes: String,
    pub active: bool,
}

/// Days from `today` until the lot expires; none when the lot has no expiry date.
pub open spec fn days_until(lot: LotRecord, today: int) -> Option<int> {
    match lot.expiry_date {
        Some(e) => Some(e - today),
        None => None,
    }
}

/// The lot's expiry date has passed on `today`.
pub open spec fn expired_on(lot: LotRecord, today: int) -> bool {
    match days_until(lot, today) {
        Some(d) => d < 0,
        None => false,
    }
}

/// The lot expires within `days` days of `today`, and has not expired yet.
pub open spec fn expiring_within(lot: LotRecord, today: int, days: int) -> bool {
    match days_until(lot, today) {
        Some(d) => 0 <= d && d <= days,
        None => false,
    }
}

impl LotRecord {
    /// Days from the day numbered `today` until the lot expires.
    pub fn days_until_expiry_on(&self, today: i32) -> (r: Option<i64>)
        ensures
            r is Some <==> self.expiry_date is Some,
            r matches Some(d) ==> Some(d as int) == days_until(*self, today as int),
    {
        match self.expiry_date {
            Some(e) => Some(e as i64 - today as i64),
            None => None,
        }
    }

    /// Days from today (by the clock) until the lot expires.
    pub fn days_until_expiry(&self) -> (r: Option<i64>)
        ensures
            exists|t: i32|
                (r is Some <==> days_until(*self, t as int) is Some) && (r matches Some(d)
                    ==> Some(d as int) == days_until(*self, t as int)),
    {
        let t = current_day();
        self.days_until_expiry_on(t)
    }

    /// Whether the lot has expired on the day numbered `today`.
    pub fn is_expired_on(&self, today: i32) -> (r: bool)
        ensures
            r == expired_on(*self, today as int),
    {
        match self.days_until_expiry_on(today) {
            Some(d) => d < 0,
            None => false,
        }
    }

    /// Whether the lot has expired today (by the clock).
    pub fn is_expired(&self) -> (r: bool)
        ensures
            exists|t: i32| r == expired_on(*self, t as int),
    {
        let t = current_day();
        self.is_expired_on(t)
    }

    /// Whether the lot expires within `days` days of the day numbered `today`.
    pub fn is_expiring_soon_on(&self, today: i32, days: i64) -> (r: bool)
        ensures
            r == expiring_within(*self, today as int, days as int),
    {
        match self.days_until_expiry_on(today) {
            Some(d) => d >= 0 && d <= days,
            None => false,
        }
    }

    /// Whether the lot expires within `days` days of today (by the clock).
    pub fn is_expiring_soon(&self, days: i64) -> (r: bool)
        ensures
            exists|t: i32| r == expiring_within(*self, t as int, days as int),
    {
        let t = current_day();
        self.is_expiring_soon_on(t, days)
    }

    /// A copy of the lot.
    pub fn duplicate(&self) -> (r: LotRecord)
        ensures
            r == *self,
    {
        LotRecord {
            id: self.id,
            item_id: self.item_id,
            lot_number: self.lot_number.clone(),
            expiry_date: self.expiry_date,
            quantity: self.quantity,
            location_id: self.location_id,
            received_at: self.received_at.clone(),
            notes: self.notes.clone(),
            active: self.active,
        }
    }
}

/// On any day a lot is never both expired and expiring soon, and a lot without an
/// expiry date is neither.
pub proof fn lemma_expired_excludes_expiring(lot: LotRecord, today: int, days: int)
    ensures
        !(expired_on(lot, today) && expiring_within(lot, today, days)),
        lot.expiry_date is None ==> !expired_on(lot, today) && !expiring_within(lot, today, days),
{
}

/// A lot has expired on a day exactly when it has an expiry date before that day, and
/// expires within `days` days exactly when its expiry date falls from that day to
/// `days` days later; a lot without an expiry date does neither.
pub proof fn law_lot_expiry(lot: LotRecord, today: int, days: int)
    ensures
        expired_on(lot, today) <==> (lot.expiry_date is Some && lot.expiry_date->Some_0 < today),
        expiring_within(lot, today, days) <==> (lot.expiry_date is Some && today <= lot.expiry_date->Some_0
            && lot.expiry_date->Some_0 <= today + days),
{
}

} // verus!
