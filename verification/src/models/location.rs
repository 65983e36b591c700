//! Storage locations: warehouse, aisle, rack and bin.
use vstd::prelude::*;

verus! {

/// A bin in the warehouse / aisle / rack / bin hierarchy.
#[derive(Debug, Clone)]
pub struct Location {
    pub id: u128,
    pub warehouse: String,
    pub aisle: String,
    pub rack: String,
    pub bin: String,
    pub description: String,
    pub capacity_note: String,
    pub active: bool,
}

/// The short code of a location: its four levels joined by `-`.
pub open spec fn location_code(l: Location) -> Seq<char> {
    l.warehouse@ + "-"@ + l.aisle@ + "-"@ + l.rack@ + "-"@ + l.bin@
}

impl Location {
    /// The short code `warehouse-aisle-rack-bin`.
    pub fn display_code(&self) -> (r: String)
        ensures
            r@ == location_code(*self),
    {
        let mut r = self.warehouse.clone();
        r.append("-");
        r.append(self.aisle.as_str());
        r.append("-");
        r.append(self.rack.as_str());
        r.append("-");
        r.append(self.bin.as_str());
        r
    }

    /// A copy of the location.
    pub fn duplicate(&self) -> (r: Location)
        ensures
            r == *self,
    {
        Location {
            id: self.id,
            warehouse: self.warehouse.clone(),
            aisle: self.aisle.clone(),
            rack: self.rack.clone(),
            bin: self.bin.clone(),
            description: self.description.clone(),
            capacity_note: self.capacity_note.clone(),
            active: self.active,
        }
    }
}

} // verus!
