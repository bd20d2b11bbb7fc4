//! One counterparty.

use vstd::prelude::*;

verus! {

/// A counterparty as the service knows it.
#[derive(Debug)]
pub struct Partner {
    /// Taxpayer identification number.
    pub inn: String,
    /// The reason code of registration.
    pub kpp: String,
    /// The day for which the information is asked, in UTC.
    pub dt: chrono::NaiveDateTime,
    /// What the service found: 0 for a taxpayer that was registered and
    /// active on that day, 1 to 4 for one that was not active, not known
    /// under that reason code or not registered, 5 to 12 for a request that
    /// is wrong in its number, its reason code or its date.
    pub state: i32,
}

/// A counterparty, as mathematics.
pub struct PartnerView {
    pub inn: Seq<char>,
    pub kpp: Seq<char>,
    pub dt: chrono::NaiveDateTime,
    pub state: int,
}

impl View for Partner {
    type V = PartnerView;

    open spec fn view(&self) -> PartnerView {
        PartnerView { inn: self.inn@, kpp: self.kpp@, dt: self.dt, state: self.state as int }
    }
}

impl Partner {
    /// A counterparty to ask about: no status is known of it yet.
    pub fn new(inn: &str, kpp: &str, dt: chrono::NaiveDateTime) -> (r: Partner)
        ensures
            r@ == (PartnerView { inn: inn@, kpp: kpp@, dt, state: 0 }),
    {
        Partner { inn: inn.to_owned(), kpp: kpp.to_owned(), dt, state: 0 }
    }
}

} // verus!
