//! The answer of the service to one request.

use vstd::prelude::*;
use crate::models::partner::{Partner, PartnerView};

verus! {

/// What the service sends back.
#[derive(Debug)]
pub struct NdsResponse {
    /// The day up to which the data on individual entrepreneurs is current.
    pub dtact_fl: chrono::NaiveDateTime,
    /// The day up to which the data on legal entities is current.
    pub dtact_ul: chrono::NaiveDateTime,
    /// The counterparties asked about, each with its status.
    pub partners: Vec<Partner>,
}

/// An answer of the service, as mathematics.
pub struct NdsResponseView {
    pub dtact_fl: chrono::NaiveDateTime,
    pub dtact_ul: chrono::NaiveDateTime,
    pub partners: Seq<PartnerView>,
}

/// The counterparties of a row, each as mathematics, in the same order.
pub open spec fn partner_views(partners: Seq<Partner>) -> Seq<PartnerView> {
    Seq::new(partners.len(), |i: int| partners[i]@)
}

impl View for NdsResponse {
    type V = NdsResponseView;

    open spec fn view(&self) -> NdsResponseView {
        NdsResponseView {
            dtact_fl: self.dtact_fl,
            dtact_ul: self.dtact_ul,
            partners: partner_views(self.partners@),
        }
    }
}

} // verus!
