//! What the API says of itself.

use vstd::prelude::*;

verus! {

/// What the API says of itself in the caller's country.
#[derive(Debug, Clone)]
pub struct Infos {
    /// The ISO code of the country.
    pub country_iso: String,
    /// The name of the country.
    pub country: String,
    /// Whether the service is open in the country.
    pub open: bool,
    /// The offers that are available in the country.
    pub offers: Vec<Offer>,
}

/// A subscription offer, as listed in `Infos`.
#[derive(Debug, Clone)]
pub struct Offer {
    /// The id.
    pub id: u64,
    /// The name.
    pub name: String,
    /// The price.
    pub amount: String,
    /// The currency of the price.
    pub currency: String,
    /// The price as it is shown.
    pub displayed_amount: String,
    /// The terms and conditions.
    pub tc: String,
    /// The terms and conditions, as HTML.
    pub tc_html: String,
    /// The terms and conditions, as plain text.
    pub tc_txt: String,
    /// The length of the trial.
    pub try_and_buy: u64,
}

} // verus!
