//! Domain records carried through the façade.
//!
//! The façade never inspects or edits these records: it forwards them to the
//! backend when indexing and surfaces them unchanged when searching. Prices
//! are carried as integral cents so that money never loses precision in
//! transit; the transport layer converts to and from its wire format.

use vstd::prelude::*;

verus! {

/// One flight offer, as indexed and as returned by a search.
#[derive(Clone, Debug, PartialEq, Eq)]
pub struct Flight {
    pub id: String,
    pub origin: String,
    pub destination: String,
    pub departure_date: String,
    pub return_date: Option<String>,
    pub airline: String,
    pub flight_number: String,
    pub price_cents: u64,
    pub stops: u32,
    pub cabin: String,
}

/// One entry of the popular-routes aggregation computed by the backend.
#[derive(Clone, Debug, PartialEq, Eq)]
pub struct PopularRoute {
    pub origin: String,
    pub destination: String,
    pub flight_count: u64,
}

} // verus!
