//! The booking configuration of a center and the answer to a slot search.

use vstd::prelude::*;

verus! {

/// An appointment type offered by a center.
#[derive(Debug, Clone, PartialEq, Eq)]
pub struct VisitMotive {
    pub id: u32,
    pub name: String,
}

/// A physical location of a center, with the practices that work there.
#[derive(Debug, Clone, PartialEq, Eq)]
pub struct Place {
    pub id: String,
    pub address: String,
    pub zipcode: String,
    pub city: String,
    pub formal_name: String,
    pub full_address: String,
    pub practice_ids: Vec<u32>,
}

/// A bookable calendar of one practice, with the motives it accepts.
///
/// `booking_temporary_disabled` is carried as the platform sends it; no rule
/// of this crate reads it.
#[derive(Debug, Clone, PartialEq, Eq)]
pub struct Agenda {
    pub id: u32,
    pub booking_disabled: bool,
    pub booking_temporary_disabled: bool,
    pub visit_motive_ids: Vec<u32>,
    pub practice_id: u32,
}

/// Everything a center publishes about its bookings.
#[derive(Debug, Clone, PartialEq, Eq)]
pub struct BookingData {
    pub visit_motives: Vec<VisitMotive>,
    pub places: Vec<Place>,
    pub agendas: Vec<Agenda>,
}

/// The number of open slots that a search matched.
#[derive(Debug, Clone, Copy, PartialEq, Eq)]
pub struct Availabilities {
    pub total: u32,
}

} // verus!
