//! The records that travel between the providers, the aggregator and the
//! caller. Every record has a view made of sequences and integers, and the
//! contracts of the crate speak of those views.
//!
//! Money is held in hundredths of the currency unit and a hotel's rating in
//! tenths of a star, so that every comparison is exact.

use crate::amadeus_auth::AuthError;
use vstd::prelude::*;

verus! {

/// One flight offer.
#[derive(Debug)]
pub struct Flight {
    pub id: String,
    pub airline: String,
    pub flight_number: String,
    pub origin: String,
    pub destination: String,
    pub departure_date: String,
    pub arrival_date: String,
    pub departure_time: String,
    pub arrival_time: String,
    /// Price of the whole trip, in hundredths.
    pub price_cents: i64,
    /// The source that produced this offer.
    pub provider: String,
}

/// What a [`Flight`] holds.
pub struct FlightView {
    pub id: Seq<char>,
    pub airline: Seq<char>,
    pub flight_number: Seq<char>,
    pub origin: Seq<char>,
    pub destination: Seq<char>,
    pub departure_date: Seq<char>,
    pub arrival_date: Seq<char>,
    pub departure_time: Seq<char>,
    pub arrival_time: Seq<char>,
    pub price_cents: int,
    pub provider: Seq<char>,
}

impl View for Flight {
    type V = FlightView;

    open spec fn view(&self) -> FlightView {
        FlightView {
            id: self.id@,
            airline: self.airline@,
            flight_number: self.flight_number@,
            origin: self.origin@,
            destination: self.destination@,
            departure_date: self.departure_date@,
            arrival_date: self.arrival_date@,
            departure_time: self.departure_time@,
            arrival_time: self.arrival_time@,
            price_cents: self.price_cents as int,
            provider: self.provider@,
        }
    }
}

impl DeepView for Flight {
    type V = FlightView;

    open spec fn deep_view(&self) -> FlightView {
        self@
    }
}

impl Clone for Flight {
    fn clone(&self) -> (copy: Self)
        ensures
            copy == *self,
    {
        Flight {
            id: self.id.clone(),
            airline: self.airline.clone(),
            flight_number: self.flight_number.clone(),
            origin: self.origin.clone(),
            destination: self.destination.clone(),
            departure_date: self.departure_date.clone(),
            arrival_date: self.arrival_date.clone(),
            departure_time: self.departure_time.clone(),
            arrival_time: self.arrival_time.clone(),
            price_cents: self.price_cents,
            provider: self.provider.clone(),
        }
    }
}

/// One hotel offer.
#[derive(Debug)]
pub struct Hotel {
    pub id: String,
    pub name: String,
    pub location: String,
    pub check_in_date: String,
    pub check_out_date: String,
    /// Price of one night, in hundredths.
    pub price_per_night_cents: i64,
    /// Rating in tenths of a star: 47 stands for 4.7.
    pub rating_tenths: u32,
    pub amenities: Vec<String>,
    /// The source that produced this offer.
    pub provider: String,
}

/// What a [`Hotel`] holds.
pub struct HotelView {
    pub id: Seq<char>,
    pub name: Seq<char>,
    pub location: Seq<char>,
    pub check_in_date: Seq<char>,
    pub check_out_date: Seq<char>,
    pub price_per_night_cents: int,
    pub rating_tenths: nat,
    pub amenities: Seq<Seq<char>>,
    pub provider: Seq<char>,
}

impl View for Hotel {
    type V = HotelView;

    open spec fn view(&self) -> HotelView {
        HotelView {
            id: self.id@,
            name: self.name@,
            location: self.location@,
            check_in_date: self.check_in_date@,
            check_out_date: self.check_out_date@,
            price_per_night_cents: self.price_per_night_cents as int,
            rating_tenths: self.rating_tenths as nat,
            amenities: self.amenities.deep_view(),
            provider: self.provider@,
        }
    }
}

impl DeepView for Hotel {
    type V = HotelView;

    open spec fn deep_view(&self) -> HotelView {
        self@
    }
}

impl Clone for Hotel {
    fn clone(&self) -> (copy: Self)
        ensures
            copy@ == self@,
    {
        let copy = Hotel {
            id: self.id.clone(),
            name: self.name.clone(),
            location: self.location.clone(),
            check_in_date: self.check_in_date.clone(),
            check_out_date: self.check_out_date.clone(),
            price_per_night_cents: self.price_per_night_cents,
            rating_tenths: self.rating_tenths,
            amenities: self.amenities.clone(),
            provider: self.provider.clone(),
        };
        assert(copy.amenities.deep_view() =~= self.amenities.deep_view());
        copy
    }
}

/// One activity offer.
#[derive(Debug)]
pub struct Activity {
    pub id: String,
    pub name: String,
    pub location: String,
    pub date: String,
    /// Price for one person, in hundredths.
    pub price_per_person_cents: i64,
    pub description: String,
    /// The source that produced this offer.
    pub provider: String,
}

/// What an [`Activity`] holds.
pub struct ActivityView {
    pub id: Seq<char>,
    pub name: Seq<char>,
    pub location: Seq<char>,
    pub date: Seq<char>,
    pub price_per_person_cents: int,
    pub description: Seq<char>,
    pub provider: Seq<char>,
}

impl View for Activity {
    type V = ActivityView;

    open spec fn view(&self) -> ActivityView {
        ActivityView {
            id: self.id@,
            name: self.name@,
            location: self.location@,
            date: self.date@,
            price_per_person_cents: self.price_per_person_cents as int,
            description: self.description@,
            provider: self.provider@,
        }
    }
}

impl DeepView for Activity {
    type V = ActivityView;

    open spec fn deep_view(&self) -> ActivityView {
        self@
    }
}

impl Clone for Activity {
    fn clone(&self) -> (copy: Self)
        ensures
            copy == *self,
    {
        Activity {
            id: self.id.clone(),
            name: self.name.clone(),
            location: self.location.clone(),
            date: self.date.clone(),
            price_per_person_cents: self.price_per_person_cents,
            description: self.description.clone(),
            provider: self.provider.clone(),
        }
    }
}

/// One search: where to, and what narrows the offers.
#[derive(Debug)]
pub struct TravelSearchQuery {
    /// The destination. A search without one is refused.
    pub location: String,
    pub start_date: Option<String>,
    pub end_date: Option<String>,
    /// The budget for the whole trip, in hundredths.
    pub budget_cents: Option<i64>,
    pub keywords: Option<String>,
}

/// What a [`TravelSearchQuery`] holds.
pub struct TravelSearchQueryView {
    pub location: Seq<char>,
    pub start_date: Option<Seq<char>>,
    pub end_date: Option<Seq<char>>,
    pub budget_cents: Option<int>,
    pub keywords: Option<Seq<char>>,
}

impl View for TravelSearchQuery {
    type V = TravelSearchQueryView;

    open spec fn view(&self) -> TravelSearchQueryView {
        TravelSearchQueryView {
            location: self.location@,
            start_date: self.start_date.deep_view(),
            end_date: self.end_date.deep_view(),
            budget_cents: match self.budget_cents {
                Some(budget) => Some(budget as int),
                None => None,
            },
            keywords: self.keywords.deep_view(),
        }
    }
}

impl Clone for TravelSearchQuery {
    fn clone(&self) -> (copy: Self)
        ensures
            copy == *self,
    {
        TravelSearchQuery {
            location: self.location.clone(),
            start_date: self.start_date.clone(),
            end_date: self.end_date.clone(),
            budget_cents: self.budget_cents,
            keywords: self.keywords.clone(),
        }
    }
}

/// Why a provider's search came to nothing.
#[derive(Debug)]
pub enum FailureCause {
    /// The provider did not answer within the time allowed.
    Timeout,
    /// The provider could not be reached, or its answer could not be read.
    Transport { detail: String },
    /// The provider answered with an error of its own.
    Upstream { detail: String },
    /// No token could be had for a provider that needs one.
    Auth(AuthError),
}

/// The mark that a category carries in place of its offers: which provider
/// failed, and why.
#[derive(Debug)]
pub struct ProviderError {
    pub provider: String,
    pub cause: FailureCause,
}

/// The answer to one search: for each category the offers, in the order in
/// which the provider gave them, or the mark of its failure.
#[derive(Debug)]
pub struct AggregatedTravelData {
    pub flights: Result<Vec<Flight>, ProviderError>,
    pub hotels: Result<Vec<Hotel>, ProviderError>,
    pub activities: Result<Vec<Activity>, ProviderError>,
}

} // verus!
