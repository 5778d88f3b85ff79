//! The aggregator's decisions. One search goes out to three providers at
//! once, one per category, and their results come back as one answer. The
//! providers run wherever the caller puts them; what is decided here is
//! whether they run at all, what each of them is given, and what the
//! results add up to.

use crate::models::{Activity, AggregatedTravelData, Flight, Hotel, ProviderError};
use crate::models::{TravelSearchQuery, TravelSearchQueryView};
use vstd::prelude::*;

verus! {

/// The three kinds of offer. Each has one provider.
#[derive(Clone, Copy, Debug, PartialEq, Eq, Structural)]
pub enum Category {
    Flights,
    Hotels,
    Activities,
}

/// Why a query is refused before any provider is asked.
#[derive(Clone, Copy, Debug, PartialEq, Eq, Structural)]
pub enum ValidationError {
    /// The query names no destination.
    MissingLocation,
}

/// A unit of work ended without a result of its own: a fault of the
/// machinery that runs the providers, not of a provider.
#[derive(Debug)]
pub struct InfrastructureError {
    /// The category whose work was lost.
    pub category: Category,
    pub detail: String,
}

/// The two ways in which a whole search fails.
#[derive(Debug)]
pub enum AggregateError {
    Validation(ValidationError),
    Infrastructure(InfrastructureError),
}

/// How one provider's unit of work ended.
#[derive(Debug)]
pub enum SearchOutcome<T> {
    /// The provider ran to its end, and found offers or reported a failure.
    Completed(Result<T, ProviderError>),
    /// The work broke off without a result.
    Crashed { detail: String },
}

/// A validated query, once for each provider.
#[derive(Debug)]
pub struct FanOut {
    pub flights: TravelSearchQuery,
    pub hotels: TravelSearchQuery,
    pub activities: TravelSearchQuery,
}

/// A query is valid when it names a destination.
pub open spec fn is_valid(query: TravelSearchQueryView) -> bool {
    query.location.len() > 0
}

/// The words of the liveness answer.
pub open spec fn health_status() -> Seq<char> {
    "Rust Data Aggregation Service is healthy"@
}

/// The liveness answer: always the same words.
pub fn health() -> (status: String)
    ensures
        status@ == health_status(),
{
    "Rust Data Aggregation Service is healthy".to_string()
}

/// Checks a query before anything is launched.
pub fn validate(query: &TravelSearchQuery) -> (checked: Result<(), ValidationError>)
    ensures
        checked == if is_valid(query@) {
            Ok::<(), ValidationError>(())
        } else {
            Err::<(), ValidationError>(ValidationError::MissingLocation)
        },
{
    if query.location.as_str().is_empty() {
        Err(ValidationError::MissingLocation)
    } else {
        Ok(())
    }
}

/// The first step of a search: a valid query comes back three times, one
/// copy for each provider to own; an invalid one is refused, and there is
/// nothing to hand to any provider.
pub fn fan_out(query: TravelSearchQuery) -> (launch: Result<FanOut, ValidationError>)
    ensures
        match launch {
            Ok(copies) => is_valid(query@) && copies.flights == query && copies.hotels == query
                && copies.activities == query,
            Err(refusal) => !is_valid(query@) && refusal == ValidationError::MissingLocation,
        },
{
    match validate(&query) {
        Ok(()) => {
            let hotels = query.clone();
            let activities = query.clone();
            Ok(FanOut { flights: query, hotels, activities })
        },
        Err(refusal) => Err(refusal),
    }
}

/// What three outcomes add up to. Where each provider ran to its end, the
/// answer holds for each category what its provider gave, offers or failure
/// alike. Where a unit of work broke off, the search fails as a whole, and
/// the error names the first such category in the order flights, hotels,
/// activities.
pub open spec fn assembled(
    flights: SearchOutcome<Vec<Flight>>,
    hotels: SearchOutcome<Vec<Hotel>>,
    activities: SearchOutcome<Vec<Activity>>,
) -> Result<AggregatedTravelData, AggregateError> {
    match (flights, hotels, activities) {
        (
            SearchOutcome::Completed(flights),
            SearchOutcome::Completed(hotels),
            SearchOutcome::Completed(activities),
        ) => Ok(AggregatedTravelData { flights, hotels, activities }),
        (SearchOutcome::Crashed { detail }, _, _) => Err(
            AggregateError::Infrastructure(
                InfrastructureError { category: Category::Flights, detail },
            ),
        ),
        (_, SearchOutcome::Crashed { detail }, _) => Err(
            AggregateError::Infrastructure(
                InfrastructureError { category: Category::Hotels, detail },
            ),
        ),
        (_, _, SearchOutcome::Crashed { detail }) => Err(
            AggregateError::Infrastructure(
                InfrastructureError { category: Category::Activities, detail },
            ),
        ),
    }
}

/// The last step of a search, once all three units of work have ended:
/// puts their outcomes together. Nothing is filtered or reordered here.
pub fn assemble(
    flights: SearchOutcome<Vec<Flight>>,
    hotels: SearchOutcome<Vec<Hotel>>,
    activities: SearchOutcome<Vec<Activity>>,
) -> (answer: Result<AggregatedTravelData, AggregateError>)
    ensures
        answer == assembled(flights, hotels, activities),
{
    let flights = match flights {
        SearchOutcome::Completed(result) => result,
        SearchOutcome::Crashed { detail } => {
            return Err(
                AggregateError::Infrastructure(
                    InfrastructureError { category: Category::Flights, detail },
                ),
            );
        },
    };
    let hotels = match hotels {
        SearchOutcome::Completed(result) => result,
        SearchOutcome::Crashed { detail } => {
            return Err(
                AggregateError::Infrastructure(
                    InfrastructureError { category: Category::Hotels, detail },
                ),
            );
        },
    };
    let activities = match activities {
        SearchOutcome::Completed(result) => result,
        SearchOutcome::Crashed { detail } => {
            return Err(
                AggregateError::Infrastructure(
                    InfrastructureError { category: Category::Activities, detail },
                ),
            );
        },
    };
    Ok(AggregatedTravelData { flights, hotels, activities })
}

/// Whether a search can end in `answer` where the three providers are the
/// functions given. An invalid query has one end, the refusal. A valid one
/// ends in what the providers' results add up to, each provider having been
/// given the query.
pub open spec fn aggregate_gives<F, H, A>(
    query: TravelSearchQuery,
    flights: F,
    hotels: H,
    activities: A,
    answer: Result<AggregatedTravelData, AggregateError>,
) -> bool where
    F: FnOnce(TravelSearchQuery) -> Result<Vec<Flight>, ProviderError>,
    H: FnOnce(TravelSearchQuery) -> Result<Vec<Hotel>, ProviderError>,
    A: FnOnce(TravelSearchQuery) -> Result<Vec<Activity>, ProviderError>,
 {
    if is_valid(query@) {
        exists|
            found_flights: Result<Vec<Flight>, ProviderError>,
            found_hotels: Result<Vec<Hotel>, ProviderError>,
            found_activities: Result<Vec<Activity>, ProviderError>,
        |
            flights.ensures((query,), found_flights) && hotels.ensures((query,), found_hotels)
                && activities.ensures((query,), found_activities) && answer == #[trigger] assembled(
                SearchOutcome::Completed(found_flights),
                SearchOutcome::Completed(found_hotels),
                SearchOutcome::Completed(found_activities),
            )
    } else {
        answer == Err::<AggregatedTravelData, AggregateError>(
            AggregateError::Validation(ValidationError::MissingLocation),
        )
    }
}

/// One whole search on the calling thread. An invalid query is refused and
/// no provider is asked. For a valid one each provider is asked once, with
/// a copy of the query, and the results are put together; a provider that
/// reports a failure does not keep the others from being asked.
///
/// The providers are asked in turn here. A caller that wants their work to
/// overlap launches it on the copies that [`fan_out`] gives and hands the
/// outcomes to [`assemble`]: the answer is put together in the same way.
pub fn aggregate_travel_data<F, H, A>(
    query: TravelSearchQuery,
    flights: F,
    hotels: H,
    activities: A,
) -> (answer: Result<AggregatedTravelData, AggregateError>) where
    F: FnOnce(TravelSearchQuery) -> Result<Vec<Flight>, ProviderError>,
    H: FnOnce(TravelSearchQuery) -> Result<Vec<Hotel>, ProviderError>,
    A: FnOnce(TravelSearchQuery) -> Result<Vec<Activity>, ProviderError>,

    requires
        is_valid(query@) ==> flights.requires((query,)) && hotels.requires((query,))
            && activities.requires((query,)),
    ensures
        aggregate_gives(query, flights, hotels, activities, answer),
{
    match fan_out(query) {
        Err(refusal) => Err(AggregateError::Validation(refusal)),
        Ok(copies) => {
            let found_flights = flights(copies.flights);
            let found_hotels = hotels(copies.hotels);
            let found_activities = activities(copies.activities);
            assemble(
                SearchOutcome::Completed(found_flights),
                SearchOutcome::Completed(found_hotels),
                SearchOutcome::Completed(found_activities),
            )
        },
    }
}

/// The HTTP status that goes with the end of a search.
pub open spec fn status_for(answer: Result<AggregatedTravelData, AggregateError>) -> u16 {
    match answer {
        Ok(_) => 200,
        Err(AggregateError::Validation(_)) => 400,
        Err(AggregateError::Infrastructure(_)) => 500,
    }
}

/// The HTTP status that goes with the end of a search: success whenever
/// there is an answer, whatever its categories hold; a client error for a
/// refused query; a server error for a fault of the machinery.
pub fn response_status(answer: &Result<AggregatedTravelData, AggregateError>) -> (status: u16)
    ensures
        status == status_for(*answer),
{
    match answer {
        Ok(_) => 200,
        Err(AggregateError::Validation(_)) => 400,
        Err(AggregateError::Infrastructure(_)) => 500,
    }
}

/// A provider's failure stays in its own category: where all three units of
/// work ran to their end, the search has an answer, and each category in it
/// holds exactly what its provider gave. In particular, where one provider
/// failed and two found offers, the answer holds the offers of the two and
/// the failure of the one.
pub proof fn lemma_provider_failure_is_isolated(
    flights: Result<Vec<Flight>, ProviderError>,
    hotels: Result<Vec<Hotel>, ProviderError>,
    activities: Result<Vec<Activity>, ProviderError>,
)
    ensures
        assembled(
            SearchOutcome::Completed(flights),
            SearchOutcome::Completed(hotels),
            SearchOutcome::Completed(activities),
        ) == Ok::<AggregatedTravelData, AggregateError>(
            AggregatedTravelData { flights, hotels, activities },
        ),
        status_for(
            assembled(
                SearchOutcome::Completed(flights),
                SearchOutcome::Completed(hotels),
                SearchOutcome::Completed(activities),
            ),
        ) == 200,
{
}

} // verus!
