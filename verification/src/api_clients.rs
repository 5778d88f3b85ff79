//! Three sample providers, one per kind of offer. Each one knows a handful
//! of offers for London and for Paris, and narrows them by the query in its
//! own way: a flight is held against the whole budget, a hotel against the
//! budget for an assumed stay, an activity against half of the budget.
//!
//! A provider only computes. Whoever calls it decides when it runs and how
//! long it may take.

use crate::models::{Activity, ActivityView, Flight, FlightView, Hotel, HotelView};
use crate::models::{TravelSearchQuery, TravelSearchQueryView};
use crate::text::{contains, eq_ignore_ascii_case, to_lowercase};
use crate::text::{occurs_in, same_ignoring_ascii_case, unicode_lowercase};
use vstd::prelude::*;

verus! {

/// The number of nights a hotel stay is taken to last when it is held
/// against a budget.
pub const ASSUMED_NIGHTS: i64 = 5;

/// The part of a budget, as a divisor, that one activity may take up.
pub const ACTIVITY_SHARE: i64 = 2;

/// A flight fits a budget when its price does not exceed it.
pub open spec fn flight_fits(budget: int) -> spec_fn(FlightView) -> bool {
    |f: FlightView| f.price_cents <= budget
}

/// A hotel fits a budget when `ASSUMED_NIGHTS` nights do not exceed it.
pub open spec fn hotel_fits(budget: int) -> spec_fn(HotelView) -> bool {
    |h: HotelView| h.price_per_night_cents * ASSUMED_NIGHTS <= budget
}

/// An activity fits a budget when one person's price does not exceed the
/// budget divided by `ACTIVITY_SHARE`.
pub open spec fn activity_fits(budget: int) -> spec_fn(ActivityView) -> bool {
    |a: ActivityView| a.price_per_person_cents * ACTIVITY_SHARE <= budget
}

/// An activity mentions a phrase when the phrase, already in lower case,
/// occurs in the lower-case form of its name or of its description.
pub open spec fn activity_mentions(phrase: Seq<char>) -> spec_fn(ActivityView) -> bool {
    |a: ActivityView|
        occurs_in(phrase, unicode_lowercase(a.name)) || occurs_in(
            phrase,
            unicode_lowercase(a.description),
        )
}

/// What is left of `offers` under an optional budget: all of them where no
/// budget is given, else those that `fits` accepts, in their order.
pub open spec fn under_budget<V>(
    offers: Seq<V>,
    budget: Option<int>,
    fits: spec_fn(int) -> spec_fn(V) -> bool,
) -> Seq<V> {
    match budget {
        Some(limit) => offers.filter(fits(limit)),
        None => offers,
    }
}

/// Filtering a sequence that grew by one item: the item is kept or dropped,
/// and what came before is filtered as it was.
pub proof fn lemma_filter_push<A>(s: Seq<A>, x: A, keep: spec_fn(A) -> bool)
    ensures
        s.push(x).filter(keep) == if keep(x) {
            s.filter(keep).push(x)
        } else {
            s.filter(keep)
        },
{
    reveal(Seq::filter);
    assert(s.push(x).drop_last() == s);
}

/// Filtering nothing leaves nothing.
pub proof fn lemma_filter_empty<A>(keep: spec_fn(A) -> bool)
    ensures
        Seq::<A>::empty().filter(keep) == Seq::<A>::empty(),
{
    reveal(Seq::filter);
}

/// Keeps the flights whose price does not exceed the budget, in their order.
pub fn retain_flights_within(flights: Vec<Flight>, budget_cents: i64) -> (kept: Vec<Flight>)
    ensures
        kept.deep_view() == flights.deep_view().filter(flight_fits(budget_cents as int)),
{
    let ghost views = flights.deep_view();
    let ghost items = flights@;
    let ghost keep = flight_fits(budget_cents as int);
    let mut kept: Vec<Flight> = Vec::new();
    proof {
        lemma_filter_empty(keep);
        assert(views.take(0) == Seq::<FlightView>::empty());
        assert(kept.deep_view() == Seq::<FlightView>::empty());
    }
    for flight in it: flights
        invariant
            it.seq() == items,
            views.len() == items.len(),
            forall|k: int| 0 <= k < items.len() ==> views[k] == #[trigger] items[k]@,
            keep == flight_fits(budget_cents as int),
            kept.deep_view() == views.take(it.index() as int).filter(keep),
    {
        let ghost i = it.index() as int;
        let ghost before = kept.deep_view();
        proof {
            assert(views.take(i + 1) == views.take(i).push(views[i]));
            lemma_filter_push(views.take(i), views[i], keep);
        }
        if flight.price_cents <= budget_cents {
            kept.push(flight);
            assert(kept.deep_view() == before.push(flight@));
        }
    }
    assert(views.take(views.len() as int) == views);
    kept
}

/// Keeps the hotels for which `ASSUMED_NIGHTS` nights do not exceed the
/// budget, in their order.
pub fn retain_hotels_within(hotels: Vec<Hotel>, budget_cents: i64) -> (kept: Vec<Hotel>)
    ensures
        kept.deep_view() == hotels.deep_view().filter(hotel_fits(budget_cents as int)),
{
    let ghost views = hotels.deep_view();
    let ghost items = hotels@;
    let ghost keep = hotel_fits(budget_cents as int);
    let mut kept: Vec<Hotel> = Vec::new();
    proof {
        lemma_filter_empty(keep);
        assert(views.take(0) == Seq::<HotelView>::empty());
        assert(kept.deep_view() == Seq::<HotelView>::empty());
    }
    for hotel in it: hotels
        invariant
            it.seq() == items,
            views.len() == items.len(),
            forall|k: int| 0 <= k < items.len() ==> views[k] == #[trigger] items[k]@,
            keep == hotel_fits(budget_cents as int),
            kept.deep_view() == views.take(it.index() as int).filter(keep),
    {
        let ghost i = it.index() as int;
        let ghost before = kept.deep_view();
        proof {
            assert(views.take(i + 1) == views.take(i).push(views[i]));
            lemma_filter_push(views.take(i), views[i], keep);
        }
        assert(-0x4_0000_0000_0000_0000 <= hotel.price_per_night_cents * ASSUMED_NIGHTS
            <= 0x4_0000_0000_0000_0000) by (nonlinear_arith)
            requires
                ASSUMED_NIGHTS == 5,
                -0x8000_0000_0000_0000 <= hotel.price_per_night_cents <= 0x7fff_ffff_ffff_ffff,
        ;
        let stay: i128 = hotel.price_per_night_cents as i128 * ASSUMED_NIGHTS as i128;
        if stay <= budget_cents as i128 {
            kept.push(hotel);
            assert(kept.deep_view() == before.push(hotel@));
        }
    }
    assert(views.take(views.len() as int) == views);
    kept
}

/// Keeps the activities whose price for one person does not exceed the
/// budget divided by `ACTIVITY_SHARE`, in their order.
pub fn retain_activities_within(activities: Vec<Activity>, budget_cents: i64) -> (kept: Vec<
    Activity,
>)
    ensures
        kept.deep_view() == activities.deep_view().filter(activity_fits(budget_cents as int)),
{
    let ghost views = activities.deep_view();
    let ghost items = activities@;
    let ghost keep = activity_fits(budget_cents as int);
    let mut kept: Vec<Activity> = Vec::new();
    proof {
        lemma_filter_empty(keep);
        assert(views.take(0) == Seq::<ActivityView>::empty());
        assert(kept.deep_view() == Seq::<ActivityView>::empty());
    }
    for activity in it: activities
        invariant
            it.seq() == items,
            views.len() == items.len(),
            forall|k: int| 0 <= k < items.len() ==> views[k] == #[trigger] items[k]@,
            keep == activity_fits(budget_cents as int),
            kept.deep_view() == views.take(it.index() as int).filter(keep),
    {
        let ghost i = it.index() as int;
        let ghost before = kept.deep_view();
        proof {
            assert(views.take(i + 1) == views.take(i).push(views[i]));
            lemma_filter_push(views.take(i), views[i], keep);
        }
        assert(-0x4_0000_0000_0000_0000 <= activity.price_per_person_cents * ACTIVITY_SHARE
            <= 0x4_0000_0000_0000_0000) by (nonlinear_arith)
            requires
                ACTIVITY_SHARE == 2,
                -0x8000_0000_0000_0000 <= activity.price_per_person_cents
                    <= 0x7fff_ffff_ffff_ffff,
        ;
        let share: i128 = activity.price_per_person_cents as i128 * ACTIVITY_SHARE as i128;
        if share <= budget_cents as i128 {
            kept.push(activity);
            assert(kept.deep_view() == before.push(activity@));
        }
    }
    assert(views.take(views.len() as int) == views);
    kept
}

/// Whether a phrase occurs in one of two texts. The three arguments are
/// meant to be in lower case already.
pub fn mentions(name: &str, description: &str, phrase: &str) -> (found: bool)
    ensures
        found == (occurs_in(phrase@, name@) || occurs_in(phrase@, description@)),
{
    contains(name, phrase) || contains(description, phrase)
}

/// Keeps the activities that mention the phrase, in their order. The phrase
/// is taken as it is; names and descriptions are put into lower case first.
pub fn retain_activities_mentioning(activities: Vec<Activity>, phrase: &str) -> (kept: Vec<
    Activity,
>)
    ensures
        kept.deep_view() == activities.deep_view().filter(activity_mentions(phrase@)),
{
    let ghost views = activities.deep_view();
    let ghost items = activities@;
    let ghost keep = activity_mentions(phrase@);
    let mut kept: Vec<Activity> = Vec::new();
    proof {
        lemma_filter_empty(keep);
        assert(views.take(0) == Seq::<ActivityView>::empty());
        assert(kept.deep_view() == Seq::<ActivityView>::empty());
    }
    for activity in it: activities
        invariant
            it.seq() == items,
            views.len() == items.len(),
            forall|k: int| 0 <= k < items.len() ==> views[k] == #[trigger] items[k]@,
            keep == activity_mentions(phrase@),
            kept.deep_view() == views.take(it.index() as int).filter(keep),
    {
        let ghost i = it.index() as int;
        let ghost before = kept.deep_view();
        proof {
            assert(views.take(i + 1) == views.take(i).push(views[i]));
            lemma_filter_push(views.take(i), views[i], keep);
        }
        let name = to_lowercase(activity.name.as_str());
        let description = to_lowercase(activity.description.as_str());
        if mentions(name.as_str(), description.as_str(), phrase) {
            kept.push(activity);
            assert(kept.deep_view() == before.push(activity@));
        }
    }
    assert(views.take(views.len() as int) == views);
    kept
}

/// The name under which the sample flight provider signs its offers.
pub open spec fn flight_provider_name() -> Seq<char> {
    "Skyscanner"@
}

/// The name under which the sample hotel provider signs its offers.
pub open spec fn hotel_provider_name() -> Seq<char> {
    "Hotelbeds"@
}

/// The name under which the sample activity provider signs its offers.
pub open spec fn activity_provider_name() -> Seq<char> {
    "Viator"@
}

/// The first of the two London flights.
pub open spec fn london_flight_ba() -> FlightView {
    FlightView {
        id: "SKY001"@,
        airline: "British Airways"@,
        flight_number: "BA286"@,
        origin: "NYC"@,
        destination: "London"@,
        departure_date: "2025-07-20"@,
        arrival_date: "2025-07-21"@,
        departure_time: "19:00"@,
        arrival_time: "07:00"@,
        price_cents: 65000,
        provider: flight_provider_name(),
    }
}

/// The second of the two London flights.
pub open spec fn london_flight_vs() -> FlightView {
    FlightView {
        id: "SKY002"@,
        airline: "Virgin Atlantic"@,
        flight_number: "VS001"@,
        origin: "LAX"@,
        destination: "London"@,
        departure_date: "2025-07-22"@,
        arrival_date: "2025-07-23"@,
        departure_time: "17:00"@,
        arrival_time: "10:00"@,
        price_cents: 72050,
        provider: flight_provider_name(),
    }
}

/// The Paris flight.
pub open spec fn paris_flight_af() -> FlightView {
    FlightView {
        id: "SKY003"@,
        airline: "Air France"@,
        flight_number: "AF100"@,
        origin: "NYC"@,
        destination: "Paris"@,
        departure_date: "2025-08-01"@,
        arrival_date: "2025-08-02"@,
        departure_time: "20:00"@,
        arrival_time: "08:00"@,
        price_cents: 58000,
        provider: flight_provider_name(),
    }
}

/// The flights that the sample provider knows for a destination, before any
/// narrowing. The destination is matched without regard to ASCII case.
pub open spec fn flight_catalogue(location: Seq<char>) -> Seq<FlightView> {
    if same_ignoring_ascii_case(location, "London"@) {
        seq![london_flight_ba(), london_flight_vs()]
    } else if same_ignoring_ascii_case(location, "Paris"@) {
        seq![paris_flight_af()]
    } else {
        Seq::empty()
    }
}

/// The flights that the sample provider answers a query with.
pub open spec fn flight_offers(query: TravelSearchQueryView) -> Seq<FlightView> {
    under_budget(flight_catalogue(query.location), query.budget_cents, |b: int| flight_fits(b))
}

/// The first of the two London hotels.
pub open spec fn london_hotel_grand() -> HotelView {
    HotelView {
        id: "HBD001"@,
        name: "The Grand London"@,
        location: "London"@,
        check_in_date: "2025-07-20"@,
        check_out_date: "2025-07-25"@,
        price_per_night_cents: 25000,
        rating_tenths: 47,
        amenities: seq!["WiFi"@, "Spa"@],
        provider: hotel_provider_name(),
    }
}

/// The second of the two London hotels.
pub open spec fn london_hotel_cozy() -> HotelView {
    HotelView {
        id: "HBD002"@,
        name: "Cozy Inn London"@,
        location: "London"@,
        check_in_date: "2025-07-21"@,
        check_out_date: "2025-07-24"@,
        price_per_night_cents: 12000,
        rating_tenths: 39,
        amenities: seq!["Breakfast"@],
        provider: hotel_provider_name(),
    }
}

/// The Paris hotel.
pub open spec fn paris_hotel_belle_vue() -> HotelView {
    HotelView {
        id: "HBD003"@,
        name: "Hotel Belle Vue"@,
        location: "Paris"@,
        check_in_date: "2025-08-01"@,
        check_out_date: "2025-08-05"@,
        price_per_night_cents: 30000,
        rating_tenths: 49,
        amenities: seq!["Restaurant"@, "Balcony"@],
        provider: hotel_provider_name(),
    }
}

/// The hotels that the sample provider knows for a destination, before any
/// narrowing. The destination is matched without regard to ASCII case.
pub open spec fn hotel_catalogue(location: Seq<char>) -> Seq<HotelView> {
    if same_ignoring_ascii_case(location, "London"@) {
        seq![london_hotel_grand(), london_hotel_cozy()]
    } else if same_ignoring_ascii_case(location, "Paris"@) {
        seq![paris_hotel_belle_vue()]
    } else {
        Seq::empty()
    }
}

/// The hotels that the sample provider answers a query with.
pub open spec fn hotel_offers(query: TravelSearchQueryView) -> Seq<HotelView> {
    under_budget(hotel_catalogue(query.location), query.budget_cents, |b: int| hotel_fits(b))
}

/// The first of the two London activities.
pub open spec fn london_activity_eye() -> ActivityView {
    ActivityView {
        id: "VTR001"@,
        name: "London Eye Ticket"@,
        location: "London"@,
        date: "2025-07-22"@,
        price_per_person_cents: 3500,
        description: "Panoramic views of London from the iconic Ferris wheel."@,
        provider: activity_provider_name(),
    }
}

/// The second of the two London activities.
pub open spec fn london_activity_tower() -> ActivityView {
    ActivityView {
        id: "VTR002"@,
        name: "Tower of London Tour"@,
        location: "London"@,
        date: "2025-07-23"@,
        price_per_person_cents: 3000,
        description: "Explore the historic Tower of London and Crown Jewels."@,
        provider: activity_provider_name(),
    }
}

/// The Paris activity.
pub open spec fn paris_activity_louvre() -> ActivityView {
    ActivityView {
        id: "VTR003"@,
        name: "Louvre Museum Skip-the-Line"@,
        location: "Paris"@,
        date: "2025-08-03"@,
        price_per_person_cents: 6000,
        description: "Visit the world-famous Louvre Museum with priority access."@,
        provider: activity_provider_name(),
    }
}

/// The activities that the sample provider knows for a destination, before
/// any narrowing. The destination is matched without regard to ASCII case.
pub open spec fn activity_catalogue(location: Seq<char>) -> Seq<ActivityView> {
    if same_ignoring_ascii_case(location, "London"@) {
        seq![london_activity_eye(), london_activity_tower()]
    } else if same_ignoring_ascii_case(location, "Paris"@) {
        seq![paris_activity_louvre()]
    } else {
        Seq::empty()
    }
}

/// What is left of `offers` under optional keywords: all of them where none
/// are given, else those that mention the lower-case form of the keywords.
pub open spec fn mentioning(offers: Seq<ActivityView>, keywords: Option<Seq<char>>) -> Seq<
    ActivityView,
> {
    match keywords {
        Some(phrase) => offers.filter(activity_mentions(unicode_lowercase(phrase))),
        None => offers,
    }
}

/// The activities that the sample provider answers a query with: narrowed by
/// keywords first, by budget second.
pub open spec fn activity_offers(query: TravelSearchQueryView) -> Seq<ActivityView> {
    under_budget(
        mentioning(activity_catalogue(query.location), query.keywords),
        query.budget_cents,
        |b: int| activity_fits(b),
    )
}

/// The flights that the sample provider knows for the query's destination.
fn flights_for(location: &str) -> (flights: Vec<Flight>)
    ensures
        flights.deep_view() == flight_catalogue(location@),
{
    let mut flights: Vec<Flight> = Vec::new();
    if eq_ignore_ascii_case(location, "London") {
        flights.push(
            Flight {
                id: "SKY001".to_string(),
                airline: "British Airways".to_string(),
                flight_number: "BA286".to_string(),
                origin: "NYC".to_string(),
                destination: "London".to_string(),
                departure_date: "2025-07-20".to_string(),
                arrival_date: "2025-07-21".to_string(),
                departure_time: "19:00".to_string(),
                arrival_time: "07:00".to_string(),
                price_cents: 65000,
                provider: "Skyscanner".to_string(),
            },
        );
        flights.push(
            Flight {
                id: "SKY002".to_string(),
                airline: "Virgin Atlantic".to_string(),
                flight_number: "VS001".to_string(),
                origin: "LAX".to_string(),
                destination: "London".to_string(),
                departure_date: "2025-07-22".to_string(),
                arrival_date: "2025-07-23".to_string(),
                departure_time: "17:00".to_string(),
                arrival_time: "10:00".to_string(),
                price_cents: 72050,
                provider: "Skyscanner".to_string(),
            },
        );
    } else if eq_ignore_ascii_case(location, "Paris") {
        flights.push(
            Flight {
                id: "SKY003".to_string(),
                airline: "Air France".to_string(),
                flight_number: "AF100".to_string(),
                origin: "NYC".to_string(),
                destination: "Paris".to_string(),
                departure_date: "2025-08-01".to_string(),
                arrival_date: "2025-08-02".to_string(),
                departure_time: "20:00".to_string(),
                arrival_time: "08:00".to_string(),
                price_cents: 58000,
                provider: "Skyscanner".to_string(),
            },
        );
    }
    assert(flights.deep_view() =~= flight_catalogue(location@));
    flights
}

/// The sample flight provider: the flights known for the query's destination
/// whose price does not exceed the budget, where the query names one.
pub fn simulated_skyscanner_api_call(query: TravelSearchQuery) -> (flights: Vec<Flight>)
    ensures
        flights.deep_view() == flight_offers(query@),
{
    let flights = flights_for(query.location.as_str());
    match query.budget_cents {
        Some(budget) => retain_flights_within(flights, budget),
        None => flights,
    }
}

/// The hotels that the sample provider knows for a destination.
fn hotels_for(location: &str) -> (hotels: Vec<Hotel>)
    ensures
        hotels.deep_view() == hotel_catalogue(location@),
{
    let mut hotels: Vec<Hotel> = Vec::new();
    if eq_ignore_ascii_case(location, "London") {
        let grand = Hotel {
            id: "HBD001".to_string(),
            name: "The Grand London".to_string(),
            location: "London".to_string(),
            check_in_date: "2025-07-20".to_string(),
            check_out_date: "2025-07-25".to_string(),
            price_per_night_cents: 25000,
            rating_tenths: 47,
            amenities: vec!["WiFi".to_string(), "Spa".to_string()],
            provider: "Hotelbeds".to_string(),
        };
        let cozy = Hotel {
            id: "HBD002".to_string(),
            name: "Cozy Inn London".to_string(),
            location: "London".to_string(),
            check_in_date: "2025-07-21".to_string(),
            check_out_date: "2025-07-24".to_string(),
            price_per_night_cents: 12000,
            rating_tenths: 39,
            amenities: vec!["Breakfast".to_string()],
            provider: "Hotelbeds".to_string(),
        };
        assert(grand.amenities.deep_view() =~= london_hotel_grand().amenities);
        assert(cozy.amenities.deep_view() =~= london_hotel_cozy().amenities);
        hotels.push(grand);
        hotels.push(cozy);
    } else if eq_ignore_ascii_case(location, "Paris") {
        let belle_vue = Hotel {
            id: "HBD003".to_string(),
            name: "Hotel Belle Vue".to_string(),
            location: "Paris".to_string(),
            check_in_date: "2025-08-01".to_string(),
            check_out_date: "2025-08-05".to_string(),
            price_per_night_cents: 30000,
            rating_tenths: 49,
            amenities: vec!["Restaurant".to_string(), "Balcony".to_string()],
            provider: "Hotelbeds".to_string(),
        };
        assert(belle_vue.amenities.deep_view() =~= paris_hotel_belle_vue().amenities);
        hotels.push(belle_vue);
    }
    assert(hotels.deep_view() =~= hotel_catalogue(location@));
    hotels
}

/// The sample hotel provider: the hotels known for the query's destination
/// for which the assumed stay does not exceed the budget, where the query
/// names one.
pub fn simulated_hotelbeds_api_call(query: TravelSearchQuery) -> (hotels: Vec<Hotel>)
    ensures
        hotels.deep_view() == hotel_offers(query@),
{
    let hotels = hotels_for(query.location.as_str());
    match query.budget_cents {
        Some(budget) => retain_hotels_within(hotels, budget),
        None => hotels,
    }
}

/// The activities that the sample provider knows for a destination.
fn activities_for(location: &str) -> (activities: Vec<Activity>)
    ensures
        activities.deep_view() == activity_catalogue(location@),
{
    let mut activities: Vec<Activity> = Vec::new();
    if eq_ignore_ascii_case(location, "London") {
        activities.push(
            Activity {
                id: "VTR001".to_string(),
                name: "London Eye Ticket".to_string(),
                location: "London".to_string(),
                date: "2025-07-22".to_string(),
                price_per_person_cents: 3500,
                description: "Panoramic views of London from the iconic Ferris wheel.".to_string(),
                provider: "Viator".to_string(),
            },
        );
        activities.push(
            Activity {
                id: "VTR002".to_string(),
                name: "Tower of London Tour".to_string(),
                location: "London".to_string(),
                date: "2025-07-23".to_string(),
                price_per_person_cents: 3000,
                description: "Explore the historic Tower of London and Crown Jewels.".to_string(),
                provider: "Viator".to_string(),
            },
        );
    } else if eq_ignore_ascii_case(location, "Paris") {
        activities.push(
            Activity {
                id: "VTR003".to_string(),
                name: "Louvre Museum Skip-the-Line".to_string(),
                location: "Paris".to_string(),
                date: "2025-08-03".to_string(),
                price_per_person_cents: 6000,
                description: "Visit the world-famous Louvre Museum with priority access.".to_string(),
                provider: "Viator".to_string(),
            },
        );
    }
    assert(activities.deep_view() =~= activity_catalogue(location@));
    activities
}

/// The sample activity provider: the activities known for the query's
/// destination, narrowed to those that mention the keywords, where the query
/// has any, and then to those that fit the budget, where it names one.
pub fn simulated_viator_api_call(query: TravelSearchQuery) -> (activities: Vec<Activity>)
    ensures
        activities.deep_view() == activity_offers(query@),
{
    let known = activities_for(query.location.as_str());
    let mentioned = match &query.keywords {
        Some(keywords) => {
            let phrase = to_lowercase(keywords.as_str());
            retain_activities_mentioning(known, phrase.as_str())
        },
        None => known,
    };
    match query.budget_cents {
        Some(budget) => retain_activities_within(mentioned, budget),
        None => mentioned,
    }
}

/// What holds of every item of a sequence holds of every item that a filter
/// keeps.
pub proof fn lemma_filter_keeps<A>(s: Seq<A>, keep: spec_fn(A) -> bool, holds: spec_fn(A) -> bool)
    requires
        forall|i: int| 0 <= i < s.len() ==> holds(#[trigger] s[i]),
    ensures
        forall|i: int| 0 <= i < s.filter(keep).len() ==> holds(#[trigger] s.filter(keep)[i]),
    decreases s.len(),
{
    if s.len() == 0 {
        lemma_filter_empty(keep);
        assert(s == Seq::<A>::empty());
    } else {
        let front = s.drop_last();
        let last = s.last();
        assert forall|i: int| 0 <= i < front.len() implies holds(#[trigger] front[i]) by {
            assert(front[i] == s[i]);
        }
        lemma_filter_keeps(front, keep, holds);
        assert(s == front.push(last));
        lemma_filter_push(front, last, keep);
        assert(holds(last));
        assert forall|i: int| 0 <= i < s.filter(keep).len() implies holds(
            #[trigger] s.filter(keep)[i],
        ) by {
            if i < front.filter(keep).len() {
                assert(s.filter(keep)[i] == front.filter(keep)[i]);
            }
        }
    }
}

/// Every offer of a sample provider names that provider as its source,
/// whatever the query.
pub proof fn lemma_sample_offers_name_their_provider(query: TravelSearchQueryView)
    ensures
        forall|i: int|
            0 <= i < flight_offers(query).len() ==> (#[trigger] flight_offers(query)[i]).provider
                == flight_provider_name(),
        forall|i: int|
            0 <= i < hotel_offers(query).len() ==> (#[trigger] hotel_offers(query)[i]).provider
                == hotel_provider_name(),
        forall|i: int|
            0 <= i < activity_offers(query).len() ==> (#[trigger] activity_offers(
                query,
            )[i]).provider == activity_provider_name(),
{
    let flights = flight_catalogue(query.location);
    let hotels = hotel_catalogue(query.location);
    let activities = activity_catalogue(query.location);
    let by_flights = |f: FlightView| f.provider == flight_provider_name();
    let by_hotels = |h: HotelView| h.provider == hotel_provider_name();
    let by_activities = |a: ActivityView| a.provider == activity_provider_name();
    assert forall|i: int| 0 <= i < flights.len() implies by_flights(#[trigger] flights[i]) by {}
    assert forall|i: int| 0 <= i < hotels.len() implies by_hotels(#[trigger] hotels[i]) by {}
    assert forall|i: int| 0 <= i < activities.len() implies by_activities(
        #[trigger] activities[i],
    ) by {}
    let mentioned = mentioning(activities, query.keywords);
    if let Some(phrase) = query.keywords {
        lemma_filter_keeps(
            activities,
            activity_mentions(unicode_lowercase(phrase)),
            by_activities,
        );
    }
    assert forall|i: int| 0 <= i < mentioned.len() implies by_activities(
        #[trigger] mentioned[i],
    ) by {}
    if let Some(limit) = query.budget_cents {
        lemma_filter_keeps(flights, flight_fits(limit), by_flights);
        lemma_filter_keeps(hotels, hotel_fits(limit), by_hotels);
        lemma_filter_keeps(mentioned, activity_fits(limit), by_activities);
    }
    assert forall|i: int| 0 <= i < flight_offers(query).len() implies by_flights(
        #[trigger] flight_offers(query)[i],
    ) by {}
    assert forall|i: int| 0 <= i < hotel_offers(query).len() implies by_hotels(
        #[trigger] hotel_offers(query)[i],
    ) by {}
    assert forall|i: int| 0 <= i < activity_offers(query).len() implies by_activities(
        #[trigger] activity_offers(query)[i],
    ) by {}
}

} // verus!
