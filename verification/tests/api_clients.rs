use travel_data_aggregator::api_clients::{
    mentions, retain_activities_mentioning, retain_activities_within, retain_flights_within,
    retain_hotels_within, simulated_hotelbeds_api_call, simulated_skyscanner_api_call,
    simulated_viator_api_call, ACTIVITY_SHARE, ASSUMED_NIGHTS,
};
use travel_data_aggregator::models::{Activity, Flight, Hotel, TravelSearchQuery};

fn query(location: &str, budget_cents: Option<i64>, keywords: Option<&str>) -> TravelSearchQuery {
    TravelSearchQuery {
        location: location.to_string(),
        start_date: None,
        end_date: None,
        budget_cents,
        keywords: keywords.map(|k| k.to_string()),
    }
}

fn flight(id: &str, price_cents: i64) -> Flight {
    Flight {
        id: id.to_string(),
        airline: "Air".to_string(),
        flight_number: "A1".to_string(),
        origin: "AAA".to_string(),
        destination: "BBB".to_string(),
        departure_date: "2025-01-01".to_string(),
        arrival_date: "2025-01-02".to_string(),
        departure_time: "10:00".to_string(),
        arrival_time: "12:00".to_string(),
        price_cents,
        provider: "Test".to_string(),
    }
}

fn hotel(id: &str, price_per_night_cents: i64) -> Hotel {
    Hotel {
        id: id.to_string(),
        name: "Inn".to_string(),
        location: "BBB".to_string(),
        check_in_date: "2025-01-01".to_string(),
        check_out_date: "2025-01-06".to_string(),
        price_per_night_cents,
        rating_tenths: 40,
        amenities: vec!["WiFi".to_string()],
        provider: "Test".to_string(),
    }
}

fn activity(id: &str, name: &str, description: &str, price_per_person_cents: i64) -> Activity {
    Activity {
        id: id.to_string(),
        name: name.to_string(),
        location: "BBB".to_string(),
        date: "2025-01-03".to_string(),
        price_per_person_cents,
        description: description.to_string(),
        provider: "Test".to_string(),
    }
}

fn flight_ids(flights: &[Flight]) -> Vec<&str> {
    flights.iter().map(|f| f.id.as_str()).collect()
}

fn hotel_ids(hotels: &[Hotel]) -> Vec<&str> {
    hotels.iter().map(|h| h.id.as_str()).collect()
}

fn activity_ids(activities: &[Activity]) -> Vec<&str> {
    activities.iter().map(|a| a.id.as_str()).collect()
}

#[test]
fn london_with_budget_700_yields_exactly_the_flight_at_650() {
    let flights = simulated_skyscanner_api_call(query("London", Some(70_000), None));
    assert_eq!(flights.len(), 1);
    let only = &flights[0];
    assert_eq!(only.id, "SKY001");
    assert_eq!(only.airline, "British Airways");
    assert_eq!(only.flight_number, "BA286");
    assert_eq!(only.origin, "NYC");
    assert_eq!(only.destination, "London");
    assert_eq!(only.departure_date, "2025-07-20");
    assert_eq!(only.arrival_date, "2025-07-21");
    assert_eq!(only.departure_time, "19:00");
    assert_eq!(only.arrival_time, "07:00");
    assert_eq!(only.price_cents, 65_000);
    assert_eq!(only.provider, "Skyscanner");
}

#[test]
fn flights_without_budget_are_the_whole_catalogue() {
    let london = simulated_skyscanner_api_call(query("London", None, None));
    assert_eq!(flight_ids(&london), vec!["SKY001", "SKY002"]);
    assert_eq!(london[1].price_cents, 72_050);
    assert_eq!(london[1].airline, "Virgin Atlantic");
    let paris = simulated_skyscanner_api_call(query("Paris", None, None));
    assert_eq!(flight_ids(&paris), vec!["SKY003"]);
    assert_eq!(paris[0].price_cents, 58_000);
    assert_eq!(paris[0].destination, "Paris");
    assert!(simulated_skyscanner_api_call(query("Rome", None, None)).is_empty());
    assert!(simulated_skyscanner_api_call(query("", None, None)).is_empty());
}

#[test]
fn flight_budget_boundary_is_inclusive() {
    let at = simulated_skyscanner_api_call(query("London", Some(72_050), None));
    assert_eq!(flight_ids(&at), vec!["SKY001", "SKY002"]);
    let below = simulated_skyscanner_api_call(query("London", Some(72_049), None));
    assert_eq!(flight_ids(&below), vec!["SKY001"]);
    let at_low = simulated_skyscanner_api_call(query("London", Some(65_000), None));
    assert_eq!(flight_ids(&at_low), vec!["SKY001"]);
    let none = simulated_skyscanner_api_call(query("London", Some(64_999), None));
    assert!(none.is_empty());
    let negative = simulated_skyscanner_api_call(query("London", Some(-1), None));
    assert!(negative.is_empty());
}

#[test]
fn destination_is_matched_without_regard_to_ascii_case() {
    for spelling in ["london", "LONDON", "lOnDoN"] {
        let flights = simulated_skyscanner_api_call(query(spelling, None, None));
        assert_eq!(flight_ids(&flights), vec!["SKY001", "SKY002"]);
        let hotels = simulated_hotelbeds_api_call(query(spelling, None, None));
        assert_eq!(hotel_ids(&hotels), vec!["HBD001", "HBD002"]);
        let activities = simulated_viator_api_call(query(spelling, None, None));
        assert_eq!(activity_ids(&activities), vec!["VTR001", "VTR002"]);
    }
    assert_eq!(
        flight_ids(&simulated_skyscanner_api_call(query("pARIS", None, None))),
        vec!["SKY003"]
    );
    for other in ["Londo", "London ", " London", "Londön", "Lond0n"] {
        assert!(simulated_skyscanner_api_call(query(other, None, None)).is_empty());
    }
}

#[test]
fn hotels_are_held_against_five_nights() {
    assert_eq!(ASSUMED_NIGHTS, 5);
    let all = simulated_hotelbeds_api_call(query("London", None, None));
    assert_eq!(hotel_ids(&all), vec!["HBD001", "HBD002"]);
    assert_eq!(all[0].name, "The Grand London");
    assert_eq!(all[0].price_per_night_cents, 25_000);
    assert_eq!(all[0].rating_tenths, 47);
    assert_eq!(all[0].amenities, vec!["WiFi", "Spa"]);
    assert_eq!(all[0].provider, "Hotelbeds");
    assert_eq!(all[1].name, "Cozy Inn London");
    assert_eq!(all[1].price_per_night_cents, 12_000);
    assert_eq!(all[1].rating_tenths, 39);
    assert_eq!(all[1].amenities, vec!["Breakfast"]);

    let with_700 = simulated_hotelbeds_api_call(query("London", Some(70_000), None));
    assert_eq!(hotel_ids(&with_700), vec!["HBD002"]);
    let at = simulated_hotelbeds_api_call(query("London", Some(60_000), None));
    assert_eq!(hotel_ids(&at), vec!["HBD002"]);
    let below = simulated_hotelbeds_api_call(query("London", Some(59_999), None));
    assert!(below.is_empty());
    let both = simulated_hotelbeds_api_call(query("London", Some(125_000), None));
    assert_eq!(hotel_ids(&both), vec!["HBD001", "HBD002"]);

    let paris = simulated_hotelbeds_api_call(query("Paris", Some(150_000), None));
    assert_eq!(hotel_ids(&paris), vec!["HBD003"]);
    assert_eq!(paris[0].name, "Hotel Belle Vue");
    assert_eq!(paris[0].rating_tenths, 49);
    assert_eq!(paris[0].amenities, vec!["Restaurant", "Balcony"]);
    assert!(simulated_hotelbeds_api_call(query("Paris", Some(149_999), None)).is_empty());
}

#[test]
fn activities_are_held_against_half_the_budget() {
    assert_eq!(ACTIVITY_SHARE, 2);
    let all = simulated_viator_api_call(query("London", None, None));
    assert_eq!(activity_ids(&all), vec!["VTR001", "VTR002"]);
    assert_eq!(all[0].name, "London Eye Ticket");
    assert_eq!(all[0].price_per_person_cents, 3_500);
    assert_eq!(all[0].description, "Panoramic views of London from the iconic Ferris wheel.");
    assert_eq!(all[0].provider, "Viator");
    assert_eq!(all[1].name, "Tower of London Tour");
    assert_eq!(all[1].price_per_person_cents, 3_000);

    let with_700 = simulated_viator_api_call(query("London", Some(70_000), None));
    assert_eq!(activity_ids(&with_700), vec!["VTR001", "VTR002"]);
    let at_eye = simulated_viator_api_call(query("London", Some(7_000), None));
    assert_eq!(activity_ids(&at_eye), vec!["VTR001", "VTR002"]);
    let below_eye = simulated_viator_api_call(query("London", Some(6_999), None));
    assert_eq!(activity_ids(&below_eye), vec!["VTR002"]);
    let odd = simulated_viator_api_call(query("London", Some(6_001), None));
    assert_eq!(activity_ids(&odd), vec!["VTR002"]);
    let at_tower = simulated_viator_api_call(query("London", Some(6_000), None));
    assert_eq!(activity_ids(&at_tower), vec!["VTR002"]);
    let below_tower = simulated_viator_api_call(query("London", Some(5_999), None));
    assert!(below_tower.is_empty());
}

#[test]
fn keywords_are_matched_in_lower_case_in_name_or_description() {
    let tower = simulated_viator_api_call(query("London", None, Some("TOWER")));
    assert_eq!(activity_ids(&tower), vec!["VTR002"]);
    let ferris = simulated_viator_api_call(query("London", None, Some("Ferris Wheel")));
    assert_eq!(activity_ids(&ferris), vec!["VTR001"]);
    let london = simulated_viator_api_call(query("London", None, Some("london")));
    assert_eq!(activity_ids(&london), vec!["VTR001", "VTR002"]);
    let empty = simulated_viator_api_call(query("London", None, Some("")));
    assert_eq!(activity_ids(&empty), vec!["VTR001", "VTR002"]);
    let nothing = simulated_viator_api_call(query("London", None, Some("louvre")));
    assert!(nothing.is_empty());
    let louvre = simulated_viator_api_call(query("Paris", None, Some("LOUVRE museum")));
    assert_eq!(activity_ids(&louvre), vec!["VTR003"]);
    assert_eq!(louvre[0].price_per_person_cents, 6_000);
}

#[test]
fn keywords_and_budget_narrow_together() {
    let both = simulated_viator_api_call(query("London", Some(6_500), Some("London")));
    assert_eq!(activity_ids(&both), vec!["VTR002"]);
    let neither = simulated_viator_api_call(query("London", Some(6_500), Some("ferris")));
    assert!(neither.is_empty());
}

#[test]
fn every_sample_offer_names_its_provider() {
    for location in ["London", "Paris"] {
        for f in simulated_skyscanner_api_call(query(location, None, None)) {
            assert_eq!(f.provider, "Skyscanner");
        }
        for h in simulated_hotelbeds_api_call(query(location, None, None)) {
            assert_eq!(h.provider, "Hotelbeds");
        }
        for a in simulated_viator_api_call(query(location, None, None)) {
            assert_eq!(a.provider, "Viator");
        }
    }
}

#[test]
fn retained_flights_keep_their_order() {
    let flights =
        vec![flight("a", 300), flight("b", 100), flight("c", 301), flight("d", 300), flight("e", 0)];
    let kept = retain_flights_within(flights, 300);
    assert_eq!(flight_ids(&kept), vec!["a", "b", "d", "e"]);
    assert!(retain_flights_within(Vec::new(), 300).is_empty());
    let all_out = retain_flights_within(vec![flight("a", 1)], 0);
    assert!(all_out.is_empty());
}

#[test]
fn retained_hotels_do_not_overflow_at_the_largest_price() {
    let hotels = vec![hotel("max", i64::MAX), hotel("min", i64::MIN), hotel("mid", 20)];
    let kept = retain_hotels_within(hotels, 100);
    assert_eq!(hotel_ids(&kept), vec!["min", "mid"]);
    let hotels = vec![hotel("a", 20), hotel("b", 21)];
    assert_eq!(hotel_ids(&retain_hotels_within(hotels, 100)), vec!["a"]);
    let hotels = vec![hotel("max", i64::MAX)];
    assert!(retain_hotels_within(hotels, i64::MAX).is_empty());
}

#[test]
fn retained_activities_do_not_overflow_at_the_largest_price() {
    let activities = vec![
        activity("max", "n", "d", i64::MAX),
        activity("min", "n", "d", i64::MIN),
        activity("half", "n", "d", 50),
        activity("over", "n", "d", 51),
    ];
    let kept = retain_activities_within(activities, 100);
    assert_eq!(activity_ids(&kept), vec!["min", "half"]);
    let negative = vec![activity("a", "n", "d", -1), activity("b", "n", "d", 0)];
    assert_eq!(activity_ids(&retain_activities_within(negative, -1)), vec!["a"]);
}

#[test]
fn retained_activities_mention_the_phrase_as_given() {
    let activities = vec![
        activity("a", "River Cruise", "An evening on the water", 10),
        activity("b", "Museum", "A RIVER of art", 10),
        activity("c", "Walk", "Through the old town", 10),
    ];
    let kept = retain_activities_mentioning(activities, "river");
    assert_eq!(activity_ids(&kept), vec!["a", "b"]);
    let activities = vec![activity("a", "River Cruise", "An evening on the water", 10)];
    assert!(retain_activities_mentioning(activities, "River").is_empty());
}

#[test]
fn a_phrase_is_mentioned_where_it_occurs_in_either_text() {
    assert!(mentions("tower of london tour", "explore", "tower"));
    assert!(mentions("tour", "explore the tower", "tower"));
    assert!(mentions("anything", "at all", ""));
    assert!(mentions("", "", ""));
    assert!(!mentions("tour", "explore", "tower"));
    assert!(!mentions("tow", "er", "tower"));
    assert!(!mentions("Tower", "TOWER", "tower"));
    assert!(!mentions("", "", "x"));
}

#[test]
fn cloned_offers_are_equal_field_by_field() {
    let f = flight("f", 5).clone();
    assert_eq!(f.id, "f");
    assert_eq!(f.price_cents, 5);
    assert_eq!(f.provider, "Test");
    let h = hotel("h", 6).clone();
    assert_eq!(h.id, "h");
    assert_eq!(h.price_per_night_cents, 6);
    assert_eq!(h.rating_tenths, 40);
    assert_eq!(h.amenities, vec!["WiFi"]);
    let a = activity("a", "n", "d", 7).clone();
    assert_eq!(a.id, "a");
    assert_eq!(a.name, "n");
    assert_eq!(a.description, "d");
    assert_eq!(a.price_per_person_cents, 7);
    let q = query("London", Some(70_000), Some("tower")).clone();
    assert_eq!(q.location, "London");
    assert_eq!(q.budget_cents, Some(70_000));
    assert_eq!(q.keywords, Some("tower".to_string()));
    assert_eq!(q.start_date, None);
}
