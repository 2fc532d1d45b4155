use search_engine::query::SearchQuery;
use search_engine::query::SearchRequest;
use search_engine::query::normalize_airlines;
use search_engine::query::split_csv;

fn absent_query() -> SearchQuery {
    SearchQuery {
        q: None,
        origin: None,
        destination: None,
        departure_date: None,
        return_date: None,
        passengers: None,
        cabin: None,
        max_price_cents: None,
        max_stops: None,
        airlines: None,
        sort: None,
        limit: None,
        offset: None,
    }
}

#[test]
fn all_absent_parameters_build_an_unconstrained_request() {
    let r = SearchRequest::from_query(absent_query());
    assert_eq!(r.q, None);
    assert_eq!(r.origin, None);
    assert_eq!(r.destination, None);
    assert_eq!(r.departure_date, None);
    assert_eq!(r.return_date, None);
    assert_eq!(r.passengers, None);
    assert_eq!(r.cabin, None);
    assert_eq!(r.max_price_cents, None);
    assert_eq!(r.max_stops, None);
    assert_eq!(r.airlines, None);
    assert_eq!(r.sort, None);
    assert_eq!(r.limit, None);
    assert_eq!(r.offset, None);
}

#[test]
fn every_filter_is_forwarded_unmodified() {
    let params = SearchQuery {
        q: Some("london".to_string()),
        origin: Some("SFO".to_string()),
        destination: Some("LHR".to_string()),
        departure_date: Some("2026-11-02".to_string()),
        return_date: Some("2026-11-09".to_string()),
        passengers: Some(2),
        cabin: Some("business".to_string()),
        max_price_cents: Some(250_000),
        max_stops: Some(1),
        airlines: Some("BA,VS".to_string()),
        sort: Some("price".to_string()),
        limit: Some(25),
        offset: Some(50),
    };
    let r = SearchRequest::from_query(params);
    assert_eq!(r.q, Some("london".to_string()));
    assert_eq!(r.origin, Some("SFO".to_string()));
    assert_eq!(r.destination, Some("LHR".to_string()));
    assert_eq!(r.departure_date, Some("2026-11-02".to_string()));
    assert_eq!(r.return_date, Some("2026-11-09".to_string()));
    assert_eq!(r.passengers, Some(2));
    assert_eq!(r.cabin, Some("business".to_string()));
    assert_eq!(r.max_price_cents, Some(250_000));
    assert_eq!(r.max_stops, Some(1));
    assert_eq!(r.airlines, Some(vec!["BA".to_string(), "VS".to_string()]));
    assert_eq!(r.sort, Some("price".to_string()));
    assert_eq!(r.limit, Some(25));
    assert_eq!(r.offset, Some(50));
}

#[test]
fn airline_list_is_split_into_codes() {
    assert_eq!(
        normalize_airlines("AA,BA,DL"),
        vec!["AA".to_string(), "BA".to_string(), "DL".to_string()]
    );
}

#[test]
fn empty_airline_entries_are_dropped() {
    assert_eq!(
        normalize_airlines("AA,,BA,"),
        vec!["AA".to_string(), "BA".to_string()]
    );
    assert_eq!(normalize_airlines(""), Vec::<String>::new());
    assert_eq!(normalize_airlines(",,,"), Vec::<String>::new());
}

#[test]
fn airline_codes_are_not_rewritten() {
    assert_eq!(
        normalize_airlines(" aa , ba "),
        vec![" aa ".to_string(), " ba ".to_string()]
    );
}

#[test]
fn split_keeps_empty_segments() {
    assert_eq!(split_csv(""), vec!["".to_string()]);
    assert_eq!(split_csv(","), vec!["".to_string(), "".to_string()]);
    assert_eq!(
        split_csv("a,,b"),
        vec!["a".to_string(), "".to_string(), "b".to_string()]
    );
    assert_eq!(split_csv("abc"), vec!["abc".to_string()]);
}
