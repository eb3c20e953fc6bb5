use chrono::NaiveDate;
use chrono::NaiveDateTime;
use comic_collection::models::Comic;
use comic_collection::number::Double;
use comic_collection::paging::build_query;
use comic_collection::paging::checked_build_query;
use comic_collection::paging::may_precede;
use comic_collection::paging::sort_by_price;
use comic_collection::paging::take_window;
use comic_collection::paging::FetchSpec;
use comic_collection::paging::OrderDirection;
use comic_collection::paging::FARTHEST_OFFSET;
use comic_collection::paging::PageRequest;
use comic_collection::paging::LAST_PAGE;
use comic_collection::paging::PAGE_SIZE;

fn stamp() -> NaiveDateTime {
    NaiveDate::from_ymd_opt(2022, 1, 15).unwrap().and_hms_opt(9, 30, 0).unwrap()
}

fn priced(id: i32, price: f64) -> Comic {
    Comic {
        id,
        username: "alice".to_string(),
        title: format!("Issue {}", id),
        issue_number: id.to_string(),
        main_character: "Spider-Man".to_string(),
        genre: "Superhero".to_string(),
        cover_year: NaiveDate::from_ymd_opt(1963, 3, 1).unwrap(),
        publisher: "Marvel".to_string(),
        grade: Double::from_bits(9.4f64.to_bits()),
        price: Double::from_bits(price.to_bits()),
        image_url: "https://example.com/cover.png".to_string(),
        created_at: stamp(),
        updated_at: stamp(),
    }
}

fn fifteen() -> Vec<Comic> {
    let prices: [f64; 15] =
        [12.5, 3.0, 99.99, 0.5, 45.0, 7.25, 3.0, 150.0, 18.0, 2.75, 64.0, 9.0, 31.5, 1.0, 27.0];
    let mut rows: Vec<Comic> = Vec::new();
    for (i, price) in prices.iter().enumerate() {
        rows.push(priced(i as i32 + 1, *price));
    }
    rows
}

fn ids(rows: &Vec<Comic>) -> Vec<i32> {
    rows.iter().map(|row| row.id).collect()
}

fn prices(rows: &Vec<Comic>) -> Vec<f64> {
    rows.iter().map(|row| f64::from_bits(row.price.to_bits())).collect()
}

#[test]
fn page_size_is_ten() {
    assert_eq!(PAGE_SIZE, 10);
}

#[test]
fn first_page_starts_at_zero() {
    let query = build_query(&PageRequest::new(None, None));
    assert_eq!(query.limit, 10);
    assert_eq!(query.offset, 0);
    assert_eq!(query.order_by_price, None);
}

#[test]
fn explicit_first_page_starts_at_zero() {
    let query = build_query(&PageRequest::new(Some(1), Some(OrderDirection::Asc)));
    assert_eq!(query, FetchSpec { limit: 10, offset: 0, order_by_price: Some(OrderDirection::Asc) });
}

#[test]
fn third_page_skips_twenty() {
    let query = build_query(&PageRequest::new(Some(3), Some(OrderDirection::Desc)));
    assert_eq!(query.limit, 10);
    assert_eq!(query.offset, 20);
    assert_eq!(query.order_by_price, Some(OrderDirection::Desc));
}

#[test]
fn page_zero_is_read_as_page_one() {
    let query = build_query(&PageRequest::new(Some(0), None));
    assert_eq!(query.offset, 0);
    assert_eq!(query.limit, 10);
}

#[test]
fn negative_page_is_read_as_page_one() {
    let query = build_query(&PageRequest::new(Some(-7), None));
    assert_eq!(query.offset, 0);
    let lowest = build_query(&PageRequest::new(Some(i64::MIN), None));
    assert_eq!(lowest.offset, 0);
}

#[test]
fn last_page_has_the_largest_offset() {
    let query = build_query(&PageRequest::new(Some(LAST_PAGE), None));
    assert_eq!(query.offset, 9_223_372_036_854_775_800);
    assert_eq!(LAST_PAGE, i64::MAX / 10 + 1);
}

#[test]
fn pages_beyond_the_last_are_fetched_from_the_farthest_offset() {
    for page in [LAST_PAGE + 1, LAST_PAGE + 2, i64::MAX - 1, i64::MAX] {
        let query = build_query(&PageRequest::new(Some(page), Some(OrderDirection::Desc)));
        assert_eq!(
            query,
            FetchSpec { limit: 10, offset: i64::MAX, order_by_price: Some(OrderDirection::Desc) }
        );
        assert!(query.apply(&fifteen()).is_empty());
    }
    assert_eq!(FARTHEST_OFFSET, i64::MAX);
}

#[test]
fn checked_query_refuses_pages_beyond_the_last() {
    assert_eq!(checked_build_query(&PageRequest::new(Some(LAST_PAGE + 1), None)), None);
    assert_eq!(checked_build_query(&PageRequest::new(Some(i64::MAX), None)), None);
    assert_eq!(
        checked_build_query(&PageRequest::new(Some(LAST_PAGE), None)),
        Some(FetchSpec { limit: 10, offset: 9_223_372_036_854_775_800, order_by_price: None })
    );
    assert_eq!(
        checked_build_query(&PageRequest::new(Some(2), Some(OrderDirection::Asc))),
        Some(FetchSpec { limit: 10, offset: 10, order_by_price: Some(OrderDirection::Asc) })
    );
}

#[test]
fn two_pages_of_fifteen_records_are_ten_and_five() {
    let rows = fifteen();
    let first = build_query(&PageRequest::new(Some(1), None)).apply(&rows);
    let second = build_query(&PageRequest::new(Some(2), None)).apply(&rows);
    assert_eq!(first.len(), 10);
    assert_eq!(second.len(), 5);
    assert_eq!(ids(&first), vec![1, 2, 3, 4, 5, 6, 7, 8, 9, 10]);
    assert_eq!(ids(&second), vec![11, 12, 13, 14, 15]);
    for row in &first {
        assert!(!second.contains(row));
    }
    let mut all = ids(&first);
    all.extend(ids(&second));
    all.sort();
    assert_eq!(all, (1..=15).collect::<Vec<i32>>());
}

#[test]
fn two_ordered_pages_cover_every_record_once() {
    let rows = fifteen();
    for direction in [OrderDirection::Asc, OrderDirection::Desc] {
        let first = build_query(&PageRequest::new(Some(1), Some(direction))).apply(&rows);
        let second = build_query(&PageRequest::new(Some(2), Some(direction))).apply(&rows);
        assert_eq!(first.len(), 10);
        assert_eq!(second.len(), 5);
        let mut all = ids(&first);
        all.extend(ids(&second));
        all.sort();
        assert_eq!(all, (1..=15).collect::<Vec<i32>>());
    }
}

#[test]
fn page_behind_the_end_is_empty() {
    let rows = fifteen();
    let third = build_query(&PageRequest::new(Some(3), None)).apply(&rows);
    assert!(third.is_empty());
    let far = build_query(&PageRequest::new(Some(LAST_PAGE), Some(OrderDirection::Asc))).apply(&rows);
    assert!(far.is_empty());
}

#[test]
fn ascending_order_never_falls() {
    let rows = fifteen();
    let page = build_query(&PageRequest::new(Some(1), Some(OrderDirection::Asc))).apply(&rows);
    let shown = prices(&page);
    assert_eq!(shown, vec![0.5, 1.0, 2.75, 3.0, 3.0, 7.25, 9.0, 12.5, 18.0, 27.0]);
    for pair in shown.windows(2) {
        assert!(pair[0] <= pair[1]);
    }
}

#[test]
fn descending_order_never_rises() {
    let rows = fifteen();
    let page = build_query(&PageRequest::new(Some(1), Some(OrderDirection::Desc))).apply(&rows);
    let shown = prices(&page);
    assert_eq!(shown, vec![150.0, 99.99, 64.0, 45.0, 31.5, 27.0, 18.0, 12.5, 9.0, 7.25]);
    for pair in shown.windows(2) {
        assert!(pair[0] >= pair[1]);
    }
}

#[test]
fn without_order_the_page_is_the_stores_own() {
    let rows = fifteen();
    let plain = build_query(&PageRequest::new(Some(1), None)).apply(&rows);
    let expected: Vec<Comic> = rows[0..10].iter().map(|row| row.duplicate()).collect();
    assert_eq!(plain, expected);
}

#[test]
fn ordering_keeps_every_record() {
    let rows = fifteen();
    for direction in [OrderDirection::Asc, OrderDirection::Desc] {
        let sorted = sort_by_price(&rows, direction);
        assert_eq!(sorted.len(), rows.len());
        let mut seen = ids(&sorted);
        seen.sort();
        assert_eq!(seen, (1..=15).collect::<Vec<i32>>());
    }
}

#[test]
fn equal_prices_keep_the_stores_order() {
    let rows = fifteen();
    let up = sort_by_price(&rows, OrderDirection::Asc);
    assert_eq!(ids(&up)[3..5].to_vec(), vec![2, 7]);
    let down = sort_by_price(&rows, OrderDirection::Desc);
    assert_eq!(ids(&down)[10..12].to_vec(), vec![2, 7]);
}

#[test]
fn sorting_nothing_gives_nothing() {
    let rows: Vec<Comic> = Vec::new();
    assert!(sort_by_price(&rows, OrderDirection::Asc).is_empty());
    assert!(take_window(&rows, 0, 10).is_empty());
}

#[test]
fn window_is_cut_at_both_ends() {
    let rows = fifteen();
    assert_eq!(ids(&take_window(&rows, 13, 10)), vec![14, 15]);
    assert_eq!(ids(&take_window(&rows, 0, 3)), vec![1, 2, 3]);
    assert_eq!(ids(&take_window(&rows, 15, 10)), Vec::<i32>::new());
    assert_eq!(ids(&take_window(&rows, 4, 0)), Vec::<i32>::new());
    assert_eq!(ids(&take_window(&rows, -5, 2)), vec![1, 2]);
    assert_eq!(ids(&take_window(&rows, 2, -1)), Vec::<i32>::new());
    assert_eq!(ids(&take_window(&rows, i64::MAX, i64::MAX)), Vec::<i32>::new());
    assert_eq!(take_window(&rows, 0, i64::MAX).len(), 15);
}

#[test]
fn may_precede_follows_the_direction() {
    let cheap = priced(1, 1.0);
    let dear = priced(2, 2.0);
    assert!(may_precede(&cheap, &dear, OrderDirection::Asc));
    assert!(!may_precede(&dear, &cheap, OrderDirection::Asc));
    assert!(may_precede(&dear, &cheap, OrderDirection::Desc));
    assert!(!may_precede(&cheap, &dear, OrderDirection::Desc));
    assert!(may_precede(&cheap, &cheap, OrderDirection::Asc));
    assert!(may_precede(&cheap, &cheap, OrderDirection::Desc));
}
