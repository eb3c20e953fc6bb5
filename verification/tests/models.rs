use chrono::NaiveDate;
use chrono::NaiveDateTime;
use comic_collection::models::pick;
use comic_collection::models::Comic;
use comic_collection::models::NewComic;
use comic_collection::models::NewComicRequest;
use comic_collection::models::ReplaceComic;
use comic_collection::models::UpdateComic;
use comic_collection::number::Double;

fn at(hour: u32) -> NaiveDateTime {
    NaiveDate::from_ymd_opt(2022, 1, 15).unwrap().and_hms_opt(hour, 0, 0).unwrap()
}

fn double(value: f64) -> Double {
    Double::from_bits(value.to_bits())
}

fn request() -> NewComicRequest {
    NewComicRequest {
        username: "mallory".to_string(),
        title: "Maus".to_string(),
        issue_number: "1".to_string(),
        main_character: "Vladek".to_string(),
        genre: "Memoir".to_string(),
        cover_year: NaiveDate::from_ymd_opt(1986, 1, 1).unwrap(),
        publisher: "Pantheon".to_string(),
        grade: double(8.5),
        price: double(35.25),
        image_url: "https://example.com/maus.png".to_string(),
    }
}

fn stored() -> Comic {
    request().for_user("alice".to_string()).into_record(12, at(9))
}

#[test]
fn for_user_overrides_the_owner_and_keeps_the_rest() {
    let new = request().for_user("alice".to_string());
    assert_eq!(
        new,
        NewComic {
            username: "alice".to_string(),
            title: "Maus".to_string(),
            issue_number: "1".to_string(),
            main_character: "Vladek".to_string(),
            genre: "Memoir".to_string(),
            cover_year: NaiveDate::from_ymd_opt(1986, 1, 1).unwrap(),
            publisher: "Pantheon".to_string(),
            grade: double(8.5),
            price: double(35.25),
            image_url: "https://example.com/maus.png".to_string(),
        }
    );
}

#[test]
fn into_record_stamps_identifier_and_times() {
    let comic = stored();
    assert_eq!(comic.id, 12);
    assert_eq!(comic.username, "alice");
    assert_eq!(comic.created_at, at(9));
    assert_eq!(comic.updated_at, at(9));
    assert_eq!(comic.title, "Maus");
    assert_eq!(comic.price, double(35.25));
}

#[test]
fn duplicate_is_equal() {
    let comic = stored();
    assert_eq!(comic.duplicate(), comic);
}

#[test]
fn replace_with_overwrites_every_changeable_field() {
    let data = ReplaceComic {
        title: "Persepolis".to_string(),
        issue_number: "2".to_string(),
        main_character: "Marji".to_string(),
        genre: "Autobiography".to_string(),
        cover_year: NaiveDate::from_ymd_opt(2000, 1, 1).unwrap(),
        publisher: "L'Association".to_string(),
        grade: double(9.0),
        price: double(20.0),
        image_url: "https://example.com/persepolis.png".to_string(),
    };
    let comic = stored().replace_with(data, at(11));
    assert_eq!(
        comic,
        Comic {
            id: 12,
            username: "alice".to_string(),
            title: "Persepolis".to_string(),
            issue_number: "2".to_string(),
            main_character: "Marji".to_string(),
            genre: "Autobiography".to_string(),
            cover_year: NaiveDate::from_ymd_opt(2000, 1, 1).unwrap(),
            publisher: "L'Association".to_string(),
            grade: double(9.0),
            price: double(20.0),
            image_url: "https://example.com/persepolis.png".to_string(),
            created_at: at(9),
            updated_at: at(11),
        }
    );
}

#[test]
fn patch_with_changes_what_is_named() {
    let data = UpdateComic {
        title: Some("Maus II".to_string()),
        issue_number: None,
        main_character: None,
        genre: None,
        cover_year: Some(NaiveDate::from_ymd_opt(1991, 1, 1).unwrap()),
        publisher: None,
        grade: Some(double(7.0)),
        price: None,
        image_url: None,
    };
    assert!(!data.is_empty());
    let comic = stored().patch_with(data, at(11));
    let mut expected = stored();
    expected.title = "Maus II".to_string();
    expected.cover_year = NaiveDate::from_ymd_opt(1991, 1, 1).unwrap();
    expected.grade = double(7.0);
    expected.updated_at = at(11);
    assert_eq!(comic, expected);
}

#[test]
fn patch_with_every_field_is_a_replacement() {
    let data = UpdateComic {
        title: Some("A".to_string()),
        issue_number: Some("B".to_string()),
        main_character: Some("C".to_string()),
        genre: Some("D".to_string()),
        cover_year: Some(NaiveDate::from_ymd_opt(2001, 2, 3).unwrap()),
        publisher: Some("E".to_string()),
        grade: Some(double(1.0)),
        price: Some(double(2.0)),
        image_url: Some("F".to_string()),
    };
    let full = ReplaceComic {
        title: "A".to_string(),
        issue_number: "B".to_string(),
        main_character: "C".to_string(),
        genre: "D".to_string(),
        cover_year: NaiveDate::from_ymd_opt(2001, 2, 3).unwrap(),
        publisher: "E".to_string(),
        grade: double(1.0),
        price: double(2.0),
        image_url: "F".to_string(),
    };
    assert_eq!(stored().patch_with(data, at(11)), stored().replace_with(full, at(11)));
}

#[test]
fn empty_update_is_told_apart() {
    let mut data = UpdateComic {
        title: None,
        issue_number: None,
        main_character: None,
        genre: None,
        cover_year: None,
        publisher: None,
        grade: None,
        price: None,
        image_url: None,
    };
    assert!(data.is_empty());
    data.image_url = Some(String::new());
    assert!(!data.is_empty());
}

#[test]
fn pick_prefers_the_change() {
    assert_eq!(pick(Some(3), 4), 3);
    assert_eq!(pick(None, 4), 4);
}
