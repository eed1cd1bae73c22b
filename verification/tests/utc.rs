use engine::utc::{civil_date_from_unix_days, utc_text_from_unix_seconds};

#[test]
fn civil_dates_of_known_day_numbers() {
    assert_eq!(civil_date_from_unix_days(0), (1970, 1, 1));
    assert_eq!(civil_date_from_unix_days(-1), (1969, 12, 31));
    assert_eq!(civil_date_from_unix_days(19723), (2024, 1, 1));
    assert_eq!(civil_date_from_unix_days(11016), (2000, 2, 29));
    assert_eq!(civil_date_from_unix_days(11017), (2000, 3, 1));
    assert_eq!(civil_date_from_unix_days(47541), (2100, 3, 1));
    assert_eq!(civil_date_from_unix_days(47540), (2100, 2, 28));
    assert_eq!(civil_date_from_unix_days(-719162), (1, 1, 1));
}

#[test]
fn utc_text_of_known_instants() {
    assert_eq!(utc_text_from_unix_seconds(0), "1970-01-01T00:00:00Z");
    assert_eq!(utc_text_from_unix_seconds(1_700_000_000), "2023-11-14T22:13:20Z");
    assert_eq!(utc_text_from_unix_seconds(-1), "1969-12-31T23:59:59Z");
    assert_eq!(utc_text_from_unix_seconds(-62_167_219_200), "0000-01-01T00:00:00Z");
    assert_eq!(utc_text_from_unix_seconds(-62_198_755_200), "-001-01-01T00:00:00Z");
}
