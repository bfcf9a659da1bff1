use julian::Date;

#[test]
fn canonical_full_year() {
    assert_eq!(Date::new(2020, 10, 1).as_fuzzy(), "20201001");
}

#[test]
fn canonical_pads_month_and_day() {
    assert_eq!(Date::new(1999, 1, 2).as_fuzzy(), "19990102");
}

#[test]
fn canonical_two_digit_year_widens() {
    assert_eq!(Date::new(5, 1, 2).as_fuzzy(), "20050102");
    assert_eq!(Date::new(99, 12, 31).as_fuzzy(), "20991231");
}

#[test]
fn canonical_unknown_year() {
    assert_eq!(Date::new(0, 7, 9).as_fuzzy(), "None");
    assert_eq!(Date::new(0, 0, 0).as_fuzzy(), "None");
}

#[test]
fn canonical_ignores_calendar_validity() {
    assert_eq!(Date::new(2021, 13, 40).as_fuzzy(), "20211340");
}

#[test]
fn canonical_five_digit_year() {
    assert_eq!(Date::new(12345, 1, 1).as_fuzzy(), "123450101");
}

#[test]
fn ordering_by_canonical_string() {
    assert!(Date::new(2020, 1, 1) < Date::new(2020, 12, 31));
    assert!(Date::new(2020, 12, 31) < Date::new(2021, 1, 1));
    // "None" starts with 'N', which sorts after every decimal digit.
    assert!(Date::new(2021, 1, 1) < Date::new(0, 0, 0));
    assert!(!(Date::new(0, 0, 0) < Date::new(2021, 1, 1)));
}

#[test]
fn equality_by_canonical_string() {
    assert_eq!(Date::new(0, 1, 2), Date::new(0, 3, 4));
    assert_eq!(Date::new(20, 1, 1), Date::new(2020, 1, 1));
    assert_ne!(Date::new(2020, 1, 1), Date::new(2020, 1, 2));
}

#[test]
fn cmp_equal_on_same_encoding() {
    assert_eq!(
        Date::new(7, 5, 5).cmp(&Date::new(2007, 5, 5)),
        std::cmp::Ordering::Equal
    );
    assert_eq!(
        Date::new(2007, 5, 5).cmp(&Date::new(2007, 5, 6)),
        std::cmp::Ordering::Less
    );
    assert_eq!(
        Date::new(2007, 5, 7).cmp(&Date::new(2007, 5, 6)),
        std::cmp::Ordering::Greater
    );
}

#[test]
fn get_year_returns_raw_field() {
    assert_eq!(Date::new(20, 1, 1).get_year(), 20);
    assert_eq!(Date::new(0, 3, 4).get_year(), 0);
}
