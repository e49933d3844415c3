use timezone_converter::calendar::civil_from_day_number;
use timezone_converter::Errors;

#[test]
fn first_day_is_year_one() {
    assert_eq!(civil_from_day_number(0), (1, 1, 1));
}

#[test]
fn end_of_first_year() {
    assert_eq!(civil_from_day_number(364), (1, 12, 31));
    assert_eq!(civil_from_day_number(365), (2, 1, 1));
}

#[test]
fn first_march_of_common_year() {
    // year 1 is not a leap year: January and February hold 59 days
    assert_eq!(civil_from_day_number(59), (1, 3, 1));
}

#[test]
fn leap_day_of_year_four() {
    // three common years precede year 4, and year 4 is leap
    let before = 3 * 365;
    assert_eq!(civil_from_day_number(before + 31 + 28), (4, 2, 29));
    assert_eq!(civil_from_day_number(before + 31 + 29), (4, 3, 1));
}

#[test]
fn invalid_zone_error_names_the_zone() {
    let e = Errors::InvalidTimeZone(String::from("Not/AZone"));
    match e {
        Errors::InvalidTimeZone(name) => assert_eq!(name, "Not/AZone"),
        _ => panic!(),
    }
}
