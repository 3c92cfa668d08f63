use time::{Date, Month};
use wmm::{declination, EngineQuery, Error};

#[test]
fn test_valid() -> Result<(), Error> {
    struct TestCase {
        date: Date,
        lat: f32,
        lon: f32,
    }
    let test_cases = [
        TestCase {
            date: Date::from_calendar_date(2020, Month::August, 05).unwrap(),
            lat: 29.7363025,
            lon: -93.8827939,
        },
        TestCase {
            date: Date::from_calendar_date(2020, Month::August, 05).unwrap(),
            lat: 43.34380925,
            lon: -4.3274906,
        },
    ];

    for i in &test_cases {
        let target = declination(i.date, i.lat.to_bits(), i.lon.to_bits())?;
        assert_eq!(
            target,
            EngineQuery {
                year: 20,
                month: 8,
                day: 5,
                latitude: i.lat.to_bits(),
                longitude: i.lon.to_bits(),
            }
        );
    }

    Ok(())
}

#[test]
fn test_invalid_date() {
    struct TestCase {
        date: Date,
        lat: f32,
        lon: f32,
    }
    let test_cases = [
        TestCase {
            date: Date::from_calendar_date(2019, Month::December, 31).unwrap(),
            lat: 29.7363025,
            lon: -93.8827939,
        },
        TestCase {
            date: Date::from_calendar_date(2026, Month::January, 01).unwrap(),
            lat: 29.7363025,
            lon: -93.8827939,
        },
    ];

    for i in &test_cases {
        let result = declination(i.date, i.lat.to_bits(), i.lon.to_bits());
        let expected = Err(Error::InvalidDate);
        assert_eq!(expected, result);
    }
}

#[test]
fn test_invalid_coordinates() {
    struct TestCase {
        date: Date,
        lat: f32,
        lon: f32,
    }
    let test_cases = [
        TestCase {
            date: Date::from_calendar_date(2020, Month::August, 07).unwrap(),
            lat: 90.00001,
            lon: -93.8827939,
        },
        TestCase {
            date: Date::from_calendar_date(2020, Month::August, 07).unwrap(),
            lat: -90.00001,
            lon: -93.8827939,
        },
        TestCase {
            date: Date::from_calendar_date(2020, Month::August, 07).unwrap(),
            lat: 29.7363025,
            lon: 180.00001,
        },
        TestCase {
            date: Date::from_calendar_date(2020, Month::August, 07).unwrap(),
            lat: 29.7363025,
            lon: -180.00001,
        },
    ];

    for i in &test_cases {
        let result = declination(i.date, i.lat.to_bits(), i.lon.to_bits());
        let expected = Err(Error::InvalidCoordinates);
        assert_eq!(expected, result);
    }
}
