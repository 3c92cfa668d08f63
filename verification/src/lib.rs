//! Validation and initialisation logic around a World Magnetic Model engine.
//!
//! The engine computes the magnetic declination, the angle between true
//! north and magnetic north, for a date and a place. It is native code that
//! has to be set up once and that checks nothing. This library decides what
//! the engine is asked: it tells when setup is due, refuses dates outside the
//! model's epoch and coordinates outside the globe, and hands back the
//! arguments for the engine's calls.

use vstd::prelude::*;
use time::Date;

pub mod binary32;
pub mod calendar;
pub mod coordinates;
pub mod setup;

use crate::calendar::{date_day, date_month, date_year, day_of, month_of, year_of};
use crate::coordinates::{latitude_in_range, longitude_in_range, valid_latitude, valid_longitude};

verus! {

/// Why a declination request was refused.
#[derive(Debug, Clone, Copy, PartialEq, Eq, Structural)]
pub enum Error {
    /// The calendar year lies outside the epoch of the loaded model.
    InvalidDate,
    /// The latitude or the longitude lies outside the geographic bounds:
    /// ninety degrees either side of the equator, one hundred and eighty
    /// either side of the prime meridian.
    InvalidCoordinates,
}

/// First calendar year of the model's epoch.
pub const EPOCH_START: i32 = 2020;

/// Last calendar year of the model's epoch. The model is taken as valid
/// through 2024: a date in 2025 is refused.
pub const EPOCH_END: i32 = 2024;

/// The year from which the engine counts.
pub const YEAR_BASE: i32 = 2000;

/// What the engine is asked once a request has passed validation.
#[derive(Debug, Clone, Copy, PartialEq, Eq, Structural)]
pub struct EngineQuery {
    /// Years since `YEAR_BASE`.
    pub year: u8,
    /// Month of the year, one for January.
    pub month: u8,
    /// Day of the month.
    pub day: u8,
    /// Latitude in degrees, in binary32 encoding.
    pub latitude: u32,
    /// Longitude in degrees, in binary32 encoding.
    pub longitude: u32,
}

/// Whether a calendar year lies within the model's epoch, both ends included.
pub open spec fn in_epoch(year: int) -> bool {
    EPOCH_START <= year <= EPOCH_END
}

/// The answer to a request, given the parts of its date.
///
/// The year is judged first, so a request that is wrong in both date and
/// place is refused for its date. The month and the day are handed on as
/// they come, and so are the coordinates, bit for bit.
pub open spec fn outcome(year: int, month: int, day: int, lat: u32, lon: u32) -> Result<
    EngineQuery,
    Error,
> {
    if !in_epoch(year) {
        Err(Error::InvalidDate)
    } else if !valid_latitude(lat) || !valid_longitude(lon) {
        Err(Error::InvalidCoordinates)
    } else {
        Ok(
            EngineQuery {
                year: (year - YEAR_BASE) as u8,
                month: month as u8,
                day: day as u8,
                latitude: lat,
                longitude: lon,
            },
        )
    }
}

/// The answer to a request for a date.
pub open spec fn answer(date: Date, lat: u32, lon: u32) -> Result<EngineQuery, Error> {
    outcome(year_of(date), month_of(date), day_of(date), lat, lon)
}

/// Validates a request whose date is given by its parts, and returns the
/// query for the engine or the reason for refusing.
///
/// Only the year is judged: the month and the day are taken as they are.
pub fn query_for(year: i32, month: u8, day: u8, lat: u32, lon: u32) -> (r: Result<
    EngineQuery,
    Error,
>)
    ensures
        r == outcome(year as int, month as int, day as int, lat, lon),
        !in_epoch(year as int) ==> r == Err::<EngineQuery, Error>(Error::InvalidDate),
        in_epoch(year as int) && !(valid_latitude(lat) && valid_longitude(lon)) ==> r == Err::<
            EngineQuery,
            Error,
        >(Error::InvalidCoordinates),
        in_epoch(year as int) && valid_latitude(lat) && valid_longitude(lon) ==> r is Ok,
        r matches Ok(query) ==> {
            &&& query.year == year - YEAR_BASE
            &&& query.month == month
            &&& query.day == day
            &&& query.latitude == lat
            &&& query.longitude == lon
        },
{
    if year < EPOCH_START || year > EPOCH_END {
        return Err(Error::InvalidDate);
    }
    if !latitude_in_range(lat) || !longitude_in_range(lon) {
        return Err(Error::InvalidCoordinates);
    }
    let offset: i32 = year - YEAR_BASE;
    Ok(EngineQuery { year: offset as u8, month, day, latitude: lat, longitude: lon })
}

/// Validates a declination request for `date` at the place given by `lat`
/// and `lon`, both in degrees and in binary32 encoding.
///
/// A year outside the epoch gives `InvalidDate`, whatever the coordinates. A
/// year inside it with a coordinate out of bounds gives `InvalidCoordinates`.
/// Otherwise the result is the query for the engine: the year counted from
/// `YEAR_BASE`, the month, the day, and the coordinates as they were given.
pub fn declination(date: Date, lat: u32, lon: u32) -> (r: Result<EngineQuery, Error>)
    ensures
        r == answer(date, lat, lon),
        !in_epoch(year_of(date)) ==> r == Err::<EngineQuery, Error>(Error::InvalidDate),
        in_epoch(year_of(date)) && !(valid_latitude(lat) && valid_longitude(lon)) ==> r == Err::<
            EngineQuery,
            Error,
        >(Error::InvalidCoordinates),
        in_epoch(year_of(date)) && valid_latitude(lat) && valid_longitude(lon) ==> r is Ok,
        r matches Ok(query) ==> {
            &&& query.year == year_of(date) - YEAR_BASE
            &&& query.month == month_of(date)
            &&& 1 <= query.month <= 12
            &&& query.day == day_of(date)
            &&& 1 <= query.day <= 31
            &&& query.latitude == lat
            &&& query.longitude == lon
        },
{
    let year: i32 = date_year(date);
    let month: u8 = date_month(date);
    let day: u8 = date_day(date);
    query_for(year, month, day, lat, lon)
}

/// A request that is wrong in both its date and its place is refused for its
/// date.
pub proof fn lemma_date_error_comes_first(year: int, month: int, day: int, lat: u32, lon: u32)
    requires
        !in_epoch(year),
        !valid_latitude(lat) || !valid_longitude(lon),
    ensures
        outcome(year, month, day, lat, lon) == Err::<EngineQuery, Error>(Error::InvalidDate),
{
}

/// The engine is asked only what has passed validation: a query names a year
/// of the epoch and a place on the globe, and its coordinates are those of
/// the request.
pub proof fn lemma_query_is_validated(year: int, month: int, day: int, lat: u32, lon: u32)
    ensures
        outcome(year, month, day, lat, lon) matches Ok(query) ==> {
            &&& in_epoch(year)
            &&& query.year == year - YEAR_BASE
            &&& valid_latitude(query.latitude)
            &&& valid_longitude(query.longitude)
            &&& query.latitude == lat
            &&& query.longitude == lon
        },
{
}

/// Requests that agree in year, month, day and coordinates get the same
/// answer: nothing else of a date counts.
pub proof fn lemma_equal_requests_equal_answers(first: Date, second: Date, lat: u32, lon: u32)
    requires
        year_of(first) == year_of(second),
        month_of(first) == month_of(second),
        day_of(first) == day_of(second),
    ensures
        answer(first, lat, lon) == answer(second, lat, lon),
{
}

} // verus!
