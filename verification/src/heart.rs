//! Heart-rate readings: how a provider response becomes a list of them, and
//! how the list is written as CSV.

use crate::clock::{parse_time, time_text_of, time_text_parsed, TimeOfDay};
use crate::error::FetchError;
use crate::json::{json_decoded, tree_of_bytes, Json};
use crate::text::{decimal, decimal_text};
use vstd::prelude::*;

verus! {

/// One reading: the heart rate at a time of day.
#[derive(Clone, Copy, Debug, PartialEq, Eq, Structural)]
pub struct HeartReading {
    pub time: TimeOfDay,
    pub value: usize,
}

/// The readings of one day.
#[derive(Clone, Debug, PartialEq, Eq)]
pub struct ActivitiesIntraday {
    pub dataset: Vec<HeartReading>,
}

/// The provider's answer for one day. In the provider's JSON the readings
/// are the array `dataset` in the object `activities-heart-intraday`, each an
/// object with a `time` and a `value`.
#[derive(Clone, Debug, PartialEq, Eq)]
pub struct HeartResponse {
    pub activities_heart_intraday: ActivitiesIntraday,
}

/// The time that `item` gives: what its member `time`, a text, reads as.
pub open spec fn time_of(item: Json) -> Option<TimeOfDay> {
    match item.member("time"@) {
        Some(Json::Text(text)) => time_text_parsed(text@),
        _ => None,
    }
}

/// The heart rate that `item` gives: its member `value`, a whole number
/// that is not negative.
pub open spec fn value_of(item: Json) -> Option<u64> {
    match item.member("value"@) {
        Some(Json::Number(Some(value))) => Some(value),
        _ => None,
    }
}

/// The reading made of a time and a heart rate, where both are there and
/// the rate fits the machine's word.
pub open spec fn assembled(time: Option<TimeOfDay>, value: Option<u64>) -> Option<HeartReading> {
    match (time, value) {
        (Some(time), Some(value)) => if value <= usize::MAX {
            Some(HeartReading { time, value: value as usize })
        } else {
            None
        },
        _ => None,
    }
}

/// The reading that `item` holds, where it holds one.
pub open spec fn reading_of(item: Json) -> Option<HeartReading> {
    assembled(time_of(item), value_of(item))
}

/// Every one of `items` holds a reading.
pub open spec fn all_readable(items: Seq<Json>) -> bool {
    forall|at: int| 0 <= at < items.len() ==> (#[trigger] reading_of(items[at])).is_some()
}

/// The readings that `items` hold, in their order; none where one of them
/// holds no reading.
pub open spec fn readings_of(items: Seq<Json>) -> Option<Seq<HeartReading>> {
    if all_readable(items) {
        Some(Seq::new(items.len(), |at: int| reading_of(items[at]).unwrap()))
    } else {
        None
    }
}

/// The items of the provider's document: the array `dataset` within the
/// object `activities-heart-intraday`.
pub open spec fn dataset_of(document: Json) -> Option<Seq<Json>> {
    match document.member("activities-heart-intraday"@) {
        Some(day) => match day.member("dataset"@) {
            Some(Json::Array(items)) => Some(items@),
            _ => None,
        },
        None => None,
    }
}

/// The readings of the provider's document.
pub open spec fn document_readings(document: Json) -> Option<Seq<HeartReading>> {
    match dataset_of(document) {
        Some(items) => readings_of(items),
        None => None,
    }
}

/// The readings of the provider's answer, read from its bytes.
pub open spec fn body_readings(body: Seq<u8>) -> Option<Seq<HeartReading>> {
    match json_decoded(body) {
        Some(document) => document_readings(document),
        None => None,
    }
}

/// Whether an HTTP status reports success: the codes from 200 to 299.
pub open spec fn is_success(status: u16) -> bool {
    200 <= status <= 299
}

/// What a fetch yields from the provider's status and body: the readings of
/// a successful answer, the status of one that is no success, and
/// `Malformed` for a body that is no heart-rate document.
pub open spec fn fetch_outcome(status: u16, body: Seq<u8>) -> Result<Seq<HeartReading>, FetchError> {
    if !is_success(status) {
        Err(FetchError::Status(status))
    } else {
        match body_readings(body) {
            Some(readings) => Ok(readings),
            None => Err(FetchError::Malformed),
        }
    }
}

/// The first line of the CSV output.
pub open spec fn csv_header() -> Seq<char> {
    "time, heartrate\n"@
}

/// One line of the CSV output: the time, a comma and a space, the heart
/// rate as a decimal numeral, and a line feed.
pub open spec fn csv_row(reading: HeartReading) -> Seq<char> {
    reading.time.text() + ", "@ + decimal(reading.value as nat) + "\n"@
}

/// The lines of the CSV output for `readings`, in their order.
pub open spec fn csv_rows(readings: Seq<HeartReading>) -> Seq<char>
    decreases readings.len(),
{
    if readings.len() == 0 {
        Seq::<char>::empty()
    } else {
        csv_rows(readings.drop_last()) + csv_row(readings.last())
    }
}

/// The CSV output for `readings`: the header, then one line for each.
pub open spec fn csv_text(readings: Seq<HeartReading>) -> Seq<char> {
    csv_header() + csv_rows(readings)
}

/// Every one of `readings` has a time that is a time of day.
pub open spec fn all_timed(readings: Seq<HeartReading>) -> bool {
    forall|at: int| 0 <= at < readings.len() ==> (#[trigger] readings[at]).time.is_valid()
}

impl HeartReading {
    /// Makes a reading of a time and a heart rate, where both are there and
    /// the rate fits the machine's word.
    pub fn assemble(time: Option<TimeOfDay>, value: Option<u64>) -> (reading: Option<HeartReading>)
        ensures
            reading == assembled(time, value),
    {
        match (time, value) {
            (Some(time), Some(value)) => {
                if value <= usize::MAX as u64 {
                    Some(HeartReading { time, value: value as usize })
                } else {
                    None
                }
            },
            _ => None,
        }
    }

    /// Reads one item of the provider's dataset.
    pub fn from_json(item: &Json) -> (reading: Option<HeartReading>)
        ensures
            reading == reading_of(*item),
            reading matches Some(r) ==> r.time.is_valid(),
    {
        let time = match item.get("time") {
            Some(Json::Text(text)) => parse_time(text.as_str()),
            _ => None,
        };
        let value = match item.get("value") {
            Some(Json::Number(Some(value))) => Some(*value),
            _ => None,
        };
        HeartReading::assemble(time, value)
    }
}

impl HeartResponse {
    /// The readings of the answer, in the provider's order.
    pub open spec fn readings(self) -> Seq<HeartReading> {
        self.activities_heart_intraday.dataset@
    }

    /// Reads the provider's document. Members other than those named are
    /// passed over.
    pub fn from_json(document: &Json) -> (response: Option<HeartResponse>)
        ensures
            match response {
                Some(read) => document_readings(*document) == Some(read.readings()),
                None => document_readings(*document).is_none(),
            },
            response matches Some(read) ==> all_timed(read.readings()),
    {
        let items = match document.get("activities-heart-intraday") {
            Some(day) => match day.get("dataset") {
                Some(Json::Array(items)) => items,
                _ => { return None; },
            },
            None => { return None; },
        };
        let mut dataset: Vec<HeartReading> = Vec::new();
        let mut at: usize = 0;
        while at < items.len()
            invariant
                at <= items.len(),
                dataset@.len() == at,
                dataset_of(*document) == Some(items@),
                forall|k: int|
                    0 <= k < at ==> (#[trigger] reading_of(items@[k])) == Some(dataset@[k]),
                all_timed(dataset@),
            decreases items.len() - at,
        {
            match HeartReading::from_json(&items[at]) {
                Some(reading) => {
                    dataset.push(reading);
                },
                None => {
                    assert(reading_of(items@[at as int]).is_none());
                    return None;
                },
            }
            at += 1;
        }
        assert(all_readable(items@));
        assert(dataset@ =~= readings_of(items@).unwrap());
        Some(HeartResponse { activities_heart_intraday: ActivitiesIntraday { dataset } })
    }

    /// Reads the provider's answer from the bytes of its body.
    pub fn from_body(body: &[u8]) -> (response: Option<HeartResponse>)
        ensures
            match response {
                Some(read) => body_readings(body@) == Some(read.readings()),
                None => body_readings(body@).is_none(),
            },
            response matches Some(read) ==> all_timed(read.readings()),
    {
        match tree_of_bytes(body) {
            Some(document) => HeartResponse::from_json(&document),
            None => None,
        }
    }

    /// The readings of the answer, in the provider's order.
    pub fn into_readings(self) -> (readings: Vec<HeartReading>)
        ensures
            readings@ == self.readings(),
    {
        self.activities_heart_intraday.dataset
    }
}

/// Whether an HTTP status reports success.
pub fn status_is_success(status: u16) -> (success: bool)
    ensures
        success == is_success(status),
{
    200 <= status && status <= 299
}

/// Turns the provider's answer into readings: one attempt, with nothing
/// tried again.
pub fn readings_from_answer(status: u16, body: &[u8]) -> (outcome: Result<Vec<HeartReading>, FetchError>)
    ensures
        match outcome {
            Ok(readings) => fetch_outcome(status, body@) == Ok::<Seq<HeartReading>, FetchError>(
                readings@,
            ) && all_timed(readings@),
            Err(error) => fetch_outcome(status, body@) == Err::<Seq<HeartReading>, FetchError>(
                error,
            ),
        },
{
    if !status_is_success(status) {
        return Err(FetchError::Status(status));
    }
    match HeartResponse::from_body(body) {
        Some(response) => Ok(response.into_readings()),
        None => Err(FetchError::Malformed),
    }
}

/// Writes the readings as CSV: a header line, then one line for each
/// reading. Nothing is written where a reading holds a value that is no time
/// of day.
pub fn to_csv(readings: &Vec<HeartReading>) -> (csv: Option<String>)
    ensures
        match csv {
            Some(text) => all_timed(readings@) && text@ == csv_text(readings@),
            None => !all_timed(readings@),
        },
{
    let mut text = String::from_str("time, heartrate\n");
    let mut at: usize = 0;
    assert(readings@.take(0) =~= Seq::<HeartReading>::empty());
    while at < readings.len()
        invariant
            at <= readings.len(),
            text@ == csv_text(readings@.take(at as int)),
            all_timed(readings@.take(at as int)),
        decreases readings.len() - at,
    {
        let reading = readings[at];
        let time = match time_text_of(reading.time) {
            Some(time) => time,
            None => {
                assert(!readings@[at as int].time.is_valid());
                return None;
            },
        };
        text.append(time.as_str());
        text.append(", ");
        text.append(decimal_text(reading.value as u64).as_str());
        text.append("\n");
        proof {
            let before = readings@.take(at as int);
            let now = readings@.take(at + 1);
            assert(now.drop_last() =~= before);
            assert(now.last() == reading);
            assert(text@ =~= csv_text(now));
            assert forall|k: int| 0 <= k < now.len() implies (#[trigger] now[k]).time.is_valid() by {
                if k < at {
                    assert(before[k].time.is_valid());
                }
            }
        }
        at += 1;
    }
    assert(readings@.take(at as int) =~= readings@);
    Some(text)
}

} // verus!
