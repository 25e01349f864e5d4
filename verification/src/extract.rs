//! From the body of a country's response to that day's figures.

use crate::country::{Country, Entry};
use crate::json::{gjson_get, gjson_valid, is_valid_json, lookup, Field, FieldView, JsonKind};
use crate::numeral::{integer_of, lemma_integer_in_range, parse_integer, MAX_MAGNITUDE};
use crate::stats::{DayView, VaccDayData, VaccedCount};
use vstd::prelude::*;

verus! {

/// Why a response did not yield a day's figures.
#[derive(Clone, Copy, Debug, PartialEq, Eq, Structural)]
pub enum ExtractionError {
    /// The body is not well-formed JSON.
    InvalidJson,
    /// The record holds nothing at the entry's path.
    MissingField(Entry),
    /// The entry is neither a number nor a string, or a date is no string.
    TypeMismatch(Entry),
    /// The entry's text does not denote an integer.
    UnparseableNumber(Entry),
    /// A running total, as read or as derived from the entry, is below zero.
    NegativeCount(Entry),
}

/// The five entries of a country's latest record, as they were looked up.
#[derive(Clone, Debug, PartialEq, Eq)]
pub struct Record {
    pub doses: Field,
    pub doses_change: Field,
    pub complete: Field,
    pub complete_change: Field,
    pub date: Field,
}

/// A `Record` with its texts as sequences of characters.
pub struct RecordView {
    pub doses: FieldView,
    pub doses_change: FieldView,
    pub complete: FieldView,
    pub complete_change: FieldView,
    pub date: FieldView,
}

impl View for Record {
    type V = RecordView;

    open spec fn view(&self) -> RecordView {
        RecordView {
            doses: self.doses@,
            doses_change: self.doses_change@,
            complete: self.complete@,
            complete_change: self.complete_change@,
            date: self.date@,
        }
    }
}

/// The integer that an entry holds, be it written as a number or as a string
/// of digits.
pub open spec fn number_in(field: FieldView, entry: Entry) -> Result<int, ExtractionError> {
    if !field.exists {
        Err(ExtractionError::MissingField(entry))
    } else if field.kind != JsonKind::Number && field.kind != JsonKind::Text {
        Err(ExtractionError::TypeMismatch(entry))
    } else {
        match integer_of(field.text) {
            Some(value) => Ok(value),
            None => Err(ExtractionError::UnparseableNumber(entry)),
        }
    }
}

/// The running total that an entry holds: an integer that is not negative.
pub open spec fn count_in(field: FieldView, entry: Entry) -> Result<int, ExtractionError> {
    match number_in(field, entry) {
        Ok(value) => if value < 0 {
            Err(ExtractionError::NegativeCount(entry))
        } else {
            Ok(value)
        },
        Err(error) => Err(error),
    }
}

/// The date that an entry holds: the content of a string, taken as it is.
pub open spec fn date_in(field: FieldView, entry: Entry) -> Result<Seq<char>, ExtractionError> {
    if !field.exists {
        Err(ExtractionError::MissingField(entry))
    } else if field.kind != JsonKind::Text {
        Err(ExtractionError::TypeMismatch(entry))
    } else {
        Ok(field.text)
    }
}

/// The day's figures that a country's five entries make.
///
/// The United Kingdom reports the people with a first dose as they are.
/// Canada reports every dose given: there the people with a first dose are
/// the doses less the people completely vaccinated, and their change is the
/// change of the doses less the change of the completely vaccinated.
pub open spec fn figures(
    country: Country,
    doses: int,
    doses_change: int,
    complete: int,
    complete_change: int,
    date: Seq<char>,
) -> Result<DayView, ExtractionError> {
    let people = country.spec_population();
    let full = VaccedCount::of(complete, complete_change, people);
    match country {
        Country::UK => Ok(
            DayView { first: VaccedCount::of(doses, doses_change, people), full, date },
        ),
        Country::CAN => if doses < complete {
            Err(ExtractionError::NegativeCount(Entry::Doses))
        } else {
            Ok(
                DayView {
                    first: VaccedCount::of(
                        doses - complete,
                        doses_change - complete_change,
                        people,
                    ),
                    full,
                    date,
                },
            )
        },
    }
}

/// What a record yields: the figures of its entries, or the complaint about
/// the first entry, in the order of the record's fields, that cannot be read.
pub open spec fn reading(country: Country, record: RecordView) -> Result<DayView, ExtractionError> {
    match count_in(record.doses, Entry::Doses) {
        Err(error) => Err(error),
        Ok(doses) => match number_in(record.doses_change, Entry::DosesChange) {
            Err(error) => Err(error),
            Ok(doses_change) => match count_in(record.complete, Entry::Complete) {
                Err(error) => Err(error),
                Ok(complete) => match number_in(record.complete_change, Entry::CompleteChange) {
                    Err(error) => Err(error),
                    Ok(complete_change) => match date_in(record.date, Entry::Date) {
                        Err(error) => Err(error),
                        Ok(date) => figures(
                            country,
                            doses,
                            doses_change,
                            complete,
                            complete_change,
                            date,
                        ),
                    },
                },
            },
        },
    }
}

/// The record that a lookup finds in a country's response.
pub open spec fn record_in(country: Country, body: Seq<char>) -> RecordView {
    RecordView {
        doses: gjson_get(body, country.spec_path(Entry::Doses)),
        doses_change: gjson_get(body, country.spec_path(Entry::DosesChange)),
        complete: gjson_get(body, country.spec_path(Entry::Complete)),
        complete_change: gjson_get(body, country.spec_path(Entry::CompleteChange)),
        date: gjson_get(body, country.spec_path(Entry::Date)),
    }
}

/// What the body of a country's response yields.
pub open spec fn extraction(country: Country, body: Seq<char>) -> Result<DayView, ExtractionError> {
    if gjson_valid(body) {
        reading(country, record_in(country, body))
    } else {
        Err(ExtractionError::InvalidJson)
    }
}

/// Whether a result holds what `expected` describes.
pub open spec fn yields(
    got: Result<VaccDayData, ExtractionError>,
    expected: Result<DayView, ExtractionError>,
) -> bool {
    match got {
        Ok(day) => expected == Ok::<DayView, ExtractionError>(day@),
        Err(error) => expected == Err::<DayView, ExtractionError>(error),
    }
}

/// Reads the integer that an entry holds.
pub fn read_number(field: &Field, entry: Entry) -> (number: Result<i64, ExtractionError>)
    ensures
        match number {
            Ok(value) => number_in(field@, entry) == Ok::<int, ExtractionError>(value as int)
                && -MAX_MAGNITUDE <= value <= MAX_MAGNITUDE,
            Err(error) => number_in(field@, entry) == Err::<int, ExtractionError>(error),
        },
{
    if !field.exists {
        return Err(ExtractionError::MissingField(entry));
    }
    match field.kind {
        JsonKind::Number | JsonKind::Text => match parse_integer(field.text.as_str()) {
            Some(value) => Ok(value),
            None => Err(ExtractionError::UnparseableNumber(entry)),
        },
        _ => Err(ExtractionError::TypeMismatch(entry)),
    }
}

/// Reads the running total that an entry holds.
pub fn read_count(field: &Field, entry: Entry) -> (count: Result<u32, ExtractionError>)
    ensures
        match count {
            Ok(value) => count_in(field@, entry) == Ok::<int, ExtractionError>(value as int),
            Err(error) => count_in(field@, entry) == Err::<int, ExtractionError>(error),
        },
{
    match read_number(field, entry) {
        Ok(value) => if value < 0 {
            Err(ExtractionError::NegativeCount(entry))
        } else {
            Ok(value as u32)
        },
        Err(error) => Err(error),
    }
}

/// Reads the date that an entry holds.
pub fn read_date(field: &Field, entry: Entry) -> (date: Result<String, ExtractionError>)
    ensures
        match date {
            Ok(text) => date_in(field@, entry) == Ok::<Seq<char>, ExtractionError>(text@),
            Err(error) => date_in(field@, entry) == Err::<Seq<char>, ExtractionError>(error),
        },
{
    if !field.exists {
        return Err(ExtractionError::MissingField(entry));
    }
    match field.kind {
        JsonKind::Text => Ok(field.text.clone()),
        _ => Err(ExtractionError::TypeMismatch(entry)),
    }
}

/// Turns the five entries of a country's record into that day's figures.
pub fn read_record(country: Country, record: &Record) -> (day: Result<VaccDayData, ExtractionError>)
    ensures
        yields(day, reading(country, record@)),
{
    let doses = match read_count(&record.doses, Entry::Doses) {
        Ok(value) => value,
        Err(error) => return Err(error),
    };
    let doses_change = match read_number(&record.doses_change, Entry::DosesChange) {
        Ok(value) => value,
        Err(error) => return Err(error),
    };
    let complete = match read_count(&record.complete, Entry::Complete) {
        Ok(value) => value,
        Err(error) => return Err(error),
    };
    let complete_change = match read_number(&record.complete_change, Entry::CompleteChange) {
        Ok(value) => value,
        Err(error) => return Err(error),
    };
    let date = match read_date(&record.date, Entry::Date) {
        Ok(text) => text,
        Err(error) => return Err(error),
    };
    let people = country.population();
    let full = VaccedCount::new(complete, complete_change, people);
    match country {
        Country::UK => Ok(
            VaccDayData { first: VaccedCount::new(doses, doses_change, people), full, date },
        ),
        Country::CAN => if doses < complete {
            Err(ExtractionError::NegativeCount(Entry::Doses))
        } else {
            Ok(
                VaccDayData {
                    first: VaccedCount::new(
                        doses - complete,
                        doses_change - complete_change,
                        people,
                    ),
                    full,
                    date,
                },
            )
        },
    }
}

/// Reads a day's figures out of the body of a country's response.
///
/// A body that is not well-formed JSON yields `InvalidJson`. In any other the
/// five entries of the latest record are looked up at the country's paths and
/// read in turn.
pub fn get_vacced_count(country: Country, body: &str) -> (day: Result<
    VaccDayData,
    ExtractionError,
>)
    ensures
        yields(day, extraction(country, body@)),
{
    if !is_valid_json(body) {
        return Err(ExtractionError::InvalidJson);
    }
    let record = Record {
        doses: lookup(body, country.path(Entry::Doses)),
        doses_change: lookup(body, country.path(Entry::DosesChange)),
        complete: lookup(body, country.path(Entry::Complete)),
        complete_change: lookup(body, country.path(Entry::CompleteChange)),
        date: lookup(body, country.path(Entry::Date)),
    };
    read_record(country, &record)
}

/// Whether an entry is there and holds `value`, written as a number or as a
/// string of digits.
pub open spec fn holds(field: FieldView, value: int) -> bool {
    &&& field.exists
    &&& field.kind == JsonKind::Number || field.kind == JsonKind::Text
    &&& integer_of(field.text) == Some(value)
}

/// From a well-formed response of the United Kingdom whose entries are all
/// there, the totals and changes come out as the numbers that the entries
/// hold, and the date as the text of its entry.
pub proof fn lemma_uk_figures_are_the_entries(
    body: Seq<char>,
    doses: int,
    doses_change: int,
    complete: int,
    complete_change: int,
)
    requires
        gjson_valid(body),
        holds(record_in(Country::UK, body).doses, doses),
        holds(record_in(Country::UK, body).doses_change, doses_change),
        holds(record_in(Country::UK, body).complete, complete),
        holds(record_in(Country::UK, body).complete_change, complete_change),
        doses >= 0,
        complete >= 0,
        record_in(Country::UK, body).date.exists,
        record_in(Country::UK, body).date.kind == JsonKind::Text,
    ensures
        extraction(Country::UK, body) matches Ok(day) && {
            &&& day.first.count == doses
            &&& day.first.diff == doses_change
            &&& day.full.count == complete
            &&& day.full.diff == complete_change
            &&& day.date == record_in(Country::UK, body).date.text
        },
{
    let record = record_in(Country::UK, body);
    lemma_integer_in_range(record.doses.text);
    lemma_integer_in_range(record.doses_change.text);
    lemma_integer_in_range(record.complete.text);
    lemma_integer_in_range(record.complete_change.text);
}

/// From a well-formed response of Canada whose entries are all there, the
/// people with a first dose come out as the doses given less the people
/// completely vaccinated, and their change as the change of the one less the
/// change of the other, whether the entries are numbers or strings of digits.
pub proof fn lemma_canada_first_doses_are_derived(
    body: Seq<char>,
    doses: int,
    doses_change: int,
    complete: int,
    complete_change: int,
)
    requires
        gjson_valid(body),
        holds(record_in(Country::CAN, body).doses, doses),
        holds(record_in(Country::CAN, body).doses_change, doses_change),
        holds(record_in(Country::CAN, body).complete, complete),
        holds(record_in(Country::CAN, body).complete_change, complete_change),
        doses >= complete,
        complete >= 0,
        record_in(Country::CAN, body).date.exists,
        record_in(Country::CAN, body).date.kind == JsonKind::Text,
    ensures
        extraction(Country::CAN, body) matches Ok(day) && {
            &&& day.first.count == doses - complete
            &&& day.first.diff == doses_change - complete_change
            &&& day.full.count == complete
            &&& day.full.diff == complete_change
            &&& day.date == record_in(Country::CAN, body).date.text
        },
{
    let record = record_in(Country::CAN, body);
    lemma_integer_in_range(record.doses.text);
    lemma_integer_in_range(record.doses_change.text);
    lemma_integer_in_range(record.complete.text);
    lemma_integer_in_range(record.complete_change.text);
}

} // verus!
