//! The reshaping of a response, which stores one array per parameter, into
//! one record per timestamp.

use crate::datetime::{
    checked_unix_time_to_naive_datetime, local_datetime, NaiveDate, NaiveDateTime,
};
use crate::errors::{DecodeError, DecodeErrorView};
use crate::json::{json_elements, json_integer};
use crate::param_map::ParamMap;
use crate::text::str_eq;
use vstd::prelude::*;

verus! {

/// The name under which a block holds its times.
pub open spec fn time_key() -> Seq<char> {
    "time"@
}

/// The wall-clock time that a JSON value stands for, read as epoch seconds
/// with a UTC offset; `None` where the value is no integer or the moment
/// lies outside the calendar.
pub open spec fn element_time(value: serde_json::Value, utc_offset_seconds: int) -> Option<
    NaiveDateTime,
> {
    match json_integer(value) {
        Some(unix_time) => local_datetime(unix_time as int, utc_offset_seconds),
        None => None,
    }
}

/// Whether every element stands for a time.
pub open spec fn all_times(
    elements: Seq<serde_json::Value>,
    utc_offset_seconds: int,
) -> bool {
    forall|i: int|
        0 <= i < elements.len() ==> element_time(#[trigger] elements[i], utc_offset_seconds).is_some()
}

/// What a block says of its times: `Ok(None)` where it has no `time` entry
/// or the entry is no array, the times in order where every element stands
/// for one, and an error otherwise.
pub open spec fn block_times(
    values: Map<Seq<char>, serde_json::Value>,
    utc_offset_seconds: int,
) -> Result<Option<Seq<NaiveDateTime>>, DecodeErrorView> {
    if !values.contains_key(time_key()) {
        Ok(None)
    } else {
        match json_elements(values[time_key()]) {
            None => Ok(None),
            Some(elements) => if all_times(elements, utc_offset_seconds) {
                Ok(
                    Some(
                        Seq::new(
                            elements.len(),
                            |i: int| element_time(elements[i], utc_offset_seconds).unwrap(),
                        ),
                    ),
                )
            } else {
                Err(DecodeErrorView::InvalidTime)
            },
        }
    }
}

/// The outcome of reading times, with vectors as sequences and the error by
/// its view.
pub open spec fn times_outcome_view(r: Result<Option<Vec<NaiveDateTime>>, DecodeError>) -> Result<
    Option<Seq<NaiveDateTime>>,
    DecodeErrorView,
> {
    match r {
        Ok(Some(times)) => Ok(Some(times@)),
        Ok(None) => Ok(None),
        Err(e) => Err(e@),
    }
}

/// Reads the times of a block and shifts them by the UTC offset.
///
/// Gives `Ok(None)` where the block has no `time` entry or the entry is no
/// array, and `DecodeError::InvalidTime` where an element of the array is no
/// integer or names a moment outside the calendar. The times keep the order
/// of the array.
pub fn extract_times(input: &ParamMap<serde_json::Value>, utc_offset_seconds: i32) -> (r: Result<
    Option<Vec<NaiveDateTime>>,
    DecodeError,
>)
    ensures
        times_outcome_view(r) == block_times(input@, utc_offset_seconds as int),
{
    let Some(time) = input.get("time") else {
        return Ok(None);
    };
    let Some(time_values) = time.as_array() else {
        return Ok(None);
    };
    let mut datetimes: Vec<NaiveDateTime> = Vec::new();
    let n: usize = time_values.len();
    let mut i: usize = 0;
    while i < n
        invariant
            input@.contains_key(time_key()),
            json_elements(input@[time_key()]) == Some(time_values@),
            n == time_values@.len(),
            i <= n,
            datetimes@.len() == i,
            forall|j: int|
                0 <= j < i ==> element_time(
                    #[trigger] time_values@[j],
                    utc_offset_seconds as int,
                ) == Some(datetimes@[j]),
        decreases n - i,
    {
        let Some(unix_time) = time_values[i].as_i64() else {
            assert(element_time(time_values@[i as int], utc_offset_seconds as int).is_none());
            return Err(DecodeError::InvalidTime);
        };
        let Some(datetime) = checked_unix_time_to_naive_datetime(unix_time, utc_offset_seconds)
        else {
            assert(element_time(time_values@[i as int], utc_offset_seconds as int).is_none());
            return Err(DecodeError::InvalidTime);
        };
        datetimes.push(datetime);
        i += 1;
    }
    assert(datetimes@ =~= Seq::new(
        time_values@.len(),
        |i: int| element_time(time_values@[i], utc_offset_seconds as int).unwrap(),
    ));
    Ok(Some(datetimes))
}

/// The value of one parameter at one time, with the parameter's unit where
/// the response names one.
#[derive(Debug)]
pub struct ForecastResultItem {
    pub unit: Option<String>,
    pub value: serde_json::Value,
}

/// A `ForecastResultItem` with its unit as characters.
pub struct ItemView {
    pub unit: Option<Seq<char>>,
    pub value: serde_json::Value,
}

impl View for ForecastResultItem {
    type V = ItemView;

    open spec fn view(&self) -> ItemView {
        ItemView {
            unit: match self.unit {
                Some(unit) => Some(unit@),
                None => None,
            },
            value: self.value,
        }
    }
}

/// The values of all parameters at one wall-clock time.
#[derive(Debug)]
pub struct ForecastResultHourly {
    pub datetime: NaiveDateTime,
    pub values: ParamMap<ForecastResultItem>,
}

/// The record of the moment of the request.
pub type CurrentResult = ForecastResultHourly;

/// A record of a series in steps of 15 minutes.
pub type ForecastResultMinutely15 = ForecastResultHourly;

/// A record as a time and a map from parameter names to items.
pub struct RecordView {
    pub datetime: NaiveDateTime,
    pub values: Map<Seq<char>, ItemView>,
}

/// The items of a map by their views.
pub open spec fn items_view(values: Map<Seq<char>, ForecastResultItem>) -> Map<
    Seq<char>,
    ItemView,
> {
    values.map_values(|item: ForecastResultItem| item@)
}

impl View for ForecastResultHourly {
    type V = RecordView;

    open spec fn view(&self) -> RecordView {
        RecordView { datetime: self.datetime, values: items_view(self.values@) }
    }
}

/// The values of all parameters on one day.
#[derive(Debug)]
pub struct ForecastResultDaily {
    pub date: NaiveDate,
    pub values: ParamMap<ForecastResultItem>,
}

/// A daily record as a date and a map from parameter names to items.
pub struct DailyView {
    pub date: NaiveDate,
    pub values: Map<Seq<char>, ItemView>,
}

impl View for ForecastResultDaily {
    type V = DailyView;

    open spec fn view(&self) -> DailyView {
        DailyView { date: self.date, values: items_view(self.values@) }
    }
}

/// The records of a vector by their views.
pub open spec fn records_view(records: Seq<ForecastResultHourly>) -> Seq<RecordView> {
    records.map_values(|record: ForecastResultHourly| record@)
}

/// The daily records of a vector by their views.
pub open spec fn dailies_view(records: Seq<ForecastResultDaily>) -> Seq<DailyView> {
    records.map_values(|record: ForecastResultDaily| record@)
}

/// The unit that `units` names for a parameter, if any.
pub open spec fn unit_of(units: Map<Seq<char>, String>, key: Seq<char>) -> Option<Seq<char>> {
    if units.contains_key(key) {
        Some(units[key]@)
    } else {
        None
    }
}

/// What is wrong with an entry of a block whose time array has `n`
/// elements: nothing with the `time` entry itself; any other entry must be
/// an array of `n` elements.
pub open spec fn entry_fault(entry: (Seq<char>, serde_json::Value), n: nat) -> Option<
    DecodeErrorView,
> {
    if entry.0 == time_key() {
        None
    } else {
        match json_elements(entry.1) {
            None => Some(DecodeErrorView::NotAnArray { parameter: entry.0 }),
            Some(elements) => if elements.len() == n {
                None
            } else {
                Some(DecodeErrorView::LengthMismatch { parameter: entry.0 })
            },
        }
    }
}

/// The fault of the first faulty entry from place `from` on, if any.
pub open spec fn first_fault(
    entries: Seq<(Seq<char>, serde_json::Value)>,
    n: nat,
    from: nat,
) -> Option<DecodeErrorView>
    decreases entries.len() - from,
{
    if from >= entries.len() {
        None
    } else {
        match entry_fault(entries[from as int], n) {
            Some(fault) => Some(fault),
            None => first_fault(entries, n, from + 1),
        }
    }
}

/// Where no entry from `from` on is faulty, each of them is sound.
pub proof fn lemma_no_fault(
    entries: Seq<(Seq<char>, serde_json::Value)>,
    n: nat,
    from: nat,
    i: int,
)
    requires
        first_fault(entries, n, from).is_none(),
        from <= i < entries.len(),
    ensures
        entry_fault(entries[i], n).is_none(),
    decreases entries.len() - from,
{
    if from < i {
        lemma_no_fault(entries, n, from + 1, i);
    }
}

/// The fields of the record at place `i` of a block of arrays: one for each
/// parameter but `time`, holding element `i` of the parameter's array.
pub open spec fn series_fields(
    values: Map<Seq<char>, serde_json::Value>,
    units: Map<Seq<char>, String>,
    i: int,
) -> Map<Seq<char>, ItemView> {
    Map::new(
        |key: Seq<char>| values.contains_key(key) && key != time_key(),
        |key: Seq<char>|
            ItemView { unit: unit_of(units, key), value: json_elements(values[key]).unwrap()[i] },
    )
}

/// The records of a block of arrays, one for each timestamp, in order.
pub open spec fn series_records(
    values: Map<Seq<char>, serde_json::Value>,
    units: Map<Seq<char>, String>,
    timestamps: Seq<NaiveDateTime>,
) -> Seq<RecordView> {
    Seq::new(
        timestamps.len(),
        |i: int| RecordView { datetime: timestamps[i], values: series_fields(values, units, i) },
    )
}

/// What reshaping a block of arrays gives: the fault of its first faulty
/// entry, or else its records.
pub open spec fn series_outcome(
    values: ParamMap<serde_json::Value>,
    units: Map<Seq<char>, String>,
    timestamps: Seq<NaiveDateTime>,
) -> Result<Seq<RecordView>, DecodeErrorView> {
    match first_fault(values.entries(), timestamps.len(), 0) {
        Some(fault) => Err(fault),
        None => Ok(series_records(values@, units, timestamps)),
    }
}

/// Checks that every parameter of a block is an array of `n` elements.
pub fn check_series_shape(values: &ParamMap<serde_json::Value>, n: usize) -> (r: Result<
    (),
    DecodeError,
>)
    ensures
        match r {
            Ok(_) => first_fault(values.entries(), n as nat, 0).is_none(),
            Err(e) => first_fault(values.entries(), n as nat, 0) == Some(e@),
        },
{
    let count: usize = values.len();
    let mut j: usize = 0;
    while j < count
        invariant
            count == values.entries().len(),
            j <= count,
            first_fault(values.entries(), n as nat, 0) == first_fault(
                values.entries(),
                n as nat,
                j as nat,
            ),
        decreases count - j,
    {
        let key = values.key_at(j);
        if !str_eq(key.as_str(), "time") {
            match values.value_at(j).as_array() {
                None => {
                    return Err(DecodeError::NotAnArray { parameter: key.clone() });
                },
                Some(elements) => {
                    if elements.len() != n {
                        return Err(DecodeError::LengthMismatch { parameter: key.clone() });
                    }
                },
            }
        }
        j += 1;
    }
    Ok(())
}

/// The unit that a map of units names for a parameter, if any.
fn lookup_unit(units: &ParamMap<String>, key: &str) -> (unit: Option<String>)
    ensures
        match unit {
            Some(text) => unit_of(units@, key@) == Some(text@),
            None => unit_of(units@, key@).is_none(),
        },
{
    match units.get(key) {
        Some(text) => Some(text.clone()),
        None => None,
    }
}

/// Builds the fields of the record at place `index` of a sound block.
fn series_fields_at(
    values: &ParamMap<serde_json::Value>,
    units: &ParamMap<String>,
    index: usize,
    n: usize,
) -> (fields: ParamMap<ForecastResultItem>)
    requires
        first_fault(values.entries(), n as nat, 0).is_none(),
        index < n,
    ensures
        items_view(fields@) == series_fields(values@, units@, index as int),
{
    let mut fields: ParamMap<ForecastResultItem> = ParamMap::new();
    let count: usize = values.len();
    let mut j: usize = 0;
    while j < count
        invariant
            values.wf(),
            first_fault(values.entries(), n as nat, 0).is_none(),
            index < n,
            count == values.entries().len(),
            j <= count,
            forall|key: Seq<char>|
                fields@.contains_key(key) <==> key != time_key() && exists|a: int|
                    0 <= a < j && (#[trigger] values.entries()[a]).0 == key,
            forall|key: Seq<char>|
                fields@.contains_key(key) ==> (#[trigger] fields@[key])@ == series_fields(
                    values@,
                    units@,
                    index as int,
                )[key],
        decreases count - j,
    {
        let key = values.key_at(j);
        let value = values.value_at(j);
        if !str_eq(key.as_str(), "time") {
            proof {
                lemma_no_fault(values.entries(), n as nat, 0, j as int);
                if fields@.contains_key(key@) {
                    let a = choose|a: int|
                        0 <= a < j && (#[trigger] values.entries()[a]).0 == key@;
                    assert(values.entries()[a].0 != values.entries()[j as int].0);
                }
            }
            let Some(elements) = value.as_array() else {
                return unreached();
            };
            let item = ForecastResultItem {
                unit: lookup_unit(units, key.as_str()),
                value: elements[index].clone(),
            };
            let ghost before = fields@;
            fields.insert_new(key.clone(), item);
            assert forall|k: Seq<char>|
                fields@.contains_key(k) <==> k != time_key() && exists|a: int|
                    0 <= a < j + 1 && (#[trigger] values.entries()[a]).0 == k by {
                if k == key@ {
                    assert(values.entries()[j as int].0 == k);
                } else if before.contains_key(k) {
                    let a = choose|a: int| 0 <= a < j && (#[trigger] values.entries()[a]).0 == k;
                    assert(0 <= a < j + 1 && values.entries()[a].0 == k);
                } else if k != time_key() && exists|a: int|
                    0 <= a < j + 1 && (#[trigger] values.entries()[a]).0 == k {
                    let a = choose|a: int|
                        0 <= a < j + 1 && (#[trigger] values.entries()[a]).0 == k;
                    assert(a < j);
                }
            }
        }
        j += 1;
    }
    proof {
        assert forall|key: Seq<char>|
            fields@.contains_key(key) <==> values@.contains_key(key) && key != time_key() by {
            if values@.contains_key(key) && key != time_key() {
                let a = crate::param_map::key_index(values.entries(), key);
                assert(values.entries()[a].0 == key);
            }
        }
        assert(items_view(fields@) =~= series_fields(values@, units@, index as int));
    }
    fields
}

/// The outcome of reshaping a block of arrays, with records and the error
/// by their views.
pub open spec fn series_outcome_view(r: Result<Vec<ForecastResultHourly>, DecodeError>) -> Result<
    Seq<RecordView>,
    DecodeErrorView,
> {
    match r {
        Ok(records) => Ok(records_view(records@)),
        Err(e) => Err(e@),
    }
}

/// Turns a block of parallel arrays into one record per timestamp.
///
/// Record `i` holds `timestamps[i]` and, for every parameter of `values`
/// but `time`, element `i` of the parameter's array with the unit that
/// `units` names for it, if any. Fails with the fault of the first entry
/// that is no array or is not as long as `timestamps`.
pub fn reshape_series(
    values: &ParamMap<serde_json::Value>,
    units: &ParamMap<String>,
    timestamps: &Vec<NaiveDateTime>,
) -> (r: Result<Vec<ForecastResultHourly>, DecodeError>)
    ensures
        series_outcome_view(r) == series_outcome(*values, units@, timestamps@),
        r matches Ok(records) ==> records@.len() == timestamps@.len(),
        r matches Ok(records) ==> forall|i: int|
            0 <= i < records@.len() ==> !(#[trigger] records@[i]).values@.contains_key(time_key()),
{
    let n: usize = timestamps.len();
    match check_series_shape(values, n) {
        Err(e) => {
            return Err(e);
        },
        Ok(_) => {},
    }
    let mut records: Vec<ForecastResultHourly> = Vec::new();
    let mut i: usize = 0;
    while i < n
        invariant
            first_fault(values.entries(), n as nat, 0).is_none(),
            n == timestamps@.len(),
            i <= n,
            records@.len() == i,
            forall|a: int|
                0 <= a < i ==> (#[trigger] records@[a])@ == series_records(
                    values@,
                    units@,
                    timestamps@,
                )[a],
        decreases n - i,
    {
        let fields = series_fields_at(values, units, i, n);
        records.push(ForecastResultHourly { datetime: timestamps[i], values: fields });
        i += 1;
    }
    proof {
        assert(records_view(records@) =~= series_records(values@, units@, timestamps@));
        assert forall|a: int| 0 <= a < records@.len() implies !(#[trigger] records@[a]).values@.contains_key(
            time_key(),
        ) by {
            assert(records@[a]@.values == series_fields(values@, units@, a));
            assert(!items_view(records@[a].values@).contains_key(time_key()));
        }
    }
    Ok(records)
}

/// A record of a series as a daily record: its date, and its fields.
pub open spec fn daily_of(record: RecordView) -> DailyView {
    DailyView { date: record.datetime.date, values: record.values }
}

/// What reshaping a block of daily arrays gives.
pub open spec fn daily_outcome(
    values: ParamMap<serde_json::Value>,
    units: Map<Seq<char>, String>,
    timestamps: Seq<NaiveDateTime>,
) -> Result<Seq<DailyView>, DecodeErrorView> {
    match series_outcome(values, units, timestamps) {
        Ok(records) => Ok(records.map_values(|record: RecordView| daily_of(record))),
        Err(e) => Err(e),
    }
}

/// The outcome of reshaping a block of daily arrays, with records and the
/// error by their views.
pub open spec fn daily_outcome_view(r: Result<Vec<ForecastResultDaily>, DecodeError>) -> Result<
    Seq<DailyView>,
    DecodeErrorView,
> {
    match r {
        Ok(records) => Ok(dailies_view(records@)),
        Err(e) => Err(e@),
    }
}

/// Turns a block of parallel arrays into one record per day: as
/// `reshape_series`, with each record under the date of its timestamp.
pub fn reshape_daily(
    values: &ParamMap<serde_json::Value>,
    units: &ParamMap<String>,
    timestamps: &Vec<NaiveDateTime>,
) -> (r: Result<Vec<ForecastResultDaily>, DecodeError>)
    ensures
        daily_outcome_view(r) == daily_outcome(*values, units@, timestamps@),
        r matches Ok(records) ==> records@.len() == timestamps@.len(),
        r matches Ok(records) ==> forall|i: int|
            0 <= i < records@.len() ==> !(#[trigger] records@[i]).values@.contains_key(time_key()),
{
    let n: usize = timestamps.len();
    match check_series_shape(values, n) {
        Err(e) => {
            return Err(e);
        },
        Ok(_) => {},
    }
    let mut records: Vec<ForecastResultDaily> = Vec::new();
    let mut i: usize = 0;
    while i < n
        invariant
            first_fault(values.entries(), n as nat, 0).is_none(),
            n == timestamps@.len(),
            i <= n,
            records@.len() == i,
            forall|a: int|
                0 <= a < i ==> (#[trigger] records@[a])@ == daily_of(
                    series_records(values@, units@, timestamps@)[a],
                ),
        decreases n - i,
    {
        let fields = series_fields_at(values, units, i, n);
        records.push(ForecastResultDaily { date: timestamps[i].date(), values: fields });
        i += 1;
    }
    proof {
        assert(dailies_view(records@) =~= series_records(
            values@,
            units@,
            timestamps@,
        ).map_values(|record: RecordView| daily_of(record)));
        assert forall|a: int| 0 <= a < records@.len() implies !(#[trigger] records@[a]).values@.contains_key(
            time_key(),
        ) by {
            assert(records@[a]@.values == series_fields(values@, units@, a));
            assert(!items_view(records@[a].values@).contains_key(time_key()));
        }
    }
    Ok(records)
}

/// The unit that an optional map of units names for a parameter, if any.
pub open spec fn optional_unit_of(units: Option<ParamMap<String>>, key: Seq<char>) -> Option<
    Seq<char>,
> {
    match units {
        Some(units) => unit_of(units@, key),
        None => None,
    }
}

/// The fields of the record of a block of single values: one for each
/// parameter but `time`, holding the parameter's value as it is.
pub open spec fn instant_fields(
    values: Map<Seq<char>, serde_json::Value>,
    units: Option<ParamMap<String>>,
) -> Map<Seq<char>, ItemView> {
    Map::new(
        |key: Seq<char>| values.contains_key(key) && key != time_key(),
        |key: Seq<char>| ItemView { unit: optional_unit_of(units, key), value: values[key] },
    )
}

/// What reshaping a block of single values gives: an error where the block
/// has a `time` entry that stands for no time; else a record at that time,
/// read with no offset, or at the epoch where the block has no `time`.
pub open spec fn instant_outcome(
    values: Map<Seq<char>, serde_json::Value>,
    units: Option<ParamMap<String>>,
) -> Result<RecordView, DecodeErrorView> {
    if values.contains_key(time_key()) {
        match element_time(values[time_key()], 0) {
            Some(datetime) => Ok(RecordView { datetime, values: instant_fields(values, units) }),
            None => Err(DecodeErrorView::InvalidTime),
        }
    } else {
        Ok(RecordView { datetime: NaiveDateTime::epoch(), values: instant_fields(values, units) })
    }
}

/// The outcome of reshaping a block of single values, with the record and
/// the error by their views.
pub open spec fn instant_outcome_view(r: Result<CurrentResult, DecodeError>) -> Result<
    RecordView,
    DecodeErrorView,
> {
    match r {
        Ok(record) => Ok(record@),
        Err(e) => Err(e@),
    }
}

/// Turns a block of single values into one record.
///
/// The record's time is the block's `time` entry, read as epoch seconds
/// with no offset. Every other parameter becomes a field with its value as
/// it is and the unit that `units` names for it, if any. Fails with
/// `DecodeError::InvalidTime` where the `time` entry is no integer or names
/// a moment outside the calendar.
pub fn reshape_instant(values: &ParamMap<serde_json::Value>, units: Option<&ParamMap<String>>) -> (r:
    Result<CurrentResult, DecodeError>)
    ensures
        instant_outcome_view(r) == instant_outcome(
            values@,
            match units {
                Some(units) => Some(*units),
                None => None,
            },
        ),
        r matches Ok(record) ==> !record.values@.contains_key(time_key()),
{
    let ghost units_model: Option<ParamMap<String>> = match units {
        Some(units) => Some(*units),
        None => None,
    };
    let mut datetime = NaiveDateTime::default();
    let mut fields: ParamMap<ForecastResultItem> = ParamMap::new();
    let count: usize = values.len();
    let mut j: usize = 0;
    while j < count
        invariant
            values.wf(),
            units_model == (match units {
                Some(units) => Some(*units),
                None => None,
            }),
            count == values.entries().len(),
            j <= count,
            forall|key: Seq<char>|
                fields@.contains_key(key) <==> key != time_key() && exists|a: int|
                    0 <= a < j && (#[trigger] values.entries()[a]).0 == key,
            forall|key: Seq<char>|
                fields@.contains_key(key) ==> (#[trigger] fields@[key])@ == instant_fields(
                    values@,
                    units_model,
                )[key],
            (exists|a: int| 0 <= a < j && (#[trigger] values.entries()[a]).0 == time_key())
                ==> values@.contains_key(time_key()) && element_time(values@[time_key()], 0)
                == Some(datetime),
            (forall|a: int| 0 <= a < j ==> (#[trigger] values.entries()[a]).0 != time_key())
                ==> datetime == NaiveDateTime::epoch(),
        decreases count - j,
    {
        let key = values.key_at(j);
        let value = values.value_at(j);
        if str_eq(key.as_str(), "time") {
            let Some(unix_time) = value.as_i64() else {
                return Err(DecodeError::InvalidTime);
            };
            let Some(local) = checked_unix_time_to_naive_datetime(unix_time, 0) else {
                return Err(DecodeError::InvalidTime);
            };
            datetime = local;
            assert(values.entries()[j as int].0 == time_key());
        } else {
            proof {
                if fields@.contains_key(key@) {
                    let a = choose|a: int|
                        0 <= a < j && (#[trigger] values.entries()[a]).0 == key@;
                    assert(values.entries()[a].0 != values.entries()[j as int].0);
                }
                if exists|a: int| 0 <= a < j && (#[trigger] values.entries()[a]).0 == time_key() {
                    let a = choose|a: int|
                        0 <= a < j && (#[trigger] values.entries()[a]).0 == time_key();
                    assert(0 <= a < j + 1 && values.entries()[a].0 == time_key());
                }
            }
            let unit = match units {
                Some(units) => lookup_unit(units, key.as_str()),
                None => None,
            };
            let item = ForecastResultItem { unit, value: value.clone() };
            let ghost before = fields@;
            fields.insert_new(key.clone(), item);
            assert forall|k: Seq<char>|
                fields@.contains_key(k) <==> k != time_key() && exists|a: int|
                    0 <= a < j + 1 && (#[trigger] values.entries()[a]).0 == k by {
                if k == key@ {
                    assert(values.entries()[j as int].0 == k);
                } else if before.contains_key(k) {
                    let a = choose|a: int| 0 <= a < j && (#[trigger] values.entries()[a]).0 == k;
                    assert(0 <= a < j + 1 && values.entries()[a].0 == k);
                } else if k != time_key() && exists|a: int|
                    0 <= a < j + 1 && (#[trigger] values.entries()[a]).0 == k {
                    let a = choose|a: int|
                        0 <= a < j + 1 && (#[trigger] values.entries()[a]).0 == k;
                    assert(a < j);
                }
            }
        }
        j += 1;
    }
    proof {
        assert forall|key: Seq<char>|
            fields@.contains_key(key) <==> values@.contains_key(key) && key != time_key() by {
            if values@.contains_key(key) && key != time_key() {
                let a = crate::param_map::key_index(values.entries(), key);
                assert(values.entries()[a].0 == key);
            }
        }
        assert(items_view(fields@) =~= instant_fields(values@, units_model));
        if values@.contains_key(time_key()) {
            let a = crate::param_map::key_index(values.entries(), time_key());
            assert(values.entries()[a].0 == time_key());
        }
    }
    Ok(ForecastResultHourly { datetime, values: fields })
}

/// A decoded response to a forecast or archive request, as far as the
/// library reads it.
#[derive(Debug)]
pub struct ApiForecastResponse {
    pub utc_offset_seconds: Option<i32>,
    pub current_units: Option<ParamMap<String>>,
    pub current: Option<ParamMap<serde_json::Value>>,
    pub minutely_15_units: Option<ParamMap<String>>,
    pub minutely_15: Option<ParamMap<serde_json::Value>>,
    pub hourly_units: Option<ParamMap<String>>,
    pub hourly: Option<ParamMap<serde_json::Value>>,
    pub daily_units: Option<ParamMap<String>>,
    pub daily: Option<ParamMap<serde_json::Value>>,
}

/// The reshaped response to a forecast or archive request. A section that
/// the response does not hold is `None`.
#[derive(Debug)]
pub struct ForecastResult {
    pub current: Option<CurrentResult>,
    pub minutely_15: Option<Vec<ForecastResultMinutely15>>,
    pub hourly: Option<Vec<ForecastResultHourly>>,
    pub daily: Option<Vec<ForecastResultDaily>>,
}

/// A `ForecastResult` with its records by their views.
pub struct ForecastResultView {
    pub current: Option<RecordView>,
    pub minutely_15: Option<Seq<RecordView>>,
    pub hourly: Option<Seq<RecordView>>,
    pub daily: Option<Seq<DailyView>>,
}

/// An optional vector of records by their views.
pub open spec fn section_view(section: Option<Vec<ForecastResultHourly>>) -> Option<
    Seq<RecordView>,
> {
    match section {
        Some(records) => Some(records_view(records@)),
        None => None,
    }
}

impl View for ForecastResult {
    type V = ForecastResultView;

    open spec fn view(&self) -> ForecastResultView {
        ForecastResultView {
            current: match self.current {
                Some(record) => Some(record@),
                None => None,
            },
            minutely_15: section_view(self.minutely_15),
            hourly: section_view(self.hourly),
            daily: match self.daily {
                Some(records) => Some(dailies_view(records@)),
                None => None,
            },
        }
    }
}

/// The UTC offset of a response: zero where it names none.
pub open spec fn offset_or_zero(utc_offset_seconds: Option<i32>) -> int {
    match utc_offset_seconds {
        Some(offset) => offset as int,
        None => 0,
    }
}

/// What the section of single values of a response becomes: nothing where
/// the response holds no such block, else the outcome of reshaping it.
pub open spec fn current_outcome(
    block: Option<ParamMap<serde_json::Value>>,
    units: Option<ParamMap<String>>,
) -> Result<Option<RecordView>, DecodeErrorView> {
    match block {
        None => Ok(None),
        Some(values) => match instant_outcome(values@, units) {
            Ok(record) => Ok(Some(record)),
            Err(e) => Err(e),
        },
    }
}

/// What a section of arrays of a response becomes. It is absent where the
/// response holds no such block, where the block has no array of times, and
/// where the block has times but the response names no units for it. A
/// faulty time counts before absent units.
pub open spec fn section_outcome(
    block: Option<ParamMap<serde_json::Value>>,
    units: Option<ParamMap<String>>,
    utc_offset_seconds: int,
) -> Result<Option<Seq<RecordView>>, DecodeErrorView> {
    match block {
        None => Ok(None),
        Some(values) => match block_times(values@, utc_offset_seconds) {
            Err(e) => Err(e),
            Ok(None) => Ok(None),
            Ok(Some(timestamps)) => match units {
                None => Ok(None),
                Some(units) => match series_outcome(values, units@, timestamps) {
                    Ok(records) => Ok(Some(records)),
                    Err(e) => Err(e),
                },
            },
        },
    }
}

/// The records of a section of arrays under the dates of their times.
pub open spec fn daily_section(section: Option<Seq<RecordView>>) -> Option<Seq<DailyView>> {
    match section {
        Some(records) => Some(records.map_values(|record: RecordView| daily_of(record))),
        None => None,
    }
}

/// What a response becomes: its four sections reshaped, or the error of
/// the first section that fails, in the order current, 15 minutes, hourly,
/// daily. The section of single values is read with no offset, the others
/// with the offset of the response.
pub open spec fn forecast_outcome(api_res: ApiForecastResponse) -> Result<
    ForecastResultView,
    DecodeErrorView,
> {
    let offset = offset_or_zero(api_res.utc_offset_seconds);
    match current_outcome(api_res.current, api_res.current_units) {
        Err(e) => Err(e),
        Ok(current) => match section_outcome(
            api_res.minutely_15,
            api_res.minutely_15_units,
            offset,
        ) {
            Err(e) => Err(e),
            Ok(minutely_15) => match section_outcome(api_res.hourly, api_res.hourly_units, offset) {
                Err(e) => Err(e),
                Ok(hourly) => match section_outcome(api_res.daily, api_res.daily_units, offset) {
                    Err(e) => Err(e),
                    Ok(daily) => Ok(
                        ForecastResultView {
                            current,
                            minutely_15,
                            hourly,
                            daily: daily_section(daily),
                        },
                    ),
                },
            },
        },
    }
}

/// The outcome of reshaping a section of arrays, with records and the error
/// by their views.
pub open spec fn section_outcome_view(
    r: Result<Option<Vec<ForecastResultHourly>>, DecodeError>,
) -> Result<Option<Seq<RecordView>>, DecodeErrorView> {
    match r {
        Ok(section) => Ok(section_view(section)),
        Err(e) => Err(e@),
    }
}

/// Reshapes one section of arrays of a response, where the response holds
/// it.
pub fn reshape_section(
    block: &Option<ParamMap<serde_json::Value>>,
    units: &Option<ParamMap<String>>,
    utc_offset_seconds: i32,
) -> (r: Result<Option<Vec<ForecastResultHourly>>, DecodeError>)
    ensures
        section_outcome_view(r) == section_outcome(*block, *units, utc_offset_seconds as int),
        r matches Ok(Some(records)) ==> forall|i: int|
            0 <= i < records@.len() ==> !(#[trigger] records@[i]).values@.contains_key(time_key()),
{
    let Some(values) = block else {
        return Ok(None);
    };
    let timestamps = match extract_times(values, utc_offset_seconds) {
        Err(e) => {
            return Err(e);
        },
        Ok(None) => {
            return Ok(None);
        },
        Ok(Some(timestamps)) => timestamps,
    };
    let Some(units) = units else {
        return Ok(None);
    };
    match reshape_series(values, units, &timestamps) {
        Ok(records) => Ok(Some(records)),
        Err(e) => Err(e),
    }
}

/// The outcome of reshaping the daily section, with records and the error
/// by their views.
pub open spec fn daily_section_outcome_view(
    r: Result<Option<Vec<ForecastResultDaily>>, DecodeError>,
) -> Result<Option<Seq<DailyView>>, DecodeErrorView> {
    match r {
        Ok(Some(records)) => Ok(Some(dailies_view(records@))),
        Ok(None) => Ok(None),
        Err(e) => Err(e@),
    }
}

/// What the daily section of a response becomes.
pub open spec fn daily_section_outcome(
    block: Option<ParamMap<serde_json::Value>>,
    units: Option<ParamMap<String>>,
    utc_offset_seconds: int,
) -> Result<Option<Seq<DailyView>>, DecodeErrorView> {
    match section_outcome(block, units, utc_offset_seconds) {
        Ok(section) => Ok(daily_section(section)),
        Err(e) => Err(e),
    }
}

/// Reshapes the daily section of a response, where the response holds it.
pub fn reshape_daily_section(
    block: &Option<ParamMap<serde_json::Value>>,
    units: &Option<ParamMap<String>>,
    utc_offset_seconds: i32,
) -> (r: Result<Option<Vec<ForecastResultDaily>>, DecodeError>)
    ensures
        daily_section_outcome_view(r) == daily_section_outcome(
            *block,
            *units,
            utc_offset_seconds as int,
        ),
        r matches Ok(Some(records)) ==> forall|i: int|
            0 <= i < records@.len() ==> !(#[trigger] records@[i]).values@.contains_key(time_key()),
{
    let Some(values) = block else {
        return Ok(None);
    };
    let timestamps = match extract_times(values, utc_offset_seconds) {
        Err(e) => {
            return Err(e);
        },
        Ok(None) => {
            return Ok(None);
        },
        Ok(Some(timestamps)) => timestamps,
    };
    let Some(units) = units else {
        return Ok(None);
    };
    match reshape_daily(values, units, &timestamps) {
        Ok(records) => Ok(Some(records)),
        Err(e) => Err(e),
    }
}

/// The outcome of reshaping a response, with the result and the error by
/// their views.
pub open spec fn forecast_outcome_view(r: Result<ForecastResult, DecodeError>) -> Result<
    ForecastResultView,
    DecodeErrorView,
> {
    match r {
        Ok(result) => Ok(result@),
        Err(e) => Err(e@),
    }
}

/// Whether no record of a result has a field named `time`.
pub open spec fn no_time_field(result: ForecastResult) -> bool {
    &&& result.current matches Some(record) ==> !record.values@.contains_key(time_key())
    &&& result.minutely_15 matches Some(records) ==> forall|i: int|
        0 <= i < records@.len() ==> !(#[trigger] records@[i]).values@.contains_key(time_key())
    &&& result.hourly matches Some(records) ==> forall|i: int|
        0 <= i < records@.len() ==> !(#[trigger] records@[i]).values@.contains_key(time_key())
    &&& result.daily matches Some(records) ==> forall|i: int|
        0 <= i < records@.len() ==> !(#[trigger] records@[i]).values@.contains_key(time_key())
}

/// Reshapes a decoded response into a result with one record per
/// timestamp.
///
/// Each section that the response holds is reshaped on its own: the block
/// of single values with no offset, the blocks of arrays with the UTC
/// offset of the response, or zero where it names none. The first section
/// that fails, in the order current, 15 minutes, hourly, daily, fails the
/// whole call.
pub fn api_to_result(api_res: &ApiForecastResponse) -> (r: Result<ForecastResult, DecodeError>)
    ensures
        forecast_outcome_view(r) == forecast_outcome(*api_res),
        r matches Ok(result) ==> no_time_field(result),
{
    let current = match &api_res.current {
        Some(values) => match reshape_instant(values, api_res.current_units.as_ref()) {
            Ok(record) => Some(record),
            Err(e) => {
                return Err(e);
            },
        },
        None => None,
    };
    let utc_offset_seconds: i32 = match api_res.utc_offset_seconds {
        Some(offset) => offset,
        None => 0,
    };
    let minutely_15 = match reshape_section(
        &api_res.minutely_15,
        &api_res.minutely_15_units,
        utc_offset_seconds,
    ) {
        Ok(section) => section,
        Err(e) => {
            return Err(e);
        },
    };
    let hourly = match reshape_section(&api_res.hourly, &api_res.hourly_units, utc_offset_seconds) {
        Ok(section) => section,
        Err(e) => {
            return Err(e);
        },
    };
    let daily = match reshape_daily_section(
        &api_res.daily,
        &api_res.daily_units,
        utc_offset_seconds,
    ) {
        Ok(section) => section,
        Err(e) => {
            return Err(e);
        },
    };
    Ok(ForecastResult { current, minutely_15, hourly, daily })
}

} // verus!
