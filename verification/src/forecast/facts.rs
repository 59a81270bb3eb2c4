//! What holds of every reshaped response, proved from the definitions in
//! `reshape`.

use crate::datetime::NaiveDateTime;
use crate::errors::DecodeError;
use crate::forecast::reshape::{
    block_times, current_outcome, daily_outcome, entry_fault, first_fault, forecast_outcome,
    forecast_outcome_view, instant_fields, instant_outcome, section_outcome, series_fields,
    series_outcome, time_key, ApiForecastResponse, ForecastResult,
};
use crate::json::json_elements;
use crate::param_map::{lemma_entry_in_map, ParamMap};
use vstd::prelude::*;

verus! {

/// A faulty entry at or behind `from` makes `first_fault` find a fault.
pub proof fn lemma_fault_found(
    entries: Seq<(Seq<char>, serde_json::Value)>,
    n: nat,
    from: nat,
    i: int,
)
    requires
        from <= i < entries.len(),
        entry_fault(entries[i], n).is_some(),
    ensures
        first_fault(entries, n, from).is_some(),
    decreases entries.len() - from,
{
    if from < i && entry_fault(entries[from as int], n).is_none() {
        lemma_fault_found(entries, n, from + 1, i);
    }
}

/// A block whose parameters are all arrays as long as its times is
/// reshaped into as many records as it has times.
pub proof fn lemma_sound_block_gives_one_record_per_time(
    values: ParamMap<serde_json::Value>,
    units: Map<Seq<char>, String>,
    timestamps: Seq<NaiveDateTime>,
)
    requires
        forall|i: int|
            0 <= i < values.entries().len() ==> entry_fault(
                #[trigger] values.entries()[i],
                timestamps.len(),
            ).is_none(),
    ensures
        series_outcome(values, units, timestamps) matches Ok(records) && records.len()
            == timestamps.len(),
        daily_outcome(values, units, timestamps) matches Ok(records) && records.len()
            == timestamps.len(),
{
    if first_fault(values.entries(), timestamps.len(), 0).is_some() {
        lemma_fault_place(values.entries(), timestamps.len(), 0);
    }
}

/// Where `first_fault` finds a fault, some entry at or behind `from` has it.
pub proof fn lemma_fault_place(entries: Seq<(Seq<char>, serde_json::Value)>, n: nat, from: nat)
    requires
        first_fault(entries, n, from).is_some(),
    ensures
        exists|i: int|
            from <= i < entries.len() && entry_fault(#[trigger] entries[i], n) == first_fault(
                entries,
                n,
                from,
            ),
    decreases entries.len() - from,
{
    if entry_fault(entries[from as int], n).is_none() {
        lemma_fault_place(entries, n, from + 1);
        let i = choose|i: int|
            from + 1 <= i < entries.len() && entry_fault(#[trigger] entries[i], n) == first_fault(
                entries,
                n,
                from + 1,
            );
        assert(from <= i < entries.len() && entry_fault(entries[i], n) == first_fault(
            entries,
            n,
            from,
        ));
    } else {
        assert(entry_fault(entries[from as int], n) == first_fault(entries, n, from));
    }
}

/// No record has a field named `time`, whatever the block holds.
pub proof fn lemma_records_have_no_time_field(
    values: Map<Seq<char>, serde_json::Value>,
    units: Map<Seq<char>, String>,
    optional_units: Option<ParamMap<String>>,
    i: int,
)
    ensures
        !series_fields(values, units, i).contains_key(time_key()),
        !instant_fields(values, optional_units).contains_key(time_key()),
        instant_outcome(values, optional_units) matches Ok(record) ==> !record.values.contains_key(
            time_key(),
        ),
{
}

/// A parameter for which the response names no unit still becomes a field
/// of every record, with its value and without a unit.
pub proof fn lemma_missing_unit_gives_field_without_unit(
    values: Map<Seq<char>, serde_json::Value>,
    units: Map<Seq<char>, String>,
    key: Seq<char>,
    i: int,
)
    requires
        values.contains_key(key),
        key != time_key(),
        !units.contains_key(key),
    ensures
        series_fields(values, units, i).contains_key(key),
        series_fields(values, units, i)[key].unit.is_none(),
        series_fields(values, units, i)[key].value == json_elements(values[key]).unwrap()[i],
        instant_fields(values, None).contains_key(key),
        instant_fields(values, None)[key].unit.is_none(),
        instant_fields(values, None)[key].value == values[key],
{
}

/// A missing unit alone makes no error: whether a block is refused does
/// not depend on the units.
pub proof fn lemma_units_never_fail_a_block(
    values: ParamMap<serde_json::Value>,
    units: Map<Seq<char>, String>,
    other_units: Map<Seq<char>, String>,
    timestamps: Seq<NaiveDateTime>,
)
    ensures
        series_outcome(values, units, timestamps).is_ok() == series_outcome(
            values,
            other_units,
            timestamps,
        ).is_ok(),
{
}

/// A section that the response does not hold is absent from the result.
pub proof fn lemma_absent_section_stays_absent(api_res: ApiForecastResponse)
    ensures
        forecast_outcome(api_res) matches Ok(result) ==> {
            &&& api_res.current.is_none() ==> result.current.is_none()
            &&& api_res.minutely_15.is_none() ==> result.minutely_15.is_none()
            &&& api_res.hourly.is_none() ==> result.hourly.is_none()
            &&& api_res.daily.is_none() ==> result.daily.is_none()
        },
{
}

/// A parameter whose array is not as long as the array of times makes the
/// reshaping of its block fail.
pub proof fn lemma_length_mismatch_fails_the_block(
    values: ParamMap<serde_json::Value>,
    units: Map<Seq<char>, String>,
    timestamps: Seq<NaiveDateTime>,
    key: Seq<char>,
)
    requires
        values.wf(),
        values@.contains_key(key),
        key != time_key(),
        json_elements(values@[key]) matches Some(elements) ==> elements.len() != timestamps.len(),
    ensures
        series_outcome(values, units, timestamps).is_err(),
        daily_outcome(values, units, timestamps).is_err(),
{
    let entries = values.entries();
    let i = crate::param_map::key_index(entries, key);
    assert(0 <= i < entries.len() && entries[i].0 == key);
    lemma_entry_in_map(entries, i);
    assert(entry_fault(entries[i], timestamps.len()).is_some());
    lemma_fault_found(entries, timestamps.len(), 0, i);
}

/// A parameter whose array is not as long as the array of times makes its
/// section fail, where the section has times and units: no records come
/// back for it.
pub proof fn lemma_length_mismatch_fails_the_section(
    values: ParamMap<serde_json::Value>,
    units: ParamMap<String>,
    utc_offset_seconds: int,
    key: Seq<char>,
)
    requires
        values.wf(),
        block_times(values@, utc_offset_seconds) matches Ok(Some(timestamps)) && (json_elements(
            values@[key],
        ) matches Some(elements) ==> elements.len() != timestamps.len()),
        values@.contains_key(key),
        key != time_key(),
    ensures
        section_outcome(Some(values), Some(units), utc_offset_seconds).is_err(),
{
    let timestamps = block_times(values@, utc_offset_seconds)->Ok_0->Some_0;
    lemma_length_mismatch_fails_the_block(values, units@, timestamps, key);
}

/// A section that fails makes the whole response fail: no result comes
/// back with the other sections.
pub proof fn lemma_failed_section_fails_the_response(api_res: ApiForecastResponse)
    requires
        current_outcome(api_res.current, api_res.current_units).is_err() || section_outcome(
            api_res.minutely_15,
            api_res.minutely_15_units,
            crate::forecast::reshape::offset_or_zero(api_res.utc_offset_seconds),
        ).is_err() || section_outcome(
            api_res.hourly,
            api_res.hourly_units,
            crate::forecast::reshape::offset_or_zero(api_res.utc_offset_seconds),
        ).is_err() || section_outcome(
            api_res.daily,
            api_res.daily_units,
            crate::forecast::reshape::offset_or_zero(api_res.utc_offset_seconds),
        ).is_err(),
    ensures
        forecast_outcome(api_res).is_err(),
{
}

/// Reshaping one response twice gives equal outcomes: two results that
/// `api_to_result` may return for a response have the same view.
pub proof fn lemma_reshaping_is_repeatable(
    api_res: ApiForecastResponse,
    first: Result<ForecastResult, DecodeError>,
    second: Result<ForecastResult, DecodeError>,
)
    requires
        forecast_outcome_view(first) == forecast_outcome(api_res),
        forecast_outcome_view(second) == forecast_outcome(api_res),
    ensures
        forecast_outcome_view(first) == forecast_outcome_view(second),
        first matches Ok(a) ==> second matches Ok(b) && a@ == b@,
        first matches Err(a) ==> second matches Err(b) && a@ == b@,
{
}

} // verus!
