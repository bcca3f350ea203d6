use vstd::prelude::*;
use crate::errors::AppError;
use crate::json::{json_data, list_of, obj_field, parse_value, parsed_json, value_as_array,
    value_get, JsonData};
use crate::model::{detail_from_value, detail_of_json, summary_from_value, summary_of_json,
    LicenseDetail, LicenseSummary};

verus! {

/// The elements of the registry's `licenses` array, if the document is an
/// object holding an array under that key.
pub open spec fn registry_list(j: JsonData) -> Option<Seq<JsonData>> {
    match obj_field(j, "licenses"@) {
        Some(f) => list_of(f),
        None => None,
    }
}

/// Whether a registry document body is well-formed: valid JSON whose top
/// level holds a `licenses` array.
pub open spec fn well_formed_registry(body: Seq<char>) -> bool {
    parsed_json(body) matches Some(j) && registry_list(j) is Some
}

/// Decodes the registry document into its list of summary records.
///
/// Succeeds exactly on a well-formed registry body, and then returns one
/// summary per element of the `licenses` array, in order. A body that is
/// not valid JSON fails as a failed request, as the transport reported it;
/// a valid document without a `licenses` array fails as malformed data.
pub fn parse_registry(body: &str) -> (r: Result<Vec<LicenseSummary>, AppError>)
    ensures
        r is Ok <==> well_formed_registry(body@),
        r matches Ok(sums) ==> ({
            &&& parsed_json(body@) matches Some(j)
            &&& registry_list(j) matches Some(items)
            &&& sums@.len() == items.len()
            &&& forall|i: int| 0 <= i < items.len() ==> summary_of_json(items[i], sums@[i])
        }),
        r matches Err(e) ==> ({
            &&& (e is RequestFailed <==> parsed_json(body@) is None)
            &&& (e is MalformedLicenseData <==> parsed_json(body@) is Some)
        }),
{
    let parsed = match parse_value(body) {
        Ok(v) => v,
        Err(e) => {
            return Err(AppError::RequestFailed(crate::json::error_message(&e)));
        },
    };
    let array = match value_get(&parsed, "licenses") {
        Some(f) => match value_as_array(f) {
            Some(a) => a,
            None => {
                return Err(AppError::MalformedLicenseData);
            },
        },
        None => {
            return Err(AppError::MalformedLicenseData);
        },
    };
    let ghost items = registry_list(json_data(parsed))->0;
    let mut sums: Vec<LicenseSummary> = Vec::new();
    let mut i: usize = 0;
    while i < array.len()
        invariant
            items == registry_list(json_data(parsed))->0,
            array@.len() == items.len(),
            forall|k: int| 0 <= k < items.len() ==> json_data(array@[k]) == items[k],
            i <= array.len(),
            sums@.len() == i,
            forall|k: int| 0 <= k < i ==> summary_of_json(items[k], sums@[k]),
        decreases array.len() - i,
    {
        sums.push(summary_from_value(&array[i]));
        i = i + 1;
    }
    Ok(sums)
}

/// How a sequence of summaries relates to the elements of a registry list:
/// one summary per element, in order.
pub open spec fn summaries_match(items: Seq<JsonData>, sums: Seq<LicenseSummary>) -> bool {
    &&& sums.len() == items.len()
    &&& forall|i: int| 0 <= i < items.len() ==> summary_of_json(items[i], sums[i])
}

/// Decodes a detail document into a detail record.
///
/// Succeeds exactly on a body that is valid JSON: the record is decoded
/// leniently, so any JSON value yields one, with `None` for every field the
/// value does not hold. A body that is not valid JSON fails as a failed
/// request, as the transport reported it.
pub fn parse_detail(body: &str) -> (r: Result<LicenseDetail, AppError>)
    ensures
        r is Ok <==> parsed_json(body@) is Some,
        r matches Ok(d) ==> parsed_json(body@) matches Some(j) && detail_of_json(j, d),
        r matches Err(e) ==> e is RequestFailed,
{
    match parse_value(body) {
        Ok(v) => Ok(detail_from_value(&v)),
        Err(e) => Err(AppError::RequestFailed(crate::json::error_message(&e))),
    }
}

} // verus!
