use vstd::prelude::*;
use crate::json::{
    json_data, obj_bool_field, obj_field, obj_str_field, str_of, list_of, value_as_array,
    value_as_bool, value_as_str, value_get, JsonData,
};
use vstd::string::StringExecFns;

verus! {

/// One entry of the registry list. Every field is optional because the
/// registry document is decoded leniently: a missing or mistyped field
/// becomes `None`, never an error.
#[derive(Debug, Clone)]
pub struct LicenseSummary {
    pub license_id: Option<String>,
    pub name: Option<String>,
    pub details_url: Option<String>,
    pub is_osi_approved: Option<bool>,
    pub is_deprecated: Option<bool>,
}

/// The full record fetched for one chosen license. Decoded as leniently as
/// the summary; `see_also` is `None` where the document holds no array
/// under `seeAlso`.
#[derive(Debug, Clone)]
pub struct LicenseDetail {
    pub name: Option<String>,
    pub license_id: Option<String>,
    pub is_osi_approved: Option<bool>,
    pub is_deprecated: Option<bool>,
    pub see_also: Option<Vec<String>>,
    pub license_text: Option<String>,
}

/// The characters of an optional string, where present.
pub open spec fn opt_view(o: Option<String>) -> Option<Seq<char>> {
    match o {
        Some(s) => Some(s@),
        None => None,
    }
}

/// How a summary record relates to the JSON value it was decoded from:
/// each field holds exactly the like-named string or boolean field of the
/// object, and is `None` where that field is absent or of another type.
pub open spec fn summary_of_json(j: JsonData, s: LicenseSummary) -> bool {
    &&& opt_view(s.license_id) == obj_str_field(j, "licenseId"@)
    &&& opt_view(s.name) == obj_str_field(j, "name"@)
    &&& opt_view(s.details_url) == obj_str_field(j, "detailsUrl"@)
    &&& s.is_osi_approved == obj_bool_field(j, "isOsiApproved"@)
    &&& s.is_deprecated == obj_bool_field(j, "isDeprecatedLicenseId"@)
}

/// The characters shown for one entry of a `seeAlso` array: the string
/// itself, or a placeholder where the entry is not a string.
pub open spec fn url_text(j: JsonData) -> Seq<char> {
    match str_of(j) {
        Some(s) => s,
        None => "N/A"@,
    }
}

/// How the decoded `see_also` list relates to the JSON value: present
/// exactly where the object holds an array under `seeAlso`, with one entry
/// per element.
pub open spec fn see_also_of_json(j: JsonData, sa: Option<Vec<String>>) -> bool {
    match obj_field(j, "seeAlso"@) {
        Some(f) => match list_of(f) {
            Some(items) => {
                &&& sa matches Some(urls)
                &&& urls@.len() == items.len()
                &&& forall|i: int| 0 <= i < items.len() ==> urls@[i]@ == url_text(items[i])
            },
            None => sa is None,
        },
        None => sa is None,
    }
}

/// How a detail record relates to the JSON value it was decoded from.
pub open spec fn detail_of_json(j: JsonData, d: LicenseDetail) -> bool {
    &&& opt_view(d.name) == obj_str_field(j, "name"@)
    &&& opt_view(d.license_id) == obj_str_field(j, "licenseId"@)
    &&& d.is_osi_approved == obj_bool_field(j, "isOsiApproved"@)
    &&& d.is_deprecated == obj_bool_field(j, "isDeprecatedLicenseId"@)
    &&& see_also_of_json(j, d.see_also)
    &&& opt_view(d.license_text) == obj_str_field(j, "licenseText"@)
}

/// The string field of a JSON object under the given key, as an owned
/// value; `None` where it is absent or not a string.
fn get_str_field(v: &serde_json::Value, key: &str) -> (r: Option<String>)
    ensures
        opt_view(r) == obj_str_field(json_data(*v), key@),
{
    match value_get(v, key) {
        Some(f) => match value_as_str(f) {
            Some(s) => Some(s.to_owned()),
            None => None,
        },
        None => None,
    }
}

/// The boolean field of a JSON object under the given key; `None` where it
/// is absent or not a boolean.
fn get_bool_field(v: &serde_json::Value, key: &str) -> (r: Option<bool>)
    ensures
        r == obj_bool_field(json_data(*v), key@),
{
    match value_get(v, key) {
        Some(f) => value_as_bool(f),
        None => None,
    }
}

/// The `seeAlso` list of a JSON object, decoded entry by entry; `None`
/// where the object holds no array there.
fn get_see_also(v: &serde_json::Value) -> (r: Option<Vec<String>>)
    ensures
        see_also_of_json(json_data(*v), r),
{
    match value_get(v, "seeAlso") {
        Some(f) => match value_as_array(f) {
            Some(a) => {
                let mut urls: Vec<String> = Vec::new();
                let ghost items = list_of(json_data(*f))->0;
                let mut i: usize = 0;
                while i < a.len()
                    invariant
                        items == list_of(json_data(*f))->0,
                        a@.len() == items.len(),
                        forall|k: int| 0 <= k < items.len() ==> json_data(a@[k]) == items[k],
                        i <= a.len(),
                        urls@.len() == i,
                        forall|k: int| 0 <= k < i ==> urls@[k]@ == url_text(items[k]),
                    decreases a.len() - i,
                {
                    let entry = match value_as_str(&a[i]) {
                        Some(s) => s.to_owned(),
                        None => String::from_str("N/A"),
                    };
                    urls.push(entry);
                    i = i + 1;
                }
                Some(urls)
            },
            None => None,
        },
        None => None,
    }
}

/// Decodes one registry entry into a summary record.
pub fn summary_from_value(v: &serde_json::Value) -> (s: LicenseSummary)
    ensures
        summary_of_json(json_data(*v), s),
{
    LicenseSummary {
        license_id: get_str_field(v, "licenseId"),
        name: get_str_field(v, "name"),
        details_url: get_str_field(v, "detailsUrl"),
        is_osi_approved: get_bool_field(v, "isOsiApproved"),
        is_deprecated: get_bool_field(v, "isDeprecatedLicenseId"),
    }
}

/// Decodes a detail document into a detail record. Any JSON value is
/// accepted; fields it does not hold come out as `None`.
pub fn detail_from_value(v: &serde_json::Value) -> (d: LicenseDetail)
    ensures
        detail_of_json(json_data(*v), d),
{
    LicenseDetail {
        name: get_str_field(v, "name"),
        license_id: get_str_field(v, "licenseId"),
        is_osi_approved: get_bool_field(v, "isOsiApproved"),
        is_deprecated: get_bool_field(v, "isDeprecatedLicenseId"),
        see_also: get_see_also(v),
        license_text: get_str_field(v, "licenseText"),
    }
}

} // verus!
