use vstd::prelude::*;
use crate::errors::AppError;
use crate::model::{opt_view, LicenseSummary};
use vstd::string::StringExecFns;

verus! {

/// Relies on `str`'s `PartialEq`: two string slices are equal exactly when
/// their characters are equal.
#[verifier::external_body]
fn str_eq(a: &str, b: &str) -> (r: bool)
    ensures
        r == (a@ == b@),
{
    a == b
}

/// Whether a summary carries exactly the given identifier. A summary
/// without an identifier matches nothing.
pub open spec fn id_matches(s: LicenseSummary, id: Seq<char>) -> bool {
    opt_view(s.license_id) == Some(id)
}

/// Whether no summary of the sequence carries the identifier.
pub open spec fn no_id_match(sums: Seq<LicenseSummary>, id: Seq<char>) -> bool {
    forall|i: int| 0 <= i < sums.len() ==> !id_matches(sums[i], id)
}

/// Picks the license for an identifier given on the command line: a linear
/// scan for an exact, case-sensitive match on `licenseId`; the first match
/// wins. Fails with a not-found error exactly where no summary matches.
pub fn select_by_id(summaries: &Vec<LicenseSummary>, id: &str) -> (r: Result<usize, AppError>)
    ensures
        r matches Ok(i) ==> ({
            &&& i < summaries@.len()
            &&& id_matches(summaries@[i as int], id@)
            &&& forall|j: int| 0 <= j < i ==> !id_matches(summaries@[j], id@)
        }),
        r matches Err(e) ==> ({
            &&& e matches AppError::LicenseNotFound(missing) && missing@ == id@
            &&& no_id_match(summaries@, id@)
        }),
        r is Ok <==> !no_id_match(summaries@, id@),
{
    let mut i: usize = 0;
    while i < summaries.len()
        invariant
            i <= summaries@.len(),
            forall|j: int| 0 <= j < i ==> !id_matches(summaries@[j], id@),
        decreases summaries@.len() - i,
    {
        let matched = match &summaries[i].license_id {
            Some(lid) => str_eq(lid.as_str(), id),
            None => false,
        };
        if matched {
            return Ok(i);
        }
        i = i + 1;
    }
    Err(AppError::LicenseNotFound(id.to_owned()))
}

/// The characters shown for an optional field whose value may be missing
/// from the registry document.
pub open spec fn label_part(o: Option<Seq<char>>) -> Seq<char> {
    match o {
        Some(s) => s,
        None => "Malformed license"@,
    }
}

/// The label under which one summary is offered for interactive selection.
pub open spec fn spec_label(s: LicenseSummary) -> Seq<char> {
    label_part(opt_view(s.license_id)) + " - "@ + label_part(opt_view(s.name))
}

/// The label of one summary: `"{licenseId} - {name}"`, with a placeholder
/// for a missing field.
pub fn label_of(s: &LicenseSummary) -> (r: String)
    ensures
        r@ == spec_label(*s),
{
    let mut out: String = match &s.license_id {
        Some(lid) => lid.as_str().to_owned(),
        None => String::from_str("Malformed license"),
    };
    out.append(" - ");
    match &s.name {
        Some(n) => out.append(n.as_str()),
        None => out.append("Malformed license"),
    }
    out
}

/// The labels of all summaries, in registry order, as handed to the
/// interactive chooser.
pub fn labels_of(summaries: &Vec<LicenseSummary>) -> (r: Vec<String>)
    ensures
        r@.len() == summaries@.len(),
        forall|i: int| 0 <= i < summaries@.len() ==> r@[i]@ == spec_label(summaries@[i]),
{
    let mut out: Vec<String> = Vec::new();
    let mut i: usize = 0;
    while i < summaries.len()
        invariant
            i <= summaries@.len(),
            out@.len() == i,
            forall|k: int| 0 <= k < i ==> out@[k]@ == spec_label(summaries@[k]),
        decreases summaries@.len() - i,
    {
        out.push(label_of(&summaries[i]));
        i = i + 1;
    }
    out
}

} // verus!
