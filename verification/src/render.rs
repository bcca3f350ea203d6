use vstd::prelude::*;
use crate::model::{opt_view, LicenseDetail};
use vstd::string::{StrSliceExecFns, StringExecFns};

verus! {

/// At most the first `n` characters of a text: the whole text where it is
/// no longer than `n`, else exactly its first `n` characters.
pub open spec fn preview_chars(t: Seq<char>, n: int) -> Seq<char> {
    if t.len() <= n {
        t
    } else {
        t.subrange(0, n)
    }
}

/// The word shown for a flag.
pub open spec fn yes_no(b: bool) -> Seq<char> {
    if b {
        "Yes"@
    } else {
        "No"@
    }
}

/// The characters shown for an optional field: the field, or a placeholder.
pub open spec fn na(o: Option<Seq<char>>) -> Seq<char> {
    match o {
        Some(s) => s,
        None => "N/A"@,
    }
}

/// The OSI-approval flag as shown: a missing field counts as not approved.
pub open spec fn osi_flag(d: LicenseDetail) -> bool {
    match d.is_osi_approved {
        Some(b) => b,
        None => false,
    }
}

/// The heading and the name, identifier and OSI lines of the rendering.
pub open spec fn head_block(d: LicenseDetail) -> Seq<char> {
    "License Preview:\n----------------\nName: "@ + na(opt_view(d.name))
        + "\nSPDX ID: "@ + na(opt_view(d.license_id)) + "\nIs OSI Approved: "@
        + yes_no(osi_flag(d)) + "\n"@
}

/// The deprecation line: present exactly where the document carried the
/// flag.
pub open spec fn dep_block(d: LicenseDetail) -> Seq<char> {
    match d.is_deprecated {
        Some(b) => "Deprecated: "@ + yes_no(b) + "\n"@,
        None => Seq::<char>::empty(),
    }
}

/// The first `n` related-link lines, one per entry, in order.
pub open spec fn url_block(urls: Seq<String>, n: int) -> Seq<char>
    decreases n,
{
    if n <= 0 {
        Seq::<char>::empty()
    } else {
        url_block(urls, n - 1) + "  - "@ + urls[n - 1]@ + "\n"@
    }
}

/// The related-links section: present exactly where the document carried a
/// `seeAlso` array.
pub open spec fn see_block(d: LicenseDetail) -> Seq<char> {
    match d.see_also {
        Some(urls) => "See Also:\n"@ + url_block(urls@, urls@.len() as int),
        None => Seq::<char>::empty(),
    }
}

/// The license-text section: the whole text in full-text mode, at most its
/// first 200 characters and a truncation marker otherwise, and a notice
/// where the document carries no text.
pub open spec fn text_block(t: Option<Seq<char>>, full_text: bool) -> Seq<char> {
    match t {
        Some(text) => if full_text {
            "\nFull License Text\n"@ + text + "\n"@
        } else {
            "\nLicense Text Preview (first 200 chars)\n"@ + preview_chars(text, 200) + "\n...\n"@
        },
        None => "License text not available\n"@,
    }
}

/// The whole rendering of a detail record, as printed to the terminal.
pub open spec fn spec_render(d: LicenseDetail, full_text: bool) -> Seq<char> {
    head_block(d) + dep_block(d) + see_block(d) + text_block(opt_view(d.license_text), full_text)
}

fn yes_no_str(b: bool) -> (r: &'static str)
    ensures
        r@ == yes_no(b),
{
    if b {
        "Yes"
    } else {
        "No"
    }
}

/// At most the first `n` characters of a text.
pub fn take_chars(s: &str, n: usize) -> (r: String)
    ensures
        r@ == preview_chars(s@, n as int),
{
    let len = s.unicode_len();
    if len <= n {
        s.to_owned()
    } else {
        s.substring_char(0, n).to_owned()
    }
}

fn head_str(d: &LicenseDetail) -> (r: String)
    ensures
        r@ == head_block(*d),
{
    let mut out = String::from_str("License Preview:\n----------------\nName: ");
    match &d.name {
        Some(n) => out.append(n.as_str()),
        None => out.append("N/A"),
    }
    out.append("\nSPDX ID: ");
    match &d.license_id {
        Some(lid) => out.append(lid.as_str()),
        None => out.append("N/A"),
    }
    out.append("\nIs OSI Approved: ");
    let osi = match d.is_osi_approved {
        Some(b) => b,
        None => false,
    };
    out.append(yes_no_str(osi));
    out.append("\n");
    proof {
        assert(out@ =~= head_block(*d));
    }
    out
}

fn dep_str(d: &LicenseDetail) -> (r: String)
    ensures
        r@ == dep_block(*d),
{
    match d.is_deprecated {
        Some(b) => {
            let mut out = String::from_str("Deprecated: ");
            out.append(yes_no_str(b));
            out.append("\n");
            proof {
                assert(out@ =~= dep_block(*d));
            }
            out
        },
        None => String::new(),
    }
}

fn see_str(d: &LicenseDetail) -> (r: String)
    ensures
        r@ == see_block(*d),
{
    match &d.see_also {
        Some(urls) => {
            let mut out = String::from_str("See Also:\n");
            let mut i: usize = 0;
            while i < urls.len()
                invariant
                    i <= urls@.len(),
                    out@ == "See Also:\n"@ + url_block(urls@, i as int),
                decreases urls@.len() - i,
            {
                out.append("  - ");
                out.append(urls[i].as_str());
                out.append("\n");
                proof {
                    assert(out@ =~= "See Also:\n"@ + url_block(urls@, i + 1 as int));
                }
                i = i + 1;
            }
            out
        },
        None => String::new(),
    }
}

fn text_str(d: &LicenseDetail, full_text: bool) -> (r: String)
    ensures
        r@ == text_block(opt_view(d.license_text), full_text),
{
    match &d.license_text {
        Some(t) => {
            if full_text {
                let mut out = String::from_str("\nFull License Text\n");
                out.append(t.as_str());
                out.append("\n");
                out
            } else {
                let mut out = String::from_str("\nLicense Text Preview (first 200 chars)\n");
                let p = take_chars(t.as_str(), 200);
                out.append(p.as_str());
                out.append("\n...\n");
                out
            }
        },
        None => String::from_str("License text not available\n"),
    }
}

/// Renders a detail record for the terminal: a pure function of the record
/// and the full-text flag. In full-text mode the whole `licenseText` is
/// part of the rendering; otherwise at most its first 200 characters are,
/// followed by a truncation marker.
pub fn render_detail(d: &LicenseDetail, full_text: bool) -> (r: String)
    ensures
        r@ == spec_render(*d, full_text),
{
    head_str(d).concat(dep_str(d).as_str()).concat(see_str(d).as_str()).concat(
        text_str(d, full_text).as_str(),
    )
}

/// Law: in full-text mode the rendering carries the entire license text,
/// unchanged, between a fixed heading and a final newline.
pub proof fn lemma_full_text_shows_all(d: LicenseDetail, t: Seq<char>)
    requires
        opt_view(d.license_text) == Some(t),
    ensures
        spec_render(d, true) == head_block(d) + dep_block(d) + see_block(d)
            + "\nFull License Text\n"@ + t + "\n"@,
{
    assert(spec_render(d, true) =~= head_block(d) + dep_block(d) + see_block(d)
        + "\nFull License Text\n"@ + t + "\n"@);
}

/// Law: in preview mode the rendering carries at most the first 200
/// characters of the license text, followed by the truncation marker; a
/// text of no more than 200 characters is carried whole, so nothing of it
/// is lost.
pub proof fn lemma_preview_truncates(d: LicenseDetail, t: Seq<char>)
    requires
        opt_view(d.license_text) == Some(t),
    ensures
        spec_render(d, false) == head_block(d) + dep_block(d) + see_block(d)
            + "\nLicense Text Preview (first 200 chars)\n"@ + preview_chars(t, 200) + "\n...\n"@,
        preview_chars(t, 200).len() <= 200,
        t.len() <= 200 ==> preview_chars(t, 200) == t,
        t.len() > 200 ==> preview_chars(t, 200) == t.subrange(0, 200),
{
    assert(spec_render(d, false) =~= head_block(d) + dep_block(d) + see_block(d)
        + "\nLicense Text Preview (first 200 chars)\n"@ + preview_chars(t, 200) + "\n...\n"@);
}

/// Law: where the document carries no license text, the rendering ends in
/// the "not available" notice, in either mode.
pub proof fn lemma_missing_text_notice(d: LicenseDetail, full_text: bool)
    requires
        d.license_text is None,
    ensures
        spec_render(d, full_text) == head_block(d) + dep_block(d) + see_block(d)
            + "License text not available\n"@,
{
}

} // verus!
