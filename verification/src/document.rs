//! Content rules of the quote document: which terms it lists, the fixed
//! texts it carries and the name of the file it is written to.
use vstd::prelude::*;
use vstd::string::*;
use crate::text::{blank, chars_of, is_blank};

verus! {

broadcast use vstd::string::group_string_axioms;

/// Static rate-basis legend block of the quote document.
pub const RATE_BASIS_LEGEND_HTML: &'static str = "<div class=\"rate-basis-legend-block\"><h3>Rental Rate Basis</h3><ul><li>Daily rate: For continuous rental period of less than 6 days</li><li>Weekly rate: For continuous rental period of 7 to 25 days</li><li>Monthly rate: For continuous rental period of 26 days or more</li></ul></div>";

/// The terms a quote document lists: the bodies of the compliance terms
/// attached to the quote, in selection order; when none are attached, the
/// quote's legacy terms text as a single line if it is not blank; else none.
pub fn document_terms(attached_bodies: Vec<String>, legacy_terms: Option<String>) -> (terms: Vec<String>)
    ensures
        attached_bodies@.len() > 0 ==> terms@ == attached_bodies@,
        attached_bodies@.len() == 0 ==> match legacy_terms {
            Some(t) if !blank(t@) => terms@ == seq![t],
            _ => terms@.len() == 0,
        },
{
    if attached_bodies.len() > 0 {
        return attached_bodies;
    }
    let mut terms: Vec<String> = Vec::new();
    match legacy_terms {
        Some(t) => {
            if !is_blank(t.as_str()) {
                terms.push(t);
            }
        },
        None => {},
    }
    terms
}

/// The quote-level rate basis text a document shows: the stored one, else
/// `"Monthly"`.
pub fn rate_basis_text_or_default(rate_basis_text: Option<String>) -> (t: String)
    ensures
        t@ == match rate_basis_text {
            Some(v) => v@,
            None => "Monthly"@,
        },
{
    match rate_basis_text {
        Some(v) => v,
        None => String::from_str("Monthly"),
    }
}

/// `text` with every `/` and `\` replaced by `_`.
pub open spec fn path_safe(text: Seq<char>) -> Seq<char> {
    text.map_values(|c: char| if c == '/' || c == '\\' { '_' } else { c })
}

/// The name of the file a quote's PDF is written to.
pub open spec fn quote_pdf_name(offer_ref: Seq<char>, rev_suffix: Seq<char>) -> Seq<char> {
    path_safe(offer_ref) + seq!['_'] + path_safe(rev_suffix) + "_quote.pdf"@
}

/// Appends `text` to `out` with `/` and `\` replaced by `_`.
fn push_path_safe(out: &mut String, text: &str)
    ensures
        final(out)@ == old(out)@ + path_safe(text@),
{
    let cs = chars_of(text);
    let n = cs.len();
    let mut start: usize = 0;
    let mut i: usize = 0;
    while i < n
        invariant
            cs@ == text@,
            n == cs.len(),
            start <= i <= n,
            out@ == old(out)@ + path_safe(text@.subrange(0, start as int)),
            forall|j: int| start <= j < i ==> text@[j] != '/' && text@[j] != '\\',
        decreases n - i,
    {
        let c = cs[i];
        if c == '/' || c == '\\' {
            let segment = text.substring_char(start, i);
            let ghost before = out@;
            out.append(segment);
            out.append("_");
            proof {
                let t = text@;
                assert(path_safe(t.subrange(0, i + 1)) =~= path_safe(t.subrange(0, start as int)) + t.subrange(
                    start as int,
                    i as int,
                ) + seq!['_']);
                reveal_strlit("_");
                assert("_"@ =~= seq!['_']);
                assert(out@ =~= before + t.subrange(start as int, i as int) + seq!['_']);
                assert(out@ =~= old(out)@ + path_safe(t.subrange(0, i + 1)));
            }
            start = i + 1;
        }
        i = i + 1;
    }
    let segment = text.substring_char(start, n);
    out.append(segment);
    proof {
        let t = text@;
        assert(path_safe(t.subrange(0, n as int)) =~= path_safe(t.subrange(0, start as int)) + t.subrange(
            start as int,
            n as int,
        ));
        assert(t.subrange(0, n as int) =~= t);
    }
}

/// The name of the file a quote's PDF is written to:
/// `{offer_ref}_{rev_suffix}_quote.pdf`, with every `/` and `\` in the two
/// parts replaced by `_` so that the name stays one path component.
pub fn quote_pdf_file_name(offer_ref: &str, rev_suffix: &str) -> (name: String)
    ensures
        name@ == quote_pdf_name(offer_ref@, rev_suffix@),
{
    proof {
        reveal_strlit("_");
        reveal_strlit("_quote.pdf");
    }
    let mut name = String::new();
    push_path_safe(&mut name, offer_ref);
    name.append("_");
    push_path_safe(&mut name, rev_suffix);
    name.append("_quote.pdf");
    name
}

/// A quote's PDF file name never contains a path separator.
pub proof fn lemma_pdf_name_is_one_component(offer_ref: Seq<char>, rev_suffix: Seq<char>)
    ensures
        forall|i: int| 0 <= i < quote_pdf_name(offer_ref, rev_suffix).len()
            ==> #[trigger] quote_pdf_name(offer_ref, rev_suffix)[i] != '/'
                && quote_pdf_name(offer_ref, rev_suffix)[i] != '\\',
{
    reveal_strlit("_quote.pdf");
    let name = quote_pdf_name(offer_ref, rev_suffix);
    let a = path_safe(offer_ref);
    let b = path_safe(rev_suffix);
    let tail = "_quote.pdf"@;
    assert forall|i: int| 0 <= i < name.len() implies #[trigger] name[i] != '/' && name[i] != '\\' by {
        if i < a.len() {
            assert(name[i] == a[i]);
        } else if i == a.len() {
            assert(name[i] == '_');
        } else if i < a.len() + 1 + b.len() {
            assert(name[i] == b[i - a.len() - 1]);
        } else {
            assert(name[i] == tail[i - a.len() - 1 - b.len()]);
        }
    }
}

} // verus!
