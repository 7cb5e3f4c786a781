//! License resolution: the SPDX database lookup and the verified transform
//! from canonical license text to the body lines templates receive.

use vstd::prelude::*;

verus! {

use crate::error::GenError;
use crate::text::spec_lines;
use crate::text::lines_vec;
use crate::views::strs_view;
use crate::views::opt_view;

/// Whether the SPDX database knows the identifier.
pub uninterp spec fn license_known(id: Seq<char>) -> bool;

/// The canonical text of the license with this identifier.
pub uninterp spec fn license_text_of(id: Seq<char>) -> Seq<char>;

/// The standard header of the license with this identifier, if it has one.
pub uninterp spec fn license_header_of(id: Seq<char>) -> Option<Seq<char>>;

/// Relies on the `license` crate: `str::parse::<&dyn License>` goes through
/// a generated `parse_id` that matches the identifier against each SPDX id
/// by exact string equality, and the returned license's `text` and `header`
/// are compiled-in constants of that id alone.
#[verifier::external_body]
fn lookup_license(id: &str) -> (r: Option<(String, Option<String>)>)
    ensures
        r is Some <==> license_known(id@),
        match r {
            Some(p) => p.0@ == license_text_of(id@) && opt_view(p.1) == license_header_of(id@),
            None => true,
        },
{
    match id.parse::<&dyn license::License>() {
        Ok(l) => Some((l.text().to_owned(), l.header().map(|h| h.to_owned()))),
        Err(_) => None,
    }
}

/// Structured license text: the identifier, the standard header, and the
/// body lines derived from the canonical text.
#[derive(Debug)]
pub struct LicenseInfo {
    pub id: String,
    pub header: Option<String>,
    pub body: Vec<String>,
}

/// The mathematical content of a [`LicenseInfo`].
pub ghost struct LicenseInfoV {
    pub id: Seq<char>,
    pub header: Option<Seq<char>>,
    pub body: Seq<Seq<char>>,
}

impl View for LicenseInfo {
    type V = LicenseInfoV;

    open spec fn view(&self) -> LicenseInfoV {
        LicenseInfoV { id: self.id@, header: opt_view(self.header), body: strs_view(self.body@) }
    }
}

/// The body a license file's canonical text yields: its first two lines
/// (a blank separator and the license's self-identifying line) dropped,
/// then every remaining blank line discarded, order kept.
pub open spec fn spec_license_body(text: Seq<char>) -> Seq<Seq<char>> {
    spec_lines(text).skip(2).filter(|l: Seq<char>| l.len() > 0)
}

/// What resolving a license identifier yields: the structured license, or
/// the error owed for this identifier.
pub open spec fn spec_resolve_license(id: Seq<char>) -> Result<LicenseInfoV, GenError> {
    if !license_known(id) {
        Err(GenError::LicenseNotFound)
    } else if spec_lines(license_text_of(id)).len() < 2 {
        Err(GenError::ShortLicenseText)
    } else {
        Ok(
            LicenseInfoV {
                id: id,
                header: license_header_of(id),
                body: spec_license_body(license_text_of(id)),
            },
        )
    }
}

/// Resolves a license identifier to its structured form plus the canonical
/// raw text, as `spec_resolve_license` describes.
pub fn resolve_license(id: &str) -> (r: Result<(LicenseInfo, String), GenError>)
    ensures
        match r {
            Ok(p) => spec_resolve_license(id@) == Ok::<LicenseInfoV, GenError>(p.0@) && p.1@
                == license_text_of(id@),
            Err(e) => spec_resolve_license(id@) == Err::<LicenseInfoV, GenError>(e),
        },
{
    let looked = lookup_license(id);
    match looked {
        None => Err(GenError::LicenseNotFound),
        Some((text, header)) => {
            let lines = lines_vec(text.as_str());
            if lines.len() < 2 {
                return Err(GenError::ShortLicenseText);
            }
            let mut body: Vec<String> = Vec::new();
            let mut i: usize = 2;
            proof {
                assert(strs_view(body@) =~= strs_view(lines@).skip(2).subrange(0, 0).filter(
                    |l: Seq<char>| l.len() > 0,
                ));
            }
            while i < lines.len()
                invariant
                    2 <= i <= lines.len(),
                    strs_view(body@) == strs_view(lines@).skip(2).subrange(0, i - 2).filter(
                        |l: Seq<char>| l.len() > 0,
                    ),
                decreases lines.len() - i,
            {
                let ghost pre = strs_view(lines@).skip(2).subrange(0, i - 2);
                let ghost cur = strs_view(lines@)[i as int];
                if !lines[i].as_str().is_empty() {
                    body.push(lines[i].clone());
                }
                proof {
                    assert(strs_view(lines@).skip(2).subrange(0, i - 1) =~= pre.push(cur));
                    lemma_filter_push(pre, |l: Seq<char>| l.len() > 0, cur);
                    if cur.len() > 0 {
                        assert(strs_view(body@) =~= pre.filter(|l: Seq<char>| l.len() > 0).push(
                            cur,
                        ));
                    }
                }
                i += 1;
            }
            proof {
                assert(strs_view(lines@).skip(2).subrange(0, lines@.len() - 2) =~= strs_view(
                    lines@,
                ).skip(2));
            }
            let info = LicenseInfo { id: id.to_owned(), header, body };
            Ok((info, text))
        },
    }
}

/// Appending an element to a sequence extends its filtration by that element
/// exactly when the element passes the predicate.
pub proof fn lemma_filter_push<A>(s: Seq<A>, pred: spec_fn(A) -> bool, x: A)
    ensures
        s.push(x).filter(pred) == if pred(x) {
            s.filter(pred).push(x)
        } else {
            s.filter(pred)
        },
{
    reveal(Seq::filter);
    assert(s.push(x).drop_last() =~= s);
    assert(s.push(x).last() == x);
}

/// A sequence whose filtration is empty has no element passing the
/// predicate.
proof fn lemma_filter_empty_no_match<A>(s: Seq<A>, pred: spec_fn(A) -> bool)
    requires
        s.filter(pred).len() == 0,
    ensures
        forall|k: int| 0 <= k < s.len() ==> !pred(s[k]),
{
    assert forall|k: int| 0 <= k < s.len() implies !pred(s[k]) by {
        if pred(s[k]) {
            s.lemma_filter_contains(pred, k);
        }
    }
}

/// The first element of a filtration is the first element of the underlying
/// sequence that passes the predicate.
proof fn lemma_filter_first<A>(s: Seq<A>, pred: spec_fn(A) -> bool)
    requires
        s.filter(pred).len() > 0,
    ensures
        exists|j: int|
            0 <= j < s.len() && pred(#[trigger] s[j]) && (forall|k: int| 0 <= k < j ==> !pred(s[k]))
                && s.filter(pred)[0] == s[j],
    decreases s.len(),
{
    assert(s.len() > 0) by {
        if s.len() == 0 {
            reveal(Seq::filter);
        }
    }
    let d = s.drop_last();
    assert(s.filter(pred) == if pred(s.last()) {
        d.filter(pred).push(s.last())
    } else {
        d.filter(pred)
    }) by {
        reveal(Seq::filter);
    }
    if d.filter(pred).len() > 0 {
        lemma_filter_first(d, pred);
        let j = choose|j: int|
            0 <= j < d.len() && pred(#[trigger] d[j]) && (forall|k: int|
                0 <= k < j ==> !pred(d[k])) && d.filter(pred)[0] == d[j];
        assert(s[j] == d[j]);
        assert forall|k: int| 0 <= k < j implies !pred(s[k]) by {
            assert(s[k] == d[k]);
        }
        assert(s.filter(pred)[0] == d.filter(pred)[0]);
        assert(0 <= j < s.len() && pred(s[j]) && (forall|k: int| 0 <= k < j ==> !pred(s[k]))
            && s.filter(pred)[0] == s[j]);
    } else {
        assert(pred(s.last()));
        lemma_filter_empty_no_match(d, pred);
        let j = s.len() - 1;
        assert(s.last() == s[j]);
        assert(pred(s[j]));
        assert forall|k: int| 0 <= k < j implies !pred(s[k]) by {
            assert(s[k] == d[k]);
        }
        assert(s.filter(pred) == d.filter(pred).push(s.last()));
        assert(s.filter(pred)[0] == s[j]);
    }
}

/// The license body transform never keeps a blank line, and — when the body
/// is non-empty — its first line is the first non-blank line of the
/// canonical text after its first two lines.
pub proof fn lemma_license_body_shape(text: Seq<char>)
    ensures
        forall|i: int|
            0 <= i < spec_license_body(text).len() ==> #[trigger] spec_license_body(
                text,
            )[i].len() > 0,
        spec_license_body(text).len() > 0 ==> exists|j: int|
            0 <= j < spec_lines(text).skip(2).len() && (#[trigger] spec_lines(text).skip(2)[j]).len()
                > 0 && (forall|k: int| 0 <= k < j ==> spec_lines(text).skip(2)[k].len() == 0)
                && spec_license_body(text)[0] == spec_lines(text).skip(2)[j],
{
    let rest = spec_lines(text).skip(2);
    let pred = |l: Seq<char>| l.len() > 0;
    assert forall|i: int| 0 <= i < spec_license_body(text).len() implies #[trigger] spec_license_body(
        text,
    )[i].len() > 0 by {
        rest.lemma_filter_pred(pred, i);
    }
    if spec_license_body(text).len() > 0 {
        lemma_filter_first(rest, pred);
        let j = choose|j: int|
            0 <= j < rest.len() && pred(#[trigger] rest[j]) && (forall|k: int|
                0 <= k < j ==> !pred(rest[k])) && rest.filter(pred)[0] == rest[j];
        assert(0 <= j < rest.len() && (#[trigger] rest[j]).len() > 0 && (forall|k: int|
            0 <= k < j ==> rest[k].len() == 0) && spec_license_body(text)[0] == rest[j]);
    }
}

} // verus!
