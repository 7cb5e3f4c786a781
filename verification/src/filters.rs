//! The two text filters templates can apply: wrapping license text into a
//! comment block, and the hyphen-to-underscore identifier transform
//! (re-exported from [`crate::text`]).

use vstd::prelude::*;

verus! {

use crate::text::spec_joined;
use crate::views::strs_view;

/// The column width license comment blocks are wrapped to.
pub const WRAP_WIDTH: usize = 79;

/// What wrapping a text to `width` columns with every line prefixed by
/// `prefix` yields.
pub uninterp spec fn wrapped_of(text: Seq<char>, prefix: Seq<char>, width: int) -> Seq<Seq<char>>;

/// Whether every character is printable ASCII.
pub open spec fn printable_ascii(s: Seq<char>) -> bool {
    forall|i: int| 0 <= i < s.len() ==> 0x20 <= (#[trigger] s[i]) as u32 <= 0x7e
}

/// Whether every character is printable ASCII or a newline.
pub open spec fn printable_ascii_text(s: Seq<char>) -> bool {
    forall|i: int| 0 <= i < s.len() ==> (0x20 <= (#[trigger] s[i]) as u32 <= 0x7e || s[i] == '\n')
}

/// Relies on `textwrap::wrap` with the first-fit algorithm, `break_words`
/// on (the default), and `prefix` as both the initial and the subsequent
/// indent. The result is a function of the arguments alone. From the
/// crate's source: with a non-empty indent every produced line is either
/// empty or begins with the indent; and for printable-ASCII input (every
/// character one column wide) with an indent shorter than the width, words
/// are broken to the remaining width, so no line exceeds `width` characters.
#[verifier::external_body]
fn wrap_with_prefix(text: &str, prefix: &str, width: usize) -> (r: Vec<String>)
    ensures
        strs_view(r@) == wrapped_of(text@, prefix@, width as int),
        prefix@.len() > 0 ==> forall|i: int|
            0 <= i < r@.len() ==> ((#[trigger] r@[i])@.len() == 0 || prefix@.is_prefix_of(r@[i]@)),
        (0 < prefix@.len() < width && printable_ascii(prefix@) && printable_ascii_text(text@))
            ==> forall|i: int| 0 <= i < r@.len() ==> (#[trigger] r@[i])@.len() <= width,
{
    let opts = textwrap::Options::new(width)
        .wrap_algorithm(textwrap::WrapAlgorithm::FirstFit)
        .initial_indent(prefix)
        .subsequent_indent(prefix);
    textwrap::wrap(text, opts).into_iter().map(|l| l.into_owned()).collect()
}

/// The comment prefix a marker yields: the marker followed by one space.
pub open spec fn spec_comment_prefix(marker: Seq<char>) -> Seq<char> {
    marker + seq![' ']
}

/// The lines of a license comment block: `text` wrapped to
/// [`WRAP_WIDTH`] columns, every line prefixed with the marker and a space.
pub fn comment_license_lines(text: &str, marker: &str) -> (r: Vec<String>)
    ensures
        strs_view(r@) == wrapped_of(text@, spec_comment_prefix(marker@), WRAP_WIDTH as int),
        forall|i: int|
            0 <= i < r@.len() ==> ((#[trigger] r@[i])@.len() == 0 || spec_comment_prefix(
                marker@,
            ).is_prefix_of(r@[i]@)),
        (marker@.len() + 1 < WRAP_WIDTH && printable_ascii(marker@) && printable_ascii_text(text@))
            ==> forall|i: int| 0 <= i < r@.len() ==> (#[trigger] r@[i])@.len() <= WRAP_WIDTH,
{
    let mut prefix = marker.to_owned();
    proof {
        reveal_strlit(" ");
    }
    prefix.append(" ");
    proof {
        assert(prefix@ =~= spec_comment_prefix(marker@));
        assert(0x20 <= (' ' as u32) <= 0x7e);
        if marker@.len() + 1 < WRAP_WIDTH && printable_ascii(marker@) {
            assert forall|i: int| 0 <= i < prefix@.len() implies 0x20 <= (#[trigger] prefix@[i]) as u32
                <= 0x7e by {
                if i < marker@.len() {
                    assert(prefix@[i] == marker@[i]);
                } else {
                    assert(prefix@[i] == ' ');
                }
            }
        }
    }
    wrap_with_prefix(text, prefix.as_str(), WRAP_WIDTH)
}

/// What the `comment_license` filter yields: the wrapped, prefixed lines
/// joined with newlines.
pub open spec fn spec_comment_license(text: Seq<char>, marker: Seq<char>) -> Seq<char> {
    spec_joined(wrapped_of(text, spec_comment_prefix(marker), WRAP_WIDTH as int))
}

/// Word-wraps `text` to [`WRAP_WIDTH`] columns, prefixing every wrapped
/// line with the comment marker and one space; used to turn license text
/// into a comment block in any comment syntax.
pub fn comment_license(text: &str, marker: &str) -> (r: String)
    ensures
        r@ == spec_comment_license(text@, marker@),
{
    let lines = comment_license_lines(text, marker);
    crate::text::join_lines(&lines)
}

} // verus!
