//! Verified text primitives: line splitting, joining, and the
//! hyphen-to-underscore identifier transform.

use vstd::prelude::*;

verus! {

use crate::views::strs_view;

/// Relies on `String::push`: appends exactly one character.
#[verifier::external_body]
pub(crate) fn push_char(s: &mut String, c: char)
    ensures
        final(s)@ == old(s)@.push(c),
{
    s.push(c);
}

/// `s` with every `-` replaced by `_`.
pub open spec fn spec_underscored(s: Seq<char>) -> Seq<char> {
    s.map_values(|c: char| if c == '-' { '_' } else { c })
}

/// Replaces every hyphen with an underscore, turning a path-derived project
/// name into a valid identifier for generated source and module names.
pub fn hypens_to_underscores(s: &str) -> (r: String)
    ensures
        r@ == spec_underscored(s@),
{
    let n = s.unicode_len();
    let mut r = String::new();
    let mut i: usize = 0;
    while i < n
        invariant
            i <= n,
            n == s@.len(),
            r@ == spec_underscored(s@.subrange(0, i as int)),
        decreases n - i,
    {
        let c = s.get_char(i);
        if c == '-' {
            push_char(&mut r, '_');
        } else {
            push_char(&mut r, c);
        }
        proof {
            assert(spec_underscored(s@.subrange(0, i + 1 as int)) =~= spec_underscored(
                s@.subrange(0, i as int),
            ).push(if s@[i as int] == '-' {
                '_'
            } else {
                s@[i as int]
            }));
        }
        i += 1;
    }
    proof {
        assert(s@.subrange(0, n as int) =~= s@);
    }
    r
}

/// The index of the first newline in `s`, or `s.len()` if it has none.
pub open spec fn find_newline(s: Seq<char>) -> int
    decreases s.len(),
{
    if s.len() == 0 {
        0
    } else if s[0] == '\n' {
        0
    } else {
        1 + find_newline(s.drop_first())
    }
}

pub proof fn lemma_find_newline(s: Seq<char>)
    ensures
        0 <= find_newline(s) <= s.len(),
        forall|j: int| 0 <= j < find_newline(s) ==> s[j] != '\n',
        find_newline(s) < s.len() ==> s[find_newline(s)] == '\n',
    decreases s.len(),
{
    if s.len() > 0 && s[0] != '\n' {
        lemma_find_newline(s.drop_first());
        assert forall|j: int| 0 <= j < find_newline(s) implies s[j] != '\n' by {
            if j > 0 {
                assert(s.drop_first()[j - 1] == s[j]);
            }
        }
    }
}

/// A scan that found no newline before `i`, and one at `i` unless `i` is the
/// end, pins down `find_newline`.
pub proof fn lemma_find_newline_at(s: Seq<char>, i: int)
    requires
        0 <= i <= s.len(),
        forall|j: int| 0 <= j < i ==> s[j] != '\n',
        i < s.len() ==> s[i] == '\n',
    ensures
        find_newline(s) == i,
    decreases s.len(),
{
    lemma_find_newline(s);
    if s.len() > 0 && s[0] != '\n' {
        lemma_find_newline_at(s.drop_first(), i - 1);
    }
}

/// A line with a trailing carriage return dropped.
pub open spec fn strip_cr(l: Seq<char>) -> Seq<char> {
    if l.len() > 0 && l.last() == '\r' {
        l.drop_last()
    } else {
        l
    }
}

/// The lines of `s`, as `str::lines` yields them: split at `\n`, one
/// carriage return before each split dropped, no trailing empty line.
pub open spec fn spec_lines(s: Seq<char>) -> Seq<Seq<char>>
    decreases s.len(),
    via spec_lines_decreases
{
    if s.len() == 0 {
        Seq::empty()
    } else if find_newline(s) == s.len() {
        seq![s]
    } else {
        seq![strip_cr(s.subrange(0, find_newline(s)))] + spec_lines(
            s.subrange(find_newline(s) + 1, s.len() as int),
        )
    }
}

#[via_fn]
proof fn spec_lines_decreases(s: Seq<char>) {
    lemma_find_newline(s);
}

/// Splits into lines exactly as `spec_lines` describes.
pub fn lines_vec(s: &str) -> (r: Vec<String>)
    ensures
        strs_view(r@) == spec_lines(s@),
    decreases s@.len(),
{
    let n = s.unicode_len();
    if n == 0 {
        let r: Vec<String> = Vec::new();
        proof {
            assert(strs_view(r@) =~= spec_lines(s@));
        }
        return r;
    }
    let mut i: usize = 0;
    while i < n && s.get_char(i) != '\n'
        invariant
            i <= n,
            n == s@.len(),
            forall|j: int| 0 <= j < i ==> s@[j] != '\n',
        decreases n - i,
    {
        i += 1;
    }
    proof {
        lemma_find_newline_at(s@, i as int);
    }
    if i == n {
        let mut r: Vec<String> = Vec::new();
        r.push(s.to_owned());
        proof {
            assert(strs_view(r@) =~= spec_lines(s@));
        }
        r
    } else {
        let head = if i > 0 && s.get_char(i - 1) == '\r' {
            s.substring_char(0, i - 1)
        } else {
            s.substring_char(0, i)
        };
        proof {
            assert(s@.subrange(0, i as int).len() == i as int);
            if i > 0 && s@[i as int - 1] == '\r' {
                assert(s@.subrange(0, i as int).last() == s@[i as int - 1]);
                assert(s@.subrange(0, i as int).drop_last() =~= s@.subrange(0, i as int - 1));
            }
            assert(head@ == strip_cr(s@.subrange(0, i as int)));
        }
        let tail = s.substring_char(i + 1, n);
        let mut rest = lines_vec(tail);
        let mut r: Vec<String> = Vec::new();
        r.push(head.to_owned());
        r.append(&mut rest);
        proof {
            assert(strs_view(r@) =~= spec_lines(s@));
        }
        r
    }
}

/// The lines joined with single newlines; no trailing newline.
pub open spec fn spec_joined(lines: Seq<Seq<char>>) -> Seq<char>
    decreases lines.len(),
{
    if lines.len() == 0 {
        Seq::empty()
    } else if lines.len() == 1 {
        lines[0]
    } else {
        lines[0] + seq!['\n'] + spec_joined(lines.drop_first())
    }
}

proof fn lemma_joined_push(lines: Seq<Seq<char>>, l: Seq<char>)
    ensures
        spec_joined(lines.push(l)) == if lines.len() == 0 {
            l
        } else {
            spec_joined(lines) + seq!['\n'] + l
        },
    decreases lines.len(),
{
    let p = lines.push(l);
    if lines.len() == 0 {
        assert(p.len() == 1);
        assert(p[0] == l);
    } else {
        assert(p.len() >= 2);
        assert(p[0] == lines[0]);
        lemma_joined_push(lines.drop_first(), l);
        assert(p.drop_first() =~= lines.drop_first().push(l));
        if lines.len() == 1 {
            assert(spec_joined(p) == p[0] + seq!['\n'] + spec_joined(p.drop_first()));
            assert(spec_joined(p.drop_first()) == l);
        } else {
            assert(spec_joined(p) == lines[0] + seq!['\n'] + (spec_joined(lines.drop_first())
                + seq!['\n'] + l));
            assert(spec_joined(lines) + seq!['\n'] + l == (lines[0] + seq!['\n'] + spec_joined(
                lines.drop_first(),
            )) + seq!['\n'] + l);
            assert(lines[0] + seq!['\n'] + (spec_joined(lines.drop_first()) + seq!['\n'] + l) =~= (
            lines[0] + seq!['\n'] + spec_joined(lines.drop_first())) + seq!['\n'] + l);
        }
    }
}

/// Joins lines with single newlines, as `spec_joined` describes.
pub fn join_lines(v: &Vec<String>) -> (r: String)
    ensures
        r@ == spec_joined(strs_view(v@)),
{
    let mut r = String::new();
    let mut i: usize = 0;
    while i < v.len()
        invariant
            i <= v.len(),
            r@ == spec_joined(strs_view(v@).subrange(0, i as int)),
        decreases v.len() - i,
    {
        if i > 0 {
            push_char(&mut r, '\n');
        }
        let line = v[i].clone();
        r.append(line.as_str());
        proof {
            let pre = strs_view(v@).subrange(0, i as int);
            assert(strs_view(v@).subrange(0, i + 1 as int) =~= pre.push(v@[i as int]@));
            lemma_joined_push(pre, v@[i as int]@);
            if i == 0 {
                assert(r@ =~= spec_joined(pre.push(v@[i as int]@)));
            } else {
                assert(r@ =~= spec_joined(pre) + seq!['\n'] + v@[i as int]@);
            }
        }
        i += 1;
    }
    proof {
        assert(strs_view(v@).subrange(0, v@.len() as int) =~= strs_view(v@));
    }
    r
}

} // verus!
