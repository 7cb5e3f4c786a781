//! A verified model of the slash-separated paths the engine works with:
//! joining, the final component (project-name fallback), the parent
//! directory, and extension replacement.

use vstd::prelude::*;

verus! {

use crate::error::GenError;

/// `p` without its trailing `ch` characters.
pub open spec fn trim_trailing(p: Seq<char>, ch: char) -> Seq<char>
    decreases p.len(),
{
    if p.len() > 0 && p.last() == ch {
        trim_trailing(p.drop_last(), ch)
    } else {
        p
    }
}

/// The suffix of `p` after the last occurrence of `ch`; all of `p` if `ch`
/// does not occur.
pub open spec fn after_last(p: Seq<char>, ch: char) -> Seq<char>
    decreases p.len(),
{
    if p.len() == 0 {
        p
    } else if p.last() == ch {
        Seq::empty()
    } else {
        after_last(p.drop_last(), ch).push(p.last())
    }
}

pub proof fn lemma_after_last_len(p: Seq<char>, ch: char)
    ensures
        after_last(p, ch).len() <= p.len(),
    decreases p.len(),
{
    if p.len() > 0 && p.last() != ch {
        lemma_after_last_len(p.drop_last(), ch);
    }
}

/// `base` and `rel` joined with a single separating slash; a trailing slash
/// on `base` and an empty `base` add none.
pub open spec fn spec_path_join(base: Seq<char>, rel: Seq<char>) -> Seq<char> {
    if base.len() == 0 {
        rel
    } else if base.last() == '/' {
        base + rel
    } else {
        base + seq!['/'] + rel
    }
}

/// Joins a directory and a relative path, as `spec_path_join` describes.
pub fn path_join(base: &str, rel: &str) -> (r: String)
    ensures
        r@ == spec_path_join(base@, rel@),
{
    let n = base.unicode_len();
    if n == 0 {
        return rel.to_owned();
    }
    let mut r = base.to_owned();
    if base.get_char(n - 1) != '/' {
        proof {
            reveal_strlit("/");
        }
        r.append("/");
        proof {
            assert(r@ =~= base@ + seq!['/']);
        }
    }
    r.append(rel);
    proof {
        if base@.last() == '/' {
            assert(r@ =~= base@ + rel@);
        } else {
            assert(r@ =~= base@ + seq!['/'] + rel@);
        }
    }
    r
}

/// The end of `p`'s slash-trimmed prefix: `trim_trailing(p, '/')` is
/// `p[..r]`.
fn trim_end_idx(p: &str, upto: usize) -> (r: usize)
    requires
        upto <= p@.len(),
    ensures
        r <= upto,
        trim_trailing(p@.subrange(0, upto as int), '/') == p@.subrange(0, r as int),
{
    let mut end = upto;
    while end > 0 && p.get_char(end - 1) == '/'
        invariant
            end <= upto <= p@.len(),
            trim_trailing(p@.subrange(0, upto as int), '/') == trim_trailing(
                p@.subrange(0, end as int),
                '/',
            ),
        decreases end,
    {
        proof {
            assert(p@.subrange(0, end as int).last() == p@[end - 1]);
            assert(p@.subrange(0, end as int).drop_last() =~= p@.subrange(0, end as int - 1));
        }
        end = end - 1;
    }
    proof {
        if end == 0 {
            assert(p@.subrange(0, 0) =~= Seq::<char>::empty());
        } else {
            assert(p@.subrange(0, end as int).last() == p@[end - 1]);
        }
    }
    end
}

/// The start of the final component of `p[..end]`: `after_last(p[..end], '/')`
/// is `p[s..end]`.
fn last_sep_idx(p: &str, end: usize) -> (s: usize)
    requires
        end <= p@.len(),
    ensures
        s <= end,
        after_last(p@.subrange(0, end as int), '/') == p@.subrange(s as int, end as int),
{
    let mut start = end;
    while start > 0 && p.get_char(start - 1) != '/'
        invariant
            start <= end <= p@.len(),
            after_last(p@.subrange(0, end as int), '/') == after_last(
                p@.subrange(0, start as int),
                '/',
            ) + p@.subrange(start as int, end as int),
        decreases start,
    {
        proof {
            assert(p@.subrange(0, start as int).last() == p@[start - 1]);
            assert(p@.subrange(0, start as int).drop_last() =~= p@.subrange(0, start as int - 1));
            assert(after_last(p@.subrange(0, start as int), '/') == after_last(
                p@.subrange(0, start as int - 1),
                '/',
            ).push(p@[start - 1]));
            assert(after_last(p@.subrange(0, start as int - 1), '/').push(p@[start - 1]) + p@
                .subrange(start as int, end as int) =~= after_last(
                p@.subrange(0, start as int - 1),
                '/',
            ) + p@.subrange(start as int - 1, end as int));
        }
        start = start - 1;
    }
    proof {
        if start == 0 {
            assert(p@.subrange(0, 0) =~= Seq::<char>::empty());
            assert(after_last(Seq::<char>::empty(), '/') + p@.subrange(0, end as int) =~= p@
                .subrange(0, end as int));
        } else {
            assert(p@.subrange(0, start as int).last() == p@[start - 1]);
            assert(after_last(p@.subrange(0, start as int), '/') =~= Seq::<char>::empty());
            assert(Seq::<char>::empty() + p@.subrange(start as int, end as int) =~= p@.subrange(
                start as int,
                end as int,
            ));
        }
    }
    start
}

/// Whether `p` strictly extends the directory prefix `d`.
pub open spec fn path_under(p: Seq<char>, d: Seq<char>) -> bool {
    p.len() > d.len() && p.subrange(0, d.len() as int) == d
}

/// Joining a non-empty relative path onto a base yields a path under it.
pub proof fn lemma_join_under(base: Seq<char>, rel: Seq<char>)
    requires
        rel.len() > 0,
    ensures
        path_under(spec_path_join(base, rel), base),
{
    let j = spec_path_join(base, rel);
    if base.len() == 0 {
        assert(j.subrange(0, 0) =~= base);
    } else if base.last() == '/' {
        assert(j.subrange(0, base.len() as int) =~= base);
    } else {
        assert(j.subrange(0, base.len() as int) =~= base);
    }
}

/// The project name a generation run uses: the caller-supplied name verbatim
/// when it is non-empty, otherwise the final component of the project path
/// (trailing slashes ignored); none when that component is empty, `.`
/// or `..`.
pub open spec fn spec_resolved_name(project_name: Seq<char>, project_path: Seq<char>) -> Option<
    Seq<char>,
> {
    if project_name.len() > 0 {
        Some(project_name)
    } else {
        let c = after_last(trim_trailing(project_path, '/'), '/');
        if c.len() == 0 || c == seq!['.'] || c == seq!['.', '.'] {
            None
        } else {
            Some(c)
        }
    }
}

/// Resolves the project name, as `spec_resolved_name` describes; an
/// unusable path yields `InvalidName`.
pub fn define_name(project_name: &str, project_path: &str) -> (r: Result<String, GenError>)
    ensures
        match r {
            Ok(n) => spec_resolved_name(project_name@, project_path@) == Some(n@),
            Err(e) => spec_resolved_name(project_name@, project_path@) is None && e
                == GenError::InvalidName,
        },
{
    if !project_name.is_empty() {
        return Ok(project_name.to_owned());
    }
    let n = project_path.unicode_len();
    let end = trim_end_idx(project_path, n);
    let start = last_sep_idx(project_path, end);
    proof {
        assert(project_path@.subrange(0, n as int) =~= project_path@);
    }
    let len = end - start;
    if len == 0 {
        return Err(GenError::InvalidName);
    }
    let c = project_path.substring_char(start, end);
    if len == 1 && c.get_char(0) == '.' {
        proof {
            assert(c@ =~= seq!['.']);
        }
        return Err(GenError::InvalidName);
    }
    if len == 2 && c.get_char(0) == '.' && c.get_char(1) == '.' {
        proof {
            assert(c@ =~= seq!['.', '.']);
        }
        return Err(GenError::InvalidName);
    }
    proof {
        if c@.len() == 1 {
            assert(c@ != seq!['.', '.']);
            assert(c@[0] != '.' ==> c@ !~= seq!['.']);
        }
        if c@.len() == 2 {
            assert(c@ != seq!['.']);
            assert((c@[0] != '.' || c@[1] != '.') ==> c@ !~= seq!['.', '.']);
        }
    }
    Ok(c.to_owned())
}

/// The parent directory of `p`: the slash-trimmed path without its final
/// component; none for an empty or root path, the empty path for a bare
/// name, and `/` when only the root remains.
pub open spec fn spec_parent(p: Seq<char>) -> Option<Seq<char>> {
    let t = trim_trailing(p, '/');
    if t.len() == 0 {
        None
    } else {
        let c = after_last(t, '/');
        let raw = t.subrange(0, t.len() - c.len());
        if raw.len() == 0 {
            Some(Seq::empty())
        } else if trim_trailing(raw, '/').len() == 0 {
            Some(seq!['/'])
        } else {
            Some(trim_trailing(raw, '/'))
        }
    }
}

/// The parent directory, as `spec_parent` describes.
pub fn parent_dir(p: &str) -> (r: Option<String>)
    ensures
        match r {
            Some(d) => spec_parent(p@) == Some(d@),
            None => spec_parent(p@) is None,
        },
{
    let n = p.unicode_len();
    let end = trim_end_idx(p, n);
    proof {
        assert(p@.subrange(0, n as int) =~= p@);
    }
    if end == 0 {
        return None;
    }
    let start = last_sep_idx(p, end);
    proof {
        let t = trim_trailing(p@, '/');
        let c = after_last(t, '/');
        assert(c.len() == end - start);
        assert(t.subrange(0, t.len() - c.len()) =~= p@.subrange(0, start as int));
    }
    if start == 0 {
        let r = String::new();
        proof {
            assert(r@ =~= Seq::<char>::empty());
        }
        return Some(r);
    }
    let q = trim_end_idx(p, start);
    if q == 0 {
        proof {
            reveal_strlit("/");
            assert("/"@ =~= seq!['/']);
        }
        return Some("/".to_owned());
    }
    Some(p.substring_char(0, q).to_owned())
}

/// The final component of `name` with its extension replaced: everything
/// after the last dot is dropped (unless the only dot leads the name) and
/// `.ext` is appended.
pub open spec fn spec_with_ext(name: Seq<char>, ext: Seq<char>) -> Seq<char> {
    spec_stem(name) + seq!['.'] + ext
}

/// The stem of a file name: the part before its final dot; the whole name
/// when it has no dot, or when its only dot is the leading character.
pub open spec fn spec_stem(name: Seq<char>) -> Seq<char> {
    let a = after_last(name, '.');
    if a.len() == name.len() {
        name
    } else if name.len() - a.len() - 1 == 0 {
        name
    } else {
        name.subrange(0, name.len() - a.len() - 1)
    }
}

/// Replaces the extension of a file name, as `spec_with_ext` describes.
pub fn with_ext(name: &str, ext: &str) -> (r: String)
    ensures
        r@ == spec_with_ext(name@, ext@),
{
    let n = name.unicode_len();
    let dot = last_dot_idx(name, n);
    let mut r: String;
    if dot == n || dot == 0 {
        r = name.to_owned();
    } else {
        r = name.substring_char(0, dot).to_owned();
    }
    proof {
        assert(name@.subrange(0, n as int) =~= name@);
        lemma_after_last_len(name@, '.');
        assert(r@ == spec_stem(name@));
    }
    push_char_str(&mut r, ext);
    r
}

/// Appends `.` and `ext`.
fn push_char_str(r: &mut String, ext: &str)
    ensures
        final(r)@ == old(r)@ + seq!['.'] + ext@,
{
    crate::text::push_char(r, '.');
    r.append(ext);
}

/// The position of the final dot of `p[..end]`: `after_last(p[..end], '.')`
/// is `p[s..end]`, reported as `s - 1`, or `end` when there is no dot.
fn last_dot_idx(p: &str, end: usize) -> (d: usize)
    requires
        end <= p@.len(),
    ensures
        ({
            let a = after_last(p@.subrange(0, end as int), '.');
            if a.len() == end {
                d == end
            } else {
                d == end - a.len() - 1 && a == p@.subrange(d + 1 as int, end as int)
            }
        }),
{
    let mut start = end;
    while start > 0 && p.get_char(start - 1) != '.'
        invariant
            start <= end <= p@.len(),
            after_last(p@.subrange(0, end as int), '.') == after_last(
                p@.subrange(0, start as int),
                '.',
            ) + p@.subrange(start as int, end as int),
        decreases start,
    {
        proof {
            assert(p@.subrange(0, start as int).last() == p@[start - 1]);
            assert(p@.subrange(0, start as int).drop_last() =~= p@.subrange(0, start as int - 1));
            assert(after_last(p@.subrange(0, start as int - 1), '.').push(p@[start - 1]) + p@
                .subrange(start as int, end as int) =~= after_last(
                p@.subrange(0, start as int - 1),
                '.',
            ) + p@.subrange(start as int - 1, end as int));
        }
        start = start - 1;
    }
    proof {
        lemma_after_last_len(p@.subrange(0, end as int), '.');
    }
    if start == 0 {
        proof {
            assert(p@.subrange(0, 0) =~= Seq::<char>::empty());
            assert(after_last(Seq::<char>::empty(), '.') + p@.subrange(0, end as int) =~= p@
                .subrange(0, end as int));
        }
        end
    } else {
        proof {
            assert(p@.subrange(0, start as int).last() == p@[start - 1]);
            assert(after_last(p@.subrange(0, start as int), '.') =~= Seq::<char>::empty());
            assert(Seq::<char>::empty() + p@.subrange(start as int, end as int) =~= p@.subrange(
                start as int,
                end as int,
            ));
        }
        start - 1
    }
}

} // verus!
