//! The template registry: a read-only catalog mapping template identifiers
//! to template bodies, with fail-fast duplicate detection.

use vstd::prelude::*;

verus! {

use crate::error::GenError;
use crate::views::pairs_view;

/// Whether `id` is a key of `entries`.
pub open spec fn spec_reg_contains(entries: Seq<(Seq<char>, Seq<char>)>, id: Seq<char>) -> bool {
    exists|i: int| 0 <= i < entries.len() && (#[trigger] entries[i]).0 == id
}

/// The body registered under `id`: the first entry with that key, if any.
pub open spec fn spec_reg_lookup(entries: Seq<(Seq<char>, Seq<char>)>, id: Seq<char>) -> Option<
    Seq<char>,
>
    decreases entries.len(),
{
    if entries.len() == 0 {
        None
    } else if entries[0].0 == id {
        Some(entries[0].1)
    } else {
        spec_reg_lookup(entries.drop_first(), id)
    }
}

/// `entries` with the first entry keyed `id` replaced by `(id, body)`, or
/// with `(id, body)` appended when no entry has that key.
pub open spec fn spec_reg_set(
    entries: Seq<(Seq<char>, Seq<char>)>,
    id: Seq<char>,
    body: Seq<char>,
) -> Seq<(Seq<char>, Seq<char>)>
    decreases entries.len(),
{
    if entries.len() == 0 {
        seq![(id, body)]
    } else if entries[0].0 == id {
        seq![(id, body)] + entries.drop_first()
    } else {
        seq![entries[0]] + spec_reg_set(entries.drop_first(), id, body)
    }
}

/// Whether some template identifier occurs twice in the catalog.
pub open spec fn spec_has_dup(entries: Seq<(Seq<char>, Seq<char>)>) -> bool {
    exists|i: int, j: int|
        0 <= i < j < entries.len() && (#[trigger] entries[i]).0 == (#[trigger] entries[j]).0
}

/// An immutable catalog of template identifier/body pairs, assembled once
/// per invocation; duplicate registration fails fast.
pub struct TemplateRegistry {
    entries: Vec<(String, String)>,
}

impl View for TemplateRegistry {
    type V = Seq<(Seq<char>, Seq<char>)>;

    closed spec fn view(&self) -> Seq<(Seq<char>, Seq<char>)> {
        pairs_view(self.entries@)
    }
}

impl TemplateRegistry {
    /// An empty registry.
    pub fn new() -> (r: TemplateRegistry)
        ensures
            r@ == Seq::<(Seq<char>, Seq<char>)>::empty(),
    {
        let r = TemplateRegistry { entries: Vec::new() };
        proof {
            assert(r@ =~= Seq::<(Seq<char>, Seq<char>)>::empty());
        }
        r
    }

    /// The index of the first entry keyed `id`, if any.
    fn find(&self, id: &String) -> (r: Option<usize>)
        ensures
            match r {
                Some(i) => i < self@.len() && self@[i as int].0 == id@ && forall|k: int|
                    0 <= k < i ==> (#[trigger] self@[k]).0 != id@,
                None => !spec_reg_contains(self@, id@),
            },
    {
        let mut i: usize = 0;
        while i < self.entries.len()
            invariant
                i <= self@.len(),
                self@.len() == self.entries@.len(),
                forall|k: int| 0 <= k < i ==> (#[trigger] self@[k]).0 != id@,
            decreases self.entries.len() - i,
        {
            proof {
                assert(self@[i as int] == (self.entries@[i as int].0@, self.entries@[i as int].1@));
            }
            if self.entries[i].0.eq(id) {
                return Some(i);
            }
            i += 1;
        }
        None
    }

    /// Registers a fresh template; a second registration under the same
    /// identifier fails with `DuplicateTemplateId` and leaves the registry
    /// unchanged.
    pub fn register(&mut self, id: String, body: String) -> (r: Result<(), GenError>)
        ensures
            match r {
                Ok(()) => !spec_reg_contains(old(self)@, id@) && final(self)@ == old(self)@.push(
                    (id@, body@),
                ),
                Err(e) => spec_reg_contains(old(self)@, id@) && e == GenError::DuplicateTemplateId
                    && final(self)@ == old(self)@,
            },
    {
        match self.find(&id) {
            Some(_) => Err(GenError::DuplicateTemplateId),
            None => {
                self.entries.push((id, body));
                proof {
                    assert(self@ =~= old(self)@.push(
                        (self.entries@.last().0@, self.entries@.last().1@),
                    ));
                }
                Ok(())
            },
        }
    }

    /// Binds `id` to `body`, replacing any existing binding; used for the
    /// synthetic templates the resolvers add.
    pub fn set(&mut self, id: String, body: String)
        ensures
            final(self)@ == spec_reg_set(old(self)@, id@, body@),
    {
        let ghost pre = self@;
        match self.find(&id) {
            Some(i) => {
                self.entries.remove(i);
                self.entries.insert(i, (id, body));
                proof {
                    lemma_reg_set_at(pre, i as int, self@[i as int].0, self@[i as int].1);
                    assert(self@ =~= pre.update(i as int, (self@[i as int].0, self@[i as int].1)));
                }
            },
            None => {
                self.entries.push((id, body));
                proof {
                    lemma_reg_set_missing(pre, self@.last().0, self@.last().1);
                    assert(self@ =~= pre.push((self@.last().0, self@.last().1)));
                }
            },
        }
    }

    /// Looks a template identifier up, as `spec_reg_lookup` describes.
    pub fn lookup(&self, id: &String) -> (r: Option<&String>)
        ensures
            match r {
                Some(b) => spec_reg_lookup(self@, id@) == Some(b@),
                None => spec_reg_lookup(self@, id@) is None,
            },
    {
        let found = self.find(id);
        proof {
            match found {
                Some(i) => lemma_reg_lookup_at(self@, id@, i as int),
                None => lemma_reg_lookup_missing(self@, id@),
            }
        }
        match found {
            Some(i) => Some(&self.entries[i].1),
            None => None,
        }
    }
}

/// A first match at `i` makes `spec_reg_lookup` yield that entry's body.
proof fn lemma_reg_lookup_at(entries: Seq<(Seq<char>, Seq<char>)>, id: Seq<char>, i: int)
    requires
        0 <= i < entries.len(),
        entries[i].0 == id,
        forall|k: int| 0 <= k < i ==> (#[trigger] entries[k]).0 != id,
    ensures
        spec_reg_lookup(entries, id) == Some(entries[i].1),
    decreases entries.len(),
{
    if i > 0 {
        lemma_reg_lookup_at(entries.drop_first(), id, i - 1);
    }
}

/// Without a matching key, `spec_reg_lookup` yields nothing.
proof fn lemma_reg_lookup_missing(entries: Seq<(Seq<char>, Seq<char>)>, id: Seq<char>)
    requires
        !spec_reg_contains(entries, id),
    ensures
        spec_reg_lookup(entries, id) is None,
    decreases entries.len(),
{
    if entries.len() > 0 {
        assert(entries[0].0 != id);
        assert forall|k: int| 0 <= k < entries.drop_first().len() implies (#[trigger] entries.drop_first()[k]).0
            != id by {
            assert(entries.drop_first()[k] == entries[k + 1]);
        }
        lemma_reg_lookup_missing(entries.drop_first(), id);
    }
}

/// Replacing the first entry keyed `id` in place realizes `spec_reg_set`.
proof fn lemma_reg_set_at(
    entries: Seq<(Seq<char>, Seq<char>)>,
    i: int,
    id: Seq<char>,
    body: Seq<char>,
)
    requires
        0 <= i < entries.len(),
        entries[i].0 == id,
        forall|k: int| 0 <= k < i ==> (#[trigger] entries[k]).0 != id,
    ensures
        spec_reg_set(entries, id, body) == entries.update(i, (id, body)),
    decreases entries.len(),
{
    if i == 0 {
        assert(spec_reg_set(entries, id, body) == seq![(id, body)] + entries.drop_first());
        assert(seq![(id, body)] + entries.drop_first() =~= entries.update(0, (id, body)));
    } else {
        assert(entries[0].0 != id);
        assert forall|k: int| 0 <= k < i - 1 implies (#[trigger] entries.drop_first()[k]).0
            != id by {
            assert(entries.drop_first()[k] == entries[k + 1]);
        }
        lemma_reg_set_at(entries.drop_first(), i - 1, id, body);
        assert(seq![entries[0]] + entries.drop_first().update(i - 1, (id, body)) =~= entries.update(
            i,
            (id, body),
        ));
    }
}

/// Appending realizes `spec_reg_set` when the key is absent.
proof fn lemma_reg_set_missing(entries: Seq<(Seq<char>, Seq<char>)>, id: Seq<char>, body: Seq<char>)
    requires
        !spec_reg_contains(entries, id),
    ensures
        spec_reg_set(entries, id, body) == entries.push((id, body)),
    decreases entries.len(),
{
    if entries.len() == 0 {
        assert(spec_reg_set(entries, id, body) =~= entries.push((id, body)));
    } else {
        assert(entries[0].0 != id);
        assert forall|k: int| 0 <= k < entries.drop_first().len() implies (#[trigger] entries.drop_first()[k]).0
            != id by {
            assert(entries.drop_first()[k] == entries[k + 1]);
        }
        lemma_reg_set_missing(entries.drop_first(), id, body);
        assert(seq![entries[0]] + entries.drop_first().push((id, body)) =~= entries.push(
            (id, body),
        ));
    }
}

} // verus!
