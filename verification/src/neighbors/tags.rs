//! The `tags` edge: the tags that lead to a commit.

use crate::backend::{listed_names, name_at, names_len, tag_names};
use crate::tags::{is_tag_named, read_tag};
use crate::types::Tag;
use vstd::prelude::*;

verus! {

/// Whether `tags` bear names of the list from place `from` up to, but not
/// including, place `upto`, each at a later place than the one before.
pub open spec fn in_order(names: Seq<Option<Seq<char>>>, from: int, upto: int, tags: Seq<Tag>) -> bool
    decreases tags.len(),
{
    if tags.len() == 0 {
        from <= upto
    } else {
        exists|n: int|
            {
                &&& from <= n < upto
                &&& n < names.len()
                &&& #[trigger] names[n] == Some(tags.last()@.name)
                &&& in_order(names, from, n, tags.drop_last())
            }
    }
}

/// Tags that are in order up to one place are in order up to any later one.
proof fn lemma_in_order_further(
    names: Seq<Option<Seq<char>>>,
    from: int,
    upto: int,
    later: int,
    tags: Seq<Tag>,
)
    requires
        in_order(names, from, upto, tags),
        upto <= later,
    ensures
        in_order(names, from, later, tags),
{
    if tags.len() > 0 {
        let n = choose|n: int|
            {
                &&& from <= n < upto
                &&& n < names.len()
                &&& #[trigger] names[n] == Some(tags.last()@.name)
                &&& in_order(names, from, n, tags.drop_last())
            };
        assert(from <= n < later && names[n] == Some(tags.last()@.name));
    }
}

/// The tags of the repository, as far as they have not been handed out.
pub struct TagList<'a> {
    repo: &'a git2::Repository,
    names: Option<git2::string_array::StringArray>,
    position: usize,
}

impl<'a> TagList<'a> {
    /// The names of all tags, in the order in which the repository lists
    /// them; an entry is absent where the name is not valid UTF-8.
    pub closed spec fn names(&self) -> Seq<Option<Seq<char>>> {
        match self.names {
            Some(names) => listed_names(names),
            None => Seq::empty(),
        }
    }

    /// How many of the names have been dealt with.
    pub closed spec fn position(&self) -> nat {
        self.position as nat
    }

    #[verifier::type_invariant]
    spec fn within_names(&self) -> bool {
        self.position <= self.names().len()
    }

    /// What one call of `next_tag` does: the tag handed out bears one of the
    /// names not yet dealt with, and that name and those before it are then
    /// dealt with. Nothing is handed out only when all names are.
    pub open spec fn stepped(before: Self, after: Self, next: Option<Tag>) -> bool {
        &&& after.names() == before.names()
        &&& match next {
            Some(tag) => exists|n: int|
                {
                    &&& before.position() <= n < before.names().len()
                    &&& #[trigger] before.names()[n] == Some(tag@.name)
                    &&& is_tag_named(tag@.name, tag@)
                    &&& after.position() == n + 1
                },
            None => after.position() == before.names().len(),
        }
    }

    /// Opens the list of tags. Where the repository cannot list them, there
    /// are no names.
    pub fn open(repo: &'a git2::Repository) -> (list: Self)
        ensures
            list.position() == 0,
    {
        TagList { repo, names: tag_names(repo), position: 0 }
    }

    /// The next tag, if one is left. A name is passed over where it cannot
    /// be read or its reference does not lead to a commit.
    pub fn next_tag(&mut self) -> (next: Option<Tag>)
        ensures
            Self::stepped(*old(self), *final(self), next),
    {
        proof {
            use_type_invariant(&*self);
        }
        let len = match &self.names {
            Some(names) => names_len(names),
            None => 0,
        };
        while self.position < len
            invariant
                len == self.names().len(),
                self.names() == old(self).names(),
                self.repo == old(self).repo,
                old(self).position() <= self.position() <= len,
            decreases len - self.position,
        {
            let name = match &self.names {
                Some(names) => name_at(names, self.position),
                None => None,
            };
            let ghost at = self.position as int;
            self.position = self.position + 1;
            match name {
                Some(name) => {
                    match read_tag(self.repo, name) {
                        Some(tag) => {
                            assert(old(self).names()[at] == Some(tag@.name));
                            return Some(tag);
                        },
                        None => {},
                    }
                },
                None => {},
            }
        }
        None
    }

    /// All tags that the list still holds: they bear names of the list not
    /// yet dealt with, in the order of the list, and all names are then
    /// dealt with.
    pub fn collect(&mut self) -> (tags: Vec<Tag>)
        ensures
            final(self).names() == old(self).names(),
            final(self).position() == old(self).names().len(),
            in_order(
                old(self).names(),
                old(self).position() as int,
                old(self).names().len() as int,
                tags@,
            ),
    {
        let mut tags: Vec<Tag> = Vec::new();
        proof {
            use_type_invariant(&*self);
        }
        loop
            invariant_except_break
                self.position() <= self.names().len(),
                self.names() == old(self).names(),
                old(self).position() <= self.position(),
                in_order(
                    old(self).names(),
                    old(self).position() as int,
                    self.position() as int,
                    tags@,
                ),
            ensures
                self.names() == old(self).names(),
                self.position() == old(self).names().len(),
                in_order(
                    old(self).names(),
                    old(self).position() as int,
                    old(self).names().len() as int,
                    tags@,
                ),
            decreases self.names().len() - self.position(),
        {
            let ghost before = *self;
            let ghost so_far = tags@;
            match self.next_tag() {
                Some(tag) => {
                    tags.push(tag);
                    proof {
                        let n = choose|n: int|
                            {
                                &&& before.position() <= n < before.names().len()
                                &&& #[trigger] before.names()[n] == Some(tag@.name)
                                &&& self.position() == n + 1
                            };
                        lemma_in_order_further(
                            old(self).names(),
                            old(self).position() as int,
                            before.position() as int,
                            n,
                            so_far,
                        );
                        assert(tags@.drop_last() =~= so_far);
                        assert(tags@.last() == tag);
                    }
                },
                None => {
                    proof {
                        lemma_in_order_further(
                            old(self).names(),
                            old(self).position() as int,
                            before.position() as int,
                            old(self).names().len() as int,
                            so_far,
                        );
                    }
                    break ;
                },
            }
        }
        tags
    }
}

} // verus!
