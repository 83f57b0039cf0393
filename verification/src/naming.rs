//! How a repository gets its name.

use crate::text::{chars_of, text_of};
use vstd::prelude::*;

verus! {

/// Whether `s` ends in `.git`.
pub open spec fn ends_with_git(s: Seq<char>) -> bool {
    &&& s.len() >= 4
    &&& s[s.len() - 4] == '.'
    &&& s[s.len() - 3] == 'g'
    &&& s[s.len() - 2] == 'i'
    &&& s[s.len() - 1] == 't'
}

/// `s` without the `.git` at its end, where it ends so. One suffix is
/// taken off and no more: `repo.git.git` gives `repo.git`.
pub open spec fn without_git_suffix(s: Seq<char>) -> Seq<char> {
    if ends_with_git(s) {
        s.take(s.len() - 4)
    } else {
        s
    }
}

/// The part of `s` after its last `/`; all of `s` where it has none.
pub open spec fn last_segment(s: Seq<char>) -> Seq<char>
    decreases s.len(),
{
    if s.len() == 0 || s.last() == '/' {
        Seq::empty()
    } else {
        last_segment(s.drop_last()).push(s.last())
    }
}

/// The name that a remote URL gives: its last path segment, the `.git`
/// suffix apart.
pub open spec fn name_in_url(url: Seq<char>) -> Seq<char> {
    last_segment(without_git_suffix(url))
}

/// The remote whose URL names the repository.
pub const ORIGIN: &'static str = "origin";

/// Whether a remote has a URL to speak of: an empty one is none.
pub open spec fn has_url(origin_url: Option<Seq<char>>) -> bool {
    origin_url is Some && origin_url->0.len() > 0
}

/// The name of a repository: the one in the URL of its origin, else the
/// name of the directory that holds it, else `unknown`.
pub open spec fn repository_name(origin_url: Option<Seq<char>>, directory: Option<Seq<char>>) -> Seq<
    char,
> {
    if has_url(origin_url) {
        name_in_url(origin_url->0)
    } else {
        match directory {
            Some(name) => name,
            None => "unknown"@,
        }
    }
}

/// The last segment is the longest tail of `s` that holds no `/`.
pub proof fn lemma_last_segment(s: Seq<char>)
    ensures
        last_segment(s).len() <= s.len(),
        last_segment(s) == s.skip(s.len() - last_segment(s).len()),
        forall|i: int| 0 <= i < last_segment(s).len() ==> #[trigger] last_segment(s)[i] != '/',
        last_segment(s).len() < s.len() ==> s[s.len() - last_segment(s).len() - 1] == '/',
    decreases s.len(),
{
    if s.len() == 0 || s.last() == '/' {
        assert(last_segment(s) =~= s.skip(s.len() as int));
    } else {
        let front = s.drop_last();
        lemma_last_segment(front);
        let tail = last_segment(front);
        assert(last_segment(s) =~= s.skip(s.len() - last_segment(s).len())) by {
            assert(tail == front.skip(front.len() - tail.len()));
            assert forall|i: int| 0 <= i < tail.len() implies tail[i] == s[s.len() - 1 - tail.len()
                + i] by {
                assert(tail[i] == front.skip(front.len() - tail.len())[i]);
            }
        }
    }
}

/// The name that a remote URL gives.
pub fn name_from_url(url: &str) -> (name: String)
    ensures
        name@ == name_in_url(url@),
{
    let chars = chars_of(url);
    let len = chars.len();
    let end: usize = if len >= 4 && chars[len - 4] == '.' && chars[len - 3] == 'g' && chars[len
        - 2] == 'i' && chars[len - 1] == 't' {
        len - 4
    } else {
        len
    };
    assert(without_git_suffix(chars@) =~= chars@.take(end as int));
    let mut start: usize = end;
    assert(chars@.subrange(start as int, end as int) =~= Seq::<char>::empty());
    while start > 0 && chars[start - 1] != '/'
        invariant
            start <= end <= chars@.len(),
            last_segment(chars@.take(end as int)) == last_segment(chars@.take(start as int))
                + chars@.subrange(start as int, end as int),
        decreases start,
    {
        proof {
            lemma_segment_step(chars@, start as int, end as int);
        }
        start -= 1;
    }
    assert(last_segment(chars@.take(start as int)) =~= Seq::<char>::empty());
    assert(Seq::<char>::empty() + chars@.subrange(start as int, end as int) =~= chars@.subrange(
        start as int,
        end as int,
    ));
    text_of(&chars, start, end)
}

proof fn lemma_segment_step(s: Seq<char>, start: int, end: int)
    requires
        0 < start <= end <= s.len(),
        s[start - 1] != '/',
    ensures
        last_segment(s.take(start)) + s.subrange(start, end) == last_segment(s.take(start - 1))
            + s.subrange(start - 1, end),
{
    let head = s.take(start);
    assert(head.drop_last() =~= s.take(start - 1));
    assert(head.last() == s[start - 1]);
    assert(last_segment(head) == last_segment(s.take(start - 1)).push(s[start - 1]));
    assert(last_segment(s.take(start - 1)).push(s[start - 1]) + s.subrange(start, end)
        =~= last_segment(s.take(start - 1)) + s.subrange(start - 1, end));
}

/// The name of a repository, from the URL of its origin, if it has one, and
/// the name of the directory that holds it, if that has one.
pub fn choose_name(origin_url: Option<&str>, directory: Option<&str>) -> (name: String)
    ensures
        name@ == repository_name(
            match origin_url {
                Some(url) => Some(url@),
                None => None,
            },
            match directory {
                Some(dir) => Some(dir@),
                None => None,
            },
        ),
{
    match origin_url {
        Some(url) => {
            if !url.is_empty() {
                return name_from_url(url);
            }
        },
        None => {},
    }
    match directory {
        Some(dir) => dir.to_owned(),
        None => "unknown".to_owned(),
    }
}

} // verus!
