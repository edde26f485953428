//! Which files a run counts: the extension of a file name, and matching it
//! against the configured extensions without regard to case.

use vstd::prelude::*;

verus! {

/// The lower-case form of a text, as `str::to_lowercase` gives it.
pub uninterp spec fn lower_of(s: Seq<char>) -> Seq<char>;

/// Relies on `str::to_lowercase`: its result depends on the characters alone.
#[verifier::external_body]
pub(crate) fn lowercase(s: &str) -> (r: String)
    ensures
        r@ == lower_of(s@),
{
    s.to_lowercase()
}

/// The position of the last '.' in `name`, or -1 where there is none.
pub open spec fn last_dot(name: Seq<char>) -> int
    decreases name.len(),
{
    if name.len() == 0 {
        -1
    } else if name.last() == '.' {
        name.len() - 1
    } else {
        last_dot(name.drop_last())
    }
}

/// The extension of a file name: what follows its last '.'. A name without
/// a '.', or whose only '.' opens it (a hidden file), has none.
pub open spec fn extension_of(name: Seq<char>) -> Option<Seq<char>> {
    let k = last_dot(name);
    if k > 0 {
        Some(name.subrange(k + 1, name.len() as int))
    } else {
        None
    }
}

/// The view of an optional text.
pub open spec fn opt_text(t: Option<String>) -> Option<Seq<char>> {
    match t {
        Some(s) => Some(s@),
        None => None,
    }
}

proof fn lemma_last_dot_bounds(name: Seq<char>)
    ensures
        -1 <= last_dot(name) < name.len(),
    decreases name.len(),
{
    if name.len() > 0 {
        lemma_last_dot_bounds(name.drop_last());
    }
}

/// The extension of a file name (see `extension_of`).
pub fn file_extension(name: &str) -> (r: Option<String>)
    ensures
        opt_text(r) == extension_of(name@),
{
    let n = name.unicode_len();
    let mut last: usize = 0;
    let mut found = false;
    let mut i: usize = 0;
    for c in it: name.chars()
        invariant
            n == name@.len(),
            i == it.index(),
            it.seq() == name@,
            last_dot(name@.take(it.index() as int)) == if found {
                last as int
            } else {
                -1
            },
    {
        proof {
            let next = name@.take(it.index() + 1);
            assert(next.drop_last() =~= name@.take(it.index() as int));
        }
        if c == '.' {
            last = i;
            found = true;
        }
        i = i + 1;
    }
    proof {
        assert(name@.take(name@.len() as int) =~= name@);
        lemma_last_dot_bounds(name@);
    }
    if found && last > 0 {
        let ext = name.substring_char(last + 1, n);
        Some(ext.to_owned())
    } else {
        None
    }
}

} // verus!
