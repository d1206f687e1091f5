//! File-system paths, joined by the standard library as the platform that
//! the library is built for joins them. The join is taken on trust and
//! named; the contracts say which texts are joined, and in which order.

use std::path::Path;
use vstd::prelude::*;

use crate::text::texts;

verus! {

/// The path `base` with `component` adjoined, as text: what `Path::join`
/// gives on the platform that the library is built for (its separator,
/// what it counts as absolute), written out by `Path::to_string_lossy`.
pub uninterp spec fn path_joined(base: Seq<char>, component: Seq<char>) -> Seq<char>;

/// `Path::join` on two texts, with the joined path turned back into text
/// by `Path::to_string_lossy`. What comes out depends on the two texts
/// alone.
#[verifier::external_body]
fn path_join(base: &str, component: &str) -> (joined: String)
    ensures
        joined@ == path_joined(base@, component@),
{
    Path::new(base).join(component).to_string_lossy().into_owned()
}

/// The outcome of joining `components` onto `base` in order: `base`
/// itself where there is none, otherwise the rest joined onto what
/// `path_joined` makes of `base` and the first.
pub open spec fn joined_all(base: Seq<char>, components: Seq<Seq<char>>) -> Seq<char>
    decreases components.len(),
{
    if components.len() == 0 {
        base
    } else {
        joined_all(path_joined(base, components[0]), components.drop_first())
    }
}

/// Joins `components` onto `base`, one after the other, each onto what
/// the ones before it gave.
pub fn join_path(base: &str, components: &Vec<String>) -> (joined: String)
    ensures
        joined@ == joined_all(base@, texts(components@)),
{
    let mut path = base.to_owned();
    let mut i: usize = 0;
    proof {
        assert(texts(components@).len() == components@.len());
        assert(texts(components@).skip(0) =~= texts(components@));
    }
    while i < components.len()
        invariant
            i <= components.len(),
            texts(components@).len() == components@.len(),
            joined_all(base@, texts(components@)) == joined_all(
                path@,
                texts(components@).skip(i as int),
            ),
        decreases components.len() - i,
    {
        let ghost rest = texts(components@).skip(i as int);
        proof {
            assert(rest[0] == components@[i as int]@);
            assert(rest.drop_first() =~= texts(components@).skip(i + 1));
        }
        path = path_join(path.as_str(), components[i].as_str());
        i += 1;
    }
    path
}

} // verus!
