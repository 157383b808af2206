use vstd::prelude::*;
use vstd::string::*;

verus! {

/// The parent prefix of a path: everything up to and including the
/// last `/` separator. A path with no separator has the empty parent
/// prefix, and a path that already ends in a separator is its own
/// parent prefix.
pub open spec fn parent_prefix(s: Seq<char>) -> Seq<char>
    decreases s.len(),
{
    if s.len() == 0 {
        s
    } else if s.last() == '/' {
        s
    } else {
        parent_prefix(s.drop_last())
    }
}

/// Derives the containing directory of `path` by stripping the final
/// path segment: `/home/u/.app/db/data` becomes `/home/u/.app/db/`.
/// A path with no separator yields the empty string, and a path ending
/// in a separator is returned unchanged.
pub fn popped_path(path: &str) -> (r: String)
    ensures
        r@ == parent_prefix(path@),
{
    let n = path.unicode_len();
    let mut i = n;
    proof {
        assert(path@.take(n as int) =~= path@);
    }
    while i > 0 && path.get_char(i - 1) != '/'
        invariant
            i <= n,
            n == path@.len(),
            parent_prefix(path@) == parent_prefix(path@.take(i as int)),
        decreases i,
    {
        proof {
            assert(path@.take(i as int).drop_last() =~= path@.take(i as int - 1));
        }
        i = i - 1;
    }
    let sub = path.substring_char(0, i);
    let r = sub.to_owned();
    proof {
        if i == 0 {
            assert(path@.take(0) =~= Seq::<char>::empty());
        } else {
            assert(path@.take(i as int).last() == '/');
        }
        assert(r@ == parent_prefix(path@));
    }
    r
}

} // verus!
