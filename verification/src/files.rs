//! Path joining.
//!
//! Content-root paths are composed with [`join_path`], and every statement
//! about them goes through [`spec_join`], so callers and tests agree on the
//! separator with the library itself.

use vstd::prelude::*;
use vstd::string::*;

verus! {

/// The separator placed between joined path segments.
pub open spec fn spec_sep() -> Seq<char> {
    seq!['/']
}

/// The path obtained by joining `base` with each segment in turn: a segment
/// is appended to a non-empty path with one separator in between, and
/// replaces the path while it is still empty.
pub open spec fn spec_join(base: Seq<char>, segments: Seq<Seq<char>>) -> Seq<char>
    decreases segments.len(),
{
    if segments.len() == 0 {
        base
    } else if base.len() == 0 {
        spec_join(segments[0], segments.drop_first())
    } else {
        spec_join(base + spec_sep() + segments[0], segments.drop_first())
    }
}

/// Joins `base` and `segments` into one path.
pub fn join_path(base: &str, segments: Vec<&str>) -> (r: String)
    ensures
        r@ == spec_join(base@, segments.deep_view()),
{
    let ghost all: Seq<Seq<char>> = segments.deep_view();
    let mut r = base.to_owned();
    let mut i: usize = 0;
    proof {
        assert(all.skip(0) =~= all);
    }
    while i < segments.len()
        invariant
            0 <= i <= segments.len(),
            all == segments.deep_view(),
            spec_join(base@, all) == spec_join(r@, all.skip(i as int)),
        decreases segments.len() - i,
    {
        let ghost rest = all.skip(i as int);
        proof {
            assert(rest[0] == all[i as int]);
            assert(rest.drop_first() =~= all.skip(i as int + 1));
        }
        if r.as_str().is_empty() {
            r = segments[i].to_owned();
        } else {
            proof {
                reveal_strlit("/");
                assert("/"@ =~= spec_sep());
            }
            r.append("/");
            r.append(segments[i]);
        }
        i = i + 1;
    }
    proof {
        assert(all.skip(segments.len() as int) =~= Seq::<Seq<char>>::empty());
    }
    r
}

} // verus!
