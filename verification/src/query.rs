//! The caller's query parameters, modelled as an ordered sequence of
//! key/value string pairs (duplicate keys are kept as separate pairs).
//!
//! The proxy reads one distinguished key, `path`, to pick the upstream, and
//! forwards every other pair to the upstream untouched.

use vstd::prelude::*;
use vstd::string::StringExecFns;

verus! {

/// The mathematical view of a pair list: each `String` replaced by its
/// sequence of characters.
pub open spec fn pair_views(ps: Seq<(String, String)>) -> Seq<(Seq<char>, Seq<char>)> {
    ps.map_values(|p: (String, String)| (p.0@, p.1@))
}

/// The value of the first pair whose key is `path`, or the empty string when
/// no such pair exists.
pub open spec fn path_of(q: Seq<(Seq<char>, Seq<char>)>) -> Seq<char>
    decreases q.len(),
{
    if q.len() == 0 {
        Seq::empty()
    } else if q[0].0 == "path"@ {
        q[0].1
    } else {
        path_of(q.drop_first())
    }
}

/// The pair list with every pair whose key is `path` removed, in the original
/// order.
pub open spec fn without_path(q: Seq<(Seq<char>, Seq<char>)>) -> Seq<(Seq<char>, Seq<char>)>
    decreases q.len(),
{
    if q.len() == 0 {
        Seq::empty()
    } else {
        let rest = without_path(q.drop_last());
        if q.last().0 == "path"@ {
            rest
        } else {
            rest.push(q.last())
        }
    }
}

/// Extracts the `path` parameter: the value of its first occurrence, or the
/// empty string when the caller sent none.
pub fn path_param(params: &Vec<(String, String)>) -> (r: String)
    ensures
        r@ == path_of(pair_views(params@)),
{
    let path_key: String = "path".to_owned();
    let n: usize = params.len();
    let mut i: usize = 0;
    proof {
        assert(pair_views(params@).skip(0) =~= pair_views(params@));
    }
    while i < n
        invariant
            i <= n,
            n == params@.len(),
            path_key@ == "path"@,
            path_of(pair_views(params@)) == path_of(pair_views(params@).skip(i as int)),
        decreases n - i,
    {
        if params[i].0 == path_key {
            proof {
                let q = pair_views(params@);
                assert(q.skip(i as int)[0] == q[i as int]);
            }
            return params[i].1.clone();
        }
        proof {
            let q = pair_views(params@);
            assert(q.skip(i as int)[0] == q[i as int]);
            assert(q.skip(i as int).drop_first() =~= q.skip(i as int + 1));
        }
        i += 1;
    }
    proof {
        assert(pair_views(params@).skip(n as int) =~= Seq::<(Seq<char>, Seq<char>)>::empty());
    }
    String::new()
}

/// Keeps every pair except those keyed `path`, preserving order and duplicate
/// keys.
pub fn filter_params(params: &Vec<(String, String)>) -> (r: Vec<(String, String)>)
    ensures
        pair_views(r@) == without_path(pair_views(params@)),
{
    let path_key: String = "path".to_owned();
    let n: usize = params.len();
    let mut out: Vec<(String, String)> = Vec::new();
    let mut i: usize = 0;
    while i < n
        invariant
            i <= n,
            n == params@.len(),
            path_key@ == "path"@,
            pair_views(out@) =~= without_path(pair_views(params@).take(i as int)),
        decreases n - i,
    {
        proof {
            let q = pair_views(params@);
            assert(q.take(i as int + 1).drop_last() =~= q.take(i as int));
            assert(q.take(i as int + 1).last() == q[i as int]);
        }
        if !(params[i].0 == path_key) {
            let ghost old_out = out@;
            out.push((params[i].0.clone(), params[i].1.clone()));
            proof {
                assert(pair_views(out@) =~= pair_views(old_out).push(
                    pair_views(params@)[i as int],
                ));
            }
        }
        i += 1;
    }
    proof {
        assert(pair_views(params@).take(n as int) =~= pair_views(params@));
    }
    out
}

/// Forwarding law: the forwarded pair list contains exactly the caller's
/// pairs whose key is not `path` — nothing is lost and nothing is invented.
pub proof fn lemma_without_path_contains(q: Seq<(Seq<char>, Seq<char>)>, p: (Seq<char>, Seq<char>))
    ensures
        without_path(q).contains(p) <==> q.contains(p) && p.0 != "path"@,
    decreases q.len(),
{
    if q.len() == 0 {
    } else {
        lemma_without_path_contains(q.drop_last(), p);
        assert(q.contains(p) <==> q.drop_last().contains(p) || q.last() == p) by {
            if q.contains(p) {
                let j = choose|j: int| 0 <= j < q.len() && q[j] == p;
                if j < q.len() - 1 {
                    assert(q.drop_last()[j] == p);
                }
            }
            if q.drop_last().contains(p) {
                let j = choose|j: int| 0 <= j < q.drop_last().len() && q.drop_last()[j] == p;
                assert(q[j] == p);
            }
            if q.last() == p {
                assert(q[q.len() - 1] == p);
            }
        }
        if q.last().0 != "path"@ {
            let rest = without_path(q.drop_last());
            assert(without_path(q) == rest.push(q.last()));
            assert(without_path(q).contains(p) <==> rest.contains(p) || q.last() == p) by {
                if without_path(q).contains(p) {
                    let j = choose|j: int|
                        0 <= j < without_path(q).len() && without_path(q)[j] == p;
                    if j < rest.len() {
                        assert(rest[j] == p);
                    }
                }
                if rest.contains(p) {
                    let j = choose|j: int| 0 <= j < rest.len() && rest[j] == p;
                    assert(rest.push(q.last())[j] == p);
                }
                if q.last() == p {
                    assert(rest.push(q.last())[rest.len() as int] == p);
                }
            }
        }
    }
}

} // verus!
