//! Verified helpers over strings and association lists.

use vstd::prelude::*;

use crate::model::lookup;
use crate::patterns::{matches_at, starts_with_at};
use vstd::string::{StrSliceExecFns, StringExecFns};

verus! {

/// `s` with every leading repetition of `Bearer ` removed.
pub open spec fn strip_bearer(s: Seq<char>) -> Seq<char>
    decreases s.len(),
{
    if s.len() >= 7 && matches_at(s, 0, "Bearer "@) {
        strip_bearer(s.skip(7))
    } else {
        s
    }
}

/// The pairs of `ps` whose key is not `key`, in order.
pub open spec fn without_key(ps: Seq<(Seq<char>, Seq<char>)>, key: Seq<char>) -> Seq<
    (Seq<char>, Seq<char>),
>
    decreases ps.len(),
{
    if ps.len() == 0 {
        Seq::empty()
    } else {
        without_key(ps.drop_last(), key) + if ps.last().0 == key {
            Seq::empty()
        } else {
            seq![ps.last()]
        }
    }
}

/// The pairs joined as `k=v`, separated by `&`, without re-encoding.
pub open spec fn join_params(ps: Seq<(Seq<char>, Seq<char>)>) -> Seq<char>
    decreases ps.len(),
{
    if ps.len() == 0 {
        Seq::empty()
    } else if ps.len() == 1 {
        ps[0].0 + "="@ + ps[0].1
    } else {
        join_params(ps.drop_last()) + "&"@ + ps.last().0 + "="@ + ps.last().1
    }
}

/// String equality decided over the views.
pub fn str_eq(a: &str, b: &str) -> (r: bool)
    ensures
        r == (a@ == b@),
{
    let oa: String = a.to_owned();
    let ob: String = b.to_owned();
    oa == ob
}

/// First value bound to `key` in `pairs`, cloned; `None` when absent.
pub fn find_pair(pairs: &Vec<(String, String)>, key: &str) -> (r: Option<String>)
    ensures
        r is Some <==> lookup(pairs.deep_view(), key@) is Some,
        r is Some ==> r->0@ == lookup(pairs.deep_view(), key@)->0,
{
    let n = pairs.len();
    proof {
        assert(pairs.deep_view().skip(0) =~= pairs.deep_view());
    }
    for i in 0..n
        invariant
            n == pairs.len(),
            lookup(pairs.deep_view(), key@) == lookup(pairs.deep_view().skip(i as int), key@),
    {
        proof {
            assert(pairs.deep_view().skip(i as int)[0] == (pairs[i as int].0@, pairs[i as int].1@));
        }
        if str_eq(pairs[i].0.as_str(), key) {
            return Some(pairs[i].1.clone());
        }
        proof {
            assert(pairs.deep_view().skip(i as int).drop_first() =~= pairs.deep_view().skip(
                i + 1,
            ));
        }
    }
    proof {
        assert(pairs.deep_view().skip(n as int).len() == 0);
    }
    None
}

/// First value bound to `key`, or the empty string when absent.
pub fn find_pair_or_empty(pairs: &Vec<(String, String)>, key: &str) -> (r: String)
    ensures
        r@ == crate::model::lookup_or_empty(pairs.deep_view(), key@),
{
    match find_pair(pairs, key) {
        Some(v) => v,
        None => String::new(),
    }
}

/// Remove every leading repetition of `Bearer `.
pub fn strip_bearer_prefix(s: &str) -> (r: String)
    ensures
        r@ == strip_bearer(s@),
{
    proof {
        reveal_strlit("Bearer ");
    }
    let mut cur: String = s.to_owned();
    let mut n = cur.as_str().unicode_len();
    while n >= 7 && starts_with_at(cur.as_str(), 0, "Bearer ")
        invariant
            n == cur@.len(),
            strip_bearer(s@) == strip_bearer(cur@),
        decreases cur@.len(),
    {
        let next = cur.as_str().substring_char(7, n).to_owned();
        proof {
            assert(next@ =~= cur@.skip(7));
        }
        cur = next;
        n = cur.as_str().unicode_len();
    }
    cur
}

/// The pairs of `ps` whose key is not `key`, cloned in order.
pub fn filter_out_key(ps: &Vec<(String, String)>, key: &str) -> (r: Vec<(String, String)>)
    ensures
        r.deep_view() == without_key(ps.deep_view(), key@),
{
    let mut out: Vec<(String, String)> = Vec::new();
    let n = ps.len();
    proof {
        assert(out.deep_view() =~= without_key(ps.deep_view().take(0), key@));
    }
    for i in 0..n
        invariant
            n == ps.len(),
            out.deep_view() =~= without_key(ps.deep_view().take(i as int), key@),
    {
        proof {
            assert(ps.deep_view().take(i + 1).drop_last() =~= ps.deep_view().take(i as int));
            assert(ps.deep_view().take(i + 1).last() == (ps[i as int].0@, ps[i as int].1@));
        }
        let ghost before = out.deep_view();
        if !str_eq(ps[i].0.as_str(), key) {
            let pair = (ps[i].0.clone(), ps[i].1.clone());
            out.push(pair);
            proof {
                assert(out.deep_view() =~= before + seq![(ps[i as int].0@, ps[i as int].1@)]);
            }
        } else {
            proof {
                assert(out.deep_view() =~= before + Seq::empty());
            }
        }
    }
    proof {
        assert(ps.deep_view().take(n as int) =~= ps.deep_view());
    }
    out
}

/// Join the pairs as `k=v`, separated by `&`.
pub fn join_query_params(ps: &Vec<(String, String)>) -> (r: String)
    ensures
        r@ == join_params(ps.deep_view()),
{
    let mut out = String::new();
    let n = ps.len();
    proof {
        assert(out@ =~= join_params(ps.deep_view().take(0)));
    }
    for i in 0..n
        invariant
            n == ps.len(),
            out@ =~= join_params(ps.deep_view().take(i as int)),
    {
        proof {
            assert(ps.deep_view().take(i + 1).drop_last() =~= ps.deep_view().take(i as int));
            assert(ps.deep_view().take(i + 1).last() == (ps[i as int].0@, ps[i as int].1@));
            assert(ps.deep_view().take(i + 1)[0] == (ps[0].0@, ps[0].1@));
        }
        if i > 0 {
            out.append("&");
        }
        out.append(ps[i].0.as_str());
        out.append("=");
        out.append(ps[i].1.as_str());
        proof {
            assert(out@ =~= join_params(ps.deep_view().take(i + 1)));
        }
    }
    proof {
        assert(ps.deep_view().take(n as int) =~= ps.deep_view());
    }
    out
}

} // verus!
