//! Splitting a request path into its non-empty segments.

use vstd::prelude::*;
use vstd::string::*;
use crate::text::{opt_text, texts};

verus! {

/// The position of the first `'/'` in `s`, or `s.len()` when there is none.
pub open spec fn first_slash(s: Seq<char>) -> int
    decreases s.len(),
{
    if s.len() == 0 || s[0] == '/' {
        0
    } else {
        1 + first_slash(s.skip(1))
    }
}

/// The non-empty segments of `s` between `'/'` characters, in order.
pub open spec fn route_params(s: Seq<char>) -> Seq<Seq<char>>
    decreases s.len(),
{
    if s.len() == 0 {
        Seq::empty()
    } else {
        let k = first_slash(s);
        let rest = if k < s.len() {
            proof {
                lemma_first_slash(s);
            }
            route_params(s.skip(k + 1))
        } else {
            Seq::empty()
        };
        if k > 0 {
            seq![s.take(k)] + rest
        } else {
            rest
        }
    }
}

/// `first_slash` stays inside the sequence, points at a `'/'` unless it is the
/// length, and has no `'/'` before it.
pub proof fn lemma_first_slash(s: Seq<char>)
    ensures
        0 <= first_slash(s) <= s.len(),
        first_slash(s) < s.len() ==> s[first_slash(s)] == '/',
        forall|i: int| 0 <= i < first_slash(s) ==> s[i] != '/',
    decreases s.len(),
{
    if s.len() != 0 && s[0] != '/' {
        let t = s.skip(1);
        lemma_first_slash(t);
        assert forall|i: int| 0 <= i < first_slash(s) implies s[i] != '/' by {
            if i > 0 {
                assert(s[i] == t[i - 1]);
            }
        }
    }
}

/// A segment is a non-empty run of characters other than `'/'`.
pub open spec fn is_segment(p: Seq<char>) -> bool {
    p.len() > 0 && forall|j: int| 0 <= j < p.len() ==> p[j] != '/'
}

/// Every parameter is a segment.
pub proof fn lemma_params_are_segments(s: Seq<char>)
    ensures
        forall|i: int| 0 <= i < route_params(s).len() ==> is_segment(#[trigger] route_params(s)[i]),
    decreases s.len(),
{
    if s.len() > 0 {
        lemma_first_slash(s);
        let k = first_slash(s);
        let rest = if k < s.len() {
            route_params(s.skip(k + 1))
        } else {
            Seq::empty()
        };
        if k < s.len() {
            lemma_params_are_segments(s.skip(k + 1));
        }
        assert forall|i: int| 0 <= i < route_params(s).len() implies is_segment(
            #[trigger] route_params(s)[i],
        ) by {
            if k > 0 {
                if i == 0 {
                    assert(route_params(s)[0] == s.take(k));
                } else {
                    assert(route_params(s)[i] == rest[i - 1]);
                }
            } else {
                assert(route_params(s)[i] == rest[i]);
            }
        }
    }
}

/// A path has no parameter exactly when it holds nothing but `'/'`.
pub proof fn lemma_no_params(s: Seq<char>)
    ensures
        route_params(s).len() == 0 <==> (forall|i: int| 0 <= i < s.len() ==> s[i] == '/'),
    decreases s.len(),
{
    if s.len() > 0 {
        lemma_first_slash(s);
        let k = first_slash(s);
        if k == 0 {
            let t = s.skip(1);
            lemma_no_params(t);
            if route_params(s).len() == 0 {
                assert forall|i: int| 0 <= i < s.len() implies s[i] == '/' by {
                    if i > 0 {
                        assert(s[i] == t[i - 1]);
                    }
                }
            } else {
                let i = choose|i: int| 0 <= i < t.len() && t[i] != '/';
                assert(s[i + 1] == t[i]);
            }
        } else {
            assert(s[0] != '/');
        }
    }
}

/// The last parameter is the last run of characters other than `'/'`: the
/// run from `b` to `e` that a `'/'` or the start of the path precedes and that
/// only `'/'` follows.
pub proof fn lemma_last_param_is_last_run(s: Seq<char>, b: int, e: int)
    requires
        0 <= b < e <= s.len(),
        forall|i: int| b <= i < e ==> s[i] != '/',
        b == 0 || s[b - 1] == '/',
        forall|i: int| e <= i < s.len() ==> s[i] == '/',
    ensures
        last_param(s) == Some(s.subrange(b, e)),
    decreases s.len(),
{
    lemma_first_slash(s);
    let k = first_slash(s);
    if b == 0 {
        if k < e {
            assert(s[k] == '/');
        }
        if e < s.len() && k > e {
            assert(s[e] == '/');
        }
        assert(k == e);
        if e < s.len() {
            let t = s.skip(e + 1);
            assert forall|i: int| 0 <= i < t.len() implies t[i] == '/' by {
                assert(t[i] == s[e + 1 + i]);
            }
            lemma_no_params(t);
        }
        assert(s.take(k) =~= s.subrange(b, e));
        assert(route_params(s) =~= seq![s.subrange(b, e)]);
    } else {
        if k >= b {
            assert(s[b - 1] != '/');
        }
        let t = s.skip(k + 1);
        let tb = b - k - 1;
        let te = e - k - 1;
        assert forall|i: int| tb <= i < te implies t[i] != '/' by {
            assert(t[i] == s[i + k + 1]);
        }
        assert forall|i: int| te <= i < t.len() implies t[i] == '/' by {
            assert(t[i] == s[i + k + 1]);
        }
        if tb > 0 {
            assert(t[tb - 1] == s[b - 1]);
        }
        lemma_last_param_is_last_run(t, tb, te);
        assert(t.subrange(tb, te) =~= s.subrange(b, e));
        if k > 0 {
            assert(route_params(s) == seq![s.take(k)] + route_params(t));
            assert(route_params(s).last() == route_params(t).last());
        }
    }
}

/// Once the front of `s` up to `start` is consumed, a run without `'/'` from
/// `start` to a `'/'` at `i` contributes one parameter, unless it is empty.
proof fn lemma_params_step(s: Seq<char>, start: int, i: int)
    requires
        0 <= start <= i < s.len(),
        s[i] == '/',
        forall|k: int| start <= k < i ==> s[k] != '/',
    ensures
        route_params(s.skip(start)) == if start < i {
            seq![s.subrange(start, i)] + route_params(s.skip(i + 1))
        } else {
            route_params(s.skip(i + 1))
        },
{
    let t = s.skip(start);
    lemma_first_slash(t);
    let k = first_slash(t);
    assert(t[i - start] == s[i]);
    if k < i - start {
        assert(t[k] == s[start + k]);
    }
    assert(k == i - start);
    assert(t.skip(k + 1) =~= s.skip(i + 1));
    assert(t.take(k) =~= s.subrange(start, i));
}

/// A trailing run without `'/'` contributes one parameter, unless it is empty.
proof fn lemma_params_tail(s: Seq<char>, start: int)
    requires
        0 <= start <= s.len(),
        forall|k: int| start <= k < s.len() ==> s[k] != '/',
    ensures
        route_params(s.skip(start)) == if start < s.len() {
            seq![s.skip(start)]
        } else {
            Seq::<Seq<char>>::empty()
        },
{
    let t = s.skip(start);
    lemma_first_slash(t);
    let k = first_slash(t);
    if k < t.len() {
        assert(t[k] == s[start + k]);
    }
    assert(t.take(t.len() as int) =~= t);
}

/// Splits `route` at every `'/'` and keeps the segments that are not empty.
pub fn get_params_from_route(route: &str) -> (params: Vec<String>)
    ensures
        texts(params@) == route_params(route@),
        forall|i: int| 0 <= i < params.len() ==> is_segment(#[trigger] params[i]@),
{
    broadcast use group_string_axioms;

    let n: usize = route.unicode_len();
    let mut params: Vec<String> = Vec::new();
    let mut start: usize = 0;
    let mut i: usize = 0;
    assert(texts(params@) =~= Seq::<Seq<char>>::empty());
    assert(route@.skip(0) =~= route@);
    for c in it: route.chars()
        invariant
            n == route@.len(),
            it.seq() == route@,
            i == it.index(),
            start <= i <= n,
            forall|k: int| start <= k < i ==> route@[k] != '/',
            route_params(route@) == texts(params@) + route_params(route@.skip(start as int)),
    {
        assert(c == route@[i as int]);
        if c == '/' {
            proof {
                lemma_params_step(route@, start as int, i as int);
            }
            if start < i {
                let ghost before = params@;
                let segment = route.substring_char(start, i).to_owned();
                params.push(segment);
                assert(texts(params@) =~= texts(before) + seq![route@.subrange(start as int, i as int)]);
            }
            start = i + 1;
        }
        i = i + 1;
    }
    proof {
        lemma_params_tail(route@, start as int);
        lemma_params_are_segments(route@);
    }
    if start < n {
        let ghost before = params@;
        let segment = route.substring_char(start, n).to_owned();
        params.push(segment);
        assert(route@.subrange(start as int, n as int) =~= route@.skip(start as int));
        assert(texts(params@) =~= texts(before) + seq![route@.skip(start as int)]);
    }
    assert forall|i: int| 0 <= i < params.len() implies is_segment(#[trigger] params[i]@) by {
        assert(texts(params@)[i] == params[i]@);
    }
    params
}

/// The last non-empty segment of `s`, if it has one.
pub open spec fn last_param(s: Seq<char>) -> Option<Seq<char>> {
    let params = route_params(s);
    if params.len() == 0 {
        None
    } else {
        Some(params.last())
    }
}

/// The last non-empty segment of `route`, or `None` when every segment is
/// empty.
pub fn get_last_param_from_route(route: &str) -> (last: Option<String>)
    ensures
        opt_text(last) == last_param(route@),
        last matches Some(param) ==> is_segment(param@),
{
    let mut params = get_params_from_route(route);
    let ghost all = params@;
    let last = params.pop();
    proof {
        assert(texts(all).len() == all.len());
        if all.len() > 0 {
            assert(texts(all).last() == all.last()@);
        }
    }
    last
}

} // verus!
