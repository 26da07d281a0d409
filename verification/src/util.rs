//! The cpuset parser: expands a compact range/list string such as
//! `"0-3,6"` into the set of CPU indices it denotes.
//!
//! The grammar is a comma-separated token sequence; a token is either a
//! single decimal index or an inclusive `start-end` range.  Malformed tokens
//! are skipped, not reported: the parse is deliberately lenient.  A range
//! with `start > end` denotes nothing.  Duplicate indices collapse, since the
//! result is a set.

use std::collections::BTreeSet;
use vstd::prelude::*;

use crate::text::{contains_char, lemma_split_len, parse_u32, spec_parse_u32, spec_split, split_str};

verus! {

broadcast use vstd::laws_cmp::group_laws_cmp;

/// The CPU indices denoted by one comma-separated token.
pub open spec fn token_cpus(t: Seq<char>) -> Set<u32> {
    if t.contains('-') {
        let parts = spec_split(t, '-');
        if parts.len() == 2 {
            match (spec_parse_u32(parts[0]), spec_parse_u32(parts[1])) {
                (Some(a), Some(b)) => Set::new(|x: u32| a <= x <= b),
                _ => Set::<u32>::empty(),
            }
        } else {
            Set::<u32>::empty()
        }
    } else {
        match spec_parse_u32(t) {
            Some(n) => Set::<u32>::empty().insert(n),
            None => Set::<u32>::empty(),
        }
    }
}

/// The union of the indices denoted by a sequence of tokens.
pub open spec fn tokens_cpus(toks: Seq<Seq<char>>) -> Set<u32>
    decreases toks.len(),
{
    if toks.len() == 0 {
        Set::<u32>::empty()
    } else {
        tokens_cpus(toks.drop_last()) + token_cpus(toks.last())
    }
}

/// The set of CPU indices a cpuset string denotes.
pub open spec fn spec_cpuset(s: Seq<char>) -> Set<u32> {
    tokens_cpus(spec_split(s, ','))
}

/// Are the elements of `s` in strictly ascending order?
pub open spec fn sorted_strict(s: Seq<u32>) -> bool {
    forall|i: int, j: int| 0 <= i < j < s.len() ==> s[i] < s[j]
}

/// Inserts `x` into a strictly sorted vector, keeping it sorted and
/// duplicate-free.
fn insert_sorted(v: &mut Vec<u32>, x: u32)
    requires
        sorted_strict(old(v)@),
    ensures
        sorted_strict(final(v)@),
        forall|y: u32| final(v)@.contains(y) <==> old(v)@.contains(y) || y == x,
{
    let mut idx: usize = 0;
    while idx < v.len() && v[idx] < x
        invariant
            idx <= v@.len(),
            v@ == old(v)@,
            forall|j: int| 0 <= j < idx ==> v@[j] < x,
        decreases v@.len() - idx,
    {
        idx += 1;
    }
    if idx < v.len() && v[idx] == x {
        proof {
            assert(v@[idx as int] == x);
            assert(v@.contains(x));
        }
        return ;
    }
    let ghost pre = v@;
    proof {
        assert(forall|j: int| idx <= j < pre.len() ==> pre[j] > x) by {
            assert(forall|j: int| idx < j < pre.len() ==> pre[j] > pre[idx as int]);
        }
    }
    v.insert(idx, x);
    proof {
        assert(forall|j: int| 0 <= j < idx ==> v@[j] == pre[j]);
        assert(v@[idx as int] == x);
        assert(forall|j: int| idx < j < v@.len() ==> v@[j] == pre[j - 1]);
        assert(sorted_strict(v@));
        assert(forall|y: u32| pre.contains(y) ==> v@.contains(y)) by {
            assert(forall|j: int|
                0 <= j < pre.len() ==> v@[if j < idx {
                    j
                } else {
                    j + 1
                }] == pre[j]);
        }
        assert(v@.contains(x));
        assert(forall|y: u32| v@.contains(y) ==> pre.contains(y) || y == x) by {
            assert(forall|j: int|
                0 <= j < v@.len() && j != idx ==> pre[if j < idx {
                    j
                } else {
                    j - 1
                }] == v@[j]);
        }
    }
}

/// Appends the indices one token denotes, leaving what was there.
fn push_token_cpus(raw: &mut Vec<u32>, token: &str)
    ensures
        forall|x: u32|
            final(raw)@.contains(x) <==> old(raw)@.contains(x) || token_cpus(token@).contains(x),
{
    if contains_char(token, '-') {
        proof {
            assert(token@.contains('-'));
        }
        let sub = split_str(token, '-');
        if sub.len() == 2 {
            let lo = parse_u32(sub[0].as_str());
            let hi = parse_u32(sub[1].as_str());
            proof {
                assert(sub@[0]@ == spec_split(token@, '-')[0]);
                assert(sub@[1]@ == spec_split(token@, '-')[1]);
            }
            if let (Some(a), Some(b)) = (lo, hi) {
                proof {
                    assert(token_cpus(token@) =~= Set::new(|x: u32| a <= x <= b));
                }
                if a <= b {
                    let ghost before = raw@;
                    let mut v = a;
                    loop
                        invariant_except_break
                            a <= v <= b,
                            forall|x: u32| raw@.contains(x) <==> before.contains(x) || (a <= x < v),
                        ensures
                            forall|x: u32|
                                raw@.contains(x) <==> before.contains(x) || (a <= x <= b),
                        decreases b - v,
                    {
                        let ghost prev = raw@;
                        raw.push(v);
                        proof {
                            assert(forall|x: u32| raw@.contains(x) <==> prev.contains(x) || x == v)
                                by {
                                assert(forall|j: int| 0 <= j < prev.len() ==> raw@[j] == prev[j]);
                                assert(raw@[prev.len() as int] == v);
                            }
                        }
                        if v == b {
                            break ;
                        }
                        v += 1;
                    }
                }
            } else {
                proof {
                    assert(token_cpus(token@) =~= Set::<u32>::empty());
                }
            }
        } else {
            proof {
                assert(token_cpus(token@) =~= Set::<u32>::empty());
            }
        }
    } else {
        proof {
            assert(!token@.contains('-'));
        }
        let parsed = parse_u32(token);
        if let Some(n) = parsed {
            let ghost prev = raw@;
            raw.push(n);
            proof {
                assert(forall|x: u32| raw@.contains(x) <==> prev.contains(x) || x == n) by {
                    assert(forall|j: int| 0 <= j < prev.len() ==> raw@[j] == prev[j]);
                    assert(raw@[prev.len() as int] == n);
                }
                assert(token_cpus(token@) =~= Set::<u32>::empty().insert(n));
            }
        } else {
            proof {
                assert(token_cpus(token@) =~= Set::<u32>::empty());
            }
        }
    }
}

/// Expands a cpuset string into the indices it denotes, in unspecified order
/// and possibly with repetitions.
fn expand_cpuset(cpuset_config: &str) -> (raw: Vec<u32>)
    ensures
        forall|x: u32| raw@.contains(x) <==> spec_cpuset(cpuset_config@).contains(x),
{
    let parts = split_str(cpuset_config, ',');
    let ghost toks = spec_split(cpuset_config@, ',');
    let mut raw: Vec<u32> = Vec::new();
    let mut k: usize = 0;
    while k < parts.len()
        invariant
            k <= parts@.len(),
            parts@.len() == toks.len(),
            forall|m: int| 0 <= m < toks.len() ==> parts@[m]@ == toks[m],
            forall|x: u32| raw@.contains(x) <==> tokens_cpus(toks.take(k as int)).contains(x),
        decreases parts@.len() - k,
    {
        let ghost done = tokens_cpus(toks.take(k as int));
        push_token_cpus(&mut raw, parts[k].as_str());
        proof {
            assert(toks.take(k + 1).drop_last() =~= toks.take(k as int));
            assert(toks.take(k + 1).last() == toks[k as int]);
            assert(tokens_cpus(toks.take(k + 1)) == done + token_cpus(toks[k as int]));
            assert(forall|x: u32|
                raw@.contains(x) <==> tokens_cpus(toks.take(k + 1)).contains(x));
        }
        k += 1;
    }
    proof {
        assert(toks.take(toks.len() as int) =~= toks);
    }
    raw
}

/// Parses a cpuset string into the set of CPU indices it denotes, per
/// [`spec_cpuset`].
pub fn parse_cpuset(cpuset_config: &str) -> (cpus: BTreeSet<u32>)
    ensures
        cpus@ == spec_cpuset(cpuset_config@),
{
    let raw = expand_cpuset(cpuset_config);
    let mut cpus: BTreeSet<u32> = BTreeSet::new();
    let mut k: usize = 0;
    while k < raw.len()
        invariant
            k <= raw@.len(),
            forall|x: u32| cpus@.contains(x) <==> raw@.take(k as int).contains(x),
            forall|x: u32| raw@.contains(x) <==> spec_cpuset(cpuset_config@).contains(x),
        decreases raw@.len() - k,
    {
        cpus.insert(raw[k]);
        proof {
            assert(forall|x: u32|
                raw@.take(k + 1).contains(x) <==> raw@.take(k as int).contains(x) || x == raw@[k as int])
                by {
                assert(raw@.take(k + 1).drop_last() =~= raw@.take(k as int));
                assert(raw@.take(k + 1).last() == raw@[k as int]);
                assert(forall|j: int| 0 <= j < k ==> raw@.take(k + 1)[j] == raw@.take(k as int)[j]);
                assert(raw@.take(k + 1)[k as int] == raw@[k as int]);
            }
        }
        k += 1;
    }
    proof {
        assert(raw@.take(raw@.len() as int) =~= raw@);
        assert(cpus@ =~= spec_cpuset(cpuset_config@));
    }
    cpus
}

/// Expands a cpuset string into a strictly ascending vector of the CPU
/// indices it denotes, per [`spec_cpuset`].
pub fn parse_cpuset_sorted(cpuset_config: &str) -> (cpus: Vec<u32>)
    ensures
        sorted_strict(cpus@),
        forall|x: u32| cpus@.contains(x) <==> spec_cpuset(cpuset_config@).contains(x),
{
    let raw = expand_cpuset(cpuset_config);
    let mut cpus: Vec<u32> = Vec::new();
    let mut k: usize = 0;
    while k < raw.len()
        invariant
            k <= raw@.len(),
            sorted_strict(cpus@),
            forall|x: u32| cpus@.contains(x) <==> raw@.take(k as int).contains(x),
            forall|x: u32| raw@.contains(x) <==> spec_cpuset(cpuset_config@).contains(x),
        decreases raw@.len() - k,
    {
        let ghost pre = cpus@;
        insert_sorted(&mut cpus, raw[k]);
        proof {
            assert(forall|x: u32| cpus@.contains(x) <==> pre.contains(x) || x == raw@[k as int]);
            assert(forall|x: u32|
                raw@.take(k + 1).contains(x) <==> raw@.take(k as int).contains(x) || x == raw@[k as int])
                by {
                assert(raw@.take(k + 1).drop_last() =~= raw@.take(k as int));
                assert(raw@.take(k + 1).last() == raw@[k as int]);
                assert(forall|j: int| 0 <= j < k ==> raw@.take(k + 1)[j] == raw@.take(k as int)[j]);
                assert(raw@.take(k + 1)[k as int] == raw@[k as int]);
            }
            assert(forall|x: u32| cpus@.contains(x) <==> raw@.take(k + 1).contains(x));
        }
        k += 1;
    }
    proof {
        assert(raw@.take(raw@.len() as int) =~= raw@);
    }
    cpus
}

/// Splitting distributes over a separator between two sequences.
proof fn lemma_split_concat(a: Seq<char>, b: Seq<char>)
    ensures
        spec_split(a + seq![','] + b, ',') == spec_split(a, ',') + spec_split(b, ','),
    decreases a.len(),
{
    if a.len() == 0 {
        assert((a + seq![','] + b).drop_first() =~= b);
        assert((a + seq![','] + b)[0] == ',');
        assert(spec_split(a + seq![','] + b, ',') =~~= seq![Seq::<char>::empty()] + spec_split(
            b,
            ',',
        ));
        assert(spec_split(a, ',') =~~= seq![Seq::<char>::empty()]);
    } else {
        let s = a + seq![','] + b;
        assert(s[0] == a[0]);
        assert(s.drop_first() =~= a.drop_first() + seq![','] + b);
        lemma_split_concat(a.drop_first(), b);
        let restc = spec_split(a.drop_first() + seq![','] + b, ',');
        let resta = spec_split(a.drop_first(), ',');
        let restb = spec_split(b, ',');
        lemma_split_len(a.drop_first(), ',');
        assert(restc == resta + restb);
        if a[0] == ',' {
            assert(spec_split(s, ',') =~~= seq![Seq::<char>::empty()] + restc);
            assert(spec_split(a, ',') =~~= seq![Seq::<char>::empty()] + resta);
            assert(spec_split(s, ',') =~~= spec_split(a, ',') + restb);
        } else {
            assert(restc[0] == resta[0]);
            assert(restc.drop_first() =~~= resta.drop_first() + restb);
            assert(spec_split(s, ',') =~~= seq![seq![a[0]] + resta[0]] + (resta.drop_first()
                + restb));
            assert(spec_split(a, ',') =~~= seq![seq![a[0]] + resta[0]] + resta.drop_first());
            assert(spec_split(s, ',') =~~= spec_split(a, ',') + restb);
        }
    }
}

/// The indices of concatenated token sequences are the union of each side's.
proof fn lemma_tokens_cpus_concat(xs: Seq<Seq<char>>, ys: Seq<Seq<char>>)
    ensures
        tokens_cpus(xs + ys) == tokens_cpus(xs) + tokens_cpus(ys),
    decreases ys.len(),
{
    if ys.len() == 0 {
        assert(xs + ys =~= xs);
        assert(tokens_cpus(xs) + Set::<u32>::empty() =~= tokens_cpus(xs));
    } else {
        assert((xs + ys).drop_last() =~= xs + ys.drop_last());
        assert((xs + ys).last() == ys.last());
        lemma_tokens_cpus_concat(xs, ys.drop_last());
        assert(tokens_cpus(xs + ys) =~= tokens_cpus(xs) + tokens_cpus(ys));
    }
}

/// Duplicate tokens collapse: a cpuset string repeated after a comma denotes
/// the same set as the string alone.
pub proof fn lemma_cpuset_duplicates_collapse(s: Seq<char>)
    ensures
        spec_cpuset(s + seq![','] + s) == spec_cpuset(s),
{
    lemma_split_concat(s, s);
    lemma_tokens_cpus_concat(spec_split(s, ','), spec_split(s, ','));
    assert(spec_cpuset(s + seq![','] + s) =~= spec_cpuset(s) + spec_cpuset(s));
    assert(spec_cpuset(s) + spec_cpuset(s) =~= spec_cpuset(s));
}

} // verus!
