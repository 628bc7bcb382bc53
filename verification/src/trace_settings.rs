//! Trace settings: the values users can set to tune tracing, and how they
//! are folded into the builtin trace policy.

use vstd::prelude::*;
use crate::text::{clone_strings, lemma_seq_lt_irreflexive, lemma_seq_lt_total, lemma_seq_lt_transitive, seq_lt, str_eq, str_lt, views};

verus! {

/// User trace settings (stored under the `trace` prefix of the settings store).
pub struct TraceSettings {
    pub enable_scopes: Vec<String>,
    pub disable_scopes: Vec<String>,
    pub disable_messages: Vec<String>,
    pub disable_targets: Vec<String>,
    pub dump_capacity: u64,
}

impl Default for TraceSettings {
    /// Nothing enabled or disabled, and a dump capacity of 64.
    fn default() -> (r: Self)
        ensures
            r.enable_scopes@.len() == 0,
            r.disable_scopes@.len() == 0,
            r.disable_messages@.len() == 0,
            r.disable_targets@.len() == 0,
            r.dump_capacity == 64,
    {
        TraceSettings {
            enable_scopes: Vec::new(),
            disable_scopes: Vec::new(),
            disable_messages: Vec::new(),
            disable_targets: Vec::new(),
            dump_capacity: 64,
        }
    }
}

/// The trace policy that the tracing layer enforces.
pub struct TracePolicy {
    pub enabled_prefixes: Vec<String>,
    pub disabled_prefixes: Vec<String>,
    pub disabled_message_prefixes: Vec<String>,
    pub disabled_target_prefixes: Vec<String>,
    pub dump_capacity: usize,
}

/// Every entry sorts strictly before every later entry: the list is sorted
/// and holds no value twice.
pub open spec fn strictly_sorted(s: Seq<Seq<char>>) -> bool {
    forall|i: int, j: int| 0 <= i < j < s.len() ==> #[trigger] seq_lt(s[i], s[j])
}

/// `x` is one of the values of `v`.
pub open spec fn holds(v: Seq<String>, x: Seq<char>) -> bool {
    exists|i: int| 0 <= i < v.len() && #[trigger] v[i]@ == x
}

/// The merge of two value lists: sorted, without duplicates, and holding
/// exactly the values that occur in either list.
pub open spec fn is_merge_of(r: Seq<String>, a: Seq<String>, b: Seq<String>) -> bool {
    &&& strictly_sorted(views(r))
    &&& forall|x: Seq<char>| holds(r, x) <==> (holds(a, x) || holds(b, x))
}

proof fn lemma_views_index(v: Seq<String>, i: int)
    requires
        0 <= i < v.len(),
    ensures
        views(v)[i] == v[i]@,
        views(v).len() == v.len(),
{
}

fn insert_sorted_unique(out: &mut Vec<String>, item: String)
    requires
        strictly_sorted(views(old(out)@)),
    ensures
        strictly_sorted(views(final(out)@)),
        forall|x: Seq<char>| holds(final(out)@, x) <==> (holds(old(out)@, x) || x == item@),
{
    let ghost old_v = out@;
    let mut k: usize = 0;
    loop
        invariant
            out@ == old_v,
            strictly_sorted(views(old_v)),
            k <= out.len(),
            forall|j: int| 0 <= j < k ==> seq_lt(#[trigger] out@[j]@, item@),
        ensures
            k <= out.len(),
            forall|j: int| 0 <= j < k ==> seq_lt(#[trigger] out@[j]@, item@),
            k < out.len() ==> !seq_lt(out@[k as int]@, item@),
        decreases out.len() - k,
    {
        if k >= out.len() {
            break;
        }
        if !str_lt(out[k].as_str(), item.as_str()) {
            break;
        }
        k = k + 1;
    }
    if k < out.len() && str_eq(out[k].as_str(), item.as_str()) {
        assert(holds(old_v, item@)) by {
            assert(old_v[k as int]@ == item@);
        }
        return;
    }
    proof {
        assert forall|j: int| k <= j < old_v.len() implies seq_lt(item@, #[trigger] old_v[j]@) by {
            lemma_seq_lt_total(old_v[k as int]@, item@);
            if j > k {
                lemma_views_index(old_v, k as int);
                lemma_views_index(old_v, j);
                assert(seq_lt(views(old_v)[k as int], views(old_v)[j]));
                lemma_seq_lt_transitive(item@, old_v[k as int]@, old_v[j]@);
            }
        }
    }
    out.insert(k, item);
    proof {
        let nv = out@;
        assert(nv == old_v.insert(k as int, item));
        assert forall|i: int, j: int| 0 <= i < j < views(nv).len() implies #[trigger] seq_lt(
            views(nv)[i],
            views(nv)[j],
        ) by {
            lemma_views_index(nv, i);
            lemma_views_index(nv, j);
            if j < k {
                lemma_views_index(old_v, i);
                lemma_views_index(old_v, j);
                assert(seq_lt(views(old_v)[i], views(old_v)[j]));
            } else if j == k {
            } else if i == k {
                assert(nv[j] == old_v[j - 1]);
            } else if i < k {
                assert(nv[j] == old_v[j - 1]);
                lemma_seq_lt_transitive(old_v[i]@, item@, old_v[j - 1]@);
            } else {
                lemma_views_index(old_v, i - 1);
                lemma_views_index(old_v, j - 1);
                assert(seq_lt(views(old_v)[i - 1], views(old_v)[j - 1]));
            }
        }
        assert forall|x: Seq<char>| holds(nv, x) <==> (holds(old_v, x) || x == item@) by {
            if holds(nv, x) {
                let i = choose|i: int| 0 <= i < nv.len() && #[trigger] nv[i]@ == x;
                if i < k {
                    assert(old_v[i]@ == x);
                } else if i > k {
                    assert(old_v[i - 1]@ == x);
                }
            }
            if holds(old_v, x) {
                let i = choose|i: int| 0 <= i < old_v.len() && #[trigger] old_v[i]@ == x;
                if i < k {
                    assert(nv[i]@ == x);
                } else {
                    assert(nv[i + 1]@ == x);
                }
            }
            if x == item@ {
                assert(nv[k as int]@ == x);
            }
        }
    }
}

/// Builtin values followed by the user's, sorted and without duplicates.
pub fn merge_trace_values(builtin: Vec<String>, user: Vec<String>) -> (r: Vec<String>)
    ensures
        is_merge_of(r@, builtin@, user@),
{
    let mut values: Vec<String> = Vec::new();
    let mut i: usize = 0;
    while i < builtin.len()
        invariant
            i <= builtin.len(),
            strictly_sorted(views(values@)),
            forall|x: Seq<char>| holds(values@, x) <==> holds(builtin@.take(i as int), x),
        decreases builtin.len() - i,
    {
        let item = builtin[i].clone();
        insert_sorted_unique(&mut values, item);
        proof {
            let t0 = builtin@.take(i as int);
            let t1 = builtin@.take(i + 1);
            assert forall|x: Seq<char>| holds(t1, x) <==> (holds(t0, x) || x == builtin@[i as int]@) by {
                if holds(t1, x) {
                    let j = choose|j: int| 0 <= j < t1.len() && #[trigger] t1[j]@ == x;
                    if j < i {
                        assert(t0[j]@ == x);
                    }
                }
                if holds(t0, x) {
                    let j = choose|j: int| 0 <= j < t0.len() && #[trigger] t0[j]@ == x;
                    assert(t1[j]@ == x);
                }
                if x == builtin@[i as int]@ {
                    assert(t1[i as int]@ == x);
                }
            }
        }
        i = i + 1;
    }
    assert(builtin@.take(builtin.len() as int) =~= builtin@);
    let mut k: usize = 0;
    while k < user.len()
        invariant
            k <= user.len(),
            strictly_sorted(views(values@)),
            forall|x: Seq<char>|
                holds(values@, x) <==> (holds(builtin@, x) || holds(user@.take(k as int), x)),
        decreases user.len() - k,
    {
        let item = user[k].clone();
        insert_sorted_unique(&mut values, item);
        proof {
            let t0 = user@.take(k as int);
            let t1 = user@.take(k + 1);
            assert forall|x: Seq<char>| holds(t1, x) <==> (holds(t0, x) || x == user@[k as int]@) by {
                if holds(t1, x) {
                    let j = choose|j: int| 0 <= j < t1.len() && #[trigger] t1[j]@ == x;
                    if j < k {
                        assert(t0[j]@ == x);
                    }
                }
                if holds(t0, x) {
                    let j = choose|j: int| 0 <= j < t0.len() && #[trigger] t0[j]@ == x;
                    assert(t1[j]@ == x);
                }
                if x == user@[k as int]@ {
                    assert(t1[k as int]@ == x);
                }
            }
        }
        k = k + 1;
    }
    assert(user@.take(user.len() as int) =~= user@);
    values
}


/// The policy that the user's settings make of the builtin one: enabled
/// scopes, disabled messages and disabled targets are merged with the
/// builtin lists; disabled scopes are the user's alone; the dump capacity
/// is the user's.
pub fn compose_trace_policy(builtin: TracePolicy, settings: &TraceSettings) -> (r: TracePolicy)
    ensures
        is_merge_of(r.enabled_prefixes@, builtin.enabled_prefixes@, settings.enable_scopes@),
        r.disabled_prefixes@ == settings.disable_scopes@,
        is_merge_of(
            r.disabled_message_prefixes@,
            builtin.disabled_message_prefixes@,
            settings.disable_messages@,
        ),
        is_merge_of(
            r.disabled_target_prefixes@,
            builtin.disabled_target_prefixes@,
            settings.disable_targets@,
        ),
        r.dump_capacity == settings.dump_capacity as usize,
{
    let enabled_prefixes = merge_trace_values(
        builtin.enabled_prefixes,
        clone_strings(&settings.enable_scopes),
    );
    let disabled_prefixes = clone_strings(&settings.disable_scopes);
    let disabled_message_prefixes = merge_trace_values(
        builtin.disabled_message_prefixes,
        clone_strings(&settings.disable_messages),
    );
    let disabled_target_prefixes = merge_trace_values(
        builtin.disabled_target_prefixes,
        clone_strings(&settings.disable_targets),
    );
    TracePolicy {
        enabled_prefixes,
        disabled_prefixes,
        disabled_message_prefixes,
        disabled_target_prefixes,
        dump_capacity: settings.dump_capacity as usize,
    }
}


proof fn lemma_sorted_same_values_equal(s: Seq<Seq<char>>, t: Seq<Seq<char>>)
    requires
        strictly_sorted(s),
        strictly_sorted(t),
        forall|x: Seq<char>| s.contains(x) <==> t.contains(x),
    ensures
        s == t,
    decreases s.len(),
{
    if s.len() == 0 {
        if t.len() > 0 {
            assert(t.contains(t[0]));
        }
        assert(s =~= t);
    } else {
        assert(s.contains(s[0]));
        assert(t.len() > 0);
        assert(t.contains(t[0]));
        let i = choose|i: int| 0 <= i < s.len() && s[i] == t[0];
        let j = choose|j: int| 0 <= j < t.len() && t[j] == s[0];
        if i > 0 && j > 0 {
            assert(seq_lt(s[0], s[i]));
            assert(seq_lt(t[0], t[j]));
            lemma_seq_lt_transitive(s[0], t[0], s[0]);
            lemma_seq_lt_irreflexive(s[0]);
        }
        assert(s[0] == t[0]) by {
            if i == 0 {
            } else {
                assert(j == 0);
            }
        }
        let s1 = s.drop_first();
        let t1 = t.drop_first();
        assert forall|x: Seq<char>| s1.contains(x) <==> t1.contains(x) by {
            if s1.contains(x) {
                let a = choose|a: int| 0 <= a < s1.len() && s1[a] == x;
                assert(seq_lt(s[0], s[a + 1]));
                assert(t.contains(x));
                let b = choose|b: int| 0 <= b < t.len() && t[b] == x;
                if b == 0 {
                    lemma_seq_lt_irreflexive(s[0]);
                }
                assert(t1[b - 1] == x);
            }
            if t1.contains(x) {
                let a = choose|a: int| 0 <= a < t1.len() && t1[a] == x;
                assert(seq_lt(t[0], t[a + 1]));
                assert(s.contains(x));
                let b = choose|b: int| 0 <= b < s.len() && s[b] == x;
                if b == 0 {
                    lemma_seq_lt_irreflexive(t[0]);
                }
                assert(s1[b - 1] == x);
            }
        }
        assert(strictly_sorted(s1)) by {
            assert forall|a: int, b: int| 0 <= a < b < s1.len() implies #[trigger] seq_lt(s1[a], s1[b]) by {
                assert(seq_lt(s[a + 1], s[b + 1]));
            }
        }
        assert(strictly_sorted(t1)) by {
            assert forall|a: int, b: int| 0 <= a < b < t1.len() implies #[trigger] seq_lt(t1[a], t1[b]) by {
                assert(seq_lt(t[a + 1], t[b + 1]));
            }
        }
        lemma_sorted_same_values_equal(s1, t1);
        assert(s =~= seq![s[0]] + s1);
        assert(t =~= seq![t[0]] + t1);
    }
}

proof fn lemma_holds_views(v: Seq<String>, x: Seq<char>)
    ensures
        holds(v, x) <==> views(v).contains(x),
{
    if holds(v, x) {
        let i = choose|i: int| 0 <= i < v.len() && #[trigger] v[i]@ == x;
        assert(views(v)[i] == x);
    }
    if views(v).contains(x) {
        let i = choose|i: int| 0 <= i < views(v).len() && views(v)[i] == x;
        assert(v[i]@ == x);
    }
}

/// A merged list of trace values depends only on which values were given:
/// two merges of lists holding the same values, in whatever order, with
/// whatever repetitions and split however between builtin and user values,
/// are the same list.
pub proof fn law_merge_depends_only_on_values(
    r1: Seq<String>,
    a1: Seq<String>,
    b1: Seq<String>,
    r2: Seq<String>,
    a2: Seq<String>,
    b2: Seq<String>,
)
    requires
        is_merge_of(r1, a1, b1),
        is_merge_of(r2, a2, b2),
        forall|x: Seq<char>| (holds(a1, x) || holds(b1, x)) <==> (holds(a2, x) || holds(b2, x)),
    ensures
        views(r1) == views(r2),
{
    assert forall|x: Seq<char>| views(r1).contains(x) <==> views(r2).contains(x) by {
        lemma_holds_views(r1, x);
        lemma_holds_views(r2, x);
    }
    lemma_sorted_same_values_equal(views(r1), views(r2));
}

/// Merging is symmetric: the builtin and user lists can trade places.
pub proof fn law_merge_symmetric(r1: Seq<String>, r2: Seq<String>, a: Seq<String>, b: Seq<String>)
    requires
        is_merge_of(r1, a, b),
        is_merge_of(r2, b, a),
    ensures
        views(r1) == views(r2),
{
    law_merge_depends_only_on_values(r1, a, b, r2, b, a);
}

/// Merging a merged list again, alone or with values it already holds,
/// changes nothing.
pub proof fn law_merge_idempotent(r: Seq<String>, a: Seq<String>, b: Seq<String>, r2: Seq<String>, extra: Seq<String>)
    requires
        is_merge_of(r, a, b),
        is_merge_of(r2, r, extra),
        forall|x: Seq<char>| holds(extra, x) ==> holds(r, x),
    ensures
        views(r2) == views(r),
{
    law_merge_depends_only_on_values(r2, r, extra, r, a, b);
}

} // verus!
