//! The typestate binders generated for a bindings trait.
//!
//! A binder for a trait with `n` callback methods carries one state slot per
//! method. It starts with every slot empty; binding method `i` is only
//! available while slot `i` is empty and marks it done; `build` is only
//! available once every slot is done. Hence a binder builds exactly when
//! every method has been bound once.

use vstd::prelude::*;

verus! {

/// One state slot of a binder's type.
pub enum StateSlot {
    /// The slot keeps whatever state it has (the method's own type parameter).
    Param(usize),
    /// The method is not bound yet.
    Empty,
    /// The method is bound.
    Done,
}

/// Slots of the binder type on which method `i` of `n` is available.
pub open spec fn slots_before(n: nat, i: int) -> Seq<StateSlot> {
    Seq::new(n, |j: int| if j == i { StateSlot::Empty } else { StateSlot::Param(j as usize) })
}

/// Slots of the binder type that binding method `i` of `n` produces.
pub open spec fn slots_after(n: nat, i: int) -> Seq<StateSlot> {
    Seq::new(n, |j: int| if j == i { StateSlot::Done } else { StateSlot::Param(j as usize) })
}

/// Slots of a binder with `n` methods, all filled with `slot`.
pub open spec fn uniform_slots(n: nat, slot: StateSlot) -> Seq<StateSlot> {
    Seq::new(n, |j: int| slot)
}

fn slots(n: usize, i: usize, at_i: StateSlot) -> (r: Vec<StateSlot>)
    ensures
        r@ == Seq::new(n as nat, |j: int| if j == i { at_i } else { StateSlot::Param(j as usize) }),
{
    let mut r: Vec<StateSlot> = Vec::new();
    let mut j: usize = 0;
    while j < n
        invariant
            j <= n,
            r@ == Seq::new(j as nat, |k: int| if k == i { at_i } else { StateSlot::Param(k as usize) }),
        decreases n - j,
    {
        let s = if j == i {
            match at_i {
                StateSlot::Param(p) => StateSlot::Param(p),
                StateSlot::Empty => StateSlot::Empty,
                StateSlot::Done => StateSlot::Done,
            }
        } else {
            StateSlot::Param(j)
        };
        r.push(s);
        j = j + 1;
        assert(r@ =~= Seq::new(j as nat, |k: int| if k == i { at_i } else { StateSlot::Param(k as usize) }));
    }
    r
}

/// The slots on which method `i` of a binder with `n` methods is available,
/// and the slots it produces.
pub fn binder_transition(n: usize, i: usize) -> (r: (Vec<StateSlot>, Vec<StateSlot>))
    requires
        i < n,
    ensures
        r.0@ == slots_before(n as nat, i as int),
        r.1@ == slots_after(n as nat, i as int),
{
    (slots(n, i, StateSlot::Empty), slots(n, i, StateSlot::Done))
}

fn filled(n: usize, done: bool) -> (r: Vec<StateSlot>)
    ensures
        r@ == uniform_slots(n as nat, if done { StateSlot::Done } else { StateSlot::Empty }),
{
    let mut r: Vec<StateSlot> = Vec::new();
    let mut j: usize = 0;
    while j < n
        invariant
            j <= n,
            r@ == uniform_slots(j as nat, if done { StateSlot::Done } else { StateSlot::Empty }),
        decreases n - j,
    {
        r.push(if done { StateSlot::Done } else { StateSlot::Empty });
        j = j + 1;
        assert(r@ =~= uniform_slots(j as nat, if done { StateSlot::Done } else { StateSlot::Empty }));
    }
    r
}

/// Slots of a freshly created binder with `n` methods: all empty.
pub fn binder_start(n: usize) -> (r: Vec<StateSlot>)
    ensures
        r@ == uniform_slots(n as nat, StateSlot::Empty),
{
    filled(n, false)
}

/// Slots on which `build` is available for a binder with `n` methods: all done.
pub fn binder_complete(n: usize) -> (r: Vec<StateSlot>)
    ensures
        r@ == uniform_slots(n as nat, StateSlot::Done),
{
    filled(n, true)
}

/// Where a binding method's handler types come from: one bound of its
/// `where` clause.
pub struct HandlerBound {
    /// The bound is `Fn`, `FnMut` or `FnOnce`.
    pub is_fn_trait: bool,
    /// Number of inputs when the bound is written with parentheses.
    pub inputs: Option<usize>,
}

/// Number of handler arguments of a binding method: the input count of the
/// first parenthesized `Fn`-family bound among `bounds`, or zero.
pub open spec fn handler_arity_of(bounds: Seq<HandlerBound>, i: int) -> usize
    decreases bounds.len() - i,
{
    if i < 0 || i >= bounds.len() {
        0
    } else if bounds[i].is_fn_trait && bounds[i].inputs is Some {
        bounds[i].inputs->0
    } else {
        handler_arity_of(bounds, i + 1)
    }
}

/// Position, from `i` on, of the first parenthesized `Fn`-family bound among
/// `bounds`: the one the handler's argument types are read from.
pub open spec fn handler_bound_of(bounds: Seq<HandlerBound>, i: int) -> Option<int>
    decreases bounds.len() - i,
{
    if i < 0 || i >= bounds.len() {
        None
    } else if bounds[i].is_fn_trait && bounds[i].inputs is Some {
        Some(i)
    } else {
        handler_bound_of(bounds, i + 1)
    }
}

/// Position of the bound of a binding method's `where` clause (`bounds`, in
/// order) that gives its handler's argument types, if any.
pub fn handler_bound(bounds: &Vec<HandlerBound>) -> (r: Option<usize>)
    ensures
        r == (match handler_bound_of(bounds@, 0) {
            Some(i) => Some(i as usize),
            None => None,
        }),
{
    let mut i: usize = 0;
    while i < bounds.len()
        invariant
            i <= bounds.len(),
            handler_bound_of(bounds@, 0) == handler_bound_of(bounds@, i as int),
        decreases bounds.len() - i,
    {
        if bounds[i].is_fn_trait && bounds[i].inputs.is_some() {
            return Some(i);
        }
        i = i + 1;
    }
    None
}

/// The handler's arity is the number of inputs of the bound its argument
/// types are read from, and zero when there is no such bound.
pub proof fn law_handler_arity_from_its_bound(bounds: Seq<HandlerBound>, i: int)
    requires
        0 <= i,
    ensures
        handler_arity_of(bounds, i) == (match handler_bound_of(bounds, i) {
            Some(j) => bounds[j].inputs->0,
            None => 0usize,
        }),
    decreases bounds.len() - i,
{
    if i < bounds.len() && !(bounds[i].is_fn_trait && bounds[i].inputs is Some) {
        law_handler_arity_from_its_bound(bounds, i + 1);
    }
}

/// Handler arity of a binding method whose `where` clause has `bounds`, in order.
pub fn handler_arity(bounds: &Vec<HandlerBound>) -> (r: usize)
    ensures
        r == handler_arity_of(bounds@, 0),
{
    let mut i: usize = 0;
    while i < bounds.len()
        invariant
            i <= bounds.len(),
            handler_arity_of(bounds@, 0) == handler_arity_of(bounds@, i as int),
        decreases bounds.len() - i,
    {
        if bounds[i].is_fn_trait {
            match bounds[i].inputs {
                Some(n) => {
                    return n;
                },
                None => {},
            }
        }
        i = i + 1;
    }
    0
}


/// Binding method `i` on a binder whose slots hold `s`: available when slot
/// `i` is empty (the pattern of `slots_before`), and marks it done (the
/// pattern of `slots_after`).
pub open spec fn bind_method(s: Seq<StateSlot>, i: int) -> Option<Seq<StateSlot>> {
    if 0 <= i < s.len() && s[i] is Empty {
        Some(s.update(i, StateSlot::Done))
    } else {
        None
    }
}

/// Binding the methods `calls`, in order; `None` when one of them is not
/// available at its turn (the program would not type-check).
pub open spec fn bind_methods(s: Seq<StateSlot>, calls: Seq<int>) -> Option<Seq<StateSlot>>
    decreases calls.len(),
{
    if calls.len() == 0 {
        Some(s)
    } else {
        match bind_method(s, calls[0]) {
            Some(t) => bind_methods(t, calls.drop_first()),
            None => None,
        }
    }
}

/// `build` is available: every slot is done.
pub open spec fn can_build(s: Seq<StateSlot>) -> bool {
    forall|j: int| 0 <= j < s.len() ==> #[trigger] s[j] is Done
}

/// A fresh binder with `n` methods, after binding `calls`, can build.
pub open spec fn builds(n: nat, calls: Seq<int>) -> bool {
    match bind_methods(uniform_slots(n, StateSlot::Empty), calls) {
        Some(t) => can_build(t),
        None => false,
    }
}

/// `calls` names each of the `n` methods exactly once.
pub open spec fn binds_each_once(calls: Seq<int>, n: nat) -> bool {
    &&& calls.len() == n
    &&& calls.no_duplicates()
    &&& forall|k: int| 0 <= k < calls.len() ==> 0 <= #[trigger] calls[k] < n
}

proof fn lemma_bind_methods(s: Seq<StateSlot>, calls: Seq<int>)
    requires
        forall|j: int| 0 <= j < s.len() ==> (#[trigger] s[j] is Empty || s[j] is Done),
    ensures
        bind_methods(s, calls) is Some <==> (calls.no_duplicates() && forall|k: int|
            0 <= k < calls.len() ==> 0 <= #[trigger] calls[k] < s.len() && s[calls[k]] is Empty),
        bind_methods(s, calls) matches Some(t) ==> t.len() == s.len() && forall|j: int|
            0 <= j < s.len() ==> (#[trigger] t[j] is Done <==> (s[j] is Done || calls.contains(j))),
    decreases calls.len(),
{
    if calls.len() > 0 {
        let c = calls[0];
        let rest = calls.drop_first();
        if 0 <= c < s.len() && s[c] is Empty {
            let t0 = s.update(c, StateSlot::Done);
            assert forall|j: int| 0 <= j < t0.len() implies (#[trigger] t0[j] is Empty || t0[j] is Done) by {
                if j != c {
                    assert(s[j] is Empty || s[j] is Done);
                }
            }
            lemma_bind_methods(t0, rest);
            let good = calls.no_duplicates() && forall|k: int|
                0 <= k < calls.len() ==> 0 <= #[trigger] calls[k] < s.len() && s[calls[k]] is Empty;
            let good_rest = rest.no_duplicates() && forall|k: int|
                0 <= k < rest.len() ==> 0 <= #[trigger] rest[k] < t0.len() && t0[rest[k]] is Empty;
            if good {
                assert forall|k: int| 0 <= k < rest.len() implies 0 <= #[trigger] rest[k] < t0.len()
                    && t0[rest[k]] is Empty by {
                    assert(rest[k] == calls[k + 1]);
                    assert(calls[0] != calls[k + 1]);
                }
                assert(rest.no_duplicates()) by {
                    assert forall|a: int, b: int| 0 <= a < rest.len() && 0 <= b < rest.len() && a != b
                        implies rest[a] != rest[b] by {
                        assert(calls[a + 1] != calls[b + 1]);
                    }
                }
            }
            if good_rest {
                assert forall|k: int| 0 <= k < calls.len() implies 0 <= #[trigger] calls[k] < s.len()
                    && s[calls[k]] is Empty by {
                    if k > 0 {
                        assert(calls[k] == rest[k - 1]);
                    }
                }
                assert(calls.no_duplicates()) by {
                    assert forall|a: int, b: int| 0 <= a < calls.len() && 0 <= b < calls.len() && a != b
                        implies calls[a] != calls[b] by {
                        if a > 0 && b > 0 {
                            assert(rest[a - 1] != rest[b - 1]);
                        } else if a == 0 {
                            assert(t0[rest[b - 1]] is Empty);
                        } else {
                            assert(t0[rest[a - 1]] is Empty);
                        }
                    }
                }
            }
            if bind_methods(s, calls) is Some {
                let t = bind_methods(t0, rest)->0;
                assert forall|j: int| 0 <= j < s.len() implies (#[trigger] t[j] is Done <==> (s[j] is Done
                    || calls.contains(j))) by {
                    if rest.contains(j) {
                        let k = choose|k: int| 0 <= k < rest.len() && rest[k] == j;
                        assert(calls[k + 1] == j);
                    }
                    if calls.contains(j) && j != c {
                        let k = choose|k: int| 0 <= k < calls.len() && calls[k] == j;
                        assert(rest[k - 1] == j);
                    }
                    if j == c {
                        assert(calls[0] == j);
                    }
                }
            }
        } else {
            if calls.no_duplicates() && forall|k: int|
                0 <= k < calls.len() ==> 0 <= #[trigger] calls[k] < s.len() && s[calls[k]] is Empty {
                assert(0 <= calls[0] < s.len() && s[calls[0]] is Empty);
            }
        }
    }
}

/// A binder builds exactly when each of its methods has been bound once: a
/// fresh binder with `n` methods, after binding the methods `calls` in
/// order, type-checks and can build if and only if `calls` names each of the
/// `n` methods exactly once.
pub proof fn law_binder_builds_iff_each_method_bound_once(n: nat, calls: Seq<int>)
    ensures
        builds(n, calls) <==> binds_each_once(calls, n),
{
    let s = uniform_slots(n, StateSlot::Empty);
    lemma_bind_methods(s, calls);
    let range = vstd::set_lib::set_int_range(0, n as int);
    vstd::set_lib::lemma_int_range(0, n as int);
    if builds(n, calls) {
        let t = bind_methods(s, calls)->0;
        assert(calls.to_set() =~= range) by {
            assert forall|j: int| range.contains(j) implies calls.to_set().contains(j) by {
                assert(t[j] is Done);
            }
        }
        calls.unique_seq_to_set();
    }
    if binds_each_once(calls, n) {
        calls.unique_seq_to_set();
        assert(calls.to_set().subset_of(range));
        vstd::set_lib::lemma_subset_equality(calls.to_set(), range);
        let t = bind_methods(s, calls)->0;
        assert forall|j: int| 0 <= j < t.len() implies #[trigger] t[j] is Done by {
            assert(range.contains(j));
            assert(calls.to_set().contains(j));
        }
    }
}

} // verus!
