//! Which UI bindings an actor wires.
//!
//! An actor manifest marks some of its messages as bound. A bindings trait
//! declares callback methods `on_<message>`. Every bound message must have
//! its method in the trait (`on_` followed by the message name in snake
//! case); every method of the trait is wired to the bound message whose name
//! is the method's, without `on_`, in upper camel case. Methods left without
//! a message make the wiring partial, which is an error unless the manifest
//! allows partial wiring.

use vstd::prelude::*;
use vstd::string::*;
use crate::text::{position_of, strip_prefix_or_copy, strip_prefix_or_keep, views};
use crate::codegen::case::{snake_case, to_snake_case, to_upper_camel_case, upper_camel_case};

verus! {

/// A trait method wired to a bound message.
pub struct BindCall {
    pub method: String,
    pub message: String,
}

impl View for BindCall {
    type V = (Seq<char>, Seq<char>);

    open spec fn view(&self) -> (Seq<char>, Seq<char>) {
        (self.method@, self.message@)
    }
}

/// A trait method that no bound message wires, with the message name that
/// would wire it.
pub struct MissingBinding {
    pub method: String,
    pub expected_message: String,
}

impl View for MissingBinding {
    type V = (Seq<char>, Seq<char>);

    open spec fn view(&self) -> (Seq<char>, Seq<char>) {
        (self.method@, self.expected_message@)
    }
}

/// How an actor's bound messages wire a bindings trait.
pub struct BindingPlan {
    /// Wired methods, in the trait's method order.
    pub calls: Vec<BindCall>,
    /// Methods left unwired, in the trait's method order.
    pub missing: Vec<MissingBinding>,
    /// No method is left unwired.
    pub is_complete: bool,
}

/// Why an actor's bindings cannot be wired.
pub enum BindingError {
    /// `message` is bound but the trait has no method `expected_method`.
    UnknownMethod { message: String, expected_method: String },
    /// These methods are unwired and the manifest does not allow partial wiring.
    Incomplete { missing: Vec<MissingBinding> },
}

/// The outcome of wiring, by value.
pub enum BindingOutcome {
    Planned { calls: Seq<(Seq<char>, Seq<char>)>, missing: Seq<(Seq<char>, Seq<char>)> },
    UnknownMethod { message: Seq<char>, expected_method: Seq<char> },
    Incomplete { missing: Seq<(Seq<char>, Seq<char>)> },
}

/// The value of a wiring result.
pub open spec fn outcome_of(r: Result<BindingPlan, BindingError>) -> BindingOutcome {
    match r {
        Ok(p) => BindingOutcome::Planned {
            calls: p.calls@.map_values(|c: BindCall| c@),
            missing: p.missing@.map_values(|m: MissingBinding| m@),
        },
        Err(BindingError::UnknownMethod { message, expected_method }) => BindingOutcome::UnknownMethod {
            message: message@,
            expected_method: expected_method@,
        },
        Err(BindingError::Incomplete { missing }) => BindingOutcome::Incomplete {
            missing: missing@.map_values(|m: MissingBinding| m@),
        },
    }
}

/// The first position, from `i` on, of an expected method that the trait lacks.
pub open spec fn first_unknown_from(methods: Seq<Seq<char>>, expected: Seq<Seq<char>>, i: int) -> Option<int>
    decreases expected.len() - i,
{
    if i < 0 || i >= expected.len() {
        None
    } else if !methods.contains(expected[i]) {
        Some(i)
    } else {
        first_unknown_from(methods, expected, i + 1)
    }
}

/// Wired methods among the first `n` methods, with their messages.
pub open spec fn wired(methods: Seq<Seq<char>>, messages: Seq<Seq<char>>, bound: Seq<Seq<char>>, n: int) -> Seq<(Seq<char>, Seq<char>)>
    decreases n,
{
    if n <= 0 {
        Seq::empty()
    } else if bound.contains(messages[n - 1]) {
        wired(methods, messages, bound, n - 1).push((methods[n - 1], messages[n - 1]))
    } else {
        wired(methods, messages, bound, n - 1)
    }
}

/// Unwired methods among the first `n` methods, with the messages they lack.
pub open spec fn unwired(methods: Seq<Seq<char>>, messages: Seq<Seq<char>>, bound: Seq<Seq<char>>, n: int) -> Seq<(Seq<char>, Seq<char>)>
    decreases n,
{
    if n <= 0 {
        Seq::empty()
    } else if !bound.contains(messages[n - 1]) {
        unwired(methods, messages, bound, n - 1).push((methods[n - 1], messages[n - 1]))
    } else {
        unwired(methods, messages, bound, n - 1)
    }
}

/// The outcome of wiring the trait methods `methods` with the bound messages
/// `bound`, where `expected_methods[i]` is the method that `bound[i]` needs
/// and `messages[j]` is the message that wires `methods[j]`.
pub open spec fn binding_outcome(
    methods: Seq<Seq<char>>,
    bound: Seq<Seq<char>>,
    expected_methods: Seq<Seq<char>>,
    messages: Seq<Seq<char>>,
    partial_allowed: bool,
) -> BindingOutcome {
    match first_unknown_from(methods, expected_methods, 0) {
        Some(i) => BindingOutcome::UnknownMethod {
            message: bound[i],
            expected_method: expected_methods[i],
        },
        None => {
            let missing = unwired(methods, messages, bound, methods.len() as int);
            if missing.len() > 0 && !partial_allowed {
                BindingOutcome::Incomplete { missing }
            } else {
                BindingOutcome::Planned {
                    calls: wired(methods, messages, bound, methods.len() as int),
                    missing,
                }
            }
        },
    }
}

proof fn lemma_first_unknown_skip(methods: Seq<Seq<char>>, expected: Seq<Seq<char>>, i: int)
    requires
        0 <= i,
        forall|j: int| 0 <= j < i && j < expected.len() ==> methods.contains(expected[j]),
    ensures
        first_unknown_from(methods, expected, 0) == first_unknown_from(methods, expected, i),
    decreases i,
{
    if i > 0 {
        lemma_first_unknown_skip(methods, expected, i - 1);
        if i - 1 < expected.len() {
            assert(methods.contains(expected[i - 1]));
        }
    }
}

fn contains_name(v: &Vec<String>, name: &str) -> (r: bool)
    ensures
        r == views(v@).contains(name@),
{
    match position_of(v, name) {
        Some(i) => {
            assert(views(v@)[i as int] == name@);
            true
        },
        None => {
            assert forall|j: int| 0 <= j < views(v@).len() implies views(v@)[j] != name@ by {
                assert(views(v@)[j] == v@[j]@);
            }
            false
        },
    }
}

/// Wires the trait methods `methods` with the bound messages `bound`, given
/// the method each bound message needs (`expected_methods`, one per bound
/// message) and the message each method needs (`messages`, one per method).
pub fn plan_bindings(
    methods: &Vec<String>,
    bound: &Vec<String>,
    expected_methods: &Vec<String>,
    messages: &Vec<String>,
    partial_allowed: bool,
) -> (r: Result<BindingPlan, BindingError>)
    requires
        expected_methods.len() == bound.len(),
        messages.len() == methods.len(),
    ensures
        outcome_of(r) == binding_outcome(
            views(methods@),
            views(bound@),
            views(expected_methods@),
            views(messages@),
            partial_allowed,
        ),
        r matches Ok(p) ==> p.is_complete == (p.missing@.len() == 0),
{
    let ghost mv = views(methods@);
    let ghost bv = views(bound@);
    let ghost ev = views(expected_methods@);
    let ghost sv = views(messages@);
    let mut i: usize = 0;
    while i < bound.len()
        invariant
            i <= bound.len(),
            expected_methods.len() == bound.len(),
            mv == views(methods@),
            ev == views(expected_methods@),
            bv == views(bound@),
            forall|j: int| 0 <= j < i ==> mv.contains(#[trigger] ev[j]),
        decreases bound.len() - i,
    {
        if !contains_name(methods, expected_methods[i].as_str()) {
            proof {
                lemma_first_unknown_skip(mv, ev, i as int);
            }
            return Err(BindingError::UnknownMethod {
                message: bound[i].clone(),
                expected_method: expected_methods[i].clone(),
            });
        }
        i = i + 1;
    }
    proof {
        lemma_first_unknown_skip(mv, ev, i as int);
    }
    let mut calls: Vec<BindCall> = Vec::new();
    let mut missing: Vec<MissingBinding> = Vec::new();
    let mut j: usize = 0;
    while j < methods.len()
        invariant
            j <= methods.len(),
            messages.len() == methods.len(),
            mv == views(methods@),
            sv == views(messages@),
            bv == views(bound@),
            calls@.map_values(|c: BindCall| c@) == wired(mv, sv, bv, j as int),
            missing@.map_values(|m: MissingBinding| m@) == unwired(mv, sv, bv, j as int),
        decreases methods.len() - j,
    {
        let ghost before_calls = calls@;
        let ghost before_missing = missing@;
        if contains_name(bound, messages[j].as_str()) {
            calls.push(BindCall { method: methods[j].clone(), message: messages[j].clone() });
            assert(calls@.map_values(|c: BindCall| c@) =~= before_calls.map_values(
                |c: BindCall| c@,
            ).push((mv[j as int], sv[j as int])));
        } else {
            missing.push(
                MissingBinding { method: methods[j].clone(), expected_message: messages[j].clone() },
            );
            assert(missing@.map_values(|m: MissingBinding| m@) =~= before_missing.map_values(
                |m: MissingBinding| m@,
            ).push((mv[j as int], sv[j as int])));
        }
        j = j + 1;
    }
    if missing.len() > 0 && !partial_allowed {
        return Err(BindingError::Incomplete { missing });
    }
    let is_complete = missing.len() == 0;
    Ok(BindingPlan { calls, missing, is_complete })
}

/// The callback method a bound message needs: `on_` and the message name in
/// snake case.
pub open spec fn expected_method_of(message: Seq<char>) -> Seq<char> {
    "on_"@ + snake_case(message)
}

/// The message that wires a callback method: the method name without a
/// leading `on_`, in upper camel case.
pub open spec fn expected_message_of(method: Seq<char>) -> Seq<char> {
    upper_camel_case(strip_prefix_or_keep(method, "on_"@))
}

/// Callback method that the bound message `message` needs.
pub fn expected_method_name(message: &str) -> (r: String)
    ensures
        r@ == expected_method_of(message@),
{
    let mut r = String::from_str("on_");
    let snake = to_snake_case(message);
    r.append(snake.as_str());
    r
}

/// Message that wires the callback method `method`.
pub fn expected_message_name(method: &str) -> (r: String)
    ensures
        r@ == expected_message_of(method@),
{
    let stem = strip_prefix_or_copy(method, "on_");
    to_upper_camel_case(stem.as_str())
}

/// Wires the bindings trait whose callback methods are `methods` with the
/// actor's bound messages `bound`; `partial_allowed` is the manifest's
/// `ui_bind_partial` flag.
pub fn check_bindings(methods: &Vec<String>, bound: &Vec<String>, partial_allowed: bool) -> (r: Result<
    BindingPlan,
    BindingError,
>)
    ensures
        outcome_of(r) == binding_outcome(
            views(methods@),
            views(bound@),
            Seq::new(bound@.len(), |i: int| expected_method_of(bound@[i]@)),
            Seq::new(methods@.len(), |j: int| expected_message_of(methods@[j]@)),
            partial_allowed,
        ),
        r matches Ok(p) ==> p.is_complete == (p.missing@.len() == 0),
{
    let mut expected_methods: Vec<String> = Vec::new();
    let mut i: usize = 0;
    while i < bound.len()
        invariant
            i <= bound.len(),
            expected_methods@.len() == i,
            forall|k: int| 0 <= k < i ==> #[trigger] expected_methods@[k]@ == expected_method_of(bound@[k]@),
        decreases bound.len() - i,
    {
        expected_methods.push(expected_method_name(bound[i].as_str()));
        i = i + 1;
    }
    let mut messages: Vec<String> = Vec::new();
    let mut j: usize = 0;
    while j < methods.len()
        invariant
            j <= methods.len(),
            messages@.len() == j,
            forall|k: int| 0 <= k < j ==> #[trigger] messages@[k]@ == expected_message_of(methods@[k]@),
        decreases methods.len() - j,
    {
        messages.push(expected_message_name(methods[j].as_str()));
        j = j + 1;
    }
    assert(views(expected_methods@) =~= Seq::new(bound@.len(), |i: int| expected_method_of(bound@[i]@)));
    assert(views(messages@) =~= Seq::new(methods@.len(), |j: int| expected_message_of(methods@[j]@)));
    plan_bindings(methods, bound, &expected_methods, &messages, partial_allowed)
}


proof fn lemma_no_unknown_from(methods: Seq<Seq<char>>, expected: Seq<Seq<char>>, i: int)
    requires
        0 <= i,
        forall|k: int| 0 <= k < expected.len() ==> methods.contains(#[trigger] expected[k]),
    ensures
        first_unknown_from(methods, expected, i) is None,
    decreases expected.len() - i,
{
    if i < expected.len() {
        lemma_no_unknown_from(methods, expected, i + 1);
    }
}

proof fn lemma_all_wired(methods: Seq<Seq<char>>, messages: Seq<Seq<char>>, bound: Seq<Seq<char>>, n: int)
    requires
        0 <= n <= methods.len(),
        messages.len() == methods.len(),
        forall|j: int| 0 <= j < messages.len() ==> bound.contains(#[trigger] messages[j]),
    ensures
        wired(methods, messages, bound, n) == Seq::new(n as nat, |j: int| (methods[j], messages[j])),
        unwired(methods, messages, bound, n) == Seq::<(Seq<char>, Seq<char>)>::empty(),
    decreases n,
{
    if n > 0 {
        lemma_all_wired(methods, messages, bound, n - 1);
        assert(bound.contains(messages[n - 1]));
        assert(wired(methods, messages, bound, n) =~= Seq::new(n as nat, |j: int| (methods[j], messages[j])));
    }
}

/// When every bound message has its method in the trait and every trait
/// method has its message bound, the wiring succeeds, wires every method in
/// the trait's order, and leaves none out (whether or not partial wiring is
/// allowed).
pub proof fn law_full_coverage_wires_every_method(
    methods: Seq<Seq<char>>,
    bound: Seq<Seq<char>>,
    expected_methods: Seq<Seq<char>>,
    messages: Seq<Seq<char>>,
    partial_allowed: bool,
)
    requires
        messages.len() == methods.len(),
        forall|i: int| 0 <= i < expected_methods.len() ==> methods.contains(#[trigger] expected_methods[i]),
        forall|j: int| 0 <= j < messages.len() ==> bound.contains(#[trigger] messages[j]),
    ensures
        binding_outcome(methods, bound, expected_methods, messages, partial_allowed) == (BindingOutcome::Planned {
            calls: Seq::new(methods.len(), |j: int| (methods[j], messages[j])),
            missing: Seq::empty(),
        }),
{
    lemma_no_unknown_from(methods, expected_methods, 0);
    lemma_all_wired(methods, messages, bound, methods.len() as int);
}

/// Allowing partial wiring never turns a wiring into an incomplete one: with
/// `ui_bind_partial` the only refusal left is a bound message without its
/// method.
pub proof fn law_partial_wiring_is_never_incomplete(
    methods: Seq<Seq<char>>,
    bound: Seq<Seq<char>>,
    expected_methods: Seq<Seq<char>>,
    messages: Seq<Seq<char>>,
)
    ensures
        !(binding_outcome(methods, bound, expected_methods, messages, true) is Incomplete),
{
}

} // verus!
