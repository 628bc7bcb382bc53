//! Which signatures feature functions and message handlers may have.

use vstd::prelude::*;
use crate::text::str_eq;
use crate::codegen::case::{to_upper_camel_case, upper_camel_case};

verus! {

/// An argument of a feature function, as far as the generators look at it.
pub enum FeatureArg {
    /// A `self` receiver.
    Receiver,
    /// A typed argument; `ident` is its name when its pattern is a plain
    /// identifier.
    Typed { ident: Option<String> },
}

/// The argument `a` is a typed argument named `name`.
pub open spec fn arg_named(a: FeatureArg, name: Seq<char>) -> bool {
    a matches FeatureArg::Typed { ident: Some(id) } && id@ == name
}

/// The argument `a` is a typed argument with a plain name other than `params`.
pub open spec fn is_port_arg(a: FeatureArg) -> bool {
    a matches FeatureArg::Typed { ident: Some(id) } && id@ != "params"@
}

/// Why an app feature function's signature is refused (the generator stops
/// with an error on such a function).
pub enum AppFeatureArgError {
    /// The argument after the context is named, and not `params`.
    NotParams,
    /// The function has more than a context and `params`.
    TooManyArgs,
}

/// The refusal, if any, of an app feature function with arguments `args`:
/// a named second argument other than `params` is refused first, then any
/// third argument.
pub open spec fn app_feature_refusal_of(args: Seq<FeatureArg>) -> Option<AppFeatureArgError> {
    if args.len() >= 2 && is_port_arg(args[1]) {
        Some(AppFeatureArgError::NotParams)
    } else if args.len() > 2 {
        Some(AppFeatureArgError::TooManyArgs)
    } else {
        None
    }
}

/// Tells whether the generator refuses an app feature function with
/// arguments `args` (the context first), and why.
pub fn app_feature_refusal(args: &Vec<FeatureArg>) -> (r: Option<AppFeatureArgError>)
    ensures
        r == app_feature_refusal_of(args@),
{
    if args.len() >= 2 {
        match &args[1] {
            FeatureArg::Typed { ident: Some(id) } => {
                if !str_eq(id.as_str(), "params") {
                    return Some(AppFeatureArgError::NotParams);
                }
            },
            _ => {},
        }
    }
    if args.len() > 2 {
        return Some(AppFeatureArgError::TooManyArgs);
    }
    None
}

/// Whether an app feature function with arguments `args` (the context
/// first) takes `params`: it does exactly when its second argument is named
/// `params`. A function the generator refuses is not handled here.
pub fn app_feature_has_params(args: &Vec<FeatureArg>) -> (r: bool)
    requires
        app_feature_refusal_of(args@) is None,
    ensures
        r == (args@.len() == 2 && arg_named(args@[1], "params"@)),
{
    if args.len() == 2 {
        match &args[1] {
            FeatureArg::Typed { ident: Some(id) } => str_eq(id.as_str(), "params"),
            _ => false,
        }
    } else {
        false
    }
}

/// How a window feature function's arguments are supplied.
pub struct WindowFeaturePlan {
    /// Position of the `params` argument (the last one so named), if any.
    pub params: Option<usize>,
    /// Positions of the port arguments, in order; the port at `ports[k]` is
    /// built by the feature's `k + 1`-th port factory.
    pub ports: Vec<usize>,
}

/// The last position from 1 on, below `n`, of an argument named `params`.
pub open spec fn last_params_below(args: Seq<FeatureArg>, n: int) -> Option<usize>
    decreases n,
{
    if n <= 1 {
        None
    } else if arg_named(args[n - 1], "params"@) {
        Some((n - 1) as usize)
    } else {
        last_params_below(args, n - 1)
    }
}

/// The positions from 1 on, below `n`, of port arguments.
pub open spec fn ports_below(args: Seq<FeatureArg>, n: int) -> Seq<usize>
    decreases n,
{
    if n <= 1 {
        Seq::empty()
    } else if is_port_arg(args[n - 1]) {
        ports_below(args, n - 1).push((n - 1) as usize)
    } else {
        ports_below(args, n - 1)
    }
}

/// Sorts out the arguments `args` of a window feature function (the context
/// first): the argument named `params` is passed from the feature's
/// parameters, every other plainly named argument is a port.
pub fn window_feature_plan(args: &Vec<FeatureArg>) -> (r: WindowFeaturePlan)
    ensures
        r.params == last_params_below(args@, args@.len() as int),
        r.ports@ == ports_below(args@, args@.len() as int),
{
    let mut params: Option<usize> = None;
    let mut ports: Vec<usize> = Vec::new();
    let mut i: usize = 1;
    if args.len() == 0 {
        return WindowFeaturePlan { params, ports };
    }
    while i < args.len()
        invariant
            1 <= i <= args.len(),
            params == last_params_below(args@, i as int),
            ports@ == ports_below(args@, i as int),
        decreases args.len() - i,
    {
        match &args[i] {
            FeatureArg::Typed { ident: Some(id) } => {
                if str_eq(id.as_str(), "params") {
                    params = Some(i);
                } else {
                    ports.push(i);
                }
            },
            _ => {},
        }
        i = i + 1;
    }
    WindowFeaturePlan { params, ports }
}

/// Name of the struct generated for the feature function `fn_name`: the
/// function name in upper camel case.
pub fn feature_struct_name(fn_name: &str) -> (r: String)
    ensures
        r@ == upper_camel_case(fn_name@),
{
    to_upper_camel_case(fn_name)
}

/// The form of a message handler.
pub enum HandlerForm {
    /// Runs on the actor: `(actor: &mut A, msg: M)`, with a third
    /// `ctx: &Context<A>` argument when `with_ctx`.
    Sync { with_ctx: bool },
    /// Runs as a task: `(ctx: AsyncContext<A>, msg: M)`.
    Async,
}

/// Why a handler's signature is refused.
pub enum HandlerSignatureError {
    /// No first argument.
    MissingActor,
    /// The first argument is not `&mut Actor` (or `AsyncContext<Actor>` for
    /// an async handler).
    BadActor,
    /// No second argument.
    MissingMessage,
    /// The second argument is not a typed argument.
    BadMessage,
    /// A sync handler with other than two or three arguments.
    SyncArity,
    /// An async handler with other than two arguments.
    AsyncArity,
}

/// Checks a handler with `n_inputs` arguments: `actor_ok` when its first
/// argument has the actor form that `is_async` asks for, `message_typed`
/// when its second argument is a typed argument. The checks run in that
/// order, then the argument count.
pub fn check_handler_signature(is_async: bool, n_inputs: usize, actor_ok: bool, message_typed: bool) -> (r:
    Result<HandlerForm, HandlerSignatureError>)
    ensures
        n_inputs == 0 ==> r matches Err(HandlerSignatureError::MissingActor),
        n_inputs >= 1 && !actor_ok ==> r matches Err(HandlerSignatureError::BadActor),
        n_inputs == 1 && actor_ok ==> r matches Err(HandlerSignatureError::MissingMessage),
        n_inputs >= 2 && actor_ok && !message_typed ==> r matches Err(
            HandlerSignatureError::BadMessage,
        ),
        n_inputs >= 2 && actor_ok && message_typed && is_async ==> (if n_inputs == 2 {
            r matches Ok(HandlerForm::Async)
        } else {
            r matches Err(HandlerSignatureError::AsyncArity)
        }),
        n_inputs >= 2 && actor_ok && message_typed && !is_async ==> (if n_inputs <= 3 {
            r == Ok::<HandlerForm, HandlerSignatureError>(HandlerForm::Sync { with_ctx: n_inputs == 3 })
        } else {
            r matches Err(HandlerSignatureError::SyncArity)
        }),
{
    if n_inputs == 0 {
        return Err(HandlerSignatureError::MissingActor);
    }
    if !actor_ok {
        return Err(HandlerSignatureError::BadActor);
    }
    if n_inputs == 1 {
        return Err(HandlerSignatureError::MissingMessage);
    }
    if !message_typed {
        return Err(HandlerSignatureError::BadMessage);
    }
    if is_async {
        if n_inputs != 2 {
            Err(HandlerSignatureError::AsyncArity)
        } else {
            Ok(HandlerForm::Async)
        }
    } else {
        if n_inputs > 3 {
            Err(HandlerSignatureError::SyncArity)
        } else {
            Ok(HandlerForm::Sync { with_ctx: n_inputs == 3 })
        }
    }
}

/// The `params` of a window feature is its last argument after the context
/// named `params`, and there is none when no such argument is named so.
pub proof fn law_window_params_is_last_params(args: Seq<FeatureArg>, n: int)
    requires
        0 <= n <= args.len(),
        args.len() <= usize::MAX,
    ensures
        last_params_below(args, n) matches Some(i) ==> 1 <= i < n && arg_named(args[i as int], "params"@)
            && forall|j: int| i < j < n ==> !arg_named(#[trigger] args[j], "params"@),
        last_params_below(args, n) is None ==> forall|j: int| 1 <= j < n ==> !arg_named(#[trigger] args[j], "params"@),
    decreases n,
{
    if n > 1 {
        law_window_params_is_last_params(args, n - 1);
    }
}

/// The ports of a window feature are exactly its arguments after the
/// context that have a plain name other than `params`, in order.
pub proof fn law_window_ports_are_named_arguments(args: Seq<FeatureArg>, n: int)
    requires
        0 <= n <= args.len(),
        args.len() <= usize::MAX,
    ensures
        forall|u: usize|
            1 <= u < n ==> (#[trigger] ports_below(args, n).contains(u) <==> is_port_arg(args[u as int])),
        !ports_below(args, n).contains(0usize),
        forall|a: int, b: int| 0 <= a < b < ports_below(args, n).len() ==> ports_below(args, n)[a] < ports_below(args, n)[b],
        forall|a: int| 0 <= a < ports_below(args, n).len() ==> 1 <= #[trigger] ports_below(args, n)[a] < n,
    decreases n,
{
    if n > 1 {
        law_window_ports_are_named_arguments(args, n - 1);
        let prev = ports_below(args, n - 1);
        let cur = ports_below(args, n);
        let added = is_port_arg(args[n - 1]);
        if added {
            assert(cur == prev.push((n - 1) as usize));
        } else {
            assert(cur == prev);
        }
        assert forall|u: usize| 1 <= u < n implies (#[trigger] cur.contains(u) <==> is_port_arg(args[u as int])) by {
            if (u as int) < n - 1 {
                if prev.contains(u) {
                    let p = choose|p: int| 0 <= p < prev.len() && prev[p] == u;
                    assert(cur[p] == prev[p]);
                }
                if cur.contains(u) {
                    let p = choose|p: int| 0 <= p < cur.len() && cur[p] == u;
                    if p < prev.len() {
                        assert(prev[p] == cur[p]);
                        assert(prev.contains(u));
                    } else {
                        assert(cur[p] == (n - 1) as usize);
                    }
                }
            } else {
                assert(u as int == n - 1);
                if added {
                    assert(cur[cur.len() - 1] == u);
                    assert(cur.contains(u));
                } else if cur.contains(u) {
                    let p = choose|p: int| 0 <= p < cur.len() && cur[p] == u;
                    assert(prev[p] == cur[p]);
                    assert(prev[p] < n - 1);
                }
            }
        }
        if cur.contains(0usize) {
            let p = choose|p: int| 0 <= p < cur.len() && cur[p] == 0usize;
            if p < prev.len() {
                assert(prev[p] == cur[p]);
                assert(prev.contains(0usize));
            }
        }
        assert forall|a: int, b: int| 0 <= a < b < cur.len() implies cur[a] < cur[b] by {
            if b < prev.len() {
                assert(cur[a] == prev[a] && cur[b] == prev[b]);
            } else {
                assert(added);
                assert(cur[b] == (n - 1) as usize);
                assert(cur[a] == prev[a]);
                assert(prev[a] < n - 1);
            }
        }
        assert forall|a: int| 0 <= a < cur.len() implies 1 <= #[trigger] cur[a] < n by {
            if a < prev.len() {
                assert(cur[a] == prev[a]);
            }
        }
    }
}

} // verus!
