//! Rules of the Slint adapter generators: which trait methods get a
//! generated body, which Slint callback and global they call, how a method
//! is wrapped for tracing, and which attributes are the generators' own.

use vstd::prelude::*;
use vstd::string::*;
use crate::text::{chars_of, position_of, str_eq, views};
use crate::codegen::naming::{build_binding_scope, feature_name_of};

verus! {

/// A method of a port or bindings trait, as the contract schema lists it.
pub struct SchemaMethod {
    pub name: String,
    /// The method is written by hand in the adapter.
    pub is_manual: bool,
    /// Name of the Slint callback or function, when it differs from `name`.
    pub slint_name: Option<String>,
    /// Global to call instead of the trait's own global.
    pub global_override: Option<String>,
}

/// Positions below `n` of schema methods that get a generated body: not
/// written by hand, and not already present in the adapter (`existing`).
pub open spec fn generated_below(methods: Seq<SchemaMethod>, existing: Seq<Seq<char>>, n: int) -> Seq<usize>
    decreases n,
{
    if n <= 0 {
        Seq::empty()
    } else if !methods[n - 1].is_manual && !existing.contains(methods[n - 1].name@) {
        generated_below(methods, existing, n - 1).push((n - 1) as usize)
    } else {
        generated_below(methods, existing, n - 1)
    }
}

/// Positions of the schema methods for which the adapter gets a generated
/// body, in schema order.
pub fn methods_to_generate(methods: &Vec<SchemaMethod>, existing: &Vec<String>) -> (r: Vec<usize>)
    ensures
        r@ == generated_below(methods@, views(existing@), methods@.len() as int),
{
    let mut r: Vec<usize> = Vec::new();
    let mut i: usize = 0;
    while i < methods.len()
        invariant
            i <= methods.len(),
            r@ == generated_below(methods@, views(existing@), i as int),
        decreases methods.len() - i,
    {
        if !methods[i].is_manual {
            match position_of(existing, methods[i].name.as_str()) {
                Some(k) => {
                    assert(views(existing@)[k as int] == methods@[i as int].name@);
                },
                None => {
                    assert forall|k: int| 0 <= k < views(existing@).len() implies views(existing@)[k]
                        != methods@[i as int].name@ by {
                        assert(views(existing@)[k] == existing@[k]@);
                    }
                    r.push(i);
                },
            }
        }
        i = i + 1;
    }
    r
}

/// The Slint callee of a generated method: the callback name (the schema's
/// Slint name, else the method name) and the global it lives on (the
/// method's override, else `trait_global`).
pub fn slint_callee(method: &SchemaMethod, trait_global: &str) -> (r: (String, String))
    ensures
        r.0@ == (match method.slint_name {
            Some(n) => n@,
            None => method.name@,
        }),
        r.1@ == (match method.global_override {
            Some(g) => g@,
            None => trait_global@,
        }),
{
    let callee = match &method.slint_name {
        Some(n) => n.clone(),
        None => method.name.clone(),
    };
    let global = match &method.global_override {
        Some(g) => g.clone(),
        None => String::from_str(trait_global),
    };
    (callee, global)
}

/// Tracing settings of a bindings method, as the contract schema lists them.
pub struct BindingMethodDef {
    pub name: String,
    pub tracing_target: Option<String>,
    pub tracing_skip: bool,
    /// Number of arguments the method's handler takes.
    pub handler_arity: usize,
}

/// How a generated bindings method traces the handler it installs.
pub struct BindingTracingSpec {
    /// Trace scope: `Ui.<Feature>.<method>`.
    pub scope: String,
    pub target: Option<String>,
    pub enabled: bool,
    pub handler_arity: usize,
}

/// The first position below `n` of a method definition named `name`.
pub open spec fn first_def_named(defs: Seq<BindingMethodDef>, name: Seq<char>, i: int) -> Option<int>
    decreases defs.len() - i,
{
    if i < 0 || i >= defs.len() {
        None
    } else if defs[i].name@ == name {
        Some(i)
    } else {
        first_def_named(defs, name, i + 1)
    }
}

/// Tracing of the method `method_name` of the bindings trait `trait_name`,
/// from the first of its definitions `defs` with that name; `None` when the
/// trait does not define it.
pub fn binding_tracing_spec(trait_name: &str, defs: &Vec<BindingMethodDef>, method_name: &str) -> (r:
    Option<BindingTracingSpec>)
    ensures
        first_def_named(defs@, method_name@, 0) is None ==> r is None,
        first_def_named(defs@, method_name@, 0) matches Some(i) ==> r matches Some(s) && s.scope@
            == "Ui."@ + feature_name_of(trait_name@) + "."@ + defs@[i].name@ && s.target
            == defs@[i].tracing_target && s.enabled == !defs@[i].tracing_skip && s.handler_arity
            == defs@[i].handler_arity,
{
    let mut i: usize = 0;
    while i < defs.len()
        invariant
            i <= defs.len(),
            first_def_named(defs@, method_name@, 0) == first_def_named(defs@, method_name@, i as int),
        decreases defs.len() - i,
    {
        if str_eq(defs[i].name.as_str(), method_name) {
            let d = &defs[i];
            return Some(
                BindingTracingSpec {
                    scope: build_binding_scope(trait_name, d.name.as_str()),
                    target: d.tracing_target.clone(),
                    enabled: !d.tracing_skip,
                    handler_arity: d.handler_arity,
                },
            );
        }
        i = i + 1;
    }
    None
}

/// Handler arity that a tracing wrapper is generated for.
pub enum WrapperArity {
    Zero,
    One,
    Two,
}

/// How a trait method in an adapter is rewritten.
pub enum MethodTransform {
    /// The `ui` argument at `ui_index` is removed and replaced by an upgrade
    /// of the adapter's weak UI handle (failing loudly when the UI is gone);
    /// `handler_wrapper` asks for the handler to be wrapped in its trace
    /// scope; `port_trace` asks for the port call to be traced (methods
    /// without a bindings definition).
    WithUi { ui_index: usize, handler_wrapper: Option<WrapperArity>, port_trace: bool },
    /// Only the handler is wrapped in its trace scope.
    HandlerOnly { wrapper: WrapperArity },
    /// The method is left as written.
    Unchanged,
}

/// Why the generator refuses to trace a method's handler (it stops with an
/// error on such a method).
pub enum TransformError {
    /// Tracing needs a `handler` argument and the method has none.
    MissingHandler,
    /// Tracing supports handlers with at most two arguments.
    UnsupportedArity,
}

/// The position of the first argument named `name`.
pub open spec fn first_arg_named(args: Seq<Option<String>>, name: Seq<char>, i: int) -> Option<int>
    decreases args.len() - i,
{
    if i < 0 || i >= args.len() {
        None
    } else if args[i] matches Some(a) && a@ == name {
        Some(i)
    } else {
        first_arg_named(args, name, i + 1)
    }
}

/// Position of the first argument in `args` (plain argument names, `None`
/// for other patterns) named `name`.
pub fn find_arg_named(args: &Vec<Option<String>>, name: &str) -> (r: Option<usize>)
    ensures
        r == (match first_arg_named(args@, name@, 0) {
            Some(i) => Some(i as usize),
            None => None,
        }),
{
    let mut i: usize = 0;
    while i < args.len()
        invariant
            i <= args.len(),
            first_arg_named(args@, name@, 0) == first_arg_named(args@, name@, i as int),
        decreases args.len() - i,
    {
        match &args[i] {
            Some(a) => {
                if str_eq(a.as_str(), name) {
                    return Some(i);
                }
            },
            None => {},
        }
        i = i + 1;
    }
    None
}

/// The wrapper for a handler taking `arity` arguments, when supported.
pub open spec fn wrapper_for(arity: usize) -> Option<WrapperArity> {
    if arity == 0 {
        Some(WrapperArity::Zero)
    } else if arity == 1 {
        Some(WrapperArity::One)
    } else if arity == 2 {
        Some(WrapperArity::Two)
    } else {
        None
    }
}

/// The refusal, if any, of rewriting a method whose arguments are named
/// `args`, given its tracing: a traced method needs a `handler` argument,
/// and its handler may take at most two arguments.
pub open spec fn transform_refusal_of(args: Seq<Option<String>>, tracing: Option<BindingTracingSpec>) -> Option<
    TransformError,
> {
    match tracing {
        Some(t) if t.enabled => if first_arg_named(args, "handler"@, 0) is None {
            Some(TransformError::MissingHandler)
        } else if wrapper_for(t.handler_arity) is None {
            Some(TransformError::UnsupportedArity)
        } else {
            None
        },
        _ => None,
    }
}

/// Tells whether the generator refuses to rewrite a method whose arguments
/// are named `args`, given its tracing, and why.
pub fn method_transform_refusal(args: &Vec<Option<String>>, tracing: &Option<BindingTracingSpec>) -> (r:
    Option<TransformError>)
    ensures
        r == transform_refusal_of(args@, *tracing),
{
    match tracing {
        Some(t) => {
            if t.enabled {
                if find_arg_named(args, "handler").is_none() {
                    Some(TransformError::MissingHandler)
                } else if t.handler_arity > 2 {
                    Some(TransformError::UnsupportedArity)
                } else {
                    None
                }
            } else {
                None
            }
        },
        None => None,
    }
}

fn tracing_wrapper(arity: usize) -> (r: WrapperArity)
    requires
        arity <= 2,
    ensures
        wrapper_for(arity) == Some(r),
{
    if arity == 0 {
        WrapperArity::Zero
    } else if arity == 1 {
        WrapperArity::One
    } else {
        WrapperArity::Two
    }
}

/// How an adapter method whose arguments are named `args` is rewritten,
/// given the tracing of its bindings definition (`None` for port methods and
/// methods without a definition). A method the generator refuses is not
/// handled here.
pub fn plan_method_transform(args: &Vec<Option<String>>, tracing: &Option<BindingTracingSpec>) -> (r:
    MethodTransform)
    requires
        transform_refusal_of(args@, *tracing) is None,
    ensures
        first_arg_named(args@, "ui"@, 0) matches Some(ui) ==> (match *tracing {
            Some(t) if t.enabled => r == MethodTransform::WithUi {
                ui_index: ui as usize,
                handler_wrapper: wrapper_for(t.handler_arity),
                port_trace: false,
            },
            Some(_) => r == MethodTransform::WithUi { ui_index: ui as usize, handler_wrapper: None, port_trace: false },
            None => r == MethodTransform::WithUi { ui_index: ui as usize, handler_wrapper: None, port_trace: true },
        }),
        first_arg_named(args@, "ui"@, 0) is None ==> (match *tracing {
            Some(t) if t.enabled => r == MethodTransform::HandlerOnly { wrapper: wrapper_for(t.handler_arity)->0 },
            _ => r is Unchanged,
        }),
{
    let ui = find_arg_named(args, "ui");
    let wrapper = match tracing {
        Some(t) => {
            if t.enabled {
                Some(tracing_wrapper(t.handler_arity))
            } else {
                None
            }
        },
        None => None,
    };
    match ui {
        Some(idx) => MethodTransform::WithUi {
            ui_index: idx,
            handler_wrapper: wrapper,
            port_trace: tracing.is_none(),
        },
        None => match wrapper {
            Some(w) => MethodTransform::HandlerOnly { wrapper: w },
            None => MethodTransform::Unchanged,
        },
    }
}

/// Attributes that belong to the adapter generators and are stripped from
/// the code they emit.
pub open spec fn is_helper_attr_name(name: Seq<char>) -> bool {
    name == "manual"@ || name == "tracing"@ || name == "slint"@
}

/// The attribute whose path is the single identifier `name` is one of the
/// generators' own.
pub fn is_helper_attr(name: &str) -> (r: bool)
    ensures
        r == is_helper_attr_name(name@),
{
    str_eq(name, "manual") || str_eq(name, "tracing") || str_eq(name, "slint")
}

/// Characters that `char::is_whitespace` accepts (Unicode `White_Space`).
pub open spec fn is_white_space(c: char) -> bool {
    let v = c as u32;
    (0x9 <= v <= 0xD) || v == 0x20 || v == 0x85 || v == 0xA0 || v == 0x1680 || (0x2000 <= v <= 0x200A)
        || v == 0x2028 || v == 0x2029 || v == 0x202F || v == 0x205F || v == 0x3000
}

/// `c` is white space.
pub fn white_space(c: char) -> (r: bool)
    ensures
        r == is_white_space(c),
{
    let v = c as u32;
    (0x9 <= v && v <= 0xD) || v == 0x20 || v == 0x85 || v == 0xA0 || v == 0x1680 || (0x2000 <= v
        && v <= 0x200A) || v == 0x2028 || v == 0x2029 || v == 0x202F || v == 0x205F || v == 0x3000
}

/// The text between the first and the second `=` of `attr` (or to its end),
/// with white space trimmed from both ends; `None` when `attr` has no `=`.
pub open spec fn window_type_text_of(attr: Seq<char>) -> Option<Seq<char>> {
    if exists|i: int| 0 <= i < attr.len() && attr[i] == '=' {
        let i = choose|i: int|
            0 <= i < attr.len() && attr[i] == '=' && forall|j: int| 0 <= j < i ==> attr[j] != '=';
        let rest = attr.skip(i + 1);
        let field = if exists|k: int| 0 <= k < rest.len() && rest[k] == '=' {
            let k = choose|k: int|
                0 <= k < rest.len() && rest[k] == '=' && forall|j: int| 0 <= j < k ==> rest[j] != '=';
            rest.take(k)
        } else {
            rest
        };
        Some(trimmed(field))
    } else {
        None
    }
}

/// `s` without white space at either end.
pub open spec fn trimmed(s: Seq<char>) -> Seq<char> {
    let lead = leading_white(s, 0);
    let rest = s.skip(lead);
    rest.take(rest.len() - trailing_white(rest, rest.len() as int))
}

/// Number of white-space characters at the start of `s`, from `i` on.
pub open spec fn leading_white(s: Seq<char>, i: int) -> int
    decreases s.len() - i,
{
    if i < 0 || i >= s.len() || !is_white_space(s[i]) {
        0
    } else {
        1 + leading_white(s, i + 1)
    }
}

/// Number of white-space characters at the end of the first `n` characters of `s`.
pub open spec fn trailing_white(s: Seq<char>, n: int) -> int
    decreases n,
{
    if n <= 0 || n > s.len() || !is_white_space(s[n - 1]) {
        0
    } else {
        1 + trailing_white(s, n - 1)
    }
}


/// Text of the window type in a generator attribute such as `window = AppWindow`.
pub fn window_type_text(attr: &str) -> (r: Option<String>)
    ensures
        r matches Some(t) ==> window_type_text_of(attr@) == Some(t@),
        r is None ==> window_type_text_of(attr@) is None,
{
    let cs = chars_of(attr);
    let n = cs.len();
    let mut i: usize = 0;
    while i < n && cs[i] != '='
        invariant
            cs@ == attr@,
            n == attr@.len(),
            i <= n,
            forall|j: int| 0 <= j < i ==> attr@[j] != '=',
        decreases n - i,
    {
        i = i + 1;
    }
    if i == n {
        return None;
    }
    let start = i + 1;
    let mut k: usize = start;
    while k < n && cs[k] != '='
        invariant
            cs@ == attr@,
            n == attr@.len(),
            start <= k <= n,
            forall|j: int| start <= j < k ==> attr@[j] != '=',
        decreases n - k,
    {
        k = k + 1;
    }
    let ghost rest = attr@.skip(start as int);
    let ghost field = attr@.subrange(start as int, k as int);
    proof {
        let first = choose|p: int|
            0 <= p < attr@.len() && attr@[p] == '=' && forall|j: int| 0 <= j < p ==> attr@[j] != '=';
        assert(attr@[i as int] == '=');
        if first < i {
        } else if first > i {
        }
        assert(first == i);
        if k < n {
            assert(rest[k - start] == '=');
            let second = choose|q: int|
                0 <= q < rest.len() && rest[q] == '=' && forall|j: int| 0 <= j < q ==> rest[j] != '=';
            if second < k - start {
                assert(attr@[start + second] == '=');
            } else if second > k - start {
                assert(rest[k - start] == '=');
            }
            assert(rest.take(k - start) =~= field);
        } else {
            assert forall|q: int| 0 <= q < rest.len() implies rest[q] != '=' by {
                assert(rest[q] == attr@[start + q]);
            }
            assert(rest =~= field);
        }
    }
    // leading white space
    let mut a: usize = start;
    while a < k && white_space(cs[a])
        invariant
            cs@ == attr@,
            start <= a <= k <= n,
            n == attr@.len(),
            field == attr@.subrange(start as int, k as int),
            leading_white(field, 0) == (a - start) + leading_white(field, a - start),
        decreases k - a,
    {
        a = a + 1;
    }
    let ghost rest2 = field.skip(a - start);
    assert(leading_white(field, a - start) == 0);
    let mut b: usize = k;
    while b > a && white_space(cs[b - 1])
        invariant
            cs@ == attr@,
            start <= a <= b <= k <= n,
            n == attr@.len(),
            field == attr@.subrange(start as int, k as int),
            rest2 == field.skip(a - start),
            trailing_white(rest2, rest2.len() as int) == (k - b) + trailing_white(rest2, b - a),
        decreases b - a,
    {
        b = b - 1;
    }
    assert(trailing_white(rest2, b - a) == 0);
    let t = attr.substring_char(a, b);
    assert(t@ =~= trimmed(field));
    Some(String::from_str(t))
}

/// Number of arguments the handler wrapper `w` takes.
pub open spec fn wrapper_arg_count(w: WrapperArity) -> usize {
    match w {
        WrapperArity::Zero => 0,
        WrapperArity::One => 1,
        WrapperArity::Two => 2,
    }
}

/// The wrapper chosen for a traced handler takes exactly as many arguments
/// as the handler: there is one for every handler of at most two
/// arguments, and none for a larger one.
pub proof fn law_wrapper_matches_handler_arity(arity: usize)
    ensures
        arity <= 2 ==> wrapper_for(arity) is Some && wrapper_arg_count(wrapper_for(arity)->0) == arity,
        arity > 2 ==> wrapper_for(arity) is None,
        arity == 0 ==> wrapper_for(arity) == Some(WrapperArity::Zero),
        arity == 1 ==> wrapper_for(arity) == Some(WrapperArity::One),
        arity == 2 ==> wrapper_for(arity) == Some(WrapperArity::Two),
{
}

/// The argument `a` bears exactly the name `name`.
pub open spec fn arg_bears(a: Option<String>, name: Seq<char>) -> bool {
    a matches Some(b) && b@ == name
}

/// The argument found by name is the first one bearing exactly that name;
/// when none bears it, none is found.
pub proof fn law_first_argument_with_the_name(args: Seq<Option<String>>, name: Seq<char>)
    ensures
        first_arg_named(args, name, 0) matches Some(i) ==> 0 <= i < args.len() && arg_bears(args[i], name)
            && forall|j: int| 0 <= j < i ==> !arg_bears(#[trigger] args[j], name),
        first_arg_named(args, name, 0) is None ==> forall|j: int|
            0 <= j < args.len() ==> !arg_bears(#[trigger] args[j], name),
{
    lemma_first_arg_named(args, name, 0);
}

proof fn lemma_first_arg_named(args: Seq<Option<String>>, name: Seq<char>, i: int)
    requires
        0 <= i,
    ensures
        first_arg_named(args, name, i) matches Some(k) ==> i <= k < args.len() && arg_bears(args[k], name)
            && forall|j: int| i <= j < k ==> !arg_bears(#[trigger] args[j], name),
        first_arg_named(args, name, i) is None ==> forall|j: int|
            i <= j < args.len() ==> !arg_bears(#[trigger] args[j], name),
    decreases args.len() - i,
{
    if i < args.len() {
        lemma_first_arg_named(args, name, i + 1);
    }
}

/// A schema method gets a generated body exactly when it is not written by
/// hand (not `manual`) and the adapter does not already define it; the
/// positions come in schema order, each once.
pub proof fn law_generated_methods(methods: Seq<SchemaMethod>, existing: Seq<Seq<char>>, n: int)
    requires
        0 <= n <= methods.len(),
        methods.len() <= usize::MAX,
    ensures
        forall|u: usize|
            (u as int) < n ==> (#[trigger] generated_below(methods, existing, n).contains(u) <==> (
            !methods[u as int].is_manual && !existing.contains(methods[u as int].name@))),
        forall|a: int, b: int|
            0 <= a < b < generated_below(methods, existing, n).len() ==> generated_below(methods, existing, n)[a]
                < generated_below(methods, existing, n)[b],
        forall|a: int|
            0 <= a < generated_below(methods, existing, n).len() ==> generated_below(methods, existing, n)[a] < n,
    decreases n,
{
    if n > 0 {
        law_generated_methods(methods, existing, n - 1);
        let prev = generated_below(methods, existing, n - 1);
        let cur = generated_below(methods, existing, n);
        let added = !methods[n - 1].is_manual && !existing.contains(methods[n - 1].name@);
        if added {
            assert(cur == prev.push((n - 1) as usize));
        } else {
            assert(cur == prev);
        }
        assert forall|u: usize|
            (u as int) < n implies (#[trigger] cur.contains(u) <==> (!methods[u as int].is_manual
                && !existing.contains(methods[u as int].name@))) by {
            if (u as int) < n - 1 {
                assert(prev.contains(u) == (!methods[u as int].is_manual && !existing.contains(
                    methods[u as int].name@,
                )));
                if prev.contains(u) {
                    let p = choose|p: int| 0 <= p < prev.len() && prev[p] == u;
                    assert(cur[p] == prev[p]);
                }
                if cur.contains(u) {
                    let p = choose|p: int| 0 <= p < cur.len() && cur[p] == u;
                    if p < prev.len() {
                        assert(prev[p] == cur[p]);
                        assert(prev.contains(u));
                    } else {
                        assert(cur[p] == (n - 1) as usize);
                    }
                }
            } else {
                assert(u as int == n - 1);
                if added {
                    assert(cur[cur.len() - 1] == u);
                    assert(cur.contains(u));
                } else if cur.contains(u) {
                    let p = choose|p: int| 0 <= p < cur.len() && cur[p] == u;
                    assert(prev[p] == cur[p]);
                    assert(prev[p] < n - 1);
                }
            }
        }
        assert forall|a: int, b: int| 0 <= a < b < cur.len() implies cur[a] < cur[b] by {
            if b < prev.len() {
                assert(cur[a] == prev[a] && cur[b] == prev[b]);
            } else {
                assert(added);
                assert(cur[b] == (n - 1) as usize);
                assert(cur[a] == prev[a]);
                assert(prev[a] < n - 1);
            }
        }
        assert forall|a: int| 0 <= a < cur.len() implies cur[a] < n by {
            if a < prev.len() {
                assert(cur[a] == prev[a]);
            }
        }
    }
}

/// The definition found by name is the first one with exactly that name;
/// when none has it, none is found.
pub proof fn law_first_definition_with_the_name(defs: Seq<BindingMethodDef>, name: Seq<char>, i: int)
    requires
        0 <= i,
    ensures
        first_def_named(defs, name, i) matches Some(k) ==> i <= k < defs.len() && defs[k].name@ == name
            && forall|j: int| i <= j < k ==> #[trigger] defs[j].name@ != name,
        first_def_named(defs, name, i) is None ==> forall|j: int| i <= j < defs.len() ==> #[trigger] defs[j].name@
            != name,
    decreases defs.len() - i,
{
    if i < defs.len() {
        law_first_definition_with_the_name(defs, name, i + 1);
    }
}

} // verus!
