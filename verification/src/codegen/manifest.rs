//! Reading an actor manifest.
//!
//! A manifest lists the messages an actor handles (or listens to on the
//! bus). An entry either declares a new message struct or refers to an
//! existing type; entries inside a `bind { .. }` group, and entries carrying
//! `#[bind]`, are bound to the actor's UI bindings. A bound message gets a
//! conversion from its field values unless its attribute says
//! `#[bind(manual)]`. Every entry gets a subscription (in a bus manifest)
//! or a handler check (in a handlers manifest), and the generated items
//! carry the entry's attributes other than `#[bind]`. Around the manifests,
//! the associated types are replaced by marker types named after the actor,
//! and a missing `Bus` or `Signals` becomes `()`.

use vstd::prelude::*;
use crate::text::{clone_strings, concat2, str_eq};
use crate::codegen::naming::{marker_base_name, marker_base_of};

verus! {

/// How a manifest entry starts, as far as telling its form apart needs.
pub enum ManifestToken {
    /// `bind { .. }`
    BindGroup,
    /// `@Type`
    ExistingMarker,
    /// a full `struct` item
    StructItem,
    /// an identifier followed by `( .. )` or `{ .. }`
    IdentWithFields,
    /// any other type; `plain_ident` when it is a single identifier without
    /// generic arguments
    Type { plain_ident: bool },
}

/// The form of a manifest entry.
pub enum ManifestItemForm {
    /// A `bind` group of entries.
    Group,
    /// A reference to an existing message type.
    Existing,
    /// A message struct declared as written.
    DeclaredStruct,
    /// A message struct declared from an identifier and its fields (made public).
    NewWithFields,
    /// A unit message struct named by the identifier.
    NewUnit,
}

/// Form of a manifest entry that starts with `token`. `force_new` is set for
/// handler manifests, where a bare identifier declares a unit message; in bus
/// manifests it refers to an existing type.
pub fn classify_manifest_item(token: &ManifestToken, force_new: bool) -> (r: ManifestItemForm)
    ensures
        *token is BindGroup ==> r is Group,
        *token is ExistingMarker ==> r is Existing,
        *token is StructItem ==> r is DeclaredStruct,
        *token is IdentWithFields ==> r is NewWithFields,
        *token matches ManifestToken::Type { plain_ident } ==> (if force_new && plain_ident {
            r is NewUnit
        } else {
            r is Existing
        }),
{
    match token {
        ManifestToken::BindGroup => ManifestItemForm::Group,
        ManifestToken::ExistingMarker => ManifestItemForm::Existing,
        ManifestToken::StructItem => ManifestItemForm::DeclaredStruct,
        ManifestToken::IdentWithFields => ManifestItemForm::NewWithFields,
        ManifestToken::Type { plain_ident } => {
            if force_new && *plain_ident {
                ManifestItemForm::NewUnit
            } else {
                ManifestItemForm::Existing
            }
        },
    }
}

/// What a manifest entry is, once its form is known.
pub enum ManifestItemKind {
    /// Declares the message struct `name` with `arity` fields.
    New { name: String, arity: usize },
    /// Refers to an existing type.
    Existing,
}

/// An attribute written on a manifest entry.
pub enum ManifestAttr {
    /// `#[bind]` in any form; `manual` for `#[bind(manual)]`.
    Bind { manual: bool },
    /// Any other attribute, as written.
    Other(String),
}

/// A manifest entry, listed in source order with groups flattened.
pub struct ManifestEntry {
    /// The entry stands inside a `bind { .. }` group.
    pub in_bind_group: bool,
    /// The entry's attributes, in order.
    pub attrs: Vec<ManifestAttr>,
    pub kind: ManifestItemKind,
}

/// The last `#[bind]` among the first `n` attributes: `Some(manual)`, or
/// `None` when there is none.
pub open spec fn bind_attr_of(attrs: Seq<ManifestAttr>, n: int) -> Option<bool>
    decreases n,
{
    if n <= 0 {
        None
    } else {
        match attrs[n - 1] {
            ManifestAttr::Bind { manual } => Some(manual),
            ManifestAttr::Other(_) => bind_attr_of(attrs, n - 1),
        }
    }
}

/// The attributes other than `#[bind]` among the first `n`, in order: the
/// ones the generated items carry.
pub open spec fn kept_attrs_of(attrs: Seq<ManifestAttr>, n: int) -> Seq<Seq<char>>
    decreases n,
{
    if n <= 0 {
        Seq::empty()
    } else {
        match attrs[n - 1] {
            ManifestAttr::Bind { .. } => kept_attrs_of(attrs, n - 1),
            ManifestAttr::Other(a) => kept_attrs_of(attrs, n - 1).push(a@),
        }
    }
}

/// The entry's `#[bind]` attribute, if any: `Some(true)` for
/// `#[bind(manual)]`, `Some(false)` for any other form.
pub open spec fn entry_bind_attr(e: ManifestEntry) -> Option<bool> {
    bind_attr_of(e.attrs@, e.attrs@.len() as int)
}

/// The entry is bound to the UI bindings.
pub open spec fn entry_is_bound(e: ManifestEntry) -> bool {
    e.in_bind_group || entry_bind_attr(e) is Some
}

/// The entry's binding is written by hand.
pub open spec fn entry_is_manual(e: ManifestEntry) -> bool {
    entry_bind_attr(e) == Some(true)
}

/// How the field values of a message are taken by its conversion.
pub enum ArgsShape {
    /// No fields: from `()`.
    Unit,
    /// One field: from the value itself.
    Single,
    /// Several fields: from a tuple of that many values.
    Tuple(usize),
}

/// The conversion input shape of a message with `arity` fields.
pub open spec fn shape_of(arity: usize) -> ArgsShape {
    if arity == 0 {
        ArgsShape::Unit
    } else if arity == 1 {
        ArgsShape::Single
    } else {
        ArgsShape::Tuple(arity)
    }
}

/// Input shape of the conversion of a message with `arity` fields.
pub fn args_shape(arity: usize) -> (r: ArgsShape)
    ensures
        r == shape_of(arity),
{
    if arity == 0 {
        ArgsShape::Unit
    } else if arity == 1 {
        ArgsShape::Single
    } else {
        ArgsShape::Tuple(arity)
    }
}

/// The items the generator emits for a manifest entry.
pub enum ItemPlan {
    /// Declare the message struct; `bound` when it is bound; `from_args`
    /// when it gets a conversion from its field values.
    Declare { bound: bool, from_args: Option<ArgsShape> },
    /// Only refer to the existing type.
    Reference,
}

/// The statement the generator emits for an entry's message type.
pub enum LogicCall {
    /// In a bus manifest: subscribe the actor to the message on the bus.
    Subscribe,
    /// In a handlers manifest: check at compile time that the actor handles
    /// the message.
    AssertHandler,
}

/// What the generator emits for a manifest entry.
pub struct EntryPlan {
    pub item: ItemPlan,
    pub call: LogicCall,
    /// The attributes, without `#[bind]`, that the generated items carry.
    pub kept_attrs: Vec<String>,
}

/// The items planned for the entry `e`.
pub open spec fn item_plan_of(e: ManifestEntry) -> ItemPlan {
    match e.kind {
        ManifestItemKind::New { arity, .. } => ItemPlan::Declare {
            bound: entry_is_bound(e),
            from_args: if entry_is_bound(e) && !entry_is_manual(e) {
                Some(shape_of(arity))
            } else {
                None
            },
        },
        ManifestItemKind::Existing => ItemPlan::Reference,
    }
}

/// The statement emitted for each entry of a bus manifest (`is_bus`) or of
/// a handlers manifest.
pub open spec fn call_of(is_bus: bool) -> LogicCall {
    if is_bus {
        LogicCall::Subscribe
    } else {
        LogicCall::AssertHandler
    }
}

/// The entry `p` is what the generator emits for `e` in a bus manifest
/// (`is_bus`) or a handlers manifest.
pub open spec fn plans_entry(p: EntryPlan, e: ManifestEntry, is_bus: bool) -> bool {
    &&& p.item == item_plan_of(e)
    &&& p.call == call_of(is_bus)
    &&& p.kept_attrs@.map_values(|s: String| s@) == kept_attrs_of(e.attrs@, e.attrs@.len() as int)
}

/// Names of the bound message structs declared among the first `n` entries,
/// in order.
pub open spec fn bound_names(entries: Seq<ManifestEntry>, n: int) -> Seq<Seq<char>>
    decreases n,
{
    if n <= 0 {
        Seq::empty()
    } else {
        let e = entries[n - 1];
        match e.kind {
            ManifestItemKind::New { name, .. } => if entry_is_bound(e) {
                bound_names(entries, n - 1).push(name@)
            } else {
                bound_names(entries, n - 1)
            },
            ManifestItemKind::Existing => bound_names(entries, n - 1),
        }
    }
}

/// The generator's plan for a manifest.
pub struct ManifestPlan {
    /// Names of the bound messages, in manifest order.
    pub bound_messages: Vec<String>,
    /// One plan per entry, in manifest order.
    pub entries: Vec<EntryPlan>,
}

/// Reads the attributes of an entry: its last `#[bind]`, and the others.
fn read_attrs(attrs: &Vec<ManifestAttr>) -> (r: (Option<bool>, Vec<String>))
    ensures
        r.0 == bind_attr_of(attrs@, attrs@.len() as int),
        r.1@.map_values(|s: String| s@) == kept_attrs_of(attrs@, attrs@.len() as int),
{
    let mut bind: Option<bool> = None;
    let mut kept: Vec<String> = Vec::new();
    let mut j: usize = 0;
    while j < attrs.len()
        invariant
            j <= attrs.len(),
            bind == bind_attr_of(attrs@, j as int),
            kept@.map_values(|s: String| s@) == kept_attrs_of(attrs@, j as int),
        decreases attrs.len() - j,
    {
        let ghost before = kept@;
        match &attrs[j] {
            ManifestAttr::Bind { manual } => {
                bind = Some(*manual);
            },
            ManifestAttr::Other(a) => {
                kept.push(a.clone());
                assert(kept@.map_values(|s: String| s@) =~= before.map_values(|s: String| s@).push(a@));
            },
        }
        j = j + 1;
    }
    (bind, kept)
}

/// Plans the items and statements generated for the entries `entries` of a
/// bus manifest (`is_bus`) or a handlers manifest.
pub fn process_manifest_items(entries: &Vec<ManifestEntry>, is_bus: bool) -> (r: ManifestPlan)
    ensures
        r.entries@.len() == entries@.len(),
        forall|i: int| 0 <= i < entries@.len() ==> plans_entry(#[trigger] r.entries@[i], entries@[i], is_bus),
        r.bound_messages@.map_values(|s: String| s@) == bound_names(entries@, entries@.len() as int),
{
    let mut bound_messages: Vec<String> = Vec::new();
    let mut plans: Vec<EntryPlan> = Vec::new();
    let mut i: usize = 0;
    while i < entries.len()
        invariant
            i <= entries.len(),
            plans@.len() == i,
            forall|k: int| 0 <= k < i ==> plans_entry(#[trigger] plans@[k], entries@[k], is_bus),
            bound_messages@.map_values(|s: String| s@) == bound_names(entries@, i as int),
        decreases entries.len() - i,
    {
        let e = &entries[i];
        let (bind_attr, kept_attrs) = read_attrs(&e.attrs);
        let is_bound = e.in_bind_group || bind_attr.is_some();
        let is_manual = match bind_attr {
            Some(m) => m,
            None => false,
        };
        let call = if is_bus {
            LogicCall::Subscribe
        } else {
            LogicCall::AssertHandler
        };
        let ghost before = bound_messages@;
        let item = match &e.kind {
            ManifestItemKind::New { name, arity } => {
                if is_bound {
                    bound_messages.push(name.clone());
                    assert(bound_messages@.map_values(|s: String| s@) =~= before.map_values(
                        |s: String| s@,
                    ).push(name@));
                }
                let from_args = if is_bound && !is_manual {
                    Some(args_shape(*arity))
                } else {
                    None
                };
                ItemPlan::Declare { bound: is_bound, from_args }
            },
            ManifestItemKind::Existing => ItemPlan::Reference,
        };
        plans.push(EntryPlan { item, call, kept_attrs });
        i = i + 1;
    }
    ManifestPlan { bound_messages, entries: plans }
}

/// An associated type of an actor manifest impl, by its name.
pub enum AssocItem {
    /// `type Bus = bus!(..)`: the messages the actor listens to on the bus.
    Bus,
    /// `type Signals = bus!(..)`: the messages the actor may publish.
    Signals,
    /// `type Handlers = handlers!(..)`: the messages the actor handles.
    Handlers,
    /// Any other associated type.
    Other,
}

/// How a manifest held in an associated type is read.
pub struct ManifestSource {
    /// The macro the manifest is written in.
    pub mac_name: String,
    /// A bare identifier declares a new unit message.
    pub force_new: bool,
    /// The entries are bus subscriptions rather than handled messages.
    pub is_bus: bool,
}

/// How the manifest of `item` is read: `bus!` entries are subscriptions to
/// existing messages, `handlers!` entries handled messages where a bare
/// identifier declares a new one; other associated types hold no entries to
/// read this way (`Signals` lists the messages it allows instead).
pub fn manifest_source(item: &AssocItem) -> (r: Option<ManifestSource>)
    ensures
        *item is Bus ==> (r matches Some(m) && m.mac_name@ == "bus"@ && !m.force_new && m.is_bus),
        *item is Handlers ==> (r matches Some(m) && m.mac_name@ == "handlers"@ && m.force_new && !m.is_bus),
        !(*item is Bus) && !(*item is Handlers) ==> r is None,
{
    proof {
        reveal_strlit("bus");
        reveal_strlit("handlers");
    }
    match item {
        AssocItem::Bus => Some(ManifestSource { mac_name: "bus".to_string(), force_new: false, is_bus: true }),
        AssocItem::Handlers => Some(
            ManifestSource { mac_name: "handlers".to_string(), force_new: true, is_bus: false },
        ),
        _ => None,
    }
}

/// What the generator adds around a manifest impl.
pub struct AssocPlan {
    /// Name of the marker type that replaces the `Handlers` manifest.
    pub handlers_marker: String,
    /// Name of the marker type that replaces the `Bus` manifest.
    pub bus_marker: String,
    /// Name of the marker type that replaces the `Signals` list.
    pub signals_marker: String,
    /// The impl has no `Bus`: `type Bus = ();` is added.
    pub add_unit_bus: bool,
    /// The impl has no `Signals`: `type Signals = ();` is added.
    pub add_unit_signals: bool,
}

/// Among the first `n` associated types there is one of the same kind as `k`.
pub open spec fn has_assoc(items: Seq<AssocItem>, k: AssocItem, n: int) -> bool {
    exists|i: int| 0 <= i < n && #[trigger] items[i] == k
}

/// Plans the marker types of the actor written `self_ty` and the unit
/// `Bus` and `Signals` types added when its impl, with associated types
/// `items`, leaves them out.
pub fn assoc_plan(self_ty: &str, items: &Vec<AssocItem>) -> (r: AssocPlan)
    ensures
        r.handlers_marker@ == "__Handlers_"@ + marker_base_of(self_ty@),
        r.bus_marker@ == "__Bus_"@ + marker_base_of(self_ty@),
        r.signals_marker@ == "__Signals_"@ + marker_base_of(self_ty@),
        r.add_unit_bus == !has_assoc(items@, AssocItem::Bus, items@.len() as int),
        r.add_unit_signals == !has_assoc(items@, AssocItem::Signals, items@.len() as int),
{
    let base = marker_base_name(self_ty);
    let mut has_bus = false;
    let mut has_signals = false;
    let mut i: usize = 0;
    while i < items.len()
        invariant
            i <= items.len(),
            has_bus == has_assoc(items@, AssocItem::Bus, i as int),
            has_signals == has_assoc(items@, AssocItem::Signals, i as int),
        decreases items.len() - i,
    {
        match &items[i] {
            AssocItem::Bus => {
                has_bus = true;
            },
            AssocItem::Signals => {
                has_signals = true;
            },
            _ => {},
        }
        proof {
            if items@[i as int] is Bus {
                assert(has_assoc(items@, AssocItem::Bus, i + 1));
            } else {
                assert(has_assoc(items@, AssocItem::Bus, i + 1) ==> has_assoc(items@, AssocItem::Bus, i as int));
            }
            if items@[i as int] is Signals {
                assert(has_assoc(items@, AssocItem::Signals, i + 1));
            } else {
                assert(has_assoc(items@, AssocItem::Signals, i + 1) ==> has_assoc(
                    items@,
                    AssocItem::Signals,
                    i as int,
                ));
            }
        }
        i = i + 1;
    }
    AssocPlan {
        handlers_marker: concat2("__Handlers_", base.as_str()),
        bus_marker: concat2("__Bus_", base.as_str()),
        signals_marker: concat2("__Signals_", base.as_str()),
        add_unit_bus: !has_bus,
        add_unit_signals: !has_signals,
    }
}

/// The `AllowedSignal` impls generated for a `Signals` list: one per
/// listed message type, in order, each for the signals marker.
pub struct SignalImpls {
    pub marker: String,
    pub messages: Vec<String>,
}

/// The `AllowedSignal` impls for the actor written `self_ty` whose
/// `Signals` list names `messages`.
pub fn signal_impls(self_ty: &str, messages: &Vec<String>) -> (r: SignalImpls)
    ensures
        r.marker@ == "__Signals_"@ + marker_base_of(self_ty@),
        r.messages@ == messages@,
{
    let base = marker_base_name(self_ty);
    SignalImpls { marker: concat2("__Signals_", base.as_str()), messages: clone_strings(messages) }
}

/// The shape of an associated type's written type, as far as finding the
/// manifest macro in it needs.
pub enum TypeShape {
    /// A macro type whose path is the single identifier held here.
    Macro(String),
    /// A path type: the type arguments in angle brackets of its segments,
    /// all segments' arguments in order (other generic arguments stand as
    /// `Other`).
    Path(Vec<TypeShape>),
    /// Any other type, a macro with a longer path among them.
    Other,
}

/// Number of type arguments of `ty` when it is a path type.
pub open spec fn type_arg_count(ty: TypeShape) -> int {
    match ty {
        TypeShape::Path(args) => args@.len() as int,
        _ => 0,
    }
}

/// Where, searching `ty` depth first from its type argument `i` on, the
/// first macro named `name` stands: the indices of the type arguments that
/// lead to it, outermost first; `None` when there is none.
pub open spec fn first_macro_path(ty: TypeShape, name: Seq<char>, i: int) -> Option<Seq<usize>>
    decreases ty, type_arg_count(ty) - i,
{
    match ty {
        TypeShape::Macro(n) => if n@ == name {
            Some(Seq::empty())
        } else {
            None
        },
        TypeShape::Path(args) => if 0 <= i < args@.len() {
            proof {
                assert(decreases_to!(ty => args));
                assert(decreases_to!(args => args@));
                assert(decreases_to!(args@ => args@[i]));
            }
            match first_macro_path(args@[i], name, 0) {
                Some(p) => Some(seq![i as usize] + p),
                None => first_macro_path(ty, name, i + 1),
            }
        } else {
            None
        },
        TypeShape::Other => None,
    }
}

/// Finds the manifest macro `mac_name!` in an associated type's type `ty`:
/// the type itself, or the first one met depth first among its type
/// arguments. The result leads to it through type argument indices.
pub fn locate_manifest_macro(ty: &TypeShape, mac_name: &str) -> (r: Option<Vec<usize>>)
    ensures
        match r {
            Some(v) => first_macro_path(*ty, mac_name@, 0) == Some(v@),
            None => first_macro_path(*ty, mac_name@, 0) is None,
        },
    decreases ty,
{
    match ty {
        TypeShape::Macro(n) => {
            if str_eq(n.as_str(), mac_name) {
                Some(Vec::new())
            } else {
                None
            }
        },
        TypeShape::Path(args) => {
            let mut i: usize = 0;
            while i < args.len()
                invariant
                    i <= args.len(),
                    *ty == TypeShape::Path(*args),
                    first_macro_path(*ty, mac_name@, 0) == first_macro_path(*ty, mac_name@, i as int),
                decreases args.len() - i,
            {
                proof {
                    assert(decreases_to!(*ty => *args));
                    assert(decreases_to!(*args => args@));
                    assert(decreases_to!(args@ => args@[i as int]));
                }
                match locate_manifest_macro(&args[i], mac_name) {
                    Some(inner) => {
                        let mut r: Vec<usize> = Vec::new();
                        r.push(i);
                        let mut rest = inner;
                        r.append(&mut rest);
                        assert(r@ =~= seq![i] + inner@);
                        return Some(r);
                    },
                    None => {},
                }
                i = i + 1;
            }
            None
        },
        TypeShape::Other => None,
    }
}

/// The text the generated items carry for the attribute `a`: none for
/// `#[bind]`, the attribute as written otherwise.
pub open spec fn carried_text(a: ManifestAttr) -> Option<Seq<char>> {
    match a {
        ManifestAttr::Bind { .. } => None,
        ManifestAttr::Other(t) => Some(t@),
    }
}

/// The generated items carry exactly the attributes other than `#[bind]`,
/// in their order: `#[bind]` in any form is dropped and nothing else is.
pub proof fn law_kept_attrs_drop_only_bind(attrs: Seq<ManifestAttr>, n: int)
    requires
        0 <= n <= attrs.len(),
    ensures
        kept_attrs_of(attrs, n) == attrs.take(n).filter_map(|a: ManifestAttr| carried_text(a)),
    decreases n,
{
    if n > 0 {
        law_kept_attrs_drop_only_bind(attrs, n - 1);
        assert(attrs.take(n).drop_last() =~= attrs.take(n - 1));
        assert(attrs.take(n).last() == attrs[n - 1]);
        let prev = attrs.take(n - 1).filter_map(|a: ManifestAttr| carried_text(a));
        if let ManifestAttr::Other(t) = attrs[n - 1] {
            assert(prev + seq![t@] =~= prev.push(t@));
        }
    } else {
        assert(attrs.take(0) =~= Seq::<ManifestAttr>::empty());
    }
}

/// An entry is bound exactly when it stands in a `bind` group or carries
/// `#[bind]`; its binding is manual exactly when its last `#[bind]` is
/// `#[bind(manual)]`.
pub proof fn law_bound_by_group_or_bind_attr(attrs: Seq<ManifestAttr>, n: int)
    requires
        0 <= n <= attrs.len(),
    ensures
        bind_attr_of(attrs, n) is Some <==> exists|i: int| 0 <= i < n && #[trigger] attrs[i] is Bind,
        bind_attr_of(attrs, n) matches Some(m) ==> exists|i: int|
            0 <= i < n && #[trigger] attrs[i] == (ManifestAttr::Bind { manual: m }) && forall|j: int|
                i < j < n ==> !(#[trigger] attrs[j] is Bind),
    decreases n,
{
    if n > 0 {
        law_bound_by_group_or_bind_attr(attrs, n - 1);
        if attrs[n - 1] is Bind {
            assert(attrs[n - 1] == (ManifestAttr::Bind { manual: attrs[n - 1]->manual }));
        } else if let Some(m) = bind_attr_of(attrs, n - 1) {
            let i = choose|i: int|
                0 <= i < n - 1 && #[trigger] attrs[i] == (ManifestAttr::Bind { manual: m }) && forall|j: int|
                    i < j < n - 1 ==> !(#[trigger] attrs[j] is Bind);
            assert(attrs[i] == (ManifestAttr::Bind { manual: m }));
        }
    }
}

/// A new message gets a conversion from its field values exactly when it is
/// bound and its binding is not manual, and the conversion takes `()` for no
/// field, the value itself for one field and a tuple of all of them for
/// more; an existing type gets nothing declared.
pub proof fn law_conversion_only_for_automatic_bindings(e: ManifestEntry)
    ensures
        e.kind is Existing ==> item_plan_of(e) == ItemPlan::Reference,
        e.kind matches ManifestItemKind::New { arity, .. } ==> item_plan_of(e) matches ItemPlan::Declare {
            bound,
            from_args,
        } && bound == (e.in_bind_group || entry_bind_attr(e) is Some) && (from_args is Some <==> (bound
            && entry_bind_attr(e) != Some(true))) && (from_args matches Some(shape) ==> (arity == 0
            ==> shape == ArgsShape::Unit) && (arity == 1 ==> shape == ArgsShape::Single) && (arity >= 2
            ==> shape == ArgsShape::Tuple(arity))),
{
}

/// A bus manifest subscribes the actor to each message; a handlers manifest
/// checks that the actor handles each message.
pub proof fn law_bus_subscribes_handlers_check(is_bus: bool)
    ensures
        is_bus ==> call_of(is_bus) == LogicCall::Subscribe,
        !is_bus ==> call_of(is_bus) == LogicCall::AssertHandler,
{
}

} // verus!
