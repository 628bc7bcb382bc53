//! Native window registry and the window-manager actor.
//!
//! Templates register a builder under a template name; opening a window
//! builds it from its template and records the resulting handle under the
//! window's key; closing a window forgets the handle and announces the
//! closure.

use vstd::prelude::*;
use crate::named_table::NamedTable;

verus! {

/// Request to open the window `key` from the template `template`, carrying
/// `data` for whoever reacts to the window being opened.
pub struct OpenWindow<D> {
    pub key: String,
    pub template: String,
    pub data: D,
}

/// The window `key` was closed.
pub struct WindowClosed {
    pub key: String,
}

/// The window `key` was opened with `data`.
pub struct OpenedWindow<D> {
    pub key: String,
    pub data: D,
}

/// What the registry knows: builders by template name, handles by window key.
pub struct RegistryView<B, H> {
    pub builders: Map<Seq<char>, B>,
    pub handles: Map<Seq<char>, H>,
}

/// Every registered builder can be run with any window key.
pub open spec fn builders_accept_keys<B: Fn(&str) -> H, H>(v: RegistryView<B, H>) -> bool {
    forall|t: Seq<char>, k: &str| v.builders.contains_key(t) ==> #[trigger] call_requires(v.builders[t], (k,))
}

/// Registry of window templates (builders `B`) and open windows (handles `H`).
pub struct SlintWindowRegistry<B, H> {
    builders: NamedTable<B>,
    handles: NamedTable<H>,
}

impl<B, H> View for SlintWindowRegistry<B, H> {
    type V = RegistryView<B, H>;

    closed spec fn view(&self) -> RegistryView<B, H> {
        RegistryView { builders: self.builders@, handles: self.handles@ }
    }
}

impl<B, H> SlintWindowRegistry<B, H> {
    /// A registry with no templates and no open windows.
    pub fn new() -> (r: Self)
        ensures
            r@.builders == Map::<Seq<char>, B>::empty(),
            r@.handles == Map::<Seq<char>, H>::empty(),
    {
        SlintWindowRegistry { builders: NamedTable::new(), handles: NamedTable::new() }
    }

    /// Registers (or replaces) the builder of the template `template_name`.
    pub fn register(&mut self, template_name: String, builder: B)
        ensures
            final(self)@.builders == old(self)@.builders.insert(template_name@, builder),
            final(self)@.handles == old(self)@.handles,
    {
        self.builders.insert(template_name, builder);
    }

    /// The builder that a window of template `template` is built with; `None`
    /// when no builder is registered for it, in which case no window is built.
    pub fn builder_for(&self, template: &str) -> (r: Option<&B>)
        ensures
            self@.builders.contains_key(template@) ==> r == Some(&self@.builders[template@]),
            !self@.builders.contains_key(template@) ==> r is None,
    {
        self.builders.get(template)
    }

    /// Builds the window `key` from the template `template`: when a builder
    /// is registered for the template, it runs with `key` and the handle it
    /// makes is recorded under `key`; when none is, nothing is built and
    /// nothing changes. Tells whether a window was built.
    pub fn build_window(&mut self, template: &str, key: &str) -> (r: bool)
        where
            B: Fn(&str) -> H,
        requires
            builders_accept_keys(old(self)@),
        ensures
            r == old(self)@.builders.contains_key(template@),
            final(self)@.builders == old(self)@.builders,
            r ==> exists|h: H|
                call_ensures(old(self)@.builders[template@], (key,), h)
                    && final(self)@.handles == old(self)@.handles.insert(key@, h),
            !r ==> final(self)@.handles == old(self)@.handles,
    {
        match self.builders.get(template) {
            Some(builder) => {
                let ghost before = self@;
                assert(call_requires(before.builders[template@], (key,)));
                let handle = builder(key);
                assert(call_ensures(before.builders[template@], (key,), handle));
                let k = String::from_str(key);
                assert(k@ == key@);
                self.handles.insert(k, handle);
                assert(self@.handles == before.handles.insert(key@, handle));
                true
            },
            None => false,
        }
    }

    /// Records the handle of a window just built under `key`.
    pub fn insert_handle(&mut self, key: String, handle: H)
        ensures
            final(self)@.handles == old(self)@.handles.insert(key@, handle),
            final(self)@.builders == old(self)@.builders,
    {
        self.handles.insert(key, handle);
    }

    /// The handle of the open window `key`, if any.
    pub fn get_window(&self, key: &str) -> (r: Option<&H>)
        ensures
            self@.handles.contains_key(key@) ==> r == Some(&self@.handles[key@]),
            !self@.handles.contains_key(key@) ==> r is None,
    {
        self.handles.get(key)
    }

    /// Forgets the window `key` (its handle, if any, is handed back) and
    /// returns the closure to announce.
    pub fn handle_window_close(&mut self, key: String) -> (r: (WindowClosed, Option<H>))
        ensures
            r.0.key@ == key@,
            final(self)@.handles == old(self)@.handles.remove(key@),
            final(self)@.builders == old(self)@.builders,
            old(self)@.handles.contains_key(key@) ==> r.1 == Some(old(self)@.handles[key@]),
            !old(self)@.handles.contains_key(key@) ==> r.1 is None,
    {
        let handle = self.handles.remove(key.as_str());
        (WindowClosed { key }, handle)
    }
}

/// Actor that opens windows through its registry `R` on request.
pub struct WindowManagerActor<R> {
    registry: R,
}

impl<R> WindowManagerActor<R> {
    /// The registry the actor opens windows with.
    pub closed spec fn registry_spec(&self) -> R {
        self.registry
    }

    /// An actor that opens windows with `registry`.
    pub fn new(registry: R) -> (r: Self)
        ensures
            r.registry_spec() == registry,
    {
        WindowManagerActor { registry }
    }

    /// The registry the actor opens windows with.
    pub fn registry(&self) -> (r: &R)
        ensures
            *r == self.registry_spec(),
    {
        &self.registry
    }
}

impl<B, H> WindowManagerActor<SlintWindowRegistry<B, H>> {
    /// Handles an `OpenWindow` request: the registry builds the window
    /// `msg.key` from the template `msg.template`; when it was built, the
    /// opening is announced with the request's key and data; when the
    /// template has no builder, nothing changes and nothing is announced.
    pub fn open_window<D>(&mut self, msg: OpenWindow<D>) -> (r: Option<OpenedWindow<D>>)
        where
            B: Fn(&str) -> H,
        requires
            builders_accept_keys(old(self).registry_spec()@),
        ensures
            final(self).registry_spec()@.builders == old(self).registry_spec()@.builders,
            old(self).registry_spec()@.builders.contains_key(msg.template@) ==> {
                &&& r == Some((OpenedWindow { key: msg.key, data: msg.data }))
                &&& exists|k: &str, h: H|
                    k@ == msg.key@ && call_ensures(
                        old(self).registry_spec()@.builders[msg.template@],
                        (k,),
                        h,
                    ) && final(self).registry_spec()@.handles == old(
                        self,
                    ).registry_spec()@.handles.insert(msg.key@, h)
            },
            !old(self).registry_spec()@.builders.contains_key(msg.template@) ==> {
                &&& r is None
                &&& final(self).registry_spec()@.handles == old(self).registry_spec()@.handles
            },
    {
        let built = self.registry.build_window(msg.template.as_str(), msg.key.as_str());
        if built {
            Some(OpenedWindow { key: msg.key, data: msg.data })
        } else {
            None
        }
    }
}

/// A window recorded under `key` is found under `key`, and recording it
/// leaves the other windows as they were.
pub proof fn law_recorded_window_is_found<H>(handles: Map<Seq<char>, H>, key: Seq<char>, handle: H, other: Seq<char>)
    ensures
        handles.insert(key, handle).contains_key(key),
        handles.insert(key, handle)[key] == handle,
        other != key ==> (handles.insert(key, handle).contains_key(other) == handles.contains_key(other)),
        other != key && handles.contains_key(other) ==> handles.insert(key, handle)[other] == handles[other],
{
}

/// A closed window is no longer found, and closing it leaves the other
/// windows as they were.
pub proof fn law_closed_window_is_gone<H>(handles: Map<Seq<char>, H>, key: Seq<char>, other: Seq<char>)
    ensures
        !handles.remove(key).contains_key(key),
        other != key ==> (handles.remove(key).contains_key(other) == handles.contains_key(other)),
        other != key && handles.contains_key(other) ==> handles.remove(key)[other] == handles[other],
{
}

/// Registering a template makes its builder the one that windows of that
/// template are built with.
pub proof fn law_registered_template_builds<B, H>(v: RegistryView<B, H>, template: Seq<char>, builder: B)
    ensures
        v.builders.insert(template, builder).contains_key(template),
        v.builders.insert(template, builder)[template] == builder,
{
}

} // verus!
