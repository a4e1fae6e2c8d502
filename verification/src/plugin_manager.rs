//! The plugin registry: which plugins are loaded, their lifecycle state, and
//! the event-bus subscriptions an enabled plugin holds.
use vstd::prelude::*;
use crate::event::{PluginDisabled, PluginEnabled, PluginLoaded};
use crate::eventbus::{EventBus, Subscriber, SubscriptionId, has_id, without_id, lemma_without_id_absent};
use crate::plugin::Plugin;
use crate::text::{texts, push_str, string_from_chars};

verus! {

/// The `[plugin]` table of a plugin manifest.
pub struct PluginMeta {
    pub name: String,
    pub version: String,
    pub description: Option<String>,
}

/// The `[hooks]` table: which global input hooks the plugin wants.
pub struct HooksDecl {
    pub mouse: Option<bool>,
    pub keyboard: Option<bool>,
}

/// The `[capabilities]` table: which host capabilities a script plugin may use.
pub struct CapabilitiesDecl {
    pub clipboard: bool,
    pub input: bool,
    pub overlay: bool,
    pub screen: bool,
}

/// The `[events]` table: the event types the plugin listens to and emits.
pub struct EventDecl {
    pub subscribes: Vec<String>,
    pub publishes: Vec<String>,
}

/// A parsed `plugin.toml`.
pub struct PluginManifest {
    pub plugin: PluginMeta,
    pub hooks: HooksDecl,
    pub events: EventDecl,
    pub capabilities: CapabilitiesDecl,
}

#[derive(Debug, Clone, Copy, PartialEq, Eq, Structural)]
pub enum PluginState {
    Loaded,
    Enabled,
    Disabled,
    Unloaded,
}

/// What the plugin list shows of one plugin.
pub struct PluginInfo {
    pub name: String,
    pub version: String,
    pub description: String,
    pub state: PluginState,
}

/// Why a plugin operation was refused.
pub enum PluginError {
    /// No loaded plugin has this name.
    NotFound(String),
    /// The plugin has been unloaded.
    Unloaded,
    /// The plugin's `on_enable` failed with this message.
    EnableFailed(String),
    /// The plugin's `on_load` failed with this message.
    LoadFailed(String),
    /// A plugin with this name is already loaded.
    AlreadyLoaded(String),
}

/// The text of a plugin error.
pub open spec fn error_text(e: PluginError) -> Seq<char> {
    match e {
        PluginError::NotFound(n) => "Plugin not found: "@ + n@,
        PluginError::Unloaded => "Plugin is unloaded"@,
        PluginError::EnableFailed(m) => m@,
        PluginError::LoadFailed(m) => m@,
        PluginError::AlreadyLoaded(n) => "Plugin '"@ + n@ + "' already loaded"@,
    }
}

impl PluginError {
    pub fn message(&self) -> (r: String)
        ensures
            r@ == error_text(*self),
    {
        match self {
            PluginError::NotFound(n) => {
                let mut buf: Vec<char> = Vec::new();
                push_str(&mut buf, "Plugin not found: ");
                push_str(&mut buf, n.as_str());
                string_from_chars(&buf)
            },
            PluginError::Unloaded => {
                let mut buf: Vec<char> = Vec::new();
                push_str(&mut buf, "Plugin is unloaded");
                string_from_chars(&buf)
            },
            PluginError::EnableFailed(m) => m.clone(),
            PluginError::LoadFailed(m) => m.clone(),
            PluginError::AlreadyLoaded(n) => {
                let mut buf: Vec<char> = Vec::new();
                push_str(&mut buf, "Plugin '");
                push_str(&mut buf, n.as_str());
                push_str(&mut buf, "' already loaded");
                string_from_chars(&buf)
            },
        }
    }
}

/// A plugin held by the manager.
pub struct LoadedPlugin<P> {
    pub manifest: PluginManifest,
    pub instance: P,
    pub state: PluginState,
    pub subscriptions: Vec<SubscriptionId>,
}

pub struct PluginManager<P> {
    plugins: Vec<LoadedPlugin<P>>,
}

pub open spec fn name_of<P>(p: LoadedPlugin<P>) -> Seq<char> {
    p.manifest.plugin.name@
}

/// Whether the plugin asks for the global mouse hook.
pub open spec fn wants_mouse_hook<P>(p: LoadedPlugin<P>) -> bool {
    match p.manifest.hooks.mouse {
        Some(b) => b,
        None => false,
    }
}

/// The event types a plugin listens to.
pub open spec fn declared_events<P>(p: LoadedPlugin<P>) -> Seq<Seq<char>> {
    texts(p.manifest.events.subscribes@)
}

/// Whether some plugin of `recs` has the name `name`.
pub open spec fn has_name<P>(recs: Seq<LoadedPlugin<P>>, name: Seq<char>) -> bool {
    exists|i: int| 0 <= i < recs.len() && name_of(#[trigger] recs[i]) == name
}

/// Two records agree on everything but the plugin instance.
pub open spec fn same_but_instance<P>(a: LoadedPlugin<P>, b: LoadedPlugin<P>) -> bool {
    &&& a.manifest == b.manifest
    &&& a.state == b.state
    &&& a.subscriptions@ == b.subscriptions@
}

/// Two record lists agree on everything but plugin instances.
pub open spec fn same_records<P>(a: Seq<LoadedPlugin<P>>, b: Seq<LoadedPlugin<P>>) -> bool {
    &&& a.len() == b.len()
    &&& forall|i: int| 0 <= i < a.len() ==> same_but_instance(#[trigger] a[i], b[i])
}

/// The subscriptions left after removing each id of `ids` in turn.
pub open spec fn without_ids<H>(subs: Seq<Subscriber<H>>, ids: Seq<SubscriptionId>) -> Seq<Subscriber<H>>
    decreases ids.len(),
{
    if ids.len() == 0 {
        subs
    } else {
        without_id(without_ids(subs, ids.drop_last()), ids.last())
    }
}

/// `after` is `before` followed by one new subscription per event type of
/// `types`, with consecutive ids starting at `first`, and `ids` lists those ids.
pub open spec fn appended_run<H>(
    before: Seq<Subscriber<H>>,
    after: Seq<Subscriber<H>>,
    first: SubscriptionId,
    ids: Seq<SubscriptionId>,
    types: Seq<Seq<char>>,
) -> bool {
    &&& ids.len() == types.len()
    &&& after.len() == before.len() + types.len()
    &&& after.take(before.len() as int) == before
    &&& forall|k: int| 0 <= k < ids.len() ==> #[trigger] ids[k] == first + k
    &&& forall|k: int|
        0 <= k < types.len() ==> (#[trigger] after[before.len() + k]).id == ids[k]
            && after[before.len() + k].event_type@ == types[k]
}

/// What enabling one plugin gave: the notice, with the plugin `after` now
/// enabled, or the failure of its `on_enable`, with it still loaded.
pub open spec fn enable_outcome<P>(
    r: Result<PluginEnabled, PluginError>,
    before: LoadedPlugin<P>,
    after: LoadedPlugin<P>,
) -> bool {
    match r {
        Ok(ev) => {
            &&& ev.name@ == name_of(before)
            &&& ev.needs_hook == wants_mouse_hook(before)
            &&& after.state == PluginState::Enabled
        },
        Err(e) => {
            &&& e is EnableFailed
            &&& after.state == PluginState::Loaded
        },
    }
}

/// How many loaded plugins come before plugin `i`.
pub open spec fn loaded_rank<P>(recs: Seq<LoadedPlugin<P>>, i: int) -> int {
    names_in(recs.take(i), PluginState::Loaded).len() as int
}

/// How many event types the plugins that are loaded but not enabled declare.
pub open spec fn loaded_events<P>(recs: Seq<LoadedPlugin<P>>) -> nat
    decreases recs.len(),
{
    if recs.len() == 0 {
        0
    } else {
        loaded_events(recs.drop_last()) + if recs.last().state == PluginState::Loaded {
            declared_events(recs.last()).len()
        } else {
            0
        }
    }
}

proof fn lemma_loaded_events_prefix<P>(recs: Seq<LoadedPlugin<P>>, i: int)
    requires
        0 <= i <= recs.len(),
    ensures
        loaded_events(recs.take(i)) <= loaded_events(recs),
    decreases recs.len(),
{
    if i < recs.len() {
        assert(recs.drop_last().take(i) =~= recs.take(i));
        lemma_loaded_events_prefix(recs.drop_last(), i);
    } else {
        assert(recs.take(i) =~= recs);
    }
}

proof fn lemma_names_in_prefix_len<P>(recs: Seq<LoadedPlugin<P>>, j: int, i: int)
    requires
        0 <= j < i <= recs.len(),
        recs[j].state == PluginState::Loaded,
    ensures
        names_in(recs.take(j), PluginState::Loaded).len() < names_in(recs.take(i), PluginState::Loaded).len(),
    decreases i - j,
{
    assert(recs.take(j + 1).drop_last() =~= recs.take(j));
    if i > j + 1 {
        lemma_names_in_prefix_len(recs, j, i - 1);
        assert(recs.take(i).drop_last() =~= recs.take(i - 1));
    }
}

/// The names on a list of notices.
pub open spec fn notice_names(v: Seq<PluginDisabled>) -> Seq<Seq<char>> {
    v.map_values(|e: PluginDisabled| e.name@)
}

/// The subscriptions the plugins hold, in list order.
pub open spec fn all_subscriptions<P>(recs: Seq<LoadedPlugin<P>>) -> Seq<SubscriptionId>
    decreases recs.len(),
{
    if recs.len() == 0 {
        Seq::empty()
    } else {
        all_subscriptions(recs.drop_last()) + recs.last().subscriptions@
    }
}

proof fn lemma_without_ids_append<H>(subs: Seq<Subscriber<H>>, a: Seq<SubscriptionId>, b: Seq<SubscriptionId>)
    ensures
        without_ids(subs, a + b) == without_ids(without_ids(subs, a), b),
    decreases b.len(),
{
    if b.len() == 0 {
        assert(a + b =~= a);
    } else {
        assert((a + b).drop_last() =~= a + b.drop_last());
        assert((a + b).last() == b.last());
        lemma_without_ids_append(subs, a, b.drop_last());
    }
}

/// The names of the enabled plugins that want the mouse hook, in list order.
pub open spec fn hook_requesters<P>(recs: Seq<LoadedPlugin<P>>) -> Seq<Seq<char>>
    decreases recs.len(),
{
    if recs.len() == 0 {
        Seq::empty()
    } else {
        let rest = hook_requesters(recs.drop_last());
        let p = recs.last();
        if wants_mouse_hook(p) && p.state == PluginState::Enabled {
            rest.push(name_of(p))
        } else {
            rest
        }
    }
}

/// The names of the plugins in `state`, in list order.
pub open spec fn names_in<P>(recs: Seq<LoadedPlugin<P>>, state: PluginState) -> Seq<Seq<char>>
    decreases recs.len(),
{
    if recs.len() == 0 {
        Seq::empty()
    } else {
        let rest = names_in(recs.drop_last(), state);
        if recs.last().state == state {
            rest.push(name_of(recs.last()))
        } else {
            rest
        }
    }
}

/// The list entry shown for a plugin.
pub open spec fn info_matches<P>(info: PluginInfo, p: LoadedPlugin<P>) -> bool {
    &&& info.name@ == p.manifest.plugin.name@
    &&& info.version@ == p.manifest.plugin.version@
    &&& info.description@ == match p.manifest.plugin.description {
        Some(d) => d@,
        None => Seq::<char>::empty(),
    }
    &&& info.state == p.state
}

/// `new` is `old` with plugin `idx` enabled: it holds one fresh subscription
/// per declared event type, appended to the bus in order, and every other
/// plugin is as it was.
pub open spec fn enabled_step<P, H>(
    old_recs: Seq<LoadedPlugin<P>>,
    new_recs: Seq<LoadedPlugin<P>>,
    old_subs: Seq<Subscriber<H>>,
    new_subs: Seq<Subscriber<H>>,
    first: SubscriptionId,
    idx: int,
) -> bool {
    &&& 0 <= idx < old_recs.len()
    &&& new_recs.len() == old_recs.len()
    &&& forall|j: int| 0 <= j < old_recs.len() && j != idx ==> #[trigger] new_recs[j] == old_recs[j]
    &&& new_recs[idx].manifest == old_recs[idx].manifest
    &&& new_recs[idx].state == PluginState::Enabled
    &&& appended_run(old_subs, new_subs, first, new_recs[idx].subscriptions@, declared_events(old_recs[idx]))
}

impl<P: Plugin> PluginManager<P> {
    /// The plugins, in the order they were loaded.
    pub closed spec fn records(&self) -> Seq<LoadedPlugin<P>> {
        self.plugins@
    }

    /// Names are unique, no held plugin is unloaded, and only an enabled
    /// plugin holds subscriptions, one per event type it declares.
    pub open spec fn wf(&self) -> bool {
        &&& forall|i: int, j: int|
            0 <= i < j < self.records().len() ==> name_of(#[trigger] self.records()[i]) != name_of(
                #[trigger] self.records()[j],
            )
        &&& forall|i: int| 0 <= i < self.records().len() ==> (#[trigger] self.records()[i]).state != PluginState::Unloaded
        &&& forall|i: int|
            0 <= i < self.records().len() ==> ((#[trigger] self.records()[i]).state != PluginState::Enabled
                ==> self.records()[i].subscriptions@.len() == 0)
        &&& forall|i: int|
            0 <= i < self.records().len() ==> ((#[trigger] self.records()[i]).state == PluginState::Enabled
                ==> self.records()[i].subscriptions@.len() == declared_events(self.records()[i]).len())
    }

    pub fn new() -> (m: Self)
        ensures
            m.wf(),
            m.records() == Seq::<LoadedPlugin<P>>::empty(),
    {
        PluginManager { plugins: Vec::new() }
    }

    /// The index of the plugin named `name`.
    fn find(&self, name: &str) -> (r: Option<usize>)
        ensures
            (match r {
                Some(i) => i < self.records().len() && name_of(self.records()[i as int]) == name@
                    && forall|k: int| 0 <= k < i ==> name_of(#[trigger] self.records()[k]) != name@,
                None => !has_name(self.records(), name@),
            }),
    {
        let mut i: usize = 0;
        while i < self.plugins.len()
            invariant
                i <= self.plugins@.len(),
                forall|k: int| 0 <= k < i ==> name_of(#[trigger] self.plugins@[k]) != name@,
            decreases self.plugins@.len() - i,
        {
            if crate::text::same_text(self.plugins[i].manifest.plugin.name.as_str(), name) {
                return Some(i);
            }
            i += 1;
        }
        None
    }

    /// Whether a plugin named `name` is loaded.
    pub fn has_plugin(&self, name: &str) -> (r: bool)
        ensures
            r == has_name(self.records(), name@),
    {
        self.find(name).is_some()
    }

    /// Registers a newly created plugin in state `Loaded`, after running its
    /// `on_load` when `run_on_load` is set. A name already present is refused.
    pub fn load_plugin(&mut self, manifest: PluginManifest, instance: P, run_on_load: bool) -> (r: Result<PluginLoaded, PluginError>)
        requires
            old(self).wf(),
        ensures
            final(self).wf(),
            has_name(old(self).records(), manifest.plugin.name@) ==> (match r {
                Err(PluginError::AlreadyLoaded(n)) => n@ == manifest.plugin.name@,
                _ => false,
            }) && final(self).records() == old(self).records(),
            !has_name(old(self).records(), manifest.plugin.name@) ==> (match r {
                Ok(ev) => {
                    &&& ev.name@ == manifest.plugin.name@
                    &&& final(self).records().len() == old(self).records().len() + 1
                    &&& final(self).records().drop_last() == old(self).records()
                    &&& final(self).records().last().manifest == manifest
                    &&& final(self).records().last().state == PluginState::Loaded
                    &&& final(self).records().last().subscriptions@.len() == 0
                },
                Err(PluginError::LoadFailed(_)) => run_on_load && final(self).records() == old(self).records(),
                _ => false,
            }),
    {
        if self.find(manifest.plugin.name.as_str()).is_some() {
            let n = manifest.plugin.name.clone();
            return Err(PluginError::AlreadyLoaded(n));
        }
        let mut instance = instance;
        if run_on_load {
            match instance.on_load() {
                Ok(()) => {},
                Err(e) => {
                    return Err(PluginError::LoadFailed(e));
                },
            }
        }
        let name = manifest.plugin.name.clone();
        let ghost old_recs = self.plugins@;
        self.plugins.push(LoadedPlugin { manifest, instance, state: PluginState::Loaded, subscriptions: Vec::new() });
        proof {
            assert(self.plugins@.drop_last() =~= old_recs);
            assert forall|i: int, j: int| 0 <= i < j < self.plugins@.len() implies name_of(
                #[trigger] self.plugins@[i],
            ) != name_of(#[trigger] self.plugins@[j]) by {
                if j == self.plugins@.len() - 1 {
                    assert(name_of(old_recs[i]) == name_of(self.plugins@[i]));
                }
            }
        }
        Ok(PluginLoaded { name })
    }

    /// Completes enabling plugin `idx` once its `on_enable` has reported
    /// `outcome`: on success the plugin subscribes a handler made by
    /// `make_handler` for each event type it declares, in declaration order,
    /// and becomes `Enabled`; on failure nothing changes.
    pub fn finish_enable<H, M: Fn(&P, &String) -> H>(
        &mut self,
        bus: &mut EventBus<H>,
        idx: usize,
        outcome: Result<(), String>,
        make_handler: &M,
    ) -> (r: Result<PluginEnabled, PluginError>)
        requires
            old(self).wf(),
            old(bus).wf(),
            idx < old(self).records().len(),
            old(self).records()[idx as int].state == PluginState::Loaded
                || old(self).records()[idx as int].state == PluginState::Disabled,
            old(bus).next_sid() + declared_events(old(self).records()[idx as int]).len() < u64::MAX,
            forall|p: &P, e: &String| make_handler.requires((p, e)),
        ensures
            final(self).wf(),
            final(bus).wf(),
            (match outcome {
                Err(msg) => {
                    &&& (match r {
                        Err(PluginError::EnableFailed(m)) => m == msg,
                        _ => false,
                    })
                    &&& final(self).records() == old(self).records()
                    &&& final(bus).entries() == old(bus).entries()
                    &&& final(bus).next_sid() == old(bus).next_sid()
                },
                Ok(()) => {
                    &&& (match r {
                        Ok(ev) => ev.name@ == name_of(old(self).records()[idx as int])
                            && ev.needs_hook == wants_mouse_hook(old(self).records()[idx as int]),
                        Err(_) => false,
                    })
                    &&& enabled_step(
                        old(self).records(),
                        final(self).records(),
                        old(bus).entries(),
                        final(bus).entries(),
                        old(bus).next_sid(),
                        idx as int,
                    )
                    &&& final(self).records()[idx as int].instance == old(self).records()[idx as int].instance
                    &&& final(bus).next_sid() == old(bus).next_sid() + declared_events(old(self).records()[idx as int]).len()
                    &&& forall|k: int|
                        0 <= k < declared_events(old(self).records()[idx as int]).len() ==> make_handler.ensures(
                            (&old(self).records()[idx as int].instance, &old(self).records()[idx as int].manifest.events.subscribes@[k]),
                            #[trigger] final(bus).entries()[old(bus).entries().len() + k].handler,
                        )
                },
            }),
    {
        match outcome {
            Err(e) => {
                return Err(PluginError::EnableFailed(e));
            },
            Ok(()) => {},
        }
        let ghost old_recs = self.plugins@;
        let ghost old_subs = bus.entries();
        let ghost first = bus.next_sid();
        let mut p = self.plugins.remove(idx);
        let ghost types = declared_events(p);
        let n = p.manifest.events.subscribes.len();
        let mut ids: Vec<SubscriptionId> = Vec::new();
        let mut k: usize = 0;
        proof {
            assert(old_subs.take(old_subs.len() as int) =~= old_subs);
        }
        while k < n
            invariant
                n == p.manifest.events.subscribes@.len(),
                types == declared_events(p),
                idx < old_recs.len(),
                p == old_recs[idx as int],
                k <= n,
                bus.wf(),
                first + n < u64::MAX,
                bus.next_sid() == first + k,
                appended_run(old_subs, bus.entries(), first, ids@, types.take(k as int)),
                forall|j: int|
                    0 <= j < k ==> make_handler.ensures(
                        (&p.instance, &p.manifest.events.subscribes@[j]),
                        #[trigger] bus.entries()[old_subs.len() + j].handler,
                    ),
                forall|a: &P, e: &String| make_handler.requires((a, e)),
            decreases n - k,
        {
            let et = &p.manifest.events.subscribes[k];
            let h = make_handler(&p.instance, et);
            let ghost before = bus.entries();
            let id = bus.subscribe(et.as_str(), h);
            ids.push(id);
            proof {
                let after = bus.entries();
                assert(after.drop_last() == before);
                assert forall|j: int| 0 <= j < before.len() implies after[j] == before[j] by {
                    assert(after.drop_last()[j] == after[j]);
                }
                assert(after.take(old_subs.len() as int) =~= before.take(old_subs.len() as int));
                assert(types.take(k + 1) =~= types.take(k as int).push(types[k as int]));
                assert(*et == p.manifest.events.subscribes@[k as int]);
                assert(types[k as int] == et@);
                assert(after[old_subs.len() + k].id == id);
                assert forall|j: int| 0 <= j < k + 1 implies make_handler.ensures(
                    (&p.instance, &p.manifest.events.subscribes@[j]),
                    #[trigger] after[old_subs.len() + j].handler,
                ) by {
                    if j < k {
                        assert(after[old_subs.len() + j] == before[old_subs.len() + j]);
                    }
                }
                assert forall|j: int| 0 <= j < k + 1 implies (#[trigger] after[old_subs.len() + j]).id == ids@[j]
                    && after[old_subs.len() + j].event_type@ == types.take(k + 1)[j] by {
                    if j < k {
                        assert(after[old_subs.len() + j] == before[old_subs.len() + j]);
                    }
                }
            }
            k += 1;
        }
        proof {
            assert(types.take(n as int) =~= types);
        }
        p.subscriptions = ids;
        p.state = PluginState::Enabled;
        let hook = match p.manifest.hooks.mouse {
            Some(b) => b,
            None => false,
        };
        let name = p.manifest.plugin.name.clone();
        self.plugins.insert(idx, p);
        proof {
            assert forall|j: int| 0 <= j < old_recs.len() && j != idx implies #[trigger] self.plugins@[j] == old_recs[j] by {
                if j < idx {
                } else {
                }
            }
            assert forall|i: int, j: int| 0 <= i < j < self.plugins@.len() implies name_of(
                #[trigger] self.plugins@[i],
            ) != name_of(#[trigger] self.plugins@[j]) by {
                assert(name_of(self.plugins@[i]) == name_of(old_recs[i]));
                assert(name_of(self.plugins@[j]) == name_of(old_recs[j]));
            }
        }
        Ok(PluginEnabled { name, needs_hook: hook })
    }

    /// Enables the plugin named `name`: a `Loaded` or `Disabled` plugin runs its
    /// `on_enable` and, if that succeeds, subscribes its handlers (see
    /// `finish_enable`); an already enabled plugin is reported as enabled
    /// without a hook request; an unknown name is an error.
    pub fn enable_plugin<H, M: Fn(&P, &String) -> H>(
        &mut self,
        bus: &mut EventBus<H>,
        name: &str,
        make_handler: &M,
    ) -> (r: Result<PluginEnabled, PluginError>)
        requires
            old(self).wf(),
            old(bus).wf(),
            forall|i: int|
                0 <= i < old(self).records().len() && name_of(#[trigger] old(self).records()[i]) == name@
                    && old(self).records()[i].state != PluginState::Enabled
                    ==> old(bus).next_sid() + declared_events(old(self).records()[i]).len() < u64::MAX
                    && forall|p: &P, e: &String| make_handler.requires((p, e)),
        ensures
            final(self).wf(),
            final(bus).wf(),
            !has_name(old(self).records(), name@) ==> {
                &&& (match r {
                    Err(PluginError::NotFound(n)) => n@ == name@,
                    _ => false,
                })
                &&& final(self).records() == old(self).records()
                &&& final(bus).entries() == old(bus).entries()
                &&& final(bus).next_sid() == old(bus).next_sid()
            },
            forall|i: int|
                0 <= i < old(self).records().len() && name_of(#[trigger] old(self).records()[i]) == name@ ==> {
                    &&& old(self).records()[i].state == PluginState::Enabled ==> {
                        &&& (match r {
                            Ok(ev) => ev.name@ == name@ && !ev.needs_hook,
                            Err(_) => false,
                        })
                        &&& final(self).records() == old(self).records()
                        &&& final(bus).entries() == old(bus).entries()
                        &&& final(bus).next_sid() == old(bus).next_sid()
                    }
                    &&& old(self).records()[i].state != PluginState::Enabled ==> {
                        ||| {
                            &&& (match r {
                                Ok(ev) => ev.name@ == name@ && ev.needs_hook == wants_mouse_hook(old(self).records()[i]),
                                Err(_) => false,
                            })
                            &&& enabled_step(
                                old(self).records(),
                                final(self).records(),
                                old(bus).entries(),
                                final(bus).entries(),
                                old(bus).next_sid(),
                                i,
                            )
                            &&& final(bus).next_sid() == old(bus).next_sid() + declared_events(old(self).records()[i]).len()
                            &&& forall|k: int|
                                0 <= k < declared_events(old(self).records()[i]).len() ==> make_handler.ensures(
                                    (&final(self).records()[i].instance, &old(self).records()[i].manifest.events.subscribes@[k]),
                                    #[trigger] final(bus).entries()[old(bus).entries().len() + k].handler,
                                )
                        }
                        ||| {
                            &&& (match r {
                                Err(PluginError::EnableFailed(_)) => true,
                                _ => false,
                            })
                            &&& same_records(old(self).records(), final(self).records())
                            &&& forall|j: int|
                                0 <= j < old(self).records().len() && j != i ==> #[trigger] final(self).records()[j]
                                    == old(self).records()[j]
                            &&& final(bus).entries() == old(bus).entries()
                            &&& final(bus).next_sid() == old(bus).next_sid()
                        }
                    }
                },
    {
        let idx = match self.find(name) {
            None => {
                return Err(PluginError::NotFound(name.to_owned()));
            },
            Some(i) => i,
        };
        proof {
            assert(name_of(self.plugins@[idx as int]) == name@);
        }
        let st = self.plugins[idx].state;
        if st == PluginState::Enabled {
            return Ok(PluginEnabled { name: name.to_owned(), needs_hook: false });
        }
        if st == PluginState::Unloaded {
            return Err(PluginError::Unloaded);
        }
        let ghost old_recs = self.plugins@;
        let mut p = self.plugins.remove(idx);
        let outcome = p.instance.on_enable();
        self.plugins.insert(idx, p);
        proof {
            assert forall|j: int| 0 <= j < old_recs.len() && j != idx implies #[trigger] self.plugins@[j] == old_recs[j] by {
                if j < idx {
                } else {
                }
            }
            assert(same_records(old_recs, self.plugins@));
            assert forall|i: int, j: int| 0 <= i < j < self.plugins@.len() implies name_of(
                #[trigger] self.plugins@[i],
            ) != name_of(#[trigger] self.plugins@[j]) by {
                assert(name_of(self.plugins@[i]) == name_of(old_recs[i]));
                assert(name_of(self.plugins@[j]) == name_of(old_recs[j]));
            }
            assert(declared_events(self.plugins@[idx as int]) == declared_events(old_recs[idx as int]));
        }
        let r = self.finish_enable(bus, idx, outcome, make_handler);
        proof {
            assert forall|i: int| 0 <= i < old_recs.len() && name_of(#[trigger] old_recs[i]) == name@ implies i == idx by {
                if i != idx {
                    assert(name_of(old_recs[idx as int]) == name@);
                }
            }
            assert forall|j: int| 0 <= j < old_recs.len() && j != idx implies #[trigger] self.plugins@[j] == old_recs[j] by {}
        }
        r
    }

    /// Disables the plugin named `name` if it is enabled: its subscriptions
    /// are removed from the bus, its `on_disable` runs and it becomes
    /// `Disabled`; the returned notice is to be published. Otherwise nothing
    /// happens.
    pub fn disable_plugin<H>(&mut self, bus: &mut EventBus<H>, name: &str) -> (r: Option<PluginDisabled>)
        requires
            old(self).wf(),
            old(bus).wf(),
        ensures
            final(self).wf(),
            final(bus).wf(),
            final(bus).next_sid() == old(bus).next_sid(),
            (forall|i: int|
                0 <= i < old(self).records().len() && name_of(#[trigger] old(self).records()[i]) == name@
                    ==> old(self).records()[i].state != PluginState::Enabled)
                ==> r is None && final(self).records() == old(self).records() && final(bus).entries() == old(bus).entries(),
            forall|i: int|
                0 <= i < old(self).records().len() && name_of(#[trigger] old(self).records()[i]) == name@
                    && old(self).records()[i].state == PluginState::Enabled ==> {
                    &&& (match r {
                        Some(ev) => ev.name@ == name@,
                        None => false,
                    })
                    &&& final(bus).entries() == without_ids(old(bus).entries(), old(self).records()[i].subscriptions@)
                    &&& final(self).records().len() == old(self).records().len()
                    &&& forall|j: int| 0 <= j < old(self).records().len() && j != i ==> #[trigger] final(self).records()[j] == old(self).records()[j]
                    &&& final(self).records()[i].manifest == old(self).records()[i].manifest
                    &&& final(self).records()[i].state == PluginState::Disabled
                    &&& final(self).records()[i].subscriptions@.len() == 0
                },
    {
        let idx = match self.find(name) {
            None => {
                return None;
            },
            Some(i) => i,
        };
        if self.plugins[idx].state != PluginState::Enabled {
            return None;
        }
        let ghost old_recs = self.plugins@;
        let ghost old_subs = bus.entries();
        let mut p = self.plugins.remove(idx);
        let n = p.subscriptions.len();
        let mut k: usize = 0;
        while k < n
            invariant
                n == p.subscriptions@.len(),
                k <= n,
                bus.wf(),
                bus.next_sid() == old(bus).next_sid(),
                bus.entries() == without_ids(old_subs, p.subscriptions@.take(k as int)),
            decreases n - k,
        {
            let sid = p.subscriptions[k];
            bus.unsubscribe(sid);
            proof {
                assert(p.subscriptions@.take(k + 1).drop_last() =~= p.subscriptions@.take(k as int));
            }
            k += 1;
        }
        proof {
            assert(p.subscriptions@.take(n as int) =~= p.subscriptions@);
        }
        p.subscriptions = Vec::new();
        p.instance.on_disable();
        p.state = PluginState::Disabled;
        self.plugins.insert(idx, p);
        proof {
            assert forall|j: int| 0 <= j < old_recs.len() && j != idx implies #[trigger] self.plugins@[j] == old_recs[j] by {
                if j < idx {
                } else {
                }
            }
            assert forall|i: int, j: int| 0 <= i < j < self.plugins@.len() implies name_of(
                #[trigger] self.plugins@[i],
            ) != name_of(#[trigger] self.plugins@[j]) by {
                assert(name_of(self.plugins@[i]) == name_of(old_recs[i]));
                assert(name_of(self.plugins@[j]) == name_of(old_recs[j]));
            }
            assert forall|i: int| 0 <= i < old_recs.len() && name_of(#[trigger] old_recs[i]) == name@ implies i == idx by {
                if i != idx {
                    assert(name_of(old_recs[idx as int]) == name@);
                }
            }
        }
        Some(PluginDisabled { name: name.to_owned() })
    }

    /// Removes the plugin named `name`: its subscriptions leave the bus and its
    /// `on_unload` runs. A notice is returned, to be published, when the
    /// plugin had asked for the mouse hook.
    pub fn delete_plugin<H>(&mut self, bus: &mut EventBus<H>, name: &str) -> (r: Option<PluginDisabled>)
        requires
            old(self).wf(),
            old(bus).wf(),
        ensures
            final(self).wf(),
            final(bus).wf(),
            final(bus).next_sid() == old(bus).next_sid(),
            !has_name(old(self).records(), name@) ==> r is None && final(self).records() == old(self).records()
                && final(bus).entries() == old(bus).entries(),
            forall|i: int|
                0 <= i < old(self).records().len() && name_of(#[trigger] old(self).records()[i]) == name@ ==> {
                    &&& (match r {
                        Some(ev) => ev.name@ == name@ && wants_mouse_hook(old(self).records()[i]),
                        None => !wants_mouse_hook(old(self).records()[i]),
                    })
                    &&& final(bus).entries() == without_ids(old(bus).entries(), old(self).records()[i].subscriptions@)
                    &&& final(self).records() == old(self).records().remove(i)
                },
            !has_name(final(self).records(), name@),
    {
        let idx = match self.find(name) {
            None => {
                return None;
            },
            Some(i) => i,
        };
        let ghost old_recs = self.plugins@;
        let ghost old_subs = bus.entries();
        let mut p = self.plugins.remove(idx);
        let n = p.subscriptions.len();
        let mut k: usize = 0;
        while k < n
            invariant
                n == p.subscriptions@.len(),
                k <= n,
                bus.wf(),
                bus.next_sid() == old(bus).next_sid(),
                bus.entries() == without_ids(old_subs, p.subscriptions@.take(k as int)),
            decreases n - k,
        {
            let sid = p.subscriptions[k];
            bus.unsubscribe(sid);
            proof {
                assert(p.subscriptions@.take(k + 1).drop_last() =~= p.subscriptions@.take(k as int));
            }
            k += 1;
        }
        proof {
            assert(p.subscriptions@.take(n as int) =~= p.subscriptions@);
        }
        let had = match p.manifest.hooks.mouse {
            Some(b) => b,
            None => false,
        };
        p.instance.on_unload();
        proof {
            assert(self.plugins@ =~= old_recs.remove(idx as int));
            assert forall|i: int| 0 <= i < old_recs.len() && name_of(#[trigger] old_recs[i]) == name@ implies i == idx by {
                if i != idx {
                    assert(name_of(old_recs[idx as int]) == name@);
                }
            }
            assert forall|i: int, j: int| 0 <= i < j < self.plugins@.len() implies name_of(
                #[trigger] self.plugins@[i],
            ) != name_of(#[trigger] self.plugins@[j]) by {
                let oi = if i < idx { i } else { i + 1 };
                let oj = if j < idx { j } else { j + 1 };
                assert(self.plugins@[i] == old_recs[oi]);
                assert(self.plugins@[j] == old_recs[oj]);
            }
            assert(!has_name(self.plugins@, name@)) by {
                if has_name(self.plugins@, name@) {
                    let i = choose|i: int| 0 <= i < self.plugins@.len() && name_of(#[trigger] self.plugins@[i]) == name@;
                    let oi = if i < idx { i } else { i + 1 };
                    assert(self.plugins@[i] == old_recs[oi]);
                }
            }
            assert forall|i: int| 0 <= i < self.plugins@.len() implies (#[trigger] self.plugins@[i]).state != PluginState::Unloaded by {
                let oi = if i < idx { i } else { i + 1 };
                assert(self.plugins@[i] == old_recs[oi]);
            }
        }
        if had {
            Some(PluginDisabled { name: name.to_owned() })
        } else {
            None
        }
    }

    /// Removes the plugin named `name` without touching the bus and runs its
    /// `on_unload`; says whether there was such a plugin.
    pub fn unload_plugin(&mut self, name: &str) -> (r: bool)
        requires
            old(self).wf(),
        ensures
            final(self).wf(),
            r == has_name(old(self).records(), name@),
            !r ==> final(self).records() == old(self).records(),
            forall|i: int|
                0 <= i < old(self).records().len() && name_of(#[trigger] old(self).records()[i]) == name@
                    ==> final(self).records() == old(self).records().remove(i),
            !has_name(final(self).records(), name@),
    {
        let idx = match self.find(name) {
            None => {
                return false;
            },
            Some(i) => i,
        };
        let ghost old_recs = self.plugins@;
        let mut p = self.plugins.remove(idx);
        p.instance.on_unload();
        proof {
            assert(self.plugins@ =~= old_recs.remove(idx as int));
            assert(has_name(old_recs, name@)) by {
                assert(name_of(old_recs[idx as int]) == name@);
            }
            assert forall|i: int| 0 <= i < old_recs.len() && name_of(#[trigger] old_recs[i]) == name@ implies i == idx by {
                if i != idx {
                    assert(name_of(old_recs[idx as int]) == name@);
                }
            }
            assert forall|i: int, j: int| 0 <= i < j < self.plugins@.len() implies name_of(
                #[trigger] self.plugins@[i],
            ) != name_of(#[trigger] self.plugins@[j]) by {
                let oi = if i < idx { i } else { i + 1 };
                let oj = if j < idx { j } else { j + 1 };
                assert(self.plugins@[i] == old_recs[oi]);
                assert(self.plugins@[j] == old_recs[oj]);
            }
            assert(!has_name(self.plugins@, name@)) by {
                if has_name(self.plugins@, name@) {
                    let i = choose|i: int| 0 <= i < self.plugins@.len() && name_of(#[trigger] self.plugins@[i]) == name@;
                    let oi = if i < idx { i } else { i + 1 };
                    assert(self.plugins@[i] == old_recs[oi]);
                }
            }
            assert forall|i: int| 0 <= i < self.plugins@.len() implies (#[trigger] self.plugins@[i]).state != PluginState::Unloaded by {
                let oi = if i < idx { i } else { i + 1 };
                assert(self.plugins@[i] == old_recs[oi]);
            }
        }
        true
    }

    /// Name, version, description (empty when absent) and state of every
    /// plugin, in list order.
    pub fn plugin_list(&self) -> (r: Vec<PluginInfo>)
        ensures
            r@.len() == self.records().len(),
            forall|i: int| 0 <= i < r@.len() ==> info_matches(#[trigger] r@[i], self.records()[i]),
    {
        let mut r: Vec<PluginInfo> = Vec::new();
        let mut i: usize = 0;
        while i < self.plugins.len()
            invariant
                i <= self.plugins@.len(),
                r@.len() == i,
                forall|k: int| 0 <= k < i ==> info_matches(#[trigger] r@[k], self.plugins@[k]),
            decreases self.plugins@.len() - i,
        {
            let p = &self.plugins[i];
            let description = match &p.manifest.plugin.description {
                Some(d) => d.clone(),
                None => String::new(),
            };
            r.push(PluginInfo {
                name: p.manifest.plugin.name.clone(),
                version: p.manifest.plugin.version.clone(),
                description,
                state: p.state,
            });
            i += 1;
        }
        r
    }

    /// The names of all plugins, in list order.
    pub fn plugin_names(&self) -> (r: Vec<String>)
        ensures
            r@.len() == self.records().len(),
            forall|i: int| 0 <= i < r@.len() ==> (#[trigger] r@[i])@ == name_of(self.records()[i]),
    {
        let mut r: Vec<String> = Vec::new();
        let mut i: usize = 0;
        while i < self.plugins.len()
            invariant
                i <= self.plugins@.len(),
                r@.len() == i,
                forall|k: int| 0 <= k < i ==> (#[trigger] r@[k])@ == name_of(self.plugins@[k]),
            decreases self.plugins@.len() - i,
        {
            r.push(self.plugins[i].manifest.plugin.name.clone());
            i += 1;
        }
        r
    }

    /// The names of the plugins in `state`, in list order.
    pub fn names_in_state(&self, state: PluginState) -> (r: Vec<String>)
        ensures
            texts(r@) == names_in(self.records(), state),
    {
        let mut r: Vec<String> = Vec::new();
        let mut i: usize = 0;
        while i < self.plugins.len()
            invariant
                i <= self.plugins@.len(),
                texts(r@) == names_in(self.plugins@.take(i as int), state),
            decreases self.plugins@.len() - i,
        {
            proof {
                assert(self.plugins@.take(i + 1).drop_last() =~= self.plugins@.take(i as int));
            }
            if self.plugins[i].state == state {
                r.push(self.plugins[i].manifest.plugin.name.clone());
            }
            i += 1;
            proof {
                assert(texts(r@) =~= names_in(self.plugins@.take(i as int), state));
            }
        }
        assert(self.plugins@.take(i as int) =~= self.plugins@);
        r
    }

    /// How many plugins are in `state`.
    pub fn count_in_state(&self, state: PluginState) -> (r: usize)
        ensures
            r == names_in(self.records(), state).len(),
    {
        let mut n: usize = 0;
        let mut i: usize = 0;
        while i < self.plugins.len()
            invariant
                i <= self.plugins@.len(),
                n == names_in(self.plugins@.take(i as int), state).len(),
                n <= i,
            decreases self.plugins@.len() - i,
        {
            proof {
                assert(self.plugins@.take(i + 1).drop_last() =~= self.plugins@.take(i as int));
            }
            if self.plugins[i].state == state {
                n += 1;
            }
            i += 1;
        }
        assert(self.plugins@.take(i as int) =~= self.plugins@);
        n
    }

    /// How many event types the plugin named `name` declares (0 when there
    /// is no such plugin): the subscriptions enabling it adds.
    pub fn declared_event_count(&self, name: &str) -> (r: usize)
        requires
            self.wf(),
        ensures
            !has_name(self.records(), name@) ==> r == 0,
            forall|i: int|
                0 <= i < self.records().len() && name_of(#[trigger] self.records()[i]) == name@
                    ==> r == declared_events(self.records()[i]).len(),
    {
        match self.find(name) {
            Some(i) => {
                proof {
                    assert forall|k: int|
                        0 <= k < self.records().len() && name_of(#[trigger] self.records()[k]) == name@ implies k
                            == i by {
                        if k != i {
                            assert(name_of(self.records()[i as int]) == name@);
                        }
                    }
                }
                self.plugins[i].manifest.events.subscribes.len()
            },
            None => 0,
        }
    }

    /// How many event types the loaded (not yet enabled) plugins declare
    /// together: the subscriptions enabling all of them may add.
    pub fn loaded_event_count(&self) -> (r: u64)
        requires
            loaded_events(self.records()) <= u64::MAX,
        ensures
            r == loaded_events(self.records()),
    {
        let mut n: u64 = 0;
        let mut i: usize = 0;
        while i < self.plugins.len()
            invariant
                i <= self.plugins@.len(),
                loaded_events(self.plugins@) <= u64::MAX,
                n == loaded_events(self.plugins@.take(i as int)),
            decreases self.plugins@.len() - i,
        {
            proof {
                assert(self.plugins@.take(i + 1).drop_last() =~= self.plugins@.take(i as int));
                lemma_loaded_events_prefix(self.plugins@, i + 1);
            }
            if self.plugins[i].state == PluginState::Loaded {
                n = n + self.plugins[i].manifest.events.subscribes.len() as u64;
            }
            i += 1;
        }
        assert(self.plugins@.take(i as int) =~= self.plugins@);
        n
    }

    /// Enables every loaded plugin, in list order; plugins that are enabled,
    /// disabled or failed stay as they are. One outcome per loaded plugin is
    /// returned, in the same order: the notice to publish, or the error to
    /// report.
    #[verifier::rlimit(40)]
    pub fn enable_all<H, M: Fn(&P, &String) -> H>(&mut self, bus: &mut EventBus<H>, make_handler: &M) -> (results: Vec<
        Result<PluginEnabled, PluginError>,
    >)
        requires
            old(self).wf(),
            old(bus).wf(),
            old(bus).next_sid() + loaded_events(old(self).records()) < u64::MAX,
            forall|p: &P, e: &String| make_handler.requires((p, e)),
        ensures
            final(self).wf(),
            final(bus).wf(),
            results@.len() == names_in(old(self).records(), PluginState::Loaded).len(),
            final(self).records().len() == old(self).records().len(),
            forall|i: int|
                0 <= i < old(self).records().len() ==> (#[trigger] final(self).records()[i]).manifest
                    == old(self).records()[i].manifest,
            forall|i: int|
                0 <= i < old(self).records().len() && old(self).records()[i].state != PluginState::Loaded
                    ==> #[trigger] final(self).records()[i] == old(self).records()[i],
            forall|i: int|
                0 <= i < old(self).records().len() && old(self).records()[i].state == PluginState::Loaded
                    ==> enable_outcome(
                    results@[loaded_rank(old(self).records(), i)],
                    old(self).records()[i],
                    #[trigger] final(self).records()[i],
                ),
    {
        let ghost old_recs = self.plugins@;
        let ghost start = bus.next_sid();
        let mut results: Vec<Result<PluginEnabled, PluginError>> = Vec::new();
        let mut i: usize = 0;
        while i < self.plugins.len()
            invariant
                old_recs.len() == self.records().len(),
                i <= old_recs.len(),
                self.wf(),
                bus.wf(),
                forall|p: &P, e: &String| make_handler.requires((p, e)),
                start + loaded_events(old_recs) < u64::MAX,
                bus.next_sid() <= start + loaded_events(old_recs.take(i as int)),
                results@.len() == names_in(old_recs.take(i as int), PluginState::Loaded).len(),
                forall|j: int| 0 <= j < old_recs.len() ==> (#[trigger] self.records()[j]).manifest == old_recs[j].manifest,
                forall|j: int| i <= j < old_recs.len() ==> #[trigger] self.records()[j] == old_recs[j],
                forall|j: int|
                    0 <= j < i && old_recs[j].state != PluginState::Loaded ==> #[trigger] self.records()[j] == old_recs[j],
                forall|j: int|
                    0 <= j < i && old_recs[j].state == PluginState::Loaded ==> enable_outcome(
                        results@[loaded_rank(old_recs, j)],
                        old_recs[j],
                        #[trigger] self.records()[j],
                    ),
            decreases old_recs.len() - i,
        {
            proof {
                assert(old_recs.take(i + 1).drop_last() =~= old_recs.take(i as int));
                lemma_loaded_events_prefix(old_recs, i + 1);
            }
            if self.plugins[i].state == PluginState::Loaded {
                let name = self.plugins[i].manifest.plugin.name.clone();
                let ghost before_recs = self.records();
                let ghost before_results = results@;
                proof {
                    assert forall|j: int| 0 <= j < before_recs.len() && name_of(#[trigger] before_recs[j]) == name@ implies j
                        == i by {
                        if j != i {
                            assert(name_of(before_recs[i as int]) != name_of(before_recs[j]));
                        }
                    }
                    assert(declared_events(before_recs[i as int]).len() == old_recs[i as int].manifest.events.subscribes@.len());
                }
                let r = self.enable_plugin(bus, name.as_str(), make_handler);
                results.push(r);
                proof {
                    assert(names_in(old_recs.take(i + 1), PluginState::Loaded) =~= names_in(old_recs.take(i as int), PluginState::Loaded).push(name_of(old_recs[i as int])));
                    assert forall|j: int| 0 <= j < old_recs.len() && j != i implies #[trigger] self.records()[j] == before_recs[j] by {}
                    assert forall|j: int|
                        0 <= j < i && old_recs[j].state == PluginState::Loaded implies enable_outcome(
                            results@[loaded_rank(old_recs, j)],
                            old_recs[j],
                            #[trigger] self.records()[j],
                        ) by {
                        lemma_names_in_prefix_len(old_recs, j, i as int);
                        assert(results@[loaded_rank(old_recs, j)] == before_results[loaded_rank(old_recs, j)]);
                    }
                    assert(loaded_rank(old_recs, i as int) == before_results.len());
                }
            }
            i += 1;
        }
        assert(old_recs.take(i as int) =~= old_recs);
        results
    }

    /// Disables and removes every plugin, in list order, running each one's
    /// `on_disable` (when it was enabled) and `on_unload`. The notices of the
    /// plugins that were enabled are returned, to be published, and their
    /// subscriptions leave the bus.
    pub fn unload_all<H>(&mut self, bus: &mut EventBus<H>) -> (notices: Vec<PluginDisabled>)
        requires
            old(self).wf(),
            old(bus).wf(),
        ensures
            final(self).wf(),
            final(bus).wf(),
            final(self).records().len() == 0,
            notice_names(notices@) == names_in(old(self).records(), PluginState::Enabled),
            final(bus).entries() == without_ids(old(bus).entries(), all_subscriptions(old(self).records())),
            final(bus).next_sid() == old(bus).next_sid(),
    {
        let names = self.plugin_names();
        let ghost old_recs = self.plugins@;
        let ghost old_subs = bus.entries();
        let mut notices: Vec<PluginDisabled> = Vec::new();
        let mut k: usize = 0;
        while k < names.len()
            invariant
                names@.len() == old_recs.len(),
                forall|i: int| 0 <= i < names@.len() ==> (#[trigger] names@[i])@ == name_of(old_recs[i]),
                k <= names@.len(),
                self.wf(),
                bus.wf(),
                self.records() == old_recs.subrange(k as int, old_recs.len() as int),
                notice_names(notices@) == names_in(old_recs.take(k as int), PluginState::Enabled),
                bus.entries() == without_ids(old_subs, all_subscriptions(old_recs.take(k as int))),
                bus.next_sid() == old(bus).next_sid(),
            decreases names@.len() - k,
        {
            let ghost cur = self.records();
            let ghost rec = old_recs[k as int];
            assert(cur[0] == rec);
            assert(old_recs.take(k + 1).drop_last() =~= old_recs.take(k as int));
            assert(old_recs.take(k + 1).last() == rec);
            proof {
                assert forall|i: int| 0 <= i < cur.len() && name_of(#[trigger] cur[i]) == name_of(rec) implies i
                    == 0 by {
                    if i != 0 {
                        assert(name_of(cur[0]) != name_of(cur[i]));
                    }
                }
            }
            match self.disable_plugin(bus, names[k].as_str()) {
                Some(ev) => {
                    proof {
                        lemma_without_ids_append(old_subs, all_subscriptions(old_recs.take(k as int)), rec.subscriptions@);
                    }
                    notices.push(ev);
                    assert(notice_names(notices@) =~= notice_names(notices@.drop_last()).push(ev.name@));
                },
                None => {
                    assert(rec.state != PluginState::Enabled);
                    assert(rec.subscriptions@.len() == 0);
                    assert(all_subscriptions(old_recs.take(k + 1)) =~= all_subscriptions(old_recs.take(k as int)));
                },
            }
            let ghost mid = self.records();
            self.unload_plugin(names[k].as_str());
            proof {
                assert(name_of(mid[0]) == name_of(rec));
                assert(self.records() == mid.remove(0));
                assert(self.records() =~= old_recs.subrange(k + 1, old_recs.len() as int));
            }
            k += 1;
        }
        assert(old_recs.take(k as int) =~= old_recs);
        notices
    }

    /// The names of the enabled plugins that want the mouse hook.
    pub fn hook_requests(&self) -> (r: Vec<String>)
        ensures
            texts(r@) == hook_requesters(self.records()),
    {
        let mut r: Vec<String> = Vec::new();
        let mut i: usize = 0;
        while i < self.plugins.len()
            invariant
                i <= self.plugins@.len(),
                texts(r@) == hook_requesters(self.plugins@.take(i as int)),
            decreases self.plugins@.len() - i,
        {
            proof {
                assert(self.plugins@.take(i + 1).drop_last() =~= self.plugins@.take(i as int));
            }
            let p = &self.plugins[i];
            match p.manifest.hooks.mouse {
                Some(mouse) => {
                    if mouse && p.state == PluginState::Enabled {
                        r.push(p.manifest.plugin.name.clone());
                    }
                },
                None => {},
            }
            i += 1;
            proof {
                assert(texts(r@) =~= hook_requesters(self.plugins@.take(i as int)));
            }
        }
        assert(self.plugins@.take(i as int) =~= self.plugins@);
        r
    }

    /// Whether some enabled plugin wants the mouse hook.
    pub fn any_hook_requested(&self) -> (r: bool)
        ensures
            r == exists|i: int|
                0 <= i < self.records().len() && wants_mouse_hook(#[trigger] self.records()[i])
                    && self.records()[i].state == PluginState::Enabled,
    {
        let mut i: usize = 0;
        while i < self.plugins.len()
            invariant
                i <= self.plugins@.len(),
                forall|k: int|
                    0 <= k < i ==> !(wants_mouse_hook(#[trigger] self.plugins@[k]) && self.plugins@[k].state
                        == PluginState::Enabled),
            decreases self.plugins@.len() - i,
        {
            let p = &self.plugins[i];
            let mouse = match p.manifest.hooks.mouse {
                Some(b) => b,
                None => false,
            };
            if mouse && p.state == PluginState::Enabled {
                assert(wants_mouse_hook(self.records()[i as int]));
                return true;
            }
            i += 1;
        }
        false
    }
}

/// Some enabled plugin wants the mouse hook exactly when the list of hook
/// requests is not empty.
pub proof fn law_any_hook_iff_requests<P>(recs: Seq<LoadedPlugin<P>>)
    ensures
        (exists|i: int| 0 <= i < recs.len() && wants_mouse_hook(#[trigger] recs[i]) && recs[i].state == PluginState::Enabled)
            <==> hook_requesters(recs).len() > 0,
    decreases recs.len(),
{
    if recs.len() > 0 {
        let d = recs.drop_last();
        law_any_hook_iff_requests(d);
        if exists|i: int| 0 <= i < recs.len() && wants_mouse_hook(#[trigger] recs[i]) && recs[i].state == PluginState::Enabled {
            let i = choose|i: int| 0 <= i < recs.len() && wants_mouse_hook(#[trigger] recs[i]) && recs[i].state == PluginState::Enabled;
            if i < recs.len() - 1 {
                assert(d[i] == recs[i]);
            }
        }
        if exists|i: int| 0 <= i < d.len() && wants_mouse_hook(#[trigger] d[i]) && d[i].state == PluginState::Enabled {
            let i = choose|i: int| 0 <= i < d.len() && wants_mouse_hook(#[trigger] d[i]) && d[i].state == PluginState::Enabled;
            assert(recs[i] == d[i]);
        }
    }
}

/// Enabling twice is enabling once: after a successful enable step the
/// plugin is `Enabled` under the same name, so a second `enable_plugin` of
/// that name answers `Ok` and changes neither the plugins nor the bus (see
/// its contract for an enabled plugin).
pub proof fn law_enable_twice_is_enable_once<P, H>(
    old_recs: Seq<LoadedPlugin<P>>,
    new_recs: Seq<LoadedPlugin<P>>,
    old_subs: Seq<Subscriber<H>>,
    new_subs: Seq<Subscriber<H>>,
    first: SubscriptionId,
    idx: int,
)
    requires
        enabled_step(old_recs, new_recs, old_subs, new_subs, first, idx),
    ensures
        0 <= idx < new_recs.len(),
        new_recs[idx].state == PluginState::Enabled,
        name_of(new_recs[idx]) == name_of(old_recs[idx]),
{
}

/// Removing the ids in `ids` from a sequence that ends with a subscription
/// whose id is not among them keeps that subscription at the end.
proof fn lemma_without_ids_push<H>(subs: Seq<Subscriber<H>>, x: Subscriber<H>, ids: Seq<SubscriptionId>)
    requires
        forall|k: int| 0 <= k < ids.len() ==> ids[k] != x.id,
    ensures
        without_ids(subs.push(x), ids) == without_ids(subs, ids).push(x),
    decreases ids.len(),
{
    if ids.len() > 0 {
        lemma_without_ids_push(subs, x, ids.drop_last());
        let w = without_ids(subs, ids.drop_last());
        assert(w.push(x).drop_last() =~= w);
    }
}

/// Disabling a plugin right after it was enabled gives the bus back the
/// subscriptions it had before: enabling appends one fresh subscription per
/// event type, and disabling removes exactly those.
pub proof fn law_disable_undoes_enable<H>(
    before: Seq<Subscriber<H>>,
    after: Seq<Subscriber<H>>,
    first: SubscriptionId,
    ids: Seq<SubscriptionId>,
    types: Seq<Seq<char>>,
)
    requires
        appended_run(before, after, first, ids, types),
        forall|i: int| 0 <= i < before.len() ==> (#[trigger] before[i]).id < first,
    ensures
        without_ids(after, ids) == before,
    decreases ids.len(),
{
    if ids.len() == 0 {
        assert(after =~= before) by {
            assert(after.take(before.len() as int) == before);
        }
    } else {
        let n = ids.len() - 1;
        let a2 = after.drop_last();
        let ids2 = ids.drop_last();
        let types2 = types.drop_last();
        assert(a2.take(before.len() as int) =~= after.take(before.len() as int));
        assert forall|k: int| 0 <= k < types2.len() implies (#[trigger] a2[before.len() + k]).id == ids2[k]
            && a2[before.len() + k].event_type@ == types2[k] by {
            assert(a2[before.len() + k] == after[before.len() + k]);
        }
        assert forall|k: int| 0 <= k < ids2.len() implies #[trigger] ids2[k] == first + k by {
            assert(ids2[k] == ids[k]);
        }
        law_disable_undoes_enable(before, a2, first, ids2, types2);
        let x = after.last();
        assert(x == after[before.len() + n]);
        assert(x.id == ids[n]);
        assert forall|k: int| 0 <= k < ids2.len() implies ids2[k] != x.id by {
            assert(ids2[k] == ids[k]);
        }
        assert(a2.push(x) =~= after);
        lemma_without_ids_push(a2, x, ids2);
        assert(!has_id(before, x.id)) by {
            if has_id(before, x.id) {
                let i = choose|i: int| 0 <= i < before.len() && before[i].id == x.id;
                assert(before[i].id < first);
            }
        }
        crate::eventbus::law_unsubscribe_undoes_subscribe(before, x);
    }
}

} // verus!
