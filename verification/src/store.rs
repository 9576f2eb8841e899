//! A type-indexed, layered configuration store.
//!
//! Pipeline stages communicate through typed entries: a `put` overwrites the
//! latest value of an entry's type, a `get` reads the most recently written
//! value across all layers, and a mutable layer can be frozen into an
//! immutable snapshot that is later merged into a store. Within a store,
//! later writes win; the store's own mutable top layer wins over every
//! merged frozen layer.

use vstd::prelude::*;
use vstd::map_lib::lemma_union_insert_right;
use crate::settings::HeaderSerializationSettings;
use crate::signing::SigningOperationConfig;
use crate::signing::SigningConfigView;

verus! {

/// Identity of an ambient pipeline interceptor that a configuration layer
/// can mark as disabled.
#[derive(Debug, Clone, Copy, PartialEq, Eq, Structural)]
pub enum InterceptorId {
    /// The interceptor that stamps an invocation id onto each request.
    InvocationId,
    /// The interceptor that stamps diagnostic request-info headers.
    RequestInfo,
    /// The interceptor that stamps a user-agent string.
    UserAgent,
}

/// Mathematical view of a [`DisableInterceptor`] marker.
pub struct DisableInterceptorView {
    pub target: InterceptorId,
    pub reason: Seq<char>,
}

/// A marker recording that the named interceptor is disabled, with a
/// human-readable reason. The host's dispatch loop consults these markers
/// before invoking each interceptor in its chain.
#[derive(Debug, Clone, PartialEq, Eq)]
pub struct DisableInterceptor {
    /// Which interceptor is disabled.
    pub target: InterceptorId,
    /// Why it is disabled.
    pub reason: String,
}

impl View for DisableInterceptor {
    type V = DisableInterceptorView;

    open spec fn view(&self) -> DisableInterceptorView {
        DisableInterceptorView { target: self.target, reason: self.reason@ }
    }
}

/// The type index of the store: each variant stands for one entry type the
/// pipeline communicates through. Disabled-interceptor markers are indexed
/// by the target interceptor's identity, so each target has its own slot.
#[derive(Debug, Clone, Copy, PartialEq, Eq, Structural)]
pub enum ConfigKey {
    HeaderSettings,
    SigningConfig,
    Disabled(InterceptorId),
}

/// Mathematical view of a [`ConfigEntry`].
pub enum ConfigEntryView {
    HeaderSettings(HeaderSerializationSettings),
    SigningConfig(SigningConfigView),
    Disabled(DisableInterceptorView),
}

/// A typed entry of the store.
#[derive(Debug, Clone, PartialEq, Eq)]
pub enum ConfigEntry {
    HeaderSettings(HeaderSerializationSettings),
    SigningConfig(SigningOperationConfig),
    Disabled(DisableInterceptor),
}

impl View for ConfigEntry {
    type V = ConfigEntryView;

    open spec fn view(&self) -> ConfigEntryView {
        match self {
            ConfigEntry::HeaderSettings(s) => ConfigEntryView::HeaderSettings(*s),
            ConfigEntry::SigningConfig(c) => ConfigEntryView::SigningConfig(c@),
            ConfigEntry::Disabled(d) => ConfigEntryView::Disabled(d@),
        }
    }
}

impl ConfigEntry {
    /// The slot of the type index this entry occupies.
    pub open spec fn key_spec(&self) -> ConfigKey {
        match self {
            ConfigEntry::HeaderSettings(_) => ConfigKey::HeaderSettings,
            ConfigEntry::SigningConfig(_) => ConfigKey::SigningConfig,
            ConfigEntry::Disabled(d) => ConfigKey::Disabled(d.target),
        }
    }

    pub fn key(&self) -> (k: ConfigKey)
        ensures
            k == self.key_spec(),
    {
        match self {
            ConfigEntry::HeaderSettings(_) => ConfigKey::HeaderSettings,
            ConfigEntry::SigningConfig(_) => ConfigKey::SigningConfig,
            ConfigEntry::Disabled(d) => ConfigKey::Disabled(d.target),
        }
    }
}

/// A marker entry recording that `target` is disabled for the given reason,
/// ready to be written into a layer under the target's own slot of the type
/// index.
pub fn disable_interceptor(target: InterceptorId, reason: &str) -> (e: ConfigEntry)
    ensures
        e@ == ConfigEntryView::Disabled(DisableInterceptorView { target, reason: reason@ }),
        e.key_spec() == ConfigKey::Disabled(target),
{
    ConfigEntry::Disabled(DisableInterceptor { target, reason: reason.to_owned() })
}

/// The map a sequence of writes denotes: later writes win.
pub open spec fn map_of(entries: Seq<ConfigEntry>) -> Map<ConfigKey, ConfigEntryView>
    decreases entries.len(),
{
    if entries.len() == 0 {
        Map::empty()
    } else {
        map_of(entries.drop_last()).insert(entries.last().key_spec(), entries.last()@)
    }
}

/// Looking a key up in `map_of(s)` ignores a suffix of writes to other keys.
proof fn lemma_map_of_skips_other_keys(s: Seq<ConfigEntry>, i: int, key: ConfigKey)
    requires
        0 <= i <= s.len(),
        forall|j: int| i <= j < s.len() ==> s[j].key_spec() != key,
    ensures
        map_of(s).contains_key(key) == map_of(s.take(i)).contains_key(key),
        map_of(s).contains_key(key) ==> map_of(s)[key] == map_of(s.take(i))[key],
    decreases s.len() - i,
{
    if i < s.len() {
        let s0 = s.drop_last();
        assert(s[s.len() - 1].key_spec() != key);
        assert(forall|j: int| i <= j < s0.len() ==> s0[j] == s[j]);
        lemma_map_of_skips_other_keys(s0, i, key);
        assert(s0.take(i) =~= s.take(i));
    } else {
        assert(s.take(i) =~= s);
    }
}

/// The last write to a key is the one `map_of` keeps.
proof fn lemma_map_of_keeps_last_write(s: Seq<ConfigEntry>, i: int, key: ConfigKey)
    requires
        0 <= i < s.len(),
        s[i].key_spec() == key,
        forall|j: int| i < j < s.len() ==> s[j].key_spec() != key,
    ensures
        map_of(s).contains_key(key),
        map_of(s)[key] == s[i]@,
    decreases s.len() - i,
{
    let s0 = s.drop_last();
    if i < s.len() - 1 {
        assert(s[s.len() - 1].key_spec() != key);
        assert(forall|j: int| i < j < s0.len() ==> s0[j] == s[j]);
        lemma_map_of_keeps_last_write(s0, i, key);
    }
}

/// One mutable layer of the store: a named, append-only run of typed writes.
#[derive(Debug)]
pub struct Layer {
    name: String,
    entries: Vec<ConfigEntry>,
}

impl View for Layer {
    type V = Map<ConfigKey, ConfigEntryView>;

    closed spec fn view(&self) -> Map<ConfigKey, ConfigEntryView> {
        map_of(self.entries@)
    }
}

impl Layer {
    /// The layer's name, for diagnostics only.
    pub closed spec fn name_spec(&self) -> Seq<char> {
        self.name@
    }

    /// An empty layer.
    pub fn new(name: &str) -> (l: Self)
        ensures
            l@ == Map::<ConfigKey, ConfigEntryView>::empty(),
            l.name_spec() == name@,
    {
        let l = Layer { name: name.to_owned(), entries: Vec::new() };
        proof {
            assert(l.entries@ =~= Seq::<ConfigEntry>::empty());
        }
        l
    }

    pub fn name(&self) -> (n: &str)
        ensures
            n@ == self.name_spec(),
    {
        self.name.as_str()
    }

    /// Writes an entry, overwriting the latest value of its type.
    pub fn store_put(&mut self, entry: ConfigEntry)
        ensures
            final(self)@ == old(self)@.insert(entry.key_spec(), entry@),
            final(self).name_spec() == old(self).name_spec(),
    {
        let ghost before = self.entries@;
        self.entries.push(entry);
        proof {
            assert(self.entries@.drop_last() =~= before);
        }
    }

    /// Reads the latest value of the given type, if any was written.
    pub fn get(&self, key: ConfigKey) -> (r: Option<&ConfigEntry>)
        ensures
            match r {
                Some(e) => {
                    &&& self@.contains_key(key)
                    &&& e@ == self@[key]
                    &&& e.key_spec() == key
                },
                None => !self@.contains_key(key),
            },
    {
        let n = self.entries.len();
        let mut i: usize = n;
        while i > 0
            invariant
                i <= n,
                n == self.entries.len(),
                forall|j: int| i <= j < n ==> self.entries@[j].key_spec() != key,
            decreases i,
        {
            i = i - 1;
            let e = &self.entries[i];
            if e.key() == key {
                proof {
                    lemma_map_of_keeps_last_write(self.entries@, i as int, key);
                }
                return Some(e);
            }
        }
        proof {
            lemma_map_of_skips_other_keys(self.entries@, 0, key);
            assert(self.entries@.take(0) =~= Seq::<ConfigEntry>::empty());
        }
        None
    }

    /// Freezes the layer into an immutable snapshot.
    pub fn freeze(self) -> (f: FrozenLayer)
        ensures
            f@ == self@,
            f.name_spec() == self.name_spec(),
    {
        FrozenLayer { inner: self }
    }
}

/// An immutable snapshot of a [`Layer`], ready to be merged into a
/// [`ConfigBag`].
#[derive(Debug)]
pub struct FrozenLayer {
    inner: Layer,
}

impl View for FrozenLayer {
    type V = Map<ConfigKey, ConfigEntryView>;

    closed spec fn view(&self) -> Map<ConfigKey, ConfigEntryView> {
        self.inner@
    }
}

impl FrozenLayer {
    /// The snapshot's name, for diagnostics only.
    pub closed spec fn name_spec(&self) -> Seq<char> {
        self.inner.name_spec()
    }

    pub fn name(&self) -> (n: &str)
        ensures
            n@ == self.name_spec(),
    {
        self.inner.name()
    }

    /// Reads the latest value of the given type within this snapshot.
    pub fn get(&self, key: ConfigKey) -> (r: Option<&ConfigEntry>)
        ensures
            match r {
                Some(e) => {
                    &&& self@.contains_key(key)
                    &&& e@ == self@[key]
                    &&& e.key_spec() == key
                },
                None => !self@.contains_key(key),
            },
    {
        self.inner.get(key)
    }
}

/// The map a stack of frozen layers denotes: later layers win.
pub open spec fn layers_map(layers: Seq<FrozenLayer>) -> Map<ConfigKey, ConfigEntryView>
    decreases layers.len(),
{
    if layers.len() == 0 {
        Map::empty()
    } else {
        layers_map(layers.drop_last()).union_prefer_right(layers.last()@)
    }
}

/// Looking a key up in `layers_map(s)` ignores a suffix of layers that do
/// not contain it.
proof fn lemma_layers_map_skips_other_layers(s: Seq<FrozenLayer>, i: int, key: ConfigKey)
    requires
        0 <= i <= s.len(),
        forall|j: int| i <= j < s.len() ==> !(#[trigger] s[j]@).contains_key(key),
    ensures
        layers_map(s).contains_key(key) == layers_map(s.take(i)).contains_key(key),
        layers_map(s).contains_key(key) ==> layers_map(s)[key] == layers_map(s.take(i))[key],
    decreases s.len() - i,
{
    if i < s.len() {
        let s0 = s.drop_last();
        assert(!s[s.len() - 1]@.contains_key(key));
        assert(forall|j: int| i <= j < s0.len() ==> s0[j] == s[j]);
        lemma_layers_map_skips_other_layers(s0, i, key);
        assert(s0.take(i) =~= s.take(i));
    } else {
        assert(s.take(i) =~= s);
    }
}

/// The latest layer containing a key decides what `layers_map` holds there.
proof fn lemma_layers_map_keeps_latest_layer(s: Seq<FrozenLayer>, i: int, key: ConfigKey)
    requires
        0 <= i < s.len(),
        s[i]@.contains_key(key),
        forall|j: int| i < j < s.len() ==> !(#[trigger] s[j]@).contains_key(key),
    ensures
        layers_map(s).contains_key(key),
        layers_map(s)[key] == s[i]@[key],
    decreases s.len() - i,
{
    let s0 = s.drop_last();
    if i < s.len() - 1 {
        assert(!s[s.len() - 1]@.contains_key(key));
        assert(forall|j: int| i < j < s0.len() ==> s0[j] == s[j]);
        lemma_layers_map_keeps_latest_layer(s0, i, key);
    }
}

/// The layered configuration store one request's processing runs against:
/// a stack of immutable merged layers under one mutable top layer that the
/// interceptors write through. The top layer always wins; among the frozen
/// layers, the one merged latest wins.
#[derive(Debug)]
pub struct ConfigBag {
    frozen: Vec<FrozenLayer>,
    interceptor_state: Layer,
}

impl View for ConfigBag {
    type V = Map<ConfigKey, ConfigEntryView>;

    /// What the whole store holds: the merged frozen layers, shadowed by the
    /// mutable top layer.
    open spec fn view(&self) -> Map<ConfigKey, ConfigEntryView> {
        self.frozen_view().union_prefer_right(self.state_view())
    }
}

impl ConfigBag {
    /// What the merged frozen layers hold (latest merged layer wins).
    pub closed spec fn frozen_view(&self) -> Map<ConfigKey, ConfigEntryView> {
        layers_map(self.frozen@)
    }

    /// What the mutable top layer holds.
    pub closed spec fn state_view(&self) -> Map<ConfigKey, ConfigEntryView> {
        self.interceptor_state@
    }

    /// An empty store.
    pub fn new() -> (bag: Self)
        ensures
            bag.frozen_view() == Map::<ConfigKey, ConfigEntryView>::empty(),
            bag.state_view() == Map::<ConfigKey, ConfigEntryView>::empty(),
            bag@ == Map::<ConfigKey, ConfigEntryView>::empty(),
    {
        let bag = ConfigBag {
            frozen: Vec::new(),
            interceptor_state: Layer::new("interceptor_state"),
        };
        proof {
            assert(bag.frozen@ =~= Seq::<FrozenLayer>::empty());
            assert(bag@ =~= Map::<ConfigKey, ConfigEntryView>::empty());
        }
        bag
    }

    /// Merges a frozen layer into the store. Its entries shadow earlier
    /// frozen layers but stay below the mutable top layer.
    pub fn push_layer(&mut self, layer: FrozenLayer)
        ensures
            final(self).frozen_view() == old(self).frozen_view().union_prefer_right(layer@),
            final(self).state_view() == old(self).state_view(),
    {
        let ghost before = self.frozen@;
        self.frozen.push(layer);
        proof {
            assert(self.frozen@.drop_last() =~= before);
        }
    }

    /// Writes an entry into the mutable top layer, overwriting the latest
    /// value of its type in the whole store.
    pub fn store_put(&mut self, entry: ConfigEntry)
        ensures
            final(self)@ == old(self)@.insert(entry.key_spec(), entry@),
            final(self).frozen_view() == old(self).frozen_view(),
            final(self).state_view() == old(self).state_view().insert(entry.key_spec(), entry@),
    {
        let ghost frozen_before = layers_map(self.frozen@);
        let ghost state_before = self.interceptor_state@;
        self.interceptor_state.store_put(entry);
        proof {
            lemma_union_insert_right(
                frozen_before,
                state_before,
                entry.key_spec(),
                entry@,
            );
        }
    }

    /// The serializer's read: the latest header-serialization settings, if
    /// any stage wrote them.
    pub fn header_settings(&self) -> (r: Option<&HeaderSerializationSettings>)
        ensures
            (r matches Some(s)) == self@.contains_key(ConfigKey::HeaderSettings),
            (r matches Some(s) ==> self@[ConfigKey::HeaderSettings]
                == ConfigEntryView::HeaderSettings(*s)),
    {
        match self.load(ConfigKey::HeaderSettings) {
            Some(ConfigEntry::HeaderSettings(s)) => Some(s),
            Some(_) => {
                proof {
                    assert(false);
                }
                None
            },
            None => None,
        }
    }

    /// The signer's read: the latest signing-operation config, if the
    /// signing-setup stage wrote one.
    pub fn signing_config(&self) -> (r: Option<&SigningOperationConfig>)
        ensures
            (r matches Some(c)) == self@.contains_key(ConfigKey::SigningConfig),
            (r matches Some(c) ==> self@[ConfigKey::SigningConfig]
                == ConfigEntryView::SigningConfig(c@)),
    {
        match self.load(ConfigKey::SigningConfig) {
            Some(ConfigEntry::SigningConfig(c)) => Some(c),
            Some(_) => {
                proof {
                    assert(false);
                }
                None
            },
            None => None,
        }
    }

    /// The dispatcher's read, made before it invokes an interceptor: the
    /// marker disabling that interceptor, if any layer wrote one.
    pub fn interceptor_disabled(&self, target: InterceptorId) -> (r: Option<&DisableInterceptor>)
        ensures
            (r matches Some(d)) == self@.contains_key(ConfigKey::Disabled(target)),
            (r matches Some(d) ==> d.target == target && self@[ConfigKey::Disabled(target)]
                == ConfigEntryView::Disabled(d@)),
    {
        match self.load(ConfigKey::Disabled(target)) {
            Some(ConfigEntry::Disabled(d)) => Some(d),
            Some(_) => {
                proof {
                    assert(false);
                }
                None
            },
            None => None,
        }
    }

    /// Reads the latest value of the given type across all layers.
    pub fn load(&self, key: ConfigKey) -> (r: Option<&ConfigEntry>)
        ensures
            match r {
                Some(e) => {
                    &&& self@.contains_key(key)
                    &&& e@ == self@[key]
                    &&& e.key_spec() == key
                },
                None => !self@.contains_key(key),
            },
    {
        let from_state = self.interceptor_state.get(key);
        if from_state.is_some() {
            return from_state;
        }
        let n = self.frozen.len();
        let mut i: usize = n;
        while i > 0
            invariant
                i <= n,
                n == self.frozen.len(),
                !self.state_view().contains_key(key),
                forall|j: int| i <= j < n ==> !(#[trigger] self.frozen@[j]@).contains_key(key),
            decreases i,
        {
            i = i - 1;
            let layer = &self.frozen[i];
            let found = layer.get(key);
            if found.is_some() {
                proof {
                    lemma_layers_map_keeps_latest_layer(self.frozen@, i as int, key);
                    assert(!self.state_view().contains_key(key));
                    assert(self@.contains_key(key));
                    assert(self@[key] == self.frozen_view()[key]);
                }
                return found;
            }
        }
        proof {
            lemma_layers_map_skips_other_layers(self.frozen@, 0, key);
            assert(self.frozen@.take(0) =~= Seq::<FrozenLayer>::empty());
        }
        None
    }
}

} // verus!
