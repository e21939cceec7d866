//! The registries that the engine owns: event handlers in subscription
//! order, commands by name, pending interactions by plugin and id, and the
//! table of resident plugins.

use vstd::prelude::*;
use crate::assoc::AssocList;
use crate::assoc::Key;
use crate::assoc::Slot;
use crate::text::same_text;
use crate::types::CommandMetadata;
use crate::types::EventType;
use crate::types::Plugin;

verus! {

/// One subscription: the plugin that made it and the handle of its callback.
pub struct EventHandlerEntry {
    pub event_type: EventType,
    pub plugin: String,
    pub callback: mlua::RegistryKey,
}

/// The subscriptions to `event_type` among `all`, in the order of `all`.
pub open spec fn handlers_of(all: Seq<EventHandlerEntry>, event_type: EventType) -> Seq<
    EventHandlerEntry,
> {
    all.filter(|e: EventHandlerEntry| e.event_type == event_type)
}

/// Whether `positions` lists, in order, where the entries `handlers` stand
/// in `all`.
pub open spec fn located(
    positions: Seq<usize>,
    all: Seq<EventHandlerEntry>,
    handlers: Seq<EventHandlerEntry>,
) -> bool {
    &&& positions.len() == handlers.len()
    &&& forall|k: int|
        0 <= k < positions.len() ==> (#[trigger] positions[k]) < all.len() && all[positions[k] as int]
            == handlers[k]
    &&& forall|j: int, k: int|
        0 <= j < k < positions.len() ==> (#[trigger] positions[j]) < (#[trigger] positions[k])
}

/// Event type to ordered handler list. Subscribing appends; the order of
/// subscription is the order of dispatch.
pub struct EventRegistry {
    entries: Vec<EventHandlerEntry>,
}

impl EventRegistry {
    /// Every subscription, in the order in which they were made.
    pub closed spec fn view(&self) -> Seq<EventHandlerEntry> {
        self.entries@
    }

    /// The handlers of one event type, in subscription order.
    pub open spec fn handlers(&self, event_type: EventType) -> Seq<EventHandlerEntry> {
        handlers_of(self@, event_type)
    }

    /// A registry without subscriptions.
    pub fn new() -> (r: Self)
        ensures
            r@ == Seq::<EventHandlerEntry>::empty(),
    {
        EventRegistry { entries: Vec::new() }
    }

    /// Adds a subscription behind all earlier ones.
    pub fn subscribe(&mut self, event_type: EventType, plugin: String, callback: mlua::RegistryKey)
        ensures
            final(self)@ == old(self)@.push(EventHandlerEntry { event_type, plugin, callback }),
    {
        self.entries.push(EventHandlerEntry { event_type, plugin, callback });
    }

    /// The number of subscriptions, of all event types together.
    pub fn len(&self) -> (n: usize)
        ensures
            n == self@.len(),
    {
        self.entries.len()
    }

    /// The subscription at position `i`.
    pub fn entry(&self, i: usize) -> (e: &EventHandlerEntry)
        requires
            i < self@.len(),
        ensures
            *e == self@[i as int],
    {
        &self.entries[i]
    }

    /// The positions of the handlers of `event_type`, in subscription order.
    pub fn positions(&self, event_type: EventType) -> (r: Vec<usize>)
        ensures
            located(r@, self@, self.handlers(event_type)),
    {
        let ghost pred = |e: EventHandlerEntry| e.event_type == event_type;
        let ghost mut matched: Seq<EventHandlerEntry> = Seq::empty();
        let mut r: Vec<usize> = Vec::new();
        let mut i: usize = 0;
        proof {
            assert(self.entries@.take(0) =~= Seq::<EventHandlerEntry>::empty());
            self.entries@.take(0).lemma_filter_len(pred);
            assert(self.entries@.take(0).filter(pred) =~= matched);
        }
        while i < self.entries.len()
            invariant
                i <= self.entries@.len(),
                pred == |e: EventHandlerEntry| e.event_type == event_type,
                matched == self.entries@.take(i as int).filter(pred),
                r@.len() == matched.len(),
                forall|k: int|
                    0 <= k < r@.len() ==> #[trigger] r@[k] < i && self.entries@[r@[k] as int]
                        == matched[k],
                forall|j: int, k: int| 0 <= j < k < r@.len() ==> #[trigger] r@[j] < #[trigger] r@[k],
            decreases self.entries@.len() - i,
        {
            let ghost prefix = self.entries@.take(i as int);
            let ghost e = self.entries@[i as int];
            proof {
                assert(self.entries@.take(i + 1) =~= prefix.push(e));
                Seq::lemma_filter_push(prefix, e, pred);
            }
            if self.entries[i].event_type == event_type {
                r.push(i);
                proof {
                    matched = matched.push(e);
                }
            }
            i += 1;
        }
        proof {
            assert(self.entries@.take(i as int) =~= self.entries@);
        }
        r
    }

    /// Forgets every subscription.
    pub fn clear(&mut self)
        ensures
            final(self)@ == Seq::<EventHandlerEntry>::empty(),
    {
        self.entries.clear();
    }
}

/// Handlers of one event type fire in subscription order, whichever plugins
/// made the subscriptions: a new subscription goes behind every earlier
/// handler of its event type and leaves their order as it was, and the
/// handlers of the other event types are not touched.
pub proof fn law_subscription_order(
    all: Seq<EventHandlerEntry>,
    entry: EventHandlerEntry,
    event_type: EventType,
)
    ensures
        entry.event_type == event_type ==> handlers_of(all.push(entry), event_type) == handlers_of(
            all,
            event_type,
        ).push(entry),
        entry.event_type != event_type ==> handlers_of(all.push(entry), event_type) == handlers_of(
            all,
            event_type,
        ),
{
    Seq::lemma_filter_push(all, entry, |e: EventHandlerEntry| e.event_type == event_type);
}

/// A registered command: what is known of it, the plugin that registered
/// it, and the handle of its callback.
pub struct CommandEntry {
    pub metadata: CommandMetadata,
    pub plugin: String,
    pub callback: mlua::RegistryKey,
}

/// Command name to handler. Registering a name again replaces the earlier
/// entry.
pub struct CommandRegistry {
    entries: AssocList<String, CommandEntry>,
}

impl CommandRegistry {
    #[verifier::type_invariant]
    spec fn inv(&self) -> bool {
        named_by_key(self.entries@)
    }

    /// The commands by name.
    pub closed spec fn view(&self) -> Map<Seq<char>, CommandEntry> {
        self.entries@
    }

    /// A registry without commands.
    pub fn new() -> (r: Self)
        ensures
            r@ == Map::<Seq<char>, CommandEntry>::empty(),
    {
        CommandRegistry { entries: AssocList::new() }
    }

    /// Registers a command under the name in its metadata; the last
    /// registration of a name wins.
    pub fn register(&mut self, metadata: CommandMetadata, plugin: String, callback: mlua::RegistryKey)
        ensures
            final(self)@ == old(self)@.insert(
                metadata.name@,
                CommandEntry { metadata, plugin, callback },
            ),
    {
        proof {
            use_type_invariant(&*self);
        }
        let name = metadata.name.clone();
        let mut entries: AssocList<String, CommandEntry> = AssocList::new();
        core::mem::swap(&mut self.entries, &mut entries);
        entries.insert(name, CommandEntry { metadata, plugin, callback });
        self.entries = entries;
    }

    /// The entry registered under `name`.
    pub fn lookup(&self, name: &str) -> (r: Option<&CommandEntry>)
        ensures
            r is Some <==> self@.contains_key(name@),
            r matches Some(e) ==> *e == self@[name@] && e.metadata.name@ == name@,
    {
        proof {
            use_type_invariant(self);
        }
        let key = crate::text::owned(name);
        self.entries.get(&key)
    }

    /// The metadata of every registered command, each once, in the order in
    /// which the names were first registered.
    pub fn list(&self) -> (r: Vec<CommandMetadata>)
        ensures
            r@.len() == self@.len(),
            forall|i: int|
                0 <= i < r@.len() ==> self@.contains_key((#[trigger] r@[i]).name@)
                    && self@[r@[i].name@].metadata == r@[i],
            forall|i: int, j: int|
                0 <= i < j < r@.len() ==> (#[trigger] r@[i]).name@ != (#[trigger] r@[j]).name@,
    {
        proof {
            use_type_invariant(self);
        }
        let mut r: Vec<CommandMetadata> = Vec::new();
        let mut i: usize = 0;
        let n = self.entries.len();
        while i < n
            invariant
                i <= n,
                n == self.entries.keys().len(),
                self.entries.keys().no_duplicates(),
                named_by_key(self.entries@),
                r@.len() == i,
                forall|j: int|
                    0 <= j < i ==> self.entries@.contains_key(self.entries.keys()[j])
                        && #[trigger] r@[j] == self.entries@[self.entries.keys()[j]].metadata,
            decreases n - i,
        {
            let slot = self.entries.slot(i);
            r.push(clone_metadata(&slot.value.metadata));
            i += 1;
        }
        proof {
            assert forall|i: int| 0 <= i < r@.len() implies (#[trigger] r@[i]).name@
                == self.entries.keys()[i] by {
                assert(self.entries@.contains_key(self.entries.keys()[i]));
            }
        }
        r
    }

    /// Forgets every command.
    pub fn clear(&mut self)
        ensures
            final(self)@ == Map::<Seq<char>, CommandEntry>::empty(),
    {
        let entries: AssocList<String, CommandEntry> = AssocList::new();
        self.entries = entries;
    }
}

/// Whether every command is registered under the name in its metadata.
pub open spec fn named_by_key(commands: Map<Seq<char>, CommandEntry>) -> bool {
    forall|k: Seq<char>| #[trigger] commands.contains_key(k) ==> commands[k].metadata.name@ == k
}

/// Copies the metadata of a command.
pub fn clone_metadata(m: &CommandMetadata) -> (r: CommandMetadata)
    ensures
        r == *m,
{
    let args = match &m.args {
        Some(a) => Some(a.clone()),
        None => None,
    };
    CommandMetadata { name: m.name.clone(), doc: m.doc.clone(), args }
}

/// Registering a name twice leaves the second registration in force: the
/// command found under the name is the second one, and the other names are
/// as they were before either registration.
pub proof fn law_last_registration_wins(
    commands: Map<Seq<char>, CommandEntry>,
    first: CommandEntry,
    second: CommandEntry,
    name: Seq<char>,
)
    ensures
        commands.insert(name, first).insert(name, second)[name] == second,
        commands.insert(name, first).insert(name, second) == commands.insert(name, second),
{
    assert(commands.insert(name, first).insert(name, second) =~= commands.insert(name, second));
}

/// Hands out the ids of pending interactions: one counter for all plugins,
/// counting up from 1. An id is never handed out twice.
pub struct UiCallbackCounter {
    next: u64,
}

impl UiCallbackCounter {
    /// The id that the next allocation returns.
    pub closed spec fn view(&self) -> u64 {
        self.next
    }

    /// A counter whose first id is 1.
    pub fn new() -> (r: Self)
        ensures
            r@ == 1,
    {
        UiCallbackCounter { next: 1 }
    }

    /// The id that the next allocation returns.
    pub fn peek(&self) -> (id: u64)
        ensures
            id == self@,
    {
        self.next
    }

    /// Hands out the next id. When the ids are used up, it returns `None`
    /// rather than an id that was handed out before.
    pub fn allocate(&mut self) -> (r: Option<u64>)
        ensures
            old(self)@ < u64::MAX ==> r == Some(old(self)@) && final(self)@ == old(self)@ + 1,
            old(self)@ == u64::MAX ==> r is None && final(self)@ == old(self)@,
    {
        if self.next < u64::MAX {
            let id = self.next;
            self.next = id + 1;
            Some(id)
        } else {
            None
        }
    }
}

/// The key of a pending interaction: the plugin that asked for it and the id
/// that it was given.
pub struct CallbackKey {
    pub plugin: String,
    pub id: u64,
}

impl Key for CallbackKey {
    type Model = (Seq<char>, u64);

    open spec fn model(&self) -> (Seq<char>, u64) {
        (self.plugin@, self.id)
    }

    fn same(&self, other: &Self) -> (r: bool) {
        self.id == other.id && same_text(self.plugin.as_str(), other.plugin.as_str())
    }
}

/// Whether every id in `callbacks` is below `next`.
pub open spec fn ids_below(callbacks: Map<(Seq<char>, u64), mlua::RegistryKey>, next: u64) -> bool {
    forall|k: (Seq<char>, u64)| #[trigger] callbacks.contains_key(k) ==> k.1 < next
}

/// Plugin and id to the callback of a pending interaction. An entry is taken
/// out when its interaction completes, so a callback runs at most once.
pub struct UiCallbackRegistry {
    entries: AssocList<CallbackKey, mlua::RegistryKey>,
    counter: UiCallbackCounter,
}

impl UiCallbackRegistry {
    #[verifier::type_invariant]
    spec fn inv(&self) -> bool {
        ids_below(self.entries@, self.counter@)
    }

    /// The pending callbacks by plugin and id.
    pub closed spec fn view(&self) -> Map<(Seq<char>, u64), mlua::RegistryKey> {
        self.entries@
    }

    /// The id that the next registration gets.
    pub closed spec fn next_id(&self) -> u64 {
        self.counter@
    }

    /// A registry without pending callbacks, whose first id is 1.
    pub fn new() -> (r: Self)
        ensures
            r@ == Map::<(Seq<char>, u64), mlua::RegistryKey>::empty(),
            r.next_id() == 1,
    {
        UiCallbackRegistry { entries: AssocList::new(), counter: UiCallbackCounter::new() }
    }

    /// The id that the next registration gets. Every pending callback has a
    /// smaller one.
    pub fn peek(&self) -> (id: u64)
        ensures
            id == self.next_id(),
            ids_below(self@, id),
    {
        proof {
            use_type_invariant(self);
        }
        self.counter.peek()
    }

    /// Registers the callback of a new interaction of `plugin` under a fresh
    /// id and returns the id. When the ids are used up nothing is registered.
    pub fn register(&mut self, plugin: String, callback: mlua::RegistryKey) -> (r: Option<u64>)
        ensures
            old(self).next_id() < u64::MAX ==> r == Some(old(self).next_id()) && final(self)@
                == old(self)@.insert((plugin@, old(self).next_id()), callback) && final(self).next_id() == old(self).next_id() + 1,
            old(self).next_id() == u64::MAX ==> r is None && final(self)@ == old(self)@ && final(self).next_id() == old(self).next_id(),
            ids_below(final(self)@, final(self).next_id()),
    {
        proof {
            use_type_invariant(&*self);
        }
        let mut counter = UiCallbackCounter { next: self.counter.peek() };
        match counter.allocate() {
            None => None,
            Some(id) => {
                let mut entries: AssocList<CallbackKey, mlua::RegistryKey> = AssocList::new();
                core::mem::swap(&mut self.entries, &mut entries);
                self.counter = counter;
                entries.insert(CallbackKey { plugin, id }, callback);
                self.entries = entries;
                Some(id)
            },
        }
    }

    /// Takes the callback of the interaction `(plugin, id)` out of the
    /// registry, if it is pending.
    pub fn take(&mut self, plugin: &str, id: u64) -> (r: Option<mlua::RegistryKey>)
        ensures
            final(self)@ == old(self)@.remove((plugin@, id)),
            final(self).next_id() == old(self).next_id(),
            old(self)@.contains_key((plugin@, id)) ==> r == Some(old(self)@[(plugin@, id)]),
            !old(self)@.contains_key((plugin@, id)) ==> r is None,
            ids_below(final(self)@, final(self).next_id()),
    {
        proof {
            use_type_invariant(&*self);
        }
        let key = CallbackKey { plugin: crate::text::owned(plugin), id };
        let mut entries: AssocList<CallbackKey, mlua::RegistryKey> = AssocList::new();
        core::mem::swap(&mut self.entries, &mut entries);
        let r = entries.remove(&key);
        self.entries = entries;
        r
    }

    /// Whether the interaction `(plugin, id)` is pending.
    pub fn is_pending(&self, plugin: &str, id: u64) -> (r: bool)
        ensures
            r == self@.contains_key((plugin@, id)),
    {
        let key = CallbackKey { plugin: crate::text::owned(plugin), id };
        self.entries.find(&key).is_some()
    }

    /// The number of pending callbacks.
    pub fn len(&self) -> (n: usize)
        ensures
            n == self@.len(),
    {
        self.entries.len()
    }

    /// Forgets every pending callback. The ids that were handed out stay
    /// used.
    pub fn clear(&mut self)
        ensures
            final(self)@ == Map::<(Seq<char>, u64), mlua::RegistryKey>::empty(),
            final(self).next_id() == old(self).next_id(),
    {
        let entries: AssocList<CallbackKey, mlua::RegistryKey> = AssocList::new();
        self.entries = entries;
    }
}

/// The table of resident plugins, by name.
pub struct PluginTable {
    entries: AssocList<String, Plugin>,
}

impl PluginTable {
    /// The resident plugins by name.
    pub closed spec fn view(&self) -> Map<Seq<char>, Plugin> {
        self.entries@
    }

    /// The names in the order in which the plugins were first loaded.
    pub closed spec fn names(&self) -> Seq<Seq<char>> {
        self.entries.keys()
    }

    /// A table without plugins.
    pub fn new() -> (r: Self)
        ensures
            r@ == Map::<Seq<char>, Plugin>::empty(),
    {
        PluginTable { entries: AssocList::new() }
    }

    /// Enters a plugin under the name in its metadata.
    pub fn insert(&mut self, plugin: Plugin)
        ensures
            final(self)@ == old(self)@.insert(plugin.metadata.name@, plugin),
    {
        let name = plugin.metadata.name.clone();
        self.entries.insert(name, plugin);
    }

    /// The plugin that is resident under `name`.
    pub fn get(&self, name: &str) -> (r: Option<&Plugin>)
        ensures
            r is Some <==> self@.contains_key(name@),
            r matches Some(p) ==> *p == self@[name@],
    {
        let key = crate::text::owned(name);
        self.entries.get(&key)
    }

    /// Whether a plugin is resident under `name`.
    pub fn contains_key(&self, name: &str) -> (r: bool)
        ensures
            r == self@.contains_key(name@),
    {
        self.get(name).is_some()
    }

    /// The number of resident plugins.
    pub fn len(&self) -> (n: usize)
        ensures
            n == self@.len(),
            n == self.names().len(),
    {
        self.entries.len()
    }

    /// Whether no plugin is resident.
    pub fn is_empty(&self) -> (r: bool)
        ensures
            r == (self@.len() == 0),
    {
        self.len() == 0
    }

    /// The names of the resident plugins, in the order in which they were
    /// first loaded.
    pub fn list(&self) -> (r: Vec<String>)
        ensures
            r@.len() == self.names().len(),
            forall|i: int|
                0 <= i < r@.len() ==> #[trigger] r@[i]@ == self.names()[i] && self@.contains_key(
                    self.names()[i],
                ),
    {
        let mut r: Vec<String> = Vec::new();
        let mut i: usize = 0;
        while i < self.entries.len()
            invariant
                i <= self.entries.keys().len(),
                r@.len() == i,
                forall|j: int|
                    0 <= j < i ==> #[trigger] r@[j]@ == self.entries.keys()[j]
                        && self.entries@.contains_key(self.entries.keys()[j]),
            decreases self.entries.keys().len() - i,
        {
            let slot = self.entries.slot(i);
            r.push(slot.key.clone());
            i += 1;
        }
        r
    }

    /// Empties the table.
    pub fn clear(&mut self)
        ensures
            final(self)@ == Map::<Seq<char>, Plugin>::empty(),
    {
        self.entries.clear();
    }
}

} // verus!
