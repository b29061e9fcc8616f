//! Watching the sound server: what is told to whom when something changes, and
//! when to start watching again.

use vstd::prelude::*;

use crate::packet::{Packet, PacketView, SinkState, Value, ValueView};
use crate::plugins::systemvolume::backend::{LocalSinkState, SubscribeEvent};
use crate::plugins::systemvolume::plugin::{
    list_packet, request_sinks_packet, sink_list, SystemVolumePlugin, VolumeView,
};
use crate::plugins::systemvolume::sinks::{
    described, find_default, is_default_of, lists_sinks, named, sorted_sinks, REQUEST_PACKET,
    STATE_PACKET,
};
use crate::table::{lists_keys, lists_text, texts, Table};
use crate::text::same_text;

verus! {

/// How long to wait before watching again, at first, in milliseconds.
pub const INITIAL_BACKOFF_MS: u64 = 500;

/// How long to wait before watching again, at most, in milliseconds.
pub const MAX_BACKOFF_MS: u64 = 30_000;

/// After how long a watch counts as healthy, in milliseconds.
pub const HEALTHY_AFTER_MS: u64 = 5_000;

/// How often peers are looked after, in seconds.
pub const SYNC_PERIOD_SECS: u64 = 5;

/// Whether an event makes the sinks be listed anew.
pub fn handle_subscribe_event(event: &SubscribeEvent) -> (r: bool)
    ensures
        r == !(event is Unclassified),
{
    match event {
        SubscribeEvent::Unclassified { .. } => false,
        _ => true,
    }
}

/// A number that may be missing, as a packet carries it.
pub open spec fn int_value(v: Option<i64>) -> ValueView {
    match v {
        Some(i) => ValueView::Int(i),
        None => ValueView::Null,
    }
}

/// A truth value that may be missing, as a packet carries it.
pub open spec fn bool_value(v: Option<bool>) -> ValueView {
    match v {
        Some(b) => ValueView::Bool(b),
        None => ValueView::Null,
    }
}

/// The packet that tells one thing of a sink.
pub open spec fn delta_packet(name: Seq<char>, key: Seq<char>, value: ValueView) -> PacketView {
    PacketView {
        packet_type: STATE_PACKET@,
        body: seq![("name"@, ValueView::Text(name)), (key, value)],
    }
}

/// The packets that tell what changed of one sink: its volume, its mute, and
/// whether it is the default output.
pub open spec fn sink_deltas(prev: SinkState, s: LocalSinkState) -> Seq<PacketView> {
    (if prev.volume != s.volume {
        seq![delta_packet(s.name@, "volume"@, int_value(s.volume))]
    } else {
        seq![]
    }) + (if prev.muted != s.muted {
        seq![delta_packet(s.name@, "muted"@, bool_value(s.muted))]
    } else {
        seq![]
    }) + (if prev.enabled != s.enabled {
        seq![delta_packet(s.name@, "enabled"@, bool_value(s.enabled))]
    } else {
        seq![]
    })
}

/// The packets that tell what changed of the sinks that were known.
pub open spec fn deltas(old: Map<Seq<char>, SinkState>, list: Seq<LocalSinkState>) -> Seq<PacketView>
    decreases list.len(),
{
    if list.len() == 0 {
        seq![]
    } else {
        deltas(old, list.drop_last()) + (if old.contains_key(list.last().name@) {
            sink_deltas(old[list.last().name@], list.last())
        } else {
            seq![]
        })
    }
}

/// The packets of a list, by their contents.
pub open spec fn packet_views(packets: Seq<Packet>) -> Seq<PacketView> {
    packets.map_values(|p: Packet| p@)
}

/// A number that may be missing, as a packet carries it.
fn int_of(v: Option<i64>) -> (r: Value)
    ensures
        r@ == int_value(v),
{
    match v {
        Some(i) => Value::Int(i),
        None => Value::Null,
    }
}

/// A truth value that may be missing, as a packet carries it.
fn bool_of(v: Option<bool>) -> (r: Value)
    ensures
        r@ == bool_value(v),
{
    match v {
        Some(b) => Value::Bool(b),
        None => Value::Null,
    }
}

/// Whether two numbers that may be missing are the same.
fn same_int(a: Option<i64>, b: Option<i64>) -> (r: bool)
    ensures
        r == (a == b),
{
    match (a, b) {
        (Some(x), Some(y)) => x == y,
        (None, None) => true,
        _ => false,
    }
}

/// Whether two truth values that may be missing are the same.
fn same_bool(a: Option<bool>, b: Option<bool>) -> (r: bool)
    ensures
        r == (a == b),
{
    match (a, b) {
        (Some(x), Some(y)) => x == y,
        (None, None) => true,
        _ => false,
    }
}

/// The packet that tells one thing of a sink.
fn delta(name: &String, key: &str, value: Value) -> (r: Packet)
    ensures
        r@ == delta_packet(name@, key@, value@),
{
    Packet::with_fields(STATE_PACKET, "name", Value::Text(name.clone()), key, value)
}

/// The packets that tell what changed of the sinks that were known. A sink that
/// was not known is not told of: it takes a list to introduce it.
pub fn build_deltas(old: &Table<SinkState>, new: &Vec<LocalSinkState>) -> (r: Vec<Packet>)
    ensures
        packet_views(r@) == deltas(old@, new@),
{
    let mut out: Vec<Packet> = Vec::new();
    let mut i: usize = 0;
    assert(new@.take(0) =~= Seq::<LocalSinkState>::empty());
    assert(packet_views(out@) =~= Seq::<PacketView>::empty());
    while i < new.len()
        invariant
            i <= new@.len(),
            packet_views(out@) == deltas(old@, new@.take(i as int)),
        decreases new@.len() - i,
    {
        assert(new@.take(i + 1).drop_last() =~= new@.take(i as int));
        let s = &new[i];
        let ghost before = packet_views(out@);
        match old.get(s.name.as_str()) {
            Some(prev) => {
                if !same_int(prev.volume, s.volume) {
                    out.push(delta(&s.name, "volume", int_of(s.volume)));
                }
                if !same_bool(prev.muted, s.muted) {
                    out.push(delta(&s.name, "muted", bool_of(s.muted)));
                }
                if !same_bool(prev.enabled, s.enabled) {
                    out.push(delta(&s.name, "enabled", bool_of(s.enabled)));
                }
                assert(packet_views(out@) =~= before + sink_deltas(*prev, *s));
            },
            None => {
                assert(packet_views(out@) =~= before + Seq::<PacketView>::empty());
            },
        }
        i = i + 1;
    }
    assert(new@.take(i as int) =~= new@);
    out
}

/// The sinks of a list, each under its name.
pub open spec fn sinks_of(list: Seq<LocalSinkState>) -> Map<Seq<char>, SinkState>
    decreases list.len(),
{
    if list.len() == 0 {
        Map::empty()
    } else {
        sinks_of(list.drop_last()).insert(list.last().name@, described(list.last()))
    }
}

/// The sinks of a list, each under its name.
fn table_of(list: &Vec<LocalSinkState>) -> (r: Table<SinkState>)
    ensures
        r@ == sinks_of(list@),
        named(r@),
{
    let mut table: Table<SinkState> = Table::new();
    let mut i: usize = 0;
    assert(list@.take(0) =~= Seq::<LocalSinkState>::empty());
    while i < list.len()
        invariant
            i <= list@.len(),
            table@ == sinks_of(list@.take(i as int)),
            named(table@),
        decreases list@.len() - i,
    {
        assert(list@.take(i + 1).drop_last() =~= list@.take(i as int));
        table.insert(list[i].name.clone(), SinkState::from(list[i].clone()));
        i = i + 1;
    }
    assert(list@.take(i as int) =~= list@);
    table
}

/// A copy of a table of sinks.
fn copy_table(sinks: &Table<SinkState>) -> (r: Table<SinkState>)
    ensures
        r@ == sinks@,
{
    let keys = sinks.keys();
    let mut out: Table<SinkState> = Table::new();
    let mut i: usize = 0;
    while i < keys.len()
        invariant
            i <= keys@.len(),
            lists_keys(keys@, sinks@),
            forall|k: Seq<char>| #[trigger]
                out@.contains_key(k) ==> sinks@.contains_key(k) && out@[k] == sinks@[k],
            forall|j: int| 0 <= j < i ==> out@.contains_key((#[trigger] keys@[j])@),
        decreases keys@.len() - i,
    {
        if let Some(sink) = sinks.get(keys[i].as_str()) {
            out.insert(keys[i].clone(), sink.clone());
        } else {
            assert(sinks@.contains_key(keys@[i as int]@));
        }
        i = i + 1;
    }
    assert(out@ =~= sinks@);
    out
}

/// Whether every name of one table is in another.
fn covers(a: &Table<SinkState>, b: &Table<SinkState>) -> (r: bool)
    ensures
        r == forall|k: Seq<char>| #[trigger] b@.contains_key(k) ==> a@.contains_key(k),
{
    let keys = b.keys();
    let mut i: usize = 0;
    while i < keys.len()
        invariant
            i <= keys@.len(),
            lists_keys(keys@, b@),
            forall|j: int| 0 <= j < i ==> a@.contains_key((#[trigger] keys@[j])@),
        decreases keys@.len() - i,
    {
        if !a.contains(keys[i].as_str()) {
            assert(b@.contains_key(keys@[i as int]@));
            return false;
        }
        i = i + 1;
    }
    assert forall|k: Seq<char>| #[trigger] b@.contains_key(k) implies a@.contains_key(k) by {
        let j = choose|j: int| 0 <= j < keys@.len() && (#[trigger] keys@[j])@ == k;
        assert(a@.contains_key(keys@[j]@));
    }
    true
}

/// What is told when the sinks of this desktop have changed.
pub struct Push {
    /// What changed, for every device that is connected.
    pub deltas: Vec<Packet>,
    /// All sinks, for every device that is connected, where sinks came or went
    /// or the default output moved.
    pub list: Option<Packet>,
    /// All sinks, for everyone else who is interested.
    pub sinks: Vec<SinkState>,
}

/// What the watch over the sound server remembers.
pub struct Supervisor {
    snapshot: Table<SinkState>,
    default_sink: Option<String>,
    synced: Vec<String>,
    backoff_ms: u64,
}

/// What the watch over the sound server remembers, by its contents.
pub struct SupervisorView {
    /// The sinks as they were last told.
    pub snapshot: Map<Seq<char>, SinkState>,
    /// The default output as it was last told.
    pub default_sink: Option<Seq<char>>,
    /// The devices that were told everything since they are connected.
    pub synced: Seq<Seq<char>>,
    /// How long the next wait is.
    pub backoff_ms: u64,
}

impl View for Supervisor {
    type V = SupervisorView;

    closed spec fn view(&self) -> SupervisorView {
        SupervisorView {
            snapshot: self.snapshot@,
            default_sink: crate::error::text_of(self.default_sink),
            synced: texts(self.synced@),
            backoff_ms: self.backoff_ms,
        }
    }
}

/// Whether two texts that may be missing are the same.
fn same_maybe(a: &Option<String>, b: &Option<String>) -> (r: bool)
    ensures
        r == (crate::error::text_of(*a) == crate::error::text_of(*b)),
{
    match (a, b) {
        (Some(x), Some(y)) => same_text(x.as_str(), y.as_str()),
        (None, None) => true,
        _ => false,
    }
}

/// The wait after a wait.
pub open spec fn doubled(backoff_ms: u64) -> u64 {
    if backoff_ms * 2 <= MAX_BACKOFF_MS {
        (backoff_ms * 2) as u64
    } else {
        MAX_BACKOFF_MS
    }
}

/// The wait before watching again, after a watch that lasted `lasted_ms`.
pub open spec fn wait_after(backoff_ms: u64, lasted_ms: u64) -> u64 {
    if lasted_ms >= HEALTHY_AFTER_MS {
        INITIAL_BACKOFF_MS
    } else {
        backoff_ms
    }
}

/// What happens to a watch over the sound server.
#[derive(Debug)]
pub enum WatchEvent {
    /// The sound server told of something.
    Heard(SubscribeEvent),
    /// It is time to look after the peers.
    Tick,
    /// The sound server will tell of nothing more, after a watch of this length
    /// in milliseconds.
    Ended { lasted_ms: u64 },
}

/// What is to be done about it.
#[derive(Debug, Clone, Copy, PartialEq, Eq, Structural)]
pub enum WatchAction {
    /// Look after the peers.
    Sync,
    /// List the sinks, tell what changed where they could be listed, and then
    /// look after the peers.
    ListThenSync,
    /// Wait for this many milliseconds, and then start watching again.
    WaitThenSubscribe { delay_ms: u64 },
}

/// What follows from what happens to a watch.
pub open spec fn watched(memory: SupervisorView, event: WatchEvent) -> (
    SupervisorView,
    WatchAction,
) {
    match event {
        WatchEvent::Heard(e) => (
            memory,
            if e is Unclassified {
                WatchAction::Sync
            } else {
                WatchAction::ListThenSync
            },
        ),
        WatchEvent::Tick => (memory, WatchAction::Sync),
        WatchEvent::Ended { lasted_ms } => {
            let delay_ms = wait_after(memory.backoff_ms, lasted_ms);
            (
                SupervisorView { backoff_ms: doubled(delay_ms), ..memory },
                WatchAction::WaitThenSubscribe { delay_ms },
            )
        },
    }
}

impl Supervisor {
    /// A watch that starts from what the plugin knows.
    pub fn new(plugin: &SystemVolumePlugin) -> (r: Self)
        ensures
            r@.snapshot == plugin@.local_sinks,
            r@.default_sink == plugin@.default_sink,
            r@.synced == Seq::<Seq<char>>::empty(),
            r@.backoff_ms == INITIAL_BACKOFF_MS,
    {
        let list = plugin.get_local_sinks();
        let mut snapshot: Table<SinkState> = Table::new();
        let mut i: usize = 0;
        while i < list.len()
            invariant
                i <= list@.len(),
                lists_sinks(list@, plugin@.local_sinks),
                forall|k: Seq<char>| #[trigger]
                    snapshot@.contains_key(k) ==> plugin@.local_sinks.contains_key(k)
                        && snapshot@[k] == plugin@.local_sinks[k],
                forall|j: int|
                    0 <= j < i ==> snapshot@.contains_key((#[trigger] list@[j]).name@),
            decreases list@.len() - i,
        {
            assert(plugin@.local_sinks.contains_key(list@[i as int].name@));
            snapshot.insert(list[i].name.clone(), list[i].clone());
            i = i + 1;
        }
        assert forall|k: Seq<char>| #[trigger]
            plugin@.local_sinks.contains_key(k) implies snapshot@.contains_key(k) by {
            let j = choose|j: int| 0 <= j < list@.len() && (#[trigger] list@[j]).name@ == k;
            assert(snapshot@.contains_key(list@[j].name@));
        }
        assert(snapshot@ =~= plugin@.local_sinks);
        let r = Supervisor {
            snapshot,
            default_sink: plugin.get_default_sink(),
            synced: Vec::new(),
            backoff_ms: INITIAL_BACKOFF_MS,
        };
        assert(r@.synced =~= Seq::<Seq<char>>::empty());
        r
    }

    /// Takes a new list of the sinks of this desktop: remembers it, hands it to
    /// the plugin, and says what is to be told.
    pub fn push_local_state(
        &mut self,
        plugin: &mut SystemVolumePlugin,
        new_list: &Vec<LocalSinkState>,
    ) -> (r: Push)
        ensures
            packet_views(r.deltas@) == deltas(old(self)@.snapshot, new_list@),
            lists_sinks(r.sinks@, sinks_of(new_list@)),
            r.list is Some <==> old(self)@.default_sink != final(self)@.default_sink
                || old(self)@.snapshot.dom() != sinks_of(new_list@).dom(),
            r.list matches Some(p) ==> exists|list: Seq<SinkState>| #[trigger]
                lists_sinks(list, sinks_of(new_list@)) && p@ == list_packet(list),
            final(self)@.snapshot == sinks_of(new_list@),
            is_default_of(sinks_of(new_list@), final(self)@.default_sink),
            final(self)@.synced == old(self)@.synced,
            final(self)@.backoff_ms == old(self)@.backoff_ms,
            final(plugin)@ == (VolumeView {
                local_sinks: sinks_of(new_list@),
                default_sink: final(self)@.default_sink,
                ..old(plugin)@
            }),
            final(plugin)@.wf(),
    {
        let new_map = table_of(new_list);
        let new_default = find_default(&new_map);
        let deltas = build_deltas(&self.snapshot, new_list);
        let grown = !covers(&self.snapshot, &new_map);
        let shrunk = !covers(&new_map, &self.snapshot);
        let moved = !same_maybe(&self.default_sink, &new_default);
        let sinks = sorted_sinks(&new_map);
        proof {
            let (a, b) = (self.snapshot@.dom(), new_map@.dom());
            assert((!grown && !shrunk) <==> a =~= b) by {
                if !grown && !shrunk {
                    assert forall|k: Seq<char>| a.contains(k) == b.contains(k) by {
                        if b.contains(k) {
                            assert(new_map@.contains_key(k));
                        }
                        if a.contains(k) {
                            assert(self.snapshot@.contains_key(k));
                        }
                    }
                }
            }
        }
        let list = if moved || grown || shrunk {
            Some(sink_list(sorted_sinks(&new_map)))
        } else {
            None
        };
        plugin.set_local_state(copy_table(&new_map), crate::packet::copy_text(&new_default));
        self.snapshot = new_map;
        self.default_sink = new_default;
        Push { deltas, list, sinks }
    }

    /// The devices that are connected and were not told everything yet; devices
    /// that are not connected any more count as not told.
    pub fn unsynced(&mut self, connected: &Vec<String>) -> (r: Vec<String>)
        ensures
            texts(r@) == selected(texts(connected@), old(self)@.synced, false),
            final(self)@.synced == selected(old(self)@.synced, texts(connected@), true),
            final(self)@.snapshot == old(self)@.snapshot,
            final(self)@.default_sink == old(self)@.default_sink,
            final(self)@.backoff_ms == old(self)@.backoff_ms,
    {
        let fresh = select(connected, &self.synced, false);
        let kept = select(&self.synced, connected, true);
        self.synced = kept;
        fresh
    }

    /// Notes that a device was told everything.
    pub fn mark_synced(&mut self, device_id: String)
        ensures
            final(self)@.synced == old(self)@.synced.push(device_id@),
            final(self)@.snapshot == old(self)@.snapshot,
            final(self)@.default_sink == old(self)@.default_sink,
            final(self)@.backoff_ms == old(self)@.backoff_ms,
    {
        self.synced.push(device_id);
        assert(self@.synced =~= old(self)@.synced.push(device_id@));
    }

    /// How long to wait before watching again, after a watch that lasted
    /// `healthy_ms`. Each wait is twice the one before it, up to a limit; after
    /// a healthy watch they start over.
    pub fn restart_delay(&mut self, healthy_ms: u64) -> (r: u64)
        ensures
            r == wait_after(old(self)@.backoff_ms, healthy_ms),
            final(self)@.backoff_ms == doubled(r),
            final(self)@.snapshot == old(self)@.snapshot,
            final(self)@.default_sink == old(self)@.default_sink,
            final(self)@.synced == old(self)@.synced,
    {
        if healthy_ms >= HEALTHY_AFTER_MS {
            self.backoff_ms = INITIAL_BACKOFF_MS;
        }
        let delay = self.backoff_ms;
        self.backoff_ms = if delay <= MAX_BACKOFF_MS / 2 {
            delay * 2
        } else {
            MAX_BACKOFF_MS
        };
        delay
    }

    /// Takes what happened to the watch. The peers are looked after following
    /// everything but its end, and its end is followed by a wait and a new watch.
    pub fn watch_step(&mut self, event: WatchEvent) -> (r: WatchAction)
        ensures
            (final(self)@, r) == watched(old(self)@, event),
    {
        match event {
            WatchEvent::Heard(e) => {
                if handle_subscribe_event(&e) {
                    WatchAction::ListThenSync
                } else {
                    WatchAction::Sync
                }
            },
            WatchEvent::Tick => WatchAction::Sync,
            WatchEvent::Ended { lasted_ms } => {
                let delay_ms = self.restart_delay(lasted_ms);
                WatchAction::WaitThenSubscribe { delay_ms }
            },
        }
    }
}

/// The texts of `list` that `other` has, or has not.
pub open spec fn selected(
    list: Seq<Seq<char>>,
    other: Seq<Seq<char>>,
    present: bool,
) -> Seq<Seq<char>> {
    list.filter(|d: Seq<char>| other.contains(d) == present)
}

/// The texts of `list` that `other` has, or has not.
fn select(list: &Vec<String>, other: &Vec<String>, present: bool) -> (r: Vec<String>)
    ensures
        texts(r@) == selected(texts(list@), texts(other@), present),
{
    let ghost keep = |d: Seq<char>| texts(other@).contains(d) == present;
    let mut out: Vec<String> = Vec::new();
    let mut i: usize = 0;
    assert(texts(list@.take(0)) =~= Seq::<Seq<char>>::empty());
    assert(texts(out@) =~= Seq::<Seq<char>>::empty());
    reveal(Seq::filter);
    while i < list.len()
        invariant
            i <= list@.len(),
            keep == (|d: Seq<char>| texts(other@).contains(d) == present),
            texts(out@) == texts(list@.take(i as int)).filter(keep),
        decreases list@.len() - i,
    {
        reveal(Seq::filter);
        let ghost (part, more) = (texts(list@.take(i as int)), texts(list@.take(i + 1)));
        assert(more.drop_last() =~= part);
        assert(more.last() == list@[i as int]@);
        let ghost before = out@;
        if lists_text(other, list[i].as_str()) == present {
            out.push(list[i].clone());
            assert(texts(out@) =~= texts(before).push(list@[i as int]@));
        }
        i = i + 1;
    }
    assert(list@.take(i as int) =~= list@);
    out
}

/// What a device is told and asked once it is connected: one that takes
/// descriptions is told all sinks, and one that sends them is asked for its own.
pub open spec fn greeting(
    incoming: Seq<Seq<char>>,
    outgoing: Seq<Seq<char>>,
    list: Seq<SinkState>,
) -> Seq<PacketView> {
    (if incoming.contains(STATE_PACKET@) {
        seq![list_packet(list)]
    } else {
        seq![]
    }) + (if outgoing.contains(STATE_PACKET@) {
        seq![
            crate::packet::packet_with(REQUEST_PACKET@, "requestSinks"@, ValueView::Bool(true)),
        ]
    } else {
        seq![]
    })
}

/// What a device is told and asked once it is connected, given the packet types
/// that it takes and sends.
pub fn sync_peers(plugin: &SystemVolumePlugin, incoming: &Vec<String>, outgoing: &Vec<String>) -> (r:
    Vec<Packet>)
    ensures
        exists|list: Seq<SinkState>| #[trigger]
            lists_sinks(list, plugin@.local_sinks) && packet_views(r@) == greeting(
                texts(incoming@),
                texts(outgoing@),
                list,
            ),
{
    let sinks = plugin.get_local_sinks();
    let ghost list = sinks@;
    let mut out: Vec<Packet> = Vec::new();
    if lists_text(incoming, STATE_PACKET) {
        out.push(sink_list(sinks));
    }
    if lists_text(outgoing, STATE_PACKET) {
        out.push(request_sinks_packet());
    }
    assert(packet_views(out@) =~= greeting(texts(incoming@), texts(outgoing@), list));
    assert(lists_sinks(list, plugin@.local_sinks));
    out
}

} // verus!
