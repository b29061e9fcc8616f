//! The volume plugin: what it remembers, what packets do to it, and what it
//! offers.

use vstd::prelude::*;

use crate::packet::{packet_with, Packet, PacketView, SinkState, Value, ValueView};
use crate::plugins::systemvolume::backend::{BackendOp, LocalSinkState, OpView};
use crate::plugins::systemvolume::sinks::{
    applied, apply_list, described, find_default, is_default_of, lemma_applied, lists_sinks, named,
    sorted_sinks, REQUEST_PACKET, STATE_PACKET,
};
use crate::table::{texts, Table};
use crate::text::same_text;

verus! {

/// Everything that the plugin remembers, by its contents.
#[verifier::ext_equal]
pub struct VolumeView {
    /// The sinks of other desktops, by device and name.
    pub sinks: Map<Seq<char>, Map<Seq<char>, SinkState>>,
    /// The sinks of this desktop, by name.
    pub local_sinks: Map<Seq<char>, SinkState>,
    /// The default output of this desktop.
    pub default_sink: Option<Seq<char>>,
    /// Whether there is a sound server.
    pub has_backend: bool,
    /// Whether it answered when it was found.
    pub backend_available: bool,
    /// Whether there are links to tell of changes.
    pub has_connections: bool,
    /// Whether the sound server is being watched.
    pub watcher_started: bool,
}

impl VolumeView {
    /// Every sink stands under its own name.
    pub open spec fn wf(self) -> bool {
        &&& named(self.local_sinks)
        &&& all_named(self.sinks)
    }
}

/// Every sink of every desktop stands under its own name.
pub open spec fn all_named(sinks: Map<Seq<char>, Map<Seq<char>, SinkState>>) -> bool {
    forall|d: Seq<char>| #[trigger] sinks.contains_key(d) ==> named(sinks[d])
}

/// The sinks of several desktops, by device and name.
pub open spec fn sink_maps(sinks: Map<Seq<char>, Table<SinkState>>) -> Map<
    Seq<char>,
    Map<Seq<char>, SinkState>,
> {
    sinks.map_values(|t: Table<SinkState>| t@)
}

/// Tracks the sinks of other desktops, and offers those of this one.
pub struct SystemVolumePlugin {
    sinks: Table<Table<SinkState>>,
    local_sinks: Table<SinkState>,
    default_sink: Option<String>,
    has_backend: bool,
    backend_available: bool,
    has_connections: bool,
    watcher_started: bool,
}

impl View for SystemVolumePlugin {
    type V = VolumeView;

    closed spec fn view(&self) -> VolumeView {
        VolumeView {
            sinks: sink_maps(self.sinks@),
            local_sinks: self.local_sinks@,
            default_sink: crate::error::text_of(self.default_sink),
            has_backend: self.has_backend,
            backend_available: self.backend_available,
            has_connections: self.has_connections,
            watcher_started: self.watcher_started,
        }
    }
}

impl SystemVolumePlugin {
    /// Every sink stands under its own name.
    #[verifier::type_invariant]
    spec fn keeps_names(self) -> bool {
        self@.wf()
    }
}

/// The sinks that a list describes, each under its name. Entries that describe
/// none, or one without a name, are dropped; of two with one name the later one
/// counts.
pub open spec fn described_sinks(list: Seq<Option<SinkState>>) -> Map<Seq<char>, SinkState>
    decreases list.len(),
{
    if list.len() == 0 {
        Map::empty()
    } else {
        let before = described_sinks(list.drop_last());
        match list.last() {
            Some(sink) => if sink.name@.len() > 0 {
                before.insert(sink.name@, sink)
            } else {
                before
            },
            None => before,
        }
    }
}

/// A sink after a packet that tells what changed of it.
pub open spec fn updated(sink: SinkState, packet: PacketView) -> SinkState {
    SinkState {
        volume: match packet.int_field("volume"@) {
            Some(v) => Some(v),
            None => sink.volume,
        },
        muted: match packet.bool_field("muted"@) {
            Some(m) => Some(m),
            None => sink.muted,
        },
        enabled: match packet.bool_field("enabled"@) {
            Some(e) => Some(e),
            None => sink.enabled,
        },
        ..sink
    }
}

/// The sinks of other desktops after a packet of one of them: a list takes the
/// place of all that was known, and a change of a sink that is not known is
/// ignored.
pub open spec fn controller_after(
    sinks: Map<Seq<char>, Map<Seq<char>, SinkState>>,
    device: Seq<char>,
    packet: PacketView,
) -> Map<Seq<char>, Map<Seq<char>, SinkState>> {
    match packet.list_field("sinkList"@) {
        Some(list) => sinks.insert(device, described_sinks(list)),
        None => match packet.text_field("name"@) {
            Some(name) => if sinks.contains_key(device) && sinks[device].contains_key(name) {
                sinks.insert(
                    device,
                    sinks[device].insert(name, updated(sinks[device][name], packet)),
                )
            } else {
                sinks
            },
            None => sinks,
        },
    }
}

/// The sinks that a list describes, each under its name.
fn described_table(list: &Vec<Option<SinkState>>) -> (r: Table<SinkState>)
    ensures
        r@ == described_sinks(list@),
        named(r@),
{
    let mut parsed: Table<SinkState> = Table::new();
    let mut i: usize = 0;
    assert(list@.take(0) =~= Seq::<Option<SinkState>>::empty());
    while i < list.len()
        invariant
            i <= list@.len(),
            parsed@ == described_sinks(list@.take(i as int)),
            named(parsed@),
        decreases list@.len() - i,
    {
        assert(list@.take(i + 1).drop_last() =~= list@.take(i as int));
        if let Some(sink) = &list[i] {
            if sink.name.as_str().unicode_len() > 0 {
                parsed.insert(sink.name.clone(), sink.clone());
            }
        }
        i = i + 1;
    }
    assert(list@.take(i as int) =~= list@);
    parsed
}

/// Brings the sinks of other desktops up to date with a packet of one of them.
fn take_state(sinks: &mut Table<Table<SinkState>>, device_id: &str, packet: &Packet)
    requires
        all_named(sink_maps(old(sinks)@)),
    ensures
        sink_maps(final(sinks)@) == controller_after(
            sink_maps(old(sinks)@),
            device_id@,
            packet@,
        ),
        all_named(sink_maps(final(sinks)@)),
{
    if let Some(list) = packet.get_list("sinkList") {
        let parsed = described_table(list);
        sinks.insert(device_id.to_owned(), parsed);
        assert(sink_maps(sinks@) =~= controller_after(
            sink_maps(old(sinks)@),
            device_id@,
            packet@,
        ));
        return;
    }
    let name = match packet.get_text("name") {
        Some(name) => name,
        None => {
            return;
        },
    };
    let known = match sinks.get(device_id) {
        Some(of_device) => of_device.contains(name.as_str()),
        None => false,
    };
    if !known {
        return;
    }
    if let Some(mut of_device) = sinks.remove(device_id) {
        let ghost before = of_device@;
        if let Some(mut sink) = of_device.remove(name.as_str()) {
            if let Some(volume) = packet.get_int("volume") {
                sink.volume = Some(volume);
            }
            if let Some(muted) = packet.get_bool("muted") {
                sink.muted = Some(muted);
            }
            if let Some(enabled) = packet.get_bool("enabled") {
                sink.enabled = Some(enabled);
            }
            assert(sink == updated(before[name@], packet@));
            of_device.insert(name.clone(), sink);
        }
        assert(of_device@ =~= before.insert(name@, updated(before[name@], packet@)));
        sinks.insert(device_id.to_owned(), of_device);
        assert(sink_maps(sinks@) =~= controller_after(
            sink_maps(old(sinks)@),
            device_id@,
            packet@,
        ));
    }
}

/// One of the changes that a request comes to.
#[derive(Debug)]
pub struct PlannedOp {
    pub op: BackendOp,
    /// Whether the rest of the request is dropped where this change fails.
    pub required: bool,
}

/// One of the changes that a request comes to, by its texts.
pub struct PlannedView {
    pub op: OpView,
    pub required: bool,
}

impl View for PlannedOp {
    type V = PlannedView;

    open spec fn view(&self) -> PlannedView {
        PlannedView { op: self.op@, required: self.required }
    }
}

/// The changes that a request for the sink `name` comes to: the volume first,
/// which also unmutes; then the mute; then the default output.
pub open spec fn requested_ops(name: Seq<char>, packet: PacketView) -> Seq<PlannedView> {
    let volume = match packet.int_field("volume"@) {
        Some(volume) => seq![
            PlannedView { op: OpView::SetVolume { name, volume }, required: true },
            PlannedView { op: OpView::SetMuted { name, muted: false }, required: false },
        ],
        None => seq![],
    };
    let muted = match packet.bool_field("muted"@) {
        Some(muted) => seq![PlannedView { op: OpView::SetMuted { name, muted }, required: true }],
        None => seq![],
    };
    let enabled = match packet.bool_field("enabled"@) {
        Some(enabled) => seq![
            PlannedView { op: OpView::SetDefault { name, enabled }, required: true },
        ],
        None => seq![],
    };
    volume + muted + enabled
}

/// What a request for the sinks of this desktop comes to.
pub enum RequestView {
    /// Nothing.
    Ignore,
    /// Ask the sound server for its sinks, and answer with them.
    ListSinks,
    /// Ask the sound server for these changes, in order.
    Control(Seq<PlannedView>),
}

/// What a request for the sinks of this desktop comes to.
pub open spec fn provider_request(has_backend: bool, packet: PacketView) -> RequestView {
    if !has_backend {
        RequestView::Ignore
    } else if packet.bool_field("requestSinks"@) == Some(true) {
        RequestView::ListSinks
    } else {
        match packet.text_field("name"@) {
            None => RequestView::Ignore,
            Some(name) => RequestView::Control(requested_ops(name, packet)),
        }
    }
}

/// The changes of a list, by their texts.
pub open spec fn planned(ops: Seq<PlannedOp>) -> Seq<PlannedView> {
    ops.map_values(|p: PlannedOp| p@)
}

/// The changes of a request that are still to be made.
#[derive(Debug)]
pub struct ProviderRequest {
    ops: Vec<PlannedOp>,
    at: usize,
}

impl ProviderRequest {
    /// The changes that are still to be made, next first.
    pub closed spec fn remaining(&self) -> Seq<PlannedView> {
        if self.at <= self.ops@.len() {
            planned(self.ops@.skip(self.at as int))
        } else {
            Seq::empty()
        }
    }

    /// The next change.
    pub fn next_op(&self) -> (r: Option<&BackendOp>)
        ensures
            match r {
                Some(op) => self.remaining().len() > 0 && op@ == self.remaining()[0].op,
                None => self.remaining().len() == 0,
            },
    {
        if self.at < self.ops.len() {
            Some(&self.ops[self.at].op)
        } else {
            None
        }
    }

    /// Goes on from how the next change went: where one that is required
    /// failed, the rest is dropped.
    pub fn op_finished(&mut self, done: bool)
        requires
            old(self).remaining().len() > 0,
        ensures
            final(self).remaining() == (if !done && old(self).remaining()[0].required {
                Seq::<PlannedView>::empty()
            } else {
                old(self).remaining().drop_first()
            }),
    {
        let count = self.ops.len();
        let required = self.ops[self.at].required;
        if !done && required {
            self.at = count;
            assert(self.remaining() =~= Seq::<PlannedView>::empty());
        } else {
            self.at = self.at + 1;
            assert(self.remaining() =~= old(self).remaining().drop_first());
        }
    }
}

/// What a packet asks the plugin to have done.
#[derive(Debug)]
pub enum VolumeAction {
    Nothing,
    /// Ask the sound server for its sinks, and answer with them.
    ListSinks,
    /// Ask the sound server for these changes, in order.
    Control(ProviderRequest),
}

/// `action` is what `request` comes to.
pub open spec fn is_action(action: VolumeAction, request: RequestView) -> bool {
    match request {
        RequestView::Ignore => action is Nothing,
        RequestView::ListSinks => action is ListSinks,
        RequestView::Control(ops) => action matches VolumeAction::Control(r) && r.remaining() == ops,
    }
}

/// The packet that lists sinks in the given order.
pub open spec fn list_packet(list: Seq<SinkState>) -> PacketView {
    packet_with(
        STATE_PACKET@,
        "sinkList"@,
        ValueView::List(list.map_values(|s: SinkState| Some(s))),
    )
}

/// The packet that lists sinks in the given order.
pub fn sink_list(list: Vec<SinkState>) -> (r: Packet)
    ensures
        r@ == list_packet(list@),
{
    let mut entries: Vec<Option<SinkState>> = Vec::new();
    let mut i: usize = 0;
    while i < list.len()
        invariant
            i <= list@.len(),
            entries@.len() == i,
            forall|j: int| 0 <= j < i ==> #[trigger] entries@[j] == Some(list@[j]),
        decreases list@.len() - i,
    {
        entries.push(Some(list[i].clone()));
        i = i + 1;
    }
    assert(entries@ =~= list@.map_values(|s: SinkState| Some(s)));
    Packet::with_field(STATE_PACKET, "sinkList", Value::List(entries))
}

/// The packet that lists the sinks of this desktop.
pub fn sink_list_packet(sinks: &Vec<LocalSinkState>) -> (r: Packet)
    ensures
        r@ == list_packet(sinks@.map_values(|s: LocalSinkState| described(s))),
{
    let mut list: Vec<SinkState> = Vec::new();
    let mut i: usize = 0;
    while i < sinks.len()
        invariant
            i <= sinks@.len(),
            list@.len() == i,
            forall|j: int| 0 <= j < i ==> #[trigger] list@[j] == described(sinks@[j]),
        decreases sinks@.len() - i,
    {
        list.push(SinkState::from(sinks[i].clone()));
        i = i + 1;
    }
    assert(list@ =~= sinks@.map_values(|s: LocalSinkState| described(s)));
    sink_list(list)
}

/// The packet that asks for the sinks of another desktop.
pub fn request_sinks_packet() -> (r: Packet)
    ensures
        r@ == packet_with(REQUEST_PACKET@, "requestSinks"@, ValueView::Bool(true)),
{
    Packet::with_field(REQUEST_PACKET, "requestSinks", Value::Bool(true))
}

/// The packet types that are taken: requests only where there is a sound server
/// to serve them.
pub open spec fn taken(backend_available: bool) -> Seq<Seq<char>> {
    if backend_available {
        seq![STATE_PACKET@, REQUEST_PACKET@]
    } else {
        seq![STATE_PACKET@]
    }
}

/// The packet types that are sent: descriptions only where there is a sound
/// server to describe.
pub open spec fn sent(backend_available: bool) -> Seq<Seq<char>> {
    if backend_available {
        seq![REQUEST_PACKET@, STATE_PACKET@]
    } else {
        seq![REQUEST_PACKET@]
    }
}

impl SystemVolumePlugin {
    /// A plugin that knows of nothing.
    pub fn new() -> (r: Self)
        ensures
            r@ == (VolumeView {
                sinks: Map::empty(),
                local_sinks: Map::empty(),
                default_sink: None,
                has_backend: false,
                backend_available: false,
                has_connections: false,
                watcher_started: false,
            }),
            r@.wf(),
    {
        let r = SystemVolumePlugin {
            sinks: Table::new(),
            local_sinks: Table::new(),
            default_sink: None,
            has_backend: false,
            backend_available: false,
            has_connections: false,
            watcher_started: false,
        };
        assert(r@.sinks =~= Map::empty());
        r
    }

    /// The plugin's name.
    pub fn name(&self) -> (r: &'static str)
        ensures
            r@ == "systemvolume"@,
    {
        "systemvolume"
    }

    /// Notes that there are links to tell of changes.
    pub fn with_connection_manager(&mut self)
        ensures
            final(self)@ == (VolumeView { has_connections: true, ..old(self)@ }),
    {
        proof {
            use_type_invariant(&*self);
        }
        self.has_connections = true;
    }

    /// Notes that there is a sound server, and whether it answers.
    pub fn set_backend(&mut self, available: bool)
        ensures
            final(self)@ == (VolumeView {
                has_backend: true,
                backend_available: available,
                ..old(self)@
            }),
    {
        proof {
            use_type_invariant(&*self);
        }
        self.has_backend = true;
        self.backend_available = available;
    }

    /// Takes up a sound server that listed its sinks.
    pub fn enable_session_backend(&mut self, sinks: &Vec<LocalSinkState>, available: bool)
        ensures
            final(self)@.wf(),
            final(self)@.local_sinks == applied(old(self)@.local_sinks, sinks@),
            is_default_of(final(self)@.local_sinks, final(self)@.default_sink),
            final(self)@ == (VolumeView {
                local_sinks: final(self)@.local_sinks,
                default_sink: final(self)@.default_sink,
                has_backend: true,
                backend_available: available,
                ..old(self)@
            }),
    {
        self.apply_local_sinks(sinks);
        self.recompute_default();
        self.set_backend(available);
    }

    /// Whether there is a sound server.
    pub fn backend(&self) -> (r: bool)
        ensures
            r == self@.has_backend,
    {
        self.has_backend
    }

    /// Whether the sound server is to be watched from now on: it is once there
    /// are links and a sound server, and not twice.
    pub fn try_start_watcher(&self) -> (r: bool)
        ensures
            r == (!self@.watcher_started && self@.has_connections && self@.has_backend),
    {
        !self.watcher_started && self.has_connections && self.has_backend
    }

    /// Notes that the sound server is being watched.
    pub fn watcher_started(&mut self)
        ensures
            final(self)@ == (VolumeView { watcher_started: true, ..old(self)@ }),
    {
        proof {
            use_type_invariant(&*self);
        }
        self.watcher_started = true;
    }

    /// Notes that the sound server is not being watched.
    pub fn disable_watcher_for_test(&mut self)
        ensures
            final(self)@ == (VolumeView { watcher_started: false, ..old(self)@ }),
    {
        proof {
            use_type_invariant(&*self);
        }
        self.watcher_started = false;
    }

    /// Changes whether the sound server counts as available.
    pub fn set_backend_available_for_test(&mut self, available: bool)
        ensures
            final(self)@ == (VolumeView { backend_available: available, ..old(self)@ }),
    {
        proof {
            use_type_invariant(&*self);
        }
        self.backend_available = available;
    }

    /// One sink of this desktop.
    pub fn get_local_sink(&self, name: &str) -> (r: Option<SinkState>)
        ensures
            r == (if self@.local_sinks.contains_key(name@) {
                Some(self@.local_sinks[name@])
            } else {
                None
            }),
    {
        match self.local_sinks.get(name) {
            Some(sink) => Some(sink.clone()),
            None => None,
        }
    }

    /// The sinks of this desktop, by name.
    pub fn get_local_sinks(&self) -> (r: Vec<SinkState>)
        ensures
            lists_sinks(r@, self@.local_sinks),
    {
        proof {
            use_type_invariant(self);
        }
        sorted_sinks(&self.local_sinks)
    }

    /// The default output of this desktop.
    pub fn get_default_sink(&self) -> (r: Option<String>)
        ensures
            crate::error::text_of(r) == self@.default_sink,
    {
        crate::packet::copy_text(&self.default_sink)
    }

    /// The sinks of another desktop, by name.
    pub fn get_sinks(&self, device_id: &str) -> (r: Vec<SinkState>)
        ensures
            if self@.sinks.contains_key(device_id@) {
                lists_sinks(r@, self@.sinks[device_id@])
            } else {
                r@.len() == 0
            },
    {
        proof {
            use_type_invariant(self);
        }
        match self.sinks.get(device_id) {
            Some(sinks) => {
                assert(self@.sinks.contains_key(device_id@));
                sorted_sinks(sinks)
            },
            None => Vec::new(),
        }
    }

    /// One sink of another desktop.
    pub fn get_sink(&self, device_id: &str, name: &str) -> (r: Option<SinkState>)
        ensures
            r == (if self@.sinks.contains_key(device_id@) && self@.sinks[device_id@].contains_key(
                name@,
            ) {
                Some(self@.sinks[device_id@][name@])
            } else {
                None
            }),
    {
        match self.sinks.get(device_id) {
            Some(sinks) => match sinks.get(name) {
                Some(sink) => Some(sink.clone()),
                None => None,
            },
            None => None,
        }
    }

    /// Brings the sinks of this desktop up to date with a list of all of them.
    /// What the list leaves out of a sink that stays is kept.
    pub fn apply_local_sinks(&mut self, sinks: &Vec<LocalSinkState>)
        ensures
            final(self)@ == (VolumeView {
                local_sinks: applied(old(self)@.local_sinks, sinks@),
                ..old(self)@
            }),
            final(self)@.wf(),
    {
        proof {
            use_type_invariant(&*self);
            lemma_applied(self@.local_sinks, sinks@);
        }
        let mut local_sinks: Table<SinkState> = Table::new();
        std::mem::swap(&mut local_sinks, &mut self.local_sinks);
        apply_list(&mut local_sinks, sinks);
        self.local_sinks = local_sinks;
    }

    /// Finds the default output among the sinks of this desktop.
    pub fn recompute_default(&mut self)
        ensures
            is_default_of(old(self)@.local_sinks, final(self)@.default_sink),
            final(self)@ == (VolumeView {
                default_sink: final(self)@.default_sink,
                ..old(self)@
            }),
    {
        proof {
            use_type_invariant(&*self);
        }
        self.default_sink = find_default(&self.local_sinks);
    }

    /// Replaces the sinks of this desktop and the default output.
    pub(crate) fn set_local_state(&mut self, sinks: Table<SinkState>, default: Option<String>)
        requires
            named(sinks@),
        ensures
            final(self)@.wf(),
            final(self)@ == (VolumeView {
                local_sinks: sinks@,
                default_sink: crate::error::text_of(default),
                ..old(self)@
            }),
    {
        proof {
            use_type_invariant(&*self);
        }
        self.local_sinks = sinks;
        self.default_sink = default;
    }

    /// The packet types that are taken.
    pub fn incoming_capabilities(&self) -> (r: Vec<String>)
        ensures
            texts(r@) == taken(self@.backend_available),
    {
        let mut caps: Vec<String> = Vec::new();
        caps.push(STATE_PACKET.to_owned());
        if self.backend_available {
            caps.push(REQUEST_PACKET.to_owned());
        }
        assert(texts(caps@) =~= taken(self@.backend_available));
        caps
    }

    /// The packet types that are sent.
    pub fn outgoing_capabilities(&self) -> (r: Vec<String>)
        ensures
            texts(r@) == sent(self@.backend_available),
    {
        let mut caps: Vec<String> = Vec::new();
        caps.push(REQUEST_PACKET.to_owned());
        if self.backend_available {
            caps.push(STATE_PACKET.to_owned());
        }
        assert(texts(caps@) =~= sent(self@.backend_available));
        caps
    }

    /// Whether the sound server counts as available.
    pub fn is_backend_available(&self) -> (r: bool)
        ensures
            r == self@.backend_available,
    {
        self.backend_available
    }

    /// What is sent to a device as soon as it is connected: nothing. Whether it
    /// is to be asked or told depends on what it takes, which is seen to later.
    pub fn on_connected(&self, _device_id: &str) -> (r: Vec<Packet>)
        ensures
            r@.len() == 0,
    {
        Vec::new()
    }

    /// Takes the sinks of other desktops out of the plugin, to be changed and put
    /// back.
    fn take_sinks(&mut self) -> (r: Table<Table<SinkState>>)
        ensures
            sink_maps(r@) == old(self)@.sinks,
            final(self)@ == (VolumeView { sinks: Map::empty(), ..old(self)@ }),
    {
        proof {
            use_type_invariant(&*self);
        }
        let mut sinks: Table<Table<SinkState>> = Table::new();
        std::mem::swap(&mut sinks, &mut self.sinks);
        assert(self@.sinks =~= Map::empty());
        sinks
    }

    /// Forgets the sinks of a device that is no longer connected.
    pub fn on_disconnected(&mut self, device_id: &str)
        ensures
            final(self)@ == (VolumeView {
                sinks: old(self)@.sinks.remove(device_id@),
                ..old(self)@
            }),
            final(self)@.wf(),
    {
        proof {
            use_type_invariant(&*self);
        }
        let mut sinks = self.take_sinks();
        sinks.remove(device_id);
        assert(sink_maps(sinks@) =~= old(self)@.sinks.remove(device_id@));
        self.sinks = sinks;
        assert(self@ =~= VolumeView { sinks: old(self)@.sinks.remove(device_id@), ..old(self)@ });
    }

    /// Takes a packet that describes the sinks of another desktop.
    pub fn handle_controller_state(&mut self, device_id: &str, packet: &Packet)
        ensures
            final(self)@ == (VolumeView {
                sinks: controller_after(old(self)@.sinks, device_id@, packet@),
                ..old(self)@
            }),
            final(self)@.wf(),
    {
        proof {
            use_type_invariant(&*self);
        }
        let mut sinks = self.take_sinks();
        take_state(&mut sinks, device_id, packet);
        self.sinks = sinks;
        assert(self@ =~= VolumeView {
            sinks: controller_after(old(self)@.sinks, device_id@, packet@),
            ..old(self)@
        });
    }

    /// Takes a request for the sinks of this desktop.
    pub fn handle_provider_request(&self, packet: &Packet) -> (r: VolumeAction)
        ensures
            is_action(r, provider_request(self@.has_backend, packet@)),
    {
        if !self.has_backend {
            return VolumeAction::Nothing;
        }
        if let Some(wanted) = packet.get_bool("requestSinks") {
            if wanted {
                return VolumeAction::ListSinks;
            }
        }
        let name = match packet.get_text("name") {
            Some(name) => name,
            None => {
                return VolumeAction::Nothing;
            },
        };
        let mut ops: Vec<PlannedOp> = Vec::new();
        if let Some(volume) = packet.get_int("volume") {
            ops.push(
                PlannedOp {
                    op: BackendOp::SetVolume { name: name.clone(), volume },
                    required: true,
                },
            );
            ops.push(
                PlannedOp {
                    op: BackendOp::SetMuted { name: name.clone(), muted: false },
                    required: false,
                },
            );
        }
        if let Some(muted) = packet.get_bool("muted") {
            ops.push(
                PlannedOp { op: BackendOp::SetMuted { name: name.clone(), muted }, required: true },
            );
        }
        if let Some(enabled) = packet.get_bool("enabled") {
            ops.push(
                PlannedOp {
                    op: BackendOp::SetDefault { name: name.clone(), enabled },
                    required: true,
                },
            );
        }
        assert(planned(ops@.skip(0)) =~= requested_ops(name@, packet@));
        VolumeAction::Control(ProviderRequest { ops, at: 0 })
    }

    /// Answers a request for the sinks with those that the sound server listed.
    pub fn answer_request(&mut self, sinks: &Vec<LocalSinkState>) -> (r: Packet)
        ensures
            r@ == list_packet(sinks@.map_values(|s: LocalSinkState| described(s))),
            final(self)@.wf(),
            final(self)@.local_sinks == applied(old(self)@.local_sinks, sinks@),
            is_default_of(final(self)@.local_sinks, final(self)@.default_sink),
            final(self)@ == (VolumeView {
                local_sinks: final(self)@.local_sinks,
                default_sink: final(self)@.default_sink,
                ..old(self)@
            }),
    {
        self.apply_local_sinks(sinks);
        self.recompute_default();
        sink_list_packet(sinks)
    }

    /// Takes a packet.
    pub fn handle_packet(&mut self, device_id: &str, packet: &Packet) -> (r: VolumeAction)
        ensures
            if packet@.packet_type == STATE_PACKET@ {
                r is Nothing && final(self)@ == (VolumeView {
                    sinks: controller_after(old(self)@.sinks, device_id@, packet@),
                    ..old(self)@
                })
            } else if packet@.packet_type == REQUEST_PACKET@ {
                is_action(r, provider_request(old(self)@.has_backend, packet@)) && final(self)@
                    == old(self)@
            } else {
                r is Nothing && final(self)@ == old(self)@
            },
            final(self)@.wf(),
    {
        proof {
            use_type_invariant(&*self);
        }
        if same_text(packet.packet_type.as_str(), STATE_PACKET) {
            self.handle_controller_state(device_id, packet);
            VolumeAction::Nothing
        } else if same_text(packet.packet_type.as_str(), REQUEST_PACKET) {
            self.handle_provider_request(packet)
        } else {
            VolumeAction::Nothing
        }
    }
}

impl SystemVolumePlugin {
    /// Adds sinks of this desktop, and finds the default output among them.
    pub fn with_local_sinks_for_test(&mut self, sinks: Vec<SinkState>)
        ensures
            final(self)@.wf(),
            final(self)@.local_sinks == with_each(old(self)@.local_sinks, sinks@),
            is_default_of(final(self)@.local_sinks, final(self)@.default_sink),
            final(self)@ == (VolumeView {
                local_sinks: final(self)@.local_sinks,
                default_sink: final(self)@.default_sink,
                ..old(self)@
            }),
    {
        proof {
            use_type_invariant(&*self);
        }
        let mut local_sinks: Table<SinkState> = Table::new();
        std::mem::swap(&mut local_sinks, &mut self.local_sinks);
        let mut i: usize = 0;
        assert(sinks@.take(0) =~= Seq::<SinkState>::empty());
        while i < sinks.len()
            invariant
                i <= sinks@.len(),
                named(local_sinks@),
                local_sinks@ == with_each(old(self)@.local_sinks, sinks@.take(i as int)),
            decreases sinks@.len() - i,
        {
            assert(sinks@.take(i + 1).drop_last() =~= sinks@.take(i as int));
            local_sinks.insert(sinks[i].name.clone(), sinks[i].clone());
            i = i + 1;
        }
        assert(sinks@.take(i as int) =~= sinks@);
        self.local_sinks = local_sinks;
        self.recompute_default();
    }
}

/// Sinks with more of them, each under its name.
pub open spec fn with_each(sinks: Map<Seq<char>, SinkState>, more: Seq<SinkState>) -> Map<
    Seq<char>,
    SinkState,
>
    decreases more.len(),
{
    if more.len() == 0 {
        sinks
    } else {
        with_each(sinks, more.drop_last()).insert(more.last().name@, more.last())
    }
}

} // verus!
