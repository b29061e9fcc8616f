//! What holds of the volume plugin as a whole.

use vstd::prelude::*;

use crate::packet::{field, PacketView, SinkState, ValueView};
use crate::plugins::systemvolume::backend::{LocalSinkState, OpView};
use crate::plugins::systemvolume::plugin::{
    controller_after, described_sinks, list_packet, provider_request, requested_ops, sent, taken,
    updated, PlannedView, RequestView,
};
use crate::plugins::systemvolume::sinks::{
    applied, described, known_sink, lemma_applied, lists_sinks, merged, named, refreshed,
    sink_names, REQUEST_PACKET, STATE_PACKET,
};
use crate::plugins::systemvolume::supervisor::{
    bool_value, delta_packet, deltas, doubled, int_value, selected, sink_deltas, INITIAL_BACKOFF_MS,
    MAX_BACKOFF_MS,
};

verus! {

/// The sinks of other desktops after a sequence of packets of one of them.
pub open spec fn controller_after_all(
    sinks: Map<Seq<char>, Map<Seq<char>, SinkState>>,
    device: Seq<char>,
    packets: Seq<PacketView>,
) -> Map<Seq<char>, Map<Seq<char>, SinkState>>
    decreases packets.len(),
{
    if packets.len() == 0 {
        sinks
    } else {
        controller_after(
            controller_after_all(sinks, device, packets.drop_last()),
            device,
            packets.last(),
        )
    }
}

proof fn lemma_list_field(list: Seq<SinkState>)
    ensures
        list_packet(list).list_field("sinkList"@) == Some(
            list.map_values(|s: SinkState| Some(s)),
        ),
{
    assert(list_packet(list).body[0].0 == "sinkList"@);
}

/// The sinks that a list of sinks describes are those sinks.
proof fn lemma_described_sinks(list: Seq<SinkState>)
    requires
        forall|i: int| 0 <= i < list.len() ==> (#[trigger] list[i]).name@.len() > 0,
        forall|i: int, j: int|
            #![trigger list[i], list[j]]
            0 <= i < j < list.len() ==> list[i].name@ != list[j].name@,
    ensures
        ({
            let m = described_sinks(list.map_values(|s: SinkState| Some(s)));
            &&& forall|i: int|
                0 <= i < list.len() ==> m.contains_key((#[trigger] list[i]).name@)
                    && m[list[i].name@] == list[i]
            &&& forall|k: Seq<char>| #[trigger]
                m.contains_key(k) ==> exists|i: int|
                    0 <= i < list.len() && (#[trigger] list[i]).name@ == k
        }),
    decreases list.len(),
{
    let entries = list.map_values(|s: SinkState| Some(s));
    let m = described_sinks(entries);
    if list.len() > 0 {
        let rest = list.drop_last();
        assert(entries.drop_last() =~= rest.map_values(|s: SinkState| Some(s)));
        assert forall|i: int| 0 <= i < rest.len() implies (#[trigger] rest[i]).name@.len() > 0 by {
            assert(rest[i] == list[i]);
        }
        lemma_described_sinks(rest);
        let before = described_sinks(entries.drop_last());
        assert(entries.last() == Some(list.last()));
        assert(list.last() == list[list.len() - 1]);
        assert(m == before.insert(list.last().name@, list.last()));
        assert forall|i: int| 0 <= i < list.len() implies m.contains_key((#[trigger] list[i]).name@)
            && m[list[i].name@] == list[i] by {
            if i < rest.len() {
                assert(rest[i] == list[i]);
            }
        }
        assert forall|k: Seq<char>| #[trigger] m.contains_key(k) implies exists|i: int|
            0 <= i < list.len() && (#[trigger] list[i]).name@ == k by {
            if before.contains_key(k) {
                let i = choose|i: int| 0 <= i < rest.len() && (#[trigger] rest[i]).name@ == k;
                assert(list[i].name@ == k);
            } else {
                assert(list[list.len() - 1].name@ == k);
            }
        }
    }
}

/// A desktop that is sent the list of another one's sinks knows exactly those
/// sinks of it, whatever it knew before.
pub proof fn law_listed_sinks_are_known(
    sinks: Map<Seq<char>, Map<Seq<char>, SinkState>>,
    device: Seq<char>,
    local: Map<Seq<char>, SinkState>,
    list: Seq<SinkState>,
)
    requires
        lists_sinks(list, local),
        !local.contains_key(Seq::empty()),
    ensures
        controller_after(sinks, device, list_packet(list)) == sinks.insert(device, local),
{
    lemma_list_field(list);
    assert forall|i: int| 0 <= i < list.len() implies (#[trigger] list[i]).name@.len() > 0 by {
        assert(local.contains_key(list[i].name@));
        if list[i].name@.len() == 0 {
            assert(list[i].name@ =~= Seq::<char>::empty());
        }
    }
    assert forall|i: int, j: int|
        #![trigger list[i], list[j]]
        0 <= i < j < list.len() implies list[i].name@ != list[j].name@ by {
        crate::text::lemma_lex_irreflexive(list[i].name@);
    }
    lemma_described_sinks(list);
    let m = described_sinks(list.map_values(|s: SinkState| Some(s)));
    assert forall|k: Seq<char>| #[trigger] m.contains_key(k) implies local.contains_key(k) && m[k]
        == local[k] by {
        let i = choose|i: int| 0 <= i < list.len() && (#[trigger] list[i]).name@ == k;
        assert(m[list[i].name@] == list[i]);
    }
    assert forall|k: Seq<char>| #[trigger] local.contains_key(k) implies m.contains_key(k) by {
        let i = choose|i: int| 0 <= i < list.len() && (#[trigger] list[i]).name@ == k;
        assert(m.contains_key(list[i].name@));
    }
    assert(m =~= local);
}

proof fn lemma_after_all_joined(
    sinks: Map<Seq<char>, Map<Seq<char>, SinkState>>,
    device: Seq<char>,
    a: Seq<PacketView>,
    b: Seq<PacketView>,
)
    ensures
        controller_after_all(sinks, device, a + b) == controller_after_all(
            controller_after_all(sinks, device, a),
            device,
            b,
        ),
    decreases b.len(),
{
    if b.len() == 0 {
        assert(a + b =~= a);
    } else {
        lemma_after_all_joined(sinks, device, a, b.drop_last());
        assert((a + b).drop_last() =~= a + b.drop_last());
        assert((a + b).last() == b.last());
    }
}

/// The fields of a packet that tells one thing of a sink.
proof fn lemma_delta_fields(name: Seq<char>, key: Seq<char>, value: ValueView)
    requires
        key == "volume"@ || key == "muted"@ || key == "enabled"@,
    ensures
        delta_packet(name, key, value).list_field("sinkList"@) is None,
        delta_packet(name, key, value).text_field("name"@) == Some(name),
        field(delta_packet(name, key, value).body, key) == Some(value),
        key != "volume"@ ==> field(delta_packet(name, key, value).body, "volume"@) is None,
        key != "muted"@ ==> field(delta_packet(name, key, value).body, "muted"@) is None,
        key != "enabled"@ ==> field(delta_packet(name, key, value).body, "enabled"@) is None,
{
    reveal_strlit("sinkList");
    reveal_strlit("name");
    reveal_strlit("volume");
    reveal_strlit("muted");
    reveal_strlit("enabled");
    assert("sinkList"@.len() == 8 && "name"@.len() == 4 && "volume"@.len() == 6);
    assert("muted"@.len() == 5 && "enabled"@.len() == 7);
    let body = delta_packet(name, key, value).body;
    assert(body[0] == ("name"@, ValueView::Text(name)));
    assert(body.drop_first() =~= seq![(key, value)]);
    assert(body.drop_first().drop_first() =~= Seq::<(Seq<char>, ValueView)>::empty());
    assert forall|k: Seq<char>| k != "name"@ && k != key implies #[trigger] field(body, k) is None by {
        assert(field(body, k) == field(body.drop_first(), k));
        assert(body.drop_first()[0].0 == key);
        assert(field(body.drop_first(), k) == field(body.drop_first().drop_first(), k));
    }
    assert(field(body, key) == field(body.drop_first(), key));
    assert(body.drop_first()[0] == (key, value));
    assert(field(body, "sinkList"@) is None);
}

/// Whether a desktop's copy of a sink agrees with the sink in what is told of
/// changes.
pub open spec fn current(copy: SinkState, sink: SinkState) -> bool {
    copy.volume == sink.volume && copy.muted == sink.muted && copy.enabled == sink.enabled
}

/// Whether everything that is told of changes is known of a sink.
pub open spec fn complete(s: LocalSinkState) -> bool {
    s.volume is Some && s.muted is Some && s.enabled is Some
}

/// Telling what changed of one sink makes the copy of it current, and leaves
/// everything else as it was.
proof fn lemma_sink_deltas(
    sinks: Map<Seq<char>, Map<Seq<char>, SinkState>>,
    device: Seq<char>,
    prev: SinkState,
    s: LocalSinkState,
)
    requires
        sinks.contains_key(device),
        sinks[device].contains_key(s.name@),
        current(sinks[device][s.name@], prev),
        complete(s),
    ensures
        ({
            let after = controller_after_all(sinks, device, sink_deltas(prev, s));
            let copy = sinks[device][s.name@];
            after == sinks.insert(
                device,
                sinks[device].insert(
                    s.name@,
                    SinkState { volume: s.volume, muted: s.muted, enabled: s.enabled, ..copy },
                ),
            )
        }),
{
    let name = s.name@;
    let copy = sinks[device][name];
    let vol = if prev.volume != s.volume {
        seq![delta_packet(name, "volume"@, int_value(s.volume))]
    } else {
        seq![]
    };
    let mut_ = if prev.muted != s.muted {
        seq![delta_packet(name, "muted"@, bool_value(s.muted))]
    } else {
        seq![]
    };
    let en = if prev.enabled != s.enabled {
        seq![delta_packet(name, "enabled"@, bool_value(s.enabled))]
    } else {
        seq![]
    };
    reveal_strlit("volume");
    reveal_strlit("muted");
    reveal_strlit("enabled");
    assert("volume"@.len() == 6 && "muted"@.len() == 5 && "enabled"@.len() == 7);
    lemma_delta_fields(name, "volume"@, int_value(s.volume));
    lemma_delta_fields(name, "muted"@, bool_value(s.muted));
    lemma_delta_fields(name, "enabled"@, bool_value(s.enabled));
    lemma_after_all_joined(sinks, device, vol + mut_, en);
    lemma_after_all_joined(sinks, device, vol, mut_);
    reveal_with_fuel(controller_after_all, 2);
    let a = controller_after_all(sinks, device, vol);
    let copy1 = SinkState { volume: s.volume, ..copy };
    if prev.volume != s.volume {
        let p = delta_packet(name, "volume"@, int_value(s.volume));
        assert(vol.drop_last() =~= Seq::<PacketView>::empty());
        assert(a == controller_after(sinks, device, p));
        assert(updated(copy, p) == copy1);
    }
    assert(a =~= sinks.insert(device, sinks[device].insert(name, copy1))) by {
        assert(sinks[device].insert(name, copy) =~= sinks[device]);
    }
    let b = controller_after_all(a, device, mut_);
    let copy2 = SinkState { muted: s.muted, ..copy1 };
    if prev.muted != s.muted {
        let p = delta_packet(name, "muted"@, bool_value(s.muted));
        assert(mut_.drop_last() =~= Seq::<PacketView>::empty());
        assert(b == controller_after(a, device, p));
        assert(updated(copy1, p) == copy2);
    }
    assert(b =~= sinks.insert(device, sinks[device].insert(name, copy2))) by {
        assert(sinks[device].insert(name, copy1).insert(name, copy2) =~= sinks[device].insert(
            name,
            copy2,
        ));
    }
    let c = controller_after_all(b, device, en);
    let copy3 = SinkState { enabled: s.enabled, ..copy2 };
    if prev.enabled != s.enabled {
        let p = delta_packet(name, "enabled"@, bool_value(s.enabled));
        assert(en.drop_last() =~= Seq::<PacketView>::empty());
        assert(c == controller_after(b, device, p));
        assert(updated(copy2, p) == copy3);
    }
    assert(c =~= sinks.insert(device, sinks[device].insert(name, copy3))) by {
        assert(sinks[device].insert(name, copy2).insert(name, copy3) =~= sinks[device].insert(
            name,
            copy3,
        ));
    }
    assert(sink_deltas(prev, s) =~= vol + mut_ + en);
}

/// A desktop whose copy of another one's sinks is current stays current as it
/// is told of changes: of every listed sink that it knew it then has the new
/// volume, mute and default, and nothing else of its copy changes.
pub proof fn law_deltas_keep_a_copy_current(
    sinks: Map<Seq<char>, Map<Seq<char>, SinkState>>,
    device: Seq<char>,
    old: Map<Seq<char>, SinkState>,
    list: Seq<LocalSinkState>,
)
    requires
        sinks.contains_key(device),
        sinks[device].dom() == old.dom(),
        forall|k: Seq<char>| #[trigger] old.contains_key(k) ==> current(sinks[device][k], old[k]),
        forall|i: int| 0 <= i < list.len() ==> complete(#[trigger] list[i]),
        forall|i: int, j: int|
            #![trigger list[i], list[j]]
            0 <= i < j < list.len() ==> list[i].name@ != list[j].name@,
    ensures
        ({
            let after = controller_after_all(sinks, device, deltas(old, list));
            &&& after == sinks.insert(device, after[device])
            &&& after[device].dom() == old.dom()
            &&& forall|i: int|
                #![trigger list[i]]
                0 <= i < list.len() && old.contains_key(list[i].name@) ==> current(
                    after[device][list[i].name@],
                    described(list[i]),
                )
            &&& forall|k: Seq<char>| #[trigger]
                old.contains_key(k) && !sink_names(list).contains(k) ==> after[device][k]
                    == sinks[device][k]
        }),
    decreases list.len(),
{
    let after = controller_after_all(sinks, device, deltas(old, list));
    if list.len() == 0 {
        assert(after =~= sinks.insert(device, after[device]));
    } else {
        let rest = list.drop_last();
        let s = list.last();
        assert(s == list[list.len() - 1]);
        assert forall|i: int| 0 <= i < rest.len() implies complete(#[trigger] rest[i]) by {
            assert(rest[i] == list[i]);
        }
        assert forall|i: int, j: int|
            #![trigger rest[i], rest[j]]
            0 <= i < j < rest.len() implies rest[i].name@ != rest[j].name@ by {
            assert(list[i].name@ != list[j].name@);
        }
        law_deltas_keep_a_copy_current(sinks, device, old, rest);
        let before = controller_after_all(sinks, device, deltas(old, rest));
        assert(!sink_names(rest).contains(s.name@)) by {
            if sink_names(rest).contains(s.name@) {
                let i = choose|i: int| 0 <= i < rest.len() && sink_names(rest)[i] == s.name@;
                assert(list[i].name@ != list[list.len() - 1].name@);
            }
        }
        if old.contains_key(s.name@) {
            assert(before[device][s.name@] == sinks[device][s.name@]);
            assert(before[device].dom().contains(s.name@));
            lemma_sink_deltas(before, device, old[s.name@], s);
            lemma_after_all_joined(
                sinks,
                device,
                deltas(old, rest),
                sink_deltas(old[s.name@], s),
            );
        } else {
            assert(deltas(old, list) =~= deltas(old, rest));
        }
        assert(after =~= sinks.insert(device, after[device]));
        assert(after[device].dom() =~= old.dom());
        assert forall|i: int|
            #![trigger list[i]]
            0 <= i < list.len() && old.contains_key(list[i].name@) implies current(
            after[device][list[i].name@],
            described(list[i]),
        ) by {
            if i < rest.len() {
                assert(rest[i] == list[i]);
                assert(list[i].name@ != list[list.len() - 1].name@);
            }
        }
        assert forall|k: Seq<char>| #[trigger]
            old.contains_key(k) && !sink_names(list).contains(k) implies after[device][k]
            == sinks[device][k] by {
            assert(sink_names(list)[list.len() - 1] == s.name@);
            if sink_names(rest).contains(k) {
                let i = choose|i: int| 0 <= i < rest.len() && sink_names(rest)[i] == k;
                assert(sink_names(list)[i] == k);
            }
        }
    }
}

/// A change of a sink that was not listed changes nothing, and neither does a
/// packet that names no sink.
pub proof fn law_unknown_sinks_are_ignored(
    sinks: Map<Seq<char>, Map<Seq<char>, SinkState>>,
    device: Seq<char>,
    packet: PacketView,
)
    requires
        packet.list_field("sinkList"@) is None,
        packet.text_field("name"@) matches Some(name) ==> !sinks.contains_key(device)
            || !sinks[device].contains_key(name),
    ensures
        controller_after(sinks, device, packet) == sinks,
{
}

/// What one desktop says of its sinks changes nothing of what is known of
/// another's.
pub proof fn law_desktops_are_independent(
    sinks: Map<Seq<char>, Map<Seq<char>, SinkState>>,
    device: Seq<char>,
    other: Seq<char>,
    packet: PacketView,
)
    requires
        device != other,
    ensures
        known_desktop(controller_after(sinks, device, packet), other) == known_desktop(
            sinks,
            other,
        ),
{
}

/// What is known of a desktop's sinks.
pub open spec fn known_desktop(
    sinks: Map<Seq<char>, Map<Seq<char>, SinkState>>,
    device: Seq<char>,
) -> Option<Map<Seq<char>, SinkState>> {
    if sinks.contains_key(device) {
        Some(sinks[device])
    } else {
        None
    }
}

/// A request for a volume sets it first, and unmutes the sink next; a failure to
/// unmute drops nothing of the request.
pub proof fn law_volume_request_unmutes(packet: PacketView, name: Seq<char>, volume: i64)
    requires
        packet.bool_field("requestSinks"@) != Some(true),
        packet.text_field("name"@) == Some(name),
        packet.int_field("volume"@) == Some(volume),
    ensures
        provider_request(true, packet) matches RequestView::Control(ops) && ops.len() >= 2
            && ops[0] == (PlannedView { op: OpView::SetVolume { name, volume }, required: true })
            && ops[1] == (PlannedView {
            op: OpView::SetMuted { name, muted: false },
            required: false,
        }),
{
    let ops = requested_ops(name, packet);
    assert(ops.len() >= 2);
}

/// This desktop says that it offers sinks, and takes requests for them, exactly
/// where its sound server is available; without one it does nothing at all on a
/// request.
pub proof fn law_capabilities_are_honest(available: bool, packet: PacketView)
    ensures
        taken(available).contains(REQUEST_PACKET@) == available,
        sent(available).contains(STATE_PACKET@) == available,
        taken(available).contains(STATE_PACKET@),
        sent(available).contains(REQUEST_PACKET@),
        provider_request(false, packet) is Ignore,
{
    reveal_strlit("kdeconnect.systemvolume");
    reveal_strlit("kdeconnect.systemvolume.request");
    assert(taken(available)[0] == STATE_PACKET@);
    assert(sent(available)[0] == REQUEST_PACKET@);
    assert(STATE_PACKET@.len() != REQUEST_PACKET@.len());
    if available {
        assert(taken(available)[1] == REQUEST_PACKET@);
        assert(sent(available)[1] == STATE_PACKET@);
    }
}

/// After a list of all sinks of this desktop exactly those of the list are left,
/// and what the list says of a sink holds; what it leaves out of one that it
/// names once stays as it was.
pub proof fn law_applied_list_is_all_there_is(
    sinks: Map<Seq<char>, SinkState>,
    list: Seq<LocalSinkState>,
    i: int,
)
    requires
        named(sinks),
        0 <= i < list.len(),
        forall|j: int| 0 <= j < list.len() && j != i ==> (#[trigger] list[j]).name@ != list[i].name@,
    ensures
        applied(sinks, list).dom() == sink_names(list).to_set(),
        applied(sinks, list)[list[i].name@] == merged(known_sink(sinks, list[i].name@), list[i]),
{
    lemma_applied(sinks, list);
    let kept = sinks.restrict(sink_names(list).to_set());
    assert(sink_names(list)[i] == list[i].name@);
    assert(sink_names(list).to_set().contains(list[i].name@));
    assert(known_sink(kept, list[i].name@) == known_sink(sinks, list[i].name@));
    lemma_refreshed_once(kept, list, i);
}

proof fn lemma_refreshed_once(
    sinks: Map<Seq<char>, SinkState>,
    list: Seq<LocalSinkState>,
    i: int,
)
    requires
        0 <= i < list.len(),
        forall|j: int| 0 <= j < list.len() && j != i ==> (#[trigger] list[j]).name@ != list[i].name@,
    ensures
        refreshed(sinks, list).contains_key(list[i].name@),
        refreshed(sinks, list)[list[i].name@] == merged(known_sink(sinks, list[i].name@), list[i]),
    decreases list.len(),
{
    let rest = list.drop_last();
    let last = list.len() - 1;
    assert(list.last() == list[last]);
    if i < last {
        assert(rest[i] == list[i]);
        lemma_refreshed_once(sinks, rest, i);
    } else {
        lemma_refreshed_others(sinks, rest, list[i].name@);
    }
}

proof fn lemma_refreshed_others(
    sinks: Map<Seq<char>, SinkState>,
    list: Seq<LocalSinkState>,
    name: Seq<char>,
)
    requires
        forall|j: int| 0 <= j < list.len() ==> (#[trigger] list[j]).name@ != name,
    ensures
        known_sink(refreshed(sinks, list), name) == known_sink(sinks, name),
    decreases list.len(),
{
    if list.len() > 0 {
        let rest = list.drop_last();
        assert(list.last() == list[list.len() - 1]);
        lemma_refreshed_others(sinks, rest, name);
    }
}

/// Every connected device is told everything once: after those that were not
/// told yet have been, nobody is left, and a device that is not connected counts
/// as not told.
pub proof fn law_peers_are_told_once(
    connected: Seq<Seq<char>>,
    synced: Seq<Seq<char>>,
    gone: Seq<char>,
)
    requires
        !connected.contains(gone),
    ensures
        selected(
            connected,
            selected(synced, connected, true) + selected(connected, synced, false),
            false,
        ) == Seq::<Seq<char>>::empty(),
        !(selected(synced, connected, true) + selected(connected, synced, false)).contains(gone),
{
    let kept = selected(synced, connected, true);
    let fresh = selected(connected, synced, false);
    let now = kept + fresh;
    let left = selected(connected, now, false);
    lemma_selected(synced, connected, true);
    lemma_selected(connected, synced, false);
    lemma_selected(connected, now, false);
    lemma_joined(kept, fresh);
    if left.len() > 0 {
        assert(left.contains(left[0]));
        assert(connected.contains(left[0]));
        assert(!now.contains(left[0]));
    }
    assert(left =~= Seq::<Seq<char>>::empty());
}

proof fn lemma_joined(a: Seq<Seq<char>>, b: Seq<Seq<char>>)
    ensures
        forall|d: Seq<char>| #[trigger] (a + b).contains(d) <==> a.contains(d) || b.contains(d),
{
    assert forall|d: Seq<char>| #[trigger] (a + b).contains(d) <==> a.contains(d) || b.contains(
        d,
    ) by {
        if a.contains(d) {
            let i = choose|i: int| 0 <= i < a.len() && a[i] == d;
            assert((a + b)[i] == d);
        }
        if b.contains(d) {
            let i = choose|i: int| 0 <= i < b.len() && b[i] == d;
            assert((a + b)[a.len() + i] == d);
        }
    }
}

pub proof fn lemma_selected(list: Seq<Seq<char>>, other: Seq<Seq<char>>, present: bool)
    ensures
        forall|d: Seq<char>| #[trigger]
            selected(list, other, present).contains(d) <==> list.contains(d) && other.contains(d)
                == present,
    decreases list.len(),
{
    reveal(Seq::filter);
    if list.len() > 0 {
        let rest = list.drop_last();
        lemma_selected(rest, other, present);
        let all = selected(list, other, present);
        let some = selected(rest, other, present);
        assert forall|d: Seq<char>| #[trigger] all.contains(d) <==> list.contains(d)
            && other.contains(d) == present by {
            assert(rest.push(list.last()) =~= list);
            lemma_joined(rest, seq![list.last()]);
            assert(rest + seq![list.last()] =~= list);
            lemma_joined(some, seq![list.last()]);
            assert(some.push(list.last()) =~= some + seq![list.last()]);
            assert(seq![list.last()].contains(d) <==> d == list.last()) by {
                assert(seq![list.last()][0] == list.last());
            }
            assert(all == if other.contains(list.last()) == present {
                some.push(list.last())
            } else {
                some
            });
        }
    }
}

/// Waits before watching again never get shorter from one failure to the next,
/// and stay between the shortest and the longest one.
pub proof fn law_waits_are_bounded(backoff_ms: u64)
    requires
        INITIAL_BACKOFF_MS <= backoff_ms <= MAX_BACKOFF_MS,
    ensures
        backoff_ms <= doubled(backoff_ms) <= MAX_BACKOFF_MS,
{
}

} // verus!
