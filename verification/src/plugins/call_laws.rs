//! What calls of the plugins come to, from what goes in to what comes out.

use vstd::prelude::*;

use crate::error::{Error, ErrorView};
use crate::packet::{field, Packet, SinkState, ValueView};
use crate::plugins::systemvolume::backend::{
    default_sink_name, list_sinks, mark_default, pactl_args, parse_subscribe_line, quoted_field,
    BackendOp, LocalSinkState, MockBackend, PactlSink, SubscribeEvent,
};
use crate::plugins::systemvolume::plugin::{
    request_sinks_packet, sink_list_packet, ProviderRequest, SystemVolumePlugin, VolumeAction,
};
use crate::plugins::systemvolume::supervisor::{
    build_deltas, handle_subscribe_event, sync_peers, Push, Supervisor, WatchAction, WatchEvent,
};
use crate::plugins::telephony::{is_cancel_value, mask_number, TelephonyInfo, TelephonyPlugin};
use crate::table::{texts, Table};
use crate::text::{signed_decimal, trim};

verus! {

/// The call of a mute request has exactly the arguments `set-sink-mute`, the
/// sink's name and a flag, which is the text 1 if and only if the request is to
/// mute, and the text 0 otherwise.
pub proof fn law_mute_requests_call_with_their_flag(
    name: String,
    muted: bool,
    r: Option<Vec<String>>,
)
    requires
        call_ensures(pactl_args, (&BackendOp::SetMuted { name, muted },), r),
    ensures
        r matches Some(args) && {
            &&& args@.len() == 3
            &&& args@[0]@ == "set-sink-mute"@
            &&& args@[1]@ == name@
            &&& args@[2]@ == "1"@ <==> muted
            &&& args@[2]@ == "0"@ <==> !muted
        },
{
    crate::plugins::systemvolume::backend::law_mute_flag_says_whether_to_mute(name@, muted);
    if let Some(args) = r {
        assert(texts(args@).len() == args@.len());
        assert(texts(args@)[0] == args@[0]@);
        assert(texts(args@)[1] == args@[1]@);
        assert(texts(args@)[2] == args@[2]@);
    }
}

/// The call of a volume request has exactly the arguments `set-sink-volume`, the
/// sink's name and the volume in decimal; a default is set by `set-default-sink`
/// and the sink's name, and never unset.
pub proof fn law_other_requests_call_with_sink_and_value(
    name: String,
    volume: i64,
    enabled: bool,
    r: Option<Vec<String>>,
    s: Option<Vec<String>>,
)
    requires
        call_ensures(pactl_args, (&BackendOp::SetVolume { name, volume },), r),
        call_ensures(pactl_args, (&BackendOp::SetDefault { name, enabled },), s),
    ensures
        r matches Some(args) && {
            &&& args@.len() == 3
            &&& args@[0]@ == "set-sink-volume"@
            &&& args@[1]@ == name@
            &&& args@[2]@ == signed_decimal(volume as int)
        },
        s is Some <==> enabled,
        s matches Some(args) ==> {
            &&& args@.len() == 2
            &&& args@[0]@ == "set-default-sink"@
            &&& args@[1]@ == name@
        },
{
    if let Some(args) = r {
        assert(texts(args@).len() == args@.len());
        assert(texts(args@)[0] == args@[0]@);
        assert(texts(args@)[1] == args@[1]@);
        assert(texts(args@)[2] == args@[2]@);
    }
    if let Some(args) = s {
        assert(texts(args@).len() == args@.len());
        assert(texts(args@)[0] == args@[0]@);
        assert(texts(args@)[1] == args@[1]@);
    }
}

/// A call that is reported and not over is the last one that is listed of its
/// device; a report that is over, and one that is none, changes nothing.
pub proof fn law_reported_calls_are_listed(
    plugin: &mut TelephonyPlugin,
    id: &str,
    packet: &Packet,
    r: Result<TelephonyInfo, Error>,
    later: &TelephonyPlugin,
    calls: Vec<TelephonyInfo>,
)
    requires
        call_ensures(TelephonyPlugin::handle_packet, (plugin, id, packet), r),
        later@ == final(plugin)@,
        call_ensures(TelephonyPlugin::get_calls, (later, id), calls),
    ensures
        r matches Ok(info) ==> field(packet@.body, "event"@) == Some(ValueView::Text(info.event@)),
        r matches Ok(info) ==> (!info.is_cancel ==> 0 < calls@.len() <= 100 && calls@.last()@
            == info@),
        r matches Ok(info) ==> (info.is_cancel ==> final(plugin)@ == old(plugin)@),
        r matches Err(e) ==> final(plugin)@ == old(plugin)@ && e@ is DeserializationError,
{
    if let Ok(info) = r {
        if !info.is_cancel {
            let views = crate::plugins::telephony::call_views(calls@);
            assert(views.len() == calls@.len());
            assert(views.last() == calls@.last()@);
        }
    }
}

/// A device that left has no calls, and the others keep theirs.
pub proof fn law_calls_leave_with_their_device(
    plugin: &mut TelephonyPlugin,
    id: &str,
    later: &TelephonyPlugin,
    calls: Vec<TelephonyInfo>,
    other: Seq<char>,
)
    requires
        call_ensures(TelephonyPlugin::on_disconnected, (plugin, id), ()),
        later@ == final(plugin)@,
        call_ensures(TelephonyPlugin::get_calls, (later, id), calls),
    ensures
        calls@.len() == 0,
        other != id@ ==> final(plugin)@.contains_key(other) == old(plugin)@.contains_key(other)
            && final(plugin)@[other] == old(plugin)@[other],
{
    assert(crate::plugins::telephony::call_views(calls@).len() == calls@.len());
}

/// A number shows at most its last four characters, after four asterisks.
pub proof fn law_masked_numbers_show_their_end(number: &str, r: String, i: int)
    requires
        call_ensures(mask_number, (number,), r),
        0 <= i < 4,
    ensures
        number@.len() <= 4 ==> r@ == number@,
        number@.len() > 4 ==> r@.len() == 8 && r@[i] == '*' && r@[4 + i] == number@[number@.len()
            - 4 + i],
{
    crate::plugins::telephony::law_numbers_show_their_last_four(number@, i);
}

/// A ringing call is muted by a packet that says so and nothing else.
pub proof fn law_mute_packets_say_mute(r: Packet)
    requires
        call_ensures(TelephonyPlugin::mute_request_packet, (), r),
    ensures
        r.packet_type@ == "kdeconnect.telephony.request_mute"@,
        r@.body.len() == 1,
        r@.body[0] == ("action"@, ValueView::Text("mute"@)),
{
}

/// A value ends a call if it is `true`, as a boolean or as text in any case.
pub proof fn law_true_values_end_calls(value: &crate::packet::Value, r: bool)
    requires
        call_ensures(is_cancel_value, (value,), r),
    ensures
        r <==> match value@ {
            ValueView::Bool(b) => b,
            ValueView::Text(t) => t.len() == 4 && (t[0] == 't' || t[0] == 'T') && (t[1] == 'r'
                || t[1] == 'R') && (t[2] == 'u' || t[2] == 'U') && (t[3] == 'e' || t[3] == 'E'),
            _ => false,
        },
{
    crate::plugins::telephony::law_calls_end_with_a_true_value(value@);
}

/// A packet of the state of sinks is kept and asks for nothing; a request for the
/// sinks is answered with them, and any other request makes the changes of the
/// sink that it names, where there is a sound server; nothing else does anything.
pub proof fn law_volume_packets_are_served_by_type(
    plugin: &mut SystemVolumePlugin,
    id: &str,
    packet: &Packet,
    action: VolumeAction,
)
    requires
        call_ensures(SystemVolumePlugin::handle_packet, (plugin, id, packet), action),
    ensures
        ({
            let state = packet.packet_type@ == "kdeconnect.systemvolume"@;
            let request = packet.packet_type@ == "kdeconnect.systemvolume.request"@;
            let asks = field(packet@.body, "requestSinks"@) == Some(ValueView::Bool(true));
            let named = field(packet@.body, "name"@) matches Some(v) && v is Text;
            let server = old(plugin)@.has_backend;
            &&& action is ListSinks <==> request && server && asks
            &&& action is Control <==> request && server && !asks && named
            &&& action is Nothing <==> !(request && server && (asks || named))
            &&& !state ==> final(plugin)@ == old(plugin)@
            &&& state ==> final(plugin)@.local_sinks == old(plugin)@.local_sinks
                && final(plugin)@.default_sink == old(plugin)@.default_sink
                && final(plugin)@.has_backend == old(plugin)@.has_backend
        }),
{
    reveal_strlit("kdeconnect.systemvolume");
    reveal_strlit("kdeconnect.systemvolume.request");
    assert("kdeconnect.systemvolume"@.len() != "kdeconnect.systemvolume.request"@.len());
}

/// What another desktop lists is what is known of it: a sink is known as its last
/// entry of a name says.
pub proof fn law_listed_sinks_are_kept(
    plugin: &mut SystemVolumePlugin,
    id: &str,
    packet: &Packet,
    list: Seq<Option<SinkState>>,
    i: int,
    later: &SystemVolumePlugin,
    name: &str,
    sink: Option<SinkState>,
)
    requires
        call_ensures(SystemVolumePlugin::handle_controller_state, (plugin, id, packet), ()),
        field(packet@.body, "sinkList"@) == Some(ValueView::List(list)),
        later@ == final(plugin)@,
        call_ensures(SystemVolumePlugin::get_sink, (later, id, name), sink),
        name@.len() > 0,
        -1 <= i < list.len(),
        forall|j: int| i < j < list.len() ==> ((#[trigger] list[j]) matches Some(s) ==> s.name@
            != name@),
        0 <= i ==> (list[i] matches Some(s) && s.name@ == name@),
    ensures
        i < 0 ==> sink is None,
        0 <= i ==> sink == list[i],
{
    crate::plugins::systemvolume::state_laws::law_last_description_of_a_name_counts(
        list,
        name@,
        i,
    );
}

/// A change that another desktop tells of a known sink holds from then on.
pub proof fn law_told_changes_are_kept(
    plugin: &mut SystemVolumePlugin,
    id: &str,
    packet: &Packet,
    before: &SystemVolumePlugin,
    name: &str,
    was: Option<SinkState>,
    later: &SystemVolumePlugin,
    now: Option<SinkState>,
)
    requires
        call_ensures(SystemVolumePlugin::handle_controller_state, (plugin, id, packet), ()),
        !(field(packet@.body, "sinkList"@) matches Some(v) && v is List),
        field(packet@.body, "name"@) == Some(ValueView::Text(name@)),
        before@ == old(plugin)@,
        call_ensures(SystemVolumePlugin::get_sink, (before, id, name), was),
        later@ == final(plugin)@,
        call_ensures(SystemVolumePlugin::get_sink, (later, id, name), now),
    ensures
        was is None ==> now is None && final(plugin)@ == old(plugin)@,
        was matches Some(s) ==> (now matches Some(t) && {
            &&& t.volume == (match field(packet@.body, "volume"@) {
                Some(ValueView::Int(v)) => Some(v),
                _ => s.volume,
            })
            &&& t.muted == (match field(packet@.body, "muted"@) {
                Some(ValueView::Bool(b)) => Some(b),
                _ => s.muted,
            })
            &&& t.enabled == (match field(packet@.body, "enabled"@) {
                Some(ValueView::Bool(b)) => Some(b),
                _ => s.enabled,
            })
            &&& t.name == s.name && t.description == s.description && t.max_volume == s.max_volume
        }),
{
}

/// The changes of a request are asked for one after the other; where one fails
/// that is required, the rest is dropped.
pub proof fn law_changes_are_asked_for_in_order(
    request: &mut ProviderRequest,
    done: bool,
    later: &ProviderRequest,
    next: Option<&BackendOp>,
)
    requires
        old(request).remaining().len() > 0,
        call_ensures(ProviderRequest::op_finished, (request, done), ()),
        later.remaining() == final(request).remaining(),
        call_ensures(ProviderRequest::next_op, (later,), next),
    ensures
        !done && old(request).remaining()[0].required ==> next is None,
        done || !old(request).remaining()[0].required ==> (next is Some
            <==> old(request).remaining().len() > 1),
        done || !old(request).remaining()[0].required ==> (next matches Some(op) ==> op@
            == old(request).remaining()[1].op),
{
}

/// The volume plugin takes the state of sinks and sends requests in any case, and
/// takes requests and sends the state where its sound server is available.
pub proof fn law_volume_capabilities_follow_the_server(
    plugin: &SystemVolumePlugin,
    incoming: Vec<String>,
    outgoing: Vec<String>,
    available: bool,
)
    requires
        call_ensures(SystemVolumePlugin::incoming_capabilities, (plugin,), incoming),
        call_ensures(SystemVolumePlugin::outgoing_capabilities, (plugin,), outgoing),
        call_ensures(SystemVolumePlugin::is_backend_available, (plugin,), available),
    ensures
        texts(incoming@) == (if available {
            seq!["kdeconnect.systemvolume"@, "kdeconnect.systemvolume.request"@]
        } else {
            seq!["kdeconnect.systemvolume"@]
        }),
        texts(outgoing@) == (if available {
            seq!["kdeconnect.systemvolume.request"@, "kdeconnect.systemvolume"@]
        } else {
            seq!["kdeconnect.systemvolume.request"@]
        }),
{
}

/// The sound server is watched once there are one and links to tell of changes,
/// and only once.
pub proof fn law_watcher_starts_once(plugin: &SystemVolumePlugin, r: bool)
    requires
        call_ensures(SystemVolumePlugin::try_start_watcher, (plugin,), r),
    ensures
        r <==> plugin@.has_backend && plugin@.has_connections && !plugin@.watcher_started,
{
}

/// Packets about all sinks hold them in order, and a request for sinks asks for
/// them.
pub proof fn law_sink_packets_hold_all_sinks(
    sinks: &Vec<LocalSinkState>,
    list: Packet,
    request: Packet,
    i: int,
)
    requires
        call_ensures(sink_list_packet, (sinks,), list),
        call_ensures(request_sinks_packet, (), request),
        0 <= i < sinks@.len(),
    ensures
        list.packet_type@ == "kdeconnect.systemvolume"@,
        list@.body.len() == 1,
        list@.body[0].0 == "sinkList"@,
        list@.body[0].1 matches ValueView::List(l) && l.len() == sinks@.len() && (l[i]
            matches Some(s) && s.name == sinks@[i].name && s.volume == sinks@[i].volume && s.muted
            == sinks@[i].muted && s.enabled == sinks@[i].enabled && s.max_volume
            == sinks@[i].max_volume && s.description == sinks@[i].description),
        request.packet_type@ == "kdeconnect.systemvolume.request"@,
        request@.body.len() == 1,
        request@.body[0] == ("requestSinks"@, ValueView::Bool(true)),
{
}

/// A sink of the sound server is listed with its loudest channel, the given
/// ceiling, and whether it is the default.
pub proof fn law_server_sinks_are_listed(
    sinks: &Vec<PactlSink>,
    max_volume: i64,
    default: Option<&str>,
    list: Vec<LocalSinkState>,
    i: int,
    k: int,
)
    requires
        call_ensures(list_sinks, (sinks, max_volume, default), list),
        0 <= i < sinks@.len(),
    ensures
        list@.len() == sinks@.len(),
        list@[i].name == sinks@[i].name,
        list@[i].description == sinks@[i].description,
        list@[i].max_volume == Some(max_volume),
        list@[i].muted == sinks@[i].mute,
        default matches Some(d) ==> list@[i].enabled == Some(sinks@[i].name@ == d@),
        default is None ==> list@[i].enabled is None,
        list@[i].volume is Some,
        sinks@[i].volume is None ==> list@[i].volume == Some(0i64),
        sinks@[i].volume matches Some(c) ==> (0 <= k < c@.len() && c@[k] is Some
            ==> list@[i].volume->0 >= c@[k]->0 && c@.contains(list@[i].volume)),
{
    assert(crate::plugins::systemvolume::backend::is_state_of(
        list@[i],
        sinks@[i],
        max_volume,
        crate::text::maybe_text(default),
    ));
    if let Some(c) = sinks@[i].volume {
        crate::plugins::systemvolume::state_laws::law_loudest_channel_is_loudest(c@);
    }
}

/// The name of the default is what the sound server says, without the white space
/// around it, and there is none where nothing is left.
pub proof fn law_default_is_what_the_server_says(
    output: &str,
    name: Option<String>,
    states: &mut Vec<LocalSinkState>,
    default: &str,
    i: int,
)
    requires
        call_ensures(default_sink_name, (output,), name),
        call_ensures(mark_default, (states, Some(default)), ()),
        0 <= i < old(states)@.len(),
    ensures
        name matches Some(n) ==> n@ == trim(output@),
        name is Some <==> trim(output@).len() > 0,
        final(states)@.len() == old(states)@.len(),
        final(states)@[i].enabled == Some(old(states)@[i].name@ == default@),
        final(states)@[i].name == old(states)@[i].name,
        final(states)@[i].volume == old(states)@[i].volume,
        final(states)@[i].muted == old(states)@[i].muted,
{
}

/// What stands between the first two quotes is taken, with what follows.
pub proof fn law_quoted_fields_stand_between_quotes(
    s: &str,
    name: Seq<char>,
    rest: Seq<char>,
    r: Option<(String, String)>,
)
    requires
        call_ensures(quoted_field, (s,), r),
        s@ == seq!['\''] + name + seq!['\''] + rest,
        forall|i: int| 0 <= i < name.len() ==> name[i] != '\'',
    ensures
        r matches Some(q) && q.0@ == name && q.1@ == rest,
{
    crate::plugins::systemvolume::state_laws::law_quoted_text_stands_between_quotes(name, rest);
}

/// A line about a sink that came, went or changed is told as such, and makes the
/// sinks be listed; any other word about a sink makes nothing be listed.
pub proof fn law_sink_lines_are_told(
    text: &str,
    event: Seq<char>,
    number: Seq<char>,
    r: Option<SubscribeEvent>,
    e: SubscribeEvent,
    listed: bool,
)
    requires
        call_ensures(parse_subscribe_line, (text,), r),
        text@ == "Event '"@ + event + "' on "@ + ("sink #"@ + number),
        forall|i: int| 0 <= i < event.len() ==> event[i] != '\'',
        number.len() > 0,
        forall|i: int| 0 <= i < number.len() ==> '0' <= #[trigger] number[i] <= '9',
        r == Some(e),
        call_ensures(handle_subscribe_event, (&e,), listed),
    ensures
        event == "new"@ <==> e is SinkAdded,
        event == "remove"@ <==> e is SinkRemoved,
        event == "change"@ <==> e is SinkChanged,
        listed <==> event == "new"@ || event == "remove"@ || event == "change"@,
{
    reveal_strlit("sink #");
    let on = "sink #"@ + number;
    assert('0' <= number[number.len() - 1] <= '9');
    assert(on[0] == 's' && on.last() == number.last());
    crate::plugins::systemvolume::state_laws::law_event_lines_are_taken_apart(event, on);
    assert forall|i: int| 0 <= i < number.len() implies number[i] != ' ' by {
        assert('0' <= number[i] <= '9');
    }
    crate::plugins::systemvolume::state_laws::law_sink_events_by_word(
        text@,
        event,
        number,
        Seq::empty(),
        Seq::empty(),
    );
}

/// Whoever is connected and was not told everything yet is told, and nobody who
/// was; who left counts as not told.
pub proof fn law_untold_peers_are_found(
    supervisor: &mut Supervisor,
    connected: &Vec<String>,
    r: Vec<String>,
    d: Seq<char>,
)
    requires
        call_ensures(Supervisor::unsynced, (supervisor, connected), r),
    ensures
        texts(r@).contains(d) <==> texts(connected@).contains(d)
            && !old(supervisor)@.synced.contains(d),
        final(supervisor)@.synced.contains(d) <==> old(supervisor)@.synced.contains(d)
            && texts(connected@).contains(d),
{
    crate::plugins::systemvolume::laws::lemma_selected(
        texts(connected@),
        old(supervisor)@.synced,
        false,
    );
    crate::plugins::systemvolume::laws::lemma_selected(
        old(supervisor)@.synced,
        texts(connected@),
        true,
    );
}

/// Once a watch ended it is started again: after half a second where it lasted at
/// least 5 seconds, and else after a wait that doubles up to 30 seconds.
pub proof fn law_ended_watches_start_again(
    supervisor: &mut Supervisor,
    event: WatchEvent,
    action: WatchAction,
)
    requires
        call_ensures(Supervisor::watch_step, (supervisor, event), action),
    ensures
        ({
            let wait = old(supervisor)@.backoff_ms;
            let next = final(supervisor)@.backoff_ms;
            &&& event matches WatchEvent::Ended { lasted_ms } ==> action == (
            WatchAction::WaitThenSubscribe {
                delay_ms: if lasted_ms >= 5_000 {
                    500
                } else {
                    wait
                },
            })
            &&& event matches WatchEvent::Ended { lasted_ms } ==> (lasted_ms < 5_000 ==> next == (
            if wait <= 15_000 {
                wait + wait
            } else {
                30_000
            }))
            &&& event matches WatchEvent::Ended { lasted_ms } ==> (lasted_ms >= 5_000 ==> next
                == 1_000)
            &&& event is Tick ==> action == WatchAction::Sync
            &&& event matches WatchEvent::Heard(e) ==> action == (if e is Unclassified {
                WatchAction::Sync
            } else {
                WatchAction::ListThenSync
            })
            &&& !(event is Ended) ==> final(supervisor)@ == old(supervisor)@
        }),
{
}

/// The changes of one sink that was there are told with its name, and a sink that
/// was not there has none.
pub proof fn law_changes_of_a_sink_are_told(
    before: &Table<SinkState>,
    list: &Vec<LocalSinkState>,
    r: Vec<Packet>,
)
    requires
        call_ensures(build_deltas, (before, list), r),
        list@.len() == 1,
    ensures
        ({
            let s = list@[0];
            let known = before@.contains_key(s.name@);
            let prev = before@[s.name@];
            &&& !known ==> r@.len() == 0
            &&& known ==> r@.len() == (if prev.volume != s.volume {
                1int
            } else {
                0
            }) + (if prev.muted != s.muted {
                1int
            } else {
                0
            }) + (if prev.enabled != s.enabled {
                1int
            } else {
                0
            })
            &&& forall|i: int|
                0 <= i < r@.len() ==> (#[trigger] r@[i])@.packet_type == "kdeconnect.systemvolume"@
                    && r@[i]@.body.len() == 2 && r@[i]@.body[0] == (
                    "name"@,
                    ValueView::Text(s.name@),
                )
            &&& known && prev.volume != s.volume ==> r@[0]@.body[1].0 == "volume"@
                && r@[0]@.body[1].1 == (match s.volume {
                Some(v) => ValueView::Int(v),
                None => ValueView::Null,
            })
            &&& known && prev.enabled != s.enabled ==> r@.last()@.body[1].0 == "enabled"@
                && r@.last()@.body[1].1 == (match s.enabled {
                Some(b) => ValueView::Bool(b),
                None => ValueView::Null,
            })
        }),
{
    let s = list@[0];
    let views = crate::plugins::systemvolume::supervisor::packet_views(r@);
    assert(list@ =~= Seq::<LocalSinkState>::empty().push(s));
    crate::plugins::systemvolume::state_laws::law_deltas_follow_the_list(
        before@,
        Seq::empty(),
        s,
    );
    assert(views.len() == r@.len());
    if before@.contains_key(s.name@) {
        let told = crate::plugins::systemvolume::supervisor::sink_deltas(before@[s.name@], s);
        assert(Seq::<crate::packet::PacketView>::empty() + told =~= told);
        assert(views == told);
        assert forall|i: int| 0 <= i < r@.len() implies #[trigger] r@[i]@ == told[i] by {
            assert(views[i] == r@[i]@);
        }
    }
}

/// A new peer is sent the sinks if and only if it takes them, first, and is asked
/// for its own if and only if it sends them.
pub proof fn law_new_peers_are_greeted(
    plugin: &SystemVolumePlugin,
    incoming: &Vec<String>,
    outgoing: &Vec<String>,
    r: Vec<Packet>,
)
    requires
        call_ensures(sync_peers, (plugin, incoming, outgoing), r),
    ensures
        ({
            let takes = texts(incoming@).contains("kdeconnect.systemvolume"@);
            let sends = texts(outgoing@).contains("kdeconnect.systemvolume"@);
            &&& r@.len() == (if takes {
                1int
            } else {
                0
            }) + (if sends {
                1int
            } else {
                0
            })
            &&& takes ==> r@[0]@.packet_type == "kdeconnect.systemvolume"@
            &&& sends ==> r@.last()@.packet_type == "kdeconnect.systemvolume.request"@
                && r@.last()@.body[0] == ("requestSinks"@, ValueView::Bool(true))
        }),
{
    let views = crate::plugins::systemvolume::supervisor::packet_views(r@);
    assert(views.len() == r@.len());
    if r@.len() > 0 {
        assert(views[0] == r@[0]@);
        assert(views.last() == r@.last()@);
    }
}

/// A sound server that is only played has the volume that was set, on the sinks of
/// that name and no others, and says that a sink that it does not have is not
/// there.
pub proof fn law_played_volume_is_what_was_set(
    mock: &mut MockBackend,
    name: &str,
    volume: i64,
    r: Result<(), Error>,
    i: int,
)
    requires
        call_ensures(MockBackend::set_volume, (mock, name, volume), r),
        0 <= i < old(mock).sinks@.len(),
    ensures
        r is Ok ==> final(mock).sinks@.len() == old(mock).sinks@.len(),
        r is Ok && old(mock).sinks@[i].name@ == name@ ==> final(mock).sinks@[i].volume == Some(
            volume,
        ),
        r is Ok && old(mock).sinks@[i].name@ != name@ ==> final(mock).sinks@[i]
            == old(mock).sinks@[i],
        old(mock).sinks@[i].name@ == name@ ==> r is Ok,
        r matches Err(e) ==> (e@ matches ErrorView::NotFound { id, .. } && id == Some(name@)),
{
}

/// The sinks that are listed of another desktop are all that are known of it, in
/// the order of their names, and none of a desktop that left.
pub proof fn law_known_sinks_are_listed_by_name(
    plugin: &SystemVolumePlugin,
    id: &str,
    list: Vec<SinkState>,
    name: &str,
    sink: Option<SinkState>,
)
    requires
        call_ensures(SystemVolumePlugin::get_sinks, (plugin, id), list),
        call_ensures(SystemVolumePlugin::get_sink, (plugin, id, name), sink),
    ensures
        forall|i: int, j: int|
            #![trigger list@[i], list@[j]]
            0 <= i < j < list@.len() ==> crate::text::lex_lt(list@[i].name@, list@[j].name@),
        forall|i: int|
            0 <= i < list@.len() && (#[trigger] list@[i]).name@ == name@ ==> sink == Some(list@[i]),
        sink is Some ==> exists|i: int| 0 <= i < list@.len() && (#[trigger] list@[i]).name@ == name@,
        !plugin@.sinks.contains_key(id@) ==> list@.len() == 0 && sink is None,
{
}

/// A desktop that left is forgotten, and the others are not.
pub proof fn law_sinks_leave_with_their_desktop(
    plugin: &mut SystemVolumePlugin,
    id: &str,
    later: &SystemVolumePlugin,
    other: &str,
    list: Vec<SinkState>,
)
    requires
        call_ensures(SystemVolumePlugin::on_disconnected, (plugin, id), ()),
        later@ == final(plugin)@,
        call_ensures(SystemVolumePlugin::get_sinks, (later, other), list),
    ensures
        other@ == id@ ==> list@.len() == 0,
        other@ != id@ ==> final(plugin)@.sinks.contains_key(other@)
            == old(plugin)@.sinks.contains_key(other@) && final(plugin)@.sinks[other@]
            == old(plugin)@.sinks[other@],
        final(plugin)@.local_sinks == old(plugin)@.local_sinks,
{
}

/// After a list of this desktop's sinks exactly those of the list are left; a sink
/// that it names once is as it says, and as it was where it says nothing.
pub proof fn law_own_sinks_are_those_of_the_list(
    plugin: &mut SystemVolumePlugin,
    list: &Vec<LocalSinkState>,
    before: &SystemVolumePlugin,
    name: &str,
    was: Option<SinkState>,
    later: &SystemVolumePlugin,
    now: Option<SinkState>,
    i: int,
)
    requires
        call_ensures(SystemVolumePlugin::apply_local_sinks, (plugin, list), ()),
        old(plugin)@.wf(),
        before@ == old(plugin)@,
        call_ensures(SystemVolumePlugin::get_local_sink, (before, name), was),
        later@ == final(plugin)@,
        call_ensures(SystemVolumePlugin::get_local_sink, (later, name), now),
        0 <= i < list@.len(),
        forall|j: int|
            0 <= j < list@.len() && j != i ==> (#[trigger] list@[j]).name@ != list@[i].name@,
    ensures
        name@ == list@[i].name@ ==> (now matches Some(s) && {
            &&& s.name@ == name@
            &&& list@[i].volume is Some ==> s.volume == list@[i].volume
            &&& list@[i].muted is Some ==> s.muted == list@[i].muted
            &&& list@[i].enabled is Some ==> s.enabled == list@[i].enabled
            &&& list@[i].volume is None ==> s.volume == (match was {
                Some(w) => w.volume,
                None => None,
            })
            &&& list@[i].muted is None ==> s.muted == (match was {
                Some(w) => w.muted,
                None => None,
            })
            &&& list@[i].enabled is None ==> s.enabled == (match was {
                Some(w) => w.enabled,
                None => None,
            })
        }),
        now is Some ==> exists|j: int|
            0 <= j < list@.len() && (#[trigger] list@[j]).name@ == name@,
{
    crate::plugins::systemvolume::laws::law_applied_list_is_all_there_is(
        old(plugin)@.local_sinks,
        list@,
        i,
    );
    let names = crate::plugins::systemvolume::sinks::sink_names(list@);
    assert(names[i] == list@[i].name@);
    assert(names.to_set().contains(list@[i].name@));
    if now is Some {
        assert(names.to_set().contains(name@));
        let j = choose|j: int| 0 <= j < names.len() && names[j] == name@;
        assert(list@[j].name@ == name@);
    }
}

/// The default is a sink that says so, and there is none only where no sink does.
pub proof fn law_recomputed_default_says_that_it_is(
    plugin: &mut SystemVolumePlugin,
    later: &SystemVolumePlugin,
    default: Option<String>,
    k: Seq<char>,
)
    requires
        call_ensures(SystemVolumePlugin::recompute_default, (plugin,), ()),
        later@ == final(plugin)@,
        call_ensures(SystemVolumePlugin::get_default_sink, (later,), default),
    ensures
        final(plugin)@.local_sinks == old(plugin)@.local_sinks,
        default matches Some(n) ==> exists|j: Seq<char>| #[trigger]
            old(plugin)@.local_sinks.contains_key(j) && old(plugin)@.local_sinks[j].enabled == Some(
                true,
            ) && old(plugin)@.local_sinks[j].name@ == n@,
        default is None && old(plugin)@.local_sinks.contains_key(k)
            ==> old(plugin)@.local_sinks[k].enabled != Some(true),
{
}

/// What is told of this desktop's sinks is what they are: the list names them all,
/// and is sent to those who are connected where sinks came or went or the default
/// moved.
pub proof fn law_pushed_state_is_the_list(
    supervisor: &mut Supervisor,
    plugin: &mut SystemVolumePlugin,
    list: &Vec<LocalSinkState>,
    push: Push,
    i: int,
)
    requires
        call_ensures(Supervisor::push_local_state, (supervisor, plugin, list), push),
        0 <= i < list@.len(),
        forall|j: int| i < j < list@.len() ==> (#[trigger] list@[j]).name@ != list@[i].name@,
    ensures
        ({
            let name = list@[i].name@;
            let sinks = final(plugin)@.local_sinks;
            &&& sinks.contains_key(name)
            &&& sinks[name].name@ == name && sinks[name].volume == list@[i].volume
                && sinks[name].muted == list@[i].muted && sinks[name].enabled == list@[i].enabled
            &&& exists|j: int| 0 <= j < push.sinks@.len() && (#[trigger] push.sinks@[j]).name@ == name
            &&& final(supervisor)@.snapshot == sinks
            &&& final(plugin)@.default_sink == final(supervisor)@.default_sink
            &&& push.list is Some <==> old(supervisor)@.default_sink
                != final(plugin)@.default_sink || old(supervisor)@.snapshot.dom() != sinks.dom()
            &&& final(supervisor)@.synced == old(supervisor)@.synced
        }),
{
    crate::plugins::systemvolume::state_laws::law_last_entry_of_a_name_counts(
        list@,
        list@[i].name@,
        i,
    );
}

/// A wait is half a second after a watch of at least 5 seconds, and else doubles
/// up to 30 seconds; a peer that was told everything is noted.
pub proof fn law_waits_and_told_peers_are_noted(
    a: &mut Supervisor,
    healthy_ms: u64,
    delay: u64,
    b: &mut Supervisor,
    id: String,
)
    requires
        call_ensures(Supervisor::restart_delay, (a, healthy_ms), delay),
        call_ensures(Supervisor::mark_synced, (b, id), ()),
    ensures
        healthy_ms >= 5_000 ==> delay == 500,
        healthy_ms < 5_000 ==> delay == old(a)@.backoff_ms,
        delay <= 15_000 ==> final(a)@.backoff_ms == delay + delay,
        delay > 15_000 ==> final(a)@.backoff_ms == 30_000,
        final(b)@.synced.contains(id@),
        final(b)@.synced.len() == old(b)@.synced.len() + 1,
        final(b)@.backoff_ms == old(b)@.backoff_ms,
{
    assert(final(b)@.synced[old(b)@.synced.len() as int] == id@);
}

/// A request for sinks is answered with those of the list, which are kept.
pub proof fn law_answers_list_the_sinks(
    plugin: &mut SystemVolumePlugin,
    list: &Vec<LocalSinkState>,
    r: Packet,
    i: int,
)
    requires
        call_ensures(SystemVolumePlugin::answer_request, (plugin, list), r),
        0 <= i < list@.len(),
    ensures
        r.packet_type@ == "kdeconnect.systemvolume"@,
        r@.body.len() == 1,
        r@.body[0].0 == "sinkList"@,
        r@.body[0].1 matches ValueView::List(l) && l.len() == list@.len() && (l[i] matches Some(s)
            && s.name == list@[i].name && s.volume == list@[i].volume && s.muted == list@[i].muted
            && s.enabled == list@[i].enabled),
        final(plugin)@.sinks == old(plugin)@.sinks,
{
}

/// A sound server that is only played is muted as it was told, has the default
/// that was set last, and lists its sinks with it where it is available.
pub proof fn law_played_server_does_as_told(
    a: &mut MockBackend,
    name: &str,
    muted: bool,
    r: Result<(), Error>,
    b: &mut MockBackend,
    enabled: bool,
    s: Result<(), Error>,
    c: &MockBackend,
    list: Result<Vec<LocalSinkState>, Error>,
    i: int,
)
    requires
        call_ensures(MockBackend::set_muted, (a, name, muted), r),
        call_ensures(MockBackend::set_default, (b, name, enabled), s),
        c@ == final(b)@,
        call_ensures(MockBackend::list_sinks, (c,), list),
        0 <= i,
    ensures
        r is Ok && i < old(a).sinks@.len() && old(a).sinks@[i].name@ == name@
            ==> final(a).sinks@[i].muted == Some(muted) && final(a).sinks@[i].volume
            == old(a).sinks@[i].volume,
        s is Ok,
        enabled ==> final(b)@.default_name == Some(name@),
        !enabled ==> final(b)@.default_name != Some(name@),
        list is Ok <==> c@.available,
        list matches Ok(l) ==> (i < l@.len() && enabled ==> l@[i].enabled == Some(
            l@[i].name@ == name@,
        )),
{
}

/// A packet reports a call by its fields.
pub proof fn law_calls_are_read_from_their_fields(packet: &Packet, r: Option<TelephonyInfo>)
    requires
        call_ensures(TelephonyInfo::from_packet, (packet,), r),
    ensures
        r matches Some(info) ==> {
            &&& field(packet@.body, "event"@) == Some(ValueView::Text(info.event@))
            &&& info.phone_number matches Some(t) ==> field(packet@.body, "phoneNumber"@) == Some(
                ValueView::Text(t@),
            )
            &&& info.contact_name matches Some(t) ==> field(packet@.body, "contactName"@) == Some(
                ValueView::Text(t@),
            )
            &&& info.phone_thumbnail matches Some(t) ==> field(packet@.body, "phoneThumbnail"@)
                == Some(ValueView::Text(t@))
        },
        !(field(packet@.body, "event"@) matches Some(v) && v is Text) ==> r is None,
{
    if let Some(info) = r {
        let seen = info@;
        assert(seen.event == info.event@);
        assert(seen.phone_number == crate::error::text_of(info.phone_number));
        assert(seen.contact_name == crate::error::text_of(info.contact_name));
        assert(seen.phone_thumbnail == crate::error::text_of(info.phone_thumbnail));
    }
}

/// The telephony plugin takes reports of calls and sends requests to mute them.
pub proof fn law_telephony_packet_types(
    plugin: &TelephonyPlugin,
    incoming: Vec<String>,
    outgoing: Vec<String>,
)
    requires
        call_ensures(TelephonyPlugin::incoming_capabilities, (plugin,), incoming),
        call_ensures(TelephonyPlugin::outgoing_capabilities, (plugin,), outgoing),
    ensures
        texts(incoming@) == seq!["kdeconnect.telephony"@],
        texts(outgoing@) == seq!["kdeconnect.telephony.request_mute"@],
{
}

} // verus!
