//! What the volume plugin reads, keeps, asks for and tells, part by part.

use vstd::prelude::*;

use crate::packet::{field, PacketView, SinkState, ValueView};
use crate::plugins::systemvolume::backend::{
    after_op, bool_text, call_text, can_make, changed, default_after, event_on, is_state_of, loudest,
    marked, quoted, sink_volume, status_text, subscribe_event, with_change, EventView,
    LocalSinkState, MockView, OpView, PactlSink,
};
use crate::plugins::systemvolume::plugin::{
    controller_after, described_sinks, list_packet, provider_request, requested_ops, sent, taken,
    updated, with_each, PlannedView, RequestView,
};
use crate::plugins::systemvolume::sinks::{
    described, is_default_of, lists_sinks, merged, sink_names,
};
use crate::plugins::systemvolume::supervisor::{
    bool_value, delta_packet, deltas, doubled, greeting, int_value, selected, sink_deltas, sinks_of,
    wait_after, watched, SupervisorView, WatchAction, WatchEvent,
};
use crate::text::{
    is_white_space, lex_lt, signed_decimal, trim, trim_start,
};
use crate::text_laws::{
    law_first_index_is_first, law_prefixes_come_off, law_trim_takes_white_space_off_the_ends,
};

verus! {

/// What stands between the first two quotes is quoted, and the rest follows.
pub proof fn law_quoted_text_stands_between_quotes(name: Seq<char>, rest: Seq<char>)
    requires
        forall|i: int| 0 <= i < name.len() ==> name[i] != '\'',
    ensures
        quoted(seq!['\''] + name + seq!['\''] + rest) == Some((name, rest)),
{
    let s = seq!['\''] + name + seq!['\''] + rest;
    let inner = name + seq!['\''] + rest;
    assert(s.drop_first() =~= inner);
    law_first_index_is_first(inner, '\'', name.len() as int);
    assert(inner.take(name.len() as int) =~= name);
    assert(inner.skip(name.len() as int + 1) =~= rest);
}

/// Text that does not begin with a quote, or has no second one, quotes nothing.
pub proof fn law_unquoted_text_quotes_nothing(s: Seq<char>)
    requires
        s.len() == 0 || s[0] != '\'' || forall|i: int| 1 <= i < s.len() ==> s[i] != '\'',
    ensures
        quoted(s) is None,
{
    if s.len() > 0 && s[0] == '\'' {
        let inner = s.drop_first();
        assert forall|i: int| 0 <= i < inner.len() implies inner[i] != '\'' by {
            assert(inner[i] == s[i + 1]);
        }
        law_first_index_is_first(inner, '\'', inner.len() as int);
    }
}

/// Text without white space at its front is not changed by trimming it.
proof fn lemma_no_leading_space(s: Seq<char>)
    requires
        s.len() > 0,
        !is_white_space(s[0]),
    ensures
        trim_start(s) == s,
{
}

/// A line of the sound server's is taken apart into the word in quotes and what
/// it is about, and judged by these.
pub proof fn law_event_lines_are_taken_apart(event: Seq<char>, on: Seq<char>)
    requires
        forall|i: int| 0 <= i < event.len() ==> event[i] != '\'',
        on.len() > 0,
        !is_white_space(on[0]),
        !is_white_space(on.last()),
    ensures
        ({
            let line = "Event '"@ + event + "' on "@ + on;
            subscribe_event(line) == Some(event_on(line, event, on))
        }),
{
    let line = "Event '"@ + event + "' on "@ + on;
    let rest = seq![' '] + ("on "@ + on);
    let after = seq!['\''] + event + seq!['\''] + rest;
    lemma_event_line(event, on);
    assert(line[0] == 'E' && line.last() == on.last());
    let empty = Seq::<char>::empty();
    assert(empty + line + empty =~= line);
    law_trim_takes_white_space_off_the_ends(empty, line, empty);
    law_prefixes_come_off(line, "Event "@, after);
    law_quoted_text_stands_between_quotes(event, rest);
    lemma_one_leading_space("on "@ + on);
    law_prefixes_come_off("on "@ + on, "on "@, on);
    lemma_no_leading_space(on);
}

/// The pieces of a line of the sound server's.
proof fn lemma_event_line(event: Seq<char>, on: Seq<char>)
    requires
        on.len() > 0,
    ensures
        "Event '"@ + event + "' on "@ + on == "Event "@ + (seq!['\''] + event + seq!['\''] + (seq![
            ' ',
        ] + ("on "@ + on))),
        ("Event '"@ + event + "' on "@ + on)[0] == 'E',
        ("Event '"@ + event + "' on "@ + on).last() == on.last(),
        ("on "@ + on)[0] == 'o',
{
    reveal_strlit("Event '");
    reveal_strlit("Event ");
    reveal_strlit("' on ");
    reveal_strlit("on ");
    assert("Event '"@ =~= "Event "@ + seq!['\'']);
    assert("' on "@ =~= seq!['\'', ' '] + "on "@);
    assert("Event '"@ + event + "' on "@ + on =~= "Event "@ + (seq!['\''] + event + seq!['\''] + (
    seq![' '] + ("on "@ + on))));
}

/// One space at the front is taken off.
proof fn lemma_one_leading_space(s: Seq<char>)
    requires
        s.len() > 0,
        !is_white_space(s[0]),
    ensures
        trim_start(seq![' '] + s) == s,
{
    let t = seq![' '] + s;
    assert(is_white_space(t[0]));
    assert(t.drop_first() =~= s);
    lemma_no_leading_space(s);
}

/// A line that does not begin with `Event ` tells of nothing.
pub proof fn law_other_lines_tell_nothing(text: Seq<char>)
    requires
        !("Event "@.is_prefix_of(trim(text))),
    ensures
        subscribe_event(text) is None,
{
}

/// The words for what happened differ.
proof fn lemma_event_words_differ()
    ensures
        "new"@ != "remove"@,
        "new"@ != "change"@,
        "remove"@ != "change"@,
{
    reveal_strlit("new");
    reveal_strlit("remove");
    reveal_strlit("change");
    assert("new"@.len() == 3);
    assert("remove"@[0] != "change"@[0]);
    assert("remove"@.len() == 6 && "change"@.len() == 6);
}

/// A sink that came, went or changed is told as such, with its name where one is
/// quoted after its number, and without one where there is none. Anything else
/// about a sink is told as it stands.
pub proof fn law_sink_events_by_word(
    line: Seq<char>,
    event: Seq<char>,
    number: Seq<char>,
    name: Seq<char>,
    rest: Seq<char>,
)
    requires
        forall|i: int| 0 <= i < number.len() ==> number[i] != ' ',
        forall|i: int| 0 <= i < name.len() ==> name[i] != '\'',
    ensures
        ({
            let plain = event_on(line, event, "sink #"@ + number);
            let called = event_on(
                line,
                event,
                "sink #"@ + number + " '"@ + name + seq!['\''] + rest,
            );
            &&& event == "new"@ ==> plain == (EventView::SinkAdded { name: None }) && called == (
            EventView::SinkAdded { name: Some(name) })
            &&& event == "remove"@ ==> plain == (EventView::SinkRemoved { name: None }) && called
                == (EventView::SinkRemoved { name: Some(name) })
            &&& event == "change"@ ==> plain == (EventView::SinkChanged { name: None }) && called
                == (EventView::SinkChanged { name: Some(name) })
            &&& event != "new"@ && event != "remove"@ && event != "change"@ ==> plain == (
            EventView::Unclassified { line }) && called == (EventView::Unclassified { line })
        }),
{
    lemma_event_words_differ();
    reveal_strlit("sink #");
    reveal_strlit("sink ");
    reveal_strlit("#");
    reveal_strlit(" '");
    let bare = "#"@ + number;
    assert("sink #"@ + number =~= "sink "@ + bare);
    law_prefixes_come_off("sink "@ + bare, "sink "@, bare);
    lemma_no_leading_space(bare);
    law_prefixes_come_off(bare, "#"@, number);
    assert("#"@.is_prefix_of(bare));
    law_first_index_is_first(bare, ' ', bare.len() as int);
    let tail = seq!['\''] + name + seq!['\''] + rest;
    let full = "#"@ + number + seq![' '] + tail;
    assert("sink #"@ + number + " '"@ + name + seq!['\''] + rest =~= "sink "@ + full);
    law_prefixes_come_off("sink "@ + full, "sink "@, full);
    lemma_no_leading_space(full);
    assert("#"@.is_prefix_of(full));
    law_first_index_is_first(full, ' ', bare.len() as int);
    assert(full.skip(bare.len() as int + 1) =~= tail);
    lemma_no_leading_space(tail);
    law_quoted_text_stands_between_quotes(name, rest);
}

/// A change of the server may have moved the default output, a change of a card
/// may have changed any sink, and what is about neither, nor about a sink, is
/// told as it stands.
pub proof fn law_other_events_by_word(
    line: Seq<char>,
    event: Seq<char>,
    tail: Seq<char>,
    on: Seq<char>,
)
    requires
        !("sink "@.is_prefix_of(on)),
        !("server"@.is_prefix_of(on)),
        !("card "@.is_prefix_of(on)),
    ensures
        ({
            let server = event_on(line, event, "server"@ + tail);
            let card = event_on(line, event, "card #"@ + tail);
            &&& event == "new"@ || event == "change"@ ==> server == (
            EventView::DefaultSinkChanged { name: None })
            &&& event != "new"@ && event != "change"@ ==> server == (EventView::Unclassified {
                line,
            })
            &&& event == "new"@ || event == "remove"@ || event == "change"@ ==> card == (
            EventView::SinkChanged { name: None })
            &&& event != "new"@ && event != "remove"@ && event != "change"@ ==> card == (
            EventView::Unclassified { line })
            &&& event_on(line, event, on) == (EventView::Unclassified { line })
        }),
{
    reveal_strlit("sink ");
    reveal_strlit("server");
    reveal_strlit("card ");
    reveal_strlit("card #");
    reveal_strlit("#");
    let s = "server"@ + tail;
    assert("server"@.is_prefix_of(s));
    assert(!("sink "@.is_prefix_of(s))) by {
        assert(s[1] == 'e');
        assert("sink "@[1] == 'i');
        assert(s.take(5)[1] == s[1]);
    }
    let after = "#"@ + tail;
    assert("card #"@ + tail =~= "card "@ + after);
    law_prefixes_come_off("card "@ + after, "card "@, after);
    let c = "card "@ + after;
    assert(c[0] == 'c');
    assert(!("sink "@.is_prefix_of(c))) by {
        assert("sink "@[0] == 's');
    }
    assert(!("server"@.is_prefix_of(c))) by {
        assert("server"@[0] == 's');
    }
    lemma_no_leading_space(after);
    assert("#"@.is_prefix_of(after));
}

/// The loudest channel is one of those that have a volume, and no other is
/// louder; there is none where no channel has a volume.
pub proof fn law_loudest_channel_is_loudest(channels: Seq<Option<i64>>)
    ensures
        match loudest(channels) {
            Some(v) => channels.contains(Some(v)) && forall|i: int|
                0 <= i < channels.len() ==> ((#[trigger] channels[i]) matches Some(w) ==> w <= v),
            None => forall|i: int| 0 <= i < channels.len() ==> (#[trigger] channels[i]) is None,
        },
    decreases channels.len(),
{
    if channels.len() > 0 {
        let rest = channels.drop_last();
        law_loudest_channel_is_loudest(rest);
        assert(channels.last() == channels[channels.len() - 1]);
        if let Some(a) = loudest(rest) {
            let i = choose|i: int| 0 <= i < rest.len() && rest[i] == Some(a);
            assert(channels[i] == Some(a));
        }
        assert forall|i: int| 0 <= i < channels.len() implies ((#[trigger] channels[i]) matches Some(
            w,
        ) ==> loudest(channels) is Some && w <= loudest(channels)->0) by {
            if i < rest.len() {
                assert(rest[i] == channels[i]);
            }
        }
        if loudest(channels) is None {
            assert forall|i: int| 0 <= i < channels.len() implies (#[trigger] channels[i])
                is None by {
                if i < rest.len() {
                    assert(rest[i] == channels[i]);
                }
            }
        }
    }
}

/// A sink is as loud as its loudest channel, and silent without one.
pub proof fn law_sinks_are_as_loud_as_a_channel(channels: Seq<Option<i64>>)
    ensures
        loudest(channels) matches Some(v) ==> sink_volume(Some(channels)) == v,
        loudest(channels) is None ==> sink_volume(Some(channels)) == 0,
        sink_volume(None) == 0,
{
}

/// A sink of this desktop is described by its name, its description, its loudest
/// channel, the given ceiling and whether it is muted; it is the default output
/// if and only if it has the default's name, where that is known.
pub proof fn law_sinks_are_described_part_by_part(
    state: LocalSinkState,
    sink: PactlSink,
    max_volume: i64,
    default: Option<Seq<char>>,
)
    requires
        is_state_of(state, sink, max_volume, default),
    ensures
        state.name == sink.name,
        state.description == sink.description,
        state.volume == Some(
            match sink.volume {
                Some(channels) => sink_volume(Some(channels@)),
                None => 0,
            },
        ),
        state.max_volume == Some(max_volume),
        state.muted == sink.mute,
        default is None ==> state.enabled is None,
        default matches Some(d) ==> (state.enabled matches Some(e) && (e <==> sink.name@ == d)),
{
}

/// Marking the default changes nothing of a sink but whether it is the default,
/// which it is if and only if it has the default's name.
pub proof fn law_default_is_marked_by_name(sink: LocalSinkState, default: Seq<char>)
    ensures
        marked(sink, default).enabled matches Some(e) && (e <==> sink.name@ == default),
        marked(sink, default).name == sink.name,
        marked(sink, default).description == sink.description,
        marked(sink, default).volume == sink.volume,
        marked(sink, default).max_volume == sink.max_volume,
        marked(sink, default).muted == sink.muted,
{
}

/// A change of volume or mute changes that part of the sinks of that name, and
/// nothing else; a change of the default changes no sink.
pub proof fn law_changes_reach_the_named_sink(
    sink: LocalSinkState,
    name: Seq<char>,
    volume: i64,
    muted: bool,
    enabled: bool,
)
    ensures
        ({
            let louder = changed(sink, OpView::SetVolume { name, volume });
            let silent = changed(sink, OpView::SetMuted { name, muted });
            &&& sink.name@ != name ==> louder == sink && silent == sink
            &&& sink.name@ == name ==> louder.volume == Some(volume) && louder.muted == sink.muted
                && louder.enabled == sink.enabled && louder.name == sink.name
            &&& sink.name@ == name ==> silent.muted == Some(muted) && silent.volume == sink.volume
                && silent.enabled == sink.enabled && silent.name == sink.name
            &&& changed(sink, OpView::SetDefault { name, enabled }) == sink
            &&& with_change(sink, name, Some(volume), None) == louder
            &&& with_change(sink, name, None, Some(muted)) == silent
        }),
{
}

/// A sound server that is only played has the default that was set last; unsetting
/// the default leaves none, and unsetting another sink changes nothing.
pub proof fn law_default_is_the_last_one_set(default: Option<Seq<char>>, name: Seq<char>)
    ensures
        default_after(default, OpView::SetDefault { name, enabled: true }) == Some(name),
        default == Some(name) ==> default_after(
            default,
            OpView::SetDefault { name, enabled: false },
        ) is None,
        default != Some(name) ==> default_after(
            default,
            OpView::SetDefault { name, enabled: false },
        ) == default,
{
}

/// A sound server that is only played makes a change of a sink if and only if it
/// has one of that name, and notes every change that it made, in words.
pub proof fn law_played_changes_are_noted(mock: MockView, op: OpView, i: int)
    requires
        0 <= i < mock.sinks.len(),
    ensures
        op is SetDefault ==> can_make(mock, op),
        op matches OpView::SetVolume { name, .. } ==> (mock.sinks[i].name@ == name ==> can_make(
            mock,
            op,
        )),
        op matches OpView::SetMuted { name, .. } ==> (mock.sinks[i].name@ == name ==> can_make(
            mock,
            op,
        )),
        can_make(mock, op) && !(op is SetDefault) ==> exists|j: int|
            0 <= j < mock.sinks.len() && (#[trigger] mock.sinks[j]).name@ == match op {
                OpView::SetVolume { name, .. } => name,
                OpView::SetMuted { name, .. } => name,
                OpView::SetDefault { name, .. } => name,
            },
        after_op(mock, op).calls == mock.calls.push(call_text(op)),
        after_op(mock, op).sinks.len() == mock.sinks.len(),
        after_op(mock, op).sinks[i] == changed(mock.sinks[i], op),
        after_op(mock, op).available == mock.available,
        after_op(mock, op).events == mock.events,
{
}

/// The words of a change name it, the sink and the value.
pub proof fn law_changes_in_words(
    name: Seq<char>,
    volume: i64,
    muted: bool,
    enabled: bool,
    code: i32,
)
    ensures
        call_text(OpView::SetVolume { name, volume }) == "set_volume:"@ + name + ":"@
            + signed_decimal(volume as int),
        call_text(OpView::SetMuted { name, muted }) == "set_muted:"@ + name + ":"@ + bool_text(
            muted,
        ),
        call_text(OpView::SetDefault { name, enabled }) == "set_default:"@ + name + ":"@
            + bool_text(enabled),
        bool_text(muted) == "true"@ <==> muted,
        bool_text(muted) == "false"@ <==> !muted,
        status_text(Some(code)) == "Some("@ + signed_decimal(code as int) + ")"@,
        status_text(None) == "None"@,
{
    reveal_strlit("true");
    reveal_strlit("false");
    assert("true"@.len() != "false"@.len());
}

/// A sink is described to others as it is.
pub proof fn law_descriptions_keep_every_part(s: LocalSinkState)
    ensures
        described(s).name == s.name,
        described(s).description == s.description,
        described(s).volume == s.volume,
        described(s).max_volume == s.max_volume,
        described(s).muted == s.muted,
        described(s).enabled == s.enabled,
{
}

/// A list of sinks holds each of them once and nothing else, in the order of
/// their names.
pub proof fn law_sinks_are_listed_by_name(
    list: Seq<SinkState>,
    sinks: Map<Seq<char>, SinkState>,
    name: Seq<char>,
)
    requires
        lists_sinks(list, sinks),
    ensures
        forall|i: int, j: int|
            #![trigger list[i], list[j]]
            0 <= i < j < list.len() ==> lex_lt(list[i].name@, list[j].name@),
        sinks.contains_key(name) <==> exists|i: int|
            0 <= i < list.len() && (#[trigger] list[i]).name@ == name,
        forall|i: int| 0 <= i < list.len() ==> sinks[(#[trigger] list[i]).name@] == list[i],
{
}

/// The default output is a sink that says that it is the default; there is none
/// only where no sink says so.
pub proof fn law_default_says_that_it_is(
    sinks: Map<Seq<char>, SinkState>,
    name: Option<Seq<char>>,
    k: Seq<char>,
)
    requires
        is_default_of(sinks, name),
    ensures
        name matches Some(n) ==> exists|j: Seq<char>| #[trigger]
            sinks.contains_key(j) && sinks[j].enabled == Some(true) && sinks[j].name@ == n,
        name is None && sinks.contains_key(k) ==> sinks[k].enabled != Some(true),
{
}

/// What a list says of a sink holds, and what it leaves out stays as it was, or
/// unknown where nothing was known.
pub proof fn law_merging_fills_gaps_from_before(known: Option<SinkState>, s: LocalSinkState)
    ensures
        ({
            let m = merged(known, s);
            &&& m.name == s.name
            &&& s.description is Some ==> m.description == s.description
            &&& s.volume is Some ==> m.volume == s.volume
            &&& s.max_volume is Some ==> m.max_volume == s.max_volume
            &&& s.muted is Some ==> m.muted == s.muted
            &&& s.enabled is Some ==> m.enabled == s.enabled
            &&& known matches Some(k) ==> {
                &&& s.description is None ==> m.description == k.description
                &&& s.volume is None ==> m.volume == k.volume
                &&& s.max_volume is None ==> m.max_volume == k.max_volume
                &&& s.muted is None ==> m.muted == k.muted
                &&& s.enabled is None ==> m.enabled == k.enabled
            }
            &&& known is None ==> m == described(s)
        }),
{
}

/// The names of a list stand in its order.
pub proof fn law_sink_names_by_position(list: Seq<LocalSinkState>, i: int)
    requires
        0 <= i < list.len(),
    ensures
        sink_names(list).len() == list.len(),
        sink_names(list)[i] == list[i].name@,
{
}

/// A change is told by the sink's name and the part that changed, and by nothing
/// else; a part that is no longer known is null.
pub proof fn law_deltas_name_sink_and_part(
    name: Seq<char>,
    key: Seq<char>,
    value: ValueView,
    n: i64,
    b: bool,
)
    ensures
        delta_packet(name, key, value).packet_type == "kdeconnect.systemvolume"@,
        delta_packet(name, key, value).body.len() == 2,
        delta_packet(name, key, value).body[0] == ("name"@, ValueView::Text(name)),
        delta_packet(name, key, value).body[1] == (key, value),
        int_value(Some(n)) == ValueView::Int(n),
        bool_value(Some(b)) == ValueView::Bool(b),
        int_value(None) is Null,
        bool_value(None) is Null,
{
}

/// Exactly the parts that changed are told: the volume first, then whether the
/// sink is muted, then whether it is the default.
pub proof fn law_changed_parts_are_told_in_order(prev: SinkState, s: LocalSinkState)
    ensures
        ({
            let told = sink_deltas(prev, s);
            let v: int = if prev.volume != s.volume {
                1
            } else {
                0
            };
            let m: int = if prev.muted != s.muted {
                1
            } else {
                0
            };
            let e: int = if prev.enabled != s.enabled {
                1
            } else {
                0
            };
            &&& told.len() == v + m + e
            &&& v == 1 ==> told[0] == delta_packet(s.name@, "volume"@, int_value(s.volume))
            &&& m == 1 ==> told[v] == delta_packet(s.name@, "muted"@, bool_value(s.muted))
            &&& e == 1 ==> told[v + m] == delta_packet(s.name@, "enabled"@, bool_value(s.enabled))
        }),
{
}

/// The changes of a list are those of its sinks in order, where a sink that was
/// not there before has none.
pub proof fn law_deltas_follow_the_list(
    before: Map<Seq<char>, SinkState>,
    list: Seq<LocalSinkState>,
    s: LocalSinkState,
)
    ensures
        deltas(before, Seq::<LocalSinkState>::empty()) == Seq::<PacketView>::empty(),
        before.contains_key(s.name@) ==> deltas(before, list.push(s)) == deltas(before, list)
            + sink_deltas(before[s.name@], s),
        !before.contains_key(s.name@) ==> deltas(before, list.push(s)) == deltas(before, list),
{
    assert(list.push(s).drop_last() =~= list);
    if !before.contains_key(s.name@) {
        assert(deltas(before, list) + Seq::<PacketView>::empty() =~= deltas(before, list));
    }
}

/// A sink is known as the last entry of its name says, and a name without an
/// entry is unknown.
pub proof fn law_last_entry_of_a_name_counts(list: Seq<LocalSinkState>, name: Seq<char>, i: int)
    requires
        -1 <= i < list.len(),
        forall|j: int| i < j < list.len() ==> (#[trigger] list[j]).name@ != name,
        0 <= i ==> list[i].name@ == name,
    ensures
        sinks_of(list).contains_key(name) <==> 0 <= i,
        0 <= i ==> sinks_of(list)[name] == described(list[i]),
    decreases list.len(),
{
    if list.len() > 0 {
        assert(list.last() == list[list.len() - 1]);
        if i < list.len() - 1 {
            let rest = list.drop_last();
            assert forall|j: int| i < j < rest.len() implies (#[trigger] rest[j]).name@ != name by {
                assert(rest[j] == list[j]);
            }
            if 0 <= i {
                assert(rest[i] == list[i]);
            }
            law_last_entry_of_a_name_counts(rest, name, i);
        }
    }
}

/// A wait doubles up to 30 seconds, and starts over at half a second after a watch
/// of at least 5 seconds.
pub proof fn law_waits_double_and_start_over(backoff_ms: u64, lasted_ms: u64)
    ensures
        backoff_ms <= 15_000 ==> doubled(backoff_ms) == backoff_ms + backoff_ms,
        backoff_ms > 15_000 ==> doubled(backoff_ms) == 30_000,
        lasted_ms >= 5_000 ==> wait_after(backoff_ms, lasted_ms) == 500,
        lasted_ms < 5_000 ==> wait_after(backoff_ms, lasted_ms) == backoff_ms,
{
}

/// Peers are looked after on every tick and on everything that is heard; the
/// sinks are listed first if and only if what was heard is understood. Once a
/// watch ended it is started again, after a wait of half a second where it lasted
/// at least 5 seconds and of the current length where it did not.
pub proof fn law_watching_leads_to_syncing(memory: SupervisorView, event: WatchEvent)
    ensures
        ({
            let (after, action) = watched(memory, event);
            &&& action is ListThenSync <==> (event matches WatchEvent::Heard(e) && !(e
                is Unclassified))
            &&& action is Sync <==> event is Tick || (event matches WatchEvent::Heard(e) && e
                is Unclassified)
            &&& action is WaitThenSubscribe <==> event is Ended
            &&& event matches WatchEvent::Ended { lasted_ms } ==> action == (
            WatchAction::WaitThenSubscribe {
                delay_ms: if lasted_ms >= 5_000 {
                    500
                } else {
                    memory.backoff_ms
                },
            })
            &&& !(event is Ended) ==> after == memory
            &&& action matches WatchAction::WaitThenSubscribe { delay_ms } ==> after.backoff_ms == (
            if delay_ms <= 15_000 {
                delay_ms + delay_ms
            } else {
                30_000
            }) && after.synced == memory.synced && after.snapshot == memory.snapshot
        }),
{
}

/// Of a list those are selected that the other list holds, or those that it does
/// not hold, in order.
pub proof fn law_selection_keeps_order(
    list: Seq<Seq<char>>,
    other: Seq<Seq<char>>,
    d: Seq<char>,
    present: bool,
)
    ensures
        selected(Seq::<Seq<char>>::empty(), other, present) == Seq::<Seq<char>>::empty(),
        other.contains(d) == present ==> selected(list.push(d), other, present) == selected(
            list,
            other,
            present,
        ).push(d),
        other.contains(d) != present ==> selected(list.push(d), other, present) == selected(
            list,
            other,
            present,
        ),
{
    reveal(Seq::filter);
    assert(list.push(d).drop_last() =~= list);
    assert(list.push(d).last() == d);
}

/// A new peer is sent the list of sinks if and only if it takes the state of
/// sinks, and is asked for its own if and only if it sends the state of sinks;
/// the list goes first.
pub proof fn law_peers_are_greeted_by_capability(
    incoming: Seq<Seq<char>>,
    outgoing: Seq<Seq<char>>,
    list: Seq<SinkState>,
)
    ensures
        ({
            let told = greeting(incoming, outgoing, list);
            let takes = incoming.contains("kdeconnect.systemvolume"@);
            let sends = outgoing.contains("kdeconnect.systemvolume"@);
            &&& told.len() == (if takes {
                1int
            } else {
                0
            }) + (if sends {
                1int
            } else {
                0
            })
            &&& takes ==> told[0] == list_packet(list)
            &&& sends ==> told.last().packet_type == "kdeconnect.systemvolume.request"@
                && told.last().body.len() == 1 && told.last().body[0] == (
                "requestSinks"@,
                ValueView::Bool(true),
            )
        }),
{
}

/// Of the sinks that a list describes the last one of each name is known; entries
/// that describe none, or one without a name, are passed over.
pub proof fn law_last_description_of_a_name_counts(
    list: Seq<Option<SinkState>>,
    name: Seq<char>,
    i: int,
)
    requires
        -1 <= i < list.len(),
        forall|j: int| i < j < list.len() ==> ((#[trigger] list[j]) matches Some(s) ==> s.name@
            != name),
        0 <= i ==> (list[i] matches Some(s) && s.name@ == name),
    ensures
        described_sinks(list).contains_key(name) <==> 0 <= i && name.len() > 0,
        0 <= i && name.len() > 0 ==> described_sinks(list)[name] == list[i]->0,
    decreases list.len(),
{
    if list.len() > 0 {
        assert(list.last() == list[list.len() - 1]);
        let rest = list.drop_last();
        if i < list.len() - 1 {
            assert forall|j: int| i < j < rest.len() implies ((#[trigger] rest[j]) matches Some(s)
                ==> s.name@ != name) by {
                assert(rest[j] == list[j]);
            }
            if 0 <= i {
                assert(rest[i] == list[i]);
            }
            law_last_description_of_a_name_counts(rest, name, i);
        } else if name.len() == 0 {
            lemma_no_nameless_sinks(rest);
            lemma_no_nameless_sinks(list);
            assert(name =~= Seq::<char>::empty());
        }
    }
}

/// No sink without a name is ever known.
proof fn lemma_no_nameless_sinks(list: Seq<Option<SinkState>>)
    ensures
        !described_sinks(list).contains_key(Seq::<char>::empty()),
    decreases list.len(),
{
    if list.len() > 0 {
        lemma_no_nameless_sinks(list.drop_last());
    }
}

/// What a change tells of a sink holds from then on, and everything else of it
/// stays as it was.
pub proof fn law_told_parts_are_taken_over(sink: SinkState, packet: PacketView)
    ensures
        ({
            let now = updated(sink, packet);
            &&& packet.int_field("volume"@) matches Some(v) ==> now.volume == Some(v)
            &&& packet.int_field("volume"@) is None ==> now.volume == sink.volume
            &&& packet.bool_field("muted"@) matches Some(m) ==> now.muted == Some(m)
            &&& packet.bool_field("muted"@) is None ==> now.muted == sink.muted
            &&& packet.bool_field("enabled"@) matches Some(e) ==> now.enabled == Some(e)
            &&& packet.bool_field("enabled"@) is None ==> now.enabled == sink.enabled
            &&& now.name == sink.name
            &&& now.description == sink.description
            &&& now.max_volume == sink.max_volume
        }),
{
}

/// A list replaces all that is known of a desktop's sinks; a change of a known
/// sink touches that sink alone; no other desktop is touched by either.
pub proof fn law_reports_touch_what_they_name(
    sinks: Map<Seq<char>, Map<Seq<char>, SinkState>>,
    device: Seq<char>,
    packet: PacketView,
    other_device: Seq<char>,
    other_sink: Seq<char>,
)
    ensures
        ({
            let after = controller_after(sinks, device, packet);
            let known = |name: Seq<char>|
                sinks.contains_key(device) && sinks[device].contains_key(name);
            &&& packet.list_field("sinkList"@) matches Some(list) ==> after.contains_key(device)
                && after[device] == described_sinks(list)
            &&& packet.list_field("sinkList"@) is None ==> after.contains_key(device)
                == sinks.contains_key(device)
            &&& packet.list_field("sinkList"@) is None ==> match packet.text_field("name"@) {
                Some(name) => {
                    &&& known(name) ==> after[device].contains_key(name) && after[device][name]
                        == updated(sinks[device][name], packet)
                    &&& known(name) && other_sink != name ==> after[device].contains_key(other_sink)
                        == sinks[device].contains_key(other_sink) && after[device][other_sink]
                        == sinks[device][other_sink]
                    &&& !known(name) ==> after == sinks
                },
                None => after == sinks,
            }
            &&& other_device != device ==> after.contains_key(other_device) == sinks.contains_key(
                other_device,
            ) && after[other_device] == sinks[other_device]
        }),
{
}

/// A request makes exactly the changes that it names, of the sink that it names:
/// the volume first, with the sink unmuted after it whether that works or not,
/// then mute as asked, then the default as asked. A failure of any but the
/// unmuting drops what is left.
pub proof fn law_requests_make_the_changes_they_name(name: Seq<char>, packet: PacketView)
    ensures
        ({
            let ops = requested_ops(name, packet);
            let v: int = if packet.int_field("volume"@) is Some {
                2
            } else {
                0
            };
            let m: int = if packet.bool_field("muted"@) is Some {
                1
            } else {
                0
            };
            let e: int = if packet.bool_field("enabled"@) is Some {
                1
            } else {
                0
            };
            &&& ops.len() == v + m + e
            &&& packet.int_field("volume"@) matches Some(volume) ==> ops[0] == (PlannedView {
                op: OpView::SetVolume { name, volume },
                required: true,
            }) && ops[1] == (PlannedView {
                op: OpView::SetMuted { name, muted: false },
                required: false,
            })
            &&& packet.bool_field("muted"@) matches Some(muted) ==> ops[v] == (PlannedView {
                op: OpView::SetMuted { name, muted },
                required: true,
            })
            &&& packet.bool_field("enabled"@) matches Some(enabled) ==> ops[v + m] == (
            PlannedView { op: OpView::SetDefault { name, enabled }, required: true })
        }),
{
}

/// Without a sound server a request is ignored; with one, a request for the sinks
/// is answered with them, and any other makes the changes of the sink that it
/// names, if it names one.
pub proof fn law_requests_are_served_by_kind(has_backend: bool, packet: PacketView)
    ensures
        ({
            let asks = field(packet.body, "requestSinks"@) == Some(ValueView::Bool(true));
            let name = packet.text_field("name"@);
            let request = provider_request(has_backend, packet);
            &&& request is ListSinks <==> has_backend && asks
            &&& request is Control <==> has_backend && !asks && name is Some
            &&& request is Ignore <==> !has_backend || (!asks && name is None)
            &&& request matches RequestView::Control(ops) ==> ops == requested_ops(name->0, packet)
        }),
{
}

/// A list of sinks is told as one field that holds each of them, in order.
pub proof fn law_lists_are_told_in_order(list: Seq<SinkState>, i: int)
    requires
        0 <= i < list.len(),
    ensures
        list_packet(list).packet_type == "kdeconnect.systemvolume"@,
        list_packet(list).body.len() == 1,
        list_packet(list).body[0].0 == "sinkList"@,
        list_packet(list).body[0].1 matches ValueView::List(l) && l.len() == list.len() && l[i]
            == Some(list[i]),
{
}

/// This desktop takes the state of others' sinks and sends requests for them in
/// any case, and the other way round where it has a sound server.
pub proof fn law_volume_packet_types(available: bool)
    ensures
        taken(available).len() == (if available {
            2nat
        } else {
            1nat
        }),
        taken(available)[0] == "kdeconnect.systemvolume"@,
        available ==> taken(available)[1] == "kdeconnect.systemvolume.request"@,
        sent(available).len() == (if available {
            2nat
        } else {
            1nat
        }),
        sent(available)[0] == "kdeconnect.systemvolume.request"@,
        available ==> sent(available)[1] == "kdeconnect.systemvolume"@,
{
}

/// Sinks that are added one after the other stand under their names, the last one
/// of each name.
pub proof fn law_added_sinks_stand_under_their_names(
    sinks: Map<Seq<char>, SinkState>,
    more: Seq<SinkState>,
    s: SinkState,
    other: Seq<char>,
)
    ensures
        with_each(sinks, Seq::<SinkState>::empty()) == sinks,
        with_each(sinks, more.push(s)).contains_key(s.name@),
        with_each(sinks, more.push(s))[s.name@] == s,
        other != s.name@ ==> with_each(sinks, more.push(s)).contains_key(other) == with_each(
            sinks,
            more,
        ).contains_key(other) && with_each(sinks, more.push(s))[other] == with_each(
            sinks,
            more,
        )[other],
{
    assert(more.push(s).drop_last() =~= more);
}

} // verus!
