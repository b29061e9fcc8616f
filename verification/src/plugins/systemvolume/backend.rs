//! The sound server's side of volume control: what its tool prints and takes.

use vstd::prelude::*;

use crate::error::{Error, ErrorView};
use crate::packet::copy_text;
use crate::table::texts;
use crate::text::{
    find_char, first_index, join2, join3, join4, join5, maybe_text, prefix_stripped, same_text,
    signed_decimal, signed_decimal_text, strip_prefix, text_starts_with, to_chars, trim, trim_start, trimmed,
    trimmed_start,
};

verus! {

/// One sink of this desktop.
#[derive(Debug)]
pub struct LocalSinkState {
    pub name: String,
    pub description: Option<String>,
    pub volume: Option<i64>,
    pub max_volume: Option<i64>,
    pub muted: Option<bool>,
    /// Whether the sink is the default output.
    pub enabled: Option<bool>,
}

impl Clone for LocalSinkState {
    fn clone(&self) -> (r: Self)
        ensures
            r == *self,
    {
        LocalSinkState {
            name: self.name.clone(),
            description: copy_text(&self.description),
            volume: self.volume,
            max_volume: self.max_volume,
            muted: self.muted,
            enabled: self.enabled,
        }
    }
}

impl Default for LocalSinkState {
    fn default() -> (r: Self)
        ensures
            r.name@ == Seq::<char>::empty(),
            r.description == None::<String>,
            r.volume == None::<i64>,
            r.max_volume == None::<i64>,
            r.muted == None::<bool>,
            r.enabled == None::<bool>,
    {
        LocalSinkState {
            name: String::new(),
            description: None,
            volume: None,
            max_volume: None,
            muted: None,
            enabled: None,
        }
    }
}

/// What the sound server announced. It names a sink at most; the state is to be
/// asked for anew.
#[derive(Debug, PartialEq, Eq)]
pub enum SubscribeEvent {
    SinkAdded { name: Option<String> },
    SinkRemoved { name: Option<String> },
    SinkChanged { name: Option<String> },
    /// The default output may have moved.
    DefaultSinkChanged { name: Option<String> },
    /// Anything else.
    Unclassified { line: String },
}

/// What the sound server announced, by its texts.
pub enum EventView {
    SinkAdded { name: Option<Seq<char>> },
    SinkRemoved { name: Option<Seq<char>> },
    SinkChanged { name: Option<Seq<char>> },
    DefaultSinkChanged { name: Option<Seq<char>> },
    Unclassified { line: Seq<char> },
}

impl View for SubscribeEvent {
    type V = EventView;

    open spec fn view(&self) -> EventView {
        match self {
            SubscribeEvent::SinkAdded { name } => EventView::SinkAdded {
                name: crate::error::text_of(*name),
            },
            SubscribeEvent::SinkRemoved { name } => EventView::SinkRemoved {
                name: crate::error::text_of(*name),
            },
            SubscribeEvent::SinkChanged { name } => EventView::SinkChanged {
                name: crate::error::text_of(*name),
            },
            SubscribeEvent::DefaultSinkChanged { name } => EventView::DefaultSinkChanged {
                name: crate::error::text_of(*name),
            },
            SubscribeEvent::Unclassified { line } => EventView::Unclassified { line: line@ },
        }
    }
}

/// The text between the quote that `s` starts with and the next one, and what
/// follows that.
pub open spec fn quoted(s: Seq<char>) -> Option<(Seq<char>, Seq<char>)> {
    if s.len() == 0 || s[0] != '\'' {
        None
    } else {
        let inner = s.drop_first();
        let end = first_index(inner, '\'');
        if end < inner.len() {
            Some((inner.take(end), inner.skip(end + 1)))
        } else {
            None
        }
    }
}

/// The name in the target `#N 'NAME'`; `#N` has none.
pub open spec fn target_name(target: Seq<char>) -> Option<Seq<char>> {
    let space = first_index(target, ' ');
    if space < target.len() {
        match quoted(trim_start(target.skip(space + 1))) {
            Some((name, _)) => Some(name),
            None => None,
        }
    } else {
        None
    }
}

/// What a line says of a sink, with the event and the text after the word.
pub open spec fn sink_event(line: Seq<char>, event: Seq<char>, after: Seq<char>) -> EventView {
    let target = trim_start(after);
    if !("#"@.is_prefix_of(target)) {
        EventView::Unclassified { line }
    } else {
        let name = target_name(target);
        if event == "new"@ {
            EventView::SinkAdded { name }
        } else if event == "remove"@ {
            EventView::SinkRemoved { name }
        } else if event == "change"@ {
            EventView::SinkChanged { name }
        } else {
            EventView::Unclassified { line }
        }
    }
}

/// What a line says of the server.
pub open spec fn server_event(line: Seq<char>, event: Seq<char>) -> EventView {
    if event == "change"@ || event == "new"@ {
        EventView::DefaultSinkChanged { name: None }
    } else {
        EventView::Unclassified { line }
    }
}

/// What a line says of a sound card: its sinks may have changed.
pub open spec fn card_event(line: Seq<char>, event: Seq<char>) -> EventView {
    if event == "new"@ || event == "remove"@ || event == "change"@ {
        EventView::SinkChanged { name: None }
    } else {
        EventView::Unclassified { line }
    }
}

/// What the line says, given the event and what it happened to.
pub open spec fn event_on(line: Seq<char>, event: Seq<char>, on: Seq<char>) -> EventView {
    match strip_prefix(on, "sink "@) {
        Some(after) => sink_event(line, event, after),
        None => if "server"@.is_prefix_of(on) {
            server_event(line, event)
        } else {
            match strip_prefix(on, "card "@) {
                Some(after) => if "#"@.is_prefix_of(trim_start(after)) {
                    card_event(line, event)
                } else {
                    EventView::Unclassified { line }
                },
                None => EventView::Unclassified { line },
            }
        },
    }
}

/// What a line of `pactl subscribe` says: `Event 'EVENT' on TARGET`.
pub open spec fn subscribe_event(text: Seq<char>) -> Option<EventView> {
    let line = trim(text);
    match strip_prefix(line, "Event "@) {
        None => None,
        Some(after) => match quoted(after) {
            None => None,
            Some((event, rest)) => match strip_prefix(trim_start(rest), "on "@) {
                None => None,
                Some(on) => Some(event_on(line, event, trim_start(on))),
            },
        },
    }
}

/// The text between the quote that `s` starts with and the next one, and what
/// follows that.
pub fn quoted_field(s: &str) -> (r: Option<(String, String)>)
    ensures
        match r {
            Some((field, rest)) => quoted(s@) == Some((field@, rest@)),
            None => quoted(s@) is None,
        },
{
    let chars = to_chars(s);
    let n = chars.len();
    if n == 0 || chars[0] != '\'' {
        return None;
    }
    let end = find_char(&chars, 1, n, '\'');
    assert(chars@.subrange(1, n as int) =~= s@.drop_first());
    if end < n {
        let field = s.substring_char(1, end).to_owned();
        let rest = s.substring_char(end + 1, n).to_owned();
        assert(field@ =~= s@.drop_first().take(end - 1));
        assert(rest@ =~= s@.drop_first().skip(end as int));
        Some((field, rest))
    } else {
        None
    }
}

/// The name in the target `#N 'NAME'`.
fn name_in_target(target: &str) -> (r: Option<String>)
    ensures
        crate::error::text_of(r) == target_name(target@),
{
    let chars = to_chars(target);
    let n = chars.len();
    let space = find_char(&chars, 0, n, ' ');
    assert(chars@.subrange(0, n as int) =~= target@);
    if space < n {
        let tail = target.substring_char(space + 1, n);
        assert(tail@ =~= target@.skip(space + 1));
        let tail = trimmed_start(tail);
        match quoted_field(tail.as_str()) {
            Some((name, _)) => Some(name),
            None => None,
        }
    } else {
        None
    }
}

/// What a line of `pactl subscribe` says. PulseAudio names the sink; PipeWire
/// does not, and reports some changes only as changes of a card.
pub fn parse_subscribe_line(text: &str) -> (r: Option<SubscribeEvent>)
    ensures
        match r {
            Some(ev) => subscribe_event(text@) == Some(ev@),
            None => subscribe_event(text@) is None,
        },
{
    let line = trimmed(text);
    let after = match prefix_stripped(line.as_str(), "Event ") {
        Some(after) => after,
        None => {
            return None;
        },
    };
    let (event, rest) = match quoted_field(after.as_str()) {
        Some(found) => found,
        None => {
            return None;
        },
    };
    let rest = trimmed_start(rest.as_str());
    let on = match prefix_stripped(rest.as_str(), "on ") {
        Some(on) => trimmed_start(on.as_str()),
        None => {
            return None;
        },
    };
    let is_new = same_text(event.as_str(), "new");
    let is_removal = same_text(event.as_str(), "remove");
    let is_change = same_text(event.as_str(), "change");
    if let Some(after) = prefix_stripped(on.as_str(), "sink ") {
        let target = trimmed_start(after.as_str());
        if !text_starts_with(target.as_str(), "#") {
            return Some(SubscribeEvent::Unclassified { line });
        }
        let name = name_in_target(target.as_str());
        if is_new {
            return Some(SubscribeEvent::SinkAdded { name });
        }
        if is_removal {
            return Some(SubscribeEvent::SinkRemoved { name });
        }
        if is_change {
            return Some(SubscribeEvent::SinkChanged { name });
        }
        return Some(SubscribeEvent::Unclassified { line });
    }
    if text_starts_with(on.as_str(), "server") {
        if is_change || is_new {
            return Some(SubscribeEvent::DefaultSinkChanged { name: None });
        }
        return Some(SubscribeEvent::Unclassified { line });
    }
    if let Some(after) = prefix_stripped(on.as_str(), "card ") {
        let target = trimmed_start(after.as_str());
        if text_starts_with(target.as_str(), "#") {
            if is_new || is_removal || is_change {
                return Some(SubscribeEvent::SinkChanged { name: None });
            }
        }
    }
    Some(SubscribeEvent::Unclassified { line })
}

/// The volume that is full volume.
pub const PA_VOLUME_NORM: i64 = 65_536;

/// One sink as `pactl` lists it.
#[derive(Debug)]
pub struct PactlSink {
    pub name: String,
    pub description: Option<String>,
    /// The volume of each channel that has one.
    pub volume: Option<Vec<Option<i64>>>,
    pub mute: Option<bool>,
}

/// The volume of the loudest channel.
pub open spec fn loudest(channels: Seq<Option<i64>>) -> Option<i64>
    decreases channels.len(),
{
    if channels.len() == 0 {
        None
    } else {
        match (loudest(channels.drop_last()), channels.last()) {
            (Some(a), Some(b)) => Some(
                if a >= b {
                    a
                } else {
                    b
                },
            ),
            (Some(a), None) => Some(a),
            (None, b) => b,
        }
    }
}

/// The one volume that stands for a sink: that of its loudest channel, and zero
/// where none is known.
pub open spec fn sink_volume(channels: Option<Seq<Option<i64>>>) -> i64 {
    match channels {
        Some(c) => match loudest(c) {
            Some(v) => v,
            None => 0,
        },
        None => 0,
    }
}

/// The volumes of channels, where they are listed.
pub open spec fn channel_volumes(volume: Option<Vec<Option<i64>>>) -> Option<Seq<Option<i64>>> {
    match volume {
        Some(v) => Some(v@),
        None => None,
    }
}

impl PactlSink {
    /// The sink as it is told to others. Whether it is the default output is not
    /// said by its own entry.
    pub fn to_state(&self, max_volume: i64) -> (r: LocalSinkState)
        ensures
            r.name == self.name,
            r.description == self.description,
            r.volume == Some(sink_volume(channel_volumes(self.volume))),
            r.max_volume == Some(max_volume),
            r.muted == self.mute,
            r.enabled == None::<bool>,
    {
        let volume: i64 = match &self.volume {
            Some(channels) => {
                let mut best: Option<i64> = None;
                let mut i: usize = 0;
                assert(channels@.take(0) =~= Seq::<Option<i64>>::empty());
                while i < channels.len()
                    invariant
                        i <= channels@.len(),
                        best == loudest(channels@.take(i as int)),
                    decreases channels@.len() - i,
                {
                    assert(channels@.take(i + 1).drop_last() =~= channels@.take(i as int));
                    match (best, channels[i]) {
                        (Some(a), Some(b)) => {
                            if b > a {
                                best = Some(b);
                            }
                        },
                        (None, b) => {
                            best = b;
                        },
                        _ => {},
                    }
                    i = i + 1;
                }
                assert(channels@.take(i as int) =~= channels@);
                match best {
                    Some(v) => v,
                    None => 0,
                }
            },
            None => 0,
        };
        LocalSinkState {
            name: self.name.clone(),
            description: copy_text(&self.description),
            volume: Some(volume),
            max_volume: Some(max_volume),
            muted: self.mute,
            enabled: None,
        }
    }
}

/// A sink that is the default output exactly where its name is `default`.
pub open spec fn marked(sink: LocalSinkState, default: Seq<char>) -> LocalSinkState {
    LocalSinkState { enabled: Some(sink.name@ == default), ..sink }
}

/// Marks the sink of the default's name as the default output, and every other
/// as not. Where the default is not known nothing is marked.
pub fn mark_default(states: &mut Vec<LocalSinkState>, default: Option<&str>)
    ensures
        match default {
            None => final(states)@ == old(states)@,
            Some(d) => final(states)@ == old(states)@.map_values(
                |s: LocalSinkState| marked(s, d@),
            ),
        },
{
    let name = match default {
        Some(name) => name,
        None => {
            return;
        },
    };
    let ghost before = states@;
    let mut i: usize = 0;
    while i < states.len()
        invariant
            i <= states@.len(),
            states@.len() == before.len(),
            forall|j: int| 0 <= j < i ==> states@[j] == marked(before[j], name@),
            forall|j: int| i <= j < before.len() ==> states@[j] == before[j],
        decreases before.len() - i,
    {
        let mut sink = states[i].clone();
        sink.enabled = Some(same_text(sink.name.as_str(), name));
        states.set(i, sink);
        i = i + 1;
    }
    assert(states@ =~= before.map_values(|s: LocalSinkState| marked(s, name@)));
}

/// The name of the default output, as `pactl get-default-sink` prints it.
pub fn default_sink_name(output: &str) -> (r: Option<String>)
    ensures
        match r {
            Some(name) => name@ == trim(output@) && name@.len() > 0,
            None => trim(output@).len() == 0,
        },
{
    let name = trimmed(output);
    if name.as_str().unicode_len() == 0 {
        None
    } else {
        Some(name)
    }
}

/// `state` is what `sink` is told to others as, given the default output.
pub open spec fn is_state_of(
    state: LocalSinkState,
    sink: PactlSink,
    max_volume: i64,
    default: Option<Seq<char>>,
) -> bool {
    &&& state.name == sink.name
    &&& state.description == sink.description
    &&& state.volume == Some(sink_volume(channel_volumes(sink.volume)))
    &&& state.max_volume == Some(max_volume)
    &&& state.muted == sink.mute
    &&& state.enabled == match default {
        Some(d) => Some(sink.name@ == d),
        None => None,
    }
}

/// The sinks that `pactl` lists, as they are told to others.
pub fn list_sinks(sinks: &Vec<PactlSink>, max_volume: i64, default: Option<&str>) -> (r: Vec<
    LocalSinkState,
>)
    ensures
        r@.len() == sinks@.len(),
        forall|i: int|
            0 <= i < r@.len() ==> is_state_of(
                #[trigger] r@[i],
                sinks@[i],
                max_volume,
                maybe_text(default),
            ),
{
    let mut out: Vec<LocalSinkState> = Vec::new();
    let mut i: usize = 0;
    while i < sinks.len()
        invariant
            i <= sinks@.len(),
            out@.len() == i,
            forall|j: int|
                0 <= j < i ==> is_state_of(#[trigger] out@[j], sinks@[j], max_volume, None),
        decreases sinks@.len() - i,
    {
        out.push(sinks[i].to_state(max_volume));
        i = i + 1;
    }
    let ghost plain = out@;
    mark_default(&mut out, default);
    assert forall|j: int| 0 <= j < out@.len() implies is_state_of(
        #[trigger] out@[j],
        sinks@[j],
        max_volume,
        maybe_text(default),
    ) by {
        assert(is_state_of(plain[j], sinks@[j], max_volume, None));
    }
    out
}

/// A change that the sound server is asked for.
#[derive(Debug)]
pub enum BackendOp {
    SetVolume { name: String, volume: i64 },
    SetMuted { name: String, muted: bool },
    /// Make the sink the default output, or not.
    SetDefault { name: String, enabled: bool },
}

/// A change, by its texts.
pub enum OpView {
    SetVolume { name: Seq<char>, volume: i64 },
    SetMuted { name: Seq<char>, muted: bool },
    SetDefault { name: Seq<char>, enabled: bool },
}

impl View for BackendOp {
    type V = OpView;

    open spec fn view(&self) -> OpView {
        match self {
            BackendOp::SetVolume { name, volume } => OpView::SetVolume {
                name: name@,
                volume: *volume,
            },
            BackendOp::SetMuted { name, muted } => OpView::SetMuted { name: name@, muted: *muted },
            BackendOp::SetDefault { name, enabled } => OpView::SetDefault {
                name: name@,
                enabled: *enabled,
            },
        }
    }
}

/// The arguments of the `pactl` call that makes a change; none where there is
/// nothing to call: there is always a default output, so none can be unset.
pub open spec fn pactl_call(op: OpView) -> Option<Seq<Seq<char>>> {
    match op {
        OpView::SetVolume { name, volume } => Some(
            seq!["set-sink-volume"@, name, signed_decimal(volume as int)],
        ),
        OpView::SetMuted { name, muted } => Some(
            seq![
                "set-sink-mute"@,
                name,
                if muted {
                    "1"@
                } else {
                    "0"@
                },
            ],
        ),
        OpView::SetDefault { name, enabled } => if enabled {
            Some(seq!["set-default-sink"@, name])
        } else {
            None
        },
    }
}

/// The call of a mute request has exactly three arguments: `set-sink-mute`, the
/// sink's name and a flag, which is the text 1 if and only if the request is to
/// mute, and the text 0 if and only if it is to unmute.
pub proof fn law_mute_flag_says_whether_to_mute(name: Seq<char>, muted: bool)
    ensures
        pactl_call(OpView::SetMuted { name, muted }) matches Some(args) && {
            &&& args.len() == 3
            &&& args[0] == "set-sink-mute"@
            &&& args[1] == name
            &&& args[2] == "1"@ <==> muted
            &&& args[2] == "0"@ <==> !muted
        },
{
    reveal_strlit("1");
    reveal_strlit("0");
    assert("1"@[0] == '1');
    assert("0"@[0] == '0');
}

/// The call of a volume request has exactly three arguments:
/// `set-sink-volume`, the sink's name and the volume in decimal, so that two
/// requests make the same call only where they ask for the same volume of the
/// same sink.
pub proof fn law_volume_call_names_sink_and_volume(name: Seq<char>, volume: i64)
    ensures
        pactl_call(OpView::SetVolume { name, volume }) matches Some(args) && {
            &&& args.len() == 3
            &&& args[0] == "set-sink-volume"@
            &&& args[1] == name
            &&& args[2] == signed_decimal(volume as int)
        },
{
}

/// A default output can be set and not unset: to set one calls
/// `set-default-sink` with the sink's name and nothing else.
pub proof fn law_default_is_only_ever_set(name: Seq<char>, enabled: bool)
    ensures
        match pactl_call(OpView::SetDefault { name, enabled }) {
            Some(args) => enabled && args.len() == 2 && args[0] == "set-default-sink"@ && args[1]
                == name,
            None => !enabled,
        },
{
}

/// The arguments of the `pactl` call that makes a change.
pub fn pactl_args(op: &BackendOp) -> (r: Option<Vec<String>>)
    ensures
        match r {
            Some(args) => pactl_call(op@) == Some(texts(args@)),
            None => pactl_call(op@) is None,
        },
{
    let mut args: Vec<String> = Vec::new();
    match op {
        BackendOp::SetVolume { name, volume } => {
            args.push("set-sink-volume".to_owned());
            args.push(name.clone());
            args.push(signed_decimal_text(*volume));
            assert(texts(args@) =~= pactl_call(op@)->0);
        },
        BackendOp::SetMuted { name, muted } => {
            args.push("set-sink-mute".to_owned());
            args.push(name.clone());
            if *muted {
                args.push("1".to_owned());
            } else {
                args.push("0".to_owned());
            }
            assert(texts(args@) =~= pactl_call(op@)->0);
        },
        BackendOp::SetDefault { name, enabled } => {
            if !*enabled {
                return None;
            }
            args.push("set-default-sink".to_owned());
            args.push(name.clone());
            assert(texts(args@) =~= pactl_call(op@)->0);
        },
    }
    Some(args)
}

/// An exit status as it is shown.
pub open spec fn status_text(code: Option<i32>) -> Seq<char> {
    match code {
        Some(c) => "Some("@ + signed_decimal(c as int) + ")"@,
        None => "None"@,
    }
}

/// What is said when `pactl` failed.
pub fn pactl_failed(args: &str, code: Option<i32>, stderr: &str) -> (r: Error)
    ensures
        r@ == (ErrorView::Io {
            message: "pactl "@ + args@ + " exited with status "@ + status_text(code) + (": "@
                + trim(stderr@)),
            path: None,
        }),
{
    let status = match code {
        Some(c) => {
            let number = signed_decimal_text(c as i64);
            join3("Some(", number.as_str(), ")")
        },
        None => "None".to_owned(),
    };
    let cause = trimmed(stderr);
    let tail = join2(": ", cause.as_str());
    Error::Io {
        message: join5(
            "pactl ",
            args,
            " exited with status ",
            status.as_str(),
            tail.as_str(),
        ),
        path: None,
    }
}

/// A sound server that only records what it is asked for.
#[derive(Debug)]
pub struct MockBackend {
    pub sinks: Vec<LocalSinkState>,
    pub default_name: Option<String>,
    /// Every change that it made, in words and in order.
    pub calls: Vec<String>,
    pub available: bool,
    /// Whether it refuses to be watched.
    pub force_subscribe_error: bool,
    /// What happened since it is being watched.
    pub events: Option<Vec<SubscribeEvent>>,
}

/// A recording sound server by its contents.
#[verifier::ext_equal]
pub struct MockView {
    pub sinks: Seq<LocalSinkState>,
    pub default_name: Option<Seq<char>>,
    pub calls: Seq<Seq<char>>,
    pub available: bool,
    pub force_subscribe_error: bool,
    pub events: Option<Seq<EventView>>,
}

/// Events by their contents.
pub open spec fn event_views(events: Seq<SubscribeEvent>) -> Seq<EventView> {
    events.map_values(|e: SubscribeEvent| e@)
}

impl View for MockBackend {
    type V = MockView;

    open spec fn view(&self) -> MockView {
        MockView {
            sinks: self.sinks@,
            default_name: crate::error::text_of(self.default_name),
            calls: texts(self.calls@),
            available: self.available,
            force_subscribe_error: self.force_subscribe_error,
            events: match self.events {
                Some(events) => Some(event_views(events@)),
                None => None,
            },
        }
    }
}

/// A truth value in words.
pub open spec fn bool_text(b: bool) -> Seq<char> {
    if b {
        "true"@
    } else {
        "false"@
    }
}

/// A change in words.
pub open spec fn call_text(op: OpView) -> Seq<char> {
    match op {
        OpView::SetVolume { name, volume } => "set_volume:"@ + name + ":"@ + signed_decimal(
            volume as int,
        ),
        OpView::SetMuted { name, muted } => "set_muted:"@ + name + ":"@ + bool_text(muted),
        OpView::SetDefault { name, enabled } => "set_default:"@ + name + ":"@ + bool_text(enabled),
    }
}

/// A truth value in words.
fn bool_word(b: bool) -> (r: &'static str)
    ensures
        r@ == bool_text(b),
{
    if b {
        "true"
    } else {
        "false"
    }
}

/// A sink after a change to the sink `name`.
pub open spec fn changed(sink: LocalSinkState, op: OpView) -> LocalSinkState {
    match op {
        OpView::SetVolume { name, volume } => if sink.name@ == name {
            LocalSinkState { volume: Some(volume), ..sink }
        } else {
            sink
        },
        OpView::SetMuted { name, muted } => if sink.name@ == name {
            LocalSinkState { muted: Some(muted), ..sink }
        } else {
            sink
        },
        OpView::SetDefault { .. } => sink,
    }
}

/// Whether there is a sink of that name.
pub open spec fn has_sink(sinks: Seq<LocalSinkState>, name: Seq<char>) -> bool {
    exists|i: int| 0 <= i < sinks.len() && (#[trigger] sinks[i]).name@ == name
}

/// The name of the sink that a change is for.
pub open spec fn op_name(op: OpView) -> Seq<char> {
    match op {
        OpView::SetVolume { name, .. } => name,
        OpView::SetMuted { name, .. } => name,
        OpView::SetDefault { name, .. } => name,
    }
}

/// The default output after a change: unsetting one that is not the default
/// does nothing.
pub open spec fn default_after(default: Option<Seq<char>>, op: OpView) -> Option<Seq<char>> {
    match op {
        OpView::SetDefault { name, enabled } => if enabled {
            Some(name)
        } else if default == Some(name) {
            None
        } else {
            default
        },
        _ => default,
    }
}

/// Whether a recording sound server can make a change: the volume of a sink that
/// is not there cannot be changed, nor its mute.
pub open spec fn can_make(mock: MockView, op: OpView) -> bool {
    op is SetDefault || has_sink(mock.sinks, op_name(op))
}

/// A recording sound server after a change.
pub open spec fn after_op(mock: MockView, op: OpView) -> MockView {
    MockView {
        sinks: mock.sinks.map_values(|s: LocalSinkState| changed(s, op)),
        default_name: default_after(mock.default_name, op),
        calls: mock.calls.push(call_text(op)),
        ..mock
    }
}

/// The outcome of asking a recording sound server for a change.
pub open spec fn mock_outcome(
    before: MockView,
    after: MockView,
    op: OpView,
    r: Result<(), Error>,
) -> bool {
    match r {
        Ok(_) => can_make(before, op) && after == after_op(before, op),
        Err(e) => !can_make(before, op) && after == before && e@ == (ErrorView::NotFound {
            resource: "sink"@,
            id: Some(op_name(op)),
        }),
    }
}

impl MockBackend {
    /// A sound server without sinks.
    pub fn new() -> (r: Self)
        ensures
            r@ == (MockView {
                sinks: Seq::empty(),
                default_name: None,
                calls: Seq::empty(),
                available: true,
                force_subscribe_error: false,
                events: None,
            }),
    {
        let r = MockBackend {
            sinks: Vec::new(),
            default_name: None,
            calls: Vec::new(),
            available: true,
            force_subscribe_error: false,
            events: None,
        };
        assert(r@.calls =~= Seq::<Seq<char>>::empty());
        r
    }

    /// The same with sinks.
    pub fn with_sinks(self, sinks: Vec<LocalSinkState>) -> (r: Self)
        ensures
            r@ == (MockView { sinks: sinks@, ..self@ }),
    {
        MockBackend { sinks, ..self }
    }

    /// The same with a default output.
    pub fn with_default(self, name: &str) -> (r: Self)
        ensures
            r@ == (MockView { default_name: Some(name@), ..self@ }),
    {
        MockBackend { default_name: Some(name.to_owned()), ..self }
    }

    /// Its name.
    pub fn name(&self) -> (r: &'static str)
        ensures
            r@ == "mock"@,
    {
        "mock"
    }

    /// Lets it answer, or not.
    pub fn set_available(&mut self, available: bool)
        ensures
            final(self)@ == (MockView { available, ..old(self)@ }),
    {
        self.available = available;
    }

    /// Whether it answers.
    pub fn is_available(&self) -> (r: bool)
        ensures
            r == self@.available,
    {
        self.available
    }

    /// Every change that it made, in words and in order.
    pub fn calls(&self) -> (r: Vec<String>)
        ensures
            texts(r@) == self@.calls,
    {
        crate::packet::copy_texts(&self.calls)
    }

    /// Begins to be watched.
    pub fn start_subscribe(&mut self) -> (r: Result<(), Error>)
        ensures
            match r {
                Ok(_) => !old(self)@.force_subscribe_error && final(self)@ == (MockView {
                    events: Some(Seq::empty()),
                    ..old(self)@
                }),
                Err(e) => old(self)@.force_subscribe_error && final(self)@ == old(self)@ && e@ == (
                ErrorView::Io { message: "mock subscribe start failed"@, path: None }),
            },
    {
        if self.force_subscribe_error {
            return Err(
                Error::Io { message: "mock subscribe start failed".to_owned(), path: None },
            );
        }
        let none: Vec<SubscribeEvent> = Vec::new();
        assert(event_views(none@) =~= Seq::<EventView>::empty());
        self.events = Some(none);
        Ok(())
    }

    /// Lets something happen, which is noticed where it is being watched.
    pub fn push_event(&mut self, event: SubscribeEvent)
        ensures
            final(self)@ == (MockView {
                events: match old(self)@.events {
                    Some(events) => Some(events.push(event@)),
                    None => None,
                },
                ..old(self)@
            }),
    {
        if let Some(events) = &mut self.events {
            let ghost before = events@;
            events.push(event);
            assert(event_views(events@) =~= event_views(before).push(event@));
        }
    }

    /// Its sinks, each marked as the default output or not.
    pub fn list_sinks(&self) -> (r: Result<Vec<LocalSinkState>, Error>)
        ensures
            match r {
                Err(e) => !self@.available && e@ == (ErrorView::Io {
                    message: "mock backend unavailable"@,
                    path: None,
                }),
                Ok(list) => self@.available && list@ == self@.sinks.map_values(
                    |s: LocalSinkState|
                        LocalSinkState { enabled: Some(self@.default_name == Some(s.name@)), ..s },
                ),
            },
    {
        if !self.available {
            return Err(
                Error::Io { message: "mock backend unavailable".to_owned(), path: None },
            );
        }
        let mut out: Vec<LocalSinkState> = Vec::new();
        let mut i: usize = 0;
        while i < self.sinks.len()
            invariant
                i <= self.sinks@.len(),
                out@.len() == i,
                forall|j: int|
                    0 <= j < i ==> #[trigger] out@[j] == (LocalSinkState {
                        enabled: Some(self@.default_name == Some(self.sinks@[j].name@)),
                        ..self.sinks@[j]
                    }),
            decreases self.sinks@.len() - i,
        {
            let mut sink = self.sinks[i].clone();
            let is_default = match &self.default_name {
                Some(name) => same_text(name.as_str(), sink.name.as_str()),
                None => false,
            };
            sink.enabled = Some(is_default);
            out.push(sink);
            i = i + 1;
        }
        assert(out@ =~= self@.sinks.map_values(
            |s: LocalSinkState|
                LocalSinkState { enabled: Some(self@.default_name == Some(s.name@)), ..s },
        ));
        Ok(out)
    }

    /// Makes a change to every sink of that name, and says whether there was one.
    fn change(&mut self, name: &str, volume: Option<i64>, muted: Option<bool>) -> (r: bool)
        ensures
            r == has_sink(old(self).sinks@, name@),
            !r ==> *final(self) == *old(self),
            final(self).sinks@.len() == old(self).sinks@.len(),
            forall|j: int|
                0 <= j < old(self).sinks@.len() ==> #[trigger] final(self).sinks@[j] == with_change(
                    old(self).sinks@[j],
                    name@,
                    volume,
                    muted,
                ),
            *final(self) == (MockBackend { sinks: final(self).sinks, ..*old(self) }),
    {
        let ghost before = self.sinks@;
        let mut found = false;
        let mut i: usize = 0;
        while i < self.sinks.len()
            invariant
                i <= self.sinks@.len(),
                self.sinks@.len() == before.len(),
                before == old(self).sinks@,
                found == (exists|j: int| 0 <= j < i && (#[trigger] before[j]).name@ == name@),
                !found ==> *self == *old(self),
                *self == (MockBackend { sinks: self.sinks, ..*old(self) }),
                forall|j: int|
                    0 <= j < i ==> #[trigger] self.sinks@[j] == with_change(
                        before[j],
                        name@,
                        volume,
                        muted,
                    ),
                forall|j: int| i <= j < before.len() ==> self.sinks@[j] == before[j],
            decreases before.len() - i,
        {
            if same_text(self.sinks[i].name.as_str(), name) {
                let mut sink = self.sinks[i].clone();
                if volume.is_some() {
                    sink.volume = volume;
                }
                if muted.is_some() {
                    sink.muted = muted;
                }
                self.sinks.set(i, sink);
                found = true;
                assert(before[i as int].name@ == name@);
            }
            i = i + 1;
        }
        found
    }

    /// Changes the volume of a sink.
    pub fn set_volume(&mut self, name: &str, volume: i64) -> (r: Result<(), Error>)
        ensures
            mock_outcome(old(self)@, final(self)@, OpView::SetVolume { name: name@, volume }, r),
    {
        if !self.change(name, Some(volume), None) {
            return Err(
                Error::NotFound { resource: "sink".to_owned(), id: Some(name.to_owned()) },
            );
        }
        let number = signed_decimal_text(volume);
        self.record(join4("set_volume:", name, ":", number.as_str()));
        assert(self@ =~= after_op(old(self)@, OpView::SetVolume { name: name@, volume }));
        Ok(())
    }

    /// Mutes a sink, or unmutes it.
    pub fn set_muted(&mut self, name: &str, muted: bool) -> (r: Result<(), Error>)
        ensures
            mock_outcome(old(self)@, final(self)@, OpView::SetMuted { name: name@, muted }, r),
    {
        if !self.change(name, None, Some(muted)) {
            return Err(
                Error::NotFound { resource: "sink".to_owned(), id: Some(name.to_owned()) },
            );
        }
        self.record(join4("set_muted:", name, ":", bool_word(muted)));
        assert(self@ =~= after_op(old(self)@, OpView::SetMuted { name: name@, muted }));
        Ok(())
    }

    /// Makes a sink the default output, or no longer so.
    pub fn set_default(&mut self, name: &str, enabled: bool) -> (r: Result<(), Error>)
        ensures
            mock_outcome(old(self)@, final(self)@, OpView::SetDefault { name: name@, enabled }, r),
    {
        if enabled {
            self.default_name = Some(name.to_owned());
        } else {
            let is_default = match &self.default_name {
                Some(current) => same_text(current.as_str(), name),
                None => false,
            };
            if is_default {
                self.default_name = None;
            }
        }
        self.record(join4("set_default:", name, ":", bool_word(enabled)));
        assert(self@ =~= after_op(old(self)@, OpView::SetDefault { name: name@, enabled }));
        Ok(())
    }

    /// Notes a change that was made.
    fn record(&mut self, call: String)
        ensures
            final(self)@ == (MockView { calls: old(self)@.calls.push(call@), ..old(self)@ }),
            final(self).sinks == old(self).sinks,
    {
        self.calls.push(call);
        assert(self@.calls =~= old(self)@.calls.push(call@));
    }

    /// Makes a change.
    pub fn apply(&mut self, op: &BackendOp) -> (r: Result<(), Error>)
        ensures
            mock_outcome(old(self)@, final(self)@, op@, r),
    {
        match op {
            BackendOp::SetVolume { name, volume } => self.set_volume(name.as_str(), *volume),
            BackendOp::SetMuted { name, muted } => self.set_muted(name.as_str(), *muted),
            BackendOp::SetDefault { name, enabled } => self.set_default(name.as_str(), *enabled),
        }
    }
}

/// A sink after a change of its volume or its mute, where it is the sink `name`.
pub open spec fn with_change(
    sink: LocalSinkState,
    name: Seq<char>,
    volume: Option<i64>,
    muted: Option<bool>,
) -> LocalSinkState {
    if sink.name@ == name {
        LocalSinkState {
            volume: if volume is Some {
                volume
            } else {
                sink.volume
            },
            muted: if muted is Some {
                muted
            } else {
                sink.muted
            },
            ..sink
        }
    } else {
        sink
    }
}

} // verus!
