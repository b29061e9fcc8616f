//! Calls that a phone reports, and the request to mute one.

use vstd::prelude::*;

use crate::error::{text_of, Error, ErrorView};
use crate::packet::{copy_text, field, packet_with, Packet, PacketView, Value, ValueView};
use crate::table::{texts, Table};
use crate::text::{eq_ignoring_ascii_case, join2, same_ignoring_ascii_case};

verus! {

/// The packets that report calls.
pub const TELEPHONY_PACKET: &'static str = "kdeconnect.telephony";

/// The packets that ask a phone to mute a ringing call.
pub const MUTE_REQUEST_PACKET_TYPE: &'static str = "kdeconnect.telephony.request_mute";

/// How many calls of one device are kept; the oldest leave first.
pub const MAX_CALLS_PER_DEVICE: usize = 100;

/// One call event as a phone reports it.
#[derive(Debug)]
pub struct TelephonyInfo {
    /// Such as `ringing`, `talking` or `missedCall`.
    pub event: String,
    pub phone_number: Option<String>,
    pub contact_name: Option<String>,
    /// The picture of the caller, a JPEG in base64.
    pub phone_thumbnail: Option<String>,
    /// Whether the report ends the call that it names.
    pub is_cancel: bool,
}

/// A call event by its contents.
pub struct CallView {
    pub event: Seq<char>,
    pub phone_number: Option<Seq<char>>,
    pub contact_name: Option<Seq<char>>,
    pub phone_thumbnail: Option<Seq<char>>,
    pub is_cancel: bool,
}

impl View for TelephonyInfo {
    type V = CallView;

    open spec fn view(&self) -> CallView {
        CallView {
            event: self.event@,
            phone_number: text_of(self.phone_number),
            contact_name: text_of(self.contact_name),
            phone_thumbnail: text_of(self.phone_thumbnail),
            is_cancel: self.is_cancel,
        }
    }
}

impl Clone for TelephonyInfo {
    fn clone(&self) -> (r: Self)
        ensures
            r == *self,
    {
        TelephonyInfo {
            event: self.event.clone(),
            phone_number: copy_text(&self.phone_number),
            contact_name: copy_text(&self.contact_name),
            phone_thumbnail: copy_text(&self.phone_thumbnail),
            is_cancel: self.is_cancel,
        }
    }
}

/// Whether a value says that a call ended: phones send the text `true`, and
/// newer ones a boolean.
pub open spec fn is_cancel(value: ValueView) -> bool {
    match value {
        ValueView::Bool(b) => b,
        ValueView::Text(t) => same_ignoring_ascii_case(t, "true"@),
        _ => false,
    }
}

/// Whether a value says that a call ended.
pub fn is_cancel_value(value: &Value) -> (r: bool)
    ensures
        r == is_cancel(value@),
{
    match value {
        Value::Bool(b) => *b,
        Value::Text(t) => eq_ignoring_ascii_case(t.as_str(), "true"),
        _ => false,
    }
}

/// Whether a field that may be missing is text, null or not there.
pub open spec fn is_text_or_missing(value: Option<ValueView>) -> bool {
    match value {
        None => true,
        Some(ValueView::Null) => true,
        Some(ValueView::Text(_)) => true,
        _ => false,
    }
}

/// The call event that a packet reports: `event` must be text, and the fields
/// that may be missing must be text where they are there.
pub open spec fn reported_call(p: PacketView) -> Option<CallView> {
    if p.text_field("event"@) is Some && is_text_or_missing(field(p.body, "phoneNumber"@))
        && is_text_or_missing(field(p.body, "contactName"@)) && is_text_or_missing(
        field(p.body, "phoneThumbnail"@),
    ) {
        Some(
            CallView {
                event: p.text_field("event"@)->0,
                phone_number: p.text_field("phoneNumber"@),
                contact_name: p.text_field("contactName"@),
                phone_thumbnail: p.text_field("phoneThumbnail"@),
                is_cancel: match field(p.body, "isCancel"@) {
                    Some(v) => is_cancel(v),
                    None => false,
                },
            },
        )
    } else {
        None
    }
}

/// A field that may be missing: `None` where it is neither text nor missing.
fn optional_text(packet: &Packet, key: &str) -> (r: Option<Option<String>>)
    ensures
        match r {
            Some(t) => is_text_or_missing(field(packet@.body, key@)) && text_of(t)
                == packet@.text_field(key@),
            None => !is_text_or_missing(field(packet@.body, key@)),
        },
{
    match packet.get(key) {
        None => Some(None),
        Some(Value::Null) => Some(None),
        Some(Value::Text(t)) => Some(Some(t.clone())),
        Some(_) => None,
    }
}

impl TelephonyInfo {
    /// The call event that a packet reports, if it reports one.
    pub fn from_packet(packet: &Packet) -> (r: Option<TelephonyInfo>)
        ensures
            match r {
                Some(info) => reported_call(packet@) == Some(info@),
                None => reported_call(packet@) is None,
            },
    {
        let event = match packet.get_text("event") {
            Some(e) => e.clone(),
            None => return None,
        };
        let phone_number = match optional_text(packet, "phoneNumber") {
            Some(t) => t,
            None => return None,
        };
        let contact_name = match optional_text(packet, "contactName") {
            Some(t) => t,
            None => return None,
        };
        let phone_thumbnail = match optional_text(packet, "phoneThumbnail") {
            Some(t) => t,
            None => return None,
        };
        let is_cancel = match packet.get("isCancel") {
            Some(v) => is_cancel_value(v),
            None => false,
        };
        Some(TelephonyInfo { event, phone_number, contact_name, phone_thumbnail, is_cancel })
    }
}

/// A phone number as it may be written to a log: its last four characters.
pub open spec fn masked(number: Seq<char>) -> Seq<char> {
    if number.len() > 4 {
        "****"@ + number.skip(number.len() - 4)
    } else {
        number
    }
}

/// A phone number as it may be written to a log.
pub fn mask_number(number: &str) -> (r: String)
    ensures
        r@ == masked(number@),
{
    let count = number.unicode_len();
    if count > 4 {
        let tail = number.substring_char(count - 4, count);
        assert(tail@ =~= number@.skip(number@.len() - 4));
        join2("****", tail)
    } else {
        number.to_owned()
    }
}

/// The newest calls of a log.
pub open spec fn newest(log: Seq<CallView>) -> Seq<CallView> {
    if log.len() > MAX_CALLS_PER_DEVICE {
        log.skip(log.len() - MAX_CALLS_PER_DEVICE)
    } else {
        log
    }
}

/// The calls of a device.
pub open spec fn calls_of(calls: Map<Seq<char>, Seq<CallView>>, id: Seq<char>) -> Seq<CallView> {
    if calls.contains_key(id) {
        calls[id]
    } else {
        Seq::empty()
    }
}

/// The calls of all devices after a device reported one. A report that ends a
/// call repeats it, and is no new call.
pub open spec fn after_call(
    calls: Map<Seq<char>, Seq<CallView>>,
    id: Seq<char>,
    call: CallView,
) -> Map<Seq<char>, Seq<CallView>> {
    if call.is_cancel {
        calls
    } else {
        calls.insert(id, newest(calls_of(calls, id).push(call)))
    }
}

/// Calls by their contents.
pub open spec fn call_views(log: Seq<TelephonyInfo>) -> Seq<CallView> {
    log.map_values(|c: TelephonyInfo| c@)
}

/// The calls that devices reported.
pub struct TelephonyPlugin {
    calls: Table<Vec<TelephonyInfo>>,
}

impl View for TelephonyPlugin {
    type V = Map<Seq<char>, Seq<CallView>>;

    closed spec fn view(&self) -> Map<Seq<char>, Seq<CallView>> {
        self.calls@.map_values(|log: Vec<TelephonyInfo>| call_views(log@))
    }
}

impl TelephonyPlugin {
    /// No calls yet.
    pub fn new() -> (r: Self)
        ensures
            r@ == Map::<Seq<char>, Seq<CallView>>::empty(),
    {
        let r = TelephonyPlugin { calls: Table::new() };
        assert(r@ =~= Map::<Seq<char>, Seq<CallView>>::empty());
        r
    }

    /// The name of the plugin.
    pub fn name(&self) -> (r: String)
        ensures
            r@ == "telephony"@,
    {
        "telephony".to_owned()
    }

    /// The packet types that are taken.
    pub fn incoming_capabilities(&self) -> (r: Vec<String>)
        ensures
            texts(r@) == seq![TELEPHONY_PACKET@],
    {
        let r = vec![TELEPHONY_PACKET.to_owned()];
        assert(texts(r@) =~= seq![TELEPHONY_PACKET@]);
        r
    }

    /// The packet types that are sent.
    pub fn outgoing_capabilities(&self) -> (r: Vec<String>)
        ensures
            texts(r@) == seq![MUTE_REQUEST_PACKET_TYPE@],
    {
        let r = vec![MUTE_REQUEST_PACKET_TYPE.to_owned()];
        assert(texts(r@) =~= seq![MUTE_REQUEST_PACKET_TYPE@]);
        r
    }

    /// The packet that asks a phone to mute a ringing call.
    pub fn mute_request_packet() -> (r: Packet)
        ensures
            r@ == packet_with(MUTE_REQUEST_PACKET_TYPE@, "action"@, ValueView::Text("mute"@)),
    {
        Packet::with_field(MUTE_REQUEST_PACKET_TYPE, "action", Value::Text("mute".to_owned()))
    }

    /// The calls of a device, oldest first.
    pub fn get_calls(&self, device_id: &str) -> (r: Vec<TelephonyInfo>)
        ensures
            call_views(r@) == calls_of(self@, device_id@),
    {
        let mut out: Vec<TelephonyInfo> = Vec::new();
        match self.calls.get(device_id) {
            Some(log) => {
                let mut i: usize = 0;
                while i < log.len()
                    invariant
                        i <= log@.len(),
                        out@ == log@.take(i as int),
                    decreases log@.len() - i,
                {
                    out.push(log[i].clone());
                    assert(log@.take(i + 1) =~= log@.take(i as int).push(log@[i as int]));
                    i = i + 1;
                }
                assert(log@.take(i as int) =~= log@);
            },
            None => {
                assert(call_views(out@) =~= Seq::<CallView>::empty());
            },
        }
        out
    }

    /// Forgets the calls of a device.
    pub fn on_disconnected(&mut self, device_id: &str)
        ensures
            final(self)@ == old(self)@.remove(device_id@),
    {
        self.calls.remove(device_id);
        assert(self@ =~= old(self)@.remove(device_id@));
    }

    /// Records a call.
    fn record(&mut self, device_id: &str, info: TelephonyInfo)
        ensures
            final(self)@ == old(self)@.insert(
                device_id@,
                newest(calls_of(old(self)@, device_id@).push(info@)),
            ),
    {
        let mut log: Vec<TelephonyInfo> = match self.calls.remove(device_id) {
            Some(log) => log,
            None => Vec::new(),
        };
        assert(call_views(log@) =~= calls_of(old(self)@, device_id@));
        log.push(info);
        let ghost full = log@;
        assert(call_views(full) =~= calls_of(old(self)@, device_id@).push(info@));
        while log.len() > MAX_CALLS_PER_DEVICE
            invariant
                log@.len() <= full.len(),
                log@ == full.skip(full.len() - log@.len()),
                full.len() >= MAX_CALLS_PER_DEVICE ==> log@.len() >= MAX_CALLS_PER_DEVICE,
                full.len() < MAX_CALLS_PER_DEVICE ==> log@ == full,
            decreases log@.len(),
        {
            let ghost before = log@;
            log.remove(0);
            assert(log@ =~= full.skip(full.len() - log@.len()));
        }
        assert(call_views(log@) =~= newest(call_views(full)));
        self.calls.insert(device_id.to_owned(), log);
        assert(self@ =~= old(self)@.insert(device_id@, newest(call_views(full))));
    }

    /// Takes a report from a device, and gives the update that is passed on to
    /// everyone who is interested.
    pub fn handle_packet(&mut self, device_id: &str, packet: &Packet) -> (r: Result<
        TelephonyInfo,
        Error,
    >)
        ensures
            match reported_call(packet@) {
                Some(call) => r matches Ok(info) && info@ == call && final(self)@ == after_call(
                    old(self)@,
                    device_id@,
                    call,
                ),
                None => r matches Err(e) && e@ == ErrorView::DeserializationError(
                    "Invalid telephony packet body"@,
                ) && final(self)@ == old(self)@,
            },
    {
        match TelephonyInfo::from_packet(packet) {
            Some(info) => {
                if !info.is_cancel {
                    self.record(device_id, info.clone());
                }
                Ok(info)
            },
            None => Err(Error::DeserializationError("Invalid telephony packet body".to_owned())),
        }
    }
}

impl Default for TelephonyPlugin {
    fn default() -> (r: Self)
        ensures
            r@ == Map::<Seq<char>, Seq<CallView>>::empty(),
    {
        TelephonyPlugin::new()
    }
}

/// Whether no device has more calls than are kept.
pub open spec fn capped(calls: Map<Seq<char>, Seq<CallView>>) -> bool {
    forall|id: Seq<char>| #[trigger]
        calls.contains_key(id) ==> calls[id].len() <= MAX_CALLS_PER_DEVICE
}

/// However many calls a device reports, at most [`MAX_CALLS_PER_DEVICE`] of them
/// are kept; disconnecting keeps it that way.
pub proof fn law_call_logs_are_capped(
    calls: Map<Seq<char>, Seq<CallView>>,
    id: Seq<char>,
    call: CallView,
)
    requires
        capped(calls),
    ensures
        capped(Map::<Seq<char>, Seq<CallView>>::empty()),
        capped(after_call(calls, id, call)),
        capped(calls.remove(id)),
{
}

/// The newest call is always kept, and it comes last; the calls before it are
/// the newest ones of those before, in their order.
pub proof fn law_newest_call_is_kept(
    calls: Map<Seq<char>, Seq<CallView>>,
    id: Seq<char>,
    call: CallView,
)
    requires
        capped(calls),
        !call.is_cancel,
    ensures
        calls_of(after_call(calls, id, call), id).last() == call,
        calls_of(after_call(calls, id, call), id).drop_last() == (if calls_of(calls, id).len()
            == MAX_CALLS_PER_DEVICE {
            calls_of(calls, id).drop_first()
        } else {
            calls_of(calls, id)
        }),
{
    let log = calls_of(calls, id);
    assert(log.len() <= MAX_CALLS_PER_DEVICE);
    let after = calls_of(after_call(calls, id, call), id);
    assert(after == newest(log.push(call)));
    if log.len() == MAX_CALLS_PER_DEVICE {
        assert(after.drop_last() =~= log.drop_first());
    } else {
        assert(after.drop_last() =~= log);
    }
}

/// The end of a call adds nothing to any log.
pub proof fn law_cancel_appends_nothing(
    calls: Map<Seq<char>, Seq<CallView>>,
    id: Seq<char>,
    call: CallView,
)
    requires
        call.is_cancel,
    ensures
        after_call(calls, id, call) == calls,
{
}

/// What one device reports, and whether it leaves, does not touch the calls of
/// another.
pub proof fn law_devices_have_their_own_calls(
    calls: Map<Seq<char>, Seq<CallView>>,
    id: Seq<char>,
    other: Seq<char>,
    call: CallView,
)
    requires
        id != other,
    ensures
        calls_of(after_call(calls, id, call), other) == calls_of(calls, other),
        calls_of(calls.remove(id), other) == calls_of(calls, other),
        calls_of(calls.remove(id), id) == Seq::<CallView>::empty(),
{
}

/// A value ends a call if and only if it is the boolean `true` or the four
/// letters of `true` in any case.
pub proof fn law_calls_end_with_a_true_value(value: ValueView)
    ensures
        is_cancel(value) <==> match value {
            ValueView::Bool(b) => b,
            ValueView::Text(t) => t.len() == 4 && (t[0] == 't' || t[0] == 'T') && (t[1] == 'r'
                || t[1] == 'R') && (t[2] == 'u' || t[2] == 'U') && (t[3] == 'e' || t[3] == 'E'),
            _ => false,
        },
{
    reveal_strlit("true");
    if let ValueView::Text(t) = value {
        crate::text_laws::law_case_is_ignored_of_ascii_letters_only(t, "true"@);
        if is_cancel(value) {
            assert(t[0] == t[0] && t[1] == t[1] && t[2] == t[2] && t[3] == t[3]);
        }
    }
}

/// A packet reports a call if and only if its event is text and number, name and
/// picture are text, null or missing; each part of the call is the field of its
/// name, and the call is over if and only if the field `isCancel` says so.
pub proof fn law_reports_are_read_field_by_field(p: PacketView)
    ensures
        ({
            let optional = |key: Seq<char>|
                match field(p.body, key) {
                    None => true,
                    Some(v) => v is Null || v is Text,
                };
            let call = reported_call(p);
            &&& call is Some <==> (field(p.body, "event"@) matches Some(v) && v is Text)
                && optional("phoneNumber"@) && optional("contactName"@) && optional(
                "phoneThumbnail"@,
            )
            &&& call matches Some(c) ==> {
                &&& field(p.body, "event"@) == Some(ValueView::Text(c.event))
                &&& match c.phone_number {
                    Some(t) => field(p.body, "phoneNumber"@) == Some(ValueView::Text(t)),
                    None => !(field(p.body, "phoneNumber"@) matches Some(v) && v is Text),
                }
                &&& match c.contact_name {
                    Some(t) => field(p.body, "contactName"@) == Some(ValueView::Text(t)),
                    None => !(field(p.body, "contactName"@) matches Some(v) && v is Text),
                }
                &&& match c.phone_thumbnail {
                    Some(t) => field(p.body, "phoneThumbnail"@) == Some(ValueView::Text(t)),
                    None => !(field(p.body, "phoneThumbnail"@) matches Some(v) && v is Text),
                }
                &&& c.is_cancel <==> (field(p.body, "isCancel"@) matches Some(v) && is_cancel(v))
            }
        }),
{
}

/// Of a number with more than four characters the last four are shown, after four
/// asterisks; a shorter one is shown as it is.
pub proof fn law_numbers_show_their_last_four(number: Seq<char>, i: int)
    requires
        0 <= i < 4,
    ensures
        number.len() <= 4 ==> masked(number) == number,
        number.len() > 4 ==> masked(number).len() == 8 && masked(number)[i] == '*' && masked(
            number,
        )[4 + i] == number[number.len() - 4 + i],
{
    reveal_strlit("****");
    assert("****"@ =~= seq!['*', '*', '*', '*']);
}

/// Of a log the last 100 calls are kept, in their order, and all of a shorter one.
pub proof fn law_logs_keep_the_last_hundred(log: Seq<CallView>, k: int)
    requires
        0 <= k < newest(log).len(),
    ensures
        newest(log).len() == (if log.len() > 100 {
            100
        } else {
            log.len()
        }),
        newest(log)[newest(log).len() - 1 - k] == log[log.len() - 1 - k],
{
}

/// A call that is reported and not over is the last one of its device; with 100
/// calls before it the oldest leaves, and every other one stays.
pub proof fn law_reported_calls_are_logged_last(
    calls: Map<Seq<char>, Seq<CallView>>,
    id: Seq<char>,
    call: CallView,
)
    requires
        calls.contains_key(id) ==> calls[id].len() <= 100,
    ensures
        ({
            let after = after_call(calls, id, call);
            let before = if calls.contains_key(id) {
                calls[id]
            } else {
                Seq::empty()
            };
            &&& call.is_cancel ==> after == calls
            &&& !call.is_cancel ==> after.contains_key(id) && after[id].last() == call
            &&& !call.is_cancel && before.len() < 100 ==> after[id] == before.push(call)
            &&& !call.is_cancel && before.len() == 100 ==> after[id] == before.drop_first().push(
                call,
            )
            &&& calls_of(calls, id) == before
        }),
{
    let log = calls_of(calls, id).push(call);
    if !call.is_cancel && log.len() > 100 {
        assert(newest(log) =~= calls_of(calls, id).drop_first().push(call));
    }
}

/// A call is kept as it was reported.
pub proof fn law_calls_keep_every_part(log: Seq<TelephonyInfo>, i: int)
    requires
        0 <= i < log.len(),
    ensures
        call_views(log).len() == log.len(),
        call_views(log)[i].event == log[i].event@,
        call_views(log)[i].phone_number == text_of(log[i].phone_number),
        call_views(log)[i].contact_name == text_of(log[i].contact_name),
        call_views(log)[i].phone_thumbnail == text_of(log[i].phone_thumbnail),
        call_views(log)[i].is_cancel == log[i].is_cancel,
{
}

} // verus!
