//! Packets and device identities as the decisions of the daemon read them.

use vstd::prelude::*;

use crate::text::same_text;

verus! {

/// The protocol version that this daemon speaks.
pub const PROTOCOL_VERSION: u32 = 8;

/// The lowest port of KDE Connect's range.
pub const MIN_PORT: u16 = 1716;

/// The highest port of KDE Connect's range.
pub const MAX_PORT: u16 = 1764;

/// The TCP port that is announced unless another one is set.
pub const DEFAULT_TCP_PORT: u16 = 1716;

/// The UDP port of discovery.
pub const DEFAULT_UDP_PORT: u16 = 1716;

/// One audio sink as a desktop describes it.
#[derive(Debug)]
pub struct SinkState {
    pub name: String,
    pub description: Option<String>,
    /// Absolute, on the scale whose ceiling is `max_volume`.
    pub volume: Option<i64>,
    pub max_volume: Option<i64>,
    pub muted: Option<bool>,
    /// Whether the sink is the default output.
    pub enabled: Option<bool>,
}

/// A copy of an optional string.
pub fn copy_text(s: &Option<String>) -> (r: Option<String>)
    ensures
        r == *s,
{
    match s {
        Some(t) => Some(t.clone()),
        None => None,
    }
}

impl Clone for SinkState {
    fn clone(&self) -> (r: Self)
        ensures
            r == *self,
    {
        SinkState {
            name: self.name.clone(),
            description: copy_text(&self.description),
            volume: self.volume,
            max_volume: self.max_volume,
            muted: self.muted,
            enabled: self.enabled,
        }
    }
}

impl Default for SinkState {
    fn default() -> (r: Self)
        ensures
            r.name@ == Seq::<char>::empty(),
            r.description == None::<String>,
            r.volume == None::<i64>,
            r.max_volume == None::<i64>,
            r.muted == None::<bool>,
            r.enabled == None::<bool>,
    {
        SinkState {
            name: String::new(),
            description: None,
            volume: None,
            max_volume: None,
            muted: None,
            enabled: None,
        }
    }
}

/// One value of a packet's body.
#[derive(Debug)]
pub enum Value {
    Null,
    Bool(bool),
    /// A number that is an `i64`.
    Int(i64),
    Text(String),
    /// An array, each entry with the sink that it describes, if it does.
    List(Vec<Option<SinkState>>),
    /// Any other value.
    Other,
}

/// One value of a packet's body, by its contents.
pub enum ValueView {
    Null,
    Bool(bool),
    Int(i64),
    Text(Seq<char>),
    List(Seq<Option<SinkState>>),
    Other,
}

impl View for Value {
    type V = ValueView;

    open spec fn view(&self) -> ValueView {
        match self {
            Value::Null => ValueView::Null,
            Value::Bool(b) => ValueView::Bool(*b),
            Value::Int(i) => ValueView::Int(*i),
            Value::Text(t) => ValueView::Text(t@),
            Value::List(l) => ValueView::List(l@),
            Value::Other => ValueView::Other,
        }
    }
}

/// A packet: its type and the fields of its body.
#[derive(Debug)]
pub struct Packet {
    pub packet_type: String,
    pub body: Vec<(String, Value)>,
}

/// A packet by its contents.
pub struct PacketView {
    pub packet_type: Seq<char>,
    pub body: Seq<(Seq<char>, ValueView)>,
}

/// The fields of a body, by their contents.
pub open spec fn fields_of(body: Seq<(String, Value)>) -> Seq<(Seq<char>, ValueView)> {
    body.map_values(|f: (String, Value)| (f.0@, f.1@))
}

impl View for Packet {
    type V = PacketView;

    open spec fn view(&self) -> PacketView {
        PacketView { packet_type: self.packet_type@, body: fields_of(self.body@) }
    }
}

/// The value of the first field named `key`.
pub open spec fn field(body: Seq<(Seq<char>, ValueView)>, key: Seq<char>) -> Option<ValueView>
    decreases body.len(),
{
    if body.len() == 0 {
        None
    } else if body[0].0 == key {
        Some(body[0].1)
    } else {
        field(body.drop_first(), key)
    }
}

impl PacketView {
    /// The field `key`, where it is a boolean.
    pub open spec fn bool_field(self, key: Seq<char>) -> Option<bool> {
        match field(self.body, key) {
            Some(ValueView::Bool(b)) => Some(b),
            _ => None,
        }
    }

    /// The field `key`, where it is an integer.
    pub open spec fn int_field(self, key: Seq<char>) -> Option<i64> {
        match field(self.body, key) {
            Some(ValueView::Int(i)) => Some(i),
            _ => None,
        }
    }

    /// The field `key`, where it is text.
    pub open spec fn text_field(self, key: Seq<char>) -> Option<Seq<char>> {
        match field(self.body, key) {
            Some(ValueView::Text(t)) => Some(t),
            _ => None,
        }
    }

    /// The field `key`, where it is an array.
    pub open spec fn list_field(self, key: Seq<char>) -> Option<Seq<Option<SinkState>>> {
        match field(self.body, key) {
            Some(ValueView::List(l)) => Some(l),
            _ => None,
        }
    }

    /// Whether this is an identity packet.
    pub open spec fn is_identity(self) -> bool {
        self.packet_type == "kdeconnect.identity"@
    }

    /// Whether this is a pair packet.
    pub open spec fn is_pair(self) -> bool {
        self.packet_type == "kdeconnect.pair"@
    }
}

/// A packet of type `packet_type` whose body has the one field `key`.
pub open spec fn packet_with(packet_type: Seq<char>, key: Seq<char>, value: ValueView) -> PacketView {
    PacketView { packet_type, body: seq![(key, value)] }
}

/// The pair packet that carries `accepted`.
pub open spec fn pair_packet(accepted: bool) -> PacketView {
    packet_with("kdeconnect.pair"@, "pair"@, ValueView::Bool(accepted))
}

impl Packet {
    /// A packet of the given type and body.
    pub fn new(packet_type: String, body: Vec<(String, Value)>) -> (r: Self)
        ensures
            r.packet_type == packet_type,
            r.body == body,
    {
        Packet { packet_type, body }
    }

    /// A packet whose body has one field.
    pub fn with_field(packet_type: &str, key: &str, value: Value) -> (r: Self)
        ensures
            r@ == packet_with(packet_type@, key@, value@),
    {
        let mut body: Vec<(String, Value)> = Vec::new();
        body.push((key.to_owned(), value));
        let r = Packet { packet_type: packet_type.to_owned(), body };
        assert(r@.body =~= seq![(key@, value@)]);
        r
    }

    /// A packet whose body has two fields.
    pub fn with_fields(packet_type: &str, key1: &str, value1: Value, key2: &str, value2: Value) -> (r:
        Self)
        ensures
            r@ == (PacketView {
                packet_type: packet_type@,
                body: seq![(key1@, value1@), (key2@, value2@)],
            }),
    {
        let mut body: Vec<(String, Value)> = Vec::new();
        body.push((key1.to_owned(), value1));
        body.push((key2.to_owned(), value2));
        let r = Packet { packet_type: packet_type.to_owned(), body };
        assert(r@.body =~= seq![(key1@, value1@), (key2@, value2@)]);
        r
    }

    /// A ping.
    pub fn ping() -> (r: Self)
        ensures
            r@.packet_type == "kdeconnect.ping"@,
            r@.body == Seq::<(Seq<char>, ValueView)>::empty(),
    {
        let r = Packet { packet_type: "kdeconnect.ping".to_owned(), body: Vec::new() };
        assert(r@.body =~= Seq::<(Seq<char>, ValueView)>::empty());
        r
    }

    /// The answer to a pair request.
    pub fn pair_response(accepted: bool) -> (r: Self)
        ensures
            r@ == pair_packet(accepted),
    {
        Packet::with_field("kdeconnect.pair", "pair", Value::Bool(accepted))
    }

    /// Whether this is an identity packet.
    pub fn is_identity(&self) -> (r: bool)
        ensures
            r == self@.is_identity(),
    {
        same_text(self.packet_type.as_str(), "kdeconnect.identity")
    }

    /// Whether this is a pair packet.
    pub fn is_pair(&self) -> (r: bool)
        ensures
            r == self@.is_pair(),
    {
        same_text(self.packet_type.as_str(), "kdeconnect.pair")
    }

    /// The value of the first field named `key`.
    pub fn get(&self, key: &str) -> (r: Option<&Value>)
        ensures
            match r {
                Some(v) => field(self@.body, key@) == Some(v@),
                None => field(self@.body, key@) is None,
            },
    {
        let ghost body = self@.body;
        let mut i: usize = 0;
        assert(body.skip(0) =~= body);
        while i < self.body.len()
            invariant
                i <= self.body@.len(),
                body == self@.body,
                field(body, key@) == field(body.skip(i as int), key@),
            decreases self.body@.len() - i,
        {
            assert(body.skip(i as int)[0] == (self.body@[i as int].0@, self.body@[i as int].1@));
            if same_text(self.body[i].0.as_str(), key) {
                return Some(&self.body[i].1);
            }
            assert(body.skip(i as int).drop_first() =~= body.skip(i + 1));
            i = i + 1;
        }
        None
    }

    /// The field `key`, where it is a boolean.
    pub fn get_bool(&self, key: &str) -> (r: Option<bool>)
        ensures
            r == self@.bool_field(key@),
    {
        match self.get(key) {
            Some(Value::Bool(b)) => Some(*b),
            _ => None,
        }
    }

    /// The field `key`, where it is an integer.
    pub fn get_int(&self, key: &str) -> (r: Option<i64>)
        ensures
            r == self@.int_field(key@),
    {
        match self.get(key) {
            Some(Value::Int(i)) => Some(*i),
            _ => None,
        }
    }

    /// The field `key`, where it is text.
    pub fn get_text(&self, key: &str) -> (r: Option<&String>)
        ensures
            match r {
                Some(t) => self@.text_field(key@) == Some(t@),
                None => self@.text_field(key@) is None,
            },
    {
        match self.get(key) {
            Some(Value::Text(t)) => Some(t),
            _ => None,
        }
    }

    /// The field `key`, where it is an array.
    pub fn get_list(&self, key: &str) -> (r: Option<&Vec<Option<SinkState>>>)
        ensures
            match r {
                Some(l) => self@.list_field(key@) == Some(l@),
                None => self@.list_field(key@) is None,
            },
    {
        match self.get(key) {
            Some(Value::List(l)) => Some(l),
            _ => None,
        }
    }
}

/// Who a device says it is.
#[derive(Debug)]
pub struct Identity {
    pub device_id: String,
    pub device_name: String,
    pub device_type: String,
    pub protocol_version: u32,
    pub incoming_capabilities: Vec<String>,
    pub outgoing_capabilities: Vec<String>,
    pub tcp_port: Option<u16>,
    /// The device that the identity is addressed to.
    pub target_device_id: Option<String>,
    /// The protocol version that the identity is addressed to.
    pub target_protocol_version: Option<u32>,
}

/// A copy of a list of strings.
pub fn copy_texts(list: &Vec<String>) -> (r: Vec<String>)
    ensures
        r@ == list@,
{
    let mut out: Vec<String> = Vec::new();
    let mut i: usize = 0;
    while i < list.len()
        invariant
            i <= list@.len(),
            out@ == list@.take(i as int),
        decreases list@.len() - i,
    {
        out.push(list[i].clone());
        assert(list@.take(i + 1) =~= list@.take(i as int).push(list@[i as int]));
        i = i + 1;
    }
    assert(list@.take(i as int) =~= list@);
    out
}

/// `a` and `b` say the same.
pub open spec fn same_identity(a: Identity, b: Identity) -> bool {
    &&& a.device_id == b.device_id
    &&& a.device_name == b.device_name
    &&& a.device_type == b.device_type
    &&& a.protocol_version == b.protocol_version
    &&& a.incoming_capabilities@ == b.incoming_capabilities@
    &&& a.outgoing_capabilities@ == b.outgoing_capabilities@
    &&& a.tcp_port == b.tcp_port
    &&& a.target_device_id == b.target_device_id
    &&& a.target_protocol_version == b.target_protocol_version
}

impl Clone for Identity {
    fn clone(&self) -> (r: Self)
        ensures
            same_identity(r, *self),
    {
        Identity {
            device_id: self.device_id.clone(),
            device_name: self.device_name.clone(),
            device_type: self.device_type.clone(),
            protocol_version: self.protocol_version,
            incoming_capabilities: copy_texts(&self.incoming_capabilities),
            outgoing_capabilities: copy_texts(&self.outgoing_capabilities),
            tcp_port: self.tcp_port,
            target_device_id: copy_text(&self.target_device_id),
            target_protocol_version: self.target_protocol_version,
        }
    }
}

impl Identity {
    /// An identity of this protocol version on the default port, addressed to
    /// nobody in particular.
    pub fn new(
        device_id: String,
        device_name: String,
        device_type: String,
        incoming_capabilities: Vec<String>,
        outgoing_capabilities: Vec<String>,
    ) -> (r: Self)
        ensures
            r.device_id == device_id,
            r.device_name == device_name,
            r.device_type == device_type,
            r.protocol_version == PROTOCOL_VERSION,
            r.incoming_capabilities == incoming_capabilities,
            r.outgoing_capabilities == outgoing_capabilities,
            r.tcp_port == Some(DEFAULT_TCP_PORT),
            r.target_device_id == None::<String>,
            r.target_protocol_version == None::<u32>,
    {
        Identity {
            device_id,
            device_name,
            device_type,
            protocol_version: PROTOCOL_VERSION,
            incoming_capabilities,
            outgoing_capabilities,
            tcp_port: Some(DEFAULT_TCP_PORT),
            target_device_id: None,
            target_protocol_version: None,
        }
    }
}

/// A field is the first one of its name, and there is none where no field has
/// that name.
pub proof fn law_field_is_the_first_of_its_name(
    body: Seq<(Seq<char>, ValueView)>,
    key: Seq<char>,
    i: int,
)
    requires
        0 <= i <= body.len(),
        forall|j: int| 0 <= j < i ==> (#[trigger] body[j]).0 != key,
        i < body.len() ==> body[i].0 == key,
    ensures
        i < body.len() ==> field(body, key) == Some(body[i].1),
        i == body.len() ==> field(body, key) is None,
    decreases body.len(),
{
    if i > 0 {
        assert(body[0].0 != key);
        let rest = body.drop_first();
        assert forall|j: int| 0 <= j < i - 1 implies (#[trigger] rest[j]).0 != key by {
            assert(rest[j] == body[j + 1]);
        }
        law_field_is_the_first_of_its_name(rest, key, i - 1);
    }
}

/// A field is read as what it is and as nothing else.
pub proof fn law_fields_are_read_by_their_kind(
    packet: PacketView,
    key: Seq<char>,
    b: bool,
    n: i64,
    t: Seq<char>,
    l: Seq<Option<SinkState>>,
)
    ensures
        packet.bool_field(key) == Some(b) <==> field(packet.body, key) == Some(ValueView::Bool(b)),
        packet.int_field(key) == Some(n) <==> field(packet.body, key) == Some(ValueView::Int(n)),
        packet.text_field(key) == Some(t) <==> field(packet.body, key) == Some(ValueView::Text(t)),
        packet.list_field(key) == Some(l) <==> field(packet.body, key) == Some(ValueView::List(l)),
{
}

/// A body holds the name and the value of each field, in order, and each value
/// keeps its kind.
pub proof fn law_bodies_by_position(body: Seq<(String, Value)>)
    ensures
        fields_of(body).len() == body.len(),
        forall|i: int|
            0 <= i < body.len() ==> (#[trigger] fields_of(body)[i]).0 == body[i].0@ && match (
                body[i].1,
                fields_of(body)[i].1,
            ) {
                (Value::Null, ValueView::Null) => true,
                (Value::Bool(a), ValueView::Bool(b)) => a == b,
                (Value::Int(a), ValueView::Int(b)) => a == b,
                (Value::Text(a), ValueView::Text(b)) => a@ == b,
                (Value::List(a), ValueView::List(b)) => a@ == b,
                (Value::Other, ValueView::Other) => true,
                _ => false,
            },
{
}

/// A pair packet is of the pair type, is no identity, and says yes or no in its
/// one field.
pub proof fn law_pair_packets_say_yes_or_no(accepted: bool)
    ensures
        pair_packet(accepted).packet_type == "kdeconnect.pair"@,
        pair_packet(accepted).is_pair(),
        !pair_packet(accepted).is_identity(),
        pair_packet(accepted).body.len() == 1,
        pair_packet(accepted).bool_field("pair"@) == Some(accepted),
{
    reveal_strlit("kdeconnect.pair");
    reveal_strlit("kdeconnect.identity");
    assert("kdeconnect.pair"@.len() != "kdeconnect.identity"@.len());
    law_field_is_the_first_of_its_name(pair_packet(accepted).body, "pair"@, 0);
}

/// A packet is a pair packet or an identity by its type alone.
pub proof fn law_packet_types(packet: PacketView)
    ensures
        packet.is_pair() <==> packet.packet_type == "kdeconnect.pair"@,
        packet.is_identity() <==> packet.packet_type == "kdeconnect.identity"@,
{
}

/// A packet that is made of one field has that field and no other.
pub proof fn law_packet_with_one_field(
    packet_type: Seq<char>,
    key: Seq<char>,
    value: ValueView,
    other: Seq<char>,
)
    ensures
        packet_with(packet_type, key, value).packet_type == packet_type,
        field(packet_with(packet_type, key, value).body, other) == (if other == key {
            Some(value)
        } else {
            None
        }),
{
    let body = packet_with(packet_type, key, value).body;
    if other == key {
        law_field_is_the_first_of_its_name(body, other, 0);
    } else {
        law_field_is_the_first_of_its_name(body, other, 1);
    }
}

} // verus!
