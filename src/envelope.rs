//! The envelope codec: the tagged wire unit, its kinds, the nested chat
//! message, and the wire text of an envelope.
use vstd::prelude::*;

use crate::json::{json_quoted, quote_json};

verus! {

/// Kinds of envelope understood by this client.
pub enum MsgTypes {
    Users,
    Register,
    Message,
}

/// Why an inbound frame could not be decoded.
pub enum DecodeError {
    /// The frame is not structured data or lacks the discriminator.
    MalformedEnvelope,
    /// A `message` envelope whose text is not a chat message.
    MalformedPayload,
}

pub open spec fn users_tag() -> Seq<char> {
    "users"@
}

pub open spec fn register_tag() -> Seq<char> {
    "register"@
}

pub open spec fn message_tag() -> Seq<char> {
    "message"@
}

impl MsgTypes {
    /// The discriminator written on the wire for this kind.
    pub open spec fn spec_tag(&self) -> Seq<char> {
        match self {
            MsgTypes::Users => users_tag(),
            MsgTypes::Register => register_tag(),
            MsgTypes::Message => message_tag(),
        }
    }

    pub fn tag(&self) -> (r: &'static str)
        ensures
            r@ == self.spec_tag(),
    {
        match self {
            MsgTypes::Users => "users",
            MsgTypes::Register => "register",
            MsgTypes::Message => "message",
        }
    }

    /// The kind a discriminator names; `None` for one this client does not know.
    pub fn from_tag(s: &str) -> (r: Option<MsgTypes>)
        ensures
            r == kind_of(s@),
    {
        let owned = String::from_str(s);
        if owned.eq(&String::from_str("users")) {
            Some(MsgTypes::Users)
        } else if owned.eq(&String::from_str("register")) {
            Some(MsgTypes::Register)
        } else if owned.eq(&String::from_str("message")) {
            Some(MsgTypes::Message)
        } else {
            None
        }
    }
}

/// The kind named by a discriminator, if it is one of the known ones.
pub open spec fn kind_of(tag: Seq<char>) -> Option<MsgTypes> {
    if tag == users_tag() {
        Some(MsgTypes::Users)
    } else if tag == register_tag() {
        Some(MsgTypes::Register)
    } else if tag == message_tag() {
        Some(MsgTypes::Message)
    } else {
        None
    }
}

/// The wire unit exchanged in both directions. The discriminator is kept as
/// text so that a kind this client does not know still decodes.
pub struct Envelope {
    pub message_type: String,
    pub data_array: Option<Vec<String>>,
    pub data: Option<String>,
}

pub struct EnvelopeView {
    pub kind: Seq<char>,
    pub items: Option<Seq<Seq<char>>>,
    pub data: Option<Seq<char>>,
}

pub open spec fn strings_view(v: Vec<String>) -> Seq<Seq<char>> {
    v@.map_values(|x: String| x@)
}

pub open spec fn opt_strings_view(v: Option<Vec<String>>) -> Option<Seq<Seq<char>>> {
    match v {
        Some(l) => Some(strings_view(l)),
        None => None,
    }
}

pub open spec fn opt_string_view(v: Option<String>) -> Option<Seq<char>> {
    match v {
        Some(s) => Some(s@),
        None => None,
    }
}

impl View for Envelope {
    type V = EnvelopeView;

    open spec fn view(&self) -> EnvelopeView {
        EnvelopeView {
            kind: self.message_type@,
            items: opt_strings_view(self.data_array),
            data: opt_string_view(self.data),
        }
    }
}

/// The JSON texts of a list, joined by commas.
pub open spec fn joined(s: Seq<Seq<char>>) -> Seq<char>
    decreases s.len(),
{
    if s.len() == 0 {
        Seq::empty()
    } else if s.len() == 1 {
        s[0]
    } else {
        joined(s.drop_last()) + ","@ + s.last()
    }
}

pub open spec fn list_text(items: Option<Seq<Seq<char>>>) -> Seq<char> {
    match items {
        Some(s) => "["@ + joined(s) + "]"@,
        None => "null"@,
    }
}

pub open spec fn data_text(data: Option<Seq<char>>) -> Seq<char> {
    match data {
        Some(d) => d,
        None => "null"@,
    }
}

/// The wire text of an envelope whose fields are already JSON texts: an
/// object with `messageType`, `dataArray` and `data`, in that order.
pub open spec fn wire_text(
    kind: Seq<char>,
    items: Option<Seq<Seq<char>>>,
    data: Option<Seq<char>>,
) -> Seq<char> {
    "{\"messageType\":"@ + kind + ",\"dataArray\":"@ + list_text(items) + ",\"data\":"@
        + data_text(data) + "}"@
}

pub open spec fn quoted_items(items: Option<Seq<Seq<char>>>) -> Option<Seq<Seq<char>>> {
    match items {
        Some(s) => Some(s.map_values(|x: Seq<char>| json_quoted(x))),
        None => None,
    }
}

pub open spec fn quoted_data(data: Option<Seq<char>>) -> Option<Seq<char>> {
    match data {
        Some(d) => Some(json_quoted(d)),
        None => None,
    }
}

/// The wire text of an envelope: each string field written as a JSON string.
pub open spec fn envelope_wire(e: EnvelopeView) -> Seq<char> {
    wire_text(json_quoted(e.kind), quoted_items(e.items), quoted_data(e.data))
}

/// Writes the JSON texts of a list, joined by commas, between brackets.
fn assemble_list(items: &Vec<String>) -> (r: String)
    ensures
        r@ == list_text(Some(strings_view(*items))),
{
    let ghost s = strings_view(*items);
    let mut w = String::from_str("[");
    let mut i: usize = 0;
    while i < items.len()
        invariant
            i <= items.len(),
            s == strings_view(*items),
            w@ == "["@ + joined(s.subrange(0, i as int)),
        decreases items.len() - i,
    {
        let ghost before = w@;
        if i > 0 {
            w.append(",");
        }
        w.append(items[i].as_str());
        proof {
            let next = s.subrange(0, i + 1);
            assert(next.drop_last() =~= s.subrange(0, i as int));
            if i == 0 {
                assert(s.subrange(0, 0) =~= Seq::<Seq<char>>::empty());
                assert(before + items@[0]@ =~= "["@ + joined(next));
            } else {
                assert(before + ","@ + items@[i as int]@ =~= "["@ + joined(next));
            }
        }
        i = i + 1;
    }
    assert(s.subrange(0, items.len() as int) =~= s);
    w.append("]");
    w
}

/// Writes an envelope whose fields are already JSON texts.
pub fn assemble_wire(kind: &str, items: &Option<Vec<String>>, data: &Option<String>) -> (r:
    String)
    ensures
        r@ == wire_text(kind@, opt_strings_view(*items), opt_string_view(*data)),
{
    let mut w = String::from_str("{\"messageType\":");
    w.append(kind);
    w.append(",\"dataArray\":");
    match items {
        Some(l) => {
            let t = assemble_list(l);
            w.append(t.as_str());
        },
        None => {
            w.append("null");
        },
    }
    w.append(",\"data\":");
    match data {
        Some(d) => {
            w.append(d.as_str());
        },
        None => {
            w.append("null");
        },
    }
    w.append("}");
    w
}

/// The chat message nested in a `message` envelope.
pub struct MessageData {
    pub from: String,
    pub message: String,
}

impl View for MessageData {
    type V = (Seq<char>, Seq<char>);

    open spec fn view(&self) -> (Seq<char>, Seq<char>) {
        (self.from@, self.message@)
    }
}

/// A body that ends with the literal suffix `.gif` names an image.
pub open spec fn is_image_body(body: Seq<char>) -> bool {
    body.len() >= 4 && body.subrange(body.len() - 4, body.len() as int) == ".gif"@
}

/// Whether a message body is to be shown as an image reference rather than
/// as text: it ends exactly with `.gif`.
pub fn is_image_reference(body: &str) -> (r: bool)
    ensures
        r == is_image_body(body@),
{
    let n = body.unicode_len();
    if n < 4 {
        return false;
    }
    let r = body.get_char(n - 4) == '.' && body.get_char(n - 3) == 'g' && body.get_char(n - 2)
        == 'i' && body.get_char(n - 1) == 'f';
    proof {
        reveal_strlit(".gif");
        let tail = body@.subrange(n - 4, n as int);
        if r {
            assert(tail =~= ".gif"@);
        } else {
            if tail == ".gif"@ {
                assert(tail[0] == body@[n - 4]);
                assert(tail[1] == body@[n - 3]);
                assert(tail[2] == body@[n - 2]);
                assert(tail[3] == body@[n - 1]);
            }
        }
    }
    r
}

impl MessageData {
    /// Whether this message's body is an image reference.
    pub fn is_image(&self) -> (r: bool)
        ensures
            r == is_image_body(self.message@),
    {
        is_image_reference(self.message.as_str())
    }
}

impl Envelope {
    /// The envelope that claims a username on the connection.
    pub fn register(username: String) -> (r: Envelope)
        ensures
            r@ == (EnvelopeView { kind: register_tag(), items: None, data: Some(username@) }),
    {
        Envelope {
            message_type: String::from_str(MsgTypes::Register.tag()),
            data_array: None,
            data: Some(username),
        }
    }

    /// The envelope that carries a chat message body.
    pub fn message(body: String) -> (r: Envelope)
        ensures
            r@ == (EnvelopeView { kind: message_tag(), items: None, data: Some(body@) }),
    {
        Envelope {
            message_type: String::from_str(MsgTypes::Message.tag()),
            data_array: None,
            data: Some(body),
        }
    }

    /// The envelope that carries a full roster.
    pub fn users(names: Vec<String>) -> (r: Envelope)
        ensures
            r@ == (EnvelopeView {
                kind: users_tag(),
                items: Some(strings_view(names)),
                data: None,
            }),
    {
        Envelope {
            message_type: String::from_str(MsgTypes::Users.tag()),
            data_array: Some(names),
            data: None,
        }
    }

    /// The kind of this envelope, if this client knows it.
    pub fn kind(&self) -> (r: Option<MsgTypes>)
        ensures
            r == kind_of(self@.kind),
    {
        MsgTypes::from_tag(self.message_type.as_str())
    }

    /// The wire text of this envelope.
    pub fn to_wire(&self) -> (r: String)
        ensures
            r@ == envelope_wire(self@),
    {
        let kind = quote_json(self.message_type.as_str()).unwrap();
        let items = match &self.data_array {
            Some(l) => {
                let mut q: Vec<String> = Vec::new();
                let mut i: usize = 0;
                while i < l.len()
                    invariant
                        i <= l.len(),
                        q@.len() == i,
                        forall|j: int| 0 <= j < i ==> #[trigger] q@[j]@ == json_quoted(l@[j]@),
                    decreases l.len() - i,
                {
                    q.push(quote_json(l[i].as_str()).unwrap());
                    i = i + 1;
                }
                assert(strings_view(q) =~= strings_view(*l).map_values(
                    |x: Seq<char>| json_quoted(x),
                ));
                Some(q)
            },
            None => None,
        };
        let data = match &self.data {
            Some(d) => Some(quote_json(d.as_str()).unwrap()),
            None => None,
        };
        let w = assemble_wire(kind.as_str(), &items, &data);
        assert(opt_strings_view(items) =~= quoted_items(self@.items));
        w
    }
}

} // verus!
