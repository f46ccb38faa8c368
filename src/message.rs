//! The message envelope exchanged between the console, the registry and the
//! remote peers, and its JSON wire encoding.

use vstd::prelude::*;
use vstd::string::*;
use vstd::utf8::encode_utf8;

use serde_json::Value;

use crate::json::{
    as_list, as_text, flat_object, flat_object_text, flat_value_text, joined, json_parse, json_string_of,
    json_tree, lookup, member, member_text, members_text, parse, quote, text_less, JsonTree,
};

verus! {

/// The error returned when a message type is read from an unknown word.
#[derive(Debug)]
pub enum MsgTypeError {
    /// The word is none of `request`, `response` and `error`.
    InvalidType(String),
}

/// The kind of a message.
#[derive(Clone, Copy, Debug, PartialEq, Eq, Structural)]
pub enum MessageType {
    /// Sent to obtain data or to have something executed.
    Request,
    /// Carries the requested data or the result of an operation.
    Response,
    /// Reports that executing a command failed.
    Error,
}

impl MessageType {
    /// The word that stands for this message type on the wire.
    pub open spec fn text(self) -> Seq<char> {
        match self {
            MessageType::Request => "request"@,
            MessageType::Response => "response"@,
            MessageType::Error => "error"@,
        }
    }

    /// Read a message type from its word.
    pub fn from_str(string: &str) -> (r: Result<Self, MsgTypeError>)
        ensures
            match parse_message_type(string@) {
                Some(t) => r == Ok::<MessageType, MsgTypeError>(t),
                None => r matches Err(MsgTypeError::InvalidType(w)) && w@ == string@,
            },
    {
        if text_eq(string, "request") {
            Ok(MessageType::Request)
        } else if text_eq(string, "response") {
            Ok(MessageType::Response)
        } else if text_eq(string, "error") {
            Ok(MessageType::Error)
        } else {
            Err(MsgTypeError::InvalidType(string.to_owned()))
        }
    }

    /// The word that stands for this message type, which `from_str` reads back.
    pub fn to_string(&self) -> (r: String)
        ensures
            r@ == self.text(),
    {
        match self {
            MessageType::Request => "request".to_owned(),
            MessageType::Response => "response".to_owned(),
            MessageType::Error => "error".to_owned(),
        }
    }
}

/// The message type that a word stands for, if any.
pub open spec fn parse_message_type(w: Seq<char>) -> Option<MessageType> {
    if w == "request"@ {
        Some(MessageType::Request)
    } else if w == "response"@ {
        Some(MessageType::Response)
    } else if w == "error"@ {
        Some(MessageType::Error)
    } else {
        None
    }
}

/// Equality of two string slices by their characters.
fn text_eq(a: &str, b: &str) -> (r: bool)
    ensures
        r == (a@ == b@),
{
    let x = a.to_owned();
    let y = b.to_owned();
    x.eq(&y)
}

/// Reading the word of a message type gives that message type back.
pub proof fn lemma_message_type_words(t: MessageType)
    ensures
        parse_message_type(t.text()) == Some(t),
{
    reveal_strlit("request");
    reveal_strlit("response");
    reveal_strlit("error");
    assert("request"@.len() == 7);
    assert("response"@.len() == 8);
    assert("error"@.len() == 5);
}

/// The mathematical content of a message.
pub struct MessageView {
    pub command: Seq<char>,
    pub message_type: MessageType,
    pub sender: Seq<char>,
    pub receiver: Seq<char>,
    pub args: Seq<Seq<char>>,
}

/// The characters of each string of a sequence.
pub open spec fn texts(v: Seq<String>) -> Seq<Seq<char>> {
    v.map_values(|a: String| a@)
}

/// The characters of each string slice of a sequence.
pub open spec fn slice_texts(v: Seq<&str>) -> Seq<Seq<char>> {
    v.map_values(|a: &str| a@)
}

/// The envelope that travels between the console, the registry and the peers.
/// It is not changed after it is made.
pub struct Message {
    command: String,
    message_type: MessageType,
    sender: String,
    receiver: String,
    args: Vec<String>,
}

impl View for Message {
    type V = MessageView;

    closed spec fn view(&self) -> MessageView {
        MessageView {
            command: self.command@,
            message_type: self.message_type,
            sender: self.sender@,
            receiver: self.receiver@,
            args: texts(self.args@),
        }
    }
}

/// The members of the JSON object of a message, keys ascending.
pub open spec fn envelope_members(m: MessageView) -> Seq<(Seq<char>, JsonTree)> {
    seq![
        ("args"@, JsonTree::List(m.args.map_values(|a: Seq<char>| JsonTree::Text(a)))),
        ("command"@, JsonTree::Text(m.command)),
        ("message_type"@, JsonTree::Text(m.message_type.text())),
        ("receiver"@, JsonTree::Text(m.receiver)),
        ("sender"@, JsonTree::Text(m.sender)),
    ]
}

/// The wire text of a message: the compact JSON object with the keys `args`,
/// `command`, `message_type`, `receiver` and `sender`, in that order.
pub open spec fn envelope_text(m: MessageView) -> Seq<char> {
    flat_object_text(envelope_members(m))
}

/// The wire text of a message, member by member as it is written.
pub open spec fn envelope_pieces(m: MessageView) -> Seq<char> {
    let ps = envelope_members(m);
    seq!['{'] + member_text(ps[0]) + seq![','] + member_text(ps[1]) + seq![','] + member_text(ps[2])
        + seq![','] + member_text(ps[3]) + seq![','] + member_text(ps[4]) + seq!['}']
}

proof fn lemma_envelope_pieces(m: MessageView)
    ensures
        envelope_text(m) == envelope_pieces(m),
{
    let ps = envelope_members(m);
    assert(ps.drop_last() =~= seq![ps[0], ps[1], ps[2], ps[3]]);
    assert(seq![ps[0], ps[1], ps[2], ps[3]].drop_last() =~= seq![ps[0], ps[1], ps[2]]);
    assert(seq![ps[0], ps[1], ps[2]].drop_last() =~= seq![ps[0], ps[1]]);
    assert(seq![ps[0], ps[1]].drop_last() =~= seq![ps[0]]);
    let s1 = seq![ps[0]];
    let s2 = seq![ps[0], ps[1]];
    let s3 = seq![ps[0], ps[1], ps[2]];
    let s4 = seq![ps[0], ps[1], ps[2], ps[3]];
    assert(members_text(s1) == member_text(ps[0]));
    assert(members_text(s2) == members_text(s1) + seq![','] + member_text(ps[1]));
    assert(members_text(s3) == members_text(s2) + seq![','] + member_text(ps[2]));
    assert(members_text(s4) == members_text(s3) + seq![','] + member_text(ps[3]));
    assert(members_text(ps) == members_text(s4) + seq![','] + member_text(ps[4]));
    assert(envelope_text(m) =~= envelope_pieces(m));
}

/// The text of the `args` member: its key and the array of its strings.
proof fn lemma_args_member(m: MessageView)
    ensures
        member_text(envelope_members(m)[0]) == json_string_of("args"@) + seq![':'] + (seq!['[']
            + joined(m.args) + seq![']']),
{
    let items = m.args.map_values(|a: Seq<char>| JsonTree::Text(a));
    assert(items.map_values(|x: JsonTree| x->Text_0) =~= m.args);
    assert(forall|i: int| 0 <= i < items.len() ==> #[trigger] items[i] is Text);
}

proof fn lemma_first_char_less(a: Seq<char>, b: Seq<char>)
    requires
        a.len() > 0,
        b.len() > 0,
        (a[0] as u32) < (b[0] as u32),
    ensures
        text_less(a, b),
{
    assert(a.take(0) =~= b.take(0));
}

/// Whether every element of a JSON array is a string.
pub open spec fn all_texts(items: Seq<JsonTree>) -> bool {
    forall|i: int| 0 <= i < items.len() ==> #[trigger] items[i] is Text
}

/// The message that a JSON value holds: an object whose `command`,
/// `message_type`, `sender` and `receiver` are strings, whose `message_type`
/// names a message type, and whose `args` is an array of strings. Other
/// members are ignored.
pub open spec fn decode_envelope(t: JsonTree) -> Option<MessageView> {
    match t {
        JsonTree::Object(ps) => match (
            lookup(ps, "command"@),
            lookup(ps, "message_type"@),
            lookup(ps, "sender"@),
            lookup(ps, "receiver"@),
            lookup(ps, "args"@),
        ) {
            (
                Some(JsonTree::Text(c)),
                Some(JsonTree::Text(w)),
                Some(JsonTree::Text(s)),
                Some(JsonTree::Text(r)),
                Some(JsonTree::List(items)),
            ) => if all_texts(items) && parse_message_type(w) is Some {
                Some(
                    MessageView {
                        command: c,
                        message_type: parse_message_type(w)->0,
                        sender: s,
                        receiver: r,
                        args: items.map_values(|x: JsonTree| x->Text_0),
                    },
                )
            } else {
                None
            },
            _ => None,
        },
        _ => None,
    }
}

/// The message that received bytes hold once their trailing zero bytes are
/// dropped.
pub open spec fn decode_bytes(b: Seq<u8>) -> Option<MessageView> {
    match json_parse(trimmed(b)) {
        Some(t) => decode_envelope(t),
        None => None,
    }
}

/// The JSON object of a message has ascending keys and string or
/// string-array members, and it holds that message again.
pub proof fn lemma_envelope_decodes(m: MessageView)
    ensures
        flat_object(envelope_members(m)),
        decode_envelope(JsonTree::Object(envelope_members(m))) == Some(m),
{
    let ps = envelope_members(m);
    reveal_strlit("args");
    reveal_strlit("command");
    reveal_strlit("message_type");
    reveal_strlit("receiver");
    reveal_strlit("sender");
    lemma_first_char_less("args"@, "command"@);
    lemma_first_char_less("args"@, "message_type"@);
    lemma_first_char_less("args"@, "receiver"@);
    lemma_first_char_less("args"@, "sender"@);
    lemma_first_char_less("command"@, "message_type"@);
    lemma_first_char_less("command"@, "receiver"@);
    lemma_first_char_less("command"@, "sender"@);
    lemma_first_char_less("message_type"@, "receiver"@);
    lemma_first_char_less("message_type"@, "sender"@);
    lemma_first_char_less("receiver"@, "sender"@);
    let items = m.args.map_values(|a: Seq<char>| JsonTree::Text(a));
    assert(forall|i: int| 0 <= i < items.len() ==> #[trigger] items[i] is Text);
    assert(items.map_values(|x: JsonTree| x->Text_0) =~= m.args);
    assert(flat_object(ps)) by {
        assert forall|i: int| 0 <= i < ps.len() implies (#[trigger] flat_value_text(ps[i].1)) is Some by {
        }
    }
    assert("args"@.len() == 4);
    assert("command"@.len() == 7);
    assert("message_type"@.len() == 12);
    assert("receiver"@.len() == 8);
    assert("sender"@.len() == 6);
    let d1 = ps.drop_first();
    let d2 = d1.drop_first();
    let d3 = d2.drop_first();
    let d4 = d3.drop_first();
    assert(lookup(ps, "args"@) == Some(ps[0].1));
    assert(lookup(d1, "command"@) == Some(d1[0].1));
    assert(lookup(ps, "command"@) == lookup(d1, "command"@));
    assert(lookup(d2, "message_type"@) == Some(d2[0].1));
    assert(lookup(d1, "message_type"@) == lookup(d2, "message_type"@));
    assert(lookup(ps, "message_type"@) == lookup(d1, "message_type"@));
    assert(lookup(d3, "receiver"@) == Some(d3[0].1));
    assert(lookup(d2, "receiver"@) == lookup(d3, "receiver"@));
    assert(lookup(d1, "receiver"@) == lookup(d2, "receiver"@));
    assert(lookup(ps, "receiver"@) == lookup(d1, "receiver"@));
    assert(lookup(d4, "sender"@) == Some(d4[0].1));
    assert(lookup(d3, "sender"@) == lookup(d4, "sender"@));
    assert(lookup(d2, "sender"@) == lookup(d3, "sender"@));
    assert(lookup(d1, "sender"@) == lookup(d2, "sender"@));
    assert(lookup(ps, "sender"@) == lookup(d1, "sender"@));
    lemma_message_type_words(m.message_type);
}

/// The wire bytes of a message: its text in UTF-8.
pub open spec fn envelope_bytes(m: MessageView) -> Seq<u8> {
    encode_utf8(envelope_text(m))
}

/// The bytes without the run of zero bytes at their end.
pub open spec fn trimmed(b: Seq<u8>) -> Seq<u8>
    decreases b.len(),
{
    if b.len() > 0 && b.last() == 0 {
        trimmed(b.drop_last())
    } else {
        b
    }
}

/// Copy the bytes without the run of zero bytes at their end, as a buffer
/// filled by a read is trimmed before it is parsed.
pub fn trim_trailing_zeros(bytes: &Vec<u8>) -> (r: Vec<u8>)
    ensures
        r@ == trimmed(bytes@),
{
    let mut n: usize = bytes.len();
    assert(bytes@.take(n as int) =~= bytes@);
    while n > 0 && bytes[n - 1] == 0
        invariant
            n <= bytes@.len(),
            trimmed(bytes@) == trimmed(bytes@.take(n as int)),
        decreases n,
    {
        assert(bytes@.take(n as int).drop_last() =~= bytes@.take(n - 1));
        n = n - 1;
    }
    let mut r: Vec<u8> = Vec::new();
    let mut i: usize = 0;
    while i < n
        invariant
            n <= bytes@.len(),
            i <= n,
            r@ =~= bytes@.take(i as int),
        decreases n - i,
    {
        r.push(bytes[i]);
        i = i + 1;
        assert(r@ =~= bytes@.take(i as int));
    }
    assert(bytes@.take(n as int) =~= trimmed(bytes@.take(n as int)));
    r
}

impl Message {
    /// Make a message from its parts.
    pub fn new(
        command: &str,
        message_type: MessageType,
        sender: &str,
        receiver: &str,
        args: Vec<&str>,
    ) -> (r: Self)
        ensures
            r@ == (MessageView {
                command: command@,
                message_type,
                sender: sender@,
                receiver: receiver@,
                args: slice_texts(args@),
            }),
    {
        let owned = Self::vec_items_to_owned(args);
        let r = Message {
            command: command.to_owned(),
            message_type,
            sender: sender.to_owned(),
            receiver: receiver.to_owned(),
            args: owned,
        };
        assert(r@.args =~= slice_texts(args@));
        r
    }

    /// An owned copy of each string slice, in order.
    fn vec_items_to_owned(vector: Vec<&str>) -> (r: Vec<String>)
        ensures
            texts(r@) =~= slice_texts(vector@),
    {
        let mut new_vector: Vec<String> = Vec::new();
        let mut i: usize = 0;
        while i < vector.len()
            invariant
                i <= vector@.len(),
                new_vector@.len() == i,
                forall|j: int| 0 <= j < i ==> new_vector@[j]@ == vector@[j]@,
            decreases vector@.len() - i,
        {
            let item: &str = vector[i];
            let owned = item.to_owned();
            new_vector.push(owned);
            i = i + 1;
        }
        assert(texts(new_vector@) =~= slice_texts(vector@));
        new_vector
    }

    /// Make a message from the texts found in a received envelope. `None` when
    /// the word of the message type is unknown.
    pub fn from_fields(
        command: &str,
        message_type: &str,
        sender: &str,
        receiver: &str,
        args: Vec<String>,
    ) -> (r: Option<Self>)
        ensures
            match parse_message_type(message_type@) {
                Some(t) => r matches Some(m) && m@ == (MessageView {
                    command: command@,
                    message_type: t,
                    sender: sender@,
                    receiver: receiver@,
                    args: texts(args@),
                }),
                None => r is None,
            },
    {
        match MessageType::from_str(message_type) {
            Ok(t) => Some(
                Message {
                    command: command.to_owned(),
                    message_type: t,
                    sender: sender.to_owned(),
                    receiver: receiver.to_owned(),
                    args,
                },
            ),
            Err(_) => None,
        }
    }

    /// Make a message from a parsed JSON object. `None` when a key is missing
    /// or holds a value of the wrong kind, or the message type is unknown.
    pub fn from_json(json_object: Value) -> (r: Option<Self>)
        ensures
            match decode_envelope(json_tree(json_object)) {
                Some(m) => r matches Some(x) && x@ == m,
                None => r is None,
            },
    {
        let command = match member(&json_object, "command") {
            Some(v) => match as_text(v) {
                Some(t) => t,
                None => return None,
            },
            None => return None,
        };
        let message_type = match member(&json_object, "message_type") {
            Some(v) => match as_text(v) {
                Some(t) => t,
                None => return None,
            },
            None => return None,
        };
        let sender = match member(&json_object, "sender") {
            Some(v) => match as_text(v) {
                Some(t) => t,
                None => return None,
            },
            None => return None,
        };
        let receiver = match member(&json_object, "receiver") {
            Some(v) => match as_text(v) {
                Some(t) => t,
                None => return None,
            },
            None => return None,
        };
        let args_value = match member(&json_object, "args") {
            Some(v) => v,
            None => return None,
        };
        let items = match as_list(args_value) {
            Some(l) => l,
            None => return None,
        };
        let ghost trees = items@.map_values(|x: Value| json_tree(x));
        proof {
            let ps = json_tree(json_object)->Object_0;
            assert(lookup(ps, "args"@) == Some(JsonTree::List(trees)));
        }
        let mut args: Vec<String> = Vec::new();
        let mut i: usize = 0;
        while i < items.len()
            invariant
                i <= items@.len(),
                trees == items@.map_values(|x: Value| json_tree(x)),
                json_tree(json_object) is Object,
                lookup(json_tree(json_object)->Object_0, "args"@) == Some(JsonTree::List(trees)),
                args@.len() == i,
                forall|k: int| 0 <= k < i ==> (#[trigger] trees[k]) is Text && args@[k]@ == trees[k]->Text_0,
            decreases items@.len() - i,
        {
            assert(trees[i as int] == json_tree(items@[i as int]));
            match as_text(&items[i]) {
                Some(t) => args.push(t.to_owned()),
                None => {
                    assert(!all_texts(trees));
                    return None;
                },
            }
            i = i + 1;
        }
        proof {
            assert(all_texts(trees));
            assert(texts(args@) =~= trees.map_values(|x: JsonTree| x->Text_0));
        }
        Self::from_fields(command, message_type, sender, receiver, args)
    }

    /// Read a message from its wire text.
    pub fn from_string(string: String) -> (r: Option<Self>)
        ensures
            match json_parse(encode_utf8(string@)) {
                Some(t) => match decode_envelope(t) {
                    Some(m) => r matches Some(x) && x@ == m,
                    None => r is None,
                },
                None => r is None,
            },
            forall|m: MessageView| string@ == envelope_text(m) ==> (r matches Some(x) && x@ == m),
    {
        let bytes = string.as_str().as_bytes();
        let parsed = parse(bytes);
        let r = match parsed {
            Some(json_object) => Self::from_json(json_object),
            None => None,
        };
        proof {
            assert forall|m: MessageView| string@ == envelope_text(m) implies (r matches Some(x) && x@
                == m) by {
                lemma_envelope_decodes(m);
                assert(bytes@ == encode_utf8(flat_object_text(envelope_members(m))));
            }
        }
        r
    }

    /// Read a message from received bytes: the trailing zero bytes of the
    /// buffer are dropped and the rest is parsed as a JSON envelope.
    pub fn from_bytes(bytes_string: Vec<u8>) -> (r: Option<Self>)
        ensures
            match decode_bytes(bytes_string@) {
                Some(m) => r matches Some(x) && x@ == m,
                None => r is None,
            },
            forall|m: MessageView| trimmed(bytes_string@) == envelope_bytes(m) ==> (r matches Some(x)
                && x@ == m),
    {
        let striped = trim_trailing_zeros(&bytes_string);
        let parsed = parse(striped.as_slice());
        proof {
            assert forall|m: MessageView| trimmed(bytes_string@) == envelope_bytes(m) implies decode_bytes(
                bytes_string@,
            ) == Some(m) by {
                lemma_envelope_decodes(m);
                assert(striped@ == encode_utf8(flat_object_text(envelope_members(m))));
            }
        }
        match parsed {
            Some(json_object) => Self::from_json(json_object),
            None => None,
        }
    }

    /// The wire text of this message.
    pub fn to_string(&self) -> (r: Option<String>)
        ensures
            r matches Some(t) && t@ == envelope_text(self@),
    {
        proof {
            reveal_strlit("{");
            reveal_strlit("}");
            reveal_strlit("[");
            reveal_strlit("]");
            reveal_strlit(":");
            reveal_strlit(",");
        }
        let mut text = String::from_str("{");
        let key = quote("args");
        text.append(key.as_str());
        text.append(":");
        text.append("[");
        let ghost prefix = text@;
        assert(prefix == seq!['{'] + json_string_of("args"@) + seq![':'] + seq!['[']);
        let mut i: usize = 0;
        while i < self.args.len()
            invariant
                i <= self.args@.len(),
                ","@ == seq![','],
                text@ == prefix + joined(texts(self.args@).take(i as int)),
            decreases self.args@.len() - i,
        {
            let ghost before = text@;
            if i > 0 {
                text.append(",");
            }
            let q = quote(self.args[i].as_str());
            text.append(q.as_str());
            proof {
                let all = texts(self.args@);
                assert(all.take(i + 1).drop_last() =~= all.take(i as int));
                if i == 0 {
                    assert(all.take(1) =~= seq![all[0]]);
                    assert(joined(all.take(0)) =~= Seq::<char>::empty());
                    assert(before =~= prefix);
                }
            }
            i = i + 1;
        }
        assert(texts(self.args@).take(i as int) =~= texts(self.args@));
        text.append("]");
        let ghost after_args = text@;
        let word = self.message_type.to_string();
        Self::append_member(&mut text, "command", self.command.as_str());
        Self::append_member(&mut text, "message_type", word.as_str());
        Self::append_member(&mut text, "receiver", self.receiver.as_str());
        Self::append_member(&mut text, "sender", self.sender.as_str());
        text.append("}");
        proof {
            let m = self@;
            let ps = envelope_members(m);
            lemma_args_member(m);
            lemma_envelope_pieces(m);
            assert(after_args =~= seq!['{'] + member_text(ps[0]));
            assert(text@ =~= envelope_pieces(m));
        }
        Some(text)
    }

    /// Append `,"key":"value"` to a text being written.
    fn append_member(text: &mut String, key: &str, value: &str)
        ensures
            final(text)@ == old(text)@ + seq![','] + member_text((key@, JsonTree::Text(value@))),
    {
        proof {
            reveal_strlit(":");
            reveal_strlit(",");
        }
        text.append(",");
        let k = quote(key);
        text.append(k.as_str());
        text.append(":");
        let v = quote(value);
        text.append(v.as_str());
        assert(text@ =~= old(text)@ + seq![','] + member_text((key@, JsonTree::Text(value@))));
    }

    /// This message as a parsed JSON object: its wire text, read back by the
    /// JSON parser.
    pub fn to_json(&self) -> (r: Option<Value>)
        ensures
            r matches Some(v) && json_tree(v) == JsonTree::Object(envelope_members(self@)),
    {
        proof {
            lemma_envelope_decodes(self@);
        }
        match self.to_bytes() {
            Some(bytes) => parse(bytes.as_slice()),
            None => None,
        }
    }

    /// The wire bytes of this message.
    pub fn to_bytes(&self) -> (r: Option<Vec<u8>>)
        ensures
            r matches Some(b) && b@ == envelope_bytes(self@),
    {
        match self.to_string() {
            Some(text) => Some(text.as_str().as_bytes_vec()),
            None => None,
        }
    }

    /// The command of this message.
    pub fn command(&self) -> (r: &String)
        ensures
            r@ == self@.command,
    {
        &self.command
    }

    /// The type of this message.
    pub fn message_type(&self) -> (r: &MessageType)
        ensures
            *r == self@.message_type,
    {
        &self.message_type
    }

    /// The id of the sender of this message.
    pub fn sender(&self) -> (r: &String)
        ensures
            r@ == self@.sender,
    {
        &self.sender
    }

    /// The id of the receiver of this message.
    pub fn receiver(&self) -> (r: &String)
        ensures
            r@ == self@.receiver,
    {
        &self.receiver
    }

    /// The additional arguments of this message.
    pub fn args(&self) -> (r: &Vec<String>)
        ensures
            texts(r@) == self@.args,
    {
        &self.args
    }
}

} // verus!
