//! The message model and the frame codec: `[type, id, command?, payload?]`.
use vstd::prelude::*;
use vstd::string::*;
use crate::jsonio::{MAX_JSON_CHARS, flat_same, json_document, json_text, read_json, shallow_same, write_json};
use crate::value::{Value, is_count, is_text, kept, lemma_kept_seq_from, lemma_same_seq, same};
use crate::x509::SigningError;

verus! {

/// The role of a frame: request, success reply or error reply.
#[derive(Clone, Copy, Debug, PartialEq, Eq, Structural)]
pub enum MessageType {
    Call,
    CallResult,
    CallError,
}

impl MessageType {
    /// The type code that stands for this role on the wire.
    pub open spec fn code_spec(self) -> u64 {
        match self {
            MessageType::Call => 2,
            MessageType::CallResult => 3,
            MessageType::CallError => 4,
        }
    }

    /// The role that a type code stands for.
    pub open spec fn from_code_spec(code: u64) -> Option<MessageType> {
        if code == 2 {
            Some(MessageType::Call)
        } else if code == 3 {
            Some(MessageType::CallResult)
        } else if code == 4 {
            Some(MessageType::CallError)
        } else {
            None
        }
    }

    pub fn code(&self) -> (r: u8)
        ensures
            r as u64 == self.code_spec(),
    {
        match self {
            MessageType::Call => 2,
            MessageType::CallResult => 3,
            MessageType::CallError => 4,
        }
    }

    /// The role for a type code; `None` for any code but 2, 3 and 4.
    pub fn from_code(value: u8) -> (r: Option<MessageType>)
        ensures
            r == MessageType::from_code_spec(value as u64),
    {
        match value {
            2 => Some(MessageType::Call),
            3 => Some(MessageType::CallResult),
            4 => Some(MessageType::CallError),
            _ => None,
        }
    }

    pub open spec fn name(self) -> Seq<char> {
        match self {
            MessageType::Call => "Call"@,
            MessageType::CallResult => "CallResult"@,
            MessageType::CallError => "CallError"@,
        }
    }

    pub fn to_string(&self) -> (r: String)
        ensures
            r@ == self.name(),
    {
        match self {
            MessageType::Call => "Call".to_owned(),
            MessageType::CallResult => "CallResult".to_owned(),
            MessageType::CallError => "CallError".to_owned(),
        }
    }
}

/// The commands of the protocol.
#[derive(Clone, Copy, Debug, PartialEq, Eq, Structural)]
pub enum Command {
    BootNotification,
    StatusNotification,
    Heartbeat,
    SignCertificate,
    CertificateSigned,
    StartTransaction,
    MeterValues,
    StopTransaction,
    Authorize,
}

/// A character's code with ASCII upper case letters folded to lower case.
pub open spec fn folded(c: char) -> u32 {
    let x = c as u32;
    if 65 <= x <= 90 {
        (x + 32) as u32
    } else {
        x
    }
}

/// `a` and `b` are equal but for the case of ASCII letters.
pub open spec fn same_ignoring_case(a: Seq<char>, b: Seq<char>) -> bool {
    a.len() == b.len() && forall|i: int| 0 <= i < a.len() ==> folded(a[i]) == folded(b[i])
}

fn fold_char(c: char) -> (r: u32)
    ensures
        r == folded(c),
{
    let x = c as u32;
    if 65 <= x && x <= 90 {
        x + 32
    } else {
        x
    }
}

/// Compares two strings, ignoring the case of ASCII letters.
pub fn eq_ignore_ascii_case(a: &str, b: &str) -> (r: bool)
    ensures
        r == same_ignoring_case(a@, b@),
{
    let n = a.unicode_len();
    if n != b.unicode_len() {
        return false;
    }
    let mut i: usize = 0;
    while i < n
        invariant
            n == a@.len(),
            n == b@.len(),
            i <= n,
            forall|j: int| 0 <= j < i ==> folded(a@[j]) == folded(b@[j]),
        decreases n - i,
    {
        if fold_char(a.get_char(i)) != fold_char(b.get_char(i)) {
            return false;
        }
        i = i + 1;
    }
    true
}

impl Command {
    /// The canonical spelling of the command on the wire.
    pub open spec fn name(self) -> Seq<char> {
        match self {
            Command::BootNotification => "BootNotification"@,
            Command::StatusNotification => "StatusNotification"@,
            Command::Heartbeat => "Heartbeat"@,
            Command::SignCertificate => "SignCertificate"@,
            Command::CertificateSigned => "CertificateSigned"@,
            Command::StartTransaction => "StartTransaction"@,
            Command::MeterValues => "MeterValues"@,
            Command::StopTransaction => "StopTransaction"@,
            Command::Authorize => "Authorize"@,
        }
    }

    /// The command that `s` names, ignoring ASCII case; the first in
    /// declaration order that matches.
    pub open spec fn from_name_spec(s: Seq<char>) -> Option<Command> {
        if same_ignoring_case(s, "BootNotification"@) {
            Some(Command::BootNotification)
        } else if same_ignoring_case(s, "StatusNotification"@) {
            Some(Command::StatusNotification)
        } else if same_ignoring_case(s, "Heartbeat"@) {
            Some(Command::Heartbeat)
        } else if same_ignoring_case(s, "SignCertificate"@) {
            Some(Command::SignCertificate)
        } else if same_ignoring_case(s, "CertificateSigned"@) {
            Some(Command::CertificateSigned)
        } else if same_ignoring_case(s, "StartTransaction"@) {
            Some(Command::StartTransaction)
        } else if same_ignoring_case(s, "MeterValues"@) {
            Some(Command::MeterValues)
        } else if same_ignoring_case(s, "StopTransaction"@) {
            Some(Command::StopTransaction)
        } else if same_ignoring_case(s, "Authorize"@) {
            Some(Command::Authorize)
        } else {
            None
        }
    }

    pub fn to_string(&self) -> (r: String)
        ensures
            r@ == self.name(),
    {
        match self {
            Command::BootNotification => "BootNotification".to_owned(),
            Command::StatusNotification => "StatusNotification".to_owned(),
            Command::Heartbeat => "Heartbeat".to_owned(),
            Command::SignCertificate => "SignCertificate".to_owned(),
            Command::CertificateSigned => "CertificateSigned".to_owned(),
            Command::StartTransaction => "StartTransaction".to_owned(),
            Command::MeterValues => "MeterValues".to_owned(),
            Command::StopTransaction => "StopTransaction".to_owned(),
            Command::Authorize => "Authorize".to_owned(),
        }
    }

    /// The command named by `value`, matched without regard to ASCII case;
    /// `None` for a name that is not a command.
    pub fn from_name(value: &str) -> (r: Option<Command>)
        ensures
            r == Command::from_name_spec(value@),
    {
        if eq_ignore_ascii_case(value, "BootNotification") {
            Some(Command::BootNotification)
        } else if eq_ignore_ascii_case(value, "StatusNotification") {
            Some(Command::StatusNotification)
        } else if eq_ignore_ascii_case(value, "Heartbeat") {
            Some(Command::Heartbeat)
        } else if eq_ignore_ascii_case(value, "SignCertificate") {
            Some(Command::SignCertificate)
        } else if eq_ignore_ascii_case(value, "CertificateSigned") {
            Some(Command::CertificateSigned)
        } else if eq_ignore_ascii_case(value, "StartTransaction") {
            Some(Command::StartTransaction)
        } else if eq_ignore_ascii_case(value, "MeterValues") {
            Some(Command::MeterValues)
        } else if eq_ignore_ascii_case(value, "StopTransaction") {
            Some(Command::StopTransaction)
        } else if eq_ignore_ascii_case(value, "Authorize") {
            Some(Command::Authorize)
        } else {
            None
        }
    }
}

/// Every command's canonical name reads back as that command.
pub proof fn lemma_command_name(c: Command)
    ensures
        Command::from_name_spec(c.name()) == Some(c),
{
    reveal_strlit("BootNotification");
    reveal_strlit("StatusNotification");
    reveal_strlit("Heartbeat");
    reveal_strlit("SignCertificate");
    reveal_strlit("CertificateSigned");
    reveal_strlit("StartTransaction");
    reveal_strlit("MeterValues");
    reveal_strlit("StopTransaction");
    reveal_strlit("Authorize");
    assert(folded("StartTransaction"@[0]) != folded("BootNotification"@[0]));
    assert(folded("StopTransaction"@[1]) != folded("SignCertificate"@[1]));
    assert(folded("Authorize"@[0]) != folded("Heartbeat"@[0]));
}

/// The verdict carried in a reply's payload.
#[derive(Clone, Copy, Debug, PartialEq, Eq, Structural)]
pub enum Status {
    Accepted,
    Rejected,
}

impl Status {
    pub open spec fn name(self) -> Seq<char> {
        match self {
            Status::Accepted => "Accepted"@,
            Status::Rejected => "Rejected"@,
        }
    }

    pub fn to_string(&self) -> (r: String)
        ensures
            r@ == self.name(),
    {
        match self {
            Status::Accepted => "Accepted".to_owned(),
            Status::Rejected => "Rejected".to_owned(),
        }
    }

    /// The status as a payload value: its name as a string.
    pub fn to_value(&self) -> (r: Value)
        ensures
            is_text(r, self.name()),
    {
        Value::Str(self.to_string())
    }
}

/// One protocol frame.
#[derive(Debug, PartialEq)]
pub struct Message {
    pub role: MessageType,
    pub id: String,
    pub command: Option<Command>,
    pub payload: Option<Value>,
}

impl Message {
    pub fn new(role: MessageType, id: String, command: Option<Command>, payload: Option<Value>) -> (r:
        Message)
        ensures
            r == (Message { role, id, command, payload }),
    {
        Message { role, id, command, payload }
    }
}

/// Why a frame could not be read.
#[derive(Clone, Copy, Debug, PartialEq, Eq, Structural)]
pub enum ParseError {
    /// The text is not a JSON document.
    Malformed,
    /// The document is not an array of at least two elements.
    InvalidLength,
    /// The first element is not the type code 2, 3 or 4.
    InvalidType,
    /// The second element is not a non-empty string.
    InvalidId,
}

/// The role that the first element of a frame gives: the code must be a
/// non-negative integer without fraction or exponent.
pub open spec fn role_of(v: Value) -> Option<MessageType> {
    match v {
        Value::Number(n) => if n.positive && n.exponent == 0 {
            MessageType::from_code_spec(n.mantissa)
        } else {
            None
        },
        _ => None,
    }
}

/// The command that the third element of a frame names, if any.
pub open spec fn command_of(v: Value) -> Option<Command> {
    match v {
        Value::Str(s) => Command::from_name_spec(s@),
        _ => None,
    }
}

/// The message that a frame holds, or why it holds none.
pub open spec fn decode_spec(frame: Value) -> Result<Message, ParseError> {
    match frame {
        Value::Array(items) => if items.len() < 2 {
            Err(ParseError::InvalidLength)
        } else {
            match role_of(items@[0]) {
                None => Err(ParseError::InvalidType),
                Some(role) => match items@[1] {
                    Value::Str(id) => if id@.len() == 0 {
                        Err(ParseError::InvalidId)
                    } else {
                        Ok(
                            Message {
                                role,
                                id,
                                command: if items.len() > 2 {
                                    command_of(items@[2])
                                } else {
                                    None
                                },
                                payload: if items.len() > 3 {
                                    Some(items@[3])
                                } else {
                                    None
                                },
                            },
                        )
                    },
                    _ => Err(ParseError::InvalidId),
                },
            }
        },
        _ => Err(ParseError::InvalidLength),
    }
}

/// `frame` is the array that stands for `m` on the wire: type code, id,
/// then the command's canonical name if there is one, then the payload if
/// there is one.
pub open spec fn is_frame_of(frame: Value, m: Message) -> bool {
    frame matches Value::Array(items) && {
        let n = 2 + (if m.command is Some { 1int } else { 0int }) + (if m.payload is Some {
            1int
        } else {
            0int
        });
        &&& items.len() == n
        &&& is_count(items@[0], m.role.code_spec())
        &&& items@[1] == Value::Str(m.id)
        &&& (m.command matches Some(c) ==> is_text(items@[2], c.name()))
        &&& (m.payload matches Some(p) ==> items@[n - 1] == p)
    }
}

fn role_from(v: &Value) -> (r: Option<MessageType>)
    ensures
        r == role_of(*v),
{
    match v {
        Value::Number(n) => {
            if n.positive && n.exponent == 0 && n.mantissa <= 255 {
                MessageType::from_code(n.mantissa as u8)
            } else {
                None
            }
        },
        _ => None,
    }
}

/// Reads a message out of a frame.
pub fn decode_frame(frame: Value) -> (r: Result<Message, ParseError>)
    ensures
        r == decode_spec(frame),
{
    match frame {
        Value::Array(mut items) => {
            let ghost all = items@;
            let n = items.len();
            if n < 2 {
                return Err(ParseError::InvalidLength);
            }
            let role = match role_from(&items[0]) {
                Some(role) => role,
                None => return Err(ParseError::InvalidType),
            };
            items.truncate(4);
            assert(items@ == all.subrange(0, if n < 4 { n as int } else { 4 }));
            let payload = if n > 3 {
                Some(items.remove(3))
            } else {
                None
            };
            let command = if n > 2 {
                match items.remove(2) {
                    Value::Str(s) => Command::from_name(s.as_str()),
                    _ => None,
                }
            } else {
                None
            };
            match items.remove(1) {
                Value::Str(id) => {
                    if id.as_str().unicode_len() == 0 {
                        Err(ParseError::InvalidId)
                    } else {
                        Ok(Message { role, id, command, payload })
                    }
                },
                _ => Err(ParseError::InvalidId),
            }
        },
        _ => Err(ParseError::InvalidLength),
    }
}

/// Lays a message out as a frame.
pub fn encode_frame(message: Message) -> (r: Value)
    ensures
        is_frame_of(r, message),
{
    let Message { role, id, command, payload } = message;
    let mut items: Vec<Value> = Vec::new();
    items.push(Value::count(role.code() as u64));
    items.push(Value::Str(id));
    match command {
        Some(c) => items.push(Value::Str(c.to_string())),
        None => {},
    }
    match payload {
        Some(p) => items.push(p),
        None => {},
    }
    Value::Array(items)
}

/// Reading a frame back gives the message it was laid out from, for every
/// message with a recognised command and a non-empty id, whatever its
/// payload.
pub proof fn lemma_round_trip(m: Message, frame: Value)
    requires
        m.id@.len() > 0,
        m.command is Some,
        is_frame_of(frame, m),
    ensures
        decode_spec(frame) == Ok::<Message, ParseError>(m),
{
    lemma_command_name(m.command->Some_0);
}

/// Why a request gets no reply.
#[derive(Clone, Copy, Debug, PartialEq, Eq, Structural)]
pub enum DispatchError {
    /// A Call without a recognised command.
    EmptyCommand,
    /// A frame that is not a Call: replies are not answered.
    NoResponse,
    /// The command needs a payload and the request has none.
    MissingPayload,
    /// A field that the command needs is absent from the payload or is not
    /// of the kind needed.
    MissingField,
    /// The certification authority produced no certificate.
    Signing(SigningError),
    /// The certification authority reported success with no certificate.
    NoCertificate,
    /// The identifier drawn for the new Call equals the request's.
    IdCollision,
}

/// Answers request frames with the frames to send back, in order.
pub trait CentralSystem {
    fn make_response(&mut self, request: Message) -> Result<Vec<Message>, DispatchError>;
}

/// `r` agrees with `e`, the reading of a document: the same error, or
/// messages with the same role, id characters and command, and payloads
/// that are the same tree.
pub open spec fn decoded_same(r: Result<Message, ParseError>, e: Result<Message, ParseError>) -> bool {
    match r {
        Ok(m) => e matches Ok(n) && m.role == n.role && m.id@ == n.id@ && m.command == n.command
            && (m.payload is Some <==> n.payload is Some) && (m.payload is Some ==> same(
            m.payload->Some_0,
            n.payload->Some_0,
        )),
        Err(x) => e == Err::<Message, ParseError>(x),
    }
}

/// Two trees that are the same read as agreeing messages.
pub proof fn lemma_decode_same(x: Value, doc: Value)
    requires
        same(x, doc),
    ensures
        decoded_same(decode_spec(x), decode_spec(doc)),
{
    if let Value::Array(xs) = x {
        let ys = doc->Array_0;
        lemma_same_seq(xs@, ys@);
        if xs@.len() >= 2 {
            assert(same(xs@[0], ys@[0]));
            assert(same(xs@[1], ys@[1]));
            if xs@.len() > 2 {
                assert(same(xs@[2], ys@[2]));
            }
            if xs@.len() > 3 {
                assert(same(xs@[3], ys@[3]));
            }
        }
    }
}

/// `d` is a frame laid out for `m` as far as its head goes: type code, id,
/// and the command's canonical name, with one more element for a payload.
pub open spec fn frame_head_of(d: Value, m: Message) -> bool {
    d matches Value::Array(xs) && {
        let n = 2 + (if m.command is Some { 1int } else { 0int }) + (if m.payload is Some {
            1int
        } else {
            0int
        });
        &&& xs@.len() == n
        &&& is_count(xs@[0], m.role.code_spec())
        &&& is_text(xs@[1], m.id@)
        &&& (m.command matches Some(c) ==> is_text(xs@[2], c.name()))
    }
}

/// Reads one frame of text into a message: text that json does not read
/// gives `Malformed`; otherwise the result agrees with what `decode_spec`
/// gives for the document json reads.
pub fn unpack_message(raw: &str) -> (r: Result<Message, ParseError>)
    requires
        raw@.len() <= MAX_JSON_CHARS,
    ensures
        match json_document(raw@) {
            None => r == Err::<Message, ParseError>(ParseError::Malformed),
            Some(doc) => decoded_same(r, decode_spec(doc)),
        },
{
    match read_json(raw) {
        Some(frame) => {
            proof {
                lemma_decode_same(frame, json_document(raw@)->Some_0);
            }
            decode_frame(frame)
        },
        None => Err(ParseError::Malformed),
    }
}

/// Writes a message as one frame of text: the text json writes for a
/// document whose head is the message's type code, id and command, and
/// whose last element is the payload wherever json stores the payload as it
/// stands.
pub fn pack_message(message: Message) -> (r: Result<String, ()>)
    ensures
        r matches Ok(s) && exists|d: Value| #[trigger] frame_head_of(d, message) && s@ == json_text(d)
            && (message.payload is Some && kept(message.payload->Some_0) ==> same(
            d->Array_0@[d->Array_0@.len() - 1],
            message.payload->Some_0,
        )),
{
    let ghost m = message;
    let frame = encode_frame(message);
    let s = write_json(&frame);
    proof {
        let d = choose|d: Value| #[trigger] shallow_same(d, frame) && (kept(frame) ==> same(d, frame))
            && s@ == json_text(d);
        let xs = frame->Array_0;
        if m.payload is Some && kept(m.payload->Some_0) {
            let n = xs@.len() - 1;
            assert forall|i: int| 0 <= i < xs@.len() implies #[trigger] kept(xs@[i]) by {
                if i == n {
                    assert(xs@[i] == m.payload->Some_0);
                }
            }
            lemma_kept_seq_from(xs@);
            lemma_same_seq(d->Array_0@, xs@);
            assert(same(d->Array_0@[n], xs@[n]));
        }
        assert(flat_same(d->Array_0@[0], xs@[0]));
        assert(flat_same(d->Array_0@[1], xs@[1]));
        if m.command is Some {
            assert(flat_same(d->Array_0@[2], xs@[2]));
        }
        assert(frame_head_of(d, m));
    }
    Ok(s)
}

} // verus!
