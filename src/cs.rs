//! The central system: answers each request frame with the frames the
//! protocol owes it, including the two-frame certificate exchange.
use vstd::prelude::*;
use crate::ocpp::{
    CentralSystem as OcppCentralSystem, Command, DispatchError, Message, MessageType, Status,
};
use crate::value::{Field, Value, field_of, is_count, is_text};
use crate::x509::{Certificate, CertificateSignRequest, CertificationAuthority, SigningError};

verus! {

/// The expiry date that every accepted tag and token carries.
pub open spec fn far_future() -> Seq<char> {
    "2030-12-31T11:59:59.000000Z"@
}

/// The digit for `n` (below 16) in lower-case hexadecimal.
pub open spec fn hex_digit(n: int) -> char {
    "0123456789abcdef"@[n]
}

/// Lower-case hexadecimal text of `b`: two digits per byte, high first.
pub open spec fn hex_of(b: Seq<u8>) -> Seq<char>
    decreases b.len(),
{
    if b.len() == 0 {
        Seq::empty()
    } else {
        hex_of(b.drop_last()) + seq![hex_digit(b.last() as int / 16), hex_digit(b.last() as int % 16)]
    }
}

/// `v` is an object whose keys are `keys`, in that order.
pub open spec fn keys_are(v: Value, keys: Seq<Seq<char>>) -> bool {
    v matches Value::Object(f) && f@.len() == keys.len() && forall|i: int|
        0 <= i < keys.len() ==> #[trigger] f@[i].key@ == keys[i]
}

/// The value of the `i`-th field of the object `v`.
pub open spec fn member(v: Value, i: int) -> Value {
    v->Object_0@[i].value
}

/// `m` answers the request with id `id`: a CallResult with that id, no
/// command, and a payload.
pub open spec fn answers(m: Message, id: String) -> bool {
    &&& m.role == MessageType::CallResult
    &&& m.id == id
    &&& m.command is None
    &&& m.payload is Some
}

pub open spec fn boot_payload(v: Value, now: Seq<char>) -> bool {
    &&& keys_are(v, seq!["status"@, "currentTime"@, "interval"@])
    &&& is_text(member(v, 0), "Accepted"@)
    &&& is_text(member(v, 1), now)
    &&& is_count(member(v, 2), 60)
}

pub open spec fn heartbeat_payload(v: Value, now: Seq<char>) -> bool {
    keys_are(v, seq!["currentTime"@]) && is_text(member(v, 0), now)
}

pub open spec fn empty_payload(v: Value) -> bool {
    keys_are(v, Seq::empty())
}

/// `{status: Accepted, <key>: far_future()}`
pub open spec fn accepted_until(v: Value, key: Seq<char>) -> bool {
    &&& keys_are(v, seq!["status"@, key])
    &&& is_text(member(v, 0), "Accepted"@)
    &&& is_text(member(v, 1), far_future())
}

pub open spec fn start_payload(v: Value, unix_seconds: i64) -> bool {
    &&& keys_are(v, seq!["transactionId"@, "idTagInfo"@])
    &&& is_count(member(v, 0), (unix_seconds as u32) as u64)
    &&& accepted_until(member(v, 1), "expiryDate"@)
}

pub open spec fn stop_payload(v: Value) -> bool {
    accepted_until(v, "expiryDate"@)
}

pub open spec fn authorize_payload(v: Value, evse: Value) -> bool {
    &&& keys_are(v, seq!["evseId"@, "idTokenInfo"@])
    &&& member(v, 0) == evse
    &&& accepted_until(member(v, 1), "cacheExpiryDateTime"@)
}

pub open spec fn ack_payload(v: Value) -> bool {
    keys_are(v, seq!["status"@]) && is_text(member(v, 0), "Accepted"@)
}

/// `m` is the Call that hands the certificate `cert` to the station.
pub open spec fn certificate_signed(
    m: Message,
    id: String,
    cert: Seq<u8>,
    cert_type: Seq<char>,
) -> bool {
    &&& m.role == MessageType::Call
    &&& m.id == id
    &&& m.command == Some(Command::CertificateSigned)
    &&& m.payload matches Some(v) && {
        &&& keys_are(v, seq!["cert"@, "typeOfCertificate"@])
        &&& member(v, 0) matches Value::Array(a) && a@.len() == 1 && is_text(a@[0], hex_of(cert))
        &&& is_text(member(v, 1), cert_type)
    }
}

/// The payload that a command other than SignCertificate and Authorize
/// gets, whatever the clock read.
pub open spec fn routine_payload(c: Command, v: Value) -> bool {
    match c {
        Command::BootNotification => exists|now: Seq<char>|
            utc_time_text(now) && #[trigger] boot_payload(v, now),
        Command::Heartbeat => exists|now: Seq<char>|
            utc_time_text(now) && #[trigger] heartbeat_payload(v, now),
        Command::StartTransaction => exists|s: i64| #[trigger] start_payload(v, s),
        Command::StopTransaction => stop_payload(v),
        _ => empty_payload(v),
    }
}

/// The string fields that a SignCertificate request must carry.
pub open spec fn has_sign_fields(p: Value) -> bool {
    &&& field_of(p, "typeOfCertificate"@) matches Some(Value::Str(_))
    &&& field_of(p, "csr"@) matches Some(Value::Str(_))
}

/// What an Authorize request gets: its `evseId` echoed back.
pub open spec fn authorize_outcome(request: Message, r: Result<Vec<Message>, DispatchError>) -> bool {
    match request.payload {
        None => r == Err::<Vec<Message>, DispatchError>(DispatchError::MissingPayload),
        Some(p) => match field_of(p, "evseId"@) {
            None => r == Err::<Vec<Message>, DispatchError>(DispatchError::MissingField),
            Some(e) => r matches Ok(ms) && ms@.len() == 1 && answers(ms@[0], request.id)
                && authorize_payload(ms@[0].payload->Some_0, e),
        },
    }
}

/// What a SignCertificate request gets: both frames of the exchange, or an
/// error and no frame. Which of the two comes after the fields are read is
/// the certification authority's decision.
pub open spec fn sign_outcome(request: Message, r: Result<Vec<Message>, DispatchError>) -> bool {
    match request.payload {
        None => r == Err::<Vec<Message>, DispatchError>(DispatchError::MissingPayload),
        Some(p) => if !has_sign_fields(p) {
            r == Err::<Vec<Message>, DispatchError>(DispatchError::MissingField)
        } else {
            match r {
                Ok(ms) => {
                    &&& ms@.len() == 2
                    &&& ms@[1].id@ != request.id@
                    &&& ms@[1].id@.len() == 36
                    &&& answers(ms@[0], request.id)
                    &&& ack_payload(ms@[0].payload->Some_0)
                    &&& exists|id: String, cert: Seq<u8>| #[trigger]
                        certificate_signed(
                            ms@[1],
                            id,
                            cert,
                            field_of(p, "typeOfCertificate"@)->Some_0->Str_0@,
                        )
                },
                Err(e) => e is Signing || e is NoCertificate || e is IdCollision,
            }
        },
    }
}

/// What a Call with the command `c` gets.
pub open spec fn call_outcome(request: Message, c: Command, r: Result<Vec<Message>, DispatchError>) -> bool {
    match c {
        Command::Authorize => authorize_outcome(request, r),
        Command::SignCertificate => sign_outcome(request, r),
        _ => r matches Ok(ms) && ms@.len() == 1 && answers(ms@[0], request.id)
            && routine_payload(c, ms@[0].payload->Some_0),
    }
}

/// Every recognised command but SignCertificate gets exactly one reply, a
/// CallResult with the request's id; for Authorize, where the request
/// carries the `evseId` that the reply echoes.
pub proof fn lemma_one_reply(request: Message, r: Result<Vec<Message>, DispatchError>)
    requires
        request.role == MessageType::Call,
        request.command is Some,
        request.command != Some(Command::SignCertificate),
        request.command == Some(Command::Authorize) ==> (request.payload matches Some(p)
            && field_of(p, "evseId"@) is Some),
        call_outcome(request, request.command->Some_0, r),
    ensures
        r matches Ok(ms) && ms@.len() == 1 && ms@[0].role == MessageType::CallResult && ms@[0].id
            == request.id,
{
}

/// Relies on hex::encode: two lower-case hexadecimal digits per byte, in
/// order.
#[verifier::external_body]
fn hex_encode(data: &[u8]) -> (r: String)
    ensures
        r@ == hex_of(data@),
{
    hex::encode(data)
}

pub open spec fn is_digit(c: char) -> bool {
    '0' <= c <= '9'
}

/// `s[from..to]` are all decimal digits.
pub open spec fn digits(s: Seq<char>, from: int, to: int) -> bool {
    0 <= from <= to <= s.len() && forall|i: int| from <= i < to ==> #[trigger] is_digit(s[i])
}

/// The year that opens `s` ends at `y`: four digits, or a sign and at
/// least four digits for a year outside 0 to 9999.
pub open spec fn year_ends_at(s: Seq<char>, y: int) -> bool {
    ||| y == 4 && digits(s, 0, 4)
    ||| y >= 5 && y <= s.len() && (s[0] == '+' || s[0] == '-') && digits(s, 1, y)
}

/// RFC 3339 text of a UTC time as chrono writes it:
/// `YYYY-MM-DDTHH:MM:SS`, then no fraction or a fraction of 3, 6 or 9
/// digits, then the offset `+00:00`.
pub open spec fn utc_time_text(s: Seq<char>) -> bool {
    exists|y: int| #[trigger] year_ends_at(s, y) && utc_time_after_year(s, y)
}

/// The rest of `utc_time_text` once the year ends at `y`.
pub open spec fn utc_time_after_year(s: Seq<char>, y: int) -> bool {
    let f = s.len() - 6;
    &&& y + 15 <= f
    &&& s[y] == '-' && digits(s, y + 1, y + 3) && s[y + 3] == '-' && digits(s, y + 4, y + 6)
    &&& s[y + 6] == 'T' && digits(s, y + 7, y + 9) && s[y + 9] == ':' && digits(s, y + 10, y + 12)
    &&& s[y + 12] == ':' && digits(s, y + 13, y + 15)
    &&& (f == y + 15 || (s[y + 15] == '.' && (f - y - 16 == 3 || f - y - 16 == 6 || f - y - 16 == 9)
        && digits(s, y + 16, f)))
    &&& s.subrange(f, s.len() as int) == "+00:00"@
}

/// Relies on chrono::Utc::now and DateTime::to_rfc3339: the time now as
/// RFC 3339 text with the zero offset written out.
#[verifier::external_body]
fn now_rfc3339() -> (r: String)
    ensures
        utc_time_text(r@),
{
    chrono::Utc::now().to_rfc3339()
}

/// Relies on chrono::Utc::now and DateTime::timestamp: whole seconds since
/// the Unix epoch.
#[verifier::external_body]
fn unix_seconds() -> i64 {
    chrono::Utc::now().timestamp()
}

/// Relies on uuid::Uuid::new_v4 and its `Display`: a random identifier,
/// written in the 36-character hyphenated form.
#[verifier::external_body]
fn fresh_id() -> (r: String)
    ensures
        r@.len() == 36,
{
    uuid::Uuid::new_v4().to_string()
}

fn field(key: &str, value: Value) -> (r: Field)
    ensures
        r.key@ == key@,
        r.value == value,
{
    Field { key: key.to_owned(), value }
}

fn reply(id: String, payload: Value) -> (r: Message)
    ensures
        r == (Message { role: MessageType::CallResult, id, command: None, payload: Some(payload) }),
{
    Message::new(MessageType::CallResult, id, None, Some(payload))
}

/// `{status: Accepted, <key>: far_future()}`
fn accepted_until_value(key: &str) -> (r: Value)
    ensures
        accepted_until(r, key@),
{
    let mut f: Vec<Field> = Vec::new();
    f.push(field("status", Status::Accepted.to_value()));
    f.push(field(key, Value::text("2030-12-31T11:59:59.000000Z")));
    let r = Value::Object(f);
    assert(keys_are(r, seq!["status"@, key@]));
    r
}

pub fn make_boot_notification_response(id: String, now: String) -> (r: Message)
    ensures
        answers(r, id),
        boot_payload(r.payload->Some_0, now@),
{
    let mut f: Vec<Field> = Vec::new();
    f.push(field("status", Status::Accepted.to_value()));
    f.push(field("currentTime", Value::Str(now)));
    f.push(field("interval", Value::count(60)));
    let p = Value::Object(f);
    assert(keys_are(p, seq!["status"@, "currentTime"@, "interval"@]));
    reply(id, p)
}

pub fn make_status_notification_response(id: String) -> (r: Message)
    ensures
        answers(r, id),
        empty_payload(r.payload->Some_0),
{
    make_default_answer(id)
}

pub fn make_heartbeat_response(id: String, now: String) -> (r: Message)
    ensures
        answers(r, id),
        heartbeat_payload(r.payload->Some_0, now@),
{
    let mut f: Vec<Field> = Vec::new();
    f.push(field("currentTime", Value::Str(now)));
    let p = Value::Object(f);
    assert(keys_are(p, seq!["currentTime"@]));
    reply(id, p)
}

/// The transaction id is the Unix time in seconds cut to its low 32 bits:
/// two transactions started in one second get the same id.
pub fn make_start_transaction_response(id: String, unix_seconds: i64) -> (r: Message)
    ensures
        answers(r, id),
        start_payload(r.payload->Some_0, unix_seconds),
{
    let ts = unix_seconds as u32;
    let mut f: Vec<Field> = Vec::new();
    f.push(field("transactionId", Value::count(ts as u64)));
    f.push(field("idTagInfo", accepted_until_value("expiryDate")));
    let p = Value::Object(f);
    assert(keys_are(p, seq!["transactionId"@, "idTagInfo"@]));
    reply(id, p)
}

pub fn make_stop_transaction_response(id: String) -> (r: Message)
    ensures
        answers(r, id),
        stop_payload(r.payload->Some_0),
{
    reply(id, accepted_until_value("expiryDate"))
}

/// Echoes the request's `evseId`, whatever value it holds.
pub fn make_authorize_response(id: String, payload: Option<Value>) -> (r: Result<
    Message,
    DispatchError,
>)
    ensures
        match payload {
            None => r == Err::<Message, DispatchError>(DispatchError::MissingPayload),
            Some(p) => match field_of(p, "evseId"@) {
                None => r == Err::<Message, DispatchError>(DispatchError::MissingField),
                Some(e) => r matches Ok(m) && answers(m, id) && authorize_payload(
                    m.payload->Some_0,
                    e,
                ),
            },
        },
{
    let p = match payload {
        Some(p) => p,
        None => return Err(DispatchError::MissingPayload),
    };
    let evse = match p.take_field("evseId") {
        Some(e) => e,
        None => return Err(DispatchError::MissingField),
    };
    let mut f: Vec<Field> = Vec::new();
    f.push(field("evseId", evse));
    f.push(field("idTokenInfo", accepted_until_value("cacheExpiryDateTime")));
    let v = Value::Object(f);
    assert(keys_are(v, seq!["evseId"@, "idTokenInfo"@]));
    Ok(reply(id, v))
}

pub fn make_meter_values_response(id: String) -> (r: Message)
    ensures
        answers(r, id),
        empty_payload(r.payload->Some_0),
{
    make_default_answer(id)
}

/// The acknowledgement of a command that needs nothing more: an empty
/// object.
pub fn make_default_answer(id: String) -> (r: Message)
    ensures
        answers(r, id),
        empty_payload(r.payload->Some_0),
{
    let p = Value::Object(Vec::new());
    assert(keys_are(p, Seq::empty()));
    reply(id, p)
}

/// The Call that hands a signed certificate to the station.
pub fn make_certificate_signed(id: String, cert: &Certificate, cert_type: String) -> (r: Message)
    ensures
        certificate_signed(r, id, cert.data@, cert_type@),
{
    let mut certs: Vec<Value> = Vec::new();
    certs.push(Value::Str(hex_encode(cert.data.as_slice())));
    let mut f: Vec<Field> = Vec::new();
    f.push(field("cert", Value::Array(certs)));
    f.push(field("typeOfCertificate", Value::Str(cert_type)));
    let p = Value::Object(f);
    assert(keys_are(p, seq!["cert"@, "typeOfCertificate"@]));
    Message::new(MessageType::Call, id, Some(Command::CertificateSigned), Some(p))
}

/// The frames of a certificate exchange once the authority has answered:
/// the acknowledgement of the request and the new Call, in that order, or
/// an error and no frame at all.
pub fn certificate_exchange(
    request_id: String,
    cert_type: String,
    signed: Result<Vec<Certificate>, SigningError>,
    new_id: String,
) -> (r: Result<Vec<Message>, DispatchError>)
    ensures
        signed matches Err(e) ==> r == Err::<Vec<Message>, DispatchError>(
            DispatchError::Signing(e),
        ),
        signed matches Ok(certs) && certs@.len() == 0 ==> r == Err::<Vec<Message>, DispatchError>(
            DispatchError::NoCertificate,
        ),
        signed is Ok && signed->Ok_0@.len() > 0 ==> (r matches Ok(ms) && ms@.len() == 2
            && answers(ms@[0], request_id) && ack_payload(ms@[0].payload->Some_0)
            && certificate_signed(ms@[1], new_id, signed->Ok_0@[0].data@, cert_type@)),
{
    let certs = match signed {
        Ok(certs) => certs,
        Err(e) => return Err(DispatchError::Signing(e)),
    };
    if certs.len() == 0 {
        return Err(DispatchError::NoCertificate);
    }
    let mut f: Vec<Field> = Vec::new();
    f.push(field("status", Status::Accepted.to_value()));
    let p = Value::Object(f);
    assert(keys_are(p, seq!["status"@]));
    let ack = reply(request_id, p);
    let call = make_certificate_signed(new_id, &certs[0], cert_type);
    let mut out: Vec<Message> = Vec::new();
    out.push(ack);
    out.push(call);
    Ok(out)
}

/// The central system, holding the certification authority that signs
/// the stations' certificate requests.
pub struct CentralSystem<A> {
    ca: A,
}

impl<A: CertificationAuthority> CentralSystem<A> {
    /// The certification authority held.
    pub closed spec fn authority(&self) -> A {
        self.ca
    }

    pub fn new(ca: A) -> (r: CentralSystem<A>)
        ensures
            r.authority() == ca,
    {
        CentralSystem { ca }
    }

    /// Reads the request fields, has the authority sign the request (in PEM
    /// format, with the bytes of `csr`), and on success draws a new id for
    /// the Call that carries the certificate.
    pub fn make_sign_certificate_response(&self, request: Message) -> (r: Result<
        Vec<Message>,
        DispatchError,
    >)
        ensures
            sign_outcome(request, r),
    {
        let p = match request.payload {
            Some(p) => p,
            None => return Err(DispatchError::MissingPayload),
        };
        let cert_type = match p.get_text("typeOfCertificate") {
            Some(t) => t,
            None => return Err(DispatchError::MissingField),
        };
        let csr = match p.get_text("csr") {
            Some(c) => c,
            None => return Err(DispatchError::MissingField),
        };
        let signed = self.ca.sign(CertificateSignRequest::pem(csr.as_str()));
        let new_id = if signed.is_ok() {
            fresh_id()
        } else {
            String::new()
        };
        if signed.is_ok() && new_id == request.id {
            return Err(DispatchError::IdCollision);
        }
        let ghost certs = signed;
        let r = certificate_exchange(request.id, cert_type, signed, new_id);
        proof {
            assert(has_sign_fields(p));
            assert(field_of(p, "typeOfCertificate"@)->Some_0->Str_0@ == cert_type@);
            if r is Ok {
                assert(certificate_signed(r->Ok_0@[1], new_id, certs->Ok_0@[0].data@, cert_type@));
                assert(r->Ok_0@.len() == 2);
                assert(answers(r->Ok_0@[0], request.id));
                assert(r->Ok_0@[1].id == new_id);
            } else {
                assert(r->Err_0 is Signing || r->Err_0 is NoCertificate);
            }
        }
        r
    }

    /// Answers one request. Only a Call with a recognised command is
    /// answered; every command but SignCertificate gets one CallResult with
    /// the request's id.
    pub fn make_response(&mut self, request: Message) -> (r: Result<Vec<Message>, DispatchError>)
        ensures
            *final(self) == *old(self),
            request.role != MessageType::Call ==> r == Err::<Vec<Message>, DispatchError>(
                DispatchError::NoResponse,
            ),
            request.role == MessageType::Call && request.command is None ==> r == Err::<
                Vec<Message>,
                DispatchError,
            >(DispatchError::EmptyCommand),
            request.role == MessageType::Call && request.command is Some ==> call_outcome(
                request,
                request.command->Some_0,
                r,
            ),
    {
        let c = match request.role {
            MessageType::Call => match request.command {
                Some(c) => c,
                None => return Err(DispatchError::EmptyCommand),
            },
            _ => return Err(DispatchError::NoResponse),
        };
        let id = request.id;
        let m = match c {
            Command::BootNotification => {
                let now = now_rfc3339();
                let m = make_boot_notification_response(id, now);
                assert(boot_payload(m.payload->Some_0, now@));
                m
            },
            Command::StatusNotification => make_status_notification_response(id),
            Command::Heartbeat => {
                let now = now_rfc3339();
                let m = make_heartbeat_response(id, now);
                assert(heartbeat_payload(m.payload->Some_0, now@));
                m
            },
            Command::SignCertificate => {
                let request = Message::new(request.role, id, request.command, request.payload);
                return self.make_sign_certificate_response(request);
            },
            Command::StartTransaction => {
                let s = unix_seconds();
                let m = make_start_transaction_response(id, s);
                assert(start_payload(m.payload->Some_0, s));
                m
            },
            Command::MeterValues => make_meter_values_response(id),
            Command::StopTransaction => make_stop_transaction_response(id),
            Command::Authorize => match make_authorize_response(id, request.payload) {
                Ok(m) => m,
                Err(e) => return Err(e),
            },
            _ => make_default_answer(id),
        };
        let mut out: Vec<Message> = Vec::new();
        out.push(m);
        Ok(out)
    }
}

impl<A: CertificationAuthority> OcppCentralSystem for CentralSystem<A> {
    fn make_response(&mut self, request: Message) -> Result<Vec<Message>, DispatchError> {
        CentralSystem::<A>::make_response(self, request)
    }
}

} // verus!
