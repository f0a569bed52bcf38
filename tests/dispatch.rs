use std::sync::{Arc, Mutex};

use dummy_central_system::cs::{make_start_transaction_response, CentralSystem};
use dummy_central_system::ocpp::{Command, DispatchError, Message, MessageType};
use dummy_central_system::value::{Field, Value};
use dummy_central_system::x509::{
    Certificate, CertificateSignRequest, CertificationAuthority, Format, SigningError,
};

struct StubAuthority {
    answer: Result<Vec<u8>, SigningError>,
    empty: bool,
    seen: Arc<Mutex<Vec<(Vec<u8>, Format)>>>,
}

impl StubAuthority {
    fn new(answer: Result<Vec<u8>, SigningError>) -> StubAuthority {
        StubAuthority {
            answer,
            empty: false,
            seen: Arc::new(Mutex::new(Vec::new())),
        }
    }
}

impl CertificationAuthority for StubAuthority {
    fn sign(&self, csr: CertificateSignRequest) -> Result<Vec<Certificate>, SigningError> {
        self.seen.lock().unwrap().push((csr.data.clone(), csr.format));
        let out = match &self.answer {
            Ok(_) if self.empty => Ok(Vec::new()),
            Ok(bytes) => Ok(vec![Certificate { data: bytes.clone(), format: Format::DER }]),
            Err(e) => Err(*e),
        };
        out
    }
}

fn text(s: &str) -> Value {
    Value::Str(s.to_string())
}

fn object(fields: Vec<(&str, Value)>) -> Value {
    Value::Object(
        fields
            .into_iter()
            .map(|(k, v)| Field { key: k.to_string(), value: v })
            .collect(),
    )
}

fn call(id: &str, c: Option<Command>, payload: Option<Value>) -> Message {
    Message::new(MessageType::Call, id.to_string(), c, payload)
}

fn system() -> CentralSystem<StubAuthority> {
    CentralSystem::new(StubAuthority::new(Ok(vec![0xde, 0xad, 0xbe, 0xef])))
}

fn far_future(key: &str) -> Value {
    object(vec![("status", text("Accepted")), (key, text("2030-12-31T11:59:59.000000Z"))])
}

fn field<'a>(v: &'a Value, key: &str) -> &'a Value {
    match v {
        Value::Object(fields) => &fields.iter().find(|f| f.key == key).unwrap().value,
        _ => panic!("not an object"),
    }
}

fn keys(v: &Value) -> Vec<String> {
    match v {
        Value::Object(fields) => fields.iter().map(|f| f.key.clone()).collect(),
        _ => panic!("not an object"),
    }
}

fn time_of(v: &Value) -> chrono::DateTime<chrono::FixedOffset> {
    match v {
        Value::Str(s) => chrono::DateTime::parse_from_rfc3339(s).unwrap(),
        _ => panic!("not a string"),
    }
}

fn single(r: Result<Vec<Message>, DispatchError>, id: &str) -> Value {
    let mut ms = r.unwrap();
    assert_eq!(ms.len(), 1);
    let m = ms.pop().unwrap();
    assert_eq!(m.role, MessageType::CallResult);
    assert_eq!(m.id, id);
    assert_eq!(m.command, None);
    m.payload.unwrap()
}

#[test]
fn boot_notification_is_accepted() {
    let mut cs = system();
    let p = single(cs.make_response(call("b1", Some(Command::BootNotification), None)), "b1");
    assert_eq!(keys(&p), vec!["status", "currentTime", "interval"]);
    assert_eq!(field(&p, "status"), &text("Accepted"));
    assert_eq!(field(&p, "interval"), &Value::count(60));
    time_of(field(&p, "currentTime"));
}

#[test]
fn heartbeat_time_does_not_go_back() {
    let mut cs = system();
    let p1 = single(cs.make_response(call("h1", Some(Command::Heartbeat), None)), "h1");
    let p2 = single(cs.make_response(call("h2", Some(Command::Heartbeat), None)), "h2");
    assert_eq!(keys(&p1), vec!["currentTime"]);
    match field(&p1, "currentTime") {
        Value::Str(t) => {
            assert!(t.len() >= 25 && t.ends_with("+00:00"));
            let b = t.as_bytes();
            assert!(b[..4].iter().all(|c| c.is_ascii_digit()));
            assert_eq!((b[4], b[7], b[10], b[13], b[16]), (b'-', b'-', b'T', b':', b':'));
            let frac = t.len() - 6 - 19;
            assert!(frac == 0 || (b[19] == b'.' && [4, 7, 10].contains(&frac)));
        },
        _ => panic!("not a string"),
    }
    assert_eq!(keys(&p2), vec!["currentTime"]);
    assert!(time_of(field(&p1, "currentTime")) <= time_of(field(&p2, "currentTime")));
}

#[test]
fn empty_acknowledgements() {
    let mut cs = system();
    for c in [Command::StatusNotification, Command::MeterValues, Command::CertificateSigned] {
        let p = single(cs.make_response(call("e", Some(c), Some(object(vec![])))), "e");
        assert_eq!(p, object(vec![]));
    }
}

#[test]
fn start_transaction_uses_the_clock() {
    let mut cs = system();
    let before = chrono::Utc::now().timestamp() as u32;
    let p = single(cs.make_response(call("s", Some(Command::StartTransaction), None)), "s");
    let after = chrono::Utc::now().timestamp() as u32;
    assert_eq!(keys(&p), vec!["transactionId", "idTagInfo"]);
    match field(&p, "transactionId") {
        Value::Number(n) => {
            assert!(n.positive && n.exponent == 0);
            assert!(before as u64 <= n.mantissa && n.mantissa <= after as u64);
        },
        _ => panic!("not a number"),
    }
    assert_eq!(field(&p, "idTagInfo"), &far_future("expiryDate"));
}

#[test]
fn start_transaction_id_is_cut_to_32_bits() {
    let m = make_start_transaction_response("t".to_string(), (1i64 << 32) + 5);
    assert_eq!(field(m.payload.as_ref().unwrap(), "transactionId"), &Value::count(5));
    let m = make_start_transaction_response("t".to_string(), 1_700_000_000);
    assert_eq!(field(m.payload.as_ref().unwrap(), "transactionId"), &Value::count(1_700_000_000));
}

#[test]
fn stop_transaction_is_accepted() {
    let mut cs = system();
    let p = single(cs.make_response(call("st", Some(Command::StopTransaction), None)), "st");
    assert_eq!(p, far_future("expiryDate"));
}

#[test]
fn authorize_echoes_evse() {
    let mut cs = system();
    let evse = Value::Array(vec![Value::count(1), Value::count(2)]);
    let req = call(
        "a",
        Some(Command::Authorize),
        Some(object(vec![("idToken", text("tok")), ("evseId", evse)])),
    );
    let p = single(cs.make_response(req), "a");
    assert_eq!(
        p,
        object(vec![
            ("evseId", Value::Array(vec![Value::count(1), Value::count(2)])),
            ("idTokenInfo", far_future("cacheExpiryDateTime")),
        ])
    );
}

#[test]
fn authorize_needs_payload_and_evse() {
    let mut cs = system();
    assert_eq!(
        cs.make_response(call("a", Some(Command::Authorize), None)),
        Err(DispatchError::MissingPayload)
    );
    assert_eq!(
        cs.make_response(call("a", Some(Command::Authorize), Some(object(vec![])))),
        Err(DispatchError::MissingField)
    );
}

fn sign_request(id: &str) -> Message {
    call(
        id,
        Some(Command::SignCertificate),
        Some(object(vec![
            ("csr", text("-----BEGIN CERTIFICATE REQUEST-----")),
            ("typeOfCertificate", text("ChargingStationCertificate")),
        ])),
    )
}

#[test]
fn sign_certificate_success() {
    let ca = StubAuthority::new(Ok(vec![0xde, 0xad, 0xbe, 0xef]));
    let seen = ca.seen.clone();
    let mut cs = CentralSystem::new(ca);
    let ms = cs.make_response(sign_request("r1")).unwrap();
    assert_eq!(ms.len(), 2);
    assert_eq!(ms[0].role, MessageType::CallResult);
    assert_eq!(ms[0].id, "r1");
    assert_eq!(ms[0].payload, Some(object(vec![("status", text("Accepted"))])));
    assert_eq!(ms[1].role, MessageType::Call);
    assert_ne!(ms[1].id, "r1");
    assert_eq!(ms[1].id.len(), 36);
    assert_eq!(ms[1].command, Some(Command::CertificateSigned));
    assert_eq!(
        ms[1].payload,
        Some(object(vec![
            ("cert", Value::Array(vec![text("deadbeef")])),
            ("typeOfCertificate", text("ChargingStationCertificate")),
        ]))
    );
    let seen = seen.lock().unwrap();
    assert_eq!(seen.len(), 1);
    assert_eq!(seen[0].0, b"-----BEGIN CERTIFICATE REQUEST-----".to_vec());
    assert_eq!(seen[0].1, Format::PEM);
}

#[test]
fn sign_certificate_ids_are_fresh() {
    let mut cs = system();
    let a = cs.make_response(sign_request("r")).unwrap();
    let b = cs.make_response(sign_request("r")).unwrap();
    assert_ne!(a[1].id, b[1].id);
}

#[test]
fn sign_certificate_failure_sends_nothing() {
    let mut cs = CentralSystem::new(StubAuthority::new(Err(SigningError::SigningFailed)));
    assert_eq!(
        cs.make_response(sign_request("r2")),
        Err(DispatchError::Signing(SigningError::SigningFailed))
    );
    let mut ca = StubAuthority::new(Ok(vec![1]));
    ca.empty = true;
    let mut cs = CentralSystem::new(ca);
    assert_eq!(cs.make_response(sign_request("r3")), Err(DispatchError::NoCertificate));
}

#[test]
fn sign_certificate_needs_fields() {
    let mut cs = system();
    assert_eq!(
        cs.make_response(call("s", Some(Command::SignCertificate), None)),
        Err(DispatchError::MissingPayload)
    );
    let no_csr = object(vec![("typeOfCertificate", text("V2G"))]);
    assert_eq!(
        cs.make_response(call("s", Some(Command::SignCertificate), Some(no_csr))),
        Err(DispatchError::MissingField)
    );
    let bad_type = object(vec![("typeOfCertificate", Value::count(1)), ("csr", text("x"))]);
    assert_eq!(
        cs.make_response(call("s", Some(Command::SignCertificate), Some(bad_type))),
        Err(DispatchError::MissingField)
    );
}

#[test]
fn call_without_command_is_refused() {
    let mut cs = system();
    assert_eq!(
        cs.make_response(call("n", None, Some(object(vec![])))),
        Err(DispatchError::EmptyCommand)
    );
}

#[test]
fn replies_get_no_response() {
    let mut cs = system();
    for role in [MessageType::CallResult, MessageType::CallError] {
        for c in [None, Some(Command::Heartbeat), Some(Command::SignCertificate)] {
            let m = Message::new(role, "x".to_string(), c, Some(object(vec![])));
            assert_eq!(cs.make_response(m), Err(DispatchError::NoResponse));
        }
    }
}
