use waybar_status::ac;
use waybar_status::client::decode::{read_outcome, write_outcome};
use waybar_status::client::endpoint::Endpoint;
use waybar_status::client::error::ClientError;
use waybar_status::client::message::{read_request, write_request, Datum, Fault, Reply, Request};
use waybar_status::client::simulator::Simulator;
use waybar_status::client::transport::{get, Client, Transport};
use waybar_status::client::value::Value;
use waybar_status::client::vars::Variable;

const ID: &str = "f4911e000001";
const KEY: &str = "0123456789abcdef";

fn endpoint() -> Endpoint {
    Endpoint::new("10.0.0.7", ID, KEY).unwrap()
}

fn device(power: i64) -> Client<Simulator> {
    let mut device = Simulator::new(ID, KEY);
    device.store(Variable::Power, Value::Int(power));
    Client::new(device)
}

fn silent(power: i64) -> Client<Simulator> {
    let mut device = device(power).into_transport();
    device.switch(false);
    Client::new(device)
}

/// A transport that answers every request with the reply it was given.
struct Canned {
    reply: Option<Reply>,
    seen: Vec<Request>,
}

impl Canned {
    fn new(reply: Reply) -> Canned {
        Canned { reply: Some(reply), seen: Vec::new() }
    }
}

impl Transport for Canned {
    fn round_trip(&mut self, _endpoint: &Endpoint, request: &Request) -> Reply {
        let copy = match request {
            Request::Read { device, variables } => {
                Request::Read { device: device.clone(), variables: variables.clone() }
            }
            Request::Write { device, assignments } => {
                Request::Write { device: device.clone(), assignments: assignments.clone() }
            }
        };
        self.seen.push(copy);
        self.reply.take().unwrap_or(Reply::Lost(Fault::RecvTimeout))
    }
}

#[test]
fn get_power_of_running_device_returns_one() {
    let mut device = device(1);
    let values = get(&mut device, &endpoint(), &[Variable::Power]);
    assert_eq!(values, Ok(vec![Value::Int(1)]));
    assert_eq!(ac::output(ac::is_running(&values)).class, "ac-on");
}

#[test]
fn get_from_unreachable_device_is_transport_error() {
    let mut device = silent(1);
    let values = get(&mut device, &endpoint(), &[Variable::Power]);
    assert_eq!(values, Err(ClientError::Transport));
    let shown = ac::output(ac::is_running(&values));
    assert_eq!(shown.class, "ac-off");
    assert_eq!(shown.text, "");
}

#[test]
fn unreachable_device_prints_the_off_block() {
    let mut device = silent(1);
    let shown = ac::poll(&mut device, &endpoint());
    let mut object = serde_json::Map::new();
    object.insert("class".to_string(), serde_json::Value::String(shown.class.to_string()));
    object.insert("text".to_string(), serde_json::Value::String(shown.text.to_string()));
    let printed = serde_json::to_string(&serde_json::Value::Object(object)).unwrap();
    assert_eq!(printed, "{\"class\":\"ac-off\",\"text\":\"\"}");
}

#[test]
fn set_power_off_then_get_returns_zero() {
    let mut device = device(1);
    let written = waybar_status::client::transport::set(
        &mut device,
        &endpoint(),
        &[(Variable::Power, Value::Int(0))],
    );
    assert_eq!(written, Ok(()));
    let values = get(&mut device, &endpoint(), &[Variable::Power]);
    assert_eq!(values, Ok(vec![Value::Int(0)]));
}

#[test]
fn get_keeps_the_order_of_the_request() {
    let mut device = Simulator::new(ID, KEY);
    device.store(Variable::Power, Value::Int(1));
    device.store(Variable::SetTemperature, Value::Int(25));
    device.store(Variable::Time, Value::Str("2018-05-11 19:42:01".to_string()));
    let mut device = Client::new(device);
    let values = get(
        &mut device,
        &endpoint(),
        &[Variable::Time, Variable::SetTemperature, Variable::Power, Variable::Mode],
    );
    assert_eq!(
        values,
        Ok(vec![
            Value::Str("2018-05-11 19:42:01".to_string()),
            Value::Int(25),
            Value::Int(1),
            Value::Int(0),
        ])
    );
}

#[test]
fn toggle_round_trip_shows_the_other_state() {
    for start in [0i64, 1] {
        let mut device = device(start);
        let before = get(&mut device, &endpoint(), &[Variable::Power]).unwrap();
        assert_eq!(before, vec![Value::Int(start)]);
        let other = ac::toggle_value(&before).unwrap();
        waybar_status::client::transport::set(
            &mut device,
            &endpoint(),
            &[(Variable::Power, other.clone())],
        )
        .unwrap();
        let after = get(&mut device, &endpoint(), &[Variable::Power]).unwrap();
        assert_eq!(after, vec![Value::Int(1 - start)]);
        assert_eq!(after, vec![other]);
    }
}

#[test]
fn toggle_writes_the_complement() {
    let mut on = device(1);
    assert_eq!(ac::toggle(&mut on, &endpoint()), Ok(Some(Value::Int(0))));
    assert_eq!(on.transport().load(Variable::Power), Value::Int(0));
    let mut off = device(0);
    assert_eq!(ac::toggle(&mut off, &endpoint()), Ok(Some(Value::Int(1))));
    assert_eq!(off.transport().load(Variable::Power), Value::Int(1));
    let mut odd = device(7);
    assert_eq!(ac::toggle(&mut odd, &endpoint()), Ok(Some(Value::Int(1))));
}

#[test]
fn toggle_leaves_a_state_that_is_no_number_alone() {
    let mut worded = Simulator::new(ID, KEY);
    worded.store(Variable::Power, Value::Str("on".to_string()));
    let mut worded = Client::new(worded);
    assert_eq!(ac::toggle(&mut worded, &endpoint()), Ok(None));
    assert_eq!(worded.transport().load(Variable::Power), Value::Str("on".to_string()));
    let mut negative = device(-1);
    assert_eq!(ac::toggle(&mut negative, &endpoint()), Ok(None));
}

#[test]
fn toggle_of_silent_device_fails_and_writes_nothing() {
    let mut device = silent(1);
    assert_eq!(ac::toggle(&mut device, &endpoint()), Err(ClientError::Transport));
    let mut device = device.into_transport();
    device.switch(true);
    assert_eq!(device.load(Variable::Power), Value::Int(1));
}

#[test]
fn wrong_count_is_shape_error() {
    let long = Reply::Status(vec![Datum::Number(1), Datum::Number(2)]);
    assert_eq!(
        read_outcome(1, long),
        Err(ClientError::Shape { requested: 1, received: 2 })
    );
    let short = Reply::Status(vec![Datum::Number(1)]);
    assert_eq!(
        read_outcome(3, short),
        Err(ClientError::Shape { requested: 3, received: 1 })
    );
    let empty = Reply::Status(Vec::new());
    assert_eq!(
        read_outcome(1, empty),
        Err(ClientError::Shape { requested: 1, received: 0 })
    );
}

#[test]
fn get_with_wrong_count_is_shape_error() {
    let mut transport =
        Client::new(Canned::new(Reply::Status(vec![Datum::Number(1), Datum::Text("x".to_string())])));
    let values = get(&mut transport, &endpoint(), &[Variable::Power]);
    assert_eq!(values, Err(ClientError::Shape { requested: 1, received: 2 }));
}

#[test]
fn timeout_is_transport_error() {
    assert_eq!(read_outcome(1, Reply::Lost(Fault::RecvTimeout)), Err(ClientError::Transport));
    assert_eq!(read_outcome(1, Reply::Lost(Fault::ResponseTimeout)), Err(ClientError::Transport));
    assert_eq!(write_outcome(Reply::Lost(Fault::RecvTimeout)), Err(ClientError::Transport));
    let mut transport = Client::new(Canned::new(Reply::Lost(Fault::RecvTimeout)));
    assert_eq!(
        get(&mut transport, &endpoint(), &[Variable::Power]),
        Err(ClientError::Transport)
    );
}

#[test]
fn corrupt_reply_is_protocol_error() {
    assert_eq!(read_outcome(1, Reply::Lost(Fault::SerDe)), Err(ClientError::Protocol));
    assert_eq!(read_outcome(1, Reply::Lost(Fault::Base64Decode)), Err(ClientError::Protocol));
    assert_eq!(write_outcome(Reply::Lost(Fault::SerDe)), Err(ClientError::Protocol));
    assert_eq!(
        read_outcome(1, Reply::Status(vec![Datum::Other])),
        Err(ClientError::Protocol)
    );
    assert_eq!(
        read_outcome(1, Reply::Status(vec![Datum::Number(1), Datum::Other])),
        Err(ClientError::Protocol)
    );
    assert_eq!(read_outcome(1, Reply::Done), Err(ClientError::Protocol));
    assert_eq!(write_outcome(Reply::Status(Vec::new())), Err(ClientError::Protocol));
}

#[test]
fn device_with_another_key_gives_protocol_error() {
    let mut device = Simulator::new(ID, "fedcba9876543210");
    device.store(Variable::Power, Value::Int(1));
    let mut device = Client::new(device);
    assert_eq!(
        get(&mut device, &endpoint(), &[Variable::Power]),
        Err(ClientError::Protocol)
    );
    assert_eq!(
        waybar_status::client::transport::set(
            &mut device,
            &endpoint(),
            &[(Variable::Power, Value::Int(0))]
        ),
        Err(ClientError::Protocol)
    );
    assert_eq!(device.transport().load(Variable::Power), Value::Int(1));
}

#[test]
fn device_with_another_name_does_not_answer() {
    let mut device = Client::new(Simulator::new("someone-else", KEY));
    assert_eq!(
        get(&mut device, &endpoint(), &[Variable::Power]),
        Err(ClientError::Transport)
    );
}

#[test]
fn every_fault_has_its_class() {
    let transport = [
        Fault::Io,
        Fault::Send,
        Fault::RecvTimeout,
        Fault::RecvDisconnected,
        Fault::ResponseTimeout,
        Fault::NotFound,
    ];
    for fault in transport {
        assert_eq!(fault.classify(), ClientError::Transport);
    }
    let protocol = [
        Fault::MacNotBound,
        Fault::SerDe,
        Fault::Base64Decode,
        Fault::ParseInt,
        Fault::InvalidVar,
        Fault::InvalidValue,
    ];
    for fault in protocol {
        assert_eq!(fault.classify(), ClientError::Protocol);
    }
}

#[test]
fn shape_errors_are_not_worth_a_retry() {
    assert!(ClientError::Transport.is_retryable());
    assert!(ClientError::Protocol.is_retryable());
    assert!(!ClientError::Shape { requested: 1, received: 2 }.is_retryable());
}

#[test]
fn requests_name_the_device_and_keep_their_content() {
    let read = read_request(&endpoint(), &[Variable::Power, Variable::Mode]);
    assert_eq!(
        read,
        Request::Read { device: ID.to_string(), variables: vec![Variable::Power, Variable::Mode] }
    );
    let write = write_request(&endpoint(), &[(Variable::Light, Value::Int(1))]);
    assert_eq!(
        write,
        Request::Write {
            device: ID.to_string(),
            assignments: vec![(Variable::Light, Value::Int(1))]
        }
    );
}

#[test]
fn get_sends_one_read_request() {
    let mut transport = Client::new(Canned::new(Reply::Status(vec![Datum::Number(1)])));
    let values = get(&mut transport, &endpoint(), &[Variable::Power]);
    assert_eq!(values, Ok(vec![Value::Int(1)]));
    assert_eq!(
        transport.transport().seen,
        vec![Request::Read { device: ID.to_string(), variables: vec![Variable::Power] }]
    );
}

#[test]
fn endpoint_needs_every_field() {
    assert!(Endpoint::new("", ID, KEY).is_none());
    assert!(Endpoint::new("10.0.0.7", "", KEY).is_none());
    assert!(Endpoint::new("10.0.0.7", ID, "").is_none());
    let endpoint = endpoint();
    assert_eq!(endpoint.address(), "10.0.0.7");
    assert_eq!(endpoint.id(), ID);
    assert_eq!(endpoint.key(), KEY);
}

#[test]
fn values_narrow_without_loss() {
    let number = Value::Int(-40);
    assert_eq!(number.as_int(), Some(-40));
    assert_eq!(number.as_u64(), None);
    assert_eq!(number.as_str(), None);
    assert_eq!(Value::Int(i64::MAX).as_u64(), Some(i64::MAX as u64));
    assert_eq!(Value::Int(i64::MIN).as_int(), Some(i64::MIN));
    let text = Value::Str("25".to_string());
    assert_eq!(text.as_str(), Some("25"));
    assert_eq!(text.as_int(), None);
    assert_eq!(text.as_u64(), None);
    assert!(text.same(&text.clone()));
    assert!(!text.same(&Value::Int(25)));
    assert!(Value::Int(25).same(&Value::Int(25)));
    assert!(!Value::Int(25).same(&Value::Int(26)));
}

#[test]
fn registry_gives_the_wire_names() {
    assert_eq!(Variable::Power.wire_name(), "Pow");
    assert_eq!(Variable::Mode.wire_name(), "Mod");
    assert_eq!(Variable::SetTemperature.wire_name(), "SetTem");
    assert_eq!(Variable::TemperatureUnit.wire_name(), "TemUn");
    assert_eq!(Variable::FanSpeed.wire_name(), "WdSpd");
    assert_eq!(Variable::FreshAir.wire_name(), "Air");
    assert_eq!(Variable::Blow.wire_name(), "Blo");
    assert_eq!(Variable::Health.wire_name(), "Health");
    assert_eq!(Variable::Sleep.wire_name(), "SwhSlp");
    assert_eq!(Variable::Light.wire_name(), "Lig");
    assert_eq!(Variable::SwingHorizontal.wire_name(), "SwingLfRig");
    assert_eq!(Variable::SwingVertical.wire_name(), "SwUpDn");
    assert_eq!(Variable::Quiet.wire_name(), "Quiet");
    assert_eq!(Variable::Turbo.wire_name(), "Tur");
    assert_eq!(Variable::SteadyHeat.wire_name(), "StHt");
    assert_eq!(Variable::HeatCoolType.wire_name(), "HeatCoolType");
    assert_eq!(Variable::TemperatureRecord.wire_name(), "TemRec");
    assert_eq!(Variable::EnergySaving.wire_name(), "SvSt");
    assert_eq!(Variable::TemperatureSensor.wire_name(), "TemSen");
    assert_eq!(Variable::Time.wire_name(), "time");
}

#[test]
fn registry_agrees_with_the_protocol_crate() {
    assert_eq!(Variable::Power.wire_name(), gree::vars::POW);
    assert_eq!(Variable::Time.wire_name(), gree::vars::TIME);
    assert_eq!(Variable::Power.position(), 0);
    assert_eq!(Variable::Time.position(), 19);
    assert_eq!(gree::vars::name_of(Variable::Sleep.wire_name()), Some("SwhSlp"));
}

#[test]
fn simulator_keeps_what_it_is_given() {
    let mut device = Simulator::new(ID, KEY);
    assert_eq!(device.load(Variable::Quiet), Value::Int(0));
    device.store(Variable::Quiet, Value::Int(1));
    assert_eq!(device.load(Variable::Quiet), Value::Int(1));
    assert_eq!(device.load(Variable::Turbo), Value::Int(0));
    let mut device = Client::new(device);
    let written = waybar_status::client::transport::set(
        &mut device,
        &endpoint(),
        &[
            (Variable::Turbo, Value::Int(1)),
            (Variable::Quiet, Value::Int(0)),
            (Variable::Turbo, Value::Int(2)),
        ],
    );
    assert_eq!(written, Ok(()));
    assert_eq!(device.transport().load(Variable::Turbo), Value::Int(2));
    assert_eq!(device.transport().load(Variable::Quiet), Value::Int(0));
}

#[test]
fn ac_block_and_mode() {
    assert_eq!(ac::output(true).class, "ac-on");
    assert_eq!(ac::output(true).text, "");
    assert_eq!(ac::output(false).class, "ac-off");
    assert_eq!(ac::mode(true, true), ac::Mode::Toggle);
    assert_eq!(ac::mode(true, false), ac::Mode::Toggle);
    assert_eq!(ac::mode(false, true), ac::Mode::Listen);
    assert_eq!(ac::mode(false, false), ac::Mode::Idle);
    assert!(ac::is_running(&Ok(vec![Value::Int(1)])));
    assert!(!ac::is_running(&Ok(vec![Value::Int(0)])));
    assert!(!ac::is_running(&Ok(vec![Value::Int(2)])));
    assert!(!ac::is_running(&Ok(vec![Value::Str("1".to_string())])));
    assert!(!ac::is_running(&Ok(Vec::new())));
    assert!(!ac::is_running(&Err(ClientError::Protocol)));
    assert_eq!(ac::toggle_value(&Vec::new()), None);
}

#[test]
fn poll_shows_the_state_of_the_unit() {
    let mut on = device(1);
    assert_eq!(ac::poll(&mut on, &endpoint()).class, "ac-on");
    let mut off = device(0);
    assert_eq!(ac::poll(&mut off, &endpoint()).class, "ac-off");
}

#[test]
fn toggle_sends_a_read_and_then_a_write_of_the_complement() {
    let mut transport = Client::new(Canned::new(Reply::Status(vec![Datum::Number(1)])));
    // The canned transport answers the write with a timeout.
    assert_eq!(ac::toggle(&mut transport, &endpoint()), Err(ClientError::Transport));
    assert_eq!(
        transport.transport().seen,
        vec![
            Request::Read { device: ID.to_string(), variables: vec![Variable::Power] },
            Request::Write {
                device: ID.to_string(),
                assignments: vec![(Variable::Power, Value::Int(0))]
            },
        ]
    );
}

#[test]
fn toggle_sends_nothing_after_a_failed_read() {
    let mut transport = Client::new(Canned::new(Reply::Lost(Fault::SerDe)));
    assert_eq!(ac::toggle(&mut transport, &endpoint()), Err(ClientError::Protocol));
    assert_eq!(
        transport.transport().seen,
        vec![Request::Read { device: ID.to_string(), variables: vec![Variable::Power] }]
    );
}

#[test]
fn set_sends_one_write_request() {
    let mut transport = Client::new(Canned::new(Reply::Done));
    let written = waybar_status::client::transport::set(
        &mut transport,
        &endpoint(),
        &[(Variable::Light, Value::Int(1)), (Variable::Quiet, Value::Int(0))],
    );
    assert_eq!(written, Ok(()));
    assert_eq!(
        transport.transport().seen,
        vec![Request::Write {
            device: ID.to_string(),
            assignments: vec![(Variable::Light, Value::Int(1)), (Variable::Quiet, Value::Int(0))]
        }]
    );
}
