use rf_tester::channel::ObservationChannel;
use rf_tester::protocol::create_packet;
use rf_tester::protocol::Endpoint;
use rf_tester::protocol::EndpointAction;
use rf_tester::protocol::ProtocolEvent;
use rf_tester::protocol::RadioFrame;
use rf_tester::protocol::RegistrationGate;
use rf_tester::protocol::Role;
use rf_tester::protocol::UplinkObservation;

fn frame(freq_hz: u64) -> RadioFrame {
    RadioFrame {
        data: vec![0; 52],
        datr: String::from("SF12BW125"),
        freq_hz,
        rssi: -70,
        snr_deci: 80,
    }
}

fn observation(n: u8) -> UplinkObservation {
    UplinkObservation {
        data: vec![n],
        datr: String::from("SF12BW125"),
        freq_hz: 916_800_000,
        rssi: -70,
        snr_deci: 80,
        mac: 7,
        role: Role::Control,
    }
}

#[test]
fn gate_resolves_only_once() {
    let mut g = RegistrationGate::new();
    assert_eq!(g.identity(), None);
    assert!(g.resolve(11));
    assert_eq!(g.identity(), Some(11));
    assert!(!g.resolve(22));
    assert!(!g.resolve(11));
    assert_eq!(g.identity(), Some(11));
}

#[test]
fn first_registration_resolves_the_endpoint_gate() {
    let mut e = Endpoint::new(Role::Tested);
    match e.handle_event(ProtocolEvent::NewDevice(5)) {
        EndpointAction::GateResolved(mac) => assert_eq!(mac, 5),
        _ => panic!("first registration must resolve the registration gate"),
    }
    match e.handle_event(ProtocolEvent::NewDevice(6)) {
        EndpointAction::LogOnly => {}
        _ => panic!("a later registration must not fire again"),
    }
    assert_eq!(e.gate.identity(), Some(5));
}

#[test]
fn radio_frames_become_observations_tagged_with_the_role() {
    let mut e = Endpoint::new(Role::Control);
    match e.handle_event(ProtocolEvent::RadioFrameReceived(frame(916_800_000), 9)) {
        EndpointAction::Publish(obs) => {
            assert_eq!(obs.role, Role::Control);
            assert_eq!(obs.mac, 9);
            assert_eq!(obs.freq_hz, 916_800_000);
            assert_eq!(obs.data, vec![0; 52]);
            assert_eq!(obs.datr, "SF12BW125");
            assert_eq!(obs.rssi, -70);
            assert_eq!(obs.snr_deci, 80);
        }
        _ => panic!("a radio frame must be published"),
    }
}

#[test]
fn other_events_only_ask_for_logging() {
    let mut e = Endpoint::new(Role::Tested);
    assert!(matches!(
        e.handle_event(ProtocolEvent::MalformedFrame(vec![1, 2])),
        EndpointAction::LogOnly
    ));
    assert!(matches!(
        e.handle_event(ProtocolEvent::DeviceAddressUpdated(3)),
        EndpointAction::LogOnly
    ));
    assert!(matches!(e.handle_event(ProtocolEvent::DispatchRejected(3)), EndpointAction::LogOnly));
    assert!(matches!(e.handle_event(ProtocolEvent::RawFrame(vec![9])), EndpointAction::LogOnly));
    assert_eq!(e.gate.identity(), None);
}

#[test]
fn create_packet_fixes_the_fingerprint_fields() {
    let p = create_packet(903_900_000, "SF12BW125", 27);
    assert!(p.imme);
    assert_eq!(p.tmst, 0);
    assert_eq!(p.freq_hz, 903_900_000);
    assert_eq!(p.rfch, 0);
    assert_eq!(p.powe, 27);
    assert_eq!(p.modu, "LORA");
    assert_eq!(p.datr, "SF12BW125");
    assert_eq!(p.codr, "4/5");
    assert!(!p.ipol);
    assert_eq!(p.data, vec![0u8; 52]);
}

#[test]
fn channel_delivers_in_arrival_order() {
    let mut c = ObservationChannel::new(120);
    assert!(c.try_send(observation(1)));
    assert!(c.try_send(observation(2)));
    assert!(c.try_send(observation(3)));
    assert_eq!(c.len(), 3);
    assert_eq!(c.try_recv().unwrap().data, vec![1]);
    assert_eq!(c.try_recv().unwrap().data, vec![2]);
    assert_eq!(c.try_recv().unwrap().data, vec![3]);
    assert!(c.try_recv().is_none());
}

#[test]
fn full_channel_refuses_without_losing_anything() {
    let mut c = ObservationChannel::new(2);
    assert!(c.try_send(observation(1)));
    assert!(c.try_send(observation(2)));
    let delayed = observation(3);
    assert!(!c.try_send(delayed.clone()));
    assert_eq!(c.len(), 2);
    assert_eq!(c.try_recv().unwrap().data, vec![1]);
    assert!(c.try_send(delayed));
    assert_eq!(c.try_recv().unwrap().data, vec![2]);
    assert_eq!(c.try_recv().unwrap().data, vec![3]);
}
