use rf_tester::protocol::Role;
use rf_tester::protocol::UplinkObservation;
use rf_tester::sweep::RunError;
use rf_tester::sweep::RunPhase;
use rf_tester::sweep::SweepDriver;

const TEST_MAC: u64 = 0x00_16_c0_01_ff_01_02_03;
const CONTROL_MAC: u64 = 0x00_16_c0_01_ff_0a_0b_0c;

fn driver(plan: Vec<usize>) -> SweepDriver {
    let mut d = SweepDriver::new(plan, String::from("SF12BW125"), 12);
    d.register(TEST_MAC, CONTROL_MAC).unwrap();
    d
}

fn matching_observation(freq_hz: u64, role: Role, mac: u64) -> UplinkObservation {
    UplinkObservation {
        data: vec![0; 52],
        datr: String::from("SF12BW125"),
        freq_hz,
        rssi: -80,
        snr_deci: 95,
        mac,
        role,
    }
}

fn mhz_to_hz(mhz: f64) -> u64 {
    (mhz * 1_000_000.0).round() as u64
}

#[test]
fn scenario_pass_on_matching_observation() {
    let mut d = driver(vec![916_800_000]);
    let (cmd, target) = d.next_command();
    assert_eq!(target, TEST_MAC);
    assert_eq!(cmd.freq_hz, 916_800_000);
    assert_eq!(cmd.data, vec![0u8; 52]);
    assert_eq!(cmd.datr, "SF12BW125");
    assert_eq!(cmd.powe, 12);
    d.on_dispatch_result(true);

    let obs = matching_observation(mhz_to_hz(916.8), Role::Control, CONTROL_MAC);
    assert!(d.on_observation(&obs));

    let results = d.results();
    assert_eq!(results.len(), 1);
    assert!(results[0].passed);
    assert_eq!(results[0].channel_index, 0);
    assert_eq!(results[0].freq_hz, 916_800_000);
    assert_eq!(results[0].receiver_role, Role::Control);
    let metrics = results[0].metrics.unwrap();
    assert_eq!(metrics.rssi, -80);
    assert_eq!(metrics.snr_deci, 95);
    assert_eq!(d.phase(), RunPhase::Ready);
}

#[test]
fn scenario_fail_on_out_of_tolerance_frequency() {
    let mut d = driver(vec![916_800_000]);
    let _ = d.next_command();
    d.on_dispatch_result(true);

    let obs = matching_observation(mhz_to_hz(917.0), Role::Control, CONTROL_MAC);
    assert!(!d.on_observation(&obs));
    assert_eq!(d.phase(), RunPhase::AwaitingObservation);
    assert_eq!(d.results().len(), 0);

    d.on_window_elapsed();
    let results = d.results();
    assert_eq!(results.len(), 1);
    assert!(!results[0].passed);
    assert!(results[0].metrics.is_none());
}

#[test]
fn scenario_fail_on_elapsed_window() {
    let mut d = driver(vec![916_800_000]);
    let _ = d.next_command();
    d.on_dispatch_result(true);
    d.on_window_elapsed();

    let results = d.results();
    assert_eq!(results.len(), 1);
    assert!(!results[0].passed);
    assert_eq!(d.phase(), RunPhase::Ready);
}

#[test]
fn scenario_abort_on_dispatch_failure() {
    let mut d = driver(vec![916_800_000, 917_000_000]);
    let _ = d.next_command();
    d.on_dispatch_result(false);
    assert_eq!(d.phase(), RunPhase::Aborted);
    assert_eq!(d.results().len(), 0);
}

#[test]
fn equal_identities_abort_registration() {
    let mut d = SweepDriver::new(vec![916_800_000], String::from("SF12BW125"), 12);
    let r = d.register(TEST_MAC, TEST_MAC);
    assert_eq!(r, Err(RunError::IdentityConflict));
    assert_eq!(d.phase(), RunPhase::Aborted);
}

#[test]
fn observations_with_wrong_fields_are_discarded() {
    let mut d = driver(vec![916_800_000]);
    let _ = d.next_command();
    d.on_dispatch_result(true);

    let wrong_role = matching_observation(916_800_000, Role::Tested, CONTROL_MAC);
    let wrong_mac = matching_observation(916_800_000, Role::Control, TEST_MAC);
    let mut wrong_payload = matching_observation(916_800_000, Role::Control, CONTROL_MAC);
    wrong_payload.data[51] = 1;
    let mut short_payload = matching_observation(916_800_000, Role::Control, CONTROL_MAC);
    short_payload.data.pop();
    let mut wrong_datr = matching_observation(916_800_000, Role::Control, CONTROL_MAC);
    wrong_datr.datr = String::from("SF7BW125");

    assert!(!d.on_observation(&wrong_role));
    assert!(!d.on_observation(&wrong_mac));
    assert!(!d.on_observation(&wrong_payload));
    assert!(!d.on_observation(&short_payload));
    assert!(!d.on_observation(&wrong_datr));
    assert_eq!(d.results().len(), 0);
    assert_eq!(d.phase(), RunPhase::AwaitingObservation);

    let right = matching_observation(916_899_999, Role::Control, CONTROL_MAC);
    assert!(d.on_observation(&right));
}

#[test]
fn tolerance_bound_is_strict() {
    let mut d = driver(vec![916_800_000]);
    let _ = d.next_command();
    d.on_dispatch_result(true);
    let at_bound = matching_observation(916_900_000, Role::Control, CONTROL_MAC);
    assert!(!d.on_observation(&at_bound));
    let under_bound = matching_observation(916_899_999, Role::Control, CONTROL_MAC);
    assert!(d.on_observation(&under_bound));
}

#[test]
fn full_run_reports_both_directions_in_plan_order() {
    let plan = vec![916_800_000, 917_000_000, 917_200_000];
    let mut d = driver(plan.clone());
    let mut dispatched: Vec<(u64, u64)> = Vec::new();
    while d.phase() == RunPhase::Ready {
        let (cmd, target) = d.next_command();
        dispatched.push((cmd.freq_hz, target));
        d.on_dispatch_result(true);
        let role = if dispatched.len() <= plan.len() { Role::Control } else { Role::Tested };
        let mac = if role == Role::Control { CONTROL_MAC } else { TEST_MAC };
        let obs = matching_observation(cmd.freq_hz, role, mac);
        assert!(d.on_observation(&obs));
    }
    assert_eq!(d.phase(), RunPhase::Done);

    let results = d.results();
    assert_eq!(results.len(), 2 * plan.len());
    for (i, res) in results.iter().enumerate() {
        let k = i % plan.len();
        assert_eq!(res.channel_index, k);
        assert_eq!(res.freq_hz, plan[k]);
        assert!(res.passed);
        let expected_role = if i < plan.len() { Role::Control } else { Role::Tested };
        assert_eq!(res.receiver_role, expected_role);
    }
    for (i, (freq, target)) in dispatched.iter().enumerate() {
        let k = i % plan.len();
        assert_eq!(*freq, plan[k] as u64);
        let expected_target = if i < plan.len() { TEST_MAC } else { CONTROL_MAC };
        assert_eq!(*target, expected_target);
    }
}

#[test]
fn mixed_outcomes_still_cover_every_channel() {
    let plan = vec![916_800_000, 917_000_000];
    let mut d = driver(plan.clone());
    let mut step: usize = 0;
    while d.phase() == RunPhase::Ready {
        let (cmd, _) = d.next_command();
        d.on_dispatch_result(true);
        if step % 2 == 0 {
            d.on_window_elapsed();
        } else {
            let role = if step < plan.len() { Role::Control } else { Role::Tested };
            let mac = if role == Role::Control { CONTROL_MAC } else { TEST_MAC };
            let obs = matching_observation(cmd.freq_hz, role, mac);
            assert!(d.on_observation(&obs));
        }
        step += 1;
    }
    assert_eq!(d.phase(), RunPhase::Done);
    let results = d.results();
    assert_eq!(results.len(), 4);
    assert!(!results[0].passed);
    assert!(results[1].passed);
    assert!(!results[2].passed);
    assert!(results[3].passed);
}

#[test]
fn empty_plan_completes_immediately() {
    let mut d = SweepDriver::new(Vec::new(), String::from("SF12BW125"), 12);
    d.register(TEST_MAC, CONTROL_MAC).unwrap();
    assert_eq!(d.phase(), RunPhase::Done);
    assert_eq!(d.results().len(), 0);
}
