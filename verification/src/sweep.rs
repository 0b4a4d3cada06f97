//! The sweep driver: the test protocol's state machine.
//!
//! A run waits for both registrations, then walks the region plan twice —
//! first with the device under test transmitting and the control device
//! receiving, then the other way round. For each channel it issues one
//! downlink command, waits for the dispatch acknowledgment, and then watches
//! the observation window: a matching observation records a pass, an elapsed
//! window records a fail, and either advances to the next channel. A failed
//! dispatch aborts the whole run; so does a pair of endpoints wired to the
//! same physical device.

use vstd::prelude::*;
use vstd::string::StringExecFns;

use crate::protocol::create_packet;
use crate::protocol::zero_payload;
use crate::protocol::DownlinkCommand;
use crate::protocol::Role;
use crate::protocol::UplinkObservation;

verus! {

/// The faults that end a run before both sweeps complete.
#[derive(Debug, Clone, Copy, PartialEq, Eq, Structural)]
pub enum RunError {
    /// An endpoint's socket could not be bound.
    BindError,
    /// A downlink dispatch saw no acknowledgment within its timeout.
    DispatchTimeout,
    /// A downlink dispatch was rejected by the protocol layer.
    DispatchRejected,
    /// No device registered within the deployment's outer wait, if it set one.
    NoDeviceRegistered,
    /// An internal conduit closed: a collaborator task crashed.
    ChannelClosed,
    /// Both endpoints report the same device identity: the tester is not
    /// wired to two distinct devices.
    IdentityConflict,
}

/// Where a run stands.
#[derive(Debug, Clone, Copy, PartialEq, Eq, Structural)]
pub enum RunPhase {
    /// Waiting for both registration gates.
    AwaitingRegistration,
    /// Ready to dispatch the current channel's downlink.
    Ready,
    /// A downlink is dispatched; its acknowledgment is pending.
    AwaitingAck,
    /// The observation window of the current channel is open.
    AwaitingObservation,
    /// Both sweep directions completed.
    Done,
    /// A fatal fault ended the run early.
    Aborted,
}

/// The signal metrics of a matched observation.
#[derive(Debug, Clone, Copy, PartialEq, Eq, Structural)]
pub struct SignalMetrics {
    /// RSSI in dBm.
    pub rssi: i64,
    /// SNR in tenths of a dB.
    pub snr_deci: i64,
}

/// One channel's outcome: which role received, which plan entry was driven,
/// whether a matching observation arrived, and its metrics when one did.
#[derive(Debug, Clone)]
pub struct ChannelResult {
    pub receiver_role: Role,
    pub channel_index: usize,
    pub freq_hz: usize,
    pub passed: bool,
    pub metrics: Option<SignalMetrics>,
}

/// The receiving role of a sweep direction: the control device receives
/// first, the device under test second.
pub open spec fn spec_receiver_role(dir: int) -> Role {
    if dir == 0 {
        Role::Control
    } else {
        Role::Tested
    }
}

/// Whether an observed frequency lies within the test's tolerance of the
/// commanded one: strictly less than 100 kHz apart (the 0.1 MHz bound).
pub open spec fn freq_within_tolerance(observed_hz: int, commanded_hz: int) -> bool {
    -100_000 < observed_hz - commanded_hz < 100_000
}

/// Decides freq_within_tolerance on machine integers.
pub fn within_tolerance(observed_hz: u64, commanded_hz: u64) -> (b: bool)
    ensures
        b == freq_within_tolerance(observed_hz as int, commanded_hz as int),
{
    let diff = if observed_hz >= commanded_hz {
        observed_hz - commanded_hz
    } else {
        commanded_hz - observed_hz
    };
    diff < 100_000
}

/// The sweep driver's state.
pub struct SweepDriver {
    plan: Vec<usize>,
    datr: String,
    power: u64,
    test_mac: u64,
    control_mac: u64,
    phase: RunPhase,
    dir: usize,
    chan: usize,
    results: Vec<ChannelResult>,
}

impl SweepDriver {
    /// The region plan being swept: uplink frequencies in Hz, in test order.
    pub closed spec fn spec_plan(self) -> Seq<usize> {
        self.plan@
    }

    /// The run's data-rate text.
    pub closed spec fn spec_datr(self) -> Seq<char> {
        self.datr@
    }

    /// The run's transmit power.
    pub closed spec fn spec_power(self) -> u64 {
        self.power
    }

    /// The identity of the device under test.
    pub closed spec fn spec_test_mac(self) -> u64 {
        self.test_mac
    }

    /// The identity of the control device.
    pub closed spec fn spec_control_mac(self) -> u64 {
        self.control_mac
    }

    /// Where the run stands.
    pub closed spec fn spec_phase(self) -> RunPhase {
        self.phase
    }

    /// The sweep direction: 0 while the device under test transmits, 1 while
    /// the control device transmits.
    pub closed spec fn spec_dir(self) -> usize {
        self.dir
    }

    /// The index of the channel being driven.
    pub closed spec fn spec_chan(self) -> usize {
        self.chan
    }

    /// The results recorded so far, in the order they resolved.
    pub closed spec fn spec_results(self) -> Seq<ChannelResult> {
        self.results@
    }

    /// The identity expected to report the current channel's observation.
    pub open spec fn spec_receiver_mac(self) -> u64 {
        if self.spec_dir() == 0 {
            self.spec_control_mac()
        } else {
            self.spec_test_mac()
        }
    }

    /// The identity the current channel's downlink is dispatched to.
    pub open spec fn spec_sender_mac(self) -> u64 {
        if self.spec_dir() == 0 {
            self.spec_test_mac()
        } else {
            self.spec_control_mac()
        }
    }

    /// What the result at position `i` must look like: position determines
    /// direction and channel, the channel determines the frequency, and a
    /// pass carries metrics while a fail carries none.
    pub open spec fn result_ok(self, i: int) -> bool {
        let n = self.spec_plan().len() as int;
        let k = if i < n {
            i
        } else {
            i - n
        };
        let res = self.spec_results()[i];
        &&& res.channel_index == k
        &&& res.freq_hz == self.spec_plan()[k]
        &&& res.receiver_role == spec_receiver_role(
            if i < n {
                0
            } else {
                1
            },
        )
        &&& res.passed == (res.metrics is Some)
    }

    /// The driver's invariant: results always mirror the plan positions they
    /// resolved, and each phase pins the progress counters.
    pub open spec fn inv(self) -> bool {
        let n = self.spec_plan().len() as int;
        &&& n < 0x4000_0000
        &&& (forall|i: int|
            0 <= i < self.spec_results().len() ==> #[trigger] self.result_ok(i))
        &&& match self.spec_phase() {
            RunPhase::AwaitingRegistration => self.spec_results().len() == 0 && self.spec_dir()
                == 0 && self.spec_chan() == 0,
            RunPhase::Ready | RunPhase::AwaitingAck | RunPhase::AwaitingObservation => {
                &&& self.spec_dir() < 2
                &&& (self.spec_chan() as int) < n
                &&& self.spec_results().len() == (if self.spec_dir() == 0 {
                    self.spec_chan() as int
                } else {
                    n + self.spec_chan() as int
                })
                &&& self.spec_test_mac() != self.spec_control_mac()
            },
            RunPhase::Done => self.spec_results().len() == 2 * n && self.spec_test_mac()
                != self.spec_control_mac(),
            RunPhase::Aborted => self.spec_results().len() <= 2 * n,
        }
    }

    /// Whether an observation settles the current channel: right role, right
    /// reporting device, byte-identical payload, identical data-rate text,
    /// and a frequency within tolerance of the commanded one.
    pub open spec fn spec_expected_match(self, obs: UplinkObservation) -> bool {
        &&& obs.role == spec_receiver_role(self.spec_dir() as int)
        &&& obs.mac == self.spec_receiver_mac()
        &&& obs.data@ == zero_payload()
        &&& obs.datr@ == self.spec_datr()
        &&& freq_within_tolerance(
            obs.freq_hz as int,
            self.spec_plan()[self.spec_chan() as int] as int,
        )
    }

    /// How one resolved channel moves the run on: to the plan's next entry,
    /// from the first direction's last entry to the second direction, and
    /// from the second direction's last entry to Done.
    pub open spec fn spec_advanced_to(self, post: SweepDriver) -> bool {
        let n = self.spec_plan().len() as int;
        &&& (self.spec_chan() + 1 < n ==> post.spec_chan() == self.spec_chan() + 1
            && post.spec_dir() == self.spec_dir() && post.spec_phase() == RunPhase::Ready)
        &&& (self.spec_chan() + 1 == n && self.spec_dir() == 0 ==> post.spec_dir() == 1
            && post.spec_chan() == 0 && post.spec_phase() == RunPhase::Ready)
        &&& (self.spec_chan() + 1 == n && self.spec_dir() == 1 ==> post.spec_phase()
            == RunPhase::Done)
    }

    /// What every transition leaves untouched.
    pub open spec fn spec_config_unchanged(self, post: SweepDriver) -> bool {
        &&& post.spec_plan() == self.spec_plan()
        &&& post.spec_datr() == self.spec_datr()
        &&& post.spec_power() == self.spec_power()
        &&& post.spec_test_mac() == self.spec_test_mac()
        &&& post.spec_control_mac() == self.spec_control_mac()
    }

    /// Creates a driver for one run: the plan to sweep, the data-rate text
    /// and the transmit power of every dispatched command.
    pub fn new(plan: Vec<usize>, datr: String, power: u64) -> (d: Self)
        requires
            plan@.len() < 0x4000_0000,
        ensures
            d.inv(),
            d.spec_phase() == RunPhase::AwaitingRegistration,
            d.spec_plan() == plan@,
            d.spec_datr() == datr@,
            d.spec_power() == power,
            d.spec_results() == Seq::<ChannelResult>::empty(),
    {
        SweepDriver {
            plan,
            datr,
            power,
            test_mac: 0,
            control_mac: 0,
            phase: RunPhase::AwaitingRegistration,
            dir: 0,
            chan: 0,
            results: Vec::new(),
        }
    }

    /// Accepts the two resolved registrations. Two endpoints reporting the
    /// same identity is a configuration fault: the run aborts with
    /// IdentityConflict, exactly then. Distinct identities start the first
    /// sweep — or finish the run at once when the plan is empty.
    pub fn register(&mut self, test_mac: u64, control_mac: u64) -> (r: Result<(), RunError>)
        requires
            old(self).inv(),
            old(self).spec_phase() == RunPhase::AwaitingRegistration,
        ensures
            final (self).inv(),
            final (self).spec_plan() == old(self).spec_plan(),
            final (self).spec_datr() == old(self).spec_datr(),
            final (self).spec_power() == old(self).spec_power(),
            final (self).spec_results() == old(self).spec_results(),
            (r is Err) == (test_mac == control_mac),
            test_mac == control_mac ==> (r matches Err(e) && e == RunError::IdentityConflict)
                && final (self).spec_phase() == RunPhase::Aborted,
            test_mac != control_mac ==> {
                &&& r is Ok
                &&& final (self).spec_test_mac() == test_mac
                &&& final (self).spec_control_mac() == control_mac
                &&& (old(self).spec_plan().len() == 0 ==> final (self).spec_phase()
                    == RunPhase::Done)
                &&& (old(self).spec_plan().len() > 0 ==> final (self).spec_phase()
                    == RunPhase::Ready && final (self).spec_dir() == 0 && final (self).spec_chan()
                    == 0)
            },
    {
        if test_mac == control_mac {
            self.phase = RunPhase::Aborted;
            return Err(RunError::IdentityConflict);
        }
        self.test_mac = test_mac;
        self.control_mac = control_mac;
        if self.plan.len() == 0 {
            self.phase = RunPhase::Done;
        } else {
            self.phase = RunPhase::Ready;
        }
        proof {
            assert forall|i: int| 0 <= i < self.spec_results().len() implies #[trigger] self
                .result_ok(i) by {
                assert(old(self).result_ok(i));
            }
        }
        Ok(())
    }

    /// Builds the current channel's downlink command and names the identity
    /// to dispatch it to; the dispatch acknowledgment is then pending.
    pub fn next_command(&mut self) -> (r: (DownlinkCommand, u64))
        requires
            old(self).inv(),
            old(self).spec_phase() == RunPhase::Ready,
        ensures
            final (self).inv(),
            old(self).spec_config_unchanged(*final (self)),
            final (self).spec_results() == old(self).spec_results(),
            final (self).spec_dir() == old(self).spec_dir(),
            final (self).spec_chan() == old(self).spec_chan(),
            final (self).spec_phase() == RunPhase::AwaitingAck,
            r.0.freq_hz == old(self).spec_plan()[old(self).spec_chan() as int] as u64,
            r.0.datr@ == old(self).spec_datr(),
            r.0.powe == old(self).spec_power(),
            r.0.data@ == zero_payload(),
            r.0.modu@ == "LORA"@,
            r.0.codr@ == "4/5"@,
            r.0.imme == true,
            r.0.ipol == false,
            r.1 == old(self).spec_sender_mac(),
    {
        let cmd = create_packet(self.plan[self.chan], self.datr.as_str(), self.power);
        let target = if self.dir == 0 {
            self.test_mac
        } else {
            self.control_mac
        };
        self.phase = RunPhase::AwaitingAck;
        proof {
            assert forall|i: int| 0 <= i < self.spec_results().len() implies #[trigger] self
                .result_ok(i) by {
                assert(old(self).result_ok(i));
            }
        }
        (cmd, target)
    }

    /// Accepts the dispatch outcome. A confirmed dispatch opens the channel's
    /// observation window; a failed one — timeout or rejection — aborts the
    /// run at once, with no further channel attempted.
    pub fn on_dispatch_result(&mut self, ok: bool)
        requires
            old(self).inv(),
            old(self).spec_phase() == RunPhase::AwaitingAck,
        ensures
            final (self).inv(),
            old(self).spec_config_unchanged(*final (self)),
            final (self).spec_results() == old(self).spec_results(),
            final (self).spec_dir() == old(self).spec_dir(),
            final (self).spec_chan() == old(self).spec_chan(),
            ok ==> final (self).spec_phase() == RunPhase::AwaitingObservation,
            !ok ==> final (self).spec_phase() == RunPhase::Aborted,
    {
        if ok {
            self.phase = RunPhase::AwaitingObservation;
        } else {
            self.phase = RunPhase::Aborted;
        }
        proof {
            assert forall|i: int| 0 <= i < self.spec_results().len() implies #[trigger] self
                .result_ok(i) by {
                assert(old(self).result_ok(i));
            }
        }
    }

    /// Records the current channel's outcome and advances the run.
    fn record_and_advance(&mut self, passed: bool, metrics: Option<SignalMetrics>)
        requires
            old(self).inv(),
            old(self).spec_phase() == RunPhase::AwaitingObservation,
            passed == (metrics is Some),
        ensures
            final (self).inv(),
            old(self).spec_config_unchanged(*final (self)),
            final (self).spec_results() == old(self).spec_results().push(
                ChannelResult {
                    receiver_role: spec_receiver_role(old(self).spec_dir() as int),
                    channel_index: old(self).spec_chan(),
                    freq_hz: old(self).spec_plan()[old(self).spec_chan() as int],
                    passed,
                    metrics,
                },
            ),
            old(self).spec_advanced_to(*final (self)),
    {
        let receiver_role = if self.dir == 0 {
            Role::Control
        } else {
            Role::Tested
        };
        let result = ChannelResult {
            receiver_role,
            channel_index: self.chan,
            freq_hz: self.plan[self.chan],
            passed,
            metrics,
        };
        self.results.push(result);
        if self.chan + 1 < self.plan.len() {
            self.chan = self.chan + 1;
            self.phase = RunPhase::Ready;
        } else if self.dir == 0 {
            self.dir = 1;
            self.chan = 0;
            self.phase = RunPhase::Ready;
        } else {
            self.phase = RunPhase::Done;
        }
        proof {
            let pre = *old(self);
            let n = pre.spec_plan().len() as int;
            assert(self.spec_results() == pre.spec_results().push(result));
            assert forall|i: int| 0 <= i < self.spec_results().len() implies #[trigger] self
                .result_ok(i) by {
                if i < pre.spec_results().len() {
                    assert(pre.result_ok(i));
                    assert(self.spec_results()[i] == pre.spec_results()[i]);
                } else {
                    assert(self.spec_results()[i] == result);
                    if pre.spec_dir() == 0 {
                        assert(i == pre.spec_chan() as int);
                    } else {
                        assert(i == n + pre.spec_chan() as int);
                    }
                }
            }
        }
    }

    /// Judges one observation arriving within the current channel's window.
    /// It records a pass, with the observation's metrics, exactly when the
    /// observation matches the channel's expectation; any other observation
    /// is discarded and the window stays open.
    pub fn on_observation(&mut self, obs: &UplinkObservation) -> (matched: bool)
        requires
            old(self).inv(),
            old(self).spec_phase() == RunPhase::AwaitingObservation,
        ensures
            final (self).inv(),
            old(self).spec_config_unchanged(*final (self)),
            matched == old(self).spec_expected_match(*obs),
            !matched ==> final (self).spec_phase() == RunPhase::AwaitingObservation
                && final (self).spec_results() == old(self).spec_results()
                && final (self).spec_dir() == old(self).spec_dir()
                && final (self).spec_chan() == old(self).spec_chan(),
            matched ==> final (self).spec_results() == old(self).spec_results().push(
                ChannelResult {
                    receiver_role: spec_receiver_role(old(self).spec_dir() as int),
                    channel_index: old(self).spec_chan(),
                    freq_hz: old(self).spec_plan()[old(self).spec_chan() as int],
                    passed: true,
                    metrics: Some(SignalMetrics { rssi: obs.rssi, snr_deci: obs.snr_deci }),
                },
            ) && old(self).spec_advanced_to(*final (self)),
    {
        let role_ok = if self.dir == 0 {
            obs.role == Role::Control
        } else {
            obs.role == Role::Tested
        };
        let mac_ok = obs.mac == (if self.dir == 0 {
            self.control_mac
        } else {
            self.test_mac
        });
        let data_ok = crate::protocol::is_zero_payload(&obs.data);
        let datr_ok = obs.datr == self.datr;
        let freq_ok = within_tolerance(obs.freq_hz, self.plan[self.chan] as u64);
        let matched = role_ok && mac_ok && data_ok && datr_ok && freq_ok;
        if matched {
            let metrics = SignalMetrics { rssi: obs.rssi, snr_deci: obs.snr_deci };
            self.record_and_advance(true, Some(metrics));
        }
        matched
    }

    /// Records that the current channel's window elapsed with no matching
    /// observation: the channel fails, with no metrics, and the run advances.
    pub fn on_window_elapsed(&mut self)
        requires
            old(self).inv(),
            old(self).spec_phase() == RunPhase::AwaitingObservation,
        ensures
            final (self).inv(),
            old(self).spec_config_unchanged(*final (self)),
            final (self).spec_results() == old(self).spec_results().push(
                ChannelResult {
                    receiver_role: spec_receiver_role(old(self).spec_dir() as int),
                    channel_index: old(self).spec_chan(),
                    freq_hz: old(self).spec_plan()[old(self).spec_chan() as int],
                    passed: false,
                    metrics: None,
                },
            ),
            old(self).spec_advanced_to(*final (self)),
    {
        self.record_and_advance(false, None);
    }

    /// Where the run stands.
    pub fn phase(&self) -> (p: RunPhase)
        ensures
            p == self.spec_phase(),
    {
        self.phase
    }

    /// The results recorded so far, in the order they resolved.
    pub fn results(&self) -> (r: &Vec<ChannelResult>)
        ensures
            r@ == self.spec_results(),
    {
        &self.results
    }
}

/// Law: a run that reaches Done reports exactly two results per plan channel,
/// in plan order — the whole plan with the control device receiving, then the
/// whole plan again with the device under test receiving, each result naming
/// its plan entry's index and frequency.
pub proof fn lemma_done_report(d: SweepDriver)
    requires
        d.inv(),
        d.spec_phase() == RunPhase::Done,
    ensures
        d.spec_results().len() == 2 * d.spec_plan().len(),
        forall|i: int|
            0 <= i < d.spec_plan().len() ==> {
                let res = #[trigger] d.spec_results()[i];
                res.receiver_role == Role::Control && res.channel_index == i && res.freq_hz
                    == d.spec_plan()[i]
            },
        forall|i: int|
            0 <= i < d.spec_plan().len() ==> {
                let res = #[trigger] d.spec_results()[i + d.spec_plan().len()];
                res.receiver_role == Role::Tested && res.channel_index == i && res.freq_hz
                    == d.spec_plan()[i]
            },
{
    let n = d.spec_plan().len() as int;
    assert forall|i: int| 0 <= i < n implies {
        let res = #[trigger] d.spec_results()[i];
        res.receiver_role == Role::Control && res.channel_index == i && res.freq_hz
            == d.spec_plan()[i]
    } by {
        assert(d.result_ok(i));
    }
    assert forall|i: int| 0 <= i < n implies {
        let res = #[trigger] d.spec_results()[i + d.spec_plan().len()];
        res.receiver_role == Role::Tested && res.channel_index == i && res.freq_hz
            == d.spec_plan()[i]
    } by {
        assert(d.result_ok(i + n));
    }
}

} // verus!
