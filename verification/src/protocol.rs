//! The typed face of the bridging protocol: which gateway a logical endpoint
//! stands for, the observations and downlink commands the sweep works with,
//! the single-fire registration gate, and the per-endpoint event handler.

use vstd::prelude::*;
use vstd::string::StrSliceExecFns;
use vstd::string::StringExecFns;

verus! {

/// Which physical gateway a logical endpoint represents in the current sweep
/// direction.
#[derive(Debug, Clone, Copy, PartialEq, Eq, Structural)]
pub enum Role {
    Tested,
    Control,
}

/// One received radio frame, as an endpoint reports it: payload bytes, the
/// decoded data-rate text, the center frequency in Hz, and signal metrics
/// (RSSI in dBm; SNR in tenths of a dB).
#[derive(Debug, Clone)]
pub struct RadioFrame {
    pub data: Vec<u8>,
    pub datr: String,
    pub freq_hz: u64,
    pub rssi: i64,
    pub snr_deci: i64,
}

/// One received radio frame tagged with the identity of the device that
/// reported it and the role of the endpoint it arrived on.
#[derive(Debug, Clone)]
pub struct UplinkObservation {
    pub data: Vec<u8>,
    pub datr: String,
    pub freq_hz: u64,
    pub rssi: i64,
    pub snr_deci: i64,
    pub mac: u64,
    pub role: Role,
}

/// A synthetic transmit instruction: target frequency in Hz, data-rate text,
/// transmit power, coding rate, and a zero-filled payload whose only purpose
/// is to be reproduced byte-for-byte by the receiving device.
#[derive(Debug)]
pub struct DownlinkCommand {
    pub imme: bool,
    pub tmst: u64,
    pub freq_hz: u64,
    pub rfch: u64,
    pub powe: u64,
    pub modu: String,
    pub datr: String,
    pub codr: String,
    pub ipol: bool,
    pub data: Vec<u8>,
}

/// The number of payload bytes every downlink command carries.
pub open spec fn payload_len() -> nat {
    52
}

/// The fixed zero-filled payload of a downlink command.
pub open spec fn zero_payload() -> Seq<u8> {
    Seq::new(payload_len(), |i: int| 0u8)
}

/// Builds the zero-filled payload.
pub fn zero_payload_vec() -> (v: Vec<u8>)
    ensures
        v@ == zero_payload(),
{
    let mut v: Vec<u8> = Vec::new();
    let mut i: usize = 0;
    while i < 52
        invariant
            i <= 52,
            v@.len() == i,
            forall|j: int| 0 <= j < i ==> v@[j] == 0u8,
        decreases 52 - i,
    {
        v.push(0u8);
        i = i + 1;
    }
    proof {
        assert(v@ =~= zero_payload());
    }
    v
}

/// Whether `data` is byte-identical to the fixed zero-filled payload.
pub fn is_zero_payload(data: &Vec<u8>) -> (b: bool)
    ensures
        b == (data@ == zero_payload()),
{
    if data.len() != 52 {
        return false;
    }
    let mut i: usize = 0;
    while i < 52
        invariant
            i <= 52,
            data@.len() == 52,
            forall|j: int| 0 <= j < i ==> data@[j] == 0u8,
        decreases 52 - i,
    {
        if data[i] != 0 {
            proof {
                assert(data@[i as int] != zero_payload()[i as int]);
            }
            return false;
        }
        i = i + 1;
    }
    proof {
        assert(data@ =~= zero_payload());
    }
    true
}

/// Builds the downlink command for one channel test: immediate transmission
/// of the fixed zero payload at `channel` Hz, with the run's data-rate text
/// and power, LORA modulation and 4/5 coding.
pub fn create_packet(channel: usize, datr: &str, power: u64) -> (r: DownlinkCommand)
    ensures
        r.imme == true,
        r.tmst == 0,
        r.freq_hz == channel as u64,
        r.rfch == 0,
        r.powe == power,
        r.modu@ == "LORA"@,
        r.datr@ == datr@,
        r.codr@ == "4/5"@,
        r.ipol == false,
        r.data@ == zero_payload(),
{
    let buffer = zero_payload_vec();
    DownlinkCommand {
        imme: true,
        tmst: 0,
        freq_hz: channel as u64,
        rfch: 0,
        powe: power,
        modu: String::from_str("LORA"),
        datr: datr.to_owned(),
        codr: String::from_str("4/5"),
        ipol: false,
        data: buffer,
    }
}

/// A resolved-or-not gate value after one registration with `mac`: the first
/// registration decides, every later one leaves the value as it is.
pub open spec fn gate_after(g: Option<u64>, mac: u64) -> Option<u64> {
    if g is Some {
        g
    } else {
        Some(mac)
    }
}

/// A gate value after a whole sequence of registrations.
pub open spec fn gate_after_all(g: Option<u64>, macs: Seq<u64>) -> Option<u64>
    decreases macs.len(),
{
    if macs.len() == 0 {
        g
    } else {
        gate_after_all(gate_after(g, macs[0]), macs.drop_first())
    }
}

/// Law: a registration gate resolves exactly once. However many registrations arrive, an
/// unresolved gate takes the first identity offered and a resolved gate never
/// changes its identity.
pub proof fn lemma_gate_resolves_once(g: Option<u64>, macs: Seq<u64>)
    ensures
        g is Some ==> gate_after_all(g, macs) == g,
        g is None && macs.len() > 0 ==> gate_after_all(g, macs) == Some(macs[0]),
    decreases macs.len(),
{
    if macs.len() > 0 {
        lemma_gate_resolves_once(gate_after(g, macs[0]), macs.drop_first());
    }
}

/// A single-fire synchronization cell: the first registration resolves it
/// with that device's identity; later registrations leave it untouched.
pub struct RegistrationGate {
    resolved: Option<u64>,
}

impl RegistrationGate {
    /// The identity this gate resolved with, if it has.
    pub closed spec fn spec_identity(self) -> Option<u64> {
        self.resolved
    }

    /// Creates an unresolved gate.
    pub fn new() -> (g: Self)
        ensures
            g.spec_identity() is None,
    {
        RegistrationGate { resolved: None }
    }

    /// Offers a registration. Only the first offer resolves a still-open gate;
    /// `fired` tells whether this call was that first offer.
    pub fn resolve(&mut self, mac: u64) -> (fired: bool)
        ensures
            final (self).spec_identity() == gate_after(old(self).spec_identity(), mac),
            fired == (old(self).spec_identity() is None),
    {
        match self.resolved {
            Some(_) => false,
            None => {
                self.resolved = Some(mac);
                true
            },
        }
    }

    /// The resolved identity, or none while this gate is still open.
    pub fn identity(&self) -> (r: Option<u64>)
        ensures
            r == self.spec_identity(),
    {
        self.resolved
    }
}

/// Every protocol occurrence an endpoint reacts to.
#[derive(Debug)]
pub enum ProtocolEvent {
    /// An inbound frame that failed to parse; carries the raw bytes.
    MalformedFrame(Vec<u8>),
    /// A registration frame from the device with this identity.
    NewDevice(u64),
    /// A known device reappeared from another address.
    DeviceAddressUpdated(u64),
    /// A radio frame report from the device with this identity.
    RadioFrameReceived(RadioFrame, u64),
    /// A downlink was addressed to an identity this endpoint does not know.
    DispatchRejected(u64),
    /// A raw frame, surfaced only for debug printing.
    RawFrame(Vec<u8>),
}

/// What the caller must do with a handled event.
#[derive(Debug)]
pub enum EndpointAction {
    /// Nothing beyond optional logging.
    LogOnly,
    /// The registration gate has just resolved with this identity.
    GateResolved(u64),
    /// Publish this observation to the observation channel.
    Publish(UplinkObservation),
}

/// One protocol endpoint's registration state: its role and its gate.
pub struct Endpoint {
    pub role: Role,
    pub gate: RegistrationGate,
}

impl Endpoint {
    /// Creates an endpoint with an open gate.
    pub fn new(role: Role) -> (e: Self)
        ensures
            e.role == role,
            e.gate.spec_identity() is None,
    {
        Endpoint { role, gate: RegistrationGate::new() }
    }

    /// Reacts to one protocol event. Only a registration can change the
    /// state, and only by resolving a still-open gate; a radio frame is
    /// turned into an observation tagged with this endpoint's role; every
    /// other event asks for logging alone.
    pub fn handle_event(&mut self, event: ProtocolEvent) -> (a: EndpointAction)
        ensures
            final (self).role == old(self).role,
            match event {
                ProtocolEvent::NewDevice(mac) => {
                    &&& final (self).gate.spec_identity() == gate_after(
                        old(self).gate.spec_identity(),
                        mac,
                    )
                    &&& (old(self).gate.spec_identity() is None ==> (a matches
                        EndpointAction::GateResolved(m) && m == mac))
                    &&& (old(self).gate.spec_identity() is Some ==> (a matches
                        EndpointAction::LogOnly))
                },
                ProtocolEvent::RadioFrameReceived(frame, mac) => {
                    &&& final (self).gate.spec_identity() == old(self).gate.spec_identity()
                    &&& a matches EndpointAction::Publish(obs) && obs.data@ == frame.data@
                        && obs.datr@ == frame.datr@ && obs.freq_hz == frame.freq_hz && obs.rssi
                        == frame.rssi && obs.snr_deci == frame.snr_deci && obs.mac == mac
                        && obs.role == old(self).role
                },
                _ => {
                    &&& final (self).gate.spec_identity() == old(self).gate.spec_identity()
                    &&& a matches EndpointAction::LogOnly
                },
            },
    {
        match event {
            ProtocolEvent::NewDevice(mac) => {
                let fired = self.gate.resolve(mac);
                if fired {
                    EndpointAction::GateResolved(mac)
                } else {
                    EndpointAction::LogOnly
                }
            },
            ProtocolEvent::RadioFrameReceived(frame, mac) => {
                let role = self.role;
                EndpointAction::Publish(
                    UplinkObservation {
                        data: frame.data,
                        datr: frame.datr,
                        freq_hz: frame.freq_hz,
                        rssi: frame.rssi,
                        snr_deci: frame.snr_deci,
                        mac,
                        role,
                    },
                )
            },
            _ => EndpointAction::LogOnly,
        }
    }
}

} // verus!
