//! The control-channel session logic: the handshake state machine that
//! switches the keyboard between its rainbow and custom modes, the probes
//! that verify and poll the control channel, the device-discovery
//! decisions, and the timing decisions of the key-read loop.
//!
//! Everything here is a pure decision over plain values. The caller owns
//! the device handles and the clock: it performs each action (a
//! feature-report write, a probe, a sleep, a read), and hands the outcome
//! back to the next transition.

use vstd::prelude::*;

use crate::error::ErrorRoccatVulcanApi;
use crate::interface::HidDeviceInfo;
use crate::interface::HidInterfaceFilter;
use crate::interface::KeyboardIntrefacesFilter;
use crate::interface::spec_match_filter;
use crate::keypress::KeyCode;
use crate::keypress::KeyPress;
use crate::keypress::spec_is_pressed;
use crate::reports;

verus! {

/// Sleep between two readiness probes, in milliseconds.
pub const WAIT_FOR_CONTROL_MILLIS: u64 = 1;

/// Wall-clock budget of one readiness poll, in nanoseconds: polling past
/// this budget fails with `WaitedToMuchTime`.
pub const MAX_WAIT_NANOS: u128 = 100_000_000;

/// Probe byte of the control-channel verification request.
pub const CONTROL_VERIFICATION_PROBE: u8 = 0x0f;

/// Probe byte of the readiness poll request.
pub const CONTROL_READINESS_PROBE: u8 = 0x04;

/// Size of the buffer into which probe feature reports are read back.
pub const PROBE_BUFFER_LEN: usize = 255;

/// Largest read duration, in milliseconds, that the timeout unit of the
/// underlying read call can represent.
pub const MAX_READ_TIMEOUT_MILLIS: u128 = 2_147_483_647;

/// Kind of feature-report sequence driving a handshake.
#[derive(Debug, Clone, Copy, PartialEq, Eq, PartialOrd, Ord, Hash, Structural)]
pub enum ControlerFeatureKind {
    /// Default rainbow behavior.
    Rainbow,
    /// Mode where the caller sends custom color configurations.
    Custom,
}

impl Default for ControlerFeatureKind {
    /// The custom mode.
    fn default() -> (r: Self)
        ensures
            r is Custom,
    {
        Self::Custom
    }
}

/// The ordered feature reports of a mode's handshake sequence.
pub open spec fn spec_feature_reports(kind: ControlerFeatureKind) -> Seq<Seq<u8>> {
    match kind {
        ControlerFeatureKind::Rainbow => reports::spec_feature_reports_rainbow(),
        ControlerFeatureKind::Custom => reports::spec_feature_reports_custom(),
    }
}

/// The ordered feature reports of a mode's handshake sequence.
pub fn feature_reports(kind: ControlerFeatureKind) -> (r: Vec<Vec<u8>>)
    ensures
        r@.len() == spec_feature_reports(kind).len(),
        forall|i: int| 0 <= i < r@.len() ==> (#[trigger] r@[i])@ == spec_feature_reports(kind)[i],
{
    match kind {
        ControlerFeatureKind::Rainbow => reports::feature_reports_rainbow(),
        ControlerFeatureKind::Custom => reports::feature_reports_custom(),
    }
}

/// Build a probe request: a [`PROBE_BUFFER_LEN`]-byte buffer whose first
/// byte is the probe and whose remainder is zero.
pub fn probe_request(probe: u8) -> (r: Vec<u8>)
    ensures
        r@.len() == PROBE_BUFFER_LEN,
        r@[0] == probe,
        forall|i: int| 1 <= i < r@.len() ==> r@[i] == 0u8,
{
    let mut r: Vec<u8> = Vec::new();
    r.push(probe);
    let mut i: usize = 1;
    while i < PROBE_BUFFER_LEN
        invariant
            1 <= i <= PROBE_BUFFER_LEN,
            r@.len() == i,
            r@[0] == probe,
            forall|j: int| 1 <= j < i ==> r@[j] == 0u8,
        decreases PROBE_BUFFER_LEN - i,
    {
        r.push(0);
        i = i + 1;
    }
    r
}

/// A probe answer accepts the control channel exactly when the call
/// returned a positive byte count.
pub open spec fn spec_probe_positive(report_size: Option<usize>) -> bool {
    report_size matches Some(n) && n > 0
}

/// Whether a probe answer accepts the control channel: the feature-report
/// read must have returned a positive byte count. A failed call is handed
/// in as `None`.
pub fn probe_accepts(report_size: Option<usize>) -> (r: bool)
    ensures
        r == spec_probe_positive(report_size),
{
    match report_size {
        Some(n) => n > 0,
        None => false,
    }
}

/// Phase of the handshake state machine.
#[derive(Debug, Clone, Copy, PartialEq, Eq, Hash, Structural)]
pub enum HandshakePhase {
    /// The next report of the sequence still has to be sent.
    Sending,
    /// The last report was sent; the control channel is being polled for
    /// readiness before the next report (or completion).
    Waiting,
    /// Every report was sent and acknowledged.
    Ready,
}

/// What the caller has to do next to advance a handshake.
#[derive(Debug, Clone, Copy, PartialEq, Eq, Hash, Structural)]
pub enum HandshakeAction {
    /// Send the feature report at this index of the mode's sequence to the
    /// control device.
    SendReport(usize),
    /// Send a readiness probe ([`CONTROL_READINESS_PROBE`]) after sleeping
    /// [`WAIT_FOR_CONTROL_MILLIS`], and hand back the returned byte count
    /// and the elapsed time.
    Probe,
    /// The handshake is complete.
    Done,
}

/// The handshake state machine: sends each feature report of the mode's
/// sequence in order, and after each one polls the control channel until it
/// answers, within a wall-clock budget.
#[derive(Debug, Clone, Copy, PartialEq, Eq, Hash, Structural)]
pub struct Handshake {
    /// Which mode's sequence is being sent.
    pub kind: ControlerFeatureKind,
    /// How many reports of the sequence were sent so far.
    pub sent: usize,
    /// Current phase.
    pub phase: HandshakePhase,
}

/// The transition taken by [`Handshake::on_probe`]: the next state and the
/// result handed to the caller.
pub open spec fn spec_on_probe(pre: Handshake, report_size: Option<usize>, elapsed_nanos: u128) -> (
    Handshake,
    Result<(), ErrorRoccatVulcanApi>,
) {
    if spec_probe_positive(report_size) {
        if pre.sent < spec_feature_reports(pre.kind).len() {
            (Handshake { phase: HandshakePhase::Sending, ..pre }, Ok(()))
        } else {
            (Handshake { phase: HandshakePhase::Ready, ..pre }, Ok(()))
        }
    } else if elapsed_nanos > MAX_WAIT_NANOS {
        (pre, Err(ErrorRoccatVulcanApi::WaitedToMuchTime(elapsed_nanos)))
    } else {
        (pre, Ok(()))
    }
}

impl Handshake {
    /// The state machine never counts more sent reports than the sequence
    /// has, still has one to send while `Sending`, and has sent all of them
    /// once `Ready`.
    pub open spec fn wf(&self) -> bool {
        &&& self.sent <= spec_feature_reports(self.kind).len()
        &&& (self.phase is Sending ==> self.sent < spec_feature_reports(self.kind).len())
        &&& (self.phase is Ready ==> self.sent == spec_feature_reports(self.kind).len())
    }

    /// Start a handshake for the given mode.
    pub fn new(kind: ControlerFeatureKind) -> (r: Self)
        ensures
            r.wf(),
            r.kind == kind,
            r.sent == 0,
            r.phase is Sending,
    {
        Self { kind, sent: 0, phase: HandshakePhase::Sending }
    }

    /// What the caller has to do next.
    pub fn next_action(&self) -> (a: HandshakeAction)
        requires
            self.wf(),
        ensures
            self.phase is Sending ==> a == HandshakeAction::SendReport(self.sent),
            self.phase is Waiting ==> a is Probe,
            self.phase is Ready ==> a is Done,
    {
        match self.phase {
            HandshakePhase::Sending => HandshakeAction::SendReport(self.sent),
            HandshakePhase::Waiting => HandshakeAction::Probe,
            HandshakePhase::Ready => HandshakeAction::Done,
        }
    }

    /// Record the outcome of sending the current report. A failed send is
    /// fatal: the handshake reports a control-device error and does not
    /// advance.
    pub fn on_report_sent(&mut self, ok: bool) -> (r: Result<(), ErrorRoccatVulcanApi>)
        requires
            old(self).wf(),
            old(self).phase is Sending,
        ensures
            final(self).wf(),
            ok ==> r is Ok && *final(self) == (Handshake {
                sent: (old(self).sent + 1) as usize,
                phase: HandshakePhase::Waiting,
                ..*old(self)
            }),
            !ok ==> r == Err::<(), ErrorRoccatVulcanApi>(ErrorRoccatVulcanApi::ControlDeviceError)
                && *final(self) == *old(self),
    {
        if ok {
            self.sent = self.sent + 1;
            self.phase = HandshakePhase::Waiting;
            Ok(())
        } else {
            Err(ErrorRoccatVulcanApi::ControlDeviceError)
        }
    }

    /// Record the outcome of one readiness probe: a positive byte count
    /// advances the handshake (to the next report, or to `Ready` when the
    /// sequence is exhausted); otherwise the handshake keeps waiting until
    /// the wall-clock budget is exceeded, which fails with
    /// `WaitedToMuchTime`.
    pub fn on_probe(&mut self, report_size: Option<usize>, elapsed_nanos: u128) -> (r: Result<
        (),
        ErrorRoccatVulcanApi,
    >)
        requires
            old(self).wf(),
            old(self).phase is Waiting,
        ensures
            final(self).wf(),
            (*final(self), r) == spec_on_probe(*old(self), report_size, elapsed_nanos),
    {
        if probe_accepts(report_size) {
            let reports = feature_reports(self.kind);
            if self.sent < reports.len() {
                self.phase = HandshakePhase::Sending;
            } else {
                self.phase = HandshakePhase::Ready;
            }
            Ok(())
        } else if elapsed_nanos > MAX_WAIT_NANOS {
            Err(ErrorRoccatVulcanApi::WaitedToMuchTime(elapsed_nanos))
        } else {
            Ok(())
        }
    }

    /// Whether the handshake is complete.
    pub fn is_ready(&self) -> (r: bool)
        ensures
            r == (self.phase is Ready),
    {
        match self.phase {
            HandshakePhase::Ready => true,
            _ => false,
        }
    }
}

/// Once the wall-clock budget is exceeded, a poll whose probe did not
/// return a positive byte count always fails with `WaitedToMuchTime`
/// carrying the elapsed time — the handshake never keeps a caller waiting
/// past the budget, whatever the probe keeps answering.
pub proof fn lemma_handshake_times_out(
    pre: Handshake,
    report_size: Option<usize>,
    elapsed_nanos: u128,
)
    requires
        !spec_probe_positive(report_size),
        elapsed_nanos > MAX_WAIT_NANOS,
    ensures
        spec_on_probe(pre, report_size, elapsed_nanos).1 == Err::<(), ErrorRoccatVulcanApi>(
            ErrorRoccatVulcanApi::WaitedToMuchTime(elapsed_nanos),
        ),
{
}

/// Check that a read duration fits the timeout unit of the underlying read
/// call; rejected durations fail with `InvalidInput` before any read.
pub fn check_read_duration(duration_millis: u128) -> (r: Result<(), ErrorRoccatVulcanApi>)
    ensures
        duration_millis > MAX_READ_TIMEOUT_MILLIS ==> r == Err::<(), ErrorRoccatVulcanApi>(
            ErrorRoccatVulcanApi::InvalidInput,
        ),
        duration_millis <= MAX_READ_TIMEOUT_MILLIS ==> r is Ok,
{
    if duration_millis > MAX_READ_TIMEOUT_MILLIS {
        Err(ErrorRoccatVulcanApi::InvalidInput)
    } else {
        Ok(())
    }
}

/// The timing decision of the key-read loop: `None` once the requested
/// duration has elapsed, else the timeout for the next bounded read, which
/// is exactly the remaining time.
pub open spec fn spec_read_step(duration_millis: u128, elapsed_millis: u128) -> Option<i32>
    recommends
        duration_millis <= MAX_READ_TIMEOUT_MILLIS,
{
    if duration_millis <= elapsed_millis {
        None
    } else {
        Some((duration_millis - elapsed_millis) as i32)
    }
}

/// Decide whether the key-read loop performs another bounded read, and with
/// which timeout: reads continue, each clamped to the remaining budget,
/// until the requested duration has elapsed.
pub fn read_step(duration_millis: u128, elapsed_millis: u128) -> (r: Option<i32>)
    requires
        duration_millis <= MAX_READ_TIMEOUT_MILLIS,
    ensures
        r == spec_read_step(duration_millis, elapsed_millis),
{
    if duration_millis <= elapsed_millis {
        None
    } else {
        Some((duration_millis - elapsed_millis) as i32)
    }
}

/// A zero read duration performs no read at all: the very first timing step
/// of the loop already stops it, whatever the clock says.
pub proof fn lemma_read_zero_duration(elapsed_millis: u128)
    ensures
        spec_read_step(0, elapsed_millis) is None,
{
}

/// Append the decoded event of a raw report to the event list when the
/// report carries one (its key-code byte is non-zero); reports with a zero
/// key-code byte are noise and leave the list unchanged.
pub fn push_key_event(events: &mut Vec<KeyPress>, buffer: [u8; 5])
    ensures
        buffer[2] > 0 ==> final(events)@ == old(events)@.push(
            KeyPress {
                key_code: KeyCode { first_u8: buffer[2], seconde_u8: buffer[3] },
                is_pressed: spec_is_pressed(buffer[2], buffer[4]),
            },
        ),
        buffer[2] == 0 ==> final(events)@ == old(events)@,
{
    if buffer[2] > 0 {
        let event = KeyPress::new_from_buffer(buffer);
        events.push(event);
    }
}

/// Find the first enumerated device matching a filter.
pub fn find_interface(devices: &Vec<HidDeviceInfo>, filter: &HidInterfaceFilter) -> (r: Option<
    usize,
>)
    ensures
        match r {
            Some(i) => i < devices@.len() && spec_match_filter(*filter, devices@[i as int])
                && forall|j: int| 0 <= j < i ==> !spec_match_filter(*filter, devices@[j]),
            None => forall|j: int|
                0 <= j < devices@.len() ==> !spec_match_filter(*filter, devices@[j]),
        },
{
    let mut i: usize = 0;
    while i < devices.len()
        invariant
            i <= devices@.len(),
            forall|j: int| 0 <= j < i ==> !spec_match_filter(*filter, devices@[j]),
        decreases devices@.len() - i,
    {
        if filter.match_filter(&devices[i]) {
            return Some(i);
        }
        i = i + 1;
    }
    None
}

/// Whether any enumerated device carries the control product id of the
/// candidate filter set — the test that decides `KeyboardNotFound`.
pub fn keyboard_present(devices: &Vec<HidDeviceInfo>, interface: &KeyboardIntrefacesFilter) -> (r:
    bool)
    ensures
        r == exists|j: int|
            0 <= j < devices@.len() && (#[trigger] devices@[j]).product_id
                == interface.control_interface.product_id,
{
    let mut i: usize = 0;
    while i < devices.len()
        invariant
            i <= devices@.len(),
            forall|j: int|
                0 <= j < i ==> (#[trigger] devices@[j]).product_id
                    != interface.control_interface.product_id,
        decreases devices@.len() - i,
    {
        if devices[i].product_id == interface.control_interface.product_id {
            return true;
        }
        i = i + 1;
    }
    false
}

/// List, in increasing order, the indices of every enumerated device that
/// matches the control filter: the candidates to be probed in order.
pub fn control_candidates(devices: &Vec<HidDeviceInfo>, filter: &HidInterfaceFilter) -> (r: Vec<
    usize,
>)
    ensures
        forall|k: int|
            0 <= k < r@.len() ==> (#[trigger] r@[k]) < devices@.len() && spec_match_filter(
                *filter,
                devices@[r@[k] as int],
            ),
        forall|k1: int, k2: int| 0 <= k1 < k2 < r@.len() ==> r@[k1] < r@[k2],
        forall|j: int|
            0 <= j < devices@.len() && spec_match_filter(*filter, #[trigger] devices@[j])
                ==> exists|k: int| 0 <= k < r@.len() && r@[k] == j,
{
    let mut r: Vec<usize> = Vec::new();
    let mut i: usize = 0;
    while i < devices.len()
        invariant
            i <= devices@.len(),
            forall|k: int|
                0 <= k < r@.len() ==> (#[trigger] r@[k]) < i && spec_match_filter(
                    *filter,
                    devices@[r@[k] as int],
                ),
            forall|k1: int, k2: int| 0 <= k1 < k2 < r@.len() ==> r@[k1] < r@[k2],
            forall|j: int|
                0 <= j < i && spec_match_filter(*filter, #[trigger] devices@[j]) ==> exists|k: int|
                    0 <= k < r@.len() && r@[k] == j,
        decreases devices@.len() - i,
    {
        if filter.match_filter(&devices[i]) {
            let ghost pre = r@;
            r.push(i);
            proof {
                assert forall|j: int|
                    0 <= j < i + 1 && spec_match_filter(*filter, #[trigger] devices@[j]) implies exists|
                    k: int,
                |
                    0 <= k < r@.len() && r@[k] == j by {
                    if j == i as int {
                        assert(r@[r@.len() - 1] == i);
                    } else {
                        let k = choose|k: int| 0 <= k < pre.len() && pre[k] == j;
                        assert(r@[k] == j);
                    }
                }
            }
        }
        i = i + 1;
    }
    r
}

/// Which enumerated devices a session will open: the read and LED channels,
/// and the control candidates still to be probed in order.
#[derive(Debug, Clone, PartialEq, Eq)]
pub struct DiscoveryPlan {
    /// Index of the first device matching the read filter
    pub read_index: usize,
    /// Index of the first device matching the LED filter
    pub led_index: usize,
    /// Indices of every device matching the control filter, in order
    pub control_candidates: Vec<usize>,
}

/// Decide, from the enumerated devices, which ones a session for the given
/// model will open. Errors come in the fixed order the session reports
/// them: `KeyboardNotFound` when no device carries the control product id,
/// then `NoReadDevice`, then `NoLedDevice`. Probing the control candidates
/// is left to the caller, since each probe mutates device state.
pub fn discovery_plan(devices: &Vec<HidDeviceInfo>, interface: &KeyboardIntrefacesFilter) -> (r:
    Result<DiscoveryPlan, ErrorRoccatVulcanApi>)
    ensures
        match r {
            Ok(plan) => {
                &&& exists|j: int|
                    0 <= j < devices@.len() && (#[trigger] devices@[j]).product_id
                        == interface.control_interface.product_id
                &&& plan.read_index < devices@.len()
                &&& spec_match_filter(interface.read_interface, devices@[plan.read_index as int])
                &&& forall|j: int|
                    0 <= j < plan.read_index ==> !spec_match_filter(
                        interface.read_interface,
                        devices@[j],
                    )
                &&& plan.led_index < devices@.len()
                &&& spec_match_filter(interface.led_interface, devices@[plan.led_index as int])
                &&& forall|j: int|
                    0 <= j < plan.led_index ==> !spec_match_filter(
                        interface.led_interface,
                        devices@[j],
                    )
                &&& forall|k: int|
                    0 <= k < plan.control_candidates@.len() ==> (
                    #[trigger] plan.control_candidates@[k]) < devices@.len() && spec_match_filter(
                        interface.control_interface,
                        devices@[plan.control_candidates@[k] as int],
                    )
                &&& forall|k1: int, k2: int|
                    0 <= k1 < k2 < plan.control_candidates@.len()
                        ==> plan.control_candidates@[k1] < plan.control_candidates@[k2]
                &&& forall|j: int|
                    0 <= j < devices@.len() && spec_match_filter(
                        interface.control_interface,
                        #[trigger] devices@[j],
                    ) ==> exists|k: int|
                        0 <= k < plan.control_candidates@.len() && plan.control_candidates@[k] == j
            },
            Err(ErrorRoccatVulcanApi::KeyboardNotFound) => forall|j: int|
                0 <= j < devices@.len() ==> (#[trigger] devices@[j]).product_id
                    != interface.control_interface.product_id,
            Err(ErrorRoccatVulcanApi::NoReadDevice) => {
                &&& exists|j: int|
                    0 <= j < devices@.len() && (#[trigger] devices@[j]).product_id
                        == interface.control_interface.product_id
                &&& forall|j: int|
                    0 <= j < devices@.len() ==> !spec_match_filter(
                        interface.read_interface,
                        devices@[j],
                    )
            },
            Err(ErrorRoccatVulcanApi::NoLedDevice) => {
                &&& exists|j: int|
                    0 <= j < devices@.len() && (#[trigger] devices@[j]).product_id
                        == interface.control_interface.product_id
                &&& exists|j: int|
                    0 <= j < devices@.len() && spec_match_filter(
                        interface.read_interface,
                        #[trigger] devices@[j],
                    )
                &&& forall|j: int|
                    0 <= j < devices@.len() ==> !spec_match_filter(
                        interface.led_interface,
                        devices@[j],
                    )
            },
            Err(ErrorRoccatVulcanApi::NoControlDevice) => {
                &&& exists|j: int|
                    0 <= j < devices@.len() && (#[trigger] devices@[j]).product_id
                        == interface.control_interface.product_id
                &&& exists|j: int|
                    0 <= j < devices@.len() && spec_match_filter(
                        interface.read_interface,
                        #[trigger] devices@[j],
                    )
                &&& exists|j: int|
                    0 <= j < devices@.len() && spec_match_filter(
                        interface.led_interface,
                        #[trigger] devices@[j],
                    )
                &&& forall|j: int|
                    0 <= j < devices@.len() ==> !spec_match_filter(
                        interface.control_interface,
                        devices@[j],
                    )
            },
            _ => false,
        },
{
    if !keyboard_present(devices, interface) {
        return Err(ErrorRoccatVulcanApi::KeyboardNotFound);
    }
    let read_index = match find_interface(devices, interface.read_interface()) {
        Some(i) => i,
        None => {
            return Err(ErrorRoccatVulcanApi::NoReadDevice);
        },
    };
    let led_index = match find_interface(devices, interface.led_interface()) {
        Some(i) => i,
        None => {
            return Err(ErrorRoccatVulcanApi::NoLedDevice);
        },
    };
    let candidates = control_candidates(devices, interface.control_interface());
    if candidates.len() == 0 {
        return Err(ErrorRoccatVulcanApi::NoControlDevice);
    }
    let plan = DiscoveryPlan { read_index, led_index, control_candidates: candidates };
    proof {
        assert forall|j: int|
            0 <= j < devices@.len() && spec_match_filter(
                interface.control_interface,
                #[trigger] devices@[j],
            ) implies exists|k: int|
            0 <= k < plan.control_candidates@.len() && plan.control_candidates@[k] == j by {
            let k = choose|k: int|
                0 <= k < plan.control_candidates@.len() && plan.control_candidates@[k] == j;
            assert(0 <= k < plan.control_candidates@.len() && plan.control_candidates@[k] == j);
        }
    }
    Ok(plan)
}

} // verus!
