use vstd::prelude::*;
use vstd::string::*;
use crate::command::DATA_LENGTH;
use crate::device::{DeviceIdentity, locate, not_found_message, not_found_text};
use crate::text::{contains_spec, occurs_at};
use crate::transport::{
    Attempt,
    Cause,
    check_transfer,
    Failure,
    FailureView,
    Step,
    Transport,
    failure_text,
    HID_INTERFACE,
    INTERRUPT_OUT_ENDPOINT,
};

verus! {

/// Where a run stands.
#[derive(Clone, Copy, Debug, PartialEq, Eq, Structural)]
pub enum Phase {
    /// The display was found at position `device` among the attached devices.
    Located { device: usize },
    /// No attached device is the display: nothing is attempted.
    DeviceMissing,
    /// Transports are being tried in order.
    Attempting,
    /// The command went through `transport`.
    Succeeded { transport: Transport },
    /// Every transport failed.
    Exhausted,
}

/// Whether the USB interface could be claimed for the USB transfers.
pub enum Claim {
    Granted,
    Refused { cause: Cause, detail: String },
}

/// What the caller is to do next.
#[derive(Clone, Copy, Debug, PartialEq, Eq, Structural)]
pub enum Action {
    /// Claim the USB interface `interface`, which the USB transfers need, and
    /// report whether that worked.
    Claim { interface: u8 },
    /// Write the command through `transport` and report what happened.
    Write { transport: Transport },
    /// Stop: the run is over.
    Finish,
}

/// A run as values: the transports in the order they are tried, how many of
/// them have been tried, the failures recorded so far, whether the USB
/// interface has been claimed, and whether claiming it failed (that failure is
/// then recorded last, and the USB transports are dropped).
pub struct RunModel {
    pub phase: Phase,
    pub candidates: Seq<Transport>,
    pub next: nat,
    pub failures: Seq<FailureView>,
    pub claimed: bool,
    pub refused: bool,
}

impl RunModel {
    /// What holds of every run at every step: the failures of the writes come
    /// in the order of the transports tried, and the counts agree with the
    /// phase.
    pub open spec fn wf(self) -> bool {
        &&& self.next <= self.candidates.len()
        &&& match self.phase {
            Phase::Located { .. } | Phase::DeviceMissing => self.candidates.len() == 0
                && self.next == 0 && self.failures.len() == 0 && !self.claimed && !self.refused,
            Phase::Attempting => self.next < self.candidates.len() && self.failures.len()
                == self.next && !self.refused,
            Phase::Succeeded { transport } => self.next >= 1 && transport == self.candidates[self.next
                - 1] && self.failures.len() + 1 == self.next && !self.refused,
            Phase::Exhausted => self.next == self.candidates.len() && if self.refused {
                self.failures.len() == self.next + 1 && self.failures.last().step == (Step::Claim {
                    interface: HID_INTERFACE,
                })
            } else {
                self.failures.len() == self.next
            },
        }
        &&& forall|i: int|
            0 <= i < self.failures.len() && i < self.next ==> (#[trigger] self.failures[i]).step
                == (Step::Write { transport: self.candidates[i] })
    }
}

/// Whether writing through `t` needs the USB interface claimed.
pub open spec fn needs_claim(t: Transport) -> bool {
    !(t is RawNode)
}

/// The transports in the order they are tried: every raw device node the host
/// exposes for the display, then a control transfer and an interrupt transfer.
pub open spec fn candidates_spec(raw_nodes: nat) -> Seq<Transport> {
    Seq::new(raw_nodes, |i: int| Transport::RawNode { node: i as usize }) + seq![
        Transport::ControlTransfer { interface: HID_INTERFACE },
        Transport::InterruptTransfer { endpoint: INTERRUPT_OUT_ENDPOINT },
    ]
}

/// The run once the transports are chosen.
pub open spec fn select_spec(raw_nodes: usize) -> RunModel {
    RunModel {
        phase: Phase::Attempting,
        candidates: candidates_spec(raw_nodes as nat),
        next: 0,
        failures: Seq::empty(),
        claimed: false,
        refused: false,
    }
}

/// The run once claiming the USB interface gave `claim`: on refusal the USB
/// transports, which are all still untried, are dropped and the run is over.
pub open spec fn claim_spec(m: RunModel, claim: Claim) -> RunModel {
    match claim {
        Claim::Granted => RunModel { claimed: true, ..m },
        Claim::Refused { cause, detail } => RunModel {
            phase: Phase::Exhausted,
            candidates: m.candidates.take(m.next as int),
            failures: m.failures.push(
                FailureView { step: Step::Claim { interface: HID_INTERFACE }, cause, detail: detail@ },
            ),
            refused: true,
            ..m
        },
    }
}

/// The run once the write through the current transport reported `attempt`.
pub open spec fn record_spec(m: RunModel, attempt: Attempt) -> RunModel {
    let transport = m.candidates[m.next as int];
    let failed = |cause: Cause, detail: Seq<char>|
        RunModel {
            phase: if m.next + 1 < m.candidates.len() {
                Phase::Attempting
            } else {
                Phase::Exhausted
            },
            next: m.next + 1,
            failures: m.failures.push(
                FailureView { step: Step::Write { transport }, cause, detail },
            ),
            ..m
        };
    match attempt {
        Attempt::Transferred { length } => if length == DATA_LENGTH {
            RunModel { phase: Phase::Succeeded { transport }, next: m.next + 1, ..m }
        } else {
            failed(Cause::ShortWrite { transferred: length }, Seq::empty())
        },
        Attempt::Failed { cause, detail } => failed(cause, detail@),
    }
}

/// What the caller is to do in run `m`.
pub open spec fn action_spec(m: RunModel) -> Action {
    if m.phase is Attempting {
        let t = m.candidates[m.next as int];
        if needs_claim(t) && !m.claimed {
            Action::Claim { interface: HID_INTERFACE }
        } else {
            Action::Write { transport: t }
        }
    } else {
        Action::Finish
    }
}

/// The exit code of the process once run `m` is over.
pub open spec fn exit_code_spec(m: RunModel) -> i32 {
    if m.phase is Succeeded {
        0
    } else {
        1
    }
}

/// The reports of the failures `fs`, one after the other in the order they
/// were recorded.
pub open spec fn failures_text(fs: Seq<FailureView>) -> Seq<char>
    decreases fs.len(),
{
    if fs.len() == 0 {
        Seq::empty()
    } else {
        failures_text(fs.drop_last()) + failure_text(fs.last())
    }
}

/// The message given when every transport failed.
pub open spec fn aggregate_text(fs: Seq<FailureView>) -> Seq<char> {
    "Failed to write brightness data through every transport:"@ + failures_text(fs)
}

/// The message that reports the failure of run `m`, if it failed.
pub open spec fn error_text_spec(m: RunModel) -> Option<Seq<char>> {
    match m.phase {
        Phase::DeviceMissing => Some(not_found_text()),
        Phase::Exhausted => Some(aggregate_text(m.failures)),
        _ => None,
    }
}

/// One run: locating the display, choosing the transports, and trying them in
/// order until one delivers the command.
pub struct Run {
    phase: Phase,
    candidates: Vec<Transport>,
    next: usize,
    failures: Vec<Failure>,
    claimed: bool,
    refused: bool,
}

impl View for Run {
    type V = RunModel;

    closed spec fn view(&self) -> RunModel {
        RunModel {
            phase: self.phase,
            candidates: self.candidates@,
            next: self.next as nat,
            failures: self.failures@.map_values(|f: Failure| f@),
            claimed: self.claimed,
            refused: self.refused,
        }
    }
}

impl Run {
    /// Starts a run on the attached devices, in the order the host enumerated
    /// them: the first one that is the display is located.
    pub fn start(devices: &Vec<DeviceIdentity>) -> (r: Run)
        ensures
            r@.wf(),
            r@.candidates.len() == 0,
            r@.next == 0,
            r@.failures.len() == 0,
            !r@.claimed,
            !r@.refused,
            match r@.phase {
                Phase::Located { device } => device < devices@.len()
                    && devices@[device as int].is_target_spec() && forall|j: int|
                    0 <= j < device ==> !(#[trigger] devices@[j]).is_target_spec(),
                Phase::DeviceMissing => forall|j: int|
                    0 <= j < devices@.len() ==> !(#[trigger] devices@[j]).is_target_spec(),
                _ => false,
            },
    {
        let phase = match locate(devices) {
            Some(device) => Phase::Located { device },
            None => Phase::DeviceMissing,
        };
        let r = Run {
            phase,
            candidates: Vec::new(),
            next: 0,
            failures: Vec::new(),
            claimed: false,
            refused: false,
        };
        assert(r@.failures =~= Seq::empty());
        r
    }

    /// Where the run stands.
    pub fn phase(&self) -> (r: Phase)
        ensures
            r == self@.phase,
    {
        self.phase
    }

    /// Chooses the transports once the display is located: `raw_nodes` raw
    /// device nodes were found for it.
    pub fn select(&mut self, raw_nodes: usize)
        requires
            old(self)@.wf(),
            old(self)@.phase is Located,
        ensures
            final(self)@ == select_spec(raw_nodes),
            final(self)@.wf(),
    {
        let mut candidates: Vec<Transport> = Vec::new();
        let mut i: usize = 0;
        while i < raw_nodes
            invariant
                i <= raw_nodes,
                candidates@ =~= Seq::new(i as nat, |k: int| Transport::RawNode { node: k as usize }),
            decreases raw_nodes - i,
        {
            candidates.push(Transport::RawNode { node: i });
            i = i + 1;
        }
        candidates.push(Transport::ControlTransfer { interface: HID_INTERFACE });
        candidates.push(Transport::InterruptTransfer { endpoint: INTERRUPT_OUT_ENDPOINT });
        self.phase = Phase::Attempting;
        self.candidates = candidates;
        self.next = 0;
        self.failures = Vec::new();
        self.claimed = false;
        self.refused = false;
        assert(self@.candidates =~= candidates_spec(raw_nodes as nat));
        assert(self@.failures =~= Seq::empty());
    }

    /// What the caller is to do next.
    pub fn next_action(&self) -> (r: Action)
        requires
            self@.wf(),
        ensures
            r == action_spec(self@),
    {
        match self.phase {
            Phase::Attempting => {
                let t = self.candidates[self.next];
                match t {
                    Transport::RawNode { .. } => Action::Write { transport: t },
                    _ => if self.claimed {
                        Action::Write { transport: t }
                    } else {
                        Action::Claim { interface: HID_INTERFACE }
                    },
                }
            },
            _ => Action::Finish,
        }
    }

    /// Records whether the USB interface could be claimed. A refusal drops
    /// the USB transports, which are the rest of the list, and ends the run.
    pub fn claim_result(&mut self, claim: Claim)
        requires
            old(self)@.wf(),
            action_spec(old(self)@) is Claim,
        ensures
            final(self)@ == claim_spec(old(self)@, claim),
            final(self)@.wf(),
    {
        let ghost claim_v = claim;
        let ghost before = self@;
        match claim {
            Claim::Granted => {
                self.claimed = true;
            },
            Claim::Refused { cause, detail } => {
                let ghost detail_v = detail@;
                self.candidates.truncate(self.next);
                self.failures.push(
                    Failure { step: Step::Claim { interface: HID_INTERFACE }, cause, detail },
                );
                self.refused = true;
                self.phase = Phase::Exhausted;
                assert(self@.candidates =~= before.candidates.take(before.next as int));
                assert(self@.failures =~= before.failures.push(
                    FailureView { step: Step::Claim { interface: HID_INTERFACE }, cause, detail: detail_v },
                ));
            },
        }
        assert(self@ == claim_spec(before, claim_v));
    }

    /// Records what the write through the current transport reported: a
    /// transfer of the whole command ends the run in success, anything else is
    /// recorded as that transport's failure and the next transport is up.
    pub fn record(&mut self, attempt: Attempt)
        requires
            old(self)@.wf(),
            old(self)@.phase is Attempting,
        ensures
            final(self)@ == record_spec(old(self)@, attempt),
            final(self)@.wf(),
    {
        let ghost attempt_v = attempt;
        let ghost before = self@;
        let n = self.candidates.len();
        assert(self.next < n);
        let transport = self.candidates[self.next];
        let (cause, detail) = match attempt {
            Attempt::Transferred { length } => match check_transfer(length) {
                Ok(()) => {
                    self.phase = Phase::Succeeded { transport };
                    self.next = self.next + 1;
                    assert(self@.failures =~= before.failures);
                    return ;
                },
                Err(cause) => (cause, String::new()),
            },
            Attempt::Failed { cause, detail } => (cause, detail),
        };
        let ghost detail_v = detail@;
        self.failures.push(Failure { step: Step::Write { transport }, cause, detail });
        self.next = self.next + 1;
        self.phase = if self.next < self.candidates.len() {
            Phase::Attempting
        } else {
            Phase::Exhausted
        };
        assert(self@.failures =~= before.failures.push(
            FailureView { step: Step::Write { transport }, cause, detail: detail_v },
        ));
        assert(self@ == record_spec(before, attempt_v));
    }

    /// The line that reports why the run failed, or `None` when it has not
    /// failed.
    pub fn error_message(&self) -> (r: Option<String>)
        ensures
            match r {
                Some(text) => error_text_spec(self@) == Some(text@),
                None => error_text_spec(self@) is None,
            },
    {
        match self.phase {
            Phase::DeviceMissing => Some(not_found_message()),
            Phase::Exhausted => {
                let mut text = String::from_str(
                    "Failed to write brightness data through every transport:",
                );
                let mut i: usize = 0;
                while i < self.failures.len()
                    invariant
                        i <= self@.failures.len(),
                        self@.failures.len() == self.failures@.len(),
                        text@ == "Failed to write brightness data through every transport:"@
                            + failures_text(self@.failures.take(i as int)),
                    decreases self.failures@.len() - i,
                {
                    let part = self.failures[i].describe();
                    proof {
                        let fs = self@.failures;
                        assert(fs.take(i + 1).drop_last() =~= fs.take(i as int));
                        assert(fs.take(i + 1).last() == self.failures@[i as int]@);
                    }
                    text = text.concat(part.as_str());
                    i = i + 1;
                }
                assert(self@.failures.take(i as int) =~= self@.failures);
                Some(text)
            },
            _ => None,
        }
    }

    /// The exit code of the process once the run is over: zero on success,
    /// one otherwise.
    pub fn exit_code(&self) -> (r: i32)
        ensures
            r == exit_code_spec(self@),
    {
        match self.phase {
            Phase::Succeeded { .. } => 0,
            _ => 1,
        }
    }
}

/// The report of each recorded failure appears in the reports of all of them.
pub proof fn lemma_failure_text_occurs(fs: Seq<FailureView>, i: int)
    requires
        0 <= i < fs.len(),
    ensures
        contains_spec(failures_text(fs), failure_text(fs[i])),
    decreases fs.len(),
{
    let prefix = failures_text(fs.drop_last());
    let whole = failures_text(fs);
    if i == fs.len() - 1 {
        assert(whole.subrange(prefix.len() as int, whole.len() as int) =~= failure_text(fs[i]));
        assert(occurs_at(whole, failure_text(fs[i]), prefix.len() as int));
    } else {
        lemma_failure_text_occurs(fs.drop_last(), i);
        let p = choose|p: int| occurs_at(prefix, failure_text(fs[i]), p);
        let part = failure_text(fs[i]);
        assert(whole.subrange(p, p + part.len()) =~= prefix.subrange(p, p + part.len()));
        assert(occurs_at(whole, part, p));
    }
}

/// The report of each recorded failure appears in the message that reports
/// them all.
pub proof fn lemma_failure_in_aggregate(fs: Seq<FailureView>, i: int)
    requires
        0 <= i < fs.len(),
    ensures
        contains_spec(aggregate_text(fs), failure_text(fs[i])),
{
    lemma_failure_text_occurs(fs, i);
    let head = "Failed to write brightness data through every transport:"@;
    let tail = failures_text(fs);
    let part = failure_text(fs[i]);
    let p = choose|p: int| occurs_at(tail, part, p);
    let whole = aggregate_text(fs);
    assert(whole.subrange(head.len() + p, head.len() + p + part.len()) =~= tail.subrange(
        p,
        p + part.len(),
    ));
    assert(occurs_at(whole, part, head.len() + p));
}

/// When no attached device is the display, the run stops at once: no
/// transport is chosen or tried, the failure is reported as the missing
/// display, and the exit code is one.
pub proof fn lemma_missing_device_attempts_nothing(m: RunModel)
    requires
        m.wf(),
        m.phase is DeviceMissing,
    ensures
        m.candidates.len() == 0,
        m.next == 0,
        m.failures.len() == 0,
        action_spec(m) == Action::Finish,
        error_text_spec(m) == Some(not_found_text()),
        exit_code_spec(m) == 1,
{
}

/// When a raw device node exists for the display and the write to it
/// transfers the whole command, the run succeeds through that node, having
/// tried no other transport and never claimed the USB interface.
pub proof fn lemma_raw_node_success(raw_nodes: usize)
    requires
        raw_nodes >= 1,
    ensures
        action_spec(select_spec(raw_nodes)) == (Action::Write {
            transport: Transport::RawNode { node: 0 },
        }),
        ({
            let m = record_spec(select_spec(raw_nodes), Attempt::Transferred { length: DATA_LENGTH });
            &&& m.phase == (Phase::Succeeded { transport: Transport::RawNode { node: 0 } })
            &&& m.next == 1
            &&& m.failures.len() == 0
            &&& !m.claimed
            &&& action_spec(m) == Action::Finish
            &&& exit_code_spec(m) == 0
        }),
{
}

/// When no raw device node exists, the interface is claimed and the control
/// transfer moves the whole command, the run succeeds through the control
/// transfer and tries nothing else.
pub proof fn lemma_control_transfer_success()
    ensures
        action_spec(select_spec(0)) == (Action::Claim { interface: HID_INTERFACE }),
        action_spec(claim_spec(select_spec(0), Claim::Granted)) == (Action::Write {
            transport: Transport::ControlTransfer { interface: HID_INTERFACE },
        }),
        ({
            let m = record_spec(
                claim_spec(select_spec(0), Claim::Granted),
                Attempt::Transferred { length: DATA_LENGTH },
            );
            &&& m.phase == (Phase::Succeeded {
                transport: Transport::ControlTransfer { interface: HID_INTERFACE },
            })
            &&& m.next == 1
            &&& m.failures.len() == 0
            &&& action_spec(m) == Action::Finish
            &&& exit_code_spec(m) == 0
        }),
{
}

/// When every transport has failed, one failure is recorded for each
/// transport tried, in order, followed by the refused claim if that is what
/// ended the run; the message carries the report of each, and the exit code
/// is one.
pub proof fn lemma_exhausted_reports_every_cause(m: RunModel)
    requires
        m.wf(),
        m.phase is Exhausted,
    ensures
        m.next == m.candidates.len(),
        m.failures.len() == m.candidates.len() + if m.refused {
            1int
        } else {
            0int
        },
        forall|i: int|
            0 <= i < m.candidates.len() ==> (#[trigger] m.failures[i]).step == (Step::Write {
                transport: m.candidates[i],
            }),
        forall|i: int|
            0 <= i < m.failures.len() ==> contains_spec(
                aggregate_text(m.failures),
                failure_text(#[trigger] m.failures[i]),
            ),
        error_text_spec(m) == Some(aggregate_text(m.failures)),
        action_spec(m) == Action::Finish,
        exit_code_spec(m) == 1,
{
    assert forall|i: int| 0 <= i < m.failures.len() implies contains_spec(
        aggregate_text(m.failures),
        failure_text(#[trigger] m.failures[i]),
    ) by {
        lemma_failure_in_aggregate(m.failures, i);
    }
}

/// A refused claim of the USB interface drops every USB transport, none of
/// which was tried, and ends the run with that refusal recorded last.
pub proof fn lemma_refused_claim_drops_usb(m: RunModel, cause: Cause, detail: String)
    requires
        m.wf(),
        action_spec(m) is Claim,
    ensures
        ({
            let r = claim_spec(m, Claim::Refused { cause, detail });
            &&& r.wf()
            &&& r.phase is Exhausted
            &&& r.candidates == m.candidates.take(m.next as int)
            &&& r.failures.last() == (FailureView {
                step: Step::Claim { interface: HID_INTERFACE },
                cause,
                detail: detail@,
            })
        }),
{
}

/// A transfer that moves any other number of bytes than the whole command
/// is no success: it is recorded as a short write of that many bytes, and the
/// next transport, if any, is up.
pub proof fn lemma_short_write_is_failure(m: RunModel, length: usize)
    requires
        m.wf(),
        m.phase is Attempting,
        length != DATA_LENGTH,
    ensures
        ({
            let r = record_spec(m, Attempt::Transferred { length });
            &&& !(r.phase is Succeeded)
            &&& r.wf()
            &&& r.failures.len() == m.failures.len() + 1
            &&& r.failures.last().cause == (Cause::ShortWrite { transferred: length })
            &&& r.failures.last().step == (Step::Write { transport: m.candidates[m.next as int] })
            &&& r.next == m.next + 1
        }),
{
}

} // verus!
