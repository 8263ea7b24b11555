use vstd::prelude::*;
use vstd::string::*;
use crate::command::DATA_LENGTH;
use crate::text::{decimal, decimal_text, is_access_denied, access_denied_spec};

verus! {

/// The USB interface that carries the display's HID reports.
pub const HID_INTERFACE: u8 = 0;

/// The endpoint that takes interrupt transfers to the display.
pub const INTERRUPT_OUT_ENDPOINT: u8 = 0x01;

/// The HID class request "Set Report".
pub const SET_REPORT_REQUEST: u8 = 0x09;

/// The value of a "Set Report" request for an output report with report id 0.
pub const OUTPUT_REPORT_VALUE: u16 = 0x0200;

/// One way of delivering the command to the display.
#[derive(Clone, Copy, Debug, PartialEq, Eq, Structural)]
pub enum Transport {
    /// Writing to the raw character device found at position `node` among
    /// those that the host exposes for the display.
    RawNode { node: usize },
    /// A class "Set Report" control transfer to `interface`.
    ControlTransfer { interface: u8 },
    /// An interrupt transfer to the output endpoint `endpoint`.
    InterruptTransfer { endpoint: u8 },
}

/// Why one step towards the display failed.
#[derive(Clone, Copy, Debug, PartialEq, Eq, Structural)]
pub enum Cause {
    /// The device or its node was not there.
    DeviceNotFound,
    /// Permissions are missing, or another driver holds the device.
    AccessDenied,
    /// The transport could not be set up.
    TransportUnsupported,
    /// The transfer completed with `transferred` bytes instead of the whole command.
    ShortWrite { transferred: usize },
    /// Any other failure.
    Other,
}

/// A step taken towards the display.
#[derive(Clone, Copy, Debug, PartialEq, Eq, Structural)]
pub enum Step {
    /// Claiming the USB interface, which the USB transfers need.
    Claim { interface: u8 },
    /// Writing the command through a transport.
    Write { transport: Transport },
}

/// A failed step, with its cause and the underlying error's text.
pub struct Failure {
    pub step: Step,
    pub cause: Cause,
    pub detail: String,
}

/// A failed step, as values.
pub struct FailureView {
    pub step: Step,
    pub cause: Cause,
    pub detail: Seq<char>,
}

impl View for Failure {
    type V = FailureView;

    open spec fn view(&self) -> FailureView {
        FailureView { step: self.step, cause: self.cause, detail: self.detail@ }
    }
}

/// What one write through a transport reported.
pub enum Attempt {
    /// The transfer completed, moving `length` bytes.
    Transferred { length: usize },
    /// The transfer did not complete.
    Failed { cause: Cause, detail: String },
}

/// What a completed transfer of `length` bytes means: success only when the
/// whole command went through.
pub open spec fn transfer_result_spec(length: usize) -> Result<(), Cause> {
    if length == DATA_LENGTH {
        Ok(())
    } else {
        Err(Cause::ShortWrite { transferred: length })
    }
}

/// Judges a completed transfer of `length` bytes.
pub fn check_transfer(length: usize) -> (r: Result<(), Cause>)
    ensures
        r == transfer_result_spec(length),
{
    if length == DATA_LENGTH {
        Ok(())
    } else {
        Err(Cause::ShortWrite { transferred: length })
    }
}

/// The cause of a device error, from its lower-cased message.
pub open spec fn device_error_cause_spec(lowered: Seq<char>) -> Cause {
    if access_denied_spec(lowered) {
        Cause::AccessDenied
    } else {
        Cause::Other
    }
}

/// Classifies a device error by its lower-cased message.
pub fn device_error_cause(lowered: &str) -> (r: Cause)
    ensures
        r == device_error_cause_spec(lowered@),
{
    if is_access_denied(lowered) {
        Cause::AccessDenied
    } else {
        Cause::Other
    }
}

/// The name of a transport in messages.
pub open spec fn transport_text(t: Transport) -> Seq<char> {
    match t {
        Transport::RawNode { node } => "raw device node "@ + decimal_text(node as nat),
        Transport::ControlTransfer { interface } => "control transfer to interface "@
            + decimal_text(interface as nat),
        Transport::InterruptTransfer { endpoint } => "interrupt transfer to endpoint "@
            + decimal_text(endpoint as nat),
    }
}

/// The name of a step in messages.
pub open spec fn step_text(s: Step) -> Seq<char> {
    match s {
        Step::Claim { interface } => "claiming interface "@ + decimal_text(interface as nat),
        Step::Write { transport } => transport_text(transport),
    }
}

/// The description of a cause in messages.
pub open spec fn cause_text(c: Cause) -> Seq<char> {
    match c {
        Cause::DeviceNotFound => "device not found"@,
        Cause::AccessDenied => "access denied"@,
        Cause::TransportUnsupported => "transport unsupported"@,
        Cause::ShortWrite { transferred } => "short write: Unexpected result "@ + decimal_text(
            transferred as nat,
        ) + " from writing brightness data, expected "@ + decimal_text(DATA_LENGTH as nat) + "."@,
        Cause::Other => "failed"@,
    }
}

/// The part of a message that reports one failure.
pub open spec fn failure_text(f: FailureView) -> Seq<char> {
    " ["@ + step_text(f.step) + "] "@ + cause_text(f.cause) + ": "@ + f.detail
}

impl Transport {
    /// The name of this transport in messages.
    pub fn describe(&self) -> (r: String)
        ensures
            r@ == transport_text(*self),
    {
        match *self {
            Transport::RawNode { node } => String::from_str("raw device node ").concat(
                decimal(node).as_str(),
            ),
            Transport::ControlTransfer { interface } => String::from_str(
                "control transfer to interface ",
            ).concat(decimal(interface as usize).as_str()),
            Transport::InterruptTransfer { endpoint } => String::from_str(
                "interrupt transfer to endpoint ",
            ).concat(decimal(endpoint as usize).as_str()),
        }
    }
}

impl Step {
    /// The name of this step in messages.
    pub fn describe(&self) -> (r: String)
        ensures
            r@ == step_text(*self),
    {
        match *self {
            Step::Claim { interface } => String::from_str("claiming interface ").concat(
                decimal(interface as usize).as_str(),
            ),
            Step::Write { transport } => transport.describe(),
        }
    }
}

impl Cause {
    /// The description of this cause in messages.
    pub fn describe(&self) -> (r: String)
        ensures
            r@ == cause_text(*self),
    {
        match *self {
            Cause::DeviceNotFound => String::from_str("device not found"),
            Cause::AccessDenied => String::from_str("access denied"),
            Cause::TransportUnsupported => String::from_str("transport unsupported"),
            Cause::ShortWrite { transferred } => {
                let r = String::from_str("short write: Unexpected result ");
                let r = r.concat(decimal(transferred).as_str());
                let r = r.concat(" from writing brightness data, expected ");
                let r = r.concat(decimal(DATA_LENGTH).as_str());
                r.concat(".")
            },
            Cause::Other => String::from_str("failed"),
        }
    }
}

impl Failure {
    /// The part of a message that reports this failure.
    pub fn describe(&self) -> (r: String)
        ensures
            r@ == failure_text(self@),
    {
        let r = String::from_str(" [");
        let r = r.concat(self.step.describe().as_str());
        let r = r.concat("] ");
        let r = r.concat(self.cause.describe().as_str());
        let r = r.concat(": ");
        r.concat(self.detail.as_str())
    }
}

} // verus!
