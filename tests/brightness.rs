use ws_brightness::command::{command_buffer, BRIGHTNESS_ADDRESS, DATA_LENGTH};
use ws_brightness::device::{locate, not_found_message, uevent_names_display, DeviceIdentity};
use ws_brightness::run::{Action, Claim, Phase, Run};
use ws_brightness::text::{contains, decimal, describe_device_error, is_access_denied, translate_device_error};
use ws_brightness::transport::{
    check_transfer, device_error_cause, Attempt, Cause, Failure, Step, Transport,
};

fn display() -> DeviceIdentity {
    DeviceIdentity { vendor_id: 0x0eef, product_id: 0x0005 }
}

fn other() -> DeviceIdentity {
    DeviceIdentity { vendor_id: 0x1234, product_id: 0x0005 }
}

fn located_run() -> Run {
    let mut devices = Vec::new();
    devices.push(display());
    let run = Run::start(&devices);
    assert_eq!(run.phase(), Phase::Located { device: 0 });
    run
}

#[test]
fn command_layout_for_every_brightness() {
    for b in 0u8..=100 {
        let buf = command_buffer(b);
        assert_eq!(buf.len(), 38);
        assert_eq!(&buf[0..4], &[0x04, 0xaa, 0x01, 0x00]);
        assert_eq!(buf[6], b);
        for (i, byte) in buf.iter().enumerate() {
            if i >= 4 && i != 6 {
                assert_eq!(*byte, 0);
            }
        }
    }
    assert_eq!(DATA_LENGTH, 38);
    assert_eq!(BRIGHTNESS_ADDRESS, 6);
}

#[test]
fn command_exact_bytes_at_full_brightness() {
    let mut expected = vec![0u8; 38];
    expected[0] = 0x04;
    expected[1] = 0xaa;
    expected[2] = 0x01;
    expected[6] = 100;
    assert_eq!(command_buffer(100), expected);
}

#[test]
fn command_is_the_same_when_built_twice() {
    assert_eq!(command_buffer(42), command_buffer(42));
    assert_eq!(command_buffer(0), command_buffer(0));
    assert_ne!(command_buffer(42), command_buffer(43));
}

#[test]
fn locate_picks_first_display() {
    let devices = vec![other(), display(), display()];
    assert_eq!(locate(&devices), Some(1));
}

#[test]
fn locate_finds_nothing() {
    assert_eq!(locate(&Vec::new()), None);
    let devices = vec![other(), DeviceIdentity { vendor_id: 0x0eef, product_id: 0x0006 }];
    assert_eq!(locate(&devices), None);
}

#[test]
fn missing_device_attempts_nothing() {
    let devices = vec![other()];
    let run = Run::start(&devices);
    assert_eq!(run.phase(), Phase::DeviceMissing);
    assert_eq!(run.next_action(), Action::Finish);
    assert_eq!(run.exit_code(), 1);
    assert_eq!(
        run.error_message(),
        Some("Waveshare monitor WS170120 is not connected.".to_string())
    );
    assert_eq!(not_found_message(), "Waveshare monitor WS170120 is not connected.");
}

#[test]
fn raw_node_success_uses_only_the_node() {
    let mut run = located_run();
    run.select(1);
    assert_eq!(run.next_action(), Action::Write { transport: Transport::RawNode { node: 0 } });
    run.record(Attempt::Transferred { length: 38 });
    assert_eq!(run.phase(), Phase::Succeeded { transport: Transport::RawNode { node: 0 } });
    assert_eq!(run.next_action(), Action::Finish);
    assert_eq!(run.exit_code(), 0);
    assert_eq!(run.error_message(), None);
}

#[test]
fn control_transfer_success_without_raw_node() {
    let mut run = located_run();
    run.select(0);
    assert_eq!(run.next_action(), Action::Claim { interface: 0 });
    run.claim_result(Claim::Granted);
    assert_eq!(
        run.next_action(),
        Action::Write { transport: Transport::ControlTransfer { interface: 0 } }
    );
    run.record(Attempt::Transferred { length: 38 });
    assert_eq!(
        run.phase(),
        Phase::Succeeded { transport: Transport::ControlTransfer { interface: 0 } }
    );
    assert_eq!(run.next_action(), Action::Finish);
    assert_eq!(run.exit_code(), 0);
}

#[test]
fn falls_back_from_raw_node_to_usb() {
    let mut run = located_run();
    run.select(1);
    run.record(Attempt::Failed { cause: Cause::AccessDenied, detail: "permission denied".to_string() });
    assert_eq!(run.next_action(), Action::Claim { interface: 0 });
    run.claim_result(Claim::Granted);
    assert_eq!(
        run.next_action(),
        Action::Write { transport: Transport::ControlTransfer { interface: 0 } }
    );
    run.record(Attempt::Failed { cause: Cause::Other, detail: "stall".to_string() });
    assert_eq!(
        run.next_action(),
        Action::Write { transport: Transport::InterruptTransfer { endpoint: 1 } }
    );
    run.record(Attempt::Transferred { length: 38 });
    assert_eq!(
        run.phase(),
        Phase::Succeeded { transport: Transport::InterruptTransfer { endpoint: 1 } }
    );
    assert_eq!(run.exit_code(), 0);
}

#[test]
fn every_transport_failing_reports_each_cause() {
    let mut run = located_run();
    run.select(1);
    run.record(Attempt::Failed { cause: Cause::DeviceNotFound, detail: "gone".to_string() });
    run.claim_result(Claim::Granted);
    run.record(Attempt::Failed { cause: Cause::Other, detail: "stall".to_string() });
    run.record(Attempt::Transferred { length: 10 });
    assert_eq!(run.phase(), Phase::Exhausted);
    assert_eq!(run.next_action(), Action::Finish);
    assert_eq!(run.exit_code(), 1);
    let message = run.error_message().unwrap();
    assert_eq!(
        message,
        "Failed to write brightness data through every transport: \
         [raw device node 0] device not found: gone \
         [control transfer to interface 0] failed: stall \
         [interrupt transfer to endpoint 1] short write: Unexpected result 10 from writing brightness data, expected 38.: "
    );
    assert!(message.contains("device not found"));
    assert!(message.contains("failed: stall"));
    assert!(message.contains("short write"));
}

#[test]
fn refused_claim_drops_usb_transports() {
    let mut run = located_run();
    run.select(0);
    run.claim_result(Claim::Refused { cause: Cause::AccessDenied, detail: "busy".to_string() });
    assert_eq!(run.phase(), Phase::Exhausted);
    assert_eq!(run.next_action(), Action::Finish);
    assert_eq!(run.exit_code(), 1);
    assert_eq!(
        run.error_message().unwrap(),
        "Failed to write brightness data through every transport: [claiming interface 0] access denied: busy"
    );

    let mut run = located_run();
    run.select(2);
    assert_eq!(run.next_action(), Action::Write { transport: Transport::RawNode { node: 0 } });
    run.record(Attempt::Failed { cause: Cause::Other, detail: "a".to_string() });
    assert_eq!(run.next_action(), Action::Write { transport: Transport::RawNode { node: 1 } });
    run.record(Attempt::Failed { cause: Cause::Other, detail: "b".to_string() });
    assert_eq!(run.next_action(), Action::Claim { interface: 0 });
    run.claim_result(Claim::Refused { cause: Cause::TransportUnsupported, detail: "x".to_string() });
    assert_eq!(run.phase(), Phase::Exhausted);
    assert_eq!(
        run.error_message().unwrap(),
        "Failed to write brightness data through every transport: \
         [raw device node 0] failed: a \
         [raw device node 1] failed: b \
         [claiming interface 0] transport unsupported: x"
    );
}

#[test]
fn short_write_is_failure() {
    assert_eq!(check_transfer(10), Err(Cause::ShortWrite { transferred: 10 }));
    assert_eq!(check_transfer(0), Err(Cause::ShortWrite { transferred: 0 }));
    assert_eq!(check_transfer(39), Err(Cause::ShortWrite { transferred: 39 }));
    assert_eq!(check_transfer(38), Ok(()));

    let mut run = located_run();
    run.select(0);
    run.claim_result(Claim::Granted);
    run.record(Attempt::Transferred { length: 10 });
    assert_eq!(run.phase(), Phase::Attempting);
    assert_eq!(
        run.next_action(),
        Action::Write { transport: Transport::InterruptTransfer { endpoint: 1 } }
    );
}

#[test]
fn translate_access_denied() {
    let text = translate_device_error("opening device failed", "Access Denied (os error 13)", "Os { code: 13 }");
    assert_eq!(
        text,
        "opening device failed: Device access denied. Try running with elevated privileges (sudo). Error message was Os { code: 13 }"
    );
    let text = translate_device_error("claim", "Device or resource busy: EXCLUSIVE ACCESS", "D");
    assert!(text.starts_with("claim: Device access denied."));
    let text = translate_device_error("t", "Permission Denied", "P");
    assert!(text.ends_with("Error message was P"));
}

#[test]
fn translate_other_error() {
    let text = translate_device_error("opening device failed", "No such device", "NoDevice");
    assert_eq!(text, "opening device failed: Failed to open device: No such device");
}

#[test]
fn describe_device_error_uses_lowered_text() {
    assert_eq!(
        describe_device_error("t", "access denied", "ACCESS DENIED", "d"),
        "t: Device access denied. Try running with elevated privileges (sudo). Error message was d"
    );
    assert_eq!(
        describe_device_error("t", "ACCESS DENIED", "ACCESS DENIED", "d"),
        "t: Failed to open device: ACCESS DENIED"
    );
}

#[test]
fn classify_device_errors() {
    assert!(is_access_denied("permission denied (os error 13)"));
    assert!(!is_access_denied("Permission denied"));
    assert_eq!(device_error_cause("exclusive access"), Cause::AccessDenied);
    assert_eq!(device_error_cause("timed out"), Cause::Other);
}

#[test]
fn substring_search() {
    assert!(contains("abc", ""));
    assert!(contains("abc", "abc"));
    assert!(contains("xabcx", "bc"));
    assert!(!contains("ab", "abc"));
    assert!(!contains("", "a"));
    assert!(contains("héllo", "él"));
}

#[test]
fn decimal_digits() {
    assert_eq!(decimal(0), "0");
    assert_eq!(decimal(7), "7");
    assert_eq!(decimal(38), "38");
    assert_eq!(decimal(1005), "1005");
    assert_eq!(decimal(usize::MAX), usize::MAX.to_string());
}

#[test]
fn step_and_failure_text() {
    assert_eq!(Step::Claim { interface: 0 }.describe(), "claiming interface 0");
    assert_eq!(Transport::RawNode { node: 12 }.describe(), "raw device node 12");
    assert_eq!(Cause::TransportUnsupported.describe(), "transport unsupported");
    let f = Failure {
        step: Step::Write { transport: Transport::InterruptTransfer { endpoint: 1 } },
        cause: Cause::AccessDenied,
        detail: "no".to_string(),
    };
    assert_eq!(f.describe(), " [interrupt transfer to endpoint 1] access denied: no");
}

#[test]
fn uevent_identity() {
    let uevent = "DRIVER=hid-generic\nHID_ID=0003:00000EEF:00000005\nHID_NAME=WaveShare WS170120\n";
    assert!(uevent_names_display(uevent));
    assert!(!uevent_names_display("HID_ID=0003:0000046D:0000C52B\n"));
    assert!(!uevent_names_display(""));
}
