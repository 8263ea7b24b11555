use vstd::prelude::*;
use vstd::string::*;
use crate::text::{contains, contains_spec};

verus! {

/// USB vendor identifier of the display.
pub const WS170120_VENDOR_ID: u16 = 0x0eef;

/// USB product identifier of the display.
pub const WS170120_PRODUCT_ID: u16 = 0x0005;

/// The identifiers that an attached USB device reports.
#[derive(Clone, Copy, Debug, PartialEq, Eq, Structural)]
pub struct DeviceIdentity {
    pub vendor_id: u16,
    pub product_id: u16,
}

impl DeviceIdentity {
    /// The identity of the display.
    pub open spec fn is_target_spec(self) -> bool {
        self.vendor_id == WS170120_VENDOR_ID && self.product_id == WS170120_PRODUCT_ID
    }

    /// Tells whether this is the identity of the display.
    pub fn is_target(&self) -> (r: bool)
        ensures
            r == self.is_target_spec(),
    {
        self.vendor_id == WS170120_VENDOR_ID && self.product_id == WS170120_PRODUCT_ID
    }
}

/// The message given when no attached device is the display.
pub open spec fn not_found_text() -> Seq<char> {
    "Waveshare monitor WS170120 is not connected."@
}

/// Picks the display among the attached devices, given in the order in which
/// the host enumerated them: the first that matches wins, and `None` means
/// that none matches.
pub fn locate(devices: &Vec<DeviceIdentity>) -> (r: Option<usize>)
    ensures
        match r {
            Some(i) => i < devices@.len() && devices@[i as int].is_target_spec() && forall|j: int|
                0 <= j < i ==> !(#[trigger] devices@[j]).is_target_spec(),
            None => forall|j: int| 0 <= j < devices@.len() ==> !(#[trigger] devices@[j]).is_target_spec(),
        },
{
    let mut i: usize = 0;
    while i < devices.len()
        invariant
            i <= devices@.len(),
            forall|j: int| 0 <= j < i ==> !(#[trigger] devices@[j]).is_target_spec(),
        decreases devices@.len() - i,
    {
        if devices[i].is_target() {
            return Some(i);
        }
        i = i + 1;
    }
    None
}

/// The identity record that a raw HID device node of the display carries in
/// its `uevent` file: USB bus, then vendor and product in upper-case hex.
pub open spec fn display_hid_id_text() -> Seq<char> {
    "HID_ID=0003:00000EEF:00000005"@
}

/// Tells whether the `uevent` text of a raw HID device node names the display.
pub fn uevent_names_display(uevent: &str) -> (r: bool)
    ensures
        r == contains_spec(uevent@, display_hid_id_text()),
{
    contains(uevent, "HID_ID=0003:00000EEF:00000005")
}

/// The message given when no attached device is the display.
pub fn not_found_message() -> (r: String)
    ensures
        r@ == not_found_text(),
{
    String::from_str("Waveshare monitor WS170120 is not connected.")
}

} // verus!
