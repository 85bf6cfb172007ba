use vstd::prelude::*;
use vstd::string::StringExecFns;

use crate::numerals::dec_rep;
use crate::numerals::dec_string;
use crate::numerals::hex4_rep;
use crate::numerals::hex4_string;

verus! {

/// The vendor and product identity a USB-attached port exposes; the
/// descriptive strings are optional in the underlying descriptor.
pub struct UsbDetails {
    pub vendor_id: u16,
    pub product_id: u16,
    pub serial_number: Option<String>,
    pub manufacturer: Option<String>,
    pub product: Option<String>,
}

/// How an enumerated serial port is attached to the host.
pub enum ConnectionKind {
    Usb(UsbDetails),
    Bluetooth,
    Pci,
    Unknown,
}

/// One discoverable serial port: its name and its connection kind.
pub struct PortDescriptor {
    pub name: String,
    pub kind: ConnectionKind,
}

/// The human-readable count heading for an enumeration: pluralized, with
/// the exact count once there is more than one port.
pub open spec fn count_message_view(n: nat) -> Seq<char> {
    if n == 0 {
        "No ports found."@
    } else if n == 1 {
        "Found 1 serial port:"@
    } else {
        "Found "@ + dec_rep(n as int) + " serial ports:"@
    }
}

/// Render the count heading for an enumeration of `n` ports.
pub fn count_message(n: usize) -> (s: String)
    ensures
        s@ == count_message_view(n as nat),
{
    if n == 0 {
        String::from_str("No ports found.")
    } else if n == 1 {
        String::from_str("Found 1 serial port:")
    } else {
        String::from_str("Found ").concat(dec_string(n).as_str()).concat(" serial ports:")
    }
}

/// The text shown for an optional descriptor string: the string itself,
/// or nothing where the descriptor lacks it.
pub open spec fn opt_text_view(text: Option<String>) -> Seq<char> {
    match text {
        Some(s) => s@,
        None => Seq::empty(),
    }
}

/// The detail block printed for one enumerated port: its name, then a
/// type-specific description. A USB port exposes its vendor and product
/// identifiers and its optional descriptor strings; other kinds expose
/// only their kind.
pub open spec fn detail_lines_view(port: PortDescriptor) -> Seq<Seq<char>> {
    match port.kind {
        ConnectionKind::Usb(usb) => seq![
            "  "@ + port.name@,
            "    Type: USB"@,
            "    VID:"@ + hex4_rep(usb.vendor_id as int) + " PID:"@ + hex4_rep(
                usb.product_id as int,
            ),
            "     Serial Number: "@ + opt_text_view(usb.serial_number),
            "      Manufacturer: "@ + opt_text_view(usb.manufacturer),
            "           Product: "@ + opt_text_view(usb.product),
        ],
        ConnectionKind::Bluetooth => seq!["  "@ + port.name@, "    Type: Bluetooth"@],
        ConnectionKind::Pci => seq!["  "@ + port.name@, "    Type: PCI"@],
        ConnectionKind::Unknown => seq!["  "@ + port.name@, "    Type: Unknown"@],
    }
}

/// Render an optional descriptor string.
fn opt_text(text: &Option<String>) -> (s: String)
    ensures
        s@ == opt_text_view(*text),
{
    match text {
        Some(t) => t.clone(),
        None => String::new(),
    }
}

/// Render the detail block for one enumerated port, line by line.
pub fn detail_lines(port: &PortDescriptor) -> (lines: Vec<String>)
    ensures
        lines.deep_view() == detail_lines_view(*port),
{
    let mut lines: Vec<String> = Vec::new();
    lines.push(String::from_str("  ").concat(port.name.as_str()));
    match &port.kind {
        ConnectionKind::Usb(usb) => {
            lines.push(String::from_str("    Type: USB"));
            lines.push(
                String::from_str("    VID:").concat(hex4_string(usb.vendor_id).as_str()).concat(
                    " PID:",
                ).concat(hex4_string(usb.product_id).as_str()),
            );
            lines.push(
                String::from_str("     Serial Number: ").concat(
                    opt_text(&usb.serial_number).as_str(),
                ),
            );
            lines.push(
                String::from_str("      Manufacturer: ").concat(
                    opt_text(&usb.manufacturer).as_str(),
                ),
            );
            lines.push(
                String::from_str("           Product: ").concat(opt_text(&usb.product).as_str()),
            );
        },
        ConnectionKind::Bluetooth => {
            lines.push(String::from_str("    Type: Bluetooth"));
        },
        ConnectionKind::Pci => {
            lines.push(String::from_str("    Type: PCI"));
        },
        ConnectionKind::Unknown => {
            lines.push(String::from_str("    Type: Unknown"));
        },
    }
    proof {
        assert(lines.deep_view() =~~= detail_lines_view(*port));
    }
    lines
}

} // verus!
