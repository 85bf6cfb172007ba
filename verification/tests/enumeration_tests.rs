use at_terminal::choose_port;
use at_terminal::count_message;
use at_terminal::dec_string;
use at_terminal::detail_lines;
use at_terminal::hex4_string;
use at_terminal::ConnectionKind;
use at_terminal::ModemDescriptor;
use at_terminal::PortDescriptor;
use at_terminal::UsbDetails;

#[test]
fn no_ports_message() {
    assert_eq!(count_message(0), "No ports found.");
}

#[test]
fn one_port_message_is_singular() {
    assert_eq!(count_message(1), "Found 1 serial port:");
}

#[test]
fn many_ports_message_is_plural_with_exact_count() {
    assert_eq!(count_message(2), "Found 2 serial ports:");
    assert_eq!(count_message(17), "Found 17 serial ports:");
}

#[test]
fn decimal_rendering() {
    assert_eq!(dec_string(0), "0");
    assert_eq!(dec_string(7), "7");
    assert_eq!(dec_string(42), "42");
    assert_eq!(dec_string(115200), "115200");
}

#[test]
fn hex_rendering_is_four_lower_case_digits() {
    assert_eq!(hex4_string(0x2341), "2341");
    assert_eq!(hex4_string(0x001a), "001a");
    assert_eq!(hex4_string(0x0000), "0000");
    assert_eq!(hex4_string(0xffff), "ffff");
}

#[test]
fn usb_port_detail_block() {
    let port = PortDescriptor {
        name: String::from("/dev/ttyUSB0"),
        kind: ConnectionKind::Usb(UsbDetails {
            vendor_id: 0x2341,
            product_id: 0x001a,
            serial_number: Some(String::from("SN123")),
            manufacturer: Some(String::from("Acme")),
            product: None,
        }),
    };
    let lines = detail_lines(&port);
    assert_eq!(
        lines,
        vec![
            String::from("  /dev/ttyUSB0"),
            String::from("    Type: USB"),
            String::from("    VID:2341 PID:001a"),
            String::from("     Serial Number: SN123"),
            String::from("      Manufacturer: Acme"),
            String::from("           Product: "),
        ]
    );
}

#[test]
fn bluetooth_port_detail_block() {
    let port = PortDescriptor {
        name: String::from("COM5"),
        kind: ConnectionKind::Bluetooth,
    };
    let lines = detail_lines(&port);
    assert_eq!(lines, vec![String::from("  COM5"), String::from("    Type: Bluetooth")]);
}

#[test]
fn unknown_port_detail_block() {
    let port = PortDescriptor {
        name: String::from("COM9"),
        kind: ConnectionKind::Unknown,
    };
    let lines = detail_lines(&port);
    assert_eq!(lines, vec![String::from("  COM9"), String::from("    Type: Unknown")]);
}

#[test]
fn pci_port_detail_block() {
    let port = PortDescriptor {
        name: String::from("/dev/ttyS0"),
        kind: ConnectionKind::Pci,
    };
    let lines = detail_lines(&port);
    assert_eq!(lines, vec![String::from("  /dev/ttyS0"), String::from("    Type: PCI")]);
}

#[test]
fn no_modem_resolves_no_port() {
    let modems: Vec<ModemDescriptor> = Vec::new();
    assert!(choose_port(&modems).is_none());
}

#[test]
fn first_modem_wins() {
    let modems = vec![
        ModemDescriptor {
            name: String::from("Modem A"),
            status: String::from("OK"),
            attached_port: String::from("COM3"),
        },
        ModemDescriptor {
            name: String::from("Modem B"),
            status: String::from("OK"),
            attached_port: String::from("COM7"),
        },
    ];
    assert_eq!(choose_port(&modems), Some(String::from("COM3")));
}
