use macpow::cli::{select_mode, RunMode};
use macpow::smc_dump::smc_dump_line;
use macpow::types::{
    AdapterInfo, BluetoothDevice, EthernetInfo, PanelClass, PowerAssertion, UsbDevice,
};

#[test]
fn adapter_default_is_disconnected_and_zero() {
    let a = AdapterInfo::default();
    assert!(!a.connected);
    assert_eq!(a.watts, 0);
    assert_eq!(a.voltage_mv, 0);
    assert_eq!(a.current_ma, 0);
    assert!(!a.is_wireless);
}

#[test]
fn panel_class_default_is_sdr() {
    assert_eq!(PanelClass::default(), PanelClass::Sdr);
    assert_ne!(PanelClass::default(), PanelClass::Hdr);
    assert_ne!(PanelClass::Hdr, PanelClass::Xdr);
    let c = PanelClass::Xdr;
    let d = c;
    assert_eq!(c, d);
}

#[test]
fn ethernet_default_is_empty() {
    let e = EthernetInfo::default();
    assert!(!e.connected);
    assert_eq!(e.interface_name, "");
    assert_eq!(e.link_speed_mbps, 0);
}

#[test]
fn usb_device_default_is_empty() {
    let u = UsbDevice::default();
    assert_eq!(u.name, "");
    assert_eq!(u.vendor_id, 0);
    assert_eq!(u.product_id, 0);
    assert_eq!(u.power_ma, None);
    assert_eq!(u.speed, 0);
    assert_eq!(u.location_id, 0);
    assert_eq!(u.parent_location_id, 0);
    assert_eq!(u.bytes_read, 0);
    assert_eq!(u.bytes_written, 0);
}

#[test]
fn bluetooth_device_default_is_empty() {
    let b = BluetoothDevice::default();
    assert_eq!(b.name, "");
    assert_eq!(b.minor_type, "");
    assert!(!b.connected);
    assert!(b.batteries.is_empty());
}

#[test]
fn bluetooth_device_holds_battery_parts() {
    let mut b = BluetoothDevice::default();
    b.name = "AirPods".to_string();
    b.batteries.push(("Left".to_string(), "93%".to_string()));
    b.batteries.push(("Right".to_string(), "100%".to_string()));
    b.batteries.push(("Case".to_string(), "7%".to_string()));
    let c = b.clone();
    assert_eq!(c.batteries.len(), 3);
    assert_eq!(c.batteries[2].1, "7%");
}

#[test]
fn power_assertion_default_is_empty() {
    let p = PowerAssertion::default();
    assert_eq!(p.name, "");
    assert_eq!(p.assertion_type, "");
    assert_eq!(p.pid, 0);
}

#[test]
fn select_mode_dump_wins_over_everything() {
    for dump_smc in [false, true] {
        for json in [false, true] {
            assert_eq!(select_mode(true, dump_smc, json), RunMode::DumpChannels);
        }
    }
}

#[test]
fn select_mode_dump_smc_wins_over_json() {
    assert_eq!(select_mode(false, true, false), RunMode::DumpSmc);
    assert_eq!(select_mode(false, true, true), RunMode::DumpSmc);
}

#[test]
fn select_mode_json_and_tui() {
    assert_eq!(select_mode(false, false, true), RunMode::Json);
    assert_eq!(select_mode(false, false, false), RunMode::Tui);
}

#[test]
fn smc_dump_line_with_decoded_value() {
    assert_eq!(
        smc_dump_line("TC0P", "flt ", "41.50", "00 00 26 42"),
        "  TC0P  [flt ]  41.50 (bytes 00 00 26 42)"
    );
}

#[test]
fn smc_dump_line_without_decoded_value() {
    assert_eq!(
        smc_dump_line("#KEY", "ui32", "", "00 00 04 a1"),
        "  #KEY  [ui32]  (bytes 00 00 04 a1)"
    );
}

#[test]
fn smc_dump_line_pads_short_types() {
    assert_eq!(smc_dump_line("F0Ac", "fp", "1200", "4b 00"), "  F0Ac  [fp  ]  1200 (bytes 4b 00)");
    assert_eq!(smc_dump_line("K", "", "", ""), "  K  [    ]  (bytes )");
}

#[test]
fn smc_dump_line_keeps_long_types_whole() {
    assert_eq!(smc_dump_line("ABCD", "{hdi", "x", "01"), "  ABCD  [{hdi]  x (bytes 01)");
    assert_eq!(smc_dump_line("ABCD", "longer", "", "01"), "  ABCD  [longer]  (bytes 01)");
}

#[test]
fn smc_dump_line_matches_the_formatter() {
    let cases = [
        ("TB0T", "sp78", "30.25", "1e 40"),
        ("PSTR", "flt", "", "00 00 80 3f"),
        ("ÄKEY", "ä", "wert", "ff"),
        ("RPlt", "ch8*", "J314s", "4a 33 31 34 73"),
    ];
    for (key, ty, dec, hex) in cases {
        let expected = if dec.is_empty() {
            format!("  {}  [{:<4}]  (bytes {})", key, ty, hex)
        } else {
            format!("  {}  [{:<4}]  {} (bytes {})", key, ty, dec, hex)
        };
        assert_eq!(smc_dump_line(key, ty, dec, hex), expected);
    }
}
