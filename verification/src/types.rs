use vstd::prelude::*;

verus! {

/// The power adapter, as reported by the system.
#[derive(Debug, Clone)]
pub struct AdapterInfo {
    pub connected: bool,
    pub watts: u32,
    pub voltage_mv: u32,
    pub current_ma: u32,
    pub is_wireless: bool,
}

impl Default for AdapterInfo {
    /// No adapter: disconnected, wired, every reading zero.
    fn default() -> (r: Self)
        ensures
            !r.connected,
            r.watts == 0,
            r.voltage_mv == 0,
            r.current_ma == 0,
            !r.is_wireless,
    {
        AdapterInfo { connected: false, watts: 0, voltage_mv: 0, current_ma: 0, is_wireless: false }
    }
}

/// Static class of a display panel, derived from peak luminance.
/// Set once at startup; doesn't change at runtime.
#[derive(Debug, Clone, Copy, PartialEq, Eq, Structural)]
pub enum PanelClass {
    /// No HDR pipeline; at most 500 nits typical (Air, base 13" MBP, most external panels).
    Sdr,
    /// HDR-capable but not Apple flagship XDR; 501 to 999 nits typical.
    Hdr,
    /// Apple XDR mini-LED panel; 1000 nits peak or more (14"/16" MBP Pro/Max, Pro Display XDR).
    Xdr,
}

impl Default for PanelClass {
    /// A panel is taken to be SDR until it is known to be more.
    fn default() -> (r: Self)
        ensures
            r == PanelClass::Sdr,
    {
        PanelClass::Sdr
    }
}

/// A wired network interface.
#[derive(Debug, Clone)]
pub struct EthernetInfo {
    pub connected: bool,
    pub interface_name: String,
    pub link_speed_mbps: u32,
}

impl Default for EthernetInfo {
    /// No interface: disconnected, no name, no link speed.
    fn default() -> (r: Self)
        ensures
            !r.connected,
            r.interface_name@ == Seq::<char>::empty(),
            r.link_speed_mbps == 0,
    {
        EthernetInfo { connected: false, interface_name: String::new(), link_speed_mbps: 0 }
    }
}

/// A device on the USB bus.
#[derive(Debug, Clone)]
pub struct UsbDevice {
    pub name: String,
    pub vendor_id: u32,
    pub product_id: u32,
    pub power_ma: Option<u32>,
    pub speed: u32,
    pub location_id: u32,
    pub parent_location_id: u32,
    pub bytes_read: u64,
    pub bytes_written: u64,
}

impl Default for UsbDevice {
    /// An unnamed device with no power reading and every counter zero.
    fn default() -> (r: Self)
        ensures
            r.name@ == Seq::<char>::empty(),
            r.vendor_id == 0,
            r.product_id == 0,
            r.power_ma == Option::<u32>::None,
            r.speed == 0,
            r.location_id == 0,
            r.parent_location_id == 0,
            r.bytes_read == 0,
            r.bytes_written == 0,
    {
        UsbDevice {
            name: String::new(),
            vendor_id: 0,
            product_id: 0,
            power_ma: None,
            speed: 0,
            location_id: 0,
            parent_location_id: 0,
            bytes_read: 0,
            bytes_written: 0,
        }
    }
}

/// A paired Bluetooth device.
#[derive(Debug, Clone)]
pub struct BluetoothDevice {
    pub name: String,
    pub minor_type: String,
    pub connected: bool,
    /// Battery levels by part, e.g. ("Left", "93%"), ("Right", "100%"), ("Case", "7%").
    pub batteries: Vec<(String, String)>,
}

impl Default for BluetoothDevice {
    /// An unnamed, disconnected device with no battery readings.
    fn default() -> (r: Self)
        ensures
            r.name@ == Seq::<char>::empty(),
            r.minor_type@ == Seq::<char>::empty(),
            !r.connected,
            r.batteries@.len() == 0,
    {
        BluetoothDevice {
            name: String::new(),
            minor_type: String::new(),
            connected: false,
            batteries: Vec::new(),
        }
    }
}

/// A power assertion held by a process (one that keeps the system or display awake).
#[derive(Debug, Clone)]
pub struct PowerAssertion {
    pub name: String,
    pub assertion_type: String,
    pub pid: i64,
}

impl Default for PowerAssertion {
    /// An unnamed assertion of no type, held by pid 0.
    fn default() -> (r: Self)
        ensures
            r.name@ == Seq::<char>::empty(),
            r.assertion_type@ == Seq::<char>::empty(),
            r.pid == 0,
    {
        PowerAssertion { name: String::new(), assertion_type: String::new(), pid: 0 }
    }
}

} // verus!
