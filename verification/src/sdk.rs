//! Process-level records: the SDK version, device discovery and Action Command results.

use vstd::prelude::*;
use crate::strings::{decimal, push_decimal, spec_text, text};
use crate::sys::{HikActionResult, HikDeviceInfo};

verus! {

/// Four-component version number reported by the MVS runtime.
#[derive(Debug, Clone, Copy, PartialEq, Eq, Structural)]
pub struct SdkVersion {
    /// Major version component.
    pub major: u8,
    /// Minor version component.
    pub minor: u8,
    /// Patch version component.
    pub patch: u8,
    /// Build or revision component.
    pub build: u8,
    /// The packed 32-bit value as the SDK reported it.
    pub raw: u32,
}

/// The version that a packed 32-bit value denotes: one byte per component, major first.
pub open spec fn spec_version(raw: u32) -> SdkVersion {
    SdkVersion {
        major: (raw / 0x100_0000) as u8,
        minor: ((raw / 0x1_0000) % 0x100) as u8,
        patch: ((raw / 0x100) % 0x100) as u8,
        build: (raw % 0x100) as u8,
        raw,
    }
}

/// The dotted text of a version, `major.minor.patch.build` in decimal.
pub open spec fn version_text(v: SdkVersion) -> Seq<char> {
    decimal(v.major as nat) + "."@ + decimal(v.minor as nat) + "."@ + decimal(v.patch as nat)
        + "."@ + decimal(v.build as nat)
}

impl SdkVersion {
    /// Splits a packed MVS version value into its four byte components.
    pub fn from_raw(raw: u32) -> (v: SdkVersion)
        ensures
            v == spec_version(raw),
    {
        let major = (raw >> 24u32) as u8;
        let minor = (raw >> 16u32) as u8;
        let patch = (raw >> 8u32) as u8;
        let build = raw as u8;
        assert(major == (raw / 0x100_0000) as u8 && minor == ((raw / 0x1_0000) % 0x100) as u8
            && patch == ((raw / 0x100) % 0x100) as u8 && build == (raw % 0x100) as u8)
            by (bit_vector)
            requires
                major == (raw >> 24u32) as u8,
                minor == (raw >> 16u32) as u8,
                patch == (raw >> 8u32) as u8,
                build == raw as u8,
        ;
        SdkVersion { major, minor, patch, build, raw }
    }

    /// Renders the version as `major.minor.patch.build`, for example `4.4.1.3`.
    pub fn to_string(&self) -> (s: String)
        ensures
            s@ == version_text(*self),
    {
        let mut s = String::new();
        push_decimal(&mut s, self.major as u32);
        s.append(".");
        push_decimal(&mut s, self.minor as u32);
        s.append(".");
        push_decimal(&mut s, self.patch as u32);
        s.append(".");
        push_decimal(&mut s, self.build as u32);
        assert(s@ =~= version_text(*self));
        s
    }
}

/// Decoding a packed version loses nothing: its components put back together give the
/// packed value again, most significant byte first.
pub proof fn lemma_version_components_repack(raw: u32)
    ensures
        spec_version(raw).raw == raw,
        raw as int == spec_version(raw).major as int * 0x100_0000 + spec_version(raw).minor
            as int * 0x1_0000 + spec_version(raw).patch as int * 0x100
            + spec_version(raw).build as int,
{
    let v = spec_version(raw);
    assert(raw as int == (raw / 0x100_0000) as u8 as int * 0x100_0000 + ((raw / 0x1_0000)
        % 0x100) as u8 as int * 0x1_0000 + ((raw / 0x100) % 0x100) as u8 as int * 0x100 + (raw
        % 0x100) as u8 as int) by (bit_vector);
}

/// Physical transport of an enumerated camera.
#[derive(Debug, Clone, Copy, PartialEq, Eq, Structural)]
pub enum Transport {
    /// GigE Vision camera.
    GigE,
    /// USB3 Vision camera.
    Usb3,
    /// Transport not represented by this library.
    Unknown,
}

/// The transport that a native transport code denotes.
pub open spec fn spec_transport(code: u32) -> Transport {
    if code == 1 {
        Transport::GigE
    } else if code == 2 {
        Transport::Usb3
    } else {
        Transport::Unknown
    }
}

impl Transport {
    /// Decodes the native transport code: `1` is GigE, `2` is USB3, anything else unknown.
    pub fn from_raw(code: u32) -> (t: Transport)
        ensures
            t == spec_transport(code),
    {
        match code {
            1 => Transport::GigE,
            2 => Transport::Usb3,
            _ => Transport::Unknown,
        }
    }
}

/// An IPv4 address as its four octets, in network order.
#[derive(Debug, Clone, Copy, PartialEq, Eq)]
pub struct Ipv4Address {
    /// The four octets, the first being the most significant.
    pub octets: [u8; 4],
}

/// The octets of a 32-bit address value, most significant first.
pub open spec fn address_octets(bits: u32) -> Seq<u8> {
    seq![(bits / 0x100_0000) as u8, ((bits / 0x1_0000) % 0x100) as u8, ((bits / 0x100) % 0x100) as u8,
        (bits % 0x100) as u8]
}

/// The 32-bit value of four octets, the first being the most significant.
pub open spec fn address_bits(octets: Seq<u8>) -> int {
    octets[0] as int * 0x100_0000 + octets[1] as int * 0x1_0000 + octets[2] as int * 0x100
        + octets[3] as int
}

impl Ipv4Address {
    /// The address whose 32-bit value is `bits`, most significant octet first.
    pub fn from_bits(bits: u32) -> (a: Ipv4Address)
        ensures
            a.octets@ == address_octets(bits),
    {
        let o0 = (bits >> 24u32) as u8;
        let o1 = (bits >> 16u32) as u8;
        let o2 = (bits >> 8u32) as u8;
        let o3 = bits as u8;
        assert(o0 == (bits / 0x100_0000) as u8 && o1 == ((bits / 0x1_0000) % 0x100) as u8 && o2
            == ((bits / 0x100) % 0x100) as u8 && o3 == (bits % 0x100) as u8) by (bit_vector)
            requires
                o0 == (bits >> 24u32) as u8,
                o1 == (bits >> 16u32) as u8,
                o2 == (bits >> 8u32) as u8,
                o3 == bits as u8,
        ;
        let a = Ipv4Address { octets: [o0, o1, o2, o3] };
        assert(a.octets@ =~= address_octets(bits));
        a
    }

    /// The 32-bit value of the address, most significant octet first.
    pub fn to_bits(&self) -> (bits: u32)
        ensures
            bits as int == address_bits(self.octets@),
    {
        let o0 = self.octets[0];
        let o1 = self.octets[1];
        let o2 = self.octets[2];
        let o3 = self.octets[3];
        let bits = ((o0 as u32) << 24u32) | ((o1 as u32) << 16u32) | ((o2 as u32) << 8u32) | (o3 as u32);
        assert(bits as int == o0 as int * 0x100_0000 + o1 as int * 0x1_0000 + o2 as int * 0x100
            + o3 as int) by (bit_vector)
            requires
                bits == ((o0 as u32) << 24u32) | ((o1 as u32) << 16u32) | ((o2 as u32) << 8u32) | (o3 as u32),
        ;
        bits
    }
}

/// Converting a 32-bit value to an address and back gives the value again, and converting
/// four octets to a value and back gives the octets again.
pub proof fn lemma_address_round_trip(bits: u32, octets: Seq<u8>)
    requires
        octets.len() == 4,
    ensures
        address_bits(address_octets(bits)) == bits as int,
        0 <= address_bits(octets) <= u32::MAX,
        address_octets(address_bits(octets) as u32) =~= octets,
{
    let o = address_octets(bits);
    assert(((bits / 0x100_0000) as u8) as int * 0x100_0000 + (((bits / 0x1_0000) % 0x100) as u8)
        as int * 0x1_0000 + (((bits / 0x100) % 0x100) as u8) as int * 0x100 + ((bits % 0x100)
        as u8) as int == bits as int) by (bit_vector);
    let a = octets[0];
    let b = octets[1];
    let c = octets[2];
    let d = octets[3];
    assert(0 <= a as int * 0x100_0000 + b as int * 0x1_0000 + c as int * 0x100 + d as int
        <= u32::MAX) by (nonlinear_arith);
    let v = (a as int * 0x100_0000 + b as int * 0x1_0000 + c as int * 0x100 + d as int) as u32;
    assert(v == (a as u32) * 0x100_0000 + (b as u32) * 0x1_0000 + (c as u32) * 0x100 + (d as u32))
        by (nonlinear_arith)
        requires
            v as int == a as int * 0x100_0000 + b as int * 0x1_0000 + c as int * 0x100 + d as int,
    ;
    assert((v / 0x100_0000) as u8 == a && ((v / 0x1_0000) % 0x100) as u8 == b && ((v / 0x100)
        % 0x100) as u8 == c && (v % 0x100) as u8 == d) by (bit_vector)
        requires
            v == (a as u32) * 0x100_0000 + (b as u32) * 0x1_0000 + (c as u32) * 0x100 + (d as u32),
    ;
}

/// Owned camera description produced by device enumeration.
#[derive(Debug, Clone)]
pub struct DeviceInfo {
    /// Physical transport used by the device.
    pub transport: Transport,
    /// Current IPv4 address for GigE cameras; `None` for transports without an address.
    pub ip: Option<Ipv4Address>,
    /// Manufacturer model name.
    pub model: String,
    /// Stable manufacturer serial number, used to open the camera.
    pub serial: String,
    /// User-defined device name stored in the camera.
    pub user_name: String,
}

/// `info` is the decoding of the native record `raw`.
pub open spec fn device_decodes(info: DeviceInfo, raw: HikDeviceInfo) -> bool {
    &&& info.transport == spec_transport(raw.transport)
    &&& (raw.ip == 0 ==> info.ip is None)
    &&& (raw.ip != 0 ==> (info.ip matches Some(a) && a.octets@ == address_octets(raw.ip)))
    &&& info.model@ == spec_text(raw.model@)
    &&& info.serial@ == spec_text(raw.serial@)
    &&& info.user_name@ == spec_text(raw.user_name@)
}

impl DeviceInfo {
    /// Decodes one native device record: transport code, address (`0` meaning none) and
    /// the three NUL-terminated texts.
    pub fn from_raw(raw: &HikDeviceInfo) -> (info: DeviceInfo)
        ensures
            device_decodes(info, *raw),
    {
        let ip = if raw.ip != 0 {
            Some(Ipv4Address::from_bits(raw.ip))
        } else {
            None
        };
        DeviceInfo {
            transport: Transport::from_raw(raw.transport),
            ip,
            model: text(raw.model.as_slice()),
            serial: text(raw.serial.as_slice()),
            user_name: text(raw.user_name.as_slice()),
        }
    }
}

/// The number of records of a two-pass native query that hold data: the count the native
/// layer reported, but never more than the buffer that was offered.
pub open spec fn filled(count: usize, capacity: nat) -> nat {
    if count < capacity {
        count as nat
    } else {
        capacity
    }
}

/// Every record the native layer reported is kept as long as the buffer holds it: the
/// number of filled records is the reported count when it fits, and the buffer length
/// otherwise; it never exceeds either.
pub proof fn lemma_filled_is_min(count: usize, capacity: nat)
    ensures
        count <= capacity ==> filled(count, capacity) == count,
        count >= capacity ==> filled(count, capacity) == capacity,
        filled(count, capacity) <= count,
        filled(count, capacity) <= capacity,
{
}

/// Decodes the records filled by a device enumeration.
///
/// Only the first `count` records are used (or all of them if the native layer reported
/// more than the buffer holds); each is decoded by [`DeviceInfo::from_raw`], in order.
pub fn decode_devices(raw: &Vec<HikDeviceInfo>, count: usize) -> (devices: Vec<DeviceInfo>)
    ensures
        devices.len() == filled(count, raw.len() as nat),
        count <= raw.len() ==> devices.len() == count,
        count >= raw.len() ==> devices.len() == raw.len(),
        forall|i: int| 0 <= i < devices.len() ==> device_decodes(#[trigger] devices[i], raw[i]),
{
    let n = if count < raw.len() {
        count
    } else {
        raw.len()
    };
    let mut devices: Vec<DeviceInfo> = Vec::new();
    let mut i: usize = 0;
    while i < n
        invariant
            n <= raw.len(),
            n == filled(count, raw.len() as nat),
            i <= n,
            devices.len() == i,
            forall|k: int| 0 <= k < i ==> device_decodes(#[trigger] devices[k], raw[k]),
        decreases n - i,
    {
        devices.push(DeviceInfo::from_raw(&raw[i]));
        i = i + 1;
    }
    devices
}

/// Acknowledgement returned by one device after an Action Command broadcast.
#[derive(Debug, Clone)]
pub struct ActionResult {
    /// Device IPv4 address as formatted by the MVS SDK.
    pub device_address: String,
    /// GigE Vision acknowledgement status; zero indicates success.
    pub status: i32,
}

/// `result` is the decoding of the native acknowledgement `raw`.
pub open spec fn action_result_decodes(result: ActionResult, raw: HikActionResult) -> bool {
    &&& result.device_address@ == spec_text(raw.device_address@)
    &&& result.status == raw.status
}

impl ActionResult {
    /// Decodes one native acknowledgement record.
    pub fn from_raw(raw: &HikActionResult) -> (result: ActionResult)
        ensures
            action_result_decodes(result, *raw),
    {
        ActionResult { device_address: text(raw.device_address.as_slice()), status: raw.status }
    }
}

/// Decodes the acknowledgements filled by an Action Command broadcast.
///
/// Only the first `count` records are used (or all of them if the native layer reported
/// more than the buffer holds); each is decoded by [`ActionResult::from_raw`], in order.
pub fn decode_action_results(raw: &Vec<HikActionResult>, count: usize) -> (results: Vec<
    ActionResult,
>)
    ensures
        results.len() == filled(count, raw.len() as nat),
        count <= raw.len() ==> results.len() == count,
        count >= raw.len() ==> results.len() == raw.len(),
        forall|i: int|
            0 <= i < results.len() ==> action_result_decodes(#[trigger] results[i], raw[i]),
{
    let n = if count < raw.len() {
        count
    } else {
        raw.len()
    };
    let mut results: Vec<ActionResult> = Vec::new();
    let mut i: usize = 0;
    while i < n
        invariant
            n <= raw.len(),
            n == filled(count, raw.len() as nat),
            i <= n,
            results.len() == i,
            forall|k: int| 0 <= k < i ==> action_result_decodes(#[trigger] results[k], raw[k]),
        decreases n - i,
    {
        results.push(ActionResult::from_raw(&raw[i]));
        i = i + 1;
    }
    results
}

} // verus!
