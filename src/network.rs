//! A minimal packet interface for network drivers, and how this
//! driver's procedures map onto it.
use vstd::prelude::*;
use crate::command::combine_u16;
use crate::device::{Enc28j60, Step};
use crate::transmit::Transmit;

verus! {

/// A minimal interface for a network driver, on which higher-level protocol
/// code sends and receives packets.
pub trait SimpleNetwork {
    /// Receives a packet into `buf`; returns the number of bytes written.
    fn receive(&mut self, buf: &mut [u8]) -> Result<usize, ReceiveError>;

    /// Sends a packet to `dst` from `src` with the given EtherType and data.
    fn transmit(
        &mut self,
        dst: &MacAddress,
        src: &MacAddress,
        ether_type: EtherType,
        data: &[u8],
    ) -> Result<(), TransmitError>;
}

/// An error that can occur when receiving a packet.
#[derive(Clone, Copy, Debug, PartialEq, Eq, Structural)]
pub enum ReceiveError {
    /// The buffer was too small for the packet; holds the size required.
    BufferTooSmall(usize),
    /// The device failed.
    DeviceError,
    /// The network interface is not initialized.
    NotInitialized,
    /// The operation timed out.
    Timeout,
}

/// An error that can occur when transmitting a packet.
#[derive(Clone, Copy, Debug, PartialEq, Eq, Structural)]
pub enum TransmitError {
    /// The network interface aborted the transmission.
    Aborted,
    /// The device failed.
    DeviceError,
    /// A parameter was invalid.
    InvalidParameter,
    /// The network interface is not initialized.
    NotInitialized,
    /// The transmission timed out.
    Timeout,
}

/// A MAC address, as six octets in transmission order.
#[derive(Clone, Copy, Debug, Default, PartialEq, Eq, PartialOrd, Ord, Hash)]
pub struct MacAddress(pub [u8; 6]);

impl MacAddress {
    /// The octets of the address.
    pub fn octets(self) -> (r: [u8; 6])
        ensures
            r == self.0,
    {
        self.0
    }
}

impl From<[u8; 6]> for MacAddress {
    fn from(octets: [u8; 6]) -> (r: Self)
        ensures
            r.0 == octets,
    {
        MacAddress(octets)
    }
}

impl vstd::std_specs::convert::FromSpecImpl<[u8; 6]> for MacAddress {
    open spec fn obeys_from_spec() -> bool {
        true
    }

    open spec fn from_spec(octets: [u8; 6]) -> Self {
        MacAddress(octets)
    }
}

impl From<MacAddress> for [u8; 6] {
    fn from(mac: MacAddress) -> (r: Self)
        ensures
            r == mac.0,
    {
        mac.0
    }
}

impl vstd::std_specs::convert::FromSpecImpl<MacAddress> for [u8; 6] {
    open spec fn obeys_from_spec() -> bool {
        true
    }

    open spec fn from_spec(mac: MacAddress) -> Self {
        mac.0
    }
}

impl AsRef<[u8; 6]> for MacAddress {
    fn as_ref(&self) -> (r: &[u8; 6])
        ensures
            *r == self.0,
    {
        &self.0
    }
}

impl AsMut<[u8; 6]> for MacAddress {
    fn as_mut(&mut self) -> (r: &mut [u8; 6])
        ensures
            *r == old(self).0,
            final(self).0 == *final(r),
    {
        &mut self.0
    }
}

/// The EtherType field of an Ethernet frame.
#[derive(Clone, Copy, Debug, Default, PartialEq, Eq, Structural, PartialOrd, Ord, Hash)]
pub struct EtherType(pub u16);

/// IEEE 802.3 length field.
pub const IEEE_802_3: u16 = 0x0000;

/// IPv4.
pub const IPV4: u16 = 0x0800;

/// ARP.
pub const ARP: u16 = 0x0806;

/// Wake-on-LAN.
pub const WAKE_ON_LAN: u16 = 0x0842;

/// VLAN-tagged frame (IEEE 802.1Q).
pub const VLAN: u16 = 0x8100;

/// IPv6.
pub const IPV6: u16 = 0x86dd;

/// The two octets of `v` in network byte order.
pub open spec fn be_bytes(v: u16) -> [u8; 2] {
    [(v / 256) as u8, (v % 256) as u8]
}

impl EtherType {
    /// An EtherType from its raw value.
    pub fn new(raw: u16) -> (r: Self)
        ensures
            r.0 == raw,
    {
        EtherType(raw)
    }

    /// The raw value.
    pub fn as_u16(self) -> (r: u16)
        ensures
            r == self.0,
    {
        self.0
    }

    /// An EtherType from two octets in network byte order.
    pub fn from_be_bytes(bytes: [u8; 2]) -> (r: Self)
        ensures
            r.0 == bytes[0] * 256 + bytes[1],
    {
        EtherType(combine_u16(bytes[1], bytes[0]))
    }

    /// The two octets in network byte order.
    pub fn to_be_bytes(self) -> (r: [u8; 2])
        ensures
            r == be_bytes(self.0),
            r[0] * 256 + r[1] == self.0,
    {
        let r = [crate::command::high_byte(self.0), crate::command::low_byte(self.0)];
        assert(r =~= be_bytes(self.0));
        r
    }
}

/// The data of a frame: the EtherType in network byte order, then `payload`.
pub fn frame_data(ether_type: EtherType, payload: &[u8]) -> (r: Vec<u8>)
    ensures
        r@ == seq![be_bytes(ether_type.0)[0], be_bytes(ether_type.0)[1]] + payload@,
{
    let b = ether_type.to_be_bytes();
    let mut r: Vec<u8> = Vec::new();
    r.push(b[0]);
    r.push(b[1]);
    let mut i: usize = 0;
    while i < payload.len()
        invariant
            i <= payload@.len(),
            r@ == seq![b[0], b[1]] + payload@.subrange(0, i as int),
        decreases payload@.len() - i,
    {
        r.push(payload[i]);
        i = i + 1;
        assert(r@ =~= seq![b[0], b[1]] + payload@.subrange(0, i as int));
    }
    assert(payload@.subrange(0, payload@.len() as int) =~= payload@);
    r
}

/// What the interface reports once a receive procedure has finished or failed;
/// `None` while it goes on.
pub fn receive_outcome(step: &Step<usize>) -> (r: Option<Result<usize, ReceiveError>>)
    ensures
        step matches Step::Finished(n) ==> r == Some(Ok::<usize, ReceiveError>(*n)),
        step is Failed ==> r == Some(Err::<usize, ReceiveError>(ReceiveError::DeviceError)),
        (step is Issue || step is Pause) ==> r is None,
{
    match step {
        Step::Finished(n) => Some(Ok(*n)),
        Step::Failed => Some(Err(ReceiveError::DeviceError)),
        _ => None,
    }
}

/// What the interface reports once a transmit procedure has finished or
/// failed; `None` while it goes on. A transmission that the device aborted
/// is reported as sent: the device's abort flag has been cleared by then.
pub fn transmit_outcome(step: &Step<bool>) -> (r: Option<Result<(), TransmitError>>)
    ensures
        step is Finished ==> r == Some(Ok::<(), TransmitError>(())),
        step is Failed ==> r == Some(Err::<(), TransmitError>(TransmitError::DeviceError)),
        (step is Issue || step is Pause) ==> r is None,
{
    match step {
        Step::Finished(_) => Some(Ok(())),
        Step::Failed => Some(Err(TransmitError::DeviceError)),
        _ => None,
    }
}

/// The header of a received Ethernet frame and the length of its data.
#[derive(Clone, Copy, Debug, PartialEq, Eq)]
pub struct FrameHeader {
    pub dst: MacAddress,
    pub src: MacAddress,
    pub ether_type: EtherType,
    pub data_len: usize,
}

/// Length of an Ethernet header: two addresses and the EtherType.
pub const HEADER_LEN: usize = 14;

/// The six bytes of `b` from `at`.
fn address_at(b: &[u8], at: usize) -> (r: MacAddress)
    requires
        at + 6 <= b@.len(),
    ensures
        r.0@ == b@.subrange(at as int, at + 6),
{
    let r = MacAddress([b[at], b[at + 1], b[at + 2], b[at + 3], b[at + 4], b[at + 5]]);
    assert(r.0@ =~= b@.subrange(at as int, at + 6));
    r
}

/// The header of the frame held in the first `len` bytes of `frame`: its
/// destination, its source and its EtherType, and the bytes after them.
/// `None` when `len` is shorter than a header or longer than `frame`.
pub fn parse_header(frame: &[u8], len: usize) -> (r: Option<FrameHeader>)
    ensures
        r is None <==> (len < HEADER_LEN || len > frame@.len()),
        r matches Some(h) ==> {
            &&& h.dst.0@ == frame@.subrange(0, 6)
            &&& h.src.0@ == frame@.subrange(6, 12)
            &&& h.ether_type.0 == frame@[12] * 256 + frame@[13]
            &&& h.data_len == len - HEADER_LEN
        },
{
    if len < HEADER_LEN || len > frame.len() {
        return None;
    }
    let dst = address_at(frame, 0);
    let src = address_at(frame, 6);
    let ether_type = EtherType::from_be_bytes([frame[12], frame[13]]);
    Some(FrameHeader { dst, src, ether_type, data_len: len - HEADER_LEN })
}

impl Enc28j60 {
    /// The transmit procedure for a frame to `dst` from `src` whose data is
    /// the EtherType in network byte order followed by `payload`.
    pub fn transmit_frame(
        &self,
        dst: &MacAddress,
        src: &MacAddress,
        ether_type: EtherType,
        payload: &[u8],
    ) -> (r: Transmit)
        ensures
            r.phase == crate::transmit::TransmitPhase::Start,
            r.dst == dst.0,
            r.src == src.0,
            r.data@ == seq![be_bytes(ether_type.0)[0], be_bytes(ether_type.0)[1]] + payload@,
    {
        self.transmit(dst.octets(), src.octets(), frame_data(ether_type, payload))
    }
}

} // verus!
