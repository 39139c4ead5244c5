use vstd::prelude::*;
use vstd::utf8::{decode_utf8, valid_utf8};

verus! {

/// Why an exchange with a device, or with the database, failed.
#[derive(Clone, Copy, Debug, PartialEq, Eq, Structural)]
pub enum Error {
    /// The radio link failed below the protocol.
    Transport,
    /// No advertisement of the device arrived.
    AdvertisementTimeout,
    /// A frame or a packet ended before the length it has to have.
    ShortPacket,
    /// The XOR fold of a received packet is not zero.
    CrcMismatch,
    /// The device answered with another opcode, address or status than the
    /// protocol prescribes.
    ProtocolViolation,
    /// Manufacturer or model are not those of the driver.
    UnknownDevice,
    /// The device is bonded already.
    AlreadyPaired,
    /// The device is not bonded yet.
    NotPaired,
    /// The packet does not fit into the write characteristics.
    PacketTooLarge,
    /// Text or a date could not be decoded.
    Decode,
    /// The clock shows a year that the device cannot store.
    Clock,
    /// The database refused the records.
    Sink,
}

/// The text of an error.
pub open spec fn error_text(e: Error) -> Seq<char> {
    match e {
        Error::Transport => "Unable to receive packet"@,
        Error::AdvertisementTimeout => "Failed to receive advertisements"@,
        Error::ShortPacket => "Received packet is too short"@,
        Error::CrcMismatch => "CRC error in received packet"@,
        Error::ProtocolViolation => "Invalid response"@,
        Error::UnknownDevice => "Unknown device"@,
        Error::AlreadyPaired => "Device is already paired"@,
        Error::NotPaired => "Device is not yet paired"@,
        Error::PacketTooLarge => "Packet is too large"@,
        Error::Decode => "Unable to decode value"@,
        Error::Clock => "Clock is out of range"@,
        Error::Sink => "DB error"@,
    }
}

impl Error {
    /// The text of the error.
    pub fn message(&self) -> (text: &'static str)
        ensures
            text@ == error_text(*self),
    {
        match self {
            Error::Transport => "Unable to receive packet",
            Error::AdvertisementTimeout => "Failed to receive advertisements",
            Error::ShortPacket => "Received packet is too short",
            Error::CrcMismatch => "CRC error in received packet",
            Error::ProtocolViolation => "Invalid response",
            Error::UnknownDevice => "Unknown device",
            Error::AlreadyPaired => "Device is already paired",
            Error::NotPaired => "Device is not yet paired",
            Error::PacketTooLarge => "Packet is too large",
            Error::Decode => "Unable to decode value",
            Error::Clock => "Clock is out of range",
            Error::Sink => "DB error",
        }
    }
}

/// What a device says of itself in its device information service.
#[derive(Debug)]
pub struct BTDeviceInfo {
    pub manufacturer: String,
    pub model: String,
    pub firmware: String,
}

/// The address of a Bluetooth device.
pub type BTAddress = [u8; 6];

/// The device information service and its characteristics, as the 128 bits
/// of their UUIDs.
pub const DEVICE_INFO_SERVICE: u128 = 0x0000180a_0000_1000_8000_00805f9b34fb;

pub const MANUFACTURER_CHAR: u128 = 0x00002a29_0000_1000_8000_00805f9b34fb;

pub const MODEL_CHAR: u128 = 0x00002a24_0000_1000_8000_00805f9b34fb;

pub const FIRMWARE_CHAR: u128 = 0x00002a26_0000_1000_8000_00805f9b34fb;

/// What is heard while waiting for a device.
#[derive(Clone, Copy, Debug)]
pub enum BTEvent {
    /// The device with this address showed up.
    Found(BTAddress),
    /// Something else happened.
    Other,
    /// Nothing more will be heard.
    Closed,
}

/// What to do after an event while waiting for a device.
#[derive(Clone, Copy, Debug, PartialEq, Eq, Structural)]
pub enum BTWait {
    /// The device is there.
    Ready,
    /// Wait for the next event.
    Listen,
}

pub struct BTUtil;

/// Calls `String::from_utf8` of std. Trusted: that it succeeds exactly on
/// valid UTF-8 and then holds the characters that the bytes encode.
#[verifier::external_body]
fn string_from_utf8(data: Vec<u8>) -> (res: Option<String>)
    ensures
        res is Some <==> valid_utf8(data@),
        res matches Some(s) ==> s@ == decode_utf8(data@),
{
    String::from_utf8(data).ok()
}

impl BTUtil {
    /// The text of a characteristic of the device information service.
    pub fn get_string(data: Vec<u8>) -> (res: Result<String, Error>)
        ensures
            res is Ok <==> valid_utf8(data@),
            res matches Ok(s) ==> s@ == decode_utf8(data@),
            res is Err ==> res == Err::<String, Error>(Error::Decode),
    {
        match string_from_utf8(data) {
            Some(s) => Ok(s),
            None => Err(Error::Decode),
        }
    }

    /// The device information that the three characteristics hold.
    pub fn get_device_info(manufacturer: Vec<u8>, model: Vec<u8>, firmware: Vec<u8>) -> (res:
        Result<BTDeviceInfo, Error>)
        ensures
            res is Ok <==> valid_utf8(manufacturer@) && valid_utf8(model@) && valid_utf8(
                firmware@,
            ),
            res matches Ok(info) ==> {
                &&& info.manufacturer@ == decode_utf8(manufacturer@)
                &&& info.model@ == decode_utf8(model@)
                &&& info.firmware@ == decode_utf8(firmware@)
            },
            res matches Err(e) ==> e == Error::Decode,
    {
        let manufacturer = Self::get_string(manufacturer)?;
        let model = Self::get_string(model)?;
        let firmware = Self::get_string(firmware)?;
        Ok(BTDeviceInfo { manufacturer, model, firmware })
    }

    /// While discovery runs: the device is there once it has been found
    /// under its address, and when discovery ends.
    pub fn get_device(addr: &BTAddress, event: BTEvent) -> (wait: BTWait)
        ensures
            wait == match event {
                BTEvent::Found(found) => if found@ == addr@ {
                    BTWait::Ready
                } else {
                    BTWait::Listen
                },
                BTEvent::Other => BTWait::Listen,
                BTEvent::Closed => BTWait::Ready,
            },
    {
        match event {
            BTEvent::Found(found) => if same_address(&found, addr) {
                BTWait::Ready
            } else {
                BTWait::Listen
            },
            BTEvent::Other => BTWait::Listen,
            BTEvent::Closed => BTWait::Ready,
        }
    }

    /// While waiting for an advertisement: the device is there once it has
    /// been heard under its address. If the monitor closes before that, the
    /// wait has failed.
    pub fn wait_for_adv(addr: &BTAddress, event: BTEvent) -> (res: Result<BTWait, Error>)
        ensures
            res == match event {
                BTEvent::Found(found) => if found@ == addr@ {
                    Ok::<BTWait, Error>(BTWait::Ready)
                } else {
                    Ok(BTWait::Listen)
                },
                BTEvent::Other => Ok(BTWait::Listen),
                BTEvent::Closed => Err(Error::AdvertisementTimeout),
            },
    {
        match event {
            BTEvent::Found(found) => if same_address(&found, addr) {
                Ok(BTWait::Ready)
            } else {
                Ok(BTWait::Listen)
            },
            BTEvent::Other => Ok(BTWait::Listen),
            BTEvent::Closed => Err(Error::AdvertisementTimeout),
        }
    }
}

/// Whether two addresses are the same.
pub fn same_address(a: &BTAddress, b: &BTAddress) -> (same: bool)
    ensures
        same == (a@ == b@),
{
    let mut i: usize = 0;
    while i < 6
        invariant
            i <= 6,
            forall|j: int| 0 <= j < i ==> a@[j] == b@[j],
        decreases 6 - i,
    {
        if a[i] != b[i] {
            return false;
        }
        i += 1;
    }
    assert(a@ =~= b@);
    true
}

} // verus!
