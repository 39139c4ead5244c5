//! Protocol engine for Omron health devices that talk over Bluetooth LE.
//!
//! The crate holds the decisions of the protocol: packet framing with its
//! XOR checksum, splitting a packet over several characteristics, putting a
//! response together again, paged access to the device's memory, the layout
//! of the stored measurements and the supervising loop of a device. The radio
//! and the database are driven by the caller, who hands the bytes over.

pub mod btutil;
pub mod db;
pub mod device;
pub mod driver;
pub mod timeutil;
