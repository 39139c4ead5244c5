pub mod btcomm;
pub mod eeprom;
pub mod hem_7361t;
pub mod hn_300t2;
pub mod session;
pub mod timesync;
