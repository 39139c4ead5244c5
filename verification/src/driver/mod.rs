//! Drivers: one per model of device.

use tzfile::Tz;
use vstd::prelude::*;

use crate::btutil::BTAddress;
use crate::driver::omron::btcomm::BTCommLink;
use crate::driver::omron::session::{Model, Phase, Session, SessionView, Task};
use crate::driver::omron::{hem_7361t, hn_300t2};

pub mod omron;

verus! {

/// What is configured of a device, by model.
#[allow(non_camel_case_types)]
pub enum DriverConfig {
    Omron_HEM_7361T(hem_7361t::Config),
    Omron_HN_300T2(hn_300t2::Config),
}

/// The driver of a device, by model.
#[allow(non_camel_case_types)]
pub enum Driver {
    Omron_HEM_7361T(hem_7361t::DriverImpl),
    Omron_HN_300T2(hn_300t2::DriverImpl),
}

impl Driver {
    /// The model of the device.
    pub open spec fn spec_model(&self) -> Model {
        match self {
            Driver::Omron_HEM_7361T(_) => Model::Hem7361T,
            Driver::Omron_HN_300T2(_) => Model::Hn300T2,
        }
    }

    /// The key of the device; a scale has none.
    pub open spec fn spec_secret(&self) -> Seq<u8> {
        match self {
            Driver::Omron_HEM_7361T(driver) => driver@.secret@,
            Driver::Omron_HN_300T2(_) => Seq::empty(),
        }
    }

    /// The identifier of the device.
    pub open spec fn spec_id(&self) -> Seq<char> {
        match self {
            Driver::Omron_HEM_7361T(driver) => driver.spec_id(),
            Driver::Omron_HN_300T2(driver) => driver.spec_id(),
        }
    }

    /// The model of the device.
    pub fn model(&self) -> (model: Model)
        ensures
            model == self.spec_model(),
    {
        match self {
            Driver::Omron_HEM_7361T(_) => Model::Hem7361T,
            Driver::Omron_HN_300T2(_) => Model::Hn300T2,
        }
    }

    /// The identifier of the device.
    pub fn id(&self) -> (id: &str)
        ensures
            id@ == self.spec_id(),
    {
        match self {
            Driver::Omron_HEM_7361T(driver) => driver.id(),
            Driver::Omron_HN_300T2(driver) => driver.id(),
        }
    }

    /// The address of the device.
    pub fn addr(&self) -> (addr: BTAddress)
        ensures
            addr == match self {
                Driver::Omron_HEM_7361T(driver) => driver@.addr,
                Driver::Omron_HN_300T2(driver) => driver@.addr,
            },
    {
        match self {
            Driver::Omron_HEM_7361T(driver) => driver.addr(),
            Driver::Omron_HN_300T2(driver) => driver.addr(),
        }
    }

    /// The time zone of the device.
    pub fn tz(&self) -> (tz: &Tz)
        ensures
            *tz == match self {
                Driver::Omron_HEM_7361T(driver) => driver@.tz,
                Driver::Omron_HN_300T2(driver) => driver@.tz,
            },
    {
        match self {
            Driver::Omron_HEM_7361T(driver) => driver.tz(),
            Driver::Omron_HN_300T2(driver) => driver.tz(),
        }
    }

    /// The link that takes the key, for a model that has one: the blood
    /// pressure monitor writes its key to one characteristic of its service
    /// and reads the answer from the same.
    pub fn unlock_link(&self) -> (link: Option<BTCommLink>)
        ensures
            link is Some <==> self.spec_model() == Model::Hem7361T,
            link matches Some(l) ==> {
                &&& l.service == hem_7361t::MAIN_SERVICE
                &&& l.tx_chars@ == seq![hem_7361t::UNLOCK_CHAR]
                &&& l.rx_chars@ == seq![hem_7361t::UNLOCK_CHAR]
                &&& l.cmd_chunk_size == hem_7361t::CMD_CHUNK_SIZE
            },
    {
        match self {
            Driver::Omron_HEM_7361T(_) => Some(hem_7361t::DriverImpl::unlock_link()),
            Driver::Omron_HN_300T2(_) => None,
        }
    }

    /// The link that carries commands. The blood pressure monitor spreads a
    /// command over four characteristics in frames of 16 bytes and answers
    /// on four; the scale takes a command whole on one characteristic and
    /// answers on one.
    pub fn main_link(&self) -> (link: BTCommLink)
        ensures
            self.spec_model() == Model::Hem7361T ==> {
                &&& link.service == hem_7361t::MAIN_SERVICE
                &&& link.tx_chars@ == seq![
                    hem_7361t::TX_CHAR_0,
                    hem_7361t::TX_CHAR_1,
                    hem_7361t::TX_CHAR_2,
                    hem_7361t::TX_CHAR_3,
                ]
                &&& link.rx_chars@ == seq![
                    hem_7361t::RX_CHAR_0,
                    hem_7361t::RX_CHAR_1,
                    hem_7361t::RX_CHAR_2,
                    hem_7361t::RX_CHAR_3,
                ]
                &&& link.cmd_chunk_size == hem_7361t::CMD_CHUNK_SIZE
            },
            self.spec_model() == Model::Hn300T2 ==> {
                &&& link.service == hn_300t2::MAIN_SERVICE
                &&& link.tx_chars@ == seq![hn_300t2::TX_CHAR]
                &&& link.rx_chars@ == seq![hn_300t2::RX_CHAR]
                &&& link.cmd_chunk_size == hn_300t2::CMD_CHUNK_SIZE
            },
            link.tx_chars@.len() > 0,
            link.rx_chars@.len() > 0,
            link.cmd_chunk_size > 0,
    {
        match self {
            Driver::Omron_HEM_7361T(_) => hem_7361t::DriverImpl::main_link(),
            Driver::Omron_HN_300T2(_) => hn_300t2::DriverImpl::main_link(),
        }
    }

    /// A session that pairs the device, at its start.
    pub open spec fn pair_view(&self) -> SessionView {
        SessionView {
            model: self.spec_model(),
            task: Task::Pair,
            phase: Phase::Resolve,
            secret: self.spec_secret(),
            block: Seq::empty(),
            records: Seq::empty(),
        }
    }

    /// A session that fetches the measurements of the device, at its start.
    pub open spec fn get_records_view(&self) -> SessionView {
        SessionView {
            model: self.spec_model(),
            task: Task::Fetch,
            phase: Phase::Resolve,
            secret: self.spec_secret(),
            block: Seq::empty(),
            records: Seq::empty(),
        }
    }

    /// Starts pairing the device.
    pub fn pair(&self) -> (session: Session)
        ensures
            session.wf(),
            session@ == self.pair_view(),
    {
        match self {
            Driver::Omron_HEM_7361T(driver) => driver.pair(),
            Driver::Omron_HN_300T2(driver) => driver.pair(),
        }
    }

    /// Starts fetching the measurements of the device.
    pub fn get_records(&self) -> (session: Session)
        ensures
            session.wf(),
            session@ == self.get_records_view(),
    {
        match self {
            Driver::Omron_HEM_7361T(driver) => driver.get_records(),
            Driver::Omron_HN_300T2(driver) => driver.get_records(),
        }
    }
}

/// Whether `driver` is the driver of the model that `config` names, with
/// what `config` holds.
pub open spec fn driver_of(driver: Driver, config: DriverConfig) -> bool {
    match config {
        DriverConfig::Omron_HEM_7361T(c) => driver matches Driver::Omron_HEM_7361T(d) && d@ == c,
        DriverConfig::Omron_HN_300T2(c) => driver matches Driver::Omron_HN_300T2(d) && d@ == c,
    }
}

/// The driver of the device `id` with the configuration `config`.
pub fn create(id: &str, config: DriverConfig) -> (driver: Driver)
    ensures
        driver.spec_id() == id@,
        driver_of(driver, config),
{
    match config {
        DriverConfig::Omron_HEM_7361T(config) => Driver::Omron_HEM_7361T(
            hem_7361t::DriverImpl::new(id, config),
        ),
        DriverConfig::Omron_HN_300T2(config) => Driver::Omron_HN_300T2(
            hn_300t2::DriverImpl::new(id, config),
        ),
    }
}

} // verus!
