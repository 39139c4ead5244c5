//! A session with a device: pairing it, or fetching its measurements.
//!
//! A session is a sequence of phases. In each phase it names one thing to
//! do with the device, and takes what came of it. The caller does what is
//! named, over the radio, and hands the outcome back; the session decides
//! what follows.

use tzfile::Tz;
use vstd::prelude::*;

use crate::btutil::{BTDeviceInfo, Error};
use crate::db::{DbRecord, DbRecordView};
use crate::driver::omron::btcomm::{append_bytes, copy_range, BTComm, BTCommCmdResp};
use crate::driver::omron::eeprom::{
    addr_hi, addr_lo, end_trans_cmd, lemma_addr_bytes, page_resp, read_cmd, read_page,
    start_trans_cmd, trans_resp, write_cmd, write_page, BTCommCmd, EepromReadStep,
    EepromWriteStep, OP_END_TRANS, OP_START_TRANS,
};
use crate::driver::omron::hem_7361t;
use crate::driver::omron::hn_300t2;
use crate::driver::omron::timesync::{YEAR, YEAR_MAX};
use crate::timeutil::{local_to_utc_nanos, Current, TimeUtil};

verus! {

/// The models of devices.
#[derive(Clone, Copy, Debug, PartialEq, Eq, Structural)]
pub enum Model {
    /// HEM-7361T, a blood pressure monitor.
    Hem7361T,
    /// HN-300T2, a scale.
    Hn300T2,
}

/// What a session is for.
#[derive(Clone, Copy, Debug, PartialEq, Eq, Structural)]
pub enum Task {
    /// Bonding with the device and setting it up.
    Pair,
    /// Reading the measurements of a bonded device.
    Fetch,
}

/// Where a session stands.
#[derive(Clone, Copy, Debug, PartialEq, Eq, Structural)]
pub enum Phase {
    /// Finding the device by its address.
    Resolve,
    /// Asking whether the device is bonded.
    Paired,
    /// Waiting for an advertisement of the device.
    Advert,
    /// Connecting.
    Connect,
    /// Reading manufacturer and model.
    Identify,
    /// Bonding.
    Bond,
    /// Asking the device to take a new key.
    Probe,
    /// Handing the key over.
    Key,
    /// Unlocking the device with the key.
    Unlock,
    /// Opening the transaction.
    StartTrans,
    /// Reading the clock block.
    TimeRead,
    /// Writing the clock block.
    TimeWrite,
    /// Reading the slot of this number.
    Slot(usize),
    /// Closing the transaction.
    EndTrans,
    /// Nothing is left to do.
    Finished,
}

/// The advertisements of a device that has measurements to hand over carry
/// these bytes at the start of their manufacturer data.
pub const ADV_PATTERN_0: u8 = 0x0e;

pub const ADV_PATTERN_1: u8 = 0x02;

/// The first byte of the message that asks the device to take a new key,
/// and of the device's answer.
pub const KEY_PROBE: u8 = 0x02;

/// The first byte of the message that hands the key over.
pub const KEY_SET: u8 = 0x00;

/// The first byte of the message that unlocks the device.
pub const KEY_UNLOCK: u8 = 0x01;

/// The answer to a message about the key has the top bit set in its first
/// byte.
pub const KEY_RESPONSE: u8 = 0x80;

/// The manufacturer that a device of the model names.
pub open spec fn manufacturer_of(model: Model) -> Seq<char> {
    match model {
        Model::Hem7361T => hem_7361t::MANUFACTURER@,
        Model::Hn300T2 => hn_300t2::MANUFACTURER@,
    }
}

/// The model name that a device of the model names.
pub open spec fn model_name_of(model: Model) -> Seq<char> {
    match model {
        Model::Hem7361T => hem_7361t::MODEL@,
        Model::Hn300T2 => hn_300t2::MODEL@,
    }
}

/// Number of slots that a fetch reads.
pub open spec fn slot_count(model: Model) -> nat {
    match model {
        Model::Hem7361T => (hem_7361t::REC_USERS * hem_7361t::REC_COUNT) as nat,
        Model::Hn300T2 => hn_300t2::REC_COUNT as nat,
    }
}

/// The user that slot `k` of a blood pressure monitor belongs to, counted
/// from zero.
pub open spec fn slot_user(k: nat) -> nat {
    k / (hem_7361t::REC_COUNT as nat)
}

/// The address of slot `k`.
pub open spec fn slot_addr(model: Model, k: nat) -> u16
    recommends
        k < slot_count(model),
{
    match model {
        Model::Hem7361T => if k < hem_7361t::REC_COUNT {
            (hem_7361t::REC_START_USER1 + k * hem_7361t::REC_LEN) as u16
        } else {
            (hem_7361t::REC_START_USER2 + (k - hem_7361t::REC_COUNT) * hem_7361t::REC_LEN) as u16
        },
        Model::Hn300T2 => (hn_300t2::REC_START + k * hn_300t2::REC_LEN) as u16,
    }
}

/// Where the clock block is read.
pub open spec fn time_read_addr(model: Model) -> u16 {
    match model {
        Model::Hem7361T => hem_7361t::TIMESYNC_ADDR_RD,
        Model::Hn300T2 => hn_300t2::TIMESYNC_ADDR,
    }
}

/// Where the clock block is written.
pub open spec fn time_addr(model: Model) -> u16 {
    match model {
        Model::Hem7361T => hem_7361t::TIMESYNC_ADDR_WR,
        Model::Hn300T2 => hn_300t2::TIMESYNC_ADDR,
    }
}

/// Length of the clock block.
pub open spec fn time_len(model: Model) -> nat {
    match model {
        Model::Hem7361T => hem_7361t::TIMESYNC_LEN as nat,
        Model::Hn300T2 => hn_300t2::TIMESYNC_LEN as nat,
    }
}

/// The phase that comes first after identifying the device or bonding.
pub open spec fn phase_after_bond(model: Model, task: Task) -> Phase {
    match model {
        Model::Hem7361T => match task {
            Task::Pair => Phase::Probe,
            Task::Fetch => Phase::Unlock,
        },
        Model::Hn300T2 => Phase::StartTrans,
    }
}

/// The phase that follows `phase`.
///
/// Both tasks find the device, ask whether it is bonded, connect and check
/// what the device is. A fetch waits for an advertisement before it
/// connects; pairing bonds after the check. A blood pressure monitor is then
/// given its key when pairing, and unlocked with it when fetching. Inside a
/// transaction the clock is set: the clock block is read and then written.
/// After that a fetch reads all slots in order.
pub open spec fn phase_after(model: Model, task: Task, phase: Phase) -> Phase {
    match phase {
        Phase::Resolve => Phase::Paired,
        Phase::Paired => match task {
            Task::Pair => Phase::Connect,
            Task::Fetch => Phase::Advert,
        },
        Phase::Advert => Phase::Connect,
        Phase::Connect => Phase::Identify,
        Phase::Identify => match task {
            Task::Pair => Phase::Bond,
            Task::Fetch => phase_after_bond(model, task),
        },
        Phase::Bond => phase_after_bond(model, task),
        Phase::Probe => Phase::Key,
        Phase::Key => Phase::StartTrans,
        Phase::Unlock => Phase::StartTrans,
        Phase::StartTrans => Phase::TimeRead,
        Phase::TimeRead => Phase::TimeWrite,
        Phase::TimeWrite => match task {
            Task::Pair => Phase::EndTrans,
            Task::Fetch => Phase::Slot(0),
        },
        Phase::Slot(k) => if k + 1 < slot_count(model) {
            Phase::Slot((k + 1) as usize)
        } else {
            Phase::EndTrans
        },
        Phase::EndTrans => Phase::Finished,
        Phase::Finished => Phase::Finished,
    }
}

/// What a session holds: what it is for, where it stands, the key of the
/// device, the clock block that is being written, and the records read.
pub struct SessionView {
    pub model: Model,
    pub task: Task,
    pub phase: Phase,
    pub secret: Seq<u8>,
    pub block: Seq<u8>,
    pub records: Seq<DbRecordView>,
}

/// What a session asks its caller to do.
pub enum ActionView {
    /// Find the device; with `discover`, run discovery until it shows up.
    Resolve { discover: bool },
    /// Ask whether the device is bonded.
    IsPaired,
    /// Wait for an advertisement of the device.
    WaitAdv,
    /// Connect to the device.
    Connect,
    /// Read the device information.
    ReadInfo,
    /// Bond with the device.
    Bond,
    /// Write `tx` to the unlock characteristic and read one frame from it.
    Raw { tx: Seq<u8>, rx_len: nat },
    /// Carry this command over the main link.
    Cmd((u16, Seq<u8>)),
    /// The session is over.
    Finished,
}

/// What came of an action.
pub enum EventView {
    /// It was done.
    Done,
    /// Whether the device is bonded.
    Paired(bool),
    /// Manufacturer and model of the device.
    Info { manufacturer: Seq<char>, model: Seq<char> },
    /// The frame that the unlock characteristic delivered.
    Frame(Seq<u8>),
    /// The response to the command.
    Resp((u16, Seq<u8>)),
}

/// A message about the key: its first byte, then sixteen bytes.
pub open spec fn key_message(first: u8, key: Seq<u8>) -> Seq<u8> {
    seq![first] + key
}

/// Sixteen zero bytes.
pub open spec fn no_key() -> Seq<u8> {
    Seq::new(hem_7361t::SECRET_LEN as nat, |i: int| 0u8)
}

/// The action of the phase that `v` stands in.
pub open spec fn session_action(v: SessionView) -> ActionView {
    match v.phase {
        Phase::Resolve => ActionView::Resolve { discover: v.task == Task::Pair },
        Phase::Paired => ActionView::IsPaired,
        Phase::Advert => ActionView::WaitAdv,
        Phase::Connect => ActionView::Connect,
        Phase::Identify => ActionView::ReadInfo,
        Phase::Bond => ActionView::Bond,
        Phase::Probe => ActionView::Raw { tx: key_message(KEY_PROBE, no_key()), rx_len: 2 },
        Phase::Key => ActionView::Raw { tx: key_message(KEY_SET, v.secret), rx_len: 2 },
        Phase::Unlock => ActionView::Raw { tx: key_message(KEY_UNLOCK, v.secret), rx_len: 2 },
        Phase::StartTrans => ActionView::Cmd(start_trans_cmd()),
        Phase::TimeRead => ActionView::Cmd(
            read_cmd(time_read_addr(v.model), time_len(v.model) as u8),
        ),
        Phase::TimeWrite => ActionView::Cmd(write_cmd(time_addr(v.model), v.block)),
        Phase::Slot(k) => ActionView::Cmd(read_cmd(slot_addr(v.model, k as nat), 0x10u8)),
        Phase::EndTrans => ActionView::Cmd(end_trans_cmd()),
        Phase::Finished => ActionView::Finished,
    }
}

/// The session in its next phase.
pub open spec fn advance(v: SessionView) -> SessionView {
    SessionView { phase: phase_after(v.model, v.task, v.phase), ..v }
}

/// The answer to a message about the key has to be the first byte of the
/// message with the top bit set, followed by zero.
pub open spec fn key_answer(v: SessionView, first: u8, frame: Seq<u8>) -> Result<
    SessionView,
    Error,
> {
    if frame.len() < 2 {
        Err(Error::ShortPacket)
    } else if frame[0] != first | KEY_RESPONSE || frame[1] != 0 {
        Err(Error::ProtocolViolation)
    } else {
        Ok(advance(v))
    }
}

/// The session goes on to write the clock: `now` is what the clocks of the
/// device's time zone show, and `read` the clock block that was read from
/// the device. A blood pressure monitor keeps the first half of what was
/// read; a scale sets every byte of its block. A year that the device cannot
/// store ends the session.
pub open spec fn enter_time_write(v: SessionView, read: Seq<u8>, now: Option<Current>) -> Result<
    SessionView,
    Error,
> {
    match now {
        Some(c) => if YEAR <= c.year <= YEAR_MAX {
            Ok(
                SessionView {
                    phase: Phase::TimeWrite,
                    block: match v.model {
                        Model::Hem7361T => hem_7361t::time_block(read, c),
                        Model::Hn300T2 => hn_300t2::time_block(c),
                    },
                    ..v
                },
            )
        } else {
            Err(Error::Clock)
        },
        None => Err(Error::Clock),
    }
}

/// What the populated slot `k` with the bytes `page` yields in the time
/// zone `tz`: a record, nothing, or a failure to decode.
pub open spec fn slot_yield(model: Model, k: nat, page: Seq<u8>, tz: Tz) -> Result<
    Option<DbRecordView>,
    Error,
> {
    match model {
        Model::Hem7361T => {
            let d = hem_7361t::decode_slot(page);
            let ts = local_to_utc_nanos(
                tz,
                d.year as int,
                d.month as int,
                d.day as int,
                d.hour as int,
                d.min as int,
                d.sec as int,
            );
            match hem_7361t::slot_record(slot_user(k), page, ts) {
                Ok(r) => Ok(Some(r)),
                Err(e) => Err(e),
            }
        },
        Model::Hn300T2 => match hn_300t2::decode_slot(page) {
            None => Ok(None),
            Some(w) => hn_300t2::slot_record(
                page,
                local_to_utc_nanos(
                    tz,
                    w.year as int,
                    w.month as int,
                    w.day as int,
                    w.hour as int,
                    w.min as int,
                    w.sec as int,
                ),
            ),
        },
    }
}

/// The session after the outcome `ev` of the action of its phase, or the
/// error that ends it. `tz` is the time zone of the device and `now` what
/// its clocks show, which is looked at only where the clock block is made.
///
/// An outcome that does not belong to the action of the phase is a
/// violation of the protocol.
pub open spec fn session_step(
    v: SessionView,
    tz: Tz,
    ev: EventView,
    now: Option<Current>,
) -> Result<SessionView, Error> {
    match (v.phase, ev) {
        (Phase::Resolve, EventView::Done) => Ok(advance(v)),
        (Phase::Paired, EventView::Paired(bonded)) => match v.task {
            Task::Pair => if bonded {
                Err(Error::AlreadyPaired)
            } else {
                Ok(advance(v))
            },
            Task::Fetch => if bonded {
                Ok(advance(v))
            } else {
                Err(Error::NotPaired)
            },
        },
        (Phase::Advert, EventView::Done) => Ok(advance(v)),
        (Phase::Connect, EventView::Done) => Ok(advance(v)),
        (Phase::Identify, EventView::Info { manufacturer, model }) => if manufacturer
            == manufacturer_of(v.model) && model == model_name_of(v.model) {
            Ok(advance(v))
        } else {
            Err(Error::UnknownDevice)
        },
        (Phase::Bond, EventView::Done) => Ok(advance(v)),
        (Phase::Probe, EventView::Frame(frame)) => key_answer(v, KEY_PROBE, frame),
        (Phase::Key, EventView::Frame(frame)) => key_answer(v, KEY_SET, frame),
        (Phase::Unlock, EventView::Frame(frame)) => key_answer(v, KEY_UNLOCK, frame),
        (Phase::StartTrans, EventView::Resp(resp)) => match trans_resp(OP_START_TRANS, resp) {
            Err(e) => Err(e),
            Ok(()) => Ok(advance(v)),
        },
        (Phase::TimeRead, EventView::Resp(resp)) => match read_page(
            time_read_addr(v.model),
            time_len(v.model) as u8,
            resp,
        ) {
            Err(e) => Err(e),
            Ok(None) => Err(Error::ProtocolViolation),
            Ok(Some(page)) => enter_time_write(v, page, now),
        },
        (Phase::TimeWrite, EventView::Resp(resp)) => match write_page(time_addr(v.model), resp) {
            Err(e) => Err(e),
            Ok(()) => Ok(advance(v)),
        },
        (Phase::Slot(k), EventView::Resp(resp)) => match read_page(
            slot_addr(v.model, k as nat),
            0x10u8,
            resp,
        ) {
            Err(e) => Err(e),
            Ok(None) => Ok(advance(v)),
            Ok(Some(page)) => match slot_yield(v.model, k as nat, page, tz) {
                Err(e) => Err(e),
                Ok(None) => Ok(advance(v)),
                Ok(Some(r)) => Ok(advance(SessionView { records: v.records.push(r), ..v })),
            },
        },
        (Phase::EndTrans, EventView::Resp(resp)) => match trans_resp(OP_END_TRANS, resp) {
            Err(e) => Err(e),
            Ok(()) => Ok(advance(v)),
        },
        _ => Err(Error::ProtocolViolation),
    }
}

/// Setting the clock: once the transaction is open, the session reads the
/// clock block at the address of the model, eight bytes from a scale and
/// sixteen from a blood pressure monitor. When the device hands the block
/// out whole, the session goes on to write the block for the time `c` to
/// the address of the model.
pub proof fn lemma_clock_sync(v: SessionView, tz: Tz, page: Seq<u8>, c: Current)
    requires
        v.phase == Phase::TimeRead,
        page.len() == time_len(v.model),
        YEAR <= c.year <= YEAR_MAX,
    ensures
        phase_after(v.model, v.task, Phase::StartTrans) == Phase::TimeRead,
        session_action(v) == ActionView::Cmd(
            read_cmd(time_read_addr(v.model), time_len(v.model) as u8),
        ),
        session_step(
            v,
            tz,
            EventView::Resp(page_resp(time_read_addr(v.model), time_len(v.model) as u8, page)),
            Some(c),
        ) matches Ok(w) && {
            &&& w.phase == Phase::TimeWrite
            &&& w.block == match v.model {
                Model::Hem7361T => hem_7361t::time_block(page, c),
                Model::Hn300T2 => hn_300t2::time_block(c),
            }
            &&& session_action(w) == ActionView::Cmd(write_cmd(time_addr(v.model), w.block))
        },
{
    let addr = time_read_addr(v.model);
    let len = time_len(v.model) as u8;
    let resp = page_resp(addr, len, page);
    lemma_addr_bytes(addr);
    assert(resp.1.len() == 3 + len);
    assert(resp.1[0] == addr_hi(addr));
    assert(resp.1[1] == addr_lo(addr));
    assert(resp.1[2] == len);
    assert(resp.1.subrange(3, 3 + len) =~= page);
    assert(read_page(addr, len, resp) == Ok::<Option<Seq<u8>>, Error>(Some(page)));
}

/// What a session asks its caller to do.
#[derive(Debug)]
pub enum Action {
    /// Find the device; with `discover`, run discovery until it shows up.
    Resolve { discover: bool },
    /// Ask whether the device is bonded.
    IsPaired,
    /// Wait for an advertisement of the device.
    WaitAdv,
    /// Connect to the device.
    Connect,
    /// Read the device information.
    ReadInfo,
    /// Bond with the device.
    Bond,
    /// Write `tx` to the unlock characteristic and read one frame from it.
    Raw { tx: Vec<u8>, rx_len: usize },
    /// Carry this command over the main link.
    Cmd(BTCommCmd),
    /// The session is over.
    Finished,
}

impl View for Action {
    type V = ActionView;

    open spec fn view(&self) -> ActionView {
        match self {
            Action::Resolve { discover } => ActionView::Resolve { discover: *discover },
            Action::IsPaired => ActionView::IsPaired,
            Action::WaitAdv => ActionView::WaitAdv,
            Action::Connect => ActionView::Connect,
            Action::ReadInfo => ActionView::ReadInfo,
            Action::Bond => ActionView::Bond,
            Action::Raw { tx, rx_len } => ActionView::Raw { tx: tx@, rx_len: *rx_len as nat },
            Action::Cmd(cmd) => ActionView::Cmd(cmd@),
            Action::Finished => ActionView::Finished,
        }
    }
}

/// What came of an action.
#[derive(Debug)]
pub enum Event {
    /// It was done.
    Done,
    /// Whether the device is bonded.
    Paired(bool),
    /// The device information.
    Info(BTDeviceInfo),
    /// The frame that the unlock characteristic delivered.
    Frame(Vec<u8>),
    /// The response to the command.
    Resp(BTCommCmdResp),
}

impl View for Event {
    type V = EventView;

    open spec fn view(&self) -> EventView {
        match self {
            Event::Done => EventView::Done,
            Event::Paired(bonded) => EventView::Paired(*bonded),
            Event::Info(info) => EventView::Info {
                manufacturer: info.manufacturer@,
                model: info.model@,
            },
            Event::Frame(frame) => EventView::Frame(frame@),
            Event::Resp(resp) => EventView::Resp(resp@),
        }
    }
}

/// A session with a device.
#[derive(Debug)]
pub struct Session {
    model: Model,
    task: Task,
    phase: Phase,
    secret: Vec<u8>,
    block: Vec<u8>,
    records: Vec<DbRecord>,
}

impl View for Session {
    type V = SessionView;

    closed spec fn view(&self) -> SessionView {
        SessionView {
            model: self.model,
            task: self.task,
            phase: self.phase,
            secret: self.secret@,
            block: self.block@,
            records: self.records@.map_values(|r: DbRecord| r@),
        }
    }
}

impl SessionView {
    /// The key of a blood pressure monitor has sixteen bytes, the clock
    /// block that is being written has the length that the model asks for,
    /// the slot that is being read exists, and no record has a key twice.
    pub open spec fn wf(self) -> bool {
        &&& self.model == Model::Hem7361T ==> self.secret.len() == hem_7361t::SECRET_LEN
        &&& self.phase == Phase::TimeWrite ==> self.block.len() == time_len(self.model)
        &&& self.phase matches Phase::Slot(k) ==> k < slot_count(self.model)
        &&& forall|i: int| 0 <= i < self.records.len() ==> (#[trigger] self.records[i]).wf()
    }
}

/// The view of a session, or the error.
pub open spec fn session_result_view(res: Result<Session, Error>) -> Result<SessionView, Error> {
    match res {
        Ok(s) => Ok(s@),
        Err(e) => Err(e),
    }
}

/// Whether the device information is that of a device of the model.
pub fn check_device(model: Model, info: &BTDeviceInfo) -> (res: Result<(), Error>)
    ensures
        res == if info.manufacturer@ == manufacturer_of(model) && info.model@ == model_name_of(
            model,
        ) {
            Ok::<(), Error>(())
        } else {
            Err(Error::UnknownDevice)
        },
{
    let manufacturer: String = match model {
        Model::Hem7361T => hem_7361t::MANUFACTURER.to_owned(),
        Model::Hn300T2 => hn_300t2::MANUFACTURER.to_owned(),
    };
    let name: String = match model {
        Model::Hem7361T => hem_7361t::MODEL.to_owned(),
        Model::Hn300T2 => hn_300t2::MODEL.to_owned(),
    };
    if info.manufacturer == manufacturer && info.model == name {
        Ok(())
    } else {
        Err(Error::UnknownDevice)
    }
}

/// The address of slot `k`.
pub fn slot_address(model: Model, k: usize) -> (addr: u16)
    requires
        k < slot_count(model),
    ensures
        addr == slot_addr(model, k as nat),
        addr + 0x10 <= 0x10000,
{
    match model {
        Model::Hem7361T => if k < hem_7361t::REC_COUNT {
            hem_7361t::REC_START_USER1 + (k * hem_7361t::REC_LEN) as u16
        } else {
            hem_7361t::REC_START_USER2 + ((k - hem_7361t::REC_COUNT) * hem_7361t::REC_LEN) as u16
        },
        Model::Hn300T2 => hn_300t2::REC_START + (k * hn_300t2::REC_LEN) as u16,
    }
}

/// The phase that follows `phase`.
pub fn next_phase(model: Model, task: Task, phase: Phase) -> (next: Phase)
    ensures
        next == phase_after(model, task, phase),
{
    let after_bond = match model {
        Model::Hem7361T => match task {
            Task::Pair => Phase::Probe,
            Task::Fetch => Phase::Unlock,
        },
        Model::Hn300T2 => Phase::StartTrans,
    };
    match phase {
        Phase::Resolve => Phase::Paired,
        Phase::Paired => match task {
            Task::Pair => Phase::Connect,
            Task::Fetch => Phase::Advert,
        },
        Phase::Advert => Phase::Connect,
        Phase::Connect => Phase::Identify,
        Phase::Identify => match task {
            Task::Pair => Phase::Bond,
            Task::Fetch => after_bond,
        },
        Phase::Bond => after_bond,
        Phase::Probe => Phase::Key,
        Phase::Key => Phase::StartTrans,
        Phase::Unlock => Phase::StartTrans,
        Phase::StartTrans => Phase::TimeRead,
        Phase::TimeRead => Phase::TimeWrite,
        Phase::TimeWrite => match task {
            Task::Pair => Phase::EndTrans,
            Task::Fetch => Phase::Slot(0),
        },
        Phase::Slot(k) => {
            let count: usize = match model {
                Model::Hem7361T => hem_7361t::REC_USERS * hem_7361t::REC_COUNT,
                Model::Hn300T2 => hn_300t2::REC_COUNT,
            };
            if k < count - 1 {
                Phase::Slot(k + 1)
            } else {
                Phase::EndTrans
            }
        },
        Phase::EndTrans => Phase::Finished,
        Phase::Finished => Phase::Finished,
    }
}

impl Session {
    pub open spec fn wf(&self) -> bool {
        self@.wf()
    }

    /// A session at its start. `secret` is the key of a blood pressure
    /// monitor; a scale has none.
    pub fn new(model: Model, task: Task, secret: Vec<u8>) -> (session: Session)
        requires
            model == Model::Hem7361T ==> secret@.len() == hem_7361t::SECRET_LEN,
        ensures
            session.wf(),
            session@ == (SessionView {
                model,
                task,
                phase: Phase::Resolve,
                secret: secret@,
                block: Seq::empty(),
                records: Seq::empty(),
            }),
    {
        let session = Session {
            model,
            task,
            phase: Phase::Resolve,
            secret,
            block: Vec::new(),
            records: Vec::new(),
        };
        assert(session@.records =~= Seq::empty());
        session
    }

    /// Where the session stands.
    pub fn phase(&self) -> (phase: Phase)
        ensures
            phase == self@.phase,
    {
        self.phase
    }

    /// Whether nothing is left to do.
    pub fn is_finished(&self) -> (done: bool)
        ensures
            done == (self@.phase == Phase::Finished),
    {
        match self.phase {
            Phase::Finished => true,
            _ => false,
        }
    }

    /// The records read so far.
    pub fn records(self) -> (records: Vec<DbRecord>)
        ensures
            records@.map_values(|r: DbRecord| r@) == self@.records,
    {
        self.records
    }

    /// A message about the key.
    fn key_message(first: u8, key: &[u8]) -> (tx: Vec<u8>)
        ensures
            tx@ == key_message(first, key@),
    {
        let mut tx: Vec<u8> = Vec::new();
        tx.push(first);
        append_bytes(&mut tx, key);
        tx
    }

    /// What is to be done next.
    pub fn action(&self) -> (action: Action)
        requires
            self.wf(),
        ensures
            action@ == session_action(self@),
    {
        match self.phase {
            Phase::Resolve => Action::Resolve {
                discover: match self.task {
                    Task::Pair => true,
                    Task::Fetch => false,
                },
            },
            Phase::Paired => Action::IsPaired,
            Phase::Advert => Action::WaitAdv,
            Phase::Connect => Action::Connect,
            Phase::Identify => Action::ReadInfo,
            Phase::Bond => Action::Bond,
            Phase::Probe => {
                let mut zeros: Vec<u8> = Vec::new();
                let mut i: usize = 0;
                while i < hem_7361t::SECRET_LEN
                    invariant
                        i <= hem_7361t::SECRET_LEN,
                        zeros@.len() == i,
                        forall|j: int| 0 <= j < i ==> zeros@[j] == 0,
                    decreases hem_7361t::SECRET_LEN - i,
                {
                    zeros.push(0);
                    i += 1;
                }
                assert(zeros@ =~= no_key());
                Action::Raw { tx: Self::key_message(KEY_PROBE, zeros.as_slice()), rx_len: 2 }
            },
            Phase::Key => Action::Raw {
                tx: Self::key_message(KEY_SET, self.secret.as_slice()),
                rx_len: 2,
            },
            Phase::Unlock => Action::Raw {
                tx: Self::key_message(KEY_UNLOCK, self.secret.as_slice()),
                rx_len: 2,
            },
            Phase::StartTrans => Action::Cmd(BTComm::start_trans()),
            Phase::TimeRead => {
                let step = match self.model {
                    Model::Hem7361T => BTComm::read_eeprom(
                        hem_7361t::TIMESYNC_ADDR_RD,
                        hem_7361t::TIMESYNC_LEN,
                        hem_7361t::TIMESYNC_LEN as u8,
                    ),
                    Model::Hn300T2 => BTComm::read_eeprom(
                        hn_300t2::TIMESYNC_ADDR,
                        hn_300t2::TIMESYNC_LEN,
                        hn_300t2::TIMESYNC_LEN as u8,
                    ),
                };
                match step {
                    EepromReadStep::Page(rd) => Action::Cmd(rd.request()),
                    EepromReadStep::Done(_, _) => Action::Finished,
                }
            },
            Phase::TimeWrite => {
                let addr: u16 = match self.model {
                    Model::Hem7361T => hem_7361t::TIMESYNC_ADDR_WR,
                    Model::Hn300T2 => hn_300t2::TIMESYNC_ADDR,
                };
                let block = copy_range(self.block.as_slice(), 0, self.block.len());
                assert(block@ =~= self.block@);
                let len: u8 = block.len() as u8;
                let step = BTComm::write_eeprom(addr, block, len);
                match step {
                    EepromWriteStep::Page(wr) => {
                        assert(wr@.page() =~= self.block@);
                        Action::Cmd(wr.request())
                    },
                    EepromWriteStep::Done => Action::Finished,
                }
            },
            Phase::Slot(k) => {
                let addr = slot_address(self.model, k);
                let step = BTComm::read_eeprom(addr, 0x10, 0x10);
                match step {
                    EepromReadStep::Page(rd) => Action::Cmd(rd.request()),
                    EepromReadStep::Done(_, _) => Action::Finished,
                }
            },
            Phase::EndTrans => Action::Cmd(BTComm::end_trans()),
            Phase::Finished => Action::Finished,
        }
    }
}

impl Session {
    /// The session in its next phase.
    fn advance(self) -> (next: Session)
        requires
            self.wf(),
            phase_after(self@.model, self@.task, self@.phase) != Phase::TimeWrite,
        ensures
            next.wf(),
            next@ == advance(self@),
    {
        let phase = next_phase(self.model, self.task, self.phase);
        Session {
            model: self.model,
            task: self.task,
            phase,
            secret: self.secret,
            block: self.block,
            records: self.records,
        }
    }

    /// The session after the answer `frame` to a message about the key.
    fn key_answer(self, first: u8, frame: &[u8]) -> (res: Result<Session, Error>)
        requires
            self.wf(),
            self@.phase == Phase::Probe || self@.phase == Phase::Key || self@.phase
                == Phase::Unlock,
        ensures
            session_result_view(res) == key_answer(self@, first, frame@),
            res matches Ok(next) ==> next.wf(),
    {
        let comm = BTComm::new(1, 1, hem_7361t::CMD_CHUNK_SIZE);
        let rx = comm.raw(frame, 2)?;
        if rx[0] != first | KEY_RESPONSE || rx[1] != 0 {
            return Err(Error::ProtocolViolation);
        }
        Ok(self.advance())
    }

    /// The session goes on to write the clock.
    fn enter_time_write(self, read: &[u8], now: Option<Current>) -> (res: Result<Session, Error>)
        requires
            self.wf(),
            self@.model == Model::Hem7361T ==> read@.len() == hem_7361t::TIMESYNC_LEN,
        ensures
            session_result_view(res) == enter_time_write(self@, read@, now),
            res matches Ok(next) ==> next.wf(),
    {
        let current = match now {
            Some(current) => current,
            None => {
                return Err(Error::Clock);
            },
        };
        if current.year < YEAR || current.year > YEAR_MAX {
            return Err(Error::Clock);
        }
        let block = match self.model {
            Model::Hem7361T => hem_7361t::sync_time(read, &current),
            Model::Hn300T2 => hn_300t2::sync_time(&current),
        };
        Ok(
            Session {
                model: self.model,
                task: self.task,
                phase: Phase::TimeWrite,
                secret: self.secret,
                block,
                records: self.records,
            },
        )
    }

    /// What the populated slot `k` with the bytes `page` yields.
    fn slot_yield(model: Model, k: usize, page: &[u8], tz: &Tz) -> (res: Result<
        Option<DbRecord>,
        Error,
    >)
        requires
            k < slot_count(model),
            page@.len() == 0x10,
        ensures
            hn_300t2::slot_result_view(res) == slot_yield(model, k as nat, page@, *tz),
            res matches Ok(Some(r)) ==> r.wf(),
    {
        match model {
            Model::Hem7361T => {
                let v = hem_7361t::decode(page);
                proof {
                    hem_7361t::lemma_decode_slot(page@);
                }
                let ts = TimeUtil::get_ts(tz, v.year, v.month, v.day, v.hour, v.min, v.sec);
                let user: usize = k / hem_7361t::REC_COUNT;
                match hem_7361t::make_record(user, page, ts) {
                    Ok(r) => Ok(Some(r)),
                    Err(e) => Err(e),
                }
            },
            Model::Hn300T2 => match hn_300t2::decode(page) {
                None => Ok(None),
                Some(w) => {
                    let ts = TimeUtil::get_ts(tz, w.year, w.month, w.day, w.hour, w.min, w.sec);
                    hn_300t2::make_record(page, ts)
                },
            },
        }
    }

    /// Takes the outcome `event` of the action of the phase. `now` is what
    /// the clocks of the time zone `tz` show.
    pub fn step_at(self, tz: &Tz, event: Event, now: Option<Current>) -> (res: Result<
        Session,
        Error,
    >)
        requires
            self.wf(),
        ensures
            session_result_view(res) == session_step(self@, *tz, event@, now),
            res matches Ok(next) ==> next.wf(),
    {
        match (self.phase, event) {
            (Phase::Resolve, Event::Done) => Ok(self.advance()),
            (Phase::Paired, Event::Paired(bonded)) => match self.task {
                Task::Pair => if bonded {
                    Err(Error::AlreadyPaired)
                } else {
                    Ok(self.advance())
                },
                Task::Fetch => if bonded {
                    Ok(self.advance())
                } else {
                    Err(Error::NotPaired)
                },
            },
            (Phase::Advert, Event::Done) => Ok(self.advance()),
            (Phase::Connect, Event::Done) => Ok(self.advance()),
            (Phase::Identify, Event::Info(info)) => {
                check_device(self.model, &info)?;
                Ok(self.advance())
            },
            (Phase::Bond, Event::Done) => Ok(self.advance()),
            (Phase::Probe, Event::Frame(frame)) => self.key_answer(KEY_PROBE, frame.as_slice()),
            (Phase::Key, Event::Frame(frame)) => self.key_answer(KEY_SET, frame.as_slice()),
            (Phase::Unlock, Event::Frame(frame)) => self.key_answer(KEY_UNLOCK, frame.as_slice()),
            (Phase::StartTrans, Event::Resp(resp)) => {
                BTComm::start_trans_resp(&resp)?;
                Ok(self.advance())
            },
            (Phase::TimeRead, Event::Resp(resp)) => {
                let start = match self.model {
                    Model::Hem7361T => BTComm::read_eeprom(
                        hem_7361t::TIMESYNC_ADDR_RD,
                        hem_7361t::TIMESYNC_LEN,
                        hem_7361t::TIMESYNC_LEN as u8,
                    ),
                    Model::Hn300T2 => BTComm::read_eeprom(
                        hn_300t2::TIMESYNC_ADDR,
                        hn_300t2::TIMESYNC_LEN,
                        hn_300t2::TIMESYNC_LEN as u8,
                    ),
                };
                let rd = match start {
                    EepromReadStep::Page(rd) => rd,
                    EepromReadStep::Done(_, _) => {
                        return Err(Error::ProtocolViolation);
                    },
                };
                match rd.response(&resp)? {
                    EepromReadStep::Done(page, true) => {
                        assert(page@.len() == time_len(self@.model));
                        self.enter_time_write(page.as_slice(), now)
                    },
                    _ => Err(Error::ProtocolViolation),
                }
            },
            (Phase::TimeWrite, Event::Resp(resp)) => {
                let addr: u16 = match self.model {
                    Model::Hem7361T => hem_7361t::TIMESYNC_ADDR_WR,
                    Model::Hn300T2 => hn_300t2::TIMESYNC_ADDR,
                };
                let block = copy_range(self.block.as_slice(), 0, self.block.len());
                let len: u8 = block.len() as u8;
                let wr = match BTComm::write_eeprom(addr, block, len) {
                    EepromWriteStep::Page(wr) => wr,
                    EepromWriteStep::Done => {
                        return Err(Error::ProtocolViolation);
                    },
                };
                wr.response(&resp)?;
                Ok(self.advance())
            },
            (Phase::Slot(k), Event::Resp(resp)) => {
                let addr = slot_address(self.model, k);
                let rd = match BTComm::read_eeprom(addr, 0x10, 0x10) {
                    EepromReadStep::Page(rd) => rd,
                    EepromReadStep::Done(_, _) => {
                        return Err(Error::ProtocolViolation);
                    },
                };
                match rd.response(&resp)? {
                    EepromReadStep::Done(page, true) => {
                        assert(page@.len() == 0x10);
                        match Self::slot_yield(self.model, k, page.as_slice(), tz)? {
                            Some(r) => {
                                let ghost before = self@;
                                let mut session = self;
                                session.records.push(r);
                                assert(session@.records =~= before.records.push(r@));
                                Ok(session.advance())
                            },
                            None => Ok(self.advance()),
                        }
                    },
                    _ => Ok(self.advance()),
                }
            },
            (Phase::EndTrans, Event::Resp(resp)) => {
                BTComm::end_trans_resp(&resp)?;
                Ok(self.advance())
            },
            _ => Err(Error::ProtocolViolation),
        }
    }

    /// Takes the outcome `event` of the action of the phase. Where the
    /// clock block is made, the clock is read in the time zone `tz`.
    pub fn step(self, tz: &Tz, event: Event) -> (res: Result<Session, Error>)
        requires
            self.wf(),
        ensures
            exists|now: Option<Current>|
                session_result_view(res) == #[trigger] session_step(self@, *tz, event@, now),
            res matches Ok(next) ==> next.wf(),
    {
        let now = match self.phase {
            Phase::TimeRead => TimeUtil::get_current(tz),
            _ => None,
        };
        self.step_at(tz, event, now)
    }
}

} // verus!
