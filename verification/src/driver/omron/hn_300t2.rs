//! Omron HN-300T2, a scale.

use tzfile::Tz;
use vstd::prelude::*;

use crate::btutil::{BTAddress, BTDeviceInfo, Error};
use crate::driver::omron::btcomm::BTCommLink;
use crate::driver::omron::session::{check_device, Model, Phase, Session, SessionView, Task};
use crate::db::{lemma_put_fresh, record_result_view, DbFieldValue, DbRecord, DbRecordView};
use crate::driver::omron::btcomm::opcode_of;
use crate::driver::omron::timesync::{block_sum, sum_bytes, YEAR, YEAR_MAX};
use crate::timeutil::Current;

verus! {

pub const MANUFACTURER: &'static str = "OMRONHEALTHCARE";

pub const MODEL: &'static str = "HN300T2IntelliIT";

/// Frames are long enough for every packet: commands are not split.
pub const CMD_CHUNK_SIZE: usize = 0xff;

/// Where the clock block is read and written.
pub const TIMESYNC_ADDR: u16 = 0x0248;

pub const TIMESYNC_LEN: usize = 0x08;

/// Where the measurements start.
pub const REC_START: u16 = 0x02c0;

/// Number of slots.
pub const REC_COUNT: usize = 30;

/// Bytes per slot.
pub const REC_LEN: usize = 0x10;

/// The weight that marks a slot without a measurement.
pub const NO_WEIGHT: u16 = 0xffff;

/// One weighing as a slot of the device stores it.
#[derive(Clone, Copy, Debug, PartialEq, Eq, Structural)]
pub struct Weighing {
    /// The weight in units of 50 g.
    pub raw: u16,
    pub year: u16,
    pub month: u8,
    pub day: u8,
    pub hour: u8,
    pub min: u8,
    pub sec: u8,
}

impl Weighing {
    /// The weight in hundredths of a kilogram.
    pub open spec fn centi_kg(self) -> i64 {
        (self.raw * 5) as i64
    }
}

/// The weighing in the slot `d`; none if the slot holds the mark for "no
/// measurement".
///
/// Bytes 0 and 1 are the weight, high byte first, in units of 50 g. Byte 2
/// is the years since 2000; month, day, hour, minute and second follow.
pub open spec fn decode_slot(d: Seq<u8>) -> Option<Weighing>
    recommends
        d.len() >= 8,
{
    let raw = opcode_of(d[0], d[1]);
    if raw == NO_WEIGHT {
        None
    } else {
        Some(
            Weighing {
                raw,
                year: (YEAR + d[2]) as u16,
                month: d[3],
                day: d[4],
                hour: d[5],
                min: d[6],
                sec: d[7],
            },
        )
    }
}

/// The weight of a slot as a number, and when a slot holds the mark.
pub proof fn lemma_decode_slot(d: Seq<u8>)
    requires
        d.len() >= 8,
    ensures
        opcode_of(d[0], d[1]) == d[0] * 256 + d[1],
        decode_slot(d) is None <==> d[0] == 0xff && d[1] == 0xff,
{
    let hi = d[0];
    let lo = d[1];
    assert((hi as u16) << 8 | (lo as u16) == hi * 256 + lo) by (bit_vector);
}

/// The record of the weighing `w`, taken at `ts`.
pub open spec fn record_view(w: Weighing, ts: i64) -> DbRecordView {
    DbRecordView {
        ts,
        tags: Seq::empty(),
        fields: seq![("weight"@, DbFieldValue::Decimal(w.centi_kg()))],
    }
}

/// What a populated slot yields, given the instant `ts` that its date and
/// time stand for in the device's time zone: nothing if it holds the mark
/// for "no measurement", else its record, or a failure to decode where
/// there is no such instant.
pub open spec fn slot_record(d: Seq<u8>, ts: Option<i64>) -> Result<Option<DbRecordView>, Error> {
    match decode_slot(d) {
        None => Ok(None),
        Some(w) => match ts {
            Some(ts) => Ok(Some(record_view(w, ts))),
            None => Err(Error::Decode),
        },
    }
}

/// A slot that starts with the mark for "no measurement" yields no record,
/// whatever else it holds and whatever its date stands for. Any other slot
/// yields a record whose weight is a twentieth of a kilogram for each unit,
/// if its date stands for an instant.
pub proof fn lemma_slot_record(d: Seq<u8>, ts: Option<i64>)
    requires
        d.len() >= 8,
    ensures
        d[0] == 0xff && d[1] == 0xff ==> slot_record(d, ts) == Ok::<Option<DbRecordView>, Error>(
            None,
        ),
        !(d[0] == 0xff && d[1] == 0xff) && ts is Some ==> {
            &&& slot_record(d, ts) matches Ok(Some(r))
            &&& r.ts == ts->0
            &&& r.fields == seq![
                ("weight"@, DbFieldValue::Decimal(((d[0] * 256 + d[1]) * 5) as i64)),
            ]
        },
        !(d[0] == 0xff && d[1] == 0xff) && ts is None ==> slot_record(d, ts) == Err::<
            Option<DbRecordView>,
            Error,
        >(Error::Decode),
{
    lemma_decode_slot(d);
}

/// The clock block to write: the years since 2000, month, day, hour, minute
/// and second, the sum of these six bytes, and 0xff at the end. Every byte
/// of the block is set, so nothing of the block that was read stays.
pub open spec fn time_block(c: Current) -> Seq<u8>
    recommends
        YEAR <= c.year <= YEAR_MAX,
{
    let head = seq![(c.year - YEAR) as u8, c.month, c.day, c.hour, c.min, c.sec];
    head + seq![block_sum(head), 0xffu8]
}

/// Decodes the slot `data`.
pub fn decode(data: &[u8]) -> (w: Option<Weighing>)
    requires
        data@.len() >= 8,
    ensures
        w == decode_slot(data@),
{
    let hi: u8 = data[0];
    let lo: u8 = data[1];
    let raw: u16 = (hi as u16) << 8 | (lo as u16);
    if raw == NO_WEIGHT {
        return None;
    }
    Some(
        Weighing {
            raw,
            year: YEAR + data[2] as u16,
            month: data[3],
            day: data[4],
            hour: data[5],
            min: data[6],
            sec: data[7],
        },
    )
}

/// The record of the weighing `w`, taken at `ts`.
pub fn record(w: &Weighing, ts: i64) -> (r: DbRecord)
    ensures
        r.wf(),
        r@ == record_view(*w, ts),
{
    let mut r = DbRecord::new(ts);
    let weight = DbFieldValue::Decimal(w.raw as i64 * 5);
    proof {
        lemma_put_fresh(r@.fields, "weight"@, weight);
    }
    r.add_field("weight", weight);
    assert(r@.fields =~= record_view(*w, ts).fields);
    r
}

/// The view of what a slot yields.
pub open spec fn slot_result_view(res: Result<Option<DbRecord>, Error>) -> Result<
    Option<DbRecordView>,
    Error,
> {
    match res {
        Ok(Some(r)) => Ok(Some(r@)),
        Ok(None) => Ok(None),
        Err(e) => Err(e),
    }
}

/// What the populated slot `data` yields, given the instant that its date
/// and time stand for.
pub fn make_record(data: &[u8], ts: Option<i64>) -> (res: Result<Option<DbRecord>, Error>)
    requires
        data@.len() >= 8,
    ensures
        res matches Ok(Some(r)) ==> r.wf(),
        slot_result_view(res) == slot_record(data@, ts),
{
    match decode(data) {
        None => Ok(None),
        Some(w) => match ts {
            Some(ts) => Ok(Some(record(&w, ts))),
            None => Err(Error::Decode),
        },
    }
}

/// Builds the clock block for the time `current`.
pub fn sync_time(current: &Current) -> (block: Vec<u8>)
    requires
        YEAR <= current.year <= YEAR_MAX,
    ensures
        block@ == time_block(*current),
        block@.len() == TIMESYNC_LEN,
{
    let mut block: Vec<u8> = Vec::new();
    block.push((current.year - YEAR) as u8);
    block.push(current.month);
    block.push(current.day);
    block.push(current.hour);
    block.push(current.min);
    block.push(current.sec);
    let ghost head = seq![
        (current.year - YEAR) as u8,
        current.month,
        current.day,
        current.hour,
        current.min,
        current.sec,
    ];
    assert(block@ =~= head);
    let sum = sum_bytes(block.as_slice(), 6);
    assert(block@.take(6) =~= head);
    block.push(sum);
    block.push(0xff);
    assert(block@ =~= time_block(*current));
    block
}

/// The service of the device.
pub const MAIN_SERVICE: u128 = 0x0000fe4a_0000_1000_8000_00805f9b34fb;

/// The characteristic that commands are written to.
pub const TX_CHAR: u128 = 0xdb5b55e0_aee7_11e1_965e_0002a5d5c51b;

/// The characteristic that responses arrive on.
pub const RX_CHAR: u128 = 0x49123040_aee8_11e1_a74d_0002a5d5c51b;

/// What is configured of a device: its address and its time zone.
pub struct Config {
    pub addr: BTAddress,
    pub tz: Tz,
}

/// The driver of one device.
pub struct DriverImpl {
    id: String,
    config: Config,
}

impl View for DriverImpl {
    type V = Config;

    closed spec fn view(&self) -> Config {
        self.config
    }
}

impl DriverImpl {
    pub fn new(id: &str, config: Config) -> (driver: DriverImpl)
        ensures
            driver@ == config,
            driver.spec_id() == id@,
    {
        DriverImpl { id: id.to_owned(), config }
    }

    /// The identifier of the device.
    pub closed spec fn spec_id(&self) -> Seq<char> {
        self.id@
    }

    /// The identifier of the device.
    pub fn id(&self) -> (id: &str)
        ensures
            id@ == self.spec_id(),
    {
        self.id.as_str()
    }

    /// The address of the device.
    pub fn addr(&self) -> (addr: BTAddress)
        ensures
            addr == self@.addr,
    {
        self.config.addr
    }

    /// The time zone of the device.
    pub fn tz(&self) -> (tz: &Tz)
        ensures
            *tz == self@.tz,
    {
        &self.config.tz
    }

    /// The link that carries commands: one characteristic each way.
    pub fn main_link() -> (link: BTCommLink)
        ensures
            link.service == MAIN_SERVICE,
            link.tx_chars@ == seq![TX_CHAR],
            link.rx_chars@ == seq![RX_CHAR],
            link.cmd_chunk_size == CMD_CHUNK_SIZE,
    {
        let mut tx_chars: Vec<u128> = Vec::new();
        tx_chars.push(TX_CHAR);
        let mut rx_chars: Vec<u128> = Vec::new();
        rx_chars.push(RX_CHAR);
        assert(tx_chars@ =~= seq![TX_CHAR]);
        assert(rx_chars@ =~= seq![RX_CHAR]);
        BTCommLink { service: MAIN_SERVICE, tx_chars, rx_chars, cmd_chunk_size: CMD_CHUNK_SIZE }
    }

    /// Starts pairing the device.
    pub fn pair(&self) -> (session: Session)
        ensures
            session.wf(),
            session@ == (SessionView {
                model: Model::Hn300T2,
                task: Task::Pair,
                phase: Phase::Resolve,
                secret: Seq::empty(),
                block: Seq::empty(),
                records: Seq::empty(),
            }),
    {
        Session::new(Model::Hn300T2, Task::Pair, Vec::new())
    }

    /// Starts fetching the measurements of the device.
    pub fn get_records(&self) -> (session: Session)
        ensures
            session.wf(),
            session@ == (SessionView {
                model: Model::Hn300T2,
                task: Task::Fetch,
                phase: Phase::Resolve,
                secret: Seq::empty(),
                block: Seq::empty(),
                records: Seq::empty(),
            }),
    {
        Session::new(Model::Hn300T2, Task::Fetch, Vec::new())
    }

    /// Whether the device information is that of a device of this model.
    pub fn check_device(&self, info: &BTDeviceInfo) -> (res: Result<(), Error>)
        ensures
            res == if info.manufacturer@ == MANUFACTURER@ && info.model@ == MODEL@ {
                Ok::<(), Error>(())
            } else {
                Err(Error::UnknownDevice)
            },
    {
        check_device(Model::Hn300T2, info)
    }
}

} // verus!
