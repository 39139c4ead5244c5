//! Omron HEM-7361T, a blood pressure monitor for two users.

use tzfile::Tz;
use vstd::prelude::*;

use crate::btutil::{BTAddress, BTDeviceInfo, Error};
use crate::driver::omron::btcomm::BTCommLink;
use crate::driver::omron::session::{check_device, Model, Phase, Session, SessionView, Task};
use crate::db::{lemma_put_fresh, record_result_view, DbFieldValue, DbRecord, DbRecordView};
use crate::driver::omron::timesync::{block_sum, sum_bytes, YEAR, YEAR_MAX};
use crate::timeutil::Current;

verus! {

pub const MANUFACTURER: &'static str = "OMRONHEALTHCARE";

pub const MODEL: &'static str = "M7 Intelli IT";

/// Frames of the main link carry 16 bytes.
pub const CMD_CHUNK_SIZE: usize = 0x10;

pub const SECRET_LEN: usize = 0x10;

/// Where the clock block is read.
pub const TIMESYNC_ADDR_RD: u16 = 0x003c;

/// Where the clock block is written.
pub const TIMESYNC_ADDR_WR: u16 = 0x0080;

pub const TIMESYNC_LEN: usize = 0x10;

/// Where the measurements of the first user start.
pub const REC_START_USER1: u16 = 0x0098;

/// Where the measurements of the second user start.
pub const REC_START_USER2: u16 = 0x06d8;

pub const REC_USERS: usize = 2;

/// Slots per user.
pub const REC_COUNT: usize = 100;

/// Bytes per slot.
pub const REC_LEN: usize = 0x10;

/// One blood pressure measurement as a slot of the device stores it.
#[derive(Clone, Copy, Debug, PartialEq, Eq, Structural)]
pub struct Vitals {
    pub year: u16,
    pub month: u8,
    pub day: u8,
    pub hour: u8,
    pub min: u8,
    pub sec: u8,
    /// Pulse, in beats per minute.
    pub bpm: u8,
    /// Diastolic pressure, in mmHg.
    pub dia: u8,
    /// Systolic pressure, in mmHg.
    pub sys: u16,
    /// The user moved during the measurement.
    pub mov: bool,
    /// The heartbeat was irregular.
    pub ihb: bool,
}

/// The measurement in the slot `d`.
///
/// Byte 0 is the systolic pressure less 25, byte 1 the diastolic pressure,
/// byte 2 the pulse. The low six bits of byte 3 are the years since 2000.
/// Byte 4 holds the hour in its low five bits and the low three bits of the
/// day above them. Byte 5 holds the high two bits of the day in its low two
/// bits, the month in the four bits above them, then the flag for an
/// irregular heartbeat and, in the top bit, the flag for movement. Byte 6
/// holds the second in its low six bits and the low two bits of the minute
/// above them; the low four bits of byte 7 are the high bits of the minute.
pub open spec fn decode_slot(d: Seq<u8>) -> Vitals
    recommends
        d.len() >= 8,
{
    Vitals {
        year: (YEAR + (d[3] & 0x3f)) as u16,
        month: (d[5] >> 2) & 0x0f,
        day: ((d[4] >> 5) & 0x07) | ((d[5] & 0x03) << 3),
        hour: d[4] & 0x1f,
        min: ((d[6] >> 6) & 0x03) | ((d[7] & 0x0f) << 2),
        sec: d[6] & 0x3f,
        bpm: d[2],
        dia: d[1],
        sys: (25 + d[0]) as u16,
        mov: (d[5] >> 7) & 0x01 == 0x01,
        ihb: (d[5] >> 6) & 0x01 == 0x01,
    }
}

/// The fields of a decoded slot as numbers: what the bits of `decode_slot`
/// amount to.
pub proof fn lemma_decode_slot(d: Seq<u8>)
    requires
        d.len() >= 8,
    ensures
        decode_slot(d).year == 2000 + d[3] % 64,
        decode_slot(d).month == (d[5] / 4) % 16,
        decode_slot(d).day == d[4] / 32 + (d[5] % 4) * 8,
        decode_slot(d).hour == d[4] % 32,
        decode_slot(d).min == d[6] / 64 + (d[7] % 16) * 4,
        decode_slot(d).sec == d[6] % 64,
        decode_slot(d).sys == 25 + d[0],
        decode_slot(d).mov == (d[5] >= 128),
        decode_slot(d).ihb == ((d[5] / 64) % 2 == 1),
{
    let b3 = d[3];
    let b4 = d[4];
    let b5 = d[5];
    let b6 = d[6];
    let b7 = d[7];
    assert(b3 & 0x3f == b3 % 64) by (bit_vector);
    assert((b5 >> 2) & 0x0f == (b5 / 4) % 16) by (bit_vector);
    assert(((b4 >> 5) & 0x07) | ((b5 & 0x03) << 3) == b4 / 32 + (b5 % 4) * 8) by (bit_vector);
    assert(b4 & 0x1f == b4 % 32) by (bit_vector);
    assert(((b6 >> 6) & 0x03) | ((b7 & 0x0f) << 2) == b6 / 64 + (b7 % 16) * 4) by (bit_vector);
    assert(b6 & 0x3f == b6 % 64) by (bit_vector);
    assert(((b5 >> 7) & 0x01 == 0x01) == (b5 >= 128)) by (bit_vector);
    assert(((b5 >> 6) & 0x01 == 0x01) == ((b5 / 64) % 2 == 1)) by (bit_vector);
}

/// The clock block to write: the block `read` from the device with the
/// years since 2000 at offset 8, month, day, hour, minute and second after
/// it, the sum of the first 14 bytes at offset 14, and zero at the end.
pub open spec fn time_block(read: Seq<u8>, c: Current) -> Seq<u8>
    recommends
        read.len() == TIMESYNC_LEN,
        YEAR <= c.year <= YEAR_MAX,
{
    let head = read.take(8) + seq![(c.year - YEAR) as u8, c.month, c.day, c.hour, c.min, c.sec];
    head + seq![block_sum(head), 0x00u8]
}

/// Decodes the slot `data`.
pub fn decode(data: &[u8]) -> (v: Vitals)
    requires
        data@.len() >= 8,
    ensures
        v == decode_slot(data@),
{
    let b3: u8 = data[3];
    assert(b3 & 0x3f <= 0x3f) by (bit_vector);
    Vitals {
        year: YEAR + (data[3] & 0x3f) as u16,
        month: (data[5] >> 2) & 0x0f,
        day: ((data[4] >> 5) & 0x07) | ((data[5] & 0x03) << 3),
        hour: data[4] & 0x1f,
        min: ((data[6] >> 6) & 0x03) | ((data[7] & 0x0f) << 2),
        sec: data[6] & 0x3f,
        bpm: data[2],
        dia: data[1],
        sys: 25 + data[0] as u16,
        mov: (data[5] >> 7) & 0x01 == 0x01,
        ihb: (data[5] >> 6) & 0x01 == 0x01,
    }
}

/// Builds the clock block for the time `current` from the block that was
/// read from the device.
pub fn sync_time(read: &[u8], current: &Current) -> (block: Vec<u8>)
    requires
        read@.len() == TIMESYNC_LEN,
        YEAR <= current.year <= YEAR_MAX,
    ensures
        block@ == time_block(read@, *current),
        block@.len() == TIMESYNC_LEN,
{
    let mut block: Vec<u8> = Vec::new();
    let mut i: usize = 0;
    while i < 8
        invariant
            i <= 8,
            read@.len() == TIMESYNC_LEN,
            block@ == read@.take(i as int),
        decreases 8 - i,
    {
        block.push(read[i]);
        assert(block@ =~= read@.take(i + 1));
        i += 1;
    }
    block.push((current.year - YEAR) as u8);
    block.push(current.month);
    block.push(current.day);
    block.push(current.hour);
    block.push(current.min);
    block.push(current.sec);
    let ghost head = read@.take(8) + seq![
        (current.year - YEAR) as u8,
        current.month,
        current.day,
        current.hour,
        current.min,
        current.sec,
    ];
    assert(block@ =~= head);
    let sum = sum_bytes(block.as_slice(), 14);
    assert(block@.take(14) =~= head);
    block.push(sum);
    block.push(0x00);
    assert(block@ =~= time_block(read@, *current));
    block
}

/// The tag of a user: users are counted from one.
pub open spec fn user_tag(user: nat) -> Seq<char> {
    if user == 0 {
        "1"@
    } else {
        "2"@
    }
}

/// The record of the measurement `v` of the user `user`, taken at `ts`.
pub open spec fn record_view(user: nat, v: Vitals, ts: i64) -> DbRecordView {
    DbRecordView {
        ts,
        tags: seq![("user"@, user_tag(user))],
        fields: seq![
            ("bpm"@, DbFieldValue::Integer(v.bpm as i64)),
            ("dia"@, DbFieldValue::Integer(v.dia as i64)),
            ("sys"@, DbFieldValue::Integer(v.sys as i64)),
            ("mov"@, DbFieldValue::Bool(v.mov)),
            ("ihb"@, DbFieldValue::Bool(v.ihb)),
        ],
    }
}

/// What a populated slot of the user `user` yields, given the instant `ts`
/// that its date and time stand for in the device's time zone: its record,
/// or a failure to decode where there is no such instant.
pub open spec fn slot_record(user: nat, d: Seq<u8>, ts: Option<i64>) -> Result<
    DbRecordView,
    Error,
> {
    match ts {
        Some(ts) => Ok(record_view(user, decode_slot(d), ts)),
        None => Err(Error::Decode),
    }
}

/// The record of the measurement `v` of the user `user`, taken at `ts`.
pub fn record(user: usize, v: &Vitals, ts: i64) -> (r: DbRecord)
    requires
        user < REC_USERS,
    ensures
        r.wf(),
        r@ == record_view(user as nat, *v, ts),
{
    proof {
        reveal_strlit("bpm");
        reveal_strlit("dia");
        reveal_strlit("sys");
        reveal_strlit("mov");
        reveal_strlit("ihb");
    }
    let mut r = DbRecord::new(ts);
    let tag = if user == 0 {
        "1"
    } else {
        "2"
    };
    proof {
        lemma_put_fresh(r@.tags, "user"@, tag@);
    }
    r.add_tag("user", tag);
    let ghost f0 = r@.fields;
    let bpm = DbFieldValue::Integer(v.bpm as i64);
    proof {
        lemma_put_fresh(f0, "bpm"@, bpm);
    }
    r.add_field("bpm", bpm);
    let ghost f1 = r@.fields;
    let dia = DbFieldValue::Integer(v.dia as i64);
    proof {
        assert(f1[0].0[0] != "dia"@[0]);
        lemma_put_fresh(f1, "dia"@, dia);
    }
    r.add_field("dia", dia);
    let ghost f2 = r@.fields;
    let sys = DbFieldValue::Integer(v.sys as i64);
    proof {
        assert(f2[0].0[0] != "sys"@[0]);
        assert(f2[1].0[0] != "sys"@[0]);
        lemma_put_fresh(f2, "sys"@, sys);
    }
    r.add_field("sys", sys);
    let ghost f3 = r@.fields;
    let mov = DbFieldValue::Bool(v.mov);
    proof {
        assert(f3[0].0[0] != "mov"@[0]);
        assert(f3[1].0[0] != "mov"@[0]);
        assert(f3[2].0[0] != "mov"@[0]);
        lemma_put_fresh(f3, "mov"@, mov);
    }
    r.add_field("mov", mov);
    let ghost f4 = r@.fields;
    let ihb = DbFieldValue::Bool(v.ihb);
    proof {
        assert(f4[0].0[0] != "ihb"@[0]);
        assert(f4[1].0[0] != "ihb"@[0]);
        assert(f4[2].0[0] != "ihb"@[0]);
        assert(f4[3].0[0] != "ihb"@[0]);
        lemma_put_fresh(f4, "ihb"@, ihb);
    }
    r.add_field("ihb", ihb);
    assert(r@.tags =~= record_view(user as nat, *v, ts).tags);
    assert(r@.fields =~= record_view(user as nat, *v, ts).fields);
    r
}

/// The record of the populated slot `data` of the user `user`, given the
/// instant that its date and time stand for.
pub fn make_record(user: usize, data: &[u8], ts: Option<i64>) -> (res: Result<DbRecord, Error>)
    requires
        user < REC_USERS,
        data@.len() >= 8,
    ensures
        res matches Ok(r) ==> r.wf(),
        record_result_view(res) == slot_record(user as nat, data@, ts),
{
    match ts {
        Some(ts) => {
            let v = decode(data);
            Ok(record(user, &v, ts))
        },
        None => Err(Error::Decode),
    }
}

/// The service of the device, and the characteristic that takes the key.
pub const MAIN_SERVICE: u128 = 0xecbe3980_c9a2_11e1_b1bd_0002a5d5c51b;

pub const UNLOCK_CHAR: u128 = 0xb305b680_aee7_11e1_a730_0002a5d5c51b;

/// The four characteristics that commands are written to, in order.
pub const TX_CHAR_0: u128 = 0xdb5b55e0_aee7_11e1_965e_0002a5d5c51b;

pub const TX_CHAR_1: u128 = 0xe0b8a060_aee7_11e1_92f4_0002a5d5c51b;

pub const TX_CHAR_2: u128 = 0x0ae12b00_aee8_11e1_a192_0002a5d5c51b;

pub const TX_CHAR_3: u128 = 0x10e1ba60_aee8_11e1_89e5_0002a5d5c51b;

/// The four characteristics that responses arrive on, in order.
pub const RX_CHAR_0: u128 = 0x49123040_aee8_11e1_a74d_0002a5d5c51b;

pub const RX_CHAR_1: u128 = 0x4d0bf320_aee8_11e1_a0d9_0002a5d5c51b;

pub const RX_CHAR_2: u128 = 0x5128ce60_aee8_11e1_b84b_0002a5d5c51b;

pub const RX_CHAR_3: u128 = 0x560f1420_aee8_11e1_8184_0002a5d5c51b;

/// What is configured of a device: its address, its key and its time zone.
pub struct Config {
    pub addr: BTAddress,
    pub secret: [u8; 16],
    pub tz: Tz,
}

/// The driver of one device.
pub struct DriverImpl {
    id: String,
    config: Config,
}

impl View for DriverImpl {
    type V = Config;

    closed spec fn view(&self) -> Config {
        self.config
    }
}

impl DriverImpl {
    pub fn new(id: &str, config: Config) -> (driver: DriverImpl)
        ensures
            driver@ == config,
            driver.spec_id() == id@,
    {
        DriverImpl { id: id.to_owned(), config }
    }

    /// The identifier of the device.
    pub closed spec fn spec_id(&self) -> Seq<char> {
        self.id@
    }

    /// The identifier of the device.
    pub fn id(&self) -> (id: &str)
        ensures
            id@ == self.spec_id(),
    {
        self.id.as_str()
    }

    /// The address of the device.
    pub fn addr(&self) -> (addr: BTAddress)
        ensures
            addr == self@.addr,
    {
        self.config.addr
    }

    /// The time zone of the device.
    pub fn tz(&self) -> (tz: &Tz)
        ensures
            *tz == self@.tz,
    {
        &self.config.tz
    }

    /// The key of the device.
    fn secret(&self) -> (secret: Vec<u8>)
        ensures
            secret@ == self@.secret@,
    {
        let mut secret: Vec<u8> = Vec::new();
        let mut i: usize = 0;
        while i < SECRET_LEN
            invariant
                i <= SECRET_LEN,
                secret@ == self@.secret@.take(i as int),
            decreases SECRET_LEN - i,
        {
            secret.push(self.config.secret[i]);
            assert(secret@ =~= self@.secret@.take(i + 1));
            i += 1;
        }
        assert(self@.secret@.take(SECRET_LEN as int) =~= self@.secret@);
        secret
    }

    /// The link that takes the key: one characteristic, written and read.
    pub fn unlock_link() -> (link: BTCommLink)
        ensures
            link.service == MAIN_SERVICE,
            link.tx_chars@ == seq![UNLOCK_CHAR],
            link.rx_chars@ == seq![UNLOCK_CHAR],
            link.cmd_chunk_size == CMD_CHUNK_SIZE,
    {
        let mut tx_chars: Vec<u128> = Vec::new();
        tx_chars.push(UNLOCK_CHAR);
        let mut rx_chars: Vec<u128> = Vec::new();
        rx_chars.push(UNLOCK_CHAR);
        assert(tx_chars@ =~= seq![UNLOCK_CHAR]);
        assert(rx_chars@ =~= seq![UNLOCK_CHAR]);
        BTCommLink { service: MAIN_SERVICE, tx_chars, rx_chars, cmd_chunk_size: CMD_CHUNK_SIZE }
    }

    /// The link that carries commands: four characteristics each way.
    pub fn main_link() -> (link: BTCommLink)
        ensures
            link.service == MAIN_SERVICE,
            link.tx_chars@ == seq![TX_CHAR_0, TX_CHAR_1, TX_CHAR_2, TX_CHAR_3],
            link.rx_chars@ == seq![RX_CHAR_0, RX_CHAR_1, RX_CHAR_2, RX_CHAR_3],
            link.cmd_chunk_size == CMD_CHUNK_SIZE,
    {
        let mut tx_chars: Vec<u128> = Vec::new();
        tx_chars.push(TX_CHAR_0);
        tx_chars.push(TX_CHAR_1);
        tx_chars.push(TX_CHAR_2);
        tx_chars.push(TX_CHAR_3);
        let mut rx_chars: Vec<u128> = Vec::new();
        rx_chars.push(RX_CHAR_0);
        rx_chars.push(RX_CHAR_1);
        rx_chars.push(RX_CHAR_2);
        rx_chars.push(RX_CHAR_3);
        assert(tx_chars@ =~= seq![TX_CHAR_0, TX_CHAR_1, TX_CHAR_2, TX_CHAR_3]);
        assert(rx_chars@ =~= seq![RX_CHAR_0, RX_CHAR_1, RX_CHAR_2, RX_CHAR_3]);
        BTCommLink { service: MAIN_SERVICE, tx_chars, rx_chars, cmd_chunk_size: CMD_CHUNK_SIZE }
    }

    /// Starts pairing the device.
    pub fn pair(&self) -> (session: Session)
        ensures
            session.wf(),
            session@ == (SessionView {
                model: Model::Hem7361T,
                task: Task::Pair,
                phase: Phase::Resolve,
                secret: self@.secret@,
                block: Seq::empty(),
                records: Seq::empty(),
            }),
    {
        Session::new(Model::Hem7361T, Task::Pair, self.secret())
    }

    /// Starts fetching the measurements of the device.
    pub fn get_records(&self) -> (session: Session)
        ensures
            session.wf(),
            session@ == (SessionView {
                model: Model::Hem7361T,
                task: Task::Fetch,
                phase: Phase::Resolve,
                secret: self@.secret@,
                block: Seq::empty(),
                records: Seq::empty(),
            }),
    {
        Session::new(Model::Hem7361T, Task::Fetch, self.secret())
    }

    /// Whether the device information is that of a device of this model.
    pub fn check_device(&self, info: &BTDeviceInfo) -> (res: Result<(), Error>)
        ensures
            res == if info.manufacturer@ == MANUFACTURER@ && info.model@ == MODEL@ {
                Ok::<(), Error>(())
            } else {
                Err(Error::UnknownDevice)
            },
    {
        check_device(Model::Hem7361T, info)
    }
}

} // verus!
