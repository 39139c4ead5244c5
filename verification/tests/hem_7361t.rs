use omron_link::btutil::Error;
use omron_link::db::DbFieldValue;
use omron_link::driver::omron::hem_7361t::{decode, make_record, record, sync_time, Vitals};
use omron_link::timeutil::Current;

fn slot(head: [u8; 8]) -> Vec<u8> {
    let mut data = head.to_vec();
    data.extend_from_slice(&[0; 8]);
    data
}

#[test]
fn decode_worked_fixture() {
    let v = decode(&slot([75, 80, 72, 5, 0b0010_0101, 0b0001_1100, 0, 0]));
    assert_eq!(
        v,
        Vitals {
            year: 2005,
            month: 7,
            day: 1,
            hour: 5,
            min: 0,
            sec: 0,
            bpm: 72,
            dia: 80,
            sys: 100,
            mov: false,
            ihb: false,
        }
    );
}

#[test]
fn decode_year() {
    assert_eq!(decode(&slot([0, 0, 0, 0x3f, 0, 0, 0, 0])).year, 2063);
    assert_eq!(decode(&slot([0, 0, 0, 0xd8, 0, 0, 0, 0])).year, 2024);
    assert_eq!(decode(&slot([0, 0, 0, 0xc0, 0, 0, 0, 0])).year, 2000);
}

#[test]
fn decode_month() {
    let v = decode(&slot([0, 0, 0, 0, 0, 0b0011_0000, 0, 0]));
    assert_eq!((v.month, v.day, v.mov, v.ihb), (12, 0, false, false));
    assert_eq!(decode(&slot([0, 0, 0, 0, 0, 0b0011_1100, 0, 0])).month, 15);
}

#[test]
fn decode_day() {
    let v = decode(&slot([0, 0, 0, 0, 0b1110_0000, 0b0000_0011, 0, 0]));
    assert_eq!((v.day, v.hour, v.month), (31, 0, 0));
    assert_eq!(decode(&slot([0, 0, 0, 0, 0b0100_0000, 0b0000_0001, 0, 0])).day, 10);
}

#[test]
fn decode_hour() {
    let v = decode(&slot([0, 0, 0, 0, 0b0001_0111, 0, 0, 0]));
    assert_eq!((v.hour, v.day), (23, 0));
}

#[test]
fn decode_minute() {
    let v = decode(&slot([0, 0, 0, 0, 0, 0, 0b1100_0000, 0b0000_1110]));
    assert_eq!((v.min, v.sec), (59, 0));
    assert_eq!(decode(&slot([0, 0, 0, 0, 0, 0, 0b1100_0000, 0xff])).min, 63);
}

#[test]
fn decode_second() {
    let v = decode(&slot([0, 0, 0, 0, 0, 0, 0b0011_1011, 0]));
    assert_eq!((v.sec, v.min), (59, 0));
}

#[test]
fn decode_pressures_and_pulse() {
    let v = decode(&slot([95, 81, 64, 0, 0, 0, 0, 0]));
    assert_eq!((v.sys, v.dia, v.bpm), (120, 81, 64));
    assert_eq!(decode(&slot([255, 0, 0, 0, 0, 0, 0, 0])).sys, 280);
}

#[test]
fn decode_flags() {
    let v = decode(&slot([0, 0, 0, 0, 0, 0b1000_0000, 0, 0]));
    assert_eq!((v.mov, v.ihb, v.month), (true, false, 0));
    let v = decode(&slot([0, 0, 0, 0, 0, 0b0100_0000, 0, 0]));
    assert_eq!((v.mov, v.ihb, v.month), (false, true, 0));
}

#[test]
fn record_has_user_tag_and_fields() {
    let v = decode(&slot([75, 80, 72, 5, 0b0010_0101, 0b1101_1100, 0, 0]));
    let r = record(1, &v, 1_120_194_000_000_000_000);
    assert_eq!(r.ts(), 1_120_194_000_000_000_000);
    assert_eq!(r.tag_count(), 1);
    assert_eq!(r.tag("user"), Some("2"));
    assert_eq!(r.field_count(), 5);
    assert_eq!(r.field("bpm"), Some(DbFieldValue::Integer(72)));
    assert_eq!(r.field("dia"), Some(DbFieldValue::Integer(80)));
    assert_eq!(r.field("sys"), Some(DbFieldValue::Integer(100)));
    assert_eq!(r.field("mov"), Some(DbFieldValue::Bool(true)));
    assert_eq!(r.field("ihb"), Some(DbFieldValue::Bool(true)));
    assert_eq!(record(0, &v, 0).tag("user"), Some("1"));
}

#[test]
fn vitals_record_needs_an_instant() {
    let data = slot([75, 80, 72, 5, 0b0010_0101, 0b0001_1100, 0, 0]);
    assert_eq!(make_record(0, &data, None).err(), Some(Error::Decode));
    let r = make_record(0, &data, Some(42)).unwrap();
    assert_eq!(r.ts(), 42);
    assert_eq!(r.field("sys"), Some(DbFieldValue::Integer(100)));
}

#[test]
fn vitals_clock_block() {
    let read: Vec<u8> = (1..=16).collect();
    let now = Current { year: 2024, month: 2, day: 29, hour: 23, min: 59, sec: 58 };
    let block = sync_time(&read, &now);
    assert_eq!(
        block,
        vec![1, 2, 3, 4, 5, 6, 7, 8, 24, 2, 29, 23, 59, 58, 231, 0]
    );
}

#[test]
fn vitals_clock_block_sum_wraps() {
    let read = vec![0xff; 16];
    let now = Current { year: 2255, month: 12, day: 31, hour: 23, min: 59, sec: 59 };
    let block = sync_time(&read, &now);
    let sum: u32 = 8 * 255 + 255 + 12 + 31 + 23 + 59 + 59;
    assert_eq!(block[8], 255);
    assert_eq!(block[14], (sum % 256) as u8);
    assert_eq!(block[15], 0);
}
