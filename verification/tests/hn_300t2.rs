use omron_link::btutil::Error;
use omron_link::db::DbFieldValue;
use omron_link::driver::omron::hn_300t2::{decode, make_record, record, sync_time, Weighing};
use omron_link::timeutil::Current;

fn slot(head: [u8; 8]) -> Vec<u8> {
    let mut data = head.to_vec();
    data.extend_from_slice(&[0; 8]);
    data
}

fn kg(value: DbFieldValue) -> f64 {
    match value {
        DbFieldValue::Decimal(hundredths) => hundredths as f64 / 100.0,
        _ => panic!("not a decimal"),
    }
}

#[test]
fn decode_slot_fields() {
    let w = decode(&slot([0x05, 0x1b, 24, 1, 2, 3, 4, 5]));
    assert_eq!(
        w,
        Some(Weighing { raw: 0x051b, year: 2024, month: 1, day: 2, hour: 3, min: 4, sec: 5 })
    );
    assert_eq!(decode(&slot([0, 0, 255, 0, 0, 0, 0, 0])).unwrap().year, 2255);
}

#[test]
fn sentinel_weight_is_no_measurement() {
    assert_eq!(decode(&slot([0xff, 0xff, 24, 1, 2, 3, 4, 5])), None);
    assert!(make_record(&slot([0xff, 0xff, 24, 1, 2, 3, 4, 5]), Some(1)).unwrap().is_none());
    assert!(make_record(&slot([0xff, 0xff, 24, 1, 2, 3, 4, 5]), None).unwrap().is_none());
    assert!(decode(&slot([0xff, 0xfe, 24, 1, 2, 3, 4, 5])).is_some());
    assert!(decode(&slot([0xfe, 0xff, 24, 1, 2, 3, 4, 5])).is_some());
}

#[test]
fn weight_of_one_hundred_units_is_five_kg() {
    let r = make_record(&slot([0x00, 0x64, 24, 1, 2, 3, 4, 5]), Some(7)).unwrap().unwrap();
    assert_eq!(r.ts(), 7);
    assert_eq!(r.tag_count(), 0);
    assert_eq!(r.field_count(), 1);
    assert_eq!(r.field("weight"), Some(DbFieldValue::Decimal(500)));
    assert_eq!(kg(r.field("weight").unwrap()), 5.0);
}

#[test]
fn weight_in_steps_of_fifty_grams() {
    let w = decode(&slot([0x05, 0x1b, 24, 1, 2, 3, 4, 5])).unwrap();
    let r = record(&w, 0);
    assert_eq!(r.field("weight"), Some(DbFieldValue::Decimal(6535)));
    assert_eq!(kg(r.field("weight").unwrap()), 1307.0 / 20.0);
    let w = decode(&slot([0xff, 0xfe, 24, 1, 2, 3, 4, 5])).unwrap();
    assert_eq!(record(&w, 0).field("weight"), Some(DbFieldValue::Decimal(327670)));
}

#[test]
fn scale_record_needs_an_instant() {
    assert_eq!(
        make_record(&slot([0x00, 0x64, 24, 1, 2, 3, 4, 5]), None).err(),
        Some(Error::Decode)
    );
}

#[test]
fn scale_clock_block() {
    let now = Current { year: 2024, month: 2, day: 29, hour: 23, min: 59, sec: 58 };
    assert_eq!(sync_time(&now), vec![24, 2, 29, 23, 59, 58, 195, 0xff]);
}

#[test]
fn scale_clock_block_sum_wraps() {
    let now = Current { year: 2255, month: 12, day: 31, hour: 23, min: 59, sec: 59 };
    let block = sync_time(&now);
    assert_eq!(block[6], ((255 + 12 + 31 + 23 + 59 + 59) % 256) as u8);
    assert_eq!(block[7], 0xff);
}

#[test]
fn scale_clock_block_sum_over_many_bytes() {
    let block = vec![0xff; 1000];
    assert_eq!(
        omron_link::driver::omron::timesync::sum_bytes(&block, 1000),
        ((1000u32 * 255) % 256) as u8
    );
    assert_eq!(omron_link::driver::omron::timesync::sum_bytes(&block, 0), 0);
    assert_eq!(omron_link::driver::omron::timesync::sum_bytes(&[1, 2, 3, 250], 4), 0);
}
