use omron_link::btutil::Error;
use omron_link::db::{DbFieldValue, DbRecord};
use omron_link::device::{Device, DeviceAction, DeviceConfig, DeviceEvent, DeviceState};
use omron_link::driver::omron::session::{Action, Model, Phase};
use omron_link::driver::omron::{hem_7361t, hn_300t2};
use omron_link::driver::DriverConfig;
use tzfile::Tz;

fn config(id: &str, sleep: Option<u32>) -> DeviceConfig {
    DeviceConfig {
        id: id.to_string(),
        driver_config: DriverConfig::Omron_HN_300T2(hn_300t2::Config {
            addr: [1, 2, 3, 4, 5, 6],
            tz: Tz::from(chrono::Utc),
        }),
        sleep,
        meas: "weight".to_string(),
    }
}

fn batch() -> Vec<DbRecord> {
    let mut a = DbRecord::new(1);
    a.add_tag("user", "1");
    a.add_field("weight", DbFieldValue::Decimal(500));
    let mut b = DbRecord::new(2);
    b.add_tag("device_id", "stale");
    b.add_tag("room", "bath");
    b.add_field("weight", DbFieldValue::Decimal(6535));
    vec![a, b]
}

#[test]
fn get_id_is_the_configured_id() {
    assert_eq!(config("scale-1", None).get_id(), "scale-1");
}

#[test]
fn loop_retries_fetch_and_forwards_once() {
    let (_, mut device) = Device::start(config("scale-1", Some(60)));
    let mut fetches = 0;
    let mut sends = 0;
    let mut waits = Vec::new();
    let mut script = vec![
        Err(Error::AdvertisementTimeout),
        Err(Error::CrcMismatch),
        Ok(batch()),
    ]
    .into_iter();
    loop {
        match device.action() {
            DeviceAction::Fetch => {
                let Some(outcome) = script.next() else { break };
                fetches += 1;
                device = device.step(DeviceEvent::Fetched(outcome));
            }
            DeviceAction::Wait(secs) => {
                waits.push(secs);
                device = device.step(DeviceEvent::Waited);
            }
            DeviceAction::Send => {
                sends += 1;
                assert_eq!(device.batch().len(), 2);
                device = device.step(DeviceEvent::Sent(Ok(())));
            }
        }
    }
    assert_eq!(fetches, 3);
    assert_eq!(sends, 1);
    assert_eq!(waits, vec![3, 3, 60]);
}

#[test]
fn loop_retries_forwarding_with_the_same_batch() {
    let (_, mut device) = Device::start(config("scale-1", None));
    device = device.step(DeviceEvent::Fetched(Ok(batch())));
    assert_eq!(device.action(), DeviceAction::Send);
    device = device.step(DeviceEvent::Sent(Err(Error::Sink)));
    assert_eq!(device.state(), DeviceState::ForwardRetry);
    assert_eq!(device.action(), DeviceAction::Wait(3));
    device = device.step(DeviceEvent::Waited);
    assert_eq!(device.action(), DeviceAction::Send);
    assert_eq!(device.batch().len(), 2);
    assert_eq!(device.batch()[1].field("weight"), Some(DbFieldValue::Decimal(6535)));
    device = device.step(DeviceEvent::Sent(Ok(())));
    assert_eq!(device.action(), DeviceAction::Fetch);
    assert!(device.batch().is_empty());
}

#[test]
fn loop_without_records_skips_forwarding() {
    let (_, mut device) = Device::start(config("scale-1", Some(0)));
    device = device.step(DeviceEvent::Fetched(Ok(vec![])));
    assert_eq!(device.state(), DeviceState::Sleeping);
    assert_eq!(device.action(), DeviceAction::Wait(0));
    device = device.step(DeviceEvent::Waited);
    assert_eq!(device.action(), DeviceAction::Fetch);
    let (_, mut device) = Device::start(config("scale-1", None));
    device = device.step(DeviceEvent::Fetched(Ok(vec![])));
    assert_eq!(device.action(), DeviceAction::Fetch);
}

#[test]
fn loop_ignores_an_outcome_that_does_not_belong() {
    let (_, mut device) = Device::start(config("scale-1", None));
    device = device.step(DeviceEvent::Waited);
    assert_eq!(device.state(), DeviceState::Fetching);
    device = device.step(DeviceEvent::Sent(Ok(())));
    assert_eq!(device.state(), DeviceState::Fetching);
}

#[test]
fn forwarded_records_carry_the_device_id() {
    let (_, mut device) = Device::start(config("scale-1", None));
    device = device.step(DeviceEvent::Fetched(Ok(batch())));
    assert_eq!(device.id(), "scale-1");
    assert_eq!(device.meas(), "weight");
    let forwarded = device.batch();
    assert_eq!(forwarded[0].tag("device_id"), Some("scale-1"));
    assert_eq!(forwarded[0].tag("user"), Some("1"));
    assert_eq!(forwarded[0].tag_count(), 2);
    assert_eq!(forwarded[0].ts(), 1);
    assert_eq!(forwarded[1].tag("device_id"), Some("scale-1"));
    assert_eq!(forwarded[1].tag("room"), Some("bath"));
    assert_eq!(forwarded[1].tag_count(), 2);
    assert_eq!(forwarded[1].field("weight"), Some(DbFieldValue::Decimal(6535)));
}

#[test]
fn start_and_pair_create_the_driver() {
    let (driver, device) = Device::start(config("scale-1", None));
    assert_eq!(driver.addr(), [1, 2, 3, 4, 5, 6]);
    assert_eq!(driver.model(), Model::Hn300T2);
    assert_eq!(driver.id(), "scale-1");
    assert_eq!(device.action(), DeviceAction::Fetch);
    let (driver, session) = Device::pair(config("scale-1", None));
    assert_eq!(driver.addr(), [1, 2, 3, 4, 5, 6]);
    assert_eq!(driver.model(), Model::Hn300T2);
    let monitor = DeviceConfig {
        id: "bp-1".to_string(),
        driver_config: DriverConfig::Omron_HEM_7361T(hem_7361t::Config {
            addr: [9, 8, 7, 6, 5, 4],
            secret: [7; 16],
            tz: Tz::from(chrono::Utc),
        }),
        sleep: None,
        meas: "pressure".to_string(),
    };
    let (monitor_driver, _) = Device::start(monitor);
    assert_eq!(monitor_driver.model(), Model::Hem7361T);
    assert_eq!(monitor_driver.addr(), [9, 8, 7, 6, 5, 4]);
    assert_eq!(session.phase(), Phase::Resolve);
    assert!(matches!(session.action(), Action::Resolve { discover: true }));
}

#[test]
fn duplicate_ids_are_found() {
    let devices = vec![config("a", None), config("b", None), config("a", None), config("b", None)];
    assert_eq!(omron_link::device::find_duplicate(&devices), Some(2));
    let devices = vec![config("a", None), config("b", None), config("c", None)];
    assert_eq!(omron_link::device::find_duplicate(&devices), None);
    assert_eq!(omron_link::device::find_duplicate(&vec![]), None);
}

#[test]
fn devices_are_found_by_id() {
    let devices = vec![config("a", None), config("b", None), config("c", None)];
    assert_eq!(omron_link::device::find_device(&devices, "b"), Some(1));
    assert_eq!(omron_link::device::find_device(&devices, "d"), None);
}
