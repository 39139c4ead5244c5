//! A configured device and the loop that polls it.
//!
//! The loop fetches the measurements of the device, tags them with the
//! identifier of the device, forwards them to the database and sleeps. A
//! fetch or a forwarding that fails is tried again after a fixed wait, for
//! as long as it takes. The loop is written as a state with an action; the
//! caller performs the action and hands back what came of it.

use vstd::prelude::*;

use crate::btutil::Error;
use crate::db::{lemma_put, lookup, put, DbRecord, DbRecordView};
use crate::driver::omron::session::Session;
use crate::driver::{create, driver_of, Driver, DriverConfig};

verus! {

/// Seconds to wait before a failed fetch or forwarding is tried again.
pub const WAIT: u64 = 3;

/// The key of the tag that names the device.
pub const DEVICE_ID_TAG: &'static str = "device_id";

/// What is configured of a device: its identifier, its driver, the seconds
/// to sleep between two fetches, and the measurement that its records go to.
pub struct DeviceConfig {
    pub id: String,
    pub driver_config: DriverConfig,
    pub sleep: Option<u32>,
    pub meas: String,
}

impl DeviceConfig {
    pub fn get_id(&self) -> (id: &str)
        ensures
            id@ == self.id@,
    {
        self.id.as_str()
    }
}

/// The identifiers of the configured devices, in order.
pub open spec fn ids_of(devices: Seq<DeviceConfig>) -> Seq<Seq<char>> {
    devices.map_values(|d: DeviceConfig| d.id@)
}

/// The identifier at `j` has occurred before `j`.
pub open spec fn is_repeat(ids: Seq<Seq<char>>, j: int) -> bool {
    exists|i: int| 0 <= i < j && #[trigger] ids[i] == ids[j]
}

/// The first place at which an identifier occurs that has occurred before;
/// `None` if every device has an identifier of its own.
pub fn find_duplicate(devices: &Vec<DeviceConfig>) -> (dup: Option<usize>)
    ensures
        match dup {
            Some(j) => {
                &&& j < devices@.len()
                &&& is_repeat(ids_of(devices@), j as int)
                &&& forall|k: int| 0 <= k < j ==> !is_repeat(ids_of(devices@), k)
            },
            None => forall|k: int| 0 <= k < devices@.len() ==> !is_repeat(ids_of(devices@), k),
        },
{
    let ghost ids = ids_of(devices@);
    let mut j: usize = 0;
    while j < devices.len()
        invariant
            j <= devices@.len(),
            ids == ids_of(devices@),
            forall|k: int| 0 <= k < j ==> !is_repeat(ids, k),
        decreases devices@.len() - j,
    {
        let mut i: usize = 0;
        while i < j
            invariant
                i <= j < devices@.len(),
                ids == ids_of(devices@),
                forall|k: int| 0 <= k < j ==> !is_repeat(ids, k),
                forall|k: int| 0 <= k < i ==> ids[k] != ids[j as int],
            decreases j - i,
        {
            if devices[i].id == devices[j].id {
                assert(ids[i as int] == ids[j as int]);
                return Some(j);
            }
            i += 1;
        }
        j += 1;
    }
    None
}

/// The first device with the identifier `id`.
pub fn find_device(devices: &Vec<DeviceConfig>, id: &str) -> (found: Option<usize>)
    ensures
        match found {
            Some(j) => {
                &&& j < devices@.len()
                &&& devices@[j as int].id@ == id@
                &&& forall|k: int| 0 <= k < j ==> devices@[k].id@ != id@
            },
            None => forall|k: int| 0 <= k < devices@.len() ==> devices@[k].id@ != id@,
        },
{
    let wanted: String = id.to_owned();
    let mut j: usize = 0;
    while j < devices.len()
        invariant
            j <= devices@.len(),
            wanted@ == id@,
            forall|k: int| 0 <= k < j ==> devices@[k].id@ != id@,
        decreases devices@.len() - j,
    {
        if devices[j].id == wanted {
            return Some(j);
        }
        j += 1;
    }
    None
}

/// Where the loop of a device stands.
#[derive(Clone, Copy, Debug, PartialEq, Eq, Structural)]
pub enum DeviceState {
    /// The measurements are being fetched.
    Fetching,
    /// A fetch has failed: waiting before the next.
    FetchRetry,
    /// The batch is being forwarded.
    Forwarding,
    /// Forwarding has failed: waiting before it is tried again.
    ForwardRetry,
    /// The cycle is over: sleeping until the next.
    Sleeping,
}

/// What the loop asks its caller to do.
#[derive(Clone, Copy, Debug, PartialEq, Eq, Structural)]
pub enum DeviceAction {
    /// Fetch the measurements of the device.
    Fetch,
    /// Send the batch to the database.
    Send,
    /// Wait for this many seconds.
    Wait(u64),
}

/// What came of an action.
pub enum DeviceEventView {
    /// The fetch ended with these records, or failed.
    Fetched(Result<Seq<DbRecordView>, Error>),
    /// The batch was sent, or sending failed.
    Sent(Result<(), Error>),
    /// The wait is over.
    Waited,
}

/// What the loop of a device holds.
pub struct DeviceView {
    pub id: Seq<char>,
    pub meas: Seq<char>,
    pub sleep: Option<u32>,
    pub state: DeviceState,
    pub batch: Seq<DbRecordView>,
}

/// The record `r` with the tag that names the device `id`.
pub open spec fn tagged(r: DbRecordView, id: Seq<char>) -> DbRecordView {
    DbRecordView { tags: put(r.tags, DEVICE_ID_TAG@, id), ..r }
}

/// The records, each with the tag that names the device `id`.
pub open spec fn tag_all(records: Seq<DbRecordView>, id: Seq<char>) -> Seq<DbRecordView> {
    records.map_values(|r: DbRecordView| tagged(r, id))
}

/// The state after a cycle: sleeping if a sleep is configured, else
/// fetching again at once.
pub open spec fn rest(v: DeviceView) -> DeviceView {
    DeviceView {
        state: if v.sleep is Some {
            DeviceState::Sleeping
        } else {
            DeviceState::Fetching
        },
        batch: Seq::empty(),
        ..v
    }
}

/// What the loop asks for in the state of `v`.
pub open spec fn device_action(v: DeviceView) -> DeviceAction {
    match v.state {
        DeviceState::Fetching => DeviceAction::Fetch,
        DeviceState::FetchRetry => DeviceAction::Wait(WAIT),
        DeviceState::Forwarding => DeviceAction::Send,
        DeviceState::ForwardRetry => DeviceAction::Wait(WAIT),
        DeviceState::Sleeping => DeviceAction::Wait(
            match v.sleep {
                Some(sleep) => sleep as u64,
                None => 0,
            },
        ),
    }
}

/// The loop after the outcome `ev` of its action.
///
/// A failed fetch is waited on and tried again. A fetch without records
/// ends the cycle. Fetched records are tagged with the identifier of the
/// device and forwarded as one batch; forwarding that fails is waited on and
/// tried again with the same batch, and ends the cycle once it succeeds. An
/// outcome that does not belong to the action of the state changes nothing.
pub open spec fn device_step(v: DeviceView, ev: DeviceEventView) -> DeviceView {
    match (v.state, ev) {
        (DeviceState::Fetching, DeviceEventView::Fetched(Err(_))) => DeviceView {
            state: DeviceState::FetchRetry,
            ..v
        },
        (DeviceState::Fetching, DeviceEventView::Fetched(Ok(records))) => if records.len() == 0 {
            rest(v)
        } else {
            DeviceView { state: DeviceState::Forwarding, batch: tag_all(records, v.id), ..v }
        },
        (DeviceState::FetchRetry, DeviceEventView::Waited) => DeviceView {
            state: DeviceState::Fetching,
            ..v
        },
        (DeviceState::Forwarding, DeviceEventView::Sent(Ok(_))) => rest(v),
        (DeviceState::Forwarding, DeviceEventView::Sent(Err(_))) => DeviceView {
            state: DeviceState::ForwardRetry,
            ..v
        },
        (DeviceState::ForwardRetry, DeviceEventView::Waited) => DeviceView {
            state: DeviceState::Forwarding,
            ..v
        },
        (DeviceState::Sleeping, DeviceEventView::Waited) => DeviceView {
            state: DeviceState::Fetching,
            ..v
        },
        _ => v,
    }
}

/// Every record of a batch carries the identifier of the device as the tag
/// `device_id`, and every other tag as the driver set it.
pub proof fn lemma_tagged(records: Seq<DbRecordView>, id: Seq<char>, i: int, key: Seq<char>)
    requires
        0 <= i < records.len(),
        records[i].wf(),
    ensures
        tag_all(records, id).len() == records.len(),
        tag_all(records, id)[i].wf(),
        lookup(tag_all(records, id)[i].tags, DEVICE_ID_TAG@) == Some(id),
        key != DEVICE_ID_TAG@ ==> lookup(tag_all(records, id)[i].tags, key) == lookup(
            records[i].tags,
            key,
        ),
        tag_all(records, id)[i].ts == records[i].ts,
        tag_all(records, id)[i].fields == records[i].fields,
{
    lemma_put(records[i].tags, DEVICE_ID_TAG@, id, key);
}

/// The batch that the loop forwards after a fetch is the fetched records,
/// each tagged with the identifier of the device.
pub proof fn lemma_forwarded_batch_is_tagged(
    v: DeviceView,
    records: Seq<DbRecordView>,
    i: int,
)
    requires
        v.state == DeviceState::Fetching,
        0 <= i < records.len(),
        records[i].wf(),
    ensures
        device_step(v, DeviceEventView::Fetched(Ok(records))).state == DeviceState::Forwarding,
        device_action(device_step(v, DeviceEventView::Fetched(Ok(records)))) == DeviceAction::Send,
        lookup(
            device_step(v, DeviceEventView::Fetched(Ok(records))).batch[i].tags,
            DEVICE_ID_TAG@,
        ) == Some(v.id),
{
    lemma_tagged(records, v.id, i, DEVICE_ID_TAG@);
}

/// What came of an action.
#[derive(Debug)]
pub enum DeviceEvent {
    /// The fetch ended with these records, or failed.
    Fetched(Result<Vec<DbRecord>, Error>),
    /// The batch was sent, or sending failed.
    Sent(Result<(), Error>),
    /// The wait is over.
    Waited,
}

impl View for DeviceEvent {
    type V = DeviceEventView;

    open spec fn view(&self) -> DeviceEventView {
        match self {
            DeviceEvent::Fetched(Ok(records)) => DeviceEventView::Fetched(
                Ok(records@.map_values(|r: DbRecord| r@)),
            ),
            DeviceEvent::Fetched(Err(e)) => DeviceEventView::Fetched(Err(*e)),
            DeviceEvent::Sent(res) => DeviceEventView::Sent(*res),
            DeviceEvent::Waited => DeviceEventView::Waited,
        }
    }
}

impl DeviceEventView {
    /// No fetched record has a key twice.
    pub open spec fn wf(self) -> bool {
        self matches DeviceEventView::Fetched(Ok(records)) ==> forall|i: int|
            0 <= i < records.len() ==> (#[trigger] records[i]).wf()
    }
}

impl DeviceView {
    /// No record of the batch has a key twice, a batch that is being
    /// forwarded is not empty, and the loop sleeps only if a sleep is
    /// configured.
    pub open spec fn wf(self) -> bool {
        &&& forall|i: int| 0 <= i < self.batch.len() ==> (#[trigger] self.batch[i]).wf()
        &&& self.state == DeviceState::Forwarding || self.state == DeviceState::ForwardRetry
            ==> self.batch.len() > 0
        &&& self.state == DeviceState::Sleeping ==> self.sleep is Some
    }
}

/// The loop of a device.
#[derive(Debug)]
pub struct Device {
    id: String,
    meas: String,
    sleep: Option<u32>,
    state: DeviceState,
    batch: Vec<DbRecord>,
}

impl View for Device {
    type V = DeviceView;

    closed spec fn view(&self) -> DeviceView {
        DeviceView {
            id: self.id@,
            meas: self.meas@,
            sleep: self.sleep,
            state: self.state,
            batch: self.batch@.map_values(|r: DbRecord| r@),
        }
    }
}

/// Tags each record with the identifier `id` of the device.
fn tag_records(records: Vec<DbRecord>, id: &str) -> (tagged: Vec<DbRecord>)
    requires
        forall|i: int| 0 <= i < records@.len() ==> (#[trigger] records@[i]).wf(),
    ensures
        tagged@.map_values(|r: DbRecord| r@) == tag_all(
            records@.map_values(|r: DbRecord| r@),
            id@,
        ),
        forall|i: int| 0 <= i < tagged@.len() ==> (#[trigger] tagged@[i]).wf(),
{
    let ghost before = records@.map_values(|r: DbRecord| r@);
    let mut records = records;
    let mut i: usize = 0;
    while i < records.len()
        invariant
            i <= records@.len(),
            records@.len() == before.len(),
            forall|j: int| 0 <= j < records@.len() ==> (#[trigger] records@[j]).wf(),
            forall|j: int| 0 <= j < i ==> (#[trigger] records@[j])@ == tagged(before[j], id@),
            forall|j: int| i <= j < records@.len() ==> (#[trigger] records@[j])@ == before[j],
        decreases records@.len() - i,
    {
        let mut r = DbRecord::new(0);
        core::mem::swap(&mut r, &mut records[i]);
        r.add_tag(DEVICE_ID_TAG, id);
        records.set(i, r);
        i += 1;
    }
    assert(records@.map_values(|r: DbRecord| r@) =~= tag_all(before, id@));
    records
}

impl Device {
    pub open spec fn wf(&self) -> bool {
        self@.wf()
    }

    /// The driver of the configured device, and its loop at the start: about
    /// to fetch.
    pub fn start(config: DeviceConfig) -> (started: (Driver, Device))
        ensures
            started.0.spec_id() == config.id@,
            driver_of(started.0, config.driver_config),
            started.1.wf(),
            started.1@ == (DeviceView {
                id: config.id@,
                meas: config.meas@,
                sleep: config.sleep,
                state: DeviceState::Fetching,
                batch: Seq::empty(),
            }),
    {
        let driver = create(config.id.as_str(), config.driver_config);
        let device = Device {
            id: config.id,
            meas: config.meas,
            sleep: config.sleep,
            state: DeviceState::Fetching,
            batch: Vec::new(),
        };
        assert(device@.batch =~= Seq::empty());
        (driver, device)
    }

    /// The driver of the configured device, and the session that pairs it.
    pub fn pair(config: DeviceConfig) -> (pairing: (Driver, Session))
        ensures
            pairing.0.spec_id() == config.id@,
            driver_of(pairing.0, config.driver_config),
            pairing.1.wf(),
            pairing.1@ == pairing.0.pair_view(),
    {
        let driver = create(config.id.as_str(), config.driver_config);
        let session = driver.pair();
        (driver, session)
    }

    /// The identifier of the device.
    pub fn id(&self) -> (id: &str)
        ensures
            id@ == self@.id,
    {
        self.id.as_str()
    }

    /// The measurement that the records go to.
    pub fn meas(&self) -> (meas: &str)
        ensures
            meas@ == self@.meas,
    {
        self.meas.as_str()
    }

    /// Where the loop stands.
    pub fn state(&self) -> (state: DeviceState)
        ensures
            state == self@.state,
    {
        self.state
    }

    /// The batch that is being forwarded.
    pub fn batch(&self) -> (batch: &Vec<DbRecord>)
        ensures
            batch@.map_values(|r: DbRecord| r@) == self@.batch,
    {
        &self.batch
    }

    /// What is to be done next.
    pub fn action(&self) -> (action: DeviceAction)
        ensures
            action == device_action(self@),
    {
        match self.state {
            DeviceState::Fetching => DeviceAction::Fetch,
            DeviceState::FetchRetry => DeviceAction::Wait(WAIT),
            DeviceState::Forwarding => DeviceAction::Send,
            DeviceState::ForwardRetry => DeviceAction::Wait(WAIT),
            DeviceState::Sleeping => DeviceAction::Wait(
                match self.sleep {
                    Some(sleep) => sleep as u64,
                    None => 0,
                },
            ),
        }
    }

    /// The state after a cycle.
    fn rest(self) -> (next: Device)
        ensures
            next@ == rest(self@),
            next.wf(),
    {
        let state = match self.sleep {
            Some(_) => DeviceState::Sleeping,
            None => DeviceState::Fetching,
        };
        let next = Device {
            id: self.id,
            meas: self.meas,
            sleep: self.sleep,
            state,
            batch: Vec::new(),
        };
        assert(next@.batch =~= Seq::empty());
        next
    }

    /// The loop in another state.
    fn turn(self, state: DeviceState) -> (next: Device)
        ensures
            next@ == (DeviceView { state, ..self@ }),
    {
        Device { id: self.id, meas: self.meas, sleep: self.sleep, state, batch: self.batch }
    }

    /// Takes the outcome `event` of the action of the state.
    pub fn step(self, event: DeviceEvent) -> (next: Device)
        requires
            self.wf(),
            event@.wf(),
        ensures
            next@ == device_step(self@, event@),
            next.wf(),
    {
        match (self.state, event) {
            (DeviceState::Fetching, DeviceEvent::Fetched(Err(_))) => self.turn(
                DeviceState::FetchRetry,
            ),
            (DeviceState::Fetching, DeviceEvent::Fetched(Ok(records))) => {
                if records.len() == 0 {
                    self.rest()
                } else {
                    assert forall|i: int| 0 <= i < records@.len() implies (
                    #[trigger] records@[i]).wf() by {
                        assert(records@.map_values(|r: DbRecord| r@)[i].wf());
                    }
                    let batch = tag_records(records, self.id.as_str());
                    let next = Device {
                        id: self.id,
                        meas: self.meas,
                        sleep: self.sleep,
                        state: DeviceState::Forwarding,
                        batch,
                    };
                    assert forall|i: int| 0 <= i < next@.batch.len() implies (
                    #[trigger] next@.batch[i]).wf() by {
                        assert(batch@[i].wf());
                    }
                    next
                }
            },
            (DeviceState::FetchRetry, DeviceEvent::Waited) => self.turn(DeviceState::Fetching),
            (DeviceState::Forwarding, DeviceEvent::Sent(Ok(_))) => self.rest(),
            (DeviceState::Forwarding, DeviceEvent::Sent(Err(_))) => self.turn(
                DeviceState::ForwardRetry,
            ),
            (DeviceState::ForwardRetry, DeviceEvent::Waited) => self.turn(
                DeviceState::Forwarding,
            ),
            (DeviceState::Sleeping, DeviceEvent::Waited) => self.turn(DeviceState::Fetching),
            _ => self,
        }
    }
}

} // verus!
