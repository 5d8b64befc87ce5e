//! The telemetry record, its simulated acquisition, and the shared store
//! that one updater writes and any number of readers copy from.
//!
//! Temperature and humidity are fixed-point: thousandths of a degree
//! Celsius and thousandths of a percent.

use crate::clock::now_secs;
use std::sync::{Arc, Mutex};
use vstd::prelude::*;

verus! {

/// 25.000 degrees: the temperature of the initial and of the fallback record.
pub const DEFAULT_TEMPERATURE_MILLI: u32 = 25_000;

/// 60.000 percent: the humidity of the initial and of the fallback record.
pub const DEFAULT_HUMIDITY_MILLI: u32 = 60_000;

/// Simulated temperatures start at 20.000 degrees ...
pub const TEMPERATURE_MIN_MILLI: u32 = 20_000;

/// ... and span 10.000 degrees.
pub const TEMPERATURE_SPAN_MILLI: u32 = 10_000;

/// The seconds between two cycles of the updater, unless the caller
/// chooses otherwise.
pub const DEFAULT_UPDATE_PERIOD_SECS: u64 = 5;

/// Simulated humidities start at 50.000 percent ...
pub const HUMIDITY_MIN_MILLI: u32 = 50_000;

/// ... and span 20.000 percent.
pub const HUMIDITY_SPAN_MILLI: u32 = 20_000;

/// One telemetry record. A record is replaced as a whole, never field by
/// field.
#[derive(Clone, Copy, Debug, PartialEq, Eq, Structural)]
pub struct SensorData {
    /// Thousandths of a degree Celsius.
    pub temperature_milli: u32,
    /// Thousandths of a percent of relative humidity.
    pub humidity_milli: u32,
    /// Seconds since the UNIX epoch.
    pub timestamp: u64,
}

/// Handle to the one shared record: a mutex around it, reference-counted so
/// that the updater and every reader hold the same store.
pub type SharedSensor = Arc<Mutex<SensorData>>;

#[verifier::external_type_specification]
#[verifier::external_body]
#[verifier::reject_recursive_types(T)]
pub struct ExMutex<T: ?Sized>(std::sync::Mutex<T>);

/// What a read of the store gave.
#[derive(Clone, Copy, Debug, PartialEq, Eq, Structural)]
pub enum Snapshot {
    /// A copy of the record that was current.
    Current(SensorData),
    /// The lock was poisoned: the fallback record, stamped at the read.
    Degraded(SensorData),
}

/// The part `sample / 2^32` of `span`, rounded down.
pub open spec fn scaled(sample: u32, span: u32) -> int {
    (sample as int * span as int) / 0x1_0000_0000
}

impl SensorData {
    /// The record with the default values, stamped `now`.
    pub open spec fn spec_fallback(now: u64) -> SensorData {
        SensorData {
            temperature_milli: DEFAULT_TEMPERATURE_MILLI,
            humidity_milli: DEFAULT_HUMIDITY_MILLI,
            timestamp: now,
        }
    }

    /// The record that two raw samples and a clock reading stand for.
    pub open spec fn spec_from_samples(
        temperature_sample: u32,
        humidity_sample: u32,
        now: u64,
    ) -> SensorData {
        SensorData {
            temperature_milli: (TEMPERATURE_MIN_MILLI + scaled(
                temperature_sample,
                TEMPERATURE_SPAN_MILLI,
            )) as u32,
            humidity_milli: (HUMIDITY_MIN_MILLI + scaled(humidity_sample, HUMIDITY_SPAN_MILLI)) as u32,
            timestamp: now,
        }
    }

    /// Whether the record is the one that the two samples stand for, with
    /// whatever timestamp it has.
    pub open spec fn arises_from(self, temperature_sample: u32, humidity_sample: u32) -> bool {
        self == SensorData::spec_from_samples(temperature_sample, humidity_sample, self.timestamp)
    }

    /// Temperature within 20 to 30 degrees and humidity within 50 to 70
    /// percent.
    pub open spec fn in_range(self) -> bool {
        &&& TEMPERATURE_MIN_MILLI <= self.temperature_milli <= TEMPERATURE_MIN_MILLI
            + TEMPERATURE_SPAN_MILLI
        &&& HUMIDITY_MIN_MILLI <= self.humidity_milli <= HUMIDITY_MIN_MILLI + HUMIDITY_SPAN_MILLI
    }

    /// The record with the default values, stamped `now`: the store starts
    /// with it, and a reader gets it when the lock is poisoned.
    pub fn fallback(now: u64) -> (record: SensorData)
        ensures
            record == SensorData::spec_fallback(now),
            record.in_range(),
    {
        SensorData {
            temperature_milli: DEFAULT_TEMPERATURE_MILLI,
            humidity_milli: DEFAULT_HUMIDITY_MILLI,
            timestamp: now,
        }
    }

    /// Turns two raw 32-bit samples into a record stamped `now`: each
    /// sample picks a point of its range in proportion to its size.
    pub fn from_samples(temperature_sample: u32, humidity_sample: u32, now: u64) -> (record:
        SensorData)
        ensures
            record == SensorData::spec_from_samples(temperature_sample, humidity_sample, now),
            record.in_range(),
            record.temperature_milli < TEMPERATURE_MIN_MILLI + TEMPERATURE_SPAN_MILLI,
            record.humidity_milli < HUMIDITY_MIN_MILLI + HUMIDITY_SPAN_MILLI,
    {
        SensorData {
            temperature_milli: TEMPERATURE_MIN_MILLI + scale(
                temperature_sample,
                TEMPERATURE_SPAN_MILLI,
            ),
            humidity_milli: HUMIDITY_MIN_MILLI + scale(humidity_sample, HUMIDITY_SPAN_MILLI),
            timestamp: now,
        }
    }
}

impl Snapshot {
    pub open spec fn spec_record(self) -> SensorData {
        match self {
            Snapshot::Current(record) => record,
            Snapshot::Degraded(record) => record,
        }
    }

    /// The record that the reader gets, current or fallback.
    pub fn record(&self) -> (record: SensorData)
        ensures
            record == self.spec_record(),
    {
        match self {
            Snapshot::Current(record) => *record,
            Snapshot::Degraded(record) => *record,
        }
    }

    /// Whether the read was degraded, which the caller reports once.
    pub fn is_degraded(&self) -> (degraded: bool)
        ensures
            degraded == (*self is Degraded),
    {
        match self {
            Snapshot::Current(_) => false,
            Snapshot::Degraded(_) => true,
        }
    }
}

/// A scaled sample never reaches the span.
pub proof fn lemma_scaled_bound(sample: u32, span: u32)
    ensures
        0 <= sample as int * span as int <= 0xFFFF_FFFF * span as int,
        0 <= scaled(sample, span) <= span,
        0 < span ==> scaled(sample, span) < span,
{
    assert(0 <= sample as int * span as int <= 0xFFFF_FFFF * span as int) by (nonlinear_arith)
        requires
            0 <= sample as int <= 0xFFFF_FFFF,
            0 <= span as int,
    ;
}

/// Every record that samples can give is in range, whatever the samples
/// and the clock.
pub proof fn lemma_readings_are_in_range(temperature_sample: u32, humidity_sample: u32, now: u64)
    ensures
        SensorData::spec_from_samples(temperature_sample, humidity_sample, now).in_range(),
        SensorData::spec_from_samples(temperature_sample, humidity_sample, now).timestamp == now,
{
    lemma_scaled_bound(temperature_sample, TEMPERATURE_SPAN_MILLI);
    lemma_scaled_bound(humidity_sample, HUMIDITY_SPAN_MILLI);
}

/// A record carries the clock reading that it was made with: where the
/// clock does not go backward between two cycles, neither do the
/// timestamps of the records that they install.
pub proof fn lemma_timestamps_follow_clock(
    earlier: SensorData,
    later: SensorData,
    earlier_now: u64,
    later_now: u64,
)
    requires
        exists|t: u32, h: u32| earlier == #[trigger] SensorData::spec_from_samples(t, h, earlier_now),
        exists|t: u32, h: u32| later == #[trigger] SensorData::spec_from_samples(t, h, later_now),
        earlier_now <= later_now,
    ensures
        earlier.timestamp <= later.timestamp,
        earlier.in_range(),
        later.in_range(),
{
    let (t1, h1) = choose|t: u32, h: u32|
        earlier == #[trigger] SensorData::spec_from_samples(t, h, earlier_now);
    let (t2, h2) = choose|t: u32, h: u32|
        later == #[trigger] SensorData::spec_from_samples(t, h, later_now);
    lemma_readings_are_in_range(t1, h1, earlier_now);
    lemma_readings_are_in_range(t2, h2, later_now);
}

/// `sample * span / 2^32`, rounded down: below `span` whatever the sample.
pub fn scale(sample: u32, span: u32) -> (part: u32)
    ensures
        part == scaled(sample, span),
        0 < span ==> part < span,
        span == 0 ==> part == 0,
{
    proof {
        lemma_scaled_bound(sample, span);
    }
    let wide: u64 = (sample as u64) * (span as u64);
    proof {
        assert(wide >> 32 == wide / 0x1_0000_0000) by (bit_vector);
    }
    (wide >> 32) as u32
}

/// What a read of the store amounts to: the record that the lock gave, or,
/// where the lock was poisoned (`None`), the fallback record stamped `now`.
/// With a record at hand `now` is not looked at.
pub fn resolve_read(read: Option<SensorData>, now: u64) -> (result: Snapshot)
    ensures
        result == match read {
            Some(record) => Snapshot::Current(record),
            None => Snapshot::Degraded(SensorData::spec_fallback(now)),
        },
{
    match read {
        Some(record) => Snapshot::Current(record),
        None => Snapshot::Degraded(SensorData::fallback(now)),
    }
}

/// `rand::random::<u32>()`: a sample of the thread's generator. Nothing is
/// claimed of it.
#[verifier::external_body]
fn random_sample() -> u32 {
    rand::random::<u32>()
}

/// `Mutex::new`: a mutex that holds `record`.
#[verifier::external_body]
fn mutex_new(record: SensorData) -> Mutex<SensorData> {
    Mutex::new(record)
}

/// `Mutex::lock`, then a copy of what the guard holds: `None` where the
/// lock is poisoned. What the mutex holds is up to the other threads, so
/// nothing is claimed of the copy.
#[verifier::external_body]
fn lock_read(shared: &Arc<Mutex<SensorData>>) -> Option<SensorData> {
    match shared.lock() {
        Ok(guard) => Some(*guard),
        Err(_) => None,
    }
}

/// `Mutex::lock`, then `record` is stored through the guard: `false` where
/// the lock is poisoned, and then the mutex is left as it was.
#[verifier::external_body]
fn lock_write(shared: &Arc<Mutex<SensorData>>, record: SensorData) -> bool {
    match shared.lock() {
        Ok(mut guard) => {
            *guard = record;
            true
        },
        Err(_) => false,
    }
}

/// A new store, holding the default record stamped with the current time.
pub fn new_shared() -> SharedSensor {
    Arc::new(mutex_new(SensorData::fallback(now_secs())))
}

/// Reads the store and says whether the read was degraded. A degraded
/// read gives the fallback record; a current one gives whatever record was
/// installed last.
pub fn snapshot_checked(shared: &SharedSensor) -> (result: Snapshot)
    ensures
        result is Degraded ==> result.spec_record() == SensorData::spec_fallback(
            result.spec_record().timestamp,
        ),
{
    match lock_read(shared) {
        Some(record) => resolve_read(Some(record), record.timestamp),
        None => resolve_read(None, now_secs()),
    }
}

/// A full copy of the current record; the fallback record where the lock
/// is poisoned. It never fails.
pub fn snapshot(shared: &SharedSensor) -> SensorData {
    snapshot_checked(shared).record()
}

/// Installs `record` as the current one, as a whole. Returns `false`, with
/// the store untouched, where the lock is poisoned.
pub fn replace(shared: &SharedSensor, record: SensorData) -> bool {
    lock_write(shared, record)
}

/// Overwrites `data` with a fresh simulated reading, stamped with the
/// current time.
pub fn simulate_update(data: &mut SensorData)
    ensures
        final(data).in_range(),
        exists|t: u32, h: u32| #[trigger] final(data).arises_from(t, h),
{
    let temperature_sample = random_sample();
    let humidity_sample = random_sample();
    let now = now_secs();
    *data = SensorData::from_samples(temperature_sample, humidity_sample, now);
    assert(data.arises_from(temperature_sample, humidity_sample));
}

/// One cycle of the updater: a fresh reading is taken and installed.
/// Returns the installed record, or `None` where the lock is poisoned and
/// the cycle is skipped.
pub fn update_once(shared: &SharedSensor) -> (installed: Option<SensorData>)
    ensures
        installed matches Some(record) ==> record.in_range() && exists|t: u32, h: u32| #[trigger]
            record.arises_from(t, h),
{
    let mut record = SensorData::fallback(0);
    simulate_update(&mut record);
    let stored = replace(shared, record);
    cycle_report(record, stored)
}

/// What a cycle of the updater reports once the store has answered: the
/// record where the store took it, nothing where the lock was poisoned and
/// the cycle is skipped.
pub fn cycle_report(record: SensorData, stored: bool) -> (installed: Option<SensorData>)
    ensures
        installed == if stored {
            Some(record)
        } else {
            None::<SensorData>
        },
{
    if stored {
        Some(record)
    } else {
        None
    }
}

/// The record that a store shows after the installs in `installs` have
/// completed in that order, starting from `initial`.
pub open spec fn visible_after(initial: SensorData, installs: Seq<SensorData>) -> SensorData {
    if installs.len() == 0 {
        initial
    } else {
        installs.last()
    }
}

/// Whatever installs have completed, in whatever number, the record that
/// the store shows is the initial one or one of those installed, whole.
pub proof fn lemma_visible_is_installed(initial: SensorData, installs: Seq<SensorData>, done: int)
    requires
        0 <= done <= installs.len(),
    ensures
        visible_after(initial, installs.take(done)) == initial || installs.contains(
            visible_after(initial, installs.take(done)),
        ),
{
    if done > 0 {
        assert(installs.take(done).last() == installs[done - 1]);
    }
}

/// Installs that are all in range, over an initial record in range, never
/// show a record out of range.
pub proof fn lemma_visible_in_range(initial: SensorData, installs: Seq<SensorData>)
    requires
        initial.in_range(),
        forall|i: int| 0 <= i < installs.len() ==> (#[trigger] installs[i]).in_range(),
    ensures
        visible_after(initial, installs).in_range(),
{
}

} // verus!
