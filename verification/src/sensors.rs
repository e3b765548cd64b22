//! Fixed-capacity, index-addressed array of sensor records.
//!
//! The records live in a `heapless::Vec`, a stack-allocated vector with a
//! compile-time capacity bound, so the array never reallocates after
//! construction. The vector is opaque to verification; what it holds is named
//! by `store_model`, and each operation the array needs goes through a
//! trusted wrapper whose contract states what the heapless source shows.

use vstd::prelude::*;

use crate::hall_effect::{
    initial_sense_data, lut_wf, data_step, CalibrationStatus, SenseAnalysis, SenseConfig,
    SenseData, SensorError,
};

verus! {

/// Upper bound on the number of sensor records one array can hold.
pub const MAX_SENSORS: usize = 64;

#[verifier::external_type_specification]
#[verifier::external_body]
#[verifier::reject_recursive_types(T)]
pub struct ExHeaplessVec<T, const N: usize>(heapless::Vec<T, N>);

/// The sequence of records a sensor store holds, oldest first.
pub uninterp spec fn store_model(v: heapless::Vec<SenseData, MAX_SENSORS>) -> Seq<SenseData>;

/// Relies on heapless::Vec::new: constructs an empty vector.
#[verifier::external_body]
fn store_new() -> (r: heapless::Vec<SenseData, MAX_SENSORS>)
    ensures
        store_model(r) == Seq::<SenseData>::empty(),
{
    heapless::Vec::new()
}

/// Relies on heapless::Vec::push: appends the item and returns Ok when the
/// length is below the capacity, and returns the item back otherwise.
#[verifier::external_body]
fn store_push(v: &mut heapless::Vec<SenseData, MAX_SENSORS>, d: SenseData) -> (r: bool)
    ensures
        r <==> store_model(*old(v)).len() < MAX_SENSORS,
        r ==> store_model(*final(v)) == store_model(*old(v)).push(d),
        !r ==> *final(v) == *old(v),
{
    v.push(d).is_ok()
}

/// Relies on heapless::Vec::deref and <[T]>::len: the vector derefs to the
/// slice of its initialized elements.
#[verifier::external_body]
fn store_len(v: &heapless::Vec<SenseData, MAX_SENSORS>) -> (r: usize)
    ensures
        r == store_model(*v).len(),
{
    v.len()
}

/// Relies on heapless::Vec::deref and the slice Index impl: yields the
/// element at the index.
#[verifier::external_body]
fn store_get(v: &heapless::Vec<SenseData, MAX_SENSORS>, i: usize) -> (r: &SenseData)
    requires
        i < store_model(*v).len(),
    ensures
        *r == store_model(*v)[i as int],
{
    &v[i]
}

/// Relies on heapless::Vec::deref_mut and the slice IndexMut impl: replaces
/// the element at the index.
#[verifier::external_body]
fn store_set(v: &mut heapless::Vec<SenseData, MAX_SENSORS>, i: usize, d: SenseData)
    requires
        i < store_model(*old(v)).len(),
    ensures
        store_model(*final(v)) == store_model(*old(v)).update(i as int, d),
{
    v[i] = d;
}

/// All records of a sensor array are well-formed for the configuration.
pub open spec fn sensors_wf(s: Seq<SenseData>, cfg: SenseConfig) -> bool {
    forall|i: int| 0 <= i < s.len() ==> (#[trigger] s[i]).wf(cfg)
}

/// Fixed-capacity, index-addressed collection of per-sensor records, sized
/// once at construction.
pub struct Sensors {
    sensors: heapless::Vec<SenseData, MAX_SENSORS>,
}

impl Sensors {
    /// The records the array holds.
    pub closed spec fn view(&self) -> Seq<SenseData> {
        store_model(self.sensors)
    }

    /// Initialize a full sensor array of `capacity` default records. Fails
    /// only when the backing storage cannot be sized to `capacity`.
    pub fn new(capacity: usize) -> (r: Result<Sensors, SensorError>)
        ensures
            capacity <= MAX_SENSORS ==> {
                &&& r matches Ok(s)
                &&& s@ == Seq::new(capacity as nat, |i: int| initial_sense_data())
            },
            capacity > MAX_SENSORS ==> r == Err::<Sensors, SensorError>(SensorError::FailedToResize(capacity)),
    {
        if capacity > MAX_SENSORS {
            return Err(SensorError::FailedToResize(capacity));
        }
        let mut sensors = store_new();
        let mut i: usize = 0;
        while i < capacity
            invariant
                i <= capacity <= MAX_SENSORS,
                store_model(sensors) == Seq::new(i as nat, |j: int| initial_sense_data()),
            decreases capacity - i,
        {
            let pushed = store_push(&mut sensors, SenseData::new());
            assert(pushed);
            proof {
                assert(store_model(sensors) =~= Seq::new((i + 1) as nat, |j: int| initial_sense_data()));
            }
            i = i + 1;
        }
        Ok(Sensors { sensors })
    }

    /// How many sensors the array was sized for.
    pub fn len(&self) -> (r: usize)
        ensures
            r == self@.len(),
    {
        store_len(&self.sensors)
    }

    /// Route a raw reading to the indexed sensor's accumulation and
    /// calibration pipeline. Out-of-bounds indices fail with
    /// `InvalidSensor` and leave the array unchanged.
    pub fn add(&mut self, index: usize, reading: u16, cfg: &SenseConfig, lut: &[i16]) -> (r: Result<Option<SenseAnalysis>, SensorError>)
        requires
            cfg.wf(),
            lut_wf(lut@),
            sensors_wf(old(self)@, *cfg),
        ensures
            index < old(self)@.len() ==> {
                let (d, rr) = data_step(old(self)@[index as int], reading, *cfg, lut@);
                &&& final(self)@ == old(self)@.update(index as int, d)
                &&& r == rr
            },
            index >= old(self)@.len() ==> {
                &&& final(self)@ == old(self)@
                &&& r == Err::<Option<SenseAnalysis>, SensorError>(SensorError::InvalidSensor(index))
            },
            sensors_wf(final(self)@, *cfg),
    {
        if index < store_len(&self.sensors) {
            let mut d = *store_get(&self.sensors, index);
            let r = d.add(reading, cfg, lut);
            store_set(&mut self.sensors, index, d);
            proof {
                assert forall|i: int| 0 <= i < self@.len() implies (#[trigger] self@[i]).wf(*cfg) by {
                    if i != index as int {
                        assert(self@[i] == old(self)@[i]);
                    }
                }
            }
            r
        } else {
            Err(SensorError::InvalidSensor(index))
        }
    }

    /// Read a sensor's record. Fails with `CalibrationError` while the sensor
    /// has never been classified, and with `InvalidSensor` out of bounds.
    pub fn get_data(&self, index: usize) -> (r: Result<&SenseData, SensorError>)
        ensures
            index < self@.len() && self@[index as int].cal != CalibrationStatus::NotReady ==> {
                &&& r matches Ok(d)
                &&& *d == self@[index as int]
            },
            index < self@.len() && self@[index as int].cal == CalibrationStatus::NotReady
                ==> r == Err::<&SenseData, SensorError>(SensorError::CalibrationError(self@[index as int])),
            index >= self@.len() ==> r == Err::<&SenseData, SensorError>(SensorError::InvalidSensor(index)),
    {
        if index < store_len(&self.sensors) {
            let d = store_get(&self.sensors, index);
            match d.cal {
                CalibrationStatus::NotReady => Err(SensorError::CalibrationError(*d)),
                _ => Ok(d),
            }
        } else {
            Err(SensorError::InvalidSensor(index))
        }
    }
}

} // verus!
