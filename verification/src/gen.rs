//! Synthetic plant-data generation for the fan-out batch: bounded random
//! values and current-time timestamps, behind trusted calls into the
//! random-number and calendar crates.

use rand::Rng;
use vstd::prelude::*;

use crate::models::{plant_data_valid, PlantData, DATA_END, DATA_MIN, PLANT_ID_END, PLANT_ID_MIN};

verus! {

/// Relies on rand::Rng::gen_range over the half-open range `lo..hi` on
/// i32: it returns a value of that range, and panics only when the range
/// is empty, which the precondition rules out.
#[verifier::external_body]
fn random_in_range(lo: i32, hi: i32) -> (r: i32)
    requires
        lo < hi,
    ensures
        lo <= r < hi,
{
    rand::thread_rng().gen_range(lo..hi)
}

/// Relies on chrono: Utc::now().to_rfc3339() formats the current time as
/// a nonempty RFC 3339 / ISO 8601 string.
#[verifier::external_body]
fn now_rfc3339() -> (r: String)
    ensures
        r@.len() > 0,
{
    chrono::Utc::now().to_rfc3339()
}

/// Builds one synthetic plant-data record: a plant identifier from the
/// fixed range of known plants, both data values from the positive
/// bounded range, and the current time as creation and update timestamps.
pub fn make_plant_record() -> (p: PlantData)
    ensures
        plant_data_valid(p),
        p.created_at@.len() > 0,
        p.updated_at@.len() > 0,
{
    PlantData {
        plant_id: random_in_range(PLANT_ID_MIN, PLANT_ID_END),
        created_at: now_rfc3339(),
        updated_at: now_rfc3339(),
        planned_data: random_in_range(DATA_MIN, DATA_END),
        unplanned_data: random_in_range(DATA_MIN, DATA_END),
    }
}

/// Generates the fixed-width batch of synthetic records the coordinator
/// fans out: exactly `width` records, every one valid.
pub fn make_batch(width: usize) -> (records: Vec<PlantData>)
    ensures
        records@.len() == width,
        forall|i: int| 0 <= i < records@.len() ==> plant_data_valid(#[trigger] records@[i]),
{
    let mut records: Vec<PlantData> = Vec::new();
    let mut k: usize = 0;
    while k < width
        invariant
            k <= width,
            records@.len() == k,
            forall|i: int| 0 <= i < records@.len() ==> plant_data_valid(#[trigger] records@[i]),
        decreases width - k,
    {
        let p = make_plant_record();
        records.push(p);
        k = k + 1;
    }
    records
}

} // verus!
