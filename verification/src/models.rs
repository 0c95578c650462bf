//! The two record types that the service persists, their validity
//! predicates, and the column lists that the statement builder splices
//! into SQL templates.

use vstd::prelude::*;

verus! {

/// A user record, received from a request body, inserted once, and
/// echoed back to the caller as confirmation.
pub struct User {
    pub email: String,
    pub first_name: String,
    pub last_name: String,
    pub username: String,
}

/// One synthetic plant-data record, built at fan-out time and discarded
/// after its insert attempt.
pub struct PlantData {
    pub plant_id: i32,
    pub created_at: String,
    pub updated_at: String,
    pub planned_data: i32,
    pub unplanned_data: i32,
}

/// Field-wise equality of two user records, over their character contents.
pub open spec fn user_fields_eq(a: User, b: User) -> bool {
    &&& a.email@ == b.email@
    &&& a.first_name@ == b.first_name@
    &&& a.last_name@ == b.last_name@
    &&& a.username@ == b.username@
}

/// Smallest plant identifier a synthetic record may carry.
pub const PLANT_ID_MIN: i32 = 1;

/// Exclusive upper bound on the plant identifiers a synthetic record may carry.
pub const PLANT_ID_END: i32 = 10;

/// Smallest planned/unplanned data value a synthetic record may carry.
pub const DATA_MIN: i32 = 1;

/// Exclusive upper bound on the planned/unplanned data values.
pub const DATA_END: i32 = 101;

/// A plant-data record is valid when its plant identifier comes from the
/// fixed range of known plants and both data values come from the positive
/// bounded range.
pub open spec fn plant_data_valid(p: PlantData) -> bool {
    &&& PLANT_ID_MIN <= p.plant_id < PLANT_ID_END
    &&& DATA_MIN <= p.planned_data < DATA_END
    &&& DATA_MIN <= p.unplanned_data < DATA_END
}

impl User {
    /// The comma-joined, table-qualified column list of the `users` table,
    /// in field declaration order.
    pub fn sql_table_fields() -> (r: String)
        ensures
            r@ == " users.email ,  users.first_name ,  users.last_name ,  users.username "@,
    {
        " users.email ,  users.first_name ,  users.last_name ,  users.username ".to_owned()
    }
}

impl PlantData {
    /// The comma-joined, table-qualified column list of the `plantdata`
    /// table, in field declaration order.
    pub fn sql_table_fields() -> (r: String)
        ensures
            r@
                == " plantdata.plant_id ,  plantdata.created_at ,  plantdata.updated_at ,  plantdata.planned_data ,  plantdata.unplanned_data "@,
    {
        " plantdata.plant_id ,  plantdata.created_at ,  plantdata.updated_at ,  plantdata.planned_data ,  plantdata.unplanned_data ".to_owned()
    }
}

} // verus!
