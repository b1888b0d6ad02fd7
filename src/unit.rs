use vstd::prelude::*;

verus! {

/// One failed unit as the service manager reported it at query time.
///
/// The two object paths are held as their text.
#[derive(Clone, Debug)]
pub struct UnitInfo {
    pub name: String,
    pub description: String,
    pub load_state: String,
    pub active_state: String,
    pub sub_state: String,
    pub following_unit: String,
    pub object_path: String,
    pub job_queued: u32,
    pub job_type: String,
    pub job_object_path: String,
}

/// A unit record in the manager's wire order:
/// `(name, description, load_state, active_state, sub_state, following_unit,
/// object_path, job_queued, job_type, job_object_path)`.
pub type RawUnitInfo = (
    String,
    String,
    String,
    String,
    String,
    String,
    String,
    u32,
    String,
    String,
);

/// The record that holds the fields of `x`, position by position.
pub open spec fn unit_of(x: RawUnitInfo) -> UnitInfo {
    UnitInfo {
        name: x.0,
        description: x.1,
        load_state: x.2,
        active_state: x.3,
        sub_state: x.4,
        following_unit: x.5,
        object_path: x.6,
        job_queued: x.7,
        job_type: x.8,
        job_object_path: x.9,
    }
}

/// Builds a record from a tuple in the manager's wire order.
impl From<RawUnitInfo> for UnitInfo {
    fn from(x: RawUnitInfo) -> UnitInfo {
        UnitInfo {
            name: x.0,
            description: x.1,
            load_state: x.2,
            active_state: x.3,
            sub_state: x.4,
            following_unit: x.5,
            object_path: x.6,
            job_queued: x.7,
            job_type: x.8,
            job_object_path: x.9,
        }
    }
}

impl vstd::std_specs::convert::FromSpecImpl<RawUnitInfo> for UnitInfo {
    open spec fn obeys_from_spec() -> bool {
        true
    }

    open spec fn from_spec(x: RawUnitInfo) -> UnitInfo {
        unit_of(x)
    }
}

} // verus!
