use vstd::prelude::*;

use crate::date::Date;
use crate::query::{check_end_is, check_text_is, end_is, text_is, value_is};
use crate::store::{accepts_fn, lemma_filter_accepting_all, lemma_filter_same, Filter, NewRecord, Patch, DB};

verus! {

/// Kind of special attendance.
#[derive(Debug, Clone, Copy, PartialEq, Eq, Structural)]
pub enum AttendanceType {
    Leave,
    CompensatoryLeave,
    Overtime,
}

/// A leave, overtime or compensatory-leave span of one employee. Each end
/// may count as half a day.
#[derive(Debug)]
pub struct EntityAttendance {
    pub id: String,
    pub start_time: Date,
    pub end_time: Option<Date>,
    pub employee_id: String,
    pub date_type: AttendanceType,
    /// The first day counts as half a day.
    pub start_half: bool,
    /// The last day counts as half a day.
    pub end_half: bool,
}

/// What a new attendance record is made from.
#[derive(Debug)]
pub struct DTOAttendanceCreate {
    pub start_time: Date,
    pub end_time: Option<Date>,
    pub employee_id: String,
    pub date_type: AttendanceType,
    pub start_half: bool,
    pub end_half: bool,
}

/// All-optional attendance fields: a filter for listing, a patch for updating.
#[derive(Debug)]
pub struct DTOAttendanceParam {
    pub id: Option<String>,
    pub start_time: Option<Date>,
    pub end_time: Option<Date>,
    pub employee_id: Option<String>,
    pub date_type: Option<AttendanceType>,
    pub start_half: Option<bool>,
    pub end_half: Option<bool>,
}

impl DB for EntityAttendance {
    open spec fn key(&self) -> Seq<char> {
        self.id@
    }

    fn id(&self) -> (r: &String) {
        &self.id
    }

    fn duplicate(&self) -> (r: Self) {
        EntityAttendance {
            id: self.id.clone(),
            start_time: self.start_time,
            end_time: self.end_time,
            employee_id: self.employee_id.clone(),
            date_type: self.date_type,
            start_half: self.start_half,
            end_half: self.end_half,
        }
    }

    fn get_path() -> &'static str {
        "attendance.json"
    }
}

impl NewRecord<EntityAttendance> for DTOAttendanceCreate {
    open spec fn made(self, r: EntityAttendance) -> bool {
        &&& r.start_time == self.start_time
        &&& r.end_time == self.end_time
        &&& r.employee_id == self.employee_id
        &&& r.date_type == self.date_type
        &&& r.start_half == self.start_half
        &&& r.end_half == self.end_half
    }

    fn into_record(self, id: String) -> (r: EntityAttendance) {
        EntityAttendance {
            id,
            start_time: self.start_time,
            end_time: self.end_time,
            employee_id: self.employee_id,
            date_type: self.date_type,
            start_half: self.start_half,
            end_half: self.end_half,
        }
    }
}

impl Patch<EntityAttendance> for DTOAttendanceParam {
    /// Every present slot but the id is written; ids never change.
    open spec fn patched(self, r: EntityAttendance) -> EntityAttendance {
        EntityAttendance {
            id: r.id,
            start_time: match self.start_time {
                Some(v) => v,
                None => r.start_time,
            },
            end_time: match self.end_time {
                Some(v) => Some(v),
                None => r.end_time,
            },
            employee_id: match self.employee_id {
                Some(v) => v,
                None => r.employee_id,
            },
            date_type: match self.date_type {
                Some(v) => v,
                None => r.date_type,
            },
            start_half: match self.start_half {
                Some(v) => v,
                None => r.start_half,
            },
            end_half: match self.end_half {
                Some(v) => v,
                None => r.end_half,
            },
        }
    }

    proof fn lemma_keeps_key(self, r: EntityAttendance) {
    }

    fn apply(self, r: &mut EntityAttendance) {
        if let Some(v) = self.start_time {
            r.start_time = v;
        }
        if let Some(v) = self.end_time {
            r.end_time = Some(v);
        }
        if let Some(v) = self.employee_id {
            r.employee_id = v;
        }
        if let Some(v) = self.date_type {
            r.date_type = v;
        }
        if let Some(v) = self.start_half {
            r.start_half = v;
        }
        if let Some(v) = self.end_half {
            r.end_half = v;
        }
    }
}

impl Filter<EntityAttendance> for DTOAttendanceParam {
    /// Every slot matches exactly.
    open spec fn accepts(&self, r: EntityAttendance) -> bool {
        &&& text_is(self.id, r.id@)
        &&& value_is(self.start_time, r.start_time)
        &&& end_is(self.end_time, r.end_time)
        &&& text_is(self.employee_id, r.employee_id@)
        &&& value_is(self.date_type, r.date_type)
        &&& value_is(self.start_half, r.start_half)
        &&& value_is(self.end_half, r.end_half)
    }

    fn test(&self, r: &EntityAttendance) -> (b: bool) {
        let start_time = match self.start_time {
            Some(d) => d == r.start_time,
            None => true,
        };
        let date_type = match self.date_type {
            Some(t) => t == r.date_type,
            None => true,
        };
        let start_half = match self.start_half {
            Some(h) => h == r.start_half,
            None => true,
        };
        let end_half = match self.end_half {
            Some(h) => h == r.end_half,
            None => true,
        };
        check_text_is(&self.id, &r.id) && start_time && check_end_is(&self.end_time, &r.end_time)
            && check_text_is(&self.employee_id, &r.employee_id) && date_type && start_half
            && end_half
    }
}

/// The DTOAttendanceParam with every slot absent.
pub open spec fn no_attendance_slots() -> DTOAttendanceParam {
    DTOAttendanceParam {
        id: None,
        start_time: None,
        end_time: None,
        employee_id: None,
        date_type: None,
        start_half: None,
        end_half: None,
    }
}

/// A filter with no slot present lists every attendance record, in order.
pub proof fn lemma_attendance_filter_empty(s: Seq<EntityAttendance>)
    ensures
        s.filter(accepts_fn(no_attendance_slots())) == s,
{
    lemma_filter_accepting_all(s, no_attendance_slots());
}

/// A filter with one slot present lists exactly the attendance records whose
/// field equals the slot (an end-date slot asks for an end date).
pub proof fn lemma_attendance_filter_one_slot(s: Seq<EntityAttendance>, q: String, d: Date, t: AttendanceType, h: bool)
    ensures
        s.filter(accepts_fn(DTOAttendanceParam { id: Some(q), ..no_attendance_slots() })) == s.filter(
            |r: EntityAttendance| r.id@ == q@,
        ),
        s.filter(accepts_fn(DTOAttendanceParam { start_time: Some(d), ..no_attendance_slots() })) == s.filter(
            |r: EntityAttendance| r.start_time == d,
        ),
        s.filter(accepts_fn(DTOAttendanceParam { end_time: Some(d), ..no_attendance_slots() })) == s.filter(
            |r: EntityAttendance| r.end_time == Some(d),
        ),
        s.filter(accepts_fn(DTOAttendanceParam { employee_id: Some(q), ..no_attendance_slots() })) == s.filter(
            |r: EntityAttendance| r.employee_id@ == q@,
        ),
        s.filter(accepts_fn(DTOAttendanceParam { date_type: Some(t), ..no_attendance_slots() })) == s.filter(
            |r: EntityAttendance| r.date_type == t,
        ),
        s.filter(accepts_fn(DTOAttendanceParam { start_half: Some(h), ..no_attendance_slots() })) == s.filter(
            |r: EntityAttendance| r.start_half == h,
        ),
        s.filter(accepts_fn(DTOAttendanceParam { end_half: Some(h), ..no_attendance_slots() })) == s.filter(
            |r: EntityAttendance| r.end_half == h,
        ),
{
    lemma_filter_same(
        s,
        DTOAttendanceParam { id: Some(q), ..no_attendance_slots() },
        |r: EntityAttendance| r.id@ == q@,
    );
    lemma_filter_same(
        s,
        DTOAttendanceParam { start_time: Some(d), ..no_attendance_slots() },
        |r: EntityAttendance| r.start_time == d,
    );
    lemma_filter_same(
        s,
        DTOAttendanceParam { end_time: Some(d), ..no_attendance_slots() },
        |r: EntityAttendance| r.end_time == Some(d),
    );
    lemma_filter_same(
        s,
        DTOAttendanceParam { employee_id: Some(q), ..no_attendance_slots() },
        |r: EntityAttendance| r.employee_id@ == q@,
    );
    lemma_filter_same(
        s,
        DTOAttendanceParam { date_type: Some(t), ..no_attendance_slots() },
        |r: EntityAttendance| r.date_type == t,
    );
    lemma_filter_same(
        s,
        DTOAttendanceParam { start_half: Some(h), ..no_attendance_slots() },
        |r: EntityAttendance| r.start_half == h,
    );
    lemma_filter_same(
        s,
        DTOAttendanceParam { end_half: Some(h), ..no_attendance_slots() },
        |r: EntityAttendance| r.end_half == h,
    );
}

/// Patching an attendance record writes exactly the slots that are present: each
/// present slot's value lands in its field, every other field and the id
/// keep their values.
pub proof fn lemma_attendance_patch_minimal(p: DTOAttendanceParam, r: EntityAttendance)
    ensures
        p.patched(r).id == r.id,
        p.start_time is Some ==> p.patched(r).start_time == p.start_time->0,
        p.start_time is None ==> p.patched(r).start_time == r.start_time,
        p.end_time is Some ==> p.patched(r).end_time == Some(p.end_time->0),
        p.end_time is None ==> p.patched(r).end_time == r.end_time,
        p.employee_id is Some ==> p.patched(r).employee_id == p.employee_id->0,
        p.employee_id is None ==> p.patched(r).employee_id == r.employee_id,
        p.date_type is Some ==> p.patched(r).date_type == p.date_type->0,
        p.date_type is None ==> p.patched(r).date_type == r.date_type,
        p.start_half is Some ==> p.patched(r).start_half == p.start_half->0,
        p.start_half is None ==> p.patched(r).start_half == r.start_half,
        p.end_half is Some ==> p.patched(r).end_half == p.end_half->0,
        p.end_half is None ==> p.patched(r).end_half == r.end_half,
{
}

} // verus!
