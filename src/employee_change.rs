use vstd::prelude::*;

use crate::date::Date;
use crate::employee::EntityEmployee;
use crate::project::EntityProject;
use crate::query::{check_end_is, check_text_is, end_is, text_is, value_is};
use crate::store::{accepts_fn, lemma_filter_accepting_all, lemma_filter_same, has_key, key_index, Collection, Filter, NewRecord, Patch, DB};

verus! {

/// One employee's assignment to one project, from `in_time` to `out_time`
/// (open-ended while absent). The two ids are plain references: nothing
/// checks that they name stored records.
#[derive(Debug)]
pub struct EntityEmployeeChange {
    pub id: String,
    pub employee_id: String,
    pub project_id: String,
    pub in_time: Date,
    pub out_time: Option<Date>,
}

/// An assignment with the current names of its employee and project; a name
/// is empty where its record is missing.
#[derive(Debug)]
pub struct DTOEmployeeChange {
    pub id: String,
    pub employee_id: String,
    pub employee_name: String,
    pub project_id: String,
    pub project_name: String,
    pub in_time: Date,
    pub out_time: Option<Date>,
}

/// What a new assignment is made from.
#[derive(Debug)]
pub struct DTOEmployeeChangeCreate {
    pub employee_id: String,
    pub project_id: String,
    pub in_time: Date,
    pub out_time: Option<Date>,
}

/// All-optional assignment fields: a filter for listing, a patch for updating.
#[derive(Debug)]
pub struct DTOEmployeeChangeParam {
    pub id: Option<String>,
    pub employee_id: Option<String>,
    pub project_id: Option<String>,
    pub in_time: Option<Date>,
    pub out_time: Option<Date>,
}

impl DB for EntityEmployeeChange {
    open spec fn key(&self) -> Seq<char> {
        self.id@
    }

    fn id(&self) -> (r: &String) {
        &self.id
    }

    fn duplicate(&self) -> (r: Self) {
        EntityEmployeeChange {
            id: self.id.clone(),
            employee_id: self.employee_id.clone(),
            project_id: self.project_id.clone(),
            in_time: self.in_time,
            out_time: self.out_time,
        }
    }

    fn get_path() -> &'static str {
        "employee_change.json"
    }
}

impl NewRecord<EntityEmployeeChange> for DTOEmployeeChangeCreate {
    open spec fn made(self, r: EntityEmployeeChange) -> bool {
        &&& r.employee_id == self.employee_id
        &&& r.project_id == self.project_id
        &&& r.in_time == self.in_time
        &&& r.out_time == self.out_time
    }

    fn into_record(self, id: String) -> (r: EntityEmployeeChange) {
        EntityEmployeeChange {
            id,
            employee_id: self.employee_id,
            project_id: self.project_id,
            in_time: self.in_time,
            out_time: self.out_time,
        }
    }
}

impl Patch<EntityEmployeeChange> for DTOEmployeeChangeParam {
    /// Every present slot but the id is written; ids never change.
    open spec fn patched(self, r: EntityEmployeeChange) -> EntityEmployeeChange {
        EntityEmployeeChange {
            id: r.id,
            employee_id: match self.employee_id {
                Some(v) => v,
                None => r.employee_id,
            },
            project_id: match self.project_id {
                Some(v) => v,
                None => r.project_id,
            },
            in_time: match self.in_time {
                Some(v) => v,
                None => r.in_time,
            },
            out_time: match self.out_time {
                Some(v) => Some(v),
                None => r.out_time,
            },
        }
    }

    proof fn lemma_keeps_key(self, r: EntityEmployeeChange) {
    }

    fn apply(self, r: &mut EntityEmployeeChange) {
        if let Some(v) = self.employee_id {
            r.employee_id = v;
        }
        if let Some(v) = self.project_id {
            r.project_id = v;
        }
        if let Some(v) = self.in_time {
            r.in_time = v;
        }
        if let Some(v) = self.out_time {
            r.out_time = Some(v);
        }
    }
}

impl Filter<EntityEmployeeChange> for DTOEmployeeChangeParam {
    /// Every slot matches exactly.
    open spec fn accepts(&self, r: EntityEmployeeChange) -> bool {
        &&& text_is(self.id, r.id@)
        &&& text_is(self.employee_id, r.employee_id@)
        &&& text_is(self.project_id, r.project_id@)
        &&& value_is(self.in_time, r.in_time)
        &&& end_is(self.out_time, r.out_time)
    }

    fn test(&self, r: &EntityEmployeeChange) -> (b: bool) {
        let in_time = match self.in_time {
            Some(d) => d == r.in_time,
            None => true,
        };
        check_text_is(&self.id, &r.id) && check_text_is(&self.employee_id, &r.employee_id)
            && check_text_is(&self.project_id, &r.project_id) && in_time && check_end_is(
            &self.out_time,
            &r.out_time,
        )
    }
}

/// The name of the employee with id `id` in `s`, or empty text when there is none.
pub open spec fn employee_name(s: Seq<EntityEmployee>, id: Seq<char>) -> Seq<char> {
    if has_key(s, id) {
        s[key_index(s, id)].name@
    } else {
        Seq::empty()
    }
}

/// The name of the project with id `id` in `s`, or empty text when there is none.
pub open spec fn project_name(s: Seq<EntityProject>, id: Seq<char>) -> Seq<char> {
    if has_key(s, id) {
        s[key_index(s, id)].name@
    } else {
        Seq::empty()
    }
}

/// `d` is `c` with the names that `employees` and `projects` give its ids.
pub open spec fn decorated(
    d: DTOEmployeeChange,
    c: EntityEmployeeChange,
    employees: Seq<EntityEmployee>,
    projects: Seq<EntityProject>,
) -> bool {
    &&& d.id == c.id
    &&& d.employee_id == c.employee_id
    &&& d.employee_name@ == employee_name(employees, c.employee_id@)
    &&& d.project_id == c.project_id
    &&& d.project_name@ == project_name(projects, c.project_id@)
    &&& d.in_time == c.in_time
    &&& d.out_time == c.out_time
}

/// A reference to a missing employee or project is listed with an empty
/// name; the listing does not fail on it.
pub proof fn lemma_join_fallback(
    d: DTOEmployeeChange,
    c: EntityEmployeeChange,
    employees: Seq<EntityEmployee>,
    projects: Seq<EntityProject>,
)
    requires
        decorated(d, c, employees, projects),
    ensures
        !has_key(employees, c.employee_id@) ==> d.employee_name@ == Seq::<char>::empty(),
        !has_key(projects, c.project_id@) ==> d.project_name@ == Seq::<char>::empty(),
{
}

fn name_of_employee(employees: &Collection<EntityEmployee>, id: &String) -> (r: String)
    ensures
        r@ == employee_name(employees@, id@),
{
    match employees.position(id) {
        Some(i) => employees.records()[i].name.clone(),
        None => String::new(),
    }
}

fn name_of_project(projects: &Collection<EntityProject>, id: &String) -> (r: String)
    ensures
        r@ == project_name(projects@, id@),
{
    match projects.position(id) {
        Some(i) => projects.records()[i].name.clone(),
        None => String::new(),
    }
}

/// The assignments that `filter` accepts, in collection order, each with the
/// current names of its employee and project. A reference to a missing
/// record gives an empty name, never a failure.
pub fn list(
    changes: &Collection<EntityEmployeeChange>,
    employees: &Collection<EntityEmployee>,
    projects: &Collection<EntityProject>,
    filter: &DTOEmployeeChangeParam,
) -> (r: Vec<DTOEmployeeChange>)
    ensures
        r@.len() == changes@.filter(accepts_fn(*filter)).len(),
        forall|i: int|
            0 <= i < r@.len() ==> decorated(
                #[trigger] r@[i],
                changes@.filter(accepts_fn(*filter))[i],
                employees@,
                projects@,
            ),
{
    let found = changes.list(filter);
    let mut out: Vec<DTOEmployeeChange> = Vec::new();
    let mut i: usize = 0;
    while i < found.len()
        invariant
            i <= found@.len(),
            found@ == changes@.filter(accepts_fn(*filter)),
            out@.len() == i,
            forall|k: int|
                0 <= k < i ==> decorated(#[trigger] out@[k], found@[k], employees@, projects@),
        decreases found.len() - i,
    {
        let c = &found[i];
        let d = DTOEmployeeChange {
            id: c.id.clone(),
            employee_id: c.employee_id.clone(),
            employee_name: name_of_employee(employees, &c.employee_id),
            project_id: c.project_id.clone(),
            project_name: name_of_project(projects, &c.project_id),
            in_time: c.in_time,
            out_time: c.out_time,
        };
        out.push(d);
        i = i + 1;
    }
    out
}

/// The DTOEmployeeChangeParam with every slot absent.
pub open spec fn no_employee_change_slots() -> DTOEmployeeChangeParam {
    DTOEmployeeChangeParam {
        id: None,
        employee_id: None,
        project_id: None,
        in_time: None,
        out_time: None,
    }
}

/// A filter with no slot present lists every assignment, in order.
pub proof fn lemma_employee_change_filter_empty(s: Seq<EntityEmployeeChange>)
    ensures
        s.filter(accepts_fn(no_employee_change_slots())) == s,
{
    lemma_filter_accepting_all(s, no_employee_change_slots());
}

/// A filter with one slot present lists exactly the assignments whose field
/// equals the slot (an exit-date slot asks for an exit date).
pub proof fn lemma_employee_change_filter_one_slot(s: Seq<EntityEmployeeChange>, q: String, d: Date)
    ensures
        s.filter(accepts_fn(DTOEmployeeChangeParam { id: Some(q), ..no_employee_change_slots() })) == s.filter(
            |r: EntityEmployeeChange| r.id@ == q@,
        ),
        s.filter(accepts_fn(DTOEmployeeChangeParam { employee_id: Some(q), ..no_employee_change_slots() })) == s.filter(
            |r: EntityEmployeeChange| r.employee_id@ == q@,
        ),
        s.filter(accepts_fn(DTOEmployeeChangeParam { project_id: Some(q), ..no_employee_change_slots() })) == s.filter(
            |r: EntityEmployeeChange| r.project_id@ == q@,
        ),
        s.filter(accepts_fn(DTOEmployeeChangeParam { in_time: Some(d), ..no_employee_change_slots() })) == s.filter(
            |r: EntityEmployeeChange| r.in_time == d,
        ),
        s.filter(accepts_fn(DTOEmployeeChangeParam { out_time: Some(d), ..no_employee_change_slots() })) == s.filter(
            |r: EntityEmployeeChange| r.out_time == Some(d),
        ),
{
    lemma_filter_same(
        s,
        DTOEmployeeChangeParam { id: Some(q), ..no_employee_change_slots() },
        |r: EntityEmployeeChange| r.id@ == q@,
    );
    lemma_filter_same(
        s,
        DTOEmployeeChangeParam { employee_id: Some(q), ..no_employee_change_slots() },
        |r: EntityEmployeeChange| r.employee_id@ == q@,
    );
    lemma_filter_same(
        s,
        DTOEmployeeChangeParam { project_id: Some(q), ..no_employee_change_slots() },
        |r: EntityEmployeeChange| r.project_id@ == q@,
    );
    lemma_filter_same(
        s,
        DTOEmployeeChangeParam { in_time: Some(d), ..no_employee_change_slots() },
        |r: EntityEmployeeChange| r.in_time == d,
    );
    lemma_filter_same(
        s,
        DTOEmployeeChangeParam { out_time: Some(d), ..no_employee_change_slots() },
        |r: EntityEmployeeChange| r.out_time == Some(d),
    );
}

/// Patching an assignment writes exactly the slots that are present: each
/// present slot's value lands in its field, every other field and the id
/// keep their values.
pub proof fn lemma_employee_change_patch_minimal(p: DTOEmployeeChangeParam, r: EntityEmployeeChange)
    ensures
        p.patched(r).id == r.id,
        p.employee_id is Some ==> p.patched(r).employee_id == p.employee_id->0,
        p.employee_id is None ==> p.patched(r).employee_id == r.employee_id,
        p.project_id is Some ==> p.patched(r).project_id == p.project_id->0,
        p.project_id is None ==> p.patched(r).project_id == r.project_id,
        p.in_time is Some ==> p.patched(r).in_time == p.in_time->0,
        p.in_time is None ==> p.patched(r).in_time == r.in_time,
        p.out_time is Some ==> p.patched(r).out_time == Some(p.out_time->0),
        p.out_time is None ==> p.patched(r).out_time == r.out_time,
{
}

} // verus!
