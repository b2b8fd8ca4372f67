use vstd::prelude::*;

use crate::query::{
    check_text_has, check_text_has_opt, check_text_is, copy_opt, text_has, text_has_opt, text_is,
    value_is,
};
use crate::store::{
    accepts_fn, lemma_filter_accepting_all, lemma_filter_same, Filter, NewRecord, Patch, DB,
};
use crate::text::is_substring;

verus! {

/// Where an employee stands.
#[derive(Debug, Clone, Copy, PartialEq, Eq, Structural)]
pub enum EmployeeStatus {
    /// On a project.
    Working,
    /// Off a project.
    Leave,
    /// Gone from the company.
    Quit,
}

/// The display text of a status.
pub open spec fn status_meaning(status: EmployeeStatus) -> Seq<char> {
    match status {
        EmployeeStatus::Working => "在职"@,
        EmployeeStatus::Leave => "请假"@,
        EmployeeStatus::Quit => "离职"@,
    }
}

pub fn get_employee_status_meaning(status: &EmployeeStatus) -> (r: String)
    ensures
        r@ == status_meaning(*status),
{
    match status {
        EmployeeStatus::Working => String::from_str("在职"),
        EmployeeStatus::Leave => String::from_str("请假"),
        EmployeeStatus::Quit => String::from_str("离职"),
    }
}

/// An employee.
#[derive(Debug)]
pub struct EntityEmployee {
    pub id: String,
    pub name: String,
    pub status: EmployeeStatus,
    /// Role, when one is recorded.
    pub position: Option<String>,
}

/// An employee with the display text of its status.
#[derive(Debug)]
pub struct DTOEmployee {
    pub id: String,
    pub name: String,
    pub status: EmployeeStatus,
    pub status_meaning: String,
    pub position: Option<String>,
}

/// What a new employee is made from; the status defaults to `Working`.
#[derive(Debug)]
pub struct DTOEmployeeCreate {
    pub name: String,
    pub status: Option<EmployeeStatus>,
    pub position: Option<String>,
}

/// All-optional employee fields: a filter for listing, a patch for updating.
#[derive(Debug)]
pub struct DTOEmployeeParam {
    pub id: Option<String>,
    pub name: Option<String>,
    pub status: Option<EmployeeStatus>,
    pub position: Option<String>,
}

impl DB for EntityEmployee {
    open spec fn key(&self) -> Seq<char> {
        self.id@
    }

    fn id(&self) -> (r: &String) {
        &self.id
    }

    fn duplicate(&self) -> (r: Self) {
        EntityEmployee {
            id: self.id.clone(),
            name: self.name.clone(),
            status: self.status,
            position: copy_opt(&self.position),
        }
    }

    fn get_path() -> &'static str {
        "employee.json"
    }
}

impl DTOEmployee {
    /// The employee `e` with the display text of its status.
    pub fn from_entity(e: &EntityEmployee) -> (r: DTOEmployee)
        ensures
            r.id == e.id,
            r.name == e.name,
            r.status == e.status,
            r.status_meaning@ == status_meaning(e.status),
            r.position == e.position,
    {
        DTOEmployee {
            id: e.id.clone(),
            name: e.name.clone(),
            status: e.status,
            status_meaning: get_employee_status_meaning(&e.status),
            position: copy_opt(&e.position),
        }
    }
}

impl NewRecord<EntityEmployee> for DTOEmployeeCreate {
    open spec fn made(self, r: EntityEmployee) -> bool {
        &&& r.name == self.name
        &&& r.status == match self.status {
            Some(s) => s,
            None => EmployeeStatus::Working,
        }
        &&& r.position == self.position
    }

    fn into_record(self, id: String) -> (r: EntityEmployee) {
        EntityEmployee {
            id,
            name: self.name,
            status: match self.status {
                Some(s) => s,
                None => EmployeeStatus::Working,
            },
            position: self.position,
        }
    }
}

impl Patch<EntityEmployee> for DTOEmployeeParam {
    /// Name, status and position are written where present; the id slot
    /// changes nothing, since ids never change.
    open spec fn patched(self, r: EntityEmployee) -> EntityEmployee {
        EntityEmployee {
            id: r.id,
            name: match self.name {
                Some(v) => v,
                None => r.name,
            },
            status: match self.status {
                Some(v) => v,
                None => r.status,
            },
            position: match self.position {
                Some(v) => Some(v),
                None => r.position,
            },
        }
    }

    proof fn lemma_keeps_key(self, r: EntityEmployee) {
    }

    fn apply(self, r: &mut EntityEmployee) {
        if let Some(v) = self.name {
            r.name = v;
        }
        if let Some(v) = self.status {
            r.status = v;
        }
        if let Some(v) = self.position {
            r.position = Some(v);
        }
    }
}

impl Filter<EntityEmployee> for DTOEmployeeParam {
    /// Id and status match exactly; name and position by substring.
    open spec fn accepts(&self, r: EntityEmployee) -> bool {
        &&& text_is(self.id, r.id@)
        &&& text_has(self.name, r.name@)
        &&& value_is(self.status, r.status)
        &&& text_has_opt(self.position, r.position)
    }

    fn test(&self, r: &EntityEmployee) -> (b: bool) {
        check_text_is(&self.id, &r.id) && check_text_has(&self.name, &r.name) && match self.status {
            Some(s) => s == r.status,
            None => true,
        } && check_text_has_opt(&self.position, &r.position)
    }
}

/// The DTOEmployeeParam with every slot absent.
pub open spec fn no_employee_slots() -> DTOEmployeeParam {
    DTOEmployeeParam {
        id: None,
        name: None,
        status: None,
        position: None,
    }
}

/// A filter with no slot present lists every employee, in order.
pub proof fn lemma_employee_filter_empty(s: Seq<EntityEmployee>)
    ensures
        s.filter(accepts_fn(no_employee_slots())) == s,
{
    lemma_filter_accepting_all(s, no_employee_slots());
}

/// A filter with one slot present lists exactly the employees that meet that
/// slot's rule: equal id, name containing the text, equal status, position
/// present and containing the text.
pub proof fn lemma_employee_filter_one_slot(s: Seq<EntityEmployee>, q: String, st: EmployeeStatus)
    ensures
        s.filter(accepts_fn(DTOEmployeeParam { id: Some(q), ..no_employee_slots() })) == s.filter(
            |r: EntityEmployee| r.id@ == q@,
        ),
        s.filter(accepts_fn(DTOEmployeeParam { name: Some(q), ..no_employee_slots() })) == s.filter(
            |r: EntityEmployee| is_substring(q@, r.name@),
        ),
        s.filter(accepts_fn(DTOEmployeeParam { status: Some(st), ..no_employee_slots() })) == s.filter(
            |r: EntityEmployee| r.status == st,
        ),
        s.filter(accepts_fn(DTOEmployeeParam { position: Some(q), ..no_employee_slots() })) == s.filter(
            |r: EntityEmployee| match r.position {
                Some(p) => is_substring(q@, p@),
                None => false,
            },
        ),
{
    lemma_filter_same(
        s,
        DTOEmployeeParam { id: Some(q), ..no_employee_slots() },
        |r: EntityEmployee| r.id@ == q@,
    );
    lemma_filter_same(
        s,
        DTOEmployeeParam { name: Some(q), ..no_employee_slots() },
        |r: EntityEmployee| is_substring(q@, r.name@),
    );
    lemma_filter_same(
        s,
        DTOEmployeeParam { status: Some(st), ..no_employee_slots() },
        |r: EntityEmployee| r.status == st,
    );
    lemma_filter_same(
        s,
        DTOEmployeeParam { position: Some(q), ..no_employee_slots() },
        |r: EntityEmployee| match r.position {
            Some(p) => is_substring(q@, p@),
            None => false,
        },
    );
}

/// Patching an employee writes exactly the slots that are present: each
/// present slot's value lands in its field, every other field and the id
/// keep their values.
pub proof fn lemma_employee_patch_minimal(p: DTOEmployeeParam, r: EntityEmployee)
    ensures
        p.patched(r).id == r.id,
        p.name is Some ==> p.patched(r).name == p.name->0,
        p.name is None ==> p.patched(r).name == r.name,
        p.status is Some ==> p.patched(r).status == p.status->0,
        p.status is None ==> p.patched(r).status == r.status,
        p.position is Some ==> p.patched(r).position == Some(p.position->0),
        p.position is None ==> p.patched(r).position == r.position,
{
}

} // verus!
