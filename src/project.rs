use vstd::prelude::*;

use crate::date::{date_text, Date};
use crate::query::{check_text_has, check_text_is, text_has, text_is, value_is};
use crate::response::AppError;
use crate::store::{has_key, key_index, Collection, accepts_fn, lemma_filter_accepting_all, lemma_filter_same, Filter, NewRecord, Patch, DB};
use crate::text::{contains, is_substring};

verus! {

/// A quoted price, held as the bit pattern of its IEEE-754 double so that the
/// store copies and compares it without floating-point arithmetic.
#[derive(Debug, Clone, Copy, PartialEq, Eq, Structural)]
pub struct Price {
    pub bits: u64,
}

/// An outsourced project.
#[derive(Debug)]
pub struct EntityProject {
    pub id: String,
    pub name: String,
    pub code: String,
    pub release_date: Date,
    pub plan_delivery_date: Date,
    /// Technical effort, in person-days.
    pub tech_days: i32,
    /// Testing effort, in person-days.
    pub test_days: i32,
    pub price: Price,
    /// Project manager.
    pub pm: String,
}

/// What a new project is made from.
#[derive(Debug)]
pub struct DTOProjectCreate {
    pub name: String,
    pub code: String,
    pub release_date: Date,
    pub plan_delivery_date: Date,
    pub tech_days: i32,
    pub test_days: i32,
    pub price: Price,
    pub pm: String,
}

/// A filter for listing projects.
#[derive(Debug)]
pub struct DTOProjectParam {
    pub id: Option<String>,
    /// Occurs in the name or in the code.
    pub name_or_code: Option<String>,
    pub pm: Option<String>,
    /// Occurs in the `YYYY-MM-DD` text of the release date.
    pub release_date_fuzzy: Option<String>,
    /// Occurs in the `YYYY-MM-DD` text of the planned delivery date.
    pub plan_delivery_date_fuzzy: Option<String>,
    pub price: Option<Price>,
    /// Equals technical plus testing effort.
    pub days: Option<i32>,
}

/// A patch for updating a project.
#[derive(Debug)]
pub struct DTOProjectUpdate {
    pub name: Option<String>,
    pub code: Option<String>,
    pub release_date: Option<Date>,
    pub plan_delivery_date: Option<Date>,
    pub tech_days: Option<i32>,
    pub test_days: Option<i32>,
    pub price: Option<Price>,
    pub pm: Option<String>,
}

/// A fuzzy date slot: absent, or occurring in the date's `YYYY-MM-DD` text.
pub open spec fn date_has(slot: Option<String>, d: Date) -> bool {
    match slot {
        Some(q) => is_substring(q@, date_text(d@)),
        None => true,
    }
}

fn check_date_has(slot: &Option<String>, d: &Date) -> (r: bool)
    ensures
        r == date_has(*slot, *d),
{
    match slot {
        Some(q) => contains(&d.to_text(), q),
        None => true,
    }
}

/// Technical plus testing effort.
pub open spec fn total_days(p: EntityProject) -> int {
    p.tech_days + p.test_days
}

impl DB for EntityProject {
    open spec fn key(&self) -> Seq<char> {
        self.id@
    }

    fn id(&self) -> (r: &String) {
        &self.id
    }

    fn duplicate(&self) -> (r: Self) {
        EntityProject {
            id: self.id.clone(),
            name: self.name.clone(),
            code: self.code.clone(),
            release_date: self.release_date,
            plan_delivery_date: self.plan_delivery_date,
            tech_days: self.tech_days,
            test_days: self.test_days,
            price: self.price,
            pm: self.pm.clone(),
        }
    }

    fn get_path() -> &'static str {
        "project.json"
    }
}

impl NewRecord<EntityProject> for DTOProjectCreate {
    open spec fn made(self, r: EntityProject) -> bool {
        &&& r.name == self.name
        &&& r.code == self.code
        &&& r.release_date == self.release_date
        &&& r.plan_delivery_date == self.plan_delivery_date
        &&& r.tech_days == self.tech_days
        &&& r.test_days == self.test_days
        &&& r.price == self.price
        &&& r.pm == self.pm
    }

    fn into_record(self, id: String) -> (r: EntityProject) {
        EntityProject {
            id,
            name: self.name,
            code: self.code,
            release_date: self.release_date,
            plan_delivery_date: self.plan_delivery_date,
            tech_days: self.tech_days,
            test_days: self.test_days,
            price: self.price,
            pm: self.pm,
        }
    }
}

impl Patch<EntityProject> for DTOProjectUpdate {
    open spec fn patched(self, r: EntityProject) -> EntityProject {
        EntityProject {
            id: r.id,
            name: match self.name {
                Some(v) => v,
                None => r.name,
            },
            code: match self.code {
                Some(v) => v,
                None => r.code,
            },
            release_date: match self.release_date {
                Some(v) => v,
                None => r.release_date,
            },
            plan_delivery_date: match self.plan_delivery_date {
                Some(v) => v,
                None => r.plan_delivery_date,
            },
            tech_days: match self.tech_days {
                Some(v) => v,
                None => r.tech_days,
            },
            test_days: match self.test_days {
                Some(v) => v,
                None => r.test_days,
            },
            price: match self.price {
                Some(v) => v,
                None => r.price,
            },
            pm: match self.pm {
                Some(v) => v,
                None => r.pm,
            },
        }
    }

    proof fn lemma_keeps_key(self, r: EntityProject) {
    }

    fn apply(self, r: &mut EntityProject) {
        if let Some(v) = self.name {
            r.name = v;
        }
        if let Some(v) = self.code {
            r.code = v;
        }
        if let Some(v) = self.release_date {
            r.release_date = v;
        }
        if let Some(v) = self.plan_delivery_date {
            r.plan_delivery_date = v;
        }
        if let Some(v) = self.tech_days {
            r.tech_days = v;
        }
        if let Some(v) = self.test_days {
            r.test_days = v;
        }
        if let Some(v) = self.price {
            r.price = v;
        }
        if let Some(v) = self.pm {
            r.pm = v;
        }
    }
}

impl Filter<EntityProject> for DTOProjectParam {
    open spec fn accepts(&self, r: EntityProject) -> bool {
        &&& text_is(self.id, r.id@)
        &&& match self.name_or_code {
            Some(q) => is_substring(q@, r.name@) || is_substring(q@, r.code@),
            None => true,
        }
        &&& text_has(self.pm, r.pm@)
        &&& date_has(self.release_date_fuzzy, r.release_date)
        &&& date_has(self.plan_delivery_date_fuzzy, r.plan_delivery_date)
        &&& value_is(self.price, r.price)
        &&& match self.days {
            Some(n) => total_days(r) == n,
            None => true,
        }
    }

    fn test(&self, r: &EntityProject) -> (b: bool) {
        let name_or_code = match &self.name_or_code {
            Some(q) => contains(&r.name, q) || contains(&r.code, q),
            None => true,
        };
        let price = match self.price {
            Some(p) => p == r.price,
            None => true,
        };
        let days = match self.days {
            Some(n) => r.tech_days as i64 + r.test_days as i64 == n as i64,
            None => true,
        };
        check_text_is(&self.id, &r.id) && name_or_code && check_text_has(&self.pm, &r.pm)
            && check_date_has(&self.release_date_fuzzy, &r.release_date) && check_date_has(
            &self.plan_delivery_date_fuzzy,
            &r.plan_delivery_date,
        ) && price && days
    }
}

/// Writes the present slots of `patch` over the project with id `id` and
/// returns a copy of the result; a missing project is reported as such.
pub fn update(db: &mut Collection<EntityProject>, id: &String, patch: DTOProjectUpdate) -> (r:
    Result<EntityProject, AppError>)
    ensures
        r is Ok <==> has_key(old(db)@, id@),
        r is Ok ==> r->Ok_0 == patch.patched(old(db)@[key_index(old(db)@, id@)]) && final(db)@
            == old(db)@.update(key_index(old(db)@, id@), r->Ok_0),
        r is Err ==> r->Err_0 == AppError::ProjectNotFound && final(db)@ == old(db)@,
        final(db).wf(),
{
    match db.update(id, patch) {
        Ok(x) => Ok(x),
        Err(_) => Err(AppError::ProjectNotFound),
    }
}

/// The DTOProjectParam with every slot absent.
pub open spec fn no_project_slots() -> DTOProjectParam {
    DTOProjectParam {
        id: None,
        name_or_code: None,
        pm: None,
        release_date_fuzzy: None,
        plan_delivery_date_fuzzy: None,
        price: None,
        days: None,
    }
}

/// A filter with no slot present lists every project, in order.
pub proof fn lemma_project_filter_empty(s: Seq<EntityProject>)
    ensures
        s.filter(accepts_fn(no_project_slots())) == s,
{
    lemma_filter_accepting_all(s, no_project_slots());
}

/// A filter with one slot present lists exactly the projects that meet that
/// slot's rule: equal id; name or code containing the text; manager containing
/// the text; date text containing the text; equal price; equal total effort.
pub proof fn lemma_project_filter_one_slot(s: Seq<EntityProject>, q: String, p: Price, n: i32)
    ensures
        s.filter(accepts_fn(DTOProjectParam { id: Some(q), ..no_project_slots() })) == s.filter(
            |r: EntityProject| r.id@ == q@,
        ),
        s.filter(accepts_fn(DTOProjectParam { name_or_code: Some(q), ..no_project_slots() })) == s.filter(
            |r: EntityProject| is_substring(q@, r.name@) || is_substring(q@, r.code@),
        ),
        s.filter(accepts_fn(DTOProjectParam { pm: Some(q), ..no_project_slots() })) == s.filter(
            |r: EntityProject| is_substring(q@, r.pm@),
        ),
        s.filter(accepts_fn(DTOProjectParam { release_date_fuzzy: Some(q), ..no_project_slots() })) == s.filter(
            |r: EntityProject| is_substring(q@, date_text(r.release_date@)),
        ),
        s.filter(accepts_fn(DTOProjectParam { plan_delivery_date_fuzzy: Some(q), ..no_project_slots() })) == s.filter(
            |r: EntityProject| is_substring(q@, date_text(r.plan_delivery_date@)),
        ),
        s.filter(accepts_fn(DTOProjectParam { price: Some(p), ..no_project_slots() })) == s.filter(
            |r: EntityProject| r.price == p,
        ),
        s.filter(accepts_fn(DTOProjectParam { days: Some(n), ..no_project_slots() })) == s.filter(
            |r: EntityProject| r.tech_days + r.test_days == n,
        ),
{
    lemma_filter_same(
        s,
        DTOProjectParam { id: Some(q), ..no_project_slots() },
        |r: EntityProject| r.id@ == q@,
    );
    lemma_filter_same(
        s,
        DTOProjectParam { name_or_code: Some(q), ..no_project_slots() },
        |r: EntityProject| is_substring(q@, r.name@) || is_substring(q@, r.code@),
    );
    lemma_filter_same(
        s,
        DTOProjectParam { pm: Some(q), ..no_project_slots() },
        |r: EntityProject| is_substring(q@, r.pm@),
    );
    lemma_filter_same(
        s,
        DTOProjectParam { release_date_fuzzy: Some(q), ..no_project_slots() },
        |r: EntityProject| is_substring(q@, date_text(r.release_date@)),
    );
    lemma_filter_same(
        s,
        DTOProjectParam { plan_delivery_date_fuzzy: Some(q), ..no_project_slots() },
        |r: EntityProject| is_substring(q@, date_text(r.plan_delivery_date@)),
    );
    lemma_filter_same(
        s,
        DTOProjectParam { price: Some(p), ..no_project_slots() },
        |r: EntityProject| r.price == p,
    );
    lemma_filter_same(
        s,
        DTOProjectParam { days: Some(n), ..no_project_slots() },
        |r: EntityProject| r.tech_days + r.test_days == n,
    );
}

/// Patching a project writes exactly the slots that are present: each
/// present slot's value lands in its field, every other field and the id
/// keep their values.
pub proof fn lemma_project_patch_minimal(p: DTOProjectUpdate, r: EntityProject)
    ensures
        p.patched(r).id == r.id,
        p.name is Some ==> p.patched(r).name == p.name->0,
        p.name is None ==> p.patched(r).name == r.name,
        p.code is Some ==> p.patched(r).code == p.code->0,
        p.code is None ==> p.patched(r).code == r.code,
        p.release_date is Some ==> p.patched(r).release_date == p.release_date->0,
        p.release_date is None ==> p.patched(r).release_date == r.release_date,
        p.plan_delivery_date is Some ==> p.patched(r).plan_delivery_date == p.plan_delivery_date->0,
        p.plan_delivery_date is None ==> p.patched(r).plan_delivery_date == r.plan_delivery_date,
        p.tech_days is Some ==> p.patched(r).tech_days == p.tech_days->0,
        p.tech_days is None ==> p.patched(r).tech_days == r.tech_days,
        p.test_days is Some ==> p.patched(r).test_days == p.test_days->0,
        p.test_days is None ==> p.patched(r).test_days == r.test_days,
        p.price is Some ==> p.patched(r).price == p.price->0,
        p.price is None ==> p.patched(r).price == r.price,
        p.pm is Some ==> p.patched(r).pm == p.pm->0,
        p.pm is None ==> p.patched(r).pm == r.pm,
{
}

} // verus!
