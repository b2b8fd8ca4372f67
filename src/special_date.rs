use vstd::prelude::*;

use crate::date::Date;
use crate::query::{check_end_is, check_text_is, end_is, text_is, value_is};
use crate::store::{accepts_fn, lemma_filter_accepting_all, lemma_filter_same, Filter, NewRecord, Patch, DB};

verus! {

/// How a special date overrides the default weekend/holiday rule.
#[derive(Debug, Clone, Copy, PartialEq, Eq, Structural)]
pub enum SpecialDateType {
    /// Counts as a holiday.
    Include,
    /// Does not count as a holiday, even on a weekend.
    Exclude,
}

/// A calendar exception: one day, or a span when `end_time` is present.
#[derive(Debug)]
pub struct EntitySpecialDate {
    pub id: String,
    pub start_time: Date,
    pub end_time: Option<Date>,
    pub date_type: SpecialDateType,
}

/// What a new special date is made from.
#[derive(Debug)]
pub struct DTOSpecialDateCreate {
    pub start_time: Date,
    pub end_time: Option<Date>,
    pub date_type: SpecialDateType,
}

/// All-optional special-date fields: a filter for listing, a patch for updating.
#[derive(Debug)]
pub struct DTOSpecialDateParam {
    pub id: Option<String>,
    pub start_time: Option<Date>,
    pub end_time: Option<Date>,
    pub date_type: Option<SpecialDateType>,
}

impl DB for EntitySpecialDate {
    open spec fn key(&self) -> Seq<char> {
        self.id@
    }

    fn id(&self) -> (r: &String) {
        &self.id
    }

    fn duplicate(&self) -> (r: Self) {
        EntitySpecialDate {
            id: self.id.clone(),
            start_time: self.start_time,
            end_time: self.end_time,
            date_type: self.date_type,
        }
    }

    fn get_path() -> &'static str {
        "special_date.json"
    }
}

impl NewRecord<EntitySpecialDate> for DTOSpecialDateCreate {
    open spec fn made(self, r: EntitySpecialDate) -> bool {
        &&& r.start_time == self.start_time
        &&& r.end_time == self.end_time
        &&& r.date_type == self.date_type
    }

    fn into_record(self, id: String) -> (r: EntitySpecialDate) {
        EntitySpecialDate {
            id,
            start_time: self.start_time,
            end_time: self.end_time,
            date_type: self.date_type,
        }
    }
}

impl Patch<EntitySpecialDate> for DTOSpecialDateParam {
    /// Every present slot but the id is written; ids never change.
    open spec fn patched(self, r: EntitySpecialDate) -> EntitySpecialDate {
        EntitySpecialDate {
            id: r.id,
            start_time: match self.start_time {
                Some(v) => v,
                None => r.start_time,
            },
            end_time: match self.end_time {
                Some(v) => Some(v),
                None => r.end_time,
            },
            date_type: match self.date_type {
                Some(v) => v,
                None => r.date_type,
            },
        }
    }

    proof fn lemma_keeps_key(self, r: EntitySpecialDate) {
    }

    fn apply(self, r: &mut EntitySpecialDate) {
        if let Some(v) = self.start_time {
            r.start_time = v;
        }
        if let Some(v) = self.end_time {
            r.end_time = Some(v);
        }
        if let Some(v) = self.date_type {
            r.date_type = v;
        }
    }
}

impl Filter<EntitySpecialDate> for DTOSpecialDateParam {
    /// Every slot matches exactly.
    open spec fn accepts(&self, r: EntitySpecialDate) -> bool {
        &&& text_is(self.id, r.id@)
        &&& value_is(self.start_time, r.start_time)
        &&& end_is(self.end_time, r.end_time)
        &&& value_is(self.date_type, r.date_type)
    }

    fn test(&self, r: &EntitySpecialDate) -> (b: bool) {
        let start_time = match self.start_time {
            Some(d) => d == r.start_time,
            None => true,
        };
        let date_type = match self.date_type {
            Some(t) => t == r.date_type,
            None => true,
        };
        check_text_is(&self.id, &r.id) && start_time && check_end_is(&self.end_time, &r.end_time)
            && date_type
    }
}

/// The DTOSpecialDateParam with every slot absent.
pub open spec fn no_special_date_slots() -> DTOSpecialDateParam {
    DTOSpecialDateParam {
        id: None,
        start_time: None,
        end_time: None,
        date_type: None,
    }
}

/// A filter with no slot present lists every special date, in order.
pub proof fn lemma_special_date_filter_empty(s: Seq<EntitySpecialDate>)
    ensures
        s.filter(accepts_fn(no_special_date_slots())) == s,
{
    lemma_filter_accepting_all(s, no_special_date_slots());
}

/// A filter with one slot present lists exactly the special dates whose field
/// equals the slot (an end-date slot asks for an end date).
pub proof fn lemma_special_date_filter_one_slot(s: Seq<EntitySpecialDate>, q: String, d: Date, t: SpecialDateType)
    ensures
        s.filter(accepts_fn(DTOSpecialDateParam { id: Some(q), ..no_special_date_slots() })) == s.filter(
            |r: EntitySpecialDate| r.id@ == q@,
        ),
        s.filter(accepts_fn(DTOSpecialDateParam { start_time: Some(d), ..no_special_date_slots() })) == s.filter(
            |r: EntitySpecialDate| r.start_time == d,
        ),
        s.filter(accepts_fn(DTOSpecialDateParam { end_time: Some(d), ..no_special_date_slots() })) == s.filter(
            |r: EntitySpecialDate| r.end_time == Some(d),
        ),
        s.filter(accepts_fn(DTOSpecialDateParam { date_type: Some(t), ..no_special_date_slots() })) == s.filter(
            |r: EntitySpecialDate| r.date_type == t,
        ),
{
    lemma_filter_same(
        s,
        DTOSpecialDateParam { id: Some(q), ..no_special_date_slots() },
        |r: EntitySpecialDate| r.id@ == q@,
    );
    lemma_filter_same(
        s,
        DTOSpecialDateParam { start_time: Some(d), ..no_special_date_slots() },
        |r: EntitySpecialDate| r.start_time == d,
    );
    lemma_filter_same(
        s,
        DTOSpecialDateParam { end_time: Some(d), ..no_special_date_slots() },
        |r: EntitySpecialDate| r.end_time == Some(d),
    );
    lemma_filter_same(
        s,
        DTOSpecialDateParam { date_type: Some(t), ..no_special_date_slots() },
        |r: EntitySpecialDate| r.date_type == t,
    );
}

/// Patching a special date writes exactly the slots that are present: each
/// present slot's value lands in its field, every other field and the id
/// keep their values.
pub proof fn lemma_special_date_patch_minimal(p: DTOSpecialDateParam, r: EntitySpecialDate)
    ensures
        p.patched(r).id == r.id,
        p.start_time is Some ==> p.patched(r).start_time == p.start_time->0,
        p.start_time is None ==> p.patched(r).start_time == r.start_time,
        p.end_time is Some ==> p.patched(r).end_time == Some(p.end_time->0),
        p.end_time is None ==> p.patched(r).end_time == r.end_time,
        p.date_type is Some ==> p.patched(r).date_type == p.date_type->0,
        p.date_type is None ==> p.patched(r).date_type == r.date_type,
{
}

} // verus!
