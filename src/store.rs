use vstd::prelude::*;

use crate::response::AppError;

verus! {

/// A record kind kept in a collection store: it has an id and can be copied.
pub trait DB: Sized {
    /// The record's id, as characters.
    spec fn key(&self) -> Seq<char>;

    fn id(&self) -> (r: &String)
        ensures
            r@ == self.key(),
    ;

    fn duplicate(&self) -> (r: Self)
        ensures
            r == *self,
    ;

    /// Name of the file that mirrors the collection of this kind.
    fn get_path() -> &'static str;
}

/// A create payload for records of kind `R`: with a fresh id it makes one record.
pub trait NewRecord<R: DB>: Sized {
    /// `r` holds what the payload gives, with the defaults filled in for what
    /// it leaves out; the id is not constrained here.
    spec fn made(self, r: R) -> bool;

    fn into_record(self, id: String) -> (r: R)
        ensures
            self.made(r),
            r.key() == id@,
    ;
}

/// A partial update for records of kind `R`: only the slots that are present
/// overwrite fields; the id never changes.
pub trait Patch<R: DB>: Sized {
    /// `r` with the present slots written over it.
    spec fn patched(self, r: R) -> R;

    proof fn lemma_keeps_key(self, r: R)
        ensures
            self.patched(r).key() == r.key(),
    ;

    fn apply(self, r: &mut R)
        ensures
            *final(r) == self.patched(*old(r)),
    ;
}

/// A filter over records of kind `R`: every present slot constrains one field.
pub trait Filter<R>: Sized {
    /// `r` meets every present slot.
    spec fn accepts(&self, r: R) -> bool;

    fn test(&self, r: &R) -> (b: bool)
        ensures
            b == self.accepts(*r),
    ;
}

/// The position of the record with id `k` in `s`; with unique ids there is at
/// most one.
pub open spec fn key_index<R: DB>(s: Seq<R>, k: Seq<char>) -> int {
    choose|i: int| 0 <= i < s.len() && #[trigger] s[i].key() == k
}

/// With unique ids, the record with id `k` stands at `key_index`.
pub proof fn lemma_key_index<R: DB>(s: Seq<R>, k: Seq<char>, i: int)
    requires
        unique_keys(s),
        0 <= i < s.len(),
        s[i].key() == k,
    ensures
        key_index(s, k) == i,
{
    let j = key_index(s, k);
    assert(0 <= j < s.len() && s[j].key() == k);
}

/// The predicate of `filter`, as a function.
pub open spec fn accepts_fn<R, F: Filter<R>>(filter: F) -> spec_fn(R) -> bool {
    |x: R| filter.accepts(x)
}

/// No two records of `s` share an id.
pub open spec fn unique_keys<R: DB>(s: Seq<R>) -> bool {
    forall|i: int, j: int| 0 <= i < s.len() && 0 <= j < s.len() && i != j ==> #[trigger] s[i].key() != #[trigger] s[j].key()
}

/// Some record of `s` has the id `k`.
pub open spec fn has_key<R: DB>(s: Seq<R>, k: Seq<char>) -> bool {
    exists|i: int| 0 <= i < s.len() && #[trigger] s[i].key() == k
}

/// Relies on uuid::Uuid::new_v4 for a random version 4 UUID and on its
/// `Display`, which writes the 36-character hyphenated lower-case form.
#[verifier::external_body]
fn new_id() -> (r: String)
    ensures
        r@.len() == 36,
{
    uuid::Uuid::new_v4().to_string()
}

/// Creating keeps ids unique: a record whose id is not stored yet, put in
/// front of records with unique ids, leaves all ids unique.
pub proof fn lemma_prepend_keeps_ids_unique<R: DB>(s: Seq<R>, r: R)
    requires
        unique_keys(s),
        !has_key(s, r.key()),
    ensures
        unique_keys(seq![r] + s),
{
    let t = seq![r] + s;
    assert forall|i: int, j: int|
        0 <= i < t.len() && 0 <= j < t.len() && i != j implies #[trigger] t[i].key()
        != #[trigger] t[j].key() by {
        if i == 0 {
            assert(s[j - 1] == t[j]);
        } else if j == 0 {
            assert(s[i - 1] == t[i]);
        } else {
            assert(s[i - 1] == t[i]);
            assert(s[j - 1] == t[j]);
        }
    }
}

/// Any number of creates keeps ids unique. `new` holds the created records,
/// latest first; each had an id that was not stored when it was made (among
/// `s` and the records made before it). Then the whole store keeps unique
/// ids, and so do the created records among themselves.
pub proof fn lemma_creates_keep_ids_unique<R: DB>(new: Seq<R>, s: Seq<R>)
    requires
        unique_keys(s),
        forall|i: int|
            0 <= i < new.len() ==> !has_key(new.subrange(i + 1, new.len() as int) + s, #[trigger] new[i].key()),
    ensures
        unique_keys(new + s),
        unique_keys(new),
    decreases new.len(),
{
    if new.len() == 0 {
        assert(new + s =~= s);
    } else {
        let rest = new.subrange(1, new.len() as int);
        assert forall|i: int| 0 <= i < rest.len() implies !has_key(
            rest.subrange(i + 1, rest.len() as int) + s,
            #[trigger] rest[i].key(),
        ) by {
            assert(rest.subrange(i + 1, rest.len() as int) =~= new.subrange(i + 2, new.len() as int));
            assert(rest[i] == new[i + 1]);
        }
        lemma_creates_keep_ids_unique(rest, s);
        assert(new.subrange(1, new.len() as int) + s == rest + s);
        assert(!has_key(rest + s, new[0].key()));
        lemma_prepend_keeps_ids_unique(rest + s, new[0]);
        assert(seq![new[0]] + (rest + s) =~= new + s);
    }
    let t = new + s;
    assert forall|i: int, j: int|
        0 <= i < new.len() && 0 <= j < new.len() && i != j implies #[trigger] new[i].key()
        != #[trigger] new[j].key() by {
        assert(t[i] == new[i]);
        assert(t[j] == new[j]);
    }
}

/// Deleting is exact: removing the record with id `k` from records with
/// unique ids leaves one record fewer, none with id `k`, every other record
/// in place and ids still unique.
pub proof fn lemma_delete_exact<R: DB>(s: Seq<R>, k: Seq<char>)
    requires
        unique_keys(s),
        has_key(s, k),
    ensures
        s.remove(key_index(s, k)).len() == s.len() - 1,
        !has_key(s.remove(key_index(s, k)), k),
        forall|r: R| #[trigger] s.contains(r) && r.key() != k ==> s.remove(key_index(s, k)).contains(r),
        forall|r: R| #[trigger] s.remove(key_index(s, k)).contains(r) ==> s.contains(r),
        unique_keys(s.remove(key_index(s, k))),
{
    let i = key_index(s, k);
    let t = s.remove(i);
    assert(0 <= i < s.len() && s[i].key() == k);
    assert forall|a: int| 0 <= a < t.len() implies #[trigger] t[a] == s[if a < i { a } else { a + 1 }] by {
    }
    assert forall|a: int, b: int|
        0 <= a < t.len() && 0 <= b < t.len() && a != b implies #[trigger] t[a].key()
        != #[trigger] t[b].key() by {
        assert(t[a] == s[if a < i { a } else { a + 1 }]);
        assert(t[b] == s[if b < i { b } else { b + 1 }]);
    }
    assert forall|a: int| 0 <= a < t.len() implies #[trigger] t[a].key() != k by {
        assert(t[a] == s[if a < i { a } else { a + 1 }]);
    }
    assert forall|r: R| #[trigger] s.contains(r) && r.key() != k implies t.contains(r) by {
        let a = choose|a: int| 0 <= a < s.len() && s[a] == r;
        assert(a != i);
        let b = if a < i { a } else { a - 1 };
        assert(t[b] == r);
    }
    assert forall|r: R| #[trigger] t.contains(r) implies s.contains(r) by {
        let a = choose|a: int| 0 <= a < t.len() && t[a] == r;
        assert(s[if a < i { a } else { a + 1 }] == r);
    }
}

/// Two filters that accept the same records select the same records.
pub proof fn lemma_filter_same<R, F: Filter<R>>(s: Seq<R>, f: F, pred: spec_fn(R) -> bool)
    requires
        forall|r: R| #[trigger] f.accepts(r) == pred(r),
    ensures
        s.filter(accepts_fn(f)) == s.filter(pred),
{
    assert(accepts_fn(f) =~= pred);
}

/// A filter that accepts every record lists the whole collection, in order.
pub proof fn lemma_filter_accepting_all<R, F: Filter<R>>(s: Seq<R>, f: F)
    requires
        forall|r: R| #[trigger] f.accepts(r),
    ensures
        s.filter(accepts_fn(f)) == s,
    decreases s.len(),
{
    reveal(Seq::filter);
    if s.len() > 0 {
        lemma_filter_accepting_all(s.drop_last(), f);
        assert(s.drop_last().push(s.last()) =~= s);
    } else {
        assert(s.filter(accepts_fn(f)) =~= s);
    }
}

/// The ordered records of one kind. Ids are unique; new records come first.
pub struct Collection<R: DB> {
    records: Vec<R>,
}

impl<R: DB> View for Collection<R> {
    type V = Seq<R>;

    closed spec fn view(&self) -> Seq<R> {
        self.records@
    }
}

impl<R: DB> Collection<R> {
    #[verifier::type_invariant]
    spec fn inv(&self) -> bool {
        unique_keys(self.records@)
    }

    /// Ids are unique. Every collection is well formed: constructors give it
    /// and the operations keep it.
    pub open spec fn wf(&self) -> bool {
        unique_keys(self@)
    }

    /// An empty collection.
    pub fn new() -> (r: Self)
        ensures
            r@ == Seq::<R>::empty(),
            r.wf(),
    {
        Collection { records: Vec::new() }
    }

    /// Number of records.
    pub fn len(&self) -> (r: usize)
        ensures
            r == self@.len(),
    {
        self.records.len()
    }

    /// Index of the record with id `id`, if any.
    pub fn position(&self, id: &String) -> (r: Option<usize>)
        ensures
            match r {
                Some(i) => has_key(self@, id@) && i == key_index(self@, id@),
                None => !has_key(self@, id@),
            },
    {
        proof {
            use_type_invariant(self);
        }
        let mut i: usize = 0;
        while i < self.records.len()
            invariant
                i <= self@.len(),
                self@ == self.records@,
                self.wf(),
                forall|j: int| 0 <= j < i ==> #[trigger] self@[j].key() != id@,
            decreases self.records.len() - i,
        {
            if self.records[i].id().eq(id) {
                proof {
                    lemma_key_index(self@, id@, i as int);
                }
                return Some(i);
            }
            i = i + 1;
        }
        None
    }

    /// Takes over records read from a backing file; refuses them when two
    /// share an id.
    pub fn from_records(records: Vec<R>) -> (r: Result<Self, AppError>)
        ensures
            match r {
                Ok(c) => c@ == records@ && c.wf(),
                Err(e) => e == AppError::DuplicateId,
            },
            r is Ok <==> unique_keys(records@),
    {
        let mut i: usize = 0;
        while i < records.len()
            invariant
                i <= records@.len(),
                forall|a: int, b: int|
                    0 <= a < i && 0 <= b < records@.len() && a != b ==> #[trigger] records@[a].key()
                        != #[trigger] records@[b].key(),
            decreases records.len() - i,
        {
            let mut j: usize = 0;
            while j < records.len()
                invariant
                    i < records@.len(),
                    j <= records@.len(),
                    forall|a: int, b: int|
                        0 <= a < i && 0 <= b < records@.len() && a != b ==> #[trigger] records@[a].key()
                            != #[trigger] records@[b].key(),
                    forall|b: int|
                        0 <= b < j && b != i ==> records@[i as int].key() != #[trigger] records@[b].key(),
                decreases records.len() - j,
            {
                if j != i && records[i].id().eq(records[j].id()) {
                    return Err(AppError::DuplicateId);
                }
                j = j + 1;
            }
            i = i + 1;
        }
        Ok(Collection { records })
    }

    /// The records, in collection order; no two share an id.
    pub fn records(&self) -> (r: &Vec<R>)
        ensures
            r@ == self@,
            self.wf(),
    {
        proof {
            use_type_invariant(self);
        }
        &self.records
    }

    /// A copy of the record with id `id`, if any.
    pub fn get(&self, id: &String) -> (r: Option<R>)
        ensures
            r is Some <==> has_key(self@, id@),
            r is Some ==> r->0 == self@[key_index(self@, id@)],
    {
        match self.position(id) {
            Some(i) => Some(self.records[i].duplicate()),
            None => None,
        }
    }

    /// Puts `record` first; refuses it when its id is already stored.
    pub fn insert_first(&mut self, record: R) -> (r: Result<(), AppError>)
        ensures
            r is Ok <==> !has_key(old(self)@, record.key()),
            r is Ok ==> final(self)@ == seq![record] + old(self)@,
            r is Err ==> r->Err_0 == AppError::DuplicateId && final(self)@ == old(self)@,
            final(self).wf(),
    {
        proof {
            use_type_invariant(&*self);
        }
        match self.position(record.id()) {
            Some(_) => Err(AppError::DuplicateId),
            None => {
                let ghost o = self@;
                let mut taken = Collection::new();
                std::mem::swap(self, &mut taken);
                let Collection { mut records } = taken;
                records.insert(0, record);
                proof {
                    assert(records@ =~= seq![record] + o);
                    lemma_prepend_keeps_ids_unique(o, record);
                }
                *self = Collection { records };
                Ok(())
            },
        }
    }

    /// Makes a record from `payload` under the id `id`, puts it first and
    /// returns a copy of it; refuses an id that is already stored.
    pub fn create_with_id<P: NewRecord<R>>(&mut self, id: String, payload: P) -> (r: Result<R, AppError>)
        ensures
            r is Ok <==> !has_key(old(self)@, id@),
            r is Ok ==> payload.made(r->Ok_0) && r->Ok_0.key() == id@ && final(self)@ == seq![r->Ok_0]
                + old(self)@,
            r is Err ==> r->Err_0 == AppError::DuplicateId && final(self)@ == old(self)@,
            final(self).wf(),
    {
        let record = payload.into_record(id);
        let copy = record.duplicate();
        match self.insert_first(record) {
            Ok(()) => Ok(copy),
            Err(e) => Err(e),
        }
    }

    /// Makes a record from `payload` under a freshly generated 36-character
    /// id, puts it first and returns a copy of it. Should the generated id
    /// already be stored, nothing changes and the id is refused; on an empty
    /// collection creating always succeeds.
    pub fn create<P: NewRecord<R>>(&mut self, payload: P) -> (r: Result<R, AppError>)
        ensures
            r is Ok ==> payload.made(r->Ok_0) && !has_key(old(self)@, r->Ok_0.key()) && final(self)@
                == seq![r->Ok_0] + old(self)@,
            r is Ok ==> r->Ok_0.key().len() == 36,
            r is Err ==> r->Err_0 == AppError::DuplicateId && final(self)@ == old(self)@,
            old(self)@.len() == 0 ==> r is Ok,
            final(self).wf(),
    {
        let id = new_id();
        self.create_with_id(id, payload)
    }

    /// Removes the record with id `id` and returns it.
    pub fn delete(&mut self, id: &String) -> (r: Result<R, AppError>)
        ensures
            r is Ok <==> has_key(old(self)@, id@),
            r is Ok ==> r->Ok_0 == old(self)@[key_index(old(self)@, id@)] && final(self)@ == old(
                self,
            )@.remove(key_index(old(self)@, id@)),
            r is Err ==> r->Err_0 == AppError::NotFound && final(self)@ == old(self)@,
            final(self).wf(),
    {
        proof {
            use_type_invariant(&*self);
        }
        match self.position(id) {
            Some(i) => {
                let ghost o = self@;
                let mut taken = Collection::new();
                std::mem::swap(self, &mut taken);
                let Collection { mut records } = taken;
                let x = records.remove(i);
                proof {
                    lemma_delete_exact(o, id@);
                }
                *self = Collection { records };
                Ok(x)
            },
            None => Err(AppError::NotFound),
        }
    }

    /// Writes the present slots of `patch` over the record with id `id` and
    /// returns a copy of the result.
    pub fn update<P: Patch<R>>(&mut self, id: &String, patch: P) -> (r: Result<R, AppError>)
        ensures
            r is Ok <==> has_key(old(self)@, id@),
            r is Ok ==> r->Ok_0 == patch.patched(old(self)@[key_index(old(self)@, id@)])
                && final(self)@ == old(self)@.update(key_index(old(self)@, id@), r->Ok_0),
            r is Err ==> r->Err_0 == AppError::NotFound && final(self)@ == old(self)@,
            final(self).wf(),
    {
        proof {
            use_type_invariant(&*self);
        }
        match self.position(id) {
            Some(i) => {
                let ghost o = self@;
                let mut taken = Collection::new();
                std::mem::swap(self, &mut taken);
                let Collection { mut records } = taken;
                let mut x = records.remove(i);
                proof {
                    patch.lemma_keeps_key(x);
                }
                patch.apply(&mut x);
                let copy = x.duplicate();
                records.insert(i, x);
                proof {
                    let s = records@;
                    assert(s =~= o.update(i as int, copy));
                    assert forall|a: int, b: int|
                        0 <= a < s.len() && 0 <= b < s.len() && a != b implies #[trigger] s[a].key()
                        != #[trigger] s[b].key() by {
                        assert(s[a].key() == o[a].key());
                        assert(s[b].key() == o[b].key());
                    }
                }
                *self = Collection { records };
                Ok(copy)
            },
            None => Err(AppError::NotFound),
        }
    }

    /// Copies of the records that `filter` accepts, in collection order.
    pub fn list<F: Filter<R>>(&self, filter: &F) -> (r: Vec<R>)
        ensures
            r@ == self@.filter(accepts_fn(*filter)),
    {
        let mut out: Vec<R> = Vec::new();
        let mut i: usize = 0;
        while i < self.records.len()
            invariant
                i <= self@.len(),
                self@ == self.records@,
                out@ == self@.take(i as int).filter(accepts_fn(*filter)),
            decreases self.records.len() - i,
        {
            proof {
                assert(self@.take(i + 1) =~= self@.take(i as int).push(self@[i as int]));
                self@.take(i as int).lemma_filter_push(self@[i as int], accepts_fn(*filter));
            }
            let keep = filter.test(&self.records[i]);
            assert(keep == accepts_fn(*filter)(self@[i as int]));
            if keep {
                out.push(self.records[i].duplicate());
            }
            i = i + 1;
        }
        proof {
            assert(self@.take(i as int) =~= self@);
        }
        out
    }
}

} // verus!
