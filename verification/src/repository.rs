//! The repository: the only component that reads or writes the burgers
//! table. It is verified against the mathematical table model: every
//! operation states exactly which rows come back, how the table
//! changes, and on which inputs each failure kind is returned.
//!
//! The table this type owns stands for the authoritative storage state
//! that a borrowed connection reaches; every operation takes one
//! borrowed [`Connection`] for its duration, as the pool lends them.

use vstd::prelude::*;

use crate::model::contains_id;
use crate::model::delete_row;
use crate::model::insert_row;
use crate::model::lemma_idx_unique;
use crate::model::name_matches;
use crate::model::row_at;
use crate::model::table_wf;
use crate::model::update_row;
use crate::model::views_of;
use crate::model::Burger;
use crate::model::BurgerModel;
use crate::model::InsertableBurger;
use crate::model::RepoError;
use crate::pool::Connection;
use crate::text::contains_substr;
use crate::text::str_contains;
use rand::Rng;

verus! {

/// Relies on rand::thread_rng and rand::Rng::gen_range: sampling the
/// range `0..n` returns a uniformly distributed value below `n`.
/// gen_range panics on an empty range, which the precondition rules
/// out; nothing more can be promised of a random value.
#[verifier::external_body]
fn random_below(n: usize) -> (r: usize)
    requires
        1 <= n,
    ensures
        r < n,
{
    let mut rng = rand::thread_rng();
    rng.gen_range(0..n)
}

/// An owned copy of a row, equal to it in every field.
fn copy_burger(b: &Burger) -> (r: Burger)
    ensures
        r@ == b@,
{
    Burger { id: b.id, name: b.name.clone(), description: b.description.clone() }
}

/// The burgers table: rows in storage order, and the next identifier
/// storage will assign. Identifiers start at 1, grow by one per
/// insertion, and are never reused, so every row's identifier is
/// unique for the table's whole life.
pub struct Repository {
    rows: Vec<Burger>,
    next_id: i32,
}

impl Repository {
    /// The stored rows, in storage order.
    pub closed spec fn table(self) -> Seq<BurgerModel> {
        views_of(self.rows@)
    }

    /// The identifier the next successful insertion will assign.
    pub closed spec fn fresh_id(self) -> int {
        self.next_id as int
    }

    /// Every row's identifier lies in `1 .. fresh_id()` and no two
    /// rows share one.
    pub open spec fn wf(self) -> bool {
        table_wf(self.table(), self.fresh_id())
    }

    /// An empty table; the first insertion will assign identifier 1.
    pub fn new() -> (r: Repository)
        ensures
            r.wf(),
            r.table() == Seq::<BurgerModel>::empty(),
            r.fresh_id() == 1,
    {
        Self::with_first_id(1)
    }

    /// An empty table whose first insertion will assign `first_id`;
    /// this is how a table resumes an identifier sequence already
    /// partly spent.
    pub fn with_first_id(first_id: i32) -> (r: Repository)
        requires
            1 <= first_id,
        ensures
            r.wf(),
            r.table() == Seq::<BurgerModel>::empty(),
            r.fresh_id() == first_id,
    {
        let r = Repository { rows: Vec::new(), next_id: first_id };
        proof {
            assert(r.table() =~= Seq::<BurgerModel>::empty());
        }
        r
    }

    /// The position of the row carrying `id`, if any.
    fn index_of(&self, id: i32) -> (r: Option<usize>)
        ensures
            r matches Some(i) ==> i < self.table().len() && self.table()[i as int].id == id,
            r is None ==> !contains_id(self.table(), id as int),
    {
        let mut i: usize = 0;
        while i < self.rows.len()
            invariant
                i <= self.rows.len(),
                forall|k: int| 0 <= k < i ==> (#[trigger] self.table()[k]).id != id,
            decreases self.rows.len() - i,
        {
            if self.rows[i].id == id {
                return Some(i);
            }
            i = i + 1;
        }
        None
    }

    /// Every stored row, in storage order. A connection/query fault is
    /// the only conceivable failure, and the model has none.
    pub fn all(&self, conn: &Connection) -> (r: Result<Vec<Burger>, RepoError>)
        ensures
            r matches Ok(v) && views_of(v@) == self.table(),
    {
        let mut out: Vec<Burger> = Vec::new();
        let mut i: usize = 0;
        while i < self.rows.len()
            invariant
                i <= self.rows.len(),
                out@.len() == i,
                forall|k: int| 0 <= k < i ==> (#[trigger] out@[k])@ == self.rows@[k]@,
            decreases self.rows.len() - i,
        {
            let b = copy_burger(&self.rows[i]);
            out.push(b);
            i = i + 1;
        }
        proof {
            assert(views_of(out@) =~= self.table());
        }
        Ok(out)
    }

    /// The row carrying `id`. Returns `NotFound` exactly when no row
    /// carries it.
    pub fn get(&self, id: i32, conn: &Connection) -> (r: Result<Burger, RepoError>)
        requires
            self.wf(),
        ensures
            r is Ok <==> contains_id(self.table(), id as int),
            r matches Ok(b) ==> b@ == row_at(self.table(), id as int),
            r matches Err(e) ==> e == RepoError::NotFound,
    {
        match self.index_of(id) {
            Some(i) => {
                let b = copy_burger(&self.rows[i]);
                proof {
                    lemma_idx_unique(self.table(), self.fresh_id(), i as int, id as int);
                }
                Ok(b)
            },
            None => Err(RepoError::NotFound),
        }
    }

    /// Every row whose name contains `name` as a case-sensitive
    /// substring, in storage order. No match is an empty result, not
    /// an error.
    pub fn find_by_name(&self, name: &str, conn: &Connection) -> (r: Result<
        Vec<Burger>,
        RepoError,
    >)
        ensures
            r matches Ok(v) && views_of(v@) == name_matches(self.table(), name@),
    {
        let mut out: Vec<Burger> = Vec::new();
        let mut i: usize = 0;
        proof {
            assert(views_of(out@) =~= name_matches(self.table().subrange(0, 0), name@));
        }
        while i < self.rows.len()
            invariant
                i <= self.rows.len(),
                views_of(out@) == name_matches(self.table().subrange(0, i as int), name@),
            decreases self.rows.len() - i,
        {
            let ghost pre = self.table().subrange(0, i as int);
            let ghost post = self.table().subrange(0, i as int + 1);
            if str_contains(self.rows[i].name.as_str(), name) {
                let c = copy_burger(&self.rows[i]);
                out.push(c);
            }
            proof {
                reveal_with_fuel(Seq::<_>::filter, 2);
                assert(post.drop_last() =~= pre);
                assert(post.last() == self.table()[i as int]);
                if contains_substr(self.table()[i as int].name, name@) {
                    assert(name_matches(post, name@) == name_matches(pre, name@).push(
                        post.last(),
                    ));
                } else {
                    assert(name_matches(post, name@) == name_matches(pre, name@));
                }
                assert(views_of(out@) =~= name_matches(post, name@));
            }
            i = i + 1;
        }
        proof {
            assert(self.table().subrange(0, self.rows@.len() as int) =~= self.table());
        }
        Ok(out)
    }

    /// One uniformly selected stored row. On an empty table this is
    /// `NotFound`, never a crash; on a non-empty table the returned
    /// row is in storage at the time of the call.
    pub fn rand(&self, conn: &Connection) -> (r: Result<Burger, RepoError>)
        ensures
            r is Ok <==> 1 <= self.table().len(),
            r matches Ok(b) ==> exists|i: int|
                0 <= i < self.table().len() && b@ == self.table()[i],
            r matches Err(e) ==> e == RepoError::NotFound,
    {
        let n = self.rows.len();
        if n == 0 {
            return Err(RepoError::NotFound);
        }
        let x = random_below(n);
        let b = copy_burger(&self.rows[x]);
        proof {
            assert(b@ == self.table()[x as int]);
        }
        Ok(b)
    }

    /// Persists a new row: storage assigns the next fresh identifier
    /// and the full stored entity comes back. The one constraint
    /// storage can report is an exhausted identifier space.
    pub fn insert(&mut self, burger: InsertableBurger, conn: &Connection) -> (r: Result<
        Burger,
        RepoError,
    >)
        requires
            old(self).wf(),
        ensures
            final(self).wf(),
            r is Ok <==> old(self).fresh_id() < i32::MAX,
            r matches Ok(b) ==> b@ == (BurgerModel {
                id: old(self).fresh_id(),
                name: burger@.name,
                description: burger@.description,
            }),
            r is Ok ==> final(self).table() == insert_row(
                old(self).table(),
                old(self).fresh_id(),
                burger@,
            ) && final(self).fresh_id() == old(self).fresh_id() + 1,
            r matches Err(e) ==> e == RepoError::StorageError && *final(self) == *old(self),
    {
        if self.next_id == i32::MAX {
            return Err(RepoError::StorageError);
        }
        let id = self.next_id;
        self.next_id = self.next_id + 1;
        let b = Burger { id, name: burger.name, description: burger.description };
        let ret = copy_burger(&b);
        self.rows.push(b);
        proof {
            let t1 = old(self).table();
            let t2 = self.table();
            assert(t2 =~= insert_row(t1, old(self).fresh_id(), burger@));
            assert forall|i: int, j: int|
                0 <= i < t2.len() && 0 <= j < t2.len() && i != j implies t2[i].id != t2[j].id by {
                if i < t1.len() && j < t1.len() {
                    assert(t1[i].id != t1[j].id);
                }
            }
        }
        Ok(ret)
    }

    /// Applies the payload's fields to the row carrying `id`, keeping
    /// its identifier and place, and returns the updated entity.
    /// Returns `NotFound` exactly when no row carries `id`.
    pub fn update(&mut self, id: i32, burger: InsertableBurger, conn: &Connection) -> (r: Result<
        Burger,
        RepoError,
    >)
        requires
            old(self).wf(),
        ensures
            final(self).wf(),
            final(self).fresh_id() == old(self).fresh_id(),
            r is Ok <==> contains_id(old(self).table(), id as int),
            r matches Ok(b) ==> b@ == (BurgerModel {
                id: id as int,
                name: burger@.name,
                description: burger@.description,
            }) && final(self).table() == update_row(old(self).table(), id as int, burger@),
            r matches Err(e) ==> e == RepoError::NotFound && *final(self) == *old(self),
    {
        match self.index_of(id) {
            Some(i) => {
                let nb = Burger { id, name: burger.name, description: burger.description };
                let ret = copy_burger(&nb);
                let ghost t1 = self.table();
                self.rows.remove(i);
                self.rows.insert(i, nb);
                proof {
                    let t2 = self.table();
                    let iid = id as int;
                    assert forall|j: int| 0 <= j < t2.len() implies t2[j] == update_row(
                        t1,
                        iid,
                        burger@,
                    )[j] by {
                        if j != i {
                            assert(t1[j].id != t1[i as int].id);
                        }
                    }
                    assert(t2 =~= update_row(t1, iid, burger@));
                    assert forall|a: int, b2: int|
                        0 <= a < t2.len() && 0 <= b2 < t2.len() && a != b2 implies t2[a].id
                        != t2[b2].id by {
                        assert(t2[a].id == t1[a].id);
                        assert(t2[b2].id == t1[b2].id);
                    }
                }
                Ok(ret)
            },
            None => Err(RepoError::NotFound),
        }
    }

    /// Removes the row carrying `id` and reports how many rows went:
    /// 1 when the row was there, 0 when it was not. Deleting an absent
    /// identifier is not an error at this boundary; the count lets a
    /// caller impose a stricter policy.
    pub fn delete(&mut self, id: i32, conn: &Connection) -> (r: Result<usize, RepoError>)
        requires
            old(self).wf(),
        ensures
            final(self).wf(),
            final(self).fresh_id() == old(self).fresh_id(),
            final(self).table() == delete_row(old(self).table(), id as int),
            r matches Ok(n) && n == (if contains_id(old(self).table(), id as int) {
                1int
            } else {
                0int
            }),
    {
        match self.index_of(id) {
            Some(i) => {
                let ghost t1 = self.table();
                self.rows.remove(i);
                proof {
                    let t2 = self.table();
                    let iid = id as int;
                    lemma_idx_unique(t1, old(self).fresh_id(), i as int, iid);
                    assert(t2 =~= t1.remove(i as int));
                    assert forall|a: int, b2: int|
                        0 <= a < t2.len() && 0 <= b2 < t2.len() && a != b2 implies t2[a].id
                        != t2[b2].id by {
                        let a0: int = if a < i { a } else { a + 1 };
                        let b0: int = if b2 < i { b2 } else { b2 + 1 };
                        assert(t2[a] == t1[a0]);
                        assert(t2[b2] == t1[b0]);
                        assert(t1[a0].id != t1[b0].id);
                    }
                }
                Ok(1)
            },
            None => Ok(0),
        }
    }
}

} // verus!

