//! The entity model: the persisted burger record, the creation/update
//! payload, the failure taxonomy, and the mathematical model of the
//! stored table that every repository contract is stated over.

use vstd::prelude::*;

use crate::text::contains_substr;

verus! {

/// A persisted burger row. The identifier is assigned by storage on
/// insertion, is unique over the table, and never changes afterwards.
#[derive(Debug)]
pub struct Burger {
    pub id: i32,
    pub name: String,
    pub description: String,
}

/// The creatable/updatable payload: a burger without an identifier.
/// On insertion storage assigns the identifier; on update the target
/// row is named by a separate identifier argument.
#[derive(Debug)]
pub struct InsertableBurger {
    pub name: String,
    pub description: String,
}

/// The two failure kinds a repository caller can observe. They are
/// never blurred: an absent row is `NotFound`, every storage-level
/// fault is `StorageError`.
#[derive(Debug, PartialEq, Eq, Structural, Clone, Copy)]
pub enum RepoError {
    NotFound,
    StorageError,
}

/// The mathematical image of one stored row.
pub struct BurgerModel {
    pub id: int,
    pub name: Seq<char>,
    pub description: Seq<char>,
}

impl View for Burger {
    type V = BurgerModel;

    open spec fn view(&self) -> BurgerModel {
        BurgerModel { id: self.id as int, name: self.name@, description: self.description@ }
    }
}

impl View for InsertableBurger {
    type V = BurgerModel;

    /// A payload has no identifier of its own; its image carries the
    /// placeholder 0, which storage never assigns.
    open spec fn view(&self) -> BurgerModel {
        BurgerModel { id: 0, name: self.name@, description: self.description@ }
    }
}

/// Well-formedness of a stored table together with its next fresh
/// identifier: every row carries an identifier in `1 .. fresh`, no two
/// rows share one, and `fresh` still fits the identifier type.
pub open spec fn table_wf(t: Seq<BurgerModel>, fresh: int) -> bool {
    &&& 1 <= fresh <= i32::MAX
    &&& forall|i: int| 0 <= i < t.len() ==> 1 <= (#[trigger] t[i].id) < fresh
    &&& forall|i: int, j: int| 0 <= i < t.len() && 0 <= j < t.len() && i != j ==> t[i].id != t[j].id
}

/// Whether some row of `t` carries the identifier `id`.
pub open spec fn contains_id(t: Seq<BurgerModel>, id: int) -> bool {
    exists|i: int| 0 <= i < t.len() && (#[trigger] t[i]).id == id
}

/// The index of the row carrying `id`; meaningful only when
/// `contains_id(t, id)` holds, and then unique in a well-formed table.
pub open spec fn idx_of(t: Seq<BurgerModel>, id: int) -> int {
    choose|i: int| 0 <= i < t.len() && (#[trigger] t[i]).id == id
}

/// The row of `t` carrying `id`; meaningful only when `contains_id(t, id)`.
pub open spec fn row_at(t: Seq<BurgerModel>, id: int) -> BurgerModel {
    t[idx_of(t, id)]
}

/// In a well-formed table the row found at any index with the wanted
/// identifier is the row `row_at` speaks of.
pub proof fn lemma_idx_unique(t: Seq<BurgerModel>, fresh: int, i: int, id: int)
    requires
        table_wf(t, fresh),
        0 <= i < t.len(),
        t[i].id == id,
    ensures
        contains_id(t, id),
        idx_of(t, id) == i,
        row_at(t, id) == t[i],
{
    assert(contains_id(t, id));
    let j = idx_of(t, id);
    assert(0 <= j < t.len() && t[j].id == id);
}

/// The images of a sequence of stored rows.
pub open spec fn views_of(rows: Seq<Burger>) -> Seq<BurgerModel> {
    rows.map_values(|b: Burger| b@)
}

/// The table after inserting a payload under the fresh identifier `id`:
/// the new row is appended, so storage order is insertion order.
pub open spec fn insert_row(t: Seq<BurgerModel>, id: int, p: BurgerModel) -> Seq<BurgerModel> {
    t.push(BurgerModel { id, name: p.name, description: p.description })
}

/// The table after applying a payload to the row carrying `id`: that
/// row keeps its identifier and place, takes the payload's fields, and
/// every other row is untouched.
pub open spec fn update_row(t: Seq<BurgerModel>, id: int, p: BurgerModel) -> Seq<BurgerModel> {
    t.map_values(
        |b: BurgerModel|
            if b.id == id {
                BurgerModel { id: b.id, name: p.name, description: p.description }
            } else {
                b
            },
    )
}

/// The table after deleting the row carrying `id`; deleting an absent
/// identifier leaves the table as it is.
pub open spec fn delete_row(t: Seq<BurgerModel>, id: int) -> Seq<BurgerModel> {
    if contains_id(t, id) {
        t.remove(idx_of(t, id))
    } else {
        t
    }
}

/// Whether a row answers a search for `needle`.
pub open spec fn name_pred(needle: Seq<char>) -> spec_fn(BurgerModel) -> bool {
    |b: BurgerModel| contains_substr(b.name, needle)
}

/// The rows whose name contains `needle`, in storage order.
pub open spec fn name_matches(t: Seq<BurgerModel>, needle: Seq<char>) -> Seq<BurgerModel> {
    t.filter(name_pred(needle))
}

} // verus!
