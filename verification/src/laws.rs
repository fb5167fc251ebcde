//! The laws the repository obeys, proved over the table model that its
//! operations' contracts are stated with: the round trips of insert,
//! update and delete with a following lookup, and the exactness of the
//! name search.

use vstd::prelude::*;

use crate::model::contains_id;
use crate::model::delete_row;
use crate::model::idx_of;
use crate::model::insert_row;
use crate::model::lemma_idx_unique;
use crate::model::name_matches;
use crate::model::name_pred;
use crate::model::row_at;
use crate::model::table_wf;
use crate::model::update_row;
use crate::model::BurgerModel;
use crate::text::contains_substr;

verus! {

/// Inserting a payload under the table's fresh identifier and then
/// fetching that identifier finds a row equal to the payload in name
/// and description, carrying the assigned identifier; and the table
/// stays well formed under the advanced fresh identifier.
pub proof fn lemma_insert_then_get(t: Seq<BurgerModel>, fresh: int, p: BurgerModel)
    requires
        table_wf(t, fresh),
        fresh < i32::MAX,
    ensures
        table_wf(insert_row(t, fresh, p), fresh + 1),
        contains_id(insert_row(t, fresh, p), fresh),
        row_at(insert_row(t, fresh, p), fresh) == (BurgerModel {
            id: fresh,
            name: p.name,
            description: p.description,
        }),
{
    let t2 = insert_row(t, fresh, p);
    assert forall|i: int| 0 <= i < t2.len() implies 1 <= (#[trigger] t2[i].id) < fresh + 1 by {
        if i < t.len() {
            assert(1 <= t[i].id < fresh);
        }
    }
    assert forall|i: int, j: int|
        0 <= i < t2.len() && 0 <= j < t2.len() && i != j implies t2[i].id != t2[j].id by {
        if i < t.len() && j < t.len() {
            assert(t[i].id != t[j].id);
        }
    }
    lemma_idx_unique(t2, fresh + 1, t.len() as int, fresh);
}

/// Applying a payload to a stored identifier and then fetching that
/// identifier finds a row equal to the payload in name and
/// description, and the identifier is unchanged; well-formedness and
/// the fresh identifier are untouched.
pub proof fn lemma_update_then_get(t: Seq<BurgerModel>, fresh: int, id: int, p: BurgerModel)
    requires
        table_wf(t, fresh),
        contains_id(t, id),
    ensures
        table_wf(update_row(t, id, p), fresh),
        contains_id(update_row(t, id, p), id),
        row_at(update_row(t, id, p), id) == (BurgerModel {
            id: id,
            name: p.name,
            description: p.description,
        }),
{
    let t2 = update_row(t, id, p);
    assert(t2.len() == t.len());
    assert forall|i: int| 0 <= i < t2.len() implies (#[trigger] t2[i].id) == t[i].id by {}
    let i0 = idx_of(t, id);
    assert(0 <= i0 < t.len() && t[i0].id == id);
    assert(t2[i0] == (BurgerModel { id: id, name: p.name, description: p.description }));
    lemma_idx_unique(t2, fresh, i0, id);
}

/// Deleting an identifier and then fetching it finds nothing: the
/// deleted table contains no row under that identifier, and stays
/// well formed.
pub proof fn lemma_delete_then_get(t: Seq<BurgerModel>, fresh: int, id: int)
    requires
        table_wf(t, fresh),
    ensures
        table_wf(delete_row(t, id), fresh),
        !contains_id(delete_row(t, id), id),
{
    if contains_id(t, id) {
        let i0 = idx_of(t, id);
        assert(0 <= i0 < t.len() && t[i0].id == id);
        let t2 = t.remove(i0);
        assert forall|a: int| 0 <= a < t2.len() implies 1 <= (#[trigger] t2[a].id) < fresh by {
            let a0: int = if a < i0 {
                a
            } else {
                a + 1
            };
            assert(t2[a] == t[a0]);
        }
        assert forall|a: int, b: int|
            0 <= a < t2.len() && 0 <= b < t2.len() && a != b implies t2[a].id != t2[b].id by {
            let a0: int = if a < i0 {
                a
            } else {
                a + 1
            };
            let b0: int = if b < i0 {
                b
            } else {
                b + 1
            };
            assert(t2[a] == t[a0]);
            assert(t2[b] == t[b0]);
            assert(t[a0].id != t[b0].id);
        }
        if contains_id(t2, id) {
            let j = choose|j: int| 0 <= j < t2.len() && (#[trigger] t2[j]).id == id;
            let j0: int = if j < i0 {
                j
            } else {
                j + 1
            };
            assert(t2[j] == t[j0]);
            assert(t[j0].id != t[i0].id);
            assert(false);
        }
    }
}

/// The name search is exact: every row it returns is stored and has a
/// matching name, and every stored row with a matching name is
/// returned.
pub proof fn lemma_find_exact(t: Seq<BurgerModel>, needle: Seq<char>)
    ensures
        forall|i: int|
            0 <= i < name_matches(t, needle).len() ==> contains_substr(
                (#[trigger] name_matches(t, needle)[i]).name,
                needle,
            ),
        forall|i: int|
            0 <= i < name_matches(t, needle).len() ==> t.contains(
                #[trigger] name_matches(t, needle)[i],
            ),
        forall|i: int|
            0 <= i < t.len() && contains_substr((#[trigger] t[i]).name, needle) ==> name_matches(
                t,
                needle,
            ).contains(t[i]),
    decreases t.len(),
{
    let pred = name_pred(needle);
    let m = t.filter(pred);
    assert forall|i: int| 0 <= i < m.len() implies contains_substr(
        (#[trigger] m[i]).name,
        needle,
    ) by {
        t.lemma_filter_pred(pred, i);
    }
    assert forall|i: int|
        0 <= i < t.len() && contains_substr((#[trigger] t[i]).name, needle) implies m.contains(
        t[i],
    ) by {
        t.lemma_filter_contains(pred, i);
    }
    reveal_with_fuel(Seq::<_>::filter, 2);
    if t.len() > 0 {
        let td = t.drop_last();
        lemma_find_exact(td, needle);
        let m0 = td.filter(pred);
        assert(m0 == name_matches(td, needle));
        assert forall|i: int| 0 <= i < m.len() implies t.contains(#[trigger] m[i]) by {
            if i < m0.len() {
                assert(m[i] == m0[i]);
                assert(td.contains(name_matches(td, needle)[i]));
                assert(td.contains(m0[i]));
                let j = choose|j: int| 0 <= j < td.len() && (#[trigger] td[j]) == m0[i];
                assert(t[j] == m0[i]);
            } else {
                assert(m[i] == t.last());
                assert(t[t.len() - 1] == t.last());
            }
        }
    }
}

} // verus!
