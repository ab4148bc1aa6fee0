use vstd::prelude::*;

verus! {

use crate::sql::Projection;
use crate::table::{
    after_delete,
    after_insert,
    after_update,
    empty_state,
    has_email,
    insert_ok,
    position_of,
    selected,
    state_wf,
    update_ok,
    RowView,
    TableState,
};

/// A table that was just reset reads back no rows, whatever the projection.
pub proof fn lemma_reset_reads_nothing(p: Projection)
    ensures
        selected(empty_state(), p) == Seq::<RowView>::empty(),
{
    assert(selected(empty_state(), p) =~= Seq::<RowView>::empty());
}

/// On a reset table any insertion succeeds, and reading id, name and email
/// then gives exactly that row, with id 1.
pub proof fn lemma_first_insert_reads_back(name: Seq<char>, email: Seq<char>)
    ensures
        insert_ok(empty_state(), email),
        selected(after_insert(empty_state(), name, email), Projection::IdNameEmail) == seq![
            (Some(1int), Some(name), Some(email)),
        ],
{
    assert(selected(after_insert(empty_state(), name, email), Projection::IdNameEmail) =~= seq![
        (Some(1int), Some(name), Some(email)),
    ]);
}

/// Inserting a row and then updating it by its email leaves one row, not
/// two: the new row carries the updated name and email under the id it
/// was given, no other row holds that email, and the other rows are as
/// they were.
pub proof fn lemma_insert_then_update_keeps_one_row(
    s: TableState,
    name: Seq<char>,
    email: Seq<char>,
    new_name: Seq<char>,
    new_email: Seq<char>,
)
    requires
        state_wf(s),
        insert_ok(s, email),
        update_ok(after_insert(s, name, email), email, new_email),
    ensures
        ({
            let t = after_update(after_insert(s, name, email), email, new_name, new_email);
            &&& t.rows.len() == s.rows.len() + 1
            &&& t.rows.last() == (s.next_id, new_name, new_email)
            &&& forall|j: int| 0 <= j < s.rows.len() ==> #[trigger] t.rows[j] == s.rows[j]
            &&& forall|j: int| 0 <= j < s.rows.len() ==> #[trigger] t.rows[j].2 != new_email
        }),
{
    let s1 = after_insert(s, name, email);
    let n = s.rows.len() as int;
    assert(s1.rows[n].2 == email);
    assert(has_email(s1.rows, email));
    let i = position_of(s1.rows, email);
    assert(s1.rows[i].2 == email);
    if i != n {
        assert(s.rows[i].2 == email);
    }
    assert(i == n);
    let t = after_update(s1, email, new_name, new_email);
    assert forall|j: int| 0 <= j < n implies #[trigger] t.rows[j].2 != new_email by {
        assert(t.rows[j] == s.rows[j]);
        if new_email == email {
            assert(s.rows[j].2 != email);
        } else {
            assert(s1.rows[j].2 == s.rows[j].2);
        }
    }
}

/// On a reset table, inserting, then updating that row, reads back a single
/// row with the updated values and id 1.
pub proof fn lemma_insert_then_update_from_reset(
    name: Seq<char>,
    email: Seq<char>,
    new_name: Seq<char>,
    new_email: Seq<char>,
)
    ensures
        insert_ok(empty_state(), email),
        update_ok(after_insert(empty_state(), name, email), email, new_email),
        selected(
            after_update(after_insert(empty_state(), name, email), email, new_name, new_email),
            Projection::IdNameEmail,
        ) == seq![(Some(1int), Some(new_name), Some(new_email))],
{
    let s1 = after_insert(empty_state(), name, email);
    assert(s1.rows[0].2 == email);
    if has_email(s1.rows, new_email) && new_email != email {
        let k = choose|k: int| 0 <= k < s1.rows.len() && #[trigger] s1.rows[k].2 == new_email;
        assert(k == 0);
    }
    lemma_insert_then_update_keeps_one_row(empty_state(), name, email, new_name, new_email);
    let t = after_update(s1, email, new_name, new_email);
    assert(selected(t, Projection::IdNameEmail) =~= seq![
        (Some(1int), Some(new_name), Some(new_email)),
    ]);
}

/// Once an email is in the table, a second insertion with the same email
/// fails, whatever the names.
pub proof fn lemma_duplicate_email_rejected(
    s: TableState,
    name: Seq<char>,
    email: Seq<char>,
)
    requires
        insert_ok(s, email),
    ensures
        !insert_ok(after_insert(s, name, email), email),
{
    let t = after_insert(s, name, email);
    assert(t.rows[s.rows.len() as int].2 == email);
}

/// Deleting an email that no row holds leaves the table, and so its row
/// count, unchanged.
pub proof fn lemma_delete_missing_is_noop(s: TableState, email: Seq<char>)
    requires
        !has_email(s.rows, email),
    ensures
        after_delete(s, email) == s,
        after_delete(s, email).rows.len() == s.rows.len(),
{
}

} // verus!
