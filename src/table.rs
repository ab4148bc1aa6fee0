use vstd::prelude::*;

verus! {

use crate::error::StoreError;
use crate::sql::Projection;

/// A stored user as the model sees it: id, name, email.
pub type Record = (int, Seq<char>, Seq<char>);

/// A row read back: each column is present only if the projection asked for it.
pub type RowView = (Option<int>, Option<Seq<char>>, Option<Seq<char>>);

/// What the `Users` table holds: its rows in storage order, and the id the
/// next insertion will receive.
pub ghost struct TableState {
    pub rows: Seq<Record>,
    pub next_id: int,
}

/// The table as it is after creation or reset: no rows, ids restart at 1.
pub open spec fn empty_state() -> TableState {
    TableState { rows: Seq::empty(), next_id: 1 }
}

pub open spec fn has_email(rows: Seq<Record>, e: Seq<char>) -> bool {
    exists|i: int| 0 <= i < rows.len() && #[trigger] rows[i].2 == e
}

/// Ids are drawn from a sequence of positive `i32` values, and no two rows
/// share an email.
pub open spec fn state_wf(s: TableState) -> bool {
    &&& 1 <= s.next_id <= i32::MAX + 1
    &&& forall|i: int| 0 <= i < s.rows.len() ==> 1 <= #[trigger] s.rows[i].0 < s.next_id
    &&& forall|i: int, j: int|
        0 <= i < s.rows.len() && 0 <= j < s.rows.len() && i != j ==> #[trigger] s.rows[i].2
            != #[trigger] s.rows[j].2
}

/// An insertion succeeds when the email is new and the id sequence is not
/// exhausted.
pub open spec fn insert_ok(s: TableState, email: Seq<char>) -> bool {
    !has_email(s.rows, email) && s.next_id <= i32::MAX
}

pub open spec fn after_insert(s: TableState, name: Seq<char>, email: Seq<char>) -> TableState {
    TableState { rows: s.rows.push((s.next_id, name, email)), next_id: s.next_id + 1 }
}

/// The position of the row holding email `e` (meaningful when there is one).
pub open spec fn position_of(rows: Seq<Record>, e: Seq<char>) -> int {
    choose|i: int| 0 <= i < rows.len() && #[trigger] rows[i].2 == e
}

/// An update fails only when it matches a row and would give it an email
/// that another row already holds.
pub open spec fn update_ok(s: TableState, old_email: Seq<char>, new_email: Seq<char>) -> bool {
    !(has_email(s.rows, old_email) && new_email != old_email && has_email(s.rows, new_email))
}

/// The row holding `old_email`, if any, takes the new name and email and
/// keeps its id and position.
pub open spec fn after_update(
    s: TableState,
    old_email: Seq<char>,
    new_name: Seq<char>,
    new_email: Seq<char>,
) -> TableState {
    if has_email(s.rows, old_email) {
        let i = position_of(s.rows, old_email);
        TableState { rows: s.rows.update(i, (s.rows[i].0, new_name, new_email)), next_id: s.next_id }
    } else {
        s
    }
}

/// The row holding `email`, if any, is gone; the others keep their order.
pub open spec fn after_delete(s: TableState, email: Seq<char>) -> TableState {
    if has_email(s.rows, email) {
        TableState { rows: s.rows.remove(position_of(s.rows, email)), next_id: s.next_id }
    } else {
        s
    }
}

pub open spec fn project(p: Projection, r: Record) -> RowView {
    (
        if p.has_id() { Some(r.0) } else { None },
        if p.has_name() { Some(r.1) } else { None },
        if p.has_email() { Some(r.2) } else { None },
    )
}

/// Every row, in storage order, restricted to the columns of `p`.
pub open spec fn selected(s: TableState, p: Projection) -> Seq<RowView> {
    s.rows.map_values(|r: Record| project(p, r))
}

pub open spec fn is_query_error(r: Result<(), StoreError>) -> bool {
    match r {
        Err(StoreError::Query(_)) => true,
        _ => false,
    }
}

/// A stored user.
#[derive(Debug)]
pub struct User {
    pub id: i32,
    pub name: String,
    pub email: String,
}

impl View for User {
    type V = Record;

    open spec fn view(&self) -> Record {
        (self.id as int, self.name@, self.email@)
    }
}

/// A row read back; a column the projection left out is `None`.
#[derive(Debug)]
pub struct Row {
    pub id: Option<i32>,
    pub name: Option<String>,
    pub email: Option<String>,
}

impl View for Row {
    type V = RowView;

    open spec fn view(&self) -> RowView {
        (
            match self.id {
                Some(i) => Some(i as int),
                None => None,
            },
            match self.name {
                Some(n) => Some(n@),
                None => None,
            },
            match self.email {
                Some(e) => Some(e@),
                None => None,
            },
        )
    }
}

fn project_user(p: Projection, u: &User) -> (r: Row)
    ensures
        r@ == project(p, u@),
{
    Row {
        id: if p.includes_id() { Some(u.id) } else { None },
        name: if p.includes_name() { Some(u.name.clone()) } else { None },
        email: if p.includes_email() { Some(u.email.clone()) } else { None },
    }
}

/// The `Users` table held in memory, with the semantics the database gives
/// it: ids from a sequence, unique emails, update and delete matched by
/// email.
pub struct UserTable {
    rows: Vec<User>,
    next_id: i64,
}

impl View for UserTable {
    type V = TableState;

    closed spec fn view(&self) -> TableState {
        TableState { rows: self.rows@.map_values(|u: User| u@), next_id: self.next_id as int }
    }
}

impl UserTable {
    pub open spec fn wf(&self) -> bool {
        state_wf(self@)
    }

    /// A freshly created, empty table.
    pub fn new() -> (r: UserTable)
        ensures
            r.wf(),
            r@ == empty_state(),
    {
        let r = UserTable { rows: Vec::new(), next_id: 1 };
        assert(r@.rows =~= empty_state().rows);
        r
    }

    /// The number of rows.
    pub fn len(&self) -> (r: usize)
        ensures
            r == self@.rows.len(),
    {
        self.rows.len()
    }

    /// Appends a row with the next id of the sequence.
    ///
    /// Fails with a query error, leaving the table as it was, when the email
    /// is already present or the sequence is exhausted.
    pub fn insert(&mut self, name: &str, email: &str) -> (r: Result<(), StoreError>)
        requires
            old(self).wf(),
        ensures
            final(self).wf(),
            r is Ok <==> insert_ok(old(self)@, email@),
            r is Ok ==> final(self)@ == after_insert(old(self)@, name@, email@),
            r is Err ==> is_query_error(r) && final(self)@ == old(self)@,
    {
        let email = String::from_str(email);
        if self.find(&email).is_some() {
            return Err(
                StoreError::Query(
                    String::from_str("duplicate key value violates unique constraint on email"),
                ),
            );
        }
        if self.next_id > i32::MAX as i64 {
            return Err(StoreError::Query(String::from_str("id sequence reached its maximum value")));
        }
        let ghost before = self@;
        let u = User { id: self.next_id as i32, name: String::from_str(name), email };
        self.rows.push(u);
        self.next_id = self.next_id + 1;
        proof {
            assert(self@.rows =~= before.rows.push((before.next_id, name@, email@)));
            assert forall|i: int, j: int|
                0 <= i < self@.rows.len() && 0 <= j < self@.rows.len() && i != j implies #[trigger] self@.rows[i].2
                    != #[trigger] self@.rows[j].2 by {
                if i == before.rows.len() {
                    assert(before.rows[j].2 == self@.rows[j].2);
                } else if j == before.rows.len() {
                    assert(before.rows[i].2 == self@.rows[i].2);
                }
            }
        }
        Ok(())
    }

    /// Every row, in storage order, restricted to the columns of `p`.
    pub fn select(&self, p: Projection) -> (r: Result<Vec<Row>, StoreError>)
        requires
            self.wf(),
        ensures
            r is Ok,
            r is Ok ==> r->Ok_0@.map_values(|x: Row| x@) == selected(self@, p),
    {
        let mut out: Vec<Row> = Vec::new();
        let mut i: usize = 0;
        while i < self.rows.len()
            invariant
                0 <= i <= self.rows.len(),
                out@.len() == i,
                out@.map_values(|x: Row| x@) =~= selected(self@, p).take(i as int),
            decreases self.rows.len() - i,
        {
            let row = project_user(p, &self.rows[i]);
            let ghost prev = out@;
            out.push(row);
            proof {
                assert(self@.rows[i as int] == self.rows@[i as int]@);
                assert(selected(self@, p)[i as int] == project(p, self@.rows[i as int]));
                assert(out@ == prev.push(row));
            }
            i = i + 1;
            assert(out@.map_values(|x: Row| x@) =~= selected(self@, p).take(i as int));
        }
        assert(selected(self@, p).take(i as int) =~= selected(self@, p));
        Ok(out)
    }

    /// Gives the row holding `old_email` a new name and email, keeping its id.
    ///
    /// Matching no row is a success that changes nothing. Fails with a query
    /// error, leaving the table as it was, when the new email belongs to
    /// another row.
    pub fn update(&mut self, old_email: &str, new_name: &str, new_email: &str) -> (r: Result<
        (),
        StoreError,
    >)
        requires
            old(self).wf(),
        ensures
            final(self).wf(),
            r is Ok <==> update_ok(old(self)@, old_email@, new_email@),
            r is Ok ==> final(self)@ == after_update(old(self)@, old_email@, new_name@, new_email@),
            r is Err ==> is_query_error(r) && final(self)@ == old(self)@,
    {
        let old_e = String::from_str(old_email);
        let new_e = String::from_str(new_email);
        let i = match self.find(&old_e) {
            None => {
                return Ok(());
            },
            Some(i) => i,
        };
        if !(new_e == old_e) && self.find(&new_e).is_some() {
            return Err(
                StoreError::Query(
                    String::from_str("duplicate key value violates unique constraint on email"),
                ),
            );
        }
        let ghost before = self@;
        let id = self.rows[i].id;
        self.rows[i] = User { id, name: String::from_str(new_name), email: new_e };
        proof {
            assert(self@.rows =~= before.rows.update(i as int, (before.rows[i as int].0, new_name@, new_email@)));
            assert forall|a: int, b: int|
                0 <= a < self@.rows.len() && 0 <= b < self@.rows.len() && a != b implies #[trigger] self@.rows[a].2
                    != #[trigger] self@.rows[b].2 by {
                if a == i {
                    assert(before.rows[b].2 == self@.rows[b].2);
                    if new_email@ != old_email@ {
                        assert(!has_email(before.rows, new_email@));
                    }
                } else if b == i {
                    assert(before.rows[a].2 == self@.rows[a].2);
                    if new_email@ != old_email@ {
                        assert(!has_email(before.rows, new_email@));
                    }
                }
            }
        }
        Ok(())
    }

    /// Removes the row holding `email`; matching no row is a success that
    /// changes nothing.
    pub fn delete(&mut self, email: &str) -> (r: Result<(), StoreError>)
        requires
            old(self).wf(),
        ensures
            final(self).wf(),
            r is Ok,
            final(self)@ == after_delete(old(self)@, email@),
    {
        let e = String::from_str(email);
        match self.find(&e) {
            None => {},
            Some(i) => {
                let ghost before = self@;
                let _gone = self.rows.remove(i);
                proof {
                    assert(self@.rows =~= before.rows.remove(i as int));
                    assert forall|a: int, b: int|
                        0 <= a < self@.rows.len() && 0 <= b < self@.rows.len() && a != b implies #[trigger] self@.rows[a].2
                            != #[trigger] self@.rows[b].2 by {
                        let a0 = if a < i { a } else { a + 1 };
                        let b0 = if b < i { b } else { b + 1 };
                        assert(self@.rows[a] == before.rows[a0]);
                        assert(self@.rows[b] == before.rows[b0]);
                    }
                    assert forall|a: int| 0 <= a < self@.rows.len() implies 1 <= #[trigger] self@.rows[a].0
                        < self@.next_id by {
                        let a0 = if a < i { a } else { a + 1 };
                        assert(self@.rows[a] == before.rows[a0]);
                    }
                }
            },
        }
        Ok(())
    }

    /// Empties the table and restarts ids at 1.
    pub fn reset(&mut self) -> (r: Result<(), StoreError>)
        ensures
            final(self).wf(),
            r is Ok,
            final(self)@ == empty_state(),
    {
        self.rows = Vec::new();
        self.next_id = 1;
        assert(self@.rows =~= empty_state().rows);
        Ok(())
    }

    /// The position of the row holding `email`, if any.
    fn find(&self, email: &String) -> (r: Option<usize>)
        requires
            self.wf(),
        ensures
            r is None <==> !has_email(self@.rows, email@),
            r is Some ==> r->0 == position_of(self@.rows, email@) && r->0 < self@.rows.len(),
    {
        let mut i: usize = 0;
        while i < self.rows.len()
            invariant
                0 <= i <= self.rows.len(),
                self.wf(),
                forall|k: int| 0 <= k < i ==> #[trigger] self@.rows[k].2 != email@,
            decreases self.rows.len() - i,
        {
            if self.rows[i].email == *email {
                proof {
                    assert(self@.rows[i as int].2 == email@);
                    let j = position_of(self@.rows, email@);
                    assert(self@.rows[j].2 == email@);
                }
                return Some(i);
            }
            i = i + 1;
        }
        proof {
            assert forall|k: int| 0 <= k < self@.rows.len() implies #[trigger] self@.rows[k].2
                != email@ by {}
        }
        None
    }
}

} // verus!
