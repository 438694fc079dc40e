//! A store of users that lives in memory.

use vstd::prelude::*;
use crate::types::AppError;
use crate::user::domain;
use crate::user::domain::User;
use crate::user::repository;
use crate::user::repository::Repository;
use crate::user::repository::Users;

verus! {

/// One kept user, with the number it is kept under.
struct Row {
    id: u64,
    user: User,
}

/// A store of users in memory. It numbers its users in the order in
/// which they come, from one unless it is told otherwise, and uses no
/// number twice.
pub struct MemoryRepository {
    /// The kept users, by rising number.
    rows: Vec<Row>,
    /// The number that the next user gets.
    next_id: u64,
}

/// Whether the numbers of `rows` rise from row to row.
spec fn rising(rows: Seq<Row>) -> bool {
    forall|i: int, j: int| 0 <= i < j < rows.len() ==> rows[i].id < rows[j].id
}

/// Whether every number of `rows` lies below `next_id`.
spec fn below(rows: Seq<Row>, next_id: u64) -> bool {
    forall|i: int| 0 <= i < rows.len() ==> #[trigger] rows[i].id < next_id
}

/// Whether some row of `rows` has the number `id`.
spec fn holds(rows: Seq<Row>, id: u64) -> bool {
    exists|i: int| 0 <= i < rows.len() && #[trigger] rows[i].id == id
}

/// A row of `rows` that has the number `id`.
spec fn row_of(rows: Seq<Row>, id: u64) -> int {
    choose|i: int| 0 <= i < rows.len() && #[trigger] rows[i].id == id
}

/// The users that `rows` keep, by number.
spec fn contents(rows: Seq<Row>) -> Users {
    Map::new(|id: u64| holds(rows, id), |id: u64| rows[row_of(rows, id)].user@)
}

/// The numbers of `rows`, in their order.
spec fn numbers(rows: Seq<Row>) -> Seq<u64> {
    Seq::new(rows.len(), |i: int| rows[i].id)
}

/// What a store answers with once it has no number left for a further
/// user.
pub open spec fn exhausted() -> Seq<char> {
    "the numbers for users have run out"@
}

/// Whether `names` lists every user of `users` once, by rising number.
pub open spec fn listing_by_number(users: Users, names: Seq<Seq<char>>) -> bool {
    exists|ids: Seq<u64>|
        {
            &&& repository::listed_by(users, ids, names)
            &&& forall|i: int, j: int| 0 <= i < j < ids.len() ==> ids[i] < ids[j]
        }
}

/// Row `i` is the one that the contents have under its number.
proof fn lemma_row(rows: Seq<Row>, i: int)
    requires
        rising(rows),
        0 <= i < rows.len(),
    ensures
        holds(rows, rows[i].id),
        row_of(rows, rows[i].id) == i,
        contents(rows).contains_key(rows[i].id),
        contents(rows)[rows[i].id] == rows[i].user@,
{
}

/// Adding a row with a number above all others adds its user to the
/// contents.
proof fn lemma_push(rows: Seq<Row>, row: Row, next_id: u64)
    requires
        rising(rows),
        below(rows, next_id),
        row.id == next_id,
    ensures
        rising(rows.push(row)),
        !contents(rows).contains_key(row.id),
        contents(rows.push(row)) == contents(rows).insert(row.id, row.user@),
{
    let longer = rows.push(row);
    assert forall|id: u64| contents(longer).contains_key(id) <==> contents(rows).insert(
        row.id,
        row.user@,
    ).contains_key(id) by {
        if holds(rows, id) {
            assert(longer[row_of(rows, id)].id == id);
        }
        if id == row.id {
            assert(longer[rows.len() as int].id == id);
        }
    }
    assert forall|id: u64| contents(longer).contains_key(id) implies contents(longer)[id]
        == contents(rows).insert(row.id, row.user@)[id] by {
        let i = row_of(longer, id);
        lemma_row(longer, i);
        if i < rows.len() {
            lemma_row(rows, i);
        }
    }
}

/// Putting another user into row `i` puts it into the contents under
/// the row's number.
proof fn lemma_replace(rows: Seq<Row>, i: int, row: Row)
    requires
        rising(rows),
        0 <= i < rows.len(),
        row.id == rows[i].id,
    ensures
        rising(rows.update(i, row)),
        contents(rows.update(i, row)) == contents(rows).insert(row.id, row.user@),
{
    let changed = rows.update(i, row);
    assert forall|id: u64| contents(changed).contains_key(id) <==> contents(rows).insert(
        row.id,
        row.user@,
    ).contains_key(id) by {
        if holds(rows, id) {
            assert(changed[row_of(rows, id)].id == id);
        }
    }
    assert forall|id: u64| contents(changed).contains_key(id) implies contents(changed)[id]
        == contents(rows).insert(row.id, row.user@)[id] by {
        let a = row_of(changed, id);
        lemma_row(changed, a);
        lemma_row(rows, a);
    }
}

/// Taking row `i` out takes its user out of the contents.
proof fn lemma_remove(rows: Seq<Row>, i: int)
    requires
        rising(rows),
        0 <= i < rows.len(),
    ensures
        rising(rows.remove(i)),
        contents(rows.remove(i)) == contents(rows).remove(rows[i].id),
{
    let shorter = rows.remove(i);
    assert forall|id: u64| contents(shorter).contains_key(id) <==> contents(rows).remove(
        rows[i].id,
    ).contains_key(id) by {
        if holds(rows, id) && id != rows[i].id {
            let a = row_of(rows, id);
            assert(shorter[if a < i { a } else { a - 1 }].id == id);
        }
    }
    assert forall|id: u64| contents(shorter).contains_key(id) implies contents(shorter)[id]
        == contents(rows).remove(rows[i].id)[id] by {
        let a = row_of(shorter, id);
        lemma_row(shorter, a);
        lemma_row(rows, if a < i { a } else { a + 1 });
    }
}

/// The rows list their contents, by rising number.
proof fn lemma_listing(rows: Seq<Row>, names: Seq<Seq<char>>)
    requires
        rising(rows),
        names.len() == rows.len(),
        forall|i: int| 0 <= i < rows.len() ==> names[i] == rows[i].user@,
    ensures
        listing_by_number(contents(rows), names),
        repository::listing(contents(rows), names),
{
    let ids = numbers(rows);
    assert(ids.to_set() =~= contents(rows).dom()) by {
        assert forall|id: u64| holds(rows, id) implies ids.to_set().contains(id) by {
            assert(ids[row_of(rows, id)] == id);
        }
    }
    assert forall|i: int| 0 <= i < ids.len() implies #[trigger] names[i] == contents(rows)[ids[i]] by {
        lemma_row(rows, i);
    }
    assert(repository::listed_by(contents(rows), ids, names));
}

/// Rows with the same numbers and the same users have the same
/// contents.
proof fn lemma_same(rows: Seq<Row>, copies: Seq<Row>)
    requires
        rising(rows),
        copies.len() == rows.len(),
        forall|i: int|
            0 <= i < rows.len() ==> (#[trigger] copies[i]).id == rows[i].id && copies[i].user@
                == rows[i].user@,
    ensures
        rising(copies),
        contents(copies) == contents(rows),
{
    assert forall|id: u64| contents(copies).contains_key(id) <==> contents(rows).contains_key(
        id,
    ) by {
        if holds(rows, id) {
            assert(copies[row_of(rows, id)].id == id);
        }
    }
    assert forall|id: u64| contents(copies).contains_key(id) implies contents(copies)[id]
        == contents(rows)[id] by {
        let i = row_of(copies, id);
        lemma_row(copies, i);
        lemma_row(rows, i);
    }
}

/// The row with the number `id`, if there is one.
fn position(rows: &Vec<Row>, id: u64) -> (at: Option<usize>)
    requires
        rising(rows@),
    ensures
        (match at {
            Some(i) => i < rows.len() && rows[i as int].id == id,
            None => !holds(rows@, id),
        }),
{
    let mut low: usize = 0;
    let mut high: usize = rows.len();
    while low < high
        invariant
            low <= high <= rows.len(),
            rising(rows@),
            forall|i: int| 0 <= i < low ==> rows[i].id < id,
            forall|i: int| high <= i < rows.len() ==> id < rows[i].id,
        decreases high - low,
    {
        let middle: usize = low + (high - low) / 2;
        let number: u64 = rows[middle].id;
        if number == id {
            return Some(middle);
        } else if number < id {
            low = middle + 1;
        } else {
            high = middle;
        }
    }
    None
}

impl MemoryRepository {
    /// The rows are in order, and their numbers are used up.
    #[verifier::type_invariant]
    spec fn well_formed(&self) -> bool {
        &&& rising(self.rows@)
        &&& below(self.rows@, self.next_id)
    }

    /// The number that the next user is kept under.
    pub closed spec fn next_id(&self) -> u64 {
        self.next_id
    }

    /// A store that keeps nobody. Its first user gets the number one.
    pub fn new() -> (store: Self)
        ensures
            store@ == Users::empty(),
            store.next_id() == 1,
    {
        Self::starting_at(1)
    }

    /// A store that keeps nobody. Its first user gets the number
    /// `first`.
    pub fn starting_at(first: u64) -> (store: Self)
        ensures
            store@ == Users::empty(),
            store.next_id() == first,
    {
        let store = MemoryRepository { rows: Vec::new(), next_id: first };
        store
    }
}

impl Clone for MemoryRepository {
    /// A second store that keeps the same users under the same numbers.
    /// What is done to one of the two from then on is not done to the
    /// other.
    fn clone(&self) -> (copy: Self)
        ensures
            copy@ == self@,
            copy.next_id() == self.next_id(),
            copy.ready() == self.ready(),
    {
        proof {
            use_type_invariant(self);
        }
        let mut rows: Vec<Row> = Vec::new();
        let mut i: usize = 0;
        while i < self.rows.len()
            invariant
                i <= self.rows.len(),
                rows.len() == i,
                forall|k: int|
                    0 <= k < i ==> (#[trigger] rows[k]).id == self.rows[k].id && rows[k].user@
                        == self.rows[k].user@,
            decreases self.rows.len() - i,
        {
            rows.push(Row { id: self.rows[i].id, user: self.rows[i].user.clone() });
            i += 1;
        }
        proof {
            lemma_same(self.rows@, rows@);
        }
        MemoryRepository { rows, next_id: self.next_id }
    }
}

impl Repository for MemoryRepository {
    closed spec fn view(&self) -> Users {
        contents(self.rows@)
    }

    /// A store in memory carries out everything but for one thing: it
    /// keeps no further user once the numbers have run out.
    open spec fn ready(&self) -> bool {
        self.next_id() < u64::MAX
    }

    /// The user kept under `id`. Never fails.
    fn find_by_id(&self, id: &u64) -> (found: Result<Option<User>, AppError>)
        ensures
            found is Ok,
    {
        proof {
            use_type_invariant(self);
        }
        match position(&self.rows, *id) {
            Some(i) => {
                proof {
                    lemma_row(self.rows@, i as int);
                }
                Ok(Some(self.rows[i].user.clone()))
            },
            None => Ok(None),
        }
    }

    /// Every user, by rising number, which is the order in which they
    /// came. Never fails.
    fn list(&self) -> (all: Result<Vec<User>, AppError>)
        ensures
            all matches Ok(users) && listing_by_number(
                self@,
                domain::names(users@),
            ),
    {
        proof {
            use_type_invariant(self);
        }
        let mut users: Vec<User> = Vec::new();
        let mut i: usize = 0;
        while i < self.rows.len()
            invariant
                i <= self.rows.len(),
                users.len() == i,
                forall|k: int| 0 <= k < i ==> users[k]@ == self.rows[k].user@,
            decreases self.rows.len() - i,
        {
            users.push(self.rows[i].user.clone());
            i += 1;
        }
        proof {
            lemma_listing(self.rows@, domain::names(users@));
        }
        Ok(users)
    }

    /// Keeps `user` under the next number. Fails only when the numbers
    /// have run out.
    fn create(&mut self, user: User) -> (created: Result<User, AppError>)
        ensures
            created is Ok <==> old(self).ready(),
            created is Ok ==> repository::stored_at(
                old(self)@,
                old(self).next_id(),
                user@,
                final(self)@,
            ),
            created is Ok ==> final(self).next_id() == old(self).next_id() + 1,
            created matches Err(AppError::General(text)) ==> text@ == exhausted(),
            created is Err ==> final(self).next_id() == old(self).next_id(),
    {
        proof {
            use_type_invariant(&*self);
        }
        if self.next_id == u64::MAX {
            return Err(AppError::string("the numbers for users have run out"));
        }
        let id: u64 = self.next_id;
        let kept = user.clone();
        let mut rows: Vec<Row> = Vec::new();
        std::mem::swap(&mut rows, &mut self.rows);
        proof {
            lemma_push(rows@, Row { id, user }, id);
        }
        rows.push(Row { id, user });
        self.next_id = id + 1;
        self.rows = rows;
        assert(repository::stored_at(old(self)@, id, user@, self@));
        Ok(kept)
    }

    /// Puts `user` in the place of the one kept under `id`. Never fails.
    fn update(&mut self, id: u64, user: User) -> (updated: Result<Option<User>, AppError>)
        ensures
            updated is Ok,
            final(self).next_id() == old(self).next_id(),
    {
        proof {
            use_type_invariant(&*self);
        }
        match position(&self.rows, id) {
            Some(i) => {
                let kept = user.clone();
                let mut rows: Vec<Row> = Vec::new();
                std::mem::swap(&mut rows, &mut self.rows);
                proof {
                    lemma_row(rows@, i as int);
                    lemma_replace(rows@, i as int, Row { id, user });
                }
                rows.set(i, Row { id, user });
                self.rows = rows;
                Ok(Some(kept))
            },
            None => Ok(None),
        }
    }

    /// Removes the user kept under `id`. Never fails. The number is not
    /// used again.
    fn delete(&mut self, id: &u64) -> (deleted: Result<bool, AppError>)
        ensures
            deleted is Ok,
            final(self).next_id() == old(self).next_id(),
    {
        proof {
            use_type_invariant(&*self);
        }
        match position(&self.rows, *id) {
            Some(i) => {
                let mut rows: Vec<Row> = Vec::new();
                std::mem::swap(&mut rows, &mut self.rows);
                proof {
                    lemma_row(rows@, i as int);
                    lemma_remove(rows@, i as int);
                }
                rows.remove(i);
                self.rows = rows;
                Ok(true)
            },
            None => Ok(false),
        }
    }
}

} // verus!
