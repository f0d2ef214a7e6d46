//! A store and a pool held in memory.
//!
//! They answer the statements of the account operations by the rules the
//! relational store is bound to: no two accounts share an identifier or a
//! username, and a listing comes newest first. A unit of work run against them
//! goes through the same steps as one run against a database, so the
//! operations can be exercised from end to end without one.

use crate::state::{
    Action,
    DataAccessError,
    DataAccessErrorView,
    DataAccessResult,
    Event,
    FaultKind,
    StoreFault,
    StoreReply,
    StoreReplyView,
    StoreRequest,
    UnitOfWork,
    result_view,
};
use crate::user::models::{accounts_of, AccountView, NewUser, Timestamp, User};
use vstd::prelude::*;

verus! {

/// No two rows share an identifier, and no two share a username.
pub open spec fn unique(table: Seq<AccountView>) -> bool {
    forall|i: int, j: int|
        0 <= i < j < table.len() ==> (#[trigger] table[i]).id != (#[trigger] table[j]).id
            && table[i].username != table[j].username
}

/// Every row is at least as recent as the rows after it.
pub open spec fn newest_first(table: Seq<AccountView>) -> bool {
    forall|i: int, j: int|
        0 <= i < j < table.len() ==> (#[trigger] table[i]).timestamp.spec_not_before(
            (#[trigger] table[j]).timestamp,
        )
}

/// What always holds of the rows of a store.
pub open spec fn well_formed(table: Seq<AccountView>) -> bool {
    unique(table) && newest_first(table)
}

/// Whether some row already has the identifier or the username of `row`.
pub open spec fn taken(table: Seq<AccountView>, row: AccountView) -> bool {
    exists|i: int|
        0 <= i < table.len() && ((#[trigger] table[i]).id == row.id || table[i].username
            == row.username)
}

/// Whether `p` is where a row created at `t` goes: after every row that is
/// strictly more recent, and before every other row.
pub open spec fn is_slot(table: Seq<AccountView>, t: Timestamp, p: int) -> bool {
    &&& 0 <= p <= table.len()
    &&& forall|i: int| 0 <= i < p ==> !t.spec_not_before((#[trigger] table[i]).timestamp)
    &&& p < table.len() ==> t.spec_not_before(table[p].timestamp)
}

/// Where a row created at `t` goes.
pub open spec fn slot_of(table: Seq<AccountView>, t: Timestamp) -> int {
    choose|p: int| is_slot(table, t, p)
}

/// The rows with the given username.
pub open spec fn has_username(username: Seq<char>) -> spec_fn(AccountView) -> bool {
    |row: AccountView| row.username == username
}

/// The rows with the given identifier.
pub open spec fn has_id(id: Seq<char>) -> spec_fn(AccountView) -> bool {
    |row: AccountView| row.id == id
}

/// The rows after a statement, and the store's answer to it: an insert is
/// refused if the identifier or the username is taken and otherwise puts the
/// row in its slot; a select leaves the rows alone and answers with the rows
/// that match, in their order.
pub open spec fn spec_execute(table: Seq<AccountView>, request: StoreRequest) -> (
    Seq<AccountView>,
    Result<StoreReplyView, FaultKind>,
) {
    match request {
        StoreRequest::InsertAccount(row) => {
            if taken(table, row@) {
                (table, Err(FaultKind::UniqueViolation))
            } else {
                (
                    table.insert(slot_of(table, row@.timestamp), row@),
                    Ok(StoreReplyView::Inserted),
                )
            }
        },
        StoreRequest::AccountsByUsername(username) => (
            table,
            Ok(StoreReplyView::Accounts(table.filter(has_username(username@)))),
        ),
        StoreRequest::AccountById(id) => (
            table,
            Ok(StoreReplyView::Accounts(table.filter(has_id(id@)))),
        ),
        StoreRequest::AllAccountsNewestFirst => (table, Ok(StoreReplyView::Accounts(table))),
    }
}

/// Mathematical value of a store's answer. Of a failure it keeps the kind; the
/// text that goes with it is for the log and decides nothing.
pub open spec fn answer_view(answer: Result<StoreReply, StoreFault>) -> Result<
    StoreReplyView,
    FaultKind,
> {
    match answer {
        Ok(reply) => Ok(reply@),
        Err(fault) => Err(fault.kind),
    }
}

/// A slot is the only one.
pub proof fn lemma_slot_is_unique(table: Seq<AccountView>, t: Timestamp, p: int, q: int)
    requires
        is_slot(table, t, p),
        is_slot(table, t, q),
    ensures
        p == q,
{
    if p < q {
        assert(!t.spec_not_before(table[p].timestamp));
    } else if q < p {
        assert(!t.spec_not_before(table[q].timestamp));
    }
}

/// There is a slot for every creation time.
pub proof fn lemma_slot_exists(table: Seq<AccountView>, t: Timestamp)
    ensures
        is_slot(table, t, slot_of(table, t)),
{
    lemma_slot_from(table, t, 0);
}

proof fn lemma_slot_from(table: Seq<AccountView>, t: Timestamp, k: int)
    requires
        0 <= k <= table.len(),
        forall|i: int| 0 <= i < k ==> !t.spec_not_before((#[trigger] table[i]).timestamp),
    ensures
        exists|p: int| is_slot(table, t, p),
    decreases table.len() - k,
{
    if k < table.len() && !t.spec_not_before(table[k].timestamp) {
        lemma_slot_from(table, t, k + 1);
    } else {
        assert(is_slot(table, t, k));
    }
}

/// Putting a row that clashes with none into its slot keeps the rows well
/// formed.
pub proof fn lemma_insert_keeps_well_formed(table: Seq<AccountView>, row: AccountView, p: int)
    requires
        well_formed(table),
        !taken(table, row),
        is_slot(table, row.timestamp, p),
    ensures
        well_formed(table.insert(p, row)),
{
    let after = table.insert(p, row);
    assert forall|i: int, j: int| 0 <= i < j < after.len() implies (#[trigger] after[i]).id != (
    #[trigger] after[j]).id && after[i].username != after[j].username by {
        let a = if i < p {
            i
        } else {
            i - 1
        };
        let b = if j < p {
            j
        } else {
            j - 1
        };
        if i == p {
            assert(after[j] == table[b]);
        } else if j == p {
            assert(after[i] == table[a]);
        } else {
            assert(after[i] == table[a]);
            assert(after[j] == table[b]);
        }
    }
    assert forall|i: int, j: int| 0 <= i < j < after.len() implies (
    #[trigger] after[i]).timestamp.spec_not_before((#[trigger] after[j]).timestamp) by {
        let a = if i < p {
            i
        } else {
            i - 1
        };
        let b = if j < p {
            j
        } else {
            j - 1
        };
        if i == p {
            assert(after[j] == table[b]);
            assert(row.timestamp.spec_not_before(table[p].timestamp));
            if b > p {
                assert(table[p].timestamp.spec_not_before(table[b].timestamp));
            }
        } else if j == p {
            assert(after[i] == table[a]);
            assert(!row.timestamp.spec_not_before(table[a].timestamp));
        } else {
            assert(after[i] == table[a]);
            assert(after[j] == table[b]);
        }
    }
}

/// The rows of an account store held in memory. They are well formed at all
/// times.
#[derive(Debug)]
pub struct MemoryStore {
    rows: Vec<User>,
}

impl View for MemoryStore {
    type V = Seq<AccountView>;

    closed spec fn view(&self) -> Seq<AccountView> {
        accounts_of(self.rows@)
    }
}

impl MemoryStore {
    #[verifier::type_invariant]
    spec fn inv(self) -> bool {
        well_formed(accounts_of(self.rows@))
    }

    /// A store with no accounts.
    pub fn new() -> (store: MemoryStore)
        ensures
            store@ == Seq::<AccountView>::empty(),
    {
        let store = MemoryStore { rows: Vec::new() };
        assert(store@ =~= Seq::<AccountView>::empty());
        store
    }

    /// The number of accounts.
    pub fn len(&self) -> (n: usize)
        ensures
            n == self@.len(),
            well_formed(self@),
    {
        proof {
            use_type_invariant(self);
        }
        self.rows.len()
    }

    /// Inserts one account, unless its identifier or username is taken.
    fn insert(&mut self, new_user: NewUser) -> (answer: Result<StoreReply, StoreFault>)
        ensures
            well_formed(old(self)@),
            well_formed(final(self)@),
            (final(self)@, answer_view(answer)) == spec_execute(
                old(self)@,
                StoreRequest::InsertAccount(new_user),
            ),
            is_slot(
                old(self)@,
                new_user@.timestamp,
                slot_of(old(self)@, new_user@.timestamp),
            ),
    {
        proof {
            use_type_invariant(&*self);
            lemma_slot_exists(self@, new_user@.timestamp);
        }
        let ghost table = self@;
        let n = self.rows.len();
        let mut i: usize = 0;
        while i < n
            invariant
                i <= n,
                n == self.rows@.len(),
                table == accounts_of(self.rows@),
                table == old(self)@,
                well_formed(table),
                is_slot(table, new_user@.timestamp, slot_of(table, new_user@.timestamp)),
                forall|j: int|
                    0 <= j < i ==> (#[trigger] table[j]).id != new_user@.id && table[j].username
                        != new_user@.username,
            decreases n - i,
        {
            if self.rows[i].id == new_user.id || self.rows[i].username == new_user.username {
                assert(table[i as int].id == new_user@.id || table[i as int].username
                    == new_user@.username);
                return Err(
                    StoreFault {
                        kind: FaultKind::UniqueViolation,
                        detail: "identifier or username already taken".to_owned(),
                    },
                );
            }
            i += 1;
        }
        assert(!taken(table, new_user@));
        let mut p: usize = 0;
        while p < n && !new_user.timestamp.not_before(self.rows[p].timestamp)
            invariant
                p <= n,
                n == self.rows@.len(),
                table == accounts_of(self.rows@),
                table == old(self)@,
                well_formed(table),
                is_slot(table, new_user@.timestamp, slot_of(table, new_user@.timestamp)),
                forall|j: int|
                    0 <= j < p ==> !new_user.timestamp.spec_not_before(
                        (#[trigger] table[j]).timestamp,
                    ),
            decreases n - p,
        {
            p += 1;
        }
        let ghost row = new_user@;
        let user = new_user.into_user();
        let mut rows: Vec<User> = Vec::new();
        proof {
            assert(accounts_of(rows@) =~= Seq::<AccountView>::empty());
        }
        core::mem::swap(&mut self.rows, &mut rows);
        rows.insert(p, user);
        proof {
            assert(is_slot(table, row.timestamp, p as int));
            lemma_slot_exists(table, row.timestamp);
            lemma_slot_is_unique(table, row.timestamp, p as int, slot_of(table, row.timestamp));
            lemma_insert_keeps_well_formed(table, row, p as int);
            assert(accounts_of(rows@) =~= table.insert(p as int, row));
        }
        self.rows = rows;
        Ok(StoreReply::Inserted)
    }

    /// The rows whose identifier (`by_id`) or username (otherwise) is `key`,
    /// in the order they are held.
    fn select(&self, by_id: bool, key: &String) -> (found: Vec<User>)
        ensures
            well_formed(self@),
            accounts_of(found@) == self@.filter(
                if by_id {
                    has_id(key@)
                } else {
                    has_username(key@)
                },
            ),
    {
        proof {
            use_type_invariant(self);
        }
        let ghost table = self@;
        let ghost keep = if by_id {
            has_id(key@)
        } else {
            has_username(key@)
        };
        let mut found: Vec<User> = Vec::new();
        let n = self.rows.len();
        let mut i: usize = 0;
        proof {
            assert(table.take(0) =~= Seq::<AccountView>::empty());
            assert(accounts_of(found@) =~= table.take(0).filter(keep));
        }
        while i < n
            invariant
                i <= n,
                n == self.rows@.len(),
                table == accounts_of(self.rows@),
                keep == if by_id {
                    has_id(key@)
                } else {
                    has_username(key@)
                },
                accounts_of(found@) == table.take(i as int).filter(keep),
            decreases n - i,
        {
            let row = &self.rows[i];
            let matches = if by_id {
                row.id == *key
            } else {
                row.username == *key
            };
            proof {
                assert(table.take(i + 1) =~= table.take(i as int).push(table[i as int]));
                table.take(i as int).lemma_filter_push(table[i as int], keep);
                assert(matches == keep(table[i as int]));
            }
            if matches {
                let ghost before = found@;
                found.push(row.clone());
                proof {
                    assert(accounts_of(found@) =~= accounts_of(before).push(table[i as int]));
                }
            }
            i += 1;
        }
        proof {
            assert(table.take(n as int) =~= table);
        }
        found
    }

    /// Every row, in the order held: newest first.
    fn select_all(&self) -> (found: Vec<User>)
        ensures
            well_formed(self@),
            accounts_of(found@) == self@,
    {
        proof {
            use_type_invariant(self);
        }
        let mut found: Vec<User> = Vec::new();
        let n = self.rows.len();
        let mut i: usize = 0;
        while i < n
            invariant
                i <= n,
                n == self.rows@.len(),
                found@.len() == i,
                forall|j: int| 0 <= j < i ==> (#[trigger] found@[j])@ == self.rows@[j]@,
            decreases n - i,
        {
            found.push(self.rows[i].clone());
            i += 1;
        }
        proof {
            assert(accounts_of(found@) =~= accounts_of(self.rows@));
        }
        found
    }

    /// Answers one statement.
    ///
    /// An insert is refused, and changes nothing, if the identifier or the
    /// username is taken; otherwise the account goes in, ahead of every
    /// account that is not more recent. A select changes nothing.
    pub fn execute(&mut self, request: StoreRequest) -> (answer: Result<StoreReply, StoreFault>)
        ensures
            well_formed(old(self)@),
            well_formed(final(self)@),
            (final(self)@, answer_view(answer)) == spec_execute(old(self)@, request),
            request matches StoreRequest::InsertAccount(row) ==> is_slot(
                old(self)@,
                row@.timestamp,
                slot_of(old(self)@, row@.timestamp),
            ),
    {
        match request {
            StoreRequest::InsertAccount(new_user) => self.insert(new_user),
            StoreRequest::AccountsByUsername(username) => Ok(
                StoreReply::Accounts(self.select(false, &username)),
            ),
            StoreRequest::AccountById(id) => Ok(StoreReply::Accounts(self.select(true, &id))),
            StoreRequest::AllAccountsNewestFirst => Ok(StoreReply::Accounts(self.select_all())),
        }
    }
}

/// A pool of connections that does nothing but count its leases. It never has
/// more of them out than its capacity.
#[derive(Debug)]
pub struct MemoryPool {
    capacity: usize,
    leased: usize,
}

impl MemoryPool {
    #[verifier::type_invariant]
    spec fn inv(self) -> bool {
        self.leased <= self.capacity
    }

    /// The most leases the pool gives out at a time.
    pub closed spec fn spec_capacity(&self) -> usize {
        self.capacity
    }

    /// The number of leases that are out.
    pub closed spec fn spec_leased(&self) -> usize {
        self.leased
    }

    /// Whether a lease can be had.
    pub open spec fn available(&self) -> bool {
        self.spec_leased() < self.spec_capacity()
    }

    /// A pool of the given capacity, with no lease out.
    pub fn new(capacity: usize) -> (pool: MemoryPool)
        ensures
            pool.spec_capacity() == capacity,
            pool.spec_leased() == 0,
    {
        MemoryPool { capacity, leased: 0 }
    }

    /// The most leases the pool gives out at a time.
    #[verifier::when_used_as_spec(spec_capacity)]
    pub fn capacity(&self) -> (n: usize)
        ensures
            n == self.spec_capacity(),
    {
        self.capacity
    }

    /// The number of leases that are out. It never exceeds the capacity.
    #[verifier::when_used_as_spec(spec_leased)]
    pub fn leased(&self) -> (n: usize)
        ensures
            n == self.spec_leased(),
            n <= self.spec_capacity(),
    {
        proof {
            use_type_invariant(self);
        }
        self.leased
    }

    /// Takes a lease if one can be had, and says whether it was.
    pub fn lease(&mut self) -> (granted: bool)
        ensures
            granted == old(self).available(),
            final(self).spec_capacity() == old(self).spec_capacity(),
            final(self).spec_leased() == old(self).spec_leased() + if granted {
                1int
            } else {
                0int
            },
            final(self).spec_leased() <= final(self).spec_capacity(),
    {
        proof {
            use_type_invariant(&*self);
        }
        if self.leased < self.capacity {
            self.leased = self.leased + 1;
            true
        } else {
            false
        }
    }

    /// Gives a lease back. With no lease out there is nothing to give back.
    pub fn release(&mut self)
        ensures
            final(self).spec_capacity() == old(self).spec_capacity(),
            final(self).spec_leased() == if old(self).spec_leased() > 0 {
                old(self).spec_leased() - 1
            } else {
                0int
            },
    {
        proof {
            use_type_invariant(&*self);
        }
        if self.leased > 0 {
            self.leased = self.leased - 1;
        }
    }
}

/// What a unit of work comes to when run in memory, and the rows it leaves:
/// with no lease to be had nothing runs; otherwise the statement runs, and a
/// refusal by the store is a failed query.
pub open spec fn spec_run(available: bool, table: Seq<AccountView>, work: StoreRequest) -> (
    Seq<AccountView>,
    Result<StoreReplyView, DataAccessErrorView>,
) {
    if !available {
        (table, Err(DataAccessErrorView::PoolUnavailable))
    } else {
        match spec_execute(table, work).1 {
            Ok(reply) => (spec_execute(table, work).0, Ok(reply)),
            Err(kind) => (table, Err(DataAccessErrorView::Query(kind))),
        }
    }
}

/// Runs one unit of work against the pool and the store: lease, execute in a
/// transaction, commit or roll back, release.
///
/// The lease taken is given back on every path, so the pool has as many
/// leases out afterwards as before. A statement that fails leaves the rows as
/// they were.
pub fn run(pool: &mut MemoryPool, store: &mut MemoryStore, work: StoreRequest) -> (result:
    DataAccessResult)
    ensures
        final(pool).spec_capacity() == old(pool).spec_capacity(),
        final(pool).spec_leased() == old(pool).spec_leased(),
        final(pool).spec_leased() <= final(pool).spec_capacity(),
        well_formed(old(store)@),
        well_formed(final(store)@),
        (final(store)@, result_view(result)) == spec_run(old(pool).available(), old(store)@, work),
        work matches StoreRequest::InsertAccount(row) ==> is_slot(
            old(store)@,
            row@.timestamp,
            slot_of(old(store)@, row@.timestamp),
        ),
{
    proof {
        use_type_invariant(&*store);
        if work is InsertAccount {
            lemma_slot_exists(store@, work->InsertAccount_0@.timestamp);
        }
    }
    let (unit, action) = UnitOfWork::begin(work);
    let event = if pool.lease() {
        Event::LeaseGranted
    } else {
        Event::LeaseRefused
    };
    let (unit, action) = unit.advance(event);
    match action {
        Action::Finish(outcome) => outcome,
        Action::Execute(statement) => {
            let event = match store.execute(statement) {
                Ok(reply) => Event::WorkDone(reply),
                Err(fault) => Event::WorkFailed(fault),
            };
            let (unit, action) = unit.advance(event);
            let event = match action {
                Action::Commit => Event::Committed,
                _ => Event::RolledBack,
            };
            let (unit, action) = unit.advance(event);
            pool.release();
            let (unit, action) = unit.advance(Event::Released);
            match action {
                Action::Finish(outcome) => outcome,
                _ => unreached(),
            }
        },
        _ => unreached(),
    }
}

/// Of two registrations under one username that is still free, the first to
/// reach the store is inserted and the second is refused for uniqueness,
/// whichever of the two comes first. The rows stay well formed, so the
/// username is held by one row and no more.
pub proof fn lemma_one_registration_wins(table: Seq<AccountView>, first: NewUser, second: NewUser)
    requires
        well_formed(table),
        !taken(table, first@),
        first@.username == second@.username,
    ensures
        spec_run(true, table, StoreRequest::InsertAccount(first)).1 == Ok::<
            StoreReplyView,
            DataAccessErrorView,
        >(StoreReplyView::Inserted),
        spec_run(
            true,
            spec_run(true, table, StoreRequest::InsertAccount(first)).0,
            StoreRequest::InsertAccount(second),
        ) == (
            spec_run(true, table, StoreRequest::InsertAccount(first)).0,
            Err::<StoreReplyView, DataAccessErrorView>(
                DataAccessErrorView::Query(FaultKind::UniqueViolation),
            ),
        ),
        well_formed(spec_run(true, table, StoreRequest::InsertAccount(first)).0),
        spec_run(true, table, StoreRequest::InsertAccount(first)).0.filter(
            has_username(first@.username),
        ) == seq![first@],
        spec_run(true, table, StoreRequest::InsertAccount(first)).0.len() == table.len() + 1,
        forall|i: int|
            0 <= i < table.len() ==> spec_run(
                true,
                table,
                StoreRequest::InsertAccount(first),
            ).0.contains(#[trigger] table[i]),
{
    let p = slot_of(table, first@.timestamp);
    lemma_slot_exists(table, first@.timestamp);
    lemma_insert_keeps_well_formed(table, first@, p);
    let after = table.insert(p, first@);
    assert(after[p] == first@);
    assert(taken(after, second@));
    lemma_sole_match(after, p, has_username(first@.username));
    assert forall|i: int| 0 <= i < table.len() implies after.contains(#[trigger] table[i]) by {
        if i < p {
            assert(after[i] == table[i]);
        } else {
            assert(after[i + 1] == table[i]);
        }
    }
}

/// Two registrations under one username that is still free, taken in either
/// order: whichever reaches the store first is inserted, and the other is
/// refused for uniqueness. Never are both inserted, and never both refused.
pub proof fn lemma_either_order_one_wins(table: Seq<AccountView>, one: NewUser, other: NewUser)
    requires
        well_formed(table),
        !taken(table, one@),
        !taken(table, other@),
        one@.username == other@.username,
    ensures
        spec_run(true, table, StoreRequest::InsertAccount(one)).1 is Ok,
        spec_run(
            true,
            spec_run(true, table, StoreRequest::InsertAccount(one)).0,
            StoreRequest::InsertAccount(other),
        ).1 == Err::<StoreReplyView, DataAccessErrorView>(
            DataAccessErrorView::Query(FaultKind::UniqueViolation),
        ),
        spec_run(true, table, StoreRequest::InsertAccount(other)).1 is Ok,
        spec_run(
            true,
            spec_run(true, table, StoreRequest::InsertAccount(other)).0,
            StoreRequest::InsertAccount(one),
        ).1 == Err::<StoreReplyView, DataAccessErrorView>(
            DataAccessErrorView::Query(FaultKind::UniqueViolation),
        ),
{
    lemma_one_registration_wins(table, one, other);
    lemma_one_registration_wins(table, other, one);
}

/// If one row matches and no other does, the rows that match are that row.
proof fn lemma_sole_match(table: Seq<AccountView>, p: int, keep: spec_fn(AccountView) -> bool)
    requires
        0 <= p < table.len(),
        keep(table[p]),
        forall|i: int| 0 <= i < table.len() && i != p ==> !keep(#[trigger] table[i]),
    ensures
        table.filter(keep) == seq![table[p]],
    decreases table.len(),
{
    reveal(Seq::filter);
    let front = table.drop_last();
    if p == table.len() - 1 {
        assert(front.filter(keep) =~= Seq::<AccountView>::empty()) by {
            assert forall|i: int| 0 <= i < front.len() implies !keep(#[trigger] front[i]) by {
                assert(front[i] == table[i]);
            }
            front.lemma_all_neg_filter_empty(keep);
        }
        assert(table.filter(keep) =~= seq![table[p]]);
    } else {
        assert(front[p] == table[p]);
        assert forall|i: int| 0 <= i < front.len() && i != p implies !keep(
            #[trigger] front[i],
        ) by {
            assert(front[i] == table[i]);
        }
        lemma_sole_match(front, p, keep);
        assert(table.filter(keep) =~= seq![table[p]]);
    }
}

} // verus!
