//! The transactional unit of work.
//!
//! Every read or write of the store goes through one unit of work: lease a
//! connection, open a transaction and run the work in it, commit if the work
//! succeeded and roll back if it failed, then give the connection back. The
//! library decides each step; the host performs it and reports what happened.
//!
//! The host starts with [`UnitOfWork::begin`], performs the [`Action`] it is
//! handed, and passes the resulting [`Event`] to [`UnitOfWork::advance`], until
//! the action is [`Action::Finish`].

use crate::commons::schema::{ErrorResponse, ErrorResponseWithStatus, ErrorView, STATUS_INTERNAL_SERVER_ERROR};
use crate::user::models::{accounts_of, AccountView, NewUser, User};
use vstd::prelude::*;

verus! {

/// The four statements the service ever sends to the store.
#[derive(Debug, PartialEq, Eq)]
pub enum StoreRequest {
    /// Insert one account. Identifier and username must both be new.
    InsertAccount(NewUser),
    /// Select the accounts with this username.
    AccountsByUsername(String),
    /// Select the accounts with this identifier.
    AccountById(String),
    /// Select every account, most recently created first.
    AllAccountsNewestFirst,
}

/// What the store answers to a statement that succeeded.
#[derive(Debug, PartialEq, Eq)]
pub enum StoreReply {
    /// The insert took effect.
    Inserted,
    /// The rows a select matched, in the order the store gave them.
    Accounts(Vec<User>),
}

/// The kinds of failure the operations tell apart.
#[derive(Debug, Clone, Copy, PartialEq, Eq, Structural)]
pub enum FaultKind {
    /// A uniqueness constraint turned the statement down.
    UniqueViolation,
    /// The work was cut short before the store answered.
    Aborted,
    /// Any other failure.
    Other,
}

/// A failure reported by the store. `detail` is for the server's log and is
/// never shown to a caller.
#[derive(Debug, PartialEq, Eq)]
pub struct StoreFault {
    pub kind: FaultKind,
    pub detail: String,
}

/// How a unit of work can fail.
#[derive(Debug, PartialEq, Eq)]
pub enum DataAccessError {
    /// No connection could be leased: the pool is exhausted or timed out.
    PoolUnavailable,
    /// The work failed inside the transaction, which was rolled back.
    Query(StoreFault),
    /// The work succeeded but the commit did not.
    Commit(StoreFault),
}

/// What a unit of work comes to.
pub type DataAccessResult = Result<StoreReply, DataAccessError>;

/// Mathematical value of a [`StoreReply`].
pub enum StoreReplyView {
    Inserted,
    Accounts(Seq<AccountView>),
}

/// Mathematical value of a [`DataAccessError`]: the failure without the text
/// that is kept for the log.
pub enum DataAccessErrorView {
    PoolUnavailable,
    Query(FaultKind),
    Commit(FaultKind),
}

impl View for StoreReply {
    type V = StoreReplyView;

    open spec fn view(&self) -> StoreReplyView {
        match *self {
            StoreReply::Inserted => StoreReplyView::Inserted,
            StoreReply::Accounts(rows) => StoreReplyView::Accounts(accounts_of(rows@)),
        }
    }
}

impl View for DataAccessError {
    type V = DataAccessErrorView;

    open spec fn view(&self) -> DataAccessErrorView {
        match *self {
            DataAccessError::PoolUnavailable => DataAccessErrorView::PoolUnavailable,
            DataAccessError::Query(fault) => DataAccessErrorView::Query(fault.kind),
            DataAccessError::Commit(fault) => DataAccessErrorView::Commit(fault.kind),
        }
    }
}

/// Mathematical value of what a unit of work came to.
pub open spec fn result_view(result: DataAccessResult) -> Result<
    StoreReplyView,
    DataAccessErrorView,
> {
    match result {
        Ok(reply) => Ok(reply@),
        Err(error) => Err(error@),
    }
}

/// Where a unit of work stands.
#[derive(Debug, PartialEq, Eq)]
pub enum UnitOfWork {
    /// A lease has been asked for. Holds the work to run once it is granted.
    Leasing(StoreRequest),
    /// The connection is leased, the transaction is open, the work is running.
    Working,
    /// The work succeeded and the commit has been asked for.
    Committing(StoreReply),
    /// The work failed and the rollback has been asked for.
    RollingBack(StoreFault),
    /// The transaction is closed and the release of the lease has been asked
    /// for. Holds the outcome to report.
    Releasing(DataAccessResult),
    /// The outcome has been reported. Nothing is held any more.
    Finished,
}

/// What the host is to do next.
#[derive(Debug, PartialEq, Eq)]
pub enum Action {
    /// Lease a connection from the pool.
    Lease,
    /// Open a transaction on the leased connection and run this statement in
    /// it.
    Execute(StoreRequest),
    /// Commit the open transaction.
    Commit,
    /// Roll the open transaction back.
    Rollback,
    /// Give the leased connection back to the pool.
    Release,
    /// The unit of work is over and this is its outcome.
    Finish(DataAccessResult),
    /// The event was not the one awaited. Nothing changed; go on waiting.
    Ignore,
}

/// What the host reports back.
#[derive(Debug, PartialEq, Eq)]
pub enum Event {
    /// The pool handed out a connection.
    LeaseGranted,
    /// The pool is exhausted or the wait for a connection timed out.
    LeaseRefused,
    /// The statement succeeded inside the transaction.
    WorkDone(StoreReply),
    /// The statement failed, or the work was cut short.
    WorkFailed(StoreFault),
    /// The commit took effect.
    Committed,
    /// The commit failed.
    CommitFailed(StoreFault),
    /// The transaction has been rolled back.
    RolledBack,
    /// The rollback itself failed. The connection is not to be used again.
    RollbackFailed(StoreFault),
    /// The connection is back in the pool.
    Released,
}

impl UnitOfWork {
    /// Whether the unit of work holds a leased connection.
    pub open spec fn spec_holds_lease(&self) -> bool {
        *self is Working || *self is Committing || *self is RollingBack || *self is Releasing
    }

    /// Whether a transaction is open on the leased connection.
    pub open spec fn spec_transaction_open(&self) -> bool {
        *self is Working || *self is Committing || *self is RollingBack
    }

    /// Whether `event` is the report the unit of work is waiting for.
    pub open spec fn awaits(&self, event: Event) -> bool {
        match (*self, event) {
            (UnitOfWork::Leasing(_), Event::LeaseGranted) => true,
            (UnitOfWork::Leasing(_), Event::LeaseRefused) => true,
            (UnitOfWork::Working, Event::WorkDone(_)) => true,
            (UnitOfWork::Working, Event::WorkFailed(_)) => true,
            (UnitOfWork::Committing(_), Event::Committed) => true,
            (UnitOfWork::Committing(_), Event::CommitFailed(_)) => true,
            (UnitOfWork::RollingBack(_), Event::RolledBack) => true,
            (UnitOfWork::RollingBack(_), Event::RollbackFailed(_)) => true,
            (UnitOfWork::Releasing(_), Event::Released) => true,
            _ => false,
        }
    }

    /// The most reports the unit of work can still take before it is finished.
    pub open spec fn steps_left(&self) -> nat {
        match *self {
            UnitOfWork::Leasing(_) => 4,
            UnitOfWork::Working => 3,
            UnitOfWork::Committing(_) => 2,
            UnitOfWork::RollingBack(_) => 2,
            UnitOfWork::Releasing(_) => 1,
            UnitOfWork::Finished => 0,
        }
    }

    /// The state after `event`, and what the host is to do next.
    pub open spec fn spec_advance(self, event: Event) -> (UnitOfWork, Action) {
        match (self, event) {
            (UnitOfWork::Leasing(work), Event::LeaseGranted) => (
                UnitOfWork::Working,
                Action::Execute(work),
            ),
            (UnitOfWork::Leasing(_), Event::LeaseRefused) => (
                UnitOfWork::Finished,
                Action::Finish(Err(DataAccessError::PoolUnavailable)),
            ),
            (UnitOfWork::Working, Event::WorkDone(reply)) => (
                UnitOfWork::Committing(reply),
                Action::Commit,
            ),
            (UnitOfWork::Working, Event::WorkFailed(fault)) => (
                UnitOfWork::RollingBack(fault),
                Action::Rollback,
            ),
            (UnitOfWork::Committing(reply), Event::Committed) => (
                UnitOfWork::Releasing(Ok(reply)),
                Action::Release,
            ),
            (UnitOfWork::Committing(_), Event::CommitFailed(fault)) => (
                UnitOfWork::Releasing(Err(DataAccessError::Commit(fault))),
                Action::Release,
            ),
            (UnitOfWork::RollingBack(fault), Event::RolledBack) => (
                UnitOfWork::Releasing(Err(DataAccessError::Query(fault))),
                Action::Release,
            ),
            (UnitOfWork::RollingBack(fault), Event::RollbackFailed(_)) => (
                UnitOfWork::Releasing(Err(DataAccessError::Query(fault))),
                Action::Release,
            ),
            (UnitOfWork::Releasing(outcome), Event::Released) => (
                UnitOfWork::Finished,
                Action::Finish(outcome),
            ),
            (state, _) => (state, Action::Ignore),
        }
    }

    /// The state after the reports `events`, taken in order.
    pub open spec fn after(self, events: Seq<Event>) -> UnitOfWork
        decreases events.len(),
    {
        if events.len() == 0 {
            self
        } else {
            self.spec_advance(events[0]).0.after(events.drop_first())
        }
    }

    /// Starts a unit of work that will run `work`. The first thing to do is to
    /// lease a connection.
    pub fn begin(work: StoreRequest) -> (r: (UnitOfWork, Action))
        ensures
            r == (UnitOfWork::Leasing(work), Action::Lease),
    {
        (UnitOfWork::Leasing(work), Action::Lease)
    }

    /// Takes the host's report and decides the next step.
    ///
    /// Work that failed comes out as the failure of the work, whether or not
    /// the rollback that followed went through.
    /// A report that is not the one awaited changes nothing and is answered
    /// with [`Action::Ignore`].
    pub fn advance(self, event: Event) -> (r: (UnitOfWork, Action))
        ensures
            r == self.spec_advance(event),
    {
        match (self, event) {
            (UnitOfWork::Leasing(work), Event::LeaseGranted) => (
                UnitOfWork::Working,
                Action::Execute(work),
            ),
            (UnitOfWork::Leasing(_), Event::LeaseRefused) => (
                UnitOfWork::Finished,
                Action::Finish(Err(DataAccessError::PoolUnavailable)),
            ),
            (UnitOfWork::Working, Event::WorkDone(reply)) => (
                UnitOfWork::Committing(reply),
                Action::Commit,
            ),
            (UnitOfWork::Working, Event::WorkFailed(fault)) => (
                UnitOfWork::RollingBack(fault),
                Action::Rollback,
            ),
            (UnitOfWork::Committing(reply), Event::Committed) => (
                UnitOfWork::Releasing(Ok(reply)),
                Action::Release,
            ),
            (UnitOfWork::Committing(_), Event::CommitFailed(fault)) => (
                UnitOfWork::Releasing(Err(DataAccessError::Commit(fault))),
                Action::Release,
            ),
            (UnitOfWork::RollingBack(fault), Event::RolledBack) => (
                UnitOfWork::Releasing(Err(DataAccessError::Query(fault))),
                Action::Release,
            ),
            (UnitOfWork::RollingBack(fault), Event::RollbackFailed(_)) => (
                UnitOfWork::Releasing(Err(DataAccessError::Query(fault))),
                Action::Release,
            ),
            (UnitOfWork::Releasing(outcome), Event::Released) => (
                UnitOfWork::Finished,
                Action::Finish(outcome),
            ),
            (state, _) => (state, Action::Ignore),
        }
    }

    /// Whether the unit of work holds a leased connection.
    #[verifier::when_used_as_spec(spec_holds_lease)]
    pub fn holds_lease(&self) -> (b: bool)
        ensures
            b == self.spec_holds_lease(),
    {
        match self {
            UnitOfWork::Working => true,
            UnitOfWork::Committing(_) => true,
            UnitOfWork::RollingBack(_) => true,
            UnitOfWork::Releasing(_) => true,
            _ => false,
        }
    }

    /// Whether a transaction is open on the leased connection.
    #[verifier::when_used_as_spec(spec_transaction_open)]
    pub fn transaction_open(&self) -> (b: bool)
        ensures
            b == self.spec_transaction_open(),
    {
        match self {
            UnitOfWork::Working => true,
            UnitOfWork::Committing(_) => true,
            UnitOfWork::RollingBack(_) => true,
            _ => false,
        }
    }

    /// Whether the outcome has been reported.
    pub fn is_finished(&self) -> (b: bool)
        ensures
            b == (*self is Finished),
    {
        match self {
            UnitOfWork::Finished => true,
            _ => false,
        }
    }
}

impl DataAccessError {
    /// The failure as a caller may see it: a category, never the store's own
    /// words.
    pub open spec fn spec_category(&self) -> Seq<char> {
        match *self {
            DataAccessError::PoolUnavailable => "connection pool unavailable"@,
            DataAccessError::Query(fault) => match fault.kind {
                FaultKind::UniqueViolation => "uniqueness constraint violated"@,
                FaultKind::Aborted => "unit of work aborted"@,
                FaultKind::Other => "query failed"@,
            },
            DataAccessError::Commit(_) => "commit failed"@,
        }
    }

    /// Whether the failure is a uniqueness conflict, the one failure that is
    /// the caller's to resolve.
    pub open spec fn spec_is_conflict(&self) -> bool {
        *self matches DataAccessError::Query(fault) && fault.kind == FaultKind::UniqueViolation
    }

    /// Whether the work was cut short rather than answered by the store.
    pub open spec fn spec_is_abort(&self) -> bool {
        *self matches DataAccessError::Query(fault) && fault.kind == FaultKind::Aborted
    }

    /// The failure as a caller may see it: a category, never the store's own
    /// words.
    pub fn category(&self) -> (c: &'static str)
        ensures
            c@ == self.spec_category(),
    {
        match self {
            DataAccessError::PoolUnavailable => "connection pool unavailable",
            DataAccessError::Query(fault) => match fault.kind {
                FaultKind::UniqueViolation => "uniqueness constraint violated",
                FaultKind::Aborted => "unit of work aborted",
                FaultKind::Other => "query failed",
            },
            DataAccessError::Commit(_) => "commit failed",
        }
    }

    /// Whether the failure is a uniqueness conflict.
    #[verifier::when_used_as_spec(spec_is_conflict)]
    pub fn is_conflict(&self) -> (b: bool)
        ensures
            b == self.spec_is_conflict(),
    {
        match self {
            DataAccessError::Query(fault) => match fault.kind {
                FaultKind::UniqueViolation => true,
                _ => false,
            },
            _ => false,
        }
    }

    /// Whether the work was cut short rather than answered by the store.
    #[verifier::when_used_as_spec(spec_is_abort)]
    pub fn is_abort(&self) -> (b: bool)
        ensures
            b == self.spec_is_abort(),
    {
        match self {
            DataAccessError::Query(fault) => match fault.kind {
                FaultKind::Aborted => true,
                _ => false,
            },
            _ => false,
        }
    }
}

/// What the caller is told when the pool refuses a lease: an internal error
/// that names the category and nothing of the pool's own report.
pub fn connection_unavailable() -> (e: ErrorResponseWithStatus)
    ensures
        e.status == STATUS_INTERNAL_SERVER_ERROR,
        e.error_response@ == (ErrorView {
            error: "failed to get connection"@,
            details: DataAccessError::PoolUnavailable.spec_category(),
        }),
{
    ErrorResponseWithStatus {
        status: STATUS_INTERNAL_SERVER_ERROR,
        error_response: ErrorResponse::new(
            "failed to get connection",
            DataAccessError::PoolUnavailable.category(),
        ),
    }
}

/// The outcome is reported only after the lease has been given back: whenever
/// the next step is to finish, no connection is held and no transaction is
/// open.
pub proof fn lemma_finish_holds_nothing(state: UnitOfWork, event: Event)
    ensures
        state.spec_advance(event).1 is Finish ==> !state.spec_advance(event).0.holds_lease()
            && !state.spec_advance(event).0.transaction_open(),
        state.spec_advance(event).1 is Finish <==> state.awaits(event) && state.spec_advance(
            event,
        ).0 is Finished,
{
}

/// A transaction is only ever open on a leased connection, and a lease carries
/// at most one: the only step that opens a transaction is taken when a lease
/// has just been granted, and no step opens one while another is open.
pub proof fn lemma_one_transaction_per_lease(state: UnitOfWork, event: Event)
    ensures
        state.transaction_open() ==> state.holds_lease(),
        state.spec_advance(event).1 is Execute ==> !state.holds_lease()
            && !state.transaction_open() && event is LeaseGranted,
        state.spec_advance(event).1 is Lease ==> false,
{
}

/// Every awaited report brings the unit of work strictly closer to its end, and
/// a lease is held only while reports are still due. So once the work itself
/// has answered, the lease is back in the pool after at most two more reports,
/// whether the work succeeded or failed.
pub proof fn lemma_release_is_bounded(state: UnitOfWork, event: Event)
    ensures
        state.awaits(event) ==> state.spec_advance(event).0.steps_left() < state.steps_left(),
        !state.awaits(event) ==> state.spec_advance(event) == (state, Action::Ignore),
        state.holds_lease() ==> state.steps_left() >= 1,
        state.steps_left() == 0 <==> state is Finished,
        (state is Committing || state is RollingBack) ==> state.steps_left() <= 2,
{
}

/// Whatever the host reports, and in whatever order, a unit of work never goes
/// back: the reports still due never grow in number, so it leases at most once
/// and opens at most one transaction, and once finished it stays finished.
pub proof fn lemma_never_goes_back(state: UnitOfWork, events: Seq<Event>)
    ensures
        state.after(events).steps_left() <= state.steps_left(),
        state is Finished ==> state.after(events) is Finished,
        !state.holds_lease() && state.after(events).holds_lease() ==> state is Leasing,
    decreases events.len(),
{
    if events.len() > 0 {
        lemma_release_is_bounded(state, events[0]);
        lemma_never_goes_back(state.spec_advance(events[0]).0, events.drop_first());
    }
}

/// What each course of events comes to: a refused lease is
/// `PoolUnavailable`; failed work is rolled back and comes out as `Query`
/// with its cause; a failed commit comes out as `Commit` with its cause; and
/// work that succeeded and committed comes out as its reply. In every course
/// the unit of work ends finished, holding nothing.
pub proof fn lemma_outcomes(
    work: StoreRequest,
    reply: StoreReply,
    fault: StoreFault,
)
    ensures
        UnitOfWork::Leasing(work).spec_advance(Event::LeaseRefused) == (
            UnitOfWork::Finished,
            Action::Finish(Err(DataAccessError::PoolUnavailable)),
        ),
        UnitOfWork::Leasing(work).after(
            seq![Event::LeaseGranted, Event::WorkDone(reply), Event::Committed],
        ).spec_advance(Event::Released) == (UnitOfWork::Finished, Action::Finish(Ok(reply))),
        UnitOfWork::Leasing(work).after(
            seq![Event::LeaseGranted, Event::WorkFailed(fault), Event::RolledBack],
        ).spec_advance(Event::Released) == (
            UnitOfWork::Finished,
            Action::Finish(Err(DataAccessError::Query(fault))),
        ),
        UnitOfWork::Leasing(work).after(
            seq![Event::LeaseGranted, Event::WorkDone(reply), Event::CommitFailed(fault)],
        ).spec_advance(Event::Released) == (
            UnitOfWork::Finished,
            Action::Finish(Err(DataAccessError::Commit(fault))),
        ),
{
    let start = UnitOfWork::Leasing(work);
    let done = seq![Event::LeaseGranted, Event::WorkDone(reply), Event::Committed];
    let failed = seq![Event::LeaseGranted, Event::WorkFailed(fault), Event::RolledBack];
    let uncommitted = seq![Event::LeaseGranted, Event::WorkDone(reply), Event::CommitFailed(fault)];
    lemma_after_three(start, done);
    lemma_after_three(start, failed);
    lemma_after_three(start, uncommitted);
}

/// Three reports in a row, spelled out.
proof fn lemma_after_three(state: UnitOfWork, events: Seq<Event>)
    requires
        events.len() == 3,
    ensures
        state.after(events) == state.spec_advance(events[0]).0.spec_advance(
            events[1],
        ).0.spec_advance(events[2]).0,
{
    reveal_with_fuel(UnitOfWork::after, 4);
    let rest = events.drop_first();
    let last = rest.drop_first();
    assert(rest[0] == events[1]);
    assert(last[0] == events[2]);
    assert(last.drop_first().len() == 0);
}

} // verus!
