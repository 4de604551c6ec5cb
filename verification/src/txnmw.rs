//! The per-request unit of work: every request owns at most one database
//! transaction, begun lazily, whose fate (commit or rollback) is decided once,
//! when the response outcome is known.
//!
//! The shared single-slot handle store of the middleware/handler handoff is
//! modelled as an explicit request context passed by unique reference; the
//! database transaction itself is an opaque handle token that the unverified
//! glue pairs with the driver's live transaction.  The context also carries
//! the injectable recorder of observed `TxnState` transitions.

use vstd::prelude::*;

use crate::errors::AnyHandlerError;

verus! {

/// The lifecycle of a request's transaction, as observed by the recorder.
#[derive(Clone, Copy, Debug, PartialEq, Eq, Structural)]
pub enum TxnState {
    Nonexistent,
    Started,
    Committed,
    RolledBack,
}

/// Token standing for one open database transaction.  The unverified glue
/// keeps the pairing from token to driver transaction; inside the library the
/// token has exactly one logical owner at any instant: the shared slot or a
/// single accessor, never both.
#[derive(Clone, Copy, Debug, PartialEq, Eq, Structural)]
pub struct TxnHandle {
    pub id: u64,
}

/// The per-request, single-slot handle store: holds at most one open
/// transaction; empty exactly when no transaction has been begun yet or when
/// an accessor has the handle out on loan.
pub struct TxnSlot {
    pub handle: Option<TxnHandle>,
}

/// Appends one observed state to the injectable transaction recorder.
pub fn log_txn_state(log: &mut Vec<TxnState>, state: TxnState)
    ensures
        final(log)@ == old(log)@.push(state),
{
    log.push(state);
}

/// How many transactions were begun, read off the recorded sequence.
pub open spec fn started_count(log: Seq<TxnState>) -> nat
    decreases log.len(),
{
    if log.len() == 0 {
        0nat
    } else {
        started_count(log.drop_last()) + (if log.last() is Started {
            1nat
        } else {
            0nat
        })
    }
}

pub proof fn lemma_started_count_push(log: Seq<TxnState>, s: TxnState)
    ensures
        started_count(log.push(s)) == started_count(log) + (if s is Started {
            1nat
        } else {
            0nat
        }),
{
    assert(log.push(s).drop_last() =~= log);
    assert(log.push(s).last() == s);
}

pub proof fn lemma_last_started_count(log: Seq<TxnState>)
    requires
        log.len() > 0,
        log.last() is Started,
    ensures
        started_count(log) >= 1,
{
}

/// The per-request transaction context: the shared handle store, the state
/// recorder, and a source of fresh handle tokens.
pub struct TxnContext {
    pub slot: TxnSlot,
    pub log: Vec<TxnState>,
    pub next_id: u64,
}

/// What the downstream pipeline stage produced for this request.
pub enum ReqOutcome {
    /// A response with this status code.
    Response(u16),
    /// No response: the downstream call itself failed.
    Failed(AnyHandlerError),
}

/// A response outcome that undoes the request's writes: a propagated handler
/// error, or a client or server error status.
pub open spec fn outcome_failed(o: &ReqOutcome) -> bool {
    match o {
        ReqOutcome::Response(s) => *s >= 400,
        ReqOutcome::Failed(_) => true,
    }
}

/// The terminal state a finalized transaction enters for this outcome.
pub open spec fn complete_state(o: &ReqOutcome) -> TxnState {
    if outcome_failed(o) {
        TxnState::RolledBack
    } else {
        TxnState::Committed
    }
}

/// What the middleware must do with the transaction found in the store when
/// the request completes.
#[derive(Clone, Copy, Debug, PartialEq, Eq, Structural)]
pub enum FinalizeAction {
    DoNothing,
    Commit(TxnHandle),
    Rollback(TxnHandle),
}

impl TxnContext {
    /// The protocol invariant: the recorder starts with `Nonexistent` and
    /// never records it again; whenever the store holds a handle the latest
    /// recorded transition is `Started`; and while no transaction was begun
    /// the recorder has seen nothing but the initial state.
    pub open spec fn wf(&self) -> bool {
        &&& self.log@.len() >= 1
        &&& self.log@[0] is Nonexistent
        &&& forall|i: int|
            1 <= i < self.log@.len() ==> !((#[trigger] self.log@[i]) is Nonexistent)
        &&& self.slot.handle is Some ==> self.log@.last() is Started
        &&& started_count(self.log@) == 0 ==> self.log@.len() == 1
    }

    /// Installs the empty per-request context before the downstream stage
    /// runs: no transaction exists and the recorder has seen `Nonexistent`.
    pub fn new() -> (ctx: TxnContext)
        ensures
            ctx.wf(),
            ctx.slot.handle is None,
            ctx.log@ =~= seq![TxnState::Nonexistent],
            ctx.next_id == 0,
    {
        let mut log: Vec<TxnState> = Vec::new();
        log.push(TxnState::Nonexistent);
        proof {
            assert(log@ =~= seq![TxnState::Nonexistent]);
        }
        TxnContext { slot: TxnSlot { handle: None }, log, next_id: 0 }
    }

    /// Mints a token for a transaction that the database layer is about to
    /// begin outside the store (the authentication middleware's own,
    /// immediately committed transaction uses this).
    pub fn fresh_handle(&mut self) -> (h: TxnHandle)
        requires
            old(self).next_id < u64::MAX,
        ensures
            h.id == old(self).next_id,
            final(self).next_id == old(self).next_id + 1,
            final(self).slot == old(self).slot,
            final(self).log@ == old(self).log@,
            old(self).wf() ==> final(self).wf(),
    {
        let h = TxnHandle { id: self.next_id };
        self.next_id = self.next_id + 1;
        h
    }

    /// Takes back any transaction left in the store once the downstream
    /// stage has returned, and decides its fate from the response outcome:
    /// commit on success, roll back on an error outcome or a failed status.
    /// A request that never began a transaction needs nothing done.
    pub fn complete(&mut self, outcome: &ReqOutcome) -> (action: FinalizeAction)
        requires
            old(self).wf(),
        ensures
            final(self).wf(),
            final(self).slot.handle is None,
            final(self).next_id == old(self).next_id,
            old(self).slot.handle is None ==> action is DoNothing && final(self).log@ == old(
                self,
            ).log@,
            old(self).slot.handle matches Some(h) ==> {
                &&& final(self).log@ == old(self).log@.push(complete_state(outcome))
                &&& action == (if outcome_failed(outcome) {
                    FinalizeAction::Rollback(h)
                } else {
                    FinalizeAction::Commit(h)
                })
            },
            started_count(final(self).log@) == started_count(old(self).log@),
    {
        let taken = self.slot.handle;
        self.slot.handle = None;
        match taken {
            None => FinalizeAction::DoNothing,
            Some(h) => {
                proof {
                    lemma_last_started_count(old(self).log@);
                }
                let failed = match outcome {
                    ReqOutcome::Response(s) => *s >= 400,
                    ReqOutcome::Failed(_) => true,
                };
                if failed {
                    log_txn_state(&mut self.log, TxnState::RolledBack);
                    proof {
                        lemma_started_count_push(old(self).log@, TxnState::RolledBack);
                    }
                    FinalizeAction::Rollback(h)
                } else {
                    log_txn_state(&mut self.log, TxnState::Committed);
                    proof {
                        lemma_started_count_push(old(self).log@, TxnState::Committed);
                    }
                    FinalizeAction::Commit(h)
                }
            },
        }
    }
}

/// Folds the result of carrying out the finalize action back into the
/// request outcome.  A commit or rollback failure masks whatever the handler
/// produced and becomes the reported error; otherwise the handler's own
/// outcome stands.
pub fn settle(outcome: ReqOutcome, finalize: Result<(), String>) -> (r: Result<
    u16,
    AnyHandlerError,
>)
    ensures
        finalize matches Err(m) ==> r matches Err(AnyHandlerError::Other(m2)) && m2@ == "SQL error on rollback/commit: "@
            + m@,
        finalize is Ok ==> match outcome {
            ReqOutcome::Response(s) => r == Ok::<u16, AnyHandlerError>(s),
            ReqOutcome::Failed(e) => r == Err::<u16, AnyHandlerError>(e),
        },
{
    match finalize {
        Err(m) => Err(
            AnyHandlerError::Other(
                String::from_str("SQL error on rollback/commit: ").concat(m.as_str()),
            ),
        ),
        Ok(()) => match outcome {
            ReqOutcome::Response(s) => Ok(s),
            ReqOutcome::Failed(e) => Err(e),
        },
    }
}

/// The lazy transaction accessor a handler extracts: it obtains the live
/// transaction from the shared store on first use, beginning one if none
/// exists yet, and afterwards serves a locally cached handle without
/// touching the store again.
pub struct Switcharoo {
    pub local: Option<TxnHandle>,
}

/// The outcome of one `get` step of the accessor, mirrored at the
/// specification level so that laws can speak about repeated calls.
pub ghost struct GetStep {
    pub local: Option<TxnHandle>,
    pub slot: Option<TxnHandle>,
    pub next_id: u64,
    pub began: bool,
    pub handle: TxnHandle,
}

/// One `get` step: serve the cached handle if there is one; otherwise take
/// the handle out of the shared store; otherwise begin a fresh transaction
/// and cache it.
pub open spec fn get_step(
    local: Option<TxnHandle>,
    slot: Option<TxnHandle>,
    next_id: u64,
) -> GetStep {
    match local {
        Some(h) => GetStep { local, slot, next_id, began: false, handle: h },
        None => match slot {
            Some(h) => GetStep {
                local: Some(h),
                slot: None,
                next_id,
                began: false,
                handle: h,
            },
            None => GetStep {
                local: Some(TxnHandle { id: next_id }),
                slot: None,
                next_id: ((next_id + 1) as u64),
                began: true,
                handle: TxnHandle { id: next_id },
            },
        },
    }
}

impl Switcharoo {
    /// A fresh accessor holding nothing locally yet.
    pub fn new() -> (s: Switcharoo)
        ensures
            s.local is None,
    {
        Switcharoo { local: None }
    }

    /// Returns the live transaction handle for this request, beginning one
    /// on first access: (a) take the handle out of the shared store, (b) if
    /// the store was empty, begin a new write transaction now, (c) cache the
    /// handle locally.  Later calls return the cached handle and leave the
    /// store untouched.
    pub fn get(&mut self, ctx: &mut TxnContext) -> (h: TxnHandle)
        requires
            old(ctx).wf(),
            old(ctx).next_id < u64::MAX,
        ensures
            final(ctx).wf(),
            final(self).local is Some,
            ({
                let step = get_step(old(self).local, old(ctx).slot.handle, old(ctx).next_id);
                &&& final(self).local == step.local
                &&& final(ctx).slot.handle == step.slot
                &&& final(ctx).next_id == step.next_id
                &&& h == step.handle
                &&& final(ctx).log@ == (if step.began {
                    old(ctx).log@.push(TxnState::Started)
                } else {
                    old(ctx).log@
                })
                &&& started_count(final(ctx).log@) == started_count(old(ctx).log@) + (
                if step.began {
                    1nat
                } else {
                    0nat
                })
            }),
    {
        let cur = self.local;
        match cur {
            Some(h) => h,
            None => {
                let slot_cur = ctx.slot.handle;
                match slot_cur {
                    Some(h0) => {
                        ctx.slot.handle = None;
                        self.local = Some(h0);
                        h0
                    },
                    None => {
                        let h0 = TxnHandle { id: ctx.next_id };
                        ctx.next_id = ctx.next_id + 1;
                        self.local = Some(h0);
                        log_txn_state(&mut ctx.log, TxnState::Started);
                        proof {
                            lemma_started_count_push(old(ctx).log@, TxnState::Started);
                        }
                        h0
                    },
                }
            },
        }
    }

    /// Registers a transaction that the database layer has just begun (or the
    /// error it failed with) into the shared store.  A begin failure is
    /// request-fatal and is passed on unchanged.
    pub fn put(self, ctx: &mut TxnContext, tx: Result<TxnHandle, String>) -> (r: Result<
        Switcharoo,
        AnyHandlerError,
    >)
        requires
            old(ctx).wf(),
            self.local is None,
            old(ctx).slot.handle is None,
        ensures
            final(ctx).wf(),
            tx matches Err(m) ==> r matches Err(AnyHandlerError::Other(m2)) && m2@ == m@
                && *final(ctx) == *old(ctx),
            tx matches Ok(h) ==> {
                &&& r matches Ok(s) && s.local is None
                &&& final(ctx).slot.handle == Some(h)
                &&& final(ctx).log@ == old(ctx).log@.push(TxnState::Started)
                &&& final(ctx).next_id == old(ctx).next_id
                &&& started_count(final(ctx).log@) == started_count(old(ctx).log@) + 1
            },
    {
        match tx {
            Err(m) => Err(AnyHandlerError::Other(m)),
            Ok(h) => {
                log_txn_state(&mut ctx.log, TxnState::Started);
                ctx.slot.handle = Some(h);
                proof {
                    lemma_started_count_push(old(ctx).log@, TxnState::Started);
                }
                Ok(self)
            },
        }
    }

    /// Scope-exit duty of the accessor: if it still holds the handle (it was
    /// never handed off), push it back into the shared store so that the
    /// enclosing middleware can find and finalize it.  The unverified glue
    /// calls this on every exit path.
    pub fn release(self, ctx: &mut TxnContext)
        requires
            old(ctx).wf(),
            self.local is Some ==> old(ctx).slot.handle is None,
            self.local is Some ==> old(ctx).log@.last() is Started,
        ensures
            final(ctx).wf(),
            final(ctx).slot.handle == (if self.local is Some {
                self.local
            } else {
                old(ctx).slot.handle
            }),
            final(ctx).log@ == old(ctx).log@,
            final(ctx).next_id == old(ctx).next_id,
    {
        if self.local.is_some() {
            ctx.slot.handle = self.local;
        }
    }

    /// Builds, for tests, a shared store already holding the given
    /// transaction, along with an accessor threaded onto it.
    pub fn from_tx(txn: Result<TxnHandle, String>) -> (r: Result<TestTransactionHolder, String>)
        ensures
            txn matches Err(m) ==> r matches Err(m2) && m2@ == m@,
            txn matches Ok(h) ==> r matches Ok(t) && {
                &&& t.for_handler.local is None
                &&& t.for_context.wf()
                &&& t.for_context.slot.handle == Some(h)
                &&& t.for_context.log@ =~= seq![TxnState::Nonexistent, TxnState::Started]
            },
    {
        match txn {
            Err(m) => Err(m),
            Ok(h) => {
                let mut log: Vec<TxnState> = Vec::new();
                log.push(TxnState::Nonexistent);
                log.push(TxnState::Started);
                proof {
                    assert(log@ =~= seq![TxnState::Nonexistent, TxnState::Started]);
                    lemma_last_started_count(log@);
                }
                let nid = if h.id < u64::MAX {
                    h.id + 1
                } else {
                    h.id
                };
                Ok(
                    TestTransactionHolder {
                        for_handler: Switcharoo { local: None },
                        for_context: TxnContext { slot: TxnSlot { handle: Some(h) }, log, next_id: nid },
                    },
                )
            },
        }
    }
}

/// The pair `from_tx` hands to a test: the accessor for the handler under
/// test, and the context standing for the enclosing middleware.
pub struct TestTransactionHolder {
    pub for_handler: Switcharoo,
    pub for_context: TxnContext,
}

impl TestTransactionHolder {
    pub fn into_tuple(self) -> (r: (Switcharoo, TxnContext))
        ensures
            r.0 == self.for_handler,
            r.1 == self.for_context,
    {
        (self.for_handler, self.for_context)
    }
}

/// The write-capable accessor flavor handlers extract.  Both flavors thread
/// through the same store, since the transaction begins write-capable
/// regardless; the store imposes no read/write distinction itself.
pub struct WriteTxn(pub Switcharoo);

/// The read-only-intent accessor flavor.
pub struct ReadTxn(pub Switcharoo);

impl WriteTxn {
    pub fn get(&mut self, ctx: &mut TxnContext) -> (h: TxnHandle)
        requires
            old(ctx).wf(),
            old(ctx).next_id < u64::MAX,
        ensures
            final(ctx).wf(),
            final(self).0.local is Some,
            ({
                let step = get_step(old(self).0.local, old(ctx).slot.handle, old(ctx).next_id);
                &&& final(self).0.local == step.local
                &&& final(ctx).slot.handle == step.slot
                &&& final(ctx).next_id == step.next_id
                &&& h == step.handle
                &&& final(ctx).log@ == (if step.began {
                    old(ctx).log@.push(TxnState::Started)
                } else {
                    old(ctx).log@
                })
            }),
    {
        self.0.get(ctx)
    }
}

impl ReadTxn {
    pub fn get(&mut self, ctx: &mut TxnContext) -> (h: TxnHandle)
        requires
            old(ctx).wf(),
            old(ctx).next_id < u64::MAX,
        ensures
            final(ctx).wf(),
            final(self).0.local is Some,
            ({
                let step = get_step(old(self).0.local, old(ctx).slot.handle, old(ctx).next_id);
                &&& final(self).0.local == step.local
                &&& final(ctx).slot.handle == step.slot
                &&& final(ctx).next_id == step.next_id
                &&& h == step.handle
                &&& final(ctx).log@ == (if step.began {
                    old(ctx).log@.push(TxnState::Started)
                } else {
                    old(ctx).log@
                })
            }),
    {
        self.0.get(ctx)
    }
}

/// Law: a request in which no accessor ever began a transaction holds no
/// handle in its store, so completion performs neither commit nor rollback
/// (by `complete`'s contract it leaves the recorder untouched), and the
/// recorded state sequence is exactly [Nonexistent].
pub proof fn lemma_untouched_request_not_finalized(ctx: TxnContext)
    requires
        ctx.wf(),
        started_count(ctx.log@) == 0,
    ensures
        ctx.slot.handle is None,
        ctx.log@ =~= seq![TxnState::Nonexistent],
{
    if ctx.slot.handle is Some {
        lemma_last_started_count(ctx.log@);
    }
}

/// Law: when a transaction was begun and is still in the store as the
/// request completes, the recorded sequence after completion ends
/// [..., Started, Committed] for a success outcome (status below 400) and
/// [..., Started, RolledBack] for a failed status or a propagated handler
/// error.
pub proof fn lemma_finalized_request_sequence(ctx: TxnContext, outcome: ReqOutcome)
    requires
        ctx.wf(),
        ctx.slot.handle is Some,
    ensures
        ({
            let l = ctx.log@.push(complete_state(&outcome));
            &&& l.len() >= 2
            &&& l[l.len() - 2] is Started
            &&& (!outcome_failed(&outcome) ==> l.last() is Committed)
            &&& (outcome_failed(&outcome) ==> l.last() is RolledBack)
        }),
{
}

/// Law: the lazy accessor begins at most one transaction however many times
/// `get` is called.  The first step may begin one; a second step on the
/// first step's outcome serves the cached handle and changes neither the
/// store nor the token source, and begins nothing.
pub proof fn lemma_get_idempotent(local: Option<TxnHandle>, slot: Option<TxnHandle>, next_id: u64)
    ensures
        ({
            let first = get_step(local, slot, next_id);
            let second = get_step(first.local, first.slot, first.next_id);
            &&& !second.began
            &&& second.local == first.local
            &&& second.slot == first.slot
            &&& second.next_id == first.next_id
            &&& second.handle == first.handle
        }),
{
}

} // verus!
