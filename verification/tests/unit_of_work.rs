use bear::errors::AnyHandlerError;
use bear::txnmw::{
    log_txn_state, settle, FinalizeAction, ReqOutcome, Switcharoo, TxnContext, TxnState, WriteTxn,
};

#[test]
fn untouched_request_is_not_finalized() {
    let mut ctx = TxnContext::new();
    let action = ctx.complete(&ReqOutcome::Response(200));
    assert_eq!(action, FinalizeAction::DoNothing);
    assert_eq!(ctx.log, vec![TxnState::Nonexistent]);
}

#[test]
fn success_commits_after_started() {
    let mut ctx = TxnContext::new();
    let mut acc = Switcharoo::new();
    let h = acc.get(&mut ctx);
    acc.release(&mut ctx);
    let action = ctx.complete(&ReqOutcome::Response(200));
    assert_eq!(action, FinalizeAction::Commit(h));
    assert_eq!(
        ctx.log,
        vec![TxnState::Nonexistent, TxnState::Started, TxnState::Committed]
    );
}

#[test]
fn client_error_rolls_back() {
    let mut ctx = TxnContext::new();
    let mut acc = Switcharoo::new();
    let h = acc.get(&mut ctx);
    acc.release(&mut ctx);
    let action = ctx.complete(&ReqOutcome::Response(404));
    assert_eq!(action, FinalizeAction::Rollback(h));
    assert_eq!(
        ctx.log,
        vec![TxnState::Nonexistent, TxnState::Started, TxnState::RolledBack]
    );
}

#[test]
fn status_boundary_is_at_400() {
    let mut ctx = TxnContext::new();
    let mut acc = Switcharoo::new();
    let _ = acc.get(&mut ctx);
    acc.release(&mut ctx);
    assert!(matches!(
        ctx.complete(&ReqOutcome::Response(399)),
        FinalizeAction::Commit(_)
    ));

    let mut ctx2 = TxnContext::new();
    let mut acc2 = Switcharoo::new();
    let _ = acc2.get(&mut ctx2);
    acc2.release(&mut ctx2);
    assert!(matches!(
        ctx2.complete(&ReqOutcome::Response(400)),
        FinalizeAction::Rollback(_)
    ));
}

#[test]
fn handler_error_rolls_back() {
    let mut ctx = TxnContext::new();
    let mut acc = Switcharoo::new();
    let h = acc.get(&mut ctx);
    acc.release(&mut ctx);
    let outcome = ReqOutcome::Failed(AnyHandlerError::Other(String::from("boom")));
    let action = ctx.complete(&outcome);
    assert_eq!(action, FinalizeAction::Rollback(h));
}

#[test]
fn repeated_get_begins_at_most_once() {
    let mut ctx = TxnContext::new();
    let mut acc = Switcharoo::new();
    let h1 = acc.get(&mut ctx);
    let h2 = acc.get(&mut ctx);
    let h3 = acc.get(&mut ctx);
    assert_eq!(h1, h2);
    assert_eq!(h2, h3);
    let started = ctx
        .log
        .iter()
        .filter(|s| matches!(s, TxnState::Started))
        .count();
    assert_eq!(started, 1);
}

#[test]
fn get_takes_the_handle_out_on_loan() {
    let mut ctx = TxnContext::new();
    let mut acc = Switcharoo::new();
    let h = acc.get(&mut ctx);
    assert!(ctx.slot.handle.is_none());
    acc.release(&mut ctx);
    assert_eq!(ctx.slot.handle, Some(h));
}

#[test]
fn put_registers_a_begun_transaction() {
    let mut ctx = TxnContext::new();
    let h = ctx.fresh_handle();
    let acc = Switcharoo::new();
    let acc = acc.put(&mut ctx, Ok(h)).unwrap();
    assert_eq!(ctx.slot.handle, Some(h));
    assert_eq!(ctx.log, vec![TxnState::Nonexistent, TxnState::Started]);
    let mut acc = acc;
    let got = acc.get(&mut ctx);
    assert_eq!(got, h);
}

#[test]
fn put_propagates_a_begin_failure() {
    let mut ctx = TxnContext::new();
    let acc = Switcharoo::new();
    let r = acc.put(&mut ctx, Err(String::from("database unavailable")));
    assert!(matches!(r, Err(AnyHandlerError::Other(ref m)) if m == "database unavailable"));
    assert_eq!(ctx.log, vec![TxnState::Nonexistent]);
}

#[test]
fn write_txn_flavor_threads_the_same_store() {
    let mut ctx = TxnContext::new();
    let mut w = WriteTxn(Switcharoo::new());
    let h = w.get(&mut ctx);
    let h2 = w.get(&mut ctx);
    assert_eq!(h, h2);
    w.0.release(&mut ctx);
    assert_eq!(ctx.slot.handle, Some(h));
}

#[test]
fn from_tx_preloads_the_store() {
    let holder = Switcharoo::from_tx(Ok(bear::txnmw::TxnHandle { id: 9 })).unwrap();
    let (mut acc, mut ctx) = holder.into_tuple();
    let h = acc.get(&mut ctx);
    assert_eq!(h.id, 9);
    assert!(ctx.slot.handle.is_none());
    assert!(Switcharoo::from_tx(Err(String::from("bad"))).is_err());
}

#[test]
fn settle_masks_with_finalize_failure() {
    let r = settle(ReqOutcome::Response(200), Err(String::from("disk full")));
    assert!(
        matches!(r, Err(AnyHandlerError::Other(ref m)) if m == "SQL error on rollback/commit: disk full")
    );
}

#[test]
fn settle_passes_the_outcome_through() {
    assert_eq!(settle(ReqOutcome::Response(200), Ok(())).unwrap(), 200);
    let r = settle(
        ReqOutcome::Failed(AnyHandlerError::Other(String::from("handler fell over"))),
        Ok(()),
    );
    assert!(matches!(r, Err(AnyHandlerError::Other(ref m)) if m == "handler fell over"));
}

#[test]
fn recorder_appends() {
    let mut log = vec![TxnState::Nonexistent];
    log_txn_state(&mut log, TxnState::Started);
    assert_eq!(log, vec![TxnState::Nonexistent, TxnState::Started]);
}
