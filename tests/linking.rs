use identity_link::flow::{
    backoff_delay_ms, is_success_status, Action, Event, FailureReason, LinkFailed, LinkFlow,
    StoreError, BACKOFF_STEP_MS, MAX_STORE_ATTEMPTS,
};
use identity_link::locks::KeyLocks;
use identity_link::record::{link_state, merge_record, LinkRequest, LinkState, UserRecord};
use identity_link::table::RecordTable;

fn s(x: &str) -> String {
    x.to_string()
}

fn identity(id: &str) -> LinkRequest {
    LinkRequest::IdentityEstablished { platform_id: s(id) }
}

fn wallet(id: &str, addr: &str) -> LinkRequest {
    LinkRequest::WalletSubmitted { platform_id: s(id), wallet_address: s(addr) }
}

fn fields(r: &Option<UserRecord>) -> Option<(String, String)> {
    r.as_ref().map(|r| (r.platform_id.clone(), r.wallet_address.clone()))
}

fn some(id: &str, addr: &str) -> Option<(String, String)> {
    Some((s(id), s(addr)))
}

fn expect_failure(a: Action, reason: FailureReason) {
    match a {
        Action::Finish { outcome: Err(e) } => assert_eq!(e, LinkFailed { reason }),
        _ => panic!("expected a failed finish"),
    }
}

#[test]
fn identity_creates_record_with_empty_wallet() {
    let mut t = RecordTable::new();
    assert!(t.get(&s("u1")).is_none());
    let r = t.apply(&identity("u1"));
    assert_eq!((r.platform_id.as_str(), r.wallet_address.as_str()), ("u1", ""));
    assert_eq!(fields(&t.get(&s("u1"))), some("u1", ""));
}

#[test]
fn wallet_after_identity_links_record() {
    let mut t = RecordTable::new();
    t.apply(&identity("u1"));
    t.apply(&wallet("u1", "0xABC"));
    assert_eq!(fields(&t.get(&s("u1"))), some("u1", "0xABC"));
}

#[test]
fn identity_and_wallet_commute() {
    let mut a = RecordTable::new();
    a.apply(&identity("u7"));
    a.apply(&wallet("u7", "0x77"));
    let mut b = RecordTable::new();
    b.apply(&wallet("u7", "0x77"));
    b.apply(&identity("u7"));
    assert_eq!(fields(&a.get(&s("u7"))), some("u7", "0x77"));
    assert_eq!(fields(&b.get(&s("u7"))), some("u7", "0x77"));
}

#[test]
fn repeated_identity_keeps_wallet() {
    let mut t = RecordTable::new();
    t.apply(&wallet("u2", "0xDEF"));
    t.apply(&identity("u2"));
    t.apply(&identity("u2"));
    assert_eq!(fields(&t.get(&s("u2"))), some("u2", "0xDEF"));
}

#[test]
fn last_wallet_wins() {
    let mut t = RecordTable::new();
    t.apply(&wallet("u3", "0xA"));
    t.apply(&wallet("u3", "0xB"));
    assert_eq!(fields(&t.get(&s("u3"))), some("u3", "0xB"));
}

#[test]
fn serialized_wallets_leave_one_submitted_address() {
    let addrs = ["0x1", "0x2", "0x3", "0x4"];
    let mut t = RecordTable::new();
    for a in addrs.iter() {
        let r = t.apply(&wallet("u4", a));
        assert_eq!(r.wallet_address, *a);
        assert_eq!(fields(&t.get(&s("u4"))), some("u4", a));
    }
    let held = t.get(&s("u4")).unwrap().wallet_address;
    assert!(addrs.contains(&held.as_str()));
    assert_eq!(held, "0x4");
}

#[test]
fn intents_for_one_key_leave_another_alone() {
    let mut t = RecordTable::new();
    t.apply(&wallet("B", "0xBB"));
    t.apply(&identity("A"));
    t.apply(&wallet("A", "0xAA"));
    t.apply(&identity("A"));
    assert_eq!(fields(&t.get(&s("B"))), some("B", "0xBB"));
    assert_eq!(fields(&t.get(&s("A"))), some("A", "0xAA"));
}

#[test]
fn put_replaces_whole_record() {
    let mut t = RecordTable::new();
    t.put(UserRecord { platform_id: s("u5"), wallet_address: s("0x5") });
    t.put(UserRecord { platform_id: s("u5"), wallet_address: s("") });
    assert_eq!(fields(&t.get(&s("u5"))), some("u5", ""));
    assert!(t.get(&s("u6")).is_none());
}

#[test]
fn link_states_follow_record_contents() {
    assert_eq!(link_state(&None), LinkState::Unknown);
    let only = UserRecord::identity_only(s("u1"));
    assert_eq!(only.wallet_address, "");
    assert_eq!(link_state(&Some(only)), LinkState::IdentityOnly);
    let linked = UserRecord { platform_id: s("u1"), wallet_address: s("0x1") };
    assert!(linked.is_linked());
    assert_eq!(link_state(&Some(linked)), LinkState::Linked);
}

#[test]
fn merge_keeps_or_replaces_wallet() {
    let cur = UserRecord { platform_id: s("u1"), wallet_address: s("0xOLD") };
    let r = merge_record(Some(cur.clone()), &identity("u1"));
    assert_eq!((r.platform_id, r.wallet_address), (s("u1"), s("0xOLD")));
    let r = merge_record(Some(cur), &wallet("u1", "0xNEW"));
    assert_eq!(r.wallet_address, "0xNEW");
    let r = merge_record(None, &identity("u9"));
    assert_eq!((r.platform_id, r.wallet_address), (s("u9"), s("")));
}

#[test]
fn refused_token_ends_before_identity_fetch() {
    let (flow, a) = LinkFlow::start_oauth(s("code-1"));
    match a {
        Action::ExchangeCode { code } => assert_eq!(code, "code-1"),
        _ => panic!("expected a code exchange"),
    }
    let ev = Event::TokenRefused;
    assert!(flow.accepts(&ev));
    let (flow, a) = flow.step(ev);
    assert!(flow.is_finished());
    expect_failure(a, FailureReason::ExchangeFailed);
}

#[test]
fn oauth_flow_links_identity() {
    let mut t = RecordTable::new();
    let (flow, _) = LinkFlow::start_oauth(s("c"));
    let (flow, a) = flow.step(Event::TokenIssued { access_token: s("tok") });
    match a {
        Action::FetchIdentity { access_token } => assert_eq!(access_token, "tok"),
        _ => panic!("expected an identity fetch"),
    }
    let (flow, a) =
        flow.step(Event::IdentityResponse { status: 200, platform_id: Some(s("u1")) });
    let id = match a {
        Action::ReadRecord { platform_id, delay_ms } => {
            assert_eq!(delay_ms, 0);
            platform_id
        }
        _ => panic!("expected a read"),
    };
    assert_eq!(id, "u1");
    let (flow, a) = flow.step(Event::RecordRead { outcome: Ok(t.get(&id)) });
    let rec = match a {
        Action::WriteRecord { record, delay_ms } => {
            assert_eq!(delay_ms, 0);
            record
        }
        _ => panic!("expected a write"),
    };
    assert_eq!((rec.platform_id.as_str(), rec.wallet_address.as_str()), ("u1", ""));
    t.put(rec);
    let (flow, a) = flow.step(Event::RecordWritten { outcome: Ok(()) });
    assert!(flow.is_finished());
    match a {
        Action::Finish { outcome: Ok(r) } => assert_eq!(r.platform_id, "u1"),
        _ => panic!("expected success"),
    }
    assert_eq!(fields(&t.get(&s("u1"))), some("u1", ""));
}

#[test]
fn unavailable_write_is_retried_then_succeeds() {
    let (flow, _) = LinkFlow::start_intent(wallet("u1", "0xABC"));
    let (flow, a) = flow.step(Event::RecordRead {
        outcome: Ok(Some(UserRecord::identity_only(s("u1")))),
    });
    assert!(matches!(a, Action::WriteRecord { .. }));
    let (flow, a) = flow.step(Event::RecordWritten { outcome: Err(StoreError::Unavailable) });
    match a {
        Action::WriteRecord { record, delay_ms } => {
            assert_eq!(delay_ms, BACKOFF_STEP_MS);
            assert_eq!(record.wallet_address, "0xABC");
        }
        _ => panic!("expected a retried write"),
    }
    let (flow, a) = flow.step(Event::RecordWritten { outcome: Ok(()) });
    assert!(flow.is_finished());
    match a {
        Action::Finish { outcome: Ok(r) } => {
            assert_eq!((r.platform_id, r.wallet_address), (s("u1"), s("0xABC")))
        }
        _ => panic!("expected success"),
    }
}

#[test]
fn unavailable_read_gives_up_after_last_attempt() {
    let (mut flow, a) = LinkFlow::start_intent(identity("u1"));
    assert!(matches!(a, Action::ReadRecord { delay_ms: 0, .. }));
    for attempt in 1..MAX_STORE_ATTEMPTS {
        let (next, a) = flow.step(Event::RecordRead { outcome: Err(StoreError::Unavailable) });
        match a {
            Action::ReadRecord { platform_id, delay_ms } => {
                assert_eq!(platform_id, "u1");
                assert_eq!(delay_ms, BACKOFF_STEP_MS * attempt as u64);
            }
            _ => panic!("expected a retried read"),
        }
        flow = next;
    }
    let (flow, a) = flow.step(Event::RecordRead { outcome: Err(StoreError::Unavailable) });
    assert!(flow.is_finished());
    expect_failure(a, FailureReason::StoreUnavailable);
}

#[test]
fn rejected_store_is_not_retried() {
    let (flow, _) = LinkFlow::start_intent(identity("u1"));
    let (_, a) = flow.step(Event::RecordRead { outcome: Err(StoreError::Rejected) });
    expect_failure(a, FailureReason::StoreRejected);
    let (flow, _) = LinkFlow::start_intent(identity("u1"));
    let (flow, _) = flow.step(Event::RecordRead { outcome: Ok(None) });
    let (_, a) = flow.step(Event::RecordWritten { outcome: Err(StoreError::Rejected) });
    expect_failure(a, FailureReason::StoreRejected);
}

#[test]
fn identity_failures_end_the_flow() {
    let resolving = || LinkFlow::start_oauth(s("c")).0.step(Event::TokenIssued { access_token: s("t") }).0;
    let (_, a) = resolving().step(Event::IdentityResponse { status: 401, platform_id: Some(s("u1")) });
    expect_failure(a, FailureReason::IdentityFetchFailed);
    let (_, a) = resolving().step(Event::IdentityUnreachable);
    expect_failure(a, FailureReason::IdentityFetchFailed);
    let (_, a) = resolving().step(Event::IdentityResponse { status: 200, platform_id: None });
    expect_failure(a, FailureReason::IdentityParseFailed);
    let (_, a) = resolving().step(Event::IdentityResponse { status: 204, platform_id: Some(s("")) });
    expect_failure(a, FailureReason::IdentityParseFailed);
}

#[test]
fn flow_accepts_only_awaited_events() {
    let (flow, _) = LinkFlow::start_oauth(s("c"));
    assert!(!flow.accepts(&Event::IdentityUnreachable));
    assert!(!flow.accepts(&Event::RecordWritten { outcome: Ok(()) }));
    let (flow, _) = LinkFlow::start_intent(identity("u1"));
    assert!(flow.accepts(&Event::RecordRead { outcome: Ok(None) }));
    assert!(!flow.accepts(&Event::TokenRefused));
}

#[test]
fn success_status_is_2xx() {
    assert!(!is_success_status(199));
    assert!(is_success_status(200));
    assert!(is_success_status(299));
    assert!(!is_success_status(300));
    assert!(!is_success_status(404));
}

#[test]
fn backoff_grows_per_attempt() {
    assert_eq!(backoff_delay_ms(0), 0);
    assert_eq!(backoff_delay_ms(1), 250);
    assert_eq!(backoff_delay_ms(2), 500);
    assert_eq!(backoff_delay_ms(MAX_STORE_ATTEMPTS), 750);
}

#[test]
fn key_locks_exclude_same_key_only() {
    let mut locks = KeyLocks::new();
    assert!(locks.try_lock(&s("A")));
    assert!(!locks.try_lock(&s("A")));
    assert!(locks.try_lock(&s("B")));
    assert!(locks.is_locked(&s("A")));
    locks.unlock(&s("A"));
    assert!(!locks.is_locked(&s("A")));
    assert!(locks.is_locked(&s("B")));
    assert!(locks.try_lock(&s("A")));
    locks.unlock(&s("C"));
    assert!(locks.is_locked(&s("B")));
}
