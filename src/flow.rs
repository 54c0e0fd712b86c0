use vstd::prelude::*;
use crate::record::{intent_key, merge_record, merged, opt_view, LinkRequest, UserRecord};

verus! {

/// How a store call failed.
#[derive(Clone, Copy, Debug, PartialEq, Eq, Structural)]
pub enum StoreError {
    /// Transient: the call may be retried after a pause.
    Unavailable,
    /// The store refused the document: not retried.
    Rejected,
}

/// Why a linking attempt failed.
#[derive(Clone, Copy, Debug, PartialEq, Eq, Structural)]
pub enum FailureReason {
    ExchangeFailed,
    IdentityFetchFailed,
    IdentityParseFailed,
    StoreUnavailable,
    StoreRejected,
}

/// A failed linking attempt, as the coordinator reports it.
#[derive(Clone, Copy, Debug, PartialEq, Eq, Structural)]
pub struct LinkFailed {
    pub reason: FailureReason,
}

/// Store calls made for one step of a read-modify-write, the first included.
pub const MAX_STORE_ATTEMPTS: u32 = 3;

/// The pause before a retry grows by this much with each failed attempt.
pub const BACKOFF_STEP_MS: u64 = 250;

/// What the outside world reports back after an action.
pub enum Event {
    /// The provider exchanged the authorization code for this bearer token.
    TokenIssued { access_token: String },
    /// The exchange failed: network failure, a bad code or a non-2xx answer.
    TokenRefused,
    /// The current-user endpoint answered with `status`; `platform_id` is the
    /// identifier read from the body, `None` where the body was malformed.
    IdentityResponse { status: u16, platform_id: Option<String> },
    /// The current-user endpoint could not be reached.
    IdentityUnreachable,
    /// The outcome of reading the record.
    RecordRead { outcome: Result<Option<UserRecord>, StoreError> },
    /// The outcome of writing the record.
    RecordWritten { outcome: Result<(), StoreError> },
}

/// What the caller performs next.
pub enum Action {
    /// Exchange the authorization code at the provider's token endpoint.
    ExchangeCode { code: String },
    /// Fetch the current user with the bearer token.
    FetchIdentity { access_token: String },
    /// Read the record of `platform_id`, after waiting `delay_ms`.
    ReadRecord { platform_id: String, delay_ms: u64 },
    /// Write `record` under its identifier, after waiting `delay_ms`.
    WriteRecord { record: UserRecord, delay_ms: u64 },
    /// Stop: the link attempt ends with `outcome`.
    Finish { outcome: Result<UserRecord, LinkFailed> },
}

/// Where one callback's linking attempt stands.
pub enum LinkFlow {
    /// Waiting for the token exchange.
    ExchangingCode,
    /// Waiting for the current-user answer.
    ResolvingIdentity,
    /// Waiting for the read of the record; `attempt` counts the read calls.
    Reading { request: LinkRequest, attempt: u32 },
    /// Waiting for the write of `record`; `attempt` counts the write calls.
    Writing { request: LinkRequest, record: UserRecord, attempt: u32 },
    /// The attempt has ended.
    Finished,
}

/// A 2xx status.
pub open spec fn is_success_spec(status: u16) -> bool {
    200 <= status <= 299
}

/// The pause before the call that follows failed attempt number `attempt`.
pub open spec fn backoff_spec(attempt: u32) -> int {
    BACKOFF_STEP_MS * attempt
}

pub open spec fn failed(reason: FailureReason) -> Action {
    Action::Finish { outcome: Err(LinkFailed { reason }) }
}

/// The events that a flow waits for in each of its states.
pub open spec fn accepts_spec(flow: LinkFlow, e: Event) -> bool {
    match flow {
        LinkFlow::ExchangingCode => e is TokenIssued || e is TokenRefused,
        LinkFlow::ResolvingIdentity => e is IdentityResponse || e is IdentityUnreachable,
        LinkFlow::Reading { .. } => e is RecordRead,
        LinkFlow::Writing { .. } => e is RecordWritten,
        LinkFlow::Finished => false,
    }
}

/// The flow's invariant: a store step is on its first to last attempt, is for
/// a non-empty identifier, and writes the record of that identifier.
pub open spec fn flow_wf(flow: LinkFlow) -> bool {
    match flow {
        LinkFlow::Reading { request, attempt } => 1 <= attempt <= MAX_STORE_ATTEMPTS
            && intent_key(request@).len() > 0,
        LinkFlow::Writing { request, record, attempt } => 1 <= attempt <= MAX_STORE_ATTEMPTS
            && intent_key(request@).len() > 0 && record@.platform_id == intent_key(request@),
        _ => true,
    }
}

/// Entering the write step: the record merged from what was read, written at once.
pub open spec fn starts_write(
    request: LinkRequest,
    current: Option<UserRecord>,
    next: LinkFlow,
    a: Action,
) -> bool {
    match next {
        LinkFlow::Writing { request: r, record, attempt } => r == request && attempt == 1
            && record@ == merged(opt_view(current), request@) && match a {
            Action::WriteRecord { record: w, delay_ms } => w@ == record@ && delay_ms == 0,
            _ => false,
        },
        _ => false,
    }
}

/// One step of the flow: in state `flow`, event `e` leads to state `next`
/// and action `a`.
///
/// A failed token exchange ends the attempt before the identity is fetched.
/// A non-2xx or unreachable identity answer, or a missing or empty
/// identifier, ends it too. An unavailable store is retried, with a growing
/// pause, until `MAX_STORE_ATTEMPTS` calls have failed; a rejecting store ends
/// the attempt at once.
pub open spec fn transition(flow: LinkFlow, e: Event, next: LinkFlow, a: Action) -> bool {
    match flow {
        LinkFlow::ExchangingCode => match e {
            Event::TokenIssued { access_token } => next == LinkFlow::ResolvingIdentity && a
                == Action::FetchIdentity { access_token },
            Event::TokenRefused => next == LinkFlow::Finished && a == failed(
                FailureReason::ExchangeFailed,
            ),
            _ => false,
        },
        LinkFlow::ResolvingIdentity => match e {
            Event::IdentityUnreachable => next == LinkFlow::Finished && a == failed(
                FailureReason::IdentityFetchFailed,
            ),
            Event::IdentityResponse { status, platform_id } => if !is_success_spec(status) {
                next == LinkFlow::Finished && a == failed(FailureReason::IdentityFetchFailed)
            } else {
                match platform_id {
                    Some(id) if id@.len() > 0 => next == (LinkFlow::Reading {
                        request: LinkRequest::IdentityEstablished { platform_id: id },
                        attempt: 1,
                    }) && match a {
                        Action::ReadRecord { platform_id: p, delay_ms } => p@ == id@ && delay_ms
                            == 0,
                        _ => false,
                    },
                    _ => next == LinkFlow::Finished && a == failed(
                        FailureReason::IdentityParseFailed,
                    ),
                }
            },
            _ => false,
        },
        LinkFlow::Reading { request, attempt } => match e {
            Event::RecordRead { outcome } => match outcome {
                Ok(current) => starts_write(request, current, next, a),
                Err(StoreError::Unavailable) => if attempt < MAX_STORE_ATTEMPTS {
                    next == (LinkFlow::Reading { request, attempt: (attempt + 1) as u32 })
                        && match a {
                        Action::ReadRecord { platform_id: p, delay_ms } => p@ == intent_key(
                            request@,
                        ) && delay_ms == backoff_spec(attempt),
                        _ => false,
                    }
                } else {
                    next == LinkFlow::Finished && a == failed(FailureReason::StoreUnavailable)
                },
                Err(StoreError::Rejected) => next == LinkFlow::Finished && a == failed(
                    FailureReason::StoreRejected,
                ),
            },
            _ => false,
        },
        LinkFlow::Writing { request, record, attempt } => match e {
            Event::RecordWritten { outcome } => match outcome {
                Ok(()) => next == LinkFlow::Finished && match a {
                    Action::Finish { outcome: Ok(r) } => r@ == record@,
                    _ => false,
                },
                Err(StoreError::Unavailable) => if attempt < MAX_STORE_ATTEMPTS {
                    next == (LinkFlow::Writing { request, record, attempt: (attempt + 1) as u32 })
                        && match a {
                        Action::WriteRecord { record: w, delay_ms } => w@ == record@ && delay_ms
                            == backoff_spec(attempt),
                        _ => false,
                    }
                } else {
                    next == LinkFlow::Finished && a == failed(FailureReason::StoreUnavailable)
                },
                Err(StoreError::Rejected) => next == LinkFlow::Finished && a == failed(
                    FailureReason::StoreRejected,
                ),
            },
            _ => false,
        },
        LinkFlow::Finished => false,
    }
}

/// Whether `status` is a 2xx status.
pub fn is_success_status(status: u16) -> (r: bool)
    ensures
        r == is_success_spec(status),
{
    200 <= status && status <= 299
}

/// The pause before the call that follows failed attempt number `attempt`.
pub fn backoff_delay_ms(attempt: u32) -> (r: u64)
    requires
        attempt <= MAX_STORE_ATTEMPTS,
    ensures
        r == backoff_spec(attempt),
{
    BACKOFF_STEP_MS * (attempt as u64)
}

fn finish_failed(reason: FailureReason) -> (r: (LinkFlow, Action))
    ensures
        r.0 == LinkFlow::Finished,
        r.1 == failed(reason),
{
    (LinkFlow::Finished, Action::Finish { outcome: Err(LinkFailed { reason }) })
}

impl LinkFlow {
    /// Begins the OAuth callback flow for an authorization code.
    pub fn start_oauth(code: String) -> (r: (LinkFlow, Action))
        ensures
            r.0 == LinkFlow::ExchangingCode,
            r.1 == (Action::ExchangeCode { code }),
    {
        (LinkFlow::ExchangingCode, Action::ExchangeCode { code })
    }

    /// Begins the read-modify-write for one intent, such as a submitted wallet.
    pub fn start_intent(request: LinkRequest) -> (r: (LinkFlow, Action))
        requires
            intent_key(request@).len() > 0,
        ensures
            flow_wf(r.0),
            r.0 == (LinkFlow::Reading { request, attempt: 1 }),
            match r.1 {
                Action::ReadRecord { platform_id, delay_ms } => platform_id@ == intent_key(
                    request@,
                ) && delay_ms == 0,
                _ => false,
            },
    {
        let platform_id = request.platform_id().clone();
        (LinkFlow::Reading { request, attempt: 1 }, Action::ReadRecord { platform_id, delay_ms: 0 })
    }

    /// Whether the flow waits for an event of this kind.
    pub fn accepts(&self, e: &Event) -> (r: bool)
        ensures
            r == accepts_spec(*self, *e),
    {
        match self {
            LinkFlow::ExchangingCode => matches!(e, Event::TokenIssued { .. } | Event::TokenRefused),
            LinkFlow::ResolvingIdentity => matches!(
                e,
                Event::IdentityResponse { .. } | Event::IdentityUnreachable
            ),
            LinkFlow::Reading { .. } => matches!(e, Event::RecordRead { .. }),
            LinkFlow::Writing { .. } => matches!(e, Event::RecordWritten { .. }),
            LinkFlow::Finished => false,
        }
    }

    /// Whether the attempt has ended.
    pub fn is_finished(&self) -> (r: bool)
        ensures
            r == (*self is Finished),
    {
        matches!(self, LinkFlow::Finished)
    }

    /// Moves the flow on by one event: returns the next state and the action
    /// to perform.
    pub fn step(self, e: Event) -> (r: (LinkFlow, Action))
        requires
            flow_wf(self),
            accepts_spec(self, e),
        ensures
            flow_wf(r.0),
            transition(self, e, r.0, r.1),
    {
        match self {
            LinkFlow::ExchangingCode => match e {
                Event::TokenIssued { access_token } => {
                    (LinkFlow::ResolvingIdentity, Action::FetchIdentity { access_token })
                },
                _ => finish_failed(FailureReason::ExchangeFailed),
            },
            LinkFlow::ResolvingIdentity => match e {
                Event::IdentityResponse { status, platform_id } => {
                    if !is_success_status(status) {
                        finish_failed(FailureReason::IdentityFetchFailed)
                    } else {
                        match platform_id {
                            Some(id) => {
                                if id.as_str().is_empty() {
                                    finish_failed(FailureReason::IdentityParseFailed)
                                } else {
                                    let key = id.clone();
                                    let next = LinkFlow::Reading {
                                        request: LinkRequest::IdentityEstablished { platform_id: id },
                                        attempt: 1,
                                    };
                                    (next, Action::ReadRecord { platform_id: key, delay_ms: 0 })
                                }
                            },
                            None => finish_failed(FailureReason::IdentityParseFailed),
                        }
                    }
                },
                _ => finish_failed(FailureReason::IdentityFetchFailed),
            },
            LinkFlow::Reading { request, attempt } => match e {
                Event::RecordRead { outcome: Ok(current) } => {
                    let record = merge_record(current, &request);
                    let out = record.copied();
                    (
                        LinkFlow::Writing { request, record, attempt: 1 },
                        Action::WriteRecord { record: out, delay_ms: 0 },
                    )
                },
                Event::RecordRead { outcome: Err(StoreError::Unavailable) } => {
                    if attempt < MAX_STORE_ATTEMPTS {
                        let delay_ms = backoff_delay_ms(attempt);
                        let platform_id = request.platform_id().clone();
                        (
                            LinkFlow::Reading { request, attempt: attempt + 1 },
                            Action::ReadRecord { platform_id, delay_ms },
                        )
                    } else {
                        finish_failed(FailureReason::StoreUnavailable)
                    }
                },
                _ => finish_failed(FailureReason::StoreRejected),
            },
            LinkFlow::Writing { request, record, attempt } => match e {
                Event::RecordWritten { outcome: Ok(()) } => (
                    LinkFlow::Finished,
                    Action::Finish { outcome: Ok(record) },
                ),
                Event::RecordWritten { outcome: Err(StoreError::Unavailable) } => {
                    if attempt < MAX_STORE_ATTEMPTS {
                        let delay_ms = backoff_delay_ms(attempt);
                        let out = record.copied();
                        (
                            LinkFlow::Writing { request, record, attempt: attempt + 1 },
                            Action::WriteRecord { record: out, delay_ms },
                        )
                    } else {
                        finish_failed(FailureReason::StoreUnavailable)
                    }
                },
                _ => finish_failed(FailureReason::StoreRejected),
            },
            LinkFlow::Finished => finish_failed(FailureReason::ExchangeFailed),
        }
    }
}

} // verus!
