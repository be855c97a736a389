//! The protocol orchestrator: one certificate-issuance run as an event-driven
//! state machine. Every protocol decision — what to send next, which nonce to
//! bind, when to poll again, when to abort and with which error — is made
//! here and verified. A driver performs each emitted [`Action`] (network
//! request, proof hook, key generation, storage) and hands the observed
//! result back as the next [`Event`].
//!
//! The machine holds at most one live nonce. Every response event replaces
//! it; every signed request consumes it. The transition relation
//! [`step_rel`] pins this exactly, and [`lemma_step_nonce_law`] states it as
//! the nonce-threading law.

use vstd::prelude::*;

verus! {

use vstd::pervasive::unreached;
use vstd::string::StringExecFns;

use crate::challenge::{
    Challenge,
    OfferedChallenge,
    offered_data,
    file_name_spec,
    spec_find_matching,
    find_matching_challenge,
};
use crate::errors::IssuanceError;
use crate::payload::{new_order_payload, new_order_json, domain_clean, csr_payload, csr_payload_spec};
use crate::poll::{PollObservation, PollDecision, poll_decision_spec, poll_decide};
use crate::signer::{Payload, payload_view, RequestBuilder, SignedRequestInput};
use crate::status::{AuthorizationStatus, OrderStatus};

/// The server-advertised endpoint map, fetched once at run start.
pub struct Directory {
    pub new_nonce: String,
    pub new_order: String,
}

/// The proof obligation for one domain identifier, as fetched from the
/// server.
pub struct Authorization {
    pub identifier: String,
    pub status: AuthorizationStatus,
    pub challenges: Vec<OfferedChallenge>,
}

/// One certificate-issuance order, as fetched from the server.
pub struct Order {
    pub status: OrderStatus,
    pub authorizations: Vec<String>,
    pub finalize: String,
    pub certificate: Option<String>,
}

/// What one issuance run is configured with.
pub struct RunConfig {
    pub server_url: String,
    pub domains: Vec<String>,
    pub challenge: Challenge,
    /// Bound on the fetches of each polling loop; polling a resource makes at
    /// most this many fetches before timing out.
    pub max_poll_attempts: u64,
}

/// The run state carried across the authorization loop and beyond.
pub struct RunCtx {
    pub account_url: String,
    pub order_url: String,
    pub authorizations: Vec<String>,
    pub finalize_url: String,
    /// Index of the authorization currently being processed.
    pub auth_index: usize,
}

/// Where the run stands: which response it is waiting for.
pub enum State {
    AwaitingDirectory,
    AwaitingFirstNonce { new_order_url: String },
    AwaitingAccount { new_order_url: String },
    AwaitingOrder { account_url: String },
    AwaitingAuthorization { ctx: RunCtx },
    AwaitingHook { ctx: RunCtx, auth: Authorization, chall_index: usize },
    AwaitingChallengeAck { ctx: RunCtx, auth: Authorization, chall_index: usize },
    PollingAuthorization { ctx: RunCtx, attempts_left: u64 },
    PollingOrderReady { ctx: RunCtx, attempts_left: u64 },
    AwaitingCsr { ctx: RunCtx },
    AwaitingFinalize { ctx: RunCtx },
    PollingOrderValid { ctx: RunCtx, attempts_left: u64 },
    AwaitingCertificate { ctx: RunCtx },
    AwaitingPersist { ctx: RunCtx },
    Completed,
    Failed,
}

/// What a collaborator observed, handed back to the machine as the result of
/// the previous action.
pub enum Event {
    DirectoryFetched { directory: Directory },
    NonceFresh { nonce: String },
    AccountResolved { account_url: String, nonce: String },
    OrderCreated { order: Order, order_url: String, nonce: String },
    AuthorizationFetched { auth: Authorization, nonce: String },
    HookCompleted,
    ChallengeAccepted { nonce: String },
    OrderFetched { order: Order, nonce: String },
    CsrReady { der: Vec<u8> },
    CertificateFetched { certificate: String, nonce: String },
    Persisted,
    CollaboratorFailed { detail: String },
}

/// What the driver must do next.
#[derive(Debug)]
pub enum Action {
    /// Unsigned fetch of the directory document.
    FetchDirectory { url: String },
    /// Unsigned fetch of a fresh nonce from the new-nonce endpoint.
    FetchNonce { url: String },
    /// Resolve or register the account; the exchange consumes the given
    /// nonce and must hand back the account URL with the next live nonce.
    ResolveAccount { nonce: String },
    /// Sign and send the given request.
    Send { request: SignedRequestInput },
    /// Compute the domain-control proof for the given challenge token and
    /// publish it under the given file or record name for the given domain.
    CompleteChallenge { file_name: String, token: String, domain: String },
    /// Generate a key pair and a certificate signing request for the
    /// configured domains.
    GenerateCsr,
    /// Hand the issued certificate to storage.
    PersistCertificate { certificate: String },
}

/// The machine's answer to one event.
pub enum Output {
    /// Perform this action and hand back its result as the next event.
    Act(Action),
    /// The run completed: the certificate was persisted.
    Finished,
    /// The run ended with this classified failure.
    Fail(IssuanceError),
}

/// One issuance run: its configuration, its single live nonce (if any), and
/// its position in the protocol.
pub struct Machine {
    pub config: RunConfig,
    pub nonce: Option<String>,
    pub state: State,
}

/// The nonce a response event carries, if any.
pub open spec fn event_nonce(ev: Event) -> Option<Seq<char>> {
    match ev {
        Event::NonceFresh { nonce } => Some(nonce@),
        Event::AccountResolved { nonce, .. } => Some(nonce@),
        Event::OrderCreated { nonce, .. } => Some(nonce@),
        Event::AuthorizationFetched { nonce, .. } => Some(nonce@),
        Event::ChallengeAccepted { nonce } => Some(nonce@),
        Event::OrderFetched { nonce, .. } => Some(nonce@),
        Event::CertificateFetched { nonce, .. } => Some(nonce@),
        _ => None,
    }
}

/// The nonce an action consumes, if any.
pub open spec fn action_nonce(a: Action) -> Option<Seq<char>> {
    match a {
        Action::ResolveAccount { nonce } => Some(nonce@),
        Action::Send { request } => Some(request.nonce@),
        _ => None,
    }
}

/// The machine's live nonce, as a sequence.
pub open spec fn machine_nonce(m: Machine) -> Option<Seq<char>> {
    match m.nonce {
        Some(n) => Some(n@),
        None => None,
    }
}

/// Well-formedness: indices stay inside their collections, and the states
/// that will emit a signed request on a nonce-free event hold a live nonce.
pub open spec fn wf(m: Machine) -> bool {
    match m.state {
        State::AwaitingAuthorization { ctx } => ctx.auth_index < ctx.authorizations@.len(),
        State::AwaitingHook { ctx, auth, chall_index } => {
            &&& ctx.auth_index < ctx.authorizations@.len()
            &&& chall_index < auth.challenges@.len()
            &&& m.nonce is Some
        },
        State::AwaitingChallengeAck { ctx, auth, chall_index } => {
            &&& ctx.auth_index < ctx.authorizations@.len()
            &&& chall_index < auth.challenges@.len()
        },
        State::PollingAuthorization { ctx, .. } => ctx.auth_index < ctx.authorizations@.len(),
        State::AwaitingCsr { .. } => m.nonce is Some,
        _ => true,
    }
}

/// The context with its authorization index advanced by one.
pub open spec fn ctx_next(ctx: RunCtx) -> RunCtx {
    RunCtx { auth_index: (ctx.auth_index + 1) as usize, ..ctx }
}

/// Entering the authorization at `ctx.auth_index`: fetch it if one is left,
/// otherwise begin polling the order for `ready`. Either way a signed
/// empty-body request goes out under the given nonce.
pub open spec fn enter_auth_rel(
    max_attempts: u64,
    ctx: RunCtx,
    nonce: Seq<char>,
    st: State,
    out: Output,
) -> bool {
    if ctx.auth_index < ctx.authorizations@.len() {
        &&& st matches State::AwaitingAuthorization { ctx: c } && c == ctx
        &&& out matches Output::Act(Action::Send { request })
            && request.account_url@ == ctx.account_url@
            && request.url@ == ctx.authorizations@[ctx.auth_index as int]@
            && payload_view(request.payload) is None
            && request.nonce@ == nonce
    } else {
        &&& st matches State::PollingOrderReady { ctx: c, attempts_left } && c == ctx
            && attempts_left == max_attempts
        &&& out matches Output::Act(Action::Send { request })
            && request.account_url@ == ctx.account_url@
            && request.url@ == ctx.order_url@
            && payload_view(request.payload) is None
            && request.nonce@ == nonce
    }
}

/// The poll observation the machine derives from a fetched authorization.
pub open spec fn auth_observation(status: AuthorizationStatus) -> PollObservation {
    PollObservation {
        satisfied: status == AuthorizationStatus::Valid,
        terminal_failure: status == AuthorizationStatus::Invalid,
    }
}

/// The poll observation the machine derives from a fetched order, for the
/// awaited status.
pub open spec fn order_observation(status: OrderStatus, target: OrderStatus) -> PollObservation {
    PollObservation {
        satisfied: status == target,
        terminal_failure: status == OrderStatus::Invalid,
    }
}

/// All configured domains are clean enough to stand in the new-order
/// payload.
pub open spec fn domains_clean(cfg: RunConfig) -> bool {
    forall|i: int| 0 <= i < cfg.domains@.len() ==> domain_clean(cfg.domains.deep_view()[i])
}

/// The transition relation of the orchestrator: for a well-formed machine
/// and an event, exactly which successor state and which output the step
/// produces.
pub open spec fn step_rel(pre: Machine, ev: Event, post: Machine, out: Output) -> bool {
    let cfg = pre.config;
    &&& post.config == pre.config
    &&& match (pre.state, ev) {
        (_, Event::CollaboratorFailed { detail }) => {
            &&& post.state is Failed
            &&& post.nonce is None
            &&& out matches Output::Fail(IssuanceError::Collaborator { detail: d }) && d == detail
        },
        (State::AwaitingDirectory, Event::DirectoryFetched { directory }) => {
            &&& post.state matches State::AwaitingFirstNonce { new_order_url } && new_order_url
                == directory.new_order
            &&& post.nonce is None
            &&& out matches Output::Act(Action::FetchNonce { url }) && url == directory.new_nonce
        },
        (State::AwaitingFirstNonce { new_order_url }, Event::NonceFresh { nonce }) => {
            &&& post.state matches State::AwaitingAccount { new_order_url: u } && u
                == new_order_url
            &&& post.nonce is None
            &&& out matches Output::Act(Action::ResolveAccount { nonce: n }) && n == nonce
        },
        (State::AwaitingAccount { new_order_url }, Event::AccountResolved {
            account_url,
            nonce,
        }) => {
            if domains_clean(cfg) {
                &&& post.state matches State::AwaitingOrder { account_url: a } && a == account_url
                &&& post.nonce is None
                &&& out matches Output::Act(Action::Send { request })
                    && request.account_url@ == account_url@
                    && request.url@ == new_order_url@
                    && payload_view(request.payload) == Some(new_order_json(cfg.domains.deep_view()))
                    && request.nonce@ == nonce@
            } else {
                &&& post.state is Failed
                &&& post.nonce is None
                &&& out matches Output::Fail(IssuanceError::InvalidDomain { .. })
            }
        },
        (State::AwaitingOrder { account_url }, Event::OrderCreated { order, order_url, nonce }) => {
            let ctx = (RunCtx {
                account_url,
                order_url,
                authorizations: order.authorizations,
                finalize_url: order.finalize,
                auth_index: 0,
            });
            &&& post.nonce is None
            &&& enter_auth_rel(cfg.max_poll_attempts, ctx, nonce@, post.state, out)
        },
        (State::AwaitingAuthorization { ctx }, Event::AuthorizationFetched { auth, nonce }) => {
            if auth.status == AuthorizationStatus::Valid {
                &&& post.nonce is None
                &&& enter_auth_rel(cfg.max_poll_attempts, ctx_next(ctx), nonce@, post.state, out)
            } else if auth.status == AuthorizationStatus::Pending {
                match spec_find_matching(auth.challenges@, cfg.challenge, 0) {
                    Some(i) => {
                        &&& post.state matches State::AwaitingHook {
                            ctx: c,
                            auth: a,
                            chall_index,
                        } && c == ctx && a == auth && chall_index == i
                        &&& post.nonce matches Some(n) && n == nonce
                        &&& out matches Output::Act(Action::CompleteChallenge {
                            file_name,
                            token,
                            domain,
                        }) && file_name@ == file_name_spec(auth.challenges@[i])
                            && token@ == offered_data(auth.challenges@[i]).token@
                            && domain@ == auth.identifier@
                    },
                    None => {
                        &&& post.state is Failed
                        &&& post.nonce is None
                        &&& out matches Output::Fail(IssuanceError::NoMatchingChallenge {
                            domain,
                        }) && domain@ == auth.identifier@
                    },
                }
            } else {
                &&& post.state is Failed
                &&& post.nonce is None
                &&& out matches Output::Fail(IssuanceError::AuthorizationNotViable {
                    domain,
                    status,
                }) && domain@ == auth.identifier@ && status == auth.status
            }
        },
        (State::AwaitingHook { ctx, auth, chall_index }, Event::HookCompleted) => {
            &&& pre.nonce matches Some(held)
            &&& post.state matches State::AwaitingChallengeAck {
                ctx: c,
                auth: a,
                chall_index: ci,
            } && c == ctx && a == auth && ci == chall_index
            &&& post.nonce is None
            &&& out matches Output::Act(Action::Send { request })
                && request.account_url@ == ctx.account_url@
                && request.url@ == offered_data(auth.challenges@[chall_index as int]).url@
                && payload_view(request.payload) == Some("{}"@)
                && request.nonce@ == held@
        },
        (State::AwaitingChallengeAck { ctx, auth, chall_index }, Event::ChallengeAccepted {
            nonce,
        }) => {
            match spec_find_matching(auth.challenges@, cfg.challenge, chall_index + 1) {
                Some(j) => {
                    &&& post.state matches State::AwaitingHook {
                        ctx: c,
                        auth: a,
                        chall_index: cj,
                    } && c == ctx && a == auth && cj == j
                    &&& post.nonce matches Some(n) && n == nonce
                    &&& out matches Output::Act(Action::CompleteChallenge {
                        file_name,
                        token,
                        domain,
                    }) && file_name@ == file_name_spec(auth.challenges@[j])
                        && token@ == offered_data(auth.challenges@[j]).token@
                        && domain@ == auth.identifier@
                },
                None => {
                    &&& post.state matches State::PollingAuthorization { ctx: c, attempts_left }
                        && c == ctx && attempts_left == cfg.max_poll_attempts
                    &&& post.nonce is None
                    &&& out matches Output::Act(Action::Send { request })
                        && request.account_url@ == ctx.account_url@
                        && request.url@ == ctx.authorizations@[ctx.auth_index as int]@
                        && payload_view(request.payload) is None
                        && request.nonce@ == nonce@
                },
            }
        },
        (State::PollingAuthorization { ctx, attempts_left }, Event::AuthorizationFetched {
            auth,
            nonce,
        }) => {
            match poll_decision_spec(auth_observation(auth.status), attempts_left) {
                PollDecision::Advance => {
                    &&& post.nonce is None
                    &&& enter_auth_rel(cfg.max_poll_attempts, ctx_next(ctx), nonce@, post.state, out)
                },
                PollDecision::Fail => {
                    &&& post.state is Failed
                    &&& post.nonce is None
                    &&& out matches Output::Fail(IssuanceError::PollFailed)
                },
                PollDecision::TimeOut => {
                    &&& post.state is Failed
                    &&& post.nonce is None
                    &&& out matches Output::Fail(IssuanceError::PollTimeout)
                },
                PollDecision::Retry => {
                    &&& post.state matches State::PollingAuthorization { ctx: c, attempts_left: al }
                        && c == ctx && al == attempts_left - 1
                    &&& post.nonce is None
                    &&& out matches Output::Act(Action::Send { request })
                        && request.account_url@ == ctx.account_url@
                        && request.url@ == ctx.authorizations@[ctx.auth_index as int]@
                        && payload_view(request.payload) is None
                        && request.nonce@ == nonce@
                },
            }
        },
        (State::PollingOrderReady { ctx, attempts_left }, Event::OrderFetched { order, nonce }) => {
            match poll_decision_spec(order_observation(order.status, OrderStatus::Ready), attempts_left) {
                PollDecision::Advance => {
                    &&& post.state matches State::AwaitingCsr { ctx: c }
                        && c == (RunCtx { finalize_url: order.finalize, ..ctx })
                    &&& post.nonce matches Some(n) && n == nonce
                    &&& out matches Output::Act(Action::GenerateCsr)
                },
                PollDecision::Fail => {
                    &&& post.state is Failed
                    &&& post.nonce is None
                    &&& out matches Output::Fail(IssuanceError::PollFailed)
                },
                PollDecision::TimeOut => {
                    &&& post.state is Failed
                    &&& post.nonce is None
                    &&& out matches Output::Fail(IssuanceError::PollTimeout)
                },
                PollDecision::Retry => {
                    &&& post.state matches State::PollingOrderReady { ctx: c, attempts_left: al }
                        && c == ctx && al == attempts_left - 1
                    &&& post.nonce is None
                    &&& out matches Output::Act(Action::Send { request })
                        && request.account_url@ == ctx.account_url@
                        && request.url@ == ctx.order_url@
                        && payload_view(request.payload) is None
                        && request.nonce@ == nonce@
                },
            }
        },
        (State::AwaitingCsr { ctx }, Event::CsrReady { der }) => {
            if der@.len() <= usize::MAX / 4 * 3 {
                &&& pre.nonce matches Some(held)
                &&& post.state matches State::AwaitingFinalize { ctx: c } && c == ctx
                &&& post.nonce is None
                &&& out matches Output::Act(Action::Send { request })
                    && request.account_url@ == ctx.account_url@
                    && request.url@ == ctx.finalize_url@
                    && payload_view(request.payload) == Some(csr_payload_spec(der@))
                    && request.nonce@ == held@
            } else {
                &&& post.state is Failed
                &&& post.nonce is None
                &&& out matches Output::Fail(IssuanceError::Collaborator { .. })
            }
        },
        (State::AwaitingFinalize { ctx }, Event::OrderFetched { order: _, nonce }) => {
            &&& post.state matches State::PollingOrderValid { ctx: c, attempts_left }
                && c == ctx && attempts_left == cfg.max_poll_attempts
            &&& post.nonce is None
            &&& out matches Output::Act(Action::Send { request })
                && request.account_url@ == ctx.account_url@
                && request.url@ == ctx.order_url@
                && payload_view(request.payload) is None
                && request.nonce@ == nonce@
        },
        (State::PollingOrderValid { ctx, attempts_left }, Event::OrderFetched { order, nonce }) => {
            match poll_decision_spec(order_observation(order.status, OrderStatus::Valid), attempts_left) {
                PollDecision::Advance => {
                    match order.certificate {
                        Some(cert_url) => {
                            &&& post.state matches State::AwaitingCertificate { ctx: c } && c == ctx
                            &&& post.nonce is None
                            &&& out matches Output::Act(Action::Send { request })
                                && request.account_url@ == ctx.account_url@
                                && request.url@ == cert_url@
                                && payload_view(request.payload) is None
                                && request.nonce@ == nonce@
                        },
                        None => {
                            &&& post.state is Failed
                            &&& post.nonce is None
                            &&& out matches Output::Fail(IssuanceError::MissingCertificateUrl)
                        },
                    }
                },
                PollDecision::Fail => {
                    &&& post.state is Failed
                    &&& post.nonce is None
                    &&& out matches Output::Fail(IssuanceError::PollFailed)
                },
                PollDecision::TimeOut => {
                    &&& post.state is Failed
                    &&& post.nonce is None
                    &&& out matches Output::Fail(IssuanceError::PollTimeout)
                },
                PollDecision::Retry => {
                    &&& post.state matches State::PollingOrderValid { ctx: c, attempts_left: al }
                        && c == ctx && al == attempts_left - 1
                    &&& post.nonce is None
                    &&& out matches Output::Act(Action::Send { request })
                        && request.account_url@ == ctx.account_url@
                        && request.url@ == ctx.order_url@
                        && payload_view(request.payload) is None
                        && request.nonce@ == nonce@
                },
            }
        },
        (State::AwaitingCertificate { ctx }, Event::CertificateFetched { certificate, nonce }) => {
            &&& post.state matches State::AwaitingPersist { ctx: c } && c == ctx
            &&& post.nonce matches Some(n) && n == nonce
            &&& out matches Output::Act(Action::PersistCertificate { certificate: crt }) && crt
                == certificate
        },
        (State::AwaitingPersist { .. }, Event::Persisted) => {
            &&& post.state is Completed
            &&& post.nonce == pre.nonce
            &&& out is Finished
        },
        _ => {
            &&& post.state is Failed
            &&& post.nonce is None
            &&& out matches Output::Fail(IssuanceError::UnexpectedEvent)
        },
    }
}

/// The nonce available to a step: the one its event just delivered, or
/// failing that the one the machine still held.
pub open spec fn available_nonce(pre: Machine, ev: Event) -> Option<Seq<char>> {
    if event_nonce(ev) is Some {
        event_nonce(ev)
    } else {
        machine_nonce(pre)
    }
}

/// The nonce-threading law of one step. Every nonce-consuming action binds
/// exactly the available nonce — the nonce of the response just received, or
/// the one held since the last response — and consuming it leaves the
/// machine with none, so no nonce can be bound twice.
pub open spec fn nonce_law(pre: Machine, ev: Event, post: Machine, out: Output) -> bool {
    &&& output_nonce(out) is Some ==> (output_nonce(out) == available_nonce(pre, ev)
        && machine_nonce(post) is None)
    &&& machine_nonce(post) is Some ==> machine_nonce(post) == available_nonce(pre, ev)
}

/// The nonce the emitted action consumes, if the output is an action that
/// consumes one.
pub open spec fn output_nonce(out: Output) -> Option<Seq<char>> {
    match out {
        Output::Act(a) => action_nonce(a),
        _ => None,
    }
}

/// Every step obeys the nonce-threading law: the request it emits, if any
/// consumes a nonce, uses exactly the nonce of the most recent response, and
/// a consumed nonce is gone from the machine.
pub proof fn lemma_step_nonce_law(pre: Machine, ev: Event, post: Machine, out: Output)
    requires
        wf(pre),
        step_rel(pre, ev, post, out),
    ensures
        nonce_law(pre, ev, post, out),
{
}

/// Builds a signed empty-body request (the POST-as-GET convention) through
/// the request builder.
fn signed_empty(account_url: &String, url: &String, nonce: &String) -> (r: SignedRequestInput)
    ensures
        r.account_url@ == account_url@,
        r.url@ == url@,
        payload_view(r.payload) is None,
        r.nonce@ == nonce@,
{
    let builder = RequestBuilder::new(account_url.clone(), url.clone(), Payload::Empty);
    builder.bind(nonce.as_str())
}

/// Builds a signed request carrying the given JSON body through the request
/// builder.
fn signed_json(account_url: &String, url: &String, body: String, nonce: &String) -> (r:
    SignedRequestInput)
    ensures
        r.account_url@ == account_url@,
        r.url@ == url@,
        payload_view(r.payload) == Some(body@),
        r.nonce@ == nonce@,
{
    let builder = RequestBuilder::new(account_url.clone(), url.clone(), Payload::Json(body));
    builder.bind(nonce.as_str())
}

/// Enters the authorization at `ctx.auth_index`: fetches it if one is left,
/// otherwise begins polling the order for `ready`.
fn enter_authorization(max_attempts: u64, ctx: RunCtx, nonce: String) -> (r: (State, Output))
    ensures
        enter_auth_rel(max_attempts, ctx, nonce@, r.0, r.1),
        wf_state_entered(r.0),
{
    if ctx.auth_index < ctx.authorizations.len() {
        let request = signed_empty(&ctx.account_url, &ctx.authorizations[ctx.auth_index], &nonce);
        (State::AwaitingAuthorization { ctx }, Output::Act(Action::Send { request }))
    } else {
        let request = signed_empty(&ctx.account_url, &ctx.order_url, &nonce);
        (
            State::PollingOrderReady { ctx, attempts_left: max_attempts },
            Output::Act(Action::Send { request }),
        )
    }
}

/// The states `enter_authorization` can produce are well formed on their own
/// (they put no demand on the machine's nonce).
pub open spec fn wf_state_entered(st: State) -> bool {
    match st {
        State::AwaitingAuthorization { ctx } => ctx.auth_index < ctx.authorizations@.len(),
        State::PollingOrderReady { .. } => true,
        _ => false,
    }
}

impl Machine {
    /// Starts one issuance run: the machine awaits the directory, and the
    /// first action fetches it from the configured server URL.
    pub fn new(config: RunConfig) -> (r: (Machine, Action))
        ensures
            r.0.config == config,
            r.0.state is AwaitingDirectory,
            r.0.nonce is None,
            wf(r.0),
            r.1 matches Action::FetchDirectory { url } && url@ == config.server_url@,
    {
        let url = config.server_url.clone();
        (
            Machine { config, nonce: None, state: State::AwaitingDirectory },
            Action::FetchDirectory { url },
        )
    }

    /// Feeds one event to the machine: consumes it and returns the successor
    /// machine with the next output, exactly as `step_rel` states.
    pub fn step(self, ev: Event) -> (r: (Machine, Output))
        requires
            wf(self),
        ensures
            step_rel(self, ev, r.0, r.1),
            wf(r.0),
    {
        let Machine { config, nonce, state } = self;
        let max_attempts = config.max_poll_attempts;
        match (state, ev) {
            (_, Event::CollaboratorFailed { detail }) => (
                Machine { config, nonce: None, state: State::Failed },
                Output::Fail(IssuanceError::Collaborator { detail }),
            ),
            (State::AwaitingDirectory, Event::DirectoryFetched { directory }) => (
                Machine {
                    config,
                    nonce: None,
                    state: State::AwaitingFirstNonce { new_order_url: directory.new_order },
                },
                Output::Act(Action::FetchNonce { url: directory.new_nonce }),
            ),
            (State::AwaitingFirstNonce { new_order_url }, Event::NonceFresh { nonce: n }) => (
                Machine { config, nonce: None, state: State::AwaitingAccount { new_order_url } },
                Output::Act(Action::ResolveAccount { nonce: n }),
            ),
            (State::AwaitingAccount { new_order_url }, Event::AccountResolved {
                account_url,
                nonce: n,
            }) => {
                match new_order_payload(&config.domains) {
                    Ok(body) => {
                        let request = signed_json(&account_url, &new_order_url, body, &n);
                        (
                            Machine {
                                config,
                                nonce: None,
                                state: State::AwaitingOrder { account_url },
                            },
                            Output::Act(Action::Send { request }),
                        )
                    },
                    Err(e) => (
                        Machine { config, nonce: None, state: State::Failed },
                        Output::Fail(e),
                    ),
                }
            },
            (State::AwaitingOrder { account_url }, Event::OrderCreated {
                order,
                order_url,
                nonce: n,
            }) => {
                let ctx = RunCtx {
                    account_url,
                    order_url,
                    authorizations: order.authorizations,
                    finalize_url: order.finalize,
                    auth_index: 0,
                };
                let (st, out) = enter_authorization(config.max_poll_attempts, ctx, n);
                (Machine { config, nonce: None, state: st }, out)
            },
            (State::AwaitingAuthorization { ctx }, Event::AuthorizationFetched { auth, nonce: n }) => {
                if auth.status == AuthorizationStatus::Valid {
                    let mut c = ctx;
                    proof {
                        assert(c.authorizations.len() == c.authorizations@.len());
                    }
                    c.auth_index = c.auth_index + 1;
                    let (st, out) = enter_authorization(config.max_poll_attempts, c, n);
                    (Machine { config, nonce: None, state: st }, out)
                } else if auth.status == AuthorizationStatus::Pending {
                    match find_matching_challenge(&auth.challenges, config.challenge, 0) {
                        Some(i) => {
                            let file_name = auth.challenges[i].get_file_name();
                            let token = auth.challenges[i].token().clone();
                            let domain = auth.identifier.clone();
                            (
                                Machine {
                                    config,
                                    nonce: Some(n),
                                    state: State::AwaitingHook { ctx, auth, chall_index: i },
                                },
                                Output::Act(Action::CompleteChallenge { file_name, token, domain }),
                            )
                        },
                        None => (
                            Machine { config, nonce: None, state: State::Failed },
                            Output::Fail(IssuanceError::NoMatchingChallenge {
                                domain: auth.identifier,
                            }),
                        ),
                    }
                } else {
                    (
                        Machine { config, nonce: None, state: State::Failed },
                        Output::Fail(IssuanceError::AuthorizationNotViable {
                            domain: auth.identifier,
                            status: auth.status,
                        }),
                    )
                }
            },
            (State::AwaitingHook { ctx, auth, chall_index }, Event::HookCompleted) => {
                match nonce {
                    Some(held) => {
                        let request = signed_json(
                            &ctx.account_url,
                            auth.challenges[chall_index].get_url(),
                            String::from_str("{}"),
                            &held,
                        );
                        (
                            Machine {
                                config,
                                nonce: None,
                                state: State::AwaitingChallengeAck { ctx, auth, chall_index },
                            },
                            Output::Act(Action::Send { request }),
                        )
                    },
                    None => unreached(),
                }
            },
            (State::AwaitingChallengeAck { ctx, auth, chall_index }, Event::ChallengeAccepted {
                nonce: n,
            }) => {
                proof {
                    assert(auth.challenges.len() == auth.challenges@.len());
                }
                match find_matching_challenge(&auth.challenges, config.challenge, chall_index + 1) {
                    Some(j) => {
                        let file_name = auth.challenges[j].get_file_name();
                        let token = auth.challenges[j].token().clone();
                        let domain = auth.identifier.clone();
                        (
                            Machine {
                                config,
                                nonce: Some(n),
                                state: State::AwaitingHook { ctx, auth, chall_index: j },
                            },
                            Output::Act(Action::CompleteChallenge { file_name, token, domain }),
                        )
                    },
                    None => {
                        let request = signed_empty(
                            &ctx.account_url,
                            &ctx.authorizations[ctx.auth_index],
                            &n,
                        );
                        (
                            Machine {
                                config,
                                nonce: None,
                                state: State::PollingAuthorization {
                                    ctx,
                                    attempts_left: max_attempts,
                                },
                            },
                            Output::Act(Action::Send { request }),
                        )
                    },
                }
            },
            (State::PollingAuthorization { ctx, attempts_left }, Event::AuthorizationFetched {
                auth,
                nonce: n,
            }) => {
                let obs = PollObservation {
                    satisfied: auth.status == AuthorizationStatus::Valid,
                    terminal_failure: auth.status == AuthorizationStatus::Invalid,
                };
                match poll_decide(obs, attempts_left) {
                    PollDecision::Advance => {
                        let mut c = ctx;
                        proof {
                        assert(c.authorizations.len() == c.authorizations@.len());
                    }
                    c.auth_index = c.auth_index + 1;
                        let (st, out) = enter_authorization(config.max_poll_attempts, c, n);
                        (Machine { config, nonce: None, state: st }, out)
                    },
                    PollDecision::Fail => (
                        Machine { config, nonce: None, state: State::Failed },
                        Output::Fail(IssuanceError::PollFailed),
                    ),
                    PollDecision::TimeOut => (
                        Machine { config, nonce: None, state: State::Failed },
                        Output::Fail(IssuanceError::PollTimeout),
                    ),
                    PollDecision::Retry => {
                        let request = signed_empty(
                            &ctx.account_url,
                            &ctx.authorizations[ctx.auth_index],
                            &n,
                        );
                        (
                            Machine {
                                config,
                                nonce: None,
                                state: State::PollingAuthorization {
                                    ctx,
                                    attempts_left: attempts_left - 1,
                                },
                            },
                            Output::Act(Action::Send { request }),
                        )
                    },
                }
            },
            (State::PollingOrderReady { ctx, attempts_left }, Event::OrderFetched {
                order,
                nonce: n,
            }) => {
                let obs = PollObservation {
                    satisfied: order.status == OrderStatus::Ready,
                    terminal_failure: order.status == OrderStatus::Invalid,
                };
                match poll_decide(obs, attempts_left) {
                    PollDecision::Advance => {
                        let mut c = ctx;
                        c.finalize_url = order.finalize;
                        (
                            Machine {
                                config,
                                nonce: Some(n),
                                state: State::AwaitingCsr { ctx: c },
                            },
                            Output::Act(Action::GenerateCsr),
                        )
                    },
                    PollDecision::Fail => (
                        Machine { config, nonce: None, state: State::Failed },
                        Output::Fail(IssuanceError::PollFailed),
                    ),
                    PollDecision::TimeOut => (
                        Machine { config, nonce: None, state: State::Failed },
                        Output::Fail(IssuanceError::PollTimeout),
                    ),
                    PollDecision::Retry => {
                        let request = signed_empty(&ctx.account_url, &ctx.order_url, &n);
                        (
                            Machine {
                                config,
                                nonce: None,
                                state: State::PollingOrderReady {
                                    ctx,
                                    attempts_left: attempts_left - 1,
                                },
                            },
                            Output::Act(Action::Send { request }),
                        )
                    },
                }
            },
            (State::AwaitingCsr { ctx }, Event::CsrReady { der }) => {
                if der.len() <= usize::MAX / 4 * 3 {
                    match nonce {
                        Some(held) => {
                            let body = csr_payload(&der);
                            let request = signed_json(
                                &ctx.account_url,
                                &ctx.finalize_url,
                                body,
                                &held,
                            );
                            (
                                Machine {
                                    config,
                                    nonce: None,
                                    state: State::AwaitingFinalize { ctx },
                                },
                                Output::Act(Action::Send { request }),
                            )
                        },
                        None => unreached(),
                    }
                } else {
                    (
                        Machine { config, nonce: None, state: State::Failed },
                        Output::Fail(IssuanceError::Collaborator {
                            detail: String::from_str("certificate signing request too large"),
                        }),
                    )
                }
            },
            (State::AwaitingFinalize { ctx }, Event::OrderFetched { order: _, nonce: n }) => {
                let request = signed_empty(&ctx.account_url, &ctx.order_url, &n);
                (
                    Machine {
                        config,
                        nonce: None,
                        state: State::PollingOrderValid {
                            ctx,
                            attempts_left: max_attempts,
                        },
                    },
                    Output::Act(Action::Send { request }),
                )
            },
            (State::PollingOrderValid { ctx, attempts_left }, Event::OrderFetched {
                order,
                nonce: n,
            }) => {
                let obs = PollObservation {
                    satisfied: order.status == OrderStatus::Valid,
                    terminal_failure: order.status == OrderStatus::Invalid,
                };
                match poll_decide(obs, attempts_left) {
                    PollDecision::Advance => {
                        match order.certificate {
                            Some(cert_url) => {
                                let request = signed_empty(&ctx.account_url, &cert_url, &n);
                                (
                                    Machine {
                                        config,
                                        nonce: None,
                                        state: State::AwaitingCertificate { ctx },
                                    },
                                    Output::Act(Action::Send { request }),
                                )
                            },
                            None => (
                                Machine { config, nonce: None, state: State::Failed },
                                Output::Fail(IssuanceError::MissingCertificateUrl),
                            ),
                        }
                    },
                    PollDecision::Fail => (
                        Machine { config, nonce: None, state: State::Failed },
                        Output::Fail(IssuanceError::PollFailed),
                    ),
                    PollDecision::TimeOut => (
                        Machine { config, nonce: None, state: State::Failed },
                        Output::Fail(IssuanceError::PollTimeout),
                    ),
                    PollDecision::Retry => {
                        let request = signed_empty(&ctx.account_url, &ctx.order_url, &n);
                        (
                            Machine {
                                config,
                                nonce: None,
                                state: State::PollingOrderValid {
                                    ctx,
                                    attempts_left: attempts_left - 1,
                                },
                            },
                            Output::Act(Action::Send { request }),
                        )
                    },
                }
            },
            (State::AwaitingCertificate { ctx }, Event::CertificateFetched {
                certificate,
                nonce: n,
            }) => (
                Machine {
                    config,
                    nonce: Some(n),
                    state: State::AwaitingPersist { ctx },
                },
                Output::Act(Action::PersistCertificate { certificate }),
            ),
            (State::AwaitingPersist { .. }, Event::Persisted) => (
                Machine { config, nonce, state: State::Completed },
                Output::Finished,
            ),
            _ => (
                Machine { config, nonce: None, state: State::Failed },
                Output::Fail(IssuanceError::UnexpectedEvent),
            ),
        }
    }
}

} // verus!
