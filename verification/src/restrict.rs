//! The restriction-request facade and its retrying request executor.
//!
//! A [`RestrictReq`] owns the mutable targeting parameters of the restriction
//! API, a lazily acquired credential, and the cached [`BoundRequest`] built
//! from both.  It performs no network traffic itself: every remote operation
//! is a small dialogue in which the facade tells the caller what it needs
//! next — a fresh token, or a request to send — and the caller hands back
//! the outcome as plain values.
//!
//! The dialogue encodes the retry policy: an operation is sent once; if and
//! only if the response is HTTP 401, the facade demands one fresh token,
//! rebuilds the bound request with it, and asks for exactly one more send.
//! The second outcome is final: a second 401 surfaces as
//! [`ApiErrorKind::AuthenticationRejected`], and every other failure
//! propagates unmodified without any retry.

use vstd::prelude::*;
use vstd::string::StrSliceExecFns;

use crate::builder::BoundRequest;
use crate::builder::TransportOptions;
use crate::builder::TransportSupport;
use crate::builder::spec_build;
use crate::builder::build_bound_request;
use crate::error::ApiErrorKind;
use crate::error::spec_classify;
use crate::error::classify_status;
use crate::identity::AccessToken;

verus! {

/// The remote operations the restriction facade can drive.
#[derive(Clone, Copy, Debug, PartialEq, Eq, Structural)]
pub enum OpKind {
    /// Fetch a single restriction.
    Get,
    /// Create or replace a single restriction.
    Put,
    /// Delete a single restriction.
    Delete,
    /// Fetch one page of a range query.
    Page,
    /// Fetch every page of a range query, one request per page.
    AllPages,
}

/// Where an operation dialogue currently stands.
#[derive(Clone, Copy, Debug)]
pub enum Session {
    /// No operation is in flight.
    Idle,
    /// The caller must obtain a token from the identity service.
    /// `retry` records whether this fetch is the one-shot re-authentication
    /// that follows a 401.
    AwaitToken { op: OpKind, retry: bool },
    /// The caller must send the bound request and report the outcome.
    /// `retried` records whether this send is already the second attempt.
    AwaitResponse { op: OpKind, retried: bool },
}

/// What the facade needs from the caller next.
#[derive(Clone, Debug)]
pub enum Pending {
    /// Obtain a fresh access token and report it via
    /// [`RestrictReq::provide_token`].
    NeedToken,
    /// Send this request and report the outcome via
    /// [`RestrictReq::provide_response`].
    NeedSend(BoundRequest),
}

/// The outcome of a token fetch, as plain values.
#[derive(Clone, Debug)]
pub enum TokenOutcome {
    /// The identity service returned a token.
    Token(AccessToken),
    /// The identity service answered with a non-success HTTP status.
    Status(u16),
    /// The round trip failed before any HTTP status was received.
    Transport,
}

/// The outcome of sending a bound request, as plain values.
///
/// A success carries the continuation cursor the response reported, if any;
/// for single-resource operations the caller passes `None`.
#[derive(Clone, Debug)]
pub enum HttpEvent {
    Success(Option<String>),
    Status(u16),
    Transport,
}

/// What an outcome report led to.
#[derive(Clone, Debug)]
pub enum Step {
    /// The operation finished; the caller keeps the payload it decoded.
    Done,
    /// The dialogue continues with this demand.
    Next(Pending),
}

/// A facade over the restriction API that re-uses access tokens, rebuilds
/// its bound request only when needed, and retries a rejected token exactly
/// once.
#[derive(Debug)]
pub struct RestrictReq {
    /// The long-lived API key used to obtain access tokens.
    pub api_key: String,
    /// Targeting: the API whose restriction is addressed.
    pub api: Option<String>,
    /// Targeting: the restricted directory within the API.
    pub directory: Option<String>,
    /// Targeting: the API cursor of a global range scan.
    pub from_api: Option<String>,
    /// Targeting: the directory cursor of a range query.
    pub from_dir: Option<String>,
    /// The current credential, if one has been obtained.
    pub token: Option<AccessToken>,
    /// The cached bound request, if one is built.
    pub inner: Option<BoundRequest>,
    /// Override for the identity service's base URL.
    pub identity_url: Option<String>,
    /// Override for the metadata service's base URL.
    pub metadata_url: Option<String>,
    /// Allow plaintext HTTP (already floored by [`TransportSupport`]).
    pub insecure_urls: bool,
    /// Allow invalid TLS certificates (already floored).
    pub invalid_certs: bool,
    /// The state of the current operation dialogue.
    pub session: Session,
}

impl RestrictReq {
    /// The transport options this facade applies to every request.
    pub open spec fn spec_opts(self) -> TransportOptions {
        TransportOptions {
            allow_insecure_urls: self.insecure_urls,
            allow_invalid_certs: self.invalid_certs,
        }
    }

    /// The bound request the current parameters yield under `token`.
    pub open spec fn spec_build_with(self, token: AccessToken) -> Result<
        BoundRequest,
        ApiErrorKind,
    > {
        spec_build(
            self.api,
            self.directory,
            self.from_api,
            self.from_dir,
            token.token,
            self.metadata_url,
            self.spec_opts(),
        )
    }

    /// The bound request the current parameters and credential yield.
    pub open spec fn spec_build_now(self) -> Result<BoundRequest, ApiErrorKind> {
        self.spec_build_with(self.token->0)
    }

    /// Well-formedness: a cached request is exactly the one the current
    /// parameters and credential build, and a send is only awaited while a
    /// request is cached.
    pub open spec fn wf(self) -> bool {
        &&& (self.inner matches Some(b) ==> self.token is Some && self.spec_build_now()
            == Ok::<BoundRequest, ApiErrorKind>(b))
        &&& (self.session matches Session::AwaitResponse { .. } ==> self.inner is Some)
    }

    /// This facade with its cached request dropped and its dialogue reset.
    pub open spec fn spec_invalidated(self) -> Self {
        RestrictReq { inner: None, session: Session::Idle, ..self }
    }

    /// This facade after `set_api`.
    pub open spec fn with_api(self, api: String) -> Self {
        RestrictReq { api: Some(api), ..self.spec_invalidated() }
    }

    /// This facade after `set_directory`.
    pub open spec fn with_directory(self, directory: String) -> Self {
        RestrictReq { directory: Some(directory), ..self.spec_invalidated() }
    }

    /// This facade after `set_from_api`.
    pub open spec fn with_from_api(self, from_api: String) -> Self {
        RestrictReq { from_api: Some(from_api), ..self.spec_invalidated() }
    }

    /// This facade after `set_from_dir`.
    pub open spec fn with_from_dir(self, from_dir: String) -> Self {
        RestrictReq { from_dir: Some(from_dir), ..self.spec_invalidated() }
    }

    /// Create a facade from the caller's configuration.
    ///
    /// Fails if and only if no non-empty API key is available.  The
    /// transport overrides are floored by `support` here, once: nothing
    /// downstream can re-enable an override the build does not carry.
    pub fn new(
        api_key: Option<String>,
        identity_url: Option<String>,
        metadata_url: Option<String>,
        opts: TransportOptions,
        support: TransportSupport,
    ) -> (r: Result<Self, ApiErrorKind>)
        ensures
            r is Ok <==> (api_key matches Some(k) && k@.len() > 0),
            r matches Ok(f) ==> f == (RestrictReq {
                api_key: api_key->0,
                api: None,
                directory: None,
                from_api: None,
                from_dir: None,
                token: None,
                inner: None,
                identity_url,
                metadata_url,
                insecure_urls: opts.spec_effective(support).allow_insecure_urls,
                invalid_certs: opts.spec_effective(support).allow_invalid_certs,
                session: Session::Idle,
            }),
            r matches Ok(f) ==> f.wf(),
            r is Err ==> r == Result::<Self, ApiErrorKind>::Err(ApiErrorKind::MissingRequestApiKey),
    {
        let key = match api_key {
            Some(k) => k,
            None => {
                return Err(ApiErrorKind::MissingRequestApiKey);
            },
        };
        if key.as_str().is_empty() {
            return Err(ApiErrorKind::MissingRequestApiKey);
        }
        let eff = opts.effective(support);
        Ok(
            RestrictReq {
                api_key: key,
                api: None,
                directory: None,
                from_api: None,
                from_dir: None,
                token: None,
                inner: None,
                identity_url,
                metadata_url,
                insecure_urls: eff.allow_insecure_urls,
                invalid_certs: eff.allow_invalid_certs,
                session: Session::Idle,
            },
        )
    }

    /// Target a single API.  Drops the cached request; nothing is rebuilt
    /// and no token is demanded until the next operation starts.
    pub fn set_api(&mut self, api: String) -> (r: Result<(), ApiErrorKind>)
        ensures
            r is Ok,
            *final(self) == old(self).with_api(api),
            final(self).wf(),
    {
        self.api = Some(api);
        self.inner = None;
        self.session = Session::Idle;
        Ok(())
    }

    /// Target a restricted directory.  Lazy in the same way as `set_api`.
    pub fn set_directory(&mut self, dir: String) -> (r: Result<(), ApiErrorKind>)
        ensures
            r is Ok,
            *final(self) == old(self).with_directory(dir),
            final(self).wf(),
    {
        self.directory = Some(dir);
        self.inner = None;
        self.session = Session::Idle;
        Ok(())
    }

    /// Set the API cursor of a global range scan.  Lazy.
    pub fn set_from_api(&mut self, api: String) -> (r: Result<(), ApiErrorKind>)
        ensures
            r is Ok,
            *final(self) == old(self).with_from_api(api),
            final(self).wf(),
    {
        self.from_api = Some(api);
        self.inner = None;
        self.session = Session::Idle;
        Ok(())
    }

    /// Set the directory cursor of a range query.  Lazy.
    pub fn set_from_dir(&mut self, dir: String) -> (r: Result<(), ApiErrorKind>)
        ensures
            r is Ok,
            *final(self) == old(self).with_from_dir(dir),
            final(self).wf(),
    {
        self.from_dir = Some(dir);
        self.inner = None;
        self.session = Session::Idle;
        Ok(())
    }

    /// Replace the credential with a freshly obtained access token.
    ///
    /// The old credential is discarded wholesale and the cached request is
    /// dropped with it; the next operation rebuilds from the new token.
    pub fn refresh_token(&mut self, token: AccessToken)
        ensures
            *final(self) == (RestrictReq {
                token: Some(token),
                inner: None,
                session: Session::Idle,
                ..*old(self)
            }),
            final(self).wf(),
    {
        self.token = Some(token);
        self.inner = None;
        self.session = Session::Idle;
    }

    /// The JWT of the held credential, if one has been obtained; when none
    /// is held, the next operation's dialogue demands a fresh one.
    pub fn token_or_refresh(&self) -> (r: Option<&String>)
        ensures
            self.token is Some ==> (r matches Some(t) && t == &self.token->0.token),
            self.token is None ==> r is None,
    {
        match &self.token {
            Some(t) => Some(&t.token),
            None => None,
        }
    }

    /// Build the bound request from the current parameters under `token`.
    fn build_now(&self, token: &AccessToken) -> (r: Result<BoundRequest, ApiErrorKind>)
        ensures
            r == self.spec_build_with(*token),
    {
        build_bound_request(
            &self.api,
            &self.directory,
            &self.from_api,
            &self.from_dir,
            &token.token,
            &self.metadata_url,
            TransportOptions {
                allow_insecure_urls: self.insecure_urls,
                allow_invalid_certs: self.invalid_certs,
            },
        )
    }

    /// Begin an operation dialogue.
    ///
    /// With no credential yet, the dialogue starts by demanding a token;
    /// otherwise the bound request is built — once, from the parameter
    /// values as they stand now — unless one is already cached, and the
    /// caller is asked to send it.  Invalid targeting fails the operation
    /// immediately with [`ApiErrorKind::InvalidTargetShape`].
    pub fn start(&mut self, op: OpKind) -> (r: Result<Pending, ApiErrorKind>)
        requires
            old(self).wf(),
            old(self).session is Idle,
        ensures
            final(self).wf(),
            spec_start_post(*old(self), *final(self), op, r),
    {
        let tok = match &self.token {
            None => {
                self.session = Session::AwaitToken { op, retry: false };
                return Ok(Pending::NeedToken);
            },
            Some(t) => t,
        };
        let built = self.build_now(tok);
        match built {
            Err(e) => Err(e),
            Ok(b) => {
                if self.inner.is_none() {
                    // Building is a pure function of the parameters and
                    // the credential, so this second build is the same
                    // descriptor and cannot fail.
                    let b2 = self.build_now(self.token.as_ref().unwrap()).unwrap();
                    self.inner = Some(b2);
                }
                self.session = Session::AwaitResponse { op, retried: false };
                Ok(Pending::NeedSend(b))
            },
        }
    }

    /// Report the outcome of a demanded token fetch.
    ///
    /// A fresh token replaces the old credential wholesale and the bound
    /// request is rebuilt from it before the next send is demanded: no
    /// request built after this point can carry the replaced token.  Any
    /// failure of the token fetch ends the operation with the classified
    /// error; the executor never retries the identity service.
    pub fn provide_token(&mut self, outcome: TokenOutcome) -> (r: Result<Pending, ApiErrorKind>)
        requires
            old(self).wf(),
            old(self).session matches Session::AwaitToken { .. },
        ensures
            final(self).wf(),
            spec_token_post(*old(self), *final(self), outcome, r),
    {
        let (op, retry) = match self.session {
            Session::AwaitToken { op, retry } => (op, retry),
            // Unreachable: the precondition pins the session state.
            _ => (OpKind::Get, false),
        };
        match outcome {
            TokenOutcome::Token(t) => {
                self.token = Some(t);
                self.inner = None;
                let built = self.build_now(self.token.as_ref().unwrap());
                match built {
                    Ok(b) => {
                        // A second build from the same inputs yields the
                        // same descriptor and cannot fail.
                        let b2 = self.build_now(self.token.as_ref().unwrap()).unwrap();
                        self.inner = Some(b2);
                        self.session = Session::AwaitResponse { op, retried: retry };
                        Ok(Pending::NeedSend(b))
                    },
                    Err(e) => {
                        self.session = Session::Idle;
                        Err(e)
                    },
                }
            },
            TokenOutcome::Status(s) => {
                self.session = Session::Idle;
                Err(classify_status(s))
            },
            TokenOutcome::Transport => {
                self.session = Session::Idle;
                Err(ApiErrorKind::TransportFailure)
            },
        }
    }

    /// Report the outcome of a demanded send.
    ///
    /// A success ends the operation — except for [`OpKind::AllPages`] with a
    /// continuation cursor, which advances the cursor, rebuilds the bound
    /// request, and demands the next page's send with a fresh retry budget.
    /// HTTP 401 on a first attempt demands one re-authentication; HTTP 401
    /// on the retried attempt, and every other failure, ends the operation
    /// with the classified error and no further attempt.
    pub fn provide_response(&mut self, event: HttpEvent) -> (r: Result<Step, ApiErrorKind>)
        requires
            old(self).wf(),
            old(self).session matches Session::AwaitResponse { .. },
        ensures
            final(self).wf(),
            spec_response_post(*old(self), *final(self), event, r),
    {
        let (op, retried) = match self.session {
            Session::AwaitResponse { op, retried } => (op, retried),
            // Unreachable: the precondition pins the session state.
            _ => (OpKind::Get, false),
        };
        match event {
            HttpEvent::Success(next) => {
                if op == OpKind::AllPages && next.is_some() {
                    self.from_dir = next;
                    self.inner = None;
                    let built = self.build_now(self.token.as_ref().unwrap());
                    match built {
                        Ok(b) => {
                            // A second build from the same inputs yields
                            // the same descriptor and cannot fail.
                            let b2 = self.build_now(self.token.as_ref().unwrap()).unwrap();
                            self.inner = Some(b2);
                            self.session = Session::AwaitResponse { op, retried: false };
                            Ok(Step::Next(Pending::NeedSend(b)))
                        },
                        Err(e) => {
                            self.session = Session::Idle;
                            Err(e)
                        },
                    }
                } else {
                    self.session = Session::Idle;
                    Ok(Step::Done)
                }
            },
            HttpEvent::Status(s) => {
                if s == 401 && !retried {
                    self.session = Session::AwaitToken { op, retry: true };
                    Ok(Step::Next(Pending::NeedToken))
                } else {
                    self.session = Session::Idle;
                    Err(classify_status(s))
                }
            },
            HttpEvent::Transport => {
                self.session = Session::Idle;
                Err(ApiErrorKind::TransportFailure)
            },
        }
    }

    /// Begin fetching the targeted restriction.
    pub fn get_restriction(&mut self) -> (r: Result<Pending, ApiErrorKind>)
        requires
            old(self).wf(),
            old(self).session is Idle,
        ensures
            final(self).wf(),
            spec_start_post(*old(self), *final(self), OpKind::Get, r),
    {
        self.start(OpKind::Get)
    }

    /// Begin setting the targeted restriction.
    pub fn set_restriction(&mut self) -> (r: Result<Pending, ApiErrorKind>)
        requires
            old(self).wf(),
            old(self).session is Idle,
        ensures
            final(self).wf(),
            spec_start_post(*old(self), *final(self), OpKind::Put, r),
    {
        self.start(OpKind::Put)
    }

    /// Begin deleting the targeted restriction.
    pub fn delete_restriction(&mut self) -> (r: Result<Pending, ApiErrorKind>)
        requires
            old(self).wf(),
            old(self).session is Idle,
        ensures
            final(self).wf(),
            spec_start_post(*old(self), *final(self), OpKind::Delete, r),
    {
        self.start(OpKind::Delete)
    }

    /// Begin fetching a single page of the targeted range.
    pub fn get_page(&mut self) -> (r: Result<Pending, ApiErrorKind>)
        requires
            old(self).wf(),
            old(self).session is Idle,
        ensures
            final(self).wf(),
            spec_start_post(*old(self), *final(self), OpKind::Page, r),
    {
        self.start(OpKind::Page)
    }

    /// Begin fetching every page of the targeted range.  Each continuation
    /// cursor the caller reports via [`RestrictReq::provide_response`]
    /// advances the dialogue to the next page; the operation ends when a
    /// page reports no cursor, or when any page fails after its own retry.
    pub fn get_all_pages(&mut self) -> (r: Result<Pending, ApiErrorKind>)
        requires
            old(self).wf(),
            old(self).session is Idle,
        ensures
            final(self).wf(),
            spec_start_post(*old(self), *final(self), OpKind::AllPages, r),
    {
        self.start(OpKind::AllPages)
    }
}

/// The contract of beginning an operation: what [`RestrictReq::start`]
/// promises, shared by the named operation starters.
pub open spec fn spec_start_post(
    pre: RestrictReq,
    post: RestrictReq,
    op: OpKind,
    r: Result<Pending, ApiErrorKind>,
) -> bool {
    &&& pre.token is None ==> r == Result::<Pending, ApiErrorKind>::Ok(Pending::NeedToken) && post
        == (RestrictReq { session: Session::AwaitToken { op, retry: false }, ..pre })
    &&& pre.token is Some ==> match pre.spec_build_now() {
        Ok(b) => r == Result::<Pending, ApiErrorKind>::Ok(Pending::NeedSend(b)) && post
            == (RestrictReq {
            inner: Some(b),
            session: Session::AwaitResponse { op, retried: false },
            ..pre
        }),
        Err(e) => r == Result::<Pending, ApiErrorKind>::Err(e) && post == pre,
    }
}

/// Credential immutability: whatever request a well-formed facade holds is
/// bound to the token of its *current* credential.  After a successful
/// re-authentication replaces the credential, every request the facade
/// subsequently hands out therefore carries the new token, and the replaced
/// token can never appear in another request.
pub proof fn lemma_credential_immutability(f: RestrictReq)
    requires
        f.wf(),
        f.inner is Some,
    ensures
        f.token is Some,
        f.inner->0.token == f.token->0.token,
{
}

/// The contract of reporting a token outcome: what
/// [`RestrictReq::provide_token`] promises about the state after the call
/// and the value it returns.
pub open spec fn spec_token_post(
    pre: RestrictReq,
    post: RestrictReq,
    outcome: TokenOutcome,
    r: Result<Pending, ApiErrorKind>,
) -> bool {
    match pre.session {
        Session::AwaitToken { op, retry } => match outcome {
            TokenOutcome::Token(t) => match pre.spec_build_with(t) {
                Ok(b) => r == Result::<Pending, ApiErrorKind>::Ok(Pending::NeedSend(b)) && post
                    == (RestrictReq {
                    token: Some(t),
                    inner: Some(b),
                    session: Session::AwaitResponse { op, retried: retry },
                    ..pre
                }),
                Err(e) => r == Result::<Pending, ApiErrorKind>::Err(e) && post == (RestrictReq {
                    token: Some(t),
                    inner: None,
                    session: Session::Idle,
                    ..pre
                }),
            },
            TokenOutcome::Status(s) => r == Result::<Pending, ApiErrorKind>::Err(spec_classify(s))
                && post == (RestrictReq { session: Session::Idle, ..pre }),
            TokenOutcome::Transport => r == Result::<Pending, ApiErrorKind>::Err(
                ApiErrorKind::TransportFailure,
            ) && post == (RestrictReq { session: Session::Idle, ..pre }),
        },
        _ => true,
    }
}

/// The contract of reporting a send outcome: what
/// [`RestrictReq::provide_response`] promises about the state after the
/// call and the value it returns.
pub open spec fn spec_response_post(
    pre: RestrictReq,
    post: RestrictReq,
    event: HttpEvent,
    r: Result<Step, ApiErrorKind>,
) -> bool {
    match pre.session {
        Session::AwaitResponse { op, retried } => match event {
            HttpEvent::Success(next) => if op == OpKind::AllPages && next is Some {
                match (RestrictReq { from_dir: next, ..pre }).spec_build_now() {
                    Ok(b) => r == Result::<Step, ApiErrorKind>::Ok(
                        Step::Next(Pending::NeedSend(b)),
                    ) && post == (RestrictReq {
                        from_dir: next,
                        inner: Some(b),
                        session: Session::AwaitResponse { op, retried: false },
                        ..pre
                    }),
                    Err(e) => r == Result::<Step, ApiErrorKind>::Err(e) && post == (RestrictReq {
                        from_dir: next,
                        inner: None,
                        session: Session::Idle,
                        ..pre
                    }),
                }
            } else {
                r == Result::<Step, ApiErrorKind>::Ok(Step::Done) && post == (RestrictReq {
                    session: Session::Idle,
                    ..pre
                })
            },
            HttpEvent::Status(s) => if s == 401 && !retried {
                r == Result::<Step, ApiErrorKind>::Ok(Step::Next(Pending::NeedToken)) && post
                    == (RestrictReq { session: Session::AwaitToken { op, retry: true }, ..pre })
            } else {
                r == Result::<Step, ApiErrorKind>::Err(spec_classify(s)) && post == (RestrictReq {
                    session: Session::Idle,
                    ..pre
                })
            },
            HttpEvent::Transport => r == Result::<Step, ApiErrorKind>::Err(
                ApiErrorKind::TransportFailure,
            ) && post == (RestrictReq { session: Session::Idle, ..pre }),
        },
        _ => true,
    }
}

/// Re-authentication happens at most once per attempt cycle: a send that is
/// already the retried attempt can never lead to another token demand.  An
/// endpoint that keeps answering 401 therefore costs exactly two sends and
/// one token fetch, and the operation ends in
/// [`ApiErrorKind::AuthenticationRejected`].
pub proof fn lemma_retry_at_most_once(
    pre: RestrictReq,
    post: RestrictReq,
    event: HttpEvent,
    r: Result<Step, ApiErrorKind>,
    op: OpKind,
)
    requires
        pre.session == (Session::AwaitResponse { op, retried: true }),
        spec_response_post(pre, post, event, r),
    ensures
        r != Result::<Step, ApiErrorKind>::Ok(Step::Next(Pending::NeedToken)),
        !(post.session matches Session::AwaitToken { .. }),
        event matches HttpEvent::Status(s) && s == 401 ==> r == Result::<Step, ApiErrorKind>::Err(
            ApiErrorKind::AuthenticationRejected,
        ),
{
}

/// Rebuilding is lazy: setting several targeting parameters in sequence
/// leaves no request built and no demand outstanding, so no network traffic
/// of any kind is triggered; the first operation started afterwards builds
/// one bound request, from the final parameter values.
pub proof fn lemma_lazy_rebuild(f: RestrictReq, a: String, d: String, c: String, t: AccessToken)
    ensures
        ({
            let g = f.with_api(a).with_directory(d).with_from_dir(c);
            &&& g.inner is None
            &&& g.session is Idle
            &&& g.spec_build_with(t) == spec_build(
                Some(a),
                Some(d),
                f.from_api,
                Some(c),
                t.token,
                f.metadata_url,
                f.spec_opts(),
            )
        }),
{
}

/// The whole cost of a rejected credential, end to end: an operation whose
/// sends are answered 401 demands its first send under the held token, then
/// exactly one token fetch, then one retried send under the fresh token —
/// never the replaced one — and a second 401 ends it as
/// [`ApiErrorKind::AuthenticationRejected`], with nothing further demanded.
/// An endpoint that accepts the retried send instead ends the operation
/// successfully after the same two sends and one token fetch.
pub proof fn lemma_unauthorized_costs_two_sends_and_one_fetch(
    s0: RestrictReq,
    s1: RestrictReq,
    s2: RestrictReq,
    s3: RestrictReq,
    s4: RestrictReq,
    op: OpKind,
    fresh: AccessToken,
    r1: Result<Pending, ApiErrorKind>,
    r2: Result<Step, ApiErrorKind>,
    r3: Result<Pending, ApiErrorKind>,
    r4: Result<Step, ApiErrorKind>,
)
    requires
        s0.wf(),
        s0.session is Idle,
        s0.token is Some,
        s0.spec_build_now() is Ok,
        spec_start_post(s0, s1, op, r1),
        spec_response_post(s1, s2, HttpEvent::Status(401), r2),
        spec_token_post(s2, s3, TokenOutcome::Token(fresh), r3),
        spec_response_post(s3, s4, HttpEvent::Status(401), r4),
    ensures
        r1 matches Ok(p) && (p matches Pending::NeedSend(b) && b.token == s0.token->0.token),
        r2 == Result::<Step, ApiErrorKind>::Ok(Step::Next(Pending::NeedToken)),
        r3 matches Ok(p) && (p matches Pending::NeedSend(b) && b.token == fresh.token),
        r4 == Result::<Step, ApiErrorKind>::Err(ApiErrorKind::AuthenticationRejected),
        s4.session is Idle,
{
}

/// A rejected first attempt is retried exactly once: the 401 response
/// yields one token demand, and the dialogue then stands at the retried
/// attempt of the same operation.
pub proof fn lemma_retry_once_on_unauthorized(
    pre: RestrictReq,
    post: RestrictReq,
    r: Result<Step, ApiErrorKind>,
    op: OpKind,
)
    requires
        pre.session == (Session::AwaitResponse { op, retried: false }),
        spec_response_post(pre, post, HttpEvent::Status(401), r),
    ensures
        r == Result::<Step, ApiErrorKind>::Ok(Step::Next(Pending::NeedToken)),
        post.session == (Session::AwaitToken { op, retry: true }),
{
}

} // verus!
