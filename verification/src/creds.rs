//! The credential state machine behind the authentication middleware.
//!
//! Every intercepted call follows the same two-phase shape: a snapshot of
//! the credential store is taken and [`Credentials::plan_call`] decides
//! whether the call can be forwarded (bare or with a bearer token) or
//! whether the token issuer must be consulted first; when the issuer was
//! consulted, [`resolve_issuer_reply`] folds its reply into either a fresh
//! authenticated state (to be written back to the store) or the failure
//! surfaced to the caller.

use vstd::prelude::*;
use vstd::string::StringExecFns;
use crate::errors::{CredentialsError, CredentialsErrorView, Error, ErrorView};
use crate::EXPIRY_FLOOR_MILLIS;

verus! {

/// The lifecycle of a token credential.
#[derive(Debug, Clone)]
pub enum JwtState {
    /// A pre-shared secret is configured; no token has been issued yet.
    Initial { secret: String },
    /// A bearer token issued earlier, its paired refresh token, and the
    /// absolute expiry in milliseconds since the Unix epoch (UTC).
    Authenticated { jwt: String, refresh: String, expires_at: i64 },
}

/// What a connection is configured to authenticate with.
#[derive(Debug, Clone)]
pub enum Credentials {
    /// No credential at all: every call passes through unmodified.
    Unauthenticated,
    /// A token credential in one of its lifecycle states.
    Token(JwtState),
}

/// Mathematical model of a [`JwtState`].
pub enum JwtStateView {
    Initial { secret: Seq<char> },
    Authenticated { jwt: Seq<char>, refresh: Seq<char>, expires_at: int },
}

/// Mathematical model of a [`Credentials`].
pub enum CredentialsView {
    Unauthenticated,
    Token(JwtStateView),
}

impl View for JwtState {
    type V = JwtStateView;

    open spec fn view(&self) -> JwtStateView {
        match self {
            JwtState::Initial { secret } => JwtStateView::Initial { secret: secret@ },
            JwtState::Authenticated { jwt, refresh, expires_at } => JwtStateView::Authenticated {
                jwt: jwt@,
                refresh: refresh@,
                expires_at: expires_at as int,
            },
        }
    }
}

impl View for Credentials {
    type V = CredentialsView;

    open spec fn view(&self) -> CredentialsView {
        match self {
            Credentials::Unauthenticated => CredentialsView::Unauthenticated,
            Credentials::Token(state) => CredentialsView::Token(state@),
        }
    }
}

impl JwtState {
    /// The initial state for a configured secret.
    pub fn new(secret: String) -> (state: Self)
        ensures
            state@ == (JwtStateView::Initial { secret: secret@ }),
    {
        JwtState::Initial { secret }
    }
}

impl Credentials {
    /// Do nothing: calls are forwarded without an authorization header.
    pub fn unauthenticated() -> (c: Self)
        ensures
            c@ == CredentialsView::Unauthenticated,
    {
        Credentials::Unauthenticated
    }

    /// Authenticate with a predefined bearer token: seeds the active state
    /// directly with the given token. Such a credential carries no refresh
    /// capability, so it is treated as never expiring; it is the caller's
    /// responsibility to supply a token that outlives the connection.
    pub fn jwt(jwt: &str) -> (c: Self)
        ensures
            c@ == CredentialsView::Token(JwtStateView::Authenticated {
                jwt: jwt@,
                refresh: ""@,
                expires_at: i64::MAX as int,
            }),
    {
        Credentials::Token(JwtState::Authenticated {
            jwt: jwt.to_owned(),
            refresh: "".to_owned(),
            expires_at: i64::MAX,
        })
    }

    /// Authenticate with a pre-shared API secret: the first intercepted
    /// call will exchange it for a token pair.
    pub fn token(secret_token: &str) -> (c: Self)
        ensures
            c@ == CredentialsView::Token(JwtStateView::Initial { secret: secret_token@ }),
    {
        Credentials::Token(JwtState::Initial { secret: secret_token.to_owned() })
    }
}

impl Default for Credentials {
    /// The default connection is unauthenticated.
    fn default() -> (c: Self)
        ensures
            c@ == CredentialsView::Unauthenticated,
    {
        Credentials::unauthenticated()
    }
}

/// A renewal request the middleware sends to the token issuer before a
/// call can be forwarded.
#[derive(Debug, Clone)]
pub enum IssuerRequest {
    /// First authentication, presenting the configured secret.
    Authenticate { secret: String },
    /// Renewal of an expired token, presenting the current refresh token.
    Refresh { refresh_token: String },
}

/// Mathematical model of an [`IssuerRequest`].
pub enum IssuerRequestView {
    Authenticate { secret: Seq<char> },
    Refresh { refresh_token: Seq<char> },
}

impl View for IssuerRequest {
    type V = IssuerRequestView;

    open spec fn view(&self) -> IssuerRequestView {
        match self {
            IssuerRequest::Authenticate { secret } => IssuerRequestView::Authenticate {
                secret: secret@,
            },
            IssuerRequest::Refresh { refresh_token } => IssuerRequestView::Refresh {
                refresh_token: refresh_token@,
            },
        }
    }
}

/// What one intercepted call must do, as decided from a snapshot of the
/// credential store.
#[derive(Debug, Clone)]
pub enum CallStep {
    /// Forward the call unmodified, without an authorization header.
    ForwardBare,
    /// Attach `Bearer <jwt>` and forward; no issuer round trip.
    ForwardWith { jwt: String },
    /// Consult the issuer first; the call is forwarded only after the
    /// reply was folded in successfully.
    NeedIssuer { request: IssuerRequest },
}

/// Mathematical model of a [`CallStep`].
pub enum CallStepView {
    ForwardBare,
    ForwardWith { jwt: Seq<char> },
    NeedIssuer { request: IssuerRequestView },
}

impl View for CallStep {
    type V = CallStepView;

    open spec fn view(&self) -> CallStepView {
        match self {
            CallStep::ForwardBare => CallStepView::ForwardBare,
            CallStep::ForwardWith { jwt } => CallStepView::ForwardWith { jwt: jwt@ },
            CallStep::NeedIssuer { request } => CallStepView::NeedIssuer { request: request@ },
        }
    }
}

/// The decision for one intercepted call: given a snapshot of the
/// credentials and the current time, either the call goes straight out
/// (bare when no credential is configured, with the live token otherwise),
/// or the issuer has to be consulted first — with the configured secret
/// when no token was issued yet, with the current refresh token when the
/// issued token has expired.
pub open spec fn spec_plan(c: CredentialsView, now_millis: int) -> CallStepView {
    match c {
        CredentialsView::Unauthenticated => CallStepView::ForwardBare,
        CredentialsView::Token(JwtStateView::Initial { secret }) => CallStepView::NeedIssuer {
            request: IssuerRequestView::Authenticate { secret },
        },
        CredentialsView::Token(
            JwtStateView::Authenticated { jwt, refresh, expires_at },
        ) => if now_millis < expires_at {
            CallStepView::ForwardWith { jwt }
        } else {
            CallStepView::NeedIssuer { request: IssuerRequestView::Refresh { refresh_token: refresh } }
        },
    }
}

impl Credentials {
    /// Decide what one intercepted call must do, from this snapshot of the
    /// store and the current time in epoch milliseconds.
    pub fn plan_call(&self, now_millis: i64) -> (step: CallStep)
        ensures
            step@ == spec_plan(self@, now_millis as int),
    {
        match self {
            Credentials::Unauthenticated => CallStep::ForwardBare,
            Credentials::Token(JwtState::Initial { secret }) => CallStep::NeedIssuer {
                request: IssuerRequest::Authenticate { secret: secret.clone() },
            },
            Credentials::Token(JwtState::Authenticated { jwt, refresh, expires_at }) => {
                if now_millis < *expires_at {
                    CallStep::ForwardWith { jwt: jwt.clone() }
                } else {
                    CallStep::NeedIssuer {
                        request: IssuerRequest::Refresh { refresh_token: refresh.clone() },
                    }
                }
            },
        }
    }
}

/// An issued token as it arrives from the wire: a status code where zero
/// means success, the new token pair, and the expiry as unsigned epoch
/// milliseconds.
#[derive(Debug, Clone)]
pub struct IssuedToken {
    pub status: i32,
    pub access_token: String,
    pub refresh_token: String,
    pub expires_at: u64,
}

/// Mathematical model of an [`IssuedToken`].
pub struct IssuedTokenView {
    pub status: int,
    pub access_token: Seq<char>,
    pub refresh_token: Seq<char>,
    pub expires_at: int,
}

impl View for IssuedToken {
    type V = IssuedTokenView;

    open spec fn view(&self) -> IssuedTokenView {
        IssuedTokenView {
            status: self.status as int,
            access_token: self.access_token@,
            refresh_token: self.refresh_token@,
            expires_at: self.expires_at as int,
        }
    }
}

/// Every way an authenticate or refresh round trip can end, as handed back
/// by the transport layer.
#[derive(Debug, Clone)]
pub enum IssuerReply {
    /// The issuer answered with a message of the expected shape.
    Response(IssuedToken),
    /// The issuer answered, but the reply could not be read as an issued
    /// token: a client/server contract mismatch.
    Malformed,
    /// The round trip itself failed, with the transport's message.
    Failed(String),
}

/// Mathematical model of an [`IssuerReply`].
pub enum IssuerReplyView {
    Response(IssuedTokenView),
    Malformed,
    Failed(Seq<char>),
}

impl View for IssuerReply {
    type V = IssuerReplyView;

    open spec fn view(&self) -> IssuerReplyView {
        match self {
            IssuerReply::Response(token) => IssuerReplyView::Response(token@),
            IssuerReply::Malformed => IssuerReplyView::Malformed,
            IssuerReply::Failed(msg) => IssuerReplyView::Failed(msg@),
        }
    }
}

/// Whether chrono can represent a point in time given as signed epoch
/// milliseconds. Only the trusted wrapper below gives this any meaning.
pub uninterp spec fn expiry_representable(millis: int) -> bool;

/// Relies on `chrono::DateTime::<Utc>::from_timestamp_millis`: it returns
/// `Some` exactly for the millisecond values chrono can represent as a
/// date, and its documentation guarantees that `timestamp_millis` then
/// round-trips to the same value.
#[verifier::external_body]
fn checked_expiry_millis(millis: i64) -> (r: Option<i64>)
    ensures
        r == if expiry_representable(millis as int) {
            Some(millis)
        } else {
            None::<i64>
        },
{
    chrono::DateTime::from_timestamp_millis(millis).map(|dt| dt.timestamp_millis())
}

/// Relies on `chrono::Utc::now` for the current wall-clock time, reduced to
/// milliseconds since the Unix epoch. Nothing can be promised of a clock
/// reading, so it carries no contract.
#[verifier::external_body]
pub fn now_millis() -> i64 {
    chrono::Utc::now().timestamp_millis()
}

/// The unsigned wire expiry reinterpreted as the signed value the issued
/// token is taken to mean (two's complement, as the wire type is unsigned
/// while a point in time is signed).
pub open spec fn wire_millis(raw: int) -> int {
    if raw > i64::MAX {
        raw - 0x1_0000_0000_0000_0000
    } else {
        raw
    }
}

/// The expiry stored for a token whose wire expiry was `raw`: the wire
/// value where chrono can represent it, and one minute past `now_millis`
/// otherwise — a freshly issued token is assumed valid for at least that
/// floor rather than failing the call.
pub open spec fn spec_expiry(raw: int, now_millis: int) -> int {
    if expiry_representable(wire_millis(raw)) {
        wire_millis(raw)
    } else {
        now_millis + EXPIRY_FLOOR_MILLIS
    }
}

/// Build the authenticated state from a successful issuer response,
/// applying the expiry floor rule.
pub fn token_from_response(token: &IssuedToken, now_millis: i64) -> (state: JwtState)
    requires
        now_millis + EXPIRY_FLOOR_MILLIS <= i64::MAX,
    ensures
        state@ == (JwtStateView::Authenticated {
            jwt: token.access_token@,
            refresh: token.refresh_token@,
            expires_at: spec_expiry(token.expires_at as int, now_millis as int),
        }),
{
    let wire: i64 = if token.expires_at <= i64::MAX as u64 {
        token.expires_at as i64
    } else {
        // the unsigned wire value wraps around to an instant before the epoch
        let below_max: u64 = u64::MAX - token.expires_at;
        -(below_max as i64) - 1
    };
    assert(wire as int == wire_millis(token.expires_at as int));
    let expires_at: i64 = match checked_expiry_millis(wire) {
        Some(millis) => millis,
        None => now_millis + EXPIRY_FLOOR_MILLIS,
    };
    JwtState::Authenticated {
        jwt: token.access_token.clone(),
        refresh: token.refresh_token.clone(),
        expires_at,
    }
}

/// What one issuer reply means for the intercepted call: a successful
/// response with status zero becomes the new authenticated state (with the
/// expiry floor applied); a non-zero status is an authentication failure
/// carrying that status; a reply that was no token at all is a protocol
/// failure; a failed round trip is passed through as a transport failure.
pub open spec fn spec_resolve(reply: IssuerReplyView, now_millis: int) -> Result<
    JwtStateView,
    ErrorView,
> {
    match reply {
        IssuerReplyView::Response(token) => if token.status == 0 {
            Ok(
                JwtStateView::Authenticated {
                    jwt: token.access_token,
                    refresh: token.refresh_token,
                    expires_at: spec_expiry(token.expires_at, now_millis),
                },
            )
        } else {
            Err(
                ErrorView::Credentials(
                    CredentialsErrorView::AuthenticationFailure { status: token.status },
                ),
            )
        },
        IssuerReplyView::Malformed => Err(ErrorView::Credentials(CredentialsErrorView::ProtocolFailure)),
        IssuerReplyView::Failed(msg) => Err(ErrorView::Transport(msg)),
    }
}

/// The model of an exec-level resolution result.
pub open spec fn resolution_view(r: Result<JwtState, Error>) -> Result<JwtStateView, ErrorView> {
    match r {
        Ok(state) => Ok(state@),
        Err(e) => Err(e@),
    }
}

/// Fold the issuer's reply into either the new authenticated state — which
/// the caller writes to the credential store before forwarding — or the
/// failure surfaced as the call's result, in which case the store is left
/// untouched and the call is not forwarded.
pub fn resolve_issuer_reply(reply: &IssuerReply, now_millis: i64) -> (r: Result<JwtState, Error>)
    requires
        now_millis + EXPIRY_FLOOR_MILLIS <= i64::MAX,
    ensures
        resolution_view(r) == spec_resolve(reply@, now_millis as int),
{
    match reply {
        IssuerReply::Response(token) => {
            if token.status == 0 {
                Ok(token_from_response(token, now_millis))
            } else {
                Err(Error::Credentials(CredentialsError::AuthenticationFailure {
                    status: token.status,
                }))
            }
        },
        IssuerReply::Malformed => Err(Error::Credentials(CredentialsError::ProtocolFailure)),
        IssuerReply::Failed(msg) => Err(Error::Transport(msg.clone())),
    }
}

/// The value carried by the `authorization` header of an authenticated
/// call.
pub fn bearer_header_value(jwt: &str) -> (value: String)
    ensures
        value@ == "Bearer "@ + jwt@,
{
    let mut value = String::from_str("Bearer ");
    value.append(jwt);
    value
}

/// From a configured secret that no call has exchanged yet, an intercepted
/// call consults the issuer exactly once — the single authenticate request
/// of its plan, carrying that secret — and a successful reply resolves to
/// an authenticated state holding exactly the issuer's returned token
/// values, which the driver then writes to the store.
pub proof fn lemma_first_call_authenticates(
    secret: Seq<char>,
    token: IssuedTokenView,
    now_millis: int,
)
    requires
        token.status == 0,
    ensures
        spec_plan(CredentialsView::Token(JwtStateView::Initial { secret }), now_millis)
            == (CallStepView::NeedIssuer { request: IssuerRequestView::Authenticate { secret } }),
        spec_resolve(IssuerReplyView::Response(token), now_millis) == Ok::<JwtStateView, ErrorView>(
            JwtStateView::Authenticated {
                jwt: token.access_token,
                refresh: token.refresh_token,
                expires_at: spec_expiry(token.expires_at, now_millis),
            },
        ),
{
}

/// An expired token makes the next intercepted call consult the issuer
/// exactly once, with a refresh request carrying the current refresh
/// token; on success the access and refresh tokens change to the freshly
/// issued values — the new state fully replaces the old one, so the spent
/// refresh token is never reused.
pub proof fn lemma_expired_token_refreshes(
    jwt: Seq<char>,
    refresh: Seq<char>,
    expires_at: int,
    token: IssuedTokenView,
    now_millis: int,
)
    requires
        expires_at <= now_millis,
        token.status == 0,
    ensures
        spec_plan(
            CredentialsView::Token(JwtStateView::Authenticated { jwt, refresh, expires_at }),
            now_millis,
        ) == (CallStepView::NeedIssuer {
            request: IssuerRequestView::Refresh { refresh_token: refresh },
        }),
        spec_resolve(IssuerReplyView::Response(token), now_millis) == Ok::<JwtStateView, ErrorView>(
            JwtStateView::Authenticated {
                jwt: token.access_token,
                refresh: token.refresh_token,
                expires_at: spec_expiry(token.expires_at, now_millis),
            },
        ),
{
}

/// A still-live token needs no issuer round trip at all: the call is
/// forwarded with the existing access token unchanged.
pub proof fn lemma_live_token_forwards(
    jwt: Seq<char>,
    refresh: Seq<char>,
    expires_at: int,
    now_millis: int,
)
    requires
        now_millis < expires_at,
    ensures
        spec_plan(
            CredentialsView::Token(JwtStateView::Authenticated { jwt, refresh, expires_at }),
            now_millis,
        ) == (CallStepView::ForwardWith { jwt }),
{
}

/// A non-zero issuer status fails the call with an authentication failure
/// carrying that status. No new state is resolved, so the driver performs
/// no store write and a pending secret stays pending.
pub proof fn lemma_failed_auth_leaves_store(token: IssuedTokenView, now_millis: int)
    requires
        token.status != 0,
    ensures
        spec_resolve(IssuerReplyView::Response(token), now_millis) == Err::<JwtStateView, ErrorView>(
            ErrorView::Credentials(
                CredentialsErrorView::AuthenticationFailure { status: token.status },
            ),
        ),
{
}

/// A new credential state is resolved — and hence the store written — for
/// exactly one kind of reply: a well-shaped response with status zero.
/// Every other reply surfaces an error and leaves the store untouched.
pub proof fn lemma_store_written_only_on_success(reply: IssuerReplyView, now_millis: int)
    ensures
        spec_resolve(reply, now_millis) is Ok <==> (reply matches IssuerReplyView::Response(token)
            && token.status == 0),
{
}

/// The expiry floor: a wire expiry that cannot be represented as a point
/// in time never yields an immediate expiry or a failure — the stored
/// expiry is then exactly one minute past now. A representable wire expiry
/// is stored as it came.
pub proof fn lemma_expiry_floor(raw: int, now_millis: int)
    ensures
        !expiry_representable(wire_millis(raw)) ==> spec_expiry(raw, now_millis) == now_millis
            + EXPIRY_FLOOR_MILLIS,
        expiry_representable(wire_millis(raw)) ==> spec_expiry(raw, now_millis) == wire_millis(raw),
{
}

/// Without a configured credential nothing ever changes: every call plans
/// a bare forward, with no issuer request and no store write. The
/// unauthenticated state is terminal.
pub proof fn lemma_unauthenticated_passthrough(now_millis: int)
    ensures
        spec_plan(CredentialsView::Unauthenticated, now_millis) == CallStepView::ForwardBare,
{
}

/// The issuer is only ever consulted in the two intended ways: an
/// authenticate request arises exactly from a pending secret and carries
/// that secret; a refresh request arises exactly from an expired token and
/// carries its refresh token.
pub proof fn lemma_issuer_requests_inverted(c: CredentialsView, now_millis: int)
    ensures
        spec_plan(c, now_millis) matches CallStepView::NeedIssuer { request } ==> match request {
            IssuerRequestView::Authenticate { secret } => c == CredentialsView::Token(
                JwtStateView::Initial { secret },
            ),
            IssuerRequestView::Refresh { refresh_token } => c matches CredentialsView::Token(
                JwtStateView::Authenticated { refresh, expires_at, .. },
            ) && refresh == refresh_token && expires_at <= now_millis,
        },
{
}

/// Round-trip idempotence: as long as the stored token is live, repeated
/// intercepted calls never mutate the credentials. Every one of the calls
/// plans the same forward step with the same token and asks nothing of the
/// issuer, so the write count of the store stays zero.
pub proof fn lemma_live_token_idempotent(
    jwt: Seq<char>,
    refresh: Seq<char>,
    expires_at: int,
    times: Seq<int>,
)
    requires
        forall|i: int| 0 <= i < times.len() ==> #[trigger] times[i] < expires_at,
    ensures
        forall|i: int|
            0 <= i < times.len() ==> spec_plan(
                CredentialsView::Token(JwtStateView::Authenticated { jwt, refresh, expires_at }),
                #[trigger] times[i],
            ) == (CallStepView::ForwardWith { jwt }),
{
}

} // verus!
