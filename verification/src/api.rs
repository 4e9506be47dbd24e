//! The decisions of the Pi-hole API client: how a failed request is
//! classified, when an authentication is retried, and which responses are
//! refused.
use vstd::prelude::*;

use crate::text::{decimal, push_decimal, push_text, to_owned_string};

verus! {

/// The largest response body that the client reads.
pub const MAX_RESPONSE_SIZE: usize = 1048576;

/// How many times the client asks for a session while Pi-hole answers
/// "too many requests".
pub const AUTH_MAX_ATTEMPTS: u32 = 3;

/// The pause before the second authentication attempt; it grows by as much
/// before each later one.
pub const AUTH_RETRY_DELAY_MILLIS: u64 = 500;

/// The status code with which Pi-hole limits the rate of authentications.
pub const TOO_MANY_REQUESTS: u16 = 429;

/// The status code reported for a response body over the size limit.
pub const PAYLOAD_TOO_LARGE: u16 = 413;

/// The status code after which a fetch re-authenticates once.
pub const UNAUTHORIZED: u16 = 401;

/// What kind of failure a request that got no response met.
#[derive(Debug, Clone, Copy, PartialEq, Eq, Structural)]
pub enum TransportFailure {
    Timeout,
    Connection,
    Other,
}

/// A timeout is reported as such, then a failure to connect; anything else
/// is reported with its source.
pub open spec fn classify_spec(is_timeout: bool, is_connect: bool) -> TransportFailure {
    if is_timeout {
        TransportFailure::Timeout
    } else if is_connect {
        TransportFailure::Connection
    } else {
        TransportFailure::Other
    }
}

/// Classifies a failed request from what the HTTP client says of its error.
pub fn classify_transport_error(is_timeout: bool, is_connect: bool) -> (r: TransportFailure)
    ensures
        r == classify_spec(is_timeout, is_connect),
{
    if is_timeout {
        TransportFailure::Timeout
    } else if is_connect {
        TransportFailure::Connection
    } else {
        TransportFailure::Other
    }
}

/// A failed call of the Pi-hole API, with what its report names: the URL,
/// the status code, or the text of the underlying cause.
#[derive(Debug, Clone)]
pub enum ApiFailure {
    /// The host could not be reached.
    Connection { url: String, message: String },
    /// The host did not answer in time.
    Timeout { url: String },
    /// The authentication request failed otherwise.
    AuthRequest { url: String, cause: String },
    /// Authentication was answered with this failure status.
    AuthStatus(u16),
    /// Pi-hole answered that the session is not valid.
    AuthUnsuccessful,
    /// A fetch failed otherwise.
    Fetch { url: String, cause: String },
    /// A fetch was answered with this failure status.
    BadStatus(u16),
    /// The body was not the JSON expected.
    Parse(String),
}

/// The report of an API failure.
pub open spec fn failure_message_spec(f: ApiFailure) -> Seq<char> {
    match f {
        ApiFailure::Connection { url, message } => "connection to Pi-hole failed at "@ + url@
            + ": "@ + message@,
        ApiFailure::Timeout { url } => "request to Pi-hole timed out at "@ + url@,
        ApiFailure::AuthRequest { url, cause } => "authentication request failed for "@ + url@
            + ": "@ + cause@,
        ApiFailure::AuthStatus(code) => "authentication failed, status code: "@ + decimal(
            code as nat,
        ),
        ApiFailure::AuthUnsuccessful => "authentication unsuccessful"@,
        ApiFailure::Fetch { url, cause } => "failed to fetch data from "@ + url@ + ": "@
            + cause@,
        ApiFailure::BadStatus(code) => "non-200 status code: "@ + decimal(code as nat),
        ApiFailure::Parse(cause) => "failed to parse JSON response: "@ + cause@,
    }
}

impl ApiFailure {
    /// The report of the failure.
    pub fn message(&self) -> (r: String)
        ensures
            r@ == failure_message_spec(*self),
    {
        match self {
            ApiFailure::Connection { url, message } => {
                let mut m = to_owned_string("connection to Pi-hole failed at ");
                push_text(&mut m, url.as_str());
                push_text(&mut m, ": ");
                push_text(&mut m, message.as_str());
                m
            },
            ApiFailure::Timeout { url } => {
                let mut m = to_owned_string("request to Pi-hole timed out at ");
                push_text(&mut m, url.as_str());
                m
            },
            ApiFailure::AuthRequest { url, cause } => {
                let mut m = to_owned_string("authentication request failed for ");
                push_text(&mut m, url.as_str());
                push_text(&mut m, ": ");
                push_text(&mut m, cause.as_str());
                m
            },
            ApiFailure::AuthStatus(code) => {
                let mut m = to_owned_string("authentication failed, status code: ");
                push_decimal(&mut m, *code as u64);
                m
            },
            ApiFailure::AuthUnsuccessful => to_owned_string("authentication unsuccessful"),
            ApiFailure::Fetch { url, cause } => {
                let mut m = to_owned_string("failed to fetch data from ");
                push_text(&mut m, url.as_str());
                push_text(&mut m, ": ");
                push_text(&mut m, cause.as_str());
                m
            },
            ApiFailure::BadStatus(code) => {
                let mut m = to_owned_string("non-200 status code: ");
                push_decimal(&mut m, *code as u64);
                m
            },
            ApiFailure::Parse(cause) => {
                let mut m = to_owned_string("failed to parse JSON response: ");
                push_text(&mut m, cause.as_str());
                m
            },
        }
    }
}

/// A success status: 200 to 299.
pub open spec fn is_success_status(code: u16) -> bool {
    200 <= code <= 299
}

/// What the client does after the answer to authentication attempt
/// `attempt` (counting from 0).
#[derive(Debug, Clone, Copy, PartialEq, Eq, Structural)]
pub enum AuthStep {
    /// The status was a success: read the body.
    ReadBody,
    /// Rate limited: try again after this pause.
    RetryAfter { delay_millis: u64 },
    /// Give up, reporting this status code.
    Fail(u16),
}

pub open spec fn auth_step_spec(attempt: u32, status: u16) -> AuthStep {
    if status == TOO_MANY_REQUESTS {
        if attempt + 1 < AUTH_MAX_ATTEMPTS {
            AuthStep::RetryAfter { delay_millis: (AUTH_RETRY_DELAY_MILLIS * (attempt + 1)) as u64 }
        } else {
            AuthStep::Fail(TOO_MANY_REQUESTS)
        }
    } else if !is_success_status(status) {
        AuthStep::Fail(status)
    } else {
        AuthStep::ReadBody
    }
}

/// Decides on the status of the answer to an authentication attempt: a rate
/// limit is retried after a growing pause until the attempts run out, any
/// other failure status ends the authentication with that status.
pub fn auth_status_step(attempt: u32, status: u16) -> (r: AuthStep)
    requires
        attempt < AUTH_MAX_ATTEMPTS,
    ensures
        r == auth_step_spec(attempt, status),
{
    if status == TOO_MANY_REQUESTS {
        if attempt + 1 < AUTH_MAX_ATTEMPTS {
            AuthStep::RetryAfter { delay_millis: AUTH_RETRY_DELAY_MILLIS * ((attempt + 1) as u64) }
        } else {
            AuthStep::Fail(TOO_MANY_REQUESTS)
        }
    } else if !(200 <= status && status <= 299) {
        AuthStep::Fail(status)
    } else {
        AuthStep::ReadBody
    }
}

/// The state of one authentication: how many of its attempts were answered
/// with a rate limit so far.
#[derive(Debug)]
pub struct AuthAttempts {
    attempt: u32,
}

impl View for AuthAttempts {
    type V = u32;

    closed spec fn view(&self) -> u32 {
        self.attempt
    }
}

impl AuthAttempts {
    #[verifier::type_invariant]
    spec fn within_limit(self) -> bool {
        self.attempt < AUTH_MAX_ATTEMPTS
    }

    /// An authentication before its first attempt.
    pub fn new() -> (r: AuthAttempts)
        ensures
            r@ == 0,
    {
        AuthAttempts { attempt: 0 }
    }

    /// Which attempt comes next, counting from 0; always below the limit.
    pub fn attempt(&self) -> (r: u32)
        ensures
            r == self@,
            r < AUTH_MAX_ATTEMPTS,
    {
        proof {
            use_type_invariant(self);
        }
        self.attempt
    }

    /// Decides on the status of the answer to the current attempt; a rate
    /// limit that leads to another attempt moves on to it.
    pub fn on_status(&mut self, status: u16) -> (r: AuthStep)
        ensures
            old(self)@ < AUTH_MAX_ATTEMPTS,
            r == auth_step_spec(old(self)@, status),
            final(self)@ == (if r is RetryAfter {
                (old(self)@ + 1) as u32
            } else {
                old(self)@
            }),
            final(self)@ < AUTH_MAX_ATTEMPTS,
    {
        proof {
            use_type_invariant(&*self);
        }
        let step = auth_status_step(self.attempt, status);
        if let AuthStep::RetryAfter { .. } = step {
            self.attempt = self.attempt + 1;
        }
        step
    }
}

/// What a fetch does after it was refused with a status.
#[derive(Debug, Clone, Copy, PartialEq, Eq, Structural)]
pub enum FetchStep {
    /// Report the refusal.
    Fail,
    /// Forget the session, authenticate again and fetch once more.
    Reauthenticate,
}

/// The step after a refusal with `status`, while a new authentication is
/// still allowed (`may_retry_auth`).
pub open spec fn fetch_step_spec(may_retry_auth: bool, status: u16) -> FetchStep {
    if status == UNAUTHORIZED && may_retry_auth {
        FetchStep::Reauthenticate
    } else {
        FetchStep::Fail
    }
}

/// The state of one fetch: whether it may still authenticate again after a
/// refusal.
#[derive(Debug)]
pub struct FetchRetry {
    may_retry_auth: bool,
}

impl View for FetchRetry {
    type V = bool;

    closed spec fn view(&self) -> bool {
        self.may_retry_auth
    }
}

impl FetchRetry {
    /// A fetch that may authenticate again once when `may_retry_auth`.
    pub fn new(may_retry_auth: bool) -> (r: FetchRetry)
        ensures
            r@ == may_retry_auth,
    {
        FetchRetry { may_retry_auth }
    }

    /// Decides on a refusal with `status`: a 401 leads to one new
    /// authentication, after which no other is allowed.
    pub fn after_refusal(&mut self, status: u16) -> (r: FetchStep)
        ensures
            r == fetch_step_spec(old(self)@, status),
            final(self)@ == (old(self)@ && r == FetchStep::Fail),
    {
        if retry_after_refusal(status, self.may_retry_auth) {
            self.may_retry_auth = false;
            FetchStep::Reauthenticate
        } else {
            FetchStep::Fail
        }
    }
}

/// A fetch authenticates again after a refusal exactly when the refusal is
/// a 401 and it still may; after that one new authentication every later
/// refusal is reported, so a fetch makes at most two requests.
pub proof fn law_reauthenticates_at_most_once(may_retry_auth: bool, first: u16, second: u16)
    ensures
        (fetch_step_spec(may_retry_auth, first) == FetchStep::Reauthenticate) <==> (first
            == UNAUTHORIZED && may_retry_auth),
        fetch_step_spec(may_retry_auth, first) == FetchStep::Reauthenticate ==> fetch_step_spec(
            may_retry_auth && fetch_step_spec(may_retry_auth, first) == FetchStep::Fail,
            second,
        ) == FetchStep::Fail,
{
}

/// What the answers `r1`, `r2`, `r3` to the successive authentication
/// requests come to: three rate limits end the authentication with 429
/// after three requests and pauses of 500 and 1000 ms; otherwise the first
/// answer that is no rate limit decides at once, reading the body of a
/// success and failing with any other status.
pub proof fn law_authentication_sequence(r1: u16, r2: u16, r3: u16)
    ensures
        r1 == TOO_MANY_REQUESTS ==> auth_step_spec(0, r1) == (AuthStep::RetryAfter { delay_millis: 500 }),
        r1 == TOO_MANY_REQUESTS && r2 == TOO_MANY_REQUESTS ==> auth_step_spec(1, r2) == (
        AuthStep::RetryAfter { delay_millis: 1000 }),
        r1 == TOO_MANY_REQUESTS && r2 == TOO_MANY_REQUESTS && r3 == TOO_MANY_REQUESTS
            ==> auth_step_spec(2, r3) == AuthStep::Fail(TOO_MANY_REQUESTS),
        r1 != TOO_MANY_REQUESTS ==> auth_step_spec(0, r1) == first_answer_step(r1),
        r1 == TOO_MANY_REQUESTS && r2 != TOO_MANY_REQUESTS ==> auth_step_spec(1, r2)
            == first_answer_step(r2),
        r1 == TOO_MANY_REQUESTS && r2 == TOO_MANY_REQUESTS && r3 != TOO_MANY_REQUESTS
            ==> auth_step_spec(2, r3) == first_answer_step(r3),
{
}

/// The step that an answer other than a rate limit leads to.
pub open spec fn first_answer_step(status: u16) -> AuthStep {
    if is_success_status(status) {
        AuthStep::ReadBody
    } else {
        AuthStep::Fail(status)
    }
}

/// Refuses a body over the size limit with status 413.
pub fn check_body_size(len: usize) -> (r: Result<(), u16>)
    ensures
        r == (if len > MAX_RESPONSE_SIZE {
            Err::<(), u16>(PAYLOAD_TOO_LARGE)
        } else {
            Ok::<(), u16>(())
        }),
{
    if len > MAX_RESPONSE_SIZE {
        Err(PAYLOAD_TOO_LARGE)
    } else {
        Ok(())
    }
}

/// Refuses a fetch whose status is not a success, reporting the status.
pub fn check_fetch_status(status: u16) -> (r: Result<(), u16>)
    ensures
        r == (if is_success_status(status) {
            Ok::<(), u16>(())
        } else {
            Err::<(), u16>(status)
        }),
{
    if 200 <= status && status <= 299 {
        Ok(())
    } else {
        Err(status)
    }
}

/// Whether a fetch refused with `status` is retried after a new
/// authentication: only a 401, and only once.
pub fn retry_after_refusal(status: u16, may_retry_auth: bool) -> (r: bool)
    ensures
        r == (status == UNAUTHORIZED && may_retry_auth),
{
    status == UNAUTHORIZED && may_retry_auth
}

/// A session granted by the API: its id, and the instant (in milliseconds of
/// the client's own clock) from which it no longer holds.
#[derive(Debug)]
pub struct Session {
    session_id: String,
    expires_at_millis: u128,
}

/// The session that the client holds, if any.
#[derive(Debug)]
pub struct SessionStore {
    current: Option<Session>,
}

/// A held session as plain values: its id and its expiry instant.
pub type SessionView = Option<(Seq<char>, int)>;

impl View for SessionStore {
    type V = SessionView;

    closed spec fn view(&self) -> SessionView {
        match self.current {
            Some(s) => Some((s.session_id@, s.expires_at_millis as int)),
            None => None,
        }
    }
}

/// A session is valid while the clock has not reached its expiry.
pub open spec fn valid_at(s: SessionView, now_millis: int) -> bool {
    match s {
        Some((_, expires)) => now_millis < expires,
        None => false,
    }
}

/// The id sent with each fetch: the held session's, or empty.
pub open spec fn session_id_spec(s: SessionView) -> Seq<char> {
    match s {
        Some((id, _)) => id,
        None => Seq::empty(),
    }
}

/// The session stored by a successful authentication at `now_millis` that
/// the API granted for `validity_secs` seconds.
pub open spec fn granted(session_id: Seq<char>, now_millis: int, validity_secs: int) -> SessionView {
    Some((session_id, now_millis + validity_secs * 1000))
}

impl SessionStore {
    /// A store that holds no session.
    pub fn new() -> (r: SessionStore)
        ensures
            r@ == None::<(Seq<char>, int)>,
    {
        SessionStore { current: None }
    }

    /// Whether the held session is still valid at `now_millis`.
    pub fn session_valid(&self, now_millis: u64) -> (r: bool)
        ensures
            r == valid_at(self@, now_millis as int),
    {
        match &self.current {
            Some(s) => (now_millis as u128) < s.expires_at_millis,
            None => false,
        }
    }

    /// Whether a fetch at `now_millis` must first authenticate.
    pub fn needs_authentication(&self, now_millis: u64) -> (r: bool)
        ensures
            r == !valid_at(self@, now_millis as int),
    {
        !self.session_valid(now_millis)
    }

    /// The session id to send with a fetch; empty when none is held.
    pub fn session_id(&self) -> (r: String)
        ensures
            r@ == session_id_spec(self@),
    {
        match &self.current {
            Some(s) => to_owned_string(s.session_id.as_str()),
            None => String::new(),
        }
    }

    /// Forgets the held session.
    pub fn clear_session(&mut self)
        ensures
            final(self)@ == None::<(Seq<char>, int)>,
    {
        self.current = None;
    }

    /// Records the answer to an authentication made at `now_millis`: a valid
    /// session is held from then on for `validity_secs` seconds; an answer
    /// that says the session is not valid is refused (`false`) and leaves the
    /// store as it was.
    pub fn record_authentication(
        &mut self,
        valid: bool,
        session_id: String,
        validity_secs: u64,
        now_millis: u64,
    ) -> (accepted: bool)
        ensures
            accepted == valid,
            valid ==> final(self)@ == granted(
                session_id@,
                now_millis as int,
                validity_secs as int,
            ),
            !valid ==> final(self)@ == old(self)@,
    {
        if !valid {
            return false;
        }
        let expires = (now_millis as u128) + (validity_secs as u128) * 1000;
        self.current = Some(Session { session_id, expires_at_millis: expires });
        true
    }
}

/// A session recorded at `now_millis` for `validity_secs` seconds holds
/// exactly until that many seconds have passed, and its id is the one sent
/// with later fetches.
pub proof fn law_session_holds_until_expiry(
    session_id: Seq<char>,
    now_millis: int,
    validity_secs: int,
    t: int,
)
    ensures
        valid_at(granted(session_id, now_millis, validity_secs), t) <==> t < now_millis
            + validity_secs * 1000,
        session_id_spec(granted(session_id, now_millis, validity_secs)) == session_id,
{
}

/// A client without a session, or whose session was cleared, is never
/// authenticated and sends an empty session id.
pub proof fn law_no_session_is_never_valid(t: int)
    ensures
        !valid_at(None, t),
        session_id_spec(None) == Seq::<char>::empty(),
{
}

/// Authentication that keeps being rate limited ends after the last attempt
/// with status 429; the pauses before the later attempts grow by half a
/// second each.
pub proof fn law_auth_rate_limit_bounded(attempt: u32)
    requires
        attempt < AUTH_MAX_ATTEMPTS,
    ensures
        attempt + 1 < AUTH_MAX_ATTEMPTS ==> auth_step_spec(attempt, TOO_MANY_REQUESTS)
            == (AuthStep::RetryAfter { delay_millis: (500 * (attempt + 1)) as u64 }),
        attempt + 1 == AUTH_MAX_ATTEMPTS ==> auth_step_spec(attempt, TOO_MANY_REQUESTS)
            == AuthStep::Fail(TOO_MANY_REQUESTS),
{
}

} // verus!
