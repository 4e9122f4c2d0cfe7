//! The glucose-service session manager: credentials, derived identifiers, the cached
//! session record, the three request bodies, and the interpretation of each reply.
//!
//! The manager never performs I/O itself. Each exchange is a step: the manager hands
//! out the request to send, and the caller hands back the service's reply (its body,
//! and what that body decoded to), from which the manager decides the next state.
use vstd::prelude::*;
use crate::status::{decimal, push_decimal};
use crate::json::{decode_json_string, json_quoted, json_string_of, quote_json};

verus! {

/// The application identifier sent with every derivation request.
pub const APPLICATION_ID: &'static str = "d89443d2-327c-4a6f-89e5-496bbb0317db";

/// The endpoint that derives an account identifier from the credentials.
pub const ACCOUNT_ID_URL: &'static str =
    "https://share2.dexcom.com/ShareWebServices/Services/General/AuthenticatePublisherAccount";

/// The endpoint that derives a session identifier from the account identifier.
pub const SESSION_ID_URL: &'static str =
    "https://share2.dexcom.com/ShareWebServices/Services/General/LoginPublisherAccountById";

/// The endpoint that returns the latest glucose readings.
pub const MEASURE_GLUCOSE_URL: &'static str =
    "https://share2.dexcom.com/ShareWebServices/Services/Publisher/ReadPublisherLatestGlucoseValues";

/// Every failure the manager reports.
#[derive(Debug, Clone, PartialEq, Eq)]
pub enum Error {
    /// The service rejected the username or password.
    InvalidPassword,
    /// The service refuses further authentication attempts.
    MaxAuthenticationAttemptsReached,
    /// The service does not know the session identifier.
    SessionNotFound,
    /// The session identifier is no longer active.
    SessionInvalid,
    /// The username was empty.
    ArgUsername,
    /// The password was empty.
    ArgPassword,
    /// The session kept expiring: `MAX_RENEWALS` renewals in a row went unanswered.
    MaxRetriesReached,
    /// The service reported an error code outside the known set; holds that code.
    UnknownCode(String),
    /// The reply fit no expected shape; holds the whole body.
    Unknown(String),
    /// The exchange itself failed (connection, timeout, malformed HTTP).
    Transport(String),
}

/// An error code as the service writes it in the `Code` field of an error object.
#[derive(Debug, Clone, PartialEq, Eq)]
pub enum RemoteCode {
    InvalidPassword,
    MaxAuthenticationAttemptsReached,
    SessionNotFound,
    SessionInvalid,
    Unrecognized(String),
}

/// The wire code for a `Code` field's text.
pub open spec fn remote_code_of(code: String) -> RemoteCode {
    if code@ == "AccountPasswordInvalid"@ {
        RemoteCode::InvalidPassword
    } else if code@ == "MaxAuthenticationAttemptsReached"@ {
        RemoteCode::MaxAuthenticationAttemptsReached
    } else if code@ == "SessionIdNotFound"@ {
        RemoteCode::SessionNotFound
    } else if code@ == "SessionNotValid"@ {
        RemoteCode::SessionInvalid
    } else {
        RemoteCode::Unrecognized(code)
    }
}

/// The error reported for a wire code.
pub open spec fn error_of_code(code: RemoteCode) -> Error {
    match code {
        RemoteCode::InvalidPassword => Error::InvalidPassword,
        RemoteCode::MaxAuthenticationAttemptsReached => Error::MaxAuthenticationAttemptsReached,
        RemoteCode::SessionNotFound => Error::SessionNotFound,
        RemoteCode::SessionInvalid => Error::SessionInvalid,
        RemoteCode::Unrecognized(c) => Error::UnknownCode(c),
    }
}

impl RemoteCode {
    /// Reads the text of a `Code` field; any text outside the known set is kept as is.
    pub fn from_code(code: String) -> (r: RemoteCode)
        ensures
            r == remote_code_of(code),
    {
        if code == String::from_str("AccountPasswordInvalid") {
            RemoteCode::InvalidPassword
        } else if code == String::from_str("MaxAuthenticationAttemptsReached") {
            RemoteCode::MaxAuthenticationAttemptsReached
        } else if code == String::from_str("SessionIdNotFound") {
            RemoteCode::SessionNotFound
        } else if code == String::from_str("SessionNotValid") {
            RemoteCode::SessionInvalid
        } else {
            RemoteCode::Unrecognized(code)
        }
    }
}

impl Error {
    /// The error that a wire code stands for.
    pub fn from_remote(code: RemoteCode) -> (r: Error)
        ensures
            r == error_of_code(code),
    {
        match code {
            RemoteCode::InvalidPassword => Error::InvalidPassword,
            RemoteCode::MaxAuthenticationAttemptsReached => Error::MaxAuthenticationAttemptsReached,
            RemoteCode::SessionNotFound => Error::SessionNotFound,
            RemoteCode::SessionInvalid => Error::SessionInvalid,
            RemoteCode::Unrecognized(c) => Error::UnknownCode(c),
        }
    }
}

/// A single glucose reading as the service returns it.
#[derive(Debug, Clone, PartialEq, Eq)]
pub struct GlucoseMeasurement {
    /// The wall time of the reading (`WT`).
    pub wt: String,
    /// The system time of the reading (`ST`).
    pub st: String,
    /// The display time of the reading (`DT`).
    pub dt: String,
    /// The glucose value in mg/dL (`Value`).
    pub value: u32,
    /// The direction the value is moving in (`Trend`).
    pub trend: String,
}

/// An error object in a reply: `{Code, Message, SubCode, TypeName}`.
#[derive(Debug, Clone, PartialEq, Eq)]
pub struct ErrorResponse {
    pub code: String,
    pub message: String,
    pub description: String,
    pub kind: String,
}

/// A reply of the service: its whole body, and what the body decoded to as a list of
/// readings and as an error object (`None` where it is not one).
#[derive(Debug, Clone, PartialEq, Eq)]
pub struct Reply {
    pub body: String,
    pub readings: Option<Vec<GlucoseMeasurement>>,
    pub failure: Option<ErrorResponse>,
}

/// The error for a reply that is not the success shape: the error object's code if the
/// body is one, else the whole body.
pub open spec fn failure_error(body: String, failure: Option<ErrorResponse>) -> Error {
    match failure {
        Some(e) => error_of_code(remote_code_of(e.code)),
        None => Error::Unknown(body),
    }
}

/// Decides a reply that is not the success shape.
pub fn reply_failure(body: String, failure: Option<ErrorResponse>) -> (r: Error)
    ensures
        r == failure_error(body, failure),
{
    match failure {
        Some(e) => Error::from_remote(RemoteCode::from_code(e.code)),
        None => Error::Unknown(body),
    }
}

/// Decides an identifier reply, given what its body decoded to as a JSON string:
/// that string first, then the error object, then the raw body.
pub fn interpret_identifier(body: String, as_string: Option<String>, failure: Option<ErrorResponse>) -> (r: Result<String, Error>)
    ensures
        r == (match as_string {
            Some(id) => Ok(id),
            None => Err(failure_error(body, failure)),
        }),
{
    match as_string {
        Some(id) => Ok(id),
        None => Err(reply_failure(body, failure)),
    }
}

/// Decides the reply to an identifier derivation: the identifier if the body is a bare
/// JSON string, else the error it reports.
pub fn identifier_reply(reply: Reply) -> (r: Result<String, Error>)
    ensures
        match r {
            Ok(id) => json_string_of(reply.body@) == Some(id@),
            Err(e) => json_string_of(reply.body@) is None
                && e == failure_error(reply.body, reply.failure),
        },
{
    let decoded = decode_json_string(reply.body.as_str());
    interpret_identifier(reply.body, decoded, reply.failure)
}


/// How far back the readings query looks, in minutes.
pub const DEFAULT_MINUTES: u32 = 60;

/// How many readings the readings query asks for at most.
pub const DEFAULT_MAX_COUNT: u32 = 1;

/// A request to send: a POST of `body` (JSON) to `url`.
#[derive(Debug, Clone, PartialEq, Eq)]
pub struct Request {
    pub url: String,
    pub body: String,
}

impl View for Request {
    type V = (Seq<char>, Seq<char>);

    open spec fn view(&self) -> (Seq<char>, Seq<char>) {
        (self.url@, self.body@)
    }
}

/// The body of the account identifier request.
pub open spec fn account_request_body(username: Seq<char>, password: Seq<char>) -> Seq<char> {
    "{\"accountName\":"@ + json_quoted(username) + ",\"password\":"@ + json_quoted(password)
        + ",\"applicationId\":"@ + json_quoted(APPLICATION_ID@) + "}"@
}

/// The body of the session identifier request.
pub open spec fn session_request_body(account_id: Seq<char>, password: Seq<char>) -> Seq<char> {
    "{\"accountId\":"@ + json_quoted(account_id) + ",\"password\":"@ + json_quoted(password)
        + ",\"applicationId\":"@ + json_quoted(APPLICATION_ID@) + "}"@
}

/// The body of the latest-readings request.
pub open spec fn readings_request_body(session_id: Seq<char>) -> Seq<char> {
    "{\"sessionId\":"@ + json_quoted(session_id) + ",\"minutes\":"@ + decimal(
        DEFAULT_MINUTES as nat,
    ) + ",\"maxCount\":"@ + decimal(DEFAULT_MAX_COUNT as nat) + "}"@
}

/// The request that derives an account identifier.
pub open spec fn account_request(username: Seq<char>, password: Seq<char>) -> (Seq<char>, Seq<char>) {
    (ACCOUNT_ID_URL@, account_request_body(username, password))
}

/// The request that derives a session identifier.
pub open spec fn session_request(account_id: Seq<char>, password: Seq<char>) -> (Seq<char>, Seq<char>) {
    (SESSION_ID_URL@, session_request_body(account_id, password))
}

/// The request for the latest readings of a session.
pub open spec fn readings_request(session_id: Seq<char>) -> (Seq<char>, Seq<char>) {
    (MEASURE_GLUCOSE_URL@, readings_request_body(session_id))
}

/// Builds the account identifier request.
pub fn account_id_request(username: &str, password: &str) -> (r: Request)
    ensures
        r@ == account_request(username@, password@),
{
    let mut body = String::from_str("{\"accountName\":");
    body.append(quote_json(username).as_str());
    body.append(",\"password\":");
    body.append(quote_json(password).as_str());
    body.append(",\"applicationId\":");
    body.append(quote_json(APPLICATION_ID).as_str());
    body.append("}");
    let r = Request { url: String::from_str(ACCOUNT_ID_URL), body };
    assert(r.body@ =~= account_request_body(username@, password@));
    r
}

/// Builds the session identifier request.
pub fn session_id_request(account_id: &str, password: &str) -> (r: Request)
    ensures
        r@ == session_request(account_id@, password@),
{
    let mut body = String::from_str("{\"accountId\":");
    body.append(quote_json(account_id).as_str());
    body.append(",\"password\":");
    body.append(quote_json(password).as_str());
    body.append(",\"applicationId\":");
    body.append(quote_json(APPLICATION_ID).as_str());
    body.append("}");
    let r = Request { url: String::from_str(SESSION_ID_URL), body };
    assert(r.body@ =~= session_request_body(account_id@, password@));
    r
}

/// Builds the latest-readings request.
pub fn measure_glucose_request(session_id: &str) -> (r: Request)
    ensures
        r@ == readings_request(session_id@),
{
    let mut body = String::from_str("{\"sessionId\":");
    body.append(quote_json(session_id).as_str());
    body.append(",\"minutes\":");
    push_decimal(&mut body, DEFAULT_MINUTES);
    body.append(",\"maxCount\":");
    push_decimal(&mut body, DEFAULT_MAX_COUNT);
    body.append("}");
    let r = Request { url: String::from_str(MEASURE_GLUCOSE_URL), body };
    assert(r.body@ =~= readings_request_body(session_id@));
    r
}


/// The persisted record of the identifiers derived for one username.
#[derive(Debug, Clone, PartialEq, Eq)]
pub struct SessionCache {
    pub username: String,
    pub account_id: String,
    pub session_id: String,
}

/// A stored record is usable only for the username it was derived for.
pub open spec fn cache_valid_for(stored: Option<SessionCache>, username: Seq<char>) -> Option<SessionCache> {
    match stored {
        Some(c) => if c.username@ == username {
            Some(c)
        } else {
            None
        },
        None => None,
    }
}

impl SessionCache {
    /// Keeps a loaded record only if it belongs to `username`; a missing or foreign
    /// record means the identifiers must be derived afresh.
    pub fn try_load_cache(stored: Option<SessionCache>, username: &str) -> (r: Option<SessionCache>)
        ensures
            r == cache_valid_for(stored, username@),
    {
        match stored {
            Some(c) => {
                if c.username == String::from_str(username) {
                    Some(c)
                } else {
                    None
                }
            },
            None => None,
        }
    }
}

/// What the manager holds: the credentials and both derived identifiers.
pub struct ApiView {
    pub username: Seq<char>,
    pub password: Seq<char>,
    pub account_id: Seq<char>,
    pub session_id: Seq<char>,
    /// Session renewals since the last answered query.
    pub renewals: nat,
}

/// How many session renewals in a row the manager makes before it reports
/// `MaxRetriesReached` instead of renewing again.
pub const MAX_RENEWALS: u32 = 3;

/// The manager of a session with the glucose service, ready to query readings.
#[derive(Debug)]
pub struct Api {
    password: String,
    cache: SessionCache,
    renewals: u32,
}

impl View for Api {
    type V = ApiView;

    closed spec fn view(&self) -> ApiView {
        ApiView {
            username: self.cache.username@,
            password: self.password@,
            account_id: self.cache.account_id@,
            session_id: self.cache.session_id@,
            renewals: self.renewals as nat,
        }
    }
}

/// A construction still deriving its identifiers: the account identifier is absent
/// until the first derivation succeeds.
pub struct LoginView {
    pub username: Seq<char>,
    pub password: Seq<char>,
    pub account_id: Option<Seq<char>>,
}

/// A manager under construction, deriving its identifiers from the credentials.
#[derive(Debug)]
pub struct Login {
    username: String,
    password: String,
    account_id: Option<String>,
}

impl View for Login {
    type V = LoginView;

    closed spec fn view(&self) -> LoginView {
        LoginView {
            username: self.username@,
            password: self.password@,
            account_id: match self.account_id {
                Some(a) => Some(a@),
                None => None,
            },
        }
    }
}

/// The result of construction: a manager that adopted a valid cached record, or a
/// login that must derive both identifiers.
#[derive(Debug)]
pub enum Startup {
    Ready(Api),
    Login(Login),
}

pub enum StartupView {
    Ready(ApiView),
    Login(LoginView),
}

impl View for Startup {
    type V = StartupView;

    open spec fn view(&self) -> StartupView {
        match self {
            Startup::Ready(a) => StartupView::Ready(a@),
            Startup::Login(l) => StartupView::Login(l@),
        }
    }
}

/// What construction yields for the credentials and the loaded record.
pub open spec fn startup_outcome(
    username: Seq<char>,
    password: Seq<char>,
    stored: Option<SessionCache>,
) -> Result<StartupView, Error> {
    if username.len() == 0 {
        Err(Error::ArgUsername)
    } else if password.len() == 0 {
        Err(Error::ArgPassword)
    } else {
        match cache_valid_for(stored, username) {
            Some(c) => Ok(
                StartupView::Ready(
                    ApiView {
                        username,
                        password,
                        account_id: c.account_id@,
                        session_id: c.session_id@,
                        renewals: 0,
                    },
                ),
            ),
            None => Ok(StartupView::Login(LoginView { username, password, account_id: None })),
        }
    }
}

/// The next request of a login: the account identifier first, then the session identifier.
pub open spec fn login_request(l: LoginView) -> (Seq<char>, Seq<char>) {
    match l.account_id {
        None => account_request(l.username, l.password),
        Some(a) => session_request(a, l.password),
    }
}

/// A step of construction after a derivation reply.
#[derive(Debug)]
pub enum LoginStep {
    /// The account identifier is known; the session identifier comes next.
    Continue(Login),
    /// Both identifiers are known: the manager is ready and its record is to be saved.
    Done(Api),
    /// A derivation failed; construction ends with this error.
    Failed(Error),
}

pub enum LoginStepView {
    Continue(LoginView),
    Done(ApiView),
    Failed(Error),
}

impl View for LoginStep {
    type V = LoginStepView;

    open spec fn view(&self) -> LoginStepView {
        match self {
            LoginStep::Continue(l) => LoginStepView::Continue(l@),
            LoginStep::Done(a) => LoginStepView::Done(a@),
            LoginStep::Failed(e) => LoginStepView::Failed(*e),
        }
    }
}

/// Where a login goes once a derivation reply decoded to `derived` (or to no
/// identifier, in which case `failure` is the error the reply reports).
pub open spec fn login_advance(l: LoginView, derived: Option<Seq<char>>, failure: Error) -> LoginStepView {
    match derived {
        None => LoginStepView::Failed(failure),
        Some(id) => match l.account_id {
            None => LoginStepView::Continue(
                LoginView { username: l.username, password: l.password, account_id: Some(id) },
            ),
            Some(a) => LoginStepView::Done(
                ApiView {
                    username: l.username,
                    password: l.password,
                    account_id: a,
                    session_id: id,
                    renewals: 0,
                },
            ),
        },
    }
}

impl Api {
    /// Starts a manager for the credentials, given the record loaded from the cache
    /// store (if any). Empty credentials are refused before anything else; a record for
    /// this username is adopted as is; otherwise both identifiers must be derived.
    pub fn new(username: &str, password: &str, stored: Option<SessionCache>) -> (r: Result<Startup, Error>)
        ensures
            match r {
                Ok(s) => startup_outcome(username@, password@, stored) == Ok::<StartupView, Error>(s@),
                Err(e) => startup_outcome(username@, password@, stored) == Err::<StartupView, Error>(e),
            },
    {
        if username.is_empty() {
            return Err(Error::ArgUsername);
        }
        if password.is_empty() {
            return Err(Error::ArgPassword);
        }
        match SessionCache::try_load_cache(stored, username) {
            Some(cache) => {
                let api = Api { password: String::from_str(password), cache, renewals: 0 };
                Ok(Startup::Ready(api))
            },
            None => {
                let login = Login {
                    username: String::from_str(username),
                    password: String::from_str(password),
                    account_id: None,
                };
                Ok(Startup::Login(login))
            },
        }
    }

    /// The record to persist for this manager.
    pub fn cache(&self) -> (r: &SessionCache)
        ensures
            r.username@ == self@.username,
            r.account_id@ == self@.account_id,
            r.session_id@ == self@.session_id,
    {
        &self.cache
    }
}

impl Login {
    /// The derivation request to send next.
    pub fn request(&self) -> (r: Request)
        ensures
            r@ == login_request(self@),
    {
        match &self.account_id {
            None => account_id_request(self.username.as_str(), self.password.as_str()),
            Some(a) => session_id_request(a.as_str(), self.password.as_str()),
        }
    }

    /// Takes the reply to the request of `request` and moves construction on.
    pub fn on_reply(self, reply: Reply) -> (r: LoginStep)
        ensures
            r@ == login_advance(self@, json_string_of(reply.body@), failure_error(reply.body, reply.failure)),
    {
        match identifier_reply(reply) {
            Err(e) => LoginStep::Failed(e),
            Ok(id) => match self.account_id {
                None => LoginStep::Continue(
                    Login { username: self.username, password: self.password, account_id: Some(id) },
                ),
                Some(a) => LoginStep::Done(
                    Api {
                        password: self.password,
                        cache: SessionCache { username: self.username, account_id: a, session_id: id },
                        renewals: 0,
                    },
                ),
            },
        }
    }
}

/// The outcome of a latest-readings exchange.
#[derive(Debug)]
pub enum Poll {
    /// The query is answered: the latest reading, none in the window, or an error.
    Done(Result<Option<GlucoseMeasurement>, Error>),
    /// The session expired: send this session derivation request, then hand its reply
    /// to `finish_renewal`.
    Renew(Request),
}

pub enum PollView {
    Done(Result<Option<GlucoseMeasurement>, Error>),
    Renew((Seq<char>, Seq<char>)),
}

impl View for Poll {
    type V = PollView;

    open spec fn view(&self) -> PollView {
        match self {
            Poll::Done(r) => PollView::Done(*r),
            Poll::Renew(q) => PollView::Renew(q@),
        }
    }
}

/// The first reading of a list, if any.
pub open spec fn first_reading(readings: Seq<GlucoseMeasurement>) -> Option<GlucoseMeasurement> {
    if readings.len() == 0 {
        None
    } else {
        Some(readings[0])
    }
}

/// Whether an error object reports an expired session.
pub open spec fn reports_session_invalid(failure: Option<ErrorResponse>) -> bool {
    match failure {
        Some(e) => remote_code_of(e.code) == RemoteCode::SessionInvalid,
        None => false,
    }
}

/// How a manager decides a readings reply: a list of readings answers with its first
/// element; an expired session asks for a renewal, unless `MAX_RENEWALS` renewals have
/// gone unanswered already; anything else is its error.
pub open spec fn poll_outcome(
    api: ApiView,
    body: String,
    readings: Option<Seq<GlucoseMeasurement>>,
    failure: Option<ErrorResponse>,
) -> PollView {
    match readings {
        Some(list) => PollView::Done(Ok(first_reading(list))),
        None => if !reports_session_invalid(failure) {
            PollView::Done(Err(failure_error(body, failure)))
        } else if api.renewals < MAX_RENEWALS {
            PollView::Renew(session_request(api.account_id, api.password))
        } else {
            PollView::Done(Err(Error::MaxRetriesReached))
        },
    }
}

/// The manager after a readings reply: an answered query, or a renewal refused for
/// reaching the cap, starts the renewal count afresh; nothing else changes.
pub open spec fn polled(
    api: ApiView,
    readings: Option<Seq<GlucoseMeasurement>>,
    failure: Option<ErrorResponse>,
) -> ApiView {
    if readings is Some || (reports_session_invalid(failure) && api.renewals >= MAX_RENEWALS) {
        ApiView { renewals: 0, ..api }
    } else {
        api
    }
}

/// The readings of a reply, as a sequence.
pub open spec fn readings_of(readings: Option<Vec<GlucoseMeasurement>>) -> Option<Seq<GlucoseMeasurement>> {
    match readings {
        Some(v) => Some(v@),
        None => None,
    }
}

/// The outcome of a session renewal.
#[derive(Debug)]
pub struct Renewal {
    /// The session identifier changed and the record is to be saved.
    pub persist: bool,
    /// What the query that found the session expired reports: the expiry itself once
    /// the session is renewed, or the renewal's own error.
    pub error: Error,
}

/// The identifiers after a renewal reply that decoded to `derived`.
pub open spec fn renewed(api: ApiView, derived: Option<Seq<char>>) -> ApiView {
    match derived {
        Some(id) => ApiView {
            session_id: id,
            renewals: if api.renewals < MAX_RENEWALS {
                api.renewals + 1
            } else {
                api.renewals
            },
            ..api
        },
        None => api,
    }
}

/// What a renewal reply that decoded to `derived` (or else reports `failure`) yields:
/// whether the record is to be saved, and the error the query reports.
pub open spec fn renewal_report(derived: Option<Seq<char>>, failure: Error) -> (bool, Error) {
    match derived {
        Some(_) => (true, Error::SessionInvalid),
        None => (false, failure),
    }
}

impl Api {
    /// The latest-readings request for the current session.
    pub fn get_latest_glucose_request(&self) -> (r: Request)
        ensures
            r@ == readings_request(self@.session_id),
    {
        measure_glucose_request(self.cache.session_id.as_str())
    }

    /// Decides the reply to the latest-readings request: an array of readings gives its
    /// first element (none when empty); an error object reporting an expired session
    /// asks for one session renewal (or, past `MAX_RENEWALS` unanswered renewals, gives
    /// `MaxRetriesReached`); any other error object gives its error; any other body gives
    /// `Unknown` with the body.
    pub fn get_latest_glucose(&mut self, reply: Reply) -> (r: Poll)
        ensures
            r@ == poll_outcome(old(self)@, reply.body, readings_of(reply.readings), reply.failure),
            final(self)@ == polled(old(self)@, readings_of(reply.readings), reply.failure),
    {
        match reply.readings {
            Some(mut list) => {
                self.renewals = 0;
                if list.len() == 0 {
                    Poll::Done(Ok(None))
                } else {
                    Poll::Done(Ok(Some(list.remove(0))))
                }
            },
            None => {
                let code = match &reply.failure {
                    Some(e) => Some(RemoteCode::from_code(e.code.clone())),
                    None => None,
                };
                match code {
                    Some(RemoteCode::SessionInvalid) => if self.renewals < MAX_RENEWALS {
                        Poll::Renew(
                            session_id_request(self.cache.account_id.as_str(), self.password.as_str()),
                        )
                    } else {
                        self.renewals = 0;
                        Poll::Done(Err(Error::MaxRetriesReached))
                    },
                    _ => Poll::Done(Err(reply_failure(reply.body, reply.failure))),
                }
            },
        }
    }

    /// Takes the reply to the renewal request of `get_latest_glucose`: a derived session
    /// identifier replaces the current one and is to be saved, and the query still
    /// reports the expired session; a failed derivation leaves the manager as it was and
    /// reports its own error.
    pub fn finish_renewal(&mut self, reply: Reply) -> (r: Renewal)
        ensures
            final(self)@ == renewed(old(self)@, json_string_of(reply.body@)),
            (r.persist, r.error) == renewal_report(
                json_string_of(reply.body@),
                failure_error(reply.body, reply.failure),
            ),
    {
        match identifier_reply(reply) {
            Ok(id) => {
                self.cache.session_id = id;
                if self.renewals < MAX_RENEWALS {
                    self.renewals = self.renewals + 1;
                }
                Renewal { persist: true, error: Error::SessionInvalid }
            },
            Err(e) => Renewal { persist: false, error: e },
        }
    }
}

/// Empty credentials are refused with the matching validation error, before any
/// request exists to be sent.
pub proof fn empty_credentials_are_refused(
    username: Seq<char>,
    password: Seq<char>,
    stored: Option<SessionCache>,
)
    requires
        username.len() == 0 || password.len() == 0,
    ensures
        startup_outcome(username, password, stored) == Err::<StartupView, Error>(
            if username.len() == 0 {
                Error::ArgUsername
            } else {
                Error::ArgPassword
            },
        ),
{
}

/// A record derived for another username is ignored: construction derives the account
/// identifier, then the session identifier, and only then is ready.
pub proof fn foreign_record_derives_both_identifiers(
    username: Seq<char>,
    password: Seq<char>,
    stored: SessionCache,
    account_id: Seq<char>,
    session_id: Seq<char>,
    failure: Error,
)
    requires
        username.len() > 0,
        password.len() > 0,
        stored.username@ != username,
    ensures
        ({
            let first = LoginView { username, password, account_id: None };
            let second = LoginView { username, password, account_id: Some(account_id) };
            &&& startup_outcome(username, password, Some(stored)) == Ok::<StartupView, Error>(
                StartupView::Login(first),
            )
            &&& login_request(first) == account_request(username, password)
            &&& login_advance(first, Some(account_id), failure) == LoginStepView::Continue(second)
            &&& login_request(second) == session_request(account_id, password)
            &&& login_advance(second, Some(session_id), failure) == LoginStepView::Done(
                ApiView { username, password, account_id, session_id, renewals: 0 },
            )
        }),
{
}

/// A record derived for the same username is adopted as it is: the manager is ready
/// without any derivation, holding the record's identifiers.
pub proof fn matching_record_needs_no_derivation(
    username: Seq<char>,
    password: Seq<char>,
    stored: SessionCache,
)
    requires
        username.len() > 0,
        password.len() > 0,
        stored.username@ == username,
    ensures
        startup_outcome(username, password, Some(stored)) == Ok::<StartupView, Error>(
            StartupView::Ready(
                ApiView {
                    username,
                    password,
                    account_id: stored.account_id@,
                    session_id: stored.session_id@,
                    renewals: 0,
                },
            ),
        ),
{
}

/// A record saved from a manager and loaded again for its username is kept as it is,
/// and the manager built from it holds the same identifiers, field for field.
pub proof fn saved_record_reloads_unchanged(record: SessionCache, password: Seq<char>)
    requires
        record.username@.len() > 0,
        password.len() > 0,
    ensures
        cache_valid_for(Some(record), record.username@) == Some(record),
        startup_outcome(record.username@, password, Some(record)) == Ok::<StartupView, Error>(
            StartupView::Ready(
                ApiView {
                    username: record.username@,
                    password,
                    account_id: record.account_id@,
                    session_id: record.session_id@,
                    renewals: 0,
                },
            ),
        ),
{
}

/// An empty list of readings answers with no reading; a list of one answers with that
/// reading, unchanged.
pub proof fn readings_answer_with_their_first(
    api: ApiView,
    body: String,
    reading: GlucoseMeasurement,
    failure: Option<ErrorResponse>,
)
    ensures
        poll_outcome(api, body, Some(Seq::empty()), failure) == PollView::Done(
            Ok::<Option<GlucoseMeasurement>, Error>(None),
        ),
        poll_outcome(api, body, Some(seq![reading]), failure) == PollView::Done(
            Ok::<Option<GlucoseMeasurement>, Error>(Some(reading)),
        ),
{
}

/// An expired session reported for a readings query (below the renewal cap) leads to
/// exactly one session derivation request and leaves the manager as it was; once the
/// derivation succeeds the new identifier replaces the old, the record is saved once,
/// and the query reports the expired session rather than a reading.
pub proof fn expired_session_is_renewed_once(
    api: ApiView,
    body: String,
    failure: ErrorResponse,
    session_id: Seq<char>,
    renewal_failure: Error,
)
    requires
        remote_code_of(failure.code) == RemoteCode::SessionInvalid,
        api.renewals < MAX_RENEWALS,
    ensures
        poll_outcome(api, body, None, Some(failure)) == PollView::Renew(
            session_request(api.account_id, api.password),
        ),
        polled(api, None, Some(failure)) == api,
        renewed(api, Some(session_id)) == (ApiView {
            username: api.username,
            password: api.password,
            account_id: api.account_id,
            session_id,
            renewals: api.renewals + 1,
        }),
        renewal_report(Some(session_id), renewal_failure) == (true, Error::SessionInvalid),
{
}

/// A session that keeps expiring is renewed at most `MAX_RENEWALS` times in a row:
/// from a manager whose query was last answered, each expiry followed by a successful
/// renewal leads to the next renewal request until the cap, where the query reports
/// `MaxRetriesReached` and the count starts afresh.
pub proof fn renewals_stop_at_the_cap(
    api: ApiView,
    body: String,
    failure: ErrorResponse,
    session_ids: Seq<Seq<char>>,
)
    requires
        remote_code_of(failure.code) == RemoteCode::SessionInvalid,
        api.renewals == 0,
        session_ids.len() == MAX_RENEWALS,
    ensures
        ({
            let once = renewed(polled(api, None, Some(failure)), Some(session_ids[0]));
            let twice = renewed(polled(once, None, Some(failure)), Some(session_ids[1]));
            let thrice = renewed(polled(twice, None, Some(failure)), Some(session_ids[2]));
            &&& poll_outcome(api, body, None, Some(failure)) is Renew
            &&& poll_outcome(once, body, None, Some(failure)) is Renew
            &&& poll_outcome(twice, body, None, Some(failure)) is Renew
            &&& poll_outcome(thrice, body, None, Some(failure)) == PollView::Done(
                Err::<Option<GlucoseMeasurement>, Error>(Error::MaxRetriesReached),
            )
            &&& polled(thrice, None, Some(failure)).renewals == 0
        }),
{
}

/// A body that is neither a JSON string, nor readings, nor an error object is reported
/// as `Unknown` with the body exactly as received, by every exchange.
pub proof fn unreadable_body_is_unknown(api: ApiView, login: LoginView, body: String)
    requires
        json_string_of(body@) is None,
    ensures
        poll_outcome(api, body, None, None) == PollView::Done(
            Err::<Option<GlucoseMeasurement>, Error>(Error::Unknown(body)),
        ),
        login_advance(login, json_string_of(body@), failure_error(body, None))
            == LoginStepView::Failed(Error::Unknown(body)),
        renewal_report(json_string_of(body@), failure_error(body, None)) == (
            false,
            Error::Unknown(body),
        ),
{
}

} // verus!
