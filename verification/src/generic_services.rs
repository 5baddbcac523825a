//! The service behind the web routes: the JSON envelope of every answer, the
//! user record, and the login procedure as a state machine whose database work
//! is done by the caller.
use crate::service::HttpStatus;
use vstd::prelude::*;

verus! {

/// The service itself; it keeps no state.
pub struct GenericService;

/// The envelope of every answer of the service: whether the request succeeded,
/// a message for the user, and an optional payload or error.
#[derive(Debug)]
pub struct ActionResult<T, E> {
    pub result: bool,
    pub message: String,
    pub data: Option<T>,
    pub error: Option<E>,
}

/// The body of a login request; both fields may be missing.
#[derive(Debug)]
pub struct LoginRequest {
    pub email: Option<String>,
    pub password: Option<String>,
}

/// A user as the service returns it. `register_date` is the UTC timestamp of
/// the registration in seconds.
#[derive(Debug, Clone)]
pub struct WebUser {
    pub auth_usernid: i32,
    pub email: String,
    pub mobile_phone: String,
    pub disabled_login: bool,
    pub picture: Option<String>,
    pub register_date: i64,
}

/// The columns of a row of the user table, each `None` where the column is
/// SQL NULL.
#[derive(Debug)]
pub struct UserRow {
    pub auth_usernid: Option<i32>,
    pub email: Option<String>,
    pub handphone: Option<String>,
    pub disable_login: Option<bool>,
    pub picture: Option<String>,
    pub register_date: Option<i64>,
}

impl<T, E> Default for ActionResult<T, E> {
    /// A failed answer with an empty message and neither payload nor error.
    fn default() -> (r: Self)
        ensures
            r.result == false,
            r.message@ == Seq::<char>::empty(),
            r.data is None,
            r.error is None,
    {
        ActionResult { result: false, message: String::new(), data: None, error: None }
    }
}

pub open spec fn text_or_empty(o: Option<String>) -> Seq<char> {
    match o {
        Some(s) => s@,
        None => Seq::empty(),
    }
}

/// The text of an optional string, or the empty string.
pub fn text_or_default(o: &Option<String>) -> (r: String)
    ensures
        r@ == text_or_empty(*o),
        o matches Some(s) ==> r@ == s@,
        o is None ==> r@.len() == 0,
{
    match o {
        Some(s) => s.clone(),
        None => String::new(),
    }
}

fn clone_optional_text(o: &Option<String>) -> (r: Option<String>)
    ensures
        r == *o,
{
    match o {
        Some(s) => Some(s.clone()),
        None => None,
    }
}

/// `u` is the user that a row describes, each missing column replaced by its
/// default: 0, "", "", false, "" and the epoch.
pub open spec fn is_user_of_row(u: WebUser, row: UserRow) -> bool {
    &&& u.auth_usernid == (match row.auth_usernid { Some(v) => v, None => 0i32 })
    &&& u.email@ == text_or_empty(row.email)
    &&& u.mobile_phone@ == text_or_empty(row.handphone)
    &&& u.disabled_login == (match row.disable_login { Some(v) => v, None => false })
    &&& u.picture matches Some(p) && p@ == text_or_empty(row.picture)
    &&& u.register_date == (match row.register_date { Some(v) => v, None => 0i64 })
}

impl WebUser {
    /// The user that a row of the user table describes.
    pub fn from_row(row: UserRow) -> (u: WebUser)
        ensures
            is_user_of_row(u, row),
    {
        let picture = text_or_default(&row.picture);
        WebUser {
            auth_usernid: match row.auth_usernid {
                Some(v) => v,
                None => 0,
            },
            email: text_or_default(&row.email),
            mobile_phone: text_or_default(&row.handphone),
            disabled_login: match row.disable_login {
                Some(v) => v,
                None => false,
            },
            picture: Some(picture),
            register_date: match row.register_date {
                Some(v) => v,
                None => 0,
            },
        }
    }
}

/// `r` is a failed answer that carries the message `message` and no payload.
pub open spec fn is_failure_with(r: ActionResult<String, String>, message: Seq<char>, error: Seq<char>) -> bool {
    &&& !r.result
    &&& r.message@ == message
    &&& r.data is None
    &&& r.error matches Some(e) && e@ == error
}


/// Where a login stands: which piece of outside work it waits for.
#[derive(PartialEq, Eq, Structural, Clone, Copy, Debug)]
pub enum LoginStage {
    AwaitingPasswordHash,
    AwaitingConnection,
    AwaitingQuery,
    AwaitingRow,
    Finished,
}

/// What the caller reports back after doing the work that a login asked for.
pub enum LoginEvent {
    /// The password was encrypted into this text.
    PasswordHashed(String),
    /// A database connection was taken from the pool.
    ConnectionOpened,
    /// No connection could be had; the text describes the error.
    ConnectionFailed(String),
    /// The user query was accepted by the database.
    QueryAccepted,
    /// The user query failed; the text describes the error.
    QueryFailed(String),
    /// The first row of the answer, if there was one.
    RowFetched(Option<UserRow>),
    /// Reading the answer failed.
    RowFetchFailed,
}

/// The work that a login asks its caller to do next.
pub enum LoginAction {
    /// Encrypt this password the way the user table stores passwords.
    HashPassword(String),
    /// Take a connection from the database pool.
    OpenConnection,
    /// Run the statement `sql` with the parameters `@P1` = `email` and
    /// `@P2` = `password_hash`, which looks up the user.
    RunQuery { sql: String, email: Option<String>, password_hash: String },
    /// Read the first row of the query's answer.
    FetchFirstRow,
    /// The login is over; answer with its result.
    Reply,
}

/// The statement that looks a user up by email (`@P1`) and encrypted
/// password (`@P2`), reading the columns of a `UserRow`.
pub open spec fn user_query_text() -> Seq<char> {
    "SELECT AuthUserNID, Email, Handphone, disableLogin, Picture, RegisterDate FROM AuthUser \n                    WHERE Email = @P1 AND Password = @P2"@
}

/// The statement that looks a user up by email and encrypted password.
pub fn user_query() -> (q: String)
    ensures
        q@ == user_query_text(),
{
    String::from_str("SELECT AuthUserNID, Email, Handphone, disableLogin, Picture, RegisterDate FROM AuthUser \n                    WHERE Email = @P1 AND Password = @P2")
}

/// A login in progress.
pub struct LoginFlow {
    pub request: LoginRequest,
    pub stage: LoginStage,
    pub password_hash: String,
    pub result: ActionResult<WebUser, String>,
}

/// The answer in which no outcome has been written yet.
pub open spec fn is_blank(r: ActionResult<WebUser, String>) -> bool {
    &&& !r.result
    &&& r.message@ == Seq::<char>::empty()
    &&& r.data is None
    &&& r.error is None
}

/// An answer that does not contradict itself: it succeeded exactly when it
/// carries a user, and one that carries an error neither succeeded nor carries a user.
pub open spec fn is_consistent(r: ActionResult<WebUser, String>) -> bool {
    &&& r.result <==> r.data is Some
    &&& r.error is Some ==> !r.result && r.data is None
}

/// The answer when no database connection could be had.
pub open spec fn is_connection_failure(r: ActionResult<WebUser, String>, text: Seq<char>) -> bool {
    &&& !r.result
    &&& r.message@ == Seq::<char>::empty()
    &&& r.data is None
    &&& r.error matches Some(e) && e@ == "Internal Server error: "@ + text
}

/// The answer when the user query failed.
pub open spec fn is_query_failure(r: ActionResult<WebUser, String>, text: Seq<char>) -> bool {
    &&& !r.result
    &&& r.message@ == Seq::<char>::empty()
    &&& r.data is None
    &&& r.error matches Some(e) && e@ == "Query execution failed: "@ + text
}

/// The answer when a user was found.
pub open spec fn is_welcome(r: ActionResult<WebUser, String>, request: LoginRequest, row: UserRow) -> bool {
    &&& r.result
    &&& r.message@ == "Welcome "@ + text_or_empty(request.email)
    &&& r.data matches Some(u) && is_user_of_row(u, row)
    &&& r.error is None
}

/// The answer when no user matched.
pub open spec fn is_no_user(r: ActionResult<WebUser, String>, request: LoginRequest) -> bool {
    &&& !r.result
    &&& r.message@ == "No user found for email: "@ + text_or_empty(request.email)
    &&& r.data is None
    &&& r.error is None
}

/// How far a login has come: each outcome that the flow takes raises it.
pub open spec fn stage_rank(stage: LoginStage) -> int {
    match stage {
        LoginStage::AwaitingPasswordHash => 0,
        LoginStage::AwaitingConnection => 1,
        LoginStage::AwaitingQuery => 2,
        LoginStage::AwaitingRow => 3,
        LoginStage::Finished => 4,
    }
}

impl LoginFlow {
    /// The flow is well formed: before it finishes its answer is blank, and
    /// once finished its answer is consistent.
    pub open spec fn wf(self) -> bool {
        if self.stage == LoginStage::Finished {
            is_consistent(self.result)
        } else {
            is_blank(self.result)
        }
    }

    /// The events that the flow can take in its current stage.
    pub open spec fn accepts(self, event: LoginEvent) -> bool {
        match self.stage {
            LoginStage::AwaitingPasswordHash => event is PasswordHashed,
            LoginStage::AwaitingConnection => event is ConnectionOpened || event is ConnectionFailed,
            LoginStage::AwaitingQuery => event is QueryAccepted || event is QueryFailed,
            LoginStage::AwaitingRow => event is RowFetched || event is RowFetchFailed,
            LoginStage::Finished => false,
        }
    }

    /// Whether the flow can take `event` now.
    pub fn accepts_event(&self, event: &LoginEvent) -> (b: bool)
        ensures
            b == self.accepts(*event),
    {
        match self.stage {
            LoginStage::AwaitingPasswordHash => matches!(event, LoginEvent::PasswordHashed(_)),
            LoginStage::AwaitingConnection => matches!(event, LoginEvent::ConnectionOpened)
                || matches!(event, LoginEvent::ConnectionFailed(_)),
            LoginStage::AwaitingQuery => matches!(event, LoginEvent::QueryAccepted) || matches!(
                event,
                LoginEvent::QueryFailed(_)
            ),
            LoginStage::AwaitingRow => matches!(event, LoginEvent::RowFetched(_)) || matches!(
                event,
                LoginEvent::RowFetchFailed
            ),
            LoginStage::Finished => false,
        }
    }

    /// The stage the flow is in.
    pub fn stage(&self) -> (s: LoginStage)
        ensures
            s == self.stage,
    {
        self.stage
    }

    /// The answer of a login.
    pub fn into_result(self) -> (r: ActionResult<WebUser, String>)
        ensures
            r == self.result,
    {
        self.result
    }

    /// Takes the outcome of the requested work and says what to do next.
    pub fn step(self, event: LoginEvent) -> (next: (LoginFlow, LoginAction))
        requires
            self.accepts(event),
        ensures
            next.0.request == self.request,
            self.wf() ==> next.0.wf(),
            stage_rank(next.0.stage) > stage_rank(self.stage),
            next.1 is Reply <==> next.0.stage == LoginStage::Finished,
            self.wf() ==> (next.0.result.result <==> (event matches LoginEvent::RowFetched(Some(_)))),
            self.wf() ==> (next.0.result.error is Some <==> (event is ConnectionFailed || event is QueryFailed)),
            match event {
                LoginEvent::PasswordHashed(h) => {
                    &&& next.0.stage == LoginStage::AwaitingConnection
                    &&& next.0.password_hash@ == h@
                    &&& next.0.result == self.result
                    &&& next.1 is OpenConnection
                },
                LoginEvent::ConnectionOpened => {
                    &&& next.0.stage == LoginStage::AwaitingQuery
                    &&& next.0.password_hash == self.password_hash
                    &&& next.0.result == self.result
                    &&& next.1 matches LoginAction::RunQuery { sql, email, password_hash }
                        && sql@ == user_query_text() && email == self.request.email
                        && password_hash@ == self.password_hash@
                },
                LoginEvent::ConnectionFailed(text) => {
                    &&& next.0.stage == LoginStage::Finished
                    &&& is_connection_failure(next.0.result, text@)
                    &&& next.1 is Reply
                },
                LoginEvent::QueryAccepted => {
                    &&& next.0.stage == LoginStage::AwaitingRow
                    &&& next.0.result == self.result
                    &&& next.1 is FetchFirstRow
                },
                LoginEvent::QueryFailed(text) => {
                    &&& next.0.stage == LoginStage::Finished
                    &&& is_query_failure(next.0.result, text@)
                    &&& next.1 is Reply
                },
                LoginEvent::RowFetched(Some(row)) => {
                    &&& next.0.stage == LoginStage::Finished
                    &&& is_welcome(next.0.result, self.request, row)
                    &&& next.1 is Reply
                },
                LoginEvent::RowFetched(None) | LoginEvent::RowFetchFailed => {
                    &&& next.0.stage == LoginStage::Finished
                    &&& is_no_user(next.0.result, self.request)
                    &&& next.1 is Reply
                },
            },
    {
        let LoginFlow { request, stage, password_hash, result } = self;
        match event {
            LoginEvent::PasswordHashed(h) => (
                LoginFlow { request, stage: LoginStage::AwaitingConnection, password_hash: h, result },
                LoginAction::OpenConnection,
            ),
            LoginEvent::ConnectionOpened => {
                let action = LoginAction::RunQuery {
                    sql: user_query(),
                    email: clone_optional_text(&request.email),
                    password_hash: password_hash.clone(),
                };
                (LoginFlow { request, stage: LoginStage::AwaitingQuery, password_hash, result }, action)
            },
            LoginEvent::ConnectionFailed(text) => {
                let mut error = String::from_str("Internal Server error: ");
                error.append(text.as_str());
                let result = ActionResult {
                    result: false,
                    message: String::new(),
                    data: None,
                    error: Some(error),
                };
                (LoginFlow { request, stage: LoginStage::Finished, password_hash, result }, LoginAction::Reply)
            },
            LoginEvent::QueryAccepted => (
                LoginFlow { request, stage: LoginStage::AwaitingRow, password_hash, result },
                LoginAction::FetchFirstRow,
            ),
            LoginEvent::QueryFailed(text) => {
                let mut error = String::from_str("Query execution failed: ");
                error.append(text.as_str());
                let result = ActionResult {
                    result: false,
                    message: String::new(),
                    data: None,
                    error: Some(error),
                };
                (LoginFlow { request, stage: LoginStage::Finished, password_hash, result }, LoginAction::Reply)
            },
            LoginEvent::RowFetched(Some(row)) => {
                let mut message = String::from_str("Welcome ");
                let email = text_or_default(&request.email);
                message.append(email.as_str());
                let result = ActionResult {
                    result: true,
                    message,
                    data: Some(WebUser::from_row(row)),
                    error: None,
                };
                (LoginFlow { request, stage: LoginStage::Finished, password_hash, result }, LoginAction::Reply)
            },
            LoginEvent::RowFetched(None) | LoginEvent::RowFetchFailed => {
                let mut message = String::from_str("No user found for email: ");
                let email = text_or_default(&request.email);
                message.append(email.as_str());
                let result = ActionResult { result: false, message, data: None, error: None };
                (LoginFlow { request, stage: LoginStage::Finished, password_hash, result }, LoginAction::Reply)
            },
        }
    }
}

/// Law: a login takes at most four outcomes: the stage's rank, which each
/// outcome raises, never exceeds four, and a finished login takes none.
pub proof fn law_login_takes_at_most_four_outcomes(flow: LoginFlow, event: LoginEvent)
    ensures
        0 <= stage_rank(flow.stage) <= 4,
        flow.stage == LoginStage::Finished ==> !flow.accepts(event),
        stage_rank(flow.stage) == 4 <==> flow.stage == LoginStage::Finished,
{
}

/// Law: the text of a present optional string is that string, whole and
/// unchanged; an absent one is the empty text.
pub proof fn law_present_text_is_unchanged(o: Option<String>)
    ensures
        o matches Some(s) ==> (text_or_empty(o) == s@ && text_or_empty(o).len() == s@.len()),
        o is None ==> text_or_empty(o).len() == 0,
{
}

/// Law: the user record takes each column of the row as it is, and only a
/// NULL column gets the default: 0, "", "", false, "" and the epoch. In
/// particular the record is disabled exactly when the row says so.
pub proof fn law_user_record_follows_row(u: WebUser, row: UserRow)
    requires
        is_user_of_row(u, row),
    ensures
        row.auth_usernid matches Some(v) ==> u.auth_usernid == v,
        row.auth_usernid is None ==> u.auth_usernid == 0,
        row.email matches Some(e) ==> u.email@ == e@,
        row.email is None ==> u.email@.len() == 0,
        row.handphone matches Some(h) ==> u.mobile_phone@ == h@,
        row.handphone is None ==> u.mobile_phone@.len() == 0,
        row.disable_login matches Some(b) ==> u.disabled_login == b,
        row.disable_login is None ==> !u.disabled_login,
        u.disabled_login ==> row.disable_login == Some(true),
        row.picture matches Some(p) ==> (u.picture matches Some(q) && q@ == p@),
        row.picture is None ==> (u.picture matches Some(q) && q@.len() == 0),
        row.register_date matches Some(t) ==> u.register_date == t,
        row.register_date is None ==> u.register_date == 0,
{
}

/// Law: a login that is not finished takes both the success and the failure
/// of the work it asked for, whatever text or row that work reports; a
/// finished login takes nothing.
pub proof fn law_unfinished_login_takes_every_outcome(
    flow: LoginFlow,
    text: String,
    row: Option<UserRow>,
)
    ensures
        flow.stage == LoginStage::AwaitingPasswordHash ==> flow.accepts(LoginEvent::PasswordHashed(text)),
        flow.stage == LoginStage::AwaitingConnection ==> flow.accepts(LoginEvent::ConnectionOpened)
            && flow.accepts(LoginEvent::ConnectionFailed(text)),
        flow.stage == LoginStage::AwaitingQuery ==> flow.accepts(LoginEvent::QueryAccepted)
            && flow.accepts(LoginEvent::QueryFailed(text)),
        flow.stage == LoginStage::AwaitingRow ==> flow.accepts(LoginEvent::RowFetched(row))
            && flow.accepts(LoginEvent::RowFetchFailed),
        flow.stage == LoginStage::Finished ==> !flow.accepts(LoginEvent::RowFetchFailed)
            && !flow.accepts(LoginEvent::ConnectionOpened),
{
}

impl GenericService {
    /// The answer to a request for an unknown URL: 404 and an error naming the path.
    pub fn not_found(path: &str) -> (answer: (HttpStatus, ActionResult<String, String>))
        ensures
            answer.0 == HttpStatus::NotFound,
            is_failure_with(
                answer.1,
                "Not Found"@,
                "Url '"@ + path@ + "' not found. Please check the URL."@,
            ),
    {
        let mut error = String::from_str("Url '");
        error.append(path);
        error.append("' not found. Please check the URL.");
        (
            HttpStatus::NotFound,
            ActionResult {
                result: false,
                message: String::from_str("Not Found"),
                data: None,
                error: Some(error),
            },
        )
    }

    /// The answer to a request body that is not the JSON the route expects:
    /// 400 and an error that carries the decoder's message.
    pub fn json_error_handler(error_text: &str) -> (answer: (HttpStatus, ActionResult<String, String>))
        ensures
            answer.0 == HttpStatus::BadRequest,
            is_failure_with(answer.1, "Invalid Request"@, "Json deserialize error: "@ + error_text@),
    {
        let mut error = String::from_str("Json deserialize error: ");
        error.append(error_text);
        (
            HttpStatus::BadRequest,
            ActionResult {
                result: false,
                message: String::from_str("Invalid Request"),
                data: None,
                error: Some(error),
            },
        )
    }

    /// Starts a login: the answer is blank, and the first work asked for is to
    /// encrypt the given password (the empty one where none was given).
    pub fn login(request: LoginRequest) -> (start: (LoginFlow, LoginAction))
        ensures
            start.0.request == request,
            start.0.stage == LoginStage::AwaitingPasswordHash,
            is_blank(start.0.result),
            start.0.wf(),
            start.1 matches LoginAction::HashPassword(p) && p@ == text_or_empty(request.password),
            request.password matches Some(pw) ==> (start.1 matches LoginAction::HashPassword(p) && p@ == pw@),
    {
        let password = text_or_default(&request.password);
        let flow = LoginFlow {
            request,
            stage: LoginStage::AwaitingPasswordHash,
            password_hash: String::new(),
            result: ActionResult::default(),
        };
        (flow, LoginAction::HashPassword(password))
    }
}

} // verus!
