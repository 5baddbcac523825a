//! The login page of the desktop client and the page that the client shows.
use vstd::prelude::*;

verus! {

/// The page that the desktop client shows.
#[derive(PartialEq, Eq, Structural, Clone, Copy, Debug)]
pub enum AppState {
    Login,
    ReportDesigner,
}

/// How the login request to the server ended.
#[derive(PartialEq, Eq, Structural, Clone, Copy, Debug)]
pub enum LoginReply {
    /// The server answered with a success status.
    Accepted,
    /// The server answered with another status.
    Rejected,
    /// The request did not reach the server or got no answer.
    Unreachable,
}

/// The login page: the email and password typed so far, the message shown
/// under them, and the page that the client shows.
pub struct LoginPage {
    pub email: String,
    pub password: String,
    pub error_message: Option<String>,
    pub app_state: AppState,
}

/// The address that the login request goes to.
pub fn login_url() -> (url: String)
    ensures
        url@ == "http://127.0.0.1:8001/services/auth/login"@,
{
    String::from_str("http://127.0.0.1:8001/services/auth/login")
}

/// The message that the page shows after a login request.
pub open spec fn login_message(reply: LoginReply) -> Seq<char> {
    match reply {
        LoginReply::Accepted => "Login successful"@,
        LoginReply::Rejected => "Login failed"@,
        LoginReply::Unreachable => "Server error"@,
    }
}

/// The page that the client shows after a login request, from `before`.
pub open spec fn state_after_login(before: AppState, reply: LoginReply) -> AppState {
    if reply == LoginReply::Accepted {
        AppState::ReportDesigner
    } else {
        before
    }
}

impl LoginPage {
    /// An empty login page for a client that shows `app_state`.
    pub fn new(app_state: AppState) -> (page: LoginPage)
        ensures
            page.email@ == Seq::<char>::empty(),
            page.password@ == Seq::<char>::empty(),
            page.error_message is None,
            page.app_state == app_state,
    {
        LoginPage {
            email: String::new(),
            password: String::new(),
            error_message: None,
            app_state,
        }
    }

    /// The email typed so far.
    pub fn email(&self) -> (e: &String)
        ensures
            e@ == self.email@,
    {
        &self.email
    }

    /// The password typed so far.
    pub fn password(&self) -> (p: &String)
        ensures
            p@ == self.password@,
    {
        &self.password
    }

    /// Replaces the typed email.
    pub fn set_email(&mut self, email: String)
        ensures
            final(self).email@ == email@,
            final(self).password == old(self).password,
            final(self).error_message == old(self).error_message,
            final(self).app_state == old(self).app_state,
    {
        self.email = email;
    }

    /// Replaces the typed password.
    pub fn set_password(&mut self, password: String)
        ensures
            final(self).password@ == password@,
            final(self).email == old(self).email,
            final(self).error_message == old(self).error_message,
            final(self).app_state == old(self).app_state,
    {
        self.password = password;
    }

    /// The message shown under the fields, if any.
    pub fn error_message(&self) -> (m: Option<String>)
        ensures
            m == self.error_message,
    {
        match &self.error_message {
            Some(s) => Some(s.clone()),
            None => None,
        }
    }

    /// The page that the client shows.
    pub fn app_state(&self) -> (s: AppState)
        ensures
            s == self.app_state,
    {
        self.app_state
    }

    /// Takes the outcome of a login request: the page shows what happened,
    /// and an accepted login moves the client to the report designer.
    pub fn apply_login_reply(&mut self, reply: LoginReply)
        ensures
            final(self).error_message matches Some(m) && m@ == login_message(reply),
            final(self).app_state == state_after_login(old(self).app_state, reply),
            final(self).email == old(self).email,
            final(self).password == old(self).password,
            final(self).app_state != old(self).app_state ==> final(self).app_state == AppState::ReportDesigner,
            final(self).error_message matches Some(m) && (m@ == "Login successful"@ || m@ == "Login failed"@
                || m@ == "Server error"@),
    {
        match reply {
            LoginReply::Accepted => {
                self.error_message = Some(String::from_str("Login successful"));
                self.app_state = AppState::ReportDesigner;
            },
            LoginReply::Rejected => {
                self.error_message = Some(String::from_str("Login failed"));
            },
            LoginReply::Unreachable => {
                self.error_message = Some(String::from_str("Server error"));
            },
        }
    }
}

/// Law: a login reply changes the page shown only towards the report
/// designer, and the message it leaves is one of three.
pub proof fn law_page_reply_outcome(before: AppState, reply: LoginReply)
    ensures
        state_after_login(before, reply) != before ==> state_after_login(before, reply)
            == AppState::ReportDesigner,
        login_message(reply) == "Login successful"@ || login_message(reply) == "Login failed"@
            || login_message(reply) == "Server error"@,
{
}

/// Law: the client leaves the login page exactly when a login was accepted,
/// and once on the report designer no later reply brings it back.
pub proof fn law_login_moves_forward_only(before: AppState, reply: LoginReply)
    ensures
        (state_after_login(before, reply) == AppState::ReportDesigner) <==> (reply == LoginReply::Accepted
            || before == AppState::ReportDesigner),
{
}

} // verus!
