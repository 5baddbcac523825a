use report_designer::generic_services::{
    text_or_default, ActionResult, GenericService, LoginAction, LoginEvent, LoginFlow,
    LoginRequest, LoginStage, UserRow, WebUser,
};
use report_designer::service::{
    health_check, login_route, login_route_with_token, session_cookie, HttpStatus,
    LoginRouteStep,
};

fn request(email: Option<&str>, password: Option<&str>) -> LoginRequest {
    LoginRequest {
        email: email.map(|s| s.to_string()),
        password: password.map(|s| s.to_string()),
    }
}

fn full_row() -> UserRow {
    UserRow {
        auth_usernid: Some(42),
        email: Some("ana@example.com".to_string()),
        handphone: Some("0812".to_string()),
        disable_login: Some(true),
        picture: Some("ana.png".to_string()),
        register_date: Some(1709596800),
    }
}

/// Runs a login up to the query, returning the flow waiting for the row.
fn up_to_row(req: LoginRequest) -> LoginFlow {
    let (flow, action) = GenericService::login(req);
    assert!(matches!(action, LoginAction::HashPassword(_)));
    let (flow, action) = flow.step(LoginEvent::PasswordHashed("HASH".to_string()));
    assert!(matches!(action, LoginAction::OpenConnection));
    let (flow, action) = flow.step(LoginEvent::ConnectionOpened);
    match action {
        LoginAction::RunQuery { sql, email, password_hash } => {
            assert_eq!(
                sql,
                "SELECT AuthUserNID, Email, Handphone, disableLogin, Picture, RegisterDate FROM AuthUser \n                    WHERE Email = @P1 AND Password = @P2"
            );
            assert_eq!(email, Some("ana@example.com".to_string()));
            assert_eq!(password_hash, "HASH");
        }
        _ => panic!("expected a query"),
    }
    let (flow, action) = flow.step(LoginEvent::QueryAccepted);
    assert!(matches!(action, LoginAction::FetchFirstRow));
    assert_eq!(flow.stage(), LoginStage::AwaitingRow);
    flow
}

#[test]
fn default_action_result_is_a_blank_failure() {
    let r: ActionResult<WebUser, String> = ActionResult::default();
    assert!(!r.result);
    assert_eq!(r.message, "");
    assert!(r.data.is_none());
    assert!(r.error.is_none());
}

#[test]
fn login_asks_to_hash_the_given_password() {
    let (flow, action) = GenericService::login(request(Some("a@b"), Some("secret")));
    assert_eq!(flow.stage(), LoginStage::AwaitingPasswordHash);
    match action {
        LoginAction::HashPassword(p) => assert_eq!(p, "secret"),
        _ => panic!("expected hashing"),
    }
}

#[test]
fn login_without_password_hashes_the_empty_password() {
    let (_, action) = GenericService::login(request(Some("a@b"), None));
    match action {
        LoginAction::HashPassword(p) => assert_eq!(p, ""),
        _ => panic!("expected hashing"),
    }
}

#[test]
fn login_with_found_user_welcomes_and_returns_user() {
    let flow = up_to_row(request(Some("ana@example.com"), Some("pw")));
    let (flow, action) = flow.step(LoginEvent::RowFetched(Some(full_row())));
    assert!(matches!(action, LoginAction::Reply));
    assert_eq!(flow.stage(), LoginStage::Finished);
    let r = flow.into_result();
    assert!(r.result);
    assert_eq!(r.message, "Welcome ana@example.com");
    assert!(r.error.is_none());
    let u = r.data.unwrap();
    assert_eq!(u.auth_usernid, 42);
    assert_eq!(u.email, "ana@example.com");
    assert_eq!(u.mobile_phone, "0812");
    assert!(u.disabled_login);
    assert_eq!(u.picture, Some("ana.png".to_string()));
    assert_eq!(u.register_date, 1709596800);
}

#[test]
fn row_with_missing_columns_gets_defaults() {
    let u = WebUser::from_row(UserRow {
        auth_usernid: None,
        email: None,
        handphone: None,
        disable_login: None,
        picture: None,
        register_date: None,
    });
    assert_eq!(u.auth_usernid, 0);
    assert_eq!(u.email, "");
    assert_eq!(u.mobile_phone, "");
    assert!(!u.disabled_login);
    assert_eq!(u.picture, Some(String::new()));
    assert_eq!(u.register_date, 0);
}

#[test]
fn login_without_row_reports_no_user() {
    let flow = up_to_row(request(Some("ana@example.com"), Some("pw")));
    let (flow, _) = flow.step(LoginEvent::RowFetched(None));
    let r = flow.into_result();
    assert!(!r.result);
    assert_eq!(r.message, "No user found for email: ana@example.com");
    assert!(r.data.is_none());
    assert!(r.error.is_none());
}

#[test]
fn login_with_unreadable_answer_reports_no_user() {
    let flow = up_to_row(request(Some("ana@example.com"), Some("pw")));
    let (flow, _) = flow.step(LoginEvent::RowFetchFailed);
    let r = flow.into_result();
    assert!(!r.result);
    assert_eq!(r.message, "No user found for email: ana@example.com");
}

#[test]
fn login_without_email_names_the_empty_email() {
    let (flow, _) = GenericService::login(request(None, None));
    let (flow, _) = flow.step(LoginEvent::PasswordHashed("h".to_string()));
    let (flow, action) = flow.step(LoginEvent::ConnectionOpened);
    match action {
        LoginAction::RunQuery { email, .. } => assert_eq!(email, None),
        _ => panic!("expected a query"),
    }
    let (flow, _) = flow.step(LoginEvent::QueryAccepted);
    let (flow, _) = flow.step(LoginEvent::RowFetched(None));
    assert_eq!(flow.into_result().message, "No user found for email: ");
}

#[test]
fn login_without_connection_is_a_server_error() {
    let (flow, _) = GenericService::login(request(Some("a@b"), Some("pw")));
    let (flow, _) = flow.step(LoginEvent::PasswordHashed("h".to_string()));
    let (flow, action) = flow.step(LoginEvent::ConnectionFailed("TimedOut".to_string()));
    assert!(matches!(action, LoginAction::Reply));
    let r = flow.into_result();
    assert!(!r.result);
    assert_eq!(r.message, "");
    assert_eq!(r.error, Some("Internal Server error: TimedOut".to_string()));
    assert!(r.data.is_none());
}

#[test]
fn login_with_failed_query_is_a_query_error() {
    let (flow, _) = GenericService::login(request(Some("a@b"), Some("pw")));
    let (flow, _) = flow.step(LoginEvent::PasswordHashed("h".to_string()));
    let (flow, _) = flow.step(LoginEvent::ConnectionOpened);
    let (flow, action) = flow.step(LoginEvent::QueryFailed("Io".to_string()));
    assert!(matches!(action, LoginAction::Reply));
    let r = flow.into_result();
    assert_eq!(r.error, Some("Query execution failed: Io".to_string()));
    assert!(!r.result);
}

#[test]
fn login_flow_accepts_only_the_awaited_events() {
    let (flow, _) = GenericService::login(request(Some("a@b"), Some("pw")));
    assert!(flow.accepts_event(&LoginEvent::PasswordHashed("h".to_string())));
    assert!(!flow.accepts_event(&LoginEvent::ConnectionOpened));
    let (flow, _) = flow.step(LoginEvent::PasswordHashed("h".to_string()));
    assert!(flow.accepts_event(&LoginEvent::ConnectionFailed("x".to_string())));
    assert!(!flow.accepts_event(&LoginEvent::RowFetchFailed));
    let (flow, _) = flow.step(LoginEvent::ConnectionFailed("x".to_string()));
    assert!(!flow.accepts_event(&LoginEvent::RowFetchFailed));
    assert!(!flow.accepts_event(&LoginEvent::QueryAccepted));
}

#[test]
fn not_found_names_the_path() {
    let (status, r) = GenericService::not_found("/nowhere");
    assert_eq!(status, HttpStatus::NotFound);
    assert!(!r.result);
    assert_eq!(r.message, "Not Found");
    assert_eq!(
        r.error,
        Some("Url '/nowhere' not found. Please check the URL.".to_string())
    );
    assert!(r.data.is_none());
}

#[test]
fn bad_json_is_a_bad_request() {
    let (status, r) = GenericService::json_error_handler("EOF while parsing");
    assert_eq!(status, HttpStatus::BadRequest);
    assert!(!r.result);
    assert_eq!(r.message, "Invalid Request");
    assert_eq!(
        r.error,
        Some("Json deserialize error: EOF while parsing".to_string())
    );
}

#[test]
fn health_check_names_the_service() {
    assert_eq!(health_check(), "Snakesystem Report Designer");
}

#[test]
fn text_or_default_gives_empty_for_none() {
    assert_eq!(text_or_default(&None), "");
    assert_eq!(text_or_default(&Some("x".to_string())), "x");
}

fn answer(result: bool, data: bool, error: bool) -> ActionResult<WebUser, String> {
    ActionResult {
        result,
        message: String::new(),
        data: if data {
            Some(WebUser::from_row(full_row()))
        } else {
            None
        },
        error: if error { Some("e".to_string()) } else { None },
    }
}

#[test]
fn route_errors_become_server_errors() {
    assert_eq!(
        login_route(&answer(false, false, true)),
        LoginRouteStep::Respond(HttpStatus::InternalServerError)
    );
    assert_eq!(
        login_route(&answer(true, true, true)),
        LoginRouteStep::Respond(HttpStatus::InternalServerError)
    );
}

#[test]
fn route_success_with_user_asks_for_token() {
    assert_eq!(login_route(&answer(true, true, false)), LoginRouteStep::CreateToken);
}

#[test]
fn route_success_without_user_or_failure_is_bad_request() {
    assert_eq!(
        login_route(&answer(true, false, false)),
        LoginRouteStep::Respond(HttpStatus::BadRequest)
    );
    assert_eq!(
        login_route(&answer(false, false, false)),
        LoginRouteStep::Respond(HttpStatus::BadRequest)
    );
}

#[test]
fn token_gives_ok_and_session_cookie() {
    let (status, cookie) = login_route_with_token(Ok("jwt".to_string()));
    assert_eq!(status, HttpStatus::Success);
    let c = cookie.unwrap();
    assert_eq!(c.name, "token");
    assert_eq!(c.value, "jwt");
    assert_eq!(c.path, "/");
    assert!(c.http_only);
    assert!(c.same_site_strict);
    assert!(!c.secure);
}

#[test]
fn failed_token_gives_server_error_without_cookie() {
    let (status, cookie) = login_route_with_token(Err("key".to_string()));
    assert_eq!(status, HttpStatus::InternalServerError);
    assert!(cookie.is_none());
}

#[test]
fn session_cookie_carries_the_token() {
    assert_eq!(session_cookie("abc".to_string()).value, "abc");
}
