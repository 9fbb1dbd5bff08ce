use gradescope_submit::error::ClientError;
use gradescope_submit::session::{
    BootFlow, LoginFlow, Reply, Request, Session, Step, SubmitFlow,
};

const LOGIN_PAGE: &str = "<html><body><form action=\"/login\">\
    <input type=\"hidden\" name=\"authenticity_token\" value=\"tok/1+\">\
    <input name=\"session[email]\"></form></body></html>";

const COURSE_PAGE: &str =
    "<html><head><meta name=\"csrf-token\" content=\"course-tok\"></head><body></body></html>";

fn page(status: u16, body: &str) -> Reply {
    Reply::Response { status, body: body.to_string(), cookies: vec![] }
}

fn with_cookies(status: u16, cookies: Vec<(&str, &str)>) -> Reply {
    Reply::Response {
        status,
        body: String::new(),
        cookies: cookies.into_iter().map(|(n, v)| (n.to_string(), v.to_string())).collect(),
    }
}

/// Runs a login against canned replies, counting the requests sent.
fn run_login(
    session: &mut Session,
    replies: Vec<Reply>,
) -> (Result<String, ClientError>, Vec<Request>) {
    let (mut flow, first) = LoginFlow::start("me@uni.edu".to_string(), "hunter 2".to_string(), true);
    let mut sent = vec![first];
    for reply in replies {
        match flow.step(session, reply) {
            Step::Send(r) => sent.push(r),
            Step::Finish(result) => return (result, sent),
        }
    }
    panic!("the flow asked for more replies than were given")
}

fn logged_in_session() -> Session {
    let mut session = Session::new();
    let (result, _) = run_login(
        &mut session,
        vec![page(200, LOGIN_PAGE), with_cookies(302, vec![("signed_token", "cred")])],
    );
    assert_eq!(result, Ok("cred".to_string()));
    session
}

#[test]
fn login_hands_out_the_session_cookie() {
    let mut session = Session::new();
    let (result, sent) = run_login(
        &mut session,
        vec![
            page(200, LOGIN_PAGE),
            with_cookies(302, vec![("_gradescope_session", "s"), ("signed_token", "SIGNED-xyz")]),
        ],
    );
    assert_eq!(result, Ok("SIGNED-xyz".to_string()));
    assert!(session.is_logged_in());
    assert_eq!(sent.len(), 2);
    assert!(matches!(sent[0], Request::GetLogin));
    match &sent[1] {
        Request::PostLogin { body } => assert_eq!(
            body,
            "authenticity_token=tok%2F1%2B&session[email]=me%40uni.edu\
             &session[password]=hunter%202&session[remember_me]=1&commit=Log in\
             &session[remember_me_sso]=0"
        ),
        _ => panic!("expected the login post"),
    }
    assert_eq!(sent[1].url(), "https://www.gradescope.com/login");
}

#[test]
fn rejected_login_leaves_session_unknown() {
    for status in [200u16, 401, 403, 500] {
        let mut session = Session::new();
        let (result, sent) = run_login(
            &mut session,
            vec![page(200, LOGIN_PAGE), with_cookies(status, vec![("signed_token", "x")])],
        );
        assert_eq!(result, Err(ClientError::InvalidLogin));
        assert!(!session.is_logged_in());
        assert_eq!(sent.len(), 2);
    }
}

#[test]
fn redirect_without_cookie_is_an_http_error() {
    let mut session = Session::new();
    let (result, _) = run_login(
        &mut session,
        vec![page(200, LOGIN_PAGE), with_cookies(302, vec![("other", "x")])],
    );
    assert_eq!(result, Err(ClientError::HttpError));
    assert!(!session.is_logged_in());
}

#[test]
fn login_page_without_token_posts_nothing() {
    let mut session = Session::new();
    let (result, sent) =
        run_login(&mut session, vec![page(200, "<html><form><input name=\"x\"></form></html>")]);
    assert_eq!(result, Err(ClientError::UnexpectedResponse));
    assert_eq!(sent.len(), 1);
    assert!(matches!(sent[0], Request::GetLogin));
    assert!(!session.is_logged_in());
}

#[test]
fn login_page_failures() {
    let mut session = Session::new();
    let (result, sent) = run_login(&mut session, vec![page(500, LOGIN_PAGE)]);
    assert_eq!(result, Err(ClientError::HttpError));
    assert_eq!(sent.len(), 1);
    let (result, _) = run_login(&mut session, vec![Reply::Failed]);
    assert_eq!(result, Err(ClientError::HttpError));
    let (result, _) = run_login(&mut session, vec![page(200, LOGIN_PAGE), Reply::Failed]);
    assert_eq!(result, Err(ClientError::HttpError));
    assert!(!session.is_logged_in());
}

#[test]
fn finished_login_refuses_more_replies() {
    let mut session = Session::new();
    let (mut flow, _) = LoginFlow::start("a".to_string(), "b".to_string(), false);
    assert!(matches!(flow.step(&mut session, Reply::Failed), Step::Finish(Err(ClientError::HttpError))));
    assert!(matches!(
        flow.step(&mut session, page(200, LOGIN_PAGE)),
        Step::Finish(Err(ClientError::InvalidState))
    ));
}

#[test]
fn submission_needs_a_session() {
    let session = Session::new();
    let files = vec!["a.txt".to_string()];
    let (_, step) = SubmitFlow::start(&session, 1, 2, &files);
    assert!(matches!(step, Step::Finish(Err(ClientError::InvalidState))));
}

#[test]
fn nameless_path_fails_before_any_request() {
    let session = logged_in_session();
    let files = vec!["good.txt".to_string(), "build/".to_string()];
    let (_, step) = SubmitFlow::start(&session, 1, 2, &files);
    assert!(matches!(step, Step::Finish(Err(ClientError::FileError(p))) if p == "build/"));
    let files = vec!["".to_string()];
    let (_, step) = SubmitFlow::start(&session, 1, 2, &files);
    assert!(matches!(step, Step::Finish(Err(ClientError::FileError(p))) if p.is_empty()));
}

#[test]
fn submission_posts_every_file() {
    let session = logged_in_session();
    let files = vec!["src/lib.rs".to_string(), "README.md".to_string()];
    let (mut flow, step) = SubmitFlow::start(&session, 5, 77, &files);
    let get = match step {
        Step::Send(r) => r,
        _ => panic!("expected the course page request"),
    };
    assert!(matches!(get, Request::GetCourse { course_id: 5 }));
    assert_eq!(get.url(), "https://www.gradescope.com/courses/5");
    let post = match flow.step(page(200, COURSE_PAGE)) {
        Step::Send(r) => r,
        _ => panic!("expected the upload"),
    };
    assert_eq!(post.url(), "https://www.gradescope.com/courses/5/assignments/77/submissions");
    match post {
        Request::PostSubmission { course_id, assignment_id, token, parts } => {
            assert_eq!((course_id, assignment_id), (5, 77));
            assert_eq!(token, "course-tok");
            assert_eq!(parts.len(), 2);
            assert_eq!(parts[0].path, "src/lib.rs");
            assert_eq!(parts[0].file_name, "lib.rs");
            assert_eq!(parts[1].file_name, "README.md");
        }
        _ => panic!("expected the upload"),
    }
    match flow.step(page(200, "{\"ok\":true}")) {
        Step::Finish(Ok(s)) => {
            assert_eq!(s.status, 200);
            assert_eq!(s.body, "{\"ok\":true}");
        }
        _ => panic!("expected the platform's reply"),
    }
}

#[test]
fn course_page_failures() {
    let session = logged_in_session();
    let files = vec!["a.txt".to_string()];
    let (mut flow, _) = SubmitFlow::start(&session, 1, 2, &files);
    assert!(matches!(flow.step(page(403, COURSE_PAGE)), Step::Finish(Err(ClientError::HttpError))));
    let (mut flow, _) = SubmitFlow::start(&session, 1, 2, &files);
    assert!(matches!(
        flow.step(page(200, "<html></html>")),
        Step::Finish(Err(ClientError::UnexpectedResponse))
    ));
    let (mut flow, _) = SubmitFlow::start(&session, 1, 2, &files);
    assert!(matches!(flow.step(Reply::Failed), Step::Finish(Err(ClientError::HttpError))));
}

/// Runs bootstrap against canned replies, counting the requests sent.
fn run_boot(seed: Option<String>, replies: Vec<Reply>) -> (Result<(), ClientError>, Session, Vec<Request>) {
    let mut session = Session::new();
    let (mut flow, first) = BootFlow::start(&seed);
    let mut sent = vec![first];
    for reply in replies {
        match flow.step(&mut session, reply) {
            Step::Send(r) => sent.push(r),
            Step::Finish(result) => return (result, session, sent),
        }
    }
    panic!("the flow asked for more replies than were given")
}

#[test]
fn probe_decides_a_seeded_session() {
    let (r, session, sent) = run_boot(Some("t".to_string()), vec![page(200, ""), page(404, "")]);
    assert_eq!(r, Ok(()));
    assert!(session.is_logged_in());
    assert!(matches!(sent[0], Request::GetRoot));
    assert!(matches!(sent[1], Request::GetLogin));
    let (r, session, _) = run_boot(Some("t".to_string()), vec![page(200, ""), page(401, "")]);
    assert_eq!(r, Ok(()));
    assert!(!session.is_logged_in());
}

#[test]
fn probe_failure_is_swallowed_at_bootstrap() {
    let (r, session, _) = run_boot(Some("t".to_string()), vec![page(302, ""), page(500, "")]);
    assert_eq!(r, Ok(()));
    assert!(!session.is_logged_in());
    let (r, session, _) = run_boot(Some("t".to_string()), vec![page(200, ""), Reply::Failed]);
    assert_eq!(r, Ok(()));
    assert!(!session.is_logged_in());
}

#[test]
fn bootstrap_without_seed_only_visits_root() {
    let (r, session, sent) = run_boot(None, vec![page(200, "")]);
    assert_eq!(r, Ok(()));
    assert!(!session.is_logged_in());
    assert_eq!(sent.len(), 1);
    assert_eq!(sent[0].url(), "https://www.gradescope.com");
}

#[test]
fn failed_visit_fails_bootstrap() {
    let (r, session, _) = run_boot(Some("t".to_string()), vec![Reply::Failed]);
    assert_eq!(r, Err(ClientError::HttpError));
    assert!(!session.is_logged_in());
}

#[test]
fn stored_credential_restores_the_session() {
    let mut first = Session::new();
    let (credential, _) = run_login(
        &mut first,
        vec![page(200, LOGIN_PAGE), with_cookies(302, vec![("signed_token", "kept")])],
    );
    let credential = credential.ok().unwrap();
    let (r, session, sent) = run_boot(Some(credential), vec![page(200, ""), page(404, "")]);
    assert_eq!(r, Ok(()));
    assert!(session.is_logged_in());
    assert_eq!(sent.len(), 2);
    assert!(!sent.iter().any(|q| matches!(q, Request::PostLogin { .. })));
}
