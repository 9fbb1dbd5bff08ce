//! The session and the three flows that drive it: bootstrap, login and
//! submission. Each flow is a state machine: the transport sends the request
//! a flow asks for, hands the reply back to `step`, and goes on until the
//! flow finishes with its result.
use vstd::prelude::*;

use crate::error::ClientError;
use crate::paths::{FilePart, plan_parts, all_named, first_nameless, file_name};
use crate::scrape::{login_token, course_token, login_token_of, course_token_of};
use crate::wire::{
    classify_login, classify_page, classify_probe, login_form, login_form_body, login_outcome,
    cookie_value, session_cookie_name, page_outcome, probe_outcome, origin, login_address,
    course_address, submission_address, origin_url, login_url, course_url, submission_url,
};

verus! {

/// Whether the platform knows this client. It only ever becomes true: when
/// a login succeeds, or when the probe finds a seeded credential valid.
pub struct Session {
    authenticated: bool,
}

impl Session {
    pub closed spec fn logged_in(&self) -> bool {
        self.authenticated
    }

    /// A session the platform does not know yet.
    pub fn new() -> (r: Session)
        ensures
            !r.logged_in(),
    {
        Session { authenticated: false }
    }

    pub fn is_logged_in(&self) -> (r: bool)
        ensures
            r == self.logged_in(),
    {
        self.authenticated
    }
}

/// What the transport observed for the request it was asked to send.
pub enum Reply {
    /// The request could not be sent, or the reply could not be read.
    Failed,
    /// A reply arrived, with its status, its body and the cookies it set.
    Response { status: u16, body: String, cookies: Vec<(String, String)> },
}

/// A request a flow asks the transport to send. Redirects are not followed.
pub enum Request {
    /// GET the platform's root page, to set up cookies.
    GetRoot,
    /// GET the login page.
    GetLogin,
    /// POST the form-encoded login body to the login page, with `Host` and
    /// `Referer` naming the platform.
    PostLogin { body: String },
    /// GET the page of a course.
    GetCourse { course_id: u64 },
    /// POST a multipart upload: the token, the upload method, and each file
    /// as an octet stream, asking for JSON back.
    PostSubmission { course_id: u64, assignment_id: u64, token: String, parts: Vec<FilePart> },
}

/// The address a request goes to.
pub open spec fn address(r: Request) -> Seq<char> {
    match r {
        Request::GetRoot => origin(),
        Request::GetLogin => login_address(),
        Request::PostLogin { .. } => login_address(),
        Request::GetCourse { course_id } => course_address(course_id),
        Request::PostSubmission { course_id, assignment_id, .. } => submission_address(
            course_id,
            assignment_id,
        ),
    }
}

impl Request {
    pub fn url(&self) -> (r: String)
        ensures
            r@ == address(*self),
    {
        match self {
            Request::GetRoot => origin_url(),
            Request::GetLogin => login_url(),
            Request::PostLogin { .. } => login_url(),
            Request::GetCourse { course_id } => course_url(*course_id),
            Request::PostSubmission { course_id, assignment_id, .. } => submission_url(
                *course_id,
                *assignment_id,
            ),
        }
    }
}

/// What a flow does next: send a request, or finish with its result.
pub enum Step<T> {
    Send(Request),
    Finish(Result<T, ClientError>),
}

/// The page a reply carries: only a reply with status 200 has one.
pub open spec fn page_body(reply: Reply) -> Result<Seq<char>, ClientError> {
    match reply {
        Reply::Failed => Err(ClientError::HttpError),
        Reply::Response { status, body, .. } => match page_outcome(status) {
            Ok(_) => Ok(body@),
            Err(e) => Err(e),
        },
    }
}

/// The page a reply carries, or why it carries none.
fn page_text(reply: &Reply) -> (r: Result<String, ClientError>)
    ensures
        match page_body(*reply) {
            Ok(page) => r is Ok && r->Ok_0@ == page,
            Err(e) => r == Err::<String, ClientError>(e),
        },
{
    match reply {
        Reply::Failed => Err(ClientError::HttpError),
        Reply::Response { status, body, .. } => match classify_page(*status) {
            Ok(_) => Ok(body.clone()),
            Err(e) => Err(e),
        },
    }
}

pub enum BootPhase {
    WarmingUp,
    Probing,
    Finished,
}

/// Bootstrap: a visit to the root page, then, for a seeded credential, the
/// session probe.
pub struct BootFlow {
    pub phase: BootPhase,
    pub seeded: bool,
}

pub open spec fn boot_start(seed: Option<Seq<char>>) -> BootFlow {
    BootFlow { phase: BootPhase::WarmingUp, seeded: seed is Some }
}

pub open spec fn boot_next(f: BootFlow, reply: Reply) -> BootFlow {
    match f.phase {
        BootPhase::WarmingUp => if reply is Response && f.seeded {
            BootFlow { phase: BootPhase::Probing, ..f }
        } else {
            BootFlow { phase: BootPhase::Finished, ..f }
        },
        _ => BootFlow { phase: BootPhase::Finished, ..f },
    }
}

/// A failed visit fails bootstrap; a failed or negative probe is only a
/// session that stays unknown.
pub open spec fn boot_step(f: BootFlow, reply: Reply) -> Step<()> {
    match f.phase {
        BootPhase::WarmingUp => match reply {
            Reply::Failed => Step::Finish(Err(ClientError::HttpError)),
            Reply::Response { .. } => if f.seeded {
                Step::Send(Request::GetLogin)
            } else {
                Step::Finish(Ok(()))
            },
        },
        BootPhase::Probing => Step::Finish(Ok(())),
        BootPhase::Finished => Step::Finish(Err(ClientError::InvalidState)),
    }
}

/// The probe reply found the seeded credential valid.
pub open spec fn probe_grants(f: BootFlow, reply: Reply) -> bool {
    &&& f.phase is Probing
    &&& match reply {
        Reply::Response { status, .. } => probe_outcome(status) == Ok::<bool, ClientError>(true),
        Reply::Failed => false,
    }
}

impl BootFlow {
    /// Starts bootstrap; `seed` is the credential the transport was seeded
    /// with, if any.
    pub fn start(seed: &Option<String>) -> (r: (BootFlow, Request))
        ensures
            r.0 == boot_start(
                match seed {
                    Some(s) => Some(s@),
                    None => None,
                },
            ),
            r.1 == Request::GetRoot,
    {
        (BootFlow { phase: BootPhase::WarmingUp, seeded: seed.is_some() }, Request::GetRoot)
    }

    pub fn step(&mut self, session: &mut Session, reply: Reply) -> (r: Step<()>)
        ensures
            *final(self) == boot_next(*old(self), reply),
            r == boot_step(*old(self), reply),
            final(session).logged_in() == (old(session).logged_in() || probe_grants(
                *old(self),
                reply,
            )),
    {
        match self.phase {
            BootPhase::WarmingUp => match reply {
                Reply::Failed => {
                    self.phase = BootPhase::Finished;
                    Step::Finish(Err(ClientError::HttpError))
                },
                Reply::Response { .. } => if self.seeded {
                    self.phase = BootPhase::Probing;
                    Step::Send(Request::GetLogin)
                } else {
                    self.phase = BootPhase::Finished;
                    Step::Finish(Ok(()))
                },
            },
            BootPhase::Probing => {
                self.phase = BootPhase::Finished;
                if let Reply::Response { status, .. } = reply {
                    if let Ok(true) = classify_probe(status) {
                        session.authenticated = true;
                    }
                }
                Step::Finish(Ok(()))
            },
            BootPhase::Finished => Step::Finish(Err(ClientError::InvalidState)),
        }
    }
}

pub enum LoginPhase {
    AwaitingPage,
    AwaitingReply,
    Finished,
}

/// Login: fetch the login page, scrape its token, post the credentials with
/// it, and read the verdict off the reply.
pub struct LoginFlow {
    pub phase: LoginPhase,
    pub email: String,
    pub password: String,
    pub remember_me: bool,
}

/// What the reply to the login page gives: its token, or why there is none.
pub open spec fn login_page_outcome(reply: Reply) -> Result<Seq<char>, ClientError> {
    match page_body(reply) {
        Ok(page) => login_token_of(page),
        Err(e) => Err(e),
    }
}

/// What the reply to the login post gives: the credential, or why there is
/// none.
pub open spec fn login_reply_outcome(reply: Reply) -> Result<Seq<char>, ClientError> {
    match reply {
        Reply::Failed => Err(ClientError::HttpError),
        Reply::Response { status, cookies, .. } => login_outcome(
            status,
            cookie_value(cookies@, session_cookie_name()),
        ),
    }
}

impl LoginFlow {
    /// Starts a login with the given credentials; the first request fetches
    /// the login page.
    pub fn start(email: String, password: String, remember_me: bool) -> (r: (LoginFlow, Request))
        ensures
            r.0.phase == LoginPhase::AwaitingPage,
            r.0.email == email,
            r.0.password == password,
            r.0.remember_me == remember_me,
            r.1 == Request::GetLogin,
    {
        (LoginFlow { phase: LoginPhase::AwaitingPage, email, password, remember_me }, Request::GetLogin)
    }

    pub fn step(&mut self, session: &mut Session, reply: Reply) -> (r: Step<String>)
        ensures
            final(self).email == old(self).email,
            final(self).password == old(self).password,
            final(self).remember_me == old(self).remember_me,
            match old(self).phase {
                LoginPhase::AwaitingPage => {
                    &&& *final(session) == *old(session)
                    &&& match login_page_outcome(reply) {
                        Ok(t) => {
                            &&& final(self).phase == LoginPhase::AwaitingReply
                            &&& match r {
                                Step::Send(Request::PostLogin { body }) => body@ == login_form(
                                    t,
                                    old(self).email@,
                                    old(self).password@,
                                    old(self).remember_me,
                                ),
                                _ => false,
                            }
                        },
                        Err(e) => {
                            &&& final(self).phase == LoginPhase::Finished
                            &&& r == Step::<String>::Finish(Err(e))
                        },
                    }
                },
                LoginPhase::AwaitingReply => {
                    &&& final(self).phase == LoginPhase::Finished
                    &&& match login_reply_outcome(reply) {
                        Ok(c) => {
                            &&& final(session).logged_in()
                            &&& match r {
                                Step::Finish(Ok(v)) => v@ == c,
                                _ => false,
                            }
                        },
                        Err(e) => {
                            &&& *final(session) == *old(session)
                            &&& r == Step::<String>::Finish(Err(e))
                        },
                    }
                },
                LoginPhase::Finished => {
                    &&& final(self).phase == LoginPhase::Finished
                    &&& *final(session) == *old(session)
                    &&& r == Step::<String>::Finish(Err(ClientError::InvalidState))
                },
            },
    {
        match self.phase {
            LoginPhase::AwaitingPage => {
                let token = match page_text(&reply) {
                    Ok(page) => login_token(page.as_str()),
                    Err(e) => Err(e),
                };
                match token {
                    Ok(token) => {
                        let body = login_form_body(
                            token.as_str(),
                            self.email.as_str(),
                            self.password.as_str(),
                            self.remember_me,
                        );
                        self.phase = LoginPhase::AwaitingReply;
                        Step::Send(Request::PostLogin { body })
                    },
                    Err(e) => {
                        self.phase = LoginPhase::Finished;
                        Step::Finish(Err(e))
                    },
                }
            },
            LoginPhase::AwaitingReply => {
                self.phase = LoginPhase::Finished;
                let verdict = match reply {
                    Reply::Failed => Err(ClientError::HttpError),
                    Reply::Response { status, cookies, .. } => classify_login(status, &cookies),
                };
                if verdict.is_ok() {
                    session.authenticated = true;
                }
                Step::Finish(verdict)
            },
            LoginPhase::Finished => Step::Finish(Err(ClientError::InvalidState)),
        }
    }
}

pub enum SubmitPhase {
    AwaitingCoursePage,
    AwaitingReply,
    Finished,
}

/// The platform's reply to an upload, as it came: its status and its JSON
/// body. Whether the platform accepted the upload is read off that body by
/// the caller; the protocol gives no rule for it.
pub struct Submitted {
    pub status: u16,
    pub body: String,
}

/// Submission: fetch the course page, scrape its token, and post every file
/// of the assignment in one multipart upload.
pub struct SubmitFlow {
    pub phase: SubmitPhase,
    pub course_id: u64,
    pub assignment_id: u64,
    pub parts: Vec<FilePart>,
}

/// What the reply to the course page gives: its token, or why there is none.
pub open spec fn course_page_outcome(reply: Reply) -> Result<Seq<char>, ClientError> {
    match page_body(reply) {
        Ok(page) => course_token_of(page),
        Err(e) => Err(e),
    }
}

impl SubmitFlow {
    /// Starts a submission of `files` to an assignment. Without an
    /// authenticated session it fails with `InvalidState`, and with a path
    /// that names no file with `FileError`, before any request; else the
    /// first request fetches the course page.
    pub fn start(session: &Session, course_id: u64, assignment_id: u64, files: &Vec<String>) -> (r:
        (SubmitFlow, Step<Submitted>))
        ensures
            r.0.course_id == course_id,
            r.0.assignment_id == assignment_id,
            !session.logged_in() ==> {
                &&& r.0.phase == SubmitPhase::Finished
                &&& r.1 == Step::<Submitted>::Finish(Err(ClientError::InvalidState))
            },
            session.logged_in() && all_named(files@) ==> {
                &&& r.0.phase == SubmitPhase::AwaitingCoursePage
                &&& r.1 == Step::<Submitted>::Send(Request::GetCourse { course_id })
                &&& r.0.parts@.len() == files@.len()
                &&& forall|i: int|
                    0 <= i < files@.len() ==> {
                        &&& (#[trigger] r.0.parts@[i]).path@ == files@[i]@
                        &&& file_name(files@[i]@) == Some(r.0.parts@[i].file_name@)
                    }
            },
            session.logged_in() && !all_named(files@) ==> {
                &&& r.0.phase == SubmitPhase::Finished
                &&& exists|k: int|
                    first_nameless(files@, k) && match r.1 {
                        Step::Finish(Err(ClientError::FileError(p))) => p@ == (
                        #[trigger] files@[k])@,
                        _ => false,
                    }
            },
    {
        if !session.authenticated {
            let flow = SubmitFlow {
                phase: SubmitPhase::Finished,
                course_id,
                assignment_id,
                parts: Vec::new(),
            };
            return (flow, Step::Finish(Err(ClientError::InvalidState)));
        }
        match plan_parts(files) {
            Ok(parts) => {
                let flow = SubmitFlow {
                    phase: SubmitPhase::AwaitingCoursePage,
                    course_id,
                    assignment_id,
                    parts,
                };
                (flow, Step::Send(Request::GetCourse { course_id }))
            },
            Err(e) => {
                let flow = SubmitFlow {
                    phase: SubmitPhase::Finished,
                    course_id,
                    assignment_id,
                    parts: Vec::new(),
                };
                (flow, Step::Finish(Err(e)))
            },
        }
    }

    pub fn step(&mut self, reply: Reply) -> (r: Step<Submitted>)
        ensures
            final(self).course_id == old(self).course_id,
            final(self).assignment_id == old(self).assignment_id,
            match old(self).phase {
                SubmitPhase::AwaitingCoursePage => match course_page_outcome(reply) {
                    Ok(t) => {
                        &&& final(self).phase == SubmitPhase::AwaitingReply
                        &&& match r {
                            Step::Send(
                                Request::PostSubmission { course_id, assignment_id, token, parts },
                            ) => {
                                &&& course_id == old(self).course_id
                                &&& assignment_id == old(self).assignment_id
                                &&& token@ == t
                                &&& parts@ == old(self).parts@
                            },
                            _ => false,
                        }
                    },
                    Err(e) => {
                        &&& final(self).phase == SubmitPhase::Finished
                        &&& r == Step::<Submitted>::Finish(Err(e))
                    },
                },
                SubmitPhase::AwaitingReply => {
                    &&& final(self).phase == SubmitPhase::Finished
                    &&& match reply {
                        Reply::Failed => r == Step::<Submitted>::Finish(Err(ClientError::HttpError)),
                        Reply::Response { status, body, .. } => match r {
                            Step::Finish(Ok(s)) => s.status == status && s.body@ == body@,
                            _ => false,
                        },
                    }
                },
                SubmitPhase::Finished => {
                    &&& final(self).phase == SubmitPhase::Finished
                    &&& r == Step::<Submitted>::Finish(Err(ClientError::InvalidState))
                },
            },
    {
        match self.phase {
            SubmitPhase::AwaitingCoursePage => {
                let token = match page_text(&reply) {
                    Ok(page) => course_token(page.as_str()),
                    Err(e) => Err(e),
                };
                match token {
                    Ok(token) => {
                        let mut parts: Vec<FilePart> = Vec::new();
                        std::mem::swap(&mut parts, &mut self.parts);
                        self.phase = SubmitPhase::AwaitingReply;
                        Step::Send(
                            Request::PostSubmission {
                                course_id: self.course_id,
                                assignment_id: self.assignment_id,
                                token,
                                parts,
                            },
                        )
                    },
                    Err(e) => {
                        self.phase = SubmitPhase::Finished;
                        Step::Finish(Err(e))
                    },
                }
            },
            SubmitPhase::AwaitingReply => {
                self.phase = SubmitPhase::Finished;
                match reply {
                    Reply::Failed => Step::Finish(Err(ClientError::HttpError)),
                    Reply::Response { status, body, .. } => Step::Finish(
                        Ok(Submitted { status, body }),
                    ),
                }
            },
            SubmitPhase::Finished => Step::Finish(Err(ClientError::InvalidState)),
        }
    }
}

/// A credential handed out by a login, stored, and used to seed the next
/// session restores that session without a login: bootstrap visits the root
/// page, probes the login page, and ends authenticated once the probe finds
/// the credential valid. Neither request it sends posts a login form.
pub proof fn lemma_stored_credential_restores_session(
    login_reply: Reply,
    warm_up: Reply,
    probe: Reply,
)
    requires
        login_reply_outcome(login_reply) is Ok,
        warm_up is Response,
        probe matches Reply::Response { status, .. } && status == 404,
    ensures
        ({
            let boot = boot_start(Some(login_reply_outcome(login_reply)->Ok_0));
            let probing = boot_next(boot, warm_up);
            &&& boot_step(boot, warm_up) == Step::<()>::Send(Request::GetLogin)
            &&& probe_grants(probing, probe)
            &&& boot_step(probing, probe) == Step::<()>::Finish(Ok(()))
            &&& boot_next(probing, probe).phase is Finished
        }),
{
}

} // verus!
