//! The wire protocol: addresses, the login form, and the decision table of
//! each endpoint.
use vstd::prelude::*;
use vstd::string::StringExecFns;

use crate::error::ClientError;

verus! {

/// The platform's host, sent as `Host` with the login post.
pub const HOST: &'static str = "www.gradescope.com";

/// The multipart field that carries the course page's token.
pub const TOKEN_FIELD: &'static str = "authenticity_token";

/// The multipart field that says how the files are handed in, and its value.
pub const METHOD_FIELD: &'static str = "submission[method]";

pub const METHOD_UPLOAD: &'static str = "upload";

/// The multipart field of each file.
pub const FILES_FIELD: &'static str = "submission[files][]";

/// The content type every file is sent with, whatever it holds.
pub const FILE_TYPE: &'static str = "application/octet-stream";

/// The content type of the login post.
pub const FORM_TYPE: &'static str = "application/x-www-form-urlencoded";

/// What the upload asks to get back.
pub const REPLY_TYPE: &'static str = "application/json";

/// The character of a decimal digit.
pub open spec fn digit_char(d: nat) -> char {
    ((48 + d) as u8) as char
}

/// The decimal notation of `n`, without leading zeros.
pub open spec fn decimal(n: nat) -> Seq<char>
    decreases n,
{
    if n < 10 {
        seq![digit_char(n)]
    } else {
        decimal(n / 10).push(digit_char(n % 10))
    }
}

/// Relies on String::push: the character is appended at the end.
#[verifier::external_body]
fn push_char(s: &mut String, c: char)
    ensures
        final(s)@ == old(s)@.push(c),
{
    s.push(c)
}

/// Appends the decimal notation of `n` to `s`.
pub fn append_decimal(s: &mut String, n: u64)
    ensures
        final(s)@ == old(s)@ + decimal(n as nat),
    decreases n,
{
    if n >= 10 {
        append_decimal(s, n / 10);
    }
    let d = (n % 10) as u8;
    push_char(s, (48u8 + d) as char);
    assert(s@ =~= old(s)@ + decimal(n as nat));
}

/// The platform's origin.
pub open spec fn origin() -> Seq<char> {
    "https://www.gradescope.com"@
}

/// The login page, which is also where the login form is posted.
pub open spec fn login_address() -> Seq<char> {
    "https://www.gradescope.com/login"@
}

/// The page of a course.
pub open spec fn course_address(course_id: u64) -> Seq<char> {
    "https://www.gradescope.com/courses/"@ + decimal(course_id as nat)
}

/// Where the files of an assignment are posted.
pub open spec fn submission_address(course_id: u64, assignment_id: u64) -> Seq<char> {
    course_address(course_id) + "/assignments/"@ + decimal(assignment_id as nat)
        + "/submissions"@
}

pub fn origin_url() -> (r: String)
    ensures
        r@ == origin(),
{
    String::from_str("https://www.gradescope.com")
}

pub fn login_url() -> (r: String)
    ensures
        r@ == login_address(),
{
    String::from_str("https://www.gradescope.com/login")
}

pub fn course_url(course_id: u64) -> (r: String)
    ensures
        r@ == course_address(course_id),
{
    let mut r = String::from_str("https://www.gradescope.com/courses/");
    append_decimal(&mut r, course_id);
    r
}

pub fn submission_url(course_id: u64, assignment_id: u64) -> (r: String)
    ensures
        r@ == submission_address(course_id, assignment_id),
{
    let mut r = course_url(course_id);
    r.append("/assignments/");
    append_decimal(&mut r, assignment_id);
    r.append("/submissions");
    r
}

/// Bytes that a form value carries as they are: ASCII letters, digits and `-._~`.
pub open spec fn unreserved(b: u8) -> bool {
    (48 <= b <= 57) || (65 <= b <= 90) || (97 <= b <= 122) || b == 45 || b == 46 || b == 95
        || b == 126
}

/// An upper-case hexadecimal digit.
pub open spec fn hex_digit(d: u8) -> char {
    if d < 10 {
        ((48 + d) as u8) as char
    } else {
        ((55 + d) as u8) as char
    }
}

/// One byte of a form value: itself if unreserved, else `%` and two hex digits.
pub open spec fn escaped_byte(b: u8) -> Seq<char> {
    if unreserved(b) {
        seq![b as char]
    } else {
        seq!['%', hex_digit(b / 16), hex_digit(b % 16)]
    }
}

/// The percent-encoding of a byte string.
pub open spec fn percent_encoded(bytes: Seq<u8>) -> Seq<char>
    decreases bytes.len(),
{
    if bytes.len() == 0 {
        seq![]
    } else {
        escaped_byte(bytes[0]) + percent_encoded(bytes.drop_first())
    }
}

/// How a text is written as a form value: its UTF-8 bytes, percent-encoded.
pub open spec fn form_value(s: Seq<char>) -> Seq<char> {
    percent_encoded(vstd::utf8::encode_utf8(s))
}

/// Relies on urlencoding::encode, which percent-encodes every byte of the
/// UTF-8 text but ASCII letters, digits and `-._~`, with upper-case digits.
#[verifier::external_body]
fn url_encode(s: &str) -> (r: String)
    ensures
        r@ == form_value(s@),
{
    urlencoding::encode(s).into_owned()
}

/// The value of the "remember me" field.
pub open spec fn remember_flag(remember_me: bool) -> Seq<char> {
    if remember_me {
        "1"@
    } else {
        "0"@
    }
}

/// The body of the login form.
pub open spec fn login_form(
    token: Seq<char>,
    email: Seq<char>,
    password: Seq<char>,
    remember_me: bool,
) -> Seq<char> {
    "authenticity_token="@ + form_value(token) + "&session[email]="@ + form_value(email)
        + "&session[password]="@ + form_value(password) + "&session[remember_me]="@
        + remember_flag(remember_me) + "&commit=Log in&session[remember_me_sso]=0"@
}

/// Builds the form-encoded body of the login request.
pub fn login_form_body(token: &str, email: &str, password: &str, remember_me: bool) -> (r: String)
    ensures
        r@ == login_form(token@, email@, password@, remember_me),
{
    let mut r = String::from_str("authenticity_token=");
    let t = url_encode(token);
    r.append(t.as_str());
    r.append("&session[email]=");
    let e = url_encode(email);
    r.append(e.as_str());
    r.append("&session[password]=");
    let p = url_encode(password);
    r.append(p.as_str());
    r.append("&session[remember_me]=");
    if remember_me {
        r.append("1");
    } else {
        r.append("0");
    }
    r.append("&commit=Log in&session[remember_me_sso]=0");
    r
}

/// The name of the cookie that carries the session credential.
pub open spec fn session_cookie_name() -> Seq<char> {
    "signed_token"@
}

/// The value of the first cookie named `name`, from position `i` on.
pub open spec fn cookie_from(cookies: Seq<(String, String)>, name: Seq<char>, i: int) -> Option<
    Seq<char>,
>
    decreases cookies.len() - i,
{
    if i < 0 || i >= cookies.len() {
        None
    } else if cookies[i].0@ == name {
        Some(cookies[i].1@)
    } else {
        cookie_from(cookies, name, i + 1)
    }
}

/// The value of the first cookie named `name`.
pub open spec fn cookie_value(cookies: Seq<(String, String)>, name: Seq<char>) -> Option<Seq<char>> {
    cookie_from(cookies, name, 0)
}

/// Looks up the first cookie of the given name among (name, value) pairs.
pub fn find_cookie(cookies: &Vec<(String, String)>, name: &str) -> (r: Option<String>)
    ensures
        match cookie_value(cookies@, name@) {
            Some(v) => r is Some && r->Some_0@ == v,
            None => r is None,
        },
{
    let wanted = String::from_str(name);
    let mut i: usize = 0;
    while i < cookies.len()
        invariant
            0 <= i <= cookies@.len(),
            wanted@ == name@,
            cookie_value(cookies@, name@) == cookie_from(cookies@, name@, i as int),
        decreases cookies@.len() - i,
    {
        if cookies[i].0 == wanted {
            return Some(cookies[i].1.clone());
        }
        i += 1;
    }
    None
}

/// The session probe's table: 404 means the session is valid, 401 that it
/// is not; any other status breaks the contract.
pub open spec fn probe_outcome(status: u16) -> Result<bool, ClientError> {
    if status == 404 {
        Ok(true)
    } else if status == 401 {
        Ok(false)
    } else {
        Err(ClientError::HttpError)
    }
}

pub fn classify_probe(status: u16) -> (r: Result<bool, ClientError>)
    ensures
        r == probe_outcome(status),
{
    if status == 404 {
        Ok(true)
    } else if status == 401 {
        Ok(false)
    } else {
        Err(ClientError::HttpError)
    }
}

/// A page is only read from a 200 reply.
pub open spec fn page_outcome(status: u16) -> Result<(), ClientError> {
    if status == 200 {
        Ok(())
    } else {
        Err(ClientError::HttpError)
    }
}

pub fn classify_page(status: u16) -> (r: Result<(), ClientError>)
    ensures
        r == page_outcome(status),
{
    if status == 200 {
        Ok(())
    } else {
        Err(ClientError::HttpError)
    }
}

/// The login post's table: a redirect that sets the session cookie hands
/// out its value; a redirect without it is incomplete; any other status
/// means the credentials were rejected.
pub open spec fn login_outcome(status: u16, session_cookie: Option<Seq<char>>) -> Result<
    Seq<char>,
    ClientError,
> {
    if status == 302 {
        match session_cookie {
            Some(c) => Ok(c),
            None => Err(ClientError::HttpError),
        }
    } else {
        Err(ClientError::InvalidLogin)
    }
}

pub fn classify_login(status: u16, cookies: &Vec<(String, String)>) -> (r: Result<
    String,
    ClientError,
>)
    ensures
        match login_outcome(status, cookie_value(cookies@, session_cookie_name())) {
            Ok(c) => r is Ok && r->Ok_0@ == c,
            Err(e) => r == Err::<String, ClientError>(e),
        },
{
    if status == 302 {
        match find_cookie(cookies, "signed_token") {
            Some(c) => Ok(c),
            None => Err(ClientError::HttpError),
        }
    } else {
        Err(ClientError::InvalidLogin)
    }
}

} // verus!
