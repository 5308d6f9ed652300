use vstd::prelude::*;
use crate::logging::{Level, Logger, LoggerData};
use vstd::string::StringSliceAdditionalSpecFns;
use vstd::utf8::{encode_utf8, is_char_boundary};

verus! {

/// Why a login attempt failed.
#[derive(Clone, Copy, Debug, PartialEq, Eq, Structural)]
pub enum Error {
    Network,
    OpenQRCode,
    Service,
    ContentGet,
    ParseKey,
    Account,
    Input,
    Encrypt,
}

impl Error {
    /// The severity a login error is reported at.
    pub open spec fn level(self) -> Level {
        match self {
            Error::Network | Error::OpenQRCode | Error::ParseKey | Error::Input
            | Error::Encrypt => Level::Error,
            Error::Service | Error::ContentGet | Error::Account => Level::Warn,
        }
    }

    /// The user-facing text of a login error.
    pub open spec fn message(self) -> Seq<char> {
        match self {
            Error::Network => "网络不通，请检查网络。"@,
            Error::OpenQRCode => "无法生成二维码，可能是网络问题"@,
            Error::Service => "学校服务遇到异常，请重试"@,
            Error::ContentGet => "无法获得页面内容，请重试"@,
            Error::ParseKey => "获取页面Execution或Salt异常"@,
            Error::Account => "账号可能被风控，请使用扫码登录"@,
            Error::Input => "输入异常"@,
            Error::Encrypt => "密码加密失败"@,
        }
    }

    pub fn log_data(&self) -> (r: LoggerData)
        ensures
            r.level == self.level(),
            r.data@ == self.message(),
    {
        match *self {
            Error::Network => LoggerData::new(Level::Error, "网络不通，请检查网络。"),
            Error::OpenQRCode => LoggerData::new(Level::Error, "无法生成二维码，可能是网络问题"),
            Error::Service => LoggerData::new(Level::Warn, "学校服务遇到异常，请重试"),
            Error::ContentGet => LoggerData::new(Level::Warn, "无法获得页面内容，请重试"),
            Error::ParseKey => LoggerData::new(Level::Error, "获取页面Execution或Salt异常"),
            Error::Account => LoggerData::new(Level::Warn, "账号可能被风控，请使用扫码登录"),
            Error::Input => LoggerData::new(Level::Error, "输入异常"),
            Error::Encrypt => LoggerData::new(Level::Error, "密码加密失败"),
        }
    }
}

impl Logger for Error {
    fn get_logger(&self) -> LoggerData {
        self.log_data()
    }
}


/// A form field: name and value.
pub type Field = (String, String);

/// The view of a form: its fields as pairs of character sequences.
pub open spec fn form_view(f: Seq<Field>) -> Seq<(Seq<char>, Seq<char>)> {
    f.map_values(|p: Field| (p.0@, p.1@))
}

/// The fields of the QR-code login form, in order.
pub open spec fn qrcode_form(qrcode_id: Seq<char>, execution: Seq<char>) -> Seq<(Seq<char>, Seq<char>)> {
    seq![
        ("lt"@, ""@),
        ("uuid"@, qrcode_id),
        ("cllt"@, "qrLogin"@),
        ("dllt"@, "generalLogin"@),
        ("execution"@, execution),
        ("_eventId"@, "submit"@),
        ("rmShown"@, "1"@),
    ]
}

/// The fields of the password login form, in order.
pub open spec fn pwd_form(username: Seq<char>, password: Seq<char>, execution: Seq<char>) -> Seq<(Seq<char>, Seq<char>)> {
    seq![
        ("username"@, username),
        ("password"@, password),
        ("captcha"@, ""@),
        ("_eventId"@, "submit"@),
        ("cllt"@, "userNameLogin"@),
        ("dllt"@, "generalLogin"@),
        ("lt"@, ""@),
        ("execution"@, execution),
    ]
}

fn field(name: &str, value: &str) -> (r: Field)
    ensures
        r.0@ == name@,
        r.1@ == value@,
{
    (name.to_owned(), value.to_owned())
}

/// The form that completes a QR-code login.
pub fn get_qrcode_data(qrcode_id: &str, execution: &str) -> (r: Vec<Field>)
    ensures
        form_view(r@) == qrcode_form(qrcode_id@, execution@),
{
    let mut r: Vec<Field> = Vec::new();
    r.push(field("lt", ""));
    r.push(field("uuid", qrcode_id));
    r.push(field("cllt", "qrLogin"));
    r.push(field("dllt", "generalLogin"));
    r.push(field("execution", execution));
    r.push(field("_eventId", "submit"));
    r.push(field("rmShown", "1"));
    assert(form_view(r@) =~= qrcode_form(qrcode_id@, execution@));
    r
}

/// The form that completes a password login; `salt_passwd` is the
/// transformed password.
pub fn get_pwd_data(username: &str, salt_passwd: &str, execution: &str) -> (r: Vec<Field>)
    ensures
        form_view(r@) == pwd_form(username@, salt_passwd@, execution@),
{
    let mut r: Vec<Field> = Vec::new();
    r.push(field("username", username));
    r.push(field("password", salt_passwd));
    r.push(field("captcha", ""));
    r.push(field("_eventId", "submit"));
    r.push(field("cllt", "userNameLogin"));
    r.push(field("dllt", "generalLogin"));
    r.push(field("lt", ""));
    r.push(field("execution", execution));
    assert(form_view(r@) =~= pwd_form(username@, salt_passwd@, execution@));
    r
}

/// Length in bytes of the parameter name that precedes the service URL in
/// the login redirect's query (`service=`).
pub const SERVICE_PREFIX_LEN: usize = 8;

/// Whether a redirect query is long enough to hold a service URL, and is not
/// cut inside a character after its first eight bytes.
pub open spec fn has_service(q: Seq<char>) -> bool {
    is_char_boundary(encode_utf8(q), SERVICE_PREFIX_LEN as int)
}

/// The UTF-8 bytes of the service URL a redirect query carries.
pub open spec fn service_bytes(q: Seq<char>) -> Seq<u8> {
    encode_utf8(q).subrange(SERVICE_PREFIX_LEN as int, encode_utf8(q).len() as int)
}

/// The service URL carried by the login redirect's query: the query without
/// its first eight bytes. `Service` when there is no query, or when it is too
/// short or cut inside a character at that point.
pub fn get_service(query: Option<&str>) -> (r: Result<String, Error>)
    ensures
        match query {
            None => r == Err::<String, Error>(Error::Service),
            Some(q) => if has_service(q@) {
                r matches Ok(s) && encode_utf8(s@) == service_bytes(q@)
            } else {
                r == Err::<String, Error>(Error::Service)
            },
        },
{
    match query {
        None => Err(Error::Service),
        Some(q) => {
            if q.is_char_boundary(SERVICE_PREFIX_LEN) {
                let (_, rest) = q.split_at(SERVICE_PREFIX_LEN);
                let s = rest.to_owned();
                assert(encode_utf8(s@) == rest.spec_bytes());
                Ok(s)
            } else {
                Err(Error::Service)
            }
        },
    }
}

/// Decides whether the password flow may go on after the captcha check:
/// `Account` when the service asks for a captcha or does not say.
pub fn check_captcha(is_need: Option<bool>) -> (r: Result<(), Error>)
    ensures
        r is Ok <==> is_need == Some(false),
        r matches Err(e) ==> e == Error::Account,
{
    match is_need {
        Some(false) => Ok(()),
        _ => Err(Error::Account),
    }
}

/// Name of the cookie that carries the session credential.
pub open spec fn session_cookie_name() -> Seq<char> {
    "session"@
}

/// Whether the cookie at `i` is the first one named `session`.
pub open spec fn first_session_cookie(cookies: Seq<Field>, i: int) -> bool {
    &&& 0 <= i < cookies.len()
    &&& cookies[i].0@ == session_cookie_name()
    &&& forall|j: int| 0 <= j < i ==> (#[trigger] cookies[j]).0@ != session_cookie_name()
}

/// Whether some cookie is named `session`.
pub open spec fn has_session_cookie(cookies: Seq<Field>) -> bool {
    exists|i: int| 0 <= i < cookies.len() && (#[trigger] cookies[i]).0@ == session_cookie_name()
}

/// The value of the first cookie named `session`, or `Account` when the
/// response set none.
pub fn session_from_cookies(cookies: &Vec<Field>) -> (r: Result<String, Error>)
    ensures
        r is Ok <==> has_session_cookie(cookies@),
        r matches Ok(v) ==> exists|i: int| first_session_cookie(cookies@, i) && v@ == cookies@[i].1@,
        r matches Err(e) ==> e == Error::Account,
{
    let name = "session".to_owned();
    let mut i: usize = 0;
    while i < cookies.len()
        invariant
            i <= cookies@.len(),
            name@ == session_cookie_name(),
            forall|j: int| 0 <= j < i ==> (#[trigger] cookies@[j]).0@ != session_cookie_name(),
        decreases cookies@.len() - i,
    {
        if cookies[i].0 == name {
            assert(first_session_cookie(cookies@, i as int));
            return Ok(cookies[i].1.clone());
        }
        i = i + 1;
    }
    Err(Error::Account)
}

/// The slot that holds the session credential of the last successful login.
pub struct SessionStore {
    session: Option<String>,
}

impl SessionStore {
    pub closed spec fn credential(&self) -> Option<Seq<char>> {
        match self.session {
            Some(s) => Some(s@),
            None => None,
        }
    }

    /// An empty slot: nobody has logged in yet.
    pub fn new() -> (r: Self)
        ensures
            r.credential() is None,
    {
        SessionStore { session: None }
    }

    /// Ends a login attempt on the cookies of its last response: stores the
    /// first `session` cookie and succeeds, or fails with `Account` and leaves
    /// the slot as it was.
    pub fn complete_login(&mut self, cookies: &Vec<Field>) -> (r: Result<(), Error>)
        ensures
            r is Ok <==> has_session_cookie(cookies@),
            r is Ok ==> exists|i: int| first_session_cookie(cookies@, i)
                && final(self).credential() == Some(cookies@[i].1@),
            r matches Err(e) ==> e == Error::Account && final(self).credential() == old(self).credential(),
    {
        match session_from_cookies(cookies) {
            Ok(v) => {
                self.session = Some(v);
                Ok(())
            },
            Err(e) => Err(e),
        }
    }
}

/// The credential of the last successful login, if any.
pub fn get_session(store: &SessionStore) -> (r: Option<String>)
    ensures
        match r {
            Some(s) => store.credential() == Some(s@),
            None => store.credential() is None,
        },
{
    match &store.session {
        Some(s) => Some(s.clone()),
        None => None,
    }
}

/// Relies on `SystemTime::now` and `SystemTime::duration_since(UNIX_EPOCH)`:
/// the milliseconds elapsed since the epoch, `None` when the clock is set
/// before it.
#[verifier::external_body]
fn millis_since_epoch() -> (r: Option<u128>)
{
    std::time::SystemTime::now().duration_since(std::time::UNIX_EPOCH).ok().map(|d| d.as_millis())
}

/// Milliseconds since the Unix epoch, or 0 when the clock reads earlier.
pub fn get_timestamp() -> (r: u128)
{
    match millis_since_epoch() {
        Some(t) => t,
        None => 0,
    }
}

} // verus!
