use vstd::prelude::*;
use vstd::string::StringExecFns;
use vstd::utf8::encode_utf8;
use crate::login::{
    check_captcha, form_view, get_pwd_data, get_qrcode_data, get_service, pwd_form, qrcode_form,
    Error, Field, SessionStore, has_session_cookie, has_service, service_bytes,
};
use crate::cipher::{aes_cbc_pkcs7, base64_of, cipher_input, from_alphabet, transform_password, valid_key_len};
use crate::qrcode::{poll_action, PollAction, State, UrlConsoleQRCode};
use crate::tokens::{first_capture, get_execution, get_salt, EXECUTION_PATTERN, SALT_PATTERN};

verus! {

/// Login page of the QR flow; the service URL follows.
pub const QR_LOGIN_PAGE: &'static str = "https://ids.xmu.edu.cn/authserver/login?type=qrLogin&service=";

/// Where the QR flow submits its form; the service URL follows.
pub const QR_LOGIN_SUBMIT: &'static str = "https://ids.xmu.edu.cn/authserver/login?display=qrLogin&service=";

/// Login page of the password flow; the service URL follows.
pub const PWD_LOGIN_PAGE: &'static str = "https://ids.xmu.edu.cn/authserver/login?type=userNameLogin&service=";

/// Where the password flow submits its form; the service URL follows.
pub const PWD_LOGIN_SUBMIT: &'static str = "https://ids.xmu.edu.cn/authserver/login?type=service=";

/// What the driver of a login flow must do next.
pub enum Action {
    /// Fetch this URL with the session client and report the query of the
    /// URL the response came from.
    Resolve(String),
    /// Fetch this URL with the session client and report the page's text.
    Get(String),
    /// Post this form to this URL and report the response's cookies.
    Post(String, Vec<Field>),
    /// Ask the service whether this account must solve a captcha.
    CheckCaptcha(String),
    /// Read the password from the user.
    AskPassword,
    /// Request a fresh QR-code token.
    FetchToken,
    /// Fetch, decode and show the code of this token.
    ShowCode(String),
    /// Ask for the state of this token.
    Poll(String),
    /// The attempt is over.
    Done(Result<(), Error>),
}

/// What the driver reports after carrying out an action.
pub enum Event {
    /// The service's `isNeed` answer, if it gave a boolean one.
    Captcha(Option<bool>),
    Password(String),
    /// The query of the URL that a `Get` of the target ended on.
    Redirected(Option<String>),
    /// The text of a fetched page.
    Page(String),
    /// A fresh QR-code token.
    Token(String),
    CodeShown,
    Polled(Option<State>),
    /// The cookies set by the response to a `Post`.
    Cookies(Vec<Field>),
    /// The action could not be carried out.
    Failed(Error),
}

/// Where a QR-code login stands.
#[derive(Clone, Copy, Debug, PartialEq, Eq, Structural)]
pub enum QrStage {
    ResolveService,
    FetchPage,
    FetchToken,
    ShowCode,
    Poll,
    Submit,
    Finished,
}

/// A QR-code login in progress.
pub struct QrLogin {
    stage: QrStage,
    service: String,
    execution: String,
    qrcode: UrlConsoleQRCode,
}

/// Starts a QR-code login for `target`: the first action fetches it, to
/// learn the service from where it redirects.
pub fn qr_login(target: &str) -> (r: (QrLogin, Action))
    ensures
        r.0.stage() == QrStage::ResolveService,
        r.1 matches Action::Resolve(u) && u@ == target@,
{
    (
        QrLogin {
            stage: QrStage::ResolveService,
            service: String::new(),
            execution: String::new(),
            qrcode: UrlConsoleQRCode::new(""),
        },
        Action::Resolve(target.to_owned()),
    )
}

fn with_service(prefix: &str, service: &String) -> (r: String)
    ensures
        r@ == prefix@ + service@,
{
    let mut u = prefix.to_owned();
    u.append(service.as_str());
    u
}

/// Ends an attempt on the cookies of its last response.
fn finish(store: &mut SessionStore, cookies: &Vec<Field>) -> (r: Result<(), Error>)
    ensures
        r == (if has_session_cookie(cookies@) { Ok::<(), Error>(()) } else { Err(Error::Account) }),
        !has_session_cookie(cookies@) ==> final(store).credential() == old(store).credential(),
{
    match store.complete_login(cookies) {
        Ok(()) => Ok(()),
        Err(_) => Err(Error::Account),
    }
}

impl QrLogin {
    pub closed spec fn stage(&self) -> QrStage {
        self.stage
    }

    pub closed spec fn service(&self) -> Seq<char> {
        self.service@
    }

    pub closed spec fn execution(&self) -> Seq<char> {
        self.execution@
    }

    pub closed spec fn token(&self) -> Seq<char> {
        self.qrcode.id()
    }

    /// Advances the login on the driver's report of the last action. A
    /// failure, or a report that does not fit the stage, ends the attempt.
    /// While polling, the attempt goes on to submit its form on `Success`
    /// only and asks for a new token on `Outdated` only.
    pub fn step(&mut self, event: Event, store: &mut SessionStore) -> (r: Action)
        ensures
            (r is Done) <==> final(self).stage() == QrStage::Finished,
            event matches Event::Failed(e) ==> r == Action::Done(Err(e)),
            old(self).stage() != QrStage::Submit ==> final(store).credential() == old(store).credential(),
            match (old(self).stage(), event) {
                (QrStage::ResolveService, Event::Redirected(q)) => match q {
                    None => r == Action::Done(Err(Error::Service)),
                    Some(q) => if has_service(q@) {
                        r matches Action::Get(u) && final(self).stage() == QrStage::FetchPage
                            && encode_utf8(final(self).service()) == service_bytes(q@)
                            && u@ == QR_LOGIN_PAGE@ + final(self).service()
                    } else {
                        r == Action::Done(Err(Error::Service))
                    },
                },
                (QrStage::FetchPage, Event::Page(text)) => match first_capture(EXECUTION_PATTERN@, text@) {
                    Some(x) => r == Action::FetchToken && final(self).stage() == QrStage::FetchToken
                        && final(self).execution() == x
                        && final(self).service() == old(self).service(),
                    None => r == Action::Done(Err(Error::ParseKey)),
                },
                (QrStage::FetchToken, Event::Token(id)) => r matches Action::ShowCode(t)
                    && t@ == id@ && final(self).token() == id@
                    && final(self).stage() == QrStage::ShowCode
                    && final(self).service() == old(self).service()
                    && final(self).execution() == old(self).execution(),
                (QrStage::ShowCode, Event::CodeShown) => r matches Action::Poll(t)
                    && t@ == old(self).token() && final(self).stage() == QrStage::Poll,
                (QrStage::Poll, Event::Polled(s)) => match s {
                    Some(State::Success) => r matches Action::Post(u, f)
                        && u@ == QR_LOGIN_SUBMIT@ + old(self).service()
                        && form_view(f@) == qrcode_form(old(self).token(), old(self).execution())
                        && final(self).stage() == QrStage::Submit,
                    Some(State::Outdated) => r == Action::FetchToken
                        && final(self).stage() == QrStage::FetchToken,
                    _ => r matches Action::Poll(t) && t@ == old(self).token()
                        && final(self).stage() == QrStage::Poll,
                },
                (QrStage::Submit, Event::Cookies(c)) => r == Action::Done(
                    if has_session_cookie(c@) { Ok(()) } else { Err(Error::Account) },
                ),
                (_, Event::Failed(_)) => true,
                _ => r == Action::Done(Err(Error::Service)),
            },
    {
        let stage = self.stage;
        let r = match (stage, event) {
            (_, Event::Failed(e)) => Action::Done(Err(e)),
            (QrStage::ResolveService, Event::Redirected(q)) => {
                let q_str: Option<&str> = match &q {
                    Some(s) => Some(s.as_str()),
                    None => None,
                };
                match get_service(q_str) {
                    Ok(s) => {
                        self.service = s;
                        self.stage = QrStage::FetchPage;
                        Action::Get(with_service(QR_LOGIN_PAGE, &self.service))
                    },
                    Err(e) => Action::Done(Err(e)),
                }
            },
            (QrStage::FetchPage, Event::Page(text)) => match get_execution(text.as_str()) {
                Ok(x) => {
                    self.execution = x;
                    self.stage = QrStage::FetchToken;
                    Action::FetchToken
                },
                Err(e) => Action::Done(Err(e)),
            },
            (QrStage::FetchToken, Event::Token(id)) => {
                self.qrcode.renew(id.as_str());
                self.stage = QrStage::ShowCode;
                Action::ShowCode(id)
            },
            (QrStage::ShowCode, Event::CodeShown) => {
                self.stage = QrStage::Poll;
                Action::Poll(self.qrcode.get_id().to_owned())
            },
            (QrStage::Poll, Event::Polled(s)) => match poll_action(s) {
                PollAction::KeepPolling => Action::Poll(self.qrcode.get_id().to_owned()),
                PollAction::Regenerate => {
                    self.stage = QrStage::FetchToken;
                    Action::FetchToken
                },
                PollAction::Finish => {
                    self.stage = QrStage::Submit;
                    let form = get_qrcode_data(self.qrcode.get_id(), self.execution.as_str());
                    Action::Post(with_service(QR_LOGIN_SUBMIT, &self.service), form)
                },
            },
            (QrStage::Submit, Event::Cookies(c)) => Action::Done(finish(store, &c)),
            _ => Action::Done(Err(Error::Service)),
        };
        if let Action::Done(_) = &r {
            self.stage = QrStage::Finished;
        }
        r
    }
}


/// Where a password login stands.
#[derive(Clone, Copy, Debug, PartialEq, Eq, Structural)]
pub enum PwdStage {
    CheckCaptcha,
    AskPassword,
    ResolveService,
    FetchPage,
    Submit,
    Finished,
}

/// A password login in progress.
pub struct PasswordLogin {
    stage: PwdStage,
    target: String,
    username: String,
    password: String,
    service: String,
}

/// Starts a password login of `username` for `target`: the first action
/// asks whether the account must solve a captcha.
pub fn password_login(target: &str, username: &str) -> (r: (PasswordLogin, Action))
    ensures
        r.0.stage() == PwdStage::CheckCaptcha,
        r.0.username() == username@,
        r.0.target() == target@,
        r.1 matches Action::CheckCaptcha(u) && u@ == username@,
{
    (
        PasswordLogin {
            stage: PwdStage::CheckCaptcha,
            target: target.to_owned(),
            username: username.to_owned(),
            password: String::new(),
            service: String::new(),
        },
        Action::CheckCaptcha(username.to_owned()),
    )
}

/// Whether `enc` is the transform of `password` under `salt` for some
/// prefix and vector drawn from the cipher alphabet.
pub open spec fn is_transform_of(enc: Seq<char>, password: Seq<char>, salt: Seq<char>) -> bool {
    exists|prefix: Seq<u8>, iv: Seq<u8>|
        prefix.len() == crate::cipher::PREFIX_LEN && iv.len() == crate::cipher::IV_LEN
            && from_alphabet(prefix) && from_alphabet(iv)
            && enc == base64_of(aes_cbc_pkcs7(cipher_input(prefix, password), encode_utf8(salt), iv))
}

impl PasswordLogin {
    pub closed spec fn stage(&self) -> PwdStage {
        self.stage
    }

    pub closed spec fn target(&self) -> Seq<char> {
        self.target@
    }

    pub closed spec fn username(&self) -> Seq<char> {
        self.username@
    }

    pub closed spec fn password(&self) -> Seq<char> {
        self.password@
    }

    pub closed spec fn service(&self) -> Seq<char> {
        self.service@
    }

    /// Advances the login on the driver's report of the last action. A
    /// failure, or a report that does not fit the stage, ends the attempt.
    pub fn step(&mut self, event: Event, store: &mut SessionStore) -> (r: Action)
        ensures
            (r is Done) <==> final(self).stage() == PwdStage::Finished,
            event matches Event::Failed(e) ==> r == Action::Done(Err(e)),
            final(self).username() == old(self).username(),
            old(self).stage() != PwdStage::Submit ==> final(store).credential() == old(store).credential(),
            match (old(self).stage(), event) {
                (PwdStage::CheckCaptcha, Event::Captcha(need)) => if need == Some(false) {
                    r == Action::AskPassword && final(self).stage() == PwdStage::AskPassword
                } else {
                    r == Action::Done(Err(Error::Account))
                },
                (PwdStage::AskPassword, Event::Password(p)) => r matches Action::Resolve(u)
                    && u@ == old(self).target() && final(self).password() == p@
                    && final(self).stage() == PwdStage::ResolveService,
                (PwdStage::ResolveService, Event::Redirected(q)) => match q {
                    None => r == Action::Done(Err(Error::Service)),
                    Some(q) => if has_service(q@) {
                        r matches Action::Get(u) && final(self).stage() == PwdStage::FetchPage
                            && encode_utf8(final(self).service()) == service_bytes(q@)
                            && u@ == PWD_LOGIN_PAGE@ + final(self).service()
                            && final(self).password() == old(self).password()
                    } else {
                        r == Action::Done(Err(Error::Service))
                    },
                },
                (PwdStage::FetchPage, Event::Page(text)) => match (
                    first_capture(EXECUTION_PATTERN@, text@),
                    first_capture(SALT_PATTERN@, text@),
                ) {
                    (Some(x), Some(salt)) => if encode_utf8(old(self).password()).len() > usize::MAX / 8 {
                        r == Action::Done(Err(Error::Input))
                    } else if !valid_key_len(encode_utf8(salt).len()) {
                        r == Action::Done(Err(Error::Encrypt))
                    } else {
                        r matches Action::Post(u, f) && final(self).stage() == PwdStage::Submit
                            && u@ == PWD_LOGIN_SUBMIT@ + old(self).service()
                            && exists|enc: Seq<char>| is_transform_of(enc, old(self).password(), salt)
                                && form_view(f@) == pwd_form(old(self).username(), enc, x)
                    },
                    _ => r == Action::Done(Err(Error::ParseKey)),
                },
                (PwdStage::Submit, Event::Cookies(c)) => r == Action::Done(
                    if has_session_cookie(c@) { Ok(()) } else { Err(Error::Account) },
                ),
                (_, Event::Failed(_)) => true,
                _ => r == Action::Done(Err(Error::Service)),
            },
    {
        let stage = self.stage;
        let r = match (stage, event) {
            (_, Event::Failed(e)) => Action::Done(Err(e)),
            (PwdStage::CheckCaptcha, Event::Captcha(need)) => match check_captcha(need) {
                Ok(()) => {
                    self.stage = PwdStage::AskPassword;
                    Action::AskPassword
                },
                Err(e) => Action::Done(Err(e)),
            },
            (PwdStage::AskPassword, Event::Password(p)) => {
                self.password = p;
                self.stage = PwdStage::ResolveService;
                Action::Resolve(self.target.clone())
            },
            (PwdStage::ResolveService, Event::Redirected(q)) => {
                let q_str: Option<&str> = match &q {
                    Some(s) => Some(s.as_str()),
                    None => None,
                };
                match get_service(q_str) {
                    Ok(s) => {
                        self.service = s;
                        self.stage = PwdStage::FetchPage;
                        Action::Get(with_service(PWD_LOGIN_PAGE, &self.service))
                    },
                    Err(e) => Action::Done(Err(e)),
                }
            },
            (PwdStage::FetchPage, Event::Page(text)) => self.submit_page(text.as_str()),
            (PwdStage::Submit, Event::Cookies(c)) => Action::Done(finish(store, &c)),
            _ => Action::Done(Err(Error::Service)),
        };
        if let Action::Done(_) = &r {
            self.stage = PwdStage::Finished;
        }
        r
    }

    /// Reads the login page and builds the form that submits the password.
    fn submit_page(&mut self, text: &str) -> (r: Action)
        ensures
            final(self).username() == old(self).username(),
            final(self).password() == old(self).password(),
            final(self).service() == old(self).service(),
            (r is Done) || final(self).stage() == PwdStage::Submit,
            match (first_capture(EXECUTION_PATTERN@, text@), first_capture(SALT_PATTERN@, text@)) {
                (Some(x), Some(salt)) => if encode_utf8(old(self).password()).len() > usize::MAX / 8 {
                    r == Action::Done(Err(Error::Input))
                } else if !valid_key_len(encode_utf8(salt).len()) {
                    r == Action::Done(Err(Error::Encrypt))
                } else {
                    r matches Action::Post(u, f) && final(self).stage() == PwdStage::Submit
                        && u@ == PWD_LOGIN_SUBMIT@ + old(self).service()
                        && exists|enc: Seq<char>| is_transform_of(enc, old(self).password(), salt)
                            && form_view(f@) == pwd_form(old(self).username(), enc, x)
                },
                _ => r == Action::Done(Err(Error::ParseKey)),
            },
    {
        let execution = match get_execution(text) {
            Ok(x) => x,
            Err(e) => return Action::Done(Err(e)),
        };
        let salt = match get_salt(text) {
            Ok(s) => s,
            Err(e) => return Action::Done(Err(e)),
        };
        let pw: &str = self.password.as_str();
        if pw.as_bytes().len() > usize::MAX / 8 {
            return Action::Done(Err(Error::Input));
        }
        match transform_password(pw, salt.as_str()) {
            Ok(enc) => {
                let form = get_pwd_data(self.username.as_str(), enc.as_str(), execution.as_str());
                assert(is_transform_of(enc@, self.password@, salt@));
                self.stage = PwdStage::Submit;
                Action::Post(with_service(PWD_LOGIN_SUBMIT, &self.service), form)
            },
            Err(e) => Action::Done(Err(e)),
        }
    }
}

} // verus!
