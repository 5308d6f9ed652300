use vstd::prelude::*;
use vstd::string::StringExecFns;
use crate::logging::{Level, Logger, LoggerData};

verus! {

/// Why listing courses or their files failed.
#[derive(Clone, Copy, Debug, PartialEq, Eq, Structural)]
pub enum Error {
    LoginDataInvalid,
    NetworkFailure,
}

impl Error {
    pub open spec fn level(self) -> Level {
        match self {
            Error::LoginDataInvalid => Level::Warn,
            Error::NetworkFailure => Level::Error,
        }
    }

    pub open spec fn message(self) -> Seq<char> {
        match self {
            Error::LoginDataInvalid => "账号已失效，请重新登录。"@,
            Error::NetworkFailure => "网络不通，请检查网络。"@,
        }
    }

    pub fn log_data(&self) -> (r: LoggerData)
        ensures
            r.level == self.level(),
            r.data@ == self.message(),
    {
        match *self {
            Error::LoginDataInvalid => LoggerData::new(Level::Warn, "账号已失效，请重新登录。"),
            Error::NetworkFailure => LoggerData::new(Level::Error, "网络不通，请检查网络。"),
        }
    }
}

impl Logger for Error {
    fn get_logger(&self) -> LoggerData {
        self.log_data()
    }
}

/// Directory that downloaded files are written to.
pub const DOWNLOAD_PATH: &'static str = "./download/";

/// Number of courses listed on one page.
pub const PAGE_SIZE: usize = 5;

/// The `Cookie` header value that carries a session credential:
/// `session=<credential>`; `LoginDataInvalid` when nobody is logged in.
pub fn session_cookie(cookie: &Option<String>) -> (r: Result<String, Error>)
    ensures
        match cookie {
            Some(v) => r matches Ok(h) && h@ == "session="@ + v@,
            None => r == Err::<String, Error>(Error::LoginDataInvalid),
        },
{
    match cookie {
        Some(v) => {
            let mut h = "session=".to_owned();
            h.append(v.as_str());
            Ok(h)
        },
        None => Err(Error::LoginDataInvalid),
    }
}

/// Where an uploaded file named `name` is written: `DOWNLOAD_PATH`, a
/// separator, and the name.
pub fn download_destination(name: &str) -> (r: String)
    ensures
        r@ == DOWNLOAD_PATH@ + "/"@ + name@,
{
    let mut p = DOWNLOAD_PATH.to_owned();
    p.append("/");
    p.append(name);
    p
}

/// What a choice in the course menu leads to.
#[derive(Clone, Copy, Debug, PartialEq, Eq, Structural)]
pub enum PageStep {
    /// Show this page (1-based).
    Show(usize),
    /// The course at this position of the current page was chosen.
    Pick(usize),
}

/// The course menu lists "previous page" first, then the `shown` courses of
/// the page, then "next page". Choosing the first goes back a page (not
/// before the first), a course picks it, the last goes forward a page, and
/// anything else shows the same page again.
pub fn page_step(page: usize, selection: usize, shown: usize) -> (r: PageStep)
    requires
        page >= 1,
        shown <= PAGE_SIZE,
    ensures
        selection == 0 ==> r == PageStep::Show(if page > 1 { (page - 1) as usize } else { page }),
        1 <= selection <= shown ==> r == PageStep::Pick((selection - 1) as usize),
        selection == shown + 1 ==> r == PageStep::Show(
            if page < usize::MAX { (page + 1) as usize } else { page },
        ),
        selection > shown + 1 ==> r == PageStep::Show(page),
{
    if selection == 0 {
        if page > 1 {
            PageStep::Show(page - 1)
        } else {
            PageStep::Show(page)
        }
    } else if selection <= shown {
        PageStep::Pick(selection - 1)
    } else if selection == shown + 1 {
        if page < usize::MAX {
            PageStep::Show(page + 1)
        } else {
            PageStep::Show(page)
        }
    } else {
        PageStep::Show(page)
    }
}

} // verus!
