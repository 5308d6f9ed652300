use vstd::prelude::*;

verus! {

/// Progress of a QR-code login as the service reports it.
#[derive(Clone, Copy, Debug, PartialEq, Eq, Structural)]
pub enum State {
    Waiting,
    Success,
    Scanned,
    Outdated,
}

/// The state that a status response's body stands for; `None` for a body
/// the service uses for no state (it answers so when polled too often).
pub open spec fn state_of(text: Seq<char>) -> Option<State> {
    if text == "0"@ {
        Some(State::Waiting)
    } else if text == "1"@ {
        Some(State::Success)
    } else if text == "2"@ {
        Some(State::Scanned)
    } else if text == "3"@ {
        Some(State::Outdated)
    } else {
        None
    }
}

/// Reads the body of a status response.
pub fn parse_state(text: &str) -> (r: Option<State>)
    ensures
        r == state_of(text@),
{
    let t = text.to_owned();
    if t == "0".to_owned() {
        Some(State::Waiting)
    } else if t == "1".to_owned() {
        Some(State::Success)
    } else if t == "2".to_owned() {
        Some(State::Scanned)
    } else if t == "3".to_owned() {
        Some(State::Outdated)
    } else {
        None
    }
}

/// What the login loop does after one poll.
#[derive(Clone, Copy, Debug, PartialEq, Eq, Structural)]
pub enum PollAction {
    /// Poll again with the same code.
    KeepPolling,
    /// Fetch a new code, show it, and poll again.
    Regenerate,
    /// Leave the loop and submit the login form.
    Finish,
}

/// The decision of the QR login loop on one poll result: it ends on
/// `Success` only, asks for a new code on `Outdated`, and keeps waiting on
/// everything else, an unreadable answer included.
pub fn poll_action(state: Option<State>) -> (r: PollAction)
    ensures
        r == PollAction::Finish <==> state == Some(State::Success),
        r == PollAction::Regenerate <==> state == Some(State::Outdated),
{
    match state {
        Some(State::Success) => PollAction::Finish,
        Some(State::Outdated) => PollAction::Regenerate,
        _ => PollAction::KeepPolling,
    }
}

/// A QR-code login token and, once fetched and decoded, the text its image holds.
pub struct UrlConsoleQRCode {
    qrcode_id: String,
    data: Option<String>,
}

impl UrlConsoleQRCode {
    pub closed spec fn id(&self) -> Seq<char> {
        self.qrcode_id@
    }

    pub closed spec fn content(&self) -> Option<Seq<char>> {
        match self.data {
            Some(d) => Some(d@),
            None => None,
        }
    }

    pub fn new(qrcode_id: &str) -> (r: Self)
        ensures
            r.id() == qrcode_id@,
            r.content() is None,
    {
        UrlConsoleQRCode { qrcode_id: qrcode_id.to_owned(), data: None }
    }

    /// Replaces the token with a fresh one; the old image text is dropped.
    pub fn renew(&mut self, qrcode_id: &str)
        ensures
            final(self).id() == qrcode_id@,
            final(self).content() is None,
    {
        self.qrcode_id = qrcode_id.to_owned();
        self.data = None;
    }

    pub fn get_id(&self) -> (r: &str)
        ensures
            r@ == self.id(),
    {
        self.qrcode_id.as_str()
    }

    pub fn get_data(&self) -> (r: Option<&str>)
        ensures
            match r {
                Some(d) => self.content() == Some(d@),
                None => self.content() is None,
            },
    {
        match &self.data {
            Some(e) => Some(e.as_str()),
            None => None,
        }
    }

    /// Records the text decoded from the token's image.
    pub fn set_data(&mut self, data: String)
        ensures
            final(self).id() == old(self).id(),
            final(self).content() == Some(data@),
    {
        self.data = Some(data);
    }
}

} // verus!
