//! Reaching the headless browser that fetches live pages: where to ask for
//! its debugger address, how to read the reply, and how often to try.

use crate::text::opt_text;
use vstd::prelude::*;
use vstd::string::StringExecFns;

verus! {

/// How often the browser is asked for its address, and how often a
/// connection is tried, before the start is given up.
pub const MAX_ATTEMPTS: u32 = 30;

/// Seconds to wait after an attempt that failed.
pub const RETRY_PAUSE_SECS: u64 = 2;

/// `s` with every occurrence of `from` replaced by `to`, the occurrences
/// taken from the left and not overlapping.
pub open spec fn replace_all(s: Seq<char>, from: Seq<char>, to: Seq<char>) -> Seq<char>
    decreases s.len(),
{
    if from.len() == 0 || s.len() < from.len() {
        s
    } else if s.subrange(0, from.len() as int) == from {
        to + replace_all(s.subrange(from.len() as int, s.len() as int), from, to)
    } else {
        seq![s[0]] + replace_all(s.drop_first(), from, to)
    }
}

/// `str::replace` of std, for a pattern that is a text and not empty: a new
/// text in which every match of the pattern is replaced.
#[verifier::external_body]
fn replace(s: &str, from: &str, to: &str) -> (r: String)
    requires
        from@.len() > 0,
    ensures
        r@ == replace_all(s@, from@, to@),
{
    s.replace(from, to)
}

/// What `serde_json::from_str` and `Value`'s index by a key make of a text:
/// `None` where the text is no JSON, `Some(None)` where it is JSON that
/// holds no string under the key, and else the string.
pub uninterp spec fn json_string_at(text: Seq<char>, key: Seq<char>) -> Option<Option<Seq<char>>>;

/// What a reply holds under a key.
#[derive(Debug, PartialEq, Eq)]
pub enum JsonField {
    /// A string.
    Text(String),
    /// The reply is JSON, without a string under the key.
    Missing,
    /// The reply is no JSON.
    NotJson,
}

/// A `JsonField` as a mathematical value.
pub open spec fn field_view(f: JsonField) -> Option<Option<Seq<char>>> {
    match f {
        JsonField::Text(s) => Some(Some(s@)),
        JsonField::Missing => Some(None),
        JsonField::NotJson => None,
    }
}

/// `serde_json::from_str` into a `serde_json::Value`, then the value's index
/// by `key` and `Value::as_str`: the string that the parsed text holds under
/// the key at its top level.
#[verifier::external_body]
fn json_field(text: &str, key: &str) -> (r: JsonField)
    ensures
        field_view(r) == json_string_at(text@, key@),
{
    match serde_json::from_str::<serde_json::Value>(text) {
        Ok(v) => match v[key].as_str() {
            Some(s) => JsonField::Text(s.to_owned()),
            None => JsonField::Missing,
        },
        Err(_) => JsonField::NotJson,
    }
}

/// The address at which the browser tells its version, for the address at
/// which its debugger listens: the same over HTTP, with the path
/// `/json/version`.
pub open spec fn version_url(base: Seq<char>) -> Seq<char> {
    replace_all(replace_all(base, "ws://"@, "http://"@), "wss://"@, "https://"@) + "/json/version"@
}

/// The debugger address as it is to be dialled: one on the browser's own
/// host is one on the host `chrome`.
pub open spec fn dialled(url: Seq<char>) -> Seq<char> {
    replace_all(url, "ws://localhost:9222"@, "ws://chrome:9222"@)
}

/// The base address of the browser: the one that is configured, or that of
/// the host `chrome`.
pub fn base_address(configured: Option<String>) -> (base: String)
    ensures
        base@ == match configured {
            Some(b) => b@,
            None => "ws://chrome:9222"@,
        },
{
    match configured {
        Some(b) => b,
        None => "ws://chrome:9222".to_owned(),
    }
}

/// The address at which the browser tells its version.
pub fn version_endpoint(base: &str) -> (url: String)
    ensures
        url@ == version_url(base@),
{
    proof {
        reveal_strlit("ws://");
        reveal_strlit("wss://");
    }
    let plain = replace(base, "ws://", "http://");
    let mut url = replace(plain.as_str(), "wss://", "https://");
    url.append("/json/version");
    url
}

/// The debugger address as it is to be dialled.
pub fn dial_address(url: &str) -> (r: String)
    ensures
        r@ == dialled(url@),
{
    proof {
        reveal_strlit("ws://localhost:9222");
    }
    replace(url, "ws://localhost:9222", "ws://chrome:9222")
}

/// What the machine that starts the browser's session waits for.
#[derive(Clone, Copy, Debug, PartialEq, Eq, Structural)]
pub enum ConnectStage {
    /// The reply to a request for the version.
    Probing,
    /// The end of the pause after a request that brought no address.
    ProbePause,
    /// The outcome of a connection attempt.
    Connecting,
    /// The end of the pause after a connection attempt that failed.
    ConnectPause,
    /// Nothing: the session is there.
    Ready,
    /// Nothing: the start was given up.
    Failed,
}

/// The outside work that the machine asks for.
#[derive(Clone, Copy, Debug, PartialEq, Eq, Structural)]
pub enum ConnectAction {
    /// Request the version at the machine's endpoint.
    Probe,
    /// Connect to the machine's debugger address.
    Connect,
    /// Wait for `RETRY_PAUSE_SECS` seconds.
    Pause,
    /// Nothing more: the session is there.
    Ready,
    /// Nothing more: report the machine's last error.
    GiveUp,
}

/// What came of the work that was asked for.
#[derive(Debug, PartialEq, Eq)]
pub enum ConnectEvent {
    /// The body of the reply to the request, or the cause of its failure.
    Probed(Result<String, String>),
    /// That the connection stands, or the cause of its failure.
    Connected(Result<(), String>),
    /// The pause is over.
    Paused,
}

/// A `ConnectEvent` as a mathematical value.
pub enum ConnectEventView {
    Probed(Result<Seq<char>, Seq<char>>),
    Connected(Result<(), Seq<char>>),
    Paused,
}

impl View for ConnectEvent {
    type V = ConnectEventView;

    open spec fn view(&self) -> ConnectEventView {
        match *self {
            ConnectEvent::Probed(Ok(body)) => ConnectEventView::Probed(Ok(body@)),
            ConnectEvent::Probed(Err(cause)) => ConnectEventView::Probed(Err(cause@)),
            ConnectEvent::Connected(Ok(())) => ConnectEventView::Connected(Ok(())),
            ConnectEvent::Connected(Err(cause)) => ConnectEventView::Connected(Err(cause@)),
            ConnectEvent::Paused => ConnectEventView::Paused,
        }
    }
}

/// The start of the browser's session: first the debugger address is asked
/// for until a reply holds one, then it is dialled until a connection
/// stands; each at most `MAX_ATTEMPTS` times, with a pause after each
/// failure.
#[derive(Debug, PartialEq, Eq)]
pub struct Connector {
    /// What the machine waits for.
    pub stage: ConnectStage,
    /// The attempts made in the stage's phase, this one included.
    pub attempt: u32,
    /// Where the version is asked for.
    pub endpoint: String,
    /// The debugger address to dial, once a reply held one.
    pub debugger_url: Option<String>,
    /// The cause of the last failure that had one.
    pub last_error: Option<String>,
}

/// A `Connector` as a mathematical value.
pub struct ConnectorView {
    pub stage: ConnectStage,
    pub attempt: u32,
    pub endpoint: Seq<char>,
    pub debugger_url: Option<Seq<char>>,
    pub last_error: Option<Seq<char>>,
}

impl View for Connector {
    type V = ConnectorView;

    open spec fn view(&self) -> ConnectorView {
        ConnectorView {
            stage: self.stage,
            attempt: self.attempt,
            endpoint: self.endpoint@,
            debugger_url: opt_text(self.debugger_url),
            last_error: opt_text(self.last_error),
        }
    }
}

/// The machine before its first reply, for a browser at the address `base`.
pub open spec fn connecting_to(base: Seq<char>) -> ConnectorView {
    ConnectorView {
        stage: ConnectStage::Probing,
        attempt: 1,
        endpoint: version_url(base),
        debugger_url: None,
        last_error: None,
    }
}

/// The cause that is kept for a reply that is no JSON.
pub open spec fn not_json_cause(body: Seq<char>) -> Seq<char> {
    "Got non-JSON response: '"@ + body + "'"@
}

/// The machine given up.
pub open spec fn abandoned(c: ConnectorView) -> (ConnectorView, ConnectAction) {
    (ConnectorView { stage: ConnectStage::Failed, ..c }, ConnectAction::GiveUp)
}

/// The machine after a pause in the stage `paused`: at the next attempt of
/// `retry` if there is one left, else given up.
pub open spec fn after_pause(c: ConnectorView, retry: ConnectStage, action: ConnectAction) -> (
    ConnectorView,
    ConnectAction,
) {
    if c.attempt < MAX_ATTEMPTS {
        (ConnectorView { stage: retry, attempt: (c.attempt + 1) as u32, ..c }, action)
    } else {
        abandoned(c)
    }
}

/// The machine after a reply with this body, which holds `field` under the
/// key of the debugger address. A string is the address, as it is to be
/// dialled, and the first connection is tried; without one the machine
/// pauses, and keeps as the cause of the failure that the reply is no JSON,
/// where it is none.
pub open spec fn after_reply(
    c: ConnectorView,
    body: Seq<char>,
    field: Option<Option<Seq<char>>>,
) -> (ConnectorView, ConnectAction) {
    match field {
        Some(Some(url)) => (
            ConnectorView {
                stage: ConnectStage::Connecting,
                attempt: 1,
                debugger_url: Some(dialled(url)),
                ..c
            },
            ConnectAction::Connect,
        ),
        Some(None) => (ConnectorView { stage: ConnectStage::ProbePause, ..c }, ConnectAction::Pause),
        None => (
            ConnectorView {
                stage: ConnectStage::ProbePause,
                last_error: Some(not_json_cause(body)),
                ..c
            },
            ConnectAction::Pause,
        ),
    }
}

/// The machine's step: from the machine and the event to the machine that
/// follows and the action to take.
///
/// A reply that holds a string under `webSocketDebuggerUrl` ends the asking:
/// the string, as it is to be dialled, is the address, and the first
/// connection is tried. Any other reply, and a request that failed, is
/// followed by a pause and then by the next request, if one is left. A
/// connection that stands ends the start; one that failed is followed by a
/// pause and the next attempt, if one is left. An event that is not the
/// answer to the action before ends the start in failure.
pub open spec fn connect_step(c: ConnectorView, event: ConnectEventView) -> (
    ConnectorView,
    ConnectAction,
) {
    match c.stage {
        ConnectStage::Probing => match event {
            ConnectEventView::Probed(Ok(body)) => after_reply(
                c,
                body,
                json_string_at(body, "webSocketDebuggerUrl"@),
            ),
            ConnectEventView::Probed(Err(cause)) => (
                ConnectorView { stage: ConnectStage::ProbePause, last_error: Some(cause), ..c },
                ConnectAction::Pause,
            ),
            _ => abandoned(c),
        },
        ConnectStage::ProbePause => match event {
            ConnectEventView::Paused => after_pause(c, ConnectStage::Probing, ConnectAction::Probe),
            _ => abandoned(c),
        },
        ConnectStage::Connecting => match event {
            ConnectEventView::Connected(Ok(())) => (
                ConnectorView { stage: ConnectStage::Ready, ..c },
                ConnectAction::Ready,
            ),
            ConnectEventView::Connected(Err(cause)) => (
                ConnectorView { stage: ConnectStage::ConnectPause, last_error: Some(cause), ..c },
                ConnectAction::Pause,
            ),
            _ => abandoned(c),
        },
        ConnectStage::ConnectPause => match event {
            ConnectEventView::Paused => after_pause(
                c,
                ConnectStage::Connecting,
                ConnectAction::Connect,
            ),
            _ => abandoned(c),
        },
        ConnectStage::Ready => (c, ConnectAction::Ready),
        ConnectStage::Failed => (c, ConnectAction::GiveUp),
    }
}

impl Connector {
    /// The machine for a browser at the address `base`. Its first action is
    /// `ConnectAction::Probe`.
    pub fn new(base: &str) -> (c: Connector)
        ensures
            c@ == connecting_to(base@),
    {
        Connector {
            stage: ConnectStage::Probing,
            attempt: 1,
            endpoint: version_endpoint(base),
            debugger_url: None,
            last_error: None,
        }
    }

    /// Gives the start up.
    fn abandon(&mut self) -> (action: ConnectAction)
        ensures
            (final(self)@, action) == abandoned(old(self)@),
    {
        self.stage = ConnectStage::Failed;
        ConnectAction::GiveUp
    }

    /// Goes on after a pause: to the next attempt if one is left.
    fn resume(&mut self, retry: ConnectStage, action: ConnectAction) -> (next: ConnectAction)
        ensures
            (final(self)@, next) == after_pause(old(self)@, retry, action),
    {
        if self.attempt < MAX_ATTEMPTS {
            self.stage = retry;
            self.attempt = self.attempt + 1;
            action
        } else {
            self.abandon()
        }
    }

    /// Decides on a reply with this body, given what it holds under the key
    /// of the debugger address.
    pub fn take_reply(&mut self, body: &str, field: JsonField) -> (action: ConnectAction)
        ensures
            (final(self)@, action) == after_reply(old(self)@, body@, field_view(field)),
    {
        match field {
            JsonField::Text(url) => {
                self.stage = ConnectStage::Connecting;
                self.attempt = 1;
                self.debugger_url = Some(dial_address(url.as_str()));
                ConnectAction::Connect
            },
            JsonField::Missing => {
                self.stage = ConnectStage::ProbePause;
                ConnectAction::Pause
            },
            JsonField::NotJson => {
                let mut cause = "Got non-JSON response: '".to_owned();
                cause.append(body);
                cause.append("'");
                self.stage = ConnectStage::ProbePause;
                self.last_error = Some(cause);
                ConnectAction::Pause
            },
        }
    }

    /// Takes one step: decides on `event`, the outcome of the action that the
    /// step before asked for, and says what to do next.
    pub fn step(&mut self, event: ConnectEvent) -> (action: ConnectAction)
        ensures
            (final(self)@, action) == connect_step(old(self)@, event@),
    {
        match self.stage {
            ConnectStage::Probing => match event {
                ConnectEvent::Probed(Ok(body)) => {
                    let field = json_field(body.as_str(), "webSocketDebuggerUrl");
                    self.take_reply(body.as_str(), field)
                },
                ConnectEvent::Probed(Err(cause)) => {
                    self.stage = ConnectStage::ProbePause;
                    self.last_error = Some(cause);
                    ConnectAction::Pause
                },
                _ => self.abandon(),
            },
            ConnectStage::ProbePause => match event {
                ConnectEvent::Paused => self.resume(ConnectStage::Probing, ConnectAction::Probe),
                _ => self.abandon(),
            },
            ConnectStage::Connecting => match event {
                ConnectEvent::Connected(Ok(())) => {
                    self.stage = ConnectStage::Ready;
                    ConnectAction::Ready
                },
                ConnectEvent::Connected(Err(cause)) => {
                    self.stage = ConnectStage::ConnectPause;
                    self.last_error = Some(cause);
                    ConnectAction::Pause
                },
                _ => self.abandon(),
            },
            ConnectStage::ConnectPause => match event {
                ConnectEvent::Paused => self.resume(
                    ConnectStage::Connecting,
                    ConnectAction::Connect,
                ),
                _ => self.abandon(),
            },
            ConnectStage::Ready => ConnectAction::Ready,
            ConnectStage::Failed => ConnectAction::GiveUp,
        }
    }
}

/// The steps that a start has left at most: two for each attempt that is
/// left, of the asking and of the dialling.
pub open spec fn connect_budget(c: ConnectorView) -> int {
    let left = MAX_ATTEMPTS - c.attempt;
    match c.stage {
        ConnectStage::Probing => 2 * MAX_ATTEMPTS + 2 * left + 2,
        ConnectStage::ProbePause => 2 * MAX_ATTEMPTS + 2 * left + 1,
        ConnectStage::Connecting => 2 * left + 2,
        ConnectStage::ConnectPause => 2 * left + 1,
        ConnectStage::Ready => 0,
        ConnectStage::Failed => 0,
    }
}

/// A start never makes more than `MAX_ATTEMPTS` attempts of a kind, and
/// every step of one that has not ended brings its end nearer: a start ends
/// after at most 120 steps.
pub proof fn connect_step_ends(c: ConnectorView, event: ConnectEventView)
    requires
        1 <= c.attempt <= MAX_ATTEMPTS,
    ensures
        1 <= connect_step(c, event).0.attempt <= MAX_ATTEMPTS,
        c.stage != ConnectStage::Ready && c.stage != ConnectStage::Failed ==> connect_budget(
            connect_step(c, event).0,
        ) < connect_budget(c),
        0 <= connect_budget(connect_step(c, event).0) <= connect_budget(c) <= 4 * MAX_ATTEMPTS,
        connect_step(c, event).1 == ConnectAction::Ready <==> connect_step(c, event).0.stage
            == ConnectStage::Ready,
        connect_step(c, event).1 == ConnectAction::GiveUp <==> connect_step(c, event).0.stage
            == ConnectStage::Failed,
{
}

} // verus!
