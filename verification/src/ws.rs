//! The websocket of the shared app server: which URLs it may have, and how its frames
//! are read.
use url::Url;
use vstd::prelude::*;
use vstd::string::*;

use crate::config::{CodexConfig, CodexConfigV, CodexLiveMode, DaemonConfig};
use crate::error::{BridgeError, BridgeErrorV, failure, in_context, outcome};
use crate::text::{cat, cat3, decimal, opt_is, same, trim, trimmed, u64_text};

verus! {

/// The parts of a URL that the bridge looks at.
#[derive(Debug, PartialEq, Eq)]
pub struct UrlParts {
    pub scheme: String,
    pub host: Option<String>,
    pub port: Option<u16>,
    pub serialization: String,
}

/// The model of [`UrlParts`].
#[verifier::ext_equal]
pub struct UrlPartsV {
    pub scheme: Seq<char>,
    pub host: Option<Seq<char>>,
    pub port: Option<u16>,
    pub serialization: Seq<char>,
}

impl View for UrlParts {
    type V = UrlPartsV;

    open spec fn view(&self) -> UrlPartsV {
        UrlPartsV {
            scheme: self.scheme@,
            host: self.host.deep_view(),
            port: self.port,
            serialization: self.serialization@,
        }
    }
}

impl DeepView for UrlParts {
    type V = UrlPartsV;

    open spec fn deep_view(&self) -> UrlPartsV {
        self@
    }
}

/// What parsing a text as a URL gives: its scheme, host, port and normal form, or the
/// text of the failure.
pub uninterp spec fn url_of(text: Seq<char>) -> Result<
    (Seq<char>, Option<Seq<char>>, Option<u16>, Seq<char>),
    Seq<char>,
>;

/// The model of the parts of a URL, or the text of a failure.
pub open spec fn parts_of(
    parsed: Result<(Seq<char>, Option<Seq<char>>, Option<u16>, Seq<char>), Seq<char>>,
) -> Result<UrlPartsV, Seq<char>> {
    match parsed {
        Ok((scheme, host, port, serialization)) => Ok(
            UrlPartsV { scheme, host, port, serialization },
        ),
        Err(text) => Err(text),
    }
}

/// `url::Url::parse`: the scheme, the host, the port (or the one that the scheme implies)
/// and the normal form of a URL, or the message of the parse failure. The outcome depends
/// on the text alone.
#[verifier::external_body]
fn parse_url(text: &str) -> (r: Result<UrlParts, String>)
    ensures
        match (r, parts_of(url_of(text@))) {
            (Ok(a), Ok(b)) => a@ == b,
            (Err(a), Err(b)) => a@ == b,
            _ => false,
        },
{
    match Url::parse(text) {
        Ok(url) => Ok(
            UrlParts {
                scheme: url.scheme().to_owned(),
                host: url.host_str().map(str::to_owned),
                port: url.port_or_known_default(),
                serialization: url.as_str().to_owned(),
            },
        ),
        Err(error) => Err(error.to_string()),
    }
}

/// The URL is that of an app server on this machine: its scheme is `ws` and its host is a
/// name of the loopback.
pub open spec fn shared_url_check(parts: UrlPartsV) -> Result<UrlPartsV, BridgeErrorV> {
    if parts.scheme != "ws"@ {
        Err(failure("only ws:// shared websocket URLs are supported in this release"@))
    } else if parts.host == Some("127.0.0.1"@) || parts.host == Some("localhost"@) || parts.host
        == Some("::1"@) {
        Ok(parts)
    } else {
        Err(failure("only loopback ws:// shared websocket URLs are supported in this release"@))
    }
}

/// Checks the parts of a URL.
pub fn check_shared_url(parts: UrlParts) -> (r: Result<UrlParts, BridgeError>)
    ensures
        outcome(r) == shared_url_check(parts@),
{
    if !same(parts.scheme.as_str(), "ws") {
        Err(BridgeError::new("only ws:// shared websocket URLs are supported in this release"))
    } else if opt_is(&parts.host, "127.0.0.1") || opt_is(&parts.host, "localhost") || opt_is(
        &parts.host,
        "::1",
    ) {
        Ok(parts)
    } else {
        Err(
            BridgeError::new(
                "only loopback ws:// shared websocket URLs are supported in this release",
            ),
        )
    }
}

/// What comes of a URL for the shared app server, given what parsing it gives.
pub open spec fn shared_url(
    url: Seq<char>,
    parsed: Result<UrlPartsV, Seq<char>>,
) -> Result<UrlPartsV, BridgeErrorV> {
    if trimmed(url).len() == 0 {
        Err(failure("shared Codex live backend websocket URL cannot be empty"@))
    } else if trimmed(url) != url {
        Err(
            failure(
                "shared Codex live backend websocket URL must not contain surrounding whitespace"@,
            ),
        )
    } else {
        match parsed {
            Ok(parts) => shared_url_check(parts),
            Err(text) => Err(in_context("invalid websocket URL: "@ + url, failure(text))),
        }
    }
}

/// Checks a URL for the shared app server, and gives its parts.
pub fn validate_shared_websocket_url(url: &str) -> (r: Result<UrlParts, BridgeError>)
    ensures
        outcome(r) == shared_url(url@, parts_of(url_of(url@))),
{
    let inner = trim(url);
    if inner.as_str().is_empty() {
        return Err(
            BridgeError::new("shared Codex live backend websocket URL cannot be empty"),
        );
    }
    if !same(inner.as_str(), url) {
        return Err(
            BridgeError::new(
                "shared Codex live backend websocket URL must not contain surrounding whitespace",
            ),
        );
    }
    match parse_url(url) {
        Ok(parts) => check_shared_url(parts),
        Err(text) => Err(
            BridgeError::new(text.as_str()).context(cat("invalid websocket URL: ", url).as_str()),
        ),
    }
}

/// A URL that is accepted has the scheme `ws`, and a host of the loopback.
pub proof fn accepted_urls_are_local(url: Seq<char>, parsed: Result<UrlPartsV, Seq<char>>)
    requires
        shared_url(url, parsed) is Ok,
    ensures
        shared_url(url, parsed)->Ok_0.scheme == "ws"@,
        shared_url(url, parsed)->Ok_0.host == Some("127.0.0.1"@) || shared_url(
            url,
            parsed,
        )->Ok_0.host == Some("localhost"@) || shared_url(url, parsed)->Ok_0.host == Some("::1"@),
{
}

// ---------------------------------------------------------------------------
// The backend of the bridge
// ---------------------------------------------------------------------------

/// Where the app server is.
#[derive(Debug, PartialEq, Eq)]
pub enum CodexBackend {
    SharedWebsocket { url: String },
}

impl View for CodexBackend {
    type V = Seq<char>;

    open spec fn view(&self) -> Seq<char> {
        match self {
            CodexBackend::SharedWebsocket { url } => url@,
        }
    }
}

impl DeepView for CodexBackend {
    type V = Seq<char>;

    open spec fn deep_view(&self) -> Seq<char> {
        self@
    }
}

/// The URL of the backend that a configuration names.
pub open spec fn backend_url(
    codex: CodexConfigV,
    parsed: Result<UrlPartsV, Seq<char>>,
) -> Result<Seq<char>, BridgeErrorV> {
    match shared_url(codex.websocket_url, parsed) {
        Ok(_) => Ok(codex.websocket_url),
        Err(e) => Err(e),
    }
}

/// The backend that a configuration names.
pub fn codex_backend_from_codex_config(codex: &CodexConfig) -> (r: Result<
    CodexBackend,
    BridgeError,
>)
    ensures
        outcome(r) == backend_url(codex@, parts_of(url_of(codex@.websocket_url))),
{
    match codex.live_mode {
        CodexLiveMode::Shared => match validate_shared_websocket_url(
            codex.websocket_url.as_str(),
        ) {
            Ok(_) => Ok(CodexBackend::SharedWebsocket { url: codex.websocket_url.clone() }),
            Err(e) => Err(e),
        },
    }
}

/// The backend of the whole configuration; it has to name one.
pub fn codex_backend_from_config(config: &DaemonConfig) -> (r: Result<CodexBackend, BridgeError>)
    ensures
        outcome(r) == (match config@.codex {
            Some(codex) => backend_url(codex, parts_of(url_of(codex.websocket_url))),
            None => Err(
                failure(
                    "shared Codex live backend is not configured; run setup to configure codex.websocketUrl"@,
                ),
            ),
        }),
{
    match &config.codex {
        Some(codex) => codex_backend_from_codex_config(codex),
        None => Err(
            BridgeError::new(
                "shared Codex live backend is not configured; run setup to configure codex.websocketUrl",
            ),
        ),
    }
}

// ---------------------------------------------------------------------------
// Connecting
// ---------------------------------------------------------------------------

/// What was tried so far to connect to the addresses of a URL.
#[derive(Debug, PartialEq, Eq)]
pub struct ConnectTally {
    pub saw_address: bool,
    pub saw_loopback: bool,
    pub last_error: Option<String>,
}

/// The model of [`ConnectTally`].
#[verifier::ext_equal]
pub struct ConnectTallyV {
    pub saw_address: bool,
    pub saw_loopback: bool,
    pub last_error: Option<Seq<char>>,
}

impl View for ConnectTally {
    type V = ConnectTallyV;

    open spec fn view(&self) -> ConnectTallyV {
        ConnectTallyV {
            saw_address: self.saw_address,
            saw_loopback: self.saw_loopback,
            last_error: self.last_error.deep_view(),
        }
    }
}

impl DeepView for ConnectTally {
    type V = ConnectTallyV;

    open spec fn deep_view(&self) -> ConnectTallyV {
        self@
    }
}

/// Nothing was tried yet.
pub open spec fn nothing_tried() -> ConnectTallyV {
    ConnectTallyV { saw_address: false, saw_loopback: false, last_error: None }
}

/// An address came up.
pub open spec fn tallied(t: ConnectTallyV, loopback: bool) -> ConnectTallyV {
    ConnectTallyV { saw_address: true, saw_loopback: t.saw_loopback || loopback, ..t }
}

/// The failure to connect at all.
pub open spec fn connect_failure(t: ConnectTallyV, url: Seq<char>, timeout_ms: u64) -> BridgeErrorV {
    if !t.saw_address {
        failure("shared websocket URL "@ + url + " did not resolve to a socket address"@)
    } else if !t.saw_loopback {
        failure("shared websocket URL "@ + url + " did not resolve to a loopback socket address"@)
    } else {
        match t.last_error {
            Some(text) => in_context(
                "failed to connect websocket transport to "@ + url + " within "@ + decimal(
                    timeout_ms as nat,
                ) + "ms"@,
                failure(text),
            ),
            None => failure("failed to connect websocket transport to "@ + url),
        }
    }
}

impl ConnectTally {
    /// Nothing was tried yet.
    pub fn new() -> (r: ConnectTally)
        ensures
            r@ == nothing_tried(),
    {
        ConnectTally { saw_address: false, saw_loopback: false, last_error: None }
    }

    /// Notes an address, and tells whether to connect to it: only the loopback is.
    pub fn address(&mut self, loopback: bool) -> (r: bool)
        ensures
            final(self)@ == tallied(old(self)@, loopback),
            r == loopback,
    {
        self.saw_address = true;
        if loopback {
            self.saw_loopback = true;
        }
        loopback
    }

    /// Notes that an address could not be connected to.
    pub fn failed(&mut self, error: String)
        ensures
            final(self)@ == (ConnectTallyV { last_error: Some(error@), ..old(self)@ }),
    {
        self.last_error = Some(error);
    }

    /// The failure to connect at all.
    pub fn failure(&self, url: &str, timeout_ms: u64) -> (r: BridgeError)
        ensures
            r@ == connect_failure(self@, url@, timeout_ms),
    {
        if !self.saw_address {
            BridgeError::new(
                cat3(
                    "shared websocket URL ",
                    url,
                    " did not resolve to a socket address",
                ).as_str(),
            )
        } else if !self.saw_loopback {
            BridgeError::new(
                cat3(
                    "shared websocket URL ",
                    url,
                    " did not resolve to a loopback socket address",
                ).as_str(),
            )
        } else {
            match &self.last_error {
                Some(text) => {
                    let mut context = cat3(
                        "failed to connect websocket transport to ",
                        url,
                        " within ",
                    );
                    context.append(u64_text(timeout_ms).as_str());
                    context.append("ms");
                    BridgeError::new(text.as_str()).context(context.as_str())
                },
                None => BridgeError::new(
                    cat("failed to connect websocket transport to ", url).as_str(),
                ),
            }
        }
    }
}

// ---------------------------------------------------------------------------
// Reading
// ---------------------------------------------------------------------------

/// A frame that came in.
#[derive(Debug, PartialEq, Eq)]
pub enum Frame {
    Text(String),
    Binary(Vec<u8>),
    Ping(Vec<u8>),
    Pong(Vec<u8>),
    Raw,
    /// The end of the connection, with the reason that was given.
    Close(Option<String>),
}

/// The model of [`Frame`].
pub enum FrameV {
    Text(Seq<char>),
    Binary(Seq<u8>),
    Ping(Seq<u8>),
    Pong(Seq<u8>),
    Raw,
    Close(Option<Seq<char>>),
}

impl View for Frame {
    type V = FrameV;

    open spec fn view(&self) -> FrameV {
        match self {
            Frame::Text(text) => FrameV::Text(text@),
            Frame::Binary(bytes) => FrameV::Binary(bytes@),
            Frame::Ping(payload) => FrameV::Ping(payload@),
            Frame::Pong(payload) => FrameV::Pong(payload@),
            Frame::Raw => FrameV::Raw,
            Frame::Close(reason) => FrameV::Close(reason.deep_view()),
        }
    }
}

/// What is done with a frame.
#[derive(Debug, PartialEq, Eq)]
pub enum FrameStep {
    /// This text is the message.
    TakeText(String),
    /// These bytes are the message.
    TakeBytes(Vec<u8>),
    /// A pong with this payload is sent, and reading goes on.
    Answer(Vec<u8>),
    /// Reading goes on.
    Skip,
    /// Reading ends with a failure.
    Fail(BridgeError),
}

/// The model of [`FrameStep`].
pub enum FrameStepV {
    TakeText(Seq<char>),
    TakeBytes(Seq<u8>),
    Answer(Seq<u8>),
    Skip,
    Fail(BridgeErrorV),
}

impl View for FrameStep {
    type V = FrameStepV;

    open spec fn view(&self) -> FrameStepV {
        match self {
            FrameStep::TakeText(text) => FrameStepV::TakeText(text@),
            FrameStep::TakeBytes(bytes) => FrameStepV::TakeBytes(bytes@),
            FrameStep::Answer(payload) => FrameStepV::Answer(payload@),
            FrameStep::Skip => FrameStepV::Skip,
            FrameStep::Fail(e) => FrameStepV::Fail(e@),
        }
    }
}

/// The failure of a connection that was closed.
pub open spec fn closed_failure(reason: Option<Seq<char>>) -> BridgeErrorV {
    failure(
        "websocket app-server closed connection: "@ + (match reason {
            Some(text) => if text.len() > 0 {
                text
            } else {
                "no reason provided"@
            },
            None => "no reason provided"@,
        }),
    )
}

/// What is done with a frame: a ping is answered with its own payload.
pub open spec fn frame_plan(frame: FrameV) -> FrameStepV {
    match frame {
        FrameV::Text(text) => FrameStepV::TakeText(text),
        FrameV::Binary(bytes) => FrameStepV::TakeBytes(bytes),
        FrameV::Ping(payload) => FrameStepV::Answer(payload),
        FrameV::Pong(_) => FrameStepV::Skip,
        FrameV::Raw => FrameStepV::Skip,
        FrameV::Close(reason) => FrameStepV::Fail(closed_failure(reason)),
    }
}

/// What is done with a frame.
pub fn frame_step(frame: Frame) -> (r: FrameStep)
    ensures
        r@ == frame_plan(frame@),
{
    match frame {
        Frame::Text(text) => FrameStep::TakeText(text),
        Frame::Binary(bytes) => FrameStep::TakeBytes(bytes),
        Frame::Ping(payload) => FrameStep::Answer(payload),
        Frame::Pong(_) => FrameStep::Skip,
        Frame::Raw => FrameStep::Skip,
        Frame::Close(reason) => {
            let text: &str = match &reason {
                Some(t) => if t.as_str().is_empty() {
                    "no reason provided"
                } else {
                    t.as_str()
                },
                None => "no reason provided",
            };
            FrameStep::Fail(
                BridgeError::new(cat("websocket app-server closed connection: ", text).as_str()),
            )
        },
    }
}

/// The failure of a message that did not come in time.
pub open spec fn read_timeout(timeout_ms: u64) -> BridgeErrorV {
    failure(
        "timed out waiting for websocket JSON-RPC message after "@ + decimal(timeout_ms as nat)
            + "ms"@,
    )
}

/// The wait for a message. Its deadline is fixed when it begins.
#[derive(Debug, PartialEq, Eq)]
pub struct Reading {
    pub timeout_ms: u64,
    pub deadline: u64,
}

/// The model of [`Reading`].
#[verifier::ext_equal]
pub struct ReadingV {
    pub timeout_ms: u64,
    pub deadline: u64,
}

impl View for Reading {
    type V = ReadingV;

    open spec fn view(&self) -> ReadingV {
        ReadingV { timeout_ms: self.timeout_ms, deadline: self.deadline }
    }
}

/// A wait that begins at `now`. One that could not end is over at once.
pub open spec fn reading_begun(now: u64, timeout_ms: u64) -> ReadingV {
    ReadingV {
        timeout_ms,
        deadline: if now + timeout_ms <= u64::MAX {
            (now + timeout_ms) as u64
        } else {
            now
        },
    }
}

impl ReadingV {
    /// How long the socket is waited for; a failure once the deadline is there.
    pub open spec fn left(self, now: u64) -> Result<u64, BridgeErrorV> {
        if now >= self.deadline {
            Err(read_timeout(self.timeout_ms))
        } else {
            Ok((self.deadline - now) as u64)
        }
    }

    /// The wait after a frame, and what is done with the frame.
    pub open spec fn taken(self, frame: FrameV) -> (ReadingV, FrameStepV) {
        (self, frame_plan(frame))
    }

    /// The failure of a read: the time is up where the socket gave up waiting at the deadline,
    /// else what the socket said.
    pub open spec fn failed(self, error: Seq<char>, gave_up: bool, now: u64) -> BridgeErrorV {
        if gave_up && now >= self.deadline {
            read_timeout(self.timeout_ms)
        } else {
            in_context("failed to read websocket JSON-RPC message"@, failure(error))
        }
    }
}

impl Reading {
    /// Begins to wait for a message at `now`.
    pub fn begin(now: u64, timeout_ms: u64) -> (r: Reading)
        ensures
            r@ == reading_begun(now, timeout_ms),
    {
        let deadline: u64 = match now.checked_add(timeout_ms) {
            Some(at) => at,
            None => now,
        };
        Reading { timeout_ms, deadline }
    }

    /// The failure of a message that did not come in time.
    fn late(&self) -> (r: BridgeError)
        ensures
            r@ == read_timeout(self@.timeout_ms),
    {
        BridgeError::new(
            cat3(
                "timed out waiting for websocket JSON-RPC message after ",
                u64_text(self.timeout_ms).as_str(),
                "ms",
            ).as_str(),
        )
    }

    /// How long the socket is waited for; a failure once the deadline is there.
    pub fn time_left(&self, now: u64) -> (r: Result<u64, BridgeError>)
        ensures
            outcome(r) == self@.left(now),
    {
        if now >= self.deadline {
            Err(self.late())
        } else {
            Ok(self.deadline - now)
        }
    }

    /// Takes a frame, and tells what is done with it.
    pub fn take(&mut self, frame: Frame) -> (r: FrameStep)
        ensures
            (final(self)@, r@) == old(self)@.taken(frame@),
    {
        frame_step(frame)
    }

    /// The failure of a read at `now`.
    pub fn failure(&self, error: &str, gave_up: bool, now: u64) -> (r: BridgeError)
        ensures
            r@ == self@.failed(error@, gave_up, now),
    {
        if gave_up && now >= self.deadline {
            self.late()
        } else {
            BridgeError::new(error).context("failed to read websocket JSON-RPC message")
        }
    }
}

/// The wait after a run of frames.
pub open spec fn reading_after(reading: ReadingV, frames: Seq<FrameV>) -> ReadingV
    decreases frames.len(),
{
    if frames.len() == 0 {
        reading
    } else {
        reading_after(reading, frames.drop_last()).taken(frames.last()).0
    }
}

/// A frame that only keeps the connection alive.
pub open spec fn keepalive(frame: FrameV) -> bool {
    frame is Ping || frame is Pong
}

/// Frames that keep the connection alive do not extend a wait: whatever came of them, it fails
/// with the time that was allowed as soon as that has passed since it began. None of them is
/// a message, and each ping is answered with its own payload.
pub proof fn keepalives_do_not_extend_the_wait(
    begun: u64,
    timeout_ms: u64,
    frames: Seq<FrameV>,
    now: u64,
    i: int,
)
    requires
        begun + timeout_ms <= u64::MAX,
        forall|k: int| 0 <= k < frames.len() ==> keepalive(#[trigger] frames[k]),
        0 <= i < frames.len(),
    ensures
        now >= begun + timeout_ms ==> reading_after(
            reading_begun(begun, timeout_ms),
            frames,
        ).left(now) == Err::<u64, BridgeErrorV>(read_timeout(timeout_ms)),
        now < begun + timeout_ms ==> reading_after(
            reading_begun(begun, timeout_ms),
            frames,
        ).left(now) == Ok::<u64, BridgeErrorV>((begun + timeout_ms - now) as u64),
        frames[i] matches FrameV::Ping(payload) ==> frame_plan(frames[i]) == FrameStepV::Answer(
            payload,
        ),
        frames[i] is Pong ==> frame_plan(frames[i]) == FrameStepV::Skip,
{
    lemma_reading_after(reading_begun(begun, timeout_ms), frames);
}

/// A wait keeps its deadline under every run of frames.
proof fn lemma_reading_after(reading: ReadingV, frames: Seq<FrameV>)
    ensures
        reading_after(reading, frames) == reading,
    decreases frames.len(),
{
    if frames.len() > 0 {
        lemma_reading_after(reading, frames.drop_last());
    }
}

} // verus!
