//! The handshake as a sequence of exchanges. The client decides what to ask
//! next from each reply; sending the request and decoding the answer is the
//! caller's part.

use super::models::{ApiConfig, ConvertResponse, InitResponse};
use crate::auth::{extract_auth_token, token_in};
use crate::text::{decimal, push_decimal, push_signed_decimal, same_text, signed_decimal};
use crate::utils::get_timestamp;
use bytes::Bytes;
use vstd::prelude::*;
use vstd::string::StringExecFns;

verus! {

/// `bytes::Bytes`: a chunk of the stream or the body of a file, carried
/// through unread but for its length.
#[verifier::external_type_specification]
#[verifier::external_body]
pub struct ExBytes(Bytes);

/// The bytes that a `Bytes` holds.
pub uninterp spec fn bytes_content(bytes: Bytes) -> Seq<u8>;

/// `Bytes::len` gives the number of bytes held.
pub assume_specification[ Bytes::len ](bytes: &Bytes) -> (n: usize)
    ensures
        n == bytes_content(*bytes).len(),
;

/// The `Origin` header of every request.
pub const ORIGIN: &'static str = "https://v1.y2mate.nu";

/// The `Referer` header of every request, and the address of the landing
/// page.
pub const REFERER: &'static str = "https://v1.y2mate.nu/";

/// The request that was answered with a status outside 200 to 299.
#[derive(Debug, Clone, Copy, PartialEq, Eq, Structural)]
pub enum Exchange {
    Init,
    Convert,
    Redirect,
    Download,
}

/// Why a handshake ended without what it was started for.
#[derive(Debug, Clone, PartialEq, Eq)]
pub enum ApiError {
    /// No answer came: the connection, the name lookup or the encryption
    /// failed.
    RequestError(String),
    /// The service answered with an error of its own.
    ApiError(String),
    /// The body of an answer could not be decoded.
    InvalidResponse,
    /// The service reported success and named no download address.
    NoDownloadUrl,
    /// An answer came with a status outside 200 to 299.
    HttpStatus(u16, Exchange),
    /// The landing page holds no payload that gives a token.
    AuthExtraction,
}

/// The mathematical content of an [`ApiError`].
pub ghost enum Failure {
    Transport(Seq<char>),
    Upstream(Seq<char>),
    Decode,
    NoDownloadUrl,
    HttpStatus(u16, Exchange),
    AuthExtraction,
}

impl View for ApiError {
    type V = Failure;

    open spec fn view(&self) -> Failure {
        match self {
            ApiError::RequestError(detail) => Failure::Transport(detail@),
            ApiError::ApiError(detail) => Failure::Upstream(detail@),
            ApiError::InvalidResponse => Failure::Decode,
            ApiError::NoDownloadUrl => Failure::NoDownloadUrl,
            ApiError::HttpStatus(status, exchange) => Failure::HttpStatus(*status, *exchange),
            ApiError::AuthExtraction => Failure::AuthExtraction,
        }
    }
}

/// What `reqwest::StatusCode` displays for a code from 100 to 999: the
/// number and the reason phrase that goes with it.
pub uninterp spec fn status_line(code: u16) -> Seq<char>;

/// Makes a `reqwest::StatusCode` of the code with `StatusCode::from_u16`,
/// which takes the codes from 100 to 999 and no others, and gives what it
/// displays. The text is a function of the code alone.
#[verifier::external_body]
fn display_status(code: u16) -> (line: Option<String>)
    ensures
        match line {
            Some(text) => 100 <= code <= 999 && text@ == status_line(code),
            None => !(100 <= code <= 999),
        },
{
    reqwest::StatusCode::from_u16(code).ok().map(|status| status.to_string())
}

/// How a status is shown: as the status line where it has one, as the bare
/// number otherwise.
pub open spec fn status_shown(status: u16) -> Seq<char> {
    if 100 <= status <= 999 {
        status_line(status)
    } else {
        decimal(status as nat)
    }
}

/// What is said of a status outside 200 to 299.
pub open spec fn status_text(status: u16, exchange: Exchange) -> Seq<char> {
    match exchange {
        Exchange::Init => "HTTP "@ + status_shown(status) + ": Init request failed"@,
        Exchange::Convert => "HTTP "@ + status_shown(status) + ": Convert request failed"@,
        Exchange::Redirect => "HTTP "@ + status_shown(status) + ": Redirect request failed"@,
        Exchange::Download => "Download failed with status: "@ + status_shown(status),
    }
}

impl Failure {
    /// The text of the message.
    pub open spec fn message(self) -> Seq<char> {
        match self {
            Failure::Transport(detail) => "HTTP request failed: "@ + detail,
            Failure::Upstream(detail) => "API returned error: "@ + detail,
            Failure::Decode => "Invalid response format"@,
            Failure::NoDownloadUrl => "Download URL not found"@,
            Failure::HttpStatus(status, exchange) => "API returned error: "@ + status_text(
                status,
                exchange,
            ),
            Failure::AuthExtraction => "Authorization token not found"@,
        }
    }
}

/// The message for a status outside 200 to 299, given how the status is
/// shown.
pub fn status_message(shown: &str, exchange: Exchange) -> (text: String)
    ensures
        text@ == "API returned error: "@ + match exchange {
            Exchange::Init => "HTTP "@ + shown@ + ": Init request failed"@,
            Exchange::Convert => "HTTP "@ + shown@ + ": Convert request failed"@,
            Exchange::Redirect => "HTTP "@ + shown@ + ": Redirect request failed"@,
            Exchange::Download => "Download failed with status: "@ + shown@,
        },
{
    let mut text: String = String::from_str("API returned error: ");
    match exchange {
        Exchange::Init => {
            text.append("HTTP ");
            text.append(shown);
            text.append(": Init request failed");
            assert(text@ == "API returned error: "@ + ("HTTP "@ + shown@
                + ": Init request failed"@));
        },
        Exchange::Convert => {
            text.append("HTTP ");
            text.append(shown);
            text.append(": Convert request failed");
            assert(text@ == "API returned error: "@ + ("HTTP "@ + shown@
                + ": Convert request failed"@));
        },
        Exchange::Redirect => {
            text.append("HTTP ");
            text.append(shown);
            text.append(": Redirect request failed");
            assert(text@ == "API returned error: "@ + ("HTTP "@ + shown@
                + ": Redirect request failed"@));
        },
        Exchange::Download => {
            text.append("Download failed with status: ");
            text.append(shown);
            assert(text@ == "API returned error: "@ + ("Download failed with status: "@
                + shown@));
        },
    }
    text
}

fn show_status(status: u16) -> (shown: String)
    ensures
        shown@ == status_shown(status),
{
    match display_status(status) {
        Some(line) => line,
        None => {
            let mut number: String = String::new();
            push_decimal(&mut number, status as u64);
            assert(number@ == decimal(status as nat)) by {
                assert(Seq::<char>::empty() + decimal(status as nat) == decimal(status as nat));
            }
            number
        },
    }
}

impl ApiError {
    /// The message for a person to read.
    pub fn to_string(&self) -> (text: String)
        ensures
            text@ == self@.message(),
    {
        match self {
            ApiError::RequestError(detail) => String::from_str("HTTP request failed: ").concat(
                detail.as_str(),
            ),
            ApiError::ApiError(detail) => String::from_str("API returned error: ").concat(
                detail.as_str(),
            ),
            ApiError::InvalidResponse => String::from_str("Invalid response format"),
            ApiError::NoDownloadUrl => String::from_str("Download URL not found"),
            ApiError::HttpStatus(status, exchange) => {
                let shown: String = show_status(*status);
                status_message(shown.as_str(), *exchange)
            },
            ApiError::AuthExtraction => String::from_str("Authorization token not found"),
        }
    }
}

/// One GET request: its address and the two headers that every request
/// carries.
#[derive(Debug, Clone, PartialEq, Eq)]
pub struct Request {
    pub url: String,
    pub origin: String,
    pub referer: String,
}

impl Request {
    /// The request for `url`, with the fixed headers.
    pub open spec fn is_get(&self, url: Seq<char>) -> bool {
        self.url@ == url && self.origin@ == ORIGIN@ && self.referer@ == REFERER@
    }

    /// The request for `url`, with the fixed headers.
    pub fn get(url: String) -> (request: Request)
        ensures
            request.is_get(url@),
    {
        Request { url, origin: String::from_str(ORIGIN), referer: String::from_str(REFERER) }
    }
}

/// The body of an answer, as the caller decoded it.
#[derive(Debug, PartialEq, Eq)]
pub enum Body {
    /// The text of a page.
    Page(String),
    /// A decoded answer to the initialize request.
    Init(InitResponse),
    /// A decoded answer to a convert request.
    Convert(ConvertResponse),
    /// The bytes of a file.
    File(Bytes),
    /// A body that could not be read or decoded.
    Malformed,
}

/// What came of one request.
#[derive(Debug, PartialEq, Eq)]
pub enum Reply {
    /// No answer: the text says what went wrong on the way.
    Failed(String),
    /// An answer, with its status code.
    Received { status: u16, body: Body },
}

/// What a handshake was started for.
#[derive(Debug, Clone, Copy, PartialEq, Eq, Structural)]
pub enum Goal {
    /// The address of the convert request.
    ConvertUrl,
    /// The service's final answer to the convert request.
    Conversion,
    /// The title and the download address.
    Info,
    /// The bytes at a download address.
    File,
    /// The title and the bytes of the audio.
    Mp3,
}

/// The request that a handshake waits on.
#[derive(Debug, Clone, Copy, PartialEq, Eq, Structural)]
pub enum Stage {
    /// The landing page.
    Page,
    /// The initialize request.
    Init,
    /// The convert request.
    Convert,
    /// The request that follows a redirect.
    Redirect,
    /// The download.
    Payload,
}

/// A handshake under way: one request is out, and this is what is needed to
/// go on when its reply comes.
#[derive(Debug, PartialEq, Eq)]
pub struct Handshake {
    pub goal: Goal,
    pub stage: Stage,
    /// The address under which the initialize endpoint lives.
    pub base: String,
    /// The video asked for; empty where the goal needs none.
    pub video_id: String,
    /// The title learned so far; empty until the conversion is known.
    pub title: String,
}

/// What a finished handshake hands over, by its goal.
#[derive(Debug, PartialEq, Eq)]
pub enum Output {
    ConvertUrl(String),
    Conversion(ConvertResponse),
    Info(String, String),
    File(Bytes),
    Mp3(String, Bytes),
}

impl Output {
    /// The title and the download address, where that is what was handed
    /// over; anything else is not the answer that was asked for.
    pub fn info(self) -> (result: Result<(String, String), ApiError>)
        ensures
            match self {
                Output::Info(title, url) => result == Ok::<(String, String), ApiError>(
                    (title, url),
                ),
                _ => result == Err::<(String, String), ApiError>(ApiError::InvalidResponse),
            },
    {
        match self {
            Output::Info(title, url) => Ok((title, url)),
            _ => Err(ApiError::InvalidResponse),
        }
    }
}

/// What a handshake does with a reply: it sends the next request, or it is
/// over.
#[derive(Debug, PartialEq, Eq)]
pub enum Step {
    Send(Handshake, Request),
    Done(Result<Output, ApiError>),
}

/// A status from 200 to 299.
pub open spec fn is_success(status: u16) -> bool {
    200 <= status < 300
}

/// The address of the initialize request.
pub open spec fn init_url(base: Seq<char>, name: Seq<char>, token: Seq<char>, now: u64) -> Seq<
    char,
> {
    base + "/init?"@ + name + "="@ + token + "&t="@ + decimal(now as nat)
}

/// The address of the convert request.
pub open spec fn convert_url(url: Seq<char>, video_id: Seq<char>, now: u64) -> Seq<char> {
    url + "&v="@ + video_id + "&f=mp3&t="@ + decimal(now as nat)
}

/// The address of the request that follows a redirect.
pub open spec fn redirect_url(url: Seq<char>, now: u64) -> Seq<char> {
    url + "&t="@ + decimal(now as nat)
}

/// What the service's error code is reported as.
pub open spec fn code_text(code: i32) -> Seq<char> {
    "Error code: "@ + signed_decimal(code as int)
}

impl Step {
    /// The handshake is over, with the failure `f`.
    pub open spec fn fails_with(self, f: Failure) -> bool {
        self matches Step::Done(Err(e)) && e@ == f
    }

    /// The handshake `h` goes on: it asks for `url` and waits at `stage`,
    /// knowing the title `title`.
    pub open spec fn sends(self, h: Handshake, stage: Stage, url: Seq<char>, title: Seq<char>) -> bool {
        self matches Step::Send(next, request) && request.is_get(url) && next.goal == h.goal
            && next.stage == stage && next.base@ == h.base@ && next.video_id@ == h.video_id@
            && next.title@ == title
    }
}

/// What follows the reply to the request for the landing page.
pub open spec fn after_page(h: Handshake, reply: Reply, now: u64, out: Step) -> bool {
    match reply {
        Reply::Failed(detail) => out.fails_with(Failure::Transport(detail@)),
        Reply::Received { status, body } => match body {
            Body::Page(html) => match token_in(html@) {
                Some((name, value)) => out.sends(
                    h,
                    Stage::Init,
                    init_url(h.base@, seq![name], value, now),
                    h.title@,
                ),
                None => out.fails_with(Failure::AuthExtraction),
            },
            _ => out.fails_with(Failure::Decode),
        },
    }
}

/// What follows the reply to the initialize request.
pub open spec fn after_init(h: Handshake, reply: Reply, now: u64, out: Step) -> bool {
    match reply {
        Reply::Failed(detail) => out.fails_with(Failure::Transport(detail@)),
        Reply::Received { status, body } => if !is_success(status) {
            out.fails_with(Failure::HttpStatus(status, Exchange::Init))
        } else {
            match body {
                Body::Init(r) => if r.error@ != "0"@ {
                    out.fails_with(Failure::Upstream(r.error@))
                } else if h.goal == Goal::ConvertUrl {
                    out matches Step::Done(Ok(Output::ConvertUrl(url))) && url@ == r.convert_url@
                } else {
                    out.sends(
                        h,
                        Stage::Convert,
                        convert_url(r.convert_url@, h.video_id@, now),
                        h.title@,
                    )
                },
                _ => out.fails_with(Failure::Decode),
            }
        },
    }
}

/// What follows a successful final answer `r` to the convert request.
pub open spec fn concluded(h: Handshake, r: ConvertResponse, out: Step) -> bool {
    match h.goal {
        Goal::Info => if r.download_url@.len() == 0 {
            out.fails_with(Failure::NoDownloadUrl)
        } else {
            out matches Step::Done(Ok(Output::Info(title, url))) && title@ == r.title@ && url@
                == r.download_url@
        },
        Goal::Mp3 => if r.download_url@.len() == 0 {
            out.fails_with(Failure::NoDownloadUrl)
        } else {
            out.sends(h, Stage::Payload, r.download_url@, r.title@)
        },
        _ => out == Step::Done(Ok(Output::Conversion(r))),
    }
}

/// What follows the reply to a convert request: to the first where `first`
/// holds, to the one that followed a redirect otherwise.
pub open spec fn after_convert(h: Handshake, first: bool, reply: Reply, now: u64, out: Step) -> bool {
    match reply {
        Reply::Failed(detail) => out.fails_with(Failure::Transport(detail@)),
        Reply::Received { status, body } => if !is_success(status) {
            out.fails_with(
                Failure::HttpStatus(
                    status,
                    if first {
                        Exchange::Convert
                    } else {
                        Exchange::Redirect
                    },
                ),
            )
        } else {
            match body {
                Body::Convert(r) => if r.error != 0 {
                    out.fails_with(Failure::Upstream(code_text(r.error)))
                } else if first && r.redirects() {
                    out.sends(h, Stage::Redirect, redirect_url(r.redirect_url@, now), h.title@)
                } else {
                    concluded(h, r, out)
                },
                _ => out.fails_with(Failure::Decode),
            }
        },
    }
}

/// What follows the reply to the download request.
pub open spec fn after_payload(h: Handshake, reply: Reply, out: Step) -> bool {
    match reply {
        Reply::Failed(detail) => out.fails_with(Failure::Transport(detail@)),
        Reply::Received { status, body } => if !is_success(status) {
            out.fails_with(Failure::HttpStatus(status, Exchange::Download))
        } else {
            match body {
                Body::File(data) => if h.goal == Goal::Mp3 {
                    out matches Step::Done(Ok(Output::Mp3(title, bytes))) && title@ == h.title@
                        && bytes == data
                } else {
                    out == Step::Done(Ok(Output::File(data)))
                },
                _ => out.fails_with(Failure::Decode),
            }
        },
    }
}

/// What the handshake `h` does with `reply` when the clock reads `now`.
pub open spec fn advanced(h: Handshake, reply: Reply, now: u64, out: Step) -> bool {
    match h.stage {
        Stage::Page => after_page(h, reply, now, out),
        Stage::Init => after_init(h, reply, now, out),
        Stage::Convert => after_convert(h, true, reply, now, out),
        Stage::Redirect => after_convert(h, false, reply, now, out),
        Stage::Payload => after_payload(h, reply, out),
    }
}

/// Whether the status is one from 200 to 299.
pub fn success(status: u16) -> (ok: bool)
    ensures
        ok == is_success(status),
{
    200 <= status && status < 300
}

fn make_init_url(base: &str, name: &str, token: &str, now: u64) -> (url: String)
    ensures
        url@ == init_url(base@, name@, token@, now),
{
    let mut url: String = String::from_str(base);
    url.append("/init?");
    url.append(name);
    url.append("=");
    url.append(token);
    url.append("&t=");
    push_decimal(&mut url, now);
    url
}

fn make_convert_url(address: &str, video_id: &str, now: u64) -> (url: String)
    ensures
        url@ == convert_url(address@, video_id@, now),
{
    let mut url: String = String::from_str(address);
    url.append("&v=");
    url.append(video_id);
    url.append("&f=mp3&t=");
    push_decimal(&mut url, now);
    url
}

fn make_redirect_url(address: &str, now: u64) -> (url: String)
    ensures
        url@ == redirect_url(address@, now),
{
    let mut url: String = String::from_str(address);
    url.append("&t=");
    push_decimal(&mut url, now);
    url
}

fn make_code_text(code: i32) -> (text: String)
    ensures
        text@ == code_text(code),
{
    let mut text: String = String::from_str("Error code: ");
    push_signed_decimal(&mut text, code as i64);
    text
}

impl Handshake {
    fn begin(goal: Goal, stage: Stage, base: &str, video_id: String) -> (h: Handshake)
        ensures
            h.goal == goal,
            h.stage == stage,
            h.base@ == base@,
            h.video_id@ == video_id@,
            h.title@.len() == 0,
    {
        Handshake {
            goal,
            stage,
            base: String::from_str(base),
            video_id,
            title: String::new(),
        }
    }

    fn send(self, stage: Stage, url: String) -> (out: Step)
        ensures
            out.sends(self, stage, url@, self.title@),
    {
        Step::Send(
            Handshake {
                goal: self.goal,
                stage,
                base: self.base,
                video_id: self.video_id,
                title: self.title,
            },
            Request::get(url),
        )
    }

    fn on_page(self, reply: Reply, now: u64) -> (out: Step)
        ensures
            after_page(self, reply, now, out),
    {
        match reply {
            Reply::Failed(detail) => Step::Done(Err(ApiError::RequestError(detail))),
            Reply::Received { status, body } => match body {
                Body::Page(html) => match extract_auth_token(html.as_str()) {
                    Ok(token) => {
                        let url: String = make_init_url(
                            self.base.as_str(),
                            token.parameter_name.as_str(),
                            token.value.as_str(),
                            now,
                        );
                        self.send(Stage::Init, url)
                    },
                    Err(_) => Step::Done(Err(ApiError::AuthExtraction)),
                },
                _ => Step::Done(Err(ApiError::InvalidResponse)),
            },
        }
    }

    fn on_init(self, reply: Reply, now: u64) -> (out: Step)
        ensures
            after_init(self, reply, now, out),
    {
        match reply {
            Reply::Failed(detail) => Step::Done(Err(ApiError::RequestError(detail))),
            Reply::Received { status, body } => {
                if !success(status) {
                    return Step::Done(Err(ApiError::HttpStatus(status, Exchange::Init)));
                }
                match body {
                    Body::Init(r) => {
                        if !same_text(r.error.as_str(), "0") {
                            Step::Done(Err(ApiError::ApiError(r.error)))
                        } else {
                            match self.goal {
                                Goal::ConvertUrl => Step::Done(Ok(Output::ConvertUrl(r.convert_url))),
                                _ => {
                                    let url: String = make_convert_url(
                                        r.convert_url.as_str(),
                                        self.video_id.as_str(),
                                        now,
                                    );
                                    self.send(Stage::Convert, url)
                                },
                            }
                        }
                    },
                    _ => Step::Done(Err(ApiError::InvalidResponse)),
                }
            },
        }
    }

    fn conclude(self, r: ConvertResponse) -> (out: Step)
        ensures
            concluded(self, r, out),
    {
        match self.goal {
            Goal::Info => {
                if r.download_url.as_str().is_empty() {
                    Step::Done(Err(ApiError::NoDownloadUrl))
                } else {
                    Step::Done(Ok(Output::Info(r.title, r.download_url)))
                }
            },
            Goal::Mp3 => {
                if r.download_url.as_str().is_empty() {
                    Step::Done(Err(ApiError::NoDownloadUrl))
                } else {
                    Step::Send(
                        Handshake {
                            goal: self.goal,
                            stage: Stage::Payload,
                            base: self.base,
                            video_id: self.video_id,
                            title: r.title,
                        },
                        Request::get(r.download_url),
                    )
                }
            },
            _ => Step::Done(Ok(Output::Conversion(r))),
        }
    }

    fn on_convert(self, first: bool, reply: Reply, now: u64) -> (out: Step)
        ensures
            after_convert(self, first, reply, now, out),
    {
        match reply {
            Reply::Failed(detail) => Step::Done(Err(ApiError::RequestError(detail))),
            Reply::Received { status, body } => {
                if !success(status) {
                    let exchange: Exchange = if first {
                        Exchange::Convert
                    } else {
                        Exchange::Redirect
                    };
                    return Step::Done(Err(ApiError::HttpStatus(status, exchange)));
                }
                match body {
                    Body::Convert(r) => {
                        if r.error != 0 {
                            Step::Done(Err(ApiError::ApiError(make_code_text(r.error))))
                        } else if first && r.wants_redirect() {
                            let url: String = make_redirect_url(r.redirect_url.as_str(), now);
                            self.send(Stage::Redirect, url)
                        } else {
                            self.conclude(r)
                        }
                    },
                    _ => Step::Done(Err(ApiError::InvalidResponse)),
                }
            },
        }
    }

    fn on_payload(self, reply: Reply) -> (out: Step)
        ensures
            after_payload(self, reply, out),
    {
        match reply {
            Reply::Failed(detail) => Step::Done(Err(ApiError::RequestError(detail))),
            Reply::Received { status, body } => {
                if !success(status) {
                    return Step::Done(Err(ApiError::HttpStatus(status, Exchange::Download)));
                }
                match body {
                    Body::File(data) => match self.goal {
                        Goal::Mp3 => Step::Done(Ok(Output::Mp3(self.title, data))),
                        _ => Step::Done(Ok(Output::File(data))),
                    },
                    _ => Step::Done(Err(ApiError::InvalidResponse)),
                }
            },
        }
    }

    /// What the handshake does with the reply to its request, when the
    /// clock reads `now`.
    pub fn step_at(self, reply: Reply, now: u64) -> (out: Step)
        ensures
            advanced(self, reply, now, out),
    {
        match self.stage {
            Stage::Page => self.on_page(reply, now),
            Stage::Init => self.on_init(reply, now),
            Stage::Convert => self.on_convert(true, reply, now),
            Stage::Redirect => self.on_convert(false, reply, now),
            Stage::Payload => self.on_payload(reply),
        }
    }

    /// What the handshake does with the reply to its request. A request
    /// that it sends carries the time at which this is called.
    pub fn step(self, reply: Reply) -> (out: Step)
        ensures
            exists|now: u64| advanced(self, reply, now, out),
    {
        let now: u64 = get_timestamp();
        let out: Step = self.step_at(reply, now);
        assert(advanced(self, reply, now, out));
        out
    }
}

/// The client of one conversion service.
#[derive(Debug, Clone, PartialEq, Eq)]
pub struct ApiClient {
    config: ApiConfig,
}

impl ApiClient {
    /// The address under which the initialize endpoint lives.
    pub closed spec fn base(&self) -> Seq<char> {
        self.config.base_init_url@
    }

    /// The identifier this client goes by.
    pub closed spec fn user(&self) -> Seq<char> {
        self.config.user_id@
    }

    /// A handshake of this client that has just sent its first request.
    pub open spec fn started(
        &self,
        goal: Goal,
        stage: Stage,
        video_id: Seq<char>,
        url: Seq<char>,
        out: (Handshake, Request),
    ) -> bool {
        out.0.goal == goal && out.0.stage == stage && out.0.base@ == self.base() && out.0.video_id@
            == video_id && out.0.title@.len() == 0 && out.1.is_get(url)
    }

    /// The client for `config`.
    pub fn new(config: ApiConfig) -> (client: ApiClient)
        ensures
            client.base() == config.base_init_url@,
            client.user() == config.user_id@,
    {
        ApiClient { config }
    }

    /// The client of the default service that goes by `user_id`.
    pub fn with_user_id(user_id: String) -> (client: ApiClient)
        ensures
            client.base() == "https://eta.etacloud.org/api/v1"@,
            client.user() == user_id@,
    {
        let standard: ApiConfig = ApiConfig::default();
        ApiClient::new(ApiConfig { user_id, base_init_url: standard.base_init_url })
    }

    /// The configuration this client was made with.
    pub fn config(&self) -> (config: &ApiConfig)
        ensures
            config.base_init_url@ == self.base(),
            config.user_id@ == self.user(),
    {
        &self.config
    }

    fn start(&self, goal: Goal, video_id: String) -> (out: (Handshake, Request))
        ensures
            self.started(goal, Stage::Page, video_id@, REFERER@, out),
    {
        (
            Handshake::begin(goal, Stage::Page, self.config.base_init_url.as_str(), video_id),
            Request::get(String::from_str(REFERER)),
        )
    }

    /// Starts the handshake that yields the address of the convert request:
    /// it asks for the landing page, derives the token from it and sends the
    /// initialize request.
    pub fn init(&self) -> (out: (Handshake, Request))
        ensures
            self.started(Goal::ConvertUrl, Stage::Page, Seq::empty(), REFERER@, out),
    {
        self.start(Goal::ConvertUrl, String::new())
    }

    /// Starts the conversion of `video_id` at `convert_url`, when the clock
    /// reads `now`: the handshake yields the service's final answer,
    /// following one redirect at most.
    pub fn convert_at(&self, convert_url: &str, video_id: &str, now: u64) -> (out: (
        Handshake,
        Request,
    ))
        ensures
            self.started(
                Goal::Conversion,
                Stage::Convert,
                video_id@,
                self::convert_url(convert_url@, video_id@, now),
                out,
            ),
    {
        (
            Handshake::begin(
                Goal::Conversion,
                Stage::Convert,
                self.config.base_init_url.as_str(),
                String::from_str(video_id),
            ),
            Request::get(make_convert_url(convert_url, video_id, now)),
        )
    }

    /// Starts the conversion of `video_id` at `convert_url`; the request
    /// carries the time of the call.
    pub fn convert(&self, convert_url: &str, video_id: &str) -> (out: (Handshake, Request))
        ensures
            exists|now: u64|
                self.started(
                    Goal::Conversion,
                    Stage::Convert,
                    video_id@,
                    self::convert_url(convert_url@, video_id@, now),
                    out,
                ),
    {
        let now: u64 = get_timestamp();
        let out: (Handshake, Request) = self.convert_at(convert_url, video_id, now);
        assert(self.started(
            Goal::Conversion,
            Stage::Convert,
            video_id@,
            self::convert_url(convert_url@, video_id@, now),
            out,
        ));
        out
    }

    /// Starts the download of the file at `download_url`.
    pub fn download_file(&self, download_url: &str) -> (out: (Handshake, Request))
        ensures
            self.started(Goal::File, Stage::Payload, Seq::empty(), download_url@, out),
    {
        (
            Handshake::begin(
                Goal::File,
                Stage::Payload,
                self.config.base_init_url.as_str(),
                String::new(),
            ),
            Request::get(String::from_str(download_url)),
        )
    }

    /// Starts the whole sequence for `video_id`: initialize, convert,
    /// download. The handshake yields the title and the bytes of the audio.
    pub fn download_mp3(&self, video_id: &str) -> (out: (Handshake, Request))
        ensures
            self.started(Goal::Mp3, Stage::Page, video_id@, REFERER@, out),
    {
        self.start(Goal::Mp3, String::from_str(video_id))
    }

    /// Starts the handshake for `video_id` that stops short of the
    /// download: it yields the title and the download address.
    pub fn get_download_info(&self, video_id: &str) -> (out: (Handshake, Request))
        ensures
            self.started(Goal::Info, Stage::Page, video_id@, REFERER@, out),
    {
        self.start(Goal::Info, String::from_str(video_id))
    }
}

/// A successful answer to a convert request, first or second, whose error
/// code is not zero ends the handshake with that code as the service's
/// error, whatever the goal: nothing is sent and nothing is handed over.
pub proof fn lemma_error_code_fails(
    h: Handshake,
    status: u16,
    r: ConvertResponse,
    now: u64,
    out: Step,
)
    requires
        h.stage == Stage::Convert || h.stage == Stage::Redirect,
        is_success(status),
        r.error != 0,
        advanced(h, Reply::Received { status, body: Body::Convert(r) }, now, out),
    ensures
        out.fails_with(Failure::Upstream(code_text(r.error))),
        !(out is Send),
        !(out matches Step::Done(Ok(_))),
{
}

/// A first answer that asks for a redirect and says where is followed by
/// exactly one more request, for that address with a fresh time.
pub proof fn lemma_redirect_is_followed(
    h: Handshake,
    status: u16,
    r: ConvertResponse,
    now: u64,
    out: Step,
)
    requires
        h.stage == Stage::Convert,
        is_success(status),
        r.error == 0,
        r.redirect == 1,
        r.redirect_url@.len() > 0,
        advanced(h, Reply::Received { status, body: Body::Convert(r) }, now, out),
    ensures
        out matches Step::Send(next, request) && next.stage == Stage::Redirect && request.is_get(
            redirect_url(r.redirect_url@, now),
        ),
{
}

/// Whatever the reply to the request that followed a redirect, no second
/// redirect is followed: the handshake ends, or it goes on to the download.
pub proof fn lemma_redirect_is_not_repeated(h: Handshake, reply: Reply, now: u64, out: Step)
    requires
        h.stage == Stage::Redirect,
        advanced(h, reply, now, out),
    ensures
        out matches Step::Send(next, request) ==> h.goal == Goal::Mp3 && next.stage
            == Stage::Payload,
{
}

/// A final answer that reports success and names no download address ends
/// a handshake for the download with the failure kept for that case, which
/// is not the service's error.
pub proof fn lemma_missing_address_fails(
    h: Handshake,
    status: u16,
    r: ConvertResponse,
    now: u64,
    out: Step,
)
    requires
        h.stage == Stage::Convert || h.stage == Stage::Redirect,
        h.goal == Goal::Info || h.goal == Goal::Mp3,
        is_success(status),
        r.error == 0,
        h.stage == Stage::Convert ==> !r.redirects(),
        r.download_url@.len() == 0,
        advanced(h, Reply::Received { status, body: Body::Convert(r) }, now, out),
    ensures
        out.fails_with(Failure::NoDownloadUrl),
        forall|detail: Seq<char>| !out.fails_with(Failure::Upstream(detail)),
{
}

/// Every request that a handshake sends carries the two fixed headers.
pub proof fn lemma_requests_carry_headers(h: Handshake, reply: Reply, now: u64, out: Step)
    requires
        advanced(h, reply, now, out),
    ensures
        out matches Step::Send(_, request) ==> request.origin@ == ORIGIN@ && request.referer@
            == REFERER@,
{
}

} // verus!
