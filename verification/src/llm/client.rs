//! One call of Ollama's `/api/generate`: what is done next at each point, what is sent, and
//! how the reply is read.
//!
//! The caller performs each [`Step`] and reports what came of it as the next [`Event`].

use super::base64_text::{base64_len, base64_text, encode_base64};
use super::budget::{
    image_token_budget, law_budget_fills_context, law_budget_fits_context, prompt_bytes, prompt_tokens, token_budget,
    MIN_IMAGE_TOKENS, NUM_CTX,
};
use super::json::{get_member, json_member, json_members, json_text, parse_json, parsed_json};
use serde_json::Value;
use vstd::prelude::*;
#[allow(unused_imports)]
use vstd::string::StringExecFns;

verus! {

/// Seconds that sending a request may take.
pub const SEND_TIMEOUT_SECS: u64 = 30;

/// Sampling temperature, in tenths.
pub const TEMPERATURE_TENTHS: u32 = 1;

/// Whether a status says that the request itself is at fault.
pub open spec fn is_client_status(http_status: Option<u16>) -> bool {
    http_status matches Some(status) && 400 <= status <= 499
}

/// What came of a call.
pub struct OllamaResponse {
    pub ok: bool,
    /// The text of the model, or a description of the error.
    pub raw: String,
    /// The member `total_duration` of the reply as the server sent it: a number of
    /// nanoseconds. Where it is missing or no number, the duration counts as zero.
    pub total_duration: Option<Value>,
    /// HTTP status when Ollama answered with an error status (4xx/5xx).
    pub http_status: Option<u16>,
}

impl OllamaResponse {
    /// A failed call with a description of what went wrong.
    pub fn error(msg: String) -> (r: Self)
        ensures
            !r.ok,
            r.raw == msg,
            r.total_duration is None,
            r.http_status is None,
    {
        OllamaResponse { ok: false, raw: msg, total_duration: None, http_status: None }
    }

    /// True when retrying the same request cannot succeed (HTTP 4xx, e.g. "request exceeds the
    /// available context size" or model not found).
    pub fn is_client_error(&self) -> (r: bool)
        ensures
            r == is_client_status(self.http_status),
    {
        match self.http_status {
            Some(status) => 400 <= status && status <= 499,
            None => false,
        }
    }
}

/// What the caller asks for.
pub struct GenerateArgs {
    pub model: String,
    pub prompt: String,
    pub num_predict: u32,
    /// Seconds that receiving the reply may take.
    pub timeout_secs: u64,
    pub json_mode: bool,
}

/// The body of a request, member by member.
pub struct GenerateRequest {
    pub model: String,
    pub prompt: String,
    pub stream: bool,
    pub keep_alive: String,
    /// `options.temperature`, in tenths.
    pub temperature_tenths: u32,
    /// `options.num_predict`.
    pub num_predict: u32,
    /// `options.num_ctx`.
    pub num_ctx: u32,
    /// Left out of the body if it is `None`.
    pub format: Option<String>,
    /// Base64 text of each image; left out of the body if it is `None`.
    pub images: Option<Vec<String>>,
}

/// A request with where it goes and how long it may take. A reply with an error status is a
/// reply like any other: its body is read too.
pub struct GeneratePost {
    pub url: String,
    pub send_timeout_secs: u64,
    pub recv_timeout_secs: u64,
    pub request: GenerateRequest,
}

/// What is done next.
pub enum Step {
    /// Read the image and prepare it under this budget of visual tokens.
    ReadImage { max_tokens: u32 },
    /// Send the request and read the reply.
    Post(GeneratePost),
    /// The call is over.
    Done(OllamaResponse),
}

/// What came of the step before.
pub enum Event {
    Started { has_image: bool },
    ImageReady(Vec<u8>),
    ImageUnreadable(String),
    Replied { status: u16, body: String },
    /// The server answered with a status, but the body could not be read.
    ReplyUnreadable { status: u16, error: String },
    SendFailed(String),
}

/// Whether a request asks for what `args` say, with the image `image`.
pub open spec fn is_request(
    args: GenerateArgs,
    image: Option<Seq<u8>>,
    request: GenerateRequest,
) -> bool {
    &&& request.model@ == args.model@
    &&& request.prompt@ == args.prompt@
    &&& !request.stream
    &&& request.keep_alive@ == "5m"@
    &&& request.temperature_tenths == TEMPERATURE_TENTHS
    &&& request.num_predict == args.num_predict
    &&& request.num_ctx == NUM_CTX
    &&& match request.format {
        Some(format) => args.json_mode && format@ == "json"@,
        None => !args.json_mode,
    }
    &&& match (image, request.images) {
        (Some(bytes), Some(images)) => images@.len() == 1 && images@[0]@ == base64_text(bytes),
        (None, None) => true,
        _ => false,
    }
}

/// Whether a post takes such a request to the server at `base`.
pub open spec fn is_post(
    base: Seq<char>,
    args: GenerateArgs,
    image: Option<Seq<u8>>,
    post: GeneratePost,
) -> bool {
    &&& post.url@ == base + "/api/generate"@
    &&& post.send_timeout_secs == SEND_TIMEOUT_SECS
    &&& post.recv_timeout_secs == args.timeout_secs
    &&& is_request(args, image, post.request)
}

/// The status with which the server answered, if it did.
pub open spec fn answered_status(event: Event) -> Option<u16> {
    match event {
        Event::Replied { status, .. } => Some(status),
        Event::ReplyUnreadable { status, .. } => Some(status),
        _ => None,
    }
}

/// Whether the server answered with the error status `status`.
pub open spec fn is_error_answer(event: Event, status: u16) -> bool {
    answered_status(event) == Some(status) && status >= 400
}

/// What of a status a response carries: an error status (4xx/5xx), and no other.
pub open spec fn reported_status(answered: Option<u16>) -> Option<u16> {
    match answered {
        Some(status) => if status >= 400 {
            Some(status)
        } else {
            None
        },
        None => None,
    }
}

/// Whether a response is a failure that is described as `raw`, of a call that the server
/// answered with the status `answered`, if it answered.
pub open spec fn is_failure(
    raw: Seq<char>,
    answered: Option<u16>,
    response: OllamaResponse,
) -> bool {
    &&& !response.ok
    &&& response.raw@ == raw
    &&& response.total_duration is None
    &&& response.http_status == reported_status(answered)
}

/// A decimal digit.
pub open spec fn digit(d: int) -> char {
    ('0' as int + d) as char
}

/// A number in decimal.
pub open spec fn decimal(n: int) -> Seq<char>
    decreases n,
{
    if n < 10 {
        seq![digit(n)]
    } else {
        decimal(n / 10).push(digit(n % 10))
    }
}

/// The text of a member of a JSON document, if it has that member and it is a string.
pub open spec fn member_text(parsed: Option<Value>, key: Seq<char>) -> Option<Seq<char>> {
    match parsed {
        Some(value) => match json_member(value, key) {
            Some(member) => json_text(member),
            None => None,
        },
        None => None,
    }
}

/// Whether a response reports the error status `status` of a server that explained it with
/// `message`, or with nothing but its body.
pub open spec fn is_status_failure(
    status: u16,
    body: Seq<char>,
    message: Option<Seq<char>>,
    response: OllamaResponse,
) -> bool {
    &&& !response.ok
    &&& response.raw@ == "http_error: "@ + decimal(status as int) + ": "@ + (match message {
        Some(text) => text,
        None => body,
    })
    &&& response.total_duration is None
    &&& response.http_status == Some(status)
}

/// Whether a response reports the reply of the model.
pub open spec fn is_success(
    text: Option<Seq<char>>,
    total_duration: Option<Value>,
    response: OllamaResponse,
) -> bool {
    &&& response.ok
    &&& response.raw@ == (match text {
        Some(text) => text,
        None => Seq::<char>::empty(),
    })
    &&& response.total_duration == total_duration
    &&& response.http_status is None
}

/// Whether a response is what a reply comes to whose body was parsed as `parsed`.
pub open spec fn is_reading(
    status: u16,
    body: Seq<char>,
    parsed: Option<Value>,
    response: OllamaResponse,
) -> bool {
    if status >= 400 {
        is_status_failure(status, body, member_text(parsed, "error"@), response)
    } else {
        is_success(
            member_text(parsed, "response"@),
            match parsed {
                Some(value) => json_member(value, "total_duration"@),
                None => None,
            },
            response,
        )
    }
}

/// Whether `step` is what is done next after `event`.
pub open spec fn follows(base: Seq<char>, args: GenerateArgs, event: Event, step: Step) -> bool {
    match event {
        Event::Started { has_image } => if has_image {
            step matches Step::ReadImage { max_tokens } && max_tokens == token_budget(
                prompt_bytes(args.prompt@),
                args.num_predict as int,
            )
        } else {
            step matches Step::Post(post) && is_post(base, args, None, post)
        },
        Event::ImageReady(bytes) => step matches Step::Post(post) && is_post(
            base,
            args,
            Some(bytes@),
            post,
        ),
        Event::ImageUnreadable(e) => step matches Step::Done(response) && is_failure(
            "image_read_error: "@ + e@,
            None,
            response,
        ),
        Event::Replied { status, body } => step matches Step::Done(response) && is_reading(
            status,
            body@,
            parsed_json(body@),
            response,
        ),
        Event::ReplyUnreadable { status, error } => step matches Step::Done(response)
            && is_failure("read_error: "@ + error@, Some(status), response),
        Event::SendFailed(e) => step matches Step::Done(response) && is_failure(
            "http_error: "@ + e@,
            None,
            response,
        ),
    }
}

/// Two texts, one after the other.
fn joined(first: &str, second: &str) -> (r: String)
    ensures
        r@ == first@ + second@,
{
    let mut text: String = String::from_str(first);
    text.append(second);
    text
}

/// A decimal digit as a text.
fn digit_text(d: u16) -> (r: &'static str)
    requires
        d < 10,
    ensures
        r@ == seq![digit(d as int)],
{
    proof {
        reveal_strlit("0");
        reveal_strlit("1");
        reveal_strlit("2");
        reveal_strlit("3");
        reveal_strlit("4");
        reveal_strlit("5");
        reveal_strlit("6");
        reveal_strlit("7");
        reveal_strlit("8");
        reveal_strlit("9");
    }
    match d {
        0 => "0",
        1 => "1",
        2 => "2",
        3 => "3",
        4 => "4",
        5 => "5",
        6 => "6",
        7 => "7",
        8 => "8",
        _ => "9",
    }
}

/// A number in decimal.
pub fn decimal_text(n: u16) -> (r: String)
    ensures
        r@ == decimal(n as int),
    decreases n,
{
    if n < 10 {
        String::from_str(digit_text(n))
    } else {
        let mut text: String = decimal_text(n / 10);
        text.append(digit_text(n % 10));
        text
    }
}

/// The response to a reply with an error status. The message is what the server gave as the
/// error; without one the body stands for it.
pub fn status_failure(status: u16, body: &str, message: Option<String>) -> (r: OllamaResponse)
    ensures
        is_status_failure(
            status,
            body@,
            match message {
                Some(text) => Some(text@),
                None => None,
            },
            r,
        ),
{
    let mut raw: String = joined("http_error: ", decimal_text(status).as_str());
    raw.append(": ");
    match message {
        Some(text) => raw.append(text.as_str()),
        None => raw.append(body),
    }
    OllamaResponse { ok: false, raw, total_duration: None, http_status: Some(status) }
}

/// The response to a reply of the model. Without a text the response is empty.
pub fn success(text: Option<String>, total_duration: Option<Value>) -> (r: OllamaResponse)
    ensures
        is_success(
            match text {
                Some(text) => Some(text@),
                None => None,
            },
            total_duration,
            r,
        ),
{
    let raw: String = match text {
        Some(text) => text,
        None => String::new(),
    };
    OllamaResponse { ok: true, raw, total_duration, http_status: None }
}

/// A member of a JSON document.
fn get_parsed_member(parsed: &Option<Value>, key: &str) -> (r: Option<Value>)
    ensures
        r == (match *parsed {
            Some(value) => json_member(value, key@),
            None => None,
        }),
{
    match parsed {
        Some(value) => get_member(value, key),
        None => None,
    }
}

/// The text of a member of a JSON document.
fn get_member_text(parsed: &Option<Value>, key: &str) -> (r: Option<String>)
    ensures
        match r {
            Some(text) => member_text(*parsed, key@) == Some(text@),
            None => member_text(*parsed, key@) is None,
        },
{
    match get_parsed_member(parsed, key) {
        Some(member) => match member.as_str() {
            Some(text) => Some(String::from_str(text)),
            None => None,
        },
        None => None,
    }
}

/// Reads a reply whose body was parsed as `parsed`, or could not be parsed.
pub fn read_reply(status: u16, body: &str, parsed: Option<Value>) -> (r: OllamaResponse)
    ensures
        is_reading(status, body@, parsed, r),
{
    if status >= 400 {
        status_failure(status, body, get_member_text(&parsed, "error"))
    } else {
        success(get_member_text(&parsed, "response"), get_parsed_member(&parsed, "total_duration"))
    }
}

/// The response to a reply whose body could not be read. An error status is kept.
pub fn unreadable_reply(status: u16, error: &str) -> (r: OllamaResponse)
    ensures
        is_failure("read_error: "@ + error@, Some(status), r),
{
    let mut response: OllamaResponse = OllamaResponse::error(joined("read_error: ", error));
    if status >= 400 {
        response.http_status = Some(status);
    }
    response
}

/// The request for a call, with the image `image` if there is one.
fn build_request(args: &GenerateArgs, image: Option<&[u8]>) -> (r: GenerateRequest)
    requires
        image matches Some(bytes) ==> base64_len(bytes@.len() as int) <= isize::MAX,
    ensures
        is_request(
            *args,
            match image {
                Some(bytes) => Some(bytes@),
                None => None,
            },
            r,
        ),
{
    let format: Option<String> = if args.json_mode {
        Some(String::from_str("json"))
    } else {
        None
    };
    let images: Option<Vec<String>> = match image {
        Some(bytes) => {
            let mut images: Vec<String> = Vec::new();
            images.push(encode_base64(bytes));
            Some(images)
        },
        None => None,
    };
    GenerateRequest {
        model: args.model.clone(),
        prompt: args.prompt.clone(),
        stream: false,
        keep_alive: String::from_str("5m"),
        temperature_tenths: TEMPERATURE_TENTHS,
        num_predict: args.num_predict,
        num_ctx: NUM_CTX,
        format,
        images,
    }
}

/// The post for a call, with the image `image` if there is one.
fn build_post(base: &str, args: &GenerateArgs, image: Option<&[u8]>) -> (r: GeneratePost)
    requires
        image matches Some(bytes) ==> base64_len(bytes@.len() as int) <= isize::MAX,
    ensures
        is_post(
            base@,
            *args,
            match image {
                Some(bytes) => Some(bytes@),
                None => None,
            },
            r,
        ),
{
    GeneratePost {
        url: joined(base, "/api/generate"),
        send_timeout_secs: SEND_TIMEOUT_SECS,
        recv_timeout_secs: args.timeout_secs,
        request: build_request(args, image),
    }
}

/// What is done next in a call of the server at `base`.
pub fn next_step(base: &str, args: &GenerateArgs, event: Event) -> (r: Step)
    requires
        event matches Event::ImageReady(bytes) ==> base64_len(bytes@.len() as int) <= isize::MAX,
    ensures
        follows(base@, *args, event, r),
{
    match event {
        Event::Started { has_image } => if has_image {
            Step::ReadImage {
                max_tokens: image_token_budget(args.prompt.as_str(), args.num_predict),
            }
        } else {
            Step::Post(build_post(base, args, None))
        },
        Event::ImageReady(bytes) => Step::Post(build_post(base, args, Some(bytes.as_slice()))),
        Event::ImageUnreadable(e) => Step::Done(
            OllamaResponse::error(joined("image_read_error: ", e.as_str())),
        ),
        Event::Replied { status, body } => {
            let parsed: Option<Value> = parse_json(body.as_str());
            Step::Done(read_reply(status, body.as_str(), parsed))
        },
        Event::ReplyUnreadable { status, error } => Step::Done(
            unreadable_reply(status, error.as_str()),
        ),
        Event::SendFailed(e) => Step::Done(
            OllamaResponse::error(joined("http_error: ", e.as_str())),
        ),
    }
}

/// How far a call has come when an event is reported.
pub open spec fn stage(event: Event) -> int {
    match event {
        Event::Started { .. } => 0,
        Event::ImageReady(_) | Event::ImageUnreadable(_) => 1,
        _ => 2,
    }
}

/// Law: a call comes to an end. An image is asked for only at the start, a request is sent at
/// most once and before any reply, and whatever comes of sending it ends the call.
pub proof fn law_call_ends(base: Seq<char>, args: GenerateArgs, event: Event, step: Step)
    requires
        follows(base, args, event, step),
    ensures
        step is ReadImage ==> stage(event) == 0,
        step is Post ==> stage(event) <= 1,
        stage(event) == 2 ==> step is Done,
{
}

/// Law: a call with an image sends nothing until the image is ready, and nothing at all if the
/// image cannot be read.
pub proof fn law_image_comes_first(base: Seq<char>, args: GenerateArgs, event: Event, step: Step)
    requires
        follows(base, args, event, step),
        event matches Event::Started { has_image } && has_image || event is ImageUnreadable,
    ensures
        step !is Post,
{
}

/// Law: a call succeeds if and only if the server replied without an error status and its
/// reply could be read. The response carries a status if and only if the server answered with
/// that status and it is an error status.
pub proof fn law_status_decides(
    base: Seq<char>,
    args: GenerateArgs,
    event: Event,
    response: OllamaResponse,
)
    requires
        follows(base, args, event, Step::Done(response)),
    ensures
        response.ok <==> (event matches Event::Replied { status, .. } && status < 400),
        forall|status: u16|
            response.http_status == Some(status) <==> #[trigger] is_error_answer(event, status),
{
}

/// Law: a response is a client error if and only if the server answered with a 4xx status.
pub proof fn law_client_error_is_4xx(
    base: Seq<char>,
    args: GenerateArgs,
    event: Event,
    response: OllamaResponse,
)
    requires
        follows(base, args, event, Step::Done(response)),
    ensures
        is_client_status(response.http_status) <==> (answered_status(event) matches Some(status)
            && 400 <= status <= 499),
{
}

/// Law: the image that a call asks for fits in the context beside its prompt and reply,
/// wherever the smallest image does.
pub proof fn law_image_fits_context(
    base: Seq<char>,
    args: GenerateArgs,
    event: Event,
    max_tokens: u32,
)
    requires
        follows(base, args, event, Step::ReadImage { max_tokens }),
        MIN_IMAGE_TOKENS + prompt_tokens(prompt_bytes(args.prompt@)) + args.num_predict <= NUM_CTX,
    ensures
        max_tokens + prompt_tokens(prompt_bytes(args.prompt@)) + args.num_predict <= NUM_CTX,
{
    law_budget_fits_context(prompt_bytes(args.prompt@), args.num_predict as int);
}

/// Law: every event has its step. A call starts with its image, if it has one, and else with its
/// request; an image that is ready is sent; everything else ends the call.
pub proof fn law_each_event_has_its_step(
    base: Seq<char>,
    args: GenerateArgs,
    event: Event,
    step: Step,
)
    requires
        follows(base, args, event, step),
    ensures
        step is ReadImage <==> (event matches Event::Started { has_image } && has_image),
        step is Post <==> (event matches Event::Started { has_image } && !has_image)
            || event is ImageReady,
        step is Done <==> !(event is Started) && !(event is ImageReady),
{
}

/// Law: every request asks for what the call asks for, whatever image goes with it: the model,
/// the prompt and the length of the reply are those of the call, and JSON is asked for if and
/// only if the call does. The image is all that an image adds, and there is one if and only if
/// it was made ready.
pub proof fn law_request_carries_call(
    base: Seq<char>,
    args: GenerateArgs,
    event: Event,
    post: GeneratePost,
)
    requires
        follows(base, args, event, Step::Post(post)),
    ensures
        post.request.model@ == args.model@,
        post.request.prompt@ == args.prompt@,
        post.request.num_predict == args.num_predict,
        post.request.format is Some <==> args.json_mode,
        post.request.format matches Some(format) ==> format@ == "json"@,
        event matches Event::ImageReady(bytes) ==> (post.request.images matches Some(images)
            && images@.len() == 1 && images@[0]@ == base64_text(bytes@)),
        !(event is ImageReady) ==> post.request.images is None,
{
}

/// Law: every request goes to the same place under the same conditions: to `/api/generate` at
/// the server, with 30 seconds to send it and the time of the call to receive the reply, not
/// streamed, with the model kept for five minutes, a temperature of 0.1 and a context of 4096
/// tokens.
pub proof fn law_request_conditions(
    base: Seq<char>,
    args: GenerateArgs,
    event: Event,
    post: GeneratePost,
)
    requires
        follows(base, args, event, Step::Post(post)),
    ensures
        post.url@ == base + "/api/generate"@,
        post.send_timeout_secs == 30,
        post.recv_timeout_secs == args.timeout_secs,
        !post.request.stream,
        post.request.keep_alive@ == "5m"@,
        post.request.temperature_tenths == 1,
        post.request.num_ctx == 4096,
{
}

/// Law: the image is asked for within what a context of 4096 tokens leaves beside the prompt of
/// the call, its template of 64 tokens, the reply and a margin of 256 tokens. The budget is less
/// only at the target of 1000, and more only at the minimum of 64.
pub proof fn law_image_budget_of_call(
    base: Seq<char>,
    args: GenerateArgs,
    event: Event,
    max_tokens: u32,
    tokens: int,
)
    requires
        follows(base, args, event, Step::ReadImage { max_tokens }),
        3 * (tokens - 1) < vstd::utf8::encode_utf8(args.prompt@).len() <= 3 * tokens,
    ensures
        64 <= max_tokens <= 1000,
        max_tokens + tokens + 64 + 256 + args.num_predict < 4096 ==> max_tokens == 1000,
        max_tokens + tokens + 64 + 256 + args.num_predict > 4096 ==> max_tokens == 64,
{
    law_budget_fills_context(args.prompt@, args.num_predict as int, tokens);
}

/// Law: a failure says in its text where the call failed and why. It has no duration, and a
/// status only where the server answered with an error status.
pub proof fn law_failure_is_described(
    base: Seq<char>,
    args: GenerateArgs,
    event: Event,
    response: OllamaResponse,
)
    requires
        follows(base, args, event, Step::Done(response)),
        !(event is Replied),
    ensures
        !response.ok,
        response.total_duration is None,
        event matches Event::ImageUnreadable(e) ==> response.raw@ == "image_read_error: "@ + e@
            && response.http_status is None,
        event matches Event::SendFailed(e) ==> response.raw@ == "http_error: "@ + e@
            && response.http_status is None,
        event matches Event::ReplyUnreadable { status, error } ==> response.raw@
            == "read_error: "@ + error@,
        event matches Event::ReplyUnreadable { status, error } ==> (if status >= 400 {
            response.http_status == Some(status)
        } else {
            response.http_status is None
        }),
{
}

/// Law: an unreadable reply is described by the error, and keeps its status if and only if that
/// is an error status.
pub proof fn law_unreadable_reply(error: Seq<char>, status: u16, response: OllamaResponse)
    requires
        is_failure("read_error: "@ + error, Some(status), response),
    ensures
        !response.ok,
        response.raw@ == "read_error: "@ + error,
        response.total_duration is None,
        status >= 400 ==> response.http_status == Some(status),
        status < 400 ==> response.http_status is None,
{
}

/// Law: an error status is reported with its number and the message that explains it, and with
/// the body where nothing does.
pub proof fn law_status_failure_is_described(
    status: u16,
    body: Seq<char>,
    message: Option<Seq<char>>,
    response: OllamaResponse,
)
    requires
        is_status_failure(status, body, message, response),
    ensures
        !response.ok,
        response.http_status == Some(status),
        response.total_duration is None,
        message matches Some(text) ==> response.raw@ == "http_error: "@ + decimal(status as int)
            + ": "@ + text,
        message is None ==> response.raw@ == "http_error: "@ + decimal(status as int) + ": "@
            + body,
{
}

/// Law: a reply of the model is handed on as it is, and is empty where there is none.
pub proof fn law_success_hands_on(
    text: Option<Seq<char>>,
    total_duration: Option<Value>,
    response: OllamaResponse,
)
    requires
        is_success(text, total_duration, response),
    ensures
        response.ok,
        response.http_status is None,
        response.total_duration == total_duration,
        text matches Some(text) ==> response.raw@ == text,
        text is None ==> response.raw@.len() == 0,
{
}

/// Law: a member that is a string is read from an object that has it, and from nothing else.
pub proof fn law_member_text_is_read(parsed: Option<Value>, key: Seq<char>, text: Seq<char>)
    ensures
        member_text(parsed, key) == Some(text) <==> (parsed matches Some(value) && json_members(
            value,
        ) matches Some(members) && members.contains_key(key) && json_text(members[key])
            == Some(text)),
{
}

/// Law: a reply with an error status gives the member `error` of its body as the message, if the
/// body is an object that has it as a string, and else the body itself.
pub proof fn law_error_reply(
    status: u16,
    body: Seq<char>,
    parsed: Option<Value>,
    response: OllamaResponse,
)
    requires
        is_reading(status, body, parsed, response),
        status >= 400,
    ensures
        !response.ok,
        response.http_status == Some(status),
        response.total_duration is None,
        ({
            let head = "http_error: "@ + decimal(status as int) + ": "@;
            match parsed {
                Some(value) => match json_members(value) {
                    Some(members) => if members.contains_key("error"@) && json_text(
                        members["error"@],
                    ) is Some {
                        response.raw@ == head + json_text(members["error"@])->0
                    } else {
                        response.raw@ == head + body
                    },
                    None => response.raw@ == head + body,
                },
                None => response.raw@ == head + body,
            }
        }),
{
}

/// Law: a reply without an error status gives the member `response` of its body as the text, if
/// the body is an object that has it as a string, and else no text; the member `total_duration`
/// is handed on as it is.
pub proof fn law_model_reply(
    status: u16,
    body: Seq<char>,
    parsed: Option<Value>,
    response: OllamaResponse,
)
    requires
        is_reading(status, body, parsed, response),
        status < 400,
    ensures
        response.ok,
        response.http_status is None,
        match parsed {
            Some(value) => match json_members(value) {
                Some(members) => {
                    &&& response.raw@ == (if members.contains_key("response"@) && json_text(
                        members["response"@],
                    ) is Some {
                        json_text(members["response"@])->0
                    } else {
                        Seq::<char>::empty()
                    })
                    &&& response.total_duration == (if members.contains_key("total_duration"@) {
                        Some(members["total_duration"@])
                    } else {
                        None
                    })
                },
                None => response.raw@.len() == 0 && response.total_duration is None,
            },
            None => response.raw@.len() == 0 && response.total_duration is None,
        },
{
}

/// Law: a reply is read from what the parser makes of its whole body.
pub proof fn law_reply_is_parsed(
    base: Seq<char>,
    args: GenerateArgs,
    status: u16,
    body: String,
    response: OllamaResponse,
)
    requires
        follows(base, args, Event::Replied { status, body }, Step::Done(response)),
    ensures
        is_reading(status, body@, parsed_json(body@), response),
        status < 400 ==> response.ok,
        status < 400 && parsed_json(body@) is None ==> response.raw@.len() == 0,
        status >= 400 && parsed_json(body@) is None ==> response.raw@ == "http_error: "@
            + decimal(status as int) + ": "@ + body@,
        ({
            let members = json_members(parsed_json(body@)->0);
            parsed_json(body@) is Some && members is Some ==> {
                &&& status < 400 && members->0.contains_key("response"@) && json_text(
                    members->0["response"@],
                ) is Some ==> response.raw@ == json_text(members->0["response"@])->0
                &&& status < 400 && members->0.contains_key("total_duration"@)
                    ==> response.total_duration == Some(members->0["total_duration"@])
                &&& status >= 400 && members->0.contains_key("error"@) && json_text(
                    members->0["error"@],
                ) is Some ==> response.raw@ == "http_error: "@ + decimal(status as int) + ": "@
                    + json_text(members->0["error"@])->0
            }
        }),
{
}

/// Law: a status is a client error if and only if it is from 400 to 499.
pub proof fn law_client_status(status: u16)
    ensures
        is_client_status(Some(status)) <==> 400 <= status <= 499,
        !is_client_status(None),
{
}

/// The number that a text of decimal digits denotes.
pub open spec fn decimal_value(s: Seq<char>) -> int
    decreases s.len(),
{
    if s.len() == 0 {
        0
    } else {
        10 * decimal_value(s.drop_last()) + (s.last() as int - '0' as int)
    }
}

/// Law: a number in decimal reads back as the number. It consists of digits, and starts with a
/// zero only if it is a single digit.
pub proof fn law_decimal_reads_back(n: int)
    requires
        0 <= n,
    ensures
        decimal(n).len() >= 1,
        decimal_value(decimal(n)) == n,
        forall|i: int| 0 <= i < decimal(n).len() ==> '0' <= #[trigger] decimal(n)[i] <= '9',
        decimal(n)[0] == '0' ==> decimal(n).len() == 1,
    decreases n,
{
    if n < 10 {
        let text = decimal(n);
        assert(text.drop_last() =~= Seq::<char>::empty());
        assert(decimal_value(text.drop_last()) == 0);
    } else {
        let (front, last) = (decimal(n / 10), digit(n % 10));
        law_decimal_reads_back(n / 10);
        assert(decimal(n).drop_last() =~= front);
        assert(decimal(n)[0] == front[0]);
        if front[0] == '0' {
            assert(front.drop_last() =~= Seq::<char>::empty());
            assert(decimal_value(front.drop_last()) == 0);
            assert(front.last() == '0');
        }
    }
}

/// Law: a status of three digits is written as these.
pub proof fn law_status_has_three_digits(status: u16)
    requires
        100 <= status <= 999,
    ensures
        ({
            let text = decimal(status as int);
            &&& text.len() == 3
            &&& text[0] as int == 48 + status / 100
            &&& text[1] as int == 48 + status / 10 % 10
            &&& text[2] as int == 48 + status % 10
        }),
{
    reveal_with_fuel(decimal, 3);
}

} // verus!
