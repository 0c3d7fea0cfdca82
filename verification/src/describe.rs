//! The description client: what is sent to the vision model, and how its
//! reply is read.
//!
//! The HTTP exchange and the JSON decoding are the caller's. The caller hands
//! in the status code, the body and the decoded reply; the functions here
//! decide what they mean.

use vstd::prelude::*;
use vstd::string::*;
use crate::encoding::{base64_text, encodable_len, encode_standard};

verus! {

/// The error object of a reply.
#[derive(Debug, Clone, PartialEq, Eq)]
pub struct ApiError {
    pub message: String,
    pub error_type: String,
}

/// The message of one choice.
#[derive(Debug, Clone, PartialEq, Eq)]
pub struct Message {
    pub content: String,
}

/// One choice of a reply.
#[derive(Debug, Clone, PartialEq, Eq)]
pub struct Choice {
    pub message: Message,
}

/// A decoded reply: both parts are optional on the wire.
#[derive(Debug, Clone, PartialEq, Eq)]
pub struct ApiResponse {
    pub choices: Option<Vec<Choice>>,
    pub error: Option<ApiError>,
}

/// Why no description was obtained.
#[derive(Debug, Clone, PartialEq, Eq)]
pub enum DescribeError {
    /// The HTTP exchange itself failed; `report` is the client's account of it.
    Transport { report: String },
    /// The API answered with a non-success status; `body` is what it sent.
    Rejected { body: String },
    /// The reply carried an error object.
    Remote { message: String, error_type: String },
    /// The body could not be decoded; `report` is the decoder's account of it.
    Malformed { report: String },
    /// The reply was well formed but held no choice.
    NoDescription,
}

/// A `DescribeError` with its texts as sequences.
pub enum DescribeFault {
    Transport { report: Seq<char> },
    Rejected { body: Seq<char> },
    Remote { message: Seq<char>, error_type: Seq<char> },
    Malformed { report: Seq<char> },
    NoDescription,
}

impl View for DescribeError {
    type V = DescribeFault;

    open spec fn view(&self) -> DescribeFault {
        match *self {
            DescribeError::Transport { report } => DescribeFault::Transport { report: report@ },
            DescribeError::Rejected { body } => DescribeFault::Rejected { body: body@ },
            DescribeError::Remote { message, error_type } => DescribeFault::Remote {
                message: message@,
                error_type: error_type@,
            },
            DescribeError::Malformed { report } => DescribeFault::Malformed { report: report@ },
            DescribeError::NoDescription => DescribeFault::NoDescription,
        }
    }
}

/// The outcome of a step of the client, with its texts as sequences.
pub open spec fn outcome_view(r: Result<String, DescribeError>) -> Result<Seq<char>, DescribeFault> {
    match r {
        Ok(text) => Ok(text@),
        Err(e) => Err(e@),
    }
}

/// The text with which a fault is reported.
pub open spec fn fault_text(fault: DescribeFault) -> Seq<char> {
    match fault {
        DescribeFault::Transport { report } => report,
        DescribeFault::Rejected { body } => "OpenAI API error: "@ + body,
        DescribeFault::Remote { message, error_type } => "OpenAI API error: "@ + message + " ("@
            + error_type + ")"@,
        DescribeFault::Malformed { report } => report,
        DescribeFault::NoDescription => "No description found in OpenAI response"@,
    }
}

impl DescribeError {
    /// The text with which the error is reported.
    pub fn message(&self) -> (text: String)
        ensures
            text@ == fault_text(self@),
    {
        match self {
            DescribeError::Transport { report } => report.clone(),
            DescribeError::Rejected { body } => {
                let mut text = String::from_str("OpenAI API error: ");
                text.append(body.as_str());
                text
            },
            DescribeError::Remote { message, error_type } => {
                let mut text = String::from_str("OpenAI API error: ");
                text.append(message.as_str());
                text.append(" (");
                text.append(error_type.as_str());
                text.append(")");
                text
            },
            DescribeError::Malformed { report } => report.clone(),
            DescribeError::NoDescription => String::from_str(
                "No description found in OpenAI response",
            ),
        }
    }
}

/// Whether an HTTP status code reports success: the codes from 200 to 299.
pub open spec fn status_is_success(status: u16) -> bool {
    200 <= status < 300
}

/// What a reply with the given status and body means before it is decoded.
pub open spec fn reply_outcome(status: u16, body: Seq<char>) -> Result<Seq<char>, DescribeFault> {
    if status_is_success(status) {
        Ok(body)
    } else {
        Err(DescribeFault::Rejected { body })
    }
}

/// Admits the body of a reply for decoding when the status reports success,
/// and rejects the reply with its body otherwise.
pub fn accept_reply(status: u16, body: String) -> (r: Result<String, DescribeError>)
    ensures
        outcome_view(r) == reply_outcome(status, body@),
{
    if 200 <= status && status < 300 {
        Ok(body)
    } else {
        Err(DescribeError::Rejected { body })
    }
}

/// A decoded reply with its texts as sequences: the content of each choice,
/// and the message and type of the error object.
pub struct ApiResponseView {
    pub choices: Option<Seq<Seq<char>>>,
    pub error: Option<(Seq<char>, Seq<char>)>,
}

impl View for ApiResponse {
    type V = ApiResponseView;

    open spec fn view(&self) -> ApiResponseView {
        ApiResponseView {
            choices: match self.choices {
                Some(list) => Some(list@.map_values(|c: Choice| c.message.content@)),
                None => None,
            },
            error: match self.error {
                Some(e) => Some((e.message@, e.error_type@)),
                None => None,
            },
        }
    }
}

/// What a decoded reply means: an error object wins over everything else,
/// then the first choice gives the description, and a reply without a choice
/// gives none.
pub open spec fn description_of(reply: ApiResponseView) -> Result<Seq<char>, DescribeFault> {
    match reply.error {
        Some((message, error_type)) => Err(DescribeFault::Remote { message, error_type }),
        None => match reply.choices {
            Some(contents) => if contents.len() > 0 {
                Ok(contents[0])
            } else {
                Err(DescribeFault::NoDescription)
            },
            None => Err(DescribeFault::NoDescription),
        },
    }
}

/// Reads the description out of a decoded reply.
pub fn extract_description(reply: &ApiResponse) -> (r: Result<String, DescribeError>)
    ensures
        outcome_view(r) == description_of(reply@),
{
    match &reply.error {
        Some(e) => Err(
            DescribeError::Remote {
                message: e.message.clone(),
                error_type: e.error_type.clone(),
            },
        ),
        None => match &reply.choices {
            Some(list) => {
                if list.len() > 0 {
                    Ok(list[0].message.content.clone())
                } else {
                    Err(DescribeError::NoDescription)
                }
            },
            None => Err(DescribeError::NoDescription),
        },
    }
}

/// Where the model is reached when no endpoint is configured.
pub const DEFAULT_ENDPOINT: &'static str = "https://api.openai.com/v1/chat/completions";

/// The model that is asked when none is configured.
pub const DEFAULT_MODEL: &'static str = "gpt-4-vision-preview";

/// The question that accompanies an image when none is configured.
pub const DEFAULT_PROMPT: &'static str =
    "Describe this image of user screen, and try to describe what the user is doing.";

/// The limit on the length of a description that every request carries.
pub const MAX_TOKENS: u32 = 1024;

/// What the client needs to know to reach the model.
#[derive(Debug, Clone, PartialEq, Eq)]
pub struct ApiSettings {
    pub endpoint: String,
    pub api_key: String,
    pub model: String,
    pub prompt: String,
}

/// One request to the model, as plain values: where it goes, the value of
/// its `Authorization` header, and what its chat-completion body holds.
#[derive(Debug, Clone, PartialEq, Eq)]
pub struct ChatRequest {
    pub endpoint: String,
    pub authorization: String,
    pub model: String,
    pub prompt: String,
    pub image_url: String,
    pub max_tokens: u32,
}

/// The value of the `Authorization` header for a credential.
pub open spec fn bearer(api_key: Seq<char>) -> Seq<char> {
    "Bearer "@ + api_key
}

/// The data URI under which a PNG image travels inside a request.
pub open spec fn png_data_uri(image: Seq<u8>) -> Seq<char> {
    "data:image/png;base64,"@ + base64_text(image)
}

/// The question to put to the model: the configured one, or the default.
pub fn get_ai_vision_prompt(custom: Option<String>) -> (prompt: String)
    ensures
        prompt@ == (match custom {
            Some(text) => text@,
            None => DEFAULT_PROMPT@,
        }),
{
    match custom {
        Some(text) => text,
        None => String::from_str(DEFAULT_PROMPT),
    }
}

/// Whether an image of `len` bytes can be encoded on this machine.
pub fn can_encode(len: usize) -> (ok: bool)
    ensures
        ok == encodable_len(len as nat),
{
    len / 3 < usize::MAX / 4
        || (len / 3 == usize::MAX / 4 && len % 3 == 0)
}

/// Builds the request that asks the model to describe `image`.
pub fn build_request(settings: &ApiSettings, image: &[u8]) -> (request: ChatRequest)
    requires
        encodable_len(image@.len()),
    ensures
        request.endpoint@ == settings.endpoint@,
        request.authorization@ == bearer(settings.api_key@),
        request.model@ == settings.model@,
        request.prompt@ == settings.prompt@,
        request.image_url@ == png_data_uri(image@),
        request.max_tokens == MAX_TOKENS,
{
    let mut authorization = String::from_str("Bearer ");
    authorization.append(settings.api_key.as_str());
    let encoded = encode_standard(image);
    let mut image_url = String::from_str("data:image/png;base64,");
    image_url.append(encoded.as_str());
    ChatRequest {
        endpoint: settings.endpoint.clone(),
        authorization,
        model: settings.model.clone(),
        prompt: settings.prompt.clone(),
        image_url,
        max_tokens: MAX_TOKENS,
    }
}

/// A reply whose first choice holds `content`, and which carries no error
/// object, gives exactly `content`, whatever choices follow.
pub proof fn lemma_first_choice_is_description(content: Seq<char>, others: Seq<Seq<char>>)
    ensures
        description_of(
            ApiResponseView { choices: Some(seq![content] + others), error: None },
        ) == Ok::<Seq<char>, DescribeFault>(content),
{
}

/// A reply that carries an error object gives no description, whatever its
/// choices hold. The fault keeps the object's message and type, and its text
/// shows both.
pub proof fn lemma_error_object_is_surfaced(
    message: Seq<char>,
    error_type: Seq<char>,
    choices: Option<Seq<Seq<char>>>,
)
    ensures
        description_of(ApiResponseView { choices, error: Some((message, error_type)) }) == Err::<
            Seq<char>,
            DescribeFault,
        >(DescribeFault::Remote { message, error_type }),
        fault_text(DescribeFault::Remote { message, error_type }) == "OpenAI API error: "@
            + message + " ("@ + error_type + ")"@,
{
}

} // verus!
