//! The captioning service: what is sent to it, and what name is read from
//! its reply.

use vstd::prelude::*;
use crate::json::{
    item_of, json_parse, json_text, member_of, parse, render, text_of_value, Json, JsonValue,
    Member, MemberValue,
};
use crate::text::{followed_by, trim, trimmed_text};

verus! {

/// Where a chat completion is asked for.
pub const ENDPOINT: &'static str = "https://api.openai.com/v1/chat/completions";

/// The content type of the request.
pub const CONTENT_TYPE: &'static str = "application/json";

/// What the service is told to be.
pub const SYSTEM_INSTRUCTION: &'static str =
    "You are a filename generation bot. You must return only a filename based on the attached image. No explanations.\n                         No descriptions. No punctuation. No quotes. No code blocks. Just a lowercase hyphenated filename of 3 to 8 words in plain text.";

/// The name that stands in for a reply without the expected shape.
pub const FALLBACK_NAME: &'static str = "unknown-name";

/// The base64 text of `bytes` in the standard alphabet, with padding, as
/// `base64::encode` gives it.
pub uninterp spec fn base64_text(bytes: Seq<u8>) -> Seq<char>;

/// Whether an image of `len` bytes has a base64 text that a `usize` can
/// count: four characters for each three bytes begun.
pub open spec fn encodable(len: nat) -> bool {
    (len / 3) * 4 + 4 <= usize::MAX
}

/// Calls `base64::encode`. Trusted: the result is the text that
/// [`base64_text`] names. The encoder panics where it cannot count the
/// characters it is to write, so such lengths are left out.
#[verifier::external_body]
pub(crate) fn encode_image(bytes: &[u8]) -> (text: String)
    requires
        encodable(bytes@.len()),
    ensures
        text@ == base64_text(bytes@),
{
    #[allow(deprecated)]
    base64::encode(bytes)
}

/// The credentials, the prompt and the model that a caption is asked with.
#[derive(Debug, Clone)]
pub struct OpenAI {
    api_key: String,
    prompt: String,
    model: String,
}

/// What an [`OpenAI`] holds.
pub struct OpenAIView {
    pub api_key: Seq<char>,
    pub prompt: Seq<char>,
    pub model: Seq<char>,
}

impl View for OpenAI {
    type V = OpenAIView;

    closed spec fn view(&self) -> OpenAIView {
        OpenAIView { api_key: self.api_key@, prompt: self.prompt@, model: self.model@ }
    }
}

/// One request to the captioning service, ready to be sent.
pub struct CaptionRequest {
    pub url: String,
    pub authorization: String,
    pub content_type: String,
    pub body: String,
}

/// What came back from the captioning service.
pub struct CaptionReply {
    pub status: u16,
    pub body: String,
}

/// Why no caption was had.
#[derive(Debug, Clone)]
pub enum CaptionError {
    /// The image could not be read.
    Unreadable { message: String },
    /// The request did not reach the service, or no reply came back.
    Transport { message: String },
    /// The service answered with a status that does not mean success.
    Status { status: u16 },
    /// The reply is no JSON document.
    Malformed,
}

/// An object member with key `key`.
pub open spec fn member_value(key: Seq<char>, value: JsonValue) -> MemberValue {
    MemberValue { key, value }
}

/// The data URL that embeds the base64 text `encoded` of an image.
pub open spec fn data_url(encoded: Seq<char>) -> Seq<char> {
    "data:image/png;base64,"@ + encoded
}

/// The document that asks `model` for a name of the image `encoded`: the
/// fixed system instruction, then the prompt and the image at low detail.
pub open spec fn payload_value(model: Seq<char>, prompt: Seq<char>, encoded: Seq<char>) -> JsonValue {
    let image = JsonValue::Object(
        seq![
            member_value("url"@, JsonValue::Text(data_url(encoded))),
            member_value("detail"@, JsonValue::Text("low"@)),
        ],
    );
    let system = JsonValue::Object(
        seq![
            member_value("role"@, JsonValue::Text("system"@)),
            member_value("content"@, JsonValue::Text(SYSTEM_INSTRUCTION@)),
        ],
    );
    let user = JsonValue::Object(
        seq![
            member_value("role"@, JsonValue::Text("user"@)),
            member_value(
                "content"@,
                JsonValue::List(
                    seq![
                        JsonValue::Object(
                            seq![
                                member_value("type"@, JsonValue::Text("text"@)),
                                member_value("text"@, JsonValue::Text(prompt)),
                            ],
                        ),
                        JsonValue::Object(
                            seq![
                                member_value("type"@, JsonValue::Text("image_url"@)),
                                member_value("image_url"@, image),
                            ],
                        ),
                    ],
                ),
            ),
        ],
    );
    JsonValue::Object(
        seq![
            member_value("model"@, JsonValue::Text(model)),
            member_value("messages"@, JsonValue::List(seq![system, user])),
        ],
    )
}

/// The content of the first choice's message in `reply`, if the reply has
/// that shape and the content is text.
pub open spec fn reply_content(reply: JsonValue) -> Option<Seq<char>> {
    match member_of(reply, "choices"@) {
        Some(choices) => match item_of(choices, 0) {
            Some(first) => match member_of(first, "message"@) {
                Some(message) => match member_of(message, "content"@) {
                    Some(content) => text_of_value(content),
                    None => None,
                },
                None => None,
            },
            None => None,
        },
        None => None,
    }
}

/// The name that `reply` gives: the content of its first choice, or the
/// fallback name where it has none, without white space around it.
pub open spec fn reply_name(reply: JsonValue) -> Seq<char> {
    match reply_content(reply) {
        Some(content) => trim(content),
        None => trim(FALLBACK_NAME@),
    }
}

/// Whether `status` is one of the 2xx codes.
pub open spec fn is_success(status: u16) -> bool {
    200 <= status < 300
}

/// A member of an object under construction.
fn member(key: &str, value: Json) -> (m: Member)
    ensures
        m.key@ == key@,
        m.value == value,
{
    Member { key: key.to_owned(), value }
}

/// The object with the two members given.
fn pair(first: Member, second: Member) -> (doc: Json)
    ensures
        doc@ == JsonValue::Object(
            seq![member_value(first.key@, first.value@), member_value(second.key@, second.value@)],
        ),
{
    let mut members: Vec<Member> = Vec::new();
    members.push(first);
    members.push(second);
    let doc = Json::object(members);
    assert(doc@->Object_0 =~= seq![
        member_value(first.key@, first.value@),
        member_value(second.key@, second.value@),
    ]);
    doc
}

/// The list of the two documents given.
fn couple(first: Json, second: Json) -> (doc: Json)
    ensures
        doc@ == JsonValue::List(seq![first@, second@]),
{
    let mut items: Vec<Json> = Vec::new();
    items.push(first);
    items.push(second);
    let doc = Json::list(items);
    assert(doc@->List_0 =~= seq![first@, second@]);
    doc
}

impl OpenAI {
    /// A provider that asks `model` with `prompt`, authorised by `api_key`.
    pub fn new(api_key: String, prompt: String, model: String) -> (ai: Self)
        ensures
            ai@ == (OpenAIView { api_key: api_key@, prompt: prompt@, model: model@ }),
    {
        Self { api_key, prompt, model }
    }

    /// The value of the authorization header: the bearer scheme and the key.
    pub fn authorization(&self) -> (value: String)
        ensures
            value@ == "Bearer "@ + self@.api_key,
    {
        followed_by("Bearer ", self.api_key.as_str())
    }

    /// The document that asks for a name of the image whose base64 text is
    /// `encoded`.
    pub fn payload(&self, encoded: &str) -> (doc: Json)
        ensures
            doc@ == payload_value(self@.model, self@.prompt, encoded@),
    {
        let url = followed_by("data:image/png;base64,", encoded);
        let image = pair(member("url", Json::text(url.as_str())), member("detail", Json::text("low")));
        let system = pair(
            member("role", Json::text("system")),
            member("content", Json::text(SYSTEM_INSTRUCTION)),
        );
        let text_part = pair(
            member("type", Json::text("text")),
            member("text", Json::text(self.prompt.as_str())),
        );
        let image_part = pair(member("type", Json::text("image_url")), member("image_url", image));
        let user = pair(
            member("role", Json::text("user")),
            member("content", couple(text_part, image_part)),
        );
        pair(
            member("model", Json::text(self.model.as_str())),
            member("messages", couple(system, user)),
        )
    }

    /// The request that asks for a name of `image`: its bytes in base64
    /// inside the payload, written as JSON, for the chat endpoint.
    pub fn make_ai_request(&self, image: &[u8]) -> (request: CaptionRequest)
        requires
            encodable(image@.len()),
        ensures
            request.url@ == ENDPOINT@,
            request.authorization@ == "Bearer "@ + self@.api_key,
            request.content_type@ == CONTENT_TYPE@,
            request.body@ == json_text(
                payload_value(self@.model, self@.prompt, base64_text(image@)),
            ),
    {
        let encoded = encode_image(image);
        let doc = self.payload(encoded.as_str());
        CaptionRequest {
            url: ENDPOINT.to_owned(),
            authorization: self.authorization(),
            content_type: CONTENT_TYPE.to_owned(),
            body: render(&doc),
        }
    }

    /// The name that the reply document `reply` gives.
    pub fn reply_name(reply: &Json) -> (name: String)
        ensures
            name@ == reply_name(reply@),
    {
        let content = match reply.member("choices") {
            Some(choices) => match choices.item(0) {
                Some(first) => match first.member("message") {
                    Some(message) => match message.member("content") {
                        Some(content) => content.as_text(),
                        None => None,
                    },
                    None => None,
                },
                None => None,
            },
            None => None,
        };
        match content {
            Some(text) => trimmed_text(text.as_str()),
            None => trimmed_text(FALLBACK_NAME),
        }
    }

    /// The name that the service's reply gives. A status outside 2xx and a
    /// body that is no JSON document are errors; a document of another
    /// shape than a chat completion gives the fallback name.
    pub fn get_name(&self, reply: &CaptionReply) -> (name: Result<String, CaptionError>)
        ensures
            match name {
                Ok(n) => is_success(reply.status) && json_parse(reply.body@) is Some && n@
                    == reply_name(json_parse(reply.body@)->0),
                Err(CaptionError::Status { status }) => !is_success(reply.status) && status
                    == reply.status,
                Err(CaptionError::Malformed) => is_success(reply.status) && json_parse(
                    reply.body@,
                ) is None,
                Err(_) => false,
            },
    {
        if reply.status < 200 || reply.status >= 300 {
            return Err(CaptionError::Status { status: reply.status });
        }
        match parse(reply.body.as_str()) {
            Ok(doc) => Ok(Self::reply_name(&doc)),
            Err(_) => Err(CaptionError::Malformed),
        }
    }
}

} // verus!
