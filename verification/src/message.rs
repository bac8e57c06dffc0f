//! Chat messages and their conversion to the upstream chat request format:
//! attachments checked against the upstream size limit and filtered by what
//! the target model accepts, reasoning details kept only for the model that
//! wrote them, and generated images read back from their data URLs.

use vstd::prelude::*;
use crate::json::JsonValue;
use crate::text::{has_prefix, first_index_of, strip_prefix, split_once_char};

verus! {

/// The largest attachment the upstream accepts: 20 MiB.
pub const UPSTREAM_ATTACHMENT_MAX_BYTES: usize = 20971520;

/// How a model reads documents.
pub enum OcrEngine {
    Native,
    Disabled,
}

/// What a model can take and give.
pub struct Capability {
    pub text_output: bool,
    pub image_output: bool,
    pub image_input: bool,
    pub structured_output: bool,
    pub toolcall: bool,
    pub ocr: OcrEngine,
    pub audio: bool,
    pub reasoning: bool,
}

/// The kind of a part of a multi-part upstream message.
#[derive(Debug, Clone)]
pub enum MultiPartMessageType {
    Text,
    ImageUrl,
    InputAudio,
    File,
}

/// A part of a multi-part upstream message: its kind and its content (the
/// text, or the encoded payload of an image, audio clip or document).
#[derive(Debug, Clone)]
pub struct MessagePart {
    pub part_type: MultiPartMessageType,
    pub content: String,
}

impl MessagePart {
    /// A text part.
    pub fn text(content: String) -> (r: MessagePart)
        ensures
            r.part_type is Text,
            r.content == content,
    {
        MessagePart { part_type: MultiPartMessageType::Text, content }
    }
}

/// An attachment: its name, its bytes, and the upstream parts its content
/// is sent as.
#[derive(Debug, Clone)]
pub struct File {
    pub name: String,
    pub data: Vec<u8>,
    pub parts: Vec<MessagePart>,
}

/// A generated image that has not been stored yet.
pub struct GeneratedImage {
    pub data: Vec<u8>,
    pub mime_type: String,
}

/// A tool call that the assistant made.
#[derive(Debug, Clone)]
pub struct MessageToolCall {
    pub id: String,
    pub name: String,
    pub arguments: String,
}

/// What a tool answered to a call.
#[derive(Debug, Clone)]
pub struct MessageToolResult {
    pub id: String,
    pub content: String,
}

/// A message of a chat.
#[derive(Debug)]
pub enum Message {
    System(String),
    User(String),
    Assistant {
        content: String,
        annotations: Option<JsonValue>,
        reasoning_details: Option<JsonValue>,
        files: Vec<File>,
    },
    MultipartUser {
        text: String,
        files: Vec<File>,
    },
    ToolCall(MessageToolCall),
    ToolResult(MessageToolResult),
}

/// Who speaks in an upstream message.
pub enum Role {
    System,
    User,
    Assistant,
    Tool,
}

/// The function of an upstream tool call.
pub struct ToolFunctionResp {
    pub name: Option<String>,
    pub arguments: Option<String>,
}

/// An upstream tool call; its type is always `function`.
pub struct ToolCallReq {
    pub id: String,
    pub function: ToolFunctionResp,
    pub call_type: String,
}

/// A message in the upstream chat request format.
pub struct RawMessage {
    pub role: Role,
    pub content: Option<String>,
    pub contents: Option<Vec<MessagePart>>,
    pub annotations: Option<JsonValue>,
    pub reasoning_details: Vec<JsonValue>,
    pub tool_calls: Option<Vec<ToolCallReq>>,
    pub tool_call_id: Option<String>,
}

/// An upstream image: the URL it is given at.
pub struct ImageUrl {
    pub url: String,
}

/// An image as the upstream returns it.
pub struct RawImage {
    pub image_url: ImageUrl,
}

/// Why a message or image cannot be converted.
pub enum IncompatibleReason {
    AttachmentTooLarge,
    MissingDataPrefix,
    MissingMimeType,
    MissingBase64Prefix,
    Base64DecodeFailed,
}

impl IncompatibleReason {
    /// The text of the reason.
    pub fn message(&self) -> (r: &'static str)
        ensures
            r@ == self.spec_message(),
    {
        match self {
            IncompatibleReason::AttachmentTooLarge => "Attachment exceeds upstream size limit (20 MiB)",
            IncompatibleReason::MissingDataPrefix => "Image URL missing data: prefix",
            IncompatibleReason::MissingMimeType => "Image URL missing mime type",
            IncompatibleReason::MissingBase64Prefix => "Image URL missing base64, prefix",
            IncompatibleReason::Base64DecodeFailed => "Failed to decode base64 image",
        }
    }

    /// The text of the reason.
    pub open spec fn spec_message(self) -> Seq<char> {
        match self {
            IncompatibleReason::AttachmentTooLarge => "Attachment exceeds upstream size limit (20 MiB)"@,
            IncompatibleReason::MissingDataPrefix => "Image URL missing data: prefix"@,
            IncompatibleReason::MissingMimeType => "Image URL missing mime type"@,
            IncompatibleReason::MissingBase64Prefix => "Image URL missing base64, prefix"@,
            IncompatibleReason::Base64DecodeFailed => "Failed to decode base64 image"@,
        }
    }
}

/// Why a conversion failed.
pub enum MessageError {
    Incompatible(IncompatibleReason),
}

/// Whether a model takes parts of this kind: images and audio where it
/// reads them, documents unless it has no OCR, text always.
pub open spec fn part_allowed(cap: Capability, t: MultiPartMessageType) -> bool {
    match t {
        MultiPartMessageType::ImageUrl => cap.image_input,
        MultiPartMessageType::InputAudio => cap.audio,
        MultiPartMessageType::File => !(cap.ocr is Disabled),
        MultiPartMessageType::Text => true,
    }
}

/// The parts a model takes, in their order.
pub open spec fn allowed_parts(cap: Capability, parts: Seq<MessagePart>) -> Seq<MessagePart>
    decreases parts.len(),
{
    if parts.len() == 0 {
        seq![]
    } else {
        let rest = allowed_parts(cap, parts.drop_first());
        if part_allowed(cap, parts[0].part_type) {
            seq![parts[0]] + rest
        } else {
            rest
        }
    }
}

/// The parts a model takes of every file, file after file.
pub open spec fn files_parts(cap: Capability, files: Seq<File>) -> Seq<MessagePart>
    decreases files.len(),
{
    if files.len() == 0 {
        seq![]
    } else {
        allowed_parts(cap, files[0].parts@) + files_parts(cap, files.drop_first())
    }
}

/// Some file is larger than the upstream accepts.
pub open spec fn any_too_large(files: Seq<File>) -> bool {
    exists|i: int| 0 <= i < files.len() && #[trigger] files[i].data@.len() > UPSTREAM_ATTACHMENT_MAX_BYTES
}

fn is_part_allowed(cap: &Capability, t: &MultiPartMessageType) -> (r: bool)
    ensures
        r == part_allowed(*cap, *t),
{
    match t {
        MultiPartMessageType::ImageUrl => cap.image_input,
        MultiPartMessageType::InputAudio => cap.audio,
        MultiPartMessageType::File => match cap.ocr {
            OcrEngine::Disabled => false,
            _ => true,
        },
        MultiPartMessageType::Text => true,
    }
}

/// The parts of an attachment that the model takes, refused where the
/// attachment is larger than the upstream accepts.
pub fn file_to_parts(file: File, capability: &Capability) -> (r: Result<Vec<MessagePart>, MessageError>)
    ensures
        file.data@.len() > UPSTREAM_ATTACHMENT_MAX_BYTES ==> r matches Err(MessageError::Incompatible(IncompatibleReason::AttachmentTooLarge)),
        file.data@.len() <= UPSTREAM_ATTACHMENT_MAX_BYTES ==> (r matches Ok(p) && p@ == allowed_parts(*capability, file.parts@)),
{
    if file.data.len() > UPSTREAM_ATTACHMENT_MAX_BYTES {
        return Err(MessageError::Incompatible(IncompatibleReason::AttachmentTooLarge));
    }
    let ghost all = file.parts@;
    let mut rest = file.parts;
    let mut out: Vec<MessagePart> = Vec::new();
    while rest.len() > 0
        invariant
            out@ + allowed_parts(*capability, rest@) == allowed_parts(*capability, all),
        decreases rest@.len(),
    {
        let ghost before = rest@;
        let part = rest.remove(0);
        assert(before.drop_first() =~= rest@);
        if is_part_allowed(capability, &part.part_type) {
            let ghost o = out@;
            out.push(part);
            assert(out@ + allowed_parts(*capability, rest@) =~= o + (seq![before[0]] + allowed_parts(*capability, rest@)));
        }
    }
    assert(out@ + allowed_parts(*capability, rest@) =~= out@);
    Ok(out)
}

/// Appends the parts every file gives, or refuses the first file that is
/// too large.
fn extend_with_files(out: &mut Vec<MessagePart>, files: Vec<File>, capability: &Capability) -> (r: Result<(), MessageError>)
    ensures
        any_too_large(files@) ==> r matches Err(MessageError::Incompatible(IncompatibleReason::AttachmentTooLarge)),
        !any_too_large(files@) ==> (r is Ok && final(out)@ == old(out)@ + files_parts(*capability, files@)),
{
    let ghost all = files@;
    let ghost start = out@;
    let mut rest = files;
    let n = rest.len();
    let mut k: usize = 0;
    while rest.len() > 0
        invariant
            n == all.len(),
            all == files@,
            k <= all.len(),
            rest@ == all.subrange(k as int, all.len() as int),
            forall|i: int| 0 <= i < k ==> all[i].data@.len() <= UPSTREAM_ATTACHMENT_MAX_BYTES,
            out@ + files_parts(*capability, rest@) == start + files_parts(*capability, all),
        decreases rest@.len(),
    {
        let ghost before = rest@;
        let file = rest.remove(0);
        assert(before.drop_first() =~= rest@);
        assert(file == all[k as int]);
        let too_large = file.data.len() > UPSTREAM_ATTACHMENT_MAX_BYTES;
        match file_to_parts(file, capability) {
            Err(e) => {
                assert(all[k as int].data@.len() > UPSTREAM_ATTACHMENT_MAX_BYTES);
                assert(any_too_large(all));
                assert(all == files@);
                return Err(e);
            },
            Ok(parts) => {
                let ghost o = out@;
                let mut parts = parts;
                out.append(&mut parts);
                assert(out@ + files_parts(*capability, rest@) =~= o + files_parts(*capability, before));
                k = k + 1;
                assert(rest@ =~= all.subrange(k as int, all.len() as int));
            },
        }
    }
    assert(out@ + files_parts(*capability, rest@) =~= out@);
    proof {
        assert(k == all.len());
        if any_too_large(all) {
            let i = choose|i: int| 0 <= i < all.len() && #[trigger] all[i].data@.len() > UPSTREAM_ATTACHMENT_MAX_BYTES;
            assert(all[i].data@.len() <= UPSTREAM_ATTACHMENT_MAX_BYTES);
        }
    }
    Ok(())
}

/// The reasoning details kept for the target model: the `data` of details
/// that name, as `model_id`, a prefix of the target model's id.
pub open spec fn kept_reasoning(details: Option<JsonValue>, target: Seq<char>) -> Option<JsonValue> {
    match details {
        Some(d) => match d.field("model_id"@) {
            Some(JsonValue::Str(m)) => if has_prefix(target, m@) {
                d.field("data"@)
            } else {
                None
            },
            _ => None,
        },
        None => None,
    }
}

/// A kept value as a list of at most one.
pub open spec fn one_or_none(v: Option<JsonValue>) -> Seq<JsonValue> {
    match v {
        Some(x) => seq![x],
        None => seq![],
    }
}

/// The fields a raw message of this role leaves empty are empty.
pub open spec fn only_role_and_content(raw: RawMessage) -> bool {
    &&& raw.contents is None
    &&& raw.annotations is None
    &&& raw.reasoning_details@.len() == 0
    &&& raw.tool_calls is None
    &&& raw.tool_call_id is None
}

/// The reasoning details worth sending on to `target_model_id`.
fn take_reasoning(details: Option<JsonValue>, target_model_id: &str) -> (r: Option<JsonValue>)
    ensures
        r == kept_reasoning(details, target_model_id@),
{
    match details {
        None => None,
        Some(d) => {
            let keep = match d.get("model_id") {
                Some(JsonValue::Str(model_id)) => crate::text::starts_with(target_model_id, model_id.as_str()),
                _ => false,
            };
            if keep {
                d.take_field("data")
            } else {
                None
            }
        },
    }
}

fn one_or_none_vec(v: Option<JsonValue>) -> (r: Vec<JsonValue>)
    ensures
        r@ == one_or_none(v),
{
    let mut out: Vec<JsonValue> = Vec::new();
    match v {
        Some(x) => {
            out.push(x);
        },
        None => {},
    }
    assert(out@ =~= one_or_none(v));
    out
}

impl Message {
    /// The message in the upstream format. A system or user message is its
    /// text; an assistant message is its text, or with files the parts the
    /// model takes of them followed by the text, with its annotations and
    /// the reasoning details kept for the target model; a multi-part user
    /// message is its text followed by the parts of its files; a tool call
    /// and a tool result become the upstream tool call and tool answer. A
    /// file larger than the upstream accepts refuses the message.
    pub fn to_raw_message(self, target_model_id: &str, capability: &Capability) -> (r: Result<RawMessage, MessageError>)
        ensures
            match self {
                Message::System(m) => (r matches Ok(raw) && raw.role is System && raw.content == Some(m)
                    && only_role_and_content(raw)),
                Message::User(m) => (r matches Ok(raw) && raw.role is User && raw.content == Some(m)
                    && only_role_and_content(raw)),
                Message::Assistant { content, annotations, reasoning_details, files } =>
                    if files@.len() == 0 {
                        r matches Ok(raw) && raw.role is Assistant && raw.content == Some(content)
                            && raw.contents is None && raw.annotations == annotations
                            && raw.reasoning_details@ == one_or_none(kept_reasoning(reasoning_details, target_model_id@))
                            && raw.tool_calls is None && raw.tool_call_id is None
                    } else if any_too_large(files@) {
                        r matches Err(MessageError::Incompatible(IncompatibleReason::AttachmentTooLarge))
                    } else {
                        r matches Ok(raw) && raw.role is Assistant && raw.content is None
                            && (raw.contents matches Some(p) && p@ == files_parts(*capability, files@)
                                .push(MessagePart { part_type: MultiPartMessageType::Text, content }))
                            && raw.annotations == annotations
                            && raw.reasoning_details@ == one_or_none(kept_reasoning(reasoning_details, target_model_id@))
                            && raw.tool_calls is None && raw.tool_call_id is None
                    },
                Message::MultipartUser { text, files } =>
                    if any_too_large(files@) {
                        r matches Err(MessageError::Incompatible(IncompatibleReason::AttachmentTooLarge))
                    } else {
                        r matches Ok(raw) && raw.role is User && raw.content is None
                            && (raw.contents matches Some(p) && p@ == seq![MessagePart { part_type: MultiPartMessageType::Text, content: text }]
                                + files_parts(*capability, files@))
                            && raw.annotations is None && raw.reasoning_details@.len() == 0
                            && raw.tool_calls is None && raw.tool_call_id is None
                    },
                Message::ToolCall(call) => (r matches Ok(raw) && raw.role is Assistant
                    && (raw.content matches Some(c) && c@.len() == 0)
                    && (raw.tool_calls matches Some(calls) && calls@.len() == 1
                        && calls@[0].id == call.id
                        && calls@[0].function.name == Some(call.name)
                        && calls@[0].function.arguments == Some(call.arguments)
                        && calls@[0].call_type@ == "function"@)
                    && raw.contents is None && raw.annotations is None
                    && raw.reasoning_details@.len() == 0 && raw.tool_call_id is None),
                Message::ToolResult(result) => (r matches Ok(raw) && raw.role is Tool
                    && raw.content == Some(result.content) && raw.tool_call_id == Some(result.id)
                    && raw.contents is None && raw.annotations is None
                    && raw.reasoning_details@.len() == 0 && raw.tool_calls is None),
            },
    {
        match self {
            Message::Assistant { content, annotations, reasoning_details, files } => {
                let kept = take_reasoning(reasoning_details, target_model_id);
                if files.len() == 0 {
                    return Ok(RawMessage {
                        role: Role::Assistant,
                        content: Some(content),
                        contents: None,
                        annotations,
                        reasoning_details: one_or_none_vec(kept),
                        tool_calls: None,
                        tool_call_id: None,
                    });
                }
                let mut parts: Vec<MessagePart> = Vec::new();
                match extend_with_files(&mut parts, files, capability) {
                    Err(e) => return Err(e),
                    Ok(()) => {},
                }
                parts.push(MessagePart::text(content));
                Ok(RawMessage {
                    role: Role::Assistant,
                    content: None,
                    contents: Some(parts),
                    annotations,
                    reasoning_details: one_or_none_vec(kept),
                    tool_calls: None,
                    tool_call_id: None,
                })
            },
            Message::System(msg) => Ok(RawMessage {
                role: Role::System,
                content: Some(msg),
                contents: None,
                annotations: None,
                reasoning_details: Vec::new(),
                tool_calls: None,
                tool_call_id: None,
            }),
            Message::User(msg) => Ok(RawMessage {
                role: Role::User,
                content: Some(msg),
                contents: None,
                annotations: None,
                reasoning_details: Vec::new(),
                tool_calls: None,
                tool_call_id: None,
            }),
            Message::MultipartUser { text, files } => {
                let mut parts: Vec<MessagePart> = Vec::new();
                parts.push(MessagePart::text(text));
                match extend_with_files(&mut parts, files, capability) {
                    Err(e) => return Err(e),
                    Ok(()) => {},
                }
                Ok(RawMessage {
                    role: Role::User,
                    content: None,
                    contents: Some(parts),
                    annotations: None,
                    reasoning_details: Vec::new(),
                    tool_calls: None,
                    tool_call_id: None,
                })
            },
            Message::ToolCall(MessageToolCall { id, name, arguments }) => {
                let mut calls: Vec<ToolCallReq> = Vec::new();
                calls.push(ToolCallReq {
                    id,
                    function: ToolFunctionResp { name: Some(name), arguments: Some(arguments) },
                    call_type: String::from_str("function"),
                });
                Ok(RawMessage {
                    role: Role::Assistant,
                    content: Some(String::new()),
                    contents: None,
                    annotations: None,
                    reasoning_details: Vec::new(),
                    tool_calls: Some(calls),
                    tool_call_id: None,
                })
            },
            Message::ToolResult(MessageToolResult { id, content }) => Ok(RawMessage {
                role: Role::Tool,
                content: Some(content),
                contents: None,
                annotations: None,
                reasoning_details: Vec::new(),
                tool_calls: None,
                tool_call_id: Some(id),
            }),
        }
    }
}

/// The bytes that the standard base64 engine (with padding) decodes from
/// a text, or `None` where it refuses the text.
pub uninterp spec fn base64_standard_decode(text: Seq<char>) -> Option<Seq<u8>>;

/// Calls `base64::engine::general_purpose::STANDARD.decode`. Claims only
/// that the result is a function of the text (named
/// `base64_standard_decode`).
#[verifier::external_body]
fn decode_base64(text: &str) -> (r: Option<Vec<u8>>)
    ensures
        r matches Some(v) ==> base64_standard_decode(text@) == Some(v@),
        r is None ==> base64_standard_decode(text@) is None,
{
    base64::Engine::decode(&base64::engine::general_purpose::STANDARD, text).ok()
}

/// What a generated image's URL gives: `data:<mime>;base64,<payload>`
/// gives the decoded payload and the mime type.
pub open spec fn image_outcome(url: Seq<char>) -> Result<(Seq<u8>, Seq<char>), IncompatibleReason> {
    if !has_prefix(url, "data:"@) {
        Err(IncompatibleReason::MissingDataPrefix)
    } else {
        let rest = url.subrange("data:"@.len() as int, url.len() as int);
        match first_index_of(rest, ';') {
            None => Err(IncompatibleReason::MissingMimeType),
            Some(i) => {
                let mime = rest.subrange(0, i);
                let tail = rest.subrange(i + 1, rest.len() as int);
                if !has_prefix(tail, "base64,"@) {
                    Err(IncompatibleReason::MissingBase64Prefix)
                } else {
                    match base64_standard_decode(tail.subrange("base64,"@.len() as int, tail.len() as int)) {
                        None => Err(IncompatibleReason::Base64DecodeFailed),
                        Some(data) => Ok((data, mime)),
                    }
                }
            },
        }
    }
}

impl GeneratedImage {
    /// Reads a generated image from its `data:<mime>;base64,<payload>` URL.
    pub fn from_raw_image(raw: RawImage) -> (r: Result<GeneratedImage, MessageError>)
        ensures
            image_outcome(raw.image_url.url@) matches Err(reason) ==> r == Err::<GeneratedImage, MessageError>(MessageError::Incompatible(reason)),
            image_outcome(raw.image_url.url@) matches Ok((data, mime)) ==> (r matches Ok(image)
                && image.data@ == data && image.mime_type@ == mime),
    {
        let url = raw.image_url.url;
        let data_url = match strip_prefix(url.as_str(), "data:") {
            Some(rest) => rest,
            None => return Err(MessageError::Incompatible(IncompatibleReason::MissingDataPrefix)),
        };
        let (mime_part, base64_data) = match split_once_char(data_url, ';') {
            Some(pair) => pair,
            None => return Err(MessageError::Incompatible(IncompatibleReason::MissingMimeType)),
        };
        let payload = match strip_prefix(base64_data, "base64,") {
            Some(p) => p,
            None => return Err(MessageError::Incompatible(IncompatibleReason::MissingBase64Prefix)),
        };
        let data = match decode_base64(payload) {
            Some(d) => d,
            None => return Err(MessageError::Incompatible(IncompatibleReason::Base64DecodeFailed)),
        };
        Ok(GeneratedImage { data, mime_type: String::from_str(mime_part) })
    }
}

/// Reasoning details reach the target model only where the model that
/// wrote them names a prefix of the target's id; then their `data` is
/// sent, else nothing.
pub proof fn law_reasoning_kept_only_for_its_model(d: JsonValue, target: Seq<char>)
    ensures
        (d.field("model_id"@) matches Some(JsonValue::Str(m)) && has_prefix(target, m@))
            ==> kept_reasoning(Some(d), target) == d.field("data"@),
        !(d.field("model_id"@) matches Some(JsonValue::Str(m)) && has_prefix(target, m@))
            ==> kept_reasoning(Some(d), target) is None,
        kept_reasoning(None, target) is None,
{
}

/// What a model is handed of some parts: only parts of kinds it takes (an
/// image only with image input, audio only with audio, a document only
/// with OCR), each one of the given parts.
pub proof fn law_allowed_parts_fit_the_model(cap: Capability, parts: Seq<MessagePart>)
    ensures
        forall|i: int| 0 <= i < allowed_parts(cap, parts).len() ==> {
            let p = #[trigger] allowed_parts(cap, parts)[i];
            &&& parts.contains(p)
            &&& (p.part_type is ImageUrl ==> cap.image_input)
            &&& (p.part_type is InputAudio ==> cap.audio)
            &&& (p.part_type is File ==> cap.ocr is Native)
        },
    decreases parts.len(),
{
    if parts.len() > 0 {
        law_allowed_parts_fit_the_model(cap, parts.drop_first());
        let rest = allowed_parts(cap, parts.drop_first());
        assert forall|i: int| 0 <= i < allowed_parts(cap, parts).len() implies {
            let p = #[trigger] allowed_parts(cap, parts)[i];
            &&& parts.contains(p)
            &&& (p.part_type is ImageUrl ==> cap.image_input)
            &&& (p.part_type is InputAudio ==> cap.audio)
            &&& (p.part_type is File ==> cap.ocr is Native)
        } by {
            if part_allowed(cap, parts[0].part_type) {
                if i == 0 {
                    assert(parts.contains(parts[0]));
                } else {
                    assert(allowed_parts(cap, parts)[i] == rest[i - 1]);
                    let j = choose|j: int| 0 <= j < parts.drop_first().len() && parts.drop_first()[j] == rest[i - 1];
                    assert(parts[j + 1] == rest[i - 1]);
                }
            } else {
                let j = choose|j: int| 0 <= j < parts.drop_first().len() && parts.drop_first()[j] == rest[i];
                assert(parts[j + 1] == rest[i]);
            }
        }
    }
}

/// A model that takes every kind is handed every part, in order.
pub proof fn law_all_parts_kept_for_a_full_model(cap: Capability, parts: Seq<MessagePart>)
    requires
        cap.image_input,
        cap.audio,
        cap.ocr is Native,
    ensures
        allowed_parts(cap, parts) == parts,
    decreases parts.len(),
{
    if parts.len() > 0 {
        law_all_parts_kept_for_a_full_model(cap, parts.drop_first());
        assert(seq![parts[0]] + parts.drop_first() =~= parts);
    }
}

/// The parts of one file are what the model takes of that file.
pub proof fn law_parts_of_one_file(cap: Capability, f: File)
    ensures
        files_parts(cap, seq![f]) == allowed_parts(cap, f.parts@),
{
    assert(seq![f].drop_first() =~= Seq::<File>::empty());
    assert(seq![f][0] == f);
    assert(files_parts(cap, Seq::<File>::empty()) == Seq::<MessagePart>::empty());
    assert(allowed_parts(cap, f.parts@) + Seq::<MessagePart>::empty() =~= allowed_parts(cap, f.parts@));
}

/// The parts of files follow the order of the files: those of the first
/// files come before those of the later ones.
pub proof fn law_file_parts_keep_file_order(cap: Capability, first: Seq<File>, later: Seq<File>)
    ensures
        files_parts(cap, first + later) == files_parts(cap, first) + files_parts(cap, later),
    decreases first.len(),
{
    if first.len() == 0 {
        assert(first + later =~= later);
        assert(Seq::<MessagePart>::empty() + files_parts(cap, later) =~= files_parts(cap, later));
    } else {
        assert((first + later).drop_first() =~= first.drop_first() + later);
        assert((first + later)[0] == first[0]);
        law_file_parts_keep_file_order(cap, first.drop_first(), later);
        assert(allowed_parts(cap, first[0].parts@) + (files_parts(cap, first.drop_first()) + files_parts(cap, later))
            =~= (allowed_parts(cap, first[0].parts@) + files_parts(cap, first.drop_first())) + files_parts(cap, later));
    }
}

/// Two files give the parts of the first followed by those of the second.
pub proof fn law_two_files_in_order(cap: Capability, a: File, b: File)
    ensures
        files_parts(cap, seq![a, b]) == allowed_parts(cap, a.parts@) + allowed_parts(cap, b.parts@),
{
    law_file_parts_keep_file_order(cap, seq![a], seq![b]);
    assert(seq![a] + seq![b] =~= seq![a, b]);
    law_parts_of_one_file(cap, a);
    law_parts_of_one_file(cap, b);
}

} // verus!
