//! Building blocks of the server events of a response's lifecycle, with the
//! abstract values they stand for.

use vstd::prelude::*;
use crate::protocol::{
    opt_view, views_of, AudioFormat, AudioFormatView, ContentPart, ContentPartView,
    ConversationItem, ConversationItemView, ErrorDetail, ErrorDetailView, OutputContent, OutputContentView, ResponseOutputItem,
    ResponseOutputItemView, ResponseState, ResponseStateView, ServerEvent, ServerEventView,
    SessionState, SessionStateView, ToolView, TurnDetection, TurnDetectionView, Usage, UsageView,
};

verus! {

/// `0.5f32` as bits.
pub const HALF_F32_BITS: u32 = 0x3f00_0000u32;

/// `0.8f32` as bits.
pub const POINT_EIGHT_F32_BITS: u32 = 0x3f4c_cccdu32;

// ============================================================
// Abstract shapes
// ============================================================

/// An assistant message item.
pub open spec fn assistant_message(
    id: Seq<char>,
    status: Seq<char>,
    content: Seq<ContentPartView>,
) -> ConversationItemView {
    ConversationItemView {
        id,
        item_type: "message"@,
        status,
        role: "assistant"@,
        content,
        call_id: None,
        name: None,
        arguments: None,
        output: None,
    }
}

/// A response with no status details.
pub open spec fn response_view(
    id: Seq<char>,
    status: Seq<char>,
    output: Seq<ResponseOutputItemView>,
    usage: Option<UsageView>,
) -> ResponseStateView {
    ResponseStateView { id, status, status_details: None, output, usage }
}

/// An output-text content part.
pub open spec fn text_part(content_type: Seq<char>, text: Seq<char>) -> ContentPartView {
    ContentPartView::OutputText { content_type, text }
}

/// Token usage without details.
pub open spec fn usage_view(total: u64, input: u64, output: u64) -> UsageView {
    UsageView {
        total_tokens: total,
        input_tokens: input,
        output_tokens: output,
        input_token_details: None,
        output_token_details: None,
    }
}

/// A completed assistant output item of a response.
pub open spec fn completed_output(
    id: Seq<char>,
    item_type: Seq<char>,
    content: Seq<OutputContentView>,
    phase: Seq<char>,
) -> ResponseOutputItemView {
    ResponseOutputItemView {
        id,
        object: "realtime.item"@,
        item_type,
        status: "completed"@,
        role: "assistant"@,
        content,
        phase: Some(phase),
    }
}

/// Output content with no function-call fields.
pub open spec fn output_content(
    content_type: Seq<char>,
    transcript: Seq<char>,
    text: Seq<char>,
    audio: Seq<char>,
) -> OutputContentView {
    OutputContentView {
        content_type,
        transcript,
        text,
        audio,
        call_id: None,
        name: None,
        arguments: None,
        output: None,
    }
}

/// The session a local server or a scripted transport starts with.
pub open spec fn initial_session(id: Seq<char>, instructions: Seq<char>) -> SessionStateView {
    SessionStateView {
        id,
        model: "fake-realtime"@,
        modalities: seq!["text"@, "audio"@],
        instructions,
        voice: "alloy"@,
        input_audio_format: Some(AudioFormatView::String("pcm16"@)),
        output_audio_format: Some(AudioFormatView::String("pcm16"@)),
        input_audio_transcription: None,
        turn_detection: Some(
            TurnDetectionView {
                turn_type: "server_vad"@,
                threshold: Some(HALF_F32_BITS),
                silence_duration_ms: Some(200),
                prefix_padding_ms: Some(100),
                create_response: Some(true),
                interrupt_response: Some(true),
                idle_timeout_ms: None,
            },
        ),
        tools: seq![],
        tool_choice: "auto"@,
        temperature: POINT_EIGHT_F32_BITS,
        max_response_output_tokens: "\"inf\""@,
        reasoning: None,
        object: "realtime.session"@,
        speed: None,
        tracing: None,
        truncation: None,
        prompt: None,
        expires_at: None,
        client_secret: None,
        included: None,
        input_audio_noise_reduction: None,
    }
}

// ============================================================
// Builders
// ============================================================

/// An owned copy of a text.
pub fn text_of(s: &str) -> (r: String)
    ensures
        r@ == s@,
{
    String::from_str(s)
}

/// An assistant message item.
pub fn make_assistant_message(id: &str, status: &str, content: Vec<ContentPart>) -> (item:
    ConversationItem)
    ensures
        item@ == assistant_message(id@, status@, views_of(content@)),
{
    ConversationItem {
        id: text_of(id),
        item_type: text_of("message"),
        status: text_of(status),
        role: text_of("assistant"),
        content,
        call_id: None,
        name: None,
        arguments: None,
        output: None,
    }
}

/// A response with no status details.
pub fn make_response(
    id: &str,
    status: &str,
    output: Vec<ResponseOutputItem>,
    usage: Option<Usage>,
) -> (r: ResponseState)
    ensures
        r@ == response_view(id@, status@, views_of(output@), opt_view(usage)),
{
    ResponseState { id: text_of(id), status: text_of(status), status_details: None, output, usage }
}

/// An output-text content part.
pub fn make_text_part(content_type: &str, text: &str) -> (p: ContentPart)
    ensures
        p@ == text_part(content_type@, text@),
{
    ContentPart::OutputText { content_type: text_of(content_type), text: text_of(text) }
}

/// Token usage without details.
pub fn make_usage(total: u64, input: u64, output: u64) -> (u: Usage)
    ensures
        u@ == usage_view(total, input, output),
{
    Usage {
        total_tokens: total,
        input_tokens: input,
        output_tokens: output,
        input_token_details: None,
        output_token_details: None,
    }
}

/// A completed assistant output item of a response.
pub fn make_completed_output(
    id: &str,
    item_type: &str,
    content: Vec<OutputContent>,
    phase: &str,
) -> (o: ResponseOutputItem)
    ensures
        o@ == completed_output(id@, item_type@, views_of(content@), phase@),
{
    ResponseOutputItem {
        id: text_of(id),
        object: text_of("realtime.item"),
        item_type: text_of(item_type),
        status: text_of("completed"),
        role: text_of("assistant"),
        content,
        phase: Some(text_of(phase)),
    }
}

/// Output content with no function-call fields.
pub fn make_output_content(content_type: &str, transcript: &str, text: &str, audio: &str) -> (c:
    OutputContent)
    ensures
        c@ == output_content(content_type@, transcript@, text@, audio@),
{
    OutputContent {
        content_type: text_of(content_type),
        transcript: text_of(transcript),
        text: text_of(text),
        audio: text_of(audio),
        call_id: None,
        name: None,
        arguments: None,
        output: None,
    }
}

/// The session a local server or a scripted transport starts with.
pub fn make_initial_session(id: &str, instructions: &str) -> (s: SessionState)
    ensures
        s@ == initial_session(id@, instructions@),
{
    let modalities = vec![text_of("text"), text_of("audio")];
    let s = SessionState {
        id: text_of(id),
        model: text_of("fake-realtime"),
        modalities,
        instructions: text_of(instructions),
        voice: text_of("alloy"),
        input_audio_format: Some(AudioFormat::String(text_of("pcm16"))),
        output_audio_format: Some(AudioFormat::String(text_of("pcm16"))),
        input_audio_transcription: None,
        turn_detection: Some(
            TurnDetection {
                turn_type: text_of("server_vad"),
                threshold: Some(HALF_F32_BITS),
                silence_duration_ms: Some(200),
                prefix_padding_ms: Some(100),
                create_response: Some(true),
                interrupt_response: Some(true),
                idle_timeout_ms: None,
            },
        ),
        tools: Vec::new(),
        tool_choice: text_of("auto"),
        temperature: POINT_EIGHT_F32_BITS,
        max_response_output_tokens: text_of("\"inf\""),
        reasoning: None,
        object: text_of("realtime.session"),
        speed: None,
        tracing: None,
        truncation: None,
        prompt: None,
        expires_at: None,
        client_secret: None,
        included: None,
        input_audio_noise_reduction: None,
    };
    assert(s@.modalities =~= seq!["text"@, "audio"@]);
    assert(s@.tools =~= Seq::<ToolView>::empty());
    s
}

/// The error event answering a client frame that does not parse, where
/// `detail` is the parser's description of the problem.
pub open spec fn parse_failure_view(detail: Seq<char>) -> ServerEventView {
    ServerEventView::Error {
        error: ErrorDetailView {
            error_type: "invalid_request_error"@,
            code: None,
            message: "Failed to parse event: "@ + detail,
            param: None,
            event_id: None,
        },
    }
}

/// The error event answering a client frame that does not parse.
pub fn parse_failure_event(detail: &str) -> (e: ServerEvent)
    ensures
        e@ == parse_failure_view(detail@),
{
    let mut message = String::from_str("Failed to parse event: ");
    message.append(detail);
    ServerEvent::Error {
        error: ErrorDetail {
            error_type: text_of("invalid_request_error"),
            code: None,
            message,
            param: None,
            event_id: None,
        },
    }
}

} // verus!
