//! The realtime protocol's events and the values they carry.
//!
//! JSON-valued fields that the protocol leaves free-form are held as their
//! JSON text; floating-point fields are held as their IEEE-754 bit patterns
//! (`f32::to_bits` / `f64::to_bits`).

use vstd::prelude::*;

verus! {

// ============================================================
// Views and clones of containers
// ============================================================

/// The view of an optional value.
pub open spec fn opt_view<T: View>(o: Option<T>) -> Option<T::V> {
    match o {
        Some(x) => Some(x@),
        None => None,
    }
}

/// The views of a sequence of values.
pub open spec fn views_of<T: View>(s: Seq<T>) -> Seq<T::V> {
    s.map_values(|x: T| x@)
}

/// The views of an optional vector.
pub open spec fn opt_views_of<T: View>(o: Option<Vec<T>>) -> Option<Seq<T::V>> {
    match o {
        Some(v) => Some(views_of(v@)),
        None => None,
    }
}

/// A copy of a vector whose elements keep their values when cloned.
pub fn clone_vec<T: Clone + View>(v: &Vec<T>) -> (r: Vec<T>)
    requires
        forall|a: T, b: T| #[trigger] cloned::<T>(a, b) ==> b@ == a@,
    ensures
        views_of(r@) == views_of(v@),
{
    let r = v.clone();
    assert(views_of(r@) =~= views_of(v@)) by {
        assert forall|i: int| 0 <= i < r@.len() implies r@[i]@ == v@[i]@ by {
            assert(cloned::<T>(v@[i], r@[i]));
        }
    }
    r
}

/// A copy of an optional value that keeps its value when cloned.
pub fn clone_opt<T: Clone + View>(o: &Option<T>) -> (r: Option<T>)
    requires
        forall|a: T, b: T| #[trigger] cloned::<T>(a, b) ==> b@ == a@,
    ensures
        opt_view(r) == opt_view(*o),
{
    match o {
        Some(x) => {
            let y = x.clone();
            assert(cloned::<T>(*x, y));
            Some(y)
        },
        None => None,
    }
}

/// A copy of an optional vector whose elements keep their values when cloned.
pub fn clone_opt_vec<T: Clone + View>(o: &Option<Vec<T>>) -> (r: Option<Vec<T>>)
    requires
        forall|a: T, b: T| #[trigger] cloned::<T>(a, b) ==> b@ == a@,
    ensures
        opt_views_of(r) == opt_views_of(*o),
{
    match o {
        Some(v) => Some(clone_vec(v)),
        None => None,
    }
}

/// Cloning a `String` keeps its text.
pub proof fn lemma_cloned_string()
    ensures
        forall|a: String, b: String| #[trigger] cloned::<String>(a, b) ==> b@ == a@,
{
}

// ============================================================
// Shared types
// ============================================================


/// An audio format: a name such as `"pcm16"`, or a typed format with a rate.
#[derive(Debug)]
pub enum AudioFormat {
    String(String),
    Object {
        format_type: String,
        rate: u32,
    },
}

/// The abstract value of a [`AudioFormat`].
pub enum AudioFormatView {
    String(Seq<char>),
    Object {
        format_type: Seq<char>,
        rate: u32,
    },
}

impl View for AudioFormat {
    type V = AudioFormatView;

    open spec fn view(&self) -> AudioFormatView {
        match self {
            AudioFormat::String(s) => AudioFormatView::String(s@),
            AudioFormat::Object { format_type, rate } => AudioFormatView::Object {
                format_type: format_type@,
                rate: *rate,
            },
        }
    }
}

impl Clone for AudioFormat {
    fn clone(&self) -> (r: Self)
        ensures
            r@ == self@,
    {
        match self {
            AudioFormat::String(s) => AudioFormat::String((*s).clone()),
            AudioFormat::Object { format_type, rate } => AudioFormat::Object {
                format_type: (*format_type).clone(),
                rate: (*rate),
            },
        }
    }
}

/// Cloning a [`AudioFormat`] keeps its value.
pub proof fn lemma_cloned_audio_format()
    ensures
        forall|a: AudioFormat, b: AudioFormat| #[trigger] cloned::<AudioFormat>(a, b) ==> b@ == a@,
{
}

/// Input audio transcription settings.
#[derive(Debug)]
pub struct InputAudioTranscription {
    pub model: String,
}

/// The abstract value of a [`InputAudioTranscription`].
pub struct InputAudioTranscriptionView {
    pub model: Seq<char>,
}

impl View for InputAudioTranscription {
    type V = InputAudioTranscriptionView;

    open spec fn view(&self) -> InputAudioTranscriptionView {
        InputAudioTranscriptionView {
            model: self.model@,
        }
    }
}

impl Clone for InputAudioTranscription {
    fn clone(&self) -> (r: Self)
        ensures
            r@ == self@,
    {
        InputAudioTranscription {
            model: self.model.clone(),
        }
    }
}

/// Cloning a [`InputAudioTranscription`] keeps its value.
pub proof fn lemma_cloned_input_audio_transcription()
    ensures
        forall|a: InputAudioTranscription, b: InputAudioTranscription| #[trigger] cloned::<InputAudioTranscription>(a, b) ==> b@ == a@,
{
}

/// Server-side turn detection settings.
#[derive(Debug)]
pub struct TurnDetection {
    pub turn_type: String,
    /// VAD threshold, as `f32` bits.
    pub threshold: Option<u32>,
    pub silence_duration_ms: Option<u32>,
    pub prefix_padding_ms: Option<u32>,
    pub create_response: Option<bool>,
    pub interrupt_response: Option<bool>,
    /// Idle timeout, as JSON text.
    pub idle_timeout_ms: Option<String>,
}

/// The abstract value of a [`TurnDetection`].
pub struct TurnDetectionView {
    pub turn_type: Seq<char>,
    pub threshold: Option<u32>,
    pub silence_duration_ms: Option<u32>,
    pub prefix_padding_ms: Option<u32>,
    pub create_response: Option<bool>,
    pub interrupt_response: Option<bool>,
    pub idle_timeout_ms: Option<Seq<char>>,
}

impl View for TurnDetection {
    type V = TurnDetectionView;

    open spec fn view(&self) -> TurnDetectionView {
        TurnDetectionView {
            turn_type: self.turn_type@,
            threshold: self.threshold,
            silence_duration_ms: self.silence_duration_ms,
            prefix_padding_ms: self.prefix_padding_ms,
            create_response: self.create_response,
            interrupt_response: self.interrupt_response,
            idle_timeout_ms: opt_view(self.idle_timeout_ms),
        }
    }
}

impl Clone for TurnDetection {
    fn clone(&self) -> (r: Self)
        ensures
            r@ == self@,
    {
        proof {
            lemma_cloned_string();
        }
        TurnDetection {
            turn_type: self.turn_type.clone(),
            threshold: self.threshold,
            silence_duration_ms: self.silence_duration_ms,
            prefix_padding_ms: self.prefix_padding_ms,
            create_response: self.create_response,
            interrupt_response: self.interrupt_response,
            idle_timeout_ms: clone_opt(&self.idle_timeout_ms),
        }
    }
}

/// Cloning a [`TurnDetection`] keeps its value.
pub proof fn lemma_cloned_turn_detection()
    ensures
        forall|a: TurnDetection, b: TurnDetection| #[trigger] cloned::<TurnDetection>(a, b) ==> b@ == a@,
{
}

/// Reasoning settings.
#[derive(Debug)]
pub struct ReasoningConfig {
    pub effort: Option<String>,
    pub generate_summary: Option<String>,
}

/// The abstract value of a [`ReasoningConfig`].
pub struct ReasoningConfigView {
    pub effort: Option<Seq<char>>,
    pub generate_summary: Option<Seq<char>>,
}

impl View for ReasoningConfig {
    type V = ReasoningConfigView;

    open spec fn view(&self) -> ReasoningConfigView {
        ReasoningConfigView {
            effort: opt_view(self.effort),
            generate_summary: opt_view(self.generate_summary),
        }
    }
}

impl Clone for ReasoningConfig {
    fn clone(&self) -> (r: Self)
        ensures
            r@ == self@,
    {
        proof {
            lemma_cloned_string();
        }
        ReasoningConfig {
            effort: clone_opt(&self.effort),
            generate_summary: clone_opt(&self.generate_summary),
        }
    }
}

/// Cloning a [`ReasoningConfig`] keeps its value.
pub proof fn lemma_cloned_reasoning_config()
    ensures
        forall|a: ReasoningConfig, b: ReasoningConfig| #[trigger] cloned::<ReasoningConfig>(a, b) ==> b@ == a@,
{
}

/// A tool (function) the model may call.
#[derive(Debug)]
pub struct Tool {
    pub tool_type: String,
    pub name: String,
    pub description: String,
    /// JSON schema of the parameters, as JSON text.
    pub parameters: String,
}

/// The abstract value of a [`Tool`].
pub struct ToolView {
    pub tool_type: Seq<char>,
    pub name: Seq<char>,
    pub description: Seq<char>,
    pub parameters: Seq<char>,
}

impl View for Tool {
    type V = ToolView;

    open spec fn view(&self) -> ToolView {
        ToolView {
            tool_type: self.tool_type@,
            name: self.name@,
            description: self.description@,
            parameters: self.parameters@,
        }
    }
}

impl Clone for Tool {
    fn clone(&self) -> (r: Self)
        ensures
            r@ == self@,
    {
        Tool {
            tool_type: self.tool_type.clone(),
            name: self.name.clone(),
            description: self.description.clone(),
            parameters: self.parameters.clone(),
        }
    }
}

/// Cloning a [`Tool`] keeps its value.
pub proof fn lemma_cloned_tool()
    ensures
        forall|a: Tool, b: Tool| #[trigger] cloned::<Tool>(a, b) ==> b@ == a@,
{
}

/// Session settings sent by the client; absent fields are left unchanged.
#[derive(Debug)]
pub struct SessionConfig {
    pub model: Option<String>,
    pub modalities: Option<Vec<String>>,
    pub instructions: Option<String>,
    pub voice: Option<String>,
    pub input_audio_format: Option<AudioFormat>,
    pub output_audio_format: Option<AudioFormat>,
    pub input_audio_transcription: Option<InputAudioTranscription>,
    pub turn_detection: Option<TurnDetection>,
    pub tools: Option<Vec<Tool>>,
    pub tool_choice: Option<String>,
    /// Sampling temperature, as `f32` bits.
    pub temperature: Option<u32>,
    pub max_response_output_tokens: Option<u32>,
    pub reasoning: Option<ReasoningConfig>,
}

/// The abstract value of a [`SessionConfig`].
pub struct SessionConfigView {
    pub model: Option<Seq<char>>,
    pub modalities: Option<Seq<Seq<char>>>,
    pub instructions: Option<Seq<char>>,
    pub voice: Option<Seq<char>>,
    pub input_audio_format: Option<AudioFormatView>,
    pub output_audio_format: Option<AudioFormatView>,
    pub input_audio_transcription: Option<InputAudioTranscriptionView>,
    pub turn_detection: Option<TurnDetectionView>,
    pub tools: Option<Seq<ToolView>>,
    pub tool_choice: Option<Seq<char>>,
    pub temperature: Option<u32>,
    pub max_response_output_tokens: Option<u32>,
    pub reasoning: Option<ReasoningConfigView>,
}

impl View for SessionConfig {
    type V = SessionConfigView;

    open spec fn view(&self) -> SessionConfigView {
        SessionConfigView {
            model: opt_view(self.model),
            modalities: opt_views_of(self.modalities),
            instructions: opt_view(self.instructions),
            voice: opt_view(self.voice),
            input_audio_format: opt_view(self.input_audio_format),
            output_audio_format: opt_view(self.output_audio_format),
            input_audio_transcription: opt_view(self.input_audio_transcription),
            turn_detection: opt_view(self.turn_detection),
            tools: opt_views_of(self.tools),
            tool_choice: opt_view(self.tool_choice),
            temperature: self.temperature,
            max_response_output_tokens: self.max_response_output_tokens,
            reasoning: opt_view(self.reasoning),
        }
    }
}

impl Clone for SessionConfig {
    fn clone(&self) -> (r: Self)
        ensures
            r@ == self@,
    {
        proof {
            lemma_cloned_audio_format();
            lemma_cloned_input_audio_transcription();
            lemma_cloned_reasoning_config();
            lemma_cloned_string();
            lemma_cloned_tool();
            lemma_cloned_turn_detection();
        }
        SessionConfig {
            model: clone_opt(&self.model),
            modalities: clone_opt_vec(&self.modalities),
            instructions: clone_opt(&self.instructions),
            voice: clone_opt(&self.voice),
            input_audio_format: clone_opt(&self.input_audio_format),
            output_audio_format: clone_opt(&self.output_audio_format),
            input_audio_transcription: clone_opt(&self.input_audio_transcription),
            turn_detection: clone_opt(&self.turn_detection),
            tools: clone_opt_vec(&self.tools),
            tool_choice: clone_opt(&self.tool_choice),
            temperature: self.temperature,
            max_response_output_tokens: self.max_response_output_tokens,
            reasoning: clone_opt(&self.reasoning),
        }
    }
}

/// Cloning a [`SessionConfig`] keeps its value.
pub proof fn lemma_cloned_session_config()
    ensures
        forall|a: SessionConfig, b: SessionConfig| #[trigger] cloned::<SessionConfig>(a, b) ==> b@ == a@,
{
}

/// The session as the server reports it.
#[derive(Debug)]
pub struct SessionState {
    pub id: String,
    pub model: String,
    pub modalities: Vec<String>,
    pub instructions: String,
    pub voice: String,
    pub input_audio_format: Option<AudioFormat>,
    pub output_audio_format: Option<AudioFormat>,
    pub input_audio_transcription: Option<InputAudioTranscription>,
    pub turn_detection: Option<TurnDetection>,
    pub tools: Vec<Tool>,
    pub tool_choice: String,
    /// Sampling temperature, as `f32` bits.
    pub temperature: u32,
    /// Output token limit, as JSON text.
    pub max_response_output_tokens: String,
    pub reasoning: Option<ReasoningConfig>,
    pub object: String,
    /// Speech speed, as `f32` bits.
    pub speed: Option<u32>,
    /// As JSON text.
    pub tracing: Option<String>,
    pub truncation: Option<String>,
    /// As JSON text.
    pub prompt: Option<String>,
    pub expires_at: Option<u64>,
    /// As JSON text.
    pub client_secret: Option<String>,
    /// The `include` setting, as JSON text.
    pub included: Option<String>,
    /// As JSON text.
    pub input_audio_noise_reduction: Option<String>,
}

/// The abstract value of a [`SessionState`].
pub struct SessionStateView {
    pub id: Seq<char>,
    pub model: Seq<char>,
    pub modalities: Seq<Seq<char>>,
    pub instructions: Seq<char>,
    pub voice: Seq<char>,
    pub input_audio_format: Option<AudioFormatView>,
    pub output_audio_format: Option<AudioFormatView>,
    pub input_audio_transcription: Option<InputAudioTranscriptionView>,
    pub turn_detection: Option<TurnDetectionView>,
    pub tools: Seq<ToolView>,
    pub tool_choice: Seq<char>,
    pub temperature: u32,
    pub max_response_output_tokens: Seq<char>,
    pub reasoning: Option<ReasoningConfigView>,
    pub object: Seq<char>,
    pub speed: Option<u32>,
    pub tracing: Option<Seq<char>>,
    pub truncation: Option<Seq<char>>,
    pub prompt: Option<Seq<char>>,
    pub expires_at: Option<u64>,
    pub client_secret: Option<Seq<char>>,
    pub included: Option<Seq<char>>,
    pub input_audio_noise_reduction: Option<Seq<char>>,
}

impl View for SessionState {
    type V = SessionStateView;

    open spec fn view(&self) -> SessionStateView {
        SessionStateView {
            id: self.id@,
            model: self.model@,
            modalities: views_of(self.modalities@),
            instructions: self.instructions@,
            voice: self.voice@,
            input_audio_format: opt_view(self.input_audio_format),
            output_audio_format: opt_view(self.output_audio_format),
            input_audio_transcription: opt_view(self.input_audio_transcription),
            turn_detection: opt_view(self.turn_detection),
            tools: views_of(self.tools@),
            tool_choice: self.tool_choice@,
            temperature: self.temperature,
            max_response_output_tokens: self.max_response_output_tokens@,
            reasoning: opt_view(self.reasoning),
            object: self.object@,
            speed: self.speed,
            tracing: opt_view(self.tracing),
            truncation: opt_view(self.truncation),
            prompt: opt_view(self.prompt),
            expires_at: self.expires_at,
            client_secret: opt_view(self.client_secret),
            included: opt_view(self.included),
            input_audio_noise_reduction: opt_view(self.input_audio_noise_reduction),
        }
    }
}

impl Clone for SessionState {
    fn clone(&self) -> (r: Self)
        ensures
            r@ == self@,
    {
        proof {
            lemma_cloned_audio_format();
            lemma_cloned_input_audio_transcription();
            lemma_cloned_reasoning_config();
            lemma_cloned_string();
            lemma_cloned_tool();
            lemma_cloned_turn_detection();
        }
        SessionState {
            id: self.id.clone(),
            model: self.model.clone(),
            modalities: clone_vec(&self.modalities),
            instructions: self.instructions.clone(),
            voice: self.voice.clone(),
            input_audio_format: clone_opt(&self.input_audio_format),
            output_audio_format: clone_opt(&self.output_audio_format),
            input_audio_transcription: clone_opt(&self.input_audio_transcription),
            turn_detection: clone_opt(&self.turn_detection),
            tools: clone_vec(&self.tools),
            tool_choice: self.tool_choice.clone(),
            temperature: self.temperature,
            max_response_output_tokens: self.max_response_output_tokens.clone(),
            reasoning: clone_opt(&self.reasoning),
            object: self.object.clone(),
            speed: self.speed,
            tracing: clone_opt(&self.tracing),
            truncation: clone_opt(&self.truncation),
            prompt: clone_opt(&self.prompt),
            expires_at: self.expires_at,
            client_secret: clone_opt(&self.client_secret),
            included: clone_opt(&self.included),
            input_audio_noise_reduction: clone_opt(&self.input_audio_noise_reduction),
        }
    }
}

/// Cloning a [`SessionState`] keeps its value.
pub proof fn lemma_cloned_session_state()
    ensures
        forall|a: SessionState, b: SessionState| #[trigger] cloned::<SessionState>(a, b) ==> b@ == a@,
{
}

/// Per-response settings sent with `response.create`.
#[derive(Debug)]
pub struct ResponseConfig {
    pub modalities: Option<Vec<String>>,
    pub instructions: Option<String>,
    pub voice: Option<String>,
    pub output_audio_format: Option<AudioFormat>,
    pub tools: Option<Vec<Tool>>,
    pub tool_choice: Option<String>,
    /// Sampling temperature, as `f32` bits.
    pub temperature: Option<u32>,
    pub max_response_output_tokens: Option<u32>,
    pub reasoning: Option<ReasoningConfig>,
}

/// The abstract value of a [`ResponseConfig`].
pub struct ResponseConfigView {
    pub modalities: Option<Seq<Seq<char>>>,
    pub instructions: Option<Seq<char>>,
    pub voice: Option<Seq<char>>,
    pub output_audio_format: Option<AudioFormatView>,
    pub tools: Option<Seq<ToolView>>,
    pub tool_choice: Option<Seq<char>>,
    pub temperature: Option<u32>,
    pub max_response_output_tokens: Option<u32>,
    pub reasoning: Option<ReasoningConfigView>,
}

impl View for ResponseConfig {
    type V = ResponseConfigView;

    open spec fn view(&self) -> ResponseConfigView {
        ResponseConfigView {
            modalities: opt_views_of(self.modalities),
            instructions: opt_view(self.instructions),
            voice: opt_view(self.voice),
            output_audio_format: opt_view(self.output_audio_format),
            tools: opt_views_of(self.tools),
            tool_choice: opt_view(self.tool_choice),
            temperature: self.temperature,
            max_response_output_tokens: self.max_response_output_tokens,
            reasoning: opt_view(self.reasoning),
        }
    }
}

impl Clone for ResponseConfig {
    fn clone(&self) -> (r: Self)
        ensures
            r@ == self@,
    {
        proof {
            lemma_cloned_audio_format();
            lemma_cloned_reasoning_config();
            lemma_cloned_string();
            lemma_cloned_tool();
        }
        ResponseConfig {
            modalities: clone_opt_vec(&self.modalities),
            instructions: clone_opt(&self.instructions),
            voice: clone_opt(&self.voice),
            output_audio_format: clone_opt(&self.output_audio_format),
            tools: clone_opt_vec(&self.tools),
            tool_choice: clone_opt(&self.tool_choice),
            temperature: self.temperature,
            max_response_output_tokens: self.max_response_output_tokens,
            reasoning: clone_opt(&self.reasoning),
        }
    }
}

/// Cloning a [`ResponseConfig`] keeps its value.
pub proof fn lemma_cloned_response_config()
    ensures
        forall|a: ResponseConfig, b: ResponseConfig| #[trigger] cloned::<ResponseConfig>(a, b) ==> b@ == a@,
{
}

/// A content part of a response output item.
#[derive(Debug)]
pub struct OutputContent {
    pub content_type: String,
    pub transcript: String,
    pub text: String,
    pub audio: String,
    pub call_id: Option<String>,
    pub name: Option<String>,
    pub arguments: Option<String>,
    pub output: Option<String>,
}

/// The abstract value of a [`OutputContent`].
pub struct OutputContentView {
    pub content_type: Seq<char>,
    pub transcript: Seq<char>,
    pub text: Seq<char>,
    pub audio: Seq<char>,
    pub call_id: Option<Seq<char>>,
    pub name: Option<Seq<char>>,
    pub arguments: Option<Seq<char>>,
    pub output: Option<Seq<char>>,
}

impl View for OutputContent {
    type V = OutputContentView;

    open spec fn view(&self) -> OutputContentView {
        OutputContentView {
            content_type: self.content_type@,
            transcript: self.transcript@,
            text: self.text@,
            audio: self.audio@,
            call_id: opt_view(self.call_id),
            name: opt_view(self.name),
            arguments: opt_view(self.arguments),
            output: opt_view(self.output),
        }
    }
}

impl Clone for OutputContent {
    fn clone(&self) -> (r: Self)
        ensures
            r@ == self@,
    {
        proof {
            lemma_cloned_string();
        }
        OutputContent {
            content_type: self.content_type.clone(),
            transcript: self.transcript.clone(),
            text: self.text.clone(),
            audio: self.audio.clone(),
            call_id: clone_opt(&self.call_id),
            name: clone_opt(&self.name),
            arguments: clone_opt(&self.arguments),
            output: clone_opt(&self.output),
        }
    }
}

/// Cloning a [`OutputContent`] keeps its value.
pub proof fn lemma_cloned_output_content()
    ensures
        forall|a: OutputContent, b: OutputContent| #[trigger] cloned::<OutputContent>(a, b) ==> b@ == a@,
{
}

/// An output item of a response.
#[derive(Debug)]
pub struct ResponseOutputItem {
    pub id: String,
    pub object: String,
    pub item_type: String,
    pub status: String,
    pub role: String,
    pub content: Vec<OutputContent>,
    pub phase: Option<String>,
}

/// The abstract value of a [`ResponseOutputItem`].
pub struct ResponseOutputItemView {
    pub id: Seq<char>,
    pub object: Seq<char>,
    pub item_type: Seq<char>,
    pub status: Seq<char>,
    pub role: Seq<char>,
    pub content: Seq<OutputContentView>,
    pub phase: Option<Seq<char>>,
}

impl View for ResponseOutputItem {
    type V = ResponseOutputItemView;

    open spec fn view(&self) -> ResponseOutputItemView {
        ResponseOutputItemView {
            id: self.id@,
            object: self.object@,
            item_type: self.item_type@,
            status: self.status@,
            role: self.role@,
            content: views_of(self.content@),
            phase: opt_view(self.phase),
        }
    }
}

impl Clone for ResponseOutputItem {
    fn clone(&self) -> (r: Self)
        ensures
            r@ == self@,
    {
        proof {
            lemma_cloned_output_content();
            lemma_cloned_string();
        }
        ResponseOutputItem {
            id: self.id.clone(),
            object: self.object.clone(),
            item_type: self.item_type.clone(),
            status: self.status.clone(),
            role: self.role.clone(),
            content: clone_vec(&self.content),
            phase: clone_opt(&self.phase),
        }
    }
}

/// Cloning a [`ResponseOutputItem`] keeps its value.
pub proof fn lemma_cloned_response_output_item()
    ensures
        forall|a: ResponseOutputItem, b: ResponseOutputItem| #[trigger] cloned::<ResponseOutputItem>(a, b) ==> b@ == a@,
{
}

/// Token usage of a response.
#[derive(Debug)]
pub struct Usage {
    pub total_tokens: u64,
    pub input_tokens: u64,
    pub output_tokens: u64,
    /// As JSON text.
    pub input_token_details: Option<String>,
    /// As JSON text.
    pub output_token_details: Option<String>,
}

/// The abstract value of a [`Usage`].
pub struct UsageView {
    pub total_tokens: u64,
    pub input_tokens: u64,
    pub output_tokens: u64,
    pub input_token_details: Option<Seq<char>>,
    pub output_token_details: Option<Seq<char>>,
}

impl View for Usage {
    type V = UsageView;

    open spec fn view(&self) -> UsageView {
        UsageView {
            total_tokens: self.total_tokens,
            input_tokens: self.input_tokens,
            output_tokens: self.output_tokens,
            input_token_details: opt_view(self.input_token_details),
            output_token_details: opt_view(self.output_token_details),
        }
    }
}

impl Clone for Usage {
    fn clone(&self) -> (r: Self)
        ensures
            r@ == self@,
    {
        proof {
            lemma_cloned_string();
        }
        Usage {
            total_tokens: self.total_tokens,
            input_tokens: self.input_tokens,
            output_tokens: self.output_tokens,
            input_token_details: clone_opt(&self.input_token_details),
            output_token_details: clone_opt(&self.output_token_details),
        }
    }
}

/// Cloning a [`Usage`] keeps its value.
pub proof fn lemma_cloned_usage()
    ensures
        forall|a: Usage, b: Usage| #[trigger] cloned::<Usage>(a, b) ==> b@ == a@,
{
}

/// A response as the server reports it.
#[derive(Debug)]
pub struct ResponseState {
    pub id: String,
    pub status: String,
    /// As JSON text.
    pub status_details: Option<String>,
    pub output: Vec<ResponseOutputItem>,
    pub usage: Option<Usage>,
}

/// The abstract value of a [`ResponseState`].
pub struct ResponseStateView {
    pub id: Seq<char>,
    pub status: Seq<char>,
    pub status_details: Option<Seq<char>>,
    pub output: Seq<ResponseOutputItemView>,
    pub usage: Option<UsageView>,
}

impl View for ResponseState {
    type V = ResponseStateView;

    open spec fn view(&self) -> ResponseStateView {
        ResponseStateView {
            id: self.id@,
            status: self.status@,
            status_details: opt_view(self.status_details),
            output: views_of(self.output@),
            usage: opt_view(self.usage),
        }
    }
}

impl Clone for ResponseState {
    fn clone(&self) -> (r: Self)
        ensures
            r@ == self@,
    {
        proof {
            lemma_cloned_response_output_item();
            lemma_cloned_string();
            lemma_cloned_usage();
        }
        ResponseState {
            id: self.id.clone(),
            status: self.status.clone(),
            status_details: clone_opt(&self.status_details),
            output: clone_vec(&self.output),
            usage: clone_opt(&self.usage),
        }
    }
}

/// Cloning a [`ResponseState`] keeps its value.
pub proof fn lemma_cloned_response_state()
    ensures
        forall|a: ResponseState, b: ResponseState| #[trigger] cloned::<ResponseState>(a, b) ==> b@ == a@,
{
}

/// A content part of a conversation item.
#[derive(Debug)]
pub enum ContentPart {
    InputText {
        content_type: String,
        text: String,
    },
    InputAudio {
        content_type: String,
        audio: String,
    },
    OutputText {
        content_type: String,
        text: String,
    },
    OutputAudio {
        content_type: String,
        audio: String,
        transcript: Option<String>,
    },
    /// Any other part, as JSON text.
    Other(String),
}

/// The abstract value of a [`ContentPart`].
pub enum ContentPartView {
    InputText {
        content_type: Seq<char>,
        text: Seq<char>,
    },
    InputAudio {
        content_type: Seq<char>,
        audio: Seq<char>,
    },
    OutputText {
        content_type: Seq<char>,
        text: Seq<char>,
    },
    OutputAudio {
        content_type: Seq<char>,
        audio: Seq<char>,
        transcript: Option<Seq<char>>,
    },
    Other(Seq<char>),
}

impl View for ContentPart {
    type V = ContentPartView;

    open spec fn view(&self) -> ContentPartView {
        match self {
            ContentPart::InputText { content_type, text } => ContentPartView::InputText {
                content_type: content_type@,
                text: text@,
            },
            ContentPart::InputAudio { content_type, audio } => ContentPartView::InputAudio {
                content_type: content_type@,
                audio: audio@,
            },
            ContentPart::OutputText { content_type, text } => ContentPartView::OutputText {
                content_type: content_type@,
                text: text@,
            },
            ContentPart::OutputAudio { content_type, audio, transcript } => ContentPartView::OutputAudio {
                content_type: content_type@,
                audio: audio@,
                transcript: opt_view(*transcript),
            },
            ContentPart::Other(json) => ContentPartView::Other(json@),
        }
    }
}

impl Clone for ContentPart {
    fn clone(&self) -> (r: Self)
        ensures
            r@ == self@,
    {
        proof {
            lemma_cloned_string();
        }
        match self {
            ContentPart::InputText { content_type, text } => ContentPart::InputText {
                content_type: (*content_type).clone(),
                text: (*text).clone(),
            },
            ContentPart::InputAudio { content_type, audio } => ContentPart::InputAudio {
                content_type: (*content_type).clone(),
                audio: (*audio).clone(),
            },
            ContentPart::OutputText { content_type, text } => ContentPart::OutputText {
                content_type: (*content_type).clone(),
                text: (*text).clone(),
            },
            ContentPart::OutputAudio { content_type, audio, transcript } => ContentPart::OutputAudio {
                content_type: (*content_type).clone(),
                audio: (*audio).clone(),
                transcript: clone_opt(&(*transcript)),
            },
            ContentPart::Other(json) => ContentPart::Other((*json).clone()),
        }
    }
}

/// Cloning a [`ContentPart`] keeps its value.
pub proof fn lemma_cloned_content_part()
    ensures
        forall|a: ContentPart, b: ContentPart| #[trigger] cloned::<ContentPart>(a, b) ==> b@ == a@,
{
}

/// An item of the conversation: a message, a function call or its output.
#[derive(Debug)]
pub struct ConversationItem {
    pub id: String,
    pub item_type: String,
    pub status: String,
    pub role: String,
    pub content: Vec<ContentPart>,
    pub call_id: Option<String>,
    pub name: Option<String>,
    pub arguments: Option<String>,
    pub output: Option<String>,
}

/// The abstract value of a [`ConversationItem`].
pub struct ConversationItemView {
    pub id: Seq<char>,
    pub item_type: Seq<char>,
    pub status: Seq<char>,
    pub role: Seq<char>,
    pub content: Seq<ContentPartView>,
    pub call_id: Option<Seq<char>>,
    pub name: Option<Seq<char>>,
    pub arguments: Option<Seq<char>>,
    pub output: Option<Seq<char>>,
}

impl View for ConversationItem {
    type V = ConversationItemView;

    open spec fn view(&self) -> ConversationItemView {
        ConversationItemView {
            id: self.id@,
            item_type: self.item_type@,
            status: self.status@,
            role: self.role@,
            content: views_of(self.content@),
            call_id: opt_view(self.call_id),
            name: opt_view(self.name),
            arguments: opt_view(self.arguments),
            output: opt_view(self.output),
        }
    }
}

impl Clone for ConversationItem {
    fn clone(&self) -> (r: Self)
        ensures
            r@ == self@,
    {
        proof {
            lemma_cloned_content_part();
            lemma_cloned_string();
        }
        ConversationItem {
            id: self.id.clone(),
            item_type: self.item_type.clone(),
            status: self.status.clone(),
            role: self.role.clone(),
            content: clone_vec(&self.content),
            call_id: clone_opt(&self.call_id),
            name: clone_opt(&self.name),
            arguments: clone_opt(&self.arguments),
            output: clone_opt(&self.output),
        }
    }
}

/// Cloning a [`ConversationItem`] keeps its value.
pub proof fn lemma_cloned_conversation_item()
    ensures
        forall|a: ConversationItem, b: ConversationItem| #[trigger] cloned::<ConversationItem>(a, b) ==> b@ == a@,
{
}

/// A rate limit reported by the server.
#[derive(Debug)]
pub struct RateLimit {
    pub name: String,
    pub limit: u64,
    pub remaining: u64,
    /// Seconds until reset, as `f64` bits.
    pub reset_seconds: u64,
}

/// The abstract value of a [`RateLimit`].
pub struct RateLimitView {
    pub name: Seq<char>,
    pub limit: u64,
    pub remaining: u64,
    pub reset_seconds: u64,
}

impl View for RateLimit {
    type V = RateLimitView;

    open spec fn view(&self) -> RateLimitView {
        RateLimitView {
            name: self.name@,
            limit: self.limit,
            remaining: self.remaining,
            reset_seconds: self.reset_seconds,
        }
    }
}

impl Clone for RateLimit {
    fn clone(&self) -> (r: Self)
        ensures
            r@ == self@,
    {
        RateLimit {
            name: self.name.clone(),
            limit: self.limit,
            remaining: self.remaining,
            reset_seconds: self.reset_seconds,
        }
    }
}

/// Cloning a [`RateLimit`] keeps its value.
pub proof fn lemma_cloned_rate_limit()
    ensures
        forall|a: RateLimit, b: RateLimit| #[trigger] cloned::<RateLimit>(a, b) ==> b@ == a@,
{
}

/// The detail of an error event.
#[derive(Debug)]
pub struct ErrorDetail {
    pub error_type: String,
    pub code: Option<String>,
    pub message: String,
    pub param: Option<String>,
    pub event_id: Option<String>,
}

/// The abstract value of a [`ErrorDetail`].
pub struct ErrorDetailView {
    pub error_type: Seq<char>,
    pub code: Option<Seq<char>>,
    pub message: Seq<char>,
    pub param: Option<Seq<char>>,
    pub event_id: Option<Seq<char>>,
}

impl View for ErrorDetail {
    type V = ErrorDetailView;

    open spec fn view(&self) -> ErrorDetailView {
        ErrorDetailView {
            error_type: self.error_type@,
            code: opt_view(self.code),
            message: self.message@,
            param: opt_view(self.param),
            event_id: opt_view(self.event_id),
        }
    }
}

impl Clone for ErrorDetail {
    fn clone(&self) -> (r: Self)
        ensures
            r@ == self@,
    {
        proof {
            lemma_cloned_string();
        }
        ErrorDetail {
            error_type: self.error_type.clone(),
            code: clone_opt(&self.code),
            message: self.message.clone(),
            param: clone_opt(&self.param),
            event_id: clone_opt(&self.event_id),
        }
    }
}

/// Cloning a [`ErrorDetail`] keeps its value.
pub proof fn lemma_cloned_error_detail()
    ensures
        forall|a: ErrorDetail, b: ErrorDetail| #[trigger] cloned::<ErrorDetail>(a, b) ==> b@ == a@,
{
}

// ============================================================
// Client events (client -> server)
// ============================================================

/// Events a client sends to the server.
#[derive(Debug)]
pub enum ClientEvent {
    SessionUpdate {
        session: SessionConfig,
        event_id: Option<String>,
    },
    ConversationItemCreate {
        item: ConversationItem,
        previous_item_id: Option<String>,
        event_id: Option<String>,
    },
    ConversationItemDelete {
        item_id: String,
        event_id: Option<String>,
    },
    ConversationItemTruncate {
        item_id: String,
        content_index: u32,
        audio_end_ms: u32,
        event_id: Option<String>,
    },
    ResponseCreate {
        response: Option<ResponseConfig>,
        event_id: Option<String>,
    },
    ResponseCancel {
        response_id: Option<String>,
        sample_count: Option<u32>,
        event_id: Option<String>,
    },
    InputAudioBufferAppend {
        audio: String,
        event_id: Option<String>,
    },
    InputAudioBufferCommit {
        event_id: Option<String>,
    },
    InputAudioBufferClear {
        event_id: Option<String>,
    },
}

/// The abstract value of a [`ClientEvent`].
pub enum ClientEventView {
    SessionUpdate {
        session: SessionConfigView,
        event_id: Option<Seq<char>>,
    },
    ConversationItemCreate {
        item: ConversationItemView,
        previous_item_id: Option<Seq<char>>,
        event_id: Option<Seq<char>>,
    },
    ConversationItemDelete {
        item_id: Seq<char>,
        event_id: Option<Seq<char>>,
    },
    ConversationItemTruncate {
        item_id: Seq<char>,
        content_index: u32,
        audio_end_ms: u32,
        event_id: Option<Seq<char>>,
    },
    ResponseCreate {
        response: Option<ResponseConfigView>,
        event_id: Option<Seq<char>>,
    },
    ResponseCancel {
        response_id: Option<Seq<char>>,
        sample_count: Option<u32>,
        event_id: Option<Seq<char>>,
    },
    InputAudioBufferAppend {
        audio: Seq<char>,
        event_id: Option<Seq<char>>,
    },
    InputAudioBufferCommit {
        event_id: Option<Seq<char>>,
    },
    InputAudioBufferClear {
        event_id: Option<Seq<char>>,
    },
}

impl View for ClientEvent {
    type V = ClientEventView;

    open spec fn view(&self) -> ClientEventView {
        match self {
            ClientEvent::SessionUpdate { session, event_id } => ClientEventView::SessionUpdate {
                session: session@,
                event_id: opt_view(*event_id),
            },
            ClientEvent::ConversationItemCreate { item, previous_item_id, event_id } => ClientEventView::ConversationItemCreate {
                item: item@,
                previous_item_id: opt_view(*previous_item_id),
                event_id: opt_view(*event_id),
            },
            ClientEvent::ConversationItemDelete { item_id, event_id } => ClientEventView::ConversationItemDelete {
                item_id: item_id@,
                event_id: opt_view(*event_id),
            },
            ClientEvent::ConversationItemTruncate { item_id, content_index, audio_end_ms, event_id } => ClientEventView::ConversationItemTruncate {
                item_id: item_id@,
                content_index: *content_index,
                audio_end_ms: *audio_end_ms,
                event_id: opt_view(*event_id),
            },
            ClientEvent::ResponseCreate { response, event_id } => ClientEventView::ResponseCreate {
                response: opt_view(*response),
                event_id: opt_view(*event_id),
            },
            ClientEvent::ResponseCancel { response_id, sample_count, event_id } => ClientEventView::ResponseCancel {
                response_id: opt_view(*response_id),
                sample_count: *sample_count,
                event_id: opt_view(*event_id),
            },
            ClientEvent::InputAudioBufferAppend { audio, event_id } => ClientEventView::InputAudioBufferAppend {
                audio: audio@,
                event_id: opt_view(*event_id),
            },
            ClientEvent::InputAudioBufferCommit { event_id } => ClientEventView::InputAudioBufferCommit {
                event_id: opt_view(*event_id),
            },
            ClientEvent::InputAudioBufferClear { event_id } => ClientEventView::InputAudioBufferClear {
                event_id: opt_view(*event_id),
            },
        }
    }
}

impl Clone for ClientEvent {
    fn clone(&self) -> (r: Self)
        ensures
            r@ == self@,
    {
        proof {
            lemma_cloned_conversation_item();
            lemma_cloned_response_config();
            lemma_cloned_session_config();
            lemma_cloned_string();
        }
        match self {
            ClientEvent::SessionUpdate { session, event_id } => ClientEvent::SessionUpdate {
                session: (*session).clone(),
                event_id: clone_opt(&(*event_id)),
            },
            ClientEvent::ConversationItemCreate { item, previous_item_id, event_id } => ClientEvent::ConversationItemCreate {
                item: (*item).clone(),
                previous_item_id: clone_opt(&(*previous_item_id)),
                event_id: clone_opt(&(*event_id)),
            },
            ClientEvent::ConversationItemDelete { item_id, event_id } => ClientEvent::ConversationItemDelete {
                item_id: (*item_id).clone(),
                event_id: clone_opt(&(*event_id)),
            },
            ClientEvent::ConversationItemTruncate { item_id, content_index, audio_end_ms, event_id } => ClientEvent::ConversationItemTruncate {
                item_id: (*item_id).clone(),
                content_index: (*content_index),
                audio_end_ms: (*audio_end_ms),
                event_id: clone_opt(&(*event_id)),
            },
            ClientEvent::ResponseCreate { response, event_id } => ClientEvent::ResponseCreate {
                response: clone_opt(&(*response)),
                event_id: clone_opt(&(*event_id)),
            },
            ClientEvent::ResponseCancel { response_id, sample_count, event_id } => ClientEvent::ResponseCancel {
                response_id: clone_opt(&(*response_id)),
                sample_count: (*sample_count),
                event_id: clone_opt(&(*event_id)),
            },
            ClientEvent::InputAudioBufferAppend { audio, event_id } => ClientEvent::InputAudioBufferAppend {
                audio: (*audio).clone(),
                event_id: clone_opt(&(*event_id)),
            },
            ClientEvent::InputAudioBufferCommit { event_id } => ClientEvent::InputAudioBufferCommit {
                event_id: clone_opt(&(*event_id)),
            },
            ClientEvent::InputAudioBufferClear { event_id } => ClientEvent::InputAudioBufferClear {
                event_id: clone_opt(&(*event_id)),
            },
        }
    }
}

/// Cloning a [`ClientEvent`] keeps its value.
pub proof fn lemma_cloned_client_event()
    ensures
        forall|a: ClientEvent, b: ClientEvent| #[trigger] cloned::<ClientEvent>(a, b) ==> b@ == a@,
{
}

// ============================================================
// Server events (server -> client)
// ============================================================

/// Events the server sends to a client.
#[derive(Debug)]
#[allow(inconsistent_fields)]
pub enum ServerEvent {
    SessionCreated {
        session: SessionState,
    },
    SessionUpdated {
        session: SessionState,
    },
    ConversationItemAdded {
        item: ConversationItem,
    },
    ConversationItemDone {
        item: ConversationItem,
    },
    ConversationItemInputAudioTranscriptionCompleted {
        item_id: String,
        content_index: u32,
        transcript: String,
    },
    /// The `error` field holds JSON text.
    ConversationItemInputAudioTranscriptionFailed {
        item_id: String,
        content_index: u32,
        error: String,
    },
    InputAudioBufferSpeechStarted {
        item_id: Option<String>,
        audio_start_ms: Option<u32>,
    },
    InputAudioBufferSpeechStopped {
        audio_end_ms: u32,
        item_id: Option<String>,
    },
    InputAudioBufferCommitted {
        item_id: String,
        previous_item_id: Option<String>,
    },
    ResponseCreated {
        response: ResponseState,
    },
    ResponseDone {
        response: ResponseState,
    },
    ResponseOutputItemAdded {
        response_id: String,
        item: ConversationItem,
        output_index: u32,
    },
    ResponseOutputItemDone {
        response_id: String,
        item: ConversationItem,
        output_index: u32,
    },
    ResponseContentPartAdded {
        response_id: String,
        item_id: String,
        output_index: u32,
        content_index: u32,
        part: Option<ContentPart>,
    },
    ResponseContentPartDone {
        response_id: String,
        item_id: String,
        output_index: u32,
        content_index: u32,
        part: Option<ContentPart>,
    },
    ResponseOutputAudioDelta {
        response_id: String,
        item_id: String,
        output_index: u32,
        content_index: u32,
        delta: String,
    },
    ResponseOutputAudioDone {
        response_id: String,
        item_id: String,
        output_index: u32,
        content_index: u32,
    },
    ResponseOutputAudioTranscriptDelta {
        response_id: String,
        item_id: String,
        output_index: u32,
        content_index: u32,
        delta: String,
    },
    ResponseOutputAudioTranscriptDone {
        response_id: String,
        item_id: String,
        output_index: u32,
        content_index: u32,
        transcript: String,
    },
    ResponseOutputTextDelta {
        response_id: String,
        item_id: String,
        output_index: u32,
        content_index: u32,
        delta: String,
    },
    ResponseOutputTextDone {
        response_id: String,
        item_id: String,
        output_index: u32,
        content_index: u32,
        text: String,
    },
    ResponseFunctionCallArgumentsDelta {
        response_id: String,
        item_id: String,
        output_index: u32,
        call_id: String,
        delta: String,
    },
    ResponseFunctionCallArgumentsDone {
        response_id: String,
        item_id: String,
        output_index: u32,
        call_id: String,
        name: String,
        arguments: String,
    },
    RateLimitsUpdated {
        rate_limits: Vec<RateLimit>,
    },
    Error {
        error: ErrorDetail,
    },
    /// Any event type not listed here.
    Unknown,
}

/// The abstract value of a [`ServerEvent`].
#[allow(inconsistent_fields)]
pub enum ServerEventView {
    SessionCreated {
        session: SessionStateView,
    },
    SessionUpdated {
        session: SessionStateView,
    },
    ConversationItemAdded {
        item: ConversationItemView,
    },
    ConversationItemDone {
        item: ConversationItemView,
    },
    ConversationItemInputAudioTranscriptionCompleted {
        item_id: Seq<char>,
        content_index: u32,
        transcript: Seq<char>,
    },
    ConversationItemInputAudioTranscriptionFailed {
        item_id: Seq<char>,
        content_index: u32,
        error: Seq<char>,
    },
    InputAudioBufferSpeechStarted {
        item_id: Option<Seq<char>>,
        audio_start_ms: Option<u32>,
    },
    InputAudioBufferSpeechStopped {
        audio_end_ms: u32,
        item_id: Option<Seq<char>>,
    },
    InputAudioBufferCommitted {
        item_id: Seq<char>,
        previous_item_id: Option<Seq<char>>,
    },
    ResponseCreated {
        response: ResponseStateView,
    },
    ResponseDone {
        response: ResponseStateView,
    },
    ResponseOutputItemAdded {
        response_id: Seq<char>,
        item: ConversationItemView,
        output_index: u32,
    },
    ResponseOutputItemDone {
        response_id: Seq<char>,
        item: ConversationItemView,
        output_index: u32,
    },
    ResponseContentPartAdded {
        response_id: Seq<char>,
        item_id: Seq<char>,
        output_index: u32,
        content_index: u32,
        part: Option<ContentPartView>,
    },
    ResponseContentPartDone {
        response_id: Seq<char>,
        item_id: Seq<char>,
        output_index: u32,
        content_index: u32,
        part: Option<ContentPartView>,
    },
    ResponseOutputAudioDelta {
        response_id: Seq<char>,
        item_id: Seq<char>,
        output_index: u32,
        content_index: u32,
        delta: Seq<char>,
    },
    ResponseOutputAudioDone {
        response_id: Seq<char>,
        item_id: Seq<char>,
        output_index: u32,
        content_index: u32,
    },
    ResponseOutputAudioTranscriptDelta {
        response_id: Seq<char>,
        item_id: Seq<char>,
        output_index: u32,
        content_index: u32,
        delta: Seq<char>,
    },
    ResponseOutputAudioTranscriptDone {
        response_id: Seq<char>,
        item_id: Seq<char>,
        output_index: u32,
        content_index: u32,
        transcript: Seq<char>,
    },
    ResponseOutputTextDelta {
        response_id: Seq<char>,
        item_id: Seq<char>,
        output_index: u32,
        content_index: u32,
        delta: Seq<char>,
    },
    ResponseOutputTextDone {
        response_id: Seq<char>,
        item_id: Seq<char>,
        output_index: u32,
        content_index: u32,
        text: Seq<char>,
    },
    ResponseFunctionCallArgumentsDelta {
        response_id: Seq<char>,
        item_id: Seq<char>,
        output_index: u32,
        call_id: Seq<char>,
        delta: Seq<char>,
    },
    ResponseFunctionCallArgumentsDone {
        response_id: Seq<char>,
        item_id: Seq<char>,
        output_index: u32,
        call_id: Seq<char>,
        name: Seq<char>,
        arguments: Seq<char>,
    },
    RateLimitsUpdated {
        rate_limits: Seq<RateLimitView>,
    },
    Error {
        error: ErrorDetailView,
    },
    Unknown,
}

impl View for ServerEvent {
    type V = ServerEventView;

    open spec fn view(&self) -> ServerEventView {
        match self {
            ServerEvent::SessionCreated { session } => ServerEventView::SessionCreated {
                session: session@,
            },
            ServerEvent::SessionUpdated { session } => ServerEventView::SessionUpdated {
                session: session@,
            },
            ServerEvent::ConversationItemAdded { item } => ServerEventView::ConversationItemAdded {
                item: item@,
            },
            ServerEvent::ConversationItemDone { item } => ServerEventView::ConversationItemDone {
                item: item@,
            },
            ServerEvent::ConversationItemInputAudioTranscriptionCompleted { item_id, content_index, transcript } => ServerEventView::ConversationItemInputAudioTranscriptionCompleted {
                item_id: item_id@,
                content_index: *content_index,
                transcript: transcript@,
            },
            ServerEvent::ConversationItemInputAudioTranscriptionFailed { item_id, content_index, error } => ServerEventView::ConversationItemInputAudioTranscriptionFailed {
                item_id: item_id@,
                content_index: *content_index,
                error: error@,
            },
            ServerEvent::InputAudioBufferSpeechStarted { item_id, audio_start_ms } => ServerEventView::InputAudioBufferSpeechStarted {
                item_id: opt_view(*item_id),
                audio_start_ms: *audio_start_ms,
            },
            ServerEvent::InputAudioBufferSpeechStopped { audio_end_ms, item_id } => ServerEventView::InputAudioBufferSpeechStopped {
                audio_end_ms: *audio_end_ms,
                item_id: opt_view(*item_id),
            },
            ServerEvent::InputAudioBufferCommitted { item_id, previous_item_id } => ServerEventView::InputAudioBufferCommitted {
                item_id: item_id@,
                previous_item_id: opt_view(*previous_item_id),
            },
            ServerEvent::ResponseCreated { response } => ServerEventView::ResponseCreated {
                response: response@,
            },
            ServerEvent::ResponseDone { response } => ServerEventView::ResponseDone {
                response: response@,
            },
            ServerEvent::ResponseOutputItemAdded { response_id, item, output_index } => ServerEventView::ResponseOutputItemAdded {
                response_id: response_id@,
                item: item@,
                output_index: *output_index,
            },
            ServerEvent::ResponseOutputItemDone { response_id, item, output_index } => ServerEventView::ResponseOutputItemDone {
                response_id: response_id@,
                item: item@,
                output_index: *output_index,
            },
            ServerEvent::ResponseContentPartAdded { response_id, item_id, output_index, content_index, part } => ServerEventView::ResponseContentPartAdded {
                response_id: response_id@,
                item_id: item_id@,
                output_index: *output_index,
                content_index: *content_index,
                part: opt_view(*part),
            },
            ServerEvent::ResponseContentPartDone { response_id, item_id, output_index, content_index, part } => ServerEventView::ResponseContentPartDone {
                response_id: response_id@,
                item_id: item_id@,
                output_index: *output_index,
                content_index: *content_index,
                part: opt_view(*part),
            },
            ServerEvent::ResponseOutputAudioDelta { response_id, item_id, output_index, content_index, delta } => ServerEventView::ResponseOutputAudioDelta {
                response_id: response_id@,
                item_id: item_id@,
                output_index: *output_index,
                content_index: *content_index,
                delta: delta@,
            },
            ServerEvent::ResponseOutputAudioDone { response_id, item_id, output_index, content_index } => ServerEventView::ResponseOutputAudioDone {
                response_id: response_id@,
                item_id: item_id@,
                output_index: *output_index,
                content_index: *content_index,
            },
            ServerEvent::ResponseOutputAudioTranscriptDelta { response_id, item_id, output_index, content_index, delta } => ServerEventView::ResponseOutputAudioTranscriptDelta {
                response_id: response_id@,
                item_id: item_id@,
                output_index: *output_index,
                content_index: *content_index,
                delta: delta@,
            },
            ServerEvent::ResponseOutputAudioTranscriptDone { response_id, item_id, output_index, content_index, transcript } => ServerEventView::ResponseOutputAudioTranscriptDone {
                response_id: response_id@,
                item_id: item_id@,
                output_index: *output_index,
                content_index: *content_index,
                transcript: transcript@,
            },
            ServerEvent::ResponseOutputTextDelta { response_id, item_id, output_index, content_index, delta } => ServerEventView::ResponseOutputTextDelta {
                response_id: response_id@,
                item_id: item_id@,
                output_index: *output_index,
                content_index: *content_index,
                delta: delta@,
            },
            ServerEvent::ResponseOutputTextDone { response_id, item_id, output_index, content_index, text } => ServerEventView::ResponseOutputTextDone {
                response_id: response_id@,
                item_id: item_id@,
                output_index: *output_index,
                content_index: *content_index,
                text: text@,
            },
            ServerEvent::ResponseFunctionCallArgumentsDelta { response_id, item_id, output_index, call_id, delta } => ServerEventView::ResponseFunctionCallArgumentsDelta {
                response_id: response_id@,
                item_id: item_id@,
                output_index: *output_index,
                call_id: call_id@,
                delta: delta@,
            },
            ServerEvent::ResponseFunctionCallArgumentsDone { response_id, item_id, output_index, call_id, name, arguments } => ServerEventView::ResponseFunctionCallArgumentsDone {
                response_id: response_id@,
                item_id: item_id@,
                output_index: *output_index,
                call_id: call_id@,
                name: name@,
                arguments: arguments@,
            },
            ServerEvent::RateLimitsUpdated { rate_limits } => ServerEventView::RateLimitsUpdated {
                rate_limits: views_of(rate_limits@),
            },
            ServerEvent::Error { error } => ServerEventView::Error {
                error: error@,
            },
            ServerEvent::Unknown => ServerEventView::Unknown,
        }
    }
}

impl Clone for ServerEvent {
    fn clone(&self) -> (r: Self)
        ensures
            r@ == self@,
    {
        proof {
            lemma_cloned_content_part();
            lemma_cloned_conversation_item();
            lemma_cloned_error_detail();
            lemma_cloned_rate_limit();
            lemma_cloned_response_state();
            lemma_cloned_session_state();
            lemma_cloned_string();
        }
        match self {
            ServerEvent::SessionCreated { session } => ServerEvent::SessionCreated {
                session: (*session).clone(),
            },
            ServerEvent::SessionUpdated { session } => ServerEvent::SessionUpdated {
                session: (*session).clone(),
            },
            ServerEvent::ConversationItemAdded { item } => ServerEvent::ConversationItemAdded {
                item: (*item).clone(),
            },
            ServerEvent::ConversationItemDone { item } => ServerEvent::ConversationItemDone {
                item: (*item).clone(),
            },
            ServerEvent::ConversationItemInputAudioTranscriptionCompleted { item_id, content_index, transcript } => ServerEvent::ConversationItemInputAudioTranscriptionCompleted {
                item_id: (*item_id).clone(),
                content_index: (*content_index),
                transcript: (*transcript).clone(),
            },
            ServerEvent::ConversationItemInputAudioTranscriptionFailed { item_id, content_index, error } => ServerEvent::ConversationItemInputAudioTranscriptionFailed {
                item_id: (*item_id).clone(),
                content_index: (*content_index),
                error: (*error).clone(),
            },
            ServerEvent::InputAudioBufferSpeechStarted { item_id, audio_start_ms } => ServerEvent::InputAudioBufferSpeechStarted {
                item_id: clone_opt(&(*item_id)),
                audio_start_ms: (*audio_start_ms),
            },
            ServerEvent::InputAudioBufferSpeechStopped { audio_end_ms, item_id } => ServerEvent::InputAudioBufferSpeechStopped {
                audio_end_ms: (*audio_end_ms),
                item_id: clone_opt(&(*item_id)),
            },
            ServerEvent::InputAudioBufferCommitted { item_id, previous_item_id } => ServerEvent::InputAudioBufferCommitted {
                item_id: (*item_id).clone(),
                previous_item_id: clone_opt(&(*previous_item_id)),
            },
            ServerEvent::ResponseCreated { response } => ServerEvent::ResponseCreated {
                response: (*response).clone(),
            },
            ServerEvent::ResponseDone { response } => ServerEvent::ResponseDone {
                response: (*response).clone(),
            },
            ServerEvent::ResponseOutputItemAdded { response_id, item, output_index } => ServerEvent::ResponseOutputItemAdded {
                response_id: (*response_id).clone(),
                item: (*item).clone(),
                output_index: (*output_index),
            },
            ServerEvent::ResponseOutputItemDone { response_id, item, output_index } => ServerEvent::ResponseOutputItemDone {
                response_id: (*response_id).clone(),
                item: (*item).clone(),
                output_index: (*output_index),
            },
            ServerEvent::ResponseContentPartAdded { response_id, item_id, output_index, content_index, part } => ServerEvent::ResponseContentPartAdded {
                response_id: (*response_id).clone(),
                item_id: (*item_id).clone(),
                output_index: (*output_index),
                content_index: (*content_index),
                part: clone_opt(&(*part)),
            },
            ServerEvent::ResponseContentPartDone { response_id, item_id, output_index, content_index, part } => ServerEvent::ResponseContentPartDone {
                response_id: (*response_id).clone(),
                item_id: (*item_id).clone(),
                output_index: (*output_index),
                content_index: (*content_index),
                part: clone_opt(&(*part)),
            },
            ServerEvent::ResponseOutputAudioDelta { response_id, item_id, output_index, content_index, delta } => ServerEvent::ResponseOutputAudioDelta {
                response_id: (*response_id).clone(),
                item_id: (*item_id).clone(),
                output_index: (*output_index),
                content_index: (*content_index),
                delta: (*delta).clone(),
            },
            ServerEvent::ResponseOutputAudioDone { response_id, item_id, output_index, content_index } => ServerEvent::ResponseOutputAudioDone {
                response_id: (*response_id).clone(),
                item_id: (*item_id).clone(),
                output_index: (*output_index),
                content_index: (*content_index),
            },
            ServerEvent::ResponseOutputAudioTranscriptDelta { response_id, item_id, output_index, content_index, delta } => ServerEvent::ResponseOutputAudioTranscriptDelta {
                response_id: (*response_id).clone(),
                item_id: (*item_id).clone(),
                output_index: (*output_index),
                content_index: (*content_index),
                delta: (*delta).clone(),
            },
            ServerEvent::ResponseOutputAudioTranscriptDone { response_id, item_id, output_index, content_index, transcript } => ServerEvent::ResponseOutputAudioTranscriptDone {
                response_id: (*response_id).clone(),
                item_id: (*item_id).clone(),
                output_index: (*output_index),
                content_index: (*content_index),
                transcript: (*transcript).clone(),
            },
            ServerEvent::ResponseOutputTextDelta { response_id, item_id, output_index, content_index, delta } => ServerEvent::ResponseOutputTextDelta {
                response_id: (*response_id).clone(),
                item_id: (*item_id).clone(),
                output_index: (*output_index),
                content_index: (*content_index),
                delta: (*delta).clone(),
            },
            ServerEvent::ResponseOutputTextDone { response_id, item_id, output_index, content_index, text } => ServerEvent::ResponseOutputTextDone {
                response_id: (*response_id).clone(),
                item_id: (*item_id).clone(),
                output_index: (*output_index),
                content_index: (*content_index),
                text: (*text).clone(),
            },
            ServerEvent::ResponseFunctionCallArgumentsDelta { response_id, item_id, output_index, call_id, delta } => ServerEvent::ResponseFunctionCallArgumentsDelta {
                response_id: (*response_id).clone(),
                item_id: (*item_id).clone(),
                output_index: (*output_index),
                call_id: (*call_id).clone(),
                delta: (*delta).clone(),
            },
            ServerEvent::ResponseFunctionCallArgumentsDone { response_id, item_id, output_index, call_id, name, arguments } => ServerEvent::ResponseFunctionCallArgumentsDone {
                response_id: (*response_id).clone(),
                item_id: (*item_id).clone(),
                output_index: (*output_index),
                call_id: (*call_id).clone(),
                name: (*name).clone(),
                arguments: (*arguments).clone(),
            },
            ServerEvent::RateLimitsUpdated { rate_limits } => ServerEvent::RateLimitsUpdated {
                rate_limits: clone_vec(&(*rate_limits)),
            },
            ServerEvent::Error { error } => ServerEvent::Error {
                error: (*error).clone(),
            },
            ServerEvent::Unknown => ServerEvent::Unknown,
        }
    }
}

/// Cloning a [`ServerEvent`] keeps its value.
pub proof fn lemma_cloned_server_event()
    ensures
        forall|a: ServerEvent, b: ServerEvent| #[trigger] cloned::<ServerEvent>(a, b) ==> b@ == a@,
{
}

// ============================================================
// Defaults and event names
// ============================================================

impl Default for AudioFormat {
    /// PCM at 24000 Hz.
    fn default() -> (f: Self)
        ensures
            f@ == (AudioFormatView::Object { format_type: "audio/pcm"@, rate: 24000 }),
    {
        AudioFormat::Object { format_type: String::from_str("audio/pcm"), rate: 24000 }
    }
}

impl Default for TurnDetection {
    fn default() -> (t: Self)
        ensures
            t@.turn_type == Seq::<char>::empty(),
            t@.threshold is None,
            t@.silence_duration_ms is None,
            t@.prefix_padding_ms is None,
            t@.create_response is None,
            t@.interrupt_response is None,
            t@.idle_timeout_ms is None,
    {
        TurnDetection {
            turn_type: String::new(),
            threshold: None,
            silence_duration_ms: None,
            prefix_padding_ms: None,
            create_response: None,
            interrupt_response: None,
            idle_timeout_ms: None,
        }
    }
}

impl SessionConfigView {
    /// The configuration that changes nothing.
    pub open spec fn empty() -> SessionConfigView {
        SessionConfigView {
            model: None,
            modalities: None,
            instructions: None,
            voice: None,
            input_audio_format: None,
            output_audio_format: None,
            input_audio_transcription: None,
            turn_detection: None,
            tools: None,
            tool_choice: None,
            temperature: None,
            max_response_output_tokens: None,
            reasoning: None,
        }
    }
}

impl Default for SessionConfig {
    /// The configuration that changes nothing.
    fn default() -> (c: Self)
        ensures
            c@ == SessionConfigView::empty(),
    {
        SessionConfig {
            model: None,
            modalities: None,
            instructions: None,
            voice: None,
            input_audio_format: None,
            output_audio_format: None,
            input_audio_transcription: None,
            turn_detection: None,
            tools: None,
            tool_choice: None,
            temperature: None,
            max_response_output_tokens: None,
            reasoning: None,
        }
    }
}

impl ClientEventView {
    /// The position of the event's kind among the kinds of client event.
    pub open spec fn kind(self) -> nat {
        match self {
            ClientEventView::SessionUpdate { .. } => 0,
            ClientEventView::ConversationItemCreate { .. } => 1,
            ClientEventView::ConversationItemDelete { .. } => 2,
            ClientEventView::ConversationItemTruncate { .. } => 3,
            ClientEventView::ResponseCreate { .. } => 4,
            ClientEventView::ResponseCancel { .. } => 5,
            ClientEventView::InputAudioBufferAppend { .. } => 6,
            ClientEventView::InputAudioBufferCommit { .. } => 7,
            ClientEventView::InputAudioBufferClear { .. } => 8,
        }
    }

    /// The `type` tag of the event on the wire.
    pub open spec fn wire_name(self) -> Seq<char> {
        match self {
            ClientEventView::SessionUpdate { .. } => "session.update"@,
            ClientEventView::ConversationItemCreate { .. } => "conversation.item.create"@,
            ClientEventView::ConversationItemDelete { .. } => "conversation.item.delete"@,
            ClientEventView::ConversationItemTruncate { .. } => "conversation.item.truncate"@,
            ClientEventView::ResponseCreate { .. } => "response.create"@,
            ClientEventView::ResponseCancel { .. } => "response.cancel"@,
            ClientEventView::InputAudioBufferAppend { .. } => "input_audio_buffer.append"@,
            ClientEventView::InputAudioBufferCommit { .. } => "input_audio_buffer.commit"@,
            ClientEventView::InputAudioBufferClear { .. } => "input_audio_buffer.clear"@,
        }
    }
}

impl ClientEvent {
    /// The `type` tag of the event on the wire.
    pub fn event_type(&self) -> (t: &'static str)
        ensures
            t@ == self@.wire_name(),
    {
        match self {
            ClientEvent::SessionUpdate { .. } => "session.update",
            ClientEvent::ConversationItemCreate { .. } => "conversation.item.create",
            ClientEvent::ConversationItemDelete { .. } => "conversation.item.delete",
            ClientEvent::ConversationItemTruncate { .. } => "conversation.item.truncate",
            ClientEvent::ResponseCreate { .. } => "response.create",
            ClientEvent::ResponseCancel { .. } => "response.cancel",
            ClientEvent::InputAudioBufferAppend { .. } => "input_audio_buffer.append",
            ClientEvent::InputAudioBufferCommit { .. } => "input_audio_buffer.commit",
            ClientEvent::InputAudioBufferClear { .. } => "input_audio_buffer.clear",
        }
    }
}

impl ServerEventView {
    /// The position of the event's kind among the kinds of server event.
    pub open spec fn kind(self) -> nat {
        match self {
            ServerEventView::SessionCreated { .. } => 0,
            ServerEventView::SessionUpdated { .. } => 1,
            ServerEventView::ConversationItemAdded { .. } => 2,
            ServerEventView::ConversationItemDone { .. } => 3,
            ServerEventView::ConversationItemInputAudioTranscriptionCompleted { .. } => 4,
            ServerEventView::ConversationItemInputAudioTranscriptionFailed { .. } => 5,
            ServerEventView::InputAudioBufferSpeechStarted { .. } => 6,
            ServerEventView::InputAudioBufferSpeechStopped { .. } => 7,
            ServerEventView::InputAudioBufferCommitted { .. } => 8,
            ServerEventView::ResponseCreated { .. } => 9,
            ServerEventView::ResponseDone { .. } => 10,
            ServerEventView::ResponseOutputItemAdded { .. } => 11,
            ServerEventView::ResponseOutputItemDone { .. } => 12,
            ServerEventView::ResponseContentPartAdded { .. } => 13,
            ServerEventView::ResponseContentPartDone { .. } => 14,
            ServerEventView::ResponseOutputAudioDelta { .. } => 15,
            ServerEventView::ResponseOutputAudioDone { .. } => 16,
            ServerEventView::ResponseOutputAudioTranscriptDelta { .. } => 17,
            ServerEventView::ResponseOutputAudioTranscriptDone { .. } => 18,
            ServerEventView::ResponseOutputTextDelta { .. } => 19,
            ServerEventView::ResponseOutputTextDone { .. } => 20,
            ServerEventView::ResponseFunctionCallArgumentsDelta { .. } => 21,
            ServerEventView::ResponseFunctionCallArgumentsDone { .. } => 22,
            ServerEventView::RateLimitsUpdated { .. } => 23,
            ServerEventView::Error { .. } => 24,
            ServerEventView::Unknown => 25,
        }
    }

    /// The `type` tag of the event on the wire.
    pub open spec fn wire_name(self) -> Seq<char> {
        match self {
            ServerEventView::SessionCreated { .. } => "session.created"@,
            ServerEventView::SessionUpdated { .. } => "session.updated"@,
            ServerEventView::ConversationItemAdded { .. } => "conversation.item.added"@,
            ServerEventView::ConversationItemDone { .. } => "conversation.item.done"@,
            ServerEventView::ConversationItemInputAudioTranscriptionCompleted { .. } => "conversation.item.input_audio_transcription.completed"@,
            ServerEventView::ConversationItemInputAudioTranscriptionFailed { .. } => "conversation.item.input_audio_transcription.failed"@,
            ServerEventView::InputAudioBufferSpeechStarted { .. } => "input_audio_buffer.speech_started"@,
            ServerEventView::InputAudioBufferSpeechStopped { .. } => "input_audio_buffer.speech_stopped"@,
            ServerEventView::InputAudioBufferCommitted { .. } => "input_audio_buffer.committed"@,
            ServerEventView::ResponseCreated { .. } => "response.created"@,
            ServerEventView::ResponseDone { .. } => "response.done"@,
            ServerEventView::ResponseOutputItemAdded { .. } => "response.output_item.added"@,
            ServerEventView::ResponseOutputItemDone { .. } => "response.output_item.done"@,
            ServerEventView::ResponseContentPartAdded { .. } => "response.content_part.added"@,
            ServerEventView::ResponseContentPartDone { .. } => "response.content_part.done"@,
            ServerEventView::ResponseOutputAudioDelta { .. } => "response.output_audio.delta"@,
            ServerEventView::ResponseOutputAudioDone { .. } => "response.output_audio.done"@,
            ServerEventView::ResponseOutputAudioTranscriptDelta { .. } => "response.output_audio_transcript.delta"@,
            ServerEventView::ResponseOutputAudioTranscriptDone { .. } => "response.output_audio_transcript.done"@,
            ServerEventView::ResponseOutputTextDelta { .. } => "response.output_text.delta"@,
            ServerEventView::ResponseOutputTextDone { .. } => "response.output_text.done"@,
            ServerEventView::ResponseFunctionCallArgumentsDelta { .. } => "response.function_call_arguments.delta"@,
            ServerEventView::ResponseFunctionCallArgumentsDone { .. } => "response.function_call_arguments.done"@,
            ServerEventView::RateLimitsUpdated { .. } => "rate_limits.updated"@,
            ServerEventView::Error { .. } => "error"@,
            ServerEventView::Unknown => "unknown"@,
        }
    }
}

impl ServerEvent {
    /// The `type` tag of the event on the wire.
    pub fn event_type(&self) -> (t: &'static str)
        ensures
            t@ == self@.wire_name(),
    {
        match self {
            ServerEvent::SessionCreated { .. } => "session.created",
            ServerEvent::SessionUpdated { .. } => "session.updated",
            ServerEvent::ConversationItemAdded { .. } => "conversation.item.added",
            ServerEvent::ConversationItemDone { .. } => "conversation.item.done",
            ServerEvent::ConversationItemInputAudioTranscriptionCompleted { .. } => "conversation.item.input_audio_transcription.completed",
            ServerEvent::ConversationItemInputAudioTranscriptionFailed { .. } => "conversation.item.input_audio_transcription.failed",
            ServerEvent::InputAudioBufferSpeechStarted { .. } => "input_audio_buffer.speech_started",
            ServerEvent::InputAudioBufferSpeechStopped { .. } => "input_audio_buffer.speech_stopped",
            ServerEvent::InputAudioBufferCommitted { .. } => "input_audio_buffer.committed",
            ServerEvent::ResponseCreated { .. } => "response.created",
            ServerEvent::ResponseDone { .. } => "response.done",
            ServerEvent::ResponseOutputItemAdded { .. } => "response.output_item.added",
            ServerEvent::ResponseOutputItemDone { .. } => "response.output_item.done",
            ServerEvent::ResponseContentPartAdded { .. } => "response.content_part.added",
            ServerEvent::ResponseContentPartDone { .. } => "response.content_part.done",
            ServerEvent::ResponseOutputAudioDelta { .. } => "response.output_audio.delta",
            ServerEvent::ResponseOutputAudioDone { .. } => "response.output_audio.done",
            ServerEvent::ResponseOutputAudioTranscriptDelta { .. } => "response.output_audio_transcript.delta",
            ServerEvent::ResponseOutputAudioTranscriptDone { .. } => "response.output_audio_transcript.done",
            ServerEvent::ResponseOutputTextDelta { .. } => "response.output_text.delta",
            ServerEvent::ResponseOutputTextDone { .. } => "response.output_text.done",
            ServerEvent::ResponseFunctionCallArgumentsDelta { .. } => "response.function_call_arguments.delta",
            ServerEvent::ResponseFunctionCallArgumentsDone { .. } => "response.function_call_arguments.done",
            ServerEvent::RateLimitsUpdated { .. } => "rate_limits.updated",
            ServerEvent::Error { .. } => "error",
            ServerEvent::Unknown => "unknown",
        }
    }
}


/// Distinct kinds of client event have distinct wire names, so the `type`
/// tag identifies the kind of event.
pub proof fn lemma_client_wire_names_distinct(a: ClientEventView, b: ClientEventView)
    ensures
        a.wire_name() == b.wire_name() <==> a.kind() == b.kind(),
{
    reveal_strlit("session.update");
    reveal_strlit("conversation.item.create");
    reveal_strlit("conversation.item.delete");
    reveal_strlit("conversation.item.truncate");
    reveal_strlit("response.create");
    reveal_strlit("response.cancel");
    reveal_strlit("input_audio_buffer.append");
    reveal_strlit("input_audio_buffer.commit");
    reveal_strlit("input_audio_buffer.clear");
    assert("session.update"@.len() == 14);
    assert("conversation.item.create"@.len() == 24);
    assert("conversation.item.delete"@.len() == 24);
    assert("conversation.item.truncate"@.len() == 26);
    assert("response.create"@.len() == 15);
    assert("response.cancel"@.len() == 15);
    assert("input_audio_buffer.append"@.len() == 25);
    assert("input_audio_buffer.commit"@.len() == 25);
    assert("input_audio_buffer.clear"@.len() == 24);
    assert("conversation.item.create"@[18] == 'c');
    assert("conversation.item.delete"@[18] == 'd');
    assert("conversation.item.create"@[0] == 'c');
    assert("input_audio_buffer.clear"@[0] == 'i');
    assert("conversation.item.delete"@[0] == 'c');
    assert("response.cancel"@[10] == 'a');
    assert("response.create"@[10] == 'r');
    assert("input_audio_buffer.append"@[19] == 'a');
    assert("input_audio_buffer.commit"@[19] == 'c');
}

/// Distinct kinds of server event have distinct wire names, so the `type`
/// tag identifies the kind of event.
pub proof fn lemma_server_wire_names_distinct(a: ServerEventView, b: ServerEventView)
    ensures
        a.wire_name() == b.wire_name() <==> a.kind() == b.kind(),
{
    reveal_strlit("session.created");
    reveal_strlit("session.updated");
    reveal_strlit("conversation.item.added");
    reveal_strlit("conversation.item.done");
    reveal_strlit("conversation.item.input_audio_transcription.completed");
    reveal_strlit("conversation.item.input_audio_transcription.failed");
    reveal_strlit("input_audio_buffer.speech_started");
    reveal_strlit("input_audio_buffer.speech_stopped");
    reveal_strlit("input_audio_buffer.committed");
    reveal_strlit("response.created");
    reveal_strlit("response.done");
    reveal_strlit("response.output_item.added");
    reveal_strlit("response.output_item.done");
    reveal_strlit("response.content_part.added");
    reveal_strlit("response.content_part.done");
    reveal_strlit("response.output_audio.delta");
    reveal_strlit("response.output_audio.done");
    reveal_strlit("response.output_audio_transcript.delta");
    reveal_strlit("response.output_audio_transcript.done");
    reveal_strlit("response.output_text.delta");
    reveal_strlit("response.output_text.done");
    reveal_strlit("response.function_call_arguments.delta");
    reveal_strlit("response.function_call_arguments.done");
    reveal_strlit("rate_limits.updated");
    reveal_strlit("error");
    reveal_strlit("unknown");
    assert("session.created"@.len() == 15);
    assert("session.updated"@.len() == 15);
    assert("conversation.item.added"@.len() == 23);
    assert("conversation.item.done"@.len() == 22);
    assert("conversation.item.input_audio_transcription.completed"@.len() == 53);
    assert("conversation.item.input_audio_transcription.failed"@.len() == 50);
    assert("input_audio_buffer.speech_started"@.len() == 33);
    assert("input_audio_buffer.speech_stopped"@.len() == 33);
    assert("input_audio_buffer.committed"@.len() == 28);
    assert("response.created"@.len() == 16);
    assert("response.done"@.len() == 13);
    assert("response.output_item.added"@.len() == 26);
    assert("response.output_item.done"@.len() == 25);
    assert("response.content_part.added"@.len() == 27);
    assert("response.content_part.done"@.len() == 26);
    assert("response.output_audio.delta"@.len() == 27);
    assert("response.output_audio.done"@.len() == 26);
    assert("response.output_audio_transcript.delta"@.len() == 38);
    assert("response.output_audio_transcript.done"@.len() == 37);
    assert("response.output_text.delta"@.len() == 26);
    assert("response.output_text.done"@.len() == 25);
    assert("response.function_call_arguments.delta"@.len() == 38);
    assert("response.function_call_arguments.done"@.len() == 37);
    assert("rate_limits.updated"@.len() == 19);
    assert("error"@.len() == 5);
    assert("unknown"@.len() == 7);
    assert("session.created"@[8] == 'c');
    assert("session.updated"@[8] == 'u');
    assert("input_audio_buffer.speech_started"@[28] == 'a');
    assert("input_audio_buffer.speech_stopped"@[28] == 'o');
    assert("response.output_item.added"@[16] == 'i');
    assert("response.output_text.delta"@[16] == 't');
    assert("response.output_item.done"@[16] == 'i');
    assert("response.output_text.done"@[16] == 't');
    assert("response.content_part.added"@[9] == 'c');
    assert("response.output_audio.delta"@[9] == 'o');
    assert("response.content_part.done"@[9] == 'c');
    assert("response.output_item.added"@[9] == 'o');
    assert("response.output_audio.done"@[9] == 'o');
    assert("response.output_text.delta"@[9] == 'o');
    assert("response.output_audio.done"@[16] == 'a');
    assert("response.function_call_arguments.delta"@[9] == 'f');
    assert("response.output_audio_transcript.delta"@[9] == 'o');
    assert("response.function_call_arguments.done"@[9] == 'f');
    assert("response.output_audio_transcript.done"@[9] == 'o');
}

} // verus!
