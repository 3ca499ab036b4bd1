//! The decision core of a local realtime session server.
//!
//! A [`SessionHandler`] holds one session's state and turns each client event
//! into the server events to send back. It answers with scripted language
//! model responses; speech audio for a response is obtained from a
//! synthesizer function given by the caller. Client events are handled one
//! at a time, in arrival order.

use vstd::prelude::*;
use crate::audio::{base64_encoding, pcm_to_base64};
use crate::events::{
    assistant_message, completed_output, initial_session, make_assistant_message,
    make_completed_output, make_initial_session, make_output_content, make_response,
    make_text_part, make_usage, output_content, response_view, text_of, text_part, usage_view,
};
use crate::ids::{clock_id_text, decimal_text, id_text, make_id, push_decimal, uuid_simple};
use crate::pipeline::{stream_tokens, stream_tokens_of, FakeLlm, FakeLlmView};
use crate::protocol::{
    views_of, ClientEvent, ClientEventView,
    ContentPart, ContentPartView, ConversationItem, ConversationItemView, OutputContent,
    OutputContentView, ResponseOutputItem, ResponseOutputItemView, ServerEvent, ServerEventView,
    SessionConfig, SessionConfigView, SessionState, SessionStateView, Tool, ToolView,
};
use crate::text::{contains_str, is_substring, to_lowercase, unicode_lowercase};

verus! {

// ============================================================
// Model
// ============================================================

/// The instructions of a new server session.
pub open spec fn server_instructions() -> Seq<char> {
    "You are a helpful assistant running on a local test server."@
}

/// The scripted language model that answers every response.
pub open spec fn server_llm_model() -> FakeLlmView {
    FakeLlmView {
        responses: Map::<Seq<char>, Seq<char>>::empty().insert(
            unicode_lowercase("hello"@),
            "Hello! I'm a local test server. How can I help you today?"@,
        ).insert(unicode_lowercase("what is 2+2"@), "4"@).insert(
            unicode_lowercase("what is 1+1"@),
            "2"@,
        ).insert(unicode_lowercase("what is 5 times 7"@), "35"@).insert(
            unicode_lowercase("my name is alice"@),
            "Nice to meet you, Alice!"@,
        ).insert(
            unicode_lowercase("my name is alice. remember that."@),
            "Got it, Alice! I'll remember that."@,
        ).insert(unicode_lowercase("what is my name"@), "Your name is Alice."@).insert(
            unicode_lowercase("say hello"@),
            "Hello!"@,
        ).insert(unicode_lowercase("say hello world"@), "Hello world!"@).insert(
            unicode_lowercase("say hello world."@),
            "Hello world!"@,
        ).insert(unicode_lowercase("count from 1 to 100."@), "1, 2, 3, 4, 5, ... 100"@).insert(
            unicode_lowercase("count from 1 to 50."@),
            "1, 2, 3, ... 50"@,
        ).insert(unicode_lowercase("count from 1 to 50. iteration 0."@), "1, 2, 3, ... 50"@).insert(
            unicode_lowercase("count from 1 to 50. iteration 1."@),
            "1, 2, 3, ... 50"@,
        ).insert(unicode_lowercase("hi"@), "Hello!"@),
        default_response: "I received your message. This is the local test server."@,
    }
}

pub struct SessionHandlerView {
    pub session: SessionStateView,
    pub conversation: Seq<ConversationItemView>,
    pub tools: Seq<ToolView>,
    pub counter: nat,
    pub generating: bool,
}

/// A new session whose id is `sess_` followed by `id_suffix`: the initial
/// settings, an empty conversation, no tools, and no ids handed out yet.
pub open spec fn initial_handler(id_suffix: Seq<char>) -> SessionHandlerView {
    SessionHandlerView {
        session: initial_session(seq!['s', 'e', 's', 's', '_'] + id_suffix, server_instructions()),
        conversation: Seq::empty(),
        tools: Seq::empty(),
        counter: 0,
        generating: false,
    }
}

/// The text of the first input-text part among `parts`, or the empty text.
pub open spec fn first_input_text(parts: Seq<ContentPartView>) -> Seq<char>
    decreases parts.len(),
{
    if parts.len() == 0 {
        Seq::empty()
    } else {
        match parts[0] {
            ContentPartView::InputText { text, .. } => text,
            _ => first_input_text(parts.drop_first()),
        }
    }
}

/// The input text of the last user item of the conversation (the empty text
/// when there is none, or when that item has no input-text part).
pub open spec fn last_user_text(conv: Seq<ConversationItemView>) -> Seq<char>
    decreases conv.len(),
{
    if conv.len() == 0 {
        Seq::empty()
    } else if conv.last().role == "user"@ {
        first_input_text(conv.last().content)
    } else {
        last_user_text(conv.drop_last())
    }
}

/// Whether the user text asks for a tool: it mentions a registered tool's
/// name (both lower-cased) or one of the words weather, time, tool,
/// function, and some tool is registered.
pub open spec fn tool_requested(tools: Seq<ToolView>, user_text: Seq<char>) -> bool {
    let t = unicode_lowercase(user_text);
    exists|i: int|
        0 <= i < tools.len() && {
            ||| is_substring(unicode_lowercase(#[trigger] tools[i].name), t)
            ||| is_substring("weather"@, t)
            ||| is_substring("time"@, t)
            ||| is_substring("tool"@, t)
            ||| is_substring("function"@, t)
        }
}

/// The arguments the server invents for a call of the named tool.
pub open spec fn tool_arguments_for(name: Seq<char>) -> Seq<char> {
    if is_substring("weather"@, name) {
        "{\"location\": \"Paris\"}"@
    } else if is_substring("time"@, name) {
        "{\"location\": \"UTC\"}"@
    } else {
        "{}"@
    }
}

/// The content type of the response parts: text when the session outputs
/// text, audio otherwise.
pub open spec fn response_content_type(modalities: Seq<Seq<char>>) -> Seq<char> {
    if modalities.contains("text"@) {
        "text"@
    } else {
        "audio"@
    }
}

/// UTF-8 length of a text, as `str::len` reports it.
pub open spec fn utf8_len(s: Seq<char>) -> usize {
    vstd::utf8::encode_utf8(s).len() as usize
}

/// The first two events of every response.
pub open spec fn response_opening(resp_id: Seq<char>, item_id: Seq<char>) -> Seq<ServerEventView> {
    seq![
        ServerEventView::ResponseCreated {
            response: response_view(resp_id, "in_progress"@, seq![], None),
        },
        ServerEventView::ResponseOutputItemAdded {
            response_id: resp_id,
            item: assistant_message(item_id, "in_progress"@, seq![]),
            output_index: 0,
        },
    ]
}

/// The events that finish a response answered by a tool call.
pub open spec fn tool_call_events(
    resp_id: Seq<char>,
    item_id: Seq<char>,
    call_id: Seq<char>,
    name: Seq<char>,
) -> Seq<ServerEventView> {
    let arguments = tool_arguments_for(name);
    seq![
        ServerEventView::ResponseFunctionCallArgumentsDelta {
            response_id: resp_id,
            item_id,
            output_index: 0,
            call_id,
            delta: arguments,
        },
        ServerEventView::ResponseFunctionCallArgumentsDone {
            response_id: resp_id,
            item_id,
            output_index: 0,
            call_id,
            name,
            arguments,
        },
        ServerEventView::ResponseDone {
            response: response_view(
                resp_id,
                "completed"@,
                seq![completed_output(item_id, "function_call"@, seq![], "commentary"@)],
                Some(usage_view(5, 5, 0)),
            ),
        },
    ]
}

/// One text delta event per token.
pub open spec fn text_delta_events(
    resp_id: Seq<char>,
    item_id: Seq<char>,
    tokens: Seq<Seq<char>>,
) -> Seq<ServerEventView> {
    Seq::new(
        tokens.len(),
        |i: int|
            ServerEventView::ResponseOutputTextDelta {
                response_id: resp_id,
                item_id,
                output_index: 0,
                content_index: 0,
                delta: tokens[i],
            },
    )
}

/// The audio events of a response whose speech is `audio` (base64 text).
pub open spec fn audio_events(
    resp_id: Seq<char>,
    item_id: Seq<char>,
    text: Seq<char>,
    audio: Seq<char>,
) -> Seq<ServerEventView> {
    seq![
        ServerEventView::ResponseOutputAudioDelta {
            response_id: resp_id,
            item_id,
            output_index: 0,
            content_index: 0,
            delta: audio,
        },
        ServerEventView::ResponseOutputAudioDone {
            response_id: resp_id,
            item_id,
            output_index: 0,
            content_index: 0,
        },
        ServerEventView::ResponseOutputAudioTranscriptDone {
            response_id: resp_id,
            item_id,
            output_index: 0,
            content_index: 0,
            transcript: text,
        },
    ]
}

/// The text events of a response: the streamed tokens, then the whole text.
pub open spec fn text_events(resp_id: Seq<char>, item_id: Seq<char>, text: Seq<char>) -> Seq<
    ServerEventView,
> {
    text_delta_events(resp_id, item_id, stream_tokens_of(text)).push(
        ServerEventView::ResponseOutputTextDone {
            response_id: resp_id,
            item_id,
            output_index: 0,
            content_index: 0,
            text,
        },
    )
}

/// The events that finish a response answered with `text` to `user_text`,
/// for a session with the given modalities; `audio` is the base64 speech.
pub open spec fn answer_events(
    resp_id: Seq<char>,
    item_id: Seq<char>,
    text: Seq<char>,
    user_text: Seq<char>,
    modalities: Seq<Seq<char>>,
    audio: Seq<char>,
) -> Seq<ServerEventView> {
    let ct = response_content_type(modalities);
    let ulen = utf8_len(user_text);
    let rlen = utf8_len(text);
    seq![
        ServerEventView::ResponseContentPartAdded {
            response_id: resp_id,
            item_id,
            output_index: 0,
            content_index: 0,
            part: Some(text_part(ct, Seq::empty())),
        },
    ] + (if modalities.contains("audio"@) {
        audio_events(resp_id, item_id, text, audio)
    } else {
        Seq::empty()
    }) + (if modalities.contains("text"@) {
        text_events(resp_id, item_id, text)
    } else {
        Seq::empty()
    }) + seq![
        ServerEventView::ResponseContentPartDone {
            response_id: resp_id,
            item_id,
            output_index: 0,
            content_index: 0,
            part: Some(text_part(ct, text)),
        },
        ServerEventView::ResponseOutputItemDone {
            response_id: resp_id,
            item: assistant_message(item_id, "completed"@, seq![text_part(ct, text)]),
            output_index: 0,
        },
        ServerEventView::ResponseDone {
            response: response_view(
                resp_id,
                "completed"@,
                seq![
                    completed_output(
                        item_id,
                        "message"@,
                        seq![output_content(ct, text, text, Seq::empty())],
                        "final_answer"@,
                    ),
                ],
                Some(usage_view(ulen.wrapping_add(rlen) as u64, ulen as u64, rlen as u64)),
            ),
        },
    ]
}

/// The conversation without the items whose id is `id`.
pub open spec fn without_item(conv: Seq<ConversationItemView>, id: Seq<char>) -> Seq<
    ConversationItemView,
>
    decreases conv.len(),
{
    if conv.len() == 0 {
        conv
    } else {
        let rest = without_item(conv.drop_last(), id);
        if conv.last().id == id {
            rest
        } else {
            rest.push(conv.last())
        }
    }
}

/// Whether `audio` is the base64 text of speech that `synthesize` may
/// produce for `text`.
pub open spec fn speech_of<F: Fn(&str) -> Vec<u8>>(
    synthesize: F,
    text: Seq<char>,
    audio: Seq<char>,
) -> bool {
    exists|t: &str, a: Vec<u8>|
        t@ == text && #[trigger] synthesize.ensures((t,), a) && audio == base64_encoding(a@)
}

/// Whether every text may be synthesized and every result can be encoded.
pub open spec fn synthesizer_ok<F: Fn(&str) -> Vec<u8>>(synthesize: F) -> bool {
    &&& forall|t: &str| #[trigger] synthesize.requires((t,))
    &&& forall|t: &str, a: Vec<u8>|
        #[trigger] synthesize.ensures((t,), a) ==> 4 * ((a@.len() + 2) / 3) <= usize::MAX
}

impl SessionHandlerView {
    /// Whether `new` and `events` are an outcome of `response.create` in
    /// state `self`, answered with `text` and (when the session outputs
    /// audio) with speech `audio`.
    ///
    /// Ids: the response gets the next id, its item the one after it, and a
    /// tool call the one after that. A tool is called when tools are
    /// registered and the last user text asks for one; the call goes to the
    /// first registered tool. Otherwise the scripted model answers the last
    /// user text.
    pub open spec fn response_outcome<F: Fn(&str) -> Vec<u8>>(
        self,
        new: SessionHandlerView,
        events: Seq<ServerEventView>,
        synthesize: F,
        text: Seq<char>,
        audio: Seq<char>,
    ) -> bool {
        let user = last_user_text(self.conversation);
        let resp = id_text("resp"@, self.counter + 1);
        let item = id_text("item"@, self.counter + 2);
        if self.tools.len() > 0 && tool_requested(self.tools, user) {
            &&& new == SessionHandlerView { counter: self.counter + 3, generating: false, ..self }
            &&& events == response_opening(resp, item) + tool_call_events(
                resp,
                item,
                id_text("call"@, self.counter + 3),
                self.tools[0].name,
            )
        } else {
            &&& new == SessionHandlerView { counter: self.counter + 2, generating: false, ..self }
            &&& server_llm_model().may_generate(user, text)
            &&& self.session.modalities.contains("audio"@) ==> speech_of(synthesize, text, audio)
            &&& events == response_opening(resp, item) + answer_events(
                resp,
                item,
                text,
                user,
                self.session.modalities,
                audio,
            )
        }
    }

    /// Whether `new` and `events` are the outcome of handling client event
    /// `event` in state `self`.
    pub open spec fn event_outcome<F: Fn(&str) -> Vec<u8>>(
        self,
        new: SessionHandlerView,
        event: ClientEventView,
        events: Seq<ServerEventView>,
        synthesize: F,
    ) -> bool {
        match event {
            ClientEventView::SessionUpdate { session, .. } => {
                &&& new == self.apply_config(session)
                &&& events == seq![ServerEventView::SessionUpdated { session: new.session }]
            },
            ClientEventView::ConversationItemCreate { item, .. } => {
                let added = self.created_item(item);
                &&& new == SessionHandlerView {
                    conversation: self.conversation.push(added),
                    counter: self.counter_after_item(item),
                    ..self
                }
                &&& events == seq![
                    ServerEventView::ConversationItemAdded { item: added },
                    ServerEventView::ConversationItemDone { item: added },
                ]
            },
            ClientEventView::ConversationItemDelete { item_id, .. } => {
                &&& new == SessionHandlerView {
                    conversation: without_item(self.conversation, item_id),
                    ..self
                }
                &&& events.len() == 0
            },
            ClientEventView::ResponseCreate { .. } => exists|text: Seq<char>, audio: Seq<char>|
                #[trigger] self.response_outcome(new, events, synthesize, text, audio),
            ClientEventView::ResponseCancel { .. } => {
                &&& new == SessionHandlerView { generating: false, ..self }
                &&& events.len() == 0
            },
            _ => {
                &&& new == self
                &&& events.len() == 0
            },
        }
    }

    /// The state after a session update: the model, modalities,
    /// instructions, voice, temperature, tools, turn detection and output
    /// token limit that the update carries replace the session's; its other
    /// fields are ignored.
    pub open spec fn apply_config(self, c: SessionConfigView) -> SessionHandlerView {
        let s = self.session;
        let s1 = SessionStateView {
            model: if c.model is Some {
                c.model->0
            } else {
                s.model
            },
            modalities: if c.modalities is Some {
                c.modalities->0
            } else {
                s.modalities
            },
            instructions: if c.instructions is Some {
                c.instructions->0
            } else {
                s.instructions
            },
            voice: if c.voice is Some {
                c.voice->0
            } else {
                s.voice
            },
            temperature: if c.temperature is Some {
                c.temperature->0
            } else {
                s.temperature
            },
            tools: if c.tools is Some {
                c.tools->0
            } else {
                s.tools
            },
            turn_detection: if c.turn_detection is Some {
                c.turn_detection
            } else {
                s.turn_detection
            },
            max_response_output_tokens: if c.max_response_output_tokens is Some {
                decimal_text(c.max_response_output_tokens->0 as nat)
            } else {
                s.max_response_output_tokens
            },
            ..s
        };
        SessionHandlerView {
            session: s1,
            tools: if c.tools is Some {
                c.tools->0
            } else {
                self.tools
            },
            ..self
        }
    }

    /// The item as it is added to the conversation: one without an id gets
    /// the next item id.
    pub open spec fn created_item(self, item: ConversationItemView) -> ConversationItemView {
        if item.id.len() == 0 {
            ConversationItemView { id: id_text("item"@, self.counter + 1), ..item }
        } else {
            item
        }
    }

    /// The counter after adding the item.
    pub open spec fn counter_after_item(self, item: ConversationItemView) -> nat {
        if item.id.len() == 0 {
            self.counter + 1
        } else {
            self.counter
        }
    }
}

// ============================================================
// The handler
// ============================================================

/// Manages a single realtime session.
pub struct SessionHandler {
    session: SessionState,
    conversation: Vec<ConversationItem>,
    counter: u64,
    generating: bool,
}

impl View for SessionHandler {
    type V = SessionHandlerView;

    closed spec fn view(&self) -> SessionHandlerView {
        SessionHandlerView {
            session: self.session@,
            conversation: views_of(self.conversation@),
            tools: views_of(self.session.tools@),
            counter: self.counter as nat,
            generating: self.generating,
        }
    }
}

fn push_event(out: &mut Vec<ServerEvent>, e: ServerEvent)
    ensures
        views_of(final(out)@) == views_of(old(out)@).push(e@),
{
    out.push(e);
    assert(views_of(out@) =~= views_of(old(out)@).push(e@));
}

/// The scripted language model of the server.
fn server_llm() -> (l: FakeLlm)
    ensures
        l@ == server_llm_model(),
{
    let mut llm = FakeLlm::new();
    llm.add_response("hello", "Hello! I'm a local test server. How can I help you today?");
    llm.add_response("what is 2+2", "4");
    llm.add_response("what is 1+1", "2");
    llm.add_response("what is 5 times 7", "35");
    llm.add_response("my name is alice", "Nice to meet you, Alice!");
    llm.add_response("my name is alice. remember that.", "Got it, Alice! I'll remember that.");
    llm.add_response("what is my name", "Your name is Alice.");
    llm.add_response("say hello", "Hello!");
    llm.add_response("say hello world", "Hello world!");
    llm.add_response("say hello world.", "Hello world!");
    llm.add_response("count from 1 to 100.", "1, 2, 3, 4, 5, ... 100");
    llm.add_response("count from 1 to 50.", "1, 2, 3, ... 50");
    llm.add_response("count from 1 to 50. iteration 0.", "1, 2, 3, ... 50");
    llm.add_response("count from 1 to 50. iteration 1.", "1, 2, 3, ... 50");
    llm.add_response("hi", "Hello!");
    llm.set_default_response("I received your message. This is the local test server.");
    llm
}

fn first_input_text_of(parts: &Vec<ContentPart>) -> (t: String)
    ensures
        t@ == first_input_text(views_of(parts@)),
{
    let n = parts.len();
    let ghost ps = views_of(parts@);
    assert(ps.subrange(0, n as int) =~= ps);
    for i in 0..n
        invariant
            n == parts@.len(),
            ps == views_of(parts@),
            first_input_text(ps) == first_input_text(ps.subrange(i as int, n as int)),
    {
        proof {
            let rest = ps.subrange(i as int, n as int);
            assert(rest.drop_first() =~= ps.subrange(i + 1, n as int));
            assert(rest[0] == parts@[i as int]@);
        }
        if let ContentPart::InputText { text, .. } = &parts[i] {
            return text.clone();
        }
    }
    proof {
        assert(ps.subrange(n as int, n as int).len() == 0);
    }
    String::new()
}

impl SessionHandler {
    /// A new session whose id is `sess_` followed by a suffix drawn from the
    /// clock, as `uuid_simple` makes it.
    pub fn new() -> (h: Self)
        ensures
            exists|nanos: u32|
                nanos < 1_000_000_000 && h@ == initial_handler(#[trigger] clock_id_text(nanos)),
            h@.tools == h@.session.tools,
    {
        let suffix = uuid_simple();
        Self::with_id_suffix(suffix.as_str())
    }

    /// A new session whose id is `sess_` followed by `id_suffix`.
    pub fn with_id_suffix(id_suffix: &str) -> (h: Self)
        ensures
            h@ == initial_handler(id_suffix@),
            h@.tools == h@.session.tools,
    {
        let mut id = String::from_str("sess_");
        id.append(id_suffix);
        proof {
            reveal_strlit("sess_");
        }
        let session = make_initial_session(
            id.as_str(),
            "You are a helpful assistant running on a local test server.",
        );
        let h = SessionHandler {
            session,
            conversation: Vec::new(),
            counter: 0,
            generating: false,
        };
        assert(h@.conversation =~= Seq::<ConversationItemView>::empty());
        assert(h@.tools =~= Seq::<ToolView>::empty());
        assert(id@ =~= seq!['s', 'e', 's', 's', '_'] + id_suffix@);
        h
    }

    /// The event announcing the session, sent first on every connection.
    pub fn session_created(&self) -> (e: ServerEvent)
        ensures
            e@ == (ServerEventView::SessionCreated { session: self@.session }),
    {
        ServerEvent::SessionCreated { session: self.session.clone() }
    }

    /// How many ids this session has handed out.
    pub fn counter(&self) -> (c: u64)
        ensures
            c == self@.counter,
    {
        self.counter
    }

    fn next_id(&mut self, prefix: &str) -> (id: String)
        requires
            old(self)@.counter < u64::MAX,
        ensures
            final(self)@ == (SessionHandlerView { counter: old(self)@.counter + 1, ..old(self)@ }),
            id@ == id_text(prefix@, old(self)@.counter + 1),
    {
        self.counter = self.counter + 1;
        make_id(prefix, self.counter)
    }

    fn apply_session_config(&mut self, config: SessionConfig)
        ensures
            final(self)@ == old(self)@.apply_config(config@),
    {
        if let Some(model) = config.model {
            self.session.model = model;
        }
        if let Some(modalities) = config.modalities {
            self.session.modalities = modalities;
        }
        if let Some(instructions) = config.instructions {
            self.session.instructions = instructions;
        }
        if let Some(voice) = config.voice {
            self.session.voice = voice;
        }
        if let Some(temp) = config.temperature {
            self.session.temperature = temp;
        }
        if let Some(tools) = config.tools {
            self.session.tools = tools;
        }
        if let Some(turn_detection) = config.turn_detection {
            self.session.turn_detection = Some(turn_detection);
        }
        if let Some(max_tokens) = config.max_response_output_tokens {
            let mut text = String::new();
            push_decimal(&mut text, max_tokens as u64);
            assert(text@ =~= decimal_text(max_tokens as nat));
            self.session.max_response_output_tokens = text;
        }
        assert(self@.session =~= old(self)@.apply_config(config@).session);
    }

    /// The input text of the last user item of the conversation.
    fn last_user_text(&self) -> (t: String)
        ensures
            t@ == last_user_text(self@.conversation),
    {
        let ghost conv = self@.conversation;
        let user = String::from_str("user");
        let mut i = self.conversation.len();
        assert(conv.subrange(0, i as int) =~= conv);
        while i > 0
            invariant
                i <= self.conversation@.len(),
                conv == views_of(self.conversation@),
                user@ == "user"@,
                last_user_text(conv) == last_user_text(conv.subrange(0, i as int)),
            decreases i,
        {
            let item = &self.conversation[i - 1];
            proof {
                let pre = conv.subrange(0, i as int);
                assert(pre.drop_last() =~= conv.subrange(0, i - 1));
                assert(pre.last() == item@);
            }
            if item.role == user {
                return first_input_text_of(&item.content);
            }
            i = i - 1;
        }
        proof {
            assert(conv.subrange(0, 0).len() == 0);
        }
        String::new()
    }
}

/// Whether the modality list names `name`.
fn has_modality(mods: &Vec<String>, name: &str) -> (b: bool)
    ensures
        b == views_of(mods@).contains(name@),
{
    let target = String::from_str(name);
    let n = mods.len();
    for i in 0..n
        invariant
            n == mods@.len(),
            target@ == name@,
            forall|j: int| 0 <= j < i ==> #[trigger] mods@[j]@ != name@,
    {
        if mods[i] == target {
            assert(views_of(mods@)[i as int] == name@);
            return true;
        }
    }
    assert forall|j: int| 0 <= j < views_of(mods@).len() implies views_of(mods@)[j] != name@ by {
        assert(mods@[j]@ != name@);
    }
    false
}

/// The arguments the server invents for a call of the named tool.
fn tool_arguments(name: &str) -> (args: String)
    ensures
        args@ == tool_arguments_for(name@),
{
    if contains_str(name, "weather") {
        text_of("{\"location\": \"Paris\"}")
    } else if contains_str(name, "time") {
        text_of("{\"location\": \"UTC\"}")
    } else {
        text_of("{}")
    }
}

impl SessionHandler {
    /// Whether the user text asks for a tool.
    fn should_call_tool(&self, user_text: &str) -> (b: bool)
        ensures
            b == tool_requested(self@.tools, user_text@),
    {
        let text = to_lowercase(user_text);
        let n = self.session.tools.len();
        let ghost tools = self@.tools;
        for i in 0..n
            invariant
                n == self.session.tools@.len(),
                tools == views_of(self.session.tools@),
                text@ == unicode_lowercase(user_text@),
                forall|j: int|
                    0 <= j < i ==> !({
                        ||| is_substring(unicode_lowercase(#[trigger] tools[j].name), text@)
                        ||| is_substring("weather"@, text@)
                        ||| is_substring("time"@, text@)
                        ||| is_substring("tool"@, text@)
                        ||| is_substring("function"@, text@)
                    }),
        {
            let name = to_lowercase(self.session.tools[i].name.as_str());
            assert(tools[i as int].name == self.session.tools@[i as int].name@);
            if contains_str(text.as_str(), name.as_str()) || contains_str(text.as_str(), "weather")
                || contains_str(text.as_str(), "time") || contains_str(text.as_str(), "tool")
                || contains_str(text.as_str(), "function") {
                return true;
            }
        }
        false
    }

    /// Finish a response with a call of the first registered tool.
    fn handle_tool_call(&mut self, resp_id: &String, item_id: &String) -> (events: Vec<
        ServerEvent,
    >)
        requires
            old(self)@.tools.len() > 0,
            old(self)@.counter < u64::MAX,
        ensures
            final(self)@ == (SessionHandlerView {
                counter: old(self)@.counter + 1,
                generating: false,
                ..old(self)@
            }),
            views_of(events@) == tool_call_events(
                resp_id@,
                item_id@,
                id_text("call"@, old(self)@.counter + 1),
                old(self)@.tools[0].name,
            ),
    {
        let call_id = self.next_id("call");
        let name = self.session.tools[0].name.clone();
        assert(name@ == old(self)@.tools[0].name);
        let arguments = tool_arguments(name.as_str());
        let ghost expected = tool_call_events(resp_id@, item_id@, call_id@, name@);
        let mut events: Vec<ServerEvent> = Vec::new();
        push_event(
            &mut events,
            ServerEvent::ResponseFunctionCallArgumentsDelta {
                response_id: resp_id.clone(),
                item_id: item_id.clone(),
                output_index: 0,
                call_id: call_id.clone(),
                delta: arguments.clone(),
            },
        );
        push_event(
            &mut events,
            ServerEvent::ResponseFunctionCallArgumentsDone {
                response_id: resp_id.clone(),
                item_id: item_id.clone(),
                output_index: 0,
                call_id: call_id.clone(),
                name: name.clone(),
                arguments,
            },
        );
        let output = vec![
            make_completed_output(item_id.as_str(), "function_call", Vec::new(), "commentary"),
        ];
        proof {
            assert(views_of(Seq::<OutputContent>::empty()) =~= Seq::<OutputContentView>::empty());
        }
        assert(views_of(output@) =~= seq![
            completed_output(item_id@, "function_call"@, seq![], "commentary"@),
        ]);
        push_event(
            &mut events,
            ServerEvent::ResponseDone {
                response: make_response(
                    resp_id.as_str(),
                    "completed",
                    output,
                    Some(make_usage(5, 5, 0)),
                ),
            },
        );
        assert(views_of(events@) =~= expected);
        self.generating = false;
        events
    }
}

impl SessionHandler {
    /// Produce a response: a tool call when one is asked for, otherwise the
    /// scripted model's answer to the last user text, streamed as events.
    #[verifier::rlimit(60)]
    fn handle_response_create<F: Fn(&str) -> Vec<u8>>(&mut self, synthesize: &F) -> (events: Vec<
        ServerEvent,
    >)
        requires
            old(self)@.counter + 3 <= u64::MAX,
            synthesizer_ok(synthesize),
        ensures
            exists|text: Seq<char>, audio: Seq<char>|
                #[trigger] old(self)@.response_outcome(
                    final(self)@,
                    views_of(events@),
                    synthesize,
                    text,
                    audio,
                ),
    {
        let ghost old_view = self@;
        self.generating = true;
        let user_text = self.last_user_text();
        let resp_id = self.next_id("resp");
        let item_id = self.next_id("item");
        let mut events: Vec<ServerEvent> = Vec::new();
        proof {
            assert(views_of(Seq::<ContentPart>::empty()) =~= Seq::<ContentPartView>::empty());
            assert(views_of(Seq::<ResponseOutputItem>::empty()) =~= Seq::<
                ResponseOutputItemView,
            >::empty());
            assert(views_of(Seq::<ServerEvent>::empty()) =~= Seq::<ServerEventView>::empty());
        }
        push_event(
            &mut events,
            ServerEvent::ResponseCreated {
                response: make_response(resp_id.as_str(), "in_progress", Vec::new(), None),
            },
        );
        push_event(
            &mut events,
            ServerEvent::ResponseOutputItemAdded {
                response_id: resp_id.clone(),
                output_index: 0,
                item: make_assistant_message(item_id.as_str(), "in_progress", Vec::new()),
            },
        );
        let ghost opening = response_opening(resp_id@, item_id@);
        assert(views_of(events@) =~= opening);
        let llm = server_llm();
        if self.session.tools.len() > 0 && self.should_call_tool(user_text.as_str()) {
            let mut rest = self.handle_tool_call(&resp_id, &item_id);
            let ghost rest_view = views_of(rest@);
            events.append(&mut rest);
            assert(views_of(events@) =~= opening + rest_view);
            assert(old_view.response_outcome(
                self@,
                views_of(events@),
                synthesize,
                Seq::empty(),
                Seq::empty(),
            ));
            return events;
        }
        let response_text = llm.generate(user_text.as_str());
        let has_text = has_modality(&self.session.modalities, "text");
        let has_audio = has_modality(&self.session.modalities, "audio");
        let ghost mods = self@.session.modalities;
        let ct: &str = if has_text {
            "text"
        } else {
            "audio"
        };
        assert(ct@ == response_content_type(mods));
        push_event(
            &mut events,
            ServerEvent::ResponseContentPartAdded {
                response_id: resp_id.clone(),
                item_id: item_id.clone(),
                output_index: 0,
                content_index: 0,
                part: Some(make_text_part(ct, "")),
            },
        );
        proof {
            reveal_strlit("");
            assert(""@ =~= Seq::<char>::empty());
        }
        let ghost after_part = views_of(events@);
        let ghost mut audio_view: Seq<char> = Seq::empty();
        if has_audio {
            let spoken: &str = response_text.as_str();
            let audio = synthesize(spoken);
            let b64 = pcm_to_base64(audio.as_slice());
            proof {
                audio_view = b64@;
                assert(speech_of(synthesize, response_text@, b64@));
            }
            push_event(
                &mut events,
                ServerEvent::ResponseOutputAudioDelta {
                    response_id: resp_id.clone(),
                    item_id: item_id.clone(),
                    output_index: 0,
                    content_index: 0,
                    delta: b64,
                },
            );
            push_event(
                &mut events,
                ServerEvent::ResponseOutputAudioDone {
                    response_id: resp_id.clone(),
                    item_id: item_id.clone(),
                    output_index: 0,
                    content_index: 0,
                },
            );
            push_event(
                &mut events,
                ServerEvent::ResponseOutputAudioTranscriptDone {
                    response_id: resp_id.clone(),
                    item_id: item_id.clone(),
                    output_index: 0,
                    content_index: 0,
                    transcript: response_text.clone(),
                },
            );
            assert(views_of(events@) =~= after_part + audio_events(
                resp_id@,
                item_id@,
                response_text@,
                audio_view,
            ));
        } else {
            assert(views_of(events@) =~= after_part + Seq::<ServerEventView>::empty());
        }
        let ghost after_audio = views_of(events@);
        if has_text {
            let tokens = stream_tokens(response_text.as_str());
            let ghost toks = crate::text::string_views(tokens@);
            let n = tokens.len();
            for i in 0..n
                invariant
                    n == tokens@.len(),
                    toks == crate::text::string_views(tokens@),
                    views_of(events@) == after_audio + text_delta_events(
                        resp_id@,
                        item_id@,
                        toks,
                    ).take(i as int),
            {
                let ghost before = views_of(events@);
                push_event(
                    &mut events,
                    ServerEvent::ResponseOutputTextDelta {
                        response_id: resp_id.clone(),
                        item_id: item_id.clone(),
                        output_index: 0,
                        content_index: 0,
                        delta: tokens[i].clone(),
                    },
                );
                assert(text_delta_events(resp_id@, item_id@, toks).take(i + 1) =~= text_delta_events(
                    resp_id@,
                    item_id@,
                    toks,
                ).take(i as int).push(text_delta_events(resp_id@, item_id@, toks)[i as int]));
            }
            assert(text_delta_events(resp_id@, item_id@, toks).take(n as int) =~= text_delta_events(
                resp_id@,
                item_id@,
                toks,
            ));
            push_event(
                &mut events,
                ServerEvent::ResponseOutputTextDone {
                    response_id: resp_id.clone(),
                    item_id: item_id.clone(),
                    output_index: 0,
                    content_index: 0,
                    text: response_text.clone(),
                },
            );
            assert(views_of(events@) =~= after_audio + text_events(
                resp_id@,
                item_id@,
                response_text@,
            ));
        } else {
            assert(views_of(events@) =~= after_audio + Seq::<ServerEventView>::empty());
        }
        let ghost after_text = views_of(events@);
        push_event(
            &mut events,
            ServerEvent::ResponseContentPartDone {
                response_id: resp_id.clone(),
                item_id: item_id.clone(),
                output_index: 0,
                content_index: 0,
                part: Some(make_text_part(ct, response_text.as_str())),
            },
        );
        let done_content = vec![make_text_part(ct, response_text.as_str())];
        assert(views_of(done_content@) =~= seq![text_part(ct@, response_text@)]);
        push_event(
            &mut events,
            ServerEvent::ResponseOutputItemDone {
                response_id: resp_id.clone(),
                output_index: 0,
                item: make_assistant_message(item_id.as_str(), "completed", done_content),
            },
        );
        let content = vec![
            make_output_content(ct, response_text.as_str(), response_text.as_str(), ""),
        ];
        assert(views_of(content@) =~= seq![
            output_content(ct@, response_text@, response_text@, Seq::empty()),
        ]);
        let output = vec![
            make_completed_output(item_id.as_str(), "message", content, "final_answer"),
        ];
        assert(views_of(output@) =~= seq![
            completed_output(
                item_id@,
                "message"@,
                seq![output_content(ct@, response_text@, response_text@, Seq::empty())],
                "final_answer"@,
            ),
        ]);
        let ulen = user_text.as_str().len();
        let rlen = response_text.as_str().len();
        push_event(
            &mut events,
            ServerEvent::ResponseDone {
                response: make_response(
                    resp_id.as_str(),
                    "completed",
                    output,
                    Some(make_usage(ulen.wrapping_add(rlen) as u64, ulen as u64, rlen as u64)),
                ),
            },
        );
        self.generating = false;
        proof {
            let ans = answer_events(
                resp_id@,
                item_id@,
                response_text@,
                user_text@,
                mods,
                audio_view,
            );
            assert(views_of(events@) =~= opening + ans);
            assert(old_view.response_outcome(
                self@,
                views_of(events@),
                synthesize,
                response_text@,
                audio_view,
            ));
        }
        events
    }
}

impl SessionHandler {
    fn remove_item(&mut self, item_id: &String)
        ensures
            final(self)@ == (SessionHandlerView {
                conversation: without_item(old(self)@.conversation, item_id@),
                ..old(self)@
            }),
    {
        let ghost conv = self@.conversation;
        let mut kept: Vec<ConversationItem> = Vec::new();
        let n = self.conversation.len();
        for i in 0..n
            invariant
                n == self.conversation@.len(),
                conv == views_of(self.conversation@),
                views_of(kept@) == without_item(conv.take(i as int), item_id@),
        {
            proof {
                assert(conv.take(i + 1).drop_last() =~= conv.take(i as int));
                assert(conv.take(i + 1).last() == self.conversation@[i as int]@);
            }
            if self.conversation[i].id != *item_id {
                let copy = self.conversation[i].clone();
                let ghost before = views_of(kept@);
                kept.push(copy);
                assert(views_of(kept@) =~= before.push(copy@));
            }
        }
        assert(conv.take(n as int) =~= conv);
        self.conversation = kept;
    }

    /// Handle one client event and return the server events to send back.
    pub fn handle_client_event<F: Fn(&str) -> Vec<u8>>(
        &mut self,
        event: ClientEvent,
        synthesize: &F,
    ) -> (events: Vec<ServerEvent>)
        requires
            event@ matches ClientEventView::ConversationItemCreate { item, .. } && item.id.len()
                == 0 ==> old(self)@.counter + 1 <= u64::MAX,
            event@ is ResponseCreate ==> old(self)@.counter + 3 <= u64::MAX,
            synthesizer_ok(synthesize),
        ensures
            old(self)@.event_outcome(final(self)@, event@, views_of(events@), synthesize),
            final(self)@.tools == final(self)@.session.tools,
    {
        let ghost ev = event@;
        let events = match event {
            ClientEvent::SessionUpdate { session: config, .. } => {
                self.apply_session_config(config);
                let mut events = Vec::new();
                push_event(&mut events, ServerEvent::SessionUpdated { session: self.session.clone() });
                proof {
                    assert(views_of(Seq::<ServerEvent>::empty()) =~= Seq::<ServerEventView>::empty());
                }
                assert(views_of(events@) =~= seq![ServerEventView::SessionUpdated { session: self@.session }]);
                events
            },
            ClientEvent::ConversationItemCreate { item, .. } => {
                let mut item = item;
                if item.id.as_str().is_empty() {
                    item.id = self.next_id("item");
                }
                assert(item@ == old(self)@.created_item(ev->ConversationItemCreate_item));
                let copy = item.clone();
                let ghost before = views_of(self.conversation@);
                self.conversation.push(copy);
                assert(views_of(self.conversation@) =~= before.push(item@));
                let mut events = Vec::new();
                push_event(&mut events, ServerEvent::ConversationItemAdded { item: item.clone() });
                let ghost added = item@;
                push_event(&mut events, ServerEvent::ConversationItemDone { item });
                proof {
                    assert(views_of(Seq::<ServerEvent>::empty()) =~= Seq::<ServerEventView>::empty());
                    assert(views_of(events@) =~= seq![
                        ServerEventView::ConversationItemAdded { item: added },
                        ServerEventView::ConversationItemDone { item: added },
                    ]);
                }
                events
            },
            ClientEvent::ConversationItemDelete { item_id, .. } => {
                self.remove_item(&item_id);
                Vec::new()
            },
            ClientEvent::ConversationItemTruncate { .. } => Vec::new(),
            ClientEvent::ResponseCreate { .. } => self.handle_response_create(synthesize),
            ClientEvent::ResponseCancel { .. } => {
                self.generating = false;
                Vec::new()
            },
            ClientEvent::InputAudioBufferAppend { .. } => Vec::new(),
            ClientEvent::InputAudioBufferCommit { .. } => Vec::new(),
            ClientEvent::InputAudioBufferClear { .. } => Vec::new(),
        };
        proof {
            assert(views_of(Seq::<ServerEvent>::empty()) =~= Seq::<ServerEventView>::empty());
        }
        events
    }
}

// ============================================================
// Laws
// ============================================================

/// Every response starts with response.created and ends with a completed
/// response.done for the same response id; afterwards the counter has
/// advanced and nothing is being generated.
pub proof fn lemma_response_lifecycle<F: Fn(&str) -> Vec<u8>>(
    h: SessionHandlerView,
    new: SessionHandlerView,
    events: Seq<ServerEventView>,
    synthesize: F,
    text: Seq<char>,
    audio: Seq<char>,
)
    requires
        h.response_outcome(new, events, synthesize, text, audio),
    ensures
        events.len() >= 5,
        events[0] == (ServerEventView::ResponseCreated {
            response: response_view(id_text("resp"@, h.counter + 1), "in_progress"@, seq![], None),
        }),
        events.last() matches ServerEventView::ResponseDone { response } && response.id
            == id_text("resp"@, h.counter + 1) && response.status == "completed"@,
        new.counter > h.counter,
        !new.generating,
        new.conversation == h.conversation,
        new.session == h.session,
{
}

/// A response answered with text carries audio exactly when the session
/// outputs audio, and text (deltas and the finished text) only when it
/// outputs text.
pub proof fn lemma_modalities_select_outputs<F: Fn(&str) -> Vec<u8>>(
    h: SessionHandlerView,
    new: SessionHandlerView,
    events: Seq<ServerEventView>,
    synthesize: F,
    text: Seq<char>,
    audio: Seq<char>,
)
    requires
        h.response_outcome(new, events, synthesize, text, audio),
        !(h.tools.len() > 0 && tool_requested(h.tools, last_user_text(h.conversation))),
    ensures
        (exists|i: int| 0 <= i < events.len() && #[trigger] events[i] is ResponseOutputAudioDelta)
            <==> h.session.modalities.contains("audio"@),
        (exists|i: int| 0 <= i < events.len() && #[trigger] events[i] is ResponseOutputTextDone)
            <==> h.session.modalities.contains("text"@),
        !h.session.modalities.contains("text"@) ==> forall|i: int|
            0 <= i < events.len() ==> !(#[trigger] events[i] is ResponseOutputTextDelta),
{
    let m = h.session.modalities;
    let user = last_user_text(h.conversation);
    let resp = id_text("resp"@, h.counter + 1);
    let item = id_text("item"@, h.counter + 2);
    let ct = response_content_type(m);
    let opening = response_opening(resp, item);
    let a = if m.contains("audio"@) {
        audio_events(resp, item, text, audio)
    } else {
        Seq::empty()
    };
    let t = if m.contains("text"@) {
        text_events(resp, item, text)
    } else {
        Seq::empty()
    };
    let tokens = stream_tokens_of(text);
    let part_added = ServerEventView::ResponseContentPartAdded {
        response_id: resp,
        item_id: item,
        output_index: 0,
        content_index: 0,
        part: Some(text_part(ct, Seq::empty())),
    };
    let k = (1 + a.len() + t.len()) as int;
    let tail = answer_events(resp, item, text, user, m, audio).subrange(k, k + 3);
    assert(answer_events(resp, item, text, user, m, audio) =~= seq![part_added] + a + t + tail);
    assert(events =~= opening + seq![part_added] + a + t + tail);
    let n0 = 3int;
    let n1 = n0 + a.len();
    let n2 = n1 + t.len();
    assert(events.len() == n2 + 3);
    assert forall|i: int| 0 <= i < events.len() && !(n0 <= i < n2) implies !(
    #[trigger] events[i] is ResponseOutputAudioDelta) && !(events[i] is ResponseOutputTextDelta)
        && !(events[i] is ResponseOutputTextDone) by {
        if i >= n2 {
            assert(events[i] == tail[i - n2]);
        }
    }
    assert forall|i: int| n1 <= i < n2 implies !(
    #[trigger] events[i] is ResponseOutputAudioDelta) by {
        assert(events[i] == t[i - n1]);
        let k = i - n1;
        if k < tokens.len() {
            assert(t[k] == text_delta_events(resp, item, tokens)[k]);
        }
    }
    assert forall|i: int| n0 <= i < n1 implies !(
    #[trigger] events[i] is ResponseOutputTextDelta) && !(events[i] is ResponseOutputTextDone) by {
        assert(events[i] == a[i - n0]);
    }
    if m.contains("audio"@) {
        assert(events[n0] is ResponseOutputAudioDelta);
    }
    if m.contains("text"@) {
        assert(events[n2 - 1] == t[t.len() - 1]);
        assert(events[n2 - 1] is ResponseOutputTextDone);
    }
}

/// Items that are not from the user never change which text the next
/// response answers, and a new user message is what it answers from then
/// on: its first input-text part.
pub proof fn lemma_last_user_text_skips_others(
    conv: Seq<ConversationItemView>,
    item: ConversationItemView,
)
    ensures
        item.role != "user"@ ==> last_user_text(conv.push(item)) == last_user_text(conv),
        item.role == "user"@ ==> last_user_text(conv.push(item)) == first_input_text(item.content),
{
    assert(conv.push(item).drop_last() =~= conv);
}

/// The text a response answers is that of the last user item: if the
/// conversation holds a user item at `k` and none after it, the answer is
/// asked of that item's first input-text part, whatever the later items
/// hold.
pub proof fn lemma_last_user_text_is_last_user_item(conv: Seq<ConversationItemView>, k: int)
    requires
        0 <= k < conv.len(),
        conv[k].role == "user"@,
        forall|j: int| k < j < conv.len() ==> #[trigger] conv[j].role != "user"@,
    ensures
        last_user_text(conv) == first_input_text(conv[k].content),
    decreases conv.len(),
{
    if k < conv.len() - 1 {
        let p = conv.drop_last();
        assert forall|j: int| k < j < p.len() implies #[trigger] p[j].role != "user"@ by {
            assert(p[j] == conv[j]);
        }
        lemma_last_user_text_is_last_user_item(p, k);
        assert(conv.last() == conv[conv.len() - 1]);
    }
}

/// The text taken from a message is its first input-text part: the parts
/// before it are skipped, and a message with no input-text part gives the
/// empty text.
pub proof fn lemma_first_input_text(parts: Seq<ContentPartView>)
    ensures
        (forall|i: int| 0 <= i < parts.len() ==> !(#[trigger] parts[i] is InputText))
            ==> first_input_text(parts) == Seq::<char>::empty(),
        forall|k: int|
            0 <= k < parts.len() && #[trigger] parts[k] is InputText && (forall|j: int|
                0 <= j < k ==> !(#[trigger] parts[j] is InputText)) ==> (parts[k] matches ContentPartView::InputText { text, .. } && first_input_text(parts) == text),
    decreases parts.len(),
{
    if parts.len() > 0 {
        let rest = parts.drop_first();
        lemma_first_input_text(rest);
        assert forall|i: int| 0 <= i < rest.len() implies rest[i] == parts[i + 1] by {}
        assert forall|k: int|
            0 <= k < parts.len() && #[trigger] parts[k] is InputText && (forall|j: int|
                0 <= j < k ==> !(#[trigger] parts[j] is InputText)) implies (parts[k] matches ContentPartView::InputText { text, .. } && first_input_text(parts) == text) by {
            if k > 0 {
                assert(!(parts[0] is InputText));
                assert(rest[k - 1] == parts[k]);
                assert forall|j: int| 0 <= j < k - 1 implies !(#[trigger] rest[j] is InputText) by {
                    assert(rest[j] == parts[j + 1]);
                }
            }
        }
        if forall|i: int| 0 <= i < parts.len() ==> !(#[trigger] parts[i] is InputText) {
            assert(!(parts[0] is InputText));
            assert forall|i: int| 0 <= i < rest.len() implies !(#[trigger] rest[i] is InputText) by {
                assert(rest[i] == parts[i + 1]);
            }
        }
    }
}

/// Every handled event keeps the handler's tool list equal to the tools of
/// its session.
pub proof fn lemma_tools_follow_session<F: Fn(&str) -> Vec<u8>>(
    h: SessionHandlerView,
    new: SessionHandlerView,
    event: ClientEventView,
    events: Seq<ServerEventView>,
    synthesize: F,
)
    requires
        h.tools == h.session.tools,
        h.event_outcome(new, event, events, synthesize),
    ensures
        new.tools == new.session.tools,
{
    if event is ResponseCreate {
        let (text, audio) = choose|text: Seq<char>, audio: Seq<char>|
            #[trigger] h.response_outcome(new, events, synthesize, text, audio);
        assert(h.response_outcome(new, events, synthesize, text, audio));
    }
}

/// Handling any client event never moves the id counter backwards.
pub proof fn lemma_counter_monotone<F: Fn(&str) -> Vec<u8>>(
    h: SessionHandlerView,
    new: SessionHandlerView,
    event: ClientEventView,
    events: Seq<ServerEventView>,
    synthesize: F,
)
    requires
        h.event_outcome(new, event, events, synthesize),
    ensures
        new.counter >= h.counter,
{
    if event is ResponseCreate {
        let (text, audio) = choose|text: Seq<char>, audio: Seq<char>|
            #[trigger] h.response_outcome(new, events, synthesize, text, audio);
        lemma_response_lifecycle(h, new, events, synthesize, text, audio);
    }
}

/// The ids a response is given are fresh: none equals an id of the same
/// kind issued at any earlier counter, and the response, item and call ids
/// differ from one another.
pub proof fn lemma_response_ids_fresh(c: nat, earlier: nat)
    requires
        earlier <= c,
    ensures
        id_text("resp"@, c + 1) != id_text("resp"@, earlier),
        id_text("item"@, c + 2) != id_text("item"@, earlier),
        id_text("call"@, c + 3) != id_text("call"@, earlier),
        id_text("resp"@, c + 1) != id_text("item"@, c + 2),
        id_text("resp"@, c + 1) != id_text("call"@, c + 3),
        id_text("item"@, c + 2) != id_text("call"@, c + 3),
{
    if id_text("resp"@, c + 1) == id_text("resp"@, earlier) {
        crate::ids::lemma_id_text_injective("resp"@, c + 1, earlier);
    }
    if id_text("item"@, c + 2) == id_text("item"@, earlier) {
        crate::ids::lemma_id_text_injective("item"@, c + 2, earlier);
    }
    if id_text("call"@, c + 3) == id_text("call"@, earlier) {
        crate::ids::lemma_id_text_injective("call"@, c + 3, earlier);
    }
    reveal_strlit("resp");
    reveal_strlit("item");
    reveal_strlit("call");
    assert(id_text("resp"@, c + 1)[0] == 'r');
    assert(id_text("item"@, c + 2)[0] == 'i');
    assert(id_text("call"@, c + 3)[0] == 'c');
}

/// Deleting an id removes every item with that id and keeps every other
/// item.
pub proof fn lemma_without_item(conv: Seq<ConversationItemView>, id: Seq<char>)
    ensures
        forall|i: int|
            0 <= i < without_item(conv, id).len() ==> #[trigger] without_item(conv, id)[i].id != id,
        forall|i: int|
            0 <= i < conv.len() && #[trigger] conv[i].id != id ==> without_item(conv, id).contains(
                conv[i],
            ),
        without_item(conv, id).len() <= conv.len(),
    decreases conv.len(),
{
    if conv.len() > 0 {
        let rest = conv.drop_last();
        lemma_without_item(rest, id);
        let r = without_item(rest, id);
        assert forall|i: int| 0 <= i < conv.len() && #[trigger] conv[i].id != id implies without_item(
            conv,
            id,
        ).contains(conv[i]) by {
            if i < conv.len() - 1 {
                assert(rest[i] == conv[i]);
                let j = choose|j: int| 0 <= j < r.len() && r[j] == rest[i];
                if conv.last().id != id {
                    assert(without_item(conv, id)[j] == conv[i]);
                }
            } else {
                assert(without_item(conv, id) == r.push(conv.last()));
                assert(without_item(conv, id)[r.len() as int] == conv[i]);
            }
        }
    }
}

/// Deleting the item just created leaves the conversation as if it had
/// never been added (apart from earlier items with the same id).
pub proof fn lemma_create_then_delete(conv: Seq<ConversationItemView>, item: ConversationItemView)
    ensures
        without_item(conv.push(item), item.id) == without_item(conv, item.id),
{
    assert(conv.push(item).drop_last() =~= conv);
}

/// A session update is answered with the updated session, which carries
/// every handled setting that the update gave and keeps the others.
pub proof fn lemma_session_update_reports<F: Fn(&str) -> Vec<u8>>(
    h: SessionHandlerView,
    new: SessionHandlerView,
    c: SessionConfigView,
    event_id: Option<Seq<char>>,
    events: Seq<ServerEventView>,
    synthesize: F,
)
    requires
        h.event_outcome(
            new,
            ClientEventView::SessionUpdate { session: c, event_id },
            events,
            synthesize,
        ),
    ensures
        events == seq![ServerEventView::SessionUpdated { session: new.session }],
        new.session.instructions == (if c.instructions is Some {
            c.instructions->0
        } else {
            h.session.instructions
        }),
        new.session.voice == (if c.voice is Some {
            c.voice->0
        } else {
            h.session.voice
        }),
        new.session.model == (if c.model is Some {
            c.model->0
        } else {
            h.session.model
        }),
        new.session.modalities == (if c.modalities is Some {
            c.modalities->0
        } else {
            h.session.modalities
        }),
        c.tools is Some ==> new.session.tools == c.tools->0 && new.tools == c.tools->0,
        c.tools is None ==> new.session.tools == h.session.tools && new.tools == h.tools,
        new.session.turn_detection == (if c.turn_detection is Some {
            c.turn_detection
        } else {
            h.session.turn_detection
        }),
        new.session.temperature == (if c.temperature is Some {
            c.temperature->0
        } else {
            h.session.temperature
        }),
        c.max_response_output_tokens matches Some(n) ==> new.session.max_response_output_tokens
            == decimal_text(n as nat),
        c.max_response_output_tokens is None ==> new.session.max_response_output_tokens
            == h.session.max_response_output_tokens,
        new.session.id == h.session.id,
        new.conversation == h.conversation,
        new.counter == h.counter,
{
}

} // verus!
