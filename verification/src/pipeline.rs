//! Scripted stand-ins for the speech-to-text, language-model, text-to-speech
//! and turn-detection components of a realtime pipeline.

use vstd::prelude::*;
use crate::text::{
    contains_str, is_substring, split_whitespace, split_words, string_views, to_lowercase,
    unicode_lowercase,
};
use crate::traits::TurnEvent;

verus! {

// ============================================================
// Fake STT: returns pre-configured transcriptions in order
// ============================================================

/// The text returned once the configured transcriptions are used up.
pub open spec fn stt_fallback_text() -> Seq<char> {
    "I didn't catch that."@
}

pub struct FakeSttView {
    pub transcriptions: Seq<Seq<char>>,
    pub current_index: nat,
}

impl FakeSttView {
    /// The text `end_audio` returns in this state: the next configured
    /// transcription, or the fallback text once they are used up.
    pub open spec fn next_transcript(self) -> Seq<char> {
        if self.current_index < self.transcriptions.len() {
            self.transcriptions[self.current_index as int]
        } else {
            stt_fallback_text()
        }
    }

    /// The state after `end_audio`: the position moves past the returned
    /// transcription, and stays put once they are used up.
    pub open spec fn after_end_audio(self) -> FakeSttView {
        if self.current_index < self.transcriptions.len() {
            FakeSttView { current_index: self.current_index + 1, ..self }
        } else {
            self
        }
    }

    /// The state after `k` calls of `end_audio`.
    pub open spec fn after_end_audios(self, k: nat) -> FakeSttView
        decreases k,
    {
        if k == 0 {
            self
        } else {
            self.after_end_audios((k - 1) as nat).after_end_audio()
        }
    }
}

/// Speech-to-text stand-in that returns pre-configured transcriptions in
/// sequence.
pub struct FakeStt {
    transcriptions: Vec<String>,
    current_index: usize,
}

impl View for FakeStt {
    type V = FakeSttView;

    closed spec fn view(&self) -> FakeSttView {
        FakeSttView {
            transcriptions: string_views(self.transcriptions@),
            current_index: self.current_index as nat,
        }
    }
}

impl FakeStt {
    pub fn new() -> (s: Self)
        ensures
            s@.transcriptions == Seq::<Seq<char>>::empty(),
            s@.current_index == 0,
    {
        let s = FakeStt { transcriptions: Vec::new(), current_index: 0 };
        assert(s@.transcriptions =~= Seq::<Seq<char>>::empty());
        s
    }

    /// Set the transcriptions that will be returned in sequence.
    pub fn set_transcriptions(&mut self, transcriptions: Vec<String>)
        ensures
            final(self)@.transcriptions == string_views(transcriptions@),
            final(self)@.current_index == 0,
    {
        self.transcriptions = transcriptions;
        self.current_index = 0;
    }

    /// Streaming transcription: nothing is returned while speech lasts.
    pub fn transcribe(&mut self, audio: &[u8]) -> (r: Option<String>)
        ensures
            r is None,
            final(self)@ == old(self)@,
    {
        None
    }

    /// End of the audio stream: the next configured transcription, or the
    /// fallback text once they are used up.
    pub fn end_audio(&mut self) -> (r: Option<String>)
        ensures
            r matches Some(t) && t@ == old(self)@.next_transcript(),
            final(self)@ == old(self)@.after_end_audio(),
    {
        if self.current_index < self.transcriptions.len() {
            let text = self.transcriptions[self.current_index].clone();
            self.current_index = self.current_index + 1;
            Some(text)
        } else {
            Some(String::from_str("I didn't catch that."))
        }
    }

    /// Resetting keeps the transcriptions and the position in them.
    pub fn reset(&mut self)
        ensures
            final(self)@ == old(self)@,
    {
    }
}

impl Default for FakeStt {
    fn default() -> (s: Self)
        ensures
            s@.transcriptions == Seq::<Seq<char>>::empty(),
            s@.current_index == 0,
    {
        Self::new()
    }
}

// ============================================================
// Fake LLM: returns pre-configured responses
// ============================================================

/// The default response of a new language-model stand-in.
pub open spec fn llm_initial_default() -> Seq<char> {
    "I'm a fake model response."@
}

pub struct FakeLlmView {
    /// Responses by lower-cased input.
    pub responses: Map<Seq<char>, Seq<char>>,
    pub default_response: Seq<char>,
}

/// Whether `pattern` and `key` match loosely: one occurs in the other.
pub open spec fn loose_match(pattern: Seq<char>, key: Seq<char>) -> bool {
    is_substring(pattern, key) || is_substring(key, pattern)
}

impl FakeLlmView {
    /// The responses that `generate` may return for `input`: the response to
    /// the lower-cased input when one is configured; otherwise the response
    /// to any configured pattern that loosely matches it; otherwise the
    /// default response.
    pub open spec fn may_generate(self, input: Seq<char>, r: Seq<char>) -> bool {
        let key = unicode_lowercase(input);
        if self.responses.contains_key(key) {
            r == self.responses[key]
        } else if exists|p: Seq<char>|
            self.responses.contains_key(p) && #[trigger] loose_match(p, key) {
            exists|p: Seq<char>|
                self.responses.contains_key(p) && #[trigger] loose_match(p, key) && r
                    == self.responses[p]
        } else {
            r == self.default_response
        }
    }
}

/// Language-model stand-in that maps inputs to pre-configured responses.
pub struct FakeLlm {
    responses: Vec<(String, String)>,
    default_response: String,
}

spec fn entry_index(e: Seq<(String, String)>, k: Seq<char>) -> int {
    choose|i: int| 0 <= i < e.len() && e[i].0@ == k
}

spec fn entries_map(e: Seq<(String, String)>) -> Map<Seq<char>, Seq<char>> {
    Map::new(
        |k: Seq<char>| exists|i: int| 0 <= i < e.len() && e[i].0@ == k,
        |k: Seq<char>| e[entry_index(e, k)].1@,
    )
}

spec fn keys_distinct(e: Seq<(String, String)>) -> bool {
    forall|i: int, j: int|
        0 <= i < e.len() && 0 <= j < e.len() && i != j ==> #[trigger] e[i].0@ != #[trigger] e[j].0@
}

proof fn lemma_entries_map_at(e: Seq<(String, String)>, i: int)
    requires
        keys_distinct(e),
        0 <= i < e.len(),
    ensures
        entries_map(e).contains_key(e[i].0@),
        entries_map(e)[e[i].0@] == e[i].1@,
{
    let k = e[i].0@;
    assert(exists|j: int| 0 <= j < e.len() && e[j].0@ == k);
    let j = entry_index(e, k);
    assert(e[j].0@ == k);
    assert(i == j);
}

/// The position of `key` among the entries' keys, if it is there.
fn find_key(entries: &Vec<(String, String)>, key: &String) -> (r: Option<usize>)
    ensures
        r matches Some(i) ==> i < entries@.len() && entries@[i as int].0@ == key@,
        r is None ==> forall|j: int| 0 <= j < entries@.len() ==> #[trigger] entries@[j].0@ != key@,
{
    let n = entries.len();
    for i in 0..n
        invariant
            n == entries@.len(),
            forall|j: int| 0 <= j < i ==> #[trigger] entries@[j].0@ != key@,
    {
        if entries[i].0 == *key {
            return Some(i);
        }
    }
    None
}

impl View for FakeLlm {
    type V = FakeLlmView;

    closed spec fn view(&self) -> FakeLlmView {
        FakeLlmView {
            responses: entries_map(self.responses@),
            default_response: self.default_response@,
        }
    }
}

impl FakeLlm {
    #[verifier::type_invariant]
    spec fn inv(self) -> bool {
        keys_distinct(self.responses@)
    }

    pub fn new() -> (l: Self)
        ensures
            l@.responses == Map::<Seq<char>, Seq<char>>::empty(),
            l@.default_response == llm_initial_default(),
    {
        let l = FakeLlm {
            responses: Vec::new(),
            default_response: String::from_str("I'm a fake model response."),
        };
        assert(l@.responses =~= Map::<Seq<char>, Seq<char>>::empty());
        l
    }

    /// Map an input text (compared lower-cased) to a specific response.
    pub fn add_response(&mut self, input: &str, response: &str)
        ensures
            final(self)@.responses == old(self)@.responses.insert(
                unicode_lowercase(input@),
                response@,
            ),
            final(self)@.default_response == old(self)@.default_response,
    {
        proof {
            use_type_invariant(&*self);
        }
        let key = to_lowercase(input);
        let value = String::from_str(response);
        let ghost old_e = self.responses@;
        let n = self.responses.len();
        let found = find_key(&self.responses, &key);
        if let Some(i) = found {
            let mut entries = Vec::new();
            std::mem::swap(&mut entries, &mut self.responses);
            entries.set(i, (key, value));
            let ghost new_e = entries@;
            assert(keys_distinct(new_e)) by {
                assert forall|a: int, b: int|
                    0 <= a < new_e.len() && 0 <= b < new_e.len() && a != b implies #[trigger] new_e[a].0@
                    != #[trigger] new_e[b].0@ by {
                    assert(new_e[a].0@ == old_e[a].0@);
                    assert(new_e[b].0@ == old_e[b].0@);
                }
            }
            proof {
                let m = entries_map(new_e);
                let target = entries_map(old_e).insert(key@, response@);
                assert forall|k: Seq<char>| #[trigger] m.contains_key(k) <==> target.contains_key(k) by {
                    if m.contains_key(k) {
                        let j = choose|j: int| 0 <= j < new_e.len() && new_e[j].0@ == k;
                        if j != i {
                            assert(old_e[j].0@ == k);
                        }
                    }
                    if target.contains_key(k) && k != key@ {
                        let j = choose|j: int| 0 <= j < old_e.len() && old_e[j].0@ == k;
                        assert(new_e[j].0@ == k);
                    }
                    if k == key@ {
                        assert(new_e[i as int].0@ == k);
                    }
                }
                assert forall|k: Seq<char>| #[trigger] m.contains_key(k) implies m[k] == target[k] by {
                    let j = choose|j: int| 0 <= j < new_e.len() && new_e[j].0@ == k;
                    lemma_entries_map_at(new_e, j);
                    if j != i {
                        lemma_entries_map_at(old_e, j);
                    }
                }
                assert(m =~= target);
            }
            self.responses = entries;
        } else {
            let mut entries = Vec::new();
            std::mem::swap(&mut entries, &mut self.responses);
            entries.push((key, value));
            let ghost new_e = entries@;
            assert(keys_distinct(new_e)) by {
                assert forall|a: int, b: int|
                    0 <= a < new_e.len() && 0 <= b < new_e.len() && a != b implies #[trigger] new_e[a].0@
                    != #[trigger] new_e[b].0@ by {
                    if a < old_e.len() && b < old_e.len() {
                        assert(new_e[a].0@ == old_e[a].0@);
                        assert(new_e[b].0@ == old_e[b].0@);
                    }
                }
            }
            proof {
                let m = entries_map(new_e);
                let target = entries_map(old_e).insert(key@, response@);
                assert forall|k: Seq<char>| #[trigger] m.contains_key(k) <==> target.contains_key(k) by {
                    if m.contains_key(k) {
                        let j = choose|j: int| 0 <= j < new_e.len() && new_e[j].0@ == k;
                        if j < old_e.len() {
                            assert(old_e[j].0@ == k);
                        }
                    }
                    if target.contains_key(k) && k != key@ {
                        let j = choose|j: int| 0 <= j < old_e.len() && old_e[j].0@ == k;
                        assert(new_e[j].0@ == k);
                    }
                    if k == key@ {
                        assert(new_e[n as int].0@ == k);
                    }
                }
                assert forall|k: Seq<char>| #[trigger] m.contains_key(k) implies m[k] == target[k] by {
                    let j = choose|j: int| 0 <= j < new_e.len() && new_e[j].0@ == k;
                    lemma_entries_map_at(new_e, j);
                    if j < old_e.len() {
                        lemma_entries_map_at(old_e, j);
                    }
                }
                assert(m =~= target);
            }
            self.responses = entries;
        }
    }

    /// Set the response returned when no configured input matches.
    pub fn set_default_response(&mut self, response: &str)
        ensures
            final(self)@.responses == old(self)@.responses,
            final(self)@.default_response == response@,
    {
        proof {
            use_type_invariant(&*self);
        }
        self.default_response = String::from_str(response);
    }

    /// The response to an input: an exact match of the lower-cased input
    /// first, then a configured pattern that loosely matches it, then the
    /// default response.
    pub fn generate(&self, input: &str) -> (r: String)
        ensures
            self@.may_generate(input@, r@),
    {
        proof {
            use_type_invariant(self);
        }
        let key = to_lowercase(input);
        let n = self.responses.len();
        let ghost e = self.responses@;
        for i in 0..n
            invariant
                n == e.len(),
                e == self.responses@,
                keys_distinct(e),
                key@ == unicode_lowercase(input@),
                forall|j: int| 0 <= j < i ==> #[trigger] e[j].0@ != key@,
        {
            if self.responses[i].0 == key {
                proof {
                    lemma_entries_map_at(e, i as int);
                }
                let r = self.responses[i].1.clone();
                assert(r@ == e[i as int].1@);
                assert(self@.responses == entries_map(e));
                assert(entries_map(e)[key@] == r@);
                return r;
            }
        }
        assert(!entries_map(e).contains_key(key@)) by {
            if entries_map(e).contains_key(key@) {
                let j = choose|j: int| 0 <= j < e.len() && e[j].0@ == key@;
                assert(e[j].0@ != key@);
            }
        }
        for i in 0..n
            invariant
                n == e.len(),
                e == self.responses@,
                keys_distinct(e),
                key@ == unicode_lowercase(input@),
                !entries_map(e).contains_key(key@),
                forall|j: int| 0 <= j < i ==> !loose_match(#[trigger] e[j].0@, key@),
        {
            let pattern = &self.responses[i].0;
            if contains_str(key.as_str(), pattern.as_str()) || contains_str(
                pattern.as_str(),
                key.as_str(),
            ) {
                proof {
                    lemma_entries_map_at(e, i as int);
                    assert(loose_match(e[i as int].0@, key@));
                    assert(entries_map(e).contains_key(e[i as int].0@));
                }
                return self.responses[i].1.clone();
            }
        }
        proof {
            if exists|p: Seq<char>|
                entries_map(e).contains_key(p) && #[trigger] loose_match(p, key@) {
                let p = choose|p: Seq<char>|
                    entries_map(e).contains_key(p) && #[trigger] loose_match(p, key@);
                let j = choose|j: int| 0 <= j < e.len() && e[j].0@ == p;
                assert(!loose_match(e[j].0@, key@));
            }
        }
        self.default_response.clone()
    }
}

impl Default for FakeLlm {
    fn default() -> (l: Self)
        ensures
            l@.responses == Map::<Seq<char>, Seq<char>>::empty(),
            l@.default_response == llm_initial_default(),
    {
        Self::new()
    }
}

/// The tokens that a streamed response is delivered in: its white-space
/// separated words, each followed by one space except the last.
pub open spec fn stream_tokens_of(text: Seq<char>) -> Seq<Seq<char>> {
    let words = split_words(text);
    Seq::new(
        words.len(),
        |i: int|
            if i < words.len() - 1 {
                words[i].push(' ')
            } else {
                words[i]
            },
    )
}

/// Split a response into the tokens it is streamed in, word by word.
pub fn stream_tokens(response: &str) -> (tokens: Vec<String>)
    ensures
        string_views(tokens@) == stream_tokens_of(response@),
{
    let words = split_whitespace(response);
    let n = words.len();
    let ghost w = string_views(words@);
    let mut tokens: Vec<String> = Vec::new();
    proof {
        reveal_strlit(" ");
    }
    for i in 0..n
        invariant
            n == words@.len(),
            w == string_views(words@),
            w == split_words(response@),
            " "@ == seq![' '],
            string_views(tokens@) =~= stream_tokens_of(response@).take(i as int),
    {
        let mut token = words[i].clone();
        assert(token@ == w[i as int]);
        if i < n - 1 {
            token.append(" ");
            assert(token@ =~= w[i as int].push(' '));
        }
        let ghost prev = string_views(tokens@);
        tokens.push(token);
        assert(string_views(tokens@) =~= prev.push(token@));
        assert(stream_tokens_of(response@).take(i + 1) =~= stream_tokens_of(response@).take(
            i as int,
        ).push(token@));
    }
    tokens
}

// ============================================================
// Fake TTS: audio duration per character
// ============================================================

/// Text-to-speech stand-in; its audio lasts a fixed time per character of text.
pub struct FakeTts {
    ms_per_char: u32,
}

impl View for FakeTts {
    type V = u32;

    closed spec fn view(&self) -> u32 {
        self.ms_per_char
    }
}

/// Duration of the audio synthesised for a text of `len` characters: `len`
/// (truncated to 32 bits) times the speed, and at least 10 ms.
pub open spec fn synthesis_ms(len: int, ms_per_char: u32) -> int {
    let d = (len as u32) * ms_per_char;
    if d >= 10 {
        d
    } else {
        10
    }
}

impl FakeTts {
    /// A stand-in producing 50 ms of audio per character of text.
    pub fn new() -> (t: Self)
        ensures
            t@ == 50,
    {
        FakeTts { ms_per_char: 50 }
    }

    /// Set the synthesised speech duration per character of text.
    pub fn set_speed(&mut self, ms_per_char: u32)
        ensures
            final(self)@ == ms_per_char,
    {
        self.ms_per_char = ms_per_char;
    }

    /// The synthesised speech duration per character of text.
    pub fn ms_per_char(&self) -> (ms: u32)
        ensures
            ms == self@,
    {
        self.ms_per_char
    }

    /// Duration in milliseconds of the audio synthesised for `text`.
    pub fn synthesis_duration_ms(&self, text: &str) -> (ms: u32)
        requires
            (text@.len() as u32) * self@ <= u32::MAX,
        ensures
            ms == synthesis_ms(text@.len() as int, self@),
    {
        let d = (text.unicode_len() as u32) * self.ms_per_char;
        if d >= 10 {
            d
        } else {
            10
        }
    }
}

impl Default for FakeTts {
    fn default() -> (t: Self)
        ensures
            t@ == 50,
    {
        Self::new()
    }
}

// ============================================================
// Fake turn detector: pre-programmed events per chunk
// ============================================================

pub struct FakeTurnDetectorView {
    pub events: Seq<Seq<TurnEvent>>,
    pub current_index: nat,
    pub model_speaking: bool,
}

impl FakeTurnDetectorView {
    /// The events `process_audio` returns in this state: those programmed
    /// for the next chunk, or none once the program is used up.
    pub open spec fn next_events(self) -> Seq<TurnEvent> {
        if self.current_index < self.events.len() {
            self.events[self.current_index as int]
        } else {
            Seq::empty()
        }
    }

    /// The state after `process_audio`: the position moves to the next
    /// chunk's events, and stays put once the program is used up.
    pub open spec fn after_process_audio(self) -> FakeTurnDetectorView {
        if self.current_index < self.events.len() {
            FakeTurnDetectorView { current_index: self.current_index + 1, ..self }
        } else {
            self
        }
    }

    /// The state after `k` calls of `process_audio`.
    pub open spec fn after_chunks(self, k: nat) -> FakeTurnDetectorView
        decreases k,
    {
        if k == 0 {
            self
        } else {
            self.after_chunks((k - 1) as nat).after_process_audio()
        }
    }
}

/// Turn detector stand-in that returns pre-programmed events, one list per
/// audio chunk.
pub struct FakeTurnDetector {
    events: Vec<Vec<TurnEvent>>,
    current_index: usize,
    model_speaking: bool,
}

impl View for FakeTurnDetector {
    type V = FakeTurnDetectorView;

    closed spec fn view(&self) -> FakeTurnDetectorView {
        FakeTurnDetectorView {
            events: self.events@.map_values(|v: Vec<TurnEvent>| v@),
            current_index: self.current_index as nat,
            model_speaking: self.model_speaking,
        }
    }
}

fn copy_events(v: &Vec<TurnEvent>) -> (r: Vec<TurnEvent>)
    ensures
        r@ == v@,
{
    let mut r: Vec<TurnEvent> = Vec::new();
    for i in 0..v.len()
        invariant
            r@ =~= v@.take(i as int),
    {
        r.push(v[i]);
    }
    assert(v@.take(v@.len() as int) =~= v@);
    r
}

impl FakeTurnDetector {
    pub fn new() -> (d: Self)
        ensures
            d@.events == Seq::<Seq<TurnEvent>>::empty(),
            d@.current_index == 0,
            !d@.model_speaking,
    {
        let d = FakeTurnDetector { events: Vec::new(), current_index: 0, model_speaking: false };
        assert(d@.events =~= Seq::<Seq<TurnEvent>>::empty());
        d
    }

    /// Pre-program a sequence of turn events for each audio chunk.
    pub fn set_event_sequence(&mut self, events: Vec<Vec<TurnEvent>>)
        ensures
            final(self)@.events == events@.map_values(|v: Vec<TurnEvent>| v@),
            final(self)@.current_index == 0,
            final(self)@.model_speaking == old(self)@.model_speaking,
    {
        self.events = events;
        self.current_index = 0;
    }

    /// The events programmed for the next chunk, or none once the program
    /// is used up.
    pub fn process_audio(&mut self, audio: &[u8]) -> (r: Vec<TurnEvent>)
        ensures
            r@ == old(self)@.next_events(),
            final(self)@ == old(self)@.after_process_audio(),
    {
        if self.current_index < self.events.len() {
            let r = copy_events(&self.events[self.current_index]);
            self.current_index = self.current_index + 1;
            r
        } else {
            Vec::new()
        }
    }

    /// Signal that the model has started speaking.
    pub fn model_started_speaking(&mut self)
        ensures
            final(self)@ == (FakeTurnDetectorView { model_speaking: true, ..old(self)@ }),
    {
        self.model_speaking = true;
    }

    /// Signal that the model has stopped speaking.
    pub fn model_stopped_speaking(&mut self)
        ensures
            final(self)@ == (FakeTurnDetectorView { model_speaking: false, ..old(self)@ }),
    {
        self.model_speaking = false;
    }

    /// Restart the programmed sequence and clear the speaking flag.
    pub fn reset(&mut self)
        ensures
            final(self)@ == (FakeTurnDetectorView {
                current_index: 0,
                model_speaking: false,
                ..old(self)@
            }),
    {
        self.current_index = 0;
        self.model_speaking = false;
    }
}

impl Default for FakeTurnDetector {
    fn default() -> (d: Self)
        ensures
            d@.events == Seq::<Seq<TurnEvent>>::empty(),
            d@.current_index == 0,
            !d@.model_speaking,
    {
        Self::new()
    }
}

// ============================================================
// Laws
// ============================================================

/// After a response is added for an input, generating for that input gives
/// exactly that response.
pub proof fn lemma_generate_after_add(
    m: FakeLlmView,
    input: Seq<char>,
    response: Seq<char>,
    r: Seq<char>,
)
    requires
        (FakeLlmView {
            responses: m.responses.insert(unicode_lowercase(input), response),
            ..m
        }).may_generate(input, r),
    ensures
        r == response,
{
}

/// The words of a text joined by single spaces.
pub open spec fn join_words(words: Seq<Seq<char>>) -> Seq<char>
    decreases words.len(),
{
    if words.len() == 0 {
        Seq::empty()
    } else if words.len() == 1 {
        words[0]
    } else {
        join_words(words.drop_last()).push(' ') + words.last()
    }
}

proof fn lemma_end_audios_position(t: Seq<Seq<char>>, j: nat)
    ensures
        (FakeSttView { transcriptions: t, current_index: 0 }).after_end_audios(j) == (FakeSttView {
            transcriptions: t,
            current_index: if j <= t.len() {
                j
            } else {
                t.len()
            },
        }),
    decreases j,
{
    if j > 0 {
        lemma_end_audios_position(t, (j - 1) as nat);
    }
}

/// After `set_transcriptions(t)` (or on a new stand-in, with `t` empty), the
/// `k`-th call of `end_audio` returns `t[k - 1]` while there is one, and the
/// fallback text after that. `transcribe` and `reset` leave the state as it
/// is, so calls of them in between change nothing.
pub proof fn lemma_transcripts_in_order(t: Seq<Seq<char>>, k: nat)
    requires
        k >= 1,
    ensures
        (FakeSttView { transcriptions: t, current_index: 0 }).after_end_audios(
            (k - 1) as nat,
        ).next_transcript() == if k <= t.len() {
            t[k - 1]
        } else {
            stt_fallback_text()
        },
{
    lemma_end_audios_position(t, (k - 1) as nat);
}

proof fn lemma_chunks_position(e: Seq<Seq<TurnEvent>>, speaking: bool, j: nat)
    ensures
        (FakeTurnDetectorView { events: e, current_index: 0, model_speaking: speaking }).after_chunks(j)
            == (FakeTurnDetectorView {
            events: e,
            current_index: if j <= e.len() {
                j
            } else {
                e.len()
            },
            model_speaking: speaking,
        }),
    decreases j,
{
    if j > 0 {
        lemma_chunks_position(e, speaking, (j - 1) as nat);
    }
}

/// After `set_event_sequence(e)` (or `reset`, which restarts the program),
/// the `k`-th call of `process_audio` returns `e[k - 1]` whatever the audio,
/// and no events once the program is used up. Marking the model as speaking
/// or not leaves the position alone.
pub proof fn lemma_turn_events_in_order(e: Seq<Seq<TurnEvent>>, speaking: bool, k: nat)
    requires
        k >= 1,
    ensures
        (FakeTurnDetectorView { events: e, current_index: 0, model_speaking: speaking }).after_chunks(
            (k - 1) as nat,
        ).next_events() == if k <= e.len() {
            e[k - 1]
        } else {
            Seq::<TurnEvent>::empty()
        },
{
    lemma_chunks_position(e, speaking, (k - 1) as nat);
}

/// The concatenation of a sequence of texts.
pub open spec fn concat_all(texts: Seq<Seq<char>>) -> Seq<char>
    decreases texts.len(),
{
    if texts.len() == 0 {
        Seq::empty()
    } else {
        concat_all(texts.drop_last()) + texts.last()
    }
}

proof fn lemma_token_prefix(text: Seq<char>, k: int)
    requires
        0 < k < split_words(text).len(),
    ensures
        concat_all(stream_tokens_of(text).take(k)) == join_words(split_words(text).take(k)).push(
            ' ',
        ),
    decreases k,
{
    let w = split_words(text);
    let t = stream_tokens_of(text);
    assert(t.take(k).drop_last() =~= t.take(k - 1));
    assert(w.take(k).drop_last() =~= w.take(k - 1));
    if k == 1 {
        assert(t.take(0) =~= Seq::<Seq<char>>::empty());
        assert(concat_all(t.take(0)) == Seq::<char>::empty());
        assert(t.take(1).last() == t[0]);
        assert(t[0] == w[0].push(' '));
        assert(w.take(1).len() == 1 && w.take(1)[0] == w[0]);
        assert(Seq::<char>::empty() + w[0].push(' ') =~= w[0].push(' '));
    } else {
        lemma_token_prefix(text, k - 1);
        assert(concat_all(t.take(k)) =~= join_words(w.take(k - 1)).push(' ') + w[k - 1].push(
            ' ',
        ));
    }
}

/// Streamed tokens put back together give the response's words joined by
/// single spaces.
pub proof fn lemma_stream_tokens_rejoin(text: Seq<char>)
    ensures
        concat_all(stream_tokens_of(text)) == join_words(split_words(text)),
{
    let w = split_words(text);
    let t = stream_tokens_of(text);
    let n = w.len();
    if n == 0 {
    } else if n == 1 {
        assert(t.drop_last() =~= Seq::<Seq<char>>::empty());
        assert(concat_all(t.drop_last()) == Seq::<char>::empty());
        assert(t.last() == w[0]);
        assert(Seq::<char>::empty() + w[0] =~= w[0]);
    } else {
        lemma_token_prefix(text, n - 1);
        assert(t.take(n - 1) =~= t.drop_last());
        assert(w.take(n - 1) =~= w.drop_last());
        assert(concat_all(t) =~= join_words(w));
    }
}

/// For a text whose words are separated by single spaces, the streamed
/// tokens put back together give the text itself.
pub proof fn lemma_stream_tokens_of_normal_text(text: Seq<char>)
    requires
        text == join_words(split_words(text)),
    ensures
        concat_all(stream_tokens_of(text)) == text,
{
    lemma_stream_tokens_rejoin(text);
}

} // verus!
