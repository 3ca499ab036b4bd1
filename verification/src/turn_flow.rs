//! The decisions of a streamed pipeline turn: transcript, then the language
//! model's tokens one by one, each synthesised into speech, then a final
//! flush of the synthesiser.
//!
//! A driver that owns the components performs each [`TurnAction`] and hands
//! back what it produced as a [`TurnInput`]; [`StreamedTurn::step`] decides
//! what comes next.

use vstd::prelude::*;

verus! {

/// Where a streamed turn stands.
#[derive(Debug, Clone, Copy, PartialEq, Eq, Structural)]
pub enum TurnPhase {
    /// Not started.
    Ready,
    /// Waiting for the final transcript.
    Transcribing,
    /// Waiting for the language model to stream its answer.
    Generating,
    /// Waiting for the next streamed token.
    ReadingTokens,
    /// Waiting for the speech of the last token.
    Synthesizing,
    /// Waiting for the synthesiser's remaining audio.
    Flushing,
    /// Finished.
    Done,
}

/// What the driver reports back.
#[derive(Debug)]
pub enum TurnInput {
    /// Start the turn.
    Start,
    /// The final transcript, if speech-to-text produced one.
    Transcript(Option<String>),
    /// The language model has streamed its whole answer.
    Generated,
    /// The next streamed token, or `None` once the stream is exhausted.
    Token(Option<String>),
    /// The speech synthesised for the last token.
    Audio(Vec<u8>),
    /// The audio left in the synthesiser.
    Flushed(Vec<u8>),
}

/// What the driver must do next.
#[derive(Debug)]
pub enum TurnAction {
    /// Ask speech-to-text for the final transcript.
    EndAudio,
    /// Stream the language model's answer to this text.
    Generate(String),
    /// Take the next streamed token.
    NextToken,
    /// Synthesise speech for this token.
    Synthesize(String),
    /// Hand this audio chunk to the listener.
    Emit(Vec<u8>),
    /// Flush the synthesiser.
    Flush,
    /// Reset speech-to-text and return this text, the whole answer.
    Finish(String),
}

pub enum TurnInputView {
    Start,
    Transcript(Option<Seq<char>>),
    Generated,
    Token(Option<Seq<char>>),
    Audio(Seq<u8>),
    Flushed(Seq<u8>),
}

pub enum TurnActionView {
    EndAudio,
    Generate(Seq<char>),
    NextToken,
    Synthesize(Seq<char>),
    Emit(Seq<u8>),
    Flush,
    Finish(Seq<char>),
}

impl View for TurnInput {
    type V = TurnInputView;

    open spec fn view(&self) -> TurnInputView {
        match self {
            TurnInput::Start => TurnInputView::Start,
            TurnInput::Transcript(t) => TurnInputView::Transcript(
                match t {
                    Some(s) => Some(s@),
                    None => None,
                },
            ),
            TurnInput::Generated => TurnInputView::Generated,
            TurnInput::Token(t) => TurnInputView::Token(
                match t {
                    Some(s) => Some(s@),
                    None => None,
                },
            ),
            TurnInput::Audio(a) => TurnInputView::Audio(a@),
            TurnInput::Flushed(a) => TurnInputView::Flushed(a@),
        }
    }
}

impl View for TurnAction {
    type V = TurnActionView;

    open spec fn view(&self) -> TurnActionView {
        match self {
            TurnAction::EndAudio => TurnActionView::EndAudio,
            TurnAction::Generate(t) => TurnActionView::Generate(t@),
            TurnAction::NextToken => TurnActionView::NextToken,
            TurnAction::Synthesize(t) => TurnActionView::Synthesize(t@),
            TurnAction::Emit(a) => TurnActionView::Emit(a@),
            TurnAction::Flush => TurnActionView::Flush,
            TurnAction::Finish(t) => TurnActionView::Finish(t@),
        }
    }
}

/// The views of a list of actions.
pub open spec fn action_views(actions: Seq<TurnAction>) -> Seq<TurnActionView> {
    actions.map_values(|a: TurnAction| a@)
}

pub struct StreamedTurnView {
    pub phase: TurnPhase,
    /// The answer's tokens received so far, concatenated.
    pub text: Seq<char>,
}

/// The emit action for an audio chunk: none for an empty chunk.
pub open spec fn emit_nonempty(audio: Seq<u8>) -> Seq<TurnActionView> {
    if audio.len() > 0 {
        seq![TurnActionView::Emit(audio)]
    } else {
        seq![]
    }
}

impl StreamedTurnView {
    /// The state and actions after `input`. An input that does not answer
    /// the action the turn waits for changes nothing and asks for nothing.
    pub open spec fn next(self, input: TurnInputView) -> (StreamedTurnView, Seq<TurnActionView>) {
        match (self.phase, input) {
            (TurnPhase::Ready, TurnInputView::Start) => (
                StreamedTurnView { phase: TurnPhase::Transcribing, text: seq![] },
                seq![TurnActionView::EndAudio],
            ),
            (TurnPhase::Transcribing, TurnInputView::Transcript(t)) => (
                StreamedTurnView { phase: TurnPhase::Generating, text: seq![] },
                seq![
                    TurnActionView::Generate(
                        match t {
                            Some(s) => s,
                            None => seq![],
                        },
                    ),
                ],
            ),
            (TurnPhase::Generating, TurnInputView::Generated) => (
                StreamedTurnView { phase: TurnPhase::ReadingTokens, ..self },
                seq![TurnActionView::NextToken],
            ),
            (TurnPhase::ReadingTokens, TurnInputView::Token(Some(token))) => (
                StreamedTurnView { phase: TurnPhase::Synthesizing, text: self.text + token },
                seq![TurnActionView::Synthesize(token)],
            ),
            (TurnPhase::ReadingTokens, TurnInputView::Token(None)) => (
                StreamedTurnView { phase: TurnPhase::Flushing, ..self },
                seq![TurnActionView::Flush],
            ),
            (TurnPhase::Synthesizing, TurnInputView::Audio(a)) => (
                StreamedTurnView { phase: TurnPhase::ReadingTokens, ..self },
                emit_nonempty(a).push(TurnActionView::NextToken),
            ),
            (TurnPhase::Flushing, TurnInputView::Flushed(a)) => (
                StreamedTurnView { phase: TurnPhase::Done, ..self },
                emit_nonempty(a).push(TurnActionView::Finish(self.text)),
            ),
            _ => (self, seq![]),
        }
    }
}

/// The decision state of one streamed turn.
pub struct StreamedTurn {
    phase: TurnPhase,
    text: String,
}

impl View for StreamedTurn {
    type V = StreamedTurnView;

    closed spec fn view(&self) -> StreamedTurnView {
        StreamedTurnView { phase: self.phase, text: self.text@ }
    }
}

fn emit_if_nonempty(actions: &mut Vec<TurnAction>, audio: Vec<u8>)
    ensures
        action_views(final(actions)@) == action_views(old(actions)@) + emit_nonempty(audio@),
{
    let ghost before = action_views(actions@);
    if audio.len() > 0 {
        let ghost a = audio@;
        actions.push(TurnAction::Emit(audio));
        assert(action_views(actions@) =~= before + seq![TurnActionView::Emit(a)]);
    } else {
        assert(before + emit_nonempty(audio@) =~= before);
    }
}

fn one_action(a: TurnAction) -> (v: Vec<TurnAction>)
    ensures
        action_views(v@) == seq![a@],
{
    let v = vec![a];
    assert(action_views(v@) =~= seq![a@]);
    v
}

impl StreamedTurn {
    /// A turn that has not started.
    pub fn new() -> (t: Self)
        ensures
            t@ == (StreamedTurnView { phase: TurnPhase::Ready, text: seq![] }),
    {
        StreamedTurn { phase: TurnPhase::Ready, text: String::new() }
    }

    /// Where the turn stands.
    pub fn phase(&self) -> (p: TurnPhase)
        ensures
            p == self@.phase,
    {
        self.phase
    }

    /// Take the driver's report and decide the next actions, in order.
    pub fn step(&mut self, input: TurnInput) -> (actions: Vec<TurnAction>)
        ensures
            (final(self)@, action_views(actions@)) == old(self)@.next(input@),
    {
        let ghost inv = input@;
        match (self.phase, input) {
            (TurnPhase::Ready, TurnInput::Start) => {
                self.phase = TurnPhase::Transcribing;
                self.text = String::new();
                one_action(TurnAction::EndAudio)
            },
            (TurnPhase::Transcribing, TurnInput::Transcript(t)) => {
                self.phase = TurnPhase::Generating;
                self.text = String::new();
                let text = match t {
                    Some(s) => s,
                    None => String::new(),
                };
                one_action(TurnAction::Generate(text))
            },
            (TurnPhase::Generating, TurnInput::Generated) => {
                self.phase = TurnPhase::ReadingTokens;
                one_action(TurnAction::NextToken)
            },
            (TurnPhase::ReadingTokens, TurnInput::Token(Some(token))) => {
                self.phase = TurnPhase::Synthesizing;
                self.text.append(token.as_str());
                one_action(TurnAction::Synthesize(token))
            },
            (TurnPhase::ReadingTokens, TurnInput::Token(None)) => {
                self.phase = TurnPhase::Flushing;
                one_action(TurnAction::Flush)
            },
            (TurnPhase::Synthesizing, TurnInput::Audio(a)) => {
                self.phase = TurnPhase::ReadingTokens;
                let mut actions = Vec::new();
                assert(action_views(actions@) =~= seq![]);
                emit_if_nonempty(&mut actions, a);
                let ghost before = action_views(actions@);
                actions.push(TurnAction::NextToken);
                assert(action_views(actions@) =~= before.push(TurnActionView::NextToken));
                actions
            },
            (TurnPhase::Flushing, TurnInput::Flushed(a)) => {
                self.phase = TurnPhase::Done;
                let mut actions = Vec::new();
                assert(action_views(actions@) =~= seq![]);
                emit_if_nonempty(&mut actions, a);
                let ghost before = action_views(actions@);
                let whole = self.text.clone();
                actions.push(TurnAction::Finish(whole));
                assert(action_views(actions@) =~= before.push(TurnActionView::Finish(self.text@)));
                actions
            },
            _ => {
                let v = Vec::new();
                assert(action_views(v@) =~= seq![]);
                v
            },
        }
    }
}

// ------------------------------------------------------------------
// Laws
// ------------------------------------------------------------------

/// The language model is asked about the transcript: once the transcript
/// comes back, the one action that follows asks for the answer to exactly
/// that text (the empty text when speech-to-text produced none), and no
/// token has been collected yet.
pub proof fn lemma_model_asked_about_transcript(t: StreamedTurnView, transcript: Option<Seq<char>>)
    requires
        t.phase == TurnPhase::Transcribing,
    ensures
        t.next(TurnInputView::Transcript(transcript)).1.len() == 1,
        t.next(TurnInputView::Transcript(transcript)).1[0] matches TurnActionView::Generate(q) && q
            == match transcript {
            Some(s) => s,
            None => Seq::<char>::empty(),
        },
        t.next(TurnInputView::Transcript(transcript)).0.text.len() == 0,
{
}

/// A turn never hands an empty audio chunk to the listener.
pub proof fn lemma_never_emits_empty(t: StreamedTurnView, input: TurnInputView)
    ensures
        forall|i: int|
            0 <= i < t.next(input).1.len() ==> (#[trigger] t.next(input).1[i] matches TurnActionView::Emit(a)
                ==> a.len() > 0),
{
}

/// The state and actions after a sequence of inputs, the actions of each
/// step following those of the steps before.
pub open spec fn run_turn(t: StreamedTurnView, inputs: Seq<TurnInputView>) -> (
    StreamedTurnView,
    Seq<TurnActionView>,
)
    decreases inputs.len(),
{
    if inputs.len() == 0 {
        (t, seq![])
    } else {
        let (s, acts) = run_turn(t, inputs.drop_last());
        let (s2, more) = s.next(inputs.last());
        (s2, acts + more)
    }
}

/// The concatenation of a sequence of texts.
pub open spec fn joined(texts: Seq<Seq<char>>) -> Seq<char>
    decreases texts.len(),
{
    if texts.len() == 0 {
        seq![]
    } else {
        joined(texts.drop_last()) + texts.last()
    }
}

/// The inputs of a complete streamed turn: the transcript, the end of
/// generation, each token with its speech, the end of the tokens, and the
/// flushed audio.
pub open spec fn full_turn_inputs(
    transcript: Option<Seq<char>>,
    tokens: Seq<Seq<char>>,
    speech: Seq<Seq<u8>>,
    flushed: Seq<u8>,
) -> Seq<TurnInputView> {
    seq![TurnInputView::Start, TurnInputView::Transcript(transcript), TurnInputView::Generated]
        + token_inputs(tokens, speech) + seq![
        TurnInputView::Token(None),
        TurnInputView::Flushed(flushed),
    ]
}

/// Each token followed by the speech made of it.
pub open spec fn token_inputs(tokens: Seq<Seq<char>>, speech: Seq<Seq<u8>>) -> Seq<TurnInputView>
    decreases tokens.len(),
{
    if tokens.len() == 0 {
        seq![]
    } else {
        let n = (tokens.len() - 1) as int;
        token_inputs(tokens.drop_last(), speech) + seq![
            TurnInputView::Token(Some(tokens[n])),
            TurnInputView::Audio(speech[n]),
        ]
    }
}

proof fn lemma_run_turn_append(t: StreamedTurnView, a: Seq<TurnInputView>, b: Seq<TurnInputView>)
    ensures
        run_turn(t, a + b) == ({
            let (s, acts) = run_turn(t, a);
            let (s2, more) = run_turn(s, b);
            (s2, acts + more)
        }),
    decreases b.len(),
{
    if b.len() == 0 {
        assert(a + b =~= a);
        let (s, acts) = run_turn(t, a);
        assert(acts + seq![] =~= acts);
    } else {
        assert((a + b).drop_last() =~= a + b.drop_last());
        assert((a + b).last() == b.last());
        lemma_run_turn_append(t, a, b.drop_last());
        let (s, acts) = run_turn(t, a);
        let (s1, m1) = run_turn(s, b.drop_last());
        let (s2, m2) = s1.next(b.last());
        assert(acts + m1 + m2 =~= acts + (m1 + m2));
    }
}

proof fn lemma_run_turn_push(t: StreamedTurnView, a: Seq<TurnInputView>, x: TurnInputView)
    ensures
        run_turn(t, a.push(x)) == ({
            let (s, acts) = run_turn(t, a);
            let (s2, more) = s.next(x);
            (s2, acts + more)
        }),
{
    assert(a.push(x).drop_last() =~= a);
}

proof fn lemma_token_inputs_run(t: StreamedTurnView, tokens: Seq<Seq<char>>, speech: Seq<Seq<u8>>)
    requires
        t.phase == TurnPhase::ReadingTokens,
        speech.len() == tokens.len(),
    ensures
        run_turn(t, token_inputs(tokens, speech)).0 == (StreamedTurnView {
            phase: TurnPhase::ReadingTokens,
            text: t.text + joined(tokens),
        }),
    decreases tokens.len(),
{
    if tokens.len() == 0 {
        assert(t.text + joined(tokens) =~= t.text);
        assert(token_inputs(tokens, speech) =~= seq![]);
    } else {
        let n = (tokens.len() - 1) as int;
        let front = token_inputs(tokens.drop_last(), speech.drop_last());
        lemma_token_inputs_prefix(tokens.drop_last(), speech, speech.drop_last());
        let tok = TurnInputView::Token(Some(tokens[n]));
        let aud = TurnInputView::Audio(speech[n]);
        assert(token_inputs(tokens, speech) =~= front.push(tok).push(aud));
        lemma_token_inputs_run(t, tokens.drop_last(), speech.drop_last());
        lemma_run_turn_push(t, front, tok);
        lemma_run_turn_push(t, front.push(tok), aud);
        assert(t.text + joined(tokens.drop_last()) + tokens[n] =~= t.text + joined(tokens));
    }
}

proof fn lemma_token_inputs_prefix(tokens: Seq<Seq<char>>, s1: Seq<Seq<u8>>, s2: Seq<Seq<u8>>)
    requires
        tokens.len() <= s1.len(),
        tokens.len() <= s2.len(),
        forall|i: int| 0 <= i < tokens.len() ==> s1[i] == s2[i],
    ensures
        token_inputs(tokens, s1) == token_inputs(tokens, s2),
    decreases tokens.len(),
{
    if tokens.len() > 0 {
        lemma_token_inputs_prefix(tokens.drop_last(), s1, s2);
    }
}

/// A complete streamed turn finishes with the whole answer: the last action
/// returns the concatenation of all streamed tokens, and the turn is done.
pub proof fn lemma_full_turn_returns_answer(
    transcript: Option<Seq<char>>,
    tokens: Seq<Seq<char>>,
    speech: Seq<Seq<u8>>,
    flushed: Seq<u8>,
)
    requires
        speech.len() == tokens.len(),
    ensures
        ({
            let (s, acts) = run_turn(
                StreamedTurnView { phase: TurnPhase::Ready, text: seq![] },
                full_turn_inputs(transcript, tokens, speech, flushed),
            );
            &&& s.phase == TurnPhase::Done
            &&& acts.len() > 1
            &&& acts[0] == TurnActionView::EndAudio
            &&& acts[1] == TurnActionView::Generate(
                match transcript {
                    Some(q) => q,
                    None => Seq::<char>::empty(),
                },
            )
            &&& acts.last() == TurnActionView::Finish(joined(tokens))
        }),
{
    let t0 = StreamedTurnView { phase: TurnPhase::Ready, text: seq![] };
    let h0 = Seq::<TurnInputView>::empty();
    let h1 = h0.push(TurnInputView::Start);
    let h2 = h1.push(TurnInputView::Transcript(transcript));
    let head = h2.push(TurnInputView::Generated);
    let mid = token_inputs(tokens, speech);
    let m = head + mid;
    let m1 = m.push(TurnInputView::Token(None));
    let all = m1.push(TurnInputView::Flushed(flushed));
    assert(full_turn_inputs(transcript, tokens, speech, flushed) =~= all);
    lemma_run_turn_push(t0, h0, TurnInputView::Start);
    lemma_run_turn_push(t0, h1, TurnInputView::Transcript(transcript));
    lemma_run_turn_push(t0, h2, TurnInputView::Generated);
    let s1 = run_turn(t0, head).0;
    assert(s1 == StreamedTurnView { phase: TurnPhase::ReadingTokens, text: seq![] });
    lemma_run_turn_append(t0, head, mid);
    lemma_token_inputs_run(s1, tokens, speech);
    assert(Seq::<char>::empty() + joined(tokens) =~= joined(tokens));
    lemma_run_turn_push(t0, m, TurnInputView::Token(None));
    lemma_run_turn_push(t0, m1, TurnInputView::Flushed(flushed));
    let (sf, acts) = run_turn(t0, all);
    let (s3, _) = run_turn(t0, m1);
    assert(s3 == StreamedTurnView { phase: TurnPhase::Flushing, text: joined(tokens) });
    let more = emit_nonempty(flushed).push(TurnActionView::Finish(joined(tokens)));
    assert(acts == run_turn(t0, m1).1 + more);
    assert(acts.last() == more.last());
}

} // verus!
