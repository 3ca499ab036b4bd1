//! In-memory scripted transport for testing without a network connection.
//!
//! Server events are pre-programmed into a queue; the transport hands them
//! out in order. When the client sends events, the transport records the
//! conversation items and answers a session update that has no scripted
//! reply.

use vstd::prelude::*;
use std::collections::VecDeque;
use crate::events::{
    assistant_message, completed_output, initial_session, make_assistant_message,
    make_completed_output, make_initial_session, make_output_content, make_response,
    make_text_part, make_usage, output_content, response_view, text_of, text_part, usage_view,
};
use crate::ids::{id_text, make_id};
use crate::protocol::{
    views_of, ClientEvent, ClientEventView, ContentPart, ContentPartView, ConversationItem,
    ConversationItemView, OutputContent, OutputContentView, ResponseOutputItem,
    ResponseOutputItemView, ServerEvent, ServerEventView,
};

verus! {

/// The instructions of a scripted session.
pub open spec fn scripted_instructions() -> Seq<char> {
    "You are a fake test model."@
}

/// The events of a scripted text response.
pub open spec fn text_response_events(item_id: Seq<char>, resp_id: Seq<char>, text: Seq<char>) -> Seq<
    ServerEventView,
> {
    seq![
        ServerEventView::ResponseCreated {
            response: response_view(resp_id, "in_progress"@, seq![], None),
        },
        ServerEventView::ResponseOutputItemAdded {
            response_id: resp_id,
            item: assistant_message(item_id, "in_progress"@, seq![]),
            output_index: 0,
        },
        ServerEventView::ResponseContentPartAdded {
            response_id: resp_id,
            item_id,
            output_index: 0,
            content_index: 0,
            part: Some(text_part("text"@, Seq::empty())),
        },
        ServerEventView::ResponseOutputTextDelta {
            response_id: resp_id,
            item_id,
            output_index: 0,
            content_index: 0,
            delta: text,
        },
        ServerEventView::ResponseOutputTextDone {
            response_id: resp_id,
            item_id,
            output_index: 0,
            content_index: 0,
            text,
        },
        ServerEventView::ResponseContentPartDone {
            response_id: resp_id,
            item_id,
            output_index: 0,
            content_index: 0,
            part: Some(text_part("text"@, text)),
        },
        ServerEventView::ResponseOutputItemDone {
            response_id: resp_id,
            item: assistant_message(item_id, "completed"@, seq![text_part("text"@, text)]),
            output_index: 0,
        },
        ServerEventView::ResponseDone {
            response: response_view(
                resp_id,
                "completed"@,
                seq![
                    completed_output(
                        item_id,
                        "message"@,
                        seq![output_content("text"@, Seq::empty(), text, Seq::empty())],
                        "final_answer"@,
                    ),
                ],
                Some(usage_view(10, 5, 5)),
            ),
        },
    ]
}

/// The events of a scripted function call (before the follow-up text
/// response).
pub open spec fn function_call_events(
    item_id: Seq<char>,
    resp_id: Seq<char>,
    call_id: Seq<char>,
    name: Seq<char>,
    arguments: Seq<char>,
) -> Seq<ServerEventView> {
    seq![
        ServerEventView::ResponseCreated {
            response: response_view(resp_id, "in_progress"@, seq![], None),
        },
        ServerEventView::ResponseFunctionCallArgumentsDone {
            response_id: resp_id,
            item_id,
            output_index: 0,
            call_id,
            name,
            arguments,
        },
        ServerEventView::ResponseDone {
            response: response_view(
                resp_id,
                "completed"@,
                seq![completed_output(item_id, "function_call"@, seq![], "commentary"@)],
                Some(usage_view(5, 5, 0)),
            ),
        },
    ]
}

/// The events of a scripted audio response.
pub open spec fn audio_response_events(
    item_id: Seq<char>,
    resp_id: Seq<char>,
    transcript: Seq<char>,
    audio: Seq<char>,
) -> Seq<ServerEventView> {
    seq![
        ServerEventView::ResponseCreated {
            response: response_view(resp_id, "in_progress"@, seq![], None),
        },
        ServerEventView::ResponseOutputAudioDelta {
            response_id: resp_id,
            item_id,
            output_index: 0,
            content_index: 0,
            delta: audio,
        },
        ServerEventView::ResponseOutputAudioDone {
            response_id: resp_id,
            item_id,
            output_index: 0,
            content_index: 0,
        },
        ServerEventView::ResponseOutputAudioTranscriptDone {
            response_id: resp_id,
            item_id,
            output_index: 0,
            content_index: 0,
            transcript,
        },
        ServerEventView::ResponseDone {
            response: response_view(
                resp_id,
                "completed"@,
                seq![
                    completed_output(
                        item_id,
                        "message"@,
                        seq![output_content("audio"@, transcript, Seq::empty(), audio)],
                        "final_answer"@,
                    ),
                ],
                Some(usage_view(10, 5, 5)),
            ),
        },
    ]
}

/// Whether a session.updated event is waiting in the queue.
pub open spec fn has_session_updated(queue: Seq<ServerEventView>) -> bool {
    exists|i: int| 0 <= i < queue.len() && #[trigger] queue[i] is SessionUpdated
}

pub struct FakeTransportView {
    pub queue: Seq<ServerEventView>,
    pub session_id: Seq<char>,
    pub connected: bool,
    pub conversation: Seq<ConversationItemView>,
    pub counter: nat,
}

/// In-memory scripted transport.
pub struct FakeTransport {
    event_queue: VecDeque<ServerEvent>,
    session_id: String,
    connected: bool,
    /// Conversation items sent by the client.
    conversation: Vec<ConversationItem>,
    counter: u64,
}

impl View for FakeTransport {
    type V = FakeTransportView;

    closed spec fn view(&self) -> FakeTransportView {
        FakeTransportView {
            queue: views_of(self.event_queue@),
            session_id: self.session_id@,
            connected: self.connected,
            conversation: views_of(self.conversation@),
            counter: self.counter as nat,
        }
    }
}

impl FakeTransport {
    pub fn new() -> (t: Self)
        ensures
            t@.queue == Seq::<ServerEventView>::empty(),
            t@.session_id == Seq::<char>::empty(),
            !t@.connected,
            t@.conversation == Seq::<ConversationItemView>::empty(),
            t@.counter == 0,
    {
        let t = FakeTransport {
            event_queue: VecDeque::new(),
            session_id: String::new(),
            connected: false,
            conversation: Vec::new(),
            counter: 0,
        };
        assert(t@.queue =~= Seq::<ServerEventView>::empty());
        assert(t@.conversation =~= Seq::<ConversationItemView>::empty());
        t
    }

    fn next_id(&mut self, prefix: &str) -> (id: String)
        requires
            old(self)@.counter < u64::MAX,
        ensures
            final(self)@ == (FakeTransportView { counter: old(self)@.counter + 1, ..old(self)@ }),
            id@ == id_text(prefix@, old(self)@.counter + 1),
    {
        self.counter = self.counter + 1;
        make_id(prefix, self.counter)
    }

    fn push_event(&mut self, event: ServerEvent)
        ensures
            final(self)@ == (FakeTransportView { queue: old(self)@.queue.push(event@), ..old(self)@ }),
    {
        self.event_queue.push_back(event);
        assert(views_of(self.event_queue@) =~= views_of(old(self).event_queue@).push(event@));
    }

    fn push_all(&mut self, events: Vec<ServerEvent>)
        ensures
            final(self)@ == (FakeTransportView {
                queue: old(self)@.queue + views_of(events@),
                ..old(self)@
            }),
    {
        let mut events = events;
        let ghost all = views_of(events@);
        let mut rest: Vec<ServerEvent> = Vec::new();
        // Move the events out front to back.
        let n = events.len();
        let mut k: usize = 0;
        while k < n
            invariant
                n == all.len(),
                k <= n,
                events@.len() == n - k,
                views_of(events@) == all.subrange(k as int, n as int),
                self@ == (FakeTransportView {
                    queue: old(self)@.queue + all.subrange(0, k as int),
                    ..old(self)@
                }),
            decreases n - k,
        {
            let ghost before = events@;
            let e = events.remove(0);
            proof {
                assert(views_of(before)[0] == before[0]@);
                assert(e@ == all[k as int]);
                assert forall|j: int| 0 <= j < events@.len() implies views_of(events@)[j] == all[k
                    + 1 + j] by {
                    assert(events@[j] == before[j + 1]);
                    assert(views_of(before)[j + 1] == before[j + 1]@);
                }
                assert(views_of(events@) =~= all.subrange(k + 1, n as int));
            }
            self.push_event(e);
            assert(old(self)@.queue + all.subrange(0, k + 1) =~= (old(self)@.queue + all.subrange(
                0,
                k as int,
            )).push(all[k as int]));
            k = k + 1;
        }
        assert(all.subrange(0, n as int) =~= all);
    }

    /// Configure the session returned on connect: a session.created event is
    /// queued.
    pub fn setup_session(&mut self, session_id: &str)
        ensures
            final(self)@ == (FakeTransportView {
                session_id: session_id@,
                queue: old(self)@.queue.push(
                    ServerEventView::SessionCreated {
                        session: initial_session(session_id@, scripted_instructions()),
                    },
                ),
                ..old(self)@
            }),
    {
        self.session_id = text_of(session_id);
        let session = make_initial_session(session_id, "You are a fake test model.");
        self.push_event(ServerEvent::SessionCreated { session });
    }

    /// Enqueue a server event.
    pub fn enqueue(&mut self, event: ServerEvent)
        ensures
            final(self)@ == (FakeTransportView { queue: old(self)@.queue.push(event@), ..old(self)@ }),
    {
        self.push_event(event);
    }

    /// Enqueue the full lifecycle of a text response.
    #[verifier::rlimit(40)]
    pub fn enqueue_text_response(&mut self, expected_input: &str, response_text: &str)
        requires
            old(self)@.counter + 2 <= u64::MAX,
        ensures
            final(self)@ == (FakeTransportView {
                queue: old(self)@.queue + text_response_events(
                    id_text("item"@, old(self)@.counter + 1),
                    id_text("resp"@, old(self)@.counter + 2),
                    response_text@,
                ),
                counter: old(self)@.counter + 2,
                ..old(self)@
            }),
    {
        let item_id = self.next_id("item");
        let resp_id = self.next_id("resp");
        let ghost expected = text_response_events(item_id@, resp_id@, response_text@);
        proof {
            reveal_strlit("");
            assert(""@ =~= Seq::<char>::empty());
            assert(views_of(Seq::<ContentPart>::empty()) =~= Seq::<ContentPartView>::empty());
            assert(views_of(Seq::<ResponseOutputItem>::empty()) =~= Seq::<
                ResponseOutputItemView,
            >::empty());
        }
        let e0 = ServerEvent::ResponseCreated {
            response: make_response(resp_id.as_str(), "in_progress", Vec::new(), None),
        };
        assert(e0@ == expected[0]);
        let e1 = ServerEvent::ResponseOutputItemAdded {
            response_id: resp_id.clone(),
            output_index: 0,
            item: make_assistant_message(item_id.as_str(), "in_progress", Vec::new()),
        };
        assert(e1@ == expected[1]);
        let e2 = ServerEvent::ResponseContentPartAdded {
            response_id: resp_id.clone(),
            item_id: item_id.clone(),
            output_index: 0,
            content_index: 0,
            part: Some(make_text_part("text", "")),
        };
        assert(e2@ == expected[2]);
        let e3 = ServerEvent::ResponseOutputTextDelta {
            response_id: resp_id.clone(),
            item_id: item_id.clone(),
            output_index: 0,
            content_index: 0,
            delta: text_of(response_text),
        };
        assert(e3@ == expected[3]);
        let e4 = ServerEvent::ResponseOutputTextDone {
            response_id: resp_id.clone(),
            item_id: item_id.clone(),
            output_index: 0,
            content_index: 0,
            text: text_of(response_text),
        };
        assert(e4@ == expected[4]);
        let e5 = ServerEvent::ResponseContentPartDone {
            response_id: resp_id.clone(),
            item_id: item_id.clone(),
            output_index: 0,
            content_index: 0,
            part: Some(make_text_part("text", response_text)),
        };
        assert(e5@ == expected[5]);
        let done_content = vec![make_text_part("text", response_text)];
        assert(views_of(done_content@) =~= seq![text_part("text"@, response_text@)]);
        let e6 = ServerEvent::ResponseOutputItemDone {
            response_id: resp_id.clone(),
            output_index: 0,
            item: make_assistant_message(item_id.as_str(), "completed", done_content),
        };
        assert(e6@ == expected[6]);
        let content = vec![make_output_content("text", "", response_text, "")];
        assert(views_of(content@) =~= seq![
            output_content("text"@, Seq::empty(), response_text@, Seq::empty()),
        ]);
        let output = vec![
            make_completed_output(item_id.as_str(), "message", content, "final_answer"),
        ];
        assert(views_of(output@) =~= seq![
            completed_output(
                item_id@,
                "message"@,
                seq![output_content("text"@, Seq::empty(), response_text@, Seq::empty())],
                "final_answer"@,
            ),
        ]);
        let e7 = ServerEvent::ResponseDone {
            response: make_response(
                resp_id.as_str(),
                "completed",
                output,
                Some(make_usage(10, 5, 5)),
            ),
        };
        assert(e7@ == expected[7]);
        let ghost g = seq![e0@, e1@, e2@, e3@, e4@, e5@, e6@, e7@];
        let events = vec![e0, e1, e2, e3, e4, e5, e6, e7];
        assert(views_of(events@) =~= g);
        assert(g =~= expected);
        self.push_all(events);
    }

    /// Enqueue a function call followed by the text response to its output.
    pub fn enqueue_function_call(
        &mut self,
        expected_input: &str,
        call_id: &str,
        function_name: &str,
        arguments: &str,
        response_text: &str,
    )
        requires
            old(self)@.counter + 4 <= u64::MAX,
        ensures
            final(self)@ == (FakeTransportView {
                queue: old(self)@.queue + function_call_events(
                    id_text("item"@, old(self)@.counter + 1),
                    id_text("resp"@, old(self)@.counter + 2),
                    call_id@,
                    function_name@,
                    arguments@,
                ) + text_response_events(
                    id_text("item"@, old(self)@.counter + 3),
                    id_text("resp"@, old(self)@.counter + 4),
                    response_text@,
                ),
                counter: old(self)@.counter + 4,
                ..old(self)@
            }),
    {
        let item_id = self.next_id("item");
        let resp_id = self.next_id("resp");
        let ghost expected = function_call_events(
            item_id@,
            resp_id@,
            call_id@,
            function_name@,
            arguments@,
        );
        proof {
            assert(views_of(Seq::<ResponseOutputItem>::empty()) =~= Seq::<
                ResponseOutputItemView,
            >::empty());
            assert(views_of(Seq::<OutputContent>::empty()) =~= Seq::<OutputContentView>::empty());
        }
        let e0 = ServerEvent::ResponseCreated {
            response: make_response(resp_id.as_str(), "in_progress", Vec::new(), None),
        };
        assert(e0@ == expected[0]);
        let e1 = ServerEvent::ResponseFunctionCallArgumentsDone {
            response_id: resp_id.clone(),
            item_id: item_id.clone(),
            output_index: 0,
            call_id: text_of(call_id),
            name: text_of(function_name),
            arguments: text_of(arguments),
        };
        assert(e1@ == expected[1]);
        let output = vec![
            make_completed_output(item_id.as_str(), "function_call", Vec::new(), "commentary"),
        ];
        assert(views_of(output@) =~= seq![
            completed_output(item_id@, "function_call"@, seq![], "commentary"@),
        ]);
        let e2 = ServerEvent::ResponseDone {
            response: make_response(
                resp_id.as_str(),
                "completed",
                output,
                Some(make_usage(5, 5, 0)),
            ),
        };
        assert(e2@ == expected[2]);
        let ghost g = seq![e0@, e1@, e2@];
        let events = vec![e0, e1, e2];
        assert(views_of(events@) =~= g);
        assert(g =~= expected);
        self.push_all(events);
        self.enqueue_text_response("", response_text);
    }

    /// Enqueue the full lifecycle of an audio response.
    #[verifier::rlimit(40)]
    pub fn enqueue_audio_response(&mut self, transcript: &str, audio_base64: &str)
        requires
            old(self)@.counter + 2 <= u64::MAX,
        ensures
            final(self)@ == (FakeTransportView {
                queue: old(self)@.queue + audio_response_events(
                    id_text("item"@, old(self)@.counter + 1),
                    id_text("resp"@, old(self)@.counter + 2),
                    transcript@,
                    audio_base64@,
                ),
                counter: old(self)@.counter + 2,
                ..old(self)@
            }),
    {
        let item_id = self.next_id("item");
        let resp_id = self.next_id("resp");
        let ghost expected = audio_response_events(
            item_id@,
            resp_id@,
            transcript@,
            audio_base64@,
        );
        proof {
            reveal_strlit("");
            assert(""@ =~= Seq::<char>::empty());
            assert(views_of(Seq::<ResponseOutputItem>::empty()) =~= Seq::<
                ResponseOutputItemView,
            >::empty());
        }
        let e0 = ServerEvent::ResponseCreated {
            response: make_response(resp_id.as_str(), "in_progress", Vec::new(), None),
        };
        assert(e0@ == expected[0]);
        let e1 = ServerEvent::ResponseOutputAudioDelta {
            response_id: resp_id.clone(),
            item_id: item_id.clone(),
            output_index: 0,
            content_index: 0,
            delta: text_of(audio_base64),
        };
        assert(e1@ == expected[1]);
        let e2 = ServerEvent::ResponseOutputAudioDone {
            response_id: resp_id.clone(),
            item_id: item_id.clone(),
            output_index: 0,
            content_index: 0,
        };
        assert(e2@ == expected[2]);
        let e3 = ServerEvent::ResponseOutputAudioTranscriptDone {
            response_id: resp_id.clone(),
            item_id: item_id.clone(),
            output_index: 0,
            content_index: 0,
            transcript: text_of(transcript),
        };
        assert(e3@ == expected[3]);
        let content = vec![make_output_content("audio", transcript, "", audio_base64)];
        assert(views_of(content@) =~= seq![
            output_content("audio"@, transcript@, Seq::empty(), audio_base64@),
        ]);
        let output = vec![
            make_completed_output(item_id.as_str(), "message", content, "final_answer"),
        ];
        assert(views_of(output@) =~= seq![
            completed_output(
                item_id@,
                "message"@,
                seq![output_content("audio"@, transcript@, Seq::empty(), audio_base64@)],
                "final_answer"@,
            ),
        ]);
        let e4 = ServerEvent::ResponseDone {
            response: make_response(
                resp_id.as_str(),
                "completed",
                output,
                Some(make_usage(10, 5, 5)),
            ),
        };
        assert(e4@ == expected[4]);
        let ghost g = seq![e0@, e1@, e2@, e3@, e4@];
        let events = vec![e0, e1, e2, e3, e4];
        assert(views_of(events@) =~= g);
        assert(g =~= expected);
        self.push_all(events);
    }

    /// Enqueue a session.updated event carrying the scripted session.
    pub fn enqueue_session_updated(&mut self)
        ensures
            final(self)@ == (FakeTransportView {
                queue: old(self)@.queue.push(
                    ServerEventView::SessionUpdated {
                        session: initial_session(old(self)@.session_id, scripted_instructions()),
                    },
                ),
                ..old(self)@
            }),
    {
        let session = make_initial_session(self.session_id.as_str(), "You are a fake test model.");
        self.push_event(ServerEvent::SessionUpdated { session });
    }

    fn queue_has_session_updated(&self) -> (b: bool)
        ensures
            b == has_session_updated(self@.queue),
    {
        let n = self.event_queue.len();
        for i in 0..n
            invariant
                n == self.event_queue@.len(),
                forall|j: int| 0 <= j < i ==> !(#[trigger] self@.queue[j] is SessionUpdated),
        {
            if let ServerEvent::SessionUpdated { .. } = &self.event_queue[i] {
                assert(self@.queue[i as int] is SessionUpdated);
                return true;
            }
        }
        false
    }

    /// Mark the transport connected.
    pub fn connect(&mut self)
        ensures
            final(self)@ == (FakeTransportView { connected: true, ..old(self)@ }),
    {
        self.connected = true;
    }

    /// Process a client event: a session update with no scripted reply is
    /// answered with session.updated, and conversation items are recorded.
    pub fn send(&mut self, event: &ClientEvent)
        ensures
            event@ is SessionUpdate ==> {
                if has_session_updated(old(self)@.queue) {
                    final(self)@ == old(self)@
                } else {
                    final(self)@ == (FakeTransportView {
                        queue: old(self)@.queue.push(
                            ServerEventView::SessionUpdated {
                                session: initial_session(
                                    old(self)@.session_id,
                                    scripted_instructions(),
                                ),
                            },
                        ),
                        ..old(self)@
                    })
                }
            },
            event@ matches ClientEventView::ConversationItemCreate { item, .. } ==> final(self)@
                == (FakeTransportView {
                conversation: old(self)@.conversation.push(item),
                ..old(self)@
            }),
            !(event@ is SessionUpdate) && !(event@ is ConversationItemCreate) ==> final(self)@
                == old(self)@,
    {
        match event {
            ClientEvent::SessionUpdate { .. } => {
                if !self.queue_has_session_updated() {
                    self.enqueue_session_updated();
                }
            },
            ClientEvent::ConversationItemCreate { item, .. } => {
                let copy = item.clone();
                self.conversation.push(copy);
                assert(views_of(self.conversation@) =~= views_of(old(self).conversation@).push(
                    item@,
                ));
            },
            _ => {},
        }
    }

    /// The next scripted event, if any.
    pub fn recv(&mut self) -> (event: Option<ServerEvent>)
        ensures
            old(self)@.queue.len() == 0 ==> event is None && final(self)@ == old(self)@,
            old(self)@.queue.len() > 0 ==> {
                &&& event matches Some(e) && e@ == old(self)@.queue[0]
                &&& final(self)@ == (FakeTransportView {
                    queue: old(self)@.queue.drop_first(),
                    ..old(self)@
                })
            },
    {
        let e = self.event_queue.pop_front();
        assert(views_of(self.event_queue@) =~= if old(self)@.queue.len() > 0 {
            old(self)@.queue.drop_first()
        } else {
            old(self)@.queue
        });
        e
    }

    /// Mark the transport disconnected.
    pub fn close(&mut self)
        ensures
            final(self)@ == (FakeTransportView { connected: false, ..old(self)@ }),
    {
        self.connected = false;
    }

    /// Whether the transport is connected.
    pub fn is_connected(&self) -> (b: bool)
        ensures
            b == self@.connected,
    {
        self.connected
    }
}

impl Default for FakeTransport {
    fn default() -> (t: Self)
        ensures
            t@.queue == Seq::<ServerEventView>::empty(),
            t@.session_id == Seq::<char>::empty(),
            !t@.connected,
            t@.conversation == Seq::<ConversationItemView>::empty(),
            t@.counter == 0,
    {
        Self::new()
    }
}

/// The text deltas of a sequence of events, put together in order.
pub open spec fn text_delta_concat(events: Seq<ServerEventView>) -> Seq<char>
    decreases events.len(),
{
    if events.len() == 0 {
        Seq::empty()
    } else {
        let prev = text_delta_concat(events.drop_last());
        match events.last() {
            ServerEventView::ResponseOutputTextDelta { delta, .. } => prev + delta,
            _ => prev,
        }
    }
}

/// In a scripted text response the finished text (`response.output_text.done`)
/// is the scripted response text, and it is what the text deltas before it
/// put together give.
pub proof fn lemma_scripted_text_done_is_deltas(
    item_id: Seq<char>,
    resp_id: Seq<char>,
    text: Seq<char>,
)
    ensures
        exists|i: int|
            0 <= i < text_response_events(item_id, resp_id, text).len() && #[trigger] text_response_events(
                item_id,
                resp_id,
                text,
            )[i] is ResponseOutputTextDone,
        forall|i: int|
            0 <= i < text_response_events(item_id, resp_id, text).len() ==> (
            #[trigger] text_response_events(item_id, resp_id, text)[i] matches ServerEventView::ResponseOutputTextDone {
                text: done,
                ..
            } ==> done == text && done == text_delta_concat(
                text_response_events(item_id, resp_id, text).take(i),
            ) && done == text_delta_concat(text_response_events(item_id, resp_id, text))),
{
    let e = text_response_events(item_id, resp_id, text);
    assert(e[4] is ResponseOutputTextDone);
    assert(e.take(0) =~= Seq::<ServerEventView>::empty());
    assert(text_delta_concat(e.take(0)) == Seq::<char>::empty());
    assert(e.take(1).drop_last() =~= e.take(0));
    assert(e.take(1).last() == e[0]);
    assert(text_delta_concat(e.take(1)) == Seq::<char>::empty());
    assert(e.take(2).drop_last() =~= e.take(1));
    assert(e.take(2).last() == e[1]);
    assert(text_delta_concat(e.take(2)) == Seq::<char>::empty());
    assert(e.take(3).drop_last() =~= e.take(2));
    assert(e.take(3).last() == e[2]);
    assert(text_delta_concat(e.take(3)) == Seq::<char>::empty());
    assert(e.take(4).drop_last() =~= e.take(3));
    assert(e.take(4).last() == e[3]);
    assert(Seq::<char>::empty() + text =~= text);
    assert(text_delta_concat(e.take(4)) == text);
    assert(e.take(5).drop_last() =~= e.take(4));
    assert(e.take(5).last() == e[4]);
    assert(text_delta_concat(e.take(5)) == text);
    assert(e.take(6).drop_last() =~= e.take(5));
    assert(e.take(6).last() == e[5]);
    assert(text_delta_concat(e.take(6)) == text);
    assert(e.take(7).drop_last() =~= e.take(6));
    assert(e.take(7).last() == e[6]);
    assert(text_delta_concat(e.take(7)) == text);
    assert(e.take(8).drop_last() =~= e.take(7));
    assert(e.take(8).last() == e[7]);
    assert(text_delta_concat(e.take(8)) == text);
    assert(e.take(8) =~= e);
}

} // verus!
