//! The turn-taking state machine: consumes one recognizer result per polling
//! cycle, watches for the wake phrase, accumulates the utterance and decides,
//! by counting silent cycles, when it is complete.
use vstd::prelude::*;
use crate::config::{AssistantConfig, TimeRangeConfig};
use crate::dialogue::{history_view, initial_history, Message, MessageView};
use crate::text::{
    contains_text, find_text, first_occurrence, lemma_first_occurrence_unique, occurs, trim_text, trimmed,
};

verus! {

/// Silent cycles after which a buffered utterance counts as complete; also the
/// step by which an empty final result advances the count.
pub const CONTINUATION_CHUNKS: u32 = 3;

/// Silent cycles after which listening without any buffered text gives up.
pub const SILENCE_TO_IDLE_CHUNKS: u32 = 20;

#[derive(PartialEq, Eq, Structural, Clone, Copy, Debug)]
pub enum Mode {
    /// Waiting for the wake phrase.
    Idle,
    /// Accumulating an utterance.
    ListeningQuery,
}

/// The state that the polling loop carries from cycle to cycle.
pub struct Listener {
    pub mode: Mode,
    pub buffer: String,
    pub silence: u32,
    pub history: Vec<Message>,
}

pub struct ListenerView {
    pub mode: Mode,
    pub buffer: Seq<char>,
    pub silence: int,
    pub history: Seq<MessageView>,
}

impl View for Listener {
    type V = ListenerView;

    open spec fn view(&self) -> ListenerView {
        ListenerView {
            mode: self.mode,
            buffer: self.buffer@,
            silence: self.silence as int,
            history: history_view(self.history@),
        }
    }
}

/// What the polling loop is to do after a cycle.
pub enum ListenAction {
    /// Poll again.
    Continue,
    /// Discard the recognizer; it is recreated on the next cycle.
    Restart,
    /// The utterance is complete: run the dialogue on it with the history, which
    /// now holds only the system prompt; speak the reply with the microphone
    /// released, then discard the recognizer.
    Dispatch(String),
}

pub enum ListenActionView {
    Continue,
    Restart,
    Dispatch(Seq<char>),
}

impl View for ListenAction {
    type V = ListenActionView;

    open spec fn view(&self) -> ListenActionView {
        match self {
            ListenAction::Continue => ListenActionView::Continue,
            ListenAction::Restart => ListenActionView::Restart,
            ListenAction::Dispatch(q) => ListenActionView::Dispatch(q@),
        }
    }
}

/// The parts of the configuration that the state machine reads.
pub struct Cues {
    pub wake: Seq<char>,
    pub stops: Seq<Seq<char>>,
    pub prompt: Seq<char>,
}

pub open spec fn cues(a: AssistantConfig) -> Cues {
    Cues {
        wake: a.wake_word@,
        stops: a.stop_words@.map_values(|w: String| w@),
        prompt: a.system_prompt@,
    }
}

/// A conversation holding only the system prompt.
pub open spec fn fresh_history(prompt: Seq<char>) -> Seq<MessageView> {
    seq![MessageView::System(prompt)]
}

/// Some stop word occurs in `text`.
pub open spec fn has_stop_word(stops: Seq<Seq<char>>, text: Seq<char>) -> bool {
    exists|i: int| 0 <= i < stops.len() && occurs(text, stops[i])
}

/// The utterance that a result containing the wake phrase starts with: what
/// follows the phrase's first occurrence, trimmed, in a final result; nothing
/// in a partial one.
pub open spec fn seed(text: Seq<char>, wake: Seq<char>, is_final: bool) -> Seq<char> {
    if is_final {
        let p = choose|p: int| first_occurrence(text, wake, p);
        trimmed(text.subrange(p + wake.len(), text.len() as int))
    } else {
        Seq::empty()
    }
}

/// `buf` with the fragment `t` added, separated by a space.
pub open spec fn joined(buf: Seq<char>, t: Seq<char>) -> Seq<char> {
    if buf.len() == 0 { t } else { buf + seq![' '] + t }
}

/// The buffer after a result, before any dispatch.
pub open spec fn buffer_after(buf: Seq<char>, text: Seq<char>, is_final: bool) -> Seq<char> {
    if is_final && text.len() > 0 { joined(buf, text) } else { buf }
}

/// The silence count after a result, before any dispatch.
pub open spec fn silence_after(buf: Seq<char>, silence: int, text: Seq<char>, is_final: bool) -> int {
    if is_final && text.len() > 0 {
        0
    } else if is_final && buf.len() > 0 {
        silence + CONTINUATION_CHUNKS
    } else if text.len() == 0 {
        silence + 1
    } else {
        0
    }
}

/// The state after one recognizer result.
pub open spec fn next_state(s: ListenerView, c: Cues, text: Seq<char>, is_final: bool) -> ListenerView {
    match s.mode {
        Mode::Idle => if occurs(text, c.wake) {
            ListenerView {
                mode: Mode::ListeningQuery,
                buffer: seed(text, c.wake, is_final),
                silence: 0,
                history: fresh_history(c.prompt),
            }
        } else {
            s
        },
        Mode::ListeningQuery => if has_stop_word(c.stops, text) {
            ListenerView { mode: Mode::Idle, buffer: Seq::empty(), silence: 0, history: fresh_history(c.prompt) }
        } else {
            let buf = buffer_after(s.buffer, text, is_final);
            let sil = silence_after(s.buffer, s.silence, text, is_final);
            if buf.len() > 0 && sil >= CONTINUATION_CHUNKS {
                ListenerView {
                    mode: Mode::ListeningQuery,
                    buffer: Seq::empty(),
                    silence: 0,
                    history: fresh_history(c.prompt),
                }
            } else if buf.len() == 0 && sil >= SILENCE_TO_IDLE_CHUNKS {
                ListenerView { mode: Mode::Idle, buffer: buf, silence: sil, history: fresh_history(c.prompt) }
            } else {
                ListenerView { mode: Mode::ListeningQuery, buffer: buf, silence: sil, history: s.history }
            }
        },
    }
}

/// The action after one recognizer result.
pub open spec fn next_action(s: ListenerView, c: Cues, text: Seq<char>, is_final: bool) -> ListenActionView {
    match s.mode {
        Mode::Idle => if occurs(text, c.wake) {
            ListenActionView::Restart
        } else {
            ListenActionView::Continue
        },
        Mode::ListeningQuery => if has_stop_word(c.stops, text) {
            ListenActionView::Restart
        } else {
            let buf = buffer_after(s.buffer, text, is_final);
            let sil = silence_after(s.buffer, s.silence, text, is_final);
            if buf.len() > 0 && sil >= CONTINUATION_CHUNKS {
                ListenActionView::Dispatch(buf)
            } else if buf.len() == 0 && sil >= SILENCE_TO_IDLE_CHUNKS {
                ListenActionView::Restart
            } else {
                ListenActionView::Continue
            }
        },
    }
}

/// The state after a run of final results, one per cycle.
pub open spec fn run_finals(s: ListenerView, c: Cues, frags: Seq<Seq<char>>) -> ListenerView
    decreases frags.len(),
{
    if frags.len() == 0 {
        s
    } else {
        next_state(run_finals(s, c, frags.drop_last()), c, frags.last(), true)
    }
}

/// `buf` followed by the non-empty fragments, each after a space.
pub open spec fn join_fragments(buf: Seq<char>, frags: Seq<Seq<char>>) -> Seq<char>
    decreases frags.len(),
{
    if frags.len() == 0 {
        buf
    } else if frags.last().len() == 0 {
        join_fragments(buf, frags.drop_last())
    } else {
        joined(join_fragments(buf, frags.drop_last()), frags.last())
    }
}

/// While listening, final results without a stop word that never end the
/// listening join the buffer in order, separated by spaces, empty ones
/// skipped. An empty final result marks the end of an utterance once text is
/// buffered, so the run holds none after the first text.
pub proof fn lemma_finals_accumulate(s: ListenerView, c: Cues, frags: Seq<Seq<char>>)
    requires
        s.mode == Mode::ListeningQuery,
        forall|i: int| 0 <= i < frags.len() ==> !has_stop_word(c.stops, #[trigger] frags[i]),
        forall|i: int| 0 <= i < frags.len() ==>
            (#[trigger] run_finals(s, c, frags.take(i + 1))).mode == Mode::ListeningQuery,
        forall|i: int| 0 <= i < frags.len() && (#[trigger] frags[i]).len() == 0 ==>
            run_finals(s, c, frags.take(i)).buffer.len() == 0,
    ensures
        run_finals(s, c, frags).buffer == join_fragments(s.buffer, frags),
        run_finals(s, c, frags).mode == Mode::ListeningQuery,
        run_finals(s, c, frags).history == s.history,
    decreases frags.len(),
{
    if frags.len() > 0 {
        let n = frags.len() - 1;
        let init = frags.drop_last();
        assert forall|i: int| 0 <= i < init.len() implies #[trigger] init.take(i + 1) == frags.take(i + 1) by {
            assert(init.take(i + 1) =~= frags.take(i + 1));
        }
        assert forall|i: int| 0 <= i < init.len() implies #[trigger] init.take(i) == frags.take(i) by {
            assert(init.take(i) =~= frags.take(i));
        }
        assert forall|i: int| 0 <= i < init.len() implies !has_stop_word(c.stops, #[trigger] init[i]) by {
            assert(init[i] == frags[i]);
        }
        assert forall|i: int| 0 <= i < init.len() implies
            (#[trigger] run_finals(s, c, init.take(i + 1))).mode == Mode::ListeningQuery by {
            assert(init.take(i + 1) == frags.take(i + 1));
        }
        assert forall|i: int| 0 <= i < init.len() && (#[trigger] init[i]).len() == 0 implies
            run_finals(s, c, init.take(i)).buffer.len() == 0 by {
            assert(init[i] == frags[i]);
            assert(init.take(i) == frags.take(i));
        }
        lemma_finals_accumulate(s, c, init);
        assert(frags.take(n + 1) =~= frags);
        assert(frags.take(n) =~= init);
        assert(!has_stop_word(c.stops, frags[n]));
        assert(run_finals(s, c, frags.take(n + 1)).mode == Mode::ListeningQuery);
    }
}

/// A stop word in any result while listening returns to idle at once, with the
/// buffer cleared and the conversation reset, whatever was buffered.
pub proof fn lemma_stop_word_aborts(s: ListenerView, c: Cues, text: Seq<char>, is_final: bool)
    requires
        s.mode == Mode::ListeningQuery,
        has_stop_word(c.stops, text),
    ensures
        next_state(s, c, text, is_final) == (ListenerView {
            mode: Mode::Idle,
            buffer: Seq::empty(),
            silence: 0,
            history: fresh_history(c.prompt),
        }),
        next_action(s, c, text, is_final) == ListenActionView::Restart,
{
}

/// When the silence count reaches the grace threshold with text buffered, the
/// whole buffer is handed on once for a dialogue, with a conversation that
/// holds only the system prompt, and the buffer is cleared.
pub proof fn lemma_grace_dispatches(s: ListenerView, c: Cues, text: Seq<char>, is_final: bool)
    requires
        s.mode == Mode::ListeningQuery,
        !has_stop_word(c.stops, text),
        buffer_after(s.buffer, text, is_final).len() > 0,
        silence_after(s.buffer, s.silence, text, is_final) >= CONTINUATION_CHUNKS,
    ensures
        next_action(s, c, text, is_final) == ListenActionView::Dispatch(buffer_after(s.buffer, text, is_final)),
        next_state(s, c, text, is_final).buffer.len() == 0,
        next_state(s, c, text, is_final).silence == 0,
        next_state(s, c, text, is_final).mode == Mode::ListeningQuery,
        next_state(s, c, text, is_final).history == fresh_history(c.prompt),
{
}

/// When the silence count reaches the idle timeout with nothing buffered, the
/// machine returns to idle and no dialogue is started.
pub proof fn lemma_timeout_idles(s: ListenerView, c: Cues, text: Seq<char>, is_final: bool)
    requires
        s.mode == Mode::ListeningQuery,
        !has_stop_word(c.stops, text),
        buffer_after(s.buffer, text, is_final).len() == 0,
        silence_after(s.buffer, s.silence, text, is_final) >= SILENCE_TO_IDLE_CHUNKS,
    ensures
        next_state(s, c, text, is_final).mode == Mode::Idle,
        next_state(s, c, text, is_final).history == fresh_history(c.prompt),
        next_action(s, c, text, is_final) == ListenActionView::Restart,
{
}

/// A partial result holding the wake phrase starts listening with an empty
/// buffer; a final one seeds the buffer with what follows the phrase.
pub proof fn lemma_wake_starts_listening(s: ListenerView, c: Cues, text: Seq<char>, is_final: bool)
    requires
        s.mode == Mode::Idle,
        occurs(text, c.wake),
    ensures
        next_state(s, c, text, is_final).mode == Mode::ListeningQuery,
        next_state(s, c, text, is_final).buffer == seed(text, c.wake, is_final),
        !is_final ==> next_state(s, c, text, is_final).buffer.len() == 0,
        next_state(s, c, text, is_final).silence == 0,
        next_state(s, c, text, is_final).history == fresh_history(c.prompt),
{
}

/// Relies on chrono's `Local::now` and `Timelike::hour`: the current local
/// hour, from 0 to 23.
#[verifier::external_body]
fn local_hour() -> (r: u32)
    ensures
        r < 24,
{
    chrono::Timelike::hour(&chrono::Local::now())
}

impl Listener {
    /// While listening the silence count stays below the idle timeout.
    pub open spec fn wf(&self) -> bool {
        self.mode == Mode::ListeningQuery ==> self.silence < SILENCE_TO_IDLE_CHUNKS
    }

    /// Idle, with an empty buffer and a fresh conversation.
    pub fn new(assistant: &AssistantConfig) -> (r: Listener)
        ensures
            r.wf(),
            r@ == (ListenerView {
                mode: Mode::Idle,
                buffer: Seq::empty(),
                silence: 0,
                history: fresh_history(assistant.system_prompt@),
            }),
    {
        Listener {
            mode: Mode::Idle,
            buffer: String::new(),
            silence: 0,
            history: initial_history(assistant.system_prompt.as_str()),
        }
    }

    /// Back to idle with an empty buffer and a fresh conversation, as outside
    /// the active hours.
    pub fn reset(&mut self, assistant: &AssistantConfig)
        ensures
            final(self).wf(),
            final(self)@ == (ListenerView {
                mode: Mode::Idle,
                buffer: Seq::empty(),
                silence: 0,
                history: fresh_history(assistant.system_prompt@),
            }),
    {
        self.mode = Mode::Idle;
        self.buffer = String::new();
        self.silence = 0;
        self.history = initial_history(assistant.system_prompt.as_str());
    }

    /// Whether the assistant listens at local hour `hour`; outside the active
    /// hours the state is reset.
    pub fn check_hour(&mut self, assistant: &AssistantConfig, range: &TimeRangeConfig, hour: u32) -> (r: bool)
        requires
            old(self).wf(),
        ensures
            final(self).wf(),
            r == (range.start_hour <= hour && hour < range.end_hour),
            r ==> final(self)@ == old(self)@,
            !r ==> final(self)@ == (ListenerView {
                mode: Mode::Idle,
                buffer: Seq::empty(),
                silence: 0,
                history: fresh_history(assistant.system_prompt@),
            }),
    {
        let active = range.contains_hour(hour);
        if !active {
            self.reset(assistant);
        }
        active
    }

    /// Whether the assistant listens now, by the local clock; outside the
    /// active hours the state is reset.
    pub fn check_clock(&mut self, assistant: &AssistantConfig, range: &TimeRangeConfig) -> (r: bool)
        requires
            old(self).wf(),
        ensures
            final(self).wf(),
            r ==> final(self)@ == old(self)@,
            !r ==> final(self)@ == (ListenerView {
                mode: Mode::Idle,
                buffer: Seq::empty(),
                silence: 0,
                history: fresh_history(assistant.system_prompt@),
            }),
            range.start_hour >= 24 || range.end_hour == 0 || range.start_hour >= range.end_hour ==> !r,
            range.start_hour == 0 && range.end_hour >= 24 ==> r,
    {
        let hour = local_hour();
        self.check_hour(assistant, range, hour)
    }

    /// Takes one recognizer result, `is_final` when the recognizer has committed
    /// to it; an empty text means no speech in the window.
    pub fn heard(&mut self, assistant: &AssistantConfig, text: &str, is_final: bool) -> (r: ListenAction)
        requires
            old(self).wf(),
        ensures
            final(self).wf(),
            final(self)@ == next_state(old(self)@, cues(*assistant), text@, is_final),
            r@ == next_action(old(self)@, cues(*assistant), text@, is_final),
    {
        match self.mode {
            Mode::Idle => {
                match find_text(text, assistant.wake_word.as_str()) {
                    None => ListenAction::Continue,
                    Some(p) => {
                        let seeded = if is_final {
                            let tlen = text.unicode_len();
                            let wlen = assistant.wake_word.as_str().unicode_len();
                            let rest = text.substring_char(p + wlen, tlen);
                            proof {
                                let q = choose|q: int| first_occurrence(text@, assistant.wake_word@, q);
                                lemma_first_occurrence_unique(text@, assistant.wake_word@, p as int, q);
                            }
                            trim_text(rest)
                        } else {
                            String::new()
                        };
                        self.mode = Mode::ListeningQuery;
                        self.buffer = seeded;
                        self.silence = 0;
                        self.history = initial_history(assistant.system_prompt.as_str());
                        ListenAction::Restart
                    },
                }
            },
            Mode::ListeningQuery => {
                if self.hears_stop_word(assistant, text) {
                    self.reset(assistant);
                    return ListenAction::Restart;
                }
                if is_final && !text.is_empty() {
                    let ghost before = self.buffer@;
                    if !self.buffer.as_str().is_empty() {
                        proof {
                            reveal_strlit(" ");
                        }
                        self.buffer.append(" ");
                    }
                    self.buffer.append(text);
                    assert(self.buffer@ =~= joined(before, text@));
                    self.silence = 0;
                } else if is_final && text.is_empty() && !self.buffer.as_str().is_empty() {
                    self.silence = self.silence + CONTINUATION_CHUNKS;
                } else if text.is_empty() {
                    self.silence = self.silence + 1;
                } else {
                    self.silence = 0;
                }
                if !self.buffer.as_str().is_empty() && self.silence >= CONTINUATION_CHUNKS {
                    let query = self.buffer.clone();
                    self.buffer = String::new();
                    self.silence = 0;
                    self.history = initial_history(assistant.system_prompt.as_str());
                    return ListenAction::Dispatch(query);
                }
                if self.buffer.as_str().is_empty() && self.silence >= SILENCE_TO_IDLE_CHUNKS {
                    self.mode = Mode::Idle;
                    self.history = initial_history(assistant.system_prompt.as_str());
                    return ListenAction::Restart;
                }
                ListenAction::Continue
            },
        }
    }

    fn hears_stop_word(&self, assistant: &AssistantConfig, text: &str) -> (r: bool)
        ensures
            r == has_stop_word(cues(*assistant).stops, text@),
    {
        let ghost stops = cues(*assistant).stops;
        let mut i: usize = 0;
        while i < assistant.stop_words.len()
            invariant
                i <= assistant.stop_words@.len(),
                stops == cues(*assistant).stops,
                forall|j: int| 0 <= j < i ==> !occurs(text@, stops[j]),
            decreases assistant.stop_words@.len() - i,
        {
            if contains_text(text, assistant.stop_words[i].as_str()) {
                assert(stops[i as int] == assistant.stop_words@[i as int]@);
                return true;
            }
            i = i + 1;
        }
        false
    }
}

} // verus!
