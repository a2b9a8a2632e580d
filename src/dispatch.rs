//! The request-dispatch state machine: at most one prompt is in flight, and
//! each accepted prompt is reconciled with exactly one outcome.
use vstd::prelude::*;
use vstd::string::*;

verus! {

/// Who a transcript entry speaks for.
#[derive(Clone, Copy, Debug, PartialEq, Eq, Structural)]
pub enum Role {
    User,
    Assistant,
    Error,
}

/// Text of the error entry written when the service answers without a
/// usable `response` string.
pub const MALFORMED_REPLY: &'static str = "No response";

/// A character that counts as blank in a prompt: the Unicode White_Space
/// characters, the set that `char::is_whitespace` accepts.
pub open spec fn is_space(c: char) -> bool {
    let u = c as u32;
    ||| 0x09 <= u <= 0x0D
    ||| u == 0x20
    ||| u == 0x85
    ||| u == 0xA0
    ||| u == 0x1680
    ||| 0x2000 <= u <= 0x200A
    ||| u == 0x2028
    ||| u == 0x2029
    ||| u == 0x202F
    ||| u == 0x205F
    ||| u == 0x3000
}

/// Tells whether `c` counts as blank.
pub fn is_space_char(c: char) -> (r: bool)
    ensures
        r == is_space(c),
{
    let u = c as u32;
    (0x09 <= u && u <= 0x0D) || u == 0x20 || u == 0x85 || u == 0xA0 || u == 0x1680 || (0x2000 <= u
        && u <= 0x200A) || u == 0x2028 || u == 0x2029 || u == 0x202F || u == 0x205F || u == 0x3000
}

/// A prompt with nothing but blanks in it (the empty prompt included).
pub open spec fn is_blank(s: Seq<char>) -> bool {
    forall|i: int| 0 <= i < s.len() ==> is_space(#[trigger] s[i])
}

/// Tells whether `text` holds only blank characters.
pub fn is_blank_text(text: &str) -> (r: bool)
    ensures
        r == is_blank(text@),
{
    let n = text.unicode_len();
    let mut i: usize = 0;
    while i < n
        invariant
            n == text@.len(),
            i <= n,
            forall|j: int| 0 <= j < i ==> is_space(#[trigger] text@[j]),
        decreases n - i,
    {
        let c = text.get_char(i);
        if !is_space_char(c) {
            return false;
        }
        i = i + 1;
    }
    true
}

/// One record of the transcript: appended, never changed.
#[derive(Clone, Debug)]
pub struct TranscriptEntry {
    pub role: Role,
    pub text: String,
}

impl View for TranscriptEntry {
    type V = (Role, Seq<char>);

    open spec fn view(&self) -> (Role, Seq<char>) {
        (self.role, self.text@)
    }
}

/// The label that introduces an entry of the given role in the editor.
pub open spec fn role_label(role: Role) -> Seq<char> {
    match role {
        Role::User => "You: "@,
        Role::Assistant => "Ollama: "@,
        Role::Error => "Error: "@,
    }
}

/// How an entry reads once written into the editor buffer.
pub open spec fn entry_text(e: (Role, Seq<char>)) -> Seq<char> {
    role_label(e.0) + e.1 + "\n\n"@
}

impl TranscriptEntry {
    /// The text to append to the editor buffer for this entry.
    pub fn to_text(&self) -> (r: String)
        ensures
            r@ == entry_text(self@),
    {
        let label = match self.role {
            Role::User => "You: ",
            Role::Assistant => "Ollama: ",
            Role::Error => "Error: ",
        };
        let mut r = String::from_str(label);
        r.append(self.text.as_str());
        r.append("\n\n");
        r
    }
}

/// Views of a sequence of entries.
pub open spec fn entries_view(v: Seq<TranscriptEntry>) -> Seq<(Role, Seq<char>)> {
    v.map_values(|e: TranscriptEntry| e@)
}

/// A prompt accepted for sending; its text is a snapshot taken at submission.
#[derive(Clone, Debug)]
pub struct PromptRequest {
    pub text: String,
}

/// How an in-flight request ended.
#[derive(Clone, Debug)]
pub enum Outcome {
    /// The service answered with this reply text.
    Reply(String),
    /// The transport failed (connection refused, timeout, ...), described here.
    TransportError(String),
    /// The service answered, but not with a `response` string.
    Malformed,
}

/// Model of an outcome.
pub enum OutcomeView {
    Reply(Seq<char>),
    TransportError(Seq<char>),
    Malformed,
}

impl View for Outcome {
    type V = OutcomeView;

    open spec fn view(&self) -> OutcomeView {
        match self {
            Outcome::Reply(r) => OutcomeView::Reply(r@),
            Outcome::TransportError(m) => OutcomeView::TransportError(m@),
            Outcome::Malformed => OutcomeView::Malformed,
        }
    }
}

/// The entries that settle a request for `prompt` that ended with `o`.
pub open spec fn outcome_entries(prompt: Seq<char>, o: OutcomeView) -> Seq<(Role, Seq<char>)> {
    match o {
        OutcomeView::Reply(r) => seq![(Role::User, prompt), (Role::Assistant, r)],
        OutcomeView::TransportError(m) => seq![(Role::Error, m)],
        OutcomeView::Malformed => seq![(Role::Error, MALFORMED_REPLY@)],
    }
}

/// Whether the request slot is free or holds a prompt.
#[derive(Clone, Debug)]
pub enum DispatchState {
    Idle,
    InFlight(PromptRequest),
}

/// What the user interface does once a request is settled.
#[derive(Clone, Debug)]
pub struct Completion {
    /// Entries to append to the editor buffer, in order.
    pub appended: Vec<TranscriptEntry>,
    /// Whether the input field is cleared; otherwise it keeps the prompt.
    pub clear_input: bool,
}

/// Model of a session: the prompt in flight, if any, and the transcript.
pub struct SessionView {
    pub in_flight: Option<Seq<char>>,
    pub transcript: Seq<(Role, Seq<char>)>,
}

/// The submission step: a non-blank prompt is accepted only when no request is
/// in flight; the accepted prompt is what goes to the transport.
pub open spec fn submit_step(s: SessionView, text: Seq<char>) -> (SessionView, Option<Seq<char>>) {
    if s.in_flight is None && !is_blank(text) {
        (SessionView { in_flight: Some(text), transcript: s.transcript }, Some(text))
    } else {
        (s, None)
    }
}

/// The completion step: an outcome settles the request in flight and frees the
/// slot; with nothing in flight it changes nothing.
pub open spec fn complete_step(s: SessionView, o: OutcomeView) -> (SessionView, Option<Seq<(Role, Seq<char>)>>) {
    match s.in_flight {
        Some(p) => {
            let added = outcome_entries(p, o);
            (SessionView { in_flight: None, transcript: s.transcript + added }, Some(added))
        },
        None => (s, None),
    }
}

/// The single-slot dispatcher of one editor session.
pub struct Dispatcher {
    state: DispatchState,
    transcript: Vec<TranscriptEntry>,
}

impl View for Dispatcher {
    type V = SessionView;

    closed spec fn view(&self) -> SessionView {
        SessionView {
            in_flight: match self.state {
                DispatchState::Idle => None,
                DispatchState::InFlight(p) => Some(p.text@),
            },
            transcript: entries_view(self.transcript@),
        }
    }
}

impl Dispatcher {
    /// A session with nothing in flight and an empty transcript.
    pub fn new() -> (r: Dispatcher)
        ensures
            r@.in_flight is None,
            r@.transcript.len() == 0,
    {
        Dispatcher { state: DispatchState::Idle, transcript: Vec::new() }
    }

    /// Whether no request is in flight; the submission controls are enabled
    /// exactly then.
    pub fn is_idle(&self) -> (r: bool)
        ensures
            r == (self@.in_flight is None),
    {
        match self.state {
            DispatchState::Idle => true,
            DispatchState::InFlight(_) => false,
        }
    }

    /// The prompt in flight, if any.
    pub fn in_flight(&self) -> (r: Option<String>)
        ensures
            match r {
                Some(t) => self@.in_flight == Some(t@),
                None => self@.in_flight is None,
            },
    {
        match &self.state {
            DispatchState::Idle => None,
            DispatchState::InFlight(p) => Some(p.text.clone()),
        }
    }

    /// The transcript so far, oldest first.
    pub fn transcript(&self) -> (r: &Vec<TranscriptEntry>)
        ensures
            entries_view(r@) == self@.transcript,
    {
        &self.transcript
    }

    /// The guarded entry point. Accepts `input` when it is not blank and no
    /// request is in flight: the prompt is captured by value and returned as
    /// the one request to send, and the controls are to be disabled.
    /// Otherwise nothing changes and nothing is sent.
    pub fn submit(&mut self, input: &str) -> (r: Option<PromptRequest>)
        ensures
            (final(self)@, match r {
                Some(p) => Some(p.text@),
                None => None,
            }) == submit_step(old(self)@, input@),
    {
        let blank = is_blank_text(input);
        if blank || !self.is_idle() {
            return None;
        }
        let text = String::from_str(input);
        self.state = DispatchState::InFlight(PromptRequest { text: text.clone() });
        Some(PromptRequest { text })
    }

    /// Settles the request in flight with `outcome`: appends its entries to the
    /// transcript, frees the slot, and says how the input field ends. With
    /// nothing in flight it is ignored.
    pub fn complete(&mut self, outcome: Outcome) -> (r: Option<Completion>)
        ensures
            (final(self)@, match r {
                Some(c) => Some(entries_view(c.appended@)),
                None => None,
            }) == complete_step(old(self)@, outcome@),
            r matches Some(c) ==> c.clear_input == (outcome is Reply),
    {
        let prompt = match &self.state {
            DispatchState::Idle => {
                return None;
            },
            DispatchState::InFlight(p) => p.text.clone(),
        };
        let mut appended: Vec<TranscriptEntry> = Vec::new();
        let clear_input = match outcome {
            Outcome::Reply(reply) => {
                appended.push(TranscriptEntry { role: Role::User, text: prompt });
                appended.push(TranscriptEntry { role: Role::Assistant, text: reply });
                assert(entries_view(appended@) =~= outcome_entries(old(self)@.in_flight->0, outcome@));
                true
            },
            Outcome::TransportError(message) => {
                appended.push(TranscriptEntry { role: Role::Error, text: message });
                assert(entries_view(appended@) =~= outcome_entries(old(self)@.in_flight->0, outcome@));
                false
            },
            Outcome::Malformed => {
                appended.push(TranscriptEntry { role: Role::Error, text: String::from_str(MALFORMED_REPLY) });
                assert(entries_view(appended@) =~= outcome_entries(old(self)@.in_flight->0, outcome@));
                false
            },
        };
        let mut i: usize = 0;
        while i < appended.len()
            invariant
                0 <= i <= appended.len(),
                entries_view(self.transcript@) == entries_view(old(self).transcript@) + entries_view(
                    appended@,
                ).take(i as int),
            decreases appended.len() - i,
        {
            let e = &appended[i];
            let ghost before = self.transcript@;
            self.transcript.push(TranscriptEntry { role: e.role, text: e.text.clone() });
            proof {
                assert(entries_view(self.transcript@) =~= entries_view(before).push(appended@[i as int]@));
                assert(entries_view(appended@).take(i + 1) =~= entries_view(appended@).take(i as int).push(
                    appended@[i as int]@,
                ));
            }
            i = i + 1;
        }
        assert(entries_view(appended@).take(appended@.len() as int) =~= entries_view(appended@));
        self.state = DispatchState::Idle;
        Some(Completion { appended, clear_input })
    }
}

/// Two submissions issued back to back, with no outcome between them, hand at
/// most one prompt to the transport: once the first is accepted, the second is
/// refused and leaves the session as the first left it.
pub proof fn lemma_guard_exclusive(s: SessionView, first: Seq<char>, second: Seq<char>)
    ensures
        submit_step(s, first).1 is Some ==> {
            let after = submit_step(s, first).0;
            submit_step(after, second).1 is None && submit_step(after, second).0 == after
        },
{
}

/// Every accepted submission returns to idle exactly once, whatever the
/// outcome: the first completion frees the slot and records the outcome, and
/// a second completion changes nothing. A refused submission leaves nothing
/// to complete beyond what was already in flight.
pub proof fn lemma_round_trip(s: SessionView, text: Seq<char>, o: OutcomeView, again: OutcomeView)
    requires
        s.in_flight is None,
    ensures
        submit_step(s, text).1 is Some ==> {
            let sent = submit_step(s, text).0;
            let done = complete_step(sent, o);
            &&& done.0.in_flight is None
            &&& done.1 == Some(outcome_entries(text, o))
            &&& done.0.transcript == s.transcript + outcome_entries(text, o)
            &&& complete_step(done.0, again).1 is None
            &&& complete_step(done.0, again).0 == done.0
        },
        submit_step(s, text).1 is None ==> complete_step(submit_step(s, text).0, o).1 is None,
{
}

/// A blank prompt is never sent and never touches the transcript, in any state.
pub proof fn lemma_blank_rejected(s: SessionView, text: Seq<char>)
    requires
        is_blank(text),
    ensures
        submit_step(s, text).1 is None,
        submit_step(s, text).0 == s,
{
}

/// A malformed answer to an accepted prompt records exactly one error entry,
/// frees the slot, and (see `Dispatcher::complete`) leaves the input field as
/// it was.
pub proof fn lemma_malformed_one_error(s: SessionView, text: Seq<char>)
    requires
        s.in_flight == Some(text),
    ensures
        complete_step(s, OutcomeView::Malformed).0.in_flight is None,
        complete_step(s, OutcomeView::Malformed).1 == Some(seq![(Role::Error, MALFORMED_REPLY@)]),
        complete_step(s, OutcomeView::Malformed).0.transcript == s.transcript.push(
            (Role::Error, MALFORMED_REPLY@),
        ),
{
    assert(s.transcript + seq![(Role::Error, MALFORMED_REPLY@)] =~= s.transcript.push(
        (Role::Error, MALFORMED_REPLY@),
    ));
}

} // verus!
