//! The interactive chat: the session it runs under, what each line typed at
//! the prompt leads to, how each streamed event of a turn is handled, and when
//! a failed turn is tried again.

use vstd::prelude::*;
use vstd::string::*;
use crate::messages::{failure, failure_spec};
use crate::text::{
    blank, concat2, decimal, decimal_text, is_blank, same_text, string_or_empty,
    text_or_empty, trim, trimmed,
};

verus! {

pub open spec fn fresh_session_spec(nanos: nat, pid: nat) -> Seq<char> {
    "cli-"@ + decimal(nanos) + "-"@ + decimal(pid)
}

/// The session a chat runs under: the one to resume when given, else a fresh
/// `cli-{nanoseconds since the epoch}-{process id}`.
pub fn session_id(given: Option<String>, nanos: u128, pid: u32) -> (r: String)
    ensures
        match given {
            Some(s) => r@ == s@,
            None => r@ == fresh_session_spec(nanos as nat, pid as nat),
        },
{
    match given {
        Some(s) => s,
        None => {
            let mut r = String::from_str("cli-");
            let n = decimal_text(nanos);
            r.append(n.as_str());
            r.append("-");
            let p = decimal_text(pid as u128);
            r.append(p.as_str());
            r
        },
    }
}

/// The line announcing the session on stderr.
pub fn session_line(id: &str) -> (r: String)
    ensures
        r@ == "session: "@ + id@,
{
    concat2("session: ", id)
}

/// The prompt shown before each line is read.
pub const PROMPT: &'static str = "> ";

/// The prompt given on the command line is sent first, as given, unless it is
/// blank.
pub fn opening_prompt(first: Option<String>) -> (r: Option<String>)
    ensures
        match first {
            Some(p) => if is_blank(p@) {
                r is None
            } else {
                r == Some(p)
            },
            None => r is None,
        },
{
    match first {
        Some(p) => {
            if blank(p.as_str()) {
                None
            } else {
                Some(p)
            }
        },
        None => None,
    }
}

/// The opening prompt as echoed before its answer.
pub fn echo_line(prompt: &str) -> (r: String)
    ensures
        r@ == PROMPT@ + prompt@,
{
    concat2(PROMPT, prompt)
}

/// The commands that end the chat.
pub open spec fn is_quit_command(s: Seq<char>) -> bool {
    s == "/quit"@ || s == "/exit"@ || s == "/q"@ || s == "exit"@ || s == "Exit"@
}

/// Exactly five texts are quit commands, and none is longer than five
/// characters: a message that merely mentions `exit` is sent, not obeyed.
pub proof fn lemma_only_five_quit_commands(s: Seq<char>)
    ensures
        is_quit_command(s) <==> (s == "/quit"@ || s == "/exit"@ || s == "/q"@ || s == "exit"@ || s
            == "Exit"@),
        s.len() > 5 ==> !is_quit_command(s),
{
    reveal_strlit("/quit");
    reveal_strlit("/exit");
    reveal_strlit("/q");
    reveal_strlit("exit");
    reveal_strlit("Exit");
}

/// What a line read at the prompt leads to.
pub enum LineAction {
    /// End of input or a quit command: the chat ends.
    End,
    /// A blank line: prompt again.
    Skip,
    /// Send this message as the next turn.
    Send(String),
}

/// A line read at the prompt (`None` at end of input): blank lines are
/// skipped, quit commands end the chat, anything else is sent trimmed.
pub fn classify_line(line: Option<&str>) -> (r: LineAction)
    ensures
        match line {
            None => r is End,
            Some(l) => {
                let t = trimmed(l@);
                if t.len() == 0 {
                    r is Skip
                } else if is_quit_command(t) {
                    r is End
                } else {
                    r is Send && r->Send_0@ == t
                }
            },
        },
{
    match line {
        None => LineAction::End,
        Some(l) => {
            let t = trim(l);
            if t.unicode_len() == 0 {
                LineAction::Skip
            } else if same_text(t, "/quit") || same_text(t, "/exit") || same_text(t, "/q")
                || same_text(t, "exit") || same_text(t, "Exit") {
                LineAction::End
            } else {
                LineAction::Send(String::from_str(t))
            }
        },
    }
}

/// The chat request of one turn, sent to the service's streaming endpoint.
pub struct ChatRequest {
    pub model: String,
    pub role: String,
    pub content: String,
    pub session_id: String,
    pub project_id: String,
    pub stream: bool,
}

/// The entry point the service routes chats through; the service picks the
/// model that actually answers.
pub const CHAT_MODEL: &'static str = "sl-mini";

/// One user message, in the given session and project, answered as a stream.
fn chat_request(message: &str, project_id: &str, session_id: &str) -> (r: ChatRequest)
    ensures
        r.model@ == CHAT_MODEL@,
        r.role@ == "user"@,
        r.content@ == message@,
        r.session_id@ == session_id@,
        r.project_id@ == project_id@,
        r.stream,
{
    ChatRequest {
        model: String::from_str(CHAT_MODEL),
        role: String::from_str("user"),
        content: String::from_str(message),
        session_id: String::from_str(session_id),
        project_id: String::from_str(project_id),
        stream: true,
    }
}

/// One chat: the session every turn runs under and the project every turn
/// is asked in, fixed when the chat starts and never changed afterwards.
pub struct ChatSession {
    session_id: String,
    project_id: String,
}

impl ChatSession {
    /// The session all turns of this chat carry.
    pub closed spec fn session(&self) -> Seq<char> {
        self.session_id@
    }

    /// The project all turns of this chat are asked in.
    pub closed spec fn project(&self) -> Seq<char> {
        self.project_id@
    }

    /// Start a chat in `project_id`, resuming `given` or under a fresh
    /// `cli-{nanoseconds since the epoch}-{process id}` session.
    pub fn new(given: Option<String>, nanos: u128, pid: u32, project_id: String) -> (r: ChatSession)
        ensures
            r.project() == project_id@,
            match given {
                Some(s) => r.session() == s@,
                None => r.session() == fresh_session_spec(nanos as nat, pid as nat),
            },
    {
        ChatSession { session_id: session_id(given, nanos, pid), project_id }
    }

    /// The line announcing the session on stderr.
    pub fn announcement(&self) -> (r: String)
        ensures
            r@ == "session: "@ + self.session(),
    {
        session_line(self.session_id.as_str())
    }

    /// The request of the turn that sends `message`.
    pub fn turn_request(&self, message: &str) -> (r: ChatRequest)
        ensures
            is_turn_of(r, *self, message@),
    {
        chat_request(message, self.project_id.as_str(), self.session_id.as_str())
    }
}

/// `r` is the request of the turn of `chat` that sends `message`: the
/// routing model, the message as a user message, the chat's session and
/// project, answered as a stream.
pub open spec fn is_turn_of(r: ChatRequest, chat: ChatSession, message: Seq<char>) -> bool {
    &&& r.model@ == CHAT_MODEL@
    &&& r.role@ == "user"@
    &&& r.content@ == message
    &&& r.session_id@ == chat.session()
    &&& r.project_id@ == chat.project()
    &&& r.stream
}

/// Every turn of one chat runs under the same session and in the same
/// project, whatever is sent.
pub proof fn lemma_turns_share_session(
    chat: ChatSession,
    first: ChatRequest,
    first_message: Seq<char>,
    later: ChatRequest,
    later_message: Seq<char>,
)
    requires
        is_turn_of(first, chat, first_message),
        is_turn_of(later, chat, later_message),
    ensures
        first.session_id@ == later.session_id@,
        first.project_id@ == later.project_id@,
{
}

/// One event of the chat stream, as far as the client reads it: its
/// `object`, the first choice's delta content, whether that choice carries
/// a finish reason, and a status event's `message` and `step`.
pub struct StreamEvent {
    pub object: Option<String>,
    pub content: Option<String>,
    pub finished: bool,
    pub message: Option<String>,
    pub step: Option<String>,
}

/// What handling an event prints.
pub enum EventOutput {
    Nothing,
    /// Answer text, written to stdout as it arrives.
    Text(String),
    /// A progress line on stderr.
    Status { step: String, message: String },
}

pub struct EventOutcome {
    /// Content chunks received so far.
    pub tokens: u64,
    pub output: EventOutput,
    /// The answer is complete: stop reading the stream.
    pub stop: bool,
}

pub open spec fn is_chunk(e: StreamEvent) -> bool {
    e.object matches Some(o) && o@ == "chat.completion.chunk"@
}

pub open spec fn is_status(e: StreamEvent) -> bool {
    e.object matches Some(o) && o@ == "chat.status"@
}

/// Handle one stream event after `tokens` content chunks: a chunk's content
/// is written and counted, and a finish reason ends the answer; a status
/// event with a non-blank message is shown trimmed under its step; anything
/// else is passed over.
pub fn handle_event(tokens: u64, event: &StreamEvent) -> (r: EventOutcome)
    requires
        tokens < u64::MAX,
    ensures
        is_chunk(*event) ==> {
            &&& r.stop == event.finished
            &&& match event.content {
                Some(c) => r.tokens == tokens + 1 && r.output is Text && r.output->Text_0@ == c@,
                None => r.tokens == tokens && r.output is Nothing,
            }
        },
        is_status(*event) ==> {
            &&& !r.stop
            &&& r.tokens == tokens
            &&& match event.message {
                Some(m) => if is_blank(m@) {
                    r.output is Nothing
                } else {
                    r.output matches EventOutput::Status { step, message } && step@ == text_or_empty(
                        event.step,
                    ) && message@ == trimmed(m@)
                },
                None => r.output is Nothing,
            }
        },
        !is_chunk(*event) && !is_status(*event) ==> !r.stop && r.tokens == tokens
            && r.output is Nothing,
{
    let kind = match &event.object {
        Some(o) => o.clone(),
        None => String::new(),
    };
    proof {
        reveal_strlit("chat.completion.chunk");
        reveal_strlit("chat.status");
        assert("chat.completion.chunk"@.len() != "chat.status"@.len());
    }
    let chunk = event.object.is_some() && same_text(kind.as_str(), "chat.completion.chunk");
    let status = event.object.is_some() && same_text(kind.as_str(), "chat.status");
    if chunk {
        match &event.content {
            Some(c) => EventOutcome {
                tokens: tokens + 1,
                output: EventOutput::Text(c.clone()),
                stop: event.finished,
            },
            None => EventOutcome { tokens, output: EventOutput::Nothing, stop: event.finished },
        }
    } else if status {
        match &event.message {
            Some(m) => {
                let t = trim(m.as_str());
                if t.unicode_len() == 0 {
                    EventOutcome { tokens, output: EventOutput::Nothing, stop: false }
                } else {
                    EventOutcome {
                        tokens,
                        output: EventOutput::Status {
                            step: string_or_empty(&event.step),
                            message: String::from_str(t),
                        },
                        stop: false,
                    }
                }
            },
            None => EventOutcome { tokens, output: EventOutput::Nothing, stop: false },
        }
    } else {
        EventOutcome { tokens, output: EventOutput::Nothing, stop: false }
    }
}

/// A failed turn: the message to report and how many content chunks had
/// streamed before it failed.
pub struct TurnFailure {
    pub message: String,
    pub tokens: u64,
}

/// The stream could not be opened: nothing has streamed.
pub fn start_failed(cause: &str) -> (r: TurnFailure)
    ensures
        r.message@ == failure_spec("run"@, cause@),
        r.tokens == 0,
{
    TurnFailure { message: failure("run", cause), tokens: 0 }
}

/// The stream broke after `tokens` content chunks.
pub fn stream_failed(cause: &str, tokens: u64) -> (r: TurnFailure)
    ensures
        r.message@ == failure_spec("read stream"@, cause@),
        r.tokens == tokens,
{
    TurnFailure { message: failure("read stream", cause), tokens }
}

/// What follows an attempt at a turn.
pub enum TurnStep {
    /// The turn is over, answered or failed with this message.
    Done(Result<(), String>),
    /// Try once more on a fresh connection, after showing this notice under
    /// the `error` step.
    Retry { notice: String },
}

/// Whether the turn is tried again after attempt `attempt` ended with
/// `outcome`: only a first attempt that failed before any content streamed
/// (a connection that went idle during a long tool step and was dropped).
pub open spec fn retries(attempt: nat, outcome: Result<(), TurnFailure>) -> bool {
    &&& attempt == 1
    &&& outcome is Err
    &&& outcome->Err_0.tokens == 0
}

/// A first attempt that failed before any content streamed is retried,
/// whatever its failure message; nothing else is.
pub proof fn lemma_dropped_connection_retries(attempt: nat, outcome: Result<(), TurnFailure>)
    ensures
        retries(attempt, outcome) <==> (attempt == 1 && outcome is Err && outcome->Err_0.tokens
            == 0),
        forall|f: TurnFailure| f.tokens == 0 ==> #[trigger] retries(1, Err(f)),
{
}

pub open spec fn retry_notice_spec(message: Seq<char>) -> Seq<char> {
    "connection dropped, retrying: "@ + message
}

/// The step after attempt `attempt` (1 or 2) of a turn.
pub fn after_attempt(attempt: u8, outcome: Result<(), TurnFailure>) -> (r: TurnStep)
    requires
        attempt == 1 || attempt == 2,
    ensures
        retries(attempt as nat, outcome) <==> r is Retry,
        r matches TurnStep::Retry { notice } ==> (outcome matches Err(f) && notice@
            == retry_notice_spec(f.message@)),
        r matches TurnStep::Done(res) ==> match outcome {
            Ok(()) => res is Ok,
            Err(f) => res is Err && res->Err_0@ == f.message@,
        },
{
    match outcome {
        Ok(()) => TurnStep::Done(Ok(())),
        Err(f) => {
            if attempt == 1 && f.tokens == 0 {
                TurnStep::Retry { notice: concat2("connection dropped, retrying: ", f.message.as_str()) }
            } else {
                TurnStep::Done(Err(f.message))
            }
        },
    }
}

/// A turn is attempted at most twice: the second attempt never retries, and
/// a retry follows only a first attempt that streamed nothing.
pub proof fn lemma_at_most_two_attempts(first: Result<(), TurnFailure>, second: Result<(), TurnFailure>)
    ensures
        !retries(2, second),
        retries(1, first) ==> first is Err && first->Err_0.tokens == 0,
        first is Ok ==> !retries(1, first),
{
}

/// What becomes of a failed turn: reported and the chat goes on when a person
/// is typing, the client stops with the error when input is piped.
pub enum TurnErrorAction {
    Report,
    Abort,
}

pub fn turn_error_action(interactive: bool) -> (r: TurnErrorAction)
    ensures
        interactive <==> r is Report,
{
    if interactive {
        TurnErrorAction::Report
    } else {
        TurnErrorAction::Abort
    }
}

} // verus!
