//! The client side of the conversation with the model process: whether
//! the process is up, which request waits for its reply, and what each
//! line that comes back does to that.
//!
//! The client never touches the process itself. Starting a request gives
//! the number to send it under; the caller writes the one line of the
//! request, reads one line and hands it in. Requests and replies strictly
//! take turns.

use vstd::prelude::*;
use vstd::string::*;
use crate::json::{parse_json, parsed_json, Json};
use crate::request::{Command, Request, request_doc};
use crate::text::{chars_of, str_eq, string_of, trim_range, trimmed};
use crate::transcription::{EngineError, Fault, ProtocolFault};

verus! {

/// How long the model process may take to say that it is ready, in
/// milliseconds.
pub const HANDSHAKE_TIMEOUT_MS: u64 = 60000;

/// How long the model process is given to leave by itself after `quit`
/// before it is killed, in milliseconds.
pub const QUIT_GRACE_MS: u64 = 500;

/// The client as a mathematical value.
pub ghost struct EngineModel {
    /// Whether the model process is up.
    pub running: bool,
    /// The number that the next request goes under.
    pub next_id: nat,
    /// The command that waits for its reply.
    pub waiting: Option<Command>,
    /// Requests started: lines that the caller was told to write.
    pub written: nat,
    /// Replies taken: lines that the caller read and handed in.
    pub read: nat,
    /// Requests that ended without a reply, because the process went away.
    pub lost: nat,
}

/// What can happen to the client.
pub ghost enum EngineEvent {
    /// The process came up and said that it is ready.
    Started,
    /// The process was stopped or was found to have left.
    Stopped,
    /// A request for the command is started.
    Begin(Command),
    /// A line was read and is handed in.
    Reply(Seq<char>),
    /// No line could be read, or the request could not be written.
    Broken,
    /// The result of a command showed a fault of the protocol.
    Faulted,
}

impl EngineModel {
    /// A client whose process is not up. Requests are numbered from 1.
    pub open spec fn initial() -> EngineModel {
        EngineModel { running: false, next_id: 1, waiting: None, written: 0, read: 0, lost: 0 }
    }

    /// The number after `id`; the numbers start over behind the largest.
    pub open spec fn number_after(id: nat) -> nat {
        if id < u64::MAX {
            id + 1
        } else {
            0
        }
    }

    /// The state after the process went away: a request that waits for
    /// its reply is lost.
    pub open spec fn down(self) -> EngineModel {
        EngineModel {
            running: false,
            waiting: None,
            lost: if self.waiting is Some {
                self.lost + 1
            } else {
                self.lost
            },
            ..self
        }
    }

    /// Whether a request can be started.
    pub open spec fn can_begin(self) -> bool {
        self.running && self.waiting is None
    }

    /// The state after an event.
    pub open spec fn step(self, event: EngineEvent) -> EngineModel {
        match event {
            EngineEvent::Started => if self.running {
                self
            } else {
                EngineModel { running: true, ..self }
            },
            EngineEvent::Stopped => self.down(),
            EngineEvent::Begin(command) => if self.can_begin() {
                EngineModel {
                    next_id: Self::number_after(self.next_id),
                    waiting: Some(command),
                    written: self.written + 1,
                    ..self
                }
            } else {
                self
            },
            EngineEvent::Reply(line) => if self.waiting is None {
                self
            } else if parsed_json(line) is Some {
                EngineModel { waiting: None, read: self.read + 1, ..self }
            } else {
                EngineModel { running: false, waiting: None, read: self.read + 1, ..self }
            },
            EngineEvent::Broken => if self.waiting is None {
                self
            } else {
                self.down()
            },
            EngineEvent::Faulted => self.down(),
        }
    }

    /// Requests and replies take turns: every request that was started
    /// has been answered by one line or was lost with the process, except
    /// for the one request that may be waiting.
    pub open spec fn in_step(self) -> bool {
        &&& self.written == self.read + self.lost + if self.waiting is Some {
            1nat
        } else {
            0nat
        }
        &&& (self.waiting is Some ==> self.running)
        &&& self.next_id <= u64::MAX
    }

    /// The state after a run of events.
    pub open spec fn after(self, events: Seq<EngineEvent>) -> EngineModel
        decreases events.len(),
    {
        if events.len() == 0 {
            self
        } else {
            self.after(events.drop_last()).step(events.last())
        }
    }
}

/// Every event leaves requests and replies in step, and lets at most one
/// more line be written than was read or lost.
pub proof fn lemma_step_keeps_turns(s: EngineModel, event: EngineEvent)
    requires
        s.in_step(),
    ensures
        s.step(event).in_step(),
        s.step(event).written <= s.written + 1,
        s.step(event).read <= s.read + 1,
        s.step(event).read == s.read + 1 ==> s.waiting is Some && s.step(event).waiting is None,
        s.step(event).written == s.written + 1 ==> s.waiting is None && s.step(event).waiting
            is Some,
{
}

/// Whatever happens to a client from its start on, the lines written and
/// the lines read take turns: before each line that is read exactly one
/// line was written that no earlier line answers, and no second line is
/// written while one waits for its answer.
pub proof fn theorem_requests_and_replies_take_turns(events: Seq<EngineEvent>)
    ensures
        EngineModel::initial().after(events).in_step(),
        EngineModel::initial().after(events).read <= EngineModel::initial().after(events).written,
        EngineModel::initial().after(events).written <= EngineModel::initial().after(events).read
            + EngineModel::initial().after(events).lost + 1,
    decreases events.len(),
{
    if events.len() > 0 {
        theorem_requests_and_replies_take_turns(events.drop_last());
        lemma_step_keeps_turns(EngineModel::initial().after(events.drop_last()), events.last());
    }
}

/// The client of the model process.
pub struct ASREngine {
    running: bool,
    next_id: u64,
    waiting: Option<Command>,
    written: Ghost<nat>,
    read: Ghost<nat>,
    lost: Ghost<nat>,
}

impl View for ASREngine {
    type V = EngineModel;

    closed spec fn view(&self) -> EngineModel {
        EngineModel {
            running: self.running,
            next_id: self.next_id as nat,
            waiting: self.waiting,
            written: self.written@,
            read: self.read@,
            lost: self.lost@,
        }
    }
}

impl ASREngine {
    /// A client whose process is not up.
    pub fn new() -> (r: ASREngine)
        ensures
            r@ == EngineModel::initial(),
    {
        ASREngine {
            running: false,
            next_id: 1,
            waiting: None,
            written: Ghost(0),
            read: Ghost(0),
            lost: Ghost(0),
        }
    }

    /// Whether the model process is up.
    pub fn is_running(&self) -> (r: bool)
        ensures
            r == self@.running,
    {
        self.running
    }

    /// The command that waits for its reply.
    pub fn waiting(&self) -> (r: Option<Command>)
        ensures
            r == self@.waiting,
    {
        self.waiting
    }

    /// Notes that the process came up and said that it is ready.
    pub fn started(&mut self)
        ensures
            final(self)@ == old(self)@.step(EngineEvent::Started),
    {
        self.running = true;
    }

    /// Notes that the process was stopped or was found to have left. The
    /// next request will be refused until the process is started again.
    pub fn stopped(&mut self)
        ensures
            final(self)@ == old(self)@.step(EngineEvent::Stopped),
    {
        self.drop_process();
    }

    fn drop_process(&mut self)
        ensures
            final(self)@ == old(self)@.down(),
    {
        if self.waiting.is_some() {
            self.lost = Ghost((self.lost@ + 1) as nat);
        }
        self.running = false;
        self.waiting = None;
    }

    /// Starts a request and gives the number to send it under. The caller
    /// has to write the one line of the request and then read one line.
    /// A request is refused while the process is down and while another
    /// request waits for its reply.
    pub fn begin(&mut self, command: Command) -> (r: Result<u64, EngineError>)
        ensures
            final(self)@ == old(self)@.step(EngineEvent::Begin(command)),
            match r {
                Ok(id) => old(self)@.can_begin() && id == old(self)@.next_id,
                Err(e) => !old(self)@.can_begin() && e@ == if !old(self)@.running {
                    Fault::NotRunning
                } else {
                    Fault::Protocol(ProtocolFault::Busy)
                },
            },
    {
        if !self.running {
            return Err(EngineError::NotRunning);
        }
        if self.waiting.is_some() {
            return Err(EngineError::Protocol(ProtocolFault::Busy));
        }
        let id = self.next_id;
        self.next_id = if id < u64::MAX {
            id + 1
        } else {
            0
        };
        self.waiting = Some(command);
        self.written = Ghost(self.written@ + 1);
        Ok(id)
    }

    /// Takes the line that was read in answer to the waiting request and
    /// gives the document in it. A line that is not JSON is a fault, and
    /// the process counts as down from then on. A line that no request
    /// waits for is refused.
    pub fn reply(&mut self, line: &str) -> (r: Result<Json, EngineError>)
        ensures
            final(self)@ == old(self)@.step(EngineEvent::Reply(line@)),
            match r {
                Ok(doc) => old(self)@.waiting is Some && parsed_json(line@) == Some(doc@),
                Err(e) => e@ == if old(self)@.waiting is None {
                    Fault::Protocol(ProtocolFault::Unexpected)
                } else {
                    Fault::Protocol(ProtocolFault::Unreadable)
                } && (old(self)@.waiting is Some ==> parsed_json(line@) is None),
            },
    {
        if self.waiting.is_none() {
            return Err(EngineError::Protocol(ProtocolFault::Unexpected));
        }
        self.waiting = None;
        self.read = Ghost(self.read@ + 1);
        match parse_json(line) {
            Some(doc) => Ok(doc),
            None => {
                self.running = false;
                Err(EngineError::Protocol(ProtocolFault::Unreadable))
            },
        }
    }

    /// Notes that the request could not be written or that no line could
    /// be read: the waiting request is lost and the process counts as
    /// down.
    pub fn broken(&mut self) -> (e: EngineError)
        ensures
            final(self)@ == old(self)@.step(EngineEvent::Broken),
            e@ == if old(self)@.waiting is None {
                Fault::Protocol(ProtocolFault::Unexpected)
            } else {
                Fault::Protocol(ProtocolFault::Closed)
            },
    {
        if self.waiting.is_none() {
            return EngineError::Protocol(ProtocolFault::Unexpected);
        }
        self.drop_process();
        EngineError::Protocol(ProtocolFault::Closed)
    }

    /// Passes the result of a command on. If the result shows a fault of
    /// the protocol, the process counts as down from then on, so that the
    /// next request is answered with `NotRunning`.
    pub fn settle<T>(&mut self, result: Result<T, EngineError>) -> (r: Result<T, EngineError>)
        ensures
            r == result,
            final(self)@ == if result matches Err(EngineError::Protocol(_)) {
                old(self)@.step(EngineEvent::Faulted)
            } else {
                old(self)@
            },
    {
        match &result {
            Err(EngineError::Protocol(_)) => {
                self.drop_process();
            },
            _ => {},
        }
        result
    }
}

/// The request that asks the model process to leave. It goes under the
/// number 0 and waits for no reply.
pub fn quit_request() -> (r: Request)
    ensures
        r@ == request_doc(Command::Quit, 0, seq![]),
{
    Request::new(Command::Quit, 0)
}

/// What to make of the start of the model process so far.
#[derive(Debug, Clone, Copy, PartialEq, Eq, Structural)]
pub enum Handshake {
    /// The process said that it is ready.
    Ready,
    /// The line says nothing; read on.
    Waiting,
    /// The process took too long; kill it.
    TimedOut,
    /// The process closed its output; kill it.
    Closed,
}

/// Whether a line of the starting process says that it is ready: the
/// line, white space around it aside, is a JSON object whose member
/// `status` is the text `ready`.
pub open spec fn says_ready(line: Seq<char>) -> bool {
    match parsed_json(trimmed(line)) {
        Some(doc) => doc.text_at("status"@) == Some("ready"@),
        None => false,
    }
}

/// What one step of waiting for the process decides: after
/// `HANDSHAKE_TIMEOUT_MS` the wait is over, an output that has ended
/// ends it too, and otherwise the line decides.
pub open spec fn handshake_verdict(line: Option<Seq<char>>, elapsed_ms: u64) -> Handshake {
    if elapsed_ms > HANDSHAKE_TIMEOUT_MS {
        Handshake::TimedOut
    } else {
        match line {
            None => Handshake::Closed,
            Some(l) => if says_ready(l) {
                Handshake::Ready
            } else {
                Handshake::Waiting
            },
        }
    }
}

/// Decides about one step of waiting for the process to start: `line` is
/// the line that was read, or nothing if the output has ended, and
/// `elapsed_ms` the time since the process was started.
pub fn handshake_step(line: Option<&str>, elapsed_ms: u64) -> (r: Handshake)
    ensures
        r == handshake_verdict(crate::text::opt_str(line), elapsed_ms),
{
    if elapsed_ms > HANDSHAKE_TIMEOUT_MS {
        return Handshake::TimedOut;
    }
    let line = match line {
        Some(l) => l,
        None => {
            return Handshake::Closed;
        },
    };
    let chars = chars_of(line);
    let (from, to) = trim_range(&chars, 0, chars.len());
    assert(chars@.subrange(0, chars@.len() as int) =~= chars@);
    let text = string_of(&chars, from, to);
    match parse_json(text.as_str()) {
        Some(doc) => match doc.text_at("status") {
            Some(status) => if str_eq(status.as_str(), "ready") {
                Handshake::Ready
            } else {
                Handshake::Waiting
            },
            None => Handshake::Waiting,
        },
        None => Handshake::Waiting,
    }
}

/// The first place at which the program of the model process exists;
/// the places are looked at in the order given.
pub open spec fn first_true(found: Seq<bool>) -> Option<int>
    decreases found.len(),
{
    if found.len() == 0 {
        None
    } else if found[0] {
        Some(0)
    } else {
        match first_true(found.drop_first()) {
            Some(i) => Some(i + 1),
            None => None,
        }
    }
}

/// Chooses among the places where the program of the model process may
/// be: the first at which it was found, in the order given. The place in
/// the application bundle comes before the places of a development tree.
pub fn choose_binary(found: &Vec<bool>) -> (r: Option<usize>)
    ensures
        match r {
            Some(i) => first_true(found@) == Some(i as int) && i < found@.len() && found@[i as int]
                && forall|k: int| 0 <= k < i ==> !found@[k],
            None => first_true(found@) is None && forall|k: int| 0 <= k < found@.len() ==> !found@[k],
        },
{
    let mut i: usize = 0;
    assert(found@.skip(0) =~= found@);
    while i < found.len()
        invariant
            i <= found@.len(),
            forall|k: int| 0 <= k < i ==> !found@[k],
            first_true(found@) == match first_true(found@.skip(i as int)) {
                Some(j) => Some(j + i),
                None => None,
            },
        decreases found@.len() - i,
    {
        proof {
            assert(found@.skip(i as int).drop_first() =~= found@.skip(i + 1));
            assert(found@.skip(i as int)[0] == found@[i as int]);
        }
        if found[i] {
            return Some(i);
        }
        i = i + 1;
    }
    assert(found@.skip(i as int).len() == 0);
    None
}

/// The names of the environment variables that point the model process
/// to the place where models are kept.
pub fn cache_variables() -> (r: Vec<String>)
    ensures
        r@.len() == 2,
        r@[0]@ == "HF_HOME"@,
        r@[1]@ == "TORCH_HOME"@,
{
    let mut r: Vec<String> = Vec::new();
    r.push(String::from_str("HF_HOME"));
    r.push(String::from_str("TORCH_HOME"));
    r
}

} // verus!
