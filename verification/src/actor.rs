//! The decisions of a script actor: every actor runs one script in its own
//! runtime and talks to its parent, to a log channel and to an I/O thread by
//! messages. This module decides, for each message, what the actor does; the
//! caller performs the actions (engine calls, channel sends, socket I/O).

use vstd::prelude::*;
use vstd::string::{StringExecFns, StringSliceAdditionalSpecFns};
use vstd::utf8::encode_utf8;
use crate::text::{push_decimal, push_signed_decimal, decimal, signed_decimal};

verus! {

/// A message logged by a script.
pub struct LogMessage {
    pub message: String,
    pub level: u32,
    pub tag: u32,
    pub timeout: u32,
}

/// The messages an actor and its parent exchange.
pub enum ChildMessage {
    /// The log channel is ready.
    SetLog,
    /// The error channel is ready.
    SetErr,
    /// A message a script logged.
    LogMsg(LogMessage),
    /// An error a script reported.
    ErrMsg,
    /// An I/O callback: operation code, data, request id.
    IoCb(u32, String, u32),
    Stdout(String),
    Stderr(String),
    /// Spawn an actor: its id and its script.
    Spawn(String, String),
    Cast(String, String),
    /// Load the page at this URL.
    LoadUrl(String),
    ExitProc,
    Done,
}

/// Messages of the I/O thread, with the request ids already read.
pub enum UvMessage {
    Connected(u32),
    Wrote(u32),
    /// Data read for a request, and the length read (-1 when closed).
    Read(u32, String, i32),
    Timer(u32),
    Whatever,
    Exit,
}

/// What an actor does in answer to a message.
pub enum ActorAction {
    /// Hand the log channel to the script library.
    SetLogChannel,
    /// In a request: set the global `_data` to `data`, then run `code` as
    /// the script "io".
    RunWithData { data: String, code: String },
    /// Send this message to the parent.
    Send(ChildMessage),
    /// Send this message to the actor itself.
    SendSelf(ChildMessage),
    /// Open a connection for request `tag` to `host`.
    Connect { tag: u32, host: String },
    /// Write `bytes` on the connection of request `tag`.
    Write { tag: u32, bytes: String },
    /// Start reading the connection of request `tag`.
    ReadStart { tag: u32 },
    /// Close the connection of request `tag`.
    Close { tag: u32 },
    /// Start a timer of `timeout` for request `tag`.
    TimerStart { timeout: u32, tag: u32 },
    /// Log an error line.
    LogError(String),
    /// Tell the I/O thread to exit.
    SendUvExit,
    /// Load the support scripts and then the script file named `script` into
    /// the global scope. The name is empty for a web page, whose script comes
    /// later; reading the empty name fails, and a script that cannot be read
    /// ends the process.
    PopulateGlobalScope(String),
    /// Run `code` as the script `filename`.
    RunScript { code: String, filename: String },
}

/// The state of an actor.
pub struct ActorState {
    pub myid: i64,
    pub myurl: String,
    pub exit: bool,
    pub setup: i64,
    pub childid: i64,
}

/// What the log forwarding loop does with a script's log message: level 9
/// asks the actor to exit and ends the loop; any other level is passed on.
pub fn forward_log(msg: LogMessage) -> (r: (ChildMessage, bool))
    ensures
        r == log_step(msg),
        msg.level == 9 ==> r.0 is ExitProc && r.1,
        msg.level != 9 ==> r.0 == ChildMessage::LogMsg(msg) && !r.1,
{
    if msg.level == 9u32 {
        (ChildMessage::ExitProc, true)
    } else {
        (ChildMessage::LogMsg(msg), false)
    }
}

/// What forwarding a message of the I/O thread gives: the callback sent
/// (none for `Whatever`) and whether the loop ends.
pub open spec fn uv_step(msg: UvMessage, r: (Option<ChildMessage>, bool)) -> bool {
    match msg {
        UvMessage::Connected(id) => !r.1 && (r.0 matches Some(ChildMessage::IoCb(0, s, i))
            && s@ == "onconnect"@ && i == id),
        UvMessage::Wrote(id) => !r.1 && (r.0 matches Some(ChildMessage::IoCb(1, s, i)) && s@
            == "onsend"@ && i == id),
        UvMessage::Read(id, data, len) => !r.1 && if len == -1 {
            (r.0 matches Some(ChildMessage::IoCb(3, s, i)) && s@ == "onclose"@ && i == id)
        } else {
            (r.0 matches Some(ChildMessage::IoCb(2, s, i)) && s@ == data@ && i == id)
        },
        UvMessage::Timer(id) => !r.1 && (r.0 matches Some(ChildMessage::IoCb(4, s, i)) && s@
            == "ontimer"@ && i == id),
        UvMessage::Whatever => r.0 is None && !r.1,
        UvMessage::Exit => r.1 && (r.0 matches Some(ChildMessage::Done)),
    }
}

/// What the I/O forwarding loop does with a message of the I/O thread: the
/// callback to send (none for `Whatever`), and whether the loop ends (after
/// `Exit`, which sends `Done`).
pub fn forward_uv(msg: UvMessage) -> (r: (Option<ChildMessage>, bool))
    ensures
        uv_step(msg, r),
{
    match msg {
        UvMessage::Connected(id) => (
            Some(ChildMessage::IoCb(0u32, "onconnect".to_owned(), id)),
            false,
        ),
        UvMessage::Wrote(id) => (Some(ChildMessage::IoCb(1u32, "onsend".to_owned(), id)), false),
        UvMessage::Read(id, data, len) => {
            if len == -1 {
                (Some(ChildMessage::IoCb(3u32, "onclose".to_owned(), id)), false)
            } else {
                (Some(ChildMessage::IoCb(2u32, data, id)), false)
            }
        },
        UvMessage::Timer(id) => (Some(ChildMessage::IoCb(4u32, "ontimer".to_owned(), id)), false),
        UvMessage::Whatever => (None, false),
        UvMessage::Exit => (Some(ChildMessage::Done), true),
    }
}

/// The URL names a web page: longer than four bytes and starting with "http".
pub open spec fn is_http_url(url: Seq<u8>) -> bool {
    url.len() > 4 && url.take(4) == seq![104u8, 116u8, 116u8, 112u8]
}

/// Whether `url` names a web page rather than a script file.
pub fn is_http(url: &str) -> (r: bool)
    ensures
        r == is_http_url(url.spec_bytes()),
{
    let bytes = url.as_bytes();
    if bytes.len() > 4 {
        let r = bytes[0] == 104u8 && bytes[1] == 116u8 && bytes[2] == 116u8 && bytes[3] == 112u8;
        assert(r == (bytes@.take(4) == seq![104u8, 116u8, 116u8, 112u8])) by {
            if bytes@.take(4) == seq![104u8, 116u8, 116u8, 112u8] {
                assert(bytes@.take(4)[0] == bytes@[0]);
                assert(bytes@.take(4)[1] == bytes@[1]);
                assert(bytes@.take(4)[2] == bytes@[2]);
                assert(bytes@.take(4)[3] == bytes@[3]);
            }
            if r {
                assert(bytes@.take(4) =~= seq![104u8, 116u8, 116u8, 112u8]);
            }
        }
        r
    } else {
        false
    }
}

/// The user script wrapped so that an exception is printed with its stack.
pub open spec fn guarded_script_text(file: Seq<char>) -> Seq<char> {
    "try { "@ + file + " } catch (e) { print('Error: ', e, e.stack) }"@
}

/// Wraps a script file's text so that an exception is printed with its stack.
pub fn guarded_script(file: &str) -> (r: String)
    ensures
        r@ == guarded_script_text(file@),
{
    let mut s = "try { ".to_owned();
    s.append(file);
    s.append(" } catch (e) { print('Error: ', e, e.stack) }");
    s
}

/// The code that resumes a script after an I/O callback.
pub open spec fn resume_code(op: u32, req: u32) -> Seq<char> {
    "_resume("@ + decimal(op as nat) + ", _data, "@ + decimal(req as nat)
        + "); _data = undefined; XMLHttpRequest.requests_outstanding"@
}

/// The code that resumes a script after a page load.
pub open spec fn load_code() -> Seq<char> {
    "_resume(5, _data, 0); _data = undefined"@
}

/// The code that ends the actor when no request is outstanding.
pub open spec fn check_wait_code() -> Seq<char> {
    "if (XMLHttpRequest.requests_outstanding === 0)  jsrust_exit();"@
}

/// The messages `handle_message` handles; the others make the actor fail.
pub open spec fn handled(msg: ChildMessage) -> bool {
    ||| msg is SetLog
    ||| msg is LoadUrl
    ||| msg is LogMsg
    ||| msg is IoCb
    ||| msg is ExitProc
    ||| msg is Done
}

/// The actions `handle_message` gives for `msg` in the state `st`.
pub open spec fn handled_as(st: ActorState, msg: ChildMessage, r: Seq<ActorAction>) -> bool {
    &&& msg is SetLog ==> r.len() == 1 && r[0] is SetLogChannel
    &&& msg matches ChildMessage::LoadUrl(x) ==> r.len() == 1 && (r[0] matches ActorAction::RunWithData {
        data,
        code,
    } && data@ == x@ && code@ == load_code())
    &&& msg matches ChildMessage::IoCb(op, x, req) ==> r.len() == 1 && (r[0] matches ActorAction::RunWithData {
        data,
        code,
    } && data@ == x@ && code@ == resume_code(op, req))
    &&& msg is ExitProc ==> r.len() == 1 && r[0] is SendUvExit
    &&& msg is Done ==> r.len() == 1 && (r[0] matches ActorAction::Send(ChildMessage::Done))
    &&& msg matches ChildMessage::LogMsg(m) ==> {
        &&& m.level == 0 ==> r.len() == 1 && (r[0] matches ActorAction::Send(
            ChildMessage::Stdout(t),
        ) && t@ == "[Actor "@ + signed_decimal(st.myid as int) + "] "@ + m.message@)
        &&& m.level == 1 ==> r.len() == 1 && (r[0] matches ActorAction::Send(
            ChildMessage::Stderr(t),
        ) && t@ == "[ERROR "@ + signed_decimal(st.myid as int) + "] "@ + m.message@)
        &&& m.level == 2 ==> r.len() == 1 && (r[0] matches ActorAction::Send(
            ChildMessage::Spawn(id, src),
        ) && id@ == child_id(st.myid, st.childid as int) && src@ == m.message@)
        &&& m.level == 3 ==> r.len() == 0
        &&& m.level == 4 ==> r.len() == 1 && (r[0] matches ActorAction::Connect {
            tag,
            host,
        } && tag == m.tag && host@ == m.message@)
        &&& m.level == 5 ==> r.len() == 1 && (r[0] matches ActorAction::Write {
            tag,
            bytes,
        } && tag == m.tag && bytes@ == "GET / HTTP/1.0\n\n"@)
        &&& m.level == 6 ==> r.len() == 1 && (r[0] matches ActorAction::ReadStart { tag }
            && tag == m.tag)
        &&& m.level == 7 ==> r.len() == 1 && (r[0] matches ActorAction::Close { tag }
            && tag == m.tag)
        &&& m.level == 8 ==> r.len() == 1 && (r[0] matches ActorAction::TimerStart {
            timeout,
            tag,
        } && timeout == m.timeout && tag == m.tag)
        &&& m.level > 8 ==> r.len() == 1 && (r[0] matches ActorAction::LogError(t) && t@
            == "..."@)
    }
}

impl ActorState {
    /// A new actor with id `myid` that runs `myurl`.
    pub fn new(myid: i64, myurl: String) -> (r: ActorState)
        ensures
            r.myid == myid,
            r.myurl == myurl,
            !r.exit,
            r.setup == 0,
            r.childid == 0,
    {
        ActorState { myid, myurl, exit: false, setup: 0, childid: 0 }
    }

    /// The actions for one message, and the state they leave.
    pub fn handle_message(&mut self, msg: ChildMessage) -> (r: Vec<ActorAction>)
        requires
            handled(msg),
            old(self).setup < i64::MAX,
            old(self).childid < i64::MAX,
        ensures
            *final(self) == handle_step(*old(self), msg),
            final(self).myid == old(self).myid,
            final(self).myurl == old(self).myurl,
            final(self).exit == (old(self).exit || msg is Done),
            final(self).setup == old(self).setup + (if msg is SetLog { 1int } else { 0 }),
            final(self).childid == old(self).childid + (if msg matches ChildMessage::LogMsg(m) && m.level == 2 {
                1int
            } else {
                0
            }),
            handled_as(*old(self), msg, r@),
    {
        let mut actions: Vec<ActorAction> = Vec::new();
        match msg {
            ChildMessage::SetLog => {
                actions.push(ActorAction::SetLogChannel);
                self.setup = self.setup + 1;
            },
            ChildMessage::LoadUrl(x) => {
                actions.push(
                    ActorAction::RunWithData {
                        data: x,
                        code: "_resume(5, _data, 0); _data = undefined".to_owned(),
                    },
                );
            },
            ChildMessage::LogMsg(m) => {
                let level = m.level;
                if level == 0 {
                    let mut t = "[Actor ".to_owned();
                    push_signed_decimal(&mut t, self.myid);
                    t.append("] ");
                    t.append(m.message.as_str());
                    actions.push(ActorAction::Send(ChildMessage::Stdout(t)));
                } else if level == 1 {
                    let mut t = "[ERROR ".to_owned();
                    push_signed_decimal(&mut t, self.myid);
                    t.append("] ");
                    t.append(m.message.as_str());
                    actions.push(ActorAction::Send(ChildMessage::Stderr(t)));
                } else if level == 2 {
                    let mut id = String::new();
                    push_signed_decimal(&mut id, self.myid);
                    id.append(":");
                    push_signed_decimal(&mut id, self.childid);
                    actions.push(ActorAction::Send(ChildMessage::Spawn(id, m.message)));
                    self.childid = self.childid + 1;
                } else if level == 3 {
                } else if level == 4 {
                    actions.push(ActorAction::Connect { tag: m.tag, host: m.message });
                } else if level == 5 {
                    actions.push(
                        ActorAction::Write { tag: m.tag, bytes: "GET / HTTP/1.0\n\n".to_owned() },
                    );
                } else if level == 6 {
                    actions.push(ActorAction::ReadStart { tag: m.tag });
                } else if level == 7 {
                    actions.push(ActorAction::Close { tag: m.tag });
                } else if level == 8 {
                    actions.push(ActorAction::TimerStart { timeout: m.timeout, tag: m.tag });
                } else {
                    actions.push(ActorAction::LogError("...".to_owned()));
                }
            },
            ChildMessage::IoCb(a1, a2, a3) => {
                let mut code = "_resume(".to_owned();
                push_decimal(&mut code, a1 as u64);
                code.append(", _data, ");
                push_decimal(&mut code, a3 as u64);
                code.append("); _data = undefined; XMLHttpRequest.requests_outstanding");
                actions.push(ActorAction::RunWithData { data: a2, code });
            },
            ChildMessage::ExitProc => {
                actions.push(ActorAction::SendUvExit);
            },
            ChildMessage::Done => {
                self.exit = true;
                actions.push(ActorAction::Send(ChildMessage::Done));
            },
            _ => {},
        }
        actions
    }

    /// After each message: once the log channel is set up, the actor loads
    /// its scripts (a web page is loaded through a `LoadUrl` to itself) and
    /// checks whether it can exit; later calls do nothing.
    pub fn after_message(&mut self) -> (r: Vec<ActorAction>)
        ensures
            *final(self) == after_step(*old(self)),
            final(self).myid == old(self).myid,
            final(self).myurl == old(self).myurl,
            final(self).exit == old(self).exit,
            final(self).childid == old(self).childid,
            old(self).setup != 1 ==> final(self).setup == old(self).setup && r@.len() == 0,
            old(self).setup == 1 ==> {
                &&& final(self).setup == 2
                &&& if is_http_url(encode_utf8(old(self).myurl@)) {
                    &&& r@.len() == 3
                    &&& (r@[0] matches ActorAction::PopulateGlobalScope(s) && s@.len() == 0)
                    &&& (r@[1] matches ActorAction::SendSelf(ChildMessage::LoadUrl(u)) && u@ == old(
                        self,
                    ).myurl@)
                    &&& (r@[2] matches ActorAction::RunScript { code, filename } && code@
                        == check_wait_code() && filename@ == "test.js"@)
                } else {
                    &&& r@.len() == 2
                    &&& (r@[0] matches ActorAction::PopulateGlobalScope(s) && s@ == old(
                        self,
                    ).myurl@)
                    &&& (r@[1] matches ActorAction::RunScript { code, filename } && code@
                        == check_wait_code() && filename@ == "test.js"@)
                }
            },
    {
        let mut actions: Vec<ActorAction> = Vec::new();
        if self.setup == 1 {
            self.setup = 2;
            if is_http(self.myurl.as_str()) {
                actions.push(ActorAction::PopulateGlobalScope(String::new()));
                actions.push(ActorAction::SendSelf(ChildMessage::LoadUrl(self.myurl.clone())));
            } else {
                actions.push(ActorAction::PopulateGlobalScope(self.myurl.clone()));
            }
            actions.push(
                ActorAction::RunScript {
                    code: "if (XMLHttpRequest.requests_outstanding === 0)  jsrust_exit();".to_owned(),
                    filename: "test.js".to_owned(),
                },
            );
        }
        actions
    }
}

/// Whether a message asks the actor to spawn a child: a log message of
/// level 2.
pub open spec fn is_spawn(msg: ChildMessage) -> bool {
    msg matches ChildMessage::LogMsg(m) && m.level == 2
}

/// The state `handle_message` leaves: `SetLog` counts a setup step, a spawn
/// counts a child, `Done` makes the actor exit.
pub open spec fn handle_step(s: ActorState, msg: ChildMessage) -> ActorState {
    ActorState {
        exit: s.exit || msg is Done,
        setup: if msg is SetLog {
            (s.setup + 1) as i64
        } else {
            s.setup
        },
        childid: if is_spawn(msg) {
            (s.childid + 1) as i64
        } else {
            s.childid
        },
        ..s
    }
}

/// The state `after_message` leaves: setup step 1 becomes 2.
pub open spec fn after_step(s: ActorState) -> ActorState {
    if s.setup == 1 {
        ActorState { setup: 2, ..s }
    } else {
        s
    }
}

/// The state an actor reaches from `s` by handling `msgs` in turn, each
/// message followed by `after_message`, as its loop does.
pub open spec fn actor_after(s: ActorState, msgs: Seq<ChildMessage>) -> ActorState
    decreases msgs.len(),
{
    if msgs.len() == 0 {
        s
    } else {
        after_step(handle_step(actor_after(s, msgs.drop_last()), msgs.last()))
    }
}

/// The number of spawn requests among `msgs`.
pub open spec fn spawn_count(msgs: Seq<ChildMessage>) -> nat
    decreases msgs.len(),
{
    if msgs.len() == 0 {
        0
    } else {
        spawn_count(msgs.drop_last()) + if is_spawn(msgs.last()) {
            1nat
        } else {
            0nat
        }
    }
}

/// The id that an actor `myid` gives its child number `k`: "myid:k".
pub open spec fn child_id(myid: i64, k: int) -> Seq<char> {
    signed_decimal(myid as int) + ":"@ + signed_decimal(k)
}

/// Over any stream of messages the actor keeps its id and URL, it has
/// counted exactly the spawn requests it handled, and it has exited exactly
/// when `Done` came (or it had exited before).
pub proof fn lemma_actor_after(s: ActorState, msgs: Seq<ChildMessage>)
    requires
        0 <= s.childid,
        s.childid + spawn_count(msgs) < i64::MAX,
        0 <= s.setup,
        s.setup + msgs.len() < i64::MAX,
    ensures
        actor_after(s, msgs).myid == s.myid,
        actor_after(s, msgs).myurl == s.myurl,
        actor_after(s, msgs).childid == s.childid + spawn_count(msgs),
        s.setup <= actor_after(s, msgs).setup <= s.setup + msgs.len() + 1,
        actor_after(s, msgs).exit == (s.exit || exists|i: int|
            0 <= i < msgs.len() && #[trigger] msgs[i] is Done),
    decreases msgs.len(),
{
    if msgs.len() > 0 {
        let rest = msgs.drop_last();
        lemma_actor_after(s, rest);
        let before = actor_after(s, rest);
        if before.exit && !s.exit {
            let i = choose|i: int| 0 <= i < rest.len() && #[trigger] rest[i] is Done;
            assert(msgs[i] is Done);
        }
        if msgs.last() is Done {
            assert(msgs[msgs.len() - 1] is Done);
        }
        if exists|i: int| 0 <= i < msgs.len() && #[trigger] msgs[i] is Done {
            let i = choose|i: int| 0 <= i < msgs.len() && #[trigger] msgs[i] is Done;
            if i < msgs.len() - 1 {
                assert(rest[i] is Done);
            }
        }
    }
}

/// A prefix of a stream has no more spawn requests than a longer prefix, and
/// strictly fewer when a spawn request lies between them.
pub proof fn lemma_spawn_count_prefix(msgs: Seq<ChildMessage>, j1: int, j2: int)
    requires
        0 <= j1 <= j2 <= msgs.len(),
    ensures
        spawn_count(msgs.take(j1)) <= spawn_count(msgs.take(j2)),
        j1 < j2 && is_spawn(msgs[j1]) ==> spawn_count(msgs.take(j1)) < spawn_count(msgs.take(j2)),
    decreases j2 - j1,
{
    if j1 < j2 {
        lemma_spawn_count_prefix(msgs, j1, j2 - 1);
        assert(msgs.take(j2).drop_last() =~= msgs.take(j2 - 1));
        if j1 == j2 - 1 {
            assert(msgs.take(j2).last() == msgs[j1]);
        }
    }
}

/// Children are numbered from the actor's counter in the order their spawn
/// requests come: the request at position `j` of the stream is handled in
/// the state that has counted the requests before it, so it is sent with the
/// id `child_id(myid, childid + spawn_count(msgs.take(j)))`, and a later
/// request gets a larger number, so no id is given twice.
pub proof fn lemma_child_ids(s: ActorState, msgs: Seq<ChildMessage>, j1: int, j2: int)
    requires
        0 <= s.childid,
        s.childid + spawn_count(msgs) < i64::MAX,
        0 <= s.setup,
        s.setup + msgs.len() < i64::MAX,
        0 <= j1 < j2 < msgs.len(),
        is_spawn(msgs[j1]),
        is_spawn(msgs[j2]),
    ensures
        actor_after(s, msgs.take(j1)).childid == s.childid + spawn_count(msgs.take(j1)),
        actor_after(s, msgs.take(j2)).childid == s.childid + spawn_count(msgs.take(j2)),
        actor_after(s, msgs.take(j1)).myid == s.myid,
        actor_after(s, msgs.take(j1)).childid < actor_after(s, msgs.take(j2)).childid,
{
    lemma_spawn_count_prefix(msgs, j1, msgs.len() as int);
    lemma_spawn_count_prefix(msgs, j2, msgs.len() as int);
    assert(msgs.take(msgs.len() as int) =~= msgs);
    lemma_actor_after(s, msgs.take(j1));
    lemma_actor_after(s, msgs.take(j2));
    lemma_spawn_count_prefix(msgs, j1, j2);
}

/// What forwarding one log message does: see `forward_log`.
pub open spec fn log_step(msg: LogMessage) -> (ChildMessage, bool) {
    if msg.level == 9 {
        (ChildMessage::ExitProc, true)
    } else {
        (ChildMessage::LogMsg(msg), false)
    }
}

/// What the log forwarding loop sends for the messages `msgs`, applying
/// `forward_log` to each in turn until it says to stop.
pub open spec fn log_forwarded(msgs: Seq<LogMessage>) -> Seq<ChildMessage>
    decreases msgs.len(),
{
    if msgs.len() == 0 {
        seq![]
    } else {
        let (sent, stop) = log_step(msgs[0]);
        if stop {
            seq![sent]
        } else {
            seq![sent] + log_forwarded(msgs.drop_first())
        }
    }
}

/// The log forwarding loop passes on each message in order up to the first
/// of level 9, for which it sends `ExitProc` and then nothing more; without
/// such a message it passes on all of them.
pub proof fn lemma_log_forwarded(msgs: Seq<LogMessage>, j: int)
    requires
        0 <= j <= msgs.len(),
        forall|i: int| 0 <= i < j ==> #[trigger] msgs[i].level != 9,
        j < msgs.len() ==> msgs[j].level == 9,
    ensures
        log_forwarded(msgs) == msgs.take(j).map_values(|m: LogMessage| ChildMessage::LogMsg(m)) + (
        if j < msgs.len() {
            seq![ChildMessage::ExitProc]
        } else {
            Seq::<ChildMessage>::empty()
        }),
    decreases j,
{
    let f = |m: LogMessage| ChildMessage::LogMsg(m);
    if j == 0 {
        assert(msgs.take(0).map_values(f) =~= Seq::<ChildMessage>::empty());
        if msgs.len() > 0 {
            assert(log_forwarded(msgs) =~= seq![ChildMessage::ExitProc]);
        }
    } else {
        let rest = msgs.drop_first();
        assert forall|i: int| 0 <= i < j - 1 implies #[trigger] rest[i].level != 9 by {
            assert(rest[i] == msgs[i + 1]);
        }
        lemma_log_forwarded(rest, j - 1);
        assert(msgs[0].level != 9);
        assert(msgs.take(j).map_values(f) =~= seq![f(msgs[0])] + rest.take(j - 1).map_values(f));
    }
}

/// What a forwarding loop sends for the step results `rs`: each callback in
/// turn, up to and including the step that ends the loop.
pub open spec fn sent_until_stop(rs: Seq<(Option<ChildMessage>, bool)>) -> Seq<ChildMessage>
    decreases rs.len(),
{
    if rs.len() == 0 {
        seq![]
    } else {
        let sent: Seq<ChildMessage> = match rs[0].0 {
            Some(m) => seq![m],
            None => seq![],
        };
        if rs[0].1 {
            sent
        } else {
            sent + sent_until_stop(rs.drop_first())
        }
    }
}

/// The I/O forwarding loop ends at the first `Exit`, and `Done` is the last
/// thing it sends; everything it sent before is an I/O callback.
pub proof fn lemma_uv_forwarded(msgs: Seq<UvMessage>, rs: Seq<(Option<ChildMessage>, bool)>, j: int)
    requires
        rs.len() == msgs.len(),
        forall|i: int| 0 <= i < msgs.len() ==> uv_step(#[trigger] msgs[i], rs[i]),
        0 <= j < msgs.len(),
        msgs[j] is Exit,
        forall|i: int| 0 <= i < j ==> !(#[trigger] msgs[i] is Exit),
    ensures
        sent_until_stop(rs) == sent_until_stop(rs.take(j + 1)),
        sent_until_stop(rs).len() > 0,
        sent_until_stop(rs).last() is Done,
        forall|k: int|
            0 <= k < sent_until_stop(rs).len() - 1 ==> #[trigger] sent_until_stop(rs)[k] is IoCb,
    decreases j,
{
    assert(uv_step(msgs[0], rs[0]));
    if j == 0 {
        assert(sent_until_stop(rs) =~= seq![ChildMessage::Done]);
        assert(sent_until_stop(rs.take(1)) =~= seq![ChildMessage::Done]);
    } else {
        let ms = msgs.drop_first();
        let rest = rs.drop_first();
        assert forall|i: int| 0 <= i < ms.len() implies uv_step(#[trigger] ms[i], rest[i]) by {
            assert(ms[i] == msgs[i + 1] && rest[i] == rs[i + 1]);
            assert(uv_step(msgs[i + 1], rs[i + 1]));
        }
        assert forall|i: int| 0 <= i < j - 1 implies !(#[trigger] ms[i] is Exit) by {
            assert(ms[i] == msgs[i + 1]);
        }
        lemma_uv_forwarded(ms, rest, j - 1);
        assert(!(msgs[0] is Exit));
        assert(rs.take(j + 1).drop_first() =~= rest.take(j));
        let head: Seq<ChildMessage> = match rs[0].0 {
            Some(m) => seq![m],
            None => seq![],
        };
        assert(head.len() > 0 ==> head[0] is IoCb);
        let tail = sent_until_stop(rest);
        assert(sent_until_stop(rs) == head + tail);
        assert forall|k: int|
            0 <= k < (head + tail).len() - 1 implies #[trigger] (head + tail)[k] is IoCb by {
            if k >= head.len() {
                assert((head + tail)[k] == tail[k - head.len()]);
            }
        }
    }
}

/// A run of the actor's loop over the messages `msgs`: `rs[i]` are the
/// actions for `msgs[i]`, handled in the state the earlier messages left,
/// and the loop takes a message only while the actor has not exited.
pub open spec fn actor_run(s: ActorState, msgs: Seq<ChildMessage>, rs: Seq<Seq<ActorAction>>) -> bool {
    &&& rs.len() == msgs.len()
    &&& forall|i: int|
        0 <= i < msgs.len() ==> {
            &&& !actor_after(s, msgs.take(i)).exit
            &&& handled(#[trigger] msgs[i])
            &&& handled_as(actor_after(s, msgs.take(i)), msgs[i], rs[i])
        }
}

/// What an actor sends its parent over a run: a spawn request at position
/// `i` sends the spawn of child number `childid + spawn_count(msgs.take(i))`
/// (so a fresh actor numbers its children 0, 1, 2, ... in the order asked),
/// with the script that was asked for; `Done` is sent back and is the last
/// message the actor takes.
pub proof fn lemma_actor_run(s: ActorState, msgs: Seq<ChildMessage>, rs: Seq<Seq<ActorAction>>, i: int)
    requires
        actor_run(s, msgs, rs),
        0 <= s.childid,
        s.childid + spawn_count(msgs) < i64::MAX,
        0 <= s.setup,
        s.setup + msgs.len() < i64::MAX,
        0 <= i < msgs.len(),
    ensures
        is_spawn(msgs[i]) ==> rs[i].len() == 1 && (rs[i][0] matches ActorAction::Send(
            ChildMessage::Spawn(id, src),
        ) && id@ == child_id(s.myid, s.childid + spawn_count(msgs.take(i))) && (msgs[i] matches ChildMessage::LogMsg(m)
            && src@ == m.message@)),
        msgs[i] is Done ==> i == msgs.len() - 1 && rs[i].len() == 1 && (rs[i][0] matches ActorAction::Send(
            ChildMessage::Done,
        )),
{
    assert(handled(msgs[i]));
    lemma_spawn_count_prefix(msgs, i, msgs.len() as int);
    assert(msgs.take(msgs.len() as int) =~= msgs);
    lemma_actor_after(s, msgs.take(i));
    if msgs[i] is Done && i < msgs.len() - 1 {
        lemma_spawn_count_prefix(msgs, i + 1, msgs.len() as int);
        lemma_actor_after(s, msgs.take(i + 1));
        assert(msgs.take(i + 1)[i] is Done);
        assert(handled(msgs[i + 1]));
        assert(false);
    }
}

/// What an actor does when it starts, before it takes any message.
#[derive(PartialEq, Eq, Clone, Copy, Structural, Debug)]
pub enum ActorStartup {
    /// Send its id and its inbox to the supervisor.
    AnnounceInbox(i64),
    /// Start the threads that forward its log and I/O messages.
    StartChildren,
    /// Create its runtime and global object.
    CreateEngine,
}

/// The start of actor `myid`: it announces its inbox first, then starts its
/// forwarding threads, then creates its engine.
pub fn actor_startup(myid: i64) -> (r: Vec<ActorStartup>)
    ensures
        r@ == seq![ActorStartup::AnnounceInbox(myid), ActorStartup::StartChildren, ActorStartup::CreateEngine],
{
    let mut steps: Vec<ActorStartup> = Vec::new();
    steps.push(ActorStartup::AnnounceInbox(myid));
    steps.push(ActorStartup::StartChildren);
    steps.push(ActorStartup::CreateEngine);
    steps
}

/// What the log forwarding task sends before it takes a log message: that
/// the log channel is ready.
pub fn log_task_start() -> (r: ChildMessage)
    ensures
        r is SetLog,
{
    ChildMessage::SetLog
}

/// What the log forwarding task sends over its life: `SetLog` first, then
/// what it forwards of the log messages.
pub open spec fn log_task_sent(msgs: Seq<LogMessage>) -> Seq<ChildMessage> {
    seq![ChildMessage::SetLog] + log_forwarded(msgs)
}

/// The log task sends `SetLog` first, then each log message in order up to
/// the first of level 9, for which it sends `ExitProc` and then nothing
/// more.
pub proof fn lemma_log_task(msgs: Seq<LogMessage>, j: int)
    requires
        0 <= j <= msgs.len(),
        forall|i: int| 0 <= i < j ==> #[trigger] msgs[i].level != 9,
        j < msgs.len() ==> msgs[j].level == 9,
    ensures
        log_task_sent(msgs) == seq![ChildMessage::SetLog] + msgs.take(j).map_values(
            |m: LogMessage| ChildMessage::LogMsg(m),
        ) + (if j < msgs.len() {
            seq![ChildMessage::ExitProc]
        } else {
            Seq::<ChildMessage>::empty()
        }),
{
    lemma_log_forwarded(msgs, j);
    let f = |m: LogMessage| ChildMessage::LogMsg(m);
    let tail = if j < msgs.len() {
        seq![ChildMessage::ExitProc]
    } else {
        Seq::<ChildMessage>::empty()
    };
    assert(seq![ChildMessage::SetLog] + (msgs.take(j).map_values(f) + tail) =~= seq![
        ChildMessage::SetLog,
    ] + msgs.take(j).map_values(f) + tail);
}

} // verus!
