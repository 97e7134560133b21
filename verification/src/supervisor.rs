//! The decisions of the program that runs script actors. It starts one actor
//! per script, counts the live ones, starts the actors they ask to spawn,
//! tells every registered actor to exit once all have asked to, and stops
//! when the last one is done. The caller receives the messages and performs
//! the actions (logging, starting threads, sending on channels).

use vstd::prelude::*;
use crate::actor::ChildMessage;

verus! {

/// What the supervisor does in answer to a message.
pub enum SupervisorAction {
    /// Log this line.
    Log(String),
    /// Log that actor `id` asked to spawn an actor running `src`.
    LogSpawn { id: String, src: String },
    /// Start actor number `id`, running the script `script`.
    StartActor { id: i64, script: String },
    /// Send `ExitProc` to the registered actor `id`.
    SendExit(i64),
    /// Stop the program.
    Stop,
}

/// The state of the supervisor: how many actors it waits for, the number of
/// the last actor started, and the actors whose inbox it knows, by
/// ascending id.
pub struct Supervisor {
    pub left: i64,
    pub actorid: i64,
    pub registered: Vec<i64>,
}

/// The scripts a run starts with: the arguments after the program name, or
/// "test.js" when there are none.
pub open spec fn script_names(args: Seq<String>) -> Seq<Seq<char>> {
    if args.len() == 1 {
        seq!["test.js"@]
    } else {
        args.subrange(1, args.len() as int).map_values(|a: String| a@)
    }
}

/// The messages the supervisor handles; the others make it fail.
pub open spec fn supervised(msg: ChildMessage) -> bool {
    ||| msg is Stdout
    ||| msg is Stderr
    ||| msg is Spawn
    ||| msg is Cast
    ||| msg is ExitProc
    ||| msg is Done
}

impl Supervisor {
    /// The registered ids ascend strictly.
    pub open spec fn wf(&self) -> bool {
        forall|i: int, j: int|
            0 <= i < j < self.registered@.len() ==> self.registered@[i] < self.registered@[j]
    }

    /// Starts a run for the command line `args` (the program name first):
    /// actor `i + 1` runs the `i`-th script, and the supervisor waits for all
    /// of them.
    pub fn start(args: &Vec<String>) -> (r: (Supervisor, Vec<SupervisorAction>))
        requires
            1 <= args.len() < i64::MAX,
        ensures
            r.0.wf(),
            r.0.registered@.len() == 0,
            r.0.left == script_names(args@).len(),
            r.0.actorid == script_names(args@).len(),
            r.1@.len() == script_names(args@).len(),
            forall|i: int|
                0 <= i < r.1@.len() ==> (#[trigger] r.1@[i] matches SupervisorAction::StartActor {
                    id,
                    script,
                } && id == i + 1 && script@ == script_names(args@)[i]),
    {
        let mut actions: Vec<SupervisorAction> = Vec::new();
        if args.len() == 1 {
            actions.push(SupervisorAction::StartActor { id: 1, script: "test.js".to_owned() });
            proof {
                assert(actions@[0] matches SupervisorAction::StartActor { id, script } && id == 1
                    && script@ == "test.js"@);
            }
            return (Supervisor { left: 1, actorid: 1, registered: Vec::new() }, actions);
        }
        let ghost names = script_names(args@);
        let mut k: usize = 1;
        while k < args.len()
            invariant
                1 <= k <= args@.len(),
                args@.len() > 1,
                args@.len() < i64::MAX,
                names == script_names(args@),
                names.len() == args@.len() - 1,
                actions@.len() == k - 1,
                forall|i: int|
                    0 <= i < actions@.len() ==> (#[trigger] actions@[i] matches SupervisorAction::StartActor {
                        id,
                        script,
                    } && id == i + 1 && script@ == names[i]),
            decreases args@.len() - k,
        {
            let script = args[k].clone();
            assert(names[k - 1] == args@[k as int]@);
            actions.push(SupervisorAction::StartActor { id: k as i64, script });
            k = k + 1;
        }
        let n = (args.len() - 1) as i64;
        (Supervisor { left: n, actorid: n, registered: Vec::new() }, actions)
    }

    /// Records that actor `id` has sent its inbox. An id already known stays
    /// known once.
    pub fn register(&mut self, id: i64)
        requires
            old(self).wf(),
        ensures
            final(self).wf(),
            final(self).left == old(self).left,
            final(self).actorid == old(self).actorid,
            forall|x: i64|
                #[trigger] final(self).registered@.contains(x) <==> (old(self).registered@.contains(
                    x,
                ) || x == id),
    {
        let mut pos: usize = 0;
        while pos < self.registered.len() && self.registered[pos] < id
            invariant
                pos <= self.registered@.len(),
                forall|i: int| 0 <= i < pos ==> self.registered@[i] < id,
            decreases self.registered@.len() - pos,
        {
            pos = pos + 1;
        }
        if pos < self.registered.len() && self.registered[pos] == id {
            assert(self.registered@[pos as int] == id);
            return;
        }
        let ghost before = self.registered@;
        proof {
            assert forall|j: int| pos <= j < before.len() implies id < #[trigger] before[j] by {
                assert(before[pos as int] >= id);
                assert(before[pos as int] != id);
                if j > pos {
                    assert(before[pos as int] < before[j]);
                }
            }
        }
        self.registered.insert(pos, id);
        assert(self.registered@ == before.insert(pos as int, id));
        assert forall|x: i64| #[trigger] self.registered@.contains(x) <==> (before.contains(x) || x == id) by {
            if self.registered@.contains(x) {
                let i = choose|i: int| 0 <= i < self.registered@.len() && self.registered@[i] == x;
                if i < pos {
                    assert(before[i] == x);
                } else if i > pos {
                    assert(before[i - 1] == x);
                }
            }
            if before.contains(x) {
                let i = choose|i: int| 0 <= i < before.len() && before[i] == x;
                if i < pos {
                    assert(self.registered@[i] == x);
                } else {
                    assert(self.registered@[i + 1] == x);
                }
            }
            if x == id {
                assert(self.registered@[pos as int] == x);
            }
        }
    }

    /// The actions for one message, and the state they leave.
    pub fn supervise(&mut self, msg: ChildMessage) -> (r: Vec<SupervisorAction>)
        requires
            old(self).wf(),
            supervised(msg),
            old(self).left < i64::MAX,
            old(self).left > i64::MIN,
            old(self).actorid < i64::MAX,
            old(self).registered@.len() <= i64::MAX,
        ensures
            final(self).wf(),
            final(self).registered@ == old(self).registered@,
            msg matches ChildMessage::Stdout(x) ==> (r@.len() == 1 && (r@[0] matches SupervisorAction::Log(
                t,
            ) && t@ == x@)),
            msg matches ChildMessage::Stderr(x) ==> (r@.len() == 1 && (r@[0] matches SupervisorAction::Log(
                t,
            ) && t@ == x@)),
            !(msg is Spawn) ==> final(self).actorid == old(self).actorid,
            msg is Stdout || msg is Stderr || msg is Cast ==> final(self).left == old(self).left,
            msg is Cast ==> r@.len() == 0,
            msg matches ChildMessage::Spawn(id, src) ==> {
                &&& final(self).actorid == old(self).actorid + 1
                &&& final(self).left == old(self).left + 1
                &&& r@.len() == 2
                &&& (r@[0] matches SupervisorAction::LogSpawn { id: i, src: s } && i@ == id@ && s@
                    == src@)
                &&& (r@[1] matches SupervisorAction::StartActor { id: n, script } && n
                    == old(self).actorid + 1 && script@ == src@)
            },
            msg is ExitProc ==> if old(self).left - 1 == 0 {
                &&& final(self).left == old(self).registered@.len()
                &&& r@.len() == old(self).registered@.len()
                &&& forall|i: int|
                    0 <= i < r@.len() ==> #[trigger] r@[i] == SupervisorAction::SendExit(
                        old(self).registered@[i],
                    )
            } else {
                final(self).left == old(self).left - 1 && r@.len() == 0
            },
            msg is Done ==> {
                &&& final(self).left == old(self).left - 1
                &&& if old(self).left - 1 == 0 {
                    r@.len() == 1 && r@[0] is Stop
                } else {
                    r@.len() == 0
                }
            },
    {
        let mut actions: Vec<SupervisorAction> = Vec::new();
        match msg {
            ChildMessage::Stdout(x) => {
                actions.push(SupervisorAction::Log(x));
            },
            ChildMessage::Stderr(x) => {
                actions.push(SupervisorAction::Log(x));
            },
            ChildMessage::Spawn(id, src) => {
                self.actorid = self.actorid + 1;
                self.left = self.left + 1;
                let script = src.clone();
                actions.push(SupervisorAction::LogSpawn { id, src });
                actions.push(SupervisorAction::StartActor { id: self.actorid, script });
            },
            ChildMessage::ExitProc => {
                self.left = self.left - 1;
                if self.left == 0 {
                    let mut i: usize = 0;
                    while i < self.registered.len()
                        invariant
                            i <= self.registered@.len(),
                            actions@.len() == i,
                            forall|k: int|
                                0 <= k < i ==> #[trigger] actions@[k] == SupervisorAction::SendExit(
                                    self.registered@[k],
                                ),
                        decreases self.registered@.len() - i,
                    {
                        actions.push(SupervisorAction::SendExit(self.registered[i]));
                        i = i + 1;
                    }
                    self.left = self.registered.len() as i64;
                }
            },
            ChildMessage::Done => {
                self.left = self.left - 1;
                if self.left == 0 {
                    actions.push(SupervisorAction::Stop);
                }
            },
            _ => {},
        }
        actions
    }
}

} // verus!
