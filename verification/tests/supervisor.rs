use js::actor::{actor_startup, log_task_start, ActorStartup, ChildMessage};
use js::supervisor::{Supervisor, SupervisorAction};

fn args(list: &[&str]) -> Vec<String> {
    list.iter().map(|s| s.to_string()).collect()
}

#[test]
fn default_script_is_test_js() {
    let (sup, actions) = Supervisor::start(&args(&["prog"]));
    assert_eq!(sup.left, 1);
    assert_eq!(sup.actorid, 1);
    assert!(matches!(&actions[..], [SupervisorAction::StartActor { id: 1, script }] if script == "test.js"));
}

#[test]
fn one_actor_per_script() {
    let (sup, actions) = Supervisor::start(&args(&["prog", "a.js", "b.js"]));
    assert_eq!((sup.left, sup.actorid), (2, 2));
    assert!(matches!(&actions[..], [
        SupervisorAction::StartActor { id: 1, script: a },
        SupervisorAction::StartActor { id: 2, script: b },
    ] if a == "a.js" && b == "b.js"));
}

#[test]
fn spawned_actors_get_the_next_id() {
    let (mut sup, _) = Supervisor::start(&args(&["prog", "a.js"]));
    sup.register(1);
    let r = sup.supervise(ChildMessage::Spawn("1:0".to_string(), "c.js".to_string()));
    assert!(matches!(&r[..], [
        SupervisorAction::LogSpawn { id, src },
        SupervisorAction::StartActor { id: 2, script },
    ] if id == "1:0" && src == "c.js" && script == "c.js"));
    assert_eq!((sup.left, sup.actorid), (2, 2));
    let r = sup.supervise(ChildMessage::Stdout("hi".to_string()));
    assert!(matches!(&r[..], [SupervisorAction::Log(t)] if t == "hi"));
    assert!(sup.supervise(ChildMessage::Cast("x".to_string(), "y".to_string())).is_empty());
}

#[test]
fn exit_is_broadcast_when_all_asked() {
    let (mut sup, _) = Supervisor::start(&args(&["prog", "a.js", "b.js"]));
    sup.register(2);
    sup.register(1);
    sup.register(2);
    assert_eq!(sup.registered, vec![1, 2]);
    assert!(sup.supervise(ChildMessage::ExitProc).is_empty());
    assert_eq!(sup.left, 1);
    let r = sup.supervise(ChildMessage::ExitProc);
    assert!(matches!(&r[..], [SupervisorAction::SendExit(1), SupervisorAction::SendExit(2)]));
    assert_eq!(sup.left, 2);
    assert!(sup.supervise(ChildMessage::Done).is_empty());
    let r = sup.supervise(ChildMessage::Done);
    assert!(matches!(&r[..], [SupervisorAction::Stop]));
    assert_eq!(sup.left, 0);
}

#[test]
fn actors_announce_their_inbox_first() {
    assert_eq!(
        actor_startup(4),
        vec![ActorStartup::AnnounceInbox(4), ActorStartup::StartChildren, ActorStartup::CreateEngine]
    );
    assert!(matches!(log_task_start(), ChildMessage::SetLog));
}
