use js::actor::{
    forward_log, forward_uv, guarded_script, is_http, ActorAction, ActorState, ChildMessage,
    LogMessage, UvMessage,
};
use js::name_pool::NamePool;
use js::rt::{new_context, new_runtime};

fn log(level: u32, message: &str) -> LogMessage {
    LogMessage { message: message.to_string(), level, tag: 3, timeout: 250 }
}

#[test]
fn log_forwarding() {
    let (m, stop) = forward_log(log(9, "bye"));
    assert!(matches!(m, ChildMessage::ExitProc));
    assert!(stop);
    let (m, stop) = forward_log(log(0, "hi"));
    assert!(matches!(m, ChildMessage::LogMsg(ref l) if l.message == "hi"));
    assert!(!stop);
}

#[test]
fn uv_forwarding() {
    let (m, _) = forward_uv(UvMessage::Connected(4));
    assert!(matches!(m, Some(ChildMessage::IoCb(0, ref s, 4)) if s == "onconnect"));
    let (m, _) = forward_uv(UvMessage::Wrote(4));
    assert!(matches!(m, Some(ChildMessage::IoCb(1, ref s, 4)) if s == "onsend"));
    let (m, _) = forward_uv(UvMessage::Read(5, "data".to_string(), 4));
    assert!(matches!(m, Some(ChildMessage::IoCb(2, ref s, 5)) if s == "data"));
    let (m, _) = forward_uv(UvMessage::Read(5, String::new(), -1));
    assert!(matches!(m, Some(ChildMessage::IoCb(3, ref s, 5)) if s == "onclose"));
    let (m, _) = forward_uv(UvMessage::Timer(6));
    assert!(matches!(m, Some(ChildMessage::IoCb(4, ref s, 6)) if s == "ontimer"));
    let (m, stop) = forward_uv(UvMessage::Whatever);
    assert!(m.is_none() && !stop);
    let (m, stop) = forward_uv(UvMessage::Exit);
    assert!(matches!(m, Some(ChildMessage::Done)) && stop);
}

#[test]
fn actor_log_levels() {
    let mut st = ActorState::new(-3, "a.js".to_string());
    let r = st.handle_message(ChildMessage::LogMsg(log(0, "hello")));
    assert!(matches!(&r[..], [ActorAction::Send(ChildMessage::Stdout(t))] if t == "[Actor -3] hello"));
    let r = st.handle_message(ChildMessage::LogMsg(log(1, "bad")));
    assert!(matches!(&r[..], [ActorAction::Send(ChildMessage::Stderr(t))] if t == "[ERROR -3] bad"));
    let r = st.handle_message(ChildMessage::LogMsg(log(2, "child.js")));
    assert!(matches!(&r[..], [ActorAction::Send(ChildMessage::Spawn(id, src))] if id == "-3:0" && src == "child.js"));
    let r = st.handle_message(ChildMessage::LogMsg(log(2, "other.js")));
    assert!(matches!(&r[..], [ActorAction::Send(ChildMessage::Spawn(id, _))] if id == "-3:1"));
    assert_eq!(st.childid, 2);
    assert!(st.handle_message(ChildMessage::LogMsg(log(3, ""))).is_empty());
    let r = st.handle_message(ChildMessage::LogMsg(log(4, "example.org")));
    assert!(matches!(&r[..], [ActorAction::Connect { tag: 3, host }] if host == "example.org"));
    let r = st.handle_message(ChildMessage::LogMsg(log(5, "")));
    assert!(matches!(&r[..], [ActorAction::Write { tag: 3, bytes }] if bytes == "GET / HTTP/1.0\n\n"));
    let r = st.handle_message(ChildMessage::LogMsg(log(6, "")));
    assert!(matches!(&r[..], [ActorAction::ReadStart { tag: 3 }]));
    let r = st.handle_message(ChildMessage::LogMsg(log(7, "")));
    assert!(matches!(&r[..], [ActorAction::Close { tag: 3 }]));
    let r = st.handle_message(ChildMessage::LogMsg(log(8, "")));
    assert!(matches!(&r[..], [ActorAction::TimerStart { timeout: 250, tag: 3 }]));
    let r = st.handle_message(ChildMessage::LogMsg(log(42, "")));
    assert!(matches!(&r[..], [ActorAction::LogError(t)] if t == "..."));
}

#[test]
fn actor_io_and_exit() {
    let mut st = ActorState::new(1, "a.js".to_string());
    let r = st.handle_message(ChildMessage::IoCb(2, "payload".to_string(), 17));
    assert!(matches!(&r[..], [ActorAction::RunWithData { data, code }]
        if data == "payload" && code == "_resume(2, _data, 17); _data = undefined; XMLHttpRequest.requests_outstanding"));
    let r = st.handle_message(ChildMessage::LoadUrl("http://x".to_string()));
    assert!(matches!(&r[..], [ActorAction::RunWithData { data, code }]
        if data == "http://x" && code == "_resume(5, _data, 0); _data = undefined"));
    let r = st.handle_message(ChildMessage::ExitProc);
    assert!(matches!(&r[..], [ActorAction::SendUvExit]));
    assert!(!st.exit);
    let r = st.handle_message(ChildMessage::Done);
    assert!(matches!(&r[..], [ActorAction::Send(ChildMessage::Done)]));
    assert!(st.exit);
}

#[test]
fn actor_startup() {
    let mut st = ActorState::new(1, "page.js".to_string());
    assert!(st.after_message().is_empty());
    let r = st.handle_message(ChildMessage::SetLog);
    assert!(matches!(&r[..], [ActorAction::SetLogChannel]));
    let r = st.after_message();
    assert!(matches!(&r[..], [ActorAction::PopulateGlobalScope(s), ActorAction::RunScript { code, filename }]
        if s == "page.js" && code == "if (XMLHttpRequest.requests_outstanding === 0)  jsrust_exit();" && filename == "test.js"));
    assert!(st.after_message().is_empty());

    let mut web = ActorState::new(2, "http://example.org/".to_string());
    web.handle_message(ChildMessage::SetLog);
    let r = web.after_message();
    assert!(matches!(&r[..], [ActorAction::PopulateGlobalScope(s), ActorAction::SendSelf(ChildMessage::LoadUrl(u)), ActorAction::RunScript { .. }]
        if s.is_empty() && u == "http://example.org/"));
}

#[test]
fn urls_and_scripts() {
    assert!(is_http("http://a"));
    assert!(is_http("https://a"));
    assert!(!is_http("http"));
    assert!(!is_http("ftp://x"));
    assert!(!is_http("page.js"));
    assert_eq!(guarded_script("f()"), "try { f() } catch (e) { print('Error: ', e, e.stack) }");
}

#[test]
fn name_pool() {
    let mut pool = NamePool();
    assert_eq!(pool.add("abc"), 0);
    assert_eq!(pool.add(""), 1);
    assert_eq!(pool.add("é"), 2);
    assert_eq!(pool.name(0), &vec![b'a', b'b', b'c', 0]);
    assert_eq!(pool.name(1), &vec![0]);
    assert_eq!(pool.name(2), &vec![0xc3, 0xa9, 0]);
}

#[test]
fn shared_runtimes() {
    let rt = new_runtime(0x1000);
    assert_eq!(rt.ptr, 0x1000);
    let cx = new_context(0x2000, rt.clone());
    assert_eq!(cx.ptr, 0x2000);
    assert_eq!(cx.rt.ptr, 0x1000);
}

#[test]
fn child_ids_are_consecutive_over_a_stream() {
    let mut st = ActorState::new(7, "a.js".to_string());
    let stream = vec![
        ChildMessage::SetLog,
        ChildMessage::LogMsg(log(2, "one.js")),
        ChildMessage::LogMsg(log(0, "hi")),
        ChildMessage::LogMsg(log(2, "two.js")),
        ChildMessage::IoCb(4, "ontimer".to_string(), 1),
        ChildMessage::LogMsg(log(2, "three.js")),
    ];
    let mut ids = Vec::new();
    for msg in stream {
        for action in st.handle_message(msg) {
            if let ActorAction::Send(ChildMessage::Spawn(id, _)) = action {
                ids.push(id);
            }
        }
        st.after_message();
    }
    assert_eq!(ids, vec!["7:0", "7:1", "7:2"]);
    assert_eq!(st.childid, 3);
    assert_eq!(st.myid, 7);
    assert!(!st.exit);
    st.handle_message(ChildMessage::Done);
    assert!(st.exit);
}

#[test]
fn log_stream_stops_at_level_nine() {
    let stream = vec![log(0, "a"), log(1, "b"), log(9, "stop"), log(0, "never")];
    let mut sent = Vec::new();
    for msg in stream {
        let (m, stop) = forward_log(msg);
        sent.push(m);
        if stop {
            break;
        }
    }
    assert_eq!(sent.len(), 3);
    assert!(matches!(&sent[0], ChildMessage::LogMsg(l) if l.message == "a"));
    assert!(matches!(&sent[1], ChildMessage::LogMsg(l) if l.message == "b"));
    assert!(matches!(&sent[2], ChildMessage::ExitProc));
}

#[test]
fn uv_stream_ends_with_done() {
    let stream = vec![
        UvMessage::Connected(1),
        UvMessage::Whatever,
        UvMessage::Read(1, String::new(), -1),
        UvMessage::Exit,
        UvMessage::Timer(2),
    ];
    let mut sent = Vec::new();
    for msg in stream {
        let (m, stop) = forward_uv(msg);
        if let Some(m) = m {
            sent.push(m);
        }
        if stop {
            break;
        }
    }
    assert_eq!(sent.len(), 3);
    assert!(matches!(&sent[1], ChildMessage::IoCb(3, s, 1) if s == "onclose"));
    assert!(matches!(&sent[2], ChildMessage::Done));
}
