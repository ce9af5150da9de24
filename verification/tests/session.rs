use two_wee_terminal::session::{
    client_command, initial_pty_size, open_session, resolve_server, session_home_dir, PtyDimensions,
    Session, TerminalQuery, DEFAULT_CLIENT_BIN, SESSIONS_ROOT,
};

fn s(x: &str) -> Option<String> {
    Some(x.to_string())
}

#[test]
fn locked_server_always_wins() {
    assert_eq!(resolve_server(s("https://org.example"), s("https://other.example")), s("https://org.example"));
    assert_eq!(resolve_server(s("https://org.example"), None), s("https://org.example"));
    assert_eq!(resolve_server(s("https://org.example"), s("")), s("https://org.example"));
}

#[test]
fn query_server_used_when_not_locked() {
    assert_eq!(resolve_server(None, s("https://demo.2wee.dev/terminal")), s("https://demo.2wee.dev/terminal"));
    assert_eq!(resolve_server(s(""), s("https://q.example")), s("https://q.example"));
}

#[test]
fn no_server_without_lock_or_query() {
    assert_eq!(resolve_server(None, None), None);
    assert_eq!(resolve_server(None, s("")), None);
    assert_eq!(resolve_server(s(""), s("")), None);
    assert_eq!(resolve_server(s(""), None), None);
}

#[test]
fn pty_size_defaults() {
    assert_eq!(initial_pty_size(None, None), PtyDimensions { rows: 50, cols: 220 });
    assert_eq!(initial_pty_size(Some(80), None), PtyDimensions { rows: 50, cols: 80 });
    assert_eq!(initial_pty_size(None, Some(24)), PtyDimensions { rows: 24, cols: 220 });
    assert_eq!(initial_pty_size(Some(132), Some(43)), PtyDimensions { rows: 43, cols: 132 });
}

#[test]
fn home_dir_under_sessions_root() {
    assert_eq!(SESSIONS_ROOT, "/tmp/2wee-sessions/");
    assert_eq!(session_home_dir("abc"), "/tmp/2wee-sessions/abc");
}

fn check_uuid_shape(id: &str) {
    let chars: Vec<char> = id.chars().collect();
    assert_eq!(chars.len(), 36, "{}", id);
    for (i, c) in chars.iter().enumerate() {
        if i == 8 || i == 13 || i == 18 || i == 23 {
            assert_eq!(*c, '-', "{}", id);
        } else {
            assert!(c.is_ascii_hexdigit() && !c.is_ascii_uppercase(), "{}", id);
        }
    }
    assert_eq!(chars[14], '4');
    assert!(matches!(chars[19], '8' | '9' | 'a' | 'b'));
}

fn random() -> [u8; 16] {
    uuid::Uuid::new_v4().into_bytes()
}

#[test]
fn session_id_is_the_uuid_of_the_random_bytes() {
    let bytes: [u8; 16] = [0, 1, 2, 3, 4, 5, 6, 7, 8, 9, 10, 11, 12, 13, 14, 15];
    let s1 = Session::new("https://x.example".to_string(), bytes);
    assert_eq!(s1.id, "00010203-0405-4607-8809-0a0b0c0d0e0f");
    assert_eq!(s1.home_dir, "/tmp/2wee-sessions/00010203-0405-4607-8809-0a0b0c0d0e0f");
    let s2 = Session::new("https://x.example".to_string(), [0xff; 16]);
    assert_eq!(s2.id, "ffffffff-ffff-4fff-bfff-ffffffffffff");
    let s3 = Session::new("https://x.example".to_string(), [0; 16]);
    assert_eq!(s3.id, "00000000-0000-4000-8000-000000000000");
}

#[test]
fn new_session_has_random_v4_id_and_own_home() {
    let a = Session::new("https://x.example".to_string(), random());
    let b = Session::new("https://x.example".to_string(), random());
    check_uuid_shape(&a.id);
    check_uuid_shape(&b.id);
    assert_ne!(a.id, b.id);
    assert_eq!(a.server_url, "https://x.example");
    assert_eq!(a.home_dir, format!("/tmp/2wee-sessions/{}", a.id));
    assert_ne!(a.home_dir, b.home_dir);
}

#[test]
fn client_command_default_and_configured() {
    let session = Session::new("https://x.example".to_string(), random());
    let c = client_command(None, &session);
    assert_eq!(DEFAULT_CLIENT_BIN, "two_wee_client");
    assert_eq!(c.program, "two_wee_client");
    assert_eq!(c.args, vec!["https://x.example".to_string()]);
    assert_eq!(c.home, session.home_dir);
    let c = client_command(s("/opt/bin/client"), &session);
    assert_eq!(c.program, "/opt/bin/client");
    let c = client_command(s(""), &session);
    assert_eq!(c.program, "");
}

#[test]
fn open_session_refused_without_server() {
    let q = TerminalQuery { server: None, cols: Some(80), rows: Some(24) };
    assert!(open_session(q, None, None, random()).is_none());
    let q = TerminalQuery { server: s(""), cols: None, rows: None };
    assert!(open_session(q, s(""), None, random()).is_none());
}

#[test]
fn open_session_plan() {
    let q = TerminalQuery { server: s("https://q.example"), cols: Some(100), rows: None };
    let plan = open_session(q, None, s("client"), [7; 16]).unwrap();
    assert_eq!(plan.session.server_url, "https://q.example");
    check_uuid_shape(&plan.session.id);
    assert_eq!(plan.session.id, "07070707-0707-4707-8707-070707070707");
    assert_eq!(plan.size, PtyDimensions { rows: 50, cols: 100 });
    assert_eq!(plan.command.program, "client");
    assert_eq!(plan.command.args, vec!["https://q.example".to_string()]);
    assert_eq!(plan.command.home, plan.session.home_dir);

    let q = TerminalQuery { server: s("https://q.example"), cols: None, rows: None };
    let plan = open_session(q, s("https://locked.example"), None, random()).unwrap();
    assert_eq!(plan.session.server_url, "https://locked.example");
    assert_eq!(plan.command.program, "two_wee_client");
    assert_eq!(plan.size, PtyDimensions { rows: 50, cols: 220 });
}
