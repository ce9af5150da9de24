//! Setting up a terminal session: which server it talks to, its id and
//! private HOME directory, the initial terminal size and the client command.

use vstd::prelude::*;

verus! {

/// The query string of `/` and `/ws`: `?server=..&cols=..&rows=..`.
pub struct TerminalQuery {
    pub server: Option<String>,
    pub cols: Option<u16>,
    pub rows: Option<u16>,
}

/// The view of an optional string: its characters, if there is one.
pub open spec fn opt_chars(o: Option<String>) -> Option<Seq<char>> {
    match o {
        Some(s) => Some(s@),
        None => None,
    }
}

/// The server a session connects to. A non-empty locked server (the
/// operator's configuration) always wins; otherwise a non-empty `server`
/// query parameter; otherwise there is none and the landing page is due.
pub open spec fn spec_resolve_server(
    locked: Option<Seq<char>>,
    query_server: Option<Seq<char>>,
) -> Option<Seq<char>> {
    match locked {
        Some(l) if l.len() > 0 => Some(l),
        _ => match query_server {
            Some(q) if q.len() > 0 => Some(q),
            _ => None,
        },
    }
}

/// Resolves the server URL for a session from the locked server (if the
/// operator set one) and the `server` query parameter.
pub fn resolve_server(locked: Option<String>, query_server: Option<String>) -> (r: Option<String>)
    ensures
        opt_chars(r) == spec_resolve_server(opt_chars(locked), opt_chars(query_server)),
{
    if let Some(l) = locked {
        if !l.as_str().is_empty() {
            return Some(l);
        }
    }
    match query_server {
        Some(q) => {
            if q.as_str().is_empty() {
                None
            } else {
                Some(q)
            }
        },
        None => None,
    }
}

/// The size of a terminal, in character cells.
#[derive(PartialEq, Eq, Structural, Clone, Copy, Debug)]
pub struct PtyDimensions {
    pub rows: u16,
    pub cols: u16,
}

/// Columns of a new terminal when the client does not say.
pub const DEFAULT_COLS: u16 = 220;

/// Rows of a new terminal when the client does not say.
pub const DEFAULT_ROWS: u16 = 50;

/// The size a new terminal opens with.
pub open spec fn spec_initial_size(cols: Option<u16>, rows: Option<u16>) -> PtyDimensions {
    PtyDimensions {
        rows: match rows {
            Some(r) => r,
            None => DEFAULT_ROWS,
        },
        cols: match cols {
            Some(c) => c,
            None => DEFAULT_COLS,
        },
    }
}

/// The size a new terminal opens with: the requested columns and rows, each
/// defaulting on its own.
pub fn initial_pty_size(cols: Option<u16>, rows: Option<u16>) -> (d: PtyDimensions)
    ensures
        d == spec_initial_size(cols, rows),
{
    PtyDimensions {
        rows: match rows {
            Some(r) => r,
            None => DEFAULT_ROWS,
        },
        cols: match cols {
            Some(c) => c,
            None => DEFAULT_COLS,
        },
    }
}

/// A lower-case hexadecimal digit.
pub open spec fn is_lower_hex(c: char) -> bool {
    ('0' <= c && c <= '9') || ('a' <= c && c <= 'f')
}

/// The positions of the hyphens in a hyphenated UUID.
pub open spec fn is_uuid_hyphen_position(i: int) -> bool {
    i == 8 || i == 13 || i == 18 || i == 23
}

/// The text of a random (version 4, RFC 4122 variant) UUID in its
/// lower-case hyphenated form, such as `67e55044-10b1-426f-9247-bb680e5fe0c8`.
pub open spec fn is_v4_uuid_text(id: Seq<char>) -> bool {
    &&& id.len() == 36
    &&& forall|i: int|
        0 <= i < 36 ==> if is_uuid_hyphen_position(i) {
            id[i] == '-'
        } else {
            is_lower_hex(#[trigger] id[i])
        }
    &&& id[14] == '4'
    &&& (id[19] == '8' || id[19] == '9' || id[19] == 'a' || id[19] == 'b')
}

/// The lower-case hexadecimal digit of a value below sixteen.
pub open spec fn hex_digit(n: u8) -> char {
    if n < 10 {
        (n + '0' as int) as char
    } else {
        (n - 10 + 'a' as int) as char
    }
}

/// The sixteen bytes of a random (version 4) UUID made from `random`: the
/// high half of byte 6 set to the version, 4, and the top two bits of byte
/// 8 set to the RFC 4122 variant, `10`.
pub open spec fn uuid_v4_bytes(random: Seq<u8>) -> Seq<u8> {
    random.update(6, (random[6] & 0x0f) | 0x40).update(8, (random[8] & 0x3f) | 0x80)
}

/// Two lower-case hex digits per byte, high half first.
pub open spec fn hex_of(bytes: Seq<u8>) -> Seq<char> {
    Seq::new(
        2 * bytes.len(),
        |i: int|
            if i % 2 == 0 {
                hex_digit(bytes[i / 2] >> 4)
            } else {
                hex_digit(bytes[i / 2] & 0x0f)
            },
    )
}

/// The hyphenated form of 32 hex digits: groups of 8, 4, 4, 4 and 12.
pub open spec fn hyphenated(h: Seq<char>) -> Seq<char> {
    h.subrange(0, 8) + seq!['-'] + h.subrange(8, 12) + seq!['-'] + h.subrange(12, 16) + seq!['-']
        + h.subrange(16, 20) + seq!['-'] + h.subrange(20, 32)
}

/// The text of the random UUID made from sixteen random bytes.
pub open spec fn uuid_v4_text(random: Seq<u8>) -> Seq<char> {
    hyphenated(hex_of(uuid_v4_bytes(random)))
}

/// The text of the random (version 4) UUID made from sixteen random bytes.
///
/// Calls `uuid::Builder::from_random_bytes` (which keeps the bytes and sets
/// the version to 4 in byte 6 and the RFC 4122 variant in byte 8), then
/// `into_uuid` and the `Display` impl, which writes the bytes in order as
/// lower-case hexadecimal, hyphenated after the 4th, 6th, 8th and 10th byte.
/// The contract states that text exactly, as `uuid_v4_text`.
#[verifier::external_body]
fn uuid_text_from_random(random: [u8; 16]) -> (id: String)
    ensures
        id@ == uuid_v4_text(random@),
{
    uuid::Builder::from_random_bytes(random).into_uuid().to_string()
}

proof fn lemma_hex_digit(n: u8)
    requires
        n < 16,
    ensures
        is_lower_hex(hex_digit(n)),
        n == 4 ==> hex_digit(n) == '4',
        n == 8 ==> hex_digit(n) == '8',
        n == 9 ==> hex_digit(n) == '9',
        n == 10 ==> hex_digit(n) == 'a',
        n == 11 ==> hex_digit(n) == 'b',
{
}

/// Whatever the random bytes, the text made from them has the shape of a
/// random UUID.
pub proof fn lemma_uuid_v4_text_shape(random: Seq<u8>)
    requires
        random.len() == 16,
    ensures
        is_v4_uuid_text(uuid_v4_text(random)),
{
    let b = uuid_v4_bytes(random);
    let h = hex_of(b);
    let t = uuid_v4_text(random);
    assert(h.len() == 32);
    assert forall|k: int| 0 <= k < 32 implies is_lower_hex(#[trigger] h[k]) by {
        let x = b[k / 2];
        assert(x >> 4 < 16) by (bit_vector);
        assert(x & 0x0f < 16) by (bit_vector);
        lemma_hex_digit(x >> 4);
        lemma_hex_digit(x & 0x0f);
    }
    assert forall|i: int|
        0 <= i < 36 implies if is_uuid_hyphen_position(i) {
        t[i] == '-'
    } else {
        is_lower_hex(#[trigger] t[i])
    } by {
        if i < 8 {
            assert(t[i] == h[i]);
        } else if i == 8 {
        } else if i < 13 {
            assert(t[i] == h[i - 1]);
        } else if i == 13 {
        } else if i < 18 {
            assert(t[i] == h[i - 2]);
        } else if i == 18 {
        } else if i < 23 {
            assert(t[i] == h[i - 3]);
        } else if i == 23 {
        } else {
            assert(t[i] == h[i - 4]);
        }
    }
    let v = random[6];
    let w = random[8];
    assert(((v & 0x0f) | 0x40) >> 4 == 4) by (bit_vector);
    assert(8 <= ((w & 0x3f) | 0x80) >> 4 <= 11) by (bit_vector);
    assert(t[14] == h[12]);
    assert(t[19] == h[16]);
    lemma_hex_digit(((w & 0x3f) | 0x80) >> 4);
}

/// The directory under which every session gets its own HOME.
pub const SESSIONS_ROOT: &'static str = "/tmp/2wee-sessions/";

/// The HOME directory of the session with the given id.
pub open spec fn spec_home_dir(id: Seq<char>) -> Seq<char> {
    SESSIONS_ROOT@ + id
}

/// The HOME directory of the session with the given id.
pub fn session_home_dir(id: &str) -> (dir: String)
    ensures
        dir@ == spec_home_dir(id@),
{
    let mut dir = String::from_str(SESSIONS_ROOT);
    dir.append(id);
    dir
}

/// Per-session identity: a random id, the server it connects to, and the
/// private HOME directory the client runs in (removed when the session
/// ends).
pub struct Session {
    pub id: String,
    pub server_url: String,
    pub home_dir: String,
}

impl Session {
    /// A new session for `server_url`, whose id is the random UUID made from
    /// the sixteen random bytes drawn for it, with the HOME directory derived
    /// from that id.
    pub fn new(server_url: String, random: [u8; 16]) -> (s: Session)
        ensures
            s.server_url@ == server_url@,
            s.id@ == uuid_v4_text(random@),
            is_v4_uuid_text(s.id@),
            s.home_dir@ == spec_home_dir(s.id@),
    {
        let id = uuid_text_from_random(random);
        proof {
            lemma_uuid_v4_text_shape(random@);
        }
        let home_dir = session_home_dir(id.as_str());
        Session { id, server_url, home_dir }
    }
}

/// Sessions with different ids get different HOME directories.
pub proof fn lemma_home_dirs_distinct(a: Seq<char>, b: Seq<char>)
    requires
        a != b,
    ensures
        spec_home_dir(a) != spec_home_dir(b),
{
    let n = SESSIONS_ROOT@.len() as int;
    if spec_home_dir(a) == spec_home_dir(b) {
        assert(spec_home_dir(a).subrange(n, spec_home_dir(a).len() as int) =~= a);
        assert(spec_home_dir(b).subrange(n, spec_home_dir(b).len() as int) =~= b);
    }
}

/// The HOME directory of a session whose id came from the UUID generator is
/// a direct child of the sessions root: past the root, no `/` occurs and the
/// last component is neither empty nor `.` nor `..`. Removing it therefore
/// removes that one session's directory and nothing else.
pub proof fn lemma_home_dir_is_child_of_root(id: Seq<char>)
    requires
        is_v4_uuid_text(id),
    ensures
        spec_home_dir(id).len() == SESSIONS_ROOT@.len() + 36,
        spec_home_dir(id).subrange(0, SESSIONS_ROOT@.len() as int) == SESSIONS_ROOT@,
        forall|i: int|
            SESSIONS_ROOT@.len() <= i < spec_home_dir(id).len() ==> #[trigger] spec_home_dir(id)[i]
                != '/',
        spec_home_dir(id)[SESSIONS_ROOT@.len() as int] != '.',
{
    let n = SESSIONS_ROOT@.len() as int;
    assert(spec_home_dir(id).subrange(0, n) =~= SESSIONS_ROOT@);
    assert forall|i: int| n <= i < spec_home_dir(id).len() implies #[trigger] spec_home_dir(id)[i]
        != '/' by {
        assert(spec_home_dir(id)[i] == id[i - n]);
    }
    assert(spec_home_dir(id)[n] == id[0]);
}

/// How the client program is started: program, arguments, and the HOME
/// directory it gets.
pub struct ClientCommand {
    pub program: String,
    pub args: Vec<String>,
    pub home: String,
}

/// The client program when none is configured.
pub const DEFAULT_CLIENT_BIN: &'static str = "two_wee_client";

/// The program that runs in the terminal: the configured one, else the
/// default.
pub open spec fn spec_client_program(configured: Option<Seq<char>>) -> Seq<char> {
    match configured {
        Some(p) => p,
        None => DEFAULT_CLIENT_BIN@,
    }
}

/// The client command of a session: the configured program (or the
/// default) with the server URL as its one argument and HOME set to the
/// session's directory.
pub fn client_command(configured: Option<String>, session: &Session) -> (c: ClientCommand)
    ensures
        c.program@ == spec_client_program(opt_chars(configured)),
        c.args@.len() == 1,
        c.args@[0]@ == session.server_url@,
        c.home@ == session.home_dir@,
{
    let program = match configured {
        Some(p) => p,
        None => String::from_str(DEFAULT_CLIENT_BIN),
    };
    let mut args: Vec<String> = Vec::new();
    args.push(session.server_url.clone());
    ClientCommand { program, args, home: session.home_dir.clone() }
}

/// Everything decided before a session starts.
pub struct SessionPlan {
    pub session: Session,
    pub size: PtyDimensions,
    pub command: ClientCommand,
}

/// The decisions taken when a WebSocket connects: without a server URL the
/// connection is refused (`None`); otherwise a new session for the resolved
/// server (its id made from the random bytes drawn for it), the initial
/// terminal size, and the client command.
pub fn open_session(
    query: TerminalQuery,
    locked: Option<String>,
    configured_client: Option<String>,
    random: [u8; 16],
) -> (plan: Option<SessionPlan>)
    ensures
        plan is None <==> spec_resolve_server(opt_chars(locked), opt_chars(query.server)) is None,
        plan matches Some(p) ==> {
            &&& Some(p.session.server_url@) == spec_resolve_server(
                opt_chars(locked),
                opt_chars(query.server),
            )
            &&& p.session.id@ == uuid_v4_text(random@)
            &&& is_v4_uuid_text(p.session.id@)
            &&& p.session.home_dir@ == spec_home_dir(p.session.id@)
            &&& p.size == spec_initial_size(query.cols, query.rows)
            &&& p.command.program@ == spec_client_program(opt_chars(configured_client))
            &&& p.command.args@.len() == 1
            &&& p.command.args@[0]@ == p.session.server_url@
            &&& p.command.home@ == p.session.home_dir@
        },
{
    let server_url = match resolve_server(locked, query.server) {
        Some(url) => url,
        None => return None,
    };
    let session = Session::new(server_url, random);
    let size = initial_pty_size(query.cols, query.rows);
    let command = client_command(configured_client, &session);
    Some(SessionPlan { session, size, command })
}

/// How the server is resolved: a non-empty locked server wins whatever the
/// query says; without one, a non-empty query server is used unchanged,
/// whatever its text; with neither there is no server.
pub proof fn lemma_resolve_server_cases(locked: Option<Seq<char>>, query_server: Option<Seq<char>>)
    ensures
        locked is Some && locked->0.len() > 0 ==> spec_resolve_server(locked, query_server)
            == locked,
        !(locked is Some && locked->0.len() > 0) && query_server is Some && query_server->0.len()
            > 0 ==> spec_resolve_server(locked, query_server) == query_server,
        !(locked is Some && locked->0.len() > 0) && !(query_server is Some
            && query_server->0.len() > 0) ==> spec_resolve_server(locked, query_server) is None,
{
}

/// The initial size takes each requested value as it is; only a missing
/// value falls back to its default, 220 columns and 50 rows.
pub proof fn lemma_initial_size_takes_request(cols: Option<u16>, rows: Option<u16>)
    ensures
        cols is Some ==> spec_initial_size(cols, rows).cols == cols->0,
        rows is Some ==> spec_initial_size(cols, rows).rows == rows->0,
        cols is None ==> spec_initial_size(cols, rows).cols == 220,
        rows is None ==> spec_initial_size(cols, rows).rows == 50,
{
}

/// The client program is the configured one, unchanged, or else
/// `two_wee_client`.
pub proof fn lemma_client_program(configured: Option<Seq<char>>)
    ensures
        configured is Some ==> spec_client_program(configured) == configured->0,
        configured is None ==> spec_client_program(configured) == "two_wee_client"@,
{
}

/// A session's HOME is `/tmp/2wee-sessions/` followed by its id.
pub proof fn lemma_home_dir_path(id: Seq<char>)
    ensures
        spec_home_dir(id) == "/tmp/2wee-sessions/"@ + id,
{
}

} // verus!
