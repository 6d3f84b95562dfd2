//! Decisions of the relay services: how a TCP relay identifies a new
//! connection and where it forwards data, how the web relay cuts the host's
//! byte stream into frames and text lines, and how it turns browser input
//! into host commands. The services themselves run the sockets.
use vstd::prelude::*;
use crate::text::{decimal, decimal_string, push_char, push_str, str_eq, to_string, trim, trimmed};
use crate::wire::{copy_range, from_be32, from_le16, read_be32, read_le16};

verus! {

// ---------------------------------------------------------------------------
// TCP relay: connection roles and forwarding
// ---------------------------------------------------------------------------

/// What the first line of a relay connection asks for.
#[derive(Debug, Clone, PartialEq, Eq)]
pub enum RelayRole {
    /// A host to be controlled.
    Host,
    /// A client controlling the host, with its device id.
    Client(String),
    /// A TURN allocation request, with the whole line.
    Turn(String),
}

/// `p` is a prefix of `s`.
pub open spec fn has_prefix(s: Seq<char>, p: Seq<char>) -> bool {
    p.len() <= s.len() && s.subrange(0, p.len() as int) == p
}

/// The role named by a (trimmed) first line: `HOST...` a host, `CLIENT:<id>`
/// a client, `TURN:...` a TURN request, anything else a host.
pub open spec fn role_of(line: Seq<char>, role: RelayRole) -> bool {
    if has_prefix(line, "HOST"@) {
        role == RelayRole::Host
    } else if has_prefix(line, "CLIENT:"@) {
        role matches RelayRole::Client(id) && id@ == line.subrange(7, line.len() as int)
    } else if has_prefix(line, "TURN:"@) {
        role matches RelayRole::Turn(req) && req@ == line
    } else {
        role == RelayRole::Host
    }
}

fn starts_with(s: &str, p: &str) -> (r: bool)
    ensures
        r == has_prefix(s@, p@),
{
    let n = p.unicode_len();
    if n > s.unicode_len() {
        return false;
    }
    let mut i: usize = 0;
    while i < n
        invariant
            n == p@.len() <= s@.len(),
            i <= n,
            forall|j: int| 0 <= j < i ==> s@[j] == p@[j],
        decreases n - i,
    {
        if s.get_char(i) != p.get_char(i) {
            assert(s@.subrange(0, n as int)[i as int] != p@[i as int]);
            return false;
        }
        i = i + 1;
    }
    assert(s@.subrange(0, n as int) =~= p@);
    true
}

/// The characters of `s` from index `from` on.
fn suffix_from(s: &str, from: usize) -> (r: String)
    requires
        from <= s@.len(),
    ensures
        r@ == s@.subrange(from as int, s@.len() as int),
{
    let mut r = String::new();
    let n = s.unicode_len();
    let mut i: usize = from;
    while i < n
        invariant
            n == s@.len(),
            from <= i <= n,
            r@ == s@.subrange(from as int, i as int),
        decreases n - i,
    {
        push_char(&mut r, s.get_char(i));
        i = i + 1;
        assert(r@ =~= s@.subrange(from as int, i as int));
    }
    r
}

/// Identifies a relay connection from its first line, already trimmed.
pub fn classify_connection(first: &str) -> (r: RelayRole)
    ensures
        role_of(first@, r),
{
    proof {
        reveal_strlit("HOST");
        reveal_strlit("CLIENT:");
        reveal_strlit("TURN:");
    }
    if starts_with(first, "HOST") {
        RelayRole::Host
    } else if starts_with(first, "CLIENT:") {
        RelayRole::Client(suffix_from(first, 7))
    } else if starts_with(first, "TURN:") {
        RelayRole::Turn(to_string(first))
    } else {
        RelayRole::Host
    }
}

/// Relay key of a host registered at `millis` milliseconds since the epoch.
pub fn host_entry_id(millis: u64) -> (r: String)
    ensures
        r@ == "host_"@ + decimal(millis as nat),
{
    let mut r = to_string("host_");
    let d = decimal_string(millis);
    push_str(&mut r, d.as_str());
    r
}

/// Relay key of the client with `device_id`.
pub fn client_entry_id(device_id: &str) -> (r: String)
    ensures
        r@ == "client_"@ + device_id@,
{
    let mut r = to_string("client_");
    push_str(&mut r, device_id);
    r
}

/// Indices of the registered connections that data from `sender` goes to:
/// those whose key starts with `prefix` (`client_` for a host's data,
/// `host_` for a client's) other than the sender, in order.
pub fn forward_targets(keys: &Vec<String>, sender: &str, prefix: &str) -> (r: Vec<usize>)
    ensures
        forall|k: int| 0 <= k < r@.len() ==> (r@[k] as int) < keys@.len(),
        forall|k: int, l: int| 0 <= k < l < r@.len() ==> r@[k] < r@[l],
        forall|i: int| 0 <= i < keys@.len() ==> (r@.contains(i as usize) <==> (has_prefix(keys@[i]@, prefix@) && keys@[i]@ != sender@)),
{
    let mut r: Vec<usize> = Vec::new();
    let mut i: usize = 0;
    while i < keys.len()
        invariant
            i <= keys@.len(),
            forall|k: int| 0 <= k < r@.len() ==> (r@[k] as int) < i,
            forall|k: int, l: int| 0 <= k < l < r@.len() ==> r@[k] < r@[l],
            forall|j: int| 0 <= j < i ==> (r@.contains(j as usize) <==> (has_prefix(keys@[j]@, prefix@) && keys@[j]@ != sender@)),
        decreases keys@.len() - i,
    {
        let key = keys[i].as_str();
        if starts_with(key, prefix) && !str_eq(key, sender) {
            let ghost before = r@;
            r.push(i);
            assert forall|j: int| 0 <= j <= i implies (r@.contains(j as usize) <==> (has_prefix(keys@[j]@, prefix@) && keys@[j]@ != sender@)) by {
                if j < i {
                    if before.contains(j as usize) {
                        let k = choose|k: int| 0 <= k < before.len() && before[k] == j as usize;
                        assert(r@[k] == j as usize);
                    }
                    if r@.contains(j as usize) {
                        let k = choose|k: int| 0 <= k < r@.len() && r@[k] == j as usize;
                        if k < before.len() {
                            assert(before[k] == j as usize);
                        }
                    }
                } else {
                    assert(r@[before.len() as int] == i);
                }
            }
        } else {
            assert(!r@.contains(i)) by {
                if r@.contains(i) {
                    let k = choose|k: int| 0 <= k < r@.len() && r@[k] == i;
                }
            }
        }
        i = i + 1;
    }
    r
}

// ---------------------------------------------------------------------------
// Web relay: cutting the host's byte stream
// ---------------------------------------------------------------------------

/// Header length of a frame on the web relay's host stream.
pub const RELAY_FRAME_HEADER_LEN: usize = 36;

/// Header length of an input packet on the host stream.
pub const RELAY_INPUT_HEADER_LEN: usize = 13;

/// A piece cut from the host stream.
#[derive(Debug, Clone, PartialEq, Eq)]
pub enum RelayChunk {
    /// A whole frame, header included, for the browsers as binary.
    Frame(Vec<u8>),
    /// A text line without its newline, for the browsers as text.
    Text(Vec<u8>),
}

/// A piece cut from the host stream, as byte sequences.
pub enum RelayChunkView {
    Frame(Seq<u8>),
    Text(Seq<u8>),
}

impl View for RelayChunk {
    type V = RelayChunkView;

    open spec fn view(&self) -> RelayChunkView {
        match self {
            RelayChunk::Frame(b) => RelayChunkView::Frame(b@),
            RelayChunk::Text(b) => RelayChunkView::Text(b@),
        }
    }
}

/// The views of a sequence of chunks.
pub open spec fn chunk_views(s: Seq<RelayChunk>) -> Seq<RelayChunkView> {
    s.map_values(|c: RelayChunk| c@)
}

/// `s[pos..pos + 4]` spells `ATLS`.
pub open spec fn frame_magic_at(s: Seq<u8>, pos: int) -> bool {
    s[pos] == 0x41 && s[pos + 1] == 0x54 && s[pos + 2] == 0x4C && s[pos + 3] == 0x53
}

/// `s[pos..pos + 4]` spells `INPT`.
pub open spec fn input_magic_at(s: Seq<u8>, pos: int) -> bool {
    s[pos] == 0x49 && s[pos + 1] == 0x4E && s[pos + 2] == 0x50 && s[pos + 3] == 0x54
}

/// Length of the frame at `pos`: header plus the big-endian payload length
/// at offset 8.
pub open spec fn frame_len_at(s: Seq<u8>, pos: int) -> int {
    RELAY_FRAME_HEADER_LEN + from_be32(s[pos + 8], s[pos + 9], s[pos + 10], s[pos + 11])
}

/// Length of the input packet at `pos`: header plus the little-endian
/// payload length at offset 6.
pub open spec fn input_len_at(s: Seq<u8>, pos: int) -> int {
    RELAY_INPUT_HEADER_LEN + from_le16(s[pos + 6], s[pos + 7])
}

/// A whole frame starts at `pos`.
pub open spec fn frame_at(s: Seq<u8>, pos: int) -> bool {
    frame_magic_at(s, pos) && s.len() - pos >= frame_len_at(s, pos)
}

/// A whole input packet starts at `pos` (and no whole frame does).
pub open spec fn input_at(s: Seq<u8>, pos: int) -> bool {
    !frame_at(s, pos) && input_magic_at(s, pos) && s.len() - pos >= input_len_at(s, pos)
}

/// Index of the first newline at or after `i`, or -1.
pub open spec fn newline_from(s: Seq<u8>, i: int) -> int
    decreases s.len() - i,
{
    if i < 0 || i >= s.len() {
        -1
    } else if s[i] == 10 {
        i
    } else {
        newline_from(s, i + 1)
    }
}

/// `newline_from` finds the first newline, or reports there is none.
pub proof fn lemma_newline_from(s: Seq<u8>, i: int)
    requires
        0 <= i,
    ensures
        newline_from(s, i) == -1 || (i <= newline_from(s, i) < s.len() && s[newline_from(s, i)] == 10),
        newline_from(s, i) == -1 ==> forall|j: int| i <= j < s.len() ==> s[j] != 10,
        newline_from(s, i) >= 0 ==> forall|j: int| i <= j < newline_from(s, i) ==> s[j] != 10,
    decreases s.len() - i,
{
    if i < s.len() && s[i] != 10 {
        lemma_newline_from(s, i + 1);
    }
}

/// The chunks cut from `s` starting at `pos`, and where the uncut rest
/// starts. While at least a frame header's worth of bytes is left: a whole
/// frame is cut; else a whole input packet is dropped; else the bytes up to
/// the next newline are a text line; else cutting waits for more bytes.
pub open spec fn relay_split_from(s: Seq<u8>, pos: int) -> (Seq<RelayChunkView>, int)
    decreases s.len() - pos,
{
    if pos < 0 || s.len() - pos < RELAY_FRAME_HEADER_LEN {
        (Seq::empty(), pos)
    } else if frame_at(s, pos) {
        let rest = relay_split_from(s, pos + frame_len_at(s, pos));
        (seq![RelayChunkView::Frame(s.subrange(pos, pos + frame_len_at(s, pos)))] + rest.0, rest.1)
    } else if input_at(s, pos) {
        relay_split_from(s, pos + input_len_at(s, pos))
    } else if newline_from(s, pos) >= 0 {
        proof {
            lemma_newline_from(s, pos);
        }
        let p = newline_from(s, pos);
        let rest = relay_split_from(s, p + 1);
        (seq![RelayChunkView::Text(s.subrange(pos, p))] + rest.0, rest.1)
    } else {
        (Seq::empty(), pos)
    }
}

/// Every cut ends inside the stream and after its start.
pub proof fn lemma_relay_split_bounds(s: Seq<u8>, pos: int)
    requires
        0 <= pos <= s.len(),
    ensures
        pos <= relay_split_from(s, pos).1 <= s.len(),
    decreases s.len() - pos,
{
    if s.len() - pos < RELAY_FRAME_HEADER_LEN {
    } else if frame_at(s, pos) {
        lemma_relay_split_bounds(s, pos + frame_len_at(s, pos));
    } else if input_at(s, pos) {
        lemma_relay_split_bounds(s, pos + input_len_at(s, pos));
    } else if newline_from(s, pos) >= 0 {
        lemma_newline_from(s, pos);
        lemma_relay_split_bounds(s, newline_from(s, pos) + 1);
    }
}

/// What the web relay sends the browsers is well formed: every frame it
/// cuts starts with `ATLS` and is exactly as long as its header announces,
/// every text line holds no newline, and the uncut rest is a suffix of the
/// stream.
pub proof fn relay_chunks_well_formed(s: Seq<u8>, pos: int)
    requires
        0 <= pos <= s.len(),
    ensures
        pos <= relay_split_from(s, pos).1 <= s.len(),
        forall|k: int| 0 <= k < relay_split_from(s, pos).0.len() ==> match #[trigger] relay_split_from(s, pos).0[k] {
            RelayChunkView::Frame(f) => f.len() >= RELAY_FRAME_HEADER_LEN && frame_magic_at(f, 0) && f.len()
                == frame_len_at(f, 0),
            RelayChunkView::Text(t) => forall|j: int| 0 <= j < t.len() ==> t[j] != 10,
        },
    decreases s.len() - pos,
{
    lemma_relay_split_bounds(s, pos);
    if s.len() - pos < RELAY_FRAME_HEADER_LEN {
    } else if frame_at(s, pos) {
        let n = frame_len_at(s, pos);
        relay_chunks_well_formed(s, pos + n);
        let f = s.subrange(pos, pos + n);
        let rest = relay_split_from(s, pos + n);
        assert(relay_split_from(s, pos).0 == seq![RelayChunkView::Frame(f)] + rest.0);
        assert forall|k: int| 0 <= k < relay_split_from(s, pos).0.len() implies match #[trigger] relay_split_from(s, pos).0[k] {
            RelayChunkView::Frame(f) => f.len() >= RELAY_FRAME_HEADER_LEN && frame_magic_at(f, 0) && f.len()
                == frame_len_at(f, 0),
            RelayChunkView::Text(t) => forall|j: int| 0 <= j < t.len() ==> t[j] != 10,
        } by {
            if k > 0 {
                assert(relay_split_from(s, pos).0[k] == rest.0[k - 1]);
            }
        }
    } else if input_at(s, pos) {
        relay_chunks_well_formed(s, pos + input_len_at(s, pos));
    } else if newline_from(s, pos) >= 0 {
        lemma_newline_from(s, pos);
        let p = newline_from(s, pos);
        relay_chunks_well_formed(s, p + 1);
        let t = s.subrange(pos, p);
        let rest = relay_split_from(s, p + 1);
        assert(relay_split_from(s, pos).0 == seq![RelayChunkView::Text(t)] + rest.0);
        assert forall|k: int| 0 <= k < relay_split_from(s, pos).0.len() implies match #[trigger] relay_split_from(s, pos).0[k] {
            RelayChunkView::Frame(f) => f.len() >= RELAY_FRAME_HEADER_LEN && frame_magic_at(f, 0) && f.len()
                == frame_len_at(f, 0),
            RelayChunkView::Text(t) => forall|j: int| 0 <= j < t.len() ==> t[j] != 10,
        } by {
            if k > 0 {
                assert(relay_split_from(s, pos).0[k] == rest.0[k - 1]);
            }
        }
    }
}

fn find_newline(s: &[u8], from: usize) -> (r: Option<usize>)
    requires
        from <= s@.len(),
    ensures
        r matches Some(p) ==> p == newline_from(s@, from as int),
        r is None ==> newline_from(s@, from as int) == -1,
{
    let mut j: usize = from;
    while j < s.len()
        invariant
            from <= j <= s@.len(),
            newline_from(s@, from as int) == newline_from(s@, j as int),
        decreases s@.len() - j,
    {
        if s[j] == 10 {
            return Some(j);
        }
        j = j + 1;
    }
    None
}

/// Cuts whole frames and text lines off the front of the host stream
/// buffer, dropping whole input packets, and leaves the uncut rest in the
/// buffer.
pub fn split_relay_buffer(buf: &mut Vec<u8>) -> (r: Vec<RelayChunk>)
    ensures
        chunk_views(r@) == relay_split_from(old(buf)@, 0).0,
        final(buf)@ == old(buf)@.subrange(relay_split_from(old(buf)@, 0).1, old(buf)@.len() as int),
{
    let ghost s = buf@;
    let mut out: Vec<RelayChunk> = Vec::new();
    let mut pos: usize = 0;
    loop
        invariant
            s == buf@,
            pos <= s.len(),
            relay_split_from(s, 0).0 == chunk_views(out@) + relay_split_from(s, pos as int).0,
            relay_split_from(s, 0).1 == relay_split_from(s, pos as int).1,
        ensures
            pos <= s.len(),
            relay_split_from(s, 0).0 == chunk_views(out@),
            relay_split_from(s, 0).1 == pos,
        decreases s.len() - pos,
    {
        let avail = buf.len() - pos;
        if avail < RELAY_FRAME_HEADER_LEN {
            assert(chunk_views(out@) + Seq::<RelayChunkView>::empty() =~= chunk_views(out@));
            break;
        }
        let fmagic = buf[pos] == 0x41 && buf[pos + 1] == 0x54 && buf[pos + 2] == 0x4C && buf[pos + 3] == 0x53;
        let plen = read_be32(buf.as_slice(), pos + 8);
        if fmagic && (avail as u64) >= (RELAY_FRAME_HEADER_LEN as u64) + (plen as u64) {
            let n = RELAY_FRAME_HEADER_LEN + plen as usize;
            assert(frame_at(s, pos as int));
            let frame = copy_range(buf.as_slice(), pos, pos + n);
            let ghost before = out@;
            let ghost rest = relay_split_from(s, pos + n);
            out.push(RelayChunk::Frame(frame));
            assert(chunk_views(out@) =~= chunk_views(before).push(RelayChunkView::Frame(s.subrange(pos as int, pos + n))));
            assert(chunk_views(before) + (seq![RelayChunkView::Frame(s.subrange(pos as int, pos + n))] + rest.0)
                =~= chunk_views(out@) + rest.0);
            pos = pos + n;
            continue;
        }
        let imagic = buf[pos] == 0x49 && buf[pos + 1] == 0x4E && buf[pos + 2] == 0x50 && buf[pos + 3] == 0x54;
        let ilen = read_le16(buf.as_slice(), pos + 6);
        if imagic && avail >= RELAY_INPUT_HEADER_LEN + ilen as usize {
            assert(input_at(s, pos as int));
            pos = pos + RELAY_INPUT_HEADER_LEN + ilen as usize;
            continue;
        }
        assert(!frame_at(s, pos as int) && !input_at(s, pos as int));
        match find_newline(buf.as_slice(), pos) {
            Some(p) => {
                proof {
                    lemma_newline_from(s, pos as int);
                }
                let line = copy_range(buf.as_slice(), pos, p);
                let ghost before = out@;
                let ghost rest = relay_split_from(s, p + 1);
                out.push(RelayChunk::Text(line));
                assert(chunk_views(out@) =~= chunk_views(before).push(RelayChunkView::Text(s.subrange(pos as int, p as int))));
                assert(chunk_views(before) + (seq![RelayChunkView::Text(s.subrange(pos as int, p as int))] + rest.0)
                    =~= chunk_views(out@) + rest.0);
                pos = p + 1;
            },
            None => {
                assert(chunk_views(out@) + Seq::<RelayChunkView>::empty() =~= chunk_views(out@));
                break;
            },
        }
    }
    let rest = copy_range(buf.as_slice(), pos, buf.len());
    *buf = rest;
    out
}

// ---------------------------------------------------------------------------
// Web relay: browser input to host commands
// ---------------------------------------------------------------------------

/// The fields of a browser input message that decide the host command;
/// each is `None` when the message lacks it or it has another JSON type.
#[derive(Debug, Clone)]
pub struct WebInput {
    pub msg_type: Option<String>,
    pub button: Option<String>,
    pub pressed: Option<bool>,
    pub delta: Option<i64>,
    pub code: Option<String>,
}

/// The fields of a browser input message, as character sequences.
pub struct WebInputView {
    pub msg_type: Option<Seq<char>>,
    pub button: Option<Seq<char>>,
    pub pressed: Option<bool>,
    pub delta: Option<i64>,
    pub code: Option<Seq<char>>,
}

/// The characters of an optional string.
pub open spec fn opt_text(s: Option<String>) -> Option<Seq<char>> {
    match s {
        Some(t) => Some(t@),
        None => None,
    }
}

impl View for WebInput {
    type V = WebInputView;

    open spec fn view(&self) -> WebInputView {
        WebInputView {
            msg_type: opt_text(self.msg_type),
            button: opt_text(self.button),
            pressed: self.pressed,
            delta: self.delta,
            code: opt_text(self.code),
        }
    }
}

/// What the relay sends the host for one browser message.
#[derive(Debug, Clone, PartialEq, Eq)]
pub enum HostCommand {
    /// A pointer move; its line carries the message's coordinates.
    MouseMove,
    /// This command line, sent followed by a newline.
    Line(String),
    /// Nothing: the message type is unknown.
    Ignore,
}

/// The characters of an optional string, or `default`.
pub open spec fn text_or(s: Option<Seq<char>>, default: Seq<char>) -> Seq<char> {
    match s {
        Some(t) => t,
        None => default,
    }
}

/// Decimal notation of a signed integer.
pub open spec fn signed_decimal(n: i64) -> Seq<char> {
    if n < 0 {
        "-"@ + decimal((-n) as nat)
    } else {
        decimal(n as nat)
    }
}

/// `DOWN` for a press, `UP` for a release.
pub open spec fn press_word(pressed: bool) -> Seq<char> {
    if pressed {
        "DOWN"@
    } else {
        "UP"@
    }
}

/// The command line for a browser message other than a pointer move, or
/// `None` for an unknown type. Missing fields default to the left button,
/// pressed, a zero wheel delta and an empty code.
pub open spec fn command_line(m: WebInputView) -> Option<Seq<char>> {
    let t = text_or(m.msg_type, ""@);
    let pressed = match m.pressed {
        Some(b) => b,
        None => true,
    };
    if t == "mouse_click"@ {
        let btn = if text_or(m.button, "left"@) == "right"@ {
            "2"@
        } else {
            "1"@
        };
        Some("MOUSE_CLICK:"@ + btn + ":"@ + press_word(pressed))
    } else if t == "wheel"@ {
        Some(
            "SCROLL:"@ + signed_decimal(
                match m.delta {
                    Some(d) => d,
                    None => 0,
                },
            ),
        )
    } else if t == "key"@ {
        Some("KEY_"@ + press_word(pressed) + ":"@ + text_or(m.code, ""@))
    } else if t == "double_click"@ {
        Some("DOUBLE_CLICK"@)
    } else if t == "pair_accept"@ {
        Some("PAIR_ACCEPT:"@ + text_or(m.code, ""@))
    } else {
        None
    }
}

fn signed_decimal_string(n: i64) -> (r: String)
    ensures
        r@ == signed_decimal(n),
{
    if n < 0 {
        let m: u64 = ((-(n + 1)) as u64) + 1;
        let mut r = to_string("-");
        let d = decimal_string(m);
        push_str(&mut r, d.as_str());
        r
    } else {
        decimal_string(n as u64)
    }
}

/// `c` is the host command for a browser message with fields `m`: a
/// pointer move for type `mouse_move`, else the message's command line, or
/// nothing for an unknown type.
pub open spec fn is_host_command(m: WebInputView, c: HostCommand) -> bool {
    if text_or(m.msg_type, ""@) == "mouse_move"@ {
        c == HostCommand::MouseMove
    } else {
        match command_line(m) {
            Some(line) => c matches HostCommand::Line(l) && l@ == line,
            None => c == HostCommand::Ignore,
        }
    }
}

/// The host command for a browser input message.
pub fn host_command(m: &WebInput) -> (r: HostCommand)
    ensures
        is_host_command(m@, r),
{
    let t: &str = match &m.msg_type {
        Some(t) => t.as_str(),
        None => "",
    };
    let pressed = match m.pressed {
        Some(b) => b,
        None => true,
    };
    let word = if pressed { "DOWN" } else { "UP" };
    if str_eq(t, "mouse_move") {
        return HostCommand::MouseMove;
    }
    if str_eq(t, "mouse_click") {
        let button: &str = match &m.button {
            Some(b) => b.as_str(),
            None => "left",
        };
        let btn = if str_eq(button, "right") { "2" } else { "1" };
        let mut line = to_string("MOUSE_CLICK:");
        push_str(&mut line, btn);
        push_str(&mut line, ":");
        push_str(&mut line, word);
        return HostCommand::Line(line);
    }
    if str_eq(t, "wheel") {
        let d = match m.delta {
            Some(d) => d,
            None => 0,
        };
        let mut line = to_string("SCROLL:");
        let num = signed_decimal_string(d);
        push_str(&mut line, num.as_str());
        return HostCommand::Line(line);
    }
    if str_eq(t, "key") {
        let code: &str = match &m.code {
            Some(c) => c.as_str(),
            None => "",
        };
        let mut line = to_string("KEY_");
        push_str(&mut line, word);
        push_str(&mut line, ":");
        push_str(&mut line, code);
        return HostCommand::Line(line);
    }
    if str_eq(t, "double_click") {
        return HostCommand::Line(to_string("DOUBLE_CLICK"));
    }
    if str_eq(t, "pair_accept") {
        let code: &str = match &m.code {
            Some(c) => c.as_str(),
            None => "",
        };
        let mut line = to_string("PAIR_ACCEPT:");
        push_str(&mut line, code);
        return HostCommand::Line(line);
    }
    HostCommand::Ignore
}

/// For the text of a browser message: the fields `type`, `button`,
/// `pressed`, `delta` and `code` of the JSON value it holds, each `None`
/// where the value lacks it or holds another JSON type there; `None` when
/// the text is not JSON.
pub uninterp spec fn spec_web_input(text: Seq<char>) -> Option<WebInputView>;

/// `serde_json::from_str::<serde_json::Value>`, then `Value::get` of each
/// field with `as_str`, `as_bool` or `as_i64`. The outcome, a function of
/// the text alone, is named `spec_web_input`.
#[verifier::external_body]
fn web_input_fields(text: &str) -> (r: Option<WebInput>)
    ensures
        match r {
            Some(w) => spec_web_input(text@) == Some(w@),
            None => spec_web_input(text@) is None,
        },
{
    match serde_json::from_str::<serde_json::Value>(text) {
        Ok(v) => Some(WebInput {
            msg_type: v.get("type").and_then(|x| x.as_str()).map(String::from),
            button: v.get("button").and_then(|x| x.as_str()).map(String::from),
            pressed: v.get("pressed").and_then(|x| x.as_bool()),
            delta: v.get("delta").and_then(|x| x.as_i64()),
            code: v.get("code").and_then(|x| x.as_str()).map(String::from),
        }),
        Err(_) => None,
    }
}

/// What the relay does with the text of one browser message: blank text
/// asks nothing of the host (`Ignore`); text that is not JSON is refused
/// (`None`); otherwise the host command for the message's fields.
pub fn web_command(text: &str) -> (r: Option<HostCommand>)
    ensures
        trimmed(text@).len() == 0 ==> r == Some(HostCommand::Ignore),
        trimmed(text@).len() > 0 ==> match spec_web_input(trimmed(text@)) {
            Some(w) => r matches Some(c) && is_host_command(w, c),
            None => r is None,
        },
{
    let t = trim(text);
    if t.unicode_len() == 0 {
        return Some(HostCommand::Ignore);
    }
    match web_input_fields(t) {
        Some(w) => Some(host_command(&w)),
        None => None,
    }
}

/// The line the web relay sends the host to pair a browser.
pub fn pair_request_line(device_id: &str, pair_code: &str) -> (r: String)
    ensures
        r@ == "PAIR:"@ + device_id@ + ":"@ + pair_code@ + "\n"@,
{
    let mut r = to_string("PAIR:");
    push_str(&mut r, device_id);
    push_str(&mut r, ":");
    push_str(&mut r, pair_code);
    push_str(&mut r, "\n");
    r
}

} // verus!
