//! Naming and framing decisions of the intercepting proxy: the slug a
//! WebSocket path becomes in a flow log's file name, the zero-padded flow
//! numbers, the inspector label of a flow, and the inspector record of one
//! captured frame. Sockets, locks and files stay with the caller.
use vstd::prelude::*;
use base64::Engine;
use crate::bridge::Direction;
use crate::capture::base64_decoded;
use crate::inspector::{FrameDirection, FrameRaw};
use crate::util::{decimal, decimal_text};

verus! {

// ---------------------------------------------------------------------------
// Path slug
// ---------------------------------------------------------------------------

/// `s` without its leading `/` characters.
pub open spec fn trim_leading_slashes(s: Seq<char>) -> Seq<char>
    decreases s.len(),
{
    if s.len() > 0 && s[0] == '/' {
        trim_leading_slashes(s.drop_first())
    } else {
        s
    }
}

/// `s` without its trailing `/` characters.
pub open spec fn trim_trailing_slashes(s: Seq<char>) -> Seq<char>
    decreases s.len(),
{
    if s.len() > 0 && s.last() == '/' {
        trim_trailing_slashes(s.drop_last())
    } else {
        s
    }
}

/// `s` with every leading and trailing `/` removed.
pub open spec fn trim_slashes(s: Seq<char>) -> Seq<char> {
    trim_trailing_slashes(trim_leading_slashes(s))
}

/// Characters a slug keeps as they are: ASCII letters and digits, `-`, `_`.
pub open spec fn slug_keeps(c: char) -> bool {
    ('a' <= c && c <= 'z') || ('A' <= c && c <= 'Z') || ('0' <= c && c <= '9') || c == '-'
        || c == '_'
}

/// One character of a slug: kept, or replaced by `_`.
pub open spec fn slug_char(c: char) -> char {
    if slug_keeps(c) {
        c
    } else {
        '_'
    }
}

/// The file-name slug of a URI path: the path without surrounding `/`,
/// every character outside `[A-Za-z0-9_-]` replaced by `_`; `root` when
/// nothing is left.
pub open spec fn path_slug(path: Seq<char>) -> Seq<char> {
    let t = trim_slashes(path);
    if t.len() == 0 {
        seq!['r', 'o', 'o', 't']
    } else {
        t.map_values(|c: char| slug_char(c))
    }
}

/// Trimming the leading slashes leaves the suffix of `s` from its first
/// character that is not `/`; the returned index is where that suffix starts.
proof fn lemma_trim_leading(s: Seq<char>) -> (i: int)
    ensures
        0 <= i <= s.len(),
        trim_leading_slashes(s) == s.subrange(i, s.len() as int),
        forall|k: int| 0 <= k < i ==> s[k] == '/',
        i < s.len() ==> s[i] != '/',
    decreases s.len(),
{
    if s.len() > 0 && s[0] == '/' {
        let i = lemma_trim_leading(s.drop_first());
        assert(s.drop_first().subrange(i, s.drop_first().len() as int) =~= s.subrange(
            i + 1,
            s.len() as int,
        ));
        assert forall|k: int| 0 <= k < i + 1 implies s[k] == '/' by {
            if k > 0 {
                assert(s[k] == s.drop_first()[k - 1]);
            }
        }
        assert(i + 1 < s.len() ==> s[i + 1] == s.drop_first()[i]);
        i + 1
    } else {
        assert(s.subrange(0, s.len() as int) =~= s);
        0
    }
}

/// Trimming the trailing slashes leaves the prefix of `s` up to its last
/// character that is not `/`; the returned index is where that prefix ends.
proof fn lemma_trim_trailing(s: Seq<char>) -> (j: int)
    ensures
        0 <= j <= s.len(),
        trim_trailing_slashes(s) == s.subrange(0, j),
        forall|k: int| j <= k < s.len() ==> s[k] == '/',
        j > 0 ==> s[j - 1] != '/',
    decreases s.len(),
{
    if s.len() > 0 && s.last() == '/' {
        let j = lemma_trim_trailing(s.drop_last());
        assert(s.drop_last().subrange(0, j) =~= s.subrange(0, j));
        assert forall|k: int| j <= k < s.len() implies s[k] == '/' by {
            if k < s.len() - 1 {
                assert(s[k] == s.drop_last()[k]);
            }
        }
        assert(j > 0 ==> s[j - 1] == s.drop_last()[j - 1]);
        j
    } else {
        assert(s.subrange(0, s.len() as int) =~= s);
        s.len() as int
    }
}

/// A window `[i, j)` of `s` that starts at the first non-`/` and ends after
/// the last non-`/` is what trimming leaves.
proof fn lemma_trim_window(s: Seq<char>, i: int, j: int)
    requires
        0 <= i <= j <= s.len(),
        forall|k: int| 0 <= k < i ==> s[k] == '/',
        forall|k: int| j <= k < s.len() ==> s[k] == '/',
        i < j ==> s[i] != '/' && s[j - 1] != '/',
        i == j ==> forall|k: int| 0 <= k < s.len() ==> s[k] == '/',
    ensures
        trim_slashes(s) == s.subrange(i, j),
{
    let a = lemma_trim_leading(s);
    let t = s.subrange(a, s.len() as int);
    let b = lemma_trim_trailing(t);
    if i < j {
        // `a` is the first non-slash, which is `i`.
        if a < i {
            assert(s[a] == '/');
        }
        if a > i {
            assert(s[i] == '/');
        }
        assert(a == i);
        // `a + b` is one past the last non-slash, which is `j`.
        if a + b < j {
            assert(t[j - 1 - a] == s[j - 1]);
            assert(t[j - 1 - a] == '/');
        }
        if a + b > j {
            assert(t[b - 1] == s[a + b - 1]);
            assert(s[a + b - 1] == '/');
        }
        assert(t.subrange(0, b) =~= s.subrange(i, j));
    } else {
        if a < s.len() {
            assert(s[a] == '/');
        }
        assert(t.len() == 0);
        assert(t.subrange(0, b) =~= s.subrange(i, j));
    }
}

/// Executable [`path_slug`].
pub fn uri_path_slug(path: &str) -> (r: String)
    ensures
        r@ == path_slug(path@),
{
    let n = path.unicode_len();
    let mut i: usize = 0;
    while i < n && path.get_char(i) == '/'
        invariant
            n == path@.len(),
            i <= n,
            forall|k: int| 0 <= k < i ==> path@[k] == '/',
        decreases n - i,
    {
        i += 1;
    }
    let mut j: usize = n;
    while j > i && path.get_char(j - 1) == '/'
        invariant
            n == path@.len(),
            i <= j <= n,
            forall|k: int| j <= k < n ==> path@[k] == '/',
        decreases j - i,
    {
        j -= 1;
    }
    proof {
        lemma_trim_window(path@, i as int, j as int);
        reveal_strlit("root");
        reveal_strlit("_");
    }
    if i == j {
        return String::from_str("root");
    }
    let ghost t = path@.subrange(i as int, j as int);
    let mut out = String::new();
    let mut k: usize = i;
    while k < j
        invariant
            n == path@.len(),
            i <= k <= j <= n,
            t == path@.subrange(i as int, j as int),
            out@ == t.take(k - i).map_values(|c: char| slug_char(c)),
        decreases j - k,
    {
        let c = path.get_char(k);
        proof {
            reveal_strlit("_");
        }
        let keep = ('a' <= c && c <= 'z') || ('A' <= c && c <= 'Z') || ('0' <= c && c <= '9')
            || c == '-' || c == '_';
        if keep {
            out.append(path.substring_char(k, k + 1));
        } else {
            out.append("_");
        }
        assert(t.take(k + 1 - i) =~= t.take(k - i).push(c));
        assert(out@ =~= t.take(k + 1 - i).map_values(|c: char| slug_char(c)));
        k += 1;
    }
    assert(t.take(j - i) =~= t);
    out
}

// ---------------------------------------------------------------------------
// Flow numbering
// ---------------------------------------------------------------------------

/// `n` in decimal, left-padded with `0` to at least `width` characters.
pub open spec fn zero_padded(n: nat, width: nat) -> Seq<char> {
    let d = decimal_text(n);
    if d.len() >= width {
        d
    } else {
        Seq::new((width - d.len()) as nat, |i: int| '0') + d
    }
}

/// `n` in decimal, at least six characters wide, zero-padded.
pub fn flow_number(n: u64) -> (r: String)
    ensures
        r@ == zero_padded(n as nat, 6),
{
    let d = decimal(n);
    let len = d.as_str().unicode_len();
    if len >= 6 {
        return d;
    }
    let mut out = String::new();
    let mut k: usize = len;
    proof {
        reveal_strlit("0");
    }
    while k < 6
        invariant
            len == decimal_text(n as nat).len(),
            len <= k <= 6,
            out@ == Seq::new((k - len) as nat, |i: int| '0'),
        decreases 6 - k,
    {
        proof {
            reveal_strlit("0");
        }
        out.append("0");
        assert(out@ =~= Seq::new((k + 1 - len) as nat, |i: int| '0'));
        k += 1;
    }
    out.concat(d.as_str())
}

/// The file name of a flow's log: `<flow number>-<path slug>.log`.
pub open spec fn flow_log_name(flow_id: nat, path: Seq<char>) -> Seq<char> {
    zero_padded(flow_id, 6) + seq!['-'] + path_slug(path) + seq!['.', 'l', 'o', 'g']
}

/// Executable [`flow_log_name`].
pub fn flow_log_file_name(flow_id: u64, path: &str) -> (r: String)
    ensures
        r@ == flow_log_name(flow_id as nat, path@),
{
    let num = flow_number(flow_id);
    let slug = uri_path_slug(path);
    proof {
        reveal_strlit("-");
        reveal_strlit(".log");
    }
    let r = num.concat("-").concat(slug.as_str()).concat(".log");
    r
}

/// The inspector's label of a flow: `<platform subdir>:<flow number>`.
pub open spec fn flow_label(subdir: Seq<char>, n: nat) -> Seq<char> {
    subdir + seq![':'] + zero_padded(n, 6)
}

/// The inspector label of the flow opened most recently, given the counter
/// that hands out the next flow number (`next - 1`, and `0` before any).
pub fn inspector_flow_label(subdir: &str, next_flow_id: u64) -> (r: String)
    ensures
        r@ == flow_label(subdir@, if next_flow_id == 0 { 0nat } else { (next_flow_id - 1) as nat }),
{
    let n = if next_flow_id == 0 { 0 } else { next_flow_id - 1 };
    let num = flow_number(n);
    proof {
        reveal_strlit(":");
    }
    String::from_str(subdir).concat(":").concat(num.as_str())
}

// ---------------------------------------------------------------------------
// Captured frames
// ---------------------------------------------------------------------------

/// Tag byte of the raw capture log for each direction.
pub open spec fn spec_frame_tag(dir: Direction) -> u8 {
    match dir {
        Direction::Up => 0,
        Direction::Down => 1,
    }
}

/// The tag byte the raw capture log writes before a frame: `0` for
/// client → server, `1` for server → client.
pub fn frame_tag(dir: Direction) -> (r: u8)
    ensures
        r == spec_frame_tag(dir),
{
    match dir {
        Direction::Up => 0,
        Direction::Down => 1,
    }
}

/// The inspector's direction of a frame the bridge saw travelling `dir`.
pub fn frame_direction(dir: Direction) -> (r: FrameDirection)
    ensures
        r == match dir {
            Direction::Up => FrameDirection::Up,
            Direction::Down => FrameDirection::Down,
        },
{
    match dir {
        Direction::Up => FrameDirection::Up,
        Direction::Down => FrameDirection::Down,
    }
}

/// Standard-alphabet, padded base64 encoding of `bytes`.
pub uninterp spec fn base64_encoded(bytes: Seq<u8>) -> Seq<char>;

/// Calls `base64::engine::general_purpose::STANDARD.encode` on `bytes`.
/// Claimed: the result is [`base64_encoded`] of the input, its length is
/// four characters per started group of three bytes, and decoding it gives
/// the input back. The call panics only when that length overflows `usize`,
/// which the precondition rules out.
#[verifier::external_body]
fn standard_encode(bytes: &[u8]) -> (r: String)
    requires
        4 * ((bytes@.len() + 2) / 3) <= usize::MAX,
    ensures
        r@ == base64_encoded(bytes@),
        r@.len() == 4 * ((bytes@.len() + 2) / 3),
        base64_decoded(r@) == Some(bytes@),
{
    base64::engine::general_purpose::STANDARD.encode(bytes)
}

/// The inspector's raw form of a binary frame: its bytes in base64.
pub fn binary_frame_raw(bytes: &[u8]) -> (r: FrameRaw)
    requires
        4 * ((bytes@.len() + 2) / 3) <= usize::MAX,
    ensures
        r matches FrameRaw::Binary(text) && text@ == base64_encoded(bytes@) && base64_decoded(
            text@,
        ) == Some(bytes@),
{
    FrameRaw::Binary(standard_encode(bytes))
}

// ---------------------------------------------------------------------------
// Root CA files
// ---------------------------------------------------------------------------

/// What a CA file holds.
#[derive(Debug, Clone, Copy, PartialEq, Eq, Structural)]
pub enum CaContent {
    CertPem,
    KeyPem,
    CertDer,
    KeyDer,
}

/// The CA files, as extensions of `akagi-ca` and their content: the
/// certificate in PEM under `cer`, `crt` and `pem`, in DER under `der`; the
/// key in PEM under `key` and in DER under `key.der`.
pub open spec fn ca_files() -> Seq<(Seq<char>, CaContent)> {
    seq![
        ("cer"@, CaContent::CertPem),
        ("crt"@, CaContent::CertPem),
        ("pem"@, CaContent::CertPem),
        ("der"@, CaContent::CertDer),
        ("key"@, CaContent::KeyPem),
        ("key.der"@, CaContent::KeyDer),
    ]
}

/// `akagi-ca.<ext>`.
pub fn ca_file_name(ext: &str) -> (r: String)
    ensures
        r@ == "akagi-ca."@ + ext@,
{
    String::from_str("akagi-ca.").concat(ext)
}

/// The CA in the directory is reused when both `akagi-ca.cer` and
/// `akagi-ca.key` exist; otherwise a new one is generated.
pub open spec fn ca_reused(exists: Seq<bool>) -> bool {
    exists[0] && exists[4]
}

/// File `k` of [`ca_files`] is written: all are when a new CA is
/// generated, the missing ones when it is reused.
pub open spec fn ca_written(exists: Seq<bool>, k: int) -> bool {
    !ca_reused(exists) || !exists[k]
}

/// The files among the first `k` of [`ca_files`] that are written, in
/// order.
pub open spec fn ca_writes_upto(exists: Seq<bool>, k: int) -> Seq<(Seq<char>, CaContent)>
    decreases k,
{
    if k <= 0 {
        Seq::empty()
    } else {
        let p = ca_writes_upto(exists, k - 1);
        if ca_written(exists, k - 1) {
            p.push(ca_files()[k - 1])
        } else {
            p
        }
    }
}

/// The extension and content of each entry.
pub open spec fn ca_entry_views(v: Seq<(&'static str, CaContent)>) -> Seq<(Seq<char>, CaContent)> {
    v.map_values(|e: (&'static str, CaContent)| (e.0@, e.1))
}

fn ca_entry(k: usize) -> (r: (&'static str, CaContent))
    requires
        k < 6,
    ensures
        (r.0@, r.1) == ca_files()[k as int],
{
    proof {
        reveal_strlit("cer");
        reveal_strlit("crt");
        reveal_strlit("pem");
        reveal_strlit("der");
        reveal_strlit("key");
        reveal_strlit("key.der");
    }
    if k == 0 {
        ("cer", CaContent::CertPem)
    } else if k == 1 {
        ("crt", CaContent::CertPem)
    } else if k == 2 {
        ("pem", CaContent::CertPem)
    } else if k == 3 {
        ("der", CaContent::CertDer)
    } else if k == 4 {
        ("key", CaContent::KeyPem)
    } else {
        ("key.der", CaContent::KeyDer)
    }
}

/// Which CA files to write, given which of [`ca_files`] exist (in that
/// order): whether the CA is reused, and the extension and content of
/// each file to write, in the order of [`ca_files`].
pub fn ca_files_to_write(exists: &Vec<bool>) -> (r: (bool, Vec<(&'static str, CaContent)>))
    requires
        exists@.len() == 6,
    ensures
        r.0 == ca_reused(exists@),
        ca_entry_views(r.1@) == ca_writes_upto(exists@, 6),
{
    let reuse = exists[0] && exists[4];
    let mut out: Vec<(&'static str, CaContent)> = Vec::new();
    let mut k: usize = 0;
    while k < 6
        invariant
            exists@.len() == 6,
            reuse == ca_reused(exists@),
            k <= 6,
            ca_entry_views(out@) == ca_writes_upto(exists@, k as int),
        decreases 6 - k,
    {
        if !reuse || !exists[k] {
            let e = ca_entry(k);
            out.push(e);
            assert(ca_entry_views(out@) =~= ca_writes_upto(exists@, k as int).push(ca_files()[k as int]));
        }
        k += 1;
    }
    (reuse, out)
}

/// After the plan is carried out every CA file exists: a reused CA gets
/// its missing formats back-filled, a new CA gets every file; an existing
/// file of a reused CA is never overwritten.
pub proof fn lemma_ca_files_complete(exists: Seq<bool>)
    requires
        exists.len() == 6,
    ensures
        forall|k: int| 0 <= k < 6 ==> exists[k] || #[trigger] ca_written(exists, k),
        ca_reused(exists) ==> forall|k: int| 0 <= k < 6 && exists[k] ==> !#[trigger] ca_written(exists, k),
        !ca_reused(exists) ==> ca_writes_upto(exists, 6).len() == 6,
{
    reveal_with_fuel(ca_writes_upto, 7);
}

/// The proxy answers a plain HTTP request for `/ping` itself with `pong`;
/// every other request is passed on.
pub fn ping_reply(path: &str) -> (r: Option<&'static str>)
    ensures
        path@ == "/ping"@ ==> (r matches Some(b) && b@ == "pong"@),
        path@ != "/ping"@ ==> r is None,
{
    if crate::json::str_eq(path, "/ping") {
        Some("pong")
    } else {
        None
    }
}

} // verus!
