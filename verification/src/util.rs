//! Small text and path helpers: decimal rendering, `/`-separated path
//! joining, and the directory-resolution rules the app applies to the
//! configured log, bot and CA directories. Paths are plain strings here;
//! looking at the file system is the caller's job, which hands the answers
//! (does this candidate exist?) back as booleans.
use vstd::prelude::*;
use crate::tile::{digit_char, digit_value, same_tile};

verus! {

// ---------------------------------------------------------------------------
// Decimal rendering
// ---------------------------------------------------------------------------

/// Decimal digits of `n`, most significant first, without leading zeros
/// (`"0"` for zero).
pub open spec fn decimal_text(n: nat) -> Seq<char>
    decreases n,
{
    if n < 10 {
        seq![digit_char(n as int)]
    } else {
        decimal_text(n / 10).push(digit_char((n % 10) as int))
    }
}

fn digit_str(d: u64) -> (r: &'static str)
    requires
        d < 10,
    ensures
        r@ == seq![digit_char(d as int)],
{
    proof {
        reveal_strlit("0");
        reveal_strlit("1");
        reveal_strlit("2");
        reveal_strlit("3");
        reveal_strlit("4");
        reveal_strlit("5");
        reveal_strlit("6");
        reveal_strlit("7");
        reveal_strlit("8");
        reveal_strlit("9");
    }
    if d == 0 {
        "0"
    } else if d == 1 {
        "1"
    } else if d == 2 {
        "2"
    } else if d == 3 {
        "3"
    } else if d == 4 {
        "4"
    } else if d == 5 {
        "5"
    } else if d == 6 {
        "6"
    } else if d == 7 {
        "7"
    } else if d == 8 {
        "8"
    } else {
        "9"
    }
}

/// `n` written in decimal.
pub fn decimal(n: u64) -> (r: String)
    ensures
        r@ == decimal_text(n as nat),
    decreases n,
{
    if n < 10 {
        String::from_str(digit_str(n))
    } else {
        let head = decimal(n / 10);
        let r = head.concat(digit_str(n % 10));
        r
    }
}

/// The number written by a string of decimal digits.
pub open spec fn digits_value(s: Seq<char>) -> int
    decreases s.len(),
{
    if s.len() == 0 {
        0
    } else {
        digits_value(s.drop_last()) * 10 + digit_value(s.last())
    }
}

/// Every character of `s` is a decimal digit.
pub open spec fn all_digits(s: Seq<char>) -> bool {
    forall|i: int| 0 <= i < s.len() ==> 0 <= #[trigger] digit_value(s[i]) <= 9
}

proof fn lemma_digit_char_value(d: int)
    requires
        0 <= d < 10,
    ensures
        digit_value(digit_char(d)) == d,
{
}

/// The decimal text of `n` is a non-empty string of digits that reads
/// back as `n`.
pub proof fn lemma_decimal_text(n: nat)
    ensures
        decimal_text(n).len() >= 1,
        all_digits(decimal_text(n)),
        digits_value(decimal_text(n)) == n,
    decreases n,
{
    if n < 10 {
        lemma_digit_char_value(n as int);
        assert(decimal_text(n).drop_last() =~= Seq::<char>::empty());
        assert(digits_value(Seq::<char>::empty()) == 0);
        assert(digits_value(decimal_text(n)) == digits_value(decimal_text(n).drop_last()) * 10 + digit_value(decimal_text(n).last()));
    } else {
        lemma_decimal_text(n / 10);
        lemma_digit_char_value((n % 10) as int);
        let t = decimal_text(n);
        assert(t.drop_last() =~= decimal_text(n / 10));
        assert(t.last() == digit_char((n % 10) as int));
        assert((n / 10) * 10 + n % 10 == n) by (nonlinear_arith);
        assert(digits_value(t) == digits_value(t.drop_last()) * 10 + digit_value(t.last()));
        assert forall|i: int| 0 <= i < t.len() implies 0 <= #[trigger] digit_value(t[i]) <= 9 by {
            if i < t.len() - 1 {
                assert(t[i] == decimal_text(n / 10)[i]);
            }
        }
    }
}

/// Distinct numbers have distinct decimal texts.
pub proof fn lemma_decimal_text_injective(a: nat, b: nat)
    requires
        decimal_text(a) == decimal_text(b),
    ensures
        a == b,
{
    lemma_decimal_text(a);
    lemma_decimal_text(b);
}

/// Two texts that each start with a run of digits followed by the same
/// non-digit separator split at the same place.
pub proof fn lemma_split_after_digits(a: Seq<char>, b: Seq<char>, x: Seq<char>, y: Seq<char>, sep: char)
    requires
        all_digits(a),
        all_digits(b),
        digit_value(sep) < 0,
        a + seq![sep] + x == b + seq![sep] + y,
    ensures
        a == b,
        x == y,
{
    let l = a + seq![sep] + x;
    let r = b + seq![sep] + y;
    if a.len() < b.len() {
        assert(l[a.len() as int] == sep);
        assert(r[a.len() as int] == b[a.len() as int]);
        assert(0 <= digit_value(b[a.len() as int]));
    } else if b.len() < a.len() {
        assert(r[b.len() as int] == sep);
        assert(l[b.len() as int] == a[b.len() as int]);
        assert(0 <= digit_value(a[b.len() as int]));
    }
    assert(a.len() == b.len());
    assert(a =~= l.take(a.len() as int));
    assert(b =~= r.take(b.len() as int));
    assert(x =~= l.skip(a.len() as int + 1));
    assert(y =~= r.skip(b.len() as int + 1));
}

// ---------------------------------------------------------------------------
// Searching text
// ---------------------------------------------------------------------------

/// Index of the first `c` in `s`.
pub open spec fn first_char_index(s: Seq<char>, c: char) -> Option<int>
    decreases s.len(),
{
    if s.len() == 0 {
        None
    } else if s[0] == c {
        Some(0)
    } else {
        match first_char_index(s.drop_first(), c) {
            Some(i) => Some(i + 1),
            None => None,
        }
    }
}

/// Facts about a found index: it is in range and holds `c`, and no
/// earlier position does.
pub proof fn lemma_first_char_index(s: Seq<char>, c: char)
    ensures
        match first_char_index(s, c) {
            Some(i) => 0 <= i < s.len() && s[i] == c && forall|k: int| 0 <= k < i ==> s[k] != c,
            None => forall|k: int| 0 <= k < s.len() ==> s[k] != c,
        },
    decreases s.len(),
{
    if s.len() > 0 {
        lemma_first_char_index(s.drop_first(), c);
        if s[0] != c {
            match first_char_index(s.drop_first(), c) {
                Some(i) => {
                    assert forall|k: int| 0 <= k < i + 1 implies s[k] != c by {
                        if k > 0 {
                            assert(s[k] == s.drop_first()[k - 1]);
                        }
                    }
                },
                None => {
                    assert forall|k: int| 0 <= k < s.len() implies s[k] != c by {
                        if k > 0 {
                            assert(s[k] == s.drop_first()[k - 1]);
                        }
                    }
                },
            }
        }
    }
}

/// Position of the first `c` in `s`, if any.
pub fn find_char(s: &str, c: char) -> (r: Option<usize>)
    ensures
        match first_char_index(s@, c) {
            Some(i) => r matches Some(j) && j as int == i,
            None => r is None,
        },
{
    let n = s.unicode_len();
    let mut i: usize = 0;
    assert(s@.skip(0) =~= s@);
    while i < n
        invariant
            n == s@.len(),
            i <= n,
            first_char_index(s@, c) == match first_char_index(s@.skip(i as int), c) {
                Some(k) => Some(k + i),
                None => None::<int>,
            },
        decreases n - i,
    {
        assert(s@.skip(i as int).drop_first() =~= s@.skip(i + 1));
        if s.get_char(i) == c {
            return Some(i);
        }
        i += 1;
    }
    None
}

/// `s` begins with `p`.
pub fn starts_with(s: &str, p: &str) -> (r: bool)
    ensures
        r == (p@.len() <= s@.len() && s@.take(p@.len() as int) == p@),
{
    let n = s.unicode_len();
    let m = p.unicode_len();
    if m > n {
        return false;
    }
    let mut i: usize = 0;
    while i < m
        invariant
            n == s@.len(),
            m == p@.len(),
            m <= n,
            i <= m,
            forall|k: int| 0 <= k < i ==> s@[k] == p@[k],
        decreases m - i,
    {
        if s.get_char(i) != p.get_char(i) {
            assert(s@.take(m as int)[i as int] != p@[i as int]);
            return false;
        }
        i += 1;
    }
    assert(s@.take(m as int) =~= p@);
    true
}

/// Filtering a prefix one element longer adds that element exactly when
/// it passes.
pub proof fn lemma_filter_take_push<A>(s: Seq<A>, i: int, pred: spec_fn(A) -> bool)
    requires
        0 <= i < s.len(),
    ensures
        s.take(i + 1).filter(pred) == if pred(s[i]) {
            s.take(i).filter(pred).push(s[i])
        } else {
            s.take(i).filter(pred)
        },
{
    reveal_with_fuel(Seq::filter, 1);
    assert(s.take(i + 1).drop_last() =~= s.take(i));
}

// ---------------------------------------------------------------------------
// Paths
// ---------------------------------------------------------------------------

/// `p` with one leading `./` removed.
pub open spec fn spec_strip_leading_dot(p: Seq<char>) -> Seq<char> {
    if p.len() >= 2 && p[0] == '.' && p[1] == '/' {
        p.skip(2)
    } else {
        p
    }
}

/// Strip a leading `./` so `./logs` joins cleanly under a user dir.
pub fn strip_leading_dot(p: &str) -> (r: &str)
    ensures
        r@ == spec_strip_leading_dot(p@),
{
    let n = p.unicode_len();
    if n >= 2 && p.get_char(0) == '.' && p.get_char(1) == '/' {
        p.substring_char(2, n)
    } else {
        p
    }
}

/// `base` joined with `part` the way a Unix path is extended: an absolute
/// `part` replaces `base`; otherwise exactly one `/` separates them.
pub open spec fn join_path(base: Seq<char>, part: Seq<char>) -> Seq<char> {
    if part.len() > 0 && part[0] == '/' {
        part
    } else if base.len() == 0 {
        part
    } else if base.last() == '/' {
        base + part
    } else {
        base + seq!['/'] + part
    }
}

/// Executable [`join_path`].
pub fn join(base: &str, part: &str) -> (r: String)
    ensures
        r@ == join_path(base@, part@),
{
    let n = base.unicode_len();
    let m = part.unicode_len();
    if m > 0 && part.get_char(0) == '/' {
        String::from_str(part)
    } else if n == 0 {
        String::from_str(part)
    } else if base.get_char(n - 1) == '/' {
        String::from_str(base).concat(part)
    } else {
        proof { reveal_strlit("/"); }
        let r = String::from_str(base).concat("/").concat(part);
        assert(r@ =~= base@ + seq!['/'] + part@);
        r
    }
}

/// `<user_root>/<name>` when the user configuration root is known.
pub fn user_subdir(user_root: Option<&str>, name: &str) -> (r: Option<String>)
    ensures
        match user_root {
            Some(root) => r matches Some(p) && p@ == join_path(root@, name@),
            None => r is None,
        },
{
    match user_root {
        Some(root) => Some(join(root, name)),
        None => None,
    }
}

/// The executable-relative candidate for a configured directory:
/// `<exe_dir>/<configured without ./>`.
pub fn exe_candidate(exe_dir: Option<&str>, configured: &str) -> (r: Option<String>)
    ensures
        match exe_dir {
            Some(d) => r matches Some(p) && p@ == join_path(d@, spec_strip_leading_dot(configured@)),
            None => r is None,
        },
{
    match exe_dir {
        Some(d) => Some(join(d, strip_leading_dot(configured))),
        None => None,
    }
}

/// Which directory a configured path resolves to.
pub open spec fn spec_resolve_dir(
    configured: Seq<char>,
    exe_candidate: Option<Seq<char>>,
    exe_candidate_exists: bool,
    configured_exists: bool,
    appimage: bool,
    user_root: Option<Seq<char>>,
) -> Seq<char> {
    if configured.len() > 0 && configured[0] == '/' {
        configured
    } else if exe_candidate is Some && exe_candidate_exists {
        exe_candidate.unwrap()
    } else if configured_exists {
        configured
    } else if appimage && user_root is Some {
        join_path(user_root.unwrap(), spec_strip_leading_dot(configured))
    } else if exe_candidate is Some {
        exe_candidate.unwrap()
    } else {
        configured
    }
}

/// Resolve a configured directory with the standard fallback chain:
/// an absolute path is used as is; then the executable-relative candidate
/// (from [`exe_candidate`]) if it exists; then the path relative to the
/// working directory if it exists; under an AppImage, the path under the
/// user configuration root; otherwise the executable-relative candidate,
/// or the configured path when the executable's directory is unknown.
pub fn resolve_dir(
    configured: &str,
    exe_candidate: Option<String>,
    exe_candidate_exists: bool,
    configured_exists: bool,
    appimage: bool,
    user_root: Option<&str>,
) -> (r: String)
    ensures
        r@ == spec_resolve_dir(
            configured@,
            match exe_candidate {
                Some(p) => Some(p@),
                None => None,
            },
            exe_candidate_exists,
            configured_exists,
            appimage,
            match user_root {
                Some(u) => Some(u@),
                None => None,
            },
        ),
{
    let n = configured.unicode_len();
    if n > 0 && configured.get_char(0) == '/' {
        return String::from_str(configured);
    }
    if exe_candidate_exists {
        if let Some(p) = exe_candidate {
            return p;
        }
    }
    if configured_exists {
        return String::from_str(configured);
    }
    if appimage {
        if let Some(root) = user_root {
            return join(root, strip_leading_dot(configured));
        }
    }
    match exe_candidate {
        Some(p) => p,
        None => String::from_str(configured),
    }
}

/// The configured bot directory is the default relative `mjai_bot`.
pub fn is_default_mjai_bot_relative(configured: &str) -> (r: bool)
    ensures
        r == (spec_strip_leading_dot(configured@) == "mjai_bot"@),
{
    same_tile(strip_leading_dot(configured), "mjai_bot")
}

/// A subdirectory name the bot registry accepts: not hidden, not a
/// `__`-prefixed helper directory, and not the shared `base` package.
pub open spec fn spec_bot_dir_name_eligible(name: Seq<char>) -> bool {
    !(name.len() >= 1 && name[0] == '.')
        && !(name.len() >= 2 && name[0] == '_' && name[1] == '_')
        && name != "base"@
}

/// Executable [`spec_bot_dir_name_eligible`].
pub fn bot_dir_name_eligible(name: &str) -> (r: bool)
    ensures
        r == spec_bot_dir_name_eligible(name@),
{
    let n = name.unicode_len();
    if n >= 1 && name.get_char(0) == '.' {
        return false;
    }
    if n >= 2 && name.get_char(0) == '_' && name.get_char(1) == '_' {
        return false;
    }
    !same_tile(name, "base")
}

/// The bot directory to use: the resolved `primary` when it holds bots;
/// otherwise, for the default relative `mjai_bot`, the workspace
/// `mjai_bot` next to a Cargo `target` directory when that one holds bots;
/// otherwise `primary`.
pub fn resolve_mjai_bot_dir(
    primary: String,
    primary_has_bots: bool,
    configured_is_default: bool,
    workspace: Option<String>,
    workspace_has_bots: bool,
) -> (r: String)
    ensures
        r@ == if !primary_has_bots && configured_is_default && workspace is Some
            && workspace_has_bots {
            workspace.unwrap()@
        } else {
            primary@
        },
{
    if primary_has_bots {
        return primary;
    }
    if configured_is_default && workspace_has_bots {
        if let Some(ws) = workspace {
            return ws;
        }
    }
    primary
}

/// Index of the last `c` in `s`.
pub open spec fn last_char_index(s: Seq<char>, c: char) -> Option<int>
    decreases s.len(),
{
    if s.len() == 0 {
        None
    } else if s.last() == c {
        Some(s.len() - 1)
    } else {
        last_char_index(s.drop_last(), c)
    }
}

/// A found last index is in range and holds the character.
pub proof fn lemma_last_char_index(s: Seq<char>, c: char)
    ensures
        last_char_index(s, c) matches Some(i) ==> 0 <= i < s.len() && s[i] == c,
    decreases s.len(),
{
    if s.len() > 0 && s.last() != c {
        lemma_last_char_index(s.drop_last(), c);
    }
}

/// Position of the last `c` in `s`, if any.
pub fn rfind_char(s: &str, c: char) -> (r: Option<usize>)
    ensures
        match last_char_index(s@, c) {
            Some(i) => r matches Some(j) && j as int == i,
            None => r is None,
        },
{
    proof { lemma_last_char_index(s@, c); }
    let mut i = s.unicode_len();
    assert(s@.take(i as int) =~= s@);
    while i > 0
        invariant
            i <= s@.len(),
            last_char_index(s@, c) == last_char_index(s@.take(i as int), c),
        decreases i,
    {
        assert(s@.take(i as int).drop_last() =~= s@.take(i - 1));
        if s.get_char(i - 1) == c {
            return Some(i - 1);
        }
        i -= 1;
    }
    None
}

/// The parent of a `/`-separated path (no trailing `/`): everything before
/// the last `/`; `"/"` for a child of the root; the empty path for a bare
/// name; none for the root or the empty path.
pub open spec fn parent_path(s: Seq<char>) -> Option<Seq<char>> {
    match last_char_index(s, '/') {
        None => if s.len() == 0 {
            None
        } else {
            Some(Seq::empty())
        },
        Some(i) => if i == 0 {
            if s.len() == 1 {
                None
            } else {
                Some(seq!['/'])
            }
        } else {
            Some(s.take(i))
        },
    }
}

/// The last component of a `/`-separated path; none for the root, the
/// empty path, or a path ending in `/`.
pub open spec fn file_name_of(s: Seq<char>) -> Option<Seq<char>> {
    if s.len() == 0 {
        None
    } else {
        match last_char_index(s, '/') {
            None => Some(s),
            Some(i) => if i == s.len() - 1 {
                None
            } else {
                Some(s.skip(i + 1))
            },
        }
    }
}

/// Walking up from `cur`, the `mjai_bot` directory beside the nearest
/// directory named `target`.
pub open spec fn workspace_walk(cur: Seq<char>) -> Option<Seq<char>>
    decreases cur.len(),
{
    if cur.len() == 0 {
        None
    } else {
        match file_name_of(cur) {
            None => None,
            Some(name) => if name == "target"@ {
                match parent_path(cur) {
                    None => None,
                    Some(w) => Some(join_path(w, "mjai_bot"@)),
                }
            } else {
                match last_char_index(cur, '/') {
                    None => None,
                    Some(i) => if i == 0 {
                        None
                    } else {
                        proof {
                            lemma_last_char_index(cur, '/');
                        }
                        workspace_walk(cur.take(i))
                    },
                }
            },
        }
    }
}

/// When the executable runs from a Cargo build (`<ws>/target/<profile>/`
/// or `<ws>/target/<profile>/deps/`), the candidate `<ws>/mjai_bot`; the
/// caller checks that it is a directory.
pub fn workspace_mjai_bot_from_exe_path(exe: &str) -> (r: Option<String>)
    ensures
        match parent_path(exe@) {
            None => r is None,
            Some(dir) => match workspace_walk(dir) {
                Some(p) => r matches Some(x) && x@ == p,
                None => r is None,
            },
        },
{
    proof { lemma_last_char_index(exe@, '/'); }
    let n = exe.unicode_len();
    let mut end: usize = match rfind_char(exe, '/') {
        None => {
            return None;
        },
        Some(i) => {
            if i == 0 {
                return None;
            }
            i
        },
    };
    assert(parent_path(exe@) == Some(exe@.take(end as int)));
    while end > 0
        invariant
            end <= n,
            n == exe@.len(),
            parent_path(exe@) matches Some(dir) && workspace_walk(dir) == workspace_walk(exe@.take(end as int)),
        decreases end,
    {
        let cur = exe.substring_char(0, end);
        assert(cur@ =~= exe@.take(end as int));
        proof { lemma_last_char_index(cur@, '/'); }
        let slash = rfind_char(cur, '/');
        let name_start: usize = match slash {
            None => 0,
            Some(i) => i + 1,
        };
        if name_start == end {
            return None;
        }
        let name = cur.substring_char(name_start, end);
        assert(file_name_of(cur@) == Some(name@)) by {
            match slash {
                None => { assert(name@ =~= cur@); },
                Some(i) => { assert(name@ =~= cur@.skip(i + 1)); },
            }
        }
        if same_tile(name, "target") {
            proof {
                reveal_strlit("");
                reveal_strlit("/");
            }
            return match slash {
                None => Some(join("", "mjai_bot")),
                Some(i) => {
                    if i == 0 {
                        if end == 1 {
                            None
                        } else {
                            Some(join("/", "mjai_bot"))
                        }
                    } else {
                        let w = cur.substring_char(0, i);
                        assert(w@ =~= cur@.take(i as int));
                        Some(join(w, "mjai_bot"))
                    }
                },
            };
        }
        match slash {
            None => {
                return None;
            },
            Some(i) => {
                if i == 0 {
                    return None;
                }
                assert(cur@.take(i as int) =~= exe@.take(i as int));
                end = i;
            },
        }
    }
    None
}

} // verus!
