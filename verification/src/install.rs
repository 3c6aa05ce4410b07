//! Rules for installing a bot from a GitHub release: which repositories and
//! target names are acceptable, which release asset is downloaded, and what
//! an extracted archive must look like. Downloading and unpacking are done
//! by the caller.
use vstd::prelude::*;
use crate::tile::{same_tile, views};
use crate::ipc::{Notification, NotifyLevel, notice_is};
use crate::util::{decimal, decimal_text, find_char, first_char_index, lemma_first_char_index, lemma_filter_take_push, starts_with};

verus! {

// ---------------------------------------------------------------------------
// globset
// ---------------------------------------------------------------------------

#[verifier::external_type_specification]
#[verifier::external_body]
pub struct ExGlobSet(globset::GlobSet);

/// `pattern` is accepted by `globset::Glob::new` (default options) and a
/// glob set holding it alone builds, its regular expressions included.
pub uninterp spec fn glob_compiles(pattern: Seq<char>) -> bool;

/// The glob set built from `pattern` alone accepts `name`. `globset`
/// fixes at build time whether a backslash escapes (not on Windows), so the answer
/// is that of the target the crate is built for.
pub uninterp spec fn glob_matches(pattern: Seq<char>, name: Seq<char>) -> bool;

/// A compiled glob together with the pattern it was compiled from.
pub struct PatternMatcher {
    pattern: String,
    matcher: globset::GlobSet,
}

impl PatternMatcher {
    pub closed spec fn pattern(&self) -> Seq<char> {
        self.pattern@
    }
}

/// Calls `globset::Glob::new(pattern)` and, when that succeeds, builds a
/// `GlobSet` of that one glob with `GlobSetBuilder::build`, which reports
/// a regular expression that cannot be built as an error (where
/// `Glob::compile_matcher` would panic). Claimed: the result is present
/// exactly when both steps succeed, and then remembers the pattern.
#[verifier::external_body]
fn compile_glob(pattern: &str) -> (r: Option<PatternMatcher>)
    ensures
        r is Some == glob_compiles(pattern@),
        r matches Some(m) ==> m.pattern() == pattern@,
{
    let glob = match globset::Glob::new(pattern) {
        Ok(g) => g,
        Err(_) => return None,
    };
    match globset::GlobSetBuilder::new().add(glob).build() {
        Ok(set) => Some(PatternMatcher { pattern: pattern.to_string(), matcher: set }),
        Err(_) => None,
    }
}

/// Calls `globset::GlobSet::is_match(name)`. Claimed: the answer is
/// whether the set built from the matcher's pattern accepts `name`.
#[verifier::external_body]
fn matcher_accepts(m: &PatternMatcher, name: &str) -> (r: bool)
    ensures
        r == glob_matches(m.pattern(), name@),
{
    m.matcher.is_match(name)
}

// ---------------------------------------------------------------------------
// Types
// ---------------------------------------------------------------------------

/// Pointer to a GitHub release-zip install.
#[derive(Debug, Clone)]
pub struct GithubInstallSpec {
    /// `owner/name`.
    pub repo: String,
    /// Glob to pick one asset out of the release. `None` → first `.zip`.
    pub asset_glob: Option<String>,
    /// Override target subdir name. `None` → second segment of `repo`.
    pub name: Option<String>,
}

/// One downloadable file of a release.
#[derive(Debug, Clone, PartialEq, Eq)]
pub struct Asset {
    pub name: String,
    pub browser_download_url: String,
}

/// Why an install is refused.
#[derive(Debug, Clone, PartialEq, Eq)]
pub enum InstallError {
    /// The repository is not `owner/name`.
    RepoForm { repo: String },
    /// The repository has characters outside `[A-Za-z0-9._-]`.
    RepoChars { repo: String },
    /// The target name is empty or starts with a dot.
    TargetInvalid { name: String },
    /// The target name holds `/`, `\` or `..`.
    TargetSeparators { name: String },
    /// The target name is the reserved `base`.
    TargetReserved { name: String },
    /// The release has no assets at all.
    NoAssets,
    /// The asset glob does not compile.
    BadGlob { pattern: String },
    /// No asset matches the glob.
    NoGlobMatch { pattern: String },
    /// Several assets match the glob; `matched` holds their names.
    ManyGlobMatches { pattern: String, matched: Vec<String> },
    /// Without a glob, no asset name ends in `.zip`.
    NoZipAsset,
    /// The extracted archive has no top-level `bot.py`.
    MissingBotPy,
}

// ---------------------------------------------------------------------------
// Messages
// ---------------------------------------------------------------------------

/// `s` in double quotes.
pub open spec fn quoted(s: Seq<char>) -> Seq<char> {
    seq!['"'] + s + seq!['"']
}

/// `["a", "b"]` for the names `a`, `b`.
pub open spec fn quoted_list(names: Seq<Seq<char>>) -> Seq<char> {
    seq!['['] + quoted_items(names) + seq![']']
}

/// The items of [`quoted_list`], separated by `, `.
pub open spec fn quoted_items(names: Seq<Seq<char>>) -> Seq<char>
    decreases names.len(),
{
    if names.len() == 0 {
        Seq::empty()
    } else if names.len() == 1 {
        quoted(names[0])
    } else {
        quoted_items(names.drop_last()) + seq![',', ' '] + quoted(names.last())
    }
}

/// The human-readable text of an install error.
pub open spec fn error_text(e: InstallError) -> Seq<char> {
    match e {
        InstallError::RepoForm { repo } => "repo "@ + quoted(repo@) + " is not in the form `owner/name`"@,
        InstallError::RepoChars { repo } => "repo "@ + quoted(repo@)
            + " has illegal characters; expected [A-Za-z0-9._-]+/[A-Za-z0-9._-]+"@,
        InstallError::TargetInvalid { name } => "target name "@ + quoted(name@) + " is invalid"@,
        InstallError::TargetSeparators { name } => "target name "@ + quoted(name@)
            + " contains path separators"@,
        InstallError::TargetReserved { name } => "target name "@ + quoted(name@) + " is reserved"@,
        InstallError::NoAssets => "release has no assets"@,
        InstallError::BadGlob { pattern } => "compile glob "@ + quoted(pattern@),
        InstallError::NoGlobMatch { pattern } => "no asset in release matches glob "@ + quoted(pattern@),
        InstallError::ManyGlobMatches { pattern, matched } => decimal_text(matched@.len())
            + " assets matched glob "@ + quoted(pattern@) + "; tighten the pattern (matched: "@
            + quoted_list(views(matched@)) + ")"@,
        InstallError::NoZipAsset => "no .zip asset in release; pass asset_glob to pick a non-zip explicitly"@,
        InstallError::MissingBotPy => "extracted archive does not contain bot.py at the top level — refusing install"@,
    }
}

fn quote(s: &str) -> (r: String)
    ensures
        r@ == quoted(s@),
{
    proof { reveal_strlit("\""); }
    let r = String::from_str("\"").concat(s).concat("\"");
    assert(r@ =~= quoted(s@));
    r
}

fn quote_list(names: &Vec<String>) -> (r: String)
    ensures
        r@ == quoted_list(views(names@)),
{
    proof {
        reveal_strlit("[");
        reveal_strlit("]");
        reveal_strlit(", ");
    }
    let mut items = String::new();
    let n = names.len();
    let mut i: usize = 0;
    while i < n
        invariant
            n == names@.len(),
            i <= n,
            items@ == quoted_items(views(names@).take(i as int)),
        decreases n - i,
    {
        let ghost before = items@;
        let q = quote(names[i].as_str());
        assert(views(names@).take(i + 1).drop_last() =~= views(names@).take(i as int));
        if i == 0 {
            items = items.concat(q.as_str());
            assert(views(names@).take(1).len() == 1);
            assert(items@ =~= quoted(views(names@).take(1)[0]));
        } else {
            items = items.concat(", ").concat(q.as_str());
            proof { reveal_strlit(", "); }
            assert(views(names@).take(i + 1).last() == names@[i as int]@);
            assert(items@ =~= before + seq![',', ' '] + quoted(views(names@).take(i + 1).last()));
        }
        i += 1;
    }
    assert(views(names@).take(n as int) =~= views(names@));
    let r = String::from_str("[").concat(items.as_str()).concat("]");
    assert(r@ =~= quoted_list(views(names@)));
    r
}

impl InstallError {
    /// Human-readable description of the error.
    pub fn message(&self) -> (r: String)
        ensures
            r@ == error_text(*self),
    {
        match self {
            InstallError::RepoForm { repo } => String::from_str("repo ").concat(quote(repo.as_str()).as_str()).concat(
                " is not in the form `owner/name`",
            ),
            InstallError::RepoChars { repo } => String::from_str("repo ").concat(quote(repo.as_str()).as_str()).concat(
                " has illegal characters; expected [A-Za-z0-9._-]+/[A-Za-z0-9._-]+",
            ),
            InstallError::TargetInvalid { name } => String::from_str("target name ").concat(
                quote(name.as_str()).as_str(),
            ).concat(" is invalid"),
            InstallError::TargetSeparators { name } => String::from_str("target name ").concat(
                quote(name.as_str()).as_str(),
            ).concat(" contains path separators"),
            InstallError::TargetReserved { name } => String::from_str("target name ").concat(
                quote(name.as_str()).as_str(),
            ).concat(" is reserved"),
            InstallError::NoAssets => String::from_str("release has no assets"),
            InstallError::BadGlob { pattern } => String::from_str("compile glob ").concat(
                quote(pattern.as_str()).as_str(),
            ),
            InstallError::NoGlobMatch { pattern } => String::from_str("no asset in release matches glob ").concat(
                quote(pattern.as_str()).as_str(),
            ),
            InstallError::ManyGlobMatches { pattern, matched } => {
                let count = decimal(matched.len() as u64);
                count.concat(" assets matched glob ").concat(quote(pattern.as_str()).as_str()).concat(
                    "; tighten the pattern (matched: ",
                ).concat(quote_list(matched).as_str()).concat(")")
            },
            InstallError::NoZipAsset => String::from_str(
                "no .zip asset in release; pass asset_glob to pick a non-zip explicitly",
            ),
            InstallError::MissingBotPy => String::from_str(
                "extracted archive does not contain bot.py at the top level — refusing install",
            ),
        }
    }
}

// ---------------------------------------------------------------------------
// Repository and target name
// ---------------------------------------------------------------------------

/// Characters allowed in each half of `owner/name`.
pub open spec fn repo_char_ok(c: char) -> bool {
    ('a' <= c && c <= 'z') || ('A' <= c && c <= 'Z') || ('0' <= c && c <= '9') || c == '_' || c
        == '-' || c == '.'
}

/// Number of `/` in `s`.
pub open spec fn slash_count(s: Seq<char>) -> nat
    decreases s.len(),
{
    if s.len() == 0 {
        0
    } else {
        slash_count(s.drop_last()) + if s.last() == '/' {
            1nat
        } else {
            0nat
        }
    }
}

/// `s` splits on `/` into exactly two non-empty parts.
pub open spec fn repo_form_ok(s: Seq<char>) -> bool {
    slash_count(s) == 1 && s[0] != '/' && s.last() != '/'
}

/// Every character of `s` other than `/` is allowed.
pub open spec fn repo_chars_ok(s: Seq<char>) -> bool {
    forall|i: int| 0 <= i < s.len() && s[i] != '/' ==> repo_char_ok(#[trigger] s[i])
}

/// `s` has a `/` at `k` and nowhere else.
pub open spec fn only_slash_at(s: Seq<char>, k: int) -> bool {
    0 <= k < s.len() && s[k] == '/' && forall|j: int| 0 <= j < s.len() && j != k ==> #[trigger] s[j] != '/'
}

proof fn lemma_slash_count(s: Seq<char>)
    ensures
        slash_count(s) == 0 <==> forall|i: int| 0 <= i < s.len() ==> #[trigger] s[i] != '/',
        slash_count(s) == 1 <==> exists|k: int| #[trigger] only_slash_at(s, k),
    decreases s.len(),
{
    if s.len() > 0 {
        let t = s.drop_last();
        lemma_slash_count(t);
        let n = s.len() - 1;
        assert forall|j: int| 0 <= j < n implies #[trigger] s[j] == t[j] by {}
        if s.last() == '/' {
            if slash_count(s) == 1 {
                assert(only_slash_at(s, n));
            }
            if exists|k: int| #[trigger] only_slash_at(s, k) {
                let k = choose|k: int| #[trigger] only_slash_at(s, k);
                assert(k == n);
                assert forall|i: int| 0 <= i < t.len() implies #[trigger] t[i] != '/' by {
                    assert(s[i] != '/');
                }
            }
            if slash_count(s) == 0 {
                assert(s[n] == '/');
            }
        } else {
            if slash_count(s) == 1 {
                let k = choose|k: int| #[trigger] only_slash_at(t, k);
                assert(only_slash_at(s, k));
            }
            if exists|k: int| #[trigger] only_slash_at(s, k) {
                let k = choose|k: int| #[trigger] only_slash_at(s, k);
                assert(only_slash_at(t, k));
            }
            if forall|i: int| 0 <= i < s.len() ==> #[trigger] s[i] != '/' {
                assert forall|i: int| 0 <= i < t.len() implies #[trigger] t[i] != '/' by {
                    assert(s[i] != '/');
                }
            }
            if slash_count(s) == 0 {
                assert forall|i: int| 0 <= i < s.len() implies #[trigger] s[i] != '/' by {
                    if i < n {
                        assert(t[i] != '/');
                    }
                }
            }
        }
    }
}

/// The repository form is `owner/name`: `s` splits on `/` into exactly
/// two parts, neither empty.
pub proof fn lemma_repo_form_split(s: Seq<char>)
    ensures
        repo_form_ok(s) <==> exists|k: int| #[trigger] only_slash_at(s, k) && 0 < k < s.len() - 1,
{
    lemma_slash_count(s);
    if repo_form_ok(s) {
        let k = choose|k: int| #[trigger] only_slash_at(s, k);
        assert(k != 0);
        assert(k != s.len() - 1);
    }
    if exists|k: int| #[trigger] only_slash_at(s, k) && 0 < k < s.len() - 1 {
        let k = choose|k: int| #[trigger] only_slash_at(s, k) && 0 < k < s.len() - 1;
        assert(s[0] != '/');
        assert(s[s.len() - 1] != '/');
    }
}

fn char_ok(c: char) -> (r: bool)
    ensures
        r == repo_char_ok(c),
{
    ('a' <= c && c <= 'z') || ('A' <= c && c <= 'Z') || ('0' <= c && c <= '9') || c == '_' || c
        == '-' || c == '.'
}

/// Check that `repo` is `owner/name` with both parts drawn from
/// `[A-Za-z0-9._-]`.
pub fn validate_repo(repo: &str) -> (r: Result<(), InstallError>)
    ensures
        r is Ok <==> repo_form_ok(repo@) && repo_chars_ok(repo@),
        !repo_form_ok(repo@) ==> (r matches Err(InstallError::RepoForm { repo: x }) && x@ == repo@),
        repo_form_ok(repo@) && !repo_chars_ok(repo@) ==> (r matches Err(
            InstallError::RepoChars { repo: x },
        ) && x@ == repo@),
{
    let n = repo.unicode_len();
    let mut slashes: usize = 0;
    let mut chars_ok = true;
    let mut i: usize = 0;
    while i < n
        invariant
            n == repo@.len(),
            i <= n,
            slashes <= i,
            slashes == slash_count(repo@.take(i as int)),
            chars_ok == (forall|k: int| 0 <= k < i && repo@[k] != '/' ==> repo_char_ok(#[trigger] repo@[k])),
        decreases n - i,
    {
        let c = repo.get_char(i);
        assert(repo@.take(i + 1).drop_last() =~= repo@.take(i as int));
        if c == '/' {
            slashes += 1;
        } else if !char_ok(c) {
            chars_ok = false;
        }
        i += 1;
    }
    assert(repo@.take(n as int) =~= repo@);
    let form = slashes == 1 && repo.get_char(0) != '/' && repo.get_char(n - 1) != '/';
    if !form {
        return Err(InstallError::RepoForm { repo: String::from_str(repo) });
    }
    if !chars_ok {
        return Err(InstallError::RepoChars { repo: String::from_str(repo) });
    }
    Ok(())
}

/// `s` holds two adjacent dots.
pub open spec fn has_double_dot(s: Seq<char>) -> bool {
    exists|i: int| 0 <= i < s.len() - 1 && #[trigger] s[i] == '.' && s[i + 1] == '.'
}

/// Empty, or starts with a dot.
pub open spec fn target_name_invalid(s: Seq<char>) -> bool {
    s.len() == 0 || s[0] == '.'
}

/// Holds a path separator or a parent-directory step.
pub open spec fn target_name_has_separator(s: Seq<char>) -> bool {
    s.contains('/') || s.contains('\\') || has_double_dot(s)
}

fn scan_separators(name: &str) -> (r: bool)
    ensures
        r == target_name_has_separator(name@),
{
    let n = name.unicode_len();
    let mut i: usize = 0;
    while i < n
        invariant
            n == name@.len(),
            i <= n,
            forall|k: int| 0 <= k < i ==> name@[k] != '/' && name@[k] != '\\',
            forall|k: int| 0 <= k < i && k + 1 < n ==> !(#[trigger] name@[k] == '.' && name@[k + 1] == '.'),
        decreases n - i,
    {
        let c = name.get_char(i);
        if c == '/' || c == '\\' {
            assert(name@.contains(c));
            return true;
        }
        if c == '.' && i + 1 < n && name.get_char(i + 1) == '.' {
            assert(has_double_dot(name@));
            return true;
        }
        i += 1;
    }
    assert(!name@.contains('/'));
    assert(!name@.contains('\\'));
    assert(!has_double_dot(name@));
    false
}

/// Check that `name` can be used as the bot's directory name.
pub fn validate_target_name(name: &str) -> (r: Result<(), InstallError>)
    ensures
        r is Ok <==> !target_name_invalid(name@) && !target_name_has_separator(name@) && name@
            != "base"@,
        target_name_invalid(name@) ==> (r matches Err(InstallError::TargetInvalid { name: x })
            && x@ == name@),
        !target_name_invalid(name@) && target_name_has_separator(name@) ==> (r matches Err(
            InstallError::TargetSeparators { name: x },
        ) && x@ == name@),
        !target_name_invalid(name@) && !target_name_has_separator(name@) && name@ == "base"@
            ==> (r matches Err(InstallError::TargetReserved { name: x }) && x@ == name@),
{
    let n = name.unicode_len();
    if n == 0 || name.get_char(0) == '.' {
        return Err(InstallError::TargetInvalid { name: String::from_str(name) });
    }
    if scan_separators(name) {
        return Err(InstallError::TargetSeparators { name: String::from_str(name) });
    }
    if same_tile(name, "base") {
        return Err(InstallError::TargetReserved { name: String::from_str(name) });
    }
    Ok(())
}

/// The second `/`-separated segment of `repo`, or `repo` itself when it
/// has no `/`.
pub open spec fn second_segment(repo: Seq<char>) -> Seq<char> {
    match first_char_index(repo, '/') {
        None => repo,
        Some(k) => {
            let rest = repo.skip(k + 1);
            match first_char_index(rest, '/') {
                None => rest,
                Some(j) => rest.take(j),
            }
        },
    }
}

impl GithubInstallSpec {
    /// The install directory name: the override when given, else the
    /// second segment of `repo`.
    pub fn target_name(&self) -> (r: String)
        ensures
            r@ == match self.name {
                Some(n) => n@,
                None => second_segment(self.repo@),
            },
    {
        if let Some(n) = &self.name {
            return n.clone();
        }
        let repo = self.repo.as_str();
        proof { lemma_first_char_index(repo@, '/'); }
        match find_char(repo, '/') {
            None => self.repo.clone(),
            Some(k) => {
                let n = repo.unicode_len();
                let rest = repo.substring_char(k + 1, n);
                assert(rest@ =~= repo@.skip(k + 1));
                proof { lemma_first_char_index(rest@, '/'); }
                match find_char(rest, '/') {
                    None => String::from_str(rest),
                    Some(j) => {
                        let seg = rest.substring_char(0, j);
                        assert(seg@ =~= rest@.take(j as int));
                        String::from_str(seg)
                    },
                }
            },
        }
    }
}

// ---------------------------------------------------------------------------
// Asset choice
// ---------------------------------------------------------------------------

/// The name ends in `.zip`, compared without regard to ASCII case.
pub open spec fn zip_suffix(n: Seq<char>) -> bool {
    n.len() >= 4 && n[n.len() - 4] == '.' && (n[n.len() - 3] == 'z' || n[n.len() - 3] == 'Z') && (
    n[n.len() - 2] == 'i' || n[n.len() - 2] == 'I') && (n[n.len() - 1] == 'p' || n[n.len() - 1]
        == 'P')
}

/// Index of the first asset with a `.zip` name.
pub open spec fn first_zip(assets: Seq<Asset>) -> Option<int>
    decreases assets.len(),
{
    if assets.len() == 0 {
        None
    } else if zip_suffix(assets[0].name@) {
        Some(0)
    } else {
        match first_zip(assets.drop_first()) {
            Some(i) => Some(i + 1),
            None => None,
        }
    }
}

/// The assets whose names the glob `pattern` matches, in release order.
pub open spec fn glob_hits(assets: Seq<Asset>, pattern: Seq<char>) -> Seq<Asset> {
    assets.filter(|a: Asset| glob_matches(pattern, a.name@))
}

/// Names of `assets`.
pub open spec fn asset_names(assets: Seq<Asset>) -> Seq<Seq<char>> {
    assets.map_values(|a: Asset| a.name@)
}

fn is_zip_name(name: &str) -> (r: bool)
    ensures
        r == zip_suffix(name@),
{
    let n = name.unicode_len();
    if n < 4 {
        return false;
    }
    let a = name.get_char(n - 4);
    let b = name.get_char(n - 3);
    let c = name.get_char(n - 2);
    let d = name.get_char(n - 1);
    a == '.' && (b == 'z' || b == 'Z') && (c == 'i' || c == 'I') && (d == 'p' || d == 'P')
}

fn first_zip_index(assets: &[Asset]) -> (r: Option<usize>)
    ensures
        match first_zip(assets@) {
            Some(i) => r matches Some(j) && j as int == i && j < assets@.len(),
            None => r is None,
        },
{
    let n = assets.len();
    let mut i: usize = 0;
    assert(assets@.skip(0) =~= assets@);
    while i < n
        invariant
            n == assets@.len(),
            i <= n,
            first_zip(assets@) == match first_zip(assets@.skip(i as int)) {
                Some(k) => Some(k + i),
                None => None::<int>,
            },
        decreases n - i,
    {
        assert(assets@.skip(i as int).drop_first() =~= assets@.skip(i + 1));
        assert(assets@.skip(i as int)[0] == assets@[i as int]);
        if is_zip_name(assets[i].name.as_str()) {
            return Some(i);
        }
        i += 1;
    }
    None
}

/// Choose one asset out of the release: with a glob, the one asset it
/// matches; without, the first asset whose name ends in `.zip` (any case).
pub fn pick_asset<'a>(assets: &'a [Asset], glob: Option<&str>) -> (r: Result<&'a Asset, InstallError>)
    ensures
        assets@.len() == 0 ==> r matches Err(InstallError::NoAssets),
        assets@.len() > 0 ==> match glob {
            None => match first_zip(assets@) {
                Some(i) => r matches Ok(a) && *a == assets@[i],
                None => r matches Err(InstallError::NoZipAsset),
            },
            Some(p) => if !glob_compiles(p@) {
                r matches Err(InstallError::BadGlob { pattern }) && pattern@ == p@
            } else {
                let hits = glob_hits(assets@, p@);
                if hits.len() == 0 {
                    r matches Err(InstallError::NoGlobMatch { pattern }) && pattern@ == p@
                } else if hits.len() == 1 {
                    r matches Ok(a) && *a == hits[0]
                } else {
                    r matches Err(InstallError::ManyGlobMatches { pattern, matched })
                        && pattern@ == p@ && views(matched@) == asset_names(hits)
                }
            },
        },
{
    if assets.len() == 0 {
        return Err(InstallError::NoAssets);
    }
    match glob {
        None => match first_zip_index(assets) {
            Some(i) => Ok(&assets[i]),
            None => Err(InstallError::NoZipAsset),
        },
        Some(p) => {
            let m = match compile_glob(p) {
                Some(m) => m,
                None => {
                    return Err(InstallError::BadGlob { pattern: String::from_str(p) });
                },
            };
            let ghost pred = |a: Asset| glob_matches(p@, a.name@);
            let n = assets.len();
            let mut first: Option<usize> = None;
            let mut matched: Vec<String> = Vec::new();
            let mut i: usize = 0;
            while i < n
                invariant
                    n == assets@.len(),
                    i <= n,
                    m.pattern() == p@,
                    pred == (|a: Asset| glob_matches(p@, a.name@)),
                    views(matched@) == asset_names(assets@.take(i as int).filter(pred)),
                    matched@.len() == assets@.take(i as int).filter(pred).len(),
                    matched@.len() == 0 <==> first is None,
                    first matches Some(f) ==> f < n && assets@.take(i as int).filter(pred)[0]
                        == assets@[f as int],
                decreases n - i,
            {
                proof { lemma_filter_take_push(assets@, i as int, pred); }
                if matcher_accepts(&m, assets[i].name.as_str()) {
                    if first.is_none() {
                        first = Some(i);
                    }
                    let ghost before = matched@;
                    matched.push(assets[i].name.clone());
                    assert(views(matched@) =~= views(before).push(assets@[i as int].name@));
                    assert(asset_names(assets@.take(i + 1).filter(pred)) =~= asset_names(
                        assets@.take(i as int).filter(pred),
                    ).push(assets@[i as int].name@));
                }
                i += 1;
            }
            assert(assets@.take(n as int) =~= assets@);
            if matched.len() == 0 {
                Err(InstallError::NoGlobMatch { pattern: String::from_str(p) })
            } else if matched.len() == 1 {
                let f = first.unwrap();
                Ok(&assets[f])
            } else {
                Err(InstallError::ManyGlobMatches { pattern: String::from_str(p), matched })
            }
        },
    }
}

// ---------------------------------------------------------------------------
// Extracted layout
// ---------------------------------------------------------------------------

/// An extracted archive must hold `bot.py` at its top level; the caller
/// reports whether `<root>/bot.py` is a file.
pub fn validate_layout(bot_py_is_file: bool) -> (r: Result<(), InstallError>)
    ensures
        bot_py_is_file ==> r is Ok,
        !bot_py_is_file ==> r matches Err(InstallError::MissingBotPy),
{
    if bot_py_is_file {
        Ok(())
    } else {
        Err(InstallError::MissingBotPy)
    }
}

/// Release zips usually wrap everything in one top-level directory. Given
/// the entries of the extraction directory (name, is-directory), the name
/// of the directory to descend into: the only entry, when there is exactly
/// one and it is a directory.
pub fn strip_single_top_level(entries: &Vec<(String, bool)>) -> (r: Option<String>)
    ensures
        r matches Some(name) ==> entries@.len() == 1 && entries@[0].1 && name@ == entries@[0].0@,
        r is None ==> !(entries@.len() == 1 && entries@[0].1),
{
    if entries.len() != 1 {
        return None;
    }
    if entries[0].1 {
        Some(entries[0].0.clone())
    } else {
        None
    }
}

// ---------------------------------------------------------------------------
// Release lookup and progress notices
// ---------------------------------------------------------------------------

/// The GitHub API endpoint of the latest release of `repo`.
pub open spec fn spec_release_api_url(repo: Seq<char>) -> Seq<char> {
    "https://api.github.com/repos/"@ + repo + "/releases/latest"@
}

/// Executable [`spec_release_api_url`].
pub fn release_api_url(repo: &str) -> (r: String)
    ensures
        r@ == spec_release_api_url(repo@),
{
    String::from_str("https://api.github.com/repos/").concat(repo).concat("/releases/latest")
}

/// The id shared by the progress notices of installing `target`, so each
/// replaces the previous one.
pub fn install_notify_id(target: &str) -> (r: String)
    ensures
        r@ == "bot-install-"@ + target@,
{
    String::from_str("bot-install-").concat(target)
}

/// The download notice: the asset's name and the release tag, `latest`
/// when the release has none.
pub fn download_note(asset_name: &str, tag: Option<&str>) -> (r: String)
    ensures
        r@ == "Downloading "@ + asset_name@ + " ("@ + (match tag {
            Some(t) => t@,
            None => "latest"@,
        }) + ")"@,
{
    let t = match tag {
        Some(t) => t,
        None => "latest",
    };
    String::from_str("Downloading ").concat(asset_name).concat(" (").concat(t).concat(")")
}

// ---------------------------------------------------------------------------
// Archive entries
// ---------------------------------------------------------------------------

/// Why an archive entry is not extracted.
#[derive(Debug, Clone, Copy, PartialEq, Eq, Structural)]
pub enum EntryRefusal {
    /// The archive reader found no safe relative path for the entry.
    UnsafePath,
    /// The path has a `..` step.
    ParentDir,
    /// The path is absolute.
    Absolute,
}

/// Whether an archive entry may be written below the destination: it
/// needs a safe relative path (`enclosed`, as the archive reader judges
/// it), then no `..` step, then a relative path; the first failing check
/// names the refusal.
pub fn entry_refusal(enclosed: bool, has_parent_dir: bool, is_absolute: bool) -> (r: Option<EntryRefusal>)
    ensures
        r == if !enclosed {
            Some(EntryRefusal::UnsafePath)
        } else if has_parent_dir {
            Some(EntryRefusal::ParentDir)
        } else if is_absolute {
            Some(EntryRefusal::Absolute)
        } else {
            None
        },
{
    if !enclosed {
        Some(EntryRefusal::UnsafePath)
    } else if has_parent_dir {
        Some(EntryRefusal::ParentDir)
    } else if is_absolute {
        Some(EntryRefusal::Absolute)
    } else {
        None
    }
}

// ---------------------------------------------------------------------------
// The install, step by step
// ---------------------------------------------------------------------------

/// How far an install got.
#[derive(Debug, Clone, Copy, PartialEq, Eq, Structural)]
pub enum InstallStage {
    CheckingDestination,
    FetchingRelease,
    Downloading,
    Extracting,
    CheckingLayout,
    Moving,
    Done,
}

/// Why an install stopped.
#[derive(Debug, Clone)]
pub enum InstallStop {
    /// A rule refused the repository, the target name, the asset choice or
    /// the extracted layout.
    Invalid { error: InstallError },
    /// The destination directory exists already.
    AlreadyExists { target: String },
    /// The I/O of this stage failed.
    StepFailed { stage: InstallStage },
    /// An answer that does not fit the stage.
    OutOfOrder,
}

/// The latest release as fetched: its tag and assets.
#[derive(Debug, Clone)]
pub struct Release {
    pub tag: Option<String>,
    pub assets: Vec<Asset>,
}

/// What the caller does next.
#[derive(Debug, Clone)]
pub enum InstallAction {
    /// Check whether `<bot root>/<target>` exists.
    CheckDestination { target: String },
    /// Show `notice`, then fetch the release metadata from `url`.
    FetchRelease { url: String, notice: Notification },
    /// Show `notice`, then download the asset at `url`.
    Download { url: String, notice: Notification },
    /// Show `notice`, then extract the download into a staging directory
    /// (refusing entries by [`entry_refusal`]) and descend into its single
    /// top-level directory ([`strip_single_top_level`]).
    Extract { notice: Notification },
    /// Report whether the extracted root holds a `bot.py` file.
    CheckLayout,
    /// Move the extracted root to `<bot root>/<target>`.
    Move { target: String },
    /// The bot is installed as `target`.
    Finished { target: String },
    /// The install stopped.
    Failed { stop: InstallStop },
}

/// The answer to the last action.
#[derive(Debug, Clone)]
pub enum InstallEvent {
    DestinationExists(bool),
    /// The release, or `None` when fetching it failed.
    Fetched(Option<Release>),
    Downloaded(bool),
    Extracted(bool),
    Layout { bot_py_is_file: bool },
    Moved(bool),
}

/// An install under way: what is installed, under which name, and how
/// far it got.
#[derive(Debug)]
pub struct InstallRun {
    pub repo: String,
    pub asset_glob: Option<String>,
    pub target: String,
    pub stage: InstallStage,
}

/// The sticky progress notice of installing `target`, replaced by each
/// later one.
pub open spec fn install_notice(n: Notification, target: Seq<char>, body: Seq<char>) -> bool {
    notice_is(n, NotifyLevel::Info, "Installing "@ + target, Some(body), true, Some("bot-install-"@ + target))
}

fn progress_notice(target: &str, body: &str) -> (n: Notification)
    ensures
        install_notice(n, target@, body@),
{
    let title = String::from_str("Installing ").concat(target);
    let id = install_notify_id(target);
    Notification::info(title.as_str()).body(body).sticky().id(id.as_str())
}

/// The asset an install downloads: with a glob, the one asset it matches;
/// without, the first `.zip` asset (see [`pick_asset`]).
pub open spec fn spec_picked(assets: Seq<Asset>, glob: Option<Seq<char>>) -> Option<Asset> {
    if assets.len() == 0 {
        None
    } else {
        match glob {
            None => match first_zip(assets) {
                Some(i) => Some(assets[i]),
                None => None,
            },
            Some(p) => if glob_compiles(p) && glob_hits(assets, p).len() == 1 {
                Some(glob_hits(assets, p)[0])
            } else {
                None
            },
        }
    }
}

/// `e` is the refusal [`pick_asset`] gives for `assets` and `glob`.
pub open spec fn pick_refusal(assets: Seq<Asset>, glob: Option<Seq<char>>, e: InstallError) -> bool {
    if assets.len() == 0 {
        e is NoAssets
    } else {
        match glob {
            None => e is NoZipAsset,
            Some(p) => if !glob_compiles(p) {
                e matches InstallError::BadGlob { pattern } && pattern@ == p
            } else {
                let hits = glob_hits(assets, p);
                if hits.len() == 0 {
                    e matches InstallError::NoGlobMatch { pattern } && pattern@ == p
                } else {
                    e matches InstallError::ManyGlobMatches { pattern, matched } && pattern@ == p && views(
                        matched@,
                    ) == asset_names(hits)
                }
            },
        }
    }
}

pub open spec fn opt_str(o: Option<String>) -> Option<Seq<char>> {
    match o {
        Some(s) => Some(s@),
        None => None,
    }
}

/// The stage after `ev` at `stage` (`glob` decides the asset choice): each
/// stage goes on to the next when its answer is good, and every failure,
/// and every answer out of turn, ends the install.
pub open spec fn install_stage_after(stage: InstallStage, ev: InstallEvent, glob: Option<Seq<char>>) -> InstallStage {
    match (stage, ev) {
        (InstallStage::CheckingDestination, InstallEvent::DestinationExists(false)) => InstallStage::FetchingRelease,
        (InstallStage::FetchingRelease, InstallEvent::Fetched(Some(rel))) => if spec_picked(rel.assets@, glob) is Some {
            InstallStage::Downloading
        } else {
            InstallStage::Done
        },
        (InstallStage::Downloading, InstallEvent::Downloaded(true)) => InstallStage::Extracting,
        (InstallStage::Extracting, InstallEvent::Extracted(true)) => InstallStage::CheckingLayout,
        (InstallStage::CheckingLayout, InstallEvent::Layout { bot_py_is_file: true }) => InstallStage::Moving,
        _ => InstallStage::Done,
    }
}

/// `a` is the action the install takes on `ev` at `stage` for `repo`,
/// `glob` and `target` (see [`install_stage_after`] for where it goes).
pub open spec fn install_action_ok(
    stage: InstallStage,
    ev: InstallEvent,
    repo: Seq<char>,
    glob: Option<Seq<char>>,
    target: Seq<char>,
    a: InstallAction,
) -> bool {
    match (stage, ev) {
        (InstallStage::CheckingDestination, InstallEvent::DestinationExists(exists)) => if exists {
            a matches InstallAction::Failed { stop: InstallStop::AlreadyExists { target: t } } && t@ == target
        } else {
            a matches InstallAction::FetchRelease { url, notice } && url@ == spec_release_api_url(repo)
                && install_notice(notice, target, "Fetching release metadata for "@ + repo)
        },
        (InstallStage::FetchingRelease, InstallEvent::Fetched(fetched)) => match fetched {
            None => a matches InstallAction::Failed { stop: InstallStop::StepFailed { stage: InstallStage::FetchingRelease } },
            Some(rel) => match spec_picked(rel.assets@, glob) {
                Some(asset) => a matches InstallAction::Download { url, notice } && url@ == asset.browser_download_url@
                    && install_notice(
                    notice,
                    target,
                    "Downloading "@ + asset.name@ + " ("@ + (match opt_str(rel.tag) {
                        Some(t) => t,
                        None => "latest"@,
                    }) + ")"@,
                ),
                None => a matches InstallAction::Failed { stop: InstallStop::Invalid { error } } && pick_refusal(
                    rel.assets@,
                    glob,
                    error,
                ),
            },
        },
        (InstallStage::Downloading, InstallEvent::Downloaded(ok)) => if ok {
            a matches InstallAction::Extract { notice } && install_notice(notice, target, "Extracting…"@)
        } else {
            a matches InstallAction::Failed { stop: InstallStop::StepFailed { stage: InstallStage::Downloading } }
        },
        (InstallStage::Extracting, InstallEvent::Extracted(ok)) => if ok {
            a is CheckLayout
        } else {
            a matches InstallAction::Failed { stop: InstallStop::StepFailed { stage: InstallStage::Extracting } }
        },
        (InstallStage::CheckingLayout, InstallEvent::Layout { bot_py_is_file }) => if bot_py_is_file {
            a matches InstallAction::Move { target: t } && t@ == target
        } else {
            a matches InstallAction::Failed { stop: InstallStop::Invalid { error: InstallError::MissingBotPy } }
        },
        (InstallStage::Moving, InstallEvent::Moved(ok)) => if ok {
            a matches InstallAction::Finished { target: t } && t@ == target
        } else {
            a matches InstallAction::Failed { stop: InstallStop::StepFailed { stage: InstallStage::Moving } }
        },
        _ => a matches InstallAction::Failed { stop: InstallStop::OutOfOrder },
    }
}

/// How many answers an install at `stage` can still take.
pub open spec fn install_rank(stage: InstallStage) -> int {
    match stage {
        InstallStage::CheckingDestination => 6,
        InstallStage::FetchingRelease => 5,
        InstallStage::Downloading => 4,
        InstallStage::Extracting => 3,
        InstallStage::CheckingLayout => 2,
        InstallStage::Moving => 1,
        InstallStage::Done => 0,
    }
}

/// Executable [`spec_picked`], with [`pick_refusal`] on failure.
fn pick_for_install(assets: &Vec<Asset>, glob: &Option<String>) -> (r: Result<Asset, InstallError>)
    ensures
        match spec_picked(assets@, opt_str(*glob)) {
            Some(a) => r matches Ok(x) && x == a,
            None => r matches Err(e) && pick_refusal(assets@, opt_str(*glob), e),
        },
{
    let g: Option<&str> = match glob {
        Some(p) => Some(p.as_str()),
        None => None,
    };
    match pick_asset(assets.as_slice(), g) {
        Ok(a) => Ok(Asset { name: a.name.clone(), browser_download_url: a.browser_download_url.clone() }),
        Err(e) => Err(e),
    }
}

impl InstallRun {
    /// Begin installing `spec`: the repository and the target name are
    /// checked first, then the destination is looked at.
    pub fn start(spec: &GithubInstallSpec) -> (r: (InstallRun, InstallAction))
        ensures
            r.0.repo == spec.repo,
            r.0.asset_glob == spec.asset_glob,
            r.0.target@ == match spec.name {
                Some(n) => n@,
                None => second_segment(spec.repo@),
            },
            !repo_form_ok(spec.repo@) ==> r.0.stage == InstallStage::Done && (r.1 matches InstallAction::Failed {
                stop: InstallStop::Invalid { error: InstallError::RepoForm { repo: x } },
            } && x@ == spec.repo@),
            repo_form_ok(spec.repo@) && !repo_chars_ok(spec.repo@) ==> r.0.stage == InstallStage::Done && (
            r.1 matches InstallAction::Failed {
                stop: InstallStop::Invalid { error: InstallError::RepoChars { repo: x } },
            } && x@ == spec.repo@),
            repo_form_ok(spec.repo@) && repo_chars_ok(spec.repo@) ==> {
                let t = r.0.target@;
                &&& target_name_invalid(t) ==> r.0.stage == InstallStage::Done && (r.1 matches InstallAction::Failed {
                    stop: InstallStop::Invalid { error: InstallError::TargetInvalid { name: x } },
                } && x@ == t)
                &&& !target_name_invalid(t) && target_name_has_separator(t) ==> r.0.stage == InstallStage::Done && (
                r.1 matches InstallAction::Failed {
                    stop: InstallStop::Invalid { error: InstallError::TargetSeparators { name: x } },
                } && x@ == t)
                &&& !target_name_invalid(t) && !target_name_has_separator(t) && t == "base"@ ==> r.0.stage
                    == InstallStage::Done && (r.1 matches InstallAction::Failed {
                    stop: InstallStop::Invalid { error: InstallError::TargetReserved { name: x } },
                } && x@ == t)
                &&& !target_name_invalid(t) && !target_name_has_separator(t) && t != "base"@ ==> r.0.stage
                    == InstallStage::CheckingDestination && (r.1 matches InstallAction::CheckDestination {
                    target: x,
                } && x@ == t)
            },
    {
        let target = spec.target_name();
        let mut run = InstallRun {
            repo: spec.repo.clone(),
            asset_glob: spec.asset_glob.clone(),
            target,
            stage: InstallStage::Done,
        };
        if let Err(error) = validate_repo(spec.repo.as_str()) {
            return (run, InstallAction::Failed { stop: InstallStop::Invalid { error } });
        }
        if let Err(error) = validate_target_name(run.target.as_str()) {
            return (run, InstallAction::Failed { stop: InstallStop::Invalid { error } });
        }
        run.stage = InstallStage::CheckingDestination;
        let t = run.target.clone();
        (run, InstallAction::CheckDestination { target: t })
    }

    /// Take in the answer to the last action; see [`install_stage_after`]
    /// and [`install_action_ok`].
    pub fn on_event(&mut self, ev: InstallEvent) -> (r: InstallAction)
        ensures
            final(self).repo == old(self).repo,
            final(self).asset_glob == old(self).asset_glob,
            final(self).target == old(self).target,
            final(self).stage == install_stage_after(old(self).stage, ev, opt_str(old(self).asset_glob)),
            install_action_ok(
                old(self).stage,
                ev,
                old(self).repo@,
                opt_str(old(self).asset_glob),
                old(self).target@,
                r,
            ),
    {
        let stage = self.stage;
        self.stage = InstallStage::Done;
        match (stage, ev) {
            (InstallStage::CheckingDestination, InstallEvent::DestinationExists(exists)) => {
                if exists {
                    InstallAction::Failed { stop: InstallStop::AlreadyExists { target: self.target.clone() } }
                } else {
                    self.stage = InstallStage::FetchingRelease;
                    let body = String::from_str("Fetching release metadata for ").concat(self.repo.as_str());
                    InstallAction::FetchRelease {
                        url: release_api_url(self.repo.as_str()),
                        notice: progress_notice(self.target.as_str(), body.as_str()),
                    }
                }
            },
            (InstallStage::FetchingRelease, InstallEvent::Fetched(fetched)) => match fetched {
                None => InstallAction::Failed { stop: InstallStop::StepFailed { stage: InstallStage::FetchingRelease } },
                Some(rel) => match pick_for_install(&rel.assets, &self.asset_glob) {
                    Ok(asset) => {
                        self.stage = InstallStage::Downloading;
                        let tag: Option<&str> = match &rel.tag {
                            Some(t) => Some(t.as_str()),
                            None => None,
                        };
                        let body = download_note(asset.name.as_str(), tag);
                        InstallAction::Download {
                            url: asset.browser_download_url.clone(),
                            notice: progress_notice(self.target.as_str(), body.as_str()),
                        }
                    },
                    Err(error) => InstallAction::Failed { stop: InstallStop::Invalid { error } },
                },
            },
            (InstallStage::Downloading, InstallEvent::Downloaded(ok)) => {
                if ok {
                    self.stage = InstallStage::Extracting;
                    InstallAction::Extract { notice: progress_notice(self.target.as_str(), "Extracting…") }
                } else {
                    InstallAction::Failed { stop: InstallStop::StepFailed { stage: InstallStage::Downloading } }
                }
            },
            (InstallStage::Extracting, InstallEvent::Extracted(ok)) => {
                if ok {
                    self.stage = InstallStage::CheckingLayout;
                    InstallAction::CheckLayout
                } else {
                    InstallAction::Failed { stop: InstallStop::StepFailed { stage: InstallStage::Extracting } }
                }
            },
            (InstallStage::CheckingLayout, InstallEvent::Layout { bot_py_is_file }) => {
                match validate_layout(bot_py_is_file) {
                    Ok(()) => {
                        self.stage = InstallStage::Moving;
                        InstallAction::Move { target: self.target.clone() }
                    },
                    Err(error) => InstallAction::Failed { stop: InstallStop::Invalid { error } },
                }
            },
            (InstallStage::Moving, InstallEvent::Moved(ok)) => {
                if ok {
                    InstallAction::Finished { target: self.target.clone() }
                } else {
                    InstallAction::Failed { stop: InstallStop::StepFailed { stage: InstallStage::Moving } }
                }
            },
            _ => InstallAction::Failed { stop: InstallStop::OutOfOrder },
        }
    }
}

/// The install runs in order and ends: every answer moves it to a later
/// stage or ends it, so it takes at most six answers; it fetches the
/// release only after finding the destination free, downloads only an
/// asset chosen from the fetched release, and moves the extracted tree
/// into place only after it was found to hold `bot.py`.
pub proof fn lemma_install_order(stage: InstallStage, ev: InstallEvent, glob: Option<Seq<char>>)
    requires
        stage != InstallStage::Done,
    ensures
        install_rank(install_stage_after(stage, ev, glob)) < install_rank(stage),
        install_stage_after(stage, ev, glob) == InstallStage::FetchingRelease ==> stage == InstallStage::CheckingDestination
            && ev == InstallEvent::DestinationExists(false),
        install_stage_after(stage, ev, glob) == InstallStage::Downloading ==> stage == InstallStage::FetchingRelease
            && (ev matches InstallEvent::Fetched(Some(rel)) && spec_picked(rel.assets@, glob) is Some),
        install_stage_after(stage, ev, glob) == InstallStage::Moving ==> stage == InstallStage::CheckingLayout
            && ev == (InstallEvent::Layout { bot_py_is_file: true }),
{
}

// ---------------------------------------------------------------------------
// Deleting an installed bot
// ---------------------------------------------------------------------------

/// Why a bot directory is not deleted.
#[derive(Debug, Clone, PartialEq, Eq)]
pub enum DeleteRefusal {
    /// The bot is active for four or three players; another must be chosen
    /// first.
    ActiveBot { name: String },
    /// Empty, or holds a path separator or a parent-directory step.
    InvalidName { name: String },
    /// No such directory under the bot root.
    NotFound { name: String },
    /// The directory resolves outside the bot root.
    Outside { name: String },
}

/// The refusal for deleting `name` before the file system is consulted:
/// an active bot first, then a name that could leave the bot root.
pub open spec fn spec_deletion_refusal(name: Seq<char>, active_4p: Seq<char>, active_3p: Seq<char>) -> Option<int> {
    if name == active_4p || name == active_3p {
        Some(0)
    } else if name.len() == 0 || target_name_has_separator(name) {
        Some(1)
    } else {
        None
    }
}

/// Check `name` before deleting its directory: an active bot (4p or 3p)
/// and a name that is empty or could step out of the bot root are
/// refused.
pub fn check_bot_deletion(name: &str, active_4p: &str, active_3p: &str) -> (r: Result<(), DeleteRefusal>)
    ensures
        match spec_deletion_refusal(name@, active_4p@, active_3p@) {
            None => r is Ok,
            Some(k) => if k == 0 {
                r matches Err(DeleteRefusal::ActiveBot { name: x }) && x@ == name@
            } else {
                r matches Err(DeleteRefusal::InvalidName { name: x }) && x@ == name@
            },
        },
{
    if same_tile(name, active_4p) || same_tile(name, active_3p) {
        return Err(DeleteRefusal::ActiveBot { name: String::from_str(name) });
    }
    if name.unicode_len() == 0 || scan_separators(name) {
        return Err(DeleteRefusal::InvalidName { name: String::from_str(name) });
    }
    Ok(())
}

/// Canonical path `target` lies in canonical directory `root`,
/// component-wise: it is `root`, or continues it after a separator.
pub open spec fn path_within(root: Seq<char>, target: Seq<char>) -> bool {
    target == root || (root.len() <= target.len() && target.take(root.len() as int) == root && (
    (root.len() > 0 && root.last() == '/') || (root.len() < target.len() && target[root.len() as int] == '/')))
}

/// Executable [`path_within`].
pub fn is_within(root: &str, target: &str) -> (r: bool)
    ensures
        r == path_within(root@, target@),
{
    if same_tile(root, target) {
        return true;
    }
    if !starts_with(target, root) {
        return false;
    }
    let n = root.unicode_len();
    let m = target.unicode_len();
    (n > 0 && root.get_char(n - 1) == '/') || (n < m && target.get_char(n) == '/')
}

} // verus!
