//! Python interpreter + `uv` runtime for bots: where the bundled binaries
//! live, which runtime is used, where a bot's venv interpreter is, and when
//! a bot's venv must be re-synced. Probing the file system and running
//! `uv` are the caller's job.
use vstd::prelude::*;
use crate::util::{decimal, decimal_text, join, join_path, lemma_decimal_text, lemma_decimal_text_injective, lemma_split_after_digits};
use crate::tile::digit_char;

verus! {

/// Origin of the python + uv binaries this runtime points at.
#[derive(Debug, Clone, Copy, PartialEq, Eq)]
pub enum RuntimeMode {
    /// Bundled python-build-standalone + uv from the resource dir.
    Bundled,
    /// `python3` + `uv` discovered on `PATH`. Dev-mode fallback.
    System,
}

/// The interpreter that seeds venvs and the `uv` binary.
#[derive(Debug, Clone)]
pub struct PythonRuntime {
    python: String,
    uv: String,
    mode: RuntimeMode,
}

impl PythonRuntime {
    pub closed spec fn python_path(&self) -> Seq<char> {
        self.python@
    }

    pub closed spec fn uv_path(&self) -> Seq<char> {
        self.uv@
    }

    pub closed spec fn runtime_mode(&self) -> RuntimeMode {
        self.mode
    }

    /// Direct construction.
    pub fn from_paths(python: String, uv: String, mode: RuntimeMode) -> (r: Self)
        ensures
            r.python_path() == python@,
            r.uv_path() == uv@,
            r.runtime_mode() == mode,
    {
        PythonRuntime { python, uv, mode }
    }

    /// Prefer the bundled runtime; fall back to `python3`/`python` and
    /// `uv` found on `PATH`.
    pub fn locate(
        bundled: Option<PythonRuntime>,
        system_python: Option<String>,
        system_uv: Option<String>,
    ) -> (r: Result<PythonRuntime, RuntimeError>)
        ensures
            bundled is Some ==> r == Ok::<PythonRuntime, RuntimeError>(bundled.unwrap()),
            bundled is None && system_python is Some && system_uv is Some ==> (r matches Ok(rt)
                && rt.python_path() == system_python.unwrap()@ && rt.uv_path()
                == system_uv.unwrap()@ && rt.runtime_mode() == RuntimeMode::System),
            bundled is None && (system_python is None || system_uv is None) ==> r matches Err(
                RuntimeError::NoRuntime,
            ),
    {
        if let Some(rt) = bundled {
            return Ok(rt);
        }
        match (system_python, system_uv) {
            (Some(python), Some(uv)) => Ok(PythonRuntime::from_paths(python, uv, RuntimeMode::System)),
            _ => Err(RuntimeError::NoRuntime),
        }
    }

    pub fn python(&self) -> (r: &str)
        ensures
            r@ == self.python_path(),
    {
        self.python.as_str()
    }

    pub fn uv(&self) -> (r: &str)
        ensures
            r@ == self.uv_path(),
    {
        self.uv.as_str()
    }

    pub fn mode(&self) -> (r: RuntimeMode)
        ensures
            r == self.runtime_mode(),
    {
        self.mode
    }
}

/// Why no runtime or venv is available.
#[derive(Debug, Clone, PartialEq, Eq)]
pub enum RuntimeError {
    /// No bundled runtime and no `python3`/`uv` on `PATH`.
    NoRuntime,
    /// The bot directory has no `pyproject.toml`.
    PyprojectMissing { bot_dir: String },
}

pub open spec fn runtime_error_text(e: RuntimeError) -> Seq<char> {
    match e {
        RuntimeError::NoRuntime => "no bundled runtime found and neither `python3` nor `uv` is on PATH"@,
        RuntimeError::PyprojectMissing { bot_dir } => "pyproject.toml missing in "@ + bot_dir@
            + " — every Akagi bot must declare its deps"@,
    }
}

impl RuntimeError {
    /// Human-readable description of the error.
    pub fn message(&self) -> (r: String)
        ensures
            r@ == runtime_error_text(*self),
    {
        match self {
            RuntimeError::NoRuntime => String::from_str(
                "no bundled runtime found and neither `python3` nor `uv` is on PATH",
            ),
            RuntimeError::PyprojectMissing { bot_dir } => String::from_str(
                "pyproject.toml missing in ",
            ).concat(bot_dir.as_str()).concat(" — every Akagi bot must declare its deps"),
        }
    }
}

/// Paths of the bundled interpreter and `uv` under `resource_dir` for the
/// build target `triple`:
/// `<rd>/runtime/python/<triple>/{python.exe | bin/python3}` and
/// `<rd>/runtime/uv/<triple>/{uv.exe | uv}`.
pub fn bundled_paths(resource_dir: &str, triple: &str, windows: bool) -> (r: (String, String))
    ensures
        r.0@ == join_path(
            join_path(join_path(join_path(resource_dir@, "runtime"@), "python"@), triple@),
            if windows {
                "python.exe"@
            } else {
                "bin/python3"@
            },
        ),
        r.1@ == join_path(
            join_path(join_path(join_path(resource_dir@, "runtime"@), "uv"@), triple@),
            if windows {
                "uv.exe"@
            } else {
                "uv"@
            },
        ),
{
    let rt = join(resource_dir, "runtime");
    let py_dir = join(join(rt.as_str(), "python").as_str(), triple);
    let py = if windows {
        join(py_dir.as_str(), "python.exe")
    } else {
        join(py_dir.as_str(), "bin/python3")
    };
    let uv_dir = join(join(rt.as_str(), "uv").as_str(), triple);
    let uv = if windows {
        join(uv_dir.as_str(), "uv.exe")
    } else {
        join(uv_dir.as_str(), "uv")
    };
    (py, uv)
}

/// The bundled runtime, when both of its binaries are files.
pub fn try_bundled(paths: (String, String), python_is_file: bool, uv_is_file: bool) -> (r: Option<
    PythonRuntime,
>)
    ensures
        python_is_file && uv_is_file ==> (r matches Some(rt) && rt.python_path() == paths.0@
            && rt.uv_path() == paths.1@ && rt.runtime_mode() == RuntimeMode::Bundled),
        !(python_is_file && uv_is_file) ==> r is None,
{
    if python_is_file && uv_is_file {
        Some(PythonRuntime::from_paths(paths.0, paths.1, RuntimeMode::Bundled))
    } else {
        None
    }
}

/// A bot's venv: `<bot_dir>/.akagi/venv`.
pub fn bot_venv_dir(bot_dir: &str) -> (r: String)
    ensures
        r@ == join_path(join_path(bot_dir@, ".akagi"@), "venv"@),
{
    join(join(bot_dir, ".akagi").as_str(), "venv")
}

/// The sync stamp of a bot's venv: `<bot_dir>/.akagi/synced.stamp`.
pub fn bot_stamp_path(bot_dir: &str) -> (r: String)
    ensures
        r@ == join_path(join_path(bot_dir@, ".akagi"@), "synced.stamp"@),
{
    join(join(bot_dir, ".akagi").as_str(), "synced.stamp")
}

/// The interpreter inside a venv: `Scripts/python.exe` on Windows,
/// `bin/python` elsewhere.
pub fn venv_python(venv: &str, windows: bool) -> (r: String)
    ensures
        r@ == if windows {
            join_path(join_path(venv@, "Scripts"@), "python.exe"@)
        } else {
            join_path(join_path(venv@, "bin"@), "python"@)
        },
{
    if windows {
        join(join(venv, "Scripts").as_str(), "python.exe")
    } else {
        join(join(venv, "bin").as_str(), "python")
    }
}

/// `mtime:size` of a file.
pub open spec fn meta_text(meta: (u64, u64)) -> Seq<char> {
    decimal_text(meta.0 as nat) + seq![':'] + decimal_text(meta.1 as nat)
}

/// Sync signature of a bot: `v1|<pyproject mtime:size>|<uv.lock mtime:size>`,
/// with `0:0` when there is no lock file.
pub open spec fn signature_text(pyproject: (u64, u64), lock: Option<(u64, u64)>) -> Seq<char> {
    seq!['v', '1', '|'] + meta_text(pyproject) + seq!['|'] + match lock {
        Some(l) => meta_text(l),
        None => seq!['0', ':', '0'],
    }
}

fn meta_string(meta: (u64, u64)) -> (r: String)
    ensures
        r@ == meta_text(meta),
{
    proof { reveal_strlit(":"); }
    let r = decimal(meta.0).concat(":").concat(decimal(meta.1).as_str());
    assert(r@ =~= meta_text(meta));
    r
}

/// Signature of the on-disk state a venv was synced from, given the
/// (mtime seconds, size) of `pyproject.toml` and of `uv.lock` if present.
pub fn current_signature(pyproject: (u64, u64), lock: Option<(u64, u64)>) -> (r: String)
    ensures
        r@ == signature_text(pyproject, lock),
{
    proof {
        reveal_strlit("v1|");
        reveal_strlit("|");
        reveal_strlit("0:0");
    }
    let lock_part = match lock {
        Some(l) => meta_string(l),
        None => String::from_str("0:0"),
    };
    let r = String::from_str("v1|").concat(meta_string(pyproject).as_str()).concat("|").concat(
        lock_part.as_str(),
    );
    assert(r@ =~= signature_text(pyproject, lock));
    r
}

proof fn lemma_meta_text_injective(m1: (u64, u64), m2: (u64, u64))
    requires
        meta_text(m1) == meta_text(m2),
    ensures
        m1 == m2,
{
    lemma_decimal_text(m1.0 as nat);
    lemma_decimal_text(m2.0 as nat);
    lemma_split_after_digits(
        decimal_text(m1.0 as nat),
        decimal_text(m2.0 as nat),
        decimal_text(m1.1 as nat),
        decimal_text(m2.1 as nat),
        ':',
    );
    lemma_decimal_text_injective(m1.0 as nat, m2.0 as nat);
    lemma_decimal_text_injective(m1.1 as nat, m2.1 as nat);
}

proof fn lemma_meta_prefix(m1: (u64, u64), m2: (u64, u64), x: Seq<char>, y: Seq<char>)
    requires
        meta_text(m1) + seq!['|'] + x == meta_text(m2) + seq!['|'] + y,
    ensures
        m1 == m2,
        x == y,
{
    let d1 = decimal_text(m1.0 as nat);
    let d2 = decimal_text(m2.0 as nat);
    let e1 = decimal_text(m1.1 as nat);
    let e2 = decimal_text(m2.1 as nat);
    lemma_decimal_text(m1.0 as nat);
    lemma_decimal_text(m2.0 as nat);
    lemma_decimal_text(m1.1 as nat);
    lemma_decimal_text(m2.1 as nat);
    assert(meta_text(m1) + seq!['|'] + x =~= d1 + seq![':'] + (e1 + seq!['|'] + x));
    assert(meta_text(m2) + seq!['|'] + y =~= d2 + seq![':'] + (e2 + seq!['|'] + y));
    lemma_split_after_digits(d1, d2, e1 + seq!['|'] + x, e2 + seq!['|'] + y, ':');
    lemma_split_after_digits(e1, e2, x, y, '|');
    lemma_decimal_text_injective(m1.0 as nat, m2.0 as nat);
    lemma_decimal_text_injective(m1.1 as nat, m2.1 as nat);
}

/// The lock part of a signature: an absent lock file reads like one with
/// modification time and size zero.
pub open spec fn lock_meta(lock: Option<(u64, u64)>) -> (u64, u64) {
    match lock {
        Some(l) => l,
        None => (0, 0),
    }
}

/// Equal signatures come from the same `pyproject.toml` metadata and the
/// same lock metadata (an absent lock counting as `0:0`): editing either
/// file so that its time or size changes changes the signature.
pub proof fn lemma_signature_injective(p1: (u64, u64), l1: Option<(u64, u64)>, p2: (u64, u64), l2: Option<(u64, u64)>)
    requires
        signature_text(p1, l1) == signature_text(p2, l2),
    ensures
        p1 == p2,
        lock_meta(l1) == lock_meta(l2),
{
    assert(meta_text((0, 0)) =~= seq!['0', ':', '0']);
    let a = meta_text(p1) + seq!['|'] + meta_text(lock_meta(l1));
    let b = meta_text(p2) + seq!['|'] + meta_text(lock_meta(l2));
    assert(signature_text(p1, l1) =~= seq!['v', '1', '|'] + a);
    assert(signature_text(p2, l2) =~= seq!['v', '1', '|'] + b);
    assert(a =~= signature_text(p1, l1).skip(3));
    assert(b =~= signature_text(p2, l2).skip(3));
    lemma_meta_prefix(p1, p2, meta_text(lock_meta(l1)), meta_text(lock_meta(l2)));
    lemma_meta_text_injective(lock_meta(l1), lock_meta(l2));
}

/// Unicode's `White_Space` property, the white space `str::trim` removes:
/// U+0009..U+000D, U+0020, U+0085, U+00A0, U+1680, U+2000..U+200A,
/// U+2028, U+2029, U+202F, U+205F and U+3000.
pub open spec fn white_space(c: char) -> bool {
    let u = c as u32;
    (0x9 <= u && u <= 0xD) || u == 0x20 || u == 0x85 || u == 0xA0 || u == 0x1680 || (0x2000 <= u && u <= 0x200A)
        || u == 0x2028 || u == 0x2029 || u == 0x202F || u == 0x205F || u == 0x3000
}

/// How many white-space characters `s` starts with.
pub open spec fn leading_white(s: Seq<char>) -> nat
    decreases s.len(),
{
    if s.len() > 0 && white_space(s[0]) {
        1 + leading_white(s.drop_first())
    } else {
        0
    }
}

/// How many white-space characters `s` ends with.
pub open spec fn trailing_white(s: Seq<char>) -> nat
    decreases s.len(),
{
    if s.len() > 0 && white_space(s.last()) {
        1 + trailing_white(s.drop_last())
    } else {
        0
    }
}

/// What `str::trim` leaves of `s`: `s` without its leading and trailing
/// white space.
pub open spec fn trimmed(s: Seq<char>) -> Seq<char> {
    let a = s.skip(leading_white(s) as int);
    a.take(a.len() - trailing_white(a))
}

/// A printable ASCII character other than space; never white space.
pub open spec fn ascii_graphic(c: char) -> bool {
    '!' <= c && c <= '~'
}

/// `s` starts and ends with a printable ASCII character other than space.
pub open spec fn graphic_ends(s: Seq<char>) -> bool {
    s.len() > 0 && ascii_graphic(s[0]) && ascii_graphic(s.last())
}

/// Calls `str::trim`. Claimed, as its documentation says: the result is
/// the input without leading and trailing white space, white space being
/// Unicode's `White_Space` property ([`trimmed`]); so a string that starts
/// and ends with printable ASCII comes back whole.
#[verifier::external_body]
fn trim(s: &str) -> (r: &str)
    ensures
        r@ == trimmed(s@),
{
    s.trim()
}

/// Trimming leaves a string that starts and ends with printable ASCII
/// as it is.
pub proof fn lemma_graphic_ends_trimmed(s: Seq<char>)
    requires
        graphic_ends(s),
    ensures
        trimmed(s) == s,
{
    assert(!white_space(s[0]));
    assert(leading_white(s) == 0);
    assert(s.skip(0) =~= s);
    assert(!white_space(s.last()));
    assert(trailing_white(s) == 0);
    assert(s.take(s.len() as int) =~= s);
}

/// A signature starts with `v` and ends with a digit, so trimming a saved
/// stamp that holds it gives it back.
pub proof fn lemma_signature_graphic_ends(pyproject: (u64, u64), lock: Option<(u64, u64)>)
    ensures
        graphic_ends(signature_text(pyproject, lock)),
{
    let sig = signature_text(pyproject, lock);
    assert(sig[0] == 'v');
    let tail = match lock {
        Some(m) => meta_text(m),
        None => seq!['0', ':', '0'],
    };
    assert(sig.last() == tail.last());
    match lock {
        Some(m) => {
            let d = decimal_text(m.1 as nat);
            assert(tail.last() == d.last());
            if (m.1 as nat) < 10 {
                assert(d.last() == digit_char(m.1 as int));
            } else {
                assert(d.last() == digit_char(((m.1 as nat) % 10) as int));
            }
        },
        None => {},
    }
}

/// Whether a bot's venv must be (re-)synced: an error when the bot has no
/// `pyproject.toml`; no sync when the venv exists and the saved stamp,
/// trimmed, equals the current signature; a sync otherwise.
pub fn needs_sync(
    bot_dir: &str,
    pyproject_is_file: bool,
    venv_is_dir: bool,
    saved_stamp: Option<&str>,
    current: &str,
) -> (r: Result<bool, RuntimeError>)
    ensures
        !pyproject_is_file ==> (r matches Err(RuntimeError::PyprojectMissing { bot_dir: d })
            && d@ == bot_dir@),
        pyproject_is_file ==> r == Ok::<bool, RuntimeError>(
            !(venv_is_dir && (saved_stamp matches Some(s) && trimmed(s@) == current@)),
        ),
        pyproject_is_file && venv_is_dir && (saved_stamp matches Some(s) && s@ == current@)
            && graphic_ends(current@) ==> r == Ok::<bool, RuntimeError>(false),
{
    if !pyproject_is_file {
        return Err(RuntimeError::PyprojectMissing { bot_dir: String::from_str(bot_dir) });
    }
    if venv_is_dir {
        if let Some(s) = saved_stamp {
            let t = trim(s);
            proof {
                if graphic_ends(s@) {
                    lemma_graphic_ends_trimmed(s@);
                }
            }
            if crate::tile::same_tile(t, current) {
                return Ok(false);
            }
        }
    }
    Ok(true)
}

} // verus!
