//! Application configuration sections and their defaults. Reading and
//! writing the configuration file is the caller's job.
use vstd::prelude::*;
use crate::history;
use crate::util::{join, join_path};
use crate::json::str_eq;

verus! {

/// Game platform whose traffic is intercepted; selects the bridge.
#[derive(Debug, Clone, Copy, PartialEq, Eq, Structural)]
pub enum Platform {
    Majsoul,
    Tenhou,
}

impl Default for Platform {
    fn default() -> (r: Self)
        ensures
            r == Platform::Majsoul,
    {
        Platform::Majsoul
    }
}

impl Platform {
    /// Short name used as a subdirectory of a log session.
    pub fn subdir(self) -> (r: &'static str)
        ensures
            r@ == match self {
                Platform::Majsoul => "majsoul"@,
                Platform::Tenhou => "tenhou"@,
            },
    {
        match self {
            Platform::Majsoul => "majsoul",
            Platform::Tenhou => "tenhou",
        }
    }
}

/// The history tag of a bridge selector.
pub open spec fn history_platform(p: Platform) -> history::Platform {
    match p {
        Platform::Majsoul => history::Platform::Majsoul,
        Platform::Tenhou => history::Platform::Tenhou,
    }
}

impl From<Platform> for history::Platform {
    fn from(p: Platform) -> (r: Self) {
        match p {
            Platform::Majsoul => history::Platform::Majsoul,
            Platform::Tenhou => history::Platform::Tenhou,
        }
    }
}

impl vstd::std_specs::convert::FromSpecImpl<Platform> for history::Platform {
    open spec fn obeys_from_spec() -> bool {
        true
    }

    open spec fn from_spec(p: Platform) -> history::Platform {
        history_platform(p)
    }
}

/// Which platform the capture uses.
#[derive(Debug, Clone, PartialEq, Eq)]
pub struct PlatformConfig {
    pub kind: Platform,
}

impl Default for PlatformConfig {
    fn default() -> (r: Self)
        ensures
            r.kind == Platform::Majsoul,
    {
        PlatformConfig { kind: Platform::Majsoul }
    }
}

/// General settings.
#[derive(Debug, Clone, PartialEq, Eq)]
pub struct GeneralConfig {
    pub language: String,
    /// Set once the first-run setup wizard has finished.
    pub first_run_completed: bool,
}

impl Default for GeneralConfig {
    fn default() -> (r: Self)
        ensures
            r.language@ == "en"@,
            !r.first_run_completed,
    {
        GeneralConfig { language: String::from_str("en"), first_run_completed: false }
    }
}

/// MITM proxy settings.
#[derive(Debug, Clone, PartialEq, Eq)]
pub struct ProxyConfig {
    pub enabled: bool,
    pub addr: String,
    pub ca_dir: String,
}

impl Default for ProxyConfig {
    fn default() -> (r: Self)
        ensures
            r.enabled,
            r.addr@ == "127.0.0.1:23410"@,
            r.ca_dir@ == "./ca"@,
    {
        ProxyConfig {
            enabled: true,
            addr: String::from_str("127.0.0.1:23410"),
            ca_dir: String::from_str("./ca"),
        }
    }
}

/// Bot settings.
#[derive(Debug, Clone, PartialEq, Eq)]
pub struct BotConfig {
    /// Master switch for running a bot.
    pub enabled: bool,
    /// Active bot for 4-player games (a subdirectory of `dir`).
    pub active_4p: String,
    /// Active bot for 3-player games; empty means none.
    pub active_3p: String,
    /// Legacy single `active` key, migrated into `active_4p`.
    pub active: String,
    /// Run `uv sync` before spawning the bot.
    pub auto_sync: bool,
    /// Root directory containing one subdirectory per bot.
    pub dir: String,
}

impl Default for BotConfig {
    fn default() -> (r: Self)
        ensures
            !r.enabled,
            r.active_4p@ == "example"@,
            r.active_3p@ == Seq::<char>::empty(),
            r.active@ == Seq::<char>::empty(),
            r.auto_sync,
            r.dir@ == "mjai_bot"@,
    {
        BotConfig {
            enabled: false,
            active_4p: String::from_str("example"),
            active_3p: String::new(),
            active: String::new(),
            auto_sync: true,
            dir: String::from_str("mjai_bot"),
        }
    }
}

/// The configured active bot for a player count: 3 selects the sanma
/// bot, any other count the yonma bot.
pub open spec fn spec_active_for(c: BotConfig, num_players: u8) -> Seq<char> {
    if num_players == 3 {
        c.active_3p@
    } else {
        c.active_4p@
    }
}

/// The configuration after moving a legacy `active` value into
/// `active_4p`. Only a pre-3p configuration file carries the legacy key
/// (it is never written back), so a non-empty legacy value replaces
/// whatever `active_4p` holds, the default included; the legacy field
/// ends up empty either way.
pub open spec fn spec_migrated(c: BotConfig) -> (Seq<char>, Seq<char>, Seq<char>) {
    if c.active@.len() > 0 {
        (c.active@, c.active_3p@, Seq::empty())
    } else {
        (c.active_4p@, c.active_3p@, Seq::empty())
    }
}

impl BotConfig {
    /// Pick the active bot name for the given player count.
    pub fn active_for(&self, num_players: u8) -> (r: &str)
        ensures
            r@ == spec_active_for(*self, num_players),
    {
        if num_players == 3 {
            self.active_3p.as_str()
        } else {
            self.active_4p.as_str()
        }
    }

    /// Move a legacy `active` value into `active_4p`, as a pre-3p
    /// configuration file is migrated on load; the legacy field is emptied.
    pub fn migrate_legacy_active(&mut self)
        ensures
            (final(self).active_4p@, final(self).active_3p@, final(self).active@) == spec_migrated(
                *old(self),
            ),
            final(self).enabled == old(self).enabled,
            final(self).auto_sync == old(self).auto_sync,
            final(self).dir == old(self).dir,
    {
        let active_len = self.active.as_str().unicode_len();
        if active_len > 0 {
            self.active_4p = self.active.clone();
            self.active = String::new();
        } else {
            self.active = String::new();
        }
    }
}

/// Migrating twice is migrating once.
pub proof fn lemma_migrate_idempotent(c: BotConfig, d: BotConfig)
    requires
        (d.active_4p@, d.active_3p@, d.active@) == spec_migrated(c),
    ensures
        spec_migrated(d) == spec_migrated(c),
{
}

/// After migration the legacy field is empty, the yonma bot is the legacy
/// value whenever one was present (else it is kept), and the sanma bot is
/// untouched.
pub proof fn lemma_migrate_outcome(c: BotConfig)
    ensures
        spec_migrated(c).2.len() == 0,
        spec_migrated(c).1 == c.active_3p@,
        spec_migrated(c).0 == if c.active@.len() > 0 {
            c.active@
        } else {
            c.active_4p@
        },
{
}

/// The whole application configuration.
#[derive(Debug, Clone, PartialEq, Eq)]
pub struct AppConfig {
    pub general: GeneralConfig,
    pub platform: PlatformConfig,
    pub proxy: ProxyConfig,
    pub bot: BotConfig,
}

impl Default for AppConfig {
    fn default() -> (r: Self)
        ensures
            r.general.language@ == "en"@,
            !r.general.first_run_completed,
            r.platform.kind == Platform::Majsoul,
            r.proxy.enabled,
            r.proxy.addr@ == "127.0.0.1:23410"@,
            r.proxy.ca_dir@ == "./ca"@,
            !r.bot.enabled,
            r.bot.active_4p@ == "example"@,
            r.bot.active_3p@ == Seq::<char>::empty(),
            r.bot.active@ == Seq::<char>::empty(),
            r.bot.auto_sync,
            r.bot.dir@ == "mjai_bot"@,
    {
        AppConfig {
            general: GeneralConfig::default(),
            platform: PlatformConfig::default(),
            proxy: ProxyConfig::default(),
            bot: BotConfig::default(),
        }
    }
}

// ---------------------------------------------------------------------------
// Choosing the active bot
// ---------------------------------------------------------------------------

/// A bot was chosen for a mode other than `4p` or `3p`.
#[derive(Debug, Clone, PartialEq, Eq)]
pub struct UnknownMode {
    pub mode: String,
}

impl BotConfig {
    /// Make `name` the active bot for `mode` (`"4p"` or `"3p"`); an empty
    /// name clears that mode's bot. Any other mode is refused and nothing
    /// changes.
    pub fn set_active(&mut self, mode: &str, name: String) -> (r: Result<(), UnknownMode>)
        ensures
            mode@ == "4p"@ ==> r is Ok && *final(self) == (BotConfig { active_4p: name, ..*old(self) }),
            mode@ == "3p"@ ==> r is Ok && *final(self) == (BotConfig { active_3p: name, ..*old(self) }),
            mode@ != "4p"@ && mode@ != "3p"@ ==> (r matches Err(e) && e.mode@ == mode@) && *final(self)
                == *old(self),
    {
        proof {
            reveal_strlit("4p");
            reveal_strlit("3p");
            assert("4p"@[0] != "3p"@[0]);
        }
        if str_eq(mode, "4p") {
            self.active_4p = name;
            Ok(())
        } else if str_eq(mode, "3p") {
            self.active_3p = name;
            Ok(())
        } else {
            Err(UnknownMode { mode: String::from_str(mode) })
        }
    }
}

/// The notice shown after choosing a bot: `<mode> bot cleared` for an
/// empty name, else `Active <mode> bot set to <name>`.
pub open spec fn spec_active_bot_label(mode: Seq<char>, name: Seq<char>) -> Seq<char> {
    if name.len() == 0 {
        mode + " bot cleared"@
    } else {
        "Active "@ + mode + " bot set to "@ + name
    }
}

/// Executable [`spec_active_bot_label`].
pub fn active_bot_label(mode: &str, name: &str) -> (r: String)
    ensures
        r@ == spec_active_bot_label(mode@, name@),
{
    if name.unicode_len() == 0 {
        String::from_str(mode).concat(" bot cleared")
    } else {
        String::from_str("Active ").concat(mode).concat(" bot set to ").concat(name)
    }
}

// ---------------------------------------------------------------------------
// Where the configuration file lives
// ---------------------------------------------------------------------------

/// Where the configuration file was found, or where a missing one will be
/// written.
#[derive(Debug, Clone, PartialEq, Eq)]
pub enum ConfigPath {
    Existing(String),
    Missing(String),
}

/// `<exe dir>/configs/config.toml`.
pub open spec fn spec_exe_config_candidate(exe_dir: Seq<char>) -> Seq<char> {
    join_path(join_path(exe_dir, "configs"@), "config.toml"@)
}

/// The configuration file next to the executable.
pub fn exe_config_candidate(exe_dir: &str) -> (r: String)
    ensures
        r@ == spec_exe_config_candidate(exe_dir@),
{
    let d = join(exe_dir, "configs");
    join(d.as_str(), "config.toml")
}

/// The configuration file looked for in the working directory.
pub fn cwd_config_candidate() -> (r: &'static str)
    ensures
        r@ == "configs.toml"@,
{
    "configs.toml"
}

/// The choice of configuration file: an explicit `cli_path` is taken as it
/// is, existing or not; otherwise the executable's `configs/config.toml`,
/// then `./configs.toml`, whichever exists first; when neither does, the
/// file to create is the executable's candidate, or `./configs.toml` when
/// the executable's directory is unknown.
pub open spec fn spec_config_path(
    cli_path: Option<Seq<char>>,
    cli_exists: bool,
    exe_dir: Option<Seq<char>>,
    exe_candidate_exists: bool,
    cwd_candidate_exists: bool,
) -> (bool, Seq<char>) {
    match cli_path {
        Some(p) => (cli_exists, p),
        None => if exe_dir is Some && exe_candidate_exists {
            (true, spec_exe_config_candidate(exe_dir.unwrap()))
        } else if cwd_candidate_exists {
            (true, "configs.toml"@)
        } else {
            match exe_dir {
                Some(d) => (false, spec_exe_config_candidate(d)),
                None => (false, "configs.toml"@),
            }
        },
    }
}

/// Decide which configuration file to load, given what the file system
/// answered: whether `cli_path` exists, the executable's directory, and
/// whether [`exe_config_candidate`] and [`cwd_config_candidate`] exist.
pub fn resolve_config_path(
    cli_path: Option<&str>,
    cli_exists: bool,
    exe_dir: Option<&str>,
    exe_candidate_exists: bool,
    cwd_candidate_exists: bool,
) -> (r: ConfigPath)
    ensures
        ({
            let (existing, path) = spec_config_path(
                match cli_path { Some(p) => Some(p@), None => None },
                cli_exists,
                match exe_dir { Some(d) => Some(d@), None => None },
                exe_candidate_exists,
                cwd_candidate_exists,
            );
            if existing {
                r matches ConfigPath::Existing(p) && p@ == path
            } else {
                r matches ConfigPath::Missing(p) && p@ == path
            }
        }),
{
    if let Some(p) = cli_path {
        if cli_exists {
            return ConfigPath::Existing(String::from_str(p));
        }
        return ConfigPath::Missing(String::from_str(p));
    }
    if let Some(d) = exe_dir {
        if exe_candidate_exists {
            return ConfigPath::Existing(exe_config_candidate(d));
        }
    }
    if cwd_candidate_exists {
        return ConfigPath::Existing(String::from_str(cwd_config_candidate()));
    }
    match exe_dir {
        Some(d) => ConfigPath::Missing(exe_config_candidate(d)),
        None => ConfigPath::Missing(String::from_str(cwd_config_candidate())),
    }
}

} // verus!
