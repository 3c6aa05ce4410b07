//! Payloads exchanged with the frontend: notifications, bot and proxy
//! status, discovered bots and the start-up snapshot.
use vstd::prelude::*;
use crate::config::AppConfig;

verus! {

/// Severity for a frontend toast / notification box.
#[derive(Debug, Clone, Copy, PartialEq, Eq, Structural)]
pub enum NotifyLevel {
    Info,
    Success,
    Warn,
    Error,
}

/// One frontend-facing notification.
#[derive(Debug, Clone, PartialEq, Eq)]
pub struct Notification {
    pub level: NotifyLevel,
    pub title: String,
    pub body: Option<String>,
    /// The frontend keeps a sticky toast until the user dismisses it.
    pub sticky: bool,
    /// Stable key: a toast with the same id replaces the previous one.
    pub id: Option<String>,
}

impl Notification {
    /// A fresh notification: the given level and title, no body, not
    /// sticky, no id.
    pub fn new(level: NotifyLevel, title: &str) -> (r: Self)
        ensures
            r.level == level,
            r.title@ == title@,
            r.body is None,
            !r.sticky,
            r.id is None,
    {
        Notification { level, title: String::from_str(title), body: None, sticky: false, id: None }
    }

    pub fn info(title: &str) -> (r: Self)
        ensures
            r.level == NotifyLevel::Info,
            r.title@ == title@,
            r.body is None,
            !r.sticky,
            r.id is None,
    {
        Self::new(NotifyLevel::Info, title)
    }

    pub fn success(title: &str) -> (r: Self)
        ensures
            r.level == NotifyLevel::Success,
            r.title@ == title@,
            r.body is None,
            !r.sticky,
            r.id is None,
    {
        Self::new(NotifyLevel::Success, title)
    }

    pub fn warn(title: &str) -> (r: Self)
        ensures
            r.level == NotifyLevel::Warn,
            r.title@ == title@,
            r.body is None,
            !r.sticky,
            r.id is None,
    {
        Self::new(NotifyLevel::Warn, title)
    }

    pub fn error(title: &str) -> (r: Self)
        ensures
            r.level == NotifyLevel::Error,
            r.title@ == title@,
            r.body is None,
            !r.sticky,
            r.id is None,
    {
        Self::new(NotifyLevel::Error, title)
    }

    /// Set the body; everything else is kept.
    pub fn body(self, body: &str) -> (r: Self)
        ensures
            r.body matches Some(b) && b@ == body@,
            r.level == self.level,
            r.title == self.title,
            r.sticky == self.sticky,
            r.id == self.id,
    {
        let mut n = self;
        n.body = Some(String::from_str(body));
        n
    }

    /// Make the notification sticky; everything else is kept.
    pub fn sticky(self) -> (r: Self)
        ensures
            r.sticky,
            r.level == self.level,
            r.title == self.title,
            r.body == self.body,
            r.id == self.id,
    {
        let mut n = self;
        n.sticky = true;
        n
    }

    /// Set the id; everything else is kept.
    pub fn id(self, id: &str) -> (r: Self)
        ensures
            r.id matches Some(i) && i@ == id@,
            r.level == self.level,
            r.title == self.title,
            r.body == self.body,
            r.sticky == self.sticky,
    {
        let mut n = self;
        n.id = Some(String::from_str(id));
        n
    }
}

/// Sub-stage of the slow first spawn of a bot.
#[derive(Debug, Clone, Copy, PartialEq, Eq, Structural)]
pub enum LoadStage {
    SyncingDeps,
    Spawning,
}

/// Lifecycle state of the active bot subprocess.
#[derive(Debug, Clone, PartialEq, Eq)]
pub enum BotStatus {
    /// No active bot.
    Idle,
    /// First-time install / spawn in progress.
    Loading { bot: String, stage: LoadStage },
    /// Subprocess up and reacting.
    Ready { bot: String, actor_id: u8 },
    /// Spawn or react failed; runner torn down.
    Error { bot: String, error: String },
    /// Game ended; awaiting the next start.
    Stopped { bot: String },
}

/// State of the MITM proxy.
#[derive(Debug, Clone, PartialEq, Eq)]
pub enum ProxyStatus {
    Stopped,
    Starting { addr: String },
    Running { addr: String },
    Error { addr: Option<String>, error: String },
}

/// One discovered bot.
#[derive(Debug, Clone, PartialEq, Eq)]
pub struct BotInfo {
    pub name: String,
    pub dir: String,
    pub has_pyproject: bool,
}

/// Everything the UI needs on start-up.
#[derive(Debug, Clone, PartialEq, Eq)]
pub struct Snapshot {
    pub config: AppConfig,
    pub bot_status: BotStatus,
    pub proxy_status: ProxyStatus,
    pub log_dir: String,
}

// ---------------------------------------------------------------------------
// Controlling the proxy
// ---------------------------------------------------------------------------

/// The proxy's control plane: its last reported status and whether a run
/// can still be told to stop.
#[derive(Debug, Clone, PartialEq, Eq)]
pub struct ProxyControl {
    pub status: ProxyStatus,
    /// A run is live and holds its stop trigger.
    pub running: bool,
}

/// Why a proxy command was refused.
#[derive(Debug, Clone, Copy, PartialEq, Eq)]
pub enum ProxyCommandError {
    AlreadyRunning,
    NotRunning,
}

impl ProxyCommandError {
    /// The text the command answers with.
    pub fn message(&self) -> (r: &'static str)
        ensures
            r@ == match *self {
                ProxyCommandError::AlreadyRunning => "proxy already running"@,
                ProxyCommandError::NotRunning => "proxy is not running"@,
            },
    {
        match self {
            ProxyCommandError::AlreadyRunning => "proxy already running",
            ProxyCommandError::NotRunning => "proxy is not running",
        }
    }
}

impl Default for ProxyControl {
    fn default() -> (r: Self)
        ensures
            r.status == ProxyStatus::Stopped,
            !r.running,
    {
        ProxyControl { status: ProxyStatus::Stopped, running: false }
    }
}

impl ProxyControl {
    /// Start a run on `addr`: refused while one is live; otherwise the
    /// proxy is reported running on `addr` straight away.
    pub fn start(&mut self, addr: &str) -> (r: Result<(), ProxyCommandError>)
        ensures
            old(self).running ==> r == Err::<(), ProxyCommandError>(ProxyCommandError::AlreadyRunning)
                && *final(self) == *old(self),
            !old(self).running ==> r is Ok && final(self).running
                && (final(self).status matches ProxyStatus::Running { addr: a } && a@ == addr@),
    {
        if self.running {
            return Err(ProxyCommandError::AlreadyRunning);
        }
        self.running = true;
        self.status = ProxyStatus::Running { addr: String::from_str(addr) };
        Ok(())
    }

    /// Ask the live run to stop (its stop trigger is used up); refused
    /// when none is live. The status changes when the run ends.
    pub fn stop(&mut self) -> (r: Result<(), ProxyCommandError>)
        ensures
            old(self).running ==> r is Ok,
            !old(self).running ==> r == Err::<(), ProxyCommandError>(ProxyCommandError::NotRunning),
            !final(self).running,
            final(self).status == old(self).status,
    {
        if !self.running {
            return Err(ProxyCommandError::NotRunning);
        }
        self.running = false;
        Ok(())
    }

    /// The run on `addr` ended, cleanly (`None`) or with the error text
    /// `error`: no run is live and the status says how it ended.
    pub fn finished(&mut self, addr: &str, error: Option<String>)
        ensures
            !final(self).running,
            match error {
                None => final(self).status == ProxyStatus::Stopped,
                Some(e) => final(self).status matches ProxyStatus::Error { addr: Some(a), error: x } && a@
                    == addr@ && x@ == e@,
            },
    {
        self.running = false;
        self.status = match error {
            None => ProxyStatus::Stopped,
            Some(e) => ProxyStatus::Error { addr: Some(String::from_str(addr)), error: e },
        };
    }
}

// ---------------------------------------------------------------------------
// Notices of the commands
// ---------------------------------------------------------------------------

/// `n` is a notice of `level` titled `title`, with body `body`, sticky or
/// not, and id `id`.
pub open spec fn notice_is(n: Notification, level: NotifyLevel, title: Seq<char>, body: Option<Seq<char>>, sticky: bool, id: Option<Seq<char>>) -> bool {
    &&& n.level == level
    &&& n.title@ == title
    &&& match body {
        Some(b) => n.body matches Some(x) && x@ == b,
        None => n.body is None,
    }
    &&& n.sticky == sticky
    &&& match id {
        Some(i) => n.id matches Some(x) && x@ == i,
        None => n.id is None,
    }
}

/// After the configuration was saved.
pub fn config_saved_notice() -> (n: Notification)
    ensures
        notice_is(n, NotifyLevel::Success, "Config saved"@, Some("Restart affected subsystems for changes to take effect."@), false, None),
{
    Notification::success("Config saved").body("Restart affected subsystems for changes to take effect.")
}

/// The id of the notices of re-syncing bot `name`.
pub open spec fn sync_notice_id(name: Seq<char>) -> Seq<char> {
    "bot-sync-"@ + name
}

/// While re-syncing the environment of bot `name`.
pub fn sync_started_notice(name: &str) -> (n: Notification)
    ensures
        notice_is(n, NotifyLevel::Info, "Syncing "@ + name@, Some("Rebuilding Python environment (uv sync)…"@), true, Some(sync_notice_id(name@))),
{
    let title = String::from_str("Syncing ").concat(name);
    let id = String::from_str("bot-sync-").concat(name);
    Notification::info(title.as_str()).body("Rebuilding Python environment (uv sync)…").sticky().id(id.as_str())
}

/// When re-syncing bot `name` ended, cleanly or with the error text
/// `failure`; it replaces the notice of [`sync_started_notice`].
pub fn sync_finished_notice(name: &str, failure: Option<&str>) -> (n: Notification)
    ensures
        match failure {
            None => notice_is(n, NotifyLevel::Success, name@ + " environment ready"@, None, false, Some(sync_notice_id(name@))),
            Some(e) => notice_is(n, NotifyLevel::Error, "Sync failed for "@ + name@, Some("uv sync failed: "@ + e@), false, Some(sync_notice_id(name@))),
        },
{
    let id = String::from_str("bot-sync-").concat(name);
    match failure {
        None => {
            let title = String::from_str(name).concat(" environment ready");
            Notification::success(title.as_str()).id(id.as_str())
        },
        Some(e) => {
            let title = String::from_str("Sync failed for ").concat(name);
            let body = String::from_str("uv sync failed: ").concat(e);
            Notification::error(title.as_str()).body(body.as_str()).id(id.as_str())
        },
    }
}

/// After bot `name` was deleted.
pub fn bot_deleted_notice(name: &str) -> (n: Notification)
    ensures
        notice_is(n, NotifyLevel::Success, "Deleted bot "@ + name@, None, false, None),
{
    let title = String::from_str("Deleted bot ").concat(name);
    Notification::success(title.as_str())
}

/// After the settings of bot `name` were saved.
pub fn settings_saved_notice(name: &str) -> (n: Notification)
    ensures
        notice_is(n, NotifyLevel::Success, name@ + " settings saved"@, None, false, None),
{
    let title = String::from_str(name).concat(" settings saved");
    Notification::success(title.as_str())
}

} // verus!
