//! When the bot is consulted: the events that close a batch and send it to
//! the bot for a reaction, and the manager that batches events for the
//! active bot, starts it at each game, and drops it when the game ends.
use vstd::prelude::*;
use crate::mjai::MjaiEvent;
use crate::ipc::{BotStatus, LoadStage, Notification, NotifyLevel, notice_is};

verus! {

/// Whether `e` may give the bot at seat `me` something to decide: its own
/// draw; another seat's discard or added kan (a call or ron window); its
/// own chi, pon or daiminkan (the discard after the call); and every round
/// or game boundary. Without a seat nothing is a decision point.
pub open spec fn spec_is_decision_point(actor_id: Option<u8>, e: MjaiEvent) -> bool {
    match actor_id {
        None => false,
        Some(me) => match e {
            MjaiEvent::Tsumo { actor, .. } => actor == me,
            MjaiEvent::Dahai { actor, .. } => actor != me,
            MjaiEvent::Kakan { actor, .. } => actor != me,
            MjaiEvent::Chi { actor, .. } => actor == me,
            MjaiEvent::Pon { actor, .. } => actor == me,
            MjaiEvent::Daiminkan { actor, .. } => actor == me,
            MjaiEvent::ReachAccepted { .. } => true,
            MjaiEvent::Hora { .. } => true,
            MjaiEvent::Ryukyoku { .. } => true,
            MjaiEvent::EndKyoku => true,
            MjaiEvent::EndGame => true,
            _ => false,
        },
    }
}

/// The bot is consulted whenever it may claim a tile someone else showed
/// or has a move of its own: a discard or an added kan by another seat is
/// a decision point (a call or ron window, a chankan for the added kan),
/// our own is not; our own draw is one, another seat's is not. So a tile
/// shown by one seat is a decision point for every other seat and never
/// for the seat that showed it.
pub proof fn lemma_claim_windows(me: u8, other: u8, e: MjaiEvent)
    requires
        me != other,
    ensures
        (e matches MjaiEvent::Kakan { actor, .. } ==> (spec_is_decision_point(Some(me), e) <==> actor != me)),
        (e matches MjaiEvent::Dahai { actor, .. } ==> (spec_is_decision_point(Some(me), e) <==> actor != me)),
        (e matches MjaiEvent::Tsumo { actor, .. } ==> (spec_is_decision_point(Some(me), e) <==> actor == me)),
        (e matches MjaiEvent::Kakan { actor, .. } && actor == other ==> spec_is_decision_point(Some(me), e)
            && !spec_is_decision_point(Some(other), e)),
        (e matches MjaiEvent::Dahai { actor, .. } && actor == other ==> spec_is_decision_point(Some(me), e)
            && !spec_is_decision_point(Some(other), e)),
        spec_is_decision_point(None, e) == false,
{
}

/// Conservative: every event that might be a decision point flushes the
/// pending batch; the bot answers `none` when it is not its turn.
pub fn is_decision_point(actor_id: Option<u8>, e: &MjaiEvent) -> (r: bool)
    ensures
        r == spec_is_decision_point(actor_id, *e),
{
    let me = match actor_id {
        Some(me) => me,
        None => {
            return false;
        },
    };
    match e {
        MjaiEvent::Tsumo { actor, .. } => *actor == me,
        MjaiEvent::Dahai { actor, .. } => *actor != me,
        MjaiEvent::Kakan { actor, .. } => *actor != me,
        MjaiEvent::Chi { actor, .. } => *actor == me,
        MjaiEvent::Pon { actor, .. } => *actor == me,
        MjaiEvent::Daiminkan { actor, .. } => *actor == me,
        MjaiEvent::ReachAccepted { .. } => true,
        MjaiEvent::Hora { .. } => true,
        MjaiEvent::Ryukyoku { .. } => true,
        MjaiEvent::EndKyoku => true,
        MjaiEvent::EndGame => true,
        _ => false,
    }
}

// ---------------------------------------------------------------------------
// Batching events for the active bot
// ---------------------------------------------------------------------------

/// What the caller does for the bot after an event.
#[derive(Debug)]
pub enum BotStep {
    /// Nothing to do.
    Nothing,
    /// No bot is configured for this table size: report the manager idle.
    ReportIdle,
    /// Start the named bot for `seat`, then report with
    /// [`BotBatcher::after_spawn`].
    Spawn { bot: String, seat: u8 },
    /// Send `batch` to the bot, stamp its answer with `trigger_seq`,
    /// publish it, then report with [`BotBatcher::after_react`].
    React { batch: Vec<MjaiEvent>, trigger_seq: u64 },
}

/// What follows the bot's reaction.
#[derive(Debug, Clone, PartialEq, Eq)]
pub enum ReactOutcome {
    /// The answer was published; the game goes on.
    Continue,
    /// The game ended: the bot was dropped; report it stopped.
    Stopped { bot: String },
    /// The bot failed to answer: it was dropped; report the error for it.
    Failed { bot: String },
}

/// The bot manager's bookkeeping: which bots are configured, whether one
/// is running, its seat, and the events seen since it last reacted.
#[derive(Debug)]
pub struct BotBatcher {
    /// Bot for four-player games; empty for none.
    pub active_4p: String,
    /// Bot for three-player games; empty for none.
    pub active_3p: String,
    /// Bot chosen for the game in progress.
    pub active_name: String,
    /// A bot process is up.
    pub has_runner: bool,
    /// Events since the last reaction.
    pub pending: Vec<MjaiEvent>,
    /// Events seen so far, saturating.
    pub event_seq: u64,
    /// The bot's seat in the game in progress.
    pub actor_id: Option<u8>,
    /// The `start_game` waiting for its bot to start.
    pub starting: Option<MjaiEvent>,
    /// The batch in flight was closed by `end_game`.
    pub react_ends_game: bool,
}

/// Count one more event, saturating.
pub open spec fn bump(seq: u64) -> u64 {
    if seq == u64::MAX { seq } else { (seq + 1) as u64 }
}

/// The bot configured for a table of `num_players`.
pub open spec fn chosen_bot(b: BotBatcher, num_players: u8) -> Seq<char> {
    if num_players == 3 { b.active_3p@ } else { b.active_4p@ }
}

/// The event `ev` delivered at count `seq` to a manager with bot process
/// `runner` up or not and `pending` events batched: without a bot nothing
/// changes; otherwise the event joins the batch, and a decision point
/// sends the whole batch. Either way the events sent plus those still
/// pending are `pending` plus `ev`, in order.
pub open spec fn fed(
    before: BotBatcher,
    runner: bool,
    pending: Seq<MjaiEvent>,
    ev: MjaiEvent,
    seq: u64,
    after: BotBatcher,
    r: BotStep,
) -> bool {
    &&& after.active_4p == before.active_4p && after.active_3p == before.active_3p
    &&& after.active_name == before.active_name && after.has_runner == runner
    &&& after.actor_id == before.actor_id
    &&& after.starting is None
    &&& if !runner {
        r is Nothing && after.pending@ == pending
    } else if !spec_is_decision_point(before.actor_id, ev) {
        r is Nothing && after.pending@ == pending.push(ev)
    } else {
        after.pending@.len() == 0 && after.react_ends_game == (ev is EndGame)
            && (r matches BotStep::React { batch, trigger_seq } && batch@ == pending.push(ev)
            && trigger_seq == seq)
    }
}

/// The events of the batches sent among `steps`, in order.
pub open spec fn sent_events(steps: Seq<BotStep>) -> Seq<MjaiEvent>
    decreases steps.len(),
{
    if steps.len() == 0 {
        Seq::empty()
    } else {
        sent_events(steps.drop_last()) + match steps.last() {
            BotStep::React { batch, .. } => batch@,
            _ => Seq::empty(),
        }
    }
}

/// While a bot is up, no event is lost or repeated: over any run of
/// events fed one after another, the batches sent followed by the events
/// still pending are the events pending at the start followed by the
/// events fed, in order.
pub proof fn lemma_batches_keep_the_stream(
    states: Seq<BotBatcher>,
    evs: Seq<MjaiEvent>,
    seqs: Seq<u64>,
    steps: Seq<BotStep>,
)
    requires
        states.len() == evs.len() + 1,
        seqs.len() == evs.len(),
        steps.len() == evs.len(),
        forall|i: int| 0 <= i < evs.len() ==> #[trigger] states[i].has_runner && fed(
            states[i],
            states[i].has_runner,
            states[i].pending@,
            evs[i],
            seqs[i],
            states[i + 1],
            steps[i],
        ),
    ensures
        sent_events(steps) + states.last().pending@ == states[0].pending@ + evs,
    decreases evs.len(),
{
    let n = evs.len();
    if n == 0 {
        assert(states[0].pending@ + evs =~= states[0].pending@);
        assert(sent_events(steps) + states.last().pending@ =~= states[0].pending@);
    } else {
        let k = n - 1;
        assert forall|i: int| 0 <= i < k implies #[trigger] states.drop_last()[i].has_runner && fed(
            states.drop_last()[i],
            states.drop_last()[i].has_runner,
            states.drop_last()[i].pending@,
            evs.drop_last()[i],
            seqs.drop_last()[i],
            states.drop_last()[i + 1],
            steps.drop_last()[i],
        ) by {
            assert(states[i].has_runner);
        }
        lemma_batches_keep_the_stream(states.drop_last(), evs.drop_last(), seqs.drop_last(), steps.drop_last());
        assert(states[k].has_runner);
        let before = states[k];
        let after = states[n as int];
        assert(states.drop_last().last() == before);
        assert(evs.drop_last().push(evs[k]) =~= evs);
        match steps[k] {
            BotStep::React { batch, .. } => {
                assert(sent_events(steps) == sent_events(steps.drop_last()) + batch@);
                assert(sent_events(steps) + after.pending@ =~= sent_events(steps.drop_last()) + before.pending@.push(evs[k]));
            },
            _ => {
                assert(sent_events(steps) == sent_events(steps.drop_last()) + Seq::<MjaiEvent>::empty());
                assert(sent_events(steps) + after.pending@ =~= sent_events(steps.drop_last()) + before.pending@.push(evs[k]));
            },
        }
        assert(states[0].pending@ + evs =~= (states[0].pending@ + evs.drop_last()).push(evs[k]));
    }
}

impl BotBatcher {
    /// A manager with the configured bots and nothing running; the
    /// four-player bot is the initial choice.
    pub fn new(active_4p: String, active_3p: String) -> (r: Self)
        ensures
            r.active_4p@ == active_4p@,
            r.active_3p@ == active_3p@,
            r.active_name@ == active_4p@,
            !r.has_runner,
            r.pending@.len() == 0,
            r.event_seq == 0,
            r.actor_id is None,
            r.starting is None,
    {
        let active_name = active_4p.clone();
        BotBatcher {
            active_4p,
            active_3p,
            active_name,
            has_runner: false,
            pending: Vec::new(),
            event_seq: 0,
            actor_id: None,
            starting: None,
            react_ends_game: false,
        }
    }

    fn feed(&mut self, ev: MjaiEvent, seq: u64) -> (r: BotStep)
        ensures
            fed(*old(self), old(self).has_runner, old(self).pending@, ev, seq, *final(self), r),
            final(self).event_seq == old(self).event_seq,
    {
        self.starting = None;
        if !self.has_runner {
            return BotStep::Nothing;
        }
        let decision = is_decision_point(self.actor_id, &ev);
        let is_end = match ev {
            MjaiEvent::EndGame => true,
            _ => false,
        };
        self.pending.push(ev);
        if !decision {
            return BotStep::Nothing;
        }
        let mut batch: Vec<MjaiEvent> = Vec::new();
        std::mem::swap(&mut batch, &mut self.pending);
        self.react_ends_game = is_end;
        BotStep::React { batch, trigger_seq: seq }
    }

    /// Take in one event. A `start_game` that names the bot's seat records
    /// the seat and asks to start the bot configured for `num_players`
    /// (the size of the table the game is played at), or, when none is,
    /// drops any running bot and its batch and reports the manager idle.
    /// Every other event is fed to the running bot, if any.
    pub fn on_event(&mut self, ev: MjaiEvent, num_players: u8) -> (r: BotStep)
        ensures
            final(self).event_seq == bump(old(self).event_seq),
            match ev {
                MjaiEvent::StartGame { id: Some(seat), .. } => {
                    &&& final(self).actor_id == Some(seat)
                    &&& final(self).active_4p == old(self).active_4p
                    &&& final(self).active_3p == old(self).active_3p
                    &&& if chosen_bot(*old(self), num_players).len() == 0 {
                        &&& r is ReportIdle
                        &&& !final(self).has_runner
                        &&& final(self).pending@.len() == 0
                        &&& final(self).active_name == old(self).active_name
                    } else {
                        &&& r matches BotStep::Spawn { bot, seat: s } && bot@ == chosen_bot(
                            *old(self),
                            num_players,
                        ) && s == seat
                        &&& final(self).active_name@ == chosen_bot(*old(self), num_players)
                        &&& final(self).starting == Some(ev)
                        &&& final(self).has_runner == old(self).has_runner
                        &&& final(self).pending@ == old(self).pending@
                    }
                },
                _ => fed(
                    *old(self),
                    old(self).has_runner,
                    old(self).pending@,
                    ev,
                    bump(old(self).event_seq),
                    *final(self),
                    r,
                ),
            },
    {
        self.event_seq = self.event_seq.saturating_add(1);
        let seq = self.event_seq;
        let seat = match &ev {
            MjaiEvent::StartGame { id: Some(seat), .. } => Some(*seat),
            _ => None,
        };
        match seat {
            Some(seat) => {
                self.actor_id = Some(seat);
                let chosen = if num_players == 3 {
                    self.active_3p.clone()
                } else {
                    self.active_4p.clone()
                };
                if chosen.as_str().unicode_len() == 0 {
                    self.has_runner = false;
                    self.pending = Vec::new();
                    return BotStep::ReportIdle;
                }
                self.active_name = chosen.clone();
                self.starting = Some(ev);
                BotStep::Spawn { bot: chosen, seat }
            },
            None => self.feed(ev, seq),
        }
    }

    /// Report whether the bot asked for by [`BotStep::Spawn`] started. On
    /// success the batch starts afresh with the `start_game`; on failure
    /// no bot runs and the batch is dropped.
    pub fn after_spawn(&mut self, ok: bool) -> (r: BotStep)
        ensures
            ok ==> match old(self).starting {
                Some(ev) => fed(*old(self), true, Seq::empty(), ev, old(self).event_seq, *final(self), r),
                None => r is Nothing && final(self).has_runner && final(self).pending@.len() == 0,
            },
            !ok ==> r is Nothing && !final(self).has_runner && final(self).pending@.len() == 0
                && final(self).starting is None,
            final(self).actor_id == old(self).actor_id,
            final(self).event_seq == old(self).event_seq,
            final(self).active_name == old(self).active_name,
    {
        let starting = self.starting.take();
        if !ok {
            self.has_runner = false;
            self.pending = Vec::new();
            return BotStep::Nothing;
        }
        self.has_runner = true;
        self.pending = Vec::new();
        match starting {
            Some(ev) => {
                let seq = self.event_seq;
                self.feed(ev, seq)
            },
            None => BotStep::Nothing,
        }
    }

    /// Report whether the bot answered the batch sent with
    /// [`BotStep::React`]. After `end_game` the bot is dropped and its
    /// seat forgotten; a failure drops the bot and the batch.
    pub fn after_react(&mut self, ok: bool) -> (r: ReactOutcome)
        ensures
            ok && old(self).react_ends_game ==> (r matches ReactOutcome::Stopped { bot } && bot@
                == old(self).active_name@) && !final(self).has_runner && final(self).actor_id is None
                && final(self).pending@ == old(self).pending@,
            ok && !old(self).react_ends_game ==> r is Continue && final(self).has_runner
                == old(self).has_runner && final(self).actor_id == old(self).actor_id
                && final(self).pending@ == old(self).pending@,
            !ok ==> (r matches ReactOutcome::Failed { bot } && bot@ == old(self).active_name@)
                && !final(self).has_runner && final(self).pending@.len() == 0 && final(self).actor_id
                == old(self).actor_id,
            !final(self).react_ends_game,
            final(self).event_seq == old(self).event_seq,
            final(self).active_name == old(self).active_name,
    {
        let ends = self.react_ends_game;
        self.react_ends_game = false;
        if !ok {
            self.has_runner = false;
            self.pending = Vec::new();
            return ReactOutcome::Failed { bot: self.active_name.clone() };
        }
        if ends {
            self.has_runner = false;
            self.actor_id = None;
            return ReactOutcome::Stopped { bot: self.active_name.clone() };
        }
        ReactOutcome::Continue
    }
}

/// What is reported when the bot failed to react: its status, the notice
/// shown to the user, and the error handed back to the caller.
#[derive(Debug, Clone)]
pub struct ReactFailure {
    pub status: BotStatus,
    pub notice: Notification,
    pub error: String,
}

/// The report of bot `bot` failing to react with error text `error`
/// (after [`BotBatcher::after_react`] answered `Failed`): the bot is in
/// error with that text, an error notice titled "Bot reaction failed"
/// carries the text, and the caller gets the text under "bot react
/// failed".
pub fn react_failure(bot: &str, error: &str) -> (r: ReactFailure)
    ensures
        r.status matches BotStatus::Error { bot: b, error: e } && b@ == bot@ && e@ == error@,
        notice_is(r.notice, NotifyLevel::Error, "Bot reaction failed"@, Some(error@), false, None),
        r.error@ == "bot react failed: "@ + error@,
{
    ReactFailure {
        status: BotStatus::Error { bot: String::from_str(bot), error: String::from_str(error) },
        notice: Notification::error("Bot reaction failed").body(error),
        error: String::from_str("bot react failed: ").concat(error),
    }
}

// ---------------------------------------------------------------------------
// Starting the bot for a game
// ---------------------------------------------------------------------------

/// What looking the bot up in the bot directory found; failures carry the
/// text to report.
#[derive(Debug, Clone, PartialEq, Eq)]
pub enum BotLookup {
    /// The bot directory could not be read.
    Unreadable { error: String },
    /// No bot of that name.
    Missing { error: String },
    /// The bot has no `pyproject.toml`.
    NoPyproject { error: String },
    /// The bot is installed; it may ship a settings manifest.
    Found { has_manifest: bool },
}

/// The outcome of the last operation; `Some(text)` is a failure.
#[derive(Debug, Clone, PartialEq, Eq)]
pub enum SpawnEvent {
    LookedUp(BotLookup),
    /// The bot's dependency-sync lock was free and is now held.
    SyncLock(bool),
    Synced(Option<String>),
    SettingsResolved(Option<String>),
    Launched(Option<String>),
}

/// The next operation.
#[derive(Debug, Clone, Copy, PartialEq, Eq, Structural)]
pub enum SpawnOp {
    LookUp,
    AcquireSyncLock,
    SyncDeps,
    ResolveSettings,
    Launch,
    /// The start succeeded or failed.
    Done { ok: bool },
}

/// What to report, and what to do next.
#[derive(Debug)]
pub struct SpawnAction {
    pub status: Option<BotStatus>,
    pub notice: Option<Notification>,
    pub next: SpawnOp,
}

/// Starting `bot` at `seat`: where it stands and whether a settings
/// manifest must be resolved before launching.
#[derive(Debug)]
pub struct SpawnRun {
    pub bot: String,
    pub seat: u8,
    pub has_manifest: bool,
    pub next: SpawnOp,
}

/// `a` reports the failure of `bot` with `message` under `title`, as an
/// error status and an error notice (replacing the notice `id`, if any),
/// and ends the start.
pub open spec fn fails_with(a: SpawnAction, bot: Seq<char>, title: Seq<char>, message: Seq<char>, id: Option<Seq<char>>) -> bool {
    &&& a.next == (SpawnOp::Done { ok: false })
    &&& a.status matches Some(BotStatus::Error { bot: b, error: e }) && b@ == bot && e@ == message
    &&& a.notice matches Some(n) && n.level == NotifyLevel::Error && n.title@ == title && (n.body matches Some(x) && x@ == message)
        && !n.sticky && match id {
        Some(i) => n.id matches Some(j) && j@ == i,
        None => n.id is None,
    }
}

/// `a` reports nothing and goes on with `op`.
pub open spec fn quietly(a: SpawnAction, op: SpawnOp) -> bool {
    a.status is None && a.notice is None && a.next == op
}

/// The id of the loading notice of `bot`.
pub open spec fn load_id(bot: Seq<char>) -> Seq<char> {
    "bot-loading-"@ + bot
}

fn load_id_of(bot: &str) -> (r: String)
    ensures
        r@ == load_id(bot@),
{
    String::from_str("bot-loading-").concat(bot)
}

fn failure(bot: &String, title: &str, message: String, id: Option<String>) -> (a: SpawnAction)
    ensures
        fails_with(a, bot@, title@, message@, match id { Some(i) => Some(i@), None => None }),
{
    let mut n = Notification::error(title).body(message.as_str());
    match id {
        Some(i) => {
            n = n.id(i.as_str());
        },
        None => {},
    }
    SpawnAction {
        status: Some(BotStatus::Error { bot: bot.clone(), error: message }),
        notice: Some(n),
        next: SpawnOp::Done { ok: false },
    }
}

fn quiet(op: SpawnOp) -> (a: SpawnAction)
    ensures
        quietly(a, op),
{
    SpawnAction { status: None, notice: None, next: op }
}

/// The reply `r` to `ev` of a start that stood at `before`; the start
/// remembers `after_has_manifest`. See [`SpawnRun::on_event`].
pub open spec fn spawn_reply(before: SpawnRun, ev: SpawnEvent, after_has_manifest: bool, r: SpawnAction) -> bool {
    let bot = before.bot@;
    let id = Some(load_id(bot));
    match (before.next, ev) {
        (SpawnOp::LookUp, SpawnEvent::LookedUp(found)) => match found {
            BotLookup::Unreadable { error } => fails_with(r, bot, "Bot directory unreadable"@, error@, None),
            BotLookup::Missing { error } => fails_with(r, bot, "Bot not found"@, error@, None),
            BotLookup::NoPyproject { error } => fails_with(r, bot, "Bot misconfigured"@, error@, None),
            BotLookup::Found { has_manifest } => {
                &&& r.next == SpawnOp::AcquireSyncLock
                &&& after_has_manifest == has_manifest
                &&& r.status matches Some(BotStatus::Loading { bot: b, stage: LoadStage::SyncingDeps }) && b@ == bot
                &&& r.notice matches Some(n) && n.level == NotifyLevel::Info && n.title@ == "Preparing bot"@
                    && (n.body matches Some(x) && x@ == "Installing Python dependencies — first launch may take a while."@)
                    && n.sticky && (n.id matches Some(j) && j@ == load_id(bot))
            },
        },
        (SpawnOp::AcquireSyncLock, SpawnEvent::SyncLock(free)) => if free {
            quietly(r, SpawnOp::SyncDeps)
        } else {
            fails_with(r, bot, "Bot dependency install failed"@, "sync already in progress for "@ + bot, id)
        },
        (SpawnOp::SyncDeps, SpawnEvent::Synced(failed)) => match failed {
            Some(e) => fails_with(r, bot, "Bot dependency install failed"@, "uv sync failed: "@ + e@, id),
            None => {
                &&& r.status matches Some(BotStatus::Loading { bot: b, stage: LoadStage::Spawning }) && b@ == bot
                &&& r.notice is None
                &&& r.next == if before.has_manifest { SpawnOp::ResolveSettings } else { SpawnOp::Launch }
            },
        },
        (SpawnOp::ResolveSettings, SpawnEvent::SettingsResolved(failed)) => match failed {
            Some(e) => fails_with(r, bot, "Bot settings resolution failed"@, "resolve bot settings: "@ + e@, id),
            None => quietly(r, SpawnOp::Launch),
        },
        (SpawnOp::Launch, SpawnEvent::Launched(failed)) => match failed {
            Some(e) => fails_with(r, bot, "Bot subprocess failed to start"@, "subprocess spawn failed: "@ + e@, id),
            None => {
                &&& r.next == (SpawnOp::Done { ok: true })
                &&& r.status matches Some(BotStatus::Ready { bot: b, actor_id }) && b@ == bot && actor_id == before.seat
                &&& r.notice matches Some(n) && n.level == NotifyLevel::Success && n.title@ == bot + " ready"@
                    && n.body is None && !n.sticky && (n.id matches Some(j) && j@ == load_id(bot))
            },
        },
        _ => quietly(r, SpawnOp::Done { ok: false }),
    }
}

impl SpawnRun {
    /// Begin starting `bot` for `seat`: look it up first.
    pub fn start(bot: String, seat: u8) -> (r: (SpawnRun, SpawnAction))
        ensures
            r.0.bot == bot,
            r.0.seat == seat,
            r.0.next == SpawnOp::LookUp,
            quietly(r.1, SpawnOp::LookUp),
    {
        (SpawnRun { bot, seat, has_manifest: false, next: SpawnOp::LookUp }, quiet(SpawnOp::LookUp))
    }

    /// Take in the outcome of the last operation. A failed lookup is
    /// reported under its own title; once the bot is found the manager is
    /// reported loading (syncing dependencies) with a sticky notice, and
    /// every later notice replaces it. The sync lock, the sync, the
    /// settings (when the bot has a manifest) and the launch follow in
    /// order; the first failure is reported and ends the start; after the
    /// launch the bot is reported ready. An outcome that does not answer
    /// the pending operation ends the start quietly.
    pub fn on_event(&mut self, ev: SpawnEvent) -> (r: SpawnAction)
        ensures
            final(self).bot == old(self).bot,
            final(self).seat == old(self).seat,
            final(self).next == r.next,
            spawn_reply(*old(self), ev, final(self).has_manifest, r),
    {
        let a = self.decide(ev);
        self.next = a.next;
        a
    }

    fn decide(&mut self, ev: SpawnEvent) -> (r: SpawnAction)
        ensures
            final(self).bot == old(self).bot,
            final(self).seat == old(self).seat,
            final(self).next == old(self).next,
            spawn_reply(*old(self), ev, final(self).has_manifest, r),
    {
        let bot = &self.bot;
        match (self.next, ev) {
            (SpawnOp::LookUp, SpawnEvent::LookedUp(found)) => match found {
                BotLookup::Unreadable { error } => failure(bot, "Bot directory unreadable", error, None),
                BotLookup::Missing { error } => failure(bot, "Bot not found", error, None),
                BotLookup::NoPyproject { error } => failure(bot, "Bot misconfigured", error, None),
                BotLookup::Found { has_manifest } => {
                    let notice = Notification::info("Preparing bot")
                        .body("Installing Python dependencies — first launch may take a while.")
                        .sticky()
                        .id(load_id_of(bot.as_str()).as_str());
                    let status = BotStatus::Loading { bot: bot.clone(), stage: LoadStage::SyncingDeps };
                    self.has_manifest = has_manifest;
                    SpawnAction { status: Some(status), notice: Some(notice), next: SpawnOp::AcquireSyncLock }
                },
            },
            (SpawnOp::AcquireSyncLock, SpawnEvent::SyncLock(free)) => {
                if free {
                    quiet(SpawnOp::SyncDeps)
                } else {
                    let msg = String::from_str("sync already in progress for ").concat(bot.as_str());
                    failure(bot, "Bot dependency install failed", msg, Some(load_id_of(bot.as_str())))
                }
            },
            (SpawnOp::SyncDeps, SpawnEvent::Synced(failed)) => match failed {
                Some(e) => {
                    let msg = String::from_str("uv sync failed: ").concat(e.as_str());
                    failure(bot, "Bot dependency install failed", msg, Some(load_id_of(bot.as_str())))
                },
                None => {
                    let next = if self.has_manifest { SpawnOp::ResolveSettings } else { SpawnOp::Launch };
                    SpawnAction {
                        status: Some(BotStatus::Loading { bot: bot.clone(), stage: LoadStage::Spawning }),
                        notice: None,
                        next,
                    }
                },
            },
            (SpawnOp::ResolveSettings, SpawnEvent::SettingsResolved(failed)) => match failed {
                Some(e) => {
                    let msg = String::from_str("resolve bot settings: ").concat(e.as_str());
                    failure(bot, "Bot settings resolution failed", msg, Some(load_id_of(bot.as_str())))
                },
                None => quiet(SpawnOp::Launch),
            },
            (SpawnOp::Launch, SpawnEvent::Launched(failed)) => match failed {
                Some(e) => {
                    let msg = String::from_str("subprocess spawn failed: ").concat(e.as_str());
                    failure(bot, "Bot subprocess failed to start", msg, Some(load_id_of(bot.as_str())))
                },
                None => {
                    let title = bot.clone().concat(" ready");
                    let notice = Notification::success(title.as_str()).id(load_id_of(bot.as_str()).as_str());
                    SpawnAction {
                        status: Some(BotStatus::Ready { bot: bot.clone(), actor_id: self.seat }),
                        notice: Some(notice),
                        next: SpawnOp::Done { ok: true },
                    }
                },
            },
            _ => quiet(SpawnOp::Done { ok: false }),
        }
    }
}

/// How many outcomes a start at `op` can still take.
pub open spec fn spawn_rank(op: SpawnOp) -> int {
    match op {
        SpawnOp::LookUp => 5,
        SpawnOp::AcquireSyncLock => 4,
        SpawnOp::SyncDeps => 3,
        SpawnOp::ResolveSettings => 2,
        SpawnOp::Launch => 1,
        SpawnOp::Done { .. } => 0,
    }
}

/// Every outcome moves a start forward, so it ends within five outcomes;
/// it ends successfully only on a launched bot, which is then reported
/// ready at its seat.
pub proof fn lemma_spawn_progress(before: SpawnRun, ev: SpawnEvent, after_has_manifest: bool, r: SpawnAction)
    requires
        !(before.next is Done),
        spawn_reply(before, ev, after_has_manifest, r),
    ensures
        spawn_rank(r.next) < spawn_rank(before.next),
        r.next == (SpawnOp::Done { ok: true }) ==> before.next == SpawnOp::Launch && ev == SpawnEvent::Launched(None)
            && (r.status matches Some(BotStatus::Ready { actor_id, .. }) && actor_id == before.seat),
{
}

} // verus!
