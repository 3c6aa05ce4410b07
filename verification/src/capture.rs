//! Browser capture bookkeeping: which page targets gained or lost a
//! subscription between two polls, the key of one WebSocket flow, and the
//! decoding of base64 frame payloads.
use vstd::prelude::*;
use base64::Engine;
use crate::tile::{same_tile, views};
use crate::util::lemma_filter_take_push;
use crate::bridge::Direction;

verus! {

/// Per-flow key: the page that owns the WebSocket and the request id the
/// page assigned to it.
#[derive(Clone, Debug, PartialEq, Eq, Hash)]
pub struct FlowKey {
    pub target: String,
    pub request: String,
}

/// The base64 (standard alphabet, padded) decoding of `text`, or `None`
/// when `text` is not valid base64.
pub uninterp spec fn base64_decoded(text: Seq<char>) -> Option<Seq<u8>>;

/// Calls `base64::engine::general_purpose::STANDARD.decode` on the bytes of
/// `b64`. Claimed: the result is [`base64_decoded`] of the input.
#[verifier::external_body]
fn standard_decode(b64: &str) -> (r: Option<Vec<u8>>)
    ensures
        match base64_decoded(b64@) {
            Some(bytes) => r matches Some(v) && v@ == bytes,
            None => r is None,
        },
{
    base64::engine::general_purpose::STANDARD.decode(b64.as_bytes()).ok()
}

/// Decode the base64 payload of a binary WebSocket frame.
pub fn decode_payload(b64: &str) -> (r: Option<Vec<u8>>)
    ensures
        match base64_decoded(b64@) {
            Some(bytes) => r matches Some(v) && v@ == bytes,
            None => r is None,
        },
{
    standard_decode(b64)
}

/// WebSocket opcode of a binary frame.
pub const BINARY_OPCODE: i64 = 2;

/// The bytes of a captured frame that the bridge is given: binary frames
/// only (other opcodes are skipped), decoded from base64; `None` also
/// when the payload is not valid base64.
pub fn binary_frame_bytes(opcode: i64, payload_b64: &str) -> (r: Option<Vec<u8>>)
    ensures
        opcode != BINARY_OPCODE ==> r is None,
        opcode == BINARY_OPCODE ==> match base64_decoded(payload_b64@) {
            Some(bytes) => r matches Some(v) && v@ == bytes,
            None => r is None,
        },
{
    if opcode != BINARY_OPCODE {
        return None;
    }
    decode_payload(payload_b64)
}

/// A WebSocket event a browser page reported.
#[derive(Debug, Clone, PartialEq, Eq)]
pub enum CdpWsEvent {
    Created { request: String, url: String },
    /// A frame from the server.
    Received { request: String, opcode: i64, payload_b64: String },
    /// A frame to the server.
    Sent { request: String, opcode: i64, payload_b64: String },
    Closed { request: String },
}

/// What to do with a page's WebSocket event.
#[derive(Debug, Clone, PartialEq, Eq)]
pub enum FlowAction {
    /// Open (or reuse) the flow's bridge, labelled `ws <url>`.
    Open { key: FlowKey, label: String },
    /// Give the frame's bytes to the flow's bridge.
    Parse { key: FlowKey, direction: Direction, bytes: Vec<u8> },
    /// Release the flow's bridge.
    Close { key: FlowKey },
    /// Nothing to do: not a binary frame, or its payload is not base64.
    Skip,
}

/// The flow of `request` on page `target`.
pub open spec fn flow_key_is(k: FlowKey, target: Seq<char>, request: Seq<char>) -> bool {
    k.target@ == target && k.request@ == request
}

/// Route an event of page `target`: a created socket opens its flow; a
/// binary frame received from or sent to the server is parsed down or up;
/// a closed socket releases its flow; anything else is skipped.
pub fn route_ws_event(target: &str, ev: CdpWsEvent) -> (r: FlowAction)
    ensures
        match ev {
            CdpWsEvent::Created { request, url } => r matches FlowAction::Open { key, label }
                && flow_key_is(key, target@, request@) && label@ == "ws "@ + url@,
            CdpWsEvent::Received { request, opcode, payload_b64 } => if opcode == BINARY_OPCODE
                && base64_decoded(payload_b64@) is Some {
                r matches FlowAction::Parse { key, direction, bytes } && flow_key_is(key, target@, request@)
                    && direction == Direction::Down && bytes@ == base64_decoded(payload_b64@).unwrap()
            } else {
                r is Skip
            },
            CdpWsEvent::Sent { request, opcode, payload_b64 } => if opcode == BINARY_OPCODE
                && base64_decoded(payload_b64@) is Some {
                r matches FlowAction::Parse { key, direction, bytes } && flow_key_is(key, target@, request@)
                    && direction == Direction::Up && bytes@ == base64_decoded(payload_b64@).unwrap()
            } else {
                r is Skip
            },
            CdpWsEvent::Closed { request } => r matches FlowAction::Close { key } && flow_key_is(key, target@, request@),
        },
{
    match ev {
        CdpWsEvent::Created { request, url } => {
            let label = String::from_str("ws ").concat(url.as_str());
            FlowAction::Open { key: FlowKey { target: String::from_str(target), request }, label }
        },
        CdpWsEvent::Received { request, opcode, payload_b64 } => match binary_frame_bytes(opcode, payload_b64.as_str()) {
            Some(bytes) => FlowAction::Parse {
                key: FlowKey { target: String::from_str(target), request },
                direction: Direction::Down,
                bytes,
            },
            None => FlowAction::Skip,
        },
        CdpWsEvent::Sent { request, opcode, payload_b64 } => match binary_frame_bytes(opcode, payload_b64.as_str()) {
            Some(bytes) => FlowAction::Parse {
                key: FlowKey { target: String::from_str(target), request },
                direction: Direction::Up,
                bytes,
            },
            None => FlowAction::Skip,
        },
        CdpWsEvent::Closed { request } => FlowAction::Close { key: FlowKey { target: String::from_str(target), request } },
    }
}

/// `s` is one of `v`.
pub fn contains_str(v: &Vec<String>, s: &str) -> (r: bool)
    ensures
        r == views(v@).contains(s@),
{
    let n = v.len();
    let mut i: usize = 0;
    while i < n
        invariant
            n == v@.len(),
            i <= n,
            forall|k: int| 0 <= k < i ==> v@[k]@ != s@,
        decreases n - i,
    {
        if same_tile(v[i].as_str(), s) {
            assert(views(v@)[i as int] == s@);
            return true;
        }
        i += 1;
    }
    assert(!views(v@).contains(s@));
    false
}

/// The members of `a` that are not in `b`, in the order of `a`.
pub open spec fn missing_from(a: Seq<Seq<char>>, b: Seq<Seq<char>>) -> Seq<Seq<char>> {
    a.filter(|x: Seq<char>| !b.contains(x))
}

fn difference(a: &Vec<String>, b: &Vec<String>) -> (r: Vec<String>)
    ensures
        views(r@) == missing_from(views(a@), views(b@)),
{
    let ghost pred = |x: Seq<char>| !views(b@).contains(x);
    let mut out: Vec<String> = Vec::new();
    let n = a.len();
    let mut i: usize = 0;
    while i < n
        invariant
            n == a@.len(),
            i <= n,
            pred == (|x: Seq<char>| !views(b@).contains(x)),
            views(out@) == views(a@).take(i as int).filter(pred),
        decreases n - i,
    {
        proof { lemma_filter_take_push(views(a@), i as int, pred); }
        if !contains_str(b, a[i].as_str()) {
            let ghost before = out@;
            out.push(a[i].clone());
            assert(views(out@) =~= views(before).push(a@[i as int]@));
        }
        i += 1;
    }
    assert(views(a@).take(n as int) =~= views(a@));
    out
}

/// Filtering a sequence without repeats gives one without repeats.
pub proof fn lemma_filter_no_duplicates(a: Seq<Seq<char>>, p: spec_fn(Seq<char>) -> bool)
    requires
        a.no_duplicates(),
    ensures
        a.filter(p).no_duplicates(),
    decreases a.len(),
{
    if a.len() > 0 {
        let b = a.drop_last();
        let x = a.last();
        assert(a =~= b.push(x));
        assert(b.no_duplicates());
        lemma_filter_no_duplicates(b, p);
        b.lemma_filter_push(x, p);
        if p(x) {
            if b.filter(p).contains(x) {
                b.lemma_filter_contains_rev(p, x);
                let i = choose|i: int| 0 <= i < b.len() && b[i] == x;
                assert(a[i] == a[a.len() - 1]);
            }
            let f = b.filter(p).push(x);
            assert forall|i: int, j: int| 0 <= i < f.len() && 0 <= j < f.len() && i != j implies f[i] != f[j] by {
                if i == f.len() - 1 {
                    assert(b.filter(p)[j] == f[j]);
                } else if j == f.len() - 1 {
                    assert(b.filter(p)[i] == f[i]);
                }
            }
        }
    }
}

/// Compare the previous and current page snapshots (each a set of target
/// ids, so without repeats): the targets to subscribe (in `current`, not
/// in `prev`) and the targets whose subscriptions are reaped (in `prev`,
/// not in `current`), each without repeats.
pub fn diff_pages(prev: &Vec<String>, current: &Vec<String>) -> (r: (Vec<String>, Vec<String>))
    requires
        views(prev@).no_duplicates(),
        views(current@).no_duplicates(),
    ensures
        views(r.0@) == missing_from(views(current@), views(prev@)),
        views(r.1@) == missing_from(views(prev@), views(current@)),
        views(r.0@).no_duplicates(),
        views(r.1@).no_duplicates(),
{
    proof {
        lemma_filter_no_duplicates(views(current@), |x: Seq<char>| !views(prev@).contains(x));
        lemma_filter_no_duplicates(views(prev@), |x: Seq<char>| !views(current@).contains(x));
    }
    (difference(current, prev), difference(prev, current))
}

/// A snapshot compared with itself yields nothing to add or remove.
pub proof fn lemma_diff_unchanged(s: Seq<Seq<char>>)
    ensures
        missing_from(s, s).len() == 0,
{
    broadcast use vstd::seq_lib::group_filter_ensures;
    let pred = |x: Seq<char>| !s.contains(x);
    let f = s.filter(pred);
    if f.len() > 0 {
        assert(pred(f[0]));
        s.lemma_filter_contains_rev(pred, f[0]);
        assert(f.contains(f[0]));
    }
}

/// Reaping the removed targets from the previous snapshot and subscribing
/// the added ones leaves exactly the current targets subscribed.
pub proof fn lemma_diff_reconciles(prev: Seq<Seq<char>>, current: Seq<Seq<char>>)
    ensures
        prev.to_set().difference(missing_from(prev, current).to_set()).union(
            missing_from(current, prev).to_set(),
        ) == current.to_set(),
{
    broadcast use vstd::seq_lib::group_filter_ensures;
    let pa = |x: Seq<char>| !prev.contains(x);
    let pr = |x: Seq<char>| !current.contains(x);
    let adds = current.filter(pa);
    let removes = prev.filter(pr);
    let lhs = prev.to_set().difference(removes.to_set()).union(adds.to_set());
    assert forall|x: Seq<char>| lhs.contains(x) <==> current.to_set().contains(x) by {
        if adds.contains(x) {
            current.lemma_filter_contains_rev(pa, x);
        }
        if removes.contains(x) {
            let j = choose|j: int| 0 <= j < removes.len() && removes[j] == x;
            assert(pr(removes[j]));
        }
        if current.contains(x) && !prev.contains(x) {
            let i = choose|i: int| 0 <= i < current.len() && current[i] == x;
            assert(adds.contains(current[i]));
        }
        if prev.contains(x) && !current.contains(x) {
            let i = choose|i: int| 0 <= i < prev.len() && prev[i] == x;
            assert(removes.contains(prev[i]));
        }
    }
    assert(lhs =~= current.to_set());
}

// ---------------------------------------------------------------------------
// Which browser to launch
// ---------------------------------------------------------------------------

/// What the caller looks up or does while choosing the browser.
#[derive(Debug, Clone, PartialEq, Eq)]
pub enum LaunchAction {
    /// Check that the configured executable exists.
    CheckConfigured { path: String },
    /// Look for an installed Chrome-for-Testing.
    FindInstalledCft,
    /// Download and install Chrome-for-Testing.
    InstallCft,
    /// Look for a Chromium-family browser of the system.
    DetectSystemBrowser,
    /// Launch this executable.
    Launch { path: String },
    /// No browser can be launched.
    Fail { error: LaunchError },
}

/// Why no browser can be launched.
#[derive(Debug, Clone, PartialEq, Eq)]
pub enum LaunchError {
    /// The configured executable does not exist.
    ConfiguredMissing { path: String },
    /// Chrome-for-Testing is required and its install failed.
    CftInstallFailed { cause: String },
    /// Chrome-for-Testing is required and none was found after installing.
    CftMissingAfterInstall,
    /// Nothing to launch at all.
    NoBrowser,
}

/// What the last lookup answered.
#[derive(Debug, Clone, PartialEq, Eq)]
pub enum LaunchEvent {
    /// Whether the configured executable exists.
    Exists(bool),
    /// The installed Chrome-for-Testing, if any.
    Found(Option<String>),
    /// The install went through (`None`) or failed with this text.
    Installed { failure: Option<String> },
    /// The first system browser, if any.
    Detected(Option<String>),
}

/// Where the choice stands.
#[derive(Debug, Clone, Copy, PartialEq, Eq, Structural)]
pub enum LaunchStage {
    CheckingConfigured,
    FirstLookup,
    Installing,
    SecondLookup,
    Detecting,
    Decided,
}

/// The choice of browser: the configured executable and whether
/// Chrome-for-Testing is required, and how far the choice got.
#[derive(Debug)]
pub struct LaunchChoice {
    pub executable: String,
    pub force_cft: bool,
    pub stage: LaunchStage,
}

/// Decided with this action.
pub open spec fn decided(a: LaunchAction) -> (LaunchStage, LaunchAction) {
    (LaunchStage::Decided, a)
}

/// The step after `ev` at `stage`: the configured executable is launched
/// if it exists, else the choice fails; an installed Chrome-for-Testing
/// is launched; otherwise it is installed and looked for again, a failed
/// install being fatal only when it is required; without it, the first
/// system browser is launched unless Chrome-for-Testing is required. Any
/// other answer ends the choice with no browser.
pub open spec fn launch_next(stage: LaunchStage, force_cft: bool, executable: String, ev: LaunchEvent) -> (LaunchStage, LaunchAction) {
    match (stage, ev) {
        (LaunchStage::CheckingConfigured, LaunchEvent::Exists(exists)) => if exists {
            decided(LaunchAction::Launch { path: executable })
        } else {
            decided(LaunchAction::Fail { error: LaunchError::ConfiguredMissing { path: executable } })
        },
        (LaunchStage::FirstLookup, LaunchEvent::Found(found)) => match found {
            Some(path) => decided(LaunchAction::Launch { path }),
            None => (LaunchStage::Installing, LaunchAction::InstallCft),
        },
        (LaunchStage::Installing, LaunchEvent::Installed { failure }) => match failure {
            Some(cause) => if force_cft {
                decided(LaunchAction::Fail { error: LaunchError::CftInstallFailed { cause } })
            } else {
                (LaunchStage::SecondLookup, LaunchAction::FindInstalledCft)
            },
            None => (LaunchStage::SecondLookup, LaunchAction::FindInstalledCft),
        },
        (LaunchStage::SecondLookup, LaunchEvent::Found(found)) => match found {
            Some(path) => decided(LaunchAction::Launch { path }),
            None => if force_cft {
                decided(LaunchAction::Fail { error: LaunchError::CftMissingAfterInstall })
            } else {
                (LaunchStage::Detecting, LaunchAction::DetectSystemBrowser)
            },
        },
        (LaunchStage::Detecting, LaunchEvent::Detected(Some(path))) => decided(LaunchAction::Launch { path }),
        _ => decided(LaunchAction::Fail { error: LaunchError::NoBrowser }),
    }
}

impl LaunchChoice {
    /// Begin choosing the browser for `executable` (empty: none configured)
    /// and `force_cft`: a configured executable is checked, otherwise an
    /// installed Chrome-for-Testing is looked for.
    pub fn start(executable: String, force_cft: bool) -> (r: (LaunchChoice, LaunchAction))
        ensures
            r.0.executable == executable,
            r.0.force_cft == force_cft,
            executable@.len() > 0 ==> r.0.stage == LaunchStage::CheckingConfigured && r.1 == (LaunchAction::CheckConfigured { path: executable }),
            executable@.len() == 0 ==> r.0.stage == LaunchStage::FirstLookup && r.1 == LaunchAction::FindInstalledCft,
    {
        if executable.as_str().unicode_len() > 0 {
            let path = executable.clone();
            (LaunchChoice { executable, force_cft, stage: LaunchStage::CheckingConfigured }, LaunchAction::CheckConfigured { path })
        } else {
            (LaunchChoice { executable, force_cft, stage: LaunchStage::FirstLookup }, LaunchAction::FindInstalledCft)
        }
    }

    /// Take in the answer to the last action; see [`launch_next`].
    pub fn on_event(&mut self, ev: LaunchEvent) -> (r: LaunchAction)
        ensures
            final(self).executable == old(self).executable,
            final(self).force_cft == old(self).force_cft,
            (final(self).stage, r) == launch_next(old(self).stage, old(self).force_cft, old(self).executable, ev),
    {
        let stage = self.stage;
        match (stage, ev) {
            (LaunchStage::CheckingConfigured, LaunchEvent::Exists(exists)) => {
                self.stage = LaunchStage::Decided;
                let path = self.executable.clone();
                if exists {
                    LaunchAction::Launch { path }
                } else {
                    LaunchAction::Fail { error: LaunchError::ConfiguredMissing { path } }
                }
            },
            (LaunchStage::FirstLookup, LaunchEvent::Found(found)) => match found {
                Some(path) => {
                    self.stage = LaunchStage::Decided;
                    LaunchAction::Launch { path }
                },
                None => {
                    self.stage = LaunchStage::Installing;
                    LaunchAction::InstallCft
                },
            },
            (LaunchStage::Installing, LaunchEvent::Installed { failure }) => match failure {
                Some(cause) => {
                    if self.force_cft {
                        self.stage = LaunchStage::Decided;
                        LaunchAction::Fail { error: LaunchError::CftInstallFailed { cause } }
                    } else {
                        self.stage = LaunchStage::SecondLookup;
                        LaunchAction::FindInstalledCft
                    }
                },
                None => {
                    self.stage = LaunchStage::SecondLookup;
                    LaunchAction::FindInstalledCft
                },
            },
            (LaunchStage::SecondLookup, LaunchEvent::Found(found)) => match found {
                Some(path) => {
                    self.stage = LaunchStage::Decided;
                    LaunchAction::Launch { path }
                },
                None => {
                    if self.force_cft {
                        self.stage = LaunchStage::Decided;
                        LaunchAction::Fail { error: LaunchError::CftMissingAfterInstall }
                    } else {
                        self.stage = LaunchStage::Detecting;
                        LaunchAction::DetectSystemBrowser
                    }
                },
            },
            (LaunchStage::Detecting, LaunchEvent::Detected(Some(path))) => {
                self.stage = LaunchStage::Decided;
                LaunchAction::Launch { path }
            },
            _ => {
                self.stage = LaunchStage::Decided;
                LaunchAction::Fail { error: LaunchError::NoBrowser }
            },
        }
    }
}

/// When Chrome-for-Testing is required, the choice never falls back to a
/// system browser.
pub proof fn lemma_forced_cft_never_detects(stage: LaunchStage, executable: String, ev: LaunchEvent)
    ensures
        launch_next(stage, true, executable, ev).1 != LaunchAction::DetectSystemBrowser,
{
}

/// A choice takes at most four answers: every answer moves it to a later
/// stage or decides it.
pub proof fn lemma_launch_choice_advances(stage: LaunchStage, force_cft: bool, executable: String, ev: LaunchEvent)
    requires
        stage != LaunchStage::Decided,
    ensures
        launch_rank(launch_next(stage, force_cft, executable, ev).0) < launch_rank(stage),
{
}

/// How many answers a choice at `stage` can still take.
pub open spec fn launch_rank(stage: LaunchStage) -> int {
    match stage {
        LaunchStage::CheckingConfigured => 1,
        LaunchStage::FirstLookup => 4,
        LaunchStage::Installing => 3,
        LaunchStage::SecondLookup => 2,
        LaunchStage::Detecting => 1,
        LaunchStage::Decided => 0,
    }
}


// ---------------------------------------------------------------------------
// The Chromium backend and what the supervisor reports of it
// ---------------------------------------------------------------------------

/// The `[capture.chromium]` settings the backend reads.
#[derive(Debug, Clone)]
pub struct ChromiumConfig {
    /// Browser to launch; empty to pick one automatically.
    pub executable: String,
    /// Profile directory; empty for the default one.
    pub user_data_dir: String,
    /// Chrome-for-Testing channel to install and look for.
    pub cft_channel: String,
    /// Refuse to fall back to a system browser.
    pub force_cft: bool,
}

/// Which transport captures the game traffic.
#[derive(Debug, Clone, Copy, PartialEq, Eq, Structural)]
pub enum CaptureKind {
    Mitm,
    Chromium,
}

impl CaptureKind {
    /// Lower-case name of the transport.
    pub fn as_str(self) -> (r: &'static str)
        ensures
            r@ == (match self {
                CaptureKind::Mitm => "mitm"@,
                CaptureKind::Chromium => "chromium"@,
            }),
    {
        match self {
            CaptureKind::Mitm => {
                proof {
                    reveal_strlit("mitm");
                }
                "mitm"
            },
            CaptureKind::Chromium => {
                proof {
                    reveal_strlit("chromium");
                }
                "chromium"
            },
        }
    }
}

/// A running backend's kind and what it runs on.
#[derive(Debug, Clone)]
pub struct CaptureDescriptor {
    pub kind: CaptureKind,
    pub label: String,
}

/// Capture by launching a browser and listening to it over CDP.
#[derive(Debug)]
pub struct ChromiumBackend {
    cfg: ChromiumConfig,
}

/// The label of a Chromium backend launched for `executable`.
pub open spec fn chromium_label(executable: Seq<char>) -> Seq<char> {
    if executable.len() == 0 {
        "auto-detect"@
    } else {
        executable
    }
}

impl ChromiumBackend {
    pub closed spec fn config(&self) -> ChromiumConfig {
        self.cfg
    }

    pub fn new(cfg: ChromiumConfig) -> (r: Self)
        ensures
            r.config() == cfg,
    {
        ChromiumBackend { cfg }
    }

    /// The backend is a Chromium one, labelled by its configured
    /// executable, or `auto-detect` when none is configured.
    pub fn descriptor(&self) -> (r: CaptureDescriptor)
        ensures
            r.kind == CaptureKind::Chromium,
            r.label@ == chromium_label(self.config().executable@),
    {
        let label = if self.cfg.executable.as_str().unicode_len() == 0 {
            proof {
                reveal_strlit("auto-detect");
            }
            String::from_str("auto-detect")
        } else {
            self.cfg.executable.clone()
        };
        CaptureDescriptor { kind: CaptureKind::Chromium, label }
    }

    /// Begin choosing the browser to launch from the configuration; see
    /// [`LaunchChoice::start`].
    pub fn launch_choice(&self) -> (r: (LaunchChoice, LaunchAction))
        ensures
            r.0.executable == self.config().executable,
            r.0.force_cft == self.config().force_cft,
            self.config().executable@.len() > 0 ==> r.0.stage == LaunchStage::CheckingConfigured && r.1 == (
            LaunchAction::CheckConfigured { path: self.config().executable }),
            self.config().executable@.len() == 0 ==> r.0.stage == LaunchStage::FirstLookup && r.1
                == LaunchAction::FindInstalledCft,
    {
        LaunchChoice::start(self.cfg.executable.clone(), self.cfg.force_cft)
    }
}

/// The address the status shows for a running backend: the proxy's
/// listen address, or `chromium (<label>)`.
pub open spec fn spec_capture_status_label(kind: CaptureKind, label: Seq<char>, proxy_addr: Seq<char>) -> Seq<char> {
    match kind {
        CaptureKind::Mitm => proxy_addr,
        CaptureKind::Chromium => "chromium ("@ + label + ")"@,
    }
}

/// The status label the supervisor announces when it starts `d`.
pub fn capture_status_label(d: &CaptureDescriptor, proxy_addr: &str) -> (r: String)
    ensures
        r@ == spec_capture_status_label(d.kind, d.label@, proxy_addr@),
{
    match d.kind {
        CaptureKind::Mitm => String::from_str(proxy_addr),
        CaptureKind::Chromium => {
            proof {
                reveal_strlit("chromium (");
                reveal_strlit(")");
            }
            let s = String::from_str("chromium (").concat(d.label.as_str());
            s.concat(")")
        },
    }
}

} // verus!
