//! The backend launcher: a per-invocation state machine that probes for a
//! live backend, resolves the backend's entry path, and decides whether
//! to spawn.
//!
//! The embedding application owns every OS interaction. It starts a launch
//! at [`LaunchPhase::Start`], performs whatever [`LaunchAction`] the
//! machine asks for (run the probe, locate the base directory, check that
//! the entry exists, spawn the interpreter), and feeds the observed
//! [`LaunchEvent`] back into [`launch_step`] until the machine reports.
//! Which action is asked for, and exactly which report comes out, is
//! decided and verified here; in particular no spawn is ever requested
//! when the probe has already confirmed a running backend.
//!
//! Two mutually exclusive locator strategies are supported, chosen once
//! per launch by [`LocatorMode`]: in portable mode the entry lives beside
//! the executable's directory and its existence is not checked before the
//! spawn attempt; in installed-bundle mode it lives under the application
//! root (the parent of the packaging-manifest directory), which is also
//! used as the child's working directory, and its existence is verified
//! first.

use vstd::prelude::*;
use vstd::string::*;

use crate::probe::{probe_indicates_running, probe_running, ProbeOutcome, ProbeOutcomeView};
use crate::text::{dec_rep, parent_dir, parent_of, u32_dec_string};

verus! {

/// Which of the two supported strategies locates the backend entry point.
#[derive(Clone, Copy, Debug, PartialEq, Eq, Structural)]
pub enum LocatorMode {
    /// The entry lives at `<application root>/py-backend/main.py`, where
    /// the application root is the parent of the located base directory;
    /// existence is verified before spawning.
    InstalledBundle,
    /// The entry lives at `<base directory>/../py-backend/main.py`;
    /// existence is not verified, so a bad path only surfaces as a
    /// spawn-time error.
    Portable,
}

/// Where a launch stands, between two exchanges with the embedding
/// application.
pub enum LaunchPhase {
    /// Nothing observed yet; the probe must run first.
    Start,
    /// The probe did not confirm a running backend; the base directory
    /// must be located.
    NeedsBase,
    /// The entry path is resolved; its existence must be checked.
    NeedsEntryCheck { entry: String, workdir: Option<String> },
    /// The entry is accepted; the spawn must be attempted.
    NeedsSpawn { entry: String, workdir: Option<String> },
    /// The launch is over, with its report.
    Finished { outcome: Result<String, String> },
}

/// What the embedding application observed while performing the action it
/// was asked for.
pub enum LaunchEvent {
    Probed { outcome: ProbeOutcome },
    BaseLocated { dir: String },
    EntryChecked { exists: bool },
    Spawned { result: Result<u32, String> },
}

/// What the launcher asks the embedding application to do next.
pub enum LaunchAction {
    /// Run the process-table probe.
    Probe,
    /// Locate the base directory of the chosen locator mode: the
    /// packaging-manifest directory (installed bundle) or the directory
    /// holding the running executable (portable).
    LocateBase,
    /// Check whether the resolved entry path names an existing file.
    CheckEntry { entry: String },
    /// Spawn `interpreter` with `entry` as its one argument, in `workdir`
    /// if one is given, and report the child's process identifier.
    Spawn { interpreter: String, entry: String, workdir: Option<String> },
    /// The launch is over; hand `outcome` to the caller.
    Report { outcome: Result<String, String> },
}

/// Mathematical image of a [`LaunchPhase`].
pub enum PhaseView {
    Start,
    NeedsBase,
    NeedsEntryCheck { entry: Seq<char>, workdir: Option<Seq<char>> },
    NeedsSpawn { entry: Seq<char>, workdir: Option<Seq<char>> },
    Finished { outcome: Result<Seq<char>, Seq<char>> },
}

/// Mathematical image of a [`LaunchEvent`].
pub enum EventView {
    Probed { outcome: ProbeOutcomeView },
    BaseLocated { dir: Seq<char> },
    EntryChecked { exists: bool },
    Spawned { result: Result<u32, Seq<char>> },
}

/// Mathematical image of a [`LaunchAction`].
pub enum ActionView {
    Probe,
    LocateBase,
    CheckEntry { entry: Seq<char> },
    Spawn { interpreter: Seq<char>, entry: Seq<char>, workdir: Option<Seq<char>> },
    Report { outcome: Result<Seq<char>, Seq<char>> },
}

pub open spec fn opt_path_view(o: Option<String>) -> Option<Seq<char>> {
    match o {
        Some(p) => Some(p@),
        None => None,
    }
}

pub open spec fn spawn_result_view(r: Result<u32, String>) -> Result<u32, Seq<char>> {
    match r {
        Ok(pid) => Ok(pid),
        Err(detail) => Err(detail@),
    }
}

impl View for LaunchPhase {
    type V = PhaseView;

    open spec fn view(&self) -> PhaseView {
        match self {
            LaunchPhase::Start => PhaseView::Start,
            LaunchPhase::NeedsBase => PhaseView::NeedsBase,
            LaunchPhase::NeedsEntryCheck { entry, workdir } => PhaseView::NeedsEntryCheck {
                entry: entry@,
                workdir: opt_path_view(*workdir),
            },
            LaunchPhase::NeedsSpawn { entry, workdir } => PhaseView::NeedsSpawn {
                entry: entry@,
                workdir: opt_path_view(*workdir),
            },
            LaunchPhase::Finished { outcome } => PhaseView::Finished {
                outcome: crate::probe::report_view(*outcome),
            },
        }
    }
}

impl View for LaunchEvent {
    type V = EventView;

    open spec fn view(&self) -> EventView {
        match self {
            LaunchEvent::Probed { outcome } => EventView::Probed { outcome: outcome@ },
            LaunchEvent::BaseLocated { dir } => EventView::BaseLocated { dir: dir@ },
            LaunchEvent::EntryChecked { exists } => EventView::EntryChecked { exists: *exists },
            LaunchEvent::Spawned { result } => EventView::Spawned {
                result: spawn_result_view(*result),
            },
        }
    }
}

impl View for LaunchAction {
    type V = ActionView;

    open spec fn view(&self) -> ActionView {
        match self {
            LaunchAction::Probe => ActionView::Probe,
            LaunchAction::LocateBase => ActionView::LocateBase,
            LaunchAction::CheckEntry { entry } => ActionView::CheckEntry { entry: entry@ },
            LaunchAction::Spawn { interpreter, entry, workdir } => ActionView::Spawn {
                interpreter: interpreter@,
                entry: entry@,
                workdir: opt_path_view(*workdir),
            },
            LaunchAction::Report { outcome } => ActionView::Report {
                outcome: crate::probe::report_view(*outcome),
            },
        }
    }
}

/// The fixed interpreter the backend is started with.
pub open spec fn interpreter_name() -> Seq<char> {
    "python3"@
}

/// The entry path each locator mode resolves from its base directory.
pub open spec fn spec_entry_path(mode: LocatorMode, base: Seq<char>) -> Seq<char> {
    match mode {
        LocatorMode::InstalledBundle => parent_dir(base) + "/py-backend/main.py"@,
        LocatorMode::Portable => base + "/../py-backend/main.py"@,
    }
}

/// The working directory handed to the child: the application root in
/// installed-bundle mode, the inherited current directory (none) in
/// portable mode.
pub open spec fn spec_workdir(mode: LocatorMode, base: Seq<char>) -> Option<Seq<char>> {
    match mode {
        LocatorMode::InstalledBundle => Some(parent_dir(base)),
        LocatorMode::Portable => None,
    }
}

pub open spec fn already_running_message() -> Seq<char> {
    "Python backend is already running"@
}

pub open spec fn missing_entry_message(entry: Seq<char>) -> Seq<char> {
    "Python backend entry point not found: "@ + entry
}

pub open spec fn started_message(pid: u32) -> Seq<char> {
    "Python backend started successfully (PID: "@ + dec_rep(pid as nat) + ")"@
}

pub open spec fn spawn_error_message(detail: Seq<char>) -> Seq<char> {
    "Failed to start Python backend: "@ + detail
}

pub open spec fn mismatch_message() -> Seq<char> {
    "Launcher received an event that does not fit its phase"@
}

/// The report owed for each spawn attempt: success embedding the child's
/// process identifier, or failure embedding the OS error text.
pub open spec fn spec_spawn_report(result: Result<u32, Seq<char>>) -> Result<Seq<char>, Seq<char>> {
    match result {
        Ok(pid) => Ok(started_message(pid)),
        Err(detail) => Err(spawn_error_message(detail)),
    }
}

/// The event each phase is waiting for. A finished launch waits for none.
pub open spec fn event_fits(ph: PhaseView, ev: EventView) -> bool {
    match ph {
        PhaseView::Start => ev is Probed,
        PhaseView::NeedsBase => ev is BaseLocated,
        PhaseView::NeedsEntryCheck { .. } => ev is EntryChecked,
        PhaseView::NeedsSpawn { .. } => ev is Spawned,
        PhaseView::Finished { .. } => false,
    }
}

/// The launcher's transition relation, one exchange at a time: from the
/// current phase and the observed event to the next phase and the next
/// action. An event that does not fit the phase leaves the phase alone
/// and reports a failure.
pub open spec fn spec_step(mode: LocatorMode, ph: PhaseView, ev: EventView) -> (
    PhaseView,
    ActionView,
) {
    match (ph, ev) {
        (PhaseView::Start, EventView::Probed { outcome }) => if probe_running(outcome) {
            (
                PhaseView::Finished { outcome: Ok(already_running_message()) },
                ActionView::Report { outcome: Ok(already_running_message()) },
            )
        } else {
            (PhaseView::NeedsBase, ActionView::LocateBase)
        },
        (PhaseView::NeedsBase, EventView::BaseLocated { dir }) => {
            let entry = spec_entry_path(mode, dir);
            let workdir = spec_workdir(mode, dir);
            if mode is InstalledBundle {
                (
                    PhaseView::NeedsEntryCheck { entry, workdir },
                    ActionView::CheckEntry { entry },
                )
            } else {
                (
                    PhaseView::NeedsSpawn { entry, workdir },
                    ActionView::Spawn { interpreter: interpreter_name(), entry, workdir },
                )
            }
        },
        (PhaseView::NeedsEntryCheck { entry, workdir }, EventView::EntryChecked { exists }) => if exists {
            (
                PhaseView::NeedsSpawn { entry, workdir },
                ActionView::Spawn { interpreter: interpreter_name(), entry, workdir },
            )
        } else {
            (
                PhaseView::Finished { outcome: Err(missing_entry_message(entry)) },
                ActionView::Report { outcome: Err(missing_entry_message(entry)) },
            )
        },
        (PhaseView::NeedsSpawn { .. }, EventView::Spawned { result }) => (
            PhaseView::Finished { outcome: spec_spawn_report(result) },
            ActionView::Report { outcome: spec_spawn_report(result) },
        ),
        (other, _) => (other, ActionView::Report { outcome: Err(mismatch_message()) }),
    }
}

/// The action that opens every launch: run the probe.
pub fn initial_launch_action() -> (a: LaunchAction)
    ensures
        a@ == ActionView::Probe,
{
    LaunchAction::Probe
}

/// The entry path of the chosen locator mode, exactly as
/// `spec_entry_path` describes it.
pub fn resolve_entry_path(mode: LocatorMode, base: &str) -> (r: String)
    ensures
        r@ == spec_entry_path(mode, base@),
{
    match mode {
        LocatorMode::InstalledBundle => {
            let mut p = parent_of(base);
            p.append("/py-backend/main.py");
            p
        },
        LocatorMode::Portable => {
            let mut p = String::from_str(base);
            p.append("/../py-backend/main.py");
            p
        },
    }
}

/// The child's working directory for the chosen locator mode, exactly as
/// `spec_workdir` describes it.
pub fn resolve_workdir(mode: LocatorMode, base: &str) -> (r: Option<String>)
    ensures
        opt_path_view(r) == spec_workdir(mode, base@),
{
    match mode {
        LocatorMode::InstalledBundle => Some(parent_of(base)),
        LocatorMode::Portable => None,
    }
}

/// The report for a spawn attempt, exactly as `spec_spawn_report`
/// describes it.
pub fn spawn_report(result: Result<u32, String>) -> (r: Result<String, String>)
    ensures
        crate::probe::report_view(r) == spec_spawn_report(spawn_result_view(result)),
{
    match result {
        Ok(pid) => {
            let mut m = String::from_str("Python backend started successfully (PID: ");
            let digits = u32_dec_string(pid);
            m.append(digits.as_str());
            m.append(")");
            Ok(m)
        },
        Err(detail) => {
            let mut m = String::from_str("Failed to start Python backend: ");
            m.append(detail.as_str());
            Err(m)
        },
    }
}

fn clone_report(r: &Result<String, String>) -> (r2: Result<String, String>)
    ensures
        r2 == *r,
{
    match r {
        Ok(m) => Ok(m.clone()),
        Err(m) => Err(m.clone()),
    }
}

fn clone_opt_string(o: &Option<String>) -> (r: Option<String>)
    ensures
        r == *o,
{
    match o {
        Some(p) => Some(p.clone()),
        None => None,
    }
}

/// Drives one exchange of a launch: consumes the current phase and the
/// observed event, returns the next phase and the next action, exactly as
/// `spec_step` describes them.
pub fn launch_step(mode: LocatorMode, phase: LaunchPhase, event: LaunchEvent) -> (r: (
    LaunchPhase,
    LaunchAction,
))
    ensures
        r.0@ == spec_step(mode, phase@, event@).0,
        r.1@ == spec_step(mode, phase@, event@).1,
{
    match (phase, event) {
        (LaunchPhase::Start, LaunchEvent::Probed { outcome }) => if probe_indicates_running(
            &outcome,
        ) {
            let out: Result<String, String> = Ok(
                String::from_str("Python backend is already running"),
            );
            let out2 = clone_report(&out);
            (LaunchPhase::Finished { outcome: out }, LaunchAction::Report { outcome: out2 })
        } else {
            (LaunchPhase::NeedsBase, LaunchAction::LocateBase)
        },
        (LaunchPhase::NeedsBase, LaunchEvent::BaseLocated { dir }) => {
            let entry = resolve_entry_path(mode, dir.as_str());
            let workdir = resolve_workdir(mode, dir.as_str());
            match mode {
                LocatorMode::InstalledBundle => {
                    let entry2 = entry.clone();
                    (
                        LaunchPhase::NeedsEntryCheck { entry, workdir },
                        LaunchAction::CheckEntry { entry: entry2 },
                    )
                },
                LocatorMode::Portable => {
                    let entry2 = entry.clone();
                    let workdir2 = clone_opt_string(&workdir);
                    (
                        LaunchPhase::NeedsSpawn { entry, workdir },
                        LaunchAction::Spawn {
                            interpreter: String::from_str("python3"),
                            entry: entry2,
                            workdir: workdir2,
                        },
                    )
                },
            }
        },
        (LaunchPhase::NeedsEntryCheck { entry, workdir }, LaunchEvent::EntryChecked {
            exists,
        }) => if exists {
            let entry2 = entry.clone();
            let workdir2 = clone_opt_string(&workdir);
            (
                LaunchPhase::NeedsSpawn { entry, workdir },
                LaunchAction::Spawn {
                    interpreter: String::from_str("python3"),
                    entry: entry2,
                    workdir: workdir2,
                },
            )
        } else {
            let mut m = String::from_str("Python backend entry point not found: ");
            m.append(entry.as_str());
            let out: Result<String, String> = Err(m);
            let out2 = clone_report(&out);
            (LaunchPhase::Finished { outcome: out }, LaunchAction::Report { outcome: out2 })
        },
        (LaunchPhase::NeedsSpawn { .. }, LaunchEvent::Spawned { result }) => {
            let out = spawn_report(result);
            let out2 = clone_report(&out);
            (LaunchPhase::Finished { outcome: out }, LaunchAction::Report { outcome: out2 })
        },
        (other, _) => {
            let m = String::from_str("Launcher received an event that does not fit its phase");
            (other, LaunchAction::Report { outcome: Err(m) })
        },
    }
}

/// Phases in the order a launch passes through them.
pub open spec fn phase_rank(ph: PhaseView) -> nat {
    match ph {
        PhaseView::Start => 0,
        PhaseView::NeedsBase => 1,
        PhaseView::NeedsEntryCheck { .. } => 2,
        PhaseView::NeedsSpawn { .. } => 3,
        PhaseView::Finished { .. } => 4,
    }
}

/// Every fitting exchange moves the launch strictly forward: no phase is
/// ever revisited within one launch.
pub proof fn lemma_step_rank_increases(mode: LocatorMode, ph: PhaseView, ev: EventView)
    requires
        event_fits(ph, ev),
    ensures
        phase_rank(spec_step(mode, ph, ev).0) > phase_rank(ph),
{
}

/// A spawn is asked for exactly when the launch enters its spawn phase,
/// and never from anywhere else.
pub proof fn lemma_spawn_enters_spawn_phase(mode: LocatorMode, ph: PhaseView, ev: EventView)
    requires
        event_fits(ph, ev),
    ensures
        spec_step(mode, ph, ev).1 is Spawn <==> spec_step(mode, ph, ev).0 is NeedsSpawn,
{
}

/// The events of one launch, fed in order from `ph`, each fit the phase
/// they meet.
pub open spec fn valid_run(mode: LocatorMode, ph: PhaseView, events: Seq<EventView>) -> bool
    decreases events.len(),
{
    events.len() == 0 || (event_fits(ph, events[0]) && valid_run(
        mode,
        spec_step(mode, ph, events[0]).0,
        events.drop_first(),
    ))
}

/// The actions a launch asks for, in order, when fed `events` from `ph`.
pub open spec fn run_actions(mode: LocatorMode, ph: PhaseView, events: Seq<EventView>) -> Seq<
    ActionView,
>
    decreases events.len(),
{
    if events.len() == 0 {
        Seq::empty()
    } else {
        seq![spec_step(mode, ph, events[0]).1] + run_actions(
            mode,
            spec_step(mode, ph, events[0]).0,
            events.drop_first(),
        )
    }
}

/// The phase a launch stands in after being fed `events` from `ph`.
pub open spec fn run_final(mode: LocatorMode, ph: PhaseView, events: Seq<EventView>) -> PhaseView
    decreases events.len(),
{
    if events.len() == 0 {
        ph
    } else {
        run_final(mode, spec_step(mode, ph, events[0]).0, events.drop_first())
    }
}

/// How many of `actions` are spawn requests.
pub open spec fn spawn_count(actions: Seq<ActionView>) -> nat
    decreases actions.len(),
{
    if actions.len() == 0 {
        0
    } else {
        (if actions[0] is Spawn {
            1nat
        } else {
            0nat
        }) + spawn_count(actions.drop_first())
    }
}

/// One launch asks for at most one spawn, whatever events come in; and a
/// launch that already reached its spawn phase (or finished) asks for
/// none at all. Two concurrent launches may therefore spawn twice — the
/// accepted probe-then-spawn race — but each contributes at most one.
pub proof fn lemma_run_spawn_bound(mode: LocatorMode, ph: PhaseView, events: Seq<EventView>)
    requires
        valid_run(mode, ph, events),
    ensures
        spawn_count(run_actions(mode, ph, events)) <= 1,
        phase_rank(ph) >= 3 ==> spawn_count(run_actions(mode, ph, events)) == 0,
    decreases events.len(),
{
    if events.len() > 0 {
        let ph2 = spec_step(mode, ph, events[0]).0;
        let a = spec_step(mode, ph, events[0]).1;
        let rest = run_actions(mode, ph2, events.drop_first());
        lemma_step_rank_increases(mode, ph, events[0]);
        lemma_spawn_enters_spawn_phase(mode, ph, events[0]);
        lemma_run_spawn_bound(mode, ph2, events.drop_first());
        assert((seq![a] + rest).drop_first() =~= rest);
        assert(run_actions(mode, ph, events) == seq![a] + rest);
    }
}


/// A success report determines the spawned child: two launches that
/// report the same success message reported the same process identifier.
pub proof fn lemma_started_message_determines_pid(p1: u32, p2: u32)
    requires
        started_message(p1) == started_message(p2),
    ensures
        p1 == p2,
{
    let a = "Python backend started successfully (PID: "@;
    let b = ")"@;
    let x1 = dec_rep(p1 as nat);
    let x2 = dec_rep(p2 as nat);
    assert((a + x1 + b).len() == a.len() + x1.len() + b.len());
    assert((a + x2 + b).len() == a.len() + x2.len() + b.len());
    assert(x1.len() == x2.len());
    assert(x1 =~= (a + x1 + b).subrange(a.len() as int, a.len() as int + x1.len() as int));
    assert(x2 =~= (a + x2 + b).subrange(a.len() as int, a.len() as int + x2.len() as int));
    crate::text::lemma_dec_rep_injective(p1 as nat, p2 as nat);
}

/// Unfolds one step of `valid_run`, `run_actions` and `run_final`.
proof fn lemma_run_unfold(mode: LocatorMode, ph: PhaseView, events: Seq<EventView>)
    requires
        events.len() > 0,
    ensures
        valid_run(mode, ph, events) == (event_fits(ph, events[0]) && valid_run(
            mode,
            spec_step(mode, ph, events[0]).0,
            events.drop_first(),
        )),
        run_actions(mode, ph, events) == seq![spec_step(mode, ph, events[0]).1] + run_actions(
            mode,
            spec_step(mode, ph, events[0]).0,
            events.drop_first(),
        ),
        run_final(mode, ph, events) == run_final(
            mode,
            spec_step(mode, ph, events[0]).0,
            events.drop_first(),
        ),
{
}

proof fn lemma_spawn_count_unfold(actions: Seq<ActionView>)
    requires
        actions.len() > 0,
    ensures
        spawn_count(actions) == (if actions[0] is Spawn {
            1nat
        } else {
            0nat
        }) + spawn_count(actions.drop_first()),
{
}

/// When the probe confirms a running backend at the start of a launch,
/// that launch asks for no spawn at all: it finishes at once, reporting
/// success, and accepts no further events.
pub proof fn lemma_already_running_never_spawns(mode: LocatorMode, events: Seq<EventView>)
    requires
        valid_run(mode, PhaseView::Start, events),
        events.len() > 0,
        events[0] matches EventView::Probed { outcome } && probe_running(outcome),
    ensures
        events.len() == 1,
        spawn_count(run_actions(mode, PhaseView::Start, events)) == 0,
        run_final(mode, PhaseView::Start, events) == (PhaseView::Finished {
            outcome: Ok::<Seq<char>, Seq<char>>(already_running_message()),
        }),
{
    let ph1 = spec_step(mode, PhaseView::Start, events[0]).0;
    let a0 = spec_step(mode, PhaseView::Start, events[0]).1;
    let rest = events.drop_first();
    lemma_run_unfold(mode, PhaseView::Start, events);
    assert(ph1 is Finished);
    assert(valid_run(mode, ph1, rest));
    if rest.len() > 0 {
        lemma_run_unfold(mode, ph1, rest);
        assert(false);
    }
    assert(events.len() == 1);
    assert(run_actions(mode, ph1, rest) =~= Seq::<ActionView>::empty());
    let acts = run_actions(mode, PhaseView::Start, events);
    lemma_spawn_count_unfold(acts);
    assert(acts.drop_first() =~= Seq::<ActionView>::empty());
}

/// A portable-mode launch with no backend running and a successful spawn:
/// exactly one spawn is asked for, and the final report is a success
/// embedding the child's process identifier in decimal.
pub proof fn lemma_portable_launch_run(p: ProbeOutcomeView, base: Seq<char>, pid: u32)
    requires
        !probe_running(p),
    ensures
        ({
            let mode = LocatorMode::Portable;
            let events = seq![
                EventView::Probed { outcome: p },
                EventView::BaseLocated { dir: base },
                EventView::Spawned { result: Ok(pid) },
            ];
            &&& valid_run(mode, PhaseView::Start, events)
            &&& spawn_count(run_actions(mode, PhaseView::Start, events)) == 1
            &&& run_final(mode, PhaseView::Start, events) == (PhaseView::Finished {
                outcome: Ok::<Seq<char>, Seq<char>>(started_message(pid)),
            })
        }),
{
    let mode = LocatorMode::Portable;
    let events = seq![
        EventView::Probed { outcome: p },
        EventView::BaseLocated { dir: base },
        EventView::Spawned { result: Ok(pid) },
    ];
    lemma_three_step_run(mode, events);
}

/// An installed-bundle launch with no backend running, an entry that
/// exists, and a successful spawn: exactly one spawn is asked for, and
/// the final report is a success embedding the child's process
/// identifier in decimal.
pub proof fn lemma_installed_launch_run(p: ProbeOutcomeView, base: Seq<char>, pid: u32)
    requires
        !probe_running(p),
    ensures
        ({
            let mode = LocatorMode::InstalledBundle;
            let events = seq![
                EventView::Probed { outcome: p },
                EventView::BaseLocated { dir: base },
                EventView::EntryChecked { exists: true },
                EventView::Spawned { result: Ok(pid) },
            ];
            &&& valid_run(mode, PhaseView::Start, events)
            &&& spawn_count(run_actions(mode, PhaseView::Start, events)) == 1
            &&& run_final(mode, PhaseView::Start, events) == (PhaseView::Finished {
                outcome: Ok::<Seq<char>, Seq<char>>(started_message(pid)),
            })
        }),
{
    let mode = LocatorMode::InstalledBundle;
    let events = seq![
        EventView::Probed { outcome: p },
        EventView::BaseLocated { dir: base },
        EventView::EntryChecked { exists: true },
        EventView::Spawned { result: Ok(pid) },
    ];
    let e1 = events.drop_first();
    let e2 = e1.drop_first();
    let e3 = e2.drop_first();
    let e4 = e3.drop_first();
    assert(e1 =~= seq![
        EventView::BaseLocated { dir: base },
        EventView::EntryChecked { exists: true },
        EventView::Spawned { result: Ok(pid) },
    ]);
    assert(e2 =~= seq![
        EventView::EntryChecked { exists: true },
        EventView::Spawned { result: Ok(pid) },
    ]);
    assert(e3 =~= seq![EventView::Spawned { result: Ok::<u32, Seq<char>>(pid) }]);
    assert(e4 =~= Seq::<EventView>::empty());
    let ph0 = PhaseView::Start;
    let ph1 = spec_step(mode, ph0, events[0]).0;
    let ph2 = spec_step(mode, ph1, e1[0]).0;
    let ph3 = spec_step(mode, ph2, e2[0]).0;
    let ph4 = spec_step(mode, ph3, e3[0]).0;
    lemma_run_unfold(mode, ph0, events);
    lemma_run_unfold(mode, ph1, e1);
    lemma_run_unfold(mode, ph2, e2);
    lemma_run_unfold(mode, ph3, e3);
    assert(run_actions(mode, ph4, e4) =~= Seq::<ActionView>::empty());
    let acts = run_actions(mode, ph0, events);
    let acts1 = run_actions(mode, ph1, e1);
    let acts2 = run_actions(mode, ph2, e2);
    let acts3 = run_actions(mode, ph3, e3);
    lemma_spawn_count_unfold(acts);
    assert(acts.drop_first() =~= acts1);
    lemma_spawn_count_unfold(acts1);
    assert(acts1.drop_first() =~= acts2);
    lemma_spawn_count_unfold(acts2);
    assert(acts2.drop_first() =~= acts3);
    lemma_spawn_count_unfold(acts3);
    assert(acts3.drop_first() =~= Seq::<ActionView>::empty());
}

/// An installed-bundle launch whose resolved entry path does not exist:
/// no spawn is ever asked for, and the final report is a failure naming
/// the unresolved path.
pub proof fn lemma_missing_entry_run(p: ProbeOutcomeView, base: Seq<char>)
    requires
        !probe_running(p),
    ensures
        ({
            let mode = LocatorMode::InstalledBundle;
            let events = seq![
                EventView::Probed { outcome: p },
                EventView::BaseLocated { dir: base },
                EventView::EntryChecked { exists: false },
            ];
            &&& valid_run(mode, PhaseView::Start, events)
            &&& spawn_count(run_actions(mode, PhaseView::Start, events)) == 0
            &&& run_final(mode, PhaseView::Start, events) == (PhaseView::Finished {
                outcome: Err::<Seq<char>, Seq<char>>(
                    missing_entry_message(spec_entry_path(mode, base)),
                ),
            })
        }),
{
    let mode = LocatorMode::InstalledBundle;
    let events = seq![
        EventView::Probed { outcome: p },
        EventView::BaseLocated { dir: base },
        EventView::EntryChecked { exists: false },
    ];
    lemma_three_step_run(mode, events);
}

/// A portable-mode launch whose spawn attempt fails (a bad path only
/// surfaces here, since portable mode checks nothing beforehand): the
/// final report is a failure embedding the OS error text, not a crash.
pub proof fn lemma_spawn_failure_run(p: ProbeOutcomeView, base: Seq<char>, detail: Seq<char>)
    requires
        !probe_running(p),
    ensures
        ({
            let mode = LocatorMode::Portable;
            let events = seq![
                EventView::Probed { outcome: p },
                EventView::BaseLocated { dir: base },
                EventView::Spawned { result: Err(detail) },
            ];
            &&& valid_run(mode, PhaseView::Start, events)
            &&& run_final(mode, PhaseView::Start, events) == (PhaseView::Finished {
                outcome: Err::<Seq<char>, Seq<char>>(spawn_error_message(detail)),
            })
        }),
{
    let mode = LocatorMode::Portable;
    let events = seq![
        EventView::Probed { outcome: p },
        EventView::BaseLocated { dir: base },
        EventView::Spawned { result: Err(detail) },
    ];
    lemma_three_step_run(mode, events);
}

/// Walks any three-event run from the start phase, unfolding every
/// recursive definition one step at a time.
proof fn lemma_three_step_run(mode: LocatorMode, events: Seq<EventView>)
    requires
        events.len() == 3,
    ensures
        ({
            let ph0 = PhaseView::Start;
            let ph1 = spec_step(mode, ph0, events[0]).0;
            let ph2 = spec_step(mode, ph1, events[1]).0;
            let ph3 = spec_step(mode, ph2, events[2]).0;
            &&& valid_run(mode, ph0, events) == (event_fits(ph0, events[0]) && event_fits(
                ph1,
                events[1],
            ) && event_fits(ph2, events[2]))
            &&& run_final(mode, ph0, events) == ph3
            &&& spawn_count(run_actions(mode, ph0, events)) == (if spec_step(
                mode,
                ph0,
                events[0],
            ).1 is Spawn {
                1nat
            } else {
                0nat
            }) + (if spec_step(mode, ph1, events[1]).1 is Spawn {
                1nat
            } else {
                0nat
            }) + (if spec_step(mode, ph2, events[2]).1 is Spawn {
                1nat
            } else {
                0nat
            })
        }),
{
    let e1 = events.drop_first();
    let e2 = e1.drop_first();
    let e3 = e2.drop_first();
    assert(e1 =~= seq![events[1], events[2]]);
    assert(e2 =~= seq![events[2]]);
    assert(e3 =~= Seq::<EventView>::empty());
    let ph0 = PhaseView::Start;
    let ph1 = spec_step(mode, ph0, events[0]).0;
    let ph2 = spec_step(mode, ph1, e1[0]).0;
    let ph3 = spec_step(mode, ph2, e2[0]).0;
    lemma_run_unfold(mode, ph0, events);
    lemma_run_unfold(mode, ph1, e1);
    lemma_run_unfold(mode, ph2, e2);
    assert(run_actions(mode, ph3, e3) =~= Seq::<ActionView>::empty());
    let acts = run_actions(mode, ph0, events);
    let acts1 = run_actions(mode, ph1, e1);
    let acts2 = run_actions(mode, ph2, e2);
    lemma_spawn_count_unfold(acts);
    assert(acts.drop_first() =~= acts1);
    lemma_spawn_count_unfold(acts1);
    assert(acts1.drop_first() =~= acts2);
    lemma_spawn_count_unfold(acts2);
    assert(acts2.drop_first() =~= Seq::<ActionView>::empty());
}

} // verus!
