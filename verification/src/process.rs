//! Supervision of the worker process: start, restart after a crash, and
//! graceful shutdown.
//!
//! The policy is a state machine. The caller owns the child process: it
//! spawns, polls, signals and sleeps, tells the [`ProcessManager`] what it
//! saw, and does what the manager answers.

use vstd::prelude::*;
use vstd::string::StringExecFns;
use crate::clock::NANOS_PER_SEC;

verus! {

/// How often a crashed worker is started again before supervision gives up.
pub const MAX_RESTART_ATTEMPTS: u32 = 5;

/// The least time between two restarts, in seconds.
pub const RESTART_COOLDOWN_SECS: u64 = 5;

/// The time between two liveness reports, in seconds.
pub const HEALTH_CHECK_INTERVAL_SECS: u64 = 10;

/// The time between two looks at the worker by the crash monitor, in
/// seconds.
pub const MONITOR_INTERVAL_SECS: u64 = 1;

/// The time between two looks at a worker that was asked to stop, in
/// milliseconds.
pub const SHUTDOWN_POLL_INTERVAL_MS: u64 = 100;

/// How many such intervals a worker is given to stop by itself: 30 seconds.
pub const SHUTDOWN_MAX_WAITS: u32 = 300;

/// What a look at the child process showed.
#[derive(Debug, Clone)]
pub enum ChildStatus {
    /// The child has not exited.
    Running,
    /// The child has exited, with success or not, and with this exit code
    /// where the platform gives one.
    Exited { success: bool, code: Option<i32> },
    /// The look itself failed, for the reason given.
    Unknown(String),
}

/// Where supervision stands.
#[derive(Debug, Clone, Copy, PartialEq, Eq, Structural)]
pub enum SupervisorState {
    /// No worker was started, or it was shut down.
    Stopped,
    /// A worker was started and has not been seen to exit.
    Running,
    /// The worker exited with success.
    ExitedClean,
    /// The worker exited with failure and has not been replaced.
    Crashed,
    /// A replacement for a crashed worker is owed to the manager.
    Restarting,
    /// The worker crashed once more after the last allowed restart.
    Halted,
}

/// What the crash monitor does next.
#[derive(Debug, Clone, Copy, PartialEq, Eq, Structural)]
pub enum MonitorStep {
    /// Sleep one monitor interval and look at the child again.
    Watch,
    /// End monitoring: the worker exited with success, or its replacement
    /// could not be started.
    Stop,
    /// End monitoring for good: the restarts are used up.
    Halt,
    /// Sleep `wait_secs` seconds, spawn a replacement and report how that
    /// went.
    Respawn { wait_secs: u64 },
}

/// How a shutdown ended well.
#[derive(Debug, Clone, Copy, PartialEq, Eq, Structural)]
pub enum ShutdownOutcome {
    /// No worker was held: nothing was done.
    NotRunning,
    /// The worker exited by itself, with this exit code where the platform
    /// gives one.
    Exited { code: Option<i32> },
    /// The worker did not exit in time and was killed.
    Killed,
}

/// What a shutdown does next.
#[derive(Debug)]
pub enum ShutdownStep {
    /// Sleep one poll interval and look at the child again.
    Wait,
    /// The time is up: kill the child and report how that went.
    ForceKill,
    /// The shutdown is over, well or with the error given.
    Done(Result<ShutdownOutcome, String>),
}

/// How to start the worker.
#[derive(Debug, Clone)]
pub struct LaunchPlan {
    /// The program to run.
    pub program: String,
    /// Its one argument: the script.
    pub script: String,
    /// The directory to run it in.
    pub working_dir: String,
    /// The value of the runtime-mode variable.
    pub node_env: String,
    /// The value of the listening-port variable.
    pub backend_port: String,
}

/// The mathematical content of a [`ProcessManager`].
pub struct ManagerModel {
    pub script: Seq<char>,
    pub working_dir: Seq<char>,
    pub child: Option<u32>,
    pub attempts: u32,
    pub last_restart: Option<u64>,
    pub state: SupervisorState,
}

/// The whole seconds that have passed from `since` to `now`; none where the
/// clock reads earlier than `since`.
pub open spec fn elapsed_secs(since: u64, now: u64) -> int {
    if now >= since {
        (now - since) / (NANOS_PER_SEC as int)
    } else {
        0
    }
}

/// The seconds still to wait before the next restart may begin: what is
/// left of the cooldown since the last restart, counted in whole seconds.
pub open spec fn cooldown_wait(last_restart: Option<u64>, now: u64) -> int {
    match last_restart {
        None => 0,
        Some(since) => if elapsed_secs(since, now) < RESTART_COOLDOWN_SECS {
            RESTART_COOLDOWN_SECS - elapsed_secs(since, now)
        } else {
            0
        },
    }
}

impl ManagerModel {
    /// A manager that has started nothing.
    pub open spec fn fresh(script: Seq<char>, working_dir: Seq<char>) -> ManagerModel {
        ManagerModel {
            script,
            working_dir,
            child: None,
            attempts: 0,
            last_restart: None,
            state: SupervisorState::Stopped,
        }
    }

    /// What always holds of a manager: the restarts never pass the maximum,
    /// and a replacement is owed only while one is still allowed.
    pub open spec fn well_formed(self) -> bool {
        &&& self.attempts <= MAX_RESTART_ATTEMPTS
        &&& self.state == SupervisorState::Restarting ==> self.attempts < MAX_RESTART_ATTEMPTS
    }

    /// Whether the crash monitor is watching a worker: one that runs, or
    /// one whose replacement failed.
    pub open spec fn watching(self) -> bool {
        self.child is Some && (self.state == SupervisorState::Running || self.state
            == SupervisorState::Crashed)
    }

    /// The manager after a worker was started with process id `pid`.
    pub open spec fn started(self, pid: u32) -> ManagerModel {
        ManagerModel { child: Some(pid), state: SupervisorState::Running, ..self }
    }

    /// The manager after the crash monitor saw `status` at time `now`.
    pub open spec fn observed(self, status: ChildStatus, now: u64) -> ManagerModel {
        if !self.watching() {
            self
        } else {
            match status {
                ChildStatus::Running => self,
                ChildStatus::Unknown(_) => self,
                ChildStatus::Exited { success, code } => if success {
                    ManagerModel { attempts: 0, state: SupervisorState::ExitedClean, ..self }
                } else if self.attempts >= MAX_RESTART_ATTEMPTS {
                    ManagerModel { state: SupervisorState::Halted, ..self }
                } else {
                    ManagerModel { state: SupervisorState::Restarting, ..self }
                },
            }
        }
    }

    /// What the crash monitor does after it saw `status` at time `now`.
    pub open spec fn step(self, status: ChildStatus, now: u64) -> MonitorStep {
        if self.state == SupervisorState::Halted {
            MonitorStep::Halt
        } else if !self.watching() {
            MonitorStep::Watch
        } else {
            match status {
                ChildStatus::Running => MonitorStep::Watch,
                ChildStatus::Unknown(_) => MonitorStep::Watch,
                ChildStatus::Exited { success, code } => if success {
                    MonitorStep::Stop
                } else if self.attempts >= MAX_RESTART_ATTEMPTS {
                    MonitorStep::Halt
                } else {
                    MonitorStep::Respawn { wait_secs: cooldown_wait(self.last_restart, now) as u64 }
                },
            }
        }
    }

    /// The manager after a replacement was tried at time `now`: `spawned`
    /// holds the new process id, or nothing where the spawn failed. The
    /// attempt counts either way.
    pub open spec fn respawned(self, spawned: Option<u32>, now: u64) -> ManagerModel {
        if self.state != SupervisorState::Restarting {
            self
        } else {
            match spawned {
                Some(pid) => ManagerModel {
                    child: Some(pid),
                    attempts: (self.attempts + 1) as u32,
                    last_restart: Some(now),
                    state: SupervisorState::Running,
                    ..self
                },
                None => ManagerModel {
                    attempts: (self.attempts + 1) as u32,
                    state: SupervisorState::Crashed,
                    ..self
                },
            }
        }
    }

    /// What the crash monitor does after a replacement was tried.
    pub open spec fn after_respawn(self, spawned: Option<u32>) -> MonitorStep {
        if self.state == SupervisorState::Restarting && spawned is Some {
            MonitorStep::Watch
        } else {
            MonitorStep::Stop
        }
    }

    /// The manager after a shutdown was begun: it holds no worker.
    pub open spec fn released(self) -> ManagerModel {
        match self.child {
            Some(_) => ManagerModel { child: None, state: SupervisorState::Stopped, ..self },
            None => self,
        }
    }
}

/// One round of a worker that keeps crashing: its exit with failure is seen
/// at `seen_at`, and where a replacement is asked for, `spawned` says how the
/// spawn went at `spawned_at`.
pub struct CrashRound {
    pub seen_at: u64,
    pub code: Option<i32>,
    pub spawned: Option<u32>,
    pub spawned_at: u64,
}

/// The status of a worker that exited with failure.
pub open spec fn crashed(code: Option<i32>) -> ChildStatus {
    ChildStatus::Exited { success: false, code }
}

/// The status of a worker that exited with success.
pub open spec fn exited_clean(code: Option<i32>) -> ChildStatus {
    ChildStatus::Exited { success: true, code }
}

impl ManagerModel {
    /// The manager after one round of crash and, where asked for, restart.
    pub open spec fn after_round(self, round: CrashRound) -> ManagerModel {
        self.observed(crashed(round.code), round.seen_at).respawned(
            round.spawned,
            round.spawned_at,
        )
    }

    /// How many replacements the monitor asks for over the given rounds.
    pub open spec fn respawns(self, rounds: Seq<CrashRound>) -> nat
        decreases rounds.len(),
    {
        if rounds.len() == 0 {
            0
        } else {
            let round = rounds.first();
            let asked: nat = if self.step(crashed(round.code), round.seen_at) is Respawn {
                1
            } else {
                0
            };
            asked + self.after_round(round).respawns(rounds.drop_first())
        }
    }
}

/// The restarts are bounded: however often the worker crashes, and however
/// the spawns go, the monitor asks for no more replacements than are left
/// up to [`MAX_RESTART_ATTEMPTS`]; from a counter of 0 that is at most 5.
pub proof fn lemma_restarts_are_bounded(m: ManagerModel, rounds: Seq<CrashRound>)
    requires
        m.well_formed(),
    ensures
        m.respawns(rounds) + m.attempts <= MAX_RESTART_ATTEMPTS,
    decreases rounds.len(),
{
    if rounds.len() > 0 {
        lemma_restarts_are_bounded(m.after_round(rounds.first()), rounds.drop_first());
    }
}

/// Once the restarts are used up, the next crash halts supervision, and a
/// halted supervision stays halted whatever is seen.
pub proof fn lemma_halts_after_last_restart(
    m: ManagerModel,
    code: Option<i32>,
    status: ChildStatus,
    now: u64,
    later: u64,
)
    requires
        m.well_formed(),
        m.watching(),
        m.attempts == MAX_RESTART_ATTEMPTS,
    ensures
        m.step(crashed(code), now) == MonitorStep::Halt,
        m.observed(crashed(code), now).state == SupervisorState::Halted,
        m.observed(crashed(code), now).step(status, later) == MonitorStep::Halt,
        m.observed(crashed(code), now).observed(status, later) == m.observed(crashed(code), now),
{
}

/// An exit with success sets the restart counter back to 0.
pub proof fn lemma_clean_exit_resets(m: ManagerModel, code: Option<i32>, now: u64)
    requires
        m.watching(),
    ensures
        m.observed(exited_clean(code), now).attempts == 0,
        m.step(exited_clean(code), now) == MonitorStep::Stop,
{
}

/// The cooldown: a replacement is not begun sooner than
/// [`RESTART_COOLDOWN_SECS`] after the restart before it. With the last
/// restart at `since` and the crash seen at `now`, the wait that the
/// monitor asks for ends no earlier than `since` plus the cooldown.
pub proof fn lemma_restart_respects_cooldown(
    m: ManagerModel,
    status: ChildStatus,
    since: u64,
    now: u64,
)
    requires
        m.well_formed(),
        m.last_restart == Some(since),
        since <= now,
        m.step(status, now) is Respawn,
    ensures
        m.step(status, now) matches MonitorStep::Respawn { wait_secs } && now + wait_secs
            * NANOS_PER_SEC >= since + RESTART_COOLDOWN_SECS * NANOS_PER_SEC,
{
}

/// The process id where a spawn went well.
pub open spec fn spawned_pid(outcome: Result<u32, String>) -> Option<u32> {
    match outcome {
        Ok(pid) => Some(pid),
        Err(_) => None,
    }
}

/// The value of an environment variable for the worker: the supervisor's
/// own where it has one, else the default.
pub open spec fn env_or_default(own: Option<String>, default: Seq<char>) -> Seq<char> {
    match own {
        Some(value) => value@,
        None => default,
    }
}

/// Supervises one worker process.
pub struct ProcessManager {
    child: Option<u32>,
    backend_script: String,
    working_dir: String,
    restart_attempts: u32,
    last_restart: Option<u64>,
    state: SupervisorState,
}

impl View for ProcessManager {
    type V = ManagerModel;

    closed spec fn view(&self) -> ManagerModel {
        ManagerModel {
            script: self.backend_script@,
            working_dir: self.working_dir@,
            child: self.child,
            attempts: self.restart_attempts,
            last_restart: self.last_restart,
            state: self.state,
        }
    }
}

impl ProcessManager {
    #[verifier::type_invariant]
    spec fn inv(self) -> bool {
        self@.well_formed()
    }

    /// A manager for the given script, to run in the given directory.
    /// Nothing is started yet.
    pub fn new(backend_script: String, working_dir: String) -> (pm: ProcessManager)
        ensures
            pm@ == ManagerModel::fresh(backend_script@, working_dir@),
    {
        ProcessManager {
            child: None,
            backend_script,
            working_dir,
            restart_attempts: 0,
            last_restart: None,
            state: SupervisorState::Stopped,
        }
    }

    /// How to spawn the worker, the first time and every time after: the
    /// program `node` with the script as its argument, in the working
    /// directory. `node_env` and `backend_port` are the supervisor's own
    /// values of the two environment variables; the worker gets them, or
    /// `production` and `3000` where the supervisor has none.
    pub fn launch_plan(&self, node_env: Option<String>, backend_port: Option<String>) -> (plan:
        LaunchPlan)
        ensures
            plan.program@ == "node"@,
            plan.script@ == self@.script,
            plan.working_dir@ == self@.working_dir,
            plan.node_env@ == env_or_default(node_env, "production"@),
            plan.backend_port@ == env_or_default(backend_port, "3000"@),
    {
        LaunchPlan {
            program: String::from_str("node"),
            script: self.backend_script.clone(),
            working_dir: self.working_dir.clone(),
            node_env: match node_env {
                Some(value) => value,
                None => String::from_str("production"),
            },
            backend_port: match backend_port {
                Some(value) => value,
                None => String::from_str("3000"),
            },
        }
    }

    /// Takes in how the first spawn went. With a process id the manager
    /// holds the worker and supervision is `Running`; with an error nothing
    /// changes and the error is handed on under the heading
    /// `Failed to start backend: `.
    pub fn start_node_backend(&mut self, spawned: Result<u32, String>) -> (r: Result<(), String>)
        ensures
            match spawned {
                Ok(pid) => r is Ok && final(self)@ == old(self)@.started(pid),
                Err(reason) => r matches Err(text) && text@ == "Failed to start backend: "@
                    + reason@ && final(self)@ == old(self)@,
            },
    {
        proof {
            use_type_invariant(&*self);
        }
        match spawned {
            Ok(pid) => {
                self.child = Some(pid);
                self.state = SupervisorState::Running;
                Ok(())
            },
            Err(reason) => Err(String::from_str("Failed to start backend: ").concat(reason.as_str())),
        }
    }

    /// The seconds to wait before a restart that is decided at `now`.
    fn cooldown_wait_secs(&self, now: u64) -> (wait: u64)
        ensures
            wait == cooldown_wait(self@.last_restart, now),
            wait <= RESTART_COOLDOWN_SECS,
    {
        match self.last_restart {
            None => 0,
            Some(since) => {
                let elapsed: u64 = if now >= since {
                    (now - since) / NANOS_PER_SEC
                } else {
                    0
                };
                if elapsed < RESTART_COOLDOWN_SECS {
                    RESTART_COOLDOWN_SECS - elapsed
                } else {
                    0
                }
            },
        }
    }

    /// One round of the crash monitor: takes in what a look at the child
    /// showed at time `now` (nanoseconds on a monotonic clock) and says
    /// what to do next.
    ///
    /// While the worker runs, or the look failed, the monitor keeps
    /// watching. An exit with success sets the restart counter back to 0
    /// and ends monitoring. An exit with failure asks for a replacement,
    /// after what is left of the cooldown, unless the counter has reached
    /// [`MAX_RESTART_ATTEMPTS`]: then supervision halts, and stays halted
    /// whatever is seen later. While no worker is held, or while a
    /// replacement is owed, there is nothing to see and the monitor keeps
    /// watching.
    pub fn restart_on_crash(&mut self, status: &ChildStatus, now: u64) -> (step: MonitorStep)
        ensures
            final(self)@ == old(self)@.observed(*status, now),
            step == old(self)@.step(*status, now),
    {
        proof {
            use_type_invariant(&*self);
        }
        if self.state == SupervisorState::Halted {
            return MonitorStep::Halt;
        }
        let watching = self.child.is_some() && (self.state == SupervisorState::Running
            || self.state == SupervisorState::Crashed);
        if !watching {
            return MonitorStep::Watch;
        }
        match status {
            ChildStatus::Running => MonitorStep::Watch,
            ChildStatus::Unknown(_) => MonitorStep::Watch,
            ChildStatus::Exited { success, code } => {
                if *success {
                    self.restart_attempts = 0;
                    self.state = SupervisorState::ExitedClean;
                    MonitorStep::Stop
                } else if self.restart_attempts >= MAX_RESTART_ATTEMPTS {
                    self.state = SupervisorState::Halted;
                    MonitorStep::Halt
                } else {
                    let wait_secs = self.cooldown_wait_secs(now);
                    self.state = SupervisorState::Restarting;
                    MonitorStep::Respawn { wait_secs }
                }
            },
        }
    }

    /// Takes in how the spawn of a replacement went, at time `now`, and
    /// says what the crash monitor does next.
    ///
    /// The attempt is counted whether it went well or not. A replacement
    /// that runs is held and watched, and `now` becomes the time of the
    /// last restart. One that could not be spawned ends monitoring; the
    /// dead worker stays held, so a later round of the monitor sees its
    /// exit again. Where no replacement is owed, nothing changes.
    pub fn restart_finished(&mut self, spawned: Result<u32, String>, now: u64) -> (step:
        MonitorStep)
        ensures
            final(self)@ == old(self)@.respawned(spawned_pid(spawned), now),
            step == old(self)@.after_respawn(spawned_pid(spawned)),
    {
        proof {
            use_type_invariant(&*self);
        }
        if self.state != SupervisorState::Restarting {
            return MonitorStep::Stop;
        }
        match spawned {
            Ok(pid) => {
                self.child = Some(pid);
                self.state = SupervisorState::Running;
                self.restart_attempts = self.restart_attempts + 1;
                self.last_restart = Some(now);
                MonitorStep::Watch
            },
            Err(_) => {
                self.state = SupervisorState::Crashed;
                self.restart_attempts = self.restart_attempts + 1;
                MonitorStep::Stop
            },
        }
    }

    /// Whether a worker is held just now. This looks, and mends nothing.
    pub fn health_check(&self) -> (alive: bool)
        ensures
            alive == (self@.child is Some),
    {
        self.child.is_some()
    }

    /// Begins a graceful shutdown. Where a worker is held, the manager lets
    /// go of it and hands out the shutdown to run on it: the caller sends
    /// the worker the signal to terminate and then follows
    /// [`Shutdown::observe`]. Where none is held, nothing changes and there
    /// is nothing to run: the shutdown has ended well already.
    pub fn shutdown_gracefully(&mut self) -> (r: Option<Shutdown>)
        ensures
            final(self)@ == old(self)@.released(),
            match old(self)@.child {
                Some(pid) => r matches Some(shutdown) && shutdown@ == ShutdownModel::begun(pid),
                None => r is None,
            },
    {
        proof {
            use_type_invariant(&*self);
        }
        match self.child {
            Some(pid) => {
                self.child = None;
                self.state = SupervisorState::Stopped;
                Some(Shutdown { pid, waited: 0 })
            },
            None => None,
        }
    }

    /// Whether a worker is held.
    pub fn is_running(&self) -> (running: bool)
        ensures
            running == (self@.child is Some),
    {
        self.child.is_some()
    }

    /// The process id of the worker that is held.
    pub fn get_pid(&self) -> (pid: Option<u32>)
        ensures
            pid == self@.child,
    {
        self.child
    }

    /// How many restarts were tried since the last exit with success.
    pub fn get_restart_attempts(&self) -> (attempts: u32)
        ensures
            attempts == self@.attempts,
            attempts <= MAX_RESTART_ATTEMPTS,
    {
        proof {
            use_type_invariant(self);
        }
        self.restart_attempts
    }

    /// Where supervision stands.
    pub fn state(&self) -> (state: SupervisorState)
        ensures
            state == self@.state,
    {
        self.state
    }
}

/// The mathematical content of a [`Shutdown`].
pub struct ShutdownModel {
    pub pid: u32,
    pub waited: u32,
}

impl ShutdownModel {
    /// A shutdown that has not waited yet.
    pub open spec fn begun(pid: u32) -> ShutdownModel {
        ShutdownModel { pid, waited: 0 }
    }

    /// The shutdown after a look at the child showed `status`: a look that
    /// finds it running, with time left, uses up one wait.
    pub open spec fn observed(self, status: ChildStatus) -> ShutdownModel {
        match status {
            ChildStatus::Running => if self.waited < SHUTDOWN_MAX_WAITS {
                ShutdownModel { waited: (self.waited + 1) as u32, ..self }
            } else {
                self
            },
            _ => self,
        }
    }

    /// Whether a look that shows `status` ends the waiting with a kill.
    pub open spec fn times_out(self, status: ChildStatus) -> bool {
        status is Running && self.waited >= SHUTDOWN_MAX_WAITS
    }
}

/// A graceful shutdown in progress, on a worker that the manager has let go
/// of.
#[derive(Debug)]
pub struct Shutdown {
    pid: u32,
    waited: u32,
}

impl View for Shutdown {
    type V = ShutdownModel;

    closed spec fn view(&self) -> ShutdownModel {
        ShutdownModel { pid: self.pid, waited: self.waited }
    }
}

impl Shutdown {
    /// The process id of the worker to stop.
    pub fn pid(&self) -> (pid: u32)
        ensures
            pid == self@.pid,
    {
        self.pid
    }

    /// How many poll intervals were waited so far.
    pub fn waited(&self) -> (waited: u32)
        ensures
            waited == self@.waited,
    {
        self.waited
    }

    /// Takes in what a look at the child showed and says what to do next.
    ///
    /// An exit ends the shutdown well, with the exit code that was seen. A
    /// look that failed ends it with an error under the heading
    /// `Shutdown error: `. A worker that still runs is waited for, one poll
    /// interval at a time, [`SHUTDOWN_MAX_WAITS`] times; found running
    /// after the last wait, it is to be killed.
    pub fn observe(&mut self, status: &ChildStatus) -> (step: ShutdownStep)
        ensures
            final(self)@ == old(self)@.observed(*status),
            match *status {
                ChildStatus::Exited { success, code } => step matches ShutdownStep::Done(Ok(how))
                    && how == (ShutdownOutcome::Exited { code }),
                ChildStatus::Unknown(reason) => step matches ShutdownStep::Done(Err(text))
                    && text@ == "Shutdown error: "@ + reason@,
                ChildStatus::Running => if old(self)@.times_out(*status) {
                    step is ForceKill
                } else {
                    step is Wait
                },
            },
    {
        match status {
            ChildStatus::Exited { success, code } => ShutdownStep::Done(
                Ok(ShutdownOutcome::Exited { code: *code }),
            ),
            ChildStatus::Unknown(reason) => ShutdownStep::Done(
                Err(String::from_str("Shutdown error: ").concat(reason.as_str())),
            ),
            ChildStatus::Running => {
                if self.waited < SHUTDOWN_MAX_WAITS {
                    self.waited = self.waited + 1;
                    ShutdownStep::Wait
                } else {
                    ShutdownStep::ForceKill
                }
            },
        }
    }

    /// Takes in how the kill went and gives the end of the shutdown: well
    /// where the worker was killed, else an error under the heading
    /// `Force kill failed: `.
    pub fn killed(self, outcome: Result<(), String>) -> (r: Result<ShutdownOutcome, String>)
        ensures
            match outcome {
                Ok(_) => r matches Ok(how) && how == ShutdownOutcome::Killed,
                Err(reason) => r matches Err(text) && text@ == "Force kill failed: "@ + reason@,
            },
    {
        match outcome {
            Ok(_) => Ok(ShutdownOutcome::Killed),
            Err(reason) => Err(String::from_str("Force kill failed: ").concat(reason.as_str())),
        }
    }
}

} // verus!
