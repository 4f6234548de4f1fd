//! Supervision of the overlay and background render surfaces: heartbeats,
//! stall detection and bounded recovery with exponential backoff.
//!
//! Times are milliseconds on a monotonic clock that the caller reads.

use vstd::prelude::*;
use vstd::arithmetic::power2::{lemma2_to64, pow2};
use crate::text::text_eq;

verus! {

/// Largest exponent of the recovery backoff, which caps it at 16 seconds.
pub const MAX_BACKOFF_EXPONENT: u32 = 4;

/// Thresholds of the watchdog, in milliseconds and crashes.
#[derive(Clone, Copy, Debug, PartialEq, Eq, Structural)]
pub struct WatchdogConfig {
    /// Time after process start during which no recovery is triggered.
    pub grace_period_ms: u64,
    /// Age after which a surface that never sent a heartbeat has stalled.
    pub startup_timeout_ms: u64,
    /// Silence after which a running surface has stalled.
    pub heartbeat_timeout_ms: u64,
    /// Number of crashes beyond which a surface is given up.
    pub giveup_threshold: u32,
    /// Time between two evaluations.
    pub interval_ms: u64,
}

/// The reference thresholds: evaluation every 5 s after a grace period of
/// 30 s, 30 s to start, 15 s between heartbeats, given up after more than 3
/// crashes.
pub open spec fn reference_config() -> WatchdogConfig {
    WatchdogConfig {
        grace_period_ms: 30_000,
        startup_timeout_ms: 30_000,
        heartbeat_timeout_ms: 15_000,
        giveup_threshold: 3,
        interval_ms: 5_000,
    }
}

impl WatchdogConfig {
    /// The reference thresholds.
    pub fn reference() -> (cfg: WatchdogConfig)
        ensures
            cfg == reference_config(),
    {
        WatchdogConfig {
            grace_period_ms: 30_000,
            startup_timeout_ms: 30_000,
            heartbeat_timeout_ms: 15_000,
            giveup_threshold: 3,
            interval_ms: 5_000,
        }
    }
}

/// Health record of one supervised surface.
#[derive(Clone, Copy, Debug, PartialEq, Eq, Structural)]
pub struct WindowHealth {
    /// When the surface was created or last recreated.
    pub created_at: u64,
    /// When its content last signalled that it is alive, if ever since then.
    pub last_heartbeat: Option<u64>,
    /// Whether a heartbeat arrived since the surface was created.
    pub init_complete: bool,
    /// How often the surface was recovered; never reset.
    pub crash_count: u32,
}

/// The two supervised surfaces.
#[derive(Clone, Copy, Debug, PartialEq, Eq, Structural)]
pub enum Surface {
    Overlay,
    Background,
}

/// What the watchdog finds of a surface.
#[derive(Clone, Copy, Debug, PartialEq, Eq, Structural)]
pub enum SurfaceState {
    /// Created, no heartbeat yet, still within the startup timeout.
    Initializing,
    /// Heartbeats arrive in time.
    Healthy,
    /// No heartbeat arrived within the startup timeout.
    StalledAtStartup,
    /// Heartbeats stopped for longer than the heartbeat timeout.
    StalledWhileRunning,
    /// Recovered too often; left closed for the rest of the process.
    GivenUp,
}

/// What to do for a surface that has stalled: destroy it and, unless it is
/// given up with this crash, wait and recreate it.
#[derive(Clone, Copy, Debug, PartialEq, Eq, Structural)]
pub struct RecoveryPlan {
    pub surface: Surface,
    /// The stall that was found.
    pub cause: SurfaceState,
    /// The crash count after this recovery was counted.
    pub crash_count: u32,
    /// Seconds to wait before the surface is recreated.
    pub backoff_secs: u64,
    /// Whether this crash took the count beyond the giveup threshold: the
    /// surface is then destroyed and stays closed, it is not recreated.
    pub gives_up: bool,
}

/// Milliseconds from `earlier` to `now`, zero when `now` is not later.
pub open spec fn elapsed(now: u64, earlier: u64) -> int {
    if now >= earlier {
        now - earlier
    } else {
        0
    }
}

/// Seconds to wait before recreating a surface that has crashed
/// `crash_count` times: two to the power of the count, capped at 16.
pub open spec fn backoff_of(crash_count: u32) -> nat {
    pow2(
        if crash_count <= MAX_BACKOFF_EXPONENT {
            crash_count as nat
        } else {
            MAX_BACKOFF_EXPONENT as nat
        },
    )
}

/// A record as it is right after the surface was created at `now`.
pub open spec fn fresh(now: u64, crash_count: u32) -> WindowHealth {
    WindowHealth { created_at: now, last_heartbeat: None, init_complete: false, crash_count }
}

impl WindowHealth {
    /// The moment that silence is measured from: the last heartbeat, or the
    /// creation when none arrived.
    pub open spec fn last_sign_of_life(self) -> u64 {
        match self.last_heartbeat {
            Some(t) => t,
            None => self.created_at,
        }
    }

    /// The state that the watchdog finds at `now`.
    pub open spec fn state_at(self, now: u64, cfg: WatchdogConfig) -> SurfaceState {
        if self.crash_count > cfg.giveup_threshold {
            SurfaceState::GivenUp
        } else if !self.init_complete {
            if elapsed(now, self.created_at) > cfg.startup_timeout_ms {
                SurfaceState::StalledAtStartup
            } else {
                SurfaceState::Initializing
            }
        } else if elapsed(now, self.last_sign_of_life()) > cfg.heartbeat_timeout_ms {
            SurfaceState::StalledWhileRunning
        } else {
            SurfaceState::Healthy
        }
    }

    /// The record after a heartbeat at `now`.
    pub open spec fn after_heartbeat(self, now: u64) -> WindowHealth {
        WindowHealth {
            created_at: self.created_at,
            last_heartbeat: Some(now),
            init_complete: true,
            crash_count: self.crash_count,
        }
    }

    /// The record of a surface created at `now` that never crashed.
    pub fn new(now: u64) -> (health: WindowHealth)
        ensures
            health == fresh(now, 0),
    {
        WindowHealth { created_at: now, last_heartbeat: None, init_complete: false, crash_count: 0 }
    }

    /// Records that the surface was created again at `now`. The crash count
    /// is kept: it counts for the whole life of the process.
    pub fn recreated(&mut self, now: u64)
        ensures
            *final(self) == fresh(now, old(self).crash_count),
    {
        self.created_at = now;
        self.last_heartbeat = None;
        self.init_complete = false;
    }

    /// Records a heartbeat at `now`. The first one since creation completes
    /// initialization and returns the startup time in milliseconds.
    pub fn heartbeat(&mut self, now: u64) -> (startup_ms: Option<u64>)
        ensures
            *final(self) == old(self).after_heartbeat(now),
            startup_ms == if old(self).init_complete {
                None
            } else {
                Some(elapsed(now, old(self).created_at) as u64)
            },
    {
        let startup_ms = if self.init_complete {
            None
        } else {
            Some(
                if now >= self.created_at {
                    now - self.created_at
                } else {
                    0
                },
            )
        };
        self.init_complete = true;
        self.last_heartbeat = Some(now);
        startup_ms
    }

    /// What the watchdog finds of this surface at `now`.
    pub fn evaluate(&self, now: u64, cfg: &WatchdogConfig) -> (state: SurfaceState)
        ensures
            state == self.state_at(now, *cfg),
    {
        if self.crash_count > cfg.giveup_threshold {
            SurfaceState::GivenUp
        } else if !self.init_complete {
            let age = if now >= self.created_at {
                now - self.created_at
            } else {
                0
            };
            if age > cfg.startup_timeout_ms {
                SurfaceState::StalledAtStartup
            } else {
                SurfaceState::Initializing
            }
        } else {
            let since = match self.last_heartbeat {
                Some(t) => t,
                None => self.created_at,
            };
            let silence = if now >= since {
                now - since
            } else {
                0
            };
            if silence > cfg.heartbeat_timeout_ms {
                SurfaceState::StalledWhileRunning
            } else {
                SurfaceState::Healthy
            }
        }
    }

    /// Starts a recovery at `now`: counts the crash and resets the record as
    /// if the surface had just been created, so that the watchdog does not
    /// fire again while the recovery is under way. Returns the seconds to
    /// wait before the surface is recreated.
    pub fn begin_recovery(&mut self, now: u64) -> (backoff_secs: u64)
        requires
            old(self).crash_count < u32::MAX,
        ensures
            *final(self) == fresh(now, (old(self).crash_count + 1) as u32),
            backoff_secs == backoff_of((old(self).crash_count + 1) as u32),
    {
        self.crash_count = self.crash_count + 1;
        self.created_at = now;
        self.last_heartbeat = None;
        self.init_complete = false;
        backoff_secs(self.crash_count)
    }
}

/// Seconds to wait before recreating a surface that has crashed
/// `crash_count` times.
pub fn backoff_secs(crash_count: u32) -> (secs: u64)
    ensures
        secs == backoff_of(crash_count),
        1 <= secs <= 16,
{
    proof {
        lemma2_to64();
    }
    if crash_count == 0 {
        1
    } else if crash_count == 1 {
        2
    } else if crash_count == 2 {
        4
    } else if crash_count == 3 {
        8
    } else {
        16
    }
}

/// A surface that crashed more often than the threshold allows is given up,
/// whatever its heartbeats say, and stays so after any further heartbeat or
/// recreation.
pub proof fn lemma_given_up_is_terminal(h: WindowHealth, now: u64, later: u64, cfg: WatchdogConfig)
    requires
        h.crash_count > cfg.giveup_threshold,
    ensures
        h.state_at(now, cfg) == SurfaceState::GivenUp,
        h.after_heartbeat(now).state_at(later, cfg) == SurfaceState::GivenUp,
        fresh(now, h.crash_count).state_at(later, cfg) == SurfaceState::GivenUp,
{
}

/// A record that was just reset is not found stalled before the startup
/// timeout has passed; with the reference thresholds this covers the longest
/// backoff.
pub proof fn lemma_no_refire_during_recovery(
    now: u64,
    later: u64,
    crash_count: u32,
    cfg: WatchdogConfig,
)
    requires
        elapsed(later, now) <= cfg.startup_timeout_ms,
    ensures
        fresh(now, crash_count).state_at(later, cfg) == SurfaceState::Initializing || fresh(
            now,
            crash_count,
        ).state_at(later, cfg) == SurfaceState::GivenUp,
        backoff_of(crash_count) * 1000 <= reference_config().startup_timeout_ms,
{
    lemma2_to64();
}

/// With the reference thresholds a surface that never sent a heartbeat has
/// stalled exactly when it is older than 30 seconds, unless it is given up.
pub proof fn lemma_startup_stall(h: WindowHealth, now: u64)
    requires
        !h.init_complete,
        h.crash_count <= 3,
    ensures
        h.state_at(now, reference_config()) == SurfaceState::StalledAtStartup <==> elapsed(
            now,
            h.created_at,
        ) > 30_000,
{
}

impl WatchdogConfig {
    /// The giveup threshold leaves room to count one more crash.
    pub open spec fn wf(self) -> bool {
        self.giveup_threshold < u32::MAX
    }
}

/// Whether the state is one of the two stalls that trigger a recovery.
pub open spec fn is_stalled(state: SurfaceState) -> bool {
    state == SurfaceState::StalledAtStartup || state == SurfaceState::StalledWhileRunning
}

/// The surface that a window label names, if any.
pub open spec fn surface_named(label: Seq<char>) -> Option<Surface> {
    if label == "overlay"@ {
        Some(Surface::Overlay)
    } else if label == "background"@ {
        Some(Surface::Background)
    } else {
        None
    }
}

/// What one watchdog evaluation makes of a surface's record: the record
/// afterwards and the recovery to carry out, if any.
pub open spec fn evaluated(
    record: Option<WindowHealth>,
    surface: Surface,
    now: u64,
    cfg: WatchdogConfig,
    in_grace: bool,
) -> (Option<WindowHealth>, Option<RecoveryPlan>) {
    match record {
        Some(h) if !in_grace && is_stalled(h.state_at(now, cfg)) => (
            Some(fresh(now, (h.crash_count + 1) as u32)),
            Some(
                RecoveryPlan {
                    surface,
                    cause: h.state_at(now, cfg),
                    crash_count: (h.crash_count + 1) as u32,
                    backoff_secs: backoff_of((h.crash_count + 1) as u32) as u64,
                    gives_up: h.crash_count + 1 > cfg.giveup_threshold,
                },
            ),
        ),
        _ => (record, None),
    }
}

/// The surface that a window label names, if any.
pub fn surface_of_label(label: &str) -> (surface: Option<Surface>)
    ensures
        surface == surface_named(label@),
{
    if text_eq(label, "overlay") {
        Some(Surface::Overlay)
    } else if text_eq(label, "background") {
        Some(Surface::Background)
    } else {
        None
    }
}

/// The health records of both surfaces and the time the process started.
#[derive(Clone, Copy, Debug, PartialEq, Eq, Structural)]
pub struct Supervisor {
    pub started_at: u64,
    pub overlay: Option<WindowHealth>,
    pub background: Option<WindowHealth>,
}

impl Supervisor {
    /// The record of a surface, if the surface was ever created.
    pub open spec fn record(self, surface: Surface) -> Option<WindowHealth> {
        match surface {
            Surface::Overlay => self.overlay,
            Surface::Background => self.background,
        }
    }

    /// Whether `now` is within the grace period after process start.
    pub open spec fn in_grace(self, now: u64, cfg: WatchdogConfig) -> bool {
        elapsed(now, self.started_at) < cfg.grace_period_ms
    }

    /// A supervisor of a process started at `now`, with no surface yet.
    pub fn new(now: u64) -> (supervisor: Supervisor)
        ensures
            supervisor == (Supervisor { started_at: now, overlay: None, background: None }),
    {
        Supervisor { started_at: now, overlay: None, background: None }
    }

    fn get(&self, surface: Surface) -> (record: Option<WindowHealth>)
        ensures
            record == self.record(surface),
    {
        match surface {
            Surface::Overlay => self.overlay,
            Surface::Background => self.background,
        }
    }

    fn put(&mut self, surface: Surface, record: Option<WindowHealth>)
        ensures
            final(self).record(surface) == record,
            final(self).started_at == old(self).started_at,
            forall|other: Surface|
                other != surface ==> final(self).record(other) == old(self).record(other),
    {
        match surface {
            Surface::Overlay => {
                self.overlay = record;
            },
            Surface::Background => {
                self.background = record;
            },
        }
    }

    /// Records that a surface was created or recreated at `now`. Its crash
    /// count is kept; a surface created for the first time starts at zero.
    pub fn surface_created(&mut self, surface: Surface, now: u64)
        ensures
            final(self).record(surface) == Some(
                fresh(
                    now,
                    match old(self).record(surface) {
                        Some(h) => h.crash_count,
                        None => 0,
                    },
                ),
            ),
            final(self).started_at == old(self).started_at,
            forall|other: Surface|
                other != surface ==> final(self).record(other) == old(self).record(other),
    {
        let crash_count = match self.get(surface) {
            Some(h) => h.crash_count,
            None => 0,
        };
        self.put(
            surface,
            Some(
                WindowHealth {
                    created_at: now,
                    last_heartbeat: None,
                    init_complete: false,
                    crash_count,
                },
            ),
        );
    }

    /// Records a heartbeat from the window with the given label at `now`.
    ///
    /// Does nothing for a label that names no supervised surface, or a
    /// surface that has no record. Returns the startup time in milliseconds
    /// when this heartbeat is the first since the surface was created.
    pub fn heartbeat(&mut self, label: &str, now: u64) -> (startup_ms: Option<u64>)
        ensures
            final(self).started_at == old(self).started_at,
            match surface_named(label@) {
                Some(surface) => {
                    &&& final(self).record(surface) == match old(self).record(surface) {
                        Some(h) => Some(h.after_heartbeat(now)),
                        None => None,
                    }
                    &&& forall|other: Surface|
                        other != surface ==> final(self).record(other) == old(self).record(other)
                    &&& startup_ms == match old(self).record(surface) {
                        Some(h) if !h.init_complete => Some(elapsed(now, h.created_at) as u64),
                        _ => None,
                    }
                },
                None => *final(self) == *old(self) && startup_ms is None,
            },
    {
        match surface_of_label(label) {
            Some(surface) => {
                match self.get(surface) {
                    Some(h) => {
                        let mut health = h;
                        let startup_ms = health.heartbeat(now);
                        self.put(surface, Some(health));
                        startup_ms
                    },
                    None => None,
                }
            },
            None => None,
        }
    }

    fn evaluate_surface(&mut self, surface: Surface, now: u64, cfg: &WatchdogConfig) -> (plan:
        Option<RecoveryPlan>)
        requires
            cfg.wf(),
        ensures
            final(self).started_at == old(self).started_at,
            final(self).record(surface) == evaluated(
                old(self).record(surface),
                surface,
                now,
                *cfg,
                old(self).in_grace(now, *cfg),
            ).0,
            plan == evaluated(
                old(self).record(surface),
                surface,
                now,
                *cfg,
                old(self).in_grace(now, *cfg),
            ).1,
            forall|other: Surface|
                other != surface ==> final(self).record(other) == old(self).record(other),
    {
        let since_start = if now >= self.started_at {
            now - self.started_at
        } else {
            0
        };
        if since_start < cfg.grace_period_ms {
            return None;
        }
        match self.get(surface) {
            Some(h) => {
                let state = h.evaluate(now, cfg);
                match state {
                    SurfaceState::StalledAtStartup | SurfaceState::StalledWhileRunning => {
                        let mut health = h;
                        let backoff = health.begin_recovery(now);
                        self.put(surface, Some(health));
                        Some(
                            RecoveryPlan {
                                surface,
                                cause: state,
                                crash_count: health.crash_count,
                                backoff_secs: backoff,
                                gives_up: health.crash_count > cfg.giveup_threshold,
                            },
                        )
                    },
                    _ => None,
                }
            },
            None => None,
        }
    }

    /// One evaluation of the watchdog at `now`.
    ///
    /// Within the grace period after process start nothing happens. After
    /// it, each surface that has stalled, at startup or while running, and is
    /// not given up has its crash counted and its record reset, and a
    /// recovery plan with its backoff is returned for it: first the
    /// overlay's, then the background's. The plan says whether the surface
    /// is given up with this crash. A healthy, initializing or given-up
    /// surface is left as it is.
    pub fn watchdog_tick(&mut self, now: u64, cfg: &WatchdogConfig) -> (plans: (
        Option<RecoveryPlan>,
        Option<RecoveryPlan>,
    ))
        requires
            cfg.wf(),
        ensures
            final(self).started_at == old(self).started_at,
            final(self).overlay == evaluated(
                old(self).overlay,
                Surface::Overlay,
                now,
                *cfg,
                old(self).in_grace(now, *cfg),
            ).0,
            plans.0 == evaluated(
                old(self).overlay,
                Surface::Overlay,
                now,
                *cfg,
                old(self).in_grace(now, *cfg),
            ).1,
            final(self).background == evaluated(
                old(self).background,
                Surface::Background,
                now,
                *cfg,
                old(self).in_grace(now, *cfg),
            ).0,
            plans.1 == evaluated(
                old(self).background,
                Surface::Background,
                now,
                *cfg,
                old(self).in_grace(now, *cfg),
            ).1,
    {
        let first = self.evaluate_surface(Surface::Overlay, now, cfg);
        assert(self.record(Surface::Background) == old(self).record(Surface::Background));
        let second = self.evaluate_surface(Surface::Background, now, cfg);
        assert(self.record(Surface::Overlay) == evaluated(
            old(self).overlay,
            Surface::Overlay,
            now,
            *cfg,
            old(self).in_grace(now, *cfg),
        ).0);
        (first, second)
    }
}

/// The watchdog triggers no recovery for a surface that is given up, is
/// within its timeouts, or while the process is in its grace period.
pub proof fn lemma_no_recovery(
    h: WindowHealth,
    surface: Surface,
    now: u64,
    cfg: WatchdogConfig,
    in_grace: bool,
)
    requires
        in_grace || h.crash_count > cfg.giveup_threshold || (!h.init_complete && elapsed(
            now,
            h.created_at,
        ) <= cfg.startup_timeout_ms) || (h.init_complete && elapsed(now, h.last_sign_of_life())
            <= cfg.heartbeat_timeout_ms),
    ensures
        evaluated(Some(h), surface, now, cfg, in_grace) == (Some(h), None::<RecoveryPlan>),
{
}

/// A recovery gives the surface up exactly when the record it leaves is one
/// that every later evaluation finds given up.
pub proof fn lemma_plan_gives_up(
    h: WindowHealth,
    surface: Surface,
    now: u64,
    later: u64,
    cfg: WatchdogConfig,
)
    requires
        cfg.wf(),
        evaluated(Some(h), surface, now, cfg, false).1 is Some,
    ensures
        evaluated(Some(h), surface, now, cfg, false).1->0.gives_up <==> evaluated(
            Some(h),
            surface,
            now,
            cfg,
            false,
        ).0->0.state_at(later, cfg) == SurfaceState::GivenUp,
{
}

/// Outside the grace period the watchdog recovers a surface that is not given
/// up and has been silent for longer than its timeout.
pub proof fn lemma_recovery(h: WindowHealth, surface: Surface, now: u64, cfg: WatchdogConfig)
    requires
        h.crash_count <= cfg.giveup_threshold,
        if h.init_complete {
            elapsed(now, h.last_sign_of_life()) > cfg.heartbeat_timeout_ms
        } else {
            elapsed(now, h.created_at) > cfg.startup_timeout_ms
        },
    ensures
        evaluated(Some(h), surface, now, cfg, false).1 is Some,
        evaluated(Some(h), surface, now, cfg, false).0 == Some(
            fresh(now, (h.crash_count + 1) as u32),
        ),
{
}

} // verus!
