//! Reconnecting to Homebridge: the loop that waits for settings and for the
//! network, checks Homebridge with a live refresh and backs off after
//! failures, with its bounded, progressive retry delays and the suppression
//! of repeated failure messages.
use vstd::prelude::*;
use crate::text::same_text;

verus! {

/// Seconds to wait after settings arrive before the first connection.
pub const STARTUP_GRACE_SECONDS: u64 = 3;

/// Seconds between health checks while Homebridge is reachable.
pub const HEALTH_CHECK_SECONDS: u64 = 60;

/// Seconds to wait before each retry while Homebridge is unreachable.
pub const RETRY_DELAYS_SECONDS: [u64; 5] = [2, 5, 10, 30, 60];

/// The delay before the retry at `index`, the last one repeating.
pub open spec fn retry_delay(index: int) -> u64 {
    if index <= 0 {
        2
    } else if index == 1 {
        5
    } else if index == 2 {
        10
    } else if index == 3 {
        30
    } else {
        60
    }
}

/// Whether a failure with `message` at backoff position `index` is logged:
/// when Homebridge was online, or the failure differs from the last one
/// logged.
pub open spec fn failure_logged(
    index: int,
    last: Option<(int, Seq<char>)>,
    was_online: bool,
    message: Seq<char>,
) -> bool {
    was_online || last != Some((index, message))
}

/// Retry bookkeeping of the reconnect monitor.
#[derive(Debug)]
pub struct ReconnectMonitor {
    retry_index: usize,
    last_failure: Option<(usize, String)>,
}

/// What to do after a failed connection attempt.
#[derive(Debug)]
pub struct RetryPlan {
    /// Seconds to wait before the next attempt.
    pub delay_seconds: u64,
    /// Whether to log the failure.
    pub log: bool,
}

impl ReconnectMonitor {
    #[verifier::type_invariant]
    spec fn index_in_range(self) -> bool {
        self.retry_index < 5
    }

    /// The position in the backoff of the next retry.
    pub closed spec fn index(&self) -> int {
        self.retry_index as int
    }

    /// The last failure logged: its backoff position and message.
    pub closed spec fn last_logged(&self) -> Option<(int, Seq<char>)> {
        match self.last_failure {
            Some((i, m)) => Some((i as int, m@)),
            None => None,
        }
    }

    /// A monitor that has not failed yet.
    pub fn new() -> (m: Self)
        ensures
            m.index() == 0,
            m.last_logged() is None,
    {
        ReconnectMonitor { retry_index: 0, last_failure: None }
    }

    /// Records a successful connection: the backoff starts over.
    pub fn on_success(&mut self)
        ensures
            final(self).index() == 0,
            final(self).last_logged() is None,
    {
        self.retry_index = 0;
        self.last_failure = None;
    }

    /// Records a failed connection with `message`; `was_online` tells
    /// whether Homebridge was reachable before. The failure is logged unless
    /// it repeats, at the same backoff position, the last one logged while
    /// Homebridge stayed offline.
    pub fn on_failure(&mut self, was_online: bool, message: &str) -> (plan: RetryPlan)
        ensures
            plan.delay_seconds == retry_delay(old(self).index()),
            plan.log == failure_logged(old(self).index(), old(self).last_logged(), was_online, message@),
            final(self).index() == old(self).index(),
            final(self).last_logged() == if plan.log {
                Some((old(self).index(), message@))
            } else {
                old(self).last_logged()
            },
    {
        proof {
            use_type_invariant(&*self);
        }
        let delay_seconds = RETRY_DELAYS_SECONDS[self.retry_index];
        assert(delay_seconds == retry_delay(self.retry_index as int));
        let repeated = match &self.last_failure {
            Some((i, m)) => *i == self.retry_index && same_text(m.as_str(), message),
            None => false,
        };
        let log = was_online || !repeated;
        if log {
            self.last_failure = Some((self.retry_index, crate::text::owned(message)));
        }
        RetryPlan { delay_seconds, log }
    }

    /// Records the end of the wait after a failure: a reconnect request
    /// starts the backoff over, otherwise it moves one step on, staying at
    /// the last step.
    pub fn after_wait(&mut self, reconnect_requested: bool)
        ensures
            if reconnect_requested {
                final(self).index() == 0 && final(self).last_logged() is None
            } else {
                final(self).index() == if old(self).index() < 4 {
                    old(self).index() + 1
                } else {
                    4
                } && final(self).last_logged() == old(self).last_logged()
            },
    {
        proof {
            use_type_invariant(&*self);
        }
        if reconnect_requested {
            self.retry_index = 0;
            self.last_failure = None;
        } else if self.retry_index < 4 {
            self.retry_index = self.retry_index + 1;
        }
    }
}

/// Where the reconnect loop stands.
#[derive(Debug, PartialEq, Eq, Structural)]
pub enum ReconnectPhase {
    /// Waiting for global settings before the first connection.
    Starting,
    /// Settings arrived; waiting out the startup grace period.
    Grace,
    /// About to check Homebridge, once settings are loaded.
    Checking,
    /// A live refresh is running.
    Refreshing,
    /// Homebridge answered; waiting for the next health check.
    Healthy,
    /// Homebridge failed; waiting before the next retry.
    BackingOff,
}

/// What the reconnect loop was told.
#[derive(Debug)]
pub enum ReconnectEvent {
    /// Whether global settings are loaded.
    SettingsLoaded(bool),
    /// A wait ended: `true` when a reconnect request cut it short.
    WaitEnded(bool),
    /// The live refresh reached Homebridge.
    Reached,
    /// The live refresh failed with `message`; `was_online` tells whether
    /// Homebridge was reachable before.
    Failed { message: String, was_online: bool },
}

/// What the reconnect loop asks for next.
#[derive(Debug, PartialEq, Eq, Structural)]
pub enum ReconnectAction {
    /// Mark Homebridge offline first when `mark_offline`, then read whether
    /// settings are loaded.
    ReadSettings { mark_offline: bool },
    /// Wait for a reconnect request, then read whether settings are loaded.
    AwaitRequest,
    /// Wait `seconds` for the network at startup, or until a request.
    Grace { seconds: u64 },
    /// Refresh a live catalogue from Homebridge.
    Refresh,
    /// Homebridge answered: refresh the visible actions, then wait
    /// `seconds` for the next health check, or until a request.
    StayHealthy { seconds: u64 },
    /// Homebridge failed: log the failure when `log`, then wait `seconds`
    /// before retrying, or until a request.
    Retry { seconds: u64, log: bool },
}

/// The reconnect loop: its phase and its backoff.
#[derive(Debug)]
pub struct ReconnectLoop {
    phase: ReconnectPhase,
    monitor: ReconnectMonitor,
}

/// An event that answers the action the loop's phase asked for.
pub open spec fn reconnect_event_fits(phase: ReconnectPhase, event: ReconnectEvent) -> bool {
    match phase {
        ReconnectPhase::Starting | ReconnectPhase::Checking => event is SettingsLoaded,
        ReconnectPhase::Grace | ReconnectPhase::Healthy | ReconnectPhase::BackingOff => event is WaitEnded,
        ReconnectPhase::Refreshing => event is Reached || event is Failed,
    }
}

/// The reconnect loop as a model: its phase, the backoff position of the
/// next retry and the last failure logged.
pub struct LoopModel {
    pub phase: ReconnectPhase,
    pub index: int,
    pub last: Option<(int, Seq<char>)>,
}

/// The loop before anything happened.
pub open spec fn initial_loop() -> LoopModel {
    LoopModel { phase: ReconnectPhase::Starting, index: 0, last: None }
}

/// The backoff position after a wait that followed a failure: back to the
/// start after a reconnect request, otherwise one step on, staying at the
/// last step.
pub open spec fn index_after_wait(index: int, requested: bool) -> int {
    if requested {
        0
    } else if index < 4 {
        index + 1
    } else {
        4
    }
}

/// One step of the loop: its next state and action after `e`. Settings are
/// awaited first, then the startup grace period is waited out; each check
/// reads whether settings are loaded and, when they are, refreshes a live
/// catalogue; a success waits for the next health check, a failure backs
/// off by `retry_delay` and logs the failure per `failure_logged`.
pub open spec fn loop_step(m: LoopModel, e: ReconnectEvent) -> (LoopModel, ReconnectAction) {
    match (m.phase, e) {
        (ReconnectPhase::Starting, ReconnectEvent::SettingsLoaded(loaded)) => if loaded {
            (LoopModel { phase: ReconnectPhase::Grace, ..m }, ReconnectAction::Grace { seconds: STARTUP_GRACE_SECONDS })
        } else {
            (m, ReconnectAction::AwaitRequest)
        },
        (ReconnectPhase::Checking, ReconnectEvent::SettingsLoaded(loaded)) => if loaded {
            (LoopModel { phase: ReconnectPhase::Refreshing, ..m }, ReconnectAction::Refresh)
        } else {
            (m, ReconnectAction::AwaitRequest)
        },
        (ReconnectPhase::Grace, ReconnectEvent::WaitEnded(_)) => (
            LoopModel { phase: ReconnectPhase::Checking, ..m },
            ReconnectAction::ReadSettings { mark_offline: false },
        ),
        (ReconnectPhase::Healthy, ReconnectEvent::WaitEnded(requested)) => (
            LoopModel { phase: ReconnectPhase::Checking, ..m },
            ReconnectAction::ReadSettings { mark_offline: requested },
        ),
        (ReconnectPhase::BackingOff, ReconnectEvent::WaitEnded(requested)) => (
            LoopModel {
                phase: ReconnectPhase::Checking,
                index: index_after_wait(m.index, requested),
                last: if requested {
                    None
                } else {
                    m.last
                },
            },
            ReconnectAction::ReadSettings { mark_offline: false },
        ),
        (ReconnectPhase::Refreshing, ReconnectEvent::Reached) => (
            LoopModel { phase: ReconnectPhase::Healthy, index: 0, last: None },
            ReconnectAction::StayHealthy { seconds: HEALTH_CHECK_SECONDS },
        ),
        (ReconnectPhase::Refreshing, ReconnectEvent::Failed { message, was_online }) => {
            let log = failure_logged(m.index, m.last, was_online, message@);
            (
                LoopModel {
                    phase: ReconnectPhase::BackingOff,
                    index: m.index,
                    last: if log {
                        Some((m.index, message@))
                    } else {
                        m.last
                    },
                },
                ReconnectAction::Retry { seconds: retry_delay(m.index), log },
            )
        },
        _ => (m, ReconnectAction::AwaitRequest),
    }
}

impl ReconnectLoop {
    /// The loop's phase.
    pub closed spec fn phase(&self) -> ReconnectPhase {
        self.phase
    }

    /// The backoff position of the next retry.
    pub closed spec fn retry_index(&self) -> int {
        self.monitor.index()
    }

    /// The last failure logged.
    pub closed spec fn last_logged(&self) -> Option<(int, Seq<char>)> {
        self.monitor.last_logged()
    }

    /// The loop as a model: its phase, backoff position and last failure
    /// logged.
    pub open spec fn model(&self) -> LoopModel {
        LoopModel { phase: self.phase(), index: self.retry_index(), last: self.last_logged() }
    }

    /// A loop that starts by reading whether settings are loaded.
    pub fn new() -> (r: (Self, ReconnectAction))
        ensures
            r.0.model() == initial_loop(),
            r.0.phase() == ReconnectPhase::Starting,
            r.0.retry_index() == 0,
            r.0.last_logged() is None,
            r.1 == (ReconnectAction::ReadSettings { mark_offline: false }),
    {
        (
            ReconnectLoop { phase: ReconnectPhase::Starting, monitor: ReconnectMonitor::new() },
            ReconnectAction::ReadSettings { mark_offline: false },
        )
    }

    /// Whether `event` answers the action the loop asked for last.
    pub fn expects(&self, event: &ReconnectEvent) -> (r: bool)
        ensures
            r == reconnect_event_fits(self.phase(), *event),
    {
        match self.phase {
            ReconnectPhase::Starting | ReconnectPhase::Checking => matches!(event, ReconnectEvent::SettingsLoaded(_)),
            ReconnectPhase::Grace | ReconnectPhase::Healthy | ReconnectPhase::BackingOff => matches!(
                event,
                ReconnectEvent::WaitEnded(_)
            ),
            ReconnectPhase::Refreshing => matches!(event, ReconnectEvent::Reached) || matches!(
                event,
                ReconnectEvent::Failed { .. }
            ),
        }
    }

    /// The next action after `event`: wait for settings, wait out the
    /// startup grace period, check Homebridge with a live refresh, then
    /// either stay healthy for a minute or back off before retrying; a
    /// reconnect request ends any wait early, and one that ends a healthy
    /// wait marks Homebridge offline before the next check.
    pub fn step(&mut self, event: ReconnectEvent) -> (action: ReconnectAction)
        requires
            reconnect_event_fits(old(self).phase(), event),
        ensures
            (final(self).model(), action) == loop_step(old(self).model(), event),
            0 <= final(self).retry_index() < 5,
    {
        proof {
            use_type_invariant(&self.monitor);
        }
        match event {
            ReconnectEvent::SettingsLoaded(loaded) => {
                if matches!(self.phase, ReconnectPhase::Starting) {
                    if loaded {
                        self.phase = ReconnectPhase::Grace;
                        ReconnectAction::Grace { seconds: STARTUP_GRACE_SECONDS }
                    } else {
                        ReconnectAction::AwaitRequest
                    }
                } else if loaded {
                    self.phase = ReconnectPhase::Refreshing;
                    ReconnectAction::Refresh
                } else {
                    ReconnectAction::AwaitRequest
                }
            },
            ReconnectEvent::WaitEnded(requested) => {
                let mark_offline = match self.phase {
                    ReconnectPhase::Healthy => requested,
                    ReconnectPhase::BackingOff => {
                        self.monitor.after_wait(requested);
                        false
                    },
                    _ => false,
                };
                self.phase = ReconnectPhase::Checking;
                ReconnectAction::ReadSettings { mark_offline }
            },
            ReconnectEvent::Reached => {
                self.monitor.on_success();
                self.phase = ReconnectPhase::Healthy;
                ReconnectAction::StayHealthy { seconds: HEALTH_CHECK_SECONDS }
            },
            ReconnectEvent::Failed { message, was_online } => {
                let plan = self.monitor.on_failure(was_online, message.as_str());
                self.phase = ReconnectPhase::BackingOff;
                ReconnectAction::Retry { seconds: plan.delay_seconds, log: plan.log }
            },
        }
    }
}

/// The backoff is bounded by a minute and never shortens while failures
/// continue; from the fifth failure on it stays at a minute.
pub proof fn law_backoff_bounded_and_progressive(i: int)
    requires
        0 <= i,
    ensures
        2 <= retry_delay(i) <= 60,
        retry_delay(i) <= retry_delay(i + 1),
        i >= 4 ==> retry_delay(i) == 60,
{
}

/// Once the backoff has reached its last step, a failure that repeats while
/// Homebridge stays offline is logged once, not on every retry.
pub proof fn law_repeated_failure_logged_once(last: Option<(int, Seq<char>)>, message: Seq<char>, was_online: bool)
    ensures
        ({
            let after = if failure_logged(4, last, was_online, message) {
                Some((4int, message))
            } else {
                last
            };
            !failure_logged(4, after, false, message)
        }),
{
}

/// The loop's state after the events `e`, starting from `m`.
pub open spec fn loop_after(m: LoopModel, e: Seq<ReconnectEvent>) -> LoopModel
    decreases e.len(),
{
    if e.len() == 0 {
        m
    } else {
        loop_step(loop_after(m, e.drop_last()), e.last()).0
    }
}

/// The action the loop, started in `m`, asks for on the event at position
/// `p` of `e`.
pub open spec fn loop_action(m: LoopModel, e: Seq<ReconnectEvent>, p: int) -> ReconnectAction {
    loop_step(loop_after(m, e.take(p)), e[p]).1
}

proof fn lemma_loop_after_take(m: LoopModel, e: Seq<ReconnectEvent>, p: int)
    requires
        0 <= p < e.len(),
    ensures
        loop_after(m, e.take(p + 1)) == loop_step(loop_after(m, e.take(p)), e[p]).0,
{
    assert(e.take(p + 1).drop_last() =~= e.take(p));
    assert(e.take(p + 1).last() == e[p]);
}

proof fn lemma_grace_once_started(e: Seq<ReconnectEvent>, p: int)
    requires
        0 <= p <= e.len(),
    ensures
        loop_after(initial_loop(), e.take(p)).phase != ReconnectPhase::Starting ==> exists|q: int|
            0 <= q < p && #[trigger] loop_action(initial_loop(), e, q) == (ReconnectAction::Grace {
                seconds: STARTUP_GRACE_SECONDS,
            }),
    decreases p,
{
    if p == 0 {
        assert(e.take(0) =~= Seq::<ReconnectEvent>::empty());
    } else {
        lemma_grace_once_started(e, p - 1);
        lemma_loop_after_take(initial_loop(), e, p - 1);
        let before = loop_after(initial_loop(), e.take(p - 1));
        if loop_after(initial_loop(), e.take(p)).phase != ReconnectPhase::Starting {
            if before.phase == ReconnectPhase::Starting {
                assert(loop_action(initial_loop(), e, p - 1) == (ReconnectAction::Grace {
                    seconds: STARTUP_GRACE_SECONDS,
                }));
            } else {
                let q = choose|q: int|
                    0 <= q < p - 1 && #[trigger] loop_action(initial_loop(), e, q) == (ReconnectAction::Grace {
                        seconds: STARTUP_GRACE_SECONDS,
                    });
                assert(0 <= q < p);
            }
        }
    }
}

/// Homebridge is marked offline only on a reconnect request that cuts a
/// healthy wait short: wherever the loop stands and whatever came before,
/// an event is answered by marking offline exactly when it is a wait ended
/// by a request and the loop was waiting healthy. A healthy wait that runs
/// out without a request leads to a check with Homebridge still online.
pub proof fn law_offline_only_on_request(m: LoopModel, e: Seq<ReconnectEvent>, p: int)
    requires
        0 <= p < e.len(),
    ensures
        (loop_action(m, e, p) == ReconnectAction::ReadSettings { mark_offline: true }) <==> (e[p]
            == ReconnectEvent::WaitEnded(true) && loop_after(m, e.take(p)).phase == ReconnectPhase::Healthy),
        (e[p] == ReconnectEvent::WaitEnded(false) && loop_after(m, e.take(p)).phase == ReconnectPhase::Healthy)
            ==> loop_action(m, e, p) == (ReconnectAction::ReadSettings { mark_offline: false }),
{
}

/// From its start, the loop makes no request to Homebridge before global
/// settings are read as loaded, and not before it has waited out the
/// startup grace period: every live refresh answers settings read as
/// loaded and follows a grace wait.
pub proof fn law_no_refresh_before_settings(e: Seq<ReconnectEvent>, p: int)
    requires
        0 <= p < e.len(),
        loop_action(initial_loop(), e, p) == ReconnectAction::Refresh,
    ensures
        e[p] == ReconnectEvent::SettingsLoaded(true),
        exists|q: int|
            0 <= q < p && #[trigger] loop_action(initial_loop(), e, q) == (ReconnectAction::Grace {
                seconds: STARTUP_GRACE_SECONDS,
            }),
{
    lemma_grace_once_started(e, p);
}

/// Round `j` of `e` is a failed check: settings read as loaded, a failed
/// live refresh, and a wait that ran out without a reconnect request.
pub open spec fn failed_round(e: Seq<ReconnectEvent>, j: int) -> bool {
    &&& e[3 * j] == ReconnectEvent::SettingsLoaded(true)
    &&& e[3 * j + 1] is Failed
    &&& e[3 * j + 2] == ReconnectEvent::WaitEnded(false)
}

/// The action on the failed refresh of round `j`.
pub open spec fn round_retry(m: LoopModel, e: Seq<ReconnectEvent>, j: int) -> ReconnectAction {
    loop_action(m, e, 3 * j + 1)
}

/// How long a retry action waits, if it is one.
pub open spec fn retry_wait(a: ReconnectAction) -> Option<u64> {
    match a {
        ReconnectAction::Retry { seconds, .. } => Some(seconds),
        _ => None,
    }
}

/// `a` or 4, whichever is smaller.
pub open spec fn capped_index(a: int) -> int {
    if a < 4 {
        a
    } else {
        4
    }
}

proof fn lemma_failed_rounds(m: LoopModel, e: Seq<ReconnectEvent>, k: int, j: int)
    requires
        m.phase == ReconnectPhase::Checking,
        0 <= m.index <= 4,
        0 <= j <= k,
        e.len() == 3 * k,
        forall|i: int| 0 <= i < k ==> #[trigger] failed_round(e, i),
    ensures
        loop_after(m, e.take(3 * j)).phase == ReconnectPhase::Checking,
        loop_after(m, e.take(3 * j)).index == capped_index(m.index + j),
        j < k ==> retry_wait(round_retry(m, e, j)) == Some(retry_delay(capped_index(m.index + j))),
    decreases j,
{
    if j == 0 {
        assert(e.take(0) =~= Seq::<ReconnectEvent>::empty());
    } else {
        lemma_failed_rounds(m, e, k, j - 1);
        assert(failed_round(e, j - 1));
        let b = 3 * (j - 1);
        lemma_loop_after_take(m, e, b);
        lemma_loop_after_take(m, e, b + 1);
        lemma_loop_after_take(m, e, b + 2);
        assert(b + 3 == 3 * j);
    }
    if j < k {
        assert(failed_round(e, j));
        lemma_loop_after_take(m, e, 3 * j);
    }
}

/// While checks keep failing with no reconnect request, the wait before
/// each retry moves one step along the backoff and stays at its last step:
/// the retry after the `j`-th failure in a row (counting from 0) waits
/// `retry_delay(min(index + j, 4))` seconds, so from the start of the
/// backoff 2, 5, 10, 30, 60, 60, … seconds.
pub proof fn law_backoff_over_failures(m: LoopModel, e: Seq<ReconnectEvent>, k: int)
    requires
        m.phase == ReconnectPhase::Checking,
        0 <= m.index <= 4,
        0 <= k,
        e.len() == 3 * k,
        forall|i: int| 0 <= i < k ==> #[trigger] failed_round(e, i),
    ensures
        forall|j: int|
            0 <= j < k ==> retry_wait(#[trigger] round_retry(m, e, j)) == Some(
                retry_delay(capped_index(m.index + j)),
            ),
        m.index == 0 ==> forall|j: int|
            0 <= j < k ==> retry_wait(#[trigger] round_retry(m, e, j)) == Some(
                if j == 0 {
                    2u64
                } else if j == 1 {
                    5u64
                } else if j == 2 {
                    10u64
                } else if j == 3 {
                    30u64
                } else {
                    60u64
                },
            ),
{
    assert forall|j: int| 0 <= j < k implies retry_wait(#[trigger] round_retry(m, e, j)) == Some(
        retry_delay(capped_index(m.index + j)),
    ) by {
        lemma_failed_rounds(m, e, k, j);
    }
}

/// A reconnect request that ends the wait after a failure restarts the
/// backoff: the loop checks again at once, and should that check fail
/// too, it waits the first delay, 2 seconds, and logs the failure.
pub proof fn law_request_resets_backoff(m: LoopModel, message: String, was_online: bool)
    requires
        m.phase == ReconnectPhase::BackingOff,
    ensures
        ({
            let (m1, a1) = loop_step(m, ReconnectEvent::WaitEnded(true));
            let (m2, a2) = loop_step(m1, ReconnectEvent::SettingsLoaded(true));
            let (m3, a3) = loop_step(m2, ReconnectEvent::Failed { message, was_online });
            &&& m1.index == 0 && m1.last is None
            &&& a1 == (ReconnectAction::ReadSettings { mark_offline: false })
            &&& a2 == ReconnectAction::Refresh
            &&& a3 == (ReconnectAction::Retry { seconds: 2, log: true })
        }),
{
}

} // verus!
