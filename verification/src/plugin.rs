//! The presigning plugin: component overrides for one presign operation.

use vstd::prelude::*;
use crate::body::SignableBody;
use crate::config::PresigningConfig;
use crate::interceptor::PresigningInterceptor;
use crate::store::{
    disable_interceptor, ConfigEntryView, ConfigKey, DisableInterceptorView, FrozenLayer,
    InterceptorId, Layer,
};

verus! {

/// A time source pinned to one instant. It never advances and never reads a
/// real clock, so every component that asks for the time during a presign
/// operation sees the configured start time.
#[derive(Debug, Clone, Copy, PartialEq, Eq, Structural)]
pub struct FixedClock {
    time: u64,
}

impl FixedClock {
    /// The instant the clock is pinned to.
    pub closed spec fn time_spec(&self) -> u64 {
        self.time
    }

    pub fn new(time: u64) -> (c: Self)
        ensures
            c.time_spec() == time,
    {
        FixedClock { time }
    }

    /// The current time according to this clock: always the pinned instant,
    /// however often and whenever it is queried.
    pub fn now(&self) -> (t: u64)
        ensures
            t == self.time_spec(),
    {
        self.time
    }
}

/// A retry policy's answer when the host asks whether to make an attempt.
#[derive(Debug, Clone, Copy, PartialEq, Eq, Structural)]
pub enum ShouldAttempt {
    /// Make the attempt now.
    Yes,
    /// Do not attempt again.
    No,
    /// Make the attempt after waiting this long.
    YesAfterDelay(u64),
}

/// How one attempt of the operation came out, as the host reports it back to
/// the retry policy.
#[derive(Debug, Clone, Copy, PartialEq, Eq, Structural)]
pub enum AttemptOutcome {
    /// The attempt succeeded.
    Success,
    /// The attempt failed in a way that a normal policy might retry.
    TransientError,
    /// The attempt failed in a way no policy would retry.
    FatalError,
}

/// The retry policy of a presign operation: exactly one attempt, whatever
/// its outcome. A presigned request is produced locally, so there is nothing
/// to retry, no backoff and no outcome classification.
#[derive(Debug, Clone, Copy, PartialEq, Eq, Structural)]
pub struct NeverRetryPolicy {
}

impl NeverRetryPolicy {
    pub fn new() -> (p: Self)
        ensures
            p == (NeverRetryPolicy {  }),
    {
        NeverRetryPolicy {  }
    }

    /// The initial attempt is always permitted.
    pub fn should_attempt_initial_request(&self) -> (r: ShouldAttempt)
        ensures
            r == ShouldAttempt::Yes,
    {
        ShouldAttempt::Yes
    }

    /// A retry is never permitted, whatever the previous attempt's outcome.
    pub fn should_attempt_retry(&self, _outcome: &AttemptOutcome) -> (r: ShouldAttempt)
        ensures
            r == ShouldAttempt::No,
    {
        ShouldAttempt::No
    }
}

/// The components a presign operation overrides in the host's component
/// graph: the presigning interceptor, the never-retry policy and the fixed
/// clock.
#[derive(Debug)]
pub struct RuntimeComponents {
    /// The hook object the host invokes at its extension points.
    pub interceptor: PresigningInterceptor,
    /// The policy permitting exactly one attempt.
    pub retry_policy: NeverRetryPolicy,
    /// The clock pinned to the presigning start time.
    pub time_source: FixedClock,
}

/// The reason string every disabled-interceptor marker of the presigning
/// layer carries.
pub open spec fn presigning_disabled_reason() -> Seq<char> {
    "presigning"@
}

/// What the plugin's configuration layer holds: exactly one
/// disabled-interceptor marker for each of the three ambient
/// request-decorating interceptors, each with reason `"presigning"`, and
/// nothing else.
pub open spec fn presigning_layer_view() -> Map<ConfigKey, ConfigEntryView> {
    Map::<ConfigKey, ConfigEntryView>::empty().insert(
        ConfigKey::Disabled(InterceptorId::InvocationId),
        ConfigEntryView::Disabled(
            DisableInterceptorView {
                target: InterceptorId::InvocationId,
                reason: presigning_disabled_reason(),
            },
        ),
    ).insert(
        ConfigKey::Disabled(InterceptorId::RequestInfo),
        ConfigEntryView::Disabled(
            DisableInterceptorView {
                target: InterceptorId::RequestInfo,
                reason: presigning_disabled_reason(),
            },
        ),
    ).insert(
        ConfigKey::Disabled(InterceptorId::UserAgent),
        ConfigEntryView::Disabled(
            DisableInterceptorView {
                target: InterceptorId::UserAgent,
                reason: presigning_disabled_reason(),
            },
        ),
    )
}

/// One-shot assembly object for a presign operation. Constructed once per
/// presign request, consulted twice by the host — for its configuration
/// layer and for its component overrides — and then discarded. It holds no
/// mutable state.
#[derive(Debug)]
pub struct PresigningPlugin {
    components: RuntimeComponents,
}

impl PresigningPlugin {
    /// The component overrides the plugin was built with.
    pub closed spec fn components_spec(&self) -> RuntimeComponents {
        self.components
    }

    /// Builds the plugin for one presign operation: an interceptor carrying
    /// the given configuration and payload description, a clock pinned to
    /// the configured start time and a never-retry policy.
    pub fn new(config: PresigningConfig, payload_override: SignableBody) -> (p: Self)
        ensures
            p.components_spec().interceptor.config_spec() == config,
            p.components_spec().interceptor.payload_spec() == payload_override@,
            p.components_spec().time_source.time_spec() == config.spec_start_time(),
            p.components_spec().retry_policy == (NeverRetryPolicy {  }),
    {
        let time_source = FixedClock::new(config.start_time());
        PresigningPlugin {
            components: RuntimeComponents {
                interceptor: PresigningInterceptor::new(config, payload_override),
                retry_policy: NeverRetryPolicy::new(),
                time_source,
            },
        }
    }

    /// The plugin's immutable configuration layer: it marks the
    /// invocation-id, request-info and user-agent interceptors as disabled
    /// with reason `"presigning"`, and marks nothing else. Request-identity
    /// metadata, diagnostic headers and user-agent strings would either be
    /// meaningless in a URL handed to a third party or would change the
    /// signature if they mutated the request after the presigning hooks ran.
    pub fn config(&self) -> (r: Option<FrozenLayer>)
        ensures
            (r matches Some(layer) && layer@ == presigning_layer_view()),
    {
        let mut layer = Layer::new("Presigning");
        layer.store_put(disable_interceptor(InterceptorId::InvocationId, "presigning"));
        layer.store_put(disable_interceptor(InterceptorId::RequestInfo, "presigning"));
        layer.store_put(disable_interceptor(InterceptorId::UserAgent, "presigning"));
        Some(layer.freeze())
    }

    /// A borrowed view of the component overrides, for merging into the
    /// host's component graph. Ownership stays with the plugin for the
    /// duration of the presign call.
    pub fn runtime_components(&self) -> (r: &RuntimeComponents)
        ensures
            *r == self.components_spec(),
    {
        &self.components
    }
}

/// However often a [`FixedClock`] is queried, and whatever real time passes
/// between the queries, every answer is the one pinned instant: any two
/// results of [`FixedClock::now`] on the same clock are equal.
pub proof fn lemma_fixed_clock_never_advances(clock: FixedClock, t1: u64, t2: u64)
    requires
        call_ensures(FixedClock::now, (&clock,), t1),
        call_ensures(FixedClock::now, (&clock,), t2),
    ensures
        t1 == clock.time_spec(),
        t1 == t2,
{
}

/// A [`NeverRetryPolicy`] permits exactly one attempt: whatever outcome the
/// host reports back, every answer of
/// [`NeverRetryPolicy::should_attempt_retry`] refuses a further attempt.
pub proof fn lemma_never_retry_whatever_the_outcome(
    policy: NeverRetryPolicy,
    outcome: AttemptOutcome,
    r: ShouldAttempt,
)
    requires
        call_ensures(NeverRetryPolicy::should_attempt_retry, (&policy, &outcome), r),
    ensures
        r == ShouldAttempt::No,
{
}

/// The plugin's configuration layer disables exactly the three ambient
/// request-decorating interceptors — invocation-id, request-info and
/// user-agent — each with reason `"presigning"`, and disables nothing else.
pub proof fn lemma_presigning_layer_disables_exactly_three()
    ensures
        presigning_layer_view().dom() =~= set![
            ConfigKey::Disabled(InterceptorId::InvocationId),
            ConfigKey::Disabled(InterceptorId::RequestInfo),
            ConfigKey::Disabled(InterceptorId::UserAgent),
        ],
        forall|id: InterceptorId|
            #![auto]
            presigning_layer_view()[ConfigKey::Disabled(id)] == ConfigEntryView::Disabled(
                DisableInterceptorView { target: id, reason: presigning_disabled_reason() },
            ),
{
    assert forall|id: InterceptorId|
        #![auto]
        presigning_layer_view()[ConfigKey::Disabled(id)] == ConfigEntryView::Disabled(
            DisableInterceptorView { target: id, reason: presigning_disabled_reason() },
        ) by {
        match id {
            InterceptorId::InvocationId => {},
            InterceptorId::RequestInfo => {},
            InterceptorId::UserAgent => {},
        }
    }
}

} // verus!
