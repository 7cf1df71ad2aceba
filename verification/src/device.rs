//! Negotiating a device: adapter first, then device and queue together.

use vstd::prelude::*;
use crate::error::GpuError;

verus! {

/// Which adapter to prefer where several are offered.
#[derive(Clone, Copy, Debug, PartialEq, Eq, Structural)]
pub enum PowerPreference {
    /// Power usage is not considered.
    NoPreference,
    /// Prefer an integrated, low-power adapter.
    LowPower,
    /// Prefer the adapter with the highest performance.
    HighPerformance,
}

/// How the device should trade memory for speed.
#[derive(Clone, Copy, Debug, PartialEq, Eq, Structural)]
pub enum MemoryHints {
    Performance,
    MemoryUsage,
}

/// What is asked of the backends when an adapter is requested.
#[derive(Clone, Copy, Debug, PartialEq, Eq, Structural)]
pub struct AdapterRequest {
    pub power_preference: PowerPreference,
    /// Whether the adapter has to be able to present to the caller's surface.
    pub compatible_surface: bool,
    pub force_fallback_adapter: bool,
}

/// What is asked of the adapter when a device is requested: no optional
/// feature, the default limits.
#[derive(Clone, Copy, Debug, PartialEq, Eq, Structural)]
pub struct DeviceRequest {
    /// Bit set of required optional features; empty in this core.
    pub required_features: u64,
    /// Whether the default limits are asked for.
    pub default_limits: bool,
    pub memory_hints: MemoryHints,
}

/// The adapter request for a preference and an optional surface.
pub open spec fn adapter_request(preference: PowerPreference, surface_hint: bool) -> AdapterRequest {
    AdapterRequest {
        power_preference: preference,
        compatible_surface: surface_hint,
        force_fallback_adapter: false,
    }
}

/// The one device request this core makes.
pub open spec fn device_request() -> DeviceRequest {
    DeviceRequest { required_features: 0, default_limits: true, memory_hints: MemoryHints::Performance }
}

/// Where a negotiation stands.
#[derive(Clone, Copy, Debug, PartialEq, Eq, Structural)]
pub enum Negotiation {
    /// An adapter has been requested and not yet answered.
    AwaitingAdapter,
    /// An adapter was found; device and queue have been requested.
    AwaitingDevice,
    /// Device and queue exist.
    Ready,
    /// The negotiation has failed for good.
    Failed(GpuError),
}

/// What the backends answered.
#[derive(Clone, Copy, Debug, PartialEq, Eq, Structural)]
pub enum NegotiationEvent {
    AdapterFound,
    AdapterMissing,
    DeviceGranted,
    DeviceRefused,
}

/// What the caller does next.
#[derive(Clone, Copy, Debug, PartialEq, Eq, Structural)]
pub enum NegotiationAction {
    /// Ask the backends for an adapter.
    RequestAdapter(AdapterRequest),
    /// Ask the adapter for a device and its queue.
    RequestDevice(DeviceRequest),
    /// Take the context: device and queue exist.
    Finish,
    /// Give up and report the error.
    Abort(GpuError),
    /// The event does not belong here; nothing changes.
    Ignore,
}

/// The state after an event.
pub open spec fn negotiation_next(state: Negotiation, event: NegotiationEvent) -> Negotiation {
    match (state, event) {
        (Negotiation::AwaitingAdapter, NegotiationEvent::AdapterFound) => Negotiation::AwaitingDevice,
        (Negotiation::AwaitingAdapter, NegotiationEvent::AdapterMissing) => Negotiation::Failed(
            GpuError::AdapterUnavailable,
        ),
        (Negotiation::AwaitingDevice, NegotiationEvent::DeviceGranted) => Negotiation::Ready,
        (Negotiation::AwaitingDevice, NegotiationEvent::DeviceRefused) => Negotiation::Failed(
            GpuError::DeviceCreationFailed,
        ),
        _ => state,
    }
}

/// What an event makes the caller do.
pub open spec fn negotiation_action(state: Negotiation, event: NegotiationEvent) -> NegotiationAction {
    match (state, event) {
        (Negotiation::AwaitingAdapter, NegotiationEvent::AdapterFound) => NegotiationAction::RequestDevice(
            device_request(),
        ),
        (Negotiation::AwaitingAdapter, NegotiationEvent::AdapterMissing) => NegotiationAction::Abort(
            GpuError::AdapterUnavailable,
        ),
        (Negotiation::AwaitingDevice, NegotiationEvent::DeviceGranted) => NegotiationAction::Finish,
        (Negotiation::AwaitingDevice, NegotiationEvent::DeviceRefused) => NegotiationAction::Abort(
            GpuError::DeviceCreationFailed,
        ),
        _ => NegotiationAction::Ignore,
    }
}

/// The state after a run of events, taken in order.
pub open spec fn negotiation_run(state: Negotiation, events: Seq<NegotiationEvent>) -> Negotiation
    decreases events.len(),
{
    if events.len() == 0 {
        state
    } else {
        negotiation_run(negotiation_next(state, events[0]), events.drop_first())
    }
}

/// A negotiation in progress.
#[derive(Clone, Copy, Debug)]
pub struct Acquisition {
    request: AdapterRequest,
    state: Negotiation,
}

/// The handles everything else depends on: an adapter, and the device and
/// queue that were created from it together. A value of this type exists
/// only after a negotiation has reached [`Negotiation::Ready`].
#[derive(Clone, Copy, Debug)]
pub struct DeviceContext {
    request: AdapterRequest,
    device: DeviceRequest,
}

impl DeviceContext {
    #[verifier::type_invariant]
    spec fn negotiated(self) -> bool {
        self.device == device_request() && !self.request.force_fallback_adapter
    }

    /// The adapter request that was granted.
    pub closed spec fn adapter_spec(self) -> AdapterRequest {
        self.request
    }

    /// The adapter request that was granted.
    pub fn adapter(&self) -> (request: AdapterRequest)
        ensures
            request == self.adapter_spec(),
            !request.force_fallback_adapter,
    {
        proof {
            use_type_invariant(self);
        }
        self.request
    }

    /// The device request that was granted: always the one of
    /// [`device_request`].
    pub fn device(&self) -> (request: DeviceRequest)
        ensures
            request == device_request(),
    {
        proof {
            use_type_invariant(self);
        }
        self.device
    }
}

impl Acquisition {
    #[verifier::type_invariant]
    spec fn well_formed(self) -> bool {
        !self.request.force_fallback_adapter
    }

    /// Where the negotiation stands.
    pub closed spec fn state_spec(self) -> Negotiation {
        self.state
    }

    /// The adapter request the negotiation began with.
    pub closed spec fn request_spec(self) -> AdapterRequest {
        self.request
    }

    /// Begins a negotiation. The caller creates a backend instance and sends
    /// the returned request for an adapter.
    pub fn begin(preference: PowerPreference, surface_hint: bool) -> (started: (
        Acquisition,
        NegotiationAction,
    ))
        ensures
            started.0.state_spec() == Negotiation::AwaitingAdapter,
            started.0.request_spec() == adapter_request(preference, surface_hint),
            started.1 == NegotiationAction::RequestAdapter(adapter_request(preference, surface_hint)),
    {
        let request = AdapterRequest {
            power_preference: preference,
            compatible_surface: surface_hint,
            force_fallback_adapter: false,
        };
        (
            Acquisition { request, state: Negotiation::AwaitingAdapter },
            NegotiationAction::RequestAdapter(request),
        )
    }

    /// Where the negotiation stands.
    pub fn state(&self) -> (state: Negotiation)
        ensures
            state == self.state_spec(),
    {
        self.state
    }

    /// Takes the backends' answer and says what to do next. An adapter that
    /// is missing and a device that is refused end the negotiation: nothing
    /// is asked a second time. An answer out of turn changes nothing.
    pub fn advance(&mut self, event: NegotiationEvent) -> (action: NegotiationAction)
        ensures
            final(self).state_spec() == negotiation_next(old(self).state_spec(), event),
            final(self).request_spec() == old(self).request_spec(),
            action == negotiation_action(old(self).state_spec(), event),
    {
        proof {
            use_type_invariant(&*self);
        }
        let (next, action) = match (self.state, event) {
            (Negotiation::AwaitingAdapter, NegotiationEvent::AdapterFound) => (
                Negotiation::AwaitingDevice,
                NegotiationAction::RequestDevice(
                    DeviceRequest {
                        required_features: 0,
                        default_limits: true,
                        memory_hints: MemoryHints::Performance,
                    },
                ),
            ),
            (Negotiation::AwaitingAdapter, NegotiationEvent::AdapterMissing) => (
                Negotiation::Failed(GpuError::AdapterUnavailable),
                NegotiationAction::Abort(GpuError::AdapterUnavailable),
            ),
            (Negotiation::AwaitingDevice, NegotiationEvent::DeviceGranted) => (
                Negotiation::Ready,
                NegotiationAction::Finish,
            ),
            (Negotiation::AwaitingDevice, NegotiationEvent::DeviceRefused) => (
                Negotiation::Failed(GpuError::DeviceCreationFailed),
                NegotiationAction::Abort(GpuError::DeviceCreationFailed),
            ),
            (state, _) => (state, NegotiationAction::Ignore),
        };
        self.state = next;
        action
    }

    /// The outcome of the negotiation: the context once device and queue
    /// exist, the error once it has failed, and nothing while an answer is
    /// still awaited.
    pub fn context(&self) -> (outcome: Option<Result<DeviceContext, GpuError>>)
        ensures
            match self.state_spec() {
                Negotiation::Ready => outcome matches Some(Ok(c)) && c.adapter_spec()
                    == self.request_spec(),
                Negotiation::Failed(e) => outcome == Some(Err::<DeviceContext, GpuError>(e)),
                _ => outcome is None,
            },
    {
        proof {
            use_type_invariant(self);
        }
        match self.state {
            Negotiation::Ready => Some(
                Ok(
                    DeviceContext {
                        request: self.request,
                        device: DeviceRequest {
                            required_features: 0,
                            default_limits: true,
                            memory_hints: MemoryHints::Performance,
                        },
                    },
                ),
            ),
            Negotiation::Failed(e) => Some(Err(e)),
            _ => None,
        }
    }
}

/// A negotiation that has failed stays failed, and one that is ready stays
/// ready, whatever is reported afterwards: nothing is retried, and device
/// and queue are never replaced.
pub proof fn negotiation_outcome_is_final(state: Negotiation, events: Seq<NegotiationEvent>)
    requires
        state is Failed || state is Ready,
    ensures
        negotiation_run(state, events) == state,
    decreases events.len(),
{
    if events.len() > 0 {
        negotiation_outcome_is_final(state, events.drop_first());
    }
}

/// Once the backends have no adapter, no run of events constructs a context:
/// the negotiation ends in `AdapterUnavailable`.
pub proof fn missing_adapter_is_fatal(events: Seq<NegotiationEvent>)
    ensures
        negotiation_run(
            negotiation_next(Negotiation::AwaitingAdapter, NegotiationEvent::AdapterMissing),
            events,
        ) == Negotiation::Failed(GpuError::AdapterUnavailable),
{
    negotiation_outcome_is_final(Negotiation::Failed(GpuError::AdapterUnavailable), events);
}

/// A negotiation is ready only after an adapter was found and then a device
/// granted: the run from the start holds both answers, in that order.
pub proof fn ready_needs_adapter_then_device(events: Seq<NegotiationEvent>)
    requires
        negotiation_run(Negotiation::AwaitingAdapter, events) is Ready,
    ensures
        exists|i: int, j: int|
            0 <= i < j < events.len() && events[i] == NegotiationEvent::AdapterFound && events[j]
                == NegotiationEvent::DeviceGranted,
    decreases events.len(),
{
    if events.len() > 0 {
        let rest = events.drop_first();
        match events[0] {
            NegotiationEvent::AdapterFound => {
                ready_needs_device(rest);
                let j = choose|j: int| 0 <= j < rest.len() && rest[j] == NegotiationEvent::DeviceGranted;
                assert(events[j + 1] == rest[j]);
                assert(0 <= 0 < j + 1 < events.len() && events[0] == NegotiationEvent::AdapterFound
                    && events[j + 1] == NegotiationEvent::DeviceGranted);
            },
            NegotiationEvent::AdapterMissing => {
                missing_adapter_is_fatal(rest);
            },
            _ => {
                ready_needs_adapter_then_device(rest);
                let (i, j) = choose|i: int, j: int|
                    0 <= i < j < rest.len() && rest[i] == NegotiationEvent::AdapterFound && rest[j]
                        == NegotiationEvent::DeviceGranted;
                assert(events[i + 1] == rest[i] && events[j + 1] == rest[j]);
                assert(0 <= i + 1 < j + 1 < events.len() && events[i + 1]
                    == NegotiationEvent::AdapterFound && events[j + 1]
                    == NegotiationEvent::DeviceGranted);
            },
        }
    }
}

/// From the state in which a device is awaited, only a grant leads to ready.
proof fn ready_needs_device(events: Seq<NegotiationEvent>)
    requires
        negotiation_run(Negotiation::AwaitingDevice, events) is Ready,
    ensures
        exists|j: int| 0 <= j < events.len() && events[j] == NegotiationEvent::DeviceGranted,
    decreases events.len(),
{
    if events.len() > 0 {
        let rest = events.drop_first();
        match events[0] {
            NegotiationEvent::DeviceGranted => {
                assert(events[0] == NegotiationEvent::DeviceGranted);
            },
            NegotiationEvent::DeviceRefused => {
                negotiation_outcome_is_final(Negotiation::Failed(GpuError::DeviceCreationFailed), rest);
            },
            _ => {
                ready_needs_device(rest);
                let j = choose|j: int| 0 <= j < rest.len() && rest[j] == NegotiationEvent::DeviceGranted;
                assert(events[j + 1] == rest[j]);
            },
        }
    }
}

} // verus!
