use rs_wgpu_learn::device::{
    Acquisition, AdapterRequest, DeviceRequest, MemoryHints, Negotiation, NegotiationAction,
    NegotiationEvent, PowerPreference,
};
use rs_wgpu_learn::error::GpuError;

#[test]
fn begin_requests_an_adapter() {
    let (acquisition, action) = Acquisition::begin(PowerPreference::NoPreference, true);
    assert_eq!(acquisition.state(), Negotiation::AwaitingAdapter);
    assert_eq!(
        action,
        NegotiationAction::RequestAdapter(AdapterRequest {
            power_preference: PowerPreference::NoPreference,
            compatible_surface: true,
            force_fallback_adapter: false,
        })
    );
    assert!(acquisition.context().is_none());
}

#[test]
fn adapter_then_device_gives_a_context() {
    let (mut acquisition, _) = Acquisition::begin(PowerPreference::HighPerformance, false);
    let action = acquisition.advance(NegotiationEvent::AdapterFound);
    assert_eq!(
        action,
        NegotiationAction::RequestDevice(DeviceRequest {
            required_features: 0,
            default_limits: true,
            memory_hints: MemoryHints::Performance,
        })
    );
    assert_eq!(acquisition.state(), Negotiation::AwaitingDevice);
    assert!(acquisition.context().is_none());
    let action = acquisition.advance(NegotiationEvent::DeviceGranted);
    assert_eq!(action, NegotiationAction::Finish);
    assert_eq!(acquisition.state(), Negotiation::Ready);
    let context = acquisition.context().unwrap().unwrap();
    assert_eq!(
        context.adapter(),
        AdapterRequest {
            power_preference: PowerPreference::HighPerformance,
            compatible_surface: false,
            force_fallback_adapter: false,
        }
    );
    assert_eq!(
        context.device(),
        DeviceRequest {
            required_features: 0,
            default_limits: true,
            memory_hints: MemoryHints::Performance,
        }
    );
}

#[test]
fn impossible_surface_constraint_gives_adapter_unavailable() {
    let (mut acquisition, _) = Acquisition::begin(PowerPreference::LowPower, true);
    let action = acquisition.advance(NegotiationEvent::AdapterMissing);
    assert_eq!(action, NegotiationAction::Abort(GpuError::AdapterUnavailable));
    assert_eq!(acquisition.state(), Negotiation::Failed(GpuError::AdapterUnavailable));
    match acquisition.context() {
        Some(Err(e)) => assert_eq!(e, GpuError::AdapterUnavailable),
        _ => panic!("a context was constructed without an adapter"),
    }
}

#[test]
fn failure_is_final() {
    let (mut acquisition, _) = Acquisition::begin(PowerPreference::LowPower, true);
    acquisition.advance(NegotiationEvent::AdapterMissing);
    for event in [
        NegotiationEvent::AdapterFound,
        NegotiationEvent::DeviceGranted,
        NegotiationEvent::DeviceRefused,
        NegotiationEvent::AdapterMissing,
    ] {
        assert_eq!(acquisition.advance(event), NegotiationAction::Ignore);
        assert_eq!(acquisition.state(), Negotiation::Failed(GpuError::AdapterUnavailable));
    }
    assert!(matches!(acquisition.context(), Some(Err(GpuError::AdapterUnavailable))));
}

#[test]
fn refused_device_gives_device_creation_failed() {
    let (mut acquisition, _) = Acquisition::begin(PowerPreference::NoPreference, true);
    acquisition.advance(NegotiationEvent::AdapterFound);
    let action = acquisition.advance(NegotiationEvent::DeviceRefused);
    assert_eq!(action, NegotiationAction::Abort(GpuError::DeviceCreationFailed));
    assert!(matches!(acquisition.context(), Some(Err(GpuError::DeviceCreationFailed))));
    assert_eq!(acquisition.advance(NegotiationEvent::DeviceGranted), NegotiationAction::Ignore);
    assert!(matches!(acquisition.context(), Some(Err(GpuError::DeviceCreationFailed))));
}

#[test]
fn answers_out_of_turn_change_nothing() {
    let (mut acquisition, _) = Acquisition::begin(PowerPreference::NoPreference, true);
    assert_eq!(acquisition.advance(NegotiationEvent::DeviceGranted), NegotiationAction::Ignore);
    assert_eq!(acquisition.advance(NegotiationEvent::DeviceRefused), NegotiationAction::Ignore);
    assert_eq!(acquisition.state(), Negotiation::AwaitingAdapter);
    acquisition.advance(NegotiationEvent::AdapterFound);
    assert_eq!(acquisition.advance(NegotiationEvent::AdapterMissing), NegotiationAction::Ignore);
    assert_eq!(acquisition.advance(NegotiationEvent::AdapterFound), NegotiationAction::Ignore);
    assert_eq!(acquisition.state(), Negotiation::AwaitingDevice);
    acquisition.advance(NegotiationEvent::DeviceGranted);
    assert_eq!(acquisition.advance(NegotiationEvent::DeviceRefused), NegotiationAction::Ignore);
    assert_eq!(acquisition.state(), Negotiation::Ready);
}

#[test]
fn error_messages_and_classes() {
    assert_eq!(GpuError::AdapterUnavailable.message(), "No adapter found");
    assert_eq!(GpuError::DeviceCreationFailed.message(), "Device request failed");
    assert_eq!(GpuError::ShaderCompilationError.message(), "Shader compilation failed");
    assert_eq!(GpuError::SurfaceLost.message(), "Surface lost");
    assert_eq!(GpuError::SurfaceOutdated.message(), "Surface outdated");
    assert_eq!(GpuError::SizeMismatch.message(), "Buffer size mismatch");
    assert_eq!(GpuError::MapFailed.message(), "Buffer mapping failed");
    assert!(GpuError::AdapterUnavailable.fatal());
    assert!(GpuError::DeviceCreationFailed.fatal());
    assert!(GpuError::ShaderCompilationError.fatal());
    assert!(!GpuError::SurfaceLost.fatal());
    assert!(!GpuError::SizeMismatch.fatal());
    assert!(GpuError::SurfaceLost.recoverable());
    assert!(GpuError::SurfaceOutdated.recoverable());
    assert!(!GpuError::MapFailed.recoverable());
    assert!(!GpuError::AdapterUnavailable.recoverable());
}
