use tegne::swapchain::AcquireOutcome;
use tegne::swapchain::PresentOutcome;
use tegne::swapchain::SurfaceAction;
use tegne::swapchain::SurfaceRecovery;

#[test]
fn stale_acquire_retries_once_then_fails() {
    let mut recovery = SurfaceRecovery::new();
    assert_eq!(recovery.on_acquire(AcquireOutcome::Stale), SurfaceAction::Recreate);
    assert!(recovery.retried());
    assert_eq!(recovery.on_acquire(AcquireOutcome::Stale), SurfaceAction::Fatal);
}

#[test]
fn success_resets_the_retry() {
    let mut recovery = SurfaceRecovery::new();
    assert_eq!(recovery.on_acquire(AcquireOutcome::Stale), SurfaceAction::Recreate);
    assert_eq!(recovery.on_acquire(AcquireOutcome::Image(2)), SurfaceAction::Render(2));
    assert!(!recovery.retried());
    assert_eq!(recovery.on_present(PresentOutcome::Stale), SurfaceAction::Recreate);
    assert_eq!(recovery.on_acquire(AcquireOutcome::Image(0)), SurfaceAction::Render(0));
    assert_eq!(recovery.on_present(PresentOutcome::Presented), SurfaceAction::Done);
}

#[test]
fn stale_present_after_recreate_is_fatal() {
    let mut recovery = SurfaceRecovery::new();
    assert_eq!(recovery.on_present(PresentOutcome::Stale), SurfaceAction::Recreate);
    assert_eq!(recovery.on_present(PresentOutcome::Stale), SurfaceAction::Fatal);
}
