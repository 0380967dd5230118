use std::sync::atomic::{AtomicBool, Ordering};
use std::sync::Arc;

use picocodex::error::PicocodexError;
use picocodex::runtime::{current_runtime_or_error, require_runtime, spawn_driver};

#[test]
fn spawning_outside_a_runtime_is_refused() {
    assert!(matches!(
        spawn_driver(async {}),
        Err(PicocodexError::TokioRuntimeUnavailable)
    ));
    assert!(matches!(
        current_runtime_or_error(),
        Err(PicocodexError::TokioRuntimeUnavailable)
    ));
    assert!(matches!(
        require_runtime(None),
        Err(PicocodexError::TokioRuntimeUnavailable)
    ));
}

#[test]
fn spawning_inside_a_runtime_runs_the_driver() {
    let runtime = tokio::runtime::Builder::new_current_thread().build().unwrap();
    let ran = Arc::new(AtomicBool::new(false));
    {
        let _context = runtime.enter();
        assert!(current_runtime_or_error().is_ok());
        assert!(require_runtime(Some(tokio::runtime::Handle::current())).is_ok());
        let flag = Arc::clone(&ran);
        assert!(spawn_driver(async move {
            flag.store(true, Ordering::SeqCst);
        })
        .is_ok());
    }
    runtime.block_on(async {
        for _ in 0..100 {
            if ran.load(Ordering::SeqCst) {
                break;
            }
            tokio::task::yield_now().await;
        }
    });
    assert!(ran.load(Ordering::SeqCst));
}
