use termbox_bindings::controller::{BindingError, ConsumerHandle, SessionController, SESSION_TOKEN};

#[test]
fn init_then_shutdown() {
    let mut c = SessionController::new();
    assert_eq!(c.init(), Ok(()));
    assert!(c.state.is_running());
    assert_eq!(c.shutdown(), Ok(()));
    assert!(!c.state.is_running());
}

#[test]
fn init_twice_is_already_running() {
    let mut c = SessionController::new();
    assert_eq!(c.init(), Ok(()));
    assert_eq!(c.init(), Err(BindingError::AlreadyRunning));
    assert!(c.state.is_running());
}

#[test]
fn shutdown_without_init_is_not_running() {
    let mut c = SessionController::new();
    assert_eq!(c.shutdown(), Err(BindingError::NotRunning));
}

#[test]
fn shutdown_twice_is_not_running() {
    let mut c = SessionController::new();
    assert_eq!(c.init(), Ok(()));
    assert_eq!(c.shutdown(), Ok(()));
    assert_eq!(c.shutdown(), Err(BindingError::NotRunning));
}

#[test]
fn refused_acquisition_rolls_back() {
    let mut c = SessionController::new();
    assert_eq!(c.init(), Ok(()));
    assert_eq!(c.confirm_init(false), Err(BindingError::InitFailed));
    assert!(!c.state.is_running());
    // The rollback leaves the controller ready for a fresh attempt.
    assert_eq!(c.init(), Ok(()));
    assert_eq!(c.confirm_init(true), Ok(()));
    assert!(c.state.is_running());
}

#[test]
fn drawing_and_query_refused_while_not_running() {
    let c = SessionController::new();
    assert_eq!(c.width(), Err(BindingError::NotRunning));
    assert_eq!(c.height(), Err(BindingError::NotRunning));
    assert_eq!(c.clear(), Err(BindingError::NotRunning));
    assert_eq!(c.present(), Err(BindingError::NotRunning));
    assert_eq!(c.set_clear_attributes(7, 0), Err(BindingError::NotRunning));
    assert_eq!(c.set_cursor(1, 2), Err(BindingError::NotRunning));
    assert_eq!(c.change_cell(1, 2, 65, 7, 0), Err(BindingError::NotRunning));
    assert_eq!(c.select_input_mode(1), Err(BindingError::NotRunning));
    assert_eq!(c.select_output_mode(2), Err(BindingError::NotRunning));
    // A refused call left the flags untouched.
    assert!(!c.state.is_running());
    assert!(!c.state.is_polling());
    assert!(!c.state.stop_polling_signaled());
}

#[test]
fn drawing_and_query_pass_while_running() {
    let mut c = SessionController::new();
    assert_eq!(c.init(), Ok(()));
    assert_eq!(c.width(), Ok(()));
    assert_eq!(c.height(), Ok(()));
    assert_eq!(c.clear(), Ok(()));
    assert_eq!(c.present(), Ok(()));
    assert_eq!(c.set_clear_attributes(7, 0), Ok(()));
    assert_eq!(c.set_cursor(0, 0), Ok(()));
    assert_eq!(c.change_cell(0, 0, 65, 7, 0), Ok(()));
    assert_eq!(c.select_input_mode(0), Ok(()));
    assert_eq!(c.select_output_mode(0), Ok(()));
}

#[test]
fn clean_rearm_scenario() {
    let mut c = SessionController::new();
    let h = ConsumerHandle(1);
    assert_eq!(c.init(), Ok(()));
    assert_eq!(c.init(), Err(BindingError::AlreadyRunning));
    assert_eq!(c.start_polling(h), Ok(SESSION_TOKEN));
    assert_eq!(c.start_polling(h), Err(BindingError::AlreadyPolling));
    assert_eq!(c.stop_polling(), Ok(()));
    assert_eq!(c.start_polling(h), Ok(SESSION_TOKEN));
}

#[test]
fn start_polling_without_init_is_not_running() {
    let mut c = SessionController::new();
    assert_eq!(c.start_polling(ConsumerHandle(3)), Err(BindingError::NotRunning));
    assert!(!c.state.is_polling());
}

#[test]
fn stop_polling_without_poller_is_not_polling() {
    let mut c = SessionController::new();
    assert_eq!(c.stop_polling(), Err(BindingError::NotRunning));
    assert_eq!(c.init(), Ok(()));
    assert_eq!(c.stop_polling(), Err(BindingError::NotPolling));
}

#[test]
fn stop_polling_clears_both_polling_flags() {
    let mut c = SessionController::new();
    assert_eq!(c.init(), Ok(()));
    assert_eq!(c.start_polling(ConsumerHandle(9)), Ok(SESSION_TOKEN));
    assert!(c.state.is_polling());
    assert_eq!(c.stop_polling(), Ok(()));
    assert!(!c.state.is_polling());
    assert!(!c.state.stop_polling_signaled());
    assert!(c.state.is_running());
}

#[test]
fn request_stop_records_the_request_only() {
    let mut c = SessionController::new();
    assert_eq!(c.request_stop_polling(), Err(BindingError::NotRunning));
    assert_eq!(c.init(), Ok(()));
    assert_eq!(c.request_stop_polling(), Err(BindingError::NotPolling));
    assert_eq!(c.start_polling(ConsumerHandle(9)), Ok(SESSION_TOKEN));
    assert_eq!(c.request_stop_polling(), Ok(()));
    assert!(c.state.is_polling());
    assert!(c.state.stop_polling_signaled());
}
