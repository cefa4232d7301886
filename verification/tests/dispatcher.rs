use zfs_unlock::dispatch::{handle_unlock, plan_request, HttpMethod, RequestPlan};
use zfs_unlock::shutdown::ShutdownSignal;
use zfs_unlock::zfs::LoadKeyError;

fn vec_of(bytes: &[u8]) -> Vec<u8> {
    bytes.to_vec()
}

#[test]
fn get_root_serves_form() {
    let plan = plan_request(HttpMethod::Get, &vec_of(b"/"), &Vec::new());
    assert!(matches!(plan, RequestPlan::ServeForm));
}

#[test]
fn get_unknown_is_not_found_with_empty_body() {
    let plan = plan_request(HttpMethod::Get, &vec_of(b"/unknown"), &Vec::new());
    match plan {
        RequestPlan::Respond { response } => {
            assert_eq!(response.status, 404);
            assert!(response.body.is_empty());
        }
        _ => panic!("expected an immediate response"),
    }
}

#[test]
fn post_to_root_is_not_found() {
    let plan = plan_request(HttpMethod::Post, &vec_of(b"/"), &vec_of(b"key=x"));
    match plan {
        RequestPlan::Respond { response } => assert_eq!(response.status, 404),
        _ => panic!("expected an immediate response"),
    }
}

#[test]
fn other_method_on_loadkey_is_not_found() {
    let plan = plan_request(HttpMethod::Other, &vec_of(b"/loadkey"), &vec_of(b"key=x"));
    match plan {
        RequestPlan::Respond { response } => {
            assert_eq!(response.status, 404);
            assert!(response.body.is_empty());
        }
        _ => panic!("expected an immediate response"),
    }
}

#[test]
fn post_loadkey_with_key_plans_unlock_with_exact_value() {
    let plan = plan_request(
        HttpMethod::Post,
        &vec_of(b"/loadkey"),
        &vec_of(b"key=correct-pass"),
    );
    match plan {
        RequestPlan::AttemptUnlock { key } => assert_eq!(key, b"correct-pass".to_vec()),
        _ => panic!("expected an unlock attempt"),
    }
}

#[test]
fn post_loadkey_without_key_is_bad_request() {
    let plan = plan_request(HttpMethod::Post, &vec_of(b"/loadkey"), &vec_of(b"foo=bar"));
    match plan {
        RequestPlan::Respond { response } => {
            assert_eq!(response.status, 400);
            assert_eq!(response.body, b"Invalid request: Must provide a key".to_vec());
        }
        _ => panic!("a body without a key must never reach the backend"),
    }
}

#[test]
fn post_loadkey_with_empty_body_is_bad_request() {
    let plan = plan_request(HttpMethod::Post, &vec_of(b"/loadkey"), &Vec::new());
    match plan {
        RequestPlan::Respond { response } => assert_eq!(response.status, 400),
        _ => panic!("an empty body must never reach the backend"),
    }
}

#[test]
fn successful_unlock_responds_200_and_signals_shutdown() {
    let mut shutdown = ShutdownSignal::new();
    let response = handle_unlock(&Ok(()), &mut shutdown);
    assert_eq!(response.status, 200);
    assert_eq!(response.body, b"Key loaded successfully".to_vec());
    assert!(shutdown.try_take());
}

#[test]
fn failed_unlock_responds_401_with_backend_text_and_no_signal() {
    let mut shutdown = ShutdownSignal::new();
    let outcome = Err(LoadKeyError::Backend {
        stderr: b"Key load error: Incorrect key provided".to_vec(),
    });
    let response = handle_unlock(&outcome, &mut shutdown);
    assert_eq!(response.status, 401);
    assert_eq!(
        response.body,
        b"zfs load-key failed: Key load error: Incorrect key provided".to_vec()
    );
    assert!(!shutdown.try_take());
}

#[test]
fn spawn_failure_responds_401_with_spawn_text() {
    let mut shutdown = ShutdownSignal::new();
    let response = handle_unlock(&Err(LoadKeyError::Spawn), &mut shutdown);
    assert_eq!(response.status, 401);
    assert_eq!(response.body, b"failed to spawn zfs command".to_vec());
    assert!(!shutdown.try_take());
}

#[test]
fn pipe_failure_responds_401_with_io_text() {
    let mut shutdown = ShutdownSignal::new();
    let outcome = Err(LoadKeyError::Pipe {
        detail: b"Broken pipe (os error 32)".to_vec(),
    });
    let response = handle_unlock(&outcome, &mut shutdown);
    assert_eq!(response.status, 401);
    assert_eq!(response.body, b"Broken pipe (os error 32)".to_vec());
    assert!(!shutdown.try_take());
}

#[test]
fn signal_is_idempotent_and_never_errors() {
    let mut shutdown = ShutdownSignal::new();
    assert!(!shutdown.try_take());
    shutdown.signal();
    shutdown.signal();
    assert!(shutdown.try_take());
    assert!(!shutdown.try_take());
}

#[test]
fn two_successes_still_deliver_a_single_pending_signal() {
    let mut shutdown = ShutdownSignal::new();
    let first = handle_unlock(&Ok(()), &mut shutdown);
    let second = handle_unlock(&Ok(()), &mut shutdown);
    assert_eq!(first.status, 200);
    assert_eq!(second.status, 200);
    assert!(shutdown.try_take());
    assert!(!shutdown.try_take());
}
