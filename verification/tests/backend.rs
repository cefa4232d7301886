use zfs_unlock::bootstrap::{preflight_decision, BootAction};
use zfs_unlock::zfs::{
    interpret_keystatus, interpret_load_key, parse_keystatus_value, KeyStatus, KeystatusError,
    LoadKeyError,
};

#[test]
fn available_status_parses() {
    let r = parse_keystatus_value(&b"available\n".to_vec());
    assert_eq!(r, Ok(KeyStatus::Available));
}

#[test]
fn unavailable_status_parses() {
    let r = parse_keystatus_value(&b"unavailable\n".to_vec());
    assert_eq!(r, Ok(KeyStatus::Unavailable));
}

#[test]
fn surrounding_whitespace_is_trimmed() {
    let r = parse_keystatus_value(&b"\t available \r\n".to_vec());
    assert_eq!(r, Ok(KeyStatus::Available));
}

#[test]
fn dash_is_the_not_encrypted_error_not_a_state() {
    let r = parse_keystatus_value(&b"-\n".to_vec());
    assert_eq!(r, Err(KeystatusError::NotEncrypted));
    assert_eq!(
        KeystatusError::NotEncrypted.message(),
        b"dataset is not encrypted".to_vec()
    );
}

#[test]
fn unknown_status_value_is_rejected() {
    let r = parse_keystatus_value(&b"pending\n".to_vec());
    assert_eq!(
        r,
        Err(KeystatusError::Unexpected {
            value: b"pending".to_vec()
        })
    );
    let e = r.unwrap_err();
    assert_eq!(
        e.message(),
        b"unexpected value for keystatus: pending".to_vec()
    );
}

#[test]
fn keystatus_query_failure_carries_stderr() {
    let r = interpret_keystatus(
        false,
        &Vec::new(),
        &b"cannot open 'pool/data': dataset does not exist".to_vec(),
    );
    assert_eq!(
        r,
        Err(KeystatusError::Backend {
            stderr: b"cannot open 'pool/data': dataset does not exist".to_vec()
        })
    );
    let e = r.unwrap_err();
    assert_eq!(
        e.message(),
        b"failed to get keystatus: cannot open 'pool/data': dataset does not exist".to_vec()
    );
}

#[test]
fn keystatus_query_success_parses_stdout() {
    let r = interpret_keystatus(true, &b"unavailable\n".to_vec(), &Vec::new());
    assert_eq!(r, Ok(KeyStatus::Unavailable));
}

#[test]
fn keystatus_spawn_failure_message() {
    assert_eq!(
        KeystatusError::Spawn.message(),
        b"failed to spawn zfs command".to_vec()
    );
}

#[test]
fn load_key_exit_zero_is_success() {
    assert_eq!(interpret_load_key(true, &Vec::new()), Ok(()));
}

#[test]
fn load_key_nonzero_exit_carries_stderr() {
    let r = interpret_load_key(false, &b"Incorrect key provided".to_vec());
    assert_eq!(
        r,
        Err(LoadKeyError::Backend {
            stderr: b"Incorrect key provided".to_vec()
        })
    );
    let e = r.unwrap_err();
    assert_eq!(
        e.message(),
        b"zfs load-key failed: Incorrect key provided".to_vec()
    );
}

#[test]
fn load_key_spawn_failure_message() {
    assert_eq!(
        LoadKeyError::Spawn.message(),
        b"failed to spawn zfs command".to_vec()
    );
}

#[test]
fn non_utf8_stderr_is_carried_without_crashing() {
    let stderr = vec![0xffu8, 0xfe, b'!'];
    let r = interpret_load_key(false, &stderr);
    let e = r.unwrap_err();
    let mut expected = b"zfs load-key failed: ".to_vec();
    expected.extend_from_slice(&stderr);
    assert_eq!(e.message(), expected);
}

#[test]
fn preflight_available_exits_without_serving() {
    let action = preflight_decision(Ok(KeyStatus::Available));
    assert!(matches!(action, BootAction::AlreadyUnlocked));
}

#[test]
fn preflight_unavailable_starts_the_server() {
    let action = preflight_decision(Ok(KeyStatus::Unavailable));
    assert!(matches!(action, BootAction::StartServer));
}

#[test]
fn preflight_error_aborts_with_that_error() {
    let action = preflight_decision(Err(KeystatusError::NotEncrypted));
    match action {
        BootAction::Abort { error } => assert_eq!(error, KeystatusError::NotEncrypted),
        _ => panic!("a failed pre-flight query must be fatal"),
    }
}
