use soft_serve::failure::{
    classify, FailureClass, FailureKind, IoFailure, Operation, IS_A_DIRECTORY, NOT_A_DIRECTORY,
};

fn failure(kind: FailureKind, os_code: Option<i32>) -> IoFailure {
    IoFailure { kind, os_code }
}

#[test]
fn error_codes_are_those_of_the_operating_system() {
    assert_eq!(NOT_A_DIRECTORY, 20);
    assert_eq!(IS_A_DIRECTORY, 21);
}

#[test]
fn resolving_a_missing_path_is_client_input() {
    let missing = failure(FailureKind::NotFound, Some(2));
    assert_eq!(classify(Operation::Canonicalize, missing), FailureClass::ClientInput);
    let missing = failure(FailureKind::NotFound, None);
    assert_eq!(classify(Operation::Canonicalize, missing), FailureClass::ClientInput);
}

#[test]
fn resolving_through_a_file_is_client_input() {
    let not_a_directory = failure(FailureKind::Other, Some(20));
    assert_eq!(classify(Operation::Canonicalize, not_a_directory), FailureClass::ClientInput);
}

#[test]
fn resolving_a_directory_as_a_file_is_client_input() {
    let is_a_directory = failure(FailureKind::Other, Some(21));
    assert_eq!(classify(Operation::Canonicalize, is_a_directory), FailureClass::ClientInput);
}

#[test]
fn resolving_with_any_other_failure_is_transient() {
    let denied = failure(FailureKind::Other, Some(13));
    assert_eq!(classify(Operation::Canonicalize, denied), FailureClass::TransientIo);
    let unknown = failure(FailureKind::Other, None);
    assert_eq!(classify(Operation::Canonicalize, unknown), FailureClass::TransientIo);
    let neighbours = [19, 22, 0, -20];
    for code in neighbours {
        let other = failure(FailureKind::Other, Some(code));
        assert_eq!(classify(Operation::Canonicalize, other), FailureClass::TransientIo);
    }
}

#[test]
fn opening_a_missing_path_is_client_input() {
    let missing = failure(FailureKind::NotFound, Some(2));
    assert_eq!(classify(Operation::Open, missing), FailureClass::ClientInput);
}

#[test]
fn opening_with_any_other_failure_is_transient() {
    let denied = failure(FailureKind::Other, Some(13));
    assert_eq!(classify(Operation::Open, denied), FailureClass::TransientIo);
    let not_a_directory = failure(FailureKind::Other, Some(20));
    assert_eq!(classify(Operation::Open, not_a_directory), FailureClass::TransientIo);
}

#[test]
fn opening_an_index_never_fails_the_server() {
    let denied = failure(FailureKind::Other, Some(13));
    assert_eq!(classify(Operation::OpenIndex, denied), FailureClass::ClientInput);
    let missing = failure(FailureKind::NotFound, Some(2));
    assert_eq!(classify(Operation::OpenIndex, missing), FailureClass::ClientInput);
}

#[test]
fn inspecting_always_fails_the_server() {
    let denied = failure(FailureKind::Other, Some(13));
    assert_eq!(classify(Operation::Inspect, denied), FailureClass::TransientIo);
    let missing = failure(FailureKind::NotFound, Some(2));
    assert_eq!(classify(Operation::Inspect, missing), FailureClass::TransientIo);
}
