use soft_serve::failure::{FailureKind, IoFailure};
use soft_serve::outcome::{Outcome, Rejection};
use soft_serve::response::{
    not_found, respond, Body, Response, READ_BUFFER_SIZE, STATUS_NOT_FOUND, STATUS_OK,
};

#[test]
fn statuses_are_200_and_404() {
    assert_eq!(STATUS_OK, 200);
    assert_eq!(STATUS_NOT_FOUND, 404);
}

#[test]
fn read_buffer_holds_sixteen_kibibytes() {
    assert_eq!(READ_BUFFER_SIZE, 16384);
}

#[test]
fn not_found_names_the_request_path() {
    let response = not_found("/missing");
    assert_eq!(response.status, 404);
    assert_eq!(response.content_type, "text/plain");
    assert_eq!(response.body, Body::Text("Not found: /missing".to_string()));
}

#[test]
fn not_found_echoes_the_path_as_sent() {
    let response = not_found("/../etc/passwd");
    assert_eq!(response.body, Body::Text("Not found: /../etc/passwd".to_string()));
    let response = not_found("");
    assert_eq!(response.body, Body::Text("Not found: ".to_string()));
}

#[test]
fn streamed_file_is_a_200_with_its_content_type() {
    let outcome = Outcome::Stream {
        content_type: "text/html".to_string(),
        location: "/srv/www/index.html".to_string(),
    };
    let expected = Response {
        status: 200,
        content_type: "text/html".to_string(),
        body: Body::File { location: "/srv/www/index.html".to_string() },
    };
    assert_eq!(respond(outcome, "/"), Ok(expected));
}

#[test]
fn every_rejection_gets_the_same_response() {
    let reasons = [
        Rejection::Malformed,
        Rejection::Missing,
        Rejection::Traversal,
        Rejection::IndexDisabled,
        Rejection::IndexMissing,
        Rejection::NotRegular,
    ];
    for reason in reasons {
        assert_eq!(respond(Outcome::NotFound(reason), "/x"), Ok(not_found("/x")));
    }
}

#[test]
fn rejections_differ_only_in_the_echoed_path() {
    let missing = respond(Outcome::NotFound(Rejection::Missing), "/missing").unwrap();
    let traversal = respond(Outcome::NotFound(Rejection::Traversal), "/../etc/passwd").unwrap();
    assert_eq!(missing.status, traversal.status);
    assert_eq!(missing.content_type, traversal.content_type);
    assert_eq!(missing.body, Body::Text("Not found: /missing".to_string()));
    assert_eq!(traversal.body, Body::Text("Not found: /../etc/passwd".to_string()));
}

#[test]
fn server_error_has_no_response() {
    let denied = IoFailure { kind: FailureKind::Other, os_code: Some(13) };
    assert_eq!(respond(Outcome::ServerError(denied), "/secret"), Err(denied));
}
