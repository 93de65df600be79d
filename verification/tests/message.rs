use json_rpc2::message::{INVALID_PARAMS, METHOD_NOT_FOUND};
use json_rpc2::{Error, Request, Response, RpcError};
use serde_json::Value;

fn text(value: &str) -> Value {
    Value::String(value.to_string())
}

#[test]
fn request_keeps_its_parts() {
    let request = Request::new(Some(Value::from(7)), "sum".to_string(), Some(text("1+1")));
    assert_eq!(request.method(), "sum");
    assert_eq!(request.params(), &Some(text("1+1")));
    assert_eq!(request.id(), &Some(Value::from(7)));
}

#[test]
fn notification_has_no_id() {
    let request = Request::new(None, "log".to_string(), None);
    assert_eq!(request.method(), "log");
    assert_eq!(request.params(), &None);
    assert_eq!(request.id(), &None);
}

#[test]
fn error_codes_are_those_of_json_rpc() {
    assert_eq!(METHOD_NOT_FOUND, -32601);
    assert_eq!(INVALID_PARAMS, -32602);
}

#[test]
fn method_not_found_payload() {
    let error = Error::MethodNotFound { name: "bye".to_string(), id: Some(Value::from(2)) };
    assert_eq!(
        RpcError::from_error(error),
        RpcError { code: -32601, message: "Method not found: bye".to_string(), data: None }
    );
}

#[test]
fn method_not_found_payload_for_an_empty_name() {
    let error = Error::MethodNotFound { name: String::new(), id: None };
    assert_eq!(
        RpcError::from_error(error),
        RpcError { code: -32601, message: "Method not found: ".to_string(), data: None }
    );
}

#[test]
fn invalid_params_payload() {
    let error = Error::InvalidParams { id: None, data: "expected a number".to_string() };
    assert_eq!(
        RpcError::from_error(error),
        RpcError {
            code: -32602,
            message: "Message parameters are invalid".to_string(),
            data: Some("expected a number".to_string()),
        }
    );
}

#[test]
fn success_echoes_the_id_and_carries_the_result() {
    let request = Request::new(Some(text("abc")), "sum".to_string(), None);
    let response = Response::success(&request, Value::from(2));
    assert_eq!(response.id(), &Some(text("abc")));
    assert_eq!(response.result(), Some(&Value::from(2)));
    assert_eq!(response.error(), None);
}

#[test]
fn success_for_a_notification_has_no_id() {
    let request = Request::new(None, "sum".to_string(), None);
    let response = Response::success(&request, Value::Null);
    assert_eq!(response.id(), &None);
    assert_eq!(response.result(), Some(&Value::Null));
}

#[test]
fn failure_echoes_the_id_of_the_request_and_carries_the_error() {
    let request = Request::new(Some(Value::from(5)), "sum".to_string(), None);
    let error = Error::InvalidParams { id: Some(Value::from(6)), data: "bad".to_string() };
    let response = Response::failure(&request, error);
    assert_eq!(response.id(), &Some(Value::from(5)));
    assert_eq!(response.result(), None);
    assert_eq!(
        response.error(),
        Some(&RpcError {
            code: -32602,
            message: "Message parameters are invalid".to_string(),
            data: Some("bad".to_string()),
        })
    );
}

#[test]
fn response_has_exactly_one_of_result_and_error() {
    let request = Request::new(Some(Value::from(5)), "sum".to_string(), None);
    let success = Response::success(&request, Value::from(1));
    let failure = Response::failure(
        &request,
        Error::MethodNotFound { name: "sum".to_string(), id: None },
    );
    assert!(success.result().is_some() && success.error().is_none());
    assert!(failure.result().is_none() && failure.error().is_some());
}

#[test]
fn response_outlives_the_request_it_answers() {
    let response = {
        let request = Request::new(Some(text("kept")), "sum".to_string(), None);
        Response::success(&request, Value::from(1))
    };
    assert_eq!(response.id(), &Some(text("kept")));
}
