use json_rpc2::message::METHOD_NOT_FOUND;
use json_rpc2::{Error, Request, Response, Server, Service};
use serde_json::Value;
use std::sync::atomic::{AtomicUsize, Ordering};
use std::sync::Arc;

/// What a service under test does with the one method it knows.
#[derive(Clone)]
enum Behaviour {
    Answer(Value),
    Fail(String),
}

/// Claims one method, counts how often it is asked, and reads the prefix of
/// its answers from the context.
struct Spy {
    method: String,
    behaviour: Behaviour,
    asked: Arc<AtomicUsize>,
}

impl Service<String> for Spy {
    fn handle(&self, request: &Request, ctx: &String) -> Result<Option<Response>, Error> {
        self.asked.fetch_add(1, Ordering::SeqCst);
        if request.method() != self.method {
            return Ok(None);
        }
        match &self.behaviour {
            Behaviour::Answer(Value::String(text)) => {
                let answer = Value::String(format!("{}{}", ctx, text));
                Ok(Some(Response::success(request, answer)))
            }
            Behaviour::Answer(value) => Ok(Some(Response::success(request, value.clone()))),
            Behaviour::Fail(data) => Err(Error::InvalidParams {
                id: request.id().clone(),
                data: data.clone(),
            }),
        }
    }
}

fn spy(method: &str, behaviour: Behaviour) -> (Box<dyn Service<String>>, Arc<AtomicUsize>) {
    let asked = Arc::new(AtomicUsize::new(0));
    let service = Spy { method: method.to_string(), behaviour, asked: asked.clone() };
    (Box::new(service), asked)
}

fn answer(text: &str) -> Behaviour {
    Behaviour::Answer(Value::String(text.to_string()))
}

fn call(id: i64, method: &str) -> Request {
    Request::new(Some(Value::from(id)), method.to_string(), None)
}

fn notification(method: &str) -> Request {
    Request::new(None, method.to_string(), None)
}

fn count(counter: &Arc<AtomicUsize>) -> usize {
    counter.load(Ordering::SeqCst)
}

#[test]
fn first_matching_service_answers_and_later_ones_are_not_asked() {
    let (first, asked_first) = spy("one", answer("1"));
    let (second, asked_second) = spy("two", answer("2"));
    let (third, asked_third) = spy("three", answer("3"));
    let server = Server::new(vec![first, second, third]);

    let response = server.serve(&call(10, "two"), &String::new()).unwrap();
    assert_eq!(response.id(), &Some(Value::from(10)));
    assert_eq!(response.result(), Some(&Value::String("2".to_string())));
    assert_eq!(count(&asked_first), 1);
    assert_eq!(count(&asked_second), 1);
    assert_eq!(count(&asked_third), 0);
}

#[test]
fn last_service_is_reached_when_the_others_decline() {
    let (first, asked_first) = spy("one", answer("1"));
    let (second, asked_second) = spy("two", answer("2"));
    let (third, asked_third) = spy("three", answer("3"));
    let server = Server::new(vec![first, second, third]);

    let response = server.serve(&call(11, "three"), &String::new()).unwrap();
    assert_eq!(response.result(), Some(&Value::String("3".to_string())));
    assert_eq!(count(&asked_first), 1);
    assert_eq!(count(&asked_second), 1);
    assert_eq!(count(&asked_third), 1);
}

#[test]
fn unmatched_method_asks_every_service_once() {
    let (first, asked_first) = spy("one", answer("1"));
    let (second, asked_second) = spy("two", answer("2"));
    let server = Server::new(vec![first, second]);

    let request = call(12, "none");
    let response = server.serve(&request, &String::new()).unwrap();
    assert_eq!(response, Response::failure(
        &request,
        Error::MethodNotFound { name: "none".to_string(), id: Some(Value::from(12)) },
    ));
    assert_eq!(response.id(), &Some(Value::from(12)));
    assert_eq!(response.error().unwrap().code, METHOD_NOT_FOUND);
    assert_eq!(response.error().unwrap().message, "Method not found: none");
    assert_eq!(count(&asked_first), 1);
    assert_eq!(count(&asked_second), 1);
}

#[test]
fn empty_server_reports_method_not_found() {
    let server: Server<String> = Server::new(Vec::new());
    let response = server.serve(&call(13, "any"), &String::new()).unwrap();
    assert_eq!(response.id(), &Some(Value::from(13)));
    assert_eq!(response.error().unwrap().code, METHOD_NOT_FOUND);
}

#[test]
fn failing_service_stops_the_search() {
    let (first, asked_first) = spy("ping", Behaviour::Fail("broken".to_string()));
    let (second, asked_second) = spy("ping", answer("pong"));
    let server = Server::new(vec![first, second]);

    let response = server.serve(&call(14, "ping"), &String::new()).unwrap();
    assert_eq!(response.id(), &Some(Value::from(14)));
    assert_eq!(response.result(), None);
    assert_eq!(response.error().unwrap().data, Some("broken".to_string()));
    assert_eq!(count(&asked_first), 1);
    assert_eq!(count(&asked_second), 0);
}

#[test]
fn order_of_registration_decides_between_two_claims() {
    let (a, _) = spy("ping", answer("a"));
    let (b, asked_b) = spy("ping", answer("b"));
    let server = Server::new(vec![a, b]);
    let response = server.serve(&call(15, "ping"), &String::new()).unwrap();
    assert_eq!(response.result(), Some(&Value::String("a".to_string())));
    assert_eq!(count(&asked_b), 0);

    let (a, asked_a) = spy("ping", answer("a"));
    let (b, _) = spy("ping", answer("b"));
    let server = Server::new(vec![b, a]);
    let response = server.serve(&call(15, "ping"), &String::new()).unwrap();
    assert_eq!(response.result(), Some(&Value::String("b".to_string())));
    assert_eq!(count(&asked_a), 0);
}

#[test]
fn serving_twice_gives_equal_responses() {
    let (first, _) = spy("one", answer("1"));
    let (second, _) = spy("two", Behaviour::Fail("bad".to_string()));
    let server = Server::new(vec![first, second]);
    let ctx = "ctx:".to_string();

    for request in [call(16, "one"), call(17, "two"), call(18, "none"), notification("one")] {
        let once = server.serve(&request, &ctx);
        let again = server.serve(&request, &ctx);
        assert_eq!(once, again);
    }
}

#[test]
fn context_reaches_the_service() {
    let (first, _) = spy("one", answer("1"));
    let server = Server::new(vec![first]);
    let response = server.serve(&call(19, "one"), &"ctx:".to_string()).unwrap();
    assert_eq!(response.result(), Some(&Value::String("ctx:1".to_string())));
}

#[test]
fn handled_notification_gets_no_response() {
    let (first, asked) = spy("one", answer("1"));
    let server = Server::new(vec![first]);
    assert_eq!(server.serve(&notification("one"), &String::new()), None);
    assert_eq!(count(&asked), 1);
}

#[test]
fn unmatched_notification_gets_an_error_response() {
    let (first, _) = spy("one", answer("1"));
    let server = Server::new(vec![first]);
    let response = server.serve(&notification("none"), &String::new()).unwrap();
    assert_eq!(response.id(), &None);
    assert_eq!(response.error().unwrap().code, METHOD_NOT_FOUND);
}

#[test]
fn failed_notification_gets_an_error_response() {
    let (first, _) = spy("one", Behaviour::Fail("bad".to_string()));
    let server = Server::new(vec![first]);
    let response = server.serve(&notification("one"), &String::new()).unwrap();
    assert_eq!(response.id(), &None);
    assert_eq!(response.error().unwrap().data, Some("bad".to_string()));
}

#[test]
fn null_id_counts_as_an_id() {
    let (first, _) = spy("one", answer("1"));
    let server = Server::new(vec![first]);
    let request = Request::new(Some(Value::Null), "one".to_string(), None);
    let response = server.serve(&request, &String::new()).unwrap();
    assert_eq!(response.id(), &Some(Value::Null));
}
