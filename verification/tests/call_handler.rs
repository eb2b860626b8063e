use ipctl::server::reply;
use ipctl::{Code, Request, Response, Server, Status};
use std::sync::Arc;

fn request(value: &str) -> Request {
    Request { value: value.to_string() }
}

fn runtime() -> tokio::runtime::Runtime {
    tokio::runtime::Builder::new_multi_thread()
        .worker_threads(4)
        .build()
        .unwrap()
}

#[test]
fn identity_callback_round_trips() {
    let server = Server::new(|x: &str| x.to_string());
    for value in ["", "hello", "two words", "TRACE", "line\nbreak", "日本語 ✓", "\0"] {
        assert_eq!(server.call(request(value)).value, value);
    }
}

#[test]
fn identity_callback_round_trips_a_long_string() {
    let server = Server::new(|x: &str| x.to_string());
    let long = "ab".repeat(50_000);
    assert_eq!(server.call(request(&long)).value, long);
}

#[test]
fn response_is_what_the_callback_returns() {
    let server = Server::new(|x: &str| format!("received: {x}"));
    assert_eq!(server.call(request("ping")).value, "received: ping");
    assert_eq!(server.call(request("")).value, "received: ");
}

#[test]
fn callback_may_ignore_its_input() {
    let server = Server::new(|_: &str| String::from("fixed"));
    assert_eq!(server.call(request("anything")).value, "fixed");
}

fn reverse(x: &str) -> String {
    x.chars().rev().collect()
}

#[test]
fn function_item_serves_as_callback() {
    let server = Server::new(reverse);
    assert_eq!(server.call(request("abc")).value, "cba");
}

#[test]
fn uppercase_callback_answers_hello() {
    let server = Server::new(|x: &str| x.to_uppercase());
    let response = server.call(request("hello"));
    assert_eq!(response, Response { value: "HELLO".to_string() });
}

#[test]
fn callback_runs_once_per_call() {
    let count = Arc::new(std::sync::Mutex::new(0usize));
    let seen = Arc::clone(&count);
    let server = Server::new(move |x: &str| {
        *seen.lock().unwrap() += 1;
        x.to_string()
    });
    server.call(request("a"));
    assert_eq!(*count.lock().unwrap(), 1);
    server.call(request("b"));
    server.call(request("c"));
    assert_eq!(*count.lock().unwrap(), 3);
}

#[test]
fn callback_side_effects_are_kept() {
    let level = Arc::new(std::sync::Mutex::new(String::from("INFO")));
    let shared = Arc::clone(&level);
    let server = Server::new(move |x: &str| {
        *shared.lock().unwrap() = x.to_string();
        format!("Log level is changed to {x}")
    });
    let response = server.call(request("TRACE"));
    assert_eq!(response.value, "Log level is changed to TRACE");
    assert_eq!(*level.lock().unwrap(), "TRACE");
}

#[test]
fn simultaneous_calls_do_not_cross_talk() {
    let rt = runtime();
    let server = Arc::new(Server::new(|x: &str| format!("<{x}>")));
    let mut tasks = Vec::new();
    for i in 0..64 {
        let server = Arc::clone(&server);
        tasks.push(rt.spawn(async move { server.call(request(&format!("value-{i}"))) }));
    }
    for (i, task) in tasks.into_iter().enumerate() {
        let response = rt.block_on(task).unwrap();
        assert_eq!(response.value, format!("<value-{i}>"));
    }
}

#[test]
fn two_simultaneous_calls_get_their_own_answers() {
    let rt = runtime();
    let server = Arc::new(Server::new(|x: &str| x.to_uppercase()));
    let first = Arc::clone(&server);
    let second = Arc::clone(&server);
    let a = rt.spawn(async move { first.call(request("left")) });
    let b = rt.spawn(async move { second.call(request("right")) });
    assert_eq!(rt.block_on(b).unwrap().value, "RIGHT");
    assert_eq!(rt.block_on(a).unwrap().value, "LEFT");
}

#[test]
fn reply_hands_a_response_through() {
    let response = Response { value: "done".to_string() };
    assert_eq!(reply(Some(response.clone())), Ok(response));
    let empty = Response { value: String::new() };
    assert_eq!(reply(Some(empty.clone())), Ok(empty));
}

#[test]
fn reply_turns_a_breakdown_into_an_internal_error() {
    assert_eq!(
        reply(None),
        Err(Status { code: Code::Internal, message: "callback failed".to_string() })
    );
}

#[test]
fn breakdown_of_one_call_leaves_the_next_one_alone() {
    let server = Server::new(|x: &str| x.to_uppercase());
    let broken = reply(None);
    assert_eq!(broken.unwrap_err().code, Code::Internal);
    let next = reply(Some(server.call(request("other"))));
    assert_eq!(next, Ok(Response { value: "OTHER".to_string() }));
    let again = reply(None);
    assert_ne!(again.unwrap_err().code, Code::Unavailable);
}
