use ipctl::Error;

fn runtime() -> tokio::runtime::Runtime {
    tokio::runtime::Builder::new_current_thread()
        .enable_all()
        .build()
        .unwrap()
}

fn invalid_uri() -> tonic::transport::Error {
    match tonic::transport::Endpoint::from_shared(String::from("not a uri")) {
        Ok(_) => unreachable!(),
        Err(error) => error,
    }
}

#[test]
fn transport_error_becomes_the_tonic_variant() {
    let error = Error::from(invalid_uri());
    assert!(matches!(error, Error::Tonic(_)));
}

#[test]
fn transport_error_converts_through_into() {
    let error: Error = invalid_uri().into();
    assert!(matches!(error, Error::Tonic(_)));
}

#[test]
fn transport_error_keeps_its_own_text() {
    let text = invalid_uri().to_string();
    assert_eq!(text, "invalid URI");
    assert_eq!(Error::from(invalid_uri()).message(), text);
}

#[test]
fn channel_error_has_a_fixed_text() {
    assert_eq!(
        Error::Channel.message(),
        "shutdown signal not delivered: the listener is gone"
    );
}

#[test]
fn join_error_keeps_its_own_text() {
    let rt = runtime();
    let task = rt.spawn(std::future::pending::<()>());
    let id = task.id();
    task.abort();
    let failure = rt.block_on(task).unwrap_err();
    let text = failure.to_string();
    assert_eq!(text, format!("task {id} was cancelled"));
    assert_eq!(Error::JoinError(failure).message(), text);
}

#[test]
fn address_in_use_is_a_transport_fault() {
    let rt = runtime();
    let outcome = rt.block_on(async {
        let first = tokio::net::TcpListener::bind("127.0.0.1:0").await.unwrap();
        let taken = first.local_addr().unwrap();
        tonic::transport::Server::builder()
            .add_routes(tonic::service::Routes::default())
            .serve(taken)
            .await
    });
    let error = Error::from(outcome.unwrap_err());
    assert!(matches!(error, Error::Tonic(_)));
    assert_eq!(error.message(), "transport error");
}
