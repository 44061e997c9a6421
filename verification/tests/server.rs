use compensation::server::Server;

#[test]
fn server_builder_keeps_the_choices() {
    let server = Server::builder().host("0.0.0.0".to_owned()).port(9090).build();
    assert_eq!("0.0.0.0".to_owned(), server.host);
    assert_eq!(9090, server.port);
}

#[test]
fn server_builder_fills_defaults() {
    let server = Server::builder().build();
    assert_eq!("localhost".to_owned(), server.host);
    assert_eq!(8080, server.port);
}

#[test]
fn server_builder_defaults_are_independent() {
    let server = Server::builder().port(8081).build();
    assert_eq!("localhost".to_owned(), server.host);
    assert_eq!(8081, server.port);
    let server = Server::builder().host("127.0.0.1".to_owned()).build();
    assert_eq!("127.0.0.1".to_owned(), server.host);
    assert_eq!(8080, server.port);
}
