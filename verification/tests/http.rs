use worker_pool::http::{response, route};

#[test]
fn root_request_gets_the_greeting_page() {
    let reply = route(b"GET / HTTP/1.1\r\nHost: localhost\r\n\r\n");
    assert_eq!(reply.status_line, "HTTP/1.1 200 OK\r\n\r\n");
    assert_eq!(reply.filename, "hello.html");
}

#[test]
fn request_line_alone_is_enough() {
    let reply = route(b"GET / HTTP/1.1\r\n");
    assert_eq!(reply.status_line, "HTTP/1.1 200 OK\r\n\r\n");
    assert_eq!(reply.filename, "hello.html");
}

#[test]
fn root_request_in_a_zero_padded_buffer_gets_the_greeting_page() {
    let mut buffer = [0u8; 1024];
    let request = b"GET / HTTP/1.1\r\n\r\n";
    buffer[..request.len()].copy_from_slice(request);
    let reply = route(&buffer);
    assert_eq!(reply.status_line, "HTTP/1.1 200 OK\r\n\r\n");
    assert_eq!(reply.filename, "hello.html");
}

#[test]
fn other_path_gets_the_not_found_page() {
    let reply = route(b"GET /other HTTP/1.1\r\n\r\n");
    assert_eq!(reply.status_line, "HTTP/1.1 404 NOT FOUND\r\n\r\n");
    assert_eq!(reply.filename, "404.html");
}

#[test]
fn other_method_gets_the_not_found_page() {
    let reply = route(b"POST / HTTP/1.1\r\n\r\n");
    assert_eq!(reply.status_line, "HTTP/1.1 404 NOT FOUND\r\n\r\n");
    assert_eq!(reply.filename, "404.html");
}

#[test]
fn truncated_request_line_gets_the_not_found_page() {
    let reply = route(b"GET / HTTP/1.1\r");
    assert_eq!(reply.status_line, "HTTP/1.1 404 NOT FOUND\r\n\r\n");
    assert_eq!(reply.filename, "404.html");
    let reply = route(b"");
    assert_eq!(reply.filename, "404.html");
    let reply = route(&[0u8; 1024]);
    assert_eq!(reply.filename, "404.html");
}

#[test]
fn request_line_differing_in_its_last_byte_gets_the_not_found_page() {
    let reply = route(b"GET / HTTP/1.1\r\r");
    assert_eq!(reply.status_line, "HTTP/1.1 404 NOT FOUND\r\n\r\n");
    let reply = route(b"GET / HTTP/1.0\r\n");
    assert_eq!(reply.filename, "404.html");
}

#[test]
fn response_is_status_line_then_body() {
    let text = response("HTTP/1.1 200 OK\r\n\r\n", "<h1>Hello!</h1>");
    assert_eq!(text, "HTTP/1.1 200 OK\r\n\r\n<h1>Hello!</h1>");
    assert_eq!(text.as_bytes().len(), 19 + 15);
}

#[test]
fn response_with_an_empty_body_is_the_status_line() {
    assert_eq!(response("HTTP/1.1 404 NOT FOUND\r\n\r\n", ""), "HTTP/1.1 404 NOT FOUND\r\n\r\n");
}
