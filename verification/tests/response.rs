use zest::response::Response;

#[test]
fn status_texts() {
    let response = Response::new();
    assert_eq!(response.status(200), "200 OK");
    assert_eq!(response.status(301), "301 Moved Permanently");
    assert_eq!(response.status(400), "400 Bad Request");
    assert_eq!(response.status(404), "404 Not Found");
    assert_eq!(response.status(501), "501 Not Implemented");
    assert_eq!(response.status(500), "500 Internal Server Error");
}

#[test]
fn every_other_status_reads_as_an_internal_error() {
    let response = Response::new();
    assert_eq!(response.status(418), "418 Internal Server Error");
    assert_eq!(response.status(0), "0 Internal Server Error");
    assert_eq!(response.status(-1), "-1 Internal Server Error");
}

#[test]
fn head_without_fields() {
    let response = Response::new();
    assert_eq!(response.status_code(), 200);
    assert_eq!(response.resp(), "HTTP/1.1 200 OK\r\n\r\n");
}

#[test]
fn head_with_fields_in_the_order_they_were_set() {
    let mut response = Response::new();
    response.set_status(404);
    response.set_version("1.0".to_string());
    assert_eq!(response.send_header("Server", "Zest".to_string()), None);
    assert_eq!(response.send_header("Content-Length", "0".to_string()), None);
    assert_eq!(response.send_header("Content-Type", "text/html".to_string()), None);
    assert_eq!(
        response.resp(),
        "HTTP/1.0 404 Not Found\r\nServer: Zest\r\nContent-Length: 0\r\nContent-Type: text/html\r\n\r\n"
    );
}

#[test]
fn field_set_again_keeps_its_place_and_gives_the_old_value() {
    let mut response = Response::new();
    assert_eq!(response.send_header("A", "1".to_string()), None);
    assert_eq!(response.send_header("B", "2".to_string()), None);
    assert_eq!(response.send_header("A", "3".to_string()), Some("1".to_string()));
    assert_eq!(response.send_header("A", "4".to_string()), Some("3".to_string()));
    assert_eq!(response.resp(), "HTTP/1.1 200 OK\r\nA: 4\r\nB: 2\r\n\r\n");
}

#[test]
fn field_names_are_told_apart_by_case() {
    let mut response = Response::new();
    assert_eq!(response.send_header("a", "1".to_string()), None);
    assert_eq!(response.send_header("A", "2".to_string()), None);
    assert_eq!(response.resp(), "HTTP/1.1 200 OK\r\na: 1\r\nA: 2\r\n\r\n");
}
