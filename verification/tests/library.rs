use poney::application::{
    application_target, parse_application_path, parts_from_groups, try_parse_application_path,
    ApplicationTarget,
};
use poney::http::Worker;
use poney::pep3333::{Header, RequestConnection};
use poney::server::shutdown_message;
use poney::worker::{cgi_environ, decode_response_body, response_body_is_text, EnvironValue};

fn s(text: &str) -> String {
    text.to_string()
}

#[test]
fn parses_plain_module() {
    assert_eq!(parse_application_path(s("myapp")), (s("myapp"), None, None));
}

#[test]
fn parses_dotted_module() {
    assert_eq!(parse_application_path(s("myapp.wsgi")), (s("myapp.wsgi"), None, None));
}

#[test]
fn parses_factory_call() {
    assert_eq!(
        parse_application_path(s("app:create_app()")),
        (s("app"), Some(s("create_app")), Some(s("()")))
    );
}

#[test]
fn parses_factory_call_with_arguments() {
    assert_eq!(
        parse_application_path(s("pkg.mod:app(a, b)")),
        (s("pkg.mod"), Some(s("app")), Some(s("(a, b)")))
    );
}

#[test]
fn parses_empty_path_as_empty_module() {
    assert_eq!(parse_application_path(s("")), (s(""), None, None));
}

#[test]
fn refuses_path_outside_grammar() {
    assert_eq!(try_parse_application_path(s("-x")), None);
    assert_eq!(try_parse_application_path(s("a b")), None);
}

#[test]
fn try_parse_agrees_with_parse() {
    assert_eq!(
        try_parse_application_path(s("app:create_app()")),
        Some((s("app"), Some(s("create_app")), Some(s("()"))))
    );
}

#[test]
fn parts_are_read_off_groups() {
    let groups = vec![
        Some(s("m:f(x)")),
        Some(s("m")),
        None,
        Some(s(":f(x)")),
        Some(s("f")),
        Some(s("(x)")),
    ];
    assert_eq!(parts_from_groups(&groups), (s("m"), Some(s("f")), Some(s("(x)"))));
    let short = vec![Some(s("m")), Some(s("m"))];
    assert_eq!(parts_from_groups(&short), (s("m"), None, None));
}

#[test]
fn target_is_factory_when_callable_given() {
    assert_eq!(application_target(Some(s("make"))), ApplicationTarget::Factory(s("make")));
}

#[test]
fn target_is_application_attribute_by_default() {
    assert_eq!(application_target(None), ApplicationTarget::Attribute(s("application")));
}

fn connection_with_head() -> RequestConnection {
    let mut c = RequestConnection::new();
    c.headers_set = Some((
        s("200 OK"),
        vec![Header(s("Content-Type"), s("text/plain")), Header(s("X-A"), s("1"))],
    ));
    c
}

#[test]
fn new_connection_has_no_head() {
    let c = RequestConnection::new();
    assert!(c.headers_set.is_none());
    assert!(c.headers_sent.is_none());
}

#[test]
fn first_write_sends_head_then_chunk() {
    let mut c = connection_with_head();
    let out = c.__call__(b"hello");
    assert_eq!(
        out,
        b"Status: 200 OK\r\nContent-Type: text/plain\r\nX-A: 1\r\n\r\nhello\r\n".to_vec()
    );
    assert_eq!(c.headers_sent, c.headers_set);
}

#[test]
fn head_is_sent_once_over_several_writes() {
    let mut c = connection_with_head();
    let mut all = Vec::new();
    all.extend(c.__call__(b"one"));
    all.extend(c.__call__(b"two"));
    all.extend(c.__call__(b""));
    assert_eq!(
        all,
        b"Status: 200 OK\r\nContent-Type: text/plain\r\nX-A: 1\r\n\r\none\r\ntwo\r\n\r\n".to_vec()
    );
}

#[test]
fn writes_after_head_send_only_chunks() {
    let mut c = connection_with_head();
    c.headers_sent = c.headers_set.clone();
    assert_eq!(c.__call__(b"x"), b"x\r\n".to_vec());
    assert_eq!(c.headers_sent, c.headers_set);
}

#[test]
fn head_without_headers() {
    let mut c = RequestConnection::new();
    c.headers_set = Some((s("404 Not Found"), vec![]));
    assert_eq!(c.__call__(b""), b"Status: 404 Not Found\r\n\r\n\r\n".to_vec());
}

#[test]
fn non_ascii_header_is_sent_in_utf8() {
    let mut c = RequestConnection::new();
    c.headers_set = Some((s("200 OK"), vec![Header(s("X-Name"), s("caf\u{e9}"))]));
    let out = c.__call__(b"");
    assert_eq!(out, "Status: 200 OK\r\nX-Name: caf\u{e9}\r\n\r\n\r\n".as_bytes().to_vec());
}

#[test]
fn cgi_environ_has_every_entry_in_order() {
    let env = cgi_environ();
    assert_eq!(env.len(), 17);
    let keys: Vec<&str> = env.iter().map(|e| e.key.as_str()).collect();
    assert_eq!(
        keys,
        vec![
            "HTTP_ACCEPT",
            "HTTP_HOST",
            "HTTP_USER_AGENT",
            "PATH_INFO",
            "QUERY_STRING",
            "REQUEST_METHOD",
            "Worker_NAME",
            "Worker_PORT",
            "Worker_PROTOCOL",
            "Worker_SOFTWARE",
            "wsgi.errors",
            "wsgi.input",
            "wsgi.multiprocess",
            "wsgi.multithread",
            "wsgi.run_once",
            "wsgi.url_scheme",
            "wsgi.version",
        ]
    );
    assert_eq!(env[0].value, EnvironValue::Text(s("*/*")));
    assert_eq!(env[1].value, EnvironValue::Text(s("127.0.0.1:8000")));
    assert_eq!(env[5].value, EnvironValue::Text(s("GET")));
    assert_eq!(env[4].value, EnvironValue::Text(s("")));
    assert_eq!(env[12].value, EnvironValue::Flag(false));
    assert_eq!(env[15].value, EnvironValue::Text(s("http")));
    assert_eq!(env[16].value, EnvironValue::Version(1, 0));
}

#[test]
fn response_body_decodes_each_message() {
    let body = vec![b"Hello".to_vec(), "h\u{e9}".as_bytes().to_vec(), vec![]];
    assert!(response_body_is_text(&body));
    assert_eq!(decode_response_body(&body), vec![s("Hello"), s("h\u{e9}"), s("")]);
}

#[test]
fn response_body_with_invalid_utf8_is_not_text() {
    let body = vec![b"ok".to_vec(), vec![0xff, 0xfe]];
    assert!(!response_body_is_text(&body));
    assert!(response_body_is_text(&vec![]));
}

#[test]
fn worker_answers_with_its_name() {
    let w = Worker { name: s("w1") };
    assert_eq!(w.response_text(), s("Hello from worker w1"));
}

#[test]
fn shutdown_notices() {
    assert_eq!(shutdown_message(true), s("Trying to shutdown the server ..."));
    assert_eq!(shutdown_message(false), s("Unable to shutdown the server gracefully"));
}
