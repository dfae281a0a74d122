use rust_http_server::request::Request;
use rust_http_server::wsgi::application::{Application, EnvValue};

fn sample() -> Application {
    Application {
        module: String::from("flask_test_app"),
        callable: String::from("app"),
        headers_set: Vec::new(),
        path_to_app: String::from("/apps/"),
        path_to_bindings: String::from("/bin/"),
        port: String::from("9595"),
    }
}

#[test]
fn app_string_names_module_and_callable() {
    assert_eq!(
        Application::parse_app_string("flask_test_app:app"),
        Some((String::from("flask_test_app"), String::from("app")))
    );
    assert_eq!(
        Application::parse_app_string("a:b:c"),
        Some((String::from("a"), String::from("b")))
    );
    assert_eq!(Application::parse_app_string(":"), Some((String::new(), String::new())));
    assert_eq!(Application::parse_app_string("module"), None);
}

#[test]
fn call_statement_names_the_callable() {
    assert_eq!(
        sample().call_statement(),
        "bind.Application.call_callable(env, flask_test_app.app)"
    );
}

#[test]
fn environ_describes_the_request() {
    let text = String::from("DELETE /item/3 HTTP/1.1\nHost: a\nX: example.org\n");
    let request = Request::from(text.clone()).unwrap();
    let env = sample().environ(&request);
    let keys: Vec<&str> = env.iter().map(|(k, _)| k.as_str()).collect();
    assert_eq!(
        keys,
        vec![
            "wsgi.version",
            "wsgi.url_scheme",
            "wsgi.input",
            "wsgi.errors",
            "wsgi.multithread",
            "wsgi.multiprocess",
            "wsgi.run_once",
            "REQUEST_METHOD",
            "PATH_INFO",
            "SERVER_NAME",
            "SERVER_PORT",
        ]
    );
    let text_of = |i: usize| match &env[i].1 {
        EnvValue::Text(s) => s.clone(),
        EnvValue::Flag(_) => panic!("expected text"),
    };
    assert_eq!(text_of(0), "1.0");
    assert_eq!(text_of(2), text);
    assert_eq!(text_of(7), "DELETE");
    assert_eq!(text_of(8), "/item/3");
    assert_eq!(text_of(9), "example.org");
    assert_eq!(text_of(10), "9595");
    assert!(matches!(env[4].1, EnvValue::Flag(true)));
    assert!(matches!(env[6].1, EnvValue::Flag(false)));
}
