use command_bridge::{
    build_request, get_base_url, int_text, decimal_text, method_for, Body, BridgeConfig, Command,
    HttpRequest, LoginRequest, Method, Operation, User, DEFAULT_TIMEOUT_SECONDS,
};

fn config() -> BridgeConfig {
    BridgeConfig::default()
}

fn sample_user() -> User {
    User { id: None, name: "Ann".to_string(), email: "ann@example.com".to_string(), age: 31 }
}

fn auth_headers(r: &HttpRequest) -> Vec<String> {
    r.headers.iter().filter(|h| h.name == "Authorization").map(|h| h.value.clone()).collect()
}

#[test]
fn base_url_is_local_default() {
    assert_eq!(get_base_url(), "http://localhost:8080");
}

#[test]
fn default_config_values() {
    let c = config();
    assert_eq!(c.base_url, "http://localhost:8080");
    assert_eq!(c.app_id, "com.example.user-management");
    assert_eq!(c.timeout_seconds, 30);
    assert_eq!(DEFAULT_TIMEOUT_SECONDS, 30);
}

#[test]
fn login_request_has_body_and_no_token() {
    let req = LoginRequest { username: "admin".to_string(), password: "pw".to_string() };
    let r = build_request(&config(), Operation::Login { request: req });
    assert_eq!(r.method, Method::Post);
    assert_eq!(r.url, "http://localhost:8080/auth/login");
    assert!(r.headers.is_empty());
    match r.body {
        Body::Login(l) => {
            assert_eq!(l.username, "admin");
            assert_eq!(l.password, "pw");
        }
        _ => panic!("login body expected"),
    }
    assert_eq!(r.timeout_seconds, 30);
}

#[test]
fn get_users_carries_bearer_once() {
    let r = build_request(&config(), Operation::GetUsers { token: "tok123".to_string() });
    assert_eq!(r.method, Method::Get);
    assert_eq!(r.url, "http://localhost:8080/users");
    assert_eq!(auth_headers(&r), vec!["Bearer tok123".to_string()]);
    assert_eq!(r.headers.len(), 1);
    assert!(matches!(r.body, Body::Empty));
}

#[test]
fn create_user_posts_user_with_bearer() {
    let r = build_request(
        &config(),
        Operation::CreateUser { token: "t".to_string(), user: sample_user() },
    );
    assert_eq!(r.method, Method::Post);
    assert_eq!(r.url, "http://localhost:8080/users");
    assert_eq!(auth_headers(&r), vec!["Bearer t".to_string()]);
    match r.body {
        Body::User(u) => {
            assert_eq!(u.name, "Ann");
            assert_eq!(u.email, "ann@example.com");
            assert_eq!(u.age, 31);
            assert_eq!(u.id, None);
        }
        _ => panic!("user body expected"),
    }
}

#[test]
fn update_user_puts_to_id_path() {
    let r = build_request(
        &config(),
        Operation::UpdateUser { token: "t".to_string(), id: 42, user: sample_user() },
    );
    assert_eq!(r.method, Method::Put);
    assert_eq!(r.url, "http://localhost:8080/users/42");
    assert_eq!(auth_headers(&r), vec!["Bearer t".to_string()]);
    assert!(matches!(r.body, Body::User(_)));
}

#[test]
fn delete_user_uses_id_path_without_body() {
    let r = build_request(&config(), Operation::DeleteUser { token: "abc".to_string(), id: -7 });
    assert_eq!(r.method, Method::Delete);
    assert_eq!(r.url, "http://localhost:8080/users/-7");
    assert_eq!(auth_headers(&r), vec!["Bearer abc".to_string()]);
    assert!(matches!(r.body, Body::Empty));
}

#[test]
fn health_check_has_no_token() {
    let r = build_request(&config(), Operation::CheckServerStatus);
    assert_eq!(r.method, Method::Get);
    assert_eq!(r.url, "http://localhost:8080/health");
    assert!(auth_headers(&r).is_empty());
}

#[test]
fn configured_base_url_is_used() {
    let c = BridgeConfig {
        base_url: "https://api.example.org".to_string(),
        app_id: "x".to_string(),
        timeout_seconds: 5,
    };
    let r = build_request(&c, Operation::DeleteUser { token: "k".to_string(), id: 0 });
    assert_eq!(r.url, "https://api.example.org/users/0");
    assert_eq!(r.timeout_seconds, 5);
}

#[test]
fn bearer_only_on_user_endpoints() {
    let ops = vec![
        (Operation::Login { request: LoginRequest { username: "u".to_string(), password: "p".to_string() } }, 0),
        (Operation::GetUsers { token: "a".to_string() }, 1),
        (Operation::CreateUser { token: "a".to_string(), user: sample_user() }, 1),
        (Operation::UpdateUser { token: "a".to_string(), id: 1, user: sample_user() }, 1),
        (Operation::DeleteUser { token: "a".to_string(), id: 1 }, 1),
        (Operation::CheckServerStatus, 0),
    ];
    for (op, n) in ops {
        let r = build_request(&config(), op);
        assert_eq!(auth_headers(&r).len(), n);
    }
}

#[test]
fn methods_of_commands() {
    assert_eq!(method_for(Command::Login), Method::Post);
    assert_eq!(method_for(Command::GetUsers), Method::Get);
    assert_eq!(method_for(Command::CreateUser), Method::Post);
    assert_eq!(method_for(Command::UpdateUser), Method::Put);
    assert_eq!(method_for(Command::DeleteUser), Method::Delete);
    assert_eq!(method_for(Command::CheckServerStatus), Method::Get);
}

#[test]
fn decimal_texts() {
    assert_eq!(decimal_text(0), "0");
    assert_eq!(decimal_text(9), "9");
    assert_eq!(decimal_text(10), "10");
    assert_eq!(decimal_text(4294967295), "4294967295");
    assert_eq!(int_text(-1), "-1");
    assert_eq!(int_text(i32::MIN), "-2147483648");
    assert_eq!(int_text(i32::MAX), "2147483647");
}
