use http_engine::compose::{dangling_list_args, dangling_removal_args, ComposeCmd};
use http_engine::config::{check_listener, check_port, ConfigError, Service};
use http_engine::request::{PeerAddress, Request};
use http_engine::response::{Payload, Response};
use http_engine::status_code::StatusCode;
use http_engine::string_map::StringMap;
use http_engine::text::{join_texts, space, trim_text};
use http_engine::webhook::{
    authenticate, handle_connection, note_service, plan, server_error, unauthorized, Listener,
    RegistryEvent, Update,
};

fn request(bytes: &[u8]) -> Request {
    Request::parse(bytes, PeerAddress::V4 { octets: 1, port: 2 }).unwrap()
}

fn strings(items: &[&str]) -> Vec<String> {
    items.iter().map(|s| s.to_string()).collect()
}

fn event(action: &str, host: &str, repository: &str) -> RegistryEvent {
    RegistryEvent { action: action.to_string(), host: host.to_string(), repository: repository.to_string() }
}

fn listener(path: &str, images: &[(&str, &str)]) -> Listener {
    let mut map = StringMap::new();
    for (image, service) in images {
        map.insert(image.to_string(), service.to_string());
    }
    Listener { compose_path: path.to_string(), images: map }
}

fn shown(updates: &[Update]) -> Vec<(String, Vec<String>)> {
    updates.iter().map(|u| (u.compose_path.clone(), u.services.clone())).collect()
}

#[test]
fn texts_are_joined_with_the_separator() {
    assert_eq!(join_texts(&strings(&[]), " "), "");
    assert_eq!(join_texts(&strings(&["web"]), " "), "web");
    assert_eq!(join_texts(&strings(&["web", "db", "cache"]), " "), "web db cache");
    assert_eq!(join_texts(&strings(&["a", "", "b"]), ", "), "a, , b");
}

#[test]
fn white_space_is_what_the_standard_library_calls_white_space() {
    for n in 0..=0x10ffffu32 {
        if let Some(c) = char::from_u32(n) {
            assert_eq!(space(c), c.is_whitespace(), "at {:x}", n);
        }
    }
}

#[test]
fn trimming_agrees_with_the_standard_library() {
    for s in ["", " ", " a ", "\n\tsha256:abc\n", "a b", "\u{a0}x\u{3000}", "abc\r\n", "  \n "] {
        assert_eq!(trim_text(s), s.trim());
    }
    assert_eq!(trim_text("  id1\nid2 \n"), "id1\nid2");
}

#[test]
fn compose_commands_have_their_arguments() {
    let cmd = ComposeCmd::new("/srv/compose.yml");
    assert_eq!(cmd.config_args(), strings(&["compose", "-f", "/srv/compose.yml", "config"]));
    assert_eq!(
        cmd.pull_args(&strings(&["web", "db"])),
        strings(&["compose", "-f", "/srv/compose.yml", "pull", "web db"])
    );
    assert_eq!(
        cmd.restart_args(&strings(&["web"])),
        strings(&["compose", "-f", "/srv/compose.yml", "up", "web", "-d"])
    );
}

#[test]
fn dangling_images_are_listed_and_removed() {
    assert_eq!(
        dangling_list_args("registry.local/app"),
        strings(&["images", "-f 'reference=registry.local/app'", "-f 'dangling=true'", "-q"])
    );
    assert_eq!(dangling_removal_args(""), None);
    assert_eq!(dangling_removal_args("abc123\n"), Some(strings(&["rmi", "abc123"])));
    assert_eq!(dangling_removal_args("\n"), Some(strings(&["rmi", ""])));
}

#[test]
fn ports_below_1024_are_refused() {
    assert!(check_port(1024).is_ok());
    assert!(check_port(65535).is_ok());
    match check_port(1023) {
        Err(e) => assert_eq!(
            e.to_string(),
            "invalid configuration: invalid server port 1023: cannot be less than 1024"
        ),
        Ok(_) => panic!("the port should be refused"),
    }
    assert!(matches!(check_port(0), Err(ConfigError::Port(0))));
}

#[test]
fn listener_gets_the_images_of_its_services() {
    let services = vec![
        Service { name: "web".to_string(), image: Some("reg/web".to_string()) },
        Service { name: "db".to_string(), image: Some("reg/db".to_string()) },
        Service { name: "built".to_string(), image: None },
        Service { name: "twin".to_string(), image: Some("reg/web".to_string()) },
    ];
    let images = check_listener("main", "c.yml", &services, &strings(&["db", "web"])).unwrap();
    assert_eq!(images.len(), 2);
    assert_eq!(images.get("reg/web"), Some(&"web".to_string()));
    assert_eq!(images.get("reg/db"), Some(&"db".to_string()));
    assert_eq!(images.entry(0), Some((&"reg/db".to_string(), &"db".to_string())));
    let images = check_listener("main", "c.yml", &services, &strings(&["web", "twin"])).unwrap();
    assert_eq!(images.len(), 1);
    assert_eq!(images.get("reg/web"), Some(&"twin".to_string()));
}

#[test]
fn listener_faults_say_what_is_wrong() {
    let services = vec![
        Service { name: "web".to_string(), image: Some("reg/web".to_string()) },
        Service { name: "built".to_string(), image: None },
    ];
    let e = check_listener("main", "c.yml", &services, &strings(&[])).unwrap_err();
    assert_eq!(
        e.to_string(),
        "invalid configuration: listener 'main' should have at least one watch_services defined"
    );
    let e = check_listener("main", "c.yml", &services, &strings(&["web", "built", "gone"])).unwrap_err();
    assert_eq!(
        e.to_string(),
        "invalid configuration: service 'built' has no 'image' attribute in compose file 'c.yml'"
    );
    let e = check_listener("main", "c.yml", &services, &strings(&["gone", "built"])).unwrap_err();
    assert_eq!(
        e.to_string(),
        "invalid configuration: service 'gone' not found in compose file 'c.yml'"
    );
}

#[test]
fn callers_present_the_token_as_a_bearer() {
    let with = request(b"POST / HTTP/1.1\r\nAuthorization: Bearer s3cret\r\n\r\n");
    let without = request(b"POST / HTTP/1.1\r\n\r\n");
    assert!(authenticate(&with, None));
    assert!(authenticate(&without, None));
    assert!(authenticate(&with, Some("s3cret")));
    assert!(!authenticate(&with, Some("other")));
    assert!(!authenticate(&with, Some("s3cre")));
    assert!(!authenticate(&without, Some("s3cret")));
    assert!(!authenticate(&request(b"POST / HTTP/1.1\r\nAuthorization: s3cret\r\n\r\n"), Some("s3cret")));
}

#[test]
fn unauthorized_and_server_error_are_short_texts() {
    let mut res = Response::new();
    let out = unauthorized(&mut res);
    assert_eq!(
        out.head,
        "HTTP/1.1 401 Unauthorized\r\nContent-Type: text/plain; charset=utf-8\r\nContent-Length: 16\r\n\r\n"
    );
    assert!(matches!(out.payload, Payload::Text(ref t) if t == "401 Unauthorized"));
    let mut res = Response::new();
    let out = server_error(&mut res);
    assert_eq!(
        out.head,
        "HTTP/1.1 500 InternalServerError\r\nContent-Type: text/plain; charset=utf-8\r\nContent-Length: 25\r\n\r\n"
    );
    assert!(matches!(out.payload, Payload::Text(ref t) if t == "500 Internal server error"));
}

#[test]
fn first_answer_depends_on_the_token() {
    let req = request(b"POST / HTTP/1.1\r\nAuthorization: Bearer t\r\n\r\n");
    let mut res = Response::new();
    let (out, serve) = handle_connection(&req, &mut res, Some("t"));
    assert!(serve);
    assert_eq!(out.head, "HTTP/1.1 200 Ok\r\nContent-Length: 0\r\n\r\n");
    assert!(matches!(out.payload, Payload::Empty));
    let mut res = Response::new();
    let (out, serve) = handle_connection(&req, &mut res, Some("u"));
    assert!(!serve);
    assert_eq!(res.status_code(), StatusCode::Unauthorized);
    assert!(out.head.starts_with("HTTP/1.1 401 Unauthorized\r\n"));
}

#[test]
fn services_are_noted_under_their_compose_file() {
    let mut updates: Vec<Update> = Vec::new();
    note_service(&mut updates, "a.yml", "web");
    note_service(&mut updates, "b.yml", "db");
    note_service(&mut updates, "a.yml", "worker");
    note_service(&mut updates, "a.yml", "web");
    assert_eq!(
        shown(&updates),
        vec![
            ("a.yml".to_string(), strings(&["web", "worker", "web"])),
            ("b.yml".to_string(), strings(&["db"])),
        ]
    );
}

#[test]
fn pushes_are_planned_for_the_listeners_that_watch_them() {
    let listeners = vec![
        listener("a.yml", &[("reg.local/web", "web"), ("reg.local/api", "api")]),
        listener("b.yml", &[("reg.local/web", "frontend")]),
    ];
    let events = vec![
        event("pull", "reg.local", "web"),
        event("push", "reg.local", "web"),
        event("push", "reg.local", "unknown"),
        event("push", "reg.local", "api"),
        event("push", "other.host", "web"),
    ];
    let p = plan(&events, &listeners, true);
    assert_eq!(
        shown(&p.updates),
        vec![
            ("a.yml".to_string(), strings(&["web", "api"])),
            ("b.yml".to_string(), strings(&["frontend"])),
        ]
    );
    assert_eq!(
        p.dangling,
        strings(&["reg.local/web", "reg.local/unknown", "reg.local/api", "other.host/web"])
    );
    let p = plan(&events, &listeners, false);
    assert_eq!(p.updates.len(), 2);
    assert!(p.dangling.is_empty());
}

#[test]
fn nothing_is_planned_without_pushes_or_listeners() {
    let listeners = vec![listener("a.yml", &[("reg.local/web", "web")])];
    let p = plan(&vec![event("delete", "reg.local", "web")], &listeners, true);
    assert!(p.updates.is_empty());
    assert!(p.dangling.is_empty());
    let p = plan(&vec![event("push", "reg.local", "web")], &Vec::new(), true);
    assert!(p.updates.is_empty());
    assert!(p.dangling.is_empty());
    let p = plan(&vec![event("push", "reg.local", "other")], &listeners, true);
    assert!(p.updates.is_empty());
    assert!(p.dangling.is_empty());
    let p = plan(&Vec::new(), &listeners, true);
    assert!(p.updates.is_empty());
}
