use zest::cache::{ContentCache, Kind};
use zest::config::{Config, LocationConfig};
use zest::pipeline::{
    begin, reply, server_banner, step, store_needed, Action, Event, FileData, Reply, Stage,
    HTML_UTF_8,
};
use zest::route::{location_index, status_page, DirEntry};

const BANNER: &str = "Zest/0.1.0 (Powered by Rust)";
const DATE: &str = "Thu, 01 Jan 1970 00:00:00 GMT";

fn config() -> Config {
    Config::with_root("/srv/www".to_string())
}

fn cache() -> ContentCache {
    ContentCache::new(16, 32, 1024)
}

fn entry(name: &str, is_dir: bool) -> DirEntry {
    DirEntry { name: name.to_string(), is_dir, is_symlink: false }
}

fn head(version: &str, status: &str, length: usize, kind: &str, modified: Option<&str>) -> String {
    let mut head = format!(
        "HTTP/{version} {status}\r\nServer: {BANNER}\r\nDate: {DATE}\r\nContent-Length: {length}\r\nContent-Type: {kind}\r\n"
    );
    if let Some(modified) = modified {
        head.push_str(&format!("Last-Modified: {modified}\r\n"));
    }
    head.push_str("\r\n");
    head
}

fn page(status: &str) -> Vec<u8> {
    status_page(status, BANNER.to_string()).into_bytes()
}

fn expect_reply(result: (Stage, Action)) -> Reply {
    match result {
        (Stage::Done, Action::Respond(reply)) => reply,
        other => panic!("no reply: {:?}", other),
    }
}

fn line(text: &str) -> Event {
    Event::Line(Some(text.to_string()))
}

fn canonical(candidate: Option<&str>) -> Event {
    Event::Canonical {
        root: "/srv/www".to_string(),
        candidate: candidate.map(String::from),
        error_page: None,
    }
}

/// Runs a request for a path that exists up to the question of its kind.
fn up_to_inspection(target: &str, found: &str, config: &Config, cache: &mut ContentCache) -> Stage {
    let request = format!("GET {target} HTTP/1.1");
    let (stage, action) = step(Stage::Start, line(&request), config, BANNER, 0, cache);
    assert!(matches!(action, Action::Canonicalize { .. }));
    let (stage, action) = step(stage, canonical(Some(found)), config, BANNER, 0, cache);
    match action {
        Action::Inspect { path } => assert_eq!(path, found),
        other => panic!("no inspection: {:?}", other),
    }
    stage
}

#[test]
fn banner_text() {
    assert_eq!(server_banner("0.1.0", "Powered by Rust"), BANNER);
    assert_eq!(server_banner("", ""), "Zest/ ()");
}

#[test]
fn reply_with_content() {
    let r = reply(
        "1.1".to_string(),
        200,
        BANNER,
        0,
        "text/plain".to_string(),
        Some(784111777),
        b"hello".to_vec(),
    );
    assert_eq!(r.status_code, 200);
    assert_eq!(r.body, b"hello");
    assert_eq!(
        r.head,
        head("1.1", "200 OK", 5, "text/plain", Some("Sun, 06 Nov 1994 08:49:37 GMT"))
    );
}

#[test]
fn reply_without_success_carries_the_status_page() {
    let r = reply("1.0".to_string(), 500, BANNER, 0, HTML_UTF_8.to_string(), None, b"x".to_vec());
    let body = page("500 Internal Server Error");
    assert_eq!(r.status_code, 500);
    assert_eq!(r.head, head("1.0", "500 Internal Server Error", body.len(), HTML_UTF_8, None));
    assert_eq!(r.body, body);
}

#[test]
fn reply_leaves_out_stamps_that_cannot_be_written() {
    let r = reply(
        "1.1".to_string(),
        200,
        BANNER,
        i64::MAX,
        "text/plain".to_string(),
        Some(i64::MIN),
        Vec::new(),
    );
    assert_eq!(
        r.head,
        format!(
            "HTTP/1.1 200 OK\r\nServer: {BANNER}\r\nContent-Length: 0\r\nContent-Type: text/plain\r\n\r\n"
        )
    );
}

#[test]
fn content_length_counts_bytes() {
    let r = reply(
        "1.1".to_string(),
        200,
        BANNER,
        0,
        "text/plain".to_string(),
        None,
        "é".as_bytes().to_vec(),
    );
    assert_eq!(r.head, head("1.1", "200 OK", 2, "text/plain", None));
}

#[test]
fn missing_line_is_a_bad_request() {
    let mut cache = cache();
    let r = expect_reply(step(Stage::Start, Event::Line(None), &config(), BANNER, 0, &mut cache));
    let body = page("400 Bad Request");
    assert_eq!(r.status_code, 400);
    assert_eq!(r.head, head("1.1", "400 Bad Request", body.len(), HTML_UTF_8, None));
    assert_eq!(r.body, body);
}

#[test]
fn malformed_line_is_a_bad_request() {
    let r = expect_reply(begin(Some("GET /".to_string()), &config(), BANNER, 0));
    assert_eq!(r.status_code, 400);
    assert_eq!(r.body, page("400 Bad Request"));
}

#[test]
fn other_method_is_not_implemented() {
    let r = expect_reply(begin(Some("POST / HTTP/1.0".to_string()), &config(), BANNER, 0));
    let body = page("501 Not Implemented");
    assert_eq!(r.status_code, 501);
    assert_eq!(r.head, head("1.1", "501 Not Implemented", body.len(), HTML_UTF_8, None));
    assert_eq!(r.body, body);
}

#[test]
fn retrieval_asks_for_canonical_paths() {
    let (stage, action) = begin(Some("GET /a%20b?x HTTP/1.0".to_string()), &config(), BANNER, 0);
    match stage {
        Stage::Resolving { version } => assert_eq!(version, "1.0"),
        other => panic!("wrong stage: {:?}", other),
    }
    match action {
        Action::Canonicalize { root, candidate, error_page } => {
            assert_eq!(root, "/srv/www");
            assert_eq!(candidate, "/srv/www/a b");
            assert_eq!(error_page, "/srv/www/404.html");
        },
        other => panic!("wrong action: {:?}", other),
    }
}

#[test]
fn missing_file_is_not_found() {
    let config = config();
    let mut cache = cache();
    let (stage, action) =
        step(Stage::Start, line("GET /missing.txt HTTP/1.1"), &config, BANNER, 0, &mut cache);
    match action {
        Action::Canonicalize { candidate, .. } => assert_eq!(candidate, "/srv/www/missing.txt"),
        other => panic!("wrong action: {:?}", other),
    }
    let r = expect_reply(step(stage, canonical(None), &config, BANNER, 0, &mut cache));
    let body = page("404 Not Found");
    assert_eq!(r.status_code, 404);
    assert_eq!(r.body, body);
    assert_eq!(r.head, head("1.1", "404 Not Found", body.len(), "text/html", None));
    assert!(r.head.contains("\r\nContent-Type: text/html\r\n"));
    assert_eq!(cache.len(Kind::File), 0);
    assert_eq!(cache.len(Kind::Listing), 0);
}

#[test]
fn not_found_is_typed_as_the_error_page_is() {
    let mut config = config();
    config.server.error_page = Some("errors/missing.txt".to_string());
    let mut cache = cache();
    let (stage, _) = step(Stage::Start, line("GET /x HTTP/1.1"), &config, BANNER, 0, &mut cache);
    let r = expect_reply(step(stage, canonical(None), &config, BANNER, 0, &mut cache));
    assert_eq!(r.status_code, 404);
    assert!(r.head.contains("\r\nContent-Type: text/plain\r\n"));

    let (stage, _) = step(Stage::Start, line("GET /x HTTP/1.1"), &config, BANNER, 0, &mut cache);
    let event = Event::Canonical {
        root: "/srv/www".to_string(),
        candidate: None,
        error_page: Some("/srv/shared/missing.html".to_string()),
    };
    let r = expect_reply(step(stage, event, &config, BANNER, 0, &mut cache));
    assert!(r.head.contains("\r\nContent-Type: text/html\r\n"));
}

#[test]
fn root_directory_is_listed() {
    let config = config();
    let mut cache = cache();
    let stage = up_to_inspection("/", "/srv/www", &config, &mut cache);
    let (stage, action) =
        step(stage, Event::Kind { is_dir: true }, &config, BANNER, 0, &mut cache);
    match action {
        Action::Enumerate { path } => assert_eq!(path, "/srv/www"),
        other => panic!("wrong action: {:?}", other),
    }
    let entries = vec![entry("a.txt", false), entry("sub", true)];
    let r = expect_reply(step(
        stage,
        Event::Entries(Some(entries.clone())),
        &config,
        BANNER,
        0,
        &mut cache,
    ));
    let body = String::from_utf8(r.body.clone()).unwrap();
    assert_eq!(r.status_code, 200);
    assert_eq!(body, location_index("", &entries));
    assert!(body.contains("<title>Directory listing for /</title>"));
    assert!(body.contains("<a href=\"a.txt\">a.txt</a>"));
    assert!(body.contains("<a href=\"sub/\">sub/</a>"));
    assert_eq!(r.head, head("1.1", "200 OK", r.body.len(), HTML_UTF_8, None));
}

#[test]
fn second_listing_comes_from_the_cache() {
    let config = config();
    let mut cache = cache();
    let stage = up_to_inspection("/sub", "/srv/www/sub", &config, &mut cache);
    let (stage, action) =
        step(stage, Event::Kind { is_dir: true }, &config, BANNER, 0, &mut cache);
    assert!(matches!(action, Action::Enumerate { .. }));
    let entries = Event::Entries(Some(vec![entry("a.txt", false)]));
    let first = expect_reply(step(stage, entries, &config, BANNER, 0, &mut cache));
    assert_eq!(cache.len(Kind::Listing), 1);

    let stage = up_to_inspection("/sub", "/srv/www/sub", &config, &mut cache);
    let second =
        expect_reply(step(stage, Event::Kind { is_dir: true }, &config, BANNER, 0, &mut cache));
    assert_eq!(second.status_code, 200);
    assert_eq!(second.body, first.body);
    assert_eq!(second.head, first.head);
    assert_eq!(cache.len(Kind::Listing), 1);
}

#[test]
fn two_spellings_of_one_directory_share_a_listing() {
    let config = config();
    let mut cache = cache();
    let stage = up_to_inspection("/sub/", "/srv/www/sub", &config, &mut cache);
    let (stage, _) = step(stage, Event::Kind { is_dir: true }, &config, BANNER, 0, &mut cache);
    let entries = Event::Entries(Some(vec![entry("a.txt", false)]));
    let first = expect_reply(step(stage, entries, &config, BANNER, 0, &mut cache));

    let stage = up_to_inspection("/x/../sub?sort=1", "/srv/www/sub", &config, &mut cache);
    let second =
        expect_reply(step(stage, Event::Kind { is_dir: true }, &config, BANNER, 0, &mut cache));
    assert_eq!(second.body, first.body);
    assert!(String::from_utf8(second.body).unwrap().contains("Directory listing for /sub<"));
}

#[test]
fn directory_that_cannot_be_enumerated_is_refused() {
    let config = config();
    let mut cache = cache();
    let stage = up_to_inspection("/sub", "/srv/www/sub", &config, &mut cache);
    let (stage, _) = step(stage, Event::Kind { is_dir: true }, &config, BANNER, 0, &mut cache);
    let r = expect_reply(step(stage, Event::Entries(None), &config, BANNER, 0, &mut cache));
    let body = page("301 Moved Permanently");
    assert_eq!(r.status_code, 301);
    assert_eq!(r.head, head("1.1", "301 Moved Permanently", body.len(), HTML_UTF_8, None));
    assert_eq!(r.body, body);
    assert_eq!(cache.len(Kind::Listing), 0);
}

#[test]
fn listing_that_is_switched_off_is_refused() {
    let mut config = config();
    config.locations =
        Some(vec![("/private".to_string(), LocationConfig { auto_index: Some(false), index: None })]);
    let mut cache = cache();
    let stage = up_to_inspection("/private", "/srv/www/private", &config, &mut cache);
    let r = expect_reply(step(stage, Event::Kind { is_dir: true }, &config, BANNER, 0, &mut cache));
    assert_eq!(r.status_code, 301);
    assert_eq!(r.body, page("301 Moved Permanently"));
}

#[test]
fn index_file_stands_in_for_the_listing() {
    let mut config = config();
    config.locations = Some(vec![(
        "/docs".to_string(),
        LocationConfig { auto_index: None, index: Some("/srv/www/docs/index.html".to_string()) },
    )]);
    let mut cache = cache();
    let stage = up_to_inspection("/docs", "/srv/www/docs", &config, &mut cache);
    let (stage, action) =
        step(stage, Event::Kind { is_dir: true }, &config, BANNER, 0, &mut cache);
    match action {
        Action::ReadIndex { path } => assert_eq!(path, "/srv/www/docs/index.html"),
        other => panic!("wrong action: {:?}", other),
    }
    let r = expect_reply(step(
        stage,
        Event::Index(Some("<p>docs</p>".to_string())),
        &config,
        BANNER,
        0,
        &mut cache,
    ));
    assert_eq!(r.status_code, 200);
    assert_eq!(r.body, b"<p>docs</p>");
    assert_eq!(r.head, head("1.1", "200 OK", 11, HTML_UTF_8, None));
    assert_eq!(cache.lookup(Kind::Listing, "docs"), Some(b"<p>docs</p>".to_vec()));
}

#[test]
fn index_file_that_cannot_be_read_is_refused() {
    let mut config = config();
    config.locations = Some(vec![(
        "docs".to_string(),
        LocationConfig { auto_index: Some(true), index: Some("gone.html".to_string()) },
    )]);
    let mut cache = cache();
    let stage = up_to_inspection("/docs", "/srv/www/docs", &config, &mut cache);
    let (stage, _) = step(stage, Event::Kind { is_dir: true }, &config, BANNER, 0, &mut cache);
    let r = expect_reply(step(stage, Event::Index(None), &config, BANNER, 0, &mut cache));
    assert_eq!(r.status_code, 301);
}

#[test]
fn file_is_read_served_and_cached() {
    let config = config();
    let mut cache = cache();
    let stage = up_to_inspection("/a.txt", "/srv/www/a.txt", &config, &mut cache);
    let (stage, action) =
        step(stage, Event::Kind { is_dir: false }, &config, BANNER, 0, &mut cache);
    match action {
        Action::ReadFile { path } => assert_eq!(path, "/srv/www/a.txt"),
        other => panic!("wrong action: {:?}", other),
    }
    let file = FileData { bytes: b"hello".to_vec(), modified: Some(1431648000) };
    let r = expect_reply(step(stage, Event::File(Some(file)), &config, BANNER, 0, &mut cache));
    assert_eq!(r.status_code, 200);
    assert_eq!(r.body, b"hello");
    assert_eq!(
        r.head,
        head("1.1", "200 OK", 5, "text/plain", Some("Fri, 15 May 2015 00:00:00 GMT"))
    );
    assert_eq!(cache.lookup(Kind::File, "a.txt"), Some(b"hello".to_vec()));
}

#[test]
fn cached_file_is_served_without_reading() {
    let config = config();
    let mut cache = cache();
    cache.insert(Kind::File, "img/p.png".to_string(), vec![1, 2, 3]);
    let stage = up_to_inspection("/img/p.png", "/srv/www/img/p.png", &config, &mut cache);
    let r = expect_reply(step(stage, Event::Kind { is_dir: false }, &config, BANNER, 0, &mut cache));
    assert_eq!(r.status_code, 200);
    assert_eq!(r.body, vec![1, 2, 3]);
    assert_eq!(r.head, head("1.1", "200 OK", 3, "image/png", None));
}

#[test]
fn large_file_is_served_but_not_cached() {
    let config = config();
    let mut cache = ContentCache::new(4, 4, 3);
    let stage = up_to_inspection("/big.bin", "/srv/www/big.bin", &config, &mut cache);
    let (stage, _) = step(stage, Event::Kind { is_dir: false }, &config, BANNER, 0, &mut cache);
    let file = FileData { bytes: vec![0; 4], modified: None };
    let r = expect_reply(step(stage, Event::File(Some(file)), &config, BANNER, 0, &mut cache));
    assert_eq!(r.status_code, 200);
    assert_eq!(r.body, vec![0; 4]);
    assert_eq!(r.head, head("1.1", "200 OK", 4, "application/octet-stream", None));
    assert_eq!(cache.len(Kind::File), 0);
}

#[test]
fn file_that_cannot_be_read_is_an_internal_error() {
    let config = config();
    let mut cache = cache();
    let stage = up_to_inspection("/a.txt", "/srv/www/a.txt", &config, &mut cache);
    let (stage, _) = step(stage, Event::Kind { is_dir: false }, &config, BANNER, 0, &mut cache);
    let r = expect_reply(step(stage, Event::File(None), &config, BANNER, 0, &mut cache));
    let body = page("500 Internal Server Error");
    assert_eq!(r.status_code, 500);
    assert_eq!(r.head, head("1.1", "500 Internal Server Error", body.len(), HTML_UTF_8, None));
    assert_eq!(r.body, body);
    assert_eq!(cache.len(Kind::File), 0);
}

#[test]
fn path_outside_the_root_is_answered_with_301() {
    let config = config();
    let mut cache = cache();
    let (stage, action) =
        step(Stage::Start, line("GET //etc/passwd HTTP/1.1"), &config, BANNER, 0, &mut cache);
    match action {
        Action::Canonicalize { candidate, .. } => assert_eq!(candidate, "/etc/passwd"),
        other => panic!("wrong action: {:?}", other),
    }
    let r =
        expect_reply(step(stage, canonical(Some("/etc/passwd")), &config, BANNER, 0, &mut cache));
    assert_eq!(r.status_code, 301);
    assert_eq!(r.body, page("301 Moved Permanently"));
}

#[test]
fn relaxed_containment_inspects_outside_paths() {
    let mut config = config();
    config.server.allow_outside_root = Some(true);
    let mut cache = cache();
    let (stage, _) =
        step(Stage::Start, line("GET /link HTTP/1.1"), &config, BANNER, 0, &mut cache);
    let (stage, action) =
        step(stage, canonical(Some("/data/file.txt")), &config, BANNER, 0, &mut cache);
    assert!(matches!(action, Action::Inspect { .. }));
    match stage {
        Stage::Inspecting { path, location, .. } => {
            assert_eq!(path, "/data/file.txt");
            assert_eq!(location, "/data/file.txt");
        },
        other => panic!("wrong stage: {:?}", other),
    }
}

#[test]
fn version_of_the_request_is_answered_in() {
    let config = config();
    let mut cache = cache();
    let (stage, _) = step(Stage::Start, line("GET /x HTTP/1.0"), &config, BANNER, 0, &mut cache);
    let r = expect_reply(step(stage, canonical(None), &config, BANNER, 0, &mut cache));
    assert!(r.head.starts_with("HTTP/1.0 404 Not Found\r\n"));
}

#[test]
fn event_that_answers_nothing_is_an_internal_error() {
    let config = config();
    let mut cache = cache();
    let r = expect_reply(step(
        Stage::Start,
        Event::Kind { is_dir: true },
        &config,
        BANNER,
        0,
        &mut cache,
    ));
    assert_eq!(r.status_code, 500);
    let r = expect_reply(step(Stage::Done, line("GET / HTTP/1.1"), &config, BANNER, 0, &mut cache));
    assert_eq!(r.status_code, 500);
    let stage = Stage::Listing { version: "1.0".to_string(), location: String::new() };
    let r = expect_reply(step(stage, Event::Index(None), &config, BANNER, 0, &mut cache));
    assert_eq!(r.status_code, 500);
    assert!(r.head.starts_with("HTTP/1.1 500 "));
}

#[test]
fn each_step_names_the_store_it_needs() {
    let inspecting = || Stage::Inspecting {
        version: "1.1".to_string(),
        path: "/srv/www/a".to_string(),
        location: "a".to_string(),
    };
    let listing = Stage::Listing { version: "1.1".to_string(), location: "a".to_string() };
    let indexing = Stage::Indexing { version: "1.1".to_string(), location: "a".to_string() };
    let reading = Stage::Reading {
        version: "1.1".to_string(),
        path: "/srv/www/a".to_string(),
        location: "a".to_string(),
    };
    assert_eq!(store_needed(&Stage::Start, &line("GET / HTTP/1.1")), None);
    assert_eq!(store_needed(&Stage::Resolving { version: String::new() }, &canonical(None)), None);
    assert_eq!(store_needed(&inspecting(), &Event::Kind { is_dir: true }), Some(Kind::Listing));
    assert_eq!(store_needed(&inspecting(), &Event::Kind { is_dir: false }), Some(Kind::File));
    assert_eq!(store_needed(&listing, &Event::Entries(None)), Some(Kind::Listing));
    assert_eq!(store_needed(&indexing, &Event::Index(None)), Some(Kind::Listing));
    assert_eq!(store_needed(&reading, &Event::File(None)), Some(Kind::File));
    assert_eq!(store_needed(&listing, &Event::File(None)), None);
    assert_eq!(store_needed(&Stage::Done, &Event::Kind { is_dir: true }), None);
}

#[test]
fn listings_and_files_can_live_in_two_caches() {
    let config = config();
    let mut listings = cache();
    let mut files = cache();
    let mut unused = ContentCache::new(1, 1, 0);

    let (stage, _) = step(Stage::Start, line("GET /a.txt HTTP/1.1"), &config, BANNER, 0, &mut unused);
    let (stage, _) =
        step(stage, canonical(Some("/srv/www/a.txt")), &config, BANNER, 0, &mut unused);
    let (stage, _) = step(stage, Event::Kind { is_dir: false }, &config, BANNER, 0, &mut files);
    let file = FileData { bytes: b"hello".to_vec(), modified: None };
    let r = expect_reply(step(stage, Event::File(Some(file)), &config, BANNER, 0, &mut files));
    assert_eq!(r.body, b"hello");
    assert_eq!(files.len(Kind::File), 1);
    assert_eq!(files.len(Kind::Listing), 0);
    assert_eq!(listings.len(Kind::Listing), 0);
    assert_eq!(unused.len(Kind::File), 0);

    let (stage, _) = step(Stage::Start, line("GET /a.txt HTTP/1.1"), &config, BANNER, 0, &mut unused);
    let (stage, _) =
        step(stage, canonical(Some("/srv/www/a.txt")), &config, BANNER, 0, &mut unused);
    let r = expect_reply(step(stage, Event::Kind { is_dir: false }, &config, BANNER, 0, &mut files));
    assert_eq!(r.body, b"hello");
    assert_eq!(listings.lookup(Kind::File, "a.txt"), None);
}
