use cloudhost::web::{browse_kind, BrowseKind};
use cloudhost::web::{choose_upload_name, upload_stamp_text};
use cloudhost::orchestrator::folder_paths_outcome;
use cloudhost::paths::{config_dir_from, config_files_in, dev_mode_from};
use cloudhost::server_tab::folder_from_checks;
use cloudhost::auth::{bearer_token, password_from_query, AuthState, Claims};
use cloudhost::cloud::{Cloud, CloudFolder, UtcTime};
use cloudhost::clouds_config::CloudsConfig;
use cloudhost::debug_log::{DebugMessage, LogLevel, MessageHistory};
use cloudhost::error::{ServerError, TuiError};
use cloudhost::orchestrator::{check_folder_paths, Orchestrator, BASE_PORT};
use cloudhost::paths::{construct_directory_path, construct_file_path, find_cloud_folder, parse_target_path};
use cloudhost::web::{
    cookie_tokens, generate_breadcrumb, generate_file_list, generate_unique_filename, get_mime_type,
    validate_cloudfolder_name, FileEntry,
};

fn folder(name: &str, path: &str) -> CloudFolder {
    CloudFolder::new(name.to_string(), path.to_string())
}

fn cloud(name: &str) -> Cloud {
    Cloud::new(name.to_string(), vec![folder("docs", "/srv/docs")])
}

fn validation_message(r: Result<(), ServerError>) -> String {
    match r {
        Err(ServerError::Validation(m)) => m,
        other => panic!("expected a validation error, got {:?}", other),
    }
}

#[test]
fn folder_names_must_be_unique() {
    let mut config = CloudsConfig::default();
    assert!(config.add_cloud_folder(folder("docs", "/a")).is_ok());
    assert_eq!(
        validation_message(config.add_cloud_folder(folder("docs", "/b"))),
        "Cloud folder 'docs' already exists"
    );
    assert_eq!(config.get_cloud_folders().len(), 1);
    assert!(config.add_cloud_folder(folder("pics", "/p")).is_ok());
    assert_eq!(
        validation_message(config.update_cloud_folder("docs", folder("pics", "/x"))),
        "Cloud folder 'pics' already exists"
    );
    assert!(config.update_cloud_folder("docs", folder("docs", "/c")).is_ok());
    assert_eq!(config.get_cloud_folders()[0].folder_path, "/c");
    assert_eq!(
        validation_message(config.remove_cloud_folder("nope")),
        "Cloud folder 'nope' not found"
    );
    assert!(config.remove_cloud_folder("docs").is_ok());
    assert_eq!(config.get_cloud_folders().len(), 1);
}

#[test]
fn clouds_need_folders_and_distinct_names() {
    let mut config = CloudsConfig::default();
    let empty = Cloud::new("e".to_string(), vec![]);
    assert_eq!(
        validation_message(config.add_cloud(empty)),
        "Cloud must contain at least one cloud folder"
    );
    assert!(config.add_cloud(cloud("home")).is_ok());
    assert_eq!(validation_message(config.add_cloud(cloud("home"))), "Cloud 'home' already exists");
    assert_eq!(
        validation_message(config.update_cloud("home", Cloud::new("home".to_string(), vec![]))),
        "Cloud must contain at least one folder"
    );
    assert_eq!(validation_message(config.update_cloud("gone", cloud("gone"))), "Cloud 'gone' not found");
    assert_eq!(config.get_cloud("home").map(|c| c.name.as_str()), Some("home"));
    assert!(config.remove_cloud("home").is_ok());
    assert!(config.get_cloud("home").is_none());
    assert_eq!(validation_message(config.remove_cloud("home")), "Cloud 'home' not found");
}

#[test]
fn cloud_secrets_and_folders() {
    let mut c = cloud("work");
    assert!(c.jwt_secret.starts_with("cloud-work-secret-"));
    assert!(!c.has_password());
    assert!(!c.verify_password("anything"));
    c.add_cloud_folder(folder("docs", "/other"));
    assert_eq!(c.cloud_folders.len(), 1);
    c.add_cloud_folder(folder("music", "/m"));
    assert!(c.has_cloud_folder("music"));
    assert_eq!(c.get_cloud_folder("music").map(|f| f.folder_path.as_str()), Some("/m"));
    assert!(c.remove_cloud_folder("music"));
    assert!(!c.remove_cloud_folder("music"));
}

#[test]
fn password_set_on_a_cloud_is_accepted() {
    let mut config = CloudsConfig::default();
    config.add_cloud(cloud("home")).ok().unwrap();
    let mut orch = Orchestrator::new(config);
    assert!(!orch.cloud_has_password("home"));
    assert!(orch.set_cloud_password("home", "hunter22").is_ok());
    assert!(orch.cloud_has_password("home"));
    assert!(orch.verify_cloud_password("home", "hunter22"));
    assert!(!orch.verify_cloud_password("home", "wrong"));
    assert!(!orch.verify_cloud_password("away", "hunter22"));
    assert_eq!(
        validation_message(orch.set_cloud_password("away", "x")),
        "Cloud 'away' not found"
    );
}

#[test]
fn starting_checks_and_ports() {
    let mut config = CloudsConfig::default();
    config.add_cloud(cloud("a")).ok().unwrap();
    config.add_cloud(cloud("b")).ok().unwrap();
    let mut orch = Orchestrator::new(config);
    match orch.begin_start("a") {
        Err(ServerError::Validation(m)) => {
            assert_eq!(m, "Cloud 'a' has no password set. Set a password first.")
        }
        _ => panic!("a cloud without a password must not start"),
    }
    match orch.begin_start("zzz") {
        Err(ServerError::Validation(m)) => assert_eq!(m, "Cloud 'zzz' not found"),
        _ => panic!("unknown cloud"),
    }
    orch.set_cloud_password("a", "password").ok().unwrap();
    orch.set_cloud_password("b", "password").ok().unwrap();
    let plan = orch.begin_start("a").ok().unwrap();
    assert_eq!(plan.port, BASE_PORT);
    orch.finish_start(plan.cloud.name.clone(), plan.port);
    assert!(matches!(orch.begin_start("a"), Err(ServerError::ServerAlreadyRunning)));
    let plan_b = orch.begin_start("b").ok().unwrap();
    assert_eq!(plan_b.port, BASE_PORT + 1);
    orch.finish_start("b".to_string(), plan_b.port);
    assert_eq!(orch.get_cloud_port("b"), Some(3001));
    assert_eq!(orch.get_cloud_server_url("a").as_deref(), Some("http://localhost:3000"));
    assert!(orch.is_any_running());
    assert_eq!(orch.get_running_clouds().len(), 2);
    assert!(orch.stop_cloud("a").is_ok());
    assert!(matches!(orch.stop_cloud("a"), Err(ServerError::ServerNotRunning)));
    assert!(!orch.is_cloud_running("a"));
    let stopped = orch.stop_all();
    assert_eq!(stopped, vec!["b".to_string()]);
    assert_eq!(orch.next_port, BASE_PORT);
    assert!(!orch.is_any_running());
}

#[test]
fn reload_stops_removed_clouds_and_restarts_the_rest() {
    let mut config = CloudsConfig::default();
    config.add_cloud(cloud("keep")).ok().unwrap();
    config.add_cloud(cloud("drop")).ok().unwrap();
    let mut orch = Orchestrator::new(config);
    orch.finish_start("drop".to_string(), 3000);
    orch.finish_start("keep".to_string(), 3001);
    let mut next = CloudsConfig::default();
    next.add_cloud(cloud("keep")).ok().unwrap();
    let plan = orch.begin_reload(next);
    assert_eq!(plan.stop, vec!["drop".to_string()]);
    assert_eq!(plan.restart, vec!["keep".to_string()]);
    assert!(!orch.is_any_running());
    assert_eq!(orch.get_clouds().len(), 1);
}

#[test]
fn missing_folder_paths_are_reported() {
    let c = Cloud::new("c".to_string(), vec![folder("x", "/definitely/not/here/cloudhost")]);
    match check_folder_paths(&c) {
        Err(ServerError::InvalidPath(m)) => {
            assert_eq!(m, "Cloud folder path does not exist: /definitely/not/here/cloudhost")
        }
        _ => panic!("missing path must be reported"),
    }
    let ok = Cloud::new("c".to_string(), vec![folder("tmp", "/")]);
    assert!(check_folder_paths(&ok).is_ok());
}

#[test]
fn error_messages_and_statuses() {
    assert_eq!(ServerError::validation("bad".to_string()).message(), "Validation error: bad");
    assert_eq!(ServerError::ServerAlreadyRunning.status_code(), 409);
    assert_eq!(ServerError::network("x".to_string()).status_code(), 502);
    assert_eq!(ServerError::cloud_folder("x".to_string()).status_code(), 404);
    assert_eq!(TuiError::user_input("oops".to_string()).message(), "User input error: oops");
}

#[test]
fn target_paths_are_split_into_folder_directory_and_file() {
    let p = parse_target_path("docs/a/b/report.pdf");
    assert_eq!(p.cloud_folder_name, "docs");
    assert_eq!(p.subdirectory_path, "a/b");
    assert_eq!(p.filename.as_deref(), Some("report.pdf"));
    let q = parse_target_path("docs/a/b");
    assert_eq!(q.subdirectory_path, "a/b");
    assert_eq!(q.filename, None);
    let r = parse_target_path("docs/readme");
    assert_eq!(r.subdirectory_path, "");
    assert_eq!(r.filename.as_deref(), Some("readme"));
    let t = parse_target_path("docs");
    assert_eq!(t.cloud_folder_name, "docs");
    assert_eq!(t.filename, None);
}

#[test]
fn file_and_directory_paths_join_components() {
    let f = folder("docs", "/srv/docs");
    assert_eq!(construct_file_path(&f, "", "a.txt"), "/srv/docs/a.txt");
    assert_eq!(construct_file_path(&f, "x/y", "a.txt"), "/srv/docs/x/y/a.txt");
    assert_eq!(construct_directory_path(&f, ""), "/srv/docs");
    assert_eq!(construct_directory_path(&f, "x"), "/srv/docs/x");
    let c = cloud("c");
    assert!(find_cloud_folder(&c, "docs").is_some());
    assert!(find_cloud_folder(&c, "nope").is_none());
}

#[test]
fn content_types_follow_the_extension() {
    assert_eq!(get_mime_type("/a/photo.JPG"), "image/jpeg");
    assert_eq!(get_mime_type("notes.md"), "text/markdown");
    assert_eq!(get_mime_type("main.rs"), "text/plain");
    assert_eq!(get_mime_type("archive.7z"), "application/x-7z-compressed");
    assert_eq!(get_mime_type("Makefile"), "application/octet-stream");
    assert_eq!(get_mime_type(".bashrc"), "application/octet-stream");
    assert_eq!(get_mime_type("data.bin"), "application/octet-stream");
}

#[test]
fn breadcrumb_links_each_directory() {
    assert_eq!(generate_breadcrumb("", "docs"), "");
    assert_eq!(
        generate_breadcrumb("a//b/", "docs"),
        "<a href=\"/docs/files/a\">📁 a</a> / <a href=\"/docs/files/a/b\">📁 b</a>"
    );
}

#[test]
fn listing_marks_directories_and_files() {
    assert_eq!(generate_file_list(&[], "d"), "<p>📭 This directory is empty</p>");
    let items = vec![
        FileEntry { name: "sub".to_string(), is_directory: true, size: "".to_string(), path: "sub".to_string() },
        FileEntry { name: "a.txt".to_string(), is_directory: false, size: "1 KB".to_string(), path: "a.txt".to_string() },
    ];
    let html = generate_file_list(&items, "d");
    assert!(html.starts_with("<div class=\"file-item directory\">"));
    assert!(html.contains("<a href=\"/d/files/sub\">sub</a>"));
    assert!(html.contains("<a href=\"/d/static/a.txt\">a.txt</a>"));
    assert!(html.contains("<span class=\"file-size\">1 KB</span>"));
}

#[test]
fn folder_names_from_requests_are_checked() {
    assert!(validate_cloudfolder_name("photos").is_ok());
    let long = "x".repeat(101);
    let e = validate_cloudfolder_name(&long).err().unwrap();
    assert_eq!((e.status, e.error.as_str()), (400, "Invalid Input"));
    assert_eq!(e.message, "Cloud folder name must be between 1 and 100 characters");
    assert_eq!(
        validate_cloudfolder_name("").err().unwrap().message,
        "Cloud folder name must be between 1 and 100 characters"
    );
    assert_eq!(
        validate_cloudfolder_name("a/b").err().unwrap().message,
        "Cloud folder name contains invalid characters"
    );
    assert_eq!(
        validate_cloudfolder_name("..").err().unwrap().message,
        "Cloud folder name contains invalid characters"
    );
    assert_eq!(
        validate_cloudfolder_name("   ").err().unwrap().message,
        "Cloud folder name cannot be only whitespace"
    );
}

#[test]
fn uploads_get_free_names() {
    assert_eq!(generate_unique_filename("/", "cloudhost-not-there.txt"), "cloudhost-not-there.txt");
    assert_eq!(generate_unique_filename("/", "usr"), "usr(1)");
    assert_eq!(generate_unique_filename("/", "etc"), "etc(1)");
    assert_eq!(generate_unique_filename("/no/such/dir/cloudhost", "a.txt"), "a.txt");
}

#[test]
fn credentials_are_read_from_headers_queries_and_cookies() {
    assert_eq!(bearer_token("Bearer abc.def").as_deref(), Some("abc.def"));
    assert_eq!(bearer_token("Basic abc"), None);
    assert_eq!(password_from_query("a=1&password=s3cret&password=x").as_deref(), Some("s3cret"));
    assert_eq!(password_from_query("a=1"), None);
    assert_eq!(cookie_tokens("theme=dark; auth_token_3000=t1;auth_token_3000=t2", 3000), vec!["t1", "t2"]);
    assert_eq!(cookie_tokens("auth_token_3001=t1; auth_token=t2", 3000), Vec::<String>::new());
}

#[test]
fn tokens_issued_before_a_password_change_are_refused() {
    let changed = UtcTime { secs: 1_000, nanos: 0 };
    let auth = AuthState::new("secret".to_string(), Some("pw".to_string()), Some(changed));
    assert!(auth.verify_password("pw"));
    assert!(!auth.verify_password("px"));
    let claims = auth.token_claims(UtcTime { secs: 2_000, nanos: 5 });
    assert_eq!(claims.sub, "admin");
    assert_eq!(claims.exp, 2_000 + 86_400);
    assert_eq!(claims.pwd_changed, 1_000);
    let old = Claims { sub: "admin".to_string(), exp: 10, pwd_changed: 999 };
    assert!(auth.accept_claims(old).is_none());
    assert!(auth.accept_claims(claims).is_some());
    let open = AuthState::new("s".to_string(), None, None);
    assert!(!open.verify_password(""));
}

#[test]
fn history_keeps_only_the_latest_messages() {
    let mut h = MessageHistory::new(2);
    for i in 0..5 {
        h.push(DebugMessage {
            timestamp: UtcTime { secs: i, nanos: 0 },
            level: LogLevel::Info,
            source: "test".to_string(),
            message: format!("m{i}"),
        });
    }
    let msgs: Vec<&str> = h.get_history().iter().map(|m| m.message.as_str()).collect();
    assert_eq!(msgs, vec!["m3", "m4"]);
    assert_eq!(h.get_recent(1)[0].message, "m4");
    assert_eq!(h.get_recent(10).len(), 2);
    assert_eq!(LogLevel::Warning.label(), "WARN");
    h.clear_history();
    assert!(h.get_history().is_empty());
}

#[test]
fn a_request_passes_with_a_valid_token_or_the_password() {
    let auth = cloudhost::auth::AuthState::new("s3cret".to_string(), Some("pw".to_string()), None);
    assert!(auth.admits(true, false, None));
    assert!(auth.admits(false, true, None));
    assert!(auth.admits(false, false, Some("a=1&password=pw")));
    assert!(!auth.admits(false, false, Some("a=1&password=nope")));
    assert!(!auth.admits(false, false, Some("a=1")));
    assert!(!auth.admits(false, false, None));
    let without = cloudhost::auth::AuthState::new("s3cret".to_string(), None, None);
    assert!(!without.admits(false, false, Some("password=")));
}

#[test]
fn listing_entries_carry_their_path_and_size_label() {
    let file = cloudhost::web::listing_entry("", "a.txt".to_string(), false, Some(12));
    assert_eq!(file.path, "a.txt");
    assert_eq!(file.size, "12 bytes");
    let dir = cloudhost::web::listing_entry("docs", "x".to_string(), true, Some(4096));
    assert_eq!(dir.path, "docs/x");
    assert_eq!(dir.size, "DIR");
    let unknown = cloudhost::web::listing_entry("docs/sub", "f".to_string(), false, None);
    assert_eq!(unknown.path, "docs/sub/f");
    assert_eq!(unknown.size, "Unknown");
}

#[test]
fn listings_put_folders_first_then_names_in_order() {
    let entries = vec![
        cloudhost::web::listing_entry("", "b".to_string(), false, Some(1)),
        cloudhost::web::listing_entry("", "z".to_string(), true, None),
        cloudhost::web::listing_entry("", "a".to_string(), false, Some(2)),
        cloudhost::web::listing_entry("", "c".to_string(), true, None),
    ];
    let sorted = cloudhost::web::sort_entries(entries);
    let names: Vec<&str> = sorted.iter().map(|e| e.name.as_str()).collect();
    assert_eq!(names, vec!["c", "z", "a", "b"]);
}

#[test]
fn browse_requests_resolve_inside_their_cloud_folder() {
    let c = cloud("family");
    let root = cloudhost::web::browse_target(&c, "docs", "", true).ok();
    assert_eq!(root, Some(("/srv/docs".to_string(), "/srv/docs".to_string())));
    let inner = cloudhost::web::browse_target(&c, "docs", "a/b", true).ok();
    assert_eq!(inner, Some(("/srv/docs/a/b".to_string(), "/srv/docs".to_string())));
    let missing = cloudhost::web::browse_target(&c, "music", "", true).unwrap_err();
    assert_eq!((missing.status, missing.message.as_str()), (404, "Cloud folder not found"));
    let invalid = cloudhost::web::browse_target(&c, "..", "", true).unwrap_err();
    assert_eq!(invalid.status, 400);
    let anonymous = cloudhost::web::browse_target(&c, "docs", "", false).unwrap_err();
    assert_eq!((anonymous.status, anonymous.error.as_str()), (401, "Unauthorized"));
    let invalid_first = cloudhost::web::browse_target(&c, "a/b", "", false).unwrap_err();
    assert_eq!(invalid_first.status, 400);
}

#[test]
fn browse_answers_follow_what_the_disk_says() {
    let gone = browse_kind("/srv/docs/x", "/srv/docs", false, false).unwrap_err();
    assert_eq!((gone.status, gone.message.as_str()), (404, "The requested resource was not found"));
    assert_eq!(browse_kind("/srv/docs/x", "/srv/docs", true, true).ok(), Some(BrowseKind::Directory));
    assert_eq!(browse_kind("/srv/docs/x.txt", "/srv/docs", true, false).ok(), Some(BrowseKind::File));
    let outside = browse_kind("/etc", "/srv/docs", true, true).unwrap_err();
    assert_eq!(
        (outside.status, outside.error.as_str(), outside.message.as_str()),
        (500, "Directory browsing error", "403 Forbidden")
    );
    assert_eq!(browse_kind("/etc/passwd", "/srv/docs", true, false).ok(), Some(BrowseKind::File));
    let info = cloudhost::web::file_info("docs", "a/b.txt", "/srv/docs/a/b.txt", 7);
    assert_eq!(info.name, "b.txt");
    assert_eq!(info.path, "a/b.txt");
    assert_eq!(info.size, 7);
    assert_eq!(info.download_url, "/api/docs/static/a/b.txt");
}

#[test]
fn upload_names_follow_what_is_taken() {
    assert_eq!(choose_upload_name("a.txt", true, false, &vec![], "s"), "a.txt");
    assert_eq!(choose_upload_name("a.txt", false, true, &vec![], "s"), "a.txt");
    assert_eq!(choose_upload_name("a.txt", true, true, &vec![true, false], "s"), "a(2).txt");
    assert_eq!(choose_upload_name("a", true, true, &vec![true; 49], "s"), "a_s");
    assert_eq!(upload_stamp_text(0, 0), "19700101_000000_000");
    assert_eq!(upload_stamp_text(1_700_000_000, 123_456_789), "20231114_221320_123");
    assert_eq!(upload_stamp_text(951_782_400, 0), "20000229_000000_000");
}

#[test]
fn folder_checks_report_the_first_missing_folder() {
    let c = Cloud::new(
        "c".to_string(),
        vec![folder("a", "/a"), folder("b", "/b"), folder("c", "/c")],
    );
    assert!(folder_paths_outcome(&c, &vec![true, true, true]).is_ok());
    match folder_paths_outcome(&c, &vec![true, false, false]) {
        Err(ServerError::InvalidPath(m)) => assert_eq!(m, "Cloud folder path does not exist: /b"),
        _ => panic!("the second folder is missing"),
    }
}

#[test]
fn a_cloud_whose_folders_exist_starts() {
    let mut config = CloudsConfig::default();
    config.add_cloud_folder(folder("docs", "/srv/docs")).unwrap();
    config.add_cloud(cloud("family")).unwrap();
    let mut o = Orchestrator::new(config);
    o.set_cloud_password("family", "secret123").unwrap();
    let refused = o.start_cloud("family", &vec![false]);
    assert!(matches!(refused, Err(ServerError::InvalidPath(_))));
    assert!(!o.is_cloud_running("family"));
    let plan = o.start_cloud("family", &vec![true]).unwrap();
    assert!(o.is_cloud_running("family"));
    assert_eq!(o.get_cloud_port("family"), Some(plan.port));
    assert!(matches!(o.start_cloud("family", &vec![true]), Err(ServerError::ServerAlreadyRunning)));
}

#[test]
fn config_paths_come_from_one_directory() {
    assert!(dev_mode_from(&vec![false, true]));
    assert!(!dev_mode_from(&vec![false, false, false, false]));
    assert_eq!(config_dir_from("/w", true, "/w", None), "/w");
    assert_eq!(config_dir_from("/w", false, "/w", Some("/data")), "/data/CloudHost");
    assert_eq!(config_dir_from("/w", false, "/w", None), "/w/CloudHost");
    let files = config_files_in("/data/CloudHost");
    assert_eq!(files.tui, "/data/CloudHost/tui-config.toml");
    assert_eq!(files.server, "/data/CloudHost/server-config.toml");
    assert_eq!(files.clouds, "/data/CloudHost/clouds-config.toml");
}

#[test]
fn typed_folders_are_checked_against_the_disk() {
    let ok = folder_from_checks("docs".to_string(), "/srv/docs".to_string(), true, true).unwrap();
    assert_eq!((ok.name.as_str(), ok.folder_path.as_str()), ("docs", "/srv/docs"));
    assert_eq!(
        folder_from_checks("d".to_string(), "/nope".to_string(), false, false).err(),
        Some("Folder '/nope' does not exist".to_string())
    );
    assert_eq!(
        folder_from_checks("d".to_string(), "/f.txt".to_string(), true, false).err(),
        Some("'/f.txt' is not a directory".to_string())
    );
}

#[test]
fn a_cloud_without_folders_passes_the_folder_check() {
    let empty = Cloud::new("empty".to_string(), Vec::new());
    assert!(check_folder_paths(&empty).is_ok());
}

#[test]
fn a_login_with_the_password_gives_claims_that_are_accepted() {
    let changed = UtcTime { secs: 500, nanos: 0 };
    let auth = AuthState::new("s3cret".to_string(), Some("pw".to_string()), Some(changed));
    let now = UtcTime { secs: 1_000, nanos: 0 };
    assert!(auth.login_claims("nope", now).is_none());
    let claims = auth.login_claims("pw", now).unwrap();
    assert_eq!(claims.sub, "admin");
    assert_eq!(claims.exp, 1_000 + 86_400);
    assert_eq!(claims.pwd_changed, 500);
    assert!(auth.accept_claims(claims).is_some());
}
