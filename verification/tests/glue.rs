use base64::Engine;
use motrix::cli::{decode_thunder_url, is_downloadable_url, is_torrent_file, parse_args};
use motrix::config::{AppConfig, ProxyScope, ProxyType, RunMode, Theme};
use motrix::files::path_within;
use motrix::power::{allow_sleep, prevent_sleep, SleepCall, SleepState};
use motrix::supervisor::{
    build_launch_plan, init_connect_step, EnginePaths, InitStep, ShutdownGuard,
    INIT_CONNECT_ATTEMPTS,
};
use motrix::trackers::{dedup_trackers, extract_trackers};
use motrix::tray::{format_compact_speed, parse_speed, tray_speed_display, TrayDisplay};
use motrix::upnp::{plan_mappings, MappedPorts, PortProtocol};

#[test]
fn downloadable_urls_ignore_case() {
    assert!(is_downloadable_url("http://example.com"));
    assert!(is_downloadable_url("HTTP://EXAMPLE.COM"));
    assert!(is_downloadable_url("HtTpS://x"));
    assert!(is_downloadable_url("ftp://host/file"));
    assert!(is_downloadable_url("magnet:?xt=urn:btih:abc"));
    assert!(is_downloadable_url("THUNDER://abc"));
    assert!(is_downloadable_url("motrix://open"));
    assert!(!is_downloadable_url("file:///etc/passwd"));
    assert!(!is_downloadable_url("example.com"));
    assert!(!is_downloadable_url(""));
}

#[test]
fn torrent_paths_need_suffix_and_presence() {
    assert!(!is_torrent_file("notes.txt"));
    assert!(!is_torrent_file("missing-file.torrent"));
    assert!(!is_torrent_file("MISSING.TORRENT"));
}

#[test]
fn thunder_urls_decode_to_the_wrapped_url() {
    let encoded = base64::engine::general_purpose::STANDARD.encode("AAhttp://example.com/fZZ");
    let url = format!("thunder://{}", encoded);
    assert_eq!(decode_thunder_url(&url), "http://example.com/f");
    // case-insensitive prefix
    let upper = format!("THUNDER://{}", encoded);
    assert_eq!(decode_thunder_url(&upper), "http://example.com/f");
    // no marks: the decoded text passes through whole
    let bare = format!(
        "thunder://{}",
        base64::engine::general_purpose::STANDARD.encode("http://plain/")
    );
    assert_eq!(decode_thunder_url(&bare), "http://plain/");
    // not a thunder URL: unchanged
    assert_eq!(decode_thunder_url("http://a/b"), "http://a/b");
    // invalid base64: unchanged
    assert_eq!(decode_thunder_url("thunder://!!!"), "thunder://!!!");
    // decodes to nothing: unchanged
    let empty = format!(
        "thunder://{}",
        base64::engine::general_purpose::STANDARD.encode("AAZZ")
    );
    assert_eq!(decode_thunder_url(&empty), empty);
}

#[test]
fn parse_args_keeps_urls_and_skips_the_rest() {
    let argv = vec![
        "program".to_string(),
        "http://a/".to_string(),
        "not a url".to_string(),
        "MAGNET:?xt=abc".to_string(),
    ];
    let urls = parse_args(&argv);
    assert_eq!(urls, vec!["http://a/".to_string(), "MAGNET:?xt=abc".to_string()]);
    // the program name itself is never taken
    let only_prog = vec!["http://looks-like-url".to_string()];
    assert!(parse_args(&only_prog).is_empty());
    assert!(parse_args(&Vec::new()).is_empty());
}

#[test]
fn tracker_lists_split_trim_and_dedup() {
    let text = "udp://a:80/ann\n\n   udp://b:80   \r\nudp://a:80/ann\n\t\n";
    let trackers = extract_trackers(text);
    assert_eq!(
        trackers,
        vec![
            "udp://a:80/ann".to_string(),
            "udp://b:80".to_string(),
            "udp://a:80/ann".to_string(),
        ]
    );
    let unique = dedup_trackers(trackers);
    assert_eq!(unique, vec!["udp://a:80/ann".to_string(), "udp://b:80".to_string()]);
    assert!(extract_trackers("").is_empty());
    assert!(extract_trackers("   \n \n").is_empty());
}

#[test]
fn speed_fields_parse_as_the_engine_sends_them() {
    assert_eq!(parse_speed("0"), 0);
    assert_eq!(parse_speed("123456"), 123456);
    assert_eq!(parse_speed("+77"), 77);
    assert_eq!(parse_speed(""), 0);
    assert_eq!(parse_speed("12x"), 0);
    assert_eq!(parse_speed("-5"), 0);
    assert_eq!(parse_speed("18446744073709551615"), u64::MAX);
    assert_eq!(parse_speed("18446744073709551616"), 0, "overflow counts as zero");
}

#[test]
fn compact_speeds_render_exactly() {
    assert_eq!(format_compact_speed(0), "");
    assert_eq!(format_compact_speed(1), "1B");
    assert_eq!(format_compact_speed(1023), "1023B");
    assert_eq!(format_compact_speed(1024), "1K");
    assert_eq!(format_compact_speed(2047), "1K");
    assert_eq!(format_compact_speed(524288), "512K");
    assert_eq!(format_compact_speed(1048576), "1.0M");
    assert_eq!(format_compact_speed(1572864), "1.5M");
    assert_eq!(format_compact_speed(1073741824), "1.0G");
    assert_eq!(format_compact_speed(1610612736), "1.5G");
}

#[test]
fn tray_display_resets_or_shows_speeds() {
    assert!(matches!(tray_speed_display("0", "0", true), TrayDisplay::Reset));
    assert!(matches!(tray_speed_display("100", "100", false), TrayDisplay::Reset));
    match tray_speed_display("1048576", "0", true) {
        TrayDisplay::Show { tooltip, title } => {
            assert_eq!(tooltip, "\u{2193} 1.0M/s");
            assert_eq!(title, "\u{2193}1.0M");
        }
        TrayDisplay::Reset => panic!("a live download shows its speed"),
    }
    match tray_speed_display("2048", "1024", true) {
        TrayDisplay::Show { tooltip, title } => {
            assert_eq!(tooltip, "\u{2193} 2K/s  \u{2191} 1K/s");
            assert_eq!(title, "\u{2193}2K");
        }
        TrayDisplay::Reset => panic!("live transfer shows its speeds"),
    }
    match tray_speed_display("0", "512", true) {
        TrayDisplay::Show { tooltip, title } => {
            assert_eq!(tooltip, "\u{2191} 512B/s");
            assert_eq!(title, "\u{2191}512B");
        }
        TrayDisplay::Reset => panic!("a live upload shows its speed"),
    }
}

fn sample_config() -> AppConfig {
    AppConfig::with_defaults(
        "/tmp/downloads".to_string(),
        "s3cret".to_string(),
        "Motrix/2.0.0".to_string(),
    )
}

#[test]
fn default_config_is_pinned() {
    let c = sample_config();
    assert_eq!(c.locale, "en");
    assert!(matches!(c.theme, Theme::Auto));
    assert!(matches!(c.run_mode, RunMode::Tray));
    assert!(matches!(c.proxy_type, ProxyType::Http));
    assert!(matches!(c.proxy_scope, ProxyScope::All));
    assert_eq!(c.download_dir, "/tmp/downloads");
    assert_eq!(c.max_concurrent_downloads, 10);
    assert_eq!(c.split, 16);
    assert_eq!(c.bt_listen_port, 21301);
    assert_eq!(c.dht_listen_port, 21302);
    assert_eq!(c.rpc_port, 16800);
    assert_eq!(c.rpc_secret, "s3cret");
    assert_eq!(c.seed_ratio, "1");
    assert_eq!(c.tracker_source.len(), 3);
    assert!(c.hide_on_close);
    assert!(!c.proxy_enabled);
}

#[test]
fn argument_vector_renders_the_configuration() {
    let c = sample_config();
    let args = c.to_aria2_args();
    assert_eq!(args[0], "--dir=/tmp/downloads");
    assert_eq!(args[1], "--max-concurrent-downloads=10");
    assert!(args.contains(&"--rpc-listen-port=16800".to_string()));
    assert!(args.contains(&"--rpc-secret=s3cret".to_string()));
    assert!(args.contains(&"--enable-rpc=true".to_string()));
    assert!(args.contains(&"--continue=true".to_string()));
    assert!(args.contains(&"--allow-overwrite=false".to_string()));
    assert!(args.contains(&"--follow-metalink=true".to_string()));
    // no proxy, no trackers: neither flag appears
    assert!(!args.iter().any(|a| a.contains("proxy")));
    assert!(!args.iter().any(|a| a.starts_with("--bt-tracker=")));
}

#[test]
fn proxy_arguments_appear_only_when_enabled_and_never_the_password() {
    let mut c = sample_config();
    c.proxy_enabled = true;
    c.proxy_host = "proxy.local".to_string();
    c.proxy_port = 8080;
    c.proxy_type = ProxyType::Socks5;
    c.proxy_scope = ProxyScope::Http;
    c.proxy_username = "user".to_string();
    c.proxy_password = "p4ssw0rd".to_string();
    c.no_proxy = "localhost".to_string();
    c.bt_tracker = "udp://t:80".to_string();
    let args = c.to_aria2_args();
    assert!(args.contains(&"--http-proxy=socks5://proxy.local:8080".to_string()));
    assert!(args.contains(&"--all-proxy-user=user".to_string()));
    assert!(args.contains(&"--no-proxy=localhost".to_string()));
    assert_eq!(args.last().unwrap(), "--bt-tracker=udp://t:80");
    assert!(
        !args.iter().any(|a| a.contains("p4ssw0rd")),
        "the proxy password must never reach the argument vector"
    );
    // disabled proxy drops every proxy argument, password included
    c.proxy_enabled = false;
    let quiet = c.to_aria2_args();
    assert!(!quiet.iter().any(|a| a.contains("proxy")));
}

#[test]
fn launch_plan_appends_session_files_and_isolates_the_password() {
    let paths = EnginePaths {
        session: "/data/aria2.session".to_string(),
        conf: "/data/aria2.conf".to_string(),
        dht: "/data/dht.dat".to_string(),
        dht6: "/data/dht6.dat".to_string(),
    };
    let mut c = sample_config();
    let plain = build_launch_plan(&c, &paths);
    assert!(plain.conf_file.is_none());
    assert_eq!(plain.args.last().unwrap(), "--no-conf");
    assert!(plain.args.contains(&"--save-session=/data/aria2.session".to_string()));
    assert!(plain.args.contains(&"--input-file=/data/aria2.session".to_string()));
    assert!(plain.args.contains(&"--save-session-interval=10".to_string()));
    assert!(plain.args.contains(&"--dht-file-path=/data/dht.dat".to_string()));
    assert!(plain.args.contains(&"--dht-file-path6=/data/dht6.dat".to_string()));

    c.proxy_enabled = true;
    c.proxy_host = "p".to_string();
    c.proxy_password = "pw".to_string();
    let secret = build_launch_plan(&c, &paths);
    assert_eq!(secret.conf_file.as_deref(), Some("all-proxy-passwd=pw\n"));
    assert_eq!(secret.args.last().unwrap(), "--conf-path=/data/aria2.conf");
    assert!(!secret.args.iter().any(|a| a.contains("pw\n")));
}

#[test]
fn initial_connect_retries_until_the_budget() {
    assert_eq!(init_connect_step(1, true), InitStep::Proceed);
    assert_eq!(init_connect_step(1, false), InitStep::RetryAfterDelay);
    assert_eq!(
        init_connect_step(INIT_CONNECT_ATTEMPTS - 1, false),
        InitStep::RetryAfterDelay
    );
    assert_eq!(init_connect_step(INIT_CONNECT_ATTEMPTS, false), InitStep::Fail);
    assert_eq!(init_connect_step(INIT_CONNECT_ATTEMPTS, true), InitStep::Proceed);
}

#[test]
fn shutdown_runs_once_in_order() {
    let mut guard = ShutdownGuard::new();
    let plan = guard.begin().expect("first shutdown does the work");
    assert_eq!(plan.save.method, "saveSession");
    assert_eq!(plan.quit.method, "shutdown");
    assert!(guard.begin().is_none(), "a second shutdown finds nothing to do");
    assert!(guard.begin().is_none());
}

#[test]
fn sleep_blocker_calls_the_platform_once() {
    let mut s = SleepState::new();
    assert_eq!(prevent_sleep(&s), Some(SleepCall::Prevent));
    s.apply(SleepCall::Prevent, true);
    assert_eq!(prevent_sleep(&s), None, "already prevented: no second call");
    assert_eq!(allow_sleep(&s), Some(SleepCall::Allow));
    s.apply(SleepCall::Allow, true);
    assert_eq!(allow_sleep(&s), None);
    // a failed platform call leaves the state unchanged
    assert_eq!(prevent_sleep(&s), Some(SleepCall::Prevent));
    s.apply(SleepCall::Prevent, false);
    assert_eq!(prevent_sleep(&s), Some(SleepCall::Prevent));
}

#[test]
fn port_mappings_are_planned_recorded_and_taken_once() {
    let plan = plan_mappings(21301, 21302);
    assert_eq!(plan.len(), 2);
    assert_eq!(plan[0].protocol, PortProtocol::Tcp);
    assert_eq!(plan[0].port, 21301);
    assert_eq!(plan[0].lease_secs, 3600);
    assert_eq!(plan[0].description, "Motrix BT");
    assert_eq!(plan[1].protocol, PortProtocol::Udp);
    assert_eq!(plan[1].port, 21302);
    assert_eq!(plan[1].description, "Motrix DHT");

    let mut granted = MappedPorts::new();
    granted.record(21301, PortProtocol::Tcp);
    granted.record(21302, PortProtocol::Udp);
    let taken = granted.take_all();
    assert_eq!(taken.len(), 2);
    assert_eq!(taken[0].port, 21301);
    assert!(granted.take_all().is_empty(), "cleanup removes nothing twice");
}

#[test]
fn deletion_stays_inside_the_download_directory() {
    assert!(path_within("/home/u/dl", "/home/u/dl"));
    assert!(path_within("/home/u/dl", "/home/u/dl/file.bin"));
    assert!(path_within("/home/u/dl", "/home/u/dl/sub/file.bin"));
    assert!(!path_within("/home/u/dl", "/home/u/dl-evil/file.bin"));
    assert!(!path_within("/home/u/dl", "/home/u"));
    assert!(!path_within("/home/u/dl", "/etc/passwd"));
}
