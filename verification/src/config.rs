//! The configuration snapshot the supervisor consumes, and its rendering
//! into the engine's command-line argument vector.
//!
//! The snapshot is immutable here: the core only reads it. Ratios and sizes
//! arrive already rendered as text (`seed_ratio`, `min_split_size`), so the
//! verified code never touches floating point. The proxy password is
//! deliberately absent from the argument vector — arguments are visible in
//! process listings — and goes into a private configuration file instead
//! (see the supervisor).

use vstd::prelude::*;
use crate::text::{push_char, spec_digits, push_u64};

verus! {

/// Colour scheme of the surrounding user interface.
#[derive(Debug, Clone, Copy, PartialEq, Eq, Structural)]
pub enum Theme {
    Auto,
    Light,
    Dark,
}

impl Default for Theme {
    fn default() -> (r: Self)
        ensures
            r == Theme::Auto,
    {
        Theme::Auto
    }
}

/// Protocol of the outbound proxy.
#[derive(Debug, Clone, Copy, PartialEq, Eq, Structural)]
pub enum ProxyType {
    Http,
    Https,
    Socks5,
}

impl Default for ProxyType {
    fn default() -> (r: Self)
        ensures
            r == ProxyType::Http,
    {
        ProxyType::Http
    }
}

/// Which traffic the proxy applies to.
#[derive(Debug, Clone, Copy, PartialEq, Eq, Structural)]
pub enum ProxyScope {
    All,
    Http,
    Https,
    Ftp,
}

impl Default for ProxyScope {
    fn default() -> (r: Self)
        ensures
            r == ProxyScope::All,
    {
        ProxyScope::All
    }
}

/// How the application presents itself: as a plain window, with a tray
/// icon, or hidden behind the tray.
#[derive(Debug, Clone, Copy, PartialEq, Eq, Structural)]
pub enum RunMode {
    Standard,
    Tray,
    HideTray,
}

impl Default for RunMode {
    fn default() -> (r: Self)
        ensures
            r == RunMode::Tray,
    {
        RunMode::Tray
    }
}

/// The immutable configuration snapshot the core consumes.
#[derive(Debug, Clone)]
pub struct AppConfig {
    // Basic settings
    pub locale: String,
    pub theme: Theme,
    pub download_dir: String,
    pub auto_start: bool,
    pub start_hidden: bool,
    pub hide_on_close: bool,
    pub notify_on_complete: bool,
    pub auto_clear_completed: bool,
    pub resume_all_when_app_launched: bool,
    pub run_mode: RunMode,
    // Download settings
    pub max_concurrent_downloads: u32,
    pub max_connection_per_server: u32,
    pub split: u32,
    pub min_split_size: String,
    pub max_download_limit: String,
    pub max_upload_limit: String,
    // BitTorrent settings
    pub bt_listen_port: u16,
    pub dht_listen_port: u16,
    pub enable_upnp: bool,
    /// The seeding ratio, already rendered as the engine expects it.
    pub seed_ratio: String,
    pub seed_time: u32,
    pub bt_tracker: String,
    pub tracker_source: Vec<String>,
    pub bt_force_encryption: bool,
    pub bt_require_crypto: bool,
    pub pause_metadata: bool,
    // BitTorrent advanced settings
    pub bt_save_metadata: bool,
    pub bt_load_saved_metadata: bool,
    pub bt_remove_unselected_file: bool,
    pub bt_detach_seed_only: bool,
    // Advanced settings
    pub user_agent: String,
    pub rpc_port: u16,
    pub rpc_secret: String,
    pub max_overall_download_limit: String,
    pub max_overall_upload_limit: String,
    pub allow_overwrite: bool,
    pub auto_file_renaming: bool,
    pub continue_download: bool,
    pub follow_metalink: String,
    // Proxy settings
    pub proxy_enabled: bool,
    pub proxy_type: ProxyType,
    pub proxy_scope: ProxyScope,
    pub proxy_host: String,
    pub proxy_port: u16,
    pub proxy_username: String,
    pub proxy_password: String,
    pub no_proxy: String,
    // Tracker auto-sync
    pub last_tracker_update: u64,
}

/// The textual form of a flag value.
pub open spec fn spec_bool_text(b: bool) -> Seq<char> {
    if b {
        "true"@
    } else {
        "false"@
    }
}

/// The views of an argument vector.
pub open spec fn views_of(args: Seq<String>) -> Seq<Seq<char>> {
    args.map_values(|s: String| s@)
}

/// Appends one `prefix=value` argument with a textual value.
fn push_arg_str(args: &mut Vec<String>, prefix: &str, value: &str)
    ensures
        views_of(final(args)@) == views_of(old(args)@).push(prefix@ + value@),
{
    let mut s = String::new();
    s.append(prefix);
    s.append(value);
    let ghost prevv = args@;
    args.push(s);
    proof {
        assert(views_of(args@) =~= views_of(prevv).push(prefix@ + value@));
    }
}

/// Appends one `prefix=value` argument with a numeric value.
fn push_arg_u64(args: &mut Vec<String>, prefix: &str, value: u64)
    ensures
        views_of(final(args)@) == views_of(old(args)@).push(prefix@ + spec_digits(value as nat)),
{
    let mut s = String::new();
    s.append(prefix);
    push_u64(&mut s, value);
    let ghost prevv = args@;
    args.push(s);
    proof {
        assert(views_of(args@) =~= views_of(prevv).push(prefix@ + spec_digits(value as nat)));
    }
}

/// Appends one fixed flag argument.
fn push_arg_flag(args: &mut Vec<String>, flag: &str)
    ensures
        views_of(final(args)@) == views_of(old(args)@).push(flag@),
{
    let mut s = String::new();
    s.append(flag);
    let ghost prevv = args@;
    args.push(s);
    proof {
        assert(views_of(args@) =~= views_of(prevv).push(flag@));
    }
}

/// Appends one `prefix=value` argument with a boolean value.
fn push_arg_bool(args: &mut Vec<String>, prefix: &str, value: bool)
    ensures
        views_of(final(args)@) == views_of(old(args)@).push(prefix@ + spec_bool_text(value)),
{
    if value {
        push_arg_str(args, prefix, "true");
    } else {
        push_arg_str(args, prefix, "false");
    }
}

/// The first third of the fixed arguments: directories, connection counts
/// and per-task limits.
pub open spec fn spec_args_a(c: AppConfig) -> Seq<Seq<char>> {
    seq![
        "--dir="@ + c.download_dir@,
        "--max-concurrent-downloads="@ + spec_digits(c.max_concurrent_downloads as nat),
        "--max-connection-per-server="@ + spec_digits(c.max_connection_per_server as nat),
        "--split="@ + spec_digits(c.split as nat),
        "--min-split-size="@ + c.min_split_size@,
        "--max-download-limit="@ + c.max_download_limit@,
        "--max-upload-limit="@ + c.max_upload_limit@,
        "--listen-port="@ + spec_digits(c.bt_listen_port as nat),
        "--dht-listen-port="@ + spec_digits(c.dht_listen_port as nat),
        "--seed-ratio="@ + c.seed_ratio@,
        "--seed-time="@ + spec_digits(c.seed_time as nat),
        "--user-agent="@ + c.user_agent@,
    ]
}

/// The second third: the RPC endpoint and the fixed protocol switches.
pub open spec fn spec_args_b(c: AppConfig) -> Seq<Seq<char>> {
    seq![
        "--rpc-listen-port="@ + spec_digits(c.rpc_port as nat),
        "--rpc-secret="@ + c.rpc_secret@,
        "--enable-rpc=true"@,
        "--rpc-listen-all=false"@,
        "--rpc-allow-origin-all=true"@,
        "--enable-dht=true"@,
        "--enable-dht6=true"@,
        "--enable-peer-exchange=true"@,
        "--bt-enable-lpd=true"@,
        "--follow-torrent=false"@,
        "--check-certificate=true"@,
        "--max-overall-download-limit="@ + c.max_overall_download_limit@,
    ]
}

/// The last third: overall limits and the boolean behaviour switches.
pub open spec fn spec_args_c(c: AppConfig) -> Seq<Seq<char>> {
    seq![
        "--max-overall-upload-limit="@ + c.max_overall_upload_limit@,
        "--allow-overwrite="@ + spec_bool_text(c.allow_overwrite),
        "--auto-file-renaming="@ + spec_bool_text(c.auto_file_renaming),
        "--continue="@ + spec_bool_text(c.continue_download),
        "--bt-force-encryption="@ + spec_bool_text(c.bt_force_encryption),
        "--bt-require-crypto="@ + spec_bool_text(c.bt_require_crypto),
        "--pause-metadata="@ + spec_bool_text(c.pause_metadata),
        "--bt-save-metadata="@ + spec_bool_text(c.bt_save_metadata),
        "--bt-load-saved-metadata="@ + spec_bool_text(c.bt_load_saved_metadata),
        "--bt-remove-unselected-file="@ + spec_bool_text(c.bt_remove_unselected_file),
        "--bt-detach-seed-only="@ + spec_bool_text(c.bt_detach_seed_only),
        "--follow-metalink="@ + c.follow_metalink@,
    ]
}

/// The proxy endpoint as one URL: scheme, host and port.
pub open spec fn spec_proxy_url(c: AppConfig) -> Seq<char> {
    (match c.proxy_type {
        ProxyType::Http => "http://"@,
        ProxyType::Https => "https://"@,
        ProxyType::Socks5 => "socks5://"@,
    }) + c.proxy_host@ + ":"@ + spec_digits(c.proxy_port as nat)
}

/// The flag that carries the proxy URL, by scope.
pub open spec fn spec_proxy_flag(c: AppConfig) -> Seq<char> {
    match c.proxy_scope {
        ProxyScope::All => "--all-proxy="@ + spec_proxy_url(c),
        ProxyScope::Http => "--http-proxy="@ + spec_proxy_url(c),
        ProxyScope::Https => "--https-proxy="@ + spec_proxy_url(c),
        ProxyScope::Ftp => "--ftp-proxy="@ + spec_proxy_url(c),
    }
}

/// The proxy arguments: present only when the proxy is enabled and has a
/// host; the username and exception list only when set. The password is
/// never here — it travels in the private configuration file.
pub open spec fn spec_proxy_args(c: AppConfig) -> Seq<Seq<char>> {
    if c.proxy_enabled && c.proxy_host@.len() > 0 {
        seq![spec_proxy_flag(c)] + (if c.proxy_username@.len() > 0 {
            seq!["--all-proxy-user="@ + c.proxy_username@]
        } else {
            Seq::empty()
        }) + (if c.no_proxy@.len() > 0 {
            seq!["--no-proxy="@ + c.no_proxy@]
        } else {
            Seq::empty()
        })
    } else {
        Seq::empty()
    }
}

/// The tracker argument: present only when a tracker list is configured.
pub open spec fn spec_tracker_args(c: AppConfig) -> Seq<Seq<char>> {
    if c.bt_tracker@.len() > 0 {
        seq!["--bt-tracker="@ + c.bt_tracker@]
    } else {
        Seq::empty()
    }
}

/// The whole argument vector a configuration renders to.
pub open spec fn spec_aria2_args(c: AppConfig) -> Seq<Seq<char>> {
    spec_args_a(c) + spec_args_b(c) + spec_args_c(c) + spec_proxy_args(c) + spec_tracker_args(c)
}

/// Appends the first third of the fixed arguments.
fn push_args_a(c: &AppConfig, args: &mut Vec<String>)
    ensures
        views_of(final(args)@) == views_of(old(args)@) + spec_args_a(*c),
{
    push_arg_str(args, "--dir=", c.download_dir.as_str());
    push_arg_u64(args, "--max-concurrent-downloads=", c.max_concurrent_downloads as u64);
    push_arg_u64(args, "--max-connection-per-server=", c.max_connection_per_server as u64);
    push_arg_u64(args, "--split=", c.split as u64);
    push_arg_str(args, "--min-split-size=", c.min_split_size.as_str());
    push_arg_str(args, "--max-download-limit=", c.max_download_limit.as_str());
    push_arg_str(args, "--max-upload-limit=", c.max_upload_limit.as_str());
    push_arg_u64(args, "--listen-port=", c.bt_listen_port as u64);
    push_arg_u64(args, "--dht-listen-port=", c.dht_listen_port as u64);
    push_arg_str(args, "--seed-ratio=", c.seed_ratio.as_str());
    push_arg_u64(args, "--seed-time=", c.seed_time as u64);
    push_arg_str(args, "--user-agent=", c.user_agent.as_str());
    proof {
        assert(views_of(args@) =~= views_of(old(args)@) + spec_args_a(*c));
    }
}

/// Appends the second third of the fixed arguments.
fn push_args_b(c: &AppConfig, args: &mut Vec<String>)
    ensures
        views_of(final(args)@) == views_of(old(args)@) + spec_args_b(*c),
{
    push_arg_u64(args, "--rpc-listen-port=", c.rpc_port as u64);
    push_arg_str(args, "--rpc-secret=", c.rpc_secret.as_str());
    push_arg_flag(args, "--enable-rpc=true");
    push_arg_flag(args, "--rpc-listen-all=false");
    push_arg_flag(args, "--rpc-allow-origin-all=true");
    push_arg_flag(args, "--enable-dht=true");
    push_arg_flag(args, "--enable-dht6=true");
    push_arg_flag(args, "--enable-peer-exchange=true");
    push_arg_flag(args, "--bt-enable-lpd=true");
    push_arg_flag(args, "--follow-torrent=false");
    push_arg_flag(args, "--check-certificate=true");
    push_arg_str(args, "--max-overall-download-limit=", c.max_overall_download_limit.as_str());
    proof {
        assert(views_of(args@) =~= views_of(old(args)@) + spec_args_b(*c));
    }
}

/// Appends the last third of the fixed arguments.
fn push_args_c(c: &AppConfig, args: &mut Vec<String>)
    ensures
        views_of(final(args)@) == views_of(old(args)@) + spec_args_c(*c),
{
    push_arg_str(args, "--max-overall-upload-limit=", c.max_overall_upload_limit.as_str());
    push_arg_bool(args, "--allow-overwrite=", c.allow_overwrite);
    push_arg_bool(args, "--auto-file-renaming=", c.auto_file_renaming);
    push_arg_bool(args, "--continue=", c.continue_download);
    push_arg_bool(args, "--bt-force-encryption=", c.bt_force_encryption);
    push_arg_bool(args, "--bt-require-crypto=", c.bt_require_crypto);
    push_arg_bool(args, "--pause-metadata=", c.pause_metadata);
    push_arg_bool(args, "--bt-save-metadata=", c.bt_save_metadata);
    push_arg_bool(args, "--bt-load-saved-metadata=", c.bt_load_saved_metadata);
    push_arg_bool(args, "--bt-remove-unselected-file=", c.bt_remove_unselected_file);
    push_arg_bool(args, "--bt-detach-seed-only=", c.bt_detach_seed_only);
    push_arg_str(args, "--follow-metalink=", c.follow_metalink.as_str());
    proof {
        assert(views_of(args@) =~= views_of(old(args)@) + spec_args_c(*c));
    }
}

/// Appends the proxy arguments, when the proxy is enabled and has a host.
fn push_proxy_args(c: &AppConfig, args: &mut Vec<String>)
    ensures
        views_of(final(args)@) == views_of(old(args)@) + spec_proxy_args(*c),
{
    if !(c.proxy_enabled && c.proxy_host.as_str().unicode_len() > 0) {
        proof {
            assert(views_of(args@) =~= views_of(args@) + spec_proxy_args(*c));
        }
        return ;
    }
    let scheme = match c.proxy_type {
        ProxyType::Http => "http://",
        ProxyType::Https => "https://",
        ProxyType::Socks5 => "socks5://",
    };
    let mut url = String::new();
    url.append(scheme);
    url.append(c.proxy_host.as_str());
    push_char(&mut url, ':');
    push_u64(&mut url, c.proxy_port as u64);
    proof {
        reveal_strlit(":");
        assert(url@ =~= spec_proxy_url(*c));
    }
    let flag = match c.proxy_scope {
        ProxyScope::All => "--all-proxy=",
        ProxyScope::Http => "--http-proxy=",
        ProxyScope::Https => "--https-proxy=",
        ProxyScope::Ftp => "--ftp-proxy=",
    };
    push_arg_str(args, flag, url.as_str());
    if c.proxy_username.as_str().unicode_len() > 0 {
        push_arg_str(args, "--all-proxy-user=", c.proxy_username.as_str());
    }
    if c.no_proxy.as_str().unicode_len() > 0 {
        push_arg_str(args, "--no-proxy=", c.no_proxy.as_str());
    }
    proof {
        assert(views_of(args@) =~= views_of(old(args)@) + spec_proxy_args(*c));
    }
}

impl AppConfig {
    /// Renders the snapshot into the engine's argument vector, exactly as
    /// `spec_aria2_args` lays it out. The proxy password never appears here.
    pub fn to_aria2_args(&self) -> (r: Vec<String>)
        ensures
            views_of(r@) == spec_aria2_args(*self),
    {
        let mut args: Vec<String> = Vec::new();
        proof {
            assert(views_of(args@) =~= Seq::<Seq<char>>::empty());
        }
        push_args_a(self, &mut args);
        push_args_b(self, &mut args);
        push_args_c(self, &mut args);
        push_proxy_args(self, &mut args);
        if self.bt_tracker.as_str().unicode_len() > 0 {
            push_arg_str(&mut args, "--bt-tracker=", self.bt_tracker.as_str());
        }
        proof {
            assert(views_of(args@) =~= spec_aria2_args(*self));
        }
        args
    }
}

/// Copies a string slice into an owned string.
fn owned(s: &str) -> (r: String)
    ensures
        r@ == s@,
{
    let mut out = String::new();
    out.append(s);
    out
}

impl AppConfig {
    /// The documented default configuration. The machine-dependent pieces —
    /// the download directory, the freshly drawn shared secret, and the
    /// user-agent string carrying the application version — come from the
    /// caller; every other field is pinned here.
    pub fn with_defaults(download_dir: String, rpc_secret: String, user_agent: String) -> (r:
        AppConfig)
        ensures
            r.locale@ == "en"@,
            r.theme == Theme::Auto,
            r.download_dir == download_dir,
            !r.auto_start,
            !r.start_hidden,
            r.hide_on_close,
            r.notify_on_complete,
            !r.auto_clear_completed,
            r.resume_all_when_app_launched,
            r.run_mode == RunMode::Tray,
            r.max_concurrent_downloads == 10,
            r.max_connection_per_server == 16,
            r.split == 16,
            r.min_split_size@ == "1M"@,
            r.max_download_limit@ == "0"@,
            r.max_upload_limit@ == "0"@,
            r.bt_listen_port == 21301,
            r.dht_listen_port == 21302,
            r.enable_upnp,
            r.seed_ratio@ == "1"@,
            r.seed_time == 60,
            r.bt_tracker@.len() == 0,
            views_of(r.tracker_source@) == seq![
                "https://raw.githubusercontent.com/ngosang/trackerslist/master/trackers_all.txt"@,
                "https://raw.githubusercontent.com/XIU2/TrackersListCollection/master/all.txt"@,
                "https://raw.githubusercontent.com/DeSireFire/animeTrackerList/master/AT_all.txt"@,
            ],
            !r.bt_force_encryption,
            !r.bt_require_crypto,
            !r.pause_metadata,
            r.bt_save_metadata,
            r.bt_load_saved_metadata,
            !r.bt_remove_unselected_file,
            !r.bt_detach_seed_only,
            r.user_agent == user_agent,
            r.rpc_port == 16800,
            r.rpc_secret == rpc_secret,
            r.max_overall_download_limit@ == "0"@,
            r.max_overall_upload_limit@ == "0"@,
            !r.allow_overwrite,
            r.auto_file_renaming,
            r.continue_download,
            r.follow_metalink@ == "true"@,
            !r.proxy_enabled,
            r.proxy_type == ProxyType::Http,
            r.proxy_scope == ProxyScope::All,
            r.proxy_host@.len() == 0,
            r.proxy_port == 1080,
            r.proxy_username@.len() == 0,
            r.proxy_password@.len() == 0,
            r.no_proxy@.len() == 0,
            r.last_tracker_update == 0,
    {
        let mut tracker_source: Vec<String> = Vec::new();
        tracker_source.push(
            owned("https://raw.githubusercontent.com/ngosang/trackerslist/master/trackers_all.txt"),
        );
        tracker_source.push(
            owned("https://raw.githubusercontent.com/XIU2/TrackersListCollection/master/all.txt"),
        );
        tracker_source.push(
            owned("https://raw.githubusercontent.com/DeSireFire/animeTrackerList/master/AT_all.txt"),
        );
        proof {
            assert(views_of(tracker_source@) =~= seq![
                "https://raw.githubusercontent.com/ngosang/trackerslist/master/trackers_all.txt"@,
                "https://raw.githubusercontent.com/XIU2/TrackersListCollection/master/all.txt"@,
                "https://raw.githubusercontent.com/DeSireFire/animeTrackerList/master/AT_all.txt"@,
            ]);
        }
        AppConfig {
            locale: owned("en"),
            theme: Theme::Auto,
            download_dir,
            auto_start: false,
            start_hidden: false,
            hide_on_close: true,
            notify_on_complete: true,
            auto_clear_completed: false,
            resume_all_when_app_launched: true,
            run_mode: RunMode::Tray,
            max_concurrent_downloads: 10,
            max_connection_per_server: 16,
            split: 16,
            min_split_size: owned("1M"),
            max_download_limit: owned("0"),
            max_upload_limit: owned("0"),
            bt_listen_port: 21301,
            dht_listen_port: 21302,
            enable_upnp: true,
            seed_ratio: owned("1"),
            seed_time: 60,
            bt_tracker: String::new(),
            tracker_source,
            bt_force_encryption: false,
            bt_require_crypto: false,
            pause_metadata: false,
            bt_save_metadata: true,
            bt_load_saved_metadata: true,
            bt_remove_unselected_file: false,
            bt_detach_seed_only: false,
            user_agent,
            rpc_port: 16800,
            rpc_secret,
            max_overall_download_limit: owned("0"),
            max_overall_upload_limit: owned("0"),
            allow_overwrite: false,
            auto_file_renaming: true,
            continue_download: true,
            follow_metalink: owned("true"),
            proxy_enabled: false,
            proxy_type: ProxyType::Http,
            proxy_scope: ProxyScope::All,
            proxy_host: String::new(),
            proxy_port: 1080,
            proxy_username: String::new(),
            proxy_password: String::new(),
            no_proxy: String::new(),
            last_tracker_update: 0,
        }
    }
}

/// The argument vector never depends on the proxy password: two snapshots
/// that differ only in the password render to the same arguments. The
/// password travels in the private configuration file instead, because
/// arguments are visible in process listings.
pub proof fn lemma_args_ignore_password(c1: AppConfig, c2: AppConfig)
    requires
        c1 == (AppConfig { proxy_password: c1.proxy_password, ..c2 }),
    ensures
        spec_aria2_args(c1) == spec_aria2_args(c2),
{
    assert(spec_args_a(c1) =~= spec_args_a(c2));
    assert(spec_args_b(c1) =~= spec_args_b(c2));
    assert(spec_args_c(c1) =~= spec_args_c(c2));
    assert(spec_proxy_args(c1) =~= spec_proxy_args(c2));
    assert(spec_tracker_args(c1) =~= spec_tracker_args(c2));
}

} // verus!
