//! Where the shell keeps its files, below a data directory and a runtime
//! directory.
use vstd::prelude::*;

verus! {

pub const INSTANCE_SOCKET_FILE: &'static str = "stremio.sock";

pub const SERVER_FILE: &'static str = "server.js";

pub const SERVER_VERSION_FILE: &'static str = "server_version";

pub const CEF_DIR: &'static str = "cef";

pub const CEF_CACHE_DIR: &'static str = "cache";

pub const CEF_LOG_FILE: &'static str = "log";

pub const CEF_LOCK_FILE: &'static str = "SingletonLock";

pub const TRAY_ICON_DIR: &'static str = "tray";

/// `name`, a relative path, appended to the directory `dir`: a separator is
/// put between them unless `dir` is empty or already ends with one.
pub open spec fn path_join(dir: Seq<char>, name: Seq<char>) -> Seq<char> {
    if dir.len() == 0 {
        name
    } else if dir.last() == '/' {
        dir + name
    } else {
        dir + seq!['/'] + name
    }
}

/// Appends the relative path `name` to the directory `dir`.
pub fn join_path(dir: &str, name: &str) -> (r: String)
    ensures
        r@ == path_join(dir@, name@),
{
    let n = dir.unicode_len();
    if n == 0 {
        return String::from_str(name);
    }
    let mut r = String::from_str(dir);
    if dir.get_char(n - 1) != '/' {
        r.append("/");
        proof {
            reveal_strlit("/");
        }
    }
    r.append(name);
    proof {
        assert(r@ =~= path_join(dir@, name@));
    }
    r
}

pub struct InstanceConfig {
    pub socket_file: String,
}

impl InstanceConfig {
    pub fn new(runtime_dir: &str) -> (r: InstanceConfig)
        ensures
            r.socket_file@ == path_join(runtime_dir@, INSTANCE_SOCKET_FILE@),
    {
        InstanceConfig { socket_file: join_path(runtime_dir, INSTANCE_SOCKET_FILE) }
    }
}

pub struct ServerConfig {
    pub file: String,
    pub version_file: String,
}

impl ServerConfig {
    pub fn new(data_dir: &str) -> (r: ServerConfig)
        ensures
            r.file@ == path_join(data_dir@, SERVER_FILE@),
            r.version_file@ == path_join(data_dir@, SERVER_VERSION_FILE@),
    {
        ServerConfig {
            file: join_path(data_dir, SERVER_FILE),
            version_file: join_path(data_dir, SERVER_VERSION_FILE),
        }
    }
}

pub struct WebViewConfig {
    pub cache_dir: String,
    pub log_file: String,
    pub lock_file: String,
}

impl WebViewConfig {
    pub fn new(data_dir: &str) -> (r: WebViewConfig)
        ensures
            r.cache_dir@ == path_join(path_join(data_dir@, CEF_DIR@), CEF_CACHE_DIR@),
            r.log_file@ == path_join(path_join(data_dir@, CEF_DIR@), CEF_LOG_FILE@),
            r.lock_file@ == path_join(
                path_join(path_join(data_dir@, CEF_DIR@), CEF_CACHE_DIR@),
                CEF_LOCK_FILE@,
            ),
    {
        let cef_dir = join_path(data_dir, CEF_DIR);
        let cache_dir = join_path(cef_dir.as_str(), CEF_CACHE_DIR);
        let log_file = join_path(cef_dir.as_str(), CEF_LOG_FILE);
        let lock_file = join_path(cache_dir.as_str(), CEF_LOCK_FILE);
        WebViewConfig { cache_dir, log_file, lock_file }
    }
}

pub struct TrayConfig {
    pub icon_path: String,
}

impl TrayConfig {
    pub fn new(runtime_path: &str) -> (r: TrayConfig)
        ensures
            r.icon_path@ == path_join(runtime_path@, TRAY_ICON_DIR@),
    {
        TrayConfig { icon_path: join_path(runtime_path, TRAY_ICON_DIR) }
    }
}

pub struct Config {
    pub instance: InstanceConfig,
    pub server: ServerConfig,
    pub webview: WebViewConfig,
    pub tray: TrayConfig,
}

impl Config {
    /// The paths below the shell's data directory and runtime directory.
    pub fn new(data_dir: &str, runtime_dir: &str) -> (r: Config)
        ensures
            r.instance.socket_file@ == path_join(runtime_dir@, INSTANCE_SOCKET_FILE@),
            r.server.file@ == path_join(data_dir@, SERVER_FILE@),
            r.server.version_file@ == path_join(data_dir@, SERVER_VERSION_FILE@),
            r.webview.cache_dir@ == path_join(path_join(data_dir@, CEF_DIR@), CEF_CACHE_DIR@),
            r.webview.log_file@ == path_join(path_join(data_dir@, CEF_DIR@), CEF_LOG_FILE@),
            r.webview.lock_file@ == path_join(
                path_join(path_join(data_dir@, CEF_DIR@), CEF_CACHE_DIR@),
                CEF_LOCK_FILE@,
            ),
            r.tray.icon_path@ == path_join(runtime_dir@, TRAY_ICON_DIR@),
    {
        Config {
            instance: InstanceConfig::new(runtime_dir),
            server: ServerConfig::new(data_dir),
            webview: WebViewConfig::new(data_dir),
            tray: TrayConfig::new(runtime_dir),
        }
    }
}

} // verus!
