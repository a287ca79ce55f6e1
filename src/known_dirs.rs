//! Well-known directories of the client on Linux and macOS. Where a directory
//! lies under a per-user base directory, the caller hands in that base.

use vstd::prelude::*;

verus! {

/// Bundle ID / App ID that the client uses to tell itself apart from other
/// programs on the system; it names our subdirectories for configs and data.
pub const BUNDLE_ID: &'static str = "dev.firezone.client";

pub open spec fn bundle_id() -> Seq<char> {
    "dev.firezone.client"@
}

/// `base` with the relative component `part` appended, a `/` between them unless
/// `base` is empty or already ends in one.
pub open spec fn path_join(base: Seq<char>, part: Seq<char>) -> Seq<char> {
    if base.len() == 0 {
        part
    } else if base.last() == '/' {
        base + part
    } else {
        base + seq!['/'] + part
    }
}

/// Appends the relative component `part` to the path `base`.
pub fn join(base: &str, part: &str) -> (r: String)
    ensures
        r@ == path_join(base@, part@),
{
    let n = base.unicode_len();
    let mut s = String::from_str(base);
    if n > 0 && base.get_char(n - 1) != '/' {
        s.append("/");
        proof {
            reveal_strlit("/");
        }
    }
    s.append(part);
    assert(s@ =~= path_join(base@, part@));
    s
}

fn bundle_dir(base: &str) -> (r: String)
    ensures
        r@ == path_join(base@, bundle_id()),
{
    join(base, BUNDLE_ID)
}

/// Configuration of the tunnel service.
pub fn tunnel_service_config() -> (r: Option<String>)
    ensures
        r is Some && r.unwrap()@ == path_join(path_join("/var/lib"@, bundle_id()), "config"@),
{
    let d = bundle_dir("/var/lib");
    let r = join(d.as_str(), "config");
    Some(r)
}

/// Logs of the tunnel service.
pub fn tunnel_service_logs() -> (r: Option<String>)
    ensures
        r is Some && r.unwrap()@ == path_join("/var/log"@, bundle_id()),
{
    let r = bundle_dir("/var/log");
    Some(r)
}

/// Runtime directory of the tunnel service.
pub fn root_runtime() -> (r: Option<String>)
    ensures
        r is Some && r.unwrap()@ == path_join("/run"@, bundle_id()),
{
    let r = bundle_dir("/run");
    Some(r)
}

/// Logs of the GUI, under the user's cache directory `cache_dir`.
pub fn logs(cache_dir: Option<&str>) -> (r: Option<String>)
    ensures
        r.is_some() == cache_dir.is_some(),
        r is Some ==> r.unwrap()@ == path_join(path_join(path_join(cache_dir.unwrap()@, bundle_id()), "data"@), "logs"@),
{
    match cache_dir {
        None => None,
        Some(base) => {
            let d = bundle_dir(base);
            let d = join(d.as_str(), "data");
            let r = join(d.as_str(), "logs");
            Some(r)
        },
    }
}

/// Runtime directory of the user's session, under `runtime_dir`.
pub fn user_runtime(runtime_dir: Option<&str>) -> (r: Option<String>)
    ensures
        r.is_some() == runtime_dir.is_some(),
        r is Some ==> r.unwrap()@ == path_join(runtime_dir.unwrap()@, bundle_id()),
{
    match runtime_dir {
        None => None,
        Some(base) => {
            let r = bundle_dir(base);
            Some(r)
        },
    }
}

/// Session data of the user, under the local data directory `data_local_dir`.
pub fn session(data_local_dir: Option<&str>) -> (r: Option<String>)
    ensures
        r.is_some() == data_local_dir.is_some(),
        r is Some ==> r.unwrap()@ == path_join(path_join(data_local_dir.unwrap()@, bundle_id()), "data"@),
{
    match data_local_dir {
        None => None,
        Some(base) => {
            let d = bundle_dir(base);
            let r = join(d.as_str(), "data");
            Some(r)
        },
    }
}

/// Settings of the user, under the local config directory `config_local_dir`.
pub fn settings(config_local_dir: Option<&str>) -> (r: Option<String>)
    ensures
        r.is_some() == config_local_dir.is_some(),
        r is Some ==> r.unwrap()@ == path_join(path_join(config_local_dir.unwrap()@, bundle_id()), "config"@),
{
    match config_local_dir {
        None => None,
        Some(base) => {
            let d = bundle_dir(base);
            let r = join(d.as_str(), "config");
            Some(r)
        },
    }
}

/// The directory of the tunnel service's configuration could not be found.
#[derive(PartialEq, Eq, Structural, Clone, Copy, Debug)]
pub enum KnownDirError {
    NoTunnelServiceConfig,
}

/// The file holding the tunnel service's log filter.
pub fn tunnel_log_filter() -> (r: Result<String, KnownDirError>)
    ensures
        r is Ok && r.unwrap()@ == path_join(path_join(path_join("/var/lib"@, bundle_id()), "config"@), "log-filter"@),
{
    match tunnel_service_config() {
        None => Err(KnownDirError::NoTunnelServiceConfig),
        Some(dir) => {
            let r = join(dir.as_str(), "log-filter");
            Ok(r)
        },
    }
}

/// The default path for storing the authentication token persistently.
pub fn default_token_path() -> (r: String)
    ensures
        r@ == path_join(path_join("/etc"@, bundle_id()), "token"@),
{
    let d = bundle_dir("/etc");
    let r = join(d.as_str(), "token");
    r
}

} // verus!
