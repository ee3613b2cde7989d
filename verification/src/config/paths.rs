//! Where the tool keeps its files: each directory is the platform default
//! unless an environment variable overrides it.
use vstd::prelude::*;
use crate::text::{chars_of, concat2, concat3, owned};

verus! {

/// Whether a directory is the platform default or was overridden.
#[derive(Debug, Clone, Copy, PartialEq, Eq, Structural)]
pub enum RuntimePathSource {
    Default,
    Override,
}

/// The name of a path source.
pub open spec fn spec_source_str(s: RuntimePathSource) -> Seq<char> {
    match s {
        RuntimePathSource::Default => "default"@,
        RuntimePathSource::Override => "override"@,
    }
}

impl RuntimePathSource {
    /// The lower-case name of the source.
    pub fn as_str(self) -> (r: &'static str)
        ensures
            r@ == spec_source_str(self),
    {
        match self {
            RuntimePathSource::Default => "default",
            RuntimePathSource::Override => "override",
        }
    }
}

/// A relative path appended to a directory, as `Path::join` does it: with a
/// separator unless the directory is empty or already ends with one.
pub open spec fn spec_join(dir: Seq<char>, name: Seq<char>) -> Seq<char> {
    if dir.len() == 0 || dir.last() == '/' {
        dir + name
    } else {
        dir + "/"@ + name
    }
}

/// Appends a relative path to a directory.
pub fn join_path(dir: &str, name: &str) -> (r: String)
    ensures
        r@ == spec_join(dir@, name@),
{
    let chars = chars_of(dir);
    if chars.len() == 0 || chars[chars.len() - 1] == '/' {
        concat2(dir, name)
    } else {
        concat3(dir, "/", name)
    }
}

/// A directory: the override when one is set, else the default.
pub fn resolve_runtime_dir(override_value: Option<&str>, default_path: &str) -> (r: (String, RuntimePathSource))
    ensures
        match override_value {
            Some(v) => r.0@ == v@ && r.1 == RuntimePathSource::Override,
            None => r.0@ == default_path@ && r.1 == RuntimePathSource::Default,
        },
{
    match override_value {
        Some(v) => (owned(v), RuntimePathSource::Override),
        None => (owned(default_path), RuntimePathSource::Default),
    }
}

/// The directories and files the tool uses.
#[derive(Debug, Clone)]
pub struct AppPaths {
    pub config_dir: String,
    pub data_dir: String,
    pub state_dir: String,
    pub cache_dir: String,
    pub db_path: String,
    pub master_key_path: String,
    pub config_source: RuntimePathSource,
    pub data_source: RuntimePathSource,
    pub state_source: RuntimePathSource,
    pub cache_source: RuntimePathSource,
}

/// The platform's directories for the tool; the state directory is optional
/// on platforms that have none.
pub struct PlatformDirs {
    pub config_dir: String,
    pub data_dir: String,
    pub state_dir: Option<String>,
    pub cache_dir: String,
}

/// The environment overrides, one per directory.
pub struct DirOverrides {
    pub config_dir: Option<String>,
    pub data_dir: Option<String>,
    pub state_dir: Option<String>,
    pub cache_dir: Option<String>,
}

/// An override or a default, with where it came from.
pub open spec fn pick(o: Option<String>, d: Seq<char>) -> (Seq<char>, RuntimePathSource) {
    match o {
        Some(v) => (v@, RuntimePathSource::Override),
        None => (d, RuntimePathSource::Default),
    }
}

/// An optional text as a string slice.
fn as_opt_str(o: &Option<String>) -> (r: Option<&str>)
    ensures
        match o {
            Some(v) => r is Some && r->0@ == v@,
            None => r is None,
        },
{
    match o {
        Some(v) => Some(v.as_str()),
        None => None,
    }
}

impl AppPaths {
    /// The layout from the platform directories and the overrides: each
    /// directory is its override if set, else the default (the state directory
    /// defaults to `state` under the chosen data directory where the platform
    /// has none); the database is `state.sqlite` in the data directory and the
    /// key file `master.key` in the configuration directory.
    pub fn from_dirs(platform: &PlatformDirs, overrides: &DirOverrides) -> (r: AppPaths)
        ensures
            (r.config_dir@, r.config_source) == pick(overrides.config_dir, platform.config_dir@),
            (r.data_dir@, r.data_source) == pick(overrides.data_dir, platform.data_dir@),
            (r.state_dir@, r.state_source) == pick(overrides.state_dir, match platform.state_dir {
                Some(s) => s@,
                None => spec_join(r.data_dir@, "state"@),
            }),
            (r.cache_dir@, r.cache_source) == pick(overrides.cache_dir, platform.cache_dir@),
            r.db_path@ == spec_join(r.data_dir@, "state.sqlite"@),
            r.master_key_path@ == spec_join(r.config_dir@, "master.key"@),
    {
        let (config_dir, config_source) = resolve_runtime_dir(as_opt_str(&overrides.config_dir), platform.config_dir.as_str());
        let (data_dir, data_source) = resolve_runtime_dir(as_opt_str(&overrides.data_dir), platform.data_dir.as_str());
        let state_default = match &platform.state_dir {
            Some(s) => owned(s.as_str()),
            None => join_path(data_dir.as_str(), "state"),
        };
        let (state_dir, state_source) = resolve_runtime_dir(as_opt_str(&overrides.state_dir), state_default.as_str());
        let (cache_dir, cache_source) = resolve_runtime_dir(as_opt_str(&overrides.cache_dir), platform.cache_dir.as_str());
        let db_path = join_path(data_dir.as_str(), "state.sqlite");
        let master_key_path = join_path(config_dir.as_str(), "master.key");
        AppPaths {
            config_dir,
            data_dir,
            state_dir,
            cache_dir,
            db_path,
            master_key_path,
            config_source,
            data_source,
            state_source,
            cache_source,
        }
    }
}

} // verus!
