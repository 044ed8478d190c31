//! Service configuration: the file's targets, their validation, path
//! resolution, and the settings taken from the environment.

use vstd::prelude::*;

use crate::paths::{self, path_is_relative, path_joined, path_parent};
use crate::text::{is_valid_id, is_valid_target_id, parse_u64, parsed_u64, trim_trailing_slashes, without_trailing_slashes};

verus! {

/// VOICEVOX settings of the configuration file.
pub struct VoicevoxConfig {
    /// Speaker ID passed to VOICEVOX.
    pub speaker: u32,
}

/// One text file to convert.
pub struct TargetConfig {
    /// Identifier of the target, used in URLs and directory names.
    pub id: String,
    /// Path of the text file.
    pub input_path: String,
}

/// The contents of the configuration file.
pub struct FileConfig {
    pub voicevox: VoicevoxConfig,
    pub targets: Vec<TargetConfig>,
}

/// The environment variables that the configuration reads, each `None` when unset.
pub struct Environment {
    pub bind_addr: Option<String>,
    pub data_dir: Option<String>,
    pub voicevox_url: Option<String>,
    pub poll_interval_seconds: Option<String>,
}

/// The complete configuration of the service.
pub struct Config {
    pub bind_addr: String,
    pub data_dir: String,
    pub voicevox_url: String,
    pub poll_interval_seconds: u64,
    pub voicevox: VoicevoxConfig,
    pub targets: Vec<TargetConfig>,
}

/// Why a configuration is refused.
pub enum ConfigError {
    /// A target ID is empty or holds a character other than an ASCII letter, digit, `-` or `_`.
    InvalidTargetId(String),
    /// A target ID occurs a second time.
    DuplicateTargetId(String),
    /// `POLL_INTERVAL_SECONDS` is not a positive integer.
    InvalidPollInterval,
}

/// Configuration file read when `CONFIG_PATH` is unset.
pub open spec fn default_config_path() -> Seq<char> {
    "config.toml"@
}

/// Address listened on when `BIND_ADDR` is unset.
pub open spec fn default_bind_addr() -> Seq<char> {
    "0.0.0.0:8080"@
}

/// Data directory used when `DATA_DIR` is unset.
pub open spec fn default_data_dir() -> Seq<char> {
    "./data"@
}

/// VOICEVOX Engine URL used when `VOICEVOX_URL` is unset.
pub open spec fn default_voicevox_url() -> Seq<char> {
    "http://127.0.0.1:50021"@
}

/// Seconds between checks when `POLL_INTERVAL_SECONDS` is unset: five minutes.
pub const DEFAULT_POLL_INTERVAL_SECONDS: u64 = 300;

/// The value of a variable, or `default` when it is unset.
pub open spec fn or_default(var: Option<String>, default: Seq<char>) -> Seq<char> {
    match var {
        Some(v) => v@,
        None => default,
    }
}

/// The poll interval that `POLL_INTERVAL_SECONDS` sets: `None` when the
/// variable is set to anything but a positive integer.
pub open spec fn poll_interval_of(var: Option<String>) -> Option<u64> {
    match var {
        None => Some(DEFAULT_POLL_INTERVAL_SECONDS),
        Some(v) => match parsed_u64(v@) {
            Some(n) => if n >= 1 {
                Some(n)
            } else {
                None
            },
            None => None,
        },
    }
}

/// The IDs of `targets`, in order.
pub open spec fn target_ids(targets: Seq<TargetConfig>) -> Seq<Seq<char>> {
    targets.map_values(|t: TargetConfig| t.id@)
}

/// The `k`-th ID is refused: it is not a valid ID, or an earlier target has it.
pub open spec fn id_rejected(ids: Seq<Seq<char>>, k: int) -> bool {
    !is_valid_id(ids[k]) || ids.subrange(0, k).contains(ids[k])
}

/// `e` is the error reported for the `k`-th ID.
pub open spec fn rejection_of(ids: Seq<Seq<char>>, k: int, e: ConfigError) -> bool {
    match e {
        ConfigError::InvalidTargetId(id) => id@ == ids[k] && !is_valid_id(ids[k]),
        ConfigError::DuplicateTargetId(id) => id@ == ids[k] && is_valid_id(ids[k]) && ids.subrange(
            0,
            k,
        ).contains(ids[k]),
        ConfigError::InvalidPollInterval => false,
    }
}

/// The outcome of checking `ids` in order: `Ok` when none is refused, else
/// the error for the first refused one.
pub open spec fn ids_checked(ids: Seq<Seq<char>>, res: Result<(), ConfigError>) -> bool {
    match res {
        Ok(()) => forall|k: int| 0 <= k < ids.len() ==> !id_rejected(ids, k),
        Err(e) => exists|k: int|
            0 <= k < ids.len() && (forall|j: int| 0 <= j < k ==> !id_rejected(ids, j))
                && rejection_of(ids, k, e),
    }
}

/// The directory against which relative input paths are resolved.
pub open spec fn config_dir(config_path: Seq<char>) -> Seq<char> {
    match path_parent(config_path) {
        Some(dir) => dir,
        None => seq!['.'],
    }
}

/// `path` resolved against `dir` when it is relative.
pub open spec fn resolved_path(dir: Seq<char>, path: Seq<char>) -> Seq<char> {
    if path_is_relative(path) {
        path_joined(dir, path)
    } else {
        path
    }
}

/// `after` is `before` with each input path resolved against the configuration's directory.
pub open spec fn targets_resolved(
    before: Seq<TargetConfig>,
    after: Seq<TargetConfig>,
    config_path: Seq<char>,
) -> bool {
    &&& after.len() == before.len()
    &&& forall|i: int|
        0 <= i < before.len() ==> {
            &&& (#[trigger] after[i]).id@ == before[i].id@
            &&& after[i].input_path@ == resolved_path(config_dir(config_path), before[i].input_path@)
        }
}

/// Accepts `targets` when every ID is valid and unique; otherwise reports the
/// first target in order whose ID is invalid or repeats an earlier one.
pub fn validate_target_ids(targets: &[TargetConfig]) -> (res: Result<(), ConfigError>)
    ensures
        ids_checked(target_ids(targets@), res),
{
    let ghost ids = target_ids(targets@);
    let mut k: usize = 0;
    while k < targets.len()
        invariant
            k <= targets@.len(),
            ids == target_ids(targets@),
            forall|j: int| 0 <= j < k ==> !id_rejected(ids, j),
        decreases targets@.len() - k,
    {
        let id = &targets[k].id;
        assert(ids[k as int] == id@);
        if !is_valid_target_id(id.as_str()) {
            let e = ConfigError::InvalidTargetId(id.clone());
            assert(rejection_of(ids, k as int, e));
            return Err(e);
        }
        let mut j: usize = 0;
        while j < k
            invariant
                j <= k < targets@.len(),
                ids == target_ids(targets@),
                id@ == ids[k as int],
                is_valid_id(ids[k as int]),
                forall|m: int| 0 <= m < k ==> !id_rejected(ids, m),
                forall|m: int| 0 <= m < j ==> ids[m] != ids[k as int],
            decreases k - j,
        {
            assert(ids[j as int] == targets@[j as int].id@);
            if targets[j].id == *id {
                assert(ids.subrange(0, k as int)[j as int] == ids[k as int]);
                let e = ConfigError::DuplicateTargetId(id.clone());
                assert(rejection_of(ids, k as int, e));
                return Err(e);
            }
            j = j + 1;
        }
        assert(!ids.subrange(0, k as int).contains(ids[k as int])) by {
            if ids.subrange(0, k as int).contains(ids[k as int]) {
                let m = choose|m: int|
                    0 <= m < k && #[trigger] ids.subrange(0, k as int)[m] == ids[k as int];
                assert(ids[m] == ids[k as int]);
            }
        }
        k = k + 1;
    }
    Ok(())
}

/// Every ID that `validate_target_ids` accepts is valid, and no two targets share one.
pub proof fn lemma_accepted_ids_valid_and_distinct(ids: Seq<Seq<char>>)
    requires
        ids_checked(ids, Ok(())),
    ensures
        forall|k: int| 0 <= k < ids.len() ==> is_valid_id(#[trigger] ids[k]),
        ids.no_duplicates(),
{
    assert forall|i: int, j: int|
        0 <= i < ids.len() && 0 <= j < ids.len() && i != j implies ids[i] != ids[j] by {
        let (a, b) = if i < j {
            (i, j)
        } else {
            (j, i)
        };
        assert(!id_rejected(ids, b));
        assert(ids.subrange(0, b)[a] == ids[a]);
    }
    assert forall|k: int| 0 <= k < ids.len() implies is_valid_id(#[trigger] ids[k]) by {
        assert(!id_rejected(ids, k));
    }
}

/// Resolves each relative input path against the directory of the
/// configuration file (`.` when that path has no parent).
pub fn resolve_input_paths(targets: &mut Vec<TargetConfig>, config_path: &str)
    ensures
        targets_resolved(old(targets)@, final(targets)@, config_path@),
{
    let dir = match paths::parent(config_path) {
        Some(d) => d,
        None => {
            let mut d = String::new();
            d.append(".");
            proof {
                reveal_strlit(".");
            }
            assert(d@ =~= seq!['.']);
            d
        },
    };
    let ghost before = targets@;
    let mut resolved: Vec<TargetConfig> = Vec::new();
    let mut i: usize = 0;
    while i < targets.len()
        invariant
            i <= targets@.len(),
            targets@ == before,
            dir@ == config_dir(config_path@),
            resolved@.len() == i,
            forall|j: int|
                0 <= j < i ==> {
                    &&& (#[trigger] resolved@[j]).id@ == before[j].id@
                    &&& resolved@[j].input_path@ == resolved_path(dir@, before[j].input_path@)
                },
        decreases targets@.len() - i,
    {
        let target = &targets[i];
        let input_path = if paths::is_relative(target.input_path.as_str()) {
            paths::join(dir.as_str(), target.input_path.as_str())
        } else {
            target.input_path.clone()
        };
        resolved.push(TargetConfig { id: target.id.clone(), input_path });
        i = i + 1;
    }
    *targets = resolved;
}

/// The path of the configuration file: `CONFIG_PATH`, or `config.toml` when it is unset.
pub fn config_file_path(var: Option<String>) -> (path: String)
    ensures
        path@ == or_default(var, default_config_path()),
{
    match var {
        Some(v) => v,
        None => String::from_str("config.toml"),
    }
}

fn value_or(var: Option<String>, default: &str) -> (res: String)
    ensures
        res@ == or_default(var, default@),
{
    match var {
        Some(v) => v,
        None => String::from_str(default),
    }
}

fn poll_interval(var: Option<String>) -> (res: Option<u64>)
    ensures
        res == poll_interval_of(var),
{
    match var {
        None => Some(DEFAULT_POLL_INTERVAL_SECONDS),
        Some(v) => match parse_u64(v.as_str()) {
            Some(n) => if n >= 1 {
                Some(n)
            } else {
                None
            },
            None => None,
        },
    }
}

impl Config {
    /// Builds the configuration from the parsed configuration file found at
    /// `config_path` and from the environment: the target IDs are checked
    /// first, then input paths are resolved, then the poll interval is read.
    pub fn load(config_path: &str, file: FileConfig, env: Environment) -> (res: Result<
        Config,
        ConfigError,
    >)
        ensures
            ({
                let ids = target_ids(file.targets@);
                let ids_ok = ids_checked(ids, Ok(()));
                match res {
                    Err(e) => {
                        ||| !ids_ok && ids_checked(ids, Err(e))
                        ||| ids_ok && poll_interval_of(env.poll_interval_seconds) is None
                            && e is InvalidPollInterval
                    },
                    Ok(c) => {
                        &&& ids_ok
                        &&& poll_interval_of(env.poll_interval_seconds) == Some(
                            c.poll_interval_seconds,
                        )
                        &&& targets_resolved(file.targets@, c.targets@, config_path@)
                        &&& c.voicevox.speaker == file.voicevox.speaker
                        &&& c.bind_addr@ == or_default(env.bind_addr, default_bind_addr())
                        &&& c.data_dir@ == or_default(env.data_dir, default_data_dir())
                        &&& c.voicevox_url@ == without_trailing_slashes(
                            or_default(env.voicevox_url, default_voicevox_url()),
                        )
                    },
                }
            }),
    {
        let mut targets = file.targets;
        let checked = validate_target_ids(targets.as_slice());
        match checked {
            Err(e) => {
                proof {
                    let ids = target_ids(file.targets@);
                    let k = choose|k: int|
                        0 <= k < ids.len() && (forall|j: int| 0 <= j < k ==> !id_rejected(ids, j))
                            && rejection_of(ids, k, e);
                    assert(id_rejected(ids, k));
                }
                return Err(e);
            },
            Ok(()) => {},
        }
        resolve_input_paths(&mut targets, config_path);
        let poll_interval_seconds = match poll_interval(env.poll_interval_seconds) {
            Some(n) => n,
            None => {
                return Err(ConfigError::InvalidPollInterval);
            },
        };
        let url = value_or(env.voicevox_url, "http://127.0.0.1:50021");
        let voicevox_url = trim_trailing_slashes(url.as_str());
        Ok(Config {
            bind_addr: value_or(env.bind_addr, "0.0.0.0:8080"),
            data_dir: value_or(env.data_dir, "./data"),
            voicevox_url,
            poll_interval_seconds,
            voicevox: file.voicevox,
            targets,
        })
    }
}

} // verus!
