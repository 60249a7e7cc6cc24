//! Project configuration and the validation of its values.

use vstd::prelude::*;
use crate::text::{from_chars_range, owned, to_chars};

verus! {

/// How command results are printed.
#[derive(Debug, Clone, Copy, PartialEq, Eq, Structural)]
pub enum OutputFormat {
    Human,
    Json,
}

/// Runtime configuration loaded from `.skulk/config.toml`.
#[derive(Debug, Clone)]
pub struct Config {
    pub host: String,
    pub session_prefix: String,
    pub base_path: String,
    pub worktree_base: String,
    pub default_branch: String,
    /// Path (relative to the worktree) of a setup script run before the agent launches.
    pub init_script: Option<String>,
    pub output_format: OutputFormat,
    /// Project directory (the parent of `.skulk/`), once loaded from disk.
    pub root_dir: Option<String>,
    /// The agent command-line tool each session launches and the setup
    /// checks look for.
    pub harness: String,
}

/// Name of the per-project configuration directory.
pub open spec fn config_dir_spec() -> Seq<char> {
    seq!['.', 's', 'k', 'u', 'l', 'k']
}

/// Name of the configuration file inside the configuration directory.
pub open spec fn config_filename_spec() -> Seq<char> {
    seq!['c', 'o', 'n', 'f', 'i', 'g', '.', 't', 'o', 'm', 'l']
}

/// `.skulk`
pub fn config_dir() -> (r: String)
    ensures
        r@ == config_dir_spec(),
{
    proof {
        reveal_strlit(".skulk");
    }
    owned(".skulk")
}

/// `config.toml`
pub fn config_filename() -> (r: String)
    ensures
        r@ == config_filename_spec(),
{
    proof {
        reveal_strlit("config.toml");
    }
    owned("config.toml")
}

/// The default branch when the configuration names none.
pub fn default_branch() -> (r: String)
    ensures
        r@ == "main"@,
{
    owned("main")
}

/// A character that may stand unquoted in a shell command:
/// ASCII letters and digits and `/._-~+@:`.
pub open spec fn is_shell_safe_char(c: char) -> bool {
    ('a' <= c && c <= 'z') || ('A' <= c && c <= 'Z') || ('0' <= c && c <= '9') || c == '/' || c
        == '.' || c == '-' || c == '_' || c == '~' || c == '+' || c == '@' || c == ':'
}

/// The value is non-empty and every character is shell-safe.
pub open spec fn shell_safe(s: Seq<char>) -> bool {
    s.len() > 0 && forall|i: int| 0 <= i < s.len() ==> is_shell_safe_char(#[trigger] s[i])
}

/// The message for an empty configuration value.
pub open spec fn empty_value_message(field: Seq<char>) -> Seq<char> {
    "'"@ + field + "' cannot be empty in "@ + config_dir_spec() + "/"@ + config_filename_spec()
}

/// The message for an unsafe character in a configuration value.
pub open spec fn unsafe_char_message(field: Seq<char>, c: char) -> Seq<char> {
    "'"@ + field + "' contains character '"@ + seq![c]
        + "' that is unsafe in shell commands. Only alphanumeric characters and /._-~+@: are allowed."@
}

/// The message `validate_shell_safe` gives for a value that is not shell-safe:
/// the empty-value message, or the message naming the first unsafe character.
pub open spec fn shell_safe_error(value: Seq<char>, field: Seq<char>) -> Seq<char> {
    if value.len() == 0 {
        empty_value_message(field)
    } else {
        let i = choose|i: int|
            0 <= i < value.len() && !is_shell_safe_char(value[i]) && forall|j: int|
                0 <= j < i ==> is_shell_safe_char(value[j]);
        unsafe_char_message(field, value[i])
    }
}

/// `c` is shell-safe.
pub fn is_shell_safe_char_exec(c: char) -> (b: bool)
    ensures
        b == is_shell_safe_char(c),
{
    ('a' <= c && c <= 'z') || ('A' <= c && c <= 'Z') || ('0' <= c && c <= '9') || c == '/' || c
        == '.' || c == '-' || c == '_' || c == '~' || c == '+' || c == '@' || c == ':'
}

/// Validate that a config value contains only shell-safe characters.
///
/// Values are interpolated into shell commands without quoting, so they must
/// not contain spaces, quotes, or other metacharacters.
pub fn validate_shell_safe(value: &str, field: &str) -> (r: Result<(), String>)
    ensures
        r is Ok <==> shell_safe(value@),
        r matches Err(m) ==> m@ == shell_safe_error(value@, field@),
{
    let v = to_chars(value);
    if v.len() == 0 {
        let mut m = owned("'");
        m.append(field);
        m.append("' cannot be empty in ");
        m.append(config_dir().as_str());
        m.append("/");
        m.append(config_filename().as_str());
        return Err(m);
    }
    let mut i: usize = 0;
    while i < v.len()
        invariant
            i <= v.len(),
            v@ == value@,
            forall|j: int| 0 <= j < i ==> is_shell_safe_char(#[trigger] v@[j]),
        decreases v.len() - i,
    {
        let c = v[i];
        if !is_shell_safe_char_exec(c) {
            let mut m = owned("'");
            m.append(field);
            m.append("' contains character '");
            m.append(from_chars_range(v.as_slice(), i, i + 1).as_str());
            m.append(
                "' that is unsafe in shell commands. Only alphanumeric characters and /._-~+@: are allowed.",
            );
            proof {
                let k = choose|k: int|
                    0 <= k < value@.len() && !is_shell_safe_char(value@[k]) && forall|j: int|
                        0 <= j < k ==> is_shell_safe_char(value@[j]);
                assert(k == i) by {
                    if k < i {
                        assert(is_shell_safe_char(v@[k]));
                    } else if k > i {
                        assert(is_shell_safe_char(value@[i as int]));
                    }
                }
                assert(v@.subrange(i as int, i + 1) =~= seq![c]);
            }
            return Err(m);
        }
        i = i + 1;
    }
    Ok(())
}

/// The validity of a loaded configuration: the checks `load_config` makes,
/// in order, on each value that is interpolated into shell commands.
pub open spec fn config_valid(cfg: Config) -> bool {
    &&& shell_safe(cfg.host@)
    &&& shell_safe(cfg.session_prefix@)
    &&& shell_safe(cfg.base_path@)
    &&& shell_safe(cfg.worktree_base@)
    &&& shell_safe(cfg.default_branch@)
    &&& (cfg.init_script matches Some(s) ==> shell_safe(s@))
    &&& shell_safe(cfg.harness@)
}

/// Check every shell-interpolated value of a parsed configuration, in the
/// order `host`, `session_prefix`, `base_path`, `worktree_base`,
/// `default_branch`, `init_script`, `harness`; the first failure is returned.
pub fn validate_config(cfg: &Config) -> (r: Result<(), String>)
    ensures
        r is Ok <==> config_valid(*cfg),
        r matches Err(m) ==> {
            if !shell_safe(cfg.host@) {
                m@ == shell_safe_error(cfg.host@, "host"@)
            } else if !shell_safe(cfg.session_prefix@) {
                m@ == shell_safe_error(cfg.session_prefix@, "session_prefix"@)
            } else if !shell_safe(cfg.base_path@) {
                m@ == shell_safe_error(cfg.base_path@, "base_path"@)
            } else if !shell_safe(cfg.worktree_base@) {
                m@ == shell_safe_error(cfg.worktree_base@, "worktree_base"@)
            } else if !shell_safe(cfg.default_branch@) {
                m@ == shell_safe_error(cfg.default_branch@, "default_branch"@)
            } else if cfg.init_script matches Some(s) && !shell_safe(s@) {
                m@ == shell_safe_error(cfg.init_script->0@, "init_script"@)
            } else {
                m@ == shell_safe_error(cfg.harness@, "harness"@)
            }
        },
{
    validate_shell_safe(cfg.host.as_str(), "host")?;
    validate_shell_safe(cfg.session_prefix.as_str(), "session_prefix")?;
    validate_shell_safe(cfg.base_path.as_str(), "base_path")?;
    validate_shell_safe(cfg.worktree_base.as_str(), "worktree_base")?;
    validate_shell_safe(cfg.default_branch.as_str(), "default_branch")?;
    match &cfg.init_script {
        Some(script) => validate_shell_safe(script.as_str(), "init_script")?,
        None => {},
    }
    validate_shell_safe(cfg.harness.as_str(), "harness")
}

/// `dir` joined with one relative component, as `Path::join` does: a `/` is
/// inserted unless `dir` is empty or already ends with one.
pub open spec fn path_join(dir: Seq<char>, comp: Seq<char>) -> Seq<char> {
    if dir.len() == 0 {
        comp
    } else if dir.last() == '/' {
        dir + comp
    } else {
        dir + seq!['/'] + comp
    }
}

/// `dir` joined with one relative component (`Path::join`).
pub fn path_join_exec(dir: &str, comp: &str) -> (r: String)
    ensures
        r@ == path_join(dir@, comp@),
{
    let v = to_chars(dir);
    let mut r = owned(dir);
    if v.len() == 0 {
        return owned(comp);
    }
    if v[v.len() - 1] != '/' {
        push_slash(&mut r);
    }
    r.append(comp);
    r
}

fn push_slash(s: &mut String)
    ensures
        final(s)@ == old(s)@ + seq!['/'],
{
    proof {
        reveal_strlit("/");
    }
    s.append("/");
}

/// Build the path to the config file under a project directory
/// (`<dir>/.skulk/config.toml`).
pub fn config_path_in(dir: &str) -> (r: String)
    ensures
        r@ == path_join(path_join(dir@, config_dir_spec()), config_filename_spec()),
{
    let d = path_join_exec(dir, config_dir().as_str());
    path_join_exec(d.as_str(), config_filename().as_str())
}

} // verus!
