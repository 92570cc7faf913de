//! The global settings: the first configuration, the defaults that fill
//! blank settings, edits from the settings panel, and where new profiles go.
use vstd::prelude::*;

use crate::model::{Config, ConfigPatch, ConfigView};
use crate::text::{push_char, trim_string, trim_text, trimmed};

verus! {

/// The configuration written on first start: the probed Chrome executable
/// and template profile, no start page, the default profile root and no
/// environments.
pub fn default_config(
    chrome_path: String,
    master_profile_path: String,
    profile_storage_path: String,
) -> (c: Config)
    ensures
        c@.chrome_path == chrome_path@,
        c@.master_profile_path == master_profile_path@,
        c@.default_url.len() == 0,
        c@.profile_storage_path == profile_storage_path@,
        c@.environments.len() == 0,
{
    Config {
        chrome_path,
        master_profile_path,
        default_url: String::new(),
        profile_storage_path,
        environments: Vec::new(),
    }
}

/// `value` if it is empty, else `current`.
pub open spec fn or_default(current: Seq<char>, value: Seq<char>) -> Seq<char> {
    if current.len() == 0 {
        value
    } else {
        current
    }
}

/// The text stored in the settings file: the serialized settings and a
/// CRLF line end.
pub fn config_file_text(serialized: &str) -> (r: String)
    ensures
        r@ == serialized@ + seq!['\r', '\n'],
{
    let mut r = String::from_str(serialized);
    push_char(&mut r, '\r');
    push_char(&mut r, '\n');
    assert(r@ =~= serialized@ + seq!['\r', '\n']);
    r
}

/// Which of the probed settings a stored configuration left empty.
#[derive(Debug, PartialEq, Eq)]
pub struct MissingSettings {
    pub chrome_path: bool,
    pub master_profile_path: bool,
    pub profile_storage_path: bool,
}

/// Which settings need their default probed (those that are empty).
pub fn missing_settings(config: &Config) -> (r: MissingSettings)
    ensures
        r.chrome_path == (config@.chrome_path.len() == 0),
        r.master_profile_path == (config@.master_profile_path.len() == 0),
        r.profile_storage_path == (config@.profile_storage_path.len() == 0),
{
    MissingSettings {
        chrome_path: config.chrome_path.as_str().is_empty(),
        master_profile_path: config.master_profile_path.as_str().is_empty(),
        profile_storage_path: config.profile_storage_path.as_str().is_empty(),
    }
}

/// The settings with each empty probed setting replaced by its default.
pub open spec fn filled_config(
    c: ConfigView,
    chrome_path: Seq<char>,
    master_profile_path: Seq<char>,
    profile_storage_path: Seq<char>,
) -> ConfigView {
    ConfigView {
        chrome_path: or_default(c.chrome_path, chrome_path),
        master_profile_path: or_default(c.master_profile_path, master_profile_path),
        profile_storage_path: or_default(c.profile_storage_path, profile_storage_path),
        ..c
    }
}

/// Fills the settings that a stored configuration left empty: the Chrome
/// executable, the template profile and the profile root. The start page
/// and the environments are kept. A default is used only where its
/// setting is empty, so one that was not probed may be passed as empty.
pub fn fill_missing_settings(
    config: &mut Config,
    chrome_path: String,
    master_profile_path: String,
    profile_storage_path: String,
)
    ensures
        final(config)@ == filled_config(
            old(config)@,
            chrome_path@,
            master_profile_path@,
            profile_storage_path@,
        ),
{
    if config.chrome_path.as_str().is_empty() {
        config.chrome_path = chrome_path;
    }
    if config.master_profile_path.as_str().is_empty() {
        config.master_profile_path = master_profile_path;
    }
    if config.profile_storage_path.as_str().is_empty() {
        config.profile_storage_path = profile_storage_path;
    }
}

/// The trimmed patch value where there is one, else `current`.
pub open spec fn patched_setting(current: Seq<char>, value: Option<String>) -> Seq<char> {
    match value {
        Some(v) => trimmed(v@),
        None => current,
    }
}

/// The settings after `patch`: each given value, trimmed, replaces its
/// setting.
pub open spec fn patched_config(c: ConfigView, patch: ConfigPatch) -> ConfigView {
    ConfigView {
        chrome_path: patched_setting(c.chrome_path, patch.chrome_path),
        master_profile_path: patched_setting(c.master_profile_path, patch.master_profile_path),
        default_url: patched_setting(c.default_url, patch.default_url),
        profile_storage_path: patched_setting(c.profile_storage_path, patch.profile_storage_path),
        environments: c.environments,
    }
}

fn patch_setting(target: &mut String, value: &Option<String>)
    ensures
        final(target)@ == patched_setting(old(target)@, *value),
{
    match value {
        Some(v) => {
            *target = trim_string(v);
        },
        None => {},
    }
}

/// Applies an edit from the settings panel. Environments keep their
/// profile paths whatever the new profile root is.
pub fn apply_config_patch(config: &mut Config, patch: &ConfigPatch)
    ensures
        final(config)@ == patched_config(old(config)@, *patch),
        patch.chrome_path matches Some(v) ==> final(config)@.chrome_path == trimmed(v@),
        patch.chrome_path is None ==> final(config)@.chrome_path == old(config)@.chrome_path,
        patch.master_profile_path matches Some(v) ==> final(config)@.master_profile_path
            == trimmed(v@),
        patch.master_profile_path is None ==> final(config)@.master_profile_path == old(
            config,
        )@.master_profile_path,
        patch.default_url matches Some(v) ==> final(config)@.default_url == trimmed(v@),
        patch.default_url is None ==> final(config)@.default_url == old(config)@.default_url,
        patch.profile_storage_path matches Some(v) ==> final(config)@.profile_storage_path
            == trimmed(v@),
        patch.profile_storage_path is None ==> final(config)@.profile_storage_path == old(
            config,
        )@.profile_storage_path,
        final(config)@.environments == old(config)@.environments,
{
    patch_setting(&mut config.chrome_path, &patch.chrome_path);
    patch_setting(&mut config.master_profile_path, &patch.master_profile_path);
    patch_setting(&mut config.default_url, &patch.default_url);
    patch_setting(&mut config.profile_storage_path, &patch.profile_storage_path);
}

/// Where new profiles are created: the trimmed configured root, or
/// `default_root` when that is blank.
pub open spec fn storage_root(c: ConfigView, default_root: Seq<char>) -> Seq<char> {
    if trimmed(c.profile_storage_path).len() == 0 {
        default_root
    } else {
        trimmed(c.profile_storage_path)
    }
}

/// Where new profiles are created.
pub fn profile_storage_dir(config: &Config, default_root: &str) -> (r: String)
    ensures
        r@ == storage_root(config@, default_root@),
{
    let configured = trim_text(config.profile_storage_path.as_str());
    if configured.as_str().is_empty() {
        String::from_str(default_root)
    } else {
        configured
    }
}

} // verus!
