//! Properties that hold across the operations of the manager.
use vstd::prelude::*;

use crate::environments::{has_environment, is_first_with_id, keeps, patched_environment};
use crate::model::{ConfigPatch, ConfigView, EnvironmentPatch, EnvironmentView};
use crate::naming::{is_reserved_name_char, safe_char, safe_name};
use crate::settings::{filled_config, patched_config};
use crate::launch::launch_args;
use crate::paths::{is_runtime_file_name, set_dirs};
use crate::text::{
    is_control, is_trimmed, is_white_space, lemma_trimmed_fixed, lemma_trimmed_shape, trimmed,
};

verus! {

/// Sending the same settings edit twice leaves the settings as sending it
/// once.
pub proof fn law_config_patch_idempotent(c: ConfigView, patch: ConfigPatch)
    ensures
        patched_config(patched_config(c, patch), patch) == patched_config(c, patch),
{
}

/// An edit that gives no value changes nothing.
pub proof fn law_empty_config_patch_identity(c: ConfigView)
    ensures
        patched_config(
            c,
            ConfigPatch {
                chrome_path: None,
                master_profile_path: None,
                default_url: None,
                profile_storage_path: None,
            },
        ) == c,
{
}

/// Changing the settings, the profile root among them, leaves every
/// environment and its profile path as it was.
pub proof fn law_config_patch_keeps_environments(c: ConfigView, patch: ConfigPatch)
    ensures
        patched_config(c, patch).environments == c.environments,
{
}

/// Reading back stored settings whose probed settings are all set gives
/// them back unchanged: filling defaults touches only empty settings.
pub proof fn law_fill_keeps_set_settings(
    c: ConfigView,
    chrome_path: Seq<char>,
    master_profile_path: Seq<char>,
    profile_storage_path: Seq<char>,
)
    requires
        c.chrome_path.len() > 0,
        c.master_profile_path.len() > 0,
        c.profile_storage_path.len() > 0,
    ensures
        filled_config(c, chrome_path, master_profile_path, profile_storage_path) == c,
{
}

/// A new environment is found first by its id once it is added.
pub proof fn law_added_environment_found_first(envs: Seq<EnvironmentView>, e: EnvironmentView)
    ensures
        is_first_with_id(seq![e] + envs, e.id, 0),
{
}

/// After removal no environment has the removed id, every environment with
/// another id stays, and a list without the id is left as it is.
pub proof fn law_removed_environment_absent(envs: Seq<EnvironmentView>, id: Seq<char>)
    ensures
        !has_environment(envs.filter(keeps(id)), id),
        forall|j: int|
            0 <= j < envs.len() && envs[j].id != id ==> envs.filter(keeps(id)).contains(
                #[trigger] envs[j],
            ),
        !has_environment(envs, id) ==> envs.filter(keeps(id)) == envs,
{
    broadcast use vstd::seq_lib::group_seq_properties;

    let f = envs.filter(keeps(id));
    assert forall|j: int| 0 <= j < f.len() implies #[trigger] f[j].id != id by {
        assert(keeps(id)(f[j]));
    }
    assert forall|j: int| 0 <= j < envs.len() && envs[j].id != id implies f.contains(
        #[trigger] envs[j],
    ) by {
        assert(keeps(id)(envs[j]));
        assert(envs.contains(envs[j]));
    }
    if !has_environment(envs, id) {
        assert forall|j: int| 0 <= j < envs.len() implies keeps(id)(#[trigger] envs[j]) by {}
        envs.lemma_filter_len(keeps(id));
        lemma_filter_all(envs, keeps(id));
    }
}

proof fn lemma_filter_all(s: Seq<EnvironmentView>, p: spec_fn(EnvironmentView) -> bool)
    requires
        forall|j: int| 0 <= j < s.len() ==> p(#[trigger] s[j]),
    ensures
        s.filter(p) == s,
    decreases s.len(),
{
    reveal(Seq::filter);
    if s.len() > 0 {
        lemma_filter_all(s.drop_last(), p);
        assert(p(s.last()));
        assert(s.drop_last().push(s.last()) =~= s);
    }
}

/// An edit keeps an environment's id, profile directory, extensions and
/// creation time.
pub proof fn law_patch_keeps_identity(e: EnvironmentView, patch: EnvironmentPatch, now: Seq<char>)
    ensures
        patched_environment(e, patch, now).id == e.id,
        patched_environment(e, patch, now).profile_path == e.profile_path,
        patched_environment(e, patch, now).extension_paths == e.extension_paths,
        patched_environment(e, patch, now).created_at == e.created_at,
{
}

/// The edited environment stays where it was and is still found first by
/// its id.
pub proof fn law_patch_keeps_position(
    envs: Seq<EnvironmentView>,
    id: Seq<char>,
    i: int,
    patch: EnvironmentPatch,
    now: Seq<char>,
)
    requires
        is_first_with_id(envs, id, i),
    ensures
        is_first_with_id(envs.update(i, patched_environment(envs[i], patch, now)), id, i),
{
}

/// A safe directory name holds no reserved or control character, has no
/// whitespace at either end, and is as long as the trimmed name.
pub proof fn law_safe_name_clean(name: Seq<char>)
    ensures
        forall|i: int|
            0 <= i < safe_name(name).len() ==> !is_reserved_name_char(#[trigger] safe_name(name)[i])
                && !is_control(safe_name(name)[i]),
        is_trimmed(safe_name(name)),
        safe_name(name).len() == trimmed(name).len(),
{
    lemma_trimmed_shape(name);
    let t = trimmed(name);
    let s = safe_name(name);
    if s.len() > 0 {
        assert(s[0] == safe_char(t[0]));
        assert(s.last() == safe_char(t.last()));
        assert(!is_white_space(s[0]));
        assert(!is_white_space(s.last()));
    }
}

/// Making a safe name from a safe name changes nothing.
pub proof fn law_safe_name_idempotent(name: Seq<char>)
    ensures
        safe_name(safe_name(name)) == safe_name(name),
{
    law_safe_name_clean(name);
    let s = safe_name(name);
    lemma_trimmed_fixed(s);
    assert(trimmed(s).map_values(|c: char| safe_char(c)) =~= s);
}

/// Chrome is given the environment's directory exactly as stored, whatever
/// characters it holds, with the `Default` profile, no first-run page and no
/// default apps; the start page follows only when it is not blank. Distinct
/// directories give distinct first arguments.
pub proof fn law_launch_args_name_the_directory(
    profile_path: Seq<char>,
    other_path: Seq<char>,
    start_url: Seq<char>,
)
    ensures
        launch_args(profile_path, start_url)[0] == "--user-data-dir="@ + profile_path,
        launch_args(profile_path, start_url)[1] == "--profile-directory=Default"@,
        launch_args(profile_path, start_url)[2] == "--no-first-run"@,
        launch_args(profile_path, start_url)[3] == "--disable-default-apps"@,
        trimmed(start_url).len() == 0 ==> launch_args(profile_path, start_url).len() == 4,
        trimmed(start_url).len() > 0 ==> launch_args(profile_path, start_url).len() == 5
            && launch_args(profile_path, start_url)[4] == trimmed(start_url),
        profile_path != other_path ==> launch_args(profile_path, start_url)[0] != launch_args(
            other_path,
            start_url,
        )[0],
{
    let a = launch_args(profile_path, start_url)[0];
    let b = launch_args(other_path, start_url)[0];
    let prefix = "--user-data-dir="@;
    if profile_path != other_path && a == b {
        assert(a.subrange(prefix.len() as int, a.len() as int) =~= profile_path);
        assert(b.subrange(prefix.len() as int, b.len() as int) =~= other_path);
    }
}

/// An edit sets each field it gives to that text trimmed, a blank start
/// page included (which clears it), keeps each field it does not give,
/// and stamps the update time.
pub proof fn law_patch_sets_given_fields(e: EnvironmentView, patch: EnvironmentPatch, now: Seq<char>)
    ensures
        patch.start_url matches Some(u) ==> patched_environment(e, patch, now).start_url
            == trimmed(u@),
        patch.start_url is None ==> patched_environment(e, patch, now).start_url == e.start_url,
        patch.name matches Some(n) ==> patched_environment(e, patch, now).name == trimmed(n@),
        patch.name is None ==> patched_environment(e, patch, now).name == e.name,
        patched_environment(e, patch, now).updated_at == now,
{
}

/// A settings edit sets each setting it gives to that text trimmed and
/// keeps each setting it does not give.
pub proof fn law_config_patch_sets_given_settings(c: ConfigView, patch: ConfigPatch)
    ensures
        patch.chrome_path matches Some(v) ==> patched_config(c, patch).chrome_path == trimmed(
            v@,
        ),
        patch.chrome_path is None ==> patched_config(c, patch).chrome_path == c.chrome_path,
        patch.master_profile_path matches Some(v) ==> patched_config(c, patch).master_profile_path
            == trimmed(v@),
        patch.master_profile_path is None ==> patched_config(c, patch).master_profile_path
            == c.master_profile_path,
        patch.default_url matches Some(v) ==> patched_config(c, patch).default_url == trimmed(
            v@,
        ),
        patch.default_url is None ==> patched_config(c, patch).default_url == c.default_url,
        patch.profile_storage_path matches Some(v) ==> patched_config(c, patch).profile_storage_path
            == trimmed(v@),
        patch.profile_storage_path is None ==> patched_config(c, patch).profile_storage_path
            == c.profile_storage_path,
{
}

/// Chrome is looked for below every program directory that is set, one
/// place per directory, in the order `ProgramFiles`, `ProgramFiles(x86)`,
/// `LOCALAPPDATA`.
pub proof fn law_chrome_searched_below_every_set_directory(
    program_files: Option<String>,
    program_files_x86: Option<String>,
    local_app_data: Option<String>,
)
    ensures
        ({
            let dirs = set_dirs(program_files, program_files_x86, local_app_data);
            let a: int = if program_files is Some { 1 } else { 0 };
            let b: int = if program_files_x86 is Some { 1 } else { 0 };
            let c: int = if local_app_data is Some { 1 } else { 0 };
            &&& dirs.len() == a + b + c
            &&& program_files is Some ==> dirs[0] == program_files->0@
            &&& program_files_x86 is Some ==> dirs[a] == program_files_x86->0@
            &&& local_app_data is Some ==> dirs[a + b] == local_app_data->0@
        }),
{
}

/// Only Chrome's four lock files are runtime files; every other entry,
/// the cookie and login databases among them, is copied.
pub proof fn law_runtime_files_are_the_lock_files(name: Seq<char>)
    ensures
        is_runtime_file_name(name) <==> (name == "SingletonCookie"@ || name == "SingletonLock"@
            || name == "SingletonSocket"@ || name == "Lockfile"@),
{
}

} // verus!
