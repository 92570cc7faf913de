//! The environment list: lookup by id, creation, edits and removal.
use vstd::prelude::*;

use crate::model::{
    Config, ConfigError, ConfigView, Environment, EnvironmentPatch, EnvironmentView,
    environments_view, texts_view,
};
use crate::naming::{environment_id, environment_id_text};
use crate::text::{trim_string, trim_text, trimmed};

verus! {

/// Some environment in `envs` has the id `id`.
pub open spec fn has_environment(envs: Seq<EnvironmentView>, id: Seq<char>) -> bool {
    exists|j: int| 0 <= j < envs.len() && #[trigger] envs[j].id == id
}

/// `i` is the position of the first environment with the id `id`.
pub open spec fn is_first_with_id(envs: Seq<EnvironmentView>, id: Seq<char>, i: int) -> bool {
    &&& 0 <= i < envs.len()
    &&& envs[i].id == id
    &&& forall|j: int| 0 <= j < i ==> #[trigger] envs[j].id != id
}

/// The error for an id that no environment has.
pub open spec fn is_not_found(e: ConfigError, id: Seq<char>) -> bool {
    e matches ConfigError::EnvironmentNotFound(x) && x@ == id
}

/// The position of the environment with the id `id`; the first one if
/// several share it.
pub fn find_environment_index(config: &Config, id: &str) -> (r: Result<usize, ConfigError>)
    ensures
        match r {
            Ok(i) => is_first_with_id(config@.environments, id@, i as int),
            Err(e) => !has_environment(config@.environments, id@) && is_not_found(e, id@),
        },
{
    let wanted = String::from_str(id);
    let n = config.environments.len();
    let mut i: usize = 0;
    while i < n
        invariant
            i <= n == config.environments.len(),
            wanted@ == id@,
            forall|j: int| 0 <= j < i ==> #[trigger] config@.environments[j].id != id@,
        decreases n - i,
    {
        if config.environments[i].id == wanted {
            return Ok(i);
        }
        i = i + 1;
    }
    Err(ConfigError::EnvironmentNotFound(wanted))
}

/// A new environment's name: the trimmed name, refused when blank.
pub fn prepare_environment_name(name: &str) -> (r: Result<String, ConfigError>)
    ensures
        match r {
            Ok(n) => trimmed(name@).len() > 0 && n@ == trimmed(name@),
            Err(e) => trimmed(name@).len() == 0 && e == ConfigError::EmptyEnvironmentName,
        },
{
    let n = trim_text(name);
    if n.as_str().is_empty() {
        Err(ConfigError::EmptyEnvironmentName)
    } else {
        Ok(n)
    }
}

/// The record of a new environment: its id from the creation time and the
/// list's length, the given start page or else the default one (trimmed),
/// no extensions, and `now` as creation and update time.
pub open spec fn new_environment_view(
    c: ConfigView,
    name: Seq<char>,
    profile_path: Seq<char>,
    start_url: Option<Seq<char>>,
    millis: nat,
    now: Seq<char>,
) -> EnvironmentView {
    EnvironmentView {
        id: environment_id_text(millis, c.environments.len() + 1),
        name: name,
        profile_path: profile_path,
        start_url: match start_url {
            Some(u) => trimmed(u),
            None => trimmed(c.default_url),
        },
        extension_paths: Seq::empty(),
        created_at: now,
        updated_at: now,
    }
}

pub open spec fn option_view(o: Option<String>) -> Option<Seq<char>> {
    match o {
        Some(s) => Some(s@),
        None => None,
    }
}

/// The record of a new environment (see `new_environment_view`).
pub fn new_environment(
    config: &Config,
    name: String,
    profile_path: String,
    start_url: Option<String>,
    millis: u128,
    now: String,
) -> (e: Environment)
    ensures
        e@ == new_environment_view(config@, name@, profile_path@, option_view(start_url), millis as nat, now@),
{
    let id = environment_id(millis, config.environments.len());
    let url = match &start_url {
        Some(u) => trim_string(u),
        None => trim_string(&config.default_url),
    };
    let created_at = now.clone();
    let e = Environment {
        id,
        name,
        profile_path,
        start_url: url,
        extension_paths: Vec::new(),
        created_at,
        updated_at: now,
    };
    assert(texts_view(e.extension_paths@) =~= Seq::empty());
    e
}

/// Puts a new environment at the head of the list.
pub fn add_environment(config: &mut Config, environment: Environment)
    ensures
        final(config)@.environments == seq![environment@] + old(config)@.environments,
        final(config)@.chrome_path == old(config)@.chrome_path,
        final(config)@.master_profile_path == old(config)@.master_profile_path,
        final(config)@.default_url == old(config)@.default_url,
        final(config)@.profile_storage_path == old(config)@.profile_storage_path,
{
    let ghost e = environment@;
    config.environments.insert(0, environment);
    assert(environments_view(config.environments@) =~= seq![e] + old(config)@.environments);
}

/// An environment after `patch`: a given name or start page, trimmed,
/// replaces its field, and `now` becomes the update time.
pub open spec fn patched_environment(
    e: EnvironmentView,
    patch: EnvironmentPatch,
    now: Seq<char>,
) -> EnvironmentView {
    EnvironmentView {
        name: match patch.name {
            Some(n) => trimmed(n@),
            None => e.name,
        },
        start_url: match patch.start_url {
            Some(u) => trimmed(u@),
            None => e.start_url,
        },
        updated_at: now,
        ..e
    }
}

/// The patch gives a name that is blank once trimmed.
pub open spec fn patch_blanks_name(patch: EnvironmentPatch) -> bool {
    patch.name matches Some(n) && trimmed(n@).len() == 0
}

/// Applies an edit to the environment with the id `id` (the first one if
/// several share it) and returns the edited record. An unknown id or a
/// blank new name is refused and leaves the list as it was.
pub fn apply_environment_patch(
    config: &mut Config,
    id: &str,
    patch: &EnvironmentPatch,
    now: String,
) -> (r: Result<Environment, ConfigError>)
    ensures
        !has_environment(old(config)@.environments, id@) ==> (r matches Err(e) && is_not_found(
            e,
            id@,
        )),
        has_environment(old(config)@.environments, id@) && patch_blanks_name(*patch) ==> r
            == Err::<Environment, ConfigError>(ConfigError::EmptyEnvironmentName),
        has_environment(old(config)@.environments, id@) && !patch_blanks_name(*patch) ==> r is Ok,
        r is Err ==> final(config)@ == old(config)@,
        patch.start_url matches Some(u) ==> (r matches Ok(e) ==> e@.start_url == trimmed(u@)),
        patch.start_url is None ==> (r matches Ok(e) ==> exists|i: int|
            is_first_with_id(old(config)@.environments, id@, i) && e@.start_url == old(
                config,
            )@.environments[i].start_url),
        patch.name matches Some(n) ==> (r matches Ok(e) ==> e@.name == trimmed(n@)),
        r matches Ok(e) ==> e@.updated_at == now@ && e@.id == id@,
        r matches Ok(e) ==> exists|i: int|
            {
                &&& is_first_with_id(old(config)@.environments, id@, i)
                &&& !patch_blanks_name(*patch)
                &&& e@ == patched_environment(old(config)@.environments[i], *patch, now@)
                &&& final(config)@ == ConfigView {
                    environments: old(config)@.environments.update(i, e@),
                    ..old(config)@
                }
            },
{
    let index = match find_environment_index(config, id) {
        Ok(i) => i,
        Err(e) => {
            return Err(e);
        },
    };
    let mut environment = config.environments[index].clone();
    match &patch.name {
        Some(n) => {
            let next_name = trim_string(n);
            if next_name.as_str().is_empty() {
                return Err(ConfigError::EmptyEnvironmentName);
            }
            environment.name = next_name;
        },
        None => {},
    }
    match &patch.start_url {
        Some(u) => {
            environment.start_url = trim_string(u);
        },
        None => {},
    }
    environment.updated_at = now;
    let stored = environment.clone();
    config.environments.set(index, stored);
    assert(environments_view(config.environments@) =~= old(config)@.environments.update(
        index as int,
        environment@,
    ));
    Ok(environment)
}

/// The environment does not have the id `id`.
pub open spec fn keeps(id: Seq<char>) -> spec_fn(EnvironmentView) -> bool {
    |e: EnvironmentView| e.id != id
}

/// Removes every environment with the id `id`; the others keep their
/// order, and the settings stay.
pub fn remove_environment(config: &mut Config, id: &str)
    ensures
        final(config)@.environments == old(config)@.environments.filter(keeps(id@)),
        final(config)@.chrome_path == old(config)@.chrome_path,
        final(config)@.master_profile_path == old(config)@.master_profile_path,
        final(config)@.default_url == old(config)@.default_url,
        final(config)@.profile_storage_path == old(config)@.profile_storage_path,
{
    broadcast use vstd::seq_lib::group_seq_properties;

    let wanted = String::from_str(id);
    let ghost all = old(config)@.environments;
    let mut kept: Vec<Environment> = Vec::new();
    let n = config.environments.len();
    let mut i: usize = 0;
    assert(all.take(0) =~= Seq::<EnvironmentView>::empty());
    while i < n
        invariant
            i <= n == config.environments.len(),
            all == environments_view(config.environments@),
            wanted@ == id@,
            environments_view(kept@) == all.take(i as int).filter(keeps(id@)),
        decreases n - i,
    {
        let ghost before = kept@;
        assert(all.take(i as int + 1) =~= all.take(i as int).push(all[i as int]));
        proof {
            all.take(i as int).lemma_filter_push(all[i as int], keeps(id@));
        }
        if config.environments[i].id != wanted {
            let e = config.environments[i].clone();
            kept.push(e);
            assert(environments_view(kept@) =~= environments_view(before).push(all[i as int]));
        }
        i = i + 1;
    }
    assert(all.take(n as int) =~= all);
    config.environments = kept;
}

} // verus!
