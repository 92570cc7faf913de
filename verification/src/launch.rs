//! Starting Chrome for an environment and opening paths for the user.
use vstd::prelude::*;

use crate::model::ConfigError;
use crate::model::texts_view;
use crate::paths::PathKind;
use crate::text::{concat_text, is_blank, trim_text, trimmed};

verus! {

/// The command line of Chrome for an environment: its own `User Data`
/// directory, the `Default` profile in it, no first-run page and no
/// default apps, and then the trimmed start page unless it is blank.
pub open spec fn launch_args(profile_path: Seq<char>, start_url: Seq<char>) -> Seq<Seq<char>> {
    let fixed = seq![
        "--user-data-dir="@ + profile_path,
        "--profile-directory=Default"@,
        "--no-first-run"@,
        "--disable-default-apps"@,
    ];
    if trimmed(start_url).len() == 0 {
        fixed
    } else {
        fixed.push(trimmed(start_url))
    }
}

/// The arguments Chrome is started with for an environment.
pub fn chrome_launch_args(profile_path: &str, start_url: &str) -> (r: Vec<String>)
    ensures
        texts_view(r@) == launch_args(profile_path@, start_url@),
        r@.len() == 4 || r@.len() == 5,
        r@[0]@ == "--user-data-dir="@ + profile_path@,
        r@[1]@ == "--profile-directory=Default"@,
        r@[2]@ == "--no-first-run"@,
        r@[3]@ == "--disable-default-apps"@,
        r@.len() == 5 <==> trimmed(start_url@).len() > 0,
        r@.len() == 5 ==> r@[4]@ == trimmed(start_url@),
{
    let mut args: Vec<String> = Vec::new();
    args.push(concat_text("--user-data-dir=", profile_path));
    args.push(String::from_str("--profile-directory=Default"));
    args.push(String::from_str("--no-first-run"));
    args.push(String::from_str("--disable-default-apps"));
    let url = trim_text(start_url);
    if !url.as_str().is_empty() {
        args.push(url);
    }
    assert(texts_view(args@) =~= launch_args(profile_path@, start_url@));
    args
}

/// Chrome can be started only from a configured path that is a file.
pub fn check_chrome_executable(kind: PathKind) -> (r: Result<(), ConfigError>)
    ensures
        kind == PathKind::File ==> r is Ok,
        kind != PathKind::File ==> r == Err::<(), ConfigError>(ConfigError::InvalidChromePath),
{
    if kind == PathKind::File {
        Ok(())
    } else {
        Err(ConfigError::InvalidChromePath)
    }
}

/// A path is handed to the file manager only when it is not blank.
pub fn should_open_path(target_path: &str) -> (r: bool)
    ensures
        r == (trimmed(target_path@).len() > 0),
{
    !is_blank(target_path)
}

/// The title of the directory picker: the one asked for, else a generic
/// one.
pub fn directory_dialog_title(title: Option<String>) -> (r: String)
    ensures
        title matches Some(t) ==> r@ == t@,
        title is None ==> r@ == "选择目录"@,
{
    match title {
        Some(t) => t,
        None => String::from_str("选择目录"),
    }
}

} // verus!
