//! The data the manager keeps: environments, the global settings, the
//! edits that the user interface sends, and the errors it answers with.
use vstd::prelude::*;

use crate::text::concat_text;

verus! {

/// One isolated Chrome workspace: its own `User Data` directory and the
/// page it opens at.
#[derive(Debug)]
pub struct Environment {
    pub id: String,
    pub name: String,
    pub profile_path: String,
    pub start_url: String,
    pub extension_paths: Vec<String>,
    pub created_at: String,
    pub updated_at: String,
}

/// An environment as mathematical text.
pub struct EnvironmentView {
    pub id: Seq<char>,
    pub name: Seq<char>,
    pub profile_path: Seq<char>,
    pub start_url: Seq<char>,
    pub extension_paths: Seq<Seq<char>>,
    pub created_at: Seq<char>,
    pub updated_at: Seq<char>,
}

pub open spec fn texts_view(v: Seq<String>) -> Seq<Seq<char>> {
    v.map_values(|s: String| s@)
}

impl View for Environment {
    type V = EnvironmentView;

    open spec fn view(&self) -> EnvironmentView {
        EnvironmentView {
            id: self.id@,
            name: self.name@,
            profile_path: self.profile_path@,
            start_url: self.start_url@,
            extension_paths: texts_view(self.extension_paths@),
            created_at: self.created_at@,
            updated_at: self.updated_at@,
        }
    }
}

impl Clone for Environment {
    fn clone(&self) -> (r: Self)
        ensures
            r@ == self@,
    {
        let paths = self.extension_paths.clone();
        assert(paths@ =~= self.extension_paths@);
        Environment {
            id: self.id.clone(),
            name: self.name.clone(),
            profile_path: self.profile_path.clone(),
            start_url: self.start_url.clone(),
            extension_paths: paths,
            created_at: self.created_at.clone(),
            updated_at: self.updated_at.clone(),
        }
    }
}

/// The global settings and the list of environments, newest first.
#[derive(Debug)]
pub struct Config {
    pub chrome_path: String,
    pub master_profile_path: String,
    pub default_url: String,
    pub profile_storage_path: String,
    pub environments: Vec<Environment>,
}

pub struct ConfigView {
    pub chrome_path: Seq<char>,
    pub master_profile_path: Seq<char>,
    pub default_url: Seq<char>,
    pub profile_storage_path: Seq<char>,
    pub environments: Seq<EnvironmentView>,
}

pub open spec fn environments_view(v: Seq<Environment>) -> Seq<EnvironmentView> {
    v.map_values(|e: Environment| e@)
}

impl View for Config {
    type V = ConfigView;

    open spec fn view(&self) -> ConfigView {
        ConfigView {
            chrome_path: self.chrome_path@,
            master_profile_path: self.master_profile_path@,
            default_url: self.default_url@,
            profile_storage_path: self.profile_storage_path@,
            environments: environments_view(self.environments@),
        }
    }
}

/// Global settings to change; a `None` field is left as it is.
#[derive(Debug)]
pub struct ConfigPatch {
    pub chrome_path: Option<String>,
    pub master_profile_path: Option<String>,
    pub default_url: Option<String>,
    pub profile_storage_path: Option<String>,
}

/// What the user gives when creating an environment.
#[derive(Debug)]
pub struct CreateEnvironmentPayload {
    pub name: String,
    pub start_url: Option<String>,
    pub copy_master: bool,
}

/// Fields of one environment to change; a `None` field is left as it is.
#[derive(Debug)]
pub struct EnvironmentPatch {
    pub name: Option<String>,
    pub start_url: Option<String>,
}

/// The refusals the manager answers a request with.
#[derive(Debug, PartialEq, Eq)]
pub enum ConfigError {
    /// The environment name is blank.
    EmptyEnvironmentName,
    /// No environment has the given id.
    EnvironmentNotFound(String),
    /// The template profile directory does not exist.
    MasterProfileMissing,
    /// The configured Chrome executable is not a file.
    InvalidChromePath,
    /// The profile to delete lies outside every managed root.
    UnmanagedProfilePath,
    /// The profile to delete could not be resolved.
    ProfileTargetUnreadable { path: String, detail: String },
    /// A managed root could not be resolved.
    ProfileRootUnreadable { path: String, detail: String },
}

pub open spec fn empty_name_message() -> Seq<char> {
    "环境名称不能为空"@
}

pub open spec fn not_found_message(id: Seq<char>) -> Seq<char> {
    "未找到环境："@ + id
}

pub open spec fn master_missing_message() -> Seq<char> {
    "母版 profile 目录不存在，请先在全局设置中选择有效目录"@
}

pub open spec fn invalid_chrome_message() -> Seq<char> {
    "Chrome 程序路径无效，请在全局设置中选择 chrome.exe"@
}

pub open spec fn unmanaged_message() -> Seq<char> {
    "出于安全限制，只允许删除本工具创建的 profile 目录"@
}

pub open spec fn target_unreadable_message(path: Seq<char>, detail: Seq<char>) -> Seq<char> {
    "读取待删除 profile 目录失败："@ + detail + "，路径："@ + path
}

pub open spec fn root_unreadable_message(path: Seq<char>, detail: Seq<char>) -> Seq<char> {
    "读取环境根目录失败："@ + detail + "，路径："@ + path
}

impl ConfigError {
    /// The text shown to the user.
    pub open spec fn spec_message(&self) -> Seq<char> {
        match self {
            ConfigError::EmptyEnvironmentName => empty_name_message(),
            ConfigError::EnvironmentNotFound(id) => not_found_message(id@),
            ConfigError::MasterProfileMissing => master_missing_message(),
            ConfigError::InvalidChromePath => invalid_chrome_message(),
            ConfigError::UnmanagedProfilePath => unmanaged_message(),
            ConfigError::ProfileTargetUnreadable { path, detail } => target_unreadable_message(
                path@,
                detail@,
            ),
            ConfigError::ProfileRootUnreadable { path, detail } => root_unreadable_message(
                path@,
                detail@,
            ),
        }
    }

    /// The text shown to the user.
    pub fn message(&self) -> (r: String)
        ensures
            r@ == self.spec_message(),
    {
        match self {
            ConfigError::EmptyEnvironmentName => String::from_str("环境名称不能为空"),
            ConfigError::EnvironmentNotFound(id) => concat_text("未找到环境：", id.as_str()),
            ConfigError::MasterProfileMissing => String::from_str(
                "母版 profile 目录不存在，请先在全局设置中选择有效目录",
            ),
            ConfigError::InvalidChromePath => String::from_str(
                "Chrome 程序路径无效，请在全局设置中选择 chrome.exe",
            ),
            ConfigError::UnmanagedProfilePath => String::from_str(
                "出于安全限制，只允许删除本工具创建的 profile 目录",
            ),
            ConfigError::ProfileTargetUnreadable { path, detail } => {
                let mut r = String::from_str("读取待删除 profile 目录失败：");
                r.append(detail.as_str());
                r.append("，路径：");
                r.append(path.as_str());
                r
            },
            ConfigError::ProfileRootUnreadable { path, detail } => {
                let mut r = String::from_str("读取环境根目录失败：");
                r.append(detail.as_str());
                r.append("，路径：");
                r.append(path.as_str());
                r
            },
        }
    }
}

} // verus!
