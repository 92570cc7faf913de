# chrome_profile_manage

A desktop manager of isolated Chrome workspaces. Each workspace is its own
Chrome `User Data` directory; Chrome is started with `--user-data-dir` and
`--profile-directory=Default`, and a template profile can be copied into a
workspace's `Default` profile.

`src/` is the library, written in Verus and verified: text handling
(`text`), the data model (`model`), the global settings (`settings`),
directory and id naming (`naming`), the environment list (`environments`),
path decisions (`paths`), the Chrome command line (`launch`), the clock
(`clock`), and properties that hold across operations (`laws`).

`app/` is the Tauri program around it: file system access, the settings
file (serde), dialogs, and starting processes. It hands the library what it
finds on disk and acts on the library's answers.
