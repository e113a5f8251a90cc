//! The frontmost application and the kind of application it is.

use vstd::prelude::*;
use crate::text::str_eq;

verus! {

/// What is known about the application in front.
#[derive(Debug)]
pub struct ActiveAppInfo {
    /// Bundle identifier, such as `com.apple.mail`.
    pub bundle_id: Option<String>,
    /// Name of the application, such as `Mail`.
    pub app_name: Option<String>,
}

impl Default for ActiveAppInfo {
    /// Nothing is known.
    fn default() -> (r: Self)
        ensures
            r.bundle_id is None,
            r.app_name is None,
    {
        ActiveAppInfo { bundle_id: None, app_name: None }
    }
}

/// Kinds of applications that text is written for.
#[derive(Debug, Clone, Copy, PartialEq, Eq, Structural)]
pub enum AppCategory {
    /// Mail programs.
    Email,
    /// Note taking with Markdown.
    Markdown,
    /// Code editors.
    CodeEditor,
    /// Terminals.
    Terminal,
    /// Everything else.
    Default,
}

/// Bundle identifiers of mail programs.
pub open spec fn is_email_app(id: Seq<char>) -> bool {
    id == "com.apple.mail"@ || id == "com.microsoft.Outlook"@ || id == "com.readdle.smartemail-Mac"@
        || id == "com.google.Chrome"@
}

/// Bundle identifiers of note-taking programs.
pub open spec fn is_markdown_app(id: Seq<char>) -> bool {
    id == "notion.id"@ || id == "md.obsidian"@ || id == "com.electron.logseq"@ || id
        == "abnerworks.Typora"@ || id == "com.bear-writer.bear"@ || id == "com.ulyssesapp.mac"@
}

/// Bundle identifiers of code editors.
pub open spec fn is_code_editor(id: Seq<char>) -> bool {
    id == "com.microsoft.VSCode"@ || id == "com.apple.dt.Xcode"@ || id == "com.jetbrains.intellij"@
        || id == "com.sublimetext.4"@ || id == "com.github.atom"@ || id == "com.panic.Nova"@
}

/// Bundle identifiers of terminals.
pub open spec fn is_terminal(id: Seq<char>) -> bool {
    id == "com.apple.Terminal"@ || id == "com.googlecode.iterm2"@ || id == "dev.warp.Warp-Stable"@
        || id == "com.mitchellh.ghostty"@
}

/// The kind of the application with the given bundle identifier.
pub open spec fn category_of(id: Seq<char>) -> AppCategory {
    if is_email_app(id) {
        AppCategory::Email
    } else if is_markdown_app(id) {
        AppCategory::Markdown
    } else if is_code_editor(id) {
        AppCategory::CodeEditor
    } else if is_terminal(id) {
        AppCategory::Terminal
    } else {
        AppCategory::Default
    }
}

impl AppCategory {
    /// The kind of the application with the given bundle identifier.
    pub fn from_bundle_id(bundle_id: &str) -> (r: AppCategory)
        ensures
            r == category_of(bundle_id@),
    {
        if str_eq(bundle_id, "com.apple.mail") || str_eq(bundle_id, "com.microsoft.Outlook")
            || str_eq(bundle_id, "com.readdle.smartemail-Mac") || str_eq(
            bundle_id,
            "com.google.Chrome",
        ) {
            AppCategory::Email
        } else if str_eq(bundle_id, "notion.id") || str_eq(bundle_id, "md.obsidian") || str_eq(
            bundle_id,
            "com.electron.logseq",
        ) || str_eq(bundle_id, "abnerworks.Typora") || str_eq(bundle_id, "com.bear-writer.bear")
            || str_eq(bundle_id, "com.ulyssesapp.mac") {
            AppCategory::Markdown
        } else if str_eq(bundle_id, "com.microsoft.VSCode") || str_eq(bundle_id, "com.apple.dt.Xcode")
            || str_eq(bundle_id, "com.jetbrains.intellij") || str_eq(bundle_id, "com.sublimetext.4")
            || str_eq(bundle_id, "com.github.atom") || str_eq(bundle_id, "com.panic.Nova") {
            AppCategory::CodeEditor
        } else if str_eq(bundle_id, "com.apple.Terminal") || str_eq(bundle_id, "com.googlecode.iterm2")
            || str_eq(bundle_id, "dev.warp.Warp-Stable") || str_eq(
            bundle_id,
            "com.mitchellh.ghostty",
        ) {
            AppCategory::Terminal
        } else {
            AppCategory::Default
        }
    }
}

impl ActiveAppInfo {
    /// The kind of this application; `Default` where the bundle identifier
    /// is not known.
    pub open spec fn category_spec(self) -> AppCategory {
        match self.bundle_id {
            Some(id) => category_of(id@),
            None => AppCategory::Default,
        }
    }

    /// The kind of this application; `Default` where the bundle identifier
    /// is not known.
    pub fn category(&self) -> (r: AppCategory)
        ensures
            r == self.category_spec(),
    {
        match &self.bundle_id {
            Some(id) => AppCategory::from_bundle_id(id.as_str()),
            None => AppCategory::Default,
        }
    }
}

/// What is known about the frontmost application where the platform offers
/// no way to ask: nothing.
pub fn get_frontmost_app() -> (r: ActiveAppInfo)
    ensures
        r.bundle_id is None,
        r.app_name is None,
{
    ActiveAppInfo::default()
}

/// Brings the application with the given bundle identifier to the front
/// and says whether that worked. Where the platform offers no way to do so
/// it never works.
pub fn activate_app_by_bundle_id(bundle_id: &str) -> (activated: bool)
    ensures
        !activated,
{
    false
}

/// The application that sent the latest notification, where the platform
/// keeps no record of notifications: none.
pub fn get_last_notification_source_app() -> (r: Option<String>)
    ensures
        r is None,
{
    None
}

} // verus!
