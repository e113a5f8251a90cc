use echo_core::active_app::{
    activate_app_by_bundle_id, get_frontmost_app, get_last_notification_source_app, ActiveAppInfo,
    AppCategory,
};

#[test]
fn test_app_category_from_bundle_id() {
    assert_eq!(
        AppCategory::from_bundle_id("com.apple.mail"),
        AppCategory::Email
    );
    assert_eq!(
        AppCategory::from_bundle_id("notion.id"),
        AppCategory::Markdown
    );
    assert_eq!(
        AppCategory::from_bundle_id("com.microsoft.VSCode"),
        AppCategory::CodeEditor
    );
    assert_eq!(
        AppCategory::from_bundle_id("com.apple.Terminal"),
        AppCategory::Terminal
    );
    assert_eq!(
        AppCategory::from_bundle_id("com.unknown.app"),
        AppCategory::Default
    );
}

#[test]
fn every_known_bundle_id_has_its_category() {
    for id in ["com.apple.mail", "com.microsoft.Outlook", "com.readdle.smartemail-Mac", "com.google.Chrome"] {
        assert_eq!(AppCategory::from_bundle_id(id), AppCategory::Email);
    }
    for id in ["notion.id", "md.obsidian", "com.electron.logseq", "abnerworks.Typora", "com.bear-writer.bear", "com.ulyssesapp.mac"] {
        assert_eq!(AppCategory::from_bundle_id(id), AppCategory::Markdown);
    }
    for id in ["com.microsoft.VSCode", "com.apple.dt.Xcode", "com.jetbrains.intellij", "com.sublimetext.4", "com.github.atom", "com.panic.Nova"] {
        assert_eq!(AppCategory::from_bundle_id(id), AppCategory::CodeEditor);
    }
    for id in ["com.apple.Terminal", "com.googlecode.iterm2", "dev.warp.Warp-Stable", "com.mitchellh.ghostty"] {
        assert_eq!(AppCategory::from_bundle_id(id), AppCategory::Terminal);
    }
    // Bundle identifiers are compared letter for letter.
    assert_eq!(AppCategory::from_bundle_id("com.apple.Mail"), AppCategory::Default);
    assert_eq!(AppCategory::from_bundle_id(""), AppCategory::Default);
    assert_eq!(AppCategory::from_bundle_id("com.apple.mail "), AppCategory::Default);
}

#[test]
fn category_of_an_application_goes_by_its_bundle_id() {
    let mail = ActiveAppInfo {
        bundle_id: Some("com.apple.mail".to_string()),
        app_name: Some("Mail".to_string()),
    };
    assert_eq!(mail.category(), AppCategory::Email);
    let nameless = ActiveAppInfo { bundle_id: None, app_name: Some("Terminal".to_string()) };
    assert_eq!(nameless.category(), AppCategory::Default);
    assert_eq!(ActiveAppInfo::default().category(), AppCategory::Default);
}

#[test]
fn nothing_is_known_without_a_platform_probe() {
    let app = get_frontmost_app();
    assert!(app.bundle_id.is_none());
    assert!(app.app_name.is_none());
    assert!(!activate_app_by_bundle_id("com.apple.mail"));
    assert!(get_last_notification_source_app().is_none());
}
