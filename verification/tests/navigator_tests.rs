use web_browser::js::navigator::{Navigator, APP_ENGINE, APP_NAME, APP_VERSION, BUILD_ID, DEFAULT_LOCALE};

#[test]
fn user_agent_is_name_version_engine() {
    assert_eq!(Navigator::get_user_agent(), "Leebra/0.1.0 LE");
    assert_eq!(
        Navigator::get_user_agent(),
        format!("{}/{} {}", APP_NAME, APP_VERSION, APP_ENGINE)
    );
}

#[test]
fn properties_with_system_locale() {
    let info = Navigator::properties(Some(String::from("fr-FR")), 8);
    assert_eq!(info.app_code_name, "Leebra");
    assert_eq!(info.app_name, "Leebra");
    assert_eq!(info.app_version, "0.1.0");
    assert!(!info.cookie_enabled);
    assert_eq!(info.hardware_concurrency, 8);
    assert_eq!(info.language, "fr-FR");
    assert_eq!(info.languages, vec![String::from("en_US"), String::from("en")]);
    assert_eq!(info.build_id, "(none)");
    assert_eq!(info.user_agent, "Leebra/0.1.0 LE");
}

#[test]
fn properties_fall_back_to_default_locale() {
    let info = Navigator::properties(None, 1);
    assert_eq!(info.language, DEFAULT_LOCALE);
    assert_eq!(info.language, "en_US");
    assert_eq!(BUILD_ID, "(none)");
}

#[test]
fn current_properties_have_a_processor() {
    let info = Navigator::current();
    assert!(info.hardware_concurrency >= 1);
    assert!(!info.language.is_empty());
    assert_eq!(info.user_agent, "Leebra/0.1.0 LE");
}
