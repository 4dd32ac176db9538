use antigravity_agent::config::config_file_path;
use antigravity_agent::config::load_agent_config;
use antigravity_agent::config::load_persisted_antigravity_path;
use antigravity_agent::config::persist_antigravity_path;
use antigravity_agent::config::persist_path_checked;
use antigravity_agent::OsKind;

#[test]
fn persist_then_load_round_trips_the_path() {
    let new_text = persist_path_checked(
        OsKind::Windows,
        "C:\\Users\\u\\AppData\\Local\\Programs\\Antigravity\\Antigravity.exe",
        true,
        None,
    )
    .expect("a valid path persists")
    .expect("persisting on Windows writes the config");
    let config = load_agent_config(Some(&new_text));
    assert_eq!(
        config.antigravity_path().as_deref(),
        Some("C:\\Users\\u\\AppData\\Local\\Programs\\Antigravity\\Antigravity.exe"),
    );
}

#[test]
fn persist_preserves_other_fields() {
    let current = "{\"theme\": \"dark\", \"retries\": 3, \"antigravityPath\": \"C:\\\\old.exe\"}";
    let new_text = persist_path_checked(OsKind::Windows, "C:\\new\\Antigravity.exe", true, Some(current))
        .expect("a valid path persists")
        .expect("persisting on Windows writes the config");

    let config = load_agent_config(Some(&new_text));
    assert_eq!(config.antigravity_path().as_deref(), Some("C:\\new\\Antigravity.exe"));

    let reparsed: serde_json::Value = serde_json::from_str(&new_text).expect("written text is JSON");
    assert_eq!(reparsed.get("theme").and_then(|v| v.as_str()), Some("dark"));
    assert_eq!(reparsed.get("retries").and_then(|v| v.as_i64()), Some(3));
    assert_eq!(
        reparsed.get("antigravityPath").and_then(|v| v.as_str()),
        Some("C:\\new\\Antigravity.exe"),
    );
}

#[test]
fn persist_rejects_invalid_path_and_writes_nothing() {
    let r = persist_path_checked(OsKind::Windows, "C:\\missing.exe", false, Some("{\"a\": 1}"));
    assert_eq!(r, Err(String::from("invalid Antigravity executable path")));
}

#[test]
fn persist_probes_the_file_system() {
    let r = persist_antigravity_path(OsKind::Windows, "/definitely/not/a/file.exe", None);
    assert_eq!(r, Err(String::from("invalid Antigravity executable path")));
}

#[test]
fn persist_is_a_successful_no_op_off_windows() {
    assert_eq!(persist_antigravity_path(OsKind::Linux, "/anything", None), Ok(None));
    assert_eq!(persist_antigravity_path(OsKind::Macos, "/anything", None), Ok(None));
    assert_eq!(persist_antigravity_path(OsKind::Other, "/anything", None), Ok(None));
    assert_eq!(persist_path_checked(OsKind::Linux, "/anything", false, None), Ok(None));
}

#[test]
fn corrupt_or_absent_config_loads_as_empty() {
    assert_eq!(load_agent_config(None).antigravity_path(), None);
    assert_eq!(load_agent_config(Some("not json at all")).antigravity_path(), None);
    assert_eq!(load_agent_config(Some("[1, 2, 3]")).antigravity_path(), None);
    assert_eq!(load_agent_config(Some("{\"antigravityPath\": 5}")).antigravity_path(), None);
    assert_eq!(load_agent_config(Some("{\"antigravityPath\": null}")).antigravity_path(), None);
}

#[test]
fn load_persisted_requires_windows_and_a_real_file() {
    let text = "{\"antigravityPath\": \"/definitely/not/a/file.exe\"}";
    assert_eq!(load_persisted_antigravity_path(OsKind::Windows, Some(text)), None);
    assert_eq!(load_persisted_antigravity_path(OsKind::Linux, Some(text)), None);
    assert_eq!(load_persisted_antigravity_path(OsKind::Windows, None), None);
}

#[test]
fn config_file_path_under_the_config_dir() {
    let path = config_file_path(OsKind::Linux, &Some(String::from("/home/u/.config")));
    assert_eq!(path, "/home/u/.config/antigravity-agent/config.json");
    let path = config_file_path(OsKind::Linux, &None);
    assert_eq!(path, "./antigravity-agent/config.json");
}
