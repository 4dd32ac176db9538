use antigravity_agent::paths::find_antigravity_installations;
use antigravity_agent::paths::get_all_antigravity_db_paths;
use antigravity_agent::paths::get_antigravity_data_dir;
use antigravity_agent::paths::get_antigravity_db_path;
use antigravity_agent::paths::get_antigravity_windows_paths;
use antigravity_agent::paths::installation_valid_checked;
use antigravity_agent::paths::validate_antigravity_path;
use antigravity_agent::paths::DirEntry;
use antigravity_agent::paths::DirListing;
use antigravity_agent::os_kind_of_name;
use antigravity_agent::OsKind;

#[test]
fn os_kind_mapping() {
    assert_eq!(os_kind_of_name("windows"), OsKind::Windows);
    assert_eq!(os_kind_of_name("macos"), OsKind::Macos);
    assert_eq!(os_kind_of_name("linux"), OsKind::Linux);
    assert_eq!(os_kind_of_name("freebsd"), OsKind::Other);
    assert_eq!(os_kind_of_name(""), OsKind::Other);
}

#[test]
fn linux_prefers_config_dir() {
    let config = Some(String::from("/home/u/.config"));
    let data = None;
    let dir = get_antigravity_data_dir(OsKind::Linux, &config, &data);
    assert_eq!(dir.as_deref(), Some("/home/u/.config/Antigravity/User/globalStorage"));
}

#[test]
fn linux_falls_back_to_data_dir_only_without_config_dir() {
    let config = Some(String::from("/home/u/.config"));
    let data = Some(String::from("/home/u/.local/share"));
    let dir = get_antigravity_data_dir(OsKind::Linux, &config, &data);
    assert_eq!(dir.as_deref(), Some("/home/u/.config/Antigravity/User/globalStorage"));

    let dir = get_antigravity_data_dir(OsKind::Linux, &None, &data);
    assert_eq!(dir.as_deref(), Some("/home/u/.local/share/Antigravity/User/globalStorage"));

    let dir = get_antigravity_data_dir(OsKind::Linux, &None, &None);
    assert_eq!(dir, None);
}

#[test]
fn windows_data_dir_uses_config_dir() {
    let config = Some(String::from("C:\\Users\\u\\AppData\\Roaming"));
    let data = Some(String::from("C:\\Users\\u\\AppData\\Local"));
    let dir = get_antigravity_data_dir(OsKind::Windows, &config, &data);
    assert_eq!(
        dir.as_deref(),
        Some("C:\\Users\\u\\AppData\\Roaming\\Antigravity\\User\\globalStorage"),
    );
    assert_eq!(get_antigravity_data_dir(OsKind::Windows, &None, &data), None);
}

#[test]
fn macos_data_dir_uses_data_dir() {
    let config = Some(String::from("/Users/u/Library/Preferences"));
    let data = Some(String::from("/Users/u/Library/Application Support"));
    let dir = get_antigravity_data_dir(OsKind::Macos, &config, &data);
    assert_eq!(
        dir.as_deref(),
        Some("/Users/u/Library/Application Support/Antigravity/User/globalStorage"),
    );
    assert_eq!(get_antigravity_data_dir(OsKind::Macos, &config, &None), None);
}

#[test]
fn db_path_is_data_dir_joined_with_db_file() {
    let config = Some(String::from("/home/u/.config"));
    let db = get_antigravity_db_path(OsKind::Linux, &config, &None);
    assert_eq!(
        db.as_deref(),
        Some("/home/u/.config/Antigravity/User/globalStorage/state.vscdb"),
    );
    assert_eq!(get_antigravity_db_path(OsKind::Linux, &None, &None), None);
    assert_eq!(get_antigravity_db_path(OsKind::Windows, &None, &Some(String::from("x"))), None);
}

#[test]
fn install_roots_in_order_and_skip_missing() {
    let data = Some(String::from("/home/u/.local/share"));
    let config = Some(String::from("/home/u/.config"));
    let roots = find_antigravity_installations(OsKind::Linux, &data, &config);
    assert_eq!(
        roots,
        vec![
            String::from("/home/u/.local/share/Antigravity"),
            String::from("/home/u/.config/Antigravity"),
        ],
    );
    let roots = find_antigravity_installations(OsKind::Linux, &None, &config);
    assert_eq!(roots, vec![String::from("/home/u/.config/Antigravity")]);
    let roots = find_antigravity_installations(OsKind::Linux, &None, &None);
    assert!(roots.is_empty());
}

#[test]
fn windows_candidates_in_precedence_order() {
    let home = Some(String::from("C:\\Users\\u"));
    let local = Some(String::from("C:\\Users\\u\\AppData\\Local"));
    let candidates = get_antigravity_windows_paths(&home, &local);
    assert_eq!(
        candidates,
        vec![
            String::from("C:\\Users\\u\\AppData\\Local\\Programs\\Antigravity\\Antigravity.exe"),
            String::from(
                "C:\\Users\\u\\AppData\\Roaming\\Local\\Programs\\Antigravity\\Antigravity.exe",
            ),
            String::from("C:\\Users\\u\\AppData\\Local\\Programs\\Antigravity\\Antigravity.exe"),
            String::from("C:\\Program Files\\Antigravity\\Antigravity.exe"),
            String::from("C:\\Program Files (x86)\\Antigravity\\Antigravity.exe"),
        ],
    );
    let candidates = get_antigravity_windows_paths(&None, &None);
    assert_eq!(
        candidates,
        vec![
            String::from("C:\\Program Files\\Antigravity\\Antigravity.exe"),
            String::from("C:\\Program Files (x86)\\Antigravity\\Antigravity.exe"),
        ],
    );
}

#[test]
fn all_db_paths_filters_one_level_entries() {
    let config = Some(String::from("/home/u/.config"));
    let listings = vec![
        DirListing {
            root: String::from("/home/u/.local/share/Antigravity"),
            root_exists: true,
            entries: vec![
                DirEntry { name: String::from("state.vscdb"), is_file: true },
                DirEntry { name: String::from("state.vscdb"), is_file: false },
                DirEntry { name: String::from("other.vscdb"), is_file: true },
            ],
        },
        DirListing {
            root: String::from("/home/u/.config/Antigravity"),
            root_exists: false,
            entries: vec![DirEntry { name: String::from("state.vscdb"), is_file: true }],
        },
    ];
    let paths = get_all_antigravity_db_paths(OsKind::Linux, &config, &None, &listings);
    assert_eq!(
        paths,
        vec![
            String::from("/home/u/.config/Antigravity/User/globalStorage/state.vscdb"),
            String::from("/home/u/.local/share/Antigravity/state.vscdb"),
        ],
    );
}

#[test]
fn all_db_paths_without_main_path() {
    let paths = get_all_antigravity_db_paths(OsKind::Linux, &None, &None, &Vec::new());
    assert!(paths.is_empty());
}

#[test]
fn validate_rejects_directory_without_db_file() {
    assert!(!validate_antigravity_path(OsKind::Linux, "/definitely/not/an/install/root"));
}

#[test]
fn validation_rule_needs_an_existing_regular_file() {
    assert!(installation_valid_checked(true, true));
    assert!(!installation_valid_checked(true, false));
    assert!(!installation_valid_checked(false, false));
    assert!(!installation_valid_checked(false, true));
}
