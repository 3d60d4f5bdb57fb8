use indextts_launcher::command::Platform;
use indextts_launcher::paths::{
    extend_system_path_with_defaults, fallback_path_entries, PathEnvironment, SearchDir,
};

fn env() -> PathEnvironment {
    PathEnvironment {
        additional: Vec::new(),
        program_files: None,
        program_files_x86: None,
        system_root: None,
        home: None,
        user_profile: None,
    }
}

fn dir(base: &str, segments: &[&str]) -> SearchDir {
    SearchDir { base: base.to_string(), segments: segments.iter().map(|s| s.to_string()).collect() }
}

fn strings(items: &[&str]) -> Vec<String> {
    items.iter().map(|s| s.to_string()).collect()
}

#[test]
fn linux_fallbacks() {
    let env = PathEnvironment {
        additional: strings(&["/extra/one", "/extra/two"]),
        home: Some("/home/u".to_string()),
        user_profile: Some("/ignored".to_string()),
        ..env()
    };
    assert_eq!(
        fallback_path_entries(Platform::Linux, &env),
        vec![
            dir("/extra/one", &[]),
            dir("/extra/two", &[]),
            dir("/usr/local/bin", &[]),
            dir("/usr/local/sbin", &[]),
            dir("/usr/bin", &[]),
            dir("/bin", &[]),
            dir("/usr/sbin", &[]),
            dir("/sbin", &[]),
            dir("/home/u", &[".local", "bin"]),
            dir("/home/u", &["bin"]),
        ]
    );
}

#[test]
fn mac_fallbacks() {
    assert_eq!(
        fallback_path_entries(Platform::MacOs, &env()),
        vec![
            dir("/opt/homebrew/bin", &[]),
            dir("/opt/homebrew/sbin", &[]),
            dir("/usr/local/bin", &[]),
            dir("/usr/local/sbin", &[]),
            dir("/usr/bin", &[]),
            dir("/bin", &[]),
            dir("/usr/sbin", &[]),
            dir("/sbin", &[]),
        ]
    );
}

#[test]
fn windows_fallbacks() {
    let env = PathEnvironment {
        program_files: Some("C:\\Program Files".to_string()),
        program_files_x86: Some("C:\\Program Files (x86)".to_string()),
        system_root: Some("C:\\Windows".to_string()),
        user_profile: Some("C:\\Users\\u".to_string()),
        ..env()
    };
    assert_eq!(
        fallback_path_entries(Platform::Windows, &env),
        vec![
            dir("C:\\Program Files", &["Git", "cmd"]),
            dir("C:\\Program Files", &["Git", "bin"]),
            dir("C:\\Program Files", &["Git LFS"]),
            dir("C:\\Program Files (x86)", &["Git", "cmd"]),
            dir("C:\\Program Files (x86)", &["Git", "bin"]),
            dir("C:\\Program Files (x86)", &["Git LFS"]),
            dir("C:\\Windows", &["System32"]),
            dir("C:\\Users\\u", &["AppData", "Local", "Programs"]),
        ]
    );
}

#[test]
fn other_platform_has_only_home_places() {
    let env = PathEnvironment { home: Some("/h".to_string()), ..env() };
    assert_eq!(
        fallback_path_entries(Platform::Other, &env),
        vec![dir("/h", &[".local", "bin"]), dir("/h", &["bin"])]
    );
    assert_eq!(fallback_path_entries(Platform::OtherUnix, &self::env()), Vec::<SearchDir>::new());
}

#[test]
fn merge_puts_existing_candidates_first_and_drops_repetitions() {
    let merged = extend_system_path_with_defaults(
        &strings(&["/usr/local/bin", "/missing", "/usr/bin", "/usr/local/bin"]),
        &vec![true, false, true, true],
        &strings(&["/usr/bin", "/opt/tool", "/missing", "/opt/tool"]),
    );
    assert_eq!(merged, Some(strings(&["/usr/local/bin", "/usr/bin", "/opt/tool", "/missing"])));
}

#[test]
fn merge_of_nothing_leaves_the_path_alone() {
    assert_eq!(extend_system_path_with_defaults(&Vec::new(), &Vec::new(), &Vec::new()), None);
    assert_eq!(
        extend_system_path_with_defaults(&strings(&["/a"]), &vec![false], &Vec::new()),
        None
    );
}

#[test]
fn merge_counts_a_candidate_without_flag_as_absent() {
    assert_eq!(
        extend_system_path_with_defaults(&strings(&["/a", "/b"]), &vec![true], &strings(&["/c"])),
        Some(strings(&["/a", "/c"]))
    );
}
