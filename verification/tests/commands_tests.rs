use rustitles::commands::{
    accept_python_version, build_download_args, fallback_launchers, import_check,
    module_invocation_args, pip_show_check, pipx_list_check, stage2_install_attempts,
    subliminal_version_check, worker_env,
};
use rustitles::logging::LogMessage;

fn strings(v: &[&str]) -> Vec<String> {
    v.iter().map(|s| s.to_string()).collect()
}

#[test]
fn download_args_carry_flags_languages_and_target() {
    let args = build_download_args(false, false, &strings(&["en", "he"]), "/v/x.mkv");
    assert_eq!(args, strings(&["download", "-l", "en", "-l", "he", "/v/x.mkv"]));
    let forced = build_download_args(true, true, &strings(&["en"]), "/v/x.mkv");
    assert_eq!(forced, strings(&["download", "--force", "--force", "-l", "en", "/v/x.mkv"]));
}

#[test]
fn module_form_prefixes_the_argument_tail() {
    let args = build_download_args(false, false, &strings(&["en"]), "/v/x.mkv");
    let module = module_invocation_args(&args);
    assert_eq!(module, strings(&["-m", "subliminal", "download", "-l", "en", "/v/x.mkv"]));
}

#[test]
fn fallback_chain_is_fixed() {
    assert_eq!(fallback_launchers(), strings(&["python", "py", "python3"]));
}

#[test]
fn worker_environment_is_deterministic() {
    let env = worker_env("/tmp/subliminal_cache");
    let pairs: Vec<(String, String)> = env.into_iter().map(|e| (e.name, e.value)).collect();
    assert_eq!(pairs, vec![
        ("PYTHONIOENCODING".to_string(), "utf-8".to_string()),
        ("SUBLIMINAL_CACHE_DIR".to_string(), "/tmp/subliminal_cache".to_string()),
        ("PYTHONHASHSEED".to_string(), "0".to_string()),
    ]);
}

#[test]
fn installer_attempts_try_the_package_manager_then_pip() {
    let attempts = stage2_install_attempts();
    let view: Vec<(String, Vec<String>)> =
        attempts.into_iter().map(|c| (c.program, c.args)).collect();
    assert_eq!(view, vec![
        ("pipx".to_string(), strings(&["install", "subliminal"])),
        ("python3".to_string(), strings(&["-m", "pip", "install", "--user", "subliminal"])),
        ("python".to_string(), strings(&["-m", "pip", "install", "--user", "subliminal"])),
    ]);
}

#[test]
fn only_python_3_banners_are_accepted() {
    assert_eq!(
        accept_python_version(true, "Python 3.13.5", ""),
        Some("Python 3.13.5".to_string()),
    );
    // some interpreters print the banner on stderr
    assert_eq!(
        accept_python_version(true, "", "Python 3.12.0"),
        Some("Python 3.12.0".to_string()),
    );
    assert_eq!(accept_python_version(true, "Python 2.7.18", ""), None);
    assert_eq!(accept_python_version(false, "Python 3.13.5", ""), None);
}

#[test]
fn tool_detection_checks() {
    assert!(subliminal_version_check(true, "subliminal 2.1", ""));
    assert!(subliminal_version_check(true, "", "subliminal 2.1"));
    assert!(!subliminal_version_check(false, "subliminal", ""));
    assert!(!subliminal_version_check(true, "no such tool", ""));

    assert!(pipx_list_check(true, "package Subliminal 2.1"));
    assert!(!pipx_list_check(true, "nothing installed"));
    assert!(!pipx_list_check(false, "subliminal"));

    assert!(pip_show_check(true, "Name: subliminal\nVersion: 2.1"));
    assert!(!pip_show_check(true, "WARNING: Package(s) not found"));

    assert!(import_check(true, "subliminal available"));
    assert!(!import_check(true, "ImportError"));
}

#[test]
fn log_messages_map_levels_and_format_lines() {
    let m = LogMessage::message_for_level("WARN", "disk full");
    match &m {
        LogMessage::Warn(text) => assert_eq!(text, "disk full"),
        _ => panic!("expected Warn"),
    }
    assert_eq!(
        m.format_line("2024-01-02 03:04:05"),
        "[WARN 2024-01-02 03:04:05 src\\main.rs:0] disk full",
    );
    let i = LogMessage::message_for_level("TRACE", "odd level");
    assert!(matches!(i, LogMessage::Info(_)));
    assert_eq!(
        LogMessage::message_for_level("ERROR", "boom").format_line("t"),
        "[ERROR t src\\main.rs:0] boom",
    );
}
