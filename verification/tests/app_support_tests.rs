use rai_connect::config::{AppConfig, AppState, ConnectionStatus, ProxyConfig};
use rai_connect::hosts::{add_hosts_entries, are_hosts_entries_present, generate_hosts_block,
    remove_hosts_entries};
use rai_connect::logging::{level_to_string, strip_wrapping_quotes, LogBuffer, LogEntry, LogLevel,
    MAX_LOG_ENTRIES};
use rai_connect::manager::ProxyManager;
use rai_connect::osu::{detect_osu_path, expand_env_vars, get_osu_path, is_osu_running,
    osu_common_paths};
use rai_connect::tls::{classify_certutil_install, create_tls_acceptor, get_cert_path,
    get_key_path, get_or_create_cert, is_certificate_installed, CertInstallOutcome, CertSource};

#[test]
fn test_generate_hosts_block() {
    let block = generate_hosts_block();
    assert!(block.contains("# BEGIN rai-connect"));
    assert!(block.contains("# END rai-connect"));
    assert!(block.contains("osu.localhost"));
    assert!(block.contains("c.localhost"));
}

#[test]
fn test_add_hosts_entries_appends_block() {
    let content = "127.0.0.1 something\n";
    let (with_block, added) = add_hosts_entries(content);
    assert!(added);
    assert!(with_block.starts_with(content));
    assert!(with_block.contains("# BEGIN rai-connect"));
    assert!(with_block.ends_with("# END rai-connect\n"));
    assert!(are_hosts_entries_present(&with_block));

    let (unchanged, added_again) = add_hosts_entries(&with_block);
    assert!(!added_again);
    assert_eq!(unchanged, with_block);
}

#[test]
fn test_add_hosts_entries_inserts_newline() {
    let content = "127.0.0.1 something";
    let (with_block, added) = add_hosts_entries(content);
    assert!(added);
    assert!(with_block.starts_with("127.0.0.1 something\n# BEGIN rai-connect"));
}

#[test]
fn test_remove_hosts_entries_round_trip() {
    let content = "# comment\n127.0.0.1 something\n";
    let (with_block, _) = add_hosts_entries(content);
    let (restored, removed) = remove_hosts_entries(&with_block).unwrap();
    assert!(removed);
    assert_eq!(restored, content);
}

#[test]
fn test_remove_hosts_entries_collapses_newline_runs() {
    // Cutting the block out joins two blank stretches into a run of
    // four newlines; the whole run must come down to two.
    let block = generate_hosts_block();
    let content = format!("a\n\n{}\n\n\nb\n", block);
    let (restored, removed) = remove_hosts_entries(&content).unwrap();
    assert!(removed);
    assert_eq!(restored, "a\n\nb\n");
}

#[test]
fn test_remove_hosts_entries_absent_is_noop() {
    let content = "127.0.0.1 something\n";
    let (unchanged, removed) = remove_hosts_entries(content).unwrap();
    assert!(!removed);
    assert_eq!(unchanged, content);
}

#[test]
fn test_remove_hosts_entries_missing_end_marker() {
    let content = "x\n# BEGIN rai-connect\n127.0.0.1 osu.localhost\n";
    let result = remove_hosts_entries(content);
    assert_eq!(
        result.unwrap_err(),
        "Failed to find hosts block boundaries".to_string()
    );
}

#[test]
fn test_expand_env_vars() {
    let expanded = expand_env_vars(
        "%USERPROFILE%\\test",
        &None,
        &None,
        &Some("C:\\Users\\someone".to_string()),
    );
    assert!(!expanded.contains("%USERPROFILE%"));
    assert_eq!(expanded, "C:\\Users\\someone\\test");
}

#[test]
fn test_expand_env_vars_without_values() {
    let expanded = expand_env_vars("%USERPROFILE%\\test", &None, &None, &None);
    assert_eq!(expanded, "%USERPROFILE%\\test");
}

#[test]
fn test_osu_common_paths_expand() {
    let paths = osu_common_paths(
        &Some("C:\\Users\\someone\\AppData\\Local".to_string()),
        &None,
        &None,
    );
    assert_eq!(paths.len(), 7);
    assert_eq!(paths[0], "C:\\Users\\someone\\AppData\\Local\\osu!");
    assert_eq!(paths[3], "C:\\osu!");
}

#[test]
fn test_detect_osu_path_picks_first_valid() {
    let candidates = vec!["a".to_string(), "b".to_string(), "c".to_string()];
    let valid = vec![false, true, true];
    assert_eq!(detect_osu_path(&candidates, &valid), Some("b".to_string()));

    let none_valid = vec![false, false, false];
    assert_eq!(detect_osu_path(&candidates, &none_valid), None);
}

#[test]
fn test_is_valid_osu_installation() {
    assert!(rai_connect::osu::is_valid_osu_installation(true, true));
    assert!(!rai_connect::osu::is_valid_osu_installation(true, false));
    assert!(!rai_connect::osu::is_valid_osu_installation(false, true));
    assert!(!rai_connect::osu::is_valid_osu_installation(false, false));
}

#[test]
fn test_get_osu_path_prefers_configured() {
    let mut config = AppConfig::default();
    config.osu_path = Some("C:\\osu!".to_string());
    assert_eq!(
        get_osu_path(&config, true, Some("D:\\osu!".to_string())),
        Some("C:\\osu!".to_string())
    );
    assert_eq!(
        get_osu_path(&config, false, Some("D:\\osu!".to_string())),
        Some("D:\\osu!".to_string())
    );
    assert_eq!(get_osu_path(&AppConfig::default(), false, None), None);
}

#[test]
fn test_is_osu_running_reads_tasklist() {
    let listing = "Image Name  PID\nosu!.exe  4242\n".to_string();
    assert!(is_osu_running(&Some(listing)));
    assert!(!is_osu_running(&Some("INFO: No tasks are running.".to_string())));
    assert!(!is_osu_running(&None));
}

#[test]
fn test_config_defaults() {
    let config = AppConfig::default();
    assert!(config.osu_path.is_none());
    assert!(!config.start_at_boot);
    assert!(config.minimize_to_tray);
    assert!(!config.start_minimized);
    assert!(!config.debug_logging);

    let proxy = ProxyConfig::default();
    assert_eq!(proxy.http_port, 80);
    assert!(!proxy.inject_supporter);
    assert_eq!(proxy.api_base_url, "https://api.rai.moe");
    assert_eq!(proxy.direct_base_url, "https://direct.rai.moe");

    let state = AppState::default();
    assert_eq!(state.status, ConnectionStatus::Disconnected);
    assert_eq!(state.requests_proxied, 0);
    assert_eq!(state.beatmaps_downloaded, 0);
    assert!(state.last_error.is_none());
}

#[test]
fn test_manager_lifecycle() {
    let mut manager = ProxyManager::new(ProxyConfig::default());
    assert_eq!(manager.status(), ConnectionStatus::Disconnected);

    let already = manager.start_begin();
    assert!(!already);
    assert_eq!(manager.status(), ConnectionStatus::Connecting);

    assert!(manager.start_complete(true).is_ok());
    assert_eq!(manager.status(), ConnectionStatus::Connected);

    // Starting while connected is a no-op.
    assert!(manager.start_begin());
    assert_eq!(manager.status(), ConnectionStatus::Connected);

    manager.stop();
    assert_eq!(manager.status(), ConnectionStatus::Disconnected);
}

#[test]
fn test_manager_start_timeout() {
    let mut manager = ProxyManager::new(ProxyConfig::default());
    manager.start_begin();
    let result = manager.start_complete(false);
    assert_eq!(
        result.unwrap_err(),
        "Failed to start proxy: port binding timeout".to_string()
    );
    assert_eq!(manager.status(), ConnectionStatus::Error);
    assert_eq!(
        manager.state.last_error,
        Some("Failed to start proxy: port binding timeout".to_string())
    );

    // A retry from the error state is allowed.
    assert!(!manager.start_begin());
    assert_eq!(manager.status(), ConnectionStatus::Connecting);
    assert!(manager.state.last_error.is_none());
}

#[test]
fn test_manager_counters_monotonic() {
    let mut manager = ProxyManager::new(ProxyConfig::default());
    let mut last_requests = manager.state.requests_proxied;
    let mut last_downloads = manager.state.beatmaps_downloaded;

    manager.increment_requests();
    manager.increment_requests();
    manager.increment_downloads();
    assert!(manager.state.requests_proxied >= last_requests);
    assert!(manager.state.beatmaps_downloaded >= last_downloads);
    assert_eq!(manager.state.requests_proxied, 2);
    assert_eq!(manager.state.beatmaps_downloaded, 1);

    last_requests = manager.state.requests_proxied;
    last_downloads = manager.state.beatmaps_downloaded;
    manager.stop();
    manager.start_begin();
    let _ = manager.start_complete(true);
    manager.set_error("boom".to_string());
    assert!(manager.state.requests_proxied >= last_requests);
    assert!(manager.state.beatmaps_downloaded >= last_downloads);
}

#[test]
fn test_cert_paths() {
    assert_eq!(
        get_cert_path("C:\\Users\\someone\\AppData\\Local"),
        "C:\\Users\\someone\\AppData\\Local/rai-connect/localhost.cer"
    );
    assert_eq!(
        get_key_path("C:\\Users\\someone\\AppData\\Local"),
        "C:\\Users\\someone\\AppData\\Local/rai-connect/localhost.key"
    );
}

#[test]
fn test_get_or_create_cert() {
    let result = get_or_create_cert(None);
    let (material, source) = result.expect("certificate generation failed");
    assert_eq!(source, CertSource::Generated);
    assert!(!material.cert_der.is_empty());
    assert!(!material.key_der.is_empty());
}

#[test]
fn test_create_acceptor() {
    let result = create_tls_acceptor(None);
    assert!(result.is_ok());
}

#[test]
fn test_create_acceptor_reuses_loaded_material() {
    let (material, _) = get_or_create_cert(None).unwrap();
    let cert = material.cert_der.clone();
    let key = material.key_der.clone();
    let (used, source, _acceptor) = create_tls_acceptor(Some(material)).unwrap();
    assert_eq!(source, CertSource::Loaded);
    assert_eq!(used.cert_der, cert);
    assert_eq!(used.key_der, key);
}

#[test]
fn test_classify_certutil_install() {
    assert_eq!(
        classify_certutil_install(true, ""),
        CertInstallOutcome::Installed
    );
    assert_eq!(
        classify_certutil_install(false, "CertUtil: Object already exists"),
        CertInstallOutcome::AlreadyInstalled
    );
    assert_eq!(
        classify_certutil_install(false, "certificate already in store"),
        CertInstallOutcome::AlreadyInstalled
    );
    assert_eq!(
        classify_certutil_install(false, "Access is denied."),
        CertInstallOutcome::Failed
    );
}

#[test]
fn test_is_certificate_installed_from_exit() {
    assert!(is_certificate_installed(Some(true)));
    assert!(!is_certificate_installed(Some(false)));
    assert!(!is_certificate_installed(None));
}

#[test]
fn test_devserver_argument() {
    assert_eq!(
        rai_connect::osu::devserver_argument("localhost"),
        "-devserver localhost"
    );
}

#[test]
fn test_strip_wrapping_quotes() {
    assert_eq!(strip_wrapping_quotes("\"a message\""), "a message");
    assert_eq!(strip_wrapping_quotes("bare"), "bare");
    assert_eq!(strip_wrapping_quotes("\"unbalanced"), "\"unbalanced");
    assert_eq!(strip_wrapping_quotes("\""), "\"");
    assert_eq!(strip_wrapping_quotes(""), "");
}

#[test]
fn test_level_to_string() {
    assert_eq!(level_to_string(LogLevel::Trace), "TRACE");
    assert_eq!(level_to_string(LogLevel::Debug), "DEBUG");
    assert_eq!(level_to_string(LogLevel::Info), "INFO");
    assert_eq!(level_to_string(LogLevel::Warn), "WARN");
    assert_eq!(level_to_string(LogLevel::Error), "ERROR");
}

fn entry(message: &str) -> LogEntry {
    LogEntry {
        timestamp: "12:00:00.000".to_string(),
        level: "INFO".to_string(),
        target: "test".to_string(),
        message: message.to_string(),
    }
}

#[test]
fn test_log_buffer_bounded() {
    let mut buffer = LogBuffer::new();
    assert!(buffer.is_empty());

    for i in 0..(MAX_LOG_ENTRIES + 10) {
        buffer.push(entry(&i.to_string()));
    }
    assert_eq!(buffer.len(), MAX_LOG_ENTRIES);

    let all = buffer.get_all();
    assert_eq!(all[0].message, "10");
    assert_eq!(all[MAX_LOG_ENTRIES - 1].message, (MAX_LOG_ENTRIES + 9).to_string());

    let recent = buffer.get_recent(2);
    assert_eq!(recent.len(), 2);
    assert_eq!(recent[0].message, (MAX_LOG_ENTRIES + 8).to_string());
    assert_eq!(recent[1].message, (MAX_LOG_ENTRIES + 9).to_string());

    buffer.clear();
    assert!(buffer.is_empty());
    assert_eq!(buffer.len(), 0);
}
