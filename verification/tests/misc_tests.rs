use cli_file_sync::assets::{AssetEntry, AssetListingConfig};
use cli_file_sync::config::CliConfig;
use cli_file_sync::docs::{CommandDoc, ConfigDoc, DocGenerator, TechnicalDoc, UserGuideDoc, UserRole};
use cli_file_sync::reporting::{LogManager, ReportWriter};
use cli_file_sync::sync::{needs_sync, rotate_excess, AssetMeta, FileState, SyncResult};
use cli_file_sync::text::{join_url, str_eq, str_has_prefix, trim_end_slashes, trim_start_slashes, u64_to_string, with_extension};

#[test]
fn cli_config_defaults() {
    let c = CliConfig::new("default".to_string(), ".".to_string());
    assert_eq!(c.id, "default");
    assert_eq!(c.desti_path, ".");
    assert_eq!(c.max_logs, 10);
    assert_eq!(c.max_concurrent, 5);
    assert_eq!(c.download_delay, 100);
    assert_eq!(c.download_timeout, 30);
    assert_eq!(c.max_retries, 3);
    assert!(c.ttl.is_none());
    assert!(c.last_sync.is_none());
}

#[test]
fn ttl_rule_decides_when_sync_is_due() {
    let mut c = CliConfig::new("x".to_string(), ".".to_string());
    assert!(c.needs_sync_at(1000), "no TTL means always due");
    c.ttl = Some(10);
    assert!(c.needs_sync_at(1000), "no last sync means due");
    c.last_sync = Some(100);
    assert!(!c.needs_sync_at(105));
    assert!(c.needs_sync_at(110));
    assert!(c.needs_sync_at(99), "a clock that moved backwards counts as due");
}

#[test]
fn needs_sync_is_due_without_ttl() {
    let c = CliConfig::new("x".to_string(), ".".to_string());
    assert!(c.needs_sync());
}

#[test]
fn needs_sync_is_due_with_zero_ttl() {
    let mut c = CliConfig::new("x".to_string(), ".".to_string());
    c.ttl = Some(0);
    c.last_sync = Some(1_700_000_000);
    assert!(c.needs_sync());
}

#[test]
fn update_last_sync_stamps_the_config() {
    let mut c = CliConfig::new("x".to_string(), ".".to_string());
    c.update_last_sync();
    assert!(c.last_sync.is_some());
    assert!(c.last_sync.unwrap() > 1_600_000_000);
    assert_eq!(c.max_logs, 10);
}

#[test]
fn sync_result_starts_empty() {
    let r = SyncResult::new();
    assert!(r.added_files.is_empty());
    assert!(r.updated_files.is_empty());
    assert!(r.failed_files.is_empty());
    assert!(r.errors.is_empty());
    assert!(r.timestamp > 1_600_000_000);
}

fn meta() -> AssetMeta {
    AssetMeta {
        filesize: 10,
        permissions: "644".to_string(),
        changed: 100,
    }
}

fn state() -> FileState {
    FileState {
        len: 10,
        permissions: "644".to_string(),
        modified: 100,
    }
}

#[test]
fn missing_file_needs_sync() {
    assert!(needs_sync(&meta(), &None));
}

#[test]
fn matching_file_needs_no_sync() {
    assert!(!needs_sync(&meta(), &Some(state())));
}

#[test]
fn size_permission_or_time_difference_needs_sync() {
    let mut s = state();
    s.len = 11;
    assert!(needs_sync(&meta(), &Some(s)));
    let mut s = state();
    s.permissions = "600".to_string();
    assert!(needs_sync(&meta(), &Some(s)));
    let mut s = state();
    s.modified = 101;
    assert!(needs_sync(&meta(), &Some(s)));
}

#[test]
fn rotation_removes_only_the_excess() {
    assert_eq!(rotate_excess(5, 3), 2);
    assert_eq!(rotate_excess(3, 3), 0);
    assert_eq!(rotate_excess(0, 3), 0);
}

#[test]
fn report_writer_derives_both_paths() {
    let w = ReportWriter::new("logs/sync_log_20240101_120000".to_string(), "sync_log");
    assert_eq!(w.csv_path, "logs/sync_log_20240101_120000.csv");
    assert_eq!(w.json_path, "logs/sync_log_20240101_120000.json");
}

#[test]
fn report_writer_replaces_an_existing_extension() {
    let w = ReportWriter::new("out/report.tmp".to_string(), "sync_log");
    assert_eq!(w.csv_path, "out/report.csv");
    assert_eq!(w.json_path, "out/report.json");
}

#[test]
fn with_extension_keeps_hidden_file_names_whole() {
    assert_eq!(with_extension("dir/.hidden", "csv"), "dir/.hidden.csv");
    assert_eq!(with_extension("dir.v2/name", "csv"), "dir.v2/name.csv");
}

#[test]
fn with_extension_ignores_trailing_separators() {
    assert_eq!(with_extension("logs/", "csv"), "logs.csv");
    assert_eq!(with_extension("a/b.x/", "csv"), "a/b.csv");
}

#[test]
fn with_extension_leaves_paths_without_file_names_alone() {
    assert_eq!(with_extension("", "csv"), "");
    assert_eq!(with_extension("///", "csv"), "///");
}

#[test]
fn log_manager_removes_whole_pairs() {
    let m = LogManager::new("logs".to_string(), 3);
    assert_eq!(m.log_dir, "logs");
    assert_eq!(m.files_to_remove(10), 4);
    assert_eq!(m.files_to_remove(6), 0);
    assert_eq!(m.files_to_remove(7), 0);
    assert_eq!(m.files_to_remove(9), 2);
}

#[test]
fn text_helpers_trim_and_join() {
    assert_eq!(trim_end_slashes("http://h///"), "http://h");
    assert_eq!(trim_start_slashes("///p/q"), "p/q");
    assert_eq!(join_url("http://h/", "/p/q"), "http://h/p/q");
    assert_eq!(join_url("http://h", "p/q"), "http://h/p/q");
    assert!(str_has_prefix("image/png", "image/"));
    assert!(!str_has_prefix("imag", "image/"));
    assert!(str_eq("abc", "abc"));
    assert!(!str_eq("abc", "abd"));
}

#[test]
fn decimal_rendering_is_exact() {
    assert_eq!(u64_to_string(0), "0");
    assert_eq!(u64_to_string(7), "7");
    assert_eq!(u64_to_string(500), "500");
    assert_eq!(u64_to_string(18446744073709551615), "18446744073709551615");
}

#[test]
fn asset_entry_guesses_mime_and_builds_url() {
    let cfg = AssetListingConfig {
        base_url: Some("http://cdn.test/".to_string()),
        output_path: "out".to_string(),
    };
    let e = AssetEntry::from_parts("a.txt".to_string(), "sub/a.txt".to_string(), 5, &cfg);
    assert_eq!(e.filename, "a.txt");
    assert_eq!(e.path, "sub/a.txt");
    assert_eq!(e.size, 5);
    assert_eq!(e.mime_type, "text/plain");
    assert_eq!(e.download_url.as_deref(), Some("http://cdn.test/sub/a.txt"));
}

#[test]
fn asset_entry_without_base_url_has_no_download_url() {
    let cfg = AssetListingConfig {
        base_url: None,
        output_path: "out".to_string(),
    };
    let e = AssetEntry::from_parts("b.png".to_string(), "b.png".to_string(), 1, &cfg);
    assert_eq!(e.mime_type, "image/png");
    assert!(e.download_url.is_none());
}

#[test]
fn doc_roles_follow_category() {
    let cmd = CommandDoc {
        id: "c".to_string(),
        name: "n".to_string(),
        description: String::new(),
        usage_example: String::new(),
        category: "Advanced".to_string(),
        role: "all".to_string(),
        is_required: false,
    };
    assert_eq!(cmd.role(), UserRole::Developer);
    let cfg = ConfigDoc {
        id: "c".to_string(),
        name: "n".to_string(),
        description: String::new(),
        data_type: "string".to_string(),
        default_value: None,
        category: "Development".to_string(),
        role: "all".to_string(),
    };
    assert_eq!(cfg.role(), UserRole::Developer);
    let guide = UserGuideDoc {
        id: "g".to_string(),
        title: String::new(),
        content: String::new(),
        category: "Getting Started".to_string(),
        role: "all".to_string(),
        order: 1,
    };
    assert_eq!(guide.role(), UserRole::All);
    let tech = TechnicalDoc {
        id: "t".to_string(),
        title: String::new(),
        content: String::new(),
        category: "Architecture".to_string(),
        role: "developer".to_string(),
        related_files: String::new(),
    };
    assert_eq!(tech.role(), UserRole::Developer);
}

#[test]
fn user_role_names() {
    assert_eq!(UserRole::All.name(), "all");
    assert_eq!(UserRole::Developer.name(), "developer");
    assert_eq!(UserRole::Admin.name(), "admin");
}

#[test]
fn doc_tables_hold_the_documented_rows() {
    let g = DocGenerator::new("docs".to_string());
    assert_eq!(g.output_dir, "docs");
    let guides = DocGenerator::user_guides();
    assert_eq!(guides.len(), 2);
    assert_eq!(guides[0].id, "ug_basic");
    assert_eq!(guides[1].id, "ug_sync");
    assert_eq!(DocGenerator::setup_guides().len(), 1);
    assert_eq!(DocGenerator::technical_docs()[0].id, "tech_arch");
    assert_eq!(DocGenerator::reports()[0].id, "report_sync");
    assert_eq!(DocGenerator::troubleshooting()[0].id, "trouble_conn");
    assert_eq!(DocGenerator::role_permissions().len(), 2);
    assert_eq!(DocGenerator::commands()[1].id, "cmd_config");
    assert_eq!(DocGenerator::parameters()[0].is_required, true);
    assert_eq!(DocGenerator::configs()[1].id, "cfg_max_concurrent");
}
