use conmon::log_plugin::{check_init, check_vtable, path_like, pick_plugin, plugin_candidates, plugin_search_dirs, split_search_path};
use conmon::logging::{initialize_log_plugin, BuiltinPlugin, LogPlugin, LogPluginCfg, NoneLogger};

#[test]
fn resolve_path_accepts_explicit_existing_path() {
    let p = "/tmp/d/libdummy_log_plugin.so";
    let c = plugin_candidates(p, Some("/opt/bin".to_string()), None);
    assert_eq!(c, vec![p.to_string()]);
    assert_eq!(pick_plugin(p, &c, &vec![true]).ok().unwrap(), p);
}

#[test]
fn resolve_path_rejects_nonexistent_explicit_path() {
    let p = "/tmp/d/libmissing_log_plugin.so";
    let c = plugin_candidates(p, None, None);
    assert!(pick_plugin(p, &c, &vec![false]).is_err());
}

#[test]
fn resolve_searches_conmon_log_plugin_path_single_dir() {
    let c = plugin_candidates("demo", None, Some("/tmp/plugins".to_string()));
    assert_eq!(c[0], "/tmp/plugins/libdemo_log_plugin.so");
    let hits: Vec<bool> = c.iter().map(|p| p == "/tmp/plugins/libdemo_log_plugin.so").collect();
    assert_eq!(pick_plugin("demo", &c, &hits).ok().unwrap(), "/tmp/plugins/libdemo_log_plugin.so");
}

#[test]
fn resolve_honors_multiple_colon_separated_entries_and_skips_empty() {
    let c = plugin_candidates("prio", Some("/exe".to_string()), Some(":/d1::/d2:/d3".to_string()));
    assert_eq!(
        c,
        vec![
            "/exe/libprio_log_plugin.so",
            "/d1/libprio_log_plugin.so",
            "/d2/libprio_log_plugin.so",
            "/d3/libprio_log_plugin.so",
            "/usr/lib/conmon-v3/log_plugins/libprio_log_plugin.so",
            "/usr/local/lib/conmon-v3/log_plugins/libprio_log_plugin.so",
        ]
    );
    let hits = vec![false, false, true, true, true, false];
    assert_eq!(pick_plugin("prio", &c, &hits).ok().unwrap(), "/d2/libprio_log_plugin.so");
}

#[test]
fn resolve_returns_none_when_not_found_anywhere() {
    let c = plugin_candidates("definitely-not-present", None, None);
    assert_eq!(c.len(), 2);
    assert!(pick_plugin("definitely-not-present", &c, &vec![false, false]).is_err());
}

#[test]
fn load_returns_clear_error_when_not_found() {
    let c = plugin_candidates("missing_plugin_name", None, None);
    let hits = vec![false; c.len()];
    let err = pick_plugin("missing_plugin_name", &c, &hits).err().unwrap();
    let msg = err.to_string();
    assert!(msg.contains("Cannot load Log plugin"));
    assert!(msg.contains("not found"));
}

#[test]
fn resolve_treats_name_with_separator_as_path_like() {
    assert!(path_like("/tmp/x/librealname_log_plugin.so"));
    assert!(path_like("nope/inside"));
    assert!(path_like("plain.so"));
    assert!(!path_like("plain"));
    assert!(!path_like("so"));
    let c = plugin_candidates("nope/inside", None, None);
    assert_eq!(c, vec!["nope/inside".to_string()]);
}

#[test]
fn search_dirs_order() {
    assert_eq!(
        plugin_search_dirs(None, Some("a::b:".to_string())),
        vec!["a", "b", "/usr/lib/conmon-v3/log_plugins", "/usr/local/lib/conmon-v3/log_plugins"]
    );
    assert_eq!(split_search_path(":::"), Vec::<String>::new());
    assert_eq!(split_search_path("x"), vec!["x".to_string()]);
}

#[test]
fn vtable_checks() {
    assert!(check_vtable("p", 1, 40, 40).is_ok());
    assert_eq!(check_vtable("p", 2, 40, 40).err().unwrap().msg, "Cannot load Log plugin p: ABI version mismatch");
    assert_eq!(check_vtable("p", 1, 39, 40).err().unwrap().msg, "Cannot load Log plugin p: vtable struct too small");
    assert!(check_init("p", 0, false).is_ok());
    assert_eq!(check_init("p", -1, false).err().unwrap().msg, "Cannot load Log plugin p: init failed");
    assert!(check_init("p", 0, true).is_err());
}

#[test]
fn builtin_plugins() {
    let cfg = LogPluginCfg { path: "/var/log/ctr.log".to_string() };
    assert!(matches!(initialize_log_plugin("none", &cfg), Ok(BuiltinPlugin::Discard(_))));
    match initialize_log_plugin("k8s_file", &cfg) {
        Ok(BuiltinPlugin::File(p)) => assert_eq!(p, "/var/log/ctr.log"),
        _ => panic!("expected file"),
    }
    assert!(matches!(initialize_log_plugin("file", &cfg), Ok(BuiltinPlugin::File(_))));
    assert_eq!(initialize_log_plugin("journald", &cfg).err().unwrap().msg, "Unknown log plugin: journald");
    let mut n = NoneLogger::new(&cfg).ok().unwrap();
    assert!(n.write(true, b"x").is_ok());
}
