use tuxbox::config::{
    add_registry_entry, default_priority, detect_auth_type, extract_registry_name,
    make_registry_config, migrate_legacy_config, remove_registry_entry, sort_registries,
    AuthType, Config, RegistryConfig,
};
use tuxbox::error::TuxBoxError;
use tuxbox::registry::{
    aggregate_tools, find_tool_in_registries, registry_or_empty, registry_tool_to_config,
    registry_update_decision, sync_action, LoadedRegistry, Registry, RegistryCommands,
    RegistryDependencies, RegistryTool, RegistryUpdateAction, SyncAction,
};

fn tool(name: &str, repo: &str) -> RegistryTool {
    RegistryTool {
        name: name.to_string(),
        repo: repo.to_string(),
        branch: Some("main".to_string()),
        version: None,
        tool_type: Some("python".to_string()),
        description: Some("a tool".to_string()),
        commands: Some(RegistryCommands {
            run: "python3 -m tool".to_string(),
            setup: None,
        }),
        dependencies: Some(RegistryDependencies {
            python: Some(">=3.8".to_string()),
            requirements: Some("requirements.txt".to_string()),
        }),
    }
}

fn loaded(name: &str, priority: u32, cloned: bool, tools: Vec<(String, RegistryTool)>) -> LoadedRegistry {
    LoadedRegistry {
        config: make_registry_config(name, "https://example.com/r", priority),
        cloned,
        tools,
    }
}

#[test]
fn resolution_takes_highest_priority_registry() {
    // Both registries define the same name; the list is ordered by
    // priority, highest first.  The first (highest-priority) definition
    // wins; the lower-priority one is never consulted.
    let regs = vec![
        loaded(
            "corporate",
            200,
            true,
            vec![("dup".to_string(), tool("dup", "https://high/dup"))],
        ),
        loaded(
            "community",
            100,
            true,
            vec![("dup".to_string(), tool("dup", "https://low/dup"))],
        ),
    ];
    let (t, reg_name) = find_tool_in_registries("dup", &regs).unwrap();
    assert_eq!(t.repo, "https://high/dup");
    assert_eq!(reg_name, "corporate");
}

#[test]
fn resolution_skips_uncloned_registries() {
    let regs = vec![
        loaded(
            "first",
            200,
            false,
            vec![("x".to_string(), tool("x", "https://first/x"))],
        ),
        loaded(
            "second",
            100,
            true,
            vec![("x".to_string(), tool("x", "https://second/x"))],
        ),
    ];
    let (t, reg_name) = find_tool_in_registries("x", &regs).unwrap();
    assert_eq!(t.repo, "https://second/x");
    assert_eq!(reg_name, "second");
}

#[test]
fn resolution_fails_with_tool_not_found() {
    let regs = vec![loaded("only", 100, true, vec![])];
    let err = find_tool_in_registries("ghost", &regs).unwrap_err();
    match err {
        TuxBoxError::ToolNotFound(n) => assert_eq!(n, "ghost"),
        other => panic!("unexpected error: {:?}", other),
    }
}

#[test]
fn definition_carries_over_to_tool_config() {
    let t = tool("x", "https://r/x");
    let cfg = registry_tool_to_config(&t);
    assert_eq!(cfg.name, "x");
    assert_eq!(cfg.repo, "https://r/x");
    assert_eq!(cfg.branch.as_deref(), Some("main"));
    assert_eq!(cfg.tool_type.as_deref(), Some("python"));
    assert!(cfg.isolation.is_none());
    assert_eq!(cfg.commands.unwrap().run, "python3 -m tool");
    assert_eq!(cfg.python_version.as_deref(), Some(">=3.8"));
}

#[test]
fn listing_keeps_the_first_definition_of_a_name() {
    let regs = vec![
        loaded(
            "high",
            200,
            true,
            vec![
                ("a".to_string(), tool("a", "https://high/a")),
                ("b".to_string(), tool("b", "https://high/b")),
            ],
        ),
        loaded(
            "low",
            100,
            true,
            vec![
                ("a".to_string(), tool("a", "https://low/a")),
                ("c".to_string(), tool("c", "https://low/c")),
            ],
        ),
    ];
    let all = aggregate_tools(&regs);
    assert_eq!(all.len(), 3);
    assert_eq!(all[0].0, "a");
    assert_eq!(all[0].1.repo, "https://high/a");
    assert_eq!(all[0].2, "high");
    assert_eq!(all[1].0, "b");
    assert_eq!(all[2].0, "c");
    assert_eq!(all[2].2, "low");
}

#[test]
fn missing_manifest_reads_as_empty_registry() {
    assert_eq!(registry_or_empty(None).tools.len(), 0);
    let r = registry_or_empty(Some(Registry {
        tools: vec![("a".to_string(), tool("a", "r"))],
    }));
    assert_eq!(r.tools.len(), 1);
}

#[test]
fn registry_names_come_from_urls() {
    assert_eq!(extract_registry_name("git@github.com:user/repo.git"), "repo");
    assert_eq!(extract_registry_name("https://github.com/user/repo"), "repo");
    assert_eq!(extract_registry_name("https://github.com/user/repo.git"), "repo");
    assert_eq!(extract_registry_name("https://github.com/user/repo/"), "repo");
}

#[test]
fn auth_kind_follows_url_scheme() {
    assert_eq!(detect_auth_type("git@github.com:u/r.git"), AuthType::Ssh);
    assert_eq!(detect_auth_type("ssh://host/u/r"), AuthType::Ssh);
    assert_eq!(detect_auth_type("https://github.com/u/r"), AuthType::Https);
    assert_eq!(default_priority(), 100);
}

#[test]
fn registries_sort_by_priority_with_stable_ties() {
    let mut regs = vec![
        make_registry_config("a", "https://e/a", 100),
        make_registry_config("b", "https://e/b", 300),
        make_registry_config("c", "https://e/c", 100),
        make_registry_config("d", "https://e/d", 200),
    ];
    sort_registries(&mut regs);
    let names: Vec<&str> = regs.iter().map(|r| r.name.as_str()).collect();
    assert_eq!(names, vec!["b", "d", "a", "c"]);
}

#[test]
fn adding_a_duplicate_registry_is_refused() {
    let mut cfg = Config {
        registries: vec![make_registry_config("one", "https://e/one", 100)],
        registry_url: None,
    };
    let err = add_registry_entry(&mut cfg, make_registry_config("one", "https://e/other", 50))
        .unwrap_err();
    assert!(matches!(err, TuxBoxError::ConfigError(_)));
    assert_eq!(cfg.registries.len(), 1);
    assert_eq!(cfg.registries[0].url, "https://e/one");
}

#[test]
fn adding_a_registry_keeps_the_list_sorted() {
    let mut cfg = Config {
        registries: vec![make_registry_config("one", "https://e/one", 100)],
        registry_url: None,
    };
    add_registry_entry(&mut cfg, make_registry_config("two", "https://e/two", 200)).unwrap();
    assert_eq!(cfg.registries[0].name, "two");
    assert_eq!(cfg.registries[1].name, "one");
}

#[test]
fn removing_an_unknown_registry_is_refused() {
    let mut cfg = Config {
        registries: vec![make_registry_config("one", "https://e/one", 100)],
        registry_url: None,
    };
    assert!(remove_registry_entry(&mut cfg, "missing").is_err());
    assert_eq!(cfg.registries.len(), 1);
    remove_registry_entry(&mut cfg, "one").unwrap();
    assert_eq!(cfg.registries.len(), 0);
}

#[test]
fn legacy_url_migrates_to_default_registry() {
    let mut cfg = Config {
        registries: vec![],
        registry_url: Some("git@github.com:user/legacy-reg.git".to_string()),
    };
    migrate_legacy_config(&mut cfg);
    assert_eq!(cfg.registries.len(), 1);
    assert_eq!(cfg.registries[0].name, "default");
    assert_eq!(cfg.registries[0].url, "git@github.com:user/legacy-reg.git");
    assert_eq!(cfg.registries[0].auth_type, AuthType::Ssh);
    assert_eq!(cfg.registries[0].priority, 100);

    // A populated registry list is left alone.
    let mut cfg2 = Config {
        registries: vec![make_registry_config("one", "https://e/one", 100)],
        registry_url: Some("https://e/legacy".to_string()),
    };
    migrate_legacy_config(&mut cfg2);
    assert_eq!(cfg2.registries.len(), 1);
    assert_eq!(cfg2.registries[0].name, "one");
}

#[test]
fn registry_sync_decisions() {
    assert_eq!(sync_action(true), SyncAction::PullIt);
    assert_eq!(sync_action(false), SyncAction::CloneIt);
    assert_eq!(
        registry_update_decision(true, false),
        RegistryUpdateAction::AlreadyCurrent
    );
    assert_eq!(
        registry_update_decision(false, true),
        RegistryUpdateAction::FastForwardCheckout
    );
    assert_eq!(
        registry_update_decision(false, false),
        RegistryUpdateAction::ManualMergeNeeded
    );
}
