use tuxbox::config::{init_config_update, make_registry_config, Commands, Config, ToolConfig};
use tuxbox::docker::{
    build_args_dockerfile, build_args_standard, choose_build_source, container_name,
    container_run_args, image_name, standard_dockerfile, BuildSource,
};
use tuxbox::environment::{detect_environment, ExecutionEnvironment};
use tuxbox::error::TuxBoxError;
use tuxbox::install::{
    install_step, poetry_fallback_packages, pth_content, pyproject_installable,
    select_poetry_packages, site_packages_snippet, InstallContext, InstallOutcome, InstallPhase,
};
use tuxbox::paths::{state_file_path, tools_dir, tuxbox_home};
use tuxbox::python::{decide_venv_action, resolve_python, version_probe_snippet, VenvAction};
use tuxbox::runner::{
    choose_execution, clone_decision, get_hardcoded_tool_config, split_command, venv_exec_plan,
    venv_run_prep, verify_interpreter_version, CloneAction, RunStrategy, VenvRunPrep,
};
use tuxbox::tool_state::{load_from, ToolState};

#[test]
fn environment_detection_prefers_docker() {
    assert_eq!(detect_environment(false, true), ExecutionEnvironment::Docker);
    assert_eq!(detect_environment(false, false), ExecutionEnvironment::LocalVenv);
    assert_eq!(detect_environment(true, true), ExecutionEnvironment::LocalVenv);
}

#[test]
fn execution_strategy_follows_environment_and_kind() {
    let py = "python".to_string();
    let sh = "bash".to_string();
    assert_eq!(
        choose_execution(ExecutionEnvironment::Docker, Some(&sh)).unwrap(),
        RunStrategy::DockerRun
    );
    assert_eq!(
        choose_execution(ExecutionEnvironment::LocalVenv, Some(&py)).unwrap(),
        RunStrategy::VenvRun
    );
    let err = choose_execution(ExecutionEnvironment::LocalVenv, Some(&sh)).unwrap_err();
    match err {
        TuxBoxError::ExecutionError(m) => {
            assert_eq!(m, "Tool type 'bash' requires Docker for execution. Please install Docker.")
        }
        other => panic!("unexpected error: {:?}", other),
    }
    assert!(choose_execution(ExecutionEnvironment::LocalVenv, None).is_err());
}

#[test]
fn clone_decisions_by_url_scheme() {
    assert_eq!(clone_decision("https://e/r", true), CloneAction::AlreadyCloned);
    assert_eq!(clone_decision("git@e:u/r.git", false), CloneAction::SystemGit);
    assert_eq!(clone_decision("ssh://e/u/r", false), CloneAction::SystemGit);
    assert_eq!(clone_decision("https://e/r", false), CloneAction::NativeThenSystemGit);
}

#[test]
fn run_commands_split_on_whitespace() {
    assert_eq!(split_command("python3 -m sshmenuc"), vec!["python3", "-m", "sshmenuc"]);
    assert_eq!(split_command("  ./run.sh  "), vec!["./run.sh"]);
    assert_eq!(split_command("   "), Vec::<String>::new());
}

#[test]
fn venv_exec_plan_wires_the_child_environment() {
    let rc = "python3 -m sshmenuc".to_string();
    let args = vec!["--verbose".to_string()];
    let plan = venv_exec_plan("/t/venv", "/usr/bin:/bin", Some(&rc), &args).unwrap();
    assert_eq!(plan.program, "python3");
    assert_eq!(plan.args, vec!["-m", "sshmenuc", "--verbose"]);
    assert_eq!(plan.path_env, "/t/venv/bin:/usr/bin:/bin");
    assert_eq!(plan.virtual_env, "/t/venv");
}

#[test]
fn venv_exec_plan_rejects_missing_or_empty_commands() {
    let none = venv_exec_plan("/v", "/bin", None, &vec![]).unwrap_err();
    match none {
        TuxBoxError::ExecutionError(m) => assert_eq!(m, "No run command specified for this tool"),
        other => panic!("unexpected error: {:?}", other),
    }
    let empty = " ".to_string();
    let err = venv_exec_plan("/v", "/bin", Some(&empty), &vec![]).unwrap_err();
    match err {
        TuxBoxError::ExecutionError(m) => assert_eq!(m, "Empty run command"),
        other => panic!("unexpected error: {:?}", other),
    }
}

#[test]
fn interpreter_version_recheck() {
    assert!(verify_interpreter_version((3, 8), (3, 9)).is_ok());
    assert!(verify_interpreter_version((3, 8), (3, 8)).is_ok());
    let err = verify_interpreter_version((3, 10), (3, 6)).unwrap_err();
    match err {
        TuxBoxError::RuntimeUnavailable(m) => {
            assert_eq!(m, "The environment's Python is 3.6 but the tool requires 3.10 or newer")
        }
        other => panic!("unexpected error: {:?}", other),
    }
}

#[test]
fn hardcoded_fallback_table() {
    let t = get_hardcoded_tool_config("sshmenuc").unwrap();
    assert_eq!(t.repo, "https://github.com/disoardi/sshmenuc");
    assert_eq!(t.commands.unwrap().run, "python3 -m sshmenuc");
    let t = get_hardcoded_tool_config("test-tool").unwrap();
    assert_eq!(t.tool_type.as_deref(), Some("bash"));
    assert!(matches!(
        get_hardcoded_tool_config("nope").unwrap_err(),
        TuxBoxError::ToolNotFound(_)
    ));
}

#[test]
fn install_sequence_tries_strategies_in_order() {
    let ctx = InstallContext { pyproject_installable: true, has_requirements: true };
    // The package-manager upgrade is best-effort: failure changes nothing.
    assert_eq!(
        install_step(ctx, InstallPhase::UpgradePip, false),
        install_step(ctx, InstallPhase::UpgradePip, true)
    );
    assert_eq!(install_step(ctx, InstallPhase::UpgradePip, true), InstallPhase::Editable);
    assert_eq!(
        install_step(ctx, InstallPhase::Editable, true),
        InstallPhase::Done(InstallOutcome::Installed)
    );
    assert_eq!(install_step(ctx, InstallPhase::Editable, false), InstallPhase::Requirements);
    let no_reqs = InstallContext { pyproject_installable: true, has_requirements: false };
    assert_eq!(
        install_step(no_reqs, InstallPhase::Editable, false),
        InstallPhase::PoetryFallback
    );
    let nothing = InstallContext { pyproject_installable: false, has_requirements: false };
    assert_eq!(
        install_step(nothing, InstallPhase::UpgradePip, true),
        InstallPhase::Done(InstallOutcome::NothingToInstall)
    );
    assert_eq!(
        install_step(ctx, InstallPhase::Requirements, false),
        InstallPhase::Done(InstallOutcome::Failed)
    );
}

#[test]
fn build_system_detection() {
    assert!(pyproject_installable("[build-system]\nrequires = [\"poetry-core\"]\n"));
    assert!(!pyproject_installable("[tool.black]\nline-length = 100\n"));
}

#[test]
fn poetry_fallback_reads_the_dependency_table() {
    let manifest = "[tool.poetry]\nname = \"demo\"\n\n[tool.poetry.dependencies]\npython = \"^3.8\"\nrequests = \"*\"\nclick = \"8.1\"\n\n[tool.poetry.dependencies.mylib]\ngit = \"https://example.com/mylib.git\"\n";
    let packages = poetry_fallback_packages(manifest).expect("table exists");
    assert_eq!(packages, vec!["click", "requests"]);
    assert!(poetry_fallback_packages("name = \"demo\"\n").is_none());
    assert!(poetry_fallback_packages("not toml [").is_none());
}

#[test]
fn poetry_selection_excludes_runtime_and_sourced_entries() {
    let entries = vec![
        ("Python".to_string(), Vec::<String>::new()),
        ("requests".to_string(), Vec::<String>::new()),
        ("pinned".to_string(), vec!["path".to_string()]),
        ("versioned".to_string(), vec!["version".to_string()]),
    ];
    let picked = select_poetry_packages(&entries);
    assert_eq!(picked, vec!["requests", "versioned"]);
}

#[test]
fn path_registration_and_snippets() {
    assert_eq!(pth_content("/t/tool"), "/t/tool\n");
    assert_eq!(site_packages_snippet(), "import site; print(site.getsitepackages()[0])");
    assert_eq!(
        version_probe_snippet(3, 8),
        "import sys; exit(0 if sys.version_info >= (3, 8) else 1)"
    );
}

#[test]
fn container_naming_and_recipes() {
    assert_eq!(image_name("sshmenuc"), "tuxbox-sshmenuc");
    let v = "1.1.0".to_string();
    assert_eq!(container_name("sshmenuc", Some(&v)), "sshmenuc_1.1.0");
    assert_eq!(container_name("sshmenuc", None), "sshmenuc");
    assert_eq!(choose_build_source(true), BuildSource::ToolDockerfile);
    assert_eq!(choose_build_source(false), BuildSource::GeneratedStandard);
    let recipe = standard_dockerfile("3.14");
    assert!(recipe.starts_with("FROM python:3.14-slim\n"));
    assert!(recipe.contains("pip install --no-cache-dir -r requirements.txt"));
    assert_eq!(build_args_dockerfile("img"), vec!["build", "-t", "img", "."]);
    assert_eq!(
        build_args_standard("img"),
        vec!["build", "-f", "Dockerfile.tuxbox", "-t", "img", "."]
    );
}

#[test]
fn container_run_arguments() {
    let uid = "1000:1000".to_string();
    let args = container_run_args(
        "tuxbox-sshmenuc",
        "sshmenuc_1.1.0",
        true,
        "/home/u",
        Some(&uid),
        "sshmenuc",
        &vec!["--help".to_string()],
    );
    assert_eq!(
        args,
        vec![
            "run",
            "--rm",
            "--name",
            "sshmenuc_1.1.0",
            "-it",
            "--user",
            "1000:1000",
            "-e",
            "HOME=/home/u",
            "-v",
            "/home/u/.ssh:/home/u/.ssh:ro",
            "-v",
            "/home/u/.config:/home/u/.config",
            "-v",
            "/home/u:/home/u",
            "-w",
            "/app",
            "tuxbox-sshmenuc",
            "python3",
            "-m",
            "sshmenuc",
            "--help",
        ]
    );
    let plain = container_run_args("i", "c", false, "/h", None, "t", &vec![]);
    assert!(plain.contains(&"-i".to_string()));
    assert!(!plain.contains(&"--user".to_string()));
}

#[test]
fn init_updates_or_adds_the_named_registry() {
    let mut cfg = Config {
        registries: vec![make_registry_config("repo", "https://old/repo", 100)],
        registry_url: None,
    };
    init_config_update(&mut cfg, make_registry_config("repo", "git@new:u/repo.git", 100));
    assert_eq!(cfg.registries.len(), 1);
    assert_eq!(cfg.registries[0].url, "git@new:u/repo.git");
    init_config_update(&mut cfg, make_registry_config("other", "https://e/other", 300));
    assert_eq!(cfg.registries.len(), 2);
    assert_eq!(cfg.registries[0].name, "other");
}

#[test]
fn state_paths() {
    assert_eq!(state_file_path("/t/tool"), "/t/tool/.tuxbox-state.toml");
    // These consult the real home directory of the test environment.
    let home = tuxbox_home().unwrap();
    assert!(home.ends_with("/.tuxbox"));
    assert!(tools_dir().unwrap().ends_with("/.tuxbox/tools"));
}

#[test]
fn first_run_provisions_and_second_run_skips() {
    // End-to-end: tool not yet provisioned, no container engine,
    // python3.11 absent but python3.9 present, minimum 3.8.
    let mut setup_calls: u32 = 0;

    // No container engine: local-interpreter isolation.
    let env = detect_environment(false, false);
    assert_eq!(env, ExecutionEnvironment::LocalVenv);
    let tool = ToolConfig {
        name: "demo".to_string(),
        repo: "https://e/demo".to_string(),
        branch: None,
        version: None,
        tool_type: Some("python".to_string()),
        isolation: None,
        commands: Some(Commands { setup: None, run: "python3 -m demo".to_string() }),
        python_version: Some(">=3.8".to_string()),
    };
    assert_eq!(choose_execution(env, tool.tool_type.as_ref()).unwrap(), RunStrategy::VenvRun);

    // First run: no record yet, so the fast path orders provisioning.
    let prep = venv_run_prep(load_from(None, false)).unwrap();
    assert!(matches!(prep, VenvRunPrep::Provision));

    // Interpreter resolution: probes for minors 8..=13; only 3.9 answers.
    setup_calls += 1;
    let probe = vec![false, true, false, false, false, false];
    let (override_python, min) =
        resolve_python(tool.python_version.as_ref(), &probe, "/h/.pyenv/versions", &vec![])
            .unwrap();
    assert_eq!(override_python.as_deref(), Some("python3.9"));
    assert_eq!(min, (3, 8));

    // No venv directory yet: create one.
    setup_calls += 1;
    assert_eq!(decide_venv_action(false, false, true), VenvAction::Create);

    // Dependencies come from the plain requirements list.
    setup_calls += 1;
    let ctx = InstallContext { pyproject_installable: false, has_requirements: true };
    let phase = install_step(ctx, InstallPhase::UpgradePip, true);
    assert_eq!(phase, InstallPhase::Requirements);
    assert_eq!(install_step(ctx, phase, true), InstallPhase::Done(InstallOutcome::Installed));
    assert_eq!(setup_calls, 3);

    // The record is persisted...
    let record = ToolState::for_venv("/t/demo/venv".to_string(), "python3.9".to_string());
    let persisted = record.render();

    // ...and an immediate second run skips every setup step.
    let mut second_run_setup_calls: u32 = 0;
    let loaded = load_from(Some(persisted.as_str()), true);
    let prep = venv_run_prep(loaded).unwrap();
    match prep {
        VenvRunPrep::UseRecorded { venv_path } => {
            assert_eq!(venv_path, "/t/demo/venv");
        }
        VenvRunPrep::Provision => {
            second_run_setup_calls += 1;
            panic!("second run must not provision");
        }
    }
    assert_eq!(second_run_setup_calls, 0);

    // The recorded environment drives the execution plan.
    let run = tool.commands.as_ref().map(|c| &c.run);
    let plan = venv_exec_plan("/t/demo/venv", "/usr/bin", run, &vec![]).unwrap();
    assert_eq!(plan.program, "python3");
    assert_eq!(plan.virtual_env, "/t/demo/venv");
}

#[test]
fn error_messages_are_stable() {
    assert_eq!(
        TuxBoxError::ToolNotFound("x".to_string()).message(),
        "Tool 'x' not found in registry"
    );
    assert_eq!(
        TuxBoxError::NotInitialized.message(),
        "TuxBox not initialized. Run 'tbox init <registry-url>' first"
    );
    assert_eq!(TuxBoxError::IoError("boom".to_string()).message(), "IO error: boom");
}
