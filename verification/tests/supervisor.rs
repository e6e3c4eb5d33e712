use run_sh::config::{Config, Environment};
use run_sh::hypervisor::languages::Languages;
use run_sh::hypervisor::requests::{
    build_context, container_name, container_spec, image_tag, scratch_dir, ExecSpec, ImageBuild,
    CPU_QUOTA_NANOS, DEADLINE_SECS, MEMORY_LIMIT,
};
use run_sh::hypervisor::runner::{Action, EmptyOutput, Event, Phase};
use run_sh::hypervisor::startup::{StartupAction, StartupError, StartupEvent};
use run_sh::hypervisor::Hypervisor;
use std::collections::HashSet;

fn config(languages: &[&str], runtime: Option<&str>) -> Config {
    Config {
        environment: Environment::Development,
        discord_token: String::from("token"),
        discord_application_id: 1,
        languages: languages.iter().map(|name| name.to_string()).collect(),
        docker_endpoint: String::from("unix:///var/run/docker.sock"),
        docker_runtime: runtime.map(|name| name.to_string()),
        database_url: String::from("postgres://localhost/run"),
    }
}

#[test]
fn a_new_supervisor_has_the_default_policy() {
    let hypervisor = Hypervisor::new(config(&["python"], None));
    assert_eq!(hypervisor.deadline_secs, 10);
    assert_eq!(hypervisor.deadline_secs, DEADLINE_SECS);
    assert_eq!(hypervisor.empty_output, EmptyOutput::Succeeds);
    assert_eq!(hypervisor.config.languages, vec![String::from("python")]);
    let changed = hypervisor.with_deadline(25).with_empty_output(EmptyOutput::Fails);
    assert_eq!(changed.deadline_secs, 25);
    assert_eq!(changed.empty_output, EmptyOutput::Fails);
    assert_eq!(changed.config.languages, vec![String::from("python")]);
}

#[test]
fn names_are_derived_from_language_and_identifier() {
    assert_eq!(image_tag(&Languages::Python), "run.sh_python:latest");
    assert_eq!(image_tag(&Languages::Golang), "run.sh_go:latest");
    assert_eq!(container_name(&Languages::Python, 0), "run.sh_python_0");
    assert_eq!(container_name(&Languages::Golang, 4294967294), "run.sh_go_4294967294");
    assert_eq!(scratch_dir(0), "/tmp/eval/0");
    assert_eq!(scratch_dir(123456), "/tmp/eval/123456");
    assert_eq!(build_context("/srv/run", &Languages::Cpp), "/srv/run/languages/cpp");
}

#[test]
fn the_policy_caps_cpu_memory_and_network() {
    let spec = Hypervisor::new(config(&[], None)).create_container(&Languages::Rust, 5);
    assert_eq!(spec.name, "run.sh_rust_5");
    assert_eq!(spec.image, "run.sh_rust:latest");
    assert_eq!(spec.user, "1000:1000");
    assert_eq!(spec.working_dir, "/tmp");
    assert_eq!(spec.network_mode, "none");
    assert!(spec.auto_remove);
    assert!(spec.tty);
    assert_eq!(spec.nano_cpus, 250_000_000);
    assert_eq!(spec.nano_cpus, CPU_QUOTA_NANOS);
    assert_eq!(spec.memory, 128 * 1024 * 1024);
    assert_eq!(spec.memory, MEMORY_LIMIT);
    assert_eq!(spec.memory_swap, 128 * 1024 * 1024);
    assert_eq!(spec.memory_swap as u64, spec.memory);
    assert_eq!(spec.command, vec!["tail", "-f", "/dev/null"]);
    assert_eq!(spec.runtime, None);
}

#[test]
fn the_hardened_runtime_is_asked_for_where_configured() {
    let spec = Hypervisor::new(config(&[], Some("runsc"))).create_container(&Languages::Rust, 5);
    assert_eq!(spec.runtime, Some(String::from("runsc")));
    assert_eq!(spec, container_spec(&Languages::Rust, 5, Some(String::from("runsc"))));
}

#[test]
fn starting_a_container_sets_up_the_scratch_root() {
    let actions = Hypervisor::new(config(&[], None)).start_container(&Languages::Lua, 3);
    let setup = |command: &[&str]| ExecSpec {
        command: command.iter().map(|word| word.to_string()).collect(),
        user: None,
        working_dir: None,
        attach_stdout: true,
        attach_stderr: true,
    };
    assert_eq!(
        actions,
        vec![
            Action::Start(String::from("run.sh_lua_3")),
            Action::Exec(String::from("run.sh_lua_3"), setup(&["mkdir", "-p", "/tmp/eval"])),
            Action::Exec(String::from("run.sh_lua_3"), setup(&["chmod", "771", "/tmp/eval"])),
        ]
    );
}

#[test]
fn the_runner_starts_a_container_as_start_container_says() {
    let hypervisor = Hypervisor::new(config(&[], None));
    let (mut runner, _) = hypervisor.run(&Languages::Lua, "print(1)", 3);
    let asked: Vec<Action> = (0..3).map(|_| runner.step(Event::Done)).collect();
    assert_eq!(asked, hypervisor.start_container(&Languages::Lua, 3));
}

fn build(context: &str, tag: &str) -> StartupAction {
    StartupAction::Build(ImageBuild { context: context.to_string(), tag: tag.to_string() })
}

#[test]
fn init_builds_in_the_order_configured() {
    let hypervisor = Hypervisor::new(config(&["rust", "go", "python"], None));
    let (mut startup, first) = hypervisor.init("/srv/run");
    assert_eq!(first, build("/srv/run/languages/rust", "run.sh_rust:latest"));
    assert!(!startup.finished());
    assert_eq!(startup.built(), 0);
    assert_eq!(
        startup.step(StartupEvent::Built),
        build("/srv/run/languages/go", "run.sh_go:latest")
    );
    assert_eq!(startup.built(), 1);
    assert_eq!(
        startup.step(StartupEvent::Built),
        build("/srv/run/languages/python", "run.sh_python:latest")
    );
    assert_eq!(startup.step(StartupEvent::Built), StartupAction::Finish);
    assert!(startup.finished());
    assert_eq!(startup.built(), 3);
    assert_eq!(startup.finish(), Some(Ok(())));
}

#[test]
fn init_stops_at_the_first_build_that_fails() {
    let hypervisor = Hypervisor::new(config(&["rust", "python", "lua"], None));
    let (mut startup, first) = hypervisor.init("/srv/run");
    assert_eq!(first, build("/srv/run/languages/rust", "run.sh_rust:latest"));
    assert_eq!(startup.step(StartupEvent::Failed(String::from("no space"))), StartupAction::Finish);
    assert!(startup.finished());
    assert_eq!(startup.built(), 0);
    assert_eq!(startup.step(StartupEvent::Built), StartupAction::Finish);
    assert_eq!(startup.step(StartupEvent::Failed(String::from("again"))), StartupAction::Finish);
    assert_eq!(startup.finish(), Some(Err(StartupError::Build(String::from("no space")))));

    let (mut startup, _) = hypervisor.init("/srv/run");
    startup.step(StartupEvent::Built);
    assert_eq!(startup.step(StartupEvent::Failed(String::from("late"))), StartupAction::Finish);
    assert_eq!(startup.built(), 1);
    assert_eq!(startup.finish(), Some(Err(StartupError::Build(String::from("late")))));
}

#[test]
fn init_fails_on_an_entry_that_names_no_language() {
    let hypervisor = Hypervisor::new(config(&["rust", "cobol", "python"], None));
    let (mut startup, first) = hypervisor.init("/srv/run");
    assert_eq!(first, build("/srv/run/languages/rust", "run.sh_rust:latest"));
    assert_eq!(startup.step(StartupEvent::Built), StartupAction::Finish);
    assert!(startup.finished());
    assert_eq!(startup.built(), 1);
    assert_eq!(startup.finish(), Some(Err(StartupError::Unknown(String::from("cobol")))));

    for entry in ["cobol", "golang", "py", "Rust", ""] {
        let (startup, first) = Hypervisor::new(config(&[entry, "rust"], None)).init("/srv");
        assert_eq!(first, StartupAction::Finish);
        assert_eq!(startup.built(), 0);
        assert_eq!(startup.finish(), Some(Err(StartupError::Unknown(entry.to_string()))));
    }
}

#[test]
fn init_builds_an_entry_given_twice_twice() {
    let hypervisor = Hypervisor::new(config(&["go", "go"], None));
    let (mut startup, first) = hypervisor.init("/srv/run");
    assert_eq!(first, build("/srv/run/languages/go", "run.sh_go:latest"));
    assert_eq!(
        startup.step(StartupEvent::Built),
        build("/srv/run/languages/go", "run.sh_go:latest")
    );
    assert_eq!(startup.step(StartupEvent::Built), StartupAction::Finish);
    assert_eq!(startup.finish(), Some(Ok(())));
}

#[test]
fn init_with_nothing_configured_is_over_at_once() {
    let (startup, first) = Hypervisor::new(config(&[], None)).init("/srv/run");
    assert_eq!(first, StartupAction::Finish);
    assert!(startup.finished());
    assert_eq!(startup.finish(), Some(Ok(())));
}

#[test]
fn an_unfinished_startup_has_no_result() {
    let (startup, _) = Hypervisor::new(config(&["rust"], None)).init("/srv/run");
    assert_eq!(startup.finish(), None);
}

#[test]
fn build_image_names_context_and_tag() {
    let build = Hypervisor::new(config(&[], None)).build_image(&Languages::Haskell, "/app");
    assert_eq!(build.context, "/app/languages/haskell");
    assert_eq!(build.tag, "run.sh_haskell:latest");
}

#[test]
fn stop_kills_each_listed_container_by_its_first_name() {
    let hypervisor = Hypervisor::new(config(&[], None));
    let listed = vec![
        vec![String::from("/run.sh_python_1")],
        vec![String::from("/run.sh_rust_2"), String::from("/alias")],
        vec![],
        vec![String::from("run.sh_go_3")],
    ];
    assert_eq!(hypervisor.stop(&listed), vec!["run.sh_python_1", "run.sh_rust_2", "run.sh_go_3"]);
    assert_eq!(hypervisor.stop(&vec![]), Vec::<String>::new());
    assert_eq!(Hypervisor::stop_filter(), "run.sh_*");
}

#[test]
fn exec_draws_an_identifier_and_begins_with_the_creation() {
    let hypervisor = Hypervisor::new(config(&["python"], None));
    for _ in 0..200 {
        let (runner, action) = hypervisor.exec(&Languages::Python, "print(1)");
        assert!(runner.id() < u32::MAX);
        assert_eq!(runner.phase(), Phase::Creating);
        assert_eq!(runner.language(), Languages::Python);
        assert_eq!(action, Action::Create(hypervisor.create_container(&Languages::Python, runner.id())));
    }
}

#[test]
fn exec_does_not_hand_out_one_identifier_again_and_again() {
    let hypervisor = Hypervisor::new(config(&["python"], None));
    let ids: HashSet<u32> =
        (0..64).map(|_| hypervisor.exec(&Languages::Python, "print(1)").0.id()).collect();
    assert!(ids.len() > 1);
}

#[test]
fn concurrent_executions_do_not_share_container_or_directory() {
    let mut containers = HashSet::new();
    let mut directories = HashSet::new();
    for id in [0u32, 1, 9, 10, 11, 99, 100, 101, 110, 111, 1000, u32::MAX - 1] {
        for language in Languages::all() {
            assert!(containers.insert(container_name(&language, id)));
        }
        assert!(directories.insert(scratch_dir(id)));
    }
}
