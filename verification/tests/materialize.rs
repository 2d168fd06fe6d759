use nps::cli::{log_level, LanguageCommand, RustCommand};
use nps::errors::Error;
use nps::nix::Nix;
use nps::paths::{name_or_dir_name, rename_destination};
use nps::pipeline::{next_stage, Stage, StageResult};
use nps::runner::{process_events, RunEvent, RunnerState, StreamSource};

#[test]
fn name_or_dir_name_prefers_the_given_name() {
    assert_eq!(name_or_dir_name(Some("given".to_string()), "some/dir"), Ok("given".to_string()));
}

#[test]
fn name_or_dir_name_takes_the_path_leaf() {
    assert_eq!(name_or_dir_name(None, "work/proj"), Ok("proj".to_string()));
    assert_eq!(name_or_dir_name(None, "work/proj///"), Ok("proj".to_string()));
    assert_eq!(name_or_dir_name(None, "proj"), Ok("proj".to_string()));
}

#[test]
fn name_or_dir_name_skips_trailing_dot_components() {
    assert_eq!(name_or_dir_name(None, "work/proj/."), Ok("proj".to_string()));
    assert_eq!(name_or_dir_name(None, "work/proj/./"), Ok("proj".to_string()));
    assert_eq!(name_or_dir_name(None, "x/."), Ok("x".to_string()));
    // a component merely ending in a dot is a real name
    assert_eq!(name_or_dir_name(None, "work/a."), Ok("a.".to_string()));
}

#[test]
fn name_or_dir_name_rejects_paths_without_a_leaf() {
    assert_eq!(name_or_dir_name(None, "/"), Err(Error::IoError));
    assert_eq!(name_or_dir_name(None, ""), Err(Error::IoError));
    assert_eq!(name_or_dir_name(None, "."), Err(Error::IoError));
    assert_eq!(name_or_dir_name(None, "./"), Err(Error::IoError));
    assert_eq!(name_or_dir_name(None, "a/.."), Err(Error::IoError));
}

#[test]
fn rename_destination_keeps_the_parent() {
    assert_eq!(rename_destination("work/old", "new"), "work/new");
    assert_eq!(rename_destination("old", "new"), "new");
    assert_eq!(rename_destination("/old", "new"), "/new");
}

#[test]
fn rename_destination_ignores_trailing_components() {
    // trailing separators and `.` components do not name the entry
    assert_eq!(rename_destination("a/b/", "new"), "a/new");
    assert_eq!(rename_destination("a/b/.", "new"), "a/new");
    assert_eq!(rename_destination("a/b/./", "new"), "a/new");
    assert_eq!(rename_destination("old/", "new"), "new");
}

#[test]
fn runner_surfaces_error_lines_before_resolving() {
    // the process writes to stderr and exits immediately; the line is
    // in the sink and the run still resolves with the exit status
    let events = vec![
        RunEvent::ErrLine("warning: something".to_string()),
        RunEvent::Exited(0),
        RunEvent::OutClosed,
        RunEvent::ErrClosed,
    ];
    let (sink, outcome) = process_events(events);
    assert_eq!(sink.len(), 1);
    assert_eq!(sink[0].source, StreamSource::Stderr);
    assert_eq!(sink[0].line, "warning: something");
    assert_eq!(outcome, Some(Ok(())));
}

#[test]
fn runner_interleaves_streams_in_arrival_order() {
    let events = vec![
        RunEvent::OutLine("a".to_string()),
        RunEvent::ErrLine("b".to_string()),
        RunEvent::OutLine("c".to_string()),
        RunEvent::OutClosed,
        RunEvent::ErrClosed,
        RunEvent::Exited(0),
    ];
    let (sink, outcome) = process_events(events);
    let got: Vec<(StreamSource, String)> =
        sink.into_iter().map(|t| (t.source, t.line)).collect();
    assert_eq!(
        got,
        vec![
            (StreamSource::Stdout, "a".to_string()),
            (StreamSource::Stderr, "b".to_string()),
            (StreamSource::Stdout, "c".to_string()),
        ]
    );
    assert_eq!(outcome, Some(Ok(())));
}

#[test]
fn runner_does_not_resolve_while_a_stream_is_open() {
    let events = vec![RunEvent::Exited(0), RunEvent::OutClosed];
    let (_, outcome) = process_events(events);
    assert_eq!(outcome, None);
}

#[test]
fn runner_reports_non_zero_exit() {
    // status 1 and no output at all
    let events = vec![RunEvent::OutClosed, RunEvent::ErrClosed, RunEvent::Exited(1)];
    let (sink, outcome) = process_events(events);
    assert!(sink.is_empty());
    assert_eq!(outcome, Some(Err(Error::NonZeroExit(1))));
}

#[test]
fn runner_state_steps_accumulate() {
    let mut st = RunnerState::new();
    assert_eq!(st.outcome(), None);
    st.step(RunEvent::ErrLine("x".to_string()));
    st.step(RunEvent::OutClosed);
    st.step(RunEvent::ErrClosed);
    assert_eq!(st.outcome(), None);
    st.step(RunEvent::Exited(7));
    assert_eq!(st.outcome(), Some(Err(Error::NonZeroExit(7))));
    assert_eq!(st.sink.len(), 1);
}

#[test]
fn pipeline_advances_in_order_on_success() {
    let mut s = Stage::Idle;
    let order = [
        Stage::TemplateFetching,
        Stage::RootPatching,
        Stage::DirectoryRenaming,
        Stage::NestedPatching,
        Stage::AuxiliaryWriting,
        Stage::Done,
    ];
    for expected in order {
        s = next_stage(s, StageResult::Success);
        assert_eq!(s, expected);
    }
    assert_eq!(next_stage(s, StageResult::Success), Stage::Done);
}

#[test]
fn fetch_failure_aborts_before_any_patching() {
    // the external fetch exits with status 1: the run fails with
    // NonZeroExit and no patch or rename stage executes
    let failed = next_stage(Stage::TemplateFetching, StageResult::Failure(Error::NonZeroExit(1)));
    assert_eq!(failed, Stage::Failed(Error::NonZeroExit(1)));
    let mut s = failed;
    for _ in 0..4 {
        s = next_stage(s, StageResult::Success);
        assert_eq!(s, Stage::Failed(Error::NonZeroExit(1)));
    }
}

#[test]
fn rename_failure_on_missing_source_is_terminal() {
    // renaming a non-existent source path fails with FileNotFound and
    // the pipeline never reaches the stages that would touch the
    // destination
    let s = next_stage(Stage::DirectoryRenaming, StageResult::Failure(Error::FileNotFound));
    assert_eq!(s, Stage::Failed(Error::FileNotFound));
    assert_eq!(next_stage(s, StageResult::Success), Stage::Failed(Error::FileNotFound));
}

#[test]
fn crate_plan_matches_the_template_shape() {
    let cmd = RustCommand::Crate {
        path: "work/proj".to_string(),
        project_name: None,
        name: None,
    };
    assert_eq!(cmd.template_name(), "simple-crate");
    assert_eq!(cmd.path(), "work/proj");
    let plan = cmd.plan().unwrap();
    assert_eq!(plan.template, "github:yusdacra/nix-cargo-integration#simple-crate");
    assert_eq!(plan.root_patches.len(), 3);
    assert_eq!(plan.root_patches[0].path, "flake.nix");
    assert_eq!(plan.root_patches[0].queries[0].from, "my-crate");
    assert_eq!(plan.root_patches[0].queries[0].to, "proj");
    assert_eq!(plan.root_patches[1].path, "crates.nix");
    assert_eq!(plan.root_patches[1].queries[1].from, "simple");
    assert_eq!(plan.root_patches[1].queries[1].to, "proj");
    assert_eq!(plan.root_patches[2].path, "Cargo.toml");
    assert_eq!(plan.root_patches[2].queries[1].from, "2018");
    assert_eq!(plan.root_patches[2].queries[1].to, "2021");
    assert!(plan.renames.is_empty());
    assert!(plan.nested_patches.is_empty());
    assert_eq!(plan.aux_writes.len(), 4);
    assert_eq!(plan.aux_writes[0].path, ".envrc");
    assert_eq!(
        plan.aux_writes[0].content,
        "watch_file flake.nix\nwatch_file crates.nix\n\nrust-toolchain.toml\n\nuse flake ."
    );
    assert_eq!(plan.aux_writes[1].path, ".ignore");
    assert_eq!(plan.aux_writes[1].content, "target/\n.direnv/");
    assert_eq!(plan.aux_writes[2].path, ".gitignore");
    assert_eq!(plan.aux_writes[3].path, "rust-toolchain.toml");
    assert!(plan.aux_writes[3].content.starts_with("[toolchain]\nchannel = \"nightly\""));
}

#[test]
fn workspace_plan_renames_and_patches_nested_manifests() {
    let cmd = RustCommand::Workspace {
        path: "work/ws".to_string(),
        bin_name: "mybin".to_string(),
        lib_name: None,
        project_name: Some("myproj".to_string()),
    };
    assert_eq!(cmd.template_name(), "simple-workspace");
    let plan = cmd.plan().unwrap();
    assert_eq!(plan.template, "github:yusdacra/nix-cargo-integration#simple-workspace");
    assert_eq!(plan.root_patches[2].queries[0].from, "[\"my-workspace-crate\", \"my-other-workspace-crate\"]");
    assert_eq!(plan.root_patches[2].queries[0].to, "[\"mybin\", \"mybin_core\"]");
    assert_eq!(plan.renames.len(), 2);
    assert_eq!(plan.renames[0].path, "my-workspace-crate");
    assert_eq!(plan.renames[0].new_name, "mybin");
    assert_eq!(plan.renames[1].path, "my-other-workspace-crate");
    assert_eq!(plan.renames[1].new_name, "mybin_core");
    assert_eq!(plan.nested_patches.len(), 2);
    assert_eq!(plan.nested_patches[0].path, "mybin/Cargo.toml");
    assert_eq!(plan.nested_patches[1].path, "mybin_core/Cargo.toml");
    assert_eq!(plan.nested_patches[1].queries[0].from, "my-other-workspace-crate");
    assert_eq!(plan.nested_patches[1].queries[0].to, "mybin_core");
}

#[test]
fn plan_fails_without_a_usable_project_name() {
    let cmd = RustCommand::Crate { path: "/".to_string(), project_name: None, name: None };
    assert_eq!(cmd.plan().err(), Some(Error::IoError));
}

#[test]
fn language_command_delegates_to_rust() {
    let cmd = LanguageCommand::Rust {
        command: RustCommand::Crate {
            path: "p".to_string(),
            project_name: None,
            name: Some("n".to_string()),
        },
    };
    let plan = cmd.plan().unwrap();
    assert_eq!(plan.root_patches[0].queries[0].to, "n");
}

#[test]
fn nix_invocation_is_flake_init() {
    let nix = Nix::from_path("/usr/bin/nix".to_string());
    assert_eq!(nix.path(), "/usr/bin/nix");
    let args = nix.init_template_args("github:example#simple-crate");
    assert_eq!(args, vec!["flake", "init", "-t", "github:example#simple-crate"]);
}

#[test]
fn log_level_picks_the_most_verbose_flag() {
    assert_eq!(log_level(false, false, false), "info");
    assert_eq!(log_level(true, false, false), "warning");
    assert_eq!(log_level(true, true, false), "debug");
    assert_eq!(log_level(false, true, true), "tracing");
}

#[test]
fn errors_describe_themselves() {
    assert_eq!(Error::FileNotFound.describe(), "a required file does not exist");
    assert_eq!(
        Error::NonZeroExit(2).describe(),
        "the external process exited with a non-zero status"
    );
}
