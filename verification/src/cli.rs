//! The user-facing commands and the plans they resolve to.
//!
//! A command names a destination path and the identifiers to use; its
//! plan fixes, in pipeline order, the template to fetch, the files to
//! patch with which substitution queries, the directory entries to
//! rename, and the auxiliary files to write. Parsing the command line
//! into these types is the caller's job.

use vstd::prelude::*;
use crate::errors::Error;
use crate::paths::name_or_dir_name;
use crate::paths::name_or_dir_name_spec;
use crate::patch::Replacement;
use crate::patch::reps_model;
use crate::pipeline::FilePatch;
use crate::pipeline::FileWrite;
use crate::pipeline::Plan;
use crate::pipeline::RenameStep;
use crate::query::simple_query;

verus! {

/// A tool that sets up a new project with a fully prepared
/// flake-based development shell.
pub struct Cli {
    /// The language to start a project with.
    pub language: LanguageCommand,
    /// Quiet verbosity level.
    pub quiet: bool,
    /// Debug verbosity level.
    pub debug: bool,
    /// Trace verbosity level.
    pub trace: bool,
}

/// The supported languages.
pub enum LanguageCommand {
    /// Commands for setting up a new Rust project.
    Rust {
        /// The Rust project shape to set up.
        command: RustCommand,
    },
}

impl LanguageCommand {
    /// The plan this command resolves to.
    pub fn plan(self) -> (r: Result<Plan, Error>)
        ensures
            match self {
                LanguageCommand::Rust { command } => plan_ok(command, r),
            },
    {
        match self {
            LanguageCommand::Rust { command } => command.plan(),
        }
    }
}

/// The Rust project shapes.
pub enum RustCommand {
    /// A single-crate project.
    Crate {
        /// Destination path of the project.
        path: String,
        /// Project name (defaults to the directory name from the path).
        project_name: Option<String>,
        /// Crate name (defaults to the project name).
        name: Option<String>,
    },
    /// A workspace with a binary and a library crate.
    Workspace {
        /// Destination path of the project.
        path: String,
        /// Name of the bin crate.
        bin_name: String,
        /// Name of the lib crate (defaults to the bin name with a
        /// `_core` suffix).
        lib_name: Option<String>,
        /// Name of the project (defaults to the directory name from
        /// the path).
        project_name: Option<String>,
    },
}

/// The common part of the template locator.
pub open spec fn template_base() -> Seq<char> {
    "github:yusdacra/nix-cargo-integration#"@
}

/// The environment-activation file's fixed content.
pub open spec fn envrc_content() -> Seq<char> {
    "watch_file flake.nix\nwatch_file crates.nix\n\nrust-toolchain.toml\n\nuse flake ."@
}

/// The ignore-rules files' fixed content.
pub open spec fn ignore_content() -> Seq<char> {
    "target/\n.direnv/"@
}

/// The toolchain pin's fixed content.
pub open spec fn toolchain_content() -> Seq<char> {
    "[toolchain]\nchannel = \"nightly\"\ncomponents = [\n    \"rustc\",\n    \"rust-src\",\n    \"rust-std\",\n    \"rust-analysis\",\n    \"rustfmt\",\n    \"clippy\",\n    \"rust-analyzer\",\n]\n"@
}

/// The auxiliary files every plan writes, in order.
pub open spec fn aux_ok(p: Plan) -> bool {
    &&& p.aux_writes@.len() == 4
    &&& p.aux_writes@[0].path@ == ".envrc"@
    &&& p.aux_writes@[0].content@ == envrc_content()
    &&& p.aux_writes@[1].path@ == ".ignore"@
    &&& p.aux_writes@[1].content@ == ignore_content()
    &&& p.aux_writes@[2].path@ == ".gitignore"@
    &&& p.aux_writes@[2].content@ == ignore_content()
    &&& p.aux_writes@[3].path@ == "rust-toolchain.toml"@
    &&& p.aux_writes@[3].content@ == toolchain_content()
}

/// The plan of a single-crate project with the resolved project and
/// crate names.
pub open spec fn crate_plan_ok(project: Seq<char>, name: Seq<char>, p: Plan) -> bool {
    &&& p.template@ == template_base() + "simple-crate"@
    &&& p.root_patches@.len() == 3
    &&& p.root_patches@[0].path@ == "flake.nix"@
    &&& reps_model(p.root_patches@[0].queries@) == seq![("my-crate"@, name)]
    &&& p.root_patches@[0].strict
    &&& p.root_patches@[1].path@ == "crates.nix"@
    &&& reps_model(p.root_patches@[1].queries@) == seq![("my-crate"@, name), ("simple"@, project)]
    &&& p.root_patches@[1].strict
    &&& p.root_patches@[2].path@ == "Cargo.toml"@
    &&& reps_model(p.root_patches@[2].queries@) == seq![("my-crate"@, name), ("2018"@, "2021"@)]
    &&& p.root_patches@[2].strict
    &&& p.renames@.len() == 0
    &&& p.nested_patches@.len() == 0
    &&& aux_ok(p)
}

/// The workspace manifest's members list, before and after.
pub open spec fn members_from() -> Seq<char> {
    "[\"my-workspace-crate\", \"my-other-workspace-crate\"]"@
}

/// The members list with the chosen crate names.
pub open spec fn members_to(bin: Seq<char>, lib: Seq<char>) -> Seq<char> {
    "[\""@ + bin + "\", \""@ + lib + "\"]"@
}

/// The plan of a workspace project with the resolved project, bin and
/// lib names.
pub open spec fn workspace_plan_ok(project: Seq<char>, bin: Seq<char>, lib: Seq<char>, p: Plan) -> bool {
    &&& p.template@ == template_base() + "simple-workspace"@
    &&& p.root_patches@.len() == 3
    &&& p.root_patches@[0].path@ == "flake.nix"@
    &&& reps_model(p.root_patches@[0].queries@) == seq![
        ("my-project"@, project),
        ("my-crate"@, bin),
    ]
    &&& p.root_patches@[0].strict
    &&& p.root_patches@[1].path@ == "crates.nix"@
    &&& reps_model(p.root_patches@[1].queries@) == seq![
        ("my-project"@, project),
        ("my-workspace-crate"@, bin),
        ("my-other-workspace-crate"@, lib),
    ]
    &&& p.root_patches@[1].strict
    &&& p.root_patches@[2].path@ == "Cargo.toml"@
    &&& reps_model(p.root_patches@[2].queries@) == seq![(members_from(), members_to(bin, lib))]
    &&& p.root_patches@[2].strict
    &&& p.renames@.len() == 2
    &&& p.renames@[0].path@ == "my-workspace-crate"@
    &&& p.renames@[0].new_name@ == bin
    &&& p.renames@[1].path@ == "my-other-workspace-crate"@
    &&& p.renames@[1].new_name@ == lib
    &&& p.nested_patches@.len() == 2
    &&& p.nested_patches@[0].path@ == bin + "/Cargo.toml"@
    &&& reps_model(p.nested_patches@[0].queries@) == seq![("my-workspace-crate"@, bin)]
    &&& p.nested_patches@[0].strict
    &&& p.nested_patches@[1].path@ == lib + "/Cargo.toml"@
    &&& reps_model(p.nested_patches@[1].queries@) == seq![("my-other-workspace-crate"@, lib)]
    &&& p.nested_patches@[1].strict
    &&& aux_ok(p)
}

/// What `RustCommand::plan` returns: the name resolution's error, or
/// the plan of the command's shape with the resolved names.
pub open spec fn plan_ok(cmd: RustCommand, r: Result<Plan, Error>) -> bool {
    match cmd {
        RustCommand::Crate { path, project_name, name } => match name_or_dir_name_spec(
            project_name,
            path@,
        ) {
            Result::Err(e) => r == Result::<Plan, Error>::Err(e),
            Result::Ok(project) => {
                let nm = match name {
                    Option::Some(n) => n@,
                    Option::None => project,
                };
                r is Ok && crate_plan_ok(project, nm, r->Ok_0)
            },
        },
        RustCommand::Workspace { path, bin_name, lib_name, project_name } => match name_or_dir_name_spec(
            project_name,
            path@,
        ) {
            Result::Err(e) => r == Result::<Plan, Error>::Err(e),
            Result::Ok(project) => {
                let lib = match lib_name {
                    Option::Some(l) => l@,
                    Option::None => bin_name@ + "_core"@,
                };
                r is Ok && workspace_plan_ok(project, bin_name@, lib, r->Ok_0)
            },
        },
    }
}

/// The auxiliary files every run writes.
fn aux_writes() -> (r: Vec<FileWrite>)
    ensures
        r@.len() == 4,
        r@[0].path@ == ".envrc"@,
        r@[0].content@ == envrc_content(),
        r@[1].path@ == ".ignore"@,
        r@[1].content@ == ignore_content(),
        r@[2].path@ == ".gitignore"@,
        r@[2].content@ == ignore_content(),
        r@[3].path@ == "rust-toolchain.toml"@,
        r@[3].content@ == toolchain_content(),
{
    let mut r: Vec<FileWrite> = Vec::new();
    r.push(
        FileWrite {
            path: ".envrc".to_owned(),
            content:
                "watch_file flake.nix\nwatch_file crates.nix\n\nrust-toolchain.toml\n\nuse flake .".to_owned(),
        },
    );
    r.push(FileWrite { path: ".ignore".to_owned(), content: "target/\n.direnv/".to_owned() });
    r.push(FileWrite { path: ".gitignore".to_owned(), content: "target/\n.direnv/".to_owned() });
    r.push(
        FileWrite {
            path: "rust-toolchain.toml".to_owned(),
            content:
                "[toolchain]\nchannel = \"nightly\"\ncomponents = [\n    \"rustc\",\n    \"rust-src\",\n    \"rust-std\",\n    \"rust-analysis\",\n    \"rustfmt\",\n    \"clippy\",\n    \"rust-analyzer\",\n]\n".to_owned(),
        },
    );
    r
}

impl RustCommand {
    /// The destination path of the project.
    pub fn path(&self) -> (r: &String)
        ensures
            r@ == match self {
                RustCommand::Crate { path, .. } => path@,
                RustCommand::Workspace { path, .. } => path@,
            },
    {
        match self {
            RustCommand::Crate { path, .. } => path,
            RustCommand::Workspace { path, .. } => path,
        }
    }

    /// The template variant this shape fetches.
    pub fn template_name(&self) -> (r: &'static str)
        ensures
            r@ == match self {
                RustCommand::Crate { .. } => "simple-crate"@,
                RustCommand::Workspace { .. } => "simple-workspace"@,
            },
    {
        match self {
            RustCommand::Crate { .. } => "simple-crate",
            RustCommand::Workspace { .. } => "simple-workspace",
        }
    }

    /// The full template locator this shape fetches.
    pub fn template_locator(&self) -> (r: String)
        ensures
            r@ == template_base() + match self {
                RustCommand::Crate { .. } => "simple-crate"@,
                RustCommand::Workspace { .. } => "simple-workspace"@,
            },
    {
        let mut t = "github:yusdacra/nix-cargo-integration#".to_owned();
        t.append(self.template_name());
        t
    }

    /// Resolves this command to its plan: the template to fetch, the
    /// substitution queries per root and nested file, the directory
    /// renames, and the auxiliary files, exactly as the shape and the
    /// chosen identifiers dictate. Fails only when no project name is
    /// given and the destination path has no usable leaf name.
    pub fn plan(self) -> (r: Result<Plan, Error>)
        ensures
            plan_ok(self, r),
    {
        let locator = self.template_locator();
        match self {
            RustCommand::Crate { path, project_name, name } => {
                let project = match name_or_dir_name(project_name, path.as_str()) {
                    Ok(p) => p,
                    Err(e) => {
                        return Err(e);
                    },
                };
                let name = match name {
                    Option::Some(n) => n,
                    Option::None => project.clone(),
                };
                let mut root_patches: Vec<FilePatch> = Vec::new();
                let mut q0: Vec<Replacement> = Vec::new();
                q0.push(simple_query("my-crate", name.as_str()));
                root_patches.push(
                    FilePatch { path: "flake.nix".to_owned(), queries: q0, strict: true },
                );
                let mut q1: Vec<Replacement> = Vec::new();
                q1.push(simple_query("my-crate", name.as_str()));
                q1.push(simple_query("simple", project.as_str()));
                root_patches.push(
                    FilePatch { path: "crates.nix".to_owned(), queries: q1, strict: true },
                );
                let mut q2: Vec<Replacement> = Vec::new();
                q2.push(simple_query("my-crate", name.as_str()));
                q2.push(simple_query("2018", "2021"));
                root_patches.push(
                    FilePatch { path: "Cargo.toml".to_owned(), queries: q2, strict: true },
                );
                let plan = Plan {
                    template: locator,
                    root_patches,
                    renames: Vec::new(),
                    nested_patches: Vec::new(),
                    aux_writes: aux_writes(),
                };
                proof {
                    assert(reps_model(plan.root_patches@[0].queries@) =~~= seq![
                        ("my-crate"@, name@),
                    ]);
                    assert(reps_model(plan.root_patches@[1].queries@) =~~= seq![
                        ("my-crate"@, name@),
                        ("simple"@, project@),
                    ]);
                    assert(reps_model(plan.root_patches@[2].queries@) =~~= seq![
                        ("my-crate"@, name@),
                        ("2018"@, "2021"@),
                    ]);
                }
                Ok(plan)
            },
            RustCommand::Workspace { path, bin_name, lib_name, project_name } => {
                let project = match name_or_dir_name(project_name, path.as_str()) {
                    Ok(p) => p,
                    Err(e) => {
                        return Err(e);
                    },
                };
                let lib_name = match lib_name {
                    Option::Some(l) => l,
                    Option::None => {
                        let mut l = bin_name.clone();
                        l.append("_core");
                        l
                    },
                };
                let mut root_patches: Vec<FilePatch> = Vec::new();
                let mut q0: Vec<Replacement> = Vec::new();
                q0.push(simple_query("my-project", project.as_str()));
                q0.push(simple_query("my-crate", bin_name.as_str()));
                root_patches.push(
                    FilePatch { path: "flake.nix".to_owned(), queries: q0, strict: true },
                );
                let mut q1: Vec<Replacement> = Vec::new();
                q1.push(simple_query("my-project", project.as_str()));
                q1.push(simple_query("my-workspace-crate", bin_name.as_str()));
                q1.push(simple_query("my-other-workspace-crate", lib_name.as_str()));
                root_patches.push(
                    FilePatch { path: "crates.nix".to_owned(), queries: q1, strict: true },
                );
                let mut members = "[\"".to_owned();
                members.append(bin_name.as_str());
                members.append("\", \"");
                members.append(lib_name.as_str());
                members.append("\"]");
                proof {
                    assert(members@ =~= members_to(bin_name@, lib_name@));
                }
                let mut q2: Vec<Replacement> = Vec::new();
                q2.push(
                    simple_query(
                        "[\"my-workspace-crate\", \"my-other-workspace-crate\"]",
                        members.as_str(),
                    ),
                );
                root_patches.push(
                    FilePatch { path: "Cargo.toml".to_owned(), queries: q2, strict: true },
                );
                let mut renames: Vec<RenameStep> = Vec::new();
                renames.push(
                    RenameStep {
                        path: "my-workspace-crate".to_owned(),
                        new_name: bin_name.clone(),
                    },
                );
                renames.push(
                    RenameStep {
                        path: "my-other-workspace-crate".to_owned(),
                        new_name: lib_name.clone(),
                    },
                );
                let mut nested_patches: Vec<FilePatch> = Vec::new();
                let mut bin_manifest = bin_name.clone();
                bin_manifest.append("/Cargo.toml");
                let mut q3: Vec<Replacement> = Vec::new();
                q3.push(simple_query("my-workspace-crate", bin_name.as_str()));
                nested_patches.push(FilePatch { path: bin_manifest, queries: q3, strict: true });
                let mut lib_manifest = lib_name.clone();
                lib_manifest.append("/Cargo.toml");
                let mut q4: Vec<Replacement> = Vec::new();
                q4.push(simple_query("my-other-workspace-crate", lib_name.as_str()));
                nested_patches.push(FilePatch { path: lib_manifest, queries: q4, strict: true });
                let plan = Plan {
                    template: locator,
                    root_patches,
                    renames,
                    nested_patches,
                    aux_writes: aux_writes(),
                };
                proof {
                    assert(reps_model(plan.root_patches@[0].queries@) =~~= seq![
                        ("my-project"@, project@),
                        ("my-crate"@, bin_name@),
                    ]);
                    assert(reps_model(plan.root_patches@[1].queries@) =~~= seq![
                        ("my-project"@, project@),
                        ("my-workspace-crate"@, bin_name@),
                        ("my-other-workspace-crate"@, lib_name@),
                    ]);
                    assert(reps_model(plan.root_patches@[2].queries@) =~~= seq![
                        (members_from(), members_to(bin_name@, lib_name@)),
                    ]);
                    assert(reps_model(plan.nested_patches@[0].queries@) =~~= seq![
                        ("my-workspace-crate"@, bin_name@),
                    ]);
                    assert(reps_model(plan.nested_patches@[1].queries@) =~~= seq![
                        ("my-other-workspace-crate"@, lib_name@),
                    ]);
                }
                Ok(plan)
            },
        }
    }
}

/// The log-level name the verbosity flags select, most verbose wins:
/// trace, then debug, then quiet, then the default.
pub fn log_level(quiet: bool, debug: bool, trace: bool) -> (r: &'static str)
    ensures
        trace ==> r@ == "tracing"@,
        !trace && debug ==> r@ == "debug"@,
        !trace && !debug && quiet ==> r@ == "warning"@,
        !trace && !debug && !quiet ==> r@ == "info"@,
{
    if trace {
        "tracing"
    } else if debug {
        "debug"
    } else if quiet {
        "warning"
    } else {
        "info"
    }
}

} // verus!
