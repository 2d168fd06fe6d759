//! The external template-fetch tool.
//!
//! The tool is known only by the path of its executable; locating and
//! spawning it is the caller's job. This module fixes the command line
//! a template fetch uses.

use vstd::prelude::*;

verus! {

/// The external fetch tool, by the path of its executable.
pub struct Nix {
    path: String,
}

impl Nix {
    /// The executable path this value was made from.
    pub closed spec fn path_spec(&self) -> Seq<char> {
        self.path@
    }

    /// A fetch tool at the given executable path.
    pub fn from_path(path: String) -> (n: Nix)
        ensures
            n.path_spec() == path@,
    {
        Nix { path }
    }

    /// The executable path to spawn.
    pub fn path(&self) -> (r: &String)
        ensures
            r@ == self.path_spec(),
    {
        &self.path
    }

    /// The arguments of one template fetch: the tool is invoked as
    /// `<tool> flake init -t <template>`.
    pub fn init_template_args(&self, template: &str) -> (args: Vec<String>)
        ensures
            args@.len() == 4,
            args@[0]@ == "flake"@,
            args@[1]@ == "init"@,
            args@[2]@ == "-t"@,
            args@[3]@ == template@,
    {
        let mut args: Vec<String> = Vec::new();
        args.push("flake".to_owned());
        args.push("init".to_owned());
        args.push("-t".to_owned());
        args.push(template.to_owned());
        args
    }
}

} // verus!
