//! Functionality related to running `cargo-generate`.

use vstd::prelude::*;

verus! {

use crate::executor::Invocation;

/// Builds the `cargo generate` invocation that creates a new project with
/// the given `name` from the given `template` repository, using the resolved
/// `cargo-generate` executable at `bin_path`.
pub fn generate(template: &str, name: &str, bin_path: &String) -> (cmd: Invocation)
    ensures
        cmd.program@ == bin_path@,
        cmd.args@.len() == 5,
        cmd.args@[0]@ == "generate"@,
        cmd.args@[1]@ == "--git"@,
        cmd.args@[2]@ == template@,
        cmd.args@[3]@ == "--name"@,
        cmd.args@[4]@ == name@,
{
    let mut args: Vec<String> = Vec::new();
    args.push("generate".to_owned());
    args.push("--git".to_owned());
    args.push(template.to_owned());
    args.push("--name".to_owned());
    args.push(name.to_owned());
    Invocation { program: bin_path.clone(), args }
}

} // verus!
