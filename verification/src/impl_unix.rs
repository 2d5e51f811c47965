//! Elevation through `sudo`.

use vstd::prelude::*;
use crate::command::{Command, CommandView};
use crate::error::LaunchError;

verus! {

/// The argument vector of an elevated launch through `sudo`; the first
/// entry is the elevation tool itself.
#[derive(Debug, PartialEq, Eq)]
pub struct SudoRequest {
    pub argv: Vec<String>,
}

impl View for SudoRequest {
    type V = Seq<Seq<char>>;

    open spec fn view(&self) -> Seq<Seq<char>> {
        self.argv.deep_view()
    }
}

/// The options that stand between `sudo` and the end-of-options marker:
/// `-k`, which discards the cached credential, when a prompt is forced.
pub open spec fn sudo_options(force_prompt: bool) -> Seq<Seq<char>> {
    if force_prompt {
        seq!["-k"@]
    } else {
        Seq::empty()
    }
}

/// The argument vector for a configuration: `sudo`, its options, `--` so
/// that a program whose name starts with `-` is not read as an option, the
/// program, and the arguments as they are.
pub open spec fn sudo_argv(c: CommandView) -> Seq<Seq<char>> {
    seq!["sudo"@] + sudo_options(c.force_prompt) + seq!["--"@, c.program] + c.args
}

/// `which::which` looks for an executable file named `sudo` in the
/// directories of the search path. The answer depends on the environment
/// and on the file system, so nothing is claimed of it.
#[verifier::external_body]
fn sudo_on_path() -> bool {
    which::which("sudo").is_ok()
}

/// The launch through `sudo`, given whether the tool was found. Without
/// the tool the launch fails before anything is run.
pub fn sudo_request(cmd: &Command, found: bool) -> (r: Result<SudoRequest, LaunchError>)
    ensures
        found ==> r is Ok && r->Ok_0@ == sudo_argv(cmd@),
        !found ==> r == Err::<SudoRequest, LaunchError>(LaunchError::NotFound),
{
    if !found {
        return Err(LaunchError::NotFound);
    }
    let mut argv: Vec<String> = Vec::new();
    argv.push("sudo".to_owned());
    if cmd.forces_prompt() {
        argv.push("-k".to_owned());
    }
    argv.push("--".to_owned());
    argv.push(cmd.program().to_owned());
    let ghost head = argv.deep_view();
    assert(head =~= seq!["sudo"@] + sudo_options(cmd@.force_prompt) + seq!["--"@, cmd@.program]);
    let args = cmd.arguments();
    let mut i: usize = 0;
    while i < args.len()
        invariant
            i <= args.len(),
            argv.deep_view() == head + args.deep_view().take(i as int),
        decreases args.len() - i,
    {
        let ghost before = argv.deep_view();
        argv.push(args[i].as_str().to_owned());
        proof {
            assert(argv.deep_view() =~= before.push(args[i as int]@));
            assert(args.deep_view().take(i + 1) =~= args.deep_view().take(i as int).push(
                args[i as int]@,
            ));
        }
        i += 1;
    }
    assert(args.deep_view().take(args.len() as int) == args.deep_view());
    Ok(SudoRequest { argv })
}

/// Looks for `sudo` on the search path, then prepares the launch. The
/// search comes first: with no `sudo` the result is `NotFound`.
pub fn spawn_impl(cmd: &Command) -> (r: Result<SudoRequest, LaunchError>)
    ensures
        match r {
            Ok(request) => request@ == sudo_argv(cmd@),
            Err(e) => e == LaunchError::NotFound,
        },
{
    let found = sudo_on_path();
    sudo_request(cmd, found)
}

} // verus!
