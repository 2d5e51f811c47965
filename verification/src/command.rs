//! The command builder: what to run elevated, and how.

use vstd::prelude::*;
use crate::error::LaunchError;
use crate::impl_darwin::shell_command_line;
use crate::impl_unix::{sudo_argv, SudoRequest};
use crate::impl_windows::{shell_request, ShellExecuteRequest, SW_HIDE, SW_NORMAL};

verus! {

/// The elevation mechanism of the platform that the caller runs on.
#[derive(Debug, Clone, Copy, PartialEq, Eq, Structural)]
pub enum Platform {
    /// `sudo` on the search path.
    Unix,
    /// The shell's "run as administrator" verb.
    Windows,
    /// The privileged execution service, with its own graphical prompt.
    MacOs,
}

/// A prepared launch: what the caller hands to the platform to start the
/// process.
#[derive(Debug, PartialEq, Eq)]
pub enum Launch {
    /// An argument vector to start as it is, with inherited input and
    /// output.
    Sudo(SudoRequest),
    /// A request for the Windows shell.
    ShellExecute(ShellExecuteRequest),
    /// A command line to run with administrator rights.
    AppleScript(String),
}

/// The configuration that a [`Command`] holds, as plain values.
pub struct CommandView {
    /// The program to run: a path or a name. It is not looked up before a
    /// launch.
    pub program: Seq<char>,
    /// The arguments, in the order in which they were added.
    pub args: Seq<Seq<char>>,
    /// The working directory, or `None` for the elevation mechanism's own
    /// default.
    pub current_dir: Option<Seq<char>>,
    /// Whether the elevation tool is told to forget a cached credential.
    pub force_prompt: bool,
    /// Whether the launched program's window is hidden.
    pub hide: bool,
    /// Whether the elevation prompt should be a graphical dialog.
    pub gui: bool,
}

/// A process builder for elevated execution. A builder can be launched any
/// number of times: a launch reads the configuration and never changes it.
#[derive(Debug)]
pub struct Command {
    command: String,
    args: Vec<String>,
    current_dir: Option<String>,
    force_prompt: bool,
    hide: bool,
    gui: bool,
}

impl View for Command {
    type V = CommandView;

    closed spec fn view(&self) -> CommandView {
        CommandView {
            program: self.command@,
            args: self.args.deep_view(),
            current_dir: match self.current_dir {
                Some(dir) => Some(dir@),
                None => None,
            },
            force_prompt: self.force_prompt,
            hide: self.hide,
            gui: self.gui,
        }
    }
}

impl Command {
    /// A builder for `program` with no arguments, no working directory, a
    /// visible window, a terminal prompt, and a forced elevation prompt.
    pub fn new(program: &str) -> (c: Command)
        ensures
            c@ == (CommandView {
                program: program@,
                args: Seq::empty(),
                current_dir: None,
                force_prompt: true,
                hide: false,
                gui: false,
            }),
    {
        let c = Command {
            command: program.to_owned(),
            args: Vec::new(),
            current_dir: None,
            force_prompt: true,
            hide: false,
            gui: false,
        };
        assert(c.args.deep_view() =~= Seq::<Seq<char>>::empty());
        c
    }

    /// Adds one argument after those already there.
    pub fn arg(&mut self, arg: &str) -> (ret: &mut Command)
        ensures
            ret@ == (CommandView { args: old(self)@.args.push(arg@), ..old(self)@ }),
            *final(self) == *final(ret),
    {
        self.args.push(arg.to_owned());
        assert(self.args.deep_view() =~= old(self).args.deep_view().push(arg@));
        self
    }

    /// Adds several arguments, in their order, after those already there.
    pub fn args(&mut self, args: &[&str]) -> (ret: &mut Command)
        ensures
            ret@ == (CommandView {
                args: old(self)@.args + args@.map_values(|a: &str| a@),
                ..old(self)@
            }),
            *final(self) == *final(ret),
    {
        let mut i: usize = 0;
        while i < args.len()
            invariant
                i <= args.len(),
                self@ == (CommandView {
                    args: old(self)@.args + args@.take(i as int).map_values(|a: &str| a@),
                    ..old(self)@
                }),
            decreases args.len() - i,
        {
            let ghost before = self.args.deep_view();
            self.args.push(args[i].to_owned());
            proof {
                assert(self.args.deep_view() =~= before.push(args[i as int]@));
                assert(args@.take(i + 1).map_values(|a: &str| a@) =~= args@.take(
                    i as int,
                ).map_values(|a: &str| a@).push(args[i as int]@));
            }
            i += 1;
        }
        assert(args@.take(args.len() as int) == args@);
        self
    }

    /// Sets the working directory for the launched program.
    pub fn current_dir(&mut self, dir: &str) -> (ret: &mut Command)
        ensures
            ret@ == (CommandView { current_dir: Some(dir@), ..old(self)@ }),
            *final(self) == *final(ret),
    {
        self.current_dir = Some(dir.to_owned());
        self
    }

    /// Shows the launched program's window (`true`) or hides it (`false`).
    pub fn show(&mut self, val: bool) -> (ret: &mut Command)
        ensures
            ret@ == (CommandView { hide: !val, ..old(self)@ }),
            *final(self) == *final(ret),
    {
        self.hide = !val;
        self
    }

    /// Asks for a graphical elevation prompt (`true`) or one on the
    /// terminal (`false`).
    pub fn gui(&mut self, val: bool) -> (ret: &mut Command)
        ensures
            ret@ == (CommandView { gui: val, ..old(self)@ }),
            *final(self) == *final(ret),
    {
        self.gui = val;
        self
    }

    /// Lets the elevation tool reuse a cached credential.
    pub fn disable_force_prompt(&mut self) -> (ret: &mut Command)
        ensures
            ret@ == (CommandView { force_prompt: false, ..old(self)@ }),
            *final(self) == *final(ret),
    {
        self.force_prompt = false;
        self
    }

    /// Prepares the elevated launch on `platform`. The builder comes back
    /// as it was, so it can be launched again and again; each launch
    /// follows the configuration of its moment and keeps nothing of an
    /// earlier one.
    ///
    /// On Unix the search for `sudo` comes first, and without it the
    /// result is `NotFound`. The other two platforms need no tool and the
    /// preparation cannot fail.
    pub fn spawn(&mut self, platform: Platform) -> (r: Result<Launch, LaunchError>)
        ensures
            *final(self) == *old(self),
            match platform {
                Platform::Unix => match r {
                    Ok(Launch::Sudo(request)) => request@ == sudo_argv(old(self)@),
                    Ok(_) => false,
                    Err(e) => e == LaunchError::NotFound,
                },
                Platform::Windows => match r {
                    Ok(Launch::ShellExecute(request)) => request@ == shell_request(old(self)@),
                    _ => false,
                },
                Platform::MacOs => match r {
                    Ok(Launch::AppleScript(line)) => line@ == shell_command_line(old(self)@),
                    _ => false,
                },
            },
    {
        let cmd: &Command = self;
        match platform {
            Platform::Unix => match crate::impl_unix::spawn_impl(cmd) {
                Ok(request) => Ok(Launch::Sudo(request)),
                Err(e) => Err(e),
            },
            Platform::Windows => Ok(Launch::ShellExecute(crate::impl_windows::spawn_impl(cmd))),
            Platform::MacOs => Ok(Launch::AppleScript(crate::impl_darwin::spawn_impl(cmd))),
        }
    }

    /// The program to run.
    pub fn program(&self) -> (r: &str)
        ensures
            r@ == self@.program,
    {
        self.command.as_str()
    }

    /// The arguments, in order.
    pub fn arguments(&self) -> (r: &Vec<String>)
        ensures
            r.deep_view() == self@.args,
    {
        &self.args
    }

    /// The working directory, if one was set.
    pub fn working_directory(&self) -> (r: Option<&str>)
        ensures
            match r {
                Some(dir) => self@.current_dir == Some(dir@),
                None => self@.current_dir is None,
            },
    {
        match &self.current_dir {
            Some(dir) => Some(dir.as_str()),
            None => None,
        }
    }

    /// Whether the elevation tool is told to forget a cached credential.
    pub fn forces_prompt(&self) -> (r: bool)
        ensures
            r == self@.force_prompt,
    {
        self.force_prompt
    }

    /// Whether the launched program's window is hidden.
    pub fn is_hidden(&self) -> (r: bool)
        ensures
            r == self@.hide,
    {
        self.hide
    }

    /// Whether a graphical elevation prompt was asked for.
    pub fn is_gui(&self) -> (r: bool)
        ensures
            r == self@.gui,
    {
        self.gui
    }
}

/// Showing or hiding the window changes the window state of the next
/// Windows launch and nothing else of it; the launches of the other two
/// platforms do not depend on it at all.
pub proof fn lemma_show_changes_window_state_only(c: CommandView, val: bool)
    ensures
        shell_request(CommandView { hide: !val, ..c }) == (crate::impl_windows::ShellExecuteView {
            show: if val {
                SW_NORMAL
            } else {
                SW_HIDE
            },
            ..shell_request(c)
        }),
        sudo_argv(CommandView { hide: !val, ..c }) == sudo_argv(c),
        shell_command_line(CommandView { hide: !val, ..c }) == shell_command_line(c),
{
}

/// The prompt mode changes no launch: the Windows and macOS prompts are
/// always graphical, and `sudo` prompts on the terminal.
pub proof fn lemma_gui_changes_no_launch(c: CommandView, val: bool)
    ensures
        shell_request(CommandView { gui: val, ..c }) == shell_request(c),
        sudo_argv(CommandView { gui: val, ..c }) == sudo_argv(c),
        shell_command_line(CommandView { gui: val, ..c }) == shell_command_line(c),
{
}

} // verus!
