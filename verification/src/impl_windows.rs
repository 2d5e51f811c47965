//! Elevation through the Windows shell's "run as administrator" verb.

use vstd::prelude::*;
use vstd::string::StrSliceExecFns;
use crate::command::{Command, CommandView};
use crate::error::LaunchError;
use crate::escape::{escape_args, joined};
use crate::wide::{to_wide, wide};

verus! {

/// Window state of a hidden program.
pub const SW_HIDE: i32 = 0;

/// Window state of a program shown as usual.
pub const SW_NORMAL: i32 = 1;

/// Asks the shell to leave the process handle open for the caller.
pub const SEE_MASK_NOCLOSEPROCESS: u32 = 0x40;

/// Asks the shell to finish the launch before it returns.
pub const SEE_MASK_NOASYNC: u32 = 0x100;

/// Both of the above.
pub const LAUNCH_MASK: u32 = 0x140;

/// What the shell is asked to execute; every string is UTF-16 with a
/// terminating zero.
#[derive(Debug, PartialEq, Eq)]
pub struct ShellExecuteRequest {
    /// The verb, or `None` for the shell's default verb.
    pub verb: Option<Vec<u16>>,
    /// The program.
    pub file: Vec<u16>,
    /// The encoded arguments.
    pub parameters: Vec<u16>,
    /// The working directory, or `None` for the shell's default.
    pub directory: Option<Vec<u16>>,
    /// The window state.
    pub show: i32,
    /// The flags of the request.
    pub mask: u32,
}

/// A [`ShellExecuteRequest`] as plain values.
pub struct ShellExecuteView {
    pub verb: Option<Seq<u16>>,
    pub file: Seq<u16>,
    pub parameters: Seq<u16>,
    pub directory: Option<Seq<u16>>,
    pub show: i32,
    pub mask: u32,
}

impl View for ShellExecuteRequest {
    type V = ShellExecuteView;

    open spec fn view(&self) -> ShellExecuteView {
        ShellExecuteView {
            verb: match self.verb {
                Some(v) => Some(v@),
                None => None,
            },
            file: self.file@,
            parameters: self.parameters@,
            directory: match self.directory {
                Some(d) => Some(d@),
                None => None,
            },
            show: self.show,
            mask: self.mask,
        }
    }
}

/// Whether a file name ends in `.exe`, in either case of each letter: the
/// shell then sees a native executable and decides on elevation itself.
pub open spec fn is_native_executable(p: Seq<char>) -> bool {
    let n = p.len() as int;
    &&& n >= 4
    &&& p[n - 4] == '.'
    &&& (p[n - 3] == 'e' || p[n - 3] == 'E')
    &&& (p[n - 2] == 'x' || p[n - 2] == 'X')
    &&& (p[n - 1] == 'e' || p[n - 1] == 'E')
}

/// The request for a configuration. The elevation verb is passed unless
/// the program is a native executable; the arguments are encoded into one
/// string; the window state follows `hide`.
pub open spec fn shell_request(c: CommandView) -> ShellExecuteView {
    ShellExecuteView {
        verb: if is_native_executable(c.program) {
            None
        } else {
            Some(wide("runas"@))
        },
        file: wide(c.program),
        parameters: wide(joined(c.args)),
        directory: match c.current_dir {
            Some(dir) => Some(wide(dir)),
            None => None,
        },
        show: if c.hide {
            SW_HIDE
        } else {
            SW_NORMAL
        },
        mask: LAUNCH_MASK,
    }
}

/// The request's mask holds exactly the two flags.
pub proof fn lemma_launch_mask()
    ensures
        LAUNCH_MASK == SEE_MASK_NOASYNC | SEE_MASK_NOCLOSEPROCESS,
{
    assert(0x140u32 == 0x100u32 | 0x40u32) by (bit_vector);
}

/// Tells whether `program` ends in `.exe`, in either case of each letter.
pub fn names_native_executable(program: &str) -> (r: bool)
    ensures
        r == is_native_executable(program@),
{
    let n = program.unicode_len();
    if n < 4 {
        return false;
    }
    let dot = program.get_char(n - 4);
    let e1 = program.get_char(n - 3);
    let x = program.get_char(n - 2);
    let e2 = program.get_char(n - 1);
    dot == '.' && (e1 == 'e' || e1 == 'E') && (x == 'x' || x == 'X') && (e2 == 'e' || e2 == 'E')
}

/// Prepares the request that is handed to the shell.
pub fn spawn_impl(cmd: &Command) -> (request: ShellExecuteRequest)
    ensures
        request@ == shell_request(cmd@),
{
    let verb = if names_native_executable(cmd.program()) {
        None
    } else {
        Some(to_wide("runas"))
    };
    let file = to_wide(cmd.program());
    let line = escape_args(cmd.arguments());
    let parameters = to_wide(line.as_str());
    let directory = match cmd.working_directory() {
        Some(dir) => Some(to_wide(dir)),
        None => None,
    };
    let show = if cmd.is_hidden() {
        SW_HIDE
    } else {
        SW_NORMAL
    };
    ShellExecuteRequest { verb, file, parameters, directory, show, mask: LAUNCH_MASK }
}

/// A process started by the shell, known only by its raw handle. It has no
/// input or output streams of its own.
#[derive(Debug, Clone, Copy, PartialEq, Eq, Structural)]
pub struct ProcessHandle {
    pub raw: usize,
}

/// What a finished call of the shell amounts to, and whether the thread's
/// component session has to be closed again.
#[derive(Debug, Clone, Copy, PartialEq, Eq)]
pub struct LaunchOutcome {
    /// The handle of the started process, or the error.
    pub result: Result<ProcessHandle, LaunchError>,
    /// Whether the component session was opened and so must be closed.
    pub close_session: bool,
}

/// Judges a finished call of the shell. `session_opened` says whether the
/// thread's component session was opened before the call, `accepted`
/// whether the shell reported success, `raw_handle` the process handle it
/// left (zero for none), and `last_error` the platform's last error code.
///
/// The launch succeeds only with a success report and a handle; any other
/// outcome is an `OsError` with the last error code. The session is closed
/// exactly when it was opened, whether the launch succeeded or not.
pub fn launch_outcome(session_opened: bool, accepted: bool, raw_handle: usize, last_error: i32) -> (r:
    LaunchOutcome)
    ensures
        r.close_session == session_opened,
        accepted && raw_handle != 0 ==> r.result == Ok::<ProcessHandle, LaunchError>(
            ProcessHandle { raw: raw_handle },
        ),
        !(accepted && raw_handle != 0) ==> r.result == Err::<ProcessHandle, LaunchError>(
            LaunchError::OsError(last_error),
        ),
{
    let result = if accepted && raw_handle != 0 {
        Ok(ProcessHandle { raw: raw_handle })
    } else {
        Err(LaunchError::OsError(last_error))
    };
    LaunchOutcome { result, close_session: session_opened }
}

/// Judges a finished wait on a process handle. `signalled` says whether the
/// wait without a time limit ended with the process's termination,
/// `exit_code` what the query for the exit code gave (`None` where it
/// failed), and `last_error` the platform's last error code.
///
/// The exit code is returned only when both steps succeeded; else the
/// result is a `WaitError` with the last error code.
pub fn wait_outcome(signalled: bool, exit_code: Option<u32>, last_error: i32) -> (r: Result<
    u32,
    LaunchError,
>)
    ensures
        signalled && exit_code is Some ==> r == Ok::<u32, LaunchError>(exit_code->Some_0),
        !(signalled && exit_code is Some) ==> r == Err::<u32, LaunchError>(
            LaunchError::WaitError(last_error),
        ),
{
    if !signalled {
        return Err(LaunchError::WaitError(last_error));
    }
    match exit_code {
        Some(code) => Ok(code),
        None => Err(LaunchError::WaitError(last_error)),
    }
}

} // verus!
