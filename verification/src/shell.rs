use vstd::prelude::*;

verus! {

/// The two kinds of host that choose their shell differently.
#[derive(Clone, Copy, Debug, PartialEq, Eq, Structural)]
pub enum Platform {
    Windows,
    Posix,
}

/// What to launch on the slave side of a pseudo-terminal.
#[derive(Clone, Debug, PartialEq, Eq)]
pub struct ShellCommand {
    pub program: String,
    pub args: Vec<String>,
    pub cwd: Option<String>,
}

/// A [`ShellCommand`] as plain text.
pub struct ShellCommandView {
    pub program: Seq<char>,
    pub args: Seq<Seq<char>>,
    pub cwd: Option<Seq<char>>,
}

/// The text of an optional string.
pub open spec fn text_of(s: Option<String>) -> Option<Seq<char>> {
    match s {
        Some(t) => Some(t@),
        None => None,
    }
}

impl View for ShellCommand {
    type V = ShellCommandView;

    open spec fn view(&self) -> ShellCommandView {
        ShellCommandView {
            program: self.program@,
            args: self.args.deep_view(),
            cwd: text_of(self.cwd),
        }
    }
}

/// The shell of a host: PowerShell without its banner on Windows; elsewhere the configured
/// shell, run without arguments, and `/bin/bash` where none is configured.
pub open spec fn default_shell(platform: Platform, shell: Option<Seq<char>>) -> ShellCommandView {
    match platform {
        Platform::Windows => ShellCommandView {
            program: "powershell.exe"@,
            args: seq!["-NoLogo"@],
            cwd: None,
        },
        Platform::Posix => ShellCommandView {
            program: match shell {
                Some(path) => path,
                None => "/bin/bash"@,
            },
            args: Seq::empty(),
            cwd: None,
        },
    }
}

/// The command of a new session: the host's default shell, started in `cwd` where one is given.
pub open spec fn session_shell(
    platform: Platform,
    shell: Option<Seq<char>>,
    cwd: Option<Seq<char>>,
) -> ShellCommandView {
    ShellCommandView { cwd, ..default_shell(platform, shell) }
}

/// Builds the default shell command of `platform`, where `shell` is the value of the
/// environment's shell variable, if it is set.
pub fn default_shell_command(platform: Platform, shell: Option<String>) -> (cmd: ShellCommand)
    ensures
        cmd@ == default_shell(platform, text_of(shell)),
{
    match platform {
        Platform::Windows => {
            let mut args: Vec<String> = Vec::new();
            args.push("-NoLogo".to_owned());
            let cmd = ShellCommand { program: "powershell.exe".to_owned(), args, cwd: None };
            assert(cmd.args.deep_view() =~= seq!["-NoLogo"@]);
            cmd
        },
        Platform::Posix => {
            let program = match shell {
                Some(path) => path,
                None => "/bin/bash".to_owned(),
            };
            let cmd = ShellCommand { program, args: Vec::new(), cwd: None };
            assert(cmd.args.deep_view() =~= Seq::<Seq<char>>::empty());
            cmd
        },
    }
}

impl ShellCommand {
    /// Sets the directory in which the command starts.
    pub fn cwd(&mut self, dir: String)
        ensures
            final(self)@ == (ShellCommandView { cwd: Some(dir@), ..old(self)@ }),
    {
        self.cwd = Some(dir);
    }
}

} // verus!
