//! The subprocess of a session: what is run, inside which sandbox, and
//! what its end means.
use vstd::prelude::*;

use crate::config::{opt_view, string_views, SandboxConfig};
use crate::error::TreebeardError;
use crate::path::{file_name_spec, join, path_file_name, path_join, path_parent, spec_path_parent};
use crate::sandbox::{generate_sbpl_profile, sbpl_profile};

verus! {

/// The program to run and its arguments: the given command, or the user's
/// shell (`SHELL`, else `/bin/zsh`).
pub open spec fn program_and_args(command: Seq<String>, shell: Option<Seq<char>>) -> (
    Seq<char>,
    Seq<Seq<char>>,
) {
    if command.len() > 0 {
        (command[0]@, string_views(command.skip(1)))
    } else {
        (
            match shell {
                Some(s) => s,
                None => "/bin/zsh"@,
            },
            Seq::empty(),
        )
    }
}

/// The command line of a session's subprocess: the command (or the shell)
/// run directly, or, on macOS with the sandbox enabled and a mount path,
/// run by `sandbox-exec -p <profile>`.
pub open spec fn subprocess_spec(
    command: Seq<String>,
    shell: Option<Seq<char>>,
    sandbox: Option<SandboxConfig>,
    mount_path: Option<Seq<char>>,
    is_macos: bool,
    home: Option<Seq<char>>,
) -> (Seq<char>, Seq<Seq<char>>) {
    let (program, args) = program_and_args(command, shell);
    match (sandbox, mount_path) {
        (Some(cfg), Some(m)) => if is_macos && cfg.enabled {
            ("sandbox-exec"@, seq!["-p"@, sbpl_profile(cfg, m, home), program] + args)
        } else {
            (program, args)
        },
        _ => (program, args),
    }
}

/// Builds the command line of a session's subprocess (program and
/// arguments). `shell` is the value of `SHELL`, `home` that of `HOME`, and
/// `mount_path` the mount path as the sandbox should name it.
pub fn subprocess_command(
    command: &Vec<String>,
    shell: Option<&str>,
    sandbox: Option<&SandboxConfig>,
    mount_path: Option<&str>,
    is_macos: bool,
    home: Option<&str>,
) -> (r: (String, Vec<String>))
    ensures
        (r.0@, string_views(r.1@)) == subprocess_spec(
            command@,
            opt_view(shell),
            match sandbox {
                Some(c) => Some(*c),
                None => None,
            },
            opt_view(mount_path),
            is_macos,
            opt_view(home),
        ),
{
    let program: String;
    let mut args: Vec<String> = Vec::new();
    if command.len() > 0 {
        program = command[0].clone();
        let mut i: usize = 1;
        while i < command.len()
            invariant
                1 <= i <= command.len(),
                string_views(args@) == string_views(command@.skip(1).take(i - 1)),
            decreases command.len() - i,
        {
            let ghost before = args@;
            args.push(command[i].clone());
            assert(command@.skip(1).take(i as int) =~= command@.skip(1).take(i - 1).push(
                command@[i as int],
            ));
            assert(string_views(args@) =~= string_views(before).push(command@[i as int]@));
            i = i + 1;
        }
        assert(command@.skip(1).take(command.len() - 1) =~= command@.skip(1));
    } else {
        program = match shell {
            Some(s) => String::from_str(s),
            None => String::from_str("/bin/zsh"),
        };
        assert(string_views(args@) =~= Seq::<Seq<char>>::empty());
    }
    match (sandbox, mount_path) {
        (Some(cfg), Some(m)) => {
            if is_macos && cfg.enabled {
                let profile = generate_sbpl_profile(cfg, m, home);
                let mut sargs: Vec<String> = Vec::new();
                sargs.push(String::from_str("-p"));
                sargs.push(profile);
                sargs.push(program);
                let ghost head = string_views(sargs@);
                let ghost tail = string_views(args@);
                let mut k: usize = 0;
                while k < args.len()
                    invariant
                        k <= args.len(),
                        tail == string_views(args@),
                        string_views(sargs@) == head + tail.take(k as int),
                    decreases args.len() - k,
                {
                    let ghost before = sargs@;
                    sargs.push(args[k].clone());
                    assert(string_views(sargs@) =~= string_views(before).push(args@[k as int]@));
                    assert(tail.take(k + 1) =~= tail.take(k as int).push(tail[k as int]));
                    k = k + 1;
                }
                assert(tail.take(args.len() as int) =~= tail);
                return (String::from_str("sandbox-exec"), sargs);
            }
            (program, args)
        },
        _ => (program, args),
    }
}

/// The name of the subprocess in messages: the command's program, or
/// `shell`.
pub fn subprocess_name(command: &Vec<String>) -> (r: &str)
    ensures
        command@.len() > 0 ==> r@ == command@[0]@,
        command@.len() == 0 ==> r@ == "shell"@,
{
    if command.len() > 0 {
        command[0].as_str()
    } else {
        "shell"
    }
}

/// The exit code of the session: the subprocess's, or 1 when it had none
/// (killed by a signal).
pub fn session_exit_code(code: Option<i32>) -> (r: i32)
    ensures
        r == (match code {
            Some(c) => c,
            None => 1i32,
        }),
{
    match code {
        Some(c) => c,
        None => 1,
    }
}

/// Where a session's overlay is mounted: `<mount dir>/<repository>/<branch>`,
/// the repository being the name of the worktree's parent directory
/// (`unknown` when it has none).
pub fn overlay_mount_path(mount_base_dir: &str, worktree_path: &str, branch_name: &str) -> (r: String)
    ensures
        r@ == join(
            join(
                mount_base_dir@,
                match spec_path_parent(worktree_path@) {
                    Some(p) => match file_name_spec(p) {
                        Some(n) => n,
                        None => "unknown"@,
                    },
                    None => "unknown"@,
                },
            ),
            branch_name@,
        ),
{
    let repo_name = match path_parent(worktree_path) {
        Some(p) => match path_file_name(p.as_str()) {
            Some(n) => n,
            None => String::from_str("unknown"),
        },
        None => String::from_str("unknown"),
    };
    let a = path_join(mount_base_dir, repo_name.as_str());
    path_join(a.as_str(), branch_name)
}

/// Treebeard runs on macOS 15 or later; an unknown version is let through.
pub fn macos_supported(version: Option<(u32, u32)>) -> (r: bool)
    ensures
        r == (match version {
            Some((major, _)) => major >= 15,
            None => true,
        }),
{
    match version {
        Some((major, _)) => major >= 15,
        None => true,
    }
}

/// Creating a branch environment with a shell needs an interactive
/// terminal, unless no shell is wanted or in test mode; other commands do
/// not.
pub fn check_tty_requirement(
    is_branch_command: bool,
    no_shell: bool,
    is_test_mode: bool,
    stdin_is_terminal: bool,
) -> (r: Result<(), TreebeardError>)
    ensures
        (is_branch_command && !no_shell && !is_test_mode && !stdin_is_terminal) ==> (r matches Err(
            TreebeardError::Config(m),
        ) && m@
            == "This command requires an interactive terminal (TTY). Cannot run with piped input."@),
        !(is_branch_command && !no_shell && !is_test_mode && !stdin_is_terminal) ==> r is Ok,
{
    if is_branch_command && !no_shell && !is_test_mode && !stdin_is_terminal {
        Err(
            TreebeardError::Config(
                String::from_str(
                    "This command requires an interactive terminal (TTY). Cannot run with piped input.",
                ),
            ),
        )
    } else {
        Ok(())
    }
}

} // verus!
