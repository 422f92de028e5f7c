//! Construction of the external tool's invocations, its execution
//! environment, and the interpretation of probe outputs.
//!
//! The subprocesses themselves are spawned outside the crate; these
//! functions fix exactly which command lines are used and how their
//! textual output is read.

use crate::text::{contains_seq, lower_seq, opt_string_view, starts_with_seq, str_contains,
    str_starts_with, to_lowercase};
use vstd::prelude::*;

verus! {

/// One environment variable handed to the external tool.
pub struct EnvVar {
    pub name: String,
    pub value: String,
}

impl View for EnvVar {
    type V = (Seq<char>, Seq<char>);

    open spec fn view(&self) -> (Seq<char>, Seq<char>) {
        (self.name@, self.value@)
    }
}

impl DeepView for EnvVar {
    type V = (Seq<char>, Seq<char>);

    open spec fn deep_view(&self) -> (Seq<char>, Seq<char>) {
        self.view()
    }
}

/// One `-l <language>` pair per requested language, in request order.
pub open spec fn lang_args(langs: Seq<Seq<char>>) -> Seq<Seq<char>>
    decreases langs.len(),
{
    if langs.len() == 0 {
        Seq::empty()
    } else {
        lang_args(langs.drop_last()) + seq!["-l"@, langs.last()]
    }
}

/// The argument list of a fetch invocation: the `download` subcommand,
/// `--force` for the force and the overwrite flag each, the language
/// pairs, and the target path last.
pub open spec fn spec_download_args(
    force: bool,
    overwrite: bool,
    langs: Seq<Seq<char>>,
    target: Seq<char>,
) -> Seq<Seq<char>> {
    seq!["download"@] + (if force {
        seq!["--force"@]
    } else {
        Seq::<Seq<char>>::empty()
    }) + (if overwrite {
        seq!["--force"@]
    } else {
        Seq::<Seq<char>>::empty()
    }) + lang_args(langs) + seq![target]
}

/// Build the argument list for one fetch invocation.
pub fn build_download_args(
    force: bool,
    overwrite: bool,
    langs: &Vec<String>,
    target: &str,
) -> (r: Vec<String>)
    ensures
        r.deep_view() == spec_download_args(force, overwrite, langs.deep_view(), target@),
{
    let ghost glangs = langs.deep_view();
    let mut r: Vec<String> = Vec::new();
    r.push(String::from_str("download"));
    if force {
        r.push(String::from_str("--force"));
    }
    if overwrite {
        r.push(String::from_str("--force"));
    }
    let ghost head = r.deep_view();
    proof {
        assert(head =~= seq!["download"@] + (if force {
            seq!["--force"@]
        } else {
            Seq::<Seq<char>>::empty()
        }) + (if overwrite {
            seq!["--force"@]
        } else {
            Seq::<Seq<char>>::empty()
        }));
    }
    let mut i: usize = 0;
    while i < langs.len()
        invariant
            0 <= i <= langs@.len(),
            glangs == langs.deep_view(),
            r.deep_view() =~= head + lang_args(glangs.subrange(0, i as int)),
        decreases langs@.len() - i,
    {
        proof {
            assert(glangs.subrange(0, i + 1).drop_last() =~= glangs.subrange(0, i as int));
            assert(glangs.subrange(0, i + 1).last() == glangs[i as int]);
        }
        let ghost prev = r.deep_view();
        r.push(String::from_str("-l"));
        let c = langs[i].clone();
        proof {
            assert(c@ == glangs[i as int]);
        }
        r.push(c);
        proof {
            assert(r.deep_view() =~= prev.push("-l"@).push(glangs[i as int]));
            assert(prev.push("-l"@).push(glangs[i as int]) =~= prev + seq!["-l"@, glangs[i as int]]);
        }
        i += 1;
    }
    proof {
        assert(glangs.subrange(0, glangs.len() as int) =~= glangs);
    }
    r.push(String::from_str(target));
    proof {
        assert(r.deep_view() =~= spec_download_args(force, overwrite, glangs, target@));
    }
    r
}

/// The same invocation as a module of an interpreter:
/// `-m subliminal` followed by the direct invocation's arguments.
pub open spec fn spec_module_args(args: Seq<Seq<char>>) -> Seq<Seq<char>> {
    seq!["-m"@, "subliminal"@] + args
}

/// Build the argument list for a fallback launch through an interpreter.
pub fn module_invocation_args(args: &Vec<String>) -> (r: Vec<String>)
    ensures
        r.deep_view() == spec_module_args(args.deep_view()),
{
    let mut r: Vec<String> = Vec::new();
    r.push(String::from_str("-m"));
    r.push(String::from_str("subliminal"));
    let ghost head = r.deep_view();
    let mut i: usize = 0;
    while i < args.len()
        invariant
            0 <= i <= args@.len(),
            head =~= seq!["-m"@, "subliminal"@],
            r.deep_view() =~= head + args.deep_view().subrange(0, i as int),
        decreases args@.len() - i,
    {
        let ghost prev = r.deep_view();
        let c = args[i].clone();
        proof {
            assert(c@ == args.deep_view()[i as int]);
        }
        r.push(c);
        proof {
            assert(r.deep_view() =~= prev.push(args.deep_view()[i as int]));
        }
        i += 1;
    }
    proof {
        assert(r.deep_view() =~= spec_module_args(args.deep_view()));
    }
    r
}

/// The interpreter launchers tried, in order, when the tool itself
/// cannot be launched directly.
pub fn fallback_launchers() -> (r: Vec<String>)
    ensures
        r.deep_view() == seq!["python"@, "py"@, "python3"@],
{
    let mut r: Vec<String> = Vec::new();
    r.push(String::from_str("python"));
    r.push(String::from_str("py"));
    r.push(String::from_str("python3"));
    proof {
        assert(r.deep_view() =~= seq!["python"@, "py"@, "python3"@]);
    }
    r
}

/// The environment handed to the external tool: UTF-8 I/O, the dedicated
/// cache directory, and a fixed hash seed for determinism.
pub fn worker_env(cache_dir: &str) -> (r: Vec<EnvVar>)
    ensures
        r.deep_view() == seq![
            ("PYTHONIOENCODING"@, "utf-8"@),
            ("SUBLIMINAL_CACHE_DIR"@, cache_dir@),
            ("PYTHONHASHSEED"@, "0"@),
        ],
{
    let mut r: Vec<EnvVar> = Vec::new();
    r.push(
        EnvVar { name: String::from_str("PYTHONIOENCODING"), value: String::from_str("utf-8") },
    );
    r.push(
        EnvVar {
            name: String::from_str("SUBLIMINAL_CACHE_DIR"),
            value: String::from_str(cache_dir),
        },
    );
    r.push(EnvVar { name: String::from_str("PYTHONHASHSEED"), value: String::from_str("0") });
    proof {
        assert(r.deep_view() =~= seq![
            ("PYTHONIOENCODING"@, "utf-8"@),
            ("SUBLIMINAL_CACHE_DIR"@, cache_dir@),
            ("PYTHONHASHSEED"@, "0"@),
        ]);
    }
    r
}

/// One invocation of an external program: its name and arguments.
pub struct CommandSpec {
    pub program: String,
    pub args: Vec<String>,
}

impl View for CommandSpec {
    type V = (Seq<char>, Seq<Seq<char>>);

    open spec fn view(&self) -> (Seq<char>, Seq<Seq<char>>) {
        (self.program@, self.args.deep_view())
    }
}

impl DeepView for CommandSpec {
    type V = (Seq<char>, Seq<Seq<char>>);

    open spec fn deep_view(&self) -> (Seq<char>, Seq<Seq<char>>) {
        self.view()
    }
}

/// Build one command from string literals.
fn command_spec(program: &str, args: &Vec<String>) -> (r: CommandSpec)
    ensures
        r.program@ == program@,
        r.args.deep_view() == args.deep_view(),
{
    let mut copied: Vec<String> = Vec::new();
    let mut i: usize = 0;
    while i < args.len()
        invariant
            0 <= i <= args@.len(),
            copied.deep_view() =~= args.deep_view().subrange(0, i as int),
        decreases args@.len() - i,
    {
        let ghost prev = copied.deep_view();
        let c = args[i].clone();
        copied.push(c);
        proof {
            assert(copied.deep_view() =~= prev.push(args.deep_view()[i as int]));
        }
        i += 1;
    }
    proof {
        assert(copied.deep_view() =~= args.deep_view());
    }
    CommandSpec { program: String::from_str(program), args: copied }
}

/// The fixed chain of commands tried, in order, to install the fetch
/// tool: the package manager first, then per-user pip installs.
pub fn stage2_install_attempts() -> (r: Vec<CommandSpec>)
    ensures
        r.deep_view() == seq![
            ("pipx"@, seq!["install"@, "subliminal"@]),
            ("python3"@, seq!["-m"@, "pip"@, "install"@, "--user"@, "subliminal"@]),
            ("python"@, seq!["-m"@, "pip"@, "install"@, "--user"@, "subliminal"@]),
        ],
{
    let mut pipx_args: Vec<String> = Vec::new();
    pipx_args.push(String::from_str("install"));
    pipx_args.push(String::from_str("subliminal"));
    let mut pip_args: Vec<String> = Vec::new();
    pip_args.push(String::from_str("-m"));
    pip_args.push(String::from_str("pip"));
    pip_args.push(String::from_str("install"));
    pip_args.push(String::from_str("--user"));
    pip_args.push(String::from_str("subliminal"));
    proof {
        assert(pipx_args.deep_view() =~= seq!["install"@, "subliminal"@]);
        assert(pip_args.deep_view() =~= seq![
            "-m"@,
            "pip"@,
            "install"@,
            "--user"@,
            "subliminal"@,
        ]);
    }
    let mut r: Vec<CommandSpec> = Vec::new();
    r.push(command_spec("pipx", &pipx_args));
    r.push(command_spec("python3", &pip_args));
    r.push(command_spec("python", &pip_args));
    proof {
        assert(r.deep_view() =~= seq![
            ("pipx"@, seq!["install"@, "subliminal"@]),
            ("python3"@, seq!["-m"@, "pip"@, "install"@, "--user"@, "subliminal"@]),
            ("python"@, seq!["-m"@, "pip"@, "install"@, "--user"@, "subliminal"@]),
        ]);
    }
    r
}

/// The interpreter banner accepted as a working installation: a
/// successful run whose output (stdout, or stderr when stdout is empty)
/// begins with `Python 3.`.
pub open spec fn spec_python_version(
    success: bool,
    out: Seq<char>,
    err: Seq<char>,
) -> Option<Seq<char>> {
    if !success {
        None
    } else {
        let banner = if out.len() > 0 {
            out
        } else {
            err
        };
        if starts_with_seq(banner, "Python 3."@) {
            Some(banner)
        } else {
            None
        }
    }
}

/// Read an interpreter's `--version` output: accept only Python 3.
pub fn accept_python_version(success: bool, stdout: &str, stderr: &str) -> (r: Option<String>)
    ensures
        opt_string_view(r) == spec_python_version(success, stdout@, stderr@),
{
    if !success {
        return None;
    }
    let banner = if !stdout.is_empty() {
        stdout
    } else {
        stderr
    };
    if str_starts_with(banner, "Python 3.") {
        Some(String::from_str(banner))
    } else {
        None
    }
}

/// A `--version` run of the tool shows it is installed: the run
/// succeeded and either stream mentions the tool.
pub fn subliminal_version_check(success: bool, stdout: &str, stderr: &str) -> (r: bool)
    ensures
        r == (success && (contains_seq(stdout@, "subliminal"@) || contains_seq(
            stderr@,
            "subliminal"@,
        ))),
{
    success && (str_contains(stdout, "subliminal") || str_contains(stderr, "subliminal"))
}

/// A package-manager listing shows the tool: the run succeeded and the
/// case-folded listing mentions it.
pub fn pipx_list_check(success: bool, stdout: &str) -> (r: bool)
    ensures
        r == (success && contains_seq(lower_seq(stdout@), "subliminal"@)),
{
    if !success {
        return false;
    }
    let lowered = to_lowercase(stdout);
    str_contains(lowered.as_str(), "subliminal")
}

/// A `pip show` run finds the package.
pub fn pip_show_check(success: bool, stdout: &str) -> (r: bool)
    ensures
        r == (success && contains_seq(stdout@, "Name: subliminal"@)),
{
    success && str_contains(stdout, "Name: subliminal")
}

/// A direct import of the package succeeded.
pub fn import_check(success: bool, stdout: &str) -> (r: bool)
    ensures
        r == (success && contains_seq(stdout@, "subliminal available"@)),
{
    success && str_contains(stdout, "subliminal available")
}

} // verus!
