//! The requests the sandbox makes of the container daemon, as plain values:
//! the names it derives, the isolation policy of a sandbox container, and the
//! commands it runs inside one.

use crate::hypervisor::languages::Languages;
use crate::text::{
    decimal_spec, lemma_decimal_injective, optional_text, push_decimal, texts, triple,
};
use vstd::prelude::*;

verus! {

/// CPU quota of a sandbox container, in billionths of a core: a quarter core.
pub const CPU_QUOTA_NANOS: u64 = 250_000_000;

/// Memory ceiling of a sandbox container in bytes. Memory plus swap is capped
/// at the same number, so that nothing can be swapped out past the ceiling.
pub const MEMORY_LIMIT: u64 = 128 * 1024 * 1024;

/// Seconds a program may spend producing output.
pub const DEADLINE_SECS: u64 = 10;

/// How a sandbox container is created.
#[derive(Debug, Clone, PartialEq, Eq)]
pub struct ContainerSpec {
    /// Name of the container, unique to one execution.
    pub name: String,
    /// Image the container is created from.
    pub image: String,
    /// Identity the container's processes run as, `uid:gid`.
    pub user: String,
    /// Working directory inside the container.
    pub working_dir: String,
    /// Network mode; `none` leaves the container without any network.
    pub network_mode: String,
    /// Command that keeps the container alive until it is killed.
    pub command: Vec<String>,
    /// Whether the daemon removes the container as soon as it stops.
    pub auto_remove: bool,
    /// Whether a pseudo-terminal is allocated, so that standard output and
    /// standard error arrive as one ordered stream.
    pub tty: bool,
    /// CPU quota in billionths of a core.
    pub nano_cpus: u64,
    /// Memory ceiling in bytes.
    pub memory: u64,
    /// Ceiling on memory plus swap in bytes.
    pub memory_swap: i64,
    /// Hardened runtime to request in place of the daemon's default.
    pub runtime: Option<String>,
}

/// A [`ContainerSpec`] with its strings as characters.
pub struct ContainerPolicy {
    pub name: Seq<char>,
    pub image: Seq<char>,
    pub user: Seq<char>,
    pub working_dir: Seq<char>,
    pub network_mode: Seq<char>,
    pub command: Seq<Seq<char>>,
    pub auto_remove: bool,
    pub tty: bool,
    pub nano_cpus: u64,
    pub memory: u64,
    pub memory_swap: i64,
    pub runtime: Option<Seq<char>>,
}

impl View for ContainerSpec {
    type V = ContainerPolicy;

    open spec fn view(&self) -> ContainerPolicy {
        ContainerPolicy {
            name: self.name@,
            image: self.image@,
            user: self.user@,
            working_dir: self.working_dir@,
            network_mode: self.network_mode@,
            command: texts(self.command@),
            auto_remove: self.auto_remove,
            tty: self.tty,
            nano_cpus: self.nano_cpus,
            memory: self.memory,
            memory_swap: self.memory_swap,
            runtime: optional_text(self.runtime),
        }
    }
}

/// A command to run inside a running container.
#[derive(Debug, Clone, PartialEq, Eq)]
pub struct ExecSpec {
    /// Program and arguments.
    pub command: Vec<String>,
    /// Identity to run as; `None` runs as the container's own identity.
    pub user: Option<String>,
    /// Working directory; `None` keeps the container's own.
    pub working_dir: Option<String>,
    /// Whether standard output is captured.
    pub attach_stdout: bool,
    /// Whether standard error is captured.
    pub attach_stderr: bool,
}

/// An [`ExecSpec`] with its strings as characters.
pub struct Command {
    pub command: Seq<Seq<char>>,
    pub user: Option<Seq<char>>,
    pub working_dir: Option<Seq<char>>,
    pub attach_stdout: bool,
    pub attach_stderr: bool,
}

impl View for ExecSpec {
    type V = Command;

    open spec fn view(&self) -> Command {
        Command {
            command: texts(self.command@),
            user: optional_text(self.user),
            working_dir: optional_text(self.working_dir),
            attach_stdout: self.attach_stdout,
            attach_stderr: self.attach_stderr,
        }
    }
}

/// An image to build: the directory that holds its build context and the tag
/// the result is stored under.
#[derive(Debug, Clone, PartialEq, Eq)]
pub struct ImageBuild {
    pub context: String,
    pub tag: String,
}

impl View for ImageBuild {
    type V = (Seq<char>, Seq<char>);

    open spec fn view(&self) -> (Seq<char>, Seq<char>) {
        (self.context@, self.tag@)
    }
}

/// The tag of the image of `language`.
pub open spec fn image_tag_spec(language: Languages) -> Seq<char> {
    "run.sh_"@ + language.name_spec() + ":latest"@
}

/// The directory under `cwd` that holds the build context of `language`.
pub open spec fn build_context_spec(cwd: Seq<char>, language: Languages) -> Seq<char> {
    cwd + "/languages/"@ + language.name_spec()
}

/// The name of the container of execution `id` of `language`.
pub open spec fn container_name_spec(language: Languages, id: u32) -> Seq<char> {
    "run.sh_"@ + language.name_spec() + "_"@ + decimal_spec(id as nat)
}

/// The scratch directory of execution `id` inside its container.
pub open spec fn scratch_dir_spec(id: u32) -> Seq<char> {
    "/tmp/eval/"@ + decimal_spec(id as nat)
}

/// The isolation policy: how the container of execution `id` of `language` is
/// created. It runs as an unprivileged identity, without network, under a CPU
/// quota and a memory ceiling that swap cannot extend, and is removed as soon
/// as it stops.
pub open spec fn container_policy(
    language: Languages,
    id: u32,
    runtime: Option<Seq<char>>,
) -> ContainerPolicy {
    ContainerPolicy {
        name: container_name_spec(language, id),
        image: image_tag_spec(language),
        user: "1000:1000"@,
        working_dir: "/tmp"@,
        network_mode: "none"@,
        command: seq!["tail"@, "-f"@, "/dev/null"@],
        auto_remove: true,
        tty: true,
        nano_cpus: CPU_QUOTA_NANOS,
        memory: MEMORY_LIMIT,
        memory_swap: MEMORY_LIMIT as i64,
        runtime,
    }
}

/// A set-up command: it runs as the container's own identity, in the
/// container's own working directory.
pub open spec fn setup_command(argv: Seq<Seq<char>>) -> Command {
    Command {
        command: argv,
        user: None,
        working_dir: None,
        attach_stdout: true,
        attach_stderr: true,
    }
}

/// Creates the directory that holds every scratch directory.
pub open spec fn make_root_spec() -> Command {
    setup_command(seq!["mkdir"@, "-p"@, "/tmp/eval"@])
}

/// Lets the restricted identity pass through the scratch root.
pub open spec fn open_root_spec() -> Command {
    setup_command(seq!["chmod"@, "771"@, "/tmp/eval"@])
}

/// Creates the scratch directory of execution `id`.
pub open spec fn make_scratch_spec(id: u32) -> Command {
    setup_command(seq!["mkdir"@, "-p"@, scratch_dir_spec(id)])
}

/// Lets the restricted identity write to the scratch directory of execution
/// `id`.
pub open spec fn open_scratch_spec(id: u32) -> Command {
    setup_command(seq!["chmod"@, "777"@, scratch_dir_spec(id)])
}

/// Runs the language's run script on `code`, handed over as one argument, as
/// the restricted identity inside the scratch directory of execution `id`.
pub open spec fn run_script_spec(code: Seq<char>, id: u32) -> Command {
    Command {
        command: seq!["/bin/sh"@, "/var/run/run.sh"@, code],
        user: Some("1001:1001"@),
        working_dir: Some(scratch_dir_spec(id)),
        attach_stdout: true,
        attach_stderr: true,
    }
}

/// The tag of the image of `language`.
pub fn image_tag(language: &Languages) -> (res: String)
    ensures
        res@ == image_tag_spec(*language),
{
    let mut out = String::from_str("run.sh_");
    out.append(language.name());
    out.append(":latest");
    out
}

/// The directory under `cwd` that holds the build context of `language`.
pub fn build_context(cwd: &str, language: &Languages) -> (res: String)
    ensures
        res@ == build_context_spec(cwd@, *language),
{
    let mut out = String::from_str(cwd);
    out.append("/languages/");
    out.append(language.name());
    out
}

/// The name of the container of execution `id` of `language`.
pub fn container_name(language: &Languages, id: u32) -> (res: String)
    ensures
        res@ == container_name_spec(*language, id),
{
    let mut out = String::from_str("run.sh_");
    out.append(language.name());
    out.append("_");
    push_decimal(&mut out, id as u64);
    out
}

/// The scratch directory of execution `id` inside its container.
pub fn scratch_dir(id: u32) -> (res: String)
    ensures
        res@ == scratch_dir_spec(id),
{
    let mut out = String::from_str("/tmp/eval/");
    push_decimal(&mut out, id as u64);
    out
}

/// The isolation policy for the container of execution `id` of `language`.
pub fn container_spec(language: &Languages, id: u32, runtime: Option<String>) -> (res:
    ContainerSpec)
    ensures
        res@ == container_policy(*language, id, optional_text(runtime)),
{
    ContainerSpec {
        name: container_name(language, id),
        image: image_tag(language),
        user: String::from_str("1000:1000"),
        working_dir: String::from_str("/tmp"),
        network_mode: String::from_str("none"),
        command: triple("tail", "-f", "/dev/null"),
        auto_remove: true,
        tty: true,
        nano_cpus: CPU_QUOTA_NANOS,
        memory: MEMORY_LIMIT,
        memory_swap: MEMORY_LIMIT as i64,
        runtime,
    }
}

/// A set-up command with the three given words.
fn setup(a: &str, b: &str, c: &str) -> (res: ExecSpec)
    ensures
        res@ == setup_command(seq![a@, b@, c@]),
{
    ExecSpec {
        command: triple(a, b, c),
        user: None,
        working_dir: None,
        attach_stdout: true,
        attach_stderr: true,
    }
}

/// Creates the directory that holds every scratch directory.
pub fn make_root() -> (res: ExecSpec)
    ensures
        res@ == make_root_spec(),
{
    setup("mkdir", "-p", "/tmp/eval")
}

/// Lets the restricted identity pass through the scratch root.
pub fn open_root() -> (res: ExecSpec)
    ensures
        res@ == open_root_spec(),
{
    setup("chmod", "771", "/tmp/eval")
}

/// Creates the scratch directory of execution `id`.
pub fn make_scratch(id: u32) -> (res: ExecSpec)
    ensures
        res@ == make_scratch_spec(id),
{
    let dir = scratch_dir(id);
    setup("mkdir", "-p", dir.as_str())
}

/// Lets the restricted identity write to the scratch directory of execution
/// `id`.
pub fn open_scratch(id: u32) -> (res: ExecSpec)
    ensures
        res@ == open_scratch_spec(id),
{
    let dir = scratch_dir(id);
    setup("chmod", "777", dir.as_str())
}

/// Runs the language's run script on `code` as the restricted identity inside
/// the scratch directory of execution `id`.
pub fn run_script(code: &str, id: u32) -> (res: ExecSpec)
    ensures
        res@ == run_script_spec(code@, id),
{
    ExecSpec {
        command: triple("/bin/sh", "/var/run/run.sh", code),
        user: Some(String::from_str("1001:1001")),
        working_dir: Some(scratch_dir(id)),
        attach_stdout: true,
        attach_stderr: true,
    }
}

/// The isolation policy caps every sandbox container alike. Whatever the
/// language, the identifier and the runtime, the container gets a quarter of
/// a core, 128 MiB of memory with no swap beyond them, and no network; it
/// runs as an unprivileged identity and is removed as soon as it stops.
pub proof fn law_policy_capped(language: Languages, id: u32, runtime: Option<Seq<char>>)
    ensures
        container_policy(language, id, runtime).nano_cpus * 4 == 1_000_000_000,
        container_policy(language, id, runtime).memory == 128 * 1024 * 1024,
        container_policy(language, id, runtime).memory_swap == container_policy(
            language,
            id,
            runtime,
        ).memory,
        container_policy(language, id, runtime).network_mode == "none"@,
        container_policy(language, id, runtime).user == "1000:1000"@,
        container_policy(language, id, runtime).auto_remove,
        container_policy(language, id, runtime).runtime == runtime,
{
}

/// No display name holds an underscore.
pub proof fn lemma_name_plain(language: Languages)
    ensures
        forall|i: int|
            0 <= i < language.name_spec().len() ==> #[trigger] language.name_spec()[i] != '_',
{
    Languages::reveal_names();
}

/// Executions do not share a container. Two executions that differ in
/// language or in identifier have containers of different names.
pub proof fn law_containers_apart(first: Languages, a: u32, second: Languages, b: u32)
    requires
        container_name_spec(first, a) == container_name_spec(second, b),
    ensures
        first == second,
        a == b,
{
    let prefix = "run.sh_"@;
    let bar = "_"@;
    let m = first.name_spec();
    let n = second.name_spec();
    let x = decimal_spec(a as nat);
    let y = decimal_spec(b as nat);
    let s = prefix + m + bar + x;
    let t = prefix + n + bar + y;
    reveal_strlit("_");
    lemma_name_plain(first);
    lemma_name_plain(second);
    let k = prefix.len() as int;
    if m.len() < n.len() {
        assert(s[k + m.len()] == '_');
        assert(t[k + m.len()] == n[m.len() as int]);
    } else if n.len() < m.len() {
        assert(t[k + n.len()] == '_');
        assert(s[k + n.len()] == m[n.len() as int]);
    } else {
        assert(m =~= n) by {
            assert forall|i: int| 0 <= i < m.len() implies m[i] == n[i] by {
                assert(s[k + i] == m[i]);
                assert(t[k + i] == n[i]);
            }
        }
        if first != second {
            Languages::law_names_distinct(first, second);
        }
        assert(s.len() == t.len());
        assert(x =~= y) by {
            assert forall|i: int| 0 <= i < x.len() implies x[i] == y[i] by {
                assert(s[k + m.len() + 1 + i] == x[i]);
                assert(t[k + n.len() + 1 + i] == y[i]);
            }
        }
        lemma_decimal_injective(a as nat, b as nat);
    }
}

/// Executions do not share a scratch directory. Two executions with
/// different identifiers work in different directories.
pub proof fn law_scratch_apart(a: u32, b: u32)
    requires
        scratch_dir_spec(a) == scratch_dir_spec(b),
    ensures
        a == b,
{
    let prefix = "/tmp/eval/"@;
    let x = decimal_spec(a as nat);
    let y = decimal_spec(b as nat);
    let s = prefix + x;
    let t = prefix + y;
    assert(s.len() == t.len());
    assert(x =~= y) by {
        assert forall|i: int| 0 <= i < x.len() implies x[i] == y[i] by {
            assert(s[prefix.len() + i] == x[i]);
            assert(t[prefix.len() + i] == y[i]);
        }
    }
    lemma_decimal_injective(a as nat, b as nat);
}

} // verus!
