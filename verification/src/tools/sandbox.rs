//! Container-sandboxed shell execution: choosing the engine and building the container
//! command line. Running the process is left to the caller.

use vstd::prelude::*;

use crate::text::{concat, views};

verus! {

/// Container sandbox configuration.
#[derive(Debug, Clone)]
pub struct SandboxConfig {
    /// Container engine: "docker" or "podman" (auto-detected if empty)
    pub engine: String,
    /// Container image to use
    pub image: String,
    /// Memory limit (e.g. "512m")
    pub memory_limit: String,
    /// CPU limit (e.g. "1")
    pub cpu_limit: String,
    /// Enable container networking
    pub network: bool,
    /// Timeout in seconds
    pub timeout_secs: u64,
}

impl Default for SandboxConfig {
    fn default() -> (c: Self)
        ensures
            c.engine@ == Seq::<char>::empty(),
            c.image@ == "alpine:latest"@,
            c.memory_limit@ == "512m"@,
            c.cpu_limit@ == "1"@,
            !c.network,
            c.timeout_secs == 120,
    {
        SandboxConfig {
            engine: String::new(),
            image: String::from_str("alpine:latest"),
            memory_limit: String::from_str("512m"),
            cpu_limit: String::from_str("1"),
            network: false,
            timeout_secs: 120,
        }
    }
}

/// Output from a sandboxed command execution.
#[derive(Debug, Clone)]
pub struct SandboxOutput {
    /// Process exit code
    pub exit_code: i32,
    /// Captured stdout
    pub stdout: String,
    /// Captured stderr
    pub stderr: String,
    /// Whether execution was sandboxed (false = host fallback)
    pub sandboxed: bool,
}

/// `which::which(name).is_ok()`: whether an executable of that name is found on the
/// search path. What it finds depends on the machine, so nothing is claimed of it.
#[verifier::external_body]
pub(crate) fn program_available(name: &str) -> (r: bool) {
    which::which(name).is_ok()
}

/// The engine chosen from what the search path holds: docker when it is found,
/// otherwise podman when it is found, otherwise none.
pub open spec fn engine_pick(docker_found: bool, podman_found: bool) -> Option<Seq<char>> {
    if docker_found {
        Some("docker"@)
    } else if podman_found {
        Some("podman"@)
    } else {
        None
    }
}

/// The engine resolved for a configuration: with no engine configured, the detected
/// one; otherwise the configured engine when it is installed, and none when it is not.
pub open spec fn engine_resolved(
    configured: Seq<char>,
    configured_found: bool,
    detected: Option<Seq<char>>,
) -> Option<Seq<char>> {
    if configured.len() == 0 {
        detected
    } else if configured_found {
        Some(configured)
    } else {
        None
    }
}

/// The text of an optional engine name.
pub open spec fn opt_text(o: Option<String>) -> Option<Seq<char>> {
    match o {
        Some(s) => Some(s@),
        None => None,
    }
}

/// The engine to use given whether docker and podman were found on the search path.
pub fn pick_engine(docker_found: bool, podman_found: bool) -> (r: Option<String>)
    ensures
        opt_text(r) == engine_pick(docker_found, podman_found),
{
    if docker_found {
        return Some(String::from_str("docker"));
    }
    if podman_found {
        return Some(String::from_str("podman"));
    }
    None
}

/// The engine for a configuration, given whether its configured engine was found and
/// what detection gave.
pub fn engine_for(config: &SandboxConfig, configured_found: bool, detected: Option<String>) -> (r:
    Option<String>)
    ensures
        opt_text(r) == engine_resolved(config.engine@, configured_found, opt_text(detected)),
{
    if config.engine.as_str().is_empty() {
        detected
    } else if configured_found {
        Some(config.engine.clone())
    } else {
        None
    }
}

/// Detect an available container runtime: docker first, then podman. Which of them
/// the search path holds is the machine's; the choice made from that is `engine_pick`.
pub fn detect_engine() -> (r: Option<String>)
    ensures
        exists|docker_found: bool, podman_found: bool|
            opt_text(r) == #[trigger] engine_pick(docker_found, podman_found),
{
    let docker_found = program_available("docker");
    let podman_found = if docker_found {
        false
    } else {
        program_available("podman")
    };
    pick_engine(docker_found, podman_found)
}

/// Resolve the container engine: the configured one if it is installed, otherwise
/// (when none is configured) whichever of docker and podman is found.
pub fn resolve_engine(config: &SandboxConfig) -> (r: Option<String>)
    ensures
        exists|configured_found: bool, docker_found: bool, podman_found: bool|
            opt_text(r) == #[trigger] engine_resolved(
                config.engine@,
                configured_found,
                engine_pick(docker_found, podman_found),
            ),
{
    if config.engine.as_str().is_empty() {
        let detected = detect_engine();
        let r = engine_for(config, false, detected);
        proof {
            let (d, p) = choose|d: bool, p: bool| opt_text(detected) == #[trigger] engine_pick(d, p);
            assert(opt_text(r) == engine_resolved(config.engine@, false, engine_pick(d, p)));
        }
        r
    } else {
        let found = program_available(config.engine.as_str());
        let r = engine_for(config, found, None);
        proof {
            assert(opt_text(r) == engine_resolved(config.engine@, found, engine_pick(false, false)));
        }
        r
    }
}

/// The timeout a command gets: the requested one or the configured one.
pub open spec fn requested_timeout(timeout: Option<u64>, config: SandboxConfig) -> u64 {
    match timeout {
        Some(t) => t,
        None => config.timeout_secs,
    }
}

/// The timeout inside a container: the requested or configured one, at most ten minutes.
pub open spec fn container_timeout(timeout: Option<u64>, config: SandboxConfig) -> u64 {
    let t = requested_timeout(timeout, config);
    if t < 600 {
        t
    } else {
        600
    }
}

/// The arguments handed to the container engine.
pub open spec fn container_args(command: Seq<char>, working_dir: Seq<char>, config: SandboxConfig) -> Seq<
    Seq<char>,
> {
    seq!["run"@, "--rm"@, "--memory"@, config.memory_limit@, "--cpus"@, config.cpu_limit@] + (if config.network {
        Seq::<Seq<char>>::empty()
    } else {
        seq!["--network"@, "none"@]
    }) + seq![
        "-v"@,
        working_dir + ":/workspace"@,
        "-w"@,
        "/workspace"@,
        config.image@,
        "/bin/sh"@,
        "-c"@,
        command,
    ]
}

/// How a command is to be run.
#[derive(Debug, Clone)]
pub enum SandboxPlan {
    /// Run `engine` with `args`, killed after `timeout_secs`
    Container { engine: String, args: Vec<String>, timeout_secs: u64 },
    /// No container runtime: run `/bin/sh -c` on the host, killed after `timeout_secs`
    Host { timeout_secs: u64 },
}

fn push_str(v: &mut Vec<String>, s: &str)
    ensures
        final(v)@.len() == old(v)@.len() + 1,
        forall|i: int| 0 <= i < old(v)@.len() ==> final(v)@[i] == old(v)@[i],
        final(v)@[old(v)@.len() as int]@ == s@,
{
    v.push(String::from_str(s));
}

/// The plan for running `command` in `working_dir`, given the engine that was found.
pub fn sandbox_plan(
    engine: Option<String>,
    command: &str,
    working_dir: &str,
    config: &SandboxConfig,
    timeout: Option<u64>,
) -> (r: SandboxPlan)
    ensures
        match engine {
            None => r == SandboxPlan::Host { timeout_secs: requested_timeout(timeout, *config) },
            Some(e) => match r {
                SandboxPlan::Container { engine: e2, args, timeout_secs } => {
                    &&& e2 == e
                    &&& views(args@) == container_args(command@, working_dir@, *config)
                    &&& timeout_secs == container_timeout(timeout, *config)
                },
                SandboxPlan::Host { .. } => false,
            },
        },
{
    let requested = match timeout {
        Some(t) => t,
        None => config.timeout_secs,
    };
    match engine {
        None => SandboxPlan::Host { timeout_secs: requested },
        Some(e) => {
            let timeout_secs = if requested < 600 {
                requested
            } else {
                600
            };
            let mut args: Vec<String> = Vec::new();
            push_str(&mut args, "run");
            push_str(&mut args, "--rm");
            push_str(&mut args, "--memory");
            push_str(&mut args, config.memory_limit.as_str());
            push_str(&mut args, "--cpus");
            push_str(&mut args, config.cpu_limit.as_str());
            if !config.network {
                push_str(&mut args, "--network");
                push_str(&mut args, "none");
            }
            let mount = concat(working_dir, ":/workspace");
            push_str(&mut args, "-v");
            push_str(&mut args, mount.as_str());
            push_str(&mut args, "-w");
            push_str(&mut args, "/workspace");
            push_str(&mut args, config.image.as_str());
            push_str(&mut args, "/bin/sh");
            push_str(&mut args, "-c");
            push_str(&mut args, command);
            proof {
                assert(views(args@) =~= container_args(command@, working_dir@, *config));
            }
            SandboxPlan::Container { engine: e, args, timeout_secs }
        },
    }
}

/// Plan the run of `command`: look for the engine, then lay out what to run.
pub fn plan_execution(
    command: &str,
    working_dir: &str,
    config: &SandboxConfig,
    timeout: Option<u64>,
) -> (r: SandboxPlan)
    ensures
        match r {
            SandboxPlan::Host { timeout_secs } => timeout_secs == requested_timeout(timeout, *config),
            SandboxPlan::Container { engine, args, timeout_secs } => {
                &&& (if config.engine@.len() == 0 {
                    engine@ == "docker"@ || engine@ == "podman"@
                } else {
                    engine@ == config.engine@
                })
                &&& views(args@) == container_args(command@, working_dir@, *config)
                &&& timeout_secs == container_timeout(timeout, *config)
            },
        },
{
    let engine = resolve_engine(config);
    sandbox_plan(engine, command, working_dir, config, timeout)
}

} // verus!
