//! Skills in the openclaw format: their install specs and runtime requirements.

use vstd::prelude::*;

use crate::error::BeaconError;
use crate::text::{concat, concat3, join_strings, joined, str_eq, views};
use crate::tools::sandbox::program_available;

verus! {

/// How a skill dependency is installed.
#[derive(Debug, Clone, Copy, PartialEq, Eq, Structural)]
pub enum InstallKind {
    /// Homebrew formula
    Brew,
    /// npm package, installed globally
    Node,
    /// Go module
    Go,
    /// Python tool installed with uv
    Uv,
    /// File downloaded from a URL
    Download,
}

/// One install requirement of a skill.
#[derive(Debug, Clone)]
pub struct SkillInstallSpec {
    /// How to install
    pub kind: InstallKind,
    /// Homebrew formula name
    pub formula: Option<String>,
    /// Human-readable label
    pub label: Option<String>,
    /// Binaries the install provides
    pub bins: Vec<String>,
    /// Operating systems the install applies to
    pub os: Vec<String>,
    /// npm or uv package name
    pub package: Option<String>,
    /// Go module path
    pub module: Option<String>,
    /// Download URL
    pub url: Option<String>,
    /// Archive format of the download
    pub archive: Option<String>,
    /// Leading path components to strip when unpacking
    pub strip_components: Option<u32>,
    /// Where to unpack
    pub target_dir: Option<String>,
}

/// The shell command that installs a dependency, when its spec names what to install.
pub open spec fn install_command(spec: SkillInstallSpec) -> Option<Seq<char>> {
    match spec.kind {
        InstallKind::Brew => match spec.formula {
            Some(f) => Some("brew install "@ + f@),
            None => None,
        },
        InstallKind::Node => match spec.package {
            Some(p) => Some("npm install -g "@ + p@),
            None => None,
        },
        InstallKind::Go => match spec.module {
            Some(m) => Some("go install "@ + m@ + "@latest"@),
            None => None,
        },
        InstallKind::Uv => match spec.package {
            Some(p) => Some("uv tool install "@ + p@),
            None => None,
        },
        InstallKind::Download => match spec.url {
            Some(u) => Some("curl -fsSL -o /tmp/download '"@ + u@ + "'"@),
            None => None,
        },
    }
}

/// Build a shell command to install a skill dependency; `None` if the spec is incomplete.
pub fn build_install_command(spec: &SkillInstallSpec) -> (r: Option<String>)
    ensures
        match r {
            Some(c) => install_command(*spec) == Some(c@),
            None => install_command(*spec) is None,
        },
{
    match spec.kind {
        InstallKind::Brew => match &spec.formula {
            Some(f) => Some(concat("brew install ", f.as_str())),
            None => None,
        },
        InstallKind::Node => match &spec.package {
            Some(p) => Some(concat("npm install -g ", p.as_str())),
            None => None,
        },
        InstallKind::Go => match &spec.module {
            Some(m) => Some(concat3("go install ", m.as_str(), "@latest")),
            None => None,
        },
        InstallKind::Uv => match &spec.package {
            Some(p) => Some(concat("uv tool install ", p.as_str())),
            None => None,
        },
        InstallKind::Download => match &spec.url {
            Some(u) => Some(concat3("curl -fsSL -o /tmp/download '", u.as_str(), "'")),
            None => None,
        },
    }
}

/// Skill metadata from its frontmatter.
#[derive(Debug, Clone)]
pub struct SkillMetadata {
    /// Skill name
    pub name: String,
    /// What the skill does
    pub description: String,
    /// Version
    pub version: Option<String>,
    /// Author
    pub author: Option<String>,
    /// Tags
    pub tags: Vec<String>,
    /// Permissions the skill asks for
    pub permissions: Vec<String>,
    /// Always loaded
    pub always: bool,
    /// Users may invoke it
    pub user_invocable: bool,
    /// The model may not invoke it
    pub disable_model_invocation: bool,
    /// Emoji shown with it
    pub emoji: Option<String>,
    /// Environment variables that must be set
    pub requires_env: Vec<String>,
    /// Operating systems it runs on
    pub os: Vec<String>,
    /// Binaries that must all be installed
    pub requires_bins: Vec<String>,
    /// Binaries of which at least one must be installed
    pub requires_any_bins: Vec<String>,
    /// Main environment variable
    pub primary_env: Option<String>,
    /// Command dispatch mode
    pub command_dispatch: Option<String>,
    /// Tool the command dispatches to
    pub command_tool: Option<String>,
    /// Install specs of its dependencies
    pub install: Vec<SkillInstallSpec>,
    /// Configuration keys it needs
    pub requires_config: Vec<String>,
}

/// The items whose flag is false, in order.
pub open spec fn missing_items(names: Seq<String>, present: Seq<bool>) -> Seq<Seq<char>>
    decreases names.len(),
{
    if names.len() == 0 {
        Seq::empty()
    } else {
        let rest = missing_items(names.drop_last(), present.take(names.len() - 1));
        if present[names.len() - 1] {
            rest
        } else {
            rest.push(names.last()@)
        }
    }
}

/// The names whose flag is false.
fn collect_missing(names: &Vec<String>, present: &Vec<bool>) -> (r: Vec<String>)
    requires
        names@.len() == present@.len(),
    ensures
        views(r@) == missing_items(names@, present@),
{
    let mut out: Vec<String> = Vec::new();
    let mut i: usize = 0;
    while i < names.len()
        invariant
            i <= names@.len(),
            names@.len() == present@.len(),
            views(out@) == missing_items(names@.take(i as int), present@.take(i as int)),
        decreases names@.len() - i,
    {
        proof {
            let n2 = names@.take(i + 1);
            assert(n2.drop_last() =~= names@.take(i as int));
            assert(present@.take(i + 1).take(i as int) =~= present@.take(i as int));
        }
        if !present[i] {
            out.push(names[i].clone());
            proof {
                assert(views(out@) =~= missing_items(names@.take(i as int), present@.take(i as int)).push(
                    names@[i as int]@,
                ));
            }
        }
        i = i + 1;
    }
    proof {
        assert(names@.take(names@.len() as int) =~= names@);
        assert(present@.take(present@.len() as int) =~= present@);
    }
    out
}

/// Why a skill cannot run, given which of its environment variables are set, which of its
/// required binaries are installed and which of its alternative binaries are installed;
/// `None` when it can.
pub open spec fn requirements_failure(
    m: SkillMetadata,
    env_present: Seq<bool>,
    bins_present: Seq<bool>,
    any_present: Seq<bool>,
) -> Option<Seq<char>> {
    let who = "skill '"@ + m.name@;
    let missing_env = missing_items(m.requires_env@, env_present);
    let missing_bins = missing_items(m.requires_bins@, bins_present);
    if missing_env.len() > 0 {
        Some(who + "' requires missing env vars: "@ + joined(missing_env, ", "@))
    } else if missing_bins.len() > 0 {
        Some(who + "' requires missing binaries: "@ + joined(missing_bins, ", "@))
    } else if m.requires_any_bins@.len() > 0 && !any_present.contains(true) {
        Some(who + "' requires at least one of: "@ + joined(views(m.requires_any_bins@), ", "@))
    } else {
        None
    }
}

/// Decide whether a skill's requirements hold, from what was found on the machine.
pub fn requirements_verdict(
    m: &SkillMetadata,
    env_present: &Vec<bool>,
    bins_present: &Vec<bool>,
    any_present: &Vec<bool>,
) -> (r: Result<(), BeaconError>)
    requires
        env_present@.len() == m.requires_env@.len(),
        bins_present@.len() == m.requires_bins@.len(),
    ensures
        match requirements_failure(*m, env_present@, bins_present@, any_present@) {
            None => r is Ok,
            Some(msg) => r is Err && r->Err_0 is Skill && r->Err_0.spec_message() == msg,
        },
{
    proof {
        reveal_strlit("skill '");
        reveal_strlit("' requires missing env vars: ");
        reveal_strlit("' requires missing binaries: ");
        reveal_strlit("' requires at least one of: ");
    }
    let who = concat("skill '", m.name.as_str());
    let missing_env = collect_missing(&m.requires_env, env_present);
    if missing_env.len() > 0 {
        let list = join_strings(&missing_env, ", ");
        return Err(BeaconError::Skill(concat3(who.as_str(), "' requires missing env vars: ", list.as_str())));
    }
    let missing_bins = collect_missing(&m.requires_bins, bins_present);
    if missing_bins.len() > 0 {
        let list = join_strings(&missing_bins, ", ");
        return Err(BeaconError::Skill(concat3(who.as_str(), "' requires missing binaries: ", list.as_str())));
    }
    if m.requires_any_bins.len() > 0 {
        let mut any = false;
        let mut i: usize = 0;
        while i < any_present.len()
            invariant
                i <= any_present@.len(),
                any <==> any_present@.take(i as int).contains(true),
            decreases any_present@.len() - i,
        {
            proof {
                let t = any_present@.take(i + 1);
                assert(t =~= any_present@.take(i as int).push(any_present@[i as int]));
                if any_present@.take(i as int).contains(true) {
                    let w = choose|w: int| 0 <= w < i && any_present@.take(i as int)[w] == true;
                    assert(t[w] == true);
                }
                if t.contains(true) && !any_present@[i as int] {
                    let w = choose|w: int| 0 <= w < i + 1 && t[w] == true;
                    assert(any_present@.take(i as int)[w] == true);
                }
                if any_present@[i as int] {
                    assert(t[i as int] == true);
                }
            }
            any = any || any_present[i];
            i = i + 1;
        }
        proof {
            assert(any_present@.take(any_present@.len() as int) =~= any_present@);
        }
        if !any {
            let list = join_strings(&m.requires_any_bins, ", ");
            return Err(BeaconError::Skill(concat3(who.as_str(), "' requires at least one of: ", list.as_str())));
        }
    }
    Ok(())
}

/// Whether each binary in the list is installed, as `which` finds them.
fn binaries_present(bins: &Vec<String>) -> (r: Vec<bool>)
    ensures
        r@.len() == bins@.len(),
{
    let mut out: Vec<bool> = Vec::new();
    let mut i: usize = 0;
    while i < bins.len()
        invariant
            i <= bins@.len(),
            out@.len() == i,
        decreases bins@.len() - i,
    {
        out.push(program_available(bins[i].as_str()));
        i = i + 1;
    }
    out
}

/// The verdict on a skill's requirements for some finding of which required and which
/// alternative binaries are installed (one flag per binary).
pub open spec fn verdict_for_some_finding(m: SkillMetadata, env_present: Seq<bool>, r: Result<(), BeaconError>) -> bool {
    exists|bins: Seq<bool>, any: Seq<bool>|
        bins.len() == m.requires_bins@.len() && any.len() == m.requires_any_bins@.len() && #[trigger] verdict_is(
            requirements_failure(m, env_present, bins, any),
            r,
        )
}

/// `r` is the verdict for the failure `f`.
pub open spec fn verdict_is(f: Option<Seq<char>>, r: Result<(), BeaconError>) -> bool {
    match f {
        None => r is Ok,
        Some(msg) => r is Err && r->Err_0 is Skill && r->Err_0.spec_message() == msg,
    }
}

/// Validate a skill's runtime requirements, given which of its required environment
/// variables are set (one flag per entry of `requires_env`): the binaries are looked up
/// on the search path, and the verdict is the one for what was found there.
pub fn validate_requirements(m: &SkillMetadata, env_present: &Vec<bool>) -> (r: Result<(), BeaconError>)
    requires
        env_present@.len() == m.requires_env@.len(),
    ensures
        verdict_for_some_finding(*m, env_present@, r),
        missing_items(m.requires_env@, env_present@).len() > 0 ==> r is Err && r->Err_0 is Skill
            && r->Err_0.spec_message() == "skill '"@ + m.name@ + "' requires missing env vars: "@
            + joined(missing_items(m.requires_env@, env_present@), ", "@),
        m.requires_bins@.len() == 0 && m.requires_any_bins@.len() == 0 ==> (r is Ok <==> missing_items(
            m.requires_env@,
            env_present@,
        ).len() == 0),
{
    let bins = binaries_present(&m.requires_bins);
    let any = binaries_present(&m.requires_any_bins);
    proof {
        assert(missing_items(m.requires_bins@, bins@).len() == 0 || m.requires_bins@.len() > 0) by {
            if m.requires_bins@.len() == 0 {
                assert(m.requires_bins@ =~= Seq::<String>::empty());
            }
        }
    }
    let r = requirements_verdict(m, env_present, &bins, &any);
    proof {
        assert(verdict_is(requirements_failure(*m, env_present@, bins@, any@), r));
    }
    r
}

/// A key under `metadata` that marks the openclaw format.
pub open spec fn is_openclaw_key(k: Seq<char>) -> bool {
    k == "openclaw"@ || k == "clawdbot"@ || k == "clawdis"@
}

/// Some key marks the openclaw format.
pub open spec fn has_openclaw_key(keys: Seq<String>) -> bool {
    exists|i: int| 0 <= i < keys.len() && #[trigger] is_openclaw_key(keys[i]@)
}

/// Whether frontmatter is in the openclaw format, given the string keys of its
/// `metadata` mapping (`None` when there is no such mapping).
pub fn is_openclaw_skill(metadata_keys: &Option<Vec<String>>) -> (r: bool)
    ensures
        r == match metadata_keys {
            Some(keys) => has_openclaw_key(keys@),
            None => false,
        },
{
    match metadata_keys {
        None => false,
        Some(keys) => {
            let mut i: usize = 0;
            while i < keys.len()
                invariant
                    i <= keys@.len(),
                    *metadata_keys == Some(*keys),
                    forall|m: int| 0 <= m < i ==> !#[trigger] is_openclaw_key(keys@[m]@),
                decreases keys@.len() - i,
            {
                let k = keys[i].as_str();
                if str_eq(k, "openclaw") || str_eq(k, "clawdbot") || str_eq(k, "clawdis") {
                    proof {
                        assert(is_openclaw_key(keys@[i as int]@));
                    }
                    return true;
                }
                i = i + 1;
            }
            false
        },
    }
}

} // verus!
