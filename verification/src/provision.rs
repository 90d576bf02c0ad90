//! Provisioning of the daemon executable: where the bundled copy is looked
//! for, and what has to be done to have it installed.
//!
//! Nothing here touches the file system. The caller reports what exists and
//! carries out the steps that are planned.

use crate::paths::get_noorsigner_dir;
use crate::paths::home_missing;
use crate::paths::join;
use crate::paths::join_path;
use crate::paths::noorsigner_dir;
use crate::paths::noorsigner_path;
use crate::process::Platform;
use crate::text::views;
use vstd::prelude::*;
use vstd::string::*;

verus! {

/// The processor architectures that the daemon is bundled for.
#[derive(Clone, Copy, Debug, PartialEq, Eq, Structural)]
pub enum Arch {
    X86_64,
    Aarch64,
}

/// One step of an installation.
#[derive(Clone, Copy, Debug, PartialEq, Eq, Structural)]
pub enum InstallStep {
    /// Create the directory of the executable, with its parents.
    CreateDirectory,
    /// Find the bundled copy of the executable.
    LocateSource,
    /// Copy the bundled copy to its place.
    CopyBinary,
    /// Set the installed file's mode to `EXECUTABLE_MODE`.
    MakeExecutable,
}

/// The mode of the installed executable: read and execute for all, write
/// for the owner.
pub const EXECUTABLE_MODE: u32 = 0o755;

/// The number of places in which the bundled copy is looked for.
pub const CANDIDATE_COUNT: usize = 4;

/// The name under which the build tools bundle the executable for a
/// platform and an architecture.
pub open spec fn triple_of(platform: Platform, arch: Arch) -> Seq<char> {
    match (platform, arch) {
        (Platform::Linux, Arch::X86_64) => "x86_64-unknown-linux-gnu"@,
        (Platform::Linux, Arch::Aarch64) => "aarch64-unknown-linux-gnu"@,
        (Platform::MacOs, Arch::X86_64) => "x86_64-apple-darwin"@,
        (Platform::MacOs, Arch::Aarch64) => "aarch64-apple-darwin"@,
    }
}

/// The file name of the bundled copy that carries the target triple.
pub open spec fn sidecar_name(triple: Seq<char>) -> Seq<char> {
    "noorsigner-"@ + triple
}

/// The places in which the bundled copy is looked for, in order: beside the
/// application's executable under its plain name and under its name with
/// the triple, then in the bundle's resources, then in the build tree.
pub open spec fn candidate_paths(exe_dir: Seq<char>, triple: Seq<char>) -> Seq<Seq<char>> {
    seq![
        join_path(exe_dir, "noorsigner"@),
        join_path(exe_dir, sidecar_name(triple)),
        join_path(join_path(exe_dir, "../Resources"@), sidecar_name(triple)),
        join_path(join_path(exe_dir, "../../binaries"@), sidecar_name(triple)),
    ]
}

/// Whether the candidate with the index `i` was reported present. A
/// candidate without a report counts as absent.
pub open spec fn is_present(present: Seq<bool>, i: int) -> bool {
    0 <= i < present.len() && present[i]
}

/// Whether `i` is the first candidate that was reported present.
pub open spec fn is_first_present(present: Seq<bool>, i: int) -> bool {
    &&& 0 <= i < CANDIDATE_COUNT
    &&& is_present(present, i)
    &&& forall|j: int| 0 <= j < i ==> !is_present(present, j)
}

/// Whether no candidate was reported present.
pub open spec fn none_present(present: Seq<bool>) -> bool {
    forall|j: int| 0 <= j < CANDIDATE_COUNT ==> !is_present(present, j)
}

/// The paths in `paths` as a list for a message: each in double quotes,
/// with a comma and a space between each two.
pub open spec fn quoted_list(paths: Seq<Seq<char>>) -> Seq<char>
    decreases paths.len(),
{
    if paths.len() == 0 {
        Seq::<char>::empty()
    } else if paths.len() == 1 {
        "\""@ + paths[0] + "\""@
    } else {
        quoted_list(paths.drop_last()) + ", "@ + "\""@ + paths.last() + "\""@
    }
}

/// The error for a bundled copy that is in none of its places.
pub open spec fn source_missing(exe_dir: Seq<char>, triple: Seq<char>) -> Seq<char> {
    "NoorSigner sidecar not found. Searched for 'noorsigner' or '"@ + sidecar_name(triple)
        + "' in: ["@ + quoted_list(candidate_paths(exe_dir, triple)) + "]"@
}

/// The steps that install the executable, given whether its directory and
/// the executable itself exist already.
///
/// A missing directory is created. An executable that is already in its
/// place is left alone: nothing is copied and no mode is changed.
pub open spec fn install_steps(directory_exists: bool, binary_exists: bool) -> Seq<InstallStep> {
    let create = if directory_exists {
        Seq::<InstallStep>::empty()
    } else {
        seq![InstallStep::CreateDirectory]
    };
    let install = if directory_exists && binary_exists {
        Seq::<InstallStep>::empty()
    } else {
        seq![InstallStep::LocateSource, InstallStep::CopyBinary, InstallStep::MakeExecutable]
    };
    create + install
}

/// Installing is idempotent: once the executable is in its place, nothing is
/// left to do.
pub proof fn lemma_installed_needs_nothing()
    ensures
        install_steps(true, true) == Seq::<InstallStep>::empty(),
{
}

/// An executable is copied exactly when it is not in its place yet, and
/// then it is made executable right after the copy.
pub proof fn lemma_copy_only_when_absent(directory_exists: bool, binary_exists: bool)
    ensures
        install_steps(directory_exists, binary_exists).contains(InstallStep::CopyBinary) <==> !(
        directory_exists && binary_exists),
        install_steps(directory_exists, binary_exists).contains(InstallStep::CopyBinary)
            ==> install_steps(directory_exists, binary_exists).last()
            == InstallStep::MakeExecutable,
        install_steps(directory_exists, binary_exists).contains(InstallStep::CreateDirectory)
            <==> !directory_exists,
{
    let steps = install_steps(directory_exists, binary_exists);
    if !directory_exists {
        assert(steps[0] == InstallStep::CreateDirectory);
        assert(steps[2] == InstallStep::CopyBinary);
    }
}

/// The name under which the executable is bundled for `platform` and
/// `arch`.
pub fn target_triple(platform: Platform, arch: Arch) -> (triple: &'static str)
    ensures
        triple@ == triple_of(platform, arch),
{
    match (platform, arch) {
        (Platform::Linux, Arch::X86_64) => "x86_64-unknown-linux-gnu",
        (Platform::Linux, Arch::Aarch64) => "aarch64-unknown-linux-gnu",
        (Platform::MacOs, Arch::X86_64) => "x86_64-apple-darwin",
        (Platform::MacOs, Arch::Aarch64) => "aarch64-apple-darwin",
    }
}

/// The places in which the bundled copy is looked for, in order, for an
/// application whose executable lies in `exe_dir`.
pub fn sidecar_candidates(exe_dir: &str, triple: &str) -> (candidates: Vec<String>)
    ensures
        views(candidates@) == candidate_paths(exe_dir@, triple@),
{
    let mut name = String::from_str("noorsigner-");
    name.append(triple);
    let resources = join(exe_dir, "../Resources");
    let binaries = join(exe_dir, "../../binaries");
    let mut candidates: Vec<String> = Vec::new();
    candidates.push(join(exe_dir, "noorsigner"));
    candidates.push(join(exe_dir, name.as_str()));
    candidates.push(join(resources.as_str(), name.as_str()));
    candidates.push(join(binaries.as_str(), name.as_str()));
    candidates
}

/// Writes `paths` as a list for a message.
fn quote_list(paths: &Vec<String>) -> (list: String)
    ensures
        list@ == quoted_list(views(paths@)),
{
    let mut list = String::new();
    let mut i: usize = 0;
    while i < paths.len()
        invariant
            i <= paths.len(),
            list@ == quoted_list(views(paths@).take(i as int)),
        decreases paths.len() - i,
    {
        assert(views(paths@).take(i + 1).drop_last() =~= views(paths@).take(i as int));
        if i > 0 {
            list.append(", ");
        }
        list.append("\"");
        list.append(paths[i].as_str());
        list.append("\"");
        i += 1;
    }
    assert(views(paths@).take(paths.len() as int) =~= views(paths@));
    list
}

/// Picks the bundled copy of the executable: the first of its places at
/// which the caller found a file.
///
/// `present` tells for each place, in the order of `sidecar_candidates`,
/// whether a file is there; a place that it does not cover counts as empty.
/// With no file at any place the result is an error that names every place
/// that was searched.
pub fn get_sidecar_source_path(exe_dir: &str, triple: &str, present: &Vec<bool>) -> (result:
    Result<String, String>)
    ensures
        match result {
            Ok(path) => exists|i: int|
                is_first_present(present@, i) && path@ == #[trigger] candidate_paths(
                    exe_dir@,
                    triple@,
                )[i],
            Err(message) => none_present(present@) && message@ == source_missing(
                exe_dir@,
                triple@,
            ),
        },
{
    let mut candidates = sidecar_candidates(exe_dir, triple);
    let ghost listed = candidate_paths(exe_dir@, triple@);
    let mut i: usize = 0;
    assert(candidates@.len() == views(candidates@).len());
    while i < CANDIDATE_COUNT
        invariant
            i <= CANDIDATE_COUNT,
            candidates@.len() == CANDIDATE_COUNT,
            views(candidates@) == listed,
            listed == candidate_paths(exe_dir@, triple@),
            forall|j: int| 0 <= j < i ==> !is_present(present@, j),
        decreases CANDIDATE_COUNT - i,
    {
        if i < present.len() && present[i] {
            let path = candidates.swap_remove(i);
            return Ok(path);
        }
        i += 1;
    }
    let mut message = String::from_str(
        "NoorSigner sidecar not found. Searched for 'noorsigner' or '",
    );
    message.append("noorsigner-");
    message.append(triple);
    message.append("' in: [");
    let list = quote_list(&candidates);
    message.append(list.as_str());
    message.append("]");
    Err(message)
}

/// What has to be done to have the executable installed.
#[derive(Clone, Debug, PartialEq, Eq)]
pub struct InstallPlan {
    /// The directory that the executable is installed in.
    pub directory: String,
    /// The path of the installed executable.
    pub target: String,
    /// The steps to carry out, in order. Each must succeed before the next
    /// is begun.
    pub steps: Vec<InstallStep>,
}

/// Plans the installation of the daemon executable under `home`.
///
/// `directory_exists` and `binary_exists` tell whether the directory of the
/// executable and the executable itself exist already; in a directory that
/// does not exist no executable is taken to exist. The only error is a home
/// directory that is not known.
pub fn ensure_noorsigner_installed(
    home: Option<&str>,
    directory_exists: bool,
    binary_exists: bool,
) -> (result: Result<InstallPlan, String>)
    ensures
        match home {
            Some(h) => result matches Ok(plan) && plan.directory@ == noorsigner_dir(h@)
                && plan.target@ == noorsigner_path(h@) && plan.steps@ == install_steps(
                directory_exists,
                binary_exists,
            ),
            None => result matches Err(message) && message@ == home_missing(),
        },
{
    match get_noorsigner_dir(home) {
        Err(message) => Err(message),
        Ok(directory) => {
            let target = join(directory.as_str(), "noorsigner");
            let mut steps: Vec<InstallStep> = Vec::new();
            if !directory_exists {
                steps.push(InstallStep::CreateDirectory);
            }
            if !(directory_exists && binary_exists) {
                steps.push(InstallStep::LocateSource);
                steps.push(InstallStep::CopyBinary);
                steps.push(InstallStep::MakeExecutable);
            }
            Ok(InstallPlan { directory, target, steps })
        },
    }
}

} // verus!
