use key_signer::process::Platform;
use key_signer::provision::ensure_noorsigner_installed;
use key_signer::provision::get_sidecar_source_path;
use key_signer::provision::sidecar_candidates;
use key_signer::provision::target_triple;
use key_signer::provision::Arch;
use key_signer::provision::InstallPlan;
use key_signer::provision::InstallStep;
use key_signer::provision::CANDIDATE_COUNT;
use key_signer::provision::EXECUTABLE_MODE;

const EXE_DIR: &str = "/opt/noornote";
const TRIPLE: &str = "x86_64-unknown-linux-gnu";

fn plan(steps: Vec<InstallStep>) -> Result<InstallPlan, String> {
    Ok(InstallPlan {
        directory: "/home/alice/.noornote/bin".to_string(),
        target: "/home/alice/.noornote/bin/noorsigner".to_string(),
        steps,
    })
}

#[test]
fn the_installed_executable_is_readable_and_executable_by_all() {
    assert_eq!(EXECUTABLE_MODE, 0o755);
    assert_eq!(EXECUTABLE_MODE, 493);
}

#[test]
fn each_platform_and_architecture_has_its_triple() {
    assert_eq!(target_triple(Platform::Linux, Arch::X86_64), "x86_64-unknown-linux-gnu");
    assert_eq!(target_triple(Platform::Linux, Arch::Aarch64), "aarch64-unknown-linux-gnu");
    assert_eq!(target_triple(Platform::MacOs, Arch::X86_64), "x86_64-apple-darwin");
    assert_eq!(target_triple(Platform::MacOs, Arch::Aarch64), "aarch64-apple-darwin");
}

#[test]
fn the_bundled_copy_is_looked_for_in_four_places() {
    assert_eq!(CANDIDATE_COUNT, 4);
    assert_eq!(
        sidecar_candidates(EXE_DIR, TRIPLE),
        vec![
            "/opt/noornote/noorsigner",
            "/opt/noornote/noorsigner-x86_64-unknown-linux-gnu",
            "/opt/noornote/../Resources/noorsigner-x86_64-unknown-linux-gnu",
            "/opt/noornote/../../binaries/noorsigner-x86_64-unknown-linux-gnu",
        ]
    );
}

#[test]
fn the_first_place_with_a_file_is_picked() {
    let candidates = sidecar_candidates(EXE_DIR, TRIPLE);
    for first in 0..4 {
        for later in 0..16u32 {
            let present: Vec<bool> = (0..4)
                .map(|i| i == first || (i > first && (later >> i) & 1 == 1))
                .collect();
            assert_eq!(
                get_sidecar_source_path(EXE_DIR, TRIPLE, &present),
                Ok(candidates[first].clone())
            );
        }
    }
}

#[test]
fn a_place_without_a_report_counts_as_empty() {
    let candidates = sidecar_candidates(EXE_DIR, TRIPLE);
    assert_eq!(
        get_sidecar_source_path(EXE_DIR, TRIPLE, &vec![false, true]),
        Ok(candidates[1].clone())
    );
    assert!(get_sidecar_source_path(EXE_DIR, TRIPLE, &vec![]).is_err());
    assert!(get_sidecar_source_path(EXE_DIR, TRIPLE, &vec![false]).is_err());
}

#[test]
fn reports_beyond_the_four_places_are_ignored() {
    assert!(get_sidecar_source_path(EXE_DIR, TRIPLE, &vec![false, false, false, false, true])
        .is_err());
}

#[test]
fn a_bundled_copy_that_is_nowhere_is_an_error_that_names_every_place() {
    assert_eq!(
        get_sidecar_source_path(EXE_DIR, TRIPLE, &vec![false, false, false, false]),
        Err(concat_message())
    );
}

fn concat_message() -> String {
    let mut message = String::new();
    message.push_str("NoorSigner sidecar not found. Searched for 'noorsigner' or ");
    message.push_str("'noorsigner-x86_64-unknown-linux-gnu' in: [");
    message.push_str("\"/opt/noornote/noorsigner\", ");
    message.push_str("\"/opt/noornote/noorsigner-x86_64-unknown-linux-gnu\", ");
    message.push_str("\"/opt/noornote/../Resources/noorsigner-x86_64-unknown-linux-gnu\", ");
    message.push_str("\"/opt/noornote/../../binaries/noorsigner-x86_64-unknown-linux-gnu\"]");
    message
}

#[test]
fn a_fresh_home_needs_every_step() {
    assert_eq!(
        ensure_noorsigner_installed(Some("/home/alice"), false, false),
        plan(vec![
            InstallStep::CreateDirectory,
            InstallStep::LocateSource,
            InstallStep::CopyBinary,
            InstallStep::MakeExecutable,
        ])
    );
}

#[test]
fn an_existing_directory_is_not_created_again() {
    assert_eq!(
        ensure_noorsigner_installed(Some("/home/alice"), true, false),
        plan(vec![InstallStep::LocateSource, InstallStep::CopyBinary, InstallStep::MakeExecutable])
    );
}

#[test]
fn an_installed_executable_needs_nothing() {
    assert_eq!(ensure_noorsigner_installed(Some("/home/alice"), true, true), plan(vec![]));
}

#[test]
fn in_a_missing_directory_no_executable_is_taken_to_exist() {
    assert_eq!(
        ensure_noorsigner_installed(Some("/home/alice"), false, true),
        ensure_noorsigner_installed(Some("/home/alice"), false, false)
    );
}

#[test]
fn installing_twice_copies_once() {
    let first = ensure_noorsigner_installed(Some("/home/alice"), false, false).unwrap();
    assert!(first.steps.contains(&InstallStep::CopyBinary));
    let second = ensure_noorsigner_installed(Some("/home/alice"), true, true).unwrap();
    assert!(second.steps.is_empty());
    assert_eq!(first.target, second.target);
}

#[test]
fn without_a_home_directory_nothing_is_planned() {
    assert_eq!(
        ensure_noorsigner_installed(None, true, true),
        Err("Failed to get HOME directory".to_string())
    );
}
