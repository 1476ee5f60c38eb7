use imageprep::containment::ContainmentError;
use imageprep::prepare::{
    begin_prepare, prepare_action, prepare_step, probe_outcome, LoadError, PrepAction, PrepError,
    PrepEvent, PrepState,
};
use imageprep::schema::{
    BuildScript, Command, ContainerConfig, ContainerEngineKind, FilesystemConfig, Overlay,
    PackageForm,
};
use imageprep::structure::StructuralError;

fn seed_overlay_script() -> BuildScript {
    BuildScript {
        commands: vec![Command {
            script_inline: Some(String::from("echo hi")),
            script_path: None,
            command: None,
        }],
        overlays: vec![Overlay {
            source: Some(String::from("/data/seed.bin")),
            source_inline: None,
            is_directory: false,
        }],
        container: ContainerConfig {
            engine: ContainerEngineKind::Docker,
            connection_uri: String::from("unix:///var/run/docker.sock"),
            volumes: Vec::new(),
        },
        filesystem: FilesystemConfig { size_mib: 1024, block_size_mib: Some(256) },
    }
}

fn volume_script() -> BuildScript {
    BuildScript {
        commands: Vec::new(),
        overlays: Vec::new(),
        container: ContainerConfig {
            engine: ContainerEngineKind::Podman,
            connection_uri: String::from("unix:///run/podman/podman.sock"),
            volumes: vec![(String::from("/vol/src"), String::from("/mnt"))],
        },
        filesystem: FilesystemConfig { size_mib: 64, block_size_mib: None },
    }
}

#[test]
fn directory_dry_run_succeeds() {
    let state = begin_prepare(String::from("/pkg"));
    match prepare_action(&state) {
        PrepAction::ProbePath { path } => assert_eq!(path, "/pkg"),
        other => panic!("unexpected action: {:?}", other),
    }
    let state = prepare_step(state, PrepEvent::PathProbed { is_directory: true });
    match prepare_action(&state) {
        PrepAction::LoadScript { path } => assert_eq!(path, "/pkg/build-script.toml"),
        other => panic!("unexpected action: {:?}", other),
    }
    let state = prepare_step(
        state,
        PrepEvent::ScriptLoaded { outcome: Ok(seed_overlay_script()) },
    );
    match prepare_action(&state) {
        PrepAction::ProbeExistence { paths } => {
            assert_eq!(paths, vec![String::from("/pkg/data/seed.bin")]);
        }
        other => panic!("unexpected action: {:?}", other),
    }
    let state = prepare_step(state, PrepEvent::ExistenceProbed { present: vec![true] });
    match state {
        PrepState::Ready { working_root, caller_must_delete, .. } => {
            assert_eq!(working_root, "/pkg");
            assert!(!caller_must_delete);
        }
        PrepState::Failed { error } => panic!("preparation failed: {:?}", error),
        _ => panic!("pipeline did not finish"),
    }
    assert!(probe_outcome(true).is_ok());
}

#[test]
fn directory_missing_reference_fails() {
    let state = begin_prepare(String::from("/pkg"));
    let state = prepare_step(state, PrepEvent::PathProbed { is_directory: true });
    let state = prepare_step(
        state,
        PrepEvent::ScriptLoaded { outcome: Ok(seed_overlay_script()) },
    );
    let state = prepare_step(state, PrepEvent::ExistenceProbed { present: vec![false] });
    match state {
        PrepState::Failed { error } => assert_eq!(
            error,
            PrepError::Containment {
                error: ContainmentError::Missing { reference: String::from("/data/seed.bin") },
            }
        ),
        _ => panic!("a missing reference must fail the pipeline"),
    }
}

#[test]
fn bare_script_with_volume_fails() {
    let state = begin_prepare(String::from("/standalone.toml"));
    let state = prepare_step(state, PrepEvent::PathProbed { is_directory: false });
    match &state {
        PrepState::Load { form, .. } => assert_eq!(*form, PackageForm::BareScript),
        other => panic!("unexpected state: {:?}", state_name(other)),
    }
    let state = prepare_step(state, PrepEvent::ScriptLoaded { outcome: Ok(volume_script()) });
    match state {
        PrepState::Failed { error } => assert_eq!(
            error,
            PrepError::Containment { error: ContainmentError::OutsideReferences { count: 1 } }
        ),
        _ => panic!("a bare script with references must fail the pipeline"),
    }
}

#[test]
fn non_absolute_reference_stops_pipeline() {
    let mut script = seed_overlay_script();
    script.overlays[0].source = Some(String::from("data/seed.bin"));
    let state = begin_prepare(String::from("/pkg"));
    let state = prepare_step(state, PrepEvent::PathProbed { is_directory: true });
    let state = prepare_step(state, PrepEvent::ScriptLoaded { outcome: Ok(script) });
    match state {
        PrepState::Failed { error } => assert_eq!(
            error,
            PrepError::Containment {
                error: ContainmentError::NotAbsolute {
                    reference: String::from("data/seed.bin"),
                },
            }
        ),
        _ => panic!("a host-relative reference must fail the pipeline"),
    }
}

#[test]
fn traversal_reference_stops_pipeline() {
    let mut script = seed_overlay_script();
    script.overlays[0].source = Some(String::from("/../../etc/passwd"));
    let state = begin_prepare(String::from("/pkg"));
    let state = prepare_step(state, PrepEvent::PathProbed { is_directory: true });
    let state = prepare_step(state, PrepEvent::ScriptLoaded { outcome: Ok(script) });
    match state {
        PrepState::Failed { error } => assert_eq!(
            error,
            PrepError::Containment {
                error: ContainmentError::Traversal {
                    reference: String::from("/../../etc/passwd"),
                },
            }
        ),
        _ => panic!("a traversal reference must fail the pipeline before any probe"),
    }
}

#[test]
fn structural_defects_stop_pipeline() {
    let mut script = seed_overlay_script();
    script.commands.push(Command { script_inline: None, script_path: None, command: None });
    let state = begin_prepare(String::from("/pkg"));
    let state = prepare_step(state, PrepEvent::PathProbed { is_directory: true });
    let state = prepare_step(state, PrepEvent::ScriptLoaded { outcome: Ok(script) });
    let state = prepare_step(state, PrepEvent::ExistenceProbed { present: vec![true] });
    match state {
        PrepState::Failed { error } => assert_eq!(
            error,
            PrepError::Structure { defects: vec![StructuralError::EmptyCommands { count: 1 }] }
        ),
        _ => panic!("a structural defect must fail the pipeline"),
    }
}

#[test]
fn archive_gets_fresh_temp_root() {
    let state = begin_prepare(String::from("/pkg.tar.gz"));
    let state = prepare_step(state, PrepEvent::PathProbed { is_directory: false });
    let (package, working_root, script_path) = match state {
        PrepState::Unpack { package, working_root, script_path } => {
            (package, working_root, script_path)
        }
        _ => panic!("an archive must first be unpacked"),
    };
    assert_eq!(package, "/pkg.tar.gz");
    assert_eq!(working_root.len(), 41);
    assert!(working_root.starts_with("/tmp/"));
    assert!(!working_root[5..].contains('/'));
    assert_eq!(script_path, format!("{}/build-script.toml", working_root));

    let other = begin_prepare(String::from("/pkg.tar.gz"));
    let other = prepare_step(other, PrepEvent::PathProbed { is_directory: false });
    match other {
        PrepState::Unpack { working_root: second_root, .. } => {
            assert_ne!(working_root, second_root);
        }
        _ => panic!("an archive must first be unpacked"),
    }
}

#[test]
fn unpack_failure_reports_read_error() {
    let state = begin_prepare(String::from("/pkg.tar.gz"));
    let state = prepare_step(state, PrepEvent::PathProbed { is_directory: false });
    let state = prepare_step(state, PrepEvent::Unpacked { ok: false });
    match state {
        PrepState::Failed { error } => assert_eq!(error, PrepError::Read),
        _ => panic!("a failed unpack must fail the pipeline"),
    }
}

#[test]
fn unpacked_archive_proceeds_with_cleanup_owed() {
    let state = begin_prepare(String::from("/pkg.tar.gz"));
    let state = prepare_step(state, PrepEvent::PathProbed { is_directory: false });
    let state = prepare_step(state, PrepEvent::Unpacked { ok: true });
    match state {
        PrepState::Load { form, caller_must_delete, .. } => {
            assert_eq!(form, PackageForm::Archive);
            assert!(caller_must_delete);
        }
        _ => panic!("a successful unpack must proceed to loading"),
    }
}

#[test]
fn read_and_decode_errors_reported() {
    let state = begin_prepare(String::from("/pkg"));
    let state = prepare_step(state, PrepEvent::PathProbed { is_directory: true });
    let state = prepare_step(state, PrepEvent::ScriptLoaded { outcome: Err(LoadError::Read) });
    match state {
        PrepState::Failed { error } => assert_eq!(error, PrepError::Read),
        _ => panic!("an unreadable script must fail the pipeline"),
    }

    let state = begin_prepare(String::from("/pkg"));
    let state = prepare_step(state, PrepEvent::PathProbed { is_directory: true });
    let state = prepare_step(state, PrepEvent::ScriptLoaded { outcome: Err(LoadError::Decode) });
    match state {
        PrepState::Failed { error } => assert_eq!(error, PrepError::Decode),
        _ => panic!("an undecodable script must fail the pipeline"),
    }
}

#[test]
fn ping_failure_reported() {
    assert_eq!(probe_outcome(false), Err(PrepError::Connectivity));
}

fn state_name(state: &PrepState) -> &'static str {
    match state {
        PrepState::Classify { .. } => "classify",
        PrepState::Unpack { .. } => "unpack",
        PrepState::Load { .. } => "load",
        PrepState::Probe { .. } => "probe",
        PrepState::Ready { .. } => "ready",
        PrepState::Failed { .. } => "failed",
    }
}
