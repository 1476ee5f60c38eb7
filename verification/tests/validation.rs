use imageprep::containment::{check_containment, confirm_existence, ContainmentError};
use imageprep::engine::{select_engine, ContainerEngineHandle};
use imageprep::references::collect_references;
use imageprep::schema::{
    BuildScript, Command, ContainerConfig, ContainerEngineKind, FilesystemConfig, Overlay,
    PackageForm,
};
use imageprep::structure::{validate_structure, StructuralError};

fn command(inline: Option<&str>, path: Option<&str>, shell: Option<&str>) -> Command {
    Command {
        script_inline: inline.map(String::from),
        script_path: path.map(String::from),
        command: shell.map(String::from),
    }
}

fn overlay(source: Option<&str>, inline: Option<&str>, is_directory: bool) -> Overlay {
    Overlay {
        source: source.map(String::from),
        source_inline: inline.map(String::from),
        is_directory,
    }
}

fn script(
    commands: Vec<Command>,
    overlays: Vec<Overlay>,
    volumes: Vec<(String, String)>,
    size_mib: u64,
    block_size_mib: Option<u64>,
) -> BuildScript {
    BuildScript {
        commands,
        overlays,
        container: ContainerConfig {
            engine: ContainerEngineKind::Docker,
            connection_uri: String::from("unix:///var/run/docker.sock"),
            volumes,
        },
        filesystem: FilesystemConfig { size_mib, block_size_mib },
    }
}

#[test]
fn bare_script_with_references_fails() {
    let root = String::from("/anywhere");
    let refs = vec![String::from("/a"), String::from("/b")];
    let r = check_containment(PackageForm::BareScript, &root, &refs);
    assert_eq!(r, Err(ContainmentError::OutsideReferences { count: 2 }));
}

#[test]
fn bare_script_without_references_passes() {
    let root = String::from("/anywhere");
    let refs: Vec<String> = Vec::new();
    let r = check_containment(PackageForm::BareScript, &root, &refs);
    assert_eq!(r, Ok(Vec::new()));
}

#[test]
fn directory_non_absolute_reference_fails() {
    let root = String::from("/work");
    let refs = vec![String::from("/ok"), String::from("data/x")];
    let r = check_containment(PackageForm::Directory, &root, &refs);
    assert_eq!(r, Err(ContainmentError::NotAbsolute { reference: String::from("data/x") }));
}

#[test]
fn directory_root_relative_references_rebase() {
    let root = String::from("/work");
    let refs = vec![String::from("/data/seed.bin"), String::from("/etc/conf")];
    let r = check_containment(PackageForm::Archive, &root, &refs);
    assert_eq!(
        r,
        Ok(vec![String::from("/work/data/seed.bin"), String::from("/work/etc/conf")])
    );
}

#[test]
fn parent_segment_reference_fails() {
    let root = String::from("/work");
    let refs = vec![String::from("/ok"), String::from("/data/../../etc/passwd")];
    let r = check_containment(PackageForm::Directory, &root, &refs);
    assert_eq!(
        r,
        Err(ContainmentError::Traversal { reference: String::from("/data/../../etc/passwd") })
    );
}

#[test]
fn parent_segment_variants_fail() {
    let root = String::from("/work");
    for reference in ["/..", "/../x", "/a/..", "/a/../b"] {
        let refs = vec![String::from(reference)];
        let r = check_containment(PackageForm::Archive, &root, &refs);
        assert_eq!(
            r,
            Err(ContainmentError::Traversal { reference: String::from(reference) }),
            "{} must be rejected as traversal",
            reference
        );
    }
}

#[test]
fn dotted_names_are_not_traversal() {
    let root = String::from("/work");
    let refs = vec![
        String::from("/a..b"),
        String::from("/..hidden"),
        String::from("/a/..b/c"),
        String::from("/a/.../b"),
        String::from("/a."),
    ];
    let r = check_containment(PackageForm::Directory, &root, &refs);
    assert_eq!(
        r,
        Ok(vec![
            String::from("/work/a..b"),
            String::from("/work/..hidden"),
            String::from("/work/a/..b/c"),
            String::from("/work/a/.../b"),
            String::from("/work/a."),
        ])
    );
}

#[test]
fn encoded_separators_are_plain_data() {
    // Nothing in the pipeline percent-decodes a reference, so an encoded
    // traversal sequence is ordinary filename text and rebases literally.
    let root = String::from("/work");
    let refs = vec![String::from("/a/%2e%2e/b")];
    let r = check_containment(PackageForm::Directory, &root, &refs);
    assert_eq!(r, Ok(vec![String::from("/work/a/%2e%2e/b")]));
}

#[test]
fn first_inadmissible_reference_names_the_error() {
    let root = String::from("/work");
    let refs = vec![String::from("data/x"), String::from("/..")];
    let r = check_containment(PackageForm::Directory, &root, &refs);
    assert_eq!(r, Err(ContainmentError::NotAbsolute { reference: String::from("data/x") }));

    let refs = vec![String::from("/.."), String::from("data/x")];
    let r = check_containment(PackageForm::Directory, &root, &refs);
    assert_eq!(r, Err(ContainmentError::Traversal { reference: String::from("/..") }));
}

#[test]
fn confirm_existence_all_present_passes() {
    let refs = vec![String::from("/a"), String::from("/b")];
    let present = vec![true, true];
    assert_eq!(confirm_existence(&refs, &present), Ok(()));
}

#[test]
fn confirm_existence_names_first_missing() {
    let refs = vec![String::from("/a"), String::from("/b"), String::from("/c")];
    let present = vec![true, false, false];
    assert_eq!(
        confirm_existence(&refs, &present),
        Err(ContainmentError::Missing { reference: String::from("/b") })
    );
}

#[test]
fn filesystem_exact_multiple_passes() {
    let s = script(Vec::new(), Vec::new(), Vec::new(), 1024, Some(256));
    assert_eq!(validate_structure(&s), Vec::new());
}

#[test]
fn filesystem_indivisible_fails() {
    let s = script(Vec::new(), Vec::new(), Vec::new(), 1000, Some(256));
    assert_eq!(
        validate_structure(&s),
        vec![StructuralError::IndivisibleFilesystem { size_mib: 1000, block_size_mib: 256 }]
    );
}

#[test]
fn filesystem_zero_block_size_fails() {
    let s = script(Vec::new(), Vec::new(), Vec::new(), 1024, Some(0));
    assert_eq!(
        validate_structure(&s),
        vec![StructuralError::IndivisibleFilesystem { size_mib: 1024, block_size_mib: 0 }]
    );
}

#[test]
fn filesystem_without_block_size_passes() {
    let s = script(Vec::new(), Vec::new(), Vec::new(), 999, None);
    assert_eq!(validate_structure(&s), Vec::new());
}

#[test]
fn empty_command_flagged() {
    let s = script(vec![command(None, None, None)], Vec::new(), Vec::new(), 64, None);
    assert_eq!(validate_structure(&s), vec![StructuralError::EmptyCommands { count: 1 }]);
}

#[test]
fn single_form_commands_valid() {
    let s = script(
        vec![
            command(Some("echo hi"), None, None),
            command(None, Some("/scripts/a.sh"), None),
            command(None, None, Some("ls -l")),
        ],
        Vec::new(),
        Vec::new(),
        64,
        None,
    );
    assert_eq!(validate_structure(&s), Vec::new());
}

#[test]
fn empty_overlay_flagged() {
    let s = script(Vec::new(), vec![overlay(None, None, false)], Vec::new(), 64, None);
    assert_eq!(validate_structure(&s), vec![StructuralError::EmptyOverlays { count: 1 }]);
}

#[test]
fn directory_overlay_with_inline_content_conflicts() {
    let s = script(Vec::new(), vec![overlay(None, Some("data"), true)], Vec::new(), 64, None);
    assert_eq!(
        validate_structure(&s),
        vec![StructuralError::ConflictingOverlays { count: 1 }]
    );
}

#[test]
fn directory_overlay_with_source_passes() {
    let s = script(Vec::new(), vec![overlay(Some("/tree"), None, true)], Vec::new(), 64, None);
    assert_eq!(validate_structure(&s), Vec::new());
}

#[test]
fn all_defects_reported_together() {
    let s = script(
        vec![command(None, None, None)],
        vec![overlay(None, None, false), overlay(Some("/t"), Some("x"), true)],
        Vec::new(),
        1000,
        Some(256),
    );
    assert_eq!(
        validate_structure(&s),
        vec![
            StructuralError::EmptyCommands { count: 1 },
            StructuralError::EmptyOverlays { count: 1 },
            StructuralError::ConflictingOverlays { count: 1 },
            StructuralError::IndivisibleFilesystem { size_mib: 1000, block_size_mib: 256 },
        ]
    );
}

#[test]
fn collect_references_in_fixed_order() {
    let s = script(
        vec![
            command(Some("inline"), None, None),
            command(None, Some("/scripts/a.sh"), None),
            command(None, Some("/scripts/b.sh"), Some("true")),
        ],
        vec![overlay(Some("/data/seed.bin"), None, false), overlay(None, Some("x"), false)],
        vec![
            (String::from("/vol/src"), String::from("/mnt")),
            (String::from("/vol/other"), String::from("/opt")),
        ],
        64,
        None,
    );
    assert_eq!(
        collect_references(&s),
        vec![
            String::from("/scripts/a.sh"),
            String::from("/scripts/b.sh"),
            String::from("/data/seed.bin"),
            String::from("/vol/src"),
            String::from("/vol/other"),
        ]
    );
}

#[test]
fn select_docker_engine() {
    let config = ContainerConfig {
        engine: ContainerEngineKind::Docker,
        connection_uri: String::from("unix:///var/run/docker.sock"),
        volumes: Vec::new(),
    };
    match select_engine(&config) {
        ContainerEngineHandle::Docker { connection_uri } => {
            assert_eq!(connection_uri, "unix:///var/run/docker.sock");
        }
        other => panic!("selected the wrong engine: {:?}", other),
    }
}

#[test]
fn select_podman_engine() {
    let config = ContainerConfig {
        engine: ContainerEngineKind::Podman,
        connection_uri: String::from("unix:///run/podman/podman.sock"),
        volumes: Vec::new(),
    };
    match select_engine(&config) {
        ContainerEngineHandle::Podman { connection_uri } => {
            assert_eq!(connection_uri, "unix:///run/podman/podman.sock");
        }
        other => panic!("selected the wrong engine: {:?}", other),
    }
}
