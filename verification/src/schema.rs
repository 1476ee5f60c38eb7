//! The build-script data model: the package form and the deserialized
//! script structure, together with the spec-level predicates that the
//! validators' contracts are stated over.

use vstd::prelude::*;

verus! {

/// The delivery shape of the input package.
#[derive(Clone, Copy, Debug, PartialEq, Eq, Structural)]
pub enum PackageForm {
    /// A single script-shaped file; the script itself is the package.
    BareScript,
    /// An already unpacked directory holding the script at a fixed filename.
    Directory,
    /// A packaged archive that must first be unpacked into a temporary root.
    Archive,
}

/// Which container backend the script asks for.
#[derive(Clone, Copy, Debug, PartialEq, Eq, Structural)]
pub enum ContainerEngineKind {
    Docker,
    Podman,
}

/// One build step. At most one of the three execution forms should be the
/// active one; a command with none of the three set is structurally invalid.
#[derive(Clone, Debug)]
pub struct Command {
    pub script_inline: Option<String>,
    pub script_path: Option<String>,
    pub command: Option<String>,
}

/// One filesystem overlay to apply onto the built image: either a source
/// path reference or inline content, and a flag marking a directory tree.
#[derive(Clone, Debug)]
pub struct Overlay {
    pub source: Option<String>,
    pub source_inline: Option<String>,
    pub is_directory: bool,
}

/// The engine configuration: the backend kind, its connection endpoint, and
/// the ordered (source path, destination) volume mounts.
#[derive(Clone, Debug)]
pub struct ContainerConfig {
    pub engine: ContainerEngineKind,
    pub connection_uri: String,
    pub volumes: Vec<(String, String)>,
}

/// The target filesystem geometry, in MiB.
#[derive(Clone, Debug)]
pub struct FilesystemConfig {
    pub size_mib: u64,
    pub block_size_mib: Option<u64>,
}

/// The deserialized build script.
#[derive(Clone, Debug)]
pub struct BuildScript {
    pub commands: Vec<Command>,
    pub overlays: Vec<Overlay>,
    pub container: ContainerConfig,
    pub filesystem: FilesystemConfig,
}

/// A command is empty when none of its three execution forms is set.
pub open spec fn command_is_empty(c: Command) -> bool {
    c.script_inline is None && c.script_path is None && c.command is None
}

/// An overlay is empty when it has neither a source reference nor inline
/// content.
pub open spec fn overlay_is_empty(o: Overlay) -> bool {
    o.source is None && o.source_inline is None
}

/// An overlay conflicts when it is marked as a directory tree yet carries
/// inline content: a directory cannot be expressed inline.
pub open spec fn overlay_conflicts(o: Overlay) -> bool {
    o.is_directory && o.source_inline is Some
}

/// The filesystem size divides evenly into blocks: whenever a block size is
/// configured it is non-zero and the target size is an exact multiple of it.
pub open spec fn filesystem_divisible(f: FilesystemConfig) -> bool {
    match f.block_size_mib {
        None => true,
        Some(b) => b > 0 && f.size_mib % b == 0,
    }
}

} // verus!
