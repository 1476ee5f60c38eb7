//! Preparation and validation pipeline for declarative filesystem-image
//! build scripts.
//!
//! A package may be delivered as a bare build script, an unpacked directory,
//! or an archive. Before any build step runs, the pipeline classifies the
//! package form, loads the script, collects every filesystem reference the
//! script contains, proves each reference is contained under the package's
//! working root, checks the script's structural consistency, and selects the
//! configured container engine. The `prepare` module sequences these phases
//! as a state machine whose I/O (probing paths, unpacking, reading the
//! script, pinging the engine) is performed by the surrounding program.




pub mod containment;
pub mod engine;
pub mod package_form;
pub mod paths;
pub mod prepare;
pub mod references;
pub mod schema;
pub mod structure;

