//! The preparation orchestrator and the dry-run decision.
//!
//! Preparation sequences form resolution, script loading, engine selection,
//! reference collection with containment, and structural validation,
//! short-circuiting on the first fatal error. The sequence is a state
//! machine: each state names the one I/O action the surrounding program
//! must perform next (probe the path, unpack the archive, read and decode
//! the script, probe the rebased references on disk), and `prepare_step`
//! consumes that action's outcome and decides the next state. Both the
//! dry-run path and a real build drive the same machine, so the validation
//! guarantees hold identically for both.

use vstd::prelude::*;

use crate::containment::{
    all_exist, check_containment, confirm_existence, containment_error_matches, containment_ok,
    missing_error_matches, rebased_all, ContainmentError,
};
use crate::engine::{engine_matches, select_engine, ContainerEngineHandle};
use crate::package_form::{
    classified_form, is_temp_working_root, resolve_working_paths, spec_build_script_filename,
};
use crate::paths::adjoin_absolute_spec;
use crate::references::{collect_references, collected_refs};
use crate::schema::{BuildScript, PackageForm};
use crate::structure::{expected_defects, structurally_valid, validate_structure, StructuralError};

verus! {

/// Why preparation failed; every variant is terminal to the current run.
#[derive(Clone, Debug, PartialEq, Eq)]
pub enum PrepError {
    /// The script file could not be read.
    Read,
    /// The script text did not decode against the schema.
    Decode,
    /// A reference escaped the containment rules.
    Containment { error: ContainmentError },
    /// The script body failed structural validation; every defect found is
    /// listed.
    Structure { defects: Vec<StructuralError> },
    /// The selected engine did not answer the connectivity probe.
    Connectivity,
}

/// How loading the script file failed.
#[derive(Clone, Copy, Debug, PartialEq, Eq, Structural)]
pub enum LoadError {
    /// The file was absent or unreadable.
    Read,
    /// The text did not decode against the schema.
    Decode,
}

/// Where the pipeline stands; each non-terminal state waits for the
/// outcome of exactly one I/O action.
#[derive(Debug)]
pub enum PrepState {
    /// Waiting for a probe of the package path.
    Classify { package: String },
    /// Waiting for the archive to be unpacked into the fresh working root.
    Unpack { package: String, working_root: String, script_path: String },
    /// Waiting for the script file to be read and decoded.
    Load {
        form: PackageForm,
        working_root: String,
        script_path: String,
        caller_must_delete: bool,
    },
    /// Waiting for existence probes of the rebased references.
    Probe {
        script: BuildScript,
        engine: ContainerEngineHandle,
        working_root: String,
        caller_must_delete: bool,
        references: Vec<String>,
        rebased: Vec<String>,
    },
    /// Preparation finished: the validated script, the selected engine
    /// handle, the working root, and whether the caller must delete it.
    Ready {
        script: BuildScript,
        engine: ContainerEngineHandle,
        working_root: String,
        caller_must_delete: bool,
    },
    /// Preparation aborted.
    Failed { error: PrepError },
}

/// The outcome of the one I/O action a state waits for.
pub enum PrepEvent {
    /// Whether the package path is a directory on disk.
    PathProbed { is_directory: bool },
    /// Whether the archive was fully extracted into the working root.
    Unpacked { ok: bool },
    /// The script file read and decoded, or how that failed.
    ScriptLoaded { outcome: Result<BuildScript, LoadError> },
    /// For each rebased reference, in order, whether it exists on disk.
    ExistenceProbed { present: Vec<bool> },
}

/// The event answers what the state is waiting for, and an existence probe
/// answers every rebased reference.
pub open spec fn event_fits(state: PrepState, event: PrepEvent) -> bool {
    match (state, event) {
        (PrepState::Classify { .. }, PrepEvent::PathProbed { .. }) => true,
        (PrepState::Unpack { .. }, PrepEvent::Unpacked { .. }) => true,
        (PrepState::Load { .. }, PrepEvent::ScriptLoaded { .. }) => true,
        (
            PrepState::Probe { references, rebased, .. },
            PrepEvent::ExistenceProbed { present },
        ) => present@.len() == references@.len() && rebased@.len() == references@.len(),
        _ => false,
    }
}

/// What one step of the pipeline decides: how the next state follows from
/// the current state and the awaited outcome.
pub open spec fn step_post(pre: PrepState, event: PrepEvent, post: PrepState) -> bool {
    match (pre, event) {
        (PrepState::Classify { package }, PrepEvent::PathProbed { is_directory }) => match classified_form(
            package@,
            is_directory,
        ) {
            PackageForm::BareScript => {
                post matches PrepState::Load {
                    form,
                    working_root,
                    script_path,
                    caller_must_delete,
                } && form == PackageForm::BareScript && working_root@ == package@
                    && script_path@ == package@ && !caller_must_delete
            },
            PackageForm::Directory => {
                post matches PrepState::Load {
                    form,
                    working_root,
                    script_path,
                    caller_must_delete,
                } && form == PackageForm::Directory && working_root@ == package@
                    && script_path@ == adjoin_absolute_spec(
                    package@,
                    spec_build_script_filename(),
                ) && !caller_must_delete
            },
            PackageForm::Archive => {
                post matches PrepState::Unpack { package: p, working_root, script_path }
                    && p@ == package@ && is_temp_working_root(working_root@)
                    && script_path@ == adjoin_absolute_spec(
                    working_root@,
                    spec_build_script_filename(),
                )
            },
        },
        (PrepState::Unpack { package, working_root, script_path }, PrepEvent::Unpacked { ok }) => {
            if ok {
                post matches PrepState::Load {
                    form,
                    working_root: w,
                    script_path: s,
                    caller_must_delete,
                } && form == PackageForm::Archive && w@ == working_root@ && s@ == script_path@
                    && caller_must_delete
            } else {
                post == (PrepState::Failed { error: PrepError::Read })
            }
        },
        (
            PrepState::Load { form, working_root, script_path, caller_must_delete },
            PrepEvent::ScriptLoaded { outcome },
        ) => match outcome {
            Err(LoadError::Read) => post == (PrepState::Failed { error: PrepError::Read }),
            Err(LoadError::Decode) => post == (PrepState::Failed { error: PrepError::Decode }),
            Ok(script) => {
                let refs = collected_refs(script);
                if containment_ok(form, refs) {
                    post matches PrepState::Probe {
                        script: s2,
                        engine,
                        working_root: w2,
                        caller_must_delete: d2,
                        references,
                        rebased,
                    } && s2 == script && engine_matches(script.container, engine)
                        && w2@ == working_root@ && d2 == caller_must_delete
                        && references.deep_view() == refs
                        && rebased.deep_view() == rebased_all(working_root@, refs)
                } else {
                    post matches PrepState::Failed { error } && error matches PrepError::Containment {
                        error: e,
                    } && containment_error_matches(form, refs, e)
                }
            },
        },
        (
            PrepState::Probe {
                script,
                engine,
                working_root,
                caller_must_delete,
                references,
                rebased,
            },
            PrepEvent::ExistenceProbed { present },
        ) => {
            if !all_exist(present@) {
                post matches PrepState::Failed { error } && error matches PrepError::Containment {
                    error: e,
                } && missing_error_matches(references.deep_view(), present@, e)
            } else if !structurally_valid(script) {
                post matches PrepState::Failed { error } && error matches PrepError::Structure {
                    defects,
                } && defects@ == expected_defects(script)
            } else {
                post matches PrepState::Ready {
                    script: s2,
                    engine: e2,
                    working_root: w2,
                    caller_must_delete: d2,
                } && s2 == script && e2 == engine && w2@ == working_root@
                    && d2 == caller_must_delete
            }
        },
        _ => false,
    }
}

/// Enter the pipeline on the package path the caller supplied.
pub fn begin_prepare(package: String) -> (r: PrepState)
    ensures
        r matches PrepState::Classify { package: p } && p@ == package@,
{
    PrepState::Classify { package }
}

/// Advance the pipeline by one step: consume the outcome of the awaited
/// I/O action and decide the next state.
pub fn prepare_step(state: PrepState, event: PrepEvent) -> (post: PrepState)
    requires
        event_fits(state, event),
    ensures
        step_post(state, event, post),
{
    match (state, event) {
        (PrepState::Classify { package }, PrepEvent::PathProbed { is_directory }) => {
            let resolved = resolve_working_paths(&package, is_directory);
            if let PackageForm::Archive = resolved.form {
                PrepState::Unpack {
                    package,
                    working_root: resolved.working_root,
                    script_path: resolved.script_path,
                }
            } else {
                PrepState::Load {
                    form: resolved.form,
                    working_root: resolved.working_root,
                    script_path: resolved.script_path,
                    caller_must_delete: resolved.caller_must_delete,
                }
            }
        },
        (PrepState::Unpack { package, working_root, script_path }, PrepEvent::Unpacked { ok }) => {
            if ok {
                PrepState::Load {
                    form: PackageForm::Archive,
                    working_root,
                    script_path,
                    caller_must_delete: true,
                }
            } else {
                PrepState::Failed { error: PrepError::Read }
            }
        },
        (
            PrepState::Load { form, working_root, script_path: _, caller_must_delete },
            PrepEvent::ScriptLoaded { outcome },
        ) => match outcome {
            Err(LoadError::Read) => PrepState::Failed { error: PrepError::Read },
            Err(LoadError::Decode) => PrepState::Failed { error: PrepError::Decode },
            Ok(script) => {
                let engine = select_engine(&script.container);
                let references = collect_references(&script);
                match check_containment(form, &working_root, &references) {
                    Err(e) => PrepState::Failed { error: PrepError::Containment { error: e } },
                    Ok(rebased) => PrepState::Probe {
                        script,
                        engine,
                        working_root,
                        caller_must_delete,
                        references,
                        rebased,
                    },
                }
            },
        },
        (
            PrepState::Probe {
                script,
                engine,
                working_root,
                caller_must_delete,
                references,
                rebased: _,
            },
            PrepEvent::ExistenceProbed { present },
        ) => match confirm_existence(&references, &present) {
            Err(e) => PrepState::Failed { error: PrepError::Containment { error: e } },
            Ok(()) => {
                let defects = validate_structure(&script);
                if defects.len() > 0 {
                    PrepState::Failed { error: PrepError::Structure { defects } }
                } else {
                    PrepState::Ready { script, engine, working_root, caller_must_delete }
                }
            },
        },
        _ => vstd::pervasive::unreached(),
    }
}

/// The one I/O action a state waits for.
#[derive(Debug)]
pub enum PrepAction {
    /// Probe whether the package path is a directory.
    ProbePath { path: String },
    /// Extract the archive at `source` into `destination`.
    UnpackArchive { source: String, destination: String },
    /// Read the script file as text and decode it against the schema.
    LoadScript { path: String },
    /// Probe each path for existence on disk, in order.
    ProbeExistence { paths: Vec<String> },
    /// The pipeline is done; no action remains.
    Finished,
}

/// Name the I/O action the surrounding program must perform to advance
/// from this state.
pub fn prepare_action(state: &PrepState) -> (r: PrepAction)
    ensures
        match *state {
            PrepState::Classify { package } => {
                r matches PrepAction::ProbePath { path } && path@ == package@
            },
            PrepState::Unpack { package, working_root, .. } => {
                r matches PrepAction::UnpackArchive { source, destination } && source@ == package@
                    && destination@ == working_root@
            },
            PrepState::Load { script_path, .. } => {
                r matches PrepAction::LoadScript { path } && path@ == script_path@
            },
            PrepState::Probe { rebased, .. } => {
                r matches PrepAction::ProbeExistence { paths } && paths.deep_view()
                    == rebased.deep_view()
            },
            PrepState::Ready { .. } => r is Finished,
            PrepState::Failed { .. } => r is Finished,
        },
{
    match state {
        PrepState::Classify { package } => PrepAction::ProbePath { path: package.clone() },
        PrepState::Unpack { package, working_root, .. } => PrepAction::UnpackArchive {
            source: package.clone(),
            destination: working_root.clone(),
        },
        PrepState::Load { script_path, .. } => PrepAction::LoadScript {
            path: script_path.clone(),
        },
        PrepState::Probe { rebased, .. } => PrepAction::ProbeExistence {
            paths: clone_paths(rebased),
        },
        PrepState::Ready { .. } => PrepAction::Finished,
        PrepState::Failed { .. } => PrepAction::Finished,
    }
}

/// The dry run reports success exactly when preparation finished and the
/// selected engine answered its connectivity probe.
pub fn probe_outcome(ping_ok: bool) -> (r: Result<(), PrepError>)
    ensures
        ping_ok <==> r is Ok,
        !ping_ok ==> r == Err::<(), PrepError>(PrepError::Connectivity),
{
    if ping_ok {
        Ok(())
    } else {
        Err(PrepError::Connectivity)
    }
}

/// Clone a list of paths, element for element.
fn clone_paths(v: &Vec<String>) -> (r: Vec<String>)
    ensures
        r.deep_view() == v.deep_view(),
{
    let mut out: Vec<String> = Vec::new();
    let mut i: usize = 0;
    while i < v.len()
        invariant
            i <= v@.len(),
            out.deep_view() == v.deep_view().take(i as int),
        decreases v@.len() - i,
    {
        let ghost pre = out.deep_view();
        let c = v[i].clone();
        out.push(c);
        proof {
            assert(c == v@[i as int]);
            assert(out.deep_view() =~= pre.push(v@[i as int]@));
            assert(v.deep_view().take(i as int + 1) =~= pre.push(v@[i as int]@));
        }
        i = i + 1;
    }
    proof {
        assert(v.deep_view().take(v.deep_view().len() as int) =~= v.deep_view());
    }
    out
}

} // verus!
