//! The package-form resolver.
//!
//! Classifies the input path as a bare build script, an unpacked directory,
//! or a packaged archive, and resolves where the working root and the
//! script file stand. For the archive form the working root is a fresh
//! temporary path built from a collision-resistant random identifier; the
//! caller then owns its deletion.

use vstd::prelude::*;

use crate::paths::{adjoin_absolute_spec, AdjoinAbsolute};
use crate::schema::PackageForm;

verus! {

/// The fixed, well-known filename of the build script inside a directory
/// or archive package.
pub open spec fn spec_build_script_filename() -> Seq<char> {
    "build-script.toml"@
}

/// The fixed filename under which a directory or archive package holds its
/// build script.
pub fn build_script_filename() -> (r: &'static str)
    ensures
        r@ == spec_build_script_filename(),
{
    "build-script.toml"
}

/// A path is script-shaped when it carries the build-script extension.
pub open spec fn script_shaped(path: Seq<char>) -> bool {
    path.len() >= 5 && path.subrange(path.len() - 5, path.len() as int) == ".toml"@
}

/// How a package path classifies: a directory is taken as already
/// unpacked, a script-shaped file is the script itself, and anything else
/// is treated as an archive.
pub open spec fn classified_form(path: Seq<char>, is_directory: bool) -> PackageForm {
    if is_directory {
        PackageForm::Directory
    } else if script_shaped(path) {
        PackageForm::BareScript
    } else {
        PackageForm::Archive
    }
}

/// Whether the path ends in the build-script extension.
fn has_script_extension(path: &str) -> (r: bool)
    ensures
        r == script_shaped(path@),
{
    proof {
        reveal_strlit(".toml");
    }
    let n: usize = path.unicode_len();
    if n < 5 {
        return false;
    }
    let ext: &str = ".toml";
    let mut j: usize = 0;
    while j < 5
        invariant
            j <= 5,
            n == path@.len(),
            n >= 5,
            ext@ == ".toml"@,
            ext@.len() == 5,
            forall|k: int| 0 <= k < j ==> path@[n - 5 + k] == ".toml"@[k],
        decreases 5 - j,
    {
        proof {
            reveal_strlit(".toml");
        }
        if path.get_char(n - 5 + j) != ext.get_char(j) {
            return false;
        }
        j = j + 1;
    }
    proof {
        assert(path@.subrange(n - 5, n as int) =~= ".toml"@);
    }
    true
}

/// Classify the package path. `is_directory` reports what a probe of the
/// path on disk found.
pub fn classify_package(path: &String, is_directory: bool) -> (r: PackageForm)
    ensures
        r == classified_form(path@, is_directory),
{
    if is_directory {
        PackageForm::Directory
    } else if has_script_extension(path.as_str()) {
        PackageForm::BareScript
    } else {
        PackageForm::Archive
    }
}

/// Relies on uuid::Uuid::new_v4 and its Display impl: a fresh random
/// version-4 UUID, printed in the hyphenated lowercase form — 36
/// characters, each a lowercase hexadecimal digit or a hyphen.
#[verifier::external_body]
fn fresh_run_token() -> (r: String)
    ensures
        r@.len() == 36,
        forall|i: int|
            0 <= i < r@.len() ==> ((#[trigger] r@[i]) == '-' || ('0' <= r@[i] && r@[i] <= '9')
                || ('a' <= r@[i] && r@[i] <= 'f')),
{
    uuid::Uuid::new_v4().to_string()
}

/// The shape of a freshly generated temporary working root: it lives
/// directly under the temporary directory, and its final component (the
/// random identifier) holds no further separator.
pub open spec fn is_temp_working_root(p: Seq<char>) -> bool {
    &&& p.len() == 41
    &&& p.take(5) == "/tmp/"@
    &&& forall|i: int| 5 <= i < p.len() ==> (#[trigger] p[i]) != '/'
}

/// Build a fresh temporary working root for unpacking an archive. Distinct
/// invocations collide only if the underlying random identifiers collide.
pub fn fresh_temp_root() -> (r: String)
    ensures
        is_temp_working_root(r@),
{
    let token = fresh_run_token();
    let mut out = String::from_str("/tmp/");
    out.append(token.as_str());
    proof {
        reveal_strlit("/tmp/");
        assert(out@.take(5) =~= "/tmp/"@);
        assert forall|i: int| 5 <= i < out@.len() implies (#[trigger] out@[i]) != '/' by {
            assert(out@[i] == token@[i - 5]);
        }
    }
    out
}

/// Where the working root and the script file stand for each form.
pub struct ResolvedPaths {
    pub form: PackageForm,
    pub working_root: String,
    pub script_path: String,
    /// Whether the caller must later delete the working root: set exactly
    /// when the resolver itself created it as a temporary artifact.
    pub caller_must_delete: bool,
}

/// The resolved paths fit the classified form: a bare script is its own
/// root, a directory holds the script at the fixed filename, and an
/// archive gets a fresh temporary root that the caller must delete.
pub open spec fn resolved_paths_fit(path: Seq<char>, is_directory: bool, r: ResolvedPaths) -> bool {
    &&& r.form == classified_form(path, is_directory)
    &&& match r.form {
        PackageForm::BareScript => {
            &&& r.working_root@ == path
            &&& r.script_path@ == path
            &&& !r.caller_must_delete
        },
        PackageForm::Directory => {
            &&& r.working_root@ == path
            &&& r.script_path@ == adjoin_absolute_spec(path, spec_build_script_filename())
            &&& !r.caller_must_delete
        },
        PackageForm::Archive => {
            &&& is_temp_working_root(r.working_root@)
            &&& r.script_path@ == adjoin_absolute_spec(
                r.working_root@,
                spec_build_script_filename(),
            )
            &&& r.caller_must_delete
        },
    }
}

/// Classify the package path and resolve the working root and script
/// location for its form.
pub fn resolve_working_paths(package: &String, is_directory: bool) -> (r: ResolvedPaths)
    ensures
        resolved_paths_fit(package@, is_directory, r),
{
    let form = classify_package(package, is_directory);
    match form {
        PackageForm::BareScript => ResolvedPaths {
            form,
            working_root: package.clone(),
            script_path: package.clone(),
            caller_must_delete: false,
        },
        PackageForm::Directory => {
            let script_path = package.adjoin_absolute(build_script_filename());
            ResolvedPaths {
                form,
                working_root: package.clone(),
                script_path,
                caller_must_delete: false,
            }
        },
        PackageForm::Archive => {
            let working_root = fresh_temp_root();
            let script_path = working_root.adjoin_absolute(build_script_filename());
            ResolvedPaths { form, working_root, script_path, caller_must_delete: true }
        },
    }
}

} // verus!
