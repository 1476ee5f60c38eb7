//! The path-containment validator.
//!
//! A bare-script package has no root to reference into, so its reference
//! list must be empty. Under the directory and archive forms every
//! reference must use the root-relative absolute convention (it begins
//! with the path separator) and must hold no parent-directory segment —
//! rebasing neutralizes leading separators but keeps the rest of the text,
//! so a `..` segment could still climb above the root on disk and is
//! rejected outright. Each admissible reference is rebased underneath the
//! working root; whether the rebased path exists on disk is probed by the
//! surrounding program and confirmed here.

use vstd::prelude::*;

use crate::paths::{
    adjoin_absolute_spec, has_parent_segment, is_parent_segment_at,
    lemma_admissible_rebase_no_traversal, lemma_rebase_under_root, AdjoinAbsolute,
};
use crate::schema::PackageForm;

verus! {

/// Why containment failed.
#[derive(Clone, Debug, PartialEq, Eq)]
pub enum ContainmentError {
    /// A bare script referenced this many outside resources.
    OutsideReferences { count: usize },
    /// The reference is not absolute relative to the package root.
    NotAbsolute { reference: String },
    /// The reference holds a parent-directory segment and could escape the
    /// working root.
    Traversal { reference: String },
    /// The reference's rebased target does not exist on disk.
    Missing { reference: String },
}

/// A reference written in the root-relative absolute convention: it begins
/// with the path separator.
pub open spec fn is_root_relative(r: Seq<char>) -> bool {
    r.len() > 0 && r[0] == '/'
}

/// A reference the directory and archive forms admit: root-relative and
/// free of parent-directory segments, so its rebased path cannot escape
/// the working root.
pub open spec fn reference_admissible(r: Seq<char>) -> bool {
    is_root_relative(r) && !has_parent_segment(r)
}

/// Every reference in the list is admissible.
pub open spec fn all_admissible(rs: Seq<Seq<char>>) -> bool {
    forall|i: int| 0 <= i < rs.len() ==> reference_admissible(#[trigger] rs[i])
}

/// Each reference rebased under the working root, in order.
pub open spec fn rebased_all(root: Seq<char>, rs: Seq<Seq<char>>) -> Seq<Seq<char>> {
    rs.map(|i: int, r: Seq<char>| adjoin_absolute_spec(root, r))
}

/// When the reference list passes the form-dependent containment check:
/// a bare script admits no reference at all; the other forms admit any
/// list whose references are all admissible.
pub open spec fn containment_ok(form: PackageForm, rs: Seq<Seq<char>>) -> bool {
    match form {
        PackageForm::BareScript => rs.len() == 0,
        PackageForm::Directory => all_admissible(rs),
        PackageForm::Archive => all_admissible(rs),
    }
}

/// The error reported when the form-dependent containment check fails: the
/// bare form names the reference count, the other forms name the first
/// inadmissible reference — as not absolute when it lacks the leading
/// separator, as traversal when it holds a parent-directory segment.
pub open spec fn containment_error_matches(
    form: PackageForm,
    rs: Seq<Seq<char>>,
    e: ContainmentError,
) -> bool {
    match form {
        PackageForm::BareScript => {
            e matches ContainmentError::OutsideReferences { count } && count == rs.len()
        },
        _ => {
            ||| (e matches ContainmentError::NotAbsolute { reference }
                && exists|i: int|
                    0 <= i < rs.len() && reference@ == rs[i] && !is_root_relative(rs[i])
                        && (forall|j: int| 0 <= j < i ==> reference_admissible(#[trigger] rs[j])))
            ||| (e matches ContainmentError::Traversal { reference }
                && exists|i: int|
                    0 <= i < rs.len() && reference@ == rs[i] && is_root_relative(rs[i])
                        && has_parent_segment(rs[i])
                        && (forall|j: int| 0 <= j < i ==> reference_admissible(#[trigger] rs[j])))
        },
    }
}

/// Whether the reference contains a parent-directory segment.
fn scan_parent_segment(r: &str) -> (b: bool)
    ensures
        b == has_parent_segment(r@),
{
    let n: usize = r.unicode_len();
    if n < 2 {
        proof {
            assert(forall|k: int| !is_parent_segment_at(r@, k));
        }
        return false;
    }
    let mut i: usize = 0;
    while i <= n - 2
        invariant
            n == r@.len(),
            n >= 2,
            i <= n - 1,
            forall|k: int| 0 <= k < i ==> !is_parent_segment_at(r@, k),
        decreases n - i,
    {
        let hit = r.get_char(i) == '.' && r.get_char(i + 1) == '.' && (i == 0 || r.get_char(
            i - 1,
        ) == '/') && (i + 2 == n || r.get_char(i + 2) == '/');
        if hit {
            proof {
                assert(is_parent_segment_at(r@, i as int));
            }
            return true;
        }
        proof {
            assert(!is_parent_segment_at(r@, i as int));
        }
        i = i + 1;
    }
    proof {
        assert forall|k: int| !is_parent_segment_at(r@, k) by {
            if !(0 <= k < i as int) {
                assert(k < 0 || k + 2 > n);
            }
        }
    }
    false
}

/// Check every collected reference against the package form and rebase it
/// under the working root. On success the returned list holds, in order,
/// each reference's rebased path, whose existence on disk remains to be
/// probed; on failure the error names the defect.
pub fn check_containment(
    form: PackageForm,
    working_root: &String,
    references: &Vec<String>,
) -> (r: Result<Vec<String>, ContainmentError>)
    ensures
        containment_ok(form, references.deep_view()) ==> {
            &&& r matches Ok(rebased)
            &&& rebased.deep_view() == rebased_all(working_root@, references.deep_view())
        },
        !containment_ok(form, references.deep_view()) ==> {
            &&& r matches Err(e)
            &&& containment_error_matches(form, references.deep_view(), e)
        },
{
    match form {
        PackageForm::BareScript => {
            if references.len() > 0 {
                Err(ContainmentError::OutsideReferences { count: references.len() })
            } else {
                let empty: Vec<String> = Vec::new();
                proof {
                    assert(empty.deep_view()
                        =~= rebased_all(working_root@, references.deep_view()));
                }
                Ok(empty)
            }
        },
        PackageForm::Directory | PackageForm::Archive => {
            let mut rebased: Vec<String> = Vec::new();
            let mut i: usize = 0;
            while i < references.len()
                invariant
                    form is Directory || form is Archive,
                    i <= references@.len(),
                    forall|j: int|
                        0 <= j < i ==> reference_admissible(#[trigger] references.deep_view()[j]),
                    rebased.deep_view()
                        == rebased_all(working_root@, references.deep_view().take(i as int)),
                decreases references@.len() - i,
            {
                let ghost pre = rebased.deep_view();
                let reference: &String = &references[i];
                proof {
                    assert(reference@ == references.deep_view()[i as int]);
                }
                let n: usize = reference.as_str().unicode_len();
                if n == 0 || reference.as_str().get_char(0) != '/' {
                    let cloned = reference.clone();
                    proof {
                        let rs = references.deep_view();
                        let k: int = i as int;
                        assert(0 <= k < rs.len() && cloned@ == rs[k]
                            && !is_root_relative(rs[k])
                            && (forall|j: int|
                                0 <= j < k ==> reference_admissible(#[trigger] rs[j])));
                    }
                    return Err(ContainmentError::NotAbsolute { reference: cloned });
                }
                if scan_parent_segment(reference.as_str()) {
                    let cloned = reference.clone();
                    proof {
                        let rs = references.deep_view();
                        let k: int = i as int;
                        assert(0 <= k < rs.len() && cloned@ == rs[k] && is_root_relative(rs[k])
                            && has_parent_segment(rs[k])
                            && (forall|j: int|
                                0 <= j < k ==> reference_admissible(#[trigger] rs[j])));
                    }
                    return Err(ContainmentError::Traversal { reference: cloned });
                }
                let joined = working_root.adjoin_absolute(reference.as_str());
                rebased.push(joined);
                proof {
                    assert(rebased.deep_view() =~= pre
                        + seq![adjoin_absolute_spec(working_root@, references.deep_view()[i as int])]);
                    assert(rebased.deep_view()
                        =~= rebased_all(working_root@, references.deep_view().take(i as int + 1)));
                }
                i = i + 1;
            }
            proof {
                assert(references.deep_view().take(references.deep_view().len() as int)
                    =~= references.deep_view());
            }
            Ok(rebased)
        },
    }
}

/// All probe results came back positive.
pub open spec fn all_exist(present: Seq<bool>) -> bool {
    forall|i: int| 0 <= i < present.len() ==> present[i]
}

/// The error reported when some rebased target was absent: it names the
/// first reference whose probe came back negative.
pub open spec fn missing_error_matches(
    rs: Seq<Seq<char>>,
    present: Seq<bool>,
    e: ContainmentError,
) -> bool {
    e matches ContainmentError::Missing { reference }
        && exists|i: int|
            0 <= i < present.len() && !present[i] && reference@ == rs[i]
                && (forall|j: int| 0 <= j < i ==> present[j])
}

/// Confirm the existence probes: `present[i]` reports whether reference
/// `i`'s rebased path exists on disk. Succeeds exactly when every probe
/// came back positive; otherwise the error names the first missing
/// reference.
pub fn confirm_existence(references: &Vec<String>, present: &Vec<bool>) -> (r: Result<
    (),
    ContainmentError,
>)
    requires
        present@.len() == references@.len(),
    ensures
        all_exist(present@) ==> r is Ok,
        !all_exist(present@) ==> {
            &&& r matches Err(e)
            &&& missing_error_matches(references.deep_view(), present@, e)
        },
{
    let mut i: usize = 0;
    while i < present.len()
        invariant
            i <= present@.len(),
            present@.len() == references@.len(),
            forall|j: int| 0 <= j < i ==> present@[j],
        decreases present@.len() - i,
    {
        if !present[i] {
            let reference = references[i].clone();
            proof {
                assert(reference@ == references.deep_view()[i as int]);
            }
            return Err(ContainmentError::Missing { reference });
        }
        i = i + 1;
    }
    Ok(())
}

/// A bare-script package with any references at all never passes
/// containment.
pub proof fn lemma_bare_script_refs_refused(rs: Seq<Seq<char>>)
    requires
        rs.len() > 0,
    ensures
        !containment_ok(PackageForm::BareScript, rs),
{
}

/// Under the directory and archive forms, a reference that does not use the
/// root-relative convention fails containment.
pub proof fn lemma_non_root_relative_refused(form: PackageForm, rs: Seq<Seq<char>>, i: int)
    requires
        form != PackageForm::BareScript,
        0 <= i < rs.len(),
        !is_root_relative(rs[i]),
    ensures
        !containment_ok(form, rs),
{
    assert(!reference_admissible(rs[i]));
}

/// Under the directory and archive forms, a reference holding a
/// parent-directory segment fails containment.
pub proof fn lemma_traversal_refused(form: PackageForm, rs: Seq<Seq<char>>, i: int)
    requires
        form != PackageForm::BareScript,
        0 <= i < rs.len(),
        has_parent_segment(rs[i]),
    ensures
        !containment_ok(form, rs),
{
    assert(!reference_admissible(rs[i]));
}

/// Every rebased reference has the working root as a textual prefix,
/// whatever the reference held.
pub proof fn lemma_rebased_all_under_root(root: Seq<char>, rs: Seq<Seq<char>>)
    requires
        root.len() > 0,
    ensures
        forall|i: int| 0 <= i < rs.len() ==> (#[trigger] rebased_all(root, rs)[i]).len()
            >= root.len(),
        forall|i: int| 0 <= i < rs.len()
            ==> (#[trigger] rebased_all(root, rs)[i]).take(root.len() as int) == root,
{
    assert forall|i: int| 0 <= i < rs.len() implies (#[trigger] rebased_all(root, rs)[i]).len()
        >= root.len() && rebased_all(root, rs)[i].take(root.len() as int) == root by {
        lemma_rebase_under_root(root, rs[i]);
    }
}

/// The containment guarantee for a list the validator accepts: every
/// rebased path begins with the working root and holds no parent-directory
/// segment after it, so none can name anything above the root.
pub proof fn lemma_admissible_rebased_contained(root: Seq<char>, rs: Seq<Seq<char>>)
    requires
        root.len() > 0,
        all_admissible(rs),
    ensures
        forall|i: int| 0 <= i < rs.len()
            ==> (#[trigger] rebased_all(root, rs)[i]).take(root.len() as int) == root,
        forall|i: int| 0 <= i < rs.len() ==> !has_parent_segment(
            (#[trigger] rebased_all(root, rs)[i]).skip(root.len() as int),
        ),
{
    assert forall|i: int| 0 <= i < rs.len() implies (#[trigger] rebased_all(root, rs)[i]).take(
        root.len() as int,
    ) == root && !has_parent_segment(rebased_all(root, rs)[i].skip(root.len() as int)) by {
        assert(reference_admissible(rs[i]));
        lemma_admissible_rebase_no_traversal(root, rs[i]);
    }
}

} // verus!
