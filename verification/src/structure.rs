//! The structural validator.
//!
//! Four independent checks over the loaded script: no command may be empty
//! of all three execution forms, no overlay may be empty of both source
//! forms, no directory-marked overlay may carry inline content, and a
//! configured block size must divide the target filesystem size exactly.
//! All four run in one pass, so a single report names every defect found.

use vstd::prelude::*;

use crate::schema::{
    command_is_empty, filesystem_divisible, overlay_conflicts, overlay_is_empty, BuildScript,
    Command, FilesystemConfig, Overlay,
};

verus! {

/// One structural defect, with the offending count or geometry.
#[derive(Clone, Debug, PartialEq, Eq)]
pub enum StructuralError {
    /// This many commands set none of the three execution forms.
    EmptyCommands { count: usize },
    /// This many overlays set neither a source reference nor inline content.
    EmptyOverlays { count: usize },
    /// This many overlays are marked as directories yet carry inline content.
    ConflictingOverlays { count: usize },
    /// The target size is not an exact multiple of the configured block size.
    IndivisibleFilesystem { size_mib: u64, block_size_mib: u64 },
}

/// How many commands in the sequence are empty.
pub open spec fn empty_command_count(cs: Seq<Command>) -> nat
    decreases cs.len(),
{
    if cs.len() == 0 {
        0
    } else {
        empty_command_count(cs.drop_last()) + if command_is_empty(cs.last()) {
            1nat
        } else {
            0nat
        }
    }
}

/// How many overlays in the sequence are empty.
pub open spec fn empty_overlay_count(os: Seq<Overlay>) -> nat
    decreases os.len(),
{
    if os.len() == 0 {
        0
    } else {
        empty_overlay_count(os.drop_last()) + if overlay_is_empty(os.last()) {
            1nat
        } else {
            0nat
        }
    }
}

/// How many overlays in the sequence conflict.
pub open spec fn conflicting_overlay_count(os: Seq<Overlay>) -> nat
    decreases os.len(),
{
    if os.len() == 0 {
        0
    } else {
        conflicting_overlay_count(os.drop_last()) + if overlay_conflicts(os.last()) {
            1nat
        } else {
            0nat
        }
    }
}

/// A script passes every structural check.
pub open spec fn structurally_valid(s: BuildScript) -> bool {
    &&& empty_command_count(s.commands@) == 0
    &&& empty_overlay_count(s.overlays@) == 0
    &&& conflicting_overlay_count(s.overlays@) == 0
    &&& filesystem_divisible(s.filesystem)
}

/// The exact defect list a structural pass reports, in check order.
pub open spec fn expected_defects(s: BuildScript) -> Seq<StructuralError> {
    (if empty_command_count(s.commands@) > 0 {
        seq![StructuralError::EmptyCommands { count: empty_command_count(s.commands@) as usize }]
    } else {
        Seq::<StructuralError>::empty()
    }) + (if empty_overlay_count(s.overlays@) > 0 {
        seq![StructuralError::EmptyOverlays { count: empty_overlay_count(s.overlays@) as usize }]
    } else {
        Seq::<StructuralError>::empty()
    }) + (if conflicting_overlay_count(s.overlays@) > 0 {
        seq![StructuralError::ConflictingOverlays {
            count: conflicting_overlay_count(s.overlays@) as usize,
        }]
    } else {
        Seq::<StructuralError>::empty()
    }) + (if !filesystem_divisible(s.filesystem) {
        seq![StructuralError::IndivisibleFilesystem {
            size_mib: s.filesystem.size_mib,
            block_size_mib: s.filesystem.block_size_mib->0,
        }]
    } else {
        Seq::<StructuralError>::empty()
    })
}

/// Count the commands that set none of the three execution forms.
pub fn count_empty_commands(commands: &Vec<Command>) -> (n: usize)
    ensures
        n == empty_command_count(commands@),
{
    let mut n: usize = 0;
    let mut i: usize = 0;
    while i < commands.len()
        invariant
            i <= commands@.len(),
            n == empty_command_count(commands@.take(i as int)),
            n <= i,
        decreases commands@.len() - i,
    {
        let c = &commands[i];
        if c.script_inline.is_none() && c.script_path.is_none() && c.command.is_none() {
            n = n + 1;
        }
        proof {
            let taken = commands@.take(i as int + 1);
            assert(taken.drop_last() =~= commands@.take(i as int));
            assert(taken.last() == commands@[i as int]);
        }
        i = i + 1;
    }
    proof {
        assert(commands@.take(commands@.len() as int) =~= commands@);
    }
    n
}

/// Count the overlays that set neither source form.
pub fn count_empty_overlays(overlays: &Vec<Overlay>) -> (n: usize)
    ensures
        n == empty_overlay_count(overlays@),
{
    let mut n: usize = 0;
    let mut i: usize = 0;
    while i < overlays.len()
        invariant
            i <= overlays@.len(),
            n == empty_overlay_count(overlays@.take(i as int)),
            n <= i,
        decreases overlays@.len() - i,
    {
        let o = &overlays[i];
        if o.source.is_none() && o.source_inline.is_none() {
            n = n + 1;
        }
        proof {
            let taken = overlays@.take(i as int + 1);
            assert(taken.drop_last() =~= overlays@.take(i as int));
            assert(taken.last() == overlays@[i as int]);
        }
        i = i + 1;
    }
    proof {
        assert(overlays@.take(overlays@.len() as int) =~= overlays@);
    }
    n
}

/// Count the overlays that are marked as directories yet carry inline
/// content.
pub fn count_conflicting_overlays(overlays: &Vec<Overlay>) -> (n: usize)
    ensures
        n == conflicting_overlay_count(overlays@),
{
    let mut n: usize = 0;
    let mut i: usize = 0;
    while i < overlays.len()
        invariant
            i <= overlays@.len(),
            n == conflicting_overlay_count(overlays@.take(i as int)),
            n <= i,
        decreases overlays@.len() - i,
    {
        let o = &overlays[i];
        if o.is_directory && o.source_inline.is_some() {
            n = n + 1;
        }
        proof {
            let taken = overlays@.take(i as int + 1);
            assert(taken.drop_last() =~= overlays@.take(i as int));
            assert(taken.last() == overlays@[i as int]);
        }
        i = i + 1;
    }
    proof {
        assert(overlays@.take(overlays@.len() as int) =~= overlays@);
    }
    n
}

/// Whether the configured block size, if any, divides the target size
/// exactly.
pub fn check_filesystem(fs: &FilesystemConfig) -> (r: bool)
    ensures
        r == filesystem_divisible(*fs),
{
    match fs.block_size_mib {
        None => true,
        Some(b) => b > 0 && fs.size_mib % b == 0,
    }
}

/// Run all four structural checks in one pass and report every defect
/// found, in check order. An empty report means the script is structurally
/// valid.
pub fn validate_structure(script: &BuildScript) -> (r: Vec<StructuralError>)
    ensures
        r@ == expected_defects(*script),
        r@.len() == 0 <==> structurally_valid(*script),
{
    let mut defects: Vec<StructuralError> = Vec::new();
    let empty_commands = count_empty_commands(&script.commands);
    if empty_commands > 0 {
        defects.push(StructuralError::EmptyCommands { count: empty_commands });
    }
    let empty_overlays = count_empty_overlays(&script.overlays);
    if empty_overlays > 0 {
        defects.push(StructuralError::EmptyOverlays { count: empty_overlays });
    }
    let conflicting_overlays = count_conflicting_overlays(&script.overlays);
    if conflicting_overlays > 0 {
        defects.push(StructuralError::ConflictingOverlays { count: conflicting_overlays });
    }
    match script.filesystem.block_size_mib {
        None => {},
        Some(b) => {
            if !(b > 0 && script.filesystem.size_mib % b == 0) {
                defects.push(StructuralError::IndivisibleFilesystem {
                    size_mib: script.filesystem.size_mib,
                    block_size_mib: b,
                });
            }
        },
    }
    proof {
        assert(defects@ =~= expected_defects(*script));
    }
    defects
}

/// A command with at least one execution form set is never flagged as
/// empty.
pub proof fn lemma_command_with_form_not_empty(c: Command)
    requires
        c.script_inline is Some || c.script_path is Some || c.command is Some,
    ensures
        !command_is_empty(c),
{
}

/// A command that sets at least one execution form is never counted empty,
/// so a command sequence whose members each set one is always valid.
pub proof fn lemma_no_empty_commands(cs: Seq<Command>)
    requires
        forall|i: int| 0 <= i < cs.len() ==> !command_is_empty(#[trigger] cs[i]),
    ensures
        empty_command_count(cs) == 0,
    decreases cs.len(),
{
    if cs.len() > 0 {
        lemma_no_empty_commands(cs.drop_last());
    }
}

/// A command with all three execution forms unset is always flagged: any
/// sequence holding one has a positive empty-command count.
pub proof fn lemma_empty_command_flagged(cs: Seq<Command>, i: int)
    requires
        0 <= i < cs.len(),
        command_is_empty(cs[i]),
    ensures
        empty_command_count(cs) >= 1,
    decreases cs.len(),
{
    if i < cs.len() - 1 {
        lemma_empty_command_flagged(cs.drop_last(), i);
    }
}

/// An overlay marked as a directory that carries inline content is always
/// flagged: any sequence holding one has a positive conflict count.
pub proof fn lemma_directory_inline_overlay_flagged(os: Seq<Overlay>, i: int)
    requires
        0 <= i < os.len(),
        os[i].is_directory,
        os[i].source_inline is Some,
    ensures
        conflicting_overlay_count(os) >= 1,
    decreases os.len(),
{
    if i < os.len() - 1 {
        lemma_directory_inline_overlay_flagged(os.drop_last(), i);
    }
}

/// An overlay marked as a directory whose only source form is a path
/// reference passes both overlay checks.
pub proof fn lemma_directory_source_overlay_valid(o: Overlay)
    requires
        o.is_directory,
        o.source is Some,
        o.source_inline is None,
    ensures
        !overlay_is_empty(o),
        !overlay_conflicts(o),
{
}

} // verus!
