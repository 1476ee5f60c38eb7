//! Collecting every filesystem reference a build script contains.
//!
//! The collected order is fixed so error messages are reproducible: first
//! each command's script-path reference, then each overlay's source
//! reference, then each volume's source path. Nothing is deduplicated.

use vstd::prelude::*;

use crate::schema::{BuildScript, Command, Overlay};

verus! {

/// The script-path references of a command sequence, in order.
pub open spec fn command_refs(cs: Seq<Command>) -> Seq<Seq<char>>
    decreases cs.len(),
{
    if cs.len() == 0 {
        Seq::empty()
    } else {
        command_refs(cs.drop_last()) + match cs.last().script_path {
            Some(p) => seq![p@],
            None => Seq::<Seq<char>>::empty(),
        }
    }
}

/// The source references of an overlay sequence, in order.
pub open spec fn overlay_refs(os: Seq<Overlay>) -> Seq<Seq<char>>
    decreases os.len(),
{
    if os.len() == 0 {
        Seq::empty()
    } else {
        overlay_refs(os.drop_last()) + match os.last().source {
            Some(p) => seq![p@],
            None => Seq::<Seq<char>>::empty(),
        }
    }
}

/// The source paths of a volume sequence, in order.
pub open spec fn volume_refs(vs: Seq<(String, String)>) -> Seq<Seq<char>>
    decreases vs.len(),
{
    if vs.len() == 0 {
        Seq::empty()
    } else {
        volume_refs(vs.drop_last()) + seq![vs.last().0@]
    }
}

/// Every reference of a script: command script paths, then overlay sources,
/// then volume source paths.
pub open spec fn collected_refs(s: BuildScript) -> Seq<Seq<char>> {
    command_refs(s.commands@) + overlay_refs(s.overlays@) + volume_refs(s.container.volumes@)
}

/// Walk the script and gather every reference it contains, in the fixed
/// collection order.
pub fn collect_references(script: &BuildScript) -> (r: Vec<String>)
    ensures
        r.deep_view() == collected_refs(*script),
{
    let mut out: Vec<String> = Vec::new();
    let mut i: usize = 0;
    while i < script.commands.len()
        invariant
            i <= script.commands@.len(),
            out.deep_view() == command_refs(script.commands@.take(i as int)),
        decreases script.commands@.len() - i,
    {
        let ghost pre = out.deep_view();
        match &script.commands[i].script_path {
            Some(p) => {
                let c = p.clone();
                out.push(c);
                proof {
                    assert(out.deep_view() =~= pre + seq![script.commands@[i as int].script_path->0@]);
                }
            },
            None => {},
        }
        proof {
            let taken = script.commands@.take(i as int + 1);
            assert(taken.drop_last() =~= script.commands@.take(i as int));
            assert(taken.last() == script.commands@[i as int]);
        }
        i = i + 1;
    }
    proof {
        assert(script.commands@.take(script.commands@.len() as int) =~= script.commands@);
    }
    let mut j: usize = 0;
    while j < script.overlays.len()
        invariant
            j <= script.overlays@.len(),
            out.deep_view() == command_refs(script.commands@)
                + overlay_refs(script.overlays@.take(j as int)),
        decreases script.overlays@.len() - j,
    {
        let ghost pre = out.deep_view();
        match &script.overlays[j].source {
            Some(p) => {
                let c = p.clone();
                out.push(c);
                proof {
                    assert(out.deep_view() =~= pre + seq![script.overlays@[j as int].source->0@]);
                }
            },
            None => {},
        }
        proof {
            let taken = script.overlays@.take(j as int + 1);
            assert(taken.drop_last() =~= script.overlays@.take(j as int));
            assert(taken.last() == script.overlays@[j as int]);
            assert(command_refs(script.commands@) + overlay_refs(script.overlays@.take(j as int + 1))
                =~= command_refs(script.commands@) + overlay_refs(script.overlays@.take(j as int))
                    + match script.overlays@[j as int].source {
                        Some(p) => seq![p@],
                        None => Seq::<Seq<char>>::empty(),
                    });
        }
        j = j + 1;
    }
    proof {
        assert(script.overlays@.take(script.overlays@.len() as int) =~= script.overlays@);
    }
    let mut k: usize = 0;
    while k < script.container.volumes.len()
        invariant
            k <= script.container.volumes@.len(),
            out.deep_view() == command_refs(script.commands@) + overlay_refs(script.overlays@)
                + volume_refs(script.container.volumes@.take(k as int)),
        decreases script.container.volumes@.len() - k,
    {
        let ghost pre = out.deep_view();
        let c = script.container.volumes[k].0.clone();
        out.push(c);
        proof {
            assert(out.deep_view() =~= pre + seq![script.container.volumes@[k as int].0@]);
            let taken = script.container.volumes@.take(k as int + 1);
            assert(taken.drop_last() =~= script.container.volumes@.take(k as int));
            assert(taken.last() == script.container.volumes@[k as int]);
            assert(command_refs(script.commands@) + overlay_refs(script.overlays@)
                + volume_refs(script.container.volumes@.take(k as int + 1))
                =~= command_refs(script.commands@) + overlay_refs(script.overlays@)
                    + volume_refs(script.container.volumes@.take(k as int))
                    + seq![script.container.volumes@[k as int].0@]);
        }
        k = k + 1;
    }
    proof {
        assert(script.container.volumes@.take(script.container.volumes@.len() as int)
            =~= script.container.volumes@);
    }
    out
}

} // verus!
