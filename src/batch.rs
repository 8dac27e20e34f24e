//! Planning a directory scan: every eligible file becomes a job, the rest
//! are skipped.
use vstd::prelude::*;
use crate::job::{target_name_of, ConversionJob, JobStage, RunMode};
use crate::paths::{join, join_path, PathStyle};
use crate::routing::spec_route;

verus! {

/// The names among `names` that the mapping table routes, in order.
pub open spec fn eligible(names: Seq<String>) -> Seq<String>
    decreases names.len(),
{
    if names.len() == 0 {
        Seq::empty()
    } else {
        let rest = eligible(names.drop_last());
        if spec_route(names.last()@) is Some {
            rest.push(names.last())
        } else {
            rest
        }
    }
}

/// `j` is the fresh job for file `name` of `source_dir`, into `dest_dir`.
pub open spec fn is_batch_job(
    j: ConversionJob,
    source_dir: Seq<char>,
    name: Seq<char>,
    dest_dir: Seq<char>,
    style: PathStyle,
) -> bool {
    &&& spec_route(name) is Some
    &&& j.wf()
    &&& j.source_path@ == join_path(source_dir, name, style)
    &&& j.dest_dir@ == dest_dir
    &&& j.style == style
    &&& j.format == spec_route(name)->Some_0
    &&& j.target_name@ == target_name_of(name, j.format)
    &&& j.stage == JobStage::CheckTarget
}

/// One job for each eligible file name of `source_dir`, in the given order;
/// ineligible names are skipped without error.
pub fn plan_batch(source_dir: &str, names: &Vec<String>, dest_dir: &str, style: PathStyle) -> (r:
    Vec<ConversionJob>)
    ensures
        r@.len() == eligible(names@).len(),
        forall|k: int|
            0 <= k < r@.len() ==> is_batch_job(
                #[trigger] r@[k],
                source_dir@,
                eligible(names@)[k]@,
                dest_dir@,
                style,
            ),
{
    let mut out: Vec<ConversionJob> = Vec::new();
    let mut i: usize = 0;
    while i < names.len()
        invariant
            0 <= i <= names@.len(),
            out@.len() == eligible(names@.subrange(0, i as int)).len(),
            forall|k: int|
                0 <= k < out@.len() ==> is_batch_job(
                    #[trigger] out@[k],
                    source_dir@,
                    eligible(names@.subrange(0, i as int))[k]@,
                    dest_dir@,
                    style,
                ),
        decreases names@.len() - i,
    {
        let name = names[i].as_str();
        let source_path = join(source_dir, name, style);
        let planned = ConversionJob::plan(source_path.as_str(), name, dest_dir, style, RunMode::Batch);
        proof {
            let p = names@.subrange(0, i + 1);
            assert(p.drop_last() == names@.subrange(0, i as int));
            assert(p.last() == names@[i as int]);
        }
        match planned {
            Ok(Some(j)) => {
                out.push(j);
            },
            _ => {},
        }
        i = i + 1;
    }
    assert(names@.subrange(0, names@.len() as int) == names@);
    out
}

} // verus!
