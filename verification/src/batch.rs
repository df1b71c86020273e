//! The batch scheduler: partitions an ordered file list into contiguous
//! chunks of at most `batch_size` items and drives the per-file pipeline
//! over them, advancing shared progress after every file.
//!
//! The partition caps how many decoded images are in flight at once; items
//! within one chunk carry no ordering obligation among themselves, so a
//! runner may fan a chunk out across parallel workers and still match the
//! per-file outcomes pinned here.

use vstd::prelude::*;
use crate::error::PipelineError;
use crate::imgops::decoded_image;
use crate::naming::{last_dot_segment, spec_last_segment};
use crate::pipeline::{process_file, spec_outcome_matches, Config, EncodedOutput};
use crate::progress::ProgressState;

verus! {

/// A source image selected for processing: where it lives on disk and the
/// file name that output naming is derived from.
#[derive(Default)]
pub struct LoadedImage {
    pub path: String,
    pub file_name: String,
}

/// One file's input to the in-memory batch run: its name and its raw bytes.
pub struct SourceImage {
    pub file_name: String,
    pub bytes: Vec<u8>,
}

/// One file's outcome, paired with the name it came from so callers can
/// match results to inputs.
pub struct FileOutcome {
    pub file_name: String,
    pub result: Result<EncodedOutput, PipelineError>,
}

/// How many chunks a list of `len` items makes at `batch` items per chunk:
/// the ceiling of `len / batch`.
pub open spec fn spec_chunk_count(len: int, batch: int) -> int
    recommends
        batch >= 1,
{
    (len + batch - 1) / batch
}

/// Chunk `i` of a `len`-item list at `batch` items per chunk: it starts at
/// `i * batch`, ends at the next multiple of `batch` or at `len`, and is
/// never empty.
pub open spec fn spec_chunk_at(r: Seq<(usize, usize)>, i: int, batch: int, len: int) -> bool {
    &&& r[i].0 == i * batch
    &&& r[i].1 == (if (i + 1) * batch <= len {
        (i + 1) * batch
    } else {
        len
    })
    &&& r[i].0 < r[i].1 <= len
}

/// Partitions `0 .. len` into contiguous chunks of at most `batch_size`
/// items: every item falls in exactly one chunk, chunks are consecutive and
/// non-empty, and there are exactly `ceil(len / batch_size)` of them.
pub fn chunk_bounds(len: usize, batch_size: usize) -> (r: Vec<(usize, usize)>)
    requires
        batch_size >= 1,
    ensures
        r@.len() == spec_chunk_count(len as int, batch_size as int),
        forall|i: int|
            0 <= i < r@.len() ==> #[trigger] spec_chunk_at(r@, i, batch_size as int, len as int),
        r@.len() == 0 <==> len == 0,
        r@.len() > 0 ==> r@[0].0 == 0 && r@[r@.len() - 1].1 == len,
{
    let mut r: Vec<(usize, usize)> = Vec::new();
    let mut start: usize = 0;
    proof {
        assert((0int) * (batch_size as int) == 0) by (nonlinear_arith);
    }
    while start < len
        invariant
            batch_size >= 1,
            start <= len,
            r@.len() == 0 ==> start == 0,
            start < len ==> start as int == r@.len() * batch_size,
            r@.len() > 0 ==> start as int == r@[r@.len() - 1].1,
            forall|i: int|
                0 <= i < r@.len() ==> #[trigger] spec_chunk_at(
                    r@,
                    i,
                    batch_size as int,
                    len as int,
                ),
        decreases len - start,
    {
        let ghost k = r@.len() as int;
        let ghost prior = r@;
        proof {
            assert((k + 1) * batch_size == k * batch_size + batch_size) by (nonlinear_arith);
        }
        let remaining = len - start;
        let end = if remaining > batch_size {
            start + batch_size
        } else {
            len
        };
        r.push((start, end));
        start = end;
        proof {
            assert forall|i: int|
                0 <= i < k implies #[trigger] spec_chunk_at(
                r@,
                i,
                batch_size as int,
                len as int,
            ) by {
                assert(spec_chunk_at(prior, i, batch_size as int, len as int));
                assert(r@[i] == prior[i]);
            }
            assert(spec_chunk_at(r@, k, batch_size as int, len as int));
        }
    }
    proof {
        assert((0int) * (batch_size as int) == 0) by (nonlinear_arith);
        if r@.len() > 0 {
            assert(spec_chunk_at(r@, 0, batch_size as int, len as int));
        }
    }
    proof {
        let b = batch_size as int;
        let l = len as int;
        let k = r@.len() as int;
        if k == 0 {
            assert(l == 0);
            assert(spec_chunk_count(l, b) == 0) by (nonlinear_arith)
                requires
                    l == 0,
                    b >= 1,
            ;
        } else {
            assert(spec_chunk_at(r@, k - 1, b, l));
            assert(r@[k - 1].1 == l);
            assert((k - 1) * b < l <= k * b) by (nonlinear_arith)
                requires
                    r@[k - 1].0 == (k - 1) * b,
                    r@[k - 1].0 < r@[k - 1].1,
                    r@[k - 1].1 == l,
                    r@[k - 1].1 == (if k * b <= l {
                        k * b
                    } else {
                        l
                    }),
                    b >= 1,
            ;
            assert(spec_chunk_count(l, b) == k) by (nonlinear_arith)
                requires
                    (k - 1) * b < l <= k * b,
                    b >= 1,
                    k >= 1,
            ;
        }
    }
    r
}

/// Everything the batch run promises of one file's outcome: the outcome
/// keeps the file's name, and its result is exactly what the per-file
/// pipeline yields for the file's bytes and its trailing extension token.
pub open spec fn spec_file_outcome_matches(f: SourceImage, cfg: Config, o: FileOutcome) -> bool {
    &&& o.file_name@ == f.file_name@
    &&& spec_outcome_matches(
        decoded_image(f.bytes@),
        cfg,
        spec_last_segment(f.file_name@),
        o.result,
    )
}

/// Runs the whole pipeline over an ordered file list, chunk by chunk.
///
/// Each file is processed independently: one file's failure leaves every
/// other outcome untouched and still advances progress. After the last
/// chunk the progress state is force-completed, so it reports exactly
/// "all done" even if every file failed.
pub fn process_images(files: &Vec<SourceImage>, cfg: &Config, progress: &mut ProgressState) -> (outcomes: Vec<FileOutcome>)
    requires
        cfg.valid(),
        old(progress).wf(),
        old(progress).spec_done() == 0,
        old(progress).spec_total() == files@.len(),
    ensures
        outcomes@.len() == files@.len(),
        forall|i: int|
            0 <= i < files@.len() ==> spec_file_outcome_matches(
                files@[i],
                *cfg,
                #[trigger] outcomes@[i],
            ),
        final(progress).wf(),
        final(progress).is_complete(),
        final(progress).spec_total() == old(progress).spec_total(),
{
    let len = files.len();
    let plan = chunk_bounds(len, cfg.batch_size);
    let mut outcomes: Vec<FileOutcome> = Vec::new();
    let mut c: usize = 0;
    while c < plan.len()
        invariant
            cfg.valid(),
            len == files@.len(),
            plan@.len() == spec_chunk_count(len as int, cfg.batch_size as int),
            forall|i: int|
                0 <= i < plan@.len() ==> #[trigger] spec_chunk_at(
                    plan@,
                    i,
                    cfg.batch_size as int,
                    len as int,
                ),
            plan@.len() > 0 ==> plan@[0].0 == 0 && plan@[plan@.len() - 1].1 == len,
            c <= plan@.len(),
            outcomes@.len() == (if c == 0 {
                0int
            } else {
                plan@[c - 1].1 as int
            }),
            outcomes@.len() <= len,
            forall|i: int|
                0 <= i < outcomes@.len() ==> spec_file_outcome_matches(
                    files@[i],
                    *cfg,
                    #[trigger] outcomes@[i],
                ),
            progress.wf(),
            progress.spec_total() == files@.len(),
            progress.spec_done() == outcomes@.len(),
        decreases plan@.len() - c,
    {
        let bounds = plan[c];
        let start = bounds.0;
        let end = bounds.1;
        proof {
            assert(spec_chunk_at(plan@, c as int, cfg.batch_size as int, len as int));
            if c > 0 {
                assert(spec_chunk_at(plan@, c as int - 1, cfg.batch_size as int, len as int));
            }
        }
        let mut k: usize = start;
        while k < end
            invariant
                cfg.valid(),
                len == files@.len(),
                start <= k <= end,
                end <= len,
                outcomes@.len() == k,
                forall|i: int|
                    0 <= i < outcomes@.len() ==> spec_file_outcome_matches(
                        files@[i],
                        *cfg,
                        #[trigger] outcomes@[i],
                    ),
                progress.wf(),
                progress.spec_total() == files@.len(),
                progress.spec_done() == outcomes@.len(),
            decreases end - k,
        {
            let f = &files[k];
            let existing_extension = last_dot_segment(f.file_name.as_str());
            let result = process_file(&f.bytes, cfg, existing_extension);
            outcomes.push(FileOutcome { file_name: f.file_name.clone(), result });
            progress.record_one();
            k += 1;
        }
        c += 1;
    }
    progress.finish();
    outcomes
}

} // verus!
