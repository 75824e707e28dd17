//! Laws of the pipeline, proved of the functional model that
//! [`crate::pipeline::Pipeline::step`] is verified to implement.

use crate::aggregate::aggregate_of;
use crate::aggregate::entry_of;
use crate::pipeline::init_model;
use crate::pipeline::step_model;
use crate::pipeline::ActionV;
use crate::pipeline::CmdOutcomeV;
use crate::pipeline::OutcomeV;
use crate::pipeline::Phase;
use crate::pipeline::PipelineV;
use crate::pipeline::NOT_A_REPO_MESSAGE;
use crate::pipeline::PATH_ERROR_MESSAGE;
use crate::prompt::prompt_of;
use crate::prompt::INSTRUCTION;
use crate::text::line_seq;
use vstd::prelude::*;

verus! {

/// The state after feeding the outcomes `evs` to the machine, one step at a
/// time, starting from `p`.
pub open spec fn run_model(p: PipelineV, evs: Seq<CmdOutcomeV>) -> PipelineV
    decreases evs.len(),
{
    if evs.len() == 0 {
        p
    } else {
        run_model(step_model(p, evs[0]).0, evs.drop_first())
    }
}

/// A successful repository probe.
pub open spec fn probe_ok() -> CmdOutcomeV {
    CmdOutcomeV::Exited(true, None)
}

/// A successful changed-file listing whose output is `listing`.
pub open spec fn list_ok(listing: Seq<char>) -> CmdOutcomeV {
    CmdOutcomeV::Exited(true, Some(listing))
}

/// A successful per-file diff query whose output is `diff`.
pub open spec fn diff_ok(diff: Seq<char>) -> CmdOutcomeV {
    CmdOutcomeV::Exited(true, Some(diff))
}

/// A failed query: bad exit status, or the command could not be started.
pub open spec fn query_failed(ev: CmdOutcomeV) -> bool {
    match ev {
        CmdOutcomeV::LaunchFailed(_) => true,
        CmdOutcomeV::Exited(success, _) => !success,
    }
}

/// For a path that is not under version control — the probe runs and reports
/// failure — the pipeline finishes at once with the successful, non-error
/// "not a repository" outcome, never with a failure.
pub proof fn lemma_not_a_repository(path: Seq<char>, stdout: Option<Seq<char>>)
    ensures
        step_model(init_model(path), CmdOutcomeV::Exited(false, stdout)).0.phase == Phase::Done,
        step_model(init_model(path), CmdOutcomeV::Exited(false, stdout)).1 == ActionV::Finish(
            OutcomeV::NotARepository(NOT_A_REPO_MESSAGE@),
        ),
{
}

/// For a repository with zero changed files, the aggregate diff text is
/// empty and the prompt handed to the inference process is exactly the
/// fixed instruction.
pub proof fn lemma_no_changes(path: Seq<char>, listing: Seq<char>)
    requires
        line_seq(listing).len() == 0,
    ensures
        ({
            let probed = step_model(init_model(path), probe_ok()).0;
            let listed = step_model(probed, list_ok(listing));
            &&& listed.0.phase == Phase::Infer
            &&& listed.0.aggregate == Seq::<char>::empty()
            &&& listed.1 == ActionV::Infer(INSTRUCTION@)
        }),
{
    let probed = step_model(init_model(path), probe_ok()).0;
    let listed = step_model(probed, list_ok(listing));
    assert(prompt_of(probed.aggregate) =~= INSTRUCTION@);
}

/// Feeding `diffs.len()` successful diff outcomes to a machine that is
/// diffing appends exactly the matching entries, in order, and moves on to
/// the inference stage exactly when no file is left.
pub proof fn lemma_diff_run(p: PipelineV, diffs: Seq<Seq<char>>)
    requires
        p.wf(),
        p.phase == Phase::Diff,
        diffs.len() <= p.files.len() - p.next,
    ensures
        ({
            let q = run_model(p, diffs.map_values(|d: Seq<char>| diff_ok(d)));
            &&& q.path == p.path
            &&& q.files == p.files
            &&& q.next == p.next + diffs.len()
            &&& q.aggregate == p.aggregate + aggregate_of(
                p.files.subrange(p.next, p.files.len() as int),
                diffs,
            )
            &&& q.phase == (if q.next == p.files.len() {
                Phase::Infer
            } else {
                Phase::Diff
            })
            &&& q.wf()
        }),
    decreases diffs.len(),
{
    let evs = diffs.map_values(|d: Seq<char>| diff_ok(d));
    let pending = p.files.subrange(p.next, p.files.len() as int);
    if diffs.len() == 0 {
        assert(p.aggregate + aggregate_of(pending, diffs) =~= p.aggregate);
    } else {
        let stepped = step_model(p, evs[0]).0;
        assert(stepped.aggregate == p.aggregate + entry_of(p.files[p.next], diffs[0]));
        assert(stepped.next == p.next + 1);
        if diffs.len() == 1 && p.next + 1 == p.files.len() {
            assert(stepped.phase == Phase::Infer);
        } else {
            assert(stepped.phase == Phase::Diff);
        }
        assert(evs.drop_first() =~= diffs.drop_first().map_values(|d: Seq<char>| diff_ok(d)));
        if diffs.len() == 1 {
            assert(run_model(stepped, evs.drop_first()) == stepped);
            assert(pending.drop_first() =~= p.files.subrange(p.next + 1, p.files.len() as int));
            assert(aggregate_of(pending.drop_first(), diffs.drop_first()) == Seq::<char>::empty());
            assert(pending[0] == p.files[p.next]);
            assert(aggregate_of(pending, diffs) =~= entry_of(p.files[p.next], diffs[0]));
            assert(stepped.aggregate =~= p.aggregate + aggregate_of(pending, diffs));
        } else {
            lemma_diff_run(stepped, diffs.drop_first());
            let q = run_model(stepped, evs.drop_first());
            assert(pending.drop_first() =~= p.files.subrange(p.next + 1, p.files.len() as int));
            assert(aggregate_of(pending, diffs) =~= entry_of(p.files[p.next], diffs[0])
                + aggregate_of(pending.drop_first(), diffs.drop_first()));
            assert(q.aggregate =~= p.aggregate + aggregate_of(pending, diffs));
        }
    }
}

/// The state of the machine once the probe and the listing have succeeded:
/// the changed files are the lines of the listing, none diffed yet, the
/// aggregate empty.
pub proof fn lemma_listing_state(path: Seq<char>, listing: Seq<char>)
    ensures
        ({
            let listed = run_model(init_model(path), seq![probe_ok(), list_ok(listing)]);
            &&& listed.path == path
            &&& listed.files == line_seq(listing)
            &&& listed.next == 0
            &&& listed.aggregate == Seq::<char>::empty()
            &&& listed.phase == (if line_seq(listing).len() == 0 {
                Phase::Infer
            } else {
                Phase::Diff
            })
            &&& listed.wf()
        }),
{
    let evs = seq![probe_ok(), list_ok(listing)];
    let probed = step_model(init_model(path), probe_ok()).0;
    let listed = step_model(probed, list_ok(listing)).0;
    assert(evs[0] == probe_ok());
    assert(run_model(init_model(path), evs) == run_model(probed, evs.drop_first()));
    assert(evs.drop_first() =~= seq![list_ok(listing)]);
    assert(seq![list_ok(listing)][0] == list_ok(listing));
    assert(run_model(probed, seq![list_ok(listing)]) == run_model(
        listed,
        seq![list_ok(listing)].drop_first(),
    ));
    assert(seq![list_ok(listing)].drop_first() =~= Seq::<CmdOutcomeV>::empty());
    assert(run_model(listed, Seq::<CmdOutcomeV>::empty()) == listed);
}

/// For a repository with `N` changed files where every per-file diff query
/// succeeds, the aggregate text is exactly the `N` entries of the listed
/// files with their diffs, in listing order, and the machine moves on to the
/// inference stage.
pub proof fn lemma_all_diffs_succeed(path: Seq<char>, listing: Seq<char>, diffs: Seq<Seq<char>>)
    requires
        diffs.len() == line_seq(listing).len(),
    ensures
        ({
            let evs = seq![probe_ok(), list_ok(listing)] + diffs.map_values(
                |d: Seq<char>| diff_ok(d),
            );
            let q = run_model(init_model(path), evs);
            &&& q.phase == Phase::Infer
            &&& q.files == line_seq(listing)
            &&& q.aggregate == aggregate_of(line_seq(listing), diffs)
        }),
{
    let head = seq![probe_ok(), list_ok(listing)];
    let tail = diffs.map_values(|d: Seq<char>| diff_ok(d));
    let evs = head + tail;
    lemma_listing_state(path, listing);
    let listed = run_model(init_model(path), head);
    lemma_run_split(init_model(path), head, tail);
    assert(listed.files =~= line_seq(listing));
    if diffs.len() == 0 {
        assert(run_model(listed, tail) == listed);
        assert(aggregate_of(line_seq(listing), diffs) =~= Seq::<char>::empty());
    } else {
        lemma_diff_run(listed, diffs);
        let q = run_model(listed, tail);
        assert(listed.files.subrange(0, listed.files.len() as int) =~= listed.files);
        assert(q.aggregate =~= aggregate_of(line_seq(listing), diffs));
    }
}

/// If the diff queries for the first `diffs.len()` files succeed and the
/// next one fails, the aggregate text holds exactly those `diffs.len()`
/// entries — the partial result — and aggregation raises no error: the
/// failing step hands the partial prompt to the inference stage.
pub proof fn lemma_diff_failure_partial(
    path: Seq<char>,
    listing: Seq<char>,
    diffs: Seq<Seq<char>>,
    failure: CmdOutcomeV,
)
    requires
        diffs.len() < line_seq(listing).len(),
        query_failed(failure),
    ensures
        ({
            let evs = seq![probe_ok(), list_ok(listing)] + diffs.map_values(
                |d: Seq<char>| diff_ok(d),
            );
            let q = run_model(init_model(path), evs);
            let stopped = step_model(q, failure);
            &&& q.aggregate == aggregate_of(line_seq(listing), diffs)
            &&& stopped.0.phase == Phase::Infer
            &&& stopped.0.aggregate == aggregate_of(line_seq(listing), diffs)
            &&& stopped.1 == ActionV::Infer(prompt_of(aggregate_of(line_seq(listing), diffs)))
        }),
{
    let head = seq![probe_ok(), list_ok(listing)];
    let tail = diffs.map_values(|d: Seq<char>| diff_ok(d));
    lemma_listing_state(path, listing);
    let listed = run_model(init_model(path), head);
    lemma_run_split(init_model(path), head, tail);
    if diffs.len() == 0 {
        assert(run_model(listed, tail) == listed);
        assert(aggregate_of(line_seq(listing), diffs) =~= Seq::<char>::empty());
    } else {
        lemma_diff_run(listed, diffs);
        let q = run_model(listed, tail);
        assert(listed.files.subrange(0, listed.files.len() as int) =~= listed.files);
        assert(q.aggregate =~= aggregate_of(line_seq(listing), diffs));
    }
}

/// If the inference process exits with a failure status, the pipeline
/// finishes with a failure outcome — never with a suggestion, partial or
/// otherwise.
pub proof fn lemma_inference_failure(p: PipelineV, stdout: Option<Seq<char>>)
    requires
        p.phase == Phase::Infer,
    ensures
        step_model(p, CmdOutcomeV::Exited(false, stdout)).0.phase == Phase::Done,
        step_model(p, CmdOutcomeV::Exited(false, stdout)).1 == ActionV::Finish(
            OutcomeV::Failure(PATH_ERROR_MESSAGE@),
        ),
        !(step_model(p, CmdOutcomeV::Exited(false, stdout)).1 matches ActionV::Finish(
            OutcomeV::Suggestion(_),
        )),
{
}

/// Running a machine over `first + rest` is running it over `first`, then
/// over `rest`.
pub proof fn lemma_run_split(p: PipelineV, first: Seq<CmdOutcomeV>, rest: Seq<CmdOutcomeV>)
    ensures
        run_model(p, first + rest) == run_model(run_model(p, first), rest),
    decreases first.len(),
{
    if first.len() == 0 {
        assert(first + rest =~= rest);
    } else {
        let stepped = step_model(p, first[0]).0;
        assert((first + rest).drop_first() =~= first.drop_first() + rest);
        lemma_run_split(stepped, first.drop_first(), rest);
    }
}

} // verus!
