//! The laws of the orchestrator: path determinism lives beside the artifact
//! locator; here stand skip-if-exists idempotence, dependency ordering, and
//! fail-fast, proved of the run model.

use crate::artifacts::{ArtifactKind, Stage};
use crate::ids::valid_chapter_id;
use crate::pipeline::{
    doc_artifact, spec_run_stage, spec_run_stages, spec_stage_list, spec_step, FsView, RunMode,
    SpecRun, SpecStageRun, SpecStep, StageCounts, StepStatus,
};
use crate::providers::ProvidersView;
use crate::PipelineError;
use vstd::prelude::*;

verus! {

/// Whether every output artifact of the stage already exists for the
/// document: the orchestrator's skip condition.
pub open spec fn outputs_exist(
    fs: FsView,
    doc: Seq<char>,
    out_dir: Seq<char>,
    stage: Stage,
) -> bool {
    match stage {
        Stage::Transcript => fs.dom().contains(
            doc_artifact(doc, out_dir, ArtifactKind::Transcript),
        ),
        Stage::Narration => fs.dom().contains(
            doc_artifact(doc, out_dir, ArtifactKind::ContentAudio),
        ),
        Stage::Intro => fs.dom().contains(doc_artifact(doc, out_dir, ArtifactKind::IntroText))
            && fs.dom().contains(doc_artifact(doc, out_dir, ArtifactKind::IntroAudio)),
        Stage::Merge => fs.dom().contains(doc_artifact(doc, out_dir, ArtifactKind::MergedAudio)),
    }
}

/// Whether the stage's declared upstream artifacts exist for the document:
/// `Narration` needs the transcript, `Merge` needs both audio artifacts,
/// the other stages have no upstream artifact.
pub open spec fn deps_exist(fs: FsView, doc: Seq<char>, out_dir: Seq<char>, stage: Stage) -> bool {
    match stage {
        Stage::Transcript => true,
        Stage::Narration => fs.dom().contains(
            doc_artifact(doc, out_dir, ArtifactKind::Transcript),
        ),
        Stage::Intro => true,
        Stage::Merge => fs.dom().contains(doc_artifact(doc, out_dir, ArtifactKind::IntroAudio))
            && fs.dom().contains(doc_artifact(doc, out_dir, ArtifactKind::ContentAudio)),
    }
}

/// A step is blocked exactly when the document has a usable identifier, the
/// stage's outputs are not all present, and a declared dependency is
/// missing; a blocked step leaves the filesystem unchanged.
pub proof fn lemma_step_blocked_characterization(
    fs: FsView,
    doc: Seq<char>,
    out_dir: Seq<char>,
    prov: ProvidersView,
    stage: Stage,
)
    ensures
        spec_step(fs, doc, out_dir, prov, stage).status is Blocked <==> (valid_chapter_id(doc)
            && !outputs_exist(fs, doc, out_dir, stage) && !deps_exist(fs, doc, out_dir, stage)),
        spec_step(fs, doc, out_dir, prov, stage).status is Blocked ==> spec_step(
            fs,
            doc,
            out_dir,
            prov,
            stage,
        ).fs == fs,
{
}

/// A step skips exactly when the document has a usable identifier and every
/// output of the stage already exists; it then changes nothing.
pub proof fn lemma_step_skip(
    fs: FsView,
    doc: Seq<char>,
    out_dir: Seq<char>,
    prov: ProvidersView,
    stage: Stage,
)
    requires
        valid_chapter_id(doc),
        outputs_exist(fs, doc, out_dir, stage),
    ensures
        spec_step(fs, doc, out_dir, prov, stage) == (SpecStep {
            fs,
            status: StepStatus::Skipped,
        }),
{
}

/// A step only adds files: whatever existed before it exists after it.
pub proof fn lemma_step_dom_monotone(
    fs: FsView,
    doc: Seq<char>,
    out_dir: Seq<char>,
    prov: ProvidersView,
    stage: Stage,
)
    ensures
        forall|k: Seq<char>| #[trigger]
            fs.dom().contains(k) ==> spec_step(fs, doc, out_dir, prov, stage).fs.dom().contains(k),
{
}

/// After a skipped or completed step, every output of the stage exists.
pub proof fn lemma_step_outputs_after(
    fs: FsView,
    doc: Seq<char>,
    out_dir: Seq<char>,
    prov: ProvidersView,
    stage: Stage,
)
    requires
        spec_step(fs, doc, out_dir, prov, stage).status is Skipped || spec_step(
            fs,
            doc,
            out_dir,
            prov,
            stage,
        ).status is Done,
    ensures
        valid_chapter_id(doc),
        outputs_exist(spec_step(fs, doc, out_dir, prov, stage).fs, doc, out_dir, stage),
{
}

/// A stage only adds files: whatever existed before it exists after it.
pub proof fn lemma_stage_dom_monotone(
    fs: FsView,
    docs: Seq<Seq<char>>,
    out_dir: Seq<char>,
    prov: ProvidersView,
    stage: Stage,
)
    ensures
        forall|k: Seq<char>| #[trigger]
            fs.dom().contains(k) ==> spec_run_stage(
                fs,
                docs,
                out_dir,
                prov,
                stage,
            ).fs.dom().contains(k),
    decreases docs.len(),
{
    if docs.len() > 0 {
        let s = spec_step(fs, docs[0], out_dir, prov, stage);
        lemma_step_dom_monotone(fs, docs[0], out_dir, prov, stage);
        match s.status {
            StepStatus::Failed(_) => {},
            _ => {
                lemma_stage_dom_monotone(s.fs, docs.drop_first(), out_dir, prov, stage);
            },
        }
    }
}

/// When every document already has the stage's outputs, the stage changes
/// nothing and reports every document as skipped.
pub proof fn lemma_stage_all_skip(
    fs: FsView,
    docs: Seq<Seq<char>>,
    out_dir: Seq<char>,
    prov: ProvidersView,
    stage: Stage,
)
    requires
        forall|i: int|
            0 <= i < docs.len() ==> valid_chapter_id(#[trigger] docs[i]) && outputs_exist(
                fs,
                docs[i],
                out_dir,
                stage,
            ),
    ensures
        spec_run_stage(fs, docs, out_dir, prov, stage) == (SpecStageRun {
            fs,
            processed: 0nat,
            skipped: docs.len(),
            blocked: 0nat,
            failure: None::<PipelineError>,
        }),
    decreases docs.len(),
{
    if docs.len() > 0 {
        lemma_step_skip(fs, docs[0], out_dir, prov, stage);
        assert forall|i: int| 0 <= i < docs.drop_first().len() implies valid_chapter_id(
            #[trigger] docs.drop_first()[i],
        ) && outputs_exist(fs, docs.drop_first()[i], out_dir, stage) by {
            assert(docs.drop_first()[i] == docs[i + 1]);
        }
        lemma_stage_all_skip(fs, docs.drop_first(), out_dir, prov, stage);
    }
}

/// After a stage that neither failed nor left a document blocked, every
/// document has a usable identifier and all the stage's outputs.
pub proof fn lemma_stage_success_outputs(
    fs: FsView,
    docs: Seq<Seq<char>>,
    out_dir: Seq<char>,
    prov: ProvidersView,
    stage: Stage,
)
    requires
        spec_run_stage(fs, docs, out_dir, prov, stage).failure is None,
        spec_run_stage(fs, docs, out_dir, prov, stage).blocked == 0,
    ensures
        forall|i: int|
            0 <= i < docs.len() ==> valid_chapter_id(#[trigger] docs[i]) && outputs_exist(
                spec_run_stage(fs, docs, out_dir, prov, stage).fs,
                docs[i],
                out_dir,
                stage,
            ),
    decreases docs.len(),
{
    if docs.len() > 0 {
        let s = spec_step(fs, docs[0], out_dir, prov, stage);
        let rest = spec_run_stage(s.fs, docs.drop_first(), out_dir, prov, stage);
        assert(!(s.status is Failed));
        assert(!(s.status is Blocked));
        lemma_step_outputs_after(fs, docs[0], out_dir, prov, stage);
        lemma_stage_success_outputs(s.fs, docs.drop_first(), out_dir, prov, stage);
        lemma_stage_dom_monotone(s.fs, docs.drop_first(), out_dir, prov, stage);
        assert forall|i: int| 0 <= i < docs.len() implies valid_chapter_id(#[trigger] docs[i])
            && outputs_exist(
            spec_run_stage(fs, docs, out_dir, prov, stage).fs,
            docs[i],
            out_dir,
            stage,
        ) by {
            if i == 0 {
                assert(outputs_exist(s.fs, docs[0], out_dir, stage));
            } else {
                assert(docs.drop_first()[i - 1] == docs[i]);
            }
        }
    }
}

/// A stage whose documents all have their declared dependencies in place
/// leaves no document blocked.
pub proof fn lemma_stage_no_block(
    fs: FsView,
    docs: Seq<Seq<char>>,
    out_dir: Seq<char>,
    prov: ProvidersView,
    stage: Stage,
)
    requires
        forall|i: int|
            0 <= i < docs.len() ==> deps_exist(fs, #[trigger] docs[i], out_dir, stage),
    ensures
        spec_run_stage(fs, docs, out_dir, prov, stage).blocked == 0,
    decreases docs.len(),
{
    if docs.len() > 0 {
        let s = spec_step(fs, docs[0], out_dir, prov, stage);
        lemma_step_blocked_characterization(fs, docs[0], out_dir, prov, stage);
        assert(!(s.status is Blocked));
        match s.status {
            StepStatus::Failed(_) => {},
            _ => {
                lemma_step_dom_monotone(fs, docs[0], out_dir, prov, stage);
                assert forall|i: int| 0 <= i < docs.drop_first().len() implies deps_exist(
                    s.fs,
                    #[trigger] docs.drop_first()[i],
                    out_dir,
                    stage,
                ) by {
                    assert(docs.drop_first()[i] == docs[i + 1]);
                    assert(deps_exist(fs, docs[i + 1], out_dir, stage));
                }
                lemma_stage_no_block(s.fs, docs.drop_first(), out_dir, prov, stage);
            },
        }
    }
}

/// Dependency ordering: the Merge stage never executes for a document
/// whose intro audio or content audio does not yet exist — the step is
/// blocked (reported as a missing dependency) and writes nothing.
pub proof fn lemma_merge_needs_dependencies(
    fs: FsView,
    doc: Seq<char>,
    out_dir: Seq<char>,
    prov: ProvidersView,
)
    requires
        valid_chapter_id(doc),
        !fs.dom().contains(doc_artifact(doc, out_dir, ArtifactKind::MergedAudio)),
        !fs.dom().contains(doc_artifact(doc, out_dir, ArtifactKind::IntroAudio)) || !fs.dom().contains(
            doc_artifact(doc, out_dir, ArtifactKind::ContentAudio),
        ),
    ensures
        spec_step(fs, doc, out_dir, prov, Stage::Merge).status is Blocked,
        spec_step(fs, doc, out_dir, prov, Stage::Merge).fs == fs,
{
}

/// A blocked document does not abort the stage: it is counted and the
/// stage continues with the remaining documents.
pub proof fn lemma_blocked_continues(
    fs: FsView,
    docs: Seq<Seq<char>>,
    out_dir: Seq<char>,
    prov: ProvidersView,
    stage: Stage,
)
    requires
        docs.len() > 0,
        spec_step(fs, docs[0], out_dir, prov, stage).status is Blocked,
    ensures
        ({
            let rest = spec_run_stage(fs, docs.drop_first(), out_dir, prov, stage);
            spec_run_stage(fs, docs, out_dir, prov, stage) == (SpecStageRun {
                fs: rest.fs,
                processed: rest.processed,
                skipped: rest.skipped,
                blocked: (rest.blocked + 1) as nat,
                failure: rest.failure,
            })
        }),
{
    lemma_step_blocked_characterization(fs, docs[0], out_dir, prov, stage);
}

/// Fail-fast within a stage: when the documents before `i` ran without
/// failure and document `i` fails, the stage is exactly the stage over the
/// first `i + 1` documents — the ones after `i` are never attempted — and
/// the run reports the failure.
pub proof fn lemma_stage_fail_fast(
    fs: FsView,
    docs: Seq<Seq<char>>,
    out_dir: Seq<char>,
    prov: ProvidersView,
    stage: Stage,
    i: int,
)
    requires
        0 <= i < docs.len(),
        spec_run_stage(fs, docs.take(i), out_dir, prov, stage).failure is None,
        spec_step(
            spec_run_stage(fs, docs.take(i), out_dir, prov, stage).fs,
            docs[i],
            out_dir,
            prov,
            stage,
        ).status is Failed,
    ensures
        spec_run_stage(fs, docs, out_dir, prov, stage) == spec_run_stage(
            fs,
            docs.take(i + 1),
            out_dir,
            prov,
            stage,
        ),
        spec_run_stage(fs, docs, out_dir, prov, stage).failure is Some,
    decreases i,
{
    if i == 0 {
        assert(docs.take(0) =~= Seq::<Seq<char>>::empty());
        assert(docs.take(1).len() == 1);
        assert(docs.take(1)[0] == docs[0]);
        assert(spec_step(fs, docs[0], out_dir, prov, stage).status is Failed);
    } else {
        let pre = spec_run_stage(fs, docs.take(i), out_dir, prov, stage);
        let s0 = spec_step(fs, docs[0], out_dir, prov, stage);
        assert(docs.take(i)[0] == docs[0]);
        assert(docs.take(i).drop_first() =~= docs.drop_first().take(i - 1));
        assert(!(s0.status is Failed));
        let inner_pre = spec_run_stage(s0.fs, docs.drop_first().take(i - 1), out_dir, prov, stage);
        assert(inner_pre.failure is None);
        assert(inner_pre.fs == pre.fs);
        assert(docs.drop_first()[i - 1] == docs[i]);
        lemma_stage_fail_fast(s0.fs, docs.drop_first(), out_dir, prov, stage, i - 1);
        assert(docs.take(i + 1)[0] == docs[0]);
        assert(docs.take(i + 1).drop_first() =~= docs.drop_first().take(i));
    }
}

/// Fail-fast across stages: when the stages before `j` ran without failure
/// and stage `j` fails, the run is exactly the run over the first `j + 1`
/// stages — the ones after `j` are never attempted — and it reports the
/// failure and one report entry per attempted stage.
pub proof fn lemma_run_fail_fast(
    fs: FsView,
    docs: Seq<Seq<char>>,
    out_dir: Seq<char>,
    prov: ProvidersView,
    stages: Seq<Stage>,
    j: int,
)
    requires
        0 <= j < stages.len(),
        spec_run_stages(fs, docs, out_dir, prov, stages.take(j)).failure is None,
        spec_run_stage(
            spec_run_stages(fs, docs, out_dir, prov, stages.take(j)).fs,
            docs,
            out_dir,
            prov,
            stages[j],
        ).failure is Some,
    ensures
        spec_run_stages(fs, docs, out_dir, prov, stages) == spec_run_stages(
            fs,
            docs,
            out_dir,
            prov,
            stages.take(j + 1),
        ),
        spec_run_stages(fs, docs, out_dir, prov, stages).failure is Some,
        spec_run_stages(fs, docs, out_dir, prov, stages).reports.len() == j + 1,
    decreases j,
{
    if j == 0 {
        assert(stages.take(0) =~= Seq::<Stage>::empty());
        assert(stages.take(1).len() == 1);
        assert(stages.take(1)[0] == stages[0]);
        assert(spec_run_stage(fs, docs, out_dir, prov, stages[0]).failure is Some);
    } else {
        let pre = spec_run_stages(fs, docs, out_dir, prov, stages.take(j));
        let st0 = spec_run_stage(fs, docs, out_dir, prov, stages[0]);
        assert(stages.take(j)[0] == stages[0]);
        assert(stages.take(j).drop_first() =~= stages.drop_first().take(j - 1));
        assert(!(st0.failure is Some));
        let inner_pre = spec_run_stages(
            st0.fs,
            docs,
            out_dir,
            prov,
            stages.drop_first().take(j - 1),
        );
        assert(inner_pre.failure is None);
        assert(inner_pre.fs == pre.fs);
        assert(stages.drop_first()[j - 1] == stages[j]);
        lemma_run_fail_fast(st0.fs, docs, out_dir, prov, stages.drop_first(), j - 1);
        assert(stages.take(j + 1)[0] == stages[0]);
        assert(stages.take(j + 1).drop_first() =~= stages.drop_first().take(j));
    }
}

/// Idempotence: after a full run that did not fail, running the full
/// pipeline again over the resulting state changes no artifact, fails
/// nowhere, and reports every document of every stage as skipped.
pub proof fn lemma_full_run_idempotent(
    fs: FsView,
    docs: Seq<Seq<char>>,
    out_dir: Seq<char>,
    prov: ProvidersView,
)
    requires
        spec_run_stages(fs, docs, out_dir, prov, spec_stage_list(RunMode::Full)).failure is None,
    ensures
        ({
            let r1 = spec_run_stages(fs, docs, out_dir, prov, spec_stage_list(RunMode::Full));
            let r2 = spec_run_stages(r1.fs, docs, out_dir, prov, spec_stage_list(RunMode::Full));
            r2.fs == r1.fs && r2.failure is None && r2.reports.len() == 4 && forall|j: int|
                0 <= j < 4 ==> (#[trigger] r2.reports[j]).processed == 0 && r2.reports[j].skipped
                    == docs.len() && r2.reports[j].blocked == 0
        }),
{
    let stages = spec_stage_list(RunMode::Full);
    let r1 = spec_run_stages(fs, docs, out_dir, prov, stages);
    // Unfold the first run, one stage at a time; none of the four failed.
    let st1 = spec_run_stage(fs, docs, out_dir, prov, Stage::Transcript);
    assert(stages[0] == Stage::Transcript);
    assert(!(st1.failure is Some));
    let tail1 = stages.drop_first();
    assert(tail1 =~= seq![Stage::Narration, Stage::Intro, Stage::Merge]);
    let r1b = spec_run_stages(st1.fs, docs, out_dir, prov, tail1);
    assert(r1.failure == r1b.failure && r1.fs == r1b.fs);
    let st2 = spec_run_stage(st1.fs, docs, out_dir, prov, Stage::Narration);
    assert(tail1[0] == Stage::Narration);
    assert(!(st2.failure is Some));
    let tail2 = tail1.drop_first();
    assert(tail2 =~= seq![Stage::Intro, Stage::Merge]);
    let r1c = spec_run_stages(st2.fs, docs, out_dir, prov, tail2);
    assert(r1b.failure == r1c.failure && r1b.fs == r1c.fs);
    let st3 = spec_run_stage(st2.fs, docs, out_dir, prov, Stage::Intro);
    assert(tail2[0] == Stage::Intro);
    assert(!(st3.failure is Some));
    let tail3 = tail2.drop_first();
    assert(tail3 =~= seq![Stage::Merge]);
    let r1d = spec_run_stages(st3.fs, docs, out_dir, prov, tail3);
    assert(r1c.failure == r1d.failure && r1c.fs == r1d.fs);
    let st4 = spec_run_stage(st3.fs, docs, out_dir, prov, Stage::Merge);
    assert(tail3[0] == Stage::Merge);
    assert(!(st4.failure is Some));
    let tail4 = tail3.drop_first();
    assert(tail4 =~= Seq::<Stage>::empty());
    let r1e = spec_run_stages(st4.fs, docs, out_dir, prov, tail4);
    assert(r1d.failure == r1e.failure && r1d.fs == r1e.fs);
    assert(r1e.fs == st4.fs);
    assert(r1.fs == st4.fs);
    // Transcript has no upstream artifact, so nothing blocked; its outputs
    // exist afterwards for every document.
    lemma_stage_no_block(fs, docs, out_dir, prov, Stage::Transcript);
    lemma_stage_success_outputs(fs, docs, out_dir, prov, Stage::Transcript);
    // Narration's dependency is the transcript, present for every document.
    assert forall|i: int| 0 <= i < docs.len() implies deps_exist(
        st1.fs,
        #[trigger] docs[i],
        out_dir,
        Stage::Narration,
    ) by {
        assert(outputs_exist(st1.fs, docs[i], out_dir, Stage::Transcript));
    }
    lemma_stage_no_block(st1.fs, docs, out_dir, prov, Stage::Narration);
    lemma_stage_success_outputs(st1.fs, docs, out_dir, prov, Stage::Narration);
    lemma_stage_dom_monotone(st1.fs, docs, out_dir, prov, Stage::Narration);
    // Intro has no upstream artifact.
    lemma_stage_no_block(st2.fs, docs, out_dir, prov, Stage::Intro);
    lemma_stage_success_outputs(st2.fs, docs, out_dir, prov, Stage::Intro);
    lemma_stage_dom_monotone(st2.fs, docs, out_dir, prov, Stage::Intro);
    // Merge's dependencies are the two audio artifacts, present by now.
    assert forall|i: int| 0 <= i < docs.len() implies deps_exist(
        st3.fs,
        #[trigger] docs[i],
        out_dir,
        Stage::Merge,
    ) by {
        assert(outputs_exist(st2.fs, docs[i], out_dir, Stage::Narration));
        assert(st2.fs.dom().contains(doc_artifact(docs[i], out_dir, ArtifactKind::ContentAudio)));
        assert(outputs_exist(st3.fs, docs[i], out_dir, Stage::Intro));
    }
    lemma_stage_no_block(st3.fs, docs, out_dir, prov, Stage::Merge);
    lemma_stage_success_outputs(st3.fs, docs, out_dir, prov, Stage::Merge);
    lemma_stage_dom_monotone(st3.fs, docs, out_dir, prov, Stage::Merge);
    // Every output of every stage persists into the final state.
    assert forall|i: int| 0 <= i < docs.len() implies valid_chapter_id(#[trigger] docs[i])
        && outputs_exist(r1.fs, docs[i], out_dir, Stage::Transcript) && outputs_exist(
        r1.fs,
        docs[i],
        out_dir,
        Stage::Narration,
    ) && outputs_exist(r1.fs, docs[i], out_dir, Stage::Intro) && outputs_exist(
        r1.fs,
        docs[i],
        out_dir,
        Stage::Merge,
    ) by {
        assert(outputs_exist(st1.fs, docs[i], out_dir, Stage::Transcript));
        assert(st1.fs.dom().contains(doc_artifact(docs[i], out_dir, ArtifactKind::Transcript)));
        assert(outputs_exist(st2.fs, docs[i], out_dir, Stage::Narration));
        assert(st2.fs.dom().contains(doc_artifact(docs[i], out_dir, ArtifactKind::ContentAudio)));
        assert(outputs_exist(st3.fs, docs[i], out_dir, Stage::Intro));
        assert(st3.fs.dom().contains(doc_artifact(docs[i], out_dir, ArtifactKind::IntroText)));
        assert(st3.fs.dom().contains(doc_artifact(docs[i], out_dir, ArtifactKind::IntroAudio)));
        assert(outputs_exist(st4.fs, docs[i], out_dir, Stage::Merge));
    }
    // The second run skips everything, stage by stage, leaving the state
    // untouched.
    lemma_stage_all_skip(r1.fs, docs, out_dir, prov, Stage::Transcript);
    lemma_stage_all_skip(r1.fs, docs, out_dir, prov, Stage::Narration);
    lemma_stage_all_skip(r1.fs, docs, out_dir, prov, Stage::Intro);
    lemma_stage_all_skip(r1.fs, docs, out_dir, prov, Stage::Merge);
    let r2 = spec_run_stages(r1.fs, docs, out_dir, prov, stages);
    let r2b = spec_run_stages(r1.fs, docs, out_dir, prov, tail1);
    let r2c = spec_run_stages(r1.fs, docs, out_dir, prov, tail2);
    let r2d = spec_run_stages(r1.fs, docs, out_dir, prov, tail3);
    let r2e = spec_run_stages(r1.fs, docs, out_dir, prov, tail4);
    let skip_counts = |st: Stage| StageCounts {
        stage: st,
        processed: 0nat,
        skipped: docs.len(),
        blocked: 0nat,
    };
    assert(r2e == (SpecRun { fs: r1.fs, reports: Seq::<StageCounts>::empty(), failure: None::<
        PipelineError,
    > }));
    assert(r2d.fs == r1.fs && r2d.failure is None && r2d.reports == seq![
        skip_counts(Stage::Merge),
    ] + r2e.reports);
    assert(r2c.fs == r1.fs && r2c.failure is None && r2c.reports == seq![
        skip_counts(Stage::Intro),
    ] + r2d.reports);
    assert(r2b.fs == r1.fs && r2b.failure is None && r2b.reports == seq![
        skip_counts(Stage::Narration),
    ] + r2c.reports);
    assert(r2.fs == r1.fs && r2.failure is None && r2.reports == seq![
        skip_counts(Stage::Transcript),
    ] + r2b.reports);
    assert(r2.reports =~= seq![
        skip_counts(Stage::Transcript),
        skip_counts(Stage::Narration),
        skip_counts(Stage::Intro),
        skip_counts(Stage::Merge),
    ]);
    assert forall|j: int| 0 <= j < 4 implies (#[trigger] r2.reports[j]).processed == 0
        && r2.reports[j].skipped == docs.len() && r2.reports[j].blocked == 0 by {
        if j == 0 {
            assert(r2.reports[0] == skip_counts(Stage::Transcript));
        } else if j == 1 {
            assert(r2.reports[1] == skip_counts(Stage::Narration));
        } else if j == 2 {
            assert(r2.reports[2] == skip_counts(Stage::Intro));
        } else {
            assert(r2.reports[3] == skip_counts(Stage::Merge));
        }
    }
}

} // verus!
