//! The pipeline orchestrator. `spec_step`, `spec_run_stage` and
//! `spec_run_stages` are the mathematical model of one (document, stage)
//! transition, one stage over a document set, and a whole run; the exec
//! functions implement exactly that model over the filesystem model and the
//! scripted collaborators. A driver doing real I/O takes its decisions from
//! the same path functions and `decide_step`.

use crate::artifacts::{artifact_path, spec_artifact_path, ArtifactKind, Stage};
use crate::fsmodel::{concat_bytes, read_audio, read_text, FileData, FileDataView, FsModel};
use crate::ids::{chapter_id, parent_dir, spec_chapter_id, spec_parent_dir, valid_chapter_id};
use crate::providers::{ProvidersView, ScriptedProviders};
use crate::truncate::{spec_truncate, truncate_content};
use crate::PipelineError;
use vstd::prelude::*;
use vstd::string::StringExecFns;

verus! {

/// The contents of a filesystem, as the model sees it.
pub type FsView = Map<Seq<char>, FileDataView>;

/// What became of one (document, stage) pair: the stage's outputs were
/// already present, its upstream artifacts are still missing, its executor
/// ran, or it failed (which aborts the whole run).
#[derive(Clone, Copy, Debug, PartialEq, Eq, Structural)]
pub enum StepStatus {
    Skipped,
    Blocked,
    Done,
    Failed(PipelineError),
}

/// The scope of one invocation: one stage, or all four in declared order.
#[derive(Clone, Copy, Debug, PartialEq, Eq, Structural)]
pub enum RunMode {
    Single(Stage),
    Full,
}

/// One invocation's immutable plan: the documents to process, the output
/// directory for audio artifacts, and the selected mode.
pub struct RunPlan {
    pub docs: Vec<String>,
    pub out_dir: String,
    pub mode: RunMode,
}

/// What the orchestrator decides for one (document, stage) pair before any
/// executor runs: skip it, leave it blocked, or execute it.
#[derive(Clone, Copy, Debug, PartialEq, Eq, Structural)]
pub enum StepDecision {
    Skip,
    Blocked,
    Execute,
}

/// The transition rule of the orchestrator: existing outputs are never
/// regenerated; missing dependencies block a document without failing the
/// run; otherwise the stage executes.
pub fn decide_step(outputs_exist: bool, deps_exist: bool) -> (d: StepDecision)
    ensures
        d == (if outputs_exist {
            StepDecision::Skip
        } else if !deps_exist {
            StepDecision::Blocked
        } else {
            StepDecision::Execute
        }),
{
    if outputs_exist {
        StepDecision::Skip
    } else if !deps_exist {
        StepDecision::Blocked
    } else {
        StepDecision::Execute
    }
}

/// The fixed intro script of a chapter.
pub open spec fn spec_intro_text(id: Seq<char>) -> Seq<char> {
    ("Chapter ")@ + id + (". About ")@ + id + (".")@
}

/// Builds the fixed intro script of a chapter.
pub fn intro_text(id: &str) -> (r: String)
    ensures
        r@ == spec_intro_text(id@),
{
    let mut s = String::from_str("Chapter ");
    s.append(id);
    s.append(". About ");
    s.append(id);
    s.append(".");
    s
}

/// The intro file placed beside a document, with its contents. Fails with
/// `InvalidIdentifier` exactly when the path yields no chapter identifier.
pub fn generate_intro(file_path: &str) -> (r: Result<(String, String), PipelineError>)
    ensures
        match r {
            Ok(p) => valid_chapter_id(file_path@) && p.0@ == spec_artifact_path(
                spec_chapter_id(file_path@),
                ArtifactKind::IntroText,
                spec_parent_dir(file_path@),
                spec_parent_dir(file_path@),
            ) && p.1@ == spec_intro_text(spec_chapter_id(file_path@)),
            Err(e) => e == PipelineError::InvalidIdentifier && !valid_chapter_id(file_path@),
        },
{
    let id = match chapter_id(file_path) {
        Ok(id) => id,
        Err(e) => {
            return Err(e);
        },
    };
    let dir = parent_dir(file_path);
    let path = artifact_path(id.as_str(), ArtifactKind::IntroText, dir.as_str(), dir.as_str());
    let content = intro_text(id.as_str());
    Ok((path, content))
}

/// The artifact of `kind` for the document at `doc`, with text artifacts
/// beside the document and audio artifacts under `out_dir`.
pub open spec fn doc_artifact(doc: Seq<char>, out_dir: Seq<char>, kind: ArtifactKind) -> Seq<char> {
    spec_artifact_path(spec_chapter_id(doc), kind, spec_parent_dir(doc), out_dir)
}

/// The text inside a file, empty for audio.
pub open spec fn text_of(d: FileDataView) -> Seq<char> {
    match d {
        FileDataView::Text(s) => s,
        FileDataView::Audio(_) => Seq::<char>::empty(),
    }
}

/// The bytes inside a file, empty for text.
pub open spec fn audio_of(d: FileDataView) -> Seq<u8> {
    match d {
        FileDataView::Text(_) => Seq::<u8>::empty(),
        FileDataView::Audio(b) => b,
    }
}

/// The model of one (document, stage) transition: the filesystem afterwards
/// and the step's status.
#[verifier::ext_equal]
pub struct SpecStep {
    pub fs: FsView,
    pub status: StepStatus,
}

/// What one (document, stage) pair does to the filesystem, per the
/// orchestrator's transition rule and the stage executors.
pub open spec fn spec_step(
    fs: FsView,
    doc: Seq<char>,
    out_dir: Seq<char>,
    prov: ProvidersView,
    stage: Stage,
) -> SpecStep {
    if !valid_chapter_id(doc) {
        SpecStep { fs, status: StepStatus::Failed(PipelineError::InvalidIdentifier) }
    } else {
        match stage {
            Stage::Transcript => {
                let out = doc_artifact(doc, out_dir, ArtifactKind::Transcript);
                if fs.dom().contains(out) {
                    SpecStep { fs, status: StepStatus::Skipped }
                } else if !fs.dom().contains(doc) || !(fs[doc] is Text) {
                    SpecStep { fs, status: StepStatus::Failed(PipelineError::IoError) }
                } else {
                    let input = spec_truncate(text_of(fs[doc]));
                    if prov.transcripts.dom().contains(input) {
                        SpecStep {
                            fs: fs.insert(out, FileDataView::Text(prov.transcripts[input])),
                            status: StepStatus::Done,
                        }
                    } else {
                        SpecStep { fs, status: StepStatus::Failed(PipelineError::ProviderError) }
                    }
                }
            },
            Stage::Narration => {
                let conv = doc_artifact(doc, out_dir, ArtifactKind::Transcript);
                let audio = doc_artifact(doc, out_dir, ArtifactKind::ContentAudio);
                if fs.dom().contains(audio) {
                    SpecStep { fs, status: StepStatus::Skipped }
                } else if !fs.dom().contains(conv) {
                    SpecStep { fs, status: StepStatus::Blocked }
                } else if !(fs[conv] is Text) {
                    SpecStep { fs, status: StepStatus::Failed(PipelineError::IoError) }
                } else {
                    let input = text_of(fs[conv]);
                    if prov.narrations.dom().contains(input) {
                        SpecStep {
                            fs: fs.insert(audio, FileDataView::Audio(prov.narrations[input])),
                            status: StepStatus::Done,
                        }
                    } else {
                        SpecStep { fs, status: StepStatus::Failed(PipelineError::ProviderError) }
                    }
                }
            },
            Stage::Intro => {
                let text_p = doc_artifact(doc, out_dir, ArtifactKind::IntroText);
                let audio_p = doc_artifact(doc, out_dir, ArtifactKind::IntroAudio);
                if fs.dom().contains(text_p) && fs.dom().contains(audio_p) {
                    SpecStep { fs, status: StepStatus::Skipped }
                } else {
                    let content = spec_intro_text(spec_chapter_id(doc));
                    if prov.narrations.dom().contains(content) {
                        SpecStep {
                            fs: fs.insert(text_p, FileDataView::Text(content)).insert(
                                audio_p,
                                FileDataView::Audio(prov.narrations[content]),
                            ),
                            status: StepStatus::Done,
                        }
                    } else {
                        SpecStep {
                            fs: fs.insert(text_p, FileDataView::Text(content)),
                            status: StepStatus::Failed(PipelineError::ProviderError),
                        }
                    }
                }
            },
            Stage::Merge => {
                let merged = doc_artifact(doc, out_dir, ArtifactKind::MergedAudio);
                let intro_a = doc_artifact(doc, out_dir, ArtifactKind::IntroAudio);
                let content_a = doc_artifact(doc, out_dir, ArtifactKind::ContentAudio);
                if fs.dom().contains(merged) {
                    SpecStep { fs, status: StepStatus::Skipped }
                } else if !fs.dom().contains(intro_a) || !fs.dom().contains(content_a) {
                    SpecStep { fs, status: StepStatus::Blocked }
                } else if !(fs[intro_a] is Audio) || !(fs[content_a] is Audio) {
                    SpecStep { fs, status: StepStatus::Failed(PipelineError::IoError) }
                } else if prov.concat_failures.contains(merged) {
                    SpecStep { fs, status: StepStatus::Failed(PipelineError::ExternalToolError) }
                } else {
                    SpecStep {
                        fs: fs.insert(
                            merged,
                            FileDataView::Audio(audio_of(fs[intro_a]) + audio_of(fs[content_a])),
                        ),
                        status: StepStatus::Done,
                    }
                }
            },
        }
    }
}

/// The transcript executor: hands the (already truncated) document text to
/// the transcript provider and writes the dialogue it returns, verbatim, to
/// `out_path`. Fails with `ProviderError`, and writes nothing, exactly when
/// the provider has no answer for the text.
pub fn execute_transcript(
    fs: &mut FsModel,
    input: &str,
    out_path: &str,
    prov: &ScriptedProviders,
) -> (r: Result<(), PipelineError>)
    requires
        old(fs).wf(),
        prov.wf(),
    ensures
        final(fs).wf(),
        (if prov@.transcripts.dom().contains(input@) {
            r is Ok && final(fs)@ == old(fs)@.insert(
                out_path@,
                FileDataView::Text(prov@.transcripts[input@]),
            )
        } else {
            r == Err::<(), PipelineError>(PipelineError::ProviderError) && final(fs)@ == old(fs)@
        }),
{
    match prov.lookup_transcript(input) {
        Some(t) => {
            fs.insert(out_path, FileData::Text(t));
            Ok(())
        },
        None => Err(PipelineError::ProviderError),
    }
}

/// The narration executor: hands text to the narration provider and writes
/// the audio bytes it returns, verbatim, to `out_path`. Fails with
/// `ProviderError`, and writes nothing, exactly when the provider has no
/// answer for the text.
pub fn execute_narration(
    fs: &mut FsModel,
    input: &str,
    out_path: &str,
    prov: &ScriptedProviders,
) -> (r: Result<(), PipelineError>)
    requires
        old(fs).wf(),
        prov.wf(),
    ensures
        final(fs).wf(),
        (if prov@.narrations.dom().contains(input@) {
            r is Ok && final(fs)@ == old(fs)@.insert(
                out_path@,
                FileDataView::Audio(prov@.narrations[input@]),
            )
        } else {
            r == Err::<(), PipelineError>(PipelineError::ProviderError) && final(fs)@ == old(fs)@
        }),
{
    match prov.lookup_narration(input) {
        Some(b) => {
            fs.insert(out_path, FileData::Audio(b));
            Ok(())
        },
        None => Err(PipelineError::ProviderError),
    }
}

/// The intro executor: synthesizes the fixed intro script for the chapter,
/// writes it to `text_path`, then narrates it to `audio_path`. When the
/// narration provider fails, the script is already on disk and only the
/// audio is missing.
pub fn execute_intro(
    fs: &mut FsModel,
    id: &str,
    text_path: &str,
    audio_path: &str,
    prov: &ScriptedProviders,
) -> (r: Result<(), PipelineError>)
    requires
        old(fs).wf(),
        prov.wf(),
    ensures
        final(fs).wf(),
        ({
            let content = spec_intro_text(id@);
            if prov@.narrations.dom().contains(content) {
                r is Ok && final(fs)@ == old(fs)@.insert(
                    text_path@,
                    FileDataView::Text(content),
                ).insert(audio_path@, FileDataView::Audio(prov@.narrations[content]))
            } else {
                r == Err::<(), PipelineError>(PipelineError::ProviderError) && final(fs)@ == old(
                    fs,
                )@.insert(text_path@, FileDataView::Text(content))
            }
        }),
{
    let content = intro_text(id);
    fs.insert(text_path, FileData::Text(content.clone()));
    match prov.lookup_narration(content.as_str()) {
        Some(b) => {
            fs.insert(audio_path, FileData::Audio(b));
            Ok(())
        },
        None => Err(PipelineError::ProviderError),
    }
}

/// The merge executor: concatenates the audio at `intro_path` and
/// `content_path`, in that order, into `out_path`. Fails with
/// `DependencyMissing` when either input is absent, `IoError` when one is
/// not audio, and `ExternalToolError` when the concatenator fails; it
/// writes nothing in any failing case.
pub fn execute_merge(
    fs: &mut FsModel,
    intro_path: &str,
    content_path: &str,
    out_path: &str,
    prov: &ScriptedProviders,
) -> (r: Result<(), PipelineError>)
    requires
        old(fs).wf(),
        prov.wf(),
    ensures
        final(fs).wf(),
        (if !old(fs)@.dom().contains(intro_path@) || !old(fs)@.dom().contains(content_path@) {
            r == Err::<(), PipelineError>(PipelineError::DependencyMissing) && final(fs)@ == old(
                fs,
            )@
        } else if !(old(fs)@[intro_path@] is Audio) || !(old(fs)@[content_path@] is Audio) {
            r == Err::<(), PipelineError>(PipelineError::IoError) && final(fs)@ == old(fs)@
        } else if prov@.concat_failures.contains(out_path@) {
            r == Err::<(), PipelineError>(PipelineError::ExternalToolError) && final(fs)@ == old(
                fs,
            )@
        } else {
            r is Ok && final(fs)@ == old(fs)@.insert(
                out_path@,
                FileDataView::Audio(
                    audio_of(old(fs)@[intro_path@]) + audio_of(old(fs)@[content_path@]),
                ),
            )
        }),
{
    if !fs.contains_key(intro_path) || !fs.contains_key(content_path) {
        return Err(PipelineError::DependencyMissing);
    }
    let a = match read_audio(fs, intro_path) {
        Some(a) => a,
        None => {
            return Err(PipelineError::IoError);
        },
    };
    let b = match read_audio(fs, content_path) {
        Some(b) => b,
        None => {
            return Err(PipelineError::IoError);
        },
    };
    if prov.concat_fails(out_path) {
        return Err(PipelineError::ExternalToolError);
    }
    fs.insert(out_path, FileData::Audio(concat_bytes(&a, &b)));
    Ok(())
}

/// Runs one (document, stage) pair: checks the stage's outputs and
/// dependencies through the artifact locator, then skips, blocks, or
/// invokes the stage executor — exactly as `spec_step` says.
pub fn run_step(
    fs: &mut FsModel,
    doc: &str,
    out_dir: &str,
    prov: &ScriptedProviders,
    stage: Stage,
) -> (r: StepStatus)
    requires
        old(fs).wf(),
        prov.wf(),
    ensures
        final(fs).wf(),
        final(fs)@ == spec_step(old(fs)@, doc@, out_dir@, prov@, stage).fs,
        r == spec_step(old(fs)@, doc@, out_dir@, prov@, stage).status,
{
    let id = match chapter_id(doc) {
        Ok(id) => id,
        Err(_) => {
            return StepStatus::Failed(PipelineError::InvalidIdentifier);
        },
    };
    let dir = parent_dir(doc);
    match stage {
        Stage::Transcript => {
            let out = artifact_path(id.as_str(), ArtifactKind::Transcript, dir.as_str(), out_dir);
            if fs.contains_key(out.as_str()) {
                return StepStatus::Skipped;
            }
            let content = match read_text(fs, doc) {
                Some(c) => c,
                None => {
                    return StepStatus::Failed(PipelineError::IoError);
                },
            };
            let input = truncate_content(content.as_str());
            match execute_transcript(fs, input.as_str(), out.as_str(), prov) {
                Ok(_) => StepStatus::Done,
                Err(e) => StepStatus::Failed(e),
            }
        },
        Stage::Narration => {
            let conv = artifact_path(id.as_str(), ArtifactKind::Transcript, dir.as_str(), out_dir);
            let audio = artifact_path(
                id.as_str(),
                ArtifactKind::ContentAudio,
                dir.as_str(),
                out_dir,
            );
            if fs.contains_key(audio.as_str()) {
                return StepStatus::Skipped;
            }
            if !fs.contains_key(conv.as_str()) {
                return StepStatus::Blocked;
            }
            let text = match read_text(fs, conv.as_str()) {
                Some(t) => t,
                None => {
                    return StepStatus::Failed(PipelineError::IoError);
                },
            };
            match execute_narration(fs, text.as_str(), audio.as_str(), prov) {
                Ok(_) => StepStatus::Done,
                Err(e) => StepStatus::Failed(e),
            }
        },
        Stage::Intro => {
            let text_p = artifact_path(id.as_str(), ArtifactKind::IntroText, dir.as_str(), out_dir);
            let audio_p = artifact_path(
                id.as_str(),
                ArtifactKind::IntroAudio,
                dir.as_str(),
                out_dir,
            );
            if fs.contains_key(text_p.as_str()) && fs.contains_key(audio_p.as_str()) {
                return StepStatus::Skipped;
            }
            match execute_intro(fs, id.as_str(), text_p.as_str(), audio_p.as_str(), prov) {
                Ok(_) => StepStatus::Done,
                Err(e) => StepStatus::Failed(e),
            }
        },
        Stage::Merge => {
            let merged = artifact_path(
                id.as_str(),
                ArtifactKind::MergedAudio,
                dir.as_str(),
                out_dir,
            );
            let intro_a = artifact_path(
                id.as_str(),
                ArtifactKind::IntroAudio,
                dir.as_str(),
                out_dir,
            );
            let content_a = artifact_path(
                id.as_str(),
                ArtifactKind::ContentAudio,
                dir.as_str(),
                out_dir,
            );
            if fs.contains_key(merged.as_str()) {
                return StepStatus::Skipped;
            }
            if !fs.contains_key(intro_a.as_str()) || !fs.contains_key(content_a.as_str()) {
                return StepStatus::Blocked;
            }
            match execute_merge(
                fs,
                intro_a.as_str(),
                content_a.as_str(),
                merged.as_str(),
                prov,
            ) {
                Ok(_) => StepStatus::Done,
                Err(e) => StepStatus::Failed(e),
            }
        },
    }
}

/// The model of one stage over a document set: counts by outcome and the
/// failure, if any, that aborted the stage.
#[verifier::ext_equal]
pub struct SpecStageRun {
    pub fs: FsView,
    pub processed: nat,
    pub skipped: nat,
    pub blocked: nat,
    pub failure: Option<PipelineError>,
}

/// One stage over the documents in order, stopping at the first failure;
/// skipped and blocked documents do not stop it.
pub open spec fn spec_run_stage(
    fs: FsView,
    docs: Seq<Seq<char>>,
    out_dir: Seq<char>,
    prov: ProvidersView,
    stage: Stage,
) -> SpecStageRun
    decreases docs.len(),
{
    if docs.len() == 0 {
        SpecStageRun { fs, processed: 0, skipped: 0, blocked: 0, failure: None }
    } else {
        let s = spec_step(fs, docs[0], out_dir, prov, stage);
        match s.status {
            StepStatus::Failed(e) => SpecStageRun {
                fs: s.fs,
                processed: 0,
                skipped: 0,
                blocked: 0,
                failure: Some(e),
            },
            _ => {
                let rest = spec_run_stage(s.fs, docs.drop_first(), out_dir, prov, stage);
                SpecStageRun {
                    fs: rest.fs,
                    processed: rest.processed + (if s.status == StepStatus::Done {
                        1nat
                    } else {
                        0nat
                    }),
                    skipped: rest.skipped + (if s.status == StepStatus::Skipped {
                        1nat
                    } else {
                        0nat
                    }),
                    blocked: rest.blocked + (if s.status == StepStatus::Blocked {
                        1nat
                    } else {
                        0nat
                    }),
                    failure: rest.failure,
                }
            },
        }
    }
}

/// What one stage reported: counts by outcome, and the failure that aborted
/// it, if any.
#[derive(Clone, Copy, Debug, PartialEq, Eq, Structural)]
pub struct StageOutcome {
    pub processed: usize,
    pub skipped: usize,
    pub blocked: usize,
    pub failure: Option<PipelineError>,
}

/// Runs one stage across the documents, in order, stopping at the first
/// failure — exactly as `spec_run_stage` says.
pub fn run_stage(
    fs: &mut FsModel,
    docs: &Vec<String>,
    out_dir: &str,
    prov: &ScriptedProviders,
    stage: Stage,
) -> (r: StageOutcome)
    requires
        old(fs).wf(),
        prov.wf(),
    ensures
        final(fs).wf(),
        ({
            let s = spec_run_stage(old(fs)@, docs.deep_view(), out_dir@, prov@, stage);
            final(fs)@ == s.fs && r.processed == s.processed && r.skipped == s.skipped
                && r.blocked == s.blocked && r.failure == s.failure
        }),
{
    let ghost dv = docs.deep_view();
    let ghost full = spec_run_stage(old(fs)@, dv, out_dir@, prov@, stage);
    let mut processed: usize = 0;
    let mut skipped: usize = 0;
    let mut blocked: usize = 0;
    let mut i: usize = 0;
    proof {
        assert(dv.skip(0) =~= dv);
    }
    while i < docs.len()
        invariant
            fs.wf(),
            prov.wf(),
            dv == docs.deep_view(),
            dv.len() == docs@.len(),
            i <= docs@.len(),
            processed + skipped + blocked <= i,
            full == spec_run_stage(old(fs)@, dv, out_dir@, prov@, stage),
            ({
                let sub = spec_run_stage(fs@, dv.skip(i as int), out_dir@, prov@, stage);
                full.fs == sub.fs && full.processed == processed + sub.processed && full.skipped
                    == skipped + sub.skipped && full.blocked == blocked + sub.blocked
                    && full.failure == sub.failure
            }),
        decreases docs@.len() - i,
    {
        let ghost fs_pre = fs@;
        let status = run_step(fs, docs[i].as_str(), out_dir, prov, stage);
        proof {
            assert(docs@[i as int].deep_view() == dv[i as int]);
            assert(dv.skip(i as int)[0] == dv[i as int]);
            assert(dv.skip(i as int).drop_first() =~= dv.skip(i + 1));
        }
        match status {
            StepStatus::Failed(e) => {
                return StageOutcome { processed, skipped, blocked, failure: Some(e) };
            },
            StepStatus::Done => {
                processed = processed + 1;
            },
            StepStatus::Skipped => {
                skipped = skipped + 1;
            },
            StepStatus::Blocked => {
                blocked = blocked + 1;
            },
        }
        i = i + 1;
    }
    proof {
        assert(dv.skip(i as int).len() == 0);
    }
    StageOutcome { processed, skipped, blocked, failure: None }
}

/// The counts one stage contributed to a run report.
#[verifier::ext_equal]
pub struct StageCounts {
    pub stage: Stage,
    pub processed: nat,
    pub skipped: nat,
    pub blocked: nat,
}

/// The model of a whole run: the filesystem afterwards, one report entry
/// per stage that ran, and the failure that aborted the run, if any.
#[verifier::ext_equal]
pub struct SpecRun {
    pub fs: FsView,
    pub reports: Seq<StageCounts>,
    pub failure: Option<PipelineError>,
}

/// The stage sequence of a run mode: all four in declared order, or one.
pub open spec fn spec_stage_list(mode: RunMode) -> Seq<Stage> {
    match mode {
        RunMode::Full => seq![Stage::Transcript, Stage::Narration, Stage::Intro, Stage::Merge],
        RunMode::Single(s) => seq![s],
    }
}

/// The given stages in order, each completing over the whole document set
/// before the next begins; a failed stage aborts the run at once.
pub open spec fn spec_run_stages(
    fs: FsView,
    docs: Seq<Seq<char>>,
    out_dir: Seq<char>,
    prov: ProvidersView,
    stages: Seq<Stage>,
) -> SpecRun
    decreases stages.len(),
{
    if stages.len() == 0 {
        SpecRun { fs, reports: Seq::empty(), failure: None }
    } else {
        let st = spec_run_stage(fs, docs, out_dir, prov, stages[0]);
        let counts = StageCounts {
            stage: stages[0],
            processed: st.processed,
            skipped: st.skipped,
            blocked: st.blocked,
        };
        match st.failure {
            Some(e) => SpecRun { fs: st.fs, reports: seq![counts], failure: Some(e) },
            None => {
                let rest = spec_run_stages(st.fs, docs, out_dir, prov, stages.drop_first());
                SpecRun {
                    fs: rest.fs,
                    reports: seq![counts] + rest.reports,
                    failure: rest.failure,
                }
            },
        }
    }
}

/// The stage sequence of a run mode.
pub fn stage_list(mode: RunMode) -> (v: Vec<Stage>)
    ensures
        v@ == spec_stage_list(mode),
{
    let mut v: Vec<Stage> = Vec::new();
    match mode {
        RunMode::Full => {
            v.push(Stage::Transcript);
            v.push(Stage::Narration);
            v.push(Stage::Intro);
            v.push(Stage::Merge);
        },
        RunMode::Single(s) => {
            v.push(s);
        },
    }
    proof {
        assert(v@ =~= spec_stage_list(mode));
    }
    v
}

/// What one stage reported, as the run report records it.
#[derive(Clone, Copy, Debug, PartialEq, Eq, Structural)]
pub struct StageReport {
    pub stage: Stage,
    pub processed: usize,
    pub skipped: usize,
    pub blocked: usize,
}

/// A whole run's report: one entry per stage that ran, and the failure that
/// aborted the run, if any. Ephemeral: emitted at the end of a run, never
/// persisted.
pub struct RunReport {
    pub stages: Vec<StageReport>,
    pub failure: Option<PipelineError>,
}

/// The counts a report entry stands for.
pub open spec fn report_counts(r: StageReport) -> StageCounts {
    StageCounts {
        stage: r.stage,
        processed: r.processed as nat,
        skipped: r.skipped as nat,
        blocked: r.blocked as nat,
    }
}

/// The counts a sequence of report entries stands for.
pub open spec fn counts_of_reports(s: Seq<StageReport>) -> Seq<StageCounts> {
    s.map_values(|x: StageReport| report_counts(x))
}

/// The whole report, as the model sees it.
pub open spec fn report_view(r: RunReport) -> Seq<StageCounts> {
    counts_of_reports(r.stages@)
}

/// Runs a whole plan over the filesystem model: the stages of the selected
/// mode, in order, each across the whole document set, skipping existing
/// artifacts, blocking on missing dependencies, and aborting at the first
/// failure — exactly as `spec_run_stages` says.
pub fn run_pipeline(plan: &RunPlan, fs: &mut FsModel, prov: &ScriptedProviders) -> (r: RunReport)
    requires
        old(fs).wf(),
        prov.wf(),
    ensures
        final(fs).wf(),
        ({
            let s = spec_run_stages(
                old(fs)@,
                plan.docs.deep_view(),
                plan.out_dir@,
                prov@,
                spec_stage_list(plan.mode),
            );
            final(fs)@ == s.fs && report_view(r) == s.reports && r.failure == s.failure
        }),
{
    let stages = stage_list(plan.mode);
    let ghost dv = plan.docs.deep_view();
    let ghost sv = stages@;
    let ghost full = spec_run_stages(old(fs)@, dv, plan.out_dir@, prov@, sv);
    let mut reports: Vec<StageReport> = Vec::new();
    let mut j: usize = 0;
    proof {
        assert(sv.skip(0) =~= sv);
        assert(counts_of_reports(reports@) =~= Seq::<StageCounts>::empty());
    }
    while j < stages.len()
        invariant
            fs.wf(),
            prov.wf(),
            sv == stages@,
            sv == spec_stage_list(plan.mode),
            dv == plan.docs.deep_view(),
            j <= sv.len(),
            full == spec_run_stages(old(fs)@, dv, plan.out_dir@, prov@, sv),
            ({
                let sub = spec_run_stages(fs@, dv, plan.out_dir@, prov@, sv.skip(j as int));
                full.fs == sub.fs && full.reports == counts_of_reports(reports@) + sub.reports
                    && full.failure == sub.failure
            }),
        decreases sv.len() - j,
    {
        let ghost reports_pre = reports@;
        let out = run_stage(fs, &plan.docs, plan.out_dir.as_str(), prov, stages[j]);
        proof {
            assert(sv.skip(j as int)[0] == sv[j as int]);
            assert(sv.skip(j as int).drop_first() =~= sv.skip(j + 1));
        }
        let rep = StageReport {
            stage: stages[j],
            processed: out.processed,
            skipped: out.skipped,
            blocked: out.blocked,
        };
        reports.push(rep);
        proof {
            assert(counts_of_reports(reports@) =~= counts_of_reports(reports_pre).push(
                report_counts(rep),
            ));
        }
        match out.failure {
            Some(e) => {
                proof {
                    assert(counts_of_reports(reports_pre).push(report_counts(rep))
                        =~= counts_of_reports(reports_pre) + seq![report_counts(rep)]);
                }
                return RunReport { stages: reports, failure: Some(e) };
            },
            None => {},
        }
        j = j + 1;
    }
    proof {
        assert(sv.skip(j as int).len() == 0);
    }
    RunReport { stages: reports, failure: None }
}

} // verus!
