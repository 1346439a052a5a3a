use markdown_to_audio::artifacts::Stage;
use markdown_to_audio::fsmodel::{read_audio, read_text, FileData, FsModel};
use markdown_to_audio::pipeline::{
    decide_step, execute_merge, run_pipeline, run_step, RunMode, RunPlan, StepDecision, StepStatus,
};
use markdown_to_audio::providers::ScriptedProviders;
use markdown_to_audio::PipelineError;

fn doc_text(c: char, n: usize) -> String {
    let mut s = String::new();
    for _ in 0..n {
        s.push(c);
    }
    s
}

/// Two 500-character documents in `docs/`, with providers scripted for
/// every call a full run makes.
fn two_document_setup() -> (RunPlan, FsModel, ScriptedProviders) {
    let plan = RunPlan {
        docs: vec!["docs/a.md".to_string(), "docs/b.md".to_string()],
        out_dir: "out".to_string(),
        mode: RunMode::Full,
    };
    let mut fs = FsModel::new();
    fs.insert("docs/a.md", FileData::Text(doc_text('a', 500)));
    fs.insert("docs/b.md", FileData::Text(doc_text('b', 500)));
    let mut prov = ScriptedProviders::new();
    prov.add_transcript(&doc_text('a', 500), "dialogue about a");
    prov.add_transcript(&doc_text('b', 500), "dialogue about b");
    prov.add_narration("dialogue about a", vec![1, 2]);
    prov.add_narration("dialogue about b", vec![3, 4]);
    prov.add_narration("Chapter a. About a.", vec![5]);
    prov.add_narration("Chapter b. About b.", vec![6]);
    (plan, fs, prov)
}

#[test]
fn full_run_produces_every_artifact() {
    let (plan, mut fs, prov) = two_document_setup();
    let report = run_pipeline(&plan, &mut fs, &prov);
    assert!(report.failure.is_none());
    assert_eq!(report.stages.len(), 4);
    for stage in &report.stages {
        assert_eq!(stage.processed, 2);
        assert_eq!(stage.skipped, 0);
        assert_eq!(stage.blocked, 0);
    }
    assert_eq!(read_text(&fs, "docs/a.conversation.txt").unwrap(), "dialogue about a");
    assert_eq!(read_text(&fs, "docs/b.conversation.txt").unwrap(), "dialogue about b");
    assert_eq!(read_audio(&fs, "out/a.mp3").unwrap(), vec![1, 2]);
    assert_eq!(read_audio(&fs, "out/b.mp3").unwrap(), vec![3, 4]);
    assert_eq!(read_text(&fs, "docs/intro_a.txt").unwrap(), "Chapter a. About a.");
    assert_eq!(read_text(&fs, "docs/intro_b.txt").unwrap(), "Chapter b. About b.");
    assert_eq!(read_audio(&fs, "out/intro_a.mp3").unwrap(), vec![5]);
    assert_eq!(read_audio(&fs, "out/intro_b.mp3").unwrap(), vec![6]);
    assert_eq!(read_audio(&fs, "out/chapter_a.mp3").unwrap(), vec![5, 1, 2]);
    assert_eq!(read_audio(&fs, "out/chapter_b.mp3").unwrap(), vec![6, 3, 4]);
}

#[test]
fn second_full_run_skips_everything_and_changes_nothing() {
    let (plan, mut fs, prov) = two_document_setup();
    let first = run_pipeline(&plan, &mut fs, &prov);
    assert!(first.failure.is_none());
    let second = run_pipeline(&plan, &mut fs, &prov);
    assert!(second.failure.is_none());
    assert_eq!(second.stages.len(), 4);
    for stage in &second.stages {
        assert_eq!(stage.processed, 0);
        assert_eq!(stage.skipped, 2);
        assert_eq!(stage.blocked, 0);
    }
    assert_eq!(read_text(&fs, "docs/a.conversation.txt").unwrap(), "dialogue about a");
    assert_eq!(read_audio(&fs, "out/chapter_a.mp3").unwrap(), vec![5, 1, 2]);
    assert_eq!(read_audio(&fs, "out/chapter_b.mp3").unwrap(), vec![6, 3, 4]);
}

#[test]
fn deleting_one_artifact_reruns_only_that_stage() {
    let (plan, mut fs, prov) = two_document_setup();
    run_pipeline(&plan, &mut fs, &prov);
    // A fresh state standing for the run after `out/a.mp3` was deleted.
    let mut fs2 = FsModel::new();
    fs2.insert("docs/a.md", FileData::Text(doc_text('a', 500)));
    fs2.insert("docs/b.md", FileData::Text(doc_text('b', 500)));
    let conv_a = read_text(&fs, "docs/a.conversation.txt").unwrap();
    let conv_b = read_text(&fs, "docs/b.conversation.txt").unwrap();
    fs2.insert("docs/a.conversation.txt", FileData::Text(conv_a));
    fs2.insert("docs/b.conversation.txt", FileData::Text(conv_b));
    fs2.insert("out/b.mp3", FileData::Audio(read_audio(&fs, "out/b.mp3").unwrap()));
    let mut narration_only = plan;
    narration_only.mode = RunMode::Single(Stage::Narration);
    let report = run_pipeline(&narration_only, &mut fs2, &prov);
    assert!(report.failure.is_none());
    assert_eq!(report.stages.len(), 1);
    assert_eq!(report.stages[0].processed, 1);
    assert_eq!(report.stages[0].skipped, 1);
    assert_eq!(read_audio(&fs2, "out/a.mp3").unwrap(), vec![1, 2]);
}

#[test]
fn merge_without_dependencies_blocks_and_continues() {
    let plan = RunPlan {
        docs: vec!["docs/a.md".to_string(), "docs/b.md".to_string()],
        out_dir: "out".to_string(),
        mode: RunMode::Single(Stage::Merge),
    };
    let mut fs = FsModel::new();
    fs.insert("docs/a.md", FileData::Text(doc_text('a', 10)));
    fs.insert("docs/b.md", FileData::Text(doc_text('b', 10)));
    // Only b has both audio artifacts; a has neither, yet the stage must
    // go on to b rather than abort.
    fs.insert("out/intro_b.mp3", FileData::Audio(vec![6]));
    fs.insert("out/b.mp3", FileData::Audio(vec![3, 4]));
    let prov = ScriptedProviders::new();
    let report = run_pipeline(&plan, &mut fs, &prov);
    assert!(report.failure.is_none());
    assert_eq!(report.stages.len(), 1);
    assert_eq!(report.stages[0].blocked, 1);
    assert_eq!(report.stages[0].processed, 1);
    assert!(!fs.contains_key("out/chapter_a.mp3"));
    assert_eq!(read_audio(&fs, "out/chapter_b.mp3").unwrap(), vec![6, 3, 4]);
}

#[test]
fn narration_failure_aborts_before_later_documents_and_stages() {
    let plan = RunPlan {
        docs: vec![
            "docs/a.md".to_string(),
            "docs/b.md".to_string(),
            "docs/c.md".to_string(),
        ],
        out_dir: "out".to_string(),
        mode: RunMode::Full,
    };
    let mut fs = FsModel::new();
    fs.insert("docs/a.md", FileData::Text(doc_text('a', 100)));
    fs.insert("docs/b.md", FileData::Text(doc_text('b', 100)));
    fs.insert("docs/c.md", FileData::Text(doc_text('c', 100)));
    let mut prov = ScriptedProviders::new();
    prov.add_transcript(&doc_text('a', 100), "dialogue about a");
    prov.add_transcript(&doc_text('b', 100), "dialogue about b");
    prov.add_transcript(&doc_text('c', 100), "dialogue about c");
    // The narration provider answers for a and c, but fails on b.
    prov.add_narration("dialogue about a", vec![1]);
    prov.add_narration("dialogue about c", vec![3]);
    let report = run_pipeline(&plan, &mut fs, &prov);
    assert_eq!(report.failure, Some(PipelineError::ProviderError));
    assert_eq!(report.stages.len(), 2);
    assert_eq!(report.stages[0].processed, 3);
    assert_eq!(report.stages[1].processed, 1);
    // Document c was never attempted at the narration stage, and the intro
    // and merge stages never ran at all.
    assert_eq!(read_audio(&fs, "out/a.mp3").unwrap(), vec![1]);
    assert!(!fs.contains_key("out/b.mp3"));
    assert!(!fs.contains_key("out/c.mp3"));
    assert!(!fs.contains_key("docs/intro_a.txt"));
    assert!(!fs.contains_key("out/chapter_a.mp3"));
}

#[test]
fn invalid_identifier_aborts_the_run() {
    let plan = RunPlan {
        docs: vec!["docs/".to_string()],
        out_dir: "out".to_string(),
        mode: RunMode::Full,
    };
    let mut fs = FsModel::new();
    let prov = ScriptedProviders::new();
    let report = run_pipeline(&plan, &mut fs, &prov);
    assert_eq!(report.failure, Some(PipelineError::InvalidIdentifier));
}

#[test]
fn missing_document_is_an_io_error() {
    let plan = RunPlan {
        docs: vec!["docs/a.md".to_string()],
        out_dir: "out".to_string(),
        mode: RunMode::Single(Stage::Transcript),
    };
    let mut fs = FsModel::new();
    let prov = ScriptedProviders::new();
    let report = run_pipeline(&plan, &mut fs, &prov);
    assert_eq!(report.failure, Some(PipelineError::IoError));
}

#[test]
fn transcript_provider_failure_is_a_provider_error() {
    let mut fs = FsModel::new();
    fs.insert("docs/a.md", FileData::Text("text".to_string()));
    let prov = ScriptedProviders::new();
    let status = run_step(&mut fs, "docs/a.md", "out", &prov, Stage::Transcript);
    assert_eq!(status, StepStatus::Failed(PipelineError::ProviderError));
    assert!(!fs.contains_key("docs/a.conversation.txt"));
}

#[test]
fn scripted_concatenator_failure_is_an_external_tool_error() {
    let plan = RunPlan {
        docs: vec!["docs/a.md".to_string()],
        out_dir: "out".to_string(),
        mode: RunMode::Single(Stage::Merge),
    };
    let mut fs = FsModel::new();
    fs.insert("docs/a.md", FileData::Text("text".to_string()));
    fs.insert("out/intro_a.mp3", FileData::Audio(vec![5]));
    fs.insert("out/a.mp3", FileData::Audio(vec![1, 2]));
    let mut prov = ScriptedProviders::new();
    prov.add_concat_failure("out/chapter_a.mp3");
    let report = run_pipeline(&plan, &mut fs, &prov);
    assert_eq!(report.failure, Some(PipelineError::ExternalToolError));
    assert!(!fs.contains_key("out/chapter_a.mp3"));
}

#[test]
fn merge_executor_reports_missing_dependency() {
    let mut fs = FsModel::new();
    let prov = ScriptedProviders::new();
    let r = execute_merge(&mut fs, "out/intro_a.mp3", "out/a.mp3", "out/chapter_a.mp3", &prov);
    assert_eq!(r.unwrap_err(), PipelineError::DependencyMissing);
}

#[test]
fn intro_failure_still_writes_the_intro_text() {
    let mut fs = FsModel::new();
    fs.insert("docs/a.md", FileData::Text("text".to_string()));
    // No narration is scripted, so the intro audio fails after the intro
    // text is written.
    let prov = ScriptedProviders::new();
    let status = run_step(&mut fs, "docs/a.md", "out", &prov, Stage::Intro);
    assert_eq!(status, StepStatus::Failed(PipelineError::ProviderError));
    assert_eq!(read_text(&fs, "docs/intro_a.txt").unwrap(), "Chapter a. About a.");
    assert!(!fs.contains_key("out/intro_a.mp3"));
}

#[test]
fn long_document_is_truncated_before_the_transcript_provider() {
    let mut fs = FsModel::new();
    fs.insert("docs/a.md", FileData::Text(doc_text('a', 5000)));
    let mut prov = ScriptedProviders::new();
    // The provider is scripted only for the first 4000 characters: the
    // step succeeds only because truncation happens first.
    prov.add_transcript(&doc_text('a', 4000), "dialogue");
    let status = run_step(&mut fs, "docs/a.md", "out", &prov, Stage::Transcript);
    assert_eq!(status, StepStatus::Done);
    assert_eq!(read_text(&fs, "docs/a.conversation.txt").unwrap(), "dialogue");
}

#[test]
fn empty_document_set_runs_all_stages_with_no_work() {
    let plan = RunPlan {
        docs: Vec::new(),
        out_dir: "out".to_string(),
        mode: RunMode::Full,
    };
    let mut fs = FsModel::new();
    let prov = ScriptedProviders::new();
    let report = run_pipeline(&plan, &mut fs, &prov);
    assert!(report.failure.is_none());
    assert_eq!(report.stages.len(), 4);
    for stage in &report.stages {
        assert_eq!(stage.processed, 0);
        assert_eq!(stage.skipped, 0);
        assert_eq!(stage.blocked, 0);
    }
}

#[test]
fn transcripts_only_mode_runs_one_stage() {
    let plan = RunPlan {
        docs: vec!["docs/a.md".to_string()],
        out_dir: "out".to_string(),
        mode: RunMode::Single(Stage::Transcript),
    };
    let mut fs = FsModel::new();
    fs.insert("docs/a.md", FileData::Text("short text".to_string()));
    let mut prov = ScriptedProviders::new();
    prov.add_transcript("short text", "dialogue");
    let report = run_pipeline(&plan, &mut fs, &prov);
    assert!(report.failure.is_none());
    assert_eq!(report.stages.len(), 1);
    assert_eq!(report.stages[0].processed, 1);
    assert_eq!(read_text(&fs, "docs/a.conversation.txt").unwrap(), "dialogue");
    assert!(!fs.contains_key("out/a.mp3"));
}

#[test]
fn intro_with_stale_text_and_missing_audio_is_regenerated() {
    let mut fs = FsModel::new();
    fs.insert("docs/a.md", FileData::Text("text".to_string()));
    fs.insert("docs/intro_a.txt", FileData::Text("stale".to_string()));
    let mut prov = ScriptedProviders::new();
    prov.add_narration("Chapter a. About a.", vec![9]);
    let status = run_step(&mut fs, "docs/a.md", "out", &prov, Stage::Intro);
    assert_eq!(status, StepStatus::Done);
    assert_eq!(read_text(&fs, "docs/intro_a.txt").unwrap(), "Chapter a. About a.");
    assert_eq!(read_audio(&fs, "out/intro_a.mp3").unwrap(), vec![9]);
}

#[test]
fn intro_with_both_artifacts_is_skipped_and_kept() {
    let mut fs = FsModel::new();
    fs.insert("docs/a.md", FileData::Text("text".to_string()));
    fs.insert("docs/intro_a.txt", FileData::Text("kept".to_string()));
    fs.insert("out/intro_a.mp3", FileData::Audio(vec![7]));
    let prov = ScriptedProviders::new();
    let status = run_step(&mut fs, "docs/a.md", "out", &prov, Stage::Intro);
    assert_eq!(status, StepStatus::Skipped);
    assert_eq!(read_text(&fs, "docs/intro_a.txt").unwrap(), "kept");
    assert_eq!(read_audio(&fs, "out/intro_a.mp3").unwrap(), vec![7]);
}

#[test]
fn decide_step_follows_the_transition_rule() {
    assert_eq!(decide_step(true, true), StepDecision::Skip);
    assert_eq!(decide_step(true, false), StepDecision::Skip);
    assert_eq!(decide_step(false, false), StepDecision::Blocked);
    assert_eq!(decide_step(false, true), StepDecision::Execute);
}
