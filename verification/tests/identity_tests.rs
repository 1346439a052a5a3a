use markdown_to_audio::artifacts::{artifact_path, ArtifactKind};
use markdown_to_audio::ids::{chapter_id, parent_dir};
use markdown_to_audio::pipeline::{generate_intro, intro_text};
use markdown_to_audio::strings::{format_elapsed, u64_to_decimal};
use markdown_to_audio::truncate::truncate_content;
use markdown_to_audio::PipelineError;

#[test]
fn chapter_id_of_plain_document() {
    assert_eq!(chapter_id("docs/ch1.md").unwrap(), "ch1");
}

#[test]
fn chapter_id_without_directory() {
    assert_eq!(chapter_id("ch2.md").unwrap(), "ch2");
}

#[test]
fn chapter_id_without_extension() {
    assert_eq!(chapter_id("docs/notes").unwrap(), "notes");
}

#[test]
fn chapter_id_keeps_inner_dots() {
    assert_eq!(chapter_id("a/b/c.tar.gz").unwrap(), "c.tar");
}

#[test]
fn chapter_id_of_directory_path_fails() {
    assert_eq!(chapter_id("docs/").unwrap_err(), PipelineError::InvalidIdentifier);
}

#[test]
fn chapter_id_of_hidden_file_fails() {
    assert_eq!(chapter_id(".hidden").unwrap_err(), PipelineError::InvalidIdentifier);
}

#[test]
fn chapter_id_of_empty_path_fails() {
    assert_eq!(chapter_id("").unwrap_err(), PipelineError::InvalidIdentifier);
}

#[test]
fn parent_dir_of_nested_path() {
    assert_eq!(parent_dir("docs/sub/ch1.md"), "docs/sub");
}

#[test]
fn parent_dir_of_bare_name_is_empty() {
    assert_eq!(parent_dir("ch1.md"), "");
}

#[test]
fn artifact_paths_follow_the_layout() {
    assert_eq!(
        artifact_path("ch1", ArtifactKind::Transcript, "docs", "out"),
        "docs/ch1.conversation.txt"
    );
    assert_eq!(artifact_path("ch1", ArtifactKind::ContentAudio, "docs", "out"), "out/ch1.mp3");
    assert_eq!(artifact_path("ch1", ArtifactKind::IntroText, "docs", "out"), "docs/intro_ch1.txt");
    assert_eq!(artifact_path("ch1", ArtifactKind::IntroAudio, "docs", "out"), "out/intro_ch1.mp3");
    assert_eq!(
        artifact_path("ch1", ArtifactKind::MergedAudio, "docs", "out"),
        "out/chapter_ch1.mp3"
    );
}

#[test]
fn artifact_path_is_deterministic() {
    let first = artifact_path("07", ArtifactKind::MergedAudio, "docs", "out");
    let second = artifact_path("07", ArtifactKind::MergedAudio, "docs", "out");
    assert_eq!(first, second);
}

#[test]
fn artifact_path_with_empty_directory() {
    assert_eq!(artifact_path("ch1", ArtifactKind::Transcript, "", "out"), "ch1.conversation.txt");
}

#[test]
fn intro_text_follows_the_template() {
    assert_eq!(intro_text("07"), "Chapter 07. About 07.");
}

#[test]
fn generate_intro_names_file_and_content() {
    let (path, content) = generate_intro("docs/07.md").unwrap();
    assert_eq!(path, "docs/intro_07.txt");
    assert_eq!(content, "Chapter 07. About 07.");
}

#[test]
fn generate_intro_rejects_directory_path() {
    assert_eq!(generate_intro("docs/").unwrap_err(), PipelineError::InvalidIdentifier);
}

#[test]
fn truncate_caps_long_text_at_four_thousand_characters() {
    let text = "x".repeat(5000);
    let capped = truncate_content(&text);
    assert_eq!(capped.chars().count(), 4000);
    assert_eq!(capped, "x".repeat(4000));
}

#[test]
fn truncate_keeps_short_text_unchanged() {
    let text = "y".repeat(3000);
    assert_eq!(truncate_content(&text), text);
}

#[test]
fn truncate_counts_characters_not_bytes() {
    let mut text = String::new();
    for _ in 0..4100 {
        text.push('\u{00e9}');
    }
    let capped = truncate_content(&text);
    assert_eq!(capped.chars().count(), 4000);
}

#[test]
fn decimal_rendering() {
    assert_eq!(u64_to_decimal(0), "0");
    assert_eq!(u64_to_decimal(7), "7");
    assert_eq!(u64_to_decimal(1234567), "1234567");
}

#[test]
fn format_elapsed_with_hours() {
    assert_eq!(format_elapsed(3_661_000), "1h 1m 1s");
}

#[test]
fn format_elapsed_with_minutes() {
    assert_eq!(format_elapsed(125_000), "2m 5s");
}

#[test]
fn format_elapsed_with_seconds_and_millis() {
    assert_eq!(format_elapsed(3_045), "3.045s");
    assert_eq!(format_elapsed(7), "0.007s");
    assert_eq!(format_elapsed(0), "0.000s");
    assert_eq!(format_elapsed(42_042), "42.042s");
}
