//! The artifact locator: every derived artifact lives at a canonical path
//! computed from the chapter identifier, the artifact kind, the document's
//! directory and the output directory — and from nothing else.

use vstd::prelude::*;
use vstd::string::StringExecFns;

verus! {

/// The four pipeline stages, in their declared order.
#[derive(Clone, Copy, Debug, PartialEq, Eq, Structural)]
pub enum Stage {
    Transcript,
    Narration,
    Intro,
    Merge,
}

/// The five kinds of derived artifact a chapter can have on disk.
#[derive(Clone, Copy, Debug, PartialEq, Eq, Structural)]
pub enum ArtifactKind {
    Transcript,
    ContentAudio,
    IntroText,
    IntroAudio,
    MergedAudio,
}

/// Joins a directory and a file name with `/`; a name under the empty
/// directory is the name itself.
pub open spec fn spec_join(dir: Seq<char>, name: Seq<char>) -> Seq<char> {
    if dir.len() == 0 {
        name
    } else {
        dir + ("/")@ + name
    }
}

/// The file name of an artifact, from the chapter identifier and the kind.
pub open spec fn spec_artifact_name(id: Seq<char>, kind: ArtifactKind) -> Seq<char> {
    match kind {
        ArtifactKind::Transcript => id + (".conversation.txt")@,
        ArtifactKind::ContentAudio => id + (".mp3")@,
        ArtifactKind::IntroText => ("intro_")@ + id + (".txt")@,
        ArtifactKind::IntroAudio => ("intro_")@ + id + (".mp3")@,
        ArtifactKind::MergedAudio => ("chapter_")@ + id + (".mp3")@,
    }
}

/// The canonical path of an artifact: text artifacts sit beside the
/// document, audio artifacts under the output directory.
pub open spec fn spec_artifact_path(
    id: Seq<char>,
    kind: ArtifactKind,
    doc_dir: Seq<char>,
    out_dir: Seq<char>,
) -> Seq<char> {
    match kind {
        ArtifactKind::Transcript | ArtifactKind::IntroText => spec_join(
            doc_dir,
            spec_artifact_name(id, kind),
        ),
        _ => spec_join(out_dir, spec_artifact_name(id, kind)),
    }
}

/// Joins a directory and a file name with `/`.
pub fn join_path(dir: &str, name: &str) -> (r: String)
    ensures
        r@ == spec_join(dir@, name@),
{
    if dir.is_empty() {
        String::from_str(name)
    } else {
        let mut s = String::from_str(dir);
        s.append("/");
        s.append(name);
        s
    }
}

/// The file name of an artifact.
pub fn artifact_name(id: &str, kind: ArtifactKind) -> (r: String)
    ensures
        r@ == spec_artifact_name(id@, kind),
{
    match kind {
        ArtifactKind::Transcript => {
            let mut s = String::from_str(id);
            s.append(".conversation.txt");
            s
        },
        ArtifactKind::ContentAudio => {
            let mut s = String::from_str(id);
            s.append(".mp3");
            s
        },
        ArtifactKind::IntroText => {
            let mut s = String::from_str("intro_");
            s.append(id);
            s.append(".txt");
            s
        },
        ArtifactKind::IntroAudio => {
            let mut s = String::from_str("intro_");
            s.append(id);
            s.append(".mp3");
            s
        },
        ArtifactKind::MergedAudio => {
            let mut s = String::from_str("chapter_");
            s.append(id);
            s.append(".mp3");
            s
        },
    }
}

/// Computes the canonical path of one artifact of one chapter.
pub fn artifact_path(id: &str, kind: ArtifactKind, doc_dir: &str, out_dir: &str) -> (r: String)
    ensures
        r@ == spec_artifact_path(id@, kind, doc_dir@, out_dir@),
{
    let name = artifact_name(id, kind);
    match kind {
        ArtifactKind::Transcript | ArtifactKind::IntroText => join_path(doc_dir, name.as_str()),
        _ => join_path(out_dir, name.as_str()),
    }
}

/// An artifact's path is a pure, deterministic function of the chapter
/// identifier, the kind and the two directories: any two computations from
/// the same inputs give the same path. `artifact_path` ensures its result is
/// exactly `spec_artifact_path` of its inputs, so this holds of any two of
/// its calls.
pub proof fn lemma_artifact_path_deterministic(
    id: Seq<char>,
    kind: ArtifactKind,
    doc_dir: Seq<char>,
    out_dir: Seq<char>,
    r1: Seq<char>,
    r2: Seq<char>,
)
    requires
        r1 == spec_artifact_path(id, kind, doc_dir, out_dir),
        r2 == spec_artifact_path(id, kind, doc_dir, out_dir),
    ensures
        r1 == r2,
{
}

} // verus!
