//! The filesystem model the orchestrator is verified against: a map from
//! paths to file contents. An artifact's presence in this map is the sole
//! source of truth for "stage already completed".

use crate::strmap::StrMap;
use vstd::prelude::*;

verus! {

/// The contents of one file: dialogue or intro text, or audio bytes.
#[derive(Debug)]
pub enum FileData {
    Text(String),
    Audio(Vec<u8>),
}

/// The mathematical contents of one file.
#[verifier::ext_equal]
pub enum FileDataView {
    Text(Seq<char>),
    Audio(Seq<u8>),
}

impl View for FileData {
    type V = FileDataView;

    open spec fn view(&self) -> FileDataView {
        match self {
            FileData::Text(s) => FileDataView::Text(s@),
            FileData::Audio(b) => FileDataView::Audio(b@),
        }
    }
}

/// An in-memory filesystem: paths bound to file contents.
pub type FsModel = StrMap<FileData>;

/// The text of the file at `path`, if there is one and it holds text.
pub fn read_text(fs: &FsModel, path: &str) -> (r: Option<String>)
    requires
        fs.wf(),
    ensures
        match r {
            Some(s) => fs@.dom().contains(path@) && fs@[path@] == FileDataView::Text(s@),
            None => !fs@.dom().contains(path@) || !(fs@[path@] is Text),
        },
{
    match fs.get(path) {
        Some(d) => match d {
            FileData::Text(s) => Some(s.clone()),
            FileData::Audio(_) => None,
        },
        None => None,
    }
}

/// The bytes of the file at `path`, if there is one and it holds audio.
pub fn read_audio(fs: &FsModel, path: &str) -> (r: Option<Vec<u8>>)
    requires
        fs.wf(),
    ensures
        match r {
            Some(b) => fs@.dom().contains(path@) && fs@[path@] == FileDataView::Audio(b@),
            None => !fs@.dom().contains(path@) || !(fs@[path@] is Audio),
        },
{
    match fs.get(path) {
        Some(d) => match d {
            FileData::Text(_) => None,
            FileData::Audio(b) => Some(clone_bytes(b)),
        },
        None => None,
    }
}

/// A copy of a byte vector.
pub fn clone_bytes(b: &Vec<u8>) -> (r: Vec<u8>)
    ensures
        r@ == b@,
{
    let mut out: Vec<u8> = Vec::new();
    let mut i: usize = 0;
    proof {
        assert(out@ =~= b@.subrange(0, 0));
    }
    while i < b.len()
        invariant
            i <= b@.len(),
            out@ == b@.subrange(0, i as int),
        decreases b@.len() - i,
    {
        out.push(b[i]);
        proof {
            assert(out@ =~= b@.subrange(0, i + 1));
        }
        i = i + 1;
    }
    proof {
        assert(out@ =~= b@);
    }
    out
}

/// The concatenation of two byte vectors, first then second.
pub fn concat_bytes(a: &Vec<u8>, b: &Vec<u8>) -> (r: Vec<u8>)
    ensures
        r@ == a@ + b@,
{
    let mut out = clone_bytes(a);
    let mut i: usize = 0;
    proof {
        assert(out@ =~= a@ + b@.subrange(0, 0));
    }
    while i < b.len()
        invariant
            i <= b@.len(),
            out@ == a@ + b@.subrange(0, i as int),
        decreases b@.len() - i,
    {
        out.push(b[i]);
        proof {
            assert(out@ =~= a@ + b@.subrange(0, i + 1));
        }
        i = i + 1;
    }
    proof {
        assert(out@ =~= a@ + b@);
    }
    out
}

} // verus!
