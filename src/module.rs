//! Compiled code blobs and what the driver's loader is handed for them.
use vstd::prelude::*;
use vstd::utf8::encode_utf8;

verus! {

broadcast use vstd::string::to_string_from_display_ensures_for_str;

/// `s` followed by a terminating zero byte, when `s` holds no zero byte.
pub open spec fn c_string_of(s: Seq<u8>) -> Option<Seq<u8>> {
    if exists|i: int| 0 <= i < s.len() && s[i] == 0 {
        None
    } else {
        Some(s.push(0))
    }
}

/// Encodes `bytes` as a zero-terminated string for the driver; `None` when
/// a zero byte inside would cut it short.
pub fn c_string(bytes: &[u8]) -> (r: Option<Vec<u8>>)
    ensures
        r is None <==> c_string_of(bytes@) is None,
        r is Some ==> c_string_of(bytes@) == Some(r->Some_0@),
{
    let n = bytes.len();
    let mut out: Vec<u8> = Vec::new();
    let mut i: usize = 0;
    while i < n
        invariant
            n == bytes@.len(),
            i <= n,
            out@ == bytes@.subrange(0, i as int),
            forall|j: int| 0 <= j < i ==> bytes@[j] != 0,
        decreases n - i,
    {
        let b = bytes[i];
        if b == 0 {
            return None;
        }
        out.push(b);
        i = i + 1;
    }
    out.push(0);
    assert(out@ =~= bytes@.push(0));
    Some(out)
}

/// A compiled program handed to the loader: intermediate text or a binary
/// image, in memory or in a file named by its path.
#[derive(Debug, PartialEq, Eq)]
pub enum Instruction {
    PTX(String),
    Cubin(Vec<u8>),
    PTXFile(String),
    CubinFile(String),
}

/// What the driver's loader takes: an image in memory, or a file path, each
/// as the bytes to pass.
#[derive(Debug, PartialEq, Eq)]
pub enum LoadSource {
    Image(Vec<u8>),
    File(Vec<u8>),
}

/// The view of a `LoadSource`.
pub enum SourceView {
    Image(Seq<u8>),
    File(Seq<u8>),
}

impl View for LoadSource {
    type V = SourceView;

    open spec fn view(&self) -> SourceView {
        match self {
            LoadSource::Image(b) => SourceView::Image(b@),
            LoadSource::File(p) => SourceView::File(p@),
        }
    }
}

/// What the loader is handed for `ins`, if it can be encoded.
pub open spec fn load_source_of(ins: Instruction) -> Option<SourceView> {
    match ins {
        Instruction::PTX(text) => match c_string_of(encode_utf8(text@)) {
            Some(c) => Some(SourceView::Image(c)),
            None => None,
        },
        Instruction::Cubin(bin) => Some(SourceView::Image(bin@)),
        Instruction::PTXFile(path) | Instruction::CubinFile(path) => match c_string_of(
            encode_utf8(path@),
        ) {
            Some(c) => Some(SourceView::File(c)),
            None => None,
        },
    }
}

impl Instruction {
    /// Intermediate text held in memory.
    pub fn ptx(text: &str) -> (r: Instruction)
        ensures
            r is PTX && r->PTX_0@ == text@,
    {
        Instruction::PTX(text.to_string())
    }

    /// What the loader is handed: the text with a terminating zero, the
    /// binary image as it is, or the file path with a terminating zero.
    /// `None` when the text or the path holds a zero byte.
    pub fn load_source(&self) -> (r: Option<LoadSource>)
        ensures
            r is None <==> load_source_of(*self) is None,
            r is Some ==> load_source_of(*self) == Some(r->Some_0@),
    {
        match self {
            Instruction::PTX(text) => match c_string(text.as_str().as_bytes()) {
                Some(c) => Some(LoadSource::Image(c)),
                None => None,
            },
            Instruction::Cubin(bin) => Some(LoadSource::Image(bin.clone())),
            Instruction::PTXFile(path) | Instruction::CubinFile(path) => match c_string(
                path.as_str().as_bytes(),
            ) {
                Some(c) => Some(LoadSource::File(c)),
                None => None,
            },
        }
    }
}

} // verus!
