//! Plain data of the asset pipeline: raw buffers and the errors of the
//! loaders.
//!
//! Reading asset files is not part of this crate. What the loaders hand
//! around, and what they report when they fail, is.

use vstd::prelude::*;

verus! {

/// Types of render pipelines.
#[derive(Debug, Clone, Copy, PartialEq, Eq, Hash, Structural)]
pub enum PipelineType {
    /// The plain pipeline that draws meshes.
    Simple,
}

/// The raw bytes of one buffer of an asset file.
#[derive(Debug, Clone, PartialEq)]
pub struct BufferData {
    pub data: Vec<u8>,
    /// Where the bytes came from, unless they were embedded in the file.
    pub uri: Option<String>,
}

/// The bytes of each buffer, in the order of the buffers.
pub fn to_vec(buffers: Vec<BufferData>) -> (bytes: Vec<Vec<u8>>)
    ensures
        bytes@.len() == buffers@.len(),
        forall|i: int| 0 <= i < buffers@.len() ==> (#[trigger] bytes@[i])@ == buffers@[i].data@,
{
    let mut bytes: Vec<Vec<u8>> = Vec::new();
    for buffer in it: buffers
        invariant
            bytes@.len() == it.index(),
            forall|i: int| 0 <= i < bytes@.len() ==> (#[trigger] bytes@[i])@ == it.seq()[i].data@,
    {
        bytes.push(buffer.data);
    }
    bytes
}

/// The `length` bytes of `buffer` from `offset` on, if the buffer reaches
/// that far.
pub fn view_bytes(buffer: &Vec<u8>, offset: usize, length: usize) -> (bytes: Option<Vec<u8>>)
    ensures
        bytes is Some <==> offset + length <= buffer@.len(),
        bytes matches Some(b) ==> b@ == buffer@.subrange(offset as int, offset + length),
{
    if offset > buffer.len() || length > buffer.len() - offset {
        return None;
    }
    let end: usize = offset + length;
    let mut bytes: Vec<u8> = Vec::with_capacity(length);
    let mut i: usize = offset;
    while i < end
        invariant
            offset <= i <= end,
            end <= buffer@.len(),
            bytes@ == buffer@.subrange(offset as int, i as int),
        decreases end - i,
    {
        bytes.push(buffer[i]);
        assert(bytes@ =~= buffer@.subrange(offset as int, i + 1));
        i += 1;
    }
    Some(bytes)
}

/// Why a buffer could not be loaded: a message and, where another error was
/// the cause, the text of that error.
#[derive(Debug)]
pub struct LoadBufferDataError {
    message: String,
    source: Option<String>,
}

impl LoadBufferDataError {
    /// The message, without the cause.
    pub closed spec fn spec_message(&self) -> Seq<char> {
        self.message@
    }

    /// The text of the cause, if there is one.
    pub closed spec fn spec_source(&self) -> Option<Seq<char>> {
        match self.source {
            Some(source) => Some(source@),
            None => None,
        }
    }

    /// An error without a cause.
    pub fn new(message: &str) -> (error: LoadBufferDataError)
        ensures
            error.spec_message() == message@,
            error.spec_source() is None,
    {
        LoadBufferDataError { message: message.to_owned(), source: None }
    }

    /// An error that `source` caused.
    pub fn with_source(message: &str, source: &str) -> (error: LoadBufferDataError)
        ensures
            error.spec_message() == message@,
            error.spec_source() == Some(source@),
    {
        LoadBufferDataError { message: message.to_owned(), source: Some(source.to_owned()) }
    }

    /// The message, without the cause.
    pub fn message(&self) -> (message: &str)
        ensures
            message@ == self.spec_message(),
    {
        self.message.as_str()
    }

    /// The text of the cause, if there is one.
    pub fn source(&self) -> (source: Option<&str>)
        ensures
            source is Some <==> self.spec_source() is Some,
            source matches Some(text) ==> self.spec_source() == Some(text@),
    {
        match &self.source {
            Some(source) => Some(source.as_str()),
            None => None,
        }
    }
}

/// Why an image could not be loaded: a message and, where another error was
/// the cause, the text of that error.
#[derive(Debug)]
pub struct LoadImageDataError {
    message: String,
    source: Option<String>,
}

impl LoadImageDataError {
    /// The message, without the cause.
    pub closed spec fn spec_message(&self) -> Seq<char> {
        self.message@
    }

    /// The text of the cause, if there is one.
    pub closed spec fn spec_source(&self) -> Option<Seq<char>> {
        match self.source {
            Some(source) => Some(source@),
            None => None,
        }
    }

    /// An error without a cause.
    pub fn new(message: &str) -> (error: LoadImageDataError)
        ensures
            error.spec_message() == message@,
            error.spec_source() is None,
    {
        LoadImageDataError { message: message.to_owned(), source: None }
    }

    /// An error that `source` caused.
    pub fn with_source(message: &str, source: &str) -> (error: LoadImageDataError)
        ensures
            error.spec_message() == message@,
            error.spec_source() == Some(source@),
    {
        LoadImageDataError { message: message.to_owned(), source: Some(source.to_owned()) }
    }

    /// The message, without the cause.
    pub fn message(&self) -> (message: &str)
        ensures
            message@ == self.spec_message(),
    {
        self.message.as_str()
    }

    /// The text of the cause, if there is one.
    pub fn source(&self) -> (source: Option<&str>)
        ensures
            source is Some <==> self.spec_source() is Some,
            source matches Some(text) ==> self.spec_source() == Some(text@),
    {
        match &self.source {
            Some(source) => Some(source.as_str()),
            None => None,
        }
    }
}

/// Why an animation could not be loaded: a message and, where another error was
/// the cause, the text of that error.
#[derive(Debug)]
pub struct LoadAnimationError {
    message: String,
    source: Option<String>,
}

impl LoadAnimationError {
    /// The message, without the cause.
    pub closed spec fn spec_message(&self) -> Seq<char> {
        self.message@
    }

    /// The text of the cause, if there is one.
    pub closed spec fn spec_source(&self) -> Option<Seq<char>> {
        match self.source {
            Some(source) => Some(source@),
            None => None,
        }
    }

    /// An error without a cause.
    pub fn new(message: &str) -> (error: LoadAnimationError)
        ensures
            error.spec_message() == message@,
            error.spec_source() is None,
    {
        LoadAnimationError { message: message.to_owned(), source: None }
    }

    /// An error that `source` caused.
    pub fn with_source(message: &str, source: &str) -> (error: LoadAnimationError)
        ensures
            error.spec_message() == message@,
            error.spec_source() == Some(source@),
    {
        LoadAnimationError { message: message.to_owned(), source: Some(source.to_owned()) }
    }

    /// The message, without the cause.
    pub fn message(&self) -> (message: &str)
        ensures
            message@ == self.spec_message(),
    {
        self.message.as_str()
    }

    /// The text of the cause, if there is one.
    pub fn source(&self) -> (source: Option<&str>)
        ensures
            source is Some <==> self.spec_source() is Some,
            source matches Some(text) ==> self.spec_source() == Some(text@),
    {
        match &self.source {
            Some(source) => Some(source.as_str()),
            None => None,
        }
    }
}

/// Why a scene could not be loaded: a message and, where another error was
/// the cause, the text of that error.
#[derive(Debug)]
pub struct LoadSceneDataError {
    message: String,
    source: Option<String>,
}

impl LoadSceneDataError {
    /// The message, without the cause.
    pub closed spec fn spec_message(&self) -> Seq<char> {
        self.message@
    }

    /// The text of the cause, if there is one.
    pub closed spec fn spec_source(&self) -> Option<Seq<char>> {
        match self.source {
            Some(source) => Some(source@),
            None => None,
        }
    }

    /// An error without a cause.
    pub fn new(message: &str) -> (error: LoadSceneDataError)
        ensures
            error.spec_message() == message@,
            error.spec_source() is None,
    {
        LoadSceneDataError { message: message.to_owned(), source: None }
    }

    /// An error that `source` caused.
    pub fn with_source(message: &str, source: &str) -> (error: LoadSceneDataError)
        ensures
            error.spec_message() == message@,
            error.spec_source() == Some(source@),
    {
        LoadSceneDataError { message: message.to_owned(), source: Some(source.to_owned()) }
    }

    /// The message, without the cause.
    pub fn message(&self) -> (message: &str)
        ensures
            message@ == self.spec_message(),
    {
        self.message.as_str()
    }

    /// The text of the cause, if there is one.
    pub fn source(&self) -> (source: Option<&str>)
        ensures
            source is Some <==> self.spec_source() is Some,
            source matches Some(text) ==> self.spec_source() == Some(text@),
    {
        match &self.source {
            Some(source) => Some(source.as_str()),
            None => None,
        }
    }
}

/// Why an asset could not be loaded.
#[derive(Debug)]
pub struct LoadAssetError {
    message: String,
}

impl LoadAssetError {
    /// The message.
    pub closed spec fn spec_message(&self) -> Seq<char> {
        self.message@
    }

    /// An error with the given message.
    pub fn new(message: &str) -> (error: LoadAssetError)
        ensures
            error.spec_message() == message@,
    {
        LoadAssetError { message: message.to_owned() }
    }

    /// The message.
    pub fn message(&self) -> (message: &str)
        ensures
            message@ == self.spec_message(),
    {
        self.message.as_str()
    }
}

/// Why a material could not be loaded.
#[derive(Debug)]
pub struct LoadMaterialError {
    message: String,
}

impl LoadMaterialError {
    /// The message.
    pub closed spec fn spec_message(&self) -> Seq<char> {
        self.message@
    }

    /// An error with the given message.
    pub fn new(message: &str) -> (error: LoadMaterialError)
        ensures
            error.spec_message() == message@,
    {
        LoadMaterialError { message: message.to_owned() }
    }

    /// The message.
    pub fn message(&self) -> (message: &str)
        ensures
            message@ == self.spec_message(),
    {
        self.message.as_str()
    }
}

/// Why a texture could not be loaded.
#[derive(Debug)]
pub struct LoadTextureDataError {
    message: String,
}

impl LoadTextureDataError {
    /// The message.
    pub closed spec fn spec_message(&self) -> Seq<char> {
        self.message@
    }

    /// An error with the given message.
    pub fn new(message: &str) -> (error: LoadTextureDataError)
        ensures
            error.spec_message() == message@,
    {
        LoadTextureDataError { message: message.to_owned() }
    }

    /// The message.
    pub fn message(&self) -> (message: &str)
        ensures
            message@ == self.spec_message(),
    {
        self.message.as_str()
    }
}

} // verus!
