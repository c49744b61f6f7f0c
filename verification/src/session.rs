//! The bridge between the engine's output hooks and one owned buffer.
//!
//! The engine hands its output over by calling hooks: one when it begins a
//! subresource, one for each chunk of bytes, one when it reports an error.
//! The hooks are free functions and carry no context, so whoever installs
//! them keeps a [`Session`] where they can reach it and forwards each call.
//! When the engine returns, [`Session::finish`] turns what was gathered into
//! the caller's result and leaves the session idle again.
//!
//! A session belongs to one compression call. Two calls that run at the same
//! time need a session each.
use vstd::prelude::*;
use crate::boolean::NvttBoolean;
use crate::cint::{extent, size_from_native};
use crate::error::Error;

verus! {

/// Communicates the output of a compressed texture.
#[derive(Clone, Debug, PartialEq, Eq, Hash)]
pub enum CompressionOutput {
    /// The texture was saved into the file named on the output options.
    File,
    /// The texture was saved into memory.
    Memory {
        /// The bytes of the image.
        data: Vec<u8>,
        /// The width of the texture in pixels.
        width: usize,
        /// The height of the texture in pixels.
        height: usize,
        /// The depth of the texture.
        depth: usize,
        /// The face of the texture.
        face: usize,
        /// The mipmap level of the texture.
        miplevel: usize,
    },
}

/// What a [`CompressionOutput`] holds, as a mathematical value.
pub enum OutputContent {
    File,
    Memory { data: Seq<u8>, width: usize, height: usize, depth: usize, face: usize, miplevel: usize },
}

impl View for CompressionOutput {
    type V = OutputContent;

    open spec fn view(&self) -> OutputContent {
        match *self {
            CompressionOutput::File => OutputContent::File,
            CompressionOutput::Memory { data, width, height, depth, face, miplevel } => (
            OutputContent::Memory { data: data@, width, height, depth, face, miplevel }),
        }
    }
}

/// One call that the engine makes into the bridge during a compression.
pub enum Hook {
    /// The engine reports an error by its number.
    Error { code: u32 },
    /// The engine begins a subresource and announces its size in bytes, its
    /// extents, its face and its mip level.
    BeginImage { size: i32, width: i32, height: i32, depth: i32, face: i32, miplevel: i32 },
    /// The engine hands over the next bytes of the current subresource.
    OutputData { bytes: Seq<u8> },
    /// The engine ends the current subresource.
    EndImage,
}

/// What a [`Session`] holds, as a mathematical value.
pub struct SessionState {
    /// The number of the error reported last, if any was reported.
    pub error: Option<u32>,
    /// The bytes gathered so far.
    pub data: Seq<u8>,
    pub width: usize,
    pub height: usize,
    pub depth: usize,
    pub face: usize,
    pub miplevel: usize,
}

impl SessionState {
    /// The state between two compressions: nothing reported, nothing
    /// gathered, all extents zero.
    pub open spec fn idle() -> SessionState {
        SessionState {
            error: None,
            data: Seq::empty(),
            width: 0,
            height: 0,
            depth: 0,
            face: 0,
            miplevel: 0,
        }
    }

    /// The state that one hook call leaves behind.
    ///
    /// An error replaces the one reported before. The beginning of a
    /// subresource drops what was gathered and records the extents. Data is
    /// appended behind what is there. The end of a subresource changes
    /// nothing.
    pub open spec fn after(self, hook: Hook) -> SessionState {
        match hook {
            Hook::Error { code } => SessionState { error: Some(code), ..self },
            Hook::BeginImage { size, width, height, depth, face, miplevel } => SessionState {
                error: self.error,
                data: Seq::empty(),
                width: extent(width),
                height: extent(height),
                depth: extent(depth),
                face: extent(face),
                miplevel: extent(miplevel),
            },
            Hook::OutputData { bytes } => SessionState { data: self.data + bytes, ..self },
            Hook::EndImage => self,
        }
    }

    /// The state that a run of hook calls leaves behind, the first call
    /// first.
    pub open spec fn replay(self, hooks: Seq<Hook>) -> SessionState
        decreases hooks.len(),
    {
        if hooks.len() == 0 {
            self
        } else {
            self.replay(hooks.drop_last()).after(hooks.last())
        }
    }

    /// What the caller of a compression gets once the engine has returned
    /// `status`.
    ///
    /// After a failure it is the error that was reported last, or
    /// [`Error::Unknown`] where none was; what was gathered is dropped.
    /// After a success it is the marker for a file where the output went to
    /// one, else the gathered bytes with the extents recorded last.
    pub open spec fn outcome(self, status: bool, write_to_file: bool) -> Result<
        OutputContent,
        Error,
    > {
        if !status {
            Err(Error::of_report(self.error))
        } else if write_to_file {
            Ok(OutputContent::File)
        } else {
            Ok(
                OutputContent::Memory {
                    data: self.data,
                    width: self.width,
                    height: self.height,
                    depth: self.depth,
                    face: self.face,
                    miplevel: self.miplevel,
                },
            )
        }
    }
}

/// All the bytes that the data hooks among `hooks` hand over, in the order
/// of the calls.
pub open spec fn pushed_bytes(hooks: Seq<Hook>) -> Seq<u8>
    decreases hooks.len(),
{
    if hooks.len() == 0 {
        Seq::empty()
    } else {
        match hooks.last() {
            Hook::OutputData { bytes } => pushed_bytes(hooks.drop_last()) + bytes,
            _ => pushed_bytes(hooks.drop_last()),
        }
    }
}

/// The number of bytes that the data hooks among `hooks` hand over in all.
pub open spec fn pushed_len(hooks: Seq<Hook>) -> nat
    decreases hooks.len(),
{
    if hooks.len() == 0 {
        0
    } else {
        match hooks.last() {
            Hook::OutputData { bytes } => pushed_len(hooks.drop_last()) + bytes.len(),
            _ => pushed_len(hooks.drop_last()),
        }
    }
}

/// Whether no call in `hooks` begins a subresource.
pub open spec fn no_begin(hooks: Seq<Hook>) -> bool {
    forall|i: int| 0 <= i < hooks.len() ==> !(#[trigger] hooks[i] is BeginImage)
}

/// Whether no call in `hooks` reports an error.
pub open spec fn no_error(hooks: Seq<Hook>) -> bool {
    forall|i: int| 0 <= i < hooks.len() ==> !(#[trigger] hooks[i] is Error)
}

/// The state that the output hooks of one compression write into.
#[derive(Debug)]
pub struct Session {
    error: Option<u32>,
    data: Vec<u8>,
    width: usize,
    height: usize,
    depth: usize,
    face: usize,
    miplevel: usize,
}

impl View for Session {
    type V = SessionState;

    closed spec fn view(&self) -> SessionState {
        SessionState {
            error: self.error,
            data: self.data@,
            width: self.width,
            height: self.height,
            depth: self.depth,
            face: self.face,
            miplevel: self.miplevel,
        }
    }
}

impl Session {
    /// An idle session.
    pub fn new() -> (s: Session)
        ensures
            s@ == SessionState::idle(),
    {
        Session { error: None, data: Vec::new(), width: 0, height: 0, depth: 0, face: 0, miplevel: 0 }
    }

    /// Makes the session idle, whatever it held. To be called right before
    /// the engine is started.
    pub fn start(&mut self)
        ensures
            final(self)@ == SessionState::idle(),
    {
        self.error = None;
        self.data.clear();
        self.width = 0;
        self.height = 0;
        self.depth = 0;
        self.face = 0;
        self.miplevel = 0;
    }

    /// The error hook: records `code` in place of any code recorded before.
    pub fn record_error(&mut self, code: u32)
        ensures
            final(self)@ == old(self)@.after(Hook::Error { code }),
    {
        self.error = Some(code);
    }

    /// The hook for the beginning of a subresource: drops what was gathered,
    /// makes room for `size` bytes once, and records the extents.
    ///
    /// `size` is a hint. Nothing later relies on the engine handing over
    /// exactly that many bytes.
    pub fn begin_image(
        &mut self,
        size: i32,
        width: i32,
        height: i32,
        depth: i32,
        face: i32,
        miplevel: i32,
    )
        ensures
            final(self)@ == old(self)@.after(
                Hook::BeginImage { size, width, height, depth, face, miplevel },
            ),
    {
        self.data.clear();
        if size > 0 {
            self.data.reserve(size as usize);
        }
        self.width = size_from_native(width);
        self.height = size_from_native(height);
        self.depth = size_from_native(depth);
        self.face = size_from_native(face);
        self.miplevel = size_from_native(miplevel);
    }

    /// The length of a chunk as a size, where the engine's `len` can be one.
    /// A negative `len` cannot: the data hook then answers the engine with
    /// `false`, and the engine gives up.
    pub fn chunk_len(len: i32) -> (r: Option<usize>)
        ensures
            len >= 0 ==> r == Some(len as usize),
            len < 0 ==> r is None,
    {
        if len >= 0 {
            Some(len as usize)
        } else {
            None
        }
    }

    /// The data hook: appends `data` behind what was gathered. The answer is
    /// the one to give the engine, which goes on where it is `true`; it
    /// always is.
    pub fn output_data(&mut self, data: &[u8]) -> (go_on: bool)
        ensures
            go_on,
            final(self)@ == old(self)@.after(Hook::OutputData { bytes: data@ }),
    {
        self.data.extend_from_slice(data);
        assert(self.data@ =~= old(self).data@ + data@);
        true
    }

    /// The hook for the end of a subresource. It has nothing to do.
    pub fn end_image(&mut self)
        ensures
            final(self)@ == old(self)@.after(Hook::EndImage),
    {
    }

    /// Hands out the result of the compression that the engine has just
    /// answered with `status`, and makes the session idle.
    ///
    /// `write_to_file` says where the output was to go: into the file named on
    /// the output options, or into this session.
    pub fn finish(&mut self, status: NvttBoolean, write_to_file: bool) -> (r: Result<
        CompressionOutput,
        Error,
    >)
        ensures
            final(self)@ == SessionState::idle(),
            match r {
                Ok(out) => old(self)@.outcome(status.as_bool(), write_to_file) == Ok::<
                    OutputContent,
                    Error,
                >(out@),
                Err(e) => old(self)@.outcome(status.as_bool(), write_to_file) == Err::<
                    OutputContent,
                    Error,
                >(e),
            },
    {
        let mut data: Vec<u8> = Vec::new();
        core::mem::swap(&mut self.data, &mut data);
        let error = self.error;
        let width = self.width;
        let height = self.height;
        let depth = self.depth;
        let face = self.face;
        let miplevel = self.miplevel;
        self.error = None;
        self.width = 0;
        self.height = 0;
        self.depth = 0;
        self.face = 0;
        self.miplevel = 0;
        if !status.to_bool() {
            Err(Error::from_report(error))
        } else if write_to_file {
            Ok(CompressionOutput::File)
        } else {
            Ok(CompressionOutput::Memory { data, width, height, depth, face, miplevel })
        }
    }
}

/// Replaying two runs of hook calls one after the other is replaying them
/// joined.
pub proof fn lemma_replay_joined(s: SessionState, first: Seq<Hook>, second: Seq<Hook>)
    ensures
        s.replay(first + second) == s.replay(first).replay(second),
    decreases second.len(),
{
    if second.len() == 0 {
        assert(first + second == first);
    } else {
        lemma_replay_joined(s, first, second.drop_last());
        assert((first + second).drop_last() == first + second.drop_last());
        assert((first + second).last() == second.last());
    }
}

/// The hooks that begin no subresource and report no error leave the
/// extents and the error as they were, and append what they hand over.
pub proof fn lemma_replay_data_only(s: SessionState, hooks: Seq<Hook>)
    requires
        no_begin(hooks),
    ensures
        s.replay(hooks).data == s.data + pushed_bytes(hooks),
        s.replay(hooks).width == s.width,
        s.replay(hooks).height == s.height,
        s.replay(hooks).depth == s.depth,
        s.replay(hooks).face == s.face,
        s.replay(hooks).miplevel == s.miplevel,
    decreases hooks.len(),
{
    if hooks.len() == 0 {
        assert(s.data + pushed_bytes(hooks) == s.data);
    } else {
        let init = hooks.drop_last();
        assert(no_begin(init)) by {
            assert forall|i: int| 0 <= i < init.len() implies !(#[trigger] init[i] is BeginImage) by {
                assert(init[i] == hooks[i]);
            }
        }
        lemma_replay_data_only(s, init);
        assert(!(hooks[hooks.len() - 1] is BeginImage));
        match hooks.last() {
            Hook::OutputData { bytes } => {
                assert(s.data + (pushed_bytes(init) + bytes) == (s.data + pushed_bytes(init))
                    + bytes);
            },
            _ => {},
        }
    }
}

/// The bytes that the data hooks hand over are as many as their lengths
/// add up to.
pub proof fn lemma_pushed_len(hooks: Seq<Hook>)
    ensures
        pushed_bytes(hooks).len() == pushed_len(hooks),
    decreases hooks.len(),
{
    if hooks.len() > 0 {
        lemma_pushed_len(hooks.drop_last());
    }
}

/// The buffer holds the last subresource and nothing else.
///
/// Whatever the engine did before it began its last subresource, once it has
/// begun it and then made the calls in `rest`, none of which begins
/// another, the session holds exactly the bytes that the data hooks in
/// `rest` handed over, in their order, and the extents announced at that
/// beginning. Its length is the sum of the lengths of those chunks.
pub proof fn lemma_buffer_holds_last_subresource(
    before: Seq<Hook>,
    size: i32,
    width: i32,
    height: i32,
    depth: i32,
    face: i32,
    miplevel: i32,
    rest: Seq<Hook>,
)
    requires
        no_begin(rest),
    ensures
        ({
            let begin = Hook::BeginImage { size, width, height, depth, face, miplevel };
            let s = SessionState::idle().replay(before.push(begin) + rest);
            &&& s.data == pushed_bytes(rest)
            &&& s.data.len() == pushed_len(rest)
            &&& s.width == extent(width)
            &&& s.height == extent(height)
            &&& s.depth == extent(depth)
            &&& s.face == extent(face)
            &&& s.miplevel == extent(miplevel)
        }),
{
    let begin = Hook::BeginImage { size, width, height, depth, face, miplevel };
    let start = SessionState::idle().replay(before.push(begin));
    assert(before.push(begin).drop_last() == before);
    assert(start.data == Seq::<u8>::empty());
    lemma_replay_joined(SessionState::idle(), before.push(begin), rest);
    lemma_replay_data_only(start, rest);
    lemma_pushed_len(rest);
    assert(Seq::<u8>::empty() + pushed_bytes(rest) == pushed_bytes(rest));
}

/// Where the engine begins no subresource at all, the session holds every
/// byte handed over, and all extents are zero.
pub proof fn lemma_buffer_without_subresource(hooks: Seq<Hook>)
    requires
        no_begin(hooks),
    ensures
        ({
            let s = SessionState::idle().replay(hooks);
            &&& s.data == pushed_bytes(hooks)
            &&& s.width == 0
            &&& s.height == 0
            &&& s.depth == 0
            &&& s.face == 0
            &&& s.miplevel == 0
        }),
{
    lemma_replay_data_only(SessionState::idle(), hooks);
    assert(Seq::<u8>::empty() + pushed_bytes(hooks) == pushed_bytes(hooks));
}

/// The hooks that report no error leave the recorded error as it was.
pub proof fn lemma_replay_keeps_error(s: SessionState, hooks: Seq<Hook>)
    requires
        no_error(hooks),
    ensures
        s.replay(hooks).error == s.error,
    decreases hooks.len(),
{
    if hooks.len() > 0 {
        let init = hooks.drop_last();
        assert(no_error(init)) by {
            assert forall|i: int| 0 <= i < init.len() implies !(#[trigger] init[i] is Error) by {
                assert(init[i] == hooks[i]);
            }
        }
        lemma_replay_keeps_error(s, init);
        assert(!(hooks[hooks.len() - 1] is Error));
    }
}

/// A failure is reported under the error that the engine named last.
///
/// Where the error hook was called with `code`, whatever went `before`, and
/// no call in `rest` reports another error, a failing compression gives the
/// error that `code` stands for.
pub proof fn lemma_failure_names_reported_error(
    before: Seq<Hook>,
    code: u32,
    rest: Seq<Hook>,
    write_to_file: bool,
)
    requires
        no_error(rest),
    ensures
        SessionState::idle().replay(before.push(Hook::Error { code }) + rest).outcome(
            false,
            write_to_file,
        ) == Err::<OutputContent, Error>(Error::of_report(Some(code))),
{
    let report = Hook::Error { code };
    assert(before.push(report).drop_last() == before);
    lemma_replay_joined(SessionState::idle(), before.push(report), rest);
    lemma_replay_keeps_error(SessionState::idle().replay(before.push(report)), rest);
}

/// A failure that the engine never explained is reported as
/// [`Error::Unknown`].
pub proof fn lemma_failure_without_report_is_unknown(hooks: Seq<Hook>, write_to_file: bool)
    requires
        no_error(hooks),
    ensures
        SessionState::idle().replay(hooks).outcome(false, write_to_file) == Err::<
            OutputContent,
            Error,
        >(Error::Unknown),
{
    lemma_replay_keeps_error(SessionState::idle(), hooks);
}

} // verus!
