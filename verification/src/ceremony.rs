//! Incremental assembly of the three fixed-length handshake messages.
//!
//! A handshake act arrives over a byte stream in chunks of arbitrary size.
//! [`ActBuilder`] absorbs those chunks into a buffer of the exact target
//! length, never consuming bytes beyond that length, and yields an immutable
//! [`Act`] once the buffer is complete.

use vstd::prelude::*;

verus! {

/// Exact byte length of the first handshake message.
pub const ACT_ONE_LENGTH: usize = 50;
/// Exact byte length of the second handshake message.
pub const ACT_TWO_LENGTH: usize = 50;
/// Exact byte length of the third handshake message.
pub const ACT_THREE_LENGTH: usize = 66;

/// Which of the three handshake messages a buffer or act belongs to.
#[derive(Clone, Copy, Debug, PartialEq, Eq, Structural)]
pub enum ActKind {
    One,
    Two,
    Three,
}

impl ActKind {
    /// The fixed length that a message of this kind must have.
    pub open spec fn spec_len(self) -> int {
        match self {
            ActKind::One => ACT_ONE_LENGTH as int,
            ActKind::Two => ACT_TWO_LENGTH as int,
            ActKind::Three => ACT_THREE_LENGTH as int,
        }
    }

    /// Executable counterpart of [`ActKind::spec_len`].
    pub fn len(self) -> (n: usize)
        ensures
            n as int == self.spec_len(),
    {
        match self {
            ActKind::One => ACT_ONE_LENGTH,
            ActKind::Two => ACT_TWO_LENGTH,
            ActKind::Three => ACT_THREE_LENGTH,
        }
    }
}

/// One of the three fixed-length handshake messages, immutable once built.
#[derive(Clone, Debug)]
pub enum Act {
    One(Vec<u8>),
    Two(Vec<u8>),
    Three(Vec<u8>),
}

impl View for Act {
    type V = Seq<u8>;

    open spec fn view(&self) -> Seq<u8> {
        match self {
            Act::One(data) => data@,
            Act::Two(data) => data@,
            Act::Three(data) => data@,
        }
    }
}

impl Act {
    /// Which handshake message this act is.
    pub open spec fn spec_kind(&self) -> ActKind {
        match self {
            Act::One(_) => ActKind::One,
            Act::Two(_) => ActKind::Two,
            Act::Three(_) => ActKind::Three,
        }
    }

    /// A well-formed act carries exactly the fixed number of bytes of its kind.
    pub open spec fn wf(&self) -> bool {
        self@.len() == self.spec_kind().spec_len()
    }

    /// Executable counterpart of [`Act::spec_kind`].
    pub fn kind(&self) -> (k: ActKind)
        ensures
            k == self.spec_kind(),
    {
        match self {
            Act::One(_) => ActKind::One,
            Act::Two(_) => ActKind::Two,
            Act::Three(_) => ActKind::Three,
        }
    }

    /// The size that the underlying message of this kind occupies on the wire.
    pub fn len(&self) -> (n: usize)
        ensures
            n as int == self.spec_kind().spec_len(),
    {
        self.kind().len()
    }

    /// The message bytes.
    pub fn as_vec(&self) -> (r: &Vec<u8>)
        ensures
            r@ == self@,
    {
        match self {
            Act::One(data) => data,
            Act::Two(data) => data,
            Act::Three(data) => data,
        }
    }
}

/// Accumulator that assembles one fixed-length handshake message from
/// arbitrarily chunked stream input: a target kind plus a backing buffer
/// whose length is the write cursor.
#[derive(Debug)]
pub struct ActBuilder {
    kind: ActKind,
    buf: Vec<u8>,
}

/// Copies `min(target - buf.len(), input.len())` bytes of `input` onto the
/// end of `buf` and returns how many were consumed; the rest of `input` is
/// untouched and remains for the caller.
fn fill_vec(buf: &mut Vec<u8>, target: usize, input: &[u8]) -> (n: usize)
    requires
        old(buf)@.len() <= target,
    ensures
        n as int == vstd::math::min(target - old(buf)@.len(), input@.len() as int),
        final(buf)@ == old(buf)@ + input@.subrange(0, n as int),
{
    let room = target - buf.len();
    let n = if input.len() < room {
        input.len()
    } else {
        room
    };
    let mut i: usize = 0;
    while i < n
        invariant
            i <= n,
            n <= input@.len(),
            buf@ == old(buf)@ + input@.subrange(0, i as int),
        decreases n - i,
    {
        buf.push(input[i]);
        proof {
            assert(input@.subrange(0, i + 1) =~= input@.subrange(0, i as int)
                + seq![input@[i as int]]);
            assert(buf@ =~= old(buf)@ + input@.subrange(0, i + 1));
        }
        i = i + 1;
    }
    proof {
        assert(buf@ =~= old(buf)@ + input@.subrange(0, n as int));
    }
    n
}

impl ActBuilder {
    /// The bytes assembled so far.
    pub closed spec fn data(&self) -> Seq<u8> {
        self.buf@
    }

    /// Which handshake message is being assembled.
    pub closed spec fn spec_kind(&self) -> ActKind {
        self.kind
    }

    /// The fixed length the assembled message must reach.
    pub open spec fn spec_target_len(&self) -> int {
        self.spec_kind().spec_len()
    }

    /// A builder is well formed while its cursor stays within the target.
    pub open spec fn wf(&self) -> bool {
        self.data().len() <= self.spec_target_len()
    }

    /// A builder is complete exactly when the cursor reached the target.
    pub open spec fn complete(&self) -> bool {
        self.data().len() == self.spec_target_len()
    }

    /// Returns a fresh builder for the same kind of message as `empty_act`,
    /// with nothing assembled yet.
    pub fn new(empty_act: Act) -> (r: ActBuilder)
        ensures
            r.wf(),
            r.data() == Seq::<u8>::empty(),
            r.spec_kind() == empty_act.spec_kind(),
    {
        ActBuilder { kind: empty_act.kind(), buf: Vec::new() }
    }

    /// Write cursor: how many bytes have been assembled so far.
    pub fn write_pos(&self) -> (n: usize)
        ensures
            n as int == self.data().len(),
    {
        self.buf.len()
    }

    /// Executable counterpart of [`ActBuilder::spec_target_len`].
    pub fn target_len(&self) -> (n: usize)
        ensures
            n as int == self.spec_target_len(),
    {
        self.kind.len()
    }

    /// Consumes `min(remaining capacity, input.len())` bytes of `input` into
    /// the buffer and returns the number consumed; bytes beyond the target
    /// length are left for the caller.
    pub fn fill(&mut self, input: &[u8]) -> (n: usize)
        requires
            old(self).wf(),
        ensures
            final(self).wf(),
            final(self).spec_kind() == old(self).spec_kind(),
            n as int == vstd::math::min(
                old(self).spec_target_len() - old(self).data().len(),
                input@.len() as int,
            ),
            final(self).data() == old(self).data() + input@.subrange(0, n as int),
    {
        let target = self.kind.len();
        fill_vec(&mut self.buf, target, input)
    }

    /// True exactly when the message is fully assembled.
    pub fn is_finished(&self) -> (r: bool)
        ensures
            r == self.complete(),
    {
        self.buf.len() == self.kind.len()
    }

    /// Converts a finished builder into the immutable act it assembled.
    ///
    /// Calling this on an incomplete builder is a contract violation, ruled
    /// out statically: no verified caller can finalize a partial buffer, so a
    /// truncated act can never be produced.
    pub fn finalize(self) -> (act: Act)
        requires
            self.wf(),
            self.complete(),
        ensures
            act.wf(),
            act@ == self.data(),
            act.spec_kind() == self.spec_kind(),
    {
        match self.kind {
            ActKind::One => Act::One(self.buf),
            ActKind::Two => Act::Two(self.buf),
            ActKind::Three => Act::Three(self.buf),
        }
    }
}

} // verus!
