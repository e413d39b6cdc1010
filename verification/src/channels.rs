use vstd::prelude::*;

verus! {

/// A byte-input source: a run of bytes handed over up front, consumed one
/// byte at a time from the front. Its view is the sequence of bytes still
/// unread.
pub struct ByteInputSource {
    data: Vec<u8>,
    pos: usize,
}

impl View for ByteInputSource {
    type V = Seq<u8>;

    closed spec fn view(&self) -> Seq<u8> {
        self.data@.skip(self.pos as int)
    }
}

impl ByteInputSource {
    /// The source invariant: the read position never passes the end of the
    /// underlying bytes.
    pub closed spec fn wf(&self) -> bool {
        self.pos <= self.data@.len()
    }

    /// Create a source that will yield the bytes of `data` in order.
    pub fn new(data: Vec<u8>) -> (s: ByteInputSource)
        ensures
            s.wf(),
            s@ == data@,
    {
        let s = ByteInputSource { data, pos: 0 };
        proof {
            assert(s@ =~= s.data@);
        }
        s
    }

    /// Pull exactly one byte, or signal exhaustion with `None`. An
    /// exhausted source stays exhausted.
    pub fn read_byte(&mut self) -> (r: Option<u8>)
        requires
            old(self).wf(),
        ensures
            final(self).wf(),
            old(self)@.len() > 0 ==> r == Some(old(self)@[0]) && final(self)@ == old(self)@.skip(
                1,
            ),
            old(self)@.len() == 0 ==> r == None::<u8> && final(self)@ == old(self)@,
    {
        if self.pos < self.data.len() {
            let b = self.data[self.pos];
            self.pos = self.pos + 1;
            proof {
                assert(self@ =~= old(self)@.skip(1));
            }
            Some(b)
        } else {
            None
        }
    }
}

/// A byte-output sink: accepts one byte at a time and remembers every byte
/// it was handed, in order. Its view is the sequence of bytes written so
/// far.
pub struct ByteOutputSink {
    data: Vec<u8>,
}

impl View for ByteOutputSink {
    type V = Seq<u8>;

    closed spec fn view(&self) -> Seq<u8> {
        self.data@
    }
}

impl ByteOutputSink {
    /// Create a sink that has received nothing yet.
    pub fn new() -> (s: ByteOutputSink)
        ensures
            s@ == Seq::<u8>::empty(),
    {
        let s = ByteOutputSink { data: Vec::new() };
        proof {
            assert(s@ =~= Seq::<u8>::empty());
        }
        s
    }

    /// Accept exactly one byte.
    pub fn write_byte(&mut self, b: u8)
        ensures
            final(self)@ == old(self)@.push(b),
    {
        self.data.push(b);
    }

    /// Hand back every byte written so far, in the order written.
    pub fn into_bytes(self) -> (bytes: Vec<u8>)
        ensures
            bytes@ == self@,
    {
        self.data
    }
}

} // verus!
