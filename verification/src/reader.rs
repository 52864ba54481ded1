use vstd::prelude::*;

verus! {

/// Reads a recording that is held in memory, piece by piece, into the
/// buffers that the decoder hands it.
pub struct SliceReader {
    data: &'static [u8],
    pos: usize,
}

impl SliceReader {
    #[verifier::type_invariant]
    spec fn inv(self) -> bool {
        self.pos <= self.data@.len()
    }

    /// The bytes that are still to be read.
    pub closed spec fn remaining(self) -> Seq<u8> {
        self.data@.subrange(self.pos as int, self.data@.len() as int)
    }

    /// A reader at the start of `data`.
    pub fn new(data: &'static [u8]) -> (reader: SliceReader)
        ensures
            reader.remaining() == data@,
    {
        SliceReader { data, pos: 0 }
    }

    /// Whether every byte has been read.
    pub fn is_exhausted(&self) -> (done: bool)
        ensures
            done == (self.remaining().len() == 0),
    {
        proof {
            use_type_invariant(self);
        }
        self.pos == self.data.len()
    }

    /// Copies as many of the remaining bytes as fit into the front of `out`
    /// and returns how many it copied, or `None` when nothing was left to
    /// copy, in which case nothing changes. The rest of `out` is left as it
    /// was; what was copied is no longer remaining.
    pub fn read(&mut self, out: &mut [u8]) -> (read: Option<usize>)
        requires
            old(out)@.len() > 0,
        ensures
            final(out)@.len() == old(out)@.len(),
            old(self).remaining().len() == 0 ==> {
                &&& read is None
                &&& final(self).remaining() == old(self).remaining()
                &&& final(out)@ == old(out)@
            },
            old(self).remaining().len() > 0 ==> {
                let n = if old(out)@.len() < old(self).remaining().len() {
                    old(out)@.len() as int
                } else {
                    old(self).remaining().len() as int
                };
                &&& read == Some(n as usize)
                &&& final(out)@ == old(self).remaining().take(n) + old(out)@.skip(n)
                &&& final(self).remaining() == old(self).remaining().skip(n)
                &&& old(self).remaining() == final(out)@.take(n) + final(self).remaining()
            },
    {
        proof {
            use_type_invariant(&*self);
        }
        let dlen = self.data.len();
        let left = dlen - self.pos;
        let len = if out.len() < left {
            out.len()
        } else {
            left
        };
        let ghost start = out@;
        let mut i: usize = 0;
        while i < len
            invariant
                len <= out@.len(),
                dlen == self.data@.len(),
                len <= self.data@.len() - self.pos,
                self.pos <= self.data@.len(),
                out@.len() == start.len(),
                i <= len,
                forall|j: int| 0 <= j < i ==> out@[j] == self.data@[self.pos + j],
                forall|j: int| i <= j < out@.len() ==> out@[j] == start[j],
            decreases len - i,
        {
            out[i] = self.data[self.pos + i];
            i = i + 1;
        }
        let ghost before = self.remaining();
        self.pos = self.pos + len;
        if len == 0 {
            assert(out@ =~= start);
            return None;
        }
        assert(out@ =~= before.take(len as int) + start.skip(len as int));
        assert(self.remaining() =~= before.skip(len as int));
        assert(before =~= out@.take(len as int) + self.remaining());
        Some(len)
    }
}

} // verus!
