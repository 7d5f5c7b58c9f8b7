use vstd::prelude::*;

verus! {

/// The bytes `v[from..to]`, copied.
pub(crate) fn copy_range(v: &Vec<u8>, from: usize, to: usize) -> (r: Vec<u8>)
    requires
        from <= to <= v@.len(),
    ensures
        r@ == v@.subrange(from as int, to as int),
{
    let mut r: Vec<u8> = Vec::new();
    let mut i: usize = from;
    while i < to
        invariant
            from <= i <= to <= v@.len(),
            r@ == v@.subrange(from as int, i as int),
        decreases to - i,
    {
        r.push(v[i]);
        proof {
            assert(v@.subrange(from as int, i + 1) == v@.subrange(from as int, i as int).push(
                v@[i as int],
            ));
        }
        i = i + 1;
    }
    r
}

/// A lazy sequence of byte chunks over a buffer held in memory: it hands
/// out what it has not handed out yet as one chunk, then ends.
#[derive(Clone, Debug)]
pub struct BytesStream {
    bytes: Vec<u8>,
    bytes_read: usize,
}

impl BytesStream {
    /// The bytes that the stream has still to hand out.
    pub closed spec fn remaining(&self) -> Seq<u8> {
        if self.bytes_read <= self.bytes@.len() {
            self.bytes@.subrange(self.bytes_read as int, self.bytes@.len() as int)
        } else {
            Seq::empty()
        }
    }

    /// A stream that will hand out `bytes`.
    pub fn new(bytes: Vec<u8>) -> (r: BytesStream)
        ensures
            r.remaining() == bytes@,
    {
        let r = BytesStream { bytes, bytes_read: 0 };
        assert(r.remaining() == r.bytes@.subrange(0, r.bytes@.len() as int));
        assert(r.bytes@.subrange(0, r.bytes@.len() as int) == r.bytes@);
        r
    }

    /// The next chunk: all that remains, or `None` once nothing does.
    pub fn next_chunk(&mut self) -> (r: Option<Vec<u8>>)
        ensures
            old(self).remaining().len() == 0 ==> r is None,
            old(self).remaining().len() > 0 ==> r is Some && r->Some_0@ == old(self).remaining(),
            final(self).remaining().len() == 0,
    {
        let len = self.bytes.len();
        if self.bytes_read < len {
            let chunk = copy_range(&self.bytes, self.bytes_read, len);
            self.bytes_read = len;
            Some(chunk)
        } else {
            None
        }
    }
}

} // verus!
