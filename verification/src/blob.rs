//! A readable byte blob with a cursor, as the peer directory hands its
//! records out: each read returns the next bytes and advances, so a
//! record is consumed front to back exactly once.

use vstd::prelude::*;

verus! {

/// A byte blob and a read cursor over it.
#[derive(Clone, Debug)]
pub struct Blob {
    /// The bytes.
    pub data: Vec<u8>,
    /// How many bytes have been read so far.
    pub pos: usize,
}

impl Blob {
    /// A blob is well formed when its cursor is inside the data.
    pub open spec fn wf(&self) -> bool {
        self.pos <= self.data@.len()
    }

    /// Bytes not yet read.
    pub open spec fn remaining(&self) -> Seq<u8> {
        self.data@.skip(self.pos as int)
    }

    /// Reads up to `n` bytes, advancing the cursor past them.
    pub fn read(&mut self, n: usize) -> (r: Vec<u8>)
        requires
            old(self).wf(),
        ensures
            final(self).wf(),
            final(self).data@ == old(self).data@,
            r@.len() == if n as int <= old(self).remaining().len() {
                n as int
            } else {
                old(self).remaining().len() as int
            },
            r@ == old(self).remaining().take(r@.len() as int),
            final(self).pos == old(self).pos + r@.len(),
    {
        let avail = self.data.len() - self.pos;
        let take_n = if n <= avail {
            n
        } else {
            avail
        };
        let dn = self.data.len();
        let mut out: Vec<u8> = Vec::new();
        let mut i: usize = 0;
        while i < take_n
            invariant
                self.wf(),
                self == old(self),
                dn == self.data@.len(),
                take_n <= self.data@.len() - self.pos,
                i <= take_n,
                out@ == self.data@.subrange(self.pos as int, self.pos + i),
            decreases take_n - i,
        {
            proof {
                assert(self.pos + i < self.data@.len());
            }
            out.push(self.data[self.pos + i]);
            proof {
                assert(out@ =~= self.data@.subrange(self.pos as int, self.pos + i + 1));
            }
            i += 1;
        }
        self.pos = self.pos + take_n;
        proof {
            assert(out@ =~= old(self).remaining().take(out@.len() as int));
        }
        out
    }
}

impl From<Vec<u8>> for Blob {
    /// Wraps bytes as an unread blob.
    fn from(data: Vec<u8>) -> (r: Blob) {
        Blob { data, pos: 0 }
    }
}

impl vstd::std_specs::convert::FromSpecImpl<Vec<u8>> for Blob {
    open spec fn obeys_from_spec() -> bool {
        true
    }

    open spec fn from_spec(data: Vec<u8>) -> Blob {
        Blob { data, pos: 0 }
    }
}

} // verus!
