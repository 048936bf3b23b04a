// The streaming copier: accepts the bytes each read delivered, stages them in
// a block-sized buffer, and hands out exactly the writes the output must
// perform.  The ghost history of bytes received and writes handed out carries
// the proofs: every byte goes out in order exactly once, writes are never
// empty, each write but the last is a full block, and the write count is the
// block count of the input.

use vstd::prelude::*;
use vstd::arithmetic::div_mod::lemma_fundamental_div_mod_converse;
use bytes::BytesMut;
use crate::bytebuf::{buf_model, buf_with_capacity, buf_extend, buf_clear, buf_contents};

verus! {

/// The concatenation of a sequence of writes, oldest first.
pub open spec fn concat_writes(ws: Seq<Seq<u8>>) -> Seq<u8>
    decreases ws.len(),
{
    if ws.len() == 0 {
        Seq::empty()
    } else {
        concat_writes(ws.drop_last()) + ws.last()
    }
}

/// Drives one streaming copy: bytes come in through `accept_read`, block-sized
/// writes come back out, and `finish` flushes whatever remains when the source
/// is exhausted.
pub struct StreamCopier {
    /// The block size: the buffer is flushed exactly when it holds this much.
    pub bs: usize,
    /// The staging buffer.
    pub buf: BytesMut,
    /// How many bytes the staging buffer currently holds.
    pub fill: usize,
    /// Whether end of stream has been reached.
    pub eof: bool,
    /// Every byte accepted so far, in order.
    pub history: Ghost<Seq<u8>>,
    /// Every write handed out so far, in order.
    pub writes: Ghost<Seq<Seq<u8>>>,
}

impl StreamCopier {
    pub open spec fn wf(self) -> bool {
        &&& self.bs >= 1
        &&& self.fill == buf_model(self.buf).len()
        &&& self.fill <= self.bs
        &&& concat_writes(self.writes@) + buf_model(self.buf) == self.history@
        &&& forall|i: int|
            0 <= i < self.writes@.len() ==> 1 <= (#[trigger] self.writes@[i]).len() <= self.bs
        &&& if self.eof {
            self.fill == 0
        } else {
            &&& self.fill < self.bs
            &&& forall|i: int|
                0 <= i < self.writes@.len() ==> (#[trigger] self.writes@[i]).len() == self.bs
            &&& concat_writes(self.writes@).len() == self.writes@.len() * self.bs
        }
    }

    pub fn new(bs: usize) -> (r: StreamCopier)
        requires
            bs >= 1,
        ensures
            r.wf(),
            r.bs == bs,
            !r.eof,
            r.history@ == Seq::<u8>::empty(),
            r.writes@ == Seq::<Seq<u8>>::empty(),
    {
        let buf = buf_with_capacity(bs);
        let r = StreamCopier {
            bs,
            buf,
            fill: 0,
            eof: false,
            history: Ghost(Seq::empty()),
            writes: Ghost(Seq::empty()),
        };
        proof {
            assert(concat_writes(r.writes@) + buf_model(r.buf) =~= Seq::<u8>::empty());
        }
        r
    }

    /// Free space left in the staging buffer: the most the next read may
    /// deliver without overfilling it.
    pub fn space(&self) -> (r: usize)
        requires
            self.wf(),
            !self.eof,
        ensures
            r == self.bs - self.fill,
            r >= 1,
    {
        self.bs - self.fill
    }

    /// One read delivered `chunk` (nonempty, at most the free space).  The
    /// bytes are staged; exactly when they fill the buffer to the block size,
    /// the whole block comes back to be written and the buffer starts over.
    pub fn accept_read(&mut self, chunk: &[u8]) -> (w: Option<Vec<u8>>)
        requires
            old(self).wf(),
            !old(self).eof,
            chunk@.len() >= 1,
            old(self).fill + chunk@.len() <= old(self).bs,
        ensures
            final(self).wf(),
            !final(self).eof,
            final(self).bs == old(self).bs,
            final(self).history@ == old(self).history@ + chunk@,
            match w {
                Some(v) => {
                    &&& old(self).fill + chunk@.len() == old(self).bs
                    &&& v@ == buf_model(old(self).buf) + chunk@
                    &&& v@.len() == old(self).bs
                    &&& final(self).writes@ == old(self).writes@.push(v@)
                    &&& final(self).fill == 0
                },
                None => {
                    &&& old(self).fill + chunk@.len() < old(self).bs
                    &&& final(self).writes@ == old(self).writes@
                    &&& final(self).fill == old(self).fill + chunk@.len()
                    &&& buf_model(final(self).buf) == buf_model(old(self).buf) + chunk@
                },
            },
    {
        buf_extend(&mut self.buf, chunk);
        self.fill = self.fill + chunk.len();
        proof {
            assert((concat_writes(self.writes@) + buf_model(old(self).buf)) + chunk@
                =~= concat_writes(self.writes@) + (buf_model(old(self).buf) + chunk@));
        }
        self.history = Ghost(self.history@ + chunk@);
        if self.fill == self.bs {
            let v = buf_contents(&self.buf);
            buf_clear(&mut self.buf);
            self.fill = 0;
            let ghost prior_writes = self.writes@;
            self.writes = Ghost(self.writes@.push(v@));
            proof {
                assert(self.writes@.drop_last() =~= prior_writes);
                assert(concat_writes(self.writes@)
                    == concat_writes(prior_writes) + v@);
                assert(concat_writes(self.writes@) + buf_model(self.buf)
                    =~= concat_writes(self.writes@));
                assert((prior_writes.len() + 1) * self.bs
                    == prior_writes.len() * self.bs + self.bs) by (nonlinear_arith);
            }
            Some(v)
        } else {
            None
        }
    }

    /// End of stream: the read delivered zero bytes.  Flushes the staging
    /// buffer if it holds anything.  Afterwards the writes handed out over
    /// the whole run concatenate to exactly the bytes received, none of them
    /// is empty, their number is the block count of the input, and the last
    /// carries the remainder bytes, or a full block when the input length is
    /// an exact multiple of the block size.
    pub fn finish(&mut self) -> (w: Option<Vec<u8>>)
        requires
            old(self).wf(),
            !old(self).eof,
        ensures
            final(self).wf(),
            final(self).eof,
            final(self).bs == old(self).bs,
            final(self).history@ == old(self).history@,
            concat_writes(final(self).writes@) == final(self).history@,
            forall|i: int|
                0 <= i < final(self).writes@.len() ==> (#[trigger] final(self).writes@[i]).len()
                    >= 1,
            final(self).writes@.len() == (final(self).history@.len() as int + final(self).bs - 1)
                / (final(self).bs as int),
            final(self).writes@.len() > 0 ==> final(self).writes@.last().len() == (
            if (final(self).history@.len() as int) % (final(self).bs as int) == 0 {
                final(self).bs as int
            } else {
                (final(self).history@.len() as int) % (final(self).bs as int)
            }),
            match w {
                Some(v) => {
                    &&& old(self).fill >= 1
                    &&& v@ == buf_model(old(self).buf)
                    &&& final(self).writes@ == old(self).writes@.push(v@)
                },
                None => {
                    &&& old(self).fill == 0
                    &&& final(self).writes@ == old(self).writes@
                },
            },
    {
        self.eof = true;
        let ghost n = self.writes@.len();
        let ghost len_total = self.history@.len();
        if self.fill >= 1 {
            let v = buf_contents(&self.buf);
            buf_clear(&mut self.buf);
            let ghost last_len = self.fill as int;
            self.fill = 0;
            let ghost prior_writes = self.writes@;
            self.writes = Ghost(self.writes@.push(v@));
            proof {
                assert(self.writes@.drop_last() =~= prior_writes);
                assert(concat_writes(self.writes@)
                    == concat_writes(prior_writes) + v@);
                assert(concat_writes(self.writes@) =~= self.history@);
                assert(concat_writes(self.writes@) + buf_model(self.buf)
                    =~= concat_writes(self.writes@));
                assert(len_total == n * self.bs + last_len);
                assert((len_total + self.bs - 1) as int
                    == (n + 1) * self.bs + (last_len - 1)) by (nonlinear_arith)
                    requires
                        len_total == n * self.bs + last_len,
                        self.bs >= 1,
                ;
                lemma_fundamental_div_mod_converse(
                    (len_total + self.bs - 1) as int,
                    self.bs as int,
                    (n + 1) as int,
                    last_len - 1,
                );
                lemma_fundamental_div_mod_converse(
                    len_total as int,
                    self.bs as int,
                    n as int,
                    last_len,
                );
            }
            Some(v)
        } else {
            proof {
                assert(buf_model(self.buf) =~= Seq::<u8>::empty());
                assert(concat_writes(self.writes@) + buf_model(self.buf)
                    =~= concat_writes(self.writes@));
                assert(len_total == n * self.bs);
                assert((len_total + self.bs - 1) as int
                    == n * self.bs + (self.bs - 1)) by (nonlinear_arith)
                    requires
                        len_total == n * self.bs,
                        self.bs >= 1,
                ;
                lemma_fundamental_div_mod_converse(
                    (len_total + self.bs - 1) as int,
                    self.bs as int,
                    n as int,
                    self.bs - 1,
                );
                lemma_fundamental_div_mod_converse(
                    len_total as int,
                    self.bs as int,
                    n as int,
                    0,
                );
            }
            None
        }
    }
}

} // verus!
