//! A buffered interface: pixel data is queued in a caller-provided buffer as a list of
//! operations, and flushed to the display later, oldest operation first.
use vstd::prelude::*;

verus! {

/// Error of a buffered interface: an error of the underlying interface, or a limit of the
/// buffer reached.
#[derive(Debug)]
pub enum FlushingError<E> {
    /// Internal error reported from the underlying interface.
    Internal(E),
    /// Maximum number of queued operations reached.
    MaxOperationsReached,
    /// Buffer overflow.
    BufferOverflow,
}

impl<E> From<E> for FlushingError<E> {
    fn from(value: E) -> (r: Self) {
        FlushingError::Internal(value)
    }
}

impl<E> vstd::std_specs::convert::FromSpecImpl<E> for FlushingError<E> {
    open spec fn obeys_from_spec() -> bool {
        true
    }

    open spec fn from_spec(v: E) -> Self {
        FlushingError::Internal(v)
    }
}

/// The bytes of a sequence of pixels, pixel after pixel.
pub open spec fn flatten_pixels<const N: usize>(pixels: Seq<[u8; N]>) -> Seq<u8>
    decreases pixels.len(),
{
    if pixels.len() == 0 {
        Seq::empty()
    } else {
        flatten_pixels(pixels.drop_last()) + pixels.last()@
    }
}

/// `count` copies of `pixel`, one after the other.
pub open spec fn repeated(pixel: Seq<u8>, count: nat) -> Seq<u8>
    decreases count,
{
    if count == 0 {
        Seq::empty()
    } else {
        repeated(pixel, (count - 1) as nat) + pixel
    }
}

/// The bytes of `buf` that the operation `(start, len)` covers.
pub open spec fn op_bytes(buf: Seq<u8>, op: (usize, usize)) -> Seq<u8> {
    buf.subrange(op.0 as int, op.0 + op.1)
}

/// The bytes that flushing the queued operations `ops` sends, in order. `ops[0]` is the
/// newest operation and is sent last.
pub open spec fn pending_stream(buf: Seq<u8>, ops: Seq<(usize, usize)>) -> Seq<u8>
    decreases ops.len(),
{
    if ops.len() == 0 {
        Seq::empty()
    } else {
        pending_stream(buf, ops.drop_first()) + op_bytes(buf, ops[0])
    }
}

/// The bytes of two runs of pixels, one after the other, are the bytes of the first run
/// followed by those of the second.
pub proof fn lemma_flatten_pixels_append<const N: usize>(a: Seq<[u8; N]>, b: Seq<[u8; N]>)
    ensures
        flatten_pixels(a + b) == flatten_pixels(a) + flatten_pixels(b),
    decreases b.len(),
{
    if b.len() == 0 {
        assert(a + b =~= a);
        assert(flatten_pixels(a) + flatten_pixels(b) =~= flatten_pixels(a));
    } else {
        lemma_flatten_pixels_append(a, b.drop_last());
        assert((a + b).drop_last() =~= a + b.drop_last());
        assert((a + b).last() == b.last());
        assert(flatten_pixels(a + b) =~= flatten_pixels(a) + flatten_pixels(b));
    }
}

/// The bytes of the first `p` pixels followed by the first `j` bytes of pixel `p` are a
/// prefix of the bytes of all the pixels.
proof fn lemma_flatten_pixels_prefix<const N: usize>(s: Seq<[u8; N]>, p: int, j: int)
    requires
        0 <= p < s.len(),
        0 <= j <= N,
    ensures
        flatten_pixels(s.take(p)).len() + N <= flatten_pixels(s).len(),
        flatten_pixels(s.take(p)) + s[p]@.take(j) == flatten_pixels(s).take(
            flatten_pixels(s.take(p)).len() + j,
        ),
        flatten_pixels(s.take(p + 1)) == flatten_pixels(s.take(p)) + s[p]@,
{
    let head = s.take(p);
    let one = seq![s[p]];
    let tail = s.skip(p + 1);
    assert(s =~= head + one + tail);
    lemma_flatten_pixels_append(head + one, tail);
    lemma_flatten_pixels_append(head, one);
    assert(one.drop_last() =~= Seq::<[u8; N]>::empty());
    assert(flatten_pixels(one.drop_last()) =~= Seq::<u8>::empty());
    assert(one.last() == s[p]);
    assert(flatten_pixels(one) =~= s[p]@);
    assert(s.take(p + 1).drop_last() =~= head);
    assert(flatten_pixels(s.take(p)) + s[p]@.take(j) =~= flatten_pixels(s).take(
        flatten_pixels(s.take(p)).len() + j,
    ));
}

/// `count` copies of a pixel of `p.len()` bytes are `count * p.len()` bytes long.
pub proof fn lemma_repeated_len(p: Seq<u8>, count: nat)
    ensures
        repeated(p, count).len() == count * p.len(),
    decreases count,
{
    if count > 0 {
        let c1: nat = (count - 1) as nat;
        lemma_repeated_len(p, c1);
        assert(repeated(p, count).len() == repeated(p, c1).len() + p.len());
        assert(c1 * p.len() + p.len() == count * p.len()) by (nonlinear_arith)
            requires
                c1 + 1 == count,
        ;
    } else {
        assert(count * p.len() == 0) by (nonlinear_arith)
            requires
                count == 0,
        ;
    }
}

/// Every operation of `ops` ends at or before `end`.
pub open spec fn ops_end_by(ops: Seq<(usize, usize)>, end: nat) -> bool {
    forall|i: int| 0 <= i < ops.len() ==> (#[trigger] ops[i]).0 + ops[i].1 <= end
}

/// The operations of `ops` cover consecutive ranges, from the oldest (last) to the newest
/// (first), and the newest ends at `end`.
pub open spec fn ops_contiguous(ops: Seq<(usize, usize)>, end: nat) -> bool {
    &&& forall|i: int| 0 < i < ops.len() ==> (#[trigger] ops[i]).0 + ops[i].1 == ops[i - 1].0
    &&& ops.len() > 0 ==> ops[0].0 + ops[0].1 == end
}

/// The pending stream of `ops` depends only on the bytes below `end` when every operation
/// ends by `end`.
pub proof fn lemma_pending_stream_frame(
    buf1: Seq<u8>,
    buf2: Seq<u8>,
    ops: Seq<(usize, usize)>,
    end: nat,
)
    requires
        ops_end_by(ops, end),
        end <= buf1.len(),
        end <= buf2.len(),
        buf1.take(end as int) == buf2.take(end as int),
    ensures
        pending_stream(buf1, ops) == pending_stream(buf2, ops),
    decreases ops.len(),
{
    if ops.len() > 0 {
        assert(ops_end_by(ops.drop_first(), end)) by {
            assert forall|i: int| 0 <= i < ops.drop_first().len() implies
                (#[trigger] ops.drop_first()[i]).0 + ops.drop_first()[i].1 <= end by {
                assert(ops.drop_first()[i] == ops[i + 1]);
            }
        }
        lemma_pending_stream_frame(buf1, buf2, ops.drop_first(), end);
        let op = ops[0];
        assert(op.0 + op.1 <= end);
        assert(op_bytes(buf1, op) =~= op_bytes(buf2, op)) by {
            assert forall|k: int| 0 <= k < op_bytes(buf1, op).len() implies op_bytes(buf1, op)[k]
                == op_bytes(buf2, op)[k] by {
                assert(op_bytes(buf1, op)[k] == buf1[op.0 + k]);
                assert(op_bytes(buf2, op)[k] == buf2[op.0 + k]);
                assert(0 <= op.0 + k < end);
                assert(buf1.take(end as int)[op.0 + k] == buf1[op.0 + k]);
                assert(buf2.take(end as int)[op.0 + k] == buf2[op.0 + k]);
            }
        }
    }
}

/// The oldest queued operation is the first one that a flush sends.
pub proof fn lemma_pending_stream_oldest_first(buf: Seq<u8>, ops: Seq<(usize, usize)>)
    requires
        ops.len() > 0,
    ensures
        pending_stream(buf, ops) == op_bytes(buf, ops.last()) + pending_stream(buf, ops.drop_last()),
    decreases ops.len(),
{
    if ops.len() == 1 {
        assert(pending_stream(buf, ops.drop_first()) =~= Seq::<u8>::empty());
        assert(pending_stream(buf, ops.drop_last()) =~= Seq::<u8>::empty());
        assert(ops.last() == ops[0]);
        assert(pending_stream(buf, ops) =~= op_bytes(buf, ops.last()) + pending_stream(buf, ops.drop_last()));
    } else {
        let rest = ops.drop_first();
        lemma_pending_stream_oldest_first(buf, rest);
        assert(rest.last() == ops.last());
        assert(rest.drop_last() =~= ops.drop_last().drop_first());
        assert(ops.drop_last()[0] == ops[0]);
        assert(pending_stream(buf, ops) =~= op_bytes(buf, ops.last()) + pending_stream(buf, ops.drop_last()));
    }
}

/// Contiguous operations that end at `end` send one run of the buffer: from the start of the
/// oldest operation up to `end`.
pub proof fn lemma_pending_stream_contiguous(buf: Seq<u8>, ops: Seq<(usize, usize)>, end: nat)
    requires
        ops.len() > 0,
        ops_contiguous(ops, end),
        end <= buf.len(),
    ensures
        ops.last().0 <= end,
        pending_stream(buf, ops) == buf.subrange(ops.last().0 as int, end as int),
    decreases ops.len(),
{
    if ops.len() == 1 {
        assert(pending_stream(buf, ops.drop_first()) =~= Seq::<u8>::empty());
        assert(ops.last() == ops[0]);
        assert(pending_stream(buf, ops) =~= buf.subrange(ops.last().0 as int, end as int));
    } else {
        let rest = ops.drop_first();
        assert(ops_contiguous(rest, ops[0].0 as nat)) by {
            assert forall|i: int| 0 < i < rest.len() implies
                (#[trigger] rest[i]).0 + rest[i].1 == rest[i - 1].0 by {
                assert(rest[i] == ops[i + 1]);
                assert(rest[i - 1] == ops[i]);
            }
            assert(ops[1].0 + ops[1].1 == ops[0].0);
            assert(rest[0] == ops[1]);
        }
        lemma_pending_stream_contiguous(buf, rest, ops[0].0 as nat);
        assert(rest.last() == ops.last());
        assert(pending_stream(buf, ops) =~= buf.subrange(ops.last().0 as int, end as int));
    }
}

/// A buffered interface over an interface `DI` that uses a caller-provided buffer to hold
/// pixel data until it is flushed. Each transfer of pixels is queued as one operation, a
/// range of the buffer; at most `MAX_OPS` operations wait at a time.
pub struct BufferedInterface<'buffer, DI, const MAX_OPS: usize> {
    di: DI,
    buffer: &'buffer mut [u8],
    index: usize,
    /// Queued operations as `(start, len)`, the newest first.
    ops: Vec<(usize, usize)>,
}

impl<'buffer, DI, const MAX_OPS: usize> BufferedInterface<'buffer, DI, MAX_OPS> {
    /// The underlying interface.
    pub closed spec fn interface(&self) -> DI {
        self.di
    }

    /// The contents of the buffer.
    pub closed spec fn bytes(&self) -> Seq<u8> {
        self.buffer@
    }

    /// The position at which the next pixels are written.
    pub closed spec fn write_index(&self) -> nat {
        self.index as nat
    }

    /// The queued operations as `(start, len)`, the newest first.
    pub closed spec fn queued(&self) -> Seq<(usize, usize)> {
        self.ops@
    }

    /// The bytes that a flush sends, in order.
    pub open spec fn pending(&self) -> Seq<u8> {
        pending_stream(self.bytes(), self.queued())
    }

    /// The invariant that every buffered interface keeps.
    pub closed spec fn well_formed(&self) -> bool {
        &&& self.index <= self.buffer@.len()
        &&& self.ops@.len() <= MAX_OPS
        &&& ops_end_by(self.ops@, self.index as nat)
        &&& ops_contiguous(self.ops@, self.index as nat)
    }

    /// What every buffered interface keeps: the write index lies within the buffer, at most
    /// `MAX_OPS` operations are queued, and the queued operations cover consecutive ranges of
    /// the buffer that end at the write index.
    pub proof fn lemma_well_formed(&self)
        requires
            self.well_formed(),
        ensures
            self.write_index() <= self.bytes().len(),
            self.queued().len() <= MAX_OPS,
            ops_end_by(self.queued(), self.write_index()),
            ops_contiguous(self.queued(), self.write_index()),
    {
    }

    /// The bytes that a flush sends are one run of the buffer: from the start of the oldest
    /// queued operation up to the write index.
    pub proof fn lemma_pending_is_buffer_run(&self)
        requires
            self.well_formed(),
            self.queued().len() > 0,
        ensures
            self.queued().last().0 <= self.write_index(),
            self.pending() == self.bytes().subrange(
                self.queued().last().0 as int,
                self.write_index() as int,
            ),
    {
        lemma_pending_stream_contiguous(self.bytes(), self.queued(), self.write_index());
    }

    /// Creates a buffered interface that sends through `di` and queues pixel data in `buffer`.
    pub fn new(di: DI, buffer: &'buffer mut [u8]) -> (r: Self)
        ensures
            r.well_formed(),
            r.interface() == di,
            r.bytes() == old(buffer)@,
            r.write_index() == 0,
            r.queued() == Seq::<(usize, usize)>::empty(),
    {
        BufferedInterface { di, buffer, index: 0, ops: Vec::new() }
    }

    /// Returns the position at which the next pixels are written.
    pub fn index(&self) -> (r: usize)
        ensures
            r == self.write_index(),
    {
        self.index
    }

    /// Returns the size of the buffer.
    pub fn buffer_len(&self) -> (r: usize)
        ensures
            r == self.bytes().len(),
    {
        self.buffer.len()
    }

    /// Returns the number of queued operations.
    pub fn queued_len(&self) -> (r: usize)
        ensures
            r == self.queued().len(),
    {
        self.ops.len()
    }

    /// The next step of a flush: removes the oldest queued operation and returns its range
    /// `(start, len)` in the buffer, whose bytes are to be sent next; or, where none is
    /// queued, resets the write index to the start of the buffer and returns `None`.
    pub fn flush_step(&mut self) -> (r: Option<(usize, usize)>)
        requires
            old(self).well_formed(),
        ensures
            final(self).well_formed(),
            final(self).interface() == old(self).interface(),
            final(self).bytes() == old(self).bytes(),
            old(self).queued().len() == 0 ==> {
                &&& r is None
                &&& final(self).write_index() == 0
                &&& final(self).queued() == old(self).queued()
            },
            old(self).queued().len() > 0 ==> {
                &&& r == Some(old(self).queued().last())
                &&& final(self).write_index() == old(self).write_index()
                &&& final(self).queued() == old(self).queued().drop_last()
                &&& r.unwrap().0 + r.unwrap().1 <= old(self).bytes().len()
                &&& old(self).pending() == op_bytes(old(self).bytes(), r.unwrap())
                    + final(self).pending()
            },
            r is None ==> old(self).pending() == Seq::<u8>::empty(),
    {
        let r = match self.ops.pop() {
            Some(op) => {
                proof {
                    assert(old(self).ops@[old(self).ops@.len() - 1] == op);
                    lemma_pending_stream_oldest_first(self.buffer@, old(self).ops@);
                    assert(self.ops@ =~= old(self).ops@.drop_last());
                    assert(ops_end_by(self.ops@, self.index as nat)) by {
                        assert forall|i: int| 0 <= i < self.ops@.len() implies
                            (#[trigger] self.ops@[i]).0 + self.ops@[i].1 <= self.index by {
                            assert(self.ops@[i] == old(self).ops@[i]);
                        }
                    }
                    assert(ops_contiguous(self.ops@, self.index as nat)) by {
                        assert forall|i: int| 0 < i < self.ops@.len() implies
                            (#[trigger] self.ops@[i]).0 + self.ops@[i].1 == self.ops@[i - 1].0 by {
                            assert(self.ops@[i] == old(self).ops@[i]);
                            assert(self.ops@[i - 1] == old(self).ops@[i - 1]);
                        }
                        if self.ops@.len() > 0 {
                            assert(self.ops@[0] == old(self).ops@[0]);
                        }
                    }
                }
                Some(op)
            },
            None => {
                self.index = 0;
                None
            },
        };
        r
    }

    /// How many bytes of a transfer of `total` bytes fit in the buffer from the write index on.
    pub open spec fn room_for(&self, total: nat) -> nat {
        if self.write_index() + total <= self.bytes().len() {
            total
        } else {
            (self.bytes().len() - self.write_index()) as nat
        }
    }

    /// Copies the bytes of `pixels` into the buffer from the write index on and queues them
    /// as one operation.
    ///
    /// Where the bytes do not all fit, those that fit are copied and `BufferOverflow` is
    /// returned; where `MAX_OPS` operations are already queued, the bytes are copied and
    /// `MaxOperationsReached` is returned. In both cases nothing is queued.
    pub fn send_pixels<E, const N: usize>(&mut self, pixels: &[[u8; N]]) -> (r: Result<(), FlushingError<E>>)
        requires
            old(self).well_formed(),
        ensures
            final(self).well_formed(),
            final(self).interface() == old(self).interface(),
            ({
                let flat = flatten_pixels(pixels@);
                let idx = old(self).write_index();
                let written = old(self).room_for(flat.len());
                final(self).bytes() == old(self).bytes().take(idx as int) + flat.take(written as int)
                    + old(self).bytes().skip((idx + written) as int)
            }),
            old(self).write_index() + flatten_pixels(pixels@).len() > old(self).bytes().len() ==> {
                &&& r matches Err(FlushingError::BufferOverflow)
                &&& final(self).write_index() == old(self).write_index()
                &&& final(self).queued() == old(self).queued()
            },
            old(self).write_index() + flatten_pixels(pixels@).len() <= old(self).bytes().len()
                && old(self).queued().len() >= MAX_OPS ==> {
                &&& r matches Err(FlushingError::MaxOperationsReached)
                &&& final(self).write_index() == old(self).write_index()
                &&& final(self).queued() == old(self).queued()
            },
            old(self).write_index() + flatten_pixels(pixels@).len() <= old(self).bytes().len()
                && old(self).queued().len() < MAX_OPS ==> {
                &&& r is Ok
                &&& final(self).queued() == seq![
                    (old(self).write_index() as usize, flatten_pixels(pixels@).len() as usize),
                ] + old(self).queued()
                &&& final(self).write_index() == old(self).write_index() + flatten_pixels(
                    pixels@,
                ).len()
                &&& final(self).pending() == old(self).pending() + flatten_pixels(pixels@)
            },
    {
        let ghost old_buf = self.buffer@;
        let ghost flat = flatten_pixels(pixels@);
        let ghost idx = self.index as int;
        let cap: usize = self.buffer.len();
        let count: usize = pixels.len();
        let mut bytes: usize = 0;
        let mut p: usize = 0;
        assert(pixels@.take(0) =~= Seq::<[u8; N]>::empty());
        assert(self.buffer@ =~= old_buf.take(idx) + flatten_pixels(pixels@.take(0)) + old_buf.skip(idx));
        assert(pixels@.take(count as int) =~= pixels@);
        while p < count
            invariant_except_break
                bytes == flatten_pixels(pixels@.take(p as int)).len(),
                self.buffer@ == old_buf.take(idx) + flatten_pixels(pixels@.take(p as int))
                    + old_buf.skip(idx + bytes),
            invariant
                pixels@.take(count as int) == pixels@,
                old(self).well_formed(),
                count == pixels@.len(),
                p <= count,
                cap == old_buf.len(),
                self.buffer@.len() == cap,
                self.index == old(self).index,
                self.ops == old(self).ops,
                self.di == old(self).di,
                old_buf == old(self).buffer@,
                idx == self.index,
                flat == flatten_pixels(pixels@),
                idx + bytes <= cap,
            ensures
                self.buffer@.len() == cap,
                self.index == old(self).index,
                self.ops == old(self).ops,
                self.di == old(self).di,
                idx + flat.len() > cap ==> {
                    &&& bytes == cap - idx
                    &&& self.buffer@ == old_buf.take(idx) + flat.take(bytes as int)
                        + old_buf.skip(idx + bytes)
                    &&& p < count
                },
                idx + flat.len() <= cap ==> {
                    &&& bytes == flat.len()
                    &&& self.buffer@ == old_buf.take(idx) + flat + old_buf.skip(idx + bytes)
                    &&& p == count
                },
            decreases count - p,
        {
            let px: [u8; N] = pixels[p];
            proof {
                lemma_flatten_pixels_prefix(pixels@, p as int, 0);
            }
            let mut j: usize = 0;
            while j < N
                invariant
                    old(self).well_formed(),
                    count == pixels@.len(),
                    p < count,
                    px@ == pixels@[p as int]@,
                    j <= N,
                    cap == old_buf.len(),
                    self.buffer@.len() == cap,
                    self.index == old(self).index,
                    self.ops == old(self).ops,
                    self.di == old(self).di,
                    idx == self.index,
                    flat == flatten_pixels(pixels@),
                    bytes == flatten_pixels(pixels@.take(p as int)).len() + j,
                    flatten_pixels(pixels@.take(p as int)).len() + N <= flat.len(),
                    idx + bytes <= cap,
                    self.buffer@ == old_buf.take(idx) + flatten_pixels(pixels@.take(p as int))
                        + px@.take(j as int) + old_buf.skip(idx + bytes),
                ensures
                    self.buffer@.len() == cap,
                    self.index == old(self).index,
                    self.ops == old(self).ops,
                    self.di == old(self).di,
                    j == N ==> bytes == flatten_pixels(pixels@.take(p as int)).len() + N,
                    j == N ==> self.buffer@ == old_buf.take(idx) + flatten_pixels(pixels@.take(p as int))
                        + px@ + old_buf.skip(idx + bytes),
                    j < N ==> idx + flat.len() > cap && bytes == cap - idx
                        && self.buffer@ == old_buf.take(idx) + flat.take(bytes as int)
                        + old_buf.skip(idx + bytes),
                decreases N - j,
            {
                if self.index + bytes >= cap {
                    proof {
                        lemma_flatten_pixels_prefix(pixels@, p as int, j as int);
                    }
                    break;
                }
                let b: u8 = px[j];
                let at: usize = self.index + bytes;
                self.buffer[at] = b;
                proof {
                    assert(px@.take(j as int + 1) =~= px@.take(j as int).push(b));
                    assert(self.buffer@ =~= old_buf.take(idx) + flatten_pixels(pixels@.take(p as int))
                        + px@.take(j as int + 1) + old_buf.skip(idx + bytes + 1));
                }
                bytes = bytes + 1;
                j = j + 1;
            }
            if j < N {
                break;
            }
            proof {
                lemma_flatten_pixels_prefix(pixels@, p as int, N as int);
                assert(px@.take(N as int) =~= px@);
            }
            p = p + 1;
        }
        if p < count {
            return Err(FlushingError::BufferOverflow);
        }
        if self.ops.len() >= MAX_OPS {
            return Err(FlushingError::MaxOperationsReached);
        }
        let ghost prev_ops = self.ops@;
        let ghost prev_buf = self.buffer@;
        self.ops.insert(0, (self.index, bytes));
        self.index = self.index + bytes;
        proof {
            assert(self.ops@ =~= seq![(idx as usize, bytes)] + prev_ops);
            assert(self.ops@.drop_first() =~= prev_ops);
            assert(ops_end_by(self.ops@, self.index as nat)) by {
                assert forall|i: int| 0 <= i < self.ops@.len() implies
                    (#[trigger] self.ops@[i]).0 + self.ops@[i].1 <= self.index by {
                    if i > 0 {
                        assert(self.ops@[i] == prev_ops[i - 1]);
                    }
                }
            }
            assert(ops_contiguous(self.ops@, self.index as nat)) by {
                assert forall|i: int| 0 < i < self.ops@.len() implies
                    (#[trigger] self.ops@[i]).0 + self.ops@[i].1 == self.ops@[i - 1].0 by {
                    assert(self.ops@[i] == prev_ops[i - 1]);
                    if i > 1 {
                        assert(self.ops@[i - 1] == prev_ops[i - 2]);
                    }
                }
            }
            assert(prev_buf.take(idx) =~= old_buf.take(idx));
            lemma_pending_stream_frame(prev_buf, old_buf, prev_ops, idx as nat);
            assert(op_bytes(prev_buf, (idx as usize, bytes)) =~= flat);
        }
        Ok(())
    }

    /// Writes `count` copies of `pixel` to the buffer from the write index on and queues them
    /// as one operation of `N * count` bytes.
    ///
    /// Returns `BufferOverflow` where the copies do not fit in the buffer, and
    /// `MaxOperationsReached` where `MAX_OPS` operations are already queued; in both cases
    /// nothing changes.
    pub fn send_repeated_pixel<E, const N: usize>(&mut self, pixel: [u8; N], count: u32) -> (r:
        Result<(), FlushingError<E>>)
        requires
            old(self).well_formed(),
            old(self).write_index() + N * count <= usize::MAX,
        ensures
            final(self).well_formed(),
            final(self).interface() == old(self).interface(),
            old(self).write_index() + N * count > old(self).bytes().len() ==> {
                &&& r matches Err(FlushingError::BufferOverflow)
                &&& *final(self) == *old(self)
            },
            old(self).write_index() + N * count <= old(self).bytes().len() && old(self).queued().len()
                >= MAX_OPS ==> {
                &&& r matches Err(FlushingError::MaxOperationsReached)
                &&& *final(self) == *old(self)
            },
            old(self).write_index() + N * count <= old(self).bytes().len() && old(self).queued().len()
                < MAX_OPS ==> {
                &&& r is Ok
                &&& final(self).queued() == seq![
                    (old(self).write_index() as usize, (N * count) as usize),
                ] + old(self).queued()
                &&& final(self).write_index() == old(self).write_index() + N * count
                &&& final(self).bytes() == old(self).bytes().take(old(self).write_index() as int)
                    + repeated(pixel@, count as nat) + old(self).bytes().skip(
                    old(self).write_index() + N * count,
                )
                &&& final(self).pending() == old(self).pending() + repeated(pixel@, count as nat)
            },
    {
        proof {
            lemma_repeated_len(pixel@, count as nat);
            assert(count * N == N * count) by (nonlinear_arith);
            assert(N * count <= usize::MAX);
        }
        let n: usize = N * (count as usize);
        let cap: usize = self.buffer.len();
        if self.index + n > cap {
            return Err(FlushingError::BufferOverflow);
        }
        if self.ops.len() >= MAX_OPS {
            return Err(FlushingError::MaxOperationsReached);
        }
        let ghost old_buf = self.buffer@;
        let ghost prev_ops = self.ops@;
        let ghost idx = self.index as int;
        self.ops.insert(0, (self.index, n));
        let mut i: usize = self.index;
        let mut k: u32 = 0;
        assert(self.buffer@ =~= old_buf.take(idx) + repeated(pixel@, 0) + old_buf.skip(idx));
        while k < count
            invariant
                k <= count,
                pixel@.len() == N,
                i == idx + repeated(pixel@, k as nat).len(),
                n == repeated(pixel@, count as nat).len(),
                idx + n <= cap,
                cap == old_buf.len(),
                self.buffer@ == old_buf.take(idx) + repeated(pixel@, k as nat) + old_buf.skip(
                    i as int,
                ),
                self.index == idx,
                self.ops@ == seq![(idx as usize, n)] + prev_ops,
                self.di == old(self).di,
            decreases count - k,
        {
            proof {
                lemma_repeated_len(pixel@, k as nat);
                lemma_repeated_len(pixel@, (k + 1) as nat);
                lemma_repeated_len(pixel@, count as nat);
                let kk: int = k as int;
                let cc: int = count as int;
                let nn: int = N as int;
                assert(i == idx + kk * nn);
                assert(n == cc * nn);
                assert(kk * nn + nn <= cc * nn) by (nonlinear_arith)
                    requires
                        kk + 1 <= cc,
                        nn >= 0,
                ;
            }
            let mut j: usize = 0;
            while j < N
                invariant
                    j <= N,
                    pixel@.len() == N,
                    i + N <= idx + n,
                    i == idx + repeated(pixel@, k as nat).len(),
                    self.buffer@.len() == cap,
                    idx + n <= cap,
                    cap == old_buf.len(),
                    self.buffer@ == old_buf.take(idx) + repeated(pixel@, k as nat) + pixel@.take(
                        j as int,
                    ) + old_buf.skip(i + j),
                    self.index == idx,
                    self.ops@ == seq![(idx as usize, n)] + prev_ops,
                    self.di == old(self).di,
                decreases N - j,
            {
                let b: u8 = pixel[j];
                self.buffer[i + j] = b;
                proof {
                    assert(pixel@.take(j as int + 1) =~= pixel@.take(j as int).push(b));
                    assert(self.buffer@ =~= old_buf.take(idx) + repeated(pixel@, k as nat)
                        + pixel@.take(j as int + 1) + old_buf.skip(i + j + 1));
                }
                j = j + 1;
            }
            assert(pixel@.take(N as int) =~= pixel@);
            i = i + N;
            k = k + 1;
            assert(repeated(pixel@, k as nat) == repeated(pixel@, (k - 1) as nat) + pixel@);
            assert(old_buf.take(idx) + repeated(pixel@, (k - 1) as nat) + pixel@ =~= old_buf.take(
                idx,
            ) + repeated(pixel@, k as nat));
        }
        let ghost new_buf = self.buffer@;
        self.index = self.index + n;
        proof {
            assert(self.ops@.drop_first() =~= prev_ops);
            assert(ops_end_by(self.ops@, self.index as nat)) by {
                assert forall|q: int| 0 <= q < self.ops@.len() implies
                    (#[trigger] self.ops@[q]).0 + self.ops@[q].1 <= self.index by {
                    if q > 0 {
                        assert(self.ops@[q] == prev_ops[q - 1]);
                    }
                }
            }
            assert(ops_contiguous(self.ops@, self.index as nat)) by {
                assert forall|q: int| 0 < q < self.ops@.len() implies
                    (#[trigger] self.ops@[q]).0 + self.ops@[q].1 == self.ops@[q - 1].0 by {
                    assert(self.ops@[q] == prev_ops[q - 1]);
                    if q > 1 {
                        assert(self.ops@[q - 1] == prev_ops[q - 2]);
                    }
                }
            }
            assert(new_buf.take(idx) =~= old_buf.take(idx));
            lemma_pending_stream_frame(new_buf, old_buf, prev_ops, idx as nat);
            assert(op_bytes(new_buf, (idx as usize, n)) =~= repeated(pixel@, count as nat));
        }
        Ok(())
    }

    /// Returns the underlying interface, to send commands or data through it.
    pub fn interface_mut(&mut self) -> (r: &mut DI)
        requires
            old(self).well_formed(),
        ensures
            final(self).well_formed(),
            *r == old(self).interface(),
            final(self).interface() == *final(r),
            final(self).bytes() == old(self).bytes(),
            final(self).write_index() == old(self).write_index(),
            final(self).queued() == old(self).queued(),
    {
        &mut self.di
    }

    /// Returns the underlying interface together with the buffer bytes `start..start + len`,
    /// to send those bytes through it.
    pub fn transfer_parts(&mut self, start: usize, len: usize) -> (r: (&mut DI, &[u8]))
        requires
            old(self).well_formed(),
            start + len <= old(self).bytes().len(),
        ensures
            final(self).well_formed(),
            *r.0 == old(self).interface(),
            r.1@ == old(self).bytes().subrange(start as int, start + len),
            final(self).interface() == *final(r.0),
            final(self).bytes() == old(self).bytes(),
            final(self).write_index() == old(self).write_index(),
            final(self).queued() == old(self).queued(),
    {
        let capacity: usize = self.buffer.len();
        assert(start + len <= capacity);
        let bytes: &[u8] = vstd::slice::slice_subrange(&*self.buffer, start, start + len);
        (&mut self.di, bytes)
    }
}

} // verus!
