//! Reading a host handle to its end through bounded windows.
//!
//! A handle that reports a size is read window by window from offset 0 until
//! the size is reached. One that reports 0 is taken for a pipe and read from
//! offset 0 again and again. Either way an empty reply ends the read, and so
//! does reaching the cap on the bytes gathered.

use crate::error::{lift, lifted, VtxError, VtxResult};
use crate::host::{Buffer, Host};
use crate::json::{parse_with, parsed_from};
use crate::text::{string_from_utf8, utf8_error_text};
use vstd::prelude::*;
use vstd::utf8::{encode_utf8, valid_utf8};

verus! {

/// The size of one read window: 64 KiB.
pub const CHUNK_SIZE: u64 = 65536;

/// The cap on the bytes that one read to the end gathers: 64 MiB.
pub const MAX_TOTAL_BYTES: usize = 67108864;

/// The two bounds of a read to the end.
#[derive(Clone, Copy, Debug)]
pub struct ReadLimits {
    /// The most bytes asked for in one read.
    pub chunk: u64,
    /// No read is made once this many bytes have been gathered.
    pub cap: usize,
}

/// The limits that `read_all` works with.
pub open spec fn standard_limits() -> ReadLimits {
    ReadLimits { chunk: CHUNK_SIZE, cap: MAX_TOTAL_BYTES }
}

impl ReadLimits {
    /// The limits that `read_all` works with.
    pub fn standard() -> (limits: ReadLimits)
        ensures
            limits == standard_limits(),
    {
        ReadLimits { chunk: CHUNK_SIZE, cap: MAX_TOTAL_BYTES }
    }
}

/// One read: where it starts and how many bytes it may bring.
pub struct Window {
    pub offset: u64,
    pub max_len: u64,
}

/// The window to read next when `have` bytes have been gathered from a handle
/// that reports `total` bytes, or `None` where nothing more is to be read.
pub open spec fn next_window(limits: ReadLimits, total: u64, have: nat) -> Option<Window> {
    if have >= limits.cap {
        None
    } else if total == 0 {
        Some(Window { offset: 0, max_len: limits.chunk })
    } else if have >= total {
        None
    } else if limits.chunk <= total - have {
        Some(Window { offset: have as u64, max_len: limits.chunk })
    } else {
        Some(Window { offset: have as u64, max_len: (total - have) as u64 })
    }
}

/// How many bytes may still be gathered before the cap is reached.
pub open spec fn headroom(limits: ReadLimits, have: nat) -> nat {
    if have < limits.cap {
        (limits.cap - have) as nat
    } else {
        0
    }
}

/// The replies of a run of reads, one after the other.
pub open spec fn gathered(replies: Seq<Seq<u8>>) -> Seq<u8>
    decreases replies.len(),
{
    if replies.len() == 0 {
        Seq::empty()
    } else {
        gathered(replies.drop_last()) + replies.last()
    }
}

/// The window that is read after `replies` have come in: none after an empty
/// reply, else the one that follows from the bytes gathered.
pub open spec fn window_after(limits: ReadLimits, total: u64, replies: Seq<Seq<u8>>) -> Option<
    Window,
> {
    if replies.len() > 0 && replies.last().len() == 0 {
        None
    } else {
        next_window(limits, total, gathered(replies).len())
    }
}

/// Every reply in `replies` answers a read that was due: before each of them
/// a window was open.
pub open spec fn in_turn(limits: ReadLimits, total: u64, replies: Seq<Seq<u8>>) -> bool {
    forall|i: int|
        0 <= i < replies.len() ==> (#[trigger] window_after(limits, total, replies.take(i))) is Some
}

/// `replies` are the replies of one whole read to the end: each answers a read
/// that was due, and after the last none is due.
pub open spec fn complete(limits: ReadLimits, total: u64, replies: Seq<Seq<u8>>) -> bool {
    &&& in_turn(limits, total, replies)
    &&& window_after(limits, total, replies) is None
}

/// The contents of each reply.
pub open spec fn contents(replies: Seq<Vec<u8>>) -> Seq<Seq<u8>> {
    Seq::new(replies.len(), |i: int| replies[i]@)
}

/// `replies` are what `buf` answered, in order, to reads that were each due.
pub open spec fn read_so_far<B: Buffer>(
    buf: &B,
    limits: ReadLimits,
    total: u64,
    replies: Seq<Vec<u8>>,
) -> bool {
    &&& in_turn(limits, total, contents(replies))
    &&& forall|i: int|
        0 <= i < replies.len() ==> {
            let w = window_after(limits, total, contents(replies).take(i))->0;
            call_ensures(B::read, (buf, w.offset, w.max_len), #[trigger] replies[i])
        }
}

/// `replies` are what `buf` answered, in order, to the reads of one whole
/// read to the end of a handle that reported `total` bytes.
pub open spec fn read_to_end<B: Buffer>(
    buf: &B,
    limits: ReadLimits,
    total: u64,
    replies: Seq<Vec<u8>>,
) -> bool {
    &&& read_so_far(buf, limits, total, replies)
    &&& window_after(limits, total, contents(replies)) is None
}

/// `out` is what a read of `buf` to its end gathers: the handle reported some
/// size, the reads that this size and `limits` call for were made in order,
/// and `out` holds the replies one after the other.
pub open spec fn reads_all<B: Buffer>(buf: &B, limits: ReadLimits, out: Seq<u8>) -> bool {
    exists|total: u64, replies: Seq<Vec<u8>>|
        {
            &&& call_ensures(B::size, (buf,), total)
            &&& #[trigger] read_to_end(buf, limits, total, replies)
            &&& out == gathered(contents(replies))
        }
}

/// One more reply, to the read that was due, extends a run of reads.
proof fn lemma_read_step<B: Buffer>(
    buf: &B,
    limits: ReadLimits,
    total: u64,
    replies: Seq<Vec<u8>>,
    w: Window,
    reply: Vec<u8>,
)
    requires
        read_so_far(buf, limits, total, replies),
        window_after(limits, total, contents(replies)) == Some(w),
        call_ensures(B::read, (buf, w.offset, w.max_len), reply),
    ensures
        read_so_far(buf, limits, total, replies.push(reply)),
        gathered(contents(replies.push(reply))) == gathered(contents(replies)) + reply@,
        contents(replies.push(reply)).last() == reply@,
{
    let old_c = contents(replies);
    let new_r = replies.push(reply);
    let new_c = contents(new_r);
    assert(new_c =~= old_c.push(reply@));
    assert(new_c.drop_last() =~= old_c);
    assert forall|i: int| 0 <= i < new_c.len() implies (#[trigger] window_after(
        limits,
        total,
        new_c.take(i),
    )) is Some by {
        if i < old_c.len() {
            assert(new_c.take(i) =~= old_c.take(i));
        } else {
            assert(new_c.take(i) =~= old_c);
        }
    }
    assert forall|i: int| 0 <= i < new_r.len() implies {
        let v = window_after(limits, total, new_c.take(i))->0;
        call_ensures(B::read, (buf, v.offset, v.max_len), #[trigger] new_r[i])
    } by {
        if i < replies.len() {
            assert(new_c.take(i) =~= old_c.take(i));
            assert(new_r[i] == replies[i]);
        } else {
            assert(new_c.take(i) =~= old_c);
        }
    }
}

/// Reads `buf` to its end under the given limits.
pub fn read_all_with<B: Buffer>(buf: &B, limits: ReadLimits) -> (out: Vec<u8>)
    ensures
        reads_all(buf, limits, out@),
{
    let mut out: Vec<u8> = Vec::new();
    let total: u64 = buf.size();
    let ghost mut replies: Seq<Vec<u8>> = Seq::empty();
    assert(contents(replies) =~= Seq::<Seq<u8>>::empty());
    loop
        invariant_except_break
            replies.len() > 0 ==> contents(replies).last().len() > 0,
        invariant
            out@ == gathered(contents(replies)),
            read_so_far(buf, limits, total, replies),
        ensures
            read_to_end(buf, limits, total, replies),
            out@ == gathered(contents(replies)),
        decreases headroom(limits, out@.len()),
    {
        let have: usize = out.len();
        if have >= limits.cap {
            break ;
        }
        let mut offset: u64 = 0;
        let mut max_len: u64 = limits.chunk;
        if total > 0 {
            offset = have as u64;
            if offset >= total {
                break ;
            }
            if total - offset < max_len {
                max_len = total - offset;
            }
        }
        let mut reply = buf.read(offset, max_len);
        proof {
            lemma_read_step(buf, limits, total, replies, Window { offset, max_len }, reply);
            replies = replies.push(reply);
        }
        if reply.len() == 0 {
            break ;
        }
        out.append(&mut reply);
    }
    proof {
        assert(call_ensures(B::size, (buf,), total));
    }
    out
}

/// `r` is what comes of taking `bytes` for UTF-8 text: the string that they
/// encode, or a serialization error where they encode none.
pub open spec fn is_text_of(bytes: Seq<u8>, r: VtxResult<String>) -> bool {
    match r {
        Ok(text) => valid_utf8(bytes) && encode_utf8(text@) == bytes,
        Err(e) => !valid_utf8(bytes) && e is SerializationError,
    }
}

/// Takes `bytes` for UTF-8 text.
pub fn decode_text(bytes: Vec<u8>) -> (r: VtxResult<String>)
    ensures
        is_text_of(bytes@, r),
{
    match string_from_utf8(bytes) {
        Ok(text) => Ok(text),
        Err(error) => Err(VtxError::SerializationError(utf8_error_text(&error))),
    }
}

/// Opens the file that the host knows under `uuid`. A refusal of the host is
/// classified by its message.
pub fn open_file<H: Host>(host: &H, uuid: &str) -> (r: VtxResult<H::Buffer>)
    ensures
        exists|reply: Result<H::Buffer, String>|
            call_ensures(H::open_file, (host, uuid), reply) && r == lifted(reply),
{
    let reply = host.open_file(uuid);
    let ghost seen = reply;
    let r = lift(reply);
    assert(call_ensures(H::open_file, (host, uuid), seen) && r == lifted(seen));
    r
}

/// Has the host copy `data` into a fresh block of its memory.
pub fn memory_buffer<H: Host>(host: &H, data: &[u8]) -> (buffer: H::Buffer)
    ensures
        call_ensures(H::create_memory_buffer, (host, data), buffer),
{
    host.create_memory_buffer(data)
}

/// Whole-contents operations on a handle.
pub trait BufferExt: Buffer + Sized {
    /// Reads the handle to its end, in windows of `CHUNK_SIZE` bytes and up
    /// to `MAX_TOTAL_BYTES` bytes.
    fn read_all(&self) -> (out: Vec<u8>)
        ensures
            reads_all(self, standard_limits(), out@),
    ;

    /// Reads the handle to its end and takes the bytes for UTF-8 text.
    fn read_to_string(&self) -> (r: VtxResult<String>)
        ensures
            exists|bytes: Seq<u8>|
                reads_all(self, standard_limits(), bytes) && #[trigger] is_text_of(bytes, r),
    ;

    /// Reads the handle to its end, takes the bytes for UTF-8 text and hands
    /// the text to `parse`. Neither bytes that are no text nor text that the
    /// parser refuses make this fail in any other way than by a
    /// serialization error.
    fn read_json<T, P: FnOnce(&str) -> Result<T, serde_json::Error>>(&self, parse: P) -> (r:
        VtxResult<T>)
        requires
            forall|text: &str| call_requires(parse, (text,)),
        ensures
            exists|bytes: Seq<u8>|
                #![trigger reads_all(self, standard_limits(), bytes)]
                reads_all(self, standard_limits(), bytes) && if valid_utf8(bytes) {
                    exists|text: &str|
                        encode_utf8(text@) == bytes && #[trigger] parsed_from(parse, text, r)
                } else {
                    r matches Err(e) && e is SerializationError
                },
    ;

    /// Appends `data` to the handle and returns how many bytes the host took.
    fn write_all(&self, data: &[u8]) -> (taken: u64)
        ensures
            call_ensures(Self::write, (self, data), taken),
    ;
}

impl<B: Buffer> BufferExt for B {
    fn read_all(&self) -> (out: Vec<u8>) {
        read_all_with(self, ReadLimits::standard())
    }

    fn read_to_string(&self) -> (r: VtxResult<String>) {
        let bytes = read_all_with(self, ReadLimits::standard());
        let r = decode_text(bytes);
        assert(reads_all(self, standard_limits(), bytes@) && is_text_of(bytes@, r));
        r
    }

    fn read_json<T, P: FnOnce(&str) -> Result<T, serde_json::Error>>(&self, parse: P) -> (r:
        VtxResult<T>) {
        let bytes = read_all_with(self, ReadLimits::standard());
        match decode_text(bytes) {
            Ok(text) => {
                let slice = text.as_str();
                let r = parse_with(slice, parse);
                assert(reads_all(self, standard_limits(), bytes@));
                assert(encode_utf8(slice@) == bytes@ && parsed_from(parse, slice, r));
                r
            },
            Err(e) => {
                assert(reads_all(self, standard_limits(), bytes@));
                Err(e)
            },
        }
    }

    fn write_all(&self, data: &[u8]) -> (taken: u64) {
        self.write(data)
    }
}

/// The replies gathered up to and with reply `i` are those gathered before
/// it, followed by that reply.
pub proof fn lemma_gathered_step(replies: Seq<Seq<u8>>, i: int)
    requires
        0 <= i < replies.len(),
    ensures
        gathered(replies.take(i + 1)) == gathered(replies.take(i)) + replies[i],
{
    let upto = replies.take(i + 1);
    assert(upto.drop_last() =~= replies.take(i));
    assert(upto.last() == replies[i]);
}

/// A reply that is followed by another read is not empty.
pub proof fn lemma_inner_replies_hold_data(
    limits: ReadLimits,
    total: u64,
    replies: Seq<Seq<u8>>,
    i: int,
)
    requires
        in_turn(limits, total, replies),
        0 <= i < replies.len() - 1,
    ensures
        replies[i].len() > 0,
{
    let upto = replies.take(i + 1);
    assert(window_after(limits, total, upto) is Some);
    assert(upto.last() == replies[i]);
}

/// Each reply is no longer than the window it answers.
pub open spec fn within_windows(limits: ReadLimits, total: u64, replies: Seq<Seq<u8>>) -> bool {
    forall|i: int|
        0 <= i < replies.len() ==> (#[trigger] replies[i]).len() <= (window_after(
            limits,
            total,
            replies.take(i),
        )->0).max_len
}

/// Each reply fills the window it answers.
pub open spec fn fills_windows(limits: ReadLimits, total: u64, replies: Seq<Seq<u8>>) -> bool {
    forall|i: int|
        0 <= i < replies.len() ==> (#[trigger] replies[i]).len() == (window_after(
            limits,
            total,
            replies.take(i),
        )->0).max_len
}

/// Each reply holds the part of `content` that its window covers.
pub open spec fn serves(
    limits: ReadLimits,
    total: u64,
    content: Seq<u8>,
    replies: Seq<Seq<u8>>,
) -> bool {
    forall|i: int|
        0 <= i < replies.len() ==> {
            let w = window_after(limits, total, replies.take(i))->0;
            #[trigger] replies[i] == content.subrange(
                w.offset as int,
                w.offset + w.max_len,
            )
        }
}

/// Bounded memory: while the host keeps each reply within its window, a read
/// to the end never gathers a full window more than the cap, and never more
/// than the size that the handle reported.
pub proof fn lemma_gathered_is_bounded(limits: ReadLimits, total: u64, replies: Seq<Seq<u8>>)
    requires
        in_turn(limits, total, replies),
        within_windows(limits, total, replies),
    ensures
        gathered(replies).len() <= limits.cap + limits.chunk,
        replies.len() > 0 ==> gathered(replies).len() < limits.cap + limits.chunk,
        total > 0 ==> gathered(replies).len() <= total,
{
    if replies.len() > 0 {
        let last = replies.len() - 1;
        lemma_gathered_step(replies, last);
        assert(replies.take(last + 1) =~= replies);
        assert(window_after(limits, total, replies.take(last)) is Some);
        assert(replies[last].len() <= (window_after(limits, total, replies.take(last))->0).max_len);
    }
}

/// Replies that all hold data gather at least one byte each.
proof fn lemma_gathered_counts(replies: Seq<Seq<u8>>)
    requires
        forall|i: int| 0 <= i < replies.len() ==> (#[trigger] replies[i]).len() > 0,
    ensures
        gathered(replies).len() >= replies.len(),
    decreases replies.len(),
{
    if replies.len() > 0 {
        lemma_gathered_counts(replies.drop_last());
    }
}

/// Termination at the cap: whatever the host answers, a read to the end makes
/// no more reads than the cap has bytes. A handle that never reports its end
/// is therefore still left after finitely many reads.
pub proof fn lemma_reads_are_bounded(limits: ReadLimits, total: u64, replies: Seq<Seq<u8>>)
    requires
        in_turn(limits, total, replies),
    ensures
        replies.len() <= limits.cap,
{
    if replies.len() > 0 {
        let last = replies.len() - 1;
        let inner = replies.take(last);
        assert forall|i: int| 0 <= i < inner.len() implies (#[trigger] inner[i]).len() > 0 by {
            lemma_inner_replies_hold_data(limits, total, replies, i);
        }
        lemma_gathered_counts(inner);
        assert(window_after(limits, total, inner) is Some);
    }
}

/// With every window filled, the first `i` replies hold `i` windows of bytes.
proof fn lemma_full_windows_progress(
    limits: ReadLimits,
    total: u64,
    replies: Seq<Seq<u8>>,
    i: int,
)
    requires
        limits.chunk > 0,
        (limits.cap as int) % (limits.chunk as int) == 0,
        total == 0 || total >= limits.cap,
        in_turn(limits, total, replies),
        fills_windows(limits, total, replies),
        0 <= i <= replies.len(),
    ensures
        gathered(replies.take(i)).len() == i * limits.chunk,
        i * limits.chunk <= limits.cap,
    decreases i,
{
    let chunk = limits.chunk as int;
    let cap = limits.cap as int;
    if i == 0 {
        assert(replies.take(0) =~= Seq::<Seq<u8>>::empty());
        assert(0 * chunk == 0) by (nonlinear_arith);
    } else {
        lemma_full_windows_progress(limits, total, replies, i - 1);
        lemma_gathered_step(replies, i - 1);
        let have = (i - 1) * chunk;
        assert(window_after(limits, total, replies.take(i - 1)) is Some);
        assert(have < cap);
        assert(i * chunk == have + chunk) by (nonlinear_arith)
            requires
                have == (i - 1) * chunk,
        ;
        assert(have + chunk <= cap) by (nonlinear_arith)
            requires
                have < cap,
                have == (i - 1) * chunk,
                cap % chunk == 0,
                chunk > 0,
                i >= 1,
        {
            let k = cap / chunk;
            assert(cap == k * chunk + cap % chunk);
            assert((i - 1) < k);
            assert(i * chunk <= k * chunk);
        }
        assert(replies[i - 1].len() == (window_after(limits, total, replies.take(i - 1))->0).max_len);
    }
}

/// A host that fills every window and never reports the end is read up to
/// the cap exactly: where the cap is a whole number of windows, and the
/// handle is a pipe or holds no less than the cap, the bytes gathered are as
/// many as the cap, in cap / chunk reads.
pub proof fn lemma_full_windows_end_at_cap(
    limits: ReadLimits,
    total: u64,
    replies: Seq<Seq<u8>>,
)
    requires
        limits.chunk > 0,
        (limits.cap as int) % (limits.chunk as int) == 0,
        total == 0 || total >= limits.cap,
        complete(limits, total, replies),
        fills_windows(limits, total, replies),
    ensures
        gathered(replies).len() == limits.cap,
        replies.len() * limits.chunk == limits.cap,
{
    let n = replies.len() as int;
    lemma_full_windows_progress(limits, total, replies, n);
    assert(replies.take(n) =~= replies);
    if n > 0 {
        lemma_full_windows_progress(limits, total, replies, n - 1);
        lemma_gathered_step(replies, n - 1);
        assert(window_after(limits, total, replies.take(n - 1)) is Some);
        assert(replies[n - 1].len() == (window_after(limits, total, replies.take(n - 1))->0).max_len);
        assert(replies.last().len() > 0);
    }
}

/// With a host that serves `content`, the first `i` replies hold the start of
/// `content`, `i` windows long or all of it.
proof fn lemma_served_progress(
    limits: ReadLimits,
    total: u64,
    content: Seq<u8>,
    replies: Seq<Seq<u8>>,
    i: int,
)
    requires
        limits.chunk > 0,
        total == content.len(),
        0 < total <= limits.cap,
        in_turn(limits, total, replies),
        serves(limits, total, content, replies),
        0 <= i <= replies.len(),
    ensures
        gathered(replies.take(i)).len() <= total,
        gathered(replies.take(i)) == content.take(gathered(replies.take(i)).len() as int),
        gathered(replies.take(i)).len() == total || gathered(replies.take(i)).len() == i
            * limits.chunk,
        gathered(replies.take(i)).len() <= i * limits.chunk,
        i > 0 ==> replies[i - 1].len() > 0,
        i > 0 ==> (i - 1) * limits.chunk < total,
    decreases i,
{
    let chunk = limits.chunk as int;
    if i == 0 {
        assert(replies.take(0) =~= Seq::<Seq<u8>>::empty());
        assert(gathered(replies.take(0)) =~= content.take(0));
        assert(0 * chunk == 0) by (nonlinear_arith);
    } else {
        lemma_served_progress(limits, total, content, replies, i - 1);
        lemma_gathered_step(replies, i - 1);
        let before = gathered(replies.take(i - 1));
        let have = before.len() as int;
        let w = window_after(limits, total, replies.take(i - 1))->0;
        assert(window_after(limits, total, replies.take(i - 1)) is Some);
        assert(have < total);
        assert(have == (i - 1) * chunk);
        assert(replies[i - 1] == content.subrange(w.offset as int, w.offset + w.max_len));
        assert(w.offset == have);
        assert(before + replies[i - 1] =~= content.take(have + w.max_len));
        assert(i * chunk == have + chunk) by (nonlinear_arith)
            requires
                have == (i - 1) * chunk,
        ;
    }
}

/// A sized handle that serves its contents faithfully is read whole: where
/// the contents fit under the cap, the bytes gathered are the contents, no
/// reply is empty, and the reads are as many as the windows that cover the
/// contents, with no read after the last byte.
pub proof fn lemma_sized_read_is_whole(
    limits: ReadLimits,
    total: u64,
    content: Seq<u8>,
    replies: Seq<Seq<u8>>,
)
    requires
        limits.chunk > 0,
        total == content.len(),
        0 < total <= limits.cap,
        complete(limits, total, replies),
        serves(limits, total, content, replies),
    ensures
        gathered(replies) == content,
        forall|i: int| 0 <= i < replies.len() ==> (#[trigger] replies[i]).len() > 0,
        (replies.len() - 1) * limits.chunk < total <= replies.len() * limits.chunk,
{
    let n = replies.len() as int;
    let chunk = limits.chunk as int;
    lemma_served_progress(limits, total, content, replies, n);
    assert(replies.take(n) =~= replies);
    assert(content.take(total as int) =~= content);
    if n == 0 {
        assert(gathered(replies).len() == 0);
    }
    assert forall|i: int| 0 <= i < replies.len() implies (#[trigger] replies[i]).len() > 0 by {
        lemma_served_progress(limits, total, content, replies, i + 1);
    }
    assert((n - 1) * chunk < total);
    assert(total <= n * chunk);
}

/// A handle that serves its contents faithfully is read whole: where it
/// reports the length of `content`, answers every read with the part of
/// `content` that the window covers, and `content` is not empty and fits under
/// the cap, a read to the end gathers exactly `content`.
pub proof fn lemma_faithful_handle_is_read_whole<B: Buffer>(
    buf: &B,
    limits: ReadLimits,
    content: Seq<u8>,
    out: Seq<u8>,
)
    requires
        limits.chunk > 0,
        0 < content.len() <= limits.cap,
        forall|size: u64| call_ensures(B::size, (buf,), size) ==> size == content.len(),
        forall|offset: u64, max_len: u64, reply: Vec<u8>|
            #[trigger] call_ensures(B::read, (buf, offset, max_len), reply) && offset + max_len
                <= content.len() ==> reply@ == content.subrange(
                offset as int,
                offset + max_len,
            ),
        reads_all(buf, limits, out),
    ensures
        out == content,
{
    let (total, replies) = choose|total: u64, replies: Seq<Vec<u8>>|
        {
            &&& call_ensures(B::size, (buf,), total)
            &&& #[trigger] read_to_end(buf, limits, total, replies)
            &&& out == gathered(contents(replies))
        };
    let c = contents(replies);
    assert forall|i: int| 0 <= i < c.len() implies {
        let w = window_after(limits, total, c.take(i))->0;
        #[trigger] c[i] == content.subrange(w.offset as int, w.offset + w.max_len)
    } by {
        let w = window_after(limits, total, c.take(i))->0;
        assert(window_after(limits, total, c.take(i)) is Some);
        assert(call_ensures(B::read, (buf, w.offset, w.max_len), replies[i]));
    }
    lemma_sized_read_is_whole(limits, total, content, c);
}

/// The cap holds against a handle that never ends: where every reply fills
/// its window, the handle is a pipe or reports no less than the cap, and the
/// cap is a whole number of windows, a read to the end gathers exactly as
/// many bytes as the cap.
pub proof fn lemma_endless_handle_is_read_to_the_cap<B: Buffer>(
    buf: &B,
    limits: ReadLimits,
    out: Seq<u8>,
)
    requires
        limits.chunk > 0,
        (limits.cap as int) % (limits.chunk as int) == 0,
        forall|size: u64| call_ensures(B::size, (buf,), size) ==> size == 0 || size >= limits.cap,
        forall|offset: u64, max_len: u64, reply: Vec<u8>|
            #[trigger] call_ensures(B::read, (buf, offset, max_len), reply) ==> reply@.len()
                == max_len,
        reads_all(buf, limits, out),
    ensures
        out.len() == limits.cap,
{
    let (total, replies) = choose|total: u64, replies: Seq<Vec<u8>>|
        {
            &&& call_ensures(B::size, (buf,), total)
            &&& #[trigger] read_to_end(buf, limits, total, replies)
            &&& out == gathered(contents(replies))
        };
    let c = contents(replies);
    assert forall|i: int| 0 <= i < c.len() implies (#[trigger] c[i]).len() == (window_after(
        limits,
        total,
        c.take(i),
    )->0).max_len by {
        let w = window_after(limits, total, c.take(i))->0;
        assert(call_ensures(B::read, (buf, w.offset, w.max_len), replies[i]));
    }
    lemma_full_windows_end_at_cap(limits, total, c);
}

/// Bounded memory: against any handle that keeps each reply within the
/// window asked for, a read to the end gathers less than the cap and one
/// window together.
pub proof fn lemma_read_stays_under_cap_and_window<B: Buffer>(
    buf: &B,
    limits: ReadLimits,
    out: Seq<u8>,
)
    requires
        forall|offset: u64, max_len: u64, reply: Vec<u8>|
            #[trigger] call_ensures(B::read, (buf, offset, max_len), reply) ==> reply@.len()
                <= max_len,
        reads_all(buf, limits, out),
    ensures
        out.len() <= limits.cap + limits.chunk,
        out.len() > limits.cap ==> out.len() < limits.cap + limits.chunk,
{
    let (total, replies) = choose|total: u64, replies: Seq<Vec<u8>>|
        {
            &&& call_ensures(B::size, (buf,), total)
            &&& #[trigger] read_to_end(buf, limits, total, replies)
            &&& out == gathered(contents(replies))
        };
    let c = contents(replies);
    assert forall|i: int| 0 <= i < c.len() implies (#[trigger] c[i]).len() <= (window_after(
        limits,
        total,
        c.take(i),
    )->0).max_len by {
        let w = window_after(limits, total, c.take(i))->0;
        assert(call_ensures(B::read, (buf, w.offset, w.max_len), replies[i]));
    }
    lemma_gathered_is_bounded(limits, total, c);
}

} // verus!
