//! Buffer pool for hot-path packet processing.
//!
//! Each `PacketBuf` has 64 bytes of headroom before the payload area,
//! allowing the TX path to prepend EoIP/EtherIP headers without copying.
//! A buffer that came out of a pool goes back with `BufferPool::put`.

use crossbeam::queue::ArrayQueue;
use vstd::prelude::*;

verus! {

/// Headroom reserved before the payload for header prepend.
pub const HEADER_HEADROOM: usize = 64;

/// Maximum Ethernet frame: 1500 MTU + 14 header + 4 FCS + 4 VLAN.
pub const MAX_FRAME_SIZE: usize = 1522;

/// Total buffer allocation: headroom and payload area.
pub const BUF_TOTAL: usize = 1586;

/// A packet buffer with headroom for zero-copy header prepend.
///
/// Layout: `[headroom (64B)][payload (up to 1522B)]`
///
/// On TX: TAP read fills the payload area, then `prepend_header(n)` shifts
/// the start of the valid data backward by `n` to include the protocol header.
#[derive(Debug)]
pub struct PacketBuf {
    data: Box<[u8; BUF_TOTAL]>,
    /// Start of valid data within `data`.
    head: usize,
    /// Length of valid data from `head`.
    len: usize,
    /// Whether the buffer came out of a pool.
    pooled: bool,
}

/// The bytes of a buffer that nothing was written to.
pub open spec fn zeroed_storage() -> Seq<u8> {
    Seq::new(BUF_TOTAL as nat, |i: int| 0u8)
}

impl View for PacketBuf {
    type V = Seq<u8>;

    /// The valid data: header and payload.
    open spec fn view(&self) -> Seq<u8> {
        self.storage().subrange(self.head(), self.head() + self.size())
    }
}

impl PacketBuf {
    /// All bytes of the buffer, headroom included.
    pub closed spec fn storage(self) -> Seq<u8> {
        (*self.data)@
    }

    /// Where the valid data starts.
    pub closed spec fn head(self) -> int {
        self.head as int
    }

    /// How many bytes are valid.
    pub closed spec fn size(self) -> int {
        self.len as int
    }

    /// Whether the buffer came out of a pool.
    pub closed spec fn pooled(self) -> bool {
        self.pooled
    }

    /// The valid data lies inside the buffer.
    pub open spec fn wf(self) -> bool {
        &&& self.storage().len() == BUF_TOTAL
        &&& 0 <= self.head() <= HEADER_HEADROOM
        &&& 0 <= self.size()
        &&& self.head() + self.size() <= BUF_TOTAL
    }

    /// No valid data, and all of the headroom free.
    pub open spec fn blank(self) -> bool {
        self.wf() && self.head() == HEADER_HEADROOM && self.size() == 0
    }

    /// Create a new standalone buffer (not from a pool).
    pub fn new() -> (buf: Self)
        ensures
            buf.blank(),
            !buf.pooled(),
            buf.storage() == zeroed_storage(),
    {
        let buf = PacketBuf {
            data: Box::new([0u8; 1586]),
            head: HEADER_HEADROOM,
            len: 0,
            pooled: false,
        };
        assert(buf.storage() =~= zeroed_storage());
        buf
    }

    /// Get a mutable slice to the payload area (for reading from TAP/socket).
    pub fn payload_mut(&mut self) -> (area: &mut [u8])
        requires
            old(self).wf(),
        ensures
            area@ == old(self).storage().subrange(HEADER_HEADROOM as int, BUF_TOTAL as int),
            final(area)@.len() == MAX_FRAME_SIZE,
            final(self).storage() == old(self).storage().subrange(0, HEADER_HEADROOM as int)
                + final(area)@,
            final(self).head() == old(self).head(),
            final(self).size() == old(self).size(),
            final(self).pooled() == old(self).pooled(),
            final(self).wf(),
    {
        let storage: &mut [u8; BUF_TOTAL] = &mut *self.data;
        assert(final(storage)@.len() == BUF_TOTAL);
        let all: &mut [u8] = storage;
        let (_headroom, area) = all.split_at_mut(HEADER_HEADROOM);
        area
    }

    /// Set the valid payload length after a read operation.
    pub fn set_len(&mut self, len: usize)
        requires
            old(self).wf(),
            len <= MAX_FRAME_SIZE,
        ensures
            final(self).wf(),
            final(self).storage() == old(self).storage(),
            final(self).head() == HEADER_HEADROOM,
            final(self).size() == len,
            final(self).pooled() == old(self).pooled(),
    {
        self.head = HEADER_HEADROOM;
        self.len = len;
    }

    /// Fill the payload with the first bytes of `frame`, as many as the
    /// payload area holds, and make them the valid data.
    pub fn fill(&mut self, frame: &[u8])
        requires
            old(self).wf(),
        ensures
            final(self).wf(),
            final(self).head() == HEADER_HEADROOM,
            final(self)@ == frame_prefix(frame@),
            final(self).pooled() == old(self).pooled(),
    {
        let copy_len: usize = if frame.len() < MAX_FRAME_SIZE {
            frame.len()
        } else {
            MAX_FRAME_SIZE
        };
        let mut i: usize = 0;
        while i < copy_len
            invariant
                i <= copy_len,
                copy_len <= frame@.len(),
                copy_len <= MAX_FRAME_SIZE,
                self.wf(),
                self.pooled() == old(self).pooled(),
                forall|j: int|
                    0 <= j < i ==> #[trigger] self.storage()[HEADER_HEADROOM + j] == frame@[j],
            decreases copy_len - i,
        {
            self.data[HEADER_HEADROOM + i] = frame[i];
            i = i + 1;
        }
        self.set_len(copy_len);
        assert(self@ =~= frame_prefix(frame@)) by {
            assert forall|j: int| 0 <= j < copy_len implies self@[j] == frame@[j] by {
                assert(self.storage()[HEADER_HEADROOM + j] == frame@[j]);
            }
        }
    }

    /// Prepend a header by shifting the head backward into headroom.
    /// Returns a mutable slice to the header area for writing.
    pub fn prepend_header(&mut self, header_len: usize) -> (area: &mut [u8])
        requires
            old(self).wf(),
            header_len <= old(self).head(),
        ensures
            area@ == old(self).storage().subrange(
                old(self).head() - header_len,
                old(self).head(),
            ),
            final(area)@.len() == header_len,
            final(self).wf(),
            final(self).head() == old(self).head() - header_len,
            final(self).size() == old(self).size() + header_len,
            final(self).storage() == old(self).storage().subrange(
                0,
                old(self).head() - header_len,
            ) + final(area)@ + old(self).storage().subrange(old(self).head(), BUF_TOTAL as int),
            final(self)@ == final(area)@ + old(self)@,
            final(self).pooled() == old(self).pooled(),
    {
        self.head = self.head - header_len;
        self.len = self.len + header_len;
        let start: usize = self.head;
        let storage: &mut [u8; BUF_TOTAL] = &mut *self.data;
        assert(final(storage)@.len() == BUF_TOTAL);
        let all: &mut [u8] = storage;
        let (_before, from_head) = all.split_at_mut(start);
        let (area, _payload) = from_head.split_at_mut(header_len);
        area
    }

    /// The complete valid data slice (header + payload).
    pub fn as_slice(&self) -> (data: &[u8])
        requires
            self.wf(),
        ensures
            data@ == self@,
    {
        let all: &[u8] = (&*self.data).as_slice();
        &all[self.head..self.head + self.len]
    }

    /// Length of valid data.
    pub fn len(&self) -> (len: usize)
        ensures
            len == self.size(),
    {
        self.len
    }

    pub fn is_empty(&self) -> (empty: bool)
        ensures
            empty == (self.size() == 0),
    {
        self.len == 0
    }

    /// Whether the buffer came out of a pool.
    pub fn is_pooled(&self) -> (pooled: bool)
        ensures
            pooled == self.pooled(),
    {
        self.pooled
    }

    /// Reset the buffer for reuse.
    pub fn reset(&mut self)
        ensures
            final(self).storage() == old(self).storage(),
            final(self).head() == HEADER_HEADROOM,
            final(self).size() == 0,
            final(self).pooled() == old(self).pooled(),
            final(self).blank(),
    {
        self.head = HEADER_HEADROOM;
        self.len = 0;
    }
}

/// As much of `frame` as the payload area of a buffer holds.
pub open spec fn frame_prefix(frame: Seq<u8>) -> Seq<u8> {
    if frame.len() <= MAX_FRAME_SIZE {
        frame
    } else {
        frame.subrange(0, MAX_FRAME_SIZE as int)
    }
}

impl Default for PacketBuf {
    fn default() -> (buf: Self)
        ensures
            buf.blank(),
            !buf.pooled(),
            buf.storage() == zeroed_storage(),
    {
        PacketBuf::new()
    }
}

/// `crossbeam::queue::ArrayQueue`, the bounded first-in first-out queue that
/// holds a pool's idle buffers.
#[verifier::external_type_specification]
#[verifier::external_body]
#[verifier::reject_recursive_types(T)]
pub struct ExArrayQueue<T>(ArrayQueue<T>);

/// The buffers in a queue, the one that `pop` takes next in front.
pub uninterp spec fn queue_items(queue: ArrayQueue<PacketBuf>) -> Seq<PacketBuf>;

/// The capacity that a queue was made with.
pub uninterp spec fn queue_capacity(queue: ArrayQueue<PacketBuf>) -> nat;

/// The most buffers that a queue or a channel is made for. One slot takes less
/// than 64 bytes, so an allocation of this many stays below the largest size
/// that the allocator accepts.
pub const MAX_SLOTS: usize = usize::MAX / 128;

/// `ArrayQueue::new`: an empty queue of the given capacity. It panics on a
/// capacity of zero and on one whose slots cannot be allocated.
#[verifier::external_body]
fn queue_new(capacity: usize) -> (queue: ArrayQueue<PacketBuf>)
    requires
        0 < capacity <= MAX_SLOTS,
    ensures
        queue_items(queue) == Seq::<PacketBuf>::empty(),
        queue_capacity(queue) == capacity,
{
    ArrayQueue::new(capacity)
}

/// `ArrayQueue::push`: appends the buffer if the queue is not full, and hands
/// it back if it is.
#[verifier::external_body]
fn queue_push(queue: &mut ArrayQueue<PacketBuf>, buf: PacketBuf) -> (result: Result<(), PacketBuf>)
    ensures
        queue_capacity(*final(queue)) == queue_capacity(*old(queue)),
        queue_items(*old(queue)).len() < queue_capacity(*old(queue)) ==> result is Ok
            && queue_items(*final(queue)) == queue_items(*old(queue)).push(buf),
        queue_items(*old(queue)).len() >= queue_capacity(*old(queue)) ==> result is Err
            && result->Err_0 == buf && queue_items(*final(queue)) == queue_items(*old(queue)),
{
    queue.push(buf)
}

/// `ArrayQueue::pop`: takes the buffer in front, if there is one.
#[verifier::external_body]
fn queue_pop(queue: &mut ArrayQueue<PacketBuf>) -> (popped: Option<PacketBuf>)
    ensures
        queue_capacity(*final(queue)) == queue_capacity(*old(queue)),
        queue_items(*old(queue)).len() == 0 ==> popped is None && queue_items(*final(queue))
            == queue_items(*old(queue)),
        queue_items(*old(queue)).len() > 0 ==> popped == Some(queue_items(*old(queue))[0])
            && queue_items(*final(queue)) == queue_items(*old(queue)).drop_first(),
{
    queue.pop()
}

/// `ArrayQueue::len`: the number of buffers in the queue.
#[verifier::external_body]
fn queue_len(queue: &ArrayQueue<PacketBuf>) -> (len: usize)
    ensures
        len == queue_items(*queue).len(),
{
    queue.len()
}

/// Buffer pool backed by `crossbeam::queue::ArrayQueue`.
///
/// An exhausted pool hands out standalone buffers (graceful degradation, no
/// panic). Those are freed rather than returned to the pool.
pub struct BufferPool {
    queue: ArrayQueue<PacketBuf>,
    capacity: usize,
}

impl View for BufferPool {
    type V = Seq<PacketBuf>;

    /// The idle buffers, the one that is handed out next in front.
    closed spec fn view(&self) -> Seq<PacketBuf> {
        queue_items(self.queue)
    }
}

/// The idle buffers after one is taken out.
pub open spec fn idle_after_get(idle: Seq<PacketBuf>) -> Seq<PacketBuf> {
    if idle.len() > 0 {
        idle.drop_first()
    } else {
        idle
    }
}

/// `buf` is what a pool with these idle buffers hands out: the front one,
/// blank and marked as pooled, or a fresh standalone one if there is none.
pub open spec fn handed_out(idle: Seq<PacketBuf>, buf: PacketBuf) -> bool {
    &&& buf.blank()
    &&& buf.pooled() == (idle.len() > 0)
    &&& buf.storage() == (if idle.len() > 0 {
        idle[0].storage()
    } else {
        zeroed_storage()
    })
}

/// `after` are the idle buffers once `buf` was given back to a pool of the
/// given capacity: a pooled buffer joins the end, blank, unless the pool is
/// full; a standalone one is freed.
pub open spec fn given_back(
    before: Seq<PacketBuf>,
    capacity: nat,
    buf: PacketBuf,
    after: Seq<PacketBuf>,
) -> bool {
    if buf.pooled() && before.len() < capacity {
        &&& after.len() == before.len() + 1
        &&& after.drop_last() == before
        &&& after.last().blank()
        &&& !after.last().pooled()
        &&& after.last().storage() == buf.storage()
    } else {
        after == before
    }
}

impl BufferPool {
    /// The number of buffers that the pool was made with.
    pub closed spec fn bound(self) -> nat {
        self.capacity as nat
    }

    /// At most the capacity is idle, and every idle buffer is blank.
    pub closed spec fn wf(self) -> bool {
        &&& queue_capacity(self.queue) == self.capacity
        &&& self@.len() <= self.capacity
        &&& forall|i: int|
            0 <= i < self@.len() ==> (#[trigger] self@[i]).blank() && !self@[i].pooled()
    }

    /// A pool has at most its capacity idle, and every idle buffer is blank.
    pub proof fn law_idle_buffers_blank(self)
        requires
            self.wf(),
        ensures
            self@.len() <= self.bound(),
            forall|i: int|
                0 <= i < self@.len() ==> (#[trigger] self@[i]).blank() && !self@[i].pooled(),
    {
    }

    /// Create a pool pre-filled with `capacity` buffers.
    pub fn new(capacity: usize) -> (pool: Self)
        requires
            0 < capacity <= MAX_SLOTS,
        ensures
            pool.wf(),
            pool.bound() == capacity,
            pool@.len() == capacity,
            forall|i: int|
                0 <= i < pool@.len() ==> (#[trigger] pool@[i]).storage() == zeroed_storage(),
    {
        let mut queue = queue_new(capacity);
        let mut i: usize = 0;
        while i < capacity
            invariant
                i <= capacity,
                queue_capacity(queue) == capacity,
                queue_items(queue).len() == i,
                forall|j: int|
                    0 <= j < i ==> (#[trigger] queue_items(queue)[j]).blank()
                        && !queue_items(queue)[j].pooled() && queue_items(queue)[j].storage()
                        == zeroed_storage(),
            decreases capacity - i,
        {
            let _ = queue_push(&mut queue, PacketBuf::new());
            i = i + 1;
        }
        BufferPool { queue, capacity }
    }

    /// Get a buffer from the pool. Falls back to heap allocation if exhausted.
    pub fn get(&mut self) -> (buf: PacketBuf)
        requires
            old(self).wf(),
        ensures
            final(self).wf(),
            final(self).bound() == old(self).bound(),
            final(self)@ == idle_after_get(old(self)@),
            handed_out(old(self)@, buf),
    {
        match queue_pop(&mut self.queue) {
            Some(mut buf) => {
                buf.reset();
                buf.pooled = true;
                buf
            },
            // Pool exhausted: allocate standalone (will be freed on return)
            None => PacketBuf::new(),
        }
    }

    /// Give a buffer back. One that came out of a pool is reset and joins the
    /// idle ones, unless the pool is full; a standalone one is freed.
    pub fn put(&mut self, buf: PacketBuf)
        requires
            old(self).wf(),
        ensures
            final(self).wf(),
            final(self).bound() == old(self).bound(),
            given_back(old(self)@, old(self).bound(), buf, final(self)@),
    {
        if buf.pooled {
            let mut returned = buf;
            returned.reset();
            returned.pooled = false;
            // If the pool is full, the buffer is freed
            let _ = queue_push(&mut self.queue, returned);
            assert(old(self)@.len() < old(self).bound() ==> self@.drop_last() =~= old(self)@);
        }
    }

    /// Number of available buffers.
    pub fn available(&self) -> (available: usize)
        ensures
            available == self@.len(),
    {
        queue_len(&self.queue)
    }

    /// Total pool capacity.
    pub fn capacity(&self) -> (capacity: usize)
        ensures
            capacity == self.bound(),
    {
        self.capacity
    }
}

/// Taking a buffer out of a pool and giving it back leaves as many buffers
/// idle as before, whether or not the pool was exhausted.
pub proof fn law_get_put_restores_count(
    idle: Seq<PacketBuf>,
    capacity: nat,
    buf: PacketBuf,
    used: PacketBuf,
    after: Seq<PacketBuf>,
)
    requires
        idle.len() <= capacity,
        handed_out(idle, buf),
        used.pooled() == buf.pooled(),
        given_back(idle_after_get(idle), capacity, used, after),
    ensures
        after.len() == idle.len(),
{
}

/// A pool never holds more idle buffers than its capacity, and a buffer that
/// did not come out of a pool never joins one.
pub proof fn law_pool_bounded(
    before: Seq<PacketBuf>,
    capacity: nat,
    buf: PacketBuf,
    after: Seq<PacketBuf>,
)
    requires
        before.len() <= capacity,
        given_back(before, capacity, buf, after),
    ensures
        after.len() <= capacity,
        !buf.pooled() ==> after == before,
        idle_after_get(before).len() <= before.len(),
{
}

/// A frame that a buffer has room for is kept whole; of a longer one the first
/// 1522 bytes are.
pub proof fn law_frames_are_kept_whole(frame: Seq<u8>)
    ensures
        frame.len() <= 1522 ==> frame_prefix(frame) == frame,
        frame.len() > 1522 ==> frame_prefix(frame) == frame.subrange(0, 1522),
{
}

/// What a buffer holds is the part of its storage from its head on, as long as
/// its size says; a blank one holds nothing, behind 64 free bytes, and has room
/// for 1522.
pub proof fn law_buffer_view(buf: PacketBuf)
    requires
        buf.wf(),
    ensures
        buf@.len() == buf.size(),
        forall|i: int| 0 <= i < buf.size() ==> #[trigger] buf@[i] == buf.storage()[buf.head() + i],
        buf.storage().len() == 64 + 1522,
        0 <= buf.head() <= 64,
        buf.head() + buf.size() <= 64 + 1522,
        buf.blank() <==> buf.head() == 64 && buf.size() == 0,
{
}

/// A pool hands out the idle buffer in front, blank and to be returned, and keeps
/// the others in their order. An exhausted pool hands out a new one, all zeros,
/// that is not to be returned.
pub proof fn law_pool_hands_out(idle: Seq<PacketBuf>, buf: PacketBuf)
    requires
        handed_out(idle, buf),
    ensures
        buf.head() == 64,
        buf.size() == 0,
        idle.len() > 0 ==> buf.pooled() && buf.storage() == idle[0].storage() && idle_after_get(
            idle,
        ) == idle.subrange(1, idle.len() as int),
        idle.len() == 0 ==> !buf.pooled() && idle_after_get(idle).len() == 0 && buf.storage().len()
            == 1586 && forall|i: int| 0 <= i < 1586 ==> #[trigger] buf.storage()[i] == 0,
{
}

/// A buffer that came out of a pool goes back to the end of the idle ones, blank,
/// as long as the pool has room, and leaves the others as they are; one that did
/// not, or that finds no room, changes nothing.
pub proof fn law_pool_takes_back(
    before: Seq<PacketBuf>,
    capacity: nat,
    buf: PacketBuf,
    after: Seq<PacketBuf>,
)
    requires
        given_back(before, capacity, buf, after),
    ensures
        buf.pooled() && before.len() < capacity ==> {
            &&& after.len() == before.len() + 1
            &&& forall|i: int| 0 <= i < before.len() ==> #[trigger] after[i] == before[i]
            &&& after[before.len() as int].head() == 64
            &&& after[before.len() as int].size() == 0
            &&& after[before.len() as int].storage() == buf.storage()
            &&& !after[before.len() as int].pooled()
        },
        !(buf.pooled() && before.len() < capacity) ==> after == before,
{
    if buf.pooled() && before.len() < capacity {
        assert forall|i: int| 0 <= i < before.len() implies #[trigger] after[i] == before[i] by {
            assert(after.drop_last()[i] == after[i]);
        }
    }
}

} // verus!
