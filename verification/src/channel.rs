//! The named shared-memory namespace and the channel lifecycle.
//!
//! `ShmSpace` models the kernel's namespace of named segments: creating a
//! segment sizes it and zero-fills it, opening never creates, publishing
//! overwrites the single slot in place, and unlinking removes the name
//! while leaving existing mappings readable. Handles stand for mappings:
//! a `WriterHandle` is a write mapping owned by the segment's creator, a
//! `ReaderHandle` is a read-only view. Closing a handle consumes it, so a
//! use after close cannot be written at all.

use vstd::prelude::*;

use crate::codec::zero_bytes;

verus! {

/// Why a channel could not be created or opened.
#[derive(Clone, Copy, Debug, PartialEq, Eq, Structural)]
pub enum ChannelError {
    /// A zero-length record was requested; rejected before any kernel call.
    InvalidSize,
    /// The named object could not be created or opened for writing.
    CreateFailed,
    /// The named object does not exist: the writer has not started, or has
    /// already torn the channel down. Expected and recoverable for readers.
    NotFound,
    /// The named object could not be resized to the record length.
    ResizeFailed,
    /// The mapping could not be established, or the existing object is
    /// smaller than the record to be read.
    MapFailed,
}

impl ChannelError {
    /// Diagnostic text for reporting a setup failure.
    pub fn describe(&self) -> (msg: &'static str)
        ensures
            *self == ChannelError::InvalidSize ==> msg@ == "shared memory size must not be zero"@,
            *self == ChannelError::CreateFailed ==> msg@ == "failed to create the shared memory object"@,
            *self == ChannelError::NotFound ==> msg@ == "shared memory object not found (writer not running)"@,
            *self == ChannelError::ResizeFailed ==> msg@ == "failed to resize the shared memory object"@,
            *self == ChannelError::MapFailed ==> msg@ == "failed to map the shared memory object"@,
    {
        match self {
            ChannelError::InvalidSize => "shared memory size must not be zero",
            ChannelError::CreateFailed => "failed to create the shared memory object",
            ChannelError::NotFound => "shared memory object not found (writer not running)",
            ChannelError::ResizeFailed => "failed to resize the shared memory object",
            ChannelError::MapFailed => "failed to map the shared memory object",
        }
    }
}

/// What the model records of one named segment.
pub struct SegmentModel {
    /// The name under which the segment was created.
    pub name: Seq<char>,
    /// The bytes currently held by the kernel object.
    pub data: Seq<u8>,
    /// Whether the name still resolves to this segment (false after unlink;
    /// existing mappings keep reading the bytes).
    pub linked: bool,
}

/// A segment is reachable under `name`: still linked and named `name`.
pub open spec fn seg_is(s: SegmentModel, name: Seq<char>) -> bool {
    s.linked && s.name == name
}

/// Some segment is reachable under `name`.
pub open spec fn has_live(ns: Seq<SegmentModel>, name: Seq<char>) -> bool {
    exists|i: int| 0 <= i < ns.len() && seg_is(ns[i], name)
}

/// The index of the segment reachable under `name` (unique when the
/// namespace is well formed).
pub open spec fn live_index_of(ns: Seq<SegmentModel>, name: Seq<char>) -> int {
    choose|i: int| 0 <= i < ns.len() && seg_is(ns[i], name)
}

/// At most one segment is reachable under any one name.
pub open spec fn wf_namespace(ns: Seq<SegmentModel>) -> bool {
    forall|i: int, j: int| #![trigger ns[i], ns[j]]
        0 <= i < ns.len() && 0 <= j < ns.len() && i != j && ns[i].linked && ns[j].linked
            ==> ns[i].name != ns[j].name
}

/// `ftruncate` to `n` bytes: keep the prefix, zero-fill any extension.
pub open spec fn spec_resize(data: Seq<u8>, n: nat) -> Seq<u8> {
    if n <= data.len() {
        data.take(n as int)
    } else {
        data + zero_bytes((n - data.len()) as nat)
    }
}

/// The namespace after a writer creates (or reopens) `name` at `size`
/// bytes: an existing segment is resized in place, a fresh one starts
/// zero-filled.
pub open spec fn spec_create(ns: Seq<SegmentModel>, name: Seq<char>, size: nat) -> Seq<SegmentModel> {
    if has_live(ns, name) {
        let i = live_index_of(ns, name);
        ns.update(i, SegmentModel { data: spec_resize(ns[i].data, size), ..ns[i] })
    } else {
        ns.push(SegmentModel { name: name, data: zero_bytes(size), linked: true })
    }
}

/// The index the writer's mapping refers to after `spec_create`.
pub open spec fn spec_create_index(ns: Seq<SegmentModel>, name: Seq<char>) -> int {
    if has_live(ns, name) {
        live_index_of(ns, name)
    } else {
        ns.len() as int
    }
}

/// The namespace after a publish into segment `i`: that slot's bytes are
/// overwritten, every other segment is untouched.
pub open spec fn spec_publish(ns: Seq<SegmentModel>, i: int, bytes: Seq<u8>) -> Seq<SegmentModel> {
    ns.update(i, SegmentModel { data: bytes, ..ns[i] })
}

/// The bytes a poll of `len` bytes from segment `i` observes.
pub open spec fn spec_poll(ns: Seq<SegmentModel>, i: int, len: int) -> Seq<u8> {
    ns[i].data.take(len)
}

/// The namespace after `name` is unlinked: the name stops resolving; the
/// bytes stay for mappings that are still open. Unlinking an absent name
/// changes nothing.
pub open spec fn spec_unlink(ns: Seq<SegmentModel>, name: Seq<char>) -> Seq<SegmentModel> {
    if has_live(ns, name) {
        let i = live_index_of(ns, name);
        ns.update(i, SegmentModel { linked: false, ..ns[i] })
    } else {
        ns
    }
}

/// Changing a segment's bytes, or retiring its name, never makes two live
/// names collide.
proof fn lemma_wf_after_update(ns0: Seq<SegmentModel>, ns1: Seq<SegmentModel>)
    requires
        wf_namespace(ns0),
        ns1.len() == ns0.len(),
        forall|i: int| #![trigger ns1[i]]
            0 <= i < ns1.len() ==> ns1[i].name == ns0[i].name && (ns1[i].linked
                ==> ns0[i].linked),
    ensures
        wf_namespace(ns1),
{
    assert forall|i: int, j: int| #![trigger ns1[i], ns1[j]]
        0 <= i < ns1.len() && 0 <= j < ns1.len() && i != j && ns1[i].linked
            && ns1[j].linked implies ns1[i].name != ns1[j].name by {
        assert(ns0[i].linked && ns0[j].linked);
        assert(ns0[i].name != ns0[j].name);
    }
}

/// Any reachable index is the unique one `live_index_of` denotes.
pub proof fn lemma_live_index_unique(ns: Seq<SegmentModel>, name: Seq<char>, i: int)
    requires
        wf_namespace(ns),
        0 <= i < ns.len(),
        seg_is(ns[i], name),
    ensures
        has_live(ns, name),
        live_index_of(ns, name) == i,
{
    assert(has_live(ns, name));
    let j = live_index_of(ns, name);
    assert(0 <= j < ns.len() && seg_is(ns[j], name));
    if i != j {
        assert(ns[i].name != ns[j].name);
    }
}

/// A write mapping of one whole segment, held by the segment's creator.
#[derive(Debug)]
pub struct WriterHandle {
    /// Which segment of the namespace the mapping covers.
    pub index: usize,
    /// The record length the segment was sized to.
    pub len: usize,
    /// The name the owning writer will unlink on teardown.
    pub name: String,
}

impl WriterHandle {
    /// The mapping covers a segment of exactly the record length.
    pub open spec fn valid(self, ns: Seq<SegmentModel>) -> bool {
        &&& (self.index as int) < ns.len()
        &&& ns[self.index as int].data.len() == self.len
        &&& self.len > 0
    }
}

/// A read-only mapping of a record-length prefix of a segment.
#[derive(Clone, Copy, Debug)]
pub struct ReaderHandle {
    /// Which segment of the namespace the mapping covers.
    pub index: usize,
    /// How many bytes a poll reads.
    pub len: usize,
}

impl ReaderHandle {
    /// The mapping covers at least the record length.
    pub open spec fn valid(self, ns: Seq<SegmentModel>) -> bool {
        &&& (self.index as int) < ns.len()
        &&& ns[self.index as int].data.len() >= self.len
        &&& self.len > 0
    }

    /// Tear the read mapping down. Consuming the handle is the unmap:
    /// nothing in the namespace changes, a reader never unlinks, and no
    /// operation can follow on a closed handle.
    pub fn close(self) {
    }
}

struct Segment {
    name: String,
    data: Vec<u8>,
    linked: bool,
}

impl View for Segment {
    type V = SegmentModel;

    closed spec fn view(&self) -> SegmentModel {
        SegmentModel { name: self.name@, data: self.data@, linked: self.linked }
    }
}

/// The namespace of named shared-memory segments visible on one host.
pub struct ShmSpace {
    segs: Vec<Segment>,
}

impl View for ShmSpace {
    type V = Seq<SegmentModel>;

    closed spec fn view(&self) -> Seq<SegmentModel> {
        self.segs@.map_values(|s: Segment| s@)
    }
}

impl ShmSpace {
    /// The namespace invariant: no two segments share a live name.
    pub open spec fn wf(&self) -> bool {
        wf_namespace(self@)
    }

    /// An empty namespace: no writer has created anything yet.
    pub fn new() -> (r: Self)
        ensures
            r@ =~= Seq::<SegmentModel>::empty(),
            r.wf(),
    {
        ShmSpace { segs: Vec::new() }
    }

    /// First segment reachable under `name`, if any.
    fn find_live(&self, name: &String) -> (r: Option<usize>)
        ensures
            match r {
                Some(i) => {
                    &&& (i as int) < self@.len()
                    &&& seg_is(self@[i as int], name@)
                },
                None => !has_live(self@, name@),
            },
    {
        let n = self.segs.len();
        let mut k: usize = 0;
        while k < n
            invariant
                k <= n,
                n == self.segs.len(),
                forall|j: int| 0 <= j < k ==> !seg_is(self@[j], name@),
            decreases n - k,
        {
            let seg = &self.segs[k];
            if seg.linked && seg.name == *name {
                return Some(k);
            }
            k += 1;
        }
        None
    }

    /// Writer-side create: make (or reopen) the named object read-write,
    /// size it to exactly `size` bytes, and map it shared for writing.
    /// A zero record length is rejected before anything is touched.
    pub fn create_writer_channel(&mut self, name: &String, size: usize) -> (r: Result<
        WriterHandle,
        ChannelError,
    >)
        requires
            old(self).wf(),
        ensures
            final(self).wf(),
            size == 0 ==> (r matches Err(e) && e == ChannelError::InvalidSize && final(self)@
                == old(self)@),
            size != 0 ==> (r matches Ok(w)
                && final(self)@ =~= spec_create(old(self)@, name@, size as nat)
                && w.index as int == spec_create_index(old(self)@, name@)
                && w.len == size
                && w.name@ == name@
                && w.valid(final(self)@)),
    {
        if size == 0 {
            return Err(ChannelError::InvalidSize);
        }
        match self.find_live(name) {
            Some(i) => {
                proof {
                    lemma_live_index_unique(self@, name@, i as int);
                }
                let new_data = resize_bytes(&self.segs[i].data, size);
                let seg = &mut self.segs[i];
                seg.data = new_data;
                proof {
                    assert(self@ =~= spec_create(old(self)@, name@, size as nat));
                }
                Ok(WriterHandle { index: i, len: size, name: name.clone() })
            },
            None => {
                let idx = self.segs.len();
                let data = make_zero_bytes(size);
                self.segs.push(Segment { name: name.clone(), data: data, linked: true });
                proof {
                    assert(self@ =~= spec_create(old(self)@, name@, size as nat));
                }
                Ok(WriterHandle { index: idx, len: size, name: name.clone() })
            },
        }
    }

    /// Reader-side open: map the existing named object read-only. Never
    /// creates, resizes, or unlinks anything — the receiver is shared, so
    /// no side effect on the namespace is even expressible. Absence of the
    /// name is the expected "writer not running" condition.
    pub fn open_reader_channel(&self, name: &String, size: usize) -> (r: Result<
        ReaderHandle,
        ChannelError,
    >)
        requires
            self.wf(),
        ensures
            size == 0 ==> (r matches Err(e) && e == ChannelError::InvalidSize),
            size != 0 && !has_live(self@, name@) ==> (r matches Err(e) && e
                == ChannelError::NotFound),
            size != 0 && has_live(self@, name@) && self@[live_index_of(self@, name@)].data.len()
                < size ==> (r matches Err(e) && e == ChannelError::MapFailed),
            size != 0 && has_live(self@, name@) && self@[live_index_of(self@, name@)].data.len()
                >= size ==> (r matches Ok(h)
                && h.index as int == live_index_of(self@, name@)
                && h.len == size
                && h.valid(self@)),
    {
        if size == 0 {
            return Err(ChannelError::InvalidSize);
        }
        match self.find_live(name) {
            Some(i) => {
                proof {
                    lemma_live_index_unique(self@, name@, i as int);
                }
                if self.segs[i].data.len() < size {
                    Err(ChannelError::MapFailed)
                } else {
                    Ok(ReaderHandle { index: i, len: size })
                }
            },
            None => Err(ChannelError::NotFound),
        }
    }

    /// Publish: one whole-record volatile store through the write mapping.
    /// The slot is overwritten in place; no other segment changes. Cannot
    /// fail once the mapping exists.
    pub fn publish_bytes(&mut self, w: &WriterHandle, bytes: &Vec<u8>)
        requires
            old(self).wf(),
            w.valid(old(self)@),
            bytes@.len() == w.len,
        ensures
            final(self).wf(),
            final(self)@ =~= spec_publish(old(self)@, w.index as int, bytes@),
    {
        let new_data = copy_bytes(bytes);
        let seg = &mut self.segs[w.index];
        seg.data = new_data;
        proof {
            assert(self@ =~= spec_publish(old(self)@, w.index as int, bytes@));
            lemma_wf_after_update(old(self)@, self@);
        }
    }

    /// Poll: one whole-record volatile load through the read mapping,
    /// returned as a value copy. Cannot fail once the mapping exists, and
    /// keeps working after the writer unlinks the name.
    pub fn poll_bytes(&self, r: &ReaderHandle) -> (out: Vec<u8>)
        requires
            r.valid(self@),
        ensures
            out@ =~= spec_poll(self@, r.index as int, r.len as int),
    {
        let seg = &self.segs[r.index];
        let mut out: Vec<u8> = Vec::new();
        let mut k: usize = 0;
        while k < r.len
            invariant
                k <= r.len,
                r.len <= seg.data@.len(),
                out@.len() == k,
                forall|j: int| 0 <= j < k ==> out@[j] == seg.data@[j],
            decreases r.len - k,
        {
            let b = seg.data[k];
            out.push(b);
            k += 1;
        }
        out
    }

    /// Writer-side teardown. Consuming the handle is the unmap; the unlink
    /// is then attempted independently: the name is removed if it still
    /// resolves, and an already-absent name is reported (`false`) rather
    /// than escalated — nothing can be done about it at exit time.
    pub fn close_writer(&mut self, w: WriterHandle) -> (unlinked: bool)
        requires
            old(self).wf(),
        ensures
            final(self).wf(),
            unlinked == has_live(old(self)@, w.name@),
            final(self)@ =~= spec_unlink(old(self)@, w.name@),
    {
        match self.find_live(&w.name) {
            Some(i) => {
                proof {
                    lemma_live_index_unique(self@, w.name@, i as int);
                }
                let seg = &mut self.segs[i];
                seg.linked = false;
                proof {
                    assert(self@ =~= spec_unlink(old(self)@, w.name@));
                    lemma_wf_after_update(old(self)@, self@);
                }
                true
            },
            None => false,
        }
    }
}

/// Build `n` zero bytes: the initial content of a fresh segment.
fn make_zero_bytes(n: usize) -> (out: Vec<u8>)
    ensures
        out@ =~= zero_bytes(n as nat),
{
    let mut out: Vec<u8> = Vec::new();
    let mut k: usize = 0;
    while k < n
        invariant
            k <= n,
            out@.len() == k,
            forall|j: int| 0 <= j < k ==> out@[j] == 0,
        decreases n - k,
    {
        out.push(0);
        k += 1;
    }
    out
}

/// Value copy of a byte vector.
fn copy_bytes(src: &Vec<u8>) -> (out: Vec<u8>)
    ensures
        out@ =~= src@,
{
    let mut out: Vec<u8> = Vec::new();
    let mut k: usize = 0;
    while k < src.len()
        invariant
            k <= src@.len(),
            out@.len() == k,
            forall|j: int| 0 <= j < k ==> out@[j] == src@[j],
        decreases src@.len() - k,
    {
        let b = src[k];
        out.push(b);
        k += 1;
    }
    out
}

/// `ftruncate` on the byte image: keep the prefix, zero-fill the rest.
fn resize_bytes(src: &Vec<u8>, n: usize) -> (out: Vec<u8>)
    ensures
        out@ =~= spec_resize(src@, n as nat),
{
    let mut out: Vec<u8> = Vec::new();
    let mut k: usize = 0;
    while k < n
        invariant
            k <= n,
            out@.len() == k,
            forall|j: int| 0 <= j < k ==> out@[j] == (if j < src@.len() {
                src@[j]
            } else {
                0u8
            }),
        decreases n - k,
    {
        let b = if k < src.len() {
            src[k]
        } else {
            0
        };
        out.push(b);
        k += 1;
    }
    out
}

} // verus!
