use vstd::prelude::*;

verus! {

/// Position and size of a rectangle, all coordinates signed 32-bit.
#[derive(Clone, Copy, Debug, PartialEq, Eq, Structural)]
pub struct Geometry {
    pub x: i32,
    pub y: i32,
    pub w: i32,
    pub h: i32,
}

/// Dimensions of a raster image, all unsigned 32-bit.
#[derive(Clone, Copy, Debug, PartialEq, Eq, Structural)]
pub struct ImageDims {
    pub width: u32,
    pub height: u32,
    pub depth: u32,
}

/// The data held by one heap slot: a leaf entity (rectangle or image) or an
/// ordered list of handles to leaf entities of one kind.
pub enum Resource {
    Rect(Geometry),
    Image(ImageDims),
    RectList(Vec<usize>),
    ImageList(Vec<usize>),
}

struct Slot {
    rc: u64,
    res: Resource,
}

/// The reference-counted resource store.
///
/// Each slot holds a resource and its reference count; a handle is the slot's
/// index.  Slots are never reused: a slot whose count has dropped to zero
/// stays dead.  The store also counts every create/clone (`creates`) and every
/// release (`releases`); its well-formedness invariant says the difference of
/// the two counters equals the number of live references, so once every
/// reference has been released the counters must agree.
pub struct Heap {
    slots: Vec<Slot>,
    created: u64,
    released: u64,
}

/// Number of occurrences of `x` in `s`.
pub open spec fn count_in(s: Seq<usize>, x: int) -> nat
    decreases s.len(),
{
    if s.len() == 0 {
        0
    } else {
        count_in(s.drop_last(), x) + if s.last() as int == x {
            1nat
        } else {
            0nat
        }
    }
}

/// Appending one handle raises its count by one and no other.
pub broadcast proof fn lemma_count_in_push(s: Seq<usize>, x: usize, e: int)
    ensures
        #[trigger] count_in(s.push(x), e) == count_in(s, e) + if x as int == e {
            1nat
        } else {
            0nat
        },
{
    assert(s.push(x).drop_last() =~= s);
}

spec fn sum_rc(s: Seq<Slot>) -> nat
    decreases s.len(),
{
    if s.len() == 0 {
        0
    } else {
        sum_rc(s.drop_last()) + s.last().rc as nat
    }
}

proof fn lemma_sum_push(s: Seq<Slot>, x: Slot)
    ensures
        sum_rc(s.push(x)) == sum_rc(s) + x.rc,
{
    assert(s.push(x).drop_last() =~= s);
}

proof fn lemma_sum_update(s: Seq<Slot>, i: int, x: Slot)
    requires
        0 <= i < s.len(),
    ensures
        sum_rc(s.update(i, x)) + s[i].rc == sum_rc(s) + x.rc,
    decreases s.len(),
{
    if i == s.len() - 1 {
        assert(s.update(i, x).drop_last() =~= s.drop_last());
    } else {
        assert(s.update(i, x).drop_last() =~= s.drop_last().update(i, x));
        lemma_sum_update(s.drop_last(), i, x);
    }
}

proof fn lemma_sum_elem_le(s: Seq<Slot>, i: int)
    requires
        0 <= i < s.len(),
    ensures
        s[i].rc <= sum_rc(s),
    decreases s.len(),
{
    if i < s.len() - 1 {
        lemma_sum_elem_le(s.drop_last(), i);
    }
}

proof fn lemma_sum_take_step(s: Seq<Slot>, i: int)
    requires
        0 <= i < s.len(),
    ensures
        sum_rc(s.take(i + 1)) == sum_rc(s.take(i)) + s[i].rc,
{
    assert(s.take(i + 1).drop_last() =~= s.take(i));
}

impl Heap {
    /// Number of slots ever allocated.
    pub closed spec fn n_slots(&self) -> int {
        self.slots@.len() as int
    }

    /// Reference count of handle `h`; zero outside the allocated range.
    pub closed spec fn rc(&self, h: int) -> nat {
        if 0 <= h < self.slots@.len() {
            self.slots@[h].rc as nat
        } else {
            0
        }
    }

    /// A handle is live while its reference count is positive.
    pub open spec fn live(&self, h: int) -> bool {
        self.rc(h) > 0
    }

    /// The resource stored at handle `h`.
    pub closed spec fn res(&self, h: int) -> Resource {
        if 0 <= h < self.slots@.len() {
            self.slots@[h].res
        } else {
            arbitrary()
        }
    }

    /// How many create/clone calls the store has performed.
    pub closed spec fn creates(&self) -> nat {
        self.created as nat
    }

    /// How many release calls the store has performed.
    pub closed spec fn releases(&self) -> nat {
        self.released as nat
    }

    /// Total number of live references, over all slots.
    pub closed spec fn total_refs(&self) -> nat {
        sum_rc(self.slots@)
    }

    /// Room for one more create/clone in the create counter.
    pub open spec fn can_create(&self) -> bool {
        self.creates() < u64::MAX
    }

    pub open spec fn is_rect(&self, h: int) -> bool {
        0 <= h < self.n_slots() && self.res(h) is Rect
    }

    pub open spec fn is_image(&self, h: int) -> bool {
        0 <= h < self.n_slots() && self.res(h) is Image
    }

    pub open spec fn is_rect_list(&self, h: int) -> bool {
        0 <= h < self.n_slots() && self.res(h) is RectList
    }

    pub open spec fn is_image_list(&self, h: int) -> bool {
        0 <= h < self.n_slots() && self.res(h) is ImageList
    }

    /// Geometry of the rectangle stored at `h`.
    pub open spec fn rect_geometry(&self, h: int) -> Geometry {
        self.res(h)->Rect_0
    }

    /// Dimensions of the image stored at `h`.
    pub open spec fn image_dims(&self, h: int) -> ImageDims {
        self.res(h)->Image_0
    }

    /// The handles stored by the list at `h` (empty for leaf slots).
    pub open spec fn items_of(&self, h: int) -> Seq<usize> {
        match self.res(h) {
            Resource::RectList(v) => v@,
            Resource::ImageList(v) => v@,
            _ => Seq::empty(),
        }
    }

    pub open spec fn list_len(&self, h: int) -> int {
        self.items_of(h).len() as int
    }

    /// The store's invariant: the counters balance the live references, and
    /// every list refers to in-range leaf slots of its kind, with a length
    /// that a native 32-bit count can report.
    pub closed spec fn wf(&self) -> bool {
        &&& self.released <= self.created
        &&& self.created - self.released == sum_rc(self.slots@)
        &&& forall|i: int| 0 <= i < self.slots@.len() ==> #[trigger] slot_ok(self.slots@, i)
    }
}

spec fn idx_ok(s: Seq<Slot>, e: usize, rects: bool) -> bool {
    &&& (e as int) < s.len()
    &&& if rects {
        s[e as int].res is Rect
    } else {
        s[e as int].res is Image
    }
}

spec fn list_ok(s: Seq<Slot>, v: Seq<usize>, rects: bool) -> bool {
    &&& v.len() <= i32::MAX
    &&& forall|j: int| 0 <= j < v.len() ==> idx_ok(s, #[trigger] v[j], rects)
}

spec fn slot_ok(s: Seq<Slot>, i: int) -> bool {
    match s[i].res {
        Resource::RectList(v) => list_ok(s, v@, true),
        Resource::ImageList(v) => list_ok(s, v@, false),
        _ => true,
    }
}

proof fn lemma_count_take_step(s: Seq<usize>, j: int, x: int)
    requires
        0 <= j < s.len(),
    ensures
        count_in(s.take(j + 1), x) == count_in(s.take(j), x) + if s[j] as int == x {
            1nat
        } else {
            0nat
        },
{
    assert(s.take(j + 1).drop_last() =~= s.take(j));
}

proof fn lemma_count_take_le(s: Seq<usize>, j: int, x: int)
    requires
        0 <= j <= s.len(),
    ensures
        count_in(s.take(j), x) <= count_in(s, x),
    decreases s.len() - j,
{
    if j == s.len() {
        assert(s.take(j) =~= s);
    } else {
        lemma_count_take_step(s, j, x);
        lemma_count_take_le(s, j + 1, x);
    }
}

proof fn lemma_slots_ok_preserved(s1: Seq<Slot>, s2: Seq<Slot>)
    requires
        s1.len() <= s2.len(),
        forall|i: int| 0 <= i < s1.len() ==> s2[i].res == s1[i].res,
        forall|i: int| 0 <= i < s1.len() ==> #[trigger] slot_ok(s1, i),
    ensures
        forall|i: int| 0 <= i < s1.len() ==> #[trigger] slot_ok(s2, i),
{
    assert forall|i: int| 0 <= i < s1.len() implies #[trigger] slot_ok(s2, i) by {
        assert(slot_ok(s1, i));
        match s2[i].res {
            Resource::RectList(v) => {
                assert forall|j: int| 0 <= j < v@.len() implies idx_ok(s2, #[trigger] v@[j], true) by {
                    assert(idx_ok(s1, v@[j], true));
                }
            },
            Resource::ImageList(v) => {
                assert forall|j: int| 0 <= j < v@.len() implies idx_ok(s2, #[trigger] v@[j], false) by {
                    assert(idx_ok(s1, v@[j], false));
                }
            },
            _ => {},
        }
    }
}

impl Heap {
    /// An allocation may start with a leaf resource or an empty list, never a
    /// pre-filled list.
    pub open spec fn alloc_res_ok(res: Resource) -> bool {
        match res {
            Resource::RectList(v) => v@.len() == 0,
            Resource::ImageList(v) => v@.len() == 0,
            _ => true,
        }
    }

    /// How an allocation changes the store, apart from what the fresh slot
    /// holds: one new slot at the old end with one reference, every old slot
    /// untouched, and one more create counted.
    pub open spec fn alloc_frame(pre: Heap, post: Heap, h: int) -> bool {
        &&& h == pre.n_slots()
        &&& post.n_slots() == pre.n_slots() + 1
        &&& post.rc(h) == 1
        &&& forall|i: int| 0 <= i < pre.n_slots() ==> #[trigger] post.rc(i) == pre.rc(i)
        &&& forall|i: int| 0 <= i < pre.n_slots() ==> #[trigger] post.res(i) == pre.res(i)
        &&& post.creates() == pre.creates() + 1
        &&& post.releases() == pre.releases()
    }

    /// How an allocation changes the store: the frame above, with the fresh
    /// slot holding `res`.
    pub open spec fn alloc_post(pre: Heap, res: Resource, post: Heap, h: int) -> bool {
        &&& Heap::alloc_frame(pre, post, h)
        &&& post.res(h) == res
    }

    /// How a clone changes the store: one more reference on `h`, one more
    /// create counted, everything else untouched.
    pub open spec fn incref_post(pre: Heap, h: int, post: Heap) -> bool {
        &&& post.n_slots() == pre.n_slots()
        &&& post.rc(h) == pre.rc(h) + 1
        &&& forall|i: int| i != h ==> #[trigger] post.rc(i) == pre.rc(i)
        &&& forall|i: int| #[trigger] post.res(i) == pre.res(i)
        &&& post.creates() == pre.creates() + 1
        &&& post.releases() == pre.releases()
    }

    /// A release of the last reference to a list frees the list and releases
    /// each stored handle once; that must not release any slot more often
    /// than it holds references.  For leaf slots this holds trivially.
    pub open spec fn cascade_safe(&self, h: int) -> bool {
        forall|e: int| #[trigger] count_in(self.items_of(h), e) <= self.rc(e)
    }

    /// What a caller must establish before releasing `h`.
    pub open spec fn release_pre(&self, h: int) -> bool {
        &&& self.live(h)
        &&& (self.rc(h) == 1 ==> self.cascade_safe(h))
    }

    /// How a release changes the store.  While other references remain only
    /// the count of `h` drops; the last release frees the slot and, for a
    /// list, also releases each stored handle once.  Resources themselves
    /// are never rewritten, and every performed release is counted.
    pub open spec fn release_post(pre: Heap, h: int, post: Heap) -> bool {
        &&& post.n_slots() == pre.n_slots()
        &&& forall|i: int| #[trigger] post.res(i) == pre.res(i)
        &&& if pre.rc(h) > 1 {
            &&& post.rc(h) == pre.rc(h) - 1
            &&& forall|i: int| i != h ==> #[trigger] post.rc(i) == pre.rc(i)
            &&& post.releases() == pre.releases() + 1
        } else {
            &&& post.rc(h) == 0
            &&& forall|i: int|
                i != h ==> #[trigger] post.rc(i) + count_in(pre.items_of(h), i) == pre.rc(i)
            &&& post.releases() == pre.releases() + 1 + pre.items_of(h).len()
        }
        &&& post.creates() == pre.creates()
    }

    /// Both stores hold the same slots: same length, same counts, same
    /// resources; only the instrumentation counters may differ.
    pub open spec fn same_slots(pre: Heap, post: Heap) -> bool {
        &&& post.n_slots() == pre.n_slots()
        &&& forall|i: int| #[trigger] post.rc(i) == pre.rc(i)
        &&& forall|i: int| #[trigger] post.res(i) == pre.res(i)
    }
}

impl Heap {
    /// A fresh store with no slots and both counters at zero.
    pub fn new() -> (r: Heap)
        ensures
            r.wf(),
            r.n_slots() == 0,
            r.creates() == 0,
            r.releases() == 0,
            r.total_refs() == 0,
    {
        Heap { slots: Vec::new(), created: 0, released: 0 }
    }

    /// The create/clone count, as the instrumented store reports it.
    pub fn create_count(&self) -> (r: u64)
        ensures
            r == self.creates(),
    {
        self.created
    }

    /// The release count, as the instrumented store reports it.
    pub fn release_count(&self) -> (r: u64)
        ensures
            r == self.releases(),
    {
        self.released
    }

    /// The number of live references over all slots.
    pub fn live_references(&self) -> (r: u64)
        requires
            self.wf(),
        ensures
            r == self.total_refs(),
    {
        let mut sum: u64 = 0;
        let mut i: usize = 0;
        while i < self.slots.len()
            invariant
                self.wf(),
                i <= self.slots@.len(),
                sum == sum_rc(self.slots@.take(i as int)),
            decreases self.slots@.len() - i,
        {
            proof {
                lemma_sum_take_step(self.slots@, i as int);
                lemma_sum_take_le(self.slots@, i as int + 1);
            }
            sum = sum + self.slots[i].rc;
            i = i + 1;
        }
        proof {
            assert(self.slots@.take(i as int) =~= self.slots@);
        }
        sum
    }

    /// Allocate a fresh slot holding `res` with one reference.
    pub(crate) fn allocate(&mut self, res: Resource) -> (h: usize)
        requires
            old(self).wf(),
            old(self).can_create(),
            Heap::alloc_res_ok(res),
        ensures
            final(self).wf(),
            Heap::alloc_post(*old(self), res, *final(self), h as int),
    {
        let h = self.slots.len();
        let ghost new_slot = Slot { rc: 1u64, res: res };
        self.slots.push(Slot { rc: 1, res });
        self.created = self.created + 1;
        proof {
            lemma_sum_push(old(self).slots@, new_slot);
            lemma_slots_ok_preserved(old(self).slots@, self.slots@);
            assert(slot_ok(self.slots@, h as int));
        }
        h
    }

    /// Add one reference to the slot at `h` (a native clone).
    pub(crate) fn incref(&mut self, h: usize)
        requires
            old(self).wf(),
            (h as int) < old(self).n_slots(),
            old(self).can_create(),
        ensures
            final(self).wf(),
            Heap::incref_post(*old(self), h as int, *final(self)),
    {
        proof {
            lemma_sum_elem_le(self.slots@, h as int);
        }
        let rc = self.slots[h].rc;
        self.slots[h].rc = rc + 1;
        self.created = self.created + 1;
        proof {
            lemma_sum_update(old(self).slots@, h as int, self.slots@[h as int]);
            lemma_slots_ok_preserved(old(self).slots@, self.slots@);
        }
    }

    /// Give back one reference to the slot at `h` (a native destroy).  The
    /// last release frees the slot; freeing a list releases each stored
    /// handle once.
    pub(crate) fn release(&mut self, h: usize)
        requires
            old(self).wf(),
            (h as int) < old(self).n_slots(),
            old(self).release_pre(h as int),
        ensures
            final(self).wf(),
            Heap::release_post(*old(self), h as int, *final(self)),
    {
        let rc = self.slots[h].rc;
        proof {
            lemma_sum_elem_le(self.slots@, h as int);
        }
        if rc > 1 {
            self.slots[h].rc = rc - 1;
            self.released = self.released + 1;
            proof {
                lemma_sum_update(old(self).slots@, h as int, self.slots@[h as int]);
                lemma_slots_ok_preserved(old(self).slots@, self.slots@);
            }
        } else if rc == 1 {
            self.slots[h].rc = 0;
            self.released = self.released + 1;
            proof {
                lemma_sum_update(old(self).slots@, h as int, self.slots@[h as int]);
                lemma_slots_ok_preserved(old(self).slots@, self.slots@);
            }
            let n = match &self.slots[h].res {
                Resource::RectList(v) => v.len(),
                Resource::ImageList(v) => v.len(),
                _ => 0,
            };
            let ghost items = old(self).items_of(h as int);
            let mut j: usize = 0;
            while j < n
                invariant
                    self.wf(),
                    j <= n,
                    n == items.len(),
                    items == old(self).items_of(h as int),
                    old(self).wf(),
                    (h as int) < old(self).n_slots(),
                    old(self).release_pre(h as int),
                    old(self).rc(h as int) == 1,
                    self.n_slots() == old(self).n_slots(),
                    forall|i: int| #[trigger] self.res(i) == old(self).res(i),
                    self.rc(h as int) == 0,
                    forall|i: int|
                        i != h ==> #[trigger] self.rc(i) + count_in(items.take(j as int), i)
                            == old(self).rc(i),
                    self.creates() == old(self).creates(),
                    self.releases() == old(self).releases() + 1 + j,
                decreases n - j,
            {
                let ghost pre_iter = *self;
                proof {
                    assert(self.res(h as int) == old(self).res(h as int));
                    assert(self.items_of(h as int) == items);
                }
                let e = match &self.slots[h].res {
                    Resource::RectList(v) => v[j],
                    Resource::ImageList(v) => v[j],
                    _ => 0,
                };
                proof {
                    assert(slot_ok(old(self).slots@, h as int));
                    assert(idx_ok(
                        old(self).slots@,
                        items[j as int],
                        old(self).res(h as int) is RectList,
                    ));
                    assert(e as int != h as int);
                    lemma_count_take_step(items, j as int, e as int);
                    lemma_count_take_le(items, j as int + 1, e as int);
                    assert(count_in(items, e as int) <= old(self).rc(e as int));
                    assert(self.rc(e as int) >= 1);
                }
                let erc = self.slots[e].rc;
                if erc > 0 {
                    let ghost before = self.slots@;
                    proof {
                        lemma_sum_elem_le(before, e as int);
                    }
                    self.slots[e].rc = erc - 1;
                    self.released = self.released + 1;
                    proof {
                        lemma_sum_update(before, e as int, self.slots@[e as int]);
                        lemma_slots_ok_preserved(before, self.slots@);
                        assert(self.rc(e as int) + 1 == pre_iter.rc(e as int));
                        assert(forall|i: int|
                            i != e ==> #[trigger] self.rc(i) == pre_iter.rc(i));
                        assert(forall|i: int| #[trigger] self.res(i) == pre_iter.res(i));
                    }
                }
                proof {
                    assert forall|i: int| i != h implies #[trigger] self.rc(i) + count_in(
                        items.take(j as int + 1),
                        i,
                    ) == old(self).rc(i) by {
                        assert(pre_iter.rc(i) + count_in(items.take(j as int), i) == old(
                            self,
                        ).rc(i));
                        lemma_count_take_step(items, j as int, i);
                    }
                    assert forall|i: int| #[trigger] self.res(i) == old(self).res(i) by {
                        assert(pre_iter.res(i) == old(self).res(i));
                    }
                }
                j = j + 1;
            }
            proof {
                assert(items.take(n as int) =~= items);
            }
        }
    }
}

spec fn slot_items(x: Slot) -> Seq<usize> {
    match x.res {
        Resource::RectList(v) => v@,
        Resource::ImageList(v) => v@,
        _ => Seq::empty(),
    }
}

proof fn lemma_slots_ok_after_push(s1: Seq<Slot>, s2: Seq<Slot>, a: int, e: usize)
    requires
        s1.len() == s2.len(),
        0 <= a < s1.len(),
        forall|i: int| 0 <= i < s1.len() && i != a ==> s2[i].res == s1[i].res,
        s1[a].res is RectList || s1[a].res is ImageList,
        (s2[a].res is RectList) == (s1[a].res is RectList),
        (s2[a].res is ImageList) == (s1[a].res is ImageList),
        slot_items(s2[a]) == slot_items(s1[a]).push(e),
        slot_items(s1[a]).len() < i32::MAX,
        idx_ok(s1, e, s1[a].res is RectList),
        forall|i: int| 0 <= i < s1.len() ==> #[trigger] slot_ok(s1, i),
    ensures
        forall|i: int| 0 <= i < s2.len() ==> #[trigger] slot_ok(s2, i),
{
    assert forall|i: int| 0 <= i < s2.len() implies #[trigger] slot_ok(s2, i) by {
        assert(slot_ok(s1, i));
        let rects = s1[i].res is RectList;
        if s2[i].res is RectList || s2[i].res is ImageList {
            let v1 = slot_items(s1[i]);
            let v2 = slot_items(s2[i]);
            assert forall|j: int| 0 <= j < v2.len() implies idx_ok(
                s2,
                #[trigger] v2[j],
                s2[i].res is RectList,
            ) by {
                if i == a && j == v2.len() - 1 {
                    assert(v2[j] == e);
                    assert(idx_ok(s1, e, s1[a].res is RectList));
                    assert(s1[e as int].res is Rect || s1[e as int].res is Image);
                    assert(e as int != a);
                    assert(s2[e as int].res == s1[e as int].res);
                } else {
                    assert(idx_ok(s1, v1[j], s1[i].res is RectList));
                    assert(v1[j] as int != a);
                    assert(s2[v1[j] as int].res == s1[v1[j] as int].res);
                }
            }
        }
    }
}

impl Heap {
    pub open spec fn is_list(&self, h: int) -> bool {
        self.is_rect_list(h) || self.is_image_list(h)
    }

    /// How a clone-mode append changes the store: the list at `a` gains `e`
    /// at its end, `e` gains one reference, and one more create is counted.
    pub open spec fn push_post(pre: Heap, a: int, e: usize, post: Heap) -> bool {
        &&& post.n_slots() == pre.n_slots()
        &&& post.is_rect_list(a) == pre.is_rect_list(a)
        &&& post.is_image_list(a) == pre.is_image_list(a)
        &&& post.items_of(a) == pre.items_of(a).push(e)
        &&& forall|i: int| i != a ==> #[trigger] post.res(i) == pre.res(i)
        &&& post.rc(e as int) == pre.rc(e as int) + 1
        &&& forall|i: int| i != e as int ==> #[trigger] post.rc(i) == pre.rc(i)
        &&& post.creates() == pre.creates() + 1
        &&& post.releases() == pre.releases()
    }

    /// Append the leaf handle `e` to the list at `a`, taking one new
    /// reference on `e` (a clone-mode add).
    pub(crate) fn list_push(&mut self, a: usize, e: usize)
        requires
            old(self).wf(),
            old(self).is_rect_list(a as int) && old(self).is_rect(e as int) || old(
                self,
            ).is_image_list(a as int) && old(self).is_image(e as int),
            old(self).can_create(),
            old(self).list_len(a as int) < i32::MAX,
        ensures
            final(self).wf(),
            Heap::push_post(*old(self), a as int, e, *final(self)),
    {
        let ghost before = self.slots@;
        match &mut self.slots[a].res {
            Resource::RectList(v) => v.push(e),
            Resource::ImageList(v) => v.push(e),
            _ => {},
        }
        proof {
            assert(self.slots@[a as int].rc == before[a as int].rc);
            lemma_sum_update(before, a as int, self.slots@[a as int]);
            lemma_slots_ok_after_push(before, self.slots@, a as int, e);
        }
        self.incref(e);
        proof {
            assert(self.items_of(a as int) == old(self).items_of(a as int).push(e));
        }
    }

    /// Number of handles in the list at `a`, as the native count call
    /// reports it.
    pub(crate) fn list_length(&self, a: usize) -> (n: usize)
        requires
            self.wf(),
            self.is_list(a as int),
        ensures
            n == self.list_len(a as int),
            n <= i32::MAX,
    {
        proof {
            assert(slot_ok(self.slots@, a as int));
        }
        match &self.slots[a].res {
            Resource::RectList(v) => v.len(),
            Resource::ImageList(v) => v.len(),
            _ => 0,
        }
    }

    /// The handle stored at position `i` of the list at `a`.
    pub(crate) fn list_item(&self, a: usize, i: usize) -> (e: usize)
        requires
            self.wf(),
            self.is_list(a as int),
            i < self.list_len(a as int),
        ensures
            e == self.items_of(a as int)[i as int],
            self.is_rect_list(a as int) ==> self.is_rect(e as int),
            self.is_image_list(a as int) ==> self.is_image(e as int),
    {
        proof {
            assert(slot_ok(self.slots@, a as int));
            assert(idx_ok(self.slots@, self.items_of(a as int)[i as int], self.res(a as int) is RectList));
        }
        match &self.slots[a].res {
            Resource::RectList(v) => v[i],
            Resource::ImageList(v) => v[i],
            _ => 0,
        }
    }

    /// The geometry stored by the rectangle at `h`.
    pub(crate) fn rect_data(&self, h: usize) -> (g: Geometry)
        requires
            self.is_rect(h as int),
        ensures
            g == self.rect_geometry(h as int),
    {
        match &self.slots[h].res {
            Resource::Rect(g) => *g,
            _ => Geometry { x: 0, y: 0, w: 0, h: 0 },
        }
    }

    /// The dimensions stored by the image at `h`.
    pub(crate) fn image_data(&self, h: usize) -> (d: ImageDims)
        requires
            self.is_image(h as int),
        ensures
            d == self.image_dims(h as int),
    {
        match &self.slots[h].res {
            Resource::Image(d) => *d,
            _ => ImageDims { width: 0, height: 0, depth: 0 },
        }
    }
}

/// The balance law of the instrumented store: the create counter always
/// exceeds the release counter by exactly the number of live references, so
/// once every reference has been released the two counters agree.
pub proof fn lemma_counts_balanced(heap: Heap)
    requires
        heap.wf(),
    ensures
        heap.creates() == heap.releases() + heap.total_refs(),
        heap.total_refs() == 0 ==> heap.creates() == heap.releases(),
{
}

proof fn lemma_sum_take_le(s: Seq<Slot>, j: int)
    requires
        0 <= j <= s.len(),
    ensures
        sum_rc(s.take(j)) <= sum_rc(s),
    decreases s.len() - j,
{
    if j == s.len() {
        assert(s.take(j) =~= s);
    } else {
        lemma_sum_take_step(s, j);
        lemma_sum_take_le(s, j + 1);
    }
}

} // verus!
