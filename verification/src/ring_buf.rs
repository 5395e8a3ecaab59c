//! A fixed-capacity FIFO that overwrites its oldest entry when full, used
//! to hand audio samples to the frontend.
use vstd::prelude::*;

verus! {

pub struct RingBuf<T> {
    items: Vec<T>,
    capacity: usize,
    reader_idx: usize,
    writer_idx: usize,
}

/// The slots from `r` up to (not including) `w`, wrapping at `cap`.
pub open spec fn ring_slice<T>(items: Seq<T>, cap: nat, r: nat, w: nat) -> Seq<T> {
    if r <= w {
        items.subrange(r as int, w as int)
    } else {
        items.subrange(r as int, cap as int) + items.subrange(0, w as int)
    }
}

/// The queue after a push into a buffer of `cap` slots: one slot always
/// stays free, so a full queue loses its oldest item.
pub open spec fn after_push<T>(c: Seq<T>, cap: nat, item: T) -> Seq<T> {
    if cap == 1 {
        Seq::<T>::empty()
    } else if c.len() + 1 == cap {
        c.drop_first().push(item)
    } else {
        c.push(item)
    }
}

/// Both positions lie inside the slots; with no slots both stay at 0.
pub open spec fn cursor_ok(cap: usize, r: usize, w: usize) -> bool {
    if cap == 0 {
        r == 0 && w == 0
    } else {
        r < cap && w < cap
    }
}

pub open spec fn next_index(i: usize, cap: usize) -> usize {
    if i + 1 < cap { (i + 1) as usize } else { 0 }
}

impl<T: Copy> RingBuf<T> {
    pub closed spec fn wf(&self) -> bool {
        &&& self.items@.len() == self.capacity
        &&& cursor_ok(self.capacity, self.reader_idx, self.writer_idx)
    }

    pub closed spec fn spec_capacity(&self) -> nat {
        self.capacity as nat
    }

    /// The queued items, oldest first.
    pub closed spec fn contents(&self) -> Seq<T> {
        ring_slice(self.items@, self.capacity as nat, self.reader_idx as nat, self.writer_idx as nat)
    }

    pub fn new(capacity: usize, fill: T) -> (r: Self)
        ensures
            r.wf(),
            r.spec_capacity() == capacity,
            r.contents() == Seq::<T>::empty(),
    {
        let mut items: Vec<T> = Vec::new();
        let mut i: usize = 0;
        while i < capacity
            invariant
                i <= capacity,
                items@.len() == i,
            decreases capacity - i,
        {
            items.push(fill);
            i += 1;
        }
        Self { items, capacity, reader_idx: 0, writer_idx: 0 }
    }

    /// Appends `item`; when the buffer already holds `capacity - 1` items
    /// the oldest is dropped. A buffer without slots cannot take one.
    pub fn push(&mut self, item: T)
        requires
            old(self).wf(),
            old(self).spec_capacity() >= 1,
        ensures
            final(self).wf(),
            final(self).spec_capacity() == old(self).spec_capacity(),
            final(self).contents() == after_push(old(self).contents(), old(self).spec_capacity(), item),
    {
        let ghost old_items = self.items@;
        self.items.set(self.writer_idx, item);
        self.advance_writer();
        if self.reader_idx == self.writer_idx {
            self.advance_reader();
        }
        proof {
            let cap = self.capacity as int;
            let r0 = old(self).reader_idx as int;
            let w0 = old(self).writer_idx as int;
            let c0 = old(self).contents();
            assert(c0.len() == if r0 <= w0 { w0 - r0 } else { cap - r0 + w0 });
            if cap == 1 {
                assert(self.contents() =~= Seq::<T>::empty());
            } else if c0.len() + 1 == cap {
                assert(self.contents() =~= c0.drop_first().push(item));
            } else {
                assert(self.contents() =~= c0.push(item));
            }
        }
    }

    /// Removes and returns the oldest item.
    pub fn pop(&mut self) -> (r: Option<T>)
        requires
            old(self).wf(),
        ensures
            final(self).wf(),
            final(self).spec_capacity() == old(self).spec_capacity(),
            old(self).contents().len() == 0 ==> r is None && final(self).contents() == old(self).contents(),
            old(self).contents().len() > 0 ==> r == Some(old(self).contents()[0])
                && final(self).contents() == old(self).contents().drop_first(),
    {
        if self.reader_idx == self.writer_idx {
            None
        } else {
            let item = self.items[self.reader_idx];
            self.advance_reader();
            proof {
                let c0 = old(self).contents();
                assert(self.contents() =~= c0.drop_first());
            }
            Some(item)
        }
    }

    /// Drains every queued item, oldest first.
    pub fn iter(&mut self) -> (r: Vec<T>)
        requires
            old(self).wf(),
        ensures
            final(self).wf(),
            r@ == old(self).contents(),
            final(self).contents() == Seq::<T>::empty(),
            final(self).spec_capacity() == old(self).spec_capacity(),
    {
        let mut out: Vec<T> = Vec::new();
        loop
            invariant_except_break
                self.wf(),
                self.spec_capacity() == old(self).spec_capacity(),
                out@ + self.contents() == old(self).contents(),
            ensures
                self.wf(),
                self.spec_capacity() == old(self).spec_capacity(),
                out@ == old(self).contents(),
                self.contents() == Seq::<T>::empty(),
            decreases self.contents().len(),
        {
            let ghost before = self.contents();
            match self.pop() {
                Some(item) => {
                    out.push(item);
                    assert(out@ + self.contents() =~= old(self).contents()) by {
                        assert(before =~= seq![item] + before.drop_first());
                    }
                },
                None => {
                    assert(out@ =~= old(self).contents());
                    assert(self.contents() =~= Seq::<T>::empty());
                    break;
                },
            }
        }
        out
    }

    /// Takes every queued item as a double-ended iterator, emptying the buffer.
    pub fn take_iter(&mut self) -> (r: RingIter<T>)
        requires
            old(self).wf(),
        ensures
            final(self).wf(),
            r.wf(),
            r.remaining() == old(self).contents(),
            final(self).contents() == Seq::<T>::empty(),
            final(self).spec_capacity() == old(self).spec_capacity(),
    {
        let iter = RingIter {
            items: copy_items(&self.items),
            cursor: RingIterCursor {
                done: false,
                capacity: self.capacity,
                reader_idx: self.reader_idx,
                writer_idx: self.writer_idx,
            },
        };
        self.reader_idx = self.writer_idx;
        assert(self.contents() =~= Seq::<T>::empty());
        iter
    }

    /// Iterates over the queued items without removing them.
    pub fn iter_ref(&self) -> (r: RingIterRef<T>)
        requires
            self.wf(),
        ensures
            r.wf(),
            r.remaining() == self.contents(),
    {
        RingIter {
            items: copy_items(&self.items),
            cursor: RingIterCursor {
                done: false,
                capacity: self.capacity,
                reader_idx: self.reader_idx,
                writer_idx: self.writer_idx,
            },
        }
    }

    fn advance_reader(&mut self)
        requires
            old(self).capacity >= 1,
            old(self).reader_idx < old(self).capacity,
        ensures
            final(self).reader_idx == next_index(old(self).reader_idx, old(self).capacity),
            final(self).items == old(self).items,
            final(self).capacity == old(self).capacity,
            final(self).writer_idx == old(self).writer_idx,
    {
        self.reader_idx += 1;
        if self.reader_idx >= self.capacity {
            self.reader_idx = 0;
        }
    }

    fn advance_writer(&mut self)
        requires
            old(self).capacity >= 1,
            old(self).writer_idx < old(self).capacity,
        ensures
            final(self).writer_idx == next_index(old(self).writer_idx, old(self).capacity),
            final(self).items == old(self).items,
            final(self).capacity == old(self).capacity,
            final(self).reader_idx == old(self).reader_idx,
    {
        self.writer_idx += 1;
        if self.writer_idx >= self.capacity {
            self.writer_idx = 0;
        }
    }
}

fn copy_items<T: Copy>(items: &Vec<T>) -> (r: Vec<T>)
    ensures
        r@ == items@,
{
    let mut out: Vec<T> = Vec::new();
    let mut i: usize = 0;
    while i < items.len()
        invariant
            i <= items.len(),
            out@ == items@.take(i as int),
        decreases items.len() - i,
    {
        out.push(items[i]);
        i += 1;
        assert(out@ =~= items@.take(i as int));
    }
    assert(items@.take(i as int) =~= items@);
    out
}

struct RingIterCursor {
    done: bool,
    capacity: usize,
    reader_idx: usize,
    writer_idx: usize,
}

impl RingIterCursor {
    spec fn wf(&self) -> bool {
        cursor_ok(self.capacity, self.reader_idx, self.writer_idx)
    }

    fn advance_reader(&mut self)
        requires
            old(self).wf(),
            old(self).capacity >= 1,
        ensures
            final(self).wf(),
            final(self).reader_idx == next_index(old(self).reader_idx, old(self).capacity),
            final(self).writer_idx == old(self).writer_idx,
            final(self).capacity == old(self).capacity,
            final(self).done == old(self).done,
    {
        self.reader_idx += 1;
        if self.reader_idx >= self.capacity {
            self.reader_idx = 0;
        }
    }

    fn retreat_writer(&mut self)
        requires
            old(self).wf(),
            old(self).capacity >= 1,
        ensures
            final(self).wf(),
            final(self).writer_idx == if old(self).writer_idx == 0 {
                (old(self).capacity - 1) as usize
            } else {
                (old(self).writer_idx - 1) as usize
            },
            final(self).reader_idx == old(self).reader_idx,
            final(self).capacity == old(self).capacity,
            final(self).done == old(self).done,
    {
        if self.writer_idx == 0 {
            self.writer_idx = self.capacity - 1;
        } else {
            self.writer_idx -= 1;
        }
    }

    fn next(&mut self) -> (r: Option<usize>)
        requires
            old(self).wf(),
        ensures
            final(self).wf(),
            (old(self).reader_idx == old(self).writer_idx || old(self).done) ==> r is None
                && final(self).done && final(self).reader_idx == old(self).reader_idx
                && final(self).writer_idx == old(self).writer_idx,
            !(old(self).reader_idx == old(self).writer_idx || old(self).done) ==> r == Some(
                old(self).reader_idx,
            ) && !final(self).done && final(self).reader_idx == next_index(
                old(self).reader_idx,
                old(self).capacity,
            ) && final(self).writer_idx == old(self).writer_idx,
            final(self).capacity == old(self).capacity,
    {
        if self.reader_idx == self.writer_idx || self.done {
            self.done = true;
            None
        } else {
            let item = self.reader_idx;
            self.advance_reader();
            Some(item)
        }
    }

    fn size_hint(&self) -> (r: usize)
        requires
            self.wf(),
        ensures
            r == if self.done {
                0
            } else if self.reader_idx < self.writer_idx {
                self.writer_idx - self.reader_idx
            } else {
                self.capacity - (self.reader_idx - self.writer_idx)
            },
    {
        if self.done {
            0
        } else if self.reader_idx < self.writer_idx {
            self.writer_idx - self.reader_idx
        } else {
            self.capacity - (self.reader_idx - self.writer_idx)
        }
    }

    fn next_back(&mut self) -> (r: Option<usize>)
        requires
            old(self).wf(),
            old(self).done || old(self).capacity >= 1,
        ensures
            final(self).wf(),
            old(self).done ==> r is None && *final(self) == *old(self),
            !old(self).done ==> r == Some(final(self).writer_idx) && final(self).writer_idx == if old(
                self,
            ).writer_idx == 0 {
                (old(self).capacity - 1) as usize
            } else {
                (old(self).writer_idx - 1) as usize
            } && final(self).done == (final(self).reader_idx == final(self).writer_idx)
                && final(self).reader_idx == old(self).reader_idx,
            final(self).capacity == old(self).capacity,
    {
        if self.done {
            None
        } else {
            self.retreat_writer();
            if self.reader_idx == self.writer_idx {
                self.done = true;
            }
            Some(self.writer_idx)
        }
    }
}

/// A snapshot of a ring buffer's queued items, iterable from both ends.
/// An iterator over a buffer's items that leaves the buffer as it was.
pub type RingIterRef<T> = RingIter<T>;

pub struct RingIter<T> {
    items: Vec<T>,
    cursor: RingIterCursor,
}

impl<T: Copy> RingIter<T> {
    pub closed spec fn wf(&self) -> bool {
        &&& self.cursor.wf()
        &&& self.items@.len() == self.cursor.capacity
    }

    pub closed spec fn is_done(&self) -> bool {
        self.cursor.done
    }

    /// The ring's slots, as the snapshot holds them.
    pub closed spec fn slots(&self) -> Seq<T> {
        self.items@
    }

    /// The ring's capacity.
    pub closed spec fn capacity(&self) -> nat {
        self.cursor.capacity as nat
    }

    /// The slot just before the write position, where stepping from the
    /// back reads next.
    pub closed spec fn back_slot(&self) -> int {
        if self.cursor.writer_idx == 0 { self.cursor.capacity - 1 } else { self.cursor.writer_idx - 1 }
    }

    /// Not finished, and the read and write positions differ.
    pub closed spec fn cursors_apart(&self) -> bool {
        !self.cursor.done && self.cursor.reader_idx != self.cursor.writer_idx
    }

    /// The items `next` will still yield, front first.
    pub closed spec fn remaining(&self) -> Seq<T> {
        if self.cursor.done {
            Seq::empty()
        } else {
            ring_slice(
                self.items@,
                self.cursor.capacity as nat,
                self.cursor.reader_idx as nat,
                self.cursor.writer_idx as nat,
            )
        }
    }

    /// The next item from the front.
    pub fn next(&mut self) -> (r: Option<T>)
        requires
            old(self).wf(),
        ensures
            final(self).wf(),
            old(self).remaining().len() == 0 ==> r is None && final(self).remaining() == Seq::<T>::empty(),
            old(self).remaining().len() > 0 ==> r == Some(old(self).remaining()[0])
                && final(self).remaining() == old(self).remaining().drop_first(),
    {
        match self.cursor.next() {
            Some(idx) => {
                proof {
                    assert(self.remaining() =~= old(self).remaining().drop_first());
                }
                Some(self.items[idx])
            },
            None => {
                assert(self.remaining() =~= Seq::<T>::empty());
                None
            },
        }
    }

    /// The number of items left from the front, or the whole capacity when
    /// the cursors meet on a wrapped buffer.
    pub fn len(&self) -> (r: usize)
        requires
            self.wf(),
        ensures
            self.cursors_apart() ==> r == self.remaining().len(),
            self.is_done() ==> r == 0,
            !self.is_done() && !self.cursors_apart() ==> r == self.capacity(),
    {
        self.cursor.size_hint()
    }

    /// The next item from the back. Stepping back from an empty snapshot
    /// walks the whole capacity, as the cursor only stops when the write
    /// position meets the read position; a snapshot of a buffer without
    /// slots can only step back once finished.
    pub fn next_back(&mut self) -> (r: Option<T>)
        requires
            old(self).wf(),
            old(self).is_done() || old(self).capacity() >= 1,
        ensures
            final(self).wf(),
            old(self).remaining().len() > 0 ==> r == Some(old(self).remaining().last())
                && final(self).remaining() == old(self).remaining().drop_last(),
            old(self).is_done() ==> r is None,
            !old(self).is_done() ==> r == Some(old(self).slots()[old(self).back_slot()]),
    {
        let ghost rem = self.remaining();
        match self.cursor.next_back() {
            Some(idx) => {
                proof {
                    if rem.len() > 0 {
                        assert(self.remaining() =~= rem.drop_last());
                    }
                }
                Some(self.items[idx])
            },
            None => None,
        }
    }
}

} // verus!
