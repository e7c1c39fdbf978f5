use std::collections::VecDeque;
use vstd::prelude::*;

verus! {

/// Failures of the queue operations.
#[derive(Debug, Clone, Copy, PartialEq, Eq, Structural)]
pub enum QueueError {
    /// The queue holds as many elements as its capacity allows.
    QueueFull,
    /// A growable queue could not obtain storage.
    QueueAlloc,
}

impl QueueError {
    /// Human-readable description of the error.
    pub fn to_string(&self) -> (r: String) {
        match self {
            QueueError::QueueFull => String::from_str("Queue ran out of space."),
            QueueError::QueueAlloc => String::from_str("Queue allocation failure."),
        }
    }
}

/// Number of elements a bulk removal of up to `n` elements takes from `s`.
pub open spec fn take_count<T>(s: Seq<T>, n: nat) -> nat {
    if n < s.len() {
        n
    } else {
        s.len()
    }
}

/// A first-in first-out queue of `T`.
///
/// `items()` is the content, front first; `accepts()` holds when a push
/// would be taken; `limit()` is the nominal capacity.
pub trait Queue<T>: Sized {
    spec fn wf(&self) -> bool;

    spec fn items(&self) -> Seq<T>;

    spec fn limit(&self) -> nat;

    spec fn accepts(&self) -> bool;

    /// Holds when `n` more elements would all be taken.
    spec fn fits(&self, n: nat) -> bool;

    fn back(&self) -> (r: Option<&T>)
        requires
            self.wf(),
        ensures
            self.items().len() == 0 ==> r is None,
            self.items().len() > 0 ==> r == Some(&self.items().last()),
    ;

    fn peek(&self) -> (r: Option<&T>)
        requires
            self.wf(),
        ensures
            self.items().len() == 0 ==> r is None,
            self.items().len() > 0 ==> r == Some(&self.items()[0]),
    ;

    fn get(&self, idx: usize) -> (r: Option<&T>)
        requires
            self.wf(),
        ensures
            idx >= self.items().len() ==> r is None,
            idx < self.items().len() ==> r == Some(&self.items()[idx as int]),
    ;

    fn get_mut(&mut self, idx: usize) -> (r: Option<&mut T>)
        requires
            old(self).wf(),
        ensures
            idx >= old(self).items().len() ==> r is None && final(self).wf() && final(self).limit()
                == old(self).limit() && final(self).items() == old(self).items(),
            idx < old(self).items().len() ==> r is Some && *r->Some_0 == old(self).items()[idx as int]
                && final(self).wf() && final(self).limit() == old(self).limit()
                && final(self).items() == old(self).items().update(idx as int, *final(r->Some_0)),
    ;

    fn push(&mut self, val: T) -> (r: Result<(), QueueError>)
        requires
            old(self).wf(),
        ensures
            final(self).wf(),
            final(self).limit() == old(self).limit(),
            r is Ok <==> old(self).accepts(),
            r is Ok ==> final(self).items() == old(self).items().push(val),
            r is Err ==> r == Err::<(), QueueError>(QueueError::QueueFull) && final(self).items()
                == old(self).items(),
    ;

    fn try_push(&mut self, val: T) -> (r: bool)
        requires
            old(self).wf(),
        ensures
            final(self).wf(),
            final(self).limit() == old(self).limit(),
            r == old(self).accepts(),
            r ==> final(self).items() == old(self).items().push(val),
            !r ==> final(self).items() == old(self).items(),
    ;

    fn pop(&mut self) -> (r: Option<T>)
        requires
            old(self).wf(),
        ensures
            final(self).wf(),
            final(self).limit() == old(self).limit(),
            old(self).items().len() == 0 ==> r is None && final(self).items()
                == old(self).items(),
            old(self).items().len() > 0 ==> r == Some(old(self).items()[0])
                && final(self).items() == old(self).items().drop_first(),
    ;

    fn back_mut(&mut self) -> (r: Option<&mut T>)
        requires
            old(self).wf(),
        ensures
            old(self).items().len() == 0 ==> r is None && final(self).wf() && final(self).limit()
                == old(self).limit() && final(self).items() == old(self).items(),
            old(self).items().len() > 0 ==> r is Some && *r->Some_0 == old(self).items().last()
                && final(self).wf() && final(self).limit() == old(self).limit()
                && final(self).items() == old(self).items().update(
                old(self).items().len() - 1,
                *final(r->Some_0),
            ),
    ;

    fn peek_mut(&mut self) -> (r: Option<&mut T>)
        requires
            old(self).wf(),
        ensures
            old(self).items().len() == 0 ==> r is None && final(self).wf() && final(self).limit()
                == old(self).limit() && final(self).items() == old(self).items(),
            old(self).items().len() > 0 ==> r is Some && *r->Some_0 == old(self).items()[0]
                && final(self).wf() && final(self).limit() == old(self).limit()
                && final(self).items() == old(self).items().update(0, *final(r->Some_0)),
    ;

    /// Takes every element of `vals`, in order, or none of them.
    fn ext(&mut self, vals: Vec<T>) -> (r: Result<(), QueueError>)
        requires
            old(self).wf(),
        ensures
            final(self).wf(),
            final(self).limit() == old(self).limit(),
            r is Ok <==> old(self).fits(vals@.len()),
            r is Ok ==> final(self).items() == old(self).items() + vals@,
            r is Err ==> r == Err::<(), QueueError>(QueueError::QueueFull) && final(self).items()
                == old(self).items(),
    ;

    /// Pushes the elements of `vals` in order until one is refused; returns
    /// how many were taken. The refused element and those after it are dropped.
    fn try_ext(&mut self, vals: Vec<T>) -> (r: usize)
        requires
            old(self).wf(),
        ensures
            final(self).wf(),
            final(self).limit() == old(self).limit(),
            r <= vals@.len(),
            old(self).fits(r as nat),
            r < vals@.len() ==> !old(self).fits((r + 1) as nat),
            final(self).items() == old(self).items() + vals@.take(r as int),
    ;

    /// Removes every element, returning them front first.
    fn drain(&mut self) -> (r: Vec<T>)
        requires
            old(self).wf(),
        ensures
            final(self).wf(),
            final(self).limit() == old(self).limit(),
            r@ == old(self).items(),
            final(self).items() == Seq::<T>::empty(),
    ;

    /// Removes up to `num` elements from the front, returning them in order.
    fn drain_part(&mut self, num: usize) -> (r: Vec<T>)
        requires
            old(self).wf(),
        ensures
            final(self).wf(),
            final(self).limit() == old(self).limit(),
            r@ == old(self).items().take(take_count(old(self).items(), num as nat) as int),
            final(self).items() == old(self).items().skip(
                take_count(old(self).items(), num as nat) as int,
            ),
    ;

    /// Removes every element.
    fn clear(&mut self)
        requires
            old(self).wf(),
        ensures
            final(self).wf(),
            final(self).limit() == old(self).limit(),
            final(self).items() == Seq::<T>::empty(),
    ;

    fn capacity(&self) -> (r: usize)
        requires
            self.wf(),
        ensures
            r == self.limit(),
    ;

    fn size(&self) -> (r: usize)
        requires
            self.wf(),
        ensures
            r == self.items().len(),
    ;

    /// Free places left below the capacity; zero for a growable queue that
    /// holds more than its nominal capacity.
    fn remaining(&self) -> (r: usize)
        requires
            self.wf(),
        ensures
            self.items().len() <= self.limit() ==> r == self.limit() - self.items().len(),
            self.items().len() > self.limit() ==> r == 0,
    ;

    fn full(&self) -> (r: bool)
        requires
            self.wf(),
        ensures
            r == (self.items().len() == self.limit()),
    ;

    fn empty(&self) -> (r: bool)
        requires
            self.wf(),
        ensures
            r == (self.items().len() == 0),
    ;
}

/// Position, in a ring of `n` slots, of the element `k` places after `head`.
pub open spec fn ring_slot(head: int, k: int, n: int) -> int {
    if head + k < n {
        head + k
    } else {
        head + k - n
    }
}

/// A ring buffer of fixed capacity `N`.
///
/// Every slot is tagged: a slot holds `Some` exactly when it lies within the
/// `size` slots that start at `head`, so nothing is kept once popped.
pub struct StaticQueue<T, const N: usize> {
    data: Vec<Option<T>>,
    head: usize,
    tail: usize,
    size: usize,
}

impl<T, const N: usize> StaticQueue<T, N> {
    pub fn new() -> (r: Self)
        requires
            N > 0,
        ensures
            r.wf(),
            r.items() == Seq::<T>::empty(),
    {
        let mut data: Vec<Option<T>> = Vec::new();
        while data.len() < N
            invariant
                data.len() <= N,
                forall|i: int| 0 <= i < data.len() ==> data@[i] is None,
            decreases N - data.len(),
        {
            data.push(None);
        }
        let r = StaticQueue { data, head: 0, tail: 0, size: 0 };
        assert forall|k: int| 0 <= k < N implies (#[trigger] r.data@[ring_slot(0, k, N as int)] is Some
            <==> k < 0) by {
            assert(ring_slot(0, k, N as int) == k);
        }
        assert(r.items() =~= Seq::<T>::empty());
        r
    }

    /// A bounded queue never holds more than its capacity.
    pub proof fn lemma_size_bound(&self)
        requires
            self.wf(),
        ensures
            self.items().len() <= N,
    {
    }

    fn slot(&self, k: usize) -> (r: usize)
        requires
            self.wf(),
            k < N,
        ensures
            r == ring_slot(self.head as int, k as int, N as int),
            r < N,
    {
        if self.head < N - k {
            self.head + k
        } else {
            self.head - (N - k)
        }
    }
}

impl<T, const N: usize> Queue<T> for StaticQueue<T, N> {
    closed spec fn wf(&self) -> bool {
        &&& N > 0
        &&& self.data.len() == N
        &&& self.head < N
        &&& self.size <= N
        &&& self.tail == ring_slot(self.head as int, self.size as int, N as int)
        &&& forall|k: int|
            0 <= k < N ==> (#[trigger] self.data@[ring_slot(self.head as int, k, N as int)] is Some
                <==> k < self.size)
    }

    closed spec fn items(&self) -> Seq<T> {
        Seq::new(
            self.size as nat,
            |k: int| self.data@[ring_slot(self.head as int, k, N as int)]->Some_0,
        )
    }

    open spec fn limit(&self) -> nat {
        N as nat
    }

    open spec fn accepts(&self) -> bool {
        self.items().len() < N
    }

    fn back(&self) -> (r: Option<&T>) {
        if self.size == 0 {
            None
        } else {
            let s = self.slot(self.size - 1);
            match &self.data[s] {
                Some(x) => Some(x),
                None => None,
            }
        }
    }

    fn peek(&self) -> (r: Option<&T>) {
        self.get(0)
    }

    fn get(&self, idx: usize) -> (r: Option<&T>) {
        if idx >= self.size {
            None
        } else {
            let s = self.slot(idx);
            match &self.data[s] {
                Some(x) => Some(x),
                None => None,
            }
        }
    }

    fn push(&mut self, val: T) -> (r: Result<(), QueueError>) {
        if self.size == N {
            return Err(QueueError::QueueFull);
        }
        let t = self.tail;
        self.data.set(t, Some(val));
        self.tail = if t + 1 == N { 0 } else { t + 1 };
        self.size = self.size + 1;
        proof {
            let h = self.head as int;
            let n = N as int;
            assert forall|k: int| 0 <= k < n implies (#[trigger] self.data@[ring_slot(h, k, n)] is Some
                <==> k < self.size) by {
                if k != old(self).size {
                    assert(ring_slot(h, k, n) != t);
                    assert(old(self).data@[ring_slot(h, k, n)] is Some <==> k < old(self).size);
                }
            }
            assert forall|k: int| 0 <= k < self.size implies self.items()[k] == old(self).items().push(val)[k] by {
                if k != old(self).size {
                    assert(ring_slot(h, k, n) != t);
                }
            }
        }
        assert(self.items() =~= old(self).items().push(val));
        Ok(())
    }

    fn get_mut(&mut self, idx: usize) -> (r: Option<&mut T>) {
        if idx >= self.size {
            None
        } else {
            let s = self.slot(idx);
            match &mut self.data[s] {
                Some(x) => Some(x),
                None => None,
            }
        }
    }

    fn try_push(&mut self, val: T) -> (r: bool) {
        self.push(val).is_ok()
    }

    fn pop(&mut self) -> (r: Option<T>) {
        if self.size == 0 {
            return None;
        }
        let h = self.head;
        let mut out: Option<T> = None;
        std::mem::swap(&mut out, &mut self.data[h]);
        self.head = if h + 1 == N { 0 } else { h + 1 };
        self.size = self.size - 1;
        proof {
            let oh = h as int;
            let nh = self.head as int;
            let n = N as int;
            assert(old(self).data@[ring_slot(oh, 0, n)] is Some);
            assert forall|k: int| 0 <= k < n implies (#[trigger] self.data@[ring_slot(nh, k, n)] is Some
                <==> k < self.size) by {
                if k + 1 < n {
                    assert(ring_slot(nh, k, n) == ring_slot(oh, k + 1, n));
                    assert(ring_slot(oh, k + 1, n) != oh);
                    assert(old(self).data@[ring_slot(oh, k + 1, n)] is Some <==> k + 1 < old(self).size);
                } else {
                    assert(ring_slot(nh, k, n) == oh);
                }
            }
            assert forall|k: int| 0 <= k < self.size implies self.items()[k] == old(self).items().drop_first()[k] by {
                assert(ring_slot(nh, k, n) == ring_slot(oh, k + 1, n));
                assert(ring_slot(oh, k + 1, n) != oh);
            }
        }
        assert(self.items() =~= old(self).items().drop_first());
        out
    }

    open spec fn fits(&self, n: nat) -> bool {
        self.items().len() + n <= N
    }

    fn back_mut(&mut self) -> (r: Option<&mut T>) {
        if self.size == 0 {
            None
        } else {
            let i = self.size - 1;
            self.get_mut(i)
        }
    }

    fn peek_mut(&mut self) -> (r: Option<&mut T>) {
        self.get_mut(0)
    }

    fn ext(&mut self, vals: Vec<T>) -> (r: Result<(), QueueError>) {
        if vals.len() > N - self.size {
            return Err(QueueError::QueueFull);
        }
        let mut vals = vals;
        let ghost orig = vals@;
        let ghost start = self.items();
        let mut i: usize = 0;
        while vals.len() > 0
            invariant
                self.wf(),
                start == old(self).items(),
                start.len() + orig.len() <= N,
                i <= orig.len(),
                vals@ == orig.skip(i as int),
                self.items() == start + orig.take(i as int),
            decreases vals.len(),
        {
            let v = vals.remove(0);
            let _ = self.push(v);
            i = i + 1;
            assert(self.items() =~= start + orig.take(i as int));
            assert(vals@ =~= orig.skip(i as int));
        }
        assert(orig.take(i as int) =~= orig);
        Ok(())
    }

    fn try_ext(&mut self, vals: Vec<T>) -> (r: usize) {
        let mut vals = vals;
        let ghost orig = vals@;
        let ghost start = self.items();
        let mut i: usize = 0;
        while vals.len() > 0
            invariant_except_break
                vals@ == orig.skip(i as int),
            invariant
                self.wf(),
                start == old(self).items(),
                i <= orig.len(),
                start.len() + i <= N,
                self.items() == start + orig.take(i as int),
            ensures
                i == orig.len() || start.len() + i == N,
            decreases orig.len() - i,
        {
            let v = vals.remove(0);
            if self.push(v).is_err() {
                break;
            }
            i = i + 1;
            assert(self.items() =~= start + orig.take(i as int));
            assert(vals@ =~= orig.skip(i as int));
        }
        i
    }

    fn drain(&mut self) -> (r: Vec<T>) {
        let n = self.size;
        let r = self.drain_part(n);
        assert(old(self).items().take(n as int) =~= old(self).items());
        r
    }

    fn drain_part(&mut self, num: usize) -> (r: Vec<T>) {
        let mut out: Vec<T> = Vec::new();
        let count = if num < self.size { num } else { self.size };
        let ghost start = self.items();
        while out.len() < count
            invariant
                self.wf(),
                start == old(self).items(),
                count == take_count(start, num as nat),
                out.len() <= count,
                out@ == start.take(out.len() as int),
                self.items() == start.skip(out.len() as int),
            decreases count - out.len(),
        {
            let v = self.pop();
            match v {
                Some(x) => {
                    out.push(x);
                },
                None => {},
            }
            assert(out@ =~= start.take(out.len() as int));
            assert(self.items() =~= start.skip(out.len() as int));
        }
        out
    }

    fn clear(&mut self) {
        let _ = self.drain();
    }

    fn capacity(&self) -> (r: usize) {
        N
    }

    fn size(&self) -> (r: usize) {
        self.size
    }

    fn remaining(&self) -> (r: usize) {
        N - self.size
    }

    fn full(&self) -> (r: bool) {
        self.size == N
    }

    fn empty(&self) -> (r: bool) {
        self.size == 0
    }
}

/// Read-only walk over a `StaticQueue`, front first.
pub struct Iter<'a, T, const N: usize> {
    queue: &'a StaticQueue<T, N>,
    idx: usize,
}

impl<'a, T, const N: usize> Iter<'a, T, N> {
    /// The queue being walked.
    pub closed spec fn source(&self) -> &'a StaticQueue<T, N> {
        self.queue
    }

    /// How many elements have been handed out so far.
    pub closed spec fn position(&self) -> nat {
        self.idx as nat
    }

    /// Hands out the next element, or `None` once all have been visited.
    pub fn next(&mut self) -> (r: Option<&'a T>)
        requires
            old(self).source().wf(),
        ensures
            final(self).source() == old(self).source(),
            old(self).position() < old(self).source().items().len() ==> r == Some(
                &old(self).source().items()[old(self).position() as int],
            ) && final(self).position() == old(self).position() + 1,
            old(self).position() >= old(self).source().items().len() ==> r is None
                && final(self).position() == old(self).position(),
    {
        if self.idx >= self.queue.size() {
            return None;
        }
        let r = self.queue.get(self.idx);
        self.idx = self.idx + 1;
        r
    }
}

impl<T, const N: usize> StaticQueue<T, N> {
    /// A walk over the elements, front first.
    pub fn iter(&self) -> (r: Iter<'_, T, N>)
        ensures
            r.source() == self,
            r.position() == 0,
    {
        Iter { queue: self, idx: 0 }
    }
}

/// Relies on `VecDeque::shrink_to_fit`: gives back spare storage and keeps the elements.
#[verifier::external_body]
fn shrink_storage<T>(d: &mut VecDeque<T>)
    ensures
        final(d)@ == old(d)@,
{
    d.shrink_to_fit()
}

/// Relies on `VecDeque::get_mut`: a mutable borrow of the element at `i`, `None` past the end.
#[verifier::external_body]
fn deque_get_mut<T>(d: &mut VecDeque<T>, i: usize) -> (r: Option<&mut T>)
    ensures
        i >= old(d)@.len() ==> r is None && final(d)@ == old(d)@,
        i < old(d)@.len() ==> r is Some && *r->Some_0 == old(d)@[i as int] && final(d)@ == old(
            d,
        )@.update(i as int, *final(r->Some_0)),
{
    d.get_mut(i)
}

/// A queue that grows as needed; `N` is its nominal capacity and the size
/// below which it keeps its storage.
pub struct DynamicQueue<T, const N: usize> {
    data: VecDeque<T>,
    min_size: usize,
}

impl<T, const N: usize> DynamicQueue<T, N> {
    pub fn new() -> (r: Self)
        requires
            N > 0,
        ensures
            r.wf(),
            r.items() == Seq::<T>::empty(),
    {
        DynamicQueue { data: VecDeque::with_capacity(N), min_size: N }
    }

    /// Gives back spare storage once the queue holds more than its nominal capacity.
    fn adjust_size(&mut self)
        ensures
            final(self).data@ == old(self).data@,
            final(self).min_size == old(self).min_size,
    {
        if self.data.len() > self.min_size {
            shrink_storage(&mut self.data);
        }
    }
}

impl<T, const N: usize> Queue<T> for DynamicQueue<T, N> {
    closed spec fn wf(&self) -> bool {
        N > 0 && self.min_size == N
    }

    closed spec fn items(&self) -> Seq<T> {
        self.data@
    }

    open spec fn limit(&self) -> nat {
        N as nat
    }

    open spec fn accepts(&self) -> bool {
        true
    }

    open spec fn fits(&self, n: nat) -> bool {
        true
    }

    fn back(&self) -> (r: Option<&T>) {
        let n = self.data.len();
        if n == 0 {
            None
        } else {
            Some(&self.data[n - 1])
        }
    }

    fn peek(&self) -> (r: Option<&T>) {
        self.get(0)
    }

    fn get(&self, idx: usize) -> (r: Option<&T>) {
        if idx >= self.data.len() {
            None
        } else {
            Some(&self.data[idx])
        }
    }

    fn get_mut(&mut self, idx: usize) -> (r: Option<&mut T>) {
        deque_get_mut(&mut self.data, idx)
    }

    fn push(&mut self, val: T) -> (r: Result<(), QueueError>) {
        self.data.push_back(val);
        Ok(())
    }

    fn try_push(&mut self, val: T) -> (r: bool) {
        self.push(val).is_ok()
    }

    fn pop(&mut self) -> (r: Option<T>) {
        let val = self.data.pop_front();
        self.adjust_size();
        val
    }

    fn back_mut(&mut self) -> (r: Option<&mut T>) {
        let n = self.data.len();
        if n == 0 {
            None
        } else {
            deque_get_mut(&mut self.data, n - 1)
        }
    }

    fn peek_mut(&mut self) -> (r: Option<&mut T>) {
        deque_get_mut(&mut self.data, 0)
    }

    fn ext(&mut self, vals: Vec<T>) -> (r: Result<(), QueueError>) {
        let _ = self.try_ext(vals);
        Ok(())
    }

    fn try_ext(&mut self, vals: Vec<T>) -> (r: usize) {
        let mut vals = vals;
        let ghost orig = vals@;
        let ghost start = self.items();
        let total = vals.len();
        let mut i: usize = 0;
        while vals.len() > 0
            invariant
                self.wf(),
                total == orig.len(),
                start == old(self).items(),
                i <= orig.len(),
                vals@ == orig.skip(i as int),
                self.items() == start + orig.take(i as int),
            decreases vals.len(),
        {
            let v = vals.remove(0);
            self.data.push_back(v);
            i = i + 1;
            assert(self.items() =~= start + orig.take(i as int));
            assert(vals@ =~= orig.skip(i as int));
        }
        assert(orig.take(i as int) =~= orig);
        i
    }

    fn drain(&mut self) -> (r: Vec<T>) {
        let n = self.data.len();
        let r = self.drain_part(n);
        assert(old(self).items().take(n as int) =~= old(self).items());
        r
    }

    fn drain_part(&mut self, num: usize) -> (r: Vec<T>) {
        let mut out: Vec<T> = Vec::new();
        let size = self.data.len();
        let count = if num < size { num } else { size };
        let ghost start = self.items();
        while out.len() < count
            invariant
                self.wf(),
                start == old(self).items(),
                count == take_count(start, num as nat),
                out.len() <= count,
                out@ == start.take(out.len() as int),
                self.items() == start.skip(out.len() as int),
            decreases count - out.len(),
        {
            match self.data.pop_front() {
                Some(x) => {
                    out.push(x);
                },
                None => {},
            }
            assert(out@ =~= start.take(out.len() as int));
            assert(self.items() =~= start.skip(out.len() as int));
        }
        self.adjust_size();
        out
    }

    fn clear(&mut self) {
        self.data.clear();
        self.adjust_size();
    }

    fn capacity(&self) -> (r: usize) {
        N
    }

    fn size(&self) -> (r: usize) {
        self.data.len()
    }

    fn remaining(&self) -> (r: usize) {
        let n = self.data.len();
        if n <= N {
            N - n
        } else {
            0
        }
    }

    fn full(&self) -> (r: bool) {
        self.data.len() == N
    }

    fn empty(&self) -> (r: bool) {
        self.data.len() == 0
    }
}

/// Order law: on a `StaticQueue` of capacity at least three, take a new
/// (empty) queue `q0` and let `q1`, `q2`, `q3` be the queues that pushing `a`,
/// `b` and `c` leave behind, as `push` states whether it accepts or not.
/// Then each push is accepted, the first pop gives `a`, and the pop after it
/// gives `b`.
pub proof fn lemma_fifo_order<T, const N: usize>(
    q0: StaticQueue<T, N>,
    q1: StaticQueue<T, N>,
    q2: StaticQueue<T, N>,
    q3: StaticQueue<T, N>,
    a: T,
    b: T,
    c: T,
)
    requires
        N >= 3,
        q0.items() == Seq::<T>::empty(),
        q1.items() == if q0.accepts() {
            q0.items().push(a)
        } else {
            q0.items()
        },
        q2.items() == if q1.accepts() {
            q1.items().push(b)
        } else {
            q1.items()
        },
        q3.items() == if q2.accepts() {
            q2.items().push(c)
        } else {
            q2.items()
        },
    ensures
        q0.accepts() && q1.accepts() && q2.accepts(),
        q3.items().len() > 0 && q3.items()[0] == a,
        q3.items().drop_first().len() > 0 && q3.items().drop_first()[0] == b,
{
}

/// Capacity law: on a `StaticQueue` of capacity `N`, a queue `full` that
/// `N` accepted pushes of `vals` made from an empty queue refuses the next
/// push; a queue `popped` that one pop left from it accepts the next push.
pub proof fn lemma_capacity_bound<T, const N: usize>(
    empty: StaticQueue<T, N>,
    vals: Seq<T>,
    full: StaticQueue<T, N>,
    popped: StaticQueue<T, N>,
)
    requires
        empty.items() == Seq::<T>::empty(),
        vals.len() == N,
        full.items() == empty.items() + vals,
        popped.items() == if full.items().len() > 0 {
            full.items().drop_first()
        } else {
            full.items()
        },
    ensures
        forall|i: int| 0 <= i < N ==> (empty.items() + vals.take(i)).len() < N,
        !full.accepts(),
        N > 0 ==> popped.accepts(),
{
}

/// Partial drain law: `drain_part(n)` removes exactly `min(n, size)` elements,
/// those at the front in order, and the rest stay behind in their order, so
/// that concatenating what was removed and what is left gives the content back.
pub proof fn lemma_drain_part_split<T>(s: Seq<T>, n: nat)
    ensures
        take_count(s, n) == if n < s.len() { n } else { s.len() },
        s.take(take_count(s, n) as int).len() == take_count(s, n),
        s.take(take_count(s, n) as int) + s.skip(take_count(s, n) as int) == s,
        forall|i: int|
            0 <= i < s.len() - take_count(s, n) ==> #[trigger] s.skip(take_count(s, n) as int)[i]
                == s[take_count(s, n) + i],
{
    let k = take_count(s, n) as int;
    assert(s.take(k) + s.skip(k) =~= s);
}

} // verus!
