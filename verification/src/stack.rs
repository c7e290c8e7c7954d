//! The operand stack: a last-in first-out array of 32-bit values with an
//! explicit capacity that doubles whenever the stack is full.

use vstd::prelude::*;

verus! {

/// Number of slots a new stack starts with.
pub const STACK_INITIAL_CAPACITY: usize = 128;

/// The capacity a stack of `len` values and `capacity` slots has after one
/// more value is pushed: doubled when every slot is taken, else unchanged.
pub open spec fn capacity_after_push(len: nat, capacity: nat) -> nat {
    if len == capacity {
        2 * capacity
    } else {
        capacity
    }
}

/// Whether a stack of `len` values and `capacity` slots can take one more
/// value: a slot is free, or the doubled capacity still fits the machine word.
pub open spec fn has_room(len: nat, capacity: nat) -> bool {
    len < capacity || 2 * capacity <= usize::MAX
}

/// The values of a stack after the values `values` are pushed on `stack` in
/// order, first to last.
pub open spec fn pushed_all(stack: Seq<u32>, values: Seq<u32>) -> Seq<u32>
    decreases values.len(),
{
    if values.len() == 0 {
        stack
    } else {
        pushed_all(stack, values.drop_last()).push(values.last())
    }
}

/// The values of a stack after `n` pops; a pop leaves an empty stack empty.
pub open spec fn popped(stack: Seq<u32>, n: nat) -> Seq<u32>
    decreases n,
{
    if n == 0 || stack.len() == 0 {
        stack
    } else {
        popped(stack.drop_last(), (n - 1) as nat)
    }
}

/// The value that the `k`-th of a run of pops returns, counting from zero;
/// `None` once the stack is empty.
pub open spec fn nth_popped(stack: Seq<u32>, k: nat) -> Option<u32>
    decreases k,
{
    if stack.len() == 0 {
        None
    } else if k == 0 {
        Some(stack.last())
    } else {
        nth_popped(stack.drop_last(), (k - 1) as nat)
    }
}

/// A pop right after a push returns the pushed value and leaves the stack
/// as it was before the push.
pub proof fn lemma_pop_after_push(stack: Seq<u32>, value: u32)
    ensures
        stack.push(value).len() == stack.len() + 1,
        stack.push(value).last() == value,
        stack.push(value).drop_last() == stack,
{
    assert(stack.push(value).drop_last() =~= stack);
}

/// Pushes add to the stack one by one: after `values` is pushed there are
/// that many more values, the old ones below the new ones.
pub proof fn lemma_pushed_all(stack: Seq<u32>, values: Seq<u32>)
    ensures
        pushed_all(stack, values) == stack + values,
    decreases values.len(),
{
    if values.len() == 0 {
        assert(stack + values =~= stack);
    } else {
        lemma_pushed_all(stack, values.drop_last());
        assert((stack + values.drop_last()).push(values.last()) =~= stack + values);
    }
}

/// Last in, first out: after `values` is pushed, the `k`-th pop returns the
/// `k`-th value counted from the last pushed one, and as many pops as there
/// were pushes give back the stack as it was, so that they drain a stack that
/// was empty.
pub proof fn lemma_last_in_first_out(stack: Seq<u32>, values: Seq<u32>)
    ensures
        forall|k: nat|
            k < values.len() ==> #[trigger] nth_popped(pushed_all(stack, values), k) == Some(
                values[values.len() - 1 - k],
            ),
        popped(pushed_all(stack, values), values.len()) == stack,
        popped(pushed_all(Seq::empty(), values), values.len()).len() == 0,
    decreases values.len(),
{
    lemma_drain(stack, values);
    lemma_drain(Seq::empty(), values);
    assert forall|k: nat| k < values.len() implies #[trigger] nth_popped(
        pushed_all(stack, values),
        k,
    ) == Some(values[values.len() - 1 - k]) by {
        lemma_nth_popped(stack, values, k);
    }
}

/// As many pops as there were pushes give back the stack as it was.
proof fn lemma_drain(stack: Seq<u32>, values: Seq<u32>)
    ensures
        popped(pushed_all(stack, values), values.len()) == stack,
    decreases values.len(),
{
    if values.len() > 0 {
        let full = pushed_all(stack, values);
        lemma_pop_after_push(pushed_all(stack, values.drop_last()), values.last());
        assert(full.drop_last() == pushed_all(stack, values.drop_last()));
        lemma_drain(stack, values.drop_last());
    }
}

/// The `k`-th pop after the pushes of `values` returns the `k`-th value
/// counted from the last pushed one.
proof fn lemma_nth_popped(stack: Seq<u32>, values: Seq<u32>, k: nat)
    requires
        k < values.len(),
    ensures
        nth_popped(pushed_all(stack, values), k) == Some(values[values.len() - 1 - k]),
    decreases k,
{
    let full = pushed_all(stack, values);
    lemma_pop_after_push(pushed_all(stack, values.drop_last()), values.last());
    assert(full.drop_last() == pushed_all(stack, values.drop_last()));
    if k > 0 {
        lemma_nth_popped(stack, values.drop_last(), (k - 1) as nat);
    }
}

/// The slots that back a stack. Every slot holds a value; which of them are
/// in use is the business of `Stack`.
#[derive(Debug)]
struct RawStack {
    slots: Vec<u32>,
}

impl RawStack {
    /// `STACK_INITIAL_CAPACITY` zeroed slots.
    fn new() -> (raw: RawStack)
        ensures
            raw.slots@.len() == STACK_INITIAL_CAPACITY,
    {
        let mut slots: Vec<u32> = Vec::new();
        slots.resize(STACK_INITIAL_CAPACITY, 0u32);
        RawStack { slots }
    }

    /// Doubles the number of slots and keeps what the old ones held.
    fn grow(&mut self)
        requires
            2 * old(self).slots@.len() <= usize::MAX,
        ensures
            final(self).slots@.len() == 2 * old(self).slots@.len(),
            final(self).slots@.take(old(self).slots@.len() as int) == old(self).slots@,
    {
        let cap: usize = self.slots.len();
        self.slots.resize(cap * 2, 0u32);
    }
}

/// A last-in first-out stack of 32-bit values.
///
/// Its view is the sequence of the values it holds, oldest first, so that the
/// top of the stack is the last element of the view.
#[derive(Debug)]
pub struct Stack {
    buf: RawStack,
    len: usize,
}

impl View for Stack {
    type V = Seq<u32>;

    closed spec fn view(&self) -> Seq<u32> {
        self.buf.slots@.take(self.len as int)
    }
}

impl Stack {
    /// The stack's invariant: the values in use fit the slots, and the slots
    /// never number fewer than a new stack has.
    pub closed spec fn wf(&self) -> bool {
        &&& self.len <= self.buf.slots@.len()
        &&& STACK_INITIAL_CAPACITY <= self.buf.slots@.len()
    }

    /// The number of slots the stack owns, used or not.
    pub closed spec fn spec_capacity(&self) -> nat {
        self.buf.slots@.len()
    }

    /// What the invariant says of the values and the slots.
    pub proof fn lemma_bounds(&self)
        requires
            self.wf(),
        ensures
            self@.len() <= self.spec_capacity(),
            STACK_INITIAL_CAPACITY <= self.spec_capacity(),
            self.spec_capacity() <= usize::MAX,
    {
        assert(self.buf.slots.len() == self.buf.slots@.len());
    }

    /// An empty stack of `STACK_INITIAL_CAPACITY` slots.
    pub fn new() -> (stack: Stack)
        ensures
            stack.wf(),
            stack@ == Seq::<u32>::empty(),
            stack.spec_capacity() == STACK_INITIAL_CAPACITY,
    {
        Stack { buf: RawStack::new(), len: 0 }
    }

    /// The number of values on the stack.
    pub fn len(&self) -> (len: usize)
        requires
            self.wf(),
        ensures
            len == self@.len(),
    {
        self.len
    }

    /// Whether the stack holds no value.
    pub fn is_empty(&self) -> (empty: bool)
        requires
            self.wf(),
        ensures
            empty == (self@.len() == 0),
    {
        self.len == 0
    }

    /// The number of slots the stack owns, used or not.
    pub fn capacity(&self) -> (cap: usize)
        requires
            self.wf(),
        ensures
            cap == self.spec_capacity(),
            self@.len() <= cap,
            STACK_INITIAL_CAPACITY <= cap,
    {
        self.buf.slots.len()
    }

    /// Whether `push` may be called: see `has_room`.
    pub fn can_push(&self) -> (ok: bool)
        requires
            self.wf(),
        ensures
            ok == has_room(self@.len(), self.spec_capacity()),
    {
        let cap: usize = self.buf.slots.len();
        self.len < cap || cap <= usize::MAX / 2
    }

    /// Puts `elem` on top of the stack, doubling the capacity first when the
    /// stack is full.
    pub fn push(&mut self, elem: u32)
        requires
            old(self).wf(),
            has_room(old(self)@.len(), old(self).spec_capacity()),
        ensures
            final(self).wf(),
            final(self)@ == old(self)@.push(elem),
            final(self).spec_capacity() == capacity_after_push(
                old(self)@.len(),
                old(self).spec_capacity(),
            ),
    {
        if self.len == self.buf.slots.len() {
            self.buf.grow();
        }
        self.buf.slots[self.len] = elem;
        self.len += 1;
        assert(self.buf.slots@.take(self.len as int) =~= old(self).buf.slots@.take(
            old(self).len as int,
        ).push(elem));
    }

    /// Takes the top value off the stack; `None` when the stack is empty.
    pub fn pop(&mut self) -> (top: Option<u32>)
        requires
            old(self).wf(),
        ensures
            final(self).wf(),
            old(self)@.len() == 0 ==> top is None && final(self)@ == old(self)@,
            old(self)@.len() > 0 ==> top == Some(old(self)@.last()) && final(self)@ == old(self)@.drop_last(),
            final(self).spec_capacity() == old(self).spec_capacity(),
    {
        if self.len == 0 {
            return None;
        }
        self.len -= 1;
        let elem: u32 = self.buf.slots[self.len];
        assert(self.buf.slots@.take(self.len as int) =~= old(self).buf.slots@.take(
            old(self).len as int,
        ).drop_last());
        Some(elem)
    }

    /// The value on top of the stack, which stays there.
    pub fn peek(&self) -> (top: u32)
        requires
            self.wf(),
            self@.len() > 0,
        ensures
            top == self@.last(),
    {
        self.buf.slots[self.len - 1]
    }

    /// The value `depth` places under the top of the stack, which keeps all
    /// its values; `depth` 0 is the top itself.
    pub fn peek_under(&self, depth: usize) -> (value: u32)
        requires
            self.wf(),
            depth < self@.len(),
        ensures
            value == self@[self@.len() - 1 - depth],
    {
        self.buf.slots[self.len - 1 - depth]
    }

    /// Empties the stack. The slots stay allocated.
    pub fn clear(&mut self)
        requires
            old(self).wf(),
        ensures
            final(self).wf(),
            final(self)@ == Seq::<u32>::empty(),
            final(self).spec_capacity() == old(self).spec_capacity(),
    {
        self.len = 0;
    }
}

impl Default for Stack {
    fn default() -> (stack: Stack)
        ensures
            stack.wf(),
            stack@ == Seq::<u32>::empty(),
            stack.spec_capacity() == STACK_INITIAL_CAPACITY,
    {
        Stack::new()
    }
}

} // verus!
