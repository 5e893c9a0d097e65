//! The shared value stack backing both operand passing and per-call variable
//! storage.

use vstd::prelude::*;
use crate::fault::FaultKind;
use crate::value::DynamicValue;
use crate::value::Value;

verus! {

/// A stack of [`Value`]s: a growable, capacity-bounded sequence of slots
/// shared by all active calls.
///
/// The view of a stack is the sequence of its live values, bottom first.
/// Slots beyond the live length are kept `Void` so that dropped values
/// release anything they hold promptly.
pub struct Stack<D> {
    values: Vec<Value<D>>,
    length: usize,
    remaining_capacity: usize,
}

impl<D> View for Stack<D> {
    type V = Seq<Value<D>>;

    closed spec fn view(&self) -> Seq<Value<D>> {
        self.values@.subrange(0, self.length as int)
    }
}

impl<D> Stack<D> {
    /// The internal slot discipline: the live length fits the buffer and
    /// every slot above it holds `Void`.
    pub closed spec fn slots_wf(&self) -> bool {
        &&& self.length <= self.values@.len()
        &&& forall|i: int|
            self.length <= i < self.values@.len() ==> self.values@[i] is Void
    }

    /// The number of values that may still be pushed.
    pub closed spec fn spec_remaining(&self) -> usize {
        self.remaining_capacity
    }

    /// Well-formedness: the slot discipline holds and the live length plus
    /// the remaining capacity never exceeds the machine's address range.
    pub open spec fn wf(&self) -> bool {
        &&& self.slots_wf()
        &&& self@.len() + self.spec_remaining() <= usize::MAX
    }
}

impl<D: DynamicValue> Stack<D> {
    /// Returns a new stack with room reserved for `initial_capacity` values
    /// and that will not allow pushing more than `maximum_capacity` values.
    pub fn new(initial_capacity: usize, maximum_capacity: usize) -> (r: Self)
        ensures
            r.wf(),
            r@ == Seq::<Value<D>>::empty(),
            r.spec_remaining() == maximum_capacity,
    {
        let r = Stack {
            values: Vec::with_capacity(initial_capacity),
            length: 0,
            remaining_capacity: maximum_capacity,
        };
        proof {
            assert(r@ =~= Seq::<Value<D>>::empty());
        }
        r
    }

    /// Pushes `value` to the stack, or returns [`FaultKind::StackOverflow`]
    /// when the stack's maximum capacity has been reached.
    pub fn push(&mut self, value: Value<D>) -> (r: Result<(), FaultKind<D>>)
        requires
            old(self).wf(),
        ensures
            final(self).wf(),
            old(self).spec_remaining() > 0 ==> r is Ok && final(self)@ == old(self)@.push(value)
                && final(self).spec_remaining() == old(self).spec_remaining() - 1,
            old(self).spec_remaining() == 0 ==> r == Err::<(), FaultKind<D>>(
                FaultKind::StackOverflow,
            ) && *final(self) == *old(self),
    {
        if self.remaining_capacity > 0 {
            self.remaining_capacity = self.remaining_capacity - 1;
            if self.length < self.values.len() {
                self.values[self.length] = value;
            } else {
                self.values.push(value);
            }
            self.length = self.length + 1;
            proof {
                assert(self@ =~= old(self)@.push(value));
            }
            Ok(())
        } else {
            Err(FaultKind::StackOverflow)
        }
    }

    /// Appends `values` to the stack in order, the first element lowest, and
    /// returns how many were pushed. If the whole sequence does not fit
    /// within the remaining capacity, nothing is pushed and
    /// [`FaultKind::StackOverflow`] is returned.
    pub fn extend(&mut self, values: Vec<Value<D>>) -> (r: Result<usize, FaultKind<D>>)
        requires
            old(self).wf(),
        ensures
            final(self).wf(),
            values@.len() <= old(self).spec_remaining() ==> r == Ok::<usize, FaultKind<D>>(
                values.len(),
            ) && final(self)@ == old(self)@ + values@ && final(self).spec_remaining() == old(self).spec_remaining() - values@.len(),
            values@.len() > old(self).spec_remaining() ==> r == Err::<usize, FaultKind<D>>(
                FaultKind::StackOverflow,
            ) && *final(self) == *old(self),
    {
        let count = values.len();
        if count <= self.remaining_capacity {
            let mut index: usize = 0;
            while index < count
                invariant
                    self.wf(),
                    index <= count,
                    count == values@.len(),
                    count <= old(self).spec_remaining(),
                    self@ == old(self)@ + values@.subrange(0, index as int),
                    self.spec_remaining() == old(self).spec_remaining() - index,
                decreases count - index,
            {
                let value = values[index].clone();
                let pushed = self.push(value);
                proof {
                    assert(pushed is Ok);
                    assert(self@ =~= old(self)@ + values@.subrange(0, index + 1));
                }
                index = index + 1;
            }
            proof {
                assert(values@.subrange(0, count as int) =~= values@);
            }
            Ok(count)
        } else {
            Err(FaultKind::StackOverflow)
        }
    }

    /// Removes the top `count` values, or all of them if fewer are present,
    /// and returns them in the order they sat on the stack: bottom first.
    /// Popping two values one by one yields them top first; `pop_n` of two
    /// yields the same pair in the reverse of that order.
    pub fn pop_n(&mut self, count: usize) -> (r: Vec<Value<D>>)
        requires
            old(self).wf(),
        ensures
            final(self).wf(),
            r@.len() == if count <= old(self)@.len() {
                count as int
            } else {
                old(self)@.len() as int
            },
            final(self)@ == old(self)@.take(old(self)@.len() - r@.len()),
            r@ == old(self)@.skip(old(self)@.len() - r@.len()),
            final(self).spec_remaining() == old(self).spec_remaining() + r@.len(),
    {
        let end = self.length;
        let count = if count <= end {
            count
        } else {
            end
        };
        let start = end - count;
        let mut popped: Vec<Value<D>> = Vec::new();
        let mut index: usize = start;
        while index < end
            invariant
                old(self).wf(),
                start <= index <= end,
                end == old(self).length,
                start == end - count,
                self.length == old(self).length,
                self.remaining_capacity == old(self).remaining_capacity,
                self.values@.len() == old(self).values@.len(),
                popped@.len() == index - start,
                popped@ == old(self)@.subrange(start as int, index as int),
                forall|i: int| 0 <= i < start ==> self.values@[i] == old(self).values@[i],
                forall|i: int|
                    index <= i < self.values@.len() ==> self.values@[i] == old(self).values@[i],
                forall|i: int| start <= i < index ==> self.values@[i] is Void,
            decreases end - index,
        {
            let mut value = Value::Void;
            core::mem::swap(&mut value, &mut self.values[index]);
            popped.push(value);
            proof {
                assert(popped@ =~= old(self)@.subrange(start as int, index + 1));
            }
            index = index + 1;
        }
        self.remaining_capacity = self.remaining_capacity + count;
        self.length = start;
        proof {
            assert(self@ =~= old(self)@.take(start as int));
            assert(old(self)@.subrange(start as int, end as int) =~= old(self)@.skip(
                start as int,
            ));
        }
        popped
    }

    /// Returns a reference to the top value on the stack, or
    /// [`FaultKind::StackUnderflow`] if no values are present.
    pub fn top(&self) -> (r: Result<&Value<D>, FaultKind<D>>)
        requires
            self.wf(),
        ensures
            self@.len() > 0 ==> (r matches Ok(v) && *v == self@.last()),
            self@.len() == 0 ==> r == Err::<&Value<D>, FaultKind<D>>(FaultKind::StackUnderflow),
    {
        if self.length > 0 {
            Ok(&self.values[self.length - 1])
        } else {
            Err(FaultKind::StackUnderflow)
        }
    }

    /// Returns a mutable reference to the top value on the stack, or
    /// [`FaultKind::StackUnderflow`] if no values are present.
    pub fn top_mut(&mut self) -> (r: Result<&mut Value<D>, FaultKind<D>>)
        requires
            old(self).wf(),
        ensures
            old(self)@.len() == 0 ==> r is Err && *final(self) == *old(self),
            old(self)@.len() > 0 ==> (r matches Ok(v) && *v == old(self)@.last() && final(self)@
                =~= old(self)@.update(old(self)@.len() - 1, *final(v)) && final(self).wf()
                && final(self).spec_remaining() == old(self).spec_remaining()),
    {
        if self.length > 0 {
            let index = self.length - 1;
            let slot = &mut self.values[index];
            Ok(slot)
        } else {
            Err(FaultKind::StackUnderflow)
        }
    }

    /// Pops a value from the stack, or returns
    /// [`FaultKind::StackUnderflow`] if the stack is empty.
    pub fn pop(&mut self) -> (r: Result<Value<D>, FaultKind<D>>)
        requires
            old(self).wf(),
        ensures
            final(self).wf(),
            old(self)@.len() > 0 ==> (r matches Ok(v) && v == old(self)@.last() && final(self)@
                == old(self)@.drop_last() && final(self).spec_remaining() == old(self).spec_remaining() + 1),
            old(self)@.len() == 0 ==> r == Err::<Value<D>, FaultKind<D>>(FaultKind::StackUnderflow)
                && *final(self) == *old(self),
    {
        if self.length > 0 {
            let new_length = self.length - 1;
            let mut value = Value::Void;
            core::mem::swap(&mut value, &mut self.values[new_length]);
            self.remaining_capacity = self.remaining_capacity + 1;
            self.length = new_length;
            proof {
                assert(self@ =~= old(self)@.drop_last());
            }
            Ok(value)
        } else {
            Err(FaultKind::StackUnderflow)
        }
    }

    /// Returns the number of values contained in this stack.
    pub fn len(&self) -> (r: usize)
        requires
            self.wf(),
        ensures
            r == self@.len(),
    {
        self.length
    }

    /// Returns true if this stack has no values.
    pub fn is_empty(&self) -> (r: bool)
        requires
            self.wf(),
        ensures
            r == (self@.len() == 0),
    {
        self.length == 0
    }

    /// Returns the number of values that can be pushed to this stack before
    /// a [`FaultKind::StackOverflow`] is raised.
    pub fn remaining_capacity(&self) -> (r: usize)
        ensures
            r == self.spec_remaining(),
    {
        self.remaining_capacity
    }

    /// Returns a reference to the value at an absolute stack position.
    pub fn get(&self, index: usize) -> (r: &Value<D>)
        requires
            self.wf(),
            index < self@.len(),
        ensures
            *r == self@[index as int],
    {
        &self.values[index]
    }

    /// Overwrites the value at an absolute stack position.
    pub fn set_value(&mut self, index: usize, value: Value<D>)
        requires
            old(self).wf(),
            index < old(self)@.len(),
        ensures
            final(self).wf(),
            final(self)@ == old(self)@.update(index as int, value),
            final(self).spec_remaining() == old(self).spec_remaining(),
    {
        self.values[index] = value;
        proof {
            assert(self@ =~= old(self)@.update(index as int, value));
        }
    }

    /// Removes the value at an absolute stack position, leaving `Void` in
    /// its place.
    pub fn take_value(&mut self, index: usize) -> (r: Value<D>)
        requires
            old(self).wf(),
            index < old(self)@.len(),
        ensures
            final(self).wf(),
            r == old(self)@[index as int],
            final(self)@ == old(self)@.update(index as int, Value::Void),
            final(self).spec_remaining() == old(self).spec_remaining(),
    {
        let mut value = Value::Void;
        core::mem::swap(&mut value, &mut self.values[index]);
        proof {
            assert(self@ =~= old(self)@.update(index as int, Value::Void));
        }
        value
    }

    /// Deletes the values at positions `start` (inclusive) to `end`
    /// (exclusive), shifting later values down and voiding the vacated tail.
    pub fn remove_range(&mut self, start: usize, end: usize)
        requires
            old(self).wf(),
            start <= end,
            end <= old(self)@.len(),
        ensures
            final(self).wf(),
            final(self)@ == old(self)@.take(start as int) + old(self)@.skip(end as int),
            final(self).spec_remaining() == old(self).spec_remaining() + (end - start),
    {
        let removed = end - start;
        if removed > 0 {
            let values_to_copy = self.length - end;
            let mut index: usize = 0;
            while index < values_to_copy
                invariant
                    old(self).wf(),
                    index <= values_to_copy,
                    start <= end <= old(self).length,
                    removed == end - start,
                    removed > 0,
                    values_to_copy == old(self).length - end,
                    self.length == old(self).length,
                    self.remaining_capacity == old(self).remaining_capacity,
                    self.values@.len() == old(self).values@.len(),
                    forall|i: int| 0 <= i < start ==> self.values@[i] == old(self).values@[i],
                    forall|i: int|
                        start <= i < start + index ==> self.values@[i] == old(self).values@[i
                            + removed],
                    forall|i: int|
                        end + index <= i < self.values@.len() ==> self.values@[i] == old(self).values@[i],
                    forall|i: int|
                        start + index <= i < end + index && end <= i ==> self.values@[i] is Void,
                decreases values_to_copy - index,
            {
                let mut value = Value::Void;
                core::mem::swap(&mut value, &mut self.values[end + index]);
                self.values[start + index] = value;
                index = index + 1;
            }
            let mut void_index = start + values_to_copy;
            while void_index < end + values_to_copy
                invariant
                    old(self).wf(),
                    start <= end <= old(self).length,
                    removed == end - start,
                    values_to_copy == old(self).length - end,
                    start + values_to_copy <= void_index <= end + values_to_copy,
                    end + values_to_copy == old(self).length,
                    self.length == old(self).length,
                    self.remaining_capacity == old(self).remaining_capacity,
                    self.values@.len() == old(self).values@.len(),
                    forall|i: int| 0 <= i < start ==> self.values@[i] == old(self).values@[i],
                    forall|i: int|
                        start <= i < start + values_to_copy ==> self.values@[i] == old(self).values@[i + removed],
                    forall|i: int|
                        start + values_to_copy <= i < void_index ==> self.values@[i] is Void,
                    forall|i: int|
                        old(self).length <= i < self.values@.len() ==> self.values@[i] is Void,
                decreases end + values_to_copy - void_index,
            {
                self.values[void_index] = Value::Void;
                void_index = void_index + 1;
            }
        }
        self.remaining_capacity = self.remaining_capacity + removed;
        self.length = self.length - removed;
        proof {
            assert(self@ =~= old(self)@.take(start as int) + old(self)@.skip(end as int));
        }
    }

    /// Removes every value from the stack, returning its slots to the
    /// remaining capacity.
    pub fn clear(&mut self)
        requires
            old(self).wf(),
        ensures
            final(self).wf(),
            final(self)@ == Seq::<Value<D>>::empty(),
            final(self).spec_remaining() == old(self).spec_remaining() + old(self)@.len(),
    {
        let length = self.length;
        let mut index: usize = 0;
        while index < length
            invariant
                old(self).wf(),
                index <= length,
                length == old(self).length,
                self.length == old(self).length,
                self.remaining_capacity == old(self).remaining_capacity,
                self.values@.len() == old(self).values@.len(),
                forall|i: int| 0 <= i < index ==> self.values@[i] is Void,
                forall|i: int|
                    old(self).length <= i < self.values@.len() ==> self.values@[i] is Void,
            decreases length - index,
        {
            self.values[index] = Value::Void;
            index = index + 1;
        }
        self.remaining_capacity = self.remaining_capacity + length;
        self.length = 0;
        proof {
            assert(self@ =~= Seq::<Value<D>>::empty());
        }
    }

    /// Reserves `additional_voids` further void-filled slots, or returns
    /// [`FaultKind::StackOverflow`] if the capacity would be exceeded.
    pub fn grow_by(&mut self, additional_voids: usize) -> (r: Result<(), FaultKind<D>>)
        requires
            old(self).wf(),
        ensures
            final(self).wf(),
            additional_voids <= old(self).spec_remaining() ==> r is Ok && final(self)@ == old(self)@ + Seq::new(additional_voids as nat, |i: int| Value::<D>::Void) && final(self).spec_remaining() == old(self).spec_remaining() - additional_voids,
            additional_voids > old(self).spec_remaining() ==> r == Err::<(), FaultKind<D>>(
                FaultKind::StackOverflow,
            ) && *final(self) == *old(self),
    {
        if additional_voids <= self.remaining_capacity {
            self.remaining_capacity = self.remaining_capacity - additional_voids;
            let target = self.length + additional_voids;
            while self.values.len() < target
                invariant
                    old(self).wf(),
                    target <= usize::MAX,
                    self.length == old(self).length,
                    self.remaining_capacity == old(self).remaining_capacity
                        - additional_voids,
                    self.values@.len() >= old(self).values@.len(),
                    forall|i: int|
                        0 <= i < old(self).values@.len() ==> self.values@[i] == old(self).values@[i],
                    forall|i: int|
                        old(self).length <= i < self.values@.len() ==> self.values@[i] is Void,
                decreases target - self.values@.len(),
            {
                self.values.push(Value::Void);
            }
            self.length = target;
            proof {
                assert(self@ =~= old(self)@ + Seq::new(
                    additional_voids as nat,
                    |i: int| Value::<D>::Void,
                ));
            }
            Ok(())
        } else {
            Err(FaultKind::StackOverflow)
        }
    }

    /// Grows the stack so that at least `new_size` slots are live, filling
    /// the new slots with `Void`. A size at or below the current length
    /// leaves the stack unchanged. Returns [`FaultKind::StackOverflow`] if
    /// the capacity would be exceeded.
    pub fn grow_to(&mut self, new_size: usize) -> (r: Result<(), FaultKind<D>>)
        requires
            old(self).wf(),
        ensures
            final(self).wf(),
            new_size <= old(self)@.len() ==> r is Ok && *final(self) == *old(self),
            new_size > old(self)@.len() && new_size - old(self)@.len() <= old(self).spec_remaining() ==> r is Ok && final(self)@ == old(self)@ + Seq::new(
                (new_size - old(self)@.len()) as nat,
                |i: int| Value::<D>::Void,
            ) && final(self).spec_remaining() == old(self).spec_remaining() - (new_size - old(self)@.len()),
            new_size > old(self)@.len() && new_size - old(self)@.len() > old(self).spec_remaining() ==> r == Err::<(), FaultKind<D>>(FaultKind::StackOverflow) && *final(self) == *old(self),
    {
        if new_size <= self.length {
            Ok(())
        } else {
            self.grow_by(new_size - self.length)
        }
    }
}

impl<D: DynamicValue> Default for Stack<D> {
    /// An empty stack with an unbounded capacity.
    fn default() -> (r: Self)
        ensures
            r.wf(),
            r@ == Seq::<Value<D>>::empty(),
            r.spec_remaining() == usize::MAX,
    {
        Stack::new(0, usize::MAX)
    }
}

/// Law: one `pop_n` of `count` values hands back exactly the values that
/// `count` successive `pop` calls would hand back, in the reverse order.
/// The k-th successive pop yields the element that `pop_n`'s result holds
/// at position `count - 1 - k`.
pub proof fn lemma_pop_n_reverses_pop_order<D>(stack: Seq<Value<D>>, count: int)
    requires
        0 <= count <= stack.len(),
    ensures
        forall|k: int|
            0 <= k < count ==> #[trigger] stack.skip(stack.len() - count)[count - 1 - k]
                == stack[stack.len() - 1 - k],
{
    assert forall|k: int| 0 <= k < count implies #[trigger] stack.skip(stack.len() - count)[count
        - 1 - k] == stack[stack.len() - 1 - k] by {
        assert(stack.skip(stack.len() - count)[count - 1 - k] == stack[(stack.len() - count) + (
        count - 1 - k)]);
    }
}

} // verus!
