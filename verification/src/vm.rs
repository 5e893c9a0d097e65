//! The virtual machine: registered functions, the execution engine, and the
//! pause/resume continuation mechanism.

use vstd::prelude::*;
use crate::fault::Fault;
use crate::fault::FaultKind;
use crate::fault::FaultOrPause;
use crate::fault::FaultStackFrame;
use crate::instruction::Destination;
use crate::instruction::Function;
use crate::instruction::Instruction;
use crate::instruction::ValueOrSource;
use crate::instruction::ValueSource;
use crate::stack::Stack;
use crate::symbol::Symbol;
use crate::value::Dynamic;
use crate::value::DynamicValue;
use crate::value::NoCustomType;
use crate::value::Value;
use crate::value::ValueKind;
use crate::value::both_primitive;
use crate::value::value_cmp_spec;
use crate::value::value_eq_spec;
use crate::value::value_truthy_spec;
use crate::value::primitive_kind;
use crate::instruction::CompareAction;
use crate::instruction::Comparison;
use core::cmp::Ordering;
use vstd::pervasive::unreached;
use vstd::arithmetic::div_mod::lemma_div_is_ordered_by_denominator;
use vstd::arithmetic::div_mod::lemma_div_nonincreasing;
use vstd::arithmetic::div_mod::lemma_div_pos_is_pos;

verus! {

/// A set of registered functions: a name table over an append-only vtable.
///
/// A vtable index handed out by [`Module::define_function`] stays valid for
/// the module's lifetime; defining a name again re-points the name at the new
/// function and leaves the old index callable.
pub struct Module<D> {
    contents: Vec<(Symbol, usize)>,
    vtable: Vec<Function<D>>,
}

/// Looks a name up in a name table: the latest entry for the name wins.
pub open spec fn lookup_name(contents: Seq<(Symbol, usize)>, name: Seq<char>) -> Option<usize>
    decreases contents.len(),
{
    if contents.len() == 0 {
        None
    } else if contents.last().0@ == name {
        Some(contents.last().1)
    } else {
        lookup_name(contents.drop_last(), name)
    }
}

impl<D> Module<D> {
    /// The registered functions, in registration order.
    pub closed spec fn spec_vtable(&self) -> Seq<Function<D>> {
        self.vtable@
    }

    /// The vtable index registered under `name`, if any.
    pub closed spec fn spec_lookup(&self, name: Seq<char>) -> Option<usize> {
        lookup_name(self.contents@, name)
    }

    /// Every entry of the name table points into the vtable.
    pub closed spec fn inv(&self) -> bool {
        forall|k: int|
            0 <= k < self.contents@.len() ==> (#[trigger] self.contents@[k]).1
                < self.vtable@.len()
    }

    /// A looked-up index always lies within the vtable.
    pub proof fn lemma_lookup_in_range(&self, name: Seq<char>)
        requires
            self.inv(),
        ensures
            self.spec_lookup(name) matches Some(j) ==> j < self.spec_vtable().len(),
    {
        lemma_lookup_name_in_range(self.contents@, name, self.vtable@.len() as int);
    }
}

/// A name looked up in a table whose entries are all below `bound` resolves
/// below `bound`.
proof fn lemma_lookup_name_in_range(contents: Seq<(Symbol, usize)>, name: Seq<char>, bound: int)
    requires
        forall|k: int| 0 <= k < contents.len() ==> (#[trigger] contents[k]).1 < bound,
    ensures
        lookup_name(contents, name) matches Some(j) ==> j < bound,
    decreases contents.len(),
{
    if contents.len() > 0 && contents.last().0@ != name {
        lemma_lookup_name_in_range(contents.drop_last(), name, bound);
    }
}

impl<D: DynamicValue> Module<D> {
    /// An empty module.
    pub fn new() -> (r: Self)
        ensures
            r.inv(),
            r.spec_vtable() == Seq::<Function<D>>::empty(),
            forall|name: Seq<char>| r.spec_lookup(name) is None,
    {
        Module { contents: Vec::new(), vtable: Vec::new() }
    }

    /// Registers `function` under `name` and returns its vtable index.
    pub fn define_function(&mut self, name: &str, function: Function<D>) -> (r: usize)
        ensures
            old(self).inv() ==> final(self).inv(),
            r == old(self).spec_vtable().len(),
            final(self).spec_vtable() == old(self).spec_vtable().push(function),
            final(self).spec_lookup(name@) == Some(r),
            forall|other: Seq<char>|
                other != name@ ==> final(self).spec_lookup(other) == old(self).spec_lookup(other),
    {
        let vtable_index = self.vtable.len();
        let symbol = Symbol::from(name);
        self.contents.push((symbol, vtable_index));
        self.vtable.push(function);
        proof {
            assert(self.contents@.drop_last() =~= old(self).contents@);
            assert(self.contents@.last().0@ == name@);
            assert forall|other: Seq<char>| other != name@ implies lookup_name(
                self.contents@,
                other,
            ) == lookup_name(old(self).contents@, other) by {
                assert(lookup_name(self.contents@, other) == lookup_name(
                    self.contents@.drop_last(),
                    other,
                ));
            }
        }
        vtable_index
    }

    /// Returns the vtable index registered under `name`, if any.
    pub fn lookup(&self, name: &Symbol) -> (r: Option<usize>)
        ensures
            r == self.spec_lookup(name@),
    {
        let mut index = self.contents.len();
        proof {
            assert(self.contents@.take(index as int) =~= self.contents@);
        }
        while index > 0
            invariant
                index <= self.contents@.len(),
                lookup_name(self.contents@, name@) == lookup_name(
                    self.contents@.take(index as int),
                    name@,
                ),
            decreases index,
        {
            index = index - 1;
            let entry = &self.contents[index];
            if entry.0.same_name(name) {
                proof {
                    assert(self.contents@.take(index + 1).last() == self.contents@[index as int]);
                }
                return Some(entry.1);
            }
            proof {
                assert(self.contents@.take(index + 1).drop_last() =~= self.contents@.take(
                    index as int,
                ));
            }
        }
        proof {
            assert(self.contents@.take(0) =~= Seq::<(Symbol, usize)>::empty());
        }
        None
    }

    /// Returns the number of registered functions.
    pub fn vtable_len(&self) -> (r: usize)
        ensures
            r == self.spec_vtable().len(),
    {
        self.vtable.len()
    }

    /// Returns the function at `index`, if the index is within the vtable.
    fn function_at(&self, index: usize) -> (r: Option<&Function<D>>)
        ensures
            index < self.spec_vtable().len() ==> (r matches Some(f) && *f == self.spec_vtable()[
                index as int
            ]),
            index >= self.spec_vtable().len() ==> r is None,
    {
        if index < self.vtable.len() {
            Some(&self.vtable[index])
        } else {
            None
        }
    }
}

/// True when a `Call` instruction's declared argument count agrees with the
/// arity of the function it reaches. `self_index` is the vtable index of the
/// code the instruction stands in, which an index-less call re-invokes.
pub open spec fn call_arity_ok<D>(
    vtable: Seq<Function<D>>,
    self_index: Option<usize>,
    instruction: Instruction<D>,
) -> bool {
    match instruction {
        Instruction::Call { vtable_index, arg_count, .. } => {
            let callee = if vtable_index is Some {
                vtable_index
            } else {
                self_index
            };
            match callee {
                Some(j) => j < vtable.len() ==> vtable[j as int].arg_count == arg_count,
                None => true,
            }
        },
        _ => true,
    }
}

/// True when every `Call` in `code` declares the arity of the function it
/// reaches.
pub open spec fn code_arities_ok<D>(
    vtable: Seq<Function<D>>,
    self_index: Option<usize>,
    code: Seq<Instruction<D>>,
) -> bool {
    forall|k: int| 0 <= k < code.len() ==> call_arity_ok(vtable, self_index, #[trigger] code[k])
}

/// True when every `Call` in every registered function declares the arity of
/// the function it reaches. Execution requires this: the engine asserts each
/// call's argument count against the callee's declared arity.
pub open spec fn module_arities_ok<D>(vtable: Seq<Function<D>>) -> bool {
    forall|j: int|
        0 <= j < vtable.len() ==> code_arities_ok(
            vtable,
            Some(j as usize),
            (#[trigger] vtable[j]).code@,
        )
}

/// One active call: the offsets that partition its window of the shared
/// stack, its program counter, its return register, and where its result is
/// to be delivered.
pub(crate) struct Frame<D> {
    pub return_offset: usize,
    pub variables_offset: usize,
    pub arg_offset: usize,
    pub vtable_index: Option<usize>,
    pub operation_index: usize,
    pub destination: Destination,
    pub return_value: Option<Value<D>>,
}

impl<D> Frame<D> {
    /// The offsets partition the frame's stack window in order.
    pub(crate) open spec fn offsets_wf(&self) -> bool {
        self.arg_offset <= self.variables_offset <= self.return_offset
    }

    /// The descriptor that stands for this frame in a continuation.
    pub(crate) open spec fn spec_descriptor(&self) -> PausedFrame {
        PausedFrame {
            return_offset: self.return_offset,
            arg_offset: self.arg_offset,
            variables_offset: self.variables_offset,
            vtable_index: self.vtable_index,
            operation_index: self.operation_index,
            destination: self.destination,
        }
    }
}

/// The well-formedness of an active call chain: each frame's offsets are
/// ordered, nested frames sit above their callers, every called frame names
/// a registered function, every caller's program counter sits past the call
/// it is in, and the innermost frame's window fits the stack.
pub(crate) open spec fn frames_wf<D>(
    vtable: Seq<Function<D>>,
    frames: Seq<Frame<D>>,
    stack_len: int,
) -> bool {
    &&& frames.len() >= 1
    &&& forall|i: int| 0 <= i < frames.len() ==> (#[trigger] frames[i]).offsets_wf()
    &&& forall|i: int|
        1 <= i < frames.len() ==> ((#[trigger] frames[i]).vtable_index matches Some(j) && j
            < vtable.len())
    &&& forall|i: int|
        0 <= i < frames.len() - 1 ==> (#[trigger] frames[i]).return_offset <= frames[i
            + 1].arg_offset
    &&& forall|i: int| 0 <= i < frames.len() - 1 ==> (#[trigger] frames[i]).operation_index >= 1
    &&& frames[0].vtable_index is None
    &&& frames.last().return_offset <= stack_len
}

/// Where a value source resolves inside a frame: the absolute stack index,
/// or the fault for an index outside the frame's window.
pub(crate) open spec fn resolve_source_spec<D>(frame: Frame<D>, source: ValueSource) -> Result<
    int,
    FaultKind<D>,
> {
    match source {
        ValueSource::Argument(index) => {
            if frame.arg_offset + index < frame.variables_offset {
                Ok(frame.arg_offset + index)
            } else {
                Err(FaultKind::InvalidArgumentIndex)
            }
        },
        ValueSource::Variable(index) => {
            if frame.variables_offset + index < frame.return_offset {
                Ok(frame.variables_offset + index)
            } else {
                Err(FaultKind::InvalidVariableIndex)
            }
        },
    }
}

/// Resolves an argument index to an absolute stack index, or faults with
/// [`FaultKind::InvalidArgumentIndex`] when it lies outside the frame's
/// argument window.
fn resolve_argument_index<D: DynamicValue>(frame: &Frame<D>, index: usize) -> (r: Result<
    usize,
    FaultKind<D>,
>)
    ensures
        frame.arg_offset + index < frame.variables_offset ==> r == Ok::<usize, FaultKind<D>>(
            (frame.arg_offset + index) as usize,
        ),
        frame.arg_offset + index >= frame.variables_offset ==> r == Err::<usize, FaultKind<D>>(
            FaultKind::InvalidArgumentIndex,
        ),
{
    match frame.arg_offset.checked_add(index) {
        Some(absolute) => {
            if absolute < frame.variables_offset {
                Ok(absolute)
            } else {
                Err(FaultKind::InvalidArgumentIndex)
            }
        },
        None => Err(FaultKind::InvalidArgumentIndex),
    }
}

/// Resolves a variable index to an absolute stack index, or faults with
/// [`FaultKind::InvalidVariableIndex`] when it lies outside the frame's
/// variable window.
fn resolve_variable_index<D: DynamicValue>(frame: &Frame<D>, index: usize) -> (r: Result<
    usize,
    FaultKind<D>,
>)
    ensures
        frame.variables_offset + index < frame.return_offset ==> r == Ok::<usize, FaultKind<D>>(
            (frame.variables_offset + index) as usize,
        ),
        frame.variables_offset + index >= frame.return_offset ==> r == Err::<usize, FaultKind<D>>(
            FaultKind::InvalidVariableIndex,
        ),
{
    match frame.variables_offset.checked_add(index) {
        Some(absolute) => {
            if absolute < frame.return_offset {
                Ok(absolute)
            } else {
                Err(FaultKind::InvalidVariableIndex)
            }
        },
        None => Err(FaultKind::InvalidVariableIndex),
    }
}

/// Resolves a value source to a reference into the stack, or faults as the
/// index resolution does.
fn resolve_value_source<'a, D: DynamicValue>(
    stack: &'a Stack<D>,
    frame: &Frame<D>,
    source: ValueSource,
) -> (r: Result<&'a Value<D>, FaultKind<D>>)
    requires
        stack.wf(),
        frame.offsets_wf(),
        frame.return_offset <= stack@.len(),
    ensures
        match resolve_source_spec(*frame, source) {
            Ok(index) => r matches Ok(v) && *v == stack@[index],
            Err(kind) => r == Err::<&'a Value<D>, FaultKind<D>>(kind),
        },
{
    match source {
        ValueSource::Argument(index) => {
            match resolve_argument_index(frame, index) {
                Ok(absolute) => Ok(stack.get(absolute)),
                Err(kind) => Err(kind),
            }
        },
        ValueSource::Variable(index) => {
            match resolve_variable_index(frame, index) {
                Ok(absolute) => Ok(stack.get(absolute)),
                Err(kind) => Err(kind),
            }
        },
    }
}

/// Resolves a value-or-source: a value stands for itself, a source resolves
/// into the stack.
fn resolve_value_or_source<'a, D: DynamicValue>(
    stack: &'a Stack<D>,
    frame: &Frame<D>,
    value: &'a ValueOrSource<D>,
) -> (r: Result<&'a Value<D>, FaultKind<D>>)
    requires
        stack.wf(),
        frame.offsets_wf(),
        frame.return_offset <= stack@.len(),
    ensures
        match *value {
            ValueOrSource::Value(v) => r matches Ok(rv) && *rv == v,
            ValueOrSource::Argument(index) => match resolve_source_spec(
                *frame,
                ValueSource::Argument(index),
            ) {
                Ok(absolute) => r matches Ok(rv) && *rv == stack@[absolute],
                Err(kind) => r == Err::<&'a Value<D>, FaultKind<D>>(kind),
            },
            ValueOrSource::Variable(index) => match resolve_source_spec(
                *frame,
                ValueSource::Variable(index),
            ) {
                Ok(absolute) => r matches Ok(rv) && *rv == stack@[absolute],
                Err(kind) => r == Err::<&'a Value<D>, FaultKind<D>>(kind),
            },
        },
{
    match value {
        ValueOrSource::Value(v) => Ok(v),
        ValueOrSource::Argument(index) => resolve_value_source(
            stack,
            frame,
            ValueSource::Argument(*index),
        ),
        ValueOrSource::Variable(index) => resolve_value_source(
            stack,
            frame,
            ValueSource::Variable(*index),
        ),
    }
}

/// Stores `value` at `destination`: into a variable slot of the frame, onto
/// the stack, or into the frame's return register. Faults with
/// [`FaultKind::InvalidVariableIndex`] for a variable outside the frame's
/// window and with [`FaultKind::StackOverflow`] for a push beyond capacity.
fn store_destination<D: DynamicValue>(
    stack: &mut Stack<D>,
    frame: &mut Frame<D>,
    destination: Destination,
    value: Value<D>,
) -> (r: Result<(), FaultKind<D>>)
    requires
        old(stack).wf(),
        old(frame).offsets_wf(),
        old(frame).return_offset <= old(stack)@.len(),
    ensures
        final(stack).wf(),
        final(frame).offsets_wf(),
        final(frame).return_offset == old(frame).return_offset,
        final(frame).variables_offset == old(frame).variables_offset,
        final(frame).arg_offset == old(frame).arg_offset,
        final(frame).vtable_index == old(frame).vtable_index,
        final(frame).operation_index == old(frame).operation_index,
        final(frame).destination == old(frame).destination,
        final(stack)@.len() >= old(stack)@.len(),
        match destination {
            Destination::Variable(index) => {
                if old(frame).variables_offset + index < old(frame).return_offset {
                    &&& r is Ok
                    &&& final(stack)@ == old(stack)@.update(
                        old(frame).variables_offset + index,
                        value,
                    )
                    &&& final(frame).return_value == old(frame).return_value
                    &&& final(stack).spec_remaining() == old(stack).spec_remaining()
                } else {
                    &&& r == Err::<(), FaultKind<D>>(FaultKind::InvalidVariableIndex)
                    &&& final(stack)@ == old(stack)@
                    &&& final(frame).return_value == old(frame).return_value
                }
            },
            Destination::Stack => {
                if old(stack).spec_remaining() > 0 {
                    &&& r is Ok
                    &&& final(stack)@ == old(stack)@.push(value)
                    &&& final(frame).return_value == old(frame).return_value
                } else {
                    &&& r == Err::<(), FaultKind<D>>(FaultKind::StackOverflow)
                    &&& final(stack)@ == old(stack)@
                    &&& final(frame).return_value == old(frame).return_value
                }
            },
            Destination::Return => {
                &&& r is Ok
                &&& final(stack)@ == old(stack)@
                &&& final(stack).spec_remaining() == old(stack).spec_remaining()
                &&& final(frame).return_value == Some(value)
            },
        },
{
    match destination {
        Destination::Variable(index) => {
            match resolve_variable_index(frame, index) {
                Ok(absolute) => {
                    stack.set_value(absolute, value);
                    Ok(())
                },
                Err(kind) => Err(kind),
            }
        },
        Destination::Stack => {
            match stack.push(value) {
                Ok(()) => Ok(()),
                Err(kind) => Err(kind),
            }
        },
        Destination::Return => {
            frame.return_value = Some(value);
            Ok(())
        },
    }
}

/// The descriptor of one suspended call: the offsets that partition its
/// window of the shared stack, the function it was running, the next
/// instruction to execute, and where its result is to be delivered.
#[derive(Debug, Clone, Copy)]
pub struct PausedFrame {
    /// The stack offset below which this call may not pop.
    pub return_offset: usize,
    /// The stack offset where this call's arguments begin.
    pub arg_offset: usize,
    /// The stack offset where this call's variables begin.
    pub variables_offset: usize,
    /// The vtable index of the function being executed, if any.
    pub vtable_index: Option<usize>,
    /// The index of the next instruction to execute.
    pub operation_index: usize,
    /// The destination for this call's result.
    pub destination: Destination,
}

/// A paused code execution: the whole suspended call chain, reified as frame
/// descriptors ordered innermost first, together with the instruction
/// sequence the outermost frame was running.
///
/// Created only on suspension and consumed exactly once by
/// [`PausedExecution::resume`]. Dropping it abandons the computation.
pub struct PausedExecution<D> {
    pub(crate) operations: Vec<Instruction<D>>,
    pub(crate) frames: Vec<PausedFrame>,
}

impl<D> PausedExecution<D> {
    /// The captured frame descriptors, innermost first.
    pub closed spec fn spec_frames(&self) -> Seq<PausedFrame> {
        self.frames@
    }

    /// The instruction sequence the outermost frame was running.
    pub closed spec fn spec_operations(&self) -> Seq<Instruction<D>> {
        self.operations@
    }
}

/// Customizes the behavior of a virtual machine instance. The single
/// capability is to decide, once before each instruction, whether execution
/// continues or pauses.
pub trait Environment: Sized {
    /// Whether this environment may ever ask the machine to pause. An
    /// environment for which this is false always answers
    /// [`ExecutionBehavior::Continue`] and stays unable to pause, so runs
    /// under it end in a value or a fault, never in a continuation.
    spec fn spec_may_pause(&self) -> bool;

    /// Called once before each instruction is executed. Returning
    /// [`ExecutionBehavior::Pause`] suspends the machine before that
    /// instruction; resuming re-executes the decision first.
    fn step(&mut self) -> (r: ExecutionBehavior)
        ensures
            !old(self).spec_may_pause() ==> (r == ExecutionBehavior::Continue
                && !final(self).spec_may_pause()),
    ;
}

impl Environment for () {
    /// The unit environment never pauses.
    open spec fn spec_may_pause(&self) -> bool {
        false
    }

    fn step(&mut self) -> (r: ExecutionBehavior)
        ensures
            r == ExecutionBehavior::Continue,
    {
        ExecutionBehavior::Continue
    }
}

/// An [`Environment`] that allows executing an amount of instructions before
/// pausing the virtual machine.
#[derive(Debug, Default)]
pub struct Budgeted(usize);

impl View for Budgeted {
    type V = usize;

    closed spec fn view(&self) -> usize {
        self.0
    }
}

impl Budgeted {
    /// Returns a new instance with the provided initial budget.
    pub fn new(initial_budget: usize) -> (r: Self)
        ensures
            r@ == initial_budget,
    {
        Budgeted(initial_budget)
    }

    /// Returns the current balance of the budget.
    pub fn balance(&self) -> (r: usize)
        ensures
            r == self@,
    {
        self.0
    }

    /// Adds an additional budget. This value will saturate instead of
    /// overflowing.
    pub fn add_budget(&mut self, additional_budget: usize)
        ensures
            final(self)@ == if old(self)@ + additional_budget <= usize::MAX {
                old(self)@ + additional_budget
            } else {
                usize::MAX as int
            },
    {
        self.0 = self.0.saturating_add(additional_budget);
    }
}

impl Environment for Budgeted {
    /// A budgeted environment pauses whenever its balance runs out.
    open spec fn spec_may_pause(&self) -> bool {
        true
    }

    /// Consumes one unit of budget, pausing once the balance reaches zero.
    fn step(&mut self) -> (r: ExecutionBehavior)
        ensures
            old(self)@ > 0 ==> r == ExecutionBehavior::Continue && final(self)@ == old(self)@ - 1,
            old(self)@ == 0 ==> r == ExecutionBehavior::Pause && final(self)@ == 0,
    {
        if self.0 > 0 {
            self.0 = self.0 - 1;
            ExecutionBehavior::Continue
        } else {
            ExecutionBehavior::Pause
        }
    }
}

/// The virtual machine behavior returned from [`Environment::step`].
#[derive(Debug, Clone, Copy, PartialEq, Eq)]
pub enum ExecutionBehavior {
    /// The virtual machine should continue executing.
    Continue,
    /// The virtual machine should pause before the next instruction is
    /// executed.
    Pause,
}

/// The value a source denotes in a given stack and frame, or the fault for
/// an index outside the frame's window.
pub(crate) open spec fn resolve_src_value_spec<D>(
    stack: Seq<Value<D>>,
    frame: Frame<D>,
    source: ValueSource,
) -> Result<Value<D>, FaultKind<D>> {
    match resolve_source_spec(frame, source) {
        Ok(index) => Ok(stack[index]),
        Err(kind) => Err(kind),
    }
}

/// The value a value-or-source denotes in a given stack and frame.
pub(crate) open spec fn resolve_vos_spec<D>(
    stack: Seq<Value<D>>,
    frame: Frame<D>,
    value: ValueOrSource<D>,
) -> Result<Value<D>, FaultKind<D>> {
    match value {
        ValueOrSource::Value(v) => Ok(v),
        ValueOrSource::Argument(index) => resolve_src_value_spec(
            stack,
            frame,
            ValueSource::Argument(index),
        ),
        ValueOrSource::Variable(index) => resolve_src_value_spec(
            stack,
            frame,
            ValueSource::Variable(index),
        ),
    }
}

/// True when the two frames agree on their stack window, function and
/// destination; the program counter and return register are free.
pub(crate) open spec fn frame_window_eq<D>(a: Frame<D>, b: Frame<D>) -> bool {
    &&& a.return_offset == b.return_offset
    &&& a.variables_offset == b.variables_offset
    &&& a.arg_offset == b.arg_offset
    &&& a.vtable_index == b.vtable_index
    &&& a.destination == b.destination
}

/// True when the two frames agree on everything but the return register.
pub(crate) open spec fn frame_shape_preserved<D>(pre: Frame<D>, post: Frame<D>) -> bool {
    &&& post.return_offset == pre.return_offset
    &&& post.variables_offset == pre.variables_offset
    &&& post.arg_offset == pre.arg_offset
    &&& post.vtable_index == pre.vtable_index
    &&& post.operation_index == pre.operation_index
    &&& post.destination == pre.destination
}

/// What storing `value` at `destination` does: the post states and result a
/// successful or failed store leaves behind.
pub(crate) open spec fn store_post<D>(
    pre_stack: Seq<Value<D>>,
    pre_remaining: usize,
    pre_frame: Frame<D>,
    post_stack: Seq<Value<D>>,
    post_frame: Frame<D>,
    destination: Destination,
    value: Value<D>,
    r: Result<(), FaultKind<D>>,
) -> bool {
    match destination {
        Destination::Variable(index) => {
            if pre_frame.variables_offset + index < pre_frame.return_offset {
                &&& r is Ok
                &&& post_stack == pre_stack.update(pre_frame.variables_offset + index, value)
                &&& post_frame.return_value == pre_frame.return_value
            } else {
                &&& r == Err::<(), FaultKind<D>>(FaultKind::InvalidVariableIndex)
                &&& post_stack == pre_stack
                &&& post_frame.return_value == pre_frame.return_value
            }
        },
        Destination::Stack => {
            if pre_remaining > 0 {
                &&& r is Ok
                &&& post_stack == pre_stack.push(value)
                &&& post_frame.return_value == pre_frame.return_value
            } else {
                &&& r == Err::<(), FaultKind<D>>(FaultKind::StackOverflow)
                &&& post_stack == pre_stack
                &&& post_frame.return_value == pre_frame.return_value
            }
        },
        Destination::Return => {
            &&& r is Ok
            &&& post_stack == pre_stack
            &&& post_frame.return_value == Some(value)
        },
    }
}

/// One of the machine's four arithmetic operations.
#[derive(Clone, Copy)]
pub enum ArithOp {
    Add,
    Sub,
    Multiply,
    Divide,
}

/// The quotient of two integers under truncating division, as the machine's
/// division instruction computes it for a nonzero divisor.
pub open spec fn int_div_trunc(x: int, d: int) -> int {
    if x == 0 {
        0
    } else if x > 0 && d > 0 {
        x / d
    } else if x < 0 && d < 0 {
        ((x * -1) / (d * -1))
    } else if x < 0 {
        ((x * -1) / d) * -1
    } else {
        (x / (d * -1)) * -1
    }
}

/// The integer an arithmetic instruction produces: the mathematically exact
/// result when it fits in a 64-bit signed integer, and `Void` on overflow or
/// on division by zero. Arithmetic on integers never faults.
pub open spec fn integer_op_value<D>(op: ArithOp, l: i64, r: i64) -> Value<D> {
    match op {
        ArithOp::Add => if l + r > i64::MAX || l + r < i64::MIN {
            Value::Void
        } else {
            Value::Integer((l + r) as i64)
        },
        ArithOp::Sub => if l - r > i64::MAX || l - r < i64::MIN {
            Value::Void
        } else {
            Value::Integer((l - r) as i64)
        },
        ArithOp::Multiply => if l * r > i64::MAX || l * r < i64::MIN {
            Value::Void
        } else {
            Value::Integer((l * r) as i64)
        },
        ArithOp::Divide => if r == 0 {
            Value::Void
        } else {
            let quotient = int_div_trunc(l as int, r as int);
            if quotient < i64::MIN || quotient > i64::MAX {
                Value::Void
            } else {
                Value::Integer(quotient as i64)
            }
        },
    }
}

/// The real an arithmetic instruction produces, as a named bit pattern.
pub open spec fn real_op_bits(op: ArithOp, l: u64, r: u64) -> u64 {
    match op {
        ArithOp::Add => crate::reals::real_add_bits(l, r),
        ArithOp::Sub => crate::reals::real_sub_bits(l, r),
        ArithOp::Multiply => crate::reals::real_mul_bits(l, r),
        ArithOp::Divide => crate::reals::real_div_bits(l, r),
    }
}

/// The message template of the type-mismatch fault each operation raises.
pub(crate) open spec fn arith_mismatch_message(op: ArithOp) -> Seq<char> {
    match op {
        ArithOp::Add => "can't add @expected and `@received-value` (@received-type)"@,
        ArithOp::Sub => "can't subtract @expected and `@received-value` (@received-type)"@,
        ArithOp::Multiply => "can't multiply @expected and `@received-value` (@received-type)"@,
        ArithOp::Divide => "can't divide @expected and `@received-value` (@received-type)"@,
    }
}

/// The message template of the invalid-type fault each operation raises.
pub(crate) open spec fn arith_invalid_message(op: ArithOp) -> Seq<char> {
    match op {
        ArithOp::Add => "`@received-value` (@received-type) is not able to be added"@,
        ArithOp::Sub => "`@received-value` (@received-type) is not able to be subtracted"@,
        ArithOp::Multiply => "`@received-value` (@received-type) is not able to be multiplied"@,
        ArithOp::Divide => "`@received-value` (@received-type) is not able to be divided"@,
    }
}

/// Computes one arithmetic operation over two values.
///
/// Both operands must be integers or both reals: integer results wrap to
/// `Void` on overflow or division by zero, real results follow IEEE-754. A
/// real or integer left operand with a differently-kinded right operand
/// faults with a type mismatch; any other left operand faults with an
/// invalid type.
pub(crate) fn arith_values<D: DynamicValue>(op: ArithOp, left: &Value<D>, right: &Value<D>) -> (r:
    Result<Value<D>, FaultKind<D>>)
    ensures
        left is Integer && right is Integer ==> r == Ok::<Value<D>, FaultKind<D>>(
            integer_op_value(op, left->Integer_0, right->Integer_0),
        ),
        left is Real && right is Real ==> r == Ok::<Value<D>, FaultKind<D>>(
            Value::Real(real_op_bits(op, left->Real_0, right->Real_0)),
        ),
        left is Real && !(right is Real) ==> (r matches Err(
            FaultKind::TypeMismatch { message, expected, received },
        ) && message@ == arith_mismatch_message(op) && expected == ValueKind::Real && received
            == *right),
        left is Integer && !(right is Integer) ==> (r matches Err(
            FaultKind::TypeMismatch { message, expected, received },
        ) && message@ == arith_mismatch_message(op) && expected == ValueKind::Integer && received
            == *right),
        !(left is Integer) && !(left is Real) ==> (r matches Err(
            FaultKind::InvalidType { message, received },
        ) && message@ == arith_invalid_message(op) && received == *left),
{
    match (left, right) {
        (Value::Integer(l), Value::Integer(rv)) => Ok(
            match op {
                ArithOp::Add => match l.checked_add(*rv) {
                    Some(value) => Value::Integer(value),
                    None => Value::Void,
                },
                ArithOp::Sub => match l.checked_sub(*rv) {
                    Some(value) => Value::Integer(value),
                    None => Value::Void,
                },
                ArithOp::Multiply => match l.checked_mul(*rv) {
                    Some(value) => Value::Integer(value),
                    None => Value::Void,
                },
                ArithOp::Divide => match l.checked_div(*rv) {
                    Some(value) => Value::Integer(value),
                    None => Value::Void,
                },
            },
        ),
        (Value::Real(l), Value::Real(rv)) => Ok(
            Value::Real(
                match op {
                    ArithOp::Add => crate::reals::real_add(*l, *rv),
                    ArithOp::Sub => crate::reals::real_sub(*l, *rv),
                    ArithOp::Multiply => crate::reals::real_mul(*l, *rv),
                    ArithOp::Divide => crate::reals::real_div(*l, *rv),
                },
            ),
        ),
        (Value::Real(_), other) => Err(
            FaultKind::type_mismatch(arith_mismatch_template(op), ValueKind::Real, other.clone()),
        ),
        (Value::Integer(_), other) => Err(
            FaultKind::type_mismatch(
                arith_mismatch_template(op),
                ValueKind::Integer,
                other.clone(),
            ),
        ),
        (other, _) => Err(FaultKind::invalid_type(arith_invalid_template(op), other.clone())),
    }
}

/// The type-mismatch message template of one operation.
fn arith_mismatch_template(op: ArithOp) -> (r: &'static str)
    ensures
        r@ == arith_mismatch_message(op),
{
    match op {
        ArithOp::Add => "can't add @expected and `@received-value` (@received-type)",
        ArithOp::Sub => "can't subtract @expected and `@received-value` (@received-type)",
        ArithOp::Multiply => "can't multiply @expected and `@received-value` (@received-type)",
        ArithOp::Divide => "can't divide @expected and `@received-value` (@received-type)",
    }
}

/// The invalid-type message template of one operation.
fn arith_invalid_template(op: ArithOp) -> (r: &'static str)
    ensures
        r@ == arith_invalid_message(op),
{
    match op {
        ArithOp::Add => "`@received-value` (@received-type) is not able to be added",
        ArithOp::Sub => "`@received-value` (@received-type) is not able to be subtracted",
        ArithOp::Multiply => "`@received-value` (@received-type) is not able to be multiplied",
        ArithOp::Divide => "`@received-value` (@received-type) is not able to be divided",
    }
}

/// What one arithmetic instruction does, from resolving its operands to
/// storing its result: the relation between the states before and after and
/// the outcome `r`.
pub(crate) open spec fn arith_step_post<D>(
    op: ArithOp,
    pre_stack: Seq<Value<D>>,
    pre_remaining: usize,
    pre_frame: Frame<D>,
    post_stack: Seq<Value<D>>,
    post_frame: Frame<D>,
    left: ValueSource,
    right: ValueOrSource<D>,
    destination: Destination,
    r: Result<(), FaultKind<D>>,
) -> bool {
    match resolve_src_value_spec(pre_stack, pre_frame, left) {
        Err(kind) => r == Err::<(), FaultKind<D>>(kind) && post_stack == pre_stack
            && post_frame.return_value == pre_frame.return_value,
        Ok(l) => match resolve_vos_spec(pre_stack, pre_frame, right) {
            Err(kind) => r == Err::<(), FaultKind<D>>(kind) && post_stack == pre_stack
                && post_frame.return_value == pre_frame.return_value,
            Ok(rv) => {
                if l is Integer && rv is Integer {
                    store_post(
                        pre_stack,
                        pre_remaining,
                        pre_frame,
                        post_stack,
                        post_frame,
                        destination,
                        integer_op_value(op, l->Integer_0, rv->Integer_0),
                        r,
                    )
                } else if l is Real && rv is Real {
                    store_post(
                        pre_stack,
                        pre_remaining,
                        pre_frame,
                        post_stack,
                        post_frame,
                        destination,
                        Value::Real(real_op_bits(op, l->Real_0, rv->Real_0)),
                        r,
                    )
                } else {
                    &&& r is Err
                    &&& post_stack == pre_stack
                    &&& post_frame.return_value == pre_frame.return_value
                    &&& (l is Real ==> (r->Err_0 matches FaultKind::TypeMismatch {
                        message,
                        expected,
                        received,
                    } && message@ == arith_mismatch_message(op) && expected == ValueKind::Real
                        && received == rv))
                    &&& (l is Integer ==> (r->Err_0 matches FaultKind::TypeMismatch {
                        message,
                        expected,
                        received,
                    } && message@ == arith_mismatch_message(op) && expected == ValueKind::Integer
                        && received == rv))
                    &&& (!(l is Integer) && !(l is Real) ==> (r->Err_0 matches
                    FaultKind::InvalidType { message, received } && message@
                        == arith_invalid_message(op) && received == l))
                }
            },
        },
    }
}

/// Executes one arithmetic instruction: resolves both operands, computes the
/// operation, and stores the result at `destination`.
pub(crate) fn arith_step<D: DynamicValue>(
    op: ArithOp,
    stack: &mut Stack<D>,
    frame: &mut Frame<D>,
    left: ValueSource,
    right: &ValueOrSource<D>,
    destination: Destination,
) -> (r: Result<(), FaultKind<D>>)
    requires
        old(stack).wf(),
        old(frame).offsets_wf(),
        old(frame).return_offset <= old(stack)@.len(),
    ensures
        final(stack).wf(),
        frame_shape_preserved(*old(frame), *final(frame)),
        final(stack)@.len() >= old(stack)@.len(),
        arith_step_post(
            op,
            old(stack)@,
            old(stack).spec_remaining(),
            *old(frame),
            final(stack)@,
            *final(frame),
            left,
            *right,
            destination,
            r,
        ),
{
    let produced = {
        let left_value = match resolve_value_source(stack, frame, left) {
            Ok(value) => value,
            Err(kind) => {
                return Err(kind);
            },
        };
        let right_value = match resolve_value_or_source(stack, frame, right) {
            Ok(value) => value,
            Err(kind) => {
                return Err(kind);
            },
        };
        match arith_values(op, left_value, right_value) {
            Ok(value) => value,
            Err(kind) => {
                return Err(kind);
            },
        }
    };
    store_destination(stack, frame, destination, produced)
}

/// Executes an `Add` instruction.
pub(crate) fn add<D: DynamicValue>(
    stack: &mut Stack<D>,
    frame: &mut Frame<D>,
    left: ValueSource,
    right: &ValueOrSource<D>,
    destination: Destination,
) -> (r: Result<(), FaultKind<D>>)
    requires
        old(stack).wf(),
        old(frame).offsets_wf(),
        old(frame).return_offset <= old(stack)@.len(),
    ensures
        final(stack).wf(),
        frame_shape_preserved(*old(frame), *final(frame)),
        final(stack)@.len() >= old(stack)@.len(),
        arith_step_post(
            ArithOp::Add,
            old(stack)@,
            old(stack).spec_remaining(),
            *old(frame),
            final(stack)@,
            *final(frame),
            left,
            *right,
            destination,
            r,
        ),
{
    arith_step(ArithOp::Add, stack, frame, left, right, destination)
}

/// Executes a `Sub` instruction.
pub(crate) fn sub<D: DynamicValue>(
    stack: &mut Stack<D>,
    frame: &mut Frame<D>,
    left: ValueSource,
    right: &ValueOrSource<D>,
    destination: Destination,
) -> (r: Result<(), FaultKind<D>>)
    requires
        old(stack).wf(),
        old(frame).offsets_wf(),
        old(frame).return_offset <= old(stack)@.len(),
    ensures
        final(stack).wf(),
        frame_shape_preserved(*old(frame), *final(frame)),
        final(stack)@.len() >= old(stack)@.len(),
        arith_step_post(
            ArithOp::Sub,
            old(stack)@,
            old(stack).spec_remaining(),
            *old(frame),
            final(stack)@,
            *final(frame),
            left,
            *right,
            destination,
            r,
        ),
{
    arith_step(ArithOp::Sub, stack, frame, left, right, destination)
}

/// Executes a `Multiply` instruction.
pub(crate) fn multiply<D: DynamicValue>(
    stack: &mut Stack<D>,
    frame: &mut Frame<D>,
    left: ValueSource,
    right: &ValueOrSource<D>,
    destination: Destination,
) -> (r: Result<(), FaultKind<D>>)
    requires
        old(stack).wf(),
        old(frame).offsets_wf(),
        old(frame).return_offset <= old(stack)@.len(),
    ensures
        final(stack).wf(),
        frame_shape_preserved(*old(frame), *final(frame)),
        final(stack)@.len() >= old(stack)@.len(),
        arith_step_post(
            ArithOp::Multiply,
            old(stack)@,
            old(stack).spec_remaining(),
            *old(frame),
            final(stack)@,
            *final(frame),
            left,
            *right,
            destination,
            r,
        ),
{
    arith_step(ArithOp::Multiply, stack, frame, left, right, destination)
}

/// Executes a `Divide` instruction.
pub(crate) fn divide<D: DynamicValue>(
    stack: &mut Stack<D>,
    frame: &mut Frame<D>,
    left: ValueSource,
    right: &ValueOrSource<D>,
    destination: Destination,
) -> (r: Result<(), FaultKind<D>>)
    requires
        old(stack).wf(),
        old(frame).offsets_wf(),
        old(frame).return_offset <= old(stack)@.len(),
    ensures
        final(stack).wf(),
        frame_shape_preserved(*old(frame), *final(frame)),
        final(stack)@.len() >= old(stack)@.len(),
        arith_step_post(
            ArithOp::Divide,
            old(stack)@,
            old(stack).spec_remaining(),
            *old(frame),
            final(stack)@,
            *final(frame),
            left,
            *right,
            destination,
            r,
        ),
{
    arith_step(ArithOp::Divide, stack, frame, left, right, destination)
}

/// The boolean a comparison of two primitive values yields, or `None` where
/// an ordered comparison finds no ordering and faults. Equality comparisons
/// never fault.
pub(crate) open spec fn comparison_outcome<D>(
    comparison: Comparison,
    l: Value<D>,
    r: Value<D>,
) -> Option<bool> {
    match comparison {
        Comparison::Equal => Some(value_eq_spec(l, r)),
        Comparison::NotEqual => Some(!value_eq_spec(l, r)),
        Comparison::LessThan => match value_cmp_spec(l, r) {
            Some(o) => Some(o == Ordering::Less),
            None => None,
        },
        Comparison::LessThanOrEqual => match value_cmp_spec(l, r) {
            Some(o) => Some(o == Ordering::Less || o == Ordering::Equal),
            None => None,
        },
        Comparison::GreaterThan => match value_cmp_spec(l, r) {
            Some(o) => Some(o == Ordering::Greater),
            None => None,
        },
        Comparison::GreaterThanOrEqual => match value_cmp_spec(l, r) {
            Some(o) => Some(o == Ordering::Greater || o == Ordering::Equal),
            None => None,
        },
    }
}

/// The message template of the fault an impossible ordered comparison raises.
pub(crate) open spec fn comparison_fault_message() -> Seq<char> {
    "invalid comparison between @expected and `@received-value` (@received-type)"@
}

/// Evaluates equality of two values, inverted for a not-equal comparison.
fn equality<D: DynamicValue>(left: &Value<D>, right: &Value<D>, inverse: bool) -> (r: bool)
    ensures
        both_primitive(*left, *right) ==> r == (value_eq_spec(*left, *right) != inverse),
{
    let result = left.eq(right);
    if inverse {
        !result
    } else {
        result
    }
}

/// Evaluates an ordered comparison of two values, faulting with a type
/// mismatch when no ordering between them can be derived.
fn compare_values<D: DynamicValue>(left: &Value<D>, right: &Value<D>, comparison: Comparison) -> (r:
    Result<bool, FaultKind<D>>)
    requires
        comparison is LessThan || comparison is LessThanOrEqual || comparison is GreaterThan
            || comparison is GreaterThanOrEqual,
    ensures
        both_primitive(*left, *right) ==> match comparison_outcome(comparison, *left, *right) {
            Some(b) => r == Ok::<bool, FaultKind<D>>(b),
            None => (r matches Err(FaultKind::TypeMismatch { message, expected, received })
                && message@ == comparison_fault_message() && expected == primitive_kind(*left)
                && received == *right),
        },
{
    match left.partial_cmp(right) {
        Some(ordering) => Ok(
            match comparison {
                Comparison::LessThan => matches!(ordering, Ordering::Less),
                Comparison::LessThanOrEqual => matches!(
                    ordering,
                    Ordering::Less | Ordering::Equal,
                ),
                Comparison::GreaterThan => matches!(ordering, Ordering::Greater),
                Comparison::GreaterThanOrEqual => matches!(
                    ordering,
                    Ordering::Greater | Ordering::Equal,
                ),
                _ => unreached(),
            },
        ),
        None => Err(
            FaultKind::type_mismatch(
                "invalid comparison between @expected and `@received-value` (@received-type)",
                left.kind(),
                right.clone(),
            ),
        ),
    }
}

/// What one `Compare` instruction does, from resolving its operands to
/// storing its boolean or deciding its jump.
pub(crate) open spec fn compare_step_post<D>(
    comparison: Comparison,
    pre_stack: Seq<Value<D>>,
    pre_remaining: usize,
    pre_frame: Frame<D>,
    post_stack: Seq<Value<D>>,
    post_frame: Frame<D>,
    left: ValueSource,
    right: ValueOrSource<D>,
    action: CompareAction,
    r: Result<Option<usize>, FaultKind<D>>,
) -> bool {
    match resolve_src_value_spec(pre_stack, pre_frame, left) {
        Err(kind) => r == Err::<Option<usize>, FaultKind<D>>(kind) && post_stack == pre_stack
            && post_frame.return_value == pre_frame.return_value,
        Ok(l) => match resolve_vos_spec(pre_stack, pre_frame, right) {
            Err(kind) => r == Err::<Option<usize>, FaultKind<D>>(kind) && post_stack == pre_stack
                && post_frame.return_value == pre_frame.return_value,
            Ok(rv) => {
                if both_primitive(l, rv) {
                    match comparison_outcome(comparison, l, rv) {
                        Some(b) => match action {
                            CompareAction::Store(dest) => {
                                &&& (r is Ok ==> r == Ok::<Option<usize>, FaultKind<D>>(None))
                                &&& store_post(
                                    pre_stack,
                                    pre_remaining,
                                    pre_frame,
                                    post_stack,
                                    post_frame,
                                    dest,
                                    Value::Boolean(b),
                                    if r is Ok {
                                        Ok(())
                                    } else {
                                        Err(r->Err_0)
                                    },
                                )
                            },
                            CompareAction::JumpIfFalse(target) => {
                                &&& post_stack == pre_stack
                                &&& post_frame.return_value == pre_frame.return_value
                                &&& r == Ok::<Option<usize>, FaultKind<D>>(
                                    if b {
                                        None
                                    } else {
                                        Some(target)
                                    },
                                )
                            },
                        },
                        None => (r matches Err(
                            FaultKind::TypeMismatch { message, expected, received },
                        ) && message@ == comparison_fault_message() && expected == primitive_kind(l)
                            && received == rv && post_stack == pre_stack
                            && post_frame.return_value == pre_frame.return_value),
                    }
                } else {
                    true
                }
            },
        },
    }
}

/// Executes a `Compare` instruction: evaluates the comparison and either
/// stores the boolean result or jumps when it is false.
pub(crate) fn compare<D: DynamicValue>(
    stack: &mut Stack<D>,
    frame: &mut Frame<D>,
    comparison: Comparison,
    left: ValueSource,
    right: &ValueOrSource<D>,
    action: CompareAction,
) -> (r: Result<Option<usize>, FaultKind<D>>)
    requires
        old(stack).wf(),
        old(frame).offsets_wf(),
        old(frame).return_offset <= old(stack)@.len(),
    ensures
        final(stack).wf(),
        frame_shape_preserved(*old(frame), *final(frame)),
        final(stack)@.len() >= old(stack)@.len(),
        compare_step_post(
            comparison,
            old(stack)@,
            old(stack).spec_remaining(),
            *old(frame),
            final(stack)@,
            *final(frame),
            left,
            *right,
            action,
            r,
        ),
        (comparison is Equal || comparison is NotEqual) ==> (r matches Err(kind) ==> (
        match resolve_src_value_spec(old(stack)@, *old(frame), left) {
            Err(k) => kind == k,
            Ok(_) => match resolve_vos_spec(old(stack)@, *old(frame), *right) {
                Err(k) => kind == k,
                Ok(_) => kind == FaultKind::<D>::InvalidVariableIndex || kind
                    == FaultKind::<D>::StackOverflow,
            },
        })),
{
    let comparison_result = {
        let left_value = match resolve_value_source(stack, frame, left) {
            Ok(value) => value,
            Err(kind) => {
                return Err(kind);
            },
        };
        let right_value = match resolve_value_or_source(stack, frame, right) {
            Ok(value) => value,
            Err(kind) => {
                return Err(kind);
            },
        };
        match comparison {
            Comparison::Equal => equality(left_value, right_value, false),
            Comparison::NotEqual => equality(left_value, right_value, true),
            _ => {
                match compare_values(left_value, right_value, comparison) {
                    Ok(b) => b,
                    Err(kind) => {
                        return Err(kind);
                    },
                }
            },
        }
    };
    match action {
        CompareAction::Store(dest) => {
            match store_destination(stack, frame, dest, Value::Boolean(comparison_result)) {
                Ok(()) => Ok(None),
                Err(kind) => Err(kind),
            }
        },
        CompareAction::JumpIfFalse(target) => {
            if comparison_result {
                Ok(None)
            } else {
                Ok(Some(target))
            }
        },
    }
}

/// Executes an `If` instruction: continues when the condition is truthy and
/// jumps to `false_jump_to` otherwise.
pub(crate) fn jump_if_false<D: DynamicValue>(
    stack: &Stack<D>,
    frame: &Frame<D>,
    condition: ValueSource,
    false_jump_to: usize,
) -> (r: Result<Option<usize>, FaultKind<D>>)
    requires
        stack.wf(),
        frame.offsets_wf(),
        frame.return_offset <= stack@.len(),
    ensures
        match resolve_src_value_spec(stack@, *frame, condition) {
            Err(kind) => r == Err::<Option<usize>, FaultKind<D>>(kind),
            Ok(v) => {
                &&& (!(v is Dynamic) ==> r == Ok::<Option<usize>, FaultKind<D>>(
                    if value_truthy_spec(v) {
                        None
                    } else {
                        Some(false_jump_to)
                    },
                ))
                &&& (v is Dynamic ==> r is Ok)
            },
        },
{
    let value = match resolve_value_source(stack, frame, condition) {
        Ok(value) => value,
        Err(kind) => {
            return Err(kind);
        },
    };
    if value.is_truthy() {
        Ok(None)
    } else {
        Ok(Some(false_jump_to))
    }
}

/// Executes a `PushCopy` of a variable: copies the variable's value to the
/// top of the stack.
pub(crate) fn push_var<D: DynamicValue>(stack: &mut Stack<D>, frame: &Frame<D>, variable: usize) -> (r:
    Result<(), FaultKind<D>>)
    requires
        old(stack).wf(),
        frame.offsets_wf(),
        frame.return_offset <= old(stack)@.len(),
    ensures
        final(stack).wf(),
        final(stack)@.len() >= old(stack)@.len(),
        match resolve_source_spec(*frame, ValueSource::Variable(variable)) {
            Err(kind) => r == Err::<(), FaultKind<D>>(kind) && final(stack)@ == old(stack)@,
            Ok(index) => {
                if old(stack).spec_remaining() > 0 {
                    r is Ok && final(stack)@ == old(stack)@.push(old(stack)@[index])
                } else {
                    r == Err::<(), FaultKind<D>>(FaultKind::StackOverflow) && final(stack)@ == old(stack)@
                }
            },
        },
{
    match resolve_variable_index(frame, variable) {
        Ok(absolute) => {
            let value = stack.get(absolute).clone();
            stack.push(value)
        },
        Err(kind) => Err(kind),
    }
}

/// Executes a `PushCopy` of an argument: copies the argument's value to the
/// top of the stack.
pub(crate) fn push_arg<D: DynamicValue>(stack: &mut Stack<D>, frame: &Frame<D>, arg: usize) -> (r:
    Result<(), FaultKind<D>>)
    requires
        old(stack).wf(),
        frame.offsets_wf(),
        frame.return_offset <= old(stack)@.len(),
    ensures
        final(stack).wf(),
        final(stack)@.len() >= old(stack)@.len(),
        match resolve_source_spec(*frame, ValueSource::Argument(arg)) {
            Err(kind) => r == Err::<(), FaultKind<D>>(kind) && final(stack)@ == old(stack)@,
            Ok(index) => {
                if old(stack).spec_remaining() > 0 {
                    r is Ok && final(stack)@ == old(stack)@.push(old(stack)@[index])
                } else {
                    r == Err::<(), FaultKind<D>>(FaultKind::StackOverflow) && final(stack)@ == old(stack)@
                }
            },
        },
{
    match resolve_argument_index(frame, arg) {
        Ok(absolute) => {
            let value = stack.get(absolute).clone();
            stack.push(value)
        },
        Err(kind) => Err(kind),
    }
}

/// Executes a `Load` instruction: stores a resolved value into a variable.
pub(crate) fn load<D: DynamicValue>(
    stack: &mut Stack<D>,
    frame: &Frame<D>,
    variable: usize,
    value: &ValueOrSource<D>,
) -> (r: Result<(), FaultKind<D>>)
    requires
        old(stack).wf(),
        frame.offsets_wf(),
        frame.return_offset <= old(stack)@.len(),
    ensures
        final(stack).wf(),
        final(stack)@.len() == old(stack)@.len(),
        final(stack).spec_remaining() == old(stack).spec_remaining(),
        match resolve_vos_spec(old(stack)@, *frame, *value) {
            Err(kind) => r == Err::<(), FaultKind<D>>(kind) && final(stack)@ == old(stack)@,
            Ok(v) => match resolve_source_spec(*frame, ValueSource::Variable(variable)) {
                Err(kind) => r == Err::<(), FaultKind<D>>(kind) && final(stack)@ == old(stack)@,
                Ok(index) => r is Ok && final(stack)@ == old(stack)@.update(index, v),
            },
        },
{
    let resolved = match resolve_value_or_source(stack, frame, value) {
        Ok(v) => v.clone(),
        Err(kind) => {
            return Err(kind);
        },
    };
    match resolve_variable_index(frame, variable) {
        Ok(absolute) => {
            stack.set_value(absolute, resolved);
            Ok(())
        },
        Err(kind) => Err(kind),
    }
}

/// Executes a `PopAndDrop`: pops the top value, faulting with a stack
/// underflow when popping would reach below the frame's baseline.
pub(crate) fn frame_pop<D: DynamicValue>(stack: &mut Stack<D>, frame: &Frame<D>) -> (r: Result<
    Value<D>,
    FaultKind<D>,
>)
    requires
        old(stack).wf(),
    ensures
        final(stack).wf(),
        old(stack)@.len() > frame.return_offset ==> (r matches Ok(v) && v == old(stack)@.last()
            && final(stack)@ == old(stack)@.drop_last()),
        old(stack)@.len() <= frame.return_offset ==> r == Err::<Value<D>, FaultKind<D>>(
            FaultKind::StackUnderflow,
        ) && final(stack)@ == old(stack)@,
{
    if stack.len() > frame.return_offset {
        stack.pop()
    } else {
        Err(FaultKind::StackUnderflow)
    }
}

/// The function a `Call` reaches: its explicit vtable index, or the calling
/// frame's own function for a recursive self-call.
pub open spec fn resolved_callee(explicit: Option<usize>, current: Option<usize>) -> Option<
    usize,
> {
    if explicit is Some {
        explicit
    } else {
        current
    }
}

/// Executes the setup of a `Call` instruction: resolves the callee, takes
/// the arguments already on the stack as the new frame's argument window,
/// grows the stack by the callee's variable count, and returns the frame the
/// callee will run in.
///
/// An index (explicit or recursive) outside the vtable faults with
/// [`FaultKind::InvalidVtableIndex`]; fewer stack values than the callee's
/// arity faults with [`FaultKind::StackUnderflow`]; a variable region beyond
/// the remaining capacity faults with [`FaultKind::StackOverflow`].
pub(crate) fn execute_call<D: DynamicValue>(
    module: &Module<D>,
    stack: &mut Stack<D>,
    frame: &Frame<D>,
    vtable_index: Option<usize>,
    arg_count: usize,
    destination: Destination,
) -> (r: Result<Frame<D>, FaultKind<D>>)
    requires
        old(stack).wf(),
        frame.offsets_wf(),
        frame.return_offset <= old(stack)@.len(),
        (match resolved_callee(vtable_index, frame.vtable_index) {
            Some(j) => j < module.spec_vtable().len() ==> module.spec_vtable()[
                j as int
            ].arg_count == arg_count,
            None => true,
        }),
    ensures
        final(stack).wf(),
        final(stack)@.len() >= old(stack)@.len(),
        match resolved_callee(vtable_index, frame.vtable_index) {
            None => r == Err::<Frame<D>, FaultKind<D>>(FaultKind::InvalidVtableIndex) && final(stack)@ == old(stack)@,
            Some(j) => {
                if j >= module.spec_vtable().len() {
                    r == Err::<Frame<D>, FaultKind<D>>(FaultKind::InvalidVtableIndex) && final(stack)@ == old(stack)@
                } else {
                    let callee = module.spec_vtable()[j as int];
                    if old(stack)@.len() - callee.arg_count < frame.return_offset {
                        r == Err::<Frame<D>, FaultKind<D>>(FaultKind::StackUnderflow) && final(stack)@ == old(stack)@
                    } else if callee.variable_count > old(stack).spec_remaining() {
                        r == Err::<Frame<D>, FaultKind<D>>(FaultKind::StackOverflow) && final(stack)@ == old(stack)@
                    } else {
                        &&& final(stack)@ == old(stack)@ + Seq::new(
                            callee.variable_count as nat,
                            |i: int| Value::<D>::Void,
                        )
                        &&& final(stack).spec_remaining() == old(stack).spec_remaining()
                            - callee.variable_count
                        &&& r matches Ok(nf)
                        &&& nf.arg_offset >= frame.return_offset
                        &&& nf.arg_offset == old(stack)@.len() - callee.arg_count
                        &&& nf.variables_offset == old(stack)@.len()
                        &&& nf.return_offset == old(stack)@.len() + callee.variable_count
                        &&& nf.vtable_index == Some(j)
                        &&& nf.operation_index == 0
                        &&& nf.destination == destination
                        &&& nf.return_value is None
                    }
                }
            },
        },
{
    let resolved = match vtable_index {
        Some(j) => Some(j),
        None => frame.vtable_index,
    };
    let index = match resolved {
        Some(j) => j,
        None => {
            return Err(FaultKind::InvalidVtableIndex);
        },
    };
    let function = match module.function_at(index) {
        Some(f) => f,
        None => {
            return Err(FaultKind::InvalidVtableIndex);
        },
    };
    if function.arg_count != arg_count {
        proof {
            assert(false);
        }
        unreached()
    } else {
        let variables_offset = stack.len();
        let arg_offset = match variables_offset.checked_sub(function.arg_count) {
            Some(offset) => offset,
            None => {
                return Err(FaultKind::StackUnderflow);
            },
        };
        if arg_offset < frame.return_offset {
            return Err(FaultKind::StackUnderflow);
        }
        let variable_count = function.variable_count;
        match stack.grow_by(variable_count) {
            Ok(()) => (),
            Err(kind) => {
                return Err(kind);
            },
        }
        let return_offset = variables_offset + variable_count;
        Ok(
            Frame {
                return_offset,
                variables_offset,
                arg_offset,
                vtable_index: Some(index),
                operation_index: 0,
                destination,
                return_value: None,
            },
        )
    }
}

/// Collapses a finished call's argument and variable region to nothing and
/// delivers the returned value to the call's destination in the caller's
/// frame.
pub(crate) fn clean_stack_after_call<D: DynamicValue>(
    stack: &mut Stack<D>,
    parent: &mut Frame<D>,
    arg_offset: usize,
    destination: Destination,
    returned_value: Value<D>,
) -> (r: Result<(), FaultKind<D>>)
    requires
        old(stack).wf(),
        old(parent).offsets_wf(),
        arg_offset <= old(stack)@.len(),
        old(parent).return_offset <= arg_offset,
    ensures
        final(stack).wf(),
        frame_shape_preserved(*old(parent), *final(parent)),
        final(stack)@.len() >= old(parent).return_offset,
        store_post(
            old(stack)@.take(arg_offset as int),
            (old(stack).spec_remaining() + old(stack)@.len() - arg_offset) as usize,
            *old(parent),
            final(stack)@,
            *final(parent),
            destination,
            returned_value,
            r,
        ),
{
    let len = stack.len();
    stack.remove_range(arg_offset, len);
    proof {
        assert(stack@ =~= old(stack)@.take(arg_offset as int));
    }
    store_destination(stack, parent, destination, returned_value)
}

/// Where a `CallInstance` finds its target, and whether its argument region
/// is whole: the absolute stack index of the target, or the fault raised
/// before any host code runs.
pub(crate) open spec fn call_instance_pre<D>(
    stack_len: int,
    frame: Frame<D>,
    target: Option<ValueSource>,
    arg_count: usize,
) -> Result<int, FaultKind<D>> {
    let index_result = match target {
        Some(source) => resolve_source_spec(frame, source),
        None => {
            if stack_len - arg_count - 1 >= frame.return_offset {
                Ok(stack_len - arg_count - 1)
            } else {
                Err(FaultKind::StackUnderflow)
            }
        },
    };
    match index_result {
        Ok(stack_index) => {
            if stack_len - arg_count >= frame.return_offset {
                Ok(stack_index)
            } else {
                Err(FaultKind::StackUnderflow)
            }
        },
        Err(kind) => Err(kind),
    }
}

/// The message of the fault raised when a named call lands on a value that
/// is not a host value.
pub(crate) open spec fn call_instance_fault_message() -> Seq<char> {
    "@received-kind does not support function calls"@
}

/// The stack as a `CallInstance` whose target held a host value leaves it
/// once the host method has run, before the result is delivered: the
/// argument region is consumed, and the target slot is restored to some
/// host value (explicit target) or removed together with its slot (stack
/// target).
pub(crate) open spec fn call_instance_mid_stack<D>(
    pre: Seq<Value<D>>,
    target: Option<ValueSource>,
    stack_index: int,
    arg_count: usize,
    mid: Seq<Value<D>>,
) -> bool {
    if target is Some {
        exists|d: Dynamic<D>|
            mid == pre.take(pre.len() - arg_count).update(stack_index, Value::Dynamic(d))
    } else {
        mid == pre.take(stack_index)
    }
}

/// The remaining capacity that goes with [`call_instance_mid_stack`]: the
/// consumed argument slots are returned to it, and a stack target's own
/// slot as well.
pub(crate) open spec fn call_instance_mid_remaining(
    pre_remaining: usize,
    target: Option<ValueSource>,
    arg_count: usize,
) -> usize {
    if target is Some {
        (pre_remaining + arg_count) as usize
    } else {
        (pre_remaining + arg_count + 1) as usize
    }
}

/// Executes a `CallInstance` instruction: dispatches a named method on a
/// host value found at an explicit argument or variable slot, or just below
/// the argument region on the stack.
///
/// The target is removed from its slot while the host method runs with the
/// popped arguments, then restored (for an explicit target) or discarded
/// (for a stack target). Calling a method on a value that is not a host
/// value faults with [`FaultKind::InvalidType`].
pub(crate) fn call_instance<D: DynamicValue>(
    stack: &mut Stack<D>,
    frame: &mut Frame<D>,
    target: Option<ValueSource>,
    name: &Symbol,
    arg_count: usize,
    destination: Destination,
) -> (r: Result<(), FaultKind<D>>)
    requires
        old(stack).wf(),
        old(frame).offsets_wf(),
        old(frame).return_offset <= old(stack)@.len(),
    ensures
        final(stack).wf(),
        frame_shape_preserved(*old(frame), *final(frame)),
        final(stack)@.len() >= old(frame).return_offset,
        match call_instance_pre(old(stack)@.len() as int, *old(frame), target, arg_count) {
            Err(kind) => r == Err::<(), FaultKind<D>>(kind) && final(stack)@ == old(stack)@
                && final(frame).return_value == old(frame).return_value,
            Ok(stack_index) => {
                if old(stack)@[stack_index] is Dynamic {
                    exists|mid: Seq<Value<D>>|
                        {
                            &&& #[trigger] call_instance_mid_stack(
                                old(stack)@,
                                target,
                                stack_index,
                                arg_count,
                                mid,
                            )
                            &&& ((r is Err && final(stack)@ == mid && final(frame).return_value
                                == old(frame).return_value) || (exists|v: Value<D>|
                                #[trigger] store_post(
                                    mid,
                                    call_instance_mid_remaining(
                                        old(stack).spec_remaining(),
                                        target,
                                        arg_count,
                                    ),
                                    *old(frame),
                                    final(stack)@,
                                    *final(frame),
                                    destination,
                                    v,
                                    r,
                                )))
                        }
                } else {
                    &&& (r matches Err(FaultKind::InvalidType { message, received }) && message@
                        == call_instance_fault_message() && received == old(stack)@[stack_index])
                    &&& final(stack)@ == old(stack)@.update(stack_index, Value::Void)
                    &&& final(frame).return_value == old(frame).return_value
                }
            },
        },
{
    let stack_index = match target {
        Some(ValueSource::Argument(index)) => {
            match resolve_argument_index(frame, index) {
                Ok(absolute) => absolute,
                Err(kind) => {
                    return Err(kind);
                },
            }
        },
        Some(ValueSource::Variable(index)) => {
            match resolve_variable_index(frame, index) {
                Ok(absolute) => absolute,
                Err(kind) => {
                    return Err(kind);
                },
            }
        },
        None => {
            let len = stack.len();
            match len.checked_sub(arg_count) {
                Some(above_target) => {
                    match above_target.checked_sub(1) {
                        Some(index) => {
                            if index >= frame.return_offset {
                                index
                            } else {
                                return Err(FaultKind::StackUnderflow);
                            }
                        },
                        None => {
                            return Err(FaultKind::StackUnderflow);
                        },
                    }
                },
                None => {
                    return Err(FaultKind::StackUnderflow);
                },
            }
        },
    };
    let return_offset_here = stack.len();
    let arg_offset = match return_offset_here.checked_sub(arg_count) {
        Some(offset) => offset,
        None => {
            return Err(FaultKind::StackUnderflow);
        },
    };
    if arg_offset < frame.return_offset {
        return Err(FaultKind::StackUnderflow);
    }
    let target_value = stack.take_value(stack_index);
    match target_value {
        Value::Dynamic(mut dynamic_value) => {
            let arguments = stack.pop_n(arg_count);
            let result = dynamic_value.call(name, arguments);
            if target.is_some() {
                let ghost dv = dynamic_value;
                stack.set_value(stack_index, Value::Dynamic(dynamic_value));
                proof {
                    assert(stack@ =~= old(stack)@.take(old(stack)@.len() - arg_count).update(
                        stack_index as int,
                        Value::Dynamic(dv),
                    ));
                    assert(call_instance_mid_stack(
                        old(stack)@,
                        target,
                        stack_index as int,
                        arg_count,
                        stack@,
                    ));
                }
            } else {
                match stack.pop() {
                    Ok(_) => (),
                    Err(kind) => {
                        return Err(kind);
                    },
                }
                proof {
                    assert(stack@ =~= old(stack)@.take(stack_index as int));
                    assert(call_instance_mid_stack(
                        old(stack)@,
                        target,
                        stack_index as int,
                        arg_count,
                        stack@,
                    ));
                }
            }
            let produced_value = match result {
                Ok(value) => value,
                Err(kind) => {
                    return Err(kind);
                },
            };
            let ghost mid = stack@;
            let ghost mid_remaining = stack.spec_remaining();
            let stored = store_destination(stack, frame, destination, produced_value);
            proof {
                assert(mid_remaining == call_instance_mid_remaining(
                    old(stack).spec_remaining(),
                    target,
                    arg_count,
                ));
                assert(store_post(
                    mid,
                    mid_remaining,
                    *old(frame),
                    stack@,
                    *frame,
                    destination,
                    produced_value,
                    stored,
                ));
            }
            stored
        },
        other => Err(
            FaultKind::invalid_type("@received-kind does not support function calls", other),
        ),
    }
}

/// What executing one instruction decides: continue in sequence, jump, end
/// the call with a value, or enter a nested call.
pub(crate) enum StepOutcome<D> {
    /// Continue with the next instruction.
    Next,
    /// Continue at the given instruction index.
    Jump(usize),
    /// The call ends, producing this value.
    ReturnValue(Value<D>),
    /// A nested call begins in the given frame.
    Enter(Frame<D>),
}

/// Executes a single instruction against the innermost frame.
///
/// The caller has already advanced the frame's program counter past
/// `operation`.
pub(crate) fn execute_operation<D: DynamicValue>(
    module: &Module<D>,
    stack: &mut Stack<D>,
    frame: &mut Frame<D>,
    operation: &Instruction<D>,
) -> (r: Result<StepOutcome<D>, FaultKind<D>>)
    requires
        old(stack).wf(),
        old(frame).offsets_wf(),
        old(frame).return_offset <= old(stack)@.len(),
        call_arity_ok(module.spec_vtable(), old(frame).vtable_index, *operation),
    ensures
        final(stack).wf(),
        frame_shape_preserved(*old(frame), *final(frame)),
        final(stack)@.len() >= old(frame).return_offset,
        r matches Ok(StepOutcome::Enter(nf)) ==> {
            &&& nf.offsets_wf()
            &&& nf.arg_offset >= old(frame).return_offset
            &&& nf.return_offset <= final(stack)@.len()
            &&& (nf.vtable_index matches Some(j) && j < module.spec_vtable().len())
            &&& nf.operation_index == 0
            &&& nf.vtable_index == resolved_callee(
                operation->Call_vtable_index,
                old(frame).vtable_index,
            )
            &&& final(frame).return_value == old(frame).return_value
        },
        *operation matches Instruction::Call { vtable_index, .. } ==> match resolved_callee(
            vtable_index,
            old(frame).vtable_index,
        ) {
            None => r == Err::<StepOutcome<D>, FaultKind<D>>(FaultKind::InvalidVtableIndex),
            Some(j) => j >= module.spec_vtable().len() ==> r == Err::<
                StepOutcome<D>,
                FaultKind<D>,
            >(FaultKind::InvalidVtableIndex),
        },
        *operation matches Instruction::Call { vtable_index: vi, .. } ==> (
        match resolved_callee(vi, old(frame).vtable_index) {
            Some(j) => (j < module.spec_vtable().len() && old(stack)@.len()
                - module.spec_vtable()[j as int].arg_count >= old(frame).return_offset
                && module.spec_vtable()[j as int].variable_count <= old(
                stack,
            ).spec_remaining()) ==> r matches Ok(StepOutcome::Enter(_)),
            None => true,
        }),
        *operation matches Instruction::Call { vtable_index: vi, destination: d, .. } ==> (
        match resolved_callee(vi, old(frame).vtable_index) {
            Some(j) => j < module.spec_vtable().len() ==> (r matches Ok(StepOutcome::Enter(nf))
                ==> {
                let callee = module.spec_vtable()[j as int];
                &&& nf.arg_offset == old(stack)@.len() - callee.arg_count
                &&& nf.variables_offset == old(stack)@.len()
                &&& nf.return_offset == old(stack)@.len() + callee.variable_count
                &&& nf.vtable_index == Some(j)
                &&& nf.operation_index == 0
                &&& nf.destination == d
                &&& nf.return_value is None
                &&& final(stack)@ == old(stack)@ + Seq::new(
                    callee.variable_count as nat,
                    |i: int| Value::<D>::Void,
                )
                &&& final(stack).spec_remaining() == old(stack).spec_remaining()
                    - callee.variable_count
            }),
            None => true,
        }),
        *operation matches Instruction::Push(v) ==> (if old(stack).spec_remaining() > 0 {
            r == Ok::<StepOutcome<D>, FaultKind<D>>(StepOutcome::Next) && final(stack)@ == old(
                stack,
            )@.push(v) && final(stack).spec_remaining() == old(stack).spec_remaining() - 1
        } else {
            r == Err::<StepOutcome<D>, FaultKind<D>>(FaultKind::StackOverflow)
        }) && final(frame).return_value == old(frame).return_value,
        *operation matches Instruction::PushCopy(source) ==> (match resolve_source_spec(
            *old(frame),
            source,
        ) {
            Err(kind) => r == Err::<StepOutcome<D>, FaultKind<D>>(kind),
            Ok(_) => true,
        }),
        *operation matches Instruction::JumpTo(target) ==> r == Ok::<StepOutcome<D>, FaultKind<D>>(
            StepOutcome::Jump(target),
        ) && final(stack)@ == old(stack)@,
        *operation matches Instruction::Return(None) ==> r matches Ok(StepOutcome::ReturnValue(v))
            && v == match old(frame).return_value {
            Some(value) => value,
            None => Value::<D>::Void,
        } && final(stack)@ == old(stack)@,
        *operation matches Instruction::Return(Some(ValueOrSource::Value(rv))) ==> r == Ok::<
            StepOutcome<D>,
            FaultKind<D>,
        >(StepOutcome::ReturnValue(rv)) && final(stack)@ == old(stack)@,
{
    match operation {
        Instruction::JumpTo(instruction_index) => Ok(StepOutcome::Jump(*instruction_index)),
        Instruction::Add { left, right, destination } => {
            match self::add(stack, frame, *left, right, *destination) {
                Ok(()) => Ok(StepOutcome::Next),
                Err(kind) => Err(kind),
            }
        },
        Instruction::Sub { left, right, destination } => {
            match self::sub(stack, frame, *left, right, *destination) {
                Ok(()) => Ok(StepOutcome::Next),
                Err(kind) => Err(kind),
            }
        },
        Instruction::Multiply { left, right, destination } => {
            match multiply(stack, frame, *left, right, *destination) {
                Ok(()) => Ok(StepOutcome::Next),
                Err(kind) => Err(kind),
            }
        },
        Instruction::Divide { left, right, destination } => {
            match divide(stack, frame, *left, right, *destination) {
                Ok(()) => Ok(StepOutcome::Next),
                Err(kind) => Err(kind),
            }
        },
        Instruction::If { condition, false_jump_to } => {
            match jump_if_false(stack, frame, *condition, *false_jump_to) {
                Ok(None) => Ok(StepOutcome::Next),
                Ok(Some(target)) => Ok(StepOutcome::Jump(target)),
                Err(kind) => Err(kind),
            }
        },
        Instruction::Compare { comparison, left, right, action } => {
            match compare(stack, frame, *comparison, *left, right, *action) {
                Ok(None) => Ok(StepOutcome::Next),
                Ok(Some(target)) => Ok(StepOutcome::Jump(target)),
                Err(kind) => Err(kind),
            }
        },
        Instruction::Push(value) => {
            match stack.push(value.clone()) {
                Ok(()) => Ok(StepOutcome::Next),
                Err(kind) => Err(kind),
            }
        },
        Instruction::PushCopy(ValueSource::Variable(variable)) => {
            match push_var(stack, frame, *variable) {
                Ok(()) => Ok(StepOutcome::Next),
                Err(kind) => Err(kind),
            }
        },
        Instruction::PushCopy(ValueSource::Argument(arg_index)) => {
            match push_arg(stack, frame, *arg_index) {
                Ok(()) => Ok(StepOutcome::Next),
                Err(kind) => Err(kind),
            }
        },
        Instruction::PopAndDrop => {
            match frame_pop(stack, frame) {
                Ok(_) => Ok(StepOutcome::Next),
                Err(kind) => Err(kind),
            }
        },
        Instruction::Return(value) => {
            let returned = match value {
                Some(ValueOrSource::Value(v)) => v.clone(),
                Some(ValueOrSource::Variable(source)) => {
                    match resolve_value_source(stack, frame, ValueSource::Variable(*source)) {
                        Ok(v) => v.clone(),
                        Err(kind) => {
                            return Err(kind);
                        },
                    }
                },
                Some(ValueOrSource::Argument(source)) => {
                    match resolve_value_source(stack, frame, ValueSource::Argument(*source)) {
                        Ok(v) => v.clone(),
                        Err(kind) => {
                            return Err(kind);
                        },
                    }
                },
                None => {
                    match frame.return_value.take() {
                        Some(v) => v,
                        None => Value::Void,
                    }
                },
            };
            Ok(StepOutcome::ReturnValue(returned))
        },
        Instruction::Load { variable_index, value } => {
            match load(stack, frame, *variable_index, value) {
                Ok(()) => Ok(StepOutcome::Next),
                Err(kind) => Err(kind),
            }
        },
        Instruction::Call { vtable_index, arg_count, destination } => {
            match execute_call(module, stack, frame, *vtable_index, *arg_count, *destination) {
                Ok(new_frame) => Ok(StepOutcome::Enter(new_frame)),
                Err(kind) => Err(kind),
            }
        },
        Instruction::CallInstance { target, name, arg_count, destination } => {
            match call_instance(stack, frame, *target, name, *arg_count, *destination) {
                Ok(()) => Ok(StepOutcome::Next),
                Err(kind) => Err(kind),
            }
        },
    }
}

/// The well-formedness of a captured continuation's frame descriptors,
/// ordered innermost first: the mirror of [`frames_wf`].
pub open spec fn paused_frames_wf<D>(
    vtable: Seq<Function<D>>,
    frames: Seq<PausedFrame>,
    stack_len: int,
) -> bool {
    &&& frames.len() >= 1
    &&& forall|i: int|
        0 <= i < frames.len() ==> (#[trigger] frames[i]).arg_offset <= frames[i].variables_offset
            <= frames[i].return_offset
    &&& forall|i: int|
        0 <= i < frames.len() - 1 ==> ((#[trigger] frames[i]).vtable_index matches Some(j) && j
            < vtable.len())
    &&& frames.last().vtable_index is None
    &&& forall|i: int| 1 <= i < frames.len() ==> (#[trigger] frames[i]).operation_index >= 1
    &&& forall|i: int|
        0 <= i < frames.len() - 1 ==> (#[trigger] frames[i + 1]).return_offset <= frames[
            i
        ].arg_offset
    &&& frames[0].return_offset <= stack_len
}

/// Builds the stack trace of a fault or pause that is unwinding: one entry
/// per active frame, innermost first. The innermost entry carries
/// `innermost_instruction`; each outer frame's entry points at the call
/// instruction it is blocked in.
pub(crate) fn unwind_trace<D: DynamicValue>(
    frames: &Vec<Frame<D>>,
    innermost_instruction: usize,
) -> (r: Vec<FaultStackFrame>)
    requires
        frames@.len() >= 1,
        forall|i: int| 0 <= i < frames@.len() - 1 ==> (#[trigger] frames@[i]).operation_index >= 1,
    ensures
        r@.len() == frames@.len(),
        r@[0] == (FaultStackFrame {
            vtable_index: frames@.last().vtable_index,
            instruction_index: innermost_instruction,
        }),
        forall|k: int|
            1 <= k < r@.len() ==> r@[k] == (FaultStackFrame {
                vtable_index: frames@[frames@.len() - 1 - k].vtable_index,
                instruction_index: (frames@[frames@.len() - 1 - k].operation_index - 1) as usize,
            }),
{
    let mut trace: Vec<FaultStackFrame> = Vec::new();
    let innermost = frames.len() - 1;
    trace.push(
        FaultStackFrame {
            vtable_index: frames[innermost].vtable_index,
            instruction_index: innermost_instruction,
        },
    );
    let mut index = innermost;
    while index > 0
        invariant
            frames@.len() >= 1,
            forall|i: int|
                0 <= i < frames@.len() - 1 ==> (#[trigger] frames@[i]).operation_index >= 1,
            index <= innermost,
            innermost == frames@.len() - 1,
            trace@.len() == innermost - index + 1,
            trace@[0] == (FaultStackFrame {
                vtable_index: frames@.last().vtable_index,
                instruction_index: innermost_instruction,
            }),
            forall|k: int|
                1 <= k < trace@.len() ==> trace@[k] == (FaultStackFrame {
                    vtable_index: frames@[frames@.len() - 1 - k].vtable_index,
                    instruction_index: (frames@[frames@.len() - 1 - k].operation_index
                        - 1) as usize,
                }),
        decreases index,
    {
        index = index - 1;
        trace.push(
            FaultStackFrame {
                vtable_index: frames[index].vtable_index,
                instruction_index: frames[index].operation_index - 1,
            },
        );
    }
    trace
}

/// Captures the active call chain as continuation descriptors, innermost
/// first.
pub(crate) fn capture_frames<D: DynamicValue>(frames: &Vec<Frame<D>>) -> (r: Vec<PausedFrame>)
    requires
        frames@.len() >= 1,
    ensures
        r@.len() == frames@.len(),
        forall|k: int|
            0 <= k < r@.len() ==> r@[k] == frames@[frames@.len() - 1 - k].spec_descriptor(),
{
    let mut captured: Vec<PausedFrame> = Vec::new();
    let mut index = frames.len();
    while index > 0
        invariant
            index <= frames@.len(),
            captured@.len() == frames@.len() - index,
            forall|k: int|
                0 <= k < captured@.len() ==> captured@[k] == frames@[frames@.len() - 1
                    - k].spec_descriptor(),
        decreases index,
    {
        index = index - 1;
        let frame = &frames[index];
        captured.push(
            PausedFrame {
                return_offset: frame.return_offset,
                arg_offset: frame.arg_offset,
                variables_offset: frame.variables_offset,
                vtable_index: frame.vtable_index,
                operation_index: frame.operation_index,
                destination: frame.destination,
            },
        );
    }
    captured
}

/// Rebuilds the active call chain from continuation descriptors, outermost
/// frame first and every return register empty.
pub(crate) fn restore_frames<D: DynamicValue>(paused: &Vec<PausedFrame>) -> (r: Vec<Frame<D>>)
    ensures
        r@.len() == paused@.len(),
        forall|i: int|
            0 <= i < r@.len() ==> (#[trigger] r@[i]).spec_descriptor() == paused@[paused@.len() - 1
                - i] && r@[i].return_value is None,
{
    let mut frames: Vec<Frame<D>> = Vec::new();
    let mut index = paused.len();
    while index > 0
        invariant
            index <= paused@.len(),
            frames@.len() == paused@.len() - index,
            forall|i: int|
                0 <= i < frames@.len() ==> (#[trigger] frames@[i]).spec_descriptor() == paused@[
                    paused@.len() - 1 - i
                ] && frames@[i].return_value is None,
        decreases index,
    {
        index = index - 1;
        let descriptor = &paused[index];
        frames.push(
            Frame {
                return_offset: descriptor.return_offset,
                variables_offset: descriptor.variables_offset,
                arg_offset: descriptor.arg_offset,
                vtable_index: descriptor.vtable_index,
                operation_index: descriptor.operation_index,
                destination: descriptor.destination,
                return_value: None,
            },
        );
    }
    frames
}

/// The largest number of instruction dispatches one engine entry performs
/// before it pauses on its own. Resuming grants a fresh allowance, so a
/// paused execution can always be driven to completion.
pub const RUN_STEP_LIMIT: u64 = u64::MAX;

/// Captures the whole active call chain as a pause: the continuation that
/// can later resume it, together with the trace of where each frame stood.
pub(crate) fn build_pause<D: DynamicValue>(
    module: &Module<D>,
    operations: Vec<Instruction<D>>,
    frames: &Vec<Frame<D>>,
    stack_len: usize,
) -> (f: Fault<D>)
    requires
        frames_wf(module.spec_vtable(), frames@, stack_len as int),
    ensures
        f.kind matches FaultOrPause::Pause(pe) && paused_frames_wf(
            module.spec_vtable(),
            pe.spec_frames(),
            stack_len as int,
        ) && pe.spec_operations() == operations@ && pe.spec_frames().len() == frames@.len()
            && (forall|k: int|
            0 <= k < frames@.len() ==> pe.spec_frames()[k] == frames@[frames@.len() - 1
                - k].spec_descriptor()),
{
    let depth = frames.len() - 1;
    let trace = unwind_trace(frames, frames[depth].operation_index);
    let captured = capture_frames(frames);
    proof {
        assert forall|i: int| 0 <= i < captured@.len() - 1 implies ((#[trigger] captured@[
        i]).vtable_index matches Some(j) && j < module.spec_vtable().len()) by {
            assert(captured@[i] == frames@[frames@.len() - 1 - i].spec_descriptor());
        }
        assert forall|i: int| 1 <= i < captured@.len() implies (#[trigger] captured@[
        i]).operation_index >= 1 by {
            assert(captured@[i] == frames@[frames@.len() - 1 - i].spec_descriptor());
        }
        assert forall|i: int| 0 <= i < captured@.len() implies (#[trigger] captured@[
        i]).arg_offset <= captured@[i].variables_offset <= captured@[i].return_offset by {
            assert(captured@[i] == frames@[frames@.len() - 1 - i].spec_descriptor());
        }
        assert forall|i: int| 0 <= i < captured@.len() - 1 implies (#[trigger] captured@[i
            + 1]).return_offset <= captured@[i].arg_offset by {
            let n = frames@.len();
            assert(captured@[i + 1] == frames@[n - 2 - i].spec_descriptor());
            assert(captured@[i] == frames@[n - 1 - i].spec_descriptor());
            assert(frames@[n - 2 - i].return_offset <= frames@[(n - 2 - i) + 1].arg_offset);
        }
        assert(captured@.last() == frames@[0].spec_descriptor());
        assert(captured@[0] == frames@[frames@.len() - 1].spec_descriptor());
    }
    Fault {
        kind: FaultOrPause::Pause(PausedExecution { operations, frames: captured }),
        stack: trace,
    }
}

/// The fault an out-of-window value source raises: variables and arguments
/// carry distinct kinds.
pub open spec fn source_fault_kind<D>(source: ValueSource) -> FaultKind<D> {
    match source {
        ValueSource::Argument(_) => FaultKind::InvalidArgumentIndex,
        ValueSource::Variable(_) => FaultKind::InvalidVariableIndex,
    }
}

/// The instruction sequence the innermost frame is executing: the root
/// sequence for the outermost frame, the registered function's code for any
/// called frame.
pub(crate) open spec fn current_code<D>(
    vtable: Seq<Function<D>>,
    operations: Seq<Instruction<D>>,
    frames: Seq<Frame<D>>,
) -> Seq<Instruction<D>> {
    if frames.len() == 1 {
        operations
    } else {
        vtable[frames.last().vtable_index->0 as int].code@
    }
}

/// The value an implicit return produces: the frame's return register if it
/// was set, else the value in the frame's return slot if the stack reaches
/// it, else `Void`.
pub(crate) open spec fn implicit_return_value<D>(stack: Seq<Value<D>>, frame: Frame<D>) -> Value<
    D,
> {
    match frame.return_value {
        Some(v) => v,
        None => {
            if frame.return_offset < stack.len() {
                stack[frame.return_offset as int]
            } else {
                Value::Void
            }
        },
    }
}

/// Fetches and executes the innermost frame's next instruction, or produces
/// its implicit return when the program counter has run off the end of its
/// code.
#[verifier::rlimit(100)]
#[verifier::spinoff_prover]
pub(crate) fn step_once<D: DynamicValue>(
    module: &Module<D>,
    stack: &mut Stack<D>,
    operations: &Vec<Instruction<D>>,
    frames: &mut Vec<Frame<D>>,
) -> (r: Result<StepOutcome<D>, FaultKind<D>>)
    requires
        old(stack).wf(),
        module_arities_ok(module.spec_vtable()),
        code_arities_ok(module.spec_vtable(), None, operations@),
        frames_wf(module.spec_vtable(), old(frames)@, old(stack)@.len() as int),
    ensures
        final(stack).wf(),
        final(frames)@.len() == old(frames)@.len(),
        frames_wf(module.spec_vtable(), final(frames)@, final(stack)@.len() as int),
        forall|i: int| 0 <= i < old(frames)@.len() - 1 ==> final(frames)@[i] == old(frames)@[i],
        frame_window_eq(old(frames)@.last(), final(frames)@.last()),
        old(frames)@.last().operation_index < current_code(
            module.spec_vtable(),
            operations@,
            old(frames)@,
        ).len() ==> final(frames)@.last().operation_index == old(frames)@.last().operation_index
            + 1,
        old(frames)@.last().operation_index >= current_code(
            module.spec_vtable(),
            operations@,
            old(frames)@,
        ).len() ==> final(frames)@.last().operation_index == old(
            frames,
        )@.last().operation_index && final(frames)@.last().return_value is None,
        r is Err ==> final(frames)@.last().operation_index >= 1,
        r matches Ok(StepOutcome::Enter(nf)) ==> {
            &&& nf.offsets_wf()
            &&& final(frames)@.last().return_offset <= nf.arg_offset
            &&& nf.return_offset <= final(stack)@.len()
            &&& (nf.vtable_index matches Some(j) && j < module.spec_vtable().len())
            &&& final(frames)@.last().operation_index >= 1
            &&& final(frames)@.last().return_value == old(frames)@.last().return_value
        },
        r matches Ok(StepOutcome::ReturnValue(v)) ==> final(stack)@.len() >= final(frames)@.last().return_offset,
        old(frames)@.last().operation_index >= current_code(
            module.spec_vtable(),
            operations@,
            old(frames)@,
        ).len() ==> r == Ok::<StepOutcome<D>, FaultKind<D>>(
            StepOutcome::ReturnValue(implicit_return_value(old(stack)@, old(frames)@.last())),
        ) && final(stack)@.len() == old(stack)@.len() && final(stack).spec_remaining() == old(
            stack,
        ).spec_remaining() && (final(stack)@ == old(stack)@ || final(stack)@ == old(
            stack,
        )@.update(old(frames)@.last().return_offset as int, Value::<D>::Void)),
        (old(frames)@.len() == 1 && old(frames)@[0].operation_index == 0 && operations@.len()
            == 1) ==> (operations@[0] matches Instruction::Return(Some(ValueOrSource::Value(v)))
            ==> r == Ok::<StepOutcome<D>, FaultKind<D>>(StepOutcome::ReturnValue(v))),
        old(frames)@.last().operation_index < current_code(
            module.spec_vtable(),
            operations@,
            old(frames)@,
        ).len() ==> (current_code(module.spec_vtable(), operations@, old(frames)@)[old(
            frames,
        )@.last().operation_index as int] matches Instruction::Push(v) ==> (if old(
            stack,
        ).spec_remaining() > 0 {
            r == Ok::<StepOutcome<D>, FaultKind<D>>(StepOutcome::Next) && final(stack)@ == old(
                stack,
            )@.push(v) && final(stack).spec_remaining() == old(stack).spec_remaining() - 1
        } else {
            r == Err::<StepOutcome<D>, FaultKind<D>>(FaultKind::StackOverflow)
        }) && final(frames)@.last().return_value == old(frames)@.last().return_value),
        old(frames)@.last().operation_index < current_code(
            module.spec_vtable(),
            operations@,
            old(frames)@,
        ).len() ==> (current_code(module.spec_vtable(), operations@, old(frames)@)[old(
            frames,
        )@.last().operation_index as int] matches Instruction::PushCopy(source) ==> (
        match resolve_source_spec(old(frames)@.last(), source) {
            Err(kind) => r == Err::<StepOutcome<D>, FaultKind<D>>(kind),
            Ok(_) => true,
        })),
        old(frames)@.last().operation_index < current_code(
            module.spec_vtable(),
            operations@,
            old(frames)@,
        ).len() ==> (current_code(module.spec_vtable(), operations@, old(frames)@)[old(
            frames,
        )@.last().operation_index as int] matches Instruction::Call { vtable_index: vi, .. } ==> (
        match resolved_callee(vi, old(frames)@.last().vtable_index) {
            Some(j) => j >= module.spec_vtable().len() ==> r == Err::<
                StepOutcome<D>,
                FaultKind<D>,
            >(FaultKind::InvalidVtableIndex),
            None => r == Err::<StepOutcome<D>, FaultKind<D>>(FaultKind::InvalidVtableIndex),
        })),
        old(frames)@.last().operation_index < current_code(
            module.spec_vtable(),
            operations@,
            old(frames)@,
        ).len() ==> (current_code(module.spec_vtable(), operations@, old(frames)@)[old(
            frames,
        )@.last().operation_index as int] matches Instruction::Call { vtable_index: vi, .. }
            ==> (match resolved_callee(vi, old(frames)@.last().vtable_index) {
            Some(j) => (j < module.spec_vtable().len() && old(stack)@.len()
                - module.spec_vtable()[j as int].arg_count >= old(
                frames,
            )@.last().return_offset && module.spec_vtable()[j as int].variable_count <= old(
                stack,
            ).spec_remaining()) ==> r matches Ok(StepOutcome::Enter(_)),
            None => true,
        })),
        old(frames)@.last().operation_index < current_code(
            module.spec_vtable(),
            operations@,
            old(frames)@,
        ).len() ==> (current_code(module.spec_vtable(), operations@, old(frames)@)[old(
            frames,
        )@.last().operation_index as int] matches Instruction::Call {
            vtable_index: vi,
            destination: d,
            ..
        } ==> (match resolved_callee(vi, old(frames)@.last().vtable_index) {
            Some(j) => j < module.spec_vtable().len() ==> (r matches Ok(StepOutcome::Enter(nf))
                ==> {
                let callee = module.spec_vtable()[j as int];
                &&& nf.arg_offset == old(stack)@.len() - callee.arg_count
                &&& nf.variables_offset == old(stack)@.len()
                &&& nf.return_offset == old(stack)@.len() + callee.variable_count
                &&& nf.vtable_index == Some(j)
                &&& nf.operation_index == 0
                &&& nf.destination == d
                &&& nf.return_value is None
                &&& final(stack)@ == old(stack)@ + Seq::new(
                    callee.variable_count as nat,
                    |i: int| Value::<D>::Void,
                )
                &&& final(stack).spec_remaining() == old(stack).spec_remaining()
                    - callee.variable_count
            }),
            None => true,
        })),
{
    let depth = frames.len() - 1;
    let frame_op_index = frames[depth].operation_index;
    let frame_vt = frames[depth].vtable_index;
    let code: &Vec<Instruction<D>> = if depth == 0 {
        &operations
    } else {
        let j = match frame_vt {
            Some(j) => j,
            None => {
                proof {
                    assert(false);
                }
                unreached()
            },
        };
        match module.function_at(j) {
            Some(f) => &f.code,
            None => {
                proof {
                    assert(false);
                }
                unreached()
            },
        }
    };
    if frame_op_index >= code.len() {
        let taken = frames[depth].return_value.take();
        let value = match taken {
            Some(v) => v,
            None => {
                let return_offset = frames[depth].return_offset;
                if return_offset < stack.len() {
                    stack.take_value(return_offset)
                } else {
                    Value::Void
                }
            },
        };
        proof {
            assert(final(frames)@ =~= old(frames)@.update(
                depth as int,
                final(frames)@[depth as int],
            ));
        }
        Ok(StepOutcome::ReturnValue(value))
    } else {
        let operation = &code[frame_op_index];
        proof {
            if depth == 0 {
                assert(call_arity_ok(
                    module.spec_vtable(),
                    None,
                    operations@[frame_op_index as int],
                ));
            } else {
                let j = old(frames)@[depth as int].vtable_index->0;
                assert(code_arities_ok(
                    module.spec_vtable(),
                    Some(j),
                    module.spec_vtable()[j as int].code@,
                ));
                assert(call_arity_ok(
                    module.spec_vtable(),
                    Some(j),
                    module.spec_vtable()[j as int].code@[frame_op_index as int],
                ));
            }
        }
        frames[depth].operation_index = frame_op_index + 1;
        let result = execute_operation(module, stack, &mut frames[depth], operation);
        proof {
            assert(final(frames)@ =~= old(frames)@.update(
                depth as int,
                final(frames)@[depth as int],
            ));
        }
        result
    }
}

/// Finishes the innermost call: pops its frame, and either hands the value
/// out (for the outermost call) or collapses the call's stack region and
/// delivers the value into the caller. A fault while delivering carries the
/// trace of the remaining frames.
#[verifier::rlimit(60)]
#[verifier::spinoff_prover]
pub(crate) fn deliver_return<D: DynamicValue>(
    module: &Module<D>,
    stack: &mut Stack<D>,
    frames: &mut Vec<Frame<D>>,
    value: Value<D>,
) -> (r: Result<Option<Value<D>>, Fault<D>>)
    requires
        old(stack).wf(),
        frames_wf(module.spec_vtable(), old(frames)@, old(stack)@.len() as int),
    ensures
        final(stack).wf(),
        r matches Ok(Some(v)) ==> v == value && old(frames)@.len() == 1,
        old(frames)@.len() == 1 ==> r == Ok::<Option<Value<D>>, Fault<D>>(Some(value)),
        r matches Ok(None) ==> final(frames)@.len() == old(frames)@.len() - 1 && frames_wf(
            module.spec_vtable(),
            final(frames)@,
            final(stack)@.len() as int,
        ) && frame_shape_preserved(
            old(frames)@[old(frames)@.len() - 2],
            final(frames)@.last(),
        ) && (forall|i: int|
            0 <= i < old(frames)@.len() - 2 ==> final(frames)@[i] == old(frames)@[i])
            && store_post(
            old(stack)@.take(old(frames)@.last().arg_offset as int),
            (old(stack).spec_remaining() + old(stack)@.len() - old(
                frames,
            )@.last().arg_offset) as usize,
            old(frames)@[old(frames)@.len() - 2],
            final(stack)@,
            final(frames)@.last(),
            old(frames)@.last().destination,
            value,
            Ok(()),
        ),
        r matches Err(f) ==> f.kind is Fault && f.stack@.len() >= 1
            && f.stack@.last().vtable_index is None && (forall|k: int|
            0 <= k < f.stack@.len() - 1 ==> ((#[trigger] f.stack@[k]).vtable_index matches Some(j)
                && j < module.spec_vtable().len())),
        (old(frames)@.len() >= 2 && old(frames)@.last().destination is Return) ==> r matches Ok(
            None,
        ),
        (old(frames)@.len() >= 2 && old(frames)@.last().destination is Stack && old(
            stack,
        ).spec_remaining() + old(stack)@.len() - old(frames)@.last().arg_offset > 0)
            ==> r matches Ok(None),
{
    let finished = match frames.pop() {
        Some(f) => f,
        None => {
            proof {
                assert(false);
            }
            unreached()
        },
    };
    if frames.len() == 0 {
        return Ok(Some(value));
    }
    let parent_depth = frames.len() - 1;
    proof {
        assert(old(frames)@[parent_depth as int].return_offset <= old(frames)@[parent_depth
            + 1].arg_offset);
    }
    let cleanup = clean_stack_after_call(
        stack,
        &mut frames[parent_depth],
        finished.arg_offset,
        finished.destination,
        value,
    );
    proof {
        assert(frames@ =~= old(frames)@.drop_last().update(
            parent_depth as int,
            frames@[parent_depth as int],
        ));
    }
    match cleanup {
        Ok(()) => Ok(None),
        Err(kind) => {
            let instruction_index = frames[parent_depth].operation_index - 1;
            let trace = unwind_trace(&frames, instruction_index);
            Err(Fault { kind: FaultOrPause::Fault(kind), stack: trace })
        },
    }
}

/// The shape of a run whose single instruction calls a function that leaves
/// excess values behind: the callee at `j` takes no arguments, declares no
/// variables, and its body pushes exactly two values. Such a call returns
/// the value in the callee's designated return slot, the first push, and
/// discards the excess.
pub open spec fn lone_cleanup_call<D>(
    vtable: Seq<Function<D>>,
    operations: Seq<Instruction<D>>,
    j: usize,
) -> bool {
    &&& operations.len() == 1
    &&& operations[0] == (Instruction::Call::<D> {
        vtable_index: Some(j),
        arg_count: 0usize,
        destination: Destination::Stack,
    })
    &&& j < vtable.len()
    &&& vtable[j as int].arg_count == 0
    &&& vtable[j as int].variable_count == 0
    &&& vtable[j as int].code@.len() == 2
    &&& vtable[j as int].code@[0] is Push
    &&& vtable[j as int].code@[1] is Push
}

/// Runs the active call chain until the outermost call returns a value, a
/// fault unwinds out of it, or execution pauses.
///
/// Pauses come from the environment's per-instruction decision, or from the
/// engine's own step allowance running out; either way the whole chain is
/// captured in the returned continuation.
#[verifier::rlimit(100)]
#[verifier::spinoff_prover]
pub(crate) fn run_frames<D: DynamicValue, Env: Environment>(
    module: &Module<D>,
    stack: &mut Stack<D>,
    environment: &mut Env,
    operations: Vec<Instruction<D>>,
    frames_in: Vec<Frame<D>>,
) -> (r: Result<Value<D>, Fault<D>>)
    requires
        old(stack).wf(),
        module_arities_ok(module.spec_vtable()),
        code_arities_ok(module.spec_vtable(), None, operations@),
        frames_wf(module.spec_vtable(), frames_in@, old(stack)@.len() as int),
    ensures
        final(stack).wf(),
        r matches Err(f) ==> (f.kind is Fault ==> (f.stack@.len() >= 1
            && f.stack@.last().vtable_index is None && (forall|k: int|
            0 <= k < f.stack@.len() - 1 ==> ((#[trigger] f.stack@[k]).vtable_index matches Some(j)
                && j < module.spec_vtable().len())))),
        r matches Err(f) ==> f.kind matches FaultOrPause::Pause(pe) ==> paused_frames_wf(
            module.spec_vtable(),
            pe.spec_frames(),
            final(stack)@.len() as int,
        ) && pe.spec_operations() == operations@ && pe.spec_frames().len() >= 1
            && pe.spec_frames().last().return_offset == frames_in@[0].return_offset
            && pe.spec_frames().last().variables_offset == frames_in@[0].variables_offset
            && pe.spec_frames().last().arg_offset == frames_in@[0].arg_offset
            && pe.spec_frames().last().vtable_index == frames_in@[0].vtable_index
            && pe.spec_frames().last().destination == frames_in@[0].destination,
        (operations@.len() == 0 && frames_in@.len() == 1 && frames_in@[0].return_value is None
            && frames_in@[0].return_offset >= old(stack)@.len()) ==> (r is Ok ==> r == Ok::<
            Value<D>,
            Fault<D>,
        >(Value::Void)),
        (operations@.len() == 0 && frames_in@.len() == 1 && frames_in@[0].return_value is None
            && frames_in@[0].return_offset >= old(stack)@.len() && !old(
            environment,
        ).spec_may_pause()) ==> r == Ok::<Value<D>, Fault<D>>(Value::Void),
        (frames_in@.len() == 1 && frames_in@[0].operation_index == 0 && operations@.len() == 1)
            ==> (operations@[0] matches Instruction::Return(Some(ValueOrSource::Value(v))) ==> (r
            is Ok ==> r == Ok::<Value<D>, Fault<D>>(v))),
        (frames_in@.len() == 1 && frames_in@[0].operation_index == 0 && operations@.len() == 1)
            ==> (operations@[0] matches Instruction::Call { vtable_index: vi, .. } ==> ((
            match resolved_callee(vi, frames_in@[0].vtable_index) {
                Some(j) => j >= module.spec_vtable().len(),
                None => true,
            }) ==> (r matches Err(f) && (f.kind is Pause || f.kind == FaultOrPause::Fault(
                FaultKind::<D>::InvalidVtableIndex,
            ))))),
        (frames_in@.len() == 1 && frames_in@[0].operation_index == 0 && operations@.len() == 1)
            ==> (operations@[0] matches Instruction::Call { vtable_index: Some(j), .. } ==> ((j
            < module.spec_vtable().len() && module.spec_vtable()[j as int].arg_count == 0
            && module.spec_vtable()[j as int].variable_count == 0 && module.spec_vtable()[
            j as int
        ].code@.len() == 1) ==> (module.spec_vtable()[j as int].code@[0]
            matches Instruction::PushCopy(source) ==> (r matches Err(f) && (f.kind is Pause
            || f.kind == FaultOrPause::Fault(source_fault_kind::<D>(source))))))),
        (frames_in@.len() == 1 && frames_in@[0].operation_index == 0 && frames_in@[0].return_value
            is None && operations@.len() == 1) ==> (operations@[0] matches Instruction::Call {
            vtable_index: Some(j),
            arg_count: n,
            destination: Destination::Return,
        } ==> ((j < module.spec_vtable().len() && module.spec_vtable()[j as int].arg_count == n
            && module.spec_vtable()[j as int].variable_count == 0 && module.spec_vtable()[
            j as int
        ].code@.len() == 0 && frames_in@[0].return_offset + n <= old(stack)@.len()) ==> (r is Ok
            ==> r == Ok::<Value<D>, Fault<D>>(Value::Void)))),
        (frames_in@.len() == 1 && frames_in@[0].operation_index == 0 && operations@.len() == 1
            && !old(environment).spec_may_pause()) ==> (operations@[0] matches Instruction::Call {
            vtable_index: vi,
            ..
        } ==> ((match resolved_callee(vi, frames_in@[0].vtable_index) {
            Some(j) => j >= module.spec_vtable().len(),
            None => true,
        }) ==> (r matches Err(f) && f.kind == FaultOrPause::Fault(
            FaultKind::<D>::InvalidVtableIndex,
        ) && f.stack@.len() == 1 && f.stack@[0] == (FaultStackFrame {
            vtable_index: frames_in@[0].vtable_index,
            instruction_index: 0usize,
        })))),
        (frames_in@.len() == 1 && frames_in@[0].operation_index == 0 && operations@.len() == 1
            && !old(environment).spec_may_pause()) ==> (operations@[0] matches Instruction::Call {
            vtable_index: Some(j),
            ..
        } ==> ((j < module.spec_vtable().len() && module.spec_vtable()[j as int].arg_count == 0
            && module.spec_vtable()[j as int].variable_count == 0 && module.spec_vtable()[
            j as int
        ].code@.len() == 1) ==> (module.spec_vtable()[j as int].code@[0]
            matches Instruction::PushCopy(source) ==> (r matches Err(f) && f.kind
            == FaultOrPause::Fault(source_fault_kind::<D>(source)) && f.stack@.len() == 2
            && f.stack@[0] == (FaultStackFrame {
            vtable_index: Some(j),
            instruction_index: 0usize,
        }) && f.stack@[1] == (FaultStackFrame {
            vtable_index: frames_in@[0].vtable_index,
            instruction_index: 0usize,
        }))))),
        (frames_in@.len() == 1 && frames_in@[0].operation_index == 0 && frames_in@[0].return_value
            is None && operations@.len() == 1 && !old(environment).spec_may_pause()) ==> (
        operations@[0] matches Instruction::Call {
            vtable_index: Some(j),
            arg_count: n,
            destination: Destination::Return,
        } ==> ((j < module.spec_vtable().len() && module.spec_vtable()[j as int].arg_count == n
            && module.spec_vtable()[j as int].variable_count == 0 && module.spec_vtable()[
            j as int
        ].code@.len() == 0 && frames_in@[0].return_offset + n <= old(stack)@.len()) ==> r == Ok::<
            Value<D>,
            Fault<D>,
        >(Value::Void))),
        (frames_in@.len() == 1 && frames_in@[0].operation_index == 0 && frames_in@[0].return_value
            is None && frames_in@[0].return_offset == old(stack)@.len() && old(
            stack,
        ).spec_remaining() >= 2 && !old(environment).spec_may_pause()) ==> (forall|j: usize|
            #[trigger] lone_cleanup_call(module.spec_vtable(), operations@, j) ==> r == Ok::<
                Value<D>,
                Fault<D>,
            >(module.spec_vtable()[j as int].code@[0]->Push_0)),
{
    let mut frames = frames_in;
    let mut fuel: u64 = RUN_STEP_LIMIT;
    loop
        invariant
            stack.wf(),
            module_arities_ok(module.spec_vtable()),
            code_arities_ok(module.spec_vtable(), None, operations@),
            frames@.len() >= 1,
            frames_wf(module.spec_vtable(), frames@, stack@.len() as int),
            frame_window_eq(frames@[0], frames_in@[0]),
            (operations@.len() == 0 && frames_in@.len() == 1 && frames_in@[0].return_value is None
                && frames_in@[0].return_offset >= old(stack)@.len()) ==> (frames@ == frames_in@
                && stack@ == old(stack)@),
            (frames_in@.len() == 1 && frames_in@[0].operation_index == 0 && operations@.len()
                == 1 && operations@[0] matches Instruction::Return(
                Some(ValueOrSource::Value(_)),
            )) ==> frames@ == frames_in@,
            (frames_in@.len() == 1 && frames_in@[0].operation_index == 0 && operations@.len()
                == 1) ==> (operations@[0] matches Instruction::Call { vtable_index: vi, .. }
                ==> ((match resolved_callee(vi, frames_in@[0].vtable_index) {
                Some(j) => j >= module.spec_vtable().len(),
                None => true,
            }) ==> frames@ == frames_in@)),
            (frames_in@.len() == 1 && frames_in@[0].operation_index == 0 && operations@.len()
                == 1) ==> (operations@[0] matches Instruction::Call { vtable_index: Some(j), .. }
                ==> ((j < module.spec_vtable().len() && module.spec_vtable()[
                j as int
            ].arg_count == 0 && module.spec_vtable()[j as int].variable_count == 0
                && module.spec_vtable()[j as int].code@.len() == 1 && module.spec_vtable()[
                j as int
            ].code@[0] is PushCopy) ==> (frames@ == frames_in@ || (frames@.len() == 2 && frames@[
                1
            ].arg_offset == frames@[1].return_offset && frames@[1].variables_offset == frames@[
                1
            ].return_offset && frames@[1].vtable_index == Some(j) && frames@[1].operation_index
                == 0 && frames@[1].return_value is None)))),
            (frames_in@.len() == 1 && frames_in@[0].operation_index == 0 && frames_in@[
                0
            ].return_value is None && operations@.len() == 1) ==> (operations@[0]
                matches Instruction::Call {
                vtable_index: Some(j),
                arg_count: n,
                destination: Destination::Return,
            } ==> ((j < module.spec_vtable().len() && module.spec_vtable()[j as int].arg_count
                == n && module.spec_vtable()[j as int].variable_count == 0
                && module.spec_vtable()[j as int].code@.len() == 0 && frames_in@[
                0
            ].return_offset + n <= old(stack)@.len()) ==> ((frames@ == frames_in@ && stack@.len()
                == old(stack)@.len()) || (frames@.len() == 2 && frames@[1].return_offset
                == stack@.len() && frames@[1].vtable_index == Some(j) && frames@[
                1
            ].operation_index == 0 && frames@[1].destination is Return && frames@[
                1
            ].return_value is None) || (frames@.len() == 1 && frames@[0].operation_index >= 1
                && frames@[0].return_value == Some(Value::<D>::Void))))),
            !old(environment).spec_may_pause() ==> !environment.spec_may_pause(),
            (operations@.len() == 0 && frames_in@.len() == 1 && frames_in@[0].return_value is None
                && frames_in@[0].return_offset >= old(stack)@.len() && !old(
                environment,
            ).spec_may_pause()) ==> fuel == RUN_STEP_LIMIT,
            (frames_in@.len() == 1 && frames_in@[0].operation_index == 0 && operations@.len()
                == 1 && !old(environment).spec_may_pause()) ==> (operations@[0]
                matches Instruction::Call { vtable_index: vi, .. } ==> ((match resolved_callee(
                vi,
                frames_in@[0].vtable_index,
            ) {
                Some(j) => j >= module.spec_vtable().len(),
                None => true,
            }) ==> fuel == RUN_STEP_LIMIT)),
            (frames_in@.len() == 1 && frames_in@[0].operation_index == 0 && operations@.len()
                == 1 && !old(environment).spec_may_pause()) ==> (operations@[0]
                matches Instruction::Call { vtable_index: Some(j), .. } ==> ((j
                < module.spec_vtable().len() && module.spec_vtable()[j as int].arg_count == 0
                && module.spec_vtable()[j as int].variable_count == 0 && module.spec_vtable()[
                j as int
            ].code@.len() == 1 && module.spec_vtable()[j as int].code@[0] is PushCopy) ==> ((
            frames@ == frames_in@ && fuel == RUN_STEP_LIMIT) || (frames@.len() == 2 && frames@[
                0
            ].operation_index == 1 && fuel == RUN_STEP_LIMIT - 1)))),
            (frames_in@.len() == 1 && frames_in@[0].operation_index == 0 && frames_in@[
                0
            ].return_value is None && operations@.len() == 1 && !old(
                environment,
            ).spec_may_pause()) ==> (operations@[0] matches Instruction::Call {
                vtable_index: Some(j),
                arg_count: n,
                destination: Destination::Return,
            } ==> ((j < module.spec_vtable().len() && module.spec_vtable()[j as int].arg_count
                == n && module.spec_vtable()[j as int].variable_count == 0
                && module.spec_vtable()[j as int].code@.len() == 0 && frames_in@[
                0
            ].return_offset + n <= old(stack)@.len()) ==> ((frames@ == frames_in@ && fuel
                == RUN_STEP_LIMIT) || (frames@.len() == 2 && fuel == RUN_STEP_LIMIT - 1) || (
            frames@.len() == 1 && frames@[0].operation_index >= 1 && fuel == RUN_STEP_LIMIT
                - 2)))),
            (frames_in@.len() == 1 && frames_in@[0].operation_index == 0 && frames_in@[
                0
            ].return_value is None && frames_in@[0].return_offset == old(stack)@.len() && old(
                stack,
            ).spec_remaining() >= 2 && !old(environment).spec_may_pause()) ==> (forall|j: usize|
                #[trigger] lone_cleanup_call(module.spec_vtable(), operations@, j) ==> ({
                    let a = module.spec_vtable()[j as int].code@[0]->Push_0;
                    let b = module.spec_vtable()[j as int].code@[1]->Push_0;
                    ||| (frames@ == frames_in@ && stack@ == old(stack)@ && stack.spec_remaining()
                        == old(stack).spec_remaining() && fuel == RUN_STEP_LIMIT)
                    ||| ({
                        &&& frames@.len() == 2
                        &&& frame_window_eq(frames@[0], frames_in@[0])
                        &&& frames@[0].operation_index == 1
                        &&& frames@[0].return_value is None
                        &&& frames@[1].arg_offset == frames_in@[0].return_offset
                        &&& frames@[1].variables_offset == frames_in@[0].return_offset
                        &&& frames@[1].return_offset == frames_in@[0].return_offset
                        &&& frames@[1].vtable_index == Some(j)
                        &&& frames@[1].destination is Stack
                        &&& frames@[1].return_value is None
                        &&& ((frames@[1].operation_index == 0 && stack@ == old(stack)@
                            && stack.spec_remaining() == old(stack).spec_remaining() && fuel
                            == RUN_STEP_LIMIT - 1) || (frames@[1].operation_index == 1 && stack@
                            == old(stack)@.push(a) && stack.spec_remaining() == old(
                            stack,
                        ).spec_remaining() - 1 && fuel == RUN_STEP_LIMIT - 2) || (frames@[
                            1
                        ].operation_index == 2 && stack@ == old(stack)@.push(a).push(b)
                            && stack.spec_remaining() == old(stack).spec_remaining() - 2 && fuel
                            == RUN_STEP_LIMIT - 3))
                    })
                    ||| ({
                        &&& frames@.len() == 1
                        &&& frame_window_eq(frames@[0], frames_in@[0])
                        &&& frames@[0].operation_index == 1
                        &&& frames@[0].return_value is None
                        &&& stack@ == old(stack)@.push(a)
                        &&& fuel == RUN_STEP_LIMIT - 4
                    })
                })),
        decreases fuel,
    {
        let pause = if fuel == 0 {
            true
        } else {
            matches!(environment.step(), ExecutionBehavior::Pause)
        };
        if pause {
            let stack_len = stack.len();
            let fault = build_pause(module, operations, &frames, stack_len);
            return Err(fault);
        }
        fuel = fuel - 1;
        match step_once(module, stack, &operations, &mut frames) {
            Ok(StepOutcome::Next) => {},
            Ok(StepOutcome::Jump(target)) => {
                let depth = frames.len() - 1;
                frames[depth].operation_index = target;
            },
            Ok(StepOutcome::Enter(new_frame)) => {
                let ghost before = frames@;
                frames.push(new_frame);
                proof {
                    assert(frames@.drop_last() =~= before);
                    assert forall|i: int| 0 <= i < frames@.len() implies (
                    #[trigger] frames@[i]).offsets_wf() by {
                        if i < frames@.len() - 1 {
                            assert(frames@[i] == before[i]);
                        }
                    }
                    assert forall|i: int| 1 <= i < frames@.len() implies ((#[trigger] frames@[
                    i]).vtable_index matches Some(j) && j < module.spec_vtable().len()) by {
                        if i < frames@.len() - 1 {
                            assert(frames@[i] == before[i]);
                        }
                    }
                    assert forall|i: int| 0 <= i < frames@.len() - 1 implies (#[trigger] frames@[
                    i]).return_offset <= frames@[i + 1].arg_offset by {
                        assert(frames@[i] == before[i]);
                        if i < frames@.len() - 2 {
                            assert(frames@[i + 1] == before[i + 1]);
                        }
                    }
                    assert forall|i: int| 0 <= i < frames@.len() - 1 implies (#[trigger] frames@[
                    i]).operation_index >= 1 by {
                        assert(frames@[i] == before[i]);
                    }
                }
            },
            Ok(StepOutcome::ReturnValue(value)) => {
                match deliver_return(module, stack, &mut frames, value) {
                    Ok(Some(result)) => {
                        return Ok(result);
                    },
                    Ok(None) => {},
                    Err(fault) => {
                        return Err(fault);
                    },
                }
            },
            Err(kind) => {
                let depth = frames.len() - 1;
                let instruction_index = frames[depth].operation_index - 1;
                let trace = unwind_trace(&frames, instruction_index);
                return Err(Fault { kind: FaultOrPause::Fault(kind), stack: trace });
            },
        }
    }
}

/// A type that can be constructed from a value the machine returns.
pub trait FromStack<D: DynamicValue>: Sized {
    /// The conversion this implementation performs: `None` where the value
    /// is rejected with a fault.
    spec fn from_value_spec(value: Value<D>) -> Option<Self>;

    /// Returns an instance constructed from the returned value. A value the
    /// conversion rejects yields a type-mismatch fault.
    fn from_value(value: Value<D>) -> (r: Result<Self, FaultKind<D>>)
        ensures
            match Self::from_value_spec(value) {
                Some(v) => r == Ok::<Self, FaultKind<D>>(v),
                None => r matches Err(k) && k is TypeMismatch,
            },
    ;
}

impl<D: DynamicValue> FromStack<D> for Value<D> {
    open spec fn from_value_spec(value: Value<D>) -> Option<Self> {
        Some(value)
    }

    fn from_value(value: Value<D>) -> (r: Result<Self, FaultKind<D>>) {
        Ok(value)
    }
}

impl<D: DynamicValue> FromStack<D> for i64 {
    open spec fn from_value_spec(value: Value<D>) -> Option<Self> {
        match value {
            Value::Integer(value) => Some(value),
            _ => None,
        }
    }

    fn from_value(value: Value<D>) -> (r: Result<Self, FaultKind<D>>)
        ensures
            !(value is Integer) ==> (r matches Err(
                FaultKind::TypeMismatch { message, expected, received },
            ) && message@ == "@expected expected but received `@received-value` (@received-type)"@
                && expected == ValueKind::Integer && received == value),
    {
        match value {
            Value::Integer(value) => Ok(value),
            other => Err(
                FaultKind::type_mismatch(
                    "@expected expected but received `@received-value` (@received-type)",
                    ValueKind::Integer,
                    other,
                ),
            ),
        }
    }
}

impl<D: DynamicValue> FromStack<D> for bool {
    open spec fn from_value_spec(value: Value<D>) -> Option<Self> {
        match value {
            Value::Boolean(value) => Some(value),
            _ => None,
        }
    }

    fn from_value(value: Value<D>) -> (r: Result<Self, FaultKind<D>>)
        ensures
            !(value is Boolean) ==> (r matches Err(
                FaultKind::TypeMismatch { message, expected, received },
            ) && message@ == "@expected expected but received `@received-value` (@received-type)"@
                && expected == ValueKind::Boolean && received == value),
    {
        match value {
            Value::Boolean(value) => Ok(value),
            other => Err(
                FaultKind::type_mismatch(
                    "@expected expected but received `@received-value` (@received-type)",
                    ValueKind::Boolean,
                    other,
                ),
            ),
        }
    }
}

impl<D: DynamicValue> FromStack<D> for () {
    open spec fn from_value_spec(value: Value<D>) -> Option<Self> {
        Some(())
    }

    fn from_value(value: Value<D>) -> (r: Result<Self, FaultKind<D>>) {
        let _ = value;
        Ok(())
    }
}

/// An error from submitting work to the machine: either the named function
/// does not exist, or execution ended in a fault or pause.
pub enum Error<D> {
    /// No function is registered under the requested name.
    UndefinedFunction(Symbol),
    /// Execution raised a fault or paused.
    Fault(Fault<D>),
}

/// A virtual machine instance.
///
/// Each instance has its own stack, function registry and environment.
pub struct Bud<Env, D> {
    stack: Stack<D>,
    local_module: Module<D>,
    environment: Env,
}

impl<Env, D> Bud<Env, D> {
    /// The machine's stack.
    pub closed spec fn spec_stack(&self) -> Stack<D> {
        self.stack
    }

    /// The machine's registered functions.
    pub closed spec fn spec_module(&self) -> Module<D> {
        self.local_module
    }

    /// The machine's environment.
    pub closed spec fn spec_environment(&self) -> Env {
        self.environment
    }

    /// Well-formedness: the machine's stack is well formed and its name
    /// table points into its vtable.
    pub open spec fn wf(&self) -> bool {
        self.spec_stack().wf() && self.spec_module().inv()
    }
}

impl Bud<(), NoCustomType> {
    /// Returns a default instance with no custom environment and no host
    /// value type.
    pub fn empty() -> (r: Self)
        ensures
            r.wf(),
            r.spec_stack()@ == Seq::<Value<NoCustomType>>::empty(),
            r.spec_stack().spec_remaining() == usize::MAX,
            r.spec_module().spec_vtable() == Seq::<Function<NoCustomType>>::empty(),
            forall|name: Seq<char>| r.spec_module().spec_lookup(name) is None,
    {
        Bud::default_for(())
    }
}

impl<Env: Environment, D: DynamicValue> Bud<Env, D> {
    /// Returns a new instance with the provided environment and stack
    /// capacities.
    pub fn new(environment: Env, initial_stack_capacity: usize, maximum_stack_capacity: usize) -> (r:
        Self)
        ensures
            r.wf(),
            r.spec_stack()@ == Seq::<Value<D>>::empty(),
            r.spec_stack().spec_remaining() == maximum_stack_capacity,
            r.spec_module().spec_vtable() == Seq::<Function<D>>::empty(),
            forall|name: Seq<char>| r.spec_module().spec_lookup(name) is None,
            r.spec_environment() == environment,
    {
        Bud {
            environment,
            stack: Stack::new(initial_stack_capacity, maximum_stack_capacity),
            local_module: Module::new(),
        }
    }

    /// Returns a new instance with the provided environment and an unbounded
    /// stack.
    pub fn default_for(environment: Env) -> (r: Self)
        ensures
            r.wf(),
            r.spec_stack()@ == Seq::<Value<D>>::empty(),
            r.spec_stack().spec_remaining() == usize::MAX,
            r.spec_module().spec_vtable() == Seq::<Function<D>>::empty(),
            forall|name: Seq<char>| r.spec_module().spec_lookup(name) is None,
            r.spec_environment() == environment,
    {
        Bud::new(environment, 0, usize::MAX)
    }

    /// Returns a reference to the environment for this instance.
    pub fn environment(&self) -> (r: &Env)
        ensures
            *r == self.spec_environment(),
    {
        &self.environment
    }

    /// Returns a mutable reference to the environment for this instance.
    pub fn environment_mut(&mut self) -> (r: &mut Env)
        ensures
            *r == old(self).spec_environment(),
            final(self).spec_environment() == *final(r),
            final(self).spec_stack() == old(self).spec_stack(),
            final(self).spec_module() == old(self).spec_module(),
    {
        &mut self.environment
    }

    /// Returns the stack of this virtual machine.
    pub fn stack(&self) -> (r: &Stack<D>)
        ensures
            *r == self.spec_stack(),
    {
        &self.stack
    }

    /// Registers a function under the provided name and returns self, in
    /// builder style.
    pub fn with_function(self, name: &str, function: Function<D>) -> (r: Self)
        ensures
            self.wf() ==> r.wf(),
            r.spec_stack() == self.spec_stack(),
            r.spec_environment() == self.spec_environment(),
            r.spec_module().spec_vtable() == self.spec_module().spec_vtable().push(function),
            r.spec_module().spec_lookup(name@) == Some(self.spec_module().spec_vtable().len() as usize),
            forall|other: Seq<char>|
                other != name@ ==> r.spec_module().spec_lookup(other) == self.spec_module(
                ).spec_lookup(other),
    {
        let mut this = self;
        this.define_function(name, function);
        this
    }

    /// Registers a function under the provided name and returns its stable
    /// vtable index.
    pub fn define_function(&mut self, name: &str, function: Function<D>) -> (r: usize)
        ensures
            old(self).wf() ==> final(self).wf(),
            r == old(self).spec_module().spec_vtable().len(),
            final(self).spec_stack() == old(self).spec_stack(),
            final(self).spec_environment() == old(self).spec_environment(),
            final(self).spec_module().spec_vtable() == old(self).spec_module(
            ).spec_vtable().push(function),
            final(self).spec_module().spec_lookup(name@) == Some(r),
            forall|other: Seq<char>|
                other != name@ ==> final(self).spec_module().spec_lookup(other) == old(self).spec_module().spec_lookup(other),
    {
        self.local_module.define_function(name, function)
    }

    /// Returns the vtable index of the function registered under `name`.
    pub fn resolve_function_vtable_index(&self, name: &Symbol) -> (r: Option<usize>)
        ensures
            r == self.spec_module().spec_lookup(name@),
    {
        self.local_module.lookup(name)
    }

    /// Runs a set of instructions over a fresh outermost call with
    /// `variable_count` local slots, converting the returned value through
    /// `Output`.
    ///
    /// On success the whole stack is released. A fault carries its trace; a
    /// pause carries the continuation that resumes this run.
    pub fn run<Output: FromStack<D>>(
        &mut self,
        operations: Vec<Instruction<D>>,
        variable_count: usize,
    ) -> (r: Result<Output, Fault<D>>)
        requires
            old(self).wf(),
            module_arities_ok(old(self).spec_module().spec_vtable()),
            code_arities_ok(old(self).spec_module().spec_vtable(), None, operations@),
        ensures
            final(self).wf(),
            final(self).spec_module() == old(self).spec_module(),
            r is Ok ==> final(self).spec_stack()@ == Seq::<Value<D>>::empty(),
            variable_count > old(self).spec_stack().spec_remaining() ==> (r matches Err(f)
                && f.kind == FaultOrPause::Fault(FaultKind::<D>::StackOverflow) && f.stack@
                =~= Seq::<FaultStackFrame>::empty() && final(self).spec_stack() == old(self).spec_stack() && final(self).spec_environment() == old(self).spec_environment()),
            r matches Err(f) ==> (f.kind matches FaultOrPause::Fault(k) ==> (f.stack@.len() >= 1
                || (k == FaultKind::<D>::StackOverflow && variable_count > old(self).spec_stack().spec_remaining()) || (k is TypeMismatch && exists|v: Value<D>|
                (#[trigger] Output::from_value_spec(v)) is None))),
            r matches Err(f) ==> (f.kind is Fault ==> (f.stack@.len() >= 1 ==> (
            f.stack@.last().vtable_index is None && (forall|k: int|
                0 <= k < f.stack@.len() - 1 ==> ((#[trigger] f.stack@[k]).vtable_index
                    matches Some(j) && j < old(self).spec_module().spec_vtable().len()))))),
            operations@.len() == 0 ==> (r matches Ok(output) ==> Some(output)
                == Output::from_value_spec(Value::<D>::Void)),
            (operations@.len() == 0 && variable_count <= old(self).spec_stack().spec_remaining()
                && !old(self).spec_environment().spec_may_pause()) ==> (
            match Output::from_value_spec(Value::<D>::Void) {
                Some(o) => r == Ok::<Output, Fault<D>>(o),
                None => r matches Err(f) && f.kind matches FaultOrPause::Fault(k) && k
                    is TypeMismatch,
            }),
            operations@.len() == 1 ==> (operations@[0] matches Instruction::Return(
                Some(ValueOrSource::Value(v)),
            ) ==> (r matches Ok(output) ==> Some(output) == Output::from_value_spec(v))),
            (operations@.len() == 1 && variable_count <= old(self).spec_stack().spec_remaining())
                ==> (operations@[0] matches Instruction::Call { vtable_index: Some(j), .. } ==> (j
                >= old(self).spec_module().spec_vtable().len() ==> (r matches Err(f) && (f.kind
                is Pause || f.kind == FaultOrPause::Fault(FaultKind::<D>::InvalidVtableIndex))))),
            (operations@.len() == 1 && variable_count <= old(self).spec_stack().spec_remaining())
                ==> (operations@[0] matches Instruction::Call { vtable_index: Some(j), .. } ==> ((
            j < old(self).spec_module().spec_vtable().len() && old(
                self,
            ).spec_module().spec_vtable()[j as int].arg_count == 0 && old(
                self,
            ).spec_module().spec_vtable()[j as int].variable_count == 0 && old(
                self,
            ).spec_module().spec_vtable()[j as int].code@.len() == 1) ==> (old(
                self,
            ).spec_module().spec_vtable()[j as int].code@[0] matches Instruction::PushCopy(source)
                ==> (r matches Err(f) && (f.kind is Pause || f.kind == FaultOrPause::Fault(
                source_fault_kind::<D>(source),
            )))))),
            r matches Err(f) ==> f.kind matches FaultOrPause::Pause(pe) ==> paused_frames_wf(
                final(self).spec_module().spec_vtable(),
                pe.spec_frames(),
                final(self).spec_stack()@.len() as int,
            ) && pe.spec_operations() == operations@ && pe.spec_frames().len() >= 1
                && pe.spec_frames().last().arg_offset == 0
                && pe.spec_frames().last().variables_offset == old(self).spec_stack()@.len()
                && pe.spec_frames().last().return_offset == old(self).spec_stack()@.len()
                + variable_count && pe.spec_frames().last().vtable_index is None
                && pe.spec_frames().last().destination is Return,
            (operations@.len() == 1 && variable_count <= old(self).spec_stack().spec_remaining()
                && !old(self).spec_environment().spec_may_pause()) ==> (operations@[0]
                matches Instruction::Call { vtable_index: Some(j), .. } ==> (j >= old(
                self,
            ).spec_module().spec_vtable().len() ==> (r matches Err(f) && f.kind
                == FaultOrPause::Fault(FaultKind::<D>::InvalidVtableIndex) && f.stack@.len() == 1
                && f.stack@[0] == (FaultStackFrame {
                vtable_index: Option::<usize>::None,
                instruction_index: 0usize,
            })))),
            (operations@.len() == 1 && variable_count <= old(self).spec_stack().spec_remaining()
                && !old(self).spec_environment().spec_may_pause()) ==> (operations@[0]
                matches Instruction::Call { vtable_index: Some(j), .. } ==> ((j < old(
                self,
            ).spec_module().spec_vtable().len() && old(self).spec_module().spec_vtable()[
                j as int
            ].arg_count == 0 && old(self).spec_module().spec_vtable()[j as int].variable_count
                == 0 && old(self).spec_module().spec_vtable()[j as int].code@.len() == 1) ==> (
            old(self).spec_module().spec_vtable()[j as int].code@[0]
                matches Instruction::PushCopy(source) ==> (r matches Err(f) && f.kind
                == FaultOrPause::Fault(source_fault_kind::<D>(source)) && f.stack@.len() == 2
                && f.stack@[0] == (FaultStackFrame {
                vtable_index: Some(j),
                instruction_index: 0usize,
            }) && f.stack@[1] == (FaultStackFrame {
                vtable_index: Option::<usize>::None,
                instruction_index: 0usize,
            }))))),
            (variable_count + 2 <= old(self).spec_stack().spec_remaining() && !old(
                self,
            ).spec_environment().spec_may_pause()) ==> (forall|j: usize|
                #[trigger] lone_cleanup_call(
                    old(self).spec_module().spec_vtable(),
                    operations@,
                    j,
                ) ==> (match Output::from_value_spec(
                    old(self).spec_module().spec_vtable()[j as int].code@[0]->Push_0,
                ) {
                    Some(o) => r == Ok::<Output, Fault<D>>(o),
                    None => r matches Err(f) && f.kind matches FaultOrPause::Fault(k) && k
                        is TypeMismatch,
                })),
    {
        let variables_offset = self.stack.len();
        if variable_count > 0 {
            match self.stack.grow_by(variable_count) {
                Ok(()) => (),
                Err(kind) => {
                    return Err(Fault::from(kind));
                },
            }
        }
        let return_offset = self.stack.len();
        let frame = Frame {
            return_offset,
            variables_offset,
            arg_offset: 0,
            vtable_index: None,
            operation_index: 0,
            destination: Destination::Return,
            return_value: None,
        };
        let mut frames: Vec<Frame<D>> = Vec::new();
        frames.push(frame);
        match run_frames(
            &self.local_module,
            &mut self.stack,
            &mut self.environment,
            operations,
            frames,
        ) {
            Ok(value) => {
                self.stack.clear();
                match Output::from_value(value) {
                    Ok(output) => Ok(output),
                    Err(kind) => {
                        proof {
                            assert(Output::from_value_spec(value) is None);
                        }
                        Err(Fault::from(kind))
                    },
                }
            },
            Err(fault) => Err(fault),
        }
    }

    /// Calls a registered function by name with the given arguments.
    ///
    /// The arguments are pushed onto the stack in order and consumed by the
    /// call.
    pub fn call<Output: FromStack<D>>(&mut self, function: &Symbol, arguments: Vec<Value<D>>) -> (r:
        Result<Output, Error<D>>)
        requires
            old(self).wf(),
            module_arities_ok(old(self).spec_module().spec_vtable()),
            (match old(self).spec_module().spec_lookup(function@) {
                Some(j) => old(self).spec_module().spec_vtable()[j as int].arg_count
                    == arguments@.len(),
                None => true,
            }),
        ensures
            final(self).wf(),
            final(self).spec_module() == old(self).spec_module(),
            old(self).spec_module().spec_lookup(function@) is None ==> (r matches Err(
                Error::UndefinedFunction(n),
            ) && n@ == function@ && final(self).spec_stack() == old(self).spec_stack() && final(self).spec_environment() == old(self).spec_environment()),
            old(self).spec_module().spec_lookup(function@) is Some ==> !(r matches Err(
                Error::UndefinedFunction(_),
            )),
            (old(self).spec_module().spec_lookup(function@) is Some && arguments@.len() > old(self).spec_stack().spec_remaining()) ==> (r matches Err(Error::Fault(f)) && f.kind
                == FaultOrPause::Fault(FaultKind::<D>::StackOverflow) && f.stack@ =~= Seq::<
                FaultStackFrame,
            >::empty() && final(self).spec_stack() == old(self).spec_stack() && final(self).spec_environment() == old(self).spec_environment()),
            r matches Err(Error::Fault(f)) ==> (f.kind matches FaultOrPause::Fault(k) ==> (
            f.stack@.len() >= 1 || (k == FaultKind::<D>::StackOverflow && arguments@.len() > old(self).spec_stack().spec_remaining()) || (k is TypeMismatch && exists|v: Value<D>|
                (#[trigger] Output::from_value_spec(v)) is None))),
            r matches Err(Error::Fault(f)) ==> (f.kind is Fault ==> (f.stack@.len() >= 1 ==> (
            f.stack@.last().vtable_index is None && (forall|k: int|
                0 <= k < f.stack@.len() - 1 ==> ((#[trigger] f.stack@[k]).vtable_index
                    matches Some(j) && j < old(self).spec_module().spec_vtable().len()))))),
            r is Ok ==> final(self).spec_stack()@ == Seq::<Value<D>>::empty(),
            old(self).spec_module().spec_lookup(function@) matches Some(j) ==> ((old(
                self,
            ).spec_module().spec_vtable()[j as int].code@.len() == 0 && old(
                self,
            ).spec_module().spec_vtable()[j as int].variable_count == 0) ==> (r matches Ok(output)
                ==> Some(output) == Output::from_value_spec(Value::<D>::Void))),
            old(self).spec_module().spec_lookup(function@) matches Some(j) ==> ((arguments@.len()
                <= old(self).spec_stack().spec_remaining() && !old(
                self,
            ).spec_environment().spec_may_pause() && old(self).spec_module().spec_vtable()[
                j as int
            ].code@.len() == 0 && old(self).spec_module().spec_vtable()[j as int].variable_count
                == 0) ==> (match Output::from_value_spec(Value::<D>::Void) {
                Some(o) => r == Ok::<Output, Error<D>>(o),
                None => r matches Err(Error::Fault(f)) && f.kind matches FaultOrPause::Fault(k)
                    && k is TypeMismatch,
            })),
            r matches Err(Error::Fault(f)) ==> (f.kind matches FaultOrPause::Pause(pe)
                ==> paused_frames_wf(
                final(self).spec_module().spec_vtable(),
                pe.spec_frames(),
                final(self).spec_stack()@.len() as int,
            )),
    {
        match self.local_module.lookup(function) {
            Some(vtable_index) => {
                proof {
                    self.spec_module().lemma_lookup_in_range(function@);
                }
                let baseline = self.stack.len();
                let arg_count = match self.stack.extend(arguments) {
                    Ok(count) => count,
                    Err(kind) => {
                        return Err(Error::Fault(Fault::from(kind)));
                    },
                };
                let mut operations: Vec<Instruction<D>> = Vec::new();
                operations.push(
                    Instruction::Call {
                        vtable_index: Some(vtable_index),
                        arg_count,
                        destination: Destination::Return,
                    },
                );
                proof {
                    assert forall|k: int| 0 <= k < operations@.len() implies call_arity_ok(
                        self.spec_module().spec_vtable(),
                        None,
                        #[trigger] operations@[k],
                    ) by {}
                }
                // The root frame's baseline sits below the pushed arguments,
                // which the call consumes as the live stack above it.
                let frame = Frame {
                    return_offset: baseline,
                    variables_offset: baseline,
                    arg_offset: 0,
                    vtable_index: None,
                    operation_index: 0,
                    destination: Destination::Return,
                    return_value: None,
                };
                let mut frames: Vec<Frame<D>> = Vec::new();
                frames.push(frame);
                match run_frames(
                    &self.local_module,
                    &mut self.stack,
                    &mut self.environment,
                    operations,
                    frames,
                ) {
                    Ok(value) => {
                        self.stack.clear();
                        match Output::from_value(value) {
                            Ok(output) => Ok(output),
                            Err(kind) => {
                                proof {
                                    assert(Output::from_value_spec(value) is None);
                                }
                                Err(Error::Fault(Fault::from(kind)))
                            },
                        }
                    },
                    Err(fault) => Err(Error::Fault(fault)),
                }
            },
            None => Err(Error::UndefinedFunction(function.clone())),
        }
    }
}

impl<D: DynamicValue> PausedExecution<D> {
    /// Resumes the paused execution on the machine it was captured from.
    ///
    /// The machine must be in the state the pause left it in: its stack and
    /// registered functions must still match the captured frames, which
    /// [`PausedExecution::can_resume`] tests.
    pub fn resume<Env: Environment, Output: FromStack<D>>(self, vm: &mut Bud<Env, D>) -> (r: Result<
        Output,
        Fault<D>,
    >)
        requires
            old(vm).wf(),
            module_arities_ok(old(vm).spec_module().spec_vtable()),
            code_arities_ok(old(vm).spec_module().spec_vtable(), None, self.spec_operations()),
            paused_frames_wf(
                old(vm).spec_module().spec_vtable(),
                self.spec_frames(),
                old(vm).spec_stack()@.len() as int,
            ),
        ensures
            final(vm).wf(),
            final(vm).spec_module() == old(vm).spec_module(),
            r matches Err(f) ==> (f.kind matches FaultOrPause::Fault(k) ==> (f.stack@.len() >= 1
                || (k is TypeMismatch && exists|v: Value<D>|
                    (#[trigger] Output::from_value_spec(v)) is None))),
            r matches Err(f) ==> (f.kind is Fault ==> (f.stack@.len() >= 1 ==> (
            f.stack@.last().vtable_index is None && (forall|k: int|
                0 <= k < f.stack@.len() - 1 ==> ((#[trigger] f.stack@[k]).vtable_index
                    matches Some(j) && j < old(vm).spec_module().spec_vtable().len()))))),
            r matches Err(f) ==> f.kind matches FaultOrPause::Pause(pe) ==> paused_frames_wf(
                final(vm).spec_module().spec_vtable(),
                pe.spec_frames(),
                final(vm).spec_stack()@.len() as int,
            ) && pe.spec_operations() == self.spec_operations(),
    {
        let PausedExecution { operations, frames } = self;
        let restored = restore_frames(&frames);
        proof {
            let vtable = old(vm).spec_module().spec_vtable();
            let n = restored@.len();
            assert forall|i: int| 0 <= i < n implies (#[trigger] restored@[i]).offsets_wf() by {
                assert(restored@[i].spec_descriptor() == frames@[n - 1 - i]);
            }
            assert forall|i: int| 1 <= i < n implies ((#[trigger] restored@[i]).vtable_index
                matches Some(j) && j < vtable.len()) by {
                assert(restored@[i].spec_descriptor() == frames@[n - 1 - i]);
            }
            assert forall|i: int| 0 <= i < n - 1 implies (#[trigger] restored@[i]).return_offset
                <= restored@[i + 1].arg_offset by {
                assert(restored@[i].spec_descriptor() == frames@[n - 1 - i]);
                assert(restored@[i + 1].spec_descriptor() == frames@[n - 2 - i]);
                assert(frames@[(n - 2 - i) + 1].return_offset <= frames@[n - 2 - i].arg_offset);
            }
            assert forall|i: int| 0 <= i < n - 1 implies (#[trigger] restored@[
            i]).operation_index >= 1 by {
                assert(restored@[i].spec_descriptor() == frames@[n - 1 - i]);
            }
            assert(restored@[0].spec_descriptor() == frames@[n - 1]);
            assert(restored@[n - 1].spec_descriptor() == frames@[0]);
        }
        match run_frames(
            &vm.local_module,
            &mut vm.stack,
            &mut vm.environment,
            operations,
            restored,
        ) {
            Ok(value) => {
                match Output::from_value(value) {
                    Ok(output) => Ok(output),
                    Err(kind) => Err(Fault::from(kind)),
                }
            },
            Err(fault) => Err(fault),
        }
    }
}

/// Law: integer arithmetic is total. For every pair of machine integers,
/// each of the four operations either produces the mathematically exact
/// result, when it is representable, or `Void`, on overflow and on division
/// by zero; it never faults. The fault-freedom of the instruction itself is
/// part of [`arith_values`]'s contract; this lemma pins the value produced.
pub proof fn lemma_integer_arithmetic_total<D>(a: i64, b: i64)
    ensures
        i64::MIN <= a + b <= i64::MAX ==> integer_op_value::<D>(ArithOp::Add, a, b)
            == Value::<D>::Integer((a + b) as i64),
        !(i64::MIN <= a + b <= i64::MAX) ==> integer_op_value::<D>(ArithOp::Add, a, b)
            == Value::<D>::Void,
        i64::MIN <= a - b <= i64::MAX ==> integer_op_value::<D>(ArithOp::Sub, a, b)
            == Value::<D>::Integer((a - b) as i64),
        !(i64::MIN <= a - b <= i64::MAX) ==> integer_op_value::<D>(ArithOp::Sub, a, b)
            == Value::<D>::Void,
        i64::MIN <= a * b <= i64::MAX ==> integer_op_value::<D>(ArithOp::Multiply, a, b)
            == Value::<D>::Integer((a * b) as i64),
        !(i64::MIN <= a * b <= i64::MAX) ==> integer_op_value::<D>(ArithOp::Multiply, a, b)
            == Value::<D>::Void,
        b == 0 ==> integer_op_value::<D>(ArithOp::Divide, a, b) == Value::<D>::Void,
        a == i64::MIN && b == -1 ==> integer_op_value::<D>(ArithOp::Divide, a, b)
            == Value::<D>::Void,
        b != 0 && !(a == i64::MIN && b == -1) ==> integer_op_value::<D>(ArithOp::Divide, a, b)
            == Value::<D>::Integer(int_div_trunc(a as int, b as int) as i64),
{
    if b != 0 && !(a == i64::MIN && b == -1) {
        let x = a as int;
        let d = b as int;
        let magnitude = if x >= 0 {
            x
        } else {
            -x
        };
        let divisor = if d >= 0 {
            d
        } else {
            -d
        };
        let quotient = magnitude / divisor;
        lemma_div_pos_is_pos(magnitude, divisor);
        lemma_div_nonincreasing(magnitude, divisor);
        assert(0 <= quotient <= magnitude);
        if magnitude == 0x8000_0000_0000_0000 && divisor >= 2 {
            lemma_div_is_ordered_by_denominator(magnitude, 2, divisor);
            assert(quotient <= magnitude / 2);
        }
        if (x >= 0 && d > 0) || (x < 0 && d < 0) {
            assert(int_div_trunc(x, d) == quotient);
            assert(quotient <= i64::MAX);
        } else {
            assert(int_div_trunc(x, d) == -quotient);
            assert(-quotient >= i64::MIN);
        }
    }
}

/// Checks that every `Call` in `code` declares the arity of the function it
/// reaches, taking an index-less call as a self-call of `self_index`.
fn code_arity_check<D: DynamicValue>(
    module: &Module<D>,
    self_index: Option<usize>,
    code: &Vec<Instruction<D>>,
) -> (r: bool)
    ensures
        r == code_arities_ok(module.spec_vtable(), self_index, code@),
{
    let mut index: usize = 0;
    while index < code.len()
        invariant
            index <= code@.len(),
            forall|k: int|
                0 <= k < index ==> call_arity_ok(
                    module.spec_vtable(),
                    self_index,
                    #[trigger] code@[k],
                ),
        decreases code@.len() - index,
    {
        let ok = match &code[index] {
            Instruction::Call { vtable_index, arg_count, .. } => {
                let resolved = match vtable_index {
                    Some(j) => Some(*j),
                    None => self_index,
                };
                match resolved {
                    Some(j) => {
                        match module.function_at(j) {
                            Some(f) => f.arg_count == *arg_count,
                            None => true,
                        }
                    },
                    None => true,
                }
            },
            _ => true,
        };
        if !ok {
            proof {
                assert(!call_arity_ok(module.spec_vtable(), self_index, code@[index as int]));
            }
            return false;
        }
        index = index + 1;
    }
    true
}

impl<Env: Environment, D: DynamicValue> Bud<Env, D> {
    /// Checks the arity consistency that [`Bud::run`] requires: every call
    /// in the registered functions and in `operations` declares the arity of
    /// the function it reaches.
    pub fn check_instructions(&self, operations: &Vec<Instruction<D>>) -> (r: bool)
        ensures
            r == (module_arities_ok(self.spec_module().spec_vtable()) && code_arities_ok(
                self.spec_module().spec_vtable(),
                None,
                operations@,
            )),
    {
        let count = self.local_module.vtable_len();
        let mut j: usize = 0;
        while j < count
            invariant
                count == self.spec_module().spec_vtable().len(),
                j <= count,
                forall|i: int|
                    0 <= i < j ==> code_arities_ok(
                        self.spec_module().spec_vtable(),
                        Some(i as usize),
                        (#[trigger] self.spec_module().spec_vtable()[i]).code@,
                    ),
            decreases count - j,
        {
            let checked = match self.local_module.function_at(j) {
                Some(f) => code_arity_check(&self.local_module, Some(j), &f.code),
                None => {
                    proof {
                        assert(false);
                    }
                    unreached()
                },
            };
            if !checked {
                return false;
            }
            j = j + 1;
        }
        code_arity_check(&self.local_module, None, operations)
    }
}

impl<D: DynamicValue> PausedExecution<D> {
    /// Checks everything [`PausedExecution::resume`] requires of this
    /// continuation and the machine it is to resume on: arity consistency,
    /// and that the captured frames still describe the machine's stack.
    pub fn can_resume<Env: Environment>(&self, vm: &Bud<Env, D>) -> (r: bool)
        requires
            vm.wf(),
        ensures
            r == (module_arities_ok(vm.spec_module().spec_vtable()) && code_arities_ok(
                vm.spec_module().spec_vtable(),
                None,
                self.spec_operations(),
            ) && paused_frames_wf(
                vm.spec_module().spec_vtable(),
                self.spec_frames(),
                vm.spec_stack()@.len() as int,
            )),
    {
        if !vm.check_instructions(&self.operations) {
            return false;
        }
        let frame_count = self.frames.len();
        if frame_count == 0 {
            return false;
        }
        let vtable_count = vm.local_module.vtable_len();
        let stack_len = vm.stack.len();
        if self.frames[0].return_offset > stack_len {
            return false;
        }
        let last = &self.frames[frame_count - 1];
        if !matches!(last.vtable_index, None) {
            return false;
        }
        let mut i: usize = 0;
        while i < frame_count
            invariant
                frame_count == self.spec_frames().len(),
                vtable_count == vm.spec_module().spec_vtable().len(),
                i <= frame_count,
                forall|k: int|
                    0 <= k < i ==> (#[trigger] self.spec_frames()[k]).arg_offset
                        <= self.spec_frames()[k].variables_offset <= self.spec_frames()[
                        k
                    ].return_offset,
                forall|k: int|
                    0 <= k < i && k < frame_count - 1 ==> ((#[trigger] self.spec_frames()[
                    k]).vtable_index matches Some(j) && j < vm.spec_module().spec_vtable().len()),
                forall|k: int|
                    1 <= k < i ==> (#[trigger] self.spec_frames()[k]).operation_index >= 1,
                forall|k: int|
                    0 <= k < i && k < frame_count - 1 ==> (#[trigger] self.spec_frames()[k
                        + 1]).return_offset <= self.spec_frames()[k].arg_offset,
            decreases frame_count - i,
        {
            let frame = &self.frames[i];
            if !(frame.arg_offset <= frame.variables_offset
                && frame.variables_offset <= frame.return_offset) {
                return false;
            }
            if i < frame_count - 1 {
                match frame.vtable_index {
                    Some(j) => {
                        if j >= vtable_count {
                            return false;
                        }
                    },
                    None => {
                        return false;
                    },
                }
                if self.frames[i + 1].return_offset > frame.arg_offset {
                    return false;
                }
            }
            if i >= 1 && frame.operation_index < 1 {
                return false;
            }
            i = i + 1;
        }
        true
    }
}

/// Law: an index-less call re-invokes the calling frame's own function, and
/// an explicit index overrides it.
pub proof fn lemma_self_call_reaches_caller(explicit: Option<usize>, current: Option<usize>)
    ensures
        explicit is None ==> resolved_callee(explicit, current) == current,
        explicit is Some ==> resolved_callee(explicit, current) == explicit,
{
}

} // verus!
