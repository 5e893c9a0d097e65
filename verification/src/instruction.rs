//! The machine's instruction set and compiled functions.

use vstd::prelude::*;
use crate::symbol::Symbol;
use crate::value::Value;

verus! {

/// A virtual machine instruction.
///
/// This enum contains all instructions that the virtual machine is able to
/// perform.
#[derive(Debug)]
pub enum Instruction<D> {
    /// Adds `left` and `right` and places the result in `destination`. If
    /// the operation overflows, `Void` is stored instead.
    Add {
        /// The left hand side of the operation.
        left: ValueSource,
        /// The right hand side of the operation.
        right: ValueOrSource<D>,
        /// The destination for the result to be stored in.
        destination: Destination,
    },
    /// Subtracts `right` from `left` and places the result in `destination`.
    /// If the operation overflows, `Void` is stored instead.
    Sub {
        /// The left hand side of the operation.
        left: ValueSource,
        /// The right hand side of the operation.
        right: ValueOrSource<D>,
        /// The destination for the result to be stored in.
        destination: Destination,
    },
    /// Multiplies `left` by `right` and places the result in `destination`.
    /// If the operation overflows, `Void` is stored instead.
    Multiply {
        /// The left hand side of the operation.
        left: ValueSource,
        /// The right hand side of the operation.
        right: ValueOrSource<D>,
        /// The destination for the result to be stored in.
        destination: Destination,
    },
    /// Divides `left` by `right` and places the result in `destination`. If
    /// the operation overflows, including division by zero, `Void` is stored
    /// instead.
    Divide {
        /// The left hand side of the operation.
        left: ValueSource,
        /// The right hand side of the operation.
        right: ValueOrSource<D>,
        /// The destination for the result to be stored in.
        destination: Destination,
    },
    /// Checks the truthiness of `condition`, jumping to the target
    /// instruction if false. Jumping beyond the end of the current
    /// instruction sequence causes the current call to return rather than an
    /// error.
    If {
        /// The source of the condition.
        condition: ValueSource,
        /// The 0-based index of the instruction to jump to, relative to the
        /// beginning of the set of instructions being executed.
        false_jump_to: usize,
    },
    /// Jumps to the instruction index within the current function. Jumping
    /// beyond the end of the current instruction sequence causes the current
    /// call to return rather than an error.
    JumpTo(usize),
    /// Compares `left` and `right` using `comparison` to evaluate a boolean
    /// result, which is either stored or used to jump.
    Compare {
        /// The comparison to perform.
        comparison: Comparison,
        /// The left hand side of the operation.
        left: ValueSource,
        /// The right hand side of the operation.
        right: ValueOrSource<D>,
        /// The action to take with the result of the comparison.
        action: CompareAction,
    },
    /// Pushes a value to the stack.
    Push(Value<D>),
    /// Pushes a copy of an argument or variable to the stack.
    PushCopy(ValueSource),
    /// Pops a value from the stack and drops it. Popping beyond the baseline
    /// of the currently executing call raises a stack underflow fault.
    PopAndDrop,
    /// Returns from the current call with the given value, or with the
    /// current return register if none is given.
    Return(Option<ValueOrSource<D>>),
    /// Loads a value into a variable.
    Load {
        /// The index of the variable to store the value in.
        variable_index: usize,
        /// The value or source of the value to store.
        value: ValueOrSource<D>,
    },
    /// Calls a function by vtable index. The top `arg_count` stack values
    /// become the arguments; on return they are gone and the returned value
    /// is placed in `destination`.
    Call {
        /// The vtable index within the current module of the function to
        /// call. If `None`, the current function is called recursively. An
        /// index beyond the functions registered raises an invalid vtable
        /// index fault.
        vtable_index: Option<usize>,
        /// The number of stack values to pass as arguments to this call.
        arg_count: usize,
        /// The destination for the result of the call.
        destination: Destination,
    },
    /// Calls a function by name on a host value. The top `arg_count` stack
    /// values become the arguments; on return they are gone and the returned
    /// value is placed in `destination`.
    CallInstance {
        /// The target of the call. If `None`, the value on the stack just
        /// below the arguments is the target.
        target: Option<ValueSource>,
        /// The name of the function to call.
        name: Symbol,
        /// The number of stack values to pass as arguments to this call.
        arg_count: usize,
        /// The destination for the result of the call.
        destination: Destination,
    },
}

/// An action to take with the result of a comparison.
#[derive(Debug, Clone, Copy)]
pub enum CompareAction {
    /// Store the boolean result in the destination indicated.
    Store(Destination),
    /// If the comparison is false, jump to the 0-based instruction index
    /// indicated.
    JumpIfFalse(usize),
}

/// A destination for a value.
#[derive(Debug, Clone, Copy)]
pub enum Destination {
    /// Store the value in the 0-based variable index provided.
    Variable(usize),
    /// Push the value to the stack.
    Stack,
    /// Store the value in the return register.
    Return,
}

/// The source of a value.
#[derive(Debug, Clone, Copy)]
pub enum ValueSource {
    /// The value is in an argument at the provided 0-based index.
    Argument(usize),
    /// The value is in a variable at the provided 0-based index.
    Variable(usize),
}

/// A value or a location of a value.
#[derive(Debug)]
pub enum ValueOrSource<D> {
    /// A value.
    Value(Value<D>),
    /// The value is in an argument at the provided 0-based index.
    Argument(usize),
    /// The value is in a variable at the provided 0-based index.
    Variable(usize),
}

/// A method for comparing values.
#[derive(Debug, Clone, Copy)]
pub enum Comparison {
    /// True if left and right are equal.
    Equal,
    /// True if left and right are not equal.
    NotEqual,
    /// True if left is less than right.
    LessThan,
    /// True if left is less than or equal to right.
    LessThanOrEqual,
    /// True if left is greater than right.
    GreaterThan,
    /// True if left is greater than or equal to right.
    GreaterThanOrEqual,
}

/// A virtual machine function.
#[derive(Debug)]
pub struct Function<D> {
    /// The number of arguments this function expects.
    pub arg_count: usize,
    /// The number of variables this function requests space for.
    pub variable_count: usize,
    /// The instructions that make up the function body.
    pub code: Vec<Instruction<D>>,
}

} // verus!
