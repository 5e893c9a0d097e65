//! The machine's fault taxonomy: typed errors with cross-frame stack traces,
//! and the pause signal that travels the same channel.

use vstd::prelude::*;
use crate::symbol::Symbol;
use crate::value::Value;
use crate::value::ValueKind;
use crate::vm::PausedExecution;

verus! {

/// An unexpected event within the virtual machine.
pub enum FaultKind<D> {
    /// An attempt to push a value to the stack was made after the stack has
    /// reached its capacity.
    StackOverflow,
    /// An attempt to pop a value off of the stack was made when no values
    /// were present in the current code's stack frame.
    StackUnderflow,
    /// An invalid variable index was used.
    InvalidVariableIndex,
    /// An invalid argument index was used.
    InvalidArgumentIndex,
    /// An invalid vtable index was used.
    InvalidVtableIndex,
    /// A call was made to a function that does not exist.
    UnknownFunction {
        /// The kind of the value the function was called on.
        kind: ValueKind,
        /// The name of the function being called.
        name: Symbol,
    },
    /// A value type was unexpected in the given context.
    TypeMismatch {
        /// The error message explaining the type mismatch. The patterns
        /// `@expected`, `@received-value` and `@received-type` are replaced
        /// when the message is rendered.
        message: String,
        /// The kind expected in this context.
        expected: ValueKind,
        /// The value that caused an error.
        received: Value<D>,
    },
    /// An invalid value type was encountered.
    InvalidType {
        /// The error message explaining the problem. The patterns
        /// `@received-value` and `@received-type` are replaced when the
        /// message is rendered.
        message: String,
        /// The value that caused an error.
        received: Value<D>,
    },
    /// An error arose from a host value.
    Dynamic(DynamicFault),
}

impl<D> FaultKind<D> {
    /// Builds an [`FaultKind::InvalidType`] fault from a message template and
    /// the offending value.
    pub fn invalid_type(message: &str, received: Value<D>) -> (r: Self)
        ensures
            r matches FaultKind::InvalidType { message: m, received: v } && m@ == message@ && v
                == received,
    {
        FaultKind::InvalidType { message: message.to_owned(), received }
    }

    /// Builds a [`FaultKind::TypeMismatch`] fault from a message template,
    /// the expected kind and the offending value.
    pub fn type_mismatch(message: &str, expected: ValueKind, received: Value<D>) -> (r: Self)
        ensures
            r matches FaultKind::TypeMismatch { message: m, expected: e, received: v } && m@
                == message@ && e == expected && v == received,
    {
        FaultKind::TypeMismatch { message: message.to_owned(), expected, received }
    }
}

/// An unexpected event occurred while executing the virtual machine: either a
/// terminal fault or a pause request, together with the stack trace gathered
/// while unwinding.
pub struct Fault<D> {
    /// The kind of fault this is.
    pub kind: FaultOrPause<D>,
    /// The stack trace of the virtual machine when the fault was raised,
    /// innermost frame first.
    pub stack: Vec<FaultStackFrame>,
}

impl<D> Fault<D> {
    /// Wraps a fault kind with an empty stack trace.
    pub fn from(kind: FaultKind<D>) -> (r: Self)
        ensures
            r.kind == FaultOrPause::Fault(kind),
            r.stack@ == Seq::<FaultStackFrame>::empty(),
    {
        Fault { kind: FaultOrPause::Fault(kind), stack: Vec::new() }
    }

    /// A stack underflow fault with an empty trace.
    pub fn stack_underflow() -> (r: Self)
        ensures
            r.kind == FaultOrPause::Fault(FaultKind::<D>::StackUnderflow),
            r.stack@ == Seq::<FaultStackFrame>::empty(),
    {
        Fault::from(FaultKind::StackUnderflow)
    }

    /// An invalid-type fault with an empty trace.
    pub fn invalid_type(message: &str, received: Value<D>) -> (r: Self)
        ensures
            r.kind matches FaultOrPause::Fault(
                FaultKind::InvalidType { message: m, received: v },
            ) && m@ == message@ && v == received,
            r.stack@ == Seq::<FaultStackFrame>::empty(),
    {
        Fault::from(FaultKind::invalid_type(message, received))
    }

    /// A type-mismatch fault with an empty trace.
    pub fn type_mismatch(message: &str, expected: ValueKind, received: Value<D>) -> (r: Self)
        ensures
            r.kind matches FaultOrPause::Fault(
                FaultKind::TypeMismatch { message: m, expected: e, received: v },
            ) && m@ == message@ && e == expected && v == received,
            r.stack@ == Seq::<FaultStackFrame>::empty(),
    {
        Fault::from(FaultKind::type_mismatch(message, expected, received))
    }
}

/// A reason for a virtual machine [`Fault`].
pub enum FaultOrPause<D> {
    /// A fault occurred while processing instructions.
    Fault(FaultKind<D>),
    /// Execution was paused by the environment. The contained
    /// [`PausedExecution`] can be used to resume executing the code.
    Pause(PausedExecution<D>),
}

/// A stack frame entry of a [`Fault`].
#[derive(Debug, Clone, Copy, PartialEq, Eq)]
pub struct FaultStackFrame {
    /// The vtable index of the function being executed. If `None`, the
    /// instructions being executed were passed directly in.
    pub vtable_index: Option<usize>,
    /// The index of the instruction that was executing when this fault was
    /// raised.
    pub instruction_index: usize,
}

/// A fault that arose from a host value: a type-erased host error plus the
/// error's rendered text.
///
/// Relies on std::any type-erasure: the payload is stored as `dyn Any` and
/// recovered by downcast.
#[verifier::external_body]
pub struct DynamicFault {
    message: std::string::String,
    payload: std::boxed::Box<dyn core::any::Any>,
}

impl DynamicFault {
    /// Returns a new instance containing the provided error. Relies on the
    /// format macro to render the error's display text once, up front.
    #[verifier::external_body]
    pub fn new<T: core::fmt::Display + 'static>(error: T) -> Self {
        DynamicFault { message: format!("{error}"), payload: std::boxed::Box::new(error) }
    }

    /// Returns a reference to the original error, if `T` is the same type
    /// that was provided during construction. Relies on Any::downcast_ref.
    #[verifier::external_body]
    pub fn downcast_ref<T: 'static>(&self) -> Option<&T> {
        self.payload.downcast_ref::<T>()
    }

    /// Returns the original error if `T` is the same type that was provided
    /// during construction. If not, `Err(self)` is returned. Relies on
    /// `Box<dyn Any>::downcast`.
    #[verifier::external_body]
    pub fn try_unwrap<T: 'static>(self) -> Result<T, Self> {
        let DynamicFault { message, payload } = self;
        match payload.downcast::<T>() {
            Ok(value) => Ok(*value),
            Err(payload) => Err(DynamicFault { message, payload }),
        }
    }

    /// Returns the rendered display text of the contained error. Relies on
    /// String::clone.
    #[verifier::external_body]
    pub fn message(&self) -> String {
        self.message.clone()
    }
}

} // verus!
