//! An embeddable bytecode virtual machine.
//!
//! The machine executes a small, fixed instruction set over a single shared
//! value stack. It supports nested function calls, host-defined value types
//! that participate in arithmetic, comparison and method dispatch, and
//! cooperative suspension: execution can be paused before any instruction and
//! later resumed from a stored continuation as if it had never stopped.
//!
//! Each machine is generic in one host value type, the `D` of [`Value<D>`]:
//! a host that needs several shapes of value supplies one enum over them.
//! Host values are owned, not shared; cloning one clones it deeply through
//! [`DynamicValue::cloned`].

pub mod fault;
pub mod instruction;
pub mod reals;
pub mod stack;
pub mod symbol;
pub mod text;
pub mod value;
pub mod vm;

pub use fault::DynamicFault;
pub use fault::Fault;
pub use fault::FaultKind;
pub use fault::FaultOrPause;
pub use fault::FaultStackFrame;
pub use instruction::CompareAction;
pub use instruction::Comparison;
pub use instruction::Destination;
pub use instruction::Function;
pub use instruction::Instruction;
pub use instruction::ValueOrSource;
pub use instruction::ValueSource;
pub use reals::real_total_cmp;
pub use reals::real_total_eq;
pub use stack::Stack;
pub use symbol::Symbol;
pub use text::i64_to_string;
pub use text::real_to_string;
pub use text::replace_all;
pub use text::u64_to_string;
pub use value::Dynamic;
pub use value::DynamicValue;
pub use value::NoCustomType;
pub use value::Value;
pub use value::ValueKind;
pub use vm::Bud;
pub use vm::Budgeted;
pub use vm::Environment;
pub use vm::Error;
pub use vm::ExecutionBehavior;
pub use vm::FromStack;
pub use vm::Module;
pub use vm::PausedExecution;
pub use vm::PausedFrame;
