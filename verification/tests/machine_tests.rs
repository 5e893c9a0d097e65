//! Arithmetic totality, real arithmetic and comparison through programs,
//! stack primitives, truthiness, rendering, and host value dispatch.

use bud_vm::Bud;
use bud_vm::Budgeted;
use bud_vm::CompareAction;
use bud_vm::Comparison;
use bud_vm::Destination;
use bud_vm::DynamicFault;
use bud_vm::FaultKind;
use bud_vm::FaultOrPause;
use bud_vm::Function;
use bud_vm::Instruction;
use bud_vm::NoCustomType;
use bud_vm::Stack;
use bud_vm::Symbol;
use bud_vm::Value;
use bud_vm::ValueKind;
use bud_vm::ValueOrSource;
use bud_vm::ValueSource;
use bud_vm::i64_to_string;
use bud_vm::real_to_string;
use bud_vm::u64_to_string;

type PlainValue = Value<NoCustomType>;

fn binary_op(
    op: fn(ValueSource, ValueOrSource<NoCustomType>, Destination) -> Instruction<NoCustomType>,
    left: PlainValue,
    right: PlainValue,
) -> Result<PlainValue, bud_vm::Fault<NoCustomType>> {
    let mut context = Bud::empty();
    context.run::<PlainValue>(
        vec![
            Instruction::Load {
                variable_index: 0,
                value: ValueOrSource::Value(left),
            },
            op(
                ValueSource::Variable(0),
                ValueOrSource::Value(right),
                Destination::Return,
            ),
        ],
        1,
    )
}

fn add_instruction(
    left: ValueSource,
    right: ValueOrSource<NoCustomType>,
    destination: Destination,
) -> Instruction<NoCustomType> {
    Instruction::Add { left, right, destination }
}

fn sub_instruction(
    left: ValueSource,
    right: ValueOrSource<NoCustomType>,
    destination: Destination,
) -> Instruction<NoCustomType> {
    Instruction::Sub { left, right, destination }
}

fn multiply_instruction(
    left: ValueSource,
    right: ValueOrSource<NoCustomType>,
    destination: Destination,
) -> Instruction<NoCustomType> {
    Instruction::Multiply { left, right, destination }
}

fn divide_instruction(
    left: ValueSource,
    right: ValueOrSource<NoCustomType>,
    destination: Destination,
) -> Instruction<NoCustomType> {
    Instruction::Divide { left, right, destination }
}

#[test]
fn integer_arithmetic_exact() {
    let result = binary_op(add_instruction, Value::Integer(2), Value::Integer(3));
    assert_eq!(result.ok().unwrap(), Value::Integer(5));
    let result = binary_op(sub_instruction, Value::Integer(2), Value::Integer(3));
    assert_eq!(result.ok().unwrap(), Value::Integer(-1));
    let result = binary_op(multiply_instruction, Value::Integer(-4), Value::Integer(3));
    assert_eq!(result.ok().unwrap(), Value::Integer(-12));
    let result = binary_op(divide_instruction, Value::Integer(7), Value::Integer(-2));
    assert_eq!(result.ok().unwrap(), Value::Integer(-3));
}

#[test]
fn integer_arithmetic_overflow_is_void() {
    let result = binary_op(add_instruction, Value::Integer(i64::MAX), Value::Integer(1));
    assert_eq!(result.ok().unwrap(), Value::Void);
    let result = binary_op(sub_instruction, Value::Integer(i64::MIN), Value::Integer(1));
    assert_eq!(result.ok().unwrap(), Value::Void);
    let result = binary_op(
        multiply_instruction,
        Value::Integer(i64::MAX),
        Value::Integer(2),
    );
    assert_eq!(result.ok().unwrap(), Value::Void);
    let result = binary_op(divide_instruction, Value::Integer(5), Value::Integer(0));
    assert_eq!(result.ok().unwrap(), Value::Void);
    let result = binary_op(
        divide_instruction,
        Value::Integer(i64::MIN),
        Value::Integer(-1),
    );
    assert_eq!(result.ok().unwrap(), Value::Void);
}

#[test]
fn real_arithmetic_matches_hardware() {
    let result = binary_op(
        add_instruction,
        Value::Real(1.5f64.to_bits()),
        Value::Real(2.25f64.to_bits()),
    );
    assert_eq!(result.ok().unwrap(), Value::Real(3.75f64.to_bits()));
    let result = binary_op(
        sub_instruction,
        Value::Real(2.5f64.to_bits()),
        Value::Real(1.25f64.to_bits()),
    );
    assert_eq!(result.ok().unwrap(), Value::Real(1.25f64.to_bits()));
    let result = binary_op(
        multiply_instruction,
        Value::Real(1.5f64.to_bits()),
        Value::Real(2.0f64.to_bits()),
    );
    assert_eq!(result.ok().unwrap(), Value::Real(3.0f64.to_bits()));
    let result = binary_op(
        divide_instruction,
        Value::Real(1.0f64.to_bits()),
        Value::Real(0.0f64.to_bits()),
    );
    assert_eq!(result.ok().unwrap(), Value::Real(f64::INFINITY.to_bits()));
    let result = binary_op(
        add_instruction,
        Value::Real(0.1f64.to_bits()),
        Value::Real(0.2f64.to_bits()),
    );
    assert_eq!(result.ok().unwrap(), Value::Real((0.1f64 + 0.2f64).to_bits()));
}

#[test]
fn real_fuzzy_equality_in_comparison() {
    // 0.1 + 0.2 differs from 0.3 by less than the tolerance.
    let mut context = Bud::empty();
    let result = context.run::<bool>(
        vec![
            Instruction::Load {
                variable_index: 0,
                value: ValueOrSource::Value(Value::Real((0.1f64 + 0.2f64).to_bits())),
            },
            Instruction::Compare {
                comparison: Comparison::Equal,
                left: ValueSource::Variable(0),
                right: ValueOrSource::Value(Value::Real(0.3f64.to_bits())),
                action: CompareAction::Store(Destination::Return),
            },
        ],
        1,
    );
    assert_eq!(result.ok().unwrap(), true);
}

#[test]
fn mixed_kind_arithmetic_faults() {
    let result = binary_op(add_instruction, Value::Integer(1), Value::Boolean(true));
    let fault = result.err().unwrap();
    match fault.kind {
        FaultOrPause::Fault(kind) => {
            assert_eq!(
                kind.to_message(),
                "can't add Integer and `true` (Boolean)"
            );
        }
        FaultOrPause::Pause(_) => unreachable!("expected a fault"),
    }
    let result = binary_op(add_instruction, Value::Boolean(true), Value::Integer(1));
    let fault = result.err().unwrap();
    match fault.kind {
        FaultOrPause::Fault(kind) => {
            assert_eq!(
                kind.to_message(),
                "`true` (Boolean) is not able to be added"
            );
        }
        FaultOrPause::Pause(_) => unreachable!("expected a fault"),
    }
}

#[test]
fn ordered_comparison_without_order_faults() {
    let mut context = Bud::empty();
    let result = context.run::<bool>(
        vec![
            Instruction::Load {
                variable_index: 0,
                value: ValueOrSource::Value(Value::Integer(1)),
            },
            Instruction::Compare {
                comparison: Comparison::LessThan,
                left: ValueSource::Variable(0),
                right: ValueOrSource::Value(Value::Void),
                action: CompareAction::Store(Destination::Return),
            },
        ],
        1,
    );
    let fault = result.err().unwrap();
    match fault.kind {
        FaultOrPause::Fault(kind) => {
            assert!(matches!(kind, FaultKind::TypeMismatch { .. }));
            assert_eq!(
                kind.to_message(),
                "invalid comparison between Integer and `Void` (Void)"
            );
        }
        FaultOrPause::Pause(_) => unreachable!("expected a fault"),
    }
}

#[test]
fn equality_comparison_never_faults() {
    let mut context = Bud::empty();
    let result = context.run::<bool>(
        vec![
            Instruction::Load {
                variable_index: 0,
                value: ValueOrSource::Value(Value::Integer(1)),
            },
            Instruction::Compare {
                comparison: Comparison::NotEqual,
                left: ValueSource::Variable(0),
                right: ValueOrSource::Value(Value::Void),
                action: CompareAction::Store(Destination::Return),
            },
        ],
        1,
    );
    assert_eq!(result.ok().unwrap(), true);
}

#[test]
fn pop_n_returns_bottom_to_top() {
    let mut stack: Stack<NoCustomType> = Stack::new(0, usize::MAX);
    for i in 0..4 {
        stack.push(Value::Integer(i)).ok().unwrap();
    }
    let popped = stack.pop_n(2);
    assert_eq!(popped, vec![Value::Integer(2), Value::Integer(3)]);

    let mut stack: Stack<NoCustomType> = Stack::new(0, usize::MAX);
    for i in 0..4 {
        stack.push(Value::Integer(i)).ok().unwrap();
    }
    assert_eq!(stack.pop().ok().unwrap(), Value::Integer(3));
    assert_eq!(stack.pop().ok().unwrap(), Value::Integer(2));
}

#[test]
fn stack_capacity_is_enforced() {
    let mut stack: Stack<NoCustomType> = Stack::new(0, 1);
    assert_eq!(stack.remaining_capacity(), 1);
    stack.push(Value::Integer(1)).ok().unwrap();
    assert!(matches!(
        stack.push(Value::Integer(2)),
        Err(FaultKind::StackOverflow)
    ));
    assert_eq!(stack.len(), 1);

    let mut context: Bud<(), NoCustomType> = Bud::new((), 0, 1);
    let fault = context
        .run::<PlainValue>(
            vec![
                Instruction::Push(Value::Integer(1)),
                Instruction::Push(Value::Integer(2)),
            ],
            0,
        )
        .err()
        .unwrap();
    assert!(matches!(
        fault.kind,
        FaultOrPause::Fault(FaultKind::StackOverflow)
    ));
}

#[test]
fn pop_beyond_baseline_underflows() {
    let mut context = Bud::empty();
    let fault = context
        .run::<PlainValue>(vec![Instruction::PopAndDrop], 0)
        .err()
        .unwrap();
    assert_eq!(fault.to_message(), "stack popped but no values present");
    assert!(matches!(
        fault.kind,
        FaultOrPause::Fault(FaultKind::StackUnderflow)
    ));
}

#[test]
fn stack_regions_grow_and_collapse() {
    let mut stack: Stack<NoCustomType> = Stack::new(0, 10);
    for i in 0..4 {
        stack.push(Value::Integer(i)).ok().unwrap();
    }
    stack.grow_by(2).ok().unwrap();
    assert_eq!(stack.len(), 6);
    assert_eq!(*stack.get(4), Value::Void);
    stack.grow_to(8).ok().unwrap();
    assert_eq!(stack.len(), 8);
    assert!(matches!(stack.grow_by(3), Err(FaultKind::StackOverflow)));
    assert_eq!(stack.len(), 8);
    // Remove the middle; later values shift down.
    stack.remove_range(1, 3);
    assert_eq!(stack.len(), 6);
    assert_eq!(*stack.get(0), Value::Integer(0));
    assert_eq!(*stack.get(1), Value::Integer(3));
    assert_eq!(*stack.get(2), Value::Void);
    stack.clear();
    assert!(stack.is_empty());
    assert_eq!(stack.remaining_capacity(), 10);
}

#[test]
fn extend_preserves_order() {
    let mut stack: Stack<NoCustomType> = Stack::new(0, usize::MAX);
    let count = stack
        .extend(vec![
            Value::Integer(1),
            Value::Integer(2),
            Value::Integer(3),
        ])
        .ok()
        .unwrap();
    assert_eq!(count, 3);
    assert_eq!(*stack.get(0), Value::Integer(1));
    assert_eq!(*stack.get(1), Value::Integer(2));
    assert_eq!(*stack.get(2), Value::Integer(3));
    assert_eq!(*stack.top().ok().unwrap(), Value::Integer(3));
}

#[test]
fn real_truthiness_is_near_zero() {
    // A real is truthy when its magnitude lies within the tolerance of zero.
    let near_zero: PlainValue = Value::Real(0.0f64.to_bits());
    assert!(near_zero.is_truthy());
    let one: PlainValue = Value::Real(1.0f64.to_bits());
    assert!(one.is_falsey());
    let nan: PlainValue = Value::Real(f64::NAN.to_bits());
    assert!(nan.is_falsey());

    let zero: PlainValue = Value::Integer(0);
    assert!(zero.is_falsey());
    let two: PlainValue = Value::Integer(2);
    assert!(two.is_truthy());
    let void: PlainValue = Value::Void;
    assert!(void.is_falsey());
}

#[test]
fn budget_matches_unbounded_run() {
    // A counting loop: sums 1..=5 with a conditional backward jump.
    let program = || -> Vec<Instruction<NoCustomType>> {
        vec![
            // variable 0: counter, variable 1: sum
            Instruction::Load {
                variable_index: 0,
                value: ValueOrSource::Value(Value::Integer(0)),
            },
            Instruction::Load {
                variable_index: 1,
                value: ValueOrSource::Value(Value::Integer(0)),
            },
            Instruction::Add {
                left: ValueSource::Variable(0),
                right: ValueOrSource::Value(Value::Integer(1)),
                destination: Destination::Variable(0),
            },
            Instruction::Add {
                left: ValueSource::Variable(1),
                right: ValueOrSource::Variable(0),
                destination: Destination::Variable(1),
            },
            Instruction::Compare {
                comparison: Comparison::LessThan,
                left: ValueSource::Variable(0),
                right: ValueOrSource::Value(Value::Integer(5)),
                action: CompareAction::JumpIfFalse(6),
            },
            Instruction::JumpTo(2),
            Instruction::Return(Some(ValueOrSource::Variable(1))),
        ]
    };
    let mut unbounded = Bud::empty();
    let direct = unbounded.run::<i64>(program(), 2).ok().unwrap();
    assert_eq!(direct, 15);

    let mut budgeted: Bud<Budgeted, NoCustomType> = Bud::default_for(Budgeted::new(0));
    let mut fault = budgeted.run::<i64>(program(), 2).unwrap_err();
    let stepped: i64 = loop {
        let pending = match fault.kind {
            FaultOrPause::Pause(pending) => pending,
            FaultOrPause::Fault(error) => unreachable!("unexpected error: {}", error.to_message()),
        };
        budgeted.environment_mut().add_budget(1);
        fault = match pending.resume(&mut budgeted) {
            Ok(result) => break result,
            Err(err) => err,
        };
    };
    assert_eq!(stepped, direct);
}

#[test]
fn dropping_a_continuation_abandons_the_run() {
    let mut context: Bud<Budgeted, NoCustomType> = Bud::default_for(Budgeted::new(1));
    let fault = context
        .run::<i64>(
            vec![
                Instruction::Push(Value::Integer(1)),
                Instruction::Push(Value::Integer(2)),
                Instruction::Return(Some(ValueOrSource::Value(Value::Integer(9)))),
            ],
            0,
        )
        .unwrap_err();
    assert!(matches!(fault.kind, FaultOrPause::Pause(_)));
    drop(fault);
    // The machine stays usable for fresh work.
    context.environment_mut().add_budget(100);
    let result = context.run::<i64>(
        vec![Instruction::Return(Some(ValueOrSource::Value(
            Value::Integer(3),
        )))],
        0,
    );
    assert_eq!(result.ok().unwrap(), 3);
}

#[test]
fn call_by_name_with_arguments() {
    let double: Function<NoCustomType> = Function {
        arg_count: 1,
        variable_count: 0,
        code: vec![Instruction::Add {
            left: ValueSource::Argument(0),
            right: ValueOrSource::Argument(0),
            destination: Destination::Return,
        }],
    };
    let mut context = Bud::empty().with_function("double", double);
    let result = context.call::<i64>(&Symbol::from("double"), vec![Value::Integer(21)]);
    assert_eq!(result.ok().unwrap(), 42);
    assert!(context.stack().is_empty());
}

#[test]
fn function_registry_resolves_names() {
    let empty_fn = || -> Function<NoCustomType> {
        Function {
            arg_count: 0,
            variable_count: 0,
            code: vec![],
        }
    };
    let mut context = Bud::empty();
    let first = context.define_function("first", empty_fn());
    let second = context.define_function("second", empty_fn());
    assert_eq!(first, 0);
    assert_eq!(second, 1);
    assert_eq!(
        context.resolve_function_vtable_index(&Symbol::from("first")),
        Some(0)
    );
    assert_eq!(
        context.resolve_function_vtable_index(&Symbol::from("second")),
        Some(1)
    );
    assert_eq!(
        context.resolve_function_vtable_index(&Symbol::from("third")),
        None
    );
    // Redefining a name re-points it; the old index stays callable.
    let replacement = context.define_function("first", empty_fn());
    assert_eq!(replacement, 2);
    assert_eq!(
        context.resolve_function_vtable_index(&Symbol::from("first")),
        Some(2)
    );
}

#[test]
fn undefined_function_call_is_reported() {
    let mut context = Bud::empty();
    let result = context.call::<PlainValue>(&Symbol::from("missing"), vec![]);
    match result {
        Err(bud_vm::Error::UndefinedFunction(name)) => {
            assert_eq!(name.as_str(), "missing");
        }
        _ => unreachable!("expected an undefined-function error"),
    }
}

#[test]
fn integer_rendering_is_decimal() {
    assert_eq!(u64_to_string(0), "0");
    assert_eq!(u64_to_string(90210), "90210");
    assert_eq!(i64_to_string(-123), "-123");
    assert_eq!(i64_to_string(i64::MIN), "-9223372036854775808");
    assert_eq!(i64_to_string(i64::MAX), "9223372036854775807");
}

#[test]
fn real_rendering_from_bits() {
    assert_eq!(real_to_string(f64::NAN.to_bits()), "NaN");
    assert_eq!(real_to_string(f64::INFINITY.to_bits()), "inf");
    assert_eq!(real_to_string(f64::NEG_INFINITY.to_bits()), "-inf");
    assert_eq!(real_to_string(0.0f64.to_bits()), "0");
    assert_eq!(real_to_string((-0.0f64).to_bits()), "-0");
    assert_eq!(real_to_string(1.0f64.to_bits()), "0x1.0000000000000p+0");
    assert_eq!(real_to_string((-1.5f64).to_bits()), "-0x1.8000000000000p+0");
    assert_eq!(real_to_string(0.5f64.to_bits()), "0x1.0000000000000p-1");
}

#[test]
fn dynamic_fault_rejects_other_types() {
    let error = DynamicFault::new(5i32);
    assert_eq!(*error.downcast_ref::<i32>().unwrap(), 5);
    assert!(error.downcast_ref::<bool>().is_none());
    let error = match error.try_unwrap::<bool>() {
        Err(error) => error,
        Ok(_) => unreachable!("wrong type must not unwrap"),
    };
    assert_eq!(error.try_unwrap::<i32>().ok().unwrap(), 5);
}

#[test]
fn value_kind_names() {
    let one: PlainValue = Value::Integer(1);
    assert_eq!(one.kind(), ValueKind::Integer);
    assert_eq!(one.kind().as_str(), "Integer");
    let real: PlainValue = Value::Real(0);
    assert_eq!(real.kind().as_str(), "Real");
    let flag: PlainValue = Value::Boolean(false);
    assert_eq!(flag.kind().as_str(), "Boolean");
    let void: PlainValue = Value::Void;
    assert_eq!(void.kind().as_str(), "Void");
    let custom = Value::dynamic(NoCustomType);
    assert_eq!(custom.kind().as_str(), "NoCustomType");
}
