//! The machine's core behaviors: real comparisons, budgeted pauses, operand
//! faults, and call cleanup.

use std::cmp::Ordering;

use bud_vm::Bud;
use bud_vm::Budgeted;
use bud_vm::Destination;
use bud_vm::DynamicFault;
use bud_vm::FaultKind;
use bud_vm::FaultOrPause;
use bud_vm::Function;
use bud_vm::Instruction;
use bud_vm::NoCustomType;
use bud_vm::Symbol;
use bud_vm::Value;
use bud_vm::ValueOrSource;
use bud_vm::ValueSource;
use bud_vm::real_total_cmp;
use bud_vm::real_total_eq;

fn cmp(a: f64, b: f64) -> Ordering {
    real_total_cmp(a.to_bits(), b.to_bits())
}

fn eq(a: f64, b: f64) -> bool {
    real_total_eq(a.to_bits(), b.to_bits())
}

#[test]
fn real_cmp_tests() {
    const EXPECTED_ORDER: [f64; 10] = [
        f64::NEG_INFINITY,
        f64::NEG_INFINITY,
        -1.0,
        -0.0,
        0.0,
        1.0,
        f64::INFINITY,
        f64::INFINITY,
        f64::NAN,
        f64::NAN,
    ];

    // NaN comparisons
    assert_eq!(cmp(f64::NAN, f64::NAN), Ordering::Equal);
    assert_eq!(cmp(f64::NAN, -1.), Ordering::Greater);
    assert_eq!(cmp(f64::NAN, 1.), Ordering::Greater);
    assert_eq!(cmp(f64::NAN, f64::NEG_INFINITY), Ordering::Greater);
    assert_eq!(cmp(f64::NAN, f64::INFINITY), Ordering::Greater);

    // NaN comparisons reversed
    assert_eq!(cmp(-1., f64::NAN), Ordering::Less);
    assert_eq!(cmp(1., f64::NAN), Ordering::Less);
    assert_eq!(cmp(f64::NEG_INFINITY, f64::NAN), Ordering::Less);
    assert_eq!(cmp(f64::INFINITY, f64::NAN), Ordering::Less);

    // Infinity comparisons
    assert_eq!(cmp(f64::INFINITY, f64::INFINITY), Ordering::Equal);
    assert_eq!(cmp(f64::INFINITY, f64::NEG_INFINITY), Ordering::Greater);
    assert_eq!(cmp(f64::INFINITY, -1.), Ordering::Greater);
    assert_eq!(cmp(f64::INFINITY, 1.), Ordering::Greater);

    // Infinity comparisons reversed
    assert_eq!(cmp(f64::NEG_INFINITY, f64::INFINITY), Ordering::Less);
    assert_eq!(cmp(-1., f64::INFINITY), Ordering::Less);
    assert_eq!(cmp(1., f64::INFINITY), Ordering::Less);

    // Negative-Infinity comparisons
    assert_eq!(cmp(f64::NEG_INFINITY, f64::NEG_INFINITY), Ordering::Equal);
    assert_eq!(cmp(f64::NEG_INFINITY, -1.), Ordering::Less);
    assert_eq!(cmp(f64::NEG_INFINITY, 1.), Ordering::Less);

    // Negative-Infinity comparisons reversed
    assert_eq!(cmp(f64::NEG_INFINITY, -1.), Ordering::Less);
    assert_eq!(cmp(f64::NEG_INFINITY, 1.), Ordering::Less);
    let mut values = vec![
        1.0,
        f64::INFINITY,
        0.0,
        f64::NEG_INFINITY,
        -1.0,
        -0.0,
        f64::NAN,
        f64::NAN,
        f64::INFINITY,
        f64::NEG_INFINITY,
    ];
    values.sort_by(|a, b| cmp(*a, *b));
    println!("Sorted: {values:?}");
    for (a, b) in values.iter().zip(EXPECTED_ORDER.iter()) {
        assert!(eq(*a, *b), "{a} != {b}");
    }
}

#[test]
fn budget_with_frames() {
    let test: Function<NoCustomType> = Function {
        arg_count: 1,
        variable_count: 2,
        code: vec![
            Instruction::If {
                condition: ValueSource::Argument(0),
                false_jump_to: 12,
            },
            Instruction::Load {
                variable_index: 0,
                value: ValueOrSource::Value(Value::Integer(1)),
            },
            Instruction::Push(Value::Integer(1)),
            Instruction::Push(Value::Integer(2)),
            Instruction::Add {
                left: ValueSource::Variable(0),
                right: ValueOrSource::Value(Value::Integer(2)),
                destination: Destination::Variable(0),
            },
            Instruction::Push(Value::Integer(3)),
            Instruction::Add {
                left: ValueSource::Variable(0),
                right: ValueOrSource::Value(Value::Integer(3)),
                destination: Destination::Variable(0),
            },
            Instruction::Push(Value::Integer(4)),
            Instruction::Add {
                left: ValueSource::Variable(0),
                right: ValueOrSource::Value(Value::Integer(4)),
                destination: Destination::Variable(0),
            },
            Instruction::Push(Value::Integer(5)),
            Instruction::Add {
                left: ValueSource::Variable(0),
                right: ValueOrSource::Value(Value::Integer(5)),
                destination: Destination::Variable(0),
            },
            Instruction::Return(Some(ValueOrSource::Variable(0))),
            // If we were passed false, call ourself twice.
            Instruction::Push(Value::Boolean(true)),
            Instruction::Call {
                vtable_index: None,
                arg_count: 1,
                destination: Destination::Variable(0),
            },
            Instruction::Push(Value::Boolean(true)),
            Instruction::Call {
                vtable_index: None,
                arg_count: 1,
                destination: Destination::Variable(1),
            },
            Instruction::Add {
                left: ValueSource::Variable(0),
                right: ValueOrSource::Variable(1),
                destination: Destination::Variable(0),
            }, // should produce 30
            Instruction::PushCopy(ValueSource::Variable(0)),
        ],
    };
    let mut context = Bud::default_for(Budgeted::new(0)).with_function("test", test);
    let mut fault = context
        .run::<i64>(
            vec![
                Instruction::Push(Value::Boolean(false)),
                Instruction::Call {
                    vtable_index: Some(0),
                    arg_count: 1,
                    destination: Destination::Stack,
                },
            ],
            0,
        )
        .unwrap_err();
    let output: i64 = loop {
        println!("Paused");
        let pending = match fault.kind {
            FaultOrPause::Pause(pending) => pending,
            FaultOrPause::Fault(error) => unreachable!("unexpected error: {}", error.to_message()),
        };
        context.environment_mut().add_budget(1);

        fault = match pending.resume(&mut context) {
            Ok(result) => break result,
            Err(err) => err,
        };
    };

    assert_eq!(output, 30);
}

#[test]
fn dynamic_error_conversions() {
    let error = DynamicFault::new(true);
    assert!(*error.downcast_ref::<bool>().unwrap());
    assert!(error.try_unwrap::<bool>().ok().unwrap());
}

#[test]
fn invalid_variables() {
    let test: Function<NoCustomType> = Function {
        arg_count: 0,
        variable_count: 0,
        code: vec![Instruction::PushCopy(ValueSource::Variable(0))],
    };
    let mut context = Bud::empty().with_function("test", test);
    assert!(matches!(
        context
            .run::<i64>(
                vec![Instruction::Call {
                    vtable_index: Some(0),
                    arg_count: 0,
                    destination: Destination::Stack,
                }],
                0
            )
            .unwrap_err()
            .kind,
        FaultOrPause::Fault(FaultKind::InvalidVariableIndex)
    ));
}

#[test]
fn invalid_argument() {
    let test: Function<NoCustomType> = Function {
        arg_count: 0,
        variable_count: 0,
        code: vec![Instruction::PushCopy(ValueSource::Argument(0))],
    };
    let mut context = Bud::empty().with_function("test", test);
    assert!(matches!(
        context
            .run::<i64>(
                vec![Instruction::Call {
                    vtable_index: Some(0),
                    arg_count: 0,
                    destination: Destination::Stack,
                }],
                0
            )
            .unwrap_err()
            .kind,
        FaultOrPause::Fault(FaultKind::InvalidArgumentIndex)
    ));
}

#[test]
fn invalid_vtable_index() {
    let mut context = Bud::empty();
    assert!(matches!(
        context
            .run::<i64>(
                vec![Instruction::Call {
                    vtable_index: Some(0),
                    arg_count: 0,
                    destination: Destination::Stack,
                }],
                0
            )
            .unwrap_err()
            .kind,
        FaultOrPause::Fault(FaultKind::InvalidVtableIndex)
    ));
}

#[test]
fn function_without_return_value() {
    let test: Function<NoCustomType> = Function {
        arg_count: 0,
        variable_count: 0,
        code: vec![],
    };
    let mut context = Bud::empty().with_function("test", test);
    assert_eq!(
        context
            .call::<Value<NoCustomType>>(&Symbol::from("test"), vec![])
            .ok()
            .unwrap(),
        Value::Void
    );
}

#[test]
fn function_needs_extra_cleanup() {
    let test: Function<NoCustomType> = Function {
        arg_count: 0,
        variable_count: 0,
        code: vec![
            Instruction::Push(Value::Integer(1)),
            Instruction::Push(Value::Integer(2)),
        ],
    };
    let mut context = Bud::empty().with_function("test", test);
    assert_eq!(
        context
            .run::<Value<NoCustomType>>(
                vec![Instruction::Call {
                    vtable_index: Some(0),
                    arg_count: 0,
                    destination: Destination::Stack,
                }],
                0
            )
            .ok()
            .unwrap(),
        Value::Integer(1)
    );

    assert!(context.stack().is_empty());
}
