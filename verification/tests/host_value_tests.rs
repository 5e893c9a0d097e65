//! Host-supplied values: wrapping, method dispatch, comparison fallbacks,
//! and the faults named calls can raise.

use bud_vm::Bud;
use bud_vm::Destination;
use bud_vm::DynamicFault;
use bud_vm::DynamicValue;
use bud_vm::FaultKind;
use bud_vm::FaultOrPause;
use bud_vm::Instruction;
use bud_vm::Symbol;
use bud_vm::Value;
use bud_vm::ValueKind;
use bud_vm::ValueOrSource;
use bud_vm::ValueSource;
use std::cmp::Ordering;

#[derive(Debug, Clone, PartialEq)]
struct Counter {
    count: i64,
}

impl DynamicValue for Counter {
    fn cloned(&self) -> Self {
        self.clone()
    }

    fn is_truthy(&self) -> bool {
        self.count != 0
    }

    fn kind(&self) -> &'static str {
        "Counter"
    }

    fn display(&self) -> String {
        format!("Counter({})", self.count)
    }

    fn partial_eq(&self, other: &Value<Self>) -> Option<bool> {
        match other {
            Value::Integer(value) => Some(self.count == *value),
            Value::Dynamic(other) => Some(self.count == other.get().count),
            _ => None,
        }
    }

    fn partial_cmp(&self, other: &Value<Self>) -> Option<Ordering> {
        match other {
            Value::Integer(value) => Some(self.count.cmp(value)),
            Value::Dynamic(other) => Some(self.count.cmp(&other.get().count)),
            _ => None,
        }
    }

    fn call(
        &mut self,
        name: &Symbol,
        arguments: Vec<Value<Self>>,
    ) -> Result<Value<Self>, FaultKind<Self>> {
        match name.as_str() {
            "value" => Ok(Value::Integer(self.count)),
            "increment" => {
                for argument in arguments {
                    match argument {
                        Value::Integer(by) => self.count += by,
                        other => {
                            return Err(FaultKind::invalid_type(
                                "can't increment by `@received-value` (@received-type)",
                                other,
                            ));
                        }
                    }
                }
                Ok(Value::Void)
            }
            "explode" => Err(FaultKind::Dynamic(DynamicFault::new("the counter exploded"))),
            _ => Err(FaultKind::UnknownFunction {
                kind: ValueKind::Dynamic(self.kind()),
                name: name.clone(),
            }),
        }
    }
}

#[test]
fn host_faults_carry_their_payload() {
    let mut context: Bud<(), Counter> = Bud::default_for(());
    let fault = context
        .run::<i64>(
            vec![
                Instruction::Push(Value::dynamic(Counter { count: 1 })),
                Instruction::CallInstance {
                    target: None,
                    name: Symbol::from("explode"),
                    arg_count: 0,
                    destination: Destination::Stack,
                },
            ],
            0,
        )
        .err()
        .unwrap();
    match fault.kind {
        FaultOrPause::Fault(kind) => {
            assert_eq!(kind.to_message(), "the counter exploded");
            match kind {
                FaultKind::Dynamic(dynamic) => {
                    assert_eq!(
                        *dynamic.downcast_ref::<&str>().unwrap(),
                        "the counter exploded"
                    );
                }
                _ => unreachable!("expected a host fault"),
            }
        }
        FaultOrPause::Pause(_) => unreachable!("expected a fault"),
    }
}

#[test]
fn named_call_on_stack_target() {
    let mut context: Bud<(), Counter> = Bud::default_for(());
    let result = context.run::<i64>(
        vec![
            Instruction::Push(Value::dynamic(Counter { count: 12 })),
            Instruction::Push(Value::Integer(30)),
            Instruction::CallInstance {
                target: None,
                name: Symbol::from("increment"),
                arg_count: 1,
                destination: Destination::Stack,
            },
            Instruction::PopAndDrop,
            Instruction::Return(Some(ValueOrSource::Value(Value::Integer(7)))),
        ],
        0,
    );
    assert_eq!(result.ok().unwrap(), 7);
}

#[test]
fn named_call_on_variable_target_mutates_in_place() {
    let mut context: Bud<(), Counter> = Bud::default_for(());
    let result = context.run::<i64>(
        vec![
            Instruction::Load {
                variable_index: 0,
                value: ValueOrSource::Value(Value::dynamic(Counter { count: 10 })),
            },
            Instruction::Push(Value::Integer(5)),
            Instruction::CallInstance {
                target: Some(ValueSource::Variable(0)),
                name: Symbol::from("increment"),
                arg_count: 1,
                destination: Destination::Stack,
            },
            Instruction::PopAndDrop,
            Instruction::CallInstance {
                target: Some(ValueSource::Variable(0)),
                name: Symbol::from("value"),
                arg_count: 0,
                destination: Destination::Return,
            },
        ],
        1,
    );
    assert_eq!(result.ok().unwrap(), 15);
}

#[test]
fn named_call_on_primitive_faults_with_invalid_type() {
    let mut context: Bud<(), Counter> = Bud::default_for(());
    let fault = context
        .run::<i64>(
            vec![
                Instruction::Push(Value::Integer(1)),
                Instruction::CallInstance {
                    target: None,
                    name: Symbol::from("value"),
                    arg_count: 0,
                    destination: Destination::Stack,
                },
            ],
            0,
        )
        .err()
        .unwrap();
    assert!(matches!(
        fault.kind,
        FaultOrPause::Fault(FaultKind::InvalidType { .. })
    ));
}

#[test]
fn unknown_method_name_is_reported() {
    let mut context: Bud<(), Counter> = Bud::default_for(());
    let fault = context
        .run::<i64>(
            vec![
                Instruction::Push(Value::dynamic(Counter { count: 1 })),
                Instruction::CallInstance {
                    target: None,
                    name: Symbol::from("missing"),
                    arg_count: 0,
                    destination: Destination::Stack,
                },
            ],
            0,
        )
        .err()
        .unwrap();
    match fault.kind {
        FaultOrPause::Fault(kind) => {
            assert!(matches!(kind, FaultKind::UnknownFunction { .. }));
            assert_eq!(kind.to_message(), "unknown function missing on Counter");
        }
        FaultOrPause::Pause(_) => unreachable!("expected a fault"),
    }
}

#[test]
fn dynamic_comparisons_consult_both_sides() {
    let counter = Value::dynamic(Counter { count: 5 });
    let five: Value<Counter> = Value::Integer(5);
    let six: Value<Counter> = Value::Integer(6);
    // Left side is primitive: the right operand is asked, reversed.
    assert_eq!(five.partial_cmp(&counter), Some(Ordering::Equal));
    assert_eq!(six.partial_cmp(&counter), Some(Ordering::Greater));
    assert_eq!(counter.partial_cmp(&six), Some(Ordering::Less));
    // Equality between a host value and an integer.
    assert!(counter.eq(&five));
    assert!(!counter.eq(&six));
    // A host value that declines comparison yields no ordering.
    let void: Value<Counter> = Value::Void;
    assert_eq!(counter.partial_cmp(&void), None);
    assert!(!counter.eq(&void));
}

#[test]
fn wrapping_and_unwrapping_host_values() {
    let mut value = Value::dynamic(Counter { count: 3 });
    assert_eq!(value.as_dynamic(), Some(&Counter { count: 3 }));
    if let Some(counter) = value.as_dynamic_mut() {
        counter.count = 4;
    }
    assert_eq!(value.clone().into_dynamic().ok(), Some(Counter { count: 4 }));
    let plain: Value<Counter> = Value::Integer(1);
    assert!(plain.as_dynamic().is_none());
    assert_eq!(plain.into_dynamic(), Err(Value::Integer(1)));
}

#[test]
fn host_truthiness_and_rendering() {
    let zero = Value::dynamic(Counter { count: 0 });
    assert!(zero.is_falsey());
    let one = Value::dynamic(Counter { count: 1 });
    assert!(one.is_truthy());
    assert_eq!(one.kind().as_str(), "Counter");
    assert_eq!(one.to_display_string(), "Counter(1)");
}
