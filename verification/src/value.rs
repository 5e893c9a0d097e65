//! The machine's value model: primitives plus host-supplied dynamic values.

use vstd::prelude::*;
use core::cmp::Ordering;
use crate::fault::FaultKind;
use crate::reals::real_is_truthy;
use crate::reals::real_total_cmp_spec;
use crate::reals::real_total_eq_spec;
use crate::reals::real_total_cmp;
use crate::reals::real_total_eq;
use crate::reals::real_truthy;
use crate::symbol::Symbol;

verus! {

/// A capability set that lets a host type participate in the machine:
/// truthiness, a kind name for diagnostics, optional equality and ordering
/// against any value, and optional named method dispatch.
///
/// Host code implements this trait to expose its own types through
/// [`Value::dynamic`]. Only `cloned` carries a contract: a copy must equal
/// the original, which every ordinary clone satisfies.
pub trait DynamicValue: Sized {
    /// Returns an exact copy of the value.
    fn cloned(&self) -> (r: Self)
        ensures
            r == *self,
    ;

    /// Returns true if the value is considered truthy.
    fn is_truthy(&self) -> bool;

    /// Returns a static name identifying this type, used only in diagnostics.
    fn kind(&self) -> &'static str;

    /// Renders the value as text, used only in diagnostics.
    fn display(&self) -> String;

    /// Returns whether `self` equals `other`, or `None` if the two cannot be
    /// compared. When equality of two values is evaluated and the left
    /// operand returns `None`, the right operand is consulted before the
    /// values are deemed unequal.
    fn partial_eq(&self, other: &Value<Self>) -> Option<bool> {
        None
    }

    /// Returns the ordering of `self` against `other`, or `None` if the two
    /// cannot be ordered. When an ordered comparison is evaluated and the
    /// left operand returns `None`, the right operand is consulted with the
    /// result reversed.
    fn partial_cmp(&self, other: &Value<Self>) -> Option<Ordering> {
        None
    }

    /// Calls the method named `name` with the given arguments, in the order
    /// they sat on the stack. The default declines every name.
    fn call(&mut self, name: &Symbol, arguments: Vec<Value<Self>>) -> Result<
        Value<Self>,
        FaultKind<Self>,
    > {
        let _ = arguments;
        Err(
            FaultKind::UnknownFunction {
                kind: ValueKind::Dynamic(self.kind()),
                name: name.clone(),
            },
        )
    }
}

/// A host value wrapped for use in the machine.
#[derive(Debug, PartialEq)]
pub struct Dynamic<D> {
    value: D,
}

impl<D> View for Dynamic<D> {
    type V = D;

    closed spec fn view(&self) -> D {
        self.value
    }
}

impl<D: DynamicValue> Dynamic<D> {
    /// Wraps a host value.
    pub fn new(value: D) -> (r: Self)
        ensures
            r@ == value,
    {
        Dynamic { value }
    }

    /// Returns a reference to the wrapped host value.
    pub fn get(&self) -> (r: &D)
        ensures
            *r == self@,
    {
        &self.value
    }

    /// Calls a method by `name` on the wrapped host value.
    pub fn call(&mut self, name: &Symbol, arguments: Vec<Value<D>>) -> Result<
        Value<D>,
        FaultKind<D>,
    > {
        self.value.call(name, arguments)
    }
}

impl<D: DynamicValue> Clone for Dynamic<D> {
    fn clone(&self) -> (r: Self)
        ensures
            r == *self,
    {
        Dynamic { value: self.value.cloned() }
    }
}

/// A machine value.
#[derive(Debug, PartialEq)]
pub enum Value<D> {
    /// A value representing the lack of a value.
    Void,
    /// A signed 64-bit integer value.
    Integer(i64),
    /// A real number: the raw bits of a 64-bit IEEE-754 double.
    Real(u64),
    /// A boolean representing true or false.
    Boolean(bool),
    /// A host-supplied value.
    Dynamic(Dynamic<D>),
}

impl<D: DynamicValue> Clone for Value<D> {
    fn clone(&self) -> (r: Self)
        ensures
            r == *self,
    {
        match self {
            Value::Void => Value::Void,
            Value::Integer(value) => Value::Integer(*value),
            Value::Real(bits) => Value::Real(*bits),
            Value::Boolean(value) => Value::Boolean(*value),
            Value::Dynamic(value) => Value::Dynamic(value.clone()),
        }
    }
}

impl<D: DynamicValue> Default for Value<D> {
    fn default() -> (r: Self)
        ensures
            r == Value::<D>::Void,
    {
        Value::Void
    }
}

/// True if neither value is a host value, so that their comparison is fixed
/// by the machine alone.
pub open spec fn both_primitive<D>(a: Value<D>, b: Value<D>) -> bool {
    !(a is Dynamic) && !(b is Dynamic)
}

/// Equality of two primitive values: integers and booleans by value, reals
/// under the total real equality, `Void` equal only to itself, and values of
/// different kinds never equal.
pub open spec fn value_eq_spec<D>(a: Value<D>, b: Value<D>) -> bool {
    match (a, b) {
        (Value::Integer(l), Value::Integer(r)) => l == r,
        (Value::Real(l), Value::Real(r)) => real_total_eq_spec(l, r),
        (Value::Boolean(l), Value::Boolean(r)) => l == r,
        (Value::Void, Value::Void) => true,
        _ => false,
    }
}

/// Ordering of two primitive values: defined within one kind, absent across
/// kinds.
pub open spec fn value_cmp_spec<D>(a: Value<D>, b: Value<D>) -> Option<Ordering> {
    match (a, b) {
        (Value::Integer(l), Value::Integer(r)) => Some(int_ordering(l, r)),
        (Value::Real(l), Value::Real(r)) => Some(real_total_cmp_spec(l, r)),
        (Value::Boolean(l), Value::Boolean(r)) => Some(bool_ordering(l, r)),
        (Value::Void, Value::Void) => Some(Ordering::Equal),
        _ => None,
    }
}

/// The ordering of two integers.
pub open spec fn int_ordering(l: i64, r: i64) -> Ordering {
    if l < r {
        Ordering::Less
    } else if l == r {
        Ordering::Equal
    } else {
        Ordering::Greater
    }
}

/// The ordering of two booleans: false sorts before true.
pub open spec fn bool_ordering(l: bool, r: bool) -> Ordering {
    if l == r {
        Ordering::Equal
    } else if r {
        Ordering::Less
    } else {
        Ordering::Greater
    }
}

/// The kind tag of a primitive value.
pub open spec fn primitive_kind<D>(v: Value<D>) -> ValueKind {
    match v {
        Value::Integer(_) => ValueKind::Integer,
        Value::Real(_) => ValueKind::Real,
        Value::Boolean(_) => ValueKind::Boolean,
        Value::Void => ValueKind::Void,
        Value::Dynamic(_) => arbitrary(),
    }
}

/// Truthiness of a primitive value: a nonzero integer, a real within the
/// tolerance of zero, a true boolean; `Void` is never truthy.
pub open spec fn value_truthy_spec<D>(v: Value<D>) -> bool {
    match v {
        Value::Integer(value) => value != 0,
        Value::Real(bits) => real_is_truthy(bits),
        Value::Boolean(value) => value,
        Value::Void => false,
        Value::Dynamic(_) => arbitrary(),
    }
}

impl<D: DynamicValue> Value<D> {
    /// Returns a new value wrapping the host value provided.
    pub fn dynamic(value: D) -> (r: Self)
        ensures
            r matches Value::Dynamic(d) && d@ == value,
    {
        Value::Dynamic(Dynamic::new(value))
    }

    /// Returns a reference to the wrapped host value, if this is a host
    /// value.
    pub fn as_dynamic(&self) -> (r: Option<&D>)
        ensures
            r is Some <==> self is Dynamic,
            r matches Some(d) ==> *d == self->Dynamic_0@,
    {
        if let Value::Dynamic(value) = self {
            Some(value.get())
        } else {
            None
        }
    }

    /// Returns a mutable reference to the wrapped host value, if this is a
    /// host value. The value may then be changed in place.
    pub fn as_dynamic_mut(&mut self) -> (r: Option<&mut D>)
        ensures
            r is Some <==> *old(self) is Dynamic,
            !(*old(self) is Dynamic) ==> *final(self) == *old(self),
            r matches Some(d) ==> *d == (*old(self))->Dynamic_0@ && *final(self) is Dynamic && (
            *final(self))->Dynamic_0@ == *final(d),
    {
        if let Value::Dynamic(value) = self {
            Some(&mut value.value)
        } else {
            None
        }
    }

    /// Returns the wrapped host value if this is a host value; otherwise the
    /// value itself is handed back unchanged.
    pub fn into_dynamic(self) -> (r: Result<D, Self>)
        ensures
            self is Dynamic ==> r == Ok::<D, Self>(self->Dynamic_0@),
            !(self is Dynamic) ==> r == Err::<D, Self>(self),
    {
        match self {
            Value::Dynamic(value) => Ok(value.value),
            other => Err(other),
        }
    }

    /// Returns true if the value is considered truthy.
    ///
    /// | value type | condition                          |
    /// |------------|------------------------------------|
    /// | Integer    | value != 0                         |
    /// | Real       | magnitude within the tolerance of 0 |
    /// | Boolean    | value is true                      |
    /// | Void       | always false                       |
    /// | Dynamic    | decided by the host value          |
    pub fn is_truthy(&self) -> (r: bool)
        ensures
            !(self is Dynamic) ==> r == value_truthy_spec(*self),
    {
        match self {
            Value::Integer(value) => *value != 0,
            Value::Real(bits) => real_truthy(*bits),
            Value::Boolean(value) => *value,
            Value::Dynamic(value) => value.get().is_truthy(),
            Value::Void => false,
        }
    }

    /// Returns the inverse of [`Value::is_truthy`].
    pub fn is_falsey(&self) -> (r: bool)
        ensures
            !(self is Dynamic) ==> r == !value_truthy_spec(*self),
    {
        !self.is_truthy()
    }

    /// Returns the kind of the contained value.
    pub fn kind(&self) -> (r: ValueKind)
        ensures
            self is Integer ==> r == ValueKind::Integer,
            self is Real ==> r == ValueKind::Real,
            self is Boolean ==> r == ValueKind::Boolean,
            self is Void ==> r == ValueKind::Void,
            self is Dynamic ==> r is Dynamic,
    {
        match self {
            Value::Integer(_) => ValueKind::Integer,
            Value::Real(_) => ValueKind::Real,
            Value::Boolean(_) => ValueKind::Boolean,
            Value::Dynamic(value) => ValueKind::Dynamic(value.get().kind()),
            Value::Void => ValueKind::Void,
        }
    }

    /// Returns true if `self` equals `other` under the machine's equality.
    /// Host values are consulted on either side; when both decline, the
    /// values are unequal. Equality never faults.
    pub fn eq(&self, other: &Value<D>) -> (r: bool)
        ensures
            both_primitive(*self, *other) ==> r == value_eq_spec(*self, *other),
    {
        match (self, other) {
            (Value::Integer(l), Value::Integer(r)) => *l == *r,
            (Value::Real(l), Value::Real(r)) => real_total_eq(*l, *r),
            (Value::Boolean(l), Value::Boolean(r)) => *l == *r,
            (Value::Void, Value::Void) => true,
            (Value::Dynamic(l), Value::Dynamic(rhs)) => {
                match l.get().partial_eq(other) {
                    Some(result) => result,
                    None => {
                        match rhs.get().partial_eq(self) {
                            Some(result) => result,
                            None => false,
                        }
                    },
                }
            },
            (Value::Dynamic(l), _) => {
                match l.get().partial_eq(other) {
                    Some(result) => result,
                    None => false,
                }
            },
            _ => false,
        }
    }

    /// Returns the ordering of `self` against `other`, or `None` when no
    /// ordering can be derived. Within one primitive kind the order is the
    /// kind's own; host values are consulted on either side, the right one
    /// with the result reversed.
    pub fn partial_cmp(&self, other: &Value<D>) -> (r: Option<Ordering>)
        ensures
            both_primitive(*self, *other) ==> r == value_cmp_spec(*self, *other),
    {
        match (self, other) {
            (Value::Integer(l), Value::Integer(r)) => {
                Some(
                    if *l < *r {
                        Ordering::Less
                    } else if *l == *r {
                        Ordering::Equal
                    } else {
                        Ordering::Greater
                    },
                )
            },
            (Value::Real(l), Value::Real(r)) => Some(real_total_cmp(*l, *r)),
            (Value::Boolean(l), Value::Boolean(r)) => {
                Some(
                    if *l == *r {
                        Ordering::Equal
                    } else if *r {
                        Ordering::Less
                    } else {
                        Ordering::Greater
                    },
                )
            },
            (Value::Void, Value::Void) => Some(Ordering::Equal),
            (Value::Dynamic(l), _) => dynamic_ord(self, l.get(), other),
            (_, Value::Dynamic(rhs)) => {
                match dynamic_ord(other, rhs.get(), self) {
                    Some(ordering) => Some(reverse_ordering(ordering)),
                    None => None,
                }
            },
            _ => None,
        }
    }
}

/// Orders `left`, whose host payload is `left_dynamic`, against `right`:
/// the left host value is asked first; if it declines and `right` is also a
/// host value, the right one is asked with the result reversed.
fn dynamic_ord<D: DynamicValue>(left: &Value<D>, left_dynamic: &D, right: &Value<D>) -> Option<
    Ordering,
> {
    match left_dynamic.partial_cmp(right) {
        Some(ordering) => Some(ordering),
        None => {
            match right {
                Value::Dynamic(rhs) => {
                    match rhs.get().partial_cmp(left) {
                        Some(ordering) => Some(reverse_ordering(ordering)),
                        None => None,
                    }
                },
                _ => None,
            }
        },
    }
}

/// Reverses an ordering.
pub fn reverse_ordering(ordering: Ordering) -> (r: Ordering)
    ensures
        ordering == Ordering::Less ==> r == Ordering::Greater,
        ordering == Ordering::Equal ==> r == Ordering::Equal,
        ordering == Ordering::Greater ==> r == Ordering::Less,
{
    match ordering {
        Ordering::Less => Ordering::Greater,
        Ordering::Equal => Ordering::Equal,
        Ordering::Greater => Ordering::Less,
    }
}

/// All primitive value kinds.
#[derive(Debug, Clone, Copy, Eq, PartialEq)]
pub enum ValueKind {
    /// A signed 64-bit integer value.
    Integer,
    /// A real number value (64-bit floating point).
    Real,
    /// A boolean representing true or false.
    Boolean,
    /// A host-supplied type, named by the host.
    Dynamic(&'static str),
    /// A value representing the lack of a value.
    Void,
}

impl ValueKind {
    /// Returns this kind as a string.
    pub fn as_str(&self) -> (r: &'static str)
        ensures
            *self == ValueKind::Integer ==> r@ == "Integer"@,
            *self == ValueKind::Real ==> r@ == "Real"@,
            *self == ValueKind::Boolean ==> r@ == "Boolean"@,
            *self == ValueKind::Void ==> r@ == "Void"@,
            self matches ValueKind::Dynamic(name) ==> r == name,
    {
        match self {
            ValueKind::Integer => "Integer",
            ValueKind::Real => "Real",
            ValueKind::Boolean => "Boolean",
            ValueKind::Void => "Void",
            ValueKind::Dynamic(name) => name,
        }
    }
}

/// A host type with no values, for machines that use no host values.
///
/// [`Bud::empty`](crate::vm::Bud::empty) builds its machine over this type.
#[derive(Debug, Clone, Copy, PartialEq, Eq)]
pub struct NoCustomType;

impl DynamicValue for NoCustomType {
    fn cloned(&self) -> (r: Self)
        ensures
            r == *self,
    {
        NoCustomType
    }

    fn is_truthy(&self) -> bool {
        false
    }

    fn kind(&self) -> &'static str {
        "NoCustomType"
    }

    fn display(&self) -> String {
        "NoCustomType".to_owned()
    }
}

} // verus!
