//! The closed universe of types that may appear in a native signature or a
//! structure field, together with the predicates that drive every backend.

use vstd::prelude::*;

verus! {

/// How a duration crosses the native boundary.
#[derive(Clone, Copy, Debug, PartialEq, Eq, Structural)]
pub enum DurationMapping {
    /// Unsigned count of milliseconds.
    Millis,
    /// Unsigned count of seconds.
    Seconds,
    /// Fractional count of seconds.
    SecondsFloat,
}

/// Identity of an enumeration defined in a library.
#[derive(Clone, Copy, Debug, PartialEq, Eq, Structural)]
pub struct NativeEnumHandle {
    pub id: usize,
}

/// Identity of a structure that has been declared, and maybe not yet defined.
#[derive(Clone, Copy, Debug, PartialEq, Eq, Structural)]
pub struct NativeStructDeclarationHandle {
    pub id: usize,
}

/// Identity of a structure whose fields have been defined.
#[derive(Clone, Copy, Debug, PartialEq, Eq, Structural)]
pub struct NativeStructHandle {
    pub id: usize,
}

/// Identity of a class that has been declared, and maybe not yet defined.
#[derive(Clone, Copy, Debug, PartialEq, Eq, Structural)]
pub struct ClassDeclarationHandle {
    pub id: usize,
}

/// Identity of a class whose members have been defined.
#[derive(Clone, Copy, Debug, PartialEq, Eq, Structural)]
pub struct ClassHandle {
    pub id: usize,
}

/// Identity of a callback interface.
#[derive(Clone, Copy, Debug, PartialEq, Eq, Structural)]
pub struct InterfaceHandle {
    pub id: usize,
}

/// Identity of an iterator.
#[derive(Clone, Copy, Debug, PartialEq, Eq, Structural)]
pub struct IteratorHandle {
    pub id: usize,
}

/// Identity of a native function.
#[derive(Clone, Copy, Debug, PartialEq, Eq, Structural)]
pub struct NativeFunctionHandle {
    pub id: usize,
}

/// A parameter, return or field type.
#[derive(Clone, Copy, Debug, PartialEq, Eq, Structural)]
pub enum Type {
    Bool,
    Uint8,
    Sint8,
    Uint16,
    Sint16,
    Uint32,
    Sint32,
    Uint64,
    Sint64,
    Float,
    Double,
    /// A null-terminated C string.
    String,
    Duration(DurationMapping),
    Enum(NativeEnumHandle),
    /// A structure passed by value.
    Struct(NativeStructHandle),
    /// A structure passed by opaque handle.
    StructRef(NativeStructDeclarationHandle),
    /// An opaque handle to a class instance.
    ClassRef(ClassDeclarationHandle),
    /// A callback interface value.
    Interface(InterfaceHandle),
    /// An opaque iterator handle.
    Iterator(IteratorHandle),
}

/// The family of marshalling code that a backend emits for a type.
#[derive(Clone, Copy, Debug, PartialEq, Eq, Structural)]
pub enum ConversionKind {
    Identity,
    ValueBoxing,
    String,
    Duration,
    EnumIntegral,
    ClassHandle,
    StructByValue,
    InterfaceAdapter,
    IteratorAdapter,
}

/// The result of a native function: nothing, or a value of some type.
#[derive(Clone, Copy, Debug, PartialEq, Eq, Structural)]
pub enum ReturnType {
    Void,
    Type(Type),
}

impl Type {
    /// Booleans, fixed-width integers and the two floating-point widths: the
    /// types whose native and host representations coincide.
    pub open spec fn is_plain_value(self) -> bool {
        self is Bool || self is Uint8 || self is Sint8 || self is Uint16 || self is Sint16
            || self is Uint32 || self is Sint32 || self is Uint64 || self is Sint64
            || self is Float || self is Double
    }

    pub open spec fn spec_is_primitive(self) -> bool {
        self.is_plain_value() || self is String || self is Duration
    }

    pub open spec fn spec_requires_marshalling(self) -> bool {
        !self.spec_is_primitive() || self is String || self is Duration
    }

    pub open spec fn spec_conversion_kind(self) -> ConversionKind {
        match self {
            Type::String => ConversionKind::String,
            Type::Duration(_) => ConversionKind::Duration,
            Type::Enum(_) => ConversionKind::EnumIntegral,
            Type::Struct(_) => ConversionKind::StructByValue,
            Type::StructRef(_) => ConversionKind::ValueBoxing,
            Type::ClassRef(_) => ConversionKind::ClassHandle,
            Type::Interface(_) => ConversionKind::InterfaceAdapter,
            Type::Iterator(_) => ConversionKind::IteratorAdapter,
            _ => ConversionKind::Identity,
        }
    }

    /// The position in the table of declarations that the type refers to,
    /// if it refers to one.
    pub open spec fn spec_referenced(self) -> Option<usize> {
        match self {
            Type::Enum(h) => Some(h.id),
            Type::Struct(h) => Some(h.id),
            Type::StructRef(h) => Some(h.id),
            Type::ClassRef(h) => Some(h.id),
            Type::Interface(h) => Some(h.id),
            Type::Iterator(h) => Some(h.id),
            _ => None,
        }
    }

    /// The position in the table of declarations that the type refers to,
    /// if it refers to one.
    #[verifier::when_used_as_spec(spec_referenced)]
    pub fn referenced(self) -> (r: Option<usize>)
        ensures
            r == self.spec_referenced(),
    {
        match self {
            Type::Enum(h) => Some(h.id),
            Type::Struct(h) => Some(h.id),
            Type::StructRef(h) => Some(h.id),
            Type::ClassRef(h) => Some(h.id),
            Type::Interface(h) => Some(h.id),
            Type::Iterator(h) => Some(h.id),
            _ => None,
        }
    }

    /// Whether the type names no declaration of the library.
    #[verifier::when_used_as_spec(spec_is_primitive)]
    pub fn is_primitive(self) -> (r: bool)
        ensures
            r == self.spec_is_primitive(),
    {
        match self {
            Type::Enum(_) | Type::Struct(_) | Type::StructRef(_) | Type::ClassRef(_)
            | Type::Interface(_) | Type::Iterator(_) => false,
            _ => true,
        }
    }

    /// Whether a value of the type must be converted at the native boundary.
    #[verifier::when_used_as_spec(spec_requires_marshalling)]
    pub fn requires_marshalling(self) -> (r: bool)
        ensures
            r == self.spec_requires_marshalling(),
    {
        match self {
            Type::Bool | Type::Uint8 | Type::Sint8 | Type::Uint16 | Type::Sint16
            | Type::Uint32 | Type::Sint32 | Type::Uint64 | Type::Sint64 | Type::Float
            | Type::Double => false,
            _ => true,
        }
    }

    /// The family of marshalling code for the type.
    #[verifier::when_used_as_spec(spec_conversion_kind)]
    pub fn conversion_kind(self) -> (r: ConversionKind)
        ensures
            r == self.spec_conversion_kind(),
    {
        match self {
            Type::String => ConversionKind::String,
            Type::Duration(_) => ConversionKind::Duration,
            Type::Enum(_) => ConversionKind::EnumIntegral,
            Type::Struct(_) => ConversionKind::StructByValue,
            Type::StructRef(_) => ConversionKind::ValueBoxing,
            Type::ClassRef(_) => ConversionKind::ClassHandle,
            Type::Interface(_) => ConversionKind::InterfaceAdapter,
            Type::Iterator(_) => ConversionKind::IteratorAdapter,
            _ => ConversionKind::Identity,
        }
    }
}

impl ReturnType {
    /// A function that returns nothing.
    pub fn void() -> (r: ReturnType)
        ensures
            r == ReturnType::Void,
    {
        ReturnType::Void
    }

    /// A function that returns a value of type `return_type`.
    pub fn new(return_type: Type) -> (r: ReturnType)
        ensures
            r == ReturnType::Type(return_type),
    {
        ReturnType::Type(return_type)
    }
}

/// The three predicates agree: a type is converted at the boundary exactly
/// when its conversion kind is not the identity, and every type that names a
/// declaration is converted.
pub proof fn lemma_predicates_consistent(t: Type)
    ensures
        t.spec_requires_marshalling() <==> t.spec_conversion_kind() != ConversionKind::Identity,
        !t.spec_is_primitive() ==> t.spec_requires_marshalling(),
        t.is_plain_value() <==> !t.spec_requires_marshalling(),
{
}

} // verus!
