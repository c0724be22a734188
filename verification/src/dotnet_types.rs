//! How each type appears in C#: its host type, the type it has at the native
//! boundary, and the expressions that convert between the two.

use vstd::prelude::*;
use vstd::string::StringExecFns;
use crate::types::{ConversionKind, DurationMapping, ReturnType, Type};
use crate::model::{CallbackFunction, CallbackFunctionView, CallbackParameter, CallbackParameterView, Item, Text};
use crate::library::{Library, LibraryView};
use crate::formatting::{concat, concat3};

verus! {

/// The name of the declaration at `id`.
pub open spec fn name_of(lib: LibraryView, id: usize) -> Text {
    lib.decls[id as int].item.name()
}

/// The name of the structure that an iterator hands out.
pub open spec fn item_name_of(lib: LibraryView, id: usize) -> Text {
    name_of(lib, lib.decls[id as int].item->Iterator_0.item_type.id)
}

/// The host type.
pub open spec fn dotnet_type(lib: LibraryView, t: Type) -> Text {
    match t {
        Type::Bool => "bool"@,
        Type::Uint8 => "byte"@,
        Type::Sint8 => "sbyte"@,
        Type::Uint16 => "ushort"@,
        Type::Sint16 => "short"@,
        Type::Uint32 => "uint"@,
        Type::Sint32 => "int"@,
        Type::Uint64 => "ulong"@,
        Type::Sint64 => "long"@,
        Type::Float => "float"@,
        Type::Double => "double"@,
        Type::String => "string"@,
        Type::Duration(_) => "TimeSpan"@,
        Type::Enum(h) => name_of(lib, h.id),
        Type::Struct(h) => name_of(lib, h.id),
        Type::StructRef(h) => name_of(lib, h.id) + "?"@,
        Type::ClassRef(h) => name_of(lib, h.id),
        Type::Interface(h) => name_of(lib, h.id),
        Type::Iterator(h) => "System.Collections.Generic.ICollection<"@ + item_name_of(lib, h.id)
            + ">"@,
    }
}

/// The type at the native boundary.
pub open spec fn native_type(lib: LibraryView, t: Type) -> Text {
    match t {
        Type::String => "IntPtr"@,
        Type::Duration(DurationMapping::SecondsFloat) => "float"@,
        Type::Duration(_) => "ulong"@,
        Type::Struct(h) => name_of(lib, h.id) + "Native"@,
        Type::StructRef(_) => "IntPtr"@,
        Type::ClassRef(_) => "IntPtr"@,
        Type::Interface(h) => name_of(lib, h.id) + "NativeAdapter"@,
        Type::Iterator(_) => "IntPtr"@,
        _ => dotnet_type(lib, t),
    }
}

pub open spec fn return_dotnet_type(lib: LibraryView, r: ReturnType) -> Text {
    match r {
        ReturnType::Void => "void"@,
        ReturnType::Type(t) => dotnet_type(lib, t),
    }
}

pub open spec fn return_native_type(lib: LibraryView, r: ReturnType) -> Text {
    match r {
        ReturnType::Void => "void"@,
        ReturnType::Type(t) => native_type(lib, t),
    }
}

/// Whether a value of the type is converted by an expression. An enumeration
/// crosses the boundary as it is.
pub open spec fn converts(t: Type) -> bool {
    t.spec_conversion_kind() != ConversionKind::Identity && t.spec_conversion_kind()
        != ConversionKind::EnumIntegral
}

/// The expression that turns the native `value` into a host value.
pub open spec fn from_native(lib: LibraryView, t: Type, value: Text) -> Text {
    match t {
        Type::String => "Marshal.PtrToStringUTF8("@ + value + ")"@,
        Type::Duration(DurationMapping::Millis) => "TimeSpan.FromMilliseconds("@ + value + ")"@,
        Type::Duration(_) => "TimeSpan.FromSeconds("@ + value + ")"@,
        Type::Struct(h) => name_of(lib, h.id) + "Native.FromNative("@ + value + ")"@,
        Type::StructRef(h) => name_of(lib, h.id) + "Native.FromNativeRef("@ + value + ")"@,
        Type::ClassRef(h) => "new "@ + name_of(lib, h.id) + "("@ + value + ")"@,
        Type::Interface(h) => name_of(lib, h.id) + "NativeAdapter.FromNative("@ + value + ")"@,
        Type::Iterator(h) => item_name_of(lib, h.id) + "IteratorHelpers.FromNative("@ + value
            + ")"@,
        _ => value,
    }
}

/// The expression that turns the host `value` into a native value.
pub open spec fn to_native(lib: LibraryView, t: Type, value: Text) -> Text {
    match t {
        Type::String => "Marshal.StringToCoTaskMemUTF8("@ + value + ")"@,
        Type::Duration(DurationMapping::Millis) => "(ulong)"@ + value + ".TotalMilliseconds"@,
        Type::Duration(DurationMapping::Seconds) => "(ulong)"@ + value + ".TotalSeconds"@,
        Type::Duration(DurationMapping::SecondsFloat) => "(float)"@ + value + ".TotalSeconds"@,
        Type::Struct(h) => name_of(lib, h.id) + "Native.ToNative("@ + value + ")"@,
        Type::StructRef(h) => name_of(lib, h.id) + "Native.ToNativeRef("@ + value + ")"@,
        Type::ClassRef(h) => value + ".self"@,
        Type::Interface(h) => "new "@ + name_of(lib, h.id) + "NativeAdapter("@ + value + ")"@,
        Type::Iterator(h) => item_name_of(lib, h.id) + "IteratorHelpers.ToNative("@ + value
            + ")"@,
        _ => value,
    }
}

fn decl_name(lib: &Library, id: usize) -> (r: &String)
    requires
        id < lib@.decls.len(),
    ensures
        r@ == name_of(lib@, id),
{
    lib.decls[id].item.name()
}

fn item_name(lib: &Library, id: usize) -> (r: &String)
    requires
        lib@.consistent(),
        lib@.is_iterator(id),
    ensures
        r@ == item_name_of(lib@, id),
{
    proof {
        assert(lib@.decl_ok(id as int));
    }
    match &lib.decls[id].item {
        Item::Iterator(it) => decl_name(lib, it.item_type.id),
        _ => decl_name(lib, id),
    }
}

/// The host type of `t`.
pub fn as_dotnet_type(lib: &Library, t: Type) -> (r: String)
    requires
        lib@.consistent(),
        lib@.resolves(t),
    ensures
        r@ == dotnet_type(lib@, t),
{
    match t {
        Type::Bool => String::from_str("bool"),
        Type::Uint8 => String::from_str("byte"),
        Type::Sint8 => String::from_str("sbyte"),
        Type::Uint16 => String::from_str("ushort"),
        Type::Sint16 => String::from_str("short"),
        Type::Uint32 => String::from_str("uint"),
        Type::Sint32 => String::from_str("int"),
        Type::Uint64 => String::from_str("ulong"),
        Type::Sint64 => String::from_str("long"),
        Type::Float => String::from_str("float"),
        Type::Double => String::from_str("double"),
        Type::String => String::from_str("string"),
        Type::Duration(_) => String::from_str("TimeSpan"),
        Type::Enum(h) => decl_name(lib, h.id).clone(),
        Type::Struct(h) => decl_name(lib, h.id).clone(),
        Type::StructRef(h) => concat(decl_name(lib, h.id).as_str(), "?"),
        Type::ClassRef(h) => decl_name(lib, h.id).clone(),
        Type::Interface(h) => decl_name(lib, h.id).clone(),
        Type::Iterator(h) => concat3(
            "System.Collections.Generic.ICollection<",
            item_name(lib, h.id).as_str(),
            ">",
        ),
    }
}

/// The type of `t` at the native boundary.
pub fn as_native_type(lib: &Library, t: Type) -> (r: String)
    requires
        lib@.consistent(),
        lib@.resolves(t),
    ensures
        r@ == native_type(lib@, t),
{
    match t {
        Type::String => String::from_str("IntPtr"),
        Type::Duration(DurationMapping::SecondsFloat) => String::from_str("float"),
        Type::Duration(_) => String::from_str("ulong"),
        Type::Struct(h) => concat(decl_name(lib, h.id).as_str(), "Native"),
        Type::StructRef(_) => String::from_str("IntPtr"),
        Type::ClassRef(_) => String::from_str("IntPtr"),
        Type::Interface(h) => concat(decl_name(lib, h.id).as_str(), "NativeAdapter"),
        Type::Iterator(_) => String::from_str("IntPtr"),
        _ => as_dotnet_type(lib, t),
    }
}

/// The host type of a result.
pub fn as_dotnet_return_type(lib: &Library, r: ReturnType) -> (s: String)
    requires
        lib@.consistent(),
        lib@.return_resolves(r),
    ensures
        s@ == return_dotnet_type(lib@, r),
{
    match r {
        ReturnType::Void => String::from_str("void"),
        ReturnType::Type(t) => as_dotnet_type(lib, t),
    }
}

/// The type of a result at the native boundary.
pub fn as_native_return_type(lib: &Library, r: ReturnType) -> (s: String)
    requires
        lib@.consistent(),
        lib@.return_resolves(r),
    ensures
        s@ == return_native_type(lib@, r),
{
    match r {
        ReturnType::Void => String::from_str("void"),
        ReturnType::Type(t) => as_native_type(lib, t),
    }
}

/// Whether a value of the type is converted by an expression.
pub fn has_conversion(t: Type) -> (r: bool)
    ensures
        r == converts(t),
{
    match t.conversion_kind() {
        ConversionKind::Identity | ConversionKind::EnumIntegral => false,
        _ => true,
    }
}

/// The expression that turns the native `value` into a host value.
pub fn convert_from_native(lib: &Library, t: Type, value: &str) -> (r: String)
    requires
        lib@.consistent(),
        lib@.resolves(t),
    ensures
        r@ == from_native(lib@, t, value@),
{
    match t {
        Type::String => concat3("Marshal.PtrToStringUTF8(", value, ")"),
        Type::Duration(DurationMapping::Millis) => concat3("TimeSpan.FromMilliseconds(", value, ")"),
        Type::Duration(_) => concat3("TimeSpan.FromSeconds(", value, ")"),
        Type::Struct(h) => {
            let mut r = concat3(decl_name(lib, h.id).as_str(), "Native.FromNative(", value);
            r.append(")");
            r
        },
        Type::StructRef(h) => {
            let mut r = concat3(decl_name(lib, h.id).as_str(), "Native.FromNativeRef(", value);
            r.append(")");
            r
        },
        Type::ClassRef(h) => {
            let mut r = concat3("new ", decl_name(lib, h.id).as_str(), "(");
            r.append(value);
            r.append(")");
            r
        },
        Type::Interface(h) => {
            let mut r = concat3(decl_name(lib, h.id).as_str(), "NativeAdapter.FromNative(", value);
            r.append(")");
            r
        },
        Type::Iterator(h) => {
            let mut r = concat3(item_name(lib, h.id).as_str(), "IteratorHelpers.FromNative(", value);
            r.append(")");
            r
        },
        _ => String::from_str(value),
    }
}

/// The expression that turns the host `value` into a native value.
pub fn convert_to_native(lib: &Library, t: Type, value: &str) -> (r: String)
    requires
        lib@.consistent(),
        lib@.resolves(t),
    ensures
        r@ == to_native(lib@, t, value@),
{
    match t {
        Type::String => concat3("Marshal.StringToCoTaskMemUTF8(", value, ")"),
        Type::Duration(DurationMapping::Millis) => concat3("(ulong)", value, ".TotalMilliseconds"),
        Type::Duration(DurationMapping::Seconds) => concat3("(ulong)", value, ".TotalSeconds"),
        Type::Duration(DurationMapping::SecondsFloat) => concat3(
            "(float)",
            value,
            ".TotalSeconds",
        ),
        Type::Struct(h) => {
            let mut r = concat3(decl_name(lib, h.id).as_str(), "Native.ToNative(", value);
            r.append(")");
            r
        },
        Type::StructRef(h) => {
            let mut r = concat3(decl_name(lib, h.id).as_str(), "Native.ToNativeRef(", value);
            r.append(")");
            r
        },
        Type::ClassRef(h) => concat(value, ".self"),
        Type::Interface(h) => {
            let mut r = concat3("new ", decl_name(lib, h.id).as_str(), "NativeAdapter(");
            r.append(value);
            r.append(")");
            r
        },
        Type::Iterator(h) => {
            let mut r = concat3(item_name(lib, h.id).as_str(), "IteratorHelpers.ToNative(", value);
            r.append(")");
            r
        },
        _ => String::from_str(value),
    }
}

/// The three lists that a callback's parameters are written as.
#[derive(Clone, Copy, Debug, PartialEq, Eq, Structural)]
pub enum ListMode {
    /// The parameters of the host method: host types, without the slot.
    Managed,
    /// The parameters of the native delegate: native types, with the slot.
    Native,
    /// The arguments of the call to the host method, without the slot.
    Call,
}

/// How one parameter appears in a list, if it appears.
pub open spec fn piece(lib: LibraryView, p: CallbackParameterView, mode: ListMode) -> Option<Text> {
    match p {
        CallbackParameterView::Arg(name) => match mode {
            ListMode::Native => Some("IntPtr "@ + name),
            _ => None,
        },
        CallbackParameterView::Parameter(p) => Some(
            match mode {
                ListMode::Managed => dotnet_type(lib, p.param_type) + " "@ + p.name,
                ListMode::Native => native_type(lib, p.param_type) + " "@ + p.name,
                ListMode::Call => if converts(p.param_type) {
                    "_"@ + p.name
                } else {
                    p.name
                },
            },
        ),
    }
}

/// How many of the first `k` parameters appear in a list.
pub open spec fn pieces_count(ps: Seq<CallbackParameterView>, k: int, mode: ListMode) -> nat
    decreases k,
{
    if k <= 0 {
        0
    } else {
        pieces_count(ps, k - 1, mode) + if ps[k - 1] is Arg && mode != ListMode::Native {
            0nat
        } else {
            1nat
        }
    }
}

/// The first `k` parameters as a list, separated by a comma and a space.
pub open spec fn pieces(
    lib: LibraryView,
    ps: Seq<CallbackParameterView>,
    k: int,
    mode: ListMode,
) -> Text
    decreases k,
{
    if k <= 0 {
        Seq::empty()
    } else {
        let before = pieces(lib, ps, k - 1, mode);
        match piece(lib, ps[k - 1], mode) {
            None => before,
            Some(text) => if pieces_count(ps, k - 1, mode) == 0 {
                before + text
            } else {
                before + ", "@ + text
            },
        }
    }
}

/// The parameters of a callback as a list.
pub open spec fn parameter_list(lib: LibraryView, cb: CallbackFunctionView, mode: ListMode) -> Text {
    pieces(lib, cb.parameters, cb.parameters.len() as int, mode)
}

/// The parameters of a callback as a list.
pub fn write_parameter_list(lib: &Library, cb: &CallbackFunction, mode: ListMode) -> (r: String)
    requires
        lib@.consistent(),
        lib@.callback_ok(cb@, cb@.arg_name),
    ensures
        r@ == parameter_list(lib@, cb@, mode),
{
    let mut r = String::new();
    let mut any = false;
    let mut i: usize = 0;
    while i < cb.parameters.len()
        invariant
            i <= cb.parameters.len(),
            lib@.consistent(),
            lib@.callback_ok(cb@, cb@.arg_name),
            r@ == pieces(lib@, cb@.parameters, i as int, mode),
            any <==> pieces_count(cb@.parameters, i as int, mode) > 0,
        decreases cb.parameters.len() - i,
    {
        assert(cb@.parameters[i as int] == cb.parameters@[i as int]@);
        let text = match &cb.parameters[i] {
            CallbackParameter::Arg(name) => match mode {
                ListMode::Native => Some(concat("IntPtr ", name.as_str())),
                _ => None,
            },
            CallbackParameter::Parameter(p) => {
                assert(cb@.parameters[i as int] is Parameter);
                Some(
                    match mode {
                        ListMode::Managed => concat3(
                            as_dotnet_type(lib, p.param_type).as_str(),
                            " ",
                            p.name.as_str(),
                        ),
                        ListMode::Native => concat3(
                            as_native_type(lib, p.param_type).as_str(),
                            " ",
                            p.name.as_str(),
                        ),
                        ListMode::Call => if has_conversion(p.param_type) {
                            concat("_", p.name.as_str())
                        } else {
                            p.name.clone()
                        },
                    },
                )
            },
        };
        if let Some(text) = text {
            if any {
                r.append(", ");
            }
            r.append(text.as_str());
            any = true;
        }
        i += 1;
    }
    r
}

} // verus!
