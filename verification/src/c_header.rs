//! The C header of a library: the native surface that every host binding
//! shares. Statements are emitted in the order in which the library holds
//! them.

use vstd::prelude::*;
use vstd::string::StringExecFns;
use crate::types::{ReturnType, Type};
use crate::model::{CallbackFunction, CallbackFunctionView, CallbackParameter, CallbackParameterView, Interface, InterfaceElement, InterfaceElementView, InterfaceView, Item, NativeEnum, NativeEnumView, NativeFunction, NativeFunctionView, NativeStruct, NativeStructView, Statement, Text};
use crate::library::{Library, LibraryView};
use crate::formatting::{
    Printer, blank, close_with, concat, concat3, emit, license_lines, line, open, print_license,
};
use crate::dotnet_types::name_of;

verus! {

/// The type in C.
pub open spec fn c_type(lib: LibraryView, t: Type) -> Text {
    match t {
        Type::Bool => "bool"@,
        Type::Uint8 => "uint8_t"@,
        Type::Sint8 => "int8_t"@,
        Type::Uint16 => "uint16_t"@,
        Type::Sint16 => "int16_t"@,
        Type::Uint32 => "uint32_t"@,
        Type::Sint32 => "int32_t"@,
        Type::Uint64 => "uint64_t"@,
        Type::Sint64 => "int64_t"@,
        Type::Float => "float"@,
        Type::Double => "double"@,
        Type::String => "const char*"@,
        Type::Duration(_) => "uint64_t"@,
        Type::Enum(_) => "int"@,
        Type::Struct(h) => "struct "@ + name_of(lib, h.id),
        Type::StructRef(h) => name_of(lib, h.id) + "*"@,
        Type::ClassRef(h) => "struct "@ + name_of(lib, h.id) + "*"@,
        Type::Interface(h) => "struct "@ + name_of(lib, h.id) + "Interface"@,
        Type::Iterator(h) => "struct "@ + name_of(lib, h.id) + "Iterator*"@,
    }
}

pub open spec fn c_return_type(lib: LibraryView, r: ReturnType) -> Text {
    match r {
        ReturnType::Void => "void"@,
        ReturnType::Type(t) => c_type(lib, t),
    }
}

/// The type of `t` in C.
pub fn as_c_type(lib: &Library, t: Type) -> (r: String)
    requires
        lib@.resolves(t),
    ensures
        r@ == c_type(lib@, t),
{
    match t {
        Type::Bool => String::from_str("bool"),
        Type::Uint8 => String::from_str("uint8_t"),
        Type::Sint8 => String::from_str("int8_t"),
        Type::Uint16 => String::from_str("uint16_t"),
        Type::Sint16 => String::from_str("int16_t"),
        Type::Uint32 => String::from_str("uint32_t"),
        Type::Sint32 => String::from_str("int32_t"),
        Type::Uint64 => String::from_str("uint64_t"),
        Type::Sint64 => String::from_str("int64_t"),
        Type::Float => String::from_str("float"),
        Type::Double => String::from_str("double"),
        Type::String => String::from_str("const char*"),
        Type::Duration(_) => String::from_str("uint64_t"),
        Type::Enum(_) => String::from_str("int"),
        Type::Struct(h) => concat("struct ", lib.decls[h.id].item.name().as_str()),
        Type::StructRef(h) => concat(lib.decls[h.id].item.name().as_str(), "*"),
        Type::ClassRef(h) => concat3("struct ", lib.decls[h.id].item.name().as_str(), "*"),
        Type::Interface(h) => concat3("struct ", lib.decls[h.id].item.name().as_str(), "Interface"),
        Type::Iterator(h) => concat3("struct ", lib.decls[h.id].item.name().as_str(), "Iterator*"),
    }
}

/// The type of a result in C.
pub fn as_c_return_type(lib: &Library, r: ReturnType) -> (s: String)
    requires
        lib@.return_resolves(r),
    ensures
        s@ == c_return_type(lib@, r),
{
    match r {
        ReturnType::Void => String::from_str("void"),
        ReturnType::Type(t) => as_c_type(lib, t),
    }
}

/// The character of a decimal digit.
pub open spec fn digit(d: nat) -> char {
    if d == 0 {
        '0'
    } else if d == 1 {
        '1'
    } else if d == 2 {
        '2'
    } else if d == 3 {
        '3'
    } else if d == 4 {
        '4'
    } else if d == 5 {
        '5'
    } else if d == 6 {
        '6'
    } else if d == 7 {
        '7'
    } else if d == 8 {
        '8'
    } else {
        '9'
    }
}

/// A number in decimal, without leading zeros.
pub open spec fn decimal_text(n: nat) -> Text
    decreases n,
{
    if n < 10 {
        seq![digit(n)]
    } else {
        decimal_text(n / 10).push(digit(n % 10))
    }
}

fn digit_str(d: usize) -> (r: &'static str)
    requires
        d < 10,
    ensures
        r@ == seq![digit(d as nat)],
{
    proof {
        reveal_strlit("0");
        reveal_strlit("1");
        reveal_strlit("2");
        reveal_strlit("3");
        reveal_strlit("4");
        reveal_strlit("5");
        reveal_strlit("6");
        reveal_strlit("7");
        reveal_strlit("8");
        reveal_strlit("9");
    }
    let r = if d == 0 {
        "0"
    } else if d == 1 {
        "1"
    } else if d == 2 {
        "2"
    } else if d == 3 {
        "3"
    } else if d == 4 {
        "4"
    } else if d == 5 {
        "5"
    } else if d == 6 {
        "6"
    } else if d == 7 {
        "7"
    } else if d == 8 {
        "8"
    } else {
        "9"
    };
    assert(r@ =~= seq![digit(d as nat)]);
    r
}

/// A number in decimal, without leading zeros.
pub fn decimal(n: usize) -> (r: String)
    ensures
        r@ == decimal_text(n as nat),
    decreases n,
{
    if n < 10 {
        String::from_str(digit_str(n))
    } else {
        let mut r = decimal(n / 10);
        r.append(digit_str(n % 10));
        assert(r@ =~= decimal_text(n as nat));
        r
    }
}

/// The first `k` parameters of a function as a list.
pub open spec fn c_parameters(lib: LibraryView, f: NativeFunctionView, k: int) -> Text
    decreases k,
{
    if k <= 0 {
        Seq::empty()
    } else {
        let p = f.parameters[k - 1];
        let text = c_type(lib, p.param_type) + " "@ + p.name;
        if k == 1 {
            text
        } else {
            c_parameters(lib, f, k - 1) + ", "@ + text
        }
    }
}

/// How a parameter of a callback appears in C.
pub open spec fn c_callback_parameter(lib: LibraryView, p: CallbackParameterView) -> Text {
    match p {
        CallbackParameterView::Arg(name) => "void* "@ + name,
        CallbackParameterView::Parameter(p) => c_type(lib, p.param_type) + " "@ + p.name,
    }
}

/// The first `k` parameters of a callback as a list.
pub open spec fn c_callback_parameters(lib: LibraryView, cb: CallbackFunctionView, k: int) -> Text
    decreases k,
{
    if k <= 0 {
        Seq::empty()
    } else if k == 1 {
        c_callback_parameter(lib, cb.parameters[0])
    } else {
        c_callback_parameters(lib, cb, k - 1) + ", "@ + c_callback_parameter(
            lib,
            cb.parameters[k - 1],
        )
    }
}

/// The prototype of a native function: its return type, its name, and its
/// parameters in their order.
pub open spec fn prototype(lib: LibraryView, f: NativeFunctionView) -> Text {
    c_return_type(lib, f.return_type) + " "@ + f.name + "("@ + c_parameters(
        lib,
        f,
        f.parameters.len() as int,
    ) + ");"@
}

/// The first `k` variants of an enumeration, each with its position as its
/// value.
pub open spec fn variant_lines(e: NativeEnumView, k: int, depth: nat) -> Seq<Text>
    decreases k,
{
    if k <= 0 {
        Seq::empty()
    } else {
        variant_lines(e, k - 1, depth).push(
            line(
                depth,
                e.name + "_"@ + e.variants[k - 1].name + " = "@ + decimal_text((k - 1) as nat)
                    + ","@,
            ),
        )
    }
}

/// The first `k` fields of a structure, in their order.
pub open spec fn c_field_lines(lib: LibraryView, s: NativeStructView, k: int, depth: nat) -> Seq<
    Text,
>
    decreases k,
{
    if k <= 0 {
        Seq::empty()
    } else {
        c_field_lines(lib, s, k - 1, depth).push(
            line(depth, c_type(lib, s.fields[k - 1].field_type) + " "@ + s.fields[k - 1].name + ";"@),
        )
    }
}

/// The member of the C structure that an element of an interface becomes: a
/// function pointer for a callback and for the destroy function, an opaque
/// pointer for the slot.
pub open spec fn c_member(lib: LibraryView, e: InterfaceElementView) -> Text {
    match e {
        InterfaceElementView::CallbackFunction(cb) => c_return_type(lib, cb.return_type) + " (*"@
            + cb.name + ")("@ + c_callback_parameters(lib, cb, cb.parameters.len() as int) + ");"@,
        InterfaceElementView::DestroyFunction(name) => "void (*"@ + name + ")(void* arg);"@,
        InterfaceElementView::Arg(name) => "void* "@ + name + ";"@,
    }
}

/// The first `k` members of the C structure of an interface.
pub open spec fn c_member_lines(lib: LibraryView, i: InterfaceView, k: int, depth: nat) -> Seq<Text>
    decreases k,
{
    if k <= 0 {
        Seq::empty()
    } else {
        c_member_lines(lib, i, k - 1, depth).push(line(depth, c_member(lib, i.elements[k - 1])))
    }
}

/// What a statement contributes to the header.
pub open spec fn statement_lines(lib: LibraryView, st: Statement, depth: nat) -> Seq<Text> {
    let name = name_of(lib, st.id());
    let item = lib.decls[st.id() as int].item;
    match st {
        Statement::EnumDef(_) => seq![line(depth, "typedef enum "@ + name), line(depth, "{"@)]
            + variant_lines(item->Enum_0, item->Enum_0.variants.len() as int, depth + 1) + seq![
            line(depth, "}"@ + (" "@ + name + ";"@)),
            Seq::<char>::empty(),
        ],
        Statement::StructDecl(_) => seq![
            line(depth, "typedef struct "@ + name + " "@ + name + ";"@),
            Seq::<char>::empty(),
        ],
        Statement::StructDef(_) => seq![line(depth, "struct "@ + name), line(depth, "{"@)]
            + c_field_lines(lib, item->Struct_0, item->Struct_0.fields.len() as int, depth + 1)
            + seq![line(depth, "}"@ + ";"@), Seq::<char>::empty()],
        Statement::InterfaceDef(_) => seq![
            line(depth, "typedef struct "@ + name + "Interface"@),
            line(depth, "{"@),
        ] + c_member_lines(
            lib,
            item->Interface_0,
            item->Interface_0.elements.len() as int,
            depth + 1,
        ) + seq![line(depth, "}"@ + (" "@ + name + "Interface;"@)), Seq::<char>::empty()],
        Statement::IteratorDef(_) => seq![
            line(depth, "typedef struct "@ + name + "Iterator "@ + name + "Iterator;"@),
            Seq::<char>::empty(),
        ],
        Statement::ClassDecl(_) => seq![
            line(depth, "typedef struct "@ + name + " "@ + name + ";"@),
            Seq::<char>::empty(),
        ],
        Statement::ClassDef(_) => Seq::empty(),
        Statement::NativeFunctionDef(_) => seq![
            line(depth, prototype(lib, item->Function_0)),
            Seq::<char>::empty(),
        ],
    }
}

/// What the first `k` statements contribute to the header, in their order.
pub open spec fn statements_lines(lib: LibraryView, k: int, depth: nat) -> Seq<Text>
    decreases k,
{
    if k <= 0 {
        Seq::empty()
    } else {
        statements_lines(lib, k - 1, depth) + statement_lines(lib, lib.statements[k - 1], depth)
    }
}

/// What opens every header, after the license.
pub open spec fn prologue(depth: nat) -> Seq<Text> {
    seq![
        line(depth, "#pragma once"@),
        Seq::<char>::empty(),
        line(depth, "#include <stdbool.h>"@),
        line(depth, "#include <stdint.h>"@),
        Seq::<char>::empty(),
        line(depth, "#ifdef __cplusplus"@),
        line(depth, "extern \"C\" {"@),
        line(depth, "#endif"@),
        Seq::<char>::empty(),
    ]
}

/// What closes every header.
pub open spec fn epilogue(depth: nat) -> Seq<Text> {
    seq![line(depth, "#ifdef __cplusplus"@), line(depth, "}"@), line(depth, "#endif"@)]
}

/// The header: license, prologue, the statements in their order, epilogue.
pub open spec fn header_lines(lib: LibraryView, depth: nat) -> Seq<Text> {
    license_lines(lib.license, lib.license.len() as int, depth) + prologue(depth)
        + statements_lines(lib, lib.statements.len() as int, depth) + epilogue(depth)
}

fn write_prototype(lib: &Library, f: &NativeFunction) -> (r: String)
    requires
        lib@.function_ok(f@),
    ensures
        r@ == prototype(lib@, f@),
{
    let mut list = String::new();
    let mut k: usize = 0;
    while k < f.parameters.len()
        invariant
            k <= f.parameters.len(),
            lib@.function_ok(f@),
            list@ == c_parameters(lib@, f@, k as int),
        decreases f.parameters.len() - k,
    {
        assert(f@.parameters[k as int] == f.parameters@[k as int]@);
        assert(lib@.resolves(f@.parameters[k as int].param_type));
        if k > 0 {
            list.append(", ");
        }
        let text = concat3(
            as_c_type(lib, f.parameters[k].param_type).as_str(),
            " ",
            f.parameters[k].name.as_str(),
        );
        if k == 0 {
            assert(list@ + text@ =~= text@);
        }
        list.append(text.as_str());
        k += 1;
    }
    let mut r = concat3(as_c_return_type(lib, f.return_type).as_str(), " ", f.name.as_str());
    r.append("(");
    r.append(list.as_str());
    r.append(");");
    r
}

fn write_member(lib: &Library, el: &InterfaceElement) -> (r: String)
    requires
        el@ matches InterfaceElementView::CallbackFunction(cb) ==> lib@.callback_ok(cb, cb.arg_name),
    ensures
        r@ == c_member(lib@, el@),
{
    match el {
        InterfaceElement::CallbackFunction(cb) => {
            let mut list = String::new();
            let mut k: usize = 0;
            while k < cb.parameters.len()
                invariant
                    k <= cb.parameters.len(),
                    lib@.callback_ok(cb@, cb@.arg_name),
                    list@ == c_callback_parameters(lib@, cb@, k as int),
                decreases cb.parameters.len() - k,
            {
                assert(cb@.parameters[k as int] == cb.parameters@[k as int]@);
                if k > 0 {
                    list.append(", ");
                }
                let text = match &cb.parameters[k] {
                    CallbackParameter::Arg(name) => concat("void* ", name.as_str()),
                    CallbackParameter::Parameter(p) => {
                        assert(cb@.parameters[k as int] is Parameter);
                        concat3(as_c_type(lib, p.param_type).as_str(), " ", p.name.as_str())
                    },
                };
                if k == 0 {
                    assert(list@ + text@ =~= text@);
                }
                list.append(text.as_str());
                k += 1;
            }
            let mut r = concat3(as_c_return_type(lib, cb.return_type).as_str(), " (*", cb.name.as_str());
            r.append(")(");
            r.append(list.as_str());
            r.append(");");
            r
        },
        InterfaceElement::DestroyFunction(name) => concat3("void (*", name.as_str(), ")(void* arg);"),
        InterfaceElement::Arg(name) => concat3("void* ", name.as_str(), ";"),
    }
}

fn write_enum(f: &mut Printer, e: &NativeEnum)
    requires
        old(f)@.pending.len() == 0,
        old(f)@.indent < usize::MAX,
    ensures
        final(f)@ == old(f)@.with_lines(
            seq![line(old(f)@.indent, "typedef enum "@ + e@.name), line(old(f)@.indent, "{"@)]
                + variant_lines(e@, e@.variants.len() as int, old(f)@.indent + 1) + seq![
                line(old(f)@.indent, "}"@ + (" "@ + e@.name + ";"@)),
                Seq::<char>::empty(),
            ],
        ),
{
    let ghost depth = f@.indent;
    emit(f, concat("typedef enum ", e.name.as_str()).as_str());
    open(f);
    let ghost inside = f@;
    let mut k: usize = 0;
    assert(f@.lines =~= inside.lines + variant_lines(e@, 0, depth + 1));
    while k < e.variants.len()
        invariant
            k <= e.variants.len(),
            inside.pending.len() == 0,
            inside.indent == depth + 1,
            f@ == inside.with_lines(variant_lines(e@, k as int, depth + 1)),
        decreases e.variants.len() - k,
    {
        assert(e@.variants[k as int] == e.variants@[k as int]@);
        let mut text = concat3(e.name.as_str(), "_", e.variants[k].name.as_str());
        text.append(" = ");
        text.append(decimal(k).as_str());
        text.append(",");
        emit(f, text.as_str());
        k += 1;
        assert(f@.lines =~= inside.lines + variant_lines(e@, k as int, depth + 1));
    }
    close_with(f, concat3(" ", e.name.as_str(), ";").as_str());
    blank(f);
    assert(f@.lines =~= old(f)@.lines + (seq![
        line(depth, "typedef enum "@ + e@.name),
        line(depth, "{"@),
    ] + variant_lines(e@, e@.variants.len() as int, depth + 1) + seq![
        line(depth, "}"@ + (" "@ + e@.name + ";"@)),
        Seq::<char>::empty(),
    ]));
}

fn write_struct(f: &mut Printer, lib: &Library, s: &NativeStruct)
    requires
        old(f)@.pending.len() == 0,
        old(f)@.indent < usize::MAX,
        forall|i: int|
            0 <= i < s@.fields.len() ==> lib@.resolves((#[trigger] s@.fields[i]).field_type),
    ensures
        final(f)@ == old(f)@.with_lines(
            seq![line(old(f)@.indent, "struct "@ + s@.name), line(old(f)@.indent, "{"@)]
                + c_field_lines(lib@, s@, s@.fields.len() as int, old(f)@.indent + 1) + seq![
                line(old(f)@.indent, "}"@ + ";"@),
                Seq::<char>::empty(),
            ],
        ),
{
    let ghost depth = f@.indent;
    emit(f, concat("struct ", s.name.as_str()).as_str());
    open(f);
    let ghost inside = f@;
    let mut k: usize = 0;
    assert(f@.lines =~= inside.lines + c_field_lines(lib@, s@, 0, depth + 1));
    while k < s.fields.len()
        invariant
            k <= s.fields.len(),
            inside.pending.len() == 0,
            inside.indent == depth + 1,
            forall|i: int|
                0 <= i < s@.fields.len() ==> lib@.resolves((#[trigger] s@.fields[i]).field_type),
            f@ == inside.with_lines(c_field_lines(lib@, s@, k as int, depth + 1)),
        decreases s.fields.len() - k,
    {
        assert(s@.fields[k as int] == s.fields@[k as int]@);
        let mut text = concat3(
            as_c_type(lib, s.fields[k].field_type).as_str(),
            " ",
            s.fields[k].name.as_str(),
        );
        text.append(";");
        emit(f, text.as_str());
        k += 1;
        assert(f@.lines =~= inside.lines + c_field_lines(lib@, s@, k as int, depth + 1));
    }
    close_with(f, ";");
    blank(f);
    assert(f@.lines =~= old(f)@.lines + (seq![line(depth, "struct "@ + s@.name), line(depth, "{"@)]
        + c_field_lines(lib@, s@, s@.fields.len() as int, depth + 1) + seq![
        line(depth, "}"@ + ";"@),
        Seq::<char>::empty(),
    ]));
}

fn write_interface(f: &mut Printer, lib: &Library, i: &Interface)
    requires
        old(f)@.pending.len() == 0,
        old(f)@.indent < usize::MAX,
        lib@.interface_ok(i@),
    ensures
        final(f)@ == old(f)@.with_lines(
            seq![
                line(old(f)@.indent, "typedef struct "@ + i@.name + "Interface"@),
                line(old(f)@.indent, "{"@),
            ] + c_member_lines(lib@, i@, i@.elements.len() as int, old(f)@.indent + 1) + seq![
                line(old(f)@.indent, "}"@ + (" "@ + i@.name + "Interface;"@)),
                Seq::<char>::empty(),
            ],
        ),
{
    let ghost depth = f@.indent;
    emit(f, concat3("typedef struct ", i.name.as_str(), "Interface").as_str());
    open(f);
    let ghost inside = f@;
    let mut k: usize = 0;
    assert(f@.lines =~= inside.lines + c_member_lines(lib@, i@, 0, depth + 1));
    while k < i.elements.len()
        invariant
            k <= i.elements.len(),
            inside.pending.len() == 0,
            inside.indent == depth + 1,
            lib@.interface_ok(i@),
            f@ == inside.with_lines(c_member_lines(lib@, i@, k as int, depth + 1)),
        decreases i.elements.len() - k,
    {
        assert(i@.elements[k as int] == i.elements@[k as int]@);
        let text = write_member(lib, &i.elements[k]);
        emit(f, text.as_str());
        k += 1;
        assert(f@.lines =~= inside.lines + c_member_lines(lib@, i@, k as int, depth + 1));
    }
    close_with(f, concat3(" ", i.name.as_str(), "Interface;").as_str());
    blank(f);
    assert(f@.lines =~= old(f)@.lines + (seq![
        line(depth, "typedef struct "@ + i@.name + "Interface"@),
        line(depth, "{"@),
    ] + c_member_lines(lib@, i@, i@.elements.len() as int, depth + 1) + seq![
        line(depth, "}"@ + (" "@ + i@.name + "Interface;"@)),
        Seq::<char>::empty(),
    ]));
}

/// Emits what the statement at `s` contributes to the header.
pub fn write_statement(f: &mut Printer, lib: &Library, s: usize)
    requires
        old(f)@.pending.len() == 0,
        old(f)@.indent < usize::MAX,
        lib@.consistent(),
        s < lib@.statements.len(),
    ensures
        final(f)@ == old(f)@.with_lines(
            statement_lines(lib@, lib@.statements[s as int], old(f)@.indent),
        ),
{
    let ghost depth = f@.indent;
    let st = lib.statements[s];
    proof {
        assert(lib@.stmt_ok(s as int));
        assert(lib@.decl_ok(st.id() as int));
        assert(lib@.decls[st.id() as int] == lib.decls@[st.id() as int]@);
    }
    match st {
        Statement::EnumDef(h) => {
            if let Item::Enum(e) = &lib.decls[h.id].item {
                write_enum(f, e);
            }
        },
        Statement::StructDecl(h) => {
            let name = lib.decls[h.id].item.name();
            let mut text = concat3("typedef struct ", name.as_str(), " ");
            text.append(name.as_str());
            text.append(";");
            emit(f, text.as_str());
            blank(f);
        },
        Statement::StructDef(h) => {
            if let Item::Struct(x) = &lib.decls[h.id].item {
                write_struct(f, lib, x);
            }
        },
        Statement::InterfaceDef(h) => {
            if let Item::Interface(i) = &lib.decls[h.id].item {
                write_interface(f, lib, i);
            }
        },
        Statement::IteratorDef(h) => {
            let name = lib.decls[h.id].item.name();
            let mut text = concat3("typedef struct ", name.as_str(), "Iterator ");
            text.append(name.as_str());
            text.append("Iterator;");
            emit(f, text.as_str());
            blank(f);
        },
        Statement::ClassDecl(h) => {
            let name = lib.decls[h.id].item.name();
            let mut text = concat3("typedef struct ", name.as_str(), " ");
            text.append(name.as_str());
            text.append(";");
            emit(f, text.as_str());
            blank(f);
        },
        Statement::ClassDef(_) => {},
        Statement::NativeFunctionDef(h) => {
            if let Item::Function(x) = &lib.decls[h.id].item {
                let text = write_prototype(lib, x);
                emit(f, text.as_str());
                blank(f);
            }
        },
    }
    assert(f@.lines =~= old(f)@.lines + statement_lines(lib@, st, depth));
}

/// Emits the C header of a library.
pub fn generate_c_header(f: &mut Printer, lib: &Library)
    requires
        old(f)@.pending.len() == 0,
        old(f)@.indent < usize::MAX,
        lib@.consistent(),
    ensures
        final(f)@ == old(f)@.with_lines(header_lines(lib@, old(f)@.indent)),
{
    let ghost depth = f@.indent;
    print_license(f, &lib.license);
    emit(f, "#pragma once");
    blank(f);
    emit(f, "#include <stdbool.h>");
    emit(f, "#include <stdint.h>");
    blank(f);
    emit(f, "#ifdef __cplusplus");
    emit(f, "extern \"C\" {");
    emit(f, "#endif");
    blank(f);
    let ghost before = f@;
    assert(before.lines =~= old(f)@.lines + (license_lines(
        lib@.license,
        lib@.license.len() as int,
        depth,
    ) + prologue(depth)));
    let mut s: usize = 0;
    assert(f@.lines =~= before.lines + statements_lines(lib@, 0, depth));
    while s < lib.statements.len()
        invariant
            s <= lib.statements.len(),
            lib@.consistent(),
            before.pending.len() == 0,
            before.indent == depth,
            depth < usize::MAX,
            f@ == before.with_lines(statements_lines(lib@, s as int, depth)),
        decreases lib.statements.len() - s,
    {
        write_statement(f, lib, s);
        s += 1;
        assert(f@.lines =~= before.lines + statements_lines(lib@, s as int, depth));
    }
    emit(f, "#ifdef __cplusplus");
    emit(f, "}");
    emit(f, "#endif");
    assert(f@.lines =~= old(f)@.lines + header_lines(lib@, depth));
}

/// The line of the statements' part of the header at which the statement at
/// `k` starts.
pub open spec fn statement_offset(lib: LibraryView, k: int, depth: nat) -> int {
    statements_lines(lib, k, depth).len() as int
}

proof fn lemma_statements_prefix(lib: LibraryView, k: int, n: int, depth: nat)
    requires
        0 <= k <= n,
    ensures
        statements_lines(lib, k, depth).len() <= statements_lines(lib, n, depth).len(),
        statements_lines(lib, n, depth).subrange(0, statement_offset(lib, k, depth))
            == statements_lines(lib, k, depth),
    decreases n - k,
{
    if k < n {
        lemma_statements_prefix(lib, k, n - 1, depth);
        assert(statements_lines(lib, n, depth).subrange(0, statement_offset(lib, k, depth))
            =~= statements_lines(lib, n - 1, depth).subrange(
            0,
            statement_offset(lib, k, depth),
        ));
    } else {
        assert(statements_lines(lib, n, depth).subrange(0, statement_offset(lib, k, depth))
            =~= statements_lines(lib, k, depth));
    }
}

/// The header holds the statements in the order of the library: what the
/// statement at `s` contributes stands as one piece, and it ends before the
/// piece of any later statement starts.
pub proof fn law_order_preserved(lib: LibraryView, s: int, t: int, depth: nat)
    requires
        0 <= s < t < lib.statements.len(),
    ensures
        statement_offset(lib, s, depth) <= statement_offset(lib, s + 1, depth)
            <= statement_offset(lib, t, depth) <= statements_lines(
            lib,
            lib.statements.len() as int,
            depth,
        ).len(),
        statements_lines(lib, lib.statements.len() as int, depth).subrange(
            statement_offset(lib, s, depth),
            statement_offset(lib, s + 1, depth),
        ) == statement_lines(lib, lib.statements[s], depth),
{
    let n = lib.statements.len() as int;
    let all = statements_lines(lib, n, depth);
    lemma_statements_prefix(lib, s + 1, t, depth);
    lemma_statements_prefix(lib, t, n, depth);
    lemma_statements_prefix(lib, s + 1, n, depth);
    let a = statement_offset(lib, s, depth);
    let b = statement_offset(lib, s + 1, depth);
    assert(all.subrange(a, b) =~= all.subrange(0, b).subrange(a, b));
    assert(statements_lines(lib, s + 1, depth).subrange(a, b) =~= statement_lines(
        lib,
        lib.statements[s],
        depth,
    ));
}

} // verus!
