//! The C# file of a callback interface: the interface itself, and the adapter
//! that hands it to native code as a table of function pointers.

use vstd::prelude::*;
use vstd::string::StringExecFns;
use crate::types::{InterfaceHandle, ReturnType};
use crate::model::{
    CallbackFunction, CallbackFunctionView, CallbackParameter, CallbackParameterView, Interface,
    InterfaceElement, InterfaceElementView, InterfaceView, Item, Text,
};
use crate::library::{Library, LibraryView, count_args, count_callbacks, count_destroys};
use crate::formatting::{
    Printer, blank, block, close, concat, concat3, emit, license_lines, line, namespaced, open,
    open_namespace, print_license,
};
use crate::dotnet_types::{
    ListMode, as_dotnet_return_type, as_native_return_type, convert_from_native,
    convert_to_native, converts, from_native, has_conversion, parameter_list,
    return_dotnet_type, return_native_type, to_native, write_parameter_list,
};

verus! {

/// Why a file could not be emitted.
#[derive(Clone, Copy, Debug, PartialEq, Eq, Structural)]
pub enum FormattingError {
    /// The handle names no interface of the library; the handle's `id`.
    NotAnInterface(usize),
    /// The handle names no enumeration of the library; the handle's `id`.
    NotAnEnum(usize),
    /// The handle names no class of the library; the handle's `id`.
    NotAClass(usize),
    /// The handle names no defined structure of the library; the handle's
    /// `id`.
    NotAStruct(usize),
    /// The handle names no iterator of the library; the handle's `id`.
    NotAnIterator(usize),
}

pub type FormattingResult<T> = Result<T, FormattingError>;

/// The lines that convert the first `k` parameters of a callback from their
/// native to their host form.
pub open spec fn conversion_lines(
    lib: LibraryView,
    ps: Seq<CallbackParameterView>,
    k: int,
    depth: nat,
) -> Seq<Text>
    decreases k,
{
    if k <= 0 {
        Seq::empty()
    } else {
        let before = conversion_lines(lib, ps, k - 1, depth);
        match ps[k - 1] {
            CallbackParameterView::Parameter(p) if converts(p.param_type) => before.push(
                line(
                    depth,
                    "var _"@ + p.name + " = "@ + from_native(lib, p.param_type, p.name) + ";"@,
                ),
            ),
            _ => before,
        }
    }
}

/// What stands before the call: where its result goes.
pub open spec fn call_prefix(r: ReturnType, destination: Text) -> Text {
    match r {
        ReturnType::Void => Seq::empty(),
        ReturnType::Type(t) => if converts(t) {
            "var _result = "@
        } else {
            destination
        },
    }
}

/// The lines after the call: the conversion of its result, if it has one.
pub open spec fn result_lines(
    lib: LibraryView,
    r: ReturnType,
    destination: Text,
    depth: nat,
) -> Seq<Text> {
    match r {
        ReturnType::Type(t) if converts(t) => seq![
            line(depth, destination + to_native(lib, t, "_result"@) + ";"@),
        ],
        _ => Seq::empty(),
    }
}

/// The body of a trampoline after the implementation was recovered: the
/// parameters are converted, the host method is called, and the result is
/// converted and handed to `destination`.
pub open spec fn call_lines(
    lib: LibraryView,
    cb: CallbackFunctionView,
    destination: Text,
    depth: nat,
) -> Seq<Text> {
    conversion_lines(lib, cb.parameters, cb.parameters.len() as int, depth) + seq![
        Seq::<char>::empty(),
        line(
            depth,
            call_prefix(cb.return_type, destination) + "_inner.impl."@ + cb.name + "("@
                + parameter_list(lib, cb, ListMode::Call) + ");"@,
        ),
    ] + result_lines(lib, cb.return_type, destination, depth)
}

/// Emits the call of the host method of a callback, with the conversions
/// around it.
pub fn call_dotnet_function(
    f: &mut Printer,
    lib: &Library,
    method: &CallbackFunction,
    return_destination: &str,
) -> (r: FormattingResult<()>)
    requires
        old(f)@.pending.len() == 0,
        lib@.consistent(),
        lib@.callback_ok(method@, method@.arg_name),
    ensures
        r is Ok,
        final(f)@ == old(f)@.with_lines(
            call_lines(lib@, method@, return_destination@, old(f)@.indent),
        ),
{
    let ghost depth = f@.indent;
    let mut i: usize = 0;
    assert(f@.lines =~= old(f)@.lines + conversion_lines(lib@, method@.parameters, 0, depth));
    while i < method.parameters.len()
        invariant
            i <= method.parameters.len(),
            lib@.consistent(),
            lib@.callback_ok(method@, method@.arg_name),
            old(f)@.pending.len() == 0,
            depth == old(f)@.indent,
            f@ == old(f)@.with_lines(conversion_lines(lib@, method@.parameters, i as int, depth)),
        decreases method.parameters.len() - i,
    {
        assert(method@.parameters[i as int] == method.parameters@[i as int]@);
        if let CallbackParameter::Parameter(p) = &method.parameters[i] {
            assert(method@.parameters[i as int] is Parameter);
            if has_conversion(p.param_type) {
                let mut text = concat3("var _", p.name.as_str(), " = ");
                text.append(convert_from_native(lib, p.param_type, p.name.as_str()).as_str());
                text.append(";");
                emit(f, text.as_str());
            }
        }
        i += 1;
        assert(f@.lines =~= old(f)@.lines + conversion_lines(
            lib@,
            method@.parameters,
            i as int,
            depth,
        ));
    }
    blank(f);
    let mut call = match method.return_type {
        ReturnType::Void => String::new(),
        ReturnType::Type(t) => if has_conversion(t) {
            String::from_str("var _result = ")
        } else {
            String::from_str(return_destination)
        },
    };
    call.append("_inner.impl.");
    call.append(method.name.as_str());
    call.append("(");
    call.append(write_parameter_list(lib, method, ListMode::Call).as_str());
    call.append(");");
    emit(f, call.as_str());
    if let ReturnType::Type(t) = method.return_type {
        if has_conversion(t) {
            let mut text = String::from_str(return_destination);
            text.append(convert_to_native(lib, t, "_result").as_str());
            text.append(";");
            emit(f, text.as_str());
        }
    }
    assert(f@.lines =~= old(f)@.lines + call_lines(
        lib@,
        method@,
        return_destination@,
        depth,
    ));
    Ok(())
}

/// The parts of the file that have one entry per element of the interface.
#[derive(Clone, Copy, Debug, PartialEq, Eq, Structural)]
pub enum Section {
    /// The methods of the host interface.
    Methods,
    /// The delegate types of the adapter.
    Delegates,
    /// The fields of the adapter: what native code sees.
    Fields,
    /// The assignments in the adapter's constructor.
    Assignments,
    /// The static functions that native code calls.
    Trampolines,
}

/// The declaration of a function pointer's type.
pub open spec fn delegate_line(lib: LibraryView, e: InterfaceElementView, depth: nat) -> Seq<Text> {
    match e {
        InterfaceElementView::CallbackFunction(cb) => seq![
            line(
                depth,
                "private delegate "@ + return_native_type(lib, cb.return_type) + " "@ + cb.name
                    + "_delegate("@ + parameter_list(lib, cb, ListMode::Native) + ");"@,
            ),
        ],
        InterfaceElementView::DestroyFunction(name) => seq![
            line(depth, "private delegate void "@ + name + "_delegate(IntPtr arg);"@),
        ],
        InterfaceElementView::Arg(_) => Seq::empty(),
    }
}

/// The field of the adapter that an element becomes: a function pointer for
/// a callback and for the destroy function, an opaque pointer for the slot.
pub open spec fn field_line(e: InterfaceElementView, depth: nat) -> Seq<Text> {
    match e {
        InterfaceElementView::CallbackFunction(cb) => seq![
            line(depth, "private "@ + cb.name + "_delegate "@ + cb.name + ";"@),
        ],
        InterfaceElementView::DestroyFunction(name) => seq![
            line(depth, "private "@ + name + "_delegate "@ + name + ";"@),
        ],
        InterfaceElementView::Arg(name) => seq![line(depth, "private IntPtr "@ + name + ";"@)],
    }
}

/// How the adapter's constructor fills the field of an element.
pub open spec fn assignment_lines(i: InterfaceView, e: InterfaceElementView, depth: nat) -> Seq<
    Text,
> {
    match e {
        InterfaceElementView::CallbackFunction(cb) => seq![
            line(
                depth,
                "this."@ + cb.name + " = "@ + i.name + "NativeAdapter."@ + cb.name + "_cb;"@,
            ),
            Seq::<char>::empty(),
        ],
        InterfaceElementView::DestroyFunction(name) => seq![
            line(depth, "this."@ + name + " = "@ + i.name + "NativeAdapter."@ + name + "_cb;"@),
            Seq::<char>::empty(),
        ],
        InterfaceElementView::Arg(name) => seq![
            line(depth, "this."@ + name + " = Marshal.AllocHGlobal(Marshal.SizeOf(inner));"@),
            line(depth, "Marshal.StructureToPtr(inner, this."@ + name + ", false);"@),
            Seq::<char>::empty(),
        ],
    }
}

/// The static function behind a function pointer. That of a callback
/// recovers the implementation from the slot and calls it; that of the
/// destroy function releases the record that the slot points to.
pub open spec fn trampoline_lines(lib: LibraryView, e: InterfaceElementView, depth: nat) -> Seq<
    Text,
> {
    match e {
        InterfaceElementView::CallbackFunction(cb) => seq![
            line(
                depth,
                "internal static "@ + return_native_type(lib, cb.return_type) + " "@ + cb.name
                    + "_cb("@ + parameter_list(lib, cb, ListMode::Native) + ")"@,
            ),
        ] + block(
            depth,
            seq![
                line(
                    depth + 1,
                    "var _inner = Marshal.PtrToStructure<InnerData>("@ + cb.arg_name + ");"@,
                ),
            ] + call_lines(lib, cb, "return "@, depth + 1),
        ) + seq![Seq::<char>::empty()],
        InterfaceElementView::DestroyFunction(name) => seq![
            line(depth, "internal static void "@ + name + "_cb(IntPtr arg)"@),
        ] + block(
            depth,
            seq![
                line(depth + 1, "Marshal.DestroyStructure<InnerData>(arg);"@),
                line(depth + 1, "Marshal.FreeHGlobal(arg);"@),
            ],
        ) + seq![Seq::<char>::empty()],
        InterfaceElementView::Arg(_) => Seq::empty(),
    }
}

/// The method of the host interface that a callback becomes. The destroy
/// function is no method of it.
pub open spec fn method_line(
    lib: LibraryView,
    i: InterfaceView,
    e: InterfaceElementView,
    depth: nat,
) -> Seq<Text> {
    match e {
        InterfaceElementView::CallbackFunction(cb) if cb.name != i.destroy_name => seq![
            line(
                depth,
                return_dotnet_type(lib, cb.return_type) + " "@ + cb.name + "("@ + parameter_list(
                    lib,
                    cb,
                    ListMode::Managed,
                ) + ");"@,
            ),
        ],
        _ => Seq::empty(),
    }
}

/// What one element contributes to a section.
pub open spec fn element_lines(
    lib: LibraryView,
    i: InterfaceView,
    e: InterfaceElementView,
    depth: nat,
    which: Section,
) -> Seq<Text> {
    match which {
        Section::Methods => method_line(lib, i, e, depth),
        Section::Delegates => delegate_line(lib, e, depth),
        Section::Fields => field_line(e, depth),
        Section::Assignments => assignment_lines(i, e, depth),
        Section::Trampolines => trampoline_lines(lib, e, depth),
    }
}

/// What the first `k` elements contribute to a section, in their order.
pub open spec fn section(
    lib: LibraryView,
    i: InterfaceView,
    k: int,
    depth: nat,
    which: Section,
) -> Seq<Text>
    decreases k,
{
    if k <= 0 {
        Seq::empty()
    } else {
        section(lib, i, k - 1, depth, which) + element_lines(
            lib,
            i,
            i.elements[k - 1],
            depth,
            which,
        )
    }
}

/// The adapter: delegate types, fields, constructor, trampolines, and the
/// record that the slot points to.
pub open spec fn adapter_body(lib: LibraryView, i: InterfaceView, depth: nat) -> Seq<Text> {
    let n = i.elements.len() as int;
    section(lib, i, n, depth, Section::Delegates) + seq![Seq::<char>::empty()] + section(
        lib,
        i,
        n,
        depth,
        Section::Fields,
    ) + seq![
        Seq::<char>::empty(),
        line(depth, "internal "@ + i.name + "NativeAdapter("@ + i.name + " impl)"@),
    ] + block(
        depth,
        seq![
            line(depth + 1, "var inner = new InnerData();"@),
            line(depth + 1, "inner.impl = impl;"@),
            Seq::<char>::empty(),
        ] + section(lib, i, n, depth + 1, Section::Assignments),
    ) + section(lib, i, n, depth, Section::Trampolines) + seq![
        line(depth, "[StructLayout(LayoutKind.Sequential)]"@),
        line(depth, "internal struct InnerData"@),
    ] + block(depth, seq![line(depth + 1, "public "@ + i.name + " impl;"@)])
}

/// The host interface, then the adapter.
pub open spec fn interface_body(lib: LibraryView, i: InterfaceView, depth: nat) -> Seq<Text> {
    seq![line(depth, "public interface "@ + i.name)] + block(
        depth,
        section(lib, i, i.elements.len() as int, depth + 1, Section::Methods),
    ) + seq![
        Seq::<char>::empty(),
        line(depth, "[StructLayout(LayoutKind.Sequential)]"@),
        line(depth, "internal struct "@ + i.name + "NativeAdapter"@),
    ] + block(depth, adapter_body(lib, i, depth + 1))
}

/// The whole file: license, imports, and the namespace of the library around
/// the interface and its adapter.
pub open spec fn interface_file(lib: LibraryView, i: InterfaceView, depth: nat) -> Seq<Text> {
    license_lines(lib.license, lib.license.len() as int, depth) + seq![
        line(depth, "using System;"@),
        line(depth, "using System.Runtime.InteropServices;"@),
        Seq::<char>::empty(),
    ] + namespaced(depth, lib.name, interface_body(lib, i, depth + 1))
}

fn write_trampoline(f: &mut Printer, lib: &Library, el: &InterfaceElement)
    requires
        old(f)@.pending.len() == 0,
        old(f)@.indent < usize::MAX,
        lib@.consistent(),
        el@ matches InterfaceElementView::CallbackFunction(cb) ==> lib@.callback_ok(cb, cb.arg_name),
    ensures
        final(f)@ == old(f)@.with_lines(trampoline_lines(lib@, el@, old(f)@.indent)),
{
    let ghost depth = f@.indent;
    match el {
        InterfaceElement::CallbackFunction(cb) => {
            let mut head = concat3(
                "internal static ",
                as_native_return_type(lib, cb.return_type).as_str(),
                " ",
            );
            head.append(cb.name.as_str());
            head.append("_cb(");
            head.append(write_parameter_list(lib, cb, ListMode::Native).as_str());
            head.append(")");
            emit(f, head.as_str());
            open(f);
            emit(
                f,
                concat3(
                    "var _inner = Marshal.PtrToStructure<InnerData>(",
                    cb.arg_name.as_str(),
                    ");",
                ).as_str(),
            );
            let _ = call_dotnet_function(f, lib, cb, "return ");
            close(f);
            blank(f);
        },
        InterfaceElement::DestroyFunction(name) => {
            emit(f, concat3("internal static void ", name.as_str(), "_cb(IntPtr arg)").as_str());
            open(f);
            emit(f, "Marshal.DestroyStructure<InnerData>(arg);");
            emit(f, "Marshal.FreeHGlobal(arg);");
            close(f);
            blank(f);
        },
        InterfaceElement::Arg(_) => {},
    }
    assert(f@.lines =~= old(f)@.lines + trampoline_lines(lib@, el@, depth));
}

fn write_element(
    f: &mut Printer,
    lib: &Library,
    interface: &Interface,
    el: &InterfaceElement,
    which: Section,
)
    requires
        old(f)@.pending.len() == 0,
        old(f)@.indent < usize::MAX,
        lib@.consistent(),
        el@ matches InterfaceElementView::CallbackFunction(cb) ==> lib@.callback_ok(cb, cb.arg_name),
    ensures
        final(f)@ == old(f)@.with_lines(
            element_lines(lib@, interface@, el@, old(f)@.indent, which),
        ),
{
    let ghost depth = f@.indent;
    match which {
        Section::Methods => {
            if let InterfaceElement::CallbackFunction(cb) = el {
                if cb.name != interface.destroy_name {
                    let mut text = concat3(
                        as_dotnet_return_type(lib, cb.return_type).as_str(),
                        " ",
                        cb.name.as_str(),
                    );
                    text.append("(");
                    text.append(write_parameter_list(lib, cb, ListMode::Managed).as_str());
                    text.append(");");
                    emit(f, text.as_str());
                }
            }
        },
        Section::Delegates => {
            match el {
                InterfaceElement::CallbackFunction(cb) => {
                    let mut text = concat3(
                        "private delegate ",
                        as_native_return_type(lib, cb.return_type).as_str(),
                        " ",
                    );
                    text.append(cb.name.as_str());
                    text.append("_delegate(");
                    text.append(write_parameter_list(lib, cb, ListMode::Native).as_str());
                    text.append(");");
                    emit(f, text.as_str());
                },
                InterfaceElement::DestroyFunction(name) => {
                    emit(
                        f,
                        concat3(
                            "private delegate void ",
                            name.as_str(),
                            "_delegate(IntPtr arg);",
                        ).as_str(),
                    );
                },
                InterfaceElement::Arg(_) => {},
            }
        },
        Section::Fields => {
            match el {
                InterfaceElement::CallbackFunction(cb) => {
                    let mut text = concat3("private ", cb.name.as_str(), "_delegate ");
                    text.append(cb.name.as_str());
                    text.append(";");
                    emit(f, text.as_str());
                },
                InterfaceElement::DestroyFunction(name) => {
                    let mut text = concat3("private ", name.as_str(), "_delegate ");
                    text.append(name.as_str());
                    text.append(";");
                    emit(f, text.as_str());
                },
                InterfaceElement::Arg(name) => {
                    emit(f, concat3("private IntPtr ", name.as_str(), ";").as_str());
                },
            }
        },
        Section::Assignments => {
            match el {
                InterfaceElement::CallbackFunction(cb) => {
                    let mut text = concat3("this.", cb.name.as_str(), " = ");
                    text.append(interface.name.as_str());
                    text.append("NativeAdapter.");
                    text.append(cb.name.as_str());
                    text.append("_cb;");
                    emit(f, text.as_str());
                },
                InterfaceElement::DestroyFunction(name) => {
                    let mut text = concat3("this.", name.as_str(), " = ");
                    text.append(interface.name.as_str());
                    text.append("NativeAdapter.");
                    text.append(name.as_str());
                    text.append("_cb;");
                    emit(f, text.as_str());
                },
                InterfaceElement::Arg(name) => {
                    emit(
                        f,
                        concat3(
                            "this.",
                            name.as_str(),
                            " = Marshal.AllocHGlobal(Marshal.SizeOf(inner));",
                        ).as_str(),
                    );
                    emit(
                        f,
                        concat3(
                            "Marshal.StructureToPtr(inner, this.",
                            name.as_str(),
                            ", false);",
                        ).as_str(),
                    );
                },
            }
            blank(f);
        },
        Section::Trampolines => {
            write_trampoline(f, lib, el);
        },
    }
    assert(f@.lines =~= old(f)@.lines + element_lines(lib@, interface@, el@, depth, which));
}

/// Emits a section: what each element of the interface contributes to it, in
/// the order of the elements.
pub fn write_section(f: &mut Printer, lib: &Library, interface: &Interface, which: Section)
    requires
        old(f)@.pending.len() == 0,
        old(f)@.indent < usize::MAX,
        lib@.consistent(),
        lib@.interface_ok(interface@),
    ensures
        final(f)@ == old(f)@.with_lines(
            section(lib@, interface@, interface@.elements.len() as int, old(f)@.indent, which),
        ),
{
    let ghost depth = f@.indent;
    let mut k: usize = 0;
    assert(f@.lines =~= old(f)@.lines + section(lib@, interface@, 0, depth, which));
    while k < interface.elements.len()
        invariant
            k <= interface.elements.len(),
            old(f)@.pending.len() == 0,
            old(f)@.indent < usize::MAX,
            depth == old(f)@.indent,
            lib@.consistent(),
            lib@.interface_ok(interface@),
            f@ == old(f)@.with_lines(section(lib@, interface@, k as int, depth, which)),
        decreases interface.elements.len() - k,
    {
        assert(interface@.elements[k as int] == interface.elements@[k as int]@);
        write_element(f, lib, interface, &interface.elements[k], which);
        k += 1;
        assert(f@.lines =~= old(f)@.lines + section(lib@, interface@, k as int, depth, which));
    }
}

fn write_adapter_body(f: &mut Printer, lib: &Library, interface: &Interface)
    requires
        old(f)@.pending.len() == 0,
        old(f)@.indent + 1 < usize::MAX,
        lib@.consistent(),
        lib@.interface_ok(interface@),
    ensures
        final(f)@ == old(f)@.with_lines(adapter_body(lib@, interface@, old(f)@.indent)),
{
    let ghost depth = f@.indent;
    write_section(f, lib, interface, Section::Delegates);
    blank(f);
    write_section(f, lib, interface, Section::Fields);
    blank(f);
    let mut head = concat3("internal ", interface.name.as_str(), "NativeAdapter(");
    head.append(interface.name.as_str());
    head.append(" impl)");
    emit(f, head.as_str());
    open(f);
    emit(f, "var inner = new InnerData();");
    emit(f, "inner.impl = impl;");
    blank(f);
    write_section(f, lib, interface, Section::Assignments);
    close(f);
    write_section(f, lib, interface, Section::Trampolines);
    emit(f, "[StructLayout(LayoutKind.Sequential)]");
    emit(f, "internal struct InnerData");
    open(f);
    emit(f, concat3("public ", interface.name.as_str(), " impl;").as_str());
    close(f);
    assert(f@.lines =~= old(f)@.lines + adapter_body(lib@, interface@, depth));
}

fn write_interface_body(f: &mut Printer, lib: &Library, interface: &Interface)
    requires
        old(f)@.pending.len() == 0,
        old(f)@.indent + 2 < usize::MAX,
        lib@.consistent(),
        lib@.interface_ok(interface@),
    ensures
        final(f)@ == old(f)@.with_lines(interface_body(lib@, interface@, old(f)@.indent)),
{
    let ghost depth = f@.indent;
    emit(f, concat("public interface ", interface.name.as_str()).as_str());
    open(f);
    write_section(f, lib, interface, Section::Methods);
    close(f);
    blank(f);
    emit(f, "[StructLayout(LayoutKind.Sequential)]");
    emit(f, concat3("internal struct ", interface.name.as_str(), "NativeAdapter").as_str());
    open(f);
    write_adapter_body(f, lib, interface);
    close(f);
    assert(f@.lines =~= old(f)@.lines + interface_body(lib@, interface@, depth));
}

/// Emits the C# file of an interface of the library: the license, the
/// imports, and in the library's namespace the host interface and the
/// adapter that native code sees. Fails, and emits nothing, when the handle
/// names no interface of the library.
pub fn generate(f: &mut Printer, interface: &InterfaceHandle, lib: &Library) -> (r:
    FormattingResult<()>)
    requires
        old(f)@.pending.len() == 0,
        old(f)@.indent + 3 < usize::MAX,
        lib@.consistent(),
    ensures
        r is Ok <==> lib@.is_interface(interface.id),
        r matches Err(e) ==> e == FormattingError::NotAnInterface(interface.id) && final(f)@
            == old(f)@,
        r is Ok ==> final(f)@ == old(f)@.with_lines(
            interface_file(
                lib@,
                lib@.decls[interface.id as int].item->Interface_0,
                old(f)@.indent,
            ),
        ),
{
    let ghost depth = f@.indent;
    if interface.id >= lib.decls.len() {
        return Err(FormattingError::NotAnInterface(interface.id));
    }
    let definition = match &lib.decls[interface.id].item {
        Item::Interface(i) => i,
        _ => {
            return Err(FormattingError::NotAnInterface(interface.id));
        },
    };
    proof {
        assert(lib@.decl_ok(interface.id as int));
        assert(lib@.decls[interface.id as int].item == lib.decls@[interface.id as int].item@);
    }
    print_license(f, &lib.license);
    emit(f, "using System;");
    emit(f, "using System.Runtime.InteropServices;");
    blank(f);
    open_namespace(f, lib.name.as_str());
    write_interface_body(f, lib, definition);
    close(f);
    assert(f@.lines =~= old(f)@.lines + interface_file(lib@, definition@, depth));
    Ok(())
}

/// How many of the first `k` elements become a function pointer of the
/// adapter.
pub open spec fn function_pointers(elements: Seq<InterfaceElementView>, k: int) -> nat
    decreases k,
{
    if k <= 0 {
        0
    } else {
        function_pointers(elements, k - 1) + if elements[k - 1] is Arg {
            0nat
        } else {
            1nat
        }
    }
}

/// How many of the first `k` elements become an opaque pointer of the
/// adapter.
pub open spec fn opaque_slots(elements: Seq<InterfaceElementView>, k: int) -> nat
    decreases k,
{
    if k <= 0 {
        0
    } else {
        opaque_slots(elements, k - 1) + if elements[k - 1] is Arg {
            1nat
        } else {
            0nat
        }
    }
}

proof fn lemma_field_counts(lib: LibraryView, i: InterfaceView, k: int, depth: nat)
    requires
        0 <= k <= i.elements.len(),
    ensures
        section(lib, i, k, depth, Section::Fields).len() == k,
        function_pointers(i.elements, k) == count_callbacks(i.elements.take(k))
            + count_destroys(i.elements.take(k)),
        opaque_slots(i.elements, k) == count_args(i.elements.take(k)),
    decreases k,
{
    if k > 0 {
        lemma_field_counts(lib, i, k - 1, depth);
        assert(i.elements.take(k).drop_last() =~= i.elements.take(k - 1));
    }
}

/// The adapter of an interface with `k` callbacks holds one field per
/// element of the interface: `k + 1` function pointers, those of the
/// callbacks and that of the destroy function, and one opaque slot.
pub proof fn law_adapter_fields(lib: LibraryView, i: InterfaceView, depth: nat)
    requires
        lib.interface_ok(i),
    ensures
        section(lib, i, i.elements.len() as int, depth, Section::Fields).len()
            == i.elements.len(),
        function_pointers(i.elements, i.elements.len() as int) == count_callbacks(
            i.elements,
        ) + 1,
        opaque_slots(i.elements, i.elements.len() as int) == 1,
        i.elements.len() == count_callbacks(i.elements) + 2,
        forall|e: int|
            0 <= e < i.elements.len() ==> #[trigger] field_line(i.elements[e], depth).len() == 1,
{
    lemma_field_counts(lib, i, i.elements.len() as int, depth);
    assert(i.elements.take(i.elements.len() as int) =~= i.elements);
    lemma_total(i.elements, i.elements.len() as int);
}

proof fn lemma_total(elements: Seq<InterfaceElementView>, k: int)
    requires
        0 <= k <= elements.len(),
    ensures
        function_pointers(elements, k) + opaque_slots(elements, k) == k,
    decreases k,
{
    if k > 0 {
        lemma_total(elements, k - 1);
    }
}

} // verus!
