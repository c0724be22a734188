//! The C# files of an enumeration and of a class. A class holds the native
//! handle; its constructors, its disposal and its methods call the native
//! functions of the class and convert what crosses the boundary.

use vstd::prelude::*;
use vstd::string::StringExecFns;
use crate::types::{ClassDeclarationHandle, NativeEnumHandle, NativeFunctionHandle, ReturnType};
use crate::model::{
    Class, ClassView, Item, ItemView, NativeEnum, NativeEnumView, NativeFunction,
    NativeFunctionView, Text,
};
use crate::library::{Library, LibraryView};
use crate::formatting::{
    Printer, blank, block, close, concat, concat3, emit, license_lines, line, namespaced, open,
    open_namespace, print_license,
};
use crate::c_header::{decimal, decimal_text};
use crate::dotnet_types::{
    as_dotnet_return_type, as_dotnet_type, convert_from_native, convert_to_native, converts,
    dotnet_type, from_native, has_conversion, return_dotnet_type, to_native,
};
use crate::dotnet_interface::{FormattingError, FormattingResult};

verus! {

/// The first `k` variants of an enumeration, each with its position as its
/// value.
pub open spec fn host_variant_lines(e: NativeEnumView, k: int, depth: nat) -> Seq<Text>
    decreases k,
{
    if k <= 0 {
        Seq::empty()
    } else {
        host_variant_lines(e, k - 1, depth).push(
            line(depth, e.variants[k - 1].name + " = "@ + decimal_text((k - 1) as nat) + ","@),
        )
    }
}

/// The file of an enumeration: license, and in the namespace of the library
/// the enumeration with its variants in their order.
pub open spec fn enum_file(lib: LibraryView, e: NativeEnumView, depth: nat) -> Seq<Text> {
    license_lines(lib.license, lib.license.len() as int, depth) + namespaced(
        depth,
        lib.name,
        seq![line(depth + 1, "public enum "@ + e.name)] + block(
            depth + 1,
            host_variant_lines(e, e.variants.len() as int, depth + 2),
        ),
    )
}

fn write_host_variants(f: &mut Printer, e: &NativeEnum)
    requires
        old(f)@.pending.len() == 0,
    ensures
        final(f)@ == old(f)@.with_lines(
            host_variant_lines(e@, e@.variants.len() as int, old(f)@.indent),
        ),
{
    let ghost depth = f@.indent;
    let mut k: usize = 0;
    assert(f@.lines =~= old(f)@.lines + host_variant_lines(e@, 0, depth));
    while k < e.variants.len()
        invariant
            k <= e.variants.len(),
            old(f)@.pending.len() == 0,
            depth == old(f)@.indent,
            f@ == old(f)@.with_lines(host_variant_lines(e@, k as int, depth)),
        decreases e.variants.len() - k,
    {
        assert(e@.variants[k as int] == e.variants@[k as int]@);
        let mut text = concat3(e.variants[k].name.as_str(), " = ", decimal(k).as_str());
        text.append(",");
        emit(f, text.as_str());
        k += 1;
        assert(f@.lines =~= old(f)@.lines + host_variant_lines(e@, k as int, depth));
    }
}

/// Emits the C# file of an enumeration of the library. Fails, and emits
/// nothing, when the handle names no enumeration of the library.
pub fn generate_enum(f: &mut Printer, handle: &NativeEnumHandle, lib: &Library) -> (r:
    FormattingResult<()>)
    requires
        old(f)@.pending.len() == 0,
        old(f)@.indent + 2 < usize::MAX,
    ensures
        r is Ok <==> lib@.is_enum(handle.id),
        r matches Err(e) ==> e == FormattingError::NotAnEnum(handle.id) && final(f)@ == old(f)@,
        r is Ok ==> final(f)@ == old(f)@.with_lines(
            enum_file(lib@, lib@.decls[handle.id as int].item->Enum_0, old(f)@.indent),
        ),
{
    let ghost depth = f@.indent;
    if handle.id >= lib.decls.len() {
        return Err(FormattingError::NotAnEnum(handle.id));
    }
    let definition = match &lib.decls[handle.id].item {
        Item::Enum(e) => e,
        _ => {
            return Err(FormattingError::NotAnEnum(handle.id));
        },
    };
    proof {
        assert(lib@.decls[handle.id as int].item == lib.decls@[handle.id as int].item@);
    }
    print_license(f, &lib.license);
    open_namespace(f, lib.name.as_str());
    emit(f, concat("public enum ", definition.name.as_str()).as_str());
    open(f);
    write_host_variants(f, definition);
    close(f);
    close(f);
    assert(f@.lines =~= old(f)@.lines + enum_file(lib@, definition@, depth));
    Ok(())
}

/// The parameters of a function from position `from` up to `k`, as the
/// parameters of a host method.
pub open spec fn host_parameters(lib: LibraryView, f: NativeFunctionView, from: int, k: int) -> Text
    decreases k,
{
    if k <= from || k <= 0 {
        Seq::empty()
    } else {
        let p = f.parameters[k - 1];
        let text = dotnet_type(lib, p.param_type) + " "@ + p.name;
        if k - 1 == from {
            text
        } else {
            host_parameters(lib, f, from, k - 1) + ", "@ + text
        }
    }
}

/// The parameters of a function from position `from` up to `k`, as the
/// arguments of the native call: a converted parameter goes by its
/// converted value.
pub open spec fn native_arguments(f: NativeFunctionView, from: int, k: int) -> Text
    decreases k,
{
    if k <= from || k <= 0 {
        Seq::empty()
    } else {
        let p = f.parameters[k - 1];
        let text = if converts(p.param_type) {
            "_"@ + p.name
        } else {
            p.name
        };
        if k - 1 == from {
            text
        } else {
            native_arguments(f, from, k - 1) + ", "@ + text
        }
    }
}

/// The lines that convert the parameters from position `from` up to `k` from
/// their host to their native form.
pub open spec fn to_native_lines(
    lib: LibraryView,
    f: NativeFunctionView,
    from: int,
    k: int,
    depth: nat,
) -> Seq<Text>
    decreases k,
{
    if k <= from || k <= 0 {
        Seq::empty()
    } else {
        let p = f.parameters[k - 1];
        let before = to_native_lines(lib, f, from, k - 1, depth);
        if converts(p.param_type) {
            before.push(
                line(depth, "var _"@ + p.name + " = "@ + to_native(lib, p.param_type, p.name) + ";"@),
            )
        } else {
            before
        }
    }
}

/// A constructor of the host class: it converts its parameters, calls the
/// native constructor and keeps the handle.
pub open spec fn constructor_lines(
    lib: LibraryView,
    class: Text,
    f: NativeFunctionView,
    depth: nat,
) -> Seq<Text> {
    let n = f.parameters.len() as int;
    seq![line(depth, "public "@ + class + "("@ + host_parameters(lib, f, 0, n) + ")"@)] + block(
        depth,
        to_native_lines(lib, f, 0, n, depth + 1) + seq![
            line(
                depth + 1,
                "this.self = NativeFunctions."@ + f.name + "("@ + native_arguments(f, 0, n) + ");"@,
            ),
        ],
    ) + seq![Seq::<char>::empty()]
}

/// The disposal of the host class: the native destructor is called on the
/// first call, and never again.
pub open spec fn destructor_lines(f: NativeFunctionView, depth: nat) -> Seq<Text> {
    seq![line(depth, "public void Dispose()"@)] + block(
        depth,
        seq![line(depth + 1, "if (this.disposed)"@)] + block(
            depth + 1,
            seq![line(depth + 2, "return;"@)],
        ) + seq![
            line(depth + 1, "this.disposed = true;"@),
            line(depth + 1, "NativeFunctions."@ + f.name + "(this.self);"@),
        ],
    ) + seq![Seq::<char>::empty()]
}

/// The arguments of the native call of a method: the handle, then the
/// parameters after the receiver.
pub open spec fn method_arguments(f: NativeFunctionView) -> Text {
    let n = f.parameters.len() as int;
    if n > 1 {
        "this.self, "@ + native_arguments(f, 1, n)
    } else {
        "this.self"@
    }
}

/// The native call of a method, and where its result goes.
pub open spec fn method_call(f: NativeFunctionView) -> Text {
    let call = "NativeFunctions."@ + f.name + "("@ + method_arguments(f) + ");"@;
    match f.return_type {
        ReturnType::Void => call,
        ReturnType::Type(t) => if converts(t) {
            "var _result = "@ + call
        } else {
            "return "@ + call
        },
    }
}

/// The lines after the native call of a method: the conversion of the
/// result, if it has one.
pub open spec fn method_result(lib: LibraryView, f: NativeFunctionView, depth: nat) -> Seq<Text> {
    match f.return_type {
        ReturnType::Type(t) if converts(t) => seq![
            line(depth, "return "@ + from_native(lib, t, "_result"@) + ";"@),
        ],
        _ => Seq::empty(),
    }
}

/// A method of the host class: it converts the parameters after the
/// receiver, calls the native function with the handle first, and converts
/// the result.
pub open spec fn method_lines(
    lib: LibraryView,
    name: Text,
    f: NativeFunctionView,
    depth: nat,
) -> Seq<Text> {
    let n = f.parameters.len() as int;
    seq![
        line(
            depth,
            "public "@ + return_dotnet_type(lib, f.return_type) + " "@ + name + "("@
                + host_parameters(lib, f, 1, n) + ")"@,
        ),
    ] + block(
        depth,
        to_native_lines(lib, f, 1, n, depth + 1) + seq![line(depth + 1, method_call(f))]
            + method_result(lib, f, depth + 1),
    ) + seq![Seq::<char>::empty()]
}

/// The first `k` constructors of a class.
pub open spec fn constructors_lines(lib: LibraryView, c: ClassView, k: int, depth: nat) -> Seq<Text>
    decreases k,
{
    if k <= 0 {
        Seq::empty()
    } else {
        constructors_lines(lib, c, k - 1, depth) + constructor_lines(
            lib,
            c.name,
            lib.function(c.constructors[k - 1]),
            depth,
        )
    }
}

/// The first `k` methods of a class.
pub open spec fn methods_lines(lib: LibraryView, c: ClassView, k: int, depth: nat) -> Seq<Text>
    decreases k,
{
    if k <= 0 {
        Seq::empty()
    } else {
        methods_lines(lib, c, k - 1, depth) + method_lines(
            lib,
            c.methods[k - 1].name,
            lib.function(c.methods[k - 1].native_function),
            depth,
        )
    }
}

/// The disposal of a class, if it has a destructor.
pub open spec fn disposal_lines(lib: LibraryView, c: ClassView, depth: nat) -> Seq<Text> {
    match c.destructor {
        Some(h) => destructor_lines(lib.function(h), depth),
        None => Seq::empty(),
    }
}

/// The members of the host class: the handle, the constructor from a handle,
/// the constructors, the disposal and the methods.
pub open spec fn class_body(lib: LibraryView, c: ClassView, depth: nat) -> Seq<Text> {
    seq![
        line(depth, "internal readonly IntPtr self;"@),
        line(depth, "private bool disposed = false;"@),
        Seq::<char>::empty(),
        line(depth, "internal "@ + c.name + "(IntPtr self)"@),
    ] + block(depth, seq![line(depth + 1, "this.self = self;"@)]) + seq![Seq::<char>::empty()]
        + constructors_lines(lib, c, c.constructors.len() as int, depth) + disposal_lines(
        lib,
        c,
        depth,
    ) + methods_lines(lib, c, c.methods.len() as int, depth)
}

/// The head of the host class; a class with a destructor is disposable.
pub open spec fn class_head(c: ClassView) -> Text {
    if c.destructor is Some {
        "public class "@ + c.name + " : IDisposable"@
    } else {
        "public class "@ + c.name
    }
}

/// The file of a class: license, imports, and in the namespace of the
/// library the class with its members.
pub open spec fn class_file(lib: LibraryView, c: ClassView, depth: nat) -> Seq<Text> {
    license_lines(lib.license, lib.license.len() as int, depth) + seq![
        line(depth, "using System;"@),
        line(depth, "using System.Runtime.InteropServices;"@),
        Seq::<char>::empty(),
    ] + namespaced(
        depth,
        lib.name,
        seq![line(depth + 1, class_head(c))] + block(depth + 1, class_body(lib, c, depth + 2)),
    )
}

fn function_of(lib: &Library, h: NativeFunctionHandle) -> (f: &NativeFunction)
    requires
        lib@.consistent(),
        lib@.is_function(h.id),
    ensures
        f@ == lib@.function(h),
        lib@.function_ok(f@),
{
    proof {
        assert(lib@.decl_ok(h.id as int));
        assert(lib@.decls[h.id as int].item == lib.decls@[h.id as int].item@);
    }
    match &lib.decls[h.id].item {
        Item::Function(f) => f,
        _ => vstd::pervasive::unreached(),
    }
}

fn write_host_parameters(lib: &Library, f: &NativeFunction, from: usize) -> (r: String)
    requires
        lib@.consistent(),
        lib@.function_ok(f@),
    ensures
        r@ == host_parameters(lib@, f@, from as int, f@.parameters.len() as int),
{
    let mut r = String::new();
    if from >= f.parameters.len() {
        return r;
    }
    let mut k: usize = from;
    while k < f.parameters.len()
        invariant
            from <= k <= f.parameters.len(),
            lib@.consistent(),
            lib@.function_ok(f@),
            r@ == host_parameters(lib@, f@, from as int, k as int),
        decreases f.parameters.len() - k,
    {
        assert(f@.parameters[k as int] == f.parameters@[k as int]@);
        assert(lib@.resolves(f@.parameters[k as int].param_type));
        let text = concat3(
            as_dotnet_type(lib, f.parameters[k].param_type).as_str(),
            " ",
            f.parameters[k].name.as_str(),
        );
        if k > from {
            r.append(", ");
        } else {
            assert(r@ + text@ =~= text@);
        }
        r.append(text.as_str());
        k += 1;
    }
    r
}

fn write_native_arguments(f: &NativeFunction, from: usize) -> (r: String)
    ensures
        r@ == native_arguments(f@, from as int, f@.parameters.len() as int),
{
    let mut r = String::new();
    if from >= f.parameters.len() {
        return r;
    }
    let mut k: usize = from;
    while k < f.parameters.len()
        invariant
            from <= k <= f.parameters.len(),
            r@ == native_arguments(f@, from as int, k as int),
        decreases f.parameters.len() - k,
    {
        assert(f@.parameters[k as int] == f.parameters@[k as int]@);
        let text = if has_conversion(f.parameters[k].param_type) {
            concat("_", f.parameters[k].name.as_str())
        } else {
            f.parameters[k].name.clone()
        };
        if k > from {
            r.append(", ");
        } else {
            assert(r@ + text@ =~= text@);
        }
        r.append(text.as_str());
        k += 1;
    }
    r
}

fn write_to_native(out: &mut Printer, lib: &Library, f: &NativeFunction, from: usize)
    requires
        old(out)@.pending.len() == 0,
        lib@.consistent(),
        lib@.function_ok(f@),
    ensures
        final(out)@ == old(out)@.with_lines(
            to_native_lines(lib@, f@, from as int, f@.parameters.len() as int, old(out)@.indent),
        ),
{
    let ghost depth = out@.indent;
    if from >= f.parameters.len() {
        assert(out@.lines =~= old(out)@.lines + to_native_lines(
            lib@,
            f@,
            from as int,
            f@.parameters.len() as int,
            depth,
        ));
        return;
    }
    let mut k: usize = from;
    assert(out@.lines =~= old(out)@.lines + to_native_lines(
        lib@,
        f@,
        from as int,
        from as int,
        depth,
    ));
    while k < f.parameters.len()
        invariant
            from <= k <= f.parameters.len(),
            old(out)@.pending.len() == 0,
            depth == old(out)@.indent,
            lib@.consistent(),
            lib@.function_ok(f@),
            out@ == old(out)@.with_lines(
                to_native_lines(lib@, f@, from as int, k as int, depth),
            ),
        decreases f.parameters.len() - k,
    {
        assert(f@.parameters[k as int] == f.parameters@[k as int]@);
        assert(lib@.resolves(f@.parameters[k as int].param_type));
        let p = &f.parameters[k];
        if has_conversion(p.param_type) {
            let mut text = concat3("var _", p.name.as_str(), " = ");
            text.append(convert_to_native(lib, p.param_type, p.name.as_str()).as_str());
            text.append(";");
            emit(out, text.as_str());
        }
        k += 1;
        assert(out@.lines =~= old(out)@.lines + to_native_lines(
            lib@,
            f@,
            from as int,
            k as int,
            depth,
        ));
    }
}

fn write_constructor(out: &mut Printer, lib: &Library, class: &String, f: &NativeFunction)
    requires
        old(out)@.pending.len() == 0,
        old(out)@.indent < usize::MAX,
        lib@.consistent(),
        lib@.function_ok(f@),
    ensures
        final(out)@ == old(out)@.with_lines(
            constructor_lines(lib@, class@, f@, old(out)@.indent),
        ),
{
    let ghost depth = out@.indent;
    let mut head = concat3("public ", class.as_str(), "(");
    head.append(write_host_parameters(lib, f, 0).as_str());
    head.append(")");
    emit(out, head.as_str());
    open(out);
    write_to_native(out, lib, f, 0);
    let mut call = concat3("this.self = NativeFunctions.", f.name.as_str(), "(");
    call.append(write_native_arguments(f, 0).as_str());
    call.append(");");
    emit(out, call.as_str());
    close(out);
    blank(out);
    assert(out@.lines =~= old(out)@.lines + constructor_lines(lib@, class@, f@, depth));
}

fn write_destructor(out: &mut Printer, f: &NativeFunction)
    requires
        old(out)@.pending.len() == 0,
        old(out)@.indent + 1 < usize::MAX,
    ensures
        final(out)@ == old(out)@.with_lines(destructor_lines(f@, old(out)@.indent)),
{
    let ghost depth = out@.indent;
    emit(out, "public void Dispose()");
    open(out);
    emit(out, "if (this.disposed)");
    open(out);
    emit(out, "return;");
    close(out);
    emit(out, "this.disposed = true;");
    emit(out, concat3("NativeFunctions.", f.name.as_str(), "(this.self);").as_str());
    close(out);
    blank(out);
    assert(out@.lines =~= old(out)@.lines + destructor_lines(f@, depth));
}

fn write_method(out: &mut Printer, lib: &Library, name: &String, f: &NativeFunction)
    requires
        old(out)@.pending.len() == 0,
        old(out)@.indent < usize::MAX,
        lib@.consistent(),
        lib@.function_ok(f@),
    ensures
        final(out)@ == old(out)@.with_lines(method_lines(lib@, name@, f@, old(out)@.indent)),
{
    let ghost depth = out@.indent;
    let mut head = concat3("public ", as_dotnet_return_type(lib, f.return_type).as_str(), " ");
    head.append(name.as_str());
    head.append("(");
    head.append(write_host_parameters(lib, f, 1).as_str());
    head.append(")");
    emit(out, head.as_str());
    open(out);
    write_to_native(out, lib, f, 1);
    let arguments = if f.parameters.len() > 1 {
        concat("this.self, ", write_native_arguments(f, 1).as_str())
    } else {
        String::from_str("this.self")
    };
    let mut call = match f.return_type {
        ReturnType::Void => String::new(),
        ReturnType::Type(t) => if has_conversion(t) {
            String::from_str("var _result = ")
        } else {
            String::from_str("return ")
        },
    };
    let mut native = concat3("NativeFunctions.", f.name.as_str(), "(");
    native.append(arguments.as_str());
    native.append(");");
    proof {
        if f.return_type is Void {
            assert(call@ + native@ =~= native@);
        }
    }
    call.append(native.as_str());
    emit(out, call.as_str());
    if let ReturnType::Type(t) = f.return_type {
        if has_conversion(t) {
            let text = concat3("return ", convert_from_native(lib, t, "_result").as_str(), ";");
            emit(out, text.as_str());
        }
    }
    close(out);
    blank(out);
    assert(out@.lines =~= old(out)@.lines + method_lines(lib@, name@, f@, depth));
}

fn write_class_body(out: &mut Printer, lib: &Library, id: usize, c: &Class)
    requires
        old(out)@.pending.len() == 0,
        old(out)@.indent + 1 < usize::MAX,
        lib@.consistent(),
        id < lib@.decls.len(),
        lib@.decls[id as int].item == ItemView::Class(c@),
    ensures
        final(out)@ == old(out)@.with_lines(class_body(lib@, c@, old(out)@.indent)),
{
    let ghost depth = out@.indent;
    proof {
        assert(lib@.decl_ok(id as int));
    }
    emit(out, "internal readonly IntPtr self;");
    emit(out, "private bool disposed = false;");
    blank(out);
    emit(out, concat3("internal ", c.name.as_str(), "(IntPtr self)").as_str());
    open(out);
    emit(out, "this.self = self;");
    close(out);
    blank(out);
    let ghost head = out@;
    let mut k: usize = 0;
    assert(out@.lines =~= head.lines + constructors_lines(lib@, c@, 0, depth));
    while k < c.constructors.len()
        invariant
            k <= c.constructors.len(),
            head.pending.len() == 0,
            head.indent == depth,
            depth + 1 < usize::MAX,
            lib@.consistent(),
            lib@.class_ok(id as int, c@),
            out@ == head.with_lines(constructors_lines(lib@, c@, k as int, depth)),
        decreases c.constructors.len() - k,
    {
        assert(lib@.constructor_ok(id, c@.constructors[k as int]));
        let function = function_of(lib, c.constructors[k]);
        write_constructor(out, lib, &c.name, function);
        k += 1;
        assert(out@.lines =~= head.lines + constructors_lines(lib@, c@, k as int, depth));
    }
    if let Some(h) = c.destructor {
        let function = function_of(lib, h);
        write_destructor(out, function);
    }
    let ghost middle = out@;
    assert(middle.lines =~= head.lines + (constructors_lines(
        lib@,
        c@,
        c@.constructors.len() as int,
        depth,
    ) + disposal_lines(lib@, c@, depth)));
    let mut m: usize = 0;
    assert(out@.lines =~= middle.lines + methods_lines(lib@, c@, 0, depth));
    while m < c.methods.len()
        invariant
            m <= c.methods.len(),
            middle.pending.len() == 0,
            middle.indent == depth,
            depth + 1 < usize::MAX,
            lib@.consistent(),
            lib@.class_ok(id as int, c@),
            out@ == middle.with_lines(methods_lines(lib@, c@, m as int, depth)),
        decreases c.methods.len() - m,
    {
        assert(c@.methods[m as int] == c.methods@[m as int]@);
        assert(lib@.method_ok(id, c@.methods[m as int].native_function));
        let function = function_of(lib, c.methods[m].native_function);
        write_method(out, lib, &c.methods[m].name, function);
        m += 1;
        assert(out@.lines =~= middle.lines + methods_lines(lib@, c@, m as int, depth));
    }
    assert(out@.lines =~= old(out)@.lines + class_body(lib@, c@, depth));
}

/// Emits the C# file of a class of the library: a class that holds the
/// native handle, with a constructor for each native constructor, a disposal
/// that calls the native destructor once, and a method for each native
/// method. Fails, and emits nothing, when the handle names no class of the
/// library.
pub fn generate_class(f: &mut Printer, class: &ClassDeclarationHandle, lib: &Library) -> (r:
    FormattingResult<()>)
    requires
        old(f)@.pending.len() == 0,
        old(f)@.indent + 3 < usize::MAX,
        lib@.consistent(),
    ensures
        r is Ok <==> lib@.is_class(class.id),
        r matches Err(e) ==> e == FormattingError::NotAClass(class.id) && final(f)@ == old(f)@,
        r is Ok ==> final(f)@ == old(f)@.with_lines(
            class_file(lib@, lib@.decls[class.id as int].item->Class_0, old(f)@.indent),
        ),
{
    let ghost depth = f@.indent;
    if class.id >= lib.decls.len() {
        return Err(FormattingError::NotAClass(class.id));
    }
    let definition = match &lib.decls[class.id].item {
        Item::Class(c) => c,
        _ => {
            return Err(FormattingError::NotAClass(class.id));
        },
    };
    proof {
        assert(lib@.decls[class.id as int].item == lib.decls@[class.id as int].item@);
    }
    print_license(f, &lib.license);
    emit(f, "using System;");
    emit(f, "using System.Runtime.InteropServices;");
    blank(f);
    open_namespace(f, lib.name.as_str());
    let head = if definition.destructor.is_some() {
        concat3("public class ", definition.name.as_str(), " : IDisposable")
    } else {
        concat("public class ", definition.name.as_str())
    };
    emit(f, head.as_str());
    open(f);
    write_class_body(f, lib, class.id, definition);
    close(f);
    close(f);
    assert(f@.lines =~= old(f)@.lines + class_file(lib@, definition@, depth));
    Ok(())
}

} // verus!
