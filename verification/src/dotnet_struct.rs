//! The C# files of a structure and of an iterator. A structure becomes a
//! host type with the same fields in the same order, and a native twin that
//! converts to and from it. An iterator becomes a helper that drives the
//! native iterator until it is used up.

use vstd::prelude::*;
use vstd::string::StringExecFns;
use crate::types::{IteratorHandle, NativeStructHandle};
use crate::model::{Item, IteratorDefView, NativeStruct, NativeStructView, Text};
use crate::library::{Library, LibraryView};
use crate::formatting::{
    Printer, blank, block, close, concat, concat3, emit, license_lines, line, namespaced, open,
    open_namespace, print_license,
};
use crate::dotnet_types::{as_dotnet_type, as_native_type, convert_from_native, convert_to_native, dotnet_type, from_native, name_of, native_type, to_native};
use crate::dotnet_interface::{FormattingError, FormattingResult};

verus! {

/// The parts of the file of a structure that have one line per field.
#[derive(Clone, Copy, Debug, PartialEq, Eq, Structural)]
pub enum FieldSection {
    /// The fields of the host type.
    Host,
    /// The fields of the native twin.
    Native,
    /// The assignments that fill the native twin from the host value.
    ToNative,
    /// The assignments that fill the host value from the native twin.
    FromNative,
}

/// The line of a field in a section.
pub open spec fn field_text(
    lib: LibraryView,
    s: NativeStructView,
    k: int,
    which: FieldSection,
) -> Text {
    let f = s.fields[k];
    match which {
        FieldSection::Host => "public "@ + dotnet_type(lib, f.field_type) + " "@ + f.name + ";"@,
        FieldSection::Native => native_type(lib, f.field_type) + " "@ + f.name + ";"@,
        FieldSection::ToNative => "result."@ + f.name + " = "@ + to_native(
            lib,
            f.field_type,
            "self."@ + f.name,
        ) + ";"@,
        FieldSection::FromNative => "result."@ + f.name + " = "@ + from_native(
            lib,
            f.field_type,
            "native."@ + f.name,
        ) + ";"@,
    }
}

/// The lines of the first `k` fields in a section, in the order of the
/// fields.
pub open spec fn fields_section(
    lib: LibraryView,
    s: NativeStructView,
    k: int,
    depth: nat,
    which: FieldSection,
) -> Seq<Text>
    decreases k,
{
    if k <= 0 {
        Seq::empty()
    } else {
        fields_section(lib, s, k - 1, depth, which).push(line(depth, field_text(lib, s, k - 1, which)))
    }
}

/// The native twin of a structure: its fields, and the two conversions.
pub open spec fn native_twin(lib: LibraryView, s: NativeStructView, depth: nat) -> Seq<Text> {
    let n = s.fields.len() as int;
    fields_section(lib, s, n, depth, FieldSection::Native) + seq![
        Seq::<char>::empty(),
        line(depth, "internal static "@ + s.name + "Native ToNative("@ + s.name + " self)"@),
    ] + block(
        depth,
        seq![line(depth + 1, s.name + "Native result;"@)] + fields_section(
            lib,
            s,
            n,
            depth + 1,
            FieldSection::ToNative,
        ) + seq![line(depth + 1, "return result;"@)],
    ) + seq![
        Seq::<char>::empty(),
        line(depth, "internal static "@ + s.name + " FromNative("@ + s.name + "Native native)"@),
    ] + block(
        depth,
        seq![line(depth + 1, s.name + " result = new "@ + s.name + "();"@)] + fields_section(
            lib,
            s,
            n,
            depth + 1,
            FieldSection::FromNative,
        ) + seq![line(depth + 1, "return result;"@)],
    )
}

/// The conversions of a structure that crosses the boundary by reference:
/// null stands for no value.
pub open spec fn reference_conversions(s: NativeStructView, depth: nat) -> Seq<Text> {
    seq![
        Seq::<char>::empty(),
        line(depth, "internal static "@ + s.name + " FromNativeRef(IntPtr native)"@),
    ] + block(
        depth,
        seq![line(depth + 1, "if (native == IntPtr.Zero)"@)] + block(
            depth + 1,
            seq![line(depth + 2, "return null;"@)],
        ) + seq![
            line(
                depth + 1,
                "return FromNative(Marshal.PtrToStructure<"@ + s.name + "Native>(native));"@,
            ),
        ],
    ) + seq![
        Seq::<char>::empty(),
        line(depth, "internal static IntPtr ToNativeRef("@ + s.name + " self)"@),
    ] + block(
        depth,
        seq![line(depth + 1, "if (self == null)"@)] + block(
            depth + 1,
            seq![line(depth + 2, "return IntPtr.Zero;"@)],
        ) + seq![
            line(
                depth + 1,
                "var handle = Marshal.AllocHGlobal(Marshal.SizeOf<"@ + s.name + "Native>());"@,
            ),
            line(depth + 1, "Marshal.StructureToPtr(ToNative(self), handle, false);"@),
            line(depth + 1, "return handle;"@),
        ],
    )
}

/// The host type of a structure, then its native twin.
pub open spec fn struct_body(lib: LibraryView, s: NativeStructView, depth: nat) -> Seq<Text> {
    seq![line(depth, "public class "@ + s.name)] + block(
        depth,
        fields_section(lib, s, s.fields.len() as int, depth + 1, FieldSection::Host),
    ) + seq![
        Seq::<char>::empty(),
        line(depth, "[StructLayout(LayoutKind.Sequential)]"@),
        line(depth, "internal struct "@ + s.name + "Native"@),
    ] + block(depth, native_twin(lib, s, depth + 1) + reference_conversions(s, depth + 1))
}

/// The file of a structure: license, imports, and in the namespace of the
/// library the host type and its native twin.
pub open spec fn struct_file(lib: LibraryView, s: NativeStructView, depth: nat) -> Seq<Text> {
    license_lines(lib.license, lib.license.len() as int, depth) + seq![
        line(depth, "using System;"@),
        line(depth, "using System.Runtime.InteropServices;"@),
        Seq::<char>::empty(),
    ] + namespaced(depth, lib.name, struct_body(lib, s, depth + 1))
}

fn write_fields(out: &mut Printer, lib: &Library, s: &NativeStruct, which: FieldSection)
    requires
        old(out)@.pending.len() == 0,
        lib@.consistent(),
        forall|i: int|
            0 <= i < s@.fields.len() ==> lib@.resolves((#[trigger] s@.fields[i]).field_type),
    ensures
        final(out)@ == old(out)@.with_lines(
            fields_section(lib@, s@, s@.fields.len() as int, old(out)@.indent, which),
        ),
{
    let ghost depth = out@.indent;
    let mut k: usize = 0;
    assert(out@.lines =~= old(out)@.lines + fields_section(lib@, s@, 0, depth, which));
    while k < s.fields.len()
        invariant
            k <= s.fields.len(),
            old(out)@.pending.len() == 0,
            depth == old(out)@.indent,
            lib@.consistent(),
            forall|i: int|
                0 <= i < s@.fields.len() ==> lib@.resolves((#[trigger] s@.fields[i]).field_type),
            out@ == old(out)@.with_lines(fields_section(lib@, s@, k as int, depth, which)),
        decreases s.fields.len() - k,
    {
        assert(s@.fields[k as int] == s.fields@[k as int]@);
        let field = &s.fields[k];
        let text = match which {
            FieldSection::Host => {
                let mut t = concat3("public ", as_dotnet_type(lib, field.field_type).as_str(), " ");
                t.append(field.name.as_str());
                t.append(";");
                t
            },
            FieldSection::Native => {
                let mut t = concat3(
                    as_native_type(lib, field.field_type).as_str(),
                    " ",
                    field.name.as_str(),
                );
                t.append(";");
                t
            },
            FieldSection::ToNative => {
                let value = concat("self.", field.name.as_str());
                let mut t = concat3("result.", field.name.as_str(), " = ");
                t.append(convert_to_native(lib, field.field_type, value.as_str()).as_str());
                t.append(";");
                t
            },
            FieldSection::FromNative => {
                let value = concat("native.", field.name.as_str());
                let mut t = concat3("result.", field.name.as_str(), " = ");
                t.append(convert_from_native(lib, field.field_type, value.as_str()).as_str());
                t.append(";");
                t
            },
        };
        emit(out, text.as_str());
        k += 1;
        assert(out@.lines =~= old(out)@.lines + fields_section(lib@, s@, k as int, depth, which));
    }
}

fn write_native_twin(out: &mut Printer, lib: &Library, s: &NativeStruct)
    requires
        old(out)@.pending.len() == 0,
        old(out)@.indent < usize::MAX,
        lib@.consistent(),
        forall|i: int|
            0 <= i < s@.fields.len() ==> lib@.resolves((#[trigger] s@.fields[i]).field_type),
    ensures
        final(out)@ == old(out)@.with_lines(native_twin(lib@, s@, old(out)@.indent)),
{
    let ghost depth = out@.indent;
    write_fields(out, lib, s, FieldSection::Native);
    blank(out);
    let mut head = concat3("internal static ", s.name.as_str(), "Native ToNative(");
    head.append(s.name.as_str());
    head.append(" self)");
    emit(out, head.as_str());
    open(out);
    emit(out, concat(s.name.as_str(), "Native result;").as_str());
    write_fields(out, lib, s, FieldSection::ToNative);
    emit(out, "return result;");
    close(out);
    blank(out);
    let mut head = concat3("internal static ", s.name.as_str(), " FromNative(");
    head.append(s.name.as_str());
    head.append("Native native)");
    emit(out, head.as_str());
    open(out);
    let mut first = concat3(s.name.as_str(), " result = new ", s.name.as_str());
    first.append("();");
    emit(out, first.as_str());
    write_fields(out, lib, s, FieldSection::FromNative);
    emit(out, "return result;");
    close(out);
    assert(out@.lines =~= old(out)@.lines + native_twin(lib@, s@, depth));
}

fn write_reference_conversions(out: &mut Printer, s: &NativeStruct)
    requires
        old(out)@.pending.len() == 0,
        old(out)@.indent + 1 < usize::MAX,
    ensures
        final(out)@ == old(out)@.with_lines(reference_conversions(s@, old(out)@.indent)),
{
    let ghost depth = out@.indent;
    blank(out);
    emit(out, concat3("internal static ", s.name.as_str(), " FromNativeRef(IntPtr native)").as_str());
    open(out);
    emit(out, "if (native == IntPtr.Zero)");
    open(out);
    emit(out, "return null;");
    close(out);
    emit(
        out,
        concat3(
            "return FromNative(Marshal.PtrToStructure<",
            s.name.as_str(),
            "Native>(native));",
        ).as_str(),
    );
    close(out);
    blank(out);
    emit(out, concat3("internal static IntPtr ToNativeRef(", s.name.as_str(), " self)").as_str());
    open(out);
    emit(out, "if (self == null)");
    open(out);
    emit(out, "return IntPtr.Zero;");
    close(out);
    emit(
        out,
        concat3(
            "var handle = Marshal.AllocHGlobal(Marshal.SizeOf<",
            s.name.as_str(),
            "Native>());",
        ).as_str(),
    );
    emit(out, "Marshal.StructureToPtr(ToNative(self), handle, false);");
    emit(out, "return handle;");
    close(out);
    assert(out@.lines =~= old(out)@.lines + reference_conversions(s@, depth));
}

fn write_struct_body(out: &mut Printer, lib: &Library, s: &NativeStruct)
    requires
        old(out)@.pending.len() == 0,
        old(out)@.indent + 2 < usize::MAX,
        lib@.consistent(),
        forall|i: int|
            0 <= i < s@.fields.len() ==> lib@.resolves((#[trigger] s@.fields[i]).field_type),
    ensures
        final(out)@ == old(out)@.with_lines(struct_body(lib@, s@, old(out)@.indent)),
{
    let ghost depth = out@.indent;
    emit(out, concat("public class ", s.name.as_str()).as_str());
    open(out);
    write_fields(out, lib, s, FieldSection::Host);
    close(out);
    blank(out);
    emit(out, "[StructLayout(LayoutKind.Sequential)]");
    emit(out, concat3("internal struct ", s.name.as_str(), "Native").as_str());
    open(out);
    write_native_twin(out, lib, s);
    write_reference_conversions(out, s);
    close(out);
    assert(out@.lines =~= old(out)@.lines + struct_body(lib@, s@, depth));
}

/// Emits the C# file of a structure of the library: the host type with the
/// fields in their order, and the native twin with the two conversions.
/// Fails, and emits nothing, when the handle names no defined structure of
/// the library.
pub fn generate_struct(f: &mut Printer, handle: &NativeStructHandle, lib: &Library) -> (r:
    FormattingResult<()>)
    requires
        old(f)@.pending.len() == 0,
        old(f)@.indent + 3 < usize::MAX,
        lib@.consistent(),
    ensures
        r is Ok <==> lib@.is_defined_struct(handle.id),
        r matches Err(e) ==> e == FormattingError::NotAStruct(handle.id) && final(f)@ == old(f)@,
        r is Ok ==> final(f)@ == old(f)@.with_lines(
            struct_file(lib@, lib@.decls[handle.id as int].item->Struct_0, old(f)@.indent),
        ),
{
    let ghost depth = f@.indent;
    if handle.id >= lib.decls.len() {
        return Err(FormattingError::NotAStruct(handle.id));
    }
    let definition = match &lib.decls[handle.id].item {
        Item::Struct(s) => s,
        _ => {
            return Err(FormattingError::NotAStruct(handle.id));
        },
    };
    if lib.decls[handle.id].defined_at.is_none() {
        return Err(FormattingError::NotAStruct(handle.id));
    }
    proof {
        assert(lib@.decl_ok(handle.id as int));
        assert(lib@.decls[handle.id as int] == lib.decls@[handle.id as int]@);
    }
    print_license(f, &lib.license);
    emit(f, "using System;");
    emit(f, "using System.Runtime.InteropServices;");
    blank(f);
    open_namespace(f, lib.name.as_str());
    write_struct_body(f, lib, definition);
    close(f);
    assert(f@.lines =~= old(f)@.lines + struct_file(lib@, definition@, depth));
    Ok(())
}

/// The helper of an iterator: it calls the native function that advances
/// the iterator until that function yields null, converts each item as it
/// comes, and hands out the items in the order in which they came.
pub open spec fn iterator_helper(lib: LibraryView, it: IteratorDefView, depth: nat) -> Seq<Text> {
    let item = name_of(lib, it.item_type.id);
    let next = "NativeFunctions."@ + lib.function(it.native_func).name + "(value)"@;
    seq![
        line(
            depth,
            "internal static System.Collections.Generic.ICollection<"@ + item
                + "> FromNative(IntPtr value)"@,
        ),
    ] + block(
        depth,
        seq![
            line(depth + 1, "var items = new System.Collections.Generic.List<"@ + item + ">();"@),
            line(
                depth + 1,
                "for (var item = "@ + next + "; item != IntPtr.Zero; item = "@ + next + ")"@,
            ),
        ] + block(
            depth + 1,
            seq![line(depth + 2, "items.Add("@ + item + "Native.FromNativeRef(item));"@)],
        ) + seq![line(depth + 1, "return items;"@)],
    )
}

/// The file of an iterator: license, imports, and in the namespace of the
/// library the class that holds the helper.
pub open spec fn iterator_file(lib: LibraryView, it: IteratorDefView, depth: nat) -> Seq<Text> {
    license_lines(lib.license, lib.license.len() as int, depth) + seq![
        line(depth, "using System;"@),
        Seq::<char>::empty(),
    ] + namespaced(
        depth,
        lib.name,
        seq![
            line(
                depth + 1,
                "internal static class "@ + name_of(lib, it.item_type.id) + "IteratorHelpers"@,
            ),
        ] + block(depth + 1, iterator_helper(lib, it, depth + 2)),
    )
}

/// Emits the C# file of an iterator of the library. Fails, and emits
/// nothing, when the handle names no iterator of the library.
pub fn generate_iterator(f: &mut Printer, handle: &IteratorHandle, lib: &Library) -> (r:
    FormattingResult<()>)
    requires
        old(f)@.pending.len() == 0,
        old(f)@.indent + 4 < usize::MAX,
        lib@.consistent(),
    ensures
        r is Ok <==> lib@.is_iterator(handle.id),
        r matches Err(e) ==> e == FormattingError::NotAnIterator(handle.id) && final(f)@ == old(
            f,
        )@,
        r is Ok ==> final(f)@ == old(f)@.with_lines(
            iterator_file(lib@, lib@.decls[handle.id as int].item->Iterator_0, old(f)@.indent),
        ),
{
    let ghost depth = f@.indent;
    if handle.id >= lib.decls.len() {
        return Err(FormattingError::NotAnIterator(handle.id));
    }
    let definition = match &lib.decls[handle.id].item {
        Item::Iterator(it) => it,
        _ => {
            return Err(FormattingError::NotAnIterator(handle.id));
        },
    };
    proof {
        assert(lib@.decl_ok(handle.id as int));
        assert(lib@.decls[handle.id as int] == lib.decls@[handle.id as int]@);
        assert(lib@.decls[definition.native_func.id as int]
            == lib.decls@[definition.native_func.id as int]@);
    }
    let item = lib.decls[definition.item_type.id].item.name();
    let function = lib.decls[definition.native_func.id].item.name();
    let next = concat3("NativeFunctions.", function.as_str(), "(value)");
    print_license(f, &lib.license);
    emit(f, "using System;");
    blank(f);
    open_namespace(f, lib.name.as_str());
    emit(f, concat3("internal static class ", item.as_str(), "IteratorHelpers").as_str());
    open(f);
    emit(
        f,
        concat3(
            "internal static System.Collections.Generic.ICollection<",
            item.as_str(),
            "> FromNative(IntPtr value)",
        ).as_str(),
    );
    open(f);
    emit(
        f,
        concat3("var items = new System.Collections.Generic.List<", item.as_str(), ">();").as_str(),
    );
    let mut head = concat3("for (var item = ", next.as_str(), "; item != IntPtr.Zero; item = ");
    head.append(next.as_str());
    head.append(")");
    emit(f, head.as_str());
    open(f);
    emit(f, concat3("items.Add(", item.as_str(), "Native.FromNativeRef(item));").as_str());
    close(f);
    emit(f, "return items;");
    close(f);
    close(f);
    close(f);
    assert(f@.lines =~= old(f)@.lines + iterator_file(lib@, definition@, depth));
    Ok(())
}

} // verus!
