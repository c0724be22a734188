//! What holds of every library that the builder hands out.

use vstd::prelude::*;
use crate::types::{ClassDeclarationHandle, NativeFunctionHandle, ReturnType, Type};
use crate::model::{CallbackFunctionView, InterfaceElementView, ItemView, NativeEnumView, Text};
use crate::library::{LibraryView, callback_has_arg, count_args, count_callbacks, count_destroys};

verus! {

/// Whether a type occurs in a callback: as a parameter's type or as the
/// return type.
pub open spec fn callback_mentions(cb: CallbackFunctionView, t: Type) -> bool {
    cb.return_type == ReturnType::Type(t) || exists|k: int|
        0 <= k < cb.parameters.len() && (#[trigger] cb.parameters[k]) is Parameter
            && cb.parameters[k]->Parameter_0.param_type == t
}

/// Whether a type occurs in an item: as a field's type, as a parameter's
/// type or as a return type.
pub open spec fn mentions(item: ItemView, t: Type) -> bool {
    match item {
        ItemView::Struct(s) => exists|k: int|
            0 <= k < s.fields.len() && (#[trigger] s.fields[k]).field_type == t,
        ItemView::Function(f) => f.return_type == ReturnType::Type(t) || exists|k: int|
            0 <= k < f.parameters.len() && (#[trigger] f.parameters[k]).param_type == t,
        ItemView::Interface(i) => exists|e: int|
            0 <= e < i.elements.len() && (#[trigger] i.elements[e]) is CallbackFunction
                && callback_mentions(i.elements[e]->CallbackFunction_0, t),
        _ => false,
    }
}

/// Whether an item calls a native function: as a member of a class or as the
/// advancing function of an iterator.
pub open spec fn uses_function(item: ItemView, h: NativeFunctionHandle) -> bool {
    match item {
        ItemView::Class(c) => c.destructor == Some(h) || c.constructors.contains(h) || exists|
            k: int,
        |
            0 <= k < c.methods.len() && (#[trigger] c.methods[k]).native_function == h,
        ItemView::Iterator(it) => it.native_func == h,
        _ => false,
    }
}

/// Every declaration of a library is introduced by one of its statements,
/// and a statement leads back to the declaration it is about.
pub proof fn law_declarations_are_statements(lib: LibraryView, id: int)
    requires
        lib.consistent(),
        0 <= id < lib.decls.len(),
    ensures
        lib.decls[id].declared_at < lib.statements.len(),
        lib.statements[lib.decls[id].declared_at as int] == lib.declaring(id),
        lib.statements[lib.decls[id].declared_at as int].id() == id,
        lib.decls[id].defined_at matches Some(at) ==> at < lib.statements.len()
            && lib.statements[at as int] == lib.defining(id) && lib.decls[id].declared_at <= at,
{
    assert(lib.decl_ok(id));
}

/// Every type that occurs in a declaration names a declaration of the same
/// library, of the right kind, which one of the library's statements
/// introduces; a structure held by value has its body.
pub proof fn law_references_resolve(lib: LibraryView, id: int, t: Type)
    requires
        lib.consistent(),
        0 <= id < lib.decls.len(),
        mentions(lib.decls[id].item, t),
    ensures
        lib.resolves(t),
        t.spec_referenced() matches Some(r) ==> r < lib.decls.len() && lib.decls[r as int].declared_at
            < lib.statements.len() && lib.statements[lib.decls[r as int].declared_at as int].id()
            == r,
{
    assert(lib.decl_ok(id));
    match lib.decls[id].item {
        ItemView::Struct(s) => {
            let k = choose|k: int|
                0 <= k < s.fields.len() && (#[trigger] s.fields[k]).field_type == t;
            assert(lib.resolves(s.fields[k].field_type));
        },
        ItemView::Function(f) => {
            if f.return_type != ReturnType::Type(t) {
                let k = choose|k: int|
                    0 <= k < f.parameters.len() && (#[trigger] f.parameters[k]).param_type == t;
                assert(lib.resolves(f.parameters[k].param_type));
            }
        },
        ItemView::Interface(i) => {
            let e = choose|e: int|
                0 <= e < i.elements.len() && (#[trigger] i.elements[e]) is CallbackFunction
                    && callback_mentions(i.elements[e]->CallbackFunction_0, t);
            let cb = i.elements[e]->CallbackFunction_0;
            assert(lib.callback_ok(cb, i.arg_name));
            if cb.return_type != ReturnType::Type(t) {
                let k = choose|k: int|
                    0 <= k < cb.parameters.len() && (#[trigger] cb.parameters[k]) is Parameter
                        && cb.parameters[k]->Parameter_0.param_type == t;
                assert(cb.parameters[k] is Parameter);
            }
        },
        _ => {},
    }
    if let Some(r) = t.spec_referenced() {
        law_declarations_are_statements(lib, r as int);
    }
}

/// Every function that a class or an iterator calls is a native function of
/// the same library.
pub proof fn law_members_resolve(lib: LibraryView, id: int, h: NativeFunctionHandle)
    requires
        lib.consistent(),
        0 <= id < lib.decls.len(),
        uses_function(lib.decls[id].item, h),
    ensures
        lib.is_function(h.id),
        lib.statements[lib.decls[h.id as int].declared_at as int] == lib.declaring(h.id as int),
{
    assert(lib.decl_ok(id));
    match lib.decls[id].item {
        ItemView::Class(c) => {
            if c.destructor == Some(h) {
            } else if c.constructors.contains(h) {
                let k = choose|k: int| 0 <= k < c.constructors.len() && c.constructors[k] == h;
                assert(lib.constructor_ok(id as usize, c.constructors[k]));
            } else {
                let k = choose|k: int|
                    0 <= k < c.methods.len() && (#[trigger] c.methods[k]).native_function == h;
                assert(lib.method_ok(id as usize, c.methods[k].native_function));
            }
        },
        _ => {},
    }
    law_declarations_are_statements(lib, h.id as int);
}

/// A class is declared before it is defined. Its destructor, if it has one,
/// takes one handle of the class and returns nothing; each constructor
/// returns a handle of the class; the first parameter of each method is a
/// handle of the class. In a finished library every class is defined.
pub proof fn law_class_members(lib: LibraryView, id: int)
    requires
        lib.consistent(),
        0 <= id < lib.decls.len(),
        lib.decls[id].item is Class,
    ensures
        ({
            let c = lib.decls[id].item->Class_0;
            let this = Type::ClassRef(ClassDeclarationHandle { id: id as usize });
            &&& lib.all_classes_defined() ==> lib.decls[id].defined_at is Some
            &&& lib.decls[id].defined_at matches Some(at) ==> lib.decls[id].declared_at < at
            &&& c.destructor matches Some(d) ==> lib.is_function(d.id) && lib.function(
                d,
            ).parameters.len() == 1 && lib.function(d).parameters[0].param_type == this
                && lib.function(d).return_type == ReturnType::Void
            &&& forall|k: int|
                0 <= k < c.constructors.len() ==> lib.is_function((#[trigger] c.constructors[k]).id)
                    && lib.function(c.constructors[k]).return_type == ReturnType::Type(this)
            &&& forall|k: int|
                0 <= k < c.methods.len() ==> lib.is_function(
                    (#[trigger] c.methods[k]).native_function.id,
                ) && lib.function(c.methods[k].native_function).parameters.len() >= 1
                    && lib.function(c.methods[k].native_function).parameters[0].param_type == this
        }),
{
    assert(lib.decl_ok(id));
    let c = lib.decls[id].item->Class_0;
    assert forall|k: int| 0 <= k < c.constructors.len() implies lib.is_function(
        (#[trigger] c.constructors[k]).id,
    ) && lib.function(c.constructors[k]).return_type == ReturnType::Type(
        Type::ClassRef(ClassDeclarationHandle { id: id as usize }),
    ) by {
        assert(lib.constructor_ok(id as usize, c.constructors[k]));
    }
    assert forall|k: int| 0 <= k < c.methods.len() implies lib.is_function(
        (#[trigger] c.methods[k]).native_function.id,
    ) && lib.function(c.methods[k].native_function).parameters.len() >= 1 && lib.function(
        c.methods[k].native_function,
    ).parameters[0].param_type == Type::ClassRef(ClassDeclarationHandle { id: id as usize }) by {
        assert(lib.method_ok(id as usize, c.methods[k].native_function));
    }
}

/// An interface has one user-data slot, one destroy function and at least
/// one callback, and every callback has a parameter that is the slot, under
/// the interface's name for it.
pub proof fn law_interface_shape(lib: LibraryView, id: int)
    requires
        lib.consistent(),
        0 <= id < lib.decls.len(),
        lib.decls[id].item is Interface,
    ensures
        ({
            let i = lib.decls[id].item->Interface_0;
            &&& count_args(i.elements) == 1
            &&& count_destroys(i.elements) == 1
            &&& count_callbacks(i.elements) >= 1
            &&& forall|e: int|
                0 <= e < i.elements.len() ==> ((#[trigger] i.elements[e]) matches InterfaceElementView::CallbackFunction(
                    cb,
                ) ==> callback_has_arg(cb, i.arg_name))
            &&& forall|e: int|
                0 <= e < i.elements.len() ==> ((#[trigger] i.elements[e]) matches InterfaceElementView::DestroyFunction(
                    n,
                ) ==> n == i.destroy_name)
        }),
{
    assert(lib.decl_ok(id));
}

/// The value of the variant at a position: the position.
pub open spec fn variant_value(e: NativeEnumView, name: Text) -> Option<int> {
    if exists|i: int| 0 <= i < e.variants.len() && (#[trigger] e.variants[i]).name == name {
        Some(choose|i: int| 0 <= i < e.variants.len() && (#[trigger] e.variants[i]).name == name)
    } else {
        None
    }
}

/// The integer value of a variant of an enumeration is its position: a name
/// stands at one position only.
pub proof fn law_variant_values(lib: LibraryView, id: int, i: int)
    requires
        lib.consistent(),
        0 <= id < lib.decls.len(),
        lib.decls[id].item matches ItemView::Enum(e) && 0 <= i < e.variants.len(),
    ensures
        variant_value(lib.decls[id].item->Enum_0, lib.decls[id].item->Enum_0.variants[i].name)
            == Some(i),
{
    assert(lib.decl_ok(id));
    let e = lib.decls[id].item->Enum_0;
    let name = e.variants[i].name;
    let j = choose|j: int| 0 <= j < e.variants.len() && (#[trigger] e.variants[j]).name == name;
    if j < i {
        assert(e.variants[j].name != e.variants[i].name);
    } else if i < j {
        assert(e.variants[i].name != e.variants[j].name);
    }
}

/// No two top-level declarations share a name.
pub proof fn law_names_unique(lib: LibraryView, i: int, j: int)
    requires
        lib.consistent(),
        0 <= i < lib.decls.len(),
        0 <= j < lib.decls.len(),
        i != j,
    ensures
        lib.decls[i].item.name() != lib.decls[j].item.name(),
{
    if i < j {
        assert(lib.decls[i].item.name() != lib.decls[j].item.name());
    } else {
        assert(lib.decls[j].item.name() != lib.decls[i].item.name());
    }
}

/// No statement occurs twice: an item is declared once and defined at most
/// once.
pub proof fn law_single_definition(lib: LibraryView, s: int, t: int)
    requires
        lib.consistent(),
        0 <= s < lib.statements.len(),
        0 <= t < lib.statements.len(),
        s != t,
    ensures
        lib.statements[s] != lib.statements[t],
{
    assert(lib.stmt_ok(s));
    assert(lib.stmt_ok(t));
}

/// A structure does not hold itself by value, at any depth: a structure held
/// by value was defined by an earlier statement than the one that holds it.
pub proof fn law_no_recursive_struct(lib: LibraryView, id: int, k: int)
    requires
        lib.consistent(),
        0 <= id < lib.decls.len(),
        lib.decls[id].item matches ItemView::Struct(s) && 0 <= k < s.fields.len()
            && s.fields[k].field_type is Struct,
    ensures
        ({
            let inner = lib.decls[id].item->Struct_0.fields[k].field_type->Struct_0;
            &&& inner.id != id
            &&& lib.is_defined_struct(inner.id)
            &&& lib.decls[inner.id as int].defined_at->0 < lib.decls[id].defined_at->0
        }),
{
    assert(lib.decl_ok(id));
    let s = lib.decls[id].item->Struct_0;
    assert(lib.resolves(s.fields[k].field_type));
}

} // verus!
