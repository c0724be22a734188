//! Structural equality of libraries: two libraries are the same when their
//! views are.

use vstd::prelude::*;
use crate::types::NativeFunctionHandle;
use crate::model::{
    CallbackFunction, CallbackParameter, Class, Declaration, EnumVariant, Interface,
    InterfaceElement, Item, ItemView, IteratorDef, Method, NativeEnum, NativeFunction,
    NativeStruct, Parameter, Statement, StructField, texts, views,
};
use crate::library::{Library, LibraryView};

verus! {

fn same_text(a: &String, b: &String) -> (r: bool)
    ensures
        r == (a@ == b@),
{
    *a == *b
}

fn same_texts(a: &Vec<String>, b: &Vec<String>) -> (r: bool)
    ensures
        r == (texts(a@) == texts(b@)),
{
    if a.len() != b.len() {
        assert(texts(a@).len() != texts(b@).len());
        return false;
    }
    let mut i: usize = 0;
    while i < a.len()
        invariant
            i <= a.len(),
            a.len() == b.len(),
            forall|k: int| 0 <= k < i ==> (#[trigger] a@[k])@ == b@[k]@,
        decreases a.len() - i,
    {
        if !same_text(&a[i], &b[i]) {
            assert(texts(a@)[i as int] != texts(b@)[i as int]);
            return false;
        }
        i += 1;
    }
    assert(texts(a@) =~= texts(b@));
    true
}

fn same_variant(a: &EnumVariant, b: &EnumVariant) -> (r: bool)
    ensures
        r == (a@ == b@),
{
    same_text(&a.name, &b.name) && same_text(&a.doc, &b.doc)
}

fn same_variants(a: &Vec<EnumVariant>, b: &Vec<EnumVariant>) -> (r: bool)
    ensures
        r == (views(a@) == views(b@)),
{
    if a.len() != b.len() {
        assert(views(a@).len() != views(b@).len());
        return false;
    }
    let mut i: usize = 0;
    while i < a.len()
        invariant
            i <= a.len(),
            a.len() == b.len(),
            forall|k: int| 0 <= k < i ==> (#[trigger] a@[k])@ == b@[k]@,
        decreases a.len() - i,
    {
        if !same_variant(&a[i], &b[i]) {
            assert(views(a@)[i as int] != views(b@)[i as int]);
            return false;
        }
        i += 1;
    }
    assert(views(a@) =~= views(b@));
    true
}

fn same_enum(a: &NativeEnum, b: &NativeEnum) -> (r: bool)
    ensures
        r == (a@ == b@),
{
    same_text(&a.name, &b.name) && same_variants(&a.variants, &b.variants) && same_text(
        &a.doc,
        &b.doc,
    )
}

fn same_field(a: &StructField, b: &StructField) -> (r: bool)
    ensures
        r == (a@ == b@),
{
    same_text(&a.name, &b.name) && a.field_type == b.field_type && same_text(&a.doc, &b.doc)
}

fn same_fields(a: &Vec<StructField>, b: &Vec<StructField>) -> (r: bool)
    ensures
        r == (views(a@) == views(b@)),
{
    if a.len() != b.len() {
        assert(views(a@).len() != views(b@).len());
        return false;
    }
    let mut i: usize = 0;
    while i < a.len()
        invariant
            i <= a.len(),
            a.len() == b.len(),
            forall|k: int| 0 <= k < i ==> (#[trigger] a@[k])@ == b@[k]@,
        decreases a.len() - i,
    {
        if !same_field(&a[i], &b[i]) {
            assert(views(a@)[i as int] != views(b@)[i as int]);
            return false;
        }
        i += 1;
    }
    assert(views(a@) =~= views(b@));
    true
}

fn same_struct(a: &NativeStruct, b: &NativeStruct) -> (r: bool)
    ensures
        r == (a@ == b@),
{
    same_text(&a.name, &b.name) && same_fields(&a.fields, &b.fields)
}

fn same_parameter(a: &Parameter, b: &Parameter) -> (r: bool)
    ensures
        r == (a@ == b@),
{
    same_text(&a.name, &b.name) && a.param_type == b.param_type && same_text(&a.doc, &b.doc)
}

fn same_parameters(a: &Vec<Parameter>, b: &Vec<Parameter>) -> (r: bool)
    ensures
        r == (views(a@) == views(b@)),
{
    if a.len() != b.len() {
        assert(views(a@).len() != views(b@).len());
        return false;
    }
    let mut i: usize = 0;
    while i < a.len()
        invariant
            i <= a.len(),
            a.len() == b.len(),
            forall|k: int| 0 <= k < i ==> (#[trigger] a@[k])@ == b@[k]@,
        decreases a.len() - i,
    {
        if !same_parameter(&a[i], &b[i]) {
            assert(views(a@)[i as int] != views(b@)[i as int]);
            return false;
        }
        i += 1;
    }
    assert(views(a@) =~= views(b@));
    true
}

fn same_function(a: &NativeFunction, b: &NativeFunction) -> (r: bool)
    ensures
        r == (a@ == b@),
{
    same_text(&a.name, &b.name) && a.return_type == b.return_type && same_parameters(
        &a.parameters,
        &b.parameters,
    ) && same_text(&a.doc, &b.doc)
}

fn same_callback_parameter(a: &CallbackParameter, b: &CallbackParameter) -> (r: bool)
    ensures
        r == (a@ == b@),
{
    match (a, b) {
        (CallbackParameter::Arg(x), CallbackParameter::Arg(y)) => same_text(x, y),
        (CallbackParameter::Parameter(x), CallbackParameter::Parameter(y)) => same_parameter(x, y),
        _ => false,
    }
}

fn same_callback_parameters(a: &Vec<CallbackParameter>, b: &Vec<CallbackParameter>) -> (r: bool)
    ensures
        r == (views(a@) == views(b@)),
{
    if a.len() != b.len() {
        assert(views(a@).len() != views(b@).len());
        return false;
    }
    let mut i: usize = 0;
    while i < a.len()
        invariant
            i <= a.len(),
            a.len() == b.len(),
            forall|k: int| 0 <= k < i ==> (#[trigger] a@[k])@ == b@[k]@,
        decreases a.len() - i,
    {
        if !same_callback_parameter(&a[i], &b[i]) {
            assert(views(a@)[i as int] != views(b@)[i as int]);
            return false;
        }
        i += 1;
    }
    assert(views(a@) =~= views(b@));
    true
}

fn same_callback(a: &CallbackFunction, b: &CallbackFunction) -> (r: bool)
    ensures
        r == (a@ == b@),
{
    same_text(&a.name, &b.name) && a.return_type == b.return_type && same_callback_parameters(
        &a.parameters,
        &b.parameters,
    ) && same_text(&a.arg_name, &b.arg_name) && same_text(&a.doc, &b.doc)
}

fn same_element(a: &InterfaceElement, b: &InterfaceElement) -> (r: bool)
    ensures
        r == (a@ == b@),
{
    match (a, b) {
        (InterfaceElement::Arg(x), InterfaceElement::Arg(y)) => same_text(x, y),
        (InterfaceElement::DestroyFunction(x), InterfaceElement::DestroyFunction(y)) => same_text(
            x,
            y,
        ),
        (InterfaceElement::CallbackFunction(x), InterfaceElement::CallbackFunction(y)) => same_callback(
            x,
            y,
        ),
        _ => false,
    }
}

fn same_elements(a: &Vec<InterfaceElement>, b: &Vec<InterfaceElement>) -> (r: bool)
    ensures
        r == (views(a@) == views(b@)),
{
    if a.len() != b.len() {
        assert(views(a@).len() != views(b@).len());
        return false;
    }
    let mut i: usize = 0;
    while i < a.len()
        invariant
            i <= a.len(),
            a.len() == b.len(),
            forall|k: int| 0 <= k < i ==> (#[trigger] a@[k])@ == b@[k]@,
        decreases a.len() - i,
    {
        if !same_element(&a[i], &b[i]) {
            assert(views(a@)[i as int] != views(b@)[i as int]);
            return false;
        }
        i += 1;
    }
    assert(views(a@) =~= views(b@));
    true
}

fn same_interface(a: &Interface, b: &Interface) -> (r: bool)
    ensures
        r == (a@ == b@),
{
    same_text(&a.name, &b.name) && same_elements(&a.elements, &b.elements) && same_text(
        &a.arg_name,
        &b.arg_name,
    ) && same_text(&a.destroy_name, &b.destroy_name) && same_text(&a.doc, &b.doc)
}

fn same_iterator(a: &IteratorDef, b: &IteratorDef) -> (r: bool)
    ensures
        r == (a@ == b@),
{
    same_text(&a.name, &b.name) && a.native_func == b.native_func && a.item_type == b.item_type
}

fn same_handles(a: &Vec<NativeFunctionHandle>, b: &Vec<NativeFunctionHandle>) -> (r: bool)
    ensures
        r == (a@ == b@),
{
    if a.len() != b.len() {
        return false;
    }
    let mut i: usize = 0;
    while i < a.len()
        invariant
            i <= a.len(),
            a.len() == b.len(),
            forall|k: int| 0 <= k < i ==> a@[k] == b@[k],
        decreases a.len() - i,
    {
        if a[i] != b[i] {
            return false;
        }
        i += 1;
    }
    assert(a@ =~= b@);
    true
}

fn same_method(a: &Method, b: &Method) -> (r: bool)
    ensures
        r == (a@ == b@),
{
    same_text(&a.name, &b.name) && a.native_function == b.native_function
}

fn same_methods(a: &Vec<Method>, b: &Vec<Method>) -> (r: bool)
    ensures
        r == (views(a@) == views(b@)),
{
    if a.len() != b.len() {
        assert(views(a@).len() != views(b@).len());
        return false;
    }
    let mut i: usize = 0;
    while i < a.len()
        invariant
            i <= a.len(),
            a.len() == b.len(),
            forall|k: int| 0 <= k < i ==> (#[trigger] a@[k])@ == b@[k]@,
        decreases a.len() - i,
    {
        if !same_method(&a[i], &b[i]) {
            assert(views(a@)[i as int] != views(b@)[i as int]);
            return false;
        }
        i += 1;
    }
    assert(views(a@) =~= views(b@));
    true
}

fn same_class(a: &Class, b: &Class) -> (r: bool)
    ensures
        r == (a@ == b@),
{
    same_text(&a.name, &b.name) && a.destructor == b.destructor && same_handles(
        &a.constructors,
        &b.constructors,
    ) && same_methods(&a.methods, &b.methods)
}

fn same_item(a: &Item, b: &Item) -> (r: bool)
    ensures
        r == (a@ == b@),
{
    match (a, b) {
        (Item::Enum(x), Item::Enum(y)) => same_enum(x, y),
        (Item::Struct(x), Item::Struct(y)) => same_struct(x, y),
        (Item::Interface(x), Item::Interface(y)) => same_interface(x, y),
        (Item::Iterator(x), Item::Iterator(y)) => same_iterator(x, y),
        (Item::Class(x), Item::Class(y)) => same_class(x, y),
        (Item::Function(x), Item::Function(y)) => same_function(x, y),
        _ => false,
    }
}

fn same_declaration(a: &Declaration, b: &Declaration) -> (r: bool)
    ensures
        r == (a@ == b@),
{
    a.declared_at == b.declared_at && a.defined_at == b.defined_at && same_item(&a.item, &b.item)
}

fn same_declarations(a: &Vec<Declaration>, b: &Vec<Declaration>) -> (r: bool)
    ensures
        r == (views(a@) == views(b@)),
{
    if a.len() != b.len() {
        assert(views(a@).len() != views(b@).len());
        return false;
    }
    let mut i: usize = 0;
    while i < a.len()
        invariant
            i <= a.len(),
            a.len() == b.len(),
            forall|k: int| 0 <= k < i ==> (#[trigger] a@[k])@ == b@[k]@,
        decreases a.len() - i,
    {
        if !same_declaration(&a[i], &b[i]) {
            assert(views(a@)[i as int] != views(b@)[i as int]);
            return false;
        }
        i += 1;
    }
    assert(views(a@) =~= views(b@));
    true
}

fn same_statements(a: &Vec<Statement>, b: &Vec<Statement>) -> (r: bool)
    ensures
        r == (a@ == b@),
{
    if a.len() != b.len() {
        return false;
    }
    let mut i: usize = 0;
    while i < a.len()
        invariant
            i <= a.len(),
            a.len() == b.len(),
            forall|k: int| 0 <= k < i ==> a@[k] == b@[k],
        decreases a.len() - i,
    {
        if a[i] != b[i] {
            return false;
        }
        i += 1;
    }
    assert(a@ =~= b@);
    true
}

impl Library {
    /// Whether two libraries are structurally equal: the same name, version,
    /// license and description, the same statements in the same order, and
    /// the same declarations.
    pub fn same_as(&self, other: &Library) -> (r: bool)
        ensures
            r == (self@ == other@),
    {
        same_text(&self.name, &other.name) && self.version == other.version && same_texts(
            &self.license,
            &other.license,
        ) && same_text(&self.description, &other.description) && same_statements(
            &self.statements,
            &other.statements,
        ) && same_declarations(&self.decls, &other.decls)
    }
}

/// What an operation of the builder leaves is a function of what it found
/// and of what it was given: from equal libraries, the same declaration and
/// the same definition lead to equal libraries. So building the same schema
/// twice yields the same library.
pub proof fn law_same_schema_same_library(
    a: LibraryView,
    b: LibraryView,
    declared: ItemView,
    id: int,
    body: ItemView,
)
    requires
        a == b,
    ensures
        a.declare(declared) == b.declare(declared),
        a.define(id, body) == b.define(id, body),
{
}

} // verus!
