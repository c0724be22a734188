//! Defining a declared structure, field by field.

use vstd::prelude::*;
use crate::types::{NativeStructDeclarationHandle, NativeStructHandle, Type};
use crate::model::{Item, ItemView, NativeStruct, NativeStructView, StructField, StructFieldView, Text, views};
use crate::builder::{BindingError, LibraryBuilder};

verus! {

/// The body of a structure under construction. Nothing reaches the library
/// before `build`.
pub struct NativeStructBuilder<'a> {
    pub lib: &'a mut LibraryBuilder,
    pub id: usize,
    pub name: String,
    pub fields: Vec<StructField>,
}

/// Whether one of the fields has the name.
pub open spec fn has_field(fields: Seq<StructFieldView>, name: Text) -> bool {
    exists|i: int| 0 <= i < fields.len() && (#[trigger] fields[i]).name == name
}

impl<'a> NativeStructBuilder<'a> {
    /// The structure that `build` would define.
    pub open spec fn pending(&self) -> NativeStructView {
        NativeStructView { name: self.name@, fields: views(self.fields@) }
    }

    pub open spec fn inv(&self) -> bool {
        &&& self.lib.inv()
        &&& self.lib@.has_room(1)
        &&& self.lib@.body_fits(self.id as int, ItemView::Struct(self.pending()))
    }

    /// Appends a field. A structure cannot hold itself by value, the type
    /// must resolve, and the name must be new.
    pub fn add(self, name: &str, field_type: Type) -> (r: Result<
        NativeStructBuilder<'a>,
        BindingError,
    >)
        requires
            self.inv(),
        ensures
            r is Err ==> *final(self.lib) == *old(self.lib),
            r is Err <==> old(self.lib)@.unresolved(field_type) is Some || has_field(
                self.pending().fields,
                name@,
            ),
            r matches Err(e) ==> e == if field_type == Type::Struct(
                NativeStructHandle { id: self.id },
            ) {
                BindingError::RecursiveStruct
            } else {
                match old(self.lib)@.unresolved(field_type) {
                    Some(id) => BindingError::UnknownReference(id),
                    None => BindingError::DuplicateField,
                }
            },
            r matches Ok(b) ==> b.lib == self.lib && b.id == self.id && b.inv() && b.pending() == (
            NativeStructView {
                fields: self.pending().fields.push(
                    StructFieldView { name: name@, field_type, doc: Seq::empty() },
                ),
                ..self.pending()
            }),
    {
        if let Type::Struct(h) = field_type {
            if h.id == self.id {
                return Err(BindingError::RecursiveStruct);
            }
        }
        if let Some(id) = self.lib.unresolved(field_type) {
            return Err(BindingError::UnknownReference(id));
        }
        let key = String::from_str(name);
        let mut i: usize = 0;
        while i < self.fields.len()
            invariant
                i <= self.fields.len(),
                key@ == name@,
                self.lib@.unresolved(field_type) is None,
                field_type != Type::Struct(NativeStructHandle { id: self.id }),
                forall|k: int| 0 <= k < i ==> (#[trigger] self.pending().fields[k]).name != name@,
            decreases self.fields.len() - i,
        {
            if self.fields[i].name == key {
                assert(self.pending().fields[i as int].name == name@);
                return Err(BindingError::DuplicateField);
            }
            i += 1;
        }
        let ghost before = self.pending();
        let mut b = self;
        b.fields.push(StructField { name: key, field_type, doc: String::new() });
        assert(b.pending().fields =~= before.fields.push(
            StructFieldView { name: name@, field_type, doc: Seq::empty() },
        ));
        Ok(b)
    }

    /// Defines the structure in the library.
    pub fn build(self) -> (h: NativeStructHandle)
        requires
            self.inv(),
        ensures
            final(self.lib).inv(),
            old(self.lib)@.extended_by(final(self.lib)@),
            h.id == self.id,
            final(self.lib)@ == old(self.lib)@.define(
                self.id as int,
                ItemView::Struct(self.pending()),
            ),
    {
        let ghost pending = self.pending();
        let id = self.id;
        let item = Item::Struct(NativeStruct { name: self.name, fields: self.fields });
        assert(item@ == ItemView::Struct(pending));
        self.lib.set_definition(id, item);
        NativeStructHandle { id }
    }
}

impl LibraryBuilder {
    /// Starts the definition of a declared structure. The handle must name a
    /// structure, and the structure must have no body yet.
    pub fn define_native_struct<'a>(&'a mut self, declaration: &NativeStructDeclarationHandle) -> (r:
        Result<NativeStructBuilder<'a>, BindingError>)
        requires
            old(self).inv(),
            old(self)@.has_room(1),
        ensures
            r is Err ==> *final(self) == *old(self),
            r is Err <==> !old(self)@.is_struct(declaration.id) || old(self)@.is_defined_struct(
                declaration.id,
            ),
            r matches Err(e) ==> e == if old(self)@.is_struct(declaration.id) {
                BindingError::NameAlreadyUsed
            } else {
                BindingError::UnknownReference(declaration.id)
            },
            r matches Ok(b) ==> *b.lib == *old(self) && *final(self) == *final(b.lib) && b.inv()
                && b.id == declaration.id && b.pending() == (NativeStructView {
                name: old(self)@.decls[declaration.id as int].item.name(),
                fields: Seq::empty(),
            }),
    {
        let id = declaration.id;
        if id >= self.decl_count() {
            return Err(BindingError::UnknownReference(id));
        }
        let decl = self.decl(id);
        let name = match &decl.item {
            Item::Struct(s) => s.name.clone(),
            _ => {
                return Err(BindingError::UnknownReference(id));
            },
        };
        if decl.defined_at.is_some() {
            return Err(BindingError::NameAlreadyUsed);
        }
        let b = NativeStructBuilder { lib: self, id, name, fields: Vec::new() };
        assert(b.pending().fields =~= Seq::empty());
        Ok(b)
    }
}

} // verus!
