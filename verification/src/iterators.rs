//! Defining an iterator over the items that a native function hands out.

use vstd::prelude::*;
use crate::types::{IteratorHandle, NativeFunctionHandle, NativeStructDeclarationHandle, NativeStructHandle, ReturnType, Type};
use crate::model::{Item, ItemView, IteratorDef, IteratorDefView, Text};
use crate::library::LibraryView;
use crate::builder::{BindingError, LibraryBuilder};

verus! {

/// Why an iterator would be refused, if it would be.
pub open spec fn iterator_error(
    lib: LibraryView,
    name: Text,
    next: NativeFunctionHandle,
    item: NativeStructHandle,
) -> Option<BindingError> {
    if lib.name_used(name) {
        Some(BindingError::NameAlreadyUsed)
    } else if !lib.is_function(next.id) {
        Some(BindingError::UnknownReference(next.id))
    } else if !lib.is_defined_struct(item.id) {
        Some(BindingError::UnknownReference(item.id))
    } else if lib.function(next).return_type != ReturnType::Type(
        Type::StructRef(NativeStructDeclarationHandle { id: item.id }),
    ) {
        Some(BindingError::BadConstructorReturn)
    } else if lib.function(next).parameters.len() != 1 || !(
    lib.function(next).parameters[0].param_type is ClassRef) {
        Some(BindingError::BadMethodReceiver)
    } else {
        None
    }
}

impl LibraryBuilder {
    /// Defines an iterator. The advancing function takes one opaque handle,
    /// the iterator, and returns a reference to the next item, or null.
    pub fn define_iterator(
        &mut self,
        name: &str,
        next: &NativeFunctionHandle,
        item: &NativeStructHandle,
    ) -> (r: Result<IteratorHandle, BindingError>)
        requires
            old(self).inv(),
            old(self)@.has_room(1),
        ensures
            final(self).inv(),
            old(self)@.extended_by(final(self)@),
            r matches Err(e) ==> iterator_error(old(self)@, name@, *next, *item) == Some(e)
                && final(self)@ == old(self)@,
            r matches Ok(h) ==> iterator_error(old(self)@, name@, *next, *item) is None && h.id
                == old(self)@.decls.len() && final(self)@ == old(self)@.declare(
                ItemView::Iterator(
                    IteratorDefView { name: name@, native_func: *next, item_type: *item },
                ),
            ),
    {
        let name = String::from_str(name);
        if self.is_name_used(&name) {
            return Err(BindingError::NameAlreadyUsed);
        }
        let n = self.decl_count();
        if next.id >= n {
            return Err(BindingError::UnknownReference(next.id));
        }
        let (returns_item, takes_handle) = match &self.decl(next.id).item {
            Item::Function(f) => (
                f.return_type == ReturnType::Type(
                    Type::StructRef(NativeStructDeclarationHandle { id: item.id }),
                ),
                f.parameters.len() == 1 && match f.parameters[0].param_type {
                    Type::ClassRef(_) => true,
                    _ => false,
                },
            ),
            _ => {
                return Err(BindingError::UnknownReference(next.id));
            },
        };
        if item.id >= n {
            return Err(BindingError::UnknownReference(item.id));
        }
        let item_decl = self.decl(item.id);
        match &item_decl.item {
            Item::Struct(_) => {},
            _ => {
                return Err(BindingError::UnknownReference(item.id));
            },
        }
        if item_decl.defined_at.is_none() {
            return Err(BindingError::UnknownReference(item.id));
        }
        if !returns_item {
            return Err(BindingError::BadConstructorReturn);
        }
        if !takes_handle {
            return Err(BindingError::BadMethodReceiver);
        }
        let id = self.add_declaration(
            Item::Iterator(IteratorDef { name, native_func: *next, item_type: *item }),
        );
        Ok(IteratorHandle { id })
    }
}

} // verus!
