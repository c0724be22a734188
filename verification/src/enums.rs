//! Defining an enumeration, variant by variant.

use vstd::prelude::*;
use crate::types::NativeEnumHandle;
use crate::model::{EnumVariant, EnumVariantView, Item, ItemView, NativeEnum, NativeEnumView, Text, views};
use crate::builder::{BindingError, LibraryBuilder};

verus! {

/// An enumeration under construction. Nothing reaches the library before
/// `build`.
pub struct NativeEnumBuilder<'a> {
    pub lib: &'a mut LibraryBuilder,
    pub name: String,
    pub variants: Vec<EnumVariant>,
    pub doc: String,
}

/// Whether one of the variants has the name.
pub open spec fn has_variant(variants: Seq<EnumVariantView>, name: Text) -> bool {
    exists|i: int| 0 <= i < variants.len() && (#[trigger] variants[i]).name == name
}

impl<'a> NativeEnumBuilder<'a> {
    /// The enumeration that `build` would add.
    pub open spec fn pending(&self) -> NativeEnumView {
        NativeEnumView { name: self.name@, variants: views(self.variants@), doc: self.doc@ }
    }

    pub open spec fn inv(&self) -> bool {
        &&& self.lib.inv()
        &&& self.lib@.has_room(1)
        &&& !self.lib@.name_used(self.name@)
        &&& forall|i: int, j: int|
            0 <= i < j < self.variants@.len() ==> (#[trigger] self.pending().variants[i]).name != (
            #[trigger] self.pending().variants[j]).name
    }

    /// Appends a variant; its value is its position.
    pub fn push(self, name: &str, doc: &str) -> (r: Result<NativeEnumBuilder<'a>, BindingError>)
        requires
            self.inv(),
        ensures
            has_variant(self.pending().variants, name@) <==> r is Err,
            r matches Err(e) ==> e == BindingError::DuplicateVariant && *final(self.lib) == *old(
                self.lib,
            ),
            r matches Ok(b) ==> b.lib == self.lib && b.inv() && b.pending() == (NativeEnumView {
                variants: self.pending().variants.push(EnumVariantView { name: name@, doc: doc@ }),
                ..self.pending()
            }),
    {
        let key = String::from_str(name);
        let mut i: usize = 0;
        while i < self.variants.len()
            invariant
                i <= self.variants.len(),
                key@ == name@,
                forall|k: int| 0 <= k < i ==> (#[trigger] self.pending().variants[k]).name != name@,
            decreases self.variants.len() - i,
        {
            if self.variants[i].name == key {
                assert(self.pending().variants[i as int].name == name@);
                return Err(BindingError::DuplicateVariant);
            }
            i += 1;
        }
        let ghost before = self.pending();
        let mut b = self;
        b.variants.push(EnumVariant { name: key, doc: String::from_str(doc) });
        assert(b.pending().variants =~= before.variants.push(
            EnumVariantView { name: name@, doc: doc@ },
        ));
        Ok(b)
    }

    /// Sets the documentation of the enumeration.
    pub fn doc(self, doc: &str) -> (r: Result<NativeEnumBuilder<'a>, BindingError>)
        requires
            self.inv(),
        ensures
            r matches Ok(b) && b.lib == self.lib && b.inv() && b.pending() == (NativeEnumView {
                doc: doc@,
                ..self.pending()
            }),
    {
        let mut b = self;
        b.doc = String::from_str(doc);
        Ok(b)
    }

    /// Adds the enumeration to the library. Fails when it has no variant.
    pub fn build(self) -> (r: Result<NativeEnumHandle, BindingError>)
        requires
            self.inv(),
        ensures
            final(self.lib).inv(),
            old(self.lib)@.extended_by(final(self.lib)@),
            self.pending().variants.len() == 0 <==> r is Err,
            r matches Err(e) ==> e == BindingError::EmptyEnum && *final(self.lib) == *old(self.lib),
            r matches Ok(h) ==> h.id == old(self.lib)@.decls.len() && final(self.lib)@ == old(
                self.lib,
            )@.declare(ItemView::Enum(self.pending())),
    {
        if self.variants.len() == 0 {
            return Err(BindingError::EmptyEnum);
        }
        let ghost pending = self.pending();
        let item = Item::Enum(NativeEnum { name: self.name, variants: self.variants, doc: self.doc });
        assert(item@ == ItemView::Enum(pending));
        let id = self.lib.add_declaration(item);
        Ok(NativeEnumHandle { id })
    }
}

impl LibraryBuilder {
    /// Starts the definition of an enumeration.
    pub fn define_native_enum<'a>(&'a mut self, name: &str) -> (r: Result<
        NativeEnumBuilder<'a>,
        BindingError,
    >)
        requires
            old(self).inv(),
            old(self)@.has_room(1),
        ensures
            old(self)@.name_used(name@) <==> r is Err,
            r matches Err(e) ==> e == BindingError::NameAlreadyUsed && *final(self) == *old(self),
            r matches Ok(b) ==> *b.lib == *old(self) && *final(self) == *final(b.lib) && b.inv()
                && b.pending() == (NativeEnumView {
                name: name@,
                variants: Seq::empty(),
                doc: Seq::empty(),
            }),
    {
        let name = String::from_str(name);
        if self.is_name_used(&name) {
            return Err(BindingError::NameAlreadyUsed);
        }
        let b = NativeEnumBuilder { lib: self, name, variants: Vec::new(), doc: String::new() };
        assert(b.pending().variants =~= Seq::empty());
        Ok(b)
    }
}

} // verus!
