//! Declaring a native function, parameter by parameter.

use vstd::prelude::*;
use crate::types::{NativeFunctionHandle, ReturnType, Type};
use crate::model::{Item, ItemView, NativeFunction, NativeFunctionView, Parameter, ParameterView, Text, views};
use crate::builder::{BindingError, LibraryBuilder};

verus! {

/// A native function under construction. Nothing reaches the library before
/// `build`.
pub struct NativeFunctionBuilder<'a> {
    pub lib: &'a mut LibraryBuilder,
    pub name: String,
    pub return_type: ReturnType,
    pub parameters: Vec<Parameter>,
    pub doc: String,
}

/// Whether one of the parameters has the name.
pub open spec fn has_parameter(parameters: Seq<ParameterView>, name: Text) -> bool {
    exists|i: int| 0 <= i < parameters.len() && (#[trigger] parameters[i]).name == name
}

impl<'a> NativeFunctionBuilder<'a> {
    /// The function that `build` would add.
    pub open spec fn pending(&self) -> NativeFunctionView {
        NativeFunctionView {
            name: self.name@,
            return_type: self.return_type,
            parameters: views(self.parameters@),
            doc: self.doc@,
        }
    }

    pub open spec fn inv(&self) -> bool {
        &&& self.lib.inv()
        &&& self.lib@.has_room(1)
        &&& !self.lib@.name_used(self.name@)
        &&& self.lib@.function_ok(self.pending())
    }

    /// Appends a parameter. Its type must resolve and its name be new.
    pub fn param(self, name: &str, param_type: Type, doc: &str) -> (r: Result<
        NativeFunctionBuilder<'a>,
        BindingError,
    >)
        requires
            self.inv(),
        ensures
            r is Err ==> *final(self.lib) == *old(self.lib),
            r is Err <==> old(self.lib)@.unresolved(param_type) is Some || has_parameter(
                self.pending().parameters,
                name@,
            ),
            r matches Err(e) ==> e == match old(self.lib)@.unresolved(param_type) {
                Some(id) => BindingError::UnknownReference(id),
                None => BindingError::DuplicateField,
            },
            r matches Ok(b) ==> b.lib == self.lib && b.inv() && b.pending() == (NativeFunctionView {
                parameters: self.pending().parameters.push(
                    ParameterView { name: name@, param_type, doc: doc@ },
                ),
                ..self.pending()
            }),
    {
        if let Some(id) = self.lib.unresolved(param_type) {
            return Err(BindingError::UnknownReference(id));
        }
        let key = String::from_str(name);
        let mut i: usize = 0;
        while i < self.parameters.len()
            invariant
                i <= self.parameters.len(),
                key@ == name@,
                self.lib@.unresolved(param_type) is None,
                forall|k: int|
                    0 <= k < i ==> (#[trigger] self.pending().parameters[k]).name != name@,
            decreases self.parameters.len() - i,
        {
            if self.parameters[i].name == key {
                assert(self.pending().parameters[i as int].name == name@);
                return Err(BindingError::DuplicateField);
            }
            i += 1;
        }
        let ghost before = self.pending();
        let mut b = self;
        b.parameters.push(Parameter { name: key, param_type, doc: String::from_str(doc) });
        assert(b.pending().parameters =~= before.parameters.push(
            ParameterView { name: name@, param_type, doc: doc@ },
        ));
        Ok(b)
    }

    /// Sets what the function returns. The type must resolve.
    pub fn return_type(self, return_type: ReturnType) -> (r: Result<
        NativeFunctionBuilder<'a>,
        BindingError,
    >)
        requires
            self.inv(),
        ensures
            r is Err ==> *final(self.lib) == *old(self.lib),
            r is Err <==> old(self.lib)@.return_unresolved(return_type) is Some,
            r matches Err(e) ==> e == BindingError::UnknownReference(
                old(self.lib)@.return_unresolved(return_type)->0,
            ),
            r matches Ok(b) ==> b.lib == self.lib && b.inv() && b.pending() == (NativeFunctionView {
                return_type,
                ..self.pending()
            }),
    {
        if let Some(id) = self.lib.return_unresolved(return_type) {
            return Err(BindingError::UnknownReference(id));
        }
        let mut b = self;
        b.return_type = return_type;
        Ok(b)
    }

    /// Sets the documentation of the function.
    pub fn doc(self, doc: &str) -> (r: Result<NativeFunctionBuilder<'a>, BindingError>)
        requires
            self.inv(),
        ensures
            r matches Ok(b) && b.lib == self.lib && b.inv() && b.pending() == (NativeFunctionView {
                doc: doc@,
                ..self.pending()
            }),
    {
        let mut b = self;
        b.doc = String::from_str(doc);
        Ok(b)
    }

    /// Adds the function to the library.
    pub fn build(self) -> (r: Result<NativeFunctionHandle, BindingError>)
        requires
            self.inv(),
        ensures
            final(self.lib).inv(),
            old(self.lib)@.extended_by(final(self.lib)@),
            r matches Ok(h) && h.id == old(self.lib)@.decls.len() && final(self.lib)@ == old(
                self.lib,
            )@.declare(ItemView::Function(self.pending())),
    {
        let ghost pending = self.pending();
        let item = Item::Function(
            NativeFunction {
                name: self.name,
                return_type: self.return_type,
                parameters: self.parameters,
                doc: self.doc,
            },
        );
        assert(item@ == ItemView::Function(pending));
        let id = self.lib.add_declaration(item);
        Ok(NativeFunctionHandle { id })
    }
}

impl LibraryBuilder {
    /// Starts the declaration of a native function. Until told otherwise it
    /// takes no parameter and returns nothing.
    pub fn declare_native_function<'a>(&'a mut self, name: &str) -> (r: Result<
        NativeFunctionBuilder<'a>,
        BindingError,
    >)
        requires
            old(self).inv(),
            old(self)@.has_room(1),
        ensures
            old(self)@.name_used(name@) <==> r is Err,
            r matches Err(e) ==> e == BindingError::NameAlreadyUsed && *final(self) == *old(self),
            r matches Ok(b) ==> *b.lib == *old(self) && *final(self) == *final(b.lib) && b.inv()
                && b.pending() == (NativeFunctionView {
                name: name@,
                return_type: ReturnType::Void,
                parameters: Seq::empty(),
                doc: Seq::empty(),
            }),
    {
        let name = String::from_str(name);
        if self.is_name_used(&name) {
            return Err(BindingError::NameAlreadyUsed);
        }
        let b = NativeFunctionBuilder {
            lib: self,
            name,
            return_type: ReturnType::Void,
            parameters: Vec::new(),
            doc: String::new(),
        };
        assert(b.pending().parameters =~= Seq::empty());
        Ok(b)
    }
}

} // verus!
