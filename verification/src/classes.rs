//! Defining a declared class: its destructor, constructors and methods.

use vstd::prelude::*;
use crate::types::{ClassDeclarationHandle, ClassHandle, NativeFunctionHandle, ReturnType, Type};
use crate::model::{Class, ClassView, Item, ItemView, Method, MethodView, views};
use crate::builder::{BindingError, LibraryBuilder};

verus! {

/// The body of a class under construction. Nothing reaches the library
/// before `build`.
pub struct ClassBuilder<'a> {
    pub lib: &'a mut LibraryBuilder,
    pub id: usize,
    pub name: String,
    pub destructor: Option<NativeFunctionHandle>,
    pub constructors: Vec<NativeFunctionHandle>,
    pub methods: Vec<Method>,
}

impl<'a> ClassBuilder<'a> {
    /// The class that `build` would define.
    pub open spec fn pending(&self) -> ClassView {
        ClassView {
            name: self.name@,
            destructor: self.destructor,
            constructors: self.constructors@,
            methods: views(self.methods@),
        }
    }

    pub open spec fn inv(&self) -> bool {
        &&& self.lib.inv()
        &&& self.lib@.has_room(1)
        &&& self.lib@.body_fits(self.id as int, ItemView::Class(self.pending()))
    }

    /// Sets the destructor: a function that takes one handle of this class
    /// and returns nothing. A class has at most one.
    pub fn destructor(self, function: &NativeFunctionHandle) -> (r: Result<
        ClassBuilder<'a>,
        BindingError,
    >)
        requires
            self.inv(),
        ensures
            r is Err ==> *final(self.lib) == *old(self.lib),
            r is Err <==> self.destructor is Some || !old(self.lib)@.destructor_ok(
                self.id,
                *function,
            ),
            r matches Err(e) ==> e == if old(self.lib)@.is_function(function.id) {
                BindingError::BadDestructorSignature
            } else {
                BindingError::UnknownReference(function.id)
            },
            r matches Ok(b) ==> b.lib == self.lib && b.id == self.id && b.inv() && b.pending() == (
            ClassView { destructor: Some(*function), ..self.pending() }),
    {
        if function.id >= self.lib.decl_count() {
            return Err(BindingError::UnknownReference(function.id));
        }
        let ok = match &self.lib.decl(function.id).item {
            Item::Function(f) => {
                f.return_type == ReturnType::Void && f.parameters.len() == 1
                    && f.parameters[0].param_type == Type::ClassRef(
                    ClassDeclarationHandle { id: self.id },
                )
            },
            _ => {
                return Err(BindingError::UnknownReference(function.id));
            },
        };
        if !ok || self.destructor.is_some() {
            return Err(BindingError::BadDestructorSignature);
        }
        let mut b = self;
        b.destructor = Some(*function);
        Ok(b)
    }

    /// Appends a constructor: a function that returns a handle of this class.
    pub fn constructor(self, function: &NativeFunctionHandle) -> (r: Result<
        ClassBuilder<'a>,
        BindingError,
    >)
        requires
            self.inv(),
        ensures
            r is Err ==> *final(self.lib) == *old(self.lib),
            r is Err <==> !old(self.lib)@.constructor_ok(self.id, *function),
            r matches Err(e) ==> e == if old(self.lib)@.is_function(function.id) {
                BindingError::BadConstructorReturn
            } else {
                BindingError::UnknownReference(function.id)
            },
            r matches Ok(b) ==> b.lib == self.lib && b.id == self.id && b.inv() && b.pending() == (
            ClassView {
                constructors: self.pending().constructors.push(*function),
                ..self.pending()
            }),
    {
        if function.id >= self.lib.decl_count() {
            return Err(BindingError::UnknownReference(function.id));
        }
        let ok = match &self.lib.decl(function.id).item {
            Item::Function(f) => {
                f.return_type == ReturnType::Type(
                    Type::ClassRef(ClassDeclarationHandle { id: self.id }),
                )
            },
            _ => {
                return Err(BindingError::UnknownReference(function.id));
            },
        };
        if !ok {
            return Err(BindingError::BadConstructorReturn);
        }
        let ghost before = self.pending();
        let mut b = self;
        b.constructors.push(*function);
        assert(b.pending().constructors =~= before.constructors.push(*function));
        assert(b.pending().methods =~= before.methods);
        Ok(b)
    }

    /// Appends a method: a function whose first parameter is a handle of this
    /// class.
    pub fn method(self, name: &str, function: &NativeFunctionHandle) -> (r: Result<
        ClassBuilder<'a>,
        BindingError,
    >)
        requires
            self.inv(),
        ensures
            r is Err ==> *final(self.lib) == *old(self.lib),
            r is Err <==> !old(self.lib)@.method_ok(self.id, *function),
            r matches Err(e) ==> e == if old(self.lib)@.is_function(function.id) {
                BindingError::BadMethodReceiver
            } else {
                BindingError::UnknownReference(function.id)
            },
            r matches Ok(b) ==> b.lib == self.lib && b.id == self.id && b.inv() && b.pending() == (
            ClassView {
                methods: self.pending().methods.push(
                    MethodView { name: name@, native_function: *function },
                ),
                ..self.pending()
            }),
    {
        if function.id >= self.lib.decl_count() {
            return Err(BindingError::UnknownReference(function.id));
        }
        let ok = match &self.lib.decl(function.id).item {
            Item::Function(f) => {
                f.parameters.len() >= 1 && f.parameters[0].param_type == Type::ClassRef(
                    ClassDeclarationHandle { id: self.id },
                )
            },
            _ => {
                return Err(BindingError::UnknownReference(function.id));
            },
        };
        if !ok {
            return Err(BindingError::BadMethodReceiver);
        }
        let ghost before = self.pending();
        let mut b = self;
        b.methods.push(Method { name: String::from_str(name), native_function: *function });
        assert(b.pending().methods =~= before.methods.push(
            MethodView { name: name@, native_function: *function },
        ));
        Ok(b)
    }

    /// Defines the class in the library.
    pub fn build(self) -> (h: ClassHandle)
        requires
            self.inv(),
        ensures
            final(self.lib).inv(),
            old(self.lib)@.extended_by(final(self.lib)@),
            h.id == self.id,
            final(self.lib)@ == old(self.lib)@.define(
                self.id as int,
                ItemView::Class(self.pending()),
            ),
    {
        let ghost pending = self.pending();
        let id = self.id;
        let item = Item::Class(
            Class {
                name: self.name,
                destructor: self.destructor,
                constructors: self.constructors,
                methods: self.methods,
            },
        );
        assert(item@ == ItemView::Class(pending));
        self.lib.set_definition(id, item);
        ClassHandle { id }
    }
}

impl LibraryBuilder {
    /// Starts the definition of a declared class. The handle must name a
    /// class, and the class must have no body yet.
    pub fn define_class<'a>(&'a mut self, declaration: &ClassDeclarationHandle) -> (r: Result<
        ClassBuilder<'a>,
        BindingError,
    >)
        requires
            old(self).inv(),
            old(self)@.has_room(1),
        ensures
            r is Err ==> *final(self) == *old(self),
            r is Err <==> !old(self)@.is_class(declaration.id) || old(self)@.is_defined_class(
                declaration.id,
            ),
            r matches Err(e) ==> e == if old(self)@.is_class(declaration.id) {
                BindingError::ClassAlreadyDefined
            } else {
                BindingError::UnknownReference(declaration.id)
            },
            r matches Ok(b) ==> *b.lib == *old(self) && *final(self) == *final(b.lib) && b.inv()
                && b.id == declaration.id && b.pending() == (ClassView {
                name: old(self)@.decls[declaration.id as int].item.name(),
                destructor: None,
                constructors: Seq::empty(),
                methods: Seq::empty(),
            }),
    {
        let id = declaration.id;
        if id >= self.decl_count() {
            return Err(BindingError::UnknownReference(id));
        }
        let decl = self.decl(id);
        let name = match &decl.item {
            Item::Class(c) => c.name.clone(),
            _ => {
                return Err(BindingError::UnknownReference(id));
            },
        };
        if decl.defined_at.is_some() {
            return Err(BindingError::ClassAlreadyDefined);
        }
        let b = ClassBuilder {
            lib: self,
            id,
            name,
            destructor: None,
            constructors: Vec::new(),
            methods: Vec::new(),
        };
        assert(b.pending().methods =~= Seq::empty());
        assert(b.pending().constructors =~= Seq::empty());
        Ok(b)
    }
}

} // verus!
