//! Defining a callback interface: its callbacks, its destroy function and
//! its user-data slot.

use vstd::prelude::*;
use crate::types::{InterfaceHandle, ReturnType, Type};
use crate::model::{
    CallbackFunction, CallbackFunctionView, CallbackParameter, CallbackParameterView, Interface,
    InterfaceElement, InterfaceElementView, InterfaceView, Item, ItemView, Parameter,
    ParameterView, Text, views,
};
use crate::library::{LibraryView, callback_has_arg, count_args, count_callbacks, count_destroys};
use crate::builder::{BindingError, LibraryBuilder};

verus! {

impl CallbackFunction {
    /// A callback that takes nothing and returns nothing.
    pub fn new(name: &str, doc: &str) -> (cb: CallbackFunction)
        ensures
            cb@ == (CallbackFunctionView {
                name: name@,
                return_type: ReturnType::Void,
                parameters: Seq::empty(),
                arg_name: Seq::empty(),
                doc: doc@,
            }),
    {
        let cb = CallbackFunction {
            name: String::from_str(name),
            return_type: ReturnType::Void,
            parameters: Vec::new(),
            arg_name: String::new(),
            doc: String::from_str(doc),
        };
        assert(cb@.parameters =~= Seq::empty());
        cb
    }

    /// Appends a typed parameter.
    pub fn param(self, name: &str, param_type: Type, doc: &str) -> (cb: CallbackFunction)
        ensures
            cb@ == (CallbackFunctionView {
                parameters: self@.parameters.push(
                    CallbackParameterView::Parameter(
                        ParameterView { name: name@, param_type, doc: doc@ },
                    ),
                ),
                ..self@
            }),
    {
        let mut cb = self;
        cb.parameters.push(
            CallbackParameter::Parameter(
                Parameter { name: String::from_str(name), param_type, doc: String::from_str(doc) },
            ),
        );
        assert(cb@.parameters =~= self@.parameters.push(
            CallbackParameterView::Parameter(ParameterView { name: name@, param_type, doc: doc@ }),
        ));
        cb
    }

    /// Appends the parameter that carries the user-data slot.
    pub fn arg(self, name: &str) -> (cb: CallbackFunction)
        ensures
            cb@ == (CallbackFunctionView {
                parameters: self@.parameters.push(CallbackParameterView::Arg(name@)),
                arg_name: name@,
                ..self@
            }),
    {
        let mut cb = self;
        cb.parameters.push(CallbackParameter::Arg(String::from_str(name)));
        cb.arg_name = String::from_str(name);
        assert(cb@.parameters =~= self@.parameters.push(CallbackParameterView::Arg(name@)));
        cb
    }

    /// Sets what the callback returns.
    pub fn return_type(self, return_type: ReturnType) -> (cb: CallbackFunction)
        ensures
            cb@ == (CallbackFunctionView { return_type, ..self@ }),
    {
        let mut cb = self;
        cb.return_type = return_type;
        cb
    }
}

/// The first reference, from position `k` on, that does not resolve.
pub open spec fn params_unresolved(
    lib: LibraryView,
    ps: Seq<CallbackParameterView>,
    k: int,
) -> Option<usize>
    decreases ps.len() - k,
{
    if k < 0 || k >= ps.len() {
        None
    } else {
        match ps[k] {
            CallbackParameterView::Parameter(p) if lib.unresolved(p.param_type) is Some => lib.unresolved(
                p.param_type,
            ),
            _ => params_unresolved(lib, ps, k + 1),
        }
    }
}

/// The first reference of a callback that does not resolve: that of its
/// return type, or else the first among its parameters.
pub open spec fn callback_unresolved(lib: LibraryView, cb: CallbackFunctionView) -> Option<usize> {
    match lib.return_unresolved(cb.return_type) {
        Some(id) => Some(id),
        None => params_unresolved(lib, cb.parameters, 0),
    }
}

/// An interface under construction. Nothing reaches the library before
/// `build`.
pub struct InterfaceBuilder<'a> {
    pub lib: &'a mut LibraryBuilder,
    pub name: String,
    pub elements: Vec<InterfaceElement>,
    pub arg_name: Option<String>,
    pub destroy_name: Option<String>,
    pub doc: String,
}

/// Whether every callback among the elements names `arg` as its user-data
/// parameter.
pub open spec fn callbacks_take(elements: Seq<InterfaceElementView>, arg: Text) -> bool {
    forall|k: int|
        0 <= k < elements.len() ==> ((#[trigger] elements[k]) matches InterfaceElementView::CallbackFunction(
            cb,
        ) ==> cb.arg_name == arg)
}

impl<'a> InterfaceBuilder<'a> {
    pub open spec fn elements_view(&self) -> Seq<InterfaceElementView> {
        views(self.elements@)
    }

    pub open spec fn arg_view(&self) -> Option<Text> {
        match self.arg_name {
            Some(n) => Some(n@),
            None => None,
        }
    }

    pub open spec fn destroy_view(&self) -> Option<Text> {
        match self.destroy_name {
            Some(n) => Some(n@),
            None => None,
        }
    }

    /// The interface that `build` would add, once the user-data slot and the
    /// destroy function are named.
    pub open spec fn pending(&self) -> InterfaceView {
        InterfaceView {
            name: self.name@,
            elements: self.elements_view(),
            arg_name: self.arg_view()->0,
            destroy_name: self.destroy_view()->0,
            doc: self.doc@,
        }
    }

    /// Whether `build` would succeed.
    pub open spec fn complete(&self) -> bool {
        &&& self.arg_name is Some
        &&& self.destroy_name is Some
        &&& count_callbacks(self.elements_view()) >= 1
        &&& callbacks_take(self.elements_view(), self.arg_view()->0)
    }

    pub open spec fn inv(&self) -> bool {
        &&& self.lib.inv()
        &&& self.lib@.has_room(1)
        &&& !self.lib@.name_used(self.name@)
        &&& count_args(self.elements_view()) == if self.arg_name is Some {
            1nat
        } else {
            0nat
        }
        &&& count_destroys(self.elements_view()) == if self.destroy_name is Some {
            1nat
        } else {
            0nat
        }
        &&& forall|k: int|
            0 <= k < self.elements@.len() ==> match #[trigger] self.elements_view()[k] {
                InterfaceElementView::Arg(name) => self.arg_view() == Some(name),
                InterfaceElementView::DestroyFunction(name) => self.destroy_view() == Some(name),
                InterfaceElementView::CallbackFunction(cb) => self.lib@.callback_ok(
                    cb,
                    cb.arg_name,
                ),
            }
    }

    /// Appends a callback. Its types must resolve, and it must take the
    /// user-data slot that it names.
    pub fn callback(self, cb: CallbackFunction) -> (r: Result<InterfaceBuilder<'a>, BindingError>)
        requires
            self.inv(),
        ensures
            r is Err ==> *final(self.lib) == *old(self.lib),
            r is Err <==> callback_unresolved(old(self.lib)@, cb@) is Some || !callback_has_arg(
                cb@,
                cb@.arg_name,
            ),
            r matches Err(e) ==> e == match callback_unresolved(old(self.lib)@, cb@) {
                Some(id) => BindingError::UnknownReference(id),
                None => BindingError::BadInterfaceShape,
            },
            r matches Ok(b) ==> b.lib == self.lib && b.inv() && b.name == self.name && b.doc
                == self.doc && b.arg_name == self.arg_name && b.destroy_name == self.destroy_name
                && b.elements_view() == self.elements_view().push(
                InterfaceElementView::CallbackFunction(cb@),
            ),
    {
        if let Some(id) = self.lib.return_unresolved(cb.return_type) {
            return Err(BindingError::UnknownReference(id));
        }
        let mut has_arg = false;
        let mut i: usize = 0;
        while i < cb.parameters.len()
            invariant
                i <= cb.parameters.len(),
                self.lib@.return_unresolved(cb@.return_type) is None,
                params_unresolved(self.lib@, cb@.parameters, 0) == params_unresolved(
                    self.lib@,
                    cb@.parameters,
                    i as int,
                ),
                forall|k: int|
                    0 <= k < i ==> ((#[trigger] cb@.parameters[k]) matches CallbackParameterView::Parameter(
                        p,
                    ) ==> self.lib@.resolves(p.param_type)),
                has_arg <==> exists|k: int|
                    0 <= k < i && #[trigger] cb@.parameters[k] == CallbackParameterView::Arg(
                        cb@.arg_name,
                    ),
            decreases cb.parameters.len() - i,
        {
            match &cb.parameters[i] {
                CallbackParameter::Arg(name) => {
                    if *name == cb.arg_name {
                        assert(cb@.parameters[i as int] == CallbackParameterView::Arg(
                            cb@.arg_name,
                        ));
                        has_arg = true;
                    }
                },
                CallbackParameter::Parameter(p) => {
                    if let Some(id) = self.lib.unresolved(p.param_type) {
                        return Err(BindingError::UnknownReference(id));
                    }
                },
            }
            i += 1;
        }
        if !has_arg {
            return Err(BindingError::BadInterfaceShape);
        }
        let ghost before = self.elements_view();
        let mut b = self;
        b.elements.push(InterfaceElement::CallbackFunction(cb));
        proof {
            let after = b.elements_view();
            assert(after =~= before.push(InterfaceElementView::CallbackFunction(cb@)));
            assert(after.drop_last() =~= before);
        }
        Ok(b)
    }

    /// Names the destroy function. An interface has one.
    pub fn destroy(self, name: &str) -> (r: Result<InterfaceBuilder<'a>, BindingError>)
        requires
            self.inv(),
        ensures
            r is Err ==> *final(self.lib) == *old(self.lib),
            r is Err <==> self.destroy_name is Some,
            r matches Err(e) ==> e == BindingError::BadInterfaceShape,
            r matches Ok(b) ==> b.lib == self.lib && b.inv() && b.name == self.name && b.doc
                == self.doc && b.arg_name == self.arg_name && b.destroy_view() == Some(name@)
                && b.elements_view() == self.elements_view().push(
                InterfaceElementView::DestroyFunction(name@),
            ),
    {
        if self.destroy_name.is_some() {
            return Err(BindingError::BadInterfaceShape);
        }
        let ghost before = self.elements_view();
        let mut b = self;
        b.elements.push(InterfaceElement::DestroyFunction(String::from_str(name)));
        b.destroy_name = Some(String::from_str(name));
        proof {
            let after = b.elements_view();
            assert(after =~= before.push(InterfaceElementView::DestroyFunction(name@)));
            assert(after.drop_last() =~= before);
        }
        Ok(b)
    }

    /// Names the user-data slot. An interface has one.
    pub fn arg(self, name: &str) -> (r: Result<InterfaceBuilder<'a>, BindingError>)
        requires
            self.inv(),
        ensures
            r is Err ==> *final(self.lib) == *old(self.lib),
            r is Err <==> self.arg_name is Some,
            r matches Err(e) ==> e == BindingError::BadInterfaceShape,
            r matches Ok(b) ==> b.lib == self.lib && b.inv() && b.name == self.name && b.doc
                == self.doc && b.destroy_name == self.destroy_name && b.arg_view() == Some(name@)
                && b.elements_view() == self.elements_view().push(InterfaceElementView::Arg(name@)),
    {
        if self.arg_name.is_some() {
            return Err(BindingError::BadInterfaceShape);
        }
        let ghost before = self.elements_view();
        let mut b = self;
        b.elements.push(InterfaceElement::Arg(String::from_str(name)));
        b.arg_name = Some(String::from_str(name));
        proof {
            let after = b.elements_view();
            assert(after =~= before.push(InterfaceElementView::Arg(name@)));
            assert(after.drop_last() =~= before);
        }
        Ok(b)
    }

    /// Sets the documentation of the interface.
    pub fn doc(self, doc: &str) -> (r: Result<InterfaceBuilder<'a>, BindingError>)
        requires
            self.inv(),
        ensures
            r matches Ok(b) && b.lib == self.lib && b.inv() && b.name == self.name && b.doc@
                == doc@ && b.arg_name == self.arg_name && b.destroy_name == self.destroy_name
                && b.elements_view() == self.elements_view(),
    {
        let mut b = self;
        b.doc = String::from_str(doc);
        Ok(b)
    }

    /// Adds the interface to the library. Fails unless it has a user-data
    /// slot, a destroy function and a callback, and every callback takes the
    /// slot under the interface's name for it.
    pub fn build(self) -> (r: Result<InterfaceHandle, BindingError>)
        requires
            self.inv(),
        ensures
            final(self.lib).inv(),
            old(self.lib)@.extended_by(final(self.lib)@),
            r is Ok <==> self.complete(),
            r matches Err(e) ==> e == BindingError::BadInterfaceShape && *final(self.lib) == *old(
                self.lib,
            ),
            r matches Ok(h) ==> h.id == old(self.lib)@.decls.len() && final(self.lib)@ == old(
                self.lib,
            )@.declare(ItemView::Interface(self.pending())),
    {
        let arg_name = match &self.arg_name {
            Some(n) => n.clone(),
            None => {
                return Err(BindingError::BadInterfaceShape);
            },
        };
        let destroy_name = match &self.destroy_name {
            Some(n) => n.clone(),
            None => {
                return Err(BindingError::BadInterfaceShape);
            },
        };
        let mut callbacks: usize = 0;
        let mut i: usize = 0;
        while i < self.elements.len()
            invariant
                i <= self.elements.len(),
                arg_name@ == self.arg_view()->0,
                self.arg_name is Some,
                self.lib.inv(),
                callbacks <= i,
                callbacks == count_callbacks(self.elements_view().take(i as int)),
                callbacks_take(self.elements_view().take(i as int), arg_name@),
            decreases self.elements.len() - i,
        {
            proof {
                let next = self.elements_view().take(i + 1);
                assert(next.drop_last() =~= self.elements_view().take(i as int));
            }
            if let InterfaceElement::CallbackFunction(cb) = &self.elements[i] {
                if cb.arg_name != arg_name {
                    assert(self.elements_view()[i as int] is CallbackFunction);
                    return Err(BindingError::BadInterfaceShape);
                }
                callbacks += 1;
            }
            i += 1;
        }
        assert(self.elements_view().take(i as int) =~= self.elements_view());
        if callbacks == 0 {
            return Err(BindingError::BadInterfaceShape);
        }
        let ghost pending = self.pending();
        let item = Item::Interface(
            Interface {
                name: self.name,
                elements: self.elements,
                arg_name,
                destroy_name,
                doc: self.doc,
            },
        );
        assert(item@ == ItemView::Interface(pending));
        let id = self.lib.add_declaration(item);
        Ok(InterfaceHandle { id })
    }
}

impl LibraryBuilder {
    /// Starts the definition of a callback interface.
    pub fn define_interface<'a>(&'a mut self, name: &str) -> (r: Result<
        InterfaceBuilder<'a>,
        BindingError,
    >)
        requires
            old(self).inv(),
            old(self)@.has_room(1),
        ensures
            old(self)@.name_used(name@) <==> r is Err,
            r matches Err(e) ==> e == BindingError::NameAlreadyUsed && *final(self) == *old(self),
            r matches Ok(b) ==> *b.lib == *old(self) && *final(self) == *final(b.lib) && b.inv()
                && b.name@ == name@ && b.doc@ == Seq::<char>::empty() && b.arg_name is None
                && b.destroy_name is None
                && b.elements_view() == Seq::<InterfaceElementView>::empty(),
    {
        let name = String::from_str(name);
        if self.is_name_used(&name) {
            return Err(BindingError::NameAlreadyUsed);
        }
        let b = InterfaceBuilder {
            lib: self,
            name,
            elements: Vec::new(),
            arg_name: None,
            destroy_name: None,
            doc: String::new(),
        };
        assert(b.elements_view() =~= Seq::empty());
        Ok(b)
    }
}

} // verus!
