//! The root of the model: an ordered list of statements over a table of
//! declarations, and the invariants that a library satisfies.

use vstd::prelude::*;
use crate::types::{
    ClassDeclarationHandle, ClassHandle, InterfaceHandle, IteratorHandle, NativeEnumHandle,
    NativeFunctionHandle, NativeStructDeclarationHandle, NativeStructHandle, ReturnType, Type,
};
use crate::model::{
    CallbackFunctionView, CallbackParameterView, ClassView, Declaration, DeclarationView,
    InterfaceElementView, InterfaceView, ItemView, IteratorDefView, NativeEnumView,
    NativeFunctionView, NativeStructView, Statement, Text, Version, texts, views,
};

verus! {

/// A validated, immutable description of a native library.
pub struct Library {
    pub name: String,
    pub version: Version,
    pub license: Vec<String>,
    pub description: String,
    pub statements: Vec<Statement>,
    pub decls: Vec<Declaration>,
}

pub struct LibraryView {
    pub name: Text,
    pub version: Version,
    pub license: Seq<Text>,
    pub description: Text,
    pub statements: Seq<Statement>,
    pub decls: Seq<DeclarationView>,
}

impl View for Library {
    type V = LibraryView;

    open spec fn view(&self) -> LibraryView {
        LibraryView {
            name: self.name@,
            version: self.version,
            license: texts(self.license@),
            description: self.description@,
            statements: self.statements@,
            decls: views(self.decls@),
        }
    }
}

/// The names of a sequence of named things are pairwise different.
pub open spec fn distinct(names: Seq<Text>) -> bool {
    forall|i: int, j: int| 0 <= i < j < names.len() ==> names[i] != names[j]
}

pub open spec fn callback_has_arg(cb: CallbackFunctionView, arg: Text) -> bool {
    exists|k: int|
        0 <= k < cb.parameters.len() && #[trigger] cb.parameters[k]
            == CallbackParameterView::Arg(arg)
}

/// How many elements of an interface are a user-data slot.
pub open spec fn count_args(elements: Seq<InterfaceElementView>) -> nat
    decreases elements.len(),
{
    if elements.len() == 0 {
        0
    } else {
        count_args(elements.drop_last()) + if elements.last() is Arg {
            1nat
        } else {
            0nat
        }
    }
}

/// How many elements of an interface are a destroy function.
pub open spec fn count_destroys(elements: Seq<InterfaceElementView>) -> nat
    decreases elements.len(),
{
    if elements.len() == 0 {
        0
    } else {
        count_destroys(elements.drop_last()) + if elements.last() is DestroyFunction {
            1nat
        } else {
            0nat
        }
    }
}

/// How many elements of an interface are a callback.
pub open spec fn count_callbacks(elements: Seq<InterfaceElementView>) -> nat
    decreases elements.len(),
{
    if elements.len() == 0 {
        0
    } else {
        count_callbacks(elements.drop_last()) + if elements.last() is CallbackFunction {
            1nat
        } else {
            0nat
        }
    }
}

impl LibraryView {
    pub open spec fn is_enum(self, id: usize) -> bool {
        id < self.decls.len() && self.decls[id as int].item is Enum
    }

    pub open spec fn is_struct(self, id: usize) -> bool {
        id < self.decls.len() && self.decls[id as int].item is Struct
    }

    pub open spec fn is_defined_struct(self, id: usize) -> bool {
        self.is_struct(id) && self.decls[id as int].defined_at is Some
    }

    pub open spec fn is_interface(self, id: usize) -> bool {
        id < self.decls.len() && self.decls[id as int].item is Interface
    }

    pub open spec fn is_iterator(self, id: usize) -> bool {
        id < self.decls.len() && self.decls[id as int].item is Iterator
    }

    pub open spec fn is_class(self, id: usize) -> bool {
        id < self.decls.len() && self.decls[id as int].item is Class
    }

    pub open spec fn is_defined_class(self, id: usize) -> bool {
        self.is_class(id) && self.decls[id as int].defined_at is Some
    }

    pub open spec fn is_function(self, id: usize) -> bool {
        id < self.decls.len() && self.decls[id as int].item is Function
    }

    pub open spec fn function(self, h: NativeFunctionHandle) -> NativeFunctionView {
        self.decls[h.id as int].item->Function_0
    }

    /// Whether a name is taken by a top-level declaration.
    pub open spec fn name_used(self, name: Text) -> bool {
        exists|i: int| 0 <= i < self.decls.len() && (#[trigger] self.decls[i]).item.name() == name
    }

    /// Whether a type names only declarations that the library holds.
    pub open spec fn resolves(self, t: Type) -> bool {
        match t {
            Type::Enum(h) => self.is_enum(h.id),
            Type::Struct(h) => self.is_defined_struct(h.id),
            Type::StructRef(h) => self.is_struct(h.id),
            Type::ClassRef(h) => self.is_class(h.id),
            Type::Interface(h) => self.is_interface(h.id),
            Type::Iterator(h) => self.is_iterator(h.id),
            _ => true,
        }
    }

    /// The reference that does not resolve, if the type holds one.
    pub open spec fn unresolved(self, t: Type) -> Option<usize> {
        if self.resolves(t) {
            None
        } else {
            t.spec_referenced()
        }
    }

    pub open spec fn return_unresolved(self, r: ReturnType) -> Option<usize> {
        match r {
            ReturnType::Void => None,
            ReturnType::Type(t) => self.unresolved(t),
        }
    }

    /// Whether `n` more statements and declarations fit the tables.
    pub open spec fn has_room(self, n: nat) -> bool {
        self.statements.len() + n <= usize::MAX && self.decls.len() + n <= usize::MAX
    }

    pub open spec fn return_resolves(self, r: ReturnType) -> bool {
        match r {
            ReturnType::Void => true,
            ReturnType::Type(t) => self.resolves(t),
        }
    }

    pub open spec fn enum_ok(self, e: NativeEnumView) -> bool {
        &&& e.variants.len() > 0
        &&& forall|i: int, j: int|
            0 <= i < j < e.variants.len() ==> (#[trigger] e.variants[i]).name != (
            #[trigger] e.variants[j]).name
    }

    /// Field names differ, field types resolve, and a structure held by
    /// value was defined earlier than the structure that holds it.
    pub open spec fn struct_ok(self, id: int, s: NativeStructView) -> bool {
        &&& forall|i: int, j: int|
            0 <= i < j < s.fields.len() ==> (#[trigger] s.fields[i]).name != (
            #[trigger] s.fields[j]).name
        &&& forall|i: int|
            0 <= i < s.fields.len() ==> self.resolves((#[trigger] s.fields[i]).field_type)
        &&& forall|i: int|
            0 <= i < s.fields.len() ==> ((#[trigger] s.fields[i]).field_type matches Type::Struct(
                h,
            ) ==> self.decls[id].defined_at is Some && self.decls[h.id as int].defined_at->0
                < self.decls[id].defined_at->0)
        &&& self.decls[id].defined_at is None ==> s.fields.len() == 0
    }

    pub open spec fn function_ok(self, f: NativeFunctionView) -> bool {
        &&& forall|i: int, j: int|
            0 <= i < j < f.parameters.len() ==> (#[trigger] f.parameters[i]).name != (
            #[trigger] f.parameters[j]).name
        &&& forall|i: int|
            0 <= i < f.parameters.len() ==> self.resolves((#[trigger] f.parameters[i]).param_type)
        &&& self.return_resolves(f.return_type)
    }

    pub open spec fn callback_ok(self, cb: CallbackFunctionView, arg: Text) -> bool {
        &&& cb.arg_name == arg
        &&& callback_has_arg(cb, arg)
        &&& self.return_resolves(cb.return_type)
        &&& forall|k: int|
            0 <= k < cb.parameters.len() ==> ((#[trigger] cb.parameters[k]) matches CallbackParameterView::Parameter(
                p,
            ) ==> self.resolves(p.param_type))
    }

    /// One user-data slot, one destroy function, at least one callback, and
    /// every callback takes the user-data slot.
    pub open spec fn interface_ok(self, i: InterfaceView) -> bool {
        &&& count_args(i.elements) == 1
        &&& count_destroys(i.elements) == 1
        &&& count_callbacks(i.elements) >= 1
        &&& forall|k: int|
            0 <= k < i.elements.len() ==> match #[trigger] i.elements[k] {
                InterfaceElementView::Arg(name) => name == i.arg_name,
                InterfaceElementView::DestroyFunction(name) => name == i.destroy_name,
                InterfaceElementView::CallbackFunction(cb) => self.callback_ok(cb, i.arg_name),
            }
    }

    /// The advancing function takes one opaque handle and returns a reference
    /// to the item structure.
    pub open spec fn iterator_ok(self, it: IteratorDefView) -> bool {
        &&& self.is_function(it.native_func.id)
        &&& self.is_defined_struct(it.item_type.id)
        &&& self.function(it.native_func).return_type == ReturnType::Type(
            Type::StructRef(NativeStructDeclarationHandle { id: it.item_type.id }),
        )
        &&& self.function(it.native_func).parameters.len() == 1
        &&& self.function(it.native_func).parameters[0].param_type is ClassRef
    }

    pub open spec fn destructor_ok(self, id: usize, h: NativeFunctionHandle) -> bool {
        &&& self.is_function(h.id)
        &&& self.function(h).return_type == ReturnType::Void
        &&& self.function(h).parameters.len() == 1
        &&& self.function(h).parameters[0].param_type == Type::ClassRef(
            ClassDeclarationHandle { id },
        )
    }

    pub open spec fn constructor_ok(self, id: usize, h: NativeFunctionHandle) -> bool {
        &&& self.is_function(h.id)
        &&& self.function(h).return_type == ReturnType::Type(
            Type::ClassRef(ClassDeclarationHandle { id }),
        )
    }

    pub open spec fn method_ok(self, id: usize, h: NativeFunctionHandle) -> bool {
        &&& self.is_function(h.id)
        &&& self.function(h).parameters.len() >= 1
        &&& self.function(h).parameters[0].param_type == Type::ClassRef(
            ClassDeclarationHandle { id },
        )
    }

    pub open spec fn class_ok(self, id: int, c: ClassView) -> bool {
        &&& c.destructor matches Some(h) ==> self.destructor_ok(id as usize, h)
        &&& forall|k: int|
            0 <= k < c.constructors.len() ==> self.constructor_ok(
                id as usize,
                #[trigger] c.constructors[k],
            )
        &&& forall|k: int|
            0 <= k < c.methods.len() ==> self.method_ok(
                id as usize,
                (#[trigger] c.methods[k]).native_function,
            )
        &&& self.decls[id].defined_at is None ==> c.destructor is None && c.constructors.len() == 0
            && c.methods.len() == 0
    }

    pub open spec fn item_ok(self, id: int) -> bool {
        match self.decls[id].item {
            ItemView::Enum(e) => self.enum_ok(e),
            ItemView::Struct(s) => self.struct_ok(id, s),
            ItemView::Interface(i) => self.interface_ok(i),
            ItemView::Iterator(it) => self.iterator_ok(it),
            ItemView::Class(c) => self.class_ok(id, c),
            ItemView::Function(f) => self.function_ok(f),
        }
    }

    /// The statement that introduces the declaration at `id`.
    pub open spec fn declaring(self, id: int) -> Statement {
        match self.decls[id].item {
            ItemView::Enum(_) => Statement::EnumDef(NativeEnumHandle { id: id as usize }),
            ItemView::Struct(_) => Statement::StructDecl(
                NativeStructDeclarationHandle { id: id as usize },
            ),
            ItemView::Interface(_) => Statement::InterfaceDef(InterfaceHandle { id: id as usize }),
            ItemView::Iterator(_) => Statement::IteratorDef(IteratorHandle { id: id as usize }),
            ItemView::Class(_) => Statement::ClassDecl(ClassDeclarationHandle { id: id as usize }),
            ItemView::Function(_) => Statement::NativeFunctionDef(
                NativeFunctionHandle { id: id as usize },
            ),
        }
    }

    /// The statement that gives the declaration at `id` its body.
    pub open spec fn defining(self, id: int) -> Statement {
        match self.decls[id].item {
            ItemView::Struct(_) => Statement::StructDef(NativeStructHandle { id: id as usize }),
            ItemView::Class(_) => Statement::ClassDef(ClassHandle { id: id as usize }),
            _ => self.declaring(id),
        }
    }

    /// Whether the declaration at `id` is introduced and defined by two
    /// statements; the other kinds need one.
    pub open spec fn two_phase(self, id: int) -> bool {
        self.decls[id].item is Struct || self.decls[id].item is Class
    }

    /// The declaration at `id` points at its statements, in order.
    pub open spec fn linked(self, id: int) -> bool {
        let d = self.decls[id];
        &&& d.declared_at < self.statements.len()
        &&& self.statements[d.declared_at as int] == self.declaring(id)
        &&& d.defined_at matches Some(at) ==> at < self.statements.len() && self.statements[at as int]
            == self.defining(id)
        &&& if self.two_phase(id) {
            d.defined_at matches Some(at) ==> d.declared_at < at
        } else {
            d.defined_at == Some(d.declared_at)
        }
    }

    pub open spec fn decl_ok(self, id: int) -> bool {
        self.item_ok(id) && self.linked(id)
    }

    /// The statement at `s` is the one that its declaration points at.
    pub open spec fn stmt_ok(self, s: int) -> bool {
        let st = self.statements[s];
        &&& st.id() < self.decls.len()
        &&& if st == self.declaring(st.id() as int) {
            self.decls[st.id() as int].declared_at == s
        } else {
            st == self.defining(st.id() as int) && self.decls[st.id() as int].defined_at == Some(
                s as usize,
            )
        }
    }

    pub open spec fn names_unique(self) -> bool {
        forall|i: int, j: int|
            0 <= i < j < self.decls.len() ==> (#[trigger] self.decls[i]).item.name() != (
            #[trigger] self.decls[j]).item.name()
    }

    /// What holds of a library at every moment of its construction.
    pub open spec fn consistent(self) -> bool {
        &&& self.decls.len() <= usize::MAX
        &&& self.statements.len() <= usize::MAX
        &&& self.names_unique()
        &&& forall|id: int| 0 <= id < self.decls.len() ==> #[trigger] self.decl_ok(id)
        &&& forall|s: int| 0 <= s < self.statements.len() ==> #[trigger] self.stmt_ok(s)
    }

    pub open spec fn all_classes_defined(self) -> bool {
        forall|id: int|
            0 <= id < self.decls.len() ==> ((#[trigger] self.decls[id]).item is Class
                ==> self.decls[id].defined_at is Some)
    }

    /// What holds of a finished library.
    pub open spec fn wf(self) -> bool {
        self.consistent() && self.all_classes_defined()
    }

    /// The statement that introduces `item` when it is the declaration at `id`.
    pub open spec fn declaring_of(id: usize, item: ItemView) -> Statement {
        match item {
            ItemView::Enum(_) => Statement::EnumDef(NativeEnumHandle { id }),
            ItemView::Struct(_) => Statement::StructDecl(NativeStructDeclarationHandle { id }),
            ItemView::Interface(_) => Statement::InterfaceDef(InterfaceHandle { id }),
            ItemView::Iterator(_) => Statement::IteratorDef(IteratorHandle { id }),
            ItemView::Class(_) => Statement::ClassDecl(ClassDeclarationHandle { id }),
            ItemView::Function(_) => Statement::NativeFunctionDef(NativeFunctionHandle { id }),
        }
    }

    /// Whether `item` may be declared: a structure or a class comes without
    /// a body, and the other kinds satisfy their invariants.
    pub open spec fn fits(self, item: ItemView) -> bool {
        match item {
            ItemView::Enum(e) => self.enum_ok(e),
            ItemView::Struct(s) => s.fields.len() == 0,
            ItemView::Interface(i) => self.interface_ok(i),
            ItemView::Iterator(it) => self.iterator_ok(it),
            ItemView::Class(c) => c.destructor is None && c.constructors.len() == 0
                && c.methods.len() == 0,
            ItemView::Function(f) => self.function_ok(f),
        }
    }

    /// The library after `item` was declared: one more declaration, at the end
    /// of the table, and one more statement.
    pub open spec fn declare(self, item: ItemView) -> LibraryView {
        let at = self.statements.len() as usize;
        let id = self.decls.len() as usize;
        LibraryView {
            statements: self.statements.push(Self::declaring_of(id, item)),
            decls: self.decls.push(
                DeclarationView {
                    declared_at: at,
                    defined_at: if item is Struct || item is Class {
                        None
                    } else {
                        Some(at)
                    },
                    item,
                },
            ),
            ..self
        }
    }

    /// Whether `item` may become the body of the declaration at `id`.
    pub open spec fn body_fits(self, id: int, item: ItemView) -> bool {
        &&& 0 <= id < self.decls.len()
        &&& self.decls[id].defined_at is None
        &&& item.name() == self.decls[id].item.name()
        &&& match item {
            ItemView::Struct(s) => {
                &&& self.decls[id].item is Struct
                &&& forall|i: int, j: int|
                    0 <= i < j < s.fields.len() ==> (#[trigger] s.fields[i]).name != (
                    #[trigger] s.fields[j]).name
                &&& forall|i: int|
                    0 <= i < s.fields.len() ==> self.resolves((#[trigger] s.fields[i]).field_type)
            },
            ItemView::Class(c) => {
                &&& self.decls[id].item is Class
                &&& c.destructor matches Some(h) ==> self.destructor_ok(id as usize, h)
                &&& forall|k: int|
                    0 <= k < c.constructors.len() ==> self.constructor_ok(
                        id as usize,
                        #[trigger] c.constructors[k],
                    )
                &&& forall|k: int|
                    0 <= k < c.methods.len() ==> self.method_ok(
                        id as usize,
                        (#[trigger] c.methods[k]).native_function,
                    )
            },
            _ => false,
        }
    }

    /// The library after the declaration at `id` got `item` as its body: the
    /// entry is replaced, and one more statement.
    pub open spec fn define(self, id: int, item: ItemView) -> LibraryView {
        let at = self.statements.len() as usize;
        LibraryView {
            statements: self.statements.push(
                match item {
                    ItemView::Struct(_) => Statement::StructDef(
                        NativeStructHandle { id: id as usize },
                    ),
                    _ => Statement::ClassDef(ClassHandle { id: id as usize }),
                },
            ),
            decls: self.decls.update(
                id,
                DeclarationView {
                    declared_at: self.decls[id].declared_at,
                    defined_at: Some(at),
                    item,
                },
            ),
            ..self
        }
    }

    /// `new` keeps every statement and declaration of `self`; a declaration
    /// without a body may have gained one.
    pub open spec fn extended_by(self, new: LibraryView) -> bool {
        &&& self.statements.len() <= new.statements.len()
        &&& forall|s: int|
            0 <= s < self.statements.len() ==> #[trigger] new.statements[s] == self.statements[s]
        &&& self.decls.len() <= new.decls.len()
        &&& forall|i: int|
            0 <= i < self.decls.len() ==> {
                let o = self.decls[i];
                let n = #[trigger] new.decls[i];
                &&& n.declared_at == o.declared_at
                &&& n.item.name() == o.item.name()
                &&& (o.defined_at is Some || !self.two_phase(i)) ==> n == o
                &&& self.two_phase(i) ==> new.two_phase(i) && (n.item is Struct <==> o.item is Struct)
            }
    }
}

} // verus!
