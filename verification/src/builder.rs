//! The builder: the only way to make a library. Every operation validates
//! what it is given and either succeeds as a whole or changes nothing.

use vstd::prelude::*;
use crate::types::{
    ClassDeclarationHandle, ClassHandle, InterfaceHandle, IteratorHandle, NativeEnumHandle,
    NativeFunctionHandle, NativeStructDeclarationHandle, NativeStructHandle, ReturnType, Type,
};
use crate::model::{Class, ClassView, Declaration, Item, ItemView, NativeStruct, NativeStructView, Statement, Text, Version, texts};
use crate::library::{Library, LibraryView};
use crate::frame::{lemma_declare, lemma_define};

verus! {

/// Why an operation of the builder refused its input.
#[derive(Clone, Copy, Debug, PartialEq, Eq, Structural)]
pub enum BindingError {
    NameAlreadyUsed,
    /// A handle names no declaration of the right kind; the handle's `id`.
    UnknownReference(usize),
    BadInterfaceShape,
    BadMethodReceiver,
    BadConstructorReturn,
    BadDestructorSignature,
    DuplicateField,
    DuplicateVariant,
    EmptyEnum,
    ClassAlreadyDefined,
    ClassNotDefined,
    RecursiveStruct,
}

/// A library under construction.
pub struct LibraryBuilder {
    lib: Library,
}

impl View for LibraryBuilder {
    type V = LibraryView;

    closed spec fn view(&self) -> LibraryView {
        self.lib@
    }
}

/// The library that a new builder holds: a name, a version, and nothing else.
pub open spec fn empty_library(name: Text, version: Version) -> LibraryView {
    LibraryView {
        name,
        version,
        license: Seq::empty(),
        description: Seq::empty(),
        statements: Seq::empty(),
        decls: Seq::empty(),
    }
}

impl LibraryBuilder {
    /// The invariant of a builder: what it holds is consistent.
    pub open spec fn inv(&self) -> bool {
        self@.consistent()
    }

    pub fn new(name: &str, version: Version) -> (b: LibraryBuilder)
        ensures
            b@ == empty_library(name@, version),
            b.inv(),
    {
        let b = LibraryBuilder {
            lib: Library {
                name: String::from_str(name),
                version,
                license: Vec::new(),
                description: String::new(),
                statements: Vec::new(),
                decls: Vec::new(),
            },
        };
        assert(b@.license =~= Seq::empty());
        assert(b@.statements =~= Seq::empty());
        assert(b@.decls =~= Seq::empty());
        b
    }

    /// Sets the description of the library.
    pub fn description(&mut self, text: &str) -> (r: Result<(), BindingError>)
        ensures
            r is Ok,
            final(self)@ == (LibraryView { description: text@, ..old(self)@ }),
    {
        self.lib.description = String::from_str(text);
        Ok(())
    }

    /// Sets the license of the library, one line per element.
    pub fn license(&mut self, lines: Vec<String>) -> (r: Result<(), BindingError>)
        ensures
            r is Ok,
            final(self)@ == (LibraryView { license: texts(lines@), ..old(self)@ }),
    {
        self.lib.license = lines;
        Ok(())
    }

    /// How many declarations the library holds.
    pub fn decl_count(&self) -> (n: usize)
        ensures
            n == self@.decls.len(),
    {
        self.lib.decls.len()
    }

    /// The declaration at `id`.
    pub fn decl(&self, id: usize) -> (d: &Declaration)
        requires
            id < self@.decls.len(),
        ensures
            d@ == self@.decls[id as int],
    {
        &self.lib.decls[id]
    }

    /// Whether a top-level declaration already has the name.
    pub fn is_name_used(&self, name: &String) -> (r: bool)
        ensures
            r == self@.name_used(name@),
    {
        let mut i: usize = 0;
        while i < self.lib.decls.len()
            invariant
                i <= self.lib.decls.len(),
                forall|k: int| 0 <= k < i ==> (#[trigger] self@.decls[k]).item.name() != name@,
            decreases self.lib.decls.len() - i,
        {
            if *self.lib.decls[i].item.name() == *name {
                assert(self@.decls[i as int].item.name() == name@);
                return true;
            }
            i += 1;
        }
        false
    }

    /// The reference in `t` that names no declaration of the right kind.
    pub fn unresolved(&self, t: Type) -> (r: Option<usize>)
        ensures
            r == self@.unresolved(t),
    {
        let n = self.lib.decls.len();
        match t {
            Type::Enum(h) => {
                if h.id < n {
                    if let Item::Enum(_) = &self.lib.decls[h.id].item {
                        return None;
                    }
                }
                Some(h.id)
            },
            Type::Struct(h) => {
                if h.id < n {
                    if let Item::Struct(_) = &self.lib.decls[h.id].item {
                        if self.lib.decls[h.id].defined_at.is_some() {
                            return None;
                        }
                    }
                }
                Some(h.id)
            },
            Type::StructRef(h) => {
                if h.id < n {
                    if let Item::Struct(_) = &self.lib.decls[h.id].item {
                        return None;
                    }
                }
                Some(h.id)
            },
            Type::ClassRef(h) => {
                if h.id < n {
                    if let Item::Class(_) = &self.lib.decls[h.id].item {
                        return None;
                    }
                }
                Some(h.id)
            },
            Type::Interface(h) => {
                if h.id < n {
                    if let Item::Interface(_) = &self.lib.decls[h.id].item {
                        return None;
                    }
                }
                Some(h.id)
            },
            Type::Iterator(h) => {
                if h.id < n {
                    if let Item::Iterator(_) = &self.lib.decls[h.id].item {
                        return None;
                    }
                }
                Some(h.id)
            },
            _ => None,
        }
    }

    /// The reference in `r` that names no declaration of the right kind.
    pub fn return_unresolved(&self, r: ReturnType) -> (u: Option<usize>)
        ensures
            u == self@.return_unresolved(r),
    {
        match r {
            ReturnType::Void => None,
            ReturnType::Type(t) => self.unresolved(t),
        }
    }

    pub(crate) fn add_declaration(&mut self, item: Item) -> (id: usize)
        requires
            old(self).inv(),
            !old(self)@.name_used(item@.name()),
            old(self)@.fits(item@),
            old(self)@.has_room(1),
        ensures
            final(self)@ == old(self)@.declare(item@),
            final(self).inv(),
            old(self)@.extended_by(final(self)@),
            id == old(self)@.decls.len(),
    {
        let at = self.lib.statements.len();
        let id = self.lib.decls.len();
        let (stmt, two_phase) = match &item {
            Item::Enum(_) => (Statement::EnumDef(NativeEnumHandle { id }), false),
            Item::Struct(_) => (Statement::StructDecl(NativeStructDeclarationHandle { id }), true),
            Item::Interface(_) => (Statement::InterfaceDef(InterfaceHandle { id }), false),
            Item::Iterator(_) => (Statement::IteratorDef(IteratorHandle { id }), false),
            Item::Class(_) => (Statement::ClassDecl(ClassDeclarationHandle { id }), true),
            Item::Function(_) => (Statement::NativeFunctionDef(NativeFunctionHandle { id }), false),
        };
        proof {
            lemma_declare(self@, item@);
        }
        let ghost want = self@.declare(item@);
        self.lib.statements.push(stmt);
        self.lib.decls.push(
            Declaration { declared_at: at, defined_at: if two_phase {
                None
            } else {
                Some(at)
            }, item },
        );
        assert(self@.decls =~= want.decls);
        assert(self@.statements =~= want.statements);
        id
    }

    pub(crate) fn set_definition(&mut self, id: usize, item: Item)
        requires
            old(self).inv(),
            old(self)@.body_fits(id as int, item@),
            old(self)@.has_room(1),
        ensures
            final(self)@ == old(self)@.define(id as int, item@),
            final(self).inv(),
            old(self)@.extended_by(final(self)@),
    {
        let at = self.lib.statements.len();
        let stmt = match &item {
            Item::Struct(_) => Statement::StructDef(NativeStructHandle { id }),
            _ => Statement::ClassDef(ClassHandle { id }),
        };
        proof {
            lemma_define(self@, id as int, item@);
        }
        let ghost want = self@.define(id as int, item@);
        let declared_at = self.lib.decls[id].declared_at;
        self.lib.statements.push(stmt);
        self.lib.decls.set(id, Declaration { declared_at, defined_at: Some(at), item });
        assert(self@.decls =~= want.decls);
        assert(self@.statements =~= want.statements);
    }

    /// Declares a class: reserves its name and yields the handle by which
    /// types refer to it.
    pub fn declare_class(&mut self, name: &str) -> (r: Result<ClassDeclarationHandle, BindingError>)
        requires
            old(self).inv(),
            old(self)@.has_room(1),
        ensures
            final(self).inv(),
            old(self)@.name_used(name@) <==> r is Err,
            old(self)@.extended_by(final(self)@),
            r matches Err(e) ==> e == BindingError::NameAlreadyUsed && final(self)@ == old(self)@,
            r matches Ok(h) ==> h.id == old(self)@.decls.len() && final(self)@ == old(
                self,
            )@.declare(ItemView::Class(declared_class(name@))),
    {
        let name = String::from_str(name);
        if self.is_name_used(&name) {
            return Err(BindingError::NameAlreadyUsed);
        }
        let class = Class { name, destructor: None, constructors: Vec::new(), methods: Vec::new() };
        assert(class@.constructors =~= Seq::empty());
        assert(class@.methods =~= Seq::empty());
        let item = Item::Class(class);
        let id = self.add_declaration(item);
        Ok(ClassDeclarationHandle { id })
    }

    /// Declares a structure: reserves its name and yields the handle by which
    /// types refer to it as an opaque value.
    pub fn declare_native_struct(&mut self, name: &str) -> (r: Result<
        NativeStructDeclarationHandle,
        BindingError,
    >)
        requires
            old(self).inv(),
            old(self)@.has_room(1),
        ensures
            final(self).inv(),
            old(self)@.name_used(name@) <==> r is Err,
            old(self)@.extended_by(final(self)@),
            r matches Err(e) ==> e == BindingError::NameAlreadyUsed && final(self)@ == old(self)@,
            r matches Ok(h) ==> h.id == old(self)@.decls.len() && final(self)@ == old(
                self,
            )@.declare(ItemView::Struct(declared_struct(name@))),
    {
        let name = String::from_str(name);
        if self.is_name_used(&name) {
            return Err(BindingError::NameAlreadyUsed);
        }
        let structure = NativeStruct { name, fields: Vec::new() };
        assert(structure@.fields =~= Seq::empty());
        let item = Item::Struct(structure);
        let id = self.add_declaration(item);
        Ok(NativeStructDeclarationHandle { id })
    }

    /// Finishes the library. Succeeds when every declared class was defined.
    pub fn build(self) -> (r: Result<Library, BindingError>)
        requires
            self.inv(),
        ensures
            r is Ok <==> self@.all_classes_defined(),
            r matches Ok(l) ==> l@ == self@ && l@.wf(),
            r matches Err(e) ==> e == BindingError::ClassNotDefined,
    {
        let mut i: usize = 0;
        while i < self.lib.decls.len()
            invariant
                i <= self.lib.decls.len(),
                forall|k: int|
                    0 <= k < i ==> ((#[trigger] self@.decls[k]).item is Class
                        ==> self@.decls[k].defined_at is Some),
            decreases self.lib.decls.len() - i,
        {
            if let Item::Class(_) = &self.lib.decls[i].item {
                if self.lib.decls[i].defined_at.is_none() {
                    assert(self@.decls[i as int].item is Class);
                    return Err(BindingError::ClassNotDefined);
                }
            }
            i += 1;
        }
        Ok(self.lib)
    }
}

/// A class as its declaration leaves it: a name and no members.
pub open spec fn declared_class(name: Text) -> ClassView {
    ClassView {
        name,
        destructor: None,
        constructors: Seq::empty(),
        methods: Seq::empty(),
    }
}

/// A structure as its declaration leaves it: a name and no fields.
pub open spec fn declared_struct(name: Text) -> NativeStructView {
    NativeStructView { name, fields: Seq::empty() }
}

} // verus!
