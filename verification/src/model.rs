//! The definitions that a library is made of, and their mathematical views.
//!
//! Every executable type has a view in which strings are sequences of
//! characters and vectors are sequences of views. Contracts are stated over
//! the views.

use vstd::prelude::*;
use crate::types::{
    ClassDeclarationHandle, ClassHandle, InterfaceHandle, IteratorHandle, NativeEnumHandle,
    NativeFunctionHandle, NativeStructDeclarationHandle, NativeStructHandle, ReturnType, Type,
};

verus! {

/// Text as it appears in contracts.
pub type Text = Seq<char>;

/// One variant of an enumeration. Its integer value is its position.
pub struct EnumVariant {
    pub name: String,
    pub doc: String,
}

pub struct EnumVariantView {
    pub name: Text,
    pub doc: Text,
}

impl View for EnumVariant {
    type V = EnumVariantView;

    open spec fn view(&self) -> EnumVariantView {
        EnumVariantView { name: self.name@, doc: self.doc@ }
    }
}

pub struct NativeEnum {
    pub name: String,
    pub variants: Vec<EnumVariant>,
    pub doc: String,
}

pub struct NativeEnumView {
    pub name: Text,
    pub variants: Seq<EnumVariantView>,
    pub doc: Text,
}

impl View for NativeEnum {
    type V = NativeEnumView;

    open spec fn view(&self) -> NativeEnumView {
        NativeEnumView {
            name: self.name@,
            variants: self.variants@.map_values(|v: EnumVariant| v@),
            doc: self.doc@,
        }
    }
}

pub struct StructField {
    pub name: String,
    pub field_type: Type,
    pub doc: String,
}

pub struct StructFieldView {
    pub name: Text,
    pub field_type: Type,
    pub doc: Text,
}

impl View for StructField {
    type V = StructFieldView;

    open spec fn view(&self) -> StructFieldView {
        StructFieldView { name: self.name@, field_type: self.field_type, doc: self.doc@ }
    }
}

/// A structure. Until it is defined it has no fields.
pub struct NativeStruct {
    pub name: String,
    pub fields: Vec<StructField>,
}

pub struct NativeStructView {
    pub name: Text,
    pub fields: Seq<StructFieldView>,
}

impl View for NativeStruct {
    type V = NativeStructView;

    open spec fn view(&self) -> NativeStructView {
        NativeStructView {
            name: self.name@,
            fields: self.fields@.map_values(|f: StructField| f@),
        }
    }
}

pub struct Parameter {
    pub name: String,
    pub param_type: Type,
    pub doc: String,
}

pub struct ParameterView {
    pub name: Text,
    pub param_type: Type,
    pub doc: Text,
}

impl View for Parameter {
    type V = ParameterView;

    open spec fn view(&self) -> ParameterView {
        ParameterView { name: self.name@, param_type: self.param_type, doc: self.doc@ }
    }
}

pub struct NativeFunction {
    pub name: String,
    pub return_type: ReturnType,
    pub parameters: Vec<Parameter>,
    pub doc: String,
}

pub struct NativeFunctionView {
    pub name: Text,
    pub return_type: ReturnType,
    pub parameters: Seq<ParameterView>,
    pub doc: Text,
}

impl View for NativeFunction {
    type V = NativeFunctionView;

    open spec fn view(&self) -> NativeFunctionView {
        NativeFunctionView {
            name: self.name@,
            return_type: self.return_type,
            parameters: self.parameters@.map_values(|p: Parameter| p@),
            doc: self.doc@,
        }
    }
}

/// A parameter of a callback: the opaque user-data slot, or a typed value.
pub enum CallbackParameter {
    Arg(String),
    Parameter(Parameter),
}

pub enum CallbackParameterView {
    Arg(Text),
    Parameter(ParameterView),
}

impl View for CallbackParameter {
    type V = CallbackParameterView;

    open spec fn view(&self) -> CallbackParameterView {
        match self {
            CallbackParameter::Arg(name) => CallbackParameterView::Arg(name@),
            CallbackParameter::Parameter(p) => CallbackParameterView::Parameter(p@),
        }
    }
}

pub struct CallbackFunction {
    pub name: String,
    pub return_type: ReturnType,
    pub parameters: Vec<CallbackParameter>,
    /// Name of the parameter that carries the user-data slot.
    pub arg_name: String,
    pub doc: String,
}

pub struct CallbackFunctionView {
    pub name: Text,
    pub return_type: ReturnType,
    pub parameters: Seq<CallbackParameterView>,
    pub arg_name: Text,
    pub doc: Text,
}

impl View for CallbackFunction {
    type V = CallbackFunctionView;

    open spec fn view(&self) -> CallbackFunctionView {
        CallbackFunctionView {
            name: self.name@,
            return_type: self.return_type,
            parameters: self.parameters@.map_values(|p: CallbackParameter| p@),
            arg_name: self.arg_name@,
            doc: self.doc@,
        }
    }
}

pub enum InterfaceElement {
    Arg(String),
    DestroyFunction(String),
    CallbackFunction(CallbackFunction),
}

pub enum InterfaceElementView {
    Arg(Text),
    DestroyFunction(Text),
    CallbackFunction(CallbackFunctionView),
}

impl View for InterfaceElement {
    type V = InterfaceElementView;

    open spec fn view(&self) -> InterfaceElementView {
        match self {
            InterfaceElement::Arg(name) => InterfaceElementView::Arg(name@),
            InterfaceElement::DestroyFunction(name) => InterfaceElementView::DestroyFunction(name@),
            InterfaceElement::CallbackFunction(f) => InterfaceElementView::CallbackFunction(f@),
        }
    }
}

pub struct Interface {
    pub name: String,
    pub elements: Vec<InterfaceElement>,
    pub arg_name: String,
    pub destroy_name: String,
    pub doc: String,
}

pub struct InterfaceView {
    pub name: Text,
    pub elements: Seq<InterfaceElementView>,
    pub arg_name: Text,
    pub destroy_name: Text,
    pub doc: Text,
}

impl View for Interface {
    type V = InterfaceView;

    open spec fn view(&self) -> InterfaceView {
        InterfaceView {
            name: self.name@,
            elements: self.elements@.map_values(|e: InterfaceElement| e@),
            arg_name: self.arg_name@,
            destroy_name: self.destroy_name@,
            doc: self.doc@,
        }
    }
}

/// An iterator over items of one structure, advanced by a native function.
pub struct IteratorDef {
    pub name: String,
    pub native_func: NativeFunctionHandle,
    pub item_type: NativeStructHandle,
}

pub struct IteratorDefView {
    pub name: Text,
    pub native_func: NativeFunctionHandle,
    pub item_type: NativeStructHandle,
}

impl View for IteratorDef {
    type V = IteratorDefView;

    open spec fn view(&self) -> IteratorDefView {
        IteratorDefView {
            name: self.name@,
            native_func: self.native_func,
            item_type: self.item_type,
        }
    }
}

pub struct Method {
    pub name: String,
    pub native_function: NativeFunctionHandle,
}

pub struct MethodView {
    pub name: Text,
    pub native_function: NativeFunctionHandle,
}

impl View for Method {
    type V = MethodView;

    open spec fn view(&self) -> MethodView {
        MethodView { name: self.name@, native_function: self.native_function }
    }
}

/// A class. Until it is defined it has no members.
pub struct Class {
    pub name: String,
    pub destructor: Option<NativeFunctionHandle>,
    pub constructors: Vec<NativeFunctionHandle>,
    pub methods: Vec<Method>,
}

pub struct ClassView {
    pub name: Text,
    pub destructor: Option<NativeFunctionHandle>,
    pub constructors: Seq<NativeFunctionHandle>,
    pub methods: Seq<MethodView>,
}

impl View for Class {
    type V = ClassView;

    open spec fn view(&self) -> ClassView {
        ClassView {
            name: self.name@,
            destructor: self.destructor,
            constructors: self.constructors@,
            methods: self.methods@.map_values(|m: Method| m@),
        }
    }
}

pub enum Item {
    Enum(NativeEnum),
    Struct(NativeStruct),
    Interface(Interface),
    Iterator(IteratorDef),
    Class(Class),
    Function(NativeFunction),
}

pub enum ItemView {
    Enum(NativeEnumView),
    Struct(NativeStructView),
    Interface(InterfaceView),
    Iterator(IteratorDefView),
    Class(ClassView),
    Function(NativeFunctionView),
}

impl View for Item {
    type V = ItemView;

    open spec fn view(&self) -> ItemView {
        match self {
            Item::Enum(e) => ItemView::Enum(e@),
            Item::Struct(s) => ItemView::Struct(s@),
            Item::Interface(i) => ItemView::Interface(i@),
            Item::Iterator(i) => ItemView::Iterator(i@),
            Item::Class(c) => ItemView::Class(c@),
            Item::Function(f) => ItemView::Function(f@),
        }
    }
}

impl Item {
    /// The top-level name that the item occupies.
    pub fn name(&self) -> (r: &String)
        ensures
            r@ == self@.name(),
    {
        match self {
            Item::Enum(e) => &e.name,
            Item::Struct(s) => &s.name,
            Item::Interface(i) => &i.name,
            Item::Iterator(i) => &i.name,
            Item::Class(c) => &c.name,
            Item::Function(f) => &f.name,
        }
    }
}

impl ItemView {
    /// The top-level name that the item occupies.
    pub open spec fn name(self) -> Text {
        match self {
            ItemView::Enum(e) => e.name,
            ItemView::Struct(s) => s.name,
            ItemView::Interface(i) => i.name,
            ItemView::Iterator(i) => i.name,
            ItemView::Class(c) => c.name,
            ItemView::Function(f) => f.name,
        }
    }
}

/// One entry of a library's table of declarations. A handle's `id` is the
/// entry's position in the table.
pub struct Declaration {
    /// Position of the statement that introduced the name.
    pub declared_at: usize,
    /// Position of the statement that gave the body, once there is one.
    pub defined_at: Option<usize>,
    pub item: Item,
}

pub struct DeclarationView {
    pub declared_at: usize,
    pub defined_at: Option<usize>,
    pub item: ItemView,
}

impl View for Declaration {
    type V = DeclarationView;

    open spec fn view(&self) -> DeclarationView {
        DeclarationView {
            declared_at: self.declared_at,
            defined_at: self.defined_at,
            item: self.item@,
        }
    }
}

/// A top-level item of a library, in emission order.
#[derive(Clone, Copy, Debug, PartialEq, Eq, Structural)]
pub enum Statement {
    EnumDef(NativeEnumHandle),
    StructDecl(NativeStructDeclarationHandle),
    StructDef(NativeStructHandle),
    InterfaceDef(InterfaceHandle),
    IteratorDef(IteratorHandle),
    ClassDecl(ClassDeclarationHandle),
    ClassDef(ClassHandle),
    NativeFunctionDef(NativeFunctionHandle),
}

impl Statement {
    /// Position in the table of declarations of the item that the statement
    /// is about.
    pub open spec fn id(self) -> usize {
        match self {
            Statement::EnumDef(h) => h.id,
            Statement::StructDecl(h) => h.id,
            Statement::StructDef(h) => h.id,
            Statement::InterfaceDef(h) => h.id,
            Statement::IteratorDef(h) => h.id,
            Statement::ClassDecl(h) => h.id,
            Statement::ClassDef(h) => h.id,
            Statement::NativeFunctionDef(h) => h.id,
        }
    }
}

/// A semantic version.
#[derive(Clone, Copy, Debug, PartialEq, Eq, Structural)]
pub struct Version {
    pub major: u64,
    pub minor: u64,
    pub patch: u64,
}

impl Version {
    pub fn new(major: u64, minor: u64, patch: u64) -> (v: Version)
        ensures
            v == (Version { major, minor, patch }),
    {
        Version { major, minor, patch }
    }
}

/// The views of the elements of a vector, in order.
pub open spec fn views<T: View>(s: Seq<T>) -> Seq<T::V> {
    s.map_values(|x: T| x@)
}

/// The texts of a vector of strings, in order.
pub open spec fn texts(s: Seq<String>) -> Seq<Text> {
    s.map_values(|x: String| x@)
}

} // verus!
