use oo_bindgen::builder::{BindingError, LibraryBuilder};
use oo_bindgen::model::{CallbackFunction, Item, Statement, Version};
use oo_bindgen::types::{
    ClassDeclarationHandle, ConversionKind, DurationMapping, NativeFunctionHandle,
    NativeStructDeclarationHandle, NativeStructHandle, ReturnType, Type,
};

fn builder() -> LibraryBuilder {
    LibraryBuilder::new("foo", Version::new(1, 2, 3))
}

#[test]
fn new_library_is_empty() {
    let lib = builder().build().unwrap();
    assert_eq!(lib.name, "foo");
    assert_eq!(lib.version, Version { major: 1, minor: 2, patch: 3 });
    assert!(lib.statements.is_empty());
    assert!(lib.decls.is_empty());
    assert!(lib.license.is_empty());
}

#[test]
fn description_and_license_are_kept() {
    let mut b = builder();
    b.description("Foo is an interesting lib").unwrap();
    b.license(vec!["foo v1.2.3".to_string(), "".to_string(), "line".to_string()]).unwrap();
    let lib = b.build().unwrap();
    assert_eq!(lib.description, "Foo is an interesting lib");
    assert_eq!(lib.license, vec!["foo v1.2.3", "", "line"]);
}

#[test]
fn enum_variants_keep_their_order() {
    let mut b = builder();
    let h = b
        .define_native_enum("Color")
        .unwrap()
        .push("Red", "r")
        .unwrap()
        .push("Green", "g")
        .unwrap()
        .push("Blue", "b")
        .unwrap()
        .doc("colors")
        .unwrap()
        .build()
        .unwrap();
    assert_eq!(h.id, 0);
    let lib = b.build().unwrap();
    assert_eq!(lib.statements, vec![Statement::EnumDef(h)]);
    match &lib.decls[0].item {
        Item::Enum(e) => {
            let names: Vec<&str> = e.variants.iter().map(|v| v.name.as_str()).collect();
            assert_eq!(names, vec!["Red", "Green", "Blue"]);
            assert_eq!(e.doc, "colors");
            assert_eq!(e.name, "Color");
        }
        _ => panic!("not an enum"),
    }
}

#[test]
fn empty_enum_is_refused() {
    let mut b = builder();
    let r = b.define_native_enum("Nothing").unwrap().build();
    assert_eq!(r, Err(BindingError::EmptyEnum));
    assert_eq!(b.decl_count(), 0);
}

#[test]
fn duplicate_variant_is_refused() {
    let mut b = builder();
    let r = b.define_native_enum("Color").unwrap().push("Red", "").unwrap().push("Red", "");
    assert!(matches!(r, Err(BindingError::DuplicateVariant)));
    assert_eq!(b.decl_count(), 0);
}

#[test]
fn name_is_unique_across_kinds() {
    let mut b = builder();
    b.declare_class("Thing").unwrap();
    assert_eq!(b.declare_class("Thing"), Err(BindingError::NameAlreadyUsed));
    assert_eq!(b.declare_native_struct("Thing"), Err(BindingError::NameAlreadyUsed));
    assert!(matches!(b.define_native_enum("Thing"), Err(BindingError::NameAlreadyUsed)));
    assert!(matches!(b.declare_native_function("Thing"), Err(BindingError::NameAlreadyUsed)));
    assert!(matches!(b.define_interface("Thing"), Err(BindingError::NameAlreadyUsed)));
    assert_eq!(b.decl_count(), 1);
}

#[test]
fn undeclared_class_used_in_method() {
    let mut b = builder();
    let ghost_class = ClassDeclarationHandle { id: 7 };
    let r = b.declare_native_function("thing_echo").unwrap().param(
        "thing",
        Type::ClassRef(ghost_class),
        "receiver",
    );
    assert!(matches!(r, Err(BindingError::UnknownReference(7))));
    assert_eq!(b.decl_count(), 0);
}

#[test]
fn unknown_return_type_is_refused() {
    let mut b = builder();
    let r = b
        .declare_native_function("f")
        .unwrap()
        .return_type(ReturnType::new(Type::Struct(NativeStructHandle { id: 3 })));
    assert!(matches!(r, Err(BindingError::UnknownReference(3))));
}

#[test]
fn duplicate_parameter_is_refused() {
    let mut b = builder();
    let r = b
        .declare_native_function("f")
        .unwrap()
        .param("a", Type::Bool, "")
        .unwrap()
        .param("a", Type::Uint8, "");
    assert!(matches!(r, Err(BindingError::DuplicateField)));
}

#[test]
fn struct_fields_are_checked() {
    let mut b = builder();
    let decl = b.declare_native_struct("Item").unwrap();
    let r = b.define_native_struct(&decl).unwrap().add("index", Type::Uint16).unwrap().add(
        "index",
        Type::Uint32,
    );
    assert!(matches!(r, Err(BindingError::DuplicateField)));
    let r = b
        .define_native_struct(&decl)
        .unwrap()
        .add("inner", Type::Struct(NativeStructHandle { id: decl.id }));
    assert!(matches!(r, Err(BindingError::RecursiveStruct)));
    let r = b
        .define_native_struct(&decl)
        .unwrap()
        .add("other", Type::Struct(NativeStructHandle { id: 40 }));
    assert!(matches!(r, Err(BindingError::UnknownReference(40))));
    let r = b.define_native_struct(&NativeStructDeclarationHandle { id: 9 });
    assert!(matches!(r, Err(BindingError::UnknownReference(9))));
    let h = b
        .define_native_struct(&decl)
        .unwrap()
        .add("index", Type::Uint16)
        .unwrap()
        .add("value", Type::Uint32)
        .unwrap()
        .add("again", Type::StructRef(decl))
        .unwrap()
        .build();
    assert_eq!(h.id, decl.id);
    assert!(matches!(b.define_native_struct(&decl), Err(BindingError::NameAlreadyUsed)));
    let lib = b.build().unwrap();
    assert_eq!(lib.statements, vec![Statement::StructDecl(decl), Statement::StructDef(h)]);
    assert_eq!(lib.decls[0].declared_at, 0);
    assert_eq!(lib.decls[0].defined_at, Some(1));
}

fn string_class(b: &mut LibraryBuilder) -> (ClassDeclarationHandle, [NativeFunctionHandle; 3]) {
    let class = b.declare_class("StringClass").unwrap();
    let new = b
        .declare_native_function("string_new")
        .unwrap()
        .return_type(ReturnType::new(Type::ClassRef(class)))
        .unwrap()
        .build()
        .unwrap();
    let destroy = b
        .declare_native_function("string_destroy")
        .unwrap()
        .param("string", Type::ClassRef(class), "")
        .unwrap()
        .build()
        .unwrap();
    let echo = b
        .declare_native_function("string_echo")
        .unwrap()
        .param("string", Type::ClassRef(class), "")
        .unwrap()
        .param("value", Type::String, "")
        .unwrap()
        .return_type(ReturnType::new(Type::String))
        .unwrap()
        .build()
        .unwrap();
    (class, [new, destroy, echo])
}

#[test]
fn opaque_class_with_echo_method() {
    let mut b = builder();
    let (class, [new, destroy, echo]) = string_class(&mut b);
    let defined = b
        .define_class(&class)
        .unwrap()
        .constructor(&new)
        .unwrap()
        .destructor(&destroy)
        .unwrap()
        .method("Echo", &echo)
        .unwrap()
        .build();
    assert_eq!(defined.id, class.id);
    let lib = b.build().unwrap();
    assert_eq!(
        lib.statements,
        vec![
            Statement::ClassDecl(class),
            Statement::NativeFunctionDef(new),
            Statement::NativeFunctionDef(destroy),
            Statement::NativeFunctionDef(echo),
            Statement::ClassDef(defined),
        ]
    );
    match &lib.decls[class.id].item {
        Item::Class(c) => {
            assert_eq!(c.destructor, Some(destroy));
            assert_eq!(c.constructors, vec![new]);
            assert_eq!(c.methods.len(), 1);
            assert_eq!(c.methods[0].name, "Echo");
            assert_eq!(c.methods[0].native_function, echo);
        }
        _ => panic!("not a class"),
    }
    assert_eq!(lib.decls[class.id].declared_at, 0);
    assert_eq!(lib.decls[class.id].defined_at, Some(4));
}

#[test]
fn class_members_are_checked() {
    let mut b = builder();
    let (class, [new, destroy, echo]) = string_class(&mut b);
    let other = b.declare_class("Other").unwrap();
    assert!(matches!(
        b.define_class(&class).unwrap().destructor(&echo),
        Err(BindingError::BadDestructorSignature)
    ));
    assert!(matches!(
        b.define_class(&class).unwrap().destructor(&destroy).unwrap().destructor(&destroy),
        Err(BindingError::BadDestructorSignature)
    ));
    assert!(matches!(
        b.define_class(&class).unwrap().constructor(&destroy),
        Err(BindingError::BadConstructorReturn)
    ));
    assert!(matches!(
        b.define_class(&class).unwrap().method("New", &new),
        Err(BindingError::BadMethodReceiver)
    ));
    assert!(matches!(
        b.define_class(&other).unwrap().method("Echo", &echo),
        Err(BindingError::BadMethodReceiver)
    ));
    assert!(matches!(
        b.define_class(&class).unwrap().method("Nothing", &NativeFunctionHandle { id: 99 }),
        Err(BindingError::UnknownReference(99))
    ));
    assert!(matches!(
        b.define_class(&class).unwrap().method("Class", &NativeFunctionHandle { id: class.id }),
        Err(BindingError::UnknownReference(0))
    ));
    assert!(matches!(
        b.define_class(&ClassDeclarationHandle { id: new.id }),
        Err(BindingError::UnknownReference(1))
    ));
}

#[test]
fn class_is_defined_once() {
    let mut b = builder();
    let class = b.declare_class("Thing").unwrap();
    b.define_class(&class).unwrap().build();
    assert!(matches!(b.define_class(&class), Err(BindingError::ClassAlreadyDefined)));
    assert!(b.build().is_ok());
}

#[test]
fn declared_class_must_be_defined() {
    let mut b = builder();
    b.declare_class("Thing").unwrap();
    assert!(matches!(b.build(), Err(BindingError::ClassNotDefined)));
}

fn on_change(state: Type) -> CallbackFunction {
    CallbackFunction::new("on_change", "called when the state changes")
        .param("value", state, "new state")
        .arg("arg")
}

#[test]
fn interface_round_trip() {
    let mut b = builder();
    let state =
        b.define_native_enum("State").unwrap().push("On", "").unwrap().build().unwrap();
    let h = b
        .define_interface("Listener")
        .unwrap()
        .callback(on_change(Type::Enum(state)))
        .unwrap()
        .destroy("on_destroy")
        .unwrap()
        .arg("arg")
        .unwrap()
        .build()
        .unwrap();
    let lib = b.build().unwrap();
    assert_eq!(lib.statements[1], Statement::InterfaceDef(h));
    match &lib.decls[h.id].item {
        Item::Interface(i) => {
            assert_eq!(i.elements.len(), 3);
            assert_eq!(i.arg_name, "arg");
            assert_eq!(i.destroy_name, "on_destroy");
            assert_eq!(i.name, "Listener");
        }
        _ => panic!("not an interface"),
    }
}

#[test]
fn interface_shape_is_checked() {
    let mut b = builder();
    let cb = || on_change(Type::Bool);
    assert!(matches!(
        b.define_interface("A").unwrap().callback(cb()).unwrap().arg("arg").unwrap().build(),
        Err(BindingError::BadInterfaceShape)
    ));
    assert!(matches!(
        b.define_interface("A")
            .unwrap()
            .callback(cb())
            .unwrap()
            .destroy("on_destroy")
            .unwrap()
            .build(),
        Err(BindingError::BadInterfaceShape)
    ));
    assert!(matches!(
        b.define_interface("A").unwrap().destroy("d").unwrap().arg("arg").unwrap().build(),
        Err(BindingError::BadInterfaceShape)
    ));
    assert!(matches!(
        b.define_interface("A").unwrap().arg("arg").unwrap().arg("arg"),
        Err(BindingError::BadInterfaceShape)
    ));
    assert!(matches!(
        b.define_interface("A").unwrap().destroy("d").unwrap().destroy("e"),
        Err(BindingError::BadInterfaceShape)
    ));
    let without_arg = CallbackFunction::new("cb", "").param("x", Type::Bool, "");
    assert!(matches!(
        b.define_interface("A").unwrap().callback(without_arg),
        Err(BindingError::BadInterfaceShape)
    ));
    assert!(matches!(
        b.define_interface("A")
            .unwrap()
            .callback(cb())
            .unwrap()
            .destroy("d")
            .unwrap()
            .arg("data")
            .unwrap()
            .build(),
        Err(BindingError::BadInterfaceShape)
    ));
    let unknown = on_change(Type::Enum(oo_bindgen::types::NativeEnumHandle { id: 5 }));
    assert!(matches!(
        b.define_interface("A").unwrap().callback(unknown),
        Err(BindingError::UnknownReference(5))
    ));
    assert_eq!(b.decl_count(), 0);
}

#[test]
fn iterator_definition() {
    let mut b = builder();
    let decl = b.declare_native_struct("Item").unwrap();
    let item = b
        .define_native_struct(&decl)
        .unwrap()
        .add("index", Type::Uint16)
        .unwrap()
        .add("value", Type::Uint32)
        .unwrap()
        .build();
    let state = b.declare_class("ItemIterState").unwrap();
    b.define_class(&state).unwrap().build();
    let next = b
        .declare_native_function("item_next")
        .unwrap()
        .param("it", Type::ClassRef(state), "")
        .unwrap()
        .return_type(ReturnType::new(Type::StructRef(decl)))
        .unwrap()
        .build()
        .unwrap();
    let bad_return = b
        .declare_native_function("item_count")
        .unwrap()
        .param("it", Type::ClassRef(state), "")
        .unwrap()
        .return_type(ReturnType::new(Type::Uint32))
        .unwrap()
        .build()
        .unwrap();
    let bad_param = b
        .declare_native_function("item_first")
        .unwrap()
        .return_type(ReturnType::new(Type::StructRef(decl)))
        .unwrap()
        .build()
        .unwrap();
    assert_eq!(b.define_iterator("Item", &next, &item), Err(BindingError::NameAlreadyUsed));
    assert_eq!(
        b.define_iterator("ItemIter", &NativeFunctionHandle { id: 77 }, &item),
        Err(BindingError::UnknownReference(77))
    );
    assert_eq!(
        b.define_iterator("ItemIter", &next, &NativeStructHandle { id: next.id }),
        Err(BindingError::UnknownReference(next.id))
    );
    assert_eq!(
        b.define_iterator("ItemIter", &bad_return, &item),
        Err(BindingError::BadConstructorReturn)
    );
    assert_eq!(
        b.define_iterator("ItemIter", &bad_param, &item),
        Err(BindingError::BadMethodReceiver)
    );
    let it = b.define_iterator("ItemIter", &next, &item).unwrap();
    let f = b
        .declare_native_function("items")
        .unwrap()
        .return_type(ReturnType::new(Type::Iterator(it)))
        .unwrap()
        .build();
    assert!(f.is_ok());
    let lib = b.build().unwrap();
    assert_eq!(lib.statements[lib.decls[it.id].declared_at], Statement::IteratorDef(it));
}

#[test]
fn type_predicates() {
    let plain = [
        Type::Bool,
        Type::Uint8,
        Type::Sint8,
        Type::Uint16,
        Type::Sint16,
        Type::Uint32,
        Type::Sint32,
        Type::Uint64,
        Type::Sint64,
        Type::Float,
        Type::Double,
    ];
    for t in plain {
        assert!(t.is_primitive());
        assert!(!t.requires_marshalling());
        assert_eq!(t.conversion_kind(), ConversionKind::Identity);
        assert_eq!(t.referenced(), None);
    }
    assert!(Type::String.is_primitive());
    assert!(Type::String.requires_marshalling());
    assert_eq!(Type::String.conversion_kind(), ConversionKind::String);
    let d = Type::Duration(DurationMapping::Millis);
    assert!(d.is_primitive());
    assert!(d.requires_marshalling());
    assert_eq!(d.conversion_kind(), ConversionKind::Duration);
    let h = 4;
    let named = [
        (Type::Enum(oo_bindgen::types::NativeEnumHandle { id: h }), ConversionKind::EnumIntegral),
        (Type::Struct(NativeStructHandle { id: h }), ConversionKind::StructByValue),
        (Type::StructRef(NativeStructDeclarationHandle { id: h }), ConversionKind::ValueBoxing),
        (Type::ClassRef(ClassDeclarationHandle { id: h }), ConversionKind::ClassHandle),
        (
            Type::Interface(oo_bindgen::types::InterfaceHandle { id: h }),
            ConversionKind::InterfaceAdapter,
        ),
        (
            Type::Iterator(oo_bindgen::types::IteratorHandle { id: h }),
            ConversionKind::IteratorAdapter,
        ),
    ];
    for (t, kind) in named {
        assert!(!t.is_primitive());
        assert!(t.requires_marshalling());
        assert_eq!(t.conversion_kind(), kind);
        assert_eq!(t.referenced(), Some(4));
    }
    assert_eq!(ReturnType::void(), ReturnType::Void);
}

#[test]
fn statements_point_at_their_declarations() {
    let mut b = builder();
    let (class, [new, destroy, echo]) = string_class(&mut b);
    b.define_class(&class)
        .unwrap()
        .constructor(&new)
        .unwrap()
        .destructor(&destroy)
        .unwrap()
        .method("Echo", &echo)
        .unwrap()
        .build();
    let lib = b.build().unwrap();
    for (id, decl) in lib.decls.iter().enumerate() {
        assert!(decl.declared_at < lib.statements.len());
        let defined = decl.defined_at.unwrap();
        assert!(decl.declared_at <= defined);
        for other in lib.decls.iter().skip(id + 1) {
            assert_ne!(decl.item.name(), other.item.name());
        }
    }
    for (s, st) in lib.statements.iter().enumerate() {
        for later in lib.statements.iter().skip(s + 1) {
            assert_ne!(st, later);
        }
    }
}
