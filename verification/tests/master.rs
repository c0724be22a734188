use oo_bindgen::builder::{BindingError, LibraryBuilder};
use oo_bindgen::doc::DocBuilder;
use oo_bindgen::master_schema::define;
use oo_bindgen::model::{CallbackFunction, Item, Statement, Version};
use oo_bindgen::types::{
    ClassDeclarationHandle, ClassHandle, InterfaceHandle, NativeEnumHandle, NativeFunctionHandle,
    NativeStructDeclarationHandle, NativeStructHandle, ReturnType, Type,
};

struct Ready {
    builder: LibraryBuilder,
    master: ClassDeclarationHandle,
    handler: InterfaceHandle,
    level: NativeEnumHandle,
}

fn ready() -> Ready {
    let mut builder = LibraryBuilder::new("dnp3", Version::new(0, 1, 0));
    let master = builder.declare_class("Master").unwrap();
    let level = builder
        .define_native_enum("DecodeLogLevel")
        .unwrap()
        .push("Nothing", "")
        .unwrap()
        .push("Header", "")
        .unwrap()
        .build()
        .unwrap();
    let handler = builder
        .define_interface("ReadHandler")
        .unwrap()
        .callback(CallbackFunction::new("begin_fragment", "").arg("arg"))
        .unwrap()
        .destroy("on_destroy")
        .unwrap()
        .arg("arg")
        .unwrap()
        .build()
        .unwrap();
    Ready { builder, master, handler, level }
}

#[test]
fn master_schema_is_added_in_order() {
    let Ready { mut builder, master, handler, level } = ready();
    let association = define(&mut builder, master, handler, level).unwrap();
    assert_eq!(association.id, 4);
    let undefined = builder.define_class(&association);
    assert!(undefined.is_ok());
    undefined.unwrap().build();
    let lib = builder.build().unwrap();
    assert_eq!(
        lib.statements[3..],
        [
            Statement::NativeFunctionDef(NativeFunctionHandle { id: 3 }),
            Statement::ClassDecl(ClassDeclarationHandle { id: 4 }),
            Statement::StructDecl(NativeStructDeclarationHandle { id: 5 }),
            Statement::StructDef(NativeStructHandle { id: 5 }),
            Statement::EnumDef(NativeEnumHandle { id: 6 }),
            Statement::StructDecl(NativeStructDeclarationHandle { id: 7 }),
            Statement::StructDef(NativeStructHandle { id: 7 }),
            Statement::StructDecl(NativeStructDeclarationHandle { id: 8 }),
            Statement::StructDef(NativeStructHandle { id: 8 }),
            Statement::NativeFunctionDef(NativeFunctionHandle { id: 9 }),
            Statement::NativeFunctionDef(NativeFunctionHandle { id: 10 }),
            Statement::ClassDef(ClassHandle { id: 0 }),
            Statement::ClassDef(ClassHandle { id: 4 }),
        ]
    );
    let names: Vec<&str> = lib.decls.iter().map(|d| d.item.name().as_str()).collect();
    assert_eq!(
        names,
        vec![
            "Master",
            "DecodeLogLevel",
            "ReadHandler",
            "master_destroy",
            "Association",
            "EventClasses",
            "AutoTimeSync",
            "AssociationConfiguration",
            "AssociationHandlers",
            "master_add_association",
            "master_set_decode_log_level",
        ]
    );
    match &lib.decls[0].item {
        Item::Class(c) => {
            assert_eq!(c.destructor, Some(NativeFunctionHandle { id: 3 }));
            assert!(c.constructors.is_empty());
            let methods: Vec<(&str, usize)> =
                c.methods.iter().map(|m| (m.name.as_str(), m.native_function.id)).collect();
            assert_eq!(methods, vec![("AddAssociation", 9), ("SetDecodeLogLevel", 10)]);
        }
        _ => panic!("not a class"),
    }
    match &lib.decls[3].item {
        Item::Function(f) => {
            assert_eq!(
                f.doc,
                "Remove and destroy a master.\n@warning This method must NOT be called from within the tokio runtime"
            );
            assert_eq!(f.return_type, ReturnType::Void);
            assert_eq!(f.parameters.len(), 1);
            assert_eq!(f.parameters[0].param_type, Type::ClassRef(master));
        }
        _ => panic!("not a function"),
    }
    match &lib.decls[7].item {
        Item::Struct(s) => {
            let fields: Vec<(&str, Type)> =
                s.fields.iter().map(|f| (f.name.as_str(), f.field_type)).collect();
            assert_eq!(
                fields,
                vec![
                    ("disable_unsol_classes", Type::Struct(NativeStructHandle { id: 5 })),
                    ("enable_unsol_classes", Type::Struct(NativeStructHandle { id: 5 })),
                    ("auto_time_sync", Type::Enum(NativeEnumHandle { id: 6 })),
                ]
            );
        }
        _ => panic!("not a struct"),
    }
    match &lib.decls[9].item {
        Item::Function(f) => {
            assert_eq!(f.return_type, ReturnType::Type(Type::ClassRef(association)));
            let params: Vec<&str> = f.parameters.iter().map(|p| p.name.as_str()).collect();
            assert_eq!(params, vec!["master", "address", "config", "handlers"]);
        }
        _ => panic!("not a function"),
    }
}

#[test]
fn master_schema_obstacles() {
    let Ready { mut builder, handler, level, .. } = ready();
    assert_eq!(
        define(&mut builder, ClassDeclarationHandle { id: 50 }, handler, level),
        Err(BindingError::UnknownReference(50))
    );
    assert_eq!(builder.decl_count(), 3);

    let Ready { mut builder, master, level, .. } = ready();
    assert_eq!(
        define(&mut builder, master, InterfaceHandle { id: 1 }, level),
        Err(BindingError::UnknownReference(1))
    );
    assert_eq!(builder.decl_count(), 9);

    let Ready { mut builder, master, handler, .. } = ready();
    assert_eq!(
        define(&mut builder, master, handler, NativeEnumHandle { id: 2 }),
        Err(BindingError::UnknownReference(2))
    );

    let Ready { mut builder, master, handler, .. } = ready();
    assert!(define(&mut builder, master, handler, NativeEnumHandle { id: 6 }).is_ok());

    let Ready { mut builder, master, handler, level } = ready();
    builder.declare_native_struct("AssociationHandlers").unwrap();
    assert_eq!(define(&mut builder, master, handler, level), Err(BindingError::NameAlreadyUsed));

    let Ready { mut builder, master, handler, level } = ready();
    builder.define_class(&master).unwrap().build();
    assert_eq!(
        define(&mut builder, master, handler, level),
        Err(BindingError::ClassAlreadyDefined)
    );

    let Ready { mut builder, master, handler, level } = ready();
    define(&mut builder, master, handler, level).unwrap();
    assert_eq!(define(&mut builder, master, handler, level), Err(BindingError::NameAlreadyUsed));
}

#[test]
fn documentation_text() {
    assert_eq!(DocBuilder::new().build(), "");
    assert_eq!(DocBuilder::new().text("a").text("b").build(), "ab");
    assert_eq!(DocBuilder::new().text("a").warn("w").build(), "a\n@warning w");
}
