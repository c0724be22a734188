use oo_bindgen::builder::LibraryBuilder;
use oo_bindgen::c_header::{decimal, generate_c_header};
use oo_bindgen::dotnet_interface::{call_dotnet_function, generate, FormattingError};
use oo_bindgen::formatting::{concat3, indentation, print_license, Printer};
use oo_bindgen::library::Library;
use oo_bindgen::model::{CallbackFunction, Item, Version};
use oo_bindgen::types::{DurationMapping, InterfaceHandle, ReturnType, Type};

fn license() -> Vec<String> {
    vec!["foo v1.2.3".to_string(), "".to_string(), "This is my custom license.".to_string()]
}

fn header_of(lib: &Library) -> Vec<String> {
    let mut f = Printer::new();
    generate_c_header(&mut f, lib);
    f.lines().clone()
}

const PROLOGUE: [&str; 9] = [
    "#pragma once",
    "",
    "#include <stdbool.h>",
    "#include <stdint.h>",
    "",
    "#ifdef __cplusplus",
    "extern \"C\" {",
    "#endif",
    "",
];

const EPILOGUE: [&str; 3] = ["#ifdef __cplusplus", "}", "#endif"];

fn framed(license: &[&str], body: &[&str]) -> Vec<String> {
    let mut all: Vec<String> = license.iter().map(|l| l.to_string()).collect();
    all.extend(PROLOGUE.iter().map(|l| l.to_string()));
    all.extend(body.iter().map(|l| l.to_string()));
    all.extend(EPILOGUE.iter().map(|l| l.to_string()));
    all
}

#[test]
fn printer_primitives() {
    let mut f = Printer::new();
    f.writeln("a");
    f.begin_block();
    f.writeln("b");
    f.write("c");
    f.write("d");
    f.newline();
    f.newline();
    f.begin_block();
    assert_eq!(f.depth(), 2);
    f.writeln("e");
    f.end_block();
    f.end_block_with(" x;");
    f.write("tail");
    assert_eq!(f.depth(), 0);
    assert_eq!(
        f.lines(),
        &vec!["a", "{", "    b", "cd", "", "    {", "        e", "    }", "} x;"]
    );
    assert_eq!(f.text(), "a\n{\n    b\ncd\n\n    {\n        e\n    }\n} x;\ntail");
}

#[test]
fn write_then_writeln_share_a_line() {
    let mut f = Printer::new();
    f.begin_block();
    f.write("x = ");
    f.writeln("1;");
    assert_eq!(f.lines(), &vec!["{", "x =     1;"]);
}

#[test]
fn string_helpers() {
    assert_eq!(oo_bindgen::formatting::concat("ab", "cd"), "abcd");
    assert_eq!(concat3("a", "", "c"), "ac");
    assert_eq!(indentation(0), "");
    assert_eq!(indentation(3), "            ");
    assert_eq!(decimal(0), "0");
    assert_eq!(decimal(9), "9");
    assert_eq!(decimal(10), "10");
    assert_eq!(decimal(4096), "4096");
    assert_eq!(decimal(usize::MAX), usize::MAX.to_string());
}

#[test]
fn license_is_a_block_of_comments() {
    let mut f = Printer::new();
    print_license(&mut f, &license());
    assert_eq!(f.lines(), &vec!["// foo v1.2.3", "// ", "// This is my custom license."]);
}

#[test]
fn empty_library() {
    let mut b = LibraryBuilder::new("foo", Version::new(1, 2, 3));
    b.license(license()).unwrap();
    let lib = b.build().unwrap();
    let header = header_of(&lib);
    assert_eq!(
        header,
        framed(&["// foo v1.2.3", "// ", "// This is my custom license."], &[])
    );
    assert!(header.iter().all(|l| !l.ends_with(");")));
}

#[test]
fn single_enum() {
    let mut b = LibraryBuilder::new("foo", Version::new(1, 2, 3));
    b.define_native_enum("Color")
        .unwrap()
        .push("Red", "")
        .unwrap()
        .push("Green", "")
        .unwrap()
        .push("Blue", "")
        .unwrap()
        .build()
        .unwrap();
    let lib = b.build().unwrap();
    assert_eq!(
        header_of(&lib),
        framed(
            &[],
            &[
                "typedef enum Color",
                "{",
                "    Color_Red = 0,",
                "    Color_Green = 1,",
                "    Color_Blue = 2,",
                "} Color;",
                "",
            ]
        )
    );
}

fn sample() -> (Library, InterfaceHandle) {
    let mut b = LibraryBuilder::new("foo", Version::new(1, 2, 3));
    b.license(vec!["foo v1.2.3".to_string()]).unwrap();
    let state = b
        .define_native_enum("State")
        .unwrap()
        .push("Off", "")
        .unwrap()
        .push("On", "")
        .unwrap()
        .build()
        .unwrap();
    let listener = b
        .define_interface("Listener")
        .unwrap()
        .callback(
            CallbackFunction::new("on_change", "").param("value", Type::Enum(state), "").arg("arg"),
        )
        .unwrap()
        .destroy("on_destroy")
        .unwrap()
        .arg("arg")
        .unwrap()
        .build()
        .unwrap();
    let class = b.declare_class("StringClass").unwrap();
    let new = b
        .declare_native_function("string_new")
        .unwrap()
        .return_type(ReturnType::new(Type::ClassRef(class)))
        .unwrap()
        .build()
        .unwrap();
    let destroy = b
        .declare_native_function("string_destroy")
        .unwrap()
        .param("string", Type::ClassRef(class), "")
        .unwrap()
        .build()
        .unwrap();
    let echo = b
        .declare_native_function("string_echo")
        .unwrap()
        .param("string", Type::ClassRef(class), "")
        .unwrap()
        .param("value", Type::String, "")
        .unwrap()
        .return_type(ReturnType::new(Type::String))
        .unwrap()
        .build()
        .unwrap();
    b.define_class(&class)
        .unwrap()
        .constructor(&new)
        .unwrap()
        .destructor(&destroy)
        .unwrap()
        .method("Echo", &echo)
        .unwrap()
        .build();
    let decl = b.declare_native_struct("Item").unwrap();
    let item = b
        .define_native_struct(&decl)
        .unwrap()
        .add("index", Type::Uint16)
        .unwrap()
        .add("value", Type::Uint32)
        .unwrap()
        .add("state", Type::Enum(state))
        .unwrap()
        .add("timeout", Type::Duration(DurationMapping::SecondsFloat))
        .unwrap()
        .add("listener", Type::Interface(listener))
        .unwrap()
        .build();
    let state_class = b.declare_class("ItemIterState").unwrap();
    b.define_class(&state_class).unwrap().build();
    let next = b
        .declare_native_function("item_next")
        .unwrap()
        .param("it", Type::ClassRef(state_class), "")
        .unwrap()
        .return_type(ReturnType::new(Type::StructRef(decl)))
        .unwrap()
        .build()
        .unwrap();
    let it = b.define_iterator("ItemIter", &next, &item).unwrap();
    b.declare_native_function("item_scan")
        .unwrap()
        .param("items", Type::Iterator(it), "")
        .unwrap()
        .param("first", Type::Struct(item), "")
        .unwrap()
        .param("on", Type::Bool, "")
        .unwrap()
        .return_type(ReturnType::new(Type::Sint64))
        .unwrap()
        .build()
        .unwrap();
    (b.build().unwrap(), listener)
}

#[test]
fn header_keeps_statement_order() {
    let (lib, _) = sample();
    assert_eq!(
        header_of(&lib),
        framed(
            &["// foo v1.2.3"],
            &[
                "typedef enum State",
                "{",
                "    State_Off = 0,",
                "    State_On = 1,",
                "} State;",
                "",
                "typedef struct ListenerInterface",
                "{",
                "    void (*on_change)(int value, void* arg);",
                "    void (*on_destroy)(void* arg);",
                "    void* arg;",
                "} ListenerInterface;",
                "",
                "typedef struct StringClass StringClass;",
                "",
                "struct StringClass* string_new();",
                "",
                "void string_destroy(struct StringClass* string);",
                "",
                "const char* string_echo(struct StringClass* string, const char* value);",
                "",
                "typedef struct Item Item;",
                "",
                "struct Item",
                "{",
                "    uint16_t index;",
                "    uint32_t value;",
                "    int state;",
                "    uint64_t timeout;",
                "    struct ListenerInterface listener;",
                "};",
                "",
                "typedef struct ItemIterState ItemIterState;",
                "",
                "Item* item_next(struct ItemIterState* it);",
                "",
                "typedef struct ItemIterIterator ItemIterIterator;",
                "",
                "int64_t item_scan(struct ItemIterIterator* items, struct Item first, bool on);",
                "",
            ]
        )
    );
}

#[test]
fn header_is_the_same_each_time() {
    let (lib, _) = sample();
    assert_eq!(header_of(&lib), header_of(&lib));
    let (again, _) = sample();
    assert_eq!(header_of(&lib), header_of(&again));
}

#[test]
fn interface_file() {
    let (lib, listener) = sample();
    let mut f = Printer::new();
    assert_eq!(generate(&mut f, &listener, &lib), Ok(()));
    assert_eq!(f.depth(), 0);
    let expected = vec![
        "// foo v1.2.3",
        "using System;",
        "using System.Runtime.InteropServices;",
        "",
        "namespace foo",
        "{",
        "    public interface Listener",
        "    {",
        "        void on_change(State value);",
        "    }",
        "",
        "    [StructLayout(LayoutKind.Sequential)]",
        "    internal struct ListenerNativeAdapter",
        "    {",
        "        private delegate void on_change_delegate(State value, IntPtr arg);",
        "        private delegate void on_destroy_delegate(IntPtr arg);",
        "",
        "        private on_change_delegate on_change;",
        "        private on_destroy_delegate on_destroy;",
        "        private IntPtr arg;",
        "",
        "        internal ListenerNativeAdapter(Listener impl)",
        "        {",
        "            var inner = new InnerData();",
        "            inner.impl = impl;",
        "",
        "            this.on_change = ListenerNativeAdapter.on_change_cb;",
        "",
        "            this.on_destroy = ListenerNativeAdapter.on_destroy_cb;",
        "",
        "            this.arg = Marshal.AllocHGlobal(Marshal.SizeOf(inner));",
        "            Marshal.StructureToPtr(inner, this.arg, false);",
        "",
        "        }",
        "        internal static void on_change_cb(State value, IntPtr arg)",
        "        {",
        "            var _inner = Marshal.PtrToStructure<InnerData>(arg);",
        "",
        "            _inner.impl.on_change(value);",
        "        }",
        "",
        "        internal static void on_destroy_cb(IntPtr arg)",
        "        {",
        "            Marshal.DestroyStructure<InnerData>(arg);",
        "            Marshal.FreeHGlobal(arg);",
        "        }",
        "",
        "        [StructLayout(LayoutKind.Sequential)]",
        "        internal struct InnerData",
        "        {",
        "            public Listener impl;",
        "        }",
        "    }",
        "}",
    ];
    assert_eq!(f.lines(), &expected);
    let pointers = f.lines().iter().filter(|l| l.starts_with("        private ") && l.contains("_delegate on_")).count();
    let slots = f.lines().iter().filter(|l| l.starts_with("        private IntPtr ")).count();
    assert_eq!(pointers, 2);
    assert_eq!(slots, 1);
}

#[test]
fn interface_file_is_the_same_each_time() {
    let (lib, listener) = sample();
    let mut first = Printer::new();
    generate(&mut first, &listener, &lib).unwrap();
    let mut second = Printer::new();
    generate(&mut second, &listener, &lib).unwrap();
    assert_eq!(first.text(), second.text());
}

#[test]
fn handle_of_another_kind_is_refused() {
    let (lib, _) = sample();
    let mut f = Printer::new();
    assert_eq!(
        generate(&mut f, &InterfaceHandle { id: 0 }, &lib),
        Err(FormattingError::NotAnInterface(0))
    );
    assert_eq!(
        generate(&mut f, &InterfaceHandle { id: 1000 }, &lib),
        Err(FormattingError::NotAnInterface(1000))
    );
    assert!(f.lines().is_empty());
}

#[test]
fn call_converts_parameters_and_result() {
    let (lib, listener) = sample();
    let class = match lib.decls.iter().position(|d| d.item.name() == "StringClass") {
        Some(id) => oo_bindgen::types::ClassDeclarationHandle { id },
        None => panic!("no class"),
    };
    let cb = CallbackFunction::new("lookup", "")
        .param("key", Type::String, "")
        .param("count", Type::Uint32, "")
        .param("wait", Type::Duration(DurationMapping::Millis), "")
        .arg("ctx")
        .param("owner", Type::ClassRef(class), "")
        .return_type(ReturnType::new(Type::String));
    let mut f = Printer::new();
    f.begin_block();
    assert_eq!(call_dotnet_function(&mut f, &lib, &cb, "return "), Ok(()));
    assert_eq!(
        f.lines(),
        &vec![
            "{",
            "    var _key = Marshal.PtrToStringUTF8(key);",
            "    var _wait = TimeSpan.FromMilliseconds(wait);",
            "    var _owner = new StringClass(owner);",
            "",
            "    var _result = _inner.impl.lookup(_key, count, _wait, _owner);",
            "    return Marshal.StringToCoTaskMemUTF8(_result);",
        ]
    );
    let plain = CallbackFunction::new("count", "")
        .arg("ctx")
        .return_type(ReturnType::new(Type::Uint8));
    let mut g = Printer::new();
    call_dotnet_function(&mut g, &lib, &plain, "return ").unwrap();
    assert_eq!(g.lines(), &vec!["", "return _inner.impl.count();"]);
    let _ = listener;
    match &lib.decls[listener.id].item {
        Item::Interface(i) => assert_eq!(i.elements.len(), 3),
        _ => panic!("not an interface"),
    }
}

#[test]
fn same_schema_same_library() {
    let (first, _) = sample();
    let (second, _) = sample();
    assert!(first.same_as(&second));
    assert!(first.same_as(&first));
    let mut b = LibraryBuilder::new("foo", Version::new(1, 2, 3));
    b.license(vec!["foo v1.2.3".to_string()]).unwrap();
    let other = b.build().unwrap();
    assert!(!first.same_as(&other));
    assert!(!other.same_as(&first));
    let mut b = LibraryBuilder::new("foo", Version::new(1, 2, 4));
    b.license(vec!["foo v1.2.3".to_string()]).unwrap();
    assert!(!other.same_as(&b.build().unwrap()));
    let mut b = LibraryBuilder::new("foo", Version::new(1, 2, 3));
    b.license(vec!["foo v1.2.4".to_string()]).unwrap();
    assert!(!other.same_as(&b.build().unwrap()));
}

#[test]
fn libraries_differ_by_one_name() {
    let build = |variant: &str| {
        let mut b = LibraryBuilder::new("foo", Version::new(1, 2, 3));
        b.define_native_enum("Color").unwrap().push("Red", "").unwrap().push(variant, "").unwrap().build().unwrap();
        b.build().unwrap()
    };
    assert!(build("Green").same_as(&build("Green")));
    assert!(!build("Green").same_as(&build("Blue")));
}
