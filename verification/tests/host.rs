use oo_bindgen::builder::LibraryBuilder;
use oo_bindgen::dotnet_class::{generate_class, generate_enum};
use oo_bindgen::dotnet_interface::FormattingError;
use oo_bindgen::formatting::Printer;
use oo_bindgen::model::Version;
use oo_bindgen::types::{
    ClassDeclarationHandle, DurationMapping, NativeEnumHandle, ReturnType, Type,
};

#[test]
fn host_enum_keeps_variants_in_order() {
    let mut b = LibraryBuilder::new("foo", Version::new(1, 2, 3));
    b.license(vec!["foo v1.2.3".to_string()]).unwrap();
    let color = b
        .define_native_enum("Color")
        .unwrap()
        .push("Red", "")
        .unwrap()
        .push("Green", "")
        .unwrap()
        .push("Blue", "")
        .unwrap()
        .build()
        .unwrap();
    let lib = b.build().unwrap();
    let mut f = Printer::new();
    assert_eq!(generate_enum(&mut f, &color, &lib), Ok(()));
    assert_eq!(
        f.lines(),
        &vec![
            "// foo v1.2.3",
            "namespace foo",
            "{",
            "    public enum Color",
            "    {",
            "        Red = 0,",
            "        Green = 1,",
            "        Blue = 2,",
            "    }",
            "}",
        ]
    );
    let mut g = Printer::new();
    assert_eq!(
        generate_enum(&mut g, &NativeEnumHandle { id: 3 }, &lib),
        Err(FormattingError::NotAnEnum(3))
    );
    assert_eq!(
        generate_class(&mut g, &ClassDeclarationHandle { id: 0 }, &lib),
        Err(FormattingError::NotAClass(0))
    );
    assert!(g.lines().is_empty());
}

#[test]
fn host_class_with_echo_method() {
    let mut b = LibraryBuilder::new("foo", Version::new(1, 2, 3));
    let class = b.declare_class("StringClass").unwrap();
    let new = b
        .declare_native_function("string_new")
        .unwrap()
        .return_type(ReturnType::new(Type::ClassRef(class)))
        .unwrap()
        .build()
        .unwrap();
    let destroy = b
        .declare_native_function("string_destroy")
        .unwrap()
        .param("string", Type::ClassRef(class), "")
        .unwrap()
        .build()
        .unwrap();
    let echo = b
        .declare_native_function("string_echo")
        .unwrap()
        .param("string", Type::ClassRef(class), "")
        .unwrap()
        .param("value", Type::String, "")
        .unwrap()
        .return_type(ReturnType::new(Type::String))
        .unwrap()
        .build()
        .unwrap();
    b.define_class(&class)
        .unwrap()
        .constructor(&new)
        .unwrap()
        .destructor(&destroy)
        .unwrap()
        .method("Echo", &echo)
        .unwrap()
        .build();
    let lib = b.build().unwrap();
    let mut f = Printer::new();
    assert_eq!(generate_class(&mut f, &class, &lib), Ok(()));
    assert_eq!(f.depth(), 0);
    assert_eq!(
        f.lines(),
        &vec![
            "using System;",
            "using System.Runtime.InteropServices;",
            "",
            "namespace foo",
            "{",
            "    public class StringClass : IDisposable",
            "    {",
            "        internal readonly IntPtr self;",
            "        private bool disposed = false;",
            "",
            "        internal StringClass(IntPtr self)",
            "        {",
            "            this.self = self;",
            "        }",
            "",
            "        public StringClass()",
            "        {",
            "            this.self = NativeFunctions.string_new();",
            "        }",
            "",
            "        public void Dispose()",
            "        {",
            "            if (this.disposed)",
            "            {",
            "                return;",
            "            }",
            "            this.disposed = true;",
            "            NativeFunctions.string_destroy(this.self);",
            "        }",
            "",
            "        public string Echo(string value)",
            "        {",
            "            var _value = Marshal.StringToCoTaskMemUTF8(value);",
            "            var _result = NativeFunctions.string_echo(this.self, _value);",
            "            return Marshal.PtrToStringUTF8(_result);",
            "        }",
            "",
            "    }",
            "}",
        ]
    );
}

#[test]
fn host_class_without_destructor() {
    let mut b = LibraryBuilder::new("foo", Version::new(1, 2, 3));
    let class = b.declare_class("Clock").unwrap();
    let make = b
        .declare_native_function("clock_new")
        .unwrap()
        .param("period", Type::Duration(DurationMapping::Seconds), "")
        .unwrap()
        .param("ticks", Type::Uint32, "")
        .unwrap()
        .return_type(ReturnType::new(Type::ClassRef(class)))
        .unwrap()
        .build()
        .unwrap();
    let ticks = b
        .declare_native_function("clock_ticks")
        .unwrap()
        .param("clock", Type::ClassRef(class), "")
        .unwrap()
        .return_type(ReturnType::new(Type::Uint64))
        .unwrap()
        .build()
        .unwrap();
    let reset = b
        .declare_native_function("clock_reset")
        .unwrap()
        .param("clock", Type::ClassRef(class), "")
        .unwrap()
        .param("to", Type::Uint64, "")
        .unwrap()
        .param("other", Type::ClassRef(class), "")
        .unwrap()
        .build()
        .unwrap();
    b.define_class(&class)
        .unwrap()
        .constructor(&make)
        .unwrap()
        .method("Ticks", &ticks)
        .unwrap()
        .method("Reset", &reset)
        .unwrap()
        .build();
    let lib = b.build().unwrap();
    let mut f = Printer::new();
    generate_class(&mut f, &class, &lib).unwrap();
    let lines = f.lines();
    assert_eq!(lines[5], "    public class Clock");
    assert_eq!(
        lines[15..],
        [
            "        public Clock(TimeSpan period, uint ticks)",
            "        {",
            "            var _period = (ulong)period.TotalSeconds;",
            "            this.self = NativeFunctions.clock_new(_period, ticks);",
            "        }",
            "",
            "        public ulong Ticks()",
            "        {",
            "            return NativeFunctions.clock_ticks(this.self);",
            "        }",
            "",
            "        public void Reset(ulong to, Clock other)",
            "        {",
            "            var _other = other.self;",
            "            NativeFunctions.clock_reset(this.self, to, _other);",
            "        }",
            "",
            "    }",
            "}",
        ]
    );
}

fn items() -> (
    oo_bindgen::library::Library,
    oo_bindgen::types::NativeStructHandle,
    oo_bindgen::types::IteratorHandle,
) {
    let mut b = LibraryBuilder::new("foo", Version::new(1, 2, 3));
    let decl = b.declare_native_struct("Item").unwrap();
    let item = b
        .define_native_struct(&decl)
        .unwrap()
        .add("index", Type::Uint16)
        .unwrap()
        .add("name", Type::String)
        .unwrap()
        .build();
    let state = b.declare_class("ItemIterState").unwrap();
    b.define_class(&state).unwrap().build();
    let next = b
        .declare_native_function("item_next")
        .unwrap()
        .param("it", Type::ClassRef(state), "")
        .unwrap()
        .return_type(ReturnType::new(Type::StructRef(decl)))
        .unwrap()
        .build()
        .unwrap();
    let it = b.define_iterator("ItemIter", &next, &item).unwrap();
    (b.build().unwrap(), item, it)
}

#[test]
fn host_struct_keeps_field_order() {
    let (lib, item, _) = items();
    let mut f = Printer::new();
    assert_eq!(oo_bindgen::dotnet_struct::generate_struct(&mut f, &item, &lib), Ok(()));
    assert_eq!(f.depth(), 0);
    assert_eq!(
        f.lines(),
        &vec![
            "using System;",
            "using System.Runtime.InteropServices;",
            "",
            "namespace foo",
            "{",
            "    public class Item",
            "    {",
            "        public ushort index;",
            "        public string name;",
            "    }",
            "",
            "    [StructLayout(LayoutKind.Sequential)]",
            "    internal struct ItemNative",
            "    {",
            "        ushort index;",
            "        IntPtr name;",
            "",
            "        internal static ItemNative ToNative(Item self)",
            "        {",
            "            ItemNative result;",
            "            result.index = self.index;",
            "            result.name = Marshal.StringToCoTaskMemUTF8(self.name);",
            "            return result;",
            "        }",
            "",
            "        internal static Item FromNative(ItemNative native)",
            "        {",
            "            Item result = new Item();",
            "            result.index = native.index;",
            "            result.name = Marshal.PtrToStringUTF8(native.name);",
            "            return result;",
            "        }",
            "",
            "        internal static Item FromNativeRef(IntPtr native)",
            "        {",
            "            if (native == IntPtr.Zero)",
            "            {",
            "                return null;",
            "            }",
            "            return FromNative(Marshal.PtrToStructure<ItemNative>(native));",
            "        }",
            "",
            "        internal static IntPtr ToNativeRef(Item self)",
            "        {",
            "            if (self == null)",
            "            {",
            "                return IntPtr.Zero;",
            "            }",
            "            var handle = Marshal.AllocHGlobal(Marshal.SizeOf<ItemNative>());",
            "            Marshal.StructureToPtr(ToNative(self), handle, false);",
            "            return handle;",
            "        }",
            "    }",
            "}",
        ]
    );
    let mut g = Printer::new();
    assert_eq!(
        oo_bindgen::dotnet_struct::generate_struct(
            &mut g,
            &oo_bindgen::types::NativeStructHandle { id: 1 },
            &lib
        ),
        Err(FormattingError::NotAStruct(1))
    );
    assert!(g.lines().is_empty());
}

#[test]
fn host_iterator_stops_at_null() {
    let (lib, _, it) = items();
    let mut f = Printer::new();
    assert_eq!(oo_bindgen::dotnet_struct::generate_iterator(&mut f, &it, &lib), Ok(()));
    assert_eq!(
        f.lines(),
        &vec![
            "using System;",
            "",
            "namespace foo",
            "{",
            "    internal static class ItemIteratorHelpers",
            "    {",
            "        internal static System.Collections.Generic.ICollection<Item> FromNative(IntPtr value)",
            "        {",
            "            var items = new System.Collections.Generic.List<Item>();",
            "            for (var item = NativeFunctions.item_next(value); item != IntPtr.Zero; item = NativeFunctions.item_next(value))",
            "            {",
            "                items.Add(ItemNative.FromNativeRef(item));",
            "            }",
            "            return items;",
            "        }",
            "    }",
            "}",
        ]
    );
    let mut g = Printer::new();
    assert_eq!(
        oo_bindgen::dotnet_struct::generate_iterator(
            &mut g,
            &oo_bindgen::types::IteratorHandle { id: 0 },
            &lib
        ),
        Err(FormattingError::NotAnIterator(0))
    );
}
