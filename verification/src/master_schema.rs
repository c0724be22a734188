//! The schema of a DNP3 master: its destructor, the configuration of an
//! association, and the class that ties them together.

use vstd::prelude::*;
use crate::types::{
    ClassDeclarationHandle, InterfaceHandle, NativeEnumHandle, NativeFunctionHandle,
    NativeStructHandle, ReturnType, Type,
};
use crate::model::{
    ClassView, EnumVariantView, ItemView, MethodView, NativeEnumView, NativeFunctionView,
    NativeStructView, ParameterView, StructFieldView, Text,
};
use crate::library::LibraryView;
use crate::builder::{BindingError, LibraryBuilder, declared_class, declared_struct};
use crate::doc::{DocBuilder, warning_mark};
use crate::dotnet_types::name_of;
use crate::frame::{lemma_extended_trans, lemma_used_declare, lemma_used_define};

verus! {

/// The function that destroys a master.
pub open spec fn destroy_function(master: ClassDeclarationHandle) -> NativeFunctionView {
    NativeFunctionView {
        name: "master_destroy"@,
        return_type: ReturnType::Void,
        parameters: Seq::empty().push(
            ParameterView {
                name: "master"@,
                param_type: Type::ClassRef(master),
                doc: "Master to destroy"@,
            },
        ),
        doc: Seq::<char>::empty() + "Remove and destroy a master."@ + warning_mark()
            + "This method must NOT be called from within the tokio runtime"@,
    }
}

/// The event classes of an outstation, one flag each.
pub open spec fn event_classes_view() -> NativeStructView {
    NativeStructView {
        name: "EventClasses"@,
        fields: Seq::empty().push(
            StructFieldView { name: "class1"@, field_type: Type::Bool, doc: Seq::empty() },
        ).push(
            StructFieldView { name: "class2"@, field_type: Type::Bool, doc: Seq::empty() },
        ).push(StructFieldView { name: "class3"@, field_type: Type::Bool, doc: Seq::empty() }),
    }
}

/// How an association synchronizes the outstation's clock.
pub open spec fn auto_time_sync_view() -> NativeEnumView {
    NativeEnumView {
        name: "AutoTimeSync"@,
        variants: Seq::empty().push(
            EnumVariantView { name: "None"@, doc: "Do not perform automatic timesync"@ },
        ).push(
            EnumVariantView {
                name: "LAN"@,
                doc: "Perform automatic timesync with Record Current Time (0x18) function code"@,
            },
        ).push(
            EnumVariantView {
                name: "NonLAN"@,
                doc: "Perform automatic timesync with Delay Measurement (0x17) function code"@,
            },
        ),
        doc: "Automatic time synchronization configuration"@,
    }
}

/// The configuration of an association.
pub open spec fn association_configuration_view(
    event_classes: NativeStructHandle,
    auto_time_sync: NativeEnumHandle,
) -> NativeStructView {
    NativeStructView {
        name: "AssociationConfiguration"@,
        fields: Seq::empty().push(
            StructFieldView {
                name: "disable_unsol_classes"@,
                field_type: Type::Struct(event_classes),
                doc: Seq::empty(),
            },
        ).push(
            StructFieldView {
                name: "enable_unsol_classes"@,
                field_type: Type::Struct(event_classes),
                doc: Seq::empty(),
            },
        ).push(
            StructFieldView {
                name: "auto_time_sync"@,
                field_type: Type::Enum(auto_time_sync),
                doc: Seq::empty(),
            },
        ),
    }
}

/// The handlers that receive the data of an association.
pub open spec fn association_handlers_view(read_handler: InterfaceHandle) -> NativeStructView {
    NativeStructView {
        name: "AssociationHandlers"@,
        fields: Seq::empty().push(
            StructFieldView {
                name: "integrity_handler"@,
                field_type: Type::Interface(read_handler),
                doc: Seq::empty(),
            },
        ).push(
            StructFieldView {
                name: "unsolicited_handler"@,
                field_type: Type::Interface(read_handler),
                doc: Seq::empty(),
            },
        ).push(
            StructFieldView {
                name: "default_poll_handler"@,
                field_type: Type::Interface(read_handler),
                doc: Seq::empty(),
            },
        ),
    }
}

/// The function that adds an association to a master.
pub open spec fn add_association_function(
    master: ClassDeclarationHandle,
    configuration: NativeStructHandle,
    handlers: NativeStructHandle,
    association: ClassDeclarationHandle,
) -> NativeFunctionView {
    NativeFunctionView {
        name: "master_add_association"@,
        return_type: ReturnType::Type(Type::ClassRef(association)),
        parameters: Seq::empty().push(
            ParameterView {
                name: "master"@,
                param_type: Type::ClassRef(master),
                doc: "Master to add the association to"@,
            },
        ).push(
            ParameterView {
                name: "address"@,
                param_type: Type::Uint16,
                doc: "DNP3 data-link address of the remote outstation"@,
            },
        ).push(
            ParameterView {
                name: "config"@,
                param_type: Type::Struct(configuration),
                doc: "Association configuration"@,
            },
        ).push(
            ParameterView {
                name: "handlers"@,
                param_type: Type::Struct(handlers),
                doc: "Handlers to call when receiving point data"@,
            },
        ),
        doc: "Add an association to the master"@,
    }
}

/// The function that sets the level at which a master logs what it decodes.
pub open spec fn set_decode_log_level_function(
    master: ClassDeclarationHandle,
    level: NativeEnumHandle,
) -> NativeFunctionView {
    NativeFunctionView {
        name: "master_set_decode_log_level"@,
        return_type: ReturnType::Void,
        parameters: Seq::empty().push(
            ParameterView {
                name: "master"@,
                param_type: Type::ClassRef(master),
                doc: "Master to modify"@,
            },
        ).push(
            ParameterView { name: "level"@, param_type: Type::Enum(level), doc: "Decode log level"@ },
        ),
        doc: "Set the master decoding level for log messages"@,
    }
}

/// The body of the master class.
pub open spec fn master_body(
    name: Text,
    destroy: NativeFunctionHandle,
    add_association: NativeFunctionHandle,
    set_decode_log_level: NativeFunctionHandle,
) -> ClassView {
    ClassView {
        name,
        destructor: Some(destroy),
        constructors: Seq::empty(),
        methods: Seq::empty().push(
            MethodView { name: "AddAssociation"@, native_function: add_association },
        ).push(MethodView { name: "SetDecodeLogLevel"@, native_function: set_decode_log_level }),
    }
}

/// The library after the first `k` of the twelve additions that make the
/// schema of the master, each of which adds one statement: the function that
/// destroys a master, the class of an association, the event classes and
/// their fields, the kinds of time synchronization, the configuration of an
/// association and its fields, the handlers of an association and their
/// fields, the two functions that become methods, and the body of the master
/// class.
pub open spec fn master_schema_prefix(
    lib: LibraryView,
    master: ClassDeclarationHandle,
    read_handler: InterfaceHandle,
    level: NativeEnumHandle,
    k: nat,
) -> LibraryView
    decreases k,
{
    if k == 0 {
        lib
    } else {
        let before = master_schema_prefix(lib, master, read_handler, level, (k - 1) as nat);
        let n = lib.decls.len() as usize;
        let destroy = NativeFunctionHandle { id: n };
        let association = ClassDeclarationHandle { id: (n + 1) as usize };
        let classes = NativeStructHandle { id: (n + 2) as usize };
        let sync = NativeEnumHandle { id: (n + 3) as usize };
        let configuration = NativeStructHandle { id: (n + 4) as usize };
        let handlers = NativeStructHandle { id: (n + 5) as usize };
        let add = NativeFunctionHandle { id: (n + 6) as usize };
        let set = NativeFunctionHandle { id: (n + 7) as usize };
        if k == 1 {
            before.declare(ItemView::Function(destroy_function(master)))
        } else if k == 2 {
            before.declare(ItemView::Class(declared_class("Association"@)))
        } else if k == 3 {
            before.declare(ItemView::Struct(declared_struct("EventClasses"@)))
        } else if k == 4 {
            before.define(classes.id as int, ItemView::Struct(event_classes_view()))
        } else if k == 5 {
            before.declare(ItemView::Enum(auto_time_sync_view()))
        } else if k == 6 {
            before.declare(ItemView::Struct(declared_struct("AssociationConfiguration"@)))
        } else if k == 7 {
            before.define(
                configuration.id as int,
                ItemView::Struct(association_configuration_view(classes, sync)),
            )
        } else if k == 8 {
            before.declare(ItemView::Struct(declared_struct("AssociationHandlers"@)))
        } else if k == 9 {
            before.define(
                handlers.id as int,
                ItemView::Struct(association_handlers_view(read_handler)),
            )
        } else if k == 10 {
            before.declare(
                ItemView::Function(
                    add_association_function(master, configuration, handlers, association),
                ),
            )
        } else if k == 11 {
            before.declare(ItemView::Function(set_decode_log_level_function(master, level)))
        } else if k == 12 {
            before.define(
                master.id as int,
                ItemView::Class(master_body(name_of(lib, master.id), destroy, add, set)),
            )
        } else {
            before
        }
    }
}

/// The library after the schema of the master was added to it: eight
/// declarations and twelve statements more.
pub open spec fn master_schema(
    lib: LibraryView,
    master: ClassDeclarationHandle,
    read_handler: InterfaceHandle,
    level: NativeEnumHandle,
) -> LibraryView {
    master_schema_prefix(lib, master, read_handler, level, 12)
}

/// What stops the schema of the master, if anything does: a name it needs is
/// taken, a handle names nothing of the right kind, or the master class
/// already has its body. With the first obstacle met comes the number of
/// additions made before it.
pub open spec fn master_schema_obstacle(
    lib: LibraryView,
    master: ClassDeclarationHandle,
    read_handler: InterfaceHandle,
    level: NativeEnumHandle,
) -> Option<(nat, BindingError)> {
    if lib.name_used("master_destroy"@) {
        Some((0nat, BindingError::NameAlreadyUsed))
    } else if !lib.is_class(master.id) {
        Some((0nat, BindingError::UnknownReference(master.id)))
    } else if lib.name_used("Association"@) {
        Some((1nat, BindingError::NameAlreadyUsed))
    } else if lib.name_used("EventClasses"@) {
        Some((2nat, BindingError::NameAlreadyUsed))
    } else if lib.name_used("AutoTimeSync"@) {
        Some((4nat, BindingError::NameAlreadyUsed))
    } else if lib.name_used("AssociationConfiguration"@) {
        Some((5nat, BindingError::NameAlreadyUsed))
    } else if lib.name_used("AssociationHandlers"@) {
        Some((7nat, BindingError::NameAlreadyUsed))
    } else if !lib.is_interface(read_handler.id) {
        Some((8nat, BindingError::UnknownReference(read_handler.id)))
    } else if lib.name_used("master_add_association"@) {
        Some((9nat, BindingError::NameAlreadyUsed))
    } else if lib.name_used("master_set_decode_log_level"@) {
        Some((10nat, BindingError::NameAlreadyUsed))
    } else if !lib.is_enum(level.id) && level.id != lib.decls.len() + 3 {
        Some((10nat, BindingError::UnknownReference(level.id)))
    } else if lib.is_defined_class(master.id) {
        Some((11nat, BindingError::ClassAlreadyDefined))
    } else {
        None
    }
}

/// The names that the schema takes differ from one another.
proof fn lemma_names_differ()
    ensures
        "master_destroy"@ != "Association"@,
        "master_destroy"@ != "EventClasses"@,
        "master_destroy"@ != "AutoTimeSync"@,
        "master_destroy"@ != "AssociationConfiguration"@,
        "master_destroy"@ != "AssociationHandlers"@,
        "master_destroy"@ != "master_add_association"@,
        "master_destroy"@ != "master_set_decode_log_level"@,
        "Association"@ != "EventClasses"@,
        "Association"@ != "AutoTimeSync"@,
        "Association"@ != "AssociationConfiguration"@,
        "Association"@ != "AssociationHandlers"@,
        "Association"@ != "master_add_association"@,
        "Association"@ != "master_set_decode_log_level"@,
        "EventClasses"@ != "AutoTimeSync"@,
        "EventClasses"@ != "AssociationConfiguration"@,
        "EventClasses"@ != "AssociationHandlers"@,
        "EventClasses"@ != "master_add_association"@,
        "EventClasses"@ != "master_set_decode_log_level"@,
        "AutoTimeSync"@ != "AssociationConfiguration"@,
        "AutoTimeSync"@ != "AssociationHandlers"@,
        "AutoTimeSync"@ != "master_add_association"@,
        "AutoTimeSync"@ != "master_set_decode_log_level"@,
        "AssociationConfiguration"@ != "AssociationHandlers"@,
        "AssociationConfiguration"@ != "master_add_association"@,
        "AssociationConfiguration"@ != "master_set_decode_log_level"@,
        "AssociationHandlers"@ != "master_add_association"@,
        "AssociationHandlers"@ != "master_set_decode_log_level"@,
        "master_add_association"@ != "master_set_decode_log_level"@,
{
    reveal_strlit("master_destroy");
    reveal_strlit("Association");
    reveal_strlit("EventClasses");
    reveal_strlit("AutoTimeSync");
    reveal_strlit("AssociationConfiguration");
    reveal_strlit("AssociationHandlers");
    reveal_strlit("master_add_association");
    reveal_strlit("master_set_decode_log_level");
    assert("master_destroy"@.len() == 14);
    assert("Association"@.len() == 11);
    assert("EventClasses"@.len() == 12);
    assert("AutoTimeSync"@.len() == 12);
    assert("AssociationConfiguration"@.len() == 24);
    assert("AssociationHandlers"@.len() == 19);
    assert("master_add_association"@.len() == 22);
    assert("master_set_decode_log_level"@.len() == 27);
    assert("EventClasses"@[0] != "AutoTimeSync"@[0]);
}

/// The names inside each item of the schema differ from one another.
proof fn lemma_members_differ()
    ensures
        "class1"@ != "class2"@,
        "class1"@ != "class3"@,
        "class2"@ != "class3"@,
        "None"@ != "LAN"@,
        "None"@ != "NonLAN"@,
        "LAN"@ != "NonLAN"@,
        "disable_unsol_classes"@ != "enable_unsol_classes"@,
        "disable_unsol_classes"@ != "auto_time_sync"@,
        "enable_unsol_classes"@ != "auto_time_sync"@,
        "integrity_handler"@ != "unsolicited_handler"@,
        "integrity_handler"@ != "default_poll_handler"@,
        "unsolicited_handler"@ != "default_poll_handler"@,
        "master"@ != "address"@,
        "master"@ != "config"@,
        "master"@ != "handlers"@,
        "address"@ != "config"@,
        "address"@ != "handlers"@,
        "config"@ != "handlers"@,
        "master"@ != "level"@,
{
    reveal_strlit("class1");
    reveal_strlit("class2");
    reveal_strlit("class3");
    reveal_strlit("None");
    reveal_strlit("LAN");
    reveal_strlit("NonLAN");
    reveal_strlit("disable_unsol_classes");
    reveal_strlit("enable_unsol_classes");
    reveal_strlit("auto_time_sync");
    reveal_strlit("integrity_handler");
    reveal_strlit("unsolicited_handler");
    reveal_strlit("default_poll_handler");
    reveal_strlit("master");
    reveal_strlit("address");
    reveal_strlit("config");
    reveal_strlit("handlers");
    reveal_strlit("level");
    assert("class1"@[5] != "class2"@[5]);
    assert("class1"@[5] != "class3"@[5]);
    assert("class2"@[5] != "class3"@[5]);
    assert("master"@[0] != "config"@[0]);
    assert("None"@.len() == 4 && "LAN"@.len() == 3 && "NonLAN"@.len() == 6);
    assert("disable_unsol_classes"@.len() == 21 && "enable_unsol_classes"@.len() == 20
        && "auto_time_sync"@.len() == 14);
    assert("integrity_handler"@.len() == 17 && "unsolicited_handler"@.len() == 19
        && "default_poll_handler"@.len() == 20);
    assert("master"@.len() == 6 && "address"@.len() == 7 && "handlers"@.len() == 8 && "level"@.len()
        == 5 && "config"@.len() == 6);
}

fn declare_destroy(lib: &mut LibraryBuilder, master: ClassDeclarationHandle) -> (r: Result<
    NativeFunctionHandle,
    BindingError,
>)
    requires
        old(lib).inv(),
        old(lib)@.has_room(1),
    ensures
        final(lib).inv(),
        old(lib)@.extended_by(final(lib)@),
        r matches Err(e) ==> final(lib)@ == old(lib)@ && e == if old(lib)@.name_used(
            "master_destroy"@,
        ) {
            BindingError::NameAlreadyUsed
        } else {
            BindingError::UnknownReference(master.id)
        } && (old(lib)@.name_used("master_destroy"@) || !old(lib)@.is_class(master.id)),
        r matches Ok(h) ==> h.id == old(lib)@.decls.len() && !old(lib)@.name_used(
            "master_destroy"@,
        ) && old(lib)@.is_class(master.id) && final(lib)@ == old(lib)@.declare(
            ItemView::Function(destroy_function(master)),
        ),
{
    let doc = DocBuilder::new().text("Remove and destroy a master.").warn(
        "This method must NOT be called from within the tokio runtime",
    ).build();
    lib.declare_native_function("master_destroy")?.param(
        "master",
        Type::ClassRef(master),
        "Master to destroy",
    )?.return_type(ReturnType::void())?.doc(doc.as_str())?.build()
}

fn define_event_classes(lib: &mut LibraryBuilder) -> (r: Result<NativeStructHandle, BindingError>)
    requires
        old(lib).inv(),
        old(lib)@.has_room(2),
    ensures
        final(lib).inv(),
        old(lib)@.extended_by(final(lib)@),
        r matches Err(e) ==> final(lib)@ == old(lib)@ && e == BindingError::NameAlreadyUsed && old(
            lib,
        )@.name_used("EventClasses"@),
        r matches Ok(h) ==> h.id == old(lib)@.decls.len() && !old(lib)@.name_used(
            "EventClasses"@,
        ) && final(lib)@ == old(lib)@.declare(
            ItemView::Struct(declared_struct("EventClasses"@)),
        ).define(h.id as int, ItemView::Struct(event_classes_view())),
{
    proof {
        lemma_members_differ();
    }
    let ghost before = lib@;
    let declaration = lib.declare_native_struct("EventClasses")?;
    let ghost between = lib@;
    let r = lib.define_native_struct(&declaration)?.add("class1", Type::Bool)?.add(
        "class2",
        Type::Bool,
    )?.add("class3", Type::Bool)?.build();
    proof {
        lemma_extended_trans(before, between, lib@);
    }
    Ok(r)
}

fn define_auto_time_sync(lib: &mut LibraryBuilder) -> (r: Result<NativeEnumHandle, BindingError>)
    requires
        old(lib).inv(),
        old(lib)@.has_room(1),
    ensures
        final(lib).inv(),
        old(lib)@.extended_by(final(lib)@),
        r matches Err(e) ==> final(lib)@ == old(lib)@ && e == BindingError::NameAlreadyUsed && old(
            lib,
        )@.name_used("AutoTimeSync"@),
        r matches Ok(h) ==> h.id == old(lib)@.decls.len() && !old(lib)@.name_used(
            "AutoTimeSync"@,
        ) && final(lib)@ == old(lib)@.declare(ItemView::Enum(auto_time_sync_view())),
{
    proof {
        lemma_members_differ();
    }
    lib.define_native_enum("AutoTimeSync")?.push("None", "Do not perform automatic timesync")?.push(
        "LAN",
        "Perform automatic timesync with Record Current Time (0x18) function code",
    )?.push(
        "NonLAN",
        "Perform automatic timesync with Delay Measurement (0x17) function code",
    )?.doc("Automatic time synchronization configuration")?.build()
}

fn define_association_configuration(
    lib: &mut LibraryBuilder,
    event_classes: NativeStructHandle,
    auto_time_sync: NativeEnumHandle,
) -> (r: Result<NativeStructHandle, BindingError>)
    requires
        old(lib).inv(),
        old(lib)@.has_room(2),
        old(lib)@.is_defined_struct(event_classes.id),
        old(lib)@.is_enum(auto_time_sync.id),
    ensures
        final(lib).inv(),
        old(lib)@.extended_by(final(lib)@),
        r matches Err(e) ==> final(lib)@ == old(lib)@ && e == BindingError::NameAlreadyUsed && old(
            lib,
        )@.name_used("AssociationConfiguration"@),
        r matches Ok(h) ==> h.id == old(lib)@.decls.len() && !old(lib)@.name_used(
            "AssociationConfiguration"@,
        ) && final(lib)@ == old(lib)@.declare(
            ItemView::Struct(declared_struct("AssociationConfiguration"@)),
        ).define(
            h.id as int,
            ItemView::Struct(association_configuration_view(event_classes, auto_time_sync)),
        ),
{
    proof {
        lemma_members_differ();
    }
    let ghost before = lib@;
    let declaration = lib.declare_native_struct("AssociationConfiguration")?;
    let ghost between = lib@;
    let r = lib.define_native_struct(&declaration)?.add(
        "disable_unsol_classes",
        Type::Struct(event_classes),
    )?.add("enable_unsol_classes", Type::Struct(event_classes))?.add(
        "auto_time_sync",
        Type::Enum(auto_time_sync),
    )?.build();
    proof {
        lemma_extended_trans(before, between, lib@);
    }
    Ok(r)
}

fn define_association_handlers(lib: &mut LibraryBuilder, read_handler: InterfaceHandle) -> (r:
    Result<NativeStructHandle, BindingError>)
    requires
        old(lib).inv(),
        old(lib)@.has_room(2),
    ensures
        final(lib).inv(),
        old(lib)@.extended_by(final(lib)@),
        r matches Err(e) ==> if old(lib)@.name_used("AssociationHandlers"@) {
            e == BindingError::NameAlreadyUsed && final(lib)@ == old(lib)@
        } else {
            e == BindingError::UnknownReference(read_handler.id) && !old(lib)@.is_interface(
                read_handler.id,
            ) && final(lib)@ == old(lib)@.declare(
                ItemView::Struct(declared_struct("AssociationHandlers"@)),
            )
        },
        r matches Ok(h) ==> h.id == old(lib)@.decls.len() && !old(lib)@.name_used(
            "AssociationHandlers"@,
        ) && old(lib)@.is_interface(read_handler.id) && final(lib)@ == old(lib)@.declare(
            ItemView::Struct(declared_struct("AssociationHandlers"@)),
        ).define(h.id as int, ItemView::Struct(association_handlers_view(read_handler))),
{
    proof {
        lemma_members_differ();
    }
    let ghost before = lib@;
    let declaration = lib.declare_native_struct("AssociationHandlers")?;
    let ghost between = lib@;
    let r = lib.define_native_struct(&declaration)?.add(
        "integrity_handler",
        Type::Interface(read_handler),
    )?.add("unsolicited_handler", Type::Interface(read_handler))?.add(
        "default_poll_handler",
        Type::Interface(read_handler),
    )?.build();
    proof {
        lemma_extended_trans(before, between, lib@);
    }
    Ok(r)
}

fn declare_add_association(
    lib: &mut LibraryBuilder,
    master: ClassDeclarationHandle,
    configuration: NativeStructHandle,
    handlers: NativeStructHandle,
    association: ClassDeclarationHandle,
) -> (r: Result<NativeFunctionHandle, BindingError>)
    requires
        old(lib).inv(),
        old(lib)@.has_room(1),
        old(lib)@.is_class(master.id),
        old(lib)@.is_class(association.id),
        old(lib)@.is_defined_struct(configuration.id),
        old(lib)@.is_defined_struct(handlers.id),
    ensures
        final(lib).inv(),
        old(lib)@.extended_by(final(lib)@),
        r matches Err(e) ==> final(lib)@ == old(lib)@ && e == BindingError::NameAlreadyUsed && old(
            lib,
        )@.name_used("master_add_association"@),
        r matches Ok(h) ==> h.id == old(lib)@.decls.len() && !old(lib)@.name_used(
            "master_add_association"@,
        ) && final(lib)@ == old(lib)@.declare(
            ItemView::Function(
                add_association_function(master, configuration, handlers, association),
            ),
        ),
{
    proof {
        lemma_members_differ();
    }
    lib.declare_native_function("master_add_association")?.param(
        "master",
        Type::ClassRef(master),
        "Master to add the association to",
    )?.param("address", Type::Uint16, "DNP3 data-link address of the remote outstation")?.param(
        "config",
        Type::Struct(configuration),
        "Association configuration",
    )?.param(
        "handlers",
        Type::Struct(handlers),
        "Handlers to call when receiving point data",
    )?.return_type(ReturnType::new(Type::ClassRef(association)))?.doc(
        "Add an association to the master",
    )?.build()
}

fn declare_set_decode_log_level(
    lib: &mut LibraryBuilder,
    master: ClassDeclarationHandle,
    level: NativeEnumHandle,
) -> (r: Result<NativeFunctionHandle, BindingError>)
    requires
        old(lib).inv(),
        old(lib)@.has_room(1),
        old(lib)@.is_class(master.id),
    ensures
        final(lib).inv(),
        old(lib)@.extended_by(final(lib)@),
        r matches Err(e) ==> final(lib)@ == old(lib)@ && e == if old(lib)@.name_used(
            "master_set_decode_log_level"@,
        ) {
            BindingError::NameAlreadyUsed
        } else {
            BindingError::UnknownReference(level.id)
        } && (old(lib)@.name_used("master_set_decode_log_level"@) || !old(lib)@.is_enum(level.id)),
        r matches Ok(h) ==> h.id == old(lib)@.decls.len() && !old(lib)@.name_used(
            "master_set_decode_log_level"@,
        ) && old(lib)@.is_enum(level.id) && final(lib)@ == old(lib)@.declare(
            ItemView::Function(set_decode_log_level_function(master, level)),
        ),
{
    proof {
        lemma_members_differ();
    }
    lib.declare_native_function("master_set_decode_log_level")?.param(
        "master",
        Type::ClassRef(master),
        "Master to modify",
    )?.param("level", Type::Enum(level), "Decode log level")?.return_type(
        ReturnType::void(),
    )?.doc("Set the master decoding level for log messages")?.build()
}

fn define_master(
    lib: &mut LibraryBuilder,
    master: ClassDeclarationHandle,
    destroy: NativeFunctionHandle,
    add_association: NativeFunctionHandle,
    set_decode_log_level: NativeFunctionHandle,
) -> (r: Result<(), BindingError>)
    requires
        old(lib).inv(),
        old(lib)@.has_room(1),
        old(lib)@.is_class(master.id),
        old(lib)@.destructor_ok(master.id, destroy),
        old(lib)@.method_ok(master.id, add_association),
        old(lib)@.method_ok(master.id, set_decode_log_level),
    ensures
        final(lib).inv(),
        old(lib)@.extended_by(final(lib)@),
        r matches Err(e) ==> final(lib)@ == old(lib)@ && e == BindingError::ClassAlreadyDefined
            && old(lib)@.is_defined_class(master.id),
        r is Ok ==> !old(lib)@.is_defined_class(master.id) && final(lib)@ == old(lib)@.define(
            master.id as int,
            ItemView::Class(
                master_body(
                    name_of(old(lib)@, master.id),
                    destroy,
                    add_association,
                    set_decode_log_level,
                ),
            ),
        ),
{
    lib.define_class(&master)?.destructor(&destroy)?.method("AddAssociation", &add_association)?.method(
        "SetDecodeLogLevel",
        &set_decode_log_level,
    )?.build();
    Ok(())
}

/// Adds the schema of a master to a library: the function that destroys a
/// master, the class of an association, the configuration and the handlers
/// of an association, the two functions that become methods of the master,
/// and the body of the master class. Yields the handle of the association
/// class.
///
/// Stops at the first obstacle, and then leaves in the library what was
/// added before it.
pub fn define(
    lib: &mut LibraryBuilder,
    master_class: ClassDeclarationHandle,
    read_handler: InterfaceHandle,
    decode_log_level_enum: NativeEnumHandle,
) -> (r: Result<ClassDeclarationHandle, BindingError>)
    requires
        old(lib).inv(),
        old(lib)@.has_room(12),
    ensures
        final(lib).inv(),
        old(lib)@.extended_by(final(lib)@),
        r matches Err(e) ==> master_schema_obstacle(
            old(lib)@,
            master_class,
            read_handler,
            decode_log_level_enum,
        ) matches Some(found) && found.1 == e && final(lib)@ == master_schema_prefix(
            old(lib)@,
            master_class,
            read_handler,
            decode_log_level_enum,
            found.0,
        ),
        r matches Ok(h) ==> master_schema_obstacle(
            old(lib)@,
            master_class,
            read_handler,
            decode_log_level_enum,
        ) is None && h.id == old(lib)@.decls.len() + 1 && final(lib)@ == master_schema(
            old(lib)@,
            master_class,
            read_handler,
            decode_log_level_enum,
        ),
{
    let ghost l0 = lib@;
    let ghost n = l0.decls.len() as usize;
    let ghost at = |k: nat| master_schema_prefix(l0, master_class, read_handler, decode_log_level_enum, k);
    proof {
        lemma_names_differ();
        assert(at(0) == l0);
    }
    let destroy_fn = declare_destroy(lib, master_class)?;
    let ghost l1 = lib@;
    proof {
        assert(l1 == at(1));
        lemma_used_declare(l0, ItemView::Function(destroy_function(master_class)));
    }

    // Association creation
    let association_class = lib.declare_class("Association")?;
    let ghost l2 = lib@;
    proof {
        assert(l2 == at(2));
        lemma_used_declare(l1, ItemView::Class(declared_class("Association"@)));
        lemma_extended_trans(l0, l1, l2);
    }

    let event_classes = define_event_classes(lib)?;
    let ghost l3 = lib@;
    proof {
        let declared = l2.declare(ItemView::Struct(declared_struct("EventClasses"@)));
        assert(declared == at(3));
        assert(l3 == at(4));
        lemma_used_declare(l2, ItemView::Struct(declared_struct("EventClasses"@)));
        lemma_used_define(declared, (n + 2) as int, ItemView::Struct(event_classes_view()));
        lemma_extended_trans(l0, l2, l3);
    }

    let auto_time_sync_enum = define_auto_time_sync(lib)?;
    let ghost l4 = lib@;
    proof {
        assert(l4 == at(5));
        lemma_used_declare(l3, ItemView::Enum(auto_time_sync_view()));
        lemma_extended_trans(l0, l3, l4);
    }

    let association_configuration = define_association_configuration(
        lib,
        event_classes,
        auto_time_sync_enum,
    )?;
    let ghost l5 = lib@;
    proof {
        let declared = l4.declare(ItemView::Struct(declared_struct("AssociationConfiguration"@)));
        assert(declared == at(6));
        assert(l5 == at(7));
        lemma_used_declare(l4, ItemView::Struct(declared_struct("AssociationConfiguration"@)));
        lemma_used_define(
            declared,
            (n + 4) as int,
            ItemView::Struct(association_configuration_view(event_classes, auto_time_sync_enum)),
        );
        lemma_extended_trans(l0, l4, l5);
    }

    proof {
        let declared = l5.declare(ItemView::Struct(declared_struct("AssociationHandlers"@)));
        assert(declared == at(8));
        lemma_extended_trans(l0, l5, declared);
    }
    let association_handlers = define_association_handlers(lib, read_handler)?;
    let ghost l6 = lib@;
    proof {
        let declared = l5.declare(ItemView::Struct(declared_struct("AssociationHandlers"@)));
        assert(l6 == at(9));
        lemma_used_declare(l5, ItemView::Struct(declared_struct("AssociationHandlers"@)));
        lemma_used_define(
            declared,
            (n + 5) as int,
            ItemView::Struct(association_handlers_view(read_handler)),
        );
        lemma_extended_trans(l0, l5, l6);
    }

    let add_association_fn = declare_add_association(
        lib,
        master_class,
        association_configuration,
        association_handlers,
        association_class,
    )?;
    let ghost l7 = lib@;
    proof {
        assert(l7 == at(10));
        lemma_used_declare(
            l6,
            ItemView::Function(
                add_association_function(
                    master_class,
                    association_configuration,
                    association_handlers,
                    association_class,
                ),
            ),
        );
        lemma_extended_trans(l0, l6, l7);
    }

    let set_decode_log_level_fn = declare_set_decode_log_level(
        lib,
        master_class,
        decode_log_level_enum,
    )?;
    let ghost l8 = lib@;
    proof {
        assert(l8 == at(11));
        lemma_extended_trans(l0, l7, l8);
        assert(l8.decls[n as int].item == ItemView::Function(destroy_function(master_class)));
        assert(l8.decls[master_class.id as int] == l0.decls[master_class.id as int]);
    }

    define_master(lib, master_class, destroy_fn, add_association_fn, set_decode_log_level_fn)?;
    proof {
        assert(lib@ == at(12));
        lemma_extended_trans(l0, l8, lib@);
    }

    Ok(association_class)
}

} // verus!
