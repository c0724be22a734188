//! A generator of bindings for native libraries with a C ABI, and the
//! decisions of the native surface of a DNP3 master that is bound with it.
//!
//! The generator has three layers. The model (`types`, `model`, `library`)
//! describes the API of a native library: enumerations, structures,
//! callback interfaces, iterators, classes and native functions, as an
//! ordered list of statements over a table of declarations. The builder
//! (`builder` and the modules of its parts) is the only way to make a
//! library, and validates every addition; `laws` states what therefore holds
//! of every library. The back ends (`c_header`, `dotnet_*`) emit text through
//! the printer of `formatting`; what they emit is stated line by line.
//!
//! `master_schema` is the schema of a DNP3 master, written with the builder.
//! `points`, `indications` and `tasks` hold what the native functions of
//! such a master compute and decide, and `driver` what the driver of the
//! Java back end decides.

pub mod types;
pub mod model;
pub mod library;
pub mod frame;
pub mod laws;
pub mod equality;
pub mod builder;
pub mod doc;
pub mod enums;
pub mod structs;
pub mod functions;
pub mod interfaces;
pub mod iterators;
pub mod classes;
pub mod formatting;
pub mod c_header;
pub mod dotnet_types;
pub mod dotnet_interface;
pub mod dotnet_class;
pub mod dotnet_struct;
pub mod driver;
pub mod master_schema;
pub mod points;
pub mod indications;
pub mod tasks;
