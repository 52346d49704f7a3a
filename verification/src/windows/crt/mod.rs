//! Parts of the C runtime that the process emulates.
pub mod arguments;
pub mod buffers;
pub mod calls;
pub mod data;
pub mod exceptions;
pub mod formatting;
pub mod initializers;
pub mod jump;
pub mod multibyte;
pub mod onexit;
pub mod paths;
pub mod random;
pub mod rtti;
pub mod scanning;
pub mod sorting;
pub mod strings;
pub mod type_names;
