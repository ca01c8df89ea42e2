//! A registry of backend entity types: descriptions of each type's fields,
//! associations and encryption, and lookup of a type by application and id.

pub mod file_client;
pub mod metamodel;
pub mod text;
pub mod type_model_provider;
pub mod type_ref;

pub use type_ref::TypeRef;
