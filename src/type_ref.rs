//! The identity of an entity type: its application and its numeric id.

use crate::metamodel::{AppName, TypeId};
use vstd::prelude::*;

verus! {

/// Addresses exactly one entity type.
#[derive(Clone, Copy, Debug, PartialEq, Eq, Structural, Hash)]
pub struct TypeRef {
    pub app: AppName,
    pub type_id: TypeId,
}

impl TypeRef {
    pub fn new(app: AppName, type_id: TypeId) -> (r: TypeRef)
        ensures
            r.app == app,
            r.type_id == type_id,
    {
        TypeRef { app, type_id }
    }
}

} // verus!
