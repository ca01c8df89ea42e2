//! Resolution of type identities against the client and the server snapshots.

use crate::metamodel::{find_app, resolve_in, ApplicationModel, ApplicationModels, AppName, TypeModel};
use crate::TypeRef;
use std::sync::Arc;
use vstd::prelude::*;

verus! {

/// Holds the type snapshot compiled into this build (the client snapshot) and
/// the one the backend advertises (the server snapshot), and resolves type
/// identities against either.
pub struct TypeModelProvider {
    pub client_app_models: Arc<ApplicationModels>,
    pub server_app_models: Arc<ApplicationModels>,
}

impl TypeModelProvider {
    /// A provider over the shared snapshot `app_models`, which serves as both
    /// the client and the server snapshot. Nothing is read or parsed here.
    pub fn new(app_models: Arc<ApplicationModels>) -> (r: TypeModelProvider)
        ensures
            *r.client_app_models == *app_models,
            *r.server_app_models == *app_models,
    {
        TypeModelProvider { client_app_models: app_models.clone(), server_app_models: app_models }
    }

    /// The type that `type_ref` addresses in the client snapshot, or `None`
    /// when its application or its type id is unknown there.
    pub fn resolve_client_type_ref(&self, type_ref: &TypeRef) -> (r: Option<&TypeModel>)
        ensures
            match resolve_in(*self.client_app_models, *type_ref) {
                Some(t) => r matches Some(x) && *x == t,
                None => r is None,
            },
    {
        self.client_app_models.resolve(type_ref)
    }

    /// The type that `type_ref` addresses in the server snapshot, or `None`
    /// when its application or its type id is unknown there.
    pub fn resolve_server_type_ref(&self, type_ref: &TypeRef) -> (r: Option<&TypeModel>)
        ensures
            match resolve_in(*self.server_app_models, *type_ref) {
                Some(t) => r matches Some(x) && *x == t,
                None => r is None,
            },
    {
        self.server_app_models.resolve(type_ref)
    }
}

/// Two providers built over the same snapshot resolve every type identity to
/// the same type, on the client side and on the server side.
pub proof fn lemma_providers_agree(
    first: TypeModelProvider,
    second: TypeModelProvider,
    type_ref: TypeRef,
)
    requires
        *first.client_app_models == *second.client_app_models,
        *first.server_app_models == *second.server_app_models,
    ensures
        resolve_in(*first.client_app_models, type_ref) == resolve_in(
            *second.client_app_models,
            type_ref,
        ),
        resolve_in(*first.server_app_models, type_ref) == resolve_in(
            *second.server_app_models,
            type_ref,
        ),
{
}

/// A type identity whose application the snapshot does not hold resolves to
/// nothing.
pub proof fn lemma_unknown_app_resolves_nothing(models: ApplicationModels, type_ref: TypeRef)
    requires
        forall|i: int| 0 <= i < models.apps@.len() ==> (#[trigger] models.apps@[i]).name != type_ref.app,
    ensures
        resolve_in(models, type_ref) is None,
{
    lemma_find_absent(models.apps@, type_ref.app);
}

/// In a snapshot that holds no application, every type identity resolves to
/// nothing.
pub proof fn lemma_empty_snapshot_resolves_nothing(models: ApplicationModels, type_ref: TypeRef)
    requires
        models.apps@.len() == 0,
    ensures
        resolve_in(models, type_ref) is None,
{
}

proof fn lemma_find_absent(apps: Seq<ApplicationModel>, app: AppName)
    requires
        forall|i: int| 0 <= i < apps.len() ==> (#[trigger] apps[i]).name != app,
    ensures
        find_app(apps, app) is None,
    decreases apps.len(),
{
    if apps.len() > 0 {
        assert(apps[0].name != app);
        assert forall|i: int| 0 <= i < apps.drop_first().len() implies (
        #[trigger] apps.drop_first()[i]).name != app by {
            assert(apps.drop_first()[i] == apps[i + 1]);
        }
        lemma_find_absent(apps.drop_first(), app);
    }
}

} // verus!
