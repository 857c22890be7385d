use binary_plugin::{
    create_empty_plugin_context_container, resolve, ContextualProvider, PluginError, Provider,
    Role,
};
use std::sync::Arc;

#[derive(Debug, PartialEq, Eq)]
struct Object {
    label: &'static str,
}

#[derive(Debug, PartialEq, Eq)]
struct Facilities {
    label: &'static str,
}

fn every_role() -> Vec<Role> {
    vec![
        Role::ComponentProvider,
        Role::EntityTypeProvider,
        Role::RelationTypeProvider,
        Role::ComponentBehaviourProvider,
        Role::EntityBehaviourProvider,
        Role::RelationBehaviourProvider,
        Role::FlowProvider,
        Role::WebResourceProvider,
    ]
}

#[test]
fn absence_error_is_the_error_of_the_role() {
    assert_eq!(Role::ComponentProvider.absence_error(), PluginError::NoComponentProvider);
    assert_eq!(Role::EntityTypeProvider.absence_error(), PluginError::NoEntityTypeProvider);
    assert_eq!(Role::RelationTypeProvider.absence_error(), PluginError::NoRelationTypeProvider);
    assert_eq!(
        Role::ComponentBehaviourProvider.absence_error(),
        PluginError::NoComponentBehaviourProvider
    );
    assert_eq!(
        Role::EntityBehaviourProvider.absence_error(),
        PluginError::NoEntityBehaviourProvider
    );
    assert_eq!(
        Role::RelationBehaviourProvider.absence_error(),
        PluginError::NoRelationBehaviourProvider
    );
    assert_eq!(Role::FlowProvider.absence_error(), PluginError::NoFlowProvider);
    assert_eq!(Role::WebResourceProvider.absence_error(), PluginError::NoWebResourceProvider);
}

#[test]
fn absence_errors_differ_from_role_to_role() {
    let roles = every_role();
    for first in roles.iter() {
        for second in roles.iter() {
            if first != second {
                assert_ne!(first.absence_error(), second.absence_error());
            }
        }
    }
}

#[test]
fn implements_tells_registered_roles_from_the_others() {
    let object = Arc::new(Object { label: "components" });
    let provider = Provider::new(
        object,
        vec![Role::ComponentProvider, Role::ComponentBehaviourProvider],
    );
    assert!(provider.implements(Role::ComponentProvider));
    assert!(provider.implements(Role::ComponentBehaviourProvider));
    assert!(!provider.implements(Role::EntityTypeProvider));
    assert!(!provider.implements(Role::RelationTypeProvider));
    assert!(!provider.implements(Role::EntityBehaviourProvider));
    assert!(!provider.implements(Role::RelationBehaviourProvider));
    assert!(!provider.implements(Role::FlowProvider));
    assert!(!provider.implements(Role::WebResourceProvider));
}

#[test]
fn provider_without_roles_implements_none() {
    let provider = Provider::new(Arc::new(Object { label: "bare" }), Vec::new());
    for role in every_role() {
        assert!(!provider.implements(role));
        assert!(provider.query(role).is_none());
    }
}

#[test]
fn role_registered_twice_is_registered() {
    let provider = Provider::new(
        Arc::new(Object { label: "twice" }),
        vec![Role::FlowProvider, Role::FlowProvider],
    );
    assert!(provider.implements(Role::FlowProvider));
    assert!(!provider.implements(Role::ComponentProvider));
}

#[test]
fn role_registered_last_is_found() {
    let provider = Provider::new(Arc::new(Object { label: "all" }), every_role());
    assert!(provider.implements(Role::WebResourceProvider));
    assert!(provider.implements(Role::ComponentProvider));
}

#[test]
fn query_views_the_same_object_through_the_role() {
    let object = Arc::new(Object { label: "entity types" });
    let provider = Provider::new(object.clone(), vec![Role::EntityTypeProvider]);
    let handle = provider.query(Role::EntityTypeProvider).expect("the role is registered");
    assert_eq!(handle.role(), Role::EntityTypeProvider);
    assert!(Arc::ptr_eq(handle.object(), &object));
    assert!(Arc::ptr_eq(handle.object(), provider.object()));
    assert_eq!(handle.object().label, "entity types");
}

#[test]
fn query_for_a_role_that_is_not_registered_gives_nothing() {
    let object = Arc::new(Object { label: "entity types" });
    let provider = Provider::new(object.clone(), vec![Role::EntityTypeProvider]);
    assert!(provider.query(Role::ComponentProvider).is_none());
    assert!(provider.query(Role::FlowProvider).is_none());
    assert_eq!(Arc::strong_count(&object), 2);
}

#[test]
fn query_shares_the_object_and_makes_no_copy() {
    let object = Arc::new(Object { label: "shared" });
    let provider = Provider::new(object.clone(), vec![Role::ComponentProvider]);
    assert_eq!(Arc::strong_count(&object), 2);
    let first = provider.query(Role::ComponentProvider).expect("the role is registered");
    assert_eq!(Arc::strong_count(&object), 3);
    let second = provider.query(Role::ComponentProvider).expect("the role is registered");
    assert_eq!(Arc::strong_count(&object), 4);
    assert!(Arc::ptr_eq(first.object(), second.object()));
    drop(first);
    drop(second);
    assert_eq!(Arc::strong_count(&object), 2);
}

#[test]
fn handle_outlives_the_provider_it_came_from() {
    let object = Arc::new(Object { label: "kept" });
    let provider = Provider::new(object.clone(), vec![Role::WebResourceProvider]);
    let handle = provider.query(Role::WebResourceProvider).expect("the role is registered");
    drop(provider);
    assert!(Arc::ptr_eq(handle.object(), &object));
    assert_eq!(handle.object().label, "kept");
    assert_eq!(Arc::strong_count(&object), 2);
}

#[test]
fn resolve_keeps_the_handle_that_was_found() {
    let object = Arc::new(Object { label: "found" });
    let provider = Provider::new(object.clone(), vec![Role::ComponentProvider]);
    let answer = resolve(Role::ComponentProvider, provider.query(Role::ComponentProvider));
    let handle = answer.expect("the role is registered");
    assert_eq!(handle.role(), Role::ComponentProvider);
    assert!(Arc::ptr_eq(handle.object(), &object));
}

#[test]
fn resolve_keeps_any_value_that_was_found() {
    let number: u32 = 17;
    assert_eq!(resolve(Role::FlowProvider, Some(number)), Ok(17));
    assert_eq!(resolve(Role::ComponentProvider, Some("view")), Ok("view"));
}

#[test]
fn resolve_reports_the_absence_of_the_role() {
    let nothing: Option<u32> = None;
    assert_eq!(resolve(Role::ComponentProvider, nothing), Err(PluginError::NoComponentProvider));
    assert_eq!(resolve(Role::EntityTypeProvider, nothing), Err(PluginError::NoEntityTypeProvider));
    assert_eq!(
        resolve(Role::RelationTypeProvider, nothing),
        Err(PluginError::NoRelationTypeProvider)
    );
    assert_eq!(
        resolve(Role::ComponentBehaviourProvider, nothing),
        Err(PluginError::NoComponentBehaviourProvider)
    );
    assert_eq!(
        resolve(Role::EntityBehaviourProvider, nothing),
        Err(PluginError::NoEntityBehaviourProvider)
    );
    assert_eq!(
        resolve(Role::RelationBehaviourProvider, nothing),
        Err(PluginError::NoRelationBehaviourProvider)
    );
    assert_eq!(resolve(Role::FlowProvider, nothing), Err(PluginError::NoFlowProvider));
    assert_eq!(resolve(Role::WebResourceProvider, nothing), Err(PluginError::NoWebResourceProvider));
}

#[test]
fn contextual_provider_starts_with_the_cell_it_was_given() {
    let object = Arc::new(Object { label: "web" });
    let context = Arc::new(Facilities { label: "early" });
    let empty: ContextualProvider<Facilities, Object> = ContextualProvider::new(
        Provider::new(object.clone(), vec![Role::WebResourceProvider]),
        create_empty_plugin_context_container(),
    );
    assert!(empty.context().is_none());
    let mut cell = create_empty_plugin_context_container();
    cell.set(context.clone());
    let filled = ContextualProvider::new(
        Provider::new(object.clone(), vec![Role::WebResourceProvider]),
        cell,
    );
    let held = filled.context().expect("the cell was filled");
    assert!(Arc::ptr_eq(&held, &context));
}

#[test]
fn contextual_provider_receives_the_context() {
    let object = Arc::new(Object { label: "web" });
    let first = Arc::new(Facilities { label: "first" });
    let second = Arc::new(Facilities { label: "second" });
    let mut provider = ContextualProvider::new(
        Provider::new(object.clone(), vec![Role::WebResourceProvider]),
        create_empty_plugin_context_container(),
    );
    provider.set_context(first.clone());
    assert!(Arc::ptr_eq(&provider.context().expect("a context was handed over"), &first));
    provider.set_context(second.clone());
    assert!(Arc::ptr_eq(&provider.context().expect("a context was handed over"), &second));
    assert!(Arc::ptr_eq(provider.provider().object(), &object));
    assert!(provider.provider().implements(Role::WebResourceProvider));
    assert!(!provider.provider().implements(Role::ComponentProvider));
}
