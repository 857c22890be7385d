//! The plugin facade: the one object that the host talks to.

use crate::context::{ContextCell, PluginContextContainer};
use crate::metadata::{
    identity, PluginMetadata, PLUGIN_DESCRIPTION, PLUGIN_NAME, PLUGIN_VERSION,
};
use crate::provider::{
    resolve, resolved, ContextualProvider, ContextualProviderView, Provider, ProviderView,
    RoleHandle, RoleHandleView,
};
use crate::role::{PluginError, Role};
use std::sync::Arc;
use vstd::prelude::*;

verus! {

/// The answer to a capability query as contracts speak of it: the handle by
/// what it stands for, the error as it is.
pub open spec fn answer_view<P>(answer: Result<RoleHandle<P>, PluginError>) -> Result<
    RoleHandleView<P>,
    PluginError,
> {
    match answer {
        Ok(handle) => Ok(handle@),
        Err(error) => Err(error),
    }
}

/// What every plugin owes the host when asked for `role`: a handle that views
/// some object through that very role, or the absence error of that role.
pub open spec fn answers<P>(role: Role, answer: Result<RoleHandle<P>, PluginError>) -> bool {
    match answer {
        Ok(handle) => handle@.role == role,
        Err(error) => error == role.absence(),
    }
}

/// What the host may ask of a plugin.
///
/// The host drives the lifecycle: `init`, `post_init`, `pre_shutdown` and
/// `shutdown`, in this order. A plugin does not keep track of where it stands:
/// it trusts the host with the order. A hook that fails tells the host not to
/// go on to the next state; the two shutdown hooks may be called all the same.
/// `set_context`, `metadata` and the capability queries may be called at any
/// point, also after `shutdown`.
pub trait Plugin {
    /// The execution context that the host supplies.
    type Context;

    /// The type under which provider objects are held.
    type Object;

    /// Name, description and version of the plugin.
    fn metadata(&self) -> (metadata: Result<PluginMetadata, PluginError>)
        ensures
            metadata is Ok,
    ;

    /// Takes a plugin that was just made to the state of being initialised.
    fn init(&self) -> Result<(), PluginError>;

    /// Takes an initialised plugin to the state after initialisation.
    fn post_init(&self) -> Result<(), PluginError>;

    /// Takes the plugin to the state before shutdown.
    fn pre_shutdown(&self) -> Result<(), PluginError>;

    /// Takes the plugin to its last state, in which the shutdown is complete.
    /// The plugin still answers afterwards.
    fn shutdown(&self) -> Result<(), PluginError>;

    /// Hands the execution context to the plugin.
    fn set_context(&mut self, context: Arc<Self::Context>) -> Result<(), PluginError>;

    /// The capability queries, one for each role.
    fn get_component_provider(&self) -> (answer: Result<RoleHandle<Self::Object>, PluginError>)
        ensures
            answers(Role::ComponentProvider, answer),
    ;

    fn get_entity_type_provider(&self) -> (answer: Result<RoleHandle<Self::Object>, PluginError>)
        ensures
            answers(Role::EntityTypeProvider, answer),
    ;

    fn get_relation_type_provider(&self) -> (answer: Result<RoleHandle<Self::Object>, PluginError>)
        ensures
            answers(Role::RelationTypeProvider, answer),
    ;

    fn get_component_behaviour_provider(&self) -> (answer: Result<
        RoleHandle<Self::Object>,
        PluginError,
    >)
        ensures
            answers(Role::ComponentBehaviourProvider, answer),
    ;

    fn get_entity_behaviour_provider(&self) -> (answer: Result<
        RoleHandle<Self::Object>,
        PluginError,
    >)
        ensures
            answers(Role::EntityBehaviourProvider, answer),
    ;

    fn get_relation_behaviour_provider(&self) -> (answer: Result<
        RoleHandle<Self::Object>,
        PluginError,
    >)
        ensures
            answers(Role::RelationBehaviourProvider, answer),
    ;

    fn get_flow_provider(&self) -> (answer: Result<RoleHandle<Self::Object>, PluginError>)
        ensures
            answers(Role::FlowProvider, answer),
    ;

    fn get_web_resource_provider(&self) -> (answer: Result<RoleHandle<Self::Object>, PluginError>)
        ensures
            answers(Role::WebResourceProvider, answer),
    ;
}

/// A plugin of this unit's kind: one that can be shared between threads.
pub trait BinaryPlugin: Plugin + Send + Sync {

}

/// The facade of this plugin unit.
///
/// It holds the four provider objects that were injected when it was made,
/// each in a slot of its own that is never assigned again, and the cell with
/// the execution context.
pub struct BinaryPluginImpl<C, P> {
    component_provider: Provider<P>,
    entity_type_provider: Provider<P>,
    component_behaviour_provider: Provider<P>,
    web_resource_provider: ContextualProvider<C, P>,
    context: PluginContextContainer<C>,
}

/// What a [`BinaryPluginImpl`] stands for.
pub struct PluginView<C, P> {
    /// The provider in the slot for component providers.
    pub component_provider: ProviderView<P>,
    /// The provider in the slot for entity type providers.
    pub entity_type_provider: ProviderView<P>,
    /// The provider in the slot for component behaviour providers.
    pub component_behaviour_provider: ProviderView<P>,
    /// The provider in the slot for web resource providers, with the context
    /// that it has received.
    pub web_resource_provider: ContextualProviderView<C, P>,
    /// The cell with the execution context.
    pub context: ContextCell<C>,
}

/// Whether this unit has a slot for `role`. It has one for component
/// providers, entity type providers, component behaviour providers and web
/// resource providers, and none for the other four roles.
pub open spec fn is_wired(role: Role) -> bool {
    ||| role == Role::ComponentProvider
    ||| role == Role::EntityTypeProvider
    ||| role == Role::ComponentBehaviourProvider
    ||| role == Role::WebResourceProvider
}

impl<C, P> PluginView<C, P> {
    /// The wiring: the provider in the slot that serves `role`, if the unit
    /// has a slot for the role.
    pub open spec fn slot(self, role: Role) -> Option<ProviderView<P>> {
        match role {
            Role::ComponentProvider => Some(self.component_provider),
            Role::EntityTypeProvider => Some(self.entity_type_provider),
            Role::ComponentBehaviourProvider => Some(self.component_behaviour_provider),
            Role::WebResourceProvider => Some(self.web_resource_provider.provider),
            Role::RelationTypeProvider => None,
            Role::EntityBehaviourProvider => None,
            Role::RelationBehaviourProvider => None,
            Role::FlowProvider => None,
        }
    }

    /// The answer to the capability query for `role`.
    ///
    /// Where a slot is wired for the role, the provider in it is asked, and
    /// its refusal is reported as the absence of the role. Where none is,
    /// the role is absent.
    pub open spec fn query(self, role: Role) -> Result<RoleHandleView<P>, PluginError> {
        match self.slot(role) {
            Some(provider) => resolved(role, provider.query(role)),
            None => Err(role.absence()),
        }
    }

    /// The facade after the host has handed it `context`: the cell holds the
    /// context, the web resource provider has received it, and the provider
    /// objects and their roles are as before.
    pub open spec fn set_context(self, context: Arc<C>) -> Self {
        PluginView {
            component_provider: self.component_provider,
            entity_type_provider: self.entity_type_provider,
            component_behaviour_provider: self.component_behaviour_provider,
            web_resource_provider: self.web_resource_provider.set_context(context),
            context: self.context.set(context),
        }
    }
}

impl<C, P> View for BinaryPluginImpl<C, P> {
    type V = PluginView<C, P>;

    closed spec fn view(&self) -> PluginView<C, P> {
        PluginView {
            component_provider: self.component_provider@,
            entity_type_provider: self.entity_type_provider@,
            component_behaviour_provider: self.component_behaviour_provider@,
            web_resource_provider: self.web_resource_provider@,
            context: self.context@,
        }
    }
}

impl<C, P> BinaryPluginImpl<C, P> {
    /// Makes the facade out of the four injected providers and the cell for
    /// the execution context.
    pub fn new(
        component_provider: Provider<P>,
        entity_type_provider: Provider<P>,
        component_behaviour_provider: Provider<P>,
        web_resource_provider: ContextualProvider<C, P>,
        context: PluginContextContainer<C>,
    ) -> (plugin: Self)
        ensures
            plugin@ == (PluginView {
                component_provider: component_provider@,
                entity_type_provider: entity_type_provider@,
                component_behaviour_provider: component_behaviour_provider@,
                web_resource_provider: web_resource_provider@,
                context: context@,
            }),
    {
        BinaryPluginImpl {
            component_provider,
            entity_type_provider,
            component_behaviour_provider,
            web_resource_provider,
            context,
        }
    }

    /// The cell with the execution context.
    pub fn context(&self) -> (context: &PluginContextContainer<C>)
        ensures
            context@ == self@.context,
    {
        &self.context
    }

    /// The provider in the slot for component providers.
    pub fn component_provider(&self) -> (provider: &Provider<P>)
        ensures
            provider@ == self@.component_provider,
    {
        &self.component_provider
    }

    /// The provider in the slot for entity type providers.
    pub fn entity_type_provider(&self) -> (provider: &Provider<P>)
        ensures
            provider@ == self@.entity_type_provider,
    {
        &self.entity_type_provider
    }

    /// The provider in the slot for component behaviour providers.
    pub fn component_behaviour_provider(&self) -> (provider: &Provider<P>)
        ensures
            provider@ == self@.component_behaviour_provider,
    {
        &self.component_behaviour_provider
    }

    /// The provider in the slot for web resource providers, with the context
    /// that it has received.
    pub fn web_resource_provider(&self) -> (provider: &ContextualProvider<C, P>)
        ensures
            provider@ == self@.web_resource_provider,
    {
        &self.web_resource_provider
    }
}

impl<C, P> Plugin for BinaryPluginImpl<C, P> {
    type Context = C;

    type Object = P;

    fn metadata(&self) -> (metadata: Result<PluginMetadata, PluginError>)
        ensures
            metadata matches Ok(stated) && stated@ == identity(),
    {
        Ok(
            PluginMetadata {
                name: PLUGIN_NAME.to_owned(),
                description: PLUGIN_DESCRIPTION.to_owned(),
                version: PLUGIN_VERSION.to_owned(),
            },
        )
    }

    fn init(&self) -> (done: Result<(), PluginError>)
        ensures
            done is Ok,
    {
        Ok(())
    }

    fn post_init(&self) -> (done: Result<(), PluginError>)
        ensures
            done is Ok,
    {
        Ok(())
    }

    fn pre_shutdown(&self) -> (done: Result<(), PluginError>)
        ensures
            done is Ok,
    {
        Ok(())
    }

    fn shutdown(&self) -> (done: Result<(), PluginError>)
        ensures
            done is Ok,
    {
        Ok(())
    }

    fn set_context(&mut self, context: Arc<C>) -> (done: Result<(), PluginError>)
        ensures
            done is Ok,
            final(self)@ == old(self)@.set_context(context),
    {
        self.context.set(context.clone());
        self.web_resource_provider.set_context(context);
        Ok(())
    }

    fn get_component_provider(&self) -> (answer: Result<RoleHandle<P>, PluginError>)
        ensures
            answer_view(answer) == self@.query(Role::ComponentProvider),
    {
        resolve(Role::ComponentProvider, self.component_provider.query(Role::ComponentProvider))
    }

    fn get_entity_type_provider(&self) -> (answer: Result<RoleHandle<P>, PluginError>)
        ensures
            answer_view(answer) == self@.query(Role::EntityTypeProvider),
    {
        resolve(Role::EntityTypeProvider, self.entity_type_provider.query(Role::EntityTypeProvider))
    }

    fn get_relation_type_provider(&self) -> (answer: Result<RoleHandle<P>, PluginError>)
        ensures
            answer_view(answer) == self@.query(Role::RelationTypeProvider),
    {
        Err(PluginError::NoRelationTypeProvider)
    }

    fn get_component_behaviour_provider(&self) -> (answer: Result<RoleHandle<P>, PluginError>)
        ensures
            answer_view(answer) == self@.query(Role::ComponentBehaviourProvider),
    {
        resolve(
            Role::ComponentBehaviourProvider,
            self.component_behaviour_provider.query(Role::ComponentBehaviourProvider),
        )
    }

    fn get_entity_behaviour_provider(&self) -> (answer: Result<RoleHandle<P>, PluginError>)
        ensures
            answer_view(answer) == self@.query(Role::EntityBehaviourProvider),
    {
        Err(PluginError::NoEntityBehaviourProvider)
    }

    fn get_relation_behaviour_provider(&self) -> (answer: Result<RoleHandle<P>, PluginError>)
        ensures
            answer_view(answer) == self@.query(Role::RelationBehaviourProvider),
    {
        Err(PluginError::NoRelationBehaviourProvider)
    }

    fn get_flow_provider(&self) -> (answer: Result<RoleHandle<P>, PluginError>)
        ensures
            answer_view(answer) == self@.query(Role::FlowProvider),
    {
        Err(PluginError::NoFlowProvider)
    }

    fn get_web_resource_provider(&self) -> (answer: Result<RoleHandle<P>, PluginError>)
        ensures
            answer_view(answer) == self@.query(Role::WebResourceProvider),
    {
        resolve(
            Role::WebResourceProvider,
            self.web_resource_provider.provider().query(Role::WebResourceProvider),
        )
    }
}

impl<C: Send + Sync, P: Send + Sync> BinaryPlugin for BinaryPluginImpl<C, P> {

}

} // verus!
