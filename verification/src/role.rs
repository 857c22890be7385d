//! Provider roles and the errors that report their absence.

use vstd::prelude::*;

verus! {

/// A capability that a provider object may implement.
#[derive(Clone, Copy, Debug, PartialEq, Eq, Structural)]
pub enum Role {
    ComponentProvider,
    EntityTypeProvider,
    RelationTypeProvider,
    ComponentBehaviourProvider,
    EntityBehaviourProvider,
    RelationBehaviourProvider,
    FlowProvider,
    WebResourceProvider,
}

/// Why a capability query was answered without a handle: the plugin does not
/// offer the role. There is one kind per role, and none is transient.
#[derive(Clone, Copy, Debug, PartialEq, Eq, Structural)]
pub enum PluginError {
    NoComponentProvider,
    NoEntityTypeProvider,
    NoRelationTypeProvider,
    NoComponentBehaviourProvider,
    NoEntityBehaviourProvider,
    NoRelationBehaviourProvider,
    NoFlowProvider,
    NoWebResourceProvider,
}

impl Role {
    /// The error that reports the absence of this role.
    pub open spec fn absence(self) -> PluginError {
        match self {
            Role::ComponentProvider => PluginError::NoComponentProvider,
            Role::EntityTypeProvider => PluginError::NoEntityTypeProvider,
            Role::RelationTypeProvider => PluginError::NoRelationTypeProvider,
            Role::ComponentBehaviourProvider => PluginError::NoComponentBehaviourProvider,
            Role::EntityBehaviourProvider => PluginError::NoEntityBehaviourProvider,
            Role::RelationBehaviourProvider => PluginError::NoRelationBehaviourProvider,
            Role::FlowProvider => PluginError::NoFlowProvider,
            Role::WebResourceProvider => PluginError::NoWebResourceProvider,
        }
    }

    /// Computes [`Role::absence`].
    pub fn absence_error(self) -> (error: PluginError)
        ensures
            error == self.absence(),
    {
        match self {
            Role::ComponentProvider => PluginError::NoComponentProvider,
            Role::EntityTypeProvider => PluginError::NoEntityTypeProvider,
            Role::RelationTypeProvider => PluginError::NoRelationTypeProvider,
            Role::ComponentBehaviourProvider => PluginError::NoComponentBehaviourProvider,
            Role::EntityBehaviourProvider => PluginError::NoEntityBehaviourProvider,
            Role::RelationBehaviourProvider => PluginError::NoRelationBehaviourProvider,
            Role::FlowProvider => PluginError::NoFlowProvider,
            Role::WebResourceProvider => PluginError::NoWebResourceProvider,
        }
    }
}

impl PluginError {
    /// The role whose absence this error reports.
    pub open spec fn missing(self) -> Role {
        match self {
            PluginError::NoComponentProvider => Role::ComponentProvider,
            PluginError::NoEntityTypeProvider => Role::EntityTypeProvider,
            PluginError::NoRelationTypeProvider => Role::RelationTypeProvider,
            PluginError::NoComponentBehaviourProvider => Role::ComponentBehaviourProvider,
            PluginError::NoEntityBehaviourProvider => Role::EntityBehaviourProvider,
            PluginError::NoRelationBehaviourProvider => Role::RelationBehaviourProvider,
            PluginError::NoFlowProvider => Role::FlowProvider,
            PluginError::NoWebResourceProvider => Role::WebResourceProvider,
        }
    }
}

/// Each role has an absence error of its own: the error names the role.
pub proof fn lemma_absence_names_role(role: Role)
    ensures
        role.absence().missing() == role,
{
}

/// No two roles share an absence error.
pub proof fn lemma_absence_is_specific(first: Role, second: Role)
    requires
        first.absence() == second.absence(),
    ensures
        first == second,
{
    lemma_absence_names_role(first);
    lemma_absence_names_role(second);
}

} // verus!
