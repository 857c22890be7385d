//! What holds of the facade in every state that calls of the host can bring
//! it to.

use crate::plugin::{is_wired, PluginView};
use crate::provider::RoleHandleView;
use crate::role::{PluginError, Role};
use std::sync::Arc;
use vstd::prelude::*;

verus! {

/// One call of the host on the facade.
pub enum Call<C> {
    Metadata,
    Init,
    PostInit,
    PreShutdown,
    Shutdown,
    SetContext(Arc<C>),
    Query(Role),
}

impl<C, P> PluginView<C, P> {
    /// The facade after one call. Only `set_context` changes it: the hooks
    /// acknowledge a transition and do no more, and the other calls read.
    pub open spec fn after(self, call: Call<C>) -> Self {
        match call {
            Call::SetContext(context) => self.set_context(context),
            _ => self,
        }
    }

    /// The facade after the calls of `history`, first to last.
    pub open spec fn after_all(self, history: Seq<Call<C>>) -> Self
        decreases history.len(),
    {
        if history.len() == 0 {
            self
        } else {
            self.after_all(history.drop_last()).after(history.last())
        }
    }
}

/// Whether the call at `index` is the last `set_context` of `history`.
pub open spec fn is_latest_context<C>(history: Seq<Call<C>>, index: int) -> bool {
    &&& 0 <= index < history.len()
    &&& history[index] is SetContext
    &&& forall|later: int|
        index < later < history.len() ==> !(#[trigger] history[later] is SetContext)
}

/// The provider slots are filled when the facade is made and never assigned
/// again: whatever the host calls, in whatever order, each slot holds the
/// object that was injected, registered for the same roles.
pub proof fn lemma_slots_are_fixed<C, P>(plugin: PluginView<C, P>, history: Seq<Call<C>>)
    ensures
        forall|role: Role| #[trigger] plugin.after_all(history).slot(role) == plugin.slot(role),
    decreases history.len(),
{
    if history.len() > 0 {
        let before = plugin.after_all(history.drop_last());
        lemma_slots_are_fixed(plugin, history.drop_last());
        assert forall|role: Role| #[trigger]
            plugin.after_all(history).slot(role) == plugin.slot(role) by {
            assert(before.slot(role) == plugin.slot(role));
        }
    }
}

/// A capability query has one answer for the whole life of the facade: it
/// does not depend on the context, on the lifecycle hooks that were called,
/// on earlier queries, or on the order of any of these.
pub proof fn lemma_query_is_steady<C, P>(
    plugin: PluginView<C, P>,
    history: Seq<Call<C>>,
    role: Role,
)
    ensures
        plugin.after_all(history).query(role) == plugin.query(role),
{
    lemma_slots_are_fixed(plugin, history);
}

/// Where a slot is wired for a role and the provider in it is registered for
/// the role, every query for the role succeeds, and every handle it returns
/// views the one object that was injected into the slot.
pub proof fn lemma_wired_role_is_served<C, P>(
    plugin: PluginView<C, P>,
    history: Seq<Call<C>>,
    role: Role,
)
    requires
        is_wired(role),
        plugin.slot(role)->0.roles.contains(role),
    ensures
        plugin.after_all(history).query(role) == Ok::<RoleHandleView<P>, PluginError>(
            RoleHandleView { role, object: plugin.slot(role)->0.object },
        ),
{
    lemma_query_is_steady(plugin, history, role);
}

/// A role for which the unit has no slot is absent, with the error of the
/// role, whatever was injected and whatever the host has called before.
pub proof fn lemma_unwired_role_is_absent<C, P>(
    plugin: PluginView<C, P>,
    history: Seq<Call<C>>,
    role: Role,
)
    requires
        !is_wired(role),
    ensures
        plugin.after_all(history).query(role) == Err::<RoleHandleView<P>, PluginError>(
            role.absence(),
        ),
{
    lemma_query_is_steady(plugin, history, role);
}

/// As long as the host has not handed over a context, the cell and the web
/// resource provider hold what they held when the facade was made.
pub proof fn lemma_context_before_any_set<C, P>(plugin: PluginView<C, P>, history: Seq<Call<C>>)
    requires
        forall|index: int|
            0 <= index < history.len() ==> !(#[trigger] history[index] is SetContext),
    ensures
        plugin.after_all(history).context == plugin.context,
        plugin.after_all(history).web_resource_provider.context
            == plugin.web_resource_provider.context,
    decreases history.len(),
{
    if history.len() > 0 {
        lemma_context_before_any_set(plugin, history.drop_last());
    }
}

/// The context that the host handed over last is the one that counts: the
/// cell holds it and the web resource provider has received it, however many
/// contexts came before it and whatever the host has called since.
pub proof fn lemma_latest_context_counts<C, P>(
    plugin: PluginView<C, P>,
    history: Seq<Call<C>>,
    index: int,
)
    requires
        is_latest_context(history, index),
    ensures
        plugin.after_all(history).context.get() == Some(history[index]->SetContext_0),
        plugin.after_all(history).web_resource_provider.context.get() == Some(
            history[index]->SetContext_0,
        ),
    decreases history.len(),
{
    if index < history.len() - 1 {
        lemma_latest_context_counts(plugin, history.drop_last(), index);
    }
}

} // verus!
