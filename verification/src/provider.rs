//! Provider objects, the roles they are registered for, and the query that
//! views a provider object through one of its roles.

use crate::context::{ContextCell, PluginContextContainer};
use crate::role::{PluginError, Role};
use std::sync::Arc;
use vstd::prelude::*;

verus! {

/// A provider object as the registry holds it: a shared handle on the object,
/// typed only as "some provider object", and the roles that the object was
/// registered for when the handle was made.
pub struct Provider<P> {
    object: Arc<P>,
    roles: Vec<Role>,
}

/// What a [`Provider`] stands for.
pub struct ProviderView<P> {
    /// The provider object.
    pub object: Arc<P>,
    /// The roles that the object is registered for.
    pub roles: Set<Role>,
}

/// A provider object viewed through one of the roles it is registered for.
///
/// The handle shares the object with the provider it was queried from. Only
/// a query makes one, so holding a handle shows that the object has the role.
#[derive(Debug)]
pub struct RoleHandle<P> {
    role: Role,
    object: Arc<P>,
}

/// What a [`RoleHandle`] stands for.
pub struct RoleHandleView<P> {
    /// The role through which the object is viewed.
    pub role: Role,
    /// The provider object.
    pub object: Arc<P>,
}

impl<P> ProviderView<P> {
    /// The answer to a query for `role`: the same object viewed through the
    /// role if the object is registered for it, and nothing otherwise.
    pub open spec fn query(self, role: Role) -> Option<RoleHandleView<P>> {
        if self.roles.contains(role) {
            Some(RoleHandleView { role, object: self.object })
        } else {
            None
        }
    }
}

impl<P> View for Provider<P> {
    type V = ProviderView<P>;

    closed spec fn view(&self) -> ProviderView<P> {
        ProviderView { object: self.object, roles: self.roles@.to_set() }
    }
}

impl<P> View for RoleHandle<P> {
    type V = RoleHandleView<P>;

    closed spec fn view(&self) -> RoleHandleView<P> {
        RoleHandleView { role: self.role, object: self.object }
    }
}

impl<P> Provider<P> {
    /// Registers `object` for each role listed in `roles`.
    pub fn new(object: Arc<P>, roles: Vec<Role>) -> (provider: Self)
        ensures
            provider@ == (ProviderView { object, roles: roles@.to_set() }),
    {
        Provider { object, roles }
    }

    /// The provider object.
    pub fn object(&self) -> (object: &Arc<P>)
        ensures
            *object == self@.object,
    {
        &self.object
    }

    /// Whether the object is registered for `role`.
    pub fn implements(&self, role: Role) -> (registered: bool)
        ensures
            registered == self@.roles.contains(role),
    {
        let mut at: usize = 0;
        while at < self.roles.len()
            invariant
                at <= self.roles.len(),
                forall|before: int| 0 <= before < at ==> self.roles@[before] != role,
            decreases self.roles.len() - at,
        {
            if self.roles[at] == role {
                return true;
            }
            at += 1;
        }
        false
    }

    /// Views the object through `role`.
    ///
    /// Succeeds exactly if the object is registered for the role. The handle
    /// that comes back shares the object; no object is made or copied.
    pub fn query(&self, role: Role) -> (handle: Option<RoleHandle<P>>)
        ensures
            match handle {
                Some(found) => self@.query(role) == Some(found@),
                None => self@.query(role) is None,
            },
    {
        if self.implements(role) {
            Some(RoleHandle { role, object: self.object.clone() })
        } else {
            None
        }
    }
}

impl<P> RoleHandle<P> {
    /// The role through which the object is viewed.
    pub fn role(&self) -> (role: Role)
        ensures
            role == self@.role,
    {
        self.role
    }

    /// The provider object.
    pub fn object(&self) -> (object: &Arc<P>)
        ensures
            *object == self@.object,
    {
        &self.object
    }
}

/// What a capability query for `role` returns once the provider slot has
/// been asked: the handle that was found, or the absence error of the role.
pub open spec fn resolved<H>(role: Role, queried: Option<H>) -> Result<H, PluginError> {
    match queried {
        Some(handle) => Ok(handle),
        None => Err(role.absence()),
    }
}

/// Turns the outcome of a role query into the answer of a capability query.
pub fn resolve<H>(role: Role, queried: Option<H>) -> (answer: Result<H, PluginError>)
    ensures
        answer == resolved(role, queried),
{
    match queried {
        Some(handle) => Ok(handle),
        None => Err(role.absence_error()),
    }
}

/// A provider that depends on the execution context: the provider together
/// with the cell in which it receives the context.
pub struct ContextualProvider<C, P> {
    provider: Provider<P>,
    context: PluginContextContainer<C>,
}

/// What a [`ContextualProvider`] stands for.
pub struct ContextualProviderView<C, P> {
    /// The provider.
    pub provider: ProviderView<P>,
    /// The context that the provider has received.
    pub context: ContextCell<C>,
}

impl<C, P> ContextualProviderView<C, P> {
    /// The provider after `context` was handed to it.
    pub open spec fn set_context(self, context: Arc<C>) -> Self {
        ContextualProviderView { provider: self.provider, context: self.context.set(context) }
    }
}

impl<C, P> View for ContextualProvider<C, P> {
    type V = ContextualProviderView<C, P>;

    closed spec fn view(&self) -> ContextualProviderView<C, P> {
        ContextualProviderView { provider: self.provider@, context: self.context@ }
    }
}

impl<C, P> ContextualProvider<C, P> {
    /// Joins `provider` with the cell in which it will receive the context.
    pub fn new(provider: Provider<P>, context: PluginContextContainer<C>) -> (joined: Self)
        ensures
            joined@ == (ContextualProviderView { provider: provider@, context: context@ }),
    {
        ContextualProvider { provider, context }
    }

    /// The provider.
    pub fn provider(&self) -> (provider: &Provider<P>)
        ensures
            provider@ == self@.provider,
    {
        &self.provider
    }

    /// Hands `context` to the provider, in place of any it had received.
    pub fn set_context(&mut self, context: Arc<C>)
        ensures
            final(self)@ == old(self)@.set_context(context),
    {
        self.context.set(context);
    }

    /// The context that the provider has received, if any.
    pub fn context(&self) -> (context: Option<Arc<C>>)
        ensures
            context == self@.context.get(),
    {
        self.context.get()
    }
}

} // verus!
