//! The cell that holds the execution context supplied by the host.

use std::sync::Arc;
use vstd::prelude::*;

verus! {

/// Holder of at most one execution context.
///
/// The context is a handle that the holder shares with whoever asks for it.
/// Writing takes the holder exclusively and reading takes it shared, so a
/// reader meets either the context of before a write or that of after it,
/// and never a part of each.
pub struct PluginContextContainer<C> {
    slot: Option<Arc<C>>,
}

/// What a [`PluginContextContainer`] stands for: the context it holds, if any.
pub struct ContextCell<C> {
    /// The context that is held.
    pub held: Option<Arc<C>>,
}

impl<C> ContextCell<C> {
    /// The cell that holds nothing.
    pub open spec fn empty() -> Self {
        ContextCell { held: None }
    }

    /// The cell after `context` was stored: it holds `context`, whatever it
    /// held before.
    pub open spec fn set(self, context: Arc<C>) -> Self {
        ContextCell { held: Some(context) }
    }

    /// What reading the cell gives.
    pub open spec fn get(self) -> Option<Arc<C>> {
        self.held
    }
}

impl<C> View for PluginContextContainer<C> {
    type V = ContextCell<C>;

    closed spec fn view(&self) -> ContextCell<C> {
        ContextCell { held: self.slot }
    }
}

/// Makes a holder that has no context yet.
pub fn create_empty_plugin_context_container<C>() -> (container: PluginContextContainer<C>)
    ensures
        container@ == ContextCell::<C>::empty(),
{
    PluginContextContainer { slot: None }
}

impl<C> PluginContextContainer<C> {
    /// Stores `context` in place of whatever was held.
    pub fn set(&mut self, context: Arc<C>)
        ensures
            final(self)@ == old(self)@.set(context),
    {
        self.slot = Some(context);
    }

    /// Hands out the context that is held: a further handle on the same
    /// context, or nothing if none was ever stored.
    pub fn get(&self) -> (context: Option<Arc<C>>)
        ensures
            context == self@.get(),
    {
        match &self.slot {
            Some(held) => Some(held.clone()),
            None => None,
        }
    }
}

/// One use of a cell: a read, or a write of the given context.
pub enum Access<C> {
    Read,
    Write(Arc<C>),
}

impl<C> ContextCell<C> {
    /// The cell after one access. A read leaves it as it is.
    pub open spec fn after(self, access: Access<C>) -> Self {
        match access {
            Access::Read => self,
            Access::Write(context) => self.set(context),
        }
    }

    /// The cell after the accesses of `history`, first to last.
    pub open spec fn after_all(self, history: Seq<Access<C>>) -> Self
        decreases history.len(),
    {
        if history.len() == 0 {
            self
        } else {
            self.after_all(history.drop_last()).after(history.last())
        }
    }
}

/// Whether the access at `index` is the last write of `history`.
pub open spec fn is_latest_write<C>(history: Seq<Access<C>>, index: int) -> bool {
    &&& 0 <= index < history.len()
    &&& history[index] is Write
    &&& forall|later: int| index < later < history.len() ==> !(#[trigger] history[later] is Write)
}

/// As long as nothing was written, a read gives what the cell held at the
/// start: nothing, if the cell was made empty.
pub proof fn lemma_read_before_any_write<C>(cell: ContextCell<C>, history: Seq<Access<C>>)
    requires
        forall|index: int| 0 <= index < history.len() ==> !(#[trigger] history[index] is Write),
    ensures
        cell.after_all(history).get() == cell.get(),
        cell == ContextCell::<C>::empty() ==> cell.after_all(history).get() is None,
    decreases history.len(),
{
    if history.len() > 0 {
        lemma_read_before_any_write(cell, history.drop_last());
    }
}

/// Once something was written, a read gives exactly the context of the last
/// write, however many reads and writes came before it and however many
/// reads came after it.
pub proof fn lemma_read_after_latest_write<C>(
    cell: ContextCell<C>,
    history: Seq<Access<C>>,
    index: int,
)
    requires
        is_latest_write(history, index),
    ensures
        cell.after_all(history).get() == Some(history[index]->Write_0),
    decreases history.len(),
{
    if index < history.len() - 1 {
        lemma_read_after_latest_write(cell, history.drop_last(), index);
    }
}

} // verus!
