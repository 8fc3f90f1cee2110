//! Default controller for actions.

use vstd::prelude::*;

use crate::actions::i3action::ConnectionManager;
use crate::actions::{Action, Spawner};
use crate::controllers::errors::ControllerError;
use crate::events::defaultprocessor::DefaultProcessor;
use crate::events::ActionEvent;

verus! {

/// Total map between action events and the ordered actions registered for
/// them: every one of the sixteen events always has a (possibly empty) list,
/// so lookup never fails.
pub struct ActionMap {
    /// The registered actions, indexed by [`ActionEvent::position`].
    pub actions: Vec<Vec<Action>>,
}

impl ActionMap {
    /// Well-formedness: one slot for each of the sixteen events.
    pub open spec fn wf(self) -> bool {
        self.actions@.len() == 16
    }

    /// The actions registered for an event.
    pub open spec fn spec_get(self, event: ActionEvent) -> Seq<Action> {
        self.actions@[event.position()]@
    }

    /// Return a map with an empty action list for every event.
    pub fn new() -> (r: ActionMap)
        ensures
            r.wf(),
            forall|i: int| 0 <= i < 16 ==> (#[trigger] r.actions@[i])@.len() == 0,
    {
        let mut actions: Vec<Vec<Action>> = Vec::new();
        let mut i: usize = 0;
        while i < 16
            invariant
                actions@.len() == i,
                i <= 16,
                forall|j: int| 0 <= j < i ==> (#[trigger] actions@[j])@.len() == 0,
            decreases 16 - i,
        {
            actions.push(Vec::new());
            i = i + 1;
        }
        ActionMap { actions }
    }

    /// Return the actions registered for an event.
    pub fn get(&self, event: ActionEvent) -> (r: &Vec<Action>)
        requires
            self.wf(),
        ensures
            r@ == self.spec_get(event),
    {
        &self.actions[event.index()]
    }

    /// Replace the actions registered for an event.
    pub fn insert(&mut self, event: ActionEvent, actions: Vec<Action>)
        requires
            old(self).wf(),
        ensures
            final(self).wf(),
            final(self).spec_get(event) == actions@,
            forall|i: int|
                0 <= i < 16 && i != event.position() ==> final(self).actions@[i] == old(
                    self,
                ).actions@[i],
    {
        let idx = event.index();
        self.actions[idx] = actions;
    }
}

/// Controller that maps between events and actions: it owns the event
/// processor, the action registry, the shared window-manager connection and
/// the process spawner, and dispatches each classified event to the actions
/// registered for it.
pub struct DefaultController<S: Spawner> {
    /// Processor for events.
    pub processor: DefaultProcessor,
    /// Map between events and actions.
    pub actions: ActionMap,
    /// Owner of the shared window-manager connection.
    pub connection: ConnectionManager,
    /// The process execution collaborator.
    pub spawner: S,
}

impl<S: Spawner> DefaultController<S> {
    /// Well-formedness: the registry has a slot for every event.
    pub open spec fn wf(self) -> bool {
        self.actions.wf()
    }

    /// Return a new [`DefaultController`].
    pub fn new(
        processor: DefaultProcessor,
        actions: ActionMap,
        connection: ConnectionManager,
        spawner: S,
    ) -> (r: DefaultController<S>)
        requires
            actions.wf(),
        ensures
            r.wf(),
            r.processor == processor,
            r.actions == actions,
            r.connection == connection,
    {
        DefaultController { processor, actions, connection, spawner }
    }

    /// Execute the actions registered for an event, in registration order.
    ///
    /// A failing action is absorbed: it stops neither the remaining actions
    /// of the same list nor the caller's loop.  Because the registry is
    /// total, lookup cannot fail and the result is always `Ok`; an event
    /// with no registered actions dispatches with no effect.
    pub fn process_action_event(&mut self, action_event: ActionEvent) -> (r: Result<
        (),
        ControllerError,
    >)
        requires
            old(self).wf(),
        ensures
            final(self).wf(),
            r is Ok,
            final(self).processor == old(self).processor,
            final(self).actions == old(self).actions,
            final(self).connection.attempted == old(self).connection.attempted,
            final(self).connection.connection is Some <==> old(
                self,
            ).connection.connection is Some,
    {
        let idx = action_event.index();
        let count = self.actions.actions[idx].len();
        let mut i: usize = 0;
        while i < count
            invariant
                old(self).wf(),
                self.wf(),
                idx < 16,
                self.processor == old(self).processor,
                self.actions == old(self).actions,
                self.connection.attempted == old(self).connection.attempted,
                self.connection.connection is Some <==> old(self).connection.connection is Some,
                count == self.actions.actions@[idx as int]@.len(),
            decreases count - i,
        {
            // A failure is absorbed; the remaining actions still run.
            let _ = Action::execute_command(
                &self.actions.actions[idx][i],
                &mut self.connection,
                &mut self.spawner,
            );
            i = i + 1;
        }
        Ok(())
    }
}

} // verus!
