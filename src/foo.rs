//! `Foo`: the entity that the generator makes from `struct Foo { name:
//! String }` with the command `rename(new_name: String)`, written out. It is
//! the worked example of an entity together with its aggregate.
use vstd::prelude::*;
use crate::common::{Aggregate, AggregateError, Entity, IntoString, Repository, RepositoryId};

verus! {

/// The type-level tag of `Foo` identifiers. Only the type is used; no value
/// of it is ever made.
#[derive(Clone, Copy, Debug, PartialEq, Eq)]
pub enum FooTag {
    Marker,
}

/// The identifier of a `Foo`.
pub type FooId = RepositoryId<FooTag>;

/// A named record.
#[derive(Clone, Debug)]
pub struct Foo {
    pub id: FooId,
    pub name: String,
}

impl PartialEq for Foo {
    fn eq(&self, other: &Foo) -> (r: bool)
        ensures
            r == (self.id@ == other.id@ && self.name@ == other.name@),
    {
        self.id == other.id && self.name == other.name
    }
}

impl vstd::std_specs::cmp::PartialEqSpecImpl for Foo {
    open spec fn obeys_eq_spec() -> bool {
        true
    }

    open spec fn eq_spec(&self, other: &Foo) -> bool {
        self.id@ == other.id@ && self.name@ == other.name@
    }
}

impl Foo {
    /// A `Foo` with the given identifier and name.
    pub fn new<N: IntoString>(id: FooId, name: N) -> (r: Foo)
        ensures
            r.id == id,
            r.name@ == name.string_view(),
    {
        Foo { id, name: name.into_string() }
    }

    /// The record after `rename(new_name)`.
    pub open spec fn renamed(self, new_name: String) -> Foo {
        Foo { id: self.id, name: new_name }
    }

    /// Gives the record a new name.
    pub fn rename(&mut self, new_name: String)
        ensures
            *final(self) == old(self).renamed(new_name),
    {
        self.name = new_name;
    }
}

impl Entity for Foo {
    type Tag = FooTag;

    open spec fn id_value(&self) -> u128 {
        self.id@
    }

    fn entity_id(&self) -> (r: FooId) {
        self.id.clone()
    }

    fn duplicate(&self) -> (r: Foo) {
        Foo { id: self.id.clone(), name: self.name.clone() }
    }
}

/// The commands of `Foo`: one for each command method.
#[derive(Clone, Debug)]
pub enum FooCommand {
    Rename { new_name: String },
}

/// The events of `Foo`: one for each command, with the command's fields.
#[derive(Clone, Debug)]
pub enum FooEvent {
    Rename { new_name: String },
}

impl Aggregate for Foo {
    type Command = FooCommand;

    type Event = FooEvent;

    type Error = AggregateError;

    open spec fn accepts(&self, cmd: FooCommand) -> bool {
        true
    }

    open spec fn events_for(&self, cmd: FooCommand) -> Seq<FooEvent> {
        match cmd {
            FooCommand::Rename { new_name } => seq![FooEvent::Rename { new_name }],
        }
    }

    open spec fn applied(&self, evt: FooEvent) -> Foo {
        match evt {
            FooEvent::Rename { new_name } => self.renamed(new_name),
        }
    }

    fn handle_command(&self, cmd: FooCommand) -> (r: Result<Vec<FooEvent>, AggregateError>) {
        match cmd {
            FooCommand::Rename { new_name } => {
                let mut agg = self.duplicate();
                agg.rename(new_name.clone());
                Ok(vec![FooEvent::Rename { new_name }])
            },
        }
    }

    fn apply_event(&mut self, evt: &FooEvent) {
        match evt {
            FooEvent::Rename { new_name } => {
                self.rename(new_name.clone());
            },
        }
    }
}

/// Deciding a command and applying the one event it gives changes the state
/// as invoking the command's method on the state does.
pub proof fn lemma_foo_replay_matches_method(state: Foo, cmd: FooCommand)
    ensures
        state.accepts(cmd),
        state.events_for(cmd).len() == 1,
        state.applied(state.events_for(cmd)[0]) == (match cmd {
            FooCommand::Rename { new_name } => state.renamed(new_name),
        }),
{
}

/// Persistence of `Foo` records.
pub trait FooRepository: Repository<Entity = Foo, Id = FooId> + Send + Sync {

}

impl<T: Repository<Entity = Foo, Id = FooId> + Send + Sync> FooRepository for T {

}

/// A shared handle to a store of `Foo` records.
pub type FooRepo = std::sync::Arc<dyn FooRepository>;

} // verus!
