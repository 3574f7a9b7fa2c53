//! Identifiers shared by every entity, and the two contracts that entities
//! and their stores fulfil: the repository port and the aggregate.
use core::marker::PhantomData;
use vstd::prelude::*;
use crate::id_text::{hyphenated_text, lemma_hyphenated_round_trip, uuid_text_value};

verus! {

/// The error of `uuid::Uuid::parse_str`, carried as it is.
#[verifier::external_type_specification]
#[verifier::external_body]
pub struct ExUuidError(uuid::Error);

/// Whether `v` carries the version nibble 4 and the variant bits `0b10` of a
/// random (version 4) UUID.
pub open spec fn is_v4_value(v: u128) -> bool {
    (v >> 76u128) & 0xfu128 == 4 && (v >> 62u128) & 3u128 == 2
}

/// Relies on `uuid::Uuid::new_v4`: random bits from the system's source, with
/// the version and variant bits of a version 4 UUID set.
#[verifier::external_body]
fn random_v4_value() -> (r: u128)
    ensures
        is_v4_value(r),
{
    uuid::Uuid::new_v4().as_u128()
}

/// Relies on the `Display` impl of `uuid::Uuid`: the lower-case hyphenated form.
#[verifier::external_body]
fn uuid_text(v: u128) -> (r: String)
    ensures
        r@ == hyphenated_text(v),
{
    uuid::Uuid::from_u128(v).to_string()
}

/// Relies on `uuid::Uuid::parse_str` (and `Uuid::as_u128`): it accepts
/// exactly the simple, hyphenated, braced and URN forms, with hex digits of
/// either case, and reads the digits most significant first.
#[verifier::external_body]
fn parse_uuid(s: &str) -> (r: Result<u128, uuid::Error>)
    ensures
        r is Ok <==> uuid_text_value(s@) is Some,
        r is Ok ==> r->Ok_0 == uuid_text_value(s@)->Some_0,
{
    match uuid::Uuid::parse_str(s) {
        Ok(u) => Ok(u.as_u128()),
        Err(e) => Err(e),
    }
}

/// The error of [`RepositoryId::from_str`]: the text is no UUID.
#[derive(Debug, Clone, Copy, PartialEq, Eq)]
pub enum IdParseError {
    Malformed,
}

/// The identifier of an entity: a 128-bit value, tagged at the type level
/// with the entity it belongs to. The tag is not part of the value, so
/// identifiers of different entities share one text form.
#[derive(Copy, Debug, Hash)]
pub struct RepositoryId<T> {
    value: u128,
    _marker: PhantomData<T>,
}

impl<T> View for RepositoryId<T> {
    type V = u128;

    closed spec fn view(&self) -> u128 {
        self.value
    }
}

impl<T> Clone for RepositoryId<T> {
    fn clone(&self) -> (r: Self)
        ensures
            r == *self,
    {
        RepositoryId { value: self.value, _marker: PhantomData }
    }
}

impl<T> PartialEq for RepositoryId<T> {
    fn eq(&self, other: &Self) -> (r: bool)
        ensures
            r == (self@ == other@),
    {
        self.value == other.value
    }
}

impl<T> Eq for RepositoryId<T> {

}

impl<T> vstd::std_specs::cmp::PartialEqSpecImpl for RepositoryId<T> {
    open spec fn obeys_eq_spec() -> bool {
        true
    }

    open spec fn eq_spec(&self, other: &Self) -> bool {
        self@ == other@
    }
}

/// `let id: RepositoryId<Foo> = value.into();`
impl<T> From<u128> for RepositoryId<T> {
    fn from(value: u128) -> (r: Self)
        ensures
            r@ == value,
    {
        RepositoryId { value, _marker: PhantomData }
    }
}

impl<T> vstd::std_specs::convert::FromSpecImpl<u128> for RepositoryId<T> {
    open spec fn obeys_from_spec() -> bool {
        true
    }

    closed spec fn from_spec(v: u128) -> Self {
        RepositoryId { value: v, _marker: PhantomData }
    }
}

/// `let value: u128 = id.into();`
impl<T> From<RepositoryId<T>> for u128 {
    fn from(id: RepositoryId<T>) -> (r: u128)
        ensures
            r == id@,
    {
        id.value
    }
}

impl<T> vstd::std_specs::convert::FromSpecImpl<RepositoryId<T>> for u128 {
    open spec fn obeys_from_spec() -> bool {
        true
    }

    open spec fn from_spec(id: RepositoryId<T>) -> u128 {
        id@
    }
}

impl<T> core::str::FromStr for RepositoryId<T> {
    type Err = IdParseError;

    fn from_str(s: &str) -> (r: Result<Self, IdParseError>)
        ensures
            r is Ok <==> uuid_text_value(s@) is Some,
            r is Ok ==> r->Ok_0@ == uuid_text_value(s@)->Some_0,
    {
        RepositoryId::<T>::from_str(s)
    }
}

impl<T> Default for RepositoryId<T> {
    fn default() -> (r: Self)
        ensures
            is_v4_value(r@),
    {
        Self::new()
    }
}

impl<T> RepositoryId<T> {
    /// A fresh random identifier.
    pub fn new() -> (r: Self)
        ensures
            is_v4_value(r@),
    {
        RepositoryId { value: random_v4_value(), _marker: PhantomData }
    }

    /// The identifier with the given value.
    pub fn from_u128(value: u128) -> (r: Self)
        ensures
            r@ == value,
    {
        RepositoryId { value, _marker: PhantomData }
    }

    /// The value of the identifier.
    pub fn as_u128(&self) -> (r: u128)
        ensures
            r == self@,
    {
        self.value
    }

    /// The canonical text of the identifier: lower-case hyphenated hex.
    pub fn to_string(&self) -> (r: String)
        ensures
            r@ == hyphenated_text(self@),
    {
        uuid_text(self.value)
    }

    /// Reads an identifier from any text form that UUIDs are written in.
    pub fn from_str(s: &str) -> (r: Result<Self, IdParseError>)
        ensures
            r is Ok <==> uuid_text_value(s@) is Some,
            r is Ok ==> r->Ok_0@ == uuid_text_value(s@)->Some_0,
    {
        match parse_uuid(s) {
            Ok(v) => Ok(RepositoryId { value: v, _marker: PhantomData }),
            Err(_) => Err(IdParseError::Malformed),
        }
    }
}

/// Reading back the text of an identifier gives that identifier.
pub proof fn lemma_id_text_round_trip<T>(id: RepositoryId<T>)
    ensures
        uuid_text_value(hyphenated_text(id@)) == Some(id@),
{
    lemma_hyphenated_round_trip(id@);
}

/// The text of an identifier carries no trace of its entity: the text of an
/// identifier of one entity, read as an identifier of another, gives the
/// same value; and two identifiers have the same text exactly when they have
/// the same value, whatever entities they belong to.
pub proof fn lemma_id_text_erases_tag<A, B>(a: RepositoryId<A>, b: RepositoryId<B>)
    ensures
        uuid_text_value(hyphenated_text(a@)) == Some(a@),
        (hyphenated_text(a@) == hyphenated_text(b@)) <==> (a@ == b@),
{
    lemma_hyphenated_round_trip(a@);
    lemma_hyphenated_round_trip(b@);
}

/// A value that a `String` field can be made from: the constructors of the
/// entities take any of these where a text field is declared.
pub trait IntoString: Sized {
    /// The text that the conversion gives.
    spec fn string_view(&self) -> Seq<char>;

    fn into_string(self) -> (r: String)
        ensures
            r@ == self.string_view(),
    ;
}

impl<'a> IntoString for &'a str {
    open spec fn string_view(&self) -> Seq<char> {
        (*self)@
    }

    fn into_string(self) -> (r: String) {
        self.to_owned()
    }
}

impl<'a> IntoString for &'a String {
    open spec fn string_view(&self) -> Seq<char> {
        (*self)@
    }

    fn into_string(self) -> (r: String) {
        self.clone()
    }
}

impl IntoString for String {
    open spec fn string_view(&self) -> Seq<char> {
        self@
    }

    fn into_string(self) -> (r: String) {
        self
    }
}

/// What a store reports when it cannot do its work (its storage is
/// unavailable, say). The store words the message; callers pass it on
/// without looking into it.
#[derive(Debug, Clone, PartialEq, Eq)]
pub struct RepositoryError {
    pub message: String,
}

/// The port through which entities are stored and found again. It is bound
/// to an entity and an identifier type only, so a shared handle
/// `Arc<dyn ...>` to a store names nothing more. Each store decides what it
/// hands back from `create` and when it fails.
///
/// `create` takes the store exclusively; through a shared handle only
/// `fetch` can be called, and a store that is shared while it takes new
/// entities does its own locking behind `fetch`'s `&self`.
pub trait Repository {
    /// The stored entity.
    type Entity;

    /// The identifier that entities are fetched by.
    type Id;

    /// Stores an entity and hands back the stored entity.
    fn create(&mut self, entity: Self::Entity) -> Result<Self::Entity, RepositoryError>;

    /// The entity with the given identifier, or `None` where there is none;
    /// absence is no error.
    fn fetch(&self, id: Self::Id) -> Result<Option<Self::Entity>, RepositoryError>;
}

/// An entity: a record whose first field is an identifier tagged with the
/// entity's own tag type.
pub trait Entity: Sized {
    /// The tag of the entity's identifiers.
    type Tag;

    /// The value of the entity's identifier.
    spec fn id_value(&self) -> u128;

    /// The entity's identifier.
    fn entity_id(&self) -> (r: RepositoryId<Self::Tag>)
        ensures
            r@ == self.id_value(),
    ;

    /// A copy of the entity.
    fn duplicate(&self) -> (r: Self)
        ensures
            r == *self,
    ;
}

/// An aggregate: an entity state that decides which events a command gives
/// and changes only by applying events.
pub trait Aggregate: Sized {
    type Command;

    type Event;

    type Error;

    /// Whether the state takes the command.
    spec fn accepts(&self, cmd: Self::Command) -> bool;

    /// The events that the command gives where the state takes it.
    spec fn events_for(&self, cmd: Self::Command) -> Seq<Self::Event>;

    /// The state after the event.
    spec fn applied(&self, evt: Self::Event) -> Self;

    /// Decides a command on a copy of the state; the state itself is left as
    /// it is.
    fn handle_command(&self, cmd: Self::Command) -> (r: Result<Vec<Self::Event>, Self::Error>)
        ensures
            r is Ok <==> self.accepts(cmd),
            r is Ok ==> r->Ok_0@ == self.events_for(cmd),
    ;

    /// Applies an event to the state itself.
    fn apply_event(&mut self, evt: &Self::Event)
        ensures
            *final(self) == old(self).applied(*evt),
    ;
}

/// The state after applying the events in order.
pub open spec fn replayed<A: Aggregate>(state: A, events: Seq<A::Event>) -> A
    decreases events.len(),
{
    if events.len() == 0 {
        state
    } else {
        replayed(state, events.drop_last()).applied(events.last())
    }
}

/// Replays events on a state: applies each event in order, as the event log
/// of an aggregate is replayed.
pub fn replay<A: Aggregate>(state: &mut A, events: &Vec<A::Event>)
    ensures
        *final(state) == replayed(*old(state), events@),
{
    let ghost start = *state;
    let mut i: usize = 0;
    while i < events.len()
        invariant
            i <= events.len(),
            *state == replayed(start, events@.take(i as int)),
        decreases events.len() - i,
    {
        assert(events@.take(i as int + 1).drop_last() == events@.take(i as int));
        state.apply_event(&events[i]);
        i = i + 1;
    }
    assert(events@.take(i as int) == events@);
}

/// The error type of generated aggregates. Generated command handlers take
/// every command, so they never return it; a handler that validates
/// commands reports a refusal with it.
#[derive(Debug, Clone, Copy, PartialEq, Eq)]
pub enum AggregateError {
    Rejected,
}

} // verus!
