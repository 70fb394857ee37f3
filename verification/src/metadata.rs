//! The committed metadata a gate grounds its scopes in, and the resolution of
//! identifiers to committed slots.
//!
//! Streams, topics and users live in slots: an entity keeps its slot until it
//! is removed, and a slot's position is the entity's numeric id.

use vstd::prelude::*;

verus! {

/// How a request names an entity on the wire.
#[derive(Debug, PartialEq, Eq)]
pub enum WireIdentifier {
    /// By its numeric id, which is its slot.
    Numeric(u32),
    /// By its name.
    String(String),
}

impl WireIdentifier {
    /// The two name an entity in the same way.
    pub open spec fn same_as(self, other: WireIdentifier) -> bool {
        match (self, other) {
            (WireIdentifier::Numeric(one), WireIdentifier::Numeric(two)) => one == two,
            (WireIdentifier::String(one), WireIdentifier::String(two)) => one@ == two@,
            _ => false,
        }
    }
}

impl Clone for WireIdentifier {
    fn clone(&self) -> (copy: WireIdentifier)
        ensures
            copy.same_as(*self),
    {
        match self {
            WireIdentifier::Numeric(number) => WireIdentifier::Numeric(*number),
            WireIdentifier::String(name) => WireIdentifier::String(name.clone()),
        }
    }
}

/// An entity that can be named in a request.
pub trait Named: Sized {
    /// The entity's name.
    spec fn spec_name(&self) -> Seq<char>;

    /// Whether this is the entity's name.
    fn is_named(&self, name: &String) -> (yes: bool)
        ensures
            yes == (self.spec_name() == name@),
    ;
}

/// One partition of a topic.
#[derive(Debug, PartialEq, Eq)]
pub struct Partition {
    /// The metadata revision that created the partition. A topic that is
    /// deleted and created again gets partitions of a later revision.
    pub created_revision: u64,
}

/// One option a topic was created or updated with.
#[derive(Debug, PartialEq, Eq)]
pub struct TopicOption {
    pub key: String,
    pub value: Vec<u8>,
}

/// A committed topic.
#[derive(Debug, PartialEq, Eq)]
pub struct Topic {
    pub id: usize,
    pub name: String,
    pub partitions: Vec<Partition>,
    pub options: Vec<TopicOption>,
}

/// A committed stream with its topics.
#[derive(Debug, PartialEq, Eq)]
pub struct Stream {
    pub name: String,
    pub topics: Vec<Option<Topic>>,
}

/// A committed user.
#[derive(Debug, PartialEq, Eq)]
pub struct User {
    pub username: String,
}

/// All committed streams.
#[derive(Debug, PartialEq, Eq)]
pub struct StreamsInner {
    pub items: Vec<Option<Stream>>,
}

/// All committed users, with the permissioner `P` that holds their grants.
#[derive(Debug, PartialEq, Eq)]
pub struct UsersInner<P> {
    pub items: Vec<Option<User>>,
    pub permissioner: P,
}

/// What a request sees of the node it landed on.
#[derive(Debug, PartialEq, Eq)]
pub struct HttpInner<P> {
    pub streams: StreamsInner,
    pub users: UsersInner<P>,
    /// Whether this node is the metadata primary.
    pub metadata_primary: bool,
}

impl Named for Stream {
    open spec fn spec_name(&self) -> Seq<char> {
        self.name@
    }

    fn is_named(&self, name: &String) -> (yes: bool) {
        self.name == *name
    }
}

impl Named for Topic {
    open spec fn spec_name(&self) -> Seq<char> {
        self.name@
    }

    fn is_named(&self, name: &String) -> (yes: bool) {
        self.name == *name
    }
}

impl Named for User {
    open spec fn spec_name(&self) -> Seq<char> {
        self.username@
    }

    fn is_named(&self, name: &String) -> (yes: bool) {
        self.username == *name
    }
}

/// What the slot `id` holds, if there is such a slot and it is occupied.
pub open spec fn slot_of<T>(slots: Seq<Option<T>>, id: int) -> Option<T> {
    if 0 <= id < slots.len() {
        slots[id]
    } else {
        None
    }
}

/// What the slot `id` holds.
pub fn slot<T>(slots: &Vec<Option<T>>, id: usize) -> (entry: Option<&T>)
    ensures
        entry == match slot_of(slots@, id as int) {
            Some(held) => Some(&held),
            None => None,
        },
{
    if id < slots.len() {
        slots[id].as_ref()
    } else {
        None
    }
}

/// The slot `id` is occupied by an entity that `identifier` names.
pub open spec fn designates<T: Named>(
    identifier: WireIdentifier,
    slots: Seq<Option<T>>,
    id: int,
) -> bool {
    slot_of(slots, id) matches Some(entry) && match identifier {
        WireIdentifier::Numeric(number) => id == number,
        WireIdentifier::String(name) => entry.spec_name() == name@,
    }
}

/// The slot `id` is the lowest that `identifier` names.
pub open spec fn designates_first<T: Named>(
    identifier: WireIdentifier,
    slots: Seq<Option<T>>,
    id: int,
) -> bool {
    designates(identifier, slots, id) && forall|lower: int|
        lower < id ==> !designates(identifier, slots, lower)
}

/// The slot that `identifier` resolves to, or `None` on a miss. Where names are
/// unique at most one slot is named at all; see [`names_are_unique`].
pub open spec fn lookup<T: Named>(identifier: WireIdentifier, slots: Seq<Option<T>>) -> Option<
    usize,
> {
    if exists|id: int| designates(identifier, slots, id) {
        Some((choose|id: int| designates_first(identifier, slots, id)) as usize)
    } else {
        None
    }
}

/// No name occurs twice among the occupied slots.
pub open spec fn names_are_unique<T: Named>(slots: Seq<Option<T>>) -> bool {
    forall|i: int, j: int|
        0 <= i < slots.len() && 0 <= j < slots.len() && (#[trigger] slots[i]) is Some && (
        #[trigger] slots[j]) is Some && slots[i]->0.spec_name() == slots[j]->0.spec_name() ==> i
            == j
}

proof fn lemma_first_is_lookup<T: Named>(
    identifier: WireIdentifier,
    slots: Seq<Option<T>>,
    id: int,
)
    requires
        designates_first(identifier, slots, id),
    ensures
        lookup(identifier, slots) == Some(id as usize),
{
    let chosen = choose|c: int| designates_first(identifier, slots, c);
    assert(designates_first(identifier, slots, chosen));
    assert(chosen == id);
}

fn lookup_slot<T: Named>(identifier: &WireIdentifier, slots: &Vec<Option<T>>) -> (found: Option<
    usize,
>)
    ensures
        found == lookup(*identifier, slots@),
{
    match identifier {
        WireIdentifier::Numeric(number) => {
            let id: usize = *number as usize;
            if slot(slots, id).is_some() {
                proof {
                    lemma_first_is_lookup(*identifier, slots@, id as int);
                }
                Some(id)
            } else {
                None
            }
        },
        WireIdentifier::String(name) => {
            let mut id: usize = 0;
            while id < slots.len()
                invariant
                    id <= slots.len(),
                    identifier == WireIdentifier::String(*name),
                    forall|lower: int| lower < id ==> !designates(*identifier, slots@, lower),
                decreases slots.len() - id,
            {
                if let Some(entry) = slot(slots, id) {
                    if entry.is_named(name) {
                        proof {
                            lemma_first_is_lookup(*identifier, slots@, id as int);
                        }
                        return Some(id);
                    }
                }
                id += 1;
            }
            None
        },
    }
}

/// The committed id of the stream that `identifier` names in `streams`.
pub open spec fn stream_id_of(streams: StreamsInner, identifier: WireIdentifier) -> Option<usize> {
    lookup(identifier, streams.items@)
}

/// The committed id of the topic that `identifier` names in the stream with
/// the id `stream_id`.
pub open spec fn topic_id_of(
    streams: StreamsInner,
    stream_id: usize,
    identifier: WireIdentifier,
) -> Option<usize> {
    match slot_of(streams.items@, stream_id as int) {
        Some(stream) => lookup(identifier, stream.topics@),
        None => None,
    }
}

/// The committed ids that a (stream, topic) pair of identifiers names.
pub open spec fn topic_ids_of(
    streams: StreamsInner,
    stream: WireIdentifier,
    topic: WireIdentifier,
) -> Option<(usize, usize)> {
    match stream_id_of(streams, stream) {
        Some(stream_id) => match topic_id_of(streams, stream_id, topic) {
            Some(topic_id) => Some((stream_id, topic_id)),
            None => None,
        },
        None => None,
    }
}

/// The topic in a stream's slot.
pub open spec fn topic_of(streams: StreamsInner, stream_id: usize, topic_id: usize) -> Option<
    Topic,
> {
    match slot_of(streams.items@, stream_id as int) {
        Some(stream) => slot_of(stream.topics@, topic_id as int),
        None => None,
    }
}

/// Resolves a stream identifier to its committed id, or `None` on a miss.
pub fn resolve_stream_id(inner: &StreamsInner, stream_id: &WireIdentifier) -> (found: Option<usize>)
    ensures
        found == stream_id_of(*inner, *stream_id),
{
    lookup_slot(stream_id, &inner.items)
}

/// Resolves a topic identifier inside a stream to its committed id, or `None`
/// on a miss.
pub fn resolve_topic_id(
    inner: &StreamsInner,
    stream_id: usize,
    topic_id: &WireIdentifier,
) -> (found: Option<usize>)
    ensures
        found == topic_id_of(*inner, stream_id, *topic_id),
{
    match slot(&inner.items, stream_id) {
        Some(stream) => lookup_slot(topic_id, &stream.topics),
        None => None,
    }
}

/// Resolves a (stream, topic) pair, or `None` if either misses.
pub fn resolve_topic_ids(
    inner: &StreamsInner,
    stream_id: &WireIdentifier,
    topic_id: &WireIdentifier,
) -> (found: Option<(usize, usize)>)
    ensures
        found == topic_ids_of(*inner, *stream_id, *topic_id),
{
    let stream_id = resolve_stream_id(inner, stream_id)?;
    let topic_id = resolve_topic_id(inner, stream_id, topic_id)?;
    Some((stream_id, topic_id))
}

impl StreamsInner {
    /// The topic in a stream's slot.
    pub fn topic(&self, stream_id: usize, topic_id: usize) -> (found: Option<&Topic>)
        ensures
            found == match topic_of(*self, stream_id, topic_id) {
                Some(topic) => Some(&topic),
                None => None,
            },
    {
        let stream = slot(&self.items, stream_id)?;
        slot(&stream.topics, topic_id)
    }
}

impl<P> UsersInner<P> {
    /// Resolves a user identifier to its committed id, or `None` on a miss.
    pub fn resolve_user_id(&self, user_id: &WireIdentifier) -> (found: Option<usize>)
        ensures
            found == lookup(*user_id, self.items@),
    {
        lookup_slot(user_id, &self.items)
    }
}

proof fn lemma_some_slot_is_first<T: Named>(
    identifier: WireIdentifier,
    slots: Seq<Option<T>>,
    id: int,
)
    requires
        designates(identifier, slots, id),
    ensures
        exists|first: int| first <= id && designates_first(identifier, slots, first),
    decreases id,
{
    if forall|lower: int| lower < id ==> !designates(identifier, slots, lower) {
        assert(designates_first(identifier, slots, id));
    } else {
        let lower = choose|lower: int| lower < id && designates(identifier, slots, lower);
        lemma_some_slot_is_first(identifier, slots, lower);
    }
}

/// An identifier resolves to a slot exactly when that slot is the lowest it
/// names, and misses exactly when it names no occupied slot.
pub proof fn lookup_finds_the_first_named_slot<T: Named>(
    identifier: WireIdentifier,
    slots: Seq<Option<T>>,
)
    requires
        slots.len() <= usize::MAX,
    ensures
        lookup(identifier, slots) is None <==> forall|id: int| !designates(identifier, slots, id),
        forall|id: usize| #[trigger]
            designates_first(identifier, slots, id as int) <==> lookup(identifier, slots) == Some(
                id,
            ),
{
    if exists|id: int| designates(identifier, slots, id) {
        let id = choose|id: int| designates(identifier, slots, id);
        lemma_some_slot_is_first(identifier, slots, id);
        let first = choose|first: int| designates_first(identifier, slots, first);
        lemma_first_is_lookup(identifier, slots, first);
        assert forall|other: usize| #[trigger]
            designates_first(identifier, slots, other as int) implies lookup(identifier, slots)
            == Some(other) by {
            lemma_first_is_lookup(identifier, slots, other as int);
        }
    }
}

/// A numeric identifier resolves to the slot of that number, and to nothing
/// where that slot is not occupied.
pub proof fn numeric_identifier_is_its_slot<T: Named>(number: u32, slots: Seq<Option<T>>)
    requires
        slots.len() <= usize::MAX,
    ensures
        lookup(WireIdentifier::Numeric(number), slots) == (if slot_of(slots, number as int) is Some {
            Some(number as usize)
        } else {
            None
        }),
{
    let identifier = WireIdentifier::Numeric(number);
    lookup_finds_the_first_named_slot(identifier, slots);
    if slot_of(slots, number as int) is Some {
        assert(designates_first(identifier, slots, number as usize as int));
    }
}

/// Where names are unique, a name resolves to a slot exactly when the entity in
/// that slot bears it.
pub proof fn unique_name_is_its_slot<T: Named>(name: String, slots: Seq<Option<T>>, id: usize)
    requires
        slots.len() <= usize::MAX,
        names_are_unique(slots),
    ensures
        lookup(WireIdentifier::String(name), slots) == Some(id) <==> (slot_of(
            slots,
            id as int,
        ) matches Some(entry) && entry.spec_name() == name@),
{
    let identifier = WireIdentifier::String(name);
    lookup_finds_the_first_named_slot(identifier, slots);
    if designates(identifier, slots, id as int) {
        assert(slots[id as int] is Some);
        assert forall|lower: int| lower < id implies !designates(identifier, slots, lower) by {
            if designates(identifier, slots, lower) {
                assert(slots[lower] is Some);
            }
        }
    }
    assert(designates_first(identifier, slots, id as int) <==> designates(
        identifier,
        slots,
        id as int,
    ));
}

/// Identifiers that name an entity in the same way resolve alike.
pub proof fn same_identifier_resolves_alike<T: Named>(
    one: WireIdentifier,
    other: WireIdentifier,
    slots: Seq<Option<T>>,
)
    requires
        slots.len() <= usize::MAX,
        one.same_as(other),
    ensures
        lookup(one, slots) == lookup(other, slots),
{
    lookup_finds_the_first_named_slot(one, slots);
    lookup_finds_the_first_named_slot(other, slots);
    assert forall|id: int| designates(one, slots, id) == designates(other, slots, id) by {}
    if let Some(id) = lookup(one, slots) {
        assert(designates_first(one, slots, id as int));
        assert(designates_first(other, slots, id as int));
    } else {
        assert(forall|id: int| !designates(other, slots, id));
    }
}

/// Pairs that name their entities in the same way resolve to the same topic.
pub proof fn same_pair_resolves_alike(
    streams: StreamsInner,
    stream: WireIdentifier,
    topic: WireIdentifier,
    other_stream: WireIdentifier,
    other_topic: WireIdentifier,
)
    requires
        stream.same_as(other_stream),
        topic.same_as(other_topic),
    ensures
        topic_ids_of(streams, stream, topic) == topic_ids_of(streams, other_stream, other_topic),
{
    let items = streams.items;
    assert(items@.len() == items.len());
    same_identifier_resolves_alike(stream, other_stream, items@);
    if let Some(stream_id) = stream_id_of(streams, stream) {
        if let Some(held) = slot_of(items@, stream_id as int) {
            let topics = held.topics;
            assert(topics@.len() == topics.len());
            same_identifier_resolves_alike(topic, other_topic, topics@);
        }
    }
}

/// A (stream, topic) pair that resolves grounds a scope on a committed topic.
pub proof fn resolved_topic_is_committed(
    streams: StreamsInner,
    stream: WireIdentifier,
    topic: WireIdentifier,
)
    ensures
        topic_ids_of(streams, stream, topic) matches Some(ids) ==> topic_of(streams, ids.0, ids.1)
            is Some,
{
    if let Some(ids) = topic_ids_of(streams, stream, topic) {
        let items = streams.items;
        assert(items@.len() == items.len());
        lookup_finds_the_first_named_slot(stream, items@);
        assert(designates_first(stream, items@, ids.0 as int));
        let topics = slot_of(items@, ids.0 as int)->0.topics;
        assert(topics@.len() == topics.len());
        lookup_finds_the_first_named_slot(topic, topics@);
        assert(designates_first(topic, topics@, ids.1 as int));
    }
}

} // verus!
