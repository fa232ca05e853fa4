//! The operation registry: every operation of every registered entity,
//! under the name it is called by.

use crate::aql::AQLQuery;
use crate::arguments::{Argument, Arguments, Field};
use crate::metadata::{DbEntity, DbRelationship};
use crate::naming::operation_name;
use crate::operations::{
    kind_accepts, kind_argument_contract, kind_field_type, planned_call, Get, GetAll, Operation,
    OperationData, OperationDataView, OperationKind, PendingCall,
};
use std::sync::Arc;
use vstd::prelude::*;

verus! {

/// One registered operation: its kind and the data of its entity.
#[derive(Debug, PartialEq)]
pub struct OperationEntry {
    pub kind: OperationKind,
    pub data: Arc<OperationData>,
}

/// What an `OperationEntry` holds.
pub struct OperationEntryView {
    pub kind: OperationKind,
    pub data: OperationDataView,
}

impl View for OperationEntry {
    type V = OperationEntryView;

    open spec fn view(&self) -> OperationEntryView {
        OperationEntryView { kind: self.kind, data: self.data@ }
    }
}

/// Hands out one more pointer to the data of an entity.
///
/// Calls `Arc::clone`. Not proved: the new pointer leads to the value that
/// the old one leads to.
#[verifier::external_body]
fn share(data: &Arc<OperationData>) -> (shared: Arc<OperationData>)
    ensures
        shared == *data,
{
    Arc::clone(data)
}

/// The keys and entries of a list of registered operations.
pub open spec fn listed(operations: Seq<(String, OperationEntry)>) -> Seq<
    (Seq<char>, OperationEntryView),
> {
    Seq::new(operations.len(), |i: int| (operations[i].0@, operations[i].1@))
}

/// Whether no key occurs twice.
pub open spec fn keys_distinct(entries: Seq<(Seq<char>, OperationEntryView)>) -> bool {
    forall|i: int, j: int|
        0 <= i < entries.len() && 0 <= j < entries.len() && i != j ==> (#[trigger] entries[i]).0
            != (#[trigger] entries[j]).0
}

/// Whether some entry stands under `key`.
pub open spec fn has_key(entries: Seq<(Seq<char>, OperationEntryView)>, key: Seq<char>) -> bool {
    exists|i: int| 0 <= i < entries.len() && (#[trigger] entries[i]).0 == key
}

/// The place of an entry that stands under `key`.
pub open spec fn index_of(entries: Seq<(Seq<char>, OperationEntryView)>, key: Seq<char>) -> int {
    choose|i: int| 0 <= i < entries.len() && (#[trigger] entries[i]).0 == key
}

/// The entries by their keys.
pub open spec fn as_map(entries: Seq<(Seq<char>, OperationEntryView)>) -> Map<
    Seq<char>,
    OperationEntryView,
> {
    Map::new(|key: Seq<char>| has_key(entries, key), |key: Seq<char>| entries[index_of(entries, key)].1)
}

/// Where keys are distinct, an entry is found under its own key.
pub proof fn lemma_entry_under_its_key(entries: Seq<(Seq<char>, OperationEntryView)>, i: int)
    requires
        keys_distinct(entries),
        0 <= i < entries.len(),
    ensures
        as_map(entries).contains_key(entries[i].0),
        as_map(entries)[entries[i].0] == entries[i].1,
{
    let key = entries[i].0;
    assert(has_key(entries, key));
    let j = index_of(entries, key);
    assert(0 <= j < entries.len() && entries[j].0 == key);
}

/// Adding an entry under a fresh key adds that key to the map.
pub proof fn lemma_push_is_insert(
    entries: Seq<(Seq<char>, OperationEntryView)>,
    key: Seq<char>,
    entry: OperationEntryView,
)
    requires
        keys_distinct(entries),
        !has_key(entries, key),
    ensures
        keys_distinct(entries.push((key, entry))),
        as_map(entries.push((key, entry))) == as_map(entries).insert(key, entry),
{
    let after = entries.push((key, entry));
    assert forall|i: int, j: int|
        0 <= i < after.len() && 0 <= j < after.len() && i != j implies (#[trigger] after[i]).0 != (
        #[trigger] after[j]).0 by {
        if i < entries.len() && j < entries.len() {
            assert(entries[i].0 != entries[j].0);
        } else if i < entries.len() {
            assert(entries[i].0 != key);
        } else {
            assert(entries[j].0 != key);
        }
    }
    assert forall|k: Seq<char>| has_key(after, k) <==> (k == key || has_key(entries, k)) by {
        if has_key(after, k) {
            let i = index_of(after, k);
            if i < entries.len() {
                assert(entries[i].0 == k);
            }
        }
        if k == key {
            assert(after[entries.len() as int].0 == k);
        }
        if has_key(entries, k) {
            let i = index_of(entries, k);
            assert(after[i].0 == k);
        }
    }
    assert forall|k: Seq<char>| has_key(after, k) implies #[trigger] as_map(after)[k] == as_map(
        entries,
    ).insert(key, entry)[k] by {
        let i = index_of(after, k);
        if k == key {
            assert(after[entries.len() as int].0 == k);
        } else {
            let j = index_of(entries, k);
            assert(after[j].0 == k);
        }
    }
    assert(as_map(after) =~= as_map(entries).insert(key, entry));
}

/// Replacing the entry under a key replaces it in the map.
pub proof fn lemma_update_is_insert(
    entries: Seq<(Seq<char>, OperationEntryView)>,
    i: int,
    entry: OperationEntryView,
)
    requires
        keys_distinct(entries),
        0 <= i < entries.len(),
    ensures
        keys_distinct(entries.update(i, (entries[i].0, entry))),
        as_map(entries.update(i, (entries[i].0, entry))) == as_map(entries).insert(
            entries[i].0,
            entry,
        ),
{
    let key = entries[i].0;
    let after = entries.update(i, (key, entry));
    assert forall|a: int, b: int|
        0 <= a < after.len() && 0 <= b < after.len() && a != b implies (#[trigger] after[a]).0 != (
        #[trigger] after[b]).0 by {
        assert(entries[a].0 != entries[b].0);
    }
    assert forall|k: Seq<char>| has_key(after, k) <==> (k == key || has_key(entries, k)) by {
        if has_key(after, k) {
            let a = index_of(after, k);
            assert(entries[a].0 == k);
        }
        if k == key {
            assert(after[i].0 == k);
        }
        if has_key(entries, k) {
            let a = index_of(entries, k);
            assert(after[a].0 == k);
        }
    }
    assert forall|k: Seq<char>| has_key(after, k) implies #[trigger] as_map(after)[k] == as_map(
        entries,
    ).insert(key, entry)[k] by {
        let a = index_of(after, k);
        if k == key {
            assert(after[i].0 == k);
        } else {
            let b = index_of(entries, k);
            assert(after[b].0 == k);
        }
    }
    assert(as_map(after) =~= as_map(entries).insert(key, entry));
}

/// What registering an entity does to the names. With the entity's `Get`
/// put under `get_key` and then its `GetAll` under `get_all_key`, both names
/// are held, `get_all_key` leads to the `GetAll` entry, `get_key` leads to
/// the `Get` entry unless the two names are one, and every other name
/// leads where it led before, or nowhere as before.
pub proof fn lemma_registered_names(
    before: Map<Seq<char>, OperationEntryView>,
    get_key: Seq<char>,
    get_entry: OperationEntryView,
    get_all_key: Seq<char>,
    get_all_entry: OperationEntryView,
)
    ensures
        ({
            let after = before.insert(get_key, get_entry).insert(get_all_key, get_all_entry);
            &&& after.contains_key(get_key)
            &&& after.contains_key(get_all_key)
            &&& after[get_all_key] == get_all_entry
            &&& get_key != get_all_key ==> after[get_key] == get_entry
            &&& forall|key: Seq<char>|
                key != get_key && key != get_all_key ==> (after.contains_key(key)
                    <==> before.contains_key(key))
            &&& forall|key: Seq<char>|
                key != get_key && key != get_all_key && before.contains_key(key) ==> after[key]
                    == before[key]
        }),
{
}

/// The operations of the registered entities, by name.
#[derive(Debug, PartialEq)]
pub struct OperationRegistry {
    operations: Vec<(String, OperationEntry)>,
}

impl View for OperationRegistry {
    type V = Map<Seq<char>, OperationEntryView>;

    closed spec fn view(&self) -> Map<Seq<char>, OperationEntryView> {
        as_map(listed(self.operations@))
    }
}

impl OperationRegistry {
    /// No name is held twice.
    #[verifier::type_invariant]
    closed spec fn well_formed(&self) -> bool {
        keys_distinct(listed(self.operations@))
    }

    /// A registry without operations.
    pub fn new() -> (registry: OperationRegistry)
        ensures
            registry@ == Map::<Seq<char>, OperationEntryView>::empty(),
    {
        let registry = OperationRegistry { operations: Vec::new() };
        assert(registry@ =~= Map::<Seq<char>, OperationEntryView>::empty());
        registry
    }

    /// The place of the operation named `key`, if there is one.
    fn position(&self, key: &str) -> (found: Option<usize>)
        ensures
            match found {
                Some(i) => i < self.operations@.len() && self.operations@[i as int].0@ == key@,
                None => !has_key(listed(self.operations@), key@),
            },
    {
        let wanted = String::from_str(key);
        let mut i: usize = 0;
        while i < self.operations.len()
            invariant
                i <= self.operations.len(),
                wanted@ == key@,
                forall|j: int| 0 <= j < i ==> (#[trigger] listed(self.operations@)[j]).0 != key@,
            decreases self.operations.len() - i,
        {
            if self.operations[i].0 == wanted {
                return Some(i);
            }
            i += 1;
        }
        None
    }

    /// The operation named `key`.
    pub fn get_operation(&self, key: &str) -> (found: Option<&OperationEntry>)
        ensures
            match found {
                Some(entry) => self@.contains_key(key@) && self@[key@] == entry@,
                None => !self@.contains_key(key@),
            },
    {
        proof {
            use_type_invariant(self);
        }
        match self.position(key) {
            Some(i) => {
                proof {
                    lemma_entry_under_its_key(listed(self.operations@), i as int);
                }
                Some(&self.operations[i].1)
            },
            None => None,
        }
    }

    /// All operations, each with its name. No name occurs twice.
    pub fn get_operations(&self) -> (operations: &Vec<(String, OperationEntry)>)
        ensures
            keys_distinct(listed(operations@)),
            as_map(listed(operations@)) == self@,
    {
        proof {
            use_type_invariant(self);
        }
        &self.operations
    }

    /// Plans a call of the operation named `key`. `None` means that no
    /// such operation is registered.
    pub fn call_by_key(&self, key: &str, arguments: &Arguments, query: AQLQuery) -> (pending:
        Option<PendingCall>)
        requires
            self@.contains_key(key@) ==> kind_accepts(self@[key@].kind, arguments@),
        ensures
            match pending {
                Some(call) => self@.contains_key(key@) && call@ == planned_call(
                    self@[key@].kind,
                    self@[key@].data.entity,
                    arguments@,
                    query@,
                ),
                None => !self@.contains_key(key@),
            },
    {
        match self.get_operation(key) {
            Some(entry) => Some(entry.call(arguments, query)),
            None => None,
        }
    }

    /// Puts `entry` under `key`. An entry that stood there before is
    /// replaced.
    pub fn insert(&mut self, key: String, entry: OperationEntry)
        ensures
            final(self)@ == old(self)@.insert(key@, entry@),
    {
        proof {
            use_type_invariant(&*self);
        }
        let ghost before = listed(self.operations@);
        let place = self.position(key.as_str());
        let mut operations: Vec<(String, OperationEntry)> = Vec::new();
        core::mem::swap(&mut self.operations, &mut operations);
        match place {
            Some(i) => {
                proof {
                    lemma_update_is_insert(before, i as int, entry@);
                }
                operations.set(i, (key, entry));
                assert(listed(operations@) =~= before.update(i as int, (key@, entry@)));
            },
            None => {
                proof {
                    lemma_push_is_insert(before, key@, entry@);
                }
                operations.push((key, entry));
                assert(listed(operations@) =~= before.push((key@, entry@)));
            },
        }
        core::mem::swap(&mut self.operations, &mut operations);
    }

    /// Registers one operation of an entity under the name that the
    /// operation derives, and returns that name.
    fn register<T: Operation>(&mut self, data: Arc<OperationData>) -> (key: String)
        ensures
            T::name_prefix().is_prefix_of(key@),
            final(self)@ == old(self)@.insert(
                key@,
                OperationEntryView { kind: T::kind(), data: data@ },
            ),
    {
        let k = T::get_operation_name(&data);
        let kind = T::operation_kind();
        self.insert(k.clone(), OperationEntry { kind, data });
        k
    }

    /// Registers the two operations of an entity, `Get` and `GetAll`, each
    /// under the name it derives from the entity's name. Operations that
    /// stood under these names before are replaced; all others stay.
    pub fn register_entity(
        &mut self,
        entity: Arc<DbEntity>,
        relationships: Arc<Vec<DbRelationship>>,
    )
        ensures
            exists|singular: Seq<char>, plural: Seq<char>|
                final(self)@ == old(self)@.insert(
                    #[trigger] operation_name(Get::name_prefix(), singular),
                    entry_view(OperationKind::Get, *entity, *relationships),
                ).insert(
                    #[trigger] operation_name(GetAll::name_prefix(), plural),
                    entry_view(OperationKind::GetAll, *entity, *relationships),
                ),
    {
        let data = Arc::new(OperationData { entity, relationships });
        let get_key = self.register::<Get>(share(&data));
        let get_all_key = self.register::<GetAll>(data);
        proof {
            let singular = get_key@.subrange(Get::name_prefix().len() as int, get_key@.len() as int);
            let plural = get_all_key@.subrange(
                GetAll::name_prefix().len() as int,
                get_all_key@.len() as int,
            );
            assert(get_key@ =~= operation_name(Get::name_prefix(), singular));
            assert(get_all_key@ =~= operation_name(GetAll::name_prefix(), plural));
        }
    }
}

/// The entry of an operation of the given kind for an entity.
pub open spec fn entry_view(
    kind: OperationKind,
    entity: DbEntity,
    relationships: Vec<DbRelationship>,
) -> OperationEntryView {
    OperationEntryView {
        kind,
        data: OperationDataView {
            entity: entity@,
            relationships: Seq::new(relationships@.len(), |i: int| relationships@[i]@),
        },
    }
}

impl OperationEntry {
    /// Tests whether `arguments` holds what the operation requires.
    pub fn accepts_arguments(&self, arguments: &Arguments) -> (accepted: bool)
        ensures
            accepted == kind_accepts(self.kind, arguments@),
    {
        match self.kind {
            OperationKind::Get => Get::accepts_arguments(arguments),
            OperationKind::GetAll => GetAll::accepts_arguments(arguments),
        }
    }

    /// Plans a call of the operation.
    pub fn call(&self, arguments: &Arguments, query: AQLQuery) -> (pending: PendingCall)
        requires
            kind_accepts(self.kind, arguments@),
        ensures
            pending@ == planned_call(self.kind, self@.data.entity, arguments@, query@),
    {
        match self.kind {
            OperationKind::Get => Get::call(&self.data, arguments, query),
            OperationKind::GetAll => GetAll::call(&self.data, arguments, query),
        }
    }

    /// The arguments that the operation takes.
    pub fn get_arguments(&self) -> (arguments: Vec<Argument>)
        ensures
            arguments@.len() == kind_argument_contract(self.kind).len(),
            forall|i: int|
                0 <= i < arguments@.len() ==> (
                #[trigger] arguments@[i].name@,
                arguments@[i].arg_type,
                arguments@[i].required,
            ) == kind_argument_contract(self.kind)[i],
    {
        match self.kind {
            OperationKind::Get => Get::get_arguments(),
            OperationKind::GetAll => GetAll::get_arguments(),
        }
    }

    /// The field under which the operation is exposed as `name`.
    pub fn build_field(&self, name: &str) -> (field: Field)
        ensures
            field.name@ == name@,
            field.field_type == kind_field_type(self.kind),
            field.entity@ == self@.data.entity.name,
    {
        match self.kind {
            OperationKind::Get => Get::build_field(name, &self.data),
            OperationKind::GetAll => GetAll::build_field(name, &self.data),
        }
    }
}

} // verus!
