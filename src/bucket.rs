use vstd::prelude::*;
use std::collections::HashMap;

use crate::ids::{fresh_uuid, parse_uuid, uuid_parsed};
use crate::json::{
    contents_of, json_field, json_parsed, json_text, member, parse_json, storage_from_json,
    storage_json, storage_of_json, storage_to_json, text_of, StorageMap,
};
use crate::key::Key;

verus! {

broadcast use vstd::std_specs::hash::group_hash_axioms;

/// Why a persisted partition could not be restored.
#[derive(Debug, Clone, Copy, PartialEq, Eq, Structural)]
pub enum PartitionInitError {
    /// The file could not be opened, or invalid
    FileError,
    /// The file could not be parsed
    ParseError,
}

/// What a partition store holds: its label, its id (the bits of a UUID) and
/// its entries, keyed by the bits of each key.
pub struct BucketView {
    pub label: Seq<char>,
    pub id: u128,
    pub contents: Map<u128, Seq<u8>>,
}

/// What an envelope holds.
pub struct EnvelopeView {
    pub label: Seq<char>,
    pub id: u128,
    pub storage: serde_json::Value,
}

/// The value stored under a key, if any.
pub open spec fn lookup(contents: Map<u128, Seq<u8>>, k: u128) -> Option<Seq<u8>> {
    if contents.contains_key(k) {
        Some(contents[k])
    } else {
        None
    }
}

/// The bytes of an optional value.
pub open spec fn bytes_of(v: Option<Vec<u8>>) -> Option<Seq<u8>> {
    match v {
        Some(b) => Some(b@),
        None => None,
    }
}

/// The envelope that `dump` makes of a store.
pub open spec fn dump_spec(b: BucketView) -> EnvelopeView {
    EnvelopeView { label: b.label, id: b.id, storage: storage_json(b.contents) }
}

/// What `load` makes of an envelope: the store it describes, or `ParseError`
/// when its storage does not decode into a mapping.
pub open spec fn load_spec(e: EnvelopeView) -> Result<BucketView, PartitionInitError> {
    match storage_of_json(e.storage) {
        Some(c) => Ok(BucketView { label: e.label, id: e.id, contents: c }),
        None => Err(PartitionInitError::ParseError),
    }
}

/// The envelope that a JSON value describes: an object with the members
/// `id` (a string holding a UUID), `label` (a string) and `storage` (any value).
pub open spec fn envelope_of_json(v: serde_json::Value) -> Option<EnvelopeView> {
    let id = json_field(v, "id"@);
    let label = json_field(v, "label"@);
    let storage = json_field(v, "storage"@);
    if id is Some && json_text(id->0) is Some && uuid_parsed(json_text(id->0)->0) is Some
        && label is Some && json_text(label->0) is Some && storage is Some {
        Some(
            EnvelopeView {
                label: json_text(label->0)->0,
                id: uuid_parsed(json_text(id->0)->0)->0,
                storage: storage->0,
            },
        )
    } else {
        None
    }
}

/// What `Bucket::from_json` makes of a JSON text.
pub open spec fn from_json_spec(text: Seq<char>) -> Result<BucketView, PartitionInitError> {
    match json_parsed(text) {
        None => Err(PartitionInitError::ParseError),
        Some(v) => match envelope_of_json(v) {
            None => Err(PartitionInitError::ParseError),
            Some(e) => load_spec(e),
        },
    }
}

/// The serialized form of a partition store.
#[derive(Debug, Clone)]
pub struct SerializedBucket {
    pub label: String,
    /// The bits of the store's UUID.
    pub id: u128,
    pub storage: serde_json::Value,
}

impl View for SerializedBucket {
    type V = EnvelopeView;

    open spec fn view(&self) -> EnvelopeView {
        EnvelopeView { label: self.label@, id: self.id, storage: self.storage }
    }
}

impl SerializedBucket {
    /// Reads an envelope from a JSON object. `None` when `id`, `label` or
    /// `storage` is missing, or `id` or `label` is no string, or `id` holds no UUID.
    pub fn try_from_value(value: serde_json::Value) -> (r: Option<SerializedBucket>)
        ensures
            r is Some <==> envelope_of_json(value) is Some,
            r matches Some(e) ==> envelope_of_json(value) == Some(e@),
    {
        let id = match member(&value, "id") {
            Some(v) => v,
            None => return None,
        };
        let id = match text_of(&id) {
            Some(t) => t,
            None => return None,
        };
        let id = match parse_uuid(id.as_str()) {
            Some(u) => u,
            None => return None,
        };
        let label = match member(&value, "label") {
            Some(v) => v,
            None => return None,
        };
        let label = match text_of(&label) {
            Some(t) => t,
            None => return None,
        };
        let storage = match member(&value, "storage") {
            Some(v) => v,
            None => return None,
        };
        Some(SerializedBucket { label, id, storage })
    }
}

/// A partition store: a label, an id that never changes, and a mapping from
/// keys to values.
#[derive(Debug, Clone)]
pub struct Bucket {
    label: String,
    storage: StorageMap,
    id: u128,
}

impl View for Bucket {
    type V = BucketView;

    closed spec fn view(&self) -> BucketView {
        BucketView { label: self.label@, id: self.id, contents: contents_of(self.storage@) }
    }
}

/// The views of a store result.
pub open spec fn result_view(r: Result<Bucket, PartitionInitError>) -> Result<
    BucketView,
    PartitionInitError,
> {
    match r {
        Ok(b) => Ok(b@),
        Err(e) => Err(e),
    }
}

impl Default for Bucket {
    fn default() -> (r: Bucket)
        ensures
            r@.label == "default"@,
            r@.contents == Map::<u128, Seq<u8>>::empty(),
    {
        Bucket::new(None)
    }
}

impl Bucket {
    /// An empty store with a fresh id, labelled `label`, or `default` without one.
    pub fn new(label: Option<String>) -> (r: Bucket)
        ensures
            label matches Some(l) ==> r@.label == l@,
            label is None ==> r@.label == "default"@,
            r@.contents == Map::<u128, Seq<u8>>::empty(),
    {
        let label = match label {
            Some(l) => l,
            None => String::from_str("default"),
        };
        let storage: StorageMap = HashMap::new();
        let r = Bucket { label, storage, id: fresh_uuid() };
        assert(r@.contents =~= Map::<u128, Seq<u8>>::empty());
        r
    }

    pub fn label(&self) -> (r: &str)
        ensures
            r@ == self@.label,
    {
        self.label.as_str()
    }

    pub fn id(&self) -> (r: u128)
        ensures
            r == self@.id,
    {
        self.id
    }

    /// The value stored under `key`, copied out; `None` for an unwritten key.
    pub fn get(&self, key: &Key) -> (r: Option<Vec<u8>>)
        ensures
            bytes_of(r) == lookup(self@.contents, key.0),
    {
        match self.storage.get(&key.0) {
            Some(v) => {
                let c = v.clone();
                assert(c@ =~= v@);
                Some(c)
            },
            None => None,
        }
    }

    /// Stores `value` under `key` and returns what was stored there before.
    pub fn set(&mut self, key: Key, value: Vec<u8>) -> (r: Option<Vec<u8>>)
        ensures
            final(self)@.label == old(self)@.label,
            final(self)@.id == old(self)@.id,
            final(self)@.contents == old(self)@.contents.insert(key.0, value@),
            bytes_of(r) == lookup(old(self)@.contents, key.0),
    {
        let ghost bytes = value@;
        let r = self.storage.insert(key.0, value);
        assert(contents_of(self.storage@) =~= contents_of(old(self).storage@).insert(key.0, bytes));
        r
    }

    /// Snapshots the label, the id and every entry. The store is left as it is.
    pub fn dump(&self) -> (r: SerializedBucket)
        ensures
            r@ == dump_spec(self@),
    {
        let storage = storage_to_json(&self.storage);
        SerializedBucket { label: self.label.clone(), id: self.id, storage }
    }

    /// Restores a store from an envelope, keeping its id and label.
    /// Loading what `dump` made of a store gives that store back.
    pub fn load(envelope: SerializedBucket) -> (r: Result<Bucket, PartitionInitError>)
        ensures
            result_view(r) == load_spec(envelope@),
            forall|b: BucketView| envelope@ == dump_spec(b) ==> result_view(r) == Ok::<
                BucketView,
                PartitionInitError,
            >(b),
    {
        let ghost e = envelope@;
        match storage_from_json(envelope.storage) {
            Some(storage) => {
                let r = Bucket { label: envelope.label, storage, id: envelope.id };
                assert forall|b: BucketView| e == dump_spec(b) implies r@ == b by {
                    assert(contents_of(storage@) == b.contents);
                }
                Ok(r)
            },
            None => Err(PartitionInitError::ParseError),
        }
    }

    /// Restores a store from the JSON text of an envelope. `ParseError` when
    /// the text is no JSON, lacks a member of the envelope, or its storage
    /// does not decode.
    pub fn from_json(text: &str) -> (r: Result<Bucket, PartitionInitError>)
        ensures
            result_view(r) == from_json_spec(text@),
    {
        let value = match parse_json(text) {
            Some(v) => v,
            None => return Err(PartitionInitError::ParseError),
        };
        match SerializedBucket::try_from_value(value) {
            Some(envelope) => Bucket::load(envelope),
            None => Err(PartitionInitError::ParseError),
        }
    }
}

/// Reading a key right after storing a value under it gives that value.
pub proof fn get_after_set(b: BucketView, k: Key, v: Seq<u8>)
    ensures
        lookup(b.contents.insert(k.0, v), k.0) == Some(v),
{
}

/// Storing `v2` under a key that holds `v1` reports `v1` as the previous value.
pub proof fn set_after_set(b: BucketView, k: Key, v1: Seq<u8>, v2: Seq<u8>)
    ensures
        lookup(b.contents.insert(k.0, v1), k.0) == Some(v1),
        b.contents.insert(k.0, v1).insert(k.0, v2) == b.contents.insert(k.0, v2),
{
    assert(b.contents.insert(k.0, v1).insert(k.0, v2) =~= b.contents.insert(k.0, v2));
}

/// Reading a key that was never written finds nothing; a fresh store has no
/// written key.
pub proof fn get_unwritten(b: BucketView, k: Key)
    requires
        !b.contents.contains_key(k.0),
    ensures
        lookup(b.contents, k.0) is None,
        lookup(Map::<u128, Seq<u8>>::empty(), k.0) is None,
{
}

} // verus!
