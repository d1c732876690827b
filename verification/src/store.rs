//! What the library makes of the store's replies: which entries of a prefix
//! read are the direct members of a collection, what a point read yields, and
//! what a delete reports.
use vstd::prelude::*;
use vstd::string::StringSliceAdditionalSpecFns;
use vstd::utf8::*;

verus! {

/// The byte of `/`, the separator of key segments.
pub const SLASH: u8 = 0x2f;

/// One key-value pair as the store returns it.
#[derive(Debug, Clone, PartialEq)]
pub struct StoredEntry {
    pub key: Vec<u8>,
    pub value: Vec<u8>,
}

impl View for StoredEntry {
    type V = (Seq<u8>, Seq<u8>);

    open spec fn view(&self) -> (Seq<u8>, Seq<u8>) {
        (self.key@, self.value@)
    }
}

/// Errors of the store operations.
#[derive(Debug, Clone, PartialEq)]
pub enum ApiError {
    /// The requested resource does not exist.
    NotFound,
    /// The store could not be reached or refused the request.
    Storage(String),
    /// A stored value could not be encoded or decoded.
    Serialization(String),
}

/// `std::str::from_utf8`: succeeds exactly when the bytes are well-formed UTF-8
/// (its documentation: "Returns `Err` if the slice is not UTF-8"). Only which
/// of the two it returned is handed on.
#[verifier::external_body]
fn is_valid_utf8(bytes: &[u8]) -> (valid: bool)
    ensures
        valid == valid_utf8(bytes@),
{
    std::str::from_utf8(bytes).is_ok()
}

/// An entry of a prefix read is a direct member of the collection when its key
/// is text and the part of the key after the prefix holds no `/`.
pub open spec fn is_direct_member(prefix: Seq<u8>, key: Seq<u8>) -> bool {
    &&& valid_utf8(key)
    &&& !key.subrange(prefix.len() as int, key.len() as int).contains(SLASH)
}

/// The values of the direct members among `entries`, in their order.
pub open spec fn member_values(prefix: Seq<u8>, entries: Seq<(Seq<u8>, Seq<u8>)>) -> Seq<Seq<u8>>
    decreases entries.len(),
{
    if entries.len() == 0 {
        seq![]
    } else {
        let rest = member_values(prefix, entries.drop_last());
        if is_direct_member(prefix, entries.last().0) {
            rest.push(entries.last().1)
        } else {
            rest
        }
    }
}

/// Whether `bytes[start..]` holds a `/`.
fn has_slash_from(bytes: &[u8], start: usize) -> (found: bool)
    requires
        start <= bytes@.len(),
    ensures
        found == bytes@.subrange(start as int, bytes@.len() as int).contains(SLASH),
{
    let mut i = start;
    while i < bytes.len()
        invariant
            start <= i <= bytes@.len(),
            forall|j: int| start <= j < i ==> bytes@[j] != SLASH,
        decreases bytes@.len() - i,
    {
        if bytes[i] == SLASH {
            assert(bytes@.subrange(start as int, bytes@.len() as int)[i - start] == SLASH);
            return true;
        }
        i = i + 1;
    }
    assert forall|x: u8| bytes@.subrange(start as int, bytes@.len() as int).contains(x) implies x != SLASH by {
        let k = choose|k: int| 0 <= k < bytes@.len() - start && bytes@.subrange(start as int, bytes@.len() as int)[k] == x;
        assert(bytes@[start + k] == x);
    }
    false
}

/// Whether the entry with key `key` is a direct member of the collection stored
/// under `prefix`.
pub fn is_direct_member_key(prefix: &str, key: &[u8]) -> (member: bool)
    requires
        prefix.spec_bytes().len() <= key@.len(),
    ensures
        member == is_direct_member(prefix.spec_bytes(), key@),
{
    let start = prefix.len();
    assert(start == prefix.spec_bytes().len()) by {
        assert(key@.len() == key.len());
    }
    is_valid_utf8(key) && !has_slash_from(key, start)
}

/// The values of the direct members of the collection stored under `prefix`,
/// among the entries of a read of that prefix, in the order the store gave them.
/// Members of nested collections (whose key holds a further `/`) are left out.
pub fn direct_member_values(prefix: &str, entries: &Vec<StoredEntry>) -> (values: Vec<Vec<u8>>)
    requires
        forall|i: int| 0 <= i < entries@.len() ==> prefix.spec_bytes().is_prefix_of(#[trigger] entries@[i].key@),
    ensures
        values@.map_values(|v: Vec<u8>| v@) == member_values(prefix.spec_bytes(), entries@.map_values(|e: StoredEntry| e@)),
        values@.map_values(|v: Vec<u8>| v@) == entries@.map_values(|e: StoredEntry| e@).filter_map(
            |e: (Seq<u8>, Seq<u8>)|
                if valid_utf8(e.0) && !e.0.subrange(prefix.spec_bytes().len() as int, e.0.len() as int).contains(SLASH) {
                    Some(e.1)
                } else {
                    None
                },
        ),
{
    let ghost p = prefix.spec_bytes();
    let ghost all = entries@.map_values(|e: StoredEntry| e@);
    let mut values: Vec<Vec<u8>> = Vec::new();
    let mut i: usize = 0;
    while i < entries.len()
        invariant
            i <= entries@.len(),
            all == entries@.map_values(|e: StoredEntry| e@),
            p == prefix.spec_bytes(),
            forall|k: int| 0 <= k < entries@.len() ==> p.is_prefix_of(#[trigger] entries@[k].key@),
            values@.map_values(|v: Vec<u8>| v@) == member_values(p, all.take(i as int)),
        decreases entries@.len() - i,
    {
        let entry = &entries[i];
        assert(p.is_prefix_of(entries@[i as int].key@));
        assert(all.take(i + 1).drop_last() =~= all.take(i as int));
        if is_direct_member_key(prefix, entry.key.as_slice()) {
            let v = entry.value.clone();
            values.push(v);
            assert(values@.map_values(|v: Vec<u8>| v@) =~= member_values(p, all.take(i as int)).push(entry.value@));
        }
        i = i + 1;
    }
    assert(all.take(entries@.len() as int) =~= all);
    proof {
        crate::laws::listing_keeps_every_direct_member(p, all);
    }
    values
}

/// What a point read yields: the value of the first entry returned, or
/// `NotFound` when the read returned nothing.
pub fn first_entry_value(entries: &Vec<StoredEntry>) -> (res: Result<Vec<u8>, ApiError>)
    ensures
        entries@.len() == 0 ==> res == Err::<Vec<u8>, ApiError>(ApiError::NotFound),
        entries@.len() > 0 ==> (res matches Ok(v) && v@ == entries@[0].value@),
{
    if entries.len() == 0 {
        Err(ApiError::NotFound)
    } else {
        Ok(entries[0].value.clone())
    }
}

/// What a delete reports: whether it removed anything, given the number of
/// entries the store says it deleted.
pub fn was_deleted(deleted: i64) -> (removed: bool)
    ensures
        removed == (deleted > 0),
{
    deleted > 0
}

/// The decoded values, in order, of those entries that decoded.
pub open spec fn decoded_items<T>(parsed: Seq<Option<T>>) -> Seq<T>
    decreases parsed.len(),
{
    if parsed.len() == 0 {
        seq![]
    } else {
        let rest = decoded_items(parsed.drop_last());
        match parsed.last() {
            Some(item) => rest.push(item),
            None => rest,
        }
    }
}

/// Keeps the values that decoded and drops those that did not, in order.
pub fn keep_decoded<T>(parsed: Vec<Option<T>>) -> (items: Vec<T>)
    ensures
        items@ == decoded_items(parsed@),
        items@ == parsed@.filter_map(|o: Option<T>| o),
{
    let ghost all = parsed@;
    let mut items: Vec<T> = Vec::new();
    for item in it: parsed
        invariant
            all == it.seq(),
            items@ == decoded_items(all.take(it.index() as int)),
    {
        let ghost n = it.index() as int;
        assert(all.take(n + 1).drop_last() =~= all.take(n));
        match item {
            Some(value) => {
                items.push(value);
            },
            None => {},
        }
    }
    assert(all.take(all.len() as int) =~= all);
    proof {
        crate::laws::every_decoded_value_is_kept(all);
    }
    items
}

} // verus!
