//! Ingestion of raw execution traces: a byte buffer is parsed first as a
//! bare trace record, then — if that fails — as an envelope holding the
//! record under a `result` field. When neither shape matches, both parse
//! failures are surfaced together, never just one of them.

use vstd::prelude::*;

verus! {

/// One unit of execution data: the trace of a single block. Only the plain
/// fields the pipeline reads are modeled here; the record is immutable once
/// parsed, and the proving engine consumes it as a whole.
#[derive(Clone, Copy, Debug, PartialEq, Eq, Structural)]
pub struct TraceRecord {
    pub chain_id: u64,
    pub block_number: u64,
}

/// Why one of the two accepted wire shapes failed to produce a record.
#[derive(Clone, Debug)]
pub enum ShapeError {
    /// The bytes are not a JSON object of the expected shape; carries the
    /// parser's diagnostic.
    Malformed(String),
    /// The bytes parsed as an object, but a field the record needs is absent.
    MissingField,
}

/// Neither the bare shape nor the enveloped shape matched; both underlying
/// failures are carried for diagnosis.
#[derive(Clone, Debug)]
pub struct TraceParseError {
    /// Failure of the attempt to parse a bare record.
    pub primary: ShapeError,
    /// Failure of the subsequent attempt to parse the envelope shape.
    pub fallback: ShapeError,
}

/// The key-value map described by a sequence of string-keyed entries, a later
/// entry overriding an earlier one with the same key.
pub open spec fn pairs_map<V>(s: Seq<(String, V)>) -> Map<Seq<char>, V>
    decreases s.len(),
{
    if s.len() == 0 {
        Map::empty()
    } else {
        pairs_map(s.drop_last()).insert(s.last().0@, s.last().1)
    }
}

/// The nested map described by entries whose values are themselves sequences
/// of string-keyed entries.
pub open spec fn nested_pairs_map(s: Seq<(String, Vec<(String, u64)>)>) -> Map<
    Seq<char>,
    Map<Seq<char>, u64>,
> {
    pairs_map(s).map_values(|v: Vec<(String, u64)>| pairs_map(v@))
}

/// What `serde_json` parses the bytes into when they are read as a single
/// JSON object with string keys and unsigned integer values: `None` when the
/// bytes are not such an object, otherwise the object's fields.
pub uninterp spec fn flat_json_fields(bytes: Seq<u8>) -> Option<Map<Seq<char>, u64>>;

/// What `serde_json` parses the bytes into when they are read as a JSON
/// object whose values are themselves objects with unsigned integer values:
/// `None` when the bytes are not such an object, otherwise its fields.
pub uninterp spec fn nested_json_fields(bytes: Seq<u8>) -> Option<
    Map<Seq<char>, Map<Seq<char>, u64>>,
>;

/// Relies on `serde_json::from_slice` for `BTreeMap<String, u64>`: the call
/// succeeds exactly when the bytes are one JSON object with unsigned integer
/// values, and the entries it returns are that object's fields.
#[verifier::external_body]
fn parse_flat_object(bytes: &[u8]) -> (r: Result<Vec<(String, u64)>, String>)
    ensures
        r is Ok <==> flat_json_fields(bytes@) is Some,
        r is Ok ==> pairs_map(r->Ok_0@) == flat_json_fields(bytes@)->Some_0,
{
    match serde_json::from_slice::<std::collections::BTreeMap<String, u64>>(bytes) {
        Ok(m) => Ok(m.into_iter().collect()),
        Err(e) => Err(e.to_string()),
    }
}

/// Relies on `serde_json::from_slice` for `BTreeMap<String, BTreeMap<String,
/// u64>>`: the call succeeds exactly when the bytes are one JSON object of
/// objects with unsigned integer values, and returns that object's fields.
#[verifier::external_body]
fn parse_nested_object(bytes: &[u8]) -> (r: Result<Vec<(String, Vec<(String, u64)>)>, String>)
    ensures
        r is Ok <==> nested_json_fields(bytes@) is Some,
        r is Ok ==> nested_pairs_map(r->Ok_0@) == nested_json_fields(bytes@)->Some_0,
{
    match serde_json::from_slice::<
        std::collections::BTreeMap<String, std::collections::BTreeMap<String, u64>>,
    >(bytes) {
        Ok(m) => Ok(m.into_iter().map(|(k, v)| (k, v.into_iter().collect())).collect()),
        Err(e) => Err(e.to_string()),
    }
}

/// The map described by the entries agrees, on a key no suffix entry
/// carries, with the map described by the prefix alone.
proof fn lemma_pairs_map_unmatched_suffix<V>(s: Seq<(String, V)>, i: int, key: Seq<char>)
    requires
        0 <= i <= s.len(),
        forall|j: int| i <= j < s.len() ==> s[j].0@ != key,
    ensures
        pairs_map(s).contains_key(key) <==> pairs_map(s.take(i)).contains_key(key),
        pairs_map(s).contains_key(key) ==> pairs_map(s.take(i))[key] == pairs_map(s)[key],
    decreases s.len() - i,
{
    if i == s.len() {
        assert(s.take(i) =~= s);
    } else {
        lemma_pairs_map_unmatched_suffix(s, i + 1, key);
        assert(s.take(i + 1).drop_last() =~= s.take(i));
        assert(s.take(i + 1).last() == s[i]);
    }
}

/// Find the value of `key` among string-keyed entries, the last entry with
/// that key winning, as in the map the entries describe.
fn lookup_field<'a, V>(fields: &'a Vec<(String, V)>, key: &String) -> (r: Option<&'a V>)
    ensures
        match r {
            Some(v) => pairs_map(fields@).contains_key(key@) && *v == pairs_map(fields@)[key@],
            None => !pairs_map(fields@).contains_key(key@),
        },
{
    let mut i = fields.len();
    while i > 0
        invariant
            i <= fields@.len(),
            forall|j: int| i <= j < fields@.len() ==> fields@[j].0@ != key@,
        decreases i,
    {
        i = i - 1;
        if fields[i].0 == *key {
            proof {
                lemma_pairs_map_unmatched_suffix(fields@, i as int + 1, key@);
                assert(fields@.take(i as int + 1).drop_last() =~= fields@.take(i as int));
                assert(fields@.take(i as int + 1).last() == fields@[i as int]);
            }
            return Some(&fields[i].1);
        }
    }
    proof {
        lemma_pairs_map_unmatched_suffix(fields@, 0, key@);
        assert(fields@.take(0) =~= Seq::<(String, V)>::empty());
    }
    None
}

/// The record a parsed object describes: present exactly when both of the
/// record's fields are among the object's fields.
pub open spec fn spec_record_of_fields(m: Map<Seq<char>, u64>) -> Option<TraceRecord> {
    if m.contains_key("chainId"@) && m.contains_key("blockNumber"@) {
        Some(TraceRecord { chain_id: m["chainId"@], block_number: m["blockNumber"@] })
    } else {
        None
    }
}

/// The record obtained by reading the bytes as a bare record object.
pub open spec fn spec_parse_bare(bytes: Seq<u8>) -> Option<TraceRecord> {
    match flat_json_fields(bytes) {
        Some(m) => spec_record_of_fields(m),
        None => None,
    }
}

/// The record obtained by reading the bytes as an envelope object whose
/// `result` field holds the record.
pub open spec fn spec_parse_wrapped(bytes: Seq<u8>) -> Option<TraceRecord> {
    match nested_json_fields(bytes) {
        Some(m) => if m.contains_key("result"@) {
            spec_record_of_fields(m["result"@])
        } else {
            None
        },
        None => None,
    }
}

/// Extract a record from a parsed object's entries.
fn record_from_fields(fields: &Vec<(String, u64)>) -> (r: Option<TraceRecord>)
    ensures
        r == spec_record_of_fields(pairs_map(fields@)),
{
    let chain_key: String = "chainId".to_owned();
    let block_key: String = "blockNumber".to_owned();
    let chain = lookup_field(fields, &chain_key);
    let block = lookup_field(fields, &block_key);
    match (chain, block) {
        (Some(c), Some(b)) => Some(TraceRecord { chain_id: *c, block_number: *b }),
        _ => None,
    }
}

/// Attempt the bare shape.
fn try_bare(bytes: &[u8]) -> (r: Result<TraceRecord, ShapeError>)
    ensures
        r is Ok <==> spec_parse_bare(bytes@) is Some,
        r is Ok ==> spec_parse_bare(bytes@) == Some(r->Ok_0),
        r is Err && flat_json_fields(bytes@) is None ==> r->Err_0 matches ShapeError::Malformed(_),
        r is Err && flat_json_fields(bytes@) is Some ==> r->Err_0 matches ShapeError::MissingField,
{
    match parse_flat_object(bytes) {
        Ok(fields) => match record_from_fields(&fields) {
            Some(rec) => Ok(rec),
            None => Err(ShapeError::MissingField),
        },
        Err(msg) => Err(ShapeError::Malformed(msg)),
    }
}

/// Attempt the envelope shape and extract the inner record.
fn try_wrapped(bytes: &[u8]) -> (r: Result<TraceRecord, ShapeError>)
    ensures
        r is Ok <==> spec_parse_wrapped(bytes@) is Some,
        r is Ok ==> spec_parse_wrapped(bytes@) == Some(r->Ok_0),
        r is Err && nested_json_fields(bytes@) is None ==> r->Err_0 matches ShapeError::Malformed(
            _,
        ),
        r is Err && nested_json_fields(bytes@) is Some ==> r->Err_0
            matches ShapeError::MissingField,
{
    match parse_nested_object(bytes) {
        Ok(fields) => {
            let result_key: String = "result".to_owned();
            match lookup_field(&fields, &result_key) {
                Some(inner) => match record_from_fields(inner) {
                    Some(rec) => Ok(rec),
                    None => Err(ShapeError::MissingField),
                },
                None => Err(ShapeError::MissingField),
            }
        },
        Err(msg) => Err(ShapeError::Malformed(msg)),
    }
}

/// Parse a raw byte buffer into a trace record: first as a bare record, then
/// as an envelope `{ "result": <record> }`; when both attempts fail, return
/// both failures, never silently one of them.
pub fn read_trace_record(bytes: &[u8]) -> (r: Result<TraceRecord, TraceParseError>)
    ensures
        spec_parse_bare(bytes@) is Some ==> r == Ok::<TraceRecord, TraceParseError>(
            spec_parse_bare(bytes@)->Some_0,
        ),
        spec_parse_bare(bytes@) is None && spec_parse_wrapped(bytes@) is Some ==> r == Ok::<
            TraceRecord,
            TraceParseError,
        >(spec_parse_wrapped(bytes@)->Some_0),
        r is Err <==> spec_parse_bare(bytes@) is None && spec_parse_wrapped(bytes@) is None,
        r is Err && flat_json_fields(bytes@) is None ==> r->Err_0.primary
            matches ShapeError::Malformed(_),
        r is Err && flat_json_fields(bytes@) is Some ==> r->Err_0.primary
            matches ShapeError::MissingField,
        r is Err && nested_json_fields(bytes@) is None ==> r->Err_0.fallback
            matches ShapeError::Malformed(_),
        r is Err && nested_json_fields(bytes@) is Some ==> r->Err_0.fallback
            matches ShapeError::MissingField,
{
    let primary = match try_bare(bytes) {
        Ok(rec) => {
            return Ok(rec);
        },
        Err(e) => e,
    };
    match try_wrapped(bytes) {
        Ok(rec) => Ok(rec),
        Err(fallback) => Err(TraceParseError { primary, fallback }),
    }
}

} // verus!
