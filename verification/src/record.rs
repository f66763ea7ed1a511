//! Record mapper: one structured record per row, built from the header
//! plus a freshly generated unique identifier under the reserved field
//! name.  Rows shorter than the header get explicit empty values for the
//! missing trailing fields, so every record carries the complete field
//! set.

use vstd::prelude::*;

use crate::csvrow::strs_of;

verus! {

/// The record actually serialized and sent: an ordered field-name to
/// value mapping — the identifier field first, then one field per
/// header position.
#[derive(Debug)]
pub struct Record {
    pub fields: Vec<(String, String)>,
}

/// The name/value pairs a field vector abstracts to.
pub open spec fn pairs_of(v: Seq<(String, String)>) -> Seq<(Seq<char>, Seq<char>)> {
    v.map_values(|p: (String, String)| (p.0@, p.1@))
}

/// The shape the mapper guarantees: the identifier field first under the
/// reserved name, then each header field with the row's value at that
/// position, an explicit empty value where the row is shorter.
pub open spec fn record_matches(
    rec: Seq<(Seq<char>, Seq<char>)>,
    header: Seq<Seq<char>>,
    row: Seq<Seq<char>>,
    id: Seq<char>,
) -> bool {
    &&& rec.len() == header.len() + 1
    &&& rec[0] == ("UUID"@, id)
    &&& forall|k: int|
        0 <= k < header.len() ==> rec[k + 1] == (
            header[k],
            if k < row.len() {
                row[k]
            } else {
                Seq::<char>::empty()
            },
        )
}

/// Like `record_matches` with the identifier value left open: some
/// 36-character identifier stands in the reserved field.
pub open spec fn record_shaped(
    rec: Seq<(Seq<char>, Seq<char>)>,
    header: Seq<Seq<char>>,
    row: Seq<Seq<char>>,
) -> bool {
    exists|id: Seq<char>| id.len() == 36 && #[trigger] record_matches(rec, header, row, id)
}

/// Relies on `uuid::Uuid::new_v4` and its canonical hyphenated text
/// form: a freshly generated random 128-bit identifier, rendered as 36
/// characters.  Nothing else can be promised of a random value.
#[verifier::external_body]
pub(crate) fn fresh_record_id() -> (r: String)
    ensures
        r@.len() == 36,
{
    uuid::Uuid::new_v4().to_string()
}

/// Builds one record from a row under the header, with `id` as the
/// value of the reserved identifier field.
pub fn map_row(header: &Vec<String>, row: &Vec<String>, id: String) -> (r: Record)
    ensures
        record_matches(pairs_of(r.fields@), strs_of(header@), strs_of(row@), id@),
{
    let mut fields: Vec<(String, String)> = Vec::new();
    let name = String::from_str("UUID");
    fields.push((name, id));
    let mut k: usize = 0;
    while k < header.len()
        invariant
            k <= header@.len(),
            pairs_of(fields@).len() == k + 1,
            pairs_of(fields@)[0] == ("UUID"@, id@),
            forall|j: int|
                0 <= j < k ==> pairs_of(fields@)[j + 1] == (
                    header@[j]@,
                    if j < row@.len() {
                        row@[j]@
                    } else {
                        Seq::<char>::empty()
                    },
                ),
        decreases header@.len() - k,
    {
        let value: String = if k < row.len() {
            row[k].clone()
        } else {
            String::new()
        };
        let fname = header[k].clone();
        fields.push((fname, value));
        k = k + 1;
    }
    Record { fields }
}

/// Builds one record per row of a chunk, each with a freshly generated
/// identifier.
pub fn map_chunk(header: &Vec<String>, chunk: &Vec<Vec<String>>) -> (r: Vec<Record>)
    ensures
        r@.len() == chunk@.len(),
        forall|i: int|
            0 <= i < chunk@.len() ==> record_shaped(
                pairs_of(#[trigger] r@[i].fields@),
                strs_of(header@),
                strs_of(chunk@[i]@),
            ),
{
    let mut out: Vec<Record> = Vec::new();
    let mut i: usize = 0;
    while i < chunk.len()
        invariant
            i <= chunk@.len(),
            out@.len() == i,
            forall|j: int|
                0 <= j < i ==> record_shaped(
                    pairs_of(#[trigger] out@[j].fields@),
                    strs_of(header@),
                    strs_of(chunk@[j]@),
                ),
        decreases chunk@.len() - i,
    {
        let id = fresh_record_id();
        let ghost idv = id@;
        let rec = map_row(header, &chunk[i], id);
        proof {
            assert(record_matches(pairs_of(rec.fields@), strs_of(header@), strs_of(chunk@[i as int]@), idv));
        }
        out.push(rec);
        i = i + 1;
    }
    out
}

/// The set of field names a record carries.
pub open spec fn record_key_set(rec: Seq<(Seq<char>, Seq<char>)>) -> Set<Seq<char>> {
    rec.map_values(|p: (Seq<char>, Seq<char>)| p.0).to_set()
}

/// The mapper always emits a field set equal to the header's fields plus
/// the reserved identifier field.
pub proof fn lemma_record_field_set(
    rec: Seq<(Seq<char>, Seq<char>)>,
    header: Seq<Seq<char>>,
    row: Seq<Seq<char>>,
    id: Seq<char>,
)
    requires
        record_matches(rec, header, row, id),
    ensures
        record_key_set(rec) == header.to_set().insert("UUID"@),
{
    let keys = rec.map_values(|p: (Seq<char>, Seq<char>)| p.0);
    assert forall|x: Seq<char>| record_key_set(rec).contains(x) implies header.to_set().insert(
        "UUID"@,
    ).contains(x) by {
        let i = choose|i: int| 0 <= i < keys.len() && keys[i] == x;
        if i == 0 {
            assert(x == "UUID"@);
        } else {
            assert(rec[(i - 1) + 1].0 == header[i - 1]);
            assert(header.contains(header[i - 1]));
        }
    }
    assert forall|x: Seq<char>| header.to_set().insert("UUID"@).contains(x) implies record_key_set(
        rec,
    ).contains(x) by {
        if x == "UUID"@ {
            assert(keys[0] == x);
            assert(keys.contains(x));
        } else {
            let i = choose|i: int| 0 <= i < header.len() && header[i] == x;
            assert(rec[i + 1].0 == header[i]);
            assert(keys[i + 1] == x);
            assert(keys.contains(x));
        }
    }
    assert(record_key_set(rec) =~= header.to_set().insert("UUID"@));
}

} // verus!
