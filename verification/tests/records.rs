use std::collections::HashSet;

use nocopush::map_chunk;
use nocopush::map_row;

fn strs(v: &[&str]) -> Vec<String> {
    v.iter().map(|s| s.to_string()).collect()
}

#[test]
fn record_has_header_fields_plus_identifier() {
    let header = strs(&["name", "city"]);
    let row = strs(&["ann", "paris"]);
    let rec = map_row(&header, &row, "fixed-id".to_string());
    let keys: Vec<&str> = rec.fields.iter().map(|p| p.0.as_str()).collect();
    assert_eq!(keys, vec!["UUID", "name", "city"]);
    assert_eq!(rec.fields[0].1, "fixed-id");
    assert_eq!(rec.fields[1].1, "ann");
    assert_eq!(rec.fields[2].1, "paris");
}

#[test]
fn record_short_row_gets_empty_values() {
    let header = strs(&["a", "b", "c"]);
    let row = strs(&["only"]);
    let rec = map_row(&header, &row, "id".to_string());
    assert_eq!(rec.fields.len(), 4);
    assert_eq!(rec.fields[1].1, "only");
    assert_eq!(rec.fields[2].1, "");
    assert_eq!(rec.fields[3].1, "");
}

#[test]
fn fresh_identifier_is_canonical_form() {
    let recs = map_chunk(&strs(&["a"]), &vec![strs(&["v"])]);
    let id = recs[0].fields[0].1.clone();
    assert_eq!(id.len(), 36);
    let hyphens: Vec<usize> =
        id.char_indices().filter(|(_, c)| *c == '-').map(|(i, _)| i).collect();
    assert_eq!(hyphens, vec![8, 13, 18, 23]);
}

#[test]
fn identifiers_unique_over_large_sample() {
    let header = strs(&["x"]);
    let chunk: Vec<Vec<String>> = (0..1000).map(|i| strs(&[&format!("v{}", i)])).collect();
    let recs = map_chunk(&header, &chunk);
    assert_eq!(recs.len(), 1000);
    let ids: HashSet<String> = recs.iter().map(|r| r.fields[0].1.clone()).collect();
    assert_eq!(ids.len(), 1000);
    for r in &recs {
        assert_eq!(r.fields[0].0, "UUID");
        assert_eq!(r.fields[1].0, "x");
    }
}
