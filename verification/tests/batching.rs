use nocopush::chunk_rows;

fn rows(n: usize) -> Vec<Vec<String>> {
    (0..n).map(|i| vec![format!("a{}", i), format!("b{}", i)]).collect()
}

#[test]
fn chunks_of_2500_by_1000() {
    let chunks = chunk_rows(rows(2500), 1000);
    assert_eq!(chunks.len(), 3);
    assert_eq!(chunks[0].len(), 1000);
    assert_eq!(chunks[1].len(), 1000);
    assert_eq!(chunks[2].len(), 500);
}

#[test]
fn chunk_concat_preserves_order() {
    let input = rows(23);
    let chunks = chunk_rows(input.clone(), 7);
    assert_eq!(chunks.len(), 4);
    assert_eq!(chunks[3].len(), 2);
    let flat: Vec<Vec<String>> = chunks.into_iter().flatten().collect();
    assert_eq!(flat, input);
}

#[test]
fn chunk_exact_division_last_is_full() {
    let chunks = chunk_rows(rows(20), 10);
    assert_eq!(chunks.len(), 2);
    assert_eq!(chunks[0].len(), 10);
    assert_eq!(chunks[1].len(), 10);
}

#[test]
fn chunk_empty_input_emits_nothing() {
    let chunks = chunk_rows(rows(0), 5);
    assert!(chunks.is_empty());
}

#[test]
fn chunk_size_one() {
    let chunks = chunk_rows(rows(3), 1);
    assert_eq!(chunks.len(), 3);
    for c in &chunks {
        assert_eq!(c.len(), 1);
    }
}
