use rag_core::{
    accept_embedding, embedding_pair_ready, join_snippets, merge_passes, next_point_id, pass_snippets,
    rag_context, relevance_verdict, reset_outcome, select_hits, PointRef, RagError, Score, SearchHit,
    THRESHOLD_BITS,
};
use std::collections::{HashMap, HashSet};

fn score(x: f32) -> Score {
    Score { bits: x.to_bits() }
}

fn hit(id: u64, text: &str, s: f32) -> SearchHit {
    SearchHit { id: PointRef::Num(id), text: text.to_string(), score: score(s) }
}

fn snippets(items: &[(u64, &str)]) -> Vec<(u64, String)> {
    items.iter().map(|(i, t)| (*i, t.to_string())).collect()
}

#[test]
fn threshold_bits_are_three_quarters() {
    assert_eq!(THRESHOLD_BITS, 0.75f32.to_bits());
}

#[test]
fn score_exactly_at_threshold_is_excluded() {
    assert!(!score(0.75).exceeds_threshold());
    assert!(score(0.7500001).exceeds_threshold());
}

#[test]
fn score_edge_values() {
    assert!(score(1.0).exceeds_threshold());
    assert!(score(f32::INFINITY).exceeds_threshold());
    assert!(!score(f32::NAN).exceeds_threshold());
    assert!(!score(-0.9).exceeds_threshold());
    assert!(!score(0.5).exceeds_threshold());
    assert!(!score(0.0).exceeds_threshold());
    assert!(!score(f32::NEG_INFINITY).exceeds_threshold());
}

#[test]
fn select_hits_filters_strictly_and_keeps_order() {
    let hits = vec![
        hit(4, "four", 0.9),
        hit(5, "five", 0.75),
        hit(6, "six", 0.7500001),
        SearchHit { id: PointRef::Uuid("b1".to_string()), text: "uuid".to_string(), score: score(0.8) },
        hit(7, "seven", 0.1),
    ];
    assert_eq!(select_hits(&hits), snippets(&[(4, "four"), (6, "six"), (0, "uuid")]));
}

#[test]
fn select_hits_on_empty_search() {
    assert_eq!(select_hits(&Vec::new()), Vec::<(u64, String)>::new());
}

#[test]
fn failed_search_contributes_nothing() {
    assert_eq!(pass_snippets(None), Vec::<(u64, String)>::new());
    let hits = vec![hit(1, "a", 0.95)];
    assert_eq!(pass_snippets(Some(&hits)), snippets(&[(1, "a")]));
}

#[test]
fn embedding_must_return_a_vector() {
    assert_eq!(accept_embedding(None), Err(RagError::Embedding));
    assert_eq!(accept_embedding(Some(0)), Err(RagError::Embedding));
    assert_eq!(accept_embedding(Some(1)), Ok(()));
}

#[test]
fn merge_second_pass_overwrites_by_id() {
    let first = snippets(&[(1, "A"), (2, "B")]);
    let second = snippets(&[(2, "C"), (3, "D")]);
    let merged: HashMap<u64, String> = merge_passes(&first, &second).into_iter().collect();
    let expected: HashMap<u64, String> = snippets(&[(1, "A"), (2, "C"), (3, "D")]).into_iter().collect();
    assert_eq!(merged, expected);
    assert_eq!(merge_passes(&first, &second).len(), 3);
}

#[test]
fn merge_collapses_repeated_ids_within_a_pass() {
    let first = snippets(&[(0, "x"), (0, "y")]);
    let merged = merge_passes(&first, &Vec::new());
    assert_eq!(merged, snippets(&[(0, "y")]));
}

#[test]
fn join_uses_newlines() {
    assert_eq!(join_snippets(&snippets(&[(1, "A"), (2, "C"), (3, "D")])), "A\nC\nD");
    assert_eq!(join_snippets(&snippets(&[(9, "only")])), "only");
    assert_eq!(join_snippets(&Vec::new()), "");
}

#[test]
fn rag_context_holds_each_id_once() {
    let first = snippets(&[(1, "A"), (2, "B")]);
    let second = snippets(&[(2, "C"), (3, "D")]);
    let context = rag_context(&first, &second);
    let lines: HashSet<&str> = context.split('\n').collect();
    let expected: HashSet<&str> = ["A", "C", "D"].into_iter().collect();
    assert_eq!(lines, expected);
    assert_eq!(context.len(), 5);
}

#[test]
fn failed_embedding_is_not_relevant() {
    assert!(!relevance_verdict(None));
    assert!(!embedding_pair_ready(None));
    assert!(!embedding_pair_ready(Some(1)));
    assert!(embedding_pair_ready(Some(2)));
}

#[test]
fn self_similarity_of_unit_vector_is_relevant() {
    let v = [0.6f32, 0.8f32];
    let dot: f32 = v.iter().map(|x| x * x).sum();
    assert!(relevance_verdict(Some(score(dot))));
    assert!(!relevance_verdict(Some(score(0.75))));
}

#[test]
fn next_point_id_is_one_past_count() {
    assert_eq!(next_point_id(0), Some(1));
    assert_eq!(next_point_id(41), Some(42));
    assert_eq!(next_point_id(u64::MAX), None);
}

#[test]
fn reset_ignores_a_failed_delete() {
    assert_eq!(reset_outcome(Err(RagError::Index), Ok(())), Ok(()));
    assert_eq!(reset_outcome(Ok(()), Err(RagError::Index)), Err(RagError::Index));
    assert_eq!(reset_outcome(Err(RagError::Index), Err(RagError::Index)), Err(RagError::Index));
}
