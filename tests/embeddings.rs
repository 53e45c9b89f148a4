use roberta_embeddings::embeddings::{
    EmbeddingError, EmbeddingSource, RobertaEmbeddings, SequenceShape, TableSizes,
};
use roberta_embeddings::id_matrix::IdMatrix;
use roberta_embeddings::PADDING_INDEX;

fn sizes() -> TableSizes {
    TableSizes { vocab_size: 50265, max_position_embeddings: 514, type_vocab_size: 1, hidden_size: 768 }
}

fn layer() -> RobertaEmbeddings {
    RobertaEmbeddings::new(&sizes())
}

fn ids(rows: Vec<Vec<i64>>) -> IdMatrix {
    IdMatrix::from_rows(rows).unwrap()
}

#[test]
fn positions_trailing_padding_collapse() {
    let p = layer().create_position_ids_from_input_ids(&ids(vec![vec![5, 7, 1, 1]]));
    assert_eq!(p.into_rows(), vec![vec![2, 3, 1, 1]]);
}

#[test]
fn positions_resume_after_interior_padding() {
    let p = layer().create_position_ids_from_input_ids(&ids(vec![vec![1, 5, 7, 1, 9]]));
    assert_eq!(p.into_rows(), vec![vec![1, 2, 3, 1, 4]]);
}

#[test]
fn positions_per_row_in_a_batch() {
    let p = layer().create_position_ids_from_input_ids(&ids(vec![vec![0, 2, 1], vec![1, 1, 1], vec![4, 4, 4]]));
    assert_eq!(p.into_rows(), vec![vec![2, 3, 1], vec![1, 1, 1], vec![2, 3, 4]]);
}

#[test]
fn positions_of_empty_batch() {
    let p = layer().create_position_ids_from_input_ids(&ids(vec![]));
    assert_eq!(p.batch_size(), 0);
    assert_eq!(p.seq_len(), 0);
}

#[test]
fn sequential_positions_for_vectors() {
    let p = layer().create_position_ids_from_embeddings(&SequenceShape { batch: 2, seq: 3 });
    assert_eq!(p.into_rows(), vec![vec![2, 3, 4], vec![2, 3, 4]]);
}

#[test]
fn sequential_positions_empty_sequence() {
    let p = layer().create_position_ids_from_embeddings(&SequenceShape { batch: 2, seq: 0 });
    assert_eq!(p.seq_len(), 0);
    assert_eq!(p.into_rows(), vec![Vec::<i64>::new(), Vec::new()]);
}

#[test]
fn both_sources_is_a_contract_violation() {
    let r = layer().resolve_inputs(
        Some(ids(vec![vec![5, 7]])),
        None,
        None,
        Some(SequenceShape { batch: 1, seq: 2 }),
        false,
    );
    assert_eq!(r.unwrap_err(), EmbeddingError::ContractViolation);
}

#[test]
fn no_source_is_a_contract_violation() {
    let r = layer().resolve_inputs(None, Some(ids(vec![vec![0, 0]])), None, None, true);
    let e = r.unwrap_err();
    assert_eq!(e, EmbeddingError::ContractViolation);
    assert_eq!(e.message(), "exactly one of token identifiers or token vectors must be supplied");
}

#[test]
fn select_accepts_one_source() {
    assert!(matches!(
        EmbeddingSource::select(Some(ids(vec![vec![3]])), None),
        Ok(EmbeddingSource::TokenIds(_))
    ));
    assert!(matches!(
        EmbeddingSource::select(None, Some(SequenceShape { batch: 4, seq: 9 })),
        Ok(EmbeddingSource::TokenVectors(SequenceShape { batch: 4, seq: 9 }))
    ));
    assert!(EmbeddingSource::select(None, None).is_err());
}

#[test]
fn token_ids_branch_resolution() {
    let r = layer()
        .resolve_inputs(Some(ids(vec![vec![5, 7, 1, 1], vec![1, 5, 7, 9]])), None, None, None, false)
        .unwrap();
    assert_eq!(r.output_shape, (2, 4, 768));
    assert!(!r.apply_dropout);
    assert_eq!(r.source.batch_size(), 2);
    assert_eq!(r.source.seq_len(), 4);
    assert_eq!(r.position_ids.into_rows(), vec![vec![2, 3, 1, 1], vec![1, 2, 3, 4]]);
    assert_eq!(r.token_type_ids.into_rows(), vec![vec![0, 0, 0, 0], vec![0, 0, 0, 0]]);
}

#[test]
fn vectors_branch_resolution() {
    let r = layer()
        .resolve_inputs(None, None, None, Some(SequenceShape { batch: 2, seq: 3 }), true)
        .unwrap();
    assert_eq!(r.output_shape, (2, 3, 768));
    assert!(r.apply_dropout);
    assert_eq!(r.position_ids.into_rows(), vec![vec![2, 3, 4], vec![2, 3, 4]]);
    assert_eq!(r.token_type_ids.into_rows(), vec![vec![0, 0, 0], vec![0, 0, 0]]);
}

#[test]
fn explicit_position_ids_bypass_derivation() {
    let r = layer()
        .resolve_inputs(
            Some(ids(vec![vec![5, 7, 9]])),
            None,
            Some(ids(vec![vec![1, 1, 1]])),
            None,
            false,
        )
        .unwrap();
    assert_eq!(r.position_ids.into_rows(), vec![vec![1, 1, 1]]);
    let r = layer()
        .resolve_inputs(None, None, Some(ids(vec![vec![0, 1]])), Some(SequenceShape { batch: 1, seq: 2 }), false)
        .unwrap();
    assert_eq!(r.position_ids.into_rows(), vec![vec![0, 1]]);
}

#[test]
fn explicit_segment_ids_are_kept() {
    let r = layer()
        .resolve_inputs(Some(ids(vec![vec![5, 7]])), Some(ids(vec![vec![0, 1]])), None, None, false)
        .unwrap();
    assert_eq!(r.token_type_ids.into_rows(), vec![vec![0, 1]]);
}

#[test]
fn dropout_off_gives_identical_resolution() {
    let a = layer().resolve_inputs(Some(ids(vec![vec![1, 5, 7, 1, 9]])), None, None, None, false).unwrap();
    let b = layer().resolve_inputs(Some(ids(vec![vec![1, 5, 7, 1, 9]])), None, None, None, false).unwrap();
    assert!(!a.apply_dropout && !b.apply_dropout);
    assert_eq!(a.output_shape, b.output_shape);
    assert_eq!(a.position_ids.into_rows(), b.position_ids.into_rows());
    assert_eq!(a.token_type_ids.into_rows(), b.token_type_ids.into_rows());
}

#[test]
fn table_shapes_and_padding_index() {
    let l = layer();
    assert_eq!(l.padding_index(), 1);
    assert_eq!(PADDING_INDEX, 1);
    assert_eq!(l.sizes(), sizes());
    assert_eq!(l.word_embeddings_shape(), (50265, 768));
    assert_eq!(l.position_embeddings_shape(), (514, 768));
    assert_eq!(l.token_type_embeddings_shape(), (1, 768));
}

#[test]
fn ragged_rows_are_refused() {
    assert!(IdMatrix::from_rows(vec![vec![1, 2], vec![3]]).is_none());
    let m = IdMatrix::from_rows(vec![vec![1, 2], vec![3, 4]]).unwrap();
    assert_eq!(m.batch_size(), 2);
    assert_eq!(m.seq_len(), 2);
    assert_eq!(m.row(1), &vec![3, 4]);
}

#[test]
fn filled_matrix() {
    let m = IdMatrix::filled(2, 3, 7);
    assert_eq!(m.into_rows(), vec![vec![7, 7, 7], vec![7, 7, 7]]);
    assert_eq!(IdMatrix::filled(0, 3, 7).seq_len(), 3);
}
