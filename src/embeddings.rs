//! Position-id derivation and input resolution of the embedding layer.
use vstd::prelude::*;

use crate::id_matrix::{constant_grid, is_rectangular, rows_view, IdMatrix};
use crate::PADDING_INDEX;

verus! {

/// How many of the first `n` ids of `row` differ from `pad`.
pub open spec fn non_padding_count(row: Seq<i64>, n: int, pad: i64) -> int
    decreases n,
{
    if n <= 0 {
        0
    } else {
        non_padding_count(row, n - 1, pad) + if row[n - 1] != pad {
            1int
        } else {
            0int
        }
    }
}

/// The position id of the `j`th token of `row`: a padding token gets `pad`
/// itself; any other token gets `pad` plus its rank among the non-padding
/// tokens of the row, counted from one.
pub open spec fn cumulative_position(row: Seq<i64>, j: int, pad: i64) -> int {
    if row[j] == pad {
        pad as int
    } else {
        pad + non_padding_count(row, j + 1, pad)
    }
}

/// The padding-aware position ids of one row of token ids.
pub open spec fn cumulative_row(row: Seq<i64>, pad: i64) -> Seq<i64> {
    Seq::new(row.len(), |j: int| cumulative_position(row, j, pad) as i64)
}

/// The padding-aware position ids of a batch of token ids, row by row.
pub open spec fn cumulative_positions(ids: Seq<Seq<i64>>, pad: i64) -> Seq<Seq<i64>> {
    ids.map_values(|row: Seq<i64>| cumulative_row(row, pad))
}

/// The sequential position ids `pad + 1, pad + 2, ...` of length `seq`.
pub open spec fn sequential_row(seq: nat, pad: i64) -> Seq<i64> {
    Seq::new(seq, |j: int| (pad + 1 + j) as i64)
}

/// `batch` copies of the sequential row of length `seq`.
pub open spec fn sequential_positions(batch: nat, seq: nat, pad: i64) -> Seq<Seq<i64>> {
    Seq::new(batch, |i: int| sequential_row(seq, pad))
}

/// The number of non-padding ids in a prefix never exceeds its length.
proof fn lemma_count_bounds(row: Seq<i64>, n: int, pad: i64)
    requires
        0 <= n,
    ensures
        0 <= non_padding_count(row, n, pad) <= n,
    decreases n,
{
    if n > 0 {
        lemma_count_bounds(row, n - 1, pad);
    }
}

/// Counting non-padding ids over a longer prefix never gives less.
proof fn lemma_count_monotone(row: Seq<i64>, a: int, b: int, pad: i64)
    requires
        0 <= a <= b,
    ensures
        non_padding_count(row, a, pad) <= non_padding_count(row, b, pad),
    decreases b - a,
{
    if a < b {
        lemma_count_monotone(row, a, b - 1, pad);
    }
}

/// Padding tokens take the padding index as position; every other token takes
/// a position above it, and along a row these positions grow strictly: padding
/// between two tokens pauses the count and does not reset it.
pub proof fn lemma_non_padding_positions_increase(row: Seq<i64>, j: int, k: int, pad: i64)
    requires
        0 <= j < k < row.len(),
        row[j] != pad,
        row[k] != pad,
    ensures
        pad < cumulative_position(row, j, pad) < cumulative_position(row, k, pad),
        cumulative_position(row, k, pad) - cumulative_position(row, j, pad) == non_padding_count(
            row,
            k + 1,
            pad,
        ) - non_padding_count(row, j + 1, pad),
{
    lemma_count_bounds(row, j, pad);
    lemma_count_monotone(row, j + 1, k, pad);
}

/// Sizes of the three lookup tables: the vocabulary, the largest position id
/// plus one, the number of segment types, and the width of every embedding.
#[derive(Clone, Copy, Debug, PartialEq, Eq)]
pub struct TableSizes {
    pub vocab_size: i64,
    pub max_position_embeddings: i64,
    pub type_vocab_size: i64,
    pub hidden_size: i64,
}

/// The leading two dimensions (batch, sequence) of a batch of precomputed
/// token vectors.
#[derive(Clone, Copy, Debug, PartialEq, Eq)]
pub struct SequenceShape {
    pub batch: usize,
    pub seq: usize,
}

/// The failure that `resolve_inputs` reports: token ids and precomputed
/// token vectors were both given, or neither was.
#[derive(Clone, Copy, Debug, PartialEq, Eq, Structural)]
pub enum EmbeddingError {
    ContractViolation,
}

impl EmbeddingError {
    /// The fixed text of the error.
    pub fn message(&self) -> (r: &'static str)
        ensures
            r@ == "exactly one of token identifiers or token vectors must be supplied"@,
    {
        "exactly one of token identifiers or token vectors must be supplied"
    }
}

/// Where the base embedding comes from: a lookup of token ids, or token
/// vectors that the caller computed (of which the leading shape is kept).
#[derive(Debug)]
pub enum EmbeddingSource {
    TokenIds(IdMatrix),
    TokenVectors(SequenceShape),
}

impl EmbeddingSource {
    /// The number of sequences in the batch.
    pub open spec fn batch_spec(&self) -> nat {
        match self {
            EmbeddingSource::TokenIds(m) => m@.len(),
            EmbeddingSource::TokenVectors(s) => s.batch as nat,
        }
    }

    /// The length of each sequence.
    pub open spec fn seq_spec(&self) -> nat {
        match self {
            EmbeddingSource::TokenIds(m) => m.width(),
            EmbeddingSource::TokenVectors(s) => s.seq as nat,
        }
    }

    /// Accepts exactly one of token ids and token vectors.
    pub fn select(input_ids: Option<IdMatrix>, input_embeds: Option<SequenceShape>) -> (r: Result<
        EmbeddingSource,
        EmbeddingError,
    >)
        ensures
            r is Err <==> (input_ids is Some) == (input_embeds is Some),
            r is Err ==> r == Err::<EmbeddingSource, EmbeddingError>(
                EmbeddingError::ContractViolation,
            ),
            input_ids matches Some(m) ==> (r is Ok ==> r == Ok::<EmbeddingSource, EmbeddingError>(
                EmbeddingSource::TokenIds(m),
            )),
            input_embeds matches Some(s) ==> (r is Ok ==> r == Ok::<
                EmbeddingSource,
                EmbeddingError,
            >(EmbeddingSource::TokenVectors(s))),
    {
        match input_ids {
            Some(ids) => match input_embeds {
                Some(_) => Err(EmbeddingError::ContractViolation),
                None => Ok(EmbeddingSource::TokenIds(ids)),
            },
            None => match input_embeds {
                Some(shape) => Ok(EmbeddingSource::TokenVectors(shape)),
                None => Err(EmbeddingError::ContractViolation),
            },
        }
    }

    /// The number of sequences in the batch.
    pub fn batch_size(&self) -> (r: usize)
        ensures
            r == self.batch_spec(),
    {
        match self {
            EmbeddingSource::TokenIds(m) => m.batch_size(),
            EmbeddingSource::TokenVectors(s) => s.batch,
        }
    }

    /// The length of each sequence.
    pub fn seq_len(&self) -> (r: usize)
        ensures
            r == self.seq_spec(),
    {
        match self {
            EmbeddingSource::TokenIds(m) => m.seq_len(),
            EmbeddingSource::TokenVectors(s) => s.seq,
        }
    }
}

/// What enters the lookups of one forward pass: the base embedding's source,
/// the position and segment ids, whether dropout is applied, and the shape
/// (batch, sequence, hidden) of the result.
#[derive(Debug)]
pub struct ResolvedInputs {
    pub source: EmbeddingSource,
    pub position_ids: IdMatrix,
    pub token_type_ids: IdMatrix,
    pub apply_dropout: bool,
    pub output_shape: (usize, usize, i64),
}

/// The embedding layer's configuration and id bookkeeping.
#[derive(Clone, Copy, Debug)]
pub struct RobertaEmbeddings {
    sizes: TableSizes,
}

impl RobertaEmbeddings {
    /// The table sizes this layer was made with.
    pub closed spec fn sizes_spec(&self) -> TableSizes {
        self.sizes
    }

    /// A layer with the given table sizes; its padding index is `PADDING_INDEX`.
    pub fn new(config: &TableSizes) -> (r: RobertaEmbeddings)
        ensures
            r.sizes_spec() == *config,
    {
        RobertaEmbeddings { sizes: *config }
    }

    /// The table sizes this layer was made with.
    pub fn sizes(&self) -> (r: TableSizes)
        ensures
            r == self.sizes_spec(),
    {
        self.sizes
    }

    /// The index reserved for padding in the token and position tables.
    pub fn padding_index(&self) -> (r: i64)
        ensures
            r == PADDING_INDEX,
    {
        PADDING_INDEX
    }

    /// Rows and width of the token table.
    pub fn word_embeddings_shape(&self) -> (r: (i64, i64))
        ensures
            r == (self.sizes_spec().vocab_size, self.sizes_spec().hidden_size),
    {
        (self.sizes.vocab_size, self.sizes.hidden_size)
    }

    /// Rows and width of the position table.
    pub fn position_embeddings_shape(&self) -> (r: (i64, i64))
        ensures
            r == (self.sizes_spec().max_position_embeddings, self.sizes_spec().hidden_size),
    {
        (self.sizes.max_position_embeddings, self.sizes.hidden_size)
    }

    /// Rows and width of the segment table.
    pub fn token_type_embeddings_shape(&self) -> (r: (i64, i64))
        ensures
            r == (self.sizes_spec().type_vocab_size, self.sizes_spec().hidden_size),
    {
        (self.sizes.type_vocab_size, self.sizes.hidden_size)
    }

    /// Decides everything a forward pass looks up. Exactly one of `input_ids`
    /// and `input_embeds` must be given, else the call fails before any
    /// lookup. Explicit position ids are used as given; without them, token
    /// ids get padding-aware positions and token vectors sequential ones.
    /// Segment ids default to zeros of the batch's shape. Dropout is applied
    /// exactly when `train` holds.
    pub fn resolve_inputs(
        &self,
        input_ids: Option<IdMatrix>,
        token_type_ids: Option<IdMatrix>,
        position_ids: Option<IdMatrix>,
        input_embeds: Option<SequenceShape>,
        train: bool,
    ) -> (r: Result<ResolvedInputs, EmbeddingError>)
        requires
            position_ids is None ==> (input_ids matches Some(m) ==> m.width() < i64::MAX),
            position_ids is None ==> (input_embeds matches Some(s) ==> s.seq < i64::MAX),
        ensures
            r is Err <==> (input_ids is Some) == (input_embeds is Some),
            r is Err ==> r == Err::<ResolvedInputs, EmbeddingError>(
                EmbeddingError::ContractViolation,
            ),
            r matches Ok(v) ==> {
                &&& input_ids matches Some(m) ==> v.source == EmbeddingSource::TokenIds(m)
                &&& input_embeds matches Some(s) ==> v.source == EmbeddingSource::TokenVectors(s)
                &&& v.output_shape == (
                    v.source.batch_spec() as usize,
                    v.source.seq_spec() as usize,
                    self.sizes_spec().hidden_size,
                )
                &&& position_ids matches Some(p) ==> v.position_ids == p
                &&& position_ids is None ==> (input_ids matches Some(m) ==> v.position_ids@
                    == cumulative_positions(m@, PADDING_INDEX))
                &&& position_ids is None ==> (input_embeds matches Some(s) ==> v.position_ids@
                    == sequential_positions(s.batch as nat, s.seq as nat, PADDING_INDEX))
                &&& token_type_ids matches Some(t) ==> v.token_type_ids == t
                &&& token_type_ids is None ==> v.token_type_ids@ == constant_grid(
                    v.source.batch_spec(),
                    v.source.seq_spec(),
                    0,
                ) && v.token_type_ids.width() == v.source.seq_spec()
                &&& v.apply_dropout == train
            },
    {
        let source = match EmbeddingSource::select(input_ids, input_embeds) {
            Ok(source) => source,
            Err(e) => {
                return Err(e);
            },
        };
        let batch = source.batch_size();
        let seq = source.seq_len();
        let position_ids = match position_ids {
            Some(p) => p,
            None => match &source {
                EmbeddingSource::TokenIds(m) => self.create_position_ids_from_input_ids(m),
                EmbeddingSource::TokenVectors(s) => self.create_position_ids_from_embeddings(s),
            },
        };
        let token_type_ids = match token_type_ids {
            Some(t) => t,
            None => IdMatrix::filled(batch, seq, 0),
        };
        Ok(
            ResolvedInputs {
                source,
                position_ids,
                token_type_ids,
                apply_dropout: train,
                output_shape: (batch, seq, self.sizes.hidden_size),
            },
        )
    }

    /// Padding-aware position ids: within each row a padding token gets the
    /// padding index, and the `k`th non-padding token gets the padding index
    /// plus `k`.
    pub fn create_position_ids_from_input_ids(&self, x: &IdMatrix) -> (r: IdMatrix)
        requires
            x.width() < i64::MAX,
        ensures
            r@ == cumulative_positions(x@, PADDING_INDEX),
            r.width() == x.width(),
    {
        let pad = PADDING_INDEX;
        let batch = x.batch_size();
        let width = x.seq_len();
        let mut out: Vec<Vec<i64>> = Vec::new();
        let mut i: usize = 0;
        while i < batch
            invariant
                i <= batch,
                batch == x@.len(),
                width == x.width(),
                width < i64::MAX,
                pad == PADDING_INDEX,
                is_rectangular(x@, x.width()),
                out@.len() == i,
                forall|k: int| 0 <= k < i ==> #[trigger] rows_view(out@)[k] == cumulative_row(x@[k], pad),
            decreases batch - i,
        {
            let row = x.row(i);
            let mut positions: Vec<i64> = Vec::new();
            let mut count: i64 = 0;
            let mut j: usize = 0;
            while j < width
                invariant
                    j <= width,
                    width < i64::MAX,
                    row@.len() == width,
                    pad == PADDING_INDEX,
                    count == non_padding_count(row@, j as int, pad),
                    positions@ =~= cumulative_row(row@, pad).take(j as int),
                decreases width - j,
            {
                proof {
                    lemma_count_bounds(row@, j as int, pad);
                }
                if row[j] != pad {
                    count = count + 1;
                    positions.push(pad + count);
                } else {
                    positions.push(pad);
                }
                j = j + 1;
                assert(positions@ =~= cumulative_row(row@, pad).take(j as int));
            }
            assert(positions@ =~= cumulative_row(row@, pad));
            let ghost before = out@;
            out.push(positions);
            proof {
                assert forall|k: int| 0 <= k < i + 1 implies #[trigger] rows_view(out@)[k]
                    == cumulative_row(x@[k], pad) by {
                    if k < i {
                        assert(out@[k] == before[k]);
                        assert(rows_view(before)[k] == cumulative_row(x@[k], pad));
                    }
                }
            }
            i = i + 1;
        }
        proof {
            assert(rows_view(out@) =~= cumulative_positions(x@, PADDING_INDEX));
            assert(is_rectangular(rows_view(out@), width as nat));
        }
        IdMatrix::from_rectangular(out, width)
    }

    /// Sequential position ids for precomputed token vectors: every row is
    /// `padding index + 1, padding index + 2, ...`, one id per position.
    pub fn create_position_ids_from_embeddings(&self, shape: &SequenceShape) -> (r: IdMatrix)
        requires
            shape.seq < i64::MAX,
        ensures
            r@ == sequential_positions(shape.batch as nat, shape.seq as nat, PADDING_INDEX),
            r.width() == shape.seq,
    {
        let pad = PADDING_INDEX;
        let mut out: Vec<Vec<i64>> = Vec::new();
        let mut i: usize = 0;
        while i < shape.batch
            invariant
                i <= shape.batch,
                shape.seq < i64::MAX,
                pad == PADDING_INDEX,
                out@.len() == i,
                forall|k: int| 0 <= k < i ==> #[trigger] rows_view(out@)[k] == sequential_row(shape.seq as nat, pad),
            decreases shape.batch - i,
        {
            let mut positions: Vec<i64> = Vec::new();
            let mut j: usize = 0;
            while j < shape.seq
                invariant
                    j <= shape.seq,
                    shape.seq < i64::MAX,
                    pad == PADDING_INDEX,
                    positions@ =~= sequential_row(shape.seq as nat, pad).take(j as int),
                decreases shape.seq - j,
            {
                positions.push(pad + 1 + j as i64);
                j = j + 1;
                assert(positions@ =~= sequential_row(shape.seq as nat, pad).take(j as int));
            }
            assert(positions@ =~= sequential_row(shape.seq as nat, pad));
            let ghost before = out@;
            out.push(positions);
            proof {
                assert forall|k: int| 0 <= k < i + 1 implies #[trigger] rows_view(out@)[k]
                    == sequential_row(shape.seq as nat, pad) by {
                    if k < i {
                        assert(out@[k] == before[k]);
                        assert(rows_view(before)[k] == sequential_row(shape.seq as nat, pad));
                    }
                }
            }
            i = i + 1;
        }
        proof {
            assert(rows_view(out@) =~= sequential_positions(shape.batch as nat, shape.seq as nat, PADDING_INDEX));
        }
        IdMatrix::from_rectangular(out, shape.seq)
    }
}

} // verus!
