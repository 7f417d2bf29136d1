//! Batches laid out for the graph: one row of fixed length per input.
use tokenizers::Encoding;
use vstd::prelude::*;
use vstd::string::StringExecFns;

use crate::batch::TextEmbeddingRequestRejection;
use crate::text::{decimal, usize_to_string};
use crate::tokenizer::{encoding_ids, encoding_mask, known_tokens, FixedLengthTokenizer};

verus! {

/// The rows one after the other.
pub open spec fn joined(rows: Seq<Seq<i64>>) -> Seq<i64>
    decreases rows.len(),
{
    if rows.len() == 0 {
        seq![]
    } else {
        joined(rows.drop_last()) + rows.last()
    }
}

/// How many values of a mask are not zero.
pub open spec fn attended(mask: Seq<i64>) -> nat
    decreases mask.len(),
{
    if mask.len() == 0 {
        0
    } else {
        attended(mask.drop_last()) + if mask.last() != 0 {
            1nat
        } else {
            0nat
        }
    }
}

pub open spec fn widened(values: Seq<u32>) -> Seq<i64> {
    Seq::new(values.len(), |i: int| values[i] as i64)
}

/// A part of an encoding that the graph takes.
#[derive(Clone, Copy, Debug, PartialEq, Eq, Structural)]
pub enum EncodingField {
    TokenIds,
    AttentionMasks,
}

impl EncodingField {
    /// The values of this part.
    pub open spec fn of(self, encoding: Encoding) -> Seq<u32> {
        match self {
            EncodingField::TokenIds => encoding_ids(encoding),
            EncodingField::AttentionMasks => encoding_mask(encoding),
        }
    }

    pub open spec fn spec_label(self) -> Seq<char> {
        match self {
            EncodingField::TokenIds => "token IDs"@,
            EncodingField::AttentionMasks => "attention masks"@,
        }
    }

    pub fn select<'a>(&self, encoding: &'a Encoding) -> (values: &'a [u32])
        ensures
            values@ == self.of(*encoding),
    {
        match self {
            EncodingField::TokenIds => encoding.get_ids(),
            EncodingField::AttentionMasks => encoding.get_attention_mask(),
        }
    }

    pub fn label(&self) -> (label: &'static str)
        ensures
            label@ == self.spec_label(),
    {
        match self {
            EncodingField::TokenIds => "token IDs",
            EncodingField::AttentionMasks => "attention masks",
        }
    }
}

/// The values of one part, one row per encoding.
pub open spec fn encoded_rows(encodings: Seq<Encoding>, field: EncodingField) -> Seq<Seq<i64>> {
    Seq::new(encodings.len(), |i: int| widened(field.of(encodings[i])))
}

/// That every encoding has `token_length` values of this part.
pub open spec fn all_fit(encodings: Seq<Encoding>, field: EncodingField, token_length: usize) -> bool {
    forall|i: int| 0 <= i < encodings.len() ==> field.of(#[trigger] encodings[i]).len() == token_length
}

/// An encoding without the fixed length.
#[derive(Clone, Copy, Debug, PartialEq, Eq, Structural)]
pub struct EncodingLengthMismatch {
    pub field: EncodingField,
    pub actual_count: usize,
    pub input_index: usize,
    pub expected_count: usize,
}

impl EncodingLengthMismatch {
    /// That this is the first encoding of the wrong length.
    pub open spec fn is_first_in(
        self,
        encodings: Seq<Encoding>,
        field: EncodingField,
        token_length: usize,
    ) -> bool {
        &&& self.field == field
        &&& self.expected_count == token_length
        &&& self.input_index < encodings.len()
        &&& self.actual_count == field.of(encodings[self.input_index as int]).len()
        &&& self.actual_count != token_length
        &&& forall|i: int|
            0 <= i < self.input_index ==> field.of(#[trigger] encodings[i]).len() == token_length
    }

    pub open spec fn spec_message(self) -> Seq<char> {
        "SigLIP 2 tokenizer produced "@ + decimal(self.actual_count as nat) + " "@
            + self.field.spec_label() + " for input "@ + decimal(self.input_index as nat)
            + ", expected "@ + decimal(self.expected_count as nat)
    }

    /// The mismatch in words.
    pub fn message(&self) -> (text: String)
        ensures
            text@ == self.spec_message(),
    {
        let mut text = "SigLIP 2 tokenizer produced ".to_owned();
        text.append(usize_to_string(self.actual_count).as_str());
        text.append(" ");
        text.append(self.field.label());
        text.append(" for input ");
        text.append(usize_to_string(self.input_index).as_str());
        text.append(", expected ");
        text.append(usize_to_string(self.expected_count).as_str());
        text
    }
}

/// One part of every encoding, row after row.
pub fn flatten_encoding_values(
    encodings: &Vec<Encoding>,
    token_length: usize,
    field: EncodingField,
) -> (result: Result<Vec<i64>, EncodingLengthMismatch>)
    ensures
        match result {
            Ok(values) => {
                &&& all_fit(encodings@, field, token_length)
                &&& values@ == joined(encoded_rows(encodings@, field))
            },
            Err(mismatch) => mismatch.is_first_in(encodings@, field, token_length),
        },
{
    let mut flattened_values: Vec<i64> = Vec::new();
    let mut input_index: usize = 0;
    while input_index < encodings.len()
        invariant
            input_index <= encodings@.len(),
            forall|i: int|
                0 <= i < input_index ==> field.of(#[trigger] encodings@[i]).len() == token_length,
            flattened_values@ == joined(encoded_rows(encodings@, field).take(input_index as int)),
        decreases encodings@.len() - input_index,
    {
        let values = field.select(&encodings[input_index]);
        if values.len() != token_length {
            return Err(
                EncodingLengthMismatch {
                    field,
                    actual_count: values.len(),
                    input_index,
                    expected_count: token_length,
                },
            );
        }
        let ghost rows = encoded_rows(encodings@, field);
        let ghost before = flattened_values@;
        let mut position: usize = 0;
        while position < values.len()
            invariant
                position <= values@.len(),
                flattened_values@ == before + widened(values@).take(position as int),
            decreases values@.len() - position,
        {
            flattened_values.push(values[position] as i64);
            position += 1;
            assert(widened(values@).take(position as int) =~= widened(values@).take(
                position - 1,
            ).push(values@[position - 1] as i64));
        }
        proof {
            assert(widened(values@).take(position as int) =~= widened(values@));
            assert(rows.take(input_index + 1).drop_last() =~= rows.take(input_index as int));
            assert(rows.take(input_index + 1).last() == widened(values@));
        }
        input_index += 1;
    }
    assert(encoded_rows(encodings@, field).take(encodings@.len() as int) =~= encoded_rows(
        encodings@,
        field,
    ));
    Ok(flattened_values)
}

/// The token IDs of every encoding, row after row.
pub fn flatten_token_ids(encodings: &Vec<Encoding>, token_length: usize) -> (result: Result<
    Vec<i64>,
    EncodingLengthMismatch,
>)
    ensures
        match result {
            Ok(values) => {
                &&& all_fit(encodings@, EncodingField::TokenIds, token_length)
                &&& values@ == joined(encoded_rows(encodings@, EncodingField::TokenIds))
            },
            Err(mismatch) => mismatch.is_first_in(
                encodings@,
                EncodingField::TokenIds,
                token_length,
            ),
        },
{
    flatten_encoding_values(encodings, token_length, EncodingField::TokenIds)
}

/// The attention mask of every encoding, row after row.
pub fn flatten_attention_masks(encodings: &Vec<Encoding>, token_length: usize) -> (result: Result<
    Vec<i64>,
    EncodingLengthMismatch,
>)
    ensures
        match result {
            Ok(values) => {
                &&& all_fit(encodings@, EncodingField::AttentionMasks, token_length)
                &&& values@ == joined(encoded_rows(encodings@, EncodingField::AttentionMasks))
            },
            Err(mismatch) => mismatch.is_first_in(
                encodings@,
                EncodingField::AttentionMasks,
                token_length,
            ),
        },
{
    flatten_encoding_values(encodings, token_length, EncodingField::AttentionMasks)
}

/// How many tokens of all encodings are not padding. Their masks together are
/// no longer than memory can hold.
pub fn count_unpadded_tokens(encodings: &Vec<Encoding>) -> (count: usize)
    requires
        joined(encoded_rows(encodings@, EncodingField::AttentionMasks)).len() <= usize::MAX,
    ensures
        count == attended(joined(encoded_rows(encodings@, EncodingField::AttentionMasks))),
{
    let ghost rows = encoded_rows(encodings@, EncodingField::AttentionMasks);
    let mut count: usize = 0;
    let mut input_index: usize = 0;
    assert(rows.take(0) =~= seq![]);
    while input_index < encodings.len()
        invariant
            rows == encoded_rows(encodings@, EncodingField::AttentionMasks),
            joined(rows).len() <= usize::MAX,
            input_index <= encodings@.len(),
            count == attended(joined(rows.take(input_index as int))),
        decreases encodings@.len() - input_index,
    {
        let mask = encodings[input_index].get_attention_mask();
        let ghost before = joined(rows.take(input_index as int));
        proof {
            assert(rows.take(input_index + 1).drop_last() =~= rows.take(input_index as int));
            assert(rows.take(input_index + 1).last() == widened(mask@));
            lemma_joined_prefix_fits(rows, input_index + 1);
            assert(widened(mask@).take(0) =~= seq![]);
            assert(before + seq![] =~= before);
        }
        let mut position: usize = 0;
        while position < mask.len()
            invariant
                position <= mask@.len(),
                before.len() + mask@.len() <= usize::MAX,
                count == attended(before + widened(mask@).take(position as int)),
            decreases mask@.len() - position,
        {
            let ghost seen = before + widened(mask@).take(position as int);
            proof {
                let longer = before + widened(mask@).take(position + 1);
                assert(longer =~= seen.push(mask@[position as int] as i64));
                assert(longer.drop_last() =~= seen);
                lemma_attended_bound(seen);
            }
            if mask[position] != 0 {
                count += 1;
            }
            position += 1;
        }
        assert(widened(mask@).take(position as int) =~= widened(mask@));
        input_index += 1;
    }
    assert(rows.take(input_index as int) =~= rows);
    count
}

/// A batch as the graph takes it.
#[derive(Debug)]
pub struct PreparedTextEmbeddingBatch {
    pub batch_size: usize,
    pub input_ids: Vec<i64>,
    pub attention_mask: Vec<i64>,
    pub input_token_count: usize,
}

impl PreparedTextEmbeddingBatch {
    /// That both tensors have one row of `token_length` values per input, and
    /// that the token count is what the mask attends to.
    pub open spec fn fills(self, token_length: usize) -> bool {
        &&& self.input_ids@.len() == self.batch_size * token_length
        &&& self.attention_mask@.len() == self.batch_size * token_length
        &&& self.input_token_count == attended(self.attention_mask@)
    }
}

/// Lays encodings out for the graph.
pub fn prepare_encoded_batch(encodings: &Vec<Encoding>, token_length: usize) -> (result: Result<
    PreparedTextEmbeddingBatch,
    EncodingLengthMismatch,
>)
    ensures
        match result {
            Ok(prepared) => {
                &&& all_fit(encodings@, EncodingField::TokenIds, token_length)
                &&& all_fit(encodings@, EncodingField::AttentionMasks, token_length)
                &&& prepared.batch_size == encodings@.len()
                &&& prepared.input_ids@ == joined(
                    encoded_rows(encodings@, EncodingField::TokenIds),
                )
                &&& prepared.attention_mask@ == joined(
                    encoded_rows(encodings@, EncodingField::AttentionMasks),
                )
                &&& prepared.fills(token_length)
            },
            Err(mismatch) => {
                ||| mismatch.is_first_in(encodings@, EncodingField::TokenIds, token_length)
                ||| {
                    &&& all_fit(encodings@, EncodingField::TokenIds, token_length)
                    &&& mismatch.is_first_in(
                        encodings@,
                        EncodingField::AttentionMasks,
                        token_length,
                    )
                }
            },
        },
{
    let input_ids = flatten_token_ids(encodings, token_length)?;
    let attention_mask = flatten_attention_masks(encodings, token_length)?;
    assert(attention_mask@.len() == attention_mask.len());
    let input_token_count: usize = count_unpadded_tokens(encodings);
    proof {
        lemma_joined_length(
            encoded_rows(encodings@, EncodingField::TokenIds),
            token_length as nat,
        );
        lemma_joined_length(
            encoded_rows(encodings@, EncodingField::AttentionMasks),
            token_length as nat,
        );
    }
    Ok(
        PreparedTextEmbeddingBatch {
            batch_size: encodings.len(),
            input_ids,
            attention_mask,
            input_token_count,
        },
    )
}

/// A token sequence as one row: cut off or filled up to the fixed length.
pub open spec fn padded_row(tokens: Seq<u32>, token_length: usize, pad_token_id: u32) -> Seq<i64> {
    Seq::new(
        token_length as nat,
        |i: int|
            if i < tokens.len() {
                tokens[i] as i64
            } else {
                pad_token_id as i64
            },
    )
}

/// The mask of a row: ones for its tokens, zeros for what fills it up.
pub open spec fn mask_row(tokens: Seq<u32>, token_length: usize) -> Seq<i64> {
    Seq::new(
        token_length as nat,
        |i: int|
            if i < tokens.len() {
                1i64
            } else {
                0i64
            },
    )
}

pub open spec fn padded_rows(
    sequences: Seq<Vec<u32>>,
    token_length: usize,
    pad_token_id: u32,
) -> Seq<Seq<i64>> {
    Seq::new(sequences.len(), |i: int| padded_row(sequences[i]@, token_length, pad_token_id))
}

pub open spec fn mask_rows(sequences: Seq<Vec<u32>>, token_length: usize) -> Seq<Seq<i64>> {
    Seq::new(sequences.len(), |i: int| mask_row(sequences[i]@, token_length))
}

/// How many tokens of the sequences the fixed length keeps.
pub open spec fn retained(sequences: Seq<Vec<u32>>, token_length: usize) -> nat
    decreases sequences.len(),
{
    if sequences.len() == 0 {
        0
    } else {
        retained(sequences.drop_last(), token_length) + if sequences.last()@.len()
            <= token_length {
            sequences.last()@.len()
        } else {
            token_length as nat
        }
    }
}

/// That the first `count` tokens of a sequence are known.
pub open spec fn knows_tokens(known: Map<u32, Seq<char>>, tokens: Seq<u32>, count: int) -> bool {
    forall|j: int| 0 <= j < count ==> known.contains_key(#[trigger] tokens[j])
}

/// That the first `count` sequences hold known tokens only.
pub open spec fn knows_sequences(
    known: Map<u32, Seq<char>>,
    sequences: Seq<Vec<u32>>,
    count: int,
) -> bool {
    forall|i: int|
        0 <= i < count ==> knows_tokens(
            known,
            (#[trigger] sequences[i])@,
            sequences[i]@.len() as int,
        )
}

/// That `token_id`, in the sequence at `input_index`, is the first unknown token.
pub open spec fn first_unknown(
    known: Map<u32, Seq<char>>,
    sequences: Seq<Vec<u32>>,
    input_index: int,
    token_id: u32,
) -> bool {
    &&& 0 <= input_index < sequences.len()
    &&& knows_sequences(known, sequences, input_index)
    &&& !known.contains_key(token_id)
    &&& exists|j: int|
        {
            &&& 0 <= j < sequences[input_index]@.len()
            &&& #[trigger] sequences[input_index]@[j] == token_id
            &&& knows_tokens(known, sequences[input_index]@, j)
        }
}

/// Lays token sequences out for the graph: each is cut off on the right or
/// filled up with the pad token. A batch with an unknown token is rejected.
pub fn prepare_token_id_batch(
    tokenizer: &FixedLengthTokenizer,
    token_sequences: &Vec<Vec<u32>>,
) -> (result: Result<PreparedTextEmbeddingBatch, TextEmbeddingRequestRejection>)
    ensures
        ({
            let known = known_tokens(tokenizer.inner());
            let token_length = tokenizer.spec_token_length();
            match result {
                Ok(prepared) => {
                    &&& knows_sequences(known, token_sequences@, token_sequences@.len() as int)
                    &&& prepared.batch_size == token_sequences@.len()
                    &&& prepared.input_ids@ == joined(
                        padded_rows(
                            token_sequences@,
                            token_length,
                            tokenizer.spec_pad_token_id(),
                        ),
                    )
                    &&& prepared.attention_mask@ == joined(
                        mask_rows(token_sequences@, token_length),
                    )
                    &&& prepared.input_token_count == retained(token_sequences@, token_length)
                    &&& prepared.fills(token_length)
                },
                Err(TextEmbeddingRequestRejection::UnknownTokenId { input_index, token_id }) =>
                    first_unknown(known, token_sequences@, input_index as int, token_id),
                Err(_) => false,
            }
        }),
{
    let token_length: usize = tokenizer.token_length();
    let pad_token_id: u32 = tokenizer.pad_token_id();
    let ghost known = known_tokens(tokenizer.inner());
    let ghost id_rows = padded_rows(token_sequences@, token_length, pad_token_id);
    let ghost attention_rows = mask_rows(token_sequences@, token_length);
    let batch_size: usize = token_sequences.len();
    let mut input_ids: Vec<i64> = Vec::new();
    let mut attention_mask: Vec<i64> = Vec::new();
    let mut input_token_count: usize = 0;
    let mut input_index: usize = 0;
    assert(id_rows.take(0) =~= seq![]);
    assert(attention_rows.take(0) =~= seq![]);
    assert(token_sequences@.take(0) =~= seq![]);
    while input_index < token_sequences.len()
        invariant
            token_length == tokenizer.spec_token_length(),
            pad_token_id == tokenizer.spec_pad_token_id(),
            known == known_tokens(tokenizer.inner()),
            id_rows == padded_rows(token_sequences@, token_length, pad_token_id),
            attention_rows == mask_rows(token_sequences@, token_length),
            input_index <= token_sequences@.len(),
            knows_sequences(known, token_sequences@, input_index as int),
            input_ids@ == joined(id_rows.take(input_index as int)),
            attention_mask@ == joined(attention_rows.take(input_index as int)),
            input_token_count == retained(
                token_sequences@.take(input_index as int),
                token_length,
            ),
            input_token_count == attended(attention_mask@),
        decreases token_sequences@.len() - input_index,
    {
        let token_sequence = &token_sequences[input_index];
        let mut position: usize = 0;
        while position < token_sequence.len()
            invariant
                input_index < token_sequences@.len(),
                token_sequence@ == token_sequences@[input_index as int]@,
                known == known_tokens(tokenizer.inner()),
                knows_sequences(known, token_sequences@, input_index as int),
                position <= token_sequence@.len(),
                knows_tokens(known, token_sequence@, position as int),
            decreases token_sequence@.len() - position,
        {
            let token_id: u32 = token_sequence[position];
            if !tokenizer.knows(token_id) {
                assert(token_sequences@[input_index as int]@[position as int] == token_id);
                return Err(
                    TextEmbeddingRequestRejection::UnknownTokenId { input_index, token_id },
                );
            }
            position += 1;
        }
        let ghost ids_before = input_ids@;
        let ghost mask_before = attention_mask@;
        let ghost id_row = padded_row(token_sequence@, token_length, pad_token_id);
        let ghost attention_row = mask_row(token_sequence@, token_length);
        proof {
            assert(ids_before + id_row.take(0) =~= ids_before);
            assert(mask_before + attention_row.take(0) =~= mask_before);
        }
        let mut column: usize = 0;
        while column < token_length
            invariant
                column <= token_length,
                id_row == padded_row(token_sequence@, token_length, pad_token_id),
                attention_row == mask_row(token_sequence@, token_length),
                input_ids@ == ids_before + id_row.take(column as int),
                attention_mask@ == mask_before + attention_row.take(column as int),
                input_token_count == attended(attention_mask@),
                input_token_count == attended(mask_before) + if column <= token_sequence@.len() {
                    column as nat
                } else {
                    token_sequence@.len()
                },
            decreases token_length - column,
        {
            proof {
                assert(id_row.take(column + 1) =~= id_row.take(column as int).push(
                    id_row[column as int],
                ));
                assert(attention_row.take(column + 1) =~= attention_row.take(column as int).push(
                    attention_row[column as int],
                ));
                let longer = attention_mask@.push(attention_row[column as int]);
                assert(longer.drop_last() =~= attention_mask@);
                lemma_attended_bound(attention_mask@);
            }
            if column < token_sequence.len() {
                input_ids.push(token_sequence[column] as i64);
                attention_mask.push(1);
                assert(attention_mask@.len() == attention_mask.len());
                input_token_count += 1;
            } else {
                input_ids.push(pad_token_id as i64);
                attention_mask.push(0);
            }
            column += 1;
        }
        proof {
            assert(id_row.take(column as int) =~= id_row);
            assert(attention_row.take(column as int) =~= attention_row);
            assert(id_rows.take(input_index + 1).drop_last() =~= id_rows.take(input_index as int));
            assert(attention_rows.take(input_index + 1).drop_last() =~= attention_rows.take(
                input_index as int,
            ));
            assert(token_sequences@.take(input_index + 1).drop_last() =~= token_sequences@.take(
                input_index as int,
            ));
        }
        input_index += 1;
    }
    proof {
        assert(id_rows.take(input_index as int) =~= id_rows);
        assert(attention_rows.take(input_index as int) =~= attention_rows);
        assert(token_sequences@.take(input_index as int) =~= token_sequences@);
        lemma_joined_length(id_rows, token_length as nat);
        lemma_joined_length(attention_rows, token_length as nat);
    }
    Ok(PreparedTextEmbeddingBatch { batch_size, input_ids, attention_mask, input_token_count })
}

/// Row `row` of a layout starts where the rows before it end, so the value in
/// column `column` of it stands at `row * token_length + column`: inputs keep
/// their order.
pub proof fn rows_keep_their_place(
    rows: Seq<Seq<i64>>,
    token_length: nat,
    row: int,
    column: int,
)
    requires
        forall|i: int| 0 <= i < rows.len() ==> (#[trigger] rows[i]).len() == token_length,
        0 <= row < rows.len(),
        0 <= column < token_length,
    ensures
        0 <= row * token_length + column < joined(rows).len(),
        joined(rows)[row * token_length + column] == rows[row][column],
    decreases rows.len(),
{
    let front = rows.drop_last();
    assert forall|i: int| 0 <= i < front.len() implies (#[trigger] front[i]).len()
        == token_length by {
        assert(front[i] == rows[i]);
    }
    lemma_joined_length(rows, token_length);
    lemma_joined_length(front, token_length);
    assert(row * token_length + column < (row + 1) * token_length) by (nonlinear_arith)
        requires
            column < token_length,
    ;
    assert((row + 1) * token_length <= rows.len() * token_length) by (nonlinear_arith)
        requires
            row + 1 <= rows.len(),
    ;
    assert(0 <= row * token_length) by (nonlinear_arith)
        requires
            0 <= row,
    ;
    if row < rows.len() - 1 {
        rows_keep_their_place(front, token_length, row, column);
    }
}

/// In a layout of token sequences, row `row` holds the first tokens of sequence
/// `row` and then the pad token, and its mask tells the two apart.
pub proof fn token_rows_hold_their_sequence(
    sequences: Seq<Vec<u32>>,
    token_length: usize,
    pad_token_id: u32,
    row: int,
    column: int,
)
    requires
        0 <= row < sequences.len(),
        0 <= column < token_length,
    ensures
        ({
            let place = row * token_length + column;
            let tokens = sequences[row]@;
            let ids = joined(padded_rows(sequences, token_length, pad_token_id));
            let mask = joined(mask_rows(sequences, token_length));
            &&& 0 <= place < ids.len()
            &&& ids.len() == mask.len()
            &&& column < tokens.len() ==> ids[place] == tokens[column] && mask[place] == 1
            &&& column >= tokens.len() ==> ids[place] == pad_token_id && mask[place] == 0
        }),
{
    let id_rows = padded_rows(sequences, token_length, pad_token_id);
    let attention_rows = mask_rows(sequences, token_length);
    rows_keep_their_place(id_rows, token_length as nat, row, column);
    rows_keep_their_place(attention_rows, token_length as nat, row, column);
    lemma_joined_length(id_rows, token_length as nat);
    lemma_joined_length(attention_rows, token_length as nat);
}

/// In a layout of encodings, row `row` holds the values of encoding `row`.
pub proof fn encoded_rows_hold_their_encoding(
    encodings: Seq<Encoding>,
    field: EncodingField,
    token_length: usize,
    row: int,
    column: int,
)
    requires
        all_fit(encodings, field, token_length),
        0 <= row < encodings.len(),
        0 <= column < token_length,
    ensures
        ({
            let place = row * token_length + column;
            let values = joined(encoded_rows(encodings, field));
            &&& 0 <= place < values.len()
            &&& values[place] == field.of(encodings[row])[column]
        }),
{
    let rows = encoded_rows(encodings, field);
    assert forall|i: int| 0 <= i < rows.len() implies (#[trigger] rows[i]).len()
        == token_length by {
        assert(field.of(encodings[i]).len() == token_length);
    }
    rows_keep_their_place(rows, token_length as nat, row, column);
}

proof fn lemma_joined_length(rows: Seq<Seq<i64>>, token_length: nat)
    requires
        forall|i: int| 0 <= i < rows.len() ==> (#[trigger] rows[i]).len() == token_length,
    ensures
        joined(rows).len() == rows.len() * token_length,
    decreases rows.len(),
{
    if rows.len() > 0 {
        let front = rows.drop_last();
        assert forall|i: int| 0 <= i < front.len() implies (#[trigger] front[i]).len()
            == token_length by {
            assert(front[i] == rows[i]);
        }
        lemma_joined_length(front, token_length);
        assert(rows.last().len() == token_length);
        assert(rows.len() * token_length == (rows.len() - 1) * token_length + token_length)
            by (nonlinear_arith);
    }
}

proof fn lemma_joined_prefix_fits(rows: Seq<Seq<i64>>, count: int)
    requires
        0 <= count <= rows.len(),
    ensures
        joined(rows.take(count)).len() <= joined(rows).len(),
    decreases rows.len(),
{
    if count == rows.len() {
        assert(rows.take(count) =~= rows);
    } else {
        assert(rows.drop_last().take(count) =~= rows.take(count));
        lemma_joined_prefix_fits(rows.drop_last(), count);
    }
}

proof fn lemma_attended_bound(mask: Seq<i64>)
    ensures
        attended(mask) <= mask.len(),
    decreases mask.len(),
{
    if mask.len() > 0 {
        lemma_attended_bound(mask.drop_last());
    }
}

/// What the graph is told to attend to is counted once each: as many tokens are
/// used as values of the mask are not zero.
pub proof fn used_tokens_are_the_attended_ones(mask: Seq<i64>)
    ensures
        attended(mask) == mask.filter(|value: i64| value != 0).len(),
    decreases mask.len(),
{
    reveal(Seq::filter);
    if mask.len() > 0 {
        used_tokens_are_the_attended_ones(mask.drop_last());
    }
}

/// Token sequences are laid out exactly where every token of every sequence is
/// known. Row `i` then holds the first tokens of sequence `i`, filled up with the
/// pad token on the right, and its mask tells the two apart; the tokens used are
/// those that are attended to.
pub proof fn known_sequences_are_laid_out(
    tokenizer: &FixedLengthTokenizer,
    token_sequences: &Vec<Vec<u32>>,
    prepared: PreparedTextEmbeddingBatch,
)
    requires
        call_ensures(prepare_token_id_batch, (tokenizer, token_sequences), Ok(prepared)),
    ensures
        forall|i: int, j: int|
            0 <= i < token_sequences@.len() && 0 <= j < token_sequences@[i]@.len()
                ==> known_tokens(tokenizer.inner()).contains_key(
                #[trigger] token_sequences@[i]@[j],
            ),
        prepared.batch_size == token_sequences@.len(),
        prepared.input_ids@.len() == token_sequences@.len() * tokenizer.spec_token_length(),
        prepared.attention_mask@.len() == token_sequences@.len() * tokenizer.spec_token_length(),
        forall|i: int, j: int|
            #![trigger prepared.input_ids@[i * tokenizer.spec_token_length() + j]]
            #![trigger prepared.attention_mask@[i * tokenizer.spec_token_length() + j]]
            0 <= i < token_sequences@.len() && 0 <= j < tokenizer.spec_token_length() ==> {
                let place = i * tokenizer.spec_token_length() + j;
                if j < token_sequences@[i]@.len() {
                    &&& prepared.input_ids@[place] == token_sequences@[i]@[j]
                    &&& prepared.attention_mask@[place] == 1
                } else {
                    &&& prepared.input_ids@[place] == tokenizer.spec_pad_token_id()
                    &&& prepared.attention_mask@[place] == 0
                }
            },
        prepared.input_token_count == prepared.attention_mask@.filter(
            |value: i64| value != 0,
        ).len(),
{
    let token_length = tokenizer.spec_token_length();
    let pad_token_id = tokenizer.spec_pad_token_id();
    assert forall|i: int, j: int|
        0 <= i < token_sequences@.len() && 0 <= j < token_sequences@[i]@.len() implies known_tokens(
        tokenizer.inner(),
    ).contains_key(#[trigger] token_sequences@[i]@[j]) by {
        assert(knows_tokens(
            known_tokens(tokenizer.inner()),
            token_sequences@[i]@,
            token_sequences@[i]@.len() as int,
        ));
    }
    assert forall|i: int, j: int|
        #![trigger prepared.input_ids@[i * token_length + j]]
        #![trigger prepared.attention_mask@[i * token_length + j]]
        0 <= i < token_sequences@.len() && 0 <= j < token_length implies ({
        let place = i * token_length + j;
        if j < token_sequences@[i]@.len() {
            &&& prepared.input_ids@[place] == token_sequences@[i]@[j]
            &&& prepared.attention_mask@[place] == 1
        } else {
            &&& prepared.input_ids@[place] == pad_token_id
            &&& prepared.attention_mask@[place] == 0
        }
    }) by {
        token_rows_hold_their_sequence(token_sequences@, token_length, pad_token_id, i, j);
    }
    used_tokens_are_the_attended_ones(prepared.attention_mask@);
}

/// A batch of token sequences is turned away for the first token that is not
/// known, and for nothing else.
pub proof fn unknown_tokens_are_reported(
    tokenizer: &FixedLengthTokenizer,
    token_sequences: &Vec<Vec<u32>>,
    rejection: TextEmbeddingRequestRejection,
)
    requires
        call_ensures(prepare_token_id_batch, (tokenizer, token_sequences), Err(rejection)),
    ensures
        rejection matches TextEmbeddingRequestRejection::UnknownTokenId { input_index, token_id }
            && exists|position: int|
            {
                let known = known_tokens(tokenizer.inner());
                &&& input_index < token_sequences@.len()
                &&& 0 <= position < token_sequences@[input_index as int]@.len()
                &&& #[trigger] token_sequences@[input_index as int]@[position] == token_id
                &&& !known.contains_key(token_id)
                &&& forall|j: int|
                    0 <= j < position ==> known.contains_key(
                        #[trigger] token_sequences@[input_index as int]@[j],
                    )
                &&& forall|i: int, j: int|
                    0 <= i < input_index && 0 <= j < token_sequences@[i]@.len()
                        ==> known.contains_key(#[trigger] token_sequences@[i]@[j])
            },
{
    let known = known_tokens(tokenizer.inner());
    if let TextEmbeddingRequestRejection::UnknownTokenId { input_index, token_id } = rejection {
        let position = choose|j: int|
            {
                &&& 0 <= j < token_sequences@[input_index as int]@.len()
                &&& #[trigger] token_sequences@[input_index as int]@[j] == token_id
                &&& knows_tokens(known, token_sequences@[input_index as int]@, j)
            };
        assert forall|i: int, j: int|
            0 <= i < input_index && 0 <= j < token_sequences@[i]@.len() implies known.contains_key(
            #[trigger] token_sequences@[i]@[j],
        ) by {
            assert(knows_tokens(
                known,
                token_sequences@[i]@,
                token_sequences@[i]@.len() as int,
            ));
        }
        assert(token_sequences@[input_index as int]@[position] == token_id);
    }
}

/// Encodings are laid out exactly where each has the fixed length. Row `i` then
/// holds the token IDs and the mask of encoding `i`, and the tokens used are those
/// that are attended to.
pub proof fn encodings_are_laid_out(
    encodings: &Vec<Encoding>,
    token_length: usize,
    prepared: PreparedTextEmbeddingBatch,
)
    requires
        call_ensures(prepare_encoded_batch, (encodings, token_length), Ok(prepared)),
    ensures
        prepared.batch_size == encodings@.len(),
        prepared.input_ids@.len() == encodings@.len() * token_length,
        prepared.attention_mask@.len() == encodings@.len() * token_length,
        forall|i: int|
            0 <= i < encodings@.len() ==> {
                &&& encoding_ids(#[trigger] encodings@[i]).len() == token_length
                &&& encoding_mask(encodings@[i]).len() == token_length
            },
        forall|i: int, j: int|
            #![trigger prepared.input_ids@[i * token_length + j]]
            #![trigger prepared.attention_mask@[i * token_length + j]]
            0 <= i < encodings@.len() && 0 <= j < token_length ==> {
                let place = i * token_length + j;
                &&& prepared.input_ids@[place] == encoding_ids(encodings@[i])[j]
                &&& prepared.attention_mask@[place] == encoding_mask(encodings@[i])[j]
            },
        prepared.input_token_count == prepared.attention_mask@.filter(
            |value: i64| value != 0,
        ).len(),
{
    assert forall|i: int| 0 <= i < encodings@.len() implies {
        &&& encoding_ids(#[trigger] encodings@[i]).len() == token_length
        &&& encoding_mask(encodings@[i]).len() == token_length
    } by {
        assert(EncodingField::TokenIds.of(encodings@[i]).len() == token_length);
        assert(EncodingField::AttentionMasks.of(encodings@[i]).len() == token_length);
    }
    assert forall|i: int, j: int|
        #![trigger prepared.input_ids@[i * token_length + j]]
        #![trigger prepared.attention_mask@[i * token_length + j]]
        0 <= i < encodings@.len() && 0 <= j < token_length implies ({
        let place = i * token_length + j;
        &&& prepared.input_ids@[place] == encoding_ids(encodings@[i])[j]
        &&& prepared.attention_mask@[place] == encoding_mask(encodings@[i])[j]
    }) by {
        encoded_rows_hold_their_encoding(encodings@, EncodingField::TokenIds, token_length, i, j);
        encoded_rows_hold_their_encoding(
            encodings@,
            EncodingField::AttentionMasks,
            token_length,
            i,
            j,
        );
    }
    used_tokens_are_the_attended_ones(prepared.attention_mask@);
}

/// Encodings are turned away for the first one whose token IDs have another
/// length, or else for the first one whose mask has, and for nothing else.
pub proof fn wrong_lengths_are_reported(
    encodings: &Vec<Encoding>,
    token_length: usize,
    mismatch: EncodingLengthMismatch,
)
    requires
        call_ensures(prepare_encoded_batch, (encodings, token_length), Err(mismatch)),
    ensures
        mismatch.expected_count == token_length,
        mismatch.actual_count != token_length,
        mismatch.input_index < encodings@.len(),
        match mismatch.field {
            EncodingField::TokenIds => {
                &&& mismatch.actual_count == encoding_ids(
                    encodings@[mismatch.input_index as int],
                ).len()
                &&& forall|i: int|
                    0 <= i < mismatch.input_index ==> encoding_ids(#[trigger] encodings@[i]).len()
                        == token_length
            },
            EncodingField::AttentionMasks => {
                &&& mismatch.actual_count == encoding_mask(
                    encodings@[mismatch.input_index as int],
                ).len()
                &&& forall|i: int|
                    0 <= i < mismatch.input_index ==> encoding_mask(#[trigger] encodings@[i]).len()
                        == token_length
                &&& forall|i: int|
                    0 <= i < encodings@.len() ==> encoding_ids(#[trigger] encodings@[i]).len()
                        == token_length
            },
        },
{
    let field = mismatch.field;
    assert(mismatch.is_first_in(encodings@, field, token_length));
    assert forall|i: int| 0 <= i < mismatch.input_index implies field.of(
        #[trigger] encodings@[i],
    ).len() == token_length by {}
    if field is AttentionMasks {
        assert(all_fit(encodings@, EncodingField::TokenIds, token_length));
        assert forall|i: int| 0 <= i < encodings@.len() implies encoding_ids(
            #[trigger] encodings@[i],
        ).len() == token_length by {
            assert(EncodingField::TokenIds.of(encodings@[i]).len() == token_length);
        }
    }
}

/// One part of every encoding is laid out row after row, where each has the fixed
/// length.
pub proof fn encoding_parts_are_laid_out(
    encodings: &Vec<Encoding>,
    token_length: usize,
    field: EncodingField,
    values: Vec<i64>,
    row: int,
    column: int,
)
    requires
        call_ensures(flatten_encoding_values, (encodings, token_length, field), Ok(values)),
        0 <= row < encodings@.len(),
        0 <= column < token_length,
    ensures
        values@.len() == encodings@.len() * token_length,
        0 <= row * token_length + column < values@.len(),
        values@[row * token_length + column] == match field {
            EncodingField::TokenIds => encoding_ids(encodings@[row])[column],
            EncodingField::AttentionMasks => encoding_mask(encodings@[row])[column],
        },
{
    encoded_rows_hold_their_encoding(encodings@, field, token_length, row, column);
    let rows = encoded_rows(encodings@, field);
    assert forall|i: int| 0 <= i < rows.len() implies (#[trigger] rows[i]).len()
        == token_length by {
        assert(field.of(encodings@[i]).len() == token_length);
    }
    lemma_joined_length(rows, token_length as nat);
}

/// The words for an encoding of the wrong length name the lengths, the part and
/// the input.
pub proof fn length_mismatches_name_what_is_wrong(mismatch: &EncodingLengthMismatch, text: String)
    requires
        call_ensures(EncodingLengthMismatch::message, (mismatch,), text),
    ensures
        text@ == "SigLIP 2 tokenizer produced "@ + decimal(mismatch.actual_count as nat) + " "@
            + match mismatch.field {
            EncodingField::TokenIds => "token IDs"@,
            EncodingField::AttentionMasks => "attention masks"@,
        } + " for input "@ + decimal(mismatch.input_index as nat) + ", expected "@ + decimal(
            mismatch.expected_count as nat,
        ),
{
}

/// The two parts of encodings that the graph takes are their token IDs and their
/// masks, each laid out as that part.
pub proof fn parts_are_what_they_are_called(encodings: &Vec<Encoding>, token_length: usize)
    ensures
        forall|values: Vec<i64>| #[trigger]
            call_ensures(flatten_token_ids, (encodings, token_length), Ok(values))
                ==> lays_rows(
                values@,
                Seq::new(encodings@.len(), |i: int| encoding_ids(encodings@[i])),
                token_length,
            ),
        forall|values: Vec<i64>| #[trigger]
            call_ensures(flatten_attention_masks, (encodings, token_length), Ok(values))
                ==> lays_rows(
                values@,
                Seq::new(encodings@.len(), |i: int| encoding_mask(encodings@[i])),
                token_length,
            ),
        forall|mismatch: EncodingLengthMismatch| #[trigger]
            call_ensures(flatten_token_ids, (encodings, token_length), Err(mismatch)) ==> {
                &&& mismatch.field is TokenIds
                &&& mismatch.input_index < encodings@.len()
                &&& mismatch.actual_count == encoding_ids(
                    encodings@[mismatch.input_index as int],
                ).len()
                &&& mismatch.actual_count != token_length
                &&& mismatch.expected_count == token_length
            },
        forall|mismatch: EncodingLengthMismatch| #[trigger]
            call_ensures(flatten_attention_masks, (encodings, token_length), Err(mismatch)) ==> {
                &&& mismatch.field is AttentionMasks
                &&& mismatch.input_index < encodings@.len()
                &&& mismatch.actual_count == encoding_mask(
                    encodings@[mismatch.input_index as int],
                ).len()
                &&& mismatch.actual_count != token_length
                &&& mismatch.expected_count == token_length
            },
{
    assert forall|values: Vec<i64>| #[trigger]
        call_ensures(flatten_token_ids, (encodings, token_length), Ok(values)) implies lays_rows(
        values@,
        Seq::new(encodings@.len(), |i: int| encoding_ids(encodings@[i])),
        token_length,
    ) by {
        lemma_lays_rows(encodings@, EncodingField::TokenIds, token_length);
        assert(Seq::new(encodings@.len(), |i: int| encoding_ids(encodings@[i])) =~= Seq::new(
            encodings@.len(),
            |i: int| EncodingField::TokenIds.of(encodings@[i]),
        ));
    }
    assert forall|values: Vec<i64>| #[trigger]
        call_ensures(
            flatten_attention_masks,
            (encodings, token_length),
            Ok(values),
        ) implies lays_rows(
        values@,
        Seq::new(encodings@.len(), |i: int| encoding_mask(encodings@[i])),
        token_length,
    ) by {
        lemma_lays_rows(encodings@, EncodingField::AttentionMasks, token_length);
        assert(Seq::new(encodings@.len(), |i: int| encoding_mask(encodings@[i])) =~= Seq::new(
            encodings@.len(),
            |i: int| EncodingField::AttentionMasks.of(encodings@[i]),
        ));
    }
}

/// That values are these rows, one after the other, each of the same length.
pub open spec fn lays_rows(values: Seq<i64>, rows: Seq<Seq<u32>>, token_length: usize) -> bool {
    &&& values.len() == rows.len() * token_length
    &&& forall|i: int| 0 <= i < rows.len() ==> (#[trigger] rows[i]).len() == token_length
    &&& forall|i: int, j: int|
        #![trigger values[i * token_length + j]]
        0 <= i < rows.len() && 0 <= j < token_length ==> values[i * token_length + j] == rows[i][j]
}

proof fn lemma_lays_rows(encodings: Seq<Encoding>, field: EncodingField, token_length: usize)
    requires
        all_fit(encodings, field, token_length),
    ensures
        lays_rows(
            joined(encoded_rows(encodings, field)),
            Seq::new(encodings.len(), |i: int| field.of(encodings[i])),
            token_length,
        ),
{
    let values = joined(encoded_rows(encodings, field));
    let rows = Seq::new(encodings.len(), |i: int| field.of(encodings[i]));
    assert forall|i: int| 0 <= i < rows.len() implies (#[trigger] rows[i]).len()
        == token_length by {
        assert(field.of(encodings[i]).len() == token_length);
    }
    let wide = encoded_rows(encodings, field);
    assert forall|i: int| 0 <= i < wide.len() implies (#[trigger] wide[i]).len()
        == token_length by {
        assert(field.of(encodings[i]).len() == token_length);
    }
    lemma_joined_length(wide, token_length as nat);
    assert forall|i: int, j: int|
        #![trigger values[i * token_length + j]]
        0 <= i < rows.len() && 0 <= j < token_length implies values[i * token_length + j]
        == rows[i][j] by {
        encoded_rows_hold_their_encoding(encodings, field, token_length, i, j);
    }
}

/// The tokens used by encodings are the values of their masks that are not zero:
/// none without encodings, and one encoding more adds those of its mask.
pub proof fn used_tokens_add_up(encodings: &Vec<Encoding>, count: usize)
    requires
        call_ensures(count_unpadded_tokens, (encodings,), count),
    ensures
        count == used_by(encodings@),
{
    lemma_used_by(encodings@);
}

/// How many values of the masks of encodings are not zero.
pub open spec fn used_by(encodings: Seq<Encoding>) -> nat
    decreases encodings.len(),
{
    if encodings.len() == 0 {
        0
    } else {
        used_by(encodings.drop_last()) + encoding_mask(encodings.last()).filter(
            |value: u32| value != 0,
        ).len()
    }
}

proof fn lemma_used_by(encodings: Seq<Encoding>)
    ensures
        attended(joined(encoded_rows(encodings, EncodingField::AttentionMasks))) == used_by(
            encodings,
        ),
    decreases encodings.len(),
{
    let rows = encoded_rows(encodings, EncodingField::AttentionMasks);
    if encodings.len() > 0 {
        lemma_used_by(encodings.drop_last());
        let front = encoded_rows(encodings.drop_last(), EncodingField::AttentionMasks);
        assert(rows.drop_last() =~= front);
        lemma_attended_adds_up(joined(front), rows.last());
        lemma_attended_widened(encoding_mask(encodings.last()));
    }
}

proof fn lemma_attended_adds_up(first: Seq<i64>, second: Seq<i64>)
    ensures
        attended(first + second) == attended(first) + attended(second),
    decreases second.len(),
{
    if second.len() == 0 {
        assert(first + second =~= first);
    } else {
        lemma_attended_adds_up(first, second.drop_last());
        assert((first + second).drop_last() =~= first + second.drop_last());
    }
}

proof fn lemma_attended_widened(mask: Seq<u32>)
    ensures
        attended(widened(mask)) == mask.filter(|value: u32| value != 0).len(),
    decreases mask.len(),
{
    reveal(Seq::filter);
    if mask.len() > 0 {
        lemma_attended_widened(mask.drop_last());
        assert(widened(mask).drop_last() =~= widened(mask.drop_last()));
    }
}

} // verus!
