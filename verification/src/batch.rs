//! Batches that may be embedded, and why others may not.
use vstd::prelude::*;
use vstd::string::StringExecFns;

use crate::text::{decimal, usize_to_string};

verus! {

/// A text batch accepted at the boundary and safe for inference.
#[derive(Debug)]
pub enum TextEmbeddingBatch {
    Texts(Vec<String>),
    TokenIds(Vec<Vec<u32>>),
}

/// Why a batch is not embedded.
#[derive(Clone, Copy, Debug, PartialEq, Eq, Structural)]
pub enum TextEmbeddingRequestRejection {
    EmptyBatch,
    BatchTooLarge { actual_count: usize, maximum_count: usize },
    EmptyTokenSequence { input_index: usize },
    UnknownTokenId { input_index: usize, token_id: u32 },
}

/// That `index` is the first position of an empty sequence.
pub open spec fn first_empty_at(sequences: Seq<Vec<u32>>, index: int) -> bool {
    &&& 0 <= index < sequences.len()
    &&& sequences[index]@.len() == 0
    &&& forall|i: int| 0 <= i < index ==> (#[trigger] sequences[i])@.len() > 0
}

pub open spec fn has_empty(sequences: Seq<Vec<u32>>) -> bool {
    exists|index: int| first_empty_at(sequences, index)
}

/// A batch as a mathematical value.
pub enum TextEmbeddingBatchView {
    Texts(Seq<String>),
    TokenIds(Seq<Vec<u32>>),
}

impl View for TextEmbeddingBatch {
    type V = TextEmbeddingBatchView;

    open spec fn view(&self) -> TextEmbeddingBatchView {
        match self {
            TextEmbeddingBatch::Texts(texts) => TextEmbeddingBatchView::Texts(texts@),
            TextEmbeddingBatch::TokenIds(sequences) => TextEmbeddingBatchView::TokenIds(sequences@),
        }
    }
}

impl TextEmbeddingBatchView {
    /// How many inputs the batch holds.
    pub open spec fn size(self) -> nat {
        match self {
            TextEmbeddingBatchView::Texts(texts) => texts.len(),
            TextEmbeddingBatchView::TokenIds(token_sequences) => token_sequences.len(),
        }
    }

    /// That every token sequence of the batch holds a token.
    pub open spec fn holds_no_empty_sequence(self) -> bool {
        self matches TextEmbeddingBatchView::TokenIds(token_sequences) ==> forall|i: int|
            0 <= i < token_sequences.len() ==> (#[trigger] token_sequences[i])@.len() > 0
    }

    /// What the boundary makes of the batch: it goes on unchanged, or the first
    /// rule that it breaks rejects it.
    pub open spec fn admitted(self, maximum_batch_size: usize) -> Result<
        TextEmbeddingBatchView,
        TextEmbeddingRequestRejection,
    > {
        if self.size() == 0 {
            Err(TextEmbeddingRequestRejection::EmptyBatch)
        } else if self.size() > maximum_batch_size {
            Err(
                TextEmbeddingRequestRejection::BatchTooLarge {
                    actual_count: self.size() as usize,
                    maximum_count: maximum_batch_size,
                },
            )
        } else {
            match self {
                TextEmbeddingBatchView::TokenIds(token_sequences) if has_empty(token_sequences) =>
                    Err(
                        TextEmbeddingRequestRejection::EmptyTokenSequence {
                            input_index: (choose|index: int|
                                first_empty_at(token_sequences, index)) as usize,
                        },
                    ),
                _ => Ok(self),
            }
        }
    }
}

/// A result with its batch taken by its view.
pub open spec fn batch_outcome(
    result: Result<TextEmbeddingBatch, TextEmbeddingRequestRejection>,
) -> Result<TextEmbeddingBatchView, TextEmbeddingRequestRejection> {
    match result {
        Ok(batch) => Ok(batch@),
        Err(rejection) => Err(rejection),
    }
}

impl TextEmbeddingBatch {
    pub fn from_texts(texts: Vec<String>, maximum_batch_size: usize) -> (result: Result<
        TextEmbeddingBatch,
        TextEmbeddingRequestRejection,
    >)
        ensures
            batch_outcome(result) == TextEmbeddingBatchView::Texts(texts@).admitted(
                maximum_batch_size,
            ),
    {
        if texts.len() == 0 {
            return Err(TextEmbeddingRequestRejection::EmptyBatch);
        }
        if texts.len() > maximum_batch_size {
            return Err(
                TextEmbeddingRequestRejection::BatchTooLarge {
                    actual_count: texts.len(),
                    maximum_count: maximum_batch_size,
                },
            );
        }
        Ok(TextEmbeddingBatch::Texts(texts))
    }

    pub fn from_token_ids(token_sequences: Vec<Vec<u32>>, maximum_batch_size: usize) -> (result:
        Result<TextEmbeddingBatch, TextEmbeddingRequestRejection>)
        ensures
            batch_outcome(result) == TextEmbeddingBatchView::TokenIds(token_sequences@).admitted(
                maximum_batch_size,
            ),
    {
        if token_sequences.len() == 0 {
            return Err(TextEmbeddingRequestRejection::EmptyBatch);
        }
        if token_sequences.len() > maximum_batch_size {
            return Err(
                TextEmbeddingRequestRejection::BatchTooLarge {
                    actual_count: token_sequences.len(),
                    maximum_count: maximum_batch_size,
                },
            );
        }
        let mut input_index: usize = 0;
        while input_index < token_sequences.len()
            invariant
                0 < token_sequences@.len() <= maximum_batch_size,
                input_index <= token_sequences@.len(),
                forall|i: int| 0 <= i < input_index ==> (#[trigger] token_sequences@[i])@.len() > 0,
            decreases token_sequences@.len() - input_index,
        {
            if token_sequences[input_index].len() == 0 {
                assert(first_empty_at(token_sequences@, input_index as int));
                return Err(TextEmbeddingRequestRejection::EmptyTokenSequence { input_index });
            }
            input_index += 1;
        }
        Ok(TextEmbeddingBatch::TokenIds(token_sequences))
    }
}

impl TextEmbeddingRequestRejection {
    pub open spec fn spec_message(self) -> Seq<char> {
        match self {
            TextEmbeddingRequestRejection::EmptyBatch => "embedding input must not be empty"@,
            TextEmbeddingRequestRejection::BatchTooLarge { actual_count, maximum_count } =>
                "text batch has "@ + decimal(actual_count as nat)
                    + " inputs, but SIGLIP_MAX_TEXT_BATCH_SIZE is "@
                    + decimal(maximum_count as nat),
            TextEmbeddingRequestRejection::EmptyTokenSequence { input_index } =>
                "token input at index "@ + decimal(input_index as nat) + " must not be empty"@,
            TextEmbeddingRequestRejection::UnknownTokenId { input_index, token_id } =>
                "token input at index "@ + decimal(input_index as nat)
                    + " contains unknown token id "@ + decimal(token_id as nat),
        }
    }

    /// The rejection in words.
    pub fn message(&self) -> (text: String)
        ensures
            text@ == self.spec_message(),
    {
        match self {
            TextEmbeddingRequestRejection::EmptyBatch => {
                "embedding input must not be empty".to_owned()
            },
            TextEmbeddingRequestRejection::BatchTooLarge { actual_count, maximum_count } => {
                let mut text = "text batch has ".to_owned();
                text.append(usize_to_string(*actual_count).as_str());
                text.append(" inputs, but SIGLIP_MAX_TEXT_BATCH_SIZE is ");
                text.append(usize_to_string(*maximum_count).as_str());
                text
            },
            TextEmbeddingRequestRejection::EmptyTokenSequence { input_index } => {
                let mut text = "token input at index ".to_owned();
                text.append(usize_to_string(*input_index).as_str());
                text.append(" must not be empty");
                text
            },
            TextEmbeddingRequestRejection::UnknownTokenId { input_index, token_id } => {
                let mut text = "token input at index ".to_owned();
                text.append(usize_to_string(*input_index).as_str());
                text.append(" contains unknown token id ");
                text.append(usize_to_string(*token_id as usize).as_str());
                text
            },
        }
    }
}

/// An admitted batch holds at least one input and no more than the limit, and
/// no empty token sequence.
pub proof fn admitted_batches_are_bounded(batch: TextEmbeddingBatchView, maximum_batch_size: usize)
    ensures
        batch.admitted(maximum_batch_size) matches Ok(admitted) ==> {
            &&& admitted == batch
            &&& 1 <= admitted.size() <= maximum_batch_size
            &&& admitted.holds_no_empty_sequence()
        },
{
    if let TextEmbeddingBatchView::TokenIds(token_sequences) = batch {
        if !has_empty(token_sequences) {
            assert forall|i: int| 0 <= i < token_sequences.len() implies (
            #[trigger] token_sequences[i])@.len() > 0 by {
                if token_sequences[i]@.len() == 0 {
                    lemma_first_empty_exists(token_sequences, i);
                }
            }
        }
    }
}

/// A batch with an empty token sequence, within the limit, is rejected with the
/// place of the first one.
pub proof fn empty_sequences_are_reported(
    token_sequences: Seq<Vec<u32>>,
    index: int,
    maximum_batch_size: usize,
)
    requires
        token_sequences.len() <= maximum_batch_size,
        first_empty_at(token_sequences, index),
    ensures
        TextEmbeddingBatchView::TokenIds(token_sequences).admitted(maximum_batch_size) == Err::<
            TextEmbeddingBatchView,
            _,
        >(TextEmbeddingRequestRejection::EmptyTokenSequence { input_index: index as usize }),
{
    let chosen = choose|i: int| first_empty_at(token_sequences, i);
    assert(first_empty_at(token_sequences, chosen));
    assert(chosen == index);
}

/// A batch with an empty token sequence has a first one.
proof fn lemma_first_empty_exists(sequences: Seq<Vec<u32>>, index: int)
    requires
        0 <= index < sequences.len(),
        sequences[index]@.len() == 0,
    ensures
        has_empty(sequences),
    decreases index,
{
    if exists|i: int| 0 <= i < index && (#[trigger] sequences[i])@.len() == 0 {
        let earlier = choose|i: int| 0 <= i < index && (#[trigger] sequences[i])@.len() == 0;
        lemma_first_empty_exists(sequences, earlier);
    } else {
        assert(first_empty_at(sequences, index));
    }
}

/// Texts are taken as they are, in their order, whenever there is one at least and
/// no more than the limit; otherwise the rejection tells how many there are.
pub proof fn texts_are_taken_within_the_limit(
    texts: Vec<String>,
    maximum_batch_size: usize,
    result: Result<TextEmbeddingBatch, TextEmbeddingRequestRejection>,
)
    requires
        call_ensures(TextEmbeddingBatch::from_texts, (texts, maximum_batch_size), result),
        texts@.len() <= usize::MAX,
    ensures
        result is Ok <==> 1 <= texts@.len() <= maximum_batch_size,
        result matches Ok(batch) ==> batch matches TextEmbeddingBatch::Texts(taken) && taken@
            == texts@,
        result matches Err(rejection) ==> if texts@.len() == 0 {
            rejection == TextEmbeddingRequestRejection::EmptyBatch
        } else {
            rejection == (TextEmbeddingRequestRejection::BatchTooLarge {
                actual_count: texts@.len() as usize,
                maximum_count: maximum_batch_size,
            })
        },
{
}

/// Token sequences are taken as they are, in their order, whenever there is one
/// at least and no more than the limit, and each holds a token.
pub proof fn token_sequences_are_taken_within_the_limit(
    token_sequences: Vec<Vec<u32>>,
    maximum_batch_size: usize,
    result: Result<TextEmbeddingBatch, TextEmbeddingRequestRejection>,
)
    requires
        call_ensures(
            TextEmbeddingBatch::from_token_ids,
            (token_sequences, maximum_batch_size),
            result,
        ),
        token_sequences@.len() <= usize::MAX,
    ensures
        result is Ok <==> 1 <= token_sequences@.len() <= maximum_batch_size && forall|i: int|
            0 <= i < token_sequences@.len() ==> (#[trigger] token_sequences@[i])@.len() > 0,
        result matches Ok(batch) ==> batch matches TextEmbeddingBatch::TokenIds(taken) && taken@
            == token_sequences@,
        result matches Err(rejection) ==> if token_sequences@.len() == 0 {
            rejection == TextEmbeddingRequestRejection::EmptyBatch
        } else if token_sequences@.len() > maximum_batch_size {
            rejection == (TextEmbeddingRequestRejection::BatchTooLarge {
                actual_count: token_sequences@.len() as usize,
                maximum_count: maximum_batch_size,
            })
        } else {
            rejection matches TextEmbeddingRequestRejection::EmptyTokenSequence { input_index } && {
                &&& input_index < token_sequences@.len()
                &&& token_sequences@[input_index as int]@.len() == 0
                &&& forall|i: int|
                    0 <= i < input_index ==> (#[trigger] token_sequences@[i])@.len() > 0
            }
        },
{
    let batch = TextEmbeddingBatchView::TokenIds(token_sequences@);
    admitted_batches_are_bounded(batch, maximum_batch_size);
    if has_empty(token_sequences@) {
        let first = choose|index: int| first_empty_at(token_sequences@, index);
        assert(token_sequences@[first]@.len() == 0);
        if 0 < token_sequences@.len() <= maximum_batch_size {
            empty_sequences_are_reported(token_sequences@, first, maximum_batch_size);
        }
    }
}

/// The words of a rejection name the counts, the place and the token that it is
/// about.
pub proof fn batch_rejections_name_what_is_wrong(
    rejection: &TextEmbeddingRequestRejection,
    text: String,
)
    requires
        call_ensures(TextEmbeddingRequestRejection::message, (rejection,), text),
    ensures
        match *rejection {
            TextEmbeddingRequestRejection::EmptyBatch => text@
                == "embedding input must not be empty"@,
            TextEmbeddingRequestRejection::BatchTooLarge { actual_count, maximum_count } => text@
                == "text batch has "@ + decimal(actual_count as nat)
                + " inputs, but SIGLIP_MAX_TEXT_BATCH_SIZE is "@ + decimal(maximum_count as nat),
            TextEmbeddingRequestRejection::EmptyTokenSequence { input_index } => text@
                == "token input at index "@ + decimal(input_index as nat) + " must not be empty"@,
            TextEmbeddingRequestRejection::UnknownTokenId { input_index, token_id } => text@
                == "token input at index "@ + decimal(input_index as nat)
                + " contains unknown token id "@ + decimal(token_id as nat),
        },
{
}

} // verus!
