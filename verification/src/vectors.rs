//! The vectors that the graph returns, component by component as the bits of
//! an IEEE 754 single-precision number, and the checks they pass before they
//! are normalized and leave.
use vstd::prelude::*;
use vstd::string::StringExecFns;

use crate::text::{decimal, usize_to_string};

verus! {

/// The bits of positive infinity.
pub const INFINITY_BITS: u32 = 0x7f80_0000;

/// Neither an infinity nor a NaN: the exponent is not all ones.
pub open spec fn is_finite(bits: u32) -> bool {
    bits % 0x8000_0000 < INFINITY_BITS
}

/// A finite number greater than zero.
pub open spec fn is_positive_finite(bits: u32) -> bool {
    0 < bits < INFINITY_BITS
}

/// An L2 norm: its bits, and its text for an error message.
#[derive(Debug)]
pub struct EmbeddingNorm {
    pub bits: u32,
    pub text: String,
}

/// Why the output of the graph cannot be served.
#[derive(Debug)]
pub enum EmbeddingOutputRejection {
    CountOverflow,
    UnexpectedLength { actual_count: usize, expected_count: usize, embedding_dimension: usize },
    NonFiniteComponent { embedding_index: usize },
    InvalidNorm { embedding_index: usize, norm: EmbeddingNorm },
}

impl EmbeddingOutputRejection {
    pub open spec fn spec_message(self) -> Seq<char> {
        match self {
            EmbeddingOutputRejection::CountOverflow => "embedding count and dimension overflow"@,
            EmbeddingOutputRejection::UnexpectedLength {
                actual_count,
                expected_count,
                embedding_dimension,
            } => "ONNX output has "@ + decimal(actual_count as nat) + " values, expected "@
                + decimal(expected_count as nat) + " vectors of dimension "@
                + decimal(embedding_dimension as nat),
            EmbeddingOutputRejection::NonFiniteComponent { embedding_index } =>
                "ONNX output embedding "@ + decimal(embedding_index as nat)
                    + " contains a non-finite component"@,
            EmbeddingOutputRejection::InvalidNorm { embedding_index, norm } =>
                "ONNX output embedding "@ + decimal(embedding_index as nat)
                    + " has invalid L2 norm "@ + norm.text@,
        }
    }

    /// The rejection in words.
    pub fn message(&self) -> (text: String)
        ensures
            text@ == self.spec_message(),
    {
        match self {
            EmbeddingOutputRejection::CountOverflow => {
                "embedding count and dimension overflow".to_owned()
            },
            EmbeddingOutputRejection::UnexpectedLength {
                actual_count,
                expected_count,
                embedding_dimension,
            } => {
                let mut text = "ONNX output has ".to_owned();
                text.append(usize_to_string(*actual_count).as_str());
                text.append(" values, expected ");
                text.append(usize_to_string(*expected_count).as_str());
                text.append(" vectors of dimension ");
                text.append(usize_to_string(*embedding_dimension).as_str());
                text
            },
            EmbeddingOutputRejection::NonFiniteComponent { embedding_index } => {
                let mut text = "ONNX output embedding ".to_owned();
                text.append(usize_to_string(*embedding_index).as_str());
                text.append(" contains a non-finite component");
                text
            },
            EmbeddingOutputRejection::InvalidNorm { embedding_index, norm } => {
                let mut text = "ONNX output embedding ".to_owned();
                text.append(usize_to_string(*embedding_index).as_str());
                text.append(" has invalid L2 norm ");
                text.append(norm.text.as_str());
                text
            },
        }
    }
}

/// The components of vector `index` of a flat output.
pub open spec fn vector_at(flat: Seq<u32>, embedding_dimension: nat, index: int) -> Seq<u32> {
    flat.subrange(
        index * embedding_dimension as int,
        index * embedding_dimension as int + embedding_dimension as int,
    )
}

/// Cuts the output of the graph into its vectors.
pub fn split_embedding_batch(
    flat_embeddings: &Vec<u32>,
    expected_count: usize,
    embedding_dimension: usize,
) -> (result: Result<Vec<Vec<u32>>, EmbeddingOutputRejection>)
    requires
        embedding_dimension > 0,
    ensures
        match result {
            Ok(embeddings) => {
                &&& flat_embeddings@.len() == expected_count * embedding_dimension
                &&& embeddings@.len() == expected_count
                &&& forall|i: int|
                    0 <= i < expected_count ==> (#[trigger] embeddings@[i])@ == vector_at(
                        flat_embeddings@,
                        embedding_dimension as nat,
                        i,
                    )
            },
            Err(EmbeddingOutputRejection::CountOverflow) => expected_count * embedding_dimension
                > usize::MAX,
            Err(
                EmbeddingOutputRejection::UnexpectedLength {
                    actual_count,
                    expected_count: count,
                    embedding_dimension: dimension,
                },
            ) => {
                &&& expected_count * embedding_dimension <= usize::MAX
                &&& flat_embeddings@.len() != expected_count * embedding_dimension
                &&& actual_count == flat_embeddings@.len()
                &&& count == expected_count
                &&& dimension == embedding_dimension
            },
            Err(_) => false,
        },
{
    let expected_values: usize = match expected_count.checked_mul(embedding_dimension) {
        Some(product) => product,
        None => return Err(EmbeddingOutputRejection::CountOverflow),
    };
    if flat_embeddings.len() != expected_values {
        return Err(
            EmbeddingOutputRejection::UnexpectedLength {
                actual_count: flat_embeddings.len(),
                expected_count,
                embedding_dimension,
            },
        );
    }
    let mut embeddings: Vec<Vec<u32>> = Vec::new();
    let mut start: usize = 0;
    while embeddings.len() < expected_count
        invariant
            flat_embeddings@.len() == expected_count * embedding_dimension,
            flat_embeddings@.len() <= usize::MAX,
            embeddings@.len() <= expected_count,
            start == embeddings@.len() * embedding_dimension,
            forall|i: int|
                0 <= i < embeddings@.len() ==> (#[trigger] embeddings@[i])@ == vector_at(
                    flat_embeddings@,
                    embedding_dimension as nat,
                    i,
                ),
        decreases expected_count - embeddings@.len(),
    {
        let ghost index = embeddings@.len() as int;
        proof {
            assert((index + 1) * embedding_dimension == index * embedding_dimension
                + embedding_dimension) by (nonlinear_arith);
            assert((index + 1) * embedding_dimension <= expected_count * embedding_dimension)
                by (nonlinear_arith)
                requires
                    index + 1 <= expected_count,
            ;
        }
        let mut embedding: Vec<u32> = Vec::new();
        while embedding.len() < embedding_dimension
            invariant
                start + embedding_dimension <= flat_embeddings@.len(),
                flat_embeddings@.len() <= usize::MAX,
                embedding@.len() <= embedding_dimension,
                embedding@ =~= flat_embeddings@.subrange(
                    start as int,
                    start + embedding@.len(),
                ),
            decreases embedding_dimension - embedding@.len(),
        {
            embedding.push(flat_embeddings[start + embedding.len()]);
        }
        embeddings.push(embedding);
        start += embedding_dimension;
    }
    Ok(embeddings)
}

/// That every component of a vector is finite.
pub open spec fn all_finite(embedding: Seq<u32>) -> bool {
    forall|j: int| 0 <= j < embedding.len() ==> is_finite(#[trigger] embedding[j])
}

/// Whether a number is neither an infinity nor a NaN.
pub fn component_is_finite(bits: u32) -> (finite: bool)
    ensures
        finite == is_finite(bits),
{
    bits % 0x8000_0000 < INFINITY_BITS
}

/// Holds one vector and its norm to what may be served: finite components and
/// a finite norm that is not zero.
pub fn check_embedding(
    embedding: &Vec<u32>,
    norm: &EmbeddingNorm,
    embedding_index: usize,
) -> (result: Result<(), EmbeddingOutputRejection>)
    ensures
        match result {
            Ok(()) => all_finite(embedding@) && is_positive_finite(norm.bits),
            Err(EmbeddingOutputRejection::NonFiniteComponent { embedding_index: index }) => {
                &&& !all_finite(embedding@)
                &&& index == embedding_index
            },
            Err(EmbeddingOutputRejection::InvalidNorm { embedding_index: index, norm: bad }) => {
                &&& all_finite(embedding@)
                &&& !is_positive_finite(norm.bits)
                &&& index == embedding_index
                &&& bad.bits == norm.bits
                &&& bad.text@ == norm.text@
            },
            Err(_) => false,
        },
{
    let mut position: usize = 0;
    while position < embedding.len()
        invariant
            position <= embedding@.len(),
            forall|j: int| 0 <= j < position ==> is_finite(#[trigger] embedding@[j]),
        decreases embedding@.len() - position,
    {
        if !component_is_finite(embedding[position]) {
            return Err(EmbeddingOutputRejection::NonFiniteComponent { embedding_index });
        }
        position += 1;
    }
    if 0 < norm.bits && norm.bits < INFINITY_BITS {
        Ok(())
    } else {
        Err(
            EmbeddingOutputRejection::InvalidNorm {
                embedding_index,
                norm: EmbeddingNorm { bits: norm.bits, text: norm.text.clone() },
            },
        )
    }
}

/// That vector `index` may be served.
pub open spec fn servable(
    embeddings: Seq<Vec<u32>>,
    norms: Seq<EmbeddingNorm>,
    index: int,
) -> bool {
    all_finite(embeddings[index]@) && is_positive_finite(norms[index].bits)
}

/// That the first `count` vectors may be served.
pub open spec fn all_servable(
    embeddings: Seq<Vec<u32>>,
    norms: Seq<EmbeddingNorm>,
    count: int,
) -> bool {
    forall|i: int| 0 <= i < count ==> #[trigger] servable(embeddings, norms, i)
}

/// Holds every vector to what may be served; the first one that fails decides.
pub fn check_embedding_batch(
    embeddings: &Vec<Vec<u32>>,
    norms: &Vec<EmbeddingNorm>,
) -> (result: Result<(), EmbeddingOutputRejection>)
    requires
        norms@.len() == embeddings@.len(),
    ensures
        match result {
            Ok(()) => all_servable(embeddings@, norms@, embeddings@.len() as int),
            Err(EmbeddingOutputRejection::NonFiniteComponent { embedding_index }) => {
                &&& embedding_index < embeddings@.len()
                &&& !all_finite(embeddings@[embedding_index as int]@)
                &&& all_servable(embeddings@, norms@, embedding_index as int)
            },
            Err(EmbeddingOutputRejection::InvalidNorm { embedding_index, norm }) => {
                &&& embedding_index < embeddings@.len()
                &&& all_finite(embeddings@[embedding_index as int]@)
                &&& !is_positive_finite(norms@[embedding_index as int].bits)
                &&& norm.bits == norms@[embedding_index as int].bits
                &&& norm.text@ == norms@[embedding_index as int].text@
                &&& all_servable(embeddings@, norms@, embedding_index as int)
            },
            Err(_) => false,
        },
{
    let mut embedding_index: usize = 0;
    while embedding_index < embeddings.len()
        invariant
            norms@.len() == embeddings@.len(),
            embedding_index <= embeddings@.len(),
            forall|i: int|
                0 <= i < embedding_index ==> #[trigger] servable(embeddings@, norms@, i),
        decreases embeddings@.len() - embedding_index,
    {
        match check_embedding(&embeddings[embedding_index], &norms[embedding_index], embedding_index) {
            Ok(()) => {},
            Err(rejection) => return Err(rejection),
        }
        embedding_index += 1;
    }
    Ok(())
}

/// The vectors that an output is cut into all have the declared dimension, and
/// together they are the output again: none is lost and none moves.
pub proof fn split_vectors_cover_the_output(
    flat: Seq<u32>,
    expected_count: nat,
    embedding_dimension: nat,
    index: int,
    component: int,
)
    requires
        flat.len() == expected_count * embedding_dimension,
        0 <= index < expected_count,
        0 <= component < embedding_dimension,
    ensures
        vector_at(flat, embedding_dimension, index).len() == embedding_dimension,
        0 <= index * embedding_dimension + component < flat.len(),
        vector_at(flat, embedding_dimension, index)[component] == flat[index
            * embedding_dimension + component],
{
    assert(0 <= index * embedding_dimension) by (nonlinear_arith)
        requires
            0 <= index,
    ;
    assert(index * embedding_dimension + embedding_dimension <= expected_count
        * embedding_dimension) by (nonlinear_arith)
        requires
            index + 1 <= expected_count,
    ;
}

/// A component is finite where its exponent is not all ones, whatever its sign
/// and fraction.
pub proof fn finite_components_have_an_exponent(bits: u32, finite: bool)
    requires
        call_ensures(component_is_finite, (bits,), finite),
    ensures
        finite <==> (bits >> 23) & 0xff != 0xff,
{
    lemma_exponent(bits);
}

/// The output is cut exactly where it holds that many vectors of that dimension,
/// and component `j` of vector `i` is then the one at `i * dimension + j`.
pub proof fn outputs_are_cut_in_order(
    flat_embeddings: &Vec<u32>,
    expected_count: usize,
    embedding_dimension: usize,
    result: Result<Vec<Vec<u32>>, EmbeddingOutputRejection>,
)
    requires
        call_ensures(
            split_embedding_batch,
            (flat_embeddings, expected_count, embedding_dimension),
            result,
        ),
        flat_embeddings@.len() <= usize::MAX,
        embedding_dimension > 0,
    ensures
        result is Ok <==> flat_embeddings@.len() == expected_count * embedding_dimension,
        result matches Ok(embeddings) ==> {
            &&& embeddings@.len() == expected_count
            &&& forall|i: int| 0 <= i < expected_count ==> (#[trigger] embeddings@[i])@.len()
                == embedding_dimension
            &&& forall|i: int, j: int|
                0 <= i < expected_count && 0 <= j < embedding_dimension
                    ==> #[trigger] embeddings@[i]@[j] == flat_embeddings@[i * embedding_dimension
                    + j]
        },
        result matches Err(rejection) ==> match rejection {
            EmbeddingOutputRejection::CountOverflow => expected_count * embedding_dimension
                > usize::MAX,
            EmbeddingOutputRejection::UnexpectedLength {
                actual_count,
                expected_count: count,
                embedding_dimension: dimension,
            } => {
                &&& expected_count * embedding_dimension <= usize::MAX
                &&& actual_count == flat_embeddings@.len()
                &&& count == expected_count
                &&& dimension == embedding_dimension
            },
            _ => false,
        },
{
    if let Ok(embeddings) = result {
        assert forall|i: int| 0 <= i < expected_count implies (
        #[trigger] embeddings@[i])@.len() == embedding_dimension by {
            split_vectors_cover_the_output(
                flat_embeddings@,
                expected_count as nat,
                embedding_dimension as nat,
                i,
                0,
            );
        }
        assert forall|i: int, j: int|
            0 <= i < expected_count && 0 <= j < embedding_dimension implies
            #[trigger] embeddings@[i]@[j] == flat_embeddings@[i * embedding_dimension + j] by {
            split_vectors_cover_the_output(
                flat_embeddings@,
                expected_count as nat,
                embedding_dimension as nat,
                i,
                j,
            );
        }
    }
}

/// That a vector may leave: no exponent is all ones, and the norm is a finite
/// number above zero.
pub open spec fn may_leave(embedding: Seq<u32>, norm: u32) -> bool {
    &&& forall|j: int| 0 <= j < embedding.len() ==> (#[trigger] embedding[j] >> 23) & 0xff != 0xff
    &&& norm != 0
    &&& norm >> 31 == 0
    &&& (norm >> 23) & 0xff != 0xff
}

/// A vector passes exactly where it may leave. One that does not is reported by
/// its number: for a component first, or else for its norm.
pub proof fn vectors_pass_where_they_may_leave(
    embedding: &Vec<u32>,
    norm: &EmbeddingNorm,
    embedding_index: usize,
    result: Result<(), EmbeddingOutputRejection>,
)
    requires
        call_ensures(check_embedding, (embedding, norm, embedding_index), result),
    ensures
        result is Ok <==> may_leave(embedding@, norm.bits),
        result matches Err(rejection) ==> match rejection {
            EmbeddingOutputRejection::NonFiniteComponent { embedding_index: index } => {
                &&& index == embedding_index
                &&& exists|j: int|
                    0 <= j < embedding@.len() && (#[trigger] embedding@[j] >> 23) & 0xff == 0xff
            },
            EmbeddingOutputRejection::InvalidNorm { embedding_index: index, norm: bad } => {
                &&& index == embedding_index
                &&& bad.bits == norm.bits
                &&& bad.text@ == norm.text@
                &&& forall|j: int|
                    0 <= j < embedding@.len() ==> (#[trigger] embedding@[j] >> 23) & 0xff != 0xff
            },
            _ => false,
        },
{
    lemma_finite_components(embedding@);
    lemma_positive_norm(norm.bits);
}

/// A batch passes exactly where every vector may leave, and the first one that
/// may not is the one reported.
pub proof fn batches_pass_where_every_vector_may_leave(
    embeddings: &Vec<Vec<u32>>,
    norms: &Vec<EmbeddingNorm>,
    result: Result<(), EmbeddingOutputRejection>,
)
    requires
        call_ensures(check_embedding_batch, (embeddings, norms), result),
        norms@.len() == embeddings@.len(),
    ensures
        result is Ok <==> forall|i: int|
            0 <= i < embeddings@.len() ==> may_leave(
                (#[trigger] embeddings@[i])@,
                norms@[i].bits,
            ),
        result matches Err(rejection) ==> exists|index: int|
            {
                &&& 0 <= index < embeddings@.len()
                &&& !may_leave((#[trigger] embeddings@[index])@, norms@[index].bits)
                &&& forall|i: int|
                    0 <= i < index ==> may_leave((#[trigger] embeddings@[i])@, norms@[i].bits)
                &&& match rejection {
                    EmbeddingOutputRejection::NonFiniteComponent { embedding_index } =>
                        embedding_index == index,
                    EmbeddingOutputRejection::InvalidNorm { embedding_index, norm } => {
                        &&& embedding_index == index
                        &&& norm.bits == norms@[index].bits
                        &&& norm.text@ == norms@[index].text@
                        &&& forall|j: int|
                            0 <= j < embeddings@[index]@.len() ==> (
                            #[trigger] embeddings@[index]@[j] >> 23) & 0xff != 0xff
                    },
                    _ => false,
                }
            },
{
    assert forall|i: int| 0 <= i < embeddings@.len() implies #[trigger] servable(
        embeddings@,
        norms@,
        i,
    ) == may_leave(embeddings@[i]@, norms@[i].bits) by {
        lemma_finite_components(embeddings@[i]@);
        lemma_positive_norm(norms@[i].bits);
    }
    if let Ok(()) = result {
        assert forall|i: int| 0 <= i < embeddings@.len() implies may_leave(
            (#[trigger] embeddings@[i])@,
            norms@[i].bits,
        ) by {
            assert(servable(embeddings@, norms@, i));
        }
    }
    if let Err(rejection) = result {
        let index = match rejection {
            EmbeddingOutputRejection::NonFiniteComponent { embedding_index } =>
                embedding_index as int,
            EmbeddingOutputRejection::InvalidNorm { embedding_index, .. } => embedding_index as int,
            _ => 0,
        };
        assert(!servable(embeddings@, norms@, index));
        assert(!may_leave(embeddings@[index]@, norms@[index].bits));
        assert forall|i: int| 0 <= i < index implies may_leave(
            (#[trigger] embeddings@[i])@,
            norms@[i].bits,
        ) by {
            assert(servable(embeddings@, norms@, i));
        }
        lemma_finite_components(embeddings@[index]@);
    }
}

/// The words of a rejection name the vector and the numbers that it is about.
pub proof fn output_rejections_name_what_is_wrong(
    rejection: &EmbeddingOutputRejection,
    text: String,
)
    requires
        call_ensures(EmbeddingOutputRejection::message, (rejection,), text),
    ensures
        match *rejection {
            EmbeddingOutputRejection::CountOverflow => text@
                == "embedding count and dimension overflow"@,
            EmbeddingOutputRejection::UnexpectedLength {
                actual_count,
                expected_count,
                embedding_dimension,
            } => text@ == "ONNX output has "@ + decimal(actual_count as nat)
                + " values, expected "@ + decimal(expected_count as nat)
                + " vectors of dimension "@ + decimal(embedding_dimension as nat),
            EmbeddingOutputRejection::NonFiniteComponent { embedding_index } => text@
                == "ONNX output embedding "@ + decimal(embedding_index as nat)
                + " contains a non-finite component"@,
            EmbeddingOutputRejection::InvalidNorm { embedding_index, norm } => text@
                == "ONNX output embedding "@ + decimal(embedding_index as nat)
                + " has invalid L2 norm "@ + norm.text@,
        },
{
}

proof fn lemma_exponent(bits: u32)
    ensures
        is_finite(bits) <==> (bits >> 23) & 0xff != 0xff,
{
    assert((bits % 0x8000_0000 < 0x7f80_0000) <==> ((bits >> 23) & 0xff != 0xff)) by (bit_vector);
}

proof fn lemma_finite_components(embedding: Seq<u32>)
    ensures
        all_finite(embedding) <==> forall|j: int|
            0 <= j < embedding.len() ==> (#[trigger] embedding[j] >> 23) & 0xff != 0xff,
{
    assert forall|j: int| 0 <= j < embedding.len() implies is_finite(#[trigger] embedding[j]) == ((
    embedding[j] >> 23) & 0xff != 0xff) by {
        lemma_exponent(embedding[j]);
    }
}

proof fn lemma_positive_norm(norm: u32)
    ensures
        is_positive_finite(norm) <==> norm != 0 && norm >> 31 == 0 && (norm >> 23) & 0xff != 0xff,
{
    assert((0 < norm && norm < 0x7f80_0000) <==> (norm != 0 && norm >> 31 == 0 && (norm >> 23)
        & 0xff != 0xff)) by (bit_vector);
}

} // verus!
