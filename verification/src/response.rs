//! Embedding responses. Components are the bits of IEEE 754 single-precision
//! numbers.
use vstd::prelude::*;

use crate::request::OpenAiEmbeddingEncodingFormat;

verus! {

/// The character of the standard base64 alphabet that stands for six bits.
pub open spec fn base64_symbol(value: int) -> char {
    if value < 26 {
        ('A' as int + value) as char
    } else if value < 52 {
        ('a' as int + (value - 26)) as char
    } else if value < 62 {
        ('0' as int + (value - 52)) as char
    } else if value == 62 {
        '+'
    } else {
        '/'
    }
}

/// Bytes in standard base64 with padding: four characters for three bytes.
pub open spec fn base64_text(bytes: Seq<u8>) -> Seq<char>
    decreases bytes.len(),
{
    if bytes.len() == 0 {
        seq![]
    } else if bytes.len() == 1 {
        let a = bytes[0] as int;
        seq![base64_symbol(a / 4), base64_symbol(a % 4 * 16), '=', '=']
    } else if bytes.len() == 2 {
        let (a, b) = (bytes[0] as int, bytes[1] as int);
        seq![
            base64_symbol(a / 4),
            base64_symbol(a % 4 * 16 + b / 16),
            base64_symbol(b % 16 * 4),
            '=',
        ]
    } else {
        let (a, b, c) = (bytes[0] as int, bytes[1] as int, bytes[2] as int);
        seq![
            base64_symbol(a / 4),
            base64_symbol(a % 4 * 16 + b / 16),
            base64_symbol(b % 16 * 4 + c / 64),
            base64_symbol(c % 64),
        ] + base64_text(bytes.skip(3))
    }
}

/// The length of `byte_count` bytes in base64.
pub open spec fn base64_length(byte_count: nat) -> nat {
    (byte_count + 2) / 3 * 4
}

/// Trusted: `Engine::encode` of `base64`'s `STANDARD` engine writes bytes in
/// standard base64 with padding. A text beyond what memory can address makes it
/// panic.
#[verifier::external_body]
fn encode_base64(bytes: &Vec<u8>) -> (text: String)
    requires
        base64_length(bytes@.len()) <= isize::MAX,
    ensures
        text@ == base64_text(bytes@),
{
    base64::Engine::encode(&base64::engine::general_purpose::STANDARD, bytes)
}

/// The four bytes of a number, least significant first.
pub open spec fn little_endian(bits: u32) -> Seq<u8> {
    seq![
        (bits % 256) as u8,
        (bits / 256 % 256) as u8,
        (bits / 65536 % 256) as u8,
        (bits / 16777216) as u8,
    ]
}

/// The bytes of every component, one after the other.
pub open spec fn embedding_bytes(embedding: Seq<u32>) -> Seq<u8>
    decreases embedding.len(),
{
    if embedding.len() == 0 {
        seq![]
    } else {
        embedding_bytes(embedding.drop_last()) + little_endian(embedding.last())
    }
}

/// A vector as a response holds it.
#[derive(Debug)]
pub enum OpenAiEmbeddingValues {
    Float(Vec<u32>),
    Base64(String),
}

impl OpenAiEmbeddingValues {
    /// That these are the values of `embedding` in `encoding_format`.
    pub open spec fn encodes(
        self,
        embedding: Seq<u32>,
        encoding_format: OpenAiEmbeddingEncodingFormat,
    ) -> bool {
        match encoding_format {
            OpenAiEmbeddingEncodingFormat::Float => self matches OpenAiEmbeddingValues::Float(values)
                && values@ == embedding,
            OpenAiEmbeddingEncodingFormat::Base64 => self matches OpenAiEmbeddingValues::Base64(text)
                && text@ == base64_text(embedding_bytes(embedding)),
        }
    }
}

/// That memory can address a vector of this many components in base64.
pub open spec fn fits_base64(component_count: nat) -> bool {
    base64_length(component_count * 4) <= isize::MAX
}

/// Whether memory can address a vector of this many components in base64.
pub fn base64_embedding_fits(component_count: usize) -> (fits: bool)
    ensures
        fits == fits_base64(component_count as nat),
{
    let limit: usize = isize::MAX as usize;
    if component_count > limit / 4 {
        return false;
    }
    let groups: usize = (component_count * 4 + 2) / 3;
    groups <= limit / 4
}

/// Writes a vector in the requested format.
pub fn encode_openai_embedding(
    embedding: Vec<u32>,
    encoding_format: OpenAiEmbeddingEncodingFormat,
) -> (values: OpenAiEmbeddingValues)
    requires
        encoding_format is Base64 ==> fits_base64(embedding@.len()),
    ensures
        values.encodes(embedding@, encoding_format),
{
    match encoding_format {
        OpenAiEmbeddingEncodingFormat::Float => OpenAiEmbeddingValues::Float(embedding),
        OpenAiEmbeddingEncodingFormat::Base64 => {
            let mut bytes: Vec<u8> = Vec::new();
            let mut position: usize = 0;
            assert(embedding@.take(0) =~= seq![]);
            while position < embedding.len()
                invariant
                    position <= embedding@.len(),
                    bytes@ == embedding_bytes(embedding@.take(position as int)),
                decreases embedding@.len() - position,
            {
                let ghost before = bytes@;
                let bits: u32 = embedding[position];
                bytes.push((bits % 256) as u8);
                bytes.push((bits / 256 % 256) as u8);
                bytes.push((bits / 65536 % 256) as u8);
                bytes.push((bits / 16777216) as u8);
                proof {
                    assert(bytes@ =~= before + little_endian(bits));
                    assert(embedding@.take(position + 1).drop_last() =~= embedding@.take(
                        position as int,
                    ));
                }
                position += 1;
            }
            proof {
                assert(embedding@.take(position as int) =~= embedding@);
                lemma_embedding_bytes_length(embedding@);
            }
            OpenAiEmbeddingValues::Base64(encode_base64(&bytes))
        },
    }
}

/// The vectors of a batch and the tokens they took.
#[derive(Debug)]
pub struct TextEmbeddingBatchOutput {
    pub embeddings: Vec<Vec<u32>>,
    pub input_token_count: usize,
}

#[derive(Debug)]
pub struct OpenAiEmbeddingData {
    pub object: &'static str,
    pub embedding: OpenAiEmbeddingValues,
    pub index: usize,
}

#[derive(Clone, Copy, Debug, PartialEq, Eq, Structural)]
pub struct OpenAiEmbeddingUsage {
    pub prompt_tokens: usize,
    pub total_tokens: usize,
}

#[derive(Debug)]
pub struct OpenAiEmbeddingResponse {
    pub object: &'static str,
    pub data: Vec<OpenAiEmbeddingData>,
    pub model: String,
    pub usage: OpenAiEmbeddingUsage,
}

impl OpenAiEmbeddingResponse {
    /// The response to a request: one entry per vector, in the order of the
    /// vectors, numbered from zero.
    pub fn from_embedding_batch(
        embedding_batch: TextEmbeddingBatchOutput,
        encoding_format: OpenAiEmbeddingEncodingFormat,
        model_id: &str,
    ) -> (response: OpenAiEmbeddingResponse)
        requires
            encoding_format is Base64 ==> forall|i: int|
                0 <= i < embedding_batch.embeddings@.len() ==> fits_base64(
                    (#[trigger] embedding_batch.embeddings@[i])@.len(),
                ),
        ensures
            response.object@ == "list"@,
            response.model@ == model_id@,
            response.usage.prompt_tokens == embedding_batch.input_token_count,
            response.usage.total_tokens == embedding_batch.input_token_count,
            response.data@.len() == embedding_batch.embeddings@.len(),
            forall|i: int|
                0 <= i < response.data@.len() ==> {
                    &&& (#[trigger] response.data@[i]).index == i
                    &&& response.data@[i].object@ == "embedding"@
                    &&& response.data@[i].embedding.encodes(
                        embedding_batch.embeddings@[i]@,
                        encoding_format,
                    )
                },
    {
        let mut data: Vec<OpenAiEmbeddingData> = Vec::new();
        let mut index: usize = 0;
        let embeddings = &embedding_batch.embeddings;
        while index < embeddings.len()
            invariant
                embeddings == embedding_batch.embeddings,
                encoding_format is Base64 ==> forall|i: int|
                    0 <= i < embeddings@.len() ==> fits_base64((#[trigger] embeddings@[i])@.len()),
                index <= embeddings@.len(),
                data@.len() == index,
                forall|i: int|
                    0 <= i < index ==> {
                        &&& (#[trigger] data@[i]).index == i
                        &&& data@[i].object@ == "embedding"@
                        &&& data@[i].embedding.encodes(embeddings@[i]@, encoding_format)
                    },
            decreases embeddings@.len() - index,
        {
            let embedding: Vec<u32> = embeddings[index].clone();
            data.push(
                OpenAiEmbeddingData {
                    object: "embedding",
                    embedding: encode_openai_embedding(embedding, encoding_format),
                    index,
                },
            );
            index += 1;
        }
        OpenAiEmbeddingResponse {
            object: "list",
            data,
            model: model_id.to_owned(),
            usage: OpenAiEmbeddingUsage {
                prompt_tokens: embedding_batch.input_token_count,
                total_tokens: embedding_batch.input_token_count,
            },
        }
    }
}

proof fn lemma_embedding_bytes_length(embedding: Seq<u32>)
    ensures
        embedding_bytes(embedding).len() == embedding.len() * 4,
    decreases embedding.len(),
{
    if embedding.len() > 0 {
        lemma_embedding_bytes_length(embedding.drop_last());
    }
}

/// The six bits that a character of the base64 alphabet stands for.
pub open spec fn symbol_value(symbol: char) -> int {
    if 'A' <= symbol <= 'Z' {
        symbol as int - 'A' as int
    } else if 'a' <= symbol <= 'z' {
        symbol as int - 'a' as int + 26
    } else if '0' <= symbol <= '9' {
        symbol as int - '0' as int + 52
    } else if symbol == '+' {
        62
    } else {
        63
    }
}

/// The bytes that a padded base64 text stands for.
pub open spec fn base64_bytes(text: Seq<char>) -> Seq<u8>
    decreases text.len(),
{
    if text.len() < 4 {
        seq![]
    } else {
        let (w, x) = (symbol_value(text[0]), symbol_value(text[1]));
        let (y, z) = (symbol_value(text[2]), symbol_value(text[3]));
        let first = (w * 4 + x / 16) as u8;
        let second = (x % 16 * 16 + y / 4) as u8;
        let third = (y % 4 * 64 + z) as u8;
        if text[2] == '=' {
            seq![first]
        } else if text[3] == '=' {
            seq![first, second]
        } else {
            seq![first, second, third] + base64_bytes(text.skip(4))
        }
    }
}

/// The number that four bytes denote, least significant first.
pub open spec fn little_endian_value(a: u8, b: u8, c: u8, d: u8) -> u32 {
    (a + 256 * b + 65536 * c + 16777216 * d) as u32
}

/// The components that bytes denote, four bytes each.
pub open spec fn embedding_of_bytes(bytes: Seq<u8>) -> Seq<u32> {
    Seq::new(
        bytes.len() / 4,
        |i: int|
            little_endian_value(
                bytes[4 * i],
                bytes[4 * i + 1],
                bytes[4 * i + 2],
                bytes[4 * i + 3],
            ),
    )
}

/// Reading a base64 text back gives the bytes it was written from.
pub proof fn base64_reads_back(bytes: Seq<u8>)
    ensures
        base64_bytes(base64_text(bytes)) == bytes,
    decreases bytes.len(),
{
    let text = base64_text(bytes);
    if bytes.len() == 0 {
        assert(base64_bytes(text) =~= bytes);
    } else if bytes.len() == 1 {
        let a = bytes[0] as int;
        lemma_symbol(a / 4);
        lemma_symbol(a % 4 * 16);
        assert(a / 4 * 4 + a % 4 * 16 / 16 == a);
        assert(base64_bytes(text) =~= bytes);
    } else if bytes.len() == 2 {
        let (a, b) = (bytes[0] as int, bytes[1] as int);
        lemma_symbol(a / 4);
        lemma_symbol(a % 4 * 16 + b / 16);
        lemma_symbol(b % 16 * 4);
        assert((a % 4 * 16 + b / 16) / 16 == a % 4);
        assert((a % 4 * 16 + b / 16) % 16 == b / 16);
        assert(base64_bytes(text) =~= bytes);
    } else {
        let (a, b, c) = (bytes[0] as int, bytes[1] as int, bytes[2] as int);
        lemma_symbol(a / 4);
        lemma_symbol(a % 4 * 16 + b / 16);
        lemma_symbol(b % 16 * 4 + c / 64);
        lemma_symbol(c % 64);
        assert((a % 4 * 16 + b / 16) / 16 == a % 4);
        assert((a % 4 * 16 + b / 16) % 16 == b / 16);
        assert((b % 16 * 4 + c / 64) / 4 == b % 16);
        assert((b % 16 * 4 + c / 64) % 4 == c / 64);
        base64_reads_back(bytes.skip(3));
        assert(text.skip(4) =~= base64_text(bytes.skip(3)));
        assert(base64_bytes(text) =~= bytes);
    }
}

proof fn lemma_symbol(value: int)
    requires
        0 <= value < 64,
    ensures
        symbol_value(base64_symbol(value)) == value,
        base64_symbol(value) != '=',
{
}

/// Reading the bytes of a vector back gives its components, bit for bit.
pub proof fn components_read_back(embedding: Seq<u32>)
    ensures
        embedding_of_bytes(embedding_bytes(embedding)) == embedding,
    decreases embedding.len(),
{
    lemma_embedding_bytes_length(embedding);
    let bytes = embedding_bytes(embedding);
    if embedding.len() > 0 {
        let front = embedding.drop_last();
        components_read_back(front);
        lemma_embedding_bytes_length(front);
        assert forall|i: int| 0 <= i < embedding.len() implies embedding_of_bytes(bytes)[i]
            == embedding[i] by {
            if i < front.len() {
                assert(embedding_of_bytes(embedding_bytes(front))[i] == front[i]);
            } else {
                let bits = embedding[i];
                assert(bits % 256 + 256 * (bits / 256 % 256) + 65536 * (bits / 65536 % 256)
                    + 16777216 * (bits / 16777216) == bits);
            }
        }
    }
    assert(embedding_of_bytes(bytes) =~= embedding);
}

/// A base64 response preserves the vector: reading its text back gives every
/// component, bit for bit.
pub proof fn base64_responses_preserve_vectors(embedding: Seq<u32>)
    ensures
        embedding_of_bytes(base64_bytes(base64_text(embedding_bytes(embedding)))) == embedding,
{
    base64_reads_back(embedding_bytes(embedding));
    components_read_back(embedding);
}

/// The length of a base64 text is four characters for every three bytes or part
/// of three bytes.
pub proof fn base64_text_has_its_length(bytes: Seq<u8>)
    ensures
        base64_text(bytes).len() == base64_length(bytes.len()),
    decreases bytes.len(),
{
    if bytes.len() > 2 {
        base64_text_has_its_length(bytes.skip(3));
    }
}

/// Byte `place` of every component stands behind the bytes below it: the bytes of
/// a vector are its components in their order, each least significant byte first.
pub proof fn components_are_little_endian(embedding: Seq<u32>, index: int)
    requires
        0 <= index < embedding.len(),
    ensures
        embedding_bytes(embedding).len() == 4 * embedding.len(),
        embedding_bytes(embedding)[4 * index] == embedding[index] % 256,
        embedding_bytes(embedding)[4 * index + 1] == embedding[index] / 256 % 256,
        embedding_bytes(embedding)[4 * index + 2] == embedding[index] / 65536 % 256,
        embedding_bytes(embedding)[4 * index + 3] == embedding[index] / 16777216,
    decreases embedding.len(),
{
    lemma_embedding_bytes_length(embedding);
    lemma_embedding_bytes_length(embedding.drop_last());
    if index < embedding.len() - 1 {
        components_are_little_endian(embedding.drop_last(), index);
    }
}

/// Whatever the format, a response preserves the vector bit for bit: numbers are
/// the components themselves, and base64 is read back to the bytes of every
/// component, least significant byte first.
pub proof fn responses_preserve_vectors(
    embedding: Vec<u32>,
    encoding_format: OpenAiEmbeddingEncodingFormat,
    values: OpenAiEmbeddingValues,
)
    requires
        call_ensures(encode_openai_embedding, (embedding, encoding_format), values),
    ensures
        match values {
            OpenAiEmbeddingValues::Float(components) => {
                &&& encoding_format is Float
                &&& components@ == embedding@
            },
            OpenAiEmbeddingValues::Base64(text) => {
                &&& encoding_format is Base64
                &&& text@ == base64_text(base64_bytes(text@))
                &&& embedding_of_bytes(base64_bytes(text@)) == embedding@
                &&& base64_bytes(text@).len() == 4 * embedding@.len()
                &&& forall|i: int, place: int|
                    0 <= i < embedding@.len() && 0 <= place < 4 ==> #[trigger] base64_bytes(
                        text@,
                    )[4 * i + place] == #[trigger] byte_of(embedding@[i], place)
            },
        },
{
    let bytes = embedding_bytes(embedding@);
    base64_reads_back(bytes);
    components_read_back(embedding@);
    lemma_embedding_bytes_length(embedding@);
    assert forall|i: int, place: int|
        0 <= i < embedding@.len() && 0 <= place < 4 implies #[trigger] bytes[4 * i + place]
        == #[trigger] byte_of(embedding@[i], place) by {
        components_are_little_endian(embedding@, i);
    }
}

/// The byte at a place of a number, counted from the least significant one.
pub open spec fn byte_of(bits: u32, place: int) -> int {
    if place == 0 {
        bits as int % 256
    } else if place == 1 {
        bits as int / 256 % 256
    } else if place == 2 {
        bits as int / 65536 % 256
    } else {
        bits as int / 16777216
    }
}

/// A response holds one entry per vector, in the order of the vectors and
/// numbered so, each as if the vector were encoded by itself, and tells the model
/// and the tokens used.
pub proof fn responses_hold_every_vector_in_order(
    embedding_batch: TextEmbeddingBatchOutput,
    encoding_format: OpenAiEmbeddingEncodingFormat,
    model_id: &str,
    response: OpenAiEmbeddingResponse,
)
    requires
        call_ensures(
            OpenAiEmbeddingResponse::from_embedding_batch,
            (embedding_batch, encoding_format, model_id),
            response,
        ),
    ensures
        response.object@ == "list"@,
        response.model@ == model_id@,
        response.usage.prompt_tokens == embedding_batch.input_token_count,
        response.usage.total_tokens == embedding_batch.input_token_count,
        response.data@.len() == embedding_batch.embeddings@.len(),
        forall|i: int|
            0 <= i < response.data@.len() ==> {
                let entry = #[trigger] response.data@[i];
                let embedding = embedding_batch.embeddings@[i]@;
                &&& entry.index == i
                &&& entry.object@ == "embedding"@
                &&& match entry.embedding {
                    OpenAiEmbeddingValues::Float(components) => {
                        &&& encoding_format is Float
                        &&& components@ == embedding
                    },
                    OpenAiEmbeddingValues::Base64(text) => {
                        &&& encoding_format is Base64
                        &&& embedding_of_bytes(base64_bytes(text@)) == embedding
                        &&& text@ == base64_text(base64_bytes(text@))
                    },
                }
            },
{
    assert forall|i: int| 0 <= i < response.data@.len() implies ({
        let entry = #[trigger] response.data@[i];
        let embedding = embedding_batch.embeddings@[i]@;
        &&& entry.index == i
        &&& entry.object@ == "embedding"@
        &&& match entry.embedding {
            OpenAiEmbeddingValues::Float(components) => {
                &&& encoding_format is Float
                &&& components@ == embedding
            },
            OpenAiEmbeddingValues::Base64(text) => {
                &&& encoding_format is Base64
                &&& embedding_of_bytes(base64_bytes(text@)) == embedding
                &&& text@ == base64_text(base64_bytes(text@))
            },
        }
    }) by {
        let embedding = embedding_batch.embeddings@[i]@;
        assert(response.data@[i].embedding.encodes(embedding, encoding_format));
        base64_responses_preserve_vectors(embedding);
        base64_reads_back(embedding_bytes(embedding));
    }
}

/// Whether a vector fits base64 is whether memory can address its text.
pub proof fn fitting_vectors_have_addressable_text(
    component_count: usize,
    fits: bool,
    embedding: Seq<u32>,
)
    requires
        call_ensures(base64_embedding_fits, (component_count,), fits),
        embedding.len() == component_count,
    ensures
        fits <==> base64_text(embedding_bytes(embedding)).len() <= isize::MAX,
{
    lemma_embedding_bytes_length(embedding);
    base64_text_has_its_length(embedding_bytes(embedding));
}

} // verus!
