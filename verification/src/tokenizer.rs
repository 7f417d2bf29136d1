//! The tokenizer, set up so that every encoding has one fixed length.
use tokenizers::normalizers::replace::Replace;
use tokenizers::normalizers::NormalizerWrapper;
use tokenizers::{Encoding, Tokenizer};
use vstd::prelude::*;
use vstd::string::StringExecFns;

use crate::normalizing::{
    normalizer_of, normalizer_part, replacement_of, NormalizerPartView, PatternView,
    ReplacementView,
};
use crate::post_processing::{post_processor_of, sequences_after};
use crate::pre_tokenizing::{pre_tokenizer_of, splits_every_text};
use crate::soundness::{
    added_token_rules, find_flaw, flaw_of, found_in_every_text, token_pieces, TokenizerFlaw,
    UNSPLIT_TEXT,
};
use crate::text::{decimal, quote, quoted, usize_to_string};

verus! {

/// An end of a token sequence.
#[derive(Clone, Copy, Debug, PartialEq, Eq, Structural)]
pub enum Side {
    Left,
    Right,
}

/// Which sequence of a pair gives way first.
#[derive(Clone, Copy, Debug, PartialEq, Eq, Structural)]
pub enum TruncationOrder {
    LongestFirst,
    OnlyFirst,
    OnlySecond,
}

/// How a tokenizer shortens long encodings.
#[derive(Clone, Copy, Debug, PartialEq, Eq, Structural)]
pub struct Truncation {
    pub direction: Side,
    pub max_length: usize,
    pub order: TruncationOrder,
    pub stride: usize,
}

/// The length that padding fills up to.
#[derive(Clone, Copy, Debug, PartialEq, Eq, Structural)]
pub enum PaddingLength {
    BatchLongest,
    Fixed(usize),
}

/// How a tokenizer fills up short encodings.
#[derive(Debug)]
pub struct Padding {
    pub length: PaddingLength,
    pub direction: Side,
    pub pad_to_multiple_of: Option<usize>,
    pub pad_id: u32,
    pub pad_type_id: u32,
    pub pad_token: String,
}

/// A padding rule as a mathematical value.
pub struct PaddingView {
    pub length: PaddingLength,
    pub direction: Side,
    pub pad_to_multiple_of: Option<usize>,
    pub pad_id: u32,
    pub pad_type_id: u32,
    pub pad_token: Seq<char>,
}

impl View for Padding {
    type V = PaddingView;

    open spec fn view(&self) -> PaddingView {
        PaddingView {
            length: self.length,
            direction: self.direction,
            pad_to_multiple_of: self.pad_to_multiple_of,
            pad_id: self.pad_id,
            pad_type_id: self.pad_type_id,
            pad_token: self.pad_token@,
        }
    }
}

#[verifier::external_type_specification]
#[verifier::external_body]
pub struct ExTokenizer(tokenizers::Tokenizer);

#[verifier::external_type_specification]
#[verifier::external_body]
pub struct ExEncoding(tokenizers::Encoding);

/// The tokens that a tokenizer knows by their text, with their IDs.
pub uninterp spec fn vocabulary(tokenizer: Tokenizer) -> Map<Seq<char>, u32>;

/// The tokens that a tokenizer knows by their ID, with their texts.
pub uninterp spec fn known_tokens(tokenizer: Tokenizer) -> Map<u32, Seq<char>>;

/// How many special tokens a tokenizer adds to a single sequence.
pub uninterp spec fn added_tokens(tokenizer: Tokenizer) -> nat;

/// The truncation rule that a tokenizer follows.
pub uninterp spec fn truncation_of(tokenizer: Tokenizer) -> Option<Truncation>;

/// The padding rule that a tokenizer follows.
pub uninterp spec fn padding_of(tokenizer: Tokenizer) -> Option<PaddingView>;

/// That two tokenizers differ in their truncation and padding rules at most.
pub open spec fn same_parts(one: Tokenizer, other: Tokenizer) -> bool {
    &&& vocabulary(one) == vocabulary(other)
    &&& known_tokens(one) == known_tokens(other)
    &&& added_tokens(one) == added_tokens(other)
    &&& added_token_rules(one) == added_token_rules(other)
    &&& token_pieces(one, UNSPLIT_TEXT@) == token_pieces(other, UNSPLIT_TEXT@)
    &&& normalizer_of(one) == normalizer_of(other)
    &&& pre_tokenizer_of(one) == pre_tokenizer_of(other)
    &&& post_processor_of(one) == post_processor_of(other)
}

/// The token IDs of an encoding.
pub uninterp spec fn encoding_ids(encoding: Encoding) -> Seq<u32>;

/// The attention mask of an encoding.
pub uninterp spec fn encoding_mask(encoding: Encoding) -> Seq<u32>;

/// Trusted: `Encoding::get_ids` hands out the token IDs that the encoding holds.
pub assume_specification[ Encoding::get_ids ](encoding: &Encoding) -> (ids: &[u32])
    ensures
        ids@ == encoding_ids(*encoding),
;

/// Trusted: `Encoding::get_attention_mask` hands out the attention mask that
/// the encoding holds.
pub assume_specification[ Encoding::get_attention_mask ](encoding: &Encoding) -> (mask: &[u32])
    ensures
        mask@ == encoding_mask(*encoding),
;

/// Trusted: `Tokenizer::token_to_id` looks a token up by its text.
#[verifier::external_body]
pub(crate) fn token_to_id(tokenizer: &Tokenizer, token: &str) -> (id: Option<u32>)
    ensures
        id == vocabulary(*tokenizer).get(token@),
{
    tokenizer.token_to_id(token)
}

/// Trusted: `Tokenizer::with_truncation` sets the truncation rule and nothing
/// else. It refuses a stride that is longer than what the special tokens leave
/// of the length, and then changes nothing. A length that the special tokens
/// alone exceed makes it panic or wrap around.
#[verifier::external_body]
pub(crate) fn set_truncation(tokenizer: &mut Tokenizer, truncation: Truncation) -> (accepted: bool)
    requires
        added_tokens(*old(tokenizer)) <= truncation.max_length,
    ensures
        accepted <==> truncation.stride <= truncation.max_length - added_tokens(*old(tokenizer)),
        truncation_of(*final(tokenizer)) == if accepted {
            Some(truncation)
        } else {
            truncation_of(*old(tokenizer))
        },
        padding_of(*final(tokenizer)) == padding_of(*old(tokenizer)),
        same_parts(*final(tokenizer), *old(tokenizer)),
{
    let direction = match truncation.direction {
        Side::Left => tokenizers::TruncationDirection::Left,
        Side::Right => tokenizers::TruncationDirection::Right,
    };
    let strategy = match truncation.order {
        TruncationOrder::LongestFirst => tokenizers::TruncationStrategy::LongestFirst,
        TruncationOrder::OnlyFirst => tokenizers::TruncationStrategy::OnlyFirst,
        TruncationOrder::OnlySecond => tokenizers::TruncationStrategy::OnlySecond,
    };
    let max_length = truncation.max_length;
    let stride = truncation.stride;
    let params = tokenizers::TruncationParams { direction, max_length, strategy, stride };
    tokenizer.with_truncation(Some(params)).is_ok()
}

/// Trusted: `Tokenizer::with_padding` sets the padding rule and nothing else.
#[verifier::external_body]
pub(crate) fn set_padding(tokenizer: &mut Tokenizer, padding: Padding)
    ensures
        padding_of(*final(tokenizer)) == Some(padding@),
        truncation_of(*final(tokenizer)) == truncation_of(*old(tokenizer)),
        same_parts(*final(tokenizer), *old(tokenizer)),
{
    let strategy = match padding.length {
        PaddingLength::BatchLongest => tokenizers::PaddingStrategy::BatchLongest,
        PaddingLength::Fixed(length) => tokenizers::PaddingStrategy::Fixed(length),
    };
    let direction = match padding.direction {
        Side::Left => tokenizers::PaddingDirection::Left,
        Side::Right => tokenizers::PaddingDirection::Right,
    };
    let Padding { pad_to_multiple_of, pad_id, pad_type_id, pad_token, .. } = padding;
    tokenizer.with_padding(Some(tokenizers::PaddingParams {
        strategy, direction, pad_to_multiple_of, pad_id, pad_type_id, pad_token,
    }));
}

/// Trusted: `Tokenizer::get_post_processor` and `PostProcessor::added_tokens`
/// tell how many special tokens the tokenizer adds to a single sequence; a
/// tokenizer without a post-processor adds none.
#[verifier::external_body]
pub(crate) fn count_added_tokens(tokenizer: &Tokenizer) -> (count: usize)
    ensures
        count == added_tokens(*tokenizer),
{
    match tokenizer.get_post_processor() {
        Some(processor) => tokenizers::PostProcessor::added_tokens(processor, false),
        None => 0,
    }
}

/// Trusted: `Tokenizer::id_to_token` looks a token up by its ID.
#[verifier::external_body]
pub(crate) fn id_to_token(tokenizer: &Tokenizer, id: u32) -> (token: Option<String>)
    ensures
        known_tokens(*tokenizer).get(id) == match token {
            Some(text) => Some(text@),
            None => None,
        },
{
    tokenizer.id_to_token(id)
}

/// That encoding `text` may have this outcome: token IDs with their mask, or a
/// failure in these words. Some models choose among several encodings at
/// random, so a text may have more than one outcome.
pub uninterp spec fn may_encode(
    tokenizer: Tokenizer,
    text: Seq<char>,
    add_special_tokens: bool,
    outcome: Result<(Seq<u32>, Seq<u32>), Seq<char>>,
) -> bool;

/// That encoding one of the texts may fail in these words.
pub open spec fn may_fail(
    tokenizer: Tokenizer,
    texts: Seq<Seq<char>>,
    add_special_tokens: bool,
    detail: Seq<char>,
) -> bool {
    exists|i: int|
        0 <= i < texts.len() && may_encode(
            tokenizer,
            #[trigger] texts[i],
            add_special_tokens,
            Err(detail),
        )
}

/// The texts that string slices hold.
pub open spec fn slice_texts(texts: Seq<&str>) -> Seq<Seq<char>> {
    texts.map_values(|text: &str| text@)
}

/// The texts that strings hold.
pub open spec fn string_texts(texts: Seq<String>) -> Seq<Seq<char>> {
    texts.map_values(|text: String| text@)
}

/// Trusted: `Tokenizer::encode_batch` gives one encoding per text, in the order
/// of the texts, each padded to the fixed length at least; or it fails, in the
/// words in which encoding one of the texts fails, so that it never fails
/// without texts. With a fixed padding length an encoding does not depend on the
/// texts beside it. Left unsaid: on which texts encoding fails, which failure of
/// several is reported, and which of a text's encodings comes back.
///
/// A truncation length that the special tokens alone exceed, a stride within it,
/// and parts that do not go together make it panic, and are ruled out. So are
/// encodings without special tokens, of which templates make other numbers of
/// sequences.
#[verifier::external_body]
pub(crate) fn encode_batch(
    tokenizer: &Tokenizer,
    texts: Vec<&str>,
    add_special_tokens: bool,
) -> (encodings: Result<Vec<Encoding>, String>)
    requires
        truncation_of(*tokenizer) matches Some(truncation) ==> {
            &&& added_tokens(*tokenizer) <= truncation.max_length
            &&& truncation.stride == 0
        },
        padding_of(*tokenizer) matches Some(padding) && padding.length is Fixed
            && padding.pad_to_multiple_of is None,
        flaw_of(*tokenizer) is None,
        add_special_tokens,
    ensures
        match encodings {
            Ok(encoded) => {
                &&& encoded@.len() == texts@.len()
                &&& forall|i: int| #![trigger encoded@[i]] 0 <= i < encoded@.len() ==> {
                    &&& may_encode(
                        *tokenizer,
                        texts@[i]@,
                        add_special_tokens,
                        Ok((encoding_ids(encoded@[i]), encoding_mask(encoded@[i]))),
                    )
                    &&& encoding_ids(encoded@[i]).len() >= padding_of(
                        *tokenizer,
                    )->0.length->Fixed_0
                }
            },
            Err(detail) => may_fail(
                *tokenizer,
                slice_texts(texts@),
                add_special_tokens,
                detail@,
            ),
        },
{
    tokenizer.encode_batch(texts, add_special_tokens).map_err(|error| error.to_string())
}

/// The token that fills short sequences up.
pub const PAD_TOKEN: &'static str = "<pad>";

/// The truncation rule for sequences of one fixed length.
pub open spec fn fixed_truncation(token_length: usize) -> Truncation {
    Truncation {
        direction: Side::Right,
        max_length: token_length,
        order: TruncationOrder::LongestFirst,
        stride: 0,
    }
}

/// The padding rule for sequences of one fixed length.
pub open spec fn fixed_padding(token_length: usize, pad_token_id: u32) -> PaddingView {
    PaddingView {
        length: PaddingLength::Fixed(token_length),
        direction: Side::Right,
        pad_to_multiple_of: None,
        pad_id: pad_token_id,
        pad_type_id: 0,
        pad_token: PAD_TOKEN@,
    }
}

/// Why a tokenizer cannot be used.
#[derive(Clone, Copy, Debug, PartialEq, Eq, Structural)]
pub enum TokenizerRejection {
    /// It does not know the pad token.
    MissingPadToken,
    /// The special tokens that it adds do not fit the fixed length.
    SpecialTokensTooLong { added_count: usize, token_length: usize },
    /// It cannot encode every text.
    Unsound { flaw: TokenizerFlaw },
}

impl TokenizerRejection {
    pub open spec fn spec_message(self) -> Seq<char> {
        match self {
            TokenizerRejection::MissingPadToken =>
                "SigLIP 2 tokenizer does not define required pad token "@ + quoted(PAD_TOKEN@),
            TokenizerRejection::SpecialTokensTooLong { added_count, token_length } =>
                "SigLIP 2 tokenizer adds "@ + decimal(added_count as nat)
                    + " special tokens, more than the fixed length "@
                    + decimal(token_length as nat),
            TokenizerRejection::Unsound { flaw } =>
                "SigLIP 2 tokenizer cannot encode every text because of its "@ + flaw.spec_part(),
        }
    }

    /// The rejection in words.
    pub fn message(&self) -> (text: String)
        ensures
            text@ == self.spec_message(),
    {
        match self {
            TokenizerRejection::MissingPadToken => {
                let mut text = "SigLIP 2 tokenizer does not define required pad token ".to_owned();
                text.append(quote(PAD_TOKEN).as_str());
                text
            },
            TokenizerRejection::SpecialTokensTooLong { added_count, token_length } => {
                let mut text = "SigLIP 2 tokenizer adds ".to_owned();
                text.append(usize_to_string(*added_count).as_str());
                text.append(" special tokens, more than the fixed length ");
                text.append(usize_to_string(*token_length).as_str());
                text
            },
            TokenizerRejection::Unsound { flaw } => {
                let mut text = "SigLIP 2 tokenizer cannot encode every text because of its "
                    .to_owned();
                text.append(flaw.part());
                text
            },
        }
    }
}

/// Makes every encoding of `tokenizer` exactly `token_length` long, and gives
/// the ID of the token that fills it up.
pub fn configure_fixed_length_tokenizer(tokenizer: &mut Tokenizer, token_length: usize) -> (result:
    Result<u32, TokenizerRejection>)
    requires
        vocabulary(*old(tokenizer)).get(PAD_TOKEN@) is Some ==> added_tokens(*old(tokenizer))
            <= token_length,
    ensures
        match result {
            Ok(pad_token_id) => {
                &&& vocabulary(*old(tokenizer)).get(PAD_TOKEN@) == Some(pad_token_id)
                &&& truncation_of(*final(tokenizer)) == Some(fixed_truncation(token_length))
                &&& padding_of(*final(tokenizer)) == Some(
                    fixed_padding(token_length, pad_token_id),
                )
                &&& same_parts(*final(tokenizer), *old(tokenizer))
            },
            Err(rejection) => {
                &&& vocabulary(*old(tokenizer)).get(PAD_TOKEN@) is None
                &&& rejection == TokenizerRejection::MissingPadToken
                &&& *final(tokenizer) == *old(tokenizer)
            },
        },
{
    let pad_token_id = match token_to_id(tokenizer, PAD_TOKEN) {
        Some(id) => id,
        None => return Err(TokenizerRejection::MissingPadToken),
    };
    let accepted = set_truncation(
        tokenizer,
        Truncation {
            direction: Side::Right,
            max_length: token_length,
            order: TruncationOrder::LongestFirst,
            stride: 0,
        },
    );
    assert(accepted);
    set_padding(
        tokenizer,
        Padding {
            length: PaddingLength::Fixed(token_length),
            direction: Side::Right,
            pad_to_multiple_of: None,
            pad_id: pad_token_id,
            pad_type_id: 0,
            pad_token: PAD_TOKEN.to_owned(),
        },
    );
    Ok(pad_token_id)
}

/// A tokenizer set up for one fixed length, with the ID that fills it up.
pub struct FixedLengthTokenizer {
    tokenizer: Tokenizer,
    token_length: usize,
    pad_token_id: u32,
}

impl FixedLengthTokenizer {
    #[verifier::type_invariant]
    spec fn set_up(self) -> bool {
        &&& added_tokens(self.tokenizer) <= self.token_length
        &&& truncation_of(self.tokenizer) == Some(fixed_truncation(self.token_length))
        &&& padding_of(self.tokenizer) == Some(
            fixed_padding(self.token_length, self.pad_token_id),
        )
        &&& vocabulary(self.tokenizer).get(PAD_TOKEN@) == Some(self.pad_token_id)
        &&& flaw_of(self.tokenizer) is None
    }

    /// The tokenizer as it is set up.
    pub closed spec fn inner(self) -> Tokenizer {
        self.tokenizer
    }

    pub closed spec fn spec_token_length(self) -> usize {
        self.token_length
    }

    pub closed spec fn spec_pad_token_id(self) -> u32 {
        self.pad_token_id
    }

    /// Sets `tokenizer` up for encodings of exactly `token_length` tokens.
    pub fn configure(tokenizer: Tokenizer, token_length: usize) -> (result: Result<
        FixedLengthTokenizer,
        TokenizerRejection,
    >)
        ensures
            match result {
                Ok(fixed) => {
                    &&& vocabulary(tokenizer).get(PAD_TOKEN@) == Some(fixed.spec_pad_token_id())
                    &&& added_tokens(tokenizer) <= token_length
                    &&& fixed.spec_token_length() == token_length
                    &&& truncation_of(fixed.inner()) == Some(fixed_truncation(token_length))
                    &&& padding_of(fixed.inner()) == Some(
                        fixed_padding(token_length, fixed.spec_pad_token_id()),
                    )
                    &&& flaw_of(tokenizer) is None
                    &&& same_parts(fixed.inner(), tokenizer)
                },
                Err(TokenizerRejection::MissingPadToken) => vocabulary(tokenizer).get(
                    PAD_TOKEN@,
                ) is None,
                Err(TokenizerRejection::SpecialTokensTooLong { added_count, token_length: limit }) => {
                    &&& vocabulary(tokenizer).get(PAD_TOKEN@) is Some
                    &&& added_tokens(tokenizer) > token_length
                    &&& added_count == added_tokens(tokenizer)
                    &&& limit == token_length
                },
                Err(TokenizerRejection::Unsound { flaw }) => {
                    &&& vocabulary(tokenizer).get(PAD_TOKEN@) is Some
                    &&& added_tokens(tokenizer) <= token_length
                    &&& flaw_of(tokenizer) == Some(flaw)
                },
            },
    {
        let mut tokenizer = tokenizer;
        if token_to_id(&tokenizer, PAD_TOKEN).is_none() {
            return Err(TokenizerRejection::MissingPadToken);
        }
        let added_count: usize = count_added_tokens(&tokenizer);
        if added_count > token_length {
            return Err(TokenizerRejection::SpecialTokensTooLong { added_count, token_length });
        }
        if let Some(flaw) = find_flaw(&tokenizer) {
            return Err(TokenizerRejection::Unsound { flaw });
        }
        match configure_fixed_length_tokenizer(&mut tokenizer, token_length) {
            Ok(pad_token_id) => Ok(FixedLengthTokenizer { tokenizer, token_length, pad_token_id }),
            Err(rejection) => Err(rejection),
        }
    }

    pub fn token_length(&self) -> (length: usize)
        ensures
            length == self.spec_token_length(),
    {
        self.token_length
    }

    pub fn pad_token_id(&self) -> (id: u32)
        ensures
            id == self.spec_pad_token_id(),
            vocabulary(self.inner()).get(PAD_TOKEN@) == Some(id),
    {
        proof {
            use_type_invariant(self);
        }
        self.pad_token_id
    }

    /// Whether a token has this ID.
    pub fn knows(&self, token_id: u32) -> (known: bool)
        ensures
            known == known_tokens(self.inner()).contains_key(token_id),
    {
        id_to_token(&self.tokenizer, token_id).is_some()
    }

    /// Encodes the texts, special tokens included. It fails only where encoding
    /// one of the texts fails, and in those words.
    pub fn encode(&self, texts: &Vec<String>) -> (encodings: Result<Vec<Encoding>, String>)
        ensures
            match encodings {
                Ok(encoded) => {
                    &&& encoded@.len() == texts@.len()
                    &&& forall|i: int| #![trigger encoded@[i]] 0 <= i < encoded@.len() ==> {
                        &&& may_encode(
                            self.inner(),
                            texts@[i]@,
                            true,
                            Ok((encoding_ids(encoded@[i]), encoding_mask(encoded@[i]))),
                        )
                        &&& encoding_ids(encoded@[i]).len() >= self.spec_token_length()
                    }
                },
                Err(detail) => {
                    &&& texts@.len() > 0
                    &&& may_fail(self.inner(), string_texts(texts@), true, detail@)
                },
            },
    {
        proof {
            use_type_invariant(self);
        }
        let mut references: Vec<&str> = Vec::new();
        let mut index: usize = 0;
        while index < texts.len()
            invariant
                index <= texts@.len(),
                references@.len() == index,
                forall|i: int| 0 <= i < index ==> (#[trigger] references@[i])@ == texts@[i]@,
            decreases texts@.len() - index,
        {
            references.push(texts[index].as_str());
            index += 1;
        }
        assert(slice_texts(references@) =~= string_texts(texts@));
        encode_batch(&self.tokenizer, references, true)
    }
}

/// A tokenizer is set up exactly where it knows the pad token, its special tokens
/// fit the length, and it can encode every text. It then cuts off on the right what
/// is too long and fills up on the right, with that token, what is too short, and
/// is otherwise as it was.
pub proof fn usable_tokenizers_are_set_up(
    tokenizer: Tokenizer,
    token_length: usize,
    result: Result<FixedLengthTokenizer, TokenizerRejection>,
)
    requires
        call_ensures(FixedLengthTokenizer::configure, (tokenizer, token_length), result),
    ensures
        result is Ok <==> {
            &&& vocabulary(tokenizer).contains_key("<pad>"@)
            &&& added_tokens(tokenizer) <= token_length
            &&& flaw_of(tokenizer) is None
        },
        result matches Ok(fixed) ==> {
            let truncation = truncation_of(fixed.inner());
            let padding = padding_of(fixed.inner());
            let pad_token_id = vocabulary(tokenizer)["<pad>"@];
            &&& truncation is Some
            &&& truncation->0.max_length == token_length
            &&& truncation->0.stride == 0
            &&& truncation->0.direction is Right
            &&& truncation->0.order is LongestFirst
            &&& padding is Some
            &&& padding->0.length == PaddingLength::Fixed(token_length)
            &&& padding->0.direction is Right
            &&& padding->0.pad_to_multiple_of is None
            &&& padding->0.pad_id == pad_token_id
            &&& padding->0.pad_type_id == 0
            &&& padding->0.pad_token == "<pad>"@
            &&& fixed.spec_token_length() == token_length
            &&& fixed.spec_pad_token_id() == pad_token_id
            &&& vocabulary(fixed.inner()) == vocabulary(tokenizer)
            &&& known_tokens(fixed.inner()) == known_tokens(tokenizer)
            &&& added_tokens(fixed.inner()) == added_tokens(tokenizer)
            &&& normalizer_of(fixed.inner()) == normalizer_of(tokenizer)
            &&& pre_tokenizer_of(fixed.inner()) == pre_tokenizer_of(tokenizer)
            &&& post_processor_of(fixed.inner()) == post_processor_of(tokenizer)
        },
        result matches Err(rejection) ==> if !vocabulary(tokenizer).contains_key("<pad>"@) {
            rejection is MissingPadToken
        } else if added_tokens(tokenizer) > token_length {
            rejection matches TokenizerRejection::SpecialTokensTooLong {
                added_count,
                token_length: limit,
            } && added_count == added_tokens(tokenizer) && limit == token_length
        } else {
            rejection matches TokenizerRejection::Unsound { flaw } && flaw_of(tokenizer) == Some(
                flaw,
            )
        },
{
}

/// A tokenizer that marks spaces, or replaces any other text by any text at all,
/// is set up like one without a normalizer, if nothing else is wrong with it.
pub proof fn marked_spaces_do_not_matter(
    tokenizer: Tokenizer,
    token_length: usize,
    normalizer: NormalizerWrapper,
    replace: Replace,
    replaced: Seq<char>,
    content: Seq<char>,
    result: Result<FixedLengthTokenizer, TokenizerRejection>,
)
    requires
        call_ensures(FixedLengthTokenizer::configure, (tokenizer, token_length), result),
        normalizer_of(tokenizer) == Some(normalizer),
        normalizer_part(normalizer) == NormalizerPartView::Replace(replace),
        replacement_of(replace) == Some(
            ReplacementView { pattern: PatternView::Text(replaced), content },
        ),
        replaced.len() > 0,
        pre_tokenizer_of(tokenizer) matches Some(pre_tokenizer) ==> splits_every_text(
            pre_tokenizer,
            false,
        ),
        post_processor_of(tokenizer) matches Some(processor) ==> sequences_after(
            processor,
            1,
        ) is Some,
        found_in_every_text(tokenizer),
        vocabulary(tokenizer).contains_key("<pad>"@),
        added_tokens(tokenizer) <= token_length,
    ensures
        result is Ok,
{
}

/// Texts are encoded with their special tokens, one encoding each and in their
/// order, to the fixed length at least; or they fail as one of them fails.
pub proof fn texts_are_encoded_in_order(
    tokenizer: &FixedLengthTokenizer,
    texts: &Vec<String>,
    result: Result<Vec<Encoding>, String>,
)
    requires
        call_ensures(FixedLengthTokenizer::encode, (tokenizer, texts), result),
    ensures
        match result {
            Ok(encodings) => {
                &&& encodings@.len() == texts@.len()
                &&& forall|i: int|
                    0 <= i < texts@.len() ==> {
                        &&& may_encode(
                            tokenizer.inner(),
                            texts@[i]@,
                            true,
                            Ok((
                                encoding_ids(#[trigger] encodings@[i]),
                                encoding_mask(encodings@[i]),
                            )),
                        )
                        &&& encoding_ids(encodings@[i]).len() >= tokenizer.spec_token_length()
                    }
            },
            Err(detail) => exists|i: int|
                0 <= i < texts@.len() && may_encode(
                    tokenizer.inner(),
                    (#[trigger] texts@[i])@,
                    true,
                    Err(detail@),
                ),
        },
{
    if let Err(detail) = result {
        let views = string_texts(texts@);
        let i = choose|i: int|
            0 <= i < views.len() && may_encode(
                tokenizer.inner(),
                #[trigger] views[i],
                true,
                Err(detail@),
            );
        assert(views[i] == texts@[i]@);
    }
}

/// The words of a rejection name the pad token, the lengths or the part that is
/// wrong.
pub proof fn tokenizer_rejections_name_what_is_wrong(rejection: &TokenizerRejection, text: String)
    requires
        call_ensures(TokenizerRejection::message, (rejection,), text),
    ensures
        match *rejection {
            TokenizerRejection::MissingPadToken => text@
                == "SigLIP 2 tokenizer does not define required pad token "@ + quoted("<pad>"@),
            TokenizerRejection::SpecialTokensTooLong { added_count, token_length } => text@
                == "SigLIP 2 tokenizer adds "@ + decimal(added_count as nat)
                + " special tokens, more than the fixed length "@ + decimal(token_length as nat),
            TokenizerRejection::Unsound { flaw } => text@
                == "SigLIP 2 tokenizer cannot encode every text because of its "@ + match flaw {
                TokenizerFlaw::Normalizer => "normalizer"@,
                TokenizerFlaw::PreTokenizer => "pre-tokenizer"@,
                TokenizerFlaw::PostProcessor => "post-processor"@,
                TokenizerFlaw::AddedTokens => "added tokens"@,
            },
        },
{
}

/// Setting a tokenizer up changes its truncation and its padding and nothing else:
/// both go by the length, and padding by the ID of the pad token, which comes back.
/// One that does not know the pad token stays as it was.
pub proof fn setting_up_changes_lengths_alone()
    ensures
        forall|tokenizer: &mut Tokenizer, token_length: usize, result: Result<
            u32,
            TokenizerRejection,
        >| #[trigger]
            call_ensures(configure_fixed_length_tokenizer, (tokenizer, token_length), result) ==> {
                &&& result is Ok <==> vocabulary(*tokenizer).contains_key("<pad>"@)
                &&& result matches Ok(pad_token_id) ==> {
                    &&& pad_token_id == vocabulary(*tokenizer)["<pad>"@]
                    &&& truncation_of(*final(tokenizer)) == Some(
                        Truncation {
                            direction: Side::Right,
                            max_length: token_length,
                            order: TruncationOrder::LongestFirst,
                            stride: 0,
                        },
                    )
                    &&& padding_of(*final(tokenizer)) == Some(
                        PaddingView {
                            length: PaddingLength::Fixed(token_length),
                            direction: Side::Right,
                            pad_to_multiple_of: None,
                            pad_id: pad_token_id,
                            pad_type_id: 0,
                            pad_token: "<pad>"@,
                        },
                    )
                    &&& vocabulary(*final(tokenizer)) == vocabulary(*tokenizer)
                    &&& known_tokens(*final(tokenizer)) == known_tokens(*tokenizer)
                    &&& added_tokens(*final(tokenizer)) == added_tokens(*tokenizer)
                    &&& normalizer_of(*final(tokenizer)) == normalizer_of(*tokenizer)
                    &&& pre_tokenizer_of(*final(tokenizer)) == pre_tokenizer_of(*tokenizer)
                    &&& post_processor_of(*final(tokenizer)) == post_processor_of(*tokenizer)
                }
                &&& result matches Err(rejection) ==> {
                    &&& rejection is MissingPadToken
                    &&& *final(tokenizer) == *tokenizer
                }
            },
{
}

/// A tokenizer that is set up tells its length, the ID of its pad token, and which
/// IDs are tokens.
pub proof fn set_up_tokenizers_tell_what_they_are(tokenizer: &FixedLengthTokenizer, token_id: u32)
    ensures
        forall|length: usize| #[trigger]
            call_ensures(FixedLengthTokenizer::token_length, (tokenizer,), length) ==> length
                == tokenizer.spec_token_length(),
        forall|id: u32| #[trigger]
            call_ensures(FixedLengthTokenizer::pad_token_id, (tokenizer,), id) ==> id
                == tokenizer.spec_pad_token_id() && vocabulary(tokenizer.inner()).contains_key(
                "<pad>"@,
            ) && id == vocabulary(tokenizer.inner())["<pad>"@],
        forall|known: bool| #[trigger]
            call_ensures(FixedLengthTokenizer::knows, (tokenizer, token_id), known) ==> (known
                <==> known_tokens(tokenizer.inner()).contains_key(token_id)),
{
}

} // verus!
