//! Whether a tokenizer can encode every text. A tokenizer is read without a
//! look at how its parts go together, and parts that do not make it panic, some
//! of them on rare texts only.
use tokenizers::normalizers::NormalizerWrapper;
use tokenizers::Tokenizer;
use vstd::prelude::*;

use crate::normalizing::{follow_normalizer, front_after, get_normalizer, normalizer_of};
use crate::post_processing::{
    follow_post_processor, get_post_processor, post_processor_of, sequences_after,
};
use crate::pre_tokenizing::{
    check_pre_tokenizer, get_pre_tokenizer, pre_tokenizer_of, splits_every_text,
};
use crate::text::is_white_space;

verus! {

/// Which white space an added token takes with it.
#[derive(Clone, Copy, Debug, PartialEq, Eq, Structural)]
pub struct AddedTokenRule {
    /// Whether it takes the white space before it.
    pub lstrip: bool,
    /// Whether it takes the white space behind it.
    pub rstrip: bool,
}

/// The rules by which a tokenizer matches its added tokens.
pub uninterp spec fn added_token_rules(tokenizer: Tokenizer) -> Set<AddedTokenRule>;

/// Trusted: `TokenizerImpl::get_added_tokens_decoder` holds the token whose rule
/// goes for an ID, for the ID of every added token.
#[verifier::external_body]
fn read_added_tokens(tokenizer: &Tokenizer) -> (rules: Vec<AddedTokenRule>)
    ensures
        rules@.to_set() == added_token_rules(*tokenizer),
{
    tokenizer.get_added_tokens_decoder().values().map(|token| AddedTokenRule {
        lstrip: token.lstrip,
        rstrip: token.rstrip,
    }).collect()
}

/// That a text holds ASCII characters and no white space.
pub open spec fn is_solid(text: Seq<char>) -> bool {
    forall|i: int| 0 <= i < text.len() ==> #[trigger] text[i] < '\u{80}' && !is_white_space(text[i])
}

/// The pieces that the added tokens of a tokenizer split a text into that is not
/// normalized: of each, whether it is an added token.
pub uninterp spec fn token_pieces(tokenizer: Tokenizer, text: Seq<char>) -> Seq<bool>;

/// Trusted: `AddedVocabulary::extract_and_normalize` splits a text at the added
/// tokens, and `PreTokenizedString::get_splits` hands out the pieces with the
/// tokens that they are. On texts with white space or other than ASCII characters
/// it may panic.
#[verifier::external_body]
fn split_at_tokens(tokenizer: &Tokenizer, text: &str) -> (pieces: Vec<bool>)
    requires
        is_solid(text@),
    ensures
        pieces@ == token_pieces(*tokenizer, text@),
{
    let vocabulary = tokenizer.get_added_vocabulary();
    let string = vocabulary.extract_and_normalize(None::<&NormalizerWrapper>, text);
    string
        .get_splits(tokenizers::OffsetReferential::Original, tokenizers::OffsetType::Byte)
        .iter()
        .map(|(_, _, tokens)| tokens.is_some())
        .collect()
}

/// Two control characters. They are split where a token is found by the empty
/// text.
pub const UNSPLIT_TEXT: &'static str = "\u{1}\u{1}";

/// That an added token may be found inside the white space that another one has
/// taken, and then claims white space before it that is behind it. What a token
/// is found by is not seen here, and it may consist of white space.
pub open spec fn may_be_overrun(rule: AddedTokenRule) -> bool {
    rule.lstrip && !rule.rstrip
}

/// That no added token may be found inside the white space of another.
pub open spec fn keep_apart(rules: Set<AddedTokenRule>) -> bool {
    forall|rule: AddedTokenRule, other: AddedTokenRule| #[trigger]
        rules.contains(rule) && #[trigger] rules.contains(other) && other.rstrip
            ==> !may_be_overrun(rule)
}

/// That added tokens can be found in every text: none is found by the empty text,
/// which would be found inside characters too, and they keep apart.
pub open spec fn found_in_every_text(tokenizer: Tokenizer) -> bool {
    &&& token_pieces(tokenizer, UNSPLIT_TEXT@) == seq![false]
    &&& keep_apart(added_token_rules(tokenizer))
}

/// Which part of a tokenizer keeps it from encoding every text.
#[derive(Clone, Copy, Debug, PartialEq, Eq, Structural)]
pub enum TokenizerFlaw {
    Normalizer,
    PreTokenizer,
    PostProcessor,
    AddedTokens,
}

/// What is known of the front of a normalized text.
pub open spec fn normalized_front(normalizer: Option<NormalizerWrapper>) -> Option<bool> {
    match normalizer {
        Some(found) => front_after(found, false),
        None => Some(false),
    }
}

/// The first part that keeps a tokenizer from encoding every text.
pub open spec fn flaw_of(tokenizer: Tokenizer) -> Option<TokenizerFlaw> {
    let normalizer = normalizer_of(tokenizer);
    let front = normalized_front(normalizer);
    if front is None {
        Some(TokenizerFlaw::Normalizer)
    } else if pre_tokenizer_of(tokenizer) is Some && !splits_every_text(
        pre_tokenizer_of(tokenizer)->0,
        front->0,
    ) {
        Some(TokenizerFlaw::PreTokenizer)
    } else if post_processor_of(tokenizer) is Some && sequences_after(
        post_processor_of(tokenizer)->0,
        1,
    ) is None {
        Some(TokenizerFlaw::PostProcessor)
    } else if !found_in_every_text(tokenizer) {
        Some(TokenizerFlaw::AddedTokens)
    } else {
        None
    }
}

impl TokenizerFlaw {
    pub open spec fn spec_part(self) -> Seq<char> {
        match self {
            TokenizerFlaw::Normalizer => "normalizer"@,
            TokenizerFlaw::PreTokenizer => "pre-tokenizer"@,
            TokenizerFlaw::PostProcessor => "post-processor"@,
            TokenizerFlaw::AddedTokens => "added tokens"@,
        }
    }

    /// The part in words.
    pub fn part(&self) -> (part: &'static str)
        ensures
            part@ == self.spec_part(),
    {
        match self {
            TokenizerFlaw::Normalizer => "normalizer",
            TokenizerFlaw::PreTokenizer => "pre-tokenizer",
            TokenizerFlaw::PostProcessor => "post-processor",
            TokenizerFlaw::AddedTokens => "added tokens",
        }
    }
}

/// Whether no added token may be found inside the white space of another.
pub fn check_added_tokens(rules: &Vec<AddedTokenRule>) -> (apart: bool)
    ensures
        apart == keep_apart(rules@.to_set()),
{
    let ghost all = rules@.to_set();
    let mut taker: Option<usize> = None;
    let mut overrun: Option<usize> = None;
    let mut index: usize = 0;
    while index < rules.len()
        invariant
            all == rules@.to_set(),
            index <= rules@.len(),
            match taker {
                Some(found) => found < rules@.len() && rules@[found as int].rstrip,
                None => forall|i: int| 0 <= i < index ==> !(#[trigger] rules@[i]).rstrip,
            },
            match overrun {
                Some(found) => found < rules@.len() && may_be_overrun(rules@[found as int]),
                None => forall|i: int| 0 <= i < index ==> !may_be_overrun(#[trigger] rules@[i]),
            },
        decreases rules@.len() - index,
    {
        if rules[index].rstrip {
            taker = Some(index);
        } else if rules[index].lstrip {
            overrun = Some(index);
        }
        index += 1;
    }
    match (taker, overrun) {
        (Some(first), Some(second)) => {
            assert(all.contains(rules@[first as int]));
            assert(all.contains(rules@[second as int]));
            false
        },
        _ => true,
    }
}

/// Finds the first part that keeps a tokenizer from encoding every text.
pub fn find_flaw(tokenizer: &Tokenizer) -> (flaw: Option<TokenizerFlaw>)
    ensures
        flaw == flaw_of(*tokenizer),
{
    let front = match get_normalizer(tokenizer) {
        Some(found) => follow_normalizer(found, false),
        None => Some(false),
    };
    let front: bool = match front {
        Some(loose) => loose,
        None => return Some(TokenizerFlaw::Normalizer),
    };
    if let Some(pre_tokenizer) = get_pre_tokenizer(tokenizer) {
        if !check_pre_tokenizer(pre_tokenizer, front) {
            return Some(TokenizerFlaw::PreTokenizer);
        }
    }
    if let Some(processor) = get_post_processor(tokenizer) {
        if follow_post_processor(processor, 1).is_none() {
            return Some(TokenizerFlaw::PostProcessor);
        }
    }
    proof {
        reveal_strlit("\u{1}\u{1}");
    }
    let pieces = split_at_tokens(tokenizer, UNSPLIT_TEXT);
    let unsplit: bool = pieces.len() == 1 && !pieces[0];
    assert(unsplit == (pieces@ == seq![false])) by {
        if unsplit {
            assert(pieces@ =~= seq![false]);
        }
    }
    if !unsplit || !check_added_tokens(&read_added_tokens(tokenizer)) {
        return Some(TokenizerFlaw::AddedTokens);
    }
    None
}

/// Added tokens keep apart exactly where not one of them takes the white space
/// behind it while another takes only the white space before it.
pub proof fn tokens_keep_apart_by_their_white_space(rules: &Vec<AddedTokenRule>, apart: bool)
    requires
        call_ensures(check_added_tokens, (rules,), apart),
    ensures
        !apart <==> {
            &&& exists|i: int| 0 <= i < rules@.len() && (#[trigger] rules@[i]).rstrip
            &&& exists|i: int|
                0 <= i < rules@.len() && (#[trigger] rules@[i]).lstrip && !rules@[i].rstrip
        },
{
    let all = rules@.to_set();
    assert forall|i: int| 0 <= i < rules@.len() implies all.contains(#[trigger] rules@[i]) by {}
    if !apart {
        let (rule, other) = choose|rule: AddedTokenRule, other: AddedTokenRule| #[trigger]
            all.contains(rule) && #[trigger] all.contains(other) && other.rstrip
                && may_be_overrun(rule);
        let i = choose|i: int| 0 <= i < rules@.len() && rules@[i] == rule;
        let j = choose|j: int| 0 <= j < rules@.len() && rules@[j] == other;
        assert(rules@[i].lstrip && !rules@[i].rstrip);
        assert(rules@[j].rstrip);
    } else {
        if (exists|i: int| 0 <= i < rules@.len() && (#[trigger] rules@[i]).rstrip) && exists|i: int|
            0 <= i < rules@.len() && (#[trigger] rules@[i]).lstrip && !rules@[i].rstrip {
            let j = choose|i: int| 0 <= i < rules@.len() && (#[trigger] rules@[i]).rstrip;
            let i = choose|i: int|
                0 <= i < rules@.len() && (#[trigger] rules@[i]).lstrip && !rules@[i].rstrip;
            assert(all.contains(rules@[i]) && all.contains(rules@[j]));
            assert(may_be_overrun(rules@[i]));
        }
    }
}

/// A tokenizer has no flaw exactly where its normalizer can follow every text, its
/// pre-tokenizer can split what comes out, its post-processor can finish one
/// sequence, and its added tokens are found neither by the empty text nor inside
/// the white space of each other. Parts that it does not have are no flaw.
pub proof fn sound_parts_make_a_sound_tokenizer(tokenizer: &Tokenizer, flaw: Option<TokenizerFlaw>)
    requires
        call_ensures(find_flaw, (tokenizer,), flaw),
    ensures
        flaw is None <==> {
            let loose = match normalizer_of(*tokenizer) {
                Some(normalizer) => front_after(normalizer, false),
                None => Some(false),
            };
            &&& loose is Some
            &&& pre_tokenizer_of(*tokenizer) matches Some(pre_tokenizer) ==> splits_every_text(
                pre_tokenizer,
                loose->0,
            )
            &&& post_processor_of(*tokenizer) matches Some(processor) ==> sequences_after(
                processor,
                1,
            ) is Some
            &&& token_pieces(*tokenizer, "\u{1}\u{1}"@) == seq![false]
            &&& forall|rule: AddedTokenRule, other: AddedTokenRule|
                added_token_rules(*tokenizer).contains(rule) && added_token_rules(
                    *tokenizer,
                ).contains(other) && rule.lstrip && !rule.rstrip ==> !other.rstrip
        },
        flaw == Some(TokenizerFlaw::Normalizer) <==> (normalizer_of(*tokenizer) is Some
            && front_after(normalizer_of(*tokenizer)->0, false) is None),
        flaw == Some(TokenizerFlaw::PreTokenizer) ==> pre_tokenizer_of(*tokenizer) is Some,
        flaw == Some(TokenizerFlaw::PostProcessor) ==> post_processor_of(*tokenizer) is Some,
{
}

} // verus!
