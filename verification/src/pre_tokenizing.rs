//! The pre-tokenizer of a tokenizer, and whether it can split every text.
use tokenizers::pre_tokenizers::split::Split;
use tokenizers::pre_tokenizers::PreTokenizerWrapper;
use tokenizers::Tokenizer;
use vstd::prelude::*;

use crate::expression::{check_expression, is_ordinary};

verus! {

#[verifier::external_type_specification]
#[verifier::external_body]
pub struct ExPreTokenizerWrapper(tokenizers::pre_tokenizers::PreTokenizerWrapper);

#[verifier::external_type_specification]
#[verifier::external_body]
pub struct ExSplit(tokenizers::pre_tokenizers::split::Split);

/// What kind of pre-tokenizer one is.
pub enum PreTokenizerPart<'a> {
    /// It runs its parts one after the other.
    Chain(&'a [PreTokenizerWrapper]),
    /// It cuts a text into pieces of one length.
    FixedLength(usize),
    /// It splits at the matches of an expression.
    Split(&'a Split),
    /// It rewrites every byte as a character.
    ByteLevel,
    /// It splits at characters.
    Characters,
}

/// A kind of pre-tokenizer as a mathematical value.
pub enum PreTokenizerPartView {
    Chain(Seq<PreTokenizerWrapper>),
    FixedLength(usize),
    Split(Split),
    ByteLevel,
    Characters,
}

impl<'a> View for PreTokenizerPart<'a> {
    type V = PreTokenizerPartView;

    open spec fn view(&self) -> PreTokenizerPartView {
        match self {
            PreTokenizerPart::Chain(parts) => PreTokenizerPartView::Chain(parts@),
            PreTokenizerPart::FixedLength(length) => PreTokenizerPartView::FixedLength(*length),
            PreTokenizerPart::Split(split) => PreTokenizerPartView::Split(**split),
            PreTokenizerPart::ByteLevel => PreTokenizerPartView::ByteLevel,
            PreTokenizerPart::Characters => PreTokenizerPartView::Characters,
        }
    }
}

/// The pre-tokenizer of a tokenizer.
pub uninterp spec fn pre_tokenizer_of(tokenizer: Tokenizer) -> Option<PreTokenizerWrapper>;

/// What kind of pre-tokenizer one is, with its settings.
pub uninterp spec fn pre_tokenizer_part(pre_tokenizer: PreTokenizerWrapper) -> PreTokenizerPartView;

/// How deep chains are nested in a pre-tokenizer.
pub uninterp spec fn pre_tokenizer_depth(pre_tokenizer: PreTokenizerWrapper) -> nat;

/// Trusted: `TokenizerImpl::get_pre_tokenizer` hands out the pre-tokenizer.
#[verifier::external_body]
pub(crate) fn get_pre_tokenizer(tokenizer: &Tokenizer) -> (pre_tokenizer: Option<
    &PreTokenizerWrapper,
>)
    ensures
        pre_tokenizer_of(*tokenizer) == match pre_tokenizer {
            Some(found) => Some(*found),
            None => None,
        },
{
    tokenizer.get_pre_tokenizer()
}

/// Trusted: the variants of `PreTokenizerWrapper`. `Sequence::as_ref` hands out
/// the parts of a chain, which are nested less deep than the chain.
#[verifier::external_body]
fn read_pre_tokenizer<'a>(pre_tokenizer: &'a PreTokenizerWrapper) -> (part: PreTokenizerPart<'a>)
    ensures
        part@ == pre_tokenizer_part(*pre_tokenizer),
        part matches PreTokenizerPart::Chain(parts) ==> forall|i: int|
            0 <= i < parts@.len() ==> pre_tokenizer_depth(#[trigger] parts@[i])
                < pre_tokenizer_depth(*pre_tokenizer),
{
    match pre_tokenizer {
        PreTokenizerWrapper::Sequence(chain) => PreTokenizerPart::Chain(chain.as_ref()),
        PreTokenizerWrapper::FixedLength(step) => PreTokenizerPart::FixedLength(step.length),
        PreTokenizerWrapper::Split(step) => PreTokenizerPart::Split(step),
        PreTokenizerWrapper::ByteLevel(_) => PreTokenizerPart::ByteLevel,
        PreTokenizerWrapper::BertPreTokenizer(_) | PreTokenizerWrapper::Delimiter(_)
        | PreTokenizerWrapper::Metaspace(_) | PreTokenizerWrapper::Whitespace(_)
        | PreTokenizerWrapper::Punctuation(_) | PreTokenizerWrapper::WhitespaceSplit(_)
        | PreTokenizerWrapper::Digits(_)
        | PreTokenizerWrapper::UnicodeScripts(_) => PreTokenizerPart::Characters,
    }
}

/// The compiled expression of a split as `Debug` writes it: the expression
/// itself, between the words that name its field.
pub uninterp spec fn written_expression(split: Split) -> Seq<char>;

/// Trusted: `Debug` of `SysRegex` writes the expression that was compiled. A
/// split looks for the matches of that expression, whatever its pattern says.
#[verifier::external_body]
fn read_expression(split: &Split) -> (expression: String)
    ensures
        expression@ == written_expression(*split),
{
    format!("{:?}", split.regex)
}

/// That a pre-tokenizer can split every text. `loose` says whether text that
/// came from nowhere may stand at the front.
pub open spec fn splits_every_text(pre_tokenizer: PreTokenizerWrapper, loose: bool) -> bool
    decreases pre_tokenizer_depth(pre_tokenizer), 1nat, 0nat,
{
    match pre_tokenizer_part(pre_tokenizer) {
        PreTokenizerPartView::Chain(parts) => parts_split_every_text(
            parts,
            pre_tokenizer_depth(pre_tokenizer),
            parts.len(),
            loose,
        ),
        PreTokenizerPartView::FixedLength(length) => length > 0,
        PreTokenizerPartView::Split(split) => is_ordinary(written_expression(split)),
        PreTokenizerPartView::ByteLevel => !loose,
        PreTokenizerPartView::Characters => true,
    }
}

/// That the first `count` parts of a chain that is nested `depth` deep can split
/// every text.
pub open spec fn parts_split_every_text(
    parts: Seq<PreTokenizerWrapper>,
    depth: nat,
    count: nat,
    loose: bool,
) -> bool
    decreases depth, 0nat, count,
{
    count == 0 || {
        &&& parts_split_every_text(parts, depth, (count - 1) as nat, loose)
        &&& pre_tokenizer_depth(parts[count - 1]) < depth
        &&& splits_every_text(parts[count - 1], loose)
    }
}

/// Whether a pre-tokenizer can split every text.
pub fn check_pre_tokenizer(pre_tokenizer: &PreTokenizerWrapper, loose: bool) -> (sound: bool)
    ensures
        sound == splits_every_text(*pre_tokenizer, loose),
    decreases pre_tokenizer_depth(*pre_tokenizer),
{
    match read_pre_tokenizer(pre_tokenizer) {
        PreTokenizerPart::Chain(parts) => {
            let mut index: usize = 0;
            while index < parts.len()
                invariant
                    pre_tokenizer_part(*pre_tokenizer) == PreTokenizerPartView::Chain(parts@),
                    index <= parts@.len(),
                    forall|i: int|
                        0 <= i < parts@.len() ==> pre_tokenizer_depth(#[trigger] parts@[i])
                            < pre_tokenizer_depth(*pre_tokenizer),
                    parts_split_every_text(
                        parts@,
                        pre_tokenizer_depth(*pre_tokenizer),
                        index as nat,
                        loose,
                    ),
                decreases parts@.len() - index,
            {
                if !check_pre_tokenizer(&parts[index], loose) {
                    proof {
                        lemma_more_parts_split_no_better(
                            parts@,
                            pre_tokenizer_depth(*pre_tokenizer),
                            (index + 1) as nat,
                            parts@.len(),
                            loose,
                        );
                    }
                    return false;
                }
                index += 1;
            }
            true
        },
        PreTokenizerPart::FixedLength(length) => length > 0,
        PreTokenizerPart::Split(split) => check_expression(read_expression(split).as_str()),
        PreTokenizerPart::ByteLevel => !loose,
        PreTokenizerPart::Characters => true,
    }
}

proof fn lemma_more_parts_split_no_better(
    parts: Seq<PreTokenizerWrapper>,
    depth: nat,
    count: nat,
    more: nat,
    loose: bool,
)
    requires
        count <= more,
        !parts_split_every_text(parts, depth, count, loose),
    ensures
        !parts_split_every_text(parts, depth, more, loose),
    decreases more,
{
    if count < more {
        lemma_more_parts_split_no_better(parts, depth, count, (more - 1) as nat, loose);
    }
}

/// A step that is no chain can split every text by its kind: one that splits at
/// characters always can, one that cuts pieces of some length needs a length, one
/// that splits at an expression needs an ordinary one, and one that rewrites bytes
/// a front that did not come from nowhere.
pub proof fn steps_split_by_their_kind(
    pre_tokenizer: &PreTokenizerWrapper,
    loose: bool,
    sound: bool,
)
    requires
        call_ensures(check_pre_tokenizer, (pre_tokenizer, loose), sound),
    ensures
        match pre_tokenizer_part(*pre_tokenizer) {
            PreTokenizerPartView::Characters => sound,
            PreTokenizerPartView::ByteLevel => sound <==> !loose,
            PreTokenizerPartView::FixedLength(length) => sound <==> length != 0,
            PreTokenizerPartView::Split(split) => sound <==> is_ordinary(
                written_expression(split),
            ),
            PreTokenizerPartView::Chain(_) => true,
        },
{
}

/// A chain can split every text exactly where each of its parts can.
pub proof fn chains_split_where_their_parts_do(
    pre_tokenizer: &PreTokenizerWrapper,
    parts: Seq<PreTokenizerWrapper>,
    loose: bool,
    sound: bool,
)
    requires
        call_ensures(check_pre_tokenizer, (pre_tokenizer, loose), sound),
        pre_tokenizer_part(*pre_tokenizer) == PreTokenizerPartView::Chain(parts),
        forall|i: int|
            0 <= i < parts.len() ==> pre_tokenizer_depth(#[trigger] parts[i])
                < pre_tokenizer_depth(*pre_tokenizer),
    ensures
        sound <==> forall|i: int|
            0 <= i < parts.len() ==> splits_every_text(#[trigger] parts[i], loose),
{
    lemma_parts_split(parts, pre_tokenizer_depth(*pre_tokenizer), parts.len(), loose);
}

proof fn lemma_parts_split(parts: Seq<PreTokenizerWrapper>, depth: nat, count: nat, loose: bool)
    requires
        count <= parts.len(),
        forall|i: int|
            0 <= i < parts.len() ==> pre_tokenizer_depth(#[trigger] parts[i]) < depth,
    ensures
        parts_split_every_text(parts, depth, count, loose) <==> forall|i: int|
            0 <= i < count ==> splits_every_text(#[trigger] parts[i], loose),
    decreases count,
{
    if count > 0 {
        lemma_parts_split(parts, depth, (count - 1) as nat, loose);
        let last = parts[count - 1];
        assert(pre_tokenizer_depth(last) < depth);
    }
}

} // verus!
