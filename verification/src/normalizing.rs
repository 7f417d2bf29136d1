//! The normalizer of a tokenizer, and whether it can follow every text.
//!
//! A normalizer keeps track of where each character came from. Text that stands
//! before the first character came from nowhere, and the steps that rewrite
//! character by character then run past the end of what they track.
use tokenizers::normalizers::replace::Replace;
use tokenizers::normalizers::{NormalizerWrapper, Precompiled};
use tokenizers::Tokenizer;
use vstd::prelude::*;

use crate::charsmap::{check_charsmap, is_consistent};
use crate::expression::{
    check_expression, expression_may_match_nothing, is_ordinary, looks_around, matches_empty_text,
    may_match_nothing,
};

verus! {

#[verifier::external_type_specification]
#[verifier::external_body]
pub struct ExNormalizerWrapper(tokenizers::normalizers::NormalizerWrapper);

#[verifier::external_type_specification]
#[verifier::external_body]
pub struct ExReplace(tokenizers::normalizers::replace::Replace);

#[verifier::external_type_specification]
#[verifier::external_body]
pub struct ExPrecompiled(tokenizers::normalizers::Precompiled);

/// What kind of normalizer one is.
pub enum NormalizerPart<'a> {
    /// It runs its parts one after the other.
    Chain(&'a [NormalizerWrapper]),
    /// It puts a text in front.
    Prepend(&'a str),
    /// It replaces what a pattern matches.
    Replace(&'a Replace),
    /// It rewrites characters by tables.
    Precompiled(&'a Precompiled),
    /// It rewrites character by character.
    Rewrite,
}

/// A kind of normalizer as a mathematical value.
pub enum NormalizerPartView {
    Chain(Seq<NormalizerWrapper>),
    Prepend(Seq<char>),
    Replace(Replace),
    Precompiled(Precompiled),
    Rewrite,
}

impl<'a> View for NormalizerPart<'a> {
    type V = NormalizerPartView;

    open spec fn view(&self) -> NormalizerPartView {
        match self {
            NormalizerPart::Chain(parts) => NormalizerPartView::Chain(parts@),
            NormalizerPart::Prepend(text) => NormalizerPartView::Prepend(text@),
            NormalizerPart::Replace(replace) => NormalizerPartView::Replace(**replace),
            NormalizerPart::Precompiled(tables) => NormalizerPartView::Precompiled(**tables),
            NormalizerPart::Rewrite => NormalizerPartView::Rewrite,
        }
    }
}

/// The normalizer of a tokenizer.
pub uninterp spec fn normalizer_of(tokenizer: Tokenizer) -> Option<NormalizerWrapper>;

/// What kind of normalizer one is, with its settings.
pub uninterp spec fn normalizer_part(normalizer: NormalizerWrapper) -> NormalizerPartView;

/// How deep chains are nested in a normalizer.
pub uninterp spec fn normalizer_depth(normalizer: NormalizerWrapper) -> nat;

/// Trusted: `TokenizerImpl::get_normalizer` hands out the normalizer.
#[verifier::external_body]
pub(crate) fn get_normalizer(tokenizer: &Tokenizer) -> (normalizer: Option<&NormalizerWrapper>)
    ensures
        normalizer_of(*tokenizer) == match normalizer {
            Some(found) => Some(*found),
            None => None,
        },
{
    tokenizer.get_normalizer()
}

/// Trusted: the variants of `NormalizerWrapper`. `Sequence::as_ref` hands out
/// the parts of a chain, which are nested less deep than the chain.
#[verifier::external_body]
fn read_normalizer<'a>(normalizer: &'a NormalizerWrapper) -> (part: NormalizerPart<'a>)
    ensures
        part@ == normalizer_part(*normalizer),
        part matches NormalizerPart::Chain(parts) ==> forall|i: int|
            0 <= i < parts@.len() ==> normalizer_depth(#[trigger] parts@[i]) < normalizer_depth(
                *normalizer,
            ),
{
    match normalizer {
        NormalizerWrapper::Sequence(chain) => NormalizerPart::Chain(chain.as_ref()),
        NormalizerWrapper::Prepend(step) => NormalizerPart::Prepend(&step.prepend),
        NormalizerWrapper::Replace(step) => NormalizerPart::Replace(step),
        NormalizerWrapper::Precompiled(step) => NormalizerPart::Precompiled(step),
        NormalizerWrapper::BertNormalizer(_) | NormalizerWrapper::StripNormalizer(_)
        | NormalizerWrapper::StripAccents(_) | NormalizerWrapper::NFC(_)
        | NormalizerWrapper::NFD(_) | NormalizerWrapper::NFKC(_) | NormalizerWrapper::NFKD(_)
        | NormalizerWrapper::Lowercase(_) | NormalizerWrapper::Nmt(_)
        | NormalizerWrapper::ByteLevel(_) => NormalizerPart::Rewrite,
    }
}

/// What a replacement looks for.
#[derive(Debug)]
pub enum Pattern {
    Text(String),
    Regex(String),
}

/// A replacement: what it looks for and what it puts there.
#[derive(Debug)]
pub struct Replacement {
    pub pattern: Pattern,
    pub content: String,
}

/// A pattern as a mathematical value.
pub enum PatternView {
    Text(Seq<char>),
    Regex(Seq<char>),
}

/// A replacement as a mathematical value.
pub struct ReplacementView {
    pub pattern: PatternView,
    pub content: Seq<char>,
}

impl View for Pattern {
    type V = PatternView;

    open spec fn view(&self) -> PatternView {
        match self {
            Pattern::Text(text) => PatternView::Text(text@),
            Pattern::Regex(pattern) => PatternView::Regex(pattern@),
        }
    }
}

impl View for Replacement {
    type V = ReplacementView;

    open spec fn view(&self) -> ReplacementView {
        ReplacementView { pattern: self.pattern@, content: self.content@ }
    }
}

/// The settings of a replacement, as they are written to a file; `None` stands
/// for a replacement that cannot be written.
pub uninterp spec fn replacement_of(replace: Replace) -> Option<ReplacementView>;

/// Trusted: `serde_json::to_value` writes the pattern of a `Replace`, and
/// `serde_json::from_value` reads it again.
#[verifier::external_body]
fn read_replacement(replace: &Replace) -> (replacement: Option<Replacement>)
    ensures
        replacement_of(*replace) == match replacement {
            Some(found) => Some(found@),
            None => None,
        },
{
    let mut document = serde_json::to_value(replace).ok()?;
    let pattern = serde_json::from_value(document.get_mut("pattern")?.take()).ok()?;
    let pattern = match pattern {
        tokenizers::normalizers::replace::ReplacePattern::String(text) => Pattern::Text(text),
        tokenizers::normalizers::replace::ReplacePattern::Regex(text) => Pattern::Regex(text),
    };
    Some(Replacement { pattern, content: replace.content.clone() })
}

/// The tables of a precompiled normalizer, as they are written to a file; `None`
/// stands for tables that cannot be written.
pub uninterp spec fn table_of(tables: Precompiled) -> Option<Seq<u8>>;

/// Trusted: `serde_json::to_value` writes the tables of a `Precompiled` in
/// base64, and `Engine::decode` of `base64` reads them.
#[verifier::external_body]
fn read_table(tables: &Precompiled) -> (table: Option<Vec<u8>>)
    ensures
        table_of(*tables) == match table {
            Some(bytes) => Some(bytes@),
            None => None,
        },
{
    let document = serde_json::to_value(tables).ok()?;
    let text = document.get("precompiled_charsmap")?.as_str()?;
    base64::Engine::decode(&base64::engine::general_purpose::STANDARD, text).ok()
}

/// What is known of the front of a text after a replacement: whether text that
/// came from nowhere may stand there, given whether it may before. `None` means
/// that the replacement may lose track of a text.
pub open spec fn front_after_replacement(replacement: ReplacementView, loose: bool) -> Option<
    bool,
> {
    match replacement.pattern {
        PatternView::Text(text) => Some(
            loose || replacement.content.len() > 0 && text.len() == 0,
        ),
        PatternView::Regex(text) => if is_ordinary(text) {
            Some(loose || replacement.content.len() > 0 && may_match_nothing(text))
        } else {
            None
        },
    }
}

/// What is known of the front of a text after a normalizer: whether text that
/// came from nowhere may stand there, given whether it may before. `None` means
/// that the normalizer may lose track of a text.
pub open spec fn front_after(normalizer: NormalizerWrapper, loose: bool) -> Option<bool>
    decreases normalizer_depth(normalizer), 1nat, 0nat,
{
    match normalizer_part(normalizer) {
        NormalizerPartView::Chain(parts) => front_after_parts(
            parts,
            normalizer_depth(normalizer),
            parts.len(),
            loose,
        ),
        NormalizerPartView::Prepend(text) => Some(loose || text.len() == 0),
        NormalizerPartView::Replace(replace) => match replacement_of(replace) {
            Some(replacement) => front_after_replacement(replacement, loose),
            None => None,
        },
        NormalizerPartView::Precompiled(tables) => match table_of(tables) {
            Some(table) if is_consistent(table) && !loose => Some(false),
            _ => None,
        },
        NormalizerPartView::Rewrite => if loose {
            None
        } else {
            Some(false)
        },
    }
}

/// What is known of the front of a text after the first `count` parts of a chain
/// that is nested `depth` deep.
pub open spec fn front_after_parts(
    parts: Seq<NormalizerWrapper>,
    depth: nat,
    count: nat,
    loose: bool,
) -> Option<bool>
    decreases depth, 0nat, count,
{
    if count == 0 {
        Some(loose)
    } else {
        match front_after_parts(parts, depth, (count - 1) as nat, loose) {
            Some(front) if normalizer_depth(parts[count - 1]) < depth => front_after(
                parts[count - 1],
                front,
            ),
            _ => None,
        }
    }
}

/// Follows the front of a text through a replacement.
pub fn follow_replacement(replacement: &Replacement, loose: bool) -> (front: Option<bool>)
    ensures
        front == front_after_replacement(replacement@, loose),
{
    let adds: bool = !replacement.content.as_str().is_empty();
    match &replacement.pattern {
        Pattern::Text(text) => Some(loose || adds && text.as_str().is_empty()),
        Pattern::Regex(text) => if check_expression(text.as_str()) {
            Some(loose || adds && expression_may_match_nothing(text.as_str()))
        } else {
            None
        },
    }
}

/// Follows the front of a text through a normalizer.
pub fn follow_normalizer(normalizer: &NormalizerWrapper, loose: bool) -> (front: Option<bool>)
    ensures
        front == front_after(*normalizer, loose),
    decreases normalizer_depth(*normalizer),
{
    match read_normalizer(normalizer) {
        NormalizerPart::Chain(parts) => {
            let mut front: bool = loose;
            let mut index: usize = 0;
            while index < parts.len()
                invariant
                    normalizer_part(*normalizer) == NormalizerPartView::Chain(parts@),
                    index <= parts@.len(),
                    forall|i: int|
                        0 <= i < parts@.len() ==> normalizer_depth(#[trigger] parts@[i])
                            < normalizer_depth(*normalizer),
                    Some(front) == front_after_parts(
                        parts@,
                        normalizer_depth(*normalizer),
                        index as nat,
                        loose,
                    ),
                decreases parts@.len() - index,
            {
                match follow_normalizer(&parts[index], front) {
                    Some(next) => {
                        front = next;
                    },
                    None => {
                        proof {
                            lemma_lost_stays_lost(
                                parts@,
                                normalizer_depth(*normalizer),
                                (index + 1) as nat,
                                parts@.len(),
                                loose,
                            );
                        }
                        return None;
                    },
                }
                index += 1;
            }
            Some(front)
        },
        NormalizerPart::Prepend(text) => Some(loose || text.is_empty()),
        NormalizerPart::Replace(replace) => match read_replacement(replace) {
            Some(replacement) => follow_replacement(&replacement, loose),
            None => None,
        },
        NormalizerPart::Precompiled(tables) => match read_table(tables) {
            Some(table) => if !loose && check_charsmap(&table) {
                Some(false)
            } else {
                None
            },
            None => None,
        },
        NormalizerPart::Rewrite => if loose {
            None
        } else {
            Some(false)
        },
    }
}

/// A chain that loses track of a text after some parts does so after more.
proof fn lemma_lost_stays_lost(
    parts: Seq<NormalizerWrapper>,
    depth: nat,
    count: nat,
    more: nat,
    loose: bool,
)
    requires
        count <= more,
        front_after_parts(parts, depth, count, loose) is None,
    ensures
        front_after_parts(parts, depth, more, loose) is None,
    decreases more,
{
    if count < more {
        lemma_lost_stays_lost(parts, depth, count, (more - 1) as nat, loose);
    }
}

/// A replacement of a text, whatever is put there, never loses track: text from
/// nowhere comes to the front only where the replaced text is empty.
pub proof fn replaced_texts_are_followed(
    replacement: &Replacement,
    text: String,
    loose: bool,
    front: Option<bool>,
)
    requires
        call_ensures(follow_replacement, (replacement, loose), front),
        replacement.pattern == Pattern::Text(text),
    ensures
        front is Some,
        text@.len() > 0 || replacement.content@.len() == 0 ==> front == Some(loose),
        text@.len() == 0 && replacement.content@.len() > 0 ==> front == Some(true),
{
}

/// A replacement of what an expression matches is followed exactly where the
/// expression is ordinary. Text from nowhere comes to the front only where there
/// is text to put there and the expression may match nothing.
pub proof fn replaced_matches_are_followed(
    replacement: &Replacement,
    expression: String,
    loose: bool,
    front: Option<bool>,
)
    requires
        call_ensures(follow_replacement, (replacement, loose), front),
        replacement.pattern == Pattern::Regex(expression),
    ensures
        front is Some <==> is_ordinary(expression@),
        front is Some && replacement.content@.len() == 0 ==> front == Some(loose),
        front is Some && replacement.content@.len() > 0 ==> front == Some(
            loose || looks_around(expression@) || matches_empty_text(expression@),
        ),
{
}

/// A replacement is followed by what it looks for and what it puts there, as it
/// is written down.
pub proof fn written_replacements_are_followed(
    pattern: PatternView,
    content: Seq<char>,
    loose: bool,
)
    ensures
        ({
            let front = front_after_replacement(ReplacementView { pattern, content }, loose);
            match pattern {
                PatternView::Text(text) => front == Some(
                    loose || text.len() == 0 && content.len() > 0,
                ),
                PatternView::Regex(expression) => {
                    &&& front is Some <==> is_ordinary(expression)
                    &&& front is Some ==> front == Some(
                        loose || content.len() > 0 && (looks_around(expression)
                            || matches_empty_text(expression)),
                    )
                },
            }
        }),
{
}

/// A step that is no chain is followed by its kind: a step that rewrites needs a
/// front that did not come from nowhere and leaves such a one, and a text that is
/// put in front leaves the front as it was unless it is empty.
pub proof fn steps_are_followed_by_their_kind(
    normalizer: &NormalizerWrapper,
    loose: bool,
    front: Option<bool>,
)
    requires
        call_ensures(follow_normalizer, (normalizer, loose), front),
    ensures
        match normalizer_part(*normalizer) {
            NormalizerPartView::Rewrite => if loose {
                front is None
            } else {
                front == Some(false)
            },
            NormalizerPartView::Prepend(text) => front == Some(loose || text.len() == 0),
            NormalizerPartView::Replace(replace) => match replacement_of(replace) {
                Some(replacement) => front == front_after_replacement(replacement, loose),
                None => front is None,
            },
            NormalizerPartView::Precompiled(tables) => {
                &&& front is Some <==> {
                    &&& !loose
                    &&& table_of(tables) is Some
                    &&& is_consistent(table_of(tables)->0)
                }
                &&& front is Some ==> front == Some(false)
            },
            NormalizerPartView::Chain(_) => true,
        },
{
}

/// A chain is followed part by part: an empty one changes nothing, and one more
/// part goes on from where the parts before it end.
pub proof fn chains_are_followed_part_by_part(
    normalizer: &NormalizerWrapper,
    parts: Seq<NormalizerWrapper>,
    loose: bool,
    front: Option<bool>,
)
    requires
        call_ensures(follow_normalizer, (normalizer, loose), front),
        normalizer_part(*normalizer) == NormalizerPartView::Chain(parts),
        forall|i: int|
            0 <= i < parts.len() ==> normalizer_depth(#[trigger] parts[i]) < normalizer_depth(
                *normalizer,
            ),
    ensures
        exists|fronts: Seq<Option<bool>>|
            {
                &&& fronts.len() == parts.len() + 1
                &&& fronts[0] == Some(loose)
                &&& forall|i: int|
                    0 <= i < parts.len() ==> #[trigger] goes_on(parts[i], fronts[i], fronts[i + 1])
                &&& #[trigger] fronts.last() == front
            },
{
    let depth = normalizer_depth(*normalizer);
    let fronts = Seq::new(
        parts.len() + 1,
        |i: int| front_after_parts(parts, depth, i as nat, loose),
    );
    assert forall|i: int| 0 <= i < parts.len() implies #[trigger] goes_on(
        parts[i],
        fronts[i],
        fronts[i + 1],
    ) by {
        assert(normalizer_depth(parts[i]) < depth);
    }
    assert(fronts.last() == front);
}

/// That a part of a chain goes on from what is known before it to what is known
/// behind it.
pub open spec fn goes_on(
    part: NormalizerWrapper,
    before: Option<bool>,
    behind: Option<bool>,
) -> bool {
    match before {
        Some(loose) => behind == front_after(part, loose),
        None => behind is None,
    }
}

/// A chain of steps that each leave a front that did not come from nowhere does so
/// too: sound steps make a sound chain.
pub proof fn sound_steps_make_a_sound_chain(
    normalizer: &NormalizerWrapper,
    parts: Seq<NormalizerWrapper>,
    front: Option<bool>,
)
    requires
        call_ensures(follow_normalizer, (normalizer, false), front),
        normalizer_part(*normalizer) == NormalizerPartView::Chain(parts),
        forall|i: int|
            0 <= i < parts.len() ==> {
                &&& normalizer_depth(#[trigger] parts[i]) < normalizer_depth(*normalizer)
                &&& front_after(parts[i], false) == Some(false)
            },
    ensures
        front == Some(false),
{
    lemma_sound_parts(parts, normalizer_depth(*normalizer), parts.len());
}

proof fn lemma_sound_parts(parts: Seq<NormalizerWrapper>, depth: nat, count: nat)
    requires
        count <= parts.len(),
        forall|i: int|
            0 <= i < parts.len() ==> {
                &&& normalizer_depth(#[trigger] parts[i]) < depth
                &&& front_after(parts[i], false) == Some(false)
            },
    ensures
        front_after_parts(parts, depth, count, false) == Some(false),
    decreases count,
{
    if count > 0 {
        lemma_sound_parts(parts, depth, (count - 1) as nat);
        assert(front_after(parts[count - 1], false) == Some(false));
    }
}

} // verus!
