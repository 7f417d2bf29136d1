//! The post-processor of a tokenizer, and whether it can finish every encoding.
use tokenizers::processors::template::TemplateProcessing;
use tokenizers::processors::PostProcessorWrapper;
use tokenizers::Tokenizer;
use vstd::prelude::*;

verus! {

#[verifier::external_type_specification]
#[verifier::external_body]
pub struct ExPostProcessorWrapper(tokenizers::processors::PostProcessorWrapper);

#[verifier::external_type_specification]
#[verifier::external_body]
pub struct ExTemplateProcessing(tokenizers::processors::template::TemplateProcessing);

/// What kind of post-processor one is.
pub enum PostProcessorPart<'a> {
    /// It runs its parts one after the other.
    Chain(&'a [PostProcessorWrapper]),
    /// It arranges sequences and special tokens by a template.
    Template(&'a TemplateProcessing),
    /// It works on each sequence by itself.
    Each,
}

/// A kind of post-processor as a mathematical value.
pub enum PostProcessorPartView {
    Chain(Seq<PostProcessorWrapper>),
    Template(TemplateProcessing),
    Each,
}

impl<'a> View for PostProcessorPart<'a> {
    type V = PostProcessorPartView;

    open spec fn view(&self) -> PostProcessorPartView {
        match self {
            PostProcessorPart::Chain(parts) => PostProcessorPartView::Chain(parts@),
            PostProcessorPart::Template(template) => PostProcessorPartView::Template(**template),
            PostProcessorPart::Each => PostProcessorPartView::Each,
        }
    }
}

/// A piece of a template.
#[derive(Debug)]
pub enum TemplatePiece {
    /// The first sequence.
    First,
    /// The second sequence of a pair.
    Second,
    /// A special token, by its name in the template.
    Special(String),
}

/// A piece of a template as a mathematical value.
pub enum TemplatePieceView {
    First,
    Second,
    Special(Seq<char>),
}

impl View for TemplatePiece {
    type V = TemplatePieceView;

    open spec fn view(&self) -> TemplatePieceView {
        match self {
            TemplatePiece::First => TemplatePieceView::First,
            TemplatePiece::Second => TemplatePieceView::Second,
            TemplatePiece::Special(name) => TemplatePieceView::Special(name@),
        }
    }
}

/// The pieces by their views, if there are any.
pub open spec fn piece_views(pieces: Option<Vec<TemplatePiece>>) -> Option<Seq<TemplatePieceView>> {
    match pieces {
        Some(found) => Some(found@.map_values(|piece: TemplatePiece| piece@)),
        None => None,
    }
}

/// The post-processor of a tokenizer.
pub uninterp spec fn post_processor_of(tokenizer: Tokenizer) -> Option<PostProcessorWrapper>;

/// What kind of post-processor one is, with its settings.
pub uninterp spec fn post_processor_part(processor: PostProcessorWrapper) -> PostProcessorPartView;

/// How deep chains are nested in a post-processor.
pub uninterp spec fn post_processor_depth(processor: PostProcessorWrapper) -> nat;

/// The template for one sequence, as it is written to a file; `None` stands for
/// one that cannot be written.
pub uninterp spec fn single_template(processor: TemplateProcessing) -> Option<
    Seq<TemplatePieceView>,
>;

/// The template for two sequences, as it is written to a file; `None` stands for
/// one that cannot be written.
pub uninterp spec fn pair_template(processor: TemplateProcessing) -> Option<Seq<TemplatePieceView>>;

/// The names of the special tokens that a template defines.
pub uninterp spec fn defined_tokens(processor: TemplateProcessing) -> Set<Seq<char>>;

/// Trusted: `TokenizerImpl::get_post_processor` hands out the post-processor.
#[verifier::external_body]
pub(crate) fn get_post_processor(tokenizer: &Tokenizer) -> (processor: Option<
    &PostProcessorWrapper,
>)
    ensures
        post_processor_of(*tokenizer) == match processor {
            Some(found) => Some(*found),
            None => None,
        },
{
    tokenizer.get_post_processor()
}

/// Trusted: the variants of `PostProcessorWrapper`. `Sequence::as_ref` hands out
/// the parts of a chain, which are nested less deep than the chain.
#[verifier::external_body]
fn read_post_processor<'a>(processor: &'a PostProcessorWrapper) -> (part: PostProcessorPart<'a>)
    ensures
        part@ == post_processor_part(*processor),
        part matches PostProcessorPart::Chain(parts) ==> forall|i: int|
            0 <= i < parts@.len() ==> post_processor_depth(#[trigger] parts@[i])
                < post_processor_depth(*processor),
{
    match processor {
        PostProcessorWrapper::Sequence(chain) => PostProcessorPart::Chain(chain.as_ref()),
        PostProcessorWrapper::Template(template) => PostProcessorPart::Template(template),
        PostProcessorWrapper::Roberta(_) => PostProcessorPart::Each,
        PostProcessorWrapper::Bert(_) => PostProcessorPart::Each,
        PostProcessorWrapper::ByteLevel(_) => PostProcessorPart::Each,
    }
}

/// Trusted: `serde_json::to_value` writes `TemplateProcessing::single` as its
/// pieces, and `serde_json::from_value` reads them.
#[verifier::external_body]
fn read_single_template(processor: &TemplateProcessing) -> (pieces: Option<Vec<TemplatePiece>>)
    ensures
        piece_views(pieces) == single_template(*processor),
{
    let document = serde_json::to_value(&processor.single).ok()?;
    let pieces: Vec<tokenizers::processors::template::Piece> =
        serde_json::from_value(document).ok()?;
    Some(pieces.into_iter().map(|piece| match piece {
        tokenizers::processors::template::Piece::SpecialToken { id, .. } => {
            TemplatePiece::Special(id)
        },
        tokenizers::processors::template::Piece::Sequence { id, .. } => match id {
            tokenizers::processors::template::Sequence::A => TemplatePiece::First,
            tokenizers::processors::template::Sequence::B => TemplatePiece::Second,
        },
    }).collect())
}

/// Trusted: `serde_json::to_value` writes `TemplateProcessing::get_pair` as its
/// pieces, and `serde_json::from_value` reads them.
#[verifier::external_body]
fn read_pair_template(processor: &TemplateProcessing) -> (pieces: Option<Vec<TemplatePiece>>)
    ensures
        piece_views(pieces) == pair_template(*processor),
{
    let document = serde_json::to_value(processor.get_pair()).ok()?;
    let pieces: Vec<tokenizers::processors::template::Piece> =
        serde_json::from_value(document).ok()?;
    Some(pieces.into_iter().map(|piece| match piece {
        tokenizers::processors::template::Piece::SpecialToken { id, .. } => {
            TemplatePiece::Special(id)
        },
        tokenizers::processors::template::Piece::Sequence { id, .. } => match id {
            tokenizers::processors::template::Sequence::A => TemplatePiece::First,
            tokenizers::processors::template::Sequence::B => TemplatePiece::Second,
        },
    }).collect())
}

/// Trusted: `TemplateProcessing::get_special_tokens` holds the special tokens
/// that the template defines, by their names.
#[verifier::external_body]
fn defines_token(processor: &TemplateProcessing, name: &str) -> (defined: bool)
    ensures
        defined == defined_tokens(*processor).contains(name@),
{
    processor.get_special_tokens().0.contains_key(name)
}

/// That a template can place a piece, given how many sequences there are.
pub open spec fn can_place(
    processor: TemplateProcessing,
    piece: TemplatePieceView,
    sequences: nat,
) -> bool {
    match piece {
        TemplatePieceView::First => true,
        TemplatePieceView::Second => sequences == 2,
        TemplatePieceView::Special(name) => defined_tokens(processor).contains(name),
    }
}

pub open spec fn can_place_all(
    processor: TemplateProcessing,
    pieces: Seq<TemplatePieceView>,
    sequences: nat,
) -> bool {
    forall|i: int|
        0 <= i < pieces.len() ==> can_place(processor, #[trigger] pieces[i], sequences)
}

/// How many sequences a template makes of so many, one per piece. `None` means
/// that it cannot work on them.
pub open spec fn sequences_from_template(processor: TemplateProcessing, sequences: nat) -> Option<
    nat,
> {
    let pieces = if sequences == 1 {
        single_template(processor)
    } else if sequences == 2 {
        pair_template(processor)
    } else {
        None
    };
    match pieces {
        Some(found) if can_place_all(processor, found, sequences) => Some(found.len()),
        _ => None,
    }
}

/// How many sequences a post-processor makes of so many. `None` means that it
/// cannot work on them.
pub open spec fn sequences_after(processor: PostProcessorWrapper, sequences: nat) -> Option<nat>
    decreases post_processor_depth(processor), 1nat, 0nat,
{
    match post_processor_part(processor) {
        PostProcessorPartView::Chain(parts) => sequences_after_parts(
            parts,
            post_processor_depth(processor),
            parts.len(),
            sequences,
        ),
        PostProcessorPartView::Template(template) => sequences_from_template(template, sequences),
        PostProcessorPartView::Each => Some(sequences),
    }
}

/// How many sequences the first `count` parts of a chain that is nested `depth`
/// deep make of so many.
pub open spec fn sequences_after_parts(
    parts: Seq<PostProcessorWrapper>,
    depth: nat,
    count: nat,
    sequences: nat,
) -> Option<nat>
    decreases depth, 0nat, count,
{
    if count == 0 {
        Some(sequences)
    } else {
        match sequences_after_parts(parts, depth, (count - 1) as nat, sequences) {
            Some(reached) if post_processor_depth(parts[count - 1]) < depth => sequences_after(
                parts[count - 1],
                reached,
            ),
            _ => None,
        }
    }
}

/// A count as a mathematical value.
pub open spec fn counted(count: Option<usize>) -> Option<nat> {
    match count {
        Some(number) => Some(number as nat),
        None => None,
    }
}

fn places_all(processor: &TemplateProcessing, pieces: &Vec<TemplatePiece>, sequences: usize) -> (all:
    bool)
    ensures
        all == can_place_all(
            *processor,
            pieces@.map_values(|piece: TemplatePiece| piece@),
            sequences as nat,
        ),
{
    let ghost views = pieces@.map_values(|piece: TemplatePiece| piece@);
    let mut index: usize = 0;
    while index < pieces.len()
        invariant
            views == pieces@.map_values(|piece: TemplatePiece| piece@),
            index <= pieces@.len(),
            forall|i: int|
                0 <= i < index ==> can_place(*processor, #[trigger] views[i], sequences as nat),
        decreases pieces@.len() - index,
    {
        let placed: bool = match &pieces[index] {
            TemplatePiece::First => true,
            TemplatePiece::Second => sequences == 2,
            TemplatePiece::Special(name) => defines_token(processor, name.as_str()),
        };
        assert(placed == can_place(*processor, views[index as int], sequences as nat));
        if !placed {
            return false;
        }
        index += 1;
    }
    true
}

/// Follows the number of sequences through a template.
pub fn follow_template(processor: &TemplateProcessing, sequences: usize) -> (reached: Option<usize>)
    ensures
        counted(reached) == sequences_from_template(*processor, sequences as nat),
{
    let pieces = if sequences == 1 {
        read_single_template(processor)
    } else if sequences == 2 {
        read_pair_template(processor)
    } else {
        return None;
    };
    match pieces {
        Some(found) => if places_all(processor, &found, sequences) {
            Some(found.len())
        } else {
            None
        },
        None => None,
    }
}

/// Follows the number of sequences through a post-processor.
pub fn follow_post_processor(processor: &PostProcessorWrapper, sequences: usize) -> (reached: Option<
    usize,
>)
    ensures
        counted(reached) == sequences_after(*processor, sequences as nat),
    decreases post_processor_depth(*processor),
{
    match read_post_processor(processor) {
        PostProcessorPart::Chain(parts) => {
            let mut reached: usize = sequences;
            let mut index: usize = 0;
            while index < parts.len()
                invariant
                    post_processor_part(*processor) == PostProcessorPartView::Chain(parts@),
                    index <= parts@.len(),
                    forall|i: int|
                        0 <= i < parts@.len() ==> post_processor_depth(#[trigger] parts@[i])
                            < post_processor_depth(*processor),
                    Some(reached as nat) == sequences_after_parts(
                        parts@,
                        post_processor_depth(*processor),
                        index as nat,
                        sequences as nat,
                    ),
                decreases parts@.len() - index,
            {
                match follow_post_processor(&parts[index], reached) {
                    Some(next) => {
                        reached = next;
                    },
                    None => {
                        proof {
                            lemma_stopped_stays_stopped(
                                parts@,
                                post_processor_depth(*processor),
                                (index + 1) as nat,
                                parts@.len(),
                                sequences as nat,
                            );
                        }
                        return None;
                    },
                }
                index += 1;
            }
            Some(reached)
        },
        PostProcessorPart::Template(template) => follow_template(template, sequences),
        PostProcessorPart::Each => Some(sequences),
    }
}

proof fn lemma_stopped_stays_stopped(
    parts: Seq<PostProcessorWrapper>,
    depth: nat,
    count: nat,
    more: nat,
    sequences: nat,
)
    requires
        count <= more,
        sequences_after_parts(parts, depth, count, sequences) is None,
    ensures
        sequences_after_parts(parts, depth, more, sequences) is None,
    decreases more,
{
    if count < more {
        lemma_stopped_stays_stopped(parts, depth, count, (more - 1) as nat, sequences);
    }
}

/// A template works on one sequence by its form for one and on two by its form for
/// two, where each of its pieces is a sequence that there is or a special token
/// that it defines. It then makes one sequence of each piece.
pub proof fn templates_make_a_sequence_of_each_piece(
    processor: &TemplateProcessing,
    sequences: usize,
    reached: Option<usize>,
)
    requires
        call_ensures(follow_template, (processor, sequences), reached),
    ensures
        sequences != 1 && sequences != 2 ==> reached is None,
        sequences == 1 ==> match single_template(*processor) {
            Some(pieces) => {
                &&& reached matches Some(count) ==> count == pieces.len()
                &&& reached is Some <==> forall|i: int|
                    0 <= i < pieces.len() ==> match #[trigger] pieces[i] {
                        TemplatePieceView::First => true,
                        TemplatePieceView::Second => false,
                        TemplatePieceView::Special(name) => defined_tokens(*processor).contains(
                            name,
                        ),
                    }
            },
            None => reached is None,
        },
        sequences == 2 ==> match pair_template(*processor) {
            Some(pieces) => {
                &&& reached matches Some(count) ==> count == pieces.len()
                &&& reached is Some <==> forall|i: int|
                    0 <= i < pieces.len() ==> match #[trigger] pieces[i] {
                        TemplatePieceView::First => true,
                        TemplatePieceView::Second => true,
                        TemplatePieceView::Special(name) => defined_tokens(*processor).contains(
                            name,
                        ),
                    }
            },
            None => reached is None,
        },
{
    if sequences == 1 && single_template(*processor) is Some {
        let pieces = single_template(*processor)->0;
        assert(forall|i: int|
            0 <= i < pieces.len() ==> (can_place(*processor, #[trigger] pieces[i], 1)
                <==> match pieces[i] {
                TemplatePieceView::First => true,
                TemplatePieceView::Second => false,
                TemplatePieceView::Special(name) => defined_tokens(*processor).contains(name),
            }));
    }
    if sequences == 2 && pair_template(*processor) is Some {
        let pieces = pair_template(*processor)->0;
        assert(forall|i: int|
            0 <= i < pieces.len() ==> (can_place(*processor, #[trigger] pieces[i], 2)
                <==> match pieces[i] {
                TemplatePieceView::First => true,
                TemplatePieceView::Second => true,
                TemplatePieceView::Special(name) => defined_tokens(*processor).contains(name),
            }));
    }
}

/// A step that is no chain works by its kind: one that looks at each sequence by
/// itself leaves as many, and a template as many as it has pieces.
pub proof fn steps_work_by_their_kind(
    processor: &PostProcessorWrapper,
    sequences: usize,
    reached: Option<usize>,
)
    requires
        call_ensures(follow_post_processor, (processor, sequences), reached),
    ensures
        match post_processor_part(*processor) {
            PostProcessorPartView::Each => reached == Some(sequences),
            PostProcessorPartView::Template(template) => forall|alone: Option<usize>| #[trigger]
                call_ensures(follow_template, (&template, sequences), alone) ==> reached == alone,
            PostProcessorPartView::Chain(_) => true,
        },
{
}

/// A chain works part by part: an empty one changes nothing, and one more part
/// works on what the parts before it leave.
pub proof fn chains_work_part_by_part(
    processor: &PostProcessorWrapper,
    parts: Seq<PostProcessorWrapper>,
    sequences: usize,
    reached: Option<usize>,
)
    requires
        call_ensures(follow_post_processor, (processor, sequences), reached),
        post_processor_part(*processor) == PostProcessorPartView::Chain(parts),
        forall|i: int|
            0 <= i < parts.len() ==> post_processor_depth(#[trigger] parts[i])
                < post_processor_depth(*processor),
    ensures
        exists|counts: Seq<Option<nat>>|
            {
                &&& counts.len() == parts.len() + 1
                &&& counts[0] == Some(sequences as nat)
                &&& forall|i: int|
                    0 <= i < parts.len() ==> #[trigger] works_on(parts[i], counts[i], counts[i + 1])
                &&& #[trigger] counts.last() == match reached {
                    Some(count) => Some(count as nat),
                    None => None,
                }
            },
{
    let depth = post_processor_depth(*processor);
    let counts = Seq::new(
        parts.len() + 1,
        |i: int| sequences_after_parts(parts, depth, i as nat, sequences as nat),
    );
    assert forall|i: int| 0 <= i < parts.len() implies #[trigger] works_on(
        parts[i],
        counts[i],
        counts[i + 1],
    ) by {
        assert(post_processor_depth(parts[i]) < depth);
    }
    assert(counts.last() == match reached {
        Some(count) => Some(count as nat),
        None => None,
    });
}

/// That a part of a chain makes so many sequences of those before it.
pub open spec fn works_on(
    part: PostProcessorWrapper,
    before: Option<nat>,
    behind: Option<nat>,
) -> bool {
    match before {
        Some(sequences) => behind == sequences_after(part, sequences),
        None => behind is None,
    }
}

} // verus!
