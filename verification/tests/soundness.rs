use base64::Engine;
use base64::engine::general_purpose::STANDARD;
use siglip_onnx_server::charsmap::check_charsmap;
use siglip_onnx_server::expression::{check_expression, expression_may_match_nothing};
use siglip_onnx_server::soundness::{TokenizerFlaw, find_flaw};
use siglip_onnx_server::tokenizer::{FixedLengthTokenizer, TokenizerRejection};
use tokenizers::pre_tokenizers::PreTokenizerWrapper;
use tokenizers::pre_tokenizers::split::{Split, SplitPattern};
use tokenizers::utils::SysRegex;
use tokenizers::{SplitDelimiterBehavior, Tokenizer};

const TOKENIZER: &str = r#"{
    "version": "1.0", "truncation": null, "padding": null,
    "added_tokens": [ADDED],
    "normalizer": NORMALIZER,
    "pre_tokenizer": SPLITTER,
    "post_processor": FINISHER,
    "decoder": null,
    "model": {
        "type": "WordLevel",
        "vocab": {"<pad>": 0, "<unk>": 1, "red": 2, "block": 3, "b": 4, "<eos>": 5, "<x>": 6},
        "unk_token": "<unk>"
    }
}"#;

fn tokenizer(normalizer: &str, splitter: &str, finisher: &str, added: &str) -> Tokenizer {
    let document = TOKENIZER
        .replace("NORMALIZER", normalizer)
        .replace("SPLITTER", splitter)
        .replace("FINISHER", finisher)
        .replace("ADDED", added);
    Tokenizer::from_bytes(document.as_bytes()).expect("tokenizer must load")
}

fn with_normalizer(normalizer: &str) -> Tokenizer {
    tokenizer(normalizer, r#"{"type": "Whitespace"}"#, "null", "")
}

fn chain(parts: &[&str]) -> String {
    format!(r#"{{"type": "Sequence", "normalizers": [{}]}}"#, parts.join(","))
}

fn splitters(parts: &[&str]) -> String {
    format!(r#"{{"type": "Sequence", "pretokenizers": [{}]}}"#, parts.join(","))
}

fn finishers(parts: &[&str]) -> String {
    format!(r#"{{"type": "Sequence", "processors": [{}]}}"#, parts.join(","))
}

const LOWERCASE: &str = r#"{"type": "Lowercase"}"#;
const BYTE_LEVEL: &str =
    r#"{"type": "ByteLevel", "add_prefix_space": false, "trim_offsets": true, "use_regex": true}"#;

fn regex(pattern: &str, content: &str) -> String {
    let pattern = pattern.replace('\\', "\\\\");
    format!(
        r#"{{"type": "Replace", "pattern": {{"Regex": "{pattern}"}}, "content": "{content}"}}"#
    )
}

fn template(single: &str, pair: &str) -> String {
    format!(
        r#"{{"type": "TemplateProcessing", "single": [{single}], "pair": [{pair}],
            "special_tokens": {{"<eos>": {{"id": "<eos>", "ids": [5], "tokens": ["<eos>"]}}}}}}"#
    )
}

const FIRST: &str = r#"{"Sequence": {"id": "A", "type_id": 0}}"#;
const SECOND: &str = r#"{"Sequence": {"id": "B", "type_id": 0}}"#;
const EOS: &str = r#"{"SpecialToken": {"id": "<eos>", "type_id": 0}}"#;
const BOS: &str = r#"{"SpecialToken": {"id": "<bos>", "type_id": 0}}"#;

fn pieces(parts: &[&str]) -> String {
    parts.join(",")
}

fn finished(finisher: &str) -> Tokenizer {
    tokenizer("null", r#"{"type": "Whitespace"}"#, finisher, "")
}

fn ids(tokenizer: Tokenizer, token_length: usize, text: &str) -> Vec<u32> {
    let fixed = match FixedLengthTokenizer::configure(tokenizer, token_length) {
        Ok(fixed) => fixed,
        Err(rejection) => panic!("{}", rejection.message()),
    };
    let encodings = fixed.encode(&vec![text.to_owned()]).expect("text must encode");
    encodings[0].get_ids().to_vec()
}

#[test]
fn templates_must_place_every_piece() {
    let good = template(&pieces(&[FIRST, EOS]), &pieces(&[FIRST, SECOND]));
    assert_eq!(find_flaw(&finished(&good)), None);
    assert_eq!(ids(finished(&good), 4, "red block"), vec![2, 3, 5, 0]);
    let undefined = template(&pieces(&[BOS, FIRST]), &pieces(&[FIRST, SECOND]));
    assert_eq!(find_flaw(&finished(&undefined)), Some(TokenizerFlaw::PostProcessor));
    let second = template(&pieces(&[FIRST, SECOND]), &pieces(&[FIRST, SECOND]));
    assert_eq!(find_flaw(&finished(&second)), Some(TokenizerFlaw::PostProcessor));
    let pair_only = template(&pieces(&[FIRST]), &pieces(&[BOS]));
    assert_eq!(find_flaw(&finished(&pair_only)), None);
}

#[test]
fn chained_templates_must_be_given_one_or_two_sequences() {
    let three = template(&pieces(&[EOS, FIRST, EOS]), &pieces(&[FIRST, SECOND]));
    let two = template(&pieces(&[FIRST, EOS]), &pieces(&[FIRST, SECOND, EOS]));
    let one = template(&pieces(&[FIRST]), &pieces(&[FIRST, SECOND]));
    let last = finishers(&[BYTE_LEVEL, &three]);
    assert_eq!(find_flaw(&finished(&last)), None);
    assert_eq!(ids(finished(&last), 4, "red"), vec![5, 2, 5, 0]);
    let followed = finishers(&[&three, BYTE_LEVEL, &one]);
    assert_eq!(find_flaw(&finished(&followed)), Some(TokenizerFlaw::PostProcessor));
    let nested = finishers(&[&finishers(&[&one]), &two]);
    assert_eq!(find_flaw(&finished(&nested)), None);
    assert_eq!(ids(finished(&nested), 4, "red"), vec![2, 5, 0, 0]);
    let pair = finishers(&[&two, &two]);
    assert_eq!(find_flaw(&finished(&pair)), None);
    assert_eq!(ids(finished(&pair), 4, "red"), vec![2, 5, 5, 0]);
    let seconds = template(&pieces(&[SECOND]), &pieces(&[FIRST, SECOND]));
    let placed = template(&pieces(&[EOS, FIRST]), &pieces(&[FIRST, SECOND]));
    let paired = finishers(&[&placed, &seconds]);
    assert_eq!(find_flaw(&finished(&paired)), None);
    assert_eq!(ids(finished(&paired), 4, "red"), vec![5, 2, 0, 0]);
    let pair_undefined = template(&pieces(&[FIRST]), &pieces(&[FIRST, BOS]));
    assert_eq!(
        find_flaw(&finished(&finishers(&[&two, &pair_undefined]))),
        Some(TokenizerFlaw::PostProcessor)
    );
}

#[test]
fn pieces_of_no_length_are_rejected() {
    let cut = |length: usize| format!(r#"{{"type": "FixedLength", "length": {length}}}"#);
    let flaw = |splitter: &str| find_flaw(&tokenizer("null", splitter, "null", ""));
    assert_eq!(flaw(&cut(3)), None);
    assert_eq!(ids(tokenizer("null", &cut(3), "null", ""), 3, "redred"), vec![2, 2, 0]);
    assert_eq!(flaw(&cut(0)), Some(TokenizerFlaw::PreTokenizer));
    let whitespace = r#"{"type": "Whitespace"}"#;
    let nested = splitters(&[whitespace, &splitters(&[&cut(0)])]);
    assert_eq!(flaw(&nested), Some(TokenizerFlaw::PreTokenizer));
    assert_eq!(flaw(&splitters(&[whitespace, &splitters(&[&cut(1)])])), None);
}

#[test]
fn text_from_nowhere_must_not_be_rewritten() {
    let flaw = |normalizer: &str| find_flaw(&with_normalizer(normalizer));
    let spaces = regex(r"\s+", " ");
    let usual = chain(&[r#"{"type": "NFC"}"#, &spaces, LOWERCASE]);
    assert_eq!(flaw(&usual), None);
    assert_eq!(ids(with_normalizer(&usual), 3, "RED   Block"), vec![2, 3, 0]);
    let named = regex(r"(?<gap> {2,})", " ");
    assert_eq!(flaw(&chain(&[&named, LOWERCASE])), None);
    for pattern in ["^", "x*", "(?=r)", "(?<!a)", r"\b"] {
        let front = regex(pattern, "_");
        assert_eq!(flaw(&front), None);
        assert_eq!(flaw(&chain(&[&front, LOWERCASE])), Some(TokenizerFlaw::Normalizer));
        assert_eq!(flaw(&chain(&[LOWERCASE, &chain(&[&front])])), None);
        assert_eq!(flaw(&chain(&[&regex(pattern, ""), LOWERCASE])), None);
    }
    let nothing = r#"{"type": "Prepend", "prepend": ""}"#;
    let something = r#"{"type": "Prepend", "prepend": "_"}"#;
    assert_eq!(flaw(&chain(&[nothing, LOWERCASE])), Some(TokenizerFlaw::Normalizer));
    assert_eq!(flaw(&chain(&[something, LOWERCASE])), None);
    assert_eq!(flaw(&chain(&[nothing, something])), None);
    let empty_text = r#"{"type": "Replace", "pattern": {"String": ""}, "content": "_"}"#;
    let text = r#"{"type": "Replace", "pattern": {"String": "^"}, "content": "_"}"#;
    assert_eq!(flaw(&chain(&[empty_text, LOWERCASE])), Some(TokenizerFlaw::Normalizer));
    assert_eq!(flaw(&chain(&[text, LOWERCASE])), None);
    let bytes = |normalizer: &str| find_flaw(&tokenizer(normalizer, BYTE_LEVEL, "null", ""));
    assert_eq!(bytes(&regex("^", "_")), Some(TokenizerFlaw::PreTokenizer));
    assert_eq!(bytes(&spaces), None);
}

fn split(pattern: &str) -> String {
    let pattern = pattern.replace('\\', "\\\\");
    format!(
        r#"{{"type": "Split", "pattern": {{"Regex": "{pattern}"}}, "behavior": "Isolated",
            "invert": false}}"#
    )
}

/// Lose their place in some text.
const LOST: [&str; 5] = [
    r"(?:x(a|b\1))+",
    r"a|((?#)?<=\Ka)b",
    r"a|(?<=\Ka)b",
    r"(?x) a | ( ?<=\Ka) b",
    r"(?(b)c|(?:\K|\K){21}c)|",
];

/// Are used by tokenizers at large.
const USUAL: [&str; 6] = [
    r"'s|'t|'re|'ve|'m|'ll|'d| ?\p{L}+| ?\p{N}+| ?[^\s\p{L}\p{N}]+|\s+(?!\S)|\s+",
    r"(?i:'s|'t)|[^\r\n\p{L}\p{N}]?\p{L}+|\p{N}{1,3}| ?[^\s\p{L}\p{N}]+[\r\n]*|\s*[\r\n]+",
    r"(?<=\d)(?=\D)|\b\w+\b|(?<!a)b",
    r"(?<gap> {2,})|(?P<line>\n)|(?im-s)\x41",
    r"[!\#\$%\&'\(\)\*\+,\-\.:;=\?@\[\\\]\^_`\{\|\}\~]",
    "",
];

#[test]
fn expressions_must_be_ordinary() {
    for pattern in LOST {
        assert!(!check_expression(pattern));
        let flaw = find_flaw(&tokenizer("null", &split(pattern), "null", ""));
        assert_eq!(flaw, Some(TokenizerFlaw::PreTokenizer));
        let flaw = find_flaw(&with_normalizer(&regex(pattern, "_")));
        assert_eq!(flaw, Some(TokenizerFlaw::Normalizer));
    }
    for pattern in USUAL {
        assert!(check_expression(pattern));
        let splitting = tokenizer("null", &split(pattern), "null", "");
        assert_eq!(find_flaw(&splitting), None);
        assert_eq!(ids(splitting, 12, "red  b1 block\n\u{e9}\u{3000}'s a+b").len(), 12);
        let replacing = with_normalizer(&regex(pattern, "_"));
        assert_eq!(find_flaw(&replacing), None);
        assert_eq!(ids(replacing, 40, "red  b1 block\n\u{e9}\u{3000}'s a+b").len(), 40);
    }
    for pattern in [
        r"\K", r"\G", r"\k<a>", r"\1", r"\", r"\\\K", r"\\++", "(?>a)", "(?P=a)", "(?(1)a)",
        "(?#a)", "(?", "(?i", "(?ix:a)", "(?P", "a++", "a*+", "a?+", "a{2}+", "a{2,}+", "a+?+",
    ] {
        assert!(!check_expression(pattern));
    }
    for pattern in [
        "(", "+", r"\p{L}+", "{+", "a}+", "(a)+", "[+]+", r"\++", r"\(?x\)?", r"\\K", r"\\1",
    ] {
        assert!(check_expression(pattern));
    }
}

#[test]
fn matches_of_nothing_are_told() {
    for pattern in ["", "x*", "^", "$", "(?m)$", r"\bx", "x(?=y)", "(?<!x)y", r"x\>", "x|"] {
        assert!(expression_may_match_nothing(pattern));
    }
    for pattern in ["x", r"\s+", " {2,}", "^x", "x$", "(?<gap>x)", "(?:x|y)+", r"\z\s"] {
        assert!(!expression_may_match_nothing(pattern));
    }
    let hidden = chain(&[&regex("((?#)?=b)", "x"), LOWERCASE]);
    assert_eq!(find_flaw(&with_normalizer(&hidden)), Some(TokenizerFlaw::Normalizer));
}

#[test]
fn splits_are_judged_by_what_they_compile() {
    let flaw = |splitter: &str| find_flaw(&tokenizer("null", splitter, "null", ""));
    let text = split(r"a|(?<=\Ka)b").replace("Regex", "String");
    assert_eq!(flaw(&text), None);
    let mut harmless = Split::new(
        SplitPattern::Regex("a".to_owned()),
        SplitDelimiterBehavior::Isolated,
        false,
    )
    .expect("pattern must compile");
    harmless.regex = SysRegex::new(r"a|(?<=\Ka)b").expect("pattern must compile");
    let mut changed = tokenizer("null", "null", "null", "");
    changed.with_pre_tokenizer(Some(PreTokenizerWrapper::Split(harmless)));
    assert_eq!(find_flaw(&changed), Some(TokenizerFlaw::PreTokenizer));
}

fn added(content: &str, lstrip: bool, rstrip: bool, normalized: bool) -> String {
    format!(
        r#"{{"id": 7, "content": "{content}", "single_word": false, "lstrip": {lstrip},
            "rstrip": {rstrip}, "normalized": {normalized}, "special": false}}"#
    )
}

fn with_added(normalizer: &str, tokens: &[String]) -> Tokenizer {
    tokenizer(normalizer, r#"{"type": "Whitespace"}"#, "null", &tokens.join(","))
}

#[test]
fn tokens_must_not_be_overrun_by_the_white_space_of_others() {
    let flaw = |tokens: &[String]| find_flaw(&with_added("null", tokens));
    let taker = added("<x>", false, true, false);
    for content in [" ", "\\u3000", "y"] {
        assert_eq!(
            flaw(&[taker.clone(), added(content, true, false, false)]),
            Some(TokenizerFlaw::AddedTokens)
        );
        assert_eq!(flaw(&[taker.clone(), added(content, false, false, false)]), None);
        assert_eq!(flaw(&[taker.clone(), added(content, true, true, false)]), None);
        assert_eq!(flaw(&[added(content, true, false, false)]), None);
    }
    let apart = with_added("null", &[taker, added(" ", true, true, false)]);
    assert_eq!(ids(apart, 4, "<x>   red"), vec![6, 2, 0, 0]);
}

#[test]
fn tokens_are_judged_without_their_normalizer() {
    let blanks = r#"{"type": "Replace", "pattern": {"String": "y"}, "content": " "}"#;
    let turned = [added("<x>", false, true, true), added("y", true, false, true)];
    let mut stale = with_added(blanks, &turned);
    assert_eq!(find_flaw(&stale), Some(TokenizerFlaw::AddedTokens));
    stale.with_normalizer(None::<tokenizers::normalizers::NormalizerWrapper>);
    assert_eq!(find_flaw(&stale), Some(TokenizerFlaw::AddedTokens));
}

#[test]
fn tokens_must_not_vanish_when_they_are_normalized() {
    let strip = r#"{"type": "Strip", "strip_left": true, "strip_right": true}"#;
    let flaw = |normalized: bool| {
        find_flaw(&with_added(strip, &[added("\\n", false, false, normalized)]))
    };
    assert_eq!(flaw(true), Some(TokenizerFlaw::AddedTokens));
    assert_eq!(flaw(false), None);
    assert_eq!(find_flaw(&with_added("null", &[added("\\n", false, false, true)])), None);
    let twice = [added("\\n", false, false, true), added("\\n", false, false, false)];
    assert_eq!(find_flaw(&with_added(strip, &twice)), Some(TokenizerFlaw::AddedTokens));
    let mut replaced = with_added(strip, &[added("\\n", false, false, true)]);
    replaced.with_normalizer(None::<tokenizers::normalizers::NormalizerWrapper>);
    assert_eq!(find_flaw(&replaced), Some(TokenizerFlaw::AddedTokens));
    let whole = added("\\u0001\\u0001", false, false, false);
    let hidden = [added("\\n", false, false, true), whole];
    assert_eq!(find_flaw(&with_added(strip, &hidden)), Some(TokenizerFlaw::AddedTokens));
}

fn table(units: &[(usize, u32)], count: usize, texts: &str) -> Vec<u8> {
    let mut words = vec![0_u32; count];
    for (index, unit) in units {
        words[*index] = *unit;
    }
    let mut bytes = ((count * 4) as u32).to_le_bytes().to_vec();
    for word in words {
        bytes.extend_from_slice(&word.to_le_bytes());
    }
    bytes.extend_from_slice(texts.as_bytes());
    bytes
}

/// Leads from the byte `a` to the text at `value`.
fn rewriting(value: u32, texts: &str) -> Vec<u8> {
    let unit = (0x161 << 10) | 0x100 | 0x61;
    table(&[(0x61, unit), (0x100, 0x8000_0000 | value)], 512, texts)
}

/// Leads from the byte `index` back to the start.
fn looping(index: usize) -> u32 {
    let byte = index as u32;
    byte | (byte << 10)
}

fn precompiled(bytes: &[u8]) -> String {
    let text = STANDARD.encode(bytes);
    format!(r#"{{"type": "Precompiled", "precompiled_charsmap": "{text}"}}"#)
}

#[test]
fn tables_must_not_be_left() {
    assert!(check_charsmap(&table(&[], 256, "")));
    assert!(!check_charsmap(&table(&[], 255, "")));
    assert!(!check_charsmap(&table(&[], 0, "")));
    assert!(!check_charsmap(&vec![0, 4]));
    assert!(!check_charsmap(&vec![0, 4, 0, 0, 0, 0, 0, 0]));
    assert!(check_charsmap(&rewriting(0, "b\0")));
    assert!(check_charsmap(&rewriting(2, "b\0")));
    assert!(!check_charsmap(&rewriting(3, "b\0")));
    let looped: Vec<(usize, u32)> = (0..256).map(|index| (index, looping(index))).collect();
    assert!(check_charsmap(&table(&looped, 256, "")));
    assert!(check_charsmap(&rewriting(0, "é\0")));
    assert!(!check_charsmap(&rewriting(1, "é\0")));
    let far = (0x361 << 10) | 0x61;
    assert!(!check_charsmap(&table(&[(0x61, far)], 512, "")));
    let good = precompiled(&rewriting(0, "b\0"));
    assert_eq!(find_flaw(&with_normalizer(&good)), None);
    assert_eq!(ids(with_normalizer(&good), 2, "a"), vec![4, 0]);
    assert_eq!(
        find_flaw(&with_normalizer(&precompiled(&rewriting(3, "b\0")))),
        Some(TokenizerFlaw::Normalizer)
    );
    let loose = chain(&[&regex("^", "_"), &good]);
    assert_eq!(find_flaw(&with_normalizer(&loose)), Some(TokenizerFlaw::Normalizer));
}

#[test]
fn unsound_tokenizers_are_not_configured() {
    let unsound = tokenizer("null", r#"{"type": "FixedLength", "length": 0}"#, "null", "");
    let rejection = FixedLengthTokenizer::configure(unsound, 4).err().unwrap();
    assert_eq!(
        rejection,
        TokenizerRejection::Unsound {
            flaw: TokenizerFlaw::PreTokenizer
        }
    );
    assert_eq!(
        rejection.message(),
        "SigLIP 2 tokenizer cannot encode every text because of its pre-tokenizer"
    );
    for (flaw, part) in [
        (TokenizerFlaw::Normalizer, "normalizer"),
        (TokenizerFlaw::PostProcessor, "post-processor"),
        (TokenizerFlaw::AddedTokens, "added tokens"),
    ] {
        assert!(TokenizerRejection::Unsound { flaw }.message().ends_with(part));
    }
}
