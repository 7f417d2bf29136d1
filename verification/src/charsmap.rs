//! The tables of a precompiled normalizer: a trie of 32-bit units over the
//! bytes of a text, then the texts that its leaves point into.
use vstd::prelude::*;

verus! {

/// How many bytes of a text are looked up at once.
pub const LONGEST_KEY: u8 = 5;

/// The number that four bytes of a table denote, least significant first.
pub open spec fn word_at(table: Seq<u8>, at: int) -> u32 {
    (table[at] + 256 * table[at + 1] + 65536 * table[at + 2] + 16777216 * table[at + 3]) as u32
}

/// How many units the trie of a table has.
pub open spec fn unit_count(table: Seq<u8>) -> u32 {
    word_at(table, 0) / 4
}

/// Unit `index` of the trie.
pub open spec fn unit_at(table: Seq<u8>, index: u32) -> u32 {
    word_at(table, 4 + 4 * index)
}

/// The byte that leads to a unit.
pub open spec fn label(unit: u32) -> u32 {
    unit & 0x8000_00ff
}

/// How far a unit's children are.
pub open spec fn offset(unit: u32) -> u32 {
    (unit >> 10) << ((unit & 0x200) >> 6)
}

/// Whether a key ends at a unit.
pub open spec fn has_leaf(unit: u32) -> bool {
    unit & 0x100 != 0
}

/// Where the text of a leaf starts.
pub open spec fn leaf_value(unit: u32) -> u32 {
    unit & 0x7fff_ffff
}

/// Where the texts of a table start.
pub open spec fn texts_start(table: Seq<u8>) -> int {
    4 + 4 * unit_count(table)
}

/// That a leaf points at a character of the texts, or behind the last.
pub open spec fn points_at_text(table: Seq<u8>, value: u32) -> bool {
    let at = texts_start(table) + value;
    at == table.len() || at < table.len() && !(0x80 <= table[at] <= 0xbf)
}

/// That `byte`, looked up from `base`, leads to a unit of the table, and to the
/// text of the key that ends there, if one does.
pub open spec fn lands_inside(table: Seq<u8>, base: u32, byte: u32) -> bool {
    let at = base ^ byte;
    &&& at < unit_count(table)
    &&& leads_on(table, base, byte) && has_leaf(unit_at(table, at)) ==> {
        &&& children(table, at) < unit_count(table)
        &&& points_at_text(table, leaf_value(unit_at(table, children(table, at))))
    }
}

/// That a key goes on with `byte` from `base`.
pub open spec fn leads_on(table: Seq<u8>, base: u32, byte: u32) -> bool {
    label(unit_at(table, base ^ byte)) == byte
}

/// Where the children of the unit at `at` are looked up from.
pub open spec fn children(table: Seq<u8>, at: u32) -> u32 {
    at ^ offset(unit_at(table, at))
}

/// That looking any `steps` bytes up from `base` stays inside the table.
pub open spec fn walks(table: Seq<u8>, base: u32, steps: nat) -> bool
    decreases steps,
{
    steps == 0 || {
        &&& forall|byte: u32| 1 <= byte <= 255 ==> #[trigger] lands_inside(table, base, byte)
        &&& forall|byte: u32|
            1 <= byte <= 255 && #[trigger] leads_on(table, base, byte) ==> walks(
                table,
                children(table, base ^ byte),
                (steps - 1) as nat,
            )
    }
}

/// That a table is long enough for its trie, and that no text leads out of it.
pub open spec fn is_consistent(table: Seq<u8>) -> bool {
    &&& table.len() >= 4
    &&& table.len() >= texts_start(table)
    &&& unit_count(table) > 0
    &&& walks(table, offset(unit_at(table, 0)), LONGEST_KEY as nat)
}

fn read_word(table: &Vec<u8>, at: usize) -> (word: u32)
    requires
        at + 4 <= table@.len(),
    ensures
        word == word_at(table@, at as int),
{
    assert(table@.len() == table.len());
    table[at] as u32 + 256 * table[at + 1] as u32 + 65536 * table[at + 2] as u32 + 16777216
        * table[at + 3] as u32
}

fn read_unit(table: &Vec<u8>, index: u32) -> (unit: u32)
    requires
        table@.len() >= texts_start(table@),
        index < unit_count(table@),
    ensures
        unit == unit_at(table@, index),
{
    read_word(table, 4 + 4 * index as usize)
}

fn child_offset(unit: u32) -> (distance: u32)
    ensures
        distance == offset(unit),
{
    assert((unit & 0x200) >> 6 <= 8) by (bit_vector);
    (unit >> 10) << ((unit & 0x200) >> 6)
}

fn check_leaf(table: &Vec<u8>, count: u32, at: u32) -> (sound: bool)
    requires
        count == unit_count(table@),
        table@.len() >= texts_start(table@),
    ensures
        sound == (at < count && points_at_text(table@, leaf_value(unit_at(table@, at)))),
{
    if at >= count {
        return false;
    }
    let value: usize = (read_unit(table, at) & 0x7fff_ffff) as usize;
    assert(table@.len() == table.len());
    let texts: usize = 4 + 4 * count as usize;
    if value > table.len() - texts {
        false
    } else if value == table.len() - texts {
        true
    } else {
        let byte: u8 = table[texts + value];
        byte < 0x80 || byte > 0xbf
    }
}

/// That as many bytes as `walked` says of a base, any at all, can be looked up
/// from it.
spec fn are_walked(table: Seq<u8>, walked: Seq<u8>) -> bool {
    forall|base: u32|
        base < walked.len() ==> walks(table, base, #[trigger] walked[base as int] as nat)
}

/// Where many bytes can be looked up, fewer can.
proof fn lemma_shorter_walk(table: Seq<u8>, base: u32, steps: nat, fewer: nat)
    requires
        fewer <= steps,
        walks(table, base, steps),
    ensures
        walks(table, base, fewer),
    decreases steps,
{
    if fewer > 0 {
        assert forall|byte: u32| 1 <= byte <= 255 && #[trigger] leads_on(
            table,
            base,
            byte,
        ) implies walks(table, children(table, base ^ byte), (fewer - 1) as nat) by {
            lemma_shorter_walk(
                table,
                children(table, base ^ byte),
                (steps - 1) as nat,
                (fewer - 1) as nat,
            );
        }
    }
}

/// Whether looking any `steps` bytes up from `base` stays inside the table.
/// `walked` remembers what was looked up before, so that no base is gone through
/// again for as many bytes or fewer.
fn check_walks(table: &Vec<u8>, count: u32, base: u32, steps: u8, walked: &mut Vec<u8>) -> (safe:
    bool)
    requires
        count == unit_count(table@),
        table@.len() >= texts_start(table@),
        old(walked)@.len() == count + 1,
        are_walked(table@, old(walked)@),
    ensures
        safe == walks(table@, base, steps as nat),
        final(walked)@.len() == count + 1,
        are_walked(table@, final(walked)@),
    decreases steps,
{
    if steps == 0 {
        return true;
    }
    if base > count {
        assert(base ^ 1 >= count) by (bit_vector)
            requires
                base > count,
        ;
        assert(!lands_inside(table@, base, 1));
        return false;
    }
    if walked[base as usize] >= steps {
        proof {
            lemma_shorter_walk(
                table@,
                base,
                walked@[base as int] as nat,
                steps as nat,
            );
        }
        return true;
    }
    let mut byte: u32 = 1;
    while byte <= 255
        invariant
            count == unit_count(table@),
            table@.len() >= texts_start(table@),
            steps > 0,
            1 <= byte <= 256,
            walked@.len() == count + 1,
            are_walked(table@, walked@),
            forall|b: u32| 1 <= b < byte ==> #[trigger] lands_inside(table@, base, b),
            forall|b: u32|
                1 <= b < byte && #[trigger] leads_on(table@, base, b) ==> walks(
                    table@,
                    children(table@, base ^ b),
                    (steps - 1) as nat,
                ),
        decreases 256 - byte,
    {
        let at: u32 = base ^ byte;
        if at >= count {
            assert(!lands_inside(table@, base, byte));
            return false;
        }
        let unit: u32 = read_unit(table, at);
        let next: u32 = at ^ child_offset(unit);
        let reached: bool = unit & 0x8000_00ff == byte;
        assert(reached == leads_on(table@, base, byte));
        if reached && unit & 0x100 != 0 && !check_leaf(table, count, next) {
            assert(!lands_inside(table@, base, byte));
            return false;
        }
        assert(lands_inside(table@, base, byte));
        if reached && !check_walks(table, count, next, steps - 1, walked) {
            return false;
        }
        byte += 1;
    }
    assert(walks(table@, base, steps as nat));
    walked[base as usize] = steps;
    true
}

/// Whether looking texts up stays inside a table.
pub fn check_charsmap(table: &Vec<u8>) -> (consistent: bool)
    ensures
        consistent == is_consistent(table@),
{
    if table.len() < 4 {
        return false;
    }
    let count: u32 = read_word(table, 0) / 4;
    if (table.len() - 4) / 4 < count as usize || count == 0 {
        return false;
    }
    let mut walked: Vec<u8> = Vec::new();
    while walked.len() <= count as usize
        invariant
            count < u32::MAX,
            walked@.len() <= count + 1,
            forall|i: int| 0 <= i < walked@.len() ==> #[trigger] walked@[i] == 0,
        decreases count + 1 - walked@.len(),
    {
        walked.push(0);
    }
    check_walks(table, count, child_offset(read_unit(table, 0)), LONGEST_KEY, &mut walked)
}

/// Where the bytes after `key` are looked up from, if `key` leads anywhere: at
/// first from the children of the root, and from the children of the unit that a
/// byte leads to once it is read.
pub open spec fn base_after(table: Seq<u8>, key: Seq<u8>) -> Option<u32>
    decreases key.len(),
{
    if key.len() == 0 {
        Some(offset(unit_at(table, 0)))
    } else {
        match base_after(table, key.drop_last()) {
            Some(base) if label(unit_at(table, base ^ (key.last() as u32))) == key.last() => Some(
                (base ^ (key.last() as u32)) ^ offset(
                    unit_at(table, base ^ (key.last() as u32)),
                ),
            ),
            _ => None,
        }
    }
}

/// That a key holds no zero byte, with which texts end.
pub open spec fn has_no_end(key: Seq<u8>) -> bool {
    forall|i: int| 0 <= i < key.len() ==> #[trigger] key[i] != 0
}

/// That reading `byte` from `base` finds a unit, and the text of a key that ends
/// there: a leaf among the units, which points at the start of a character of the
/// texts or at their end.
pub open spec fn finds_unit_and_text(table: Seq<u8>, base: u32, byte: u8) -> bool {
    let count = word_at(table, 0) / 4;
    let at = base ^ (byte as u32);
    let unit = unit_at(table, at);
    let leaf = at ^ offset(unit);
    let text = 4 + 4 * count + leaf_value(unit_at(table, leaf));
    &&& at < count
    &&& label(unit) == byte && has_leaf(unit) ==> {
        &&& leaf < count
        &&& text <= table.len()
        &&& text < table.len() ==> !(0x80 <= table[text] < 0xc0)
    }
}

/// A table is consistent exactly where it holds a trie and no key of up to as many
/// bytes as are looked up at once leads out of it: every byte that is read finds a
/// unit, and the text of a key that ends there.
pub proof fn no_key_leads_out_of_a_consistent_table(table: &Vec<u8>, consistent: bool)
    requires
        call_ensures(check_charsmap, (table,), consistent),
    ensures
        consistent <==> {
            &&& table@.len() >= 4
            &&& word_at(table@, 0) / 4 > 0
            &&& table@.len() >= 4 + 4 * (word_at(table@, 0) / 4)
            &&& forall|key: Seq<u8>, byte: u8|
                #![trigger base_after(table@, key), finds_unit_and_text(table@, base_after(table@, key)->0, byte)]
                key.len() < 5 && has_no_end(key) && byte != 0 && base_after(table@, key) is Some
                    ==> finds_unit_and_text(table@, base_after(table@, key)->0, byte)
        },
{
    let bytes = table@;
    if bytes.len() >= 4 && bytes.len() >= texts_start(bytes) && unit_count(bytes) > 0 {
        let root = Seq::<u8>::empty();
        assert(has_no_end(root));
        if consistent {
            assert forall|key: Seq<u8>, byte: u8|
                #![trigger base_after(bytes, key), finds_unit_and_text(bytes, base_after(bytes, key)->0, byte)]
                key.len() < 5 && has_no_end(key) && byte != 0 && base_after(
                    bytes,
                    key,
                ) is Some implies finds_unit_and_text(bytes, base_after(bytes, key)->0, byte) by {
                lemma_walks_along(bytes, key);
                assert(lands_inside(bytes, base_after(bytes, key)->0, byte as u32));
            }
        } else {
            lemma_leads_out(bytes, root, 5);
        }
    }
}

/// Where a table is consistent, as many bytes can be looked up behind a key as are
/// left of those that are looked up at once.
proof fn lemma_walks_along(table: Seq<u8>, key: Seq<u8>)
    requires
        walks(table, offset(unit_at(table, 0)), 5),
        key.len() <= 5,
        has_no_end(key),
        base_after(table, key) is Some,
    ensures
        walks(table, base_after(table, key)->0, (5 - key.len()) as nat),
    decreases key.len(),
{
    if key.len() > 0 {
        let front = key.drop_last();
        assert forall|i: int| 0 <= i < front.len() implies #[trigger] front[i] != 0 by {
            assert(key[i] != 0);
        }
        lemma_walks_along(table, front);
        let base = base_after(table, front)->0;
        let byte = key.last() as u32;
        assert(key[key.len() - 1] != 0);
        assert(leads_on(table, base, byte));
        assert(children(table, base ^ byte) == base_after(table, key)->0);
    }
}

/// Where not all bytes can be looked up behind a key, some key from there on leads
/// out of the table.
proof fn lemma_leads_out(table: Seq<u8>, key: Seq<u8>, steps: nat)
    requires
        has_no_end(key),
        key.len() + steps == 5,
        base_after(table, key) is Some,
        !walks(table, base_after(table, key)->0, steps),
    ensures
        exists|longer: Seq<u8>, byte: u8|
            #![trigger base_after(table, longer), finds_unit_and_text(table, base_after(table, longer)->0, byte)]
            longer.len() < 5 && has_no_end(longer) && byte != 0 && base_after(table, longer) is Some
                && !finds_unit_and_text(table, base_after(table, longer)->0, byte),
    decreases steps,
{
    let base = base_after(table, key)->0;
    if exists|byte: u32| 1 <= byte <= 255 && !#[trigger] lands_inside(table, base, byte) {
        let byte = choose|byte: u32| 1 <= byte <= 255 && !#[trigger] lands_inside(table, base, byte);
        assert(!finds_unit_and_text(table, base_after(table, key)->0, byte as u8));
    } else {
        let byte = choose|byte: u32|
            1 <= byte <= 255 && #[trigger] leads_on(table, base, byte) && !walks(
                table,
                children(table, base ^ byte),
                (steps - 1) as nat,
            );
        let longer = key.push(byte as u8);
        assert(longer.drop_last() =~= key);
        assert forall|i: int| 0 <= i < longer.len() implies #[trigger] longer[i] != 0 by {
            if i < key.len() {
                assert(key[i] != 0);
            }
        }
        assert(base_after(table, longer) == Some(children(table, base ^ byte)));
        lemma_leads_out(table, longer, (steps - 1) as nat);
    }
}

/// Four bytes are a number, least significant first, and the units stand one after
/// the other behind the first number.
pub proof fn units_are_little_endian(table: Seq<u8>, index: u32)
    requires
        4 + 4 * index + 4 <= table.len(),
    ensures
        unit_at(table, index) == table[4 + 4 * index] + 256 * table[4 + 4 * index + 1] + 65536
            * table[4 + 4 * index + 2] + 16777216 * table[4 + 4 * index + 3],
        word_at(table, 0) == table[0] + 256 * table[1] + 65536 * table[2] + 16777216 * table[3],
{
}

/// The bits of a unit: the byte that leads to it and whether it is a leaf, whether
/// a key ends at it, how far its children are, in steps of 1 or of 256, and where
/// the text of a leaf starts.
pub proof fn units_are_read_bit_by_bit(unit: u32)
    ensures
        unit < 0x8000_0000 ==> label(unit) == unit % 256,
        unit >= 0x8000_0000 ==> label(unit) >= 256,
        has_leaf(unit) <==> unit / 256 % 2 == 1,
        unit / 512 % 2 == 0 ==> offset(unit) == unit / 1024,
        unit / 512 % 2 == 1 ==> offset(unit) == unit / 1024 * 256 % 0x1_0000_0000,
        leaf_value(unit) == unit % 0x8000_0000,
{
    assert(unit < 0x8000_0000 ==> unit & 0x8000_00ff == unit % 256) by (bit_vector);
    assert(unit >= 0x8000_0000 ==> unit & 0x8000_00ff >= 256) by (bit_vector);
    assert((unit & 0x100 != 0) <==> (unit / 256 % 2 == 1)) by (bit_vector);
    assert(unit / 512 % 2 == 0 ==> (unit >> 10) << ((unit & 0x200) >> 6) == unit / 1024)
        by (bit_vector);
    assert(unit / 512 % 2 == 1 ==> (unit >> 10) << ((unit & 0x200) >> 6) == ((unit / 1024) as u64
        * 256 % 0x1_0000_0000) as u32) by (bit_vector);
    assert(unit & 0x7fff_ffff == unit % 0x8000_0000) by (bit_vector);
}

} // verus!
