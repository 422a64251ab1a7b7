//! Collecting the extracted frames and putting them in playback order.
//!
//! The extraction tool numbers its frames with zero-padded indices, so the
//! order of the file names, byte by byte, is the order of the frames in time.

use crate::error::ConversionError;
use vstd::prelude::*;
use vstd::utf8::encode_utf8;

verus! {

/// Number of digits in the index of a frame file.
pub const INDEX_DIGITS: usize = 5;

/// `a` sorts strictly before `b`: at the first place where they differ `a` has
/// the smaller byte, or `a` ends there and `b` goes on.
pub open spec fn precedes(a: Seq<u8>, b: Seq<u8>) -> bool
    decreases a.len(),
{
    if b.len() == 0 {
        false
    } else if a.len() == 0 {
        true
    } else if a[0] != b[0] {
        a[0] < b[0]
    } else {
        precedes(a.drop_first(), b.drop_first())
    }
}

/// No name in the list sorts strictly before a name that stands earlier.
pub open spec fn ordered(names: Seq<Seq<u8>>) -> bool {
    forall|i: int, j: int| 0 <= i < j < names.len() ==> !precedes(names[j], names[i])
}

/// The texts of a list of strings.
pub open spec fn texts(names: Seq<String>) -> Seq<Seq<char>> {
    names.map_values(|name: String| name@)
}

/// The bytes by which a list of strings is ordered: the UTF-8 form of each.
pub open spec fn sort_keys(names: Seq<String>) -> Seq<Seq<u8>> {
    names.map_values(|name: String| encode_utf8(name@))
}

/// The index of a frame as it stands in the frame's file name: `digits`
/// decimal digits, padded with zeros on the left.
pub open spec fn padded_index(index: nat, digits: nat) -> Seq<u8>
    decreases digits,
{
    if digits == 0 {
        Seq::empty()
    } else {
        padded_index(index / 10, (digits - 1) as nat).push((0x30 + index % 10) as u8)
    }
}

/// The smallest number that `digits` decimal digits cannot hold.
pub open spec fn index_limit(digits: nat) -> nat
    decreases digits,
{
    if digits == 0 {
        1
    } else {
        10 * index_limit((digits - 1) as nat)
    }
}

/// The bytes of `/frame_`, which stand between the directory and the index.
pub open spec fn frame_stem() -> Seq<u8> {
    seq![0x2fu8, 0x66, 0x72, 0x61, 0x6d, 0x65, 0x5f]
}

/// The bytes of `.png`, which end every frame file name.
pub open spec fn frame_extension() -> Seq<u8> {
    seq![0x2eu8, 0x70, 0x6e, 0x67]
}

/// The path, as bytes, of the frame with the given index in `directory`.
pub open spec fn frame_file(directory: Seq<u8>, index: nat) -> Seq<u8> {
    directory + frame_stem() + padded_index(index, INDEX_DIGITS as nat) + frame_extension()
}

/// Whether `a` sorts strictly before `b`, by the bytes of their UTF-8 forms.
pub fn sorts_before(a: &str, b: &str) -> (before: bool)
    ensures
        before == precedes(encode_utf8(a@), encode_utf8(b@)),
{
    let x = a.as_bytes();
    let y = b.as_bytes();
    let mut i: usize = 0;
    assert(x@.skip(0) =~= x@ && y@.skip(0) =~= y@);
    while i < x.len() && i < y.len()
        invariant
            i <= x.len(),
            i <= y.len(),
            x@ == encode_utf8(a@),
            y@ == encode_utf8(b@),
            precedes(x@, y@) == precedes(x@.skip(i as int), y@.skip(i as int)),
        decreases x.len() - i,
    {
        assert(x@.skip(i as int).drop_first() =~= x@.skip(i + 1));
        assert(y@.skip(i as int).drop_first() =~= y@.skip(i + 1));
        if x[i] != y[i] {
            assert(x@.skip(i as int)[0] == x@[i as int] && y@.skip(i as int)[0] == y@[i as int]);
            return x[i] < y[i];
        }
        i += 1;
    }
    i < y.len()
}

/// The place at which `name` goes into the ordered list `frames`: behind every
/// name that does not sort after it.
fn insertion_point(frames: &Vec<String>, name: &String) -> (position: usize)
    ensures
        position <= frames.len(),
        forall|i: int|
            0 <= i < position ==> !precedes(encode_utf8(name@), #[trigger] sort_keys(frames@)[i]),
        position < frames.len() ==> precedes(
            encode_utf8(name@),
            sort_keys(frames@)[position as int],
        ),
{
    let mut position: usize = 0;
    while position < frames.len()
        invariant
            position <= frames.len(),
            forall|i: int|
                0 <= i < position ==> !precedes(
                    encode_utf8(name@),
                    #[trigger] sort_keys(frames@)[i],
                ),
        decreases frames.len() - position,
    {
        if sorts_before(name.as_str(), frames[position].as_str()) {
            return position;
        }
        position += 1;
    }
    position
}

/// Puts the frame files that were found into playback order. A run that
/// produced no frame at all fails with [`ConversionError::EmptyResult`].
///
/// The result holds exactly the names that were found, ordered by their bytes.
pub fn collect_frames(found: Vec<String>) -> (result: Result<Vec<String>, ConversionError>)
    ensures
        result is Err <==> found.len() == 0,
        result matches Err(error) ==> error is EmptyResult,
        result matches Ok(frames) ==> {
            &&& frames.len() == found.len()
            &&& ordered(sort_keys(frames@))
            &&& texts(frames@).to_multiset() == texts(found@).to_multiset()
        },
{
    if found.len() == 0 {
        return Err(ConversionError::EmptyResult);
    }
    let mut frames: Vec<String> = Vec::new();
    let mut taken: usize = 0;
    assert(texts(frames@) =~= texts(found@.take(0)));
    while taken < found.len()
        invariant
            taken <= found.len(),
            frames.len() == taken,
            ordered(sort_keys(frames@)),
            texts(frames@).to_multiset() == texts(found@.take(taken as int)).to_multiset(),
        decreases found.len() - taken,
    {
        let name = found[taken].clone();
        let position = insertion_point(&frames, &name);
        let ghost before = frames@;
        frames.insert(position, name);
        proof {
            let key = encode_utf8(name@);
            assert(sort_keys(frames@) =~= sort_keys(before).insert(position as int, key));
            ordered_after_insertion(sort_keys(before), position as int, key);
            assert(texts(frames@) =~= texts(before).insert(position as int, name@));
            vstd::seq_lib::to_multiset_insert(texts(before), position as int, name@);
            assert(texts(found@.take(taken + 1)) =~= texts(found@.take(taken as int)).push(
                name@,
            ));
            vstd::seq_lib::to_multiset_build(texts(found@.take(taken as int)), name@);
        }
        taken += 1;
    }
    assert(found@.take(taken as int) =~= found@);
    Ok(frames)
}

/// Equal bytes at the front of two names do not change their order.
pub proof fn precedes_skips_common_prefix(prefix: Seq<u8>, a: Seq<u8>, b: Seq<u8>)
    ensures
        precedes(prefix + a, prefix + b) == precedes(a, b),
    decreases prefix.len(),
{
    if prefix.len() == 0 {
        assert(prefix + a =~= a);
        assert(prefix + b =~= b);
    } else {
        let rest = prefix.drop_first();
        assert((prefix + a).drop_first() =~= rest + a);
        assert((prefix + b).drop_first() =~= rest + b);
        precedes_skips_common_prefix(rest, a, b);
    }
}

/// Of two names of equal length, the one that sorts first still sorts first
/// whatever is written behind each of them.
pub proof fn precedes_ignores_what_follows(a: Seq<u8>, b: Seq<u8>, x: Seq<u8>, y: Seq<u8>)
    requires
        a.len() == b.len(),
        precedes(a, b),
    ensures
        precedes(a + x, b + y),
    decreases a.len(),
{
    if a.len() > 0 {
        assert((a + x)[0] == a[0] && (b + y)[0] == b[0]);
        if a[0] == b[0] {
            assert((a + x).drop_first() =~= a.drop_first() + x);
            assert((b + y).drop_first() =~= b.drop_first() + y);
            precedes_ignores_what_follows(a.drop_first(), b.drop_first(), x, y);
        }
    }
}

/// No name sorts before itself.
pub proof fn precedes_is_irreflexive(a: Seq<u8>)
    ensures
        !precedes(a, a),
    decreases a.len(),
{
    if a.len() > 0 {
        precedes_is_irreflexive(a.drop_first());
    }
}

/// Two names never sort before each other.
pub proof fn precedes_is_asymmetric(a: Seq<u8>, b: Seq<u8>)
    requires
        precedes(a, b),
    ensures
        !precedes(b, a),
    decreases a.len(),
{
    if a.len() > 0 && b.len() > 0 && a[0] == b[0] {
        precedes_is_asymmetric(a.drop_first(), b.drop_first());
    }
}

/// Sorting before is transitive.
pub proof fn precedes_is_transitive(a: Seq<u8>, b: Seq<u8>, c: Seq<u8>)
    requires
        precedes(a, b),
        precedes(b, c),
    ensures
        precedes(a, c),
    decreases a.len(),
{
    if a.len() > 0 && b.len() > 0 && c.len() > 0 && a[0] == b[0] && b[0] == c[0] {
        precedes_is_transitive(a.drop_first(), b.drop_first(), c.drop_first());
    }
}

/// An ordered list stays ordered when a name goes in behind the names that do
/// not sort after it and in front of one that does.
proof fn ordered_after_insertion(names: Seq<Seq<u8>>, position: int, key: Seq<u8>)
    requires
        ordered(names),
        0 <= position <= names.len(),
        forall|i: int| 0 <= i < position ==> !precedes(key, #[trigger] names[i]),
        position < names.len() ==> precedes(key, names[position]),
    ensures
        ordered(names.insert(position, key)),
{
    let grown = names.insert(position, key);
    assert forall|i: int, j: int| 0 <= i < j < grown.len() implies !precedes(
        grown[j],
        grown[i],
    ) by {
        if j == position {
            assert(grown[i] == names[i]);
        } else if i == position {
            assert(grown[j] == names[j - 1]);
            if precedes(names[j - 1], key) {
                precedes_is_transitive(names[j - 1], key, names[position]);
                assert(j - 1 == position || !precedes(names[j - 1], names[position]));
                precedes_is_irreflexive(names[position]);
            }
        } else {
            let from_i = if i < position { i } else { i - 1 };
            let from_j = if j < position { j } else { j - 1 };
            assert(grown[i] == names[from_i] && grown[j] == names[from_j]);
        }
    }
}

/// An index written with a given number of digits has that many bytes.
pub proof fn padded_index_has_its_digits(index: nat, digits: nat)
    ensures
        padded_index(index, digits).len() == digits,
    decreases digits,
{
    if digits > 0 {
        padded_index_has_its_digits(index / 10, (digits - 1) as nat);
    }
}

/// Written with the same number of digits, the smaller of two indices sorts
/// first.
pub proof fn padded_indices_sort_by_value(smaller: nat, larger: nat, digits: nat)
    requires
        smaller < larger < index_limit(digits),
    ensures
        precedes(padded_index(smaller, digits), padded_index(larger, digits)),
    decreases digits,
{
    if digits > 0 {
        let fewer = (digits - 1) as nat;
        let a = padded_index(smaller / 10, fewer);
        let b = padded_index(larger / 10, fewer);
        let last_a = seq![(0x30 + smaller % 10) as u8];
        let last_b = seq![(0x30 + larger % 10) as u8];
        assert(padded_index(smaller, digits) =~= a + last_a);
        assert(padded_index(larger, digits) =~= b + last_b);
        padded_index_has_its_digits(smaller / 10, fewer);
        padded_index_has_its_digits(larger / 10, fewer);
        if smaller / 10 < larger / 10 {
            padded_indices_sort_by_value(smaller / 10, larger / 10, fewer);
            precedes_ignores_what_follows(a, b, last_a, last_b);
        } else {
            assert(smaller / 10 == larger / 10);
            assert(smaller % 10 < larger % 10);
            precedes_skips_common_prefix(a, last_a, last_b);
            assert(last_a.drop_first().len() == 0);
        }
    }
}

/// In one directory the frame with the smaller index has the file name that
/// sorts first.
pub proof fn frame_files_sort_by_index(directory: Seq<u8>, smaller: nat, larger: nat)
    requires
        smaller < larger < index_limit(INDEX_DIGITS as nat),
    ensures
        precedes(frame_file(directory, smaller), frame_file(directory, larger)),
{
    let digits = INDEX_DIGITS as nat;
    let a = padded_index(smaller, digits);
    let b = padded_index(larger, digits);
    padded_indices_sort_by_value(smaller, larger, digits);
    padded_index_has_its_digits(smaller, digits);
    padded_index_has_its_digits(larger, digits);
    precedes_ignores_what_follows(a, b, frame_extension(), frame_extension());
    precedes_skips_common_prefix(
        directory + frame_stem(),
        a + frame_extension(),
        b + frame_extension(),
    );
    assert(frame_file(directory, smaller) =~= (directory + frame_stem()) + (a + frame_extension()));
    assert(frame_file(directory, larger) =~= (directory + frame_stem()) + (b + frame_extension()));
}

/// Frame files of one directory, each index occurring once, stand in an
/// ordered list by strictly rising index: the order in which the frames are
/// encoded is the order in which they were extracted.
pub proof fn ordered_frames_rise_by_index(
    directory: Seq<u8>,
    names: Seq<Seq<u8>>,
    indices: Seq<nat>,
)
    requires
        ordered(names),
        names.len() == indices.len(),
        forall|k: int|
            0 <= k < names.len() ==> #[trigger] indices[k] < index_limit(INDEX_DIGITS as nat)
                && names[k] == frame_file(directory, indices[k]),
        forall|a: int, b: int| 0 <= a < b < indices.len() ==> indices[a] != indices[b],
    ensures
        forall|a: int, b: int| 0 <= a < b < indices.len() ==> indices[a] < indices[b],
{
    assert forall|a: int, b: int| 0 <= a < b < indices.len() implies indices[a] < indices[b] by {
        if indices[b] < indices[a] {
            frame_files_sort_by_index(directory, indices[b], indices[a]);
            assert(precedes(names[b], names[a]));
        }
    }
}

/// The bytes that stand around the index in a frame file name are those of
/// the texts `/frame_` and `.png`, between which the extraction tool writes
/// the index and by which the frames are found again.
pub proof fn frame_name_parts_are_plain_text()
    ensures
        encode_utf8("/frame_"@) == frame_stem(),
        encode_utf8(".png"@) == frame_extension(),
{
    reveal_strlit("/frame_");
    reveal_strlit(".png");
    vstd::utf8::is_ascii_chars_encode_utf8("/frame_"@);
    vstd::utf8::is_ascii_chars_encode_utf8(".png"@);
    assert(encode_utf8("/frame_"@) =~= frame_stem());
    assert(encode_utf8(".png"@) =~= frame_extension());
}

} // verus!
