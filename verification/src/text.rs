//! Reading numbers out of the text of kernel files: whitespace-separated
//! fields and unsigned decimals.

use vstd::prelude::*;

verus! {

/// Whether `byte` separates fields: a blank, a tab, a line feed or a
/// carriage return.
pub open spec fn is_space(byte: u8) -> bool {
    byte == 32 || byte == 9 || byte == 10 || byte == 13
}

/// Whether `byte` is an ASCII digit.
pub open spec fn is_digit(byte: u8) -> bool {
    48 <= byte <= 57
}

/// The part of `text` from position `from` on; nothing where `from` lies
/// beyond the end.
pub open spec fn tail(text: Seq<u8>, from: int) -> Seq<u8> {
    if 0 <= from <= text.len() {
        text.skip(from)
    } else {
        Seq::empty()
    }
}

/// Whether every byte of `text` is a digit.
pub open spec fn all_digits(text: Seq<u8>) -> bool {
    forall|i: int| 0 <= i < text.len() ==> is_digit(#[trigger] text[i])
}

/// The number that a run of digits writes in base ten.
pub open spec fn decimal_value(digits: Seq<u8>) -> nat
    decreases digits.len(),
{
    if digits.len() == 0 {
        0
    } else {
        decimal_value(digits.drop_last()) * 10 + (digits.last() - 48) as nat
    }
}

/// The number that `text` writes: `text` must be one or more digits and
/// nothing else, and the number must fit in a `u64`.
pub open spec fn decimal_of(text: Seq<u8>) -> Option<u64> {
    if text.len() > 0 && all_digits(text) && decimal_value(text) <= u64::MAX {
        Some(decimal_value(text) as u64)
    } else {
        None
    }
}

/// A run of digits writes a number no smaller than any of its prefixes.
pub proof fn lemma_decimal_value_prefix(digits: Seq<u8>, len: int)
    requires
        0 <= len <= digits.len(),
        all_digits(digits),
    ensures
        decimal_value(digits.take(len)) <= decimal_value(digits),
    decreases digits.len(),
{
    if len == digits.len() {
        assert(digits.take(len) =~= digits);
    } else {
        let front = digits.drop_last();
        assert(front.take(len) =~= digits.take(len));
        assert(is_digit(digits[digits.len() - 1]));
        assert forall|i: int| 0 <= i < front.len() implies is_digit(#[trigger] front[i]) by {
            assert(front[i] == digits[i]);
        }
        lemma_decimal_value_prefix(front, len);
    }
}

/// Reads the unsigned decimal that the bytes from `from` on write.
pub fn parse_decimal_from(bytes: &[u8], from: usize) -> (number: Option<u64>)
    ensures
        number == decimal_of(tail(bytes@, from as int)),
{
    if from >= bytes.len() {
        return None;
    }
    let ghost digits = bytes@.skip(from as int);
    let mut value: u64 = 0;
    let mut i: usize = from;
    while i < bytes.len()
        invariant
            from <= i <= bytes.len(),
            digits == bytes@.skip(from as int),
            all_digits(digits.take(i - from)),
            value == decimal_value(digits.take(i - from)),
        decreases bytes.len() - i,
    {
        let byte: u8 = bytes[i];
        if byte < 48 || byte > 57 {
            assert(!is_digit(digits[i - from]));
            return None;
        }
        proof {
            assert(digits.take(i + 1 - from).drop_last() =~= digits.take(i - from));
            assert(digits.take(i + 1 - from).last() == byte);
            assert forall|j: int| 0 <= j < i + 1 - from implies is_digit(
                #[trigger] digits.take(i + 1 - from)[j],
            ) by {
                if j < i - from {
                    assert(digits.take(i - from)[j] == digits.take(i + 1 - from)[j]);
                }
            }
            if all_digits(digits) {
                lemma_decimal_value_prefix(digits, i + 1 - from);
            }
        }
        let tenfold: u64 = match value.checked_mul(10) {
            Some(tenfold) => tenfold,
            None => {
                return None;
            },
        };
        value = match tenfold.checked_add((byte - 48) as u64) {
            Some(sum) => sum,
            None => {
                return None;
            },
        };
        i = i + 1;
    }
    proof {
        assert(digits.take(i - from) =~= digits);
    }
    Some(value)
}

/// Reads the unsigned decimal that `bytes` write.
pub fn parse_decimal(bytes: &[u8]) -> (number: Option<u64>)
    ensures
        number == decimal_of(bytes@),
{
    proof {
        assert(tail(bytes@, 0) =~= bytes@);
    }
    parse_decimal_from(bytes, 0)
}

/// The position of the last `byte` in `text`, if there is one.
pub open spec fn last_index_of(text: Seq<u8>, byte: u8) -> Option<int>
    decreases text.len(),
{
    if text.len() == 0 {
        None
    } else if text.last() == byte {
        Some(text.len() - 1)
    } else {
        last_index_of(text.drop_last(), byte)
    }
}

/// The last position is one that holds the byte, and none after it does.
pub proof fn lemma_last_index_of(text: Seq<u8>, byte: u8)
    ensures
        last_index_of(text, byte) matches Some(at) ==> {
            &&& 0 <= at < text.len()
            &&& text[at] == byte
            &&& forall|j: int| at < j < text.len() ==> #[trigger] text[j] != byte
        },
        last_index_of(text, byte) is None ==> forall|j: int|
            0 <= j < text.len() ==> #[trigger] text[j] != byte,
    decreases text.len(),
{
    if text.len() > 0 && text.last() != byte {
        let front = text.drop_last();
        lemma_last_index_of(front, byte);
        assert forall|j: int| 0 <= j < front.len() implies front[j] == text[j] by {}
        match last_index_of(front, byte) {
            Some(at) => {
                assert forall|j: int| at < j < text.len() implies #[trigger] text[j] != byte by {
                    if j < front.len() {
                        assert(front[j] != byte);
                    }
                }
            },
            None => {
                assert forall|j: int| 0 <= j < text.len() implies #[trigger] text[j] != byte by {
                    if j < front.len() {
                        assert(front[j] != byte);
                    }
                }
            },
        }
    }
}

/// Finds the last `byte` in `bytes`.
pub fn find_last(bytes: &[u8], byte: u8) -> (found: Option<usize>)
    ensures
        match found {
            Some(at) => at < bytes.len() && last_index_of(bytes@, byte) == Some(at as int),
            None => last_index_of(bytes@, byte) is None,
        },
{
    let mut i: usize = bytes.len();
    assert(bytes@.take(i as int) =~= bytes@);
    while i > 0
        invariant
            i <= bytes.len(),
            last_index_of(bytes@, byte) == last_index_of(bytes@.take(i as int), byte),
        decreases i,
    {
        if bytes[i - 1] == byte {
            return Some(i - 1);
        }
        assert(bytes@.take(i as int).drop_last() =~= bytes@.take(i - 1));
        i = i - 1;
    }
    None
}

/// What a scan of the first `upto` bytes of `text` has found: the fields
/// that are complete, and the bytes of the field that has begun.
pub open spec fn scanned(text: Seq<u8>, upto: int) -> (Seq<Seq<u8>>, Seq<u8>)
    decreases upto,
{
    if upto <= 0 {
        (Seq::empty(), Seq::empty())
    } else {
        let (complete, begun) = scanned(text, upto - 1);
        let byte = text[upto - 1];
        if !is_space(byte) {
            (complete, begun.push(byte))
        } else if begun.len() > 0 {
            (complete.push(begun), Seq::empty())
        } else {
            (complete, begun)
        }
    }
}

/// The fields of `text`: its maximal runs of bytes that are not spaces, in
/// order.
pub open spec fn fields_of(text: Seq<u8>) -> Seq<Seq<u8>> {
    let (complete, begun) = scanned(text, text.len() as int);
    if begun.len() > 0 {
        complete.push(begun)
    } else {
        complete
    }
}

/// The contents of a list of fields.
pub open spec fn views(fields: Seq<Vec<u8>>) -> Seq<Seq<u8>> {
    Seq::new(fields.len(), |i: int| fields[i]@)
}

/// Whether `text` holds no space.
pub open spec fn spaceless(text: Seq<u8>) -> bool {
    forall|j: int| 0 <= j < text.len() ==> !is_space(#[trigger] text[j])
}

/// Whether every one of `fields` is a word: not empty, and without a space.
pub open spec fn all_words(fields: Seq<Seq<u8>>) -> bool {
    forall|i: int|
        0 <= i < fields.len() ==> (#[trigger] fields[i]).len() > 0 && spaceless(fields[i])
}

/// No field is empty and none holds a space.
pub proof fn lemma_fields_are_words(text: Seq<u8>)
    ensures
        all_words(fields_of(text)),
{
    lemma_scanned_are_words(text, text.len() as int);
}

proof fn lemma_scanned_are_words(text: Seq<u8>, upto: int)
    ensures
        all_words(scanned(text, upto).0),
        spaceless(scanned(text, upto).1),
    decreases upto,
{
    if upto > 0 {
        lemma_scanned_are_words(text, upto - 1);
        let (complete, begun) = scanned(text, upto - 1);
        let byte = text[upto - 1];
        if !is_space(byte) {
            assert forall|j: int| 0 <= j < begun.push(byte).len() implies !is_space(
                #[trigger] begun.push(byte)[j],
            ) by {
                if j < begun.len() {
                    assert(begun.push(byte)[j] == begun[j]);
                }
            }
        } else if begun.len() > 0 {
            assert forall|i: int| 0 <= i < complete.push(begun).len() implies (
            #[trigger] complete.push(begun)[i]).len() > 0 && spaceless(complete.push(begun)[i]) by {
                if i < complete.len() {
                    assert(complete.push(begun)[i] == complete[i]);
                }
            }
        }
    }
}

/// Splits the bytes from `from` on into fields.
pub fn split_fields(bytes: &[u8], from: usize) -> (fields: Vec<Vec<u8>>)
    ensures
        views(fields@) == fields_of(tail(bytes@, from as int)),
{
    let mut fields: Vec<Vec<u8>> = Vec::new();
    let mut begun: Vec<u8> = Vec::new();
    if from > bytes.len() {
        assert(views(fields@) =~= fields_of(tail(bytes@, from as int)));
        return fields;
    }
    let ghost text = bytes@.skip(from as int);
    let mut i: usize = from;
    assert(views(fields@) =~= scanned(text, 0).0);
    while i < bytes.len()
        invariant
            from <= i <= bytes.len(),
            text == bytes@.skip(from as int),
            views(fields@) == scanned(text, i - from).0,
            begun@ == scanned(text, i - from).1,
        decreases bytes.len() - i,
    {
        let byte: u8 = bytes[i];
        assert(text[i - from] == byte);
        let ghost before = views(fields@);
        if !(byte == 32 || byte == 9 || byte == 10 || byte == 13) {
            begun.push(byte);
        } else if begun.len() > 0 {
            let ghost word = begun@;
            fields.push(begun);
            begun = Vec::new();
            assert(views(fields@) =~= before.push(word));
        }
        i = i + 1;
    }
    if begun.len() > 0 {
        let ghost before = views(fields@);
        let ghost word = begun@;
        fields.push(begun);
        assert(views(fields@) =~= before.push(word));
    }
    fields
}

/// The number that field `index` of `fields` writes, if there is such a
/// field and it is an unsigned decimal.
pub open spec fn number_in(fields: Seq<Seq<u8>>, index: int) -> Option<u64> {
    if 0 <= index < fields.len() {
        decimal_of(fields[index])
    } else {
        None
    }
}

/// Reads field `index` of `fields` as an unsigned decimal.
pub fn number_at(fields: &Vec<Vec<u8>>, index: usize) -> (number: Option<u64>)
    ensures
        number == number_in(views(fields@), index as int),
{
    if index < fields.len() {
        parse_decimal(fields[index].as_slice())
    } else {
        None
    }
}

/// Tells whether two runs of bytes are the same.
pub fn same_bytes(left: &[u8], right: &[u8]) -> (same: bool)
    ensures
        same == (left@ == right@),
{
    if left.len() != right.len() {
        return false;
    }
    let mut i: usize = 0;
    while i < left.len()
        invariant
            i <= left.len(),
            left.len() == right.len(),
            forall|j: int| 0 <= j < i ==> left@[j] == right@[j],
        decreases left.len() - i,
    {
        if left[i] != right[i] {
            return false;
        }
        i = i + 1;
    }
    assert(left@ =~= right@);
    true
}

/// Whether `text` begins with `prefix`.
pub open spec fn begins_with(text: Seq<u8>, prefix: Seq<u8>) -> bool {
    prefix.len() <= text.len() && text.take(prefix.len() as int) == prefix
}

/// Tells whether `bytes` begin with `prefix`.
pub fn starts_with(bytes: &[u8], prefix: &[u8]) -> (begins: bool)
    ensures
        begins == begins_with(bytes@, prefix@),
{
    if prefix.len() > bytes.len() {
        return false;
    }
    let mut i: usize = 0;
    while i < prefix.len()
        invariant
            i <= prefix.len() <= bytes.len(),
            forall|j: int| 0 <= j < i ==> bytes@[j] == prefix@[j],
        decreases prefix.len() - i,
    {
        if bytes[i] != prefix[i] {
            assert(bytes@.take(prefix.len() as int)[i as int] != prefix@[i as int]);
            return false;
        }
        i = i + 1;
    }
    assert(bytes@.take(prefix.len() as int) =~= prefix@);
    true
}

/// The number that stands behind `key`: what the field after the first
/// field equal to `key` writes, if there is such a field and it is an
/// unsigned decimal.
pub open spec fn value_after(fields: Seq<Seq<u8>>, key: Seq<u8>) -> Option<u64>
    decreases fields.len(),
{
    if fields.len() == 0 {
        None
    } else if fields[0] == key {
        number_in(fields, 1)
    } else {
        value_after(fields.skip(1), key)
    }
}

/// Reads the number that stands behind `key`.
pub fn number_after(fields: &Vec<Vec<u8>>, key: &[u8]) -> (number: Option<u64>)
    ensures
        number == value_after(views(fields@), key@),
{
    let mut i: usize = 0;
    assert(views(fields@).skip(0) =~= views(fields@));
    while i < fields.len()
        invariant
            i <= fields.len(),
            value_after(views(fields@), key@) == value_after(views(fields@).skip(i as int), key@),
        decreases fields.len() - i,
    {
        let ghost rest = views(fields@).skip(i as int);
        assert(rest[0] == fields@[i as int]@);
        if same_bytes(fields[i].as_slice(), key) {
            if i + 1 < fields.len() {
                assert(rest[1] == fields@[i + 1]@);
                return parse_decimal(fields[i + 1].as_slice());
            } else {
                return None;
            }
        }
        assert(rest.skip(1) =~= views(fields@).skip(i + 1));
        i = i + 1;
    }
    None
}

} // verus!
