//! Reading numbers and comma-separated fields from text.
//!
//! The grammar of a number is that of the standard integer parsers: an
//! optional sign, then one or more decimal digits and nothing else. All of
//! it is stated over the bytes of the text.

use vstd::prelude::*;

verus! {

pub open spec fn is_digit(b: u8) -> bool {
    0x30 <= b <= 0x39
}

pub open spec fn all_digits(s: Seq<u8>) -> bool {
    forall|i: int| 0 <= i < s.len() ==> is_digit(#[trigger] s[i])
}

/// The number that a run of decimal digits writes.
pub open spec fn decimal_value(s: Seq<u8>) -> nat
    decreases s.len(),
{
    if s.len() == 0 {
        0
    } else {
        decimal_value(s.drop_last()) * 10 + (s.last() - 0x30) as nat
    }
}

/// The number written by `s` when `s` is one or more digits.
pub open spec fn magnitude(s: Seq<u8>) -> Option<nat> {
    if s.len() > 0 && all_digits(s) {
        Some(decimal_value(s))
    } else {
        None
    }
}

/// The text without a leading sign: `+` always counts as one, `-` only
/// where `signed` is set.
pub open spec fn unsigned_part(s: Seq<u8>, signed: bool) -> Seq<u8> {
    if s.len() > 0 && (s[0] == 0x2b || (signed && s[0] == 0x2d)) {
        s.skip(1)
    } else {
        s
    }
}

/// The `u32` that a text writes: an optional `+`, then digits, the value
/// within range.
pub open spec fn parsed_u32(s: Seq<u8>) -> Option<u32> {
    match magnitude(unsigned_part(s, false)) {
        Some(v) => if v <= u32::MAX {
            Some(v as u32)
        } else {
            None
        },
        None => None,
    }
}

/// The `i32` that a text writes: an optional `+` or `-`, then digits, the
/// value within range.
pub open spec fn parsed_i32(s: Seq<u8>) -> Option<i32> {
    match magnitude(unsigned_part(s, true)) {
        Some(v) => if s[0] == 0x2d {
            if v <= 0x8000_0000 {
                Some((-(v as int)) as i32)
            } else {
                None
            }
        } else {
            if v <= i32::MAX {
                Some(v as i32)
            } else {
                None
            }
        },
        None => None,
    }
}

/// The fields of a text that commas separate. A text without a comma is one
/// field; every comma starts a new, possibly empty one.
pub open spec fn fields(s: Seq<u8>) -> Seq<Seq<u8>>
    decreases s.len(),
{
    if s.len() == 0 {
        seq![Seq::<u8>::empty()]
    } else {
        let before = fields(s.drop_last());
        if s.last() == 0x2c {
            before.push(Seq::<u8>::empty())
        } else {
            before.drop_last().push(before.last().push(s.last()))
        }
    }
}

/// The contents of a list of byte buffers.
pub open spec fn contents(v: Seq<Vec<u8>>) -> Seq<Seq<u8>> {
    Seq::new(v.len(), |i: int| v[i]@)
}

/// There is always at least one field.
pub proof fn lemma_fields_nonempty(s: Seq<u8>)
    ensures
        fields(s).len() >= 1,
    decreases s.len(),
{
    if s.len() > 0 {
        lemma_fields_nonempty(s.drop_last());
    }
}

/// How many commas a text holds.
pub open spec fn comma_count(s: Seq<u8>) -> nat
    decreases s.len(),
{
    if s.len() == 0 {
        0
    } else if s.last() == 0x2c {
        comma_count(s.drop_last()) + 1
    } else {
        comma_count(s.drop_last())
    }
}

/// How many bytes the fields of a text hold together.
pub open spec fn total_len(parts: Seq<Seq<u8>>) -> nat
    decreases parts.len(),
{
    if parts.len() == 0 {
        0
    } else {
        total_len(parts.drop_last()) + parts.last().len()
    }
}

/// No field holds a comma, there is one field more than there are commas,
/// and the fields hold every other byte of the text.
pub proof fn lemma_fields_hold_no_comma(s: Seq<u8>)
    ensures
        forall|k: int, i: int|
            0 <= k < fields(s).len() && 0 <= i < fields(s)[k].len() ==> fields(s)[k][i] != 0x2c,
        fields(s).len() == comma_count(s) + 1,
        total_len(fields(s)) + comma_count(s) == s.len(),
    decreases s.len(),
{
    if s.len() == 0 {
        let one = seq![Seq::<u8>::empty()];
        assert(one.drop_last() =~= Seq::<Seq<u8>>::empty());
        assert(total_len(one.drop_last()) == 0);
    } else {
        lemma_fields_hold_no_comma(s.drop_last());
        lemma_fields_nonempty(s.drop_last());
        let before = fields(s.drop_last());
        if s.last() == 0x2c {
            let after = before.push(Seq::<u8>::empty());
            assert(after.drop_last() =~= before);
        } else {
            let after = before.drop_last().push(before.last().push(s.last()));
            assert(after.drop_last() =~= before.drop_last());
        }
    }
}

/// Digits written after other digits only make the number larger.
pub proof fn lemma_decimal_value_grows(s: Seq<u8>, k: int)
    requires
        0 <= k <= s.len(),
    ensures
        decimal_value(s.take(k)) <= decimal_value(s),
    decreases s.len() - k,
{
    if k == s.len() {
        assert(s.take(k) =~= s);
    } else {
        lemma_decimal_value_grows(s.drop_last(), k);
        assert(s.drop_last().take(k) =~= s.take(k));
    }
}

/// Cuts a text into the fields that its commas separate.
pub fn split_fields(text: &[u8]) -> (parts: Vec<Vec<u8>>)
    ensures
        contents(parts@) == fields(text@),
{
    let mut done: Vec<Vec<u8>> = Vec::new();
    let mut current: Vec<u8> = Vec::new();
    let mut i: usize = 0;
    assert(text@.take(0) =~= Seq::<u8>::empty());
    assert(contents(done@).push(current@) =~= fields(text@.take(0)));
    while i < text.len()
        invariant
            i <= text.len(),
            contents(done@).push(current@) == fields(text@.take(i as int)),
        decreases text.len() - i,
    {
        let b = text[i];
        proof {
            let upto = text@.take(i as int + 1);
            assert(upto.drop_last() =~= text@.take(i as int));
            assert(upto.last() == b);
        }
        if b == 0x2c {
            let ghost before = contents(done@).push(current@);
            done.push(current);
            current = Vec::new();
            assert(contents(done@) =~= before);
        } else {
            let ghost before = contents(done@).push(current@);
            current.push(b);
            assert(contents(done@).push(current@) =~= before.drop_last().push(
                before.last().push(b),
            ));
        }
        i += 1;
    }
    assert(text@.take(i as int) =~= text@);
    let ghost whole = contents(done@).push(current@);
    done.push(current);
    assert(contents(done@) =~= whole);
    done
}

/// Reads the digits of `text` from `from` on as a number no larger than
/// `limit`.
fn read_magnitude(text: &[u8], from: usize, limit: u64) -> (r: Option<u64>)
    requires
        from <= text.len(),
        limit <= 0x1_0000_0000,
    ensures
        match magnitude(text@.skip(from as int)) {
            Some(v) => if v <= limit {
                r == Some(v as u64)
            } else {
                r is None
            },
            None => r is None,
        },
{
    let ghost digits = text@.skip(from as int);
    if from == text.len() {
        return None;
    }
    let mut acc: u64 = 0;
    let mut i: usize = from;
    assert(digits.take(0) =~= Seq::<u8>::empty());
    while i < text.len()
        invariant
            from <= i <= text.len(),
            from < text.len(),
            digits == text@.skip(from as int),
            limit <= 0x1_0000_0000,
            acc <= limit,
            acc == decimal_value(digits.take(i - from)),
            all_digits(digits.take(i - from)),
        decreases text.len() - i,
    {
        let b = text[i];
        assert(digits[i - from] == b);
        if b < 0x30 || b > 0x39 {
            return None;
        }
        proof {
            let upto = digits.take(i - from + 1);
            assert(upto.drop_last() =~= digits.take(i - from));
            assert(upto.last() == b);
            assert(all_digits(upto)) by {
                assert forall|k: int| 0 <= k < upto.len() implies is_digit(#[trigger] upto[k]) by {
                    if k < i - from {
                        assert(upto[k] == digits.take(i - from)[k]);
                    }
                }
            }
        }
        let next: u64 = acc * 10 + (b - 0x30) as u64;
        if next > limit {
            proof {
                if all_digits(digits) {
                    lemma_decimal_value_grows(digits, i - from + 1);
                }
            }
            return None;
        }
        acc = next;
        i += 1;
    }
    assert(digits.take(i - from) =~= digits);
    Some(acc)
}

/// Reads a `u32`: an optional `+`, then one or more digits.
pub fn parse_u32(text: &[u8]) -> (r: Option<u32>)
    ensures
        r == parsed_u32(text@),
{
    if text.len() == 0 {
        return None;
    }
    let from: usize = if text[0] == 0x2b {
        1
    } else {
        0
    };
    assert(unsigned_part(text@, false) == text@.skip(from as int)) by {
        assert(text@.skip(0) =~= text@);
    }
    match read_magnitude(text, from, 0xffff_ffff) {
        Some(v) => Some(v as u32),
        None => None,
    }
}

/// Reads an `i32`: an optional `+` or `-`, then one or more digits.
pub fn parse_i32(text: &[u8]) -> (r: Option<i32>)
    ensures
        r == parsed_i32(text@),
{
    if text.len() == 0 {
        return None;
    }
    let negative = text[0] == 0x2d;
    let from: usize = if text[0] == 0x2b || negative {
        1
    } else {
        0
    };
    assert(unsigned_part(text@, true) == text@.skip(from as int)) by {
        assert(text@.skip(0) =~= text@);
    }
    if negative {
        match read_magnitude(text, from, 0x8000_0000) {
            Some(v) => Some((0 - v as i64) as i32),
            None => None,
        }
    } else {
        match read_magnitude(text, from, 0x7fff_ffff) {
            Some(v) => Some(v as i32),
            None => None,
        }
    }
}

} // verus!
