//! The grammar of the kernel's aggregate CPU accounting line.
//!
//! The line is a tag followed by counters, separated by runs of ASCII
//! whitespace:
//!
//! ```text
//! cpu  <user> <nice> <system> <idle> <iowait> <irq> <softirq> <steal> <guest> <guest_nice>
//! ```
//!
//! The tag is not inspected. The nine counters after it, `user` to `guest`,
//! must be present and well formed; a tenth one is taken when it is there.

use vstd::prelude::*;
use vstd::slice::slice_subrange;
use crate::sampler::SampleError;
use crate::snapshot::CpuSnapshot;

verus! {

/// The byte that ends a line.
pub const NEWLINE: u8 = 0x0a;

/// The sign that may stand before a counter's digits.
pub const PLUS: u8 = 0x2b;

/// The digit zero.
pub const ZERO: u8 = 0x30;

/// The digit nine.
pub const NINE: u8 = 0x39;

/// Number of counters that must follow the tag.
pub const REQUIRED_COUNTERS: usize = 9;

/// ASCII whitespace: space, tab, line feed, vertical tab, form feed and
/// carriage return.
pub open spec fn is_space(byte: u8) -> bool {
    byte == 0x20 || (0x09 <= byte && byte <= 0x0d)
}

/// ASCII decimal digits.
pub open spec fn is_digit(byte: u8) -> bool {
    ZERO <= byte && byte <= NINE
}

/// The value of a digit; zero for any other byte.
pub open spec fn digit_value(byte: u8) -> nat {
    if is_digit(byte) {
        (byte - ZERO) as nat
    } else {
        0
    }
}

/// The number that a string of digits denotes in base ten.
pub open spec fn digits_value(digits: Seq<u8>) -> nat
    decreases digits.len(),
{
    if digits.len() == 0 {
        0
    } else {
        digits_value(digits.drop_last()) * 10 + digit_value(digits.last())
    }
}

/// A field without its optional leading plus sign.
pub open spec fn unsigned_part(field: Seq<u8>) -> Seq<u8> {
    if field.len() > 0 && field[0] == PLUS {
        field.drop_first()
    } else {
        field
    }
}

/// Whether every byte of `bytes` is a decimal digit.
pub open spec fn all_digits(bytes: Seq<u8>) -> bool {
    forall|i: int| 0 <= i < bytes.len() ==> is_digit(#[trigger] bytes[i])
}

/// The number that a string of digits denotes, where every byte is a digit
/// and the value fits in 64 bits. The empty string denotes zero.
pub open spec fn digits_u64(digits: Seq<u8>) -> Option<u64> {
    if all_digits(digits) && digits_value(digits) <= u64::MAX {
        Some(digits_value(digits) as u64)
    } else {
        None
    }
}

/// The counter that a field denotes: an optional plus sign, then one or more
/// decimal digits whose value fits in 64 bits. Any other field denotes none.
pub open spec fn counter_value(field: Seq<u8>) -> Option<u64> {
    let digits = unsigned_part(field);
    if digits.len() > 0 {
        digits_u64(digits)
    } else {
        None
    }
}

/// Where the run of non-space bytes that starts at `from` ends.
pub open spec fn field_end(line: Seq<u8>, from: int) -> int
    decreases line.len() - from,
{
    if 0 <= from < line.len() && !is_space(line[from]) {
        field_end(line, from + 1)
    } else {
        from
    }
}

/// The whitespace-separated fields of `line` that start at or after `from`,
/// in order. A field is a maximal run of non-space bytes.
pub open spec fn fields_from(line: Seq<u8>, from: int) -> Seq<Seq<u8>>
    decreases line.len() - from,
{
    if from < 0 || from >= line.len() {
        Seq::empty()
    } else if is_space(line[from]) {
        fields_from(line, from + 1)
    } else {
        proof {
            lemma_field_end(line, from);
        }
        seq![line.subrange(from, field_end(line, from))] + fields_from(
            line,
            field_end(line, from),
        )
    }
}

/// The whitespace-separated fields of `line`.
pub open spec fn fields(line: Seq<u8>) -> Seq<Seq<u8>> {
    fields_from(line, 0)
}

/// The first line of `content`: what stands before the first line feed, or
/// all of it where there is none.
pub open spec fn first_line(content: Seq<u8>) -> Seq<u8> {
    match content.index_of_first(NEWLINE) {
        Some(end) => content.take(end),
        None => content,
    }
}

/// What a line parses to. It is accepted exactly when at least nine fields
/// follow the tag and each of the first nine denotes a counter.
pub open spec fn parsed_line(line: Seq<u8>) -> Result<CpuSnapshot, SampleError> {
    let f = fields(line);
    if f.len() > REQUIRED_COUNTERS && (forall|i: int|
        1 <= i <= REQUIRED_COUNTERS ==> (#[trigger] counter_value(f[i])) is Some) {
        Ok(
            CpuSnapshot {
                user: counter_value(f[1])->0,
                nice: counter_value(f[2])->0,
                system: counter_value(f[3])->0,
                idle: counter_value(f[4])->0,
                iowait: counter_value(f[5])->0,
                irq: counter_value(f[6])->0,
                softirq: counter_value(f[7])->0,
                steal: counter_value(f[8])->0,
                guest: counter_value(f[9])->0,
                guest_nice: if f.len() > REQUIRED_COUNTERS + 1 {
                    counter_value(f[10])
                } else {
                    None
                },
            },
        )
    } else {
        Err(SampleError::MalformedData)
    }
}

/// A run of non-space bytes ends at or after its start, within the line, and
/// at a space or at the end of the line.
pub proof fn lemma_field_end(line: Seq<u8>, from: int)
    requires
        0 <= from <= line.len(),
    ensures
        from <= field_end(line, from) <= line.len(),
        from < line.len() && !is_space(line[from]) ==> from < field_end(line, from),
        forall|i: int| from <= i < field_end(line, from) ==> !is_space(#[trigger] line[i]),
        field_end(line, from) < line.len() ==> is_space(line[field_end(line, from)]),
    decreases line.len() - from,
{
    if from < line.len() && !is_space(line[from]) {
        lemma_field_end(line, from + 1);
    }
}

/// Whether `field` is a word: at least one byte, and no space among them.
pub open spec fn is_word(field: Seq<u8>) -> bool {
    field.len() > 0 && forall|j: int| 0 <= j < field.len() ==> !is_space(#[trigger] field[j])
}

/// Every field of a line is a word.
pub proof fn lemma_fields_are_words(line: Seq<u8>, from: int)
    requires
        0 <= from,
    ensures
        forall|k: int|
            0 <= k < fields_from(line, from).len() ==> is_word(
                #[trigger] fields_from(line, from)[k],
            ),
    decreases line.len() - from,
{
    if from >= line.len() {
    } else if is_space(line[from]) {
        lemma_fields_are_words(line, from + 1);
        assert(fields_from(line, from) == fields_from(line, from + 1));
    } else {
        lemma_field_end(line, from);
        let end = field_end(line, from);
        lemma_fields_are_words(line, end);
        assert forall|k: int| 0 <= k < fields_from(line, from).len() implies is_word(
            #[trigger] fields_from(line, from)[k],
        ) by {
            if k > 0 {
                assert(fields_from(line, from)[k] == fields_from(line, end)[k - 1]);
            }
        }
    }
}

/// Adding a byte on the right never lowers the value of a digit string.
proof fn lemma_digits_value_prefix(digits: Seq<u8>, n: int)
    requires
        0 <= n <= digits.len(),
    ensures
        digits_value(digits.take(n)) <= digits_value(digits),
    decreases digits.len(),
{
    if n == digits.len() {
        assert(digits.take(n) =~= digits);
    } else {
        lemma_digits_value_prefix(digits.drop_last(), n);
        assert(digits.drop_last().take(n) =~= digits.take(n));
    }
}

fn byte_is_space(byte: u8) -> (space: bool)
    ensures
        space == is_space(byte),
{
    byte == 0x20 || (0x09 <= byte && byte <= 0x0d)
}

/// Finds the first field of `line` at or after `from`, as the positions of its
/// first byte and of the byte after its last.
fn next_field(line: &[u8], from: usize) -> (found: Option<(usize, usize)>)
    requires
        from <= line@.len(),
    ensures
        match found {
            None => fields_from(line@, from as int) == Seq::<Seq<u8>>::empty(),
            Some((start, end)) => {
                &&& from <= start < end <= line@.len()
                &&& fields_from(line@, from as int) == seq![
                    line@.subrange(start as int, end as int),
                ] + fields_from(line@, end as int)
            },
        },
{
    let mut start: usize = from;
    while start < line.len() && byte_is_space(line[start])
        invariant
            from <= start <= line@.len(),
            fields_from(line@, from as int) == fields_from(line@, start as int),
        decreases line@.len() - start,
    {
        start += 1;
    }
    if start >= line.len() {
        return None;
    }
    let mut end: usize = start + 1;
    while end < line.len() && !byte_is_space(line[end])
        invariant
            start < end <= line@.len(),
            !is_space(line@[start as int]),
            field_end(line@, start as int) == field_end(line@, end as int),
        decreases line@.len() - end,
    {
        end += 1;
    }
    Some((start, end))
}

/// Reads the digit string `line[start..end]`: its value where every byte is
/// a digit and the value fits in 64 bits.
pub(crate) fn digits_at(line: &[u8], start: usize, end: usize) -> (value: Option<u64>)
    requires
        start <= end <= line@.len(),
    ensures
        value == digits_u64(line@.subrange(start as int, end as int)),
{
    let ghost digits = line@.subrange(start as int, end as int);
    let mut value: u64 = 0;
    let mut i: usize = start;
    while i < end
        invariant
            start <= i <= end <= line@.len(),
            digits == line@.subrange(start as int, end as int),
            all_digits(digits.take(i - start)),
            value == digits_value(digits.take(i - start)),
        decreases end - i,
    {
        let byte = line[i];
        let ghost seen = digits.take(i - start + 1);
        assert(seen.drop_last() =~= digits.take(i - start));
        if !(ZERO <= byte && byte <= NINE) {
            assert(!is_digit(digits[i - start]));
            return None;
        }
        proof {
            lemma_digits_value_prefix(digits, i - start + 1);
        }
        let shifted: u64 = match value.checked_mul(10) {
            Some(shifted) => shifted,
            None => {
                return None;
            },
        };
        value = match shifted.checked_add((byte - ZERO) as u64) {
            Some(sum) => sum,
            None => {
                return None;
            },
        };
        i += 1;
    }
    assert(digits.take(end - start) =~= digits);
    Some(value)
}

/// Reads the counter that the field `line[start..end]` denotes.
fn counter_at(line: &[u8], start: usize, end: usize) -> (value: Option<u64>)
    requires
        start <= end <= line@.len(),
    ensures
        value == counter_value(line@.subrange(start as int, end as int)),
{
    let ghost field = line@.subrange(start as int, end as int);
    let first: usize = if start < end && line[start] == PLUS {
        start + 1
    } else {
        start
    };
    assert(line@.subrange(first as int, end as int) =~= unsigned_part(field));
    if first == end {
        return None;
    }
    digits_at(line, first, end)
}

/// Reads the counter that `field` denotes (see [`counter_value`]).
pub fn parse_counter(field: &[u8]) -> (value: Option<u64>)
    ensures
        value == counter_value(field@),
{
    assert(field@.subrange(0, field@.len() as int) =~= field@);
    counter_at(field, 0, field.len())
}

/// Takes the first line of `content`.
pub fn take_first_line(content: &[u8]) -> (line: &[u8])
    ensures
        line@ == first_line(content@),
{
    let mut end: usize = 0;
    while end < content.len() && content[end] != NEWLINE
        invariant
            end <= content@.len(),
            forall|i: int| 0 <= i < end ==> content@[i] != NEWLINE,
        decreases content@.len() - end,
    {
        end += 1;
    }
    proof {
        content@.index_of_first_ensures(NEWLINE);
    }
    slice_subrange(content, 0, end)
}

/// Parses the aggregate CPU line.
///
/// The first field is the tag and is discarded. The line is rejected as
/// malformed exactly when fewer than nine fields follow the tag, or one of
/// the first nine is not a counter (see [`counter_value`]). Otherwise the
/// snapshot holds the nine counters in order, and the tenth where a tenth
/// field is there and denotes one.
pub fn parse_cpu_line(line: &[u8]) -> (parsed: Result<CpuSnapshot, SampleError>)
    ensures
        parsed == parsed_line(line@),
{
    let mut pos: usize = match next_field(line, 0) {
        Some((_, end)) => end,
        None => {
            return Err(SampleError::MalformedData);
        },
    };
    let ghost mut seen: Seq<Seq<u8>> = fields(line@).take(1);
    let mut counters: Vec<u64> = Vec::new();
    while counters.len() < REQUIRED_COUNTERS
        invariant
            pos <= line@.len(),
            counters@.len() <= REQUIRED_COUNTERS,
            seen.len() == counters@.len() + 1,
            fields(line@) == seen + fields_from(line@, pos as int),
            forall|i: int|
                0 <= i < counters@.len() ==> counter_value(#[trigger] seen[i + 1]) == Some(
                    counters@[i],
                ),
        decreases REQUIRED_COUNTERS - counters@.len(),
    {
        let (start, end) = match next_field(line, pos) {
            Some(bounds) => bounds,
            None => {
                return Err(SampleError::MalformedData);
            },
        };
        let ghost field = line@.subrange(start as int, end as int);
        let value = match counter_at(line, start, end) {
            Some(value) => value,
            None => {
                return Err(SampleError::MalformedData);
            },
        };
        counters.push(value);
        proof {
            seen = seen.push(field);
        }
        pos = end;
    }
    let guest_nice = match next_field(line, pos) {
        Some((start, end)) => {
            assert(fields(line@) =~= seen.push(line@.subrange(start as int, end as int))
                + fields_from(line@, end as int));
            counter_at(line, start, end)
        },
        None => None,
    };
    assert forall|i: int| 1 <= i <= REQUIRED_COUNTERS implies counter_value(
        #[trigger] fields(line@)[i],
    ) == Some(counters@[i - 1]) by {
        assert(fields(line@)[i] == seen[(i - 1) + 1]);
    }
    Ok(
        CpuSnapshot {
            user: counters[0],
            nice: counters[1],
            system: counters[2],
            idle: counters[3],
            iowait: counters[4],
            irq: counters[5],
            softirq: counters[6],
            steal: counters[7],
            guest: counters[8],
            guest_nice,
        },
    )
}

} // verus!
