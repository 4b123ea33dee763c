//! Parsing of the raw replies that the `gsettings` command-line tool
//! prints on its standard output.
//!
//! A reply is a line of bytes.  For a plain value the line holds the
//! value alone (`24`, `true`); for a value with an explicit type the
//! line holds the type word, a space, and the value (`uint32 500`).
//! The reader strips the newlines, and when the line has several
//! space-separated fields it keeps the second one, trimmed; otherwise
//! it keeps the whole line.

use vstd::prelude::*;

verus! {

/// The byte value of a line feed.
pub const NEWLINE: u8 = 10;

/// The byte value of a space.
pub const SPACE: u8 = 32;

/// Whether `b` is an ASCII whitespace byte: tab, line feed, vertical
/// tab, form feed, carriage return or space.
pub open spec fn is_ascii_whitespace(b: u8) -> bool {
    b == 9 || b == 10 || b == 11 || b == 12 || b == 13 || b == 32
}

/// `s` with every line feed removed.
pub open spec fn strip_newlines(s: Seq<u8>) -> Seq<u8>
    decreases s.len(),
{
    if s.len() == 0 {
        Seq::empty()
    } else if s.last() == NEWLINE {
        strip_newlines(s.drop_last())
    } else {
        strip_newlines(s.drop_last()) + seq![s.last()]
    }
}

/// Whether `s` holds a space anywhere.
pub open spec fn contains_space(s: Seq<u8>) -> bool
    decreases s.len(),
{
    if s.len() == 0 {
        false
    } else {
        s[0] == SPACE || contains_space(s.skip(1))
    }
}

/// The longest space-free prefix of `s`.
pub open spec fn field_before_space(s: Seq<u8>) -> Seq<u8>
    decreases s.len(),
{
    if s.len() == 0 || s[0] == SPACE {
        Seq::empty()
    } else {
        seq![s[0]] + field_before_space(s.skip(1))
    }
}

/// The field of `s` between its first space and the space after it (or
/// the end): the second space-separated field of `s`.
pub open spec fn second_field(s: Seq<u8>) -> Seq<u8>
    decreases s.len(),
{
    if s.len() == 0 {
        Seq::empty()
    } else if s[0] == SPACE {
        field_before_space(s.skip(1))
    } else {
        second_field(s.skip(1))
    }
}

/// `s` without its leading whitespace.
pub open spec fn trim_start(s: Seq<u8>) -> Seq<u8>
    decreases s.len(),
{
    if s.len() == 0 {
        Seq::empty()
    } else if is_ascii_whitespace(s[0]) {
        trim_start(s.skip(1))
    } else {
        s
    }
}

/// `s` without its trailing whitespace.
pub open spec fn trim_end(s: Seq<u8>) -> Seq<u8>
    decreases s.len(),
{
    if s.len() == 0 {
        Seq::empty()
    } else if is_ascii_whitespace(s.last()) {
        trim_end(s.drop_last())
    } else {
        s
    }
}

/// `s` without leading and trailing whitespace.
pub open spec fn trim(s: Seq<u8>) -> Seq<u8> {
    trim_end(trim_start(s))
}

/// The value field of the reply `s`: the newline-stripped line when it
/// has a single space-separated field, and its trimmed second field
/// otherwise.
pub open spec fn spec_reply_value(s: Seq<u8>) -> Seq<u8> {
    let line = strip_newlines(s);
    if contains_space(line) {
        trim(second_field(line))
    } else {
        line
    }
}

/// A line with no line feed is left unchanged by the stripping.
pub proof fn lemma_strip_newlines_id(s: Seq<u8>)
    requires
        forall|i: int| 0 <= i < s.len() ==> s[i] != NEWLINE,
    ensures
        strip_newlines(s) == s,
    decreases s.len(),
{
    if s.len() > 0 {
        assert(s.last() != NEWLINE);
        assert(forall|i: int| 0 <= i < s.drop_last().len() ==> s.drop_last()[i] == s[i]);
        lemma_strip_newlines_id(s.drop_last());
        assert(s.drop_last() + seq![s.last()] =~= s);
    } else {
        assert(s =~= Seq::<u8>::empty());
    }
}

/// A trailing line feed is stripped.
pub proof fn lemma_strip_newlines_trailing(s: Seq<u8>)
    ensures
        strip_newlines(s + seq![NEWLINE]) == strip_newlines(s),
{
    assert((s + seq![NEWLINE]).drop_last() =~= s);
    assert((s + seq![NEWLINE]).last() == NEWLINE);
}

/// A sequence without spaces holds no space and is its own first
/// field.
pub proof fn lemma_no_space(s: Seq<u8>)
    requires
        forall|i: int| 0 <= i < s.len() ==> s[i] != SPACE,
    ensures
        !contains_space(s),
        field_before_space(s) == s,
    decreases s.len(),
{
    if s.len() > 0 {
        assert(s[0] != SPACE);
        assert(forall|i: int| 0 <= i < s.skip(1).len() ==> s.skip(1)[i] == s[i + 1]);
        lemma_no_space(s.skip(1));
        assert(seq![s[0]] + s.skip(1) =~= s);
    } else {
        assert(s =~= Seq::<u8>::empty());
    }
}

/// After a space-free first field and a space, the second field is the
/// prefix of the rest up to its first space.
pub proof fn lemma_second_field_after(prefix: Seq<u8>, rest: Seq<u8>)
    requires
        forall|i: int| 0 <= i < prefix.len() ==> prefix[i] != SPACE,
    ensures
        contains_space(prefix + seq![SPACE] + rest),
        second_field(prefix + seq![SPACE] + rest) == field_before_space(rest),
    decreases prefix.len(),
{
    let s = prefix + seq![SPACE] + rest;
    if prefix.len() == 0 {
        assert(s[0] == SPACE);
        assert(s.skip(1) =~= rest);
    } else {
        assert(s[0] == prefix[0]);
        assert(s[0] != SPACE);
        assert(forall|i: int|
            0 <= i < prefix.skip(1).len() ==> prefix.skip(1)[i] == prefix[i + 1]);
        lemma_second_field_after(prefix.skip(1), rest);
        assert(s.skip(1) =~= prefix.skip(1) + seq![SPACE] + rest);
    }
}

/// A sequence without whitespace is left unchanged by trimming.
pub proof fn lemma_trim_id(s: Seq<u8>)
    requires
        forall|i: int| 0 <= i < s.len() ==> !is_ascii_whitespace(s[i]),
    ensures
        trim(s) == s,
{
    if s.len() > 0 {
        assert(!is_ascii_whitespace(s[0]));
        assert(!is_ascii_whitespace(s.last()));
    } else {
        assert(s =~= Seq::<u8>::empty());
    }
}

/// Removes every line feed from `out`.
pub fn strip_newline_bytes(out: &[u8]) -> (r: Vec<u8>)
    ensures
        r@ == strip_newlines(out@),
{
    let mut r: Vec<u8> = Vec::new();
    let mut i: usize = 0;
    while i < out.len()
        invariant
            i <= out@.len(),
            r@ == strip_newlines(out@.take(i as int)),
        decreases out@.len() - i,
    {
        let b = out[i];
        assert(out@.take(i + 1).drop_last() =~= out@.take(i as int));
        assert(out@.take(i + 1).last() == out@[i as int]);
        if b != NEWLINE {
            r.push(b);
            assert(r@ =~= strip_newlines(out@.take(i as int)) + seq![out@[i as int]]);
        }
        i = i + 1;
    }
    assert(out@.take(out@.len() as int) =~= out@);
    r
}

/// `trim_start` skips exactly the leading whitespace.
proof fn lemma_trim_start_skip(s: Seq<u8>, i: int)
    requires
        0 <= i <= s.len(),
        forall|j: int| 0 <= j < i ==> is_ascii_whitespace(s[j]),
    ensures
        trim_start(s) == trim_start(s.skip(i)),
    decreases i,
{
    if i > 0 {
        assert(s.skip(0) =~= s);
        assert(is_ascii_whitespace(s[0]));
        assert(trim_start(s) == trim_start(s.skip(1)));
        lemma_trim_start_skip(s.skip(1), i - 1);
        assert(s.skip(1).skip(i - 1) =~= s.skip(i));
    } else {
        assert(s.skip(0) =~= s);
    }
}

/// `trim_end` drops exactly the trailing whitespace.
proof fn lemma_trim_end_take(s: Seq<u8>, i: int)
    requires
        0 <= i <= s.len(),
        forall|j: int| i <= j < s.len() ==> is_ascii_whitespace(s[j]),
    ensures
        trim_end(s) == trim_end(s.take(i)),
    decreases s.len() - i,
{
    if i < s.len() {
        assert(s.take(s.len() as int) =~= s);
        assert(is_ascii_whitespace(s.last()));
        assert(trim_end(s) == trim_end(s.drop_last()));
        assert(s.drop_last() =~= s.take(s.len() - 1));
        lemma_trim_end_take(s.take(s.len() - 1), i);
        assert(s.take(s.len() - 1).take(i) =~= s.take(i));
    } else {
        assert(s.take(s.len() as int) =~= s);
    }
}

/// Whether `b` is an ASCII whitespace byte.
fn is_whitespace_byte(b: u8) -> (r: bool)
    ensures
        r == is_ascii_whitespace(b),
{
    b == 9 || b == 10 || b == 11 || b == 12 || b == 13 || b == 32
}

/// Removes the leading and trailing whitespace of `v`.
pub fn trim_bytes(v: &[u8]) -> (r: Vec<u8>)
    ensures
        r@ == trim(v@),
{
    let mut start: usize = 0;
    while start < v.len() && is_whitespace_byte(v[start])
        invariant
            start <= v@.len(),
            forall|j: int| 0 <= j < start ==> is_ascii_whitespace(v@[j]),
        decreases v@.len() - start,
    {
        start = start + 1;
    }
    proof {
        lemma_trim_start_skip(v@, start as int);
    }
    // from here on, trim_start(v@) == v@.skip(start), whose first byte
    // (if any) is not whitespace
    let mut end: usize = v.len();
    while end > start && is_whitespace_byte(v[end - 1])
        invariant
            start <= end <= v@.len(),
            forall|j: int| 0 <= j < start ==> is_ascii_whitespace(v@[j]),
            forall|j: int| end <= j < v@.len() ==> is_ascii_whitespace(v@[j]),
        decreases end,
    {
        end = end - 1;
    }
    let ghost tail = v@.skip(start as int);
    proof {
        lemma_trim_end_take(tail, end - start);
        if start < v@.len() {
            assert(!is_ascii_whitespace(tail[0]));
            assert(trim_start(v@) == tail);
        } else {
            assert(tail =~= Seq::<u8>::empty());
            assert(trim_start(v@) == tail);
        }
        if end > start {
            assert(tail.take(end - start).last() == v@[end - 1]);
            assert(trim_end(tail.take(end - start)) == tail.take(end - start));
        } else {
            assert(tail.take(end - start) =~= Seq::<u8>::empty());
        }
    }
    let mut r: Vec<u8> = Vec::new();
    let mut i: usize = start;
    while i < end
        invariant
            start <= i <= end <= v@.len(),
            r@ =~= v@.subrange(start as int, i as int),
        decreases end - i,
    {
        r.push(v[i]);
        i = i + 1;
    }
    proof {
        assert(v@.subrange(start as int, end as int) =~= tail.take(end - start));
    }
    r
}

/// `second_field` and `contains_space` ignore a space-free prefix.
proof fn lemma_fields_skip(s: Seq<u8>, i: int)
    requires
        0 <= i <= s.len(),
        forall|j: int| 0 <= j < i ==> s[j] != SPACE,
    ensures
        contains_space(s) == contains_space(s.skip(i)),
        second_field(s) == second_field(s.skip(i)),
    decreases i,
{
    if i > 0 {
        assert(s.skip(0) =~= s);
        assert(s[0] != SPACE);
        lemma_fields_skip(s.skip(1), i - 1);
        assert(s.skip(1).skip(i - 1) =~= s.skip(i));
    } else {
        assert(s.skip(0) =~= s);
    }
}

/// `field_before_space` is the prefix up to the first space.
proof fn lemma_field_before_space_take(s: Seq<u8>, i: int)
    requires
        0 <= i <= s.len(),
        forall|j: int| 0 <= j < i ==> s[j] != SPACE,
        i == s.len() || s[i] == SPACE,
    ensures
        field_before_space(s) == s.take(i),
    decreases i,
{
    if i > 0 {
        assert(s[0] != SPACE);
        assert(field_before_space(s) == seq![s[0]] + field_before_space(s.skip(1)));
        lemma_field_before_space_take(s.skip(1), i - 1);
        assert(seq![s[0]] + s.skip(1).take(i - 1) =~= s.take(i));
    } else {
        if s.len() == 0 || s[0] == SPACE {
            assert(field_before_space(s) =~= s.take(0));
        }
    }
}

/// The value field of the reply `out`, as the reader of the
/// command-line tool's output extracts it.
pub fn reply_value(out: &[u8]) -> (r: Vec<u8>)
    ensures
        r@ == spec_reply_value(out@),
{
    let line = strip_newline_bytes(out);
    // find the first space of the newline-stripped line
    let mut i: usize = 0;
    while i < line.len() && line[i] != SPACE
        invariant
            i <= line@.len(),
            forall|j: int| 0 <= j < i ==> line@[j] != SPACE,
        decreases line@.len() - i,
    {
        i = i + 1;
    }
    proof {
        lemma_fields_skip(line@, i as int);
    }
    if i == line.len() {
        // no space: the whole line is the value
        proof {
            assert(line@.skip(i as int) =~= Seq::<u8>::empty());
            assert(!contains_space(line@));
        }
        return line;
    }
    // a space at i: the second field runs from i + 1 to the next space
    proof {
        assert(line@.skip(i as int)[0] == line@[i as int]);
        assert(contains_space(line@.skip(i as int)));
        assert(second_field(line@.skip(i as int)) == field_before_space(
            line@.skip(i as int).skip(1),
        ));
        assert(line@.skip(i as int).skip(1) =~= line@.skip(i + 1));
    }
    let mut j: usize = i + 1;
    while j < line.len() && line[j] != SPACE
        invariant
            i + 1 <= j <= line@.len(),
            forall|k: int| i + 1 <= k < j ==> line@[k] != SPACE,
        decreases line@.len() - j,
    {
        j = j + 1;
    }
    let ghost rest = line@.skip(i + 1);
    proof {
        assert forall|k: int| 0 <= k < j - i - 1 implies rest[k] != SPACE by {
            assert(rest[k] == line@[k + i + 1]);
        }
        if j < line@.len() {
            assert(rest[j - i - 1] == line@[j as int]);
        }
        lemma_field_before_space_take(rest, j - i - 1);
    }
    let mut field: Vec<u8> = Vec::new();
    let mut k: usize = i + 1;
    while k < j
        invariant
            i + 1 <= k <= j <= line@.len(),
            field@ =~= line@.subrange(i + 1, k as int),
        decreases j - k,
    {
        field.push(line[k]);
        k = k + 1;
    }
    proof {
        assert(line@.subrange(i + 1, j as int) =~= rest.take(j - i - 1));
    }
    let r = trim_bytes(field.as_slice());
    r
}

} // verus!
