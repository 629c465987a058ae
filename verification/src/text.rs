//! Counting the lines of a command's output and writing a count in decimal.

use vstd::prelude::*;
use vstd::utf8::{pop_first_scalar, valid_first_scalar, valid_utf8, valid_utf8_concat};

verus! {

/// The byte that ends a line.
pub const NEWLINE: u8 = 10;

/// How many bytes of `bytes` are line feeds.
pub open spec fn newlines(bytes: Seq<u8>) -> nat
    decreases bytes.len(),
{
    if bytes.len() == 0 {
        0
    } else {
        newlines(bytes.drop_last()) + if bytes.last() == NEWLINE {
            1nat
        } else {
            0nat
        }
    }
}

/// How many lines `bytes` hold: one for each line feed, and one more for a
/// last line that no line feed ends.
pub open spec fn line_count(bytes: Seq<u8>) -> nat {
    if bytes.len() > 0 && bytes.last() != NEWLINE {
        newlines(bytes) + 1
    } else {
        newlines(bytes)
    }
}

/// No more line feeds than bytes.
pub proof fn lemma_newlines_bounded(bytes: Seq<u8>)
    ensures
        newlines(bytes) <= bytes.len(),
        bytes.len() > 0 && bytes.last() != NEWLINE ==> newlines(bytes) < bytes.len(),
    decreases bytes.len(),
{
    if bytes.len() > 0 {
        lemma_newlines_bounded(bytes.drop_last());
    }
}

/// Only the empty output has no line.
pub proof fn lemma_no_line_iff_empty(bytes: Seq<u8>)
    ensures
        line_count(bytes) == 0 <==> bytes.len() == 0,
{
}

/// The line feeds of two pieces add up.
pub proof fn lemma_newlines_concat(a: Seq<u8>, b: Seq<u8>)
    ensures
        newlines(a + b) == newlines(a) + newlines(b),
    decreases b.len(),
{
    if b.len() == 0 {
        assert(a + b =~= a);
    } else {
        assert((a + b).drop_last() =~= a + b.drop_last());
        lemma_newlines_concat(a, b.drop_last());
    }
}

/// A piece without a line feed adds none.
pub proof fn lemma_newlines_none(bytes: Seq<u8>)
    requires
        !bytes.contains(NEWLINE),
    ensures
        newlines(bytes) == 0,
    decreases bytes.len(),
{
    if bytes.len() > 0 {
        let front = bytes.drop_last();
        assert(bytes[bytes.len() - 1] == bytes.last());
        assert forall|i: int| 0 <= i < front.len() implies front[i] != NEWLINE by {
            assert(bytes[i] == front[i]);
        }
        lemma_newlines_none(front);
    }
}

/// The output that lists `records` one to a line, each line ended by a line
/// feed.
pub open spec fn terminated(records: Seq<Seq<u8>>) -> Seq<u8>
    decreases records.len(),
{
    if records.len() == 0 {
        Seq::empty()
    } else {
        terminated(records.drop_last()) + records.last() + seq![NEWLINE]
    }
}

/// Whether no record holds a line feed of its own.
pub open spec fn single_lines(records: Seq<Seq<u8>>) -> bool {
    forall|i: int| 0 <= i < records.len() ==> !(#[trigger] records[i]).contains(NEWLINE)
}

/// Records listed one to a line are as many lines as there are records.
pub proof fn lemma_line_count_of_records(records: Seq<Seq<u8>>)
    requires
        single_lines(records),
    ensures
        line_count(terminated(records)) == records.len(),
        newlines(terminated(records)) == records.len(),
    decreases records.len(),
{
    if records.len() > 0 {
        let front = records.drop_last();
        assert(single_lines(front)) by {
            assert forall|i: int| 0 <= i < front.len() implies !(#[trigger] front[i]).contains(
                NEWLINE,
            ) by {
                assert(front[i] == records[i]);
            }
        }
        lemma_line_count_of_records(front);
        assert(!records[records.len() - 1].contains(NEWLINE));
        lemma_newlines_none(records.last());
        lemma_newlines_concat(terminated(front), records.last());
        lemma_newlines_concat(terminated(front) + records.last(), seq![NEWLINE]);
        assert(newlines(seq![NEWLINE]) == 1) by {
            assert(seq![NEWLINE].drop_last() =~= Seq::<u8>::empty());
            assert(newlines(Seq::<u8>::empty()) == 0);
            assert(seq![NEWLINE].last() == NEWLINE);
        }
        assert(terminated(records).last() == NEWLINE);
    }
}

/// Whether every record is well-formed UTF-8.
pub open spec fn all_text(records: Seq<Seq<u8>>) -> bool {
    forall|i: int| 0 <= i < records.len() ==> valid_utf8(#[trigger] records[i])
}

/// A line feed alone is well-formed UTF-8.
pub proof fn lemma_line_feed_is_text()
    ensures
        valid_utf8(seq![NEWLINE]),
{
    let feed = seq![NEWLINE];
    assert(feed[0] == 10u8);
    assert(10u8 & 0x7F == 10u8) by (bit_vector);
    assert(valid_first_scalar(feed));
    assert(pop_first_scalar(feed) =~= Seq::<u8>::empty());
    assert(valid_utf8(Seq::<u8>::empty()));
}

/// Records that are text, listed one to a line, are text.
pub proof fn lemma_terminated_is_text(records: Seq<Seq<u8>>)
    requires
        all_text(records),
    ensures
        valid_utf8(terminated(records)),
    decreases records.len(),
{
    if records.len() > 0 {
        let front = records.drop_last();
        assert(all_text(front)) by {
            assert forall|i: int| 0 <= i < front.len() implies valid_utf8(#[trigger] front[i]) by {
                assert(front[i] == records[i]);
            }
        }
        lemma_terminated_is_text(front);
        assert(valid_utf8(records[records.len() - 1]));
        lemma_line_feed_is_text();
        valid_utf8_concat(terminated(front), records.last());
        valid_utf8_concat(terminated(front) + records.last(), seq![NEWLINE]);
    }
}

/// Counts the lines of `bytes`.
pub fn count_lines(bytes: &Vec<u8>) -> (count: usize)
    ensures
        count == line_count(bytes@),
{
    let mut count: usize = 0;
    let mut i: usize = 0;
    while i < bytes.len()
        invariant
            i <= bytes.len(),
            count == newlines(bytes@.take(i as int)),
            count <= i,
        decreases bytes.len() - i,
    {
        proof {
            assert(bytes@.take(i + 1).drop_last() =~= bytes@.take(i as int));
        }
        if bytes[i] == NEWLINE {
            count = count + 1;
        }
        i = i + 1;
    }
    proof {
        assert(bytes@.take(i as int) =~= bytes@);
        lemma_newlines_bounded(bytes@);
    }
    if bytes.len() > 0 && bytes[bytes.len() - 1] != NEWLINE {
        count = count + 1;
    }
    count
}

/// Whether `bytes` are well-formed UTF-8.
///
/// Trusted: calls `std::str::from_utf8`, which succeeds exactly on well-formed
/// UTF-8, and reports whether it did.
#[verifier::external_body]
pub(crate) fn is_utf8(bytes: &Vec<u8>) -> (ok: bool)
    ensures
        ok == valid_utf8(bytes@),
{
    std::str::from_utf8(bytes.as_slice()).is_ok()
}

/// The character of a decimal digit.
pub open spec fn digit_char(d: nat) -> char {
    if d == 0 {
        '0'
    } else if d == 1 {
        '1'
    } else if d == 2 {
        '2'
    } else if d == 3 {
        '3'
    } else if d == 4 {
        '4'
    } else if d == 5 {
        '5'
    } else if d == 6 {
        '6'
    } else if d == 7 {
        '7'
    } else if d == 8 {
        '8'
    } else {
        '9'
    }
}

/// The decimal numeral of `n`: no sign, no leading zero but for zero itself.
pub open spec fn decimal(n: nat) -> Seq<char>
    decreases n,
{
    if n < 10 {
        seq![digit_char(n)]
    } else {
        decimal(n / 10).push(digit_char(n % 10))
    }
}

/// The numeral of one digit.
fn digit_str(d: usize) -> (s: &'static str)
    requires
        d < 10,
    ensures
        s@ == seq![digit_char(d as nat)],
{
    proof {
        reveal_strlit("0");
        reveal_strlit("1");
        reveal_strlit("2");
        reveal_strlit("3");
        reveal_strlit("4");
        reveal_strlit("5");
        reveal_strlit("6");
        reveal_strlit("7");
        reveal_strlit("8");
        reveal_strlit("9");
    }
    let s = if d == 0 {
        "0"
    } else if d == 1 {
        "1"
    } else if d == 2 {
        "2"
    } else if d == 3 {
        "3"
    } else if d == 4 {
        "4"
    } else if d == 5 {
        "5"
    } else if d == 6 {
        "6"
    } else if d == 7 {
        "7"
    } else if d == 8 {
        "8"
    } else {
        "9"
    };
    assert(s@ =~= seq![digit_char(d as nat)]);
    s
}

/// Writes `n` in decimal.
pub fn decimal_string(n: usize) -> (s: String)
    ensures
        s@ == decimal(n as nat),
    decreases n,
{
    if n < 10 {
        String::from_str(digit_str(n))
    } else {
        let mut s = decimal_string(n / 10);
        s.append(digit_str(n % 10));
        assert(s@ =~= decimal(n as nat));
        s
    }
}

/// A numeral is never empty, so it never reads as the blank text.
pub proof fn lemma_decimal_nonempty(n: nat)
    ensures
        decimal(n).len() > 0,
    decreases n,
{
    if n >= 10 {
        lemma_decimal_nonempty(n / 10);
    }
}

} // verus!
