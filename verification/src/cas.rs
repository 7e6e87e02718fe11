//! The ban list: reading the line-delimited export of banned user
//! identifiers.

use crate::state::UserId;
use crate::text::{chars_of, first_index, lemma_first_index_is};
use std::collections::HashSet;
use vstd::prelude::*;

verus! {

broadcast use vstd::std_specs::hash::group_hash_axioms;

/// Whether `c` is one of the digits `0` to `9`.
pub open spec fn is_digit(c: char) -> bool {
    '0' <= c <= '9'
}

/// Whether `s` is made of digits only.
pub open spec fn all_digits(s: Seq<char>) -> bool {
    forall|i: int| 0 <= i < s.len() ==> is_digit(#[trigger] s[i])
}

/// The number that a sequence of digits writes in base ten.
pub open spec fn decimal_value(s: Seq<char>) -> int
    decreases s.len(),
{
    if s.len() == 0 {
        0
    } else {
        decimal_value(s.drop_last()) * 10 + (s.last() as int - '0' as int)
    }
}

/// The identifier that a line holds: one or more digits, optionally after a
/// single `+`, whose value fits in 64 bits. Anything else holds none.
pub open spec fn user_id_in(line: Seq<char>) -> Option<UserId> {
    let digits = if line.len() > 0 && line[0] == '+' {
        line.drop_first()
    } else {
        line
    };
    if digits.len() > 0 && all_digits(digits) && decimal_value(digits) <= u64::MAX {
        Some(decimal_value(digits) as u64)
    } else {
        None
    }
}

proof fn lemma_decimal_value_grows(s: Seq<char>, k: int)
    requires
        all_digits(s),
        0 <= k <= s.len(),
    ensures
        0 <= decimal_value(s.take(k)) <= decimal_value(s),
    decreases s.len() - k,
{
    if k == s.len() {
        assert(s.take(k) =~= s);
        lemma_decimal_value_nonnegative(s);
    } else {
        lemma_decimal_value_grows(s, k + 1);
        let longer = s.take(k + 1);
        assert(longer.drop_last() =~= s.take(k));
        assert(is_digit(s[k]));
        assert(longer.last() == s[k]);
        assert(forall|i: int| 0 <= i < k ==> is_digit(#[trigger] s.take(k)[i]));
        lemma_decimal_value_nonnegative(s.take(k));
    }
}

/// The value of a sequence of digits is not negative.
pub proof fn lemma_decimal_value_nonnegative(s: Seq<char>)
    requires
        all_digits(s),
    ensures
        0 <= decimal_value(s),
    decreases s.len(),
{
    if s.len() > 0 {
        assert(forall|i: int| 0 <= i < s.len() - 1 ==> is_digit(#[trigger] s.drop_last()[i]));
        lemma_decimal_value_nonnegative(s.drop_last());
        assert(is_digit(s.last()));
    }
}

/// Reads the identifier written in `cs[from..to]`.
fn read_user_id(cs: &Vec<char>, from: usize, to: usize) -> (id: Option<UserId>)
    requires
        from <= to <= cs@.len(),
    ensures
        id == user_id_in(cs@.subrange(from as int, to as int)),
{
    let ghost line = cs@.subrange(from as int, to as int);
    let start: usize = if from < to && cs[from] == '+' {
        from + 1
    } else {
        from
    };
    let ghost digits = cs@.subrange(start as int, to as int);
    assert(digits =~= if line.len() > 0 && line[0] == '+' {
        line.drop_first()
    } else {
        line
    });
    if start == to {
        return None;
    }
    let mut value: u64 = 0;
    let mut i: usize = start;
    assert(digits.take(0) =~= Seq::<char>::empty());
    while i < to
        invariant
            from <= start <= i <= to <= cs@.len(),
            start < to,
            line == cs@.subrange(from as int, to as int),
            digits == cs@.subrange(start as int, to as int),
            digits == if line.len() > 0 && line[0] == '+' {
                line.drop_first()
            } else {
                line
            },
            forall|k: int| 0 <= k < i - start ==> is_digit(#[trigger] digits[k]),
            value == decimal_value(digits.take(i - start)),
        decreases to - i,
    {
        let c = cs[i];
        assert(c == digits[i - start]);
        if !('0' <= c && c <= '9') {
            assert(!is_digit(digits[i - start]));
            return None;
        }
        let d: u64 = (c as u64) - ('0' as u64);
        assert(digits.take(i - start + 1).drop_last() =~= digits.take(i - start));
        assert(digits.take(i - start + 1).last() == c);
        if value > (u64::MAX - d) / 10 {
            proof {
                if all_digits(digits) {
                    lemma_decimal_value_grows(digits, i - start + 1);
                }
            }
            return None;
        }
        value = value * 10 + d;
        i += 1;
    }
    assert(digits.take(to - start) =~= digits);
    assert(all_digits(digits));
    Some(value)
}

/// Reads the user identifier that a line holds.
pub fn parse_user_id(line: &str) -> (id: Option<UserId>)
    ensures
        id == user_id_in(line@),
{
    let cs = chars_of(line);
    assert(cs@.subrange(0, cs@.len() as int) =~= line@);
    read_user_id(&cs, 0, cs.len())
}

/// What became of one line of the export.
#[derive(Debug, Clone, Copy, PartialEq, Eq, Structural)]
pub enum LineOutcome {
    /// The line was empty and was passed over.
    Blank,
    /// The line held this identifier, which is now in the set.
    Listed(UserId),
    /// The line held no identifier and was passed over.
    Unparseable,
}

/// What a line does to the set that is being built.
pub open spec fn line_outcome(line: Seq<char>) -> LineOutcome {
    if line.len() == 0 {
        LineOutcome::Blank
    } else {
        match user_id_in(line) {
            Some(id) => LineOutcome::Listed(id),
            None => LineOutcome::Unparseable,
        }
    }
}

/// The set after a line: with the line's identifier where it holds one,
/// unchanged otherwise.
pub open spec fn with_line(ids: Set<UserId>, line: Seq<char>) -> Set<UserId> {
    match user_id_in(line) {
        Some(id) => ids.insert(id),
        None => ids,
    }
}

/// Takes one line of the export into the set that is being built. A line
/// that cannot be read is passed over, never fatal.
pub fn accept_line(ids: &mut HashSet<UserId>, line: &str) -> (outcome: LineOutcome)
    ensures
        outcome == line_outcome(line@),
        final(ids)@ == with_line(old(ids)@, line@),
{
    let cs = chars_of(line);
    if cs.len() == 0 {
        return LineOutcome::Blank;
    }
    assert(cs@.subrange(0, cs@.len() as int) =~= line@);
    match read_user_id(&cs, 0, cs.len()) {
        Some(id) => {
            ids.insert(id);
            LineOutcome::Listed(id)
        },
        None => LineOutcome::Unparseable,
    }
}

/// The length of the first line of `text`, its line feed not counted.
pub open spec fn line_end(text: Seq<char>) -> int {
    first_index(text, '\n')
}

/// A line without the carriage return that may end it.
pub open spec fn without_carriage_return(line: Seq<char>) -> Seq<char> {
    if line.len() > 0 && line.last() == '\r' {
        line.drop_last()
    } else {
        line
    }
}

/// The identifiers listed in a text, one per line. Lines end with a line
/// feed, optionally after a carriage return; the last line needs neither.
pub open spec fn ban_list_in(text: Seq<char>) -> Set<UserId>
    decreases text.len(),
{
    if text.len() == 0 {
        Set::empty()
    } else {
        let end = line_end(text);
        let rest = if end < text.len() {
            text.skip(end + 1)
        } else {
            Seq::empty()
        };
        if 0 <= end <= text.len() {
            with_line(ban_list_in(rest), without_carriage_return(text.take(end)))
        } else {
            Set::empty()
        }
    }
}

proof fn lemma_union_with_line(acc: Set<UserId>, rest: Set<UserId>, line: Seq<char>)
    ensures
        with_line(acc, line).union(rest) == acc.union(with_line(rest, line)),
{
    assert(with_line(acc, line).union(rest) =~= acc.union(with_line(rest, line)));
}

/// Reads a whole export into a fresh set. Lines that hold no identifier are
/// passed over.
pub fn read_ban_list(text: &str) -> (ids: HashSet<UserId>)
    ensures
        ids@ == ban_list_in(text@),
{
    let cs = chars_of(text);
    let n = cs.len();
    let mut ids: HashSet<UserId> = HashSet::new();
    let mut pos: usize = 0;
    let mut done = false;
    assert(text@.skip(0) =~= text@);
    assert(ids@.union(ban_list_in(text@)) =~= ban_list_in(text@));
    while !done
        invariant
            pos <= n,
            n == cs@.len(),
            cs@ == text@,
            done ==> pos == n,
            ids@.union(ban_list_in(text@.skip(pos as int))) == ban_list_in(text@),
        decreases n - pos + (if done { 0int } else { 1int }),
    {
        if pos == n {
            done = true;
        } else {
            let ghost remaining = text@.skip(pos as int);
            let mut end: usize = pos;
            while end < n && cs[end] != '\n'
                invariant
                    pos <= end <= n,
                    n == cs@.len(),
                    cs@ == text@,
                    forall|i: int| pos <= i < end ==> text@[i] != '\n',
                decreases n - end,
            {
                end += 1;
            }
            proof {
                assert forall|i: int| 0 <= i < end - pos implies remaining[i] != '\n' by {
                    assert(remaining[i] == text@[pos + i]);
                }
                lemma_first_index_is(remaining, '\n', end - pos);
            }
            let stop: usize = if end > pos && cs[end - 1] == '\r' {
                end - 1
            } else {
                end
            };
            let ghost line = without_carriage_return(remaining.take(end - pos));
            assert(line =~= cs@.subrange(pos as int, stop as int));
            let ghost before = ids@;
            match read_user_id(&cs, pos, stop) {
                Some(id) => {
                    ids.insert(id);
                },
                None => {},
            }
            assert(ids@ == with_line(before, line));
            let next: usize = if end < n {
                end + 1
            } else {
                n
            };
            proof {
                let rest = if end - pos < remaining.len() {
                    remaining.skip(end - pos + 1)
                } else {
                    Seq::empty()
                };
                assert(rest =~= text@.skip(next as int));
                lemma_union_with_line(before, ban_list_in(rest), line);
            }
            pos = next;
        }
    }
    assert(text@.skip(n as int) =~= Seq::<char>::empty());
    assert(ids@.union(Set::<UserId>::empty()) =~= ids@);
    ids
}

} // verus!
