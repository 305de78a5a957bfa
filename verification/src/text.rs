//! Text: comparing, cutting and joining strings, and decimal notation.

use vstd::prelude::*;

verus! {

/// Whether `text` begins with `prefix`.
pub open spec fn starts_with(text: Seq<char>, prefix: Seq<char>) -> bool {
    prefix.len() <= text.len() && text.take(prefix.len() as int) == prefix
}

/// `text` without its first `n` characters.
pub open spec fn after(text: Seq<char>, n: nat) -> Seq<char> {
    text.skip(n as int)
}

/// The part of `text` before the first `mark`, or all of it where there is none.
pub open spec fn before_mark(text: Seq<char>, mark: char) -> Seq<char>
    decreases text.len(),
{
    if text.len() == 0 || text[0] == mark {
        Seq::empty()
    } else {
        seq![text[0]] + before_mark(text.skip(1), mark)
    }
}

/// The part of `text` behind the last `mark`, or all of it where there is none.
pub open spec fn behind_mark(text: Seq<char>, mark: char) -> Seq<char>
    decreases text.len(),
{
    if text.len() == 0 || text.last() == mark {
        Seq::empty()
    } else {
        behind_mark(text.drop_last(), mark).push(text.last())
    }
}

/// The view of an optional string.
pub open spec fn opt_view(text: Option<String>) -> Option<Seq<char>> {
    match text {
        Some(t) => Some(t@),
        None => None,
    }
}

/// The view of an optional string slice.
pub open spec fn opt_str_view(text: Option<&str>) -> Option<Seq<char>> {
    match text {
        Some(t) => Some(t@),
        None => None,
    }
}

/// Whether the two strings hold the same characters.
pub fn same_text(a: &str, b: &str) -> (same: bool)
    ensures
        same == (a@ == b@),
{
    let mut left = a.chars();
    let mut right = b.chars();
    let ghost mut done: int = 0;
    assert(a@.skip(0) == a@ && b@.skip(0) == b@);
    loop
        invariant
            0 <= done <= a@.len(),
            done <= b@.len(),
            a@.take(done) == b@.take(done),
            vstd::std_specs::iter::IteratorSpec::remaining(&left) == a@.skip(done),
            vstd::std_specs::iter::IteratorSpec::remaining(&right) == b@.skip(done),
        decreases a@.len() - done,
    {
        let l = left.next();
        let r = right.next();
        match (l, r) {
            (None, None) => {
                assert(a@.take(done) == a@ && b@.take(done) == b@);
                return true;
            },
            (Some(x), Some(y)) => {
                if x != y {
                    assert(a@[done] != b@[done]);
                    return false;
                }
                proof {
                    assert(a@.take(done + 1) == a@.take(done).push(a@[done]));
                    assert(b@.take(done + 1) == b@.take(done).push(b@[done]));
                    done = done + 1;
                    assert(a@.skip(done - 1).drop_first() == a@.skip(done));
                    assert(b@.skip(done - 1).drop_first() == b@.skip(done));
                }
            },
            _ => {
                return false;
            },
        }
    }
}

/// `text` without `prefix`, where it begins with it.
pub fn strip_prefix<'a>(text: &'a str, prefix: &str) -> (rest: Option<&'a str>)
    ensures
        rest is Some == starts_with(text@, prefix@),
        rest matches Some(r) ==> r@ == after(text@, prefix@.len()),
{
    let mut left = text.chars();
    let mut right = prefix.chars();
    let ghost mut done: int = 0;
    assert(text@.skip(0) == text@ && prefix@.skip(0) == prefix@);
    loop
        invariant
            0 <= done <= text@.len(),
            done <= prefix@.len(),
            text@.take(done) == prefix@.take(done),
            vstd::std_specs::iter::IteratorSpec::remaining(&left) == text@.skip(done),
            vstd::std_specs::iter::IteratorSpec::remaining(&right) == prefix@.skip(done),
        decreases prefix@.len() - done,
    {
        match right.next() {
            None => {
                assert(prefix@.take(done) == prefix@);
                let start: usize = prefix.unicode_len();
                let end: usize = text.unicode_len();
                return Some(text.substring_char(start, end));
            },
            Some(y) => match left.next() {
                None => {
                    return None;
                },
                Some(x) => {
                    if x != y {
                        proof {
                            if starts_with(text@, prefix@) {
                                assert(text@.take(prefix@.len() as int)[done] == prefix@[done]);
                            }
                        }
                        return None;
                    }
                    proof {
                        assert(text@.take(done + 1) == text@.take(done).push(text@[done]));
                        assert(prefix@.take(done + 1) == prefix@.take(done).push(prefix@[done]));
                        done = done + 1;
                        assert(text@.skip(done - 1).drop_first() == text@.skip(done));
                        assert(prefix@.skip(done - 1).drop_first() == prefix@.skip(done));
                    }
                },
            },
        }
    }
}

/// Whether `text` begins with `prefix`.
pub fn has_prefix(text: &str, prefix: &str) -> (found: bool)
    ensures
        found == starts_with(text@, prefix@),
{
    strip_prefix(text, prefix).is_some()
}

/// The part of `text` before the first `mark`, and whether there is a `mark`.
pub fn cut_before<'a>(text: &'a str, mark: char) -> (cut: (&'a str, bool))
    ensures
        cut.0@ == before_mark(text@, mark),
        cut.1 == text@.contains(mark),
{
    let total: usize = text.unicode_len();
    let mut rest = text.chars();
    let mut done: usize = 0;
    assert(text@.skip(0) == text@);
    loop
        invariant
            0 <= done <= total,
            total == text@.len(),
            forall|i: int| 0 <= i < done ==> text@[i] != mark,
            before_mark(text@, mark) == text@.take(done as int) + before_mark(
                text@.skip(done as int),
                mark,
            ),
            vstd::std_specs::iter::IteratorSpec::remaining(&rest) == text@.skip(done as int),
        decreases total - done,
    {
        match rest.next() {
            None => {
                assert(text@.take(done as int) == text@);
                return (text, false);
            },
            Some(c) => {
                if c == mark {
                    assert(text@[done as int] == mark);
                    assert(text@.take(done as int) + Seq::<char>::empty() == text@.take(
                        done as int,
                    ));
                    return (text.substring_char(0, done), true);
                }
                proof {
                    let tail = text@.skip(done as int);
                    assert(tail.skip(1) == text@.skip(done + 1));
                    assert(tail.drop_first() == text@.skip(done + 1));
                    assert(text@.take(done as int) + (seq![tail[0]] + before_mark(
                        tail.skip(1),
                        mark,
                    )) == text@.take(done + 1) + before_mark(tail.skip(1), mark));
                }
                done = done + 1;
            },
        }
    }
}

/// The part of `text` behind the last `mark`.
pub fn cut_behind<'a>(text: &'a str, mark: char) -> (cut: &'a str)
    ensures
        cut@ == behind_mark(text@, mark),
{
    let total: usize = text.unicode_len();
    let mut rest = text.chars();
    let mut done: usize = 0;
    let mut start: usize = 0;
    assert(text@.skip(0) == text@);
    loop
        invariant
            0 <= start <= done <= total,
            total == text@.len(),
            behind_mark(text@.take(done as int), mark) == text@.subrange(start as int, done as int),
            vstd::std_specs::iter::IteratorSpec::remaining(&rest) == text@.skip(done as int),
        decreases total - done,
    {
        match rest.next() {
            None => {
                assert(text@.take(done as int) == text@);
                return text.substring_char(start, done);
            },
            Some(c) => {
                proof {
                    let longer = text@.take(done + 1);
                    assert(longer.last() == c);
                    assert(longer.drop_last() == text@.take(done as int));
                    assert(text@.skip(done as int).drop_first() == text@.skip(done + 1));
                    assert(text@.subrange(start as int, done as int).push(c) == text@.subrange(
                        start as int,
                        done + 1,
                    ));
                }
                done = done + 1;
                if c == mark {
                    start = done;
                    assert(text@.subrange(start as int, done as int) == Seq::<char>::empty());
                }
            },
        }
    }
}

/// An owned copy of an optional string slice.
pub fn own(text: Option<&str>) -> (copy: Option<String>)
    ensures
        opt_view(copy) == opt_str_view(text),
{
    match text {
        Some(t) => Some(t.to_owned()),
        None => None,
    }
}

/// A copy of an optional string.
pub fn copy_text(text: &Option<String>) -> (copy: Option<String>)
    ensures
        opt_view(copy) == opt_view(*text),
{
    match text {
        Some(t) => Some(t.clone()),
        None => None,
    }
}

/// The two strings, one behind the other.
pub fn join(a: &str, b: &str) -> (joined: String)
    ensures
        joined@ == a@ + b@,
{
    let mut joined = a.to_owned();
    joined.append(b);
    joined
}

/// The decimal digit for `d`.
pub open spec fn digit_char(d: nat) -> char
    recommends
        d < 10,
{
    ('0' as int + d) as char
}

/// `n` in decimal notation, without leading zeros.
pub open spec fn decimal(n: nat) -> Seq<char>
    decreases n,
{
    if n < 10 {
        seq![digit_char(n)]
    } else {
        decimal(n / 10).push(digit_char(n % 10))
    }
}

/// `n` in decimal notation, with a minus sign where it is negative.
pub open spec fn signed_decimal(n: int) -> Seq<char> {
    if n < 0 {
        seq!['-'] + decimal((-n) as nat)
    } else {
        decimal(n as nat)
    }
}

/// Whether `c` is one of the ten decimal digits.
pub open spec fn is_digit(c: char) -> bool {
    '0' <= c <= '9'
}

/// Whether `text` is one or more decimal digits.
pub open spec fn all_digits(text: Seq<char>) -> bool {
    text.len() > 0 && forall|i: int| 0 <= i < text.len() ==> is_digit(#[trigger] text[i])
}

/// The number that the digits of `text` denote.
pub open spec fn decimal_value(text: Seq<char>) -> nat
    decreases text.len(),
{
    if text.len() == 0 {
        0
    } else {
        10 * decimal_value(text.drop_last()) + (text.last() as int - '0' as int) as nat
    }
}

/// The digit `d` as text.
fn digit_text(d: u64) -> (text: &'static str)
    requires
        d < 10,
    ensures
        text@ == seq![digit_char(d as nat)],
{
    proof {
        reveal_strlit("0");
        reveal_strlit("1");
        reveal_strlit("2");
        reveal_strlit("3");
        reveal_strlit("4");
        reveal_strlit("5");
        reveal_strlit("6");
        reveal_strlit("7");
        reveal_strlit("8");
        reveal_strlit("9");
    }
    if d == 0 {
        "0"
    } else if d == 1 {
        "1"
    } else if d == 2 {
        "2"
    } else if d == 3 {
        "3"
    } else if d == 4 {
        "4"
    } else if d == 5 {
        "5"
    } else if d == 6 {
        "6"
    } else if d == 7 {
        "7"
    } else if d == 8 {
        "8"
    } else {
        "9"
    }
}

/// Writes `n` in decimal notation behind `out`.
pub fn push_decimal(out: &mut String, n: u64)
    ensures
        final(out)@ == old(out)@ + decimal(n as nat),
    decreases n,
{
    if n >= 10 {
        push_decimal(out, n / 10);
    }
    out.append(digit_text(n % 10));
}

/// Reading a number's decimal notation gives the number back.
pub proof fn decimal_reads_back(n: nat)
    ensures
        all_digits(decimal(n)),
        decimal_value(decimal(n)) == n,
    decreases n,
{
    if n < 10 {
        let text = decimal(n);
        assert(text.drop_last() == Seq::<char>::empty());
        assert(text.last() == digit_char(n));
        assert(decimal_value(text.drop_last()) == 0);
    } else {
        decimal_reads_back(n / 10);
        let text = decimal(n);
        assert(text.drop_last() == decimal(n / 10));
        assert(text.last() == digit_char(n % 10));
    }
}

/// The number that `text` denotes: digits behind an optional sign.
pub open spec fn denoted(text: Seq<char>) -> Option<int> {
    let signed = text.len() > 0 && (text[0] == '-' || text[0] == '+');
    let digits = if signed {
        text.skip(1)
    } else {
        text
    };
    if !all_digits(digits) {
        None
    } else if signed && text[0] == '-' {
        Some(-(decimal_value(digits) as int))
    } else {
        Some(decimal_value(digits) as int)
    }
}

/// A zero in front does not count.
proof fn lemma_zero_in_front(text: Seq<char>)
    requires
        text.len() > 0,
        text[0] == '0',
    ensures
        decimal_value(text) == decimal_value(text.skip(1)),
    decreases text.len(),
{
    if text.len() == 1 {
        assert(text.drop_last() =~= Seq::<char>::empty());
        assert(text.skip(1) =~= Seq::<char>::empty());
    } else {
        lemma_zero_in_front(text.drop_last());
        assert(text.skip(1).drop_last() =~= text.drop_last().skip(1));
    }
}

/// Zeros in front do not count.
proof fn lemma_zeros_in_front(text: Seq<char>, n: int)
    requires
        0 <= n <= text.len(),
        forall|i: int| 0 <= i < n ==> text[i] == '0',
    ensures
        decimal_value(text) == decimal_value(text.skip(n)),
    decreases n,
{
    if n == 0 {
        assert(text.skip(0) =~= text);
    } else {
        lemma_zero_in_front(text);
        lemma_zeros_in_front(text.skip(1), n - 1);
        assert(text.skip(1).skip(n - 1) =~= text.skip(n));
    }
}

/// Digits that begin with no zero are the decimal notation of what they denote.
pub proof fn digits_are_notation(text: Seq<char>)
    requires
        all_digits(text),
        text[0] != '0',
    ensures
        decimal_value(text) > 0,
        decimal(decimal_value(text)) == text,
    decreases text.len(),
{
    let shorter = text.drop_last();
    let digit = (text.last() as int - '0' as int) as nat;
    assert(is_digit(text[text.len() - 1]));
    assert(text.last() == digit_char(digit));
    if text.len() == 1 {
        assert(shorter =~= Seq::<char>::empty());
        assert(decimal_value(shorter) == 0);
        assert(text =~= seq![text.last()]);
    } else {
        assert forall|i: int| 0 <= i < shorter.len() implies is_digit(#[trigger] shorter[i]) by {
            assert(shorter[i] == text[i]);
        }
        digits_are_notation(shorter);
        assert(decimal_value(text) == 10 * decimal_value(shorter) + digit);
        assert(text =~= shorter.push(text.last()));
    }
}

/// The usual notation of the number that `text` denotes, if it denotes one: without a plus sign
/// and without zeros in front.
pub fn usual_notation(text: &str) -> (usual: Option<String>)
    ensures
        usual is Some == denoted(text@) is Some,
        usual matches Some(u) ==> u@ == signed_decimal(denoted(text@)->0),
{
    let total: usize = text.unicode_len();
    if total == 0 {
        return None;
    }
    let first = text.get_char(0);
    let negative = first == '-';
    let start: usize = if negative || first == '+' {
        1
    } else {
        0
    };
    let digits = text.substring_char(start, total);
    let count: usize = total - start;
    let ghost all = digits@;
    proof {
        if start == 0 {
            assert(all =~= text@);
        } else {
            assert(all =~= text@.skip(1));
        }
    }
    if count == 0 {
        return None;
    }
    let mut rest = digits.chars();
    let mut done: usize = 0;
    let mut zeros: usize = 0;
    assert(all.skip(0) == all);
    loop
        invariant_except_break
            vstd::std_specs::iter::IteratorSpec::remaining(&rest) == all.skip(done as int),
        invariant
            0 <= zeros <= done <= count,
            count == all.len(),
            count > 0,
            denoted(text@) is Some ==> all_digits(all),
            forall|i: int| 0 <= i < done ==> is_digit(#[trigger] all[i]),
            forall|i: int| 0 <= i < zeros ==> all[i] == '0',
            zeros < done ==> all[zeros as int] != '0',
        ensures
            done == count,
        decreases count - done,
    {
        match rest.next() {
            None => {
                break;
            },
            Some(c) => {
                assert(c == all[done as int]);
                if !('0' <= c && c <= '9') {
                    assert(!is_digit(all[done as int]));
                    return None;
                }
                assert(all.skip(done as int).drop_first() == all.skip(done + 1));
                if c == '0' && zeros == done {
                    zeros = zeros + 1;
                }
                done = done + 1;
            },
        }
    }
    assert(all_digits(all));
    proof {
        lemma_zeros_in_front(all, zeros as int);
    }
    if zeros == count {
        assert(all.skip(count as int) =~= Seq::<char>::empty());
        proof {
            reveal_strlit("0");
        }
        assert("0"@ =~= decimal(0));
        return Some("0".to_owned());
    }
    let significant = digits.substring_char(zeros, count);
    proof {
        assert(significant@ =~= all.skip(zeros as int));
        assert forall|i: int| 0 <= i < significant@.len() implies is_digit(
            #[trigger] significant@[i],
        ) by {
            assert(significant@[i] == all[zeros + i]);
        }
        digits_are_notation(significant@);
    }
    if negative {
        proof {
            reveal_strlit("-");
        }
        assert("-"@ =~= seq!['-']);
        Some(join("-", significant))
    } else {
        Some(significant.to_owned())
    }
}

/// A text begins with exactly what can stand in front of a rest, and what follows is that rest.
pub proof fn prefix_stands_in_front(prefix: Seq<char>, rest: Seq<char>, text: Seq<char>)
    ensures
        starts_with(prefix + rest, prefix),
        after(prefix + rest, prefix.len()) == rest,
        starts_with(text, prefix) ==> text == prefix + after(text, prefix.len()),
        starts_with(text, prefix) <==> exists|tail: Seq<char>| text == #[trigger] (prefix + tail),
{
    assert((prefix + rest).take(prefix.len() as int) =~= prefix);
    assert((prefix + rest).skip(prefix.len() as int) =~= rest);
    if starts_with(text, prefix) {
        assert(text =~= prefix + after(text, prefix.len()));
    }
    if exists|tail: Seq<char>| text == #[trigger] (prefix + tail) {
        let tail = choose|tail: Seq<char>| text == #[trigger] (prefix + tail);
        assert((prefix + tail).take(prefix.len() as int) =~= prefix);
    }
}

/// What stands in front of the first mark is what is cut off there, whatever follows; a text without
/// the mark is left whole.
pub proof fn front_ends_at_first_mark(front: Seq<char>, mark: char, back: Seq<char>)
    requires
        forall|i: int| 0 <= i < front.len() ==> front[i] != mark,
    ensures
        before_mark(front + seq![mark] + back, mark) == front,
        before_mark(front, mark) == front,
    decreases front.len(),
{
    let whole = front + seq![mark] + back;
    if front.len() == 0 {
        assert(whole[0] == mark);
        assert(front =~= Seq::<char>::empty());
    } else {
        let shorter = front.skip(1);
        assert forall|i: int| 0 <= i < shorter.len() implies shorter[i] != mark by {
            assert(shorter[i] == front[i + 1]);
        }
        front_ends_at_first_mark(shorter, mark, back);
        assert(whole.skip(1) =~= shorter + seq![mark] + back);
        assert(whole[0] == front[0]);
        assert(seq![front[0]] + shorter =~= front);
    }
}

/// What stands behind the last mark is what is found there, whatever came before; a text without the
/// mark is left whole.
pub proof fn back_begins_behind_last_mark(front: Seq<char>, mark: char, back: Seq<char>)
    requires
        forall|i: int| 0 <= i < back.len() ==> back[i] != mark,
    ensures
        behind_mark(front + seq![mark] + back, mark) == back,
        behind_mark(back, mark) == back,
    decreases back.len(),
{
    let whole = front + seq![mark] + back;
    if back.len() == 0 {
        assert(whole.last() == mark);
        assert(back =~= Seq::<char>::empty());
    } else {
        let shorter = back.drop_last();
        assert forall|i: int| 0 <= i < shorter.len() implies shorter[i] != mark by {
            assert(shorter[i] == back[i]);
        }
        back_begins_behind_last_mark(front, mark, shorter);
        assert(whole.drop_last() =~= front + seq![mark] + shorter);
        assert(whole.last() == back.last());
        assert(back.last() == back[back.len() - 1]);
        assert(back =~= shorter.push(back.last()));
    }
}

/// Optional texts are seen whole.
pub proof fn optional_texts_are_seen_whole(owned: String, borrowed: &str)
    ensures
        opt_view(Some(owned)) == Some(owned@),
        opt_view(None::<String>) == None::<Seq<char>>,
        opt_str_view(Some(borrowed)) == Some(borrowed@),
        opt_str_view(None::<&str>) == None::<Seq<char>>,
{
}

/// The ten digits follow each other from zero on, and there are no others.
pub proof fn digits_follow_each_other(c: char)
    ensures
        is_digit(c) <==> 48 <= c as int <= 57,
        is_digit(c) ==> digit_char((c as int - 48) as nat) == c,
        forall|d: nat| d < 10 ==> #[trigger] digit_char(d) as int == 48 + d,
{
}

/// A digit behind others makes the number ten times as large and adds the digit.
pub proof fn digit_behind_counts_once(text: Seq<char>, d: nat)
    requires
        d < 10,
    ensures
        decimal_value(text.push(digit_char(d))) == 10 * decimal_value(text) + d,
        decimal_value(Seq::<char>::empty()) == 0,
{
    assert(text.push(digit_char(d)).drop_last() =~= text);
}

/// Decimal notation: digits alone, none of them a zero in front, that denote the number.
pub proof fn notation_is_exact(n: nat)
    ensures
        decimal(n).len() > 0,
        forall|i: int| 0 <= i < decimal(n).len() ==> 48 <= #[trigger] decimal(n)[i] as int <= 57,
        decimal_value(decimal(n)) == n,
        n > 0 ==> decimal(n)[0] != '0',
        n == 0 ==> decimal(n) == seq!['0'],
    decreases n,
{
    decimal_reads_back(n);
    assert forall|i: int| 0 <= i < decimal(n).len() implies 48 <= #[trigger] decimal(n)[i] as int
        <= 57 by {
        assert(is_digit(decimal(n)[i]));
    }
    if n >= 10 {
        notation_is_exact(n / 10);
        assert(decimal(n)[0] == decimal(n / 10)[0]);
    }
}

/// A number is denoted by its notation, by digits with zeros in front and by a sign before digits;
/// signs alone, and texts with another character, denote none.
pub proof fn numbers_are_denoted(n: int, digits: Seq<char>, text: Seq<char>)
    requires
        digits.len() > 0,
        forall|i: int| 0 <= i < digits.len() ==> 48 <= #[trigger] digits[i] as int <= 57,
    ensures
        denoted(signed_decimal(n)) == Some(n),
        denoted(digits) == Some(decimal_value(digits) as int),
        denoted(seq!['+'] + digits) == Some(decimal_value(digits) as int),
        denoted(seq!['-'] + digits) == Some(-(decimal_value(digits) as int)),
        n >= 0 ==> signed_decimal(n) == decimal(n as nat),
        n < 0 ==> signed_decimal(n) == seq!['-'] + decimal((-n) as nat),
        denoted(Seq::empty()) is None,
        denoted(seq!['+']) is None,
        denoted(seq!['-']) is None,
        (exists|i: int| 0 < i < text.len() && !(48 <= #[trigger] text[i] as int <= 57))
            ==> denoted(text) is None,
        (text.len() > 0 && text[0] != '+' && text[0] != '-' && !(48 <= text[0] as int <= 57))
            ==> denoted(text) is None,
{
    assert forall|i: int| 0 <= i < digits.len() implies is_digit(#[trigger] digits[i]) by {}
    assert((seq!['+'] + digits).skip(1) =~= digits);
    assert((seq!['-'] + digits).skip(1) =~= digits);
    assert(48 <= digits[0] as int <= 57);
    assert(seq!['+'].skip(1) =~= Seq::<char>::empty());
    assert(seq!['-'].skip(1) =~= Seq::<char>::empty());
    if n < 0 {
        let size = decimal((-n) as nat);
        decimal_reads_back((-n) as nat);
        assert((seq!['-'] + size).skip(1) =~= size);
    } else {
        decimal_reads_back(n as nat);
        assert(is_digit(decimal(n as nat)[0]));
    }
    if exists|i: int| 0 < i < text.len() && !(48 <= #[trigger] text[i] as int <= 57) {
        let i = choose|i: int| 0 < i < text.len() && !(48 <= #[trigger] text[i] as int <= 57);
        assert(!is_digit(text[i]));
        assert(text.skip(1)[i - 1] == text[i]);
    }
}

} // verus!
