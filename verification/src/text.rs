//! Text primitives shared by the other modules: comparison, field splitting,
//! line-terminator stripping and signed decimal numbers, all stated over
//! sequences of characters.

use vstd::prelude::*;
use vstd::string::*;

verus! {

/// The views of a sequence of strings, element by element.
pub open spec fn views(items: Seq<String>) -> Seq<Seq<char>> {
    Seq::new(items.len(), |i: int| items[i]@)
}

/// The characters of `s`, in order.
pub fn to_chars(s: &str) -> (chars: Vec<char>)
    ensures
        chars@ == s@,
{
    let mut chars: Vec<char> = Vec::new();
    for c in it: s.chars()
        invariant
            chars@ == it.seq().take(it.index() as int),
            it.seq() == s@,
    {
        chars.push(c);
    }
    chars
}

/// Whether two strings hold the same characters.
pub fn str_eq(a: &str, b: &str) -> (same: bool)
    ensures
        same == (a@ == b@),
{
    let left = to_chars(a);
    let right = to_chars(b);
    if left.len() != right.len() {
        return false;
    }
    let n: usize = left.len();
    let mut i: usize = 0;
    while i < n
        invariant
            left@ == a@,
            right@ == b@,
            n == left@.len(),
            n == right@.len(),
            i <= n,
            left@.take(i as int) == right@.take(i as int),
        decreases n - i,
    {
        if left[i] != right[i] {
            return false;
        }
        i += 1;
    }
    assert(left@.take(n as int) == left@);
    assert(right@.take(n as int) == right@);
    true
}

/// The fields of `s` when it is cut at every occurrence of `sep`.
///
/// Reading `s` from the left, each separator closes the current field and
/// opens a new, empty one; any other character is appended to the current
/// field. The empty text therefore has one empty field.
pub open spec fn split(s: Seq<char>, sep: char) -> Seq<Seq<char>>
    decreases s.len(),
{
    if s.len() == 0 {
        seq![Seq::<char>::empty()]
    } else {
        let before = split(s.drop_last(), sep);
        if s.last() == sep {
            before.push(Seq::<char>::empty())
        } else {
            before.drop_last().push(before.last().push(s.last()))
        }
    }
}

/// The number of occurrences of `sep` in `s`.
pub open spec fn count(s: Seq<char>, sep: char) -> nat
    decreases s.len(),
{
    if s.len() == 0 {
        0
    } else if s.last() == sep {
        count(s.drop_last(), sep) + 1
    } else {
        count(s.drop_last(), sep)
    }
}

/// The fields in `fields`, written one after another with `sep` between
/// each two neighbours.
pub open spec fn join(fields: Seq<Seq<char>>, sep: char) -> Seq<char>
    decreases fields.len(),
{
    if fields.len() == 0 {
        Seq::<char>::empty()
    } else if fields.len() == 1 {
        fields[0]
    } else {
        join(fields.drop_last(), sep).push(sep) + fields.last()
    }
}

/// A text always has one field more than it has separators.
pub proof fn lemma_split_len(s: Seq<char>, sep: char)
    ensures
        split(s, sep).len() == count(s, sep) + 1,
    decreases s.len(),
{
    if s.len() > 0 {
        lemma_split_len(s.drop_last(), sep);
    }
}

/// No field of a split text holds the separator.
pub proof fn lemma_split_fields_free_of_sep(s: Seq<char>, sep: char)
    ensures
        forall|k: int, j: int|
            0 <= k < split(s, sep).len() && 0 <= j < split(s, sep)[k].len()
                ==> split(s, sep)[k][j] != sep,
    decreases s.len(),
{
    if s.len() > 0 {
        lemma_split_len(s.drop_last(), sep);
        lemma_split_fields_free_of_sep(s.drop_last(), sep);
    }
}

/// Joining the fields of a split text with the same separator gives the
/// text back.
pub proof fn lemma_join_split(s: Seq<char>, sep: char)
    ensures
        join(split(s, sep), sep) == s,
    decreases s.len(),
{
    if s.len() > 0 {
        let shorter = s.drop_last();
        let before = split(shorter, sep);
        lemma_split_len(shorter, sep);
        lemma_join_split(shorter, sep);
        if s.last() == sep {
            assert(before.push(Seq::<char>::empty()).drop_last() =~= before);
        } else {
            let grown = before.last().push(s.last());
            assert(before.drop_last().push(grown).drop_last() =~= before.drop_last());
            if before.len() > 1 {
                let front = join(before.drop_last(), sep).push(sep);
                assert(front + grown =~= (front + before.last()).push(s.last()));
            }
        }
    }
}

/// Whether `s` holds no occurrence of `sep`.
pub open spec fn free_of(s: Seq<char>, sep: char) -> bool {
    forall|j: int| 0 <= j < s.len() ==> s[j] != sep
}

/// A text without separator is its own single field.
pub proof fn lemma_split_plain(s: Seq<char>, sep: char)
    requires
        free_of(s, sep),
    ensures
        split(s, sep) == seq![s],
    decreases s.len(),
{
    if s.len() == 0 {
        assert(s =~= Seq::<char>::empty());
    } else {
        lemma_split_plain(s.drop_last(), sep);
        assert(s.drop_last().push(s.last()) =~= s);
    }
}

/// Behind a separator, a text without separator is one more field.
pub proof fn lemma_split_appended_field(head: Seq<char>, field: Seq<char>, sep: char)
    requires
        free_of(field, sep),
    ensures
        split(head.push(sep) + field, sep) == split(head, sep).push(field),
    decreases field.len(),
{
    let whole = head.push(sep) + field;
    if field.len() == 0 {
        assert(whole.drop_last() =~= head);
        assert(field =~= Seq::<char>::empty());
    } else {
        let shorter = field.drop_last();
        lemma_split_appended_field(head, shorter, sep);
        assert(whole.drop_last() =~= head.push(sep) + shorter);
        assert(shorter.push(field.last()) =~= field);
    }
}

/// Fields that hold no separator are read back as they were written:
/// splitting what they are joined to gives the same fields.
pub proof fn lemma_split_join(fields: Seq<Seq<char>>, sep: char)
    requires
        fields.len() > 0,
        forall|k: int| 0 <= k < fields.len() ==> free_of(#[trigger] fields[k], sep),
    ensures
        split(join(fields, sep), sep) == fields,
    decreases fields.len(),
{
    if fields.len() == 1 {
        lemma_split_plain(fields[0], sep);
    } else {
        let front = fields.drop_last();
        assert forall|k: int| 0 <= k < front.len() implies free_of(#[trigger] front[k], sep) by {
        }
        lemma_split_join(front, sep);
        lemma_split_appended_field(join(front, sep), fields.last(), sep);
    }
}

/// Cuts `s` at every occurrence of `sep`.
pub fn split_fields(s: &str, sep: char) -> (fields: Vec<String>)
    ensures
        views(fields@) == split(s@, sep),
{
    let chars = to_chars(s);
    let n: usize = chars.len();
    let mut fields: Vec<String> = Vec::new();
    let mut start: usize = 0;
    let mut i: usize = 0;
    while i < n
        invariant
            chars@ == s@,
            n == s@.len(),
            start <= i <= n,
            split(s@.take(i as int), sep).len() == fields@.len() + 1,
            split(s@.take(i as int), sep).drop_last() == views(fields@),
            split(s@.take(i as int), sep).last() == s@.subrange(start as int, i as int),
        decreases n - i,
    {
        let ghost before = split(s@.take(i as int), sep);
        assert(s@.take(i + 1).drop_last() =~= s@.take(i as int));
        if chars[i] == sep {
            let field = String::from_str(s.substring_char(start, i));
            fields.push(field);
            start = i + 1;
            assert(views(fields@) =~= before) by {
                assert(before =~= before.drop_last().push(before.last()));
            }
        }
        i += 1;
    }
    let ghost whole = split(s@, sep);
    assert(s@.take(n as int) =~= s@);
    let field = String::from_str(s.substring_char(start, n));
    fields.push(field);
    assert(whole =~= whole.drop_last().push(whole.last()));
    fields
}

/// The characters that end a line: line feed and carriage return.
pub open spec fn is_line_terminator(c: char) -> bool {
    c == '\n' || c == '\r'
}

/// How many characters of `s` are left when every line terminator at its
/// end is taken away.
pub open spec fn stripped_len(s: Seq<char>) -> nat
    decreases s.len(),
{
    if s.len() > 0 && is_line_terminator(s.last()) {
        stripped_len(s.drop_last())
    } else {
        s.len()
    }
}

/// `s` without the line terminators at its end.
pub open spec fn strip_line_end(s: Seq<char>) -> Seq<char> {
    s.take(stripped_len(s) as int)
}

/// What is left after stripping is a prefix of the text that does not end in
/// a line terminator, and everything that was dropped is a line terminator.
pub proof fn lemma_strip_line_end(s: Seq<char>)
    ensures
        stripped_len(s) <= s.len(),
        strip_line_end(s).len() == stripped_len(s),
        strip_line_end(s).len() > 0 ==> !is_line_terminator(strip_line_end(s).last()),
        forall|i: int| stripped_len(s) <= i < s.len() ==> is_line_terminator(s[i]),
        s == strip_line_end(s) + s.skip(stripped_len(s) as int),
    decreases s.len(),
{
    if s.len() > 0 && is_line_terminator(s.last()) {
        let shorter = s.drop_last();
        lemma_strip_line_end(shorter);
        assert forall|i: int| stripped_len(s) <= i < s.len() implies is_line_terminator(
            s[i],
        ) by {
            if i < shorter.len() {
                assert(shorter[i] == s[i]);
            }
        }
    }
}

/// A text that holds no line terminator at its end is left as it is, and
/// stripping twice strips no more than stripping once.
pub proof fn lemma_strip_line_end_idempotent(s: Seq<char>)
    ensures
        strip_line_end(strip_line_end(s)) == strip_line_end(s),
{
    lemma_strip_line_end(s);
}

/// Appending line terminators to a text that does not end in one changes
/// nothing of what stripping returns.
pub proof fn lemma_strip_appended_terminators(body: Seq<char>, tail: Seq<char>)
    requires
        body.len() == 0 || !is_line_terminator(body.last()),
        forall|i: int| 0 <= i < tail.len() ==> is_line_terminator(tail[i]),
    ensures
        strip_line_end(body + tail) == body,
    decreases tail.len(),
{
    if tail.len() > 0 {
        assert((body + tail).drop_last() =~= body + tail.drop_last());
        lemma_strip_appended_terminators(body, tail.drop_last());
        lemma_strip_line_end(body + tail.drop_last());
    }
}

/// Takes every line terminator off the end of `s`.
pub fn strip_line_terminators(s: &str) -> (stripped: String)
    ensures
        stripped@ == strip_line_end(s@),
{
    let chars = to_chars(s);
    let mut end: usize = chars.len();
    assert(s@.take(end as int) =~= s@);
    while end > 0 && (chars[end - 1] == '\n' || chars[end - 1] == '\r')
        invariant
            chars@ == s@,
            end <= s@.len(),
            stripped_len(s@) == stripped_len(s@.take(end as int)),
        decreases end,
    {
        assert(s@.take(end as int).drop_last() =~= s@.take(end - 1));
        end -= 1;
    }
    String::from_str(s.substring_char(0, end))
}

/// Whether `c` is one of the ten decimal digits.
pub open spec fn is_digit(c: char) -> bool {
    '0' <= c <= '9'
}

/// Whether `s` is made of decimal digits only.
pub open spec fn all_digits(s: Seq<char>) -> bool {
    forall|i: int| 0 <= i < s.len() ==> is_digit(#[trigger] s[i])
}

/// The number that the decimal digits `s` write, most significant first.
pub open spec fn digits_value(s: Seq<char>) -> nat
    decreases s.len(),
{
    if s.len() == 0 {
        0
    } else {
        (10 * digits_value(s.drop_last()) + (s.last() as int - '0' as int)) as nat
    }
}

/// The digits of a signed decimal number: the text without its leading sign.
pub open spec fn unsigned_part(s: Seq<char>) -> Seq<char> {
    if s.len() > 0 && (s[0] == '-' || s[0] == '+') {
        s.skip(1)
    } else {
        s
    }
}

/// The number that `s` writes, where it is a signed decimal number: an
/// optional `+` or `-`, then one digit or more, and nothing else.
pub open spec fn decimal_value(s: Seq<char>) -> Option<int> {
    let digits = unsigned_part(s);
    if digits.len() == 0 || !all_digits(digits) {
        None
    } else if s[0] == '-' {
        Some(-(digits_value(digits) as int))
    } else {
        Some(digits_value(digits) as int)
    }
}

/// The number that `s` writes, where it is a signed decimal number that a
/// 64-bit signed integer can hold.
pub open spec fn decimal_i64(s: Seq<char>) -> Option<i64> {
    match decimal_value(s) {
        Some(v) => if i64::MIN <= v <= i64::MAX {
            Some(v as i64)
        } else {
            None
        },
        None => None,
    }
}

/// The decimal digit for a number below ten.
pub open spec fn digit_char(d: nat) -> char {
    (('0' as u8 + d) as u8) as char
}

/// The decimal digits that write `n`, without leading zeros.
pub open spec fn digits_of(n: nat) -> Seq<char>
    decreases n,
{
    if n < 10 {
        seq![digit_char(n)]
    } else {
        digits_of(n / 10).push(digit_char(n % 10))
    }
}

/// The signed decimal number that writes `v`: its digits, behind a `-` where
/// it is negative.
pub open spec fn decimal_text(v: int) -> Seq<char> {
    if v < 0 {
        seq!['-'] + digits_of((-v) as nat)
    } else {
        digits_of(v as nat)
    }
}

/// The digits that write a number are digits, at least one, and read back as
/// that number.
pub proof fn lemma_digits_of(n: nat)
    ensures
        digits_of(n).len() > 0,
        all_digits(digits_of(n)),
        digits_value(digits_of(n)) == n,
    decreases n,
{
    if n < 10 {
        assert(digits_value(digits_of(n).drop_last()) == 0);
    } else {
        lemma_digits_of(n / 10);
        assert(digits_of(n).drop_last() =~= digits_of(n / 10));
    }
}

/// Every whole number reads back from its decimal text, and the text of a
/// number that fits 64 bits reads back as that number.
pub proof fn lemma_decimal_text_reads_back(v: int)
    ensures
        decimal_value(decimal_text(v)) == Some(v),
        i64::MIN <= v <= i64::MAX ==> decimal_i64(decimal_text(v)) == Some(v as i64),
        forall|i: int|
            0 <= i < decimal_text(v).len() ==> is_digit(#[trigger] decimal_text(v)[i])
                || decimal_text(v)[i] == '-',
{
    let s = decimal_text(v);
    if v < 0 {
        let digits = digits_of((-v) as nat);
        lemma_digits_of((-v) as nat);
        assert(s.skip(1) =~= digits);
    } else {
        lemma_digits_of(v as nat);
    }
}

/// A longer run of digits never writes a smaller number than its prefix.
pub proof fn lemma_digits_value_monotonic(s: Seq<char>, k: int)
    requires
        all_digits(s),
        0 <= k <= s.len(),
    ensures
        digits_value(s.take(k)) <= digits_value(s),
    decreases s.len() - k,
{
    if k == s.len() {
        assert(s.take(k) =~= s);
    } else {
        lemma_digits_value_monotonic(s, k + 1);
        assert(s.take(k + 1).drop_last() =~= s.take(k));
    }
}

/// Reads a signed decimal number that fits a 64-bit signed integer.
pub fn parse_i64(s: &str) -> (value: Option<i64>)
    ensures
        value == decimal_i64(s@),
{
    let chars = to_chars(s);
    let n: usize = chars.len();
    if n == 0 {
        return None;
    }
    let negative: bool = chars[0] == '-';
    let first: usize = if chars[0] == '-' || chars[0] == '+' {
        1
    } else {
        0
    };
    if first == n {
        return None;
    }
    let ghost digits = unsigned_part(s@);
    // The magnitude is gathered as a non-positive number, whose range is the wider one.
    let mut acc: i64 = 0;
    let mut i: usize = first;
    while i < n
        invariant
            chars@ == s@,
            n == s@.len(),
            first <= i <= n,
            digits == s@.skip(first as int),
            digits == unsigned_part(s@),
            all_digits(digits.take(i - first)),
            acc as int == -(digits_value(digits.take(i - first)) as int),
        decreases n - i,
    {
        let c: char = chars[i];
        assert(digits[i - first] == c);
        if !(c >= '0' && c <= '9') {
            return None;
        }
        let d: i64 = (c as u32 - 48) as i64;
        let ghost prefix = digits.take(i - first + 1);
        assert(prefix.drop_last() =~= digits.take(i - first));
        if acc < (i64::MIN + d) / 10 {
            proof {
                if all_digits(digits) {
                    lemma_digits_value_monotonic(digits, i - first + 1);
                }
            }
            return None;
        }
        acc = acc * 10 - d;
        i += 1;
    }
    assert(digits.take(n - first) =~= digits);
    if negative {
        Some(acc)
    } else if acc == i64::MIN {
        None
    } else {
        Some(-acc)
    }
}

} // verus!
