use vstd::prelude::*;

use crate::text::{append_decimal, decimal_text, digit_char, push_char};

verus! {

/// Characters with the Unicode `White_Space` property, which `char::is_whitespace`
/// and `str::trim` go by.
pub open spec fn is_white_space(c: char) -> bool {
    let n = c as u32;
    ||| 0x09 <= n <= 0x0d
    ||| n == 0x20
    ||| n == 0x85
    ||| n == 0xa0
    ||| n == 0x1680
    ||| 0x2000 <= n <= 0x200a
    ||| n == 0x2028
    ||| n == 0x2029
    ||| n == 0x202f
    ||| n == 0x205f
    ||| n == 0x3000
}

/// Whether `c` has the Unicode `White_Space` property.
pub fn is_white_space_char(c: char) -> (b: bool)
    ensures
        b == is_white_space(c),
{
    let n = c as u32;
    (0x09 <= n && n <= 0x0d) || n == 0x20 || n == 0x85 || n == 0xa0 || n == 0x1680 || (0x2000 <= n
        && n <= 0x200a) || n == 0x2028 || n == 0x2029 || n == 0x202f || n == 0x205f || n == 0x3000
}

/// `s` without its leading white space.
pub open spec fn trim_start_text(s: Seq<char>) -> Seq<char>
    decreases s.len(),
{
    if s.len() > 0 && is_white_space(s[0]) {
        trim_start_text(s.drop_first())
    } else {
        s
    }
}

/// `s` without its trailing white space.
pub open spec fn trim_end_text(s: Seq<char>) -> Seq<char>
    decreases s.len(),
{
    if s.len() > 0 && is_white_space(s.last()) {
        trim_end_text(s.drop_last())
    } else {
        s
    }
}

/// `s` without its leading and trailing white space (as `str::trim`).
pub open spec fn trim_text(s: Seq<char>) -> Seq<char> {
    trim_end_text(trim_start_text(s))
}

/// Dropping a prefix of white space does not change what trimming the
/// front leaves.
proof fn lemma_trim_start_skip(s: Seq<char>, i: int)
    requires
        0 <= i <= s.len(),
        forall|j: int| 0 <= j < i ==> is_white_space(#[trigger] s[j]),
    ensures
        trim_start_text(s) == trim_start_text(s.skip(i)),
    decreases i,
{
    if i > 0 {
        assert(s.drop_first().skip(i - 1) =~= s.skip(i));
        assert forall|j: int| 0 <= j < i - 1 implies is_white_space(#[trigger] s.drop_first()[j]) by {
            assert(s.drop_first()[j] == s[j + 1]);
        }
        lemma_trim_start_skip(s.drop_first(), i - 1);
    } else {
        assert(s.skip(0) =~= s);
    }
}

/// Dropping a suffix of white space does not change what trimming the end
/// leaves.
proof fn lemma_trim_end_take(s: Seq<char>, e: int)
    requires
        0 <= e <= s.len(),
        forall|j: int| e <= j < s.len() ==> is_white_space(#[trigger] s[j]),
    ensures
        trim_end_text(s) == trim_end_text(s.take(e)),
    decreases s.len() - e,
{
    if e < s.len() {
        assert(s.drop_last().take(e) =~= s.take(e));
        assert forall|j: int| e <= j < s.drop_last().len() implies is_white_space(
            #[trigger] s.drop_last()[j],
        ) by {
            assert(s.drop_last()[j] == s[j]);
        }
        lemma_trim_end_take(s.drop_last(), e);
    } else {
        assert(s.take(e) =~= s);
    }
}

/// `s` without its leading and trailing white space.
pub fn trim(s: &str) -> (t: &str)
    ensures
        t@ == trim_text(s@),
{
    let len = s.unicode_len();
    let mut start: usize = 0;
    while start < len && is_white_space_char(s.get_char(start))
        invariant
            len == s@.len(),
            0 <= start <= len,
            forall|j: int| 0 <= j < start ==> is_white_space(#[trigger] s@[j]),
        decreases len - start,
    {
        start = start + 1;
    }
    proof {
        lemma_trim_start_skip(s@, start as int);
    }
    let mut end: usize = len;
    while end > start && is_white_space_char(s.get_char(end - 1))
        invariant
            len == s@.len(),
            0 <= start <= end <= len,
            forall|j: int| end <= j < len ==> is_white_space(#[trigger] s@[j]),
        decreases end,
    {
        end = end - 1;
    }
    let ghost rest = s@.skip(start as int);
    proof {
        assert(start == len || !is_white_space(s@[start as int]));
        assert(trim_start_text(rest) == rest);
        assert forall|j: int| end - start <= j < rest.len() implies is_white_space(
            #[trigger] rest[j],
        ) by {
            assert(rest[j] == s@[j + start]);
        }
        lemma_trim_end_take(rest, end - start);
        assert(rest.take(end - start) =~= s@.subrange(start as int, end as int));
        let kept = s@.subrange(start as int, end as int);
        assert(kept.len() == 0 || !is_white_space(kept.last()));
    }
    s.substring_char(start, end)
}

/// Whether `c` is a decimal digit.
pub open spec fn is_digit(c: char) -> bool {
    '0' <= c <= '9'
}

/// The number that the decimal digits `d` spell, most significant first.
pub open spec fn digits_value(d: Seq<char>) -> nat
    decreases d.len(),
{
    if d.len() == 0 {
        0
    } else {
        digits_value(d.drop_last()) * 10 + (d.last() as nat - '0' as nat) as nat
    }
}

/// The digits of `s` after an optional leading `+`.
pub open spec fn unsigned_digits(s: Seq<char>) -> Seq<char> {
    if s.len() > 0 && s[0] == '+' {
        s.drop_first()
    } else {
        s
    }
}

/// What `str::parse::<usize>` gives for `s`: the number, when `s` is an
/// optional `+` followed by at least one decimal digit and nothing else, and
/// the number fits in a `usize`; `None` otherwise.
pub open spec fn parse_usize_text(s: Seq<char>) -> Option<usize> {
    let d = unsigned_digits(s);
    if d.len() > 0 && (forall|i: int| 0 <= i < d.len() ==> is_digit(#[trigger] d[i]))
        && digits_value(d) <= usize::MAX {
        Some(digits_value(d) as usize)
    } else {
        None
    }
}

/// Appending digits does not make the value smaller.
proof fn lemma_digits_value_grows(d: Seq<char>, i: int)
    requires
        0 <= i <= d.len(),
        forall|j: int| 0 <= j < d.len() ==> is_digit(#[trigger] d[j]),
    ensures
        digits_value(d.take(i)) <= digits_value(d),
    decreases d.len() - i,
{
    if i < d.len() {
        lemma_digits_value_grows(d, i + 1);
        assert(d.take(i + 1).drop_last() =~= d.take(i));
    } else {
        assert(d.take(i) =~= d);
    }
}

/// Parses `s` as `str::parse::<usize>` does.
pub fn parse_usize(s: &str) -> (r: Option<usize>)
    ensures
        r == parse_usize_text(s@),
{
    let len = s.unicode_len();
    let ghost d = unsigned_digits(s@);
    let mut i: usize = 0;
    if len > 0 && s.get_char(0) == '+' {
        i = 1;
    }
    let first = i;
    proof {
        assert(d =~= s@.skip(first as int));
    }
    if i == len {
        return None;
    }
    let mut value: usize = 0;
    while i < len
        invariant
            len == s@.len(),
            first <= i <= len,
            d =~= s@.skip(first as int),
            d == unsigned_digits(s@),
            forall|j: int| first <= j < i ==> is_digit(#[trigger] s@[j]),
            value == digits_value(d.take(i - first)),
        decreases len - i,
    {
        let c = s.get_char(i);
        if !('0' <= c && c <= '9') {
            proof {
                assert(d[i - first] == c);
                assert(!is_digit(d[i - first]));
                assert(!(forall|j: int| 0 <= j < d.len() ==> is_digit(#[trigger] d[j])));
            }
            return None;
        }
        let digit: usize = (c as u32 - 48) as usize;
        proof {
            assert(d.take(i - first + 1).drop_last() =~= d.take(i - first));
            assert(d.take(i - first + 1).last() == c);
        }
        if value > (usize::MAX - digit) / 10 {
            proof {
                let m = usize::MAX - digit;
                assert(value * 10 + digit > usize::MAX) by (nonlinear_arith)
                    requires
                        value > m / 10,
                        m == usize::MAX - digit,
                        digit <= 9,
                ;
                assert(digits_value(d.take(i - first + 1)) > usize::MAX);
                if forall|j: int| 0 <= j < d.len() ==> is_digit(#[trigger] d[j]) {
                    lemma_digits_value_grows(d, i - first + 1);
                }
            }
            return None;
        }
        value = value * 10 + digit;
        i = i + 1;
    }
    proof {
        assert(d.take(i - first) =~= d);
        assert forall|j: int| 0 <= j < d.len() implies is_digit(#[trigger] d[j]) by {
            assert(d[j] == s@[j + first]);
        }
    }
    Some(value)
}

/// The answer to the prompt for a capture device.
pub enum Selection {
    /// The user asked to quit.
    Quit,
    /// The user chose the device with this index.
    Selected(usize),
    /// The answer was not a valid index; the text is the message to print.
    Invalid(String),
}

/// The answer holds a `q`, in either case (its lower-case form holds `q`).
pub open spec fn mentions_quit(input: Seq<char>) -> bool {
    input.contains('q') || input.contains('Q')
}

/// Whether `input` holds a `q` or a `Q`.
pub fn contains_quit(input: &str) -> (b: bool)
    ensures
        b == mentions_quit(input@),
{
    let len = input.unicode_len();
    let mut i: usize = 0;
    while i < len
        invariant
            len == input@.len(),
            0 <= i <= len,
            forall|j: int| 0 <= j < i ==> input@[j] != 'q' && input@[j] != 'Q',
        decreases len - i,
    {
        let c = input.get_char(i);
        if c == 'q' || c == 'Q' {
            proof {
                assert(input@[i as int] == c);
            }
            return true;
        }
        i = i + 1;
    }
    false
}

/// The message printed for an answer that is no valid index.
pub open spec fn invalid_input_text(trimmed: Seq<char>) -> Seq<char> {
    "Invalid input, '"@ + trimmed + "'!"@
}

/// Reads the user's answer `input` to the prompt for one of `count`
/// capture devices: an answer holding `q` quits; otherwise the answer,
/// trimmed, must be the index of a device.
pub fn parse_selection(input: &str, count: usize) -> (r: Selection)
    ensures
        match r {
            Selection::Quit => mentions_quit(input@),
            Selection::Selected(n) => !mentions_quit(input@) && parse_usize_text(
                trim_text(input@),
            ) == Some(n) && n < count,
            Selection::Invalid(message) => !mentions_quit(input@) && !(parse_usize_text(
                trim_text(input@),
            ) matches Some(n) && n < count) && message@ == invalid_input_text(
                trim_text(input@),
            ),
        },
{
    if contains_quit(input) {
        return Selection::Quit;
    }
    let trimmed = trim(input);
    match parse_usize(trimmed) {
        Some(n) => {
            if n < count {
                return Selection::Selected(n);
            }
        },
        None => {},
    }
    let mut message = "Invalid input, '".to_owned();
    message.append(trimmed);
    message.append("'!");
    Selection::Invalid(message)
}

/// `t` padded on the left with spaces to at least `width` characters.
pub open spec fn pad_left_text(t: Seq<char>, width: nat) -> Seq<char> {
    if t.len() < width {
        Seq::new((width - t.len()) as nat, |i: int| ' ') + t
    } else {
        t
    }
}

/// The name shown for a device: its friendly name, or `"Unknown"`.
pub open spec fn display_name_text(name: Option<String>) -> Seq<char> {
    match name {
        Some(n) => n@,
        None => "Unknown"@,
    }
}

/// The name shown for a device: its friendly name, or `"Unknown"`.
pub fn display_name(name: Option<String>) -> (text: String)
    ensures
        text@ == display_name_text(name),
{
    match name {
        Some(n) => n,
        None => "Unknown".to_owned(),
    }
}

/// The line listing device `index` in the prompt: the index right-aligned
/// in three columns, a dash, and the device's name.
pub open spec fn source_line_text(index: usize, name: Seq<char>) -> Seq<char> {
    pad_left_text(decimal_text(index as nat), 3) + " - "@ + name
}

/// The line listing device `index` in the prompt.
pub fn source_line(index: usize, name: &str) -> (line: String)
    ensures
        line@ == source_line_text(index, name@),
{
    let mut line = String::new();
    let mut digits = String::new();
    append_decimal(&mut digits, index as u64);
    let n = digits.as_str().unicode_len();
    let mut pad: usize = n;
    while pad < 3
        invariant
            n == digits@.len(),
            n <= pad <= 3 || (n > 3 && pad == n),
            line@ == Seq::new((pad - n) as nat, |i: int| ' '),
        decreases 3 - pad,
    {
        push_char(&mut line, ' ');
        pad = pad + 1;
        proof {
            assert(line@ =~= Seq::new((pad - n) as nat, |i: int| ' '));
        }
    }
    line.append(digits.as_str());
    line.append(" - ");
    line.append(name);
    proof {
        if n < 3 {
            assert(pad == 3);
        } else {
            assert(Seq::new((pad - n) as nat, |i: int| ' ') =~= Seq::<char>::empty());
        }
        assert(line@ =~= source_line_text(index, name@));
    }
    line
}

/// The line announcing the device in use.
pub fn using_line(name: &str) -> (line: String)
    ensures
        line@ == "Using "@ + name@ + "..."@,
{
    let mut line = "Using ".to_owned();
    line.append(name);
    line.append("...");
    line
}

/// The command line asks for debug output: one of its arguments is `--debug`.
pub fn debug_output_requested(args: &Vec<String>) -> (b: bool)
    ensures
        b == exists|i: int| 0 <= i < args@.len() && #[trigger] args@[i]@ == "--debug"@,
{
    let flag = String::from_str("--debug");
    let mut i: usize = 0;
    while i < args.len()
        invariant
            0 <= i <= args.len(),
            flag@ == "--debug"@,
            forall|j: int| 0 <= j < i ==> #[trigger] args@[j]@ != "--debug"@,
        decreases args.len() - i,
    {
        if args[i] == flag {
            return true;
        }
        i = i + 1;
    }
    false
}

/// Every character of a decimal representation is a digit, and none is a
/// `+`, white space or a `q`.
proof fn lemma_decimal_chars(n: nat)
    ensures
        decimal_text(n).len() > 0,
        forall|i: int| 0 <= i < decimal_text(n).len() ==> is_digit(#[trigger] decimal_text(n)[i]),
    decreases n,
{
    if n >= 10 {
        lemma_decimal_chars(n / 10);
        let t = decimal_text(n);
        assert forall|i: int| 0 <= i < t.len() implies is_digit(#[trigger] t[i]) by {
            if i < t.len() - 1 {
                assert(t[i] == decimal_text(n / 10)[i]);
            }
        }
    }
}

/// The digits of a decimal representation spell the number.
proof fn lemma_decimal_value(n: nat)
    ensures
        digits_value(decimal_text(n)) == n,
    decreases n,
{
    if n >= 10 {
        lemma_decimal_value(n / 10);
        assert(decimal_text(n).drop_last() =~= decimal_text(n / 10));
        let d = (n % 10) as int;
        assert(digit_char(d) as nat == 48 + d);
        assert('0' as nat == 48);
        assert(decimal_text(n).last() == digit_char(d));
        assert(digits_value(decimal_text(n)) == digits_value(decimal_text(n / 10)) * 10 + d);
        assert((n / 10) * 10 + n % 10 == n) by (nonlinear_arith);
    } else {
        assert(decimal_text(n).drop_last() =~= Seq::<char>::empty());
        assert(digit_char(n as int) as nat == 48 + n);
        assert('0' as nat == 48);
        assert(decimal_text(n).last() == digit_char(n as int));
        assert(digits_value(decimal_text(n)) == digits_value(Seq::<char>::empty()) * 10 + n);
    }
}

/// Trimming text that starts and ends with no white space, followed by
/// white space only, leaves the text.
proof fn lemma_trim_trailing_white_space(t: Seq<char>, tail: Seq<char>)
    requires
        t.len() > 0,
        !is_white_space(t[0]),
        !is_white_space(t.last()),
        forall|k: int| 0 <= k < tail.len() ==> is_white_space(#[trigger] tail[k]),
    ensures
        trim_text(t + tail) == t,
{
    let s = t + tail;
    assert(s[0] == t[0]);
    assert(trim_start_text(s) == s);
    assert forall|j: int| t.len() <= j < s.len() implies is_white_space(#[trigger] s[j]) by {
        assert(s[j] == tail[j - t.len()]);
    }
    lemma_trim_end_take(s, t.len() as int);
    assert(s.take(t.len() as int) =~= t);
}

/// The index listed for a device in the prompt, typed back and followed
/// only by white space (such as the line end that reading a line keeps),
/// neither quits nor fails: it reads as that index, so a device with it is
/// selected.
pub proof fn lemma_listed_index_selects(n: usize, tail: Seq<char>)
    requires
        forall|k: int| 0 <= k < tail.len() ==> is_white_space(#[trigger] tail[k]),
    ensures
        !mentions_quit(decimal_text(n as nat) + tail),
        parse_usize_text(trim_text(decimal_text(n as nat) + tail)) == Some(n),
{
    let t = decimal_text(n as nat);
    lemma_decimal_chars(n as nat);
    lemma_decimal_value(n as nat);
    let s = t + tail;
    assert forall|i: int| 0 <= i < s.len() implies s[i] != 'q' && s[i] != 'Q' by {
        if i < t.len() {
            assert(is_digit(t[i]));
        } else {
            assert(is_white_space(tail[i - t.len()]));
        }
    }
    assert(is_digit(t[0]) && is_digit(t.last()));
    lemma_trim_trailing_white_space(t, tail);
    assert(unsigned_digits(t) == t);
}

} // verus!
