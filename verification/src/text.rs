//! Text as sequences of characters: searching, splitting, replacing,
//! trimming, reading numbers, and the case mappings, which the standard
//! library decides.

use vstd::prelude::*;

verus! {

/// `pat` occurs in `s` at index `i`.
pub open spec fn matches_at(s: Seq<char>, pat: Seq<char>, i: int) -> bool {
    0 <= i && i + pat.len() <= s.len() && s.subrange(i, i + pat.len()) == pat
}

/// `s` begins with `pat`.
pub open spec fn starts_with(s: Seq<char>, pat: Seq<char>) -> bool {
    matches_at(s, pat, 0)
}

/// `pat` occurs somewhere in `s`.
pub open spec fn contains_sub(s: Seq<char>, pat: Seq<char>) -> bool {
    exists|i: int| matches_at(s, pat, i)
}

/// The pieces of `s` between the occurrences of `sep`, found left to right
/// without overlap, where the piece under way began at `start` and the scan
/// stands at `i`.
pub open spec fn split_scan(s: Seq<char>, sep: Seq<char>, start: int, i: int) -> Seq<Seq<char>>
    decreases s.len() - i,
{
    if sep.len() == 0 || i < 0 || i + sep.len() > s.len() {
        seq![s.subrange(start, s.len() as int)]
    } else if matches_at(s, sep, i) {
        seq![s.subrange(start, i)] + split_scan(s, sep, i + sep.len(), i + sep.len())
    } else {
        split_scan(s, sep, start, i + 1)
    }
}

/// The pieces of `s` between the occurrences of `sep`. There is always at
/// least one piece; with no occurrence, or with an empty `sep`, it is `s`
/// itself.
pub open spec fn split_spec(s: Seq<char>, sep: Seq<char>) -> Seq<Seq<char>> {
    split_scan(s, sep, 0, 0)
}

/// `s` from `start` on with every occurrence of `from` at or after `i`
/// replaced by `to`, occurrences found left to right without overlap.
pub open spec fn replace_scan(s: Seq<char>, from: Seq<char>, to: Seq<char>, start: int, i: int) -> Seq<
    char,
>
    decreases s.len() - i,
{
    if from.len() == 0 || i < 0 || i + from.len() > s.len() {
        s.subrange(start, s.len() as int)
    } else if matches_at(s, from, i) {
        s.subrange(start, i) + to + replace_scan(s, from, to, i + from.len(), i + from.len())
    } else {
        replace_scan(s, from, to, start, i + 1)
    }
}

/// `s` with every occurrence of `from` replaced by `to`; with an empty `from`
/// it is `s` unchanged.
pub open spec fn replace_spec(s: Seq<char>, from: Seq<char>, to: Seq<char>) -> Seq<char> {
    replace_scan(s, from, to, 0, 0)
}

/// Where the line that holds index `i` ends: the index of the first line
/// feed at or after `i`, or the length of `text` if there is none.
pub open spec fn line_end(text: Seq<char>, i: int) -> int
    decreases text.len() - i,
{
    if 0 <= i < text.len() && text[i] != '\n' {
        line_end(text, i + 1)
    } else {
        i
    }
}

/// The first line of `text`, without the line feed that ends it.
pub open spec fn first_line(text: Seq<char>) -> Seq<char> {
    text.subrange(0, line_end(text, 0))
}

/// What follows the first line of `text` and its line feed; nothing where
/// `text` is one line.
pub open spec fn after_first_line(text: Seq<char>) -> Seq<char> {
    if line_end(text, 0) < text.len() {
        text.subrange(line_end(text, 0) + 1, text.len() as int)
    } else {
        Seq::empty()
    }
}

/// Where the first line of `text` ends.
pub fn find_line_end(text: &Vec<char>) -> (end: usize)
    ensures
        end == line_end(text@, 0),
        end <= text.len(),
{
    let mut end: usize = 0;
    while end < text.len() && text[end] != '\n'
        invariant
            end <= text.len(),
            line_end(text@, 0) == line_end(text@, end as int),
        decreases text.len() - end,
    {
        end += 1;
    }
    end
}

/// The views of a list of character vectors.
pub open spec fn texts(v: Seq<Vec<char>>) -> Seq<Seq<char>> {
    Seq::new(v.len(), |i: int| v[i]@)
}

/// The views of a list of strings.
pub open spec fn strings(v: Seq<String>) -> Seq<Seq<char>> {
    Seq::new(v.len(), |i: int| v[i]@)
}

/// The characters of `s`, in order.
pub fn chars_of(s: &str) -> (out: Vec<char>)
    ensures
        out@ == s@,
{
    let mut out: Vec<char> = Vec::new();
    for c in it: s.chars()
        invariant
            it.seq() == s@,
            out@ == s@.subrange(0, it.index() as int),
    {
        out.push(c);
        assert(out@ =~= s@.subrange(0, it.index() + 1));
    }
    assert(out@ =~= s@);
    out
}

/// Appends one character to a string with `String::push`. Taken on trust:
/// the string afterwards is the string before with `c` at its end.
#[verifier::external_body]
pub(crate) fn push_char(s: &mut String, c: char)
    ensures
        final(s)@ == old(s)@.push(c),
{
    s.push(c)
}

/// The string made of the characters `chars[from..to]`.
pub fn string_of_range(chars: &Vec<char>, from: usize, to: usize) -> (out: String)
    requires
        from <= to <= chars.len(),
    ensures
        out@ == chars@.subrange(from as int, to as int),
{
    let mut out = String::new();
    let mut i: usize = from;
    while i < to
        invariant
            from <= i <= to <= chars.len(),
            out@ == chars@.subrange(from as int, i as int),
        decreases to - i,
    {
        push_char(&mut out, chars[i]);
        i += 1;
        assert(out@ =~= chars@.subrange(from as int, i as int));
    }
    out
}

/// The string made of `chars`.
pub fn string_of(chars: &Vec<char>) -> (out: String)
    ensures
        out@ == chars@,
{
    let out = string_of_range(chars, 0, chars.len());
    assert(chars@.subrange(0, chars.len() as int) =~= chars@);
    out
}

/// A copy of `chars[from..to]`.
pub fn slice_of(chars: &Vec<char>, from: usize, to: usize) -> (out: Vec<char>)
    requires
        from <= to <= chars.len(),
    ensures
        out@ == chars@.subrange(from as int, to as int),
{
    let mut out: Vec<char> = Vec::new();
    let mut i: usize = from;
    while i < to
        invariant
            from <= i <= to <= chars.len(),
            out@ == chars@.subrange(from as int, i as int),
        decreases to - i,
    {
        out.push(chars[i]);
        i += 1;
        assert(out@ =~= chars@.subrange(from as int, i as int));
    }
    out
}

/// Whether `pat` occurs in `s` at index `i`.
pub fn occurs_at(s: &Vec<char>, pat: &Vec<char>, i: usize) -> (found: bool)
    ensures
        found == matches_at(s@, pat@, i as int),
{
    if pat.len() > s.len() || i > s.len() - pat.len() {
        return false;
    }
    let mut k: usize = 0;
    while k < pat.len()
        invariant
            k <= pat.len(),
            i + pat.len() <= s.len(),
            forall|j: int| 0 <= j < k ==> s@[i + j] == pat@[j],
        decreases pat.len() - k,
    {
        if s[i + k] != pat[k] {
            assert(s@.subrange(i as int, i + pat.len())[k as int] != pat@[k as int]);
            return false;
        }
        k += 1;
    }
    assert(s@.subrange(i as int, i + pat.len()) =~= pat@);
    true
}

/// Whether two texts hold the same characters.
pub fn same_chars(a: &Vec<char>, b: &Vec<char>) -> (same: bool)
    ensures
        same == (a@ == b@),
{
    if a.len() != b.len() {
        return false;
    }
    let found = occurs_at(a, b, 0);
    assert(a@.subrange(0, a.len() as int) =~= a@);
    found
}

/// Whether `s` begins with `pat`.
pub fn has_prefix(s: &Vec<char>, pat: &Vec<char>) -> (found: bool)
    ensures
        found == starts_with(s@, pat@),
{
    occurs_at(s, pat, 0)
}

/// Whether `pat` occurs somewhere in `s`.
pub fn contains(s: &Vec<char>, pat: &Vec<char>) -> (found: bool)
    ensures
        found == contains_sub(s@, pat@),
{
    if pat.len() > s.len() {
        return false;
    }
    let last: usize = s.len() - pat.len();
    let mut i: usize = 0;
    while i < last
        invariant
            last + pat.len() == s.len(),
            i <= last,
            forall|j: int| 0 <= j < i ==> !matches_at(s@, pat@, j),
        decreases last - i,
    {
        if occurs_at(s, pat, i) {
            return true;
        }
        i += 1;
    }
    occurs_at(s, pat, last)
}

/// The pieces of `s` between the occurrences of `sep`.
pub fn split(s: &Vec<char>, sep: &Vec<char>) -> (pieces: Vec<Vec<char>>)
    ensures
        texts(pieces@) == split_spec(s@, sep@),
        pieces.len() >= 1,
{
    let mut pieces: Vec<Vec<char>> = Vec::new();
    let mut start: usize = 0;
    let mut i: usize = 0;
    while 0 < sep.len() && sep.len() <= s.len() && i <= s.len() - sep.len()
        invariant
            start <= i <= s.len(),
            split_spec(s@, sep@) == texts(pieces@) + split_scan(s@, sep@, start as int, i as int),
        decreases s.len() - i,
    {
        if occurs_at(s, sep, i) {
            let piece = slice_of(s, start, i);
            proof {
                assert(texts(pieces@.push(piece)) =~= texts(pieces@) + seq![piece@]);
                assert(texts(pieces@) + (seq![piece@] + split_scan(
                    s@,
                    sep@,
                    i + sep.len(),
                    i + sep.len(),
                )) =~= texts(pieces@) + seq![piece@] + split_scan(
                    s@,
                    sep@,
                    i + sep.len(),
                    i + sep.len(),
                ));
            }
            pieces.push(piece);
            i = i + sep.len();
            start = i;
        } else {
            i += 1;
        }
    }
    let piece = slice_of(s, start, s.len());
    proof {
        assert(texts(pieces@.push(piece)) =~= texts(pieces@) + seq![piece@]);
    }
    pieces.push(piece);
    pieces
}

/// `s` with every occurrence of `from` replaced by `to`.
pub fn replace(s: &Vec<char>, from: &Vec<char>, to: &Vec<char>) -> (out: Vec<char>)
    ensures
        out@ == replace_spec(s@, from@, to@),
{
    let mut out: Vec<char> = Vec::new();
    let mut i: usize = 0;
    while 0 < from.len() && from.len() <= s.len() && i <= s.len() - from.len()
        invariant
            i <= s.len(),
            replace_spec(s@, from@, to@) == out@ + replace_scan(s@, from@, to@, i as int, i as int),
        decreases s.len() - i,
    {
        if occurs_at(s, from, i) {
            let ghost before = out@;
            append_chars(&mut out, to, 0, to.len());
            proof {
                assert(to@.subrange(0, to.len() as int) =~= to@);
                assert(s@.subrange(i as int, i as int) =~= Seq::<char>::empty());
                assert(before + (s@.subrange(i as int, i as int) + to@ + replace_scan(
                    s@,
                    from@,
                    to@,
                    i + from.len(),
                    i + from.len(),
                )) =~= before + to@ + replace_scan(
                    s@,
                    from@,
                    to@,
                    i + from.len(),
                    i + from.len(),
                ));
            }
            i = i + from.len();
        } else {
            let ghost before = out@;
            out.push(s[i]);
            proof {
                lemma_replace_scan_step(s@, from@, to@, i as int, i as int);
                assert(before + (seq![s@[i as int]] + replace_scan(
                    s@,
                    from@,
                    to@,
                    i + 1,
                    i + 1,
                )) =~= before.push(s@[i as int]) + replace_scan(s@, from@, to@, i + 1, i + 1));
            }
            i += 1;
        }
    }
    let ghost before = out@;
    append_chars(&mut out, s, i, s.len());
    out
}

/// Whether `c` is white space: whether it has the Unicode property
/// `White_Space`. These are the characters that have it: tab, line feed,
/// vertical tab, form feed, carriage return, space, next line, no-break
/// space, the Ogham space mark, the spaces from en quad to hair space, the
/// line and the paragraph separator, the narrow no-break space, the medium
/// mathematical space and the ideographic space.
pub open spec fn is_whitespace(c: char) -> bool {
    let code = c as int;
    ||| 0x09 <= code <= 0x0d
    ||| code == 0x20
    ||| code == 0x85
    ||| code == 0xa0
    ||| code == 0x1680
    ||| 0x2000 <= code <= 0x200a
    ||| code == 0x2028
    ||| code == 0x2029
    ||| code == 0x202f
    ||| code == 0x205f
    ||| code == 0x3000
}

/// Whether `c` is white space.
pub fn char_is_whitespace(c: char) -> (white: bool)
    ensures
        white == is_whitespace(c),
{
    let code = c as u32;
    (0x09 <= code && code <= 0x0d) || code == 0x20 || code == 0x85 || code == 0xa0 || code
        == 0x1680 || (0x2000 <= code && code <= 0x200a) || code == 0x2028 || code == 0x2029
        || code == 0x202f || code == 0x205f || code == 0x3000
}

/// What `str::to_lowercase` returns for `s`: its lowercase equivalent under
/// the Unicode case mappings.
pub uninterp spec fn lowercase_of(s: Seq<char>) -> Seq<char>;

/// Lowercases a text with `str::to_lowercase`. Taken on trust: the result
/// is what `lowercase_of` names; what that text is is not claimed.
#[verifier::external_body]
pub(crate) fn to_lowercase(s: &str) -> (lower: String)
    ensures
        lower@ == lowercase_of(s@),
{
    s.to_lowercase()
}

/// What `str::to_uppercase` returns for `s`: its uppercase equivalent under
/// the Unicode case mappings.
pub uninterp spec fn uppercase_of(s: Seq<char>) -> Seq<char>;

/// Uppercases a text with `str::to_uppercase`. Taken on trust: the result
/// is what `uppercase_of` names; what that text is is not claimed.
#[verifier::external_body]
pub(crate) fn to_uppercase(s: &str) -> (upper: String)
    ensures
        upper@ == uppercase_of(s@),
{
    s.to_uppercase()
}

/// The number that a run of decimal digits stands for.
pub open spec fn digits_value(digits: Seq<char>) -> int
    decreases digits.len(),
{
    if digits.len() == 0 {
        0
    } else {
        digits_value(digits.drop_last()) * 10 + (digits.last() as int - 48)
    }
}

/// Whether every character of `s` is one of the digits 0 to 9.
pub open spec fn all_digits(s: Seq<char>) -> bool {
    forall|i: int| 0 <= i < s.len() ==> 48 <= (#[trigger] s[i]) as int <= 57
}

/// The number that `s` reads as: an optional sign, plus or minus, then one
/// or more decimal digits and nothing else, standing for a number of 32
/// bits. `None` for any other text.
pub open spec fn parsed_i32(s: Seq<char>) -> Option<i32> {
    let negative = s.len() > 0 && s[0] == '-';
    let signed = s.len() > 0 && (s[0] == '-' || s[0] == '+');
    let digits = if signed {
        s.drop_first()
    } else {
        s
    };
    let value = if negative {
        -digits_value(digits)
    } else {
        digits_value(digits)
    };
    if digits.len() > 0 && all_digits(digits) && i32::MIN <= value <= i32::MAX {
        Some(value as i32)
    } else {
        None
    }
}

/// A run of digits stands for no less than any run that it begins with,
/// and for nothing below zero.
pub proof fn lemma_digits_value_grows(digits: Seq<char>, k: int)
    requires
        all_digits(digits),
        0 <= k <= digits.len(),
    ensures
        0 <= digits_value(digits.take(k)) <= digits_value(digits),
    decreases digits.len(),
{
    if digits.len() == 0 {
        assert(digits.take(k) =~= digits);
    } else {
        let shorter = digits.drop_last();
        assert(all_digits(shorter)) by {
            assert forall|i: int| 0 <= i < shorter.len() implies 48 <= (#[trigger] shorter[i]) as int
                <= 57 by {
                assert(shorter[i] == digits[i]);
            }
        }
        assert(48 <= digits[digits.len() - 1] as int <= 57);
        if k == digits.len() {
            lemma_digits_value_grows(shorter, k - 1);
            assert(shorter.take(k - 1) =~= shorter);
            assert(digits.take(k) =~= digits);
        } else {
            lemma_digits_value_grows(shorter, k);
            assert(shorter.take(k) =~= digits.take(k));
        }
    }
}

/// The number that `s` reads as, `None` where it reads as none: an optional
/// sign, then decimal digits only, for a number of 32 bits.
pub fn parse_i32(s: &str) -> (number: Option<i32>)
    ensures
        number == parsed_i32(s@),
{
    let chars = chars_of(s);
    let n = chars.len();
    let negative = n > 0 && chars[0] == '-';
    let signed = n > 0 && (chars[0] == '-' || chars[0] == '+');
    let start: usize = if signed {
        1
    } else {
        0
    };
    let ghost digits = chars@.subrange(start as int, n as int);
    proof {
        if signed {
            assert(digits =~= s@.drop_first());
        } else {
            assert(digits =~= s@);
        }
    }
    if start == n {
        return None;
    }
    let mut value: i64 = 0;
    let mut i: usize = start;
    proof {
        assert(digits.take(0) =~= Seq::<char>::empty());
    }
    while i < n
        invariant
            start <= i <= n,
            n == chars.len(),
            digits == chars@.subrange(start as int, n as int),
            negative == (s@.len() > 0 && s@[0] == '-'),
            signed == (s@.len() > 0 && (s@[0] == '-' || s@[0] == '+')),
            digits == (if signed {
                s@.drop_first()
            } else {
                s@
            }),
            all_digits(digits.take(i - start)),
            value == digits_value(digits.take(i - start)),
            0 <= value <= 0x8000_0000,
        decreases n - i,
    {
        let c = chars[i];
        assert(digits[i - start] == c);
        if c < '0' || c > '9' {
            return None;
        }
        proof {
            let longer = digits.take(i - start + 1);
            assert(longer.drop_last() =~= digits.take(i - start));
            assert(longer.last() == c);
            assert(all_digits(longer)) by {
                assert forall|j: int| 0 <= j < longer.len() implies 48 <= (
                #[trigger] longer[j]) as int <= 57 by {
                    if j < i - start {
                        assert(digits.take(i - start)[j] == longer[j]);
                    }
                }
            }
        }
        value = value * 10 + (c as u32 - 48) as i64;
        if value > 0x8000_0000 {
            proof {
                if all_digits(digits) {
                    lemma_digits_value_grows(digits, i - start + 1);
                }
            }
            return None;
        }
        i += 1;
    }
    proof {
        assert(digits.take(n - start) =~= digits);
    }
    if negative {
        Some((-value) as i32)
    } else if value > 0x7fff_ffff {
        None
    } else {
        Some(value as i32)
    }
}

/// The first index at or after `i` whose character is not white space, or the
/// length of `s` if there is none.
pub open spec fn skip_whitespace(s: Seq<char>, i: int) -> int
    decreases s.len() - i,
{
    if 0 <= i < s.len() && is_whitespace(s[i]) {
        skip_whitespace(s, i + 1)
    } else {
        i
    }
}

/// The least end `j >= lo` such that `s[j..hi]` is all white space.
pub open spec fn skip_whitespace_back(s: Seq<char>, lo: int, hi: int) -> int
    decreases hi - lo,
{
    if 0 <= lo < hi <= s.len() && is_whitespace(s[hi - 1]) {
        skip_whitespace_back(s, lo, hi - 1)
    } else {
        hi
    }
}

/// `s` without its leading and trailing white space.
pub open spec fn trim_spec(s: Seq<char>) -> Seq<char> {
    let from = skip_whitespace(s, 0);
    let to = skip_whitespace_back(s, from, s.len() as int);
    s.subrange(from, to)
}

/// The maximal runs of characters of `s` that are not white space, from the
/// scan position `i` on, where a run under way began at `start` (`start == i`
/// when none is under way).
pub open spec fn words_scan(s: Seq<char>, start: int, i: int) -> Seq<Seq<char>>
    decreases s.len() - i,
{
    if i < 0 || i >= s.len() {
        if start < i {
            seq![s.subrange(start, i)]
        } else {
            seq![]
        }
    } else if is_whitespace(s[i]) {
        if start < i {
            seq![s.subrange(start, i)] + words_scan(s, i + 1, i + 1)
        } else {
            words_scan(s, i + 1, i + 1)
        }
    } else {
        words_scan(s, start, i + 1)
    }
}

/// The words of `s`: its maximal runs of characters that are not white
/// space, in order. None of them is empty.
pub open spec fn words_spec(s: Seq<char>) -> Seq<Seq<char>> {
    words_scan(s, 0, 0)
}

/// `s` without its leading and trailing white space.
pub fn trim(s: &Vec<char>) -> (out: Vec<char>)
    ensures
        out@ == trim_spec(s@),
{
    let mut from: usize = 0;
    while from < s.len() && char_is_whitespace(s[from])
        invariant
            from <= s.len(),
            skip_whitespace(s@, 0) == skip_whitespace(s@, from as int),
        decreases s.len() - from,
    {
        from += 1;
    }
    let mut to: usize = s.len();
    while from < to && char_is_whitespace(s[to - 1])
        invariant
            from <= to <= s.len(),
            skip_whitespace_back(s@, from as int, s.len() as int) == skip_whitespace_back(
                s@,
                from as int,
                to as int,
            ),
        decreases to,
    {
        to -= 1;
    }
    slice_of(s, from, to)
}

/// The words of `s`.
pub fn split_whitespace(s: &Vec<char>) -> (words: Vec<Vec<char>>)
    ensures
        texts(words@) == words_spec(s@),
{
    let mut words: Vec<Vec<char>> = Vec::new();
    let mut start: usize = 0;
    let mut i: usize = 0;
    while i < s.len()
        invariant
            start <= i <= s.len(),
            words_spec(s@) == texts(words@) + words_scan(s@, start as int, i as int),
        decreases s.len() - i,
    {
        if char_is_whitespace(s[i]) {
            if start < i {
                let word = slice_of(s, start, i);
                proof {
                    assert(texts(words@.push(word)) =~= texts(words@) + seq![word@]);
                    assert(texts(words@) + (seq![word@] + words_scan(s@, i + 1, i + 1)) =~= texts(
                        words@,
                    ) + seq![word@] + words_scan(s@, i + 1, i + 1));
                }
                words.push(word);
            }
            i += 1;
            start = i;
        } else {
            i += 1;
        }
    }
    if start < i {
        let word = slice_of(s, start, i);
        proof {
            assert(texts(words@.push(word)) =~= texts(words@) + seq![word@]);
        }
        words.push(word);
    } else {
        assert(texts(words@) + Seq::<Seq<char>>::empty() =~= texts(words@));
    }
    words
}

/// The text `a` followed by the text `b`.
pub fn join_text(a: &str, b: &str) -> (out: String)
    ensures
        out@ == a@ + b@,
{
    let mut out = String::from_str(a);
    out.append(b);
    out
}

/// Whether two strings hold the same characters.
pub fn same_text(a: &str, b: &str) -> (same: bool)
    ensures
        same == (a@ == b@),
{
    let x = chars_of(a);
    let y = chars_of(b);
    same_chars(&x, &y)
}

/// Appends `src[from..to]` to `out`.
pub fn append_chars(out: &mut Vec<char>, src: &Vec<char>, from: usize, to: usize)
    requires
        from <= to <= src.len(),
    ensures
        final(out)@ == old(out)@ + src@.subrange(from as int, to as int),
{
    let mut i: usize = from;
    while i < to
        invariant
            from <= i <= to <= src.len(),
            out@ == old(out)@ + src@.subrange(from as int, i as int),
        decreases to - i,
    {
        out.push(src[i]);
        i += 1;
        assert(out@ =~= old(out)@ + src@.subrange(from as int, i as int));
    }
}

/// Moving the start of the piece under way along with the scan costs one
/// character in front: where nothing matches at `i`, the replacement from
/// `start` is the characters `start..=i` followed by the replacement from
/// `i + 1`.
pub proof fn lemma_replace_scan_step(s: Seq<char>, from: Seq<char>, to: Seq<char>, start: int, i: int)
    requires
        from.len() > 0,
        0 <= start <= i,
        i + from.len() <= s.len(),
        !matches_at(s, from, i),
    ensures
        replace_scan(s, from, to, start, i) == s.subrange(start, i + 1) + replace_scan(
            s,
            from,
            to,
            i + 1,
            i + 1,
        ),
{
    lemma_replace_scan_start(s, from, to, start, i + 1);
}

/// The replacement from an earlier start is the skipped characters followed
/// by the replacement from the scan position.
pub proof fn lemma_replace_scan_start(s: Seq<char>, from: Seq<char>, to: Seq<char>, start: int, i: int)
    requires
        from.len() > 0,
        0 <= start <= i <= s.len(),
    ensures
        replace_scan(s, from, to, start, i) == s.subrange(start, i) + replace_scan(s, from, to, i, i),
    decreases s.len() - i,
{
    if i + from.len() > s.len() {
        assert(s.subrange(start, s.len() as int) =~= s.subrange(start, i) + s.subrange(
            i,
            s.len() as int,
        ));
    } else if matches_at(s, from, i) {
        let rest = replace_scan(s, from, to, i + from.len(), i + from.len());
        assert(s.subrange(i, i) =~= Seq::<char>::empty());
        assert(s.subrange(start, i) + to + rest =~= s.subrange(start, i) + (s.subrange(i, i) + to
            + rest));
    } else {
        lemma_replace_scan_start(s, from, to, start, i + 1);
        lemma_replace_scan_start(s, from, to, i, i + 1);
        let rest = replace_scan(s, from, to, i + 1, i + 1);
        assert(s.subrange(start, i + 1) + rest =~= s.subrange(start, i) + (s.subrange(i, i + 1)
            + rest));
    }
}

} // verus!
