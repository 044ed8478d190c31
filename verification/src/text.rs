//! Character-level text rules: target IDs, line splitting, trimming,
//! decimal parsing and trailing-slash removal.

use vstd::prelude::*;

verus! {

/// `c` may appear in a target ID: an ASCII letter, an ASCII digit, `-` or `_`.
pub open spec fn is_id_char(c: char) -> bool {
    ('a' <= c && c <= 'z') || ('A' <= c && c <= 'Z') || ('0' <= c && c <= '9') || c == '-' || c
        == '_'
}

/// A target ID is non-empty and made of ID characters only.
pub open spec fn is_valid_id(id: Seq<char>) -> bool {
    &&& id.len() > 0
    &&& forall|i: int| 0 <= i < id.len() ==> is_id_char(#[trigger] id[i])
}

/// The ID characters are exactly the code points of the ASCII digits
/// (0x30 to 0x39), upper-case letters (0x41 to 0x5A), lower-case letters
/// (0x61 to 0x7A), `-` (0x2D) and `_` (0x5F); so every non-empty string of
/// them is a valid target ID, and nothing else is.
pub proof fn lemma_id_chars_are_ascii_alphanumeric_dash_underscore(id: Seq<char>)
    ensures
        forall|c: char|
            #[trigger] is_id_char(c) <==> {
                ||| (0x30 <= (c as u32) && (c as u32) <= 0x39)
                ||| (0x41 <= (c as u32) && (c as u32) <= 0x5A)
                ||| (0x61 <= (c as u32) && (c as u32) <= 0x7A)
                ||| (c as u32) == 0x2D
                ||| (c as u32) == 0x5F
            },
        is_valid_id(id) <==> (id.len() > 0 && forall|i: int|
            0 <= i < id.len() ==> {
                ||| (0x30 <= (id[i] as u32) && (id[i] as u32) <= 0x39)
                ||| (0x41 <= (id[i] as u32) && (id[i] as u32) <= 0x5A)
                ||| (0x61 <= (id[i] as u32) && (id[i] as u32) <= 0x7A)
                ||| (id[i] as u32) == 0x2D
                ||| (id[i] as u32) == 0x5F
            }),
{
    assert forall|c: char|
        #[trigger] is_id_char(c) <==> {
            ||| (0x30 <= (c as u32) && (c as u32) <= 0x39)
            ||| (0x41 <= (c as u32) && (c as u32) <= 0x5A)
            ||| (0x61 <= (c as u32) && (c as u32) <= 0x7A)
            ||| (c as u32) == 0x2D
            ||| (c as u32) == 0x5F
        } by {
        vstd::utf8::char_u32_cast(c, c as u32);
    }
}

/// The characters of `s`, in order.
pub(crate) fn chars_of(s: &str) -> (res: Vec<char>)
    ensures
        res@ == s@,
{
    broadcast use vstd::string::group_string_axioms;

    let mut res: Vec<char> = Vec::new();
    for c in it: s.chars()
        invariant
            res@ == it.seq().take(it.index()),
    {
        res.push(c);
        proof {
            assert(res@ =~= it.seq().take(it.index() + 1));
        }
    }
    assert(res@ =~= s@);
    res
}

/// The string made of `chars`, in order.
#[verifier::external_body]
pub(crate) fn string_of(chars: &[char]) -> (res: String)
    ensures
        res@ == chars@,
{
    chars.iter().collect()
}

/// The characters of each string, in order.
pub open spec fn string_views(v: Seq<String>) -> Seq<Seq<char>> {
    v.map_values(|s: String| s@)
}

/// Calls `str`'s `==`: the strings hold the same characters.
#[verifier::external_body]
pub(crate) fn str_eq(a: &str, b: &str) -> (res: bool)
    ensures
        res == (a@ == b@),
{
    a == b
}

/// Whether `id` is a valid target ID.
pub fn is_valid_target_id(id: &str) -> (b: bool)
    ensures
        b == is_valid_id(id@),
{
    let chars = chars_of(id);
    if chars.len() == 0 {
        return false;
    }
    let mut i: usize = 0;
    while i < chars.len()
        invariant
            i <= chars@.len(),
            chars@ == id@,
            forall|j: int| 0 <= j < i ==> is_id_char(#[trigger] chars@[j]),
        decreases chars@.len() - i,
    {
        let c = chars[i];
        if !(('a' <= c && c <= 'z') || ('A' <= c && c <= 'Z') || ('0' <= c && c <= '9') || c
            == '-' || c == '_') {
            return false;
        }
        i = i + 1;
    }
    true
}


/// `c` has the Unicode `White_Space` property, which `char::is_whitespace`
/// tests: U+0009 to U+000D, U+0020, U+0085, U+00A0, U+1680, U+2000 to
/// U+200A, U+2028, U+2029, U+202F, U+205F and U+3000.
pub open spec fn whitespace_char(c: char) -> bool {
    ||| ('\u{9}' <= c && c <= '\u{d}')
    ||| c == ' '
    ||| c == '\u{85}'
    ||| c == '\u{a0}'
    ||| c == '\u{1680}'
    ||| ('\u{2000}' <= c && c <= '\u{200a}')
    ||| c == '\u{2028}'
    ||| c == '\u{2029}'
    ||| c == '\u{202f}'
    ||| c == '\u{205f}'
    ||| c == '\u{3000}'
}

/// Whether `c` is whitespace, as `char::is_whitespace` answers.
pub fn is_whitespace(c: char) -> (b: bool)
    ensures
        b == whitespace_char(c),
{
    ('\u{9}' <= c && c <= '\u{d}') || c == ' ' || c == '\u{85}' || c == '\u{a0}' || c
        == '\u{1680}' || ('\u{2000}' <= c && c <= '\u{200a}') || c == '\u{2028}' || c
        == '\u{2029}' || c == '\u{202f}' || c == '\u{205f}' || c == '\u{3000}'
}

/// The pieces of `s` between line feeds: one more piece than there are `'\n'`s.
pub open spec fn newline_pieces(s: Seq<char>) -> Seq<Seq<char>>
    decreases s.len(),
{
    if s.len() == 0 {
        seq![Seq::empty()]
    } else {
        let pieces = newline_pieces(s.drop_last());
        if s.last() == '\n' {
            pieces.push(Seq::empty())
        } else {
            pieces.update(pieces.len() - 1, pieces.last().push(s.last()))
        }
    }
}

/// A line that was ended by a line feed loses one trailing carriage return.
pub open spec fn strip_cr(line: Seq<char>) -> Seq<char> {
    if line.len() > 0 && line.last() == '\r' {
        line.drop_last()
    } else {
        line
    }
}

/// The lines of `s` as `str::lines` yields them: pieces between line feeds,
/// each ended piece without a trailing `'\r'`, and the last piece only when
/// it is not empty.
pub open spec fn lines_of(s: Seq<char>) -> Seq<Seq<char>> {
    let pieces = newline_pieces(s);
    let ended = pieces.drop_last().map_values(|line: Seq<char>| strip_cr(line));
    if pieces.last().len() == 0 {
        ended
    } else {
        ended.push(pieces.last())
    }
}

/// `s` without its leading whitespace.
pub open spec fn trim_start(s: Seq<char>) -> Seq<char>
    decreases s.len(),
{
    if s.len() > 0 && whitespace_char(s[0]) {
        trim_start(s.drop_first())
    } else {
        s
    }
}

/// `s` without its trailing whitespace.
pub open spec fn trim_end(s: Seq<char>) -> Seq<char>
    decreases s.len(),
{
    if s.len() > 0 && whitespace_char(s.last()) {
        trim_end(s.drop_last())
    } else {
        s
    }
}

/// `s` without leading and trailing whitespace, as `str::trim` gives it.
pub open spec fn trim(s: Seq<char>) -> Seq<char> {
    trim_end(trim_start(s))
}

/// Every character of `s` is whitespace.
pub open spec fn is_blank(s: Seq<char>) -> bool {
    forall|k: int| 0 <= k < s.len() ==> whitespace_char(#[trigger] s[k])
}

proof fn lemma_trim_start_empty_iff_blank(s: Seq<char>)
    ensures
        (trim_start(s).len() == 0) <==> is_blank(s),
        trim_start(s).len() > 0 ==> !whitespace_char(trim_start(s)[0]),
    decreases s.len(),
{
    if s.len() > 0 {
        lemma_trim_start_empty_iff_blank(s.drop_first());
        if whitespace_char(s[0]) {
            if is_blank(s.drop_first()) {
                assert forall|k: int| 0 <= k < s.len() implies whitespace_char(#[trigger] s[k]) by {
                    if k > 0 {
                        assert(s[k] == s.drop_first()[k - 1]);
                    }
                }
            } else {
                let k = choose|k: int| 0 <= k < s.drop_first().len() && !whitespace_char(s.drop_first()[k]);
                assert(s[k + 1] == s.drop_first()[k]);
            }
        }
    }
}

proof fn lemma_trim_end_keeps_nonblank_start(s: Seq<char>)
    requires
        s.len() > 0,
        !whitespace_char(s[0]),
    ensures
        trim_end(s).len() > 0,
    decreases s.len(),
{
    if whitespace_char(s.last()) {
        assert(s.len() > 1);
        assert(s.drop_last()[0] == s[0]);
        lemma_trim_end_keeps_nonblank_start(s.drop_last());
    }
}

/// Trimming leaves nothing exactly when every character is whitespace.
pub proof fn lemma_trim_empty_iff_blank(s: Seq<char>)
    ensures
        (trim(s).len() == 0) <==> is_blank(s),
{
    lemma_trim_start_empty_iff_blank(s);
    if trim_start(s).len() > 0 {
        lemma_trim_end_keeps_nonblank_start(trim_start(s));
    }
}

proof fn lemma_pieces_nonempty(s: Seq<char>)
    ensures
        newline_pieces(s).len() >= 1,
    decreases s.len(),
{
    if s.len() > 0 {
        lemma_pieces_nonempty(s.drop_last());
    }
}

/// The lines of `text`, in order, as `str::lines` splits it.
pub fn split_lines(text: &str) -> (lines: Vec<Vec<char>>)
    ensures
        lines@.len() == lines_of(text@).len(),
        forall|i: int| 0 <= i < lines@.len() ==> #[trigger] lines@[i]@ == lines_of(text@)[i],
{
    let chars = chars_of(text);
    let ghost s = chars@;
    let mut done: Vec<Vec<char>> = Vec::new();
    let mut current: Vec<char> = Vec::new();
    let mut i: usize = 0;
    proof {
        assert(s.subrange(0, 0) =~= Seq::<char>::empty());
    }
    while i < chars.len()
        invariant
            i <= s.len(),
            chars@ == s,
            ({
                let pieces = newline_pieces(s.subrange(0, i as int));
                &&& pieces.len() == done@.len() + 1
                &&& forall|k: int| 0 <= k < done@.len() ==> #[trigger] done@[k]@ == pieces[k]
                &&& current@ == pieces.last()
            }),
        decreases s.len() - i,
    {
        let c = chars[i];
        proof {
            let prefix = s.subrange(0, i as int + 1);
            assert(prefix.drop_last() =~= s.subrange(0, i as int));
            assert(prefix.last() == c);
            lemma_pieces_nonempty(s.subrange(0, i as int));
        }
        if c == '\n' {
            let finished = current;
            done.push(finished);
            current = Vec::new();
        } else {
            current.push(c);
        }
        i = i + 1;
    }
    proof {
        assert(s.subrange(0, s.len() as int) =~= s);
        assert(s =~= text@);
    }
    let ghost pieces = newline_pieces(text@);
    let mut lines: Vec<Vec<char>> = Vec::new();
    let mut k: usize = 0;
    while k < done.len()
        invariant
            k <= done@.len(),
            pieces.len() == done@.len() + 1,
            forall|j: int| 0 <= j < done@.len() ==> #[trigger] done@[j]@ == pieces[j],
            lines@.len() == k,
            forall|j: int| 0 <= j < k ==> #[trigger] lines@[j]@ == strip_cr(pieces[j]),
        decreases done@.len() - k,
    {
        let piece = &done[k];
        let n = piece.len();
        let mut line: Vec<char> = Vec::new();
        let keep = if n > 0 && piece[n - 1] == '\r' { n - 1 } else { n };
        let mut m: usize = 0;
        while m < keep
            invariant
                keep <= piece@.len(),
                m <= keep,
                line@ == piece@.subrange(0, m as int),
            decreases keep - m,
        {
            line.push(piece[m]);
            proof {
                assert(line@ =~= piece@.subrange(0, m as int + 1));
            }
            m = m + 1;
        }
        proof {
            assert(line@ =~= strip_cr(piece@));
        }
        lines.push(line);
        k = k + 1;
    }
    if current.len() > 0 {
        lines.push(current);
    }
    proof {
        let ended = pieces.drop_last().map_values(|line: Seq<char>| strip_cr(line));
        assert forall|i: int| 0 <= i < lines@.len() implies #[trigger] lines@[i]@ == lines_of(
            text@,
        )[i] by {
            if i < done@.len() {
                assert(ended[i] == strip_cr(pieces[i]));
            }
        }
    }
    lines
}

/// `text` without leading and trailing whitespace.
pub fn trim_chars(text: &[char]) -> (res: Vec<char>)
    ensures
        res@ == trim(text@),
{
    let n = text.len();
    let mut start: usize = 0;
    proof {
        assert(text@.subrange(0, n as int) =~= text@);
    }
    while start < n && is_whitespace(text[start])
        invariant
            n == text@.len(),
            start <= n,
            trim_start(text@) == trim_start(text@.subrange(start as int, n as int)),
        decreases n - start,
    {
        proof {
            let rest = text@.subrange(start as int, n as int);
            assert(rest.drop_first() =~= text@.subrange(start as int + 1, n as int));
        }
        start = start + 1;
    }
    let ghost middle = text@.subrange(start as int, n as int);
    assert(trim_start(text@) == middle) by {
        if start < n {
            assert(middle[0] == text@[start as int]);
        }
    }
    let mut end: usize = n;
    while end > start && is_whitespace(text[end - 1])
        invariant
            n == text@.len(),
            start <= end <= n,
            trim_end(middle) == trim_end(text@.subrange(start as int, end as int)),
        decreases end - start,
    {
        proof {
            let rest = text@.subrange(start as int, end as int);
            assert(rest.drop_last() =~= text@.subrange(start as int, end as int - 1));
        }
        end = end - 1;
    }
    let ghost kept = text@.subrange(start as int, end as int);
    assert(trim_end(kept) == kept) by {
        if kept.len() > 0 {
            assert(kept.last() == text@[end as int - 1]);
        }
    }
    let mut res: Vec<char> = Vec::new();
    let mut m: usize = start;
    while m < end
        invariant
            start <= m <= end,
            end <= text@.len(),
            res@ == text@.subrange(start as int, m as int),
        decreases end - m,
    {
        res.push(text[m]);
        proof {
            assert(res@ =~= text@.subrange(start as int, m as int + 1));
        }
        m = m + 1;
    }
    res
}


/// `c` is an ASCII decimal digit.
pub open spec fn is_digit(c: char) -> bool {
    '0' <= c && c <= '9'
}

/// The number that the decimal digits `d` spell, most significant first.
pub open spec fn digits_value(d: Seq<char>) -> nat
    decreases d.len(),
{
    if d.len() == 0 {
        0
    } else {
        digits_value(d.drop_last()) * 10 + ((d.last() as nat) - ('0' as nat)) as nat
    }
}

/// The digits of an unsigned decimal: `s` without one leading `+`.
pub open spec fn unsigned_digits(s: Seq<char>) -> Seq<char> {
    if s.len() > 0 && s[0] == '+' {
        s.drop_first()
    } else {
        s
    }
}

/// What `str::parse::<u64>` accepts: an optional `+`, then one or more
/// decimal digits whose value fits in a `u64`.
pub open spec fn parsed_u64(s: Seq<char>) -> Option<u64> {
    let d = unsigned_digits(s);
    if d.len() > 0 && (forall|i: int| 0 <= i < d.len() ==> is_digit(#[trigger] d[i]))
        && digits_value(d) <= u64::MAX {
        Some(digits_value(d) as u64)
    } else {
        None
    }
}

proof fn lemma_digits_value_grows(d: Seq<char>, k: int)
    requires
        0 <= k <= d.len(),
        forall|i: int| 0 <= i < d.len() ==> is_digit(#[trigger] d[i]),
    ensures
        digits_value(d.subrange(0, k)) <= digits_value(d),
    decreases d.len() - k,
{
    if k < d.len() {
        let longer = d.subrange(0, k + 1);
        assert(longer.drop_last() =~= d.subrange(0, k));
        assert(is_digit(longer.last()));
        lemma_digits_value_grows(d, k + 1);
    } else {
        assert(d.subrange(0, k) =~= d);
    }
}

/// The unsigned decimal in `s`, as `str::parse::<u64>` reads it.
pub fn parse_u64(s: &str) -> (res: Option<u64>)
    ensures
        res == parsed_u64(s@),
{
    let chars = chars_of(s);
    let start: usize = if chars.len() > 0 && chars[0] == '+' { 1 } else { 0 };
    let ghost d = unsigned_digits(s@);
    proof {
        assert(d =~= chars@.subrange(start as int, chars@.len() as int));
    }
    if start >= chars.len() {
        return None;
    }
    let mut value: u64 = 0;
    let mut i: usize = start;
    while i < chars.len()
        invariant
            start <= i <= chars@.len(),
            chars@ == s@,
            d == unsigned_digits(s@),
            d == chars@.subrange(start as int, chars@.len() as int),
            forall|j: int| 0 <= j < i - start ==> is_digit(#[trigger] d[j]),
            value == digits_value(d.subrange(0, i - start)),
        decreases chars@.len() - i,
    {
        let c = chars[i];
        let ghost prefix = d.subrange(0, i - start + 1);
        proof {
            assert(prefix.drop_last() =~= d.subrange(0, i - start));
            assert(prefix.last() == c);
        }
        if !('0' <= c && c <= '9') {
            assert(!is_digit(d[i - start]));
            return None;
        }
        let digit: u64 = (c as u32 - '0' as u32) as u64;
        let next = match value.checked_mul(10) {
            Some(v) => v.checked_add(digit),
            None => None,
        };
        match next {
            Some(v) => {
                value = v;
            },
            None => {
                proof {
                    assert(digits_value(prefix) == value * 10 + digit);
                    assert(digits_value(prefix) > u64::MAX);
                    if forall|j: int| 0 <= j < d.len() ==> is_digit(#[trigger] d[j]) {
                        lemma_digits_value_grows(d, i - start + 1);
                    }
                }
                return None;
            },
        }
        i = i + 1;
    }
    proof {
        assert(d.subrange(0, i - start) =~= d);
    }
    Some(value)
}

/// `s` without its trailing `'/'` characters.
pub open spec fn without_trailing_slashes(s: Seq<char>) -> Seq<char>
    decreases s.len(),
{
    if s.len() > 0 && s.last() == '/' {
        without_trailing_slashes(s.drop_last())
    } else {
        s
    }
}

/// `s` without its trailing `'/'` characters, as `trim_end_matches('/')` gives it.
pub fn trim_trailing_slashes(s: &str) -> (res: String)
    ensures
        res@ == without_trailing_slashes(s@),
{
    let chars = chars_of(s);
    let mut end: usize = chars.len();
    proof {
        assert(chars@.subrange(0, end as int) =~= chars@);
    }
    while end > 0 && chars[end - 1] == '/'
        invariant
            end <= chars@.len(),
            chars@ == s@,
            without_trailing_slashes(s@) == without_trailing_slashes(
                chars@.subrange(0, end as int),
            ),
        decreases end,
    {
        proof {
            assert(chars@.subrange(0, end as int).drop_last() =~= chars@.subrange(
                0,
                end as int - 1,
            ));
        }
        end = end - 1;
    }
    let mut kept: Vec<char> = Vec::new();
    let mut m: usize = 0;
    while m < end
        invariant
            m <= end <= chars@.len(),
            kept@ == chars@.subrange(0, m as int),
        decreases end - m,
    {
        kept.push(chars[m]);
        proof {
            assert(kept@ =~= chars@.subrange(0, m as int + 1));
        }
        m = m + 1;
    }
    string_of(kept.as_slice())
}

} // verus!
