//! Character-level helpers shared by the parsers and the record builders.
use vstd::prelude::*;
use vstd::string::*;

verus! {

/// Relies on `String::push`: appends one character at the end.
#[verifier::external_body]
pub(crate) fn push_char(s: &mut String, c: char)
    ensures
        final(s)@ == old(s)@.push(c),
{
    s.push(c)
}

/// The characters of `s`, in order.
pub fn chars_of(s: &str) -> (r: Vec<char>)
    ensures
        r@ == s@,
{
    let mut out: Vec<char> = Vec::new();
    for c in it: s.chars()
        invariant
            it.seq() == s@,
            out@ == it.seq().take(it.index() as int),
    {
        out.push(c);
        proof {
            assert(out@ =~= it.seq().take(it.index() + 1));
        }
    }
    proof {
        assert(out@ =~= s@);
    }
    out
}

} // verus!

verus! {

/// The characters that Unicode counts as white space.
pub open spec fn is_space(c: char) -> bool {
    let u = c as u32;
    (0x09 <= u && u <= 0x0D) || u == 0x20 || u == 0x85 || u == 0xA0 || u == 0x1680 || (0x2000
        <= u && u <= 0x200A) || u == 0x2028 || u == 0x2029 || u == 0x202F || u == 0x205F || u
        == 0x3000
}

/// The characters that a trim removes: white space, or double quotes when `quotes` is set.
pub open spec fn strippable(c: char, quotes: bool) -> bool {
    if quotes {
        c == '"'
    } else {
        is_space(c)
    }
}

/// The first index at or after `i` whose character is not strippable.
pub open spec fn skip_lead(s: Seq<char>, i: int, quotes: bool) -> int
    decreases s.len() - i,
{
    if 0 <= i < s.len() && strippable(s[i], quotes) {
        skip_lead(s, i + 1, quotes)
    } else {
        i
    }
}

/// The end left once strippable characters are removed backwards from `j`, stopping at `lo`.
pub open spec fn skip_trail(s: Seq<char>, lo: int, j: int, quotes: bool) -> int
    decreases j - lo,
{
    if lo < j && strippable(s[j - 1], quotes) {
        skip_trail(s, lo, j - 1, quotes)
    } else {
        j
    }
}

/// `s` without its leading and trailing strippable characters.
pub open spec fn trimmed(s: Seq<char>, quotes: bool) -> Seq<char> {
    let lo = skip_lead(s, 0, quotes);
    s.subrange(lo, skip_trail(s, lo, s.len() as int, quotes))
}

/// The characters `v[lo..hi]`.
pub fn slice(v: &Vec<char>, lo: usize, hi: usize) -> (r: Vec<char>)
    requires
        lo <= hi <= v@.len(),
    ensures
        r@ == v@.subrange(lo as int, hi as int),
{
    let mut out: Vec<char> = Vec::new();
    let mut i: usize = lo;
    while i < hi
        invariant
            lo <= i <= hi <= v@.len(),
            out@ == v@.subrange(lo as int, i as int),
        decreases hi - i,
    {
        out.push(v[i]);
        i = i + 1;
        proof {
            assert(out@ =~= v@.subrange(lo as int, i as int));
        }
    }
    out
}

fn is_strippable(c: char, quotes: bool) -> (r: bool)
    ensures
        r == strippable(c, quotes),
{
    if quotes {
        c == '"'
    } else {
        let u = c as u32;
        (0x09 <= u && u <= 0x0D) || u == 0x20 || u == 0x85 || u == 0xA0 || u == 0x1680 || (0x2000
            <= u && u <= 0x200A) || u == 0x2028 || u == 0x2029 || u == 0x202F || u == 0x205F
            || u == 0x3000
    }
}

/// `v` without its leading and trailing white space, or double quotes when `quotes` is set.
pub fn trim_chars(v: &Vec<char>, quotes: bool) -> (r: Vec<char>)
    ensures
        r@ == trimmed(v@, quotes),
{
    let n = v.len();
    let mut lo: usize = 0;
    while lo < n && is_strippable(v[lo], quotes)
        invariant
            lo <= n == v@.len(),
            skip_lead(v@, lo as int, quotes) == skip_lead(v@, 0, quotes),
        decreases n - lo,
    {
        lo = lo + 1;
    }
    let mut hi: usize = n;
    while hi > lo && is_strippable(v[hi - 1], quotes)
        invariant
            lo <= hi <= n == v@.len(),
            skip_lead(v@, 0, quotes) == lo,
            skip_trail(v@, lo as int, hi as int, quotes) == skip_trail(
                v@,
                lo as int,
                n as int,
                quotes,
            ),
        decreases hi - lo,
    {
        hi = hi - 1;
    }
    slice(v, lo, hi)
}

} // verus!

verus! {

/// The pieces of `s[start..]` separated by `sep`, the current piece having begun at `start`
/// and the scan standing at `i`.
pub open spec fn split_from(s: Seq<char>, sep: char, start: int, i: int) -> Seq<Seq<char>>
    decreases s.len() - i,
{
    if i >= s.len() {
        seq![s.subrange(start, s.len() as int)]
    } else if s[i] == sep {
        seq![s.subrange(start, i)] + split_from(s, sep, i + 1, i + 1)
    } else {
        split_from(s, sep, start, i + 1)
    }
}

/// The pieces of `s` between occurrences of `sep`; there is always at least one.
pub open spec fn split_on(s: Seq<char>, sep: char) -> Seq<Seq<char>> {
    split_from(s, sep, 0, 0)
}

/// The rows of a text: its pieces between line feeds, without the empty piece that a
/// final line feed leaves. A carriage return before a line feed stays in its row.
pub open spec fn text_rows(s: Seq<char>) -> Seq<Seq<char>> {
    let p = split_on(s, '\n');
    if p.last().len() == 0 {
        p.drop_last()
    } else {
        p
    }
}

/// The maximal runs of non-white-space characters of `s[start..]`, the current run having
/// begun at `start` and the scan standing at `i`.
pub open spec fn words_from(s: Seq<char>, start: int, i: int) -> Seq<Seq<char>>
    decreases s.len() - i,
{
    if i >= s.len() {
        if start < s.len() {
            seq![s.subrange(start, s.len() as int)]
        } else {
            seq![]
        }
    } else if is_space(s[i]) {
        (if start < i {
            seq![s.subrange(start, i)]
        } else {
            seq![]
        }) + words_from(s, i + 1, i + 1)
    } else {
        words_from(s, start, i + 1)
    }
}

/// The white-space separated words of `s`.
pub open spec fn words(s: Seq<char>) -> Seq<Seq<char>> {
    words_from(s, 0, 0)
}

/// The views of a sequence of character vectors.
pub open spec fn views(v: Seq<Vec<char>>) -> Seq<Seq<char>> {
    v.map_values(|x: Vec<char>| x@)
}

/// The pieces of `v` between occurrences of `sep`.
pub fn split_chars(v: &Vec<char>, sep: char) -> (r: Vec<Vec<char>>)
    ensures
        views(r@) == split_on(v@, sep),
{
    let n = v.len();
    let mut out: Vec<Vec<char>> = Vec::new();
    let mut start: usize = 0;
    let mut i: usize = 0;
    while i < n
        invariant
            start <= i <= n == v@.len(),
            views(out@) + split_from(v@, sep, start as int, i as int) == split_on(v@, sep),
        decreases n - i,
    {
        if v[i] == sep {
            let piece = slice(v, start, i);
            let ghost before = out@;
            out.push(piece);
            proof {
                assert(views(out@) =~= views(before) + seq![piece@]);
                assert(views(out@) + split_from(v@, sep, i + 1, i + 1) =~= views(before)
                    + split_from(v@, sep, start as int, i as int));
            }
            start = i + 1;
        }
        i = i + 1;
    }
    let piece = slice(v, start, n);
    let ghost before = out@;
    out.push(piece);
    proof {
        assert(views(out@) =~= views(before) + seq![piece@]);
        assert(views(out@) =~= split_on(v@, sep));
    }
    out
}

/// The rows of the text `v`.
pub fn rows_of(v: &Vec<char>) -> (r: Vec<Vec<char>>)
    ensures
        views(r@) == text_rows(v@),
{
    let mut r = split_chars(v, '\n');
    proof {
        assert(split_from(v@, '\n', 0, 0).len() > 0) by {
            lemma_split_nonempty(v@, '\n', 0, 0);
        }
    }
    let k = r.len();
    if r[k - 1].len() == 0 {
        let ghost before = r@;
        r.pop();
        proof {
            assert(views(r@) =~= views(before).drop_last());
        }
    }
    r
}

proof fn lemma_split_nonempty(s: Seq<char>, sep: char, start: int, i: int)
    ensures
        split_from(s, sep, start, i).len() > 0,
    decreases s.len() - i,
{
    if i < s.len() {
        if s[i] == sep {
            lemma_split_nonempty(s, sep, i + 1, i + 1);
        } else {
            lemma_split_nonempty(s, sep, start, i + 1);
        }
    }
}

/// The white-space separated words of `v`.
pub fn words_of(v: &Vec<char>) -> (r: Vec<Vec<char>>)
    ensures
        views(r@) == words(v@),
{
    let n = v.len();
    let mut out: Vec<Vec<char>> = Vec::new();
    let mut start: usize = 0;
    let mut i: usize = 0;
    while i < n
        invariant
            start <= i <= n == v@.len(),
            views(out@) + words_from(v@, start as int, i as int) == words(v@),
        decreases n - i,
    {
        if is_strippable(v[i], false) {
            if start < i {
                let piece = slice(v, start, i);
                let ghost before = out@;
                out.push(piece);
                proof {
                    assert(views(out@) =~= views(before) + seq![piece@]);
                    assert(views(out@) + words_from(v@, i + 1, i + 1) =~= views(before)
                        + words_from(v@, start as int, i as int));
                }
            } else {
                proof {
                    assert(words_from(v@, start as int, i as int) =~= words_from(
                        v@,
                        i + 1,
                        i + 1,
                    ));
                }
            }
            start = i + 1;
        }
        i = i + 1;
    }
    if start < n {
        let piece = slice(v, start, n);
        let ghost before = out@;
        out.push(piece);
        proof {
            assert(views(out@) =~= views(before) + seq![piece@]);
        }
    } else {
        proof {
            assert(views(out@) =~= views(out@) + words_from(v@, start as int, n as int));
        }
    }
    out
}

} // verus!

verus! {

/// The greatest index below `j` at which `s` holds `c`, or -1 when there is none.
pub open spec fn last_index_below(s: Seq<char>, c: char, j: int) -> int
    decreases j,
{
    if j <= 0 {
        -1
    } else if s[j - 1] == c {
        j - 1
    } else {
        last_index_below(s, c, j - 1)
    }
}

/// The last index at which `s` holds `c`, or -1 when there is none.
pub open spec fn last_index_of(s: Seq<char>, c: char) -> int {
    last_index_below(s, c, s.len() as int)
}

/// Where `c` last occurs in `v`.
pub fn find_last(v: &Vec<char>, c: char) -> (r: Option<usize>)
    ensures
        match r {
            Some(k) => k as int == last_index_of(v@, c) && k < v@.len(),
            None => last_index_of(v@, c) == -1,
        },
{
    let mut j: usize = v.len();
    while j > 0 && v[j - 1] != c
        invariant
            j <= v@.len(),
            last_index_below(v@, c, j as int) == last_index_of(v@, c),
        decreases j,
    {
        j = j - 1;
    }
    if j == 0 {
        None
    } else {
        Some(j - 1)
    }
}

/// Whether `v` holds exactly the characters of `lit`.
pub fn equals_text(v: &Vec<char>, lit: &str) -> (r: bool)
    ensures
        r == (v@ == lit@),
{
    let n = lit.unicode_len();
    if v.len() != n {
        return false;
    }
    let mut i: usize = 0;
    while i < n
        invariant
            i <= n == v@.len() == lit@.len(),
            v@.take(i as int) == lit@.take(i as int),
        decreases n - i,
    {
        if v[i] != lit.get_char(i) {
            assert(v@[i as int] != lit@[i as int]);
            return false;
        }
        i = i + 1;
        proof {
            assert(v@.take(i as int) =~= v@.take(i - 1).push(v@[i - 1]));
            assert(lit@.take(i as int) =~= lit@.take(i - 1).push(lit@[i - 1]));
        }
    }
    proof {
        assert(v@ =~= v@.take(n as int));
        assert(lit@ =~= lit@.take(n as int));
    }
    true
}

/// Whether `v` begins with the characters of `lit`.
pub fn starts_with_text(v: &Vec<char>, lit: &str) -> (r: bool)
    ensures
        r == (lit@.len() <= v@.len() && v@.take(lit@.len() as int) == lit@),
{
    let n = lit.unicode_len();
    if v.len() < n {
        return false;
    }
    let head = slice(v, 0, n);
    proof {
        assert(head@ =~= v@.take(n as int));
    }
    equals_text(&head, lit)
}

/// A `String` holding the characters of `v`.
pub fn string_from(v: &Vec<char>) -> (r: String)
    ensures
        r@ == v@,
{
    let mut s = String::new();
    let mut i: usize = 0;
    while i < v.len()
        invariant
            i <= v@.len(),
            s@ == v@.take(i as int),
        decreases v@.len() - i,
    {
        push_char(&mut s, v[i]);
        i = i + 1;
        proof {
            assert(s@ =~= v@.take(i as int));
        }
    }
    proof {
        assert(v@ =~= v@.take(v@.len() as int));
    }
    s
}

/// A `String` holding `a` followed by `b`.
pub fn joined(a: &str, b: &str) -> (r: String)
    ensures
        r@ == a@ + b@,
{
    let mut s = String::from_str(a);
    s.append(b);
    s
}

/// `s` with every trailing `.exe` removed, scanning back from `j`.
pub open spec fn exe_end(s: Seq<char>, j: int) -> int
    decreases j,
{
    if 4 <= j <= s.len() && s.subrange(j - 4, j) == seq!['.', 'e', 'x', 'e'] {
        exe_end(s, j - 4)
    } else {
        j
    }
}

/// `s` without the `.exe` suffixes it ends with.
pub open spec fn without_exe(s: Seq<char>) -> Seq<char> {
    s.take(exe_end(s, s.len() as int))
}

/// `v` without the `.exe` suffixes it ends with.
pub fn strip_exe(v: &Vec<char>) -> (r: Vec<char>)
    ensures
        r@ == without_exe(v@),
{
    let mut j: usize = v.len();
    loop
        invariant
            j <= v@.len(),
            exe_end(v@, j as int) == exe_end(v@, v@.len() as int),
        ensures
            j <= v@.len(),
            exe_end(v@, j as int) == j,
            j == exe_end(v@, v@.len() as int),
        decreases j,
    {
        if j < 4 {
            assert(exe_end(v@, j as int) == j);
            break;
        }
        if !(v[j - 4] == '.' && v[j - 3] == 'e' && v[j - 2] == 'x' && v[j - 1] == 'e') {
            proof {
                let t = v@.subrange(j - 4, j as int);
                if t == seq!['.', 'e', 'x', 'e'] {
                    assert(t[0] == '.' && t[1] == 'e' && t[2] == 'x' && t[3] == 'e');
                }
                assert(exe_end(v@, j as int) == j);
            }
            break;
        }
        proof {
            assert(v@.subrange(j - 4, j as int) =~= seq!['.', 'e', 'x', 'e']);
        }
        j = j - 4;
    }
    let r = slice(v, 0, j);
    proof {
        assert(r@ =~= without_exe(v@));
    }
    r
}

} // verus!

verus! {

pub open spec fn is_digit(c: char) -> bool {
    0x30 <= (c as u32) && (c as u32) <= 0x39
}

pub open spec fn digit_value(c: char) -> nat {
    ((c as u32) - 0x30) as nat
}

/// The number written by the first `j` characters of `d`, read as decimal digits.
pub open spec fn decimal_prefix(d: Seq<char>, j: int) -> nat
    decreases j,
{
    if j <= 0 {
        0
    } else {
        decimal_prefix(d, j - 1) * 10 + digit_value(d[j - 1])
    }
}

/// Whether every character of `d` from index `i` on is a decimal digit.
pub open spec fn digits_from(d: Seq<char>, i: int) -> bool {
    forall|k: int| i <= k < d.len() ==> is_digit(#[trigger] d[k])
}

/// The length of the sign that may open an unsigned numeral: 1 for a `+`, else 0.
pub open spec fn sign_len(s: Seq<char>) -> int {
    if s.len() > 0 && s[0] == '+' {
        1
    } else {
        0
    }
}

/// The value of an unsigned decimal numeral no greater than `max`: an optional `+`, then
/// one or more digits. `None` for any other text, or for a value above `max`.
pub open spec fn parse_unsigned(s: Seq<char>, max: nat) -> Option<nat> {
    let b = sign_len(s);
    if b < s.len() && digits_from(s, b) && decimal_prefix(s.skip(b), s.len() - b) <= max {
        Some(decimal_prefix(s.skip(b), s.len() - b))
    } else {
        None
    }
}

proof fn lemma_not_numeral(s: Seq<char>, max: nat)
    requires
        !digits_from(s, sign_len(s)),
    ensures
        parse_unsigned(s, max) is None,
{
}

proof fn lemma_decimal_grows(d: Seq<char>, j: int, k: int)
    requires
        0 <= j <= k <= d.len(),
        digits_from(d, 0),
    ensures
        decimal_prefix(d, j) <= decimal_prefix(d, k),
    decreases k - j,
{
    if j < k {
        lemma_decimal_grows(d, j, k - 1);
    }
}

/// Reads `v` as an unsigned decimal numeral no greater than `max`.
pub fn parse_decimal(v: &Vec<char>, max: u32) -> (r: Option<u32>)
    ensures
        match parse_unsigned(v@, max as nat) {
            Some(n) => r == Some(n as u32),
            None => r is None,
        },
{
    let n = v.len();
    let b: usize = if n > 0 && v[0] == '+' {
        1
    } else {
        0
    };
    assert(b as int == sign_len(v@));
    if b >= n {
        return None;
    }
    let ghost d = v@.skip(b as int);
    let mut acc: u64 = 0;
    let mut i: usize = b;
    while i < n
        invariant
            b <= i <= n == v@.len(),
            b as int == sign_len(v@),
            d == v@.skip(b as int),
            digits_from(v@.subrange(0, i as int), b as int),
            acc as nat == decimal_prefix(d, i - b),
            acc <= max,
        decreases n - i,
    {
        let c = v[i];
        let u = c as u32;
        if !(0x30 <= u && u <= 0x39) {
            proof {
                assert(!is_digit(v@[i as int]));
                assert(!digits_from(v@, b as int));
                lemma_not_numeral(v@, max as nat);
            }
            return None;
        }
        let dv = (u - 0x30) as u64;
        acc = acc * 10 + dv;
        i = i + 1;
        proof {
            assert(d[i - 1 - b] == c);
            assert(acc as nat == decimal_prefix(d, i - b));
            assert forall|k: int| b <= k < i implies is_digit(#[trigger] v@.subrange(0, i as int)[k]) by {
                if k < i - 1 {
                    assert(v@.subrange(0, i as int)[k] == v@.subrange(0, i - 1)[k]);
                }
            }
        }
        if acc > max as u64 {
            proof {
                if digits_from(v@, b as int) {
                    assert forall|k: int| 0 <= k < d.len() implies is_digit(#[trigger] d[k]) by {
                        assert(d[k] == v@[k + b]);
                    }
                    lemma_decimal_grows(d, i - b, d.len() as int);
                }
            }
            return None;
        }
    }
    proof {
        assert(v@.subrange(0, n as int) =~= v@);
    }
    Some(acc as u32)
}

pub open spec fn digit_char(n: nat) -> char {
    if n == 0 {
        '0'
    } else if n == 1 {
        '1'
    } else if n == 2 {
        '2'
    } else if n == 3 {
        '3'
    } else if n == 4 {
        '4'
    } else if n == 5 {
        '5'
    } else if n == 6 {
        '6'
    } else if n == 7 {
        '7'
    } else if n == 8 {
        '8'
    } else {
        '9'
    }
}

/// The decimal numeral of `n`, without leading zeros.
pub open spec fn decimal_text(n: nat) -> Seq<char>
    decreases n,
{
    if n < 10 {
        seq![digit_char(n)]
    } else {
        decimal_text(n / 10).push(digit_char(n % 10))
    }
}

fn digit_of(n: u64) -> (c: char)
    requires
        n < 10,
    ensures
        c == digit_char(n as nat),
{
    if n == 0 {
        '0'
    } else if n == 1 {
        '1'
    } else if n == 2 {
        '2'
    } else if n == 3 {
        '3'
    } else if n == 4 {
        '4'
    } else if n == 5 {
        '5'
    } else if n == 6 {
        '6'
    } else if n == 7 {
        '7'
    } else if n == 8 {
        '8'
    } else {
        '9'
    }
}

/// Appends the decimal numeral of `n` to `s`.
pub fn push_decimal(s: &mut String, n: u64)
    ensures
        final(s)@ == old(s)@ + decimal_text(n as nat),
    decreases n,
{
    if n >= 10 {
        push_decimal(s, n / 10);
    }
    push_char(s, digit_of(n % 10));
    proof {
        if n < 10 {
            assert(decimal_text(n as nat) =~= seq![digit_char(n as nat)]);
        }
    }
    assert(final(s)@ =~= old(s)@ + decimal_text(n as nat));
}

} // verus!
