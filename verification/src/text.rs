//! Byte- and character-level text helpers: splitting at a separator byte,
//! decimal integers as `str::parse` reads them and as `Display` writes them,
//! and building `String`s out of ASCII bytes.

use vstd::prelude::*;
use vstd::string::*;

verus! {

/// The characters of an ASCII byte sequence.
pub open spec fn ascii_chars(bytes: Seq<u8>) -> Seq<char> {
    bytes.map_values(|b: u8| b as char)
}

/// Every byte is below 0x80.
pub open spec fn all_ascii(bytes: Seq<u8>) -> bool {
    forall|i: int| 0 <= i < bytes.len() ==> #[trigger] bytes[i] < 128
}

/// Index of the first `b` in `s`, or `s.len()` when there is none.
pub open spec fn find_first(s: Seq<u8>, b: u8) -> int
    decreases s.len(),
{
    if s.len() == 0 {
        0
    } else if s[0] == b {
        0
    } else {
        1 + find_first(s.drop_first(), b)
    }
}

/// `s` cut at every `sep`, as `str::split` with a one-byte ASCII separator
/// does: always at least one piece, an empty piece around adjacent separators.
pub open spec fn split_on(s: Seq<u8>, sep: u8) -> Seq<Seq<u8>>
    decreases s.len(),
{
    if s.len() == 0 {
        seq![Seq::<u8>::empty()]
    } else {
        let rest = split_on(s.drop_first(), sep);
        if s[0] == sep {
            seq![Seq::<u8>::empty()] + rest
        } else {
            rest.update(0, seq![s[0]] + rest[0])
        }
    }
}

/// Pieces joined with `sep` between consecutive pieces.
pub open spec fn join_with(parts: Seq<Seq<u8>>, sep: u8) -> Seq<u8>
    decreases parts.len(),
{
    if parts.len() == 0 {
        Seq::<u8>::empty()
    } else if parts.len() == 1 {
        parts[0]
    } else {
        join_with(parts.drop_last(), sep) + seq![sep] + parts.last()
    }
}

/// `s` holds no `b`.
pub open spec fn lacks(s: Seq<u8>, b: u8) -> bool {
    forall|i: int| 0 <= i < s.len() ==> #[trigger] s[i] != b
}

pub open spec fn is_digit(b: u8) -> bool {
    48 <= b <= 57
}

pub open spec fn all_digits(s: Seq<u8>) -> bool {
    forall|i: int| 0 <= i < s.len() ==> is_digit(#[trigger] s[i])
}

/// Value of a run of decimal digits.
pub open spec fn digits_value(s: Seq<u8>) -> int
    decreases s.len(),
{
    if s.len() == 0 {
        0
    } else {
        digits_value(s.drop_last()) * 10 + (s.last() - 48)
    }
}

/// Decimal digits of `n` without leading zeros, as `Display` writes an
/// unsigned integer.
pub open spec fn decimal_bytes(n: nat) -> Seq<u8>
    decreases n,
{
    if n < 10 {
        seq![(48 + n) as u8]
    } else {
        decimal_bytes(n / 10) + seq![(48 + n % 10) as u8]
    }
}

/// `str::parse` of an unsigned integer no larger than `max`: an optional
/// `+`, then at least one decimal digit and nothing else.
pub open spec fn parse_unsigned(s: Seq<u8>, max: int) -> Option<int> {
    let d = if s.len() > 0 && s[0] == 43 {
        s.drop_first()
    } else {
        s
    };
    if d.len() == 0 || !all_digits(d) || digits_value(d) > max {
        None
    } else {
        Some(digits_value(d))
    }
}

/// `str::parse` of a signed integer in `min..=max`: an optional `+` or `-`,
/// then at least one decimal digit and nothing else.
pub open spec fn parse_signed(s: Seq<u8>, min: int, max: int) -> Option<int> {
    if s.len() > 0 && s[0] == 45 {
        let d = s.drop_first();
        if d.len() == 0 || !all_digits(d) || -digits_value(d) < min {
            None
        } else {
            Some(-digits_value(d))
        }
    } else {
        parse_unsigned(s, max)
    }
}

pub proof fn lemma_find_first_bounds(s: Seq<u8>, b: u8)
    ensures
        0 <= find_first(s, b) <= s.len(),
        forall|j: int| 0 <= j < find_first(s, b) ==> s[j] != b,
        find_first(s, b) < s.len() ==> s[find_first(s, b)] == b,
    decreases s.len(),
{
    if s.len() > 0 && s[0] != b {
        lemma_find_first_bounds(s.drop_first(), b);
        assert forall|j: int| 0 <= j < find_first(s, b) implies s[j] != b by {
            if j > 0 {
                assert(s[j] == s.drop_first()[j - 1]);
            }
        }
    }
}

/// The first `b` of `s` stands at `i` (or `s` has none and `i == s.len()`).
pub proof fn lemma_find_first_at(s: Seq<u8>, b: u8, i: int)
    requires
        0 <= i <= s.len(),
        forall|j: int| 0 <= j < i ==> s[j] != b,
        i == s.len() || s[i] == b,
    ensures
        find_first(s, b) == i,
    decreases s.len(),
{
    if s.len() > 0 && i > 0 {
        assert(s[0] != b);
        lemma_find_first_at(s.drop_first(), b, i - 1);
    }
}

pub proof fn lemma_split_on_nonempty(s: Seq<u8>, sep: u8)
    ensures
        split_on(s, sep).len() >= 1,
    decreases s.len(),
{
    if s.len() > 0 {
        lemma_split_on_nonempty(s.drop_first(), sep);
    }
}

/// Splitting at the first separator: the piece before it, then the rest.
pub proof fn lemma_split_on_first(s: Seq<u8>, sep: u8, i: int)
    requires
        0 <= i <= s.len(),
        forall|j: int| 0 <= j < i ==> s[j] != sep,
        i == s.len() || s[i] == sep,
    ensures
        i == s.len() ==> split_on(s, sep) == seq![s],
        i < s.len() ==> split_on(s, sep) == seq![s.subrange(0, i)] + split_on(
            s.subrange(i + 1, s.len() as int),
            sep,
        ),
    decreases s.len(),
{
    if s.len() == 0 {
        assert(s =~= Seq::<u8>::empty());
    } else if i == 0 {
        assert(s.subrange(0, 0) =~= Seq::<u8>::empty());
        assert(s.subrange(1, s.len() as int) =~= s.drop_first());
    } else {
        let t = s.drop_first();
        lemma_split_on_first(t, sep, i - 1);
        lemma_split_on_nonempty(t, sep);
        let rest = split_on(t, sep);
        if i == s.len() {
            assert(seq![s[0]] + t =~= s);
            assert(rest.update(0, seq![s[0]] + rest[0]) =~= seq![s]);
        } else {
            assert(seq![s[0]] + t.subrange(0, i - 1) =~= s.subrange(0, i));
            assert(t.subrange(i, t.len() as int) =~= s.subrange(i + 1, s.len() as int));
            assert(rest.update(0, seq![s[0]] + rest[0]) =~= seq![s.subrange(0, i)] + split_on(
                s.subrange(i + 1, s.len() as int),
                sep,
            ));
        }
    }
}

/// A piece without separators splits into itself.
pub proof fn lemma_split_on_lacking(s: Seq<u8>, sep: u8)
    requires
        lacks(s, sep),
    ensures
        split_on(s, sep) == seq![s],
{
    lemma_split_on_first(s, sep, s.len() as int);
}

/// Splitting distributes over a separator placed between two texts.
pub proof fn lemma_split_on_concat(a: Seq<u8>, sep: u8, b: Seq<u8>)
    ensures
        split_on(a + seq![sep] + b, sep) == split_on(a, sep) + split_on(b, sep),
    decreases a.len(),
{
    let s = a + seq![sep] + b;
    if a.len() == 0 {
        assert(s.drop_first() =~= b);
        assert(s[0] == sep);
    } else {
        let a1 = a.drop_first();
        lemma_split_on_concat(a1, sep, b);
        assert(s.drop_first() =~= a1 + seq![sep] + b);
        assert(s[0] == a[0]);
        lemma_split_on_nonempty(a1, sep);
        if a[0] == sep {
            assert(split_on(s, sep) =~= split_on(a, sep) + split_on(b, sep));
        } else {
            let ra = split_on(a1, sep);
            let rb = split_on(b, sep);
            assert((ra + rb).update(0, seq![a[0]] + (ra + rb)[0]) =~= ra.update(
                0,
                seq![a[0]] + ra[0],
            ) + rb);
        }
    }
}

/// Joining pieces that hold no separator and splitting again gives them back.
pub proof fn lemma_split_join(parts: Seq<Seq<u8>>, sep: u8)
    requires
        parts.len() >= 1,
        forall|i: int| 0 <= i < parts.len() ==> lacks(#[trigger] parts[i], sep),
    ensures
        split_on(join_with(parts, sep), sep) == parts,
    decreases parts.len(),
{
    if parts.len() == 1 {
        lemma_split_on_lacking(parts[0], sep);
        assert(seq![parts[0]] =~= parts);
    } else {
        let init = parts.drop_last();
        lemma_split_join(init, sep);
        lemma_split_on_concat(join_with(init, sep), sep, parts.last());
        lemma_split_on_lacking(parts.last(), sep);
        assert(init + seq![parts.last()] =~= parts);
    }
}

pub proof fn lemma_join_lacks(parts: Seq<Seq<u8>>, sep: u8, b: u8)
    requires
        b != sep,
        forall|i: int| 0 <= i < parts.len() ==> lacks(#[trigger] parts[i], b),
    ensures
        lacks(join_with(parts, sep), b),
    decreases parts.len(),
{
    if parts.len() > 1 {
        let init = parts.drop_last();
        lemma_join_lacks(init, sep, b);
        let j = join_with(parts, sep);
        let ji = join_with(init, sep);
        assert forall|k: int| 0 <= k < j.len() implies j[k] != b by {
            if k < ji.len() {
                assert(j[k] == ji[k]);
            } else if k == ji.len() {
            } else {
                assert(j[k] == parts.last()[k - ji.len() - 1]);
            }
        }
    } else if parts.len() == 1 {
        assert(lacks(parts[0], b));
    }
}

pub proof fn lemma_decimal_bytes_digits(n: nat)
    ensures
        decimal_bytes(n).len() >= 1,
        all_digits(decimal_bytes(n)),
        digits_value(decimal_bytes(n)) == n,
        is_digit(decimal_bytes(n)[0]),
    decreases n,
{
    if n < 10 {
        let d = decimal_bytes(n);
        assert(d.drop_last() =~= Seq::<u8>::empty());
        assert(digits_value(d) == digits_value(d.drop_last()) * 10 + (d.last() - 48));
    } else {
        lemma_decimal_bytes_digits(n / 10);
        let d = decimal_bytes(n);
        let h = decimal_bytes(n / 10);
        assert(d.drop_last() =~= h);
        assert(d[0] == h[0]);
        assert(d.last() == (48 + n % 10) as u8);
        assert forall|i: int| 0 <= i < d.len() implies is_digit(#[trigger] d[i]) by {
            if i < h.len() {
                assert(d[i] == h[i]);
            }
        }
        assert(digits_value(d) == digits_value(d.drop_last()) * 10 + (d.last() - 48));
        assert((n / 10) * 10 + n % 10 == n);
    }
}

/// What `Display` writes, `str::parse` reads back.
pub proof fn lemma_parse_decimal(n: nat, max: int)
    requires
        n <= max,
    ensures
        parse_unsigned(decimal_bytes(n), max) == Some(n as int),
{
    lemma_decimal_bytes_digits(n);
}

/// Appends `c` to `s`.
///
/// Trusted: `String::push` appends exactly that character.
#[verifier::external_body]
pub(crate) fn push_char(s: &mut String, c: char)
    ensures
        final(s)@ == old(s)@.push(c),
{
    s.push(c);
}

/// Appends the characters of ASCII bytes.
pub fn push_ascii(s: &mut String, bytes: &[u8])
    requires
        all_ascii(bytes@),
    ensures
        final(s)@ == old(s)@ + ascii_chars(bytes@),
{
    let ghost start = s@;
    let mut i: usize = 0;
    while i < bytes.len()
        invariant
            0 <= i <= bytes.len(),
            all_ascii(bytes@),
            s@ == start + ascii_chars(bytes@.subrange(0, i as int)),
        decreases bytes.len() - i,
    {
        let b = bytes[i];
        push_char(s, b as char);
        assert(ascii_chars(bytes@.subrange(0, i + 1)) =~= ascii_chars(bytes@.subrange(0, i as int)).push(
            b as char,
        ));
        i += 1;
    }
    assert(bytes@.subrange(0, bytes@.len() as int) =~= bytes@);
}

/// Decimal digits of `n`, as `Display` writes them.
pub fn decimal_digits(n: u64) -> (r: Vec<u8>)
    ensures
        r@ == decimal_bytes(n as nat),
        all_ascii(r@),
    decreases n,
{
    if n < 10 {
        let mut v: Vec<u8> = Vec::new();
        v.push((48 + n) as u8);
        assert(v@ =~= seq![(48 + n) as u8]);
        v
    } else {
        let mut v = decimal_digits(n / 10);
        v.push((48 + n % 10) as u8);
        assert(v@ =~= decimal_bytes((n / 10) as nat) + seq![(48 + n % 10) as u8]);
        assert forall|i: int| 0 <= i < v@.len() implies #[trigger] v@[i] < 128 by {
            if i < v@.len() - 1 {
                assert(v@[i] == decimal_bytes((n / 10) as nat)[i]);
            }
        }
        v
    }
}

/// Appends the decimal digits of `n`.
pub fn push_decimal(s: &mut String, n: u64)
    ensures
        final(s)@ == old(s)@ + ascii_chars(decimal_bytes(n as nat)),
{
    let digits = decimal_digits(n);
    push_ascii(s, digits.as_slice());
}

/// Index of the first `b` in `bytes[lo..hi]`, or `hi`.
pub fn find_byte(bytes: &[u8], lo: usize, hi: usize, b: u8) -> (r: usize)
    requires
        lo <= hi <= bytes@.len(),
    ensures
        lo <= r <= hi,
        r - lo == find_first(bytes@.subrange(lo as int, hi as int), b),
{
    let mut i = lo;
    while i < hi && bytes[i] != b
        invariant
            lo <= i <= hi <= bytes@.len(),
            forall|j: int| lo <= j < i ==> bytes@[j] != b,
        decreases hi - i,
    {
        i += 1;
    }
    let ghost s = bytes@.subrange(lo as int, hi as int);
    proof {
        assert forall|j: int| 0 <= j < i - lo implies s[j] != b by {
            assert(s[j] == bytes@[lo + j]);
        }
        if i < hi {
            assert(s[i - lo] == bytes@[i as int]);
        }
        lemma_find_first_at(s, b, i - lo);
    }
    i
}

/// `bytes[lo..hi]` equals `word`.
pub fn range_is(bytes: &[u8], lo: usize, hi: usize, word: &[u8]) -> (r: bool)
    requires
        lo <= hi <= bytes@.len(),
    ensures
        r == (bytes@.subrange(lo as int, hi as int) == word@),
{
    if hi - lo != word.len() {
        return false;
    }
    let mut i: usize = 0;
    while i < word.len()
        invariant
            0 <= i <= word.len(),
            hi - lo == word.len(),
            lo <= hi <= bytes@.len(),
            forall|j: int| 0 <= j < i ==> bytes@[lo + j] == word@[j],
        decreases word.len() - i,
    {
        if bytes[lo + i] != word[i] {
            assert(bytes@.subrange(lo as int, hi as int)[i as int] != word@[i as int]);
            return false;
        }
        i += 1;
    }
    assert(bytes@.subrange(lo as int, hi as int) =~= word@);
    true
}

/// Value of the decimal digits `bytes[lo..hi]` when it is at most `max`.
fn digits_value_capped(bytes: &[u8], lo: usize, hi: usize, max: u64) -> (r: Option<u64>)
    requires
        lo <= hi <= bytes@.len(),
        max <= u32::MAX,
    ensures
        r == (if all_digits(bytes@.subrange(lo as int, hi as int)) && digits_value(
            bytes@.subrange(lo as int, hi as int),
        ) <= max {
            Some(digits_value(bytes@.subrange(lo as int, hi as int)) as u64)
        } else {
            None
        }),
        r matches Some(v) ==> v <= max && v == digits_value(bytes@.subrange(lo as int, hi as int)),
{
    let mut acc: u64 = 0;
    let mut i = lo;
    assert(bytes@.subrange(lo as int, lo as int) =~= Seq::<u8>::empty());
    while i < hi
        invariant
            lo <= i <= hi <= bytes@.len(),
            max <= u32::MAX,
            all_digits(bytes@.subrange(lo as int, i as int)),
            acc == digits_value(bytes@.subrange(lo as int, i as int)),
            acc <= max,
        decreases hi - i,
    {
        let ghost pre = bytes@.subrange(lo as int, i as int);
        let ghost next = bytes@.subrange(lo as int, i + 1);
        assert(next.drop_last() =~= pre);
        let c = bytes[i];
        if c < 48 || c > 57 {
            proof {
                let whole = bytes@.subrange(lo as int, hi as int);
                assert(whole[i - lo] == c);
            }
            return None;
        }
        let v = acc * 10 + (c - 48) as u64;
        if v > max {
            proof {
                let whole = bytes@.subrange(lo as int, hi as int);
                assert(whole.subrange(0, (i + 1 - lo) as int) =~= next);
                if all_digits(whole) {
                    lemma_digits_prefix_monotone(whole, (i + 1 - lo) as int);
                }
            }
            return None;
        }
        acc = v;
        i += 1;
    }
    Some(acc)
}

/// A run of digits is worth at least any of its prefixes.
pub proof fn lemma_digits_prefix_monotone(s: Seq<u8>, k: int)
    requires
        0 <= k <= s.len(),
        all_digits(s),
    ensures
        digits_value(s.subrange(0, k)) <= digits_value(s),
        all_digits(s.subrange(0, k)),
    decreases s.len(),
{
    lemma_digits_value_nonneg(s);
    if k < s.len() {
        assert(s.drop_last().subrange(0, k) =~= s.subrange(0, k));
        lemma_digits_prefix_monotone(s.drop_last(), k);
        lemma_digits_value_nonneg(s.drop_last());
    } else {
        assert(s.subrange(0, k) =~= s);
    }
}

/// A parsed unsigned value lies in `0..=max`.
pub proof fn lemma_parse_unsigned_range(s: Seq<u8>, max: int)
    ensures
        parse_unsigned(s, max) matches Some(v) ==> 0 <= v <= max,
{
    let d = if s.len() > 0 && s[0] == 43 {
        s.drop_first()
    } else {
        s
    };
    if all_digits(d) {
        lemma_digits_value_nonneg(d);
    }
}

/// A parsed signed value lies in `min..=max` when `min <= 0 <= max`.
pub proof fn lemma_parse_signed_range(s: Seq<u8>, min: int, max: int)
    requires
        min <= 0 <= max,
    ensures
        parse_signed(s, min, max) matches Some(v) ==> min <= v <= max,
{
    lemma_parse_unsigned_range(s, max);
    if s.len() > 0 && s[0] == 45 && all_digits(s.drop_first()) {
        lemma_digits_value_nonneg(s.drop_first());
    }
}

pub proof fn lemma_digits_value_nonneg(s: Seq<u8>)
    requires
        all_digits(s),
    ensures
        digits_value(s) >= 0,
    decreases s.len(),
{
    if s.len() > 0 {
        lemma_digits_value_nonneg(s.drop_last());
    }
}

/// `str::parse::<u32>` of `bytes[lo..hi]`.
pub fn parse_u32_range(bytes: &[u8], lo: usize, hi: usize) -> (r: Option<u32>)
    requires
        lo <= hi <= bytes@.len(),
    ensures
        r == (match parse_unsigned(bytes@.subrange(lo as int, hi as int), u32::MAX as int) {
            Some(v) => Some(v as u32),
            None => None,
        }),
        r is Some <==> parse_unsigned(bytes@.subrange(lo as int, hi as int), u32::MAX as int) is Some,
        r matches Some(v) ==> parse_unsigned(bytes@.subrange(lo as int, hi as int), u32::MAX as int)
            == Some(v as int),
{
    proof {
        lemma_parse_unsigned_range(bytes@.subrange(lo as int, hi as int), u32::MAX as int);
    }
    let ghost s = bytes@.subrange(lo as int, hi as int);
    assert(lo < hi ==> s[0] == bytes@[lo as int]);
    let start = if lo < hi && bytes[lo] == 43 {
        lo + 1
    } else {
        lo
    };
    assert(start > lo ==> s.drop_first() =~= bytes@.subrange(start as int, hi as int));
    assert(start == lo ==> s =~= bytes@.subrange(start as int, hi as int));
    if start == hi {
        return None;
    }
    match digits_value_capped(bytes, start, hi, u32::MAX as u64) {
        Some(v) => Some(v as u32),
        None => None,
    }
}

/// `str::parse::<i32>` of `bytes[lo..hi]`.
pub fn parse_i32_range(bytes: &[u8], lo: usize, hi: usize) -> (r: Option<i32>)
    requires
        lo <= hi <= bytes@.len(),
    ensures
        r == (match parse_signed(bytes@.subrange(lo as int, hi as int), i32::MIN as int, i32::MAX as int) {
            Some(v) => Some(v as i32),
            None => None,
        }),
        r is Some <==> parse_signed(bytes@.subrange(lo as int, hi as int), i32::MIN as int, i32::MAX as int) is Some,
        r matches Some(v) ==> parse_signed(bytes@.subrange(lo as int, hi as int), i32::MIN as int, i32::MAX as int)
            == Some(v as int),
{
    proof {
        lemma_parse_signed_range(bytes@.subrange(lo as int, hi as int), i32::MIN as int, i32::MAX as int);
    }
    let ghost s = bytes@.subrange(lo as int, hi as int);
    assert(lo < hi ==> s[0] == bytes@[lo as int]);
    if lo < hi && bytes[lo] == 45 {
        assert(s.drop_first() =~= bytes@.subrange(lo + 1, hi as int));
        if lo + 1 == hi {
            return None;
        }
        match digits_value_capped(bytes, lo + 1, hi, 2147483648u64) {
            Some(v) => {
                assert(v <= 2147483648u64);
                let w: i64 = -(v as i64);
                Some(w as i32)
            },
            None => None,
        }
    } else {
        let ghost d = if s.len() > 0 && s[0] == 43 { s.drop_first() } else { s };
        let start = if lo < hi && bytes[lo] == 43 {
            lo + 1
        } else {
            lo
        };
        assert(d =~= bytes@.subrange(start as int, hi as int));
        if start == hi {
            return None;
        }
        match digits_value_capped(bytes, start, hi, i32::MAX as u64) {
            Some(v) => Some(v as i32),
            None => None,
        }
    }
}

/// Unicode `White_Space`, the characters `char::is_whitespace` accepts.
pub open spec fn is_white_space(c: char) -> bool {
    let n = c as u32;
    ||| 9 <= n <= 13
    ||| n == 32
    ||| n == 0x85
    ||| n == 0xA0
    ||| n == 0x1680
    ||| 0x2000 <= n <= 0x200A
    ||| n == 0x2028
    ||| n == 0x2029
    ||| n == 0x202F
    ||| n == 0x205F
    ||| n == 0x3000
}

/// `s` without its leading white space.
pub open spec fn trim_start_spec(s: Seq<char>) -> Seq<char>
    decreases s.len(),
{
    if s.len() > 0 && is_white_space(s[0]) {
        trim_start_spec(s.drop_first())
    } else {
        s
    }
}

/// `s` without its trailing white space.
pub open spec fn trim_end_spec(s: Seq<char>) -> Seq<char>
    decreases s.len(),
{
    if s.len() > 0 && is_white_space(s.last()) {
        trim_end_spec(s.drop_last())
    } else {
        s
    }
}

/// `s` without leading and trailing white space.
pub open spec fn trimmed(s: Seq<char>) -> Seq<char> {
    trim_end_spec(trim_start_spec(s))
}

/// `str::trim`: the slice without leading and trailing `White_Space`
/// characters, as its documentation states.
#[verifier::external_body]
pub(crate) fn trim_str(s: &str) -> (r: &str)
    ensures
        r@ == trimmed(s@),
{
    s.trim()
}

/// Whether two strings hold the same characters.
pub fn same_chars(a: &str, b: &str) -> (r: bool)
    ensures
        r == (a@ == b@),
{
    let n = a.unicode_len();
    if n != b.unicode_len() {
        return false;
    }
    let mut i: usize = 0;
    while i < n
        invariant
            n == a@.len(),
            n == b@.len(),
            0 <= i <= n,
            forall|k: int| 0 <= k < i ==> a@[k] == b@[k],
        decreases n - i,
    {
        if a.get_char(i) != b.get_char(i) {
            return false;
        }
        i = i + 1;
    }
    assert(a@ =~= b@);
    true
}

/// `needle` occurs in `hay`.
pub open spec fn occurs_in(needle: Seq<char>, hay: Seq<char>) -> bool {
    exists|i: int| 0 <= i && i + needle.len() <= hay.len() && #[trigger] hay.subrange(i, i + needle.len()) == needle
}

/// `str::contains` with a string pattern: whether `needle` occurs in `hay`.
pub fn contains_text(hay: &str, needle: &str) -> (r: bool)
    ensures
        r == occurs_in(needle@, hay@),
{
    let n = hay.unicode_len();
    let m = needle.unicode_len();
    if m > n {
        assert forall|i: int| 0 <= i && i + m <= n implies #[trigger] hay@.subrange(i, i + m) != needle@ by {}
        return false;
    }
    let mut i: usize = 0;
    while i <= n - m
        invariant
            n == hay@.len(),
            m == needle@.len(),
            m <= n,
            0 <= i <= n - m + 1,
            forall|k: int| 0 <= k < i ==> #[trigger] hay@.subrange(k, k + m) != needle@,
        decreases n - i,
    {
        let mut j: usize = 0;
        let mut same = true;
        while j < m && same
            invariant
                n == hay@.len(),
                m == needle@.len(),
                i + m <= n,
                0 <= j <= m,
                same == forall|t: int| 0 <= t < j ==> hay@[i + t] == needle@[t],
            decreases m - j,
        {
            if hay.get_char(i + j) != needle.get_char(j) {
                same = false;
            }
            j = j + 1;
        }
        if same {
            assert(hay@.subrange(i as int, i + m) =~= needle@);
            return true;
        }
        assert(hay@.subrange(i as int, i + m) != needle@) by {
            let t = choose|t: int| 0 <= t < j && hay@[i + t] != needle@[t];
            assert(hay@.subrange(i as int, i + m)[t] == hay@[i + t]);
        }
        i = i + 1;
    }
    false
}

/// The code of a character's ASCII lower case (others unchanged).
pub open spec fn ascii_lower(c: char) -> u32 {
    if 'A' <= c && c <= 'Z' {
        (c as u32 + 32) as u32
    } else {
        c as u32
    }
}

/// `str::eq_ignore_ascii_case`: the same characters up to ASCII case.
pub open spec fn same_ignoring_ascii_case(a: Seq<char>, b: Seq<char>) -> bool {
    a.len() == b.len() && forall|i: int| 0 <= i < a.len() ==> ascii_lower(#[trigger] a[i]) == ascii_lower(b[i])
}

fn lower_char(c: char) -> (r: u32)
    ensures
        r == ascii_lower(c),
{
    if 'A' <= c && c <= 'Z' {
        c as u32 + 32
    } else {
        c as u32
    }
}

/// Whether two strings are equal up to ASCII case.
pub fn eq_ignore_ascii_case(a: &str, b: &str) -> (r: bool)
    ensures
        r == same_ignoring_ascii_case(a@, b@),
{
    let n = a.unicode_len();
    if n != b.unicode_len() {
        return false;
    }
    let mut i: usize = 0;
    while i < n
        invariant
            n == a@.len(),
            n == b@.len(),
            0 <= i <= n,
            forall|k: int| 0 <= k < i ==> ascii_lower(#[trigger] a@[k]) == ascii_lower(b@[k]),
        decreases n - i,
    {
        if lower_char(a.get_char(i)) != lower_char(b.get_char(i)) {
            return false;
        }
        i = i + 1;
    }
    true
}

/// Whether every character of `s` is ASCII.
pub open spec fn all_ascii_chars(s: Seq<char>) -> bool {
    forall|i: int| 0 <= i < s.len() ==> (#[trigger] s[i] as u32) < 128
}

/// The bytes of an ASCII text.
pub open spec fn ascii_bytes_of(s: Seq<char>) -> Seq<u8> {
    Seq::new(s.len(), |i: int| (s[i] as u32) as u8)
}

/// `str::parse::<i32>` of a text: an optional sign and decimal digits. A
/// text with a character outside ASCII has a byte that is no digit or
/// sign, so it is refused.
pub open spec fn parse_i32_text(s: Seq<char>) -> Option<int> {
    if all_ascii_chars(s) {
        parse_signed(ascii_bytes_of(s), i32::MIN as int, i32::MAX as int)
    } else {
        None
    }
}

/// `str::parse::<i32>`.
pub fn parse_i32_str(s: &str) -> (r: Option<i32>)
    ensures
        r is Some <==> parse_i32_text(s@) is Some,
        r matches Some(v) ==> parse_i32_text(s@) == Some(v as int),
{
    let n = s.unicode_len();
    let mut bytes: Vec<u8> = Vec::new();
    let mut i: usize = 0;
    while i < n
        invariant
            n == s@.len(),
            0 <= i <= n,
            bytes@.len() == i,
            forall|k: int| 0 <= k < i ==> (#[trigger] s@[k] as u32) < 128,
            forall|k: int| 0 <= k < i ==> #[trigger] bytes@[k] == (s@[k] as u32) as u8,
        decreases n - i,
    {
        let code = s.get_char(i) as u32;
        if code >= 128 {
            assert(!all_ascii_chars(s@));
            return None;
        }
        bytes.push(code as u8);
        i = i + 1;
    }
    assert(all_ascii_chars(s@));
    assert(bytes@ =~= ascii_bytes_of(s@));
    assert(bytes@.subrange(0, n as int) =~= bytes@);
    parse_i32_range(bytes.as_slice(), 0, n)
}

} // verus!
