//! Character-level models of the string operations the library relies on:
//! whitespace trimming, decimal integer parsing and searching for a
//! character.

use vstd::prelude::*;

verus! {

/// The Unicode `White_Space` code points, which is the set that
/// `char::is_whitespace` (and so `str::trim`) recognises.
pub open spec fn is_white_space(c: char) -> bool {
    let n = c as int;
    ||| 0x09 <= n <= 0x0d
    ||| n == 0x20
    ||| n == 0x85
    ||| n == 0xa0
    ||| n == 0x1680
    ||| 0x2000 <= n <= 0x200a
    ||| n == 0x2028
    ||| n == 0x2029
    ||| n == 0x202f
    ||| n == 0x205f
    ||| n == 0x3000
}

/// `s` without its leading whitespace.
pub open spec fn trim_start(s: Seq<char>) -> Seq<char>
    decreases s.len(),
{
    if s.len() > 0 && is_white_space(s[0]) {
        trim_start(s.drop_first())
    } else {
        s
    }
}

/// `s` without its trailing whitespace.
pub open spec fn trim_end(s: Seq<char>) -> Seq<char>
    decreases s.len(),
{
    if s.len() > 0 && is_white_space(s.last()) {
        trim_end(s.drop_last())
    } else {
        s
    }
}

/// `s` without leading and trailing whitespace.
pub open spec fn trimmed(s: Seq<char>) -> Seq<char> {
    trim_end(trim_start(s))
}

/// `s` is empty or starts and ends with a character that is not whitespace.
pub open spec fn is_trimmed(s: Seq<char>) -> bool {
    s.len() > 0 ==> !is_white_space(s[0]) && !is_white_space(s.last())
}

/// Every character of `s` is whitespace.
pub open spec fn is_blank(s: Seq<char>) -> bool {
    forall|i: int| 0 <= i < s.len() ==> #[trigger] is_white_space(s[i])
}

/// Dropping leading whitespace keeps a suffix that starts with a
/// non-whitespace character, and empties exactly the blank texts.
pub proof fn lemma_trim_start(s: Seq<char>)
    ensures
        s.len() > 0 ==> trim_start(s).len() > 0 ==> !is_white_space(trim_start(s)[0]),
        trim_start(s).len() <= s.len(),
        trim_start(s) =~= s.subrange(s.len() - trim_start(s).len(), s.len() as int),
        trim_start(s).len() == 0 <==> is_blank(s),
    decreases s.len(),
{
    if s.len() > 0 && is_white_space(s[0]) {
        lemma_trim_start(s.drop_first());
        if is_blank(s.drop_first()) {
            assert forall|i: int| 0 <= i < s.len() implies #[trigger] is_white_space(s[i]) by {
                if i > 0 {
                    assert(s[i] == s.drop_first()[i - 1]);
                }
            }
        }
        if is_blank(s) {
            assert forall|i: int| 0 <= i < s.drop_first().len() implies #[trigger] is_white_space(
                s.drop_first()[i],
            ) by {
                assert(s.drop_first()[i] == s[i + 1]);
            }
        }
    } else if s.len() > 0 {
        assert(!is_white_space(s[0]));
    }
}

/// Dropping trailing whitespace keeps a prefix that ends with a
/// non-whitespace character, and empties exactly the blank texts.
pub proof fn lemma_trim_end(s: Seq<char>)
    ensures
        trim_end(s).len() > 0 ==> !is_white_space(trim_end(s).last()),
        trim_end(s).len() <= s.len(),
        trim_end(s) =~= s.subrange(0, trim_end(s).len() as int),
        trim_end(s).len() == 0 <==> is_blank(s),
        s.len() > 0 && !is_white_space(s[0]) ==> trim_end(s).len() > 0 && trim_end(s)[0] == s[0],
    decreases s.len(),
{
    if s.len() > 0 && is_white_space(s.last()) {
        lemma_trim_end(s.drop_last());
        if is_blank(s.drop_last()) {
            assert forall|i: int| 0 <= i < s.len() implies #[trigger] is_white_space(s[i]) by {
                if i < s.len() - 1 {
                    assert(s[i] == s.drop_last()[i]);
                }
            }
        }
        if is_blank(s) {
            assert forall|i: int| 0 <= i < s.drop_last().len() implies #[trigger] is_white_space(
                s.drop_last()[i],
            ) by {
                assert(s.drop_last()[i] == s[i]);
            }
        }
    } else if s.len() > 0 {
        assert(!is_white_space(s.last()));
    }
}

/// Trimming leaves no whitespace at either end, is empty exactly for blank
/// strings, and is a no-op on a string that is already trimmed.
pub proof fn lemma_trimmed(s: Seq<char>)
    ensures
        is_trimmed(trimmed(s)),
        trimmed(s).len() == 0 <==> is_blank(s),
        is_trimmed(s) ==> trimmed(s) == s,
{
    lemma_trim_start(s);
    lemma_trim_end(trim_start(s));
    if is_trimmed(s) && s.len() > 0 {
        assert(trim_start(s) == s);
        assert(trim_end(s) == s);
    }
    if is_blank(trim_start(s)) && trim_start(s).len() > 0 {
        assert(is_white_space(trim_start(s)[0]));
    }
}

/// `str::trim`: std documents it as the slice without leading and trailing
/// whitespace, whitespace being the Unicode `White_Space` property.
#[verifier::external_body]
pub(crate) fn trim_white_space(s: &str) -> (res: &str)
    ensures
        res@ == trimmed(s@),
{
    s.trim()
}

pub open spec fn is_ascii_digit(c: char) -> bool {
    '0' <= c <= '9'
}

pub open spec fn all_ascii_digits(s: Seq<char>) -> bool {
    forall|i: int| 0 <= i < s.len() ==> #[trigger] is_ascii_digit(s[i])
}

/// The number written by the decimal digits `s`.
pub open spec fn decimal_value(s: Seq<char>) -> int
    decreases s.len(),
{
    if s.len() == 0 {
        0
    } else {
        decimal_value(s.drop_last()) * 10 + (s.last() as int - '0' as int)
    }
}

/// `s` read as an optional `+` or `-` followed by one or more decimal digits.
pub open spec fn signed_decimal(s: Seq<char>) -> Option<int> {
    if s.len() > 0 && (s[0] == '+' || s[0] == '-') {
        let digits = s.drop_first();
        if digits.len() > 0 && all_ascii_digits(digits) {
            if s[0] == '-' {
                Some(-decimal_value(digits))
            } else {
                Some(decimal_value(digits))
            }
        } else {
            None
        }
    } else if s.len() > 0 && all_ascii_digits(s) {
        Some(decimal_value(s))
    } else {
        None
    }
}

/// `s` read as an optional `+` followed by one or more decimal digits.
pub open spec fn unsigned_decimal(s: Seq<char>) -> Option<int> {
    if s.len() > 0 && s[0] == '-' {
        None
    } else {
        signed_decimal(s)
    }
}

/// What `str::parse::<i32>` gives for `s`: the signed decimal, when it fits.
pub open spec fn parsed_i32(s: Seq<char>) -> Option<i32> {
    match signed_decimal(s) {
        Some(v) => if i32::MIN <= v <= i32::MAX {
            Some(v as i32)
        } else {
            None
        },
        None => None,
    }
}

/// What `str::parse::<u16>` gives for `s`: the unsigned decimal, when it fits.
pub open spec fn parsed_u16(s: Seq<char>) -> Option<u16> {
    match unsigned_decimal(s) {
        Some(v) => if 0 <= v <= u16::MAX {
            Some(v as u16)
        } else {
            None
        },
        None => None,
    }
}

/// `str::parse::<i32>`, the error dropped. std documents the accepted text
/// as an optional `+` or `-` sign followed by only ASCII digits, the value
/// being an error when it does not fit in an `i32`.
#[verifier::external_body]
pub(crate) fn parse_i32(s: &str) -> (res: Option<i32>)
    ensures
        res == parsed_i32(s@),
{
    s.parse::<i32>().ok()
}

/// `str::parse::<u16>`, the error dropped. std documents the accepted text
/// for an unsigned type as an optional `+` sign followed by only ASCII
/// digits, the value being an error when it does not fit in a `u16`.
#[verifier::external_body]
pub(crate) fn parse_u16(s: &str) -> (res: Option<u16>)
    ensures
        res == parsed_u16(s@),
{
    s.parse::<u16>().ok()
}

/// What `str::to_lowercase` returns for the characters `s`: the Unicode
/// lowercase mapping, which takes more than a few lines to state and depends
/// on nothing but `s`.
pub uninterp spec fn lowercase_of(s: Seq<char>) -> Seq<char>;

/// Every character of `s` is ASCII.
pub open spec fn is_ascii_text(s: Seq<char>) -> bool {
    forall|i: int| 0 <= i < s.len() ==> (#[trigger] s[i] as int) < 128
}

/// `c` with an ASCII capital letter turned into its small letter.
pub open spec fn ascii_lower_char(c: char) -> char {
    if 'A' <= c <= 'Z' {
        ((c as int) + 32) as char
    } else {
        c
    }
}

/// `s` with every ASCII capital letter turned into its small letter.
pub open spec fn ascii_lowercase(s: Seq<char>) -> Seq<char> {
    s.map_values(|c: char| ascii_lower_char(c))
}

/// The lowercase of `s` as `str::to_lowercase` gives it: on ASCII text the
/// capital letters made small, on other text the Unicode mapping
/// [`lowercase_of`].
pub open spec fn lowered(s: Seq<char>) -> Seq<char> {
    if is_ascii_text(s) {
        ascii_lowercase(s)
    } else {
        lowercase_of(s)
    }
}

/// `str::to_lowercase`. Its result is named by [`lowercase_of`]; on ASCII
/// text the Unicode mapping turns `A`..`Z` into `a`..`z` and leaves every
/// other character as it is.
#[verifier::external_body]
pub(crate) fn to_lowercase(s: &str) -> (res: String)
    ensures
        res@ == lowercase_of(s@),
        is_ascii_text(s@) ==> res@ == ascii_lowercase(s@),
{
    s.to_lowercase()
}

/// The index of the first `c` in `s`, if there is one.
pub open spec fn first_index_of(s: Seq<char>, c: char) -> Option<int>
    decreases s.len(),
{
    if s.len() == 0 {
        None
    } else if s[0] == c {
        Some(0)
    } else {
        match first_index_of(s.drop_first(), c) {
            Some(i) => Some(i + 1),
            None => None,
        }
    }
}

/// The first index of `c` holds a `c`, and no index before it does.
pub proof fn lemma_first_index_of(s: Seq<char>, c: char)
    ensures
        match first_index_of(s, c) {
            Some(i) => 0 <= i < s.len() && s[i] == c && forall|j: int| 0 <= j < i ==> s[j] != c,
            None => forall|j: int| 0 <= j < s.len() ==> s[j] != c,
        },
    decreases s.len(),
{
    if s.len() > 0 && s[0] != c {
        lemma_first_index_of(s.drop_first(), c);
        match first_index_of(s.drop_first(), c) {
            Some(i) => {
                assert forall|j: int| 0 <= j < i + 1 implies s[j] != c by {
                    if j > 0 {
                        assert(s[j] == s.drop_first()[j - 1]);
                    }
                }
            },
            None => {
                assert forall|j: int| 0 <= j < s.len() implies s[j] != c by {
                    if j > 0 {
                        assert(s[j] == s.drop_first()[j - 1]);
                    }
                }
            },
        }
    }
}

/// A `c` found in `b` after a prefix `a` without one stands at its index
/// in `b` shifted by the length of `a`.
pub proof fn lemma_first_index_of_append(a: Seq<char>, b: Seq<char>, c: char)
    requires
        !a.contains(c),
    ensures
        first_index_of(a + b, c) == match first_index_of(b, c) {
            Some(i) => Some(i + a.len()),
            None => None::<int>,
        },
    decreases a.len(),
{
    if a.len() > 0 {
        assert(a[0] != c);
        assert((a + b).drop_first() =~= a.drop_first() + b);
        if a.drop_first().contains(c) {
            let k = choose|k: int| 0 <= k < a.drop_first().len() && a.drop_first()[k] == c;
            assert(a[k + 1] == c);
        }
        lemma_first_index_of_append(a.drop_first(), b, c);
    } else {
        assert(a + b =~= b);
    }
}

/// A text without `c` has no first `c`.
pub proof fn lemma_first_index_of_absent(s: Seq<char>, c: char)
    requires
        !s.contains(c),
    ensures
        first_index_of(s, c) is None,
{
    lemma_first_index_of(s, c);
    if first_index_of(s, c) is Some {
        let i = first_index_of(s, c).unwrap();
        assert(s[i] == c);
    }
}

/// Finds the first `c` in `s`.
pub fn find_char(s: &str, c: char) -> (res: Option<usize>)
    ensures
        match res {
            Some(i) => i < s@.len() && s@[i as int] == c && forall|j: int| 0 <= j < i ==> s@[j] != c,
            None => forall|j: int| 0 <= j < s@.len() ==> s@[j] != c,
        },
        res matches Some(i) ==> first_index_of(s@, c) == Some(i as int),
        res is None <==> first_index_of(s@, c) is None,
{
    let len = s.unicode_len();
    let mut i: usize = 0;
    while i < len
        invariant
            len == s@.len(),
            i <= len,
            forall|j: int| 0 <= j < i ==> s@[j] != c,
        decreases len - i,
    {
        if s.get_char(i) == c {
            proof {
                lemma_first_index_of(s@, c);
                match first_index_of(s@, c) {
                    Some(k) => {
                        if k < i {
                            assert(s@[k] != c);
                        } else if k > i {
                            assert(s@[i as int] != c);
                        }
                    },
                    None => {
                        assert(s@[i as int] != c);
                    },
                }
            }
            return Some(i);
        }
        i = i + 1;
    }
    proof {
        lemma_first_index_of(s@, c);
        if first_index_of(s@, c) is Some {
            let k = first_index_of(s@, c).unwrap();
            assert(s@[k] != c);
        }
    }
    None
}

/// An optional text by its characters.
pub open spec fn option_text(o: Option<String>) -> Option<Seq<char>> {
    match o {
        Some(s) => Some(s@),
        None => None,
    }
}

/// An optional borrowed text by its characters.
pub open spec fn option_str_text(o: Option<&str>) -> Option<Seq<char>> {
    match o {
        Some(s) => Some(s@),
        None => None,
    }
}

/// Whether `a` and `b` hold the same characters.
pub fn text_equals(a: &str, b: &str) -> (res: bool)
    ensures
        res == (a@ == b@),
{
    let len = a.unicode_len();
    if len != b.unicode_len() {
        return false;
    }
    let mut i: usize = 0;
    while i < len
        invariant
            len == a@.len(),
            len == b@.len(),
            i <= len,
            forall|j: int| 0 <= j < i ==> a@[j] == b@[j],
        decreases len - i,
    {
        if a.get_char(i) != b.get_char(i) {
            return false;
        }
        i = i + 1;
    }
    assert(a@ =~= b@);
    true
}

} // verus!
