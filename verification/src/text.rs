//! Text helpers: ASCII case folding, prefixes and suffixes, trimming, decimal
//! numerals.

use vstd::prelude::*;
use vstd::string::*;

verus! {

/// The character with an ASCII capital letter replaced by its small letter.
pub open spec fn ascii_lower(c: char) -> char {
    if 'A' <= c && c <= 'Z' {
        (c as u8 + 32) as char
    } else {
        c
    }
}

/// A text with every ASCII capital letter replaced by its small letter.
pub open spec fn lower(s: Seq<char>) -> Seq<char> {
    s.map_values(|c: char| ascii_lower(c))
}

/// Whether `word` stands in `s` at position `i`.
pub open spec fn occurs_at(s: Seq<char>, word: Seq<char>, i: int) -> bool {
    0 <= i && i + word.len() <= s.len() && s.subrange(i, i + word.len()) == word
}

/// How many characters of a text stand before the first `c`, or in all where it
/// holds none.
pub open spec fn len_before(s: Seq<char>, c: char) -> nat
    decreases s.len(),
{
    if s.len() == 0 || s[0] == c {
        0
    } else {
        1 + len_before(s.drop_first(), c)
    }
}

/// The part of a text that stands before the first `c`, or all of it where it
/// holds none.
pub open spec fn before(s: Seq<char>, c: char) -> Seq<char> {
    s.take(len_before(s, c) as int)
}

/// Whether a character is a space or a tab.
pub open spec fn is_blank(c: char) -> bool {
    c == ' ' || c == '\t'
}

/// A text without the spaces and tabs that it begins with.
pub open spec fn trim_start(s: Seq<char>) -> Seq<char>
    decreases s.len(),
{
    if s.len() > 0 && is_blank(s[0]) {
        trim_start(s.drop_first())
    } else {
        s
    }
}

/// A text without the spaces and tabs that it ends with.
pub open spec fn trim_end(s: Seq<char>) -> Seq<char>
    decreases s.len(),
{
    if s.len() > 0 && is_blank(s.last()) {
        trim_end(s.drop_last())
    } else {
        s
    }
}

/// A text without the spaces and tabs around it.
pub open spec fn trim(s: Seq<char>) -> Seq<char> {
    trim_end(trim_start(s))
}

/// The decimal digit `d` as a character.
pub open spec fn digit(d: nat) -> char {
    (48 + d) as char
}

/// The decimal numeral of `n`, without leading zeros.
pub open spec fn decimal(n: nat) -> Seq<char>
    decreases n,
{
    if n < 10 {
        seq![digit(n)]
    } else {
        decimal(n / 10).push(digit(n % 10))
    }
}

/// Folding replaces the letters `A` to `Z`, each by the letter that stands 32
/// code points behind it, and leaves every other character where it is.
pub proof fn law_folding_moves_capital_letters_only(s: Seq<char>)
    ensures
        lower(s).len() == s.len(),
        forall|i: int|
            #![trigger lower(s)[i]]
            0 <= i < s.len() ==> if 65 <= s[i] as int <= 90 {
                lower(s)[i] as int == s[i] as int + 32
            } else {
                lower(s)[i] == s[i]
            },
{
}

/// What stands before the first `c` is the part of the text up to a place where
/// `c` stands, or up to its end, and holds no `c` itself.
pub proof fn law_cut_is_at_the_first(s: Seq<char>, c: char)
    ensures
        before(s, c).is_prefix_of(s),
        forall|i: int| 0 <= i < before(s, c).len() ==> before(s, c)[i] != c,
        before(s, c).len() < s.len() ==> s[before(s, c).len() as int] == c,
{
    lemma_len_before_is_first(s, c);
    assert(before(s, c) =~= s.subrange(0, before(s, c).len() as int));
}

proof fn lemma_len_before_is_first(s: Seq<char>, c: char)
    ensures
        len_before(s, c) <= s.len(),
        forall|i: int| 0 <= i < len_before(s, c) ==> s[i] != c,
        len_before(s, c) < s.len() ==> s[len_before(s, c) as int] == c,
    decreases s.len(),
{
    if s.len() > 0 && s[0] != c {
        let tail = s.drop_first();
        lemma_len_before_is_first(tail, c);
        assert forall|i: int| 0 <= i < len_before(s, c) implies s[i] != c by {
            if i > 0 {
                assert(s[i] == tail[i - 1]);
            }
        }
    }
}

/// A text is cut where the first `c` stands, wherever that is.
pub proof fn law_cut_is_unique(s: Seq<char>, c: char, n: int)
    requires
        0 <= n <= s.len(),
        forall|i: int| 0 <= i < n ==> s[i] != c,
        n < s.len() ==> s[n] == c,
    ensures
        before(s, c) == s.take(n),
{
    lemma_len_before_is_first(s, c);
}

/// Trimming takes away spaces and tabs at both ends, all of them, and nothing
/// else.
pub proof fn law_trimming_takes_outer_blanks(s: Seq<char>)
    ensures
        exists|a: int, b: int|
            #![trigger s.subrange(a, b)]
            {
                &&& 0 <= a <= b <= s.len()
                &&& trim(s) == s.subrange(a, b)
                &&& forall|i: int| 0 <= i < a ==> s[i] == ' ' || s[i] == '\t'
                &&& forall|i: int| b <= i < s.len() ==> s[i] == ' ' || s[i] == '\t'
                &&& a < b ==> s[a] != ' ' && s[a] != '\t' && s[b - 1] != ' ' && s[b - 1] != '\t'
            },
{
    let a = lemma_trim_start(s);
    let rest = s.skip(a);
    let n = lemma_trim_end(rest);
    let b = a + n;
    assert(s.subrange(a, b) =~= rest.take(n));
    assert forall|i: int| b <= i < s.len() implies s[i] == ' ' || s[i] == '\t' by {
        assert(s[i] == rest[i - a]);
    }
    if a < b {
        assert(s[a] == rest[0]);
        assert(s[b - 1] == rest[n - 1]);
    }
}

/// A text between blanks, with no blank at its own ends, is what trimming leaves.
pub proof fn law_trimming_is_unique(s: Seq<char>, a: int, b: int)
    requires
        0 <= a < b <= s.len(),
        forall|i: int| 0 <= i < a ==> s[i] == ' ' || s[i] == '\t',
        forall|i: int| b <= i < s.len() ==> s[i] == ' ' || s[i] == '\t',
        s[a] != ' ' && s[a] != '\t' && s[b - 1] != ' ' && s[b - 1] != '\t',
    ensures
        trim(s) == s.subrange(a, b),
{
    let x = lemma_trim_start(s);
    assert(x == a) by {
        if x < a {
            assert(s[x] == s.skip(x)[0]);
        }
    }
    let rest = s.skip(a);
    let n = lemma_trim_end(rest);
    assert(rest[b - a - 1] == s[b - 1]);
    assert(n == b - a) by {
        if n > b - a {
            assert(rest[n - 1] == s[a + n - 1]);
        }
    }
    assert(s.subrange(a, b) =~= rest.take(n));
}

proof fn lemma_trim_start(s: Seq<char>) -> (a: int)
    ensures
        0 <= a <= s.len(),
        trim_start(s) == s.skip(a),
        forall|i: int| 0 <= i < a ==> is_blank(s[i]),
        a < s.len() ==> !is_blank(s[a]),
    decreases s.len(),
{
    if s.len() > 0 && is_blank(s[0]) {
        let tail = s.drop_first();
        let n = lemma_trim_start(tail);
        assert(tail.skip(n) =~= s.skip(n + 1));
        assert forall|i: int| 0 <= i < n + 1 implies is_blank(s[i]) by {
            if i > 0 {
                assert(s[i] == tail[i - 1]);
            }
        }
        n + 1
    } else {
        assert(s.skip(0) =~= s);
        0
    }
}

proof fn lemma_trim_end(s: Seq<char>) -> (n: int)
    ensures
        0 <= n <= s.len(),
        trim_end(s) == s.take(n),
        forall|i: int| n <= i < s.len() ==> is_blank(s[i]),
        n > 0 ==> !is_blank(s[n - 1]),
    decreases s.len(),
{
    if s.len() > 0 && is_blank(s.last()) {
        let head = s.drop_last();
        let n = lemma_trim_end(head);
        assert(head.take(n) =~= s.take(n));
        assert forall|i: int| n <= i < s.len() implies is_blank(s[i]) by {
            if i < s.len() - 1 {
                assert(s[i] == head[i]);
            }
        }
        n
    } else {
        assert(s.take(s.len() as int) =~= s);
        s.len() as int
    }
}

/// The number that a text of decimal digits stands for.
pub open spec fn value_of(s: Seq<char>) -> int
    decreases s.len(),
{
    if s.len() == 0 {
        0
    } else {
        10 * value_of(s.drop_last()) + (s.last() as int - 48)
    }
}

/// A decimal numeral holds nothing but the digits `0` to `9`, does not begin with
/// a `0` unless it is that alone, and stands for its number.
pub proof fn law_numeral_stands_for_its_number(n: nat)
    ensures
        value_of(decimal(n)) == n,
        decimal(n).len() > 0,
        forall|i: int| 0 <= i < decimal(n).len() ==> '0' <= #[trigger] decimal(n)[i] <= '9',
        n > 0 ==> decimal(n)[0] != '0',
        decimal(0) == seq!['0'],
    decreases n,
{
    reveal_with_fuel(value_of, 2);
    if n < 10 {
        assert(decimal(n).drop_last() =~= Seq::<char>::empty());
    } else {
        law_numeral_stands_for_its_number(n / 10);
        assert(decimal(n).drop_last() =~= decimal(n / 10));
    }
}

/// The digits of a numeral of up to five are those of its number, the highest
/// first.
pub proof fn law_digits_of_a_numeral(n: nat)
    ensures
        n < 10 ==> decimal(n) == seq![(48 + n) as char],
        10 <= n < 100 ==> decimal(n) == seq![(48 + n / 10) as char, (48 + n % 10) as char],
        100 <= n < 1000 ==> decimal(n) == seq![
            (48 + n / 100) as char,
            (48 + n / 10 % 10) as char,
            (48 + n % 10) as char,
        ],
        1000 <= n < 10000 ==> decimal(n) == seq![
            (48 + n / 1000) as char,
            (48 + n / 100 % 10) as char,
            (48 + n / 10 % 10) as char,
            (48 + n % 10) as char,
        ],
        10000 <= n < 100000 ==> decimal(n) == seq![
            (48 + n / 10000) as char,
            (48 + n / 1000 % 10) as char,
            (48 + n / 100 % 10) as char,
            (48 + n / 10 % 10) as char,
            (48 + n % 10) as char,
        ],
    decreases n,
{
    if n >= 10 {
        law_digits_of_a_numeral(n / 10);
    }
}

/// All of a text stands before a character that it does not hold.
pub proof fn law_all_stands_before_a_missing_character(s: Seq<char>, c: char)
    requires
        forall|i: int| 0 <= i < s.len() ==> s[i] != c,
    ensures
        before(s, c) == s,
{
    lemma_len_before_missing(s, c);
    assert(s.take(s.len() as int) =~= s);
}

proof fn lemma_len_before_missing(s: Seq<char>, c: char)
    requires
        forall|i: int| 0 <= i < s.len() ==> s[i] != c,
    ensures
        len_before(s, c) == s.len(),
    decreases s.len(),
{
    if s.len() > 0 {
        assert forall|i: int| 0 <= i < s.len() - 1 implies s.drop_first()[i] != c by {
            assert(s.drop_first()[i] == s[i + 1]);
        }
        lemma_len_before_missing(s.drop_first(), c);
    }
}

/// What follows a character has no part in what stands before its first
/// occurrence.
pub proof fn law_what_follows_does_not_matter(s: Seq<char>, c: char, rest: Seq<char>)
    requires
        rest.len() > 0 && rest[0] == c,
    ensures
        before(s + rest, c) == before(s, c),
{
    lemma_len_before_ends_at_rest(s, c, rest);
    assert(before(s + rest, c) =~= before(s, c));
}

proof fn lemma_len_before_ends_at_rest(s: Seq<char>, c: char, rest: Seq<char>)
    requires
        rest.len() > 0 && rest[0] == c,
    ensures
        len_before(s + rest, c) == len_before(s, c) <= s.len(),
    decreases s.len(),
{
    if s.len() == 0 {
        assert(s + rest =~= rest);
    } else {
        assert((s + rest)[0] == s[0]);
        assert((s + rest).drop_first() =~= s.drop_first() + rest);
        lemma_len_before_ends_at_rest(s.drop_first(), c, rest);
    }
}

/// The small letter of an ASCII capital letter; any other character as it is.
pub fn to_ascii_lower(c: char) -> (r: char)
    ensures
        r == ascii_lower(c),
        r as int == if 65 <= c as int <= 90 {
            c as int + 32
        } else {
            c as int
        },
{
    if 'A' <= c && c <= 'Z' {
        (c as u8 + 32) as char
    } else {
        c
    }
}

/// The characters of a text in a vector.
pub fn chars_of(s: &str) -> (r: Vec<char>)
    ensures
        r@ == s@,
{
    let mut r: Vec<char> = Vec::new();
    for c in it: s.chars()
        invariant
            it.seq() == s@,
            r@ == s@.take(it.index() as int),
    {
        r.push(c);
    }
    r
}

/// Whether the part of `s` from `i` on begins with `word`.
fn stands_at(s: &Vec<char>, word: &Vec<char>, i: usize) -> (r: bool)
    requires
        i + word@.len() <= s@.len(),
    ensures
        r == occurs_at(s@, word@, i as int),
{
    let n = s.len();
    for k in 0..word.len()
        invariant
            n == s@.len(),
            i + word@.len() <= n,
            forall|j: int| 0 <= j < k ==> s@[i + j] == #[trigger] word@[j],
    {
        if s[i + k] != word[k] {
            assert(s@.subrange(i as int, i + word@.len())[k as int] != word@[k as int]);
            return false;
        }
    }
    assert(s@.subrange(i as int, i + word@.len()) =~= word@);
    true
}

/// Whether `s` begins with `word`.
pub fn begins_with(s: &Vec<char>, word: &str) -> (r: bool)
    ensures
        r == word@.is_prefix_of(s@),
{
    let w = chars_of(word);
    w.len() <= s.len() && stands_at(s, &w, 0)
}

/// Whether `s` ends with `word`.
pub fn finishes_with(s: &Vec<char>, word: &str) -> (r: bool)
    ensures
        r == word@.is_suffix_of(s@),
{
    let w = chars_of(word);
    w.len() <= s.len() && stands_at(s, &w, s.len() - w.len())
}

/// Whether `s` is `word`.
pub fn same_text(s: &Vec<char>, word: &str) -> (r: bool)
    ensures
        r == (s@ == word@),
{
    let w = chars_of(word);
    if w.len() != s.len() {
        return false;
    }
    assert(s@.subrange(0, s@.len() as int) =~= s@);
    stands_at(s, &w, 0)
}

/// The part of a text that stands before the first `c`, or all of it where it
/// holds none.
pub fn part_before(s: &Vec<char>, c: char) -> (r: Vec<char>)
    ensures
        r@ == before(s@, c),
{
    let mut r: Vec<char> = Vec::new();
    let mut i: usize = 0;
    assert(s@.skip(0) =~= s@);
    while i < s.len() && s[i] != c
        invariant
            i <= s@.len(),
            len_before(s@, c) == i + len_before(s@.skip(i as int), c),
            r@ == s@.take(i as int),
        decreases s@.len() - i,
    {
        assert(s@.skip(i as int).drop_first() =~= s@.skip(i + 1));
        r.push(s[i]);
        i += 1;
        assert(r@ =~= s@.take(i as int));
    }
    r
}

/// A text without the spaces and tabs around it.
pub fn trimmed(s: &Vec<char>) -> (r: Vec<char>)
    ensures
        r@ == trim(s@),
{
    let mut from: usize = 0;
    assert(s@.skip(0) =~= s@);
    while from < s.len() && (s[from] == ' ' || s[from] == '\t')
        invariant
            from <= s@.len(),
            trim_start(s@.skip(from as int)) == trim_start(s@),
        decreases s@.len() - from,
    {
        assert(s@.skip(from as int).drop_first() =~= s@.skip(from + 1));
        from += 1;
    }
    assert(trim_start(s@) == s@.skip(from as int));
    let mut to: usize = s.len();
    assert(s@.subrange(from as int, to as int) =~= s@.skip(from as int));
    while from < to && (s[to - 1] == ' ' || s[to - 1] == '\t')
        invariant
            from <= to <= s@.len(),
            trim_end(s@.subrange(from as int, to as int)) == trim(s@),
        decreases to,
    {
        assert(s@.subrange(from as int, to as int).drop_last() =~= s@.subrange(
            from as int,
            to - 1,
        ));
        to -= 1;
    }
    let mut r: Vec<char> = Vec::new();
    for i in from..to
        invariant
            from <= to <= s@.len(),
            r@ == s@.subrange(from as int, i as int),
    {
        r.push(s[i]);
        assert(r@ =~= s@.subrange(from as int, i + 1));
    }
    r
}

/// The first `n` characters of a text, or all of it where it is shorter.
pub fn leading(s: &str, n: usize) -> (r: String)
    ensures
        r@ == if s@.len() <= n {
            s@
        } else {
            s@.take(n as int)
        },
{
    if s.unicode_len() <= n {
        s.to_owned()
    } else {
        s.substring_char(0, n).to_owned()
    }
}

/// Two texts joined.
pub fn join(a: &str, b: &str) -> (r: String)
    ensures
        r@ == a@ + b@,
{
    let mut r = a.to_owned();
    r.append(b);
    r
}

/// The numeral of a single decimal digit.
fn digit_text(d: u16) -> (r: &'static str)
    requires
        d < 10,
    ensures
        r@ == seq![digit(d as nat)],
{
    proof {
        reveal_strlit("0");
        reveal_strlit("1");
        reveal_strlit("2");
        reveal_strlit("3");
        reveal_strlit("4");
        reveal_strlit("5");
        reveal_strlit("6");
        reveal_strlit("7");
        reveal_strlit("8");
        reveal_strlit("9");
    }
    let r = match d {
        0 => "0",
        1 => "1",
        2 => "2",
        3 => "3",
        4 => "4",
        5 => "5",
        6 => "6",
        7 => "7",
        8 => "8",
        _ => "9",
    };
    assert(r@ =~= seq![digit(d as nat)]);
    r
}

/// The decimal numeral of a number.
pub fn numeral(n: u16) -> (r: String)
    ensures
        r@ == decimal(n as nat),
    decreases n,
{
    if n < 10 {
        digit_text(n).to_owned()
    } else {
        let mut r = numeral(n / 10);
        r.append(digit_text(n % 10));
        assert(r@ =~= decimal(n as nat));
        r
    }
}

} // verus!
