//! Numbers written out for the screen: plain decimals, thousands separated
//! with commas, and calendar years.
use vstd::prelude::*;

verus! {

/// The character of the decimal digit `d`.
pub open spec fn digit_char(d: int) -> char {
    if d == 0 {
        '0'
    } else if d == 1 {
        '1'
    } else if d == 2 {
        '2'
    } else if d == 3 {
        '3'
    } else if d == 4 {
        '4'
    } else if d == 5 {
        '5'
    } else if d == 6 {
        '6'
    } else if d == 7 {
        '7'
    } else if d == 8 {
        '8'
    } else {
        '9'
    }
}

/// `n` written in decimal, without leading zeros.
pub open spec fn decimal(n: nat) -> Seq<char>
    decreases n,
{
    if n < 10 {
        seq![digit_char(n as int)]
    } else {
        decimal(n / 10).push(digit_char((n % 10) as int))
    }
}

/// `n` (below a thousand) written with exactly three digits.
pub open spec fn three_digits(n: nat) -> Seq<char> {
    seq![digit_char((n / 100) as int), digit_char((n / 10 % 10) as int), digit_char((n % 10) as int)]
}

/// `n` written in decimal with a comma between each group of three digits,
/// counting from the right: `30000` is `30,000`.
pub open spec fn grouped(n: nat) -> Seq<char>
    decreases n,
{
    if n < 1000 {
        decimal(n)
    } else {
        grouped(n / 1000) + seq![','] + three_digits(n % 1000)
    }
}

/// A year of the calendar: `4000 BC` for year -4000, `50 AD` for year 50.
/// There is no year zero; it is shown as `1 AD`.
pub open spec fn year_text(year: int) -> Seq<char> {
    if year < 0 {
        decimal((-year) as nat) + " BC"@
    } else if year == 0 {
        "1 AD"@
    } else {
        decimal(year as nat) + " AD"@
    }
}

/// The one-character string of the decimal digit `d`.
fn digit_str(d: u64) -> (digit: &'static str)
    requires
        d < 10,
    ensures
        digit@ == seq![digit_char(d as int)],
{
    proof {
        reveal_strlit("0");
        reveal_strlit("1");
        reveal_strlit("2");
        reveal_strlit("3");
        reveal_strlit("4");
        reveal_strlit("5");
        reveal_strlit("6");
        reveal_strlit("7");
        reveal_strlit("8");
        reveal_strlit("9");
    }
    if d == 0 {
        "0"
    } else if d == 1 {
        "1"
    } else if d == 2 {
        "2"
    } else if d == 3 {
        "3"
    } else if d == 4 {
        "4"
    } else if d == 5 {
        "5"
    } else if d == 6 {
        "6"
    } else if d == 7 {
        "7"
    } else if d == 8 {
        "8"
    } else {
        "9"
    }
}

/// `n` written in decimal.
pub fn decimal_string(n: u64) -> (text: String)
    ensures
        text@ == decimal(n as nat),
    decreases n,
{
    if n < 10 {
        String::from_str(digit_str(n))
    } else {
        let mut text = decimal_string(n / 10);
        text.append(digit_str(n % 10));
        text
    }
}

/// Thousands-separated number: `30000` becomes `30,000`.
pub fn with_commas(n: u32) -> (text: String)
    ensures
        text@ == grouped(n as nat),
    decreases n,
{
    if n < 1000 {
        decimal_string(n as u64)
    } else {
        let mut text = with_commas(n / 1000);
        let low = (n % 1000) as u64;
        proof {
            reveal_strlit(",");
        }
        text.append(",");
        text.append(digit_str(low / 100));
        text.append(digit_str(low / 10 % 10));
        text.append(digit_str(low % 10));
        proof {
            assert(text@ =~= grouped(n as nat));
        }
        text
    }
}

/// The calendar year for the status panel: negative years are BC, positive
/// years AD, and the missing year zero is shown as `1 AD`.
pub fn format_year(year: i32) -> (text: String)
    requires
        year > i32::MIN,
    ensures
        text@ == year_text(year as int),
{
    if year < 0 {
        let mut text = decimal_string((-year) as u64);
        text.append(" BC");
        text
    } else if year == 0 {
        String::from_str("1 AD")
    } else {
        let mut text = decimal_string(year as u64);
        text.append(" AD");
        text
    }
}

/// Lexicographic order on character sequences, by code point: the order in
/// which `str` values compare.
pub open spec fn lex_le(a: Seq<char>, b: Seq<char>) -> bool
    decreases a.len(),
{
    if a.len() == 0 {
        true
    } else if b.len() == 0 {
        false
    } else if a[0] != b[0] {
        (a[0] as int) < (b[0] as int)
    } else {
        lex_le(a.drop_first(), b.drop_first())
    }
}

/// Lexicographic order is transitive.
pub proof fn lemma_lex_le_transitive(a: Seq<char>, b: Seq<char>, c: Seq<char>)
    requires
        lex_le(a, b),
        lex_le(b, c),
    ensures
        lex_le(a, c),
    decreases a.len(),
{
    if a.len() > 0 && b.len() > 0 && c.len() > 0 && a[0] == b[0] && b[0] == c[0] {
        lemma_lex_le_transitive(a.drop_first(), b.drop_first(), c.drop_first());
    }
}

/// Any two sequences are ordered one way or the other.
pub proof fn lemma_lex_le_total(a: Seq<char>, b: Seq<char>)
    ensures
        lex_le(a, b) || lex_le(b, a),
    decreases a.len(),
{
    if a.len() > 0 && b.len() > 0 {
        if a[0] == b[0] {
            lemma_lex_le_total(a.drop_first(), b.drop_first());
        } else {
            assert((a[0] as int) != (b[0] as int));
        }
    }
}

/// Two sequences ordered both ways are equal.
pub proof fn lemma_lex_le_antisymmetric(a: Seq<char>, b: Seq<char>)
    requires
        lex_le(a, b),
        lex_le(b, a),
    ensures
        a == b,
    decreases a.len(),
{
    if a.len() > 0 && b.len() > 0 {
        lemma_lex_le_antisymmetric(a.drop_first(), b.drop_first());
        assert(a =~= seq![a[0]] + a.drop_first());
        assert(b =~= seq![b[0]] + b.drop_first());
    }
}

/// Whether `a` sorts no later than `b`, comparing character by character as
/// `str` comparison does.
pub fn str_le(a: &str, b: &str) -> (le: bool)
    ensures
        le == lex_le(a@, b@),
{
    let a_len = a.unicode_len();
    let b_len = b.unicode_len();
    let mut i: usize = 0;
    proof {
        assert(a@.skip(0) =~= a@);
        assert(b@.skip(0) =~= b@);
    }
    loop
        invariant
            i <= a_len,
            i <= b_len,
            a_len == a@.len(),
            b_len == b@.len(),
            lex_le(a@, b@) == lex_le(a@.skip(i as int), b@.skip(i as int)),
        decreases a_len - i,
    {
        if i == a_len {
            return true;
        }
        if i == b_len {
            return false;
        }
        let ca = a.get_char(i);
        let cb = b.get_char(i);
        if ca != cb {
            return (ca as u32) < (cb as u32);
        }
        proof {
            assert(a@.skip(i as int).drop_first() =~= a@.skip(i + 1));
            assert(b@.skip(i as int).drop_first() =~= b@.skip(i + 1));
        }
        i = i + 1;
    }
}

/// The terminal cells a character takes: emoji and other characters beyond
/// the basic multilingual plane take two, everything else one.
pub open spec fn glyph_width(ch: char) -> int {
    if (ch as int) >= 0x1_0000 {
        2
    } else {
        1
    }
}

/// The terminal cells a character takes: emoji take two cells.
pub fn cell_width(ch: char) -> (width: u16)
    ensures
        width == glyph_width(ch),
{
    if (ch as u32) >= 0x1_0000 {
        2
    } else {
        1
    }
}

/// The parts written one after another with `sep` between each two.
pub open spec fn joined(parts: Seq<Seq<char>>, sep: Seq<char>) -> Seq<char>
    decreases parts.len(),
{
    if parts.len() == 0 {
        Seq::empty()
    } else if parts.len() == 1 {
        parts[0]
    } else {
        joined(parts.drop_last(), sep) + sep + parts.last()
    }
}

/// The parts written one after another with `sep` between each two.
pub fn join(parts: &Vec<String>, sep: &str) -> (text: String)
    ensures
        text@ == joined(parts@.map_values(|part: String| part@), sep@),
{
    let ghost views = parts@.map_values(|part: String| part@);
    let mut text = String::new();
    let mut i: usize = 0;
    while i < parts.len()
        invariant
            i <= parts.len(),
            views == parts@.map_values(|part: String| part@),
            text@ == joined(views.take(i as int), sep@),
        decreases parts.len() - i,
    {
        proof {
            assert(views.take(i + 1).drop_last() =~= views.take(i as int));
            assert(views.take(i + 1).last() == parts@[i as int]@);
        }
        if i > 0 {
            text.append(sep);
        }
        text.append(parts[i].as_str());
        proof {
            if i == 0 {
                assert(views.take(1) =~= seq![parts@[0]@]);
                assert(text@ =~= parts@[0]@);
            }
        }
        i = i + 1;
    }
    proof {
        assert(views.take(i as int) =~= views);
    }
    text
}

} // verus!
