//! Filesystem-safe names for catalog entries.
use vstd::prelude::*;
use vstd::string::StringExecFns;

verus! {

/// Characters that `\s` matches in a Unicode-aware regular expression
/// (the `White_Space` property).
pub open spec fn is_unicode_white_space(c: char) -> bool {
    ||| ('\t' <= c && c <= '\r')
    ||| c == ' '
    ||| c == '\u{85}'
    ||| c == '\u{a0}'
    ||| c == '\u{1680}'
    ||| ('\u{2000}' <= c && c <= '\u{200a}')
    ||| c == '\u{2028}'
    ||| c == '\u{2029}'
    ||| c == '\u{202f}'
    ||| c == '\u{205f}'
    ||| c == '\u{3000}'
}

/// Characters that are not allowed in a sanitized name.
pub open spec fn is_path_hostile(c: char) -> bool {
    ||| is_unicode_white_space(c)
    ||| c == '<'
    ||| c == '>'
    ||| c == ':'
    ||| c == ';'
    ||| c == '\''
    ||| c == ','
    ||| c == '?'
    ||| c == '*'
    ||| c == '|'
    ||| c == '\\'
}

/// Each hostile character replaced by one hyphen; everything else kept.
pub open spec fn hyphenate(s: Seq<char>) -> Seq<char> {
    s.map_values(|c: char| if is_path_hostile(c) { '-' } else { c })
}

/// The character of the decimal digit `d` (below ten).
pub open spec fn digit_char(d: nat) -> char {
    if d == 0 { '0' }
    else if d == 1 { '1' }
    else if d == 2 { '2' }
    else if d == 3 { '3' }
    else if d == 4 { '4' }
    else if d == 5 { '5' }
    else if d == 6 { '6' }
    else if d == 7 { '7' }
    else if d == 8 { '8' }
    else { '9' }
}

/// Decimal digits of `n`, most significant first, without leading zeros.
pub open spec fn decimal(n: nat) -> Seq<char>
    decreases n,
{
    if n < 10 {
        seq![digit_char(n)]
    } else {
        decimal(n / 10).push(digit_char(n % 10))
    }
}

/// The sanitized name of edition `edition` of an entry called `name`.
pub open spec fn sanitized(name: Seq<char>, edition: u8) -> Seq<char> {
    hyphenate(name + seq!['_'] + decimal(edition as nat))
}

/// The regular expression whose matches are replaced: one character class.
pub open spec fn hostile_class_pattern() -> Seq<char> {
    seq!['[', '\\', 's', '<', '>', ':', ';', '\'', ',', '?', '*', '|', '\\', '\\', ']']
}

/// The one-character string of the decimal digit `d`.
fn digit_str(d: u64) -> (r: &'static str)
    requires
        d < 10,
    ensures
        r@ == seq![digit_char(d as nat)],
{
    proof {
        reveal_strlit("0");
        reveal_strlit("1");
        reveal_strlit("2");
        reveal_strlit("3");
        reveal_strlit("4");
        reveal_strlit("5");
        reveal_strlit("6");
        reveal_strlit("7");
        reveal_strlit("8");
        reveal_strlit("9");
    }
    match d {
        0 => "0",
        1 => "1",
        2 => "2",
        3 => "3",
        4 => "4",
        5 => "5",
        6 => "6",
        7 => "7",
        8 => "8",
        _ => "9",
    }
}

/// The decimal digits of `n`.
pub fn decimal_string(n: u64) -> (r: String)
    ensures
        r@ == decimal(n as nat),
    decreases n,
{
    if n < 10 {
        String::from_str(digit_str(n))
    } else {
        let mut text = decimal_string(n / 10);
        text.append(digit_str(n % 10));
        text
    }
}

/// Relies on `regex::Regex::new` and `regex::Regex::replace_all`: the pattern
/// is a single Unicode character class, so each match is one character of
/// the class, and the replacement holds no `$` group reference.
#[verifier::external_body]
fn regex_replace_all(pattern: &str, text: &str, replacement: &str) -> (r: String)
    requires
        pattern@ == hostile_class_pattern(),
        replacement@ == seq!['-'],
    ensures
        r@ == hyphenate(text@),
{
    regex::Regex::new(pattern).unwrap().replace_all(text, replacement).into_owned()
}

/// The name, an underscore and the edition's decimal digits, with every
/// whitespace character and every one of `< > : ; ' , ? * | \` replaced by
/// its own hyphen.
pub fn sanitize(name: &str, edition: u8) -> (r: String)
    ensures
        r@ == sanitized(name@, edition),
{
    let mut joined = String::from_str(name);
    joined.append("_");
    let digits = decimal_string(edition as u64);
    joined.append(digits.as_str());
    let pattern = r"[\s<>:;',?*|\\]";
    let hyphen = "-";
    proof {
        reveal_strlit("_");
        reveal_strlit(r"[\s<>:;',?*|\\]");
        reveal_strlit("-");
        assert(pattern@ =~= hostile_class_pattern());
        assert(hyphen@ =~= seq!['-']);
    }
    regex_replace_all(pattern, joined.as_str(), hyphen)
}

/// Sanitizing keeps the length of `name`, underscore and edition digits;
/// puts a hyphen in place of each whitespace character and each of
/// `< > : ; ' , ? * | \`, one for one; keeps every other character; and
/// leaves none of those characters in the result.
pub proof fn lemma_sanitize_replaces_each_hostile(name: Seq<char>, edition: u8)
    ensures
        sanitized(name, edition).len() == name.len() + 1 + decimal(edition as nat).len(),
        forall|i: int|
            0 <= i < name.len() ==> #[trigger] sanitized(name, edition)[i] == if is_path_hostile(
                name[i],
            ) {
                '-'
            } else {
                name[i]
            },
        forall|i: int|
            0 <= i < sanitized(name, edition).len() ==> !is_path_hostile(
                #[trigger] sanitized(name, edition)[i],
            ),
{
    let joined = name + seq!['_'] + decimal(edition as nat);
    assert forall|i: int| 0 <= i < name.len() implies joined[i] == name[i] by {}
}

} // verus!
