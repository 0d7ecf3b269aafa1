use vstd::prelude::*;

verus! {

/// The decimal digit character of `d` (taken modulo ten).
pub open spec fn digit_char(d: nat) -> char {
    let d = d % 10;
    if d == 0 {
        '0'
    } else if d == 1 {
        '1'
    } else if d == 2 {
        '2'
    } else if d == 3 {
        '3'
    } else if d == 4 {
        '4'
    } else if d == 5 {
        '5'
    } else if d == 6 {
        '6'
    } else if d == 7 {
        '7'
    } else if d == 8 {
        '8'
    } else {
        '9'
    }
}

/// `n` written in base ten, without leading zeros.
pub open spec fn decimal(n: nat) -> Seq<char>
    decreases n,
{
    if n < 10 {
        seq![digit_char(n)]
    } else {
        decimal(n / 10).push(digit_char(n % 10))
    }
}

/// `x` written in base ten, with a leading minus sign when negative.
pub open spec fn signed_decimal(x: int) -> Seq<char> {
    if x < 0 {
        seq!['-'] + decimal((-x) as nat)
    } else {
        decimal(x as nat)
    }
}

fn digit_str(d: u128) -> (r: &'static str)
    ensures
        r@ == seq![digit_char(d as nat)],
{
    let d = d % 10;
    proof {
        reveal_strlit("0");
        reveal_strlit("1");
        reveal_strlit("2");
        reveal_strlit("3");
        reveal_strlit("4");
        reveal_strlit("5");
        reveal_strlit("6");
        reveal_strlit("7");
        reveal_strlit("8");
        reveal_strlit("9");
    }
    if d == 0 {
        "0"
    } else if d == 1 {
        "1"
    } else if d == 2 {
        "2"
    } else if d == 3 {
        "3"
    } else if d == 4 {
        "4"
    } else if d == 5 {
        "5"
    } else if d == 6 {
        "6"
    } else if d == 7 {
        "7"
    } else if d == 8 {
        "8"
    } else {
        "9"
    }
}

/// Appends `n` in base ten to `out`.
pub fn push_decimal(out: &mut String, n: u128)
    ensures
        final(out)@ == old(out)@ + decimal(n as nat),
    decreases n,
{
    if n >= 10 {
        push_decimal(out, n / 10);
    }
    out.append(digit_str(n));
    proof {
        assert(digit_char(n as nat) == digit_char((n % 10) as nat));
    }
}

/// `n` in base ten, as a new string.
pub fn decimal_string(n: u128) -> (r: String)
    ensures
        r@ == decimal(n as nat),
{
    let mut out = String::new();
    push_decimal(&mut out, n);
    out
}

/// `x` in base ten, with a minus sign when negative.
pub fn signed_decimal_string(x: i32) -> (r: String)
    ensures
        r@ == signed_decimal(x as int),
{
    let mut out = String::new();
    if x < 0 {
        proof {
            reveal_strlit("-");
        }
        out.append("-");
        let m: i64 = -(x as i64);
        push_decimal(&mut out, m as u128);
    } else {
        push_decimal(&mut out, x as u128);
    }
    out
}

/// What quoting a word for a POSIX shell produces.
pub uninterp spec fn shell_quoted(word: Seq<char>) -> Seq<char>;

/// The words quoted one by one and separated by single spaces.
pub open spec fn shell_joined(words: Seq<Seq<char>>) -> Seq<char>
    decreases words.len(),
{
    if words.len() == 0 {
        seq![]
    } else if words.len() == 1 {
        shell_quoted(words[0])
    } else {
        shell_joined(words.drop_last()) + seq![' '] + shell_quoted(words.last())
    }
}

/// Relies on shlex::quote (nul bytes passed through, never an error): a word
/// a shell reads back as `word`; the empty word becomes two single quotes.
#[verifier::external_body]
#[allow(deprecated)]
pub(crate) fn quote_word(word: &str) -> (r: String)
    ensures
        r@ == shell_quoted(word@),
        word@.len() == 0 ==> r@ == seq!['\'', '\''],
{
    shlex::quote(word).into_owned()
}

/// Relies on shlex::join, which quotes each word as shlex::quote does and
/// separates consecutive words by a single space.
#[verifier::external_body]
#[allow(deprecated)]
pub(crate) fn join_words(words: &Vec<String>) -> (r: String)
    ensures
        r@ == shell_joined(words.deep_view()),
{
    shlex::join(words.iter().map(|w| w.as_str()))
}

} // verus!
