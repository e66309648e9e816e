use vstd::prelude::*;
use vstd::string::StringExecFns;

verus! {

/// The words of a line: its maximal runs of characters that are not
/// Unicode white space, in order.
pub uninterp spec fn words_of(line: Seq<char>) -> Seq<Seq<char>>;

/// Relies on `str::split_whitespace`: it yields the words of the line; each
/// is copied into a `String`.
#[verifier::external_body]
pub(crate) fn split_words(line: &str) -> (r: Vec<String>)
    ensures
        r@.map_values(|w: String| w@) == words_of(line@),
{
    line.split_whitespace().map(|w| w.to_string()).collect()
}

/// `c` is one of the ASCII digits `0` to `9`.
pub open spec fn is_digit(c: char) -> bool {
    '0' <= c && c <= '9'
}

/// `d` is a non-empty run of ASCII digits.
pub open spec fn all_digits(d: Seq<char>) -> bool {
    d.len() > 0 && forall|i: int| 0 <= i < d.len() ==> is_digit(#[trigger] d[i])
}

/// The value of a run of decimal digits, most significant first.
pub open spec fn digits_value(d: Seq<char>) -> int
    decreases d.len(),
{
    if d.len() == 0 {
        0
    } else {
        10 * digits_value(d.drop_last()) + (d.last() as u32 - '0' as u32)
    }
}

/// The integer that `s` writes in decimal: an optional `+` or `-`, then one
/// or more ASCII digits, nothing else.
pub open spec fn decimal_value(s: Seq<char>) -> Option<int> {
    if s.len() > 0 && s[0] == '-' && all_digits(s.skip(1)) {
        Some(-digits_value(s.skip(1)))
    } else if s.len() > 0 && s[0] == '+' && all_digits(s.skip(1)) {
        Some(digits_value(s.skip(1)))
    } else if all_digits(s) {
        Some(digits_value(s))
    } else {
        None
    }
}

/// The task id that `s` names: its decimal value, where that fits in an `i16`.
pub open spec fn id_of(s: Seq<char>) -> Option<i16> {
    match decimal_value(s) {
        Some(v) => if i16::MIN <= v && v <= i16::MAX {
            Some(v as i16)
        } else {
            None
        },
        None => None,
    }
}

/// Relies on `i16::from_str`: it accepts an optional sign followed by ASCII
/// digits whose value fits in an `i16`, and refuses everything else.
#[verifier::external_body]
pub(crate) fn parse_id(s: &str) -> (r: Option<i16>)
    ensures
        r == id_of(s@),
{
    s.parse::<i16>().ok()
}

/// The words of `ws` written one after another with one space between two.
pub open spec fn joined(ws: Seq<Seq<char>>) -> Seq<char>
    decreases ws.len(),
{
    if ws.len() == 0 {
        Seq::empty()
    } else if ws.len() == 1 {
        ws[0]
    } else {
        joined(ws.drop_last()) + seq![' '] + ws.last()
    }
}

/// The words of `words` from position `from` on, joined by single spaces.
pub fn join_from(words: &Vec<String>, from: usize) -> (r: String)
    requires
        from <= words@.len(),
    ensures
        r@ == joined(words@.map_values(|w: String| w@).skip(from as int)),
{
    let ghost ws = words@.map_values(|w: String| w@);
    let mut acc = String::new();
    let mut i: usize = from;
    while i < words.len()
        invariant
            from <= i <= words@.len(),
            ws == words@.map_values(|w: String| w@),
            acc@ == joined(ws.subrange(from as int, i as int)),
        decreases words@.len() - i,
    {
        proof {
            assert(ws.subrange(from as int, i as int + 1).drop_last() =~= ws.subrange(
                from as int,
                i as int,
            ));
        }
        if i > from {
            acc.append(" ");
            proof {
                reveal_strlit(" ");
            }
        }
        acc.append(words[i].as_str());
        proof {
            assert(acc@ =~= joined(ws.subrange(from as int, i as int + 1)));
        }
        i = i + 1;
    }
    proof {
        assert(ws.subrange(from as int, words@.len() as int) =~= ws.skip(from as int));
    }
    acc
}

} // verus!
