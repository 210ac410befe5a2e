//! Character-level helpers on endpoint strings, model names and numbers.
use vstd::prelude::*;

verus! {

/// `s` with every trailing `'/'` removed.
pub open spec fn trim_slashes(s: Seq<char>) -> Seq<char>
    decreases s.len(),
{
    if s.len() > 0 && s.last() == '/' {
        trim_slashes(s.drop_last())
    } else {
        s
    }
}

/// Returns the longest prefix of `s` that does not end with `'/'`.
pub fn trim_trailing_slashes(s: &str) -> (r: &str)
    ensures
        r@ == trim_slashes(s@),
{
    let mut end: usize = s.unicode_len();
    assert(s@.subrange(0, end as int) =~= s@);
    while end > 0 && s.get_char(end - 1) == '/'
        invariant
            end <= s@.len(),
            trim_slashes(s@.subrange(0, end as int)) == trim_slashes(s@),
        decreases end,
    {
        proof {
            let t = s@.subrange(0, end as int);
            assert(t.drop_last() =~= s@.subrange(0, end - 1));
        }
        end = end - 1;
    }
    s.substring_char(0, end)
}

/// The decimal digit characters, in order of value.
pub open spec fn digit_chars() -> Seq<char> {
    seq!['0', '1', '2', '3', '4', '5', '6', '7', '8', '9']
}

/// The decimal representation of `n`, without sign or leading zeros.
pub open spec fn decimal(n: nat) -> Seq<char>
    decreases n,
{
    if n < 10 {
        seq![digit_chars()[n as int]]
    } else {
        decimal(n / 10).push(digit_chars()[(n % 10) as int])
    }
}

/// The one-character string of digit `d`.
fn digit_str(d: u16) -> (r: &'static str)
    requires
        d < 10,
    ensures
        r@ == seq![digit_chars()[d as int]],
{
    let digits = "0123456789";
    proof {
        reveal_strlit("0123456789");
        assert(digits@ =~= digit_chars());
    }
    let r = digits.substring_char(d as usize, d as usize + 1);
    assert(r@ =~= seq![digit_chars()[d as int]]);
    r
}

/// Writes `n` in decimal, as `u16`'s `Display` does.
pub fn decimal_string(n: u16) -> (r: String)
    ensures
        r@ == decimal(n as nat),
    decreases n,
{
    if n < 10 {
        String::from_str(digit_str(n))
    } else {
        let mut r = decimal_string(n / 10);
        r.append(digit_str(n % 10));
        r
    }
}

/// A model as listed by the server is the requested one: the same name, or
/// the name followed by `':'` and a tag (`"llama3:8b"` for `"llama3"`).
pub open spec fn names_model(listed: Seq<char>, requested: Seq<char>) -> bool {
    listed == requested || (listed.len() > requested.len() && listed.subrange(
        0,
        requested.len() as int,
    ) == requested && listed[requested.len() as int] == ':')
}

/// Whether `listed` begins with `requested`.
fn has_prefix(listed: &str, requested: &str) -> (r: bool)
    ensures
        r == (requested@.len() <= listed@.len() && listed@.subrange(0, requested@.len() as int)
            == requested@),
{
    let n = requested.unicode_len();
    let m = listed.unicode_len();
    if n > m {
        return false;
    }
    let mut i: usize = 0;
    while i < n
        invariant
            n == requested@.len(),
            m == listed@.len(),
            n <= m,
            i <= n,
            listed@.subrange(0, i as int) =~= requested@.subrange(0, i as int),
        decreases n - i,
    {
        if listed.get_char(i) != requested.get_char(i) {
            assert(listed@.subrange(0, n as int)[i as int] != requested@[i as int]);
            return false;
        }
        i = i + 1;
    }
    assert(requested@.subrange(0, n as int) =~= requested@);
    true
}

/// Decides `names_model` on the two strings.
pub fn model_matches(listed: &str, requested: &str) -> (r: bool)
    ensures
        r == names_model(listed@, requested@),
{
    let n = requested.unicode_len();
    let m = listed.unicode_len();
    if !has_prefix(listed, requested) {
        proof {
            if listed@ == requested@ {
                assert(listed@.subrange(0, n as int) =~= listed@);
            }
        }
        false
    } else if n == m {
        assert(listed@ =~= listed@.subrange(0, n as int));
        true
    } else {
        listed.get_char(n) == ':'
    }
}

} // verus!
