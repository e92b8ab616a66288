//! Text helpers for the reassembly pipeline: decimal rendering for
//! unique segment file names, list joining for the concatenation
//! directive, and resolution of segment URIs against the manifest's
//! parent location.

use vstd::prelude::*;

verus! {

/// The decimal digit character for a value below ten.
pub open spec fn digit_char(d: int) -> char {
    if d == 0 {
        '0'
    } else if d == 1 {
        '1'
    } else if d == 2 {
        '2'
    } else if d == 3 {
        '3'
    } else if d == 4 {
        '4'
    } else if d == 5 {
        '5'
    } else if d == 6 {
        '6'
    } else if d == 7 {
        '7'
    } else if d == 8 {
        '8'
    } else {
        '9'
    }
}

/// The decimal rendering of a nonnegative number, most significant
/// digit first, without leading zeros.
pub open spec fn dec_spec(n: nat) -> Seq<char>
    decreases n,
{
    if n < 10 {
        seq![digit_char(n as int)]
    } else {
        dec_spec(n / 10) + seq![digit_char((n % 10) as int)]
    }
}

proof fn lemma_dec_spec_len(n: nat)
    ensures
        dec_spec(n).len() >= 1,
        dec_spec(n).len() == 1 <==> n < 10,
    decreases n,
{
    if n >= 10 {
        lemma_dec_spec_len(n / 10);
    }
}

/// Decimal renderings are distinct for distinct numbers.
pub proof fn lemma_dec_spec_injective(a: nat, b: nat)
    requires
        dec_spec(a) == dec_spec(b),
    ensures
        a == b,
    decreases a,
{
    lemma_dec_spec_len(a);
    lemma_dec_spec_len(b);
    if a < 10 && b < 10 {
        assert(dec_spec(a)[0] == digit_char(a as int));
        assert(dec_spec(b)[0] == digit_char(b as int));
    } else if a >= 10 && b >= 10 {
        let la = dec_spec(a / 10);
        let lb = dec_spec(b / 10);
        assert(dec_spec(a).len() == la.len() + 1);
        assert(dec_spec(b).len() == lb.len() + 1);
        assert(la.len() == lb.len());
        assert(dec_spec(a).last() == digit_char((a % 10) as int));
        assert(dec_spec(b).last() == digit_char((b % 10) as int));
        assert(a % 10 == b % 10);
        assert(la =~= lb) by {
            assert forall|k: int| 0 <= k < la.len() implies la[k] == lb[k] by {
                assert(la[k] == dec_spec(a)[k]);
                assert(lb[k] == dec_spec(b)[k]);
            }
        }
        lemma_dec_spec_injective(a / 10, b / 10);
    } else {
        assert(dec_spec(a).len() == dec_spec(b).len());
        assert(false);
    }
}

/// One decimal digit as a string.
fn digit_str(d: u64) -> (r: &'static str)
    requires
        d < 10,
    ensures
        r@ =~= seq![digit_char(d as int)],
{
    proof {
        reveal_strlit("0");
        reveal_strlit("1");
        reveal_strlit("2");
        reveal_strlit("3");
        reveal_strlit("4");
        reveal_strlit("5");
        reveal_strlit("6");
        reveal_strlit("7");
        reveal_strlit("8");
        reveal_strlit("9");
    }
    match d {
        0 => "0",
        1 => "1",
        2 => "2",
        3 => "3",
        4 => "4",
        5 => "5",
        6 => "6",
        7 => "7",
        8 => "8",
        _ => "9",
    }
}

/// The decimal rendering of a number.
pub fn decimal_string(n: u64) -> (r: String)
    ensures
        r@ == dec_spec(n as nat),
    decreases n,
{
    if n < 10 {
        String::from_str(digit_str(n))
    } else {
        let prefix = decimal_string(n / 10);
        let r = prefix.concat(digit_str(n % 10));
        proof {
            assert(r@ =~= dec_spec(n as nat));
        }
        r
    }
}

/// The view of a list of strings as a list of character sequences.
pub open spec fn strings_view(v: Seq<String>) -> Seq<Seq<char>> {
    v.map_values(|s: String| s@)
}

/// The parts joined with the separator between neighbours.
pub open spec fn joined(parts: Seq<Seq<char>>, sep: Seq<char>) -> Seq<char>
    decreases parts.len(),
{
    if parts.len() == 0 {
        Seq::empty()
    } else if parts.len() == 1 {
        parts[0]
    } else {
        joined(parts.drop_last(), sep) + sep + parts.last()
    }
}

/// Join the strings with the separator between neighbours.
pub fn join_with(parts: &Vec<String>, sep: &str) -> (r: String)
    ensures
        r@ == joined(strings_view(parts@), sep@),
{
    let mut acc = String::new();
    let mut i: usize = 0;
    while i < parts.len()
        invariant
            0 <= i <= parts@.len(),
            acc@ == joined(strings_view(parts@).take(i as int), sep@),
        decreases parts@.len() - i,
    {
        if i > 0 {
            acc.append(sep);
        }
        acc.append(parts[i].as_str());
        proof {
            let whole = strings_view(parts@);
            assert(whole.take(i as int + 1).drop_last() =~= whole.take(i as int));
            assert(whole.take(i as int + 1).last() == parts@[i as int]@);
            assert(acc@ == joined(whole.take(i as int + 1), sep@));
        }
        i = i + 1;
    }
    proof {
        assert(strings_view(parts@).take(parts@.len() as int) =~= strings_view(parts@));
    }
    acc
}

/// Whether the character sequence holds a slash.
pub open spec fn has_slash(s: Seq<char>) -> bool {
    exists|i: int| 0 <= i < s.len() && s[i] == '/'
}

/// Position of the last slash at or before position `i`, if any.
pub open spec fn last_slash_from(s: Seq<char>, i: int) -> Option<int>
    decreases i + 1,
{
    if i < 0 {
        None
    } else if s[i] == '/' {
        Some(i)
    } else {
        last_slash_from(s, i - 1)
    }
}

/// The parent location of a URL: everything before its last slash.
pub open spec fn parent_spec(s: Seq<char>) -> Seq<char> {
    match last_slash_from(s, s.len() - 1) {
        Some(i) => s.subrange(0, i),
        None => Seq::empty(),
    }
}

proof fn lemma_last_slash_none(s: Seq<char>, i: int)
    requires
        i < s.len(),
    ensures
        last_slash_from(s, i) is None ==> forall|j: int| 0 <= j <= i ==> s[j] != '/',
    decreases i + 1,
{
    if i >= 0 && s[i] != '/' {
        lemma_last_slash_none(s, i - 1);
    }
}

/// The parent location of a URL, `None` when the URL holds no slash.
pub fn parent_dir(s: &str) -> (r: Option<String>)
    ensures
        match r {
            Some(p) => has_slash(s@) && p@ == parent_spec(s@),
            None => !has_slash(s@),
        },
{
    let n = s.unicode_len();
    let mut i: usize = n;
    while i > 0
        invariant
            0 <= i <= n,
            n == s@.len(),
            last_slash_from(s@, n - 1) == last_slash_from(s@, i - 1),
        decreases i,
    {
        i = i - 1;
        if s.get_char(i) == '/' {
            assert(last_slash_from(s@, i as int) == Some(i as int));
            let p = s.substring_char(0, i);
            return Some(String::from_str(p));
        }
    }
    proof {
        if n > 0 {
            lemma_last_slash_none(s@, -1);
        }
        assert(last_slash_from(s@, n as int - 1) is None);
        if has_slash(s@) {
            let j = choose|j: int| 0 <= j < s@.len() && s@[j] == '/';
            lemma_last_slash_none(s@, n as int - 1);
            assert(false);
        }
    }
    None
}

/// A segment URI resolved against the manifest's parent location: the
/// URI itself when it is absolute, else parent, slash, URI.
pub open spec fn resolve_spec(base: Seq<char>, uri: Seq<char>) -> Seq<char> {
    if uri.len() > 0 && uri[0] == '/' {
        uri
    } else {
        base + "/"@ + uri
    }
}

/// Resolve a segment URI against the manifest's parent location.
pub fn resolve_uri(base: &str, uri: &str) -> (r: String)
    ensures
        r@ == resolve_spec(base@, uri@),
{
    if uri.unicode_len() > 0 && uri.get_char(0) == '/' {
        String::from_str(uri)
    } else {
        String::from_str(base).concat("/").concat(uri)
    }
}

} // verus!
