use vstd::prelude::*;
use vstd::string::*;

verus! {

/// The largest numeral spliced into a colliding file name.
pub const MAX_NUMERAL: u32 = 100000;

/// The decimal digit character of `d`.
pub open spec fn digit_char(d: nat) -> char {
    if d == 0 {
        '0'
    } else if d == 1 {
        '1'
    } else if d == 2 {
        '2'
    } else if d == 3 {
        '3'
    } else if d == 4 {
        '4'
    } else if d == 5 {
        '5'
    } else if d == 6 {
        '6'
    } else if d == 7 {
        '7'
    } else if d == 8 {
        '8'
    } else {
        '9'
    }
}

/// The decimal numeral of `n`, without leading zeros.
pub open spec fn decimal(n: nat) -> Seq<char>
    decreases n,
{
    if n < 10 {
        seq![digit_char(n)]
    } else {
        decimal(n / 10).push(digit_char(n % 10))
    }
}

/// A numeral is never empty.
pub proof fn lemma_decimal_nonempty(n: nat)
    ensures
        decimal(n).len() >= 1,
    decreases n,
{
    if n >= 10 {
        lemma_decimal_nonempty(n / 10);
    }
}

fn digit_str(d: u32) -> (r: &'static str)
    requires
        d < 10,
    ensures
        r@ == seq![digit_char(d as nat)],
{
    proof {
        reveal_strlit("0");
        reveal_strlit("1");
        reveal_strlit("2");
        reveal_strlit("3");
        reveal_strlit("4");
        reveal_strlit("5");
        reveal_strlit("6");
        reveal_strlit("7");
        reveal_strlit("8");
        reveal_strlit("9");
    }
    let r = if d == 0 {
        "0"
    } else if d == 1 {
        "1"
    } else if d == 2 {
        "2"
    } else if d == 3 {
        "3"
    } else if d == 4 {
        "4"
    } else if d == 5 {
        "5"
    } else if d == 6 {
        "6"
    } else if d == 7 {
        "7"
    } else if d == 8 {
        "8"
    } else {
        "9"
    };
    assert(r@ =~= seq![digit_char(d as nat)]);
    r
}

/// Writes `n` in decimal.
pub fn decimal_string(n: u32) -> (r: String)
    ensures
        r@ == decimal(n as nat),
    decreases n,
{
    if n < 10 {
        String::from_str(digit_str(n))
    } else {
        let mut s = decimal_string(n / 10);
        s.append(digit_str(n % 10));
        assert(s@ =~= decimal(n as nat));
        s
    }
}

/// The position just after the last `/` of `s`, or 0 where it has none.
pub open spec fn after_last_slash(s: Seq<char>) -> int
    decreases s.len(),
{
    if s.len() == 0 {
        0
    } else if s.last() == '/' {
        s.len() as int
    } else {
        after_last_slash(s.drop_last())
    }
}

/// The last `/`-separated segment of a link: the name its file is saved under.
pub open spec fn file_name_of(url: Seq<char>) -> Seq<char> {
    url.skip(after_last_slash(url))
}

/// The trailing segment of a link, after its last `/` (the whole link where
/// it has none).
pub fn file_name(url: &str) -> (r: String)
    ensures
        r@ == file_name_of(url@),
{
    let n = url.unicode_len();
    let mut i: usize = n;
    assert(url@.take(n as int) =~= url@);
    while i > 0 && url.get_char(i - 1) != '/'
        invariant
            n == url@.len(),
            i <= n,
            after_last_slash(url@) == after_last_slash(url@.take(i as int)),
        decreases i,
    {
        assert(url@.take(i as int).drop_last() =~= url@.take(i - 1));
        i = i - 1;
    }
    proof {
        if i > 0 {
            assert(url@.take(i as int).last() == '/');
        }
        assert(url@.take(0) =~= Seq::<char>::empty());
    }
    String::from_str(url.substring_char(i, n))
}

/// Where a numeral is spliced into a name: before its last four characters,
/// or at its start where it is shorter than that.
pub open spec fn splice_point(name: Seq<char>) -> int {
    if name.len() >= 4 {
        name.len() - 4
    } else {
        0
    }
}

/// `name` with the decimal numeral of `n` spliced in at a fixed offset of four
/// characters from its end (before a three-letter extension and its dot).
pub open spec fn spliced_name(name: Seq<char>, n: nat) -> Seq<char> {
    name.take(splice_point(name)) + decimal(n) + name.skip(splice_point(name))
}

/// Splices the numeral of `n` into `name` four characters before its end.
/// The offset is fixed: it does not look for the extension.
pub fn splice_numeral(name: &str, n: u32) -> (r: String)
    ensures
        r@ == spliced_name(name@, n as nat),
{
    let len = name.unicode_len();
    let at: usize = if len >= 4 {
        len - 4
    } else {
        0
    };
    let mut r = String::from_str(name.substring_char(0, at));
    let numeral = decimal_string(n);
    r.append(numeral.as_str());
    r.append(name.substring_char(at, len));
    r
}

/// A spliced name is never the name it came from, and taking the numeral
/// back out gives the name again: the splice happens once, at one place.
pub proof fn lemma_spliced_name_differs(name: Seq<char>, n: nat)
    ensures
        spliced_name(name, n) != name,
        spliced_name(name, n).len() == name.len() + decimal(n).len(),
        spliced_name(name, n).take(splice_point(name)) == name.take(splice_point(name)),
        spliced_name(name, n).subrange(
            splice_point(name),
            splice_point(name) + decimal(n).len(),
        ) == decimal(n),
        spliced_name(name, n).skip(splice_point(name) + decimal(n).len()) == name.skip(
            splice_point(name),
        ),
{
    lemma_decimal_nonempty(n);
    let s = spliced_name(name, n);
    let p = splice_point(name);
    let d = decimal(n);
    assert(s.len() == name.len() + d.len());
    assert(s.take(p) =~= name.take(p));
    assert(s.subrange(p, p + d.len()) =~= d);
    assert(s.skip(p + d.len()) =~= name.skip(p));
}

} // verus!
