use vstd::prelude::*;

verus! {

/// The index of the last `/` strictly before position `i`, or `-1` when
/// there is none.
pub open spec fn last_slash_before(p: Seq<char>, i: int) -> int
    decreases i,
{
    if i <= 0 {
        -1
    } else if p[i - 1] == '/' {
        i - 1
    } else {
        last_slash_before(p, i - 1)
    }
}

/// The final path component: everything after the last `/`, or the whole
/// path when it holds no `/`.
pub open spec fn basename_of(p: Seq<char>) -> Seq<char> {
    p.subrange(last_slash_before(p, p.len() as int) + 1, p.len() as int)
}

/// A directory path and a file name joined with a single `/`.
pub open spec fn joined_path(dir: Seq<char>, name: Seq<char>) -> Seq<char> {
    dir + seq!['/'] + name
}

/// Where an item copied or moved from `src` into the directory `dir`
/// lands: the directory joined with the final component of `src`.
pub open spec fn dest_path(dir: Seq<char>, src: Seq<char>) -> Seq<char> {
    joined_path(dir, basename_of(src))
}

/// The final path component of `p`.
pub fn basename(p: &str) -> (r: &str)
    ensures
        r@ == basename_of(p@),
{
    let n: usize = p.unicode_len();
    let mut i: usize = n;
    loop
        invariant
            0 <= i <= n,
            n == p@.len(),
            last_slash_before(p@, n as int) == last_slash_before(p@, i as int),
        decreases i,
    {
        if i == 0 {
            proof {
                assert(p@.subrange(0, n as int) =~= p@);
            }
            return p.substring_char(0, n);
        }
        if p.get_char(i - 1) == '/' {
            return p.substring_char(i, n);
        }
        i = i - 1;
    }
}

/// `dir` and `name` joined with a single `/`.
pub fn join_path(dir: &str, name: &str) -> (r: String)
    ensures
        r@ == joined_path(dir@, name@),
{
    let mut s = String::from_str(dir);
    s.append("/");
    s.append(name);
    proof {
        reveal_strlit("/");
        assert("/"@ =~= seq!['/']);
        assert(s@ =~= joined_path(dir@, name@));
    }
    s
}

/// The destination of a transfer of `src` into the directory `dir`.
pub fn transfer_dest(dir: &str, src: &str) -> (r: String)
    ensures
        r@ == dest_path(dir@, src@),
{
    let name = basename(src);
    join_path(dir, name)
}

/// The character for one decimal digit.
pub open spec fn digit_char(d: int) -> char {
    if d == 0 {
        '0'
    } else if d == 1 {
        '1'
    } else if d == 2 {
        '2'
    } else if d == 3 {
        '3'
    } else if d == 4 {
        '4'
    } else if d == 5 {
        '5'
    } else if d == 6 {
        '6'
    } else if d == 7 {
        '7'
    } else if d == 8 {
        '8'
    } else {
        '9'
    }
}

/// The decimal digits of `n`, most significant first.
pub open spec fn decimal_digits(n: int) -> Seq<char>
    decreases n,
{
    if n < 10 {
        seq![digit_char(n)]
    } else {
        decimal_digits(n / 10) + seq![digit_char(n % 10)]
    }
}

fn digit_str(d: u64) -> (r: &'static str)
    requires
        d < 10,
    ensures
        r@ == seq![digit_char(d as int)],
{
    proof {
        reveal_strlit("0");
        reveal_strlit("1");
        reveal_strlit("2");
        reveal_strlit("3");
        reveal_strlit("4");
        reveal_strlit("5");
        reveal_strlit("6");
        reveal_strlit("7");
        reveal_strlit("8");
        reveal_strlit("9");
        assert("0"@ =~= seq!['0']);
        assert("1"@ =~= seq!['1']);
        assert("2"@ =~= seq!['2']);
        assert("3"@ =~= seq!['3']);
        assert("4"@ =~= seq!['4']);
        assert("5"@ =~= seq!['5']);
        assert("6"@ =~= seq!['6']);
        assert("7"@ =~= seq!['7']);
        assert("8"@ =~= seq!['8']);
        assert("9"@ =~= seq!['9']);
    }
    match d {
        0 => "0",
        1 => "1",
        2 => "2",
        3 => "3",
        4 => "4",
        5 => "5",
        6 => "6",
        7 => "7",
        8 => "8",
        _ => "9",
    }
}

/// `n` written out in decimal.
pub fn decimal_string(n: u64) -> (r: String)
    ensures
        r@ == decimal_digits(n as int),
    decreases n,
{
    if n < 10 {
        String::from_str(digit_str(n))
    } else {
        let mut s = decimal_string(n / 10);
        s.append(digit_str(n % 10));
        s
    }
}

/// The alternate destination synthesized for a keep-both resolution: the
/// original destination with a numeric suffix in parentheses.
pub open spec fn alt_name_of(dst: Seq<char>, n: int) -> Seq<char> {
    dst + " ("@ + decimal_digits(n) + ")"@
}

/// The `n`th alternate name for `dst`.
pub fn alt_name(dst: &str, n: u64) -> (r: String)
    ensures
        r@ == alt_name_of(dst@, n as int),
{
    let mut s = String::from_str(dst);
    s.append(" (");
    let digits = decimal_string(n);
    s.append(digits.as_str());
    s.append(")");
    proof {
        assert(s@ =~= alt_name_of(dst@, n as int));
    }
    s
}

/// Distinct suffix numbers give distinct alternate names for one
/// destination, so probing `n = 2, 3, ...` never repeats a candidate.
pub proof fn lemma_alt_names_distinct(dst: Seq<char>, m: int, n: int)
    requires
        0 <= m < n,
    ensures
        alt_name_of(dst, m) != alt_name_of(dst, n),
{
    lemma_decimal_digits_injective(m, n);
    if decimal_digits(m).len() == decimal_digits(n).len() {
        assert(alt_name_of(dst, m).len() == alt_name_of(dst, n).len());
        if alt_name_of(dst, m) == alt_name_of(dst, n) {
            let base = dst.len() + " ("@.len();
            let dm = decimal_digits(m);
            let dn = decimal_digits(n);
            let am = alt_name_of(dst, m);
            let an = alt_name_of(dst, n);
            assert(dm =~= am.subrange(base as int, base as int + dm.len() as int));
            assert(dn =~= an.subrange(base as int, base as int + dn.len() as int));
            assert(dm =~= dn);
        }
    } else {
        assert(alt_name_of(dst, m).len() != alt_name_of(dst, n).len());
    }
}

/// Decimal renderings of distinct numbers differ.
proof fn lemma_decimal_digits_injective(m: int, n: int)
    requires
        0 <= m < n,
    ensures
        decimal_digits(m).len() <= decimal_digits(n).len(),
        decimal_digits(m).len() == decimal_digits(n).len() ==> decimal_digits(m) != decimal_digits(
            n,
        ),
    decreases n,
{
    if n < 10 {
        assert(decimal_digits(m) =~= seq![digit_char(m)]);
        assert(decimal_digits(n) =~= seq![digit_char(n)]);
        assert(digit_char(m) != digit_char(n));
        if decimal_digits(m) == decimal_digits(n) {
            assert(decimal_digits(m)[0] == decimal_digits(n)[0]);
            assert(false);
        }
    } else if m < 10 {
        lemma_decimal_digits_len_ge(n / 10);
        assert(decimal_digits(m) =~= seq![digit_char(m)]);
        assert(decimal_digits(n).len() >= 2);
    } else {
        if m / 10 < n / 10 {
            lemma_decimal_digits_injective(m / 10, n / 10);
        }
        if decimal_digits(m).len() == decimal_digits(n).len() && decimal_digits(m)
            == decimal_digits(n) {
            let pm = decimal_digits(m / 10);
            let pn = decimal_digits(n / 10);
            assert(pm.len() == pn.len());
            assert(pm =~= decimal_digits(m).subrange(0, decimal_digits(m).len() - 1));
            assert(pn =~= decimal_digits(n).subrange(0, decimal_digits(n).len() - 1));
            assert(decimal_digits(m).last() == digit_char(m % 10));
            assert(decimal_digits(n).last() == digit_char(n % 10));
            if m / 10 == n / 10 {
                assert(m % 10 != n % 10);
                assert(digit_char(m % 10) != digit_char(n % 10));
            } else {
                assert(pm != pn);
            }
            assert(false);
        }
    }
}

/// Every decimal rendering holds at least one digit.
proof fn lemma_decimal_digits_len_ge(n: int)
    ensures
        decimal_digits(n).len() >= 1,
    decreases n,
{
    if n >= 10 {
        lemma_decimal_digits_len_ge(n / 10);
    }
}

} // verus!
