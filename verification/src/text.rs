//! String helpers shared by the SQL generators: equality, decimal numbers,
//! lower-casing and the debug rendering of name lists.
use vstd::prelude::*;
use vstd::string::*;

verus! {

/// The contents of a sequence of owned strings.
pub open spec fn strings_view(v: Seq<String>) -> Seq<Seq<char>> {
    v.map_values(|s: String| s@)
}

/// The contents of a sequence of string slices.
pub open spec fn strs_view(v: Seq<&str>) -> Seq<Seq<char>> {
    v.map_values(|s: &str| s@)
}

/// Pushing one string adds its contents at the end of the viewed sequence.
pub proof fn lemma_strings_view_push(v: Seq<String>, s: String)
    ensures
        strings_view(v.push(s)) == strings_view(v).push(s@),
{
    assert(strings_view(v.push(s)) =~= strings_view(v).push(s@));
}

/// Pushing one slice adds its contents at the end of the viewed sequence.
pub proof fn lemma_strs_view_push(v: Seq<&str>, s: &str)
    ensures
        strs_view(v.push(s)) == strs_view(v).push(s@),
{
    assert(strs_view(v.push(s)) =~= strs_view(v).push(s@));
}

/// Exact string equality, decided on owned copies whose contents `vstd` specifies.
pub fn str_eq(a: &str, b: &str) -> (r: bool)
    ensures
        r == (a@ == b@),
{
    let x = a.to_owned();
    let y = b.to_owned();
    x == y
}

/// The character of a decimal digit.
pub open spec fn digit_char(d: nat) -> char
    recommends
        d < 10,
{
    if d == 0 {
        '0'
    } else if d == 1 {
        '1'
    } else if d == 2 {
        '2'
    } else if d == 3 {
        '3'
    } else if d == 4 {
        '4'
    } else if d == 5 {
        '5'
    } else if d == 6 {
        '6'
    } else if d == 7 {
        '7'
    } else if d == 8 {
        '8'
    } else {
        '9'
    }
}

/// The decimal notation of a natural number, without sign or leading zeros.
pub open spec fn decimal(n: nat) -> Seq<char>
    decreases n,
{
    if n < 10 {
        seq![digit_char(n)]
    } else {
        decimal(n / 10).push(digit_char(n % 10))
    }
}

fn digit_str(d: usize) -> (s: &'static str)
    requires
        d < 10,
    ensures
        s@ == seq![digit_char(d as nat)],
{
    proof {
        reveal_strlit("0");
        reveal_strlit("1");
        reveal_strlit("2");
        reveal_strlit("3");
        reveal_strlit("4");
        reveal_strlit("5");
        reveal_strlit("6");
        reveal_strlit("7");
        reveal_strlit("8");
        reveal_strlit("9");
    }
    if d == 0 {
        "0"
    } else if d == 1 {
        "1"
    } else if d == 2 {
        "2"
    } else if d == 3 {
        "3"
    } else if d == 4 {
        "4"
    } else if d == 5 {
        "5"
    } else if d == 6 {
        "6"
    } else if d == 7 {
        "7"
    } else if d == 8 {
        "8"
    } else {
        "9"
    }
}

/// The decimal notation of `n`, as `n.to_string()` writes it.
pub fn usize_to_decimal(n: usize) -> (s: String)
    ensures
        s@ == decimal(n as nat),
    decreases n,
{
    if n < 10 {
        String::from_str(digit_str(n))
    } else {
        let mut s = usize_to_decimal(n / 10);
        s.append(digit_str(n % 10));
        s
    }
}

/// What `str::to_lowercase` returns for a string: each character replaced by
/// its Unicode lowercase mapping.
pub uninterp spec fn spec_to_lowercase(s: Seq<char>) -> Seq<char>;

/// Calls `str::to_lowercase`; its result is named by `spec_to_lowercase`, a
/// function of the argument's characters alone.
#[verifier::external_body]
pub fn to_lowercase(s: &str) -> (r: String)
    ensures
        r@ == spec_to_lowercase(s@),
{
    s.to_lowercase()
}

/// What `format!("{:?}", v)` writes for a vector of string slices: the list in
/// square brackets, each item quoted and escaped, separated by `", "`.
pub uninterp spec fn spec_debug_str_list(v: Seq<Seq<char>>) -> Seq<char>;

/// Renders a list of names the way `Debug` renders a `Vec<&str>`; the text is
/// named by `spec_debug_str_list`, a function of the items' characters alone.
#[verifier::external_body]
pub fn debug_str_list(v: &Vec<&str>) -> (r: String)
    ensures
        r@ == spec_debug_str_list(strs_view(v@)),
{
    format!("{:?}", v)
}


/// Looking at one more element of a sequence.
pub proof fn lemma_contains_take_step<A>(s: Seq<A>, i: int, x: A)
    requires
        0 <= i < s.len(),
    ensures
        s.take(i + 1).contains(x) == (s.take(i).contains(x) || s[i] == x),
{
    if s.take(i + 1).contains(x) {
        let j = choose|j: int| 0 <= j < i + 1 && #[trigger] s.take(i + 1)[j] == x;
        if j < i {
            assert(s.take(i)[j] == x);
        }
    }
    if s.take(i).contains(x) {
        let j = choose|j: int| 0 <= j < i && #[trigger] s.take(i)[j] == x;
        assert(s.take(i + 1)[j] == x);
    }
    if s[i] == x {
        assert(s.take(i + 1)[i] == x);
    }
}

} // verus!
