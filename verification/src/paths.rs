//! Resolution of the on-disk location of a trusted-setup parameter file:
//! a directory location gets the conventional per-degree file name appended,
//! a direct file location is used verbatim.

use vstd::prelude::*;

verus! {

/// The decimal digit character for a value below ten.
pub open spec fn spec_digit_char(d: nat) -> char {
    if d == 0 {
        '0'
    } else if d == 1 {
        '1'
    } else if d == 2 {
        '2'
    } else if d == 3 {
        '3'
    } else if d == 4 {
        '4'
    } else if d == 5 {
        '5'
    } else if d == 6 {
        '6'
    } else if d == 7 {
        '7'
    } else if d == 8 {
        '8'
    } else {
        '9'
    }
}

/// The decimal digits of `n`, most significant first, without sign or padding.
pub open spec fn spec_decimal(n: nat) -> Seq<char>
    decreases n,
{
    if n < 10 {
        seq![spec_digit_char(n)]
    } else {
        spec_decimal(n / 10).push(spec_digit_char(n % 10))
    }
}

/// Append the single decimal digit `d` to `s`.
fn append_digit(s: &mut String, d: u64)
    requires
        d < 10,
    ensures
        final(s)@ == old(s)@ + seq![spec_digit_char(d as nat)],
{
    proof {
        reveal_strlit("0");
        reveal_strlit("1");
        reveal_strlit("2");
        reveal_strlit("3");
        reveal_strlit("4");
        reveal_strlit("5");
        reveal_strlit("6");
        reveal_strlit("7");
        reveal_strlit("8");
        reveal_strlit("9");
    }
    if d == 0 {
        s.append("0");
        assert(final(s)@ =~= old(s)@ + seq![spec_digit_char(d as nat)]);
    } else if d == 1 {
        s.append("1");
        assert(final(s)@ =~= old(s)@ + seq![spec_digit_char(d as nat)]);
    } else if d == 2 {
        s.append("2");
        assert(final(s)@ =~= old(s)@ + seq![spec_digit_char(d as nat)]);
    } else if d == 3 {
        s.append("3");
        assert(final(s)@ =~= old(s)@ + seq![spec_digit_char(d as nat)]);
    } else if d == 4 {
        s.append("4");
        assert(final(s)@ =~= old(s)@ + seq![spec_digit_char(d as nat)]);
    } else if d == 5 {
        s.append("5");
        assert(final(s)@ =~= old(s)@ + seq![spec_digit_char(d as nat)]);
    } else if d == 6 {
        s.append("6");
        assert(final(s)@ =~= old(s)@ + seq![spec_digit_char(d as nat)]);
    } else if d == 7 {
        s.append("7");
        assert(final(s)@ =~= old(s)@ + seq![spec_digit_char(d as nat)]);
    } else if d == 8 {
        s.append("8");
        assert(final(s)@ =~= old(s)@ + seq![spec_digit_char(d as nat)]);
    } else {
        s.append("9");
        assert(final(s)@ =~= old(s)@ + seq![spec_digit_char(d as nat)]);
    }
}

/// Append the decimal rendering of `n` to `s`.
pub fn append_decimal(s: &mut String, n: u64)
    ensures
        final(s)@ == old(s)@ + spec_decimal(n as nat),
    decreases n,
{
    if n < 10 {
        append_digit(s, n);
    } else {
        append_decimal(s, n / 10);
        append_digit(s, n % 10);
        assert(final(s)@ =~= old(s)@ + spec_decimal(n as nat));
    }
}

/// The conventional file name for a given degree inside a parameters
/// directory: `<params_dir>/params<degree>`.
pub fn param_path_for_degree(params_dir: &str, degree: u32) -> (r: String)
    ensures
        r@ == params_dir@ + "/params"@ + spec_decimal(degree as nat),
{
    let mut s = params_dir.to_owned();
    s.append("/params");
    append_decimal(&mut s, degree as u64);
    s
}

/// Resolve a configured location to a concrete parameter file path: a
/// directory gets the conventional per-degree file name appended, a direct
/// file location is returned unchanged.
pub fn resolve_param_path(location: &str, location_is_dir: bool, degree: u32) -> (r: String)
    ensures
        location_is_dir ==> r@ == location@ + "/params"@ + spec_decimal(degree as nat),
        !location_is_dir ==> r@ == location@,
{
    if location_is_dir {
        param_path_for_degree(location, degree)
    } else {
        location.to_owned()
    }
}

} // verus!
