use vstd::prelude::*;
use vstd::string::StringExecFns;

verus! {

/// The indentation prefix of a tree line: two spaces per depth step.
pub open spec fn indent_of(n: int) -> Seq<char>
    decreases n,
{
    if n <= 0 {
        Seq::empty()
    } else {
        indent_of(n - 1) + "  "@
    }
}

/// The decimal text of a small count. Levels and per-colour decision counts
/// never exceed six.
pub open spec fn digit_of(n: int) -> Seq<char> {
    if n <= 0 {
        "0"@
    } else if n == 1 {
        "1"@
    } else if n == 2 {
        "2"@
    } else if n == 3 {
        "3"@
    } else if n == 4 {
        "4"@
    } else if n == 5 {
        "5"@
    } else {
        "6"@
    }
}

/// Appends `n` indentation steps of two spaces each.
pub(crate) fn push_indent(s: &mut String, n: usize)
    ensures
        final(s)@ == old(s)@ + indent_of(n as int),
{
    let mut i: usize = 0;
    proof {
        assert(s@ =~= old(s)@ + indent_of(0));
    }
    while i < n
        invariant
            i <= n,
            s@ == old(s)@ + indent_of(i as int),
        decreases n - i,
    {
        s.append("  ");
        proof {
            assert(s@ =~= old(s)@ + indent_of(i + 1 as int));
        }
        i += 1;
    }
}

/// The decimal text of a count of at most six.
pub(crate) fn digit_str(n: usize) -> (r: &'static str)
    requires
        n <= 6,
    ensures
        r@ == digit_of(n as int),
{
    if n == 0 {
        "0"
    } else if n == 1 {
        "1"
    } else if n == 2 {
        "2"
    } else if n == 3 {
        "3"
    } else if n == 4 {
        "4"
    } else if n == 5 {
        "5"
    } else {
        "6"
    }
}

} // verus!
