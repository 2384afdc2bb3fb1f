use vstd::prelude::*;

verus! {

/// The concatenation of `f` applied to each element of `s`, in order.
pub open spec fn concat_map<A>(s: Seq<A>, f: spec_fn(A) -> Seq<char>) -> Seq<char>
    decreases s.len(),
{
    if s.len() == 0 {
        Seq::empty()
    } else {
        concat_map(s.drop_last(), f) + f(s.last())
    }
}

/// Extending a prefix by one element appends that element's text.
pub proof fn lemma_concat_map_step<A>(s: Seq<A>, f: spec_fn(A) -> Seq<char>, i: int)
    requires
        0 <= i < s.len(),
    ensures
        concat_map(s.take(i + 1), f) == concat_map(s.take(i), f) + f(s[i]),
{
    assert(s.take(i + 1).drop_last() =~= s.take(i));
}

/// Mapping first and then writing each element is writing with the composed
/// function.
pub proof fn lemma_concat_map_compose<A, B>(
    s: Seq<A>,
    g: spec_fn(A) -> B,
    f: spec_fn(B) -> Seq<char>,
    h: spec_fn(A) -> Seq<char>,
)
    requires
        forall|x: A| #[trigger] h(x) == f(g(x)),
    ensures
        concat_map(s.map_values(g), f) == concat_map(s, h),
    decreases s.len(),
{
    if s.len() > 0 {
        assert(s.map_values(g).drop_last() =~= s.drop_last().map_values(g));
        lemma_concat_map_compose(s.drop_last(), g, f, h);
    }
}

/// The text of one decimal digit.
pub open spec fn digit_text(d: nat) -> Seq<char> {
    if d == 0 {
        "0"@
    } else if d == 1 {
        "1"@
    } else if d == 2 {
        "2"@
    } else if d == 3 {
        "3"@
    } else if d == 4 {
        "4"@
    } else if d == 5 {
        "5"@
    } else if d == 6 {
        "6"@
    } else if d == 7 {
        "7"@
    } else if d == 8 {
        "8"@
    } else {
        "9"@
    }
}

/// The decimal text of `n`, without leading zeros.
pub open spec fn decimal(n: nat) -> Seq<char>
    decreases n,
{
    if n < 10 {
        digit_text(n)
    } else {
        decimal(n / 10) + digit_text(n % 10)
    }
}

/// Appends the decimal text of `n`.
pub fn write_decimal(out: &mut String, n: usize)
    ensures
        final(out)@ == old(out)@ + decimal(n as nat),
    decreases n,
{
    if n >= 10 {
        write_decimal(out, n / 10);
    }
    let d = n % 10;
    if d == 0 {
        out.append("0");
    } else if d == 1 {
        out.append("1");
    } else if d == 2 {
        out.append("2");
    } else if d == 3 {
        out.append("3");
    } else if d == 4 {
        out.append("4");
    } else if d == 5 {
        out.append("5");
    } else if d == 6 {
        out.append("6");
    } else if d == 7 {
        out.append("7");
    } else if d == 8 {
        out.append("8");
    } else {
        out.append("9");
    }
    assert(final(out)@ =~= old(out)@ + decimal(n as nat));
}

} // verus!
