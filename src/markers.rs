use vstd::prelude::*;

verus! {

/// A lifetime argument in a generated implementation.
#[derive(Clone, Copy, Debug, PartialEq, Eq, Structural)]
pub enum Marker {
    /// `'_`: whatever scope the borrowed value lives in.
    Inferred,
    /// `'static`: no scope at all.
    Unbounded,
}

/// The source text of a marker.
pub open spec fn marker_text(m: Marker) -> Seq<char> {
    match m {
        Marker::Inferred => "'_"@,
        Marker::Unbounded => "'static"@,
    }
}

/// The marker lists for `n` lifetime parameters: the borrowed side has an
/// inferred scope in each position, the owned side has `'static` in each.
pub open spec fn erased_spec(n: nat) -> (Seq<Marker>, Seq<Marker>) {
    (Seq::new(n, |i: int| Marker::Inferred), Seq::new(n, |i: int| Marker::Unbounded))
}

/// Builds the borrowed-side and owned-side marker lists for `n` lifetime
/// parameters, position by position.
pub fn erase_markers(n: usize) -> (r: (Vec<Marker>, Vec<Marker>))
    ensures
        r.0@ == erased_spec(n as nat).0,
        r.1@ == erased_spec(n as nat).1,
{
    let mut borrowed: Vec<Marker> = Vec::new();
    let mut owned: Vec<Marker> = Vec::new();
    let mut i: usize = 0;
    while i < n
        invariant
            i <= n,
            borrowed@ =~= Seq::new(i as nat, |k: int| Marker::Inferred),
            owned@ =~= Seq::new(i as nat, |k: int| Marker::Unbounded),
        decreases n - i,
    {
        borrowed.push(Marker::Inferred);
        owned.push(Marker::Unbounded);
        i = i + 1;
    }
    (borrowed, owned)
}

} // verus!
