//! Nominal pipe sizes and the thread dimensions that belong to them.

use vstd::prelude::*;
use vstd::string::*;

verus! {

/// Major diameter and pitch of a thread, both in nanometres.
#[derive(Clone, Copy, Debug, PartialEq, Eq, Structural)]
pub struct Dim {
    pub major: u32,
    pub pitch: u32,
}

/// The name of the 1/2 size.
pub open spec fn half_inch() -> Seq<char> {
    seq!['1', '/', '2']
}

/// Whether a name is one of the sizes in the table.
pub open spec fn is_nominal(size: Seq<char>) -> bool {
    ||| size == seq!['1', '/', '4']
    ||| size == seq!['3', '/', '8']
    ||| size == seq!['1', '/', '2']
    ||| size == seq!['3', '/', '4']
    ||| size == seq!['1']
}

/// The dimensions that every name outside the table gets.
pub open spec fn fallback_dim() -> Dim {
    Dim { major: 20_955_000, pitch: 1_814_000 }
}

/// The table of nominal sizes.
pub open spec fn dim_of(size: Seq<char>) -> Dim {
    if size == seq!['1', '/', '4'] {
        Dim { major: 13_157_000, pitch: 1_337_000 }
    } else if size == seq!['3', '/', '8'] {
        Dim { major: 16_662_000, pitch: 1_337_000 }
    } else if size == seq!['1', '/', '2'] {
        Dim { major: 20_955_000, pitch: 1_814_000 }
    } else if size == seq!['3', '/', '4'] {
        Dim { major: 26_441_000, pitch: 1_814_000 }
    } else if size == seq!['1'] {
        Dim { major: 33_249_000, pitch: 2_309_000 }
    } else {
        fallback_dim()
    }
}

/// A name outside the table has the dimensions of the 1/2 size.
pub proof fn unknown_size_is_half_inch(size: Seq<char>)
    requires
        !is_nominal(size),
    ensures
        dim_of(size) == dim_of(half_inch()),
{
    assert(half_inch().len() == 3);
    assert(seq!['1', '/', '4'][2] == '4');
    assert(seq!['3', '/', '8'][2] == '8');
    assert(half_inch()[2] == '2');
}

/// Every size has a thread of a pitch between 1.337 and 2.309 mm and of a
/// major diameter between 13.157 and 33.249 mm.
pub proof fn dims_are_positive(size: Seq<char>)
    ensures
        1_337_000 <= dim_of(size).pitch <= 2_309_000,
        13_157_000 <= dim_of(size).major <= 33_249_000,
{
}

/// Looks a nominal size up in the table.
pub fn bsp_dim(size: &str) -> (d: Dim)
    ensures
        d == dim_of(size@),
{
    let n: usize = size.unicode_len();
    if n == 1 {
        if size.get_char(0) == '1' {
            assert(size@ =~= seq!['1']);
            return Dim { major: 33_249_000, pitch: 2_309_000 };
        }
    } else if n == 3 {
        let c0 = size.get_char(0);
        let c1 = size.get_char(1);
        let c2 = size.get_char(2);
        assert(size@ =~= seq![c0, c1, c2]);
        if c1 == '/' {
            if c0 == '1' && c2 == '4' {
                return Dim { major: 13_157_000, pitch: 1_337_000 };
            } else if c0 == '3' && c2 == '8' {
                return Dim { major: 16_662_000, pitch: 1_337_000 };
            } else if c0 == '1' && c2 == '2' {
                return Dim { major: 20_955_000, pitch: 1_814_000 };
            } else if c0 == '3' && c2 == '4' {
                return Dim { major: 26_441_000, pitch: 1_814_000 };
            }
        }
    }
    proof {
        assert(seq!['1', '/', '4'].len() == 3);
        assert(seq!['1'].len() == 1);
    }
    Dim { major: 20_955_000, pitch: 1_814_000 }
}

} // verus!
