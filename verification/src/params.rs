//! The parameter record that describes one adapter.

use vstd::prelude::*;
use vstd::string::*;

verus! {

/// No length that enters the engine may exceed this many nanometres in
/// either direction, so that every sum of lengths stays within 64 bits.
pub const MAX_EXTENT: i64 = 1_000_000_000_000_000_000;

/// Whether a length is one the engine computes with.
pub open spec fn in_extent(x: int) -> bool {
    -MAX_EXTENT <= x <= MAX_EXTENT
}

/// The thread standard of one end.
#[derive(Clone, Copy, Debug, PartialEq, Eq, Structural)]
pub enum Standard {
    /// Parallel thread: the same diameter along the whole thread.
    Straight,
    /// Tapered thread: the radius changes by 1 in 32 along the axis.
    Tapered,
}

/// Whether a thread is cut on the outside or on the inside.
#[derive(Clone, Copy, Debug, PartialEq, Eq, Structural)]
pub enum Gender {
    Male,
    Female,
}

/// The name under which the tapered standard is written.
pub open spec fn tapered_name() -> Seq<char> {
    seq!['B', 'S', 'P', 'T']
}

/// The name under which an external thread is written.
pub open spec fn male_name() -> Seq<char> {
    seq!['m', 'a', 'l', 'e']
}

/// The standard that a name stands for: `BSPT` is tapered, every other name
/// straight.
pub open spec fn standard_of(name: Seq<char>) -> Standard {
    if name == tapered_name() {
        Standard::Tapered
    } else {
        Standard::Straight
    }
}

/// The gender that a name stands for: `male` is male, every other name
/// female.
pub open spec fn gender_of(name: Seq<char>) -> Gender {
    if name == male_name() {
        Gender::Male
    } else {
        Gender::Female
    }
}

impl Standard {
    /// The standard that a name stands for.
    pub fn from_name(name: &str) -> (standard: Standard)
        ensures
            standard == standard_of(name@),
    {
        if name.unicode_len() == 4 && name.get_char(0) == 'B' && name.get_char(1) == 'S'
            && name.get_char(2) == 'P' && name.get_char(3) == 'T' {
            assert(name@ =~= tapered_name());
            Standard::Tapered
        } else {
            assert(tapered_name().len() == 4);
            Standard::Straight
        }
    }

    /// The name of the standard: `BSPT` for the tapered one, `BSPP` for the
    /// straight one.
    pub fn name(self) -> (name: &'static str)
        ensures
            name@ == match self {
                Standard::Tapered => tapered_name(),
                Standard::Straight => seq!['B', 'S', 'P', 'P'],
            },
            standard_of(name@) == self,
    {
        proof {
            reveal_strlit("BSPT");
            reveal_strlit("BSPP");
        }
        match self {
            Standard::Tapered => {
                assert("BSPT"@ =~= tapered_name());
                "BSPT"
            },
            Standard::Straight => {
                assert("BSPP"@ =~= seq!['B', 'S', 'P', 'P']);
                assert("BSPP"@[3] != tapered_name()[3]);
                "BSPP"
            },
        }
    }
}

impl Gender {
    /// The gender that a name stands for.
    pub fn from_name(name: &str) -> (gender: Gender)
        ensures
            gender == gender_of(name@),
    {
        if name.unicode_len() == 4 && name.get_char(0) == 'm' && name.get_char(1) == 'a'
            && name.get_char(2) == 'l' && name.get_char(3) == 'e' {
            assert(name@ =~= male_name());
            Gender::Male
        } else {
            assert(male_name().len() == 4);
            Gender::Female
        }
    }

    /// The name of the gender: `male` or `female`.
    pub fn name(self) -> (name: &'static str)
        ensures
            name@ == match self {
                Gender::Male => male_name(),
                Gender::Female => seq!['f', 'e', 'm', 'a', 'l', 'e'],
            },
            gender_of(name@) == self,
    {
        proof {
            reveal_strlit("male");
            reveal_strlit("female");
        }
        match self {
            Gender::Male => {
                assert("male"@ =~= male_name());
                "male"
            },
            Gender::Female => {
                assert("female"@ =~= seq!['f', 'e', 'm', 'a', 'l', 'e']);
                assert("female"@.len() != male_name().len());
                "female"
            },
        }
    }
}

/// One of the two ends of an adapter.
#[derive(Clone, Debug)]
pub struct EndSpec {
    pub standard: Standard,
    pub size: String,
    pub gender: Gender,
}

/// An end with its size as a sequence of characters.
pub struct EndSpecView {
    pub standard: Standard,
    pub size: Seq<char>,
    pub gender: Gender,
}

impl View for EndSpec {
    type V = EndSpecView;

    open spec fn view(&self) -> EndSpecView {
        EndSpecView { standard: self.standard, size: self.size@, gender: self.gender }
    }
}

/// The body between the two ends.
#[derive(Clone, Copy, Debug)]
pub struct BodySpec {
    /// Overall length along the axis, in nanometres.
    pub length_nm: i64,
}

/// How finely the surface is tessellated.
#[derive(Clone, Copy, Debug)]
pub struct Resolution {
    /// Facets round the circumference.
    pub radial_segments: usize,
    /// Turns of thread on each end.
    pub turns_per_thread: usize,
}

/// Everything that describes one adapter.
#[derive(Clone, Debug)]
pub struct Params {
    pub end_a: EndSpec,
    pub end_b: EndSpec,
    pub body: BodySpec,
    pub wall_thickness_nm: i64,
    pub tolerance_nm: i64,
    pub resolution: Resolution,
}

/// The parameter record as mathematical values.
pub struct ParamsView {
    pub end_a: EndSpecView,
    pub end_b: EndSpecView,
    pub length: int,
    pub wall_thickness: int,
    pub tolerance: int,
    pub radial_segments: int,
    pub turns_per_thread: int,
}

impl View for Params {
    type V = ParamsView;

    open spec fn view(&self) -> ParamsView {
        ParamsView {
            end_a: self.end_a@,
            end_b: self.end_b@,
            length: self.body.length_nm as int,
            wall_thickness: self.wall_thickness_nm as int,
            tolerance: self.tolerance_nm as int,
            radial_segments: self.resolution.radial_segments as int,
            turns_per_thread: self.resolution.turns_per_thread as int,
        }
    }
}

} // verus!
