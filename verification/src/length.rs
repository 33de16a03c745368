//! The length model: symbolic lengths resolved against parent and screen
//! dimensions into concrete pixel values.

use vstd::prelude::*;

verus! {

/// A non-negative rational scale factor `num / den`, used where a length is
/// declared as a fraction of another length.
#[derive(Clone, Copy, Debug, PartialEq, Eq, Structural)]
pub struct Fraction {
    pub num: u32,
    pub den: u32,
}

/// `length * num / den`, truncated, saturating at `u32::MAX`.
pub open spec fn spec_frac_of(length: int, f: Fraction) -> int {
    let raw = (length * f.num) / f.den as int;
    if raw > u32::MAX as int {
        u32::MAX as int
    } else {
        raw
    }
}

impl Fraction {
    /// A fraction is well formed when its denominator is positive.
    pub open spec fn wf(self) -> bool {
        self.den > 0
    }

    pub fn new(num: u32, den: u32) -> (r: Fraction)
        requires
            den > 0,
        ensures
            r == (Fraction { num, den }),
            r.wf(),
    {
        Fraction { num, den }
    }

    /// Scale `length` by this fraction, truncating, saturating at `u32::MAX`.
    pub fn of_length(self, length: u32) -> (r: u32)
        requires
            self.wf(),
        ensures
            r == spec_frac_of(length as int, self),
    {
        proof {
            assert((length as int) * (self.num as int) <= (u32::MAX as int) * (u32::MAX as int))
                by (nonlinear_arith)
                requires
                    length <= u32::MAX,
                    self.num <= u32::MAX,
            ;
        }
        let wide: u64 = (length as u64) * (self.num as u64);
        let scaled: u64 = wide / (self.den as u64);
        if scaled > u32::MAX as u64 {
            u32::MAX
        } else {
            scaled as u32
        }
    }
}

/// A symbolic length: fixed pixels, a fraction of the screen width or height,
/// or a fraction of the parent's resolved length along the same axis.
#[derive(Clone, Copy, Debug, PartialEq, Eq, Structural)]
pub enum RelativeLength {
    Pixels(u32),
    RelativeScreenWidth(Fraction),
    RelativeScreenHeight(Fraction),
    RelativeParent(Fraction),
}

impl RelativeLength {
    pub open spec fn wf(self) -> bool {
        match self {
            RelativeLength::Pixels(_) => true,
            RelativeLength::RelativeScreenWidth(f) => f.wf(),
            RelativeLength::RelativeScreenHeight(f) => f.wf(),
            RelativeLength::RelativeParent(f) => f.wf(),
        }
    }

    /// The pixel value this length resolves to.
    pub open spec fn spec_resolve(self, parent_length: int, screen_width: int, screen_height: int) -> int {
        match self {
            RelativeLength::Pixels(px) => px as int,
            RelativeLength::RelativeScreenWidth(f) => spec_frac_of(screen_width, f),
            RelativeLength::RelativeScreenHeight(f) => spec_frac_of(screen_height, f),
            RelativeLength::RelativeParent(f) => spec_frac_of(parent_length, f),
        }
    }

    pub fn zero() -> (r: Self)
        ensures
            r == RelativeLength::Pixels(0),
    {
        RelativeLength::Pixels(0)
    }

    /// Resolve this length to pixels. Pure: the result is a function of the
    /// arguments alone.
    pub fn resolve(&self, parent_length: u32, screen_width: u32, screen_height: u32) -> (r: u32)
        requires
            self.wf(),
        ensures
            r == self.spec_resolve(parent_length as int, screen_width as int, screen_height as int),
    {
        match self {
            RelativeLength::Pixels(px) => *px,
            RelativeLength::RelativeScreenWidth(f) => f.of_length(screen_width),
            RelativeLength::RelativeScreenHeight(f) => f.of_length(screen_height),
            RelativeLength::RelativeParent(f) => f.of_length(parent_length),
        }
    }
}

/// A preferred length clamped to an optional minimum and maximum, each
/// independently resolvable.
#[derive(Clone, Copy, Debug)]
pub struct BoundedLength {
    pub preferred_length: RelativeLength,
    pub min_length: Option<RelativeLength>,
    pub max_length: Option<RelativeLength>,
}

impl BoundedLength {
    pub open spec fn wf(self) -> bool {
        &&& self.preferred_length.wf()
        &&& (self.min_length is Some ==> self.min_length->0.wf())
        &&& (self.max_length is Some ==> self.max_length->0.wf())
    }

    /// The resolved minimum; 0 when absent.
    pub open spec fn spec_resolved_min(self, parent_length: int, screen_width: int, screen_height: int) -> int {
        match self.min_length {
            Some(l) => l.spec_resolve(parent_length, screen_width, screen_height),
            None => 0,
        }
    }

    /// The resolved maximum; `u32::MAX` when absent.
    pub open spec fn spec_resolved_max(self, parent_length: int, screen_width: int, screen_height: int) -> int {
        match self.max_length {
            Some(l) => l.spec_resolve(parent_length, screen_width, screen_height),
            None => u32::MAX as int,
        }
    }

    /// The resolved preferred length clamped into `[min, max]`.
    pub open spec fn spec_resolve(self, parent_length: int, screen_width: int, screen_height: int) -> int {
        let pref = self.preferred_length.spec_resolve(parent_length, screen_width, screen_height);
        let lo = self.spec_resolved_min(parent_length, screen_width, screen_height);
        let hi = self.spec_resolved_max(parent_length, screen_width, screen_height);
        if pref < lo {
            lo
        } else if pref > hi {
            hi
        } else {
            pref
        }
    }

    /// A configuration is sound when its resolved minimum does not exceed its
    /// resolved maximum; a declaration violating this is a fatal error.
    pub open spec fn spec_bounds_sound(self, parent_length: int, screen_width: int, screen_height: int) -> bool {
        self.spec_resolved_min(parent_length, screen_width, screen_height)
            <= self.spec_resolved_max(parent_length, screen_width, screen_height)
    }

    pub fn zero() -> (r: Self)
        ensures
            r.preferred_length == RelativeLength::Pixels(0),
            r.min_length == Some(RelativeLength::Pixels(0)),
            r.max_length == Some(RelativeLength::Pixels(0)),
            r.wf(),
    {
        BoundedLength {
            preferred_length: RelativeLength::zero(),
            min_length: Some(RelativeLength::zero()),
            max_length: Some(RelativeLength::zero()),
        }
    }

    /// A length fixed to one symbolic value: preferred, minimum and maximum
    /// all equal.
    pub fn fixed_dependent(length: RelativeLength) -> (r: Self)
        ensures
            r.preferred_length == length,
            r.min_length == Some(length),
            r.max_length == Some(length),
            length.wf() ==> r.wf(),
    {
        BoundedLength {
            preferred_length: length,
            min_length: Some(length),
            max_length: Some(length),
        }
    }

    pub fn fixed_pixels(length: u32) -> (r: Self)
        ensures
            r.preferred_length == RelativeLength::Pixels(length),
            r.min_length == Some(RelativeLength::Pixels(length)),
            r.max_length == Some(RelativeLength::Pixels(length)),
            r.wf(),
    {
        Self::fixed_dependent(RelativeLength::Pixels(length))
    }

    /// Resolve preferred, minimum and maximum, and clamp the preferred value
    /// into the bounds. The bounds must be sound: a declaration whose
    /// resolved minimum exceeds its resolved maximum is a configuration
    /// error, checked by `bounds_sound`.
    pub fn resolve(&self, parent_length: u32, screen_width: u32, screen_height: u32) -> (r: u32)
        requires
            self.wf(),
            self.spec_bounds_sound(parent_length as int, screen_width as int, screen_height as int),
        ensures
            r == self.spec_resolve(parent_length as int, screen_width as int, screen_height as int),
            self.spec_resolved_min(parent_length as int, screen_width as int, screen_height as int) <= r,
            r <= self.spec_resolved_max(parent_length as int, screen_width as int, screen_height as int),
    {
        let pref = self.preferred_length.resolve(parent_length, screen_width, screen_height);
        let lo = match &self.min_length {
            Some(l) => l.resolve(parent_length, screen_width, screen_height),
            None => 0,
        };
        let hi = match &self.max_length {
            Some(l) => l.resolve(parent_length, screen_width, screen_height),
            None => u32::MAX,
        };
        if pref < lo {
            lo
        } else if pref > hi {
            hi
        } else {
            pref
        }
    }

    /// Whether the resolved bounds are sound for the given context, so that
    /// `resolve` may be called.
    pub fn bounds_sound(&self, parent_length: u32, screen_width: u32, screen_height: u32) -> (r: bool)
        requires
            self.wf(),
        ensures
            r == self.spec_bounds_sound(parent_length as int, screen_width as int, screen_height as int),
    {
        let lo = match &self.min_length {
            Some(l) => l.resolve(parent_length, screen_width, screen_height),
            None => 0,
        };
        let hi = match &self.max_length {
            Some(l) => l.resolve(parent_length, screen_width, screen_height),
            None => u32::MAX,
        };
        lo <= hi
    }
}


impl Fraction {
    /// Whether the denominator is positive.
    pub fn check_wf(&self) -> (r: bool)
        ensures
            r == self.wf(),
    {
        self.den > 0
    }
}

impl RelativeLength {
    /// Whether every fraction in this length is well formed.
    pub fn check_wf(&self) -> (r: bool)
        ensures
            r == self.wf(),
    {
        match self {
            RelativeLength::Pixels(_) => true,
            RelativeLength::RelativeScreenWidth(f) => f.check_wf(),
            RelativeLength::RelativeScreenHeight(f) => f.check_wf(),
            RelativeLength::RelativeParent(f) => f.check_wf(),
        }
    }
}

impl BoundedLength {
    /// Whether every length in this bound is well formed.
    pub fn check_wf(&self) -> (r: bool)
        ensures
            r == self.wf(),
    {
        let p = self.preferred_length.check_wf();
        let lo = match &self.min_length {
            Some(l) => l.check_wf(),
            None => true,
        };
        let hi = match &self.max_length {
            Some(l) => l.check_wf(),
            None => true,
        };
        p && lo && hi
    }
}

/// Length resolution is pure: two resolutions of the same bounded length in
/// the same context give the same value.
pub proof fn lemma_resolve_bounded_pure(
    b: BoundedLength,
    parent_length: int,
    screen_width: int,
    screen_height: int,
    r1: int,
    r2: int,
)
    requires
        r1 == b.spec_resolve(parent_length, screen_width, screen_height),
        r2 == b.spec_resolve(parent_length, screen_width, screen_height),
    ensures
        r1 == r2,
{
}

/// The resolved value of a bounded length always lies between its resolved
/// minimum and its resolved maximum, when the bounds are sound.
pub proof fn lemma_resolve_bounded_in_range(
    b: BoundedLength,
    parent_length: int,
    screen_width: int,
    screen_height: int,
)
    requires
        b.spec_bounds_sound(parent_length, screen_width, screen_height),
    ensures
        b.spec_resolved_min(parent_length, screen_width, screen_height)
            <= b.spec_resolve(parent_length, screen_width, screen_height),
        b.spec_resolve(parent_length, screen_width, screen_height)
            <= b.spec_resolved_max(parent_length, screen_width, screen_height),
{
}

} // verus!
