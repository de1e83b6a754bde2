//! Memory allocation options of the runtime.

use vstd::prelude::*;
use crate::text::{decimal, push_char, push_decimal};

verus! {

/// A unit of memory size.
#[derive(Debug, Clone, Copy, PartialEq, Eq, Structural)]
pub enum AllocUnit {
    Kb,
    Mb,
    Gb,
}

/// The letter a unit is written with.
pub open spec fn unit_letter(u: AllocUnit) -> char {
    match u {
        AllocUnit::Kb => 'K',
        AllocUnit::Mb => 'M',
        AllocUnit::Gb => 'G',
    }
}

impl AllocUnit {
    /// The unit a letter names, either case; `None` for any other string.
    pub fn from_str(value: &str) -> (r: Option<AllocUnit>)
        ensures
            r == (if value@ == seq!['K'] || value@ == seq!['k'] {
                Some(AllocUnit::Kb)
            } else if value@ == seq!['M'] || value@ == seq!['m'] {
                Some(AllocUnit::Mb)
            } else if value@ == seq!['G'] || value@ == seq!['g'] {
                Some(AllocUnit::Gb)
            } else {
                None
            }),
    {
        if value.unicode_len() != 1 {
            return None;
        }
        let c = value.get_char(0);
        assert(value@ =~= seq![c]);
        if c == 'K' || c == 'k' {
            Some(AllocUnit::Kb)
        } else if c == 'M' || c == 'm' {
            Some(AllocUnit::Mb)
        } else if c == 'G' || c == 'g' {
            Some(AllocUnit::Gb)
        } else {
            None
        }
    }

    /// The letter the unit is written with.
    pub fn letter(&self) -> (r: char)
        ensures
            r == unit_letter(*self),
    {
        match self {
            AllocUnit::Kb => 'K',
            AllocUnit::Mb => 'M',
            AllocUnit::Gb => 'G',
        }
    }
}

/// The initial and maximum heap sizes, in one unit.
#[derive(Debug, Clone, Copy, PartialEq, Eq, Structural)]
pub struct AllocOptions {
    pub unit: AllocUnit,
    pub min: u64,
    pub max: u64,
}

/// A heap size argument: `-Xm`, the flag letter, the size and the unit.
pub open spec fn heap_arg(flag: char, n: u64, u: AllocUnit) -> Seq<char> {
    seq!['-', 'X', 'm', flag] + decimal(n as nat) + seq![unit_letter(u)]
}

fn heap_arg_of(flag: char, n: u64, u: AllocUnit) -> (r: String)
    ensures
        r@ == heap_arg(flag, n, u),
{
    let mut s = String::new();
    push_char(&mut s, '-');
    push_char(&mut s, 'X');
    push_char(&mut s, 'm');
    push_char(&mut s, flag);
    push_decimal(&mut s, n);
    push_char(&mut s, u.letter());
    assert(s@ =~= heap_arg(flag, n, u));
    s
}

impl AllocOptions {
    /// Options with distinct initial and maximum sizes.
    pub fn range(unit: AllocUnit, min: u64, max: u64) -> (r: AllocOptions)
        ensures
            r == (AllocOptions { unit, min, max }),
    {
        AllocOptions { unit, min, max }
    }

    /// Options with one size for both.
    pub fn single(unit: AllocUnit, value: u64) -> (r: AllocOptions)
        ensures
            r == (AllocOptions { unit, min: value, max: value }),
    {
        AllocOptions { unit, min: value, max: value }
    }

    /// The runtime arguments: `-Xms<min><unit>` and `-Xmx<max><unit>`.
    pub fn to_args(&self) -> (r: [String; 2])
        ensures
            r[0]@ == heap_arg('s', self.min, self.unit),
            r[1]@ == heap_arg('x', self.max, self.unit),
    {
        [heap_arg_of('s', self.min, self.unit), heap_arg_of('x', self.max, self.unit)]
    }
}

impl Default for AllocOptions {
    fn default() -> (r: AllocOptions)
        ensures
            r == (AllocOptions { unit: AllocUnit::Mb, min: 512, max: 2048 }),
    {
        AllocOptions { unit: AllocUnit::Mb, min: 512, max: 2048 }
    }
}

} // verus!
