//! Classification of characters into the Hangul-related Unicode ranges:
//! composed syllables, conjoining jamo (modern or ancient), and
//! compatibility jamo (modern or ancient).

use vstd::prelude::*;

verus! {

/// Whether a character belongs to the modern script or the ancient one.
#[derive(Copy, Clone, Debug, PartialEq, Eq, Structural)]
pub enum Modernity {
    Modern,
    Ancient,
}

/// The Hangul-related range a character falls in.
#[derive(Copy, Clone, Debug, PartialEq, Eq, Structural)]
pub enum DataClass {
    Syllable,
    SyllableNFD,
    Jamo(Modernity),
    CompatibillityJamo(Modernity),
}

/// The Hangul-related range the scalar `v` falls in, if any: the composed
/// syllables, the conjoining-jamo block (modern where the scalar lies in one
/// of the three modern phoneme ranges, else ancient), or one of the two
/// compatibility-jamo ranges.
pub open spec fn spec_data_class(v: int) -> Option<DataClass> {
    if 0xAC00 <= v <= 0xD7A3 {
        Some(DataClass::Syllable)
    } else if 0x1100 <= v <= 0x11FF {
        if (0x1100 <= v <= 0x1112) || (0x1161 <= v <= 0x1175) || (0x11A8 <= v <= 0x11C2) {
            Some(DataClass::Jamo(Modernity::Modern))
        } else {
            Some(DataClass::Jamo(Modernity::Ancient))
        }
    } else if 0x3131 <= v <= 0x3163 {
        Some(DataClass::CompatibillityJamo(Modernity::Modern))
    } else if 0x3165 <= v <= 0x318E {
        Some(DataClass::CompatibillityJamo(Modernity::Ancient))
    } else {
        None
    }
}

impl DataClass {
    /// The Hangul-related range `data` falls in, or None outside them all.
    pub fn of_char(data: char) -> (r: Option<DataClass>)
        ensures
            r == spec_data_class(data as int),
    {
        let v = data as u32;
        if 0xAC00 <= v && v <= 0xD7A3 {
            Some(DataClass::Syllable)
        } else if 0x1100 <= v && v <= 0x11FF {
            if (0x1100 <= v && v <= 0x1112) || (0x1161 <= v && v <= 0x1175) || (0x11A8 <= v
                && v <= 0x11C2) {
                Some(DataClass::Jamo(Modernity::Modern))
            } else {
                Some(DataClass::Jamo(Modernity::Ancient))
            }
        } else if 0x3131 <= v && v <= 0x3163 {
            Some(DataClass::CompatibillityJamo(Modernity::Modern))
        } else if 0x3165 <= v && v <= 0x318E {
            Some(DataClass::CompatibillityJamo(Modernity::Ancient))
        } else {
            None
        }
    }
}

/// The Hangul-related range a character falls in, the non-Hangul case as a
/// variant of its own.
#[derive(Copy, Clone, Debug, PartialEq, Eq, Structural)]
pub enum Class {
    NonHangeul,
    Syllable,
    Jamo(Modernity),
    CompatibillityJamo(Modernity),
}

/// The Hangul-related range the scalar `v` falls in, with NonHangeul
/// standing in outside them all.
pub open spec fn spec_class(v: int) -> Class {
    if 0xAC00 <= v <= 0xD7A3 {
        Class::Syllable
    } else if 0x1100 <= v <= 0x11FF {
        if (0x1100 <= v <= 0x1112) || (0x1161 <= v <= 0x1175) || (0x11A8 <= v <= 0x11C2) {
            Class::Jamo(Modernity::Modern)
        } else {
            Class::Jamo(Modernity::Ancient)
        }
    } else if 0x3131 <= v <= 0x3163 {
        Class::CompatibillityJamo(Modernity::Modern)
    } else if 0x3165 <= v <= 0x318E {
        Class::CompatibillityJamo(Modernity::Ancient)
    } else {
        Class::NonHangeul
    }
}

impl Class {
    /// The Hangul-related range `data` falls in.
    pub fn of_char(data: char) -> (r: Class)
        ensures
            r == spec_class(data as int),
    {
        let v = data as u32;
        if 0xAC00 <= v && v <= 0xD7A3 {
            Class::Syllable
        } else if 0x1100 <= v && v <= 0x11FF {
            if (0x1100 <= v && v <= 0x1112) || (0x1161 <= v && v <= 0x1175) || (0x11A8 <= v
                && v <= 0x11C2) {
                Class::Jamo(Modernity::Modern)
            } else {
                Class::Jamo(Modernity::Ancient)
            }
        } else if 0x3131 <= v && v <= 0x3163 {
            Class::CompatibillityJamo(Modernity::Modern)
        } else if 0x3165 <= v && v <= 0x318E {
            Class::CompatibillityJamo(Modernity::Ancient)
        } else {
            Class::NonHangeul
        }
    }
}

} // verus!
