//! The notes by name: `Note::C3()` is the C of octave 3, `Note::Fs2m()` the F sharp
//! of octave -2. Octaves run from -2, written `2m`, to 8, which ends at G.

use crate::note::{Note, NoteName};
use vstd::prelude::*;

verus! {

#[allow(non_snake_case)]
impl Note {
    /// C in octave -2.
    pub fn C2m() -> (r: Note)
        ensures
            r@ == 0,
            r == Note::with_name(NoteName::C, -2i8),
    {
        Note(0)
    }

    /// C sharp in octave -2.
    pub fn Cs2m() -> (r: Note)
        ensures
            r@ == 1,
            r == Note::with_name(NoteName::Cs, -2i8),
    {
        Note(1)
    }

    /// D in octave -2.
    pub fn D2m() -> (r: Note)
        ensures
            r@ == 2,
            r == Note::with_name(NoteName::D, -2i8),
    {
        Note(2)
    }

    /// D sharp in octave -2.
    pub fn Ds2m() -> (r: Note)
        ensures
            r@ == 3,
            r == Note::with_name(NoteName::Ds, -2i8),
    {
        Note(3)
    }

    /// E in octave -2.
    pub fn E2m() -> (r: Note)
        ensures
            r@ == 4,
            r == Note::with_name(NoteName::E, -2i8),
    {
        Note(4)
    }

    /// F in octave -2.
    pub fn F2m() -> (r: Note)
        ensures
            r@ == 5,
            r == Note::with_name(NoteName::F, -2i8),
    {
        Note(5)
    }

    /// F sharp in octave -2.
    pub fn Fs2m() -> (r: Note)
        ensures
            r@ == 6,
            r == Note::with_name(NoteName::Fs, -2i8),
    {
        Note(6)
    }

    /// G in octave -2.
    pub fn G2m() -> (r: Note)
        ensures
            r@ == 7,
            r == Note::with_name(NoteName::G, -2i8),
    {
        Note(7)
    }

    /// G sharp in octave -2.
    pub fn Gs2m() -> (r: Note)
        ensures
            r@ == 8,
            r == Note::with_name(NoteName::Gs, -2i8),
    {
        Note(8)
    }

    /// A in octave -2.
    pub fn A2m() -> (r: Note)
        ensures
            r@ == 9,
            r == Note::with_name(NoteName::A, -2i8),
    {
        Note(9)
    }

    /// A sharp in octave -2.
    pub fn As2m() -> (r: Note)
        ensures
            r@ == 10,
            r == Note::with_name(NoteName::As, -2i8),
    {
        Note(10)
    }

    /// B in octave -2.
    pub fn B2m() -> (r: Note)
        ensures
            r@ == 11,
            r == Note::with_name(NoteName::B, -2i8),
    {
        Note(11)
    }

    /// C in octave -1.
    pub fn C1m() -> (r: Note)
        ensures
            r@ == 12,
            r == Note::with_name(NoteName::C, -1i8),
    {
        Note(12)
    }

    /// C sharp in octave -1.
    pub fn Cs1m() -> (r: Note)
        ensures
            r@ == 13,
            r == Note::with_name(NoteName::Cs, -1i8),
    {
        Note(13)
    }

    /// D in octave -1.
    pub fn D1m() -> (r: Note)
        ensures
            r@ == 14,
            r == Note::with_name(NoteName::D, -1i8),
    {
        Note(14)
    }

    /// D sharp in octave -1.
    pub fn Ds1m() -> (r: Note)
        ensures
            r@ == 15,
            r == Note::with_name(NoteName::Ds, -1i8),
    {
        Note(15)
    }

    /// E in octave -1.
    pub fn E1m() -> (r: Note)
        ensures
            r@ == 16,
            r == Note::with_name(NoteName::E, -1i8),
    {
        Note(16)
    }

    /// F in octave -1.
    pub fn F1m() -> (r: Note)
        ensures
            r@ == 17,
            r == Note::with_name(NoteName::F, -1i8),
    {
        Note(17)
    }

    /// F sharp in octave -1.
    pub fn Fs1m() -> (r: Note)
        ensures
            r@ == 18,
            r == Note::with_name(NoteName::Fs, -1i8),
    {
        Note(18)
    }

    /// G in octave -1.
    pub fn G1m() -> (r: Note)
        ensures
            r@ == 19,
            r == Note::with_name(NoteName::G, -1i8),
    {
        Note(19)
    }

    /// G sharp in octave -1.
    pub fn Gs1m() -> (r: Note)
        ensures
            r@ == 20,
            r == Note::with_name(NoteName::Gs, -1i8),
    {
        Note(20)
    }

    /// A in octave -1.
    pub fn A1m() -> (r: Note)
        ensures
            r@ == 21,
            r == Note::with_name(NoteName::A, -1i8),
    {
        Note(21)
    }

    /// A sharp in octave -1.
    pub fn As1m() -> (r: Note)
        ensures
            r@ == 22,
            r == Note::with_name(NoteName::As, -1i8),
    {
        Note(22)
    }

    /// B in octave -1.
    pub fn B1m() -> (r: Note)
        ensures
            r@ == 23,
            r == Note::with_name(NoteName::B, -1i8),
    {
        Note(23)
    }

    /// C in octave 0.
    pub fn C0() -> (r: Note)
        ensures
            r@ == 24,
            r == Note::with_name(NoteName::C, 0i8),
    {
        Note(24)
    }

    /// C sharp in octave 0.
    pub fn Cs0() -> (r: Note)
        ensures
            r@ == 25,
            r == Note::with_name(NoteName::Cs, 0i8),
    {
        Note(25)
    }

    /// D in octave 0.
    pub fn D0() -> (r: Note)
        ensures
            r@ == 26,
            r == Note::with_name(NoteName::D, 0i8),
    {
        Note(26)
    }

    /// D sharp in octave 0.
    pub fn Ds0() -> (r: Note)
        ensures
            r@ == 27,
            r == Note::with_name(NoteName::Ds, 0i8),
    {
        Note(27)
    }

    /// E in octave 0.
    pub fn E0() -> (r: Note)
        ensures
            r@ == 28,
            r == Note::with_name(NoteName::E, 0i8),
    {
        Note(28)
    }

    /// F in octave 0.
    pub fn F0() -> (r: Note)
        ensures
            r@ == 29,
            r == Note::with_name(NoteName::F, 0i8),
    {
        Note(29)
    }

    /// F sharp in octave 0.
    pub fn Fs0() -> (r: Note)
        ensures
            r@ == 30,
            r == Note::with_name(NoteName::Fs, 0i8),
    {
        Note(30)
    }

    /// G in octave 0.
    pub fn G0() -> (r: Note)
        ensures
            r@ == 31,
            r == Note::with_name(NoteName::G, 0i8),
    {
        Note(31)
    }

    /// G sharp in octave 0.
    pub fn Gs0() -> (r: Note)
        ensures
            r@ == 32,
            r == Note::with_name(NoteName::Gs, 0i8),
    {
        Note(32)
    }

    /// A in octave 0.
    pub fn A0() -> (r: Note)
        ensures
            r@ == 33,
            r == Note::with_name(NoteName::A, 0i8),
    {
        Note(33)
    }

    /// A sharp in octave 0.
    pub fn As0() -> (r: Note)
        ensures
            r@ == 34,
            r == Note::with_name(NoteName::As, 0i8),
    {
        Note(34)
    }

    /// B in octave 0.
    pub fn B0() -> (r: Note)
        ensures
            r@ == 35,
            r == Note::with_name(NoteName::B, 0i8),
    {
        Note(35)
    }

    /// C in octave 1.
    pub fn C1() -> (r: Note)
        ensures
            r@ == 36,
            r == Note::with_name(NoteName::C, 1i8),
    {
        Note(36)
    }

    /// C sharp in octave 1.
    pub fn Cs1() -> (r: Note)
        ensures
            r@ == 37,
            r == Note::with_name(NoteName::Cs, 1i8),
    {
        Note(37)
    }

    /// D in octave 1.
    pub fn D1() -> (r: Note)
        ensures
            r@ == 38,
            r == Note::with_name(NoteName::D, 1i8),
    {
        Note(38)
    }

    /// D sharp in octave 1.
    pub fn Ds1() -> (r: Note)
        ensures
            r@ == 39,
            r == Note::with_name(NoteName::Ds, 1i8),
    {
        Note(39)
    }

    /// E in octave 1.
    pub fn E1() -> (r: Note)
        ensures
            r@ == 40,
            r == Note::with_name(NoteName::E, 1i8),
    {
        Note(40)
    }

    /// F in octave 1.
    pub fn F1() -> (r: Note)
        ensures
            r@ == 41,
            r == Note::with_name(NoteName::F, 1i8),
    {
        Note(41)
    }

    /// F sharp in octave 1.
    pub fn Fs1() -> (r: Note)
        ensures
            r@ == 42,
            r == Note::with_name(NoteName::Fs, 1i8),
    {
        Note(42)
    }

    /// G in octave 1.
    pub fn G1() -> (r: Note)
        ensures
            r@ == 43,
            r == Note::with_name(NoteName::G, 1i8),
    {
        Note(43)
    }

    /// G sharp in octave 1.
    pub fn Gs1() -> (r: Note)
        ensures
            r@ == 44,
            r == Note::with_name(NoteName::Gs, 1i8),
    {
        Note(44)
    }

    /// A in octave 1.
    pub fn A1() -> (r: Note)
        ensures
            r@ == 45,
            r == Note::with_name(NoteName::A, 1i8),
    {
        Note(45)
    }

    /// A sharp in octave 1.
    pub fn As1() -> (r: Note)
        ensures
            r@ == 46,
            r == Note::with_name(NoteName::As, 1i8),
    {
        Note(46)
    }

    /// B in octave 1.
    pub fn B1() -> (r: Note)
        ensures
            r@ == 47,
            r == Note::with_name(NoteName::B, 1i8),
    {
        Note(47)
    }

    /// C in octave 2.
    pub fn C2() -> (r: Note)
        ensures
            r@ == 48,
            r == Note::with_name(NoteName::C, 2i8),
    {
        Note(48)
    }

    /// C sharp in octave 2.
    pub fn Cs2() -> (r: Note)
        ensures
            r@ == 49,
            r == Note::with_name(NoteName::Cs, 2i8),
    {
        Note(49)
    }

    /// D in octave 2.
    pub fn D2() -> (r: Note)
        ensures
            r@ == 50,
            r == Note::with_name(NoteName::D, 2i8),
    {
        Note(50)
    }

    /// D sharp in octave 2.
    pub fn Ds2() -> (r: Note)
        ensures
            r@ == 51,
            r == Note::with_name(NoteName::Ds, 2i8),
    {
        Note(51)
    }

    /// E in octave 2.
    pub fn E2() -> (r: Note)
        ensures
            r@ == 52,
            r == Note::with_name(NoteName::E, 2i8),
    {
        Note(52)
    }

    /// F in octave 2.
    pub fn F2() -> (r: Note)
        ensures
            r@ == 53,
            r == Note::with_name(NoteName::F, 2i8),
    {
        Note(53)
    }

    /// F sharp in octave 2.
    pub fn Fs2() -> (r: Note)
        ensures
            r@ == 54,
            r == Note::with_name(NoteName::Fs, 2i8),
    {
        Note(54)
    }

    /// G in octave 2.
    pub fn G2() -> (r: Note)
        ensures
            r@ == 55,
            r == Note::with_name(NoteName::G, 2i8),
    {
        Note(55)
    }

    /// G sharp in octave 2.
    pub fn Gs2() -> (r: Note)
        ensures
            r@ == 56,
            r == Note::with_name(NoteName::Gs, 2i8),
    {
        Note(56)
    }

    /// A in octave 2.
    pub fn A2() -> (r: Note)
        ensures
            r@ == 57,
            r == Note::with_name(NoteName::A, 2i8),
    {
        Note(57)
    }

    /// A sharp in octave 2.
    pub fn As2() -> (r: Note)
        ensures
            r@ == 58,
            r == Note::with_name(NoteName::As, 2i8),
    {
        Note(58)
    }

    /// B in octave 2.
    pub fn B2() -> (r: Note)
        ensures
            r@ == 59,
            r == Note::with_name(NoteName::B, 2i8),
    {
        Note(59)
    }

    /// C in octave 3.
    pub fn C3() -> (r: Note)
        ensures
            r@ == 60,
            r == Note::with_name(NoteName::C, 3i8),
    {
        Note(60)
    }

    /// C sharp in octave 3.
    pub fn Cs3() -> (r: Note)
        ensures
            r@ == 61,
            r == Note::with_name(NoteName::Cs, 3i8),
    {
        Note(61)
    }

    /// D in octave 3.
    pub fn D3() -> (r: Note)
        ensures
            r@ == 62,
            r == Note::with_name(NoteName::D, 3i8),
    {
        Note(62)
    }

    /// D sharp in octave 3.
    pub fn Ds3() -> (r: Note)
        ensures
            r@ == 63,
            r == Note::with_name(NoteName::Ds, 3i8),
    {
        Note(63)
    }

    /// E in octave 3.
    pub fn E3() -> (r: Note)
        ensures
            r@ == 64,
            r == Note::with_name(NoteName::E, 3i8),
    {
        Note(64)
    }

    /// F in octave 3.
    pub fn F3() -> (r: Note)
        ensures
            r@ == 65,
            r == Note::with_name(NoteName::F, 3i8),
    {
        Note(65)
    }

    /// F sharp in octave 3.
    pub fn Fs3() -> (r: Note)
        ensures
            r@ == 66,
            r == Note::with_name(NoteName::Fs, 3i8),
    {
        Note(66)
    }

    /// G in octave 3.
    pub fn G3() -> (r: Note)
        ensures
            r@ == 67,
            r == Note::with_name(NoteName::G, 3i8),
    {
        Note(67)
    }

    /// G sharp in octave 3.
    pub fn Gs3() -> (r: Note)
        ensures
            r@ == 68,
            r == Note::with_name(NoteName::Gs, 3i8),
    {
        Note(68)
    }

    /// A in octave 3.
    pub fn A3() -> (r: Note)
        ensures
            r@ == 69,
            r == Note::with_name(NoteName::A, 3i8),
    {
        Note(69)
    }

    /// A sharp in octave 3.
    pub fn As3() -> (r: Note)
        ensures
            r@ == 70,
            r == Note::with_name(NoteName::As, 3i8),
    {
        Note(70)
    }

    /// B in octave 3.
    pub fn B3() -> (r: Note)
        ensures
            r@ == 71,
            r == Note::with_name(NoteName::B, 3i8),
    {
        Note(71)
    }

    /// C in octave 4.
    pub fn C4() -> (r: Note)
        ensures
            r@ == 72,
            r == Note::with_name(NoteName::C, 4i8),
    {
        Note(72)
    }

    /// C sharp in octave 4.
    pub fn Cs4() -> (r: Note)
        ensures
            r@ == 73,
            r == Note::with_name(NoteName::Cs, 4i8),
    {
        Note(73)
    }

    /// D in octave 4.
    pub fn D4() -> (r: Note)
        ensures
            r@ == 74,
            r == Note::with_name(NoteName::D, 4i8),
    {
        Note(74)
    }

    /// D sharp in octave 4.
    pub fn Ds4() -> (r: Note)
        ensures
            r@ == 75,
            r == Note::with_name(NoteName::Ds, 4i8),
    {
        Note(75)
    }

    /// E in octave 4.
    pub fn E4() -> (r: Note)
        ensures
            r@ == 76,
            r == Note::with_name(NoteName::E, 4i8),
    {
        Note(76)
    }

    /// F in octave 4.
    pub fn F4() -> (r: Note)
        ensures
            r@ == 77,
            r == Note::with_name(NoteName::F, 4i8),
    {
        Note(77)
    }

    /// F sharp in octave 4.
    pub fn Fs4() -> (r: Note)
        ensures
            r@ == 78,
            r == Note::with_name(NoteName::Fs, 4i8),
    {
        Note(78)
    }

    /// G in octave 4.
    pub fn G4() -> (r: Note)
        ensures
            r@ == 79,
            r == Note::with_name(NoteName::G, 4i8),
    {
        Note(79)
    }

    /// G sharp in octave 4.
    pub fn Gs4() -> (r: Note)
        ensures
            r@ == 80,
            r == Note::with_name(NoteName::Gs, 4i8),
    {
        Note(80)
    }

    /// A in octave 4.
    pub fn A4() -> (r: Note)
        ensures
            r@ == 81,
            r == Note::with_name(NoteName::A, 4i8),
    {
        Note(81)
    }

    /// A sharp in octave 4.
    pub fn As4() -> (r: Note)
        ensures
            r@ == 82,
            r == Note::with_name(NoteName::As, 4i8),
    {
        Note(82)
    }

    /// B in octave 4.
    pub fn B4() -> (r: Note)
        ensures
            r@ == 83,
            r == Note::with_name(NoteName::B, 4i8),
    {
        Note(83)
    }

    /// C in octave 5.
    pub fn C5() -> (r: Note)
        ensures
            r@ == 84,
            r == Note::with_name(NoteName::C, 5i8),
    {
        Note(84)
    }

    /// C sharp in octave 5.
    pub fn Cs5() -> (r: Note)
        ensures
            r@ == 85,
            r == Note::with_name(NoteName::Cs, 5i8),
    {
        Note(85)
    }

    /// D in octave 5.
    pub fn D5() -> (r: Note)
        ensures
            r@ == 86,
            r == Note::with_name(NoteName::D, 5i8),
    {
        Note(86)
    }

    /// D sharp in octave 5.
    pub fn Ds5() -> (r: Note)
        ensures
            r@ == 87,
            r == Note::with_name(NoteName::Ds, 5i8),
    {
        Note(87)
    }

    /// E in octave 5.
    pub fn E5() -> (r: Note)
        ensures
            r@ == 88,
            r == Note::with_name(NoteName::E, 5i8),
    {
        Note(88)
    }

    /// F in octave 5.
    pub fn F5() -> (r: Note)
        ensures
            r@ == 89,
            r == Note::with_name(NoteName::F, 5i8),
    {
        Note(89)
    }

    /// F sharp in octave 5.
    pub fn Fs5() -> (r: Note)
        ensures
            r@ == 90,
            r == Note::with_name(NoteName::Fs, 5i8),
    {
        Note(90)
    }

    /// G in octave 5.
    pub fn G5() -> (r: Note)
        ensures
            r@ == 91,
            r == Note::with_name(NoteName::G, 5i8),
    {
        Note(91)
    }

    /// G sharp in octave 5.
    pub fn Gs5() -> (r: Note)
        ensures
            r@ == 92,
            r == Note::with_name(NoteName::Gs, 5i8),
    {
        Note(92)
    }

    /// A in octave 5.
    pub fn A5() -> (r: Note)
        ensures
            r@ == 93,
            r == Note::with_name(NoteName::A, 5i8),
    {
        Note(93)
    }

    /// A sharp in octave 5.
    pub fn As5() -> (r: Note)
        ensures
            r@ == 94,
            r == Note::with_name(NoteName::As, 5i8),
    {
        Note(94)
    }

    /// B in octave 5.
    pub fn B5() -> (r: Note)
        ensures
            r@ == 95,
            r == Note::with_name(NoteName::B, 5i8),
    {
        Note(95)
    }

    /// C in octave 6.
    pub fn C6() -> (r: Note)
        ensures
            r@ == 96,
            r == Note::with_name(NoteName::C, 6i8),
    {
        Note(96)
    }

    /// C sharp in octave 6.
    pub fn Cs6() -> (r: Note)
        ensures
            r@ == 97,
            r == Note::with_name(NoteName::Cs, 6i8),
    {
        Note(97)
    }

    /// D in octave 6.
    pub fn D6() -> (r: Note)
        ensures
            r@ == 98,
            r == Note::with_name(NoteName::D, 6i8),
    {
        Note(98)
    }

    /// D sharp in octave 6.
    pub fn Ds6() -> (r: Note)
        ensures
            r@ == 99,
            r == Note::with_name(NoteName::Ds, 6i8),
    {
        Note(99)
    }

    /// E in octave 6.
    pub fn E6() -> (r: Note)
        ensures
            r@ == 100,
            r == Note::with_name(NoteName::E, 6i8),
    {
        Note(100)
    }

    /// F in octave 6.
    pub fn F6() -> (r: Note)
        ensures
            r@ == 101,
            r == Note::with_name(NoteName::F, 6i8),
    {
        Note(101)
    }

    /// F sharp in octave 6.
    pub fn Fs6() -> (r: Note)
        ensures
            r@ == 102,
            r == Note::with_name(NoteName::Fs, 6i8),
    {
        Note(102)
    }

    /// G in octave 6.
    pub fn G6() -> (r: Note)
        ensures
            r@ == 103,
            r == Note::with_name(NoteName::G, 6i8),
    {
        Note(103)
    }

    /// G sharp in octave 6.
    pub fn Gs6() -> (r: Note)
        ensures
            r@ == 104,
            r == Note::with_name(NoteName::Gs, 6i8),
    {
        Note(104)
    }

    /// A in octave 6.
    pub fn A6() -> (r: Note)
        ensures
            r@ == 105,
            r == Note::with_name(NoteName::A, 6i8),
    {
        Note(105)
    }

    /// A sharp in octave 6.
    pub fn As6() -> (r: Note)
        ensures
            r@ == 106,
            r == Note::with_name(NoteName::As, 6i8),
    {
        Note(106)
    }

    /// B in octave 6.
    pub fn B6() -> (r: Note)
        ensures
            r@ == 107,
            r == Note::with_name(NoteName::B, 6i8),
    {
        Note(107)
    }

    /// C in octave 7.
    pub fn C7() -> (r: Note)
        ensures
            r@ == 108,
            r == Note::with_name(NoteName::C, 7i8),
    {
        Note(108)
    }

    /// C sharp in octave 7.
    pub fn Cs7() -> (r: Note)
        ensures
            r@ == 109,
            r == Note::with_name(NoteName::Cs, 7i8),
    {
        Note(109)
    }

    /// D in octave 7.
    pub fn D7() -> (r: Note)
        ensures
            r@ == 110,
            r == Note::with_name(NoteName::D, 7i8),
    {
        Note(110)
    }

    /// D sharp in octave 7.
    pub fn Ds7() -> (r: Note)
        ensures
            r@ == 111,
            r == Note::with_name(NoteName::Ds, 7i8),
    {
        Note(111)
    }

    /// E in octave 7.
    pub fn E7() -> (r: Note)
        ensures
            r@ == 112,
            r == Note::with_name(NoteName::E, 7i8),
    {
        Note(112)
    }

    /// F in octave 7.
    pub fn F7() -> (r: Note)
        ensures
            r@ == 113,
            r == Note::with_name(NoteName::F, 7i8),
    {
        Note(113)
    }

    /// F sharp in octave 7.
    pub fn Fs7() -> (r: Note)
        ensures
            r@ == 114,
            r == Note::with_name(NoteName::Fs, 7i8),
    {
        Note(114)
    }

    /// G in octave 7.
    pub fn G7() -> (r: Note)
        ensures
            r@ == 115,
            r == Note::with_name(NoteName::G, 7i8),
    {
        Note(115)
    }

    /// G sharp in octave 7.
    pub fn Gs7() -> (r: Note)
        ensures
            r@ == 116,
            r == Note::with_name(NoteName::Gs, 7i8),
    {
        Note(116)
    }

    /// A in octave 7.
    pub fn A7() -> (r: Note)
        ensures
            r@ == 117,
            r == Note::with_name(NoteName::A, 7i8),
    {
        Note(117)
    }

    /// A sharp in octave 7.
    pub fn As7() -> (r: Note)
        ensures
            r@ == 118,
            r == Note::with_name(NoteName::As, 7i8),
    {
        Note(118)
    }

    /// B in octave 7.
    pub fn B7() -> (r: Note)
        ensures
            r@ == 119,
            r == Note::with_name(NoteName::B, 7i8),
    {
        Note(119)
    }

    /// C in octave 8.
    pub fn C8() -> (r: Note)
        ensures
            r@ == 120,
            r == Note::with_name(NoteName::C, 8i8),
    {
        Note(120)
    }

    /// C sharp in octave 8.
    pub fn Cs8() -> (r: Note)
        ensures
            r@ == 121,
            r == Note::with_name(NoteName::Cs, 8i8),
    {
        Note(121)
    }

    /// D in octave 8.
    pub fn D8() -> (r: Note)
        ensures
            r@ == 122,
            r == Note::with_name(NoteName::D, 8i8),
    {
        Note(122)
    }

    /// D sharp in octave 8.
    pub fn Ds8() -> (r: Note)
        ensures
            r@ == 123,
            r == Note::with_name(NoteName::Ds, 8i8),
    {
        Note(123)
    }

    /// E in octave 8.
    pub fn E8() -> (r: Note)
        ensures
            r@ == 124,
            r == Note::with_name(NoteName::E, 8i8),
    {
        Note(124)
    }

    /// F in octave 8.
    pub fn F8() -> (r: Note)
        ensures
            r@ == 125,
            r == Note::with_name(NoteName::F, 8i8),
    {
        Note(125)
    }

    /// F sharp in octave 8.
    pub fn Fs8() -> (r: Note)
        ensures
            r@ == 126,
            r == Note::with_name(NoteName::Fs, 8i8),
    {
        Note(126)
    }

    /// G in octave 8.
    pub fn G8() -> (r: Note)
        ensures
            r@ == 127,
            r == Note::with_name(NoteName::G, 8i8),
    {
        Note(127)
    }

    /// The lowest note, C in octave -2.
    pub fn MIN() -> (r: Note)
        ensures
            r@ == 0,
    {
        Note(0)
    }

    /// The highest note, G in octave 8.
    pub fn MAX() -> (r: Note)
        ensures
            r@ == 127,
    {
        Note(127)
    }
}

} // verus!
