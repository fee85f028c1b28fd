//! The sixteen channels by the numbers that devices show, 1 to 16.

use crate::message::Channel;
use vstd::prelude::*;

verus! {

#[allow(non_snake_case)]
impl Channel {
    /// MIDI channel 1.
    pub fn C1() -> (r: Channel)
        ensures
            r@ == 0,
    {
        Channel(0)
    }

    /// MIDI channel 2.
    pub fn C2() -> (r: Channel)
        ensures
            r@ == 1,
    {
        Channel(1)
    }

    /// MIDI channel 3.
    pub fn C3() -> (r: Channel)
        ensures
            r@ == 2,
    {
        Channel(2)
    }

    /// MIDI channel 4.
    pub fn C4() -> (r: Channel)
        ensures
            r@ == 3,
    {
        Channel(3)
    }

    /// MIDI channel 5.
    pub fn C5() -> (r: Channel)
        ensures
            r@ == 4,
    {
        Channel(4)
    }

    /// MIDI channel 6.
    pub fn C6() -> (r: Channel)
        ensures
            r@ == 5,
    {
        Channel(5)
    }

    /// MIDI channel 7.
    pub fn C7() -> (r: Channel)
        ensures
            r@ == 6,
    {
        Channel(6)
    }

    /// MIDI channel 8.
    pub fn C8() -> (r: Channel)
        ensures
            r@ == 7,
    {
        Channel(7)
    }

    /// MIDI channel 9.
    pub fn C9() -> (r: Channel)
        ensures
            r@ == 8,
    {
        Channel(8)
    }

    /// MIDI channel 10.
    pub fn C10() -> (r: Channel)
        ensures
            r@ == 9,
    {
        Channel(9)
    }

    /// MIDI channel 11.
    pub fn C11() -> (r: Channel)
        ensures
            r@ == 10,
    {
        Channel(10)
    }

    /// MIDI channel 12.
    pub fn C12() -> (r: Channel)
        ensures
            r@ == 11,
    {
        Channel(11)
    }

    /// MIDI channel 13.
    pub fn C13() -> (r: Channel)
        ensures
            r@ == 12,
    {
        Channel(12)
    }

    /// MIDI channel 14.
    pub fn C14() -> (r: Channel)
        ensures
            r@ == 13,
    {
        Channel(13)
    }

    /// MIDI channel 15.
    pub fn C15() -> (r: Channel)
        ensures
            r@ == 14,
    {
        Channel(14)
    }

    /// MIDI channel 16.
    pub fn C16() -> (r: Channel)
        ensures
            r@ == 15,
    {
        Channel(15)
    }

    /// The lowest channel, MIDI channel 1.
    pub fn MIN() -> (r: Channel)
        ensures
            r@ == 0,
    {
        Channel(0)
    }

    /// The highest channel, MIDI channel 16.
    pub fn MAX() -> (r: Channel)
        ensures
            r@ == 15,
    {
        Channel(15)
    }
}

} // verus!
