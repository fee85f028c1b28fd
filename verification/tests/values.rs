use midi_types::{Channel, Control, Note, Program, QuarterFrame, Value14, Value7};

fn value14_from_f32(value: f32) -> Value14 {
    Value14::from((value * if value > 0.0 { 8191.0 } else { 8192.0 }) as i16)
}

fn value14_to_f32(value: Value14) -> f32 {
    let v: i16 = value.into();
    let v = v as f32 / if v > 0 { 8191.0 } else { 8192.0 };
    v.clamp(-1.0, 1.0)
}

#[test]
fn message_should_combine_7_bit_vals_into_14() {
    let val = Value14::new(0b01010101u8, 0b01010111u8);
    assert_eq!(0b0010101011010111u16, val.into());
    assert_eq!((0b01010101u8, 0b01010111u8), val.into())
}

#[test]
fn conversion_u16_14() {
    let val: Value14 = Value14::from(16383u16);
    assert_eq!((127, 127), val.into());
    assert_eq!(16383u16, val.into());

    let val: Value14 = Value14::from(16256u16);
    assert_eq!((127, 0), val.into());
    assert_eq!(16256u16, val.into());

    let val: Value14 = Value14::from(127u16);
    assert_eq!((0, 127), val.into());
    assert_eq!(127u16, val.into());

    let val: Value14 = Value14::from(0u16);
    assert_eq!((0, 0), val.into());
    assert_eq!(0u16, val.into());
}

#[test]
fn message_conversion_i16_14() {
    let val: Value14 = Value14::from(8191i16);
    assert_eq!((127, 127), val.into());
    assert_eq!(8191i16, val.into());
    assert_eq!(val, Value14::new(127, 127));

    let val: Value14 = Value14::from(8190i16);
    assert_eq!((127, 126), val.into());
    assert_eq!(8190i16, val.into());

    let val: Value14 = Value14::from(-8192i16);
    assert_eq!((0, 0), val.into());
    assert_eq!(-8192i16, val.into());

    let val: Value14 = Value14::from(0i16);
    assert_eq!((64, 0), val.into());
    assert_eq!(0i16, val.into());

    let val: Value14 = Value14::from(1i16);
    assert_eq!((64, 1), val.into());
    assert_eq!(1i16, val.into());
}

#[test]
fn message_conversion_f32_14() {
    let val: Value14 = value14_from_f32(0.0f32);
    assert_eq!((64, 0), val.into());
    assert_eq!(0.0f32, value14_to_f32(val));

    let val: Value14 = value14_from_f32(1.0f32);
    assert_eq!((127, 127), val.into());
    assert_eq!(1.0f32, value14_to_f32(val));

    let val: Value14 = value14_from_f32(-1.0f32);
    assert_eq!((0, 0), val.into());
    assert_eq!(-1.0f32, value14_to_f32(val));
}

#[test]
fn midi_should_combine_7_bit_vals_into_14() {
    let val: Value14 = (0b01010101u8, 0b01010101u8).into();
    assert_eq!(0b0010101011010101u16, val.into());
}

#[test]
fn should_split_14_bit_val_into_7() {
    let val: Value14 = 0b0011001100110011u16.into();
    assert_eq!((0b01100110u8, 0b00110011u8), val.into())
}

#[test]
fn midi_conversion_i16_14() {
    let val: Value14 = Value14::from(8191i16);
    assert_eq!((127, 127), val.into());
    assert_eq!(8191i16, val.into());

    //clamped
    let val: Value14 = Value14::from(8192i16);
    assert_eq!((127, 127), val.into());
    assert_eq!(8191i16, val.into());

    let val: Value14 = Value14::from(8190i16);
    assert_eq!((127, 126), val.into());
    assert_eq!(8190i16, val.into());

    let val: Value14 = Value14::from(-8192i16);
    assert_eq!((0, 0), val.into());
    assert_eq!(-8192i16, val.into());

    //clamped
    let val: Value14 = Value14::from(-8193i16);
    assert_eq!((0, 0), val.into());
    assert_eq!(-8192i16, val.into());

    let val: Value14 = Value14::from(0i16);
    assert_eq!((64, 0), val.into());
    assert_eq!(0i16, val.into());

    let val: Value14 = Value14::from(1i16);
    assert_eq!((64, 1), val.into());
    assert_eq!(1i16, val.into());
}

#[test]
fn midi_conversion_f32_14() {
    let val: Value14 = value14_from_f32(0.0f32);
    assert_eq!((64, 0), val.into());
    assert_eq!(0.0f32, value14_to_f32(val));

    let val: Value14 = value14_from_f32(1.0f32);
    assert_eq!((127, 127), val.into());
    assert_eq!(1.0f32, value14_to_f32(val));

    let val: Value14 = value14_from_f32(-1.0f32);
    assert_eq!((0, 0), val.into());
    assert_eq!(-1.0f32, value14_to_f32(val));
}

#[test]
fn channel_saturates_at_15() {
    for v in 0..=255u8 {
        let channel = Channel::new(v);
        assert!(channel.value() <= 15);
        assert_eq!(channel.value(), v.min(15));
        assert_eq!(u8::from(Channel::from(v)), v.min(15));
    }
}

#[test]
fn data_values_saturate_at_127() {
    for v in 0..=255u8 {
        assert_eq!(Value7::new(v).value(), v.min(127));
        assert_eq!(Control::new(v).value(), v.min(127));
        assert_eq!(Program::new(v).value(), v.min(127));
        assert_eq!(QuarterFrame::new(v).value(), v.min(127));
        assert_eq!(Note::new(v).value(), v.min(127));
        assert_eq!(u8::from(Value7::from(v)), v.min(127));
        assert_eq!(u8::from(Control::from(v)), v.min(127));
        assert_eq!(u8::from(Program::from(v)), v.min(127));
        assert_eq!(u8::from(QuarterFrame::from(v)), v.min(127));
        assert_eq!(u8::from(Note::from(v)), v.min(127));
    }
}

#[test]
fn saturation_at_the_bounds() {
    assert_eq!(Channel::new(15).value(), 15);
    assert_eq!(Channel::new(16).value(), 15);
    assert_eq!(Value7::new(127).value(), 127);
    assert_eq!(Value7::new(128).value(), 127);
    assert_eq!(Control::new(126).value(), 126);
    assert_eq!(Program::new(255).value(), 127);
    assert_eq!(QuarterFrame::new(0).value(), 0);
}

#[test]
fn named_channels_count_from_one() {
    assert_eq!(Channel::C1(), Channel::new(0));
    assert_eq!(Channel::C2(), Channel::new(1));
    assert_eq!(Channel::C10(), Channel::new(9));
    assert_eq!(Channel::C16(), Channel::new(15));
    assert_eq!(Channel::MIN(), Channel::C1());
    assert_eq!(Channel::MAX(), Channel::C16());
}

#[test]
fn value14_number_is_128_msb_plus_lsb() {
    for msb in 0..=127u8 {
        for lsb in 0..=127u8 {
            let value = Value14::new(msb, lsb);
            assert_eq!(u16::from(value), msb as u16 * 128 + lsb as u16);
            assert_eq!(<(u8, u8)>::from(value), (msb, lsb));
            assert_eq!(Value14::from((msb, lsb)), value);
        }
    }
    assert_eq!(u16::from(Value14::new(1, 2)), 130);
}

#[test]
fn value14_bytes_saturate_at_127() {
    assert_eq!(Value14::new(200, 3), Value14::new(127, 3));
    assert_eq!(Value14::new(4, 128), Value14::new(4, 127));
    assert_eq!(u16::from(Value14::new(255, 255)), 16383);
    assert_eq!(Value14::from((255u8, 0u8)), Value14::new(127, 0));
}

#[test]
fn value14_from_number_saturates_at_16383() {
    for number in 0..=16383u16 {
        assert_eq!(u16::from(Value14::from(number)), number);
    }
    assert_eq!(u16::from(Value14::from(16384u16)), 16383);
    assert_eq!(u16::from(Value14::from(40000u16)), 16383);
    assert_eq!(u16::from(Value14::from(u16::MAX)), 16383);
    assert_eq!(<(u8, u8)>::from(Value14::from(300u16)), (2, 44));
}

#[test]
fn value14_signed_reading_round_trips() {
    for number in -8192..=8191i16 {
        assert_eq!(i16::from(Value14::from(number)), number);
    }
}

#[test]
fn value14_signed_reading_saturates() {
    assert_eq!(i16::from(Value14::from(i16::MIN)), -8192);
    assert_eq!(i16::from(Value14::from(i16::MAX)), 8191);
    assert_eq!(i16::from(Value14::from(-8193i16)), -8192);
    assert_eq!(i16::from(Value14::from(8192i16)), 8191);
    assert_eq!(u16::from(Value14::from(0i16)), 8192);
    assert_eq!(u16::from(Value14::from(-1i16)), 8191);
    assert_eq!(i16::from(Value14::new(0, 0)), -8192);
    assert_eq!(i16::from(Value14::new(127, 127)), 8191);
}
