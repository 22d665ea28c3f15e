use mouse_profile::{
    DpiRangeHandler, KailhButtonFilterHandler, ProfileAttributeHandler, Range,
    SingleBinaryAttributeHandler, SingleByteContinuousAttribute, SwitchAttributeHandler,
    Translation,
};

fn lod_range() -> Range {
    Range {
        decode_min: 7,
        decode_step: 1,
        scale: 1,
        code_min: 0,
        code_step: 1,
        code_max: 10,
        unit: String::from("mm"),
    }
}

fn poll_table() -> Translation {
    Translation {
        code: vec![0x08, 0x04, 0x02, 0x01],
        decode: vec![
            String::from("1000Hz"),
            String::from("2000Hz"),
            String::from("4000Hz"),
            String::from("8000Hz"),
        ],
    }
}

#[test]
fn switch_renders_each_byte() {
    let h = SwitchAttributeHandler;
    assert_eq!(h.tostring(&vec![0]), "OFF");
    assert_eq!(h.tostring(&vec![1]), "ON");
    assert_eq!(h.tostring(&vec![2]), "Not Supported");
    assert_eq!(h.tostring(&vec![0xff]), "Not Supported");
}

#[test]
fn switch_validates_zero_and_one_only() {
    let h = SwitchAttributeHandler;
    for b in 0..=255u8 {
        assert_eq!(h.validate(&vec![b]), b == 0 || b == 1, "byte {b}");
    }
}

#[test]
fn continuous_validate_on_grid_bytes_only() {
    let h = SingleByteContinuousAttribute::new(Range {
        decode_min: 0,
        decode_step: 5,
        scale: 0,
        code_min: 2,
        code_step: 3,
        code_max: 20,
        unit: String::new(),
    });
    for b in 0..=255u8 {
        let expected = b >= 2 && b <= 20 && (b - 2) % 3 == 0;
        assert_eq!(h.validate(&vec![b]), expected, "byte {b}");
    }
}

#[test]
fn continuous_validate_unit_step_range() {
    let h = SingleByteContinuousAttribute::new(lod_range());
    for b in 0..=10u8 {
        assert!(h.validate(&vec![b]));
    }
    assert!(!h.validate(&vec![11]));
    assert!(!h.validate(&vec![255]));
}

#[test]
fn continuous_renders_decoded_value_with_unit() {
    let h = SingleByteContinuousAttribute::new(lod_range());
    assert_eq!(h.tostring(&vec![0]), "0.7mm");
    assert_eq!(h.tostring(&vec![3]), "1mm");
    assert_eq!(h.tostring(&vec![5]), "1.2mm");
    assert_eq!(h.tostring(&vec![10]), "1.7mm");
}

#[test]
fn continuous_renders_levels() {
    let h = SingleByteContinuousAttribute::new(Range {
        decode_min: 1,
        decode_step: 1,
        scale: 0,
        code_min: 1,
        code_step: 1,
        code_max: 4,
        unit: String::from(" levels"),
    });
    assert_eq!(h.tostring(&vec![1]), "1 levels");
    assert_eq!(h.tostring(&vec![4]), "4 levels");
}

#[test]
fn continuous_divides_step_by_code_step() {
    let h = SingleByteContinuousAttribute::new(Range {
        decode_min: 100,
        decode_step: 50,
        scale: 0,
        code_min: 10,
        code_step: 2,
        code_max: 20,
        unit: String::from("Hz"),
    });
    assert_eq!(h.tostring(&vec![10]), "100Hz");
    assert_eq!(h.tostring(&vec![12]), "150Hz");
    assert_eq!(h.tostring(&vec![20]), "350Hz");
    // between two grid points the offset is rounded toward the start
    assert_eq!(h.tostring(&vec![13]), "175Hz");
    assert_eq!(h.tostring(&vec![11]), "125Hz");
}

#[test]
fn continuous_renders_negative_and_small_fractions() {
    let h = SingleByteContinuousAttribute::new(Range {
        decode_min: -15,
        decode_step: 5,
        scale: 2,
        code_min: 0,
        code_step: 1,
        code_max: 9,
        unit: String::from("x"),
    });
    assert_eq!(h.tostring(&vec![0]), "-0.15x");
    assert_eq!(h.tostring(&vec![2]), "-0.05x");
    assert_eq!(h.tostring(&vec![3]), "0x");
    assert_eq!(h.tostring(&vec![4]), "0.05x");
    assert_eq!(h.tostring(&vec![5]), "0.1x");
    assert_eq!(h.tostring(&vec![23]), "1x");
}

#[test]
fn continuous_below_code_min_rounds_toward_start() {
    let h = SingleByteContinuousAttribute::new(Range {
        decode_min: 0,
        decode_step: 10,
        scale: 0,
        code_min: 10,
        code_step: 4,
        code_max: 30,
        unit: String::new(),
    });
    assert!(!h.validate(&vec![4]));
    assert_eq!(h.tostring(&vec![4]), "-15");
    assert_eq!(h.tostring(&vec![6]), "-10");
}

#[test]
fn binary_validates_powers_of_two() {
    let h = SingleBinaryAttributeHandler::new(poll_table());
    for b in 0..=255u8 {
        let expected = [1u8, 2, 4, 8, 16, 32, 64, 128].contains(&b);
        assert_eq!(h.validate(&vec![b]), expected, "byte {b}");
    }
}

#[test]
fn binary_renders_table_entries() {
    let h = SingleBinaryAttributeHandler::new(poll_table());
    assert_eq!(h.tostring(&vec![0x08]), "1000Hz");
    assert_eq!(h.tostring(&vec![0x04]), "2000Hz");
    assert_eq!(h.tostring(&vec![0x02]), "4000Hz");
    assert_eq!(h.tostring(&vec![0x01]), "8000Hz");
}

#[test]
fn binary_renders_unknown_codes_as_not_meaningful() {
    let h = SingleBinaryAttributeHandler::new(poll_table());
    // a power of two that the table does not hold still validates
    assert!(h.validate(&vec![0x10]));
    assert_eq!(h.tostring(&vec![0x10]), "value is not meaningful");
    assert_eq!(h.tostring(&vec![0x00]), "value is not meaningful");
    assert_eq!(h.tostring(&vec![0x03]), "value is not meaningful");
}

#[test]
fn binary_takes_first_of_equal_codes() {
    let h = SingleBinaryAttributeHandler::new(Translation {
        code: vec![0x02, 0x04, 0x02],
        decode: vec![String::from("first"), String::from("other"), String::from("second")],
    });
    assert_eq!(h.tostring(&vec![0x02]), "first");
    assert_eq!(h.tostring(&vec![0x04]), "other");
}

#[test]
fn binary_with_empty_table() {
    let h = SingleBinaryAttributeHandler::new(Translation { code: vec![], decode: vec![] });
    assert_eq!(h.tostring(&vec![0x01]), "value is not meaningful");
}

#[test]
fn dpi_renders_little_endian_pairs() {
    let h = DpiRangeHandler;
    assert_eq!(h.tostring(&vec![10, 0, 10, 0]), "10dpi 10dpi");
    assert_eq!(h.tostring(&vec![0xE8, 0x03, 0xE8, 0x03]), "1000dpi 1000dpi");
    assert_eq!(h.tostring(&vec![0x30, 0x75, 0x90, 0x01]), "30000dpi 400dpi");
    assert_eq!(h.tostring(&vec![0xff, 0xff, 0, 0]), "65535dpi 0dpi");
}

#[test]
fn dpi_validates_both_axes() {
    let h = DpiRangeHandler;
    assert!(h.validate(&vec![10, 0, 10, 0]));
    assert!(h.validate(&vec![0xE8, 0x03, 0xE8, 0x03]));
    assert!(h.validate(&vec![0x30, 0x75, 0x30, 0x75]));
    assert!(!h.validate(&vec![0x3a, 0x75, 10, 0]));
    assert!(!h.validate(&vec![10, 0, 15, 0]));
    assert!(!h.validate(&vec![0, 0, 10, 0]));
    assert!(!h.validate(&vec![10, 0, 0, 0]));
}

#[test]
fn button_filter_renders_levels_and_modes() {
    let h = KailhButtonFilterHandler::new();
    assert_eq!(h.tostring(&vec![0xF0]), "GX Safe Mode");
    assert_eq!(h.tostring(&vec![0xF1]), "GX Speed Mode");
    assert_eq!(h.tostring(&vec![0x19]), "25");
    assert_eq!(h.tostring(&vec![0x00]), "0");
    assert_eq!(h.tostring(&vec![0x1a]), "Invalid Value Found");
    assert_eq!(h.tostring(&vec![0xFF]), "Invalid Value Found");
}

#[test]
fn button_filter_renders_with_trailing_bytes() {
    let h = KailhButtonFilterHandler::new();
    assert_eq!(h.tostring(&vec![0xF0, 0x00]), "GX Safe Mode");
    assert_eq!(h.tostring(&vec![0xF1, 0x19]), "GX Speed Mode");
}

#[test]
fn button_filter_validates_levels_and_modes() {
    let h = KailhButtonFilterHandler::new();
    for b in 0..=255u8 {
        let expected = b <= 0x19 || b == 0xF0 || b == 0xF1;
        assert_eq!(h.validate(&vec![b]), expected, "byte {b}");
    }
}
