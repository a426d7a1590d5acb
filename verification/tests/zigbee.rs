use bifrost::gamut::{ColorGamut, XY};
use bifrost::zigbee::{
    EncodeError, GradientDescriptor, GradientParams, GradientStyle, HueZigbeeUpdate,
};

fn gamut_c_red() -> XY {
    XY { x: 45317, y: 20204 }
}

#[test]
fn worked_scenario() {
    let gamut = ColorGamut::gamut_c();
    let hz = HueZigbeeUpdate::new()
        .with_on_off(true)
        .with_brightness(0x20)
        .with_gradient_colors(
            GradientStyle::Linear,
            vec![gamut.red, gamut.red],
            &gamut,
        )
        .unwrap()
        .with_gradient_params(GradientParams { scale: 0x38, offset: 0x00 });
    let bytes = hz.to_bytes().unwrap();
    assert_eq!(
        bytes,
        vec![
            0x13, 0x01, 0x20, 0x00, 0x02, 0x05, 0xB1, 0xEC, 0x4E, 0x05, 0xB1, 0xEC, 0x4E, 0x38,
            0x00
        ]
    );
    assert_eq!(bytes.len(), 15);
}

#[test]
fn fixed_point_encoding_of_gamut_c_red() {
    let red = ColorGamut::gamut_c().red;
    assert_eq!(red, gamut_c_red());
    let bytes = HueZigbeeUpdate::new().with_single_color(red).to_bytes().unwrap();
    assert_eq!(bytes, vec![0x04, 0x05, 0xB1, 0xEC, 0x4E]);
}

#[test]
fn encoding_is_deterministic() {
    let gamut = ColorGamut::gamut_c();
    let hz = HueZigbeeUpdate::new()
        .with_on_off(false)
        .with_brightness(7)
        .with_single_color(XY { x: 1, y: 2 })
        .with_color_temperature(400)
        .with_gradient_colors(GradientStyle::Scattered, vec![gamut.blue, gamut.green], &gamut)
        .unwrap();
    let first = hz.clone().to_bytes().unwrap();
    let second = hz.to_bytes().unwrap();
    assert_eq!(first, second);
}

#[test]
fn empty_builder_encodes_to_single_zero_flags_byte() {
    let bytes = HueZigbeeUpdate::new().to_bytes().unwrap();
    assert_eq!(bytes, vec![0x00]);
}

#[test]
fn flags_bit_count_matches_present_fields() {
    let cases: Vec<(u32, HueZigbeeUpdate)> = vec![
        (0, HueZigbeeUpdate::new()),
        (1, HueZigbeeUpdate::new().with_on_off(true)),
        (2, HueZigbeeUpdate::new().with_brightness(1).with_color_temperature(200)),
        (
            4,
            HueZigbeeUpdate::new()
                .with_on_off(false)
                .with_brightness(0)
                .with_single_color(XY { x: 0, y: 0 })
                .with_color_temperature(153),
        ),
    ];
    for (expected_fields, hz) in cases {
        let bytes = hz.to_bytes().unwrap();
        assert_eq!(bytes[0].count_ones(), expected_fields);
    }
}

#[test]
fn buffer_length_follows_flags_and_point_count() {
    let gamut = ColorGamut::gamut_c();
    let hz = HueZigbeeUpdate::new()
        .with_on_off(true)
        .with_single_color(XY { x: 9, y: 9 })
        .with_gradient_colors(GradientStyle::Mirrored, vec![gamut.red; 3], &gamut)
        .unwrap();
    let bytes = hz.to_bytes().unwrap();
    let flags = bytes[0];
    assert_eq!(flags, 0b10101);
    // 1 flags byte + 1 power + 4 color + (style + count + 3 * 4 points + scale + offset)
    assert_eq!(bytes.len(), 1 + 1 + 4 + (1 + 1 + 12 + 1 + 1));
}

#[test]
fn brightness_255_rejected_254_accepted() {
    let err = HueZigbeeUpdate::new().with_brightness(255).to_bytes().unwrap_err();
    assert_eq!(err, EncodeError::BrightnessOutOfRange);
    assert!(HueZigbeeUpdate::new().with_brightness(254).to_bytes().is_ok());
}

#[test]
fn mirek_boundaries() {
    let err = HueZigbeeUpdate::new().with_color_temperature(152).to_bytes().unwrap_err();
    assert_eq!(err, EncodeError::MirekOutOfRange);
    assert!(HueZigbeeUpdate::new().with_color_temperature(153).to_bytes().is_ok());
    let err = HueZigbeeUpdate::new().with_color_temperature(501).to_bytes().unwrap_err();
    assert_eq!(err, EncodeError::MirekOutOfRange);
    assert!(HueZigbeeUpdate::new().with_color_temperature(500).to_bytes().is_ok());
}

#[test]
fn gradient_of_nine_points_succeeds() {
    let gamut = ColorGamut::gamut_c();
    let hz = HueZigbeeUpdate::new()
        .with_gradient_colors(GradientStyle::Linear, vec![gamut.red; 9], &gamut)
        .unwrap();
    let bytes = hz.to_bytes().unwrap();
    assert_eq!(bytes[2], 9);
    assert_eq!(bytes.len(), 1 + 1 + 1 + 9 * 4 + 1 + 1);
}

#[test]
fn gradient_of_ten_points_rejected() {
    let gamut = ColorGamut::gamut_c();
    let err = HueZigbeeUpdate::new()
        .with_gradient_colors(GradientStyle::Linear, vec![gamut.red; 10], &gamut)
        .unwrap_err();
    assert_eq!(err, EncodeError::GradientTooLong { attempted: 10, max: 9 });
}

#[test]
fn gradient_of_zero_points_rejected() {
    let gamut = ColorGamut::gamut_c();
    let err = HueZigbeeUpdate::new()
        .with_gradient_colors(GradientStyle::Linear, vec![], &gamut)
        .unwrap_err();
    assert_eq!(err, EncodeError::EmptyGradient);
}

#[test]
fn encoder_rechecks_gradient_length_defensively() {
    let hz = HueZigbeeUpdate {
        on_off: None,
        brightness: None,
        color: None,
        color_temperature: None,
        gradient: Some(GradientDescriptor {
            style: GradientStyle::Linear,
            points: vec![],
            params: GradientParams { scale: 0, offset: 0 },
        }),
    };
    let err = hz.to_bytes().unwrap_err();
    assert_eq!(err, EncodeError::GradientTooLong { attempted: 0, max: 9 });
}

#[test]
fn gradient_params_before_colors_is_a_no_op() {
    let gamut = ColorGamut::gamut_c();
    let hz = HueZigbeeUpdate::new()
        .with_gradient_params(GradientParams { scale: 5, offset: 6 })
        .with_gradient_colors(GradientStyle::Linear, vec![gamut.red], &gamut)
        .unwrap();
    let bytes = hz.to_bytes().unwrap();
    // style, count, one point, then the default scale and offset
    assert_eq!(&bytes[1..], &[0x00, 0x01, 0x05, 0xB1, 0xEC, 0x4E, 0x00, 0x00]);
}

#[test]
fn gradient_params_overwrite_existing_descriptor() {
    let gamut = ColorGamut::gamut_c();
    let hz = HueZigbeeUpdate::new()
        .with_gradient_colors(GradientStyle::Mirrored, vec![gamut.red], &gamut)
        .unwrap()
        .with_gradient_params(GradientParams { scale: 0x11, offset: 0x22 });
    let bytes = hz.to_bytes().unwrap();
    assert_eq!(&bytes[1..], &[0x01, 0x01, 0x05, 0xB1, 0xEC, 0x4E, 0x11, 0x22]);
}

#[test]
fn gradient_colors_are_clamped_into_the_gamut() {
    let gamut = ColorGamut::gamut_c();
    // Far outside the triangle: the encoder must not write the raw point.
    let wild = XY { x: 65535, y: 0 };
    let hz = HueZigbeeUpdate::new()
        .with_gradient_colors(GradientStyle::Linear, vec![wild], &gamut)
        .unwrap();
    let bytes = hz.to_bytes().unwrap();
    let stored = XY {
        x: u16::from_le_bytes([bytes[3], bytes[4]]),
        y: u16::from_le_bytes([bytes[5], bytes[6]]),
    };
    assert_ne!(stored, wild);
    assert!(gamut.inside(stored));
    assert_eq!(stored, gamut.clamp(wild));
}

#[test]
fn single_color_is_stored_raw() {
    // Unlike gradient colors, the single color setter stores the point
    // as given; no gamut is involved.
    let wild = XY { x: 65535, y: 0 };
    let bytes = HueZigbeeUpdate::new().with_single_color(wild).to_bytes().unwrap();
    assert_eq!(bytes, vec![0x04, 0xFF, 0xFF, 0x00, 0x00]);
}

#[test]
fn color_temperature_bytes_are_little_endian() {
    let bytes = HueZigbeeUpdate::new().with_color_temperature(500).to_bytes().unwrap();
    assert_eq!(bytes, vec![0x08, 0xF4, 0x01]);
}
