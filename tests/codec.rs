use sse_engine::codec::{decode_frame, decode_screen_data, encode_frame, encode_screen_data, CodecError};
use sse_engine::icon::Icon;
use sse_engine::keys::WireKey;
use sse_engine::types::{
    DataAccessorData, DynamicImageFrameData, FrameModifiersData, ImageFrameData, LineContent, LineData,
    MultiLineFrameData, ProgressBarModifierData, RangeScreenData, Repeat, ScreenData, ScreenFrameData,
    SingleLineFrameData, TextModifierData,
};
use sse_engine::wire::WireValue;

fn s(x: &str) -> String {
    x.to_string()
}

fn text(prefix: &str) -> LineContent {
    LineContent::Text(TextModifierData { has_text: true, prefix: s(prefix), suffix: s(""), bold: false, wrap: 0 })
}

fn obj(fields: Vec<(&str, WireValue)>) -> WireValue {
    WireValue::Object(fields.into_iter().map(|(k, v)| (s(k), v)).collect())
}

fn bytes(n: usize, b: u8) -> WireValue {
    WireValue::Array((0..n).map(|_| WireValue::Int(b as i64)).collect())
}

fn round_trip(d: ScreenData) {
    let w = encode_screen_data(&d).unwrap();
    let back = decode_screen_data(&w).unwrap();
    assert_eq!(back, d);
}

fn mods() -> FrameModifiersData {
    FrameModifiersData { length_millis: 1500, icon_id: Icon::Clock, repeats: Repeat::Counts(3) }
}

#[test]
fn icon_codes_keep_gaps() {
    assert_eq!(Icon::Hunger.code(), 10);
    assert_eq!(Icon::CPU.code(), 27);
    assert_eq!(Icon::Enemies.code(), 35);
    assert_eq!(Icon::from_code(9), None);
    assert_eq!(Icon::from_code(26), None);
    assert_eq!(Icon::from_code(34), None);
    assert_eq!(Icon::from_code(27), Some(Icon::CPU));
}

#[test]
fn single_line_minimal_round_trip() {
    round_trip(ScreenData::FrameData(ScreenFrameData::SingleLine(SingleLineFrameData {
        content: text("Now "),
        frame_modifiers_data: None,
        data_accessor_data: None,
    })));
}

#[test]
fn single_line_maximal_round_trip() {
    round_trip(ScreenData::FrameData(ScreenFrameData::SingleLine(SingleLineFrameData {
        content: LineContent::Text(TextModifierData {
            has_text: false,
            prefix: s("a"),
            suffix: s("b"),
            bold: true,
            wrap: 2,
        }),
        frame_modifiers_data: Some(mods()),
        data_accessor_data: Some(DataAccessorData { arg: Some(s("x")), context_frame_key: Some(s("k")) }),
    })));
}

#[test]
fn progress_bar_round_trip() {
    round_trip(ScreenData::FrameData(ScreenFrameData::SingleLine(SingleLineFrameData {
        content: LineContent::ProgressBar(ProgressBarModifierData { has_progress_bar: true }),
        frame_modifiers_data: Some(FrameModifiersData {
            length_millis: 0,
            icon_id: Icon::NoIcon,
            repeats: Repeat::Infinite(false),
        }),
        data_accessor_data: Some(DataAccessorData { arg: None, context_frame_key: Some(s("k")) }),
    })));
}

#[test]
fn multi_line_round_trip() {
    round_trip(ScreenData::FrameData(ScreenFrameData::MultiLine(MultiLineFrameData {
        frame_modifiers_data: Some(mods()),
        lines: vec![
            LineData {
                content: text("Now  "),
                data_accessor_data: Some(DataAccessorData { arg: None, context_frame_key: Some(s("curr_game")) }),
            },
            LineData { content: text("Time  "), data_accessor_data: None },
        ],
    })));
    round_trip(ScreenData::FrameData(ScreenFrameData::MultiLine(MultiLineFrameData {
        frame_modifiers_data: None,
        lines: vec![],
    })));
}

#[test]
fn images_round_trip() {
    round_trip(ScreenData::FrameData(ScreenFrameData::Image(ImageFrameData {
        frame_modifiers_data: None,
        image_data: vec![7; 640],
    })));
    round_trip(ScreenData::FrameData(ScreenFrameData::Image(ImageFrameData {
        frame_modifiers_data: Some(mods()),
        image_data: vec![255; 832],
    })));
    round_trip(ScreenData::FrameData(ScreenFrameData::DynamicImage(DynamicImageFrameData {
        image_data_rival: vec![1; 576],
        image_data_apex: vec![2; 640],
        image_data_arctis_pro: vec![3; 768],
        image_data_gamedac: vec![4; 832],
    })));
}

#[test]
fn range_round_trip() {
    round_trip(ScreenData::RangeData(RangeScreenData {
        low: 0,
        high: 50,
        datas: vec![ScreenFrameData::SingleLine(SingleLineFrameData {
            content: text("low"),
            frame_modifiers_data: None,
            data_accessor_data: None,
        })],
    }));
}

#[test]
fn encoding_omits_absent_fields_and_flattens() {
    let f = ScreenFrameData::SingleLine(SingleLineFrameData {
        content: text("p"),
        frame_modifiers_data: None,
        data_accessor_data: Some(DataAccessorData { arg: None, context_frame_key: Some(s("k")) }),
    });
    let expected = obj(vec![
        ("has-text", WireValue::Bool(true)),
        ("prefix", WireValue::Str(s("p"))),
        ("suffix", WireValue::Str(s(""))),
        ("bold", WireValue::Bool(false)),
        ("wrap", WireValue::Int(0)),
        ("context-frame-key", WireValue::Str(s("k"))),
    ]);
    assert_eq!(encode_frame(&f).unwrap(), expected);
}

#[test]
fn repeat_bool_is_infinite_and_int_is_counts() {
    let base = |r: WireValue| {
        obj(vec![
            ("has-progress-bar", WireValue::Bool(true)),
            ("length-millis", WireValue::Int(10)),
            ("icon-id", WireValue::Int(10)),
            ("repeats", r),
        ])
    };
    match decode_frame(&base(WireValue::Bool(true))).unwrap() {
        ScreenFrameData::SingleLine(f) => {
            assert_eq!(f.frame_modifiers_data.unwrap().repeats, Repeat::Infinite(true));
            assert_eq!(f.frame_modifiers_data.unwrap().icon_id, Icon::Hunger);
        },
        _ => panic!("not a single line"),
    }
    match decode_frame(&base(WireValue::Int(4))).unwrap() {
        ScreenFrameData::SingleLine(f) => assert_eq!(f.frame_modifiers_data.unwrap().repeats, Repeat::Counts(4)),
        _ => panic!("not a single line"),
    }
}

#[test]
fn per_device_image_wins_over_single_image() {
    let w = obj(vec![
        ("image-data", bytes(3, 9)),
        ("image-data-128x36", bytes(576, 1)),
        ("image-data-128x40", bytes(640, 1)),
        ("image-data-128x48", bytes(768, 1)),
        ("image-data-128x52", bytes(832, 1)),
    ]);
    assert!(matches!(decode_frame(&w), Ok(ScreenFrameData::DynamicImage(_))));
}

#[test]
fn lines_win_over_single_line_fields() {
    let w = obj(vec![
        ("has-text", WireValue::Bool(true)),
        ("prefix", WireValue::Str(s("x"))),
        ("suffix", WireValue::Str(s(""))),
        ("bold", WireValue::Bool(false)),
        ("wrap", WireValue::Int(0)),
        ("lines", WireValue::Array(vec![])),
    ]);
    match decode_frame(&w) {
        Ok(ScreenFrameData::MultiLine(m)) => assert!(m.lines.is_empty()),
        other => panic!("expected a multi-line frame, got {:?}", other),
    }
}

#[test]
fn wrong_image_length_fails_both_ways() {
    let f = ScreenFrameData::DynamicImage(DynamicImageFrameData {
        image_data_rival: vec![1; 576],
        image_data_apex: vec![2; 639],
        image_data_arctis_pro: vec![3; 768],
        image_data_gamedac: vec![4; 832],
    });
    assert_eq!(encode_frame(&f), Err(CodecError::ImageLength(WireKey::ImageData128x40)));
    let w = obj(vec![
        ("image-data-128x36", bytes(576, 1)),
        ("image-data-128x40", bytes(640, 1)),
        ("image-data-128x48", bytes(768, 1)),
        ("image-data-128x52", bytes(833, 1)),
    ]);
    assert_eq!(decode_frame(&w), Err(CodecError::ImageLength(WireKey::ImageData128x52)));
}

#[test]
fn shapeless_object_is_rejected() {
    let w = obj(vec![("zone", WireValue::Str(s("one")))]);
    assert_eq!(decode_frame(&w), Err(CodecError::NoShape));
    assert_eq!(decode_screen_data(&w), Err(CodecError::NoShape));
    assert_eq!(decode_frame(&WireValue::Int(1)), Err(CodecError::NotAnObject));
}

#[test]
fn missing_and_invalid_fields_are_named() {
    let w = obj(vec![("has-text", WireValue::Bool(true)), ("prefix", WireValue::Str(s("x")))]);
    assert_eq!(decode_frame(&w), Err(CodecError::Missing(WireKey::Suffix)));
    let w = obj(vec![("image-data", WireValue::Array(vec![WireValue::Int(256)]))]);
    assert_eq!(decode_frame(&w), Err(CodecError::Invalid(WireKey::ImageData)));
}

#[test]
fn static_image_of_no_screen_size_fails_both_ways() {
    let f = ScreenFrameData::Image(ImageFrameData { frame_modifiers_data: None, image_data: vec![0, 7, 255] });
    assert_eq!(encode_frame(&f), Err(CodecError::ImageLength(WireKey::ImageData)));
    for n in [576usize, 640, 768, 832] {
        let ok = ScreenFrameData::Image(ImageFrameData { frame_modifiers_data: None, image_data: vec![1; n] });
        assert!(encode_frame(&ok).is_ok());
    }
    let w = obj(vec![("image-data", bytes(577, 1))]);
    assert_eq!(decode_frame(&w), Err(CodecError::ImageLength(WireKey::ImageData)));
}

#[test]
fn image_bytes_may_come_as_a_string() {
    let text: String = "ab".repeat(288);
    let w = obj(vec![("image-data", WireValue::Str(text))]);
    match decode_frame(&w) {
        Ok(ScreenFrameData::Image(i)) => {
            assert_eq!(i.image_data.len(), 576);
            assert_eq!(&i.image_data[0..2], &[b'a', b'b']);
        },
        other => panic!("expected a static image, got {:?}", other),
    }
    let w = obj(vec![("image-data", WireValue::Str("é".repeat(288)))]);
    match decode_frame(&w) {
        Ok(ScreenFrameData::Image(i)) => assert_eq!(&i.image_data[0..2], &[0xC3, 0xA9]),
        other => panic!("expected a static image, got {:?}", other),
    }
}

#[test]
fn empty_accessor_is_refused_on_encoding() {
    let f = ScreenFrameData::SingleLine(SingleLineFrameData {
        content: text("p"),
        frame_modifiers_data: None,
        data_accessor_data: Some(DataAccessorData { arg: None, context_frame_key: None }),
    });
    assert_eq!(encode_frame(&f), Err(CodecError::Invalid(WireKey::Arg)));
    let m = ScreenFrameData::MultiLine(MultiLineFrameData {
        frame_modifiers_data: None,
        lines: vec![LineData { content: text("a"), data_accessor_data: Some(DataAccessorData { arg: None, context_frame_key: None }) }],
    });
    assert_eq!(encode_frame(&m), Err(CodecError::Invalid(WireKey::Arg)));
}

#[test]
fn nested_errors_give_the_path() {
    let bad_line = obj(vec![("has-text", WireValue::Bool(true))]);
    let frame = obj(vec![("lines", WireValue::Array(vec![obj(vec![("has-progress-bar", WireValue::Bool(true))]), bad_line]))]);
    let expected_line_err = CodecError::Item(WireKey::Lines, 1, Box::new(CodecError::Missing(WireKey::Prefix)));
    assert_eq!(decode_frame(&frame), Err(expected_line_err));
    let range = obj(vec![
        ("low", WireValue::Int(0)),
        ("high", WireValue::Int(1)),
        ("datas", WireValue::Array(vec![frame])),
    ]);
    assert_eq!(
        decode_screen_data(&range),
        Err(CodecError::Item(
            WireKey::Datas,
            0,
            Box::new(CodecError::Item(WireKey::Lines, 1, Box::new(CodecError::Missing(WireKey::Prefix))))
        ))
    );
}
