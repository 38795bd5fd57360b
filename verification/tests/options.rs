use media_lib::CodecOption;
use media_lib::OptionValue;
use media_lib::RawCodecOption;
use media_lib::RawOptionKind;
use media_lib::classify_option;
use media_lib::get_codec_private_options;

fn raw(kind: RawOptionKind) -> RawCodecOption {
    RawCodecOption {
        name: String::from("opt"),
        help: None,
        kind,
        default_int: 0,
        default_str: None,
        min: i64::MIN,
        max: i64::MAX,
    }
}

#[test]
fn integer_option_keeps_declared_bounds() {
    let mut r = raw(RawOptionKind::Int);
    r.default_int = 5;
    r.min = 1;
    r.max = 10;
    let c = classify_option(r);
    assert_eq!(
        c.value_type,
        OptionValue::Int { default: 5, min: Some(1), max: Some(10) }
    );
}

#[test]
fn integer_option_drops_sentinel_bounds() {
    let mut r = raw(RawOptionKind::Int);
    r.default_int = -3;
    let c = classify_option(r);
    assert_eq!(c.value_type, OptionValue::Int { default: -3, min: None, max: None });
}

#[test]
fn missing_help_gets_the_fixed_fallback() {
    let c = classify_option(raw(RawOptionKind::Flags));
    assert_eq!(c.help, "No help available");
    let mut r = raw(RawOptionKind::Flags);
    r.help = Some(String::from("flag bits"));
    let c = classify_option(r);
    assert_eq!(c.help, "flag bits");
}

#[test]
fn flags_option_keeps_its_default() {
    let mut r = raw(RawOptionKind::Flags);
    r.default_int = 10;
    let c = classify_option(r);
    assert_eq!(c.value_type, OptionValue::Flags { default: 10 });
}

#[test]
fn text_option_null_default_reads_null() {
    let c = classify_option(raw(RawOptionKind::Text));
    assert_eq!(c.value_type, OptionValue::Str { default: String::from("null") });
    let mut r = raw(RawOptionKind::Text);
    r.default_str = Some(String::from("fast"));
    let c = classify_option(r);
    assert_eq!(c.value_type, OptionValue::Str { default: String::from("fast") });
}

#[test]
fn unknown_kinds_classify_as_other() {
    let c = classify_option(raw(RawOptionKind::Other));
    assert_eq!(c.value_type, OptionValue::Other);
}

#[test]
fn option_list_is_classified_in_order() {
    let mut first = raw(RawOptionKind::Int);
    first.name = String::from("crf");
    first.default_int = 23;
    first.min = 0;
    first.max = 51;
    let mut second = raw(RawOptionKind::Text);
    second.name = String::from("preset");
    second.default_str = Some(String::from("medium"));

    let all = get_codec_private_options(String::from("libx264"), vec![first, second]);
    assert_eq!(all.codec_name, "libx264");
    assert_eq!(all.options.len(), 2);
    assert_eq!(all.options[0].name, "crf");
    assert_eq!(
        all.options[0].value_type,
        OptionValue::Int { default: 23, min: Some(0), max: Some(51) }
    );
    assert_eq!(all.options[1].name, "preset");
    assert_eq!(
        all.options[1].value_type,
        OptionValue::Str { default: String::from("medium") }
    );
}

#[test]
fn empty_option_list_keeps_only_the_codec_name() {
    let all = get_codec_private_options(String::from("mjpeg"), vec![]);
    assert_eq!(all.codec_name, "mjpeg");
    assert!(all.options.is_empty());
}

#[test]
fn value_descriptions_render_exactly() {
    let v = OptionValue::Int { default: 5, min: Some(1), max: Some(10) };
    assert_eq!(v.describe(), "Int(5, min=1, max=10)");
    let v = OptionValue::Int { default: -7, min: None, max: None };
    assert_eq!(v.describe(), "Int(-7)");
    let v = OptionValue::Int { default: 0, min: Some(-1), max: None };
    assert_eq!(v.describe(), "Int(0, min=-1)");
    let v = OptionValue::Flags { default: 10 };
    assert_eq!(v.describe(), "Flags(0b1010)");
    // A negative default shows its two's-complement bits, as {:b} does.
    let v = OptionValue::Flags { default: -1 };
    assert_eq!(v.describe(), format!("Flags(0b{:b})", -1i64));
    let v = OptionValue::Str { default: String::from("fast") };
    assert_eq!(v.describe(), "String(\"fast\")");
    assert_eq!(OptionValue::Other.describe(), "Other(unknown type)");
}

#[test]
fn classified_option_is_assembled_whole() {
    let mut r = raw(RawOptionKind::Int);
    r.name = String::from("threads");
    r.help = Some(String::from("worker count"));
    r.default_int = 1;
    r.min = 0;
    r.max = 64;
    let c = classify_option(r);
    assert_eq!(
        c,
        CodecOption {
            name: String::from("threads"),
            help: String::from("worker count"),
            value_type: OptionValue::Int { default: 1, min: Some(0), max: Some(64) },
        }
    );
}

#[test]
fn option_description_layout() {
    let c = CodecOption {
        name: String::from("crf"),
        help: String::from("quality factor"),
        value_type: OptionValue::Int { default: 23, min: Some(0), max: Some(51) },
    };
    let rule = "─".repeat(40);
    assert_eq!(
        c.describe(),
        format!("╭─ crf ─\n│ Type: Int(23, min=0, max=51)\n│ Help: quality factor\n╰{}", rule)
    );
}

#[test]
fn codec_options_description_layout() {
    let c = classify_option({
        let mut r = raw(RawOptionKind::Flags);
        r.name = String::from("flags2");
        r.default_int = 2;
        r
    });
    let all = get_codec_private_options(String::from("h264"), vec![]);
    let heavy = "━".repeat(40);
    assert_eq!(all.describe(), format!("┏━━ Codec: h264 ━━\n┣━━ Options: 0\n┗{}", heavy));

    let all = media_lib::CodecPrivateOptions { codec_name: String::from("h264"), options: vec![c] };
    let light = "─".repeat(40);
    assert_eq!(
        all.describe(),
        format!(
            "┏━━ Codec: h264 ━━\n┣━━ Options: 1\n┃\n┃ ╭─ flags2 ─\n│ Type: Flags(0b10)\n│ Help: No help available\n╰{}\n┗{}",
            light, heavy
        )
    );
}

#[test]
fn multi_line_help_prefixes_every_line() {
    let c = CodecOption {
        name: String::from("rc"),
        help: String::from("first line\nsecond line"),
        value_type: OptionValue::Other,
    };
    let mut expected = String::new();
    expected.push_str("\u{256d}\u{2500} rc \u{2500}\n");
    expected.push_str("\u{2502} Type: Other(unknown type)\n");
    expected.push_str("\u{2502} Help: first line\n");
    expected.push_str("\u{2502} Help: second line\n");
    expected.push_str("\u{2570}");
    expected.push_str(&"\u{2500}".repeat(40));
    assert_eq!(c.describe(), expected);
}
