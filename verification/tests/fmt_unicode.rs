use clipd::fmt::{FormatFeature, Formatter, StringFormatter};

fn check_fmt(feature: FormatFeature, source: &str, expect: &str) {
    {
        let formatter = <StringFormatter as Formatter<String, String>>::new(feature).unwrap();
        let source = source.to_string();
        let expect = expect.to_string();
        assert!(!source.ends_with('\0'));
        assert!(!expect.ends_with('\0'));
        let fmt_result = formatter.fmt(&source).unwrap();
        assert_eq!(fmt_result.data, expect);
        assert_ne!(fmt_result.has_changed(), fmt_result.data.eq(&source));
    }

    {
        let mut source = source.to_string();
        let mut expect = expect.to_string();
        expect.push('\0');
        let formatter =
            <StringFormatter as Formatter<String, String>>::new(feature).unwrap().ends_with_zero();
        let fmt_result = formatter.fmt(&source).unwrap();
        assert_eq!(fmt_result.data, expect);
        source.push('\0');
        assert_ne!(fmt_result.has_changed(), fmt_result.data.eq(&source));
    }

    {
        let mut source = source.to_string();
        let mut expect = expect.to_string();
        source.push('\0');
        expect.push('\0');
        let formatter =
            <StringFormatter as Formatter<String, String>>::new(feature).unwrap().ends_with_zero();
        let fmt_result = formatter.fmt(&source).unwrap();
        assert_eq!(fmt_result.data, expect);
        assert_ne!(fmt_result.has_changed(), fmt_result.data.eq(&source));
    }
}

#[test]
#[should_panic]
fn unicode_empty_feature() {
    check_fmt(FormatFeature::empty(), "foo", "bar");
}

#[test]
#[should_panic]
fn unicode_empty_str() {
    check_fmt(FormatFeature::all(), "", "foo");
}

#[test]
fn unicode_it_works() {
    let ws = "\t\n\x0C\r ";
    let ws_nocr = "\t\n\x0C ";

    check_fmt(FormatFeature::trim_start_lf(), "\nabc", "abc");
    check_fmt(FormatFeature::trim_start_lf(), "\r\nabc", "\r\nabc");
    check_fmt(FormatFeature::trim_start_lf(), "\n\n\rabc", "\rabc");
    check_fmt(FormatFeature::trim_start_lf(), "\nabc\n", "abc\n");

    check_fmt(
        FormatFeature::trim_start_whitespace(),
        &format!("{}abc", ws),
        "abc",
    );
    check_fmt(
        FormatFeature::trim_start_whitespace(),
        &format!("{}{}abc{}{}", ws, ws, ws, ws),
        &format!("abc{}{}", ws, ws),
    );

    check_fmt(FormatFeature::trim_cr(), "\r\nabc\r\n", "\nabc\n");
    check_fmt(FormatFeature::trim_cr(), "\r\r\na\rb\rc\n\r\r", "\nabc\n");
    check_fmt(FormatFeature::trim_cr(), "\r\na\r\nb\r\nc\r\n", "\na\nb\nc\n");

    check_fmt(FormatFeature::trim_end_lf(), "abc\n", "abc");
    check_fmt(FormatFeature::trim_end_lf(), "abc\n\r", "abc\n\r");
    check_fmt(FormatFeature::trim_end_lf(), "abc\r\n\n", "abc\r");
    check_fmt(FormatFeature::trim_end_lf(), "\nabc\n", "\nabc");

    check_fmt(
        FormatFeature::trim_end_whitespace(),
        &format!("abc{}", ws),
        "abc",
    );
    check_fmt(
        FormatFeature::trim_end_whitespace(),
        &format!("{}{}abc{}{}", ws, ws, ws, ws),
        &format!("{}{}abc", ws, ws),
    );

    check_fmt(FormatFeature::trim_start_end_lf(), "\nabc", "abc");
    check_fmt(FormatFeature::trim_start_end_lf(), "abc\n", "abc");
    check_fmt(FormatFeature::trim_start_end_lf(), "\nabc\n", "abc");
    check_fmt(FormatFeature::trim_start_end_lf(), "\r\nabc\n\r", "\r\nabc\n\r");
    check_fmt(
        FormatFeature::trim_start_end_lf(),
        "\n\n\ra\nb\nc\r\n\n",
        "\ra\nb\nc\r",
    );

    check_fmt(
        FormatFeature::trim_start_end_whitespace(),
        &format!("{}abc", ws),
        "abc",
    );
    check_fmt(
        FormatFeature::trim_start_end_whitespace(),
        &format!("abc{}", ws),
        "abc",
    );
    check_fmt(
        FormatFeature::trim_start_end_whitespace(),
        &format!("{}abc{}", ws, ws),
        "abc",
    );
    check_fmt(
        FormatFeature::trim_start_end_whitespace(),
        "  a\rb\tc  ",
        "a\rb\tc",
    );

    check_fmt(
        FormatFeature::trim_start_whitespace()
            .union(FormatFeature::trim_end_lf())
            .union(FormatFeature::trim_cr()),
        "\r\n\ta\r\nb\r\nc\r\n ",
        "a\nb\nc\n ",
    );

    check_fmt(
        FormatFeature::all(),
        &format!("{}a{}b{}c{}", ws, ws, ws, ws),
        &format!("a{}b{}c", ws_nocr, ws_nocr),
    );

    check_fmt(
        FormatFeature::all(),
        &format!(
            "{}\u{F8FF}\u{F9}\u{D1}\u{FB}{}music{} \u{C8}\u{FC}\u{2265}\u{2030}\u{3C0}\u{EA}\u{F8FF}\u{F9}\u{D1}\u{FB}{}",
            ws, ws, ws, ws
        ),
        &format!(
            "\u{F8FF}\u{F9}\u{D1}\u{FB}{}music{} \u{C8}\u{FC}\u{2265}\u{2030}\u{3C0}\u{EA}\u{F8FF}\u{F9}\u{D1}\u{FB}",
            ws_nocr, ws_nocr
        ),
    );
}

#[test]
fn cr_removal_is_global() {
    let formatter =
        <StringFormatter as Formatter<String, String>>::new(FormatFeature::trim_cr()).unwrap();
    let result = formatter.fmt(&"a\rb\rc".to_string()).unwrap();
    assert_eq!(result.data, "abc");
    assert!(result.has_changed());
}

#[test]
fn leading_lf_rule_ignores_cr() {
    let feature = FormatFeature::trim_start_lf();
    let formatter = <StringFormatter as Formatter<String, String>>::new(feature).unwrap();
    let stripped = formatter.fmt(&"\nabc".to_string()).unwrap();
    assert_eq!(stripped.data, "abc");
    let kept = formatter.fmt(&"\r\nabc".to_string()).unwrap();
    assert_eq!(kept.data, "\r\nabc");
    assert!(!kept.has_changed());
}

#[test]
fn default_preset_trims_both_ends_and_cr() {
    let feature = FormatFeature::default();
    let formatter = <StringFormatter as Formatter<String, String>>::new(feature).unwrap();
    let result = formatter.fmt(&" \t\nabc\r\n \t".to_string()).unwrap();
    assert_eq!(result.data, "abc");
    assert!(result.has_changed());
}

#[test]
fn second_pass_finds_nothing() {
    let feature = FormatFeature::all();
    let formatter = <StringFormatter as Formatter<String, String>>::new(feature).unwrap();
    let once = formatter.fmt(&" \t\nab\rc\r\n \t".to_string()).unwrap();
    let twice = formatter.fmt(&once.data).unwrap();
    assert_eq!(twice.data, once.data);
    assert!(!twice.has_changed());
}

#[test]
fn unchanged_text_reports_no_change() {
    let formatter =
        <StringFormatter as Formatter<String, String>>::new(FormatFeature::all()).unwrap();
    let result = formatter.fmt(&"abc".to_string()).unwrap();
    assert_eq!(result.data, "abc");
    assert!(!result.has_changed());
}
