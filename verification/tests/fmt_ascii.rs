use clipd::fmt::ascii::AsciiFormatter;
use clipd::fmt::{FormatFeature, Formatter};
use clipd::ClipdError;

fn check_fmt(feature: FormatFeature, source: &str, expect: &str) {
    let formatter = <AsciiFormatter as Formatter<Vec<u8>, Vec<u8>>>::new(feature).unwrap();
    let mut c_source = source.as_bytes().to_vec();
    c_source.push(0);
    let mut c_expect = expect.as_bytes().to_vec();
    c_expect.push(0);
    let fmt_result = formatter.fmt(&c_source).unwrap();
    assert_eq!(fmt_result.data.as_slice(), c_expect.as_slice());
}

#[test]
#[should_panic]
fn ascii_empty_feature() {
    check_fmt(FormatFeature::empty(), "foo", "bar");
}

#[test]
#[should_panic]
fn ascii_empty_str() {
    check_fmt(FormatFeature::all(), "", "foo");
}

#[test]
fn ascii_it_works() {
    let ws = "\t\n\x0C\r ";
    let ws_nocr = "\t\n\x0C ";

    check_fmt(FormatFeature::trim_start_lf(), "\nabc", "abc");
    check_fmt(FormatFeature::trim_start_lf(), "\r\nabc", "\r\nabc");
    check_fmt(FormatFeature::trim_start_lf(), "\n\n\rabc", "\rabc");
    check_fmt(FormatFeature::trim_start_lf(), "\nabc\n", "abc\n");

    check_fmt(
        FormatFeature::trim_start_whitespace(),
        &format!("{}abc", ws),
        "abc",
    );
    check_fmt(
        FormatFeature::trim_start_whitespace(),
        &format!("{}{}abc{}{}", ws, ws, ws, ws),
        &format!("abc{}{}", ws, ws),
    );

    check_fmt(FormatFeature::trim_cr(), "\r\nabc\r\n", "\nabc\n");
    check_fmt(FormatFeature::trim_cr(), "\r\r\na\rb\rc\n\r\r", "\nabc\n");
    check_fmt(FormatFeature::trim_cr(), "\r\na\r\nb\r\nc\r\n", "\na\nb\nc\n");

    check_fmt(FormatFeature::trim_end_lf(), "abc\n", "abc");
    check_fmt(FormatFeature::trim_end_lf(), "abc\n\r", "abc\n\r");
    check_fmt(FormatFeature::trim_end_lf(), "abc\r\n\n", "abc\r");
    check_fmt(FormatFeature::trim_end_lf(), "\nabc\n", "\nabc");

    check_fmt(
        FormatFeature::trim_end_whitespace(),
        &format!("abc{}", ws),
        "abc",
    );
    check_fmt(
        FormatFeature::trim_end_whitespace(),
        &format!("{}{}abc{}{}", ws, ws, ws, ws),
        &format!("{}{}abc", ws, ws),
    );

    check_fmt(FormatFeature::trim_start_end_lf(), "\nabc", "abc");
    check_fmt(FormatFeature::trim_start_end_lf(), "abc\n", "abc");
    check_fmt(FormatFeature::trim_start_end_lf(), "\nabc\n", "abc");
    check_fmt(FormatFeature::trim_start_end_lf(), "\r\nabc\n\r", "\r\nabc\n\r");
    check_fmt(
        FormatFeature::trim_start_end_lf(),
        "\n\n\ra\nb\nc\r\n\n",
        "\ra\nb\nc\r",
    );

    check_fmt(
        FormatFeature::trim_start_end_whitespace(),
        &format!("{}abc", ws),
        "abc",
    );
    check_fmt(
        FormatFeature::trim_start_end_whitespace(),
        &format!("abc{}", ws),
        "abc",
    );
    check_fmt(
        FormatFeature::trim_start_end_whitespace(),
        &format!("{}abc{}", ws, ws),
        "abc",
    );
    check_fmt(
        FormatFeature::trim_start_end_whitespace(),
        "  a\rb\tc  ",
        "a\rb\tc",
    );

    check_fmt(
        FormatFeature::trim_start_whitespace()
            .union(FormatFeature::trim_end_lf())
            .union(FormatFeature::trim_cr()),
        "\r\n\ta\r\nb\r\nc\r\n ",
        "a\nb\nc\n ",
    );

    check_fmt(
        FormatFeature::all(),
        &format!("{}a{}b{}c{}", ws, ws, ws, ws),
        &format!("a{}b{}c", ws_nocr, ws_nocr),
    );
}

#[test]
fn ascii_body_ends_at_first_nul() {
    let formatter =
        <AsciiFormatter as Formatter<Vec<u8>, Vec<u8>>>::new(FormatFeature::all()).unwrap();
    let source = b"ab \0junk".to_vec();
    let result = formatter.fmt(&source).unwrap();
    assert_eq!(result.data.as_slice(), b"ab\0");
}

#[test]
fn ascii_empty_input_error() {
    let formatter =
        <AsciiFormatter as Formatter<Vec<u8>, Vec<u8>>>::new(FormatFeature::all()).unwrap();
    let source = vec![0u8, b'x'];
    assert_eq!(formatter.fmt(&source).unwrap_err(), ClipdError::EmptyInput);
}
