use ober::banner::available_info;
use ober::banner::render;
use ober::banner::startup_info;
use ober::banner::Span;
use ober::banner::Tone;
use ober::config::Address;
use ober::config::Opt;

fn opt(silent: bool) -> Opt {
    Opt {
        port: None,
        address: Address::new(0, 0, 0, 0),
        path: String::from("./public"),
        silent,
    }
}

fn span(tone: Option<Tone>, text: &str) -> Span {
    Span { tone, text: String::from(text) }
}

#[test]
fn startup_banner_spans() {
    let spans = startup_info(&opt(false), "0.3.1");
    assert_eq!(
        spans,
        vec![
            span(Some(Tone::Yellow), "Starting ober, serving "),
            span(Some(Tone::Blue), "./public"),
            span(None, "\n\n"),
            span(Some(Tone::Yellow), "ober version: "),
            span(Some(Tone::Blue), "0.3.1"),
            span(None, "\n\n"),
        ]
    );
}

#[test]
fn startup_banner_trims_the_version() {
    let spans = startup_info(&opt(false), " 1.0.0\n");
    assert_eq!(spans[4], span(Some(Tone::Blue), "1.0.0"));
}

#[test]
fn available_banner_spans() {
    let o = Opt {
        port: Some(1),
        address: Address::new(192, 168, 0, 17),
        path: String::from("./"),
        silent: false,
    };
    let spans = available_info(&o, 8080);
    assert_eq!(
        spans,
        vec![
            span(Some(Tone::Yellow), "Available on:"),
            span(None, "\n  192.168.0.17:"),
            span(Some(Tone::Green), "8080"),
            span(None, "\nHit CTRL-C to stop the server\n\n"),
        ]
    );
}

#[test]
fn silent_leaves_the_banners_out() {
    assert_eq!(startup_info(&opt(true), "0.3.1"), vec![]);
    assert_eq!(available_info(&opt(true), 8080), vec![]);
    assert_eq!(render(&startup_info(&opt(true), "0.3.1")), "");
}

#[test]
fn render_of_plain_spans_joins_them() {
    let spans = vec![span(None, "a"), span(None, ""), span(None, "b\n"), span(None, "c")];
    assert_eq!(render(&spans), "ab\nc");
    assert_eq!(render(&Vec::new()), "");
}

#[test]
fn render_paints_when_colours_are_on_and_not_when_off() {
    let spans = vec![
        span(Some(Tone::Yellow), "Available on:"),
        span(None, "\n  0.0.0.0:"),
        span(Some(Tone::Green), "8080"),
        span(Some(Tone::Blue), "x"),
        span(None, "\n"),
    ];
    colored::control::set_override(true);
    let on = render(&spans);
    colored::control::set_override(false);
    let off = render(&spans);
    colored::control::unset_override();
    assert_eq!(
        on,
        "\u{1b}[33mAvailable on:\u{1b}[0m\n  0.0.0.0:\u{1b}[32m8080\u{1b}[0m\u{1b}[34mx\u{1b}[0m\n"
    );
    assert_eq!(off, "Available on:\n  0.0.0.0:8080x\n");
}

#[test]
fn rendered_banners_read_as_expected_without_the_colours() {
    let text = render(&startup_info(&opt(false), "0.3.1"));
    let plain = text
        .replace("\u{1b}[33m", "")
        .replace("\u{1b}[34m", "")
        .replace("\u{1b}[32m", "")
        .replace("\u{1b}[0m", "");
    assert_eq!(plain, "Starting ober, serving ./public\n\nober version: 0.3.1\n\n");
    let text = render(&available_info(&opt(false), 9001));
    let plain = text
        .replace("\u{1b}[33m", "")
        .replace("\u{1b}[34m", "")
        .replace("\u{1b}[32m", "")
        .replace("\u{1b}[0m", "");
    assert_eq!(plain, "Available on:\n  0.0.0.0:9001\nHit CTRL-C to stop the server\n\n");
}
