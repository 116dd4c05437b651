//! The banners that greet the user when the server starts.
//!
//! A banner is a list of spans, each a text with an optional colour. Rendering
//! turns the list into one text for the terminal; whether colours come out as
//! escape sequences or not at all is decided where the text is painted, by
//! the terminal and the environment.

use vstd::prelude::*;

use crate::config::Opt;
use crate::text::decimal;
use crate::text::decimal_string;
use crate::text::trim;
use crate::text::trimmed;

verus! {

/// A colour of the banners.
#[derive(Clone, Copy, Debug, PartialEq, Eq, Structural)]
pub enum Tone {
    Yellow,
    Blue,
    Green,
}

/// A piece of a banner: a text, and the colour it is shown in, if any.
#[derive(Clone, Debug, PartialEq, Eq)]
pub struct Span {
    pub tone: Option<Tone>,
    pub text: String,
}

/// A `Span` as plain values.
pub struct SpanView {
    pub tone: Option<Tone>,
    pub text: Seq<char>,
}

impl View for Span {
    type V = SpanView;

    open spec fn view(&self) -> SpanView {
        SpanView { tone: self.tone, text: self.text@ }
    }
}

/// The spans of a list as plain values.
pub open spec fn views(spans: Seq<Span>) -> Seq<SpanView> {
    spans.map_values(|s: Span| s@)
}

/// Whether `text` holds the escape character, with which every terminal
/// control sequence starts.
pub open spec fn has_escape(text: Seq<char>) -> bool {
    text.contains('\u{1b}')
}

/// The sequence that switches the terminal to the colour `tone`.
pub open spec fn open_sequence(tone: Tone) -> Seq<char> {
    match tone {
        Tone::Yellow => "\u{1b}[33m"@,
        Tone::Blue => "\u{1b}[34m"@,
        Tone::Green => "\u{1b}[32m"@,
    }
}

/// The sequence that switches the terminal back to its own colours.
pub open spec fn reset_sequence() -> Seq<char> {
    "\u{1b}[0m"@
}

/// What a text that holds control sequences of its own becomes when it is
/// shown in the colour `tone`.
pub uninterp spec fn recolored(text: Seq<char>, tone: Tone) -> Seq<char>;

/// `text` painted in `tone`. Where colours are switched off (`on` is false)
/// it is left as it is; where they are on, it stands between the colour's
/// sequence and the reset, unless it holds control sequences of its own.
pub open spec fn painted(text: Seq<char>, tone: Tone, on: bool) -> Seq<char> {
    if !on {
        text
    } else if has_escape(text) {
        recolored(text, tone)
    } else {
        open_sequence(tone) + text + reset_sequence()
    }
}

/// What is shown for `span` with colours on or off.
pub open spec fn span_text(span: SpanView, on: bool) -> Seq<char> {
    match span.tone {
        Some(tone) => painted(span.text, tone, on),
        None => span.text,
    }
}

/// The spans one after the other, the i-th painted as `on[i]` says.
pub open spec fn rendering(spans: Seq<SpanView>, on: Seq<bool>) -> Seq<char>
    decreases spans.len(),
{
    if spans.len() == 0 {
        Seq::empty()
    } else {
        rendering(spans.drop_last(), on.drop_last()) + span_text(spans.last(), on.last())
    }
}

/// Paints `text` with `colored`: `Colorize::color` makes a coloured string of
/// it and its `Display` writes that out. Where colours are switched off, by
/// the environment or because the output is no terminal, the text comes back
/// as it is. Otherwise it comes back between the colour's sequence and the
/// reset; a text with control sequences of its own has the colour switched on
/// again after each reset it holds, which the contract only names.
#[verifier::external_body]
fn paint(text: &str, tone: Tone) -> (s: String)
    ensures
        s@ == text@ || s@ == (if has_escape(text@) {
            recolored(text@, tone)
        } else {
            open_sequence(tone) + text@ + reset_sequence()
        }),
{
    let color = match tone {
        Tone::Yellow => colored::Color::Yellow,
        Tone::Blue => colored::Color::Blue,
        Tone::Green => colored::Color::Green,
    };
    colored::Colorize::color(text, color).to_string()
}

/// The text of a banner for the terminal: its spans in order, each one
/// painted in its colour or, where colours are off, left plain.
pub fn render(spans: &Vec<Span>) -> (out: String)
    ensures
        exists|on: Seq<bool>|
            on.len() == spans.len() && out@ == #[trigger] rendering(views(spans@), on),
{
    let mut out = String::new();
    let ghost mut on: Seq<bool> = Seq::empty();
    let mut i: usize = 0;
    assert(views(spans@).take(0) =~= Seq::<SpanView>::empty());
    while i < spans.len()
        invariant
            i <= spans.len(),
            on.len() == i,
            out@ == rendering(views(spans@).take(i as int), on),
        decreases spans.len() - i,
    {
        let span = &spans[i];
        let ghost before = out@;
        let ghost flag: bool;
        match span.tone {
            Some(tone) => {
                let piece = paint(span.text.as_str(), tone);
                proof {
                    flag = piece@ == painted(span.text@, tone, true);
                }
                out.append(piece.as_str());
            },
            None => {
                proof {
                    flag = false;
                }
                out.append(span.text.as_str());
            },
        }
        proof {
            let done = views(spans@).take(i + 1);
            assert(done.drop_last() =~= views(spans@).take(i as int));
            assert(done.last() == span@);
            assert(on.push(flag).drop_last() =~= on);
            assert(out@ == before + span_text(span@, flag));
            on = on.push(flag);
        }
        i += 1;
    }
    assert(views(spans@).take(i as int) =~= views(spans@));
    out
}

/// The banner that names the directory being served and the version of the
/// program.
pub open spec fn startup_spans(path: Seq<char>, version: Seq<char>) -> Seq<SpanView> {
    seq![
        SpanView { tone: Some(Tone::Yellow), text: "Starting ober, serving "@ },
        SpanView { tone: Some(Tone::Blue), text: path },
        SpanView { tone: None, text: "\n\n"@ },
        SpanView { tone: Some(Tone::Yellow), text: "ober version: "@ },
        SpanView { tone: Some(Tone::Blue), text: trimmed(version) },
        SpanView { tone: None, text: "\n\n"@ },
    ]
}

/// The banner that says where the server can be reached and how to stop it.
pub open spec fn available_spans(address: Seq<char>, port: u16) -> Seq<SpanView> {
    seq![
        SpanView { tone: Some(Tone::Yellow), text: "Available on:"@ },
        SpanView { tone: None, text: "\n  "@ + address + ":"@ },
        SpanView { tone: Some(Tone::Green), text: decimal(port as nat) },
        SpanView { tone: None, text: "\nHit CTRL-C to stop the server\n\n"@ },
    ]
}

/// The first banner: what is served, and by which version of the program.
/// It is empty where the banners were switched off.
pub fn startup_info(opt: &Opt, version: &str) -> (spans: Vec<Span>)
    ensures
        views(spans@) == if opt.silent {
            Seq::<SpanView>::empty()
        } else {
            startup_spans(opt.path@, version@)
        },
{
    let mut spans: Vec<Span> = Vec::new();
    if !opt.silent {
        spans.push(Span { tone: Some(Tone::Yellow), text: "Starting ober, serving ".to_owned() });
        spans.push(Span { tone: Some(Tone::Blue), text: opt.path.clone() });
        spans.push(Span { tone: None, text: "\n\n".to_owned() });
        spans.push(Span { tone: Some(Tone::Yellow), text: "ober version: ".to_owned() });
        spans.push(Span { tone: Some(Tone::Blue), text: trim(version).to_owned() });
        spans.push(Span { tone: None, text: "\n\n".to_owned() });
        assert(views(spans@) =~= startup_spans(opt.path@, version@));
    } else {
        assert(views(spans@) =~= Seq::<SpanView>::empty());
    }
    spans
}

/// The second banner: the address and port that the server listens on.
/// It is empty where the banners were switched off.
pub fn available_info(opt: &Opt, port: u16) -> (spans: Vec<Span>)
    ensures
        views(spans@) == if opt.silent {
            Seq::<SpanView>::empty()
        } else {
            available_spans(opt.address.text(), port)
        },
{
    let mut spans: Vec<Span> = Vec::new();
    if !opt.silent {
        let mut place = "\n  ".to_owned();
        place.append(opt.address.to_text().as_str());
        place.append(":");
        spans.push(Span { tone: Some(Tone::Yellow), text: "Available on:".to_owned() });
        spans.push(Span { tone: None, text: place });
        spans.push(Span { tone: Some(Tone::Green), text: decimal_string(port as u64) });
        spans.push(
            Span { tone: None, text: "\nHit CTRL-C to stop the server\n\n".to_owned() },
        );
        assert(views(spans@) =~= available_spans(opt.address.text(), port));
    } else {
        assert(views(spans@) =~= Seq::<SpanView>::empty());
    }
    spans
}

} // verus!
