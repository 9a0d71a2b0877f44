use lobsters_cli::text::Fancy;
use lobsters_cli::theme::Colour;
use lobsters_cli::widths::CharWidths;
use termion::color::{Bg, Fg};
use termion::style::{Bold, Italic, NoBold, NoItalic, NoUnderline, Underline};

fn text_widths() -> CharWidths {
    CharWidths::uniform(None)
        .with_run(' ', Some(1))
        .with_run('\u{7f}', None)
        .with_run('\u{a0}', Some(1))
        .with_run('\u{300}', Some(0))
        .with_run('\u{370}', Some(1))
        .with_run('\u{1100}', Some(2))
        .with_run('\u{1160}', Some(1))
        .with_run('\u{2e80}', Some(2))
        .with_run('\u{a4d0}', Some(1))
}

#[test]
fn test_fancy_text() {
    let fancy_text = Fancy::new("Test")
        .fg(Colour::White)
        .bg(Colour::Ansi(4))
        .bold()
        .underline()
        .italic();

    let expected = format!(
        "{}{}{}{}{}{}{}{}{}{}{}",
        Bg(termion::color::Blue),
        Fg(termion::color::White),
        Bold,
        Italic,
        Underline,
        "Test",
        NoUnderline,
        NoItalic,
        NoBold,
        Fg(termion::color::Reset),
        Bg(termion::color::Reset),
    );

    assert_eq!(fancy_text.to_string(), expected);
}

#[test]
fn plain_text_is_written_as_it_is() {
    assert_eq!(Fancy::new("plain").to_string(), "plain");
    assert_eq!(Fancy::new("").to_string(), "");
}

#[test]
fn styles_are_switched_on_in_order_and_off_in_reverse() {
    let span = Fancy::new("x").underline().bold().bg(Colour::Rgb(1, 20, 255)).fg(Colour::Ansi(0));
    assert_eq!(
        span.to_string(),
        "\x1b[48;2;1;20;255m\x1b[38;5;0m\x1b[1m\x1b[4mx\x1b[24m\x1b[21m\x1b[39m\x1b[49m"
    );
    assert_eq!(Fancy::new("i").italic().to_string(), "\x1b[3mi\x1b[23m");
    assert_eq!(Fancy::new("w").fg(Colour::White).to_string(), "\x1b[38;5;7mw\x1b[39m");
    assert_eq!(Fancy::new("b").bg(Colour::Ansi(255)).to_string(), "\x1b[48;5;255mb\x1b[49m");
}

#[test]
fn colour_sequences_are_those_of_termion() {
    for n in [0u8, 7, 9, 10, 99, 100, 255] {
        assert_eq!(
            Fancy::new("").fg(Colour::Ansi(n)).to_string(),
            format!("{}{}", Fg(termion::color::AnsiValue(n)), Fg(termion::color::Reset))
        );
        assert_eq!(
            Fancy::new("").bg(Colour::Rgb(n, 0, 255 - n)).to_string(),
            format!("{}{}", Bg(termion::color::Rgb(n, 0, 255 - n)), Bg(termion::color::Reset))
        );
    }
}

#[test]
fn the_last_colour_set_stands() {
    let span = Fancy::new("x").fg(Colour::Ansi(1)).fg(Colour::Ansi(2));
    assert_eq!(span, Fancy::new("x").fg(Colour::Ansi(2)));
    assert_eq!(Fancy::new("x").get_bg(), None);
    assert_eq!(Fancy::new("x").bg(Colour::White).get_bg(), Some(Colour::White));
    assert_eq!(
        Fancy::new("x").bg(Colour::White).bg(Colour::Ansi(3)).get_bg(),
        Some(Colour::Ansi(3))
    );
}

#[test]
fn a_span_is_empty_when_its_text_is() {
    assert!(Fancy::new("").is_empty());
    assert!(Fancy::new("").bold().bg(Colour::White).is_empty());
    assert!(!Fancy::new(" ").is_empty());
}

#[test]
fn a_clone_is_the_same_span() {
    let span = Fancy::new("abc").fg(Colour::Ansi(3)).italic();
    assert_eq!(span.clone(), span);
}

#[test]
fn cols_is_the_sum_of_the_widths() {
    let widths = text_widths();
    assert_eq!(Fancy::new("").cols(&widths), 0);
    assert_eq!(Fancy::new("hello").cols(&widths), 5);
    assert_eq!(Fancy::new("日本語").cols(&widths), 6);
    assert_eq!(Fancy::new("a日b").cols(&widths), 4);
    assert_eq!(Fancy::new("e\u{301}").cols(&widths), 1);
    assert_eq!(Fancy::new("hello").bold().fg(Colour::White).cols(&widths), 5);
}

#[test]
fn a_character_that_cannot_be_printed_takes_no_column() {
    let widths = text_widths();
    assert_eq!(Fancy::new("a\tb").cols(&widths), 2);
    assert_eq!(Fancy::new("\n\r\u{7f}").cols(&widths), 0);
}

#[test]
fn truncate_keeps_what_stays_below_the_cut() {
    let widths = text_widths();
    let span = Fancy::new("abcdef").fg(Colour::Ansi(9)).bold();
    assert_eq!(span.truncate(0, &widths), Fancy::new("").fg(Colour::Ansi(9)).bold());
    assert_eq!(span.truncate(1, &widths), Fancy::new("").fg(Colour::Ansi(9)).bold());
    assert_eq!(span.truncate(2, &widths), Fancy::new("a").fg(Colour::Ansi(9)).bold());
    assert_eq!(span.truncate(4, &widths), Fancy::new("abc").fg(Colour::Ansi(9)).bold());
    assert_eq!(span.truncate(6, &widths), Fancy::new("abcde").fg(Colour::Ansi(9)).bold());
    assert_eq!(span.truncate(7, &widths), span);
    assert_eq!(span.truncate(usize::MAX, &widths), span);
}

#[test]
fn truncate_leaves_a_column_free_where_a_wide_character_straddles_the_cut() {
    let widths = text_widths();
    let span = Fancy::new("a日b");
    assert_eq!(span.truncate(2, &widths), Fancy::new("a"));
    assert_eq!(span.truncate(3, &widths), Fancy::new("a"));
    assert_eq!(span.truncate(4, &widths), Fancy::new("a日"));
    assert_eq!(span.truncate(5, &widths), Fancy::new("a日b"));
    assert_eq!(span.truncate(3, &widths).cols(&widths), 1);
}

#[test]
fn truncate_keeps_marks_that_take_no_column() {
    let widths = text_widths();
    assert_eq!(Fancy::new("e\u{301}x").truncate(2, &widths), Fancy::new("e\u{301}"));
    assert_eq!(Fancy::new("\u{301}x").truncate(1, &widths), Fancy::new("\u{301}"));
}

#[test]
fn truncate_front_of_nothing_is_the_span() {
    let widths = text_widths();
    for text in ["", "a", "abc", "日本語", "a\tb", "\u{301}"] {
        let span = Fancy::new(text).bg(Colour::Ansi(2)).underline();
        assert_eq!(span.truncate_front(0, &widths), span);
    }
}

#[test]
fn truncate_front_past_the_end_keeps_the_style_alone() {
    let widths = text_widths();
    let span = Fancy::new("abc").bg(Colour::Ansi(2)).fg(Colour::White).italic();
    let empty = Fancy::new("").bg(Colour::Ansi(2)).fg(Colour::White).italic();
    assert_eq!(span.truncate_front(3, &widths), empty);
    assert_eq!(span.truncate_front(4, &widths), empty);
    assert_eq!(span.truncate_front(100, &widths), empty);
    assert_eq!(span.truncate_front(usize::MAX, &widths), empty);
    assert_eq!(span.truncate_front(3, &widths).get_bg(), Some(Colour::Ansi(2)));
    assert_eq!(span.truncate_front(4, &widths).get_bg(), Some(Colour::Ansi(2)));
    assert!(span.truncate_front(3, &widths).is_empty());
    assert_eq!(empty.truncate_front(0, &widths), empty);
    assert_eq!(empty.truncate_front(7, &widths), empty);
}

#[test]
fn truncate_front_by_the_width_leaves_nothing() {
    let widths = text_widths();
    assert!(Fancy::new("ab").truncate_front(2, &widths).is_empty());
    assert_eq!(Fancy::new("ab").truncate_front(2, &widths), Fancy::new(""));
    assert_eq!(Fancy::new("abc").truncate_front(3, &widths), Fancy::new(""));
    assert_eq!(Fancy::new("a").truncate_front(1, &widths), Fancy::new(""));
    assert_eq!(Fancy::new("日本語").truncate_front(6, &widths), Fancy::new(""));
    assert_eq!(Fancy::new("a日").truncate_front(3, &widths), Fancy::new(""));
    assert_eq!(Fancy::new("e\u{301}").truncate_front(1, &widths), Fancy::new(""));
    assert_eq!(Fancy::new("a\tb").truncate_front(2, &widths), Fancy::new(""));
}

#[test]
fn truncate_front_of_a_text_without_width_is_all_or_nothing() {
    let widths = text_widths();
    assert_eq!(Fancy::new("\u{301}").truncate_front(0, &widths), Fancy::new("\u{301}"));
    assert_eq!(Fancy::new("\u{301}").truncate_front(1, &widths), Fancy::new(""));
    assert_eq!(Fancy::new("\n\r").truncate_front(0, &widths), Fancy::new("\n\r"));
    assert_eq!(Fancy::new("\n\r").truncate_front(5, &widths), Fancy::new(""));
}

#[test]
fn truncate_front_of_a_wider_span_loses_what_stays_below_the_cut() {
    let widths = text_widths();
    let span = Fancy::new("abcdef");
    assert_eq!(span.truncate_front(1, &widths), Fancy::new("abcdef"));
    assert_eq!(span.truncate_front(2, &widths), Fancy::new("bcdef"));
    assert_eq!(span.truncate_front(3, &widths), Fancy::new("cdef"));
    assert_eq!(span.truncate_front(5, &widths), Fancy::new("ef"));
    assert_eq!(span.truncate_front(6, &widths), Fancy::new(""));
    assert_eq!(Fancy::new("日本語").truncate_front(3, &widths), Fancy::new("本語"));
    assert_eq!(Fancy::new("日本語").truncate_front(2, &widths), Fancy::new("日本語"));
    assert_eq!(Fancy::new("日本語").truncate_front(5, &widths), Fancy::new("語"));
    assert_eq!(Fancy::new("a\tbc").truncate_front(2, &widths), Fancy::new("bc"));
}
