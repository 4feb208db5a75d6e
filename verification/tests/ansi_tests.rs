use rust_play::ansi::{parse_runs, AnsiColor, AnsiColorParser, AnsiColors, Rgb8};

fn palette() -> AnsiColors {
    AnsiColors {
        black: Rgb8 { r: 0, g: 0, b: 0 },
        red: Rgb8 { r: 200, g: 0, b: 0 },
        green: Rgb8 { r: 0, g: 200, b: 0 },
        yellow: Rgb8 { r: 200, g: 200, b: 0 },
        blue: Rgb8 { r: 0, g: 0, b: 200 },
        magenta: Rgb8 { r: 200, g: 0, b: 200 },
        cyan: Rgb8 { r: 0, g: 200, b: 200 },
        white: Rgb8 { r: 229, g: 229, b: 229 },
        bright_black: Rgb8 { r: 127, g: 127, b: 127 },
        bright_red: Rgb8 { r: 255, g: 0, b: 0 },
        bright_green: Rgb8 { r: 0, g: 255, b: 0 },
        bright_yellow: Rgb8 { r: 255, g: 255, b: 0 },
        bright_blue: Rgb8 { r: 0, g: 0, b: 255 },
        bright_magenta: Rgb8 { r: 255, g: 0, b: 255 },
        bright_cyan: Rgb8 { r: 0, g: 255, b: 255 },
        bright_white: Rgb8 { r: 255, g: 255, b: 255 },
    }
}

#[test]
fn red_error_parses_to_two_runs() {
    let raw = b"\x1b[31mERROR\x1b[0m: bad input";
    let (plain, runs) = parse_runs(&raw[..]);
    assert_eq!(plain, b"ERROR: bad input".to_vec());
    assert_eq!(runs.len(), 2);

    assert_eq!((runs[0].start, runs[0].end), (0, 5));
    assert_eq!(runs[0].style.fg, Some(AnsiColor::Red));
    assert_eq!(runs[0].style.bg, None);
    assert!(!runs[0].style.italic);

    assert_eq!((runs[1].start, runs[1].end), (5, 16));
    assert_eq!(runs[1].style.fg, None);
    assert_eq!(runs[1].style.bg, None);
}

#[test]
fn red_error_colored_through_palette() {
    let raw = b"\x1b[31mERROR\x1b[0m: bad input";
    let default_color = Rgb8 { r: 17, g: 18, b: 19 };
    let parser = AnsiColorParser;
    let (plain, colored) = parser.parse(default_color, &palette(), &raw[..]);
    assert_eq!(plain, b"ERROR: bad input".to_vec());
    assert_eq!(colored.len(), 2);
    assert_eq!(colored[0].fg, Rgb8 { r: 200, g: 0, b: 0 });
    assert_eq!(colored[1].fg, default_color);
    assert_eq!(colored[0].bg, None);
}

#[test]
fn text_without_escapes_is_one_default_run() {
    let raw = b"hello world";
    let (plain, runs) = parse_runs(&raw[..]);
    assert_eq!(plain, raw.to_vec());
    assert_eq!(runs.len(), 1);
    assert_eq!((runs[0].start, runs[0].end), (0, raw.len()));
    assert_eq!(runs[0].style.fg, None);
}

#[test]
fn empty_input_parses_to_nothing() {
    let (plain, runs) = parse_runs(&b""[..]);
    assert!(plain.is_empty());
    assert!(runs.is_empty());
}

#[test]
fn style_flags_accumulate_and_reset() {
    let raw = b"\x1b[3;4;9mstyled\x1b[23mrest";
    let (plain, runs) = parse_runs(&raw[..]);
    assert_eq!(plain, b"styledrest".to_vec());
    assert_eq!(runs.len(), 2);
    assert!(runs[0].style.italic);
    assert!(runs[0].style.underline);
    assert!(runs[0].style.strikethrough);
    assert!(!runs[1].style.italic);
    assert!(runs[1].style.underline);
    assert!(runs[1].style.strikethrough);
}

#[test]
fn direct_color_and_bright_colors() {
    let raw = b"\x1b[38;2;1;2;3mrgb\x1b[91mbright\x1b[48;5;17mindexed";
    let (plain, runs) = parse_runs(&raw[..]);
    assert_eq!(plain, b"rgbbrightindexed".to_vec());
    assert_eq!(runs.len(), 3);
    assert_eq!(runs[0].style.fg, Some(AnsiColor::Rgb(1, 2, 3)));
    assert_eq!(runs[1].style.fg, Some(AnsiColor::BrightRed));
    // a 256-color selection is consumed but not mapped
    assert_eq!(runs[2].style.bg, None);
    assert_eq!(runs[2].style.fg, Some(AnsiColor::BrightRed));
}

#[test]
fn background_codes() {
    let raw = b"\x1b[41mwarn\x1b[49mplain";
    let (_, runs) = parse_runs(&raw[..]);
    assert_eq!(runs[0].style.bg, Some(AnsiColor::Red));
    assert_eq!(runs[1].style.bg, None);
}

#[test]
fn non_sgr_sequences_are_stripped_without_effect() {
    // a cursor-movement control sequence and a two-byte escape
    let raw = b"a\x1b[2Jb\x1bMc";
    let (plain, runs) = parse_runs(&raw[..]);
    assert_eq!(plain, b"abc".to_vec());
    assert_eq!(runs.len(), 3);
    for run in &runs {
        assert_eq!(run.style.fg, None);
    }
}

#[test]
fn unterminated_escape_at_end() {
    let raw = b"tail\x1b[31";
    let (plain, runs) = parse_runs(&raw[..]);
    assert_eq!(plain, b"tail".to_vec());
    assert_eq!(runs.len(), 1);
}
