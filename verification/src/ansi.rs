//! Parsing ANSI SGR escape sequences into styled runs.
//!
//! The parser walks raw terminal bytes, drops every escape sequence from the
//! plain output, and cuts the text between escapes into runs, each carrying
//! the select-graphic-rendition state (foreground, background, italic,
//! underline, strikethrough) in force where it starts. Run byte ranges index
//! into the plain output. Colors are symbolic here; mapping them through the
//! configured palette onto concrete values is the colorizer at the end of
//! the module.

use vstd::prelude::*;

verus! {

/// A symbolic ANSI color: one of the 16 palette entries or a direct value.
#[derive(Clone, Copy, Debug, PartialEq, Eq)]
pub enum AnsiColor {
    Black,
    Red,
    Green,
    Yellow,
    Blue,
    Magenta,
    Cyan,
    White,
    BrightBlack,
    BrightRed,
    BrightGreen,
    BrightYellow,
    BrightBlue,
    BrightMagenta,
    BrightCyan,
    BrightWhite,
    Rgb(u8, u8, u8),
}

/// The graphic-rendition state: `None` means no explicit color is active and
/// the caller-supplied default applies.
#[derive(Clone, Copy, Debug, PartialEq, Eq)]
pub struct TextStyle {
    pub fg: Option<AnsiColor>,
    pub bg: Option<AnsiColor>,
    pub italic: bool,
    pub underline: bool,
    pub strikethrough: bool,
}

/// A contiguous byte range of the plain output with one style.
#[derive(Clone, Copy, Debug, PartialEq, Eq)]
pub struct StyledRun {
    pub start: usize,
    pub end: usize,
    pub style: TextStyle,
}

/// The style in force before any escape sequence: everything off, colors
/// defaulted.
pub open spec fn spec_default_style() -> TextStyle {
    TextStyle { fg: None, bg: None, italic: false, underline: false, strikethrough: false }
}

pub fn default_style() -> (r: TextStyle)
    ensures
        r == spec_default_style(),
{
    TextStyle { fg: None, bg: None, italic: false, underline: false, strikethrough: false }
}

/// The first index at or after `i` holding the escape byte, or the length.
pub open spec fn first_esc_from(s: Seq<u8>, i: int) -> int
    decreases s.len() - i,
{
    if i < 0 || i >= s.len() {
        s.len() as int
    } else if s[i] == 27 {
        i
    } else {
        first_esc_from(s, i + 1)
    }
}

pub proof fn lemma_first_esc(s: Seq<u8>, i: int)
    requires
        0 <= i <= s.len(),
    ensures
        i <= first_esc_from(s, i) <= s.len(),
        first_esc_from(s, i) < s.len() ==> s[first_esc_from(s, i)] == 27,
        forall|j: int| i <= j < first_esc_from(s, i) ==> s[j] != 27,
    decreases s.len() - i,
{
    if i < s.len() && s[i] != 27 {
        lemma_first_esc(s, i + 1);
    }
}

/// The first index at or after `i` holding a final byte of a control
/// sequence (0x40..=0x7e), or the length.
pub open spec fn csi_final_from(s: Seq<u8>, i: int) -> int
    decreases s.len() - i,
{
    if i < 0 || i >= s.len() {
        s.len() as int
    } else if 64 <= s[i] <= 126 {
        i
    } else {
        csi_final_from(s, i + 1)
    }
}

pub proof fn lemma_csi_final(s: Seq<u8>, i: int)
    requires
        0 <= i <= s.len(),
    ensures
        i <= csi_final_from(s, i) <= s.len(),
        csi_final_from(s, i) < s.len() ==> 64 <= s[csi_final_from(s, i)] <= 126,
    decreases s.len() - i,
{
    if i < s.len() && !(64 <= s[i] <= 126) {
        lemma_csi_final(s, i + 1);
    }
}

/// The index just past the escape sequence starting at `e` (where `s[e]` is
/// the escape byte): a control sequence `ESC [ ... final`, or a two-byte
/// escape, clipped at the end of the input.
pub open spec fn esc_seq_end(s: Seq<u8>, e: int) -> int {
    if e + 1 >= s.len() {
        s.len() as int
    } else if s[e + 1] == 91 {
        let f = csi_final_from(s, e + 2);
        if f < s.len() {
            f + 1
        } else {
            s.len() as int
        }
    } else {
        e + 2
    }
}

pub proof fn lemma_esc_end(s: Seq<u8>, e: int)
    requires
        0 <= e < s.len(),
    ensures
        e < esc_seq_end(s, e) <= s.len(),
{
    if e + 1 < s.len() && s[e + 1] == 91 {
        lemma_csi_final(s, e + 2);
    }
}

/// One digit folded into a parameter value, saturating at 65535.
pub open spec fn sat_digit(cur: u16, d: u8) -> u16 {
    let v = cur * 10 + (d - 48);
    if v > 65535 {
        65535u16
    } else {
        v as u16
    }
}

/// The parameter values of a control sequence's parameter bytes from `i`
/// on, with `cur` the value accumulated so far: values are separated by
/// semicolons, digits accumulate, other bytes are ignored.
pub open spec fn params_from(p: Seq<u8>, i: int, cur: u16) -> Seq<u16>
    decreases p.len() - i,
{
    if i < 0 || i >= p.len() {
        seq![cur]
    } else if p[i] == 59 {
        seq![cur] + params_from(p, i + 1, 0)
    } else if 48 <= p[i] <= 57 {
        params_from(p, i + 1, sat_digit(cur, p[i]))
    } else {
        params_from(p, i + 1, cur)
    }
}

/// The parameter list of a control sequence (an empty region is one zero
/// parameter, as the terminal convention has it).
pub open spec fn split_params(p: Seq<u8>) -> Seq<u16> {
    params_from(p, 0, 0)
}

/// The basic palette color for a code offset below eight.
pub open spec fn named_color(n: int) -> AnsiColor {
    if n == 0 {
        AnsiColor::Black
    } else if n == 1 {
        AnsiColor::Red
    } else if n == 2 {
        AnsiColor::Green
    } else if n == 3 {
        AnsiColor::Yellow
    } else if n == 4 {
        AnsiColor::Blue
    } else if n == 5 {
        AnsiColor::Magenta
    } else if n == 6 {
        AnsiColor::Cyan
    } else {
        AnsiColor::White
    }
}

/// The bright palette color for a code offset below eight.
pub open spec fn bright_color(n: int) -> AnsiColor {
    if n == 0 {
        AnsiColor::BrightBlack
    } else if n == 1 {
        AnsiColor::BrightRed
    } else if n == 2 {
        AnsiColor::BrightGreen
    } else if n == 3 {
        AnsiColor::BrightYellow
    } else if n == 4 {
        AnsiColor::BrightBlue
    } else if n == 5 {
        AnsiColor::BrightMagenta
    } else if n == 6 {
        AnsiColor::BrightCyan
    } else {
        AnsiColor::BrightWhite
    }
}

pub open spec fn clamp8(v: u16) -> u8 {
    if v > 255 {
        255u8
    } else {
        v as u8
    }
}

/// The style after applying the rendition codes from `i` on to `st`.
/// Handled codes: reset, italic, underline, strikethrough (and their offs),
/// the 16 palette colors, default-color codes, and 24-bit direct color;
/// 256-color selections are consumed without effect; unknown codes are
/// ignored; a malformed extended-color introducer ends the sequence.
pub open spec fn apply_params(st: TextStyle, ps: Seq<u16>, i: int) -> TextStyle
    decreases ps.len() - i,
{
    if i < 0 || i >= ps.len() {
        st
    } else {
        let c = ps[i];
        if c == 0 {
            apply_params(spec_default_style(), ps, i + 1)
        } else if c == 3 {
            apply_params(TextStyle { italic: true, ..st }, ps, i + 1)
        } else if c == 23 {
            apply_params(TextStyle { italic: false, ..st }, ps, i + 1)
        } else if c == 4 {
            apply_params(TextStyle { underline: true, ..st }, ps, i + 1)
        } else if c == 24 {
            apply_params(TextStyle { underline: false, ..st }, ps, i + 1)
        } else if c == 9 {
            apply_params(TextStyle { strikethrough: true, ..st }, ps, i + 1)
        } else if c == 29 {
            apply_params(TextStyle { strikethrough: false, ..st }, ps, i + 1)
        } else if 30 <= c <= 37 {
            apply_params(TextStyle { fg: Some(named_color(c - 30)), ..st }, ps, i + 1)
        } else if c == 39 {
            apply_params(TextStyle { fg: None, ..st }, ps, i + 1)
        } else if 40 <= c <= 47 {
            apply_params(TextStyle { bg: Some(named_color(c - 40)), ..st }, ps, i + 1)
        } else if c == 49 {
            apply_params(TextStyle { bg: None, ..st }, ps, i + 1)
        } else if 90 <= c <= 97 {
            apply_params(TextStyle { fg: Some(bright_color(c - 90)), ..st }, ps, i + 1)
        } else if 100 <= c <= 107 {
            apply_params(TextStyle { bg: Some(bright_color(c - 100)), ..st }, ps, i + 1)
        } else if c == 38 || c == 48 {
            let rem = ps.len() - i;
            if rem > 1 && ps[i + 1] == 2 && rem > 4 {
                let col = AnsiColor::Rgb(clamp8(ps[i + 2]), clamp8(ps[i + 3]), clamp8(ps[i + 4]));
                let st2 = if c == 38 {
                    TextStyle { fg: Some(col), ..st }
                } else {
                    TextStyle { bg: Some(col), ..st }
                };
                apply_params(st2, ps, i + 5)
            } else if i + 1 < ps.len() && ps[i + 1] == 5 && i + 2 < ps.len() {
                apply_params(st, ps, i + 3)
            } else {
                st
            }
        } else {
            apply_params(st, ps, i + 1)
        }
    }
}

/// The style after the escape sequence starting at `e`: a control sequence
/// whose final byte selects graphic rendition applies its parameters; every
/// other sequence leaves the style unchanged.
pub open spec fn seq_style(s: Seq<u8>, e: int, st: TextStyle) -> TextStyle {
    if e + 1 < s.len() && s[e + 1] == 91 {
        let f = csi_final_from(s, e + 2);
        if f < s.len() && s[f] == 109 {
            apply_params(st, split_params(s.subrange(e + 2, f)), 0)
        } else {
            st
        }
    } else {
        st
    }
}

/// Parsing from index `i` with current style `st`, `pos` bytes of plain
/// output already produced: the remaining plain output and the remaining
/// runs. Each stretch of text between escape sequences becomes one run
/// carrying the style in force there; empty stretches produce no run.
pub open spec fn ansi_parse_at(s: Seq<u8>, i: int, st: TextStyle, pos: int) -> (Seq<u8>, Seq<
    StyledRun,
>)
    decreases s.len() - i,
        when 0 <= i <= s.len()
        via ansi_parse_at_decreases
{
    let t = first_esc_from(s, i);
    let chunk = s.subrange(i, t);
    let runs0: Seq<StyledRun> = if t > i {
        seq![StyledRun { start: pos as usize, end: (pos + (t - i)) as usize, style: st }]
    } else {
        Seq::empty()
    };
    if t >= s.len() {
        (chunk, runs0)
    } else {
        let e2 = esc_seq_end(s, t);
        let st2 = seq_style(s, t, st);
        let rest = ansi_parse_at(s, e2, st2, pos + (t - i));
        (chunk + rest.0, runs0 + rest.1)
    }
}

#[via_fn]
proof fn ansi_parse_at_decreases(s: Seq<u8>, i: int, st: TextStyle, pos: int) {
    lemma_first_esc(s, i);
    let t = first_esc_from(s, i);
    if t < s.len() {
        lemma_esc_end(s, t);
    }
}

/// The whole parse of a raw byte stream.
pub open spec fn ansi_parse(s: Seq<u8>) -> (Seq<u8>, Seq<StyledRun>) {
    ansi_parse_at(s, 0, spec_default_style(), 0)
}

/// The plain text of a raw byte stream: the input with every escape
/// sequence dropped.
pub open spec fn ansi_plain(s: Seq<u8>) -> Seq<u8> {
    ansi_parse(s).0
}

/// The styled runs of a raw byte stream.
pub open spec fn ansi_runs(s: Seq<u8>) -> Seq<StyledRun> {
    ansi_parse(s).1
}

/// A byte stream holding no escape byte passes through parsing unchanged:
/// its plain text is the input itself, and it forms at most one run, in the
/// default style, covering everything.
pub proof fn lemma_no_escape_identity(s: Seq<u8>)
    requires
        forall|j: int| 0 <= j < s.len() ==> s[j] != 27,
    ensures
        ansi_plain(s) == s,
        s.len() == 0 ==> ansi_runs(s) == Seq::<StyledRun>::empty(),
        s.len() > 0 ==> ansi_runs(s) == seq![
            StyledRun { start: 0, end: s.len() as usize, style: spec_default_style() },
        ],
{
    lemma_first_esc(s, 0);
    assert(first_esc_from(s, 0) == s.len());
    assert(s.subrange(0, s.len() as int) =~= s);
}

fn find_esc(s: &[u8], i: usize) -> (r: usize)
    requires
        i <= s@.len(),
    ensures
        r == first_esc_from(s@, i as int),
{
    let mut j = i;
    while j < s.len()
        invariant
            i <= j <= s@.len(),
            first_esc_from(s@, j as int) == first_esc_from(s@, i as int),
        decreases s@.len() - j,
    {
        if s[j] == 27 {
            return j;
        }
        j = j + 1;
    }
    j
}

fn find_final(s: &[u8], i: usize) -> (r: usize)
    requires
        i <= s@.len(),
    ensures
        r == csi_final_from(s@, i as int),
{
    let mut j = i;
    while j < s.len()
        invariant
            i <= j <= s@.len(),
            csi_final_from(s@, j as int) == csi_final_from(s@, i as int),
        decreases s@.len() - j,
    {
        let b = s[j];
        if 64 <= b && b <= 126 {
            return j;
        }
        j = j + 1;
    }
    j
}

fn parse_params_exec(s: &[u8], lo: usize, hi: usize) -> (r: Vec<u16>)
    requires
        lo <= hi <= s@.len(),
    ensures
        r@ == split_params(s@.subrange(lo as int, hi as int)),
{
    let ghost p = s@.subrange(lo as int, hi as int);
    let mut done: Vec<u16> = Vec::new();
    let mut cur: u16 = 0;
    let mut j = lo;
    while j < hi
        invariant
            lo <= j <= hi <= s@.len(),
            p == s@.subrange(lo as int, hi as int),
            split_params(p) == done@ + params_from(p, j - lo, cur),
        decreases hi - j,
    {
        let b = s[j];
        proof {
            assert(p[j - lo] == b);
        }
        if b == 59 {
            done.push(cur);
            cur = 0;
        } else if 48 <= b && b <= 57 {
            let d = (b - 48) as u16;
            let next: u16 = if cur > 6553 || (cur == 6553 && d > 5) {
                65535
            } else {
                cur * 10 + d
            };
            proof {
                assert(next == sat_digit(cur, b));
            }
            cur = next;
        }
        j = j + 1;
        proof {
            assert(split_params(p) =~= done@ + params_from(p, j - lo, cur));
        }
    }
    done.push(cur);
    proof {
        assert(params_from(p, hi - lo, cur) =~= seq![cur]);
        assert(done@ =~= split_params(p));
    }
    done
}

fn apply_params_exec(st: TextStyle, ps: &Vec<u16>) -> (r: TextStyle)
    ensures
        r == apply_params(st, ps@, 0),
{
    let mut cur = st;
    let mut i: usize = 0;
    while i < ps.len()
        invariant
            i <= ps@.len(),
            apply_params(cur, ps@, i as int) == apply_params(st, ps@, 0),
        decreases ps@.len() - i,
    {
        let c = ps[i];
        if c == 0 {
            cur = default_style();
            i = i + 1;
        } else if c == 3 {
            cur = TextStyle { italic: true, ..cur };
            i = i + 1;
        } else if c == 23 {
            cur = TextStyle { italic: false, ..cur };
            i = i + 1;
        } else if c == 4 {
            cur = TextStyle { underline: true, ..cur };
            i = i + 1;
        } else if c == 24 {
            cur = TextStyle { underline: false, ..cur };
            i = i + 1;
        } else if c == 9 {
            cur = TextStyle { strikethrough: true, ..cur };
            i = i + 1;
        } else if c == 29 {
            cur = TextStyle { strikethrough: false, ..cur };
            i = i + 1;
        } else if 30 <= c && c <= 37 {
            cur = TextStyle { fg: Some(named_color_exec(c - 30)), ..cur };
            i = i + 1;
        } else if c == 39 {
            cur = TextStyle { fg: None, ..cur };
            i = i + 1;
        } else if 40 <= c && c <= 47 {
            cur = TextStyle { bg: Some(named_color_exec(c - 40)), ..cur };
            i = i + 1;
        } else if c == 49 {
            cur = TextStyle { bg: None, ..cur };
            i = i + 1;
        } else if 90 <= c && c <= 97 {
            cur = TextStyle { fg: Some(bright_color_exec(c - 90)), ..cur };
            i = i + 1;
        } else if 100 <= c && c <= 107 {
            cur = TextStyle { bg: Some(bright_color_exec(c - 100)), ..cur };
            i = i + 1;
        } else if c == 38 || c == 48 {
            let rem = ps.len() - i;
            if rem > 1 && ps[i + 1] == 2 && rem > 4 {
                let col = AnsiColor::Rgb(
                    clamp8_exec(ps[i + 2]),
                    clamp8_exec(ps[i + 3]),
                    clamp8_exec(ps[i + 4]),
                );
                cur = if c == 38 {
                    TextStyle { fg: Some(col), ..cur }
                } else {
                    TextStyle { bg: Some(col), ..cur }
                };
                i = i + 5;
            } else if rem > 1 && ps[i + 1] == 5 && rem > 2 {
                i = i + 3;
            } else {
                return cur;
            }
        } else {
            i = i + 1;
        }
    }
    cur
}

fn named_color_exec(n: u16) -> (r: AnsiColor)
    requires
        n < 8,
    ensures
        r == named_color(n as int),
{
    match n {
        0 => AnsiColor::Black,
        1 => AnsiColor::Red,
        2 => AnsiColor::Green,
        3 => AnsiColor::Yellow,
        4 => AnsiColor::Blue,
        5 => AnsiColor::Magenta,
        6 => AnsiColor::Cyan,
        _ => AnsiColor::White,
    }
}

fn bright_color_exec(n: u16) -> (r: AnsiColor)
    requires
        n < 8,
    ensures
        r == bright_color(n as int),
{
    match n {
        0 => AnsiColor::BrightBlack,
        1 => AnsiColor::BrightRed,
        2 => AnsiColor::BrightGreen,
        3 => AnsiColor::BrightYellow,
        4 => AnsiColor::BrightBlue,
        5 => AnsiColor::BrightMagenta,
        6 => AnsiColor::BrightCyan,
        _ => AnsiColor::BrightWhite,
    }
}

fn clamp8_exec(v: u16) -> (r: u8)
    ensures
        r == clamp8(v),
{
    if v > 255 {
        255
    } else {
        v as u8
    }
}

fn style_after_seq(s: &[u8], e: usize, st: TextStyle) -> (r: TextStyle)
    requires
        e < s@.len(),
    ensures
        r == seq_style(s@, e as int, st),
{
    let n = s.len();
    if n - e > 1 && s[e + 1] == 91 {
        proof {
            lemma_csi_final(s@, e + 2);
        }
        let f = find_final(s, e + 2);
        if f < s.len() && s[f] == 109 {
            let ps = parse_params_exec(s, e + 2, f);
            apply_params_exec(st, &ps)
        } else {
            st
        }
    } else {
        st
    }
}

fn esc_end_exec(s: &[u8], e: usize) -> (r: usize)
    requires
        e < s@.len(),
    ensures
        r == esc_seq_end(s@, e as int),
        e < r <= s@.len(),
{
    proof {
        lemma_esc_end(s@, e as int);
    }
    let n = s.len();
    if n - e == 1 {
        n
    } else if s[e + 1] == 91 {
        proof {
            lemma_csi_final(s@, e + 2);
        }
        let f = find_final(s, e + 2);
        if f < s.len() {
            f + 1
        } else {
            s.len()
        }
    } else {
        e + 2
    }
}

fn parse_from(s: &[u8], i: usize, st: TextStyle, pos: usize) -> (r: (Vec<u8>, Vec<StyledRun>))
    requires
        i <= s@.len(),
        pos <= i,
    ensures
        r.0@ == ansi_parse_at(s@, i as int, st, pos as int).0,
        r.1@ == ansi_parse_at(s@, i as int, st, pos as int).1,
    decreases s@.len() - i,
{
    proof {
        lemma_first_esc(s@, i as int);
    }
    let t = find_esc(s, i);
    let mut plain: Vec<u8> = Vec::new();
    let mut j = i;
    while j < t
        invariant
            i <= j <= t <= s@.len(),
            t == first_esc_from(s@, i as int),
            plain@ == s@.subrange(i as int, j as int),
        decreases t - j,
    {
        plain.push(s[j]);
        j = j + 1;
        proof {
            assert(plain@ =~= s@.subrange(i as int, j as int));
        }
    }
    let mut runs: Vec<StyledRun> = Vec::new();
    if t > i {
        runs.push(StyledRun { start: pos, end: pos + (t - i), style: st });
    }
    if t == s.len() {
        proof {
            assert(runs@ =~= ansi_parse_at(s@, i as int, st, pos as int).1);
        }
        (plain, runs)
    } else {
        let e2 = esc_end_exec(s, t);
        let st2 = style_after_seq(s, t, st);
        let (mut p2, mut r2) = parse_from(s, e2, st2, pos + (t - i));
        plain.append(&mut p2);
        runs.append(&mut r2);
        proof {
            assert(plain@ =~= ansi_parse_at(s@, i as int, st, pos as int).0);
            assert(runs@ =~= ansi_parse_at(s@, i as int, st, pos as int).1);
        }
        (plain, runs)
    }
}

/// Parses a raw byte stream: the plain text with escapes dropped, and the
/// styled runs whose ranges index into that plain text.
pub fn parse_runs(raw: &[u8]) -> (r: (Vec<u8>, Vec<StyledRun>))
    ensures
        r.0@ == ansi_plain(raw@),
        r.1@ == ansi_runs(raw@),
{
    parse_from(raw, 0, default_style(), 0)
}

/// A concrete color value of the configured theme.
#[derive(Clone, Copy, Debug, PartialEq, Eq, Structural)]
pub struct Rgb8 {
    pub r: u8,
    pub g: u8,
    pub b: u8,
}

/// The configured 16-entry ANSI palette, supplied by the theme.
#[derive(Clone, Copy, Debug, PartialEq, Eq, Structural)]
pub struct AnsiColors {
    pub black: Rgb8,
    pub red: Rgb8,
    pub green: Rgb8,
    pub yellow: Rgb8,
    pub blue: Rgb8,
    pub magenta: Rgb8,
    pub cyan: Rgb8,
    pub white: Rgb8,
    pub bright_black: Rgb8,
    pub bright_red: Rgb8,
    pub bright_green: Rgb8,
    pub bright_yellow: Rgb8,
    pub bright_blue: Rgb8,
    pub bright_magenta: Rgb8,
    pub bright_cyan: Rgb8,
    pub bright_white: Rgb8,
}

/// The palette entry of a symbolic color; a direct color stands for itself.
pub open spec fn spec_color_of(colors: AnsiColors, c: AnsiColor) -> Rgb8 {
    match c {
        AnsiColor::Black => colors.black,
        AnsiColor::Red => colors.red,
        AnsiColor::Green => colors.green,
        AnsiColor::Yellow => colors.yellow,
        AnsiColor::Blue => colors.blue,
        AnsiColor::Magenta => colors.magenta,
        AnsiColor::Cyan => colors.cyan,
        AnsiColor::White => colors.white,
        AnsiColor::BrightBlack => colors.bright_black,
        AnsiColor::BrightRed => colors.bright_red,
        AnsiColor::BrightGreen => colors.bright_green,
        AnsiColor::BrightYellow => colors.bright_yellow,
        AnsiColor::BrightBlue => colors.bright_blue,
        AnsiColor::BrightMagenta => colors.bright_magenta,
        AnsiColor::BrightCyan => colors.bright_cyan,
        AnsiColor::BrightWhite => colors.bright_white,
        AnsiColor::Rgb(r, g, b) => Rgb8 { r, g, b },
    }
}

pub fn color_of(colors: &AnsiColors, c: AnsiColor) -> (r: Rgb8)
    ensures
        r == spec_color_of(*colors, c),
{
    match c {
        AnsiColor::Black => colors.black,
        AnsiColor::Red => colors.red,
        AnsiColor::Green => colors.green,
        AnsiColor::Yellow => colors.yellow,
        AnsiColor::Blue => colors.blue,
        AnsiColor::Magenta => colors.magenta,
        AnsiColor::Cyan => colors.cyan,
        AnsiColor::White => colors.white,
        AnsiColor::BrightBlack => colors.bright_black,
        AnsiColor::BrightRed => colors.bright_red,
        AnsiColor::BrightGreen => colors.bright_green,
        AnsiColor::BrightYellow => colors.bright_yellow,
        AnsiColor::BrightBlue => colors.bright_blue,
        AnsiColor::BrightMagenta => colors.bright_magenta,
        AnsiColor::BrightCyan => colors.bright_cyan,
        AnsiColor::BrightWhite => colors.bright_white,
        AnsiColor::Rgb(r, g, b) => Rgb8 { r, g, b },
    }
}

/// A run with its colors resolved: foreground defaulted from the theme when
/// no color is active, background left absent when none is active (the
/// widget then draws no background). Underline and strikethrough strokes
/// take the resolved foreground color.
#[derive(Clone, Copy, Debug, PartialEq, Eq, Structural)]
pub struct ColoredRun {
    pub start: usize,
    pub end: usize,
    pub fg: Rgb8,
    pub bg: Option<Rgb8>,
    pub italic: bool,
    pub underline: bool,
    pub strikethrough: bool,
}

pub open spec fn colorize_run(run: StyledRun, colors: AnsiColors, default_color: Rgb8) -> ColoredRun {
    ColoredRun {
        start: run.start,
        end: run.end,
        fg: match run.style.fg {
            Some(c) => spec_color_of(colors, c),
            None => default_color,
        },
        bg: match run.style.bg {
            Some(c) => Some(spec_color_of(colors, c)),
            None => None,
        },
        italic: run.style.italic,
        underline: run.style.underline,
        strikethrough: run.style.strikethrough,
    }
}

/// The pure compute step of the memoized parse: symbolic runs from the raw
/// bytes, then concrete colors from the palette.
pub struct AnsiColorParser;

impl Default for AnsiColorParser {
    fn default() -> (r: Self)
        ensures
            r == (AnsiColorParser),
    {
        AnsiColorParser
    }
}

impl AnsiColorParser {
    /// Parses `raw` and resolves every run through the palette, falling back
    /// to `default_color` where no foreground is active.
    pub fn parse(&self, default_color: Rgb8, colors: &AnsiColors, raw: &[u8]) -> (r: (
        Vec<u8>,
        Vec<ColoredRun>,
    ))
        ensures
            r.0@ == ansi_plain(raw@),
            r.1@.len() == ansi_runs(raw@).len(),
            forall|k: int|
                0 <= k < r.1@.len() ==> r.1@[k] == colorize_run(
                    ansi_runs(raw@)[k],
                    *colors,
                    default_color,
                ),
    {
        let (plain, runs) = parse_runs(raw);
        let mut colored: Vec<ColoredRun> = Vec::new();
        let mut k: usize = 0;
        while k < runs.len()
            invariant
                k <= runs@.len(),
                runs@ == ansi_runs(raw@),
                colored@.len() == k,
                forall|m: int|
                    0 <= m < k ==> colored@[m] == colorize_run(runs@[m], *colors, default_color),
            decreases runs@.len() - k,
        {
            let run = runs[k];
            let fg = match run.style.fg {
                Some(c) => color_of(colors, c),
                None => default_color,
            };
            let bg = match run.style.bg {
                Some(c) => Some(color_of(colors, c)),
                None => None,
            };
            colored.push(
                ColoredRun {
                    start: run.start,
                    end: run.end,
                    fg,
                    bg,
                    italic: run.style.italic,
                    underline: run.style.underline,
                    strikethrough: run.style.strikethrough,
                },
            );
            k = k + 1;
        }
        (plain, colored)
    }
}

} // verus!
