use rust_play::ansi::{AnsiColor, AnsiColors, Rgb8};
use rust_play::cache::{parse_ansi, AnsiStyleCache};

fn palette() -> AnsiColors {
    let c = Rgb8 { r: 1, g: 1, b: 1 };
    AnsiColors {
        black: c,
        red: Rgb8 { r: 250, g: 30, b: 30 },
        green: c,
        yellow: c,
        blue: c,
        magenta: c,
        cyan: c,
        white: c,
        bright_black: c,
        bright_red: c,
        bright_green: c,
        bright_yellow: c,
        bright_blue: c,
        bright_magenta: c,
        bright_cyan: c,
        bright_white: c,
    }
}

#[test]
fn identical_text_is_not_recomputed() {
    let mut cache = AnsiStyleCache::new();
    let raw = b"\x1b[31mboom\x1b[0m done";

    let (plain1, runs1) = cache.parse_styled(7, &raw[..]);
    assert_eq!(cache.styled_recomputes, 1);

    let (plain2, runs2) = cache.parse_styled(7, &raw[..]);
    assert_eq!(cache.styled_recomputes, 1, "second call must hit the cache");
    assert_eq!(plain1, plain2);
    assert_eq!(runs1, runs2);
}

#[test]
fn changed_text_is_recomputed() {
    let mut cache = AnsiStyleCache::new();
    cache.parse_styled(7, &b"first output"[..]);
    assert_eq!(cache.styled_recomputes, 1);

    let (plain, _) = cache.parse_styled(7, &b"first output and more"[..]);
    assert_eq!(cache.styled_recomputes, 2, "new content must recompute");
    assert_eq!(plain, b"first output and more".to_vec());
}

#[test]
fn streams_are_cached_independently() {
    let mut cache = AnsiStyleCache::new();
    cache.parse_styled(1, &b"one"[..]);
    cache.parse_styled(2, &b"two"[..]);
    assert_eq!(cache.styled_recomputes, 2);
    let (plain, _) = cache.parse_styled(1, &b"one"[..]);
    assert_eq!(cache.styled_recomputes, 2);
    assert_eq!(plain, b"one".to_vec());
}

#[test]
fn strip_cache_follows_the_same_staleness_rule() {
    let mut cache = AnsiStyleCache::new();
    let raw = b"\x1b[32mok\x1b[m fine";

    let s1 = cache.strip_stdout(3, &raw[..]);
    assert_eq!(cache.plain_recomputes, 1);
    assert_eq!(s1, b"ok fine".to_vec());

    let s2 = cache.strip_stdout(3, &raw[..]);
    assert_eq!(cache.plain_recomputes, 1);
    assert_eq!(s1, s2);

    let s3 = cache.strip_stdout(3, &b"changed"[..]);
    assert_eq!(cache.plain_recomputes, 2);
    assert_eq!(s3, b"changed".to_vec());
}

#[test]
fn stdout_and_stderr_of_one_tab_do_not_evict_each_other() {
    let mut cache = AnsiStyleCache::new();
    cache.strip_stdout(5, &b"out text"[..]);
    cache.strip_stderr(5, &b"err text"[..]);
    assert_eq!(cache.plain_recomputes, 2);

    // repeat frames with unchanged buffers hit both caches
    let out = cache.strip_stdout(5, &b"out text"[..]);
    let err = cache.strip_stderr(5, &b"err text"[..]);
    assert_eq!(cache.plain_recomputes, 2);
    assert_eq!(out, b"out text".to_vec());
    assert_eq!(err, b"err text".to_vec());
}

#[test]
fn stripping_text_without_escapes_returns_it_unchanged() {
    let mut cache = AnsiStyleCache::new();
    let raw = b"plain text with spaces\nand a second line";
    let stripped = cache.strip_stdout(9, &raw[..]);
    assert_eq!(stripped, raw.to_vec());
    let stripped_err = cache.strip_stderr(9, &raw[..]);
    assert_eq!(stripped_err, raw.to_vec());
}

#[test]
fn memoized_parse_ansi_resolves_colors() {
    let mut cache = AnsiStyleCache::new();
    let default_color = Rgb8 { r: 9, g: 9, b: 9 };
    let raw = b"\x1b[31mERROR\x1b[0m: bad input";

    let (plain, colored) = parse_ansi(&mut cache, &palette(), default_color, 4, &raw[..]);
    assert_eq!(plain, b"ERROR: bad input".to_vec());
    assert_eq!(colored.len(), 2);
    assert_eq!(colored[0].fg, Rgb8 { r: 250, g: 30, b: 30 });
    assert_eq!(colored[1].fg, default_color);
    assert_eq!(cache.styled_recomputes, 1);

    // a different palette reuses the cached parse: no recomputation
    let brighter = Rgb8 { r: 255, g: 255, b: 255 };
    let (_, colored2) = parse_ansi(&mut cache, &palette(), brighter, 4, &raw[..]);
    assert_eq!(cache.styled_recomputes, 1);
    assert_eq!(colored2[1].fg, brighter);
}

#[test]
fn content_hash_is_deterministic_and_content_sensitive() {
    let a = rust_play::hashing::content_hash(&b"same bytes"[..]);
    let b = rust_play::hashing::content_hash(&b"same bytes"[..]);
    let c = rust_play::hashing::content_hash(&b"same bytes!"[..]);
    assert_eq!(a, b);
    assert_ne!(a, c);
    // the canonical FNV-1a check value
    assert_eq!(rust_play::hashing::content_hash(&b""[..]), 0xcbf29ce484222325);
}

#[test]
fn symbolic_colors_survive_caching() {
    let mut cache = AnsiStyleCache::new();
    let raw = b"\x1b[94mblue\x1b[0m";
    let (_, runs) = cache.parse_styled(11, &raw[..]);
    assert_eq!(runs.len(), 1);
    assert_eq!(runs[0].style.fg, Some(AnsiColor::BrightBlue));
}
