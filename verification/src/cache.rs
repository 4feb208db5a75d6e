//! The memoization layer over ANSI parsing and stripping.
//!
//! Terminal output is re-rendered every frame and can grow without bound, so
//! parsing and stripping are memoized per logical stream: each cache entry
//! stores the digest of the raw text it was computed from, and is recomputed
//! exactly when the stored digest differs from the digest of the current raw
//! text. This staleness rule is a correctness contract, not a hint: a stale
//! entry would show outdated output. The stripped forms of standard output
//! and standard error live in caches of their own, keyed by tab identity, so
//! the two streams of one tab never contend for a slot. The cache is an
//! owned object held by the session, not process-wide state.

use vstd::prelude::*;
use vstd::hash_map::HashMapWithView;
use vstd::slice::slice_to_vec;

use crate::ansi::{
    ansi_plain, ansi_runs, colorize_run, parse_runs, AnsiColors, ColoredRun, Rgb8, StyledRun,
};
use crate::hashing::{content_hash, fnv1a};

verus! {

broadcast use vstd::std_specs::hash::group_hash_axioms;

/// What an ANSI escape sequence stripper leaves of a byte stream.
pub uninterp spec fn stripped_of(s: Seq<u8>) -> Seq<u8>;

/// Input on which stripping is the identity: nothing but line feeds and
/// printable ASCII, so there is no escape sequence and no control byte the
/// stripper would drop.
pub open spec fn plain_passthrough(s: Seq<u8>) -> bool {
    forall|j: int| 0 <= j < s.len() ==> (s[j] == 10 || (32 <= s[j] <= 126))
}

/// Relies on `strip_ansi_escapes::strip`: it drops ANSI escape sequences and
/// the control bytes it does not pass through, keeping printable text and
/// line feeds; on input made only of printable bytes and line feeds it
/// returns the input unchanged, and on empty input it returns nothing.
#[verifier::external_body]
fn strip_bytes(raw: &[u8]) -> (r: Vec<u8>)
    ensures
        r@ == stripped_of(raw@),
        raw@.len() == 0 ==> r@.len() == 0,
        plain_passthrough(raw@) ==> r@ == raw@,
{
    strip_ansi_escapes::strip(raw)
}

/// A memoized styled parse: the digest of the raw text it came from, the
/// plain text, the runs, and (as a proof-only record) the raw text itself.
pub struct StyledEntry {
    pub hash: u64,
    pub plain: Vec<u8>,
    pub runs: Vec<StyledRun>,
    pub src: Ghost<Seq<u8>>,
}

/// A memoized strip: digest, stripped text, and the raw text as a
/// proof-only record.
pub struct PlainEntry {
    pub hash: u64,
    pub text: Vec<u8>,
    pub src: Ghost<Seq<u8>>,
}

/// Whether a cached strip for `stream` is current for `raw`: the stored
/// digest equals the digest of `raw`.
pub open spec fn plain_hit(m: Map<u64, PlainEntry>, stream: u64, raw: Seq<u8>) -> bool {
    m.contains_key(stream) && m[stream].hash == fnv1a(raw)
}

/// The raw text a memoized strip is answered from: the recorded text of a
/// digest-matching entry, else the current raw text.
pub open spec fn plain_source(m: Map<u64, PlainEntry>, stream: u64, raw: Seq<u8>) -> Seq<u8> {
    if plain_hit(m, stream, raw) {
        m[stream].src@
    } else {
        raw
    }
}

/// Whether a cached styled parse for `stream` is current for `raw`.
pub open spec fn styled_hit(m: Map<u64, StyledEntry>, stream: u64, raw: Seq<u8>) -> bool {
    m.contains_key(stream) && m[stream].hash == fnv1a(raw)
}

/// The raw text a memoized styled parse is answered from.
pub open spec fn styled_source(m: Map<u64, StyledEntry>, stream: u64, raw: Seq<u8>) -> Seq<u8> {
    if styled_hit(m, stream, raw) {
        m[stream].src@
    } else {
        raw
    }
}

/// The per-session cache of parsed and stripped terminal output, keyed by
/// logical stream identity, with counters that tell how often each side
/// actually recomputed.
pub struct AnsiStyleCache {
    pub styled: HashMapWithView<u64, StyledEntry>,
    pub plain_out: HashMapWithView<u64, PlainEntry>,
    pub plain_err: HashMapWithView<u64, PlainEntry>,
    pub styled_recomputes: u64,
    pub plain_recomputes: u64,
}

impl AnsiStyleCache {
    /// Every cached value is exactly the function of the raw text recorded
    /// with it, and the stored digest is that text's digest.
    pub open spec fn wf(self) -> bool {
        &&& forall|k: u64| #[trigger] self.styled@.contains_key(k) ==> {
            let e = self.styled@[k];
            &&& e.hash == fnv1a(e.src@)
            &&& e.plain@ == ansi_plain(e.src@)
            &&& e.runs@ == ansi_runs(e.src@)
        }
        &&& forall|k: u64| #[trigger] self.plain_out@.contains_key(k) ==> {
            let e = self.plain_out@[k];
            &&& e.hash == fnv1a(e.src@)
            &&& e.text@ == stripped_of(e.src@)
        }
        &&& forall|k: u64| #[trigger] self.plain_err@.contains_key(k) ==> {
            let e = self.plain_err@[k];
            &&& e.hash == fnv1a(e.src@)
            &&& e.text@ == stripped_of(e.src@)
        }
    }

    pub fn new() -> (c: AnsiStyleCache)
        ensures
            c.wf(),
            c.styled@ == Map::<u64, StyledEntry>::empty(),
            c.plain_out@ == Map::<u64, PlainEntry>::empty(),
            c.plain_err@ == Map::<u64, PlainEntry>::empty(),
            c.styled_recomputes == 0,
            c.plain_recomputes == 0,
    {
        AnsiStyleCache {
            styled: HashMapWithView::new(),
            plain_out: HashMapWithView::new(),
            plain_err: HashMapWithView::new(),
            styled_recomputes: 0,
            plain_recomputes: 0,
        }
    }

    /// The memoized styled parse of `raw` for the stream `stream`.
    ///
    /// When the stored digest for the stream equals the digest of `raw`, the
    /// cached plain text and runs are returned unchanged and nothing is
    /// recomputed; otherwise (a new stream, or a digest mismatch) the text
    /// is parsed anew, the entry replaced, and the recompute counter
    /// advanced. Parsing the same text twice therefore returns equal run
    /// lists, with no recomputation the second time.
    pub fn parse_styled(&mut self, stream: u64, raw: &[u8]) -> (r: (Vec<u8>, Vec<StyledRun>))
        requires
            old(self).wf(),
            old(self).styled_recomputes < u64::MAX,
        ensures
            final(self).wf(),
            final(self).plain_out@ == old(self).plain_out@,
            final(self).plain_err@ == old(self).plain_err@,
            final(self).plain_recomputes == old(self).plain_recomputes,
            ({
                let h = fnv1a(raw@);
                if styled_hit(old(self).styled@, stream, raw@) {
                    let e = old(self).styled@[stream];
                    &&& r.0@ == e.plain@
                    &&& r.1@ == e.runs@
                    &&& fnv1a(e.src@) == h
                    &&& final(self).styled@ == old(self).styled@
                    &&& final(self).styled_recomputes == old(self).styled_recomputes
                } else {
                    &&& r.0@ == ansi_plain(raw@)
                    &&& r.1@ == ansi_runs(raw@)
                    &&& final(self).styled@.contains_key(stream)
                    &&& final(self).styled@[stream].src@ == raw@
                    &&& final(self).styled@[stream].hash == h
                    &&& (forall|k: u64|
                        k != stream ==> (final(self).styled@.contains_key(k)
                            <==> old(self).styled@.contains_key(k)))
                    &&& (forall|k: u64|
                        k != stream && old(self).styled@.contains_key(k)
                            ==> final(self).styled@[k] == old(self).styled@[k])
                    &&& final(self).styled_recomputes == old(self).styled_recomputes + 1
                }
            }),
    {
        let h = content_hash(raw);
        let cached: Option<(Vec<u8>, Vec<StyledRun>)> = match self.styled.get(&stream) {
            Some(e) => {
                if e.hash == h {
                    Some((slice_to_vec(e.plain.as_slice()), slice_to_vec(e.runs.as_slice())))
                } else {
                    None
                }
            },
            None => None,
        };
        match cached {
            Some(r) => r,
            None => {
                let (plain, runs) = parse_runs(raw);
                let plain_copy = slice_to_vec(plain.as_slice());
                let runs_copy = slice_to_vec(runs.as_slice());
                let entry = StyledEntry {
                    hash: h,
                    plain: plain_copy,
                    runs: runs_copy,
                    src: Ghost(raw@),
                };
                self.styled.insert(stream, entry);
                self.styled_recomputes = self.styled_recomputes + 1;
                (plain, runs)
            },
        }
    }

    /// The memoized stripped form of a tab's standard output, under the
    /// same staleness rule as the styled side: recomputed exactly when the
    /// stored digest differs from the digest of `raw`. On a recompute of
    /// input that holds no escape sequence or dropped control byte, the
    /// result is the input unchanged.
    pub fn strip_stdout(&mut self, tab: u64, raw: &[u8]) -> (r: Vec<u8>)
        requires
            old(self).wf(),
            old(self).plain_recomputes < u64::MAX,
        ensures
            final(self).wf(),
            final(self).styled@ == old(self).styled@,
            final(self).styled_recomputes == old(self).styled_recomputes,
            final(self).plain_err@ == old(self).plain_err@,
            r@ == stripped_of(plain_source(old(self).plain_out@, tab, raw@)),
            ({
                let h = fnv1a(raw@);
                if plain_hit(old(self).plain_out@, tab, raw@) {
                    let e = old(self).plain_out@[tab];
                    &&& r@ == e.text@
                    &&& fnv1a(e.src@) == h
                    &&& final(self).plain_out@ == old(self).plain_out@
                    &&& final(self).plain_recomputes == old(self).plain_recomputes
                } else {
                    &&& r@ == stripped_of(raw@)
                    &&& (plain_passthrough(raw@) ==> r@ == raw@)
                    &&& final(self).plain_out@.contains_key(tab)
                    &&& final(self).plain_out@[tab].src@ == raw@
                    &&& final(self).plain_out@[tab].hash == h
                    &&& (forall|k: u64|
                        k != tab ==> (final(self).plain_out@.contains_key(k)
                            <==> old(self).plain_out@.contains_key(k)))
                    &&& (forall|k: u64|
                        k != tab && old(self).plain_out@.contains_key(k)
                            ==> final(self).plain_out@[k] == old(self).plain_out@[k])
                    &&& final(self).plain_recomputes == old(self).plain_recomputes + 1
                }
            }),
    {
        let h = content_hash(raw);
        let cached: Option<Vec<u8>> = match self.plain_out.get(&tab) {
            Some(e) => {
                if e.hash == h {
                    Some(slice_to_vec(e.text.as_slice()))
                } else {
                    None
                }
            },
            None => None,
        };
        match cached {
            Some(r) => r,
            None => {
                let text = strip_bytes(raw);
                let text_copy = slice_to_vec(text.as_slice());
                let entry = PlainEntry { hash: h, text: text_copy, src: Ghost(raw@) };
                self.plain_out.insert(tab, entry);
                self.plain_recomputes = self.plain_recomputes + 1;
                text
            },
        }
    }

    /// The memoized stripped form of a tab's standard error; the exact
    /// counterpart of `strip_stdout` over the standard-error cache.
    pub fn strip_stderr(&mut self, tab: u64, raw: &[u8]) -> (r: Vec<u8>)
        requires
            old(self).wf(),
            old(self).plain_recomputes < u64::MAX,
        ensures
            final(self).wf(),
            final(self).styled@ == old(self).styled@,
            final(self).styled_recomputes == old(self).styled_recomputes,
            final(self).plain_out@ == old(self).plain_out@,
            r@ == stripped_of(plain_source(old(self).plain_err@, tab, raw@)),
            ({
                let h = fnv1a(raw@);
                if plain_hit(old(self).plain_err@, tab, raw@) {
                    let e = old(self).plain_err@[tab];
                    &&& r@ == e.text@
                    &&& fnv1a(e.src@) == h
                    &&& final(self).plain_err@ == old(self).plain_err@
                    &&& final(self).plain_recomputes == old(self).plain_recomputes
                } else {
                    &&& r@ == stripped_of(raw@)
                    &&& (plain_passthrough(raw@) ==> r@ == raw@)
                    &&& final(self).plain_err@.contains_key(tab)
                    &&& final(self).plain_err@[tab].src@ == raw@
                    &&& final(self).plain_err@[tab].hash == h
                    &&& (forall|k: u64|
                        k != tab ==> (final(self).plain_err@.contains_key(k)
                            <==> old(self).plain_err@.contains_key(k)))
                    &&& (forall|k: u64|
                        k != tab && old(self).plain_err@.contains_key(k)
                            ==> final(self).plain_err@[k] == old(self).plain_err@[k])
                    &&& final(self).plain_recomputes == old(self).plain_recomputes + 1
                }
            }),
    {
        let h = content_hash(raw);
        let cached: Option<Vec<u8>> = match self.plain_err.get(&tab) {
            Some(e) => {
                if e.hash == h {
                    Some(slice_to_vec(e.text.as_slice()))
                } else {
                    None
                }
            },
            None => None,
        };
        match cached {
            Some(r) => r,
            None => {
                let text = strip_bytes(raw);
                let text_copy = slice_to_vec(text.as_slice());
                let entry = PlainEntry { hash: h, text: text_copy, src: Ghost(raw@) };
                self.plain_err.insert(tab, entry);
                self.plain_recomputes = self.plain_recomputes + 1;
                text
            },
        }
    }
}

/// Memoization is exact: a well-formed cache that holds a styled entry
/// computed from raw text `raw` stores that text's digest, so a later call
/// for the same stream with the same text finds a matching digest and, by
/// `parse_styled`'s contract, returns exactly the parse of `raw` without
/// recomputing; a call whose text digests differently never matches and
/// always recomputes.
pub proof fn lemma_styled_cache_exact(c: AnsiStyleCache, stream: u64, raw: Seq<u8>)
    requires
        c.wf(),
        c.styled@.contains_key(stream),
        c.styled@[stream].src@ == raw,
    ensures
        c.styled@[stream].hash == fnv1a(raw),
        c.styled@[stream].plain@ == ansi_plain(raw),
        c.styled@[stream].runs@ == ansi_runs(raw),
{
}

/// The same exactness for the standard-output strip cache.
pub proof fn lemma_stdout_cache_exact(c: AnsiStyleCache, tab: u64, raw: Seq<u8>)
    requires
        c.wf(),
        c.plain_out@.contains_key(tab),
        c.plain_out@[tab].src@ == raw,
    ensures
        c.plain_out@[tab].hash == fnv1a(raw),
        c.plain_out@[tab].text@ == stripped_of(raw),
{
}

/// The same exactness for the standard-error strip cache.
pub proof fn lemma_stderr_cache_exact(c: AnsiStyleCache, tab: u64, raw: Seq<u8>)
    requires
        c.wf(),
        c.plain_err@.contains_key(tab),
        c.plain_err@[tab].src@ == raw,
    ensures
        c.plain_err@[tab].hash == fnv1a(raw),
        c.plain_err@[tab].text@ == stripped_of(raw),
{
}

/// The memoized entry point of the rendering pass: the styled parse of
/// `raw` for the stream, with every run's colors resolved through the
/// palette, falling back to `default_color` where no color is active.
///
/// The contract carries the full staleness bookkeeping: a call whose digest
/// matches the stored one touches nothing and recomputes nothing, a call
/// whose digest differs replaces exactly this stream's entry and advances
/// the recompute counter by one, and the strip caches are never touched. A
/// repeat call with identical text therefore provably returns equal runs
/// and performs no recomputation.
pub fn parse_ansi(
    cache: &mut AnsiStyleCache,
    colors: &AnsiColors,
    default_color: Rgb8,
    stream: u64,
    raw: &[u8],
) -> (r: (Vec<u8>, Vec<ColoredRun>))
    requires
        old(cache).wf(),
        old(cache).styled_recomputes < u64::MAX,
    ensures
        final(cache).wf(),
        final(cache).plain_out@ == old(cache).plain_out@,
        final(cache).plain_err@ == old(cache).plain_err@,
        final(cache).plain_recomputes == old(cache).plain_recomputes,
        ({
            let h = fnv1a(raw@);
            if styled_hit(old(cache).styled@, stream, raw@) {
                &&& final(cache).styled@ == old(cache).styled@
                &&& final(cache).styled_recomputes == old(cache).styled_recomputes
            } else {
                &&& final(cache).styled@.contains_key(stream)
                &&& final(cache).styled@[stream].src@ == raw@
                &&& final(cache).styled@[stream].hash == h
                &&& (forall|k: u64|
                    k != stream ==> (final(cache).styled@.contains_key(k)
                        <==> old(cache).styled@.contains_key(k)))
                &&& (forall|k: u64|
                    k != stream && old(cache).styled@.contains_key(k)
                        ==> final(cache).styled@[k] == old(cache).styled@[k])
                &&& final(cache).styled_recomputes == old(cache).styled_recomputes + 1
            }
        }),
        ({
            let src = styled_source(old(cache).styled@, stream, raw@);
            &&& r.0@ == ansi_plain(src)
            &&& r.1@.len() == ansi_runs(src).len()
            &&& (forall|k: int|
                0 <= k < r.1@.len() ==> r.1@[k] == colorize_run(
                    ansi_runs(src)[k],
                    *colors,
                    default_color,
                ))
        }),
{
    let (plain, runs) = cache.parse_styled(stream, raw);
    let mut colored: Vec<ColoredRun> = Vec::new();
    let mut k: usize = 0;
    let ghost src_runs = runs@;
    while k < runs.len()
        invariant
            k <= runs@.len(),
            runs@ == src_runs,
            colored@.len() == k,
            forall|m: int|
                0 <= m < k ==> colored@[m] == colorize_run(runs@[m], *colors, default_color),
        decreases runs@.len() - k,
    {
        let run = runs[k];
        let fg = match run.style.fg {
            Some(c) => crate::ansi::color_of(colors, c),
            None => default_color,
        };
        let bg = match run.style.bg {
            Some(c) => Some(crate::ansi::color_of(colors, c)),
            None => None,
        };
        colored.push(
            ColoredRun {
                start: run.start,
                end: run.end,
                fg,
                bg,
                italic: run.style.italic,
                underline: run.style.underline,
                strikethrough: run.style.strikethrough,
            },
        );
        k = k + 1;
    }
    (plain, colored)
}

} // verus!
