//! Matching from a reader.
//!
//! Reading is left to the caller: a scan is a state machine that says, one step at a time,
//! how many bytes to read from the start of the stream, or that the stream is to be rewound,
//! and judges the bytes read. Descriptors are probed in engine order, skipping those that
//! cannot be matched from a reader; each probe reads the descriptor's `read_size` bytes (fewer
//! at the end of the stream) and tests them with the descriptor's buffer matcher. After a
//! probe that does not match, the stream is rewound, so that every probe sees the same
//! leading bytes. The caller passes on read errors as they come; a failed rewind is not an
//! error, later probes then just see other bytes.
use vstd::prelude::*;

use crate::map::{
    builtin_format, builtin_format_at, builtin_type, format_matches, format_type, Format,
    BUILTIN_COUNT,
};
use crate::matchers::bytes_at;
use crate::matchers::odf::opendocument;
use crate::matchtype::Type;
use crate::{builtin_first_match, builtin_get, builtin_hit, select, selects, Infer, Selector};

verus! {

/// A position in engine order: the custom descriptors first, then the built-in registry.
#[derive(Debug, Clone, Copy, PartialEq, Eq, Structural)]
pub enum Slot {
    Custom(usize),
    Builtin(usize),
}

/// The state of a scan of a reader.
#[derive(Clone, Copy)]
pub struct ReadScan<'a> {
    /// Which descriptors the scan looks at.
    pub selector: Selector<'a>,
    /// The next position to consider.
    pub next: Slot,
    /// The descriptor whose bytes are awaited.
    pub probing: Option<Slot>,
}

/// What the caller reports to a scan.
pub enum ReadEvent<'b> {
    /// The scan begins; the stream is at its start.
    Start,
    /// The bytes read for the descriptor being probed.
    Window(&'b [u8]),
    /// The stream was rewound to its start, or rewinding failed.
    Rewound,
}

/// What the caller does next.
#[derive(Clone, Copy)]
pub enum ReadAction {
    /// Read up to this many bytes (fewer only at the end of the stream), report `Window`.
    Read(usize),
    /// Rewind the stream to its start, report `Rewound`.
    Rewind,
    /// The scan is over: this type matched.
    Matched(Type),
    /// The scan is over: nothing matched.
    NoMatch,
}

/// The first `n` bytes of a stream holding `content`, or all of them when it holds fewer.
pub open spec fn stream_window(content: Seq<u8>, n: usize) -> Seq<u8> {
    if n <= content.len() {
        content.take(n as int)
    } else {
        content
    }
}

/// A pattern that ends within the first `n` bytes is found in those bytes as in the whole.
proof fn lemma_bytes_at_prefix(b: Seq<u8>, n: int, off: int, pat: Seq<u8>)
    requires
        0 <= off,
        off + pat.len() <= n <= b.len(),
    ensures
        bytes_at(b.take(n), off, pat) == bytes_at(b, off, pat),
{
    assert(b.take(n).subrange(off, off + pat.len()) =~= b.subrange(off, off + pat.len()));
}

/// The formats that can be matched from a reader read enough bytes to decide: their signature
/// holds on the window a scan reads exactly when it holds on the whole buffer.
proof fn lemma_window_decides(f: Format, b: Seq<u8>)
    requires
        format_type(f).read_size is Some,
    ensures
        format_type(f).read_size->0 > 0,
        format_matches(f, stream_window(b, format_type(f).read_size->0)) == format_matches(f, b),
{
    let n = format_type(f).read_size->0 as int;
    if n <= b.len() {
        match f {
            Format::Wasm => {
                lemma_bytes_at_prefix(b, n, 0, seq![0x00u8, 0x61, 0x73, 0x6D, 0x01, 0x00, 0x00, 0x00]);
            },
            Format::Woff => {
                lemma_bytes_at_prefix(b, n, 0, seq![0x77u8, 0x4F, 0x46, 0x46, 0x00, 0x01, 0x00, 0x00]);
            },
            Format::Woff2 => {
                lemma_bytes_at_prefix(b, n, 0, seq![0x77u8, 0x4F, 0x46, 0x32, 0x00, 0x01, 0x00, 0x00]);
            },
            Format::Ttf => {
                lemma_bytes_at_prefix(b, n, 0, seq![0x00u8, 0x01, 0x00, 0x00, 0x00]);
            },
            Format::Otf => {
                lemma_bytes_at_prefix(b, n, 0, seq![0x4Fu8, 0x54, 0x54, 0x4F, 0x00]);
            },
            Format::Odt | Format::Ods | Format::Odp => {
                lemma_bytes_at_prefix(b, n, 0, seq![0x50u8, 0x4B, 0x03, 0x04]);
                lemma_bytes_at_prefix(
                    b,
                    n,
                    0x1E,
                    seq![0x6Du8, 0x69, 0x6D, 0x65, 0x74, 0x79, 0x70, 0x65],
                );
                lemma_bytes_at_prefix(b, n, 0x32, opendocument(seq![0x74u8, 0x65, 0x78, 0x74]));
                lemma_bytes_at_prefix(
                    b,
                    n,
                    0x32,
                    opendocument(
                        seq![0x73u8, 0x70, 0x72, 0x65, 0x61, 0x64, 0x73, 0x68, 0x65, 0x65, 0x74],
                    ),
                );
                lemma_bytes_at_prefix(
                    b,
                    n,
                    0x32,
                    opendocument(
                        seq![0x70u8, 0x72, 0x65, 0x73, 0x65, 0x6E, 0x74, 0x61, 0x74, 0x69, 0x6F, 0x6E],
                    ),
                );
            },
            _ => {},
        }
    }
}

impl<'a> ReadScan<'a> {
    /// A scan, not yet begun, of the descriptors `selector` picks.
    pub fn new(selector: Selector<'a>) -> (r: Self)
        ensures
            r == (ReadScan { selector, next: Slot::Custom(0), probing: None }),
    {
        ReadScan { selector, next: Slot::Custom(0), probing: None }
    }
}

impl<F: Fn(&[u8]) -> bool> Infer<F> {
    /// `p` names a descriptor of this engine.
    pub open spec fn slot_valid(&self, p: Slot) -> bool {
        match p {
            Slot::Custom(k) => k < self@.len(),
            Slot::Builtin(j) => j < BUILTIN_COUNT,
        }
    }

    /// The position of `p` in engine order; a custom slot past the last custom descriptor
    /// stands for the first built-in one.
    pub open spec fn slot_index(&self, p: Slot) -> int {
        match p {
            Slot::Custom(k) => if k <= self@.len() {
                k as int
            } else {
                self@.len() as int
            },
            Slot::Builtin(j) => self@.len() + j,
        }
    }

    /// How many descriptors this engine tries: its custom ones and the built-in registry.
    pub open spec fn order_len(&self) -> int {
        self@.len() + BUILTIN_COUNT
    }

    /// The descriptor at position `i` of engine order.
    pub open spec fn order_type(&self, i: int) -> Type {
        if i < self@.len() {
            self@[i].0
        } else {
            builtin_type(i - self@.len())
        }
    }

    /// The descriptor at position `i` of engine order matches a buffer holding `b`.
    pub open spec fn order_hit(&self, i: int, b: Seq<u8>) -> bool {
        if i < self@.len() {
            self.custom_hit(i, b)
        } else {
            builtin_hit(i - self@.len(), b)
        }
    }

    /// The descriptor at position `i` is picked by `s` and can be matched from a reader.
    pub open spec fn readable(&self, s: Selector, i: int) -> bool {
        &&& 0 <= i < self.order_len()
        &&& selects(s, self.order_type(i))
        &&& self.order_type(i).read_size is Some
    }

    /// The first position at or after `i` whose descriptor is readable under `s`.
    pub open spec fn next_readable(&self, s: Selector, i: int) -> Option<int>
        decreases self.order_len() - i,
    {
        if i < 0 || i >= self.order_len() {
            None
        } else if self.readable(s, i) {
            Some(i)
        } else {
            self.next_readable(s, i + 1)
        }
    }

    /// What a scan finds on a stream holding `content`, from position `i` on: the first
    /// readable descriptor that matches the window it reads.
    pub open spec fn stream_match(&self, s: Selector, content: Seq<u8>, i: int) -> Option<Type>
        decreases self.order_len() - i,
    {
        if i < 0 || i >= self.order_len() {
            None
        } else if self.readable(s, i) && self.order_hit(
            i,
            stream_window(content, self.order_type(i).read_size->0),
        ) {
            Some(self.order_type(i))
        } else {
            self.stream_match(s, content, i + 1)
        }
    }

    /// Returns the descriptor at `p`.
    pub fn slot_descriptor(&self, p: Slot) -> (t: Type)
        requires
            self.slot_valid(p),
        ensures
            t == self.order_type(self.slot_index(p)),
    {
        match p {
            Slot::Custom(k) => self.custom_type(k),
            Slot::Builtin(j) => builtin_format_at(j).descriptor(),
        }
    }

    /// Whether the descriptor at `p` matches the bytes `window`.
    pub fn slot_matches(&self, p: Slot, window: &[u8]) -> (r: bool)
        requires
            self.wf(),
            self.slot_valid(p),
        ensures
            r == self.order_hit(self.slot_index(p), window@),
    {
        match p {
            Slot::Custom(k) => self.custom_matches(k, window),
            Slot::Builtin(j) => window.len() > 0 && builtin_format_at(j).matches(window),
        }
    }

    /// The first position at or after `from` whose descriptor is readable under `s`.
    fn find_readable(&self, s: &Selector, from: Slot) -> (r: Option<Slot>)
        ensures
            r matches Some(p) ==> self.slot_valid(p) && self.readable(*s, self.slot_index(p))
                && self.next_readable(
                *s,
                self.slot_index(from),
            ) == Some(self.slot_index(p)),
            r is None ==> self.next_readable(*s, self.slot_index(from)) is None,
    {
        let n = self.custom_count();
        let mut j: usize = 0;
        match from {
            Slot::Custom(k0) => {
                let mut k = if k0 < n {
                    k0
                } else {
                    n
                };
                while k < n
                    invariant
                        n == self@.len(),
                        k <= n,
                        self.next_readable(*s, self.slot_index(from)) == self.next_readable(
                            *s,
                            k as int,
                        ),
                    decreases n - k,
                {
                    let t = self.custom_type(k);
                    if select(s, &t) && t.read_size.is_some() {
                        return Some(Slot::Custom(k));
                    }
                    k += 1;
                }
            },
            Slot::Builtin(j0) => {
                j = j0;
            },
        }
        while j < BUILTIN_COUNT
            invariant
                n == self@.len(),
                self.next_readable(*s, self.slot_index(from)) == self.next_readable(
                    *s,
                    n + j,
                ),
            decreases BUILTIN_COUNT - j,
        {
            let t = builtin_format_at(j).descriptor();
            if select(s, &t) && t.read_size.is_some() {
                return Some(Slot::Builtin(j));
            }
            j += 1;
        }
        None
    }

    /// From built-in position `i` on, a scan of an engine without custom matchers finds the
    /// first built-in type that matches the whole buffer, when that type can be read.
    proof fn lemma_stream_finds_first(&self, b: Seq<u8>, i: int)
        requires
            self@.len() == 0,
            0 <= i,
            builtin_first_match(b, i) matches Some(k) && builtin_type(k).read_size is Some,
        ensures
            self.stream_match(Selector::All, b, i) == builtin_get_from(b, i),
        decreases BUILTIN_COUNT - i,
    {
        if i < BUILTIN_COUNT {
            let n = builtin_type(i).read_size->0;
            let w = stream_window(b, n);
            if builtin_type(i).read_size is Some {
                lemma_window_decides(builtin_format(i), b);
            }
            if builtin_hit(i, b) {
                assert(w.len() > 0);
                assert(self.readable(Selector::All, i));
                assert(self.order_hit(i, w));
            } else {
                assert(builtin_first_match(b, i) == builtin_first_match(b, i + 1));
                self.lemma_stream_finds_first(b, i + 1);
                if self.readable(Selector::All, i) {
                    assert(!self.order_hit(i, w));
                }
            }
        }
    }

    /// Skipping the descriptors a scan cannot probe does not change what it finds.
    proof fn lemma_stream_match_skips(&self, s: Selector, c: Seq<u8>, i: int)
        requires
            0 <= i,
        ensures
            match self.next_readable(s, i) {
                None => self.stream_match(s, c, i) is None,
                Some(j) => i <= j && self.stream_match(s, c, i) == self.stream_match(s, c, j),
            },
        decreases self.order_len() - i,
    {
        if i < self.order_len() && !self.readable(s, i) {
            self.lemma_stream_match_skips(s, c, i + 1);
        }
    }

    /// Matches a stream holding `content`, which is the same as a reader over these bytes that
    /// can be rewound: every probe reads from the start of the content.
    pub fn scan_bytes(&self, content: &[u8], selector: Selector) -> (r: Option<Type>)
        requires
            self.wf(),
        ensures
            r == self.stream_match(selector, content@, 0),
    {
        let mut scan = ReadScan::new(selector);
        let mut started = false;
        loop
            invariant
                self.wf(),
                scan.selector == selector,
                0 <= self.slot_index(scan.next) <= self.order_len(),
                self.stream_match(selector, content@, 0) == self.stream_match(
                    selector,
                    content@,
                    self.slot_index(scan.next),
                ),
            decreases self.order_len() - self.slot_index(scan.next),
        {
            proof {
                self.lemma_stream_match_skips(selector, content@, self.slot_index(scan.next));
            }
            let event = if started {
                ReadEvent::Rewound
            } else {
                ReadEvent::Start
            };
            started = true;
            match self.read_step(&mut scan, event) {
                ReadAction::Read(n) => {
                    let end = if n <= content.len() {
                        n
                    } else {
                        content.len()
                    };
                    let window = &content[0..end];
                    assert(window@ =~= stream_window(content@, n));
                    match self.read_step(&mut scan, ReadEvent::Window(window)) {
                        ReadAction::Matched(t) => {
                            return Some(t);
                        },
                        _ => {},
                    }
                },
                _ => {
                    return None;
                },
            }
        }
    }

    /// One step of a scan: takes what the caller reports and says what to do next.
    ///
    /// When the stream is at its start, the next readable descriptor is probed: read as many
    /// bytes as it asks for. A window that matches ends the scan with that descriptor's type;
    /// one that does not asks for a rewind before anything else is read.
    pub fn read_step(&self, scan: &mut ReadScan, event: ReadEvent) -> (a: ReadAction)
        requires
            self.wf(),
            event is Window ==> (old(scan).probing matches Some(p) && self.slot_valid(p)),
        ensures
            final(scan).selector == old(scan).selector,
            match event {
                ReadEvent::Window(w) => {
                    let i = self.slot_index(old(scan).probing->0);
                    if self.order_hit(i, w@) {
                        a == ReadAction::Matched(self.order_type(i)) && *final(scan) == *old(scan)
                    } else {
                        a == ReadAction::Rewind && final(scan).next == old(scan).next
                            && final(scan).probing is None
                    }
                },
                _ => match self.next_readable(old(scan).selector, self.slot_index(old(scan).next)) {
                    Some(i) => {
                        &&& a == ReadAction::Read(self.order_type(i).read_size->0)
                        &&& self.readable(old(scan).selector, i)
                        &&& final(scan).probing matches Some(p)
                        &&& self.slot_valid(final(scan).probing->0)
                        &&& self.slot_index(final(scan).probing->0) == i
                        &&& self.slot_index(final(scan).next) == i + 1
                    },
                    None => a == ReadAction::NoMatch && *final(scan) == *old(scan),
                },
            },
    {
        match event {
            ReadEvent::Window(w) => {
                let p = match scan.probing {
                    Some(p) => p,
                    None => return ReadAction::NoMatch,
                };
                if self.slot_matches(p, w) {
                    ReadAction::Matched(self.slot_descriptor(p))
                } else {
                    scan.probing = None;
                    ReadAction::Rewind
                }
            },
            _ => {
                let _ = self.custom_count();
                let sel = scan.selector;
                match self.find_readable(&sel, scan.next) {
                    Some(p) => {
                        let t = self.slot_descriptor(p);
                        let n = match t.read_size {
                            Some(n) => n,
                            None => 0,
                        };
                        scan.probing = Some(p);
                        scan.next = match p {
                            Slot::Custom(k) => Slot::Custom(k + 1),
                            Slot::Builtin(j) => Slot::Builtin(j + 1),
                        };
                        ReadAction::Read(n)
                    },
                    None => ReadAction::NoMatch,
                }
            },
        }
    }
}

/// The type the built-in registry gives `b`, looking from position `i` on.
pub open spec fn builtin_get_from(b: Seq<u8>, i: int) -> Option<Type> {
    match builtin_first_match(b, i) {
        Some(k) => Some(builtin_type(k)),
        None => None,
    }
}

/// Matching from a reader agrees with matching the buffer: when the built-in registry
/// classifies a buffer as a type that can be matched from a reader, a scan of a stream holding
/// the same bytes, by an engine without custom matchers, finds that same type.
pub proof fn stream_agrees_with_buffer<F: Fn(&[u8]) -> bool>(fresh: Infer<F>, b: Seq<u8>)
    requires
        fresh@.len() == 0,
        builtin_get(b) matches Some(t) && t.read_size is Some,
    ensures
        fresh.stream_match(Selector::All, b, 0) == builtin_get(b),
{
    fresh.lemma_stream_finds_first(b, 0);
}

} // verus!
