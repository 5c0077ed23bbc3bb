//! Infers the type of a byte buffer from the magic numbers at its start.
//!
//! A buffer is tested against an ordered list of type descriptors and the first one whose
//! signature matches wins. An [`Infer`] tries the custom matchers added to it first, in the
//! order they were added, and then the built-in registry in its fixed order. An empty buffer
//! never matches.
use vstd::prelude::*;

pub mod map;
pub mod matchers;
pub mod matchtype;
pub mod read;

pub use map::{Format, MatcherType, BUILTIN_COUNT};
pub use matchers::{app, archive, audio, book, doc, font, image, odf, text, video};
pub use matchtype::{Predicate, Type};
pub use read::{ReadAction, ReadEvent, ReadScan, Slot};

use map::{builtin_format, builtin_format_at, builtin_type, format_matches};
use matchtype::str_eq;

verus! {

/// A custom matcher can be called on every buffer.
pub open spec fn total_matcher<F: Fn(&[u8]) -> bool>(f: F) -> bool {
    forall|s: &[u8]| #[trigger] f.requires((s,))
}

/// A custom matcher gives one answer per buffer: it has no side effects to vary it.
pub open spec fn deterministic_matcher<F: Fn(&[u8]) -> bool>(f: F) -> bool {
    forall|s: &[u8], a: bool, b: bool|
        #[trigger] f.ensures((s,), a) && #[trigger] f.ensures((s,), b) ==> a == b
}

/// The custom matcher `f` accepts a buffer holding `b`.
pub open spec fn accepts<F: Fn(&[u8]) -> bool>(f: F, b: Seq<u8>) -> bool {
    exists|s: &[u8]| s@ == b && #[trigger] f.ensures((s,), true)
}

// ---------------------------------------------------------------------------------------
// The built-in registry

/// Built-in descriptor `k` matches `b`; an empty buffer matches nothing.
pub open spec fn builtin_hit(k: int, b: Seq<u8>) -> bool {
    b.len() > 0 && format_matches(builtin_format(k), b)
}

/// The first built-in descriptor at or after position `k` that matches `b`.
pub open spec fn builtin_first_match(b: Seq<u8>, k: int) -> Option<int>
    decreases BUILTIN_COUNT - k,
{
    if k < 0 || k >= BUILTIN_COUNT {
        None
    } else if builtin_hit(k, b) {
        Some(k)
    } else {
        builtin_first_match(b, k + 1)
    }
}

/// The descriptor at a position found in the registry, if one was.
pub open spec fn builtin_type_at(k: Option<int>) -> Option<Type> {
    match k {
        Some(k) => Some(builtin_type(k)),
        None => None,
    }
}

/// What the built-in registry classifies `b` as.
pub open spec fn builtin_get(b: Seq<u8>) -> Option<Type> {
    builtin_type_at(builtin_first_match(b, 0))
}

/// Which descriptors an operation looks at.
#[derive(Clone, Copy)]
pub enum Selector<'a> {
    /// Every descriptor.
    All,
    /// Descriptors with exactly this extension (compared case-sensitively).
    Extension(&'a str),
    /// Descriptors with exactly this media type (compared case-sensitively).
    MimeType(&'a str),
    /// Descriptors of this category.
    Category(MatcherType),
}

/// Selector `s` picks descriptor `t`.
pub open spec fn selects(s: Selector, t: Type) -> bool {
    match s {
        Selector::All => true,
        Selector::Extension(ext) => t.extension@ == ext@,
        Selector::MimeType(mime) => t.mime_type@ == mime@,
        Selector::Category(c) => t.matcher_type == c,
    }
}

/// Whether selector `s` picks descriptor `t`.
fn select(s: &Selector, t: &Type) -> (r: bool)
    ensures
        r == selects(*s, *t),
{
    match s {
        Selector::All => true,
        Selector::Extension(ext) => str_eq(t.extension, ext),
        Selector::MimeType(mime) => str_eq(t.mime_type, mime),
        Selector::Category(c) => t.matcher_type == *c,
    }
}

/// Some built-in descriptor picked by `s` matches `b`.
pub open spec fn builtin_any(b: Seq<u8>, s: Selector) -> bool {
    exists|k: int| 0 <= k < BUILTIN_COUNT && #[trigger] selects(s, builtin_type(k)) && builtin_hit(k, b)
}

/// Some built-in descriptor is picked by `s`.
pub open spec fn builtin_has(s: Selector) -> bool {
    exists|k: int| 0 <= k < BUILTIN_COUNT && #[trigger] selects(s, builtin_type(k))
}

/// The first built-in descriptor at or after position `k` picked by `s`.
pub open spec fn builtin_first_selected(s: Selector, k: int) -> Option<int>
    decreases BUILTIN_COUNT - k,
{
    if k < 0 || k >= BUILTIN_COUNT {
        None
    } else if selects(s, builtin_type(k)) {
        Some(k)
    } else {
        builtin_first_selected(s, k + 1)
    }
}

/// Whether a built-in descriptor picked by `s` matches `buf`.
fn builtin_any_match(buf: &[u8], s: &Selector) -> (r: bool)
    ensures
        r == builtin_any(buf@, *s),
{
    if buf.len() == 0 {
        return false;
    }
    let mut k: usize = 0;
    while k < BUILTIN_COUNT
        invariant
            0 <= k <= BUILTIN_COUNT,
            buf@.len() > 0,
            forall|j: int|
                0 <= j < k ==> !(#[trigger] selects(*s, builtin_type(j)) && builtin_hit(j, buf@)),
        decreases BUILTIN_COUNT - k,
    {
        let f = builtin_format_at(k);
        if select(s, &f.descriptor()) && f.matches(buf) {
            assert(selects(*s, builtin_type(k as int)) && builtin_hit(k as int, buf@));
            return true;
        }
        k += 1;
    }
    false
}

/// The first built-in descriptor picked by `s`.
fn builtin_find(s: &Selector) -> (r: Option<usize>)
    ensures
        r matches Some(i) ==> i < BUILTIN_COUNT && builtin_first_selected(*s, 0) == Some(i as int),
        r is None ==> builtin_first_selected(*s, 0) is None,
        r is Some <==> builtin_has(*s),
{
    let mut k: usize = 0;
    while k < BUILTIN_COUNT
        invariant
            0 <= k <= BUILTIN_COUNT,
            builtin_first_selected(*s, 0) == builtin_first_selected(*s, k as int),
            forall|j: int| 0 <= j < k ==> !#[trigger] selects(*s, builtin_type(j)),
        decreases BUILTIN_COUNT - k,
    {
        if select(s, &builtin_format_at(k).descriptor()) {
            return Some(k);
        }
        k += 1;
    }
    None
}

/// No built-in descriptor matches an empty buffer.
proof fn lemma_empty_matches_no_builtin(b: Seq<u8>, k: int)
    requires
        b.len() == 0,
    ensures
        builtin_first_match(b, k) is None,
    decreases BUILTIN_COUNT - k,
{
    if 0 <= k < BUILTIN_COUNT {
        lemma_empty_matches_no_builtin(b, k + 1);
    }
}

/// The first built-in descriptor, scanning from `k`, that matches `buf`.
fn builtin_scan(buf: &[u8], k: usize) -> (r: Option<usize>)
    requires
        k <= BUILTIN_COUNT,
    ensures
        r matches Some(i) ==> k <= i < BUILTIN_COUNT && builtin_first_match(buf@, k as int) == Some(
            i as int,
        ),
        r is None ==> builtin_first_match(buf@, k as int) is None,
{
    if buf.len() == 0 {
        proof {
            lemma_empty_matches_no_builtin(buf@, k as int);
        }
        return None;
    }
    let mut i = k;
    while i < BUILTIN_COUNT
        invariant
            k <= i <= BUILTIN_COUNT,
            buf@.len() > 0,
            builtin_first_match(buf@, k as int) == builtin_first_match(buf@, i as int),
        decreases BUILTIN_COUNT - i,
    {
        if builtin_format_at(i).matches(buf) {
            return Some(i);
        }
        i += 1;
    }
    None
}

// ---------------------------------------------------------------------------------------
// The engine

/// Infer allows to use a custom set of matchers for inferring a MIME type.
///
/// Most operations can be done by using the free functions of this crate, but when custom
/// matchers are needed every call has to go through an `Infer` to see them. Its view is the
/// list of custom descriptors with their matchers, in the order they were added.
pub struct Infer<F: Fn(&[u8]) -> bool> {
    custom: Vec<(Type, F)>,
}

impl<F: Fn(&[u8]) -> bool> View for Infer<F> {
    type V = Seq<(Type, F)>;

    closed spec fn view(&self) -> Seq<(Type, F)> {
        self.custom@
    }
}

impl<F: Fn(&[u8]) -> bool> Infer<F> {
    /// Every custom entry is a `Custom` descriptor naming its own position, with a matcher
    /// that is total and deterministic.
    pub closed spec fn wf(&self) -> bool {
        forall|i: int|
            0 <= i < self.custom@.len() ==> {
                &&& (#[trigger] self.custom@[i]).0.matcher == Predicate::Custom(i as usize)
                &&& self.custom@[i].0.matcher_type == MatcherType::Custom
                &&& total_matcher(self.custom@[i].1)
                &&& deterministic_matcher(self.custom@[i].1)
            }
    }

    /// Custom descriptor `k` matches a buffer holding `b`; an empty buffer matches nothing.
    pub open spec fn custom_hit(&self, k: int, b: Seq<u8>) -> bool {
        b.len() > 0 && accepts(self@[k].1, b)
    }

    /// The first custom descriptor at or after position `k` that matches `b`.
    pub open spec fn custom_first_match(&self, b: Seq<u8>, k: int) -> Option<int>
        decreases self@.len() - k,
    {
        if k < 0 || k >= self@.len() {
            None
        } else if self.custom_hit(k, b) {
            Some(k)
        } else {
            self.custom_first_match(b, k + 1)
        }
    }

    /// What this engine classifies `b` as: the first matching custom descriptor, else the
    /// first matching built-in one.
    pub open spec fn spec_get(&self, b: Seq<u8>) -> Option<Type> {
        match self.custom_first_match(b, 0) {
            Some(k) => Some(self@[k].0),
            None => builtin_get(b),
        }
    }

    /// Some descriptor picked by `s`, custom or built-in, matches `b`.
    pub open spec fn spec_any(&self, b: Seq<u8>, s: Selector) -> bool {
        (exists|k: int|
            0 <= k < self@.len() && #[trigger] selects(s, self@[k].0) && self.custom_hit(k, b))
            || builtin_any(b, s)
    }

    /// Some descriptor, custom or built-in, is picked by `s`.
    pub open spec fn spec_has(&self, s: Selector) -> bool {
        (exists|k: int| 0 <= k < self@.len() && #[trigger] selects(s, self@[k].0)) || builtin_has(s)
    }

    /// The first custom descriptor at or after position `k` picked by `s`.
    pub open spec fn custom_first_selected(&self, s: Selector, k: int) -> Option<int>
        decreases self@.len() - k,
    {
        if k < 0 || k >= self@.len() {
            None
        } else if selects(s, self@[k].0) {
            Some(k)
        } else {
            self.custom_first_selected(s, k + 1)
        }
    }

    /// The first descriptor picked by `s`, custom ones first.
    pub open spec fn spec_lookup(&self, s: Selector) -> Option<Type> {
        match self.custom_first_selected(s, 0) {
            Some(k) => Some(self@[k].0),
            None => builtin_type_at(builtin_first_selected(s, 0)),
        }
    }

    /// Initialize a new instance of the infer struct.
    pub fn new() -> (r: Self)
        ensures
            r.wf(),
            r@ == Seq::<(Type, F)>::empty(),
    {
        Infer { custom: Vec::new() }
    }

    /// Returns how many custom matchers were added.
    pub fn custom_count(&self) -> (n: usize)
        ensures
            n == self@.len(),
    {
        self.custom.len()
    }

    /// Returns the custom descriptor at position `k`.
    pub fn custom_type(&self, k: usize) -> (t: Type)
        requires
            k < self@.len(),
        ensures
            t == self@[k as int].0,
    {
        self.custom[k].0
    }

    /// Whether custom descriptor `k` matches `buf`.
    pub(crate) fn custom_matches(&self, k: usize, buf: &[u8]) -> (r: bool)
        requires
            self.wf(),
            k < self@.len(),
        ensures
            r == self.custom_hit(k as int, buf@),
    {
        if buf.len() == 0 {
            return false;
        }
        let entry = &self.custom[k];
        let r = (entry.1)(buf);
        proof {
            let f = self@[k as int].1;
            if r {
                assert(f.ensures((buf,), true));
            } else {
                assert forall|s: &[u8]| s@ == buf@ implies !#[trigger] f.ensures((s,), true) by {
                    assert(s =~= buf);
                }
            }
        }
        r
    }

    /// Returns the file type of the buffer.
    pub fn get(&self, buf: &[u8]) -> (r: Option<Type>)
        requires
            self.wf(),
        ensures
            r == self.spec_get(buf@),
    {
        let n = self.custom.len();
        let mut k: usize = 0;
        while k < n
            invariant
                self.wf(),
                n == self@.len(),
                0 <= k <= n,
                self.custom_first_match(buf@, 0) == self.custom_first_match(buf@, k as int),
            decreases n - k,
        {
            if self.custom_matches(k, buf) {
                return Some(self.custom[k].0);
            }
            k += 1;
        }
        get(buf)
    }

    /// Whether a descriptor picked by `s` matches `buf`, custom ones tried first.
    fn any_match(&self, buf: &[u8], s: &Selector) -> (r: bool)
        requires
            self.wf(),
        ensures
            r == self.spec_any(buf@, *s),
    {
        let n = self.custom.len();
        let mut k: usize = 0;
        while k < n
            invariant
                self.wf(),
                n == self@.len(),
                0 <= k <= n,
                forall|j: int|
                    0 <= j < k ==> !(#[trigger] selects(*s, self@[j].0) && self.custom_hit(j, buf@)),
            decreases n - k,
        {
            if select(s, &self.custom[k].0) && self.custom_matches(k, buf) {
                assert(selects(*s, self@[k as int].0) && self.custom_hit(k as int, buf@));
                return true;
            }
            k += 1;
        }
        builtin_any_match(buf, s)
    }

    /// The first descriptor picked by `s`, custom ones first.
    fn lookup(&self, s: &Selector) -> (r: Option<Type>)
        ensures
            r == self.spec_lookup(*s),
            r is Some <==> self.spec_has(*s),
    {
        let n = self.custom.len();
        let mut k: usize = 0;
        while k < n
            invariant
                n == self@.len(),
                0 <= k <= n,
                self.custom_first_selected(*s, 0) == self.custom_first_selected(*s, k as int),
                forall|j: int| 0 <= j < k ==> !#[trigger] selects(*s, self@[j].0),
            decreases n - k,
        {
            if select(s, &self.custom[k].0) {
                assert(selects(*s, self@[k as int].0));
                return Some(self.custom[k].0);
            }
            k += 1;
        }
        match builtin_find(s) {
            Some(i) => Some(builtin_format_at(i).descriptor()),
            None => None,
        }
    }

    /// Determines whether a buffer is of given extension.
    pub fn is(&self, buf: &[u8], extension: &str) -> (r: bool)
        requires
            self.wf(),
        ensures
            r == self.spec_any(buf@, Selector::Extension(extension)),
    {
        self.any_match(buf, &Selector::Extension(extension))
    }

    /// Determines whether a buffer is of given mime type.
    pub fn is_mime(&self, buf: &[u8], mime_type: &str) -> (r: bool)
        requires
            self.wf(),
        ensures
            r == self.spec_any(buf@, Selector::MimeType(mime_type)),
    {
        self.any_match(buf, &Selector::MimeType(mime_type))
    }

    /// Returns whether an extension is supported.
    pub fn is_supported(&self, extension: &str) -> (r: bool)
        ensures
            r == self.spec_has(Selector::Extension(extension)),
    {
        self.lookup(&Selector::Extension(extension)).is_some()
    }

    /// Returns the type for the mime type if supported.
    pub fn get_type_by_mime(&self, mime_type: &str) -> (r: Option<Type>)
        ensures
            r == self.spec_lookup(Selector::MimeType(mime_type)),
    {
        self.lookup(&Selector::MimeType(mime_type))
    }

    /// Returns the type for the extension if supported.
    pub fn get_type_by_extension(&self, extension: &str) -> (r: Option<Type>)
        ensures
            r == self.spec_lookup(Selector::Extension(extension)),
    {
        self.lookup(&Selector::Extension(extension))
    }

    /// Returns whether a mime type is supported.
    pub fn is_mime_supported(&self, mime_type: &str) -> (r: bool)
        ensures
            r == self.spec_has(Selector::MimeType(mime_type)),
    {
        self.lookup(&Selector::MimeType(mime_type)).is_some()
    }

    /// Determines whether a buffer is of a type of the given category.
    fn is_type(&self, buf: &[u8], matcher_type: MatcherType) -> (r: bool)
        requires
            self.wf(),
        ensures
            r == self.spec_any(buf@, Selector::Category(matcher_type)),
    {
        self.any_match(buf, &Selector::Category(matcher_type))
    }

    /// Determines whether a buffer is an application type.
    pub fn is_app(&self, buf: &[u8]) -> (r: bool)
        requires
            self.wf(),
        ensures
            r == self.spec_any(buf@, Selector::Category(MatcherType::App)),
    {
        self.is_type(buf, MatcherType::App)
    }

    /// Determines whether a buffer is an archive type.
    pub fn is_archive(&self, buf: &[u8]) -> (r: bool)
        requires
            self.wf(),
        ensures
            r == self.spec_any(buf@, Selector::Category(MatcherType::Archive)),
    {
        self.is_type(buf, MatcherType::Archive)
    }

    /// Determines whether a buffer is an audio type.
    pub fn is_audio(&self, buf: &[u8]) -> (r: bool)
        requires
            self.wf(),
        ensures
            r == self.spec_any(buf@, Selector::Category(MatcherType::Audio)),
    {
        self.is_type(buf, MatcherType::Audio)
    }

    /// Determines whether a buffer is a book type.
    pub fn is_book(&self, buf: &[u8]) -> (r: bool)
        requires
            self.wf(),
        ensures
            r == self.spec_any(buf@, Selector::Category(MatcherType::Book)),
    {
        self.is_type(buf, MatcherType::Book)
    }

    /// Determines whether a buffer is a document type.
    pub fn is_document(&self, buf: &[u8]) -> (r: bool)
        requires
            self.wf(),
        ensures
            r == self.spec_any(buf@, Selector::Category(MatcherType::Doc)),
    {
        self.is_type(buf, MatcherType::Doc)
    }

    /// Determines whether a buffer is a font type.
    pub fn is_font(&self, buf: &[u8]) -> (r: bool)
        requires
            self.wf(),
        ensures
            r == self.spec_any(buf@, Selector::Category(MatcherType::Font)),
    {
        self.is_type(buf, MatcherType::Font)
    }

    /// Determines whether a buffer is an image type.
    pub fn is_image(&self, buf: &[u8]) -> (r: bool)
        requires
            self.wf(),
        ensures
            r == self.spec_any(buf@, Selector::Category(MatcherType::Image)),
    {
        self.is_type(buf, MatcherType::Image)
    }

    /// Determines whether a buffer is a video type.
    pub fn is_video(&self, buf: &[u8]) -> (r: bool)
        requires
            self.wf(),
        ensures
            r == self.spec_any(buf@, Selector::Category(MatcherType::Video)),
    {
        self.is_type(buf, MatcherType::Video)
    }

    /// Determines whether a buffer is one of the custom types added.
    pub fn is_custom(&self, buf: &[u8]) -> (r: bool)
        requires
            self.wf(),
        ensures
            r == self.spec_any(buf@, Selector::Category(MatcherType::Custom)),
    {
        self.is_type(buf, MatcherType::Custom)
    }

    /// Adds a custom matcher.
    ///
    /// Custom matchers are matched in order of addition and before the default set of
    /// matchers. `read_size` is how many bytes matching from a reader reads before handing
    /// them to `m`; `None` when the type is not to be matched from a reader.
    pub fn add(
        &mut self,
        mime_type: &'static str,
        extension: &'static str,
        m: F,
        read_size: Option<usize>,
    )
        requires
            old(self).wf(),
            total_matcher(m),
            deterministic_matcher(m),
        ensures
            final(self).wf(),
            final(self)@ == old(self)@.push(
                (
                    Type {
                        matcher_type: MatcherType::Custom,
                        mime_type,
                        extension,
                        matcher: Predicate::Custom(old(self)@.len() as usize),
                        read_size,
                    },
                    m,
                ),
            ),
    {
        let t = Type {
            matcher_type: MatcherType::Custom,
            mime_type,
            extension,
            matcher: Predicate::Custom(self.custom.len()),
            read_size,
        };
        self.custom.push((t, m));
    }
}

impl<F: Fn(&[u8]) -> bool> Default for Infer<F> {
    fn default() -> (r: Self)
        ensures
            r.wf(),
            r@ == Seq::<(Type, F)>::empty(),
    {
        Infer::new()
    }
}

// ---------------------------------------------------------------------------------------
// Laws

/// No custom descriptor at or after position `k` matches an empty buffer.
proof fn lemma_empty_matches_no_custom<F: Fn(&[u8]) -> bool>(e: Infer<F>, k: int)
    ensures
        e.custom_first_match(Seq::empty(), k) is None,
    decreases e@.len() - k,
{
    if 0 <= k < e@.len() {
        lemma_empty_matches_no_custom(e, k + 1);
    }
}

/// An empty buffer is classified as nothing, by the built-in registry and by any engine,
/// whatever custom matchers it holds.
pub proof fn empty_buffer_never_matches<F: Fn(&[u8]) -> bool>(e: Infer<F>)
    ensures
        builtin_get(Seq::empty()) is None,
        e.spec_get(Seq::empty()) is None,
{
    lemma_empty_matches_no_builtin(Seq::empty(), 0);
    lemma_empty_matches_no_custom(e, 0);
}

/// A custom matcher takes precedence over the built-in registry: once it is added to a fresh
/// engine, every non-empty buffer it accepts is classified as its type, whatever built-in
/// signature the buffer carries as well.
pub proof fn custom_overrides_builtin<F: Fn(&[u8]) -> bool>(
    fresh: Infer<F>,
    added: Infer<F>,
    t: Type,
    m: F,
    b: Seq<u8>,
)
    requires
        fresh@.len() == 0,
        added@ == fresh@.push((t, m)),
        b.len() > 0,
        accepts(m, b),
    ensures
        added.spec_get(b) == Some(t),
{
    assert(added@[0] == (t, m));
    assert(added.custom_hit(0, b));
}

/// Custom matchers are tried in the order they were added: when two matchers added to a fresh
/// engine one after the other both accept a non-empty buffer, the first one decides it.
pub proof fn custom_matchers_keep_insertion_order<F: Fn(&[u8]) -> bool>(
    fresh: Infer<F>,
    one: Infer<F>,
    two: Infer<F>,
    first: (Type, F),
    second: (Type, F),
    b: Seq<u8>,
)
    requires
        fresh@.len() == 0,
        one@ == fresh@.push(first),
        two@ == one@.push(second),
        b.len() > 0,
        accepts(first.1, b),
        accepts(second.1, b),
    ensures
        two.spec_get(b) == Some(first.0),
{
    assert(two@[0] == first);
    assert(two.custom_hit(0, b));
}

// ---------------------------------------------------------------------------------------
// The default engine: the built-in registry alone

/// Returns the file type of the buffer.
pub fn get(buf: &[u8]) -> (r: Option<Type>)
    ensures
        r == builtin_get(buf@),
{
    match builtin_scan(buf, 0) {
        Some(k) => Some(builtin_format_at(k).descriptor()),
        None => None,
    }
}

/// Determines whether a buffer is of given extension.
pub fn is(buf: &[u8], extension: &str) -> (r: bool)
    ensures
        r == builtin_any(buf@, Selector::Extension(extension)),
{
    builtin_any_match(buf, &Selector::Extension(extension))
}

/// Determines whether a buffer is of given mime type.
pub fn is_mime(buf: &[u8], mime_type: &str) -> (r: bool)
    ensures
        r == builtin_any(buf@, Selector::MimeType(mime_type)),
{
    builtin_any_match(buf, &Selector::MimeType(mime_type))
}

/// Returns whether an extension is supported.
pub fn is_supported(extension: &str) -> (r: bool)
    ensures
        r == builtin_has(Selector::Extension(extension)),
{
    builtin_find(&Selector::Extension(extension)).is_some()
}

/// Returns whether a mime type is supported.
pub fn is_mime_supported(mime_type: &str) -> (r: bool)
    ensures
        r == builtin_has(Selector::MimeType(mime_type)),
{
    builtin_find(&Selector::MimeType(mime_type)).is_some()
}

/// Returns the file type for the mime type if supported.
pub fn get_type_by_mime(mime_type: &str) -> (r: Option<Type>)
    ensures
        r == builtin_type_at(builtin_first_selected(Selector::MimeType(mime_type), 0)),
{
    match builtin_find(&Selector::MimeType(mime_type)) {
        Some(k) => Some(builtin_format_at(k).descriptor()),
        None => None,
    }
}

/// Returns the type for the extension if supported.
pub fn get_type_by_extension(extension: &str) -> (r: Option<Type>)
    ensures
        r == builtin_type_at(builtin_first_selected(Selector::Extension(extension), 0)),
{
    match builtin_find(&Selector::Extension(extension)) {
        Some(k) => Some(builtin_format_at(k).descriptor()),
        None => None,
    }
}

/// Determines whether a buffer is an application type.
pub fn is_app(buf: &[u8]) -> (r: bool)
    ensures
        r == builtin_any(buf@, Selector::Category(MatcherType::App)),
{
    builtin_any_match(buf, &Selector::Category(MatcherType::App))
}

/// Determines whether a buffer is an archive type.
pub fn is_archive(buf: &[u8]) -> (r: bool)
    ensures
        r == builtin_any(buf@, Selector::Category(MatcherType::Archive)),
{
    builtin_any_match(buf, &Selector::Category(MatcherType::Archive))
}

/// Determines whether a buffer is an audio type.
pub fn is_audio(buf: &[u8]) -> (r: bool)
    ensures
        r == builtin_any(buf@, Selector::Category(MatcherType::Audio)),
{
    builtin_any_match(buf, &Selector::Category(MatcherType::Audio))
}

/// Determines whether a buffer is a book type.
pub fn is_book(buf: &[u8]) -> (r: bool)
    ensures
        r == builtin_any(buf@, Selector::Category(MatcherType::Book)),
{
    builtin_any_match(buf, &Selector::Category(MatcherType::Book))
}

/// Determines whether a buffer is a document type.
pub fn is_document(buf: &[u8]) -> (r: bool)
    ensures
        r == builtin_any(buf@, Selector::Category(MatcherType::Doc)),
{
    builtin_any_match(buf, &Selector::Category(MatcherType::Doc))
}

/// Determines whether a buffer is a font type.
pub fn is_font(buf: &[u8]) -> (r: bool)
    ensures
        r == builtin_any(buf@, Selector::Category(MatcherType::Font)),
{
    builtin_any_match(buf, &Selector::Category(MatcherType::Font))
}

/// Determines whether a buffer is an image type.
pub fn is_image(buf: &[u8]) -> (r: bool)
    ensures
        r == builtin_any(buf@, Selector::Category(MatcherType::Image)),
{
    builtin_any_match(buf, &Selector::Category(MatcherType::Image))
}

/// Determines whether a buffer is a video type.
pub fn is_video(buf: &[u8]) -> (r: bool)
    ensures
        r == builtin_any(buf@, Selector::Category(MatcherType::Video)),
{
    builtin_any_match(buf, &Selector::Category(MatcherType::Video))
}

} // verus!
