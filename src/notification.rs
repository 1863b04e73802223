//! Notification records and the filter that suppresses immediate repeats.
use vstd::prelude::*;
use vstd::slice::slice_to_vec;
use vstd::utf8::encode_utf8;

verus! {

/// A notification as received from the session bus, already normalized.
#[derive(Debug)]
pub struct Notification {
    /// Object path of the message that carried it.
    pub path: String,
    /// Title; only notifications with a title are shown.
    pub title: Option<String>,
    /// Summary text; it plays no part in duplicate detection.
    pub summary: Option<String>,
    /// Path of a thumbnail image.
    pub image: Option<String>,
}

/// The characters of an optional string.
pub open spec fn opt_chars(s: Option<String>) -> Option<Seq<char>> {
    match s {
        Some(t) => Some(t@),
        None => None,
    }
}

/// The bytes that a fingerprint digests: the title's UTF-8 bytes, a 0xFF
/// byte (which UTF-8 never uses, so it marks where the title ends), then 0
/// for no image, or 1 and the image reference's UTF-8 bytes.
pub open spec fn fingerprint_key(title: Seq<char>, image: Option<Seq<char>>) -> Seq<u8> {
    encode_utf8(title) + seq![0xffu8] + match image {
        None => seq![0u8],
        Some(i) => seq![1u8] + encode_utf8(i),
    }
}

/// The 64-bit hash that std's `DefaultHasher` gives for these bytes.
pub uninterp spec fn default_hash_of(bytes: Seq<u8>) -> u64;

/// Relies on `std::hash::DefaultHasher` (`new`, `write`, `finish`): every
/// hasher made by `new` is the same, so the hash depends on the bytes written alone.
#[verifier::external_body]
fn hash_bytes(bytes: &[u8]) -> (r: u64)
    ensures
        r == default_hash_of(bytes@),
{
    let mut hasher = std::hash::DefaultHasher::new();
    std::hash::Hasher::write(&mut hasher, bytes);
    std::hash::Hasher::finish(&hasher)
}

/// The fingerprint of a notification with this title and image reference.
pub open spec fn fingerprint_spec(title: Seq<char>, image: Option<Seq<char>>) -> u64 {
    default_hash_of(fingerprint_key(title, image))
}

/// Digest of a title and an image reference, used to detect immediate repeats.
pub fn fingerprint(title: &str, image: &Option<String>) -> (r: u64)
    ensures
        r == fingerprint_spec(title@, opt_chars(*image)),
{
    let mut key: Vec<u8> = slice_to_vec(title.as_bytes());
    key.push(0xff);
    match image {
        None => key.push(0),
        Some(i) => {
            key.push(1);
            let mut rest: Vec<u8> = slice_to_vec(i.as_str().as_bytes());
            key.append(&mut rest);
        },
    }
    assert(key@ =~= fingerprint_key(title@, opt_chars(*image)));
    hash_bytes(key.as_slice())
}

impl Notification {
    /// The fingerprint of this notification, if it has a title.
    pub open spec fn fingerprint_of(self) -> Option<u64> {
        match self.title {
            Some(t) => Some(fingerprint_spec(t@, opt_chars(self.image))),
            None => None,
        }
    }

    /// The fingerprint of this notification, if it has a title: a digest of
    /// the title and the image reference.
    pub fn hash(&self) -> (r: Option<u64>)
        ensures
            r == self.fingerprint_of(),
    {
        match &self.title {
            Some(t) => Some(fingerprint(t.as_str(), &self.image)),
            None => None,
        }
    }
}

/// Two notifications with equal title and image have equal fingerprints,
/// whatever their summaries and paths.
pub proof fn lemma_fingerprint_ignores_summary(a: Notification, b: Notification)
    requires
        opt_chars(a.title) == opt_chars(b.title),
        opt_chars(a.image) == opt_chars(b.image),
    ensures
        a.fingerprint_of() == b.fingerprint_of(),
{
}

/// Suppresses a notification that repeats the one just before it.
#[derive(Clone, Copy, Debug, PartialEq, Eq, Structural)]
pub struct DedupGate {
    /// Fingerprint of the last notification with a title; 0 before any.
    pub last_fingerprint: u64,
}

impl DedupGate {
    /// The filter before any notification.
    pub open spec fn initial() -> DedupGate {
        DedupGate { last_fingerprint: 0 }
    }

    /// What the filter does with one notification: the next filter, and whether
    /// the notification is shown. A notification without a title is not
    /// shown and leaves the filter as it is. One with a title is shown when its
    /// fingerprint differs from the last one, and its fingerprint becomes the
    /// last one either way.
    pub open spec fn step(self, n: Notification) -> (DedupGate, bool) {
        match n.fingerprint_of() {
            None => (self, false),
            Some(fp) => (DedupGate { last_fingerprint: fp }, fp != self.last_fingerprint),
        }
    }

    /// How many of the notifications `ns`, fed in order, are shown.
    pub open spec fn shown_count(self, ns: Seq<Notification>) -> nat
        decreases ns.len(),
    {
        if ns.len() == 0 {
            0
        } else {
            let (next, shown) = self.step(ns[0]);
            (if shown { 1nat } else { 0nat }) + next.shown_count(ns.skip(1))
        }
    }

    /// A filter that has seen no notification.
    pub fn new() -> (r: DedupGate)
        ensures
            r == DedupGate::initial(),
    {
        DedupGate { last_fingerprint: 0 }
    }

    /// Decides on a notification with fingerprint `fp`: shown when it differs
    /// from the last fingerprint. `fp` becomes the last fingerprint either way.
    pub fn accept_fingerprint(&mut self, fp: u64) -> (shown: bool)
        ensures
            shown == (fp != old(self).last_fingerprint),
            final(self).last_fingerprint == fp,
    {
        let shown = fp != self.last_fingerprint;
        self.last_fingerprint = fp;
        shown
    }

    /// Decides whether the notification `n` is shown, and records it.
    pub fn accept(&mut self, n: &Notification) -> (shown: bool)
        ensures
            (*final(self), shown) == old(self).step(*n),
    {
        match n.hash() {
            None => false,
            Some(fp) => self.accept_fingerprint(fp),
        }
    }
}

/// The fingerprint of a notification with a title.
pub open spec fn fp(n: Notification) -> u64 {
    n.fingerprint_of()->Some_0
}

/// The same notification three times in a row is shown once.
pub proof fn lemma_repeat_shown_once(g: DedupGate, a: Notification)
    requires
        a.title is Some,
        fp(a) != g.last_fingerprint,
    ensures
        g.shown_count(seq![a, a, a]) == 1,
{
    lemma_shown_count_three(g, a, a, a);
}

/// A notification, a different one, then the first again: all three are shown.
pub proof fn lemma_alternation_shown_each_time(g: DedupGate, a: Notification, b: Notification)
    requires
        a.title is Some,
        b.title is Some,
        fp(a) != fp(b),
        fp(a) != g.last_fingerprint,
    ensures
        g.shown_count(seq![a, b, a]) == 3,
{
    lemma_shown_count_three(g, a, b, a);
}

/// A notification without a title between two equal ones is not shown and
/// does not reset the filter: of the three, one is shown.
pub proof fn lemma_untitled_ignored(g: DedupGate, a: Notification, u: Notification)
    requires
        a.title is Some,
        u.title is None,
        fp(a) != g.last_fingerprint,
    ensures
        g.shown_count(seq![a, u, a]) == 1,
{
    lemma_shown_count_three(g, a, u, a);
}

/// Unfolds the count over three notifications.
proof fn lemma_shown_count_three(g: DedupGate, a: Notification, b: Notification, c: Notification)
    ensures
        ({
            let (g1, s1) = g.step(a);
            let (g2, s2) = g1.step(b);
            let (g3, s3) = g2.step(c);
            g.shown_count(seq![a, b, c]) == (if s1 { 1nat } else { 0nat }) + (if s2 { 1nat } else { 0nat })
                + (if s3 { 1nat } else { 0nat })
        }),
{
    let s = seq![a, b, c];
    let s1 = s.skip(1);
    let s2 = s1.skip(1);
    let s3 = s2.skip(1);
    assert(s1 =~= seq![b, c]);
    assert(s2 =~= seq![c]);
    assert(s3 =~= Seq::<Notification>::empty());
    let (g1, b1) = g.step(a);
    let (g2, b2) = g1.step(b);
    let (g3, b3) = g2.step(c);
    assert(g3.shown_count(s3) == 0);
    assert(g2.shown_count(s2) == (if b3 { 1nat } else { 0nat }) + g3.shown_count(s3));
    assert(g1.shown_count(s1) == (if b2 { 1nat } else { 0nat }) + g2.shown_count(s2));
    assert(g.shown_count(s) == (if b1 { 1nat } else { 0nat }) + g1.shown_count(s1));
}

/// The `file://` scheme.
pub open spec fn file_scheme() -> Seq<char> {
    seq!['f', 'i', 'l', 'e', ':', '/', '/']
}

/// `s` with every `file://` removed, scanning left to right.
pub open spec fn without_file_scheme(s: Seq<char>) -> Seq<char>
    decreases s.len(),
{
    if s.len() == 0 {
        s
    } else if s.len() >= 7 && s.subrange(0, 7) == file_scheme() {
        without_file_scheme(s.skip(7))
    } else {
        seq![s[0]] + without_file_scheme(s.skip(1))
    }
}

/// Whether `file://` starts at character `i` of `s`.
fn file_scheme_at(s: &str, i: usize) -> (r: bool)
    requires
        i <= s@.len(),
    ensures
        r == (i + 7 <= s@.len() && s@.subrange(i as int, i + 7) == file_scheme()),
{
    let n = s.unicode_len();
    if n - i < 7 {
        return false;
    }
    let r = s.get_char(i) == 'f' && s.get_char(i + 1) == 'i' && s.get_char(i + 2) == 'l'
        && s.get_char(i + 3) == 'e' && s.get_char(i + 4) == ':' && s.get_char(i + 5) == '/'
        && s.get_char(i + 6) == '/';
    if r {
        assert(s@.subrange(i as int, i + 7) =~= file_scheme());
    } else {
        assert(s@.subrange(i as int, i + 7) != file_scheme()) by {
            if s@.subrange(i as int, i + 7) == file_scheme() {
                assert(s@.subrange(i as int, i + 7)[0] == s@[i as int]);
                assert(s@.subrange(i as int, i + 7)[1] == s@[i + 1]);
                assert(s@.subrange(i as int, i + 7)[2] == s@[i + 2]);
                assert(s@.subrange(i as int, i + 7)[3] == s@[i + 3]);
                assert(s@.subrange(i as int, i + 7)[4] == s@[i + 4]);
                assert(s@.subrange(i as int, i + 7)[5] == s@[i + 5]);
                assert(s@.subrange(i as int, i + 7)[6] == s@[i + 6]);
            }
        }
    }
    r
}

/// The image path named by an art URL: the URL with every `file://` removed.
pub fn image_path_of(url: &str) -> (r: String)
    ensures
        r@ == without_file_scheme(url@),
{
    let n = url.unicode_len();
    let mut out = String::new();
    let mut i: usize = 0;
    assert(url@.skip(0) =~= url@);
    assert(out@ + without_file_scheme(url@) =~= without_file_scheme(url@));
    while i < n
        invariant
            n == url@.len(),
            i <= n,
            out@ + without_file_scheme(url@.skip(i as int)) == without_file_scheme(url@),
        decreases n - i,
    {
        let ghost rest = url@.skip(i as int);
        if file_scheme_at(url, i) {
            assert(rest.subrange(0, 7) =~= url@.subrange(i as int, i + 7));
            assert(rest.skip(7) =~= url@.skip(i + 7));
            i = i + 7;
        } else {
            assert(rest.len() >= 7 ==> rest.subrange(0, 7) =~= url@.subrange(i as int, i + 7));
            assert(rest.skip(1) =~= url@.skip(i + 1));
            let ghost before = out@;
            out.append(url.substring_char(i, i + 1));
            assert(url@.subrange(i as int, i + 1) =~= seq![rest[0]]);
            assert(out@ + without_file_scheme(url@.skip(i + 1)) =~= before + without_file_scheme(rest));
            i = i + 1;
        }
    }
    assert(url@.skip(n as int) =~= Seq::<char>::empty());
    out
}

impl Notification {
    /// A notification read from track metadata: `title`, and an image at the
    /// path that the art URL `art_url` names.
    pub fn from_metadata(path: String, title: Option<String>, art_url: Option<String>) -> (r: Notification)
        ensures
            r.path@ == path@,
            opt_chars(r.title) == opt_chars(title),
            r.summary is None,
            opt_chars(r.image) == match art_url {
                Some(u) => Some(without_file_scheme(u@)),
                None => None,
            },
    {
        let image = match &art_url {
            Some(u) => Some(image_path_of(u.as_str())),
            None => None,
        };
        Notification { path, title, summary: None, image }
    }
}

} // verus!
