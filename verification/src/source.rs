//! Virtual source files and the shared source cache.
//!
//! A program that does not come from disk (standard input, inline eval text)
//! is wrapped in a [`VirtualFileRecord`] and inserted into the process-wide
//! [`SourceCache`], keyed by its entry specifier.  Resolution performed by
//! the external module graph then finds the record exactly as it would find
//! a real file.  The cache is append-only with last-write-wins upserts.

use vstd::prelude::*;

use crate::errors::RunError;
use crate::utf8::is_utf8;
use crate::utf8::validate_utf8;

verus! {

/// What kind of text a virtual file declares itself to be.
///
/// Standard-input runs are marked as full typed scripts so type-aware
/// tooling treats them normally; eval runs are marked as plain, unclassified
/// text.
#[derive(Clone, Copy, Debug, PartialEq, Eq, Structural)]
pub enum ContentKind {
    TypedScript,
    Unclassified,
}

/// Mathematical image of a [`VirtualFileRecord`].
#[verifier::ext_equal]
pub ghost struct RecordView {
    pub local_path: Seq<u8>,
    pub specifier: Seq<u8>,
    pub content_kind: ContentKind,
    pub body: Seq<u8>,
    pub type_hint: Option<Seq<u8>>,
    pub headers: Option<Seq<(Seq<u8>, Seq<u8>)>>,
}

impl RecordView {
    /// The one invariant of a cached record: its body is valid text.
    pub open spec fn well_formed(self) -> bool {
        is_utf8(self.body)
    }
}

/// An in-memory stand-in for a source file, registered so that specifier
/// lookup cannot distinguish it from a real file.
pub struct VirtualFileRecord {
    pub local_path: Vec<u8>,
    pub specifier: Vec<u8>,
    pub content_kind: ContentKind,
    pub body: Vec<u8>,
    pub type_hint: Option<Vec<u8>>,
    pub headers: Option<Vec<(Vec<u8>, Vec<u8>)>>,
}

impl View for VirtualFileRecord {
    type V = RecordView;

    open spec fn view(&self) -> RecordView {
        RecordView {
            local_path: self.local_path@,
            specifier: self.specifier@,
            content_kind: self.content_kind,
            body: self.body@,
            type_hint: match self.type_hint {
                Some(t) => Some(t@),
                None => None,
            },
            headers: match self.headers {
                Some(h) => Some(h@.map_values(|p: (Vec<u8>, Vec<u8>)| (p.0@, p.1@))),
                None => None,
            },
        }
    }
}

/// The map a sequence of upserts denotes: later records shadow earlier ones
/// with the same specifier.
pub open spec fn cache_map(s: Seq<RecordView>) -> Map<Seq<u8>, RecordView>
    decreases s.len(),
{
    if s.len() == 0 {
        Map::empty()
    } else {
        cache_map(s.drop_last()).insert(s.last().specifier, s.last())
    }
}

/// The shared, process-lifetime source cache.  Records are only ever added;
/// re-inserting under an existing specifier overwrites what lookup returns.
pub struct SourceCache {
    entries: Vec<VirtualFileRecord>,
}

impl View for SourceCache {
    type V = Map<Seq<u8>, RecordView>;

    closed spec fn view(&self) -> Map<Seq<u8>, RecordView> {
        cache_map(self.entries@.map_values(|r: VirtualFileRecord| r@))
    }
}

/// An owned copy of a byte string.
pub fn copy_bytes(v: &Vec<u8>) -> (r: Vec<u8>)
    ensures
        r@ == v@,
{
    let n: usize = v.len();
    let mut r: Vec<u8> = Vec::new();
    let mut i: usize = 0;
    while i < n
        invariant
            0 <= i <= n,
            n == v@.len(),
            r@ =~= v@.take(i as int),
        decreases n - i,
    {
        r.push(v[i]);
        i = i + 1;
    }
    proof {
        assert(r@ =~= v@);
    }
    r
}

/// Byte-for-byte equality of two byte strings.
fn bytes_eq(a: &Vec<u8>, b: &Vec<u8>) -> (r: bool)
    ensures
        r == (a@ == b@),
{
    if a.len() != b.len() {
        return false;
    }
    let n: usize = a.len();
    let mut i: usize = 0;
    while i < n
        invariant
            0 <= i <= n,
            n == a@.len() == b@.len(),
            forall|j: int| 0 <= j < i ==> a@[j] == b@[j],
        decreases n - i,
    {
        if a[i] != b[i] {
            return false;
        }
        i = i + 1;
    }
    proof {
        assert(a@ =~= b@);
    }
    true
}

impl SourceCache {
    /// A cache with nothing injected yet.
    pub fn new() -> (c: SourceCache)
        ensures
            c@ == Map::<Seq<u8>, RecordView>::empty(),
    {
        SourceCache { entries: Vec::new() }
    }

    /// Idempotent upsert keyed by the record's specifier: afterwards the
    /// cache resolves that specifier to exactly `record`, and nothing else
    /// changed.
    pub fn insert(&mut self, record: VirtualFileRecord)
        requires
            record@.well_formed(),
        ensures
            final(self)@ == old(self)@.insert(record@.specifier, record@),
    {
        let ghost prior = self.entries@.map_values(|r: VirtualFileRecord| r@);
        let ghost rv = record@;
        self.entries.push(record);
        proof {
            let now = self.entries@.map_values(|r: VirtualFileRecord| r@);
            assert(now =~= prior.push(rv));
            assert(now.drop_last() =~= prior);
            assert(now.last() == rv);
        }
    }

    /// Resolve a specifier: the most recently inserted record under that
    /// key, or nothing when no record was ever injected for it.
    pub fn lookup(&self, specifier: &Vec<u8>) -> (r: Option<&VirtualFileRecord>)
        ensures
            match r {
                Some(record) => self@.contains_key(specifier@) && record@ == self@[specifier@],
                None => !self@.contains_key(specifier@),
            },
    {
        let ghost views = self.entries@.map_values(|r: VirtualFileRecord| r@);
        let n: usize = self.entries.len();
        let mut i: usize = n;
        while i > 0
            invariant
                0 <= i <= n,
                n == self.entries@.len(),
                views == self.entries@.map_values(|r: VirtualFileRecord| r@),
                forall|j: int| i <= j < n ==> views[j].specifier != specifier@,
            decreases i,
    {
            i = i - 1;
            if bytes_eq(&self.entries[i].specifier, specifier) {
                proof {
                    lemma_cache_map_found(views, specifier@, i as int);
                }
                return Some(&self.entries[i]);
            }
        }
        proof {
            lemma_cache_map_absent(views, specifier@);
        }
        None
    }
}

/// When position `i` holds the last record keyed by `k`, the denoted map
/// resolves `k` to that record.
proof fn lemma_cache_map_found(s: Seq<RecordView>, k: Seq<u8>, i: int)
    requires
        0 <= i < s.len(),
        s[i].specifier == k,
        forall|j: int| i < j < s.len() ==> s[j].specifier != k,
    ensures
        cache_map(s).contains_key(k),
        cache_map(s)[k] == s[i],
    decreases s.len(),
{
    if i == s.len() - 1 {
    } else {
        assert(s.drop_last()[i] == s[i]);
        lemma_cache_map_found(s.drop_last(), k, i);
        assert(s.last().specifier != k);
    }
}

/// A specifier no record carries is absent from the denoted map.
proof fn lemma_cache_map_absent(s: Seq<RecordView>, k: Seq<u8>)
    requires
        forall|j: int| 0 <= j < s.len() ==> s[j].specifier != k,
    ensures
        !cache_map(s).contains_key(k),
    decreases s.len(),
{
    if s.len() > 0 {
        lemma_cache_map_absent(s.drop_last(), k);
    }
}

/// The scheme prefix of a file URL: the bytes of `file://`.
pub open spec fn file_url_prefix() -> Seq<u8> {
    seq![102u8, 105u8, 108u8, 101u8, 58u8, 47u8, 47u8]
}

/// `s` is a file URL with a non-empty path, the only entry specifiers a
/// virtual file can stand behind.
pub open spec fn is_file_url(s: Seq<u8>) -> bool {
    s.len() > 7 && s.take(7) == file_url_prefix()
}

/// The on-disk path a file URL points at.
pub open spec fn local_path_of(s: Seq<u8>) -> Seq<u8> {
    s.skip(7)
}

/// Whether a specifier is a file URL, executably.
pub fn check_file_url(s: &Vec<u8>) -> (r: bool)
    ensures
        r == is_file_url(s@),
{
    if s.len() <= 7 {
        return false;
    }
    let ok: bool = s[0] == 102 && s[1] == 105 && s[2] == 108 && s[3] == 101 && s[4] == 58 && s[5]
        == 47 && s[6] == 47;
    proof {
        if ok {
            assert(s@.take(7) =~= file_url_prefix());
        } else {
            assert(s@.take(7) != file_url_prefix()) by {
                if s@.take(7) == file_url_prefix() {
                    assert(forall|j: int| 0 <= j < 7 ==> s@[j] == #[trigger] s@.take(7)[j]);
                }
            }
        }
    }
    ok
}

/// The on-disk path behind a file URL, as the resolver would compute it.
pub fn to_local_path(s: &Vec<u8>) -> (r: Vec<u8>)
    requires
        is_file_url(s@),
    ensures
        r@ == local_path_of(s@),
{
    let n: usize = s.len();
    let mut r: Vec<u8> = Vec::new();
    let mut i: usize = 7;
    while i < n
        invariant
            7 <= i <= n,
            n == s@.len(),
            r@ =~= s@.subrange(7, i as int),
        decreases n - i,
    {
        r.push(s[i]);
        i = i + 1;
    }
    proof {
        assert(r@ =~= s@.skip(7));
    }
    r
}

/// The record injecting `body` under `specifier` produces.
pub open spec fn injected_record(specifier: Seq<u8>, body: Seq<u8>, kind: ContentKind) -> RecordView {
    RecordView {
        local_path: local_path_of(specifier),
        specifier,
        content_kind: kind,
        body,
        type_hint: None,
        headers: None,
    }
}

/// The virtual source injector: decode `raw` as text and register it under
/// `specifier`, so downstream resolution treats it as a file on disk.
///
/// Bytes that are not valid text are a hard error that leaves the cache
/// untouched — the attempt dies before any worker exists.  On success the
/// cache resolves `specifier` to exactly the injected record, shadowing
/// whatever stood there before.
pub fn inject(
    cache: &mut SourceCache,
    specifier: &Vec<u8>,
    raw: Vec<u8>,
    kind: ContentKind,
) -> (r: Result<(), RunError>)
    requires
        is_file_url(specifier@),
    ensures
        is_utf8(raw@) ==> r == Ok::<(), RunError>(()) && final(cache)@ == old(cache)@.insert(
            specifier@,
            injected_record(specifier@, raw@, kind),
        ),
        !is_utf8(raw@) ==> r == Err::<(), RunError>(RunError::Decode) && final(cache)@ == old(
            cache,
        )@,
{
    if !validate_utf8(&raw) {
        return Err(RunError::Decode);
    }
    let local_path = to_local_path(specifier);
    let record = VirtualFileRecord {
        local_path,
        specifier: copy_bytes(specifier),
        content_kind: kind,
        body: raw,
        type_hint: None,
        headers: None,
    };
    proof {
        assert(record@ =~= injected_record(record.specifier@, record.body@, kind));
    }
    cache.insert(record);
    Ok(())
}

/// Re-inserting under the same specifier makes the second record win for
/// every subsequent resolution: no merge, no error.
pub proof fn lemma_insert_overwrites(
    m: Map<Seq<u8>, RecordView>,
    k: Seq<u8>,
    first: RecordView,
    second: RecordView,
)
    requires
        first.specifier == k,
        second.specifier == k,
    ensures
        m.insert(k, first).insert(k, second) == m.insert(k, second),
        m.insert(k, first).insert(k, second)[k] == second,
{
    assert(m.insert(k, first).insert(k, second) =~= m.insert(k, second));
}

} // verus!
