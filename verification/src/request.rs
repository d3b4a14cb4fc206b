//! The canonical description of one executable unit of work, and its
//! identity contract: equality and the identity hash are computed over
//! every field except the human-readable `description`.

use vstd::prelude::*;
use crate::digest::Digest;
use crate::time_span::TimeSpan;

verus! {

/// A process to be executed.
///
/// `argv` is the ordered argument vector; its first element is the path,
/// absolute or relative, of the binary to execute.  No shell expansion
/// takes place and no `PATH` lookup is performed unless `env` holds an
/// explicit `PATH` entry.  `env` is exhaustive: the execution inherits no
/// ambient environment variables beyond this mapping.
///
/// `description` is a human-readable label only.  It never participates
/// in equality or in the identity hash: changing nothing but the label of
/// a request must not change the identity used for caching and
/// deduplication.  When `jdk_home` is present, a local backend makes a
/// `.jdk` symlink pointing at that directory available to the process; a
/// remote backend substitutes a system-installed JDK and acts on the
/// field's presence alone.
#[derive(Clone, Debug)]
pub struct ExecuteProcessRequest {
    pub argv: Vec<String>,
    pub env: Vec<(String, String)>,
    pub input_files: Digest,
    pub output_files: Vec<String>,
    pub output_directories: Vec<String>,
    pub timeout: TimeSpan,
    pub description: String,
    pub jdk_home: Option<String>,
}

/// Metadata surrounding an [`ExecuteProcessRequest`] which factors into
/// its cache key when results are cached externally to the engine's own
/// process graph, e.g. under remote execution or an out-of-process cache:
/// an optional instance/namespace name, an optional cache-key-generation
/// version for invalidating caches across incompatible engine versions,
/// and the platform properties constraining where the process may run.
#[derive(Clone, Debug)]
pub struct ExecuteProcessRequestMetadata {
    pub instance_name: Option<String>,
    pub cache_key_gen_version: Option<String>,
    pub platform_properties: Vec<(String, String)>,
}

/// The identity of a request: the mathematical value of every field that
/// takes part in equality, hashing and cache keys.  `description` has no
/// place here by design.
#[verifier::ext_equal]
pub struct RequestIdentity {
    pub argv: Seq<Seq<char>>,
    pub env: Seq<(Seq<char>, Seq<char>)>,
    pub input_fingerprint: Seq<u8>,
    pub input_size_bytes: int,
    pub output_files: Seq<Seq<char>>,
    pub output_directories: Seq<Seq<char>>,
    pub timeout: TimeSpan,
    pub jdk_home: Option<Seq<char>>,
}

impl ExecuteProcessRequest {
    /// Everything about the request except its description.
    pub open spec fn identity(self) -> RequestIdentity {
        RequestIdentity {
            argv: self.argv.deep_view(),
            env: self.env.deep_view(),
            input_fingerprint: self.input_files.fingerprint@,
            input_size_bytes: self.input_files.size_bytes as int,
            output_files: self.output_files.deep_view(),
            output_directories: self.output_directories.deep_view(),
            timeout: self.timeout,
            jdk_home: self.jdk_home.deep_view(),
        }
    }

    /// The environment mapping holds each variable name at most once, and
    /// the expected output paths are listed without repetition.
    pub open spec fn wf(self) -> bool {
        &&& (forall|i: int, j: int|
            0 <= i < j < self.env@.len() ==> self.env@[i].0@ != self.env@[j].0@)
        &&& (forall|i: int, j: int|
            0 <= i < j < self.output_files@.len()
                ==> self.output_files@[i]@ != self.output_files@[j]@)
        &&& (forall|i: int, j: int|
            0 <= i < j < self.output_directories@.len()
                ==> self.output_directories@[i]@ != self.output_directories@[j]@)
    }

    /// Checks the request's structural invariant: no environment variable
    /// named twice, no expected output path listed twice.
    pub fn is_well_formed(&self) -> (r: bool)
        ensures
            r == self.wf(),
    {
        keys_distinct(&self.env) && strs_distinct(&self.output_files) && strs_distinct(
            &self.output_directories,
        )
    }
}

/// Whether the strings in `v` are pairwise distinct.
fn strs_distinct(v: &Vec<String>) -> (r: bool)
    ensures
        r == (forall|i: int, j: int| 0 <= i < j < v@.len() ==> v@[i]@ != v@[j]@),
{
    let n = v.len();
    let mut i: usize = 0;
    while i < n
        invariant
            n == v.len(),
            i <= n,
            forall|p: int, q: int| 0 <= p < q < n && p < i ==> v@[p]@ != v@[q]@,
        decreases n - i,
    {
        let mut j: usize = i + 1;
        while j < n
            invariant
                n == v.len(),
                i < n,
                i < j <= n,
                forall|p: int, q: int| 0 <= p < q < n && p < i ==> v@[p]@ != v@[q]@,
                forall|q: int| i < q < j ==> v@[i as int]@ != v@[q]@,
            decreases n - j,
        {
            if v[i] == v[j] {
                return false;
            }
            j = j + 1;
        }
        i = i + 1;
    }
    true
}

/// Whether the first components of the pairs in `v` are pairwise
/// distinct.
fn keys_distinct(v: &Vec<(String, String)>) -> (r: bool)
    ensures
        r == (forall|i: int, j: int| 0 <= i < j < v@.len() ==> v@[i].0@ != v@[j].0@),
{
    let n = v.len();
    let mut i: usize = 0;
    while i < n
        invariant
            n == v.len(),
            i <= n,
            forall|p: int, q: int| 0 <= p < q < n && p < i ==> v@[p].0@ != v@[q].0@,
        decreases n - i,
    {
        let mut j: usize = i + 1;
        while j < n
            invariant
                n == v.len(),
                i < n,
                i < j <= n,
                forall|p: int, q: int| 0 <= p < q < n && p < i ==> v@[p].0@ != v@[q].0@,
                forall|q: int| i < q < j ==> v@[i as int].0@ != v@[q].0@,
            decreases n - j,
        {
            if v[i].0 == v[j].0 {
                return false;
            }
            j = j + 1;
        }
        i = i + 1;
    }
    true
}

/// Element-wise equality of two string vectors, i.e. equality of their
/// mathematical values.
fn str_vec_eq(a: &Vec<String>, b: &Vec<String>) -> (r: bool)
    ensures
        r == (a.deep_view() == b.deep_view()),
{
    if a.len() != b.len() {
        assert(a.deep_view().len() != b.deep_view().len());
        return false;
    }
    let n = a.len();
    let mut i: usize = 0;
    while i < n
        invariant
            n == a.len() == b.len(),
            i <= n,
            forall|j: int| 0 <= j < i ==> a@[j]@ == b@[j]@,
        decreases n - i,
    {
        if !(a[i] == b[i]) {
            assert(a.deep_view()[i as int] != b.deep_view()[i as int]);
            return false;
        }
        i = i + 1;
    }
    proof {
        assert(a.deep_view() =~= b.deep_view());
    }
    true
}

/// Element-wise equality of two vectors of string pairs.
fn pair_vec_eq(a: &Vec<(String, String)>, b: &Vec<(String, String)>) -> (r: bool)
    ensures
        r == (a.deep_view() == b.deep_view()),
{
    if a.len() != b.len() {
        assert(a.deep_view().len() != b.deep_view().len());
        return false;
    }
    let n = a.len();
    let mut i: usize = 0;
    while i < n
        invariant
            n == a.len() == b.len(),
            i <= n,
            forall|j: int| 0 <= j < i ==> a@[j].0@ == b@[j].0@ && a@[j].1@ == b@[j].1@,
        decreases n - i,
    {
        if !(a[i].0 == b[i].0) || !(a[i].1 == b[i].1) {
            assert(a.deep_view()[i as int] != b.deep_view()[i as int]);
            return false;
        }
        i = i + 1;
    }
    proof {
        assert(a.deep_view() =~~= b.deep_view());
    }
    true
}

/// Equality of two optional strings, by value.
fn opt_str_eq(a: &Option<String>, b: &Option<String>) -> (r: bool)
    ensures
        r == (a.deep_view() == b.deep_view()),
{
    match (a, b) {
        (Some(x), Some(y)) => *x == *y,
        (None, None) => true,
        _ => false,
    }
}

impl PartialEq for ExecuteProcessRequest {
    /// Identity comparison: every field but `description` is compared.
    fn eq(&self, other: &ExecuteProcessRequest) -> (r: bool) {
        let r = str_vec_eq(&self.argv, &other.argv) && pair_vec_eq(&self.env, &other.env)
            && self.input_files == other.input_files
            && str_vec_eq(&self.output_files, &other.output_files)
            && str_vec_eq(&self.output_directories, &other.output_directories)
            && self.timeout == other.timeout && opt_str_eq(&self.jdk_home, &other.jdk_home);
        proof {
            if r {
                assert(self.identity() =~~= other.identity());
            } else {
                if self.identity() == other.identity() {
                    assert(self.argv.deep_view() == other.argv.deep_view());
                    assert(self.env.deep_view() == other.env.deep_view());
                    assert(self.output_files.deep_view() == other.output_files.deep_view());
                    assert(self.output_directories.deep_view()
                        == other.output_directories.deep_view());
                    assert(self.jdk_home.deep_view() == other.jdk_home.deep_view());
                    assert(false);
                }
            }
        }
        r
    }
}

impl Eq for ExecuteProcessRequest {}

impl vstd::std_specs::cmp::PartialEqSpecImpl for ExecuteProcessRequest {
    open spec fn obeys_eq_spec() -> bool {
        true
    }

    open spec fn eq_spec(&self, other: &ExecuteProcessRequest) -> bool {
        self.identity() == other.identity()
    }
}

pub const FNV_OFFSET_BASIS: u64 = 0xcbf2_9ce4_8422_2325;

pub const FNV_PRIME: u64 = 0x0000_0100_0000_01b3;

/// One FNV-1a step: fold one word into the running hash.
pub open spec fn fnv_word(h: u64, w: u64) -> u64 {
    vstd::wrapping::u64_specs::wrapping_mul(h ^ w, FNV_PRIME)
}

/// FNV-1a over a word sequence, folded left to right.
pub open spec fn fnv_words(h: u64, ws: Seq<u64>) -> u64
    decreases ws.len(),
{
    if ws.len() == 0 {
        h
    } else {
        fnv_words(fnv_word(h, ws[0]), ws.drop_first())
    }
}

/// Each byte widened to a word.
pub open spec fn words_of_bytes(bs: Seq<u8>) -> Seq<u64> {
    bs.map_values(|b: u8| b as u64)
}

/// A string as hash input: the length of its UTF-8 encoding, then the
/// encoded bytes.
pub open spec fn encode_str(s: Seq<char>) -> Seq<u64> {
    seq![vstd::utf8::encode_utf8(s).len() as u64] + words_of_bytes(vstd::utf8::encode_utf8(s))
}

pub open spec fn encode_strings_rest(ss: Seq<Seq<char>>) -> Seq<u64>
    decreases ss.len(),
{
    if ss.len() == 0 {
        Seq::<u64>::empty()
    } else {
        encode_strings_rest(ss.drop_last()) + encode_str(ss.last())
    }
}

/// A string sequence as hash input: its length, then each string in turn.
pub open spec fn encode_strings(ss: Seq<Seq<char>>) -> Seq<u64> {
    seq![ss.len() as u64] + encode_strings_rest(ss)
}

pub open spec fn encode_pairs_rest(ps: Seq<(Seq<char>, Seq<char>)>) -> Seq<u64>
    decreases ps.len(),
{
    if ps.len() == 0 {
        Seq::<u64>::empty()
    } else {
        encode_pairs_rest(ps.drop_last()) + encode_str(ps.last().0) + encode_str(ps.last().1)
    }
}

/// A sequence of string pairs as hash input.
pub open spec fn encode_pairs(ps: Seq<(Seq<char>, Seq<char>)>) -> Seq<u64> {
    seq![ps.len() as u64] + encode_pairs_rest(ps)
}

/// The whole identity, flattened to the word sequence that is hashed.
pub open spec fn encode_identity(id: RequestIdentity) -> Seq<u64> {
    encode_strings(id.argv) + encode_pairs(id.env) + words_of_bytes(id.input_fingerprint)
        + seq![id.input_size_bytes as u64] + encode_strings(id.output_files) + encode_strings(
        id.output_directories,
    ) + seq![id.timeout.secs, id.timeout.nanos as u64] + (match id.jdk_home {
        Option::None => seq![0u64],
        Option::Some(s) => seq![1u64] + encode_str(s),
    })
}

/// The identity hash of a request: FNV-1a over the encoded identity.
/// A function of the identity alone, so two requests differing only in
/// `description` hash identically.
pub open spec fn spec_identity_hash(id: RequestIdentity) -> u64 {
    fnv_words(FNV_OFFSET_BASIS, encode_identity(id))
}

/// Appends a string's hash words: the byte length, then each byte.
fn push_str_words(v: &mut Vec<u64>, s: &String)
    ensures
        final(v)@ == old(v)@ + encode_str(s@),
{
    let bs: &[u8] = s.as_str().as_bytes();
    v.push(bs.len() as u64);
    let n = bs.len();
    let mut i: usize = 0;
    while i < n
        invariant
            n == bs@.len(),
            i <= n,
            bs@ == vstd::utf8::encode_utf8(s@),
            v@ == old(v)@ + seq![bs@.len() as u64] + words_of_bytes(bs@.take(i as int)),
        decreases n - i,
    {
        let w: u64 = bs[i] as u64;
        v.push(w);
        proof {
            assert(words_of_bytes(bs@.take(i + 1)) =~= words_of_bytes(bs@.take(i as int)).push(
                bs@[i as int] as u64,
            ));
        }
        i = i + 1;
    }
    proof {
        assert(bs@.take(n as int) =~= bs@);
        assert(final(v)@ =~= old(v)@ + encode_str(s@));
    }
}

/// Appends a string vector's hash words: the count, then each string.
fn push_strings(v: &mut Vec<u64>, ss: &Vec<String>)
    ensures
        final(v)@ == old(v)@ + encode_strings(ss.deep_view()),
{
    v.push(ss.len() as u64);
    let n = ss.len();
    let mut i: usize = 0;
    while i < n
        invariant
            n == ss.len(),
            ss.deep_view().len() == n,
            i <= n,
            v@ == old(v)@ + seq![n as u64] + encode_strings_rest(ss.deep_view().take(i as int)),
        decreases n - i,
    {
        push_str_words(v, &ss[i]);
        proof {
            let dv = ss.deep_view();
            assert(dv.take(i + 1).drop_last() =~= dv.take(i as int));
            assert(dv.take(i + 1).last() == dv[i as int]);
            assert(dv[i as int] == ss@[i as int]@);
        }
        i = i + 1;
    }
    proof {
        assert(ss.deep_view().take(n as int) =~= ss.deep_view());
    }
}

/// Appends an environment mapping's hash words: the count, then each
/// name/value pair.
fn push_pairs(v: &mut Vec<u64>, ps: &Vec<(String, String)>)
    ensures
        final(v)@ == old(v)@ + encode_pairs(ps.deep_view()),
{
    v.push(ps.len() as u64);
    let n = ps.len();
    let mut i: usize = 0;
    while i < n
        invariant
            n == ps.len(),
            ps.deep_view().len() == n,
            i <= n,
            v@ == old(v)@ + seq![n as u64] + encode_pairs_rest(ps.deep_view().take(i as int)),
        decreases n - i,
    {
        push_str_words(v, &ps[i].0);
        push_str_words(v, &ps[i].1);
        proof {
            let dv = ps.deep_view();
            assert(dv.take(i + 1).drop_last() =~= dv.take(i as int));
            assert(dv.take(i + 1).last() == dv[i as int]);
            assert(dv[i as int].0 == ps@[i as int].0@ && dv[i as int].1 == ps@[i as int].1@);
        }
        i = i + 1;
    }
    proof {
        assert(ps.deep_view().take(n as int) =~= ps.deep_view());
    }
}

/// Appends a digest's hash words: the fingerprint bytes, then the size.
fn push_digest(v: &mut Vec<u64>, d: &Digest)
    ensures
        final(v)@ == old(v)@ + words_of_bytes(d.fingerprint@) + seq![d.size_bytes as u64],
{
    let mut i: usize = 0;
    while i < 32
        invariant
            i <= 32,
            d.fingerprint@.len() == 32,
            v@ == old(v)@ + words_of_bytes(d.fingerprint@.take(i as int)),
        decreases 32 - i,
    {
        let w: u64 = d.fingerprint[i] as u64;
        v.push(w);
        proof {
            assert(words_of_bytes(d.fingerprint@.take(i + 1)) =~= words_of_bytes(
                d.fingerprint@.take(i as int),
            ).push(d.fingerprint@[i as int] as u64));
        }
        i = i + 1;
    }
    proof {
        assert(d.fingerprint@.take(32) =~= d.fingerprint@);
    }
    v.push(d.size_bytes as u64);
}

/// FNV-1a over the accumulated words.
fn hash_words(words: &Vec<u64>) -> (h: u64)
    ensures
        h == fnv_words(FNV_OFFSET_BASIS, words@),
{
    let mut h: u64 = FNV_OFFSET_BASIS;
    let n = words.len();
    let mut i: usize = 0;
    proof {
        assert(words@.skip(0) =~= words@);
    }
    while i < n
        invariant
            n == words.len(),
            i <= n,
            fnv_words(FNV_OFFSET_BASIS, words@) == fnv_words(h, words@.skip(i as int)),
        decreases n - i,
    {
        proof {
            let rest = words@.skip(i as int);
            assert(rest[0] == words@[i as int]);
            assert(rest.drop_first() =~= words@.skip(i + 1));
        }
        h = (h ^ words[i]).wrapping_mul(FNV_PRIME);
        i = i + 1;
    }
    proof {
        assert(words@.skip(n as int) =~= Seq::<u64>::empty());
    }
    h
}

impl ExecuteProcessRequest {
    /// The request's identity flattened to hash-input words.
    fn identity_words(&self) -> (v: Vec<u64>)
        ensures
            v@ == encode_identity(self.identity()),
    {
        let mut v: Vec<u64> = Vec::new();
        push_strings(&mut v, &self.argv);
        push_pairs(&mut v, &self.env);
        push_digest(&mut v, &self.input_files);
        push_strings(&mut v, &self.output_files);
        push_strings(&mut v, &self.output_directories);
        v.push(self.timeout.secs);
        v.push(self.timeout.nanos as u64);
        match &self.jdk_home {
            Option::None => v.push(0u64),
            Option::Some(s) => {
                v.push(1u64);
                push_str_words(&mut v, s);
            },
        }
        proof {
            assert(v@ =~= encode_identity(self.identity()));
        }
        v
    }

    /// The identity hash: a 64-bit digest of every field but
    /// `description`, fit for deduplication and cache keying.
    pub fn identity_hash(&self) -> (h: u64)
        ensures
            h == spec_identity_hash(self.identity()),
    {
        let words = self.identity_words();
        hash_words(&words)
    }
}

/// Two requests whose identity fields agree are equal and hash alike,
/// however much their descriptions differ: neither equality nor the
/// identity hash reads `description`.
pub proof fn lemma_eq_hash_exclude_description(a: ExecuteProcessRequest, b: ExecuteProcessRequest)
    requires
        a.argv.deep_view() == b.argv.deep_view(),
        a.env.deep_view() == b.env.deep_view(),
        a.input_files.fingerprint@ == b.input_files.fingerprint@,
        a.input_files.size_bytes == b.input_files.size_bytes,
        a.output_files.deep_view() == b.output_files.deep_view(),
        a.output_directories.deep_view() == b.output_directories.deep_view(),
        a.timeout == b.timeout,
        a.jdk_home.deep_view() == b.jdk_home.deep_view(),
    ensures
        a.identity() == b.identity(),
        spec_identity_hash(a.identity()) == spec_identity_hash(b.identity()),
{
    assert(a.identity() =~~= b.identity());
}

/// Two requests whose identities differ in any way are unequal: the
/// executable comparison returns `false` exactly when the identities
/// disagree, so no field outside the identity can make requests equal,
/// and no identity difference can be papered over.
pub proof fn lemma_identity_difference_breaks_eq(
    a: ExecuteProcessRequest,
    b: ExecuteProcessRequest,
)
    requires
        a.identity() != b.identity(),
    ensures
        !vstd::std_specs::cmp::PartialEqSpec::eq_spec(&a, &b),
{
}

} // verus!
