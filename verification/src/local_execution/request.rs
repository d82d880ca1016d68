use vstd::prelude::*;
use vstd::utf8::encode_utf8;
use vstd::utf8::encode_utf8_decode_utf8;

use crate::bytes::bytes_less;
use crate::bytes::bytes_lt;
use crate::bytes::hex_lower;
use crate::bytes::lemma_bytes_lt_asymmetric;
use crate::bytes::lemma_bytes_lt_irreflexive;
use crate::bytes::lemma_bytes_lt_total;
use crate::bytes::lemma_bytes_lt_transitive;
use crate::bytes::to_hex_lower;
use crate::digest::sha256;
use crate::digest::sha256_digest;

verus! {

/// An environment as its entries, one per variable name.
pub type EnvironmentView = Seq<(Seq<char>, Seq<char>)>;

/// The bytes of a string, by which environment names sort.
pub open spec fn utf8(s: Seq<char>) -> Seq<u8> {
    encode_utf8(s)
}

/// Entries sorted strictly by the bytes of their names: no name twice, and
/// in the order in which a `String`-keyed ordered map walks them.
pub open spec fn env_sorted(env: EnvironmentView) -> bool {
    forall|i: int, j: int|
        0 <= i < j < env.len() ==> bytes_lt(#[trigger] utf8(env[i].0), #[trigger] utf8(env[j].0))
}

/// The environment after setting `key` to `value`: the entry for `key` is
/// replaced, or a new one is placed where its name sorts.
pub open spec fn env_insert(env: EnvironmentView, key: Seq<char>, value: Seq<char>) -> EnvironmentView
    decreases env.len(),
{
    if env.len() == 0 {
        seq![(key, value)]
    } else if bytes_lt(utf8(key), utf8(env[0].0)) {
        seq![(key, value)] + env
    } else if env[0].0 == key {
        seq![(key, value)] + env.drop_first()
    } else {
        seq![env[0]] + env_insert(env.drop_first(), key, value)
    }
}

/// The value set for `key`, if any.
pub open spec fn env_get(env: EnvironmentView, key: Seq<char>) -> Option<Seq<char>>
    decreases env.len(),
{
    if env.len() == 0 {
        None
    } else if env[0].0 == key {
        Some(env[0].1)
    } else {
        env_get(env.drop_first(), key)
    }
}

/// What a request is: the executable, its arguments and its environment.
pub struct RequestView {
    pub executable: Seq<char>,
    pub args: Seq<Seq<char>>,
    pub environment: EnvironmentView,
}

/// A string's UTF-8 bytes followed by a zero byte.
pub open spec fn frame(s: Seq<char>) -> Seq<u8> {
    utf8(s).push(0u8)
}

pub open spec fn frame_args(args: Seq<Seq<char>>) -> Seq<u8>
    decreases args.len(),
{
    if args.len() == 0 {
        Seq::empty()
    } else {
        frame_args(args.drop_last()) + frame(args.last())
    }
}

pub open spec fn frame_environment(env: EnvironmentView) -> Seq<u8>
    decreases env.len(),
{
    if env.len() == 0 {
        Seq::empty()
    } else {
        frame_environment(env.drop_last()) + frame(env.last().0) + frame(env.last().1)
    }
}

/// The tag that opens every digested request.
pub open spec fn digest_domain() -> Seq<u8> {
    frame("made.local-execution.v1"@)
}

/// The bytes a request digest is taken over: the tag, the executable, each
/// argument, then each environment entry as name and value, in name order,
/// every string closed by a zero byte.
pub open spec fn digest_input(r: RequestView) -> Seq<u8> {
    digest_domain() + frame(r.executable) + frame_args(r.args) + frame_environment(r.environment)
}

/// The request digest: lower-case hexadecimal SHA-256 of `digest_input`.
pub open spec fn request_digest_of(r: RequestView) -> Seq<char> {
    hex_lower(sha256(digest_input(r)))
}

proof fn lemma_utf8_injective(a: Seq<char>, b: Seq<char>)
    requires
        utf8(a) == utf8(b),
    ensures
        a == b,
{
    encode_utf8_decode_utf8(a);
    encode_utf8_decode_utf8(b);
}

/// Setting a variable keeps the entries sorted.
pub proof fn lemma_env_insert_sorted(env: EnvironmentView, key: Seq<char>, value: Seq<char>)
    requires
        env_sorted(env),
    ensures
        env_sorted(env_insert(env, key, value)),
        forall|b: Seq<u8>|
            bytes_lt(b, utf8(key)) && (forall|j: int| 0 <= j < env.len() ==> bytes_lt(b, #[trigger] utf8(env[j].0)))
            ==> (forall|j: int| 0 <= j < env_insert(env, key, value).len()
                ==> bytes_lt(b, #[trigger] utf8(env_insert(env, key, value)[j].0))),
    decreases env.len(),
{
    let r = env_insert(env, key, value);
    if env.len() == 0 {
    } else if bytes_lt(utf8(key), utf8(env[0].0)) {
        assert forall|i: int, j: int| 0 <= i < j < r.len() implies bytes_lt(#[trigger] utf8(r[i].0), #[trigger] utf8(r[j].0)) by {
            if i == 0 && j > 1 {
                assert(bytes_lt(utf8(env[0].0), utf8(env[j - 1].0)));
                lemma_bytes_lt_transitive(utf8(key), utf8(env[0].0), utf8(env[j - 1].0));
            }
        }
        assert forall|b: Seq<u8>|
            bytes_lt(b, utf8(key)) && (forall|j: int| 0 <= j < env.len() ==> bytes_lt(b, #[trigger] utf8(env[j].0)))
            implies (forall|j: int| 0 <= j < r.len() ==> bytes_lt(b, #[trigger] utf8(r[j].0))) by {
            assert forall|j: int| 0 <= j < r.len() implies bytes_lt(b, #[trigger] utf8(r[j].0)) by {
                if j > 0 {
                    assert(bytes_lt(b, utf8(env[j - 1].0)));
                }
            }
        }
    } else if env[0].0 == key {
        assert forall|i: int, j: int| 0 <= i < j < r.len() implies bytes_lt(#[trigger] utf8(r[i].0), #[trigger] utf8(r[j].0)) by {
            assert(bytes_lt(utf8(env[i].0), utf8(env[j].0)));
        }
        assert forall|b: Seq<u8>|
            bytes_lt(b, utf8(key)) && (forall|j: int| 0 <= j < env.len() ==> bytes_lt(b, #[trigger] utf8(env[j].0)))
            implies (forall|j: int| 0 <= j < r.len() ==> bytes_lt(b, #[trigger] utf8(r[j].0))) by {
            assert forall|j: int| 0 <= j < r.len() implies bytes_lt(b, #[trigger] utf8(r[j].0)) by {
                assert(bytes_lt(b, utf8(env[j].0)));
            }
        }
    } else {
        let rest = env.drop_first();
        assert(env_sorted(rest)) by {
            assert forall|i: int, j: int| 0 <= i < j < rest.len() implies bytes_lt(#[trigger] utf8(rest[i].0), #[trigger] utf8(rest[j].0)) by {
                assert(bytes_lt(utf8(env[i + 1].0), utf8(env[j + 1].0)));
            }
        }
        lemma_env_insert_sorted(rest, key, value);
        let tail = env_insert(rest, key, value);
        assert(r == seq![env[0]] + tail);
        // env[0] sorts before the key and before every later entry.
        if utf8(env[0].0) == utf8(key) {
            lemma_utf8_injective(env[0].0, key);
        }
        lemma_bytes_lt_total(utf8(env[0].0), utf8(key));
        assert(bytes_lt(utf8(env[0].0), utf8(key)));
        assert forall|j: int| 0 <= j < rest.len() implies bytes_lt(utf8(env[0].0), #[trigger] utf8(rest[j].0)) by {
            assert(bytes_lt(utf8(env[0].0), utf8(env[j + 1].0)));
        }
        assert forall|i: int, j: int| 0 <= i < j < r.len() implies bytes_lt(#[trigger] utf8(r[i].0), #[trigger] utf8(r[j].0)) by {
            if i == 0 {
                assert(bytes_lt(utf8(env[0].0), utf8(tail[j - 1].0)));
            } else {
                assert(bytes_lt(utf8(tail[i - 1].0), utf8(tail[j - 1].0)));
            }
        }
        assert forall|b: Seq<u8>|
            bytes_lt(b, utf8(key)) && (forall|j: int| 0 <= j < env.len() ==> bytes_lt(b, #[trigger] utf8(env[j].0)))
            implies (forall|j: int| 0 <= j < r.len() ==> bytes_lt(b, #[trigger] utf8(r[j].0))) by {
            assert(bytes_lt(b, utf8(env[0].0)));
            assert forall|j: int| 0 <= j < rest.len() implies bytes_lt(b, #[trigger] utf8(rest[j].0)) by {
                assert(bytes_lt(b, utf8(env[j + 1].0)));
            }
            assert forall|j: int| 0 <= j < r.len() implies bytes_lt(b, #[trigger] utf8(r[j].0)) by {
                if j > 0 {
                    assert(bytes_lt(b, utf8(tail[j - 1].0)));
                }
            }
        }
    }
}

/// Where the scan for `key` stops, `env_insert` splices the entry in.
proof fn lemma_env_insert_at(env: EnvironmentView, key: Seq<char>, value: Seq<char>, i: int)
    requires
        env_sorted(env),
        0 <= i <= env.len(),
        forall|j: int| 0 <= j < i ==> bytes_lt(#[trigger] utf8(env[j].0), utf8(key)),
        i == env.len() || !bytes_lt(utf8(env[i].0), utf8(key)),
    ensures
        env_insert(env, key, value) == if i < env.len() && env[i].0 == key {
            env.take(i) + seq![(key, value)] + env.skip(i + 1)
        } else {
            env.take(i) + seq![(key, value)] + env.skip(i)
        },
    decreases i,
{
    if i == 0 {
        if env.len() > 0 {
            if env[0].0 != key {
                if utf8(env[0].0) == utf8(key) {
                    lemma_utf8_injective(env[0].0, key);
                }
                lemma_bytes_lt_total(utf8(env[0].0), utf8(key));
            } else {
                lemma_bytes_lt_irreflexive(utf8(key));
            }
        }
        assert(env.take(0) =~= Seq::<(Seq<char>, Seq<char>)>::empty());
        assert(env.skip(0) =~= env);
        assert(env.skip(1) =~= env.drop_first());
    } else {
        assert(bytes_lt(utf8(env[0].0), utf8(key)));
        lemma_bytes_lt_asymmetric(utf8(env[0].0), utf8(key));
        lemma_bytes_lt_irreflexive(utf8(key));
        let rest = env.drop_first();
        assert(env_sorted(rest)) by {
            assert forall|a: int, b: int| 0 <= a < b < rest.len() implies bytes_lt(#[trigger] utf8(rest[a].0), #[trigger] utf8(rest[b].0)) by {
                assert(bytes_lt(utf8(env[a + 1].0), utf8(env[b + 1].0)));
            }
        }
        assert forall|j: int| 0 <= j < i - 1 implies bytes_lt(#[trigger] utf8(rest[j].0), utf8(key)) by {
            assert(bytes_lt(utf8(env[j + 1].0), utf8(key)));
        }
        lemma_env_insert_at(rest, key, value, i - 1);
        if i < env.len() && env[i].0 == key {
            assert(env.take(i) + seq![(key, value)] + env.skip(i + 1) =~= seq![env[0]] + (rest.take(i - 1) + seq![(key, value)] + rest.skip(i)));
        } else {
            assert(env.take(i) + seq![(key, value)] + env.skip(i) =~= seq![env[0]] + (rest.take(i - 1) + seq![(key, value)] + rest.skip(i - 1)));
        }
    }
}

/// Reading a variable back after setting it gives the value set.
pub proof fn law_env_get_after_insert(env: EnvironmentView, key: Seq<char>, value: Seq<char>)
    ensures
        env_get(env_insert(env, key, value), key) == Some(value),
    decreases env.len(),
{
    if env.len() > 0 && !bytes_lt(utf8(key), utf8(env[0].0)) && env[0].0 != key {
        law_env_get_after_insert(env.drop_first(), key, value);
        assert(env_insert(env, key, value).drop_first() == env_insert(env.drop_first(), key, value));
    }
}

/// Setting one variable leaves every other variable as it was.
pub proof fn law_env_insert_keeps_others(
    env: EnvironmentView,
    key: Seq<char>,
    value: Seq<char>,
    other: Seq<char>,
)
    requires
        other != key,
    ensures
        env_get(env_insert(env, key, value), other) == env_get(env, other),
    decreases env.len(),
{
    let r = env_insert(env, key, value);
    if env.len() == 0 {
        assert(r.drop_first() =~= EnvironmentView::empty());
        assert(env_get(r, other) == env_get(r.drop_first(), other));
    } else if bytes_lt(utf8(key), utf8(env[0].0)) {
        assert(r.drop_first() =~= env);
        assert(env_get(r, other) == env_get(r.drop_first(), other));
    } else if env[0].0 == key {
        assert(r.drop_first() =~= env.drop_first());
        assert(env_get(r, other) == env_get(r.drop_first(), other));
        assert(env_get(env, other) == env_get(env.drop_first(), other));
    } else {
        law_env_insert_keeps_others(env.drop_first(), key, value, other);
        assert(r.drop_first() =~= env_insert(env.drop_first(), key, value));
        assert(r[0] == env[0]);
    }
}

/// Setting the same variable twice leaves the later value only.
pub proof fn law_env_insert_last_wins(
    env: EnvironmentView,
    key: Seq<char>,
    first: Seq<char>,
    second: Seq<char>,
)
    ensures
        env_insert(env_insert(env, key, first), key, second) == env_insert(env, key, second),
    decreases env.len(),
{
    lemma_bytes_lt_irreflexive(utf8(key));
    let once = env_insert(env, key, first);
    if env.len() == 0 {
        assert(once.drop_first() =~= EnvironmentView::empty());
        assert(env_insert(once, key, second) =~= seq![(key, second)]);
    } else if bytes_lt(utf8(key), utf8(env[0].0)) {
        assert(once.drop_first() =~= env);
        assert(env_insert(once, key, second) =~= seq![(key, second)] + env);
    } else if env[0].0 == key {
        assert(once.drop_first() =~= env.drop_first());
        assert(env_insert(once, key, second) =~= seq![(key, second)] + env.drop_first());
    } else {
        law_env_insert_last_wins(env.drop_first(), key, first, second);
        assert(once.drop_first() =~= env_insert(env.drop_first(), key, first));
        assert(once[0] == env[0]);
    }
}

/// Setting two different variables gives the same environment in either
/// order, so the digest does not depend on the order of the calls.
pub proof fn law_env_insert_commutes(
    env: EnvironmentView,
    k1: Seq<char>,
    v1: Seq<char>,
    k2: Seq<char>,
    v2: Seq<char>,
)
    requires
        env_sorted(env),
        k1 != k2,
    ensures
        env_insert(env_insert(env, k1, v1), k2, v2) == env_insert(env_insert(env, k2, v2), k1, v1),
    decreases env.len(),
{
    if utf8(k1) == utf8(k2) {
        lemma_utf8_injective(k1, k2);
    }
    lemma_bytes_lt_total(utf8(k1), utf8(k2));
    lemma_bytes_lt_irreflexive(utf8(k1));
    lemma_bytes_lt_irreflexive(utf8(k2));
    let a = env_insert(env, k1, v1);
    let b = env_insert(env, k2, v2);
    if env.len() == 0 {
        if bytes_lt(utf8(k1), utf8(k2)) {
            lemma_bytes_lt_asymmetric(utf8(k1), utf8(k2));
            assert(a.drop_first() =~= EnvironmentView::empty());
            assert(env_insert(a.drop_first(), k2, v2) =~= seq![(k2, v2)]);
            assert(env_insert(a, k2, v2) =~= seq![(k1, v1), (k2, v2)]);
            assert(env_insert(b, k1, v1) =~= seq![(k1, v1), (k2, v2)]);
        } else {
            lemma_bytes_lt_asymmetric(utf8(k2), utf8(k1));
            assert(b.drop_first() =~= EnvironmentView::empty());
            assert(env_insert(b.drop_first(), k1, v1) =~= seq![(k1, v1)]);
            assert(env_insert(a, k2, v2) =~= seq![(k2, v2), (k1, v1)]);
            assert(env_insert(b, k1, v1) =~= seq![(k2, v2), (k1, v1)]);
        }
    } else {
        let e0 = env[0];
        let rest = env.drop_first();
        assert(env_sorted(rest)) by {
            assert forall|i: int, j: int| 0 <= i < j < rest.len() implies bytes_lt(#[trigger] utf8(rest[i].0), #[trigger] utf8(rest[j].0)) by {
                assert(bytes_lt(utf8(env[i + 1].0), utf8(env[j + 1].0)));
            }
        }
        if utf8(k1) == utf8(e0.0) {
            lemma_utf8_injective(k1, e0.0);
        }
        if utf8(k2) == utf8(e0.0) {
            lemma_utf8_injective(k2, e0.0);
        }
        if k1 != e0.0 {
            lemma_bytes_lt_total(utf8(k1), utf8(e0.0));
        }
        if k2 != e0.0 {
            lemma_bytes_lt_total(utf8(k2), utf8(e0.0));
        }
        if bytes_lt(utf8(k1), utf8(e0.0)) {
            lemma_bytes_lt_asymmetric(utf8(k1), utf8(e0.0));
        }
        if bytes_lt(utf8(e0.0), utf8(k1)) {
            lemma_bytes_lt_asymmetric(utf8(e0.0), utf8(k1));
        }
        if bytes_lt(utf8(k2), utf8(e0.0)) {
            lemma_bytes_lt_asymmetric(utf8(k2), utf8(e0.0));
        }
        if bytes_lt(utf8(e0.0), utf8(k2)) {
            lemma_bytes_lt_asymmetric(utf8(e0.0), utf8(k2));
        }
        if bytes_lt(utf8(k1), utf8(k2)) {
            lemma_bytes_lt_asymmetric(utf8(k1), utf8(k2));
        } else {
            lemma_bytes_lt_asymmetric(utf8(k2), utf8(k1));
        }
        if bytes_lt(utf8(e0.0), utf8(k1)) && bytes_lt(utf8(k1), utf8(k2)) {
            lemma_bytes_lt_transitive(utf8(e0.0), utf8(k1), utf8(k2));
        }
        if bytes_lt(utf8(e0.0), utf8(k2)) && bytes_lt(utf8(k2), utf8(k1)) {
            lemma_bytes_lt_transitive(utf8(e0.0), utf8(k2), utf8(k1));
        }
        if bytes_lt(utf8(e0.0), utf8(k1)) && bytes_lt(utf8(e0.0), utf8(k2)) && e0.0 != k1 && e0.0 != k2 {
            law_env_insert_commutes(rest, k1, v1, k2, v2);
            assert(a =~= seq![e0] + env_insert(rest, k1, v1));
            assert(b =~= seq![e0] + env_insert(rest, k2, v2));
            assert(a.drop_first() =~= env_insert(rest, k1, v1));
            assert(b.drop_first() =~= env_insert(rest, k2, v2));
            assert(env_insert(a, k2, v2) =~= seq![e0] + env_insert(env_insert(rest, k1, v1), k2, v2));
            assert(env_insert(b, k1, v1) =~= seq![e0] + env_insert(env_insert(rest, k2, v2), k1, v1));
        } else if bytes_lt(utf8(k1), utf8(k2)) {
            // k1 sorts first and lands at the front or replaces e0.
            if bytes_lt(utf8(k1), utf8(e0.0)) {
                assert(a =~= seq![(k1, v1)] + env);
                assert(a.drop_first() =~= env);
                assert(env_insert(a, k2, v2) =~= seq![(k1, v1)] + b);
                if bytes_lt(utf8(k2), utf8(e0.0)) {
                    assert(b =~= seq![(k2, v2)] + env);
                } else if e0.0 == k2 {
                    assert(b =~= seq![(k2, v2)] + rest);
                } else {
                    assert(b =~= seq![e0] + env_insert(rest, k2, v2));
                    lemma_bytes_lt_transitive(utf8(k1), utf8(e0.0), utf8(k2));
                }
                assert(env_insert(b, k1, v1) =~= seq![(k1, v1)] + b);
            } else {
                assert(e0.0 == k1);
                assert(a =~= seq![(k1, v1)] + rest);
                assert(b =~= seq![e0] + env_insert(rest, k2, v2));
                assert(a.drop_first() =~= rest);
                assert(b.drop_first() =~= env_insert(rest, k2, v2));
                assert(env_insert(a, k2, v2) =~= seq![(k1, v1)] + env_insert(rest, k2, v2));
                assert(env_insert(b, k1, v1) =~= seq![(k1, v1)] + env_insert(rest, k2, v2));
            }
        } else {
            if bytes_lt(utf8(k2), utf8(e0.0)) {
                assert(b =~= seq![(k2, v2)] + env);
                assert(b.drop_first() =~= env);
                assert(env_insert(b, k1, v1) =~= seq![(k2, v2)] + a);
                if bytes_lt(utf8(k1), utf8(e0.0)) {
                    assert(a =~= seq![(k1, v1)] + env);
                } else if e0.0 == k1 {
                    assert(a =~= seq![(k1, v1)] + rest);
                } else {
                    assert(a =~= seq![e0] + env_insert(rest, k1, v1));
                    lemma_bytes_lt_transitive(utf8(k2), utf8(e0.0), utf8(k1));
                }
                assert(env_insert(a, k2, v2) =~= seq![(k2, v2)] + a);
            } else {
                assert(e0.0 == k2);
                assert(b =~= seq![(k2, v2)] + rest);
                assert(a =~= seq![e0] + env_insert(rest, k1, v1));
                assert(b.drop_first() =~= rest);
                assert(a.drop_first() =~= env_insert(rest, k1, v1));
                assert(env_insert(b, k1, v1) =~= seq![(k2, v2)] + env_insert(rest, k1, v1));
                assert(env_insert(a, k2, v2) =~= seq![(k2, v2)] + env_insert(rest, k1, v1));
            }
        }
    }
}

/// Direct-exec request with explicit arguments and environment.
#[derive(PartialEq, Eq)]
pub struct LocalExecutionRequest {
    executable: String,
    args: Vec<String>,
    environment: Vec<(String, String)>,
}

impl View for LocalExecutionRequest {
    type V = RequestView;

    closed spec fn view(&self) -> RequestView {
        RequestView {
            executable: self.executable@,
            args: self.args@.map_values(|a: String| a@),
            environment: self.environment@.map_values(|e: (String, String)| (e.0@, e.1@)),
        }
    }
}

impl LocalExecutionRequest {
    #[verifier::type_invariant]
    closed spec fn environment_sorted(self) -> bool {
        env_sorted(self.environment@.map_values(|e: (String, String)| (e.0@, e.1@)))
    }

    /// A request to run `executable` with no arguments and an empty
    /// environment.
    pub fn new(executable: String) -> (r: Self)
        ensures
            r@.executable == executable@,
            r@.args == Seq::<Seq<char>>::empty(),
            r@.environment == EnvironmentView::empty(),
    {
        let r = LocalExecutionRequest { executable, args: Vec::new(), environment: Vec::new() };
        assert(r@.args =~= Seq::<Seq<char>>::empty());
        assert(r@.environment =~= EnvironmentView::empty());
        r
    }

    /// The same request with exactly these arguments.
    pub fn with_args(self, args: Vec<String>) -> (r: Self)
        ensures
            r@.executable == self@.executable,
            r@.args == args@.map_values(|a: String| a@),
            r@.environment == self@.environment,
    {
        proof {
            use_type_invariant(&self);
        }
        let LocalExecutionRequest { executable, args: _, environment } = self;
        LocalExecutionRequest { executable, args, environment }
    }

    /// The same request with `key` set to `value`; a value set earlier
    /// for the same name is replaced.
    pub fn with_environment(self, key: String, value: String) -> (r: Self)
        ensures
            r@.executable == self@.executable,
            r@.args == self@.args,
            r@.environment == env_insert(self@.environment, key@, value@),
    {
        proof {
            use_type_invariant(&self);
        }
        let ghost old_env = self@.environment;
        let LocalExecutionRequest { executable, args, environment } = self;
        let mut environment = environment;
        let key_bytes = key.as_str().as_bytes();
        let mut i: usize = 0;
        loop
            invariant
                i <= environment.len(),
                environment@.map_values(|e: (String, String)| (e.0@, e.1@)) == old_env,
                key_bytes@ == utf8(key@),
                forall|j: int| 0 <= j < i ==> bytes_lt(#[trigger] utf8(old_env[j].0), utf8(key@)),
            ensures
                i <= environment.len(),
                environment@.map_values(|e: (String, String)| (e.0@, e.1@)) == old_env,
                forall|j: int| 0 <= j < i ==> bytes_lt(#[trigger] utf8(old_env[j].0), utf8(key@)),
                i == environment.len() || !bytes_lt(utf8(old_env[i as int].0), utf8(key@)),
            decreases environment.len() - i,
        {
            if i == environment.len() {
                break;
            }
            let less = bytes_less(environment[i].0.as_str().as_bytes(), key_bytes);
            if !less {
                break;
            }
            i = i + 1;
        }
        proof {
            lemma_env_insert_at(old_env, key@, value@, i as int);
        }
        let ghost k = key@;
        let ghost v = value@;
        if i < environment.len() && environment[i].0 == key {
            let _replaced = environment.remove(i);
            environment.insert(i, (key, value));
            assert(environment@.map_values(|e: (String, String)| (e.0@, e.1@)) =~= old_env.take(i as int) + seq![(k, v)] + old_env.skip(i + 1));
        } else {
            environment.insert(i, (key, value));
            assert(environment@.map_values(|e: (String, String)| (e.0@, e.1@)) =~= old_env.take(i as int) + seq![(k, v)] + old_env.skip(i as int));
        }
        proof {
            lemma_env_insert_sorted(old_env, k, v);
        }
        LocalExecutionRequest { executable, args, environment }
    }

    pub fn executable(&self) -> (e: &str)
        ensures
            e@ == self@.executable,
    {
        self.executable.as_str()
    }

    /// The arguments, in order.
    pub fn args(&self) -> (a: &Vec<String>)
        ensures
            a@.map_values(|s: String| s@) == self@.args,
    {
        &self.args
    }

    /// The environment, ordered by the bytes of its names, each name once.
    pub fn environment(&self) -> (e: &Vec<(String, String)>)
        ensures
            e@.map_values(|p: (String, String)| (p.0@, p.1@)) == self@.environment,
            env_sorted(self@.environment),
    {
        proof {
            use_type_invariant(self);
        }
        &self.environment
    }

    /// The request digest, which identifies the request in a receipt
    /// without disclosing its arguments or environment.
    pub fn request_digest(&self) -> (d: String)
        ensures
            d@ == request_digest_of(self@),
    {
        let input = self.digest_input();
        let digest = sha256_digest(input.as_slice());
        to_hex_lower(digest.as_slice())
    }

    fn digest_input(&self) -> (input: Vec<u8>)
        ensures
            input@ == digest_input(self@),
    {
        let mut input: Vec<u8> = Vec::new();
        push_frame(&mut input, "made.local-execution.v1");
        push_frame(&mut input, self.executable.as_str());
        let ghost after_head = input@;
        let mut i: usize = 0;
        while i < self.args.len()
            invariant
                i <= self.args.len(),
                input@ == after_head + frame_args(self@.args.take(i as int)),
            decreases self.args.len() - i,
        {
            push_frame(&mut input, self.args[i].as_str());
            assert(self@.args.take(i + 1).drop_last() =~= self@.args.take(i as int));
            i = i + 1;
        }
        assert(self@.args.take(self.args.len() as int) =~= self@.args);
        let ghost after_args = input@;
        let mut j: usize = 0;
        while j < self.environment.len()
            invariant
                j <= self.environment.len(),
                input@ == after_args + frame_environment(self@.environment.take(j as int)),
            decreases self.environment.len() - j,
        {
            push_frame(&mut input, self.environment[j].0.as_str());
            push_frame(&mut input, self.environment[j].1.as_str());
            assert(self@.environment.take(j + 1).drop_last() =~= self@.environment.take(j as int));
            j = j + 1;
        }
        assert(self@.environment.take(self.environment.len() as int) =~= self@.environment);
        assert(input@ =~= digest_input(self@));
        input
    }
}

impl Clone for LocalExecutionRequest {
    /// A request with the same executable, arguments and environment.
    fn clone(&self) -> (r: Self)
        ensures
            r@ == self@,
    {
        proof {
            use_type_invariant(self);
        }
        let mut args: Vec<String> = Vec::new();
        let mut i: usize = 0;
        while i < self.args.len()
            invariant
                i <= self.args.len(),
                args.len() == i,
                forall|k: int| 0 <= k < i ==> #[trigger] args@[k]@ == self.args@[k]@,
            decreases self.args.len() - i,
        {
            args.push(self.args[i].clone());
            i = i + 1;
        }
        assert(args@.map_values(|a: String| a@) =~= self@.args);
        let mut environment: Vec<(String, String)> = Vec::new();
        let mut j: usize = 0;
        while j < self.environment.len()
            invariant
                j <= self.environment.len(),
                environment.len() == j,
                forall|k: int| 0 <= k < j ==> #[trigger] environment@[k].0@ == self.environment@[k].0@
                    && environment@[k].1@ == self.environment@[k].1@,
            decreases self.environment.len() - j,
        {
            let key = self.environment[j].0.clone();
            let value = self.environment[j].1.clone();
            environment.push((key, value));
            j = j + 1;
        }
        assert(environment@.map_values(|e: (String, String)| (e.0@, e.1@)) =~= self@.environment);
        LocalExecutionRequest { executable: self.executable.clone(), args, environment }
    }
}

/// Appends the UTF-8 bytes of `s` and a closing zero byte.
fn push_frame(buffer: &mut Vec<u8>, s: &str)
    ensures
        final(buffer)@ == old(buffer)@ + frame(s@),
{
    let bytes = s.as_bytes();
    let mut i: usize = 0;
    while i < bytes.len()
        invariant
            i <= bytes.len(),
            bytes@ == utf8(s@),
            buffer@ == old(buffer)@ + bytes@.take(i as int),
        decreases bytes.len() - i,
    {
        buffer.push(bytes[i]);
        assert(bytes@.take(i + 1) =~= bytes@.take(i as int).push(bytes[i as int]));
        i = i + 1;
    }
    assert(bytes@.take(bytes.len() as int) =~= bytes@);
    buffer.push(0u8);
    assert(buffer@ =~= old(buffer)@ + frame(s@));
}

} // verus!
