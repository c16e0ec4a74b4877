//! Endpoint settings and the checks made on configuration before an endpoint serves:
//! identity keys listed in a delimited string, keys added to the SDK's endpoint builder,
//! and handler overrides named against the handlers a service has.

use restate_sdk::endpoint::Builder;
use vstd::prelude::*;
use vstd::string::*;

verus! {

#[verifier::external_type_specification]
#[verifier::external_body]
pub struct ExEndpointBuilder(Builder);

/// Invalid endpoint settings detected before serving requests.
#[derive(Debug)]
pub enum ConfigError {
    /// An identity verification key was rejected by the SDK.
    IdentityKey {
        /// Zero-based position in `identity_keys`.
        index: usize,
        /// The SDK's key-validation error.
        reason: String,
    },
    /// A handler override does not name a handler on the service.
    UnknownHandler {
        /// The discovered service name.
        service: String,
        /// The unrecognized, case-sensitive handler name.
        handler: String,
    },
}

/// Restate's action when the configured retry budget is exhausted.
#[derive(Clone, Copy, Debug, PartialEq, Eq)]
pub enum RetryPolicyOnMaxAttempts {
    /// Pause for manual intervention.
    Pause,
    /// Fail the invocation.
    Kill,
}

/// The address an endpoint listens on: an IP address and a port. Port zero requests an
/// ephemeral port.
#[derive(Clone, Copy, Debug, PartialEq, Eq)]
pub enum SocketAddress {
    /// An IPv4 address: its four octets and the port.
    V4 { octets: [u8; 4], port: u16 },
    /// An IPv6 address: its eight segments, the port, the flow information and the scope.
    V6 { segments: [u16; 8], port: u16, flowinfo: u32, scope_id: u32 },
}

/// Endpoint-wide request identity and listener settings, independent of service policies.
pub struct EndpointConfig {
    /// Address to bind, `0.0.0.0:9080` by default. The application binds the listener.
    pub listener: SocketAddress,
    /// Trusted Restate public verification keys (`publickeyv1_...`). Several keys support
    /// rotation; an empty list leaves the SDK builder unchanged.
    pub identity_keys: Vec<String>,
}

/// Shared endpoint settings with an application-defined set of service policies.
pub struct Config<ServicesConfig> {
    /// Request-identity verification keys and the endpoint's listener address.
    pub endpoint: EndpointConfig,
    /// Application-specific policies for the services bound to this endpoint.
    pub services: ServicesConfig,
}

impl Default for EndpointConfig {
    /// Listens on `0.0.0.0:9080` and trusts no identity keys.
    fn default() -> (config: EndpointConfig)
        ensures
            config.listener == (SocketAddress::V4 { octets: [0u8, 0u8, 0u8, 0u8], port: 9080 }),
            config.identity_keys@.len() == 0,
    {
        EndpointConfig {
            listener: SocketAddress::V4 { octets: [0u8, 0u8, 0u8, 0u8], port: 9080 },
            identity_keys: Vec::new(),
        }
    }
}

/// The message with which restate-sdk's `Builder::identity_key` rejects `key`, or `None`
/// when it accepts the key.
pub uninterp spec fn identity_key_rejection(key: Seq<char>) -> Option<Seq<char>>;

/// The request-identity keys that an SDK endpoint builder holds, in the order they were
/// added, each by the text it was added as.
pub uninterp spec fn builder_identity_keys(builder: Builder) -> Seq<Seq<char>>;

/// The services bound to an SDK endpoint builder, by name, in the order they were bound.
pub uninterp spec fn builder_services(builder: Builder) -> Seq<Seq<char>>;

/// Calls `restate_sdk::endpoint::Builder::identity_key`, which parses a request-identity
/// verification key and appends it to the keys of the builder's identity verifier, or
/// rejects it with a `KeyError`, handed back here as its message. Whether a key is
/// accepted, and the message it is rejected with, depend on the key alone (its
/// `publickeyv1_` prefix, its base58 body and the decoded length). The call changes
/// nothing but the verifier, so the services bound to the builder stay as they were; of
/// them only their names are stated.
#[verifier::external_body]
fn add_identity_key(builder: Builder, key: &str) -> (result: Result<Builder, String>)
    ensures
        result is Ok <==> identity_key_rejection(key@) is None,
        result matches Err(reason) ==> identity_key_rejection(key@) == Some(reason@),
        result matches Ok(added) ==> builder_identity_keys(added) == builder_identity_keys(
            builder,
        ).push(key@),
        result matches Ok(added) ==> builder_services(added) == builder_services(builder),
{
    match builder.identity_key(key) {
        Ok(builder) => Ok(builder),
        Err(error) => Err(error.to_string()),
    }
}

/// Whether the SDK accepts the identity key at `index`.
pub open spec fn key_accepted(keys: Seq<String>, index: int) -> bool {
    identity_key_rejection(keys[index]@) is None
}

/// The texts of a list of keys.
pub open spec fn key_texts(keys: Seq<String>) -> Seq<Seq<char>> {
    keys.map_values(|k: String| k@)
}

impl EndpointConfig {
    /// Adds the configured verification keys, in order, to a caller-owned SDK builder.
    ///
    /// Succeeds when the SDK accepts every key, with the builder's keys followed by the
    /// configured ones and the services bound to it unchanged; otherwise fails with [`ConfigError::IdentityKey`] for the first key
    /// it rejects, with its position and the SDK's message. Without keys the builder comes
    /// back as it was given.
    pub fn apply(&self, builder: Builder) -> (result: Result<Builder, ConfigError>)
        ensures
            result is Ok <==> forall|i: int|
                0 <= i < self.identity_keys@.len() ==> key_accepted(self.identity_keys@, i),
            result matches Ok(applied) ==> builder_identity_keys(applied) == builder_identity_keys(
                builder,
            ) + key_texts(self.identity_keys@),
            result matches Ok(applied) ==> builder_services(applied) == builder_services(builder),
            result is Err ==> (result->Err_0 matches ConfigError::IdentityKey { index, reason } && {
                &&& index < self.identity_keys@.len()
                &&& identity_key_rejection(self.identity_keys@[index as int]@) == Some(reason@)
                &&& forall|j: int| 0 <= j < index ==> key_accepted(self.identity_keys@, j)
            }),
            self.identity_keys@.len() == 0 ==> result == Ok::<Builder, ConfigError>(builder),
    {
        let ghost given = builder;
        let mut builder = builder;
        let n = self.identity_keys.len();
        let mut i: usize = 0;
        while i < n
            invariant
                n == self.identity_keys@.len(),
                i <= n,
                forall|j: int| 0 <= j < i ==> key_accepted(self.identity_keys@, j),
                i == 0 ==> builder == given,
                builder_identity_keys(builder) == builder_identity_keys(given) + key_texts(
                    self.identity_keys@.take(i as int),
                ),
                builder_services(builder) == builder_services(given),
            decreases n - i,
        {
            match add_identity_key(builder, self.identity_keys[i].as_str()) {
                Ok(next) => {
                    proof {
                        assert(key_texts(self.identity_keys@.take(i + 1)) =~= key_texts(
                            self.identity_keys@.take(i as int),
                        ).push(self.identity_keys@[i as int]@));
                        assert(builder_identity_keys(given) + key_texts(
                            self.identity_keys@.take(i + 1),
                        ) =~= (builder_identity_keys(given) + key_texts(
                            self.identity_keys@.take(i as int),
                        )).push(self.identity_keys@[i as int]@));
                    }
                    builder = next;
                },
                Err(reason) => {
                    assert(!key_accepted(self.identity_keys@, i as int));
                    return Err(ConfigError::IdentityKey { index: i, reason });
                },
            }
            i = i + 1;
        }
        proof {
            assert(self.identity_keys@.take(n as int) =~= self.identity_keys@);
        }
        Ok(builder)
    }
}

/// The Unicode `White_Space` characters, which `char::is_whitespace` recognises.
pub open spec fn is_white_space(c: char) -> bool {
    let u = c as int;
    ||| 0x9 <= u <= 0xD
    ||| u == 0x20
    ||| u == 0x85
    ||| u == 0xA0
    ||| u == 0x1680
    ||| 0x2000 <= u <= 0x200A
    ||| u == 0x2028
    ||| u == 0x2029
    ||| u == 0x202F
    ||| u == 0x205F
    ||| u == 0x3000
}

/// Whether `c` separates the keys of a delimited list: a comma or white space.
pub open spec fn is_key_separator(c: char) -> bool {
    c == ',' || is_white_space(c)
}

/// The pieces of `s` between separators, as `str::split` yields them: one more piece than
/// there are separators, empty pieces included.
pub open spec fn separated_pieces(s: Seq<char>) -> Seq<Seq<char>>
    decreases s.len(),
{
    if s.len() == 0 {
        seq![Seq::empty()]
    } else {
        let pieces = separated_pieces(s.drop_last());
        if is_key_separator(s.last()) {
            pieces.push(Seq::empty())
        } else {
            pieces.update(pieces.len() - 1, pieces.last().push(s.last()))
        }
    }
}

/// Whether a piece of a delimited list is a key: it is not empty.
pub open spec fn is_key(piece: Seq<char>) -> bool {
    piece.len() > 0
}

/// The identity keys that a delimited string lists: its non-empty pieces, in order.
pub open spec fn delimited_keys(s: Seq<char>) -> Seq<Seq<char>> {
    separated_pieces(s).filter(|piece: Seq<char>| is_key(piece))
}

/// Whether `s` holds no separator.
pub open spec fn has_no_separator(s: Seq<char>) -> bool {
    forall|i: int| 0 <= i < s.len() ==> !(#[trigger] is_key_separator(s[i]))
}

proof fn lemma_pieces_without_separator(s: Seq<char>)
    requires
        has_no_separator(s),
    ensures
        separated_pieces(s) == seq![s],
    decreases s.len(),
{
    if s.len() > 0 {
        let prefix = s.drop_last();
        assert(has_no_separator(prefix)) by {
            assert forall|i: int| 0 <= i < prefix.len() implies !(#[trigger] is_key_separator(
                prefix[i],
            )) by {
                assert(prefix[i] == s[i]);
            }
        }
        lemma_pieces_without_separator(prefix);
        assert(!is_key_separator(s[s.len() - 1]));
        assert(prefix.push(s.last()) =~= s);
        assert(separated_pieces(s) =~= seq![s]);
    } else {
        assert(s =~= Seq::<char>::empty());
    }
}

proof fn lemma_pieces_split_at_separator(a: Seq<char>, sep: char, b: Seq<char>)
    requires
        is_key_separator(sep),
    ensures
        separated_pieces(a.push(sep) + b) == separated_pieces(a) + separated_pieces(b),
    decreases b.len(),
{
    lemma_pieces_not_empty(a);
    if b.len() == 0 {
        assert(a.push(sep) + b =~= a.push(sep));
        assert(a.push(sep).drop_last() =~= a);
        assert(a.push(sep).last() == sep);
        assert(separated_pieces(a.push(sep)) == separated_pieces(a).push(Seq::empty()));
        assert(separated_pieces(a) + separated_pieces(b) =~= separated_pieces(a).push(
            Seq::empty(),
        ));
    } else {
        let rest = b.drop_last();
        let c = b.last();
        lemma_pieces_split_at_separator(a, sep, rest);
        lemma_pieces_not_empty(rest);
        let whole = a.push(sep) + b;
        assert(whole.drop_last() =~= a.push(sep) + rest);
        assert(whole.last() == c);
        let left = separated_pieces(a);
        let right = separated_pieces(rest);
        if is_key_separator(c) {
            assert((left + right).push(Seq::empty()) =~= left + right.push(Seq::empty()));
        } else {
            assert((left + right).update(
                (left + right).len() - 1,
                (left + right).last().push(c),
            ) =~= left + right.update(right.len() - 1, right.last().push(c)));
        }
    }
}

/// Law: only a comma or a Unicode `White_Space` character separates keys. A string
/// without either is its own only key (none when it is empty), and a separator splits a
/// string into the keys before it followed by the keys after it; so the keys are the runs
/// of other characters, in order. Among ASCII characters the separators are the comma, the
/// space and the tab, line feed, vertical tab, form feed and carriage return.
pub proof fn lemma_keys_are_the_runs_between_separators(a: Seq<char>, sep: char, b: Seq<char>)
    ensures
        has_no_separator(a) ==> delimited_keys(a) == if a.len() == 0 {
            Seq::<Seq<char>>::empty()
        } else {
            seq![a]
        },
        is_key_separator(sep) ==> delimited_keys(a.push(sep) + b) == delimited_keys(a)
            + delimited_keys(b),
        (sep as u32) < 0x80 ==> (is_key_separator(sep) <==> (sep == ',' || sep == ' ' || (
        '\t' <= sep && sep <= '\r'))),
{
    let keep = |piece: Seq<char>| is_key(piece);
    if has_no_separator(a) {
        lemma_pieces_without_separator(a);
        reveal_with_fuel(Seq::filter, 2);
        if a.len() == 0 {
            assert(seq![a].drop_last() =~= Seq::<Seq<char>>::empty());
            assert(seq![a].filter(keep) =~= Seq::<Seq<char>>::empty());
        } else {
            assert(seq![a].drop_last() =~= Seq::<Seq<char>>::empty());
            assert(seq![a].filter(keep) =~= seq![a]);
        }
    }
    if is_key_separator(sep) {
        lemma_pieces_split_at_separator(a, sep, b);
        Seq::filter_distributes_over_add(separated_pieces(a), separated_pieces(b), keep);
    }
}

/// Whether `c` separates keys; `char::is_whitespace` written out for the characters it
/// recognises.
fn is_separator(c: char) -> (separator: bool)
    ensures
        separator == is_key_separator(c),
{
    let u = c as u32;
    c == ',' || (0x9 <= u && u <= 0xD) || u == 0x20 || u == 0x85 || u == 0xA0 || u == 0x1680
        || (0x2000 <= u && u <= 0x200A) || u == 0x2028 || u == 0x2029 || u == 0x202F || u
        == 0x205F || u == 0x3000
}

proof fn lemma_pieces_not_empty(s: Seq<char>)
    ensures
        separated_pieces(s).len() >= 1,
    decreases s.len(),
{
    if s.len() > 0 {
        lemma_pieces_not_empty(s.drop_last());
    }
}

/// The identity keys that a comma- or white-space-delimited string lists, in order: the
/// pieces between separators that are not empty.
pub fn split_identity_keys(text: &str) -> (keys: Vec<String>)
    ensures
        key_texts(keys@) == delimited_keys(text@),
{
    let ghost s = text@;
    let n = text.unicode_len();
    let mut keys: Vec<String> = Vec::new();
    let mut start: usize = 0;
    let mut i: usize = 0;
    proof {
        assert(s.take(0) =~= Seq::<char>::empty());
        assert(text@.subrange(0, 0) =~= Seq::<char>::empty());
    }
    while i < n
        invariant
            s == text@,
            n == s.len(),
            start <= i <= n,
            separated_pieces(s.take(i as int)).len() >= 1,
            separated_pieces(s.take(i as int)).last() == s.subrange(start as int, i as int),
            keys@.map_values(|k: String| k@) == separated_pieces(s.take(i as int)).drop_last().filter(
                |piece: Seq<char>| is_key(piece),
            ),
        decreases n - i,
    {
        let c = text.get_char(i);
        let ghost before = separated_pieces(s.take(i as int));
        proof {
            assert(s.take(i + 1).drop_last() =~= s.take(i as int));
            assert(s.take(i + 1).last() == c);
            lemma_pieces_not_empty(s.take(i as int));
        }
        if is_separator(c) {
            proof {
                let after = separated_pieces(s.take(i + 1));
                assert(after == before.push(Seq::empty()));
                assert(after.drop_last() =~= before);
                assert(before =~= before.drop_last().push(before.last()));
                before.drop_last().lemma_filter_push(before.last(), |piece: Seq<char>| is_key(piece));
                assert(after.last() =~= s.subrange(i + 1, i + 1));
            }
            if start < i {
                let key = String::from_str(text.substring_char(start, i));
                let ghost prior = keys@.map_values(|k: String| k@);
                keys.push(key);
                proof {
                    assert(keys@.map_values(|k: String| k@) =~= prior.push(key@));
                }
            }
            start = i + 1;
        } else {
            proof {
                let after = separated_pieces(s.take(i + 1));
                assert(after == before.update(before.len() - 1, before.last().push(c)));
                assert(after.drop_last() =~= before.drop_last());
                assert(after.last() =~= s.subrange(start as int, i + 1));
            }
        }
        i = i + 1;
    }
    proof {
        let all = separated_pieces(s.take(n as int));
        assert(s.take(n as int) =~= s);
        assert(all =~= all.drop_last().push(all.last()));
        all.drop_last().lemma_filter_push(all.last(), |piece: Seq<char>| is_key(piece));
    }
    if start < n {
        let key = String::from_str(text.substring_char(start, n));
        let ghost prior = keys@.map_values(|k: String| k@);
        keys.push(key);
        proof {
            assert(keys@.map_values(|k: String| k@) =~= prior.push(key@));
        }
    }
    keys
}

/// Whether `name` is among the handler names a service has.
pub open spec fn is_known_handler(handlers: Seq<String>, name: String) -> bool {
    exists|j: int| 0 <= j < handlers.len() && handlers[j]@ == name@
}

/// Law: an override names a handler only when it equals one of the handler names
/// character for character; a prefix, or a name differing only in case, is no match.
pub proof fn lemma_known_handler_is_an_exact_name(handlers: Seq<String>, name: String)
    ensures
        is_known_handler(handlers, name) <==> handlers.map_values(|h: String| h@).contains(
            name@,
        ),
{
    let names = handlers.map_values(|h: String| h@);
    if is_known_handler(handlers, name) {
        let j = choose|j: int| 0 <= j < handlers.len() && handlers[j]@ == name@;
        assert(names[j] == name@);
    }
    if names.contains(name@) {
        let j = choose|j: int| 0 <= j < names.len() && names[j] == name@;
        assert(handlers[j]@ == name@);
    }
}

/// Checks handler overrides against the handlers a service has, by exact, case-sensitive
/// name.
///
/// Succeeds when every override names a handler of the service; otherwise fails with
/// [`ConfigError::UnknownHandler`] for the first override that does not, with the
/// service's name.
pub fn validate_handler_names(service: &str, handlers: &Vec<String>, overrides: &Vec<String>) -> (result: Result<(), ConfigError>)
    ensures
        result is Ok <==> forall|i: int|
            0 <= i < overrides@.len() ==> is_known_handler(handlers@, #[trigger] overrides@[i]),
        result is Err ==> (result->Err_0 matches ConfigError::UnknownHandler { service: named, handler } && {
            &&& named@ == service@
            &&& exists|i: int| {
                &&& 0 <= i < overrides@.len()
                &&& handler@ == overrides@[i]@
                &&& !is_known_handler(handlers@, overrides@[i])
                &&& forall|j: int| 0 <= j < i ==> is_known_handler(handlers@, #[trigger] overrides@[j])
            }
        }),
{
    let mut i: usize = 0;
    while i < overrides.len()
        invariant
            i <= overrides@.len(),
            forall|j: int| 0 <= j < i ==> is_known_handler(handlers@, #[trigger] overrides@[j]),
        decreases overrides@.len() - i,
    {
        let name = &overrides[i];
        let mut found = false;
        let mut k: usize = 0;
        while k < handlers.len()
            invariant
                k <= handlers@.len(),
                name == overrides@[i as int],
                found ==> is_known_handler(handlers@, *name),
                !found ==> forall|j: int| 0 <= j < k ==> handlers@[j]@ != name@,
            decreases handlers@.len() - k,
        {
            if handlers[k] == *name {
                found = true;
            }
            k = k + 1;
        }
        if !found {
            let handler = name.clone();
            return Err(ConfigError::UnknownHandler { service: String::from_str(service), handler });
        }
        i = i + 1;
    }
    Ok(())
}

} // verus!
