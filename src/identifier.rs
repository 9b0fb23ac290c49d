//! Validated identifiers for the four host namespaces: clients, connections,
//! ports and channels.
//!
//! All four share one grammar, parameterised by the namespace's length bounds;
//! each namespace has its own type so that identifiers cannot be confused.
use vstd::prelude::*;
use vstd::string::StrSliceExecFns;

verus! {

broadcast use vstd::string::group_string_axioms;

/// The namespace an identifier belongs to; it fixes the length bounds.
#[derive(Clone, Copy, Debug, PartialEq, Eq, Structural)]
pub enum Namespace {
    Client,
    Connection,
    Port,
    Channel,
}

impl Namespace {
    pub open spec fn spec_min_length(self) -> nat {
        match self {
            Namespace::Client => 9,
            Namespace::Connection => 10,
            Namespace::Port => 2,
            Namespace::Channel => 10,
        }
    }

    pub open spec fn spec_max_length(self) -> nat {
        20
    }

    /// Fewest characters an identifier of this namespace may have.
    pub fn min_length(self) -> (r: usize)
        ensures
            r == self.spec_min_length(),
    {
        match self {
            Namespace::Client => 9,
            Namespace::Connection => 10,
            Namespace::Port => 2,
            Namespace::Channel => 10,
        }
    }

    /// Most characters an identifier of this namespace may have.
    pub fn max_length(self) -> (r: usize)
        ensures
            r == self.spec_max_length(),
    {
        20
    }
}

/// Why a text is not an identifier.
#[derive(Clone, Copy, Debug, PartialEq, Eq, Structural)]
pub enum ValidationKind {
    /// The text is empty.
    Empty,
    /// The number of characters lies outside the namespace's bounds.
    InvalidLength { length: usize, min: usize, max: usize },
    /// The text holds the path separator `/`.
    ContainsSeparator,
    /// The text holds a character outside the allowed set.
    InvalidCharacter,
}

/// A rejected identifier: the namespace, the offending text and the reason.
#[derive(Clone, Debug)]
pub struct ValidationError {
    pub namespace: Namespace,
    pub input: String,
    pub kind: ValidationKind,
}

/// Characters allowed in an identifier: ASCII letters and digits and `._+-#[]<>`.
pub open spec fn is_identifier_char(c: char) -> bool {
    ('a' <= c && c <= 'z') || ('A' <= c && c <= 'Z') || ('0' <= c && c <= '9') || c == '.'
        || c == '_' || c == '+' || c == '-' || c == '#' || c == '[' || c == ']' || c == '<'
        || c == '>'
}

pub open spec fn all_identifier_chars(s: Seq<char>) -> bool {
    forall|i: int| 0 <= i < s.len() ==> #[trigger] is_identifier_char(s[i])
}

pub open spec fn length_in_bounds(s: Seq<char>, ns: Namespace) -> bool {
    ns.spec_min_length() <= s.len() <= ns.spec_max_length()
}

/// The reason `s` is rejected in namespace `ns`, checked in this order:
/// emptiness, length, separator, character set; `None` when `s` is valid.
pub open spec fn identifier_failure(s: Seq<char>, ns: Namespace) -> Option<ValidationKind> {
    if s.len() == 0 {
        Some(ValidationKind::Empty)
    } else if !length_in_bounds(s, ns) {
        Some(
            ValidationKind::InvalidLength {
                length: s.len() as usize,
                min: ns.spec_min_length() as usize,
                max: ns.spec_max_length() as usize,
            },
        )
    } else if s.contains('/') {
        Some(ValidationKind::ContainsSeparator)
    } else if !all_identifier_chars(s) {
        Some(ValidationKind::InvalidCharacter)
    } else {
        None
    }
}

pub open spec fn is_valid_identifier(s: Seq<char>, ns: Namespace) -> bool {
    identifier_failure(s, ns) is None
}

/// What parsing `s` in namespace `ns` gives: the text itself, or the reason it
/// is rejected.
pub open spec fn parse_outcome(s: Seq<char>, ns: Namespace) -> Result<Seq<char>, ValidationKind> {
    match identifier_failure(s, ns) {
        None => Ok(s),
        Some(k) => Err(k),
    }
}

/// The bytes of an ASCII text, one per character.
pub open spec fn ascii_bytes(s: Seq<char>) -> Seq<u8> {
    Seq::new(s.len(), |i: int| s[i] as u8)
}

fn is_identifier_char_exec(c: char) -> (r: bool)
    ensures
        r == is_identifier_char(c),
{
    ('a' <= c && c <= 'z') || ('A' <= c && c <= 'Z') || ('0' <= c && c <= '9') || c == '.' || c
        == '_' || c == '+' || c == '-' || c == '#' || c == '[' || c == ']' || c == '<' || c == '>'
}

/// Checks `id` against the grammar of namespace `ns`.
pub fn validate_identifier(id: &str, ns: Namespace) -> (r: Result<(), ValidationError>)
    ensures
        r is Ok <==> is_valid_identifier(id@, ns),
        r matches Err(e) ==> Some(e.kind) == identifier_failure(id@, ns) && e.namespace == ns
            && e.input@ == id@,
{
    let len = id.unicode_len();
    if len == 0 {
        return Err(ValidationError { namespace: ns, input: id.to_owned(), kind: ValidationKind::Empty });
    }
    let min = ns.min_length();
    let max = ns.max_length();
    if len < min || len > max {
        return Err(
            ValidationError {
                namespace: ns,
                input: id.to_owned(),
                kind: ValidationKind::InvalidLength { length: len, min, max },
            },
        );
    }
    assert(length_in_bounds(id@, ns));
    let mut i: usize = 0;
    while i < len
        invariant
            len == id@.len(),
            len > 0,
            length_in_bounds(id@, ns),
            i <= len,
            forall|j: int| 0 <= j < i ==> id@[j] != '/',
        decreases len - i,
    {
        if id.get_char(i) == '/' {
            assert(id@.contains('/')) by {
                assert(id@[i as int] == '/');
            }
            return Err(
                ValidationError {
                    namespace: ns,
                    input: id.to_owned(),
                    kind: ValidationKind::ContainsSeparator,
                },
            );
        }
        i = i + 1;
    }
    assert(!id@.contains('/'));
    let mut k: usize = 0;
    while k < len
        invariant
            len == id@.len(),
            len > 0,
            length_in_bounds(id@, ns),
            !id@.contains('/'),
            k <= len,
            forall|j: int| 0 <= j < k ==> is_identifier_char(#[trigger] id@[j]),
        decreases len - k,
    {
        if !is_identifier_char_exec(id.get_char(k)) {
            assert(!all_identifier_chars(id@)) by {
                assert(!is_identifier_char(id@[k as int]));
            }
            return Err(
                ValidationError {
                    namespace: ns,
                    input: id.to_owned(),
                    kind: ValidationKind::InvalidCharacter,
                },
            );
        }
        k = k + 1;
    }
    Ok(())
}

/// Parsing then reading back: text made of allowed characters whose length lies
/// within a namespace's bounds parses in that namespace, and the identifier's
/// text is exactly the input.
pub proof fn lemma_parse_round_trip(s: Seq<char>, ns: Namespace)
    requires
        length_in_bounds(s, ns),
        all_identifier_chars(s),
    ensures
        is_valid_identifier(s, ns),
        parse_outcome(s, ns) == Ok::<Seq<char>, ValidationKind>(s),
{
    assert(!s.contains('/')) by {
        if s.contains('/') {
            let i = choose|i: int| 0 <= i < s.len() && s[i] == '/';
            assert(is_identifier_char(s[i]));
        }
    }
}

/// Text with a character outside the allowed set, or with a length outside a
/// namespace's bounds, is rejected when parsed in that namespace.
pub proof fn lemma_parse_rejects_invalid(s: Seq<char>, ns: Namespace)
    requires
        !length_in_bounds(s, ns) || !all_identifier_chars(s),
    ensures
        !is_valid_identifier(s, ns),
        parse_outcome(s, ns) is Err,
{
}

proof fn lemma_valid_is_ascii(s: Seq<char>, ns: Namespace)
    requires
        is_valid_identifier(s, ns),
    ensures
        vstd::utf8::is_ascii_chars(s),
{
    assert forall|i: int| 0 <= i < s.len() implies '\0' <= #[trigger] s[i] <= '\u{7f}' by {
        assert(is_identifier_char(s[i]));
    }
}

/// Identifier of a light client.
///
/// A value of this type always holds text that is valid in the
/// `Namespace::Client` namespace: parsing is its only constructor.
#[derive(Debug, PartialEq, Eq, PartialOrd, Ord, Hash)]
pub struct ClientId {
    id: String,
}

impl View for ClientId {
    type V = Seq<char>;

    closed spec fn view(&self) -> Seq<char> {
        self.id@
    }
}

impl ClientId {
    #[verifier::type_invariant]
    spec fn valid(&self) -> bool {
        is_valid_identifier(self.id@, Namespace::Client)
    }

    /// Parses `s` as an identifier of the `Namespace::Client` namespace.
    pub fn parse(s: &str) -> (r: Result<ClientId, ValidationError>)
        ensures
            match r {
                Ok(id) => parse_outcome(s@, Namespace::Client) == Ok::<Seq<char>, ValidationKind>(id@),
                Err(e) => parse_outcome(s@, Namespace::Client) == Err::<Seq<char>, ValidationKind>(e.kind)
                    && e.namespace == Namespace::Client && e.input@ == s@,
            },
    {
        match validate_identifier(s, Namespace::Client) {
            Ok(()) => Ok(ClientId { id: s.to_owned() }),
            Err(e) => Err(e),
        }
    }

    /// This identifier as a borrowed `&str`.
    pub fn as_str(&self) -> (r: &str)
        ensures
            r@ == self@,
            is_valid_identifier(r@, Namespace::Client),
    {
        proof {
            use_type_invariant(self);
        }
        self.id.as_str()
    }

    /// This identifier as a borrowed byte slice, one byte per character.
    pub fn as_bytes(&self) -> (r: &[u8])
        ensures
            r@ == ascii_bytes(self@),
    {
        proof {
            use_type_invariant(self);
            lemma_valid_is_ascii(self.id@, Namespace::Client);
        }
        let s = self.id.as_str();
        proof {
            vstd::string::is_ascii_spec_bytes(s);
        }
        s.as_bytes()
    }
}

impl Clone for ClientId {
    fn clone(&self) -> (r: ClientId)
        ensures
            r == *self,
    {
        proof {
            use_type_invariant(self);
        }
        ClientId { id: self.id.clone() }
    }
}

impl core::str::FromStr for ClientId {
    type Err = ValidationError;

    fn from_str(s: &str) -> Result<ClientId, ValidationError> {
        ClientId::parse(s)
    }
}

/// Identifier of a connection.
///
/// A value of this type always holds text that is valid in the
/// `Namespace::Connection` namespace: parsing is its only constructor.
#[derive(Debug, PartialEq, Eq, PartialOrd, Ord, Hash)]
pub struct ConnectionId {
    id: String,
}

impl View for ConnectionId {
    type V = Seq<char>;

    closed spec fn view(&self) -> Seq<char> {
        self.id@
    }
}

impl ConnectionId {
    #[verifier::type_invariant]
    spec fn valid(&self) -> bool {
        is_valid_identifier(self.id@, Namespace::Connection)
    }

    /// Parses `s` as an identifier of the `Namespace::Connection` namespace.
    pub fn parse(s: &str) -> (r: Result<ConnectionId, ValidationError>)
        ensures
            match r {
                Ok(id) => parse_outcome(s@, Namespace::Connection) == Ok::<Seq<char>, ValidationKind>(id@),
                Err(e) => parse_outcome(s@, Namespace::Connection) == Err::<Seq<char>, ValidationKind>(e.kind)
                    && e.namespace == Namespace::Connection && e.input@ == s@,
            },
    {
        match validate_identifier(s, Namespace::Connection) {
            Ok(()) => Ok(ConnectionId { id: s.to_owned() }),
            Err(e) => Err(e),
        }
    }

    /// This identifier as a borrowed `&str`.
    pub fn as_str(&self) -> (r: &str)
        ensures
            r@ == self@,
            is_valid_identifier(r@, Namespace::Connection),
    {
        proof {
            use_type_invariant(self);
        }
        self.id.as_str()
    }

    /// This identifier as a borrowed byte slice, one byte per character.
    pub fn as_bytes(&self) -> (r: &[u8])
        ensures
            r@ == ascii_bytes(self@),
    {
        proof {
            use_type_invariant(self);
            lemma_valid_is_ascii(self.id@, Namespace::Connection);
        }
        let s = self.id.as_str();
        proof {
            vstd::string::is_ascii_spec_bytes(s);
        }
        s.as_bytes()
    }
}

impl Clone for ConnectionId {
    fn clone(&self) -> (r: ConnectionId)
        ensures
            r == *self,
    {
        proof {
            use_type_invariant(self);
        }
        ConnectionId { id: self.id.clone() }
    }
}

impl core::str::FromStr for ConnectionId {
    type Err = ValidationError;

    fn from_str(s: &str) -> Result<ConnectionId, ValidationError> {
        ConnectionId::parse(s)
    }
}

/// Identifier of a port.
///
/// A value of this type always holds text that is valid in the
/// `Namespace::Port` namespace: parsing is its only constructor.
#[derive(Debug, PartialEq, Eq, PartialOrd, Ord, Hash)]
pub struct PortId {
    id: String,
}

impl View for PortId {
    type V = Seq<char>;

    closed spec fn view(&self) -> Seq<char> {
        self.id@
    }
}

impl PortId {
    #[verifier::type_invariant]
    spec fn valid(&self) -> bool {
        is_valid_identifier(self.id@, Namespace::Port)
    }

    /// Parses `s` as an identifier of the `Namespace::Port` namespace.
    pub fn parse(s: &str) -> (r: Result<PortId, ValidationError>)
        ensures
            match r {
                Ok(id) => parse_outcome(s@, Namespace::Port) == Ok::<Seq<char>, ValidationKind>(id@),
                Err(e) => parse_outcome(s@, Namespace::Port) == Err::<Seq<char>, ValidationKind>(e.kind)
                    && e.namespace == Namespace::Port && e.input@ == s@,
            },
    {
        match validate_identifier(s, Namespace::Port) {
            Ok(()) => Ok(PortId { id: s.to_owned() }),
            Err(e) => Err(e),
        }
    }

    /// This identifier as a borrowed `&str`.
    pub fn as_str(&self) -> (r: &str)
        ensures
            r@ == self@,
            is_valid_identifier(r@, Namespace::Port),
    {
        proof {
            use_type_invariant(self);
        }
        self.id.as_str()
    }

    /// This identifier as a borrowed byte slice, one byte per character.
    pub fn as_bytes(&self) -> (r: &[u8])
        ensures
            r@ == ascii_bytes(self@),
    {
        proof {
            use_type_invariant(self);
            lemma_valid_is_ascii(self.id@, Namespace::Port);
        }
        let s = self.id.as_str();
        proof {
            vstd::string::is_ascii_spec_bytes(s);
        }
        s.as_bytes()
    }
}

impl Clone for PortId {
    fn clone(&self) -> (r: PortId)
        ensures
            r == *self,
    {
        proof {
            use_type_invariant(self);
        }
        PortId { id: self.id.clone() }
    }
}

impl core::str::FromStr for PortId {
    type Err = ValidationError;

    fn from_str(s: &str) -> Result<PortId, ValidationError> {
        PortId::parse(s)
    }
}

/// Identifier of a channel.
///
/// A value of this type always holds text that is valid in the
/// `Namespace::Channel` namespace: parsing is its only constructor.
#[derive(Debug, PartialEq, Eq, PartialOrd, Ord, Hash)]
pub struct ChannelId {
    id: String,
}

impl View for ChannelId {
    type V = Seq<char>;

    closed spec fn view(&self) -> Seq<char> {
        self.id@
    }
}

impl ChannelId {
    #[verifier::type_invariant]
    spec fn valid(&self) -> bool {
        is_valid_identifier(self.id@, Namespace::Channel)
    }

    /// Parses `s` as an identifier of the `Namespace::Channel` namespace.
    pub fn parse(s: &str) -> (r: Result<ChannelId, ValidationError>)
        ensures
            match r {
                Ok(id) => parse_outcome(s@, Namespace::Channel) == Ok::<Seq<char>, ValidationKind>(id@),
                Err(e) => parse_outcome(s@, Namespace::Channel) == Err::<Seq<char>, ValidationKind>(e.kind)
                    && e.namespace == Namespace::Channel && e.input@ == s@,
            },
    {
        match validate_identifier(s, Namespace::Channel) {
            Ok(()) => Ok(ChannelId { id: s.to_owned() }),
            Err(e) => Err(e),
        }
    }

    /// This identifier as a borrowed `&str`.
    pub fn as_str(&self) -> (r: &str)
        ensures
            r@ == self@,
            is_valid_identifier(r@, Namespace::Channel),
    {
        proof {
            use_type_invariant(self);
        }
        self.id.as_str()
    }

    /// This identifier as a borrowed byte slice, one byte per character.
    pub fn as_bytes(&self) -> (r: &[u8])
        ensures
            r@ == ascii_bytes(self@),
    {
        proof {
            use_type_invariant(self);
            lemma_valid_is_ascii(self.id@, Namespace::Channel);
        }
        let s = self.id.as_str();
        proof {
            vstd::string::is_ascii_spec_bytes(s);
        }
        s.as_bytes()
    }
}

impl Clone for ChannelId {
    fn clone(&self) -> (r: ChannelId)
        ensures
            r == *self,
    {
        proof {
            use_type_invariant(self);
        }
        ChannelId { id: self.id.clone() }
    }
}

impl core::str::FromStr for ChannelId {
    type Err = ValidationError;

    fn from_str(s: &str) -> Result<ChannelId, ValidationError> {
        ChannelId::parse(s)
    }
}

} // verus!
