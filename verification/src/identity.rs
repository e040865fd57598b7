//! Canonical task identities and their typed W3C trace components.

use core::marker::PhantomData;

use vstd::prelude::*;

use crate::scheme::{valid_scheme, valid_urn_prefix, UrnScheme};
use crate::text::{debug_quote, debug_text, has_prefix, sep_positions, starts_with, utf8_len};

pub mod hex;
mod traceparent;

use hex::{
    all_zero, decode_hex, decode_lower_hex, encode_hex, is_all_zero, is_lower_hex_of_width,
    all_hex_digits, is_hex_digit, lemma_decode_encode, lemma_encode_decode, lower_hex,
};
pub use traceparent::{field_between, traceparent_trace};

verus! {

/// Number of random bytes in a task-tree identifier.
pub const TRACE_BYTE_LEN: usize = 16;

/// Number of random bytes in a task-node identifier.
pub const SPAN_BYTE_LEN: usize = 8;

/// Why a task identity was refused.
#[derive(Debug, Clone, Copy, PartialEq, Eq, Structural, Hash)]
pub enum IdentityFault {
    /// A task URN that does not start with the scheme's task prefix.
    ForeignPrefix,
    /// A task URN with more than one `:` after its prefix.
    TooManyFields,
    /// A task URN that spells out the reserved root node.
    RootNodeSpelled,
    /// A trace ID that is not 32 lowercase hex characters.
    TraceWidth,
    /// An all-zero trace ID.
    TraceZero,
    /// A span ID that is not 16 lowercase hex characters.
    SpanWidth,
    /// An all-zero span ID.
    SpanZero,
    /// A traceparent with more than four fields.
    TraceparentTooManyFields,
    /// A traceparent whose flags are not two characters wide.
    TraceparentFlags,
    /// A traceparent with a non-hex version, parent or flags field.
    TraceparentNotHex,
    /// A traceparent parent ID that is not 16 lowercase hex characters.
    TraceparentParentWidth,
    /// An all-zero traceparent parent ID.
    TraceparentParentZero,
}

impl IdentityFault {
    /// The human-readable explanation of the fault.
    pub fn message(self) -> (r: &'static str)
        ensures
            r@ == self.message_text(),
    {
        match self {
            IdentityFault::ForeignPrefix => "URN does not start with the scheme's task prefix",
            IdentityFault::TooManyFields => "task ID has too many fields",
            IdentityFault::RootNodeSpelled => "root task URN must omit the reserved root node",
            IdentityFault::TraceWidth => "expected 32 trace hex characters",
            IdentityFault::TraceZero => "trace ID must not be all zero",
            IdentityFault::SpanWidth => "expected 16 span hex characters",
            IdentityFault::SpanZero => "span ID must not be all zero",
            IdentityFault::TraceparentTooManyFields => "traceparent has too many fields",
            IdentityFault::TraceparentFlags => "traceparent flags must be 2 hex characters",
            IdentityFault::TraceparentNotHex => "traceparent fields must be hex",
            IdentityFault::TraceparentParentWidth => "traceparent parent ID must be 16 hex characters",
            IdentityFault::TraceparentParentZero => "traceparent parent ID must not be all zero",
        }
    }

    pub open spec fn message_text(self) -> Seq<char> {
        match self {
            IdentityFault::ForeignPrefix => "URN does not start with the scheme's task prefix"@,
            IdentityFault::TooManyFields => "task ID has too many fields"@,
            IdentityFault::RootNodeSpelled => "root task URN must omit the reserved root node"@,
            IdentityFault::TraceWidth => "expected 32 trace hex characters"@,
            IdentityFault::TraceZero => "trace ID must not be all zero"@,
            IdentityFault::SpanWidth => "expected 16 span hex characters"@,
            IdentityFault::SpanZero => "span ID must not be all zero"@,
            IdentityFault::TraceparentTooManyFields => "traceparent has too many fields"@,
            IdentityFault::TraceparentFlags => "traceparent flags must be 2 hex characters"@,
            IdentityFault::TraceparentNotHex => "traceparent fields must be hex"@,
            IdentityFault::TraceparentParentWidth => "traceparent parent ID must be 16 hex characters"@,
            IdentityFault::TraceparentParentZero => "traceparent parent ID must not be all zero"@,
        }
    }
}

/// A malformed task identity: the text that was offered and what is wrong
/// with it.
#[derive(Debug, Clone, PartialEq, Eq)]
pub struct TaskIdentityError {
    value: String,
    fault: IdentityFault,
}

impl View for TaskIdentityError {
    type V = (Seq<char>, IdentityFault);

    closed spec fn view(&self) -> (Seq<char>, IdentityFault) {
        (self.value@, self.fault)
    }
}

impl TaskIdentityError {
    pub(crate) fn invalid(value: &str, fault: IdentityFault) -> (r: Self)
        ensures
            r@ == (value@, fault),
    {
        TaskIdentityError { value: value.to_owned(), fault }
    }

    /// The refused text.
    pub fn value(&self) -> (r: &str)
        ensures
            r@ == self@.0,
    {
        self.value.as_str()
    }

    /// What is wrong with it.
    pub fn fault(&self) -> (r: IdentityFault)
        ensures
            r == self@.1,
    {
        self.fault
    }

    /// `invalid task identity <value, quoted>: <message>` (what `Display`
    /// prints).
    pub fn to_string(&self) -> (r: String)
        ensures
            r@ == "invalid task identity "@ + debug_text(self@.0) + ": "@ + self@.1.message_text(),
    {
        let mut s = String::from_str("invalid task identity ");
        s.append(debug_quote(self.value.as_str()).as_str());
        s.append(": ");
        s.append(self.fault.message());
        s
    }

    /// The human-readable explanation.
    pub fn message(&self) -> (r: &'static str)
        ensures
            r@ == self@.1.message_text(),
    {
        self.fault.message()
    }
}

/// The reserved span bytes of every task-tree root: `00..01`.
pub open spec fn root_node() -> Seq<u8> {
    seq![0u8, 0u8, 0u8, 0u8, 0u8, 0u8, 0u8, 1u8]
}

/// Sixteen bytes, not all zero: a usable W3C trace ID.
pub open spec fn valid_trace_bytes(b: Seq<u8>) -> bool {
    b.len() == TRACE_BYTE_LEN && !all_zero(b)
}

/// Eight bytes, not all zero: a usable W3C span ID.
pub open spec fn valid_span_bytes(b: Seq<u8>) -> bool {
    b.len() == SPAN_BYTE_LEN && !all_zero(b)
}

/// The trace bytes spelled by `hex`, or why it spells none.
pub open spec fn trace_from_hex(hex: Seq<char>) -> Result<Seq<u8>, IdentityFault> {
    if !is_lower_hex_of_width(hex, TRACE_BYTE_LEN as nat) {
        Err(IdentityFault::TraceWidth)
    } else if all_zero(decode_lower_hex(hex)) {
        Err(IdentityFault::TraceZero)
    } else {
        Ok(decode_lower_hex(hex))
    }
}

/// The span bytes spelled by `hex`, or why it spells none.
pub open spec fn span_from_hex(hex: Seq<char>) -> Result<Seq<u8>, IdentityFault> {
    if !is_lower_hex_of_width(hex, SPAN_BYTE_LEN as nat) {
        Err(IdentityFault::SpanWidth)
    } else if all_zero(decode_lower_hex(hex)) {
        Err(IdentityFault::SpanZero)
    } else {
        Ok(decode_lower_hex(hex))
    }
}

/// The URN of a task tree: the tree prefix, then the trace hex.
pub open spec fn tree_urn(prefix: Seq<char>, tree: Seq<u8>) -> Seq<char> {
    prefix + lower_hex(tree)
}

/// The URN suffix of a task: the trace hex, then `:` and the span hex
/// unless the node is the tree's root.
pub open spec fn task_urn_suffix(tree: Seq<u8>, node: Seq<u8>) -> Seq<char> {
    if node == root_node() {
        lower_hex(tree)
    } else {
        lower_hex(tree) + seq![':'] + lower_hex(node)
    }
}

/// The URN of a task: the task prefix, then its suffix.
pub open spec fn task_urn(prefix: Seq<char>, tree: Seq<u8>, node: Seq<u8>) -> Seq<char> {
    prefix + task_urn_suffix(tree, node)
}

/// Parsing a task-tree identity: text under the tree prefix is a URN whose
/// rest is the trace hex; otherwise a traceparent yields its trace field, and
/// any other text is a bare trace ID.
pub open spec fn parse_tree(prefix: Seq<char>, raw: Seq<char>) -> Result<Seq<u8>, IdentityFault> {
    if starts_with(raw, prefix) {
        trace_from_hex(raw.skip(prefix.len() as int))
    } else {
        match traceparent_trace(raw) {
            Err(f) => Err(f),
            Ok(Some(trace)) => trace_from_hex(trace),
            Ok(None) => trace_from_hex(raw),
        }
    }
}

/// Parsing a task URN into its tree and node bytes.
pub open spec fn parse_task(prefix: Seq<char>, raw: Seq<char>) -> Result<(Seq<u8>, Seq<u8>), IdentityFault> {
    if !starts_with(raw, prefix) {
        Err(IdentityFault::ForeignPrefix)
    } else {
        let suffix = raw.skip(prefix.len() as int);
        let colons = sep_positions(suffix, ':');
        if colons.len() == 0 {
            match trace_from_hex(suffix) {
                Ok(t) => Ok((t, root_node())),
                Err(f) => Err(f),
            }
        } else if colons.len() > 1 {
            Err(IdentityFault::TooManyFields)
        } else {
            match span_from_hex(suffix.skip(colons[0] + 1)) {
                Err(f) => Err(f),
                Ok(n) => if n == root_node() {
                    Err(IdentityFault::RootNodeSpelled)
                } else {
                    match trace_from_hex(suffix.take(colons[0])) {
                        Ok(t) => Ok((t, n)),
                        Err(f) => Err(f),
                    }
                },
            }
        }
    }
}

/// One uniformly random byte from the thread-local generator.
///
/// Calls `rand::random::<u8>()`. Nothing is claimed of the value; the
/// generator panics only if the operating system cannot seed it.
#[verifier::external_body]
fn random_byte() -> u8 {
    rand::random::<u8>()
}

/// `n` random bytes.
fn random_bytes(n: usize) -> (r: Vec<u8>)
    ensures
        r@.len() == n,
{
    let mut r: Vec<u8> = Vec::new();
    let mut i: usize = 0;
    while i < n
        invariant
            i <= n,
            r@.len() == i,
        decreases n - i,
    {
        r.push(random_byte());
        i = i + 1;
    }
    r
}

/// A copy of `v`, byte for byte.
fn copy_bytes(v: &Vec<u8>) -> (r: Vec<u8>)
    ensures
        r@ == v@,
{
    let mut r: Vec<u8> = Vec::new();
    let mut i: usize = 0;
    while i < v.len()
        invariant
            i <= v@.len(),
            r@ == v@.take(i as int),
        decreases v@.len() - i,
    {
        r.push(v[i]);
        assert(v@.take(i + 1) =~= v@.take(i as int).push(v@[i as int]));
        i = i + 1;
    }
    assert(v@.take(i as int) =~= v@);
    r
}

/// Whether two byte vectors hold the same bytes.
fn same_bytes(a: &Vec<u8>, b: &Vec<u8>) -> (r: bool)
    ensures
        r == (a@ == b@),
{
    if a.len() != b.len() {
        return false;
    }
    let mut i: usize = 0;
    while i < a.len()
        invariant
            a@.len() == b@.len(),
            i <= a@.len(),
            forall|j: int| 0 <= j < i ==> a@[j] == b@[j],
        decreases a@.len() - i,
    {
        if a[i] != b[i] {
            return false;
        }
        i = i + 1;
    }
    assert(a@ =~= b@);
    true
}

/// W3C trace-sized identity for one distributed task tree, minted under the
/// application's [`UrnScheme`].
#[derive(Debug, Hash, PartialOrd, Ord)]
pub struct TaskTreeId<S: UrnScheme> {
    bytes: Vec<u8>,
    urn: String,
    scheme: PhantomData<S>,
}

impl<S: UrnScheme> View for TaskTreeId<S> {
    type V = Seq<u8>;

    closed spec fn view(&self) -> Seq<u8> {
        self.bytes@
    }
}

impl<S: UrnScheme> TaskTreeId<S> {
    #[verifier::type_invariant]
    spec fn well_formed(self) -> bool {
        &&& valid_trace_bytes(self.bytes@)
        &&& self.urn@ == tree_urn(S::TREE_PREFIX@, self.bytes@)
    }

    fn from_bytes(bytes: Vec<u8>) -> (r: Self)
        requires
            valid_trace_bytes(bytes@),
        ensures
            r@ == bytes@,
    {
        let mut urn = String::from_str(S::TREE_PREFIX);
        let hex = encode_hex(&bytes);
        urn.append(hex.as_str());
        TaskTreeId { bytes, urn, scheme: PhantomData }
    }

    pub(crate) fn duplicate(&self) -> (r: Self)
        ensures
            r@ == self@,
    {
        proof {
            use_type_invariant(self);
        }
        TaskTreeId { bytes: copy_bytes(&self.bytes), urn: self.urn.clone(), scheme: PhantomData }
    }

    /// Generate a non-zero random task-tree identity.
    ///
    /// All-zero draws are redrawn; should `u64::MAX` draws in a row all be
    /// zero, the last one is nudged to `00..01`.
    pub fn generate() -> (r: Self)
        requires
            valid_scheme::<S>(),
        ensures
            valid_trace_bytes(r@),
    {
        let mut attempts: u64 = 0;
        loop
            invariant
                attempts < u64::MAX,
            decreases u64::MAX - attempts,
        {
            let mut bytes = random_bytes(TRACE_BYTE_LEN);
            if !is_all_zero(&bytes) {
                return Self::from_bytes(bytes);
            }
            if attempts == u64::MAX - 1 {
                bytes.set(TRACE_BYTE_LEN - 1, 1);
                assert(bytes@[TRACE_BYTE_LEN - 1] != 0);
                return Self::from_bytes(bytes);
            }
            attempts = attempts + 1;
        }
    }

    /// Parse a task-tree URN, bare W3C trace ID, or W3C traceparent.
    pub fn new(raw: &str) -> (r: Result<Self, TaskIdentityError>)
        requires
            valid_scheme::<S>(),
        ensures
            (match parse_tree(S::TREE_PREFIX@, raw@) {
                Ok(b) => r matches Ok(t) && t@ == b,
                Err(f) => r matches Err(e) && e@ == (raw@, f),
            }),
    {
        if has_prefix(raw, S::TREE_PREFIX) {
            let hex = raw.substring_char(S::TREE_PREFIX.unicode_len(), raw.unicode_len());
            assert(hex@ =~= raw@.skip(S::TREE_PREFIX@.len() as int));
            Self::from_hex(hex, raw)
        } else {
            match traceparent::trace_hex(raw) {
                Err(e) => Err(e),
                Ok(Some(trace)) => Self::from_hex(trace, raw),
                Ok(None) => Self::from_hex(raw, raw),
            }
        }
    }

    /// Return the task-tree URN.
    pub fn as_str(&self) -> (r: &str)
        ensures
            r@ == tree_urn(S::TREE_PREFIX@, self@),
            valid_trace_bytes(self@),
    {
        proof {
            use_type_invariant(self);
        }
        self.urn.as_str()
    }

    /// Return the W3C trace ID without its URN prefix.
    pub fn as_w3c_trace_id(&self) -> (r: &str)
        ensures
            r@ == lower_hex(self@),
    {
        proof {
            use_type_invariant(self);
            lemma_decode_encode(self.bytes@);
        }
        let start = S::TREE_PREFIX.unicode_len();
        let r = self.urn.as_str().substring_char(start, self.urn.as_str().unicode_len());
        assert(r@ =~= lower_hex(self@));
        r
    }

    fn from_hex(hex: &str, input: &str) -> (r: Result<Self, TaskIdentityError>)
        requires
            valid_scheme::<S>(),
        ensures
            (match trace_from_hex(hex@) {
                Ok(b) => r matches Ok(t) && t@ == b,
                Err(f) => r matches Err(e) && e@ == (input@, f),
            }),
    {
        match decode_hex(hex, TRACE_BYTE_LEN) {
            None => Err(TaskIdentityError::invalid(input, IdentityFault::TraceWidth)),
            Some(bytes) => {
                if is_all_zero(&bytes) {
                    Err(TaskIdentityError::invalid(input, IdentityFault::TraceZero))
                } else {
                    Ok(Self::from_bytes(bytes))
                }
            },
        }
    }

    /// Whether both identities name the same task tree.
    pub fn same_tree(&self, other: &Self) -> (r: bool)
        ensures
            r == (self@ == other@),
    {
        same_bytes(&self.bytes, &other.bytes)
    }
}

impl<S: UrnScheme> PartialEq for TaskTreeId<S> {
    fn eq(&self, other: &Self) -> (r: bool) {
        self.same_tree(other)
    }
}

impl<S: UrnScheme> vstd::std_specs::cmp::PartialEqSpecImpl for TaskTreeId<S> {
    open spec fn obeys_eq_spec() -> bool {
        true
    }

    open spec fn eq_spec(&self, other: &Self) -> bool {
        self@ == other@
    }
}

impl<S: UrnScheme> Eq for TaskTreeId<S> {

}

impl<S: UrnScheme> Clone for TaskTreeId<S> {
    fn clone(&self) -> (r: Self)
        ensures
            r@ == self@,
    {
        self.duplicate()
    }
}

/// W3C span-sized identity for one task node.
///
/// A task-node ID is only unique inside its [`TaskTreeId`]; use [`TaskId`]
/// at process, protocol, journal, or persistence boundaries.
#[derive(Debug, Hash, PartialOrd, Ord)]
pub struct TaskNodeId {
    bytes: Vec<u8>,
    hex: String,
}

impl View for TaskNodeId {
    type V = Seq<u8>;

    closed spec fn view(&self) -> Seq<u8> {
        self.bytes@
    }
}

impl TaskNodeId {
    #[verifier::type_invariant]
    spec fn well_formed(self) -> bool {
        &&& valid_span_bytes(self.bytes@)
        &&& self.hex@ == lower_hex(self.bytes@)
    }

    fn from_bytes(bytes: Vec<u8>) -> (r: Self)
        requires
            valid_span_bytes(bytes@),
        ensures
            r@ == bytes@,
    {
        let hex = encode_hex(&bytes);
        TaskNodeId { bytes, hex }
    }

    pub(crate) fn duplicate(&self) -> (r: Self)
        ensures
            r@ == self@,
    {
        proof {
            use_type_invariant(self);
        }
        TaskNodeId { bytes: copy_bytes(&self.bytes), hex: self.hex.clone() }
    }

    /// The reserved root node of every task tree.
    pub(crate) fn root() -> (r: Self)
        ensures
            r@ == root_node(),
    {
        let mut bytes: Vec<u8> = Vec::new();
        let mut i: usize = 0;
        while i < SPAN_BYTE_LEN - 1
            invariant
                i <= SPAN_BYTE_LEN - 1,
                bytes@.len() == i,
                forall|j: int| 0 <= j < i ==> bytes@[j] == 0,
            decreases SPAN_BYTE_LEN - 1 - i,
        {
            bytes.push(0);
            i = i + 1;
        }
        bytes.push(1);
        assert(bytes@ =~= root_node());
        assert(bytes@[7] != 0);
        Self::from_bytes(bytes)
    }

    /// Whether this is the reserved root node.
    pub fn is_root(&self) -> (r: bool)
        ensures
            r == (self@ == root_node()),
    {
        proof {
            use_type_invariant(self);
        }
        let mut i: usize = 0;
        while i < SPAN_BYTE_LEN - 1
            invariant
                self.bytes@.len() == SPAN_BYTE_LEN,
                i <= SPAN_BYTE_LEN - 1,
                forall|j: int| 0 <= j < i ==> self.bytes@[j] == 0,
            decreases SPAN_BYTE_LEN - 1 - i,
        {
            if self.bytes[i] != 0 {
                assert(root_node()[i as int] == 0);
                return false;
            }
            i = i + 1;
        }
        if self.bytes[SPAN_BYTE_LEN - 1] != 1 {
            assert(root_node()[7] == 1);
            return false;
        }
        assert(self.bytes@ =~= root_node());
        true
    }

    /// Generate a random task-node identity that is neither zero nor the
    /// reserved root.
    ///
    /// Unusable draws are redrawn; should `u64::MAX` draws in a row all be
    /// unusable, the last one is nudged to `00..02`.
    pub fn generate() -> (r: Self)
        ensures
            valid_span_bytes(r@),
            r@ != root_node(),
    {
        let mut attempts: u64 = 0;
        loop
            invariant
                attempts < u64::MAX,
            decreases u64::MAX - attempts,
        {
            let mut bytes = random_bytes(SPAN_BYTE_LEN);
            if !is_all_zero(&bytes) {
                let node = Self::from_bytes(bytes);
                if !node.is_root() {
                    return node;
                }
                if attempts == u64::MAX - 1 {
                    let mut nudged = copy_bytes(&node.bytes);
                    nudged.set(SPAN_BYTE_LEN - 1, 2);
                    assert(nudged@[7] != 0);
                    assert(nudged@[7] != root_node()[7]);
                    return Self::from_bytes(nudged);
                }
            } else if attempts == u64::MAX - 1 {
                bytes.set(SPAN_BYTE_LEN - 1, 2);
                assert(bytes@[7] != 0);
                assert(bytes@[7] != root_node()[7]);
                return Self::from_bytes(bytes);
            }
            attempts = attempts + 1;
        }
    }

    /// Parse a bare W3C span ID.
    pub fn new(raw: &str) -> (r: Result<Self, TaskIdentityError>)
        ensures
            (match span_from_hex(raw@) {
                Ok(b) => r matches Ok(n) && n@ == b,
                Err(f) => r matches Err(e) && e@ == (raw@, f),
            }),
    {
        Self::from_hex(raw, raw)
    }

    /// Return the canonical lowercase W3C span ID.
    pub fn as_str(&self) -> (r: &str)
        ensures
            r@ == lower_hex(self@),
            valid_span_bytes(self@),
    {
        proof {
            use_type_invariant(self);
        }
        self.hex.as_str()
    }

    /// Return the canonical lowercase W3C span ID.
    pub fn as_w3c_span_id(&self) -> (r: &str)
        ensures
            r@ == lower_hex(self@),
    {
        self.as_str()
    }

    fn from_hex(hex: &str, input: &str) -> (r: Result<Self, TaskIdentityError>)
        ensures
            (match span_from_hex(hex@) {
                Ok(b) => r matches Ok(n) && n@ == b,
                Err(f) => r matches Err(e) && e@ == (input@, f),
            }),
    {
        match decode_hex(hex, SPAN_BYTE_LEN) {
            None => Err(TaskIdentityError::invalid(input, IdentityFault::SpanWidth)),
            Some(bytes) => {
                if is_all_zero(&bytes) {
                    Err(TaskIdentityError::invalid(input, IdentityFault::SpanZero))
                } else {
                    Ok(Self::from_bytes(bytes))
                }
            },
        }
    }

    /// Whether both identities name the same node.
    pub fn same_node(&self, other: &Self) -> (r: bool)
        ensures
            r == (self@ == other@),
    {
        same_bytes(&self.bytes, &other.bytes)
    }
}

impl PartialEq for TaskNodeId {
    fn eq(&self, other: &Self) -> (r: bool) {
        self.same_node(other)
    }
}

impl vstd::std_specs::cmp::PartialEqSpecImpl for TaskNodeId {
    open spec fn obeys_eq_spec() -> bool {
        true
    }

    open spec fn eq_spec(&self, other: &Self) -> bool {
        self@ == other@
    }
}

impl Eq for TaskNodeId {

}

impl Clone for TaskNodeId {
    fn clone(&self) -> (r: Self)
        ensures
            r@ == self@,
    {
        self.duplicate()
    }
}

/// Canonical, globally usable identity of one task, minted under the
/// application's [`UrnScheme`].
///
/// A root is encoded as `<TASK_PREFIX><tree>` and a descendant as
/// `<TASK_PREFIX><tree>:<node>`.
#[derive(Debug, Hash, PartialOrd, Ord)]
pub struct TaskId<S: UrnScheme> {
    tree: TaskTreeId<S>,
    node: TaskNodeId,
    urn: String,
}

impl<S: UrnScheme> View for TaskId<S> {
    type V = (Seq<u8>, Seq<u8>);

    closed spec fn view(&self) -> (Seq<u8>, Seq<u8>) {
        (self.tree@, self.node@)
    }
}

impl<S: UrnScheme> TaskId<S> {
    #[verifier::type_invariant]
    spec fn well_formed(self) -> bool {
        self.urn@ == task_urn(S::TASK_PREFIX@, self.tree@, self.node@)
    }

    /// Construct a task ID from its tree and node identities.
    pub fn new(tree: TaskTreeId<S>, node: TaskNodeId) -> (r: Self)
        requires
            valid_scheme::<S>(),
        ensures
            r@ == (tree@, node@),
    {
        proof {
            use_type_invariant(&tree);
            use_type_invariant(&node);
        }
        let mut urn = String::from_str(S::TASK_PREFIX);
        urn.append(tree.as_w3c_trace_id());
        if !node.is_root() {
            urn.append(":");
            urn.append(node.as_w3c_span_id());
            proof {
                reveal_strlit(":");
            }
        }
        assert(urn@ =~= task_urn(S::TASK_PREFIX@, tree@, node@));
        TaskId { tree, node, urn }
    }

    /// Construct the canonical root task for a task tree.
    pub fn root(tree: TaskTreeId<S>) -> (r: Self)
        requires
            valid_scheme::<S>(),
        ensures
            r@ == (tree@, root_node()),
    {
        Self::new(tree, TaskNodeId::root())
    }

    /// Generate a new task tree and its root task node.
    pub fn generate() -> (r: Self)
        requires
            valid_scheme::<S>(),
        ensures
            valid_trace_bytes(r@.0),
            r@.1 == root_node(),
    {
        Self::root(TaskTreeId::generate())
    }

    /// Generate a child task in the same task tree.
    pub fn child(&self) -> (r: Self)
        requires
            valid_scheme::<S>(),
        ensures
            r@.0 == self@.0,
            valid_span_bytes(r@.1),
            r@.1 != root_node(),
    {
        Self::new(self.tree.duplicate(), TaskNodeId::generate())
    }

    /// Parse a canonical root or descendant task ID.
    pub fn parse(raw: &str) -> (r: Result<Self, TaskIdentityError>)
        requires
            valid_scheme::<S>(),
        ensures
            (match parse_task(S::TASK_PREFIX@, raw@) {
                Ok(ids) => r matches Ok(t) && t@ == ids,
                Err(f) => r matches Err(e) && e@ == (raw@, f),
            }),
    {
        if !has_prefix(raw, S::TASK_PREFIX) {
            return Err(TaskIdentityError::invalid(raw, IdentityFault::ForeignPrefix));
        }
        let n = raw.unicode_len();
        let suffix = raw.substring_char(S::TASK_PREFIX.unicode_len(), n);
        assert(suffix@ =~= raw@.skip(S::TASK_PREFIX@.len() as int));
        let colons = crate::text::find_separators(suffix, ':', 2);
        if colons.len() == 0 {
            return match TaskTreeId::from_hex(suffix, raw) {
                Ok(tree) => Ok(Self::root(tree)),
                Err(e) => Err(e),
            };
        }
        if colons.len() > 1 {
            return Err(TaskIdentityError::invalid(raw, IdentityFault::TooManyFields));
        }
        proof {
            crate::text::lemma_sep_positions_facts(suffix@, ':');
        }
        let c = colons[0];
        let m = suffix.unicode_len();
        let trace = suffix.substring_char(0, c);
        let span = suffix.substring_char(c + 1, m);
        assert(trace@ =~= suffix@.take(c as int));
        assert(span@ =~= suffix@.skip(c + 1));
        let node = match TaskNodeId::from_hex(span, raw) {
            Ok(node) => node,
            Err(e) => return Err(e),
        };
        if node.is_root() {
            return Err(TaskIdentityError::invalid(raw, IdentityFault::RootNodeSpelled));
        }
        match TaskTreeId::from_hex(trace, raw) {
            Ok(tree) => Ok(Self::new(tree, node)),
            Err(e) => Err(e),
        }
    }

    /// Return the task-tree identity.
    pub fn tree(&self) -> (r: &TaskTreeId<S>)
        ensures
            r@ == self@.0,
            valid_trace_bytes(r@),
    {
        proof {
            use_type_invariant(&self.tree);
        }
        &self.tree
    }

    /// Return the task-node identity.
    pub fn node(&self) -> (r: &TaskNodeId)
        ensures
            r@ == self@.1,
            valid_span_bytes(r@),
    {
        proof {
            use_type_invariant(&self.node);
        }
        &self.node
    }

    /// Return the canonical task URN.
    pub fn as_str(&self) -> (r: &str)
        ensures
            r@ == task_urn(S::TASK_PREFIX@, self@.0, self@.1),
    {
        proof {
            use_type_invariant(self);
        }
        self.urn.as_str()
    }

    /// Return the canonical task URN without its namespace prefix.
    pub fn as_urn_suffix(&self) -> (r: &str)
        ensures
            r@ == task_urn_suffix(self@.0, self@.1),
    {
        proof {
            use_type_invariant(self);
        }
        let r = self.urn.as_str().substring_char(
            S::TASK_PREFIX.unicode_len(),
            self.urn.as_str().unicode_len(),
        );
        assert(r@ =~= task_urn_suffix(self@.0, self@.1));
        r
    }

    /// Whether both identities name the same task.
    pub fn same_task(&self, other: &Self) -> (r: bool)
        ensures
            r == (self@ == other@),
    {
        self.tree.same_tree(&other.tree) && self.node.same_node(&other.node)
    }

    pub(crate) fn duplicate(&self) -> (r: Self)
        ensures
            r@ == self@,
    {
        proof {
            use_type_invariant(self);
        }
        TaskId { tree: self.tree.duplicate(), node: self.node.duplicate(), urn: self.urn.clone() }
    }
}

impl<S: UrnScheme> PartialEq for TaskId<S> {
    fn eq(&self, other: &Self) -> (r: bool) {
        self.same_task(other)
    }
}

impl<S: UrnScheme> vstd::std_specs::cmp::PartialEqSpecImpl for TaskId<S> {
    open spec fn obeys_eq_spec() -> bool {
        true
    }

    open spec fn eq_spec(&self, other: &Self) -> bool {
        self@ == other@
    }
}

impl<S: UrnScheme> Eq for TaskId<S> {

}

impl<S: UrnScheme> Clone for TaskId<S> {
    fn clone(&self) -> (r: Self)
        ensures
            r@ == self@,
    {
        self.duplicate()
    }
}


/// No lowercase hex text holds a character that is not a hex digit.
proof fn lemma_hex_lacks(bytes: Seq<u8>, c: char)
    requires
        !is_hex_digit(c),
    ensures
        forall|i: int| 0 <= i < lower_hex(bytes).len() ==> lower_hex(bytes)[i] != c,
        sep_positions(lower_hex(bytes), c) == Seq::<int>::empty(),
{
    lemma_decode_encode(bytes);
    crate::text::lemma_sep_positions_none(lower_hex(bytes), c);
}

/// Hex digits are ASCII, so their text is one byte per character.
proof fn lemma_hex_digits_utf8_len(s: Seq<char>)
    requires
        all_hex_digits(s),
    ensures
        utf8_len(s) == s.len(),
{
    assert(vstd::utf8::is_ascii_chars(s));
    vstd::utf8::is_ascii_chars_encode_utf8(s);
}

/// Every canonical task URN parses back to the identity it spells.
pub proof fn lemma_task_urn_round_trip(prefix: Seq<char>, tree: Seq<u8>, node: Seq<u8>)
    requires
        valid_trace_bytes(tree),
        valid_span_bytes(node),
    ensures
        parse_task(prefix, task_urn(prefix, tree, node)) == Ok::<(Seq<u8>, Seq<u8>), IdentityFault>((tree, node)),
{
    let raw = task_urn(prefix, tree, node);
    let suffix = task_urn_suffix(tree, node);
    assert(raw.subrange(0, prefix.len() as int) =~= prefix);
    assert(raw.skip(prefix.len() as int) =~= suffix);
    lemma_decode_encode(tree);
    lemma_decode_encode(node);
    lemma_hex_lacks(tree, ':');
    lemma_hex_lacks(node, ':');
    let th = lower_hex(tree);
    if node == root_node() {
        assert(trace_from_hex(th) == Ok::<Seq<u8>, IdentityFault>(tree));
    } else {
        let nh = lower_hex(node);
        crate::text::lemma_sep_positions_concat(th + seq![':'], nh, ':');
        crate::text::lemma_sep_positions_concat(th, seq![':'], ':');
        assert(sep_positions(seq![':'], ':') =~= seq![0int]) by {
            reveal_with_fuel(sep_positions, 2);
            assert(seq![':'].drop_last() =~= Seq::<char>::empty());
        }
        assert(sep_positions(nh, ':').map_values(|p: int| p + (th + seq![':']).len()) =~= Seq::<int>::empty());
        assert(sep_positions(suffix, ':') =~= seq![th.len() as int]);
        assert(suffix.take(th.len() as int) =~= th);
        assert(suffix.skip(th.len() as int + 1) =~= nh);
    }
}

/// A task URN is accepted only in its canonical spelling: whatever parses
/// is exactly the URN of what it parses to.
pub proof fn lemma_task_parse_is_canonical(prefix: Seq<char>, raw: Seq<char>)
    requires
        parse_task(prefix, raw) is Ok,
    ensures
        ({
            let (tree, node) = parse_task(prefix, raw)->Ok_0;
            &&& valid_trace_bytes(tree)
            &&& valid_span_bytes(node)
            &&& raw == task_urn(prefix, tree, node)
        }),
{
    let suffix = raw.skip(prefix.len() as int);
    let colons = sep_positions(suffix, ':');
    assert(raw.subrange(0, prefix.len() as int) == prefix);
    assert(raw =~= prefix + suffix);
    assert(root_node()[7] != 0);
    if colons.len() == 0 {
        lemma_encode_decode(suffix, TRACE_BYTE_LEN as nat);
    } else {
        crate::text::lemma_sep_positions_facts(suffix, ':');
        let c = colons[0];
        let trace = suffix.take(c);
        let span = suffix.skip(c + 1);
        lemma_encode_decode(trace, TRACE_BYTE_LEN as nat);
        lemma_encode_decode(span, SPAN_BYTE_LEN as nat);
        assert(suffix =~= trace + seq![':'] + span);
    }
}

/// Every task-tree URN parses back to the tree it spells, under any tree
/// prefix.
pub proof fn lemma_tree_urn_round_trip(prefix: Seq<char>, tree: Seq<u8>)
    requires
        valid_trace_bytes(tree),
    ensures
        parse_tree(prefix, tree_urn(prefix, tree)) == Ok::<Seq<u8>, IdentityFault>(tree),
{
    let raw = tree_urn(prefix, tree);
    assert(raw.subrange(0, prefix.len() as int) =~= prefix);
    assert(raw.skip(prefix.len() as int) =~= lower_hex(tree));
    lemma_decode_encode(tree);
}

/// A bare trace ID parses to its tree under any usable tree prefix.
pub proof fn lemma_bare_trace_round_trip(prefix: Seq<char>, tree: Seq<u8>)
    requires
        valid_trace_bytes(tree),
        valid_urn_prefix(prefix),
    ensures
        parse_tree(prefix, lower_hex(tree)) == Ok::<Seq<u8>, IdentityFault>(tree),
{
    let h = lower_hex(tree);
    lemma_hex_lacks(tree, '-');
    lemma_hex_lacks(tree, ':');
    lemma_decode_encode(tree);
    if starts_with(h, prefix) {
        assert(h[prefix.len() - 1] == prefix.last());
    }
}

/// A well-formed traceparent yields the tree of its trace field under any
/// usable tree prefix, whatever the version, flags and (usable) parent span.
pub proof fn lemma_traceparent_round_trip(
    prefix: Seq<char>,
    version: Seq<char>,
    tree: Seq<u8>,
    parent: Seq<u8>,
    flags: Seq<char>,
)
    requires
        version.len() == 2,
        all_hex_digits(version),
        flags.len() == 2,
        all_hex_digits(flags),
        valid_trace_bytes(tree),
        valid_span_bytes(parent),
        valid_urn_prefix(prefix),
    ensures
        parse_tree(
            prefix,
            version + seq!['-'] + lower_hex(tree) + seq!['-'] + lower_hex(parent) + seq!['-'] + flags,
        ) == Ok::<Seq<u8>, IdentityFault>(tree),
{
    let th = lower_hex(tree);
    let ph = lower_hex(parent);
    let d = seq!['-'];
    let a = version + d;
    let b = a + th + d;
    let c = b + ph + d;
    let raw = c + flags;
    lemma_hex_lacks(tree, '-');
    lemma_hex_lacks(parent, '-');
    lemma_decode_encode(tree);
    lemma_decode_encode(parent);
    crate::text::lemma_sep_positions_none(version, '-');
    crate::text::lemma_sep_positions_none(flags, '-');
    assert(sep_positions(d, '-') =~= seq![0int]) by {
        reveal_with_fuel(sep_positions, 2);
        assert(d.drop_last() =~= Seq::<char>::empty());
    }
    crate::text::lemma_sep_positions_concat(version, d, '-');
    crate::text::lemma_sep_positions_concat(a, th, '-');
    crate::text::lemma_sep_positions_concat(a + th, d, '-');
    crate::text::lemma_sep_positions_concat(b, ph, '-');
    crate::text::lemma_sep_positions_concat(b + ph, d, '-');
    crate::text::lemma_sep_positions_concat(c, flags, '-');
    assert(sep_positions(a, '-') =~= seq![2int]);
    assert(sep_positions(a + th, '-') =~= seq![2int]);
    assert(sep_positions(b, '-') =~= seq![2int, 35int]);
    assert(sep_positions(b + ph, '-') =~= seq![2int, 35int]);
    assert(sep_positions(c, '-') =~= seq![2int, 35int, 52int]);
    assert(sep_positions(raw, '-') =~= seq![2int, 35int, 52int]);
    let p = sep_positions(raw, '-');
    assert(field_between(raw, p, 0) =~= version);
    assert(field_between(raw, p, 1) =~= th);
    assert(field_between(raw, p, 2) =~= ph);
    assert(field_between(raw, p, 3) =~= flags);
    assert(all_hex_digits(th));
    assert(all_hex_digits(ph));
    lemma_hex_digits_utf8_len(version);
    lemma_hex_digits_utf8_len(th);
    lemma_hex_digits_utf8_len(ph);
    lemma_hex_digits_utf8_len(flags);
    if starts_with(raw, prefix) {
        let k = prefix.len() - 1;
        assert(raw[k] == ':');
        assert(raw[k] != ':') by {
            if k < 2 {
                assert(raw[k] == version[k]);
            } else if k == 2 || k == 35 || k == 52 {
                assert(raw[k] == '-');
            } else if k < 35 {
                assert(raw[k] == th[k - 3]);
            } else if k < 52 {
                assert(raw[k] == ph[k - 36]);
            } else {
                assert(raw[k] == flags[k - 53]);
            }
        }
    }
}

/// Every span ID's canonical text parses back to it.
pub proof fn lemma_span_round_trip(node: Seq<u8>)
    requires
        valid_span_bytes(node),
    ensures
        span_from_hex(lower_hex(node)) == Ok::<Seq<u8>, IdentityFault>(node),
{
    lemma_decode_encode(node);
}


/// Two schemes whose task prefixes do not extend one another can never
/// confuse their identities: a URN minted under one is refused by the
/// other as foreign.
pub proof fn lemma_foreign_urns_are_refused(
    mine: Seq<char>,
    theirs: Seq<char>,
    tree: Seq<u8>,
    node: Seq<u8>,
)
    requires
        !starts_with(mine, theirs),
        !starts_with(theirs, mine),
    ensures
        parse_task(mine, task_urn(theirs, tree, node)) == Err::<(Seq<u8>, Seq<u8>), IdentityFault>(
            IdentityFault::ForeignPrefix,
        ),
{
    let raw = task_urn(theirs, tree, node);
    if starts_with(raw, mine) {
        assert(raw.subrange(0, mine.len() as int) == mine);
        if mine.len() <= theirs.len() {
            assert(theirs.subrange(0, mine.len() as int) =~= raw.subrange(0, mine.len() as int));
            assert(starts_with(theirs, mine));
        } else {
            assert(mine.subrange(0, theirs.len() as int) =~= raw.subrange(0, theirs.len() as int));
            assert(raw.subrange(0, theirs.len() as int) =~= theirs);
            assert(starts_with(mine, theirs));
        }
    }
}

} // verus!
