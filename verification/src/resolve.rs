//! The bytecode source resolver: classifies a target string into one of
//! three acquisition strategies and carries out the pure part of each —
//! validation, prefix stripping, cache keys, the fetch decision, and the
//! output-directory derivation. The caller performs the actual network and
//! filesystem work and hands the results back as plain strings.

use crate::hex::{
    all_hex_range, has_hex_prefix, hex_body, is_address_str, is_literal_bytecode,
    lemma_strip_on_shaped, matches_bytecode_shape, strip_first_0x, strip_first_hex_marker,
    valid_bytecode_str,
};
use vstd::prelude::*;
use vstd::string::StrSliceExecFns;
use vstd::string::StringExecFns;

verus! {

/// A target string, classified into exactly one acquisition strategy.
#[derive(Debug)]
pub enum Target {
    /// An address-shaped string: the bytecode is fetched from a provider,
    /// through the cache.
    OnChainAddress(String),
    /// A bytecode-shaped string: used verbatim, no network, no filesystem.
    LiteralBytecode(String),
    /// Anything else: a path whose file must hold valid bytecode.
    FilePath(String),
}

/// `s` is classified as an on-chain address.
pub open spec fn classifies_as_address(s: Seq<char>) -> bool {
    is_address_str(s)
}

/// `s` is classified as literal bytecode: bytecode-shaped, but not an
/// address.
pub open spec fn classifies_as_literal(s: Seq<char>) -> bool {
    !is_address_str(s) && is_literal_bytecode(s)
}

/// `s` is classified as a file path: it matches neither pattern.
pub open spec fn classifies_as_file(s: Seq<char>) -> bool {
    !is_address_str(s) && !is_literal_bytecode(s)
}

/// Classifies `target` into exactly one variant. Classification is total and
/// order-sensitive: the address pattern is checked first, then the
/// literal-bytecode pattern, and everything else is treated as a file path.
pub fn classify(target: &str) -> (r: Target)
    ensures
        match r {
            Target::OnChainAddress(a) => a@ == target@ && classifies_as_address(target@),
            Target::LiteralBytecode(h) => h@ == target@ && classifies_as_literal(target@),
            Target::FilePath(p) => p@ == target@ && classifies_as_file(target@),
        },
{
    let n = target.unicode_len();
    let prefixed = n >= 2 && {
        target.get_char(0) == '0' && target.get_char(1) == 'x'
    };
    let start: usize = if prefixed {
        2
    } else {
        0
    };
    proof {
        assert(prefixed == has_hex_prefix(target@));
        if prefixed {
            assert(target@.subrange(2, n as int) =~= target@.skip(2));
        } else {
            assert(target@.subrange(0, n as int) =~= target@);
        }
    }
    let body_hex = all_hex_range(target, start, n);
    if body_hex && n - start == 40 {
        Target::OnChainAddress(target.to_owned())
    } else if body_hex && (n - start) % 2 == 0 {
        Target::LiteralBytecode(target.to_owned())
    } else {
        Target::FilePath(target.to_owned())
    }
}

/// Classification precedence: a string matching the address pattern is
/// always classified as an on-chain address and never as literal bytecode or
/// as a file path — even when a file of that very name could exist.
pub proof fn lemma_classification_precedence(s: Seq<char>)
    requires
        is_address_str(s),
    ensures
        classifies_as_address(s),
        !classifies_as_literal(s),
        !classifies_as_file(s),
{
}

/// The fatal conditions of one invocation. Truncation during decoding is not
/// among them: it is a normal terminal state of the decode loop.
#[derive(Debug)]
pub enum DisasmError {
    /// Configuration: an address target needs a network endpoint.
    MissingRpcUrl,
    /// Validation: the file's contents are not bytecode-shaped or have odd
    /// length.
    InvalidFileBytecode { path: String },
    /// Acquisition: the file could not be read.
    UnreadableFile { path: String },
    /// Acquisition: the address-shaped target could not be parsed.
    UnparseableAddress { address: String },
    /// Acquisition: no connection to the configured endpoint.
    ConnectionFailed { endpoint: String },
    /// Acquisition: the provider failed to return the deployed code.
    FetchFailed { address: String },
}

/// The diagnostic line of each fatal condition, carrying the offending
/// target, path or endpoint.
pub open spec fn spec_message(e: DisasmError) -> Seq<char> {
    match e {
        DisasmError::MissingRpcUrl => "disassembling an on-chain contract requires an RPC provider."@,
        DisasmError::InvalidFileBytecode { path } => "file '"@ + path@
            + "' doesn't contain valid bytecode."@,
        DisasmError::UnreadableFile { path } => "failed to open file '"@ + path@ + "' ."@,
        DisasmError::UnparseableAddress { address } => "failed to parse address '"@ + address@
            + "' ."@,
        DisasmError::ConnectionFailed { endpoint } => "failed to connect to RPC provider '"@
            + endpoint@ + "' ."@,
        DisasmError::FetchFailed { address } => "failed to fetch bytecode from '"@ + address@
            + "' ."@,
    }
}

impl DisasmError {
    /// Renders the diagnostic line for this condition.
    pub fn message(&self) -> (r: String)
        ensures
            r@ == spec_message(*self),
    {
        match self {
            DisasmError::MissingRpcUrl => String::from_str(
                "disassembling an on-chain contract requires an RPC provider.",
            ),
            DisasmError::InvalidFileBytecode { path } => {
                let mut m = String::from_str("file '");
                m.append(path.as_str());
                m.append("' doesn't contain valid bytecode.");
                m
            },
            DisasmError::UnreadableFile { path } => {
                let mut m = String::from_str("failed to open file '");
                m.append(path.as_str());
                m.append("' .");
                m
            },
            DisasmError::UnparseableAddress { address } => {
                let mut m = String::from_str("failed to parse address '");
                m.append(address.as_str());
                m.append("' .");
                m
            },
            DisasmError::ConnectionFailed { endpoint } => {
                let mut m = String::from_str("failed to connect to RPC provider '");
                m.append(endpoint.as_str());
                m.append("' .");
                m
            },
            DisasmError::FetchFailed { address } => {
                let mut m = String::from_str("failed to fetch bytecode from '");
                m.append(address.as_str());
                m.append("' .");
                m
            },
        }
    }
}

/// Uses a literal-bytecode target verbatim: the optional `0x` prefix goes,
/// the digits themselves stay untouched.
pub fn resolve_literal(target: &str) -> (r: String)
    ensures
        r@ == hex_body(target@),
        is_literal_bytecode(target@) ==> valid_bytecode_str(r@),
{
    let n = target.unicode_len();
    let prefixed = n >= 2 && {
        target.get_char(0) == '0' && target.get_char(1) == 'x'
    };
    if prefixed {
        let body = target.substring_char(2, n);
        proof {
            assert(target@.subrange(2, n as int) =~= target@.skip(2));
        }
        body.to_owned()
    } else {
        target.to_owned()
    }
}

/// Validates the contents of a bytecode file: they must be bytecode-shaped
/// and of even length, else the invocation fails with a validation error
/// naming the path. On success the first `0x` marker is stripped, which on a
/// shaped string equals removing the optional prefix.
pub fn validate_file_contents(path: &str, contents: &str) -> (r: Result<String, DisasmError>)
    ensures
        r is Ok <==> is_literal_bytecode(contents@),
        r matches Ok(code) ==> code@ == hex_body(contents@) && valid_bytecode_str(code@),
        r matches Err(e) ==> e matches DisasmError::InvalidFileBytecode { path: p } && p@
            == path@,
{
    let n = contents.unicode_len();
    let prefixed = n >= 2 && {
        contents.get_char(0) == '0' && contents.get_char(1) == 'x'
    };
    let start: usize = if prefixed {
        2
    } else {
        0
    };
    proof {
        assert(prefixed == has_hex_prefix(contents@));
        if prefixed {
            assert(contents@.subrange(2, n as int) =~= contents@.skip(2));
        } else {
            assert(contents@.subrange(0, n as int) =~= contents@);
        }
    }
    let shaped = all_hex_range(contents, start, n);
    if shaped && (n - start) % 2 == 0 {
        let code = strip_first_hex_marker(contents);
        proof {
            lemma_strip_on_shaped(contents@);
        }
        Ok(code)
    } else {
        Err(DisasmError::InvalidFileBytecode { path: path.to_owned() })
    }
}

/// Normalizes bytecode fetched from a provider: the first `0x` marker is
/// removed, and nothing else — later occurrences are preserved.
pub fn normalize_fetched(code: &str) -> (r: String)
    ensures
        r@ == strip_first_0x(code@),
{
    strip_first_hex_marker(code)
}

/// The cache key under which an address target's bytecode is stored.
pub fn cache_key(address: &str) -> (r: String)
    ensures
        r@ == "contract."@ + address@,
{
    let mut k = String::from_str("contract.");
    k.append(address);
    k
}

/// What the address strategy does next, decided before any network access.
#[derive(Debug)]
pub enum AddressPlan {
    /// A cached value wins outright: no connection, no fetch.
    UseCached { bytecode: String },
    /// Cache miss with a configured endpoint: fetch the deployed code there.
    Fetch { endpoint: String },
    /// Cache miss without an endpoint: a fatal configuration error.
    MissingRpc,
}

/// The mathematical image of an [`AddressPlan`].
pub ghost enum SpecPlan {
    UseCached(Seq<char>),
    Fetch(Seq<char>),
    MissingRpc,
}

/// The view of a cached lookup result.
pub open spec fn option_view(c: Option<String>) -> Option<Seq<char>> {
    match c {
        Some(s) => Some(s@),
        None => None,
    }
}

/// The view of an [`AddressPlan`].
pub open spec fn plan_view(p: AddressPlan) -> SpecPlan {
    match p {
        AddressPlan::UseCached { bytecode } => SpecPlan::UseCached(bytecode@),
        AddressPlan::Fetch { endpoint } => SpecPlan::Fetch(endpoint@),
        AddressPlan::MissingRpc => SpecPlan::MissingRpc,
    }
}

/// The address-resolution policy: a cached value is used immediately;
/// otherwise a missing endpoint is a fatal configuration error, detected
/// before any network access; otherwise the code is fetched from the
/// endpoint.
pub open spec fn spec_plan(cached: Option<Seq<char>>, rpc_url: Seq<char>) -> SpecPlan {
    match cached {
        Some(code) => SpecPlan::UseCached(code),
        None => if rpc_url.len() == 0 {
            SpecPlan::MissingRpc
        } else {
            SpecPlan::Fetch(rpc_url)
        },
    }
}

/// Decides the address strategy's next step from the cache lookup result and
/// the configured endpoint.
pub fn plan_address_fetch(cached: Option<String>, rpc_url: &str) -> (p: AddressPlan)
    ensures
        plan_view(p) == spec_plan(option_view(cached), rpc_url@),
{
    match cached {
        Some(bytecode) => AddressPlan::UseCached { bytecode },
        None => {
            if rpc_url.is_empty() {
                AddressPlan::MissingRpc
            } else {
                AddressPlan::Fetch { endpoint: rpc_url.to_owned() }
            }
        },
    }
}

/// A warm cache resolves without any network access: whatever the endpoint,
/// a cached value is returned as it stands. Resolving the same address twice
/// without invalidation therefore issues at most one fetch: the second
/// resolution sees the stored value.
pub proof fn lemma_warm_cache_never_fetches(code: Seq<char>, rpc_url: Seq<char>)
    ensures
        spec_plan(Some(code), rpc_url) == SpecPlan::UseCached(code),
        !(spec_plan(Some(code), rpc_url) is Fetch),
        !(spec_plan(Some(code), rpc_url) is MissingRpc),
{
}

/// The resolved output directory: an explicit override is used exactly as
/// given; otherwise the default `<cwd>/output` gains `/<target>` for an
/// address target, `/local` for a file target, and stays bare for a literal.
pub open spec fn spec_output_dir(override_dir: Seq<char>, cwd: Seq<char>, t: Target) -> Seq<
    char,
> {
    if override_dir.len() > 0 {
        override_dir
    } else {
        match t {
            Target::OnChainAddress(a) => cwd + "/output"@ + "/"@ + a@,
            Target::LiteralBytecode(_) => cwd + "/output"@,
            Target::FilePath(_) => cwd + "/output"@ + "/local"@,
        }
    }
}

/// Derives the output directory for the classified target.
pub fn derive_output_dir(override_dir: &str, cwd: &str, target: &Target) -> (r: String)
    ensures
        r@ == spec_output_dir(override_dir@, cwd@, *target),
{
    if !override_dir.is_empty() {
        override_dir.to_owned()
    } else {
        let mut d = cwd.to_owned();
        d.append("/output");
        match target {
            Target::OnChainAddress(a) => {
                d.append("/");
                d.append(a.as_str());
            },
            Target::LiteralBytecode(_) => {},
            Target::FilePath(_) => {
                d.append("/local");
            },
        }
        d
    }
}

} // verus!
