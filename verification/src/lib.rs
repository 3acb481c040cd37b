//! A linear disassembler for EVM bytecode.
//!
//! The library resolves a target string (an on-chain address, a literal hex
//! string, or a file path) into a normalized hex byte sequence, decodes that
//! sequence into an ordered instruction listing, and renders the listing as
//! text. All network, cache and filesystem work stays outside the library:
//! callers hand in plain strings and get plain strings back.

use vstd::prelude::*;

pub mod decode;
pub mod format;
pub mod hex;
pub mod opcodes;
pub mod resolve;

use crate::decode::{decode, spec_decode};
use crate::format::{format_listing, spec_listing};
use crate::hex::valid_bytecode_str;
use crate::resolve::{
    classify, classifies_as_address, classifies_as_file, classifies_as_literal,
    derive_output_dir, spec_output_dir, Target,
};

verus! {

/// The arguments of one disassembly invocation.
#[derive(Debug)]
pub struct DisassemblerArgs {
    /// The target to disassemble: a contract address, literal bytecode, or a
    /// file path.
    pub target: String,
    /// The output verbosity level, 1 - 5.
    pub verbose: u64,
    /// The output directory to write the disassembled bytecode to; empty for
    /// the default below the current working directory.
    pub output: String,
    /// The RPC provider used for fetching on-chain bytecode; empty when none
    /// is configured.
    pub rpc_url: String,
    /// When prompted, always select the default value.
    pub default: bool,
}

/// Classifies the invocation's target and resolves the directory its
/// artifacts go to. `cwd` is the caller's current working directory, used
/// only when no explicit output directory was given.
pub fn plan_invocation(args: &DisassemblerArgs, cwd: &str) -> (r: (Target, String))
    ensures
        match r.0 {
            Target::OnChainAddress(a) => a@ == args.target@ && classifies_as_address(
                args.target@,
            ),
            Target::LiteralBytecode(h) => h@ == args.target@ && classifies_as_literal(
                args.target@,
            ),
            Target::FilePath(p) => p@ == args.target@ && classifies_as_file(args.target@),
        },
        r.1@ == spec_output_dir(args.output@, cwd@, r.0),
{
    let target = classify(args.target.as_str());
    let dir = derive_output_dir(args.output.as_str(), cwd, &target);
    (target, dir)
}

/// Disassembles a normalized byte sequence into its textual listing: the
/// instructions of the single-pass decode, rendered one per line.
pub fn disassemble(bytecode: &str) -> (r: String)
    requires
        valid_bytecode_str(bytecode@),
    ensures
        r@ == spec_listing(spec_decode(bytecode@, 0).0),
{
    let decoded = decode(bytecode);
    format_listing(&decoded.0)
}

} // verus!
