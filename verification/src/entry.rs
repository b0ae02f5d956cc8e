//! Parameter validation and result encoding of the request entry points.
//!
//! The wire framework parses positional parameters into plain values and
//! hands them here; these functions coerce them into the typed forms the
//! block operations take, and encode the operations' results.

use vstd::prelude::*;

use crate::codec::{hex_str, num_to_hex};
use crate::count::CountOutcome;
use crate::types::{BlockKey, HeadLookup, HeaderDecode, KeyResolution, RpcError};

verus! {

/// Validates a hash-form block identifier: it must carry a `0x` prefix,
/// which is stripped before lookup. A missing prefix is a parameter error
/// and no lookup is attempted.
pub fn hash_block_key(raw: &str) -> (r: Result<BlockKey, RpcError>)
    ensures
        raw@.len() >= 2 && raw@[0] == '0' && raw@[1] == 'x' ==> (r matches Ok(k)
            && (k matches BlockKey::Signature(s) && s@ == raw@.skip(2))),
        !(raw@.len() >= 2 && raw@[0] == '0' && raw@[1] == 'x') ==> (r matches Err(e)
            && (e matches RpcError::ParameterError(m)
                && m@ == "Invalid block hash, must have 0x"@)),
{
    let len = raw.unicode_len();
    if len >= 2 && raw.get_char(0) == '0' && raw.get_char(1) == 'x' {
        let rest = raw.substring_char(2, len);
        Ok(BlockKey::Signature(String::from_str(rest)))
    } else {
        Err(RpcError::ParameterError(String::from_str("Invalid block hash, must have 0x")))
    }
}

/// Coerces the ledger resolver's answer for a height/tag identifier:
/// a malformed identifier is a parameter error, not a lookup attempt.
pub fn number_block_key(res: KeyResolution) -> (r: Result<BlockKey, RpcError>)
    ensures
        res matches KeyResolution::Resolved(k) ==> r == Ok::<BlockKey, RpcError>(k),
        res is Malformed ==> (r matches Err(e)
            && (e matches RpcError::ParameterError(m) && m@ == "Invalid block number"@)),
{
    match res {
        KeyResolution::Resolved(k) => Ok(k),
        KeyResolution::Malformed => Err(RpcError::ParameterError(String::from_str(
            "Invalid block number",
        ))),
    }
}

/// The current-height query: the height of the chain head, hex-encoded.
/// A head lookup failure or an undecodable head header is an internal
/// fault.
pub fn block_number_response(head: HeadLookup) -> (r: Result<String, RpcError>)
    ensures
        head is Fault ==> r == Err::<String, RpcError>(RpcError::InternalFault),
        head matches HeadLookup::Found(d) ==> match d {
            HeaderDecode::Decoded(h) => r matches Ok(s) && s@ == hex_str(h.block_num as nat),
            HeaderDecode::Undecodable => r == Err::<String, RpcError>(RpcError::InternalFault),
        },
{
    match head {
        HeadLookup::Fault => Err(RpcError::InternalFault),
        HeadLookup::Found(HeaderDecode::Undecodable) => Err(RpcError::InternalFault),
        HeadLookup::Found(HeaderDecode::Decoded(h)) => Ok(num_to_hex(h.block_num)),
    }
}

/// Encodes a transaction-count outcome: the count hex-encoded, the `null`
/// result passed through unchanged, or the opaque internal error.
pub fn count_response(c: CountOutcome) -> (r: Result<Option<String>, RpcError>)
    ensures
        c matches CountOutcome::Count(n) ==> (r matches Ok(o)
            && (o matches Some(s) && s@ == hex_str(n as nat))),
        c is Null ==> r == Ok::<Option<String>, RpcError>(None),
        c is InternalFault ==> r == Err::<Option<String>, RpcError>(RpcError::InternalFault),
{
    match c {
        CountOutcome::Count(n) => Ok(Some(num_to_hex(n))),
        CountOutcome::Null => Ok(None),
        CountOutcome::InternalFault => Err(RpcError::InternalFault),
    }
}

} // verus!
