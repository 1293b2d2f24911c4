//! Block manipulation of the chain node in on-demand mining mode: turn
//! one requested manipulation into the exact sequence of RPC calls to
//! perform, and the response text to answer with.
//!
//! The caller performs the calls against the chain node's RPC endpoint
//! in the order given and, when all succeed, answers with the message.

use vstd::prelude::*;

verus! {

use crate::text::spec_decimal;
use crate::text::decimal_string_u64;

/// What a manipulation request asks for.
#[derive(Clone, Copy, Debug, PartialEq, Eq, Structural)]
pub enum Type {
    /// Mine this many blocks.
    MineBlock(u64),
    /// Move the next block's timestamp forward by this many seconds,
    /// and mine one block so it takes effect.
    IncreaseTime(u64),
}

/// A block-manipulation request.
#[derive(Clone, Copy, Debug, PartialEq, Eq, Structural)]
pub struct Manipulation {
    pub action: Type,
}

/// One RPC call to perform: the method name and its one integer
/// parameter, if any.
#[derive(Debug)]
pub struct RpcCall {
    pub method: String,
    pub param: Option<u64>,
}

/// The calls a manipulation asks for: one block-generation call per
/// block to mine, or the timestamp increase followed by one
/// block-generation call.
pub open spec fn spec_plan(action: Type) -> Seq<(Seq<char>, Option<u64>)> {
    match action {
        Type::MineBlock(blocks) => Seq::new(
            blocks as nat,
            |i: int| ("katana_generateBlock"@, None::<u64>),
        ),
        Type::IncreaseTime(seconds) => seq![
            ("katana_increaseNextBlockTimestamp"@, Some(seconds)),
            ("katana_generateBlock"@, None::<u64>),
        ],
    }
}

/// The response text a manipulation is answered with once its calls
/// succeeded.
pub open spec fn spec_response(action: Type) -> Seq<char> {
    match action {
        Type::MineBlock(blocks) => "Mined "@ + spec_decimal(blocks as nat) + " blocks"@,
        Type::IncreaseTime(seconds) => "Increased block time by "@ + spec_decimal(seconds as nat)
            + " seconds"@,
    }
}

/// The exact sequence of RPC calls this manipulation asks for.
pub fn plan(m: &Manipulation) -> (calls: Vec<RpcCall>)
    ensures
        calls@.len() == spec_plan(m.action).len(),
        forall|i: int|
            0 <= i < calls@.len() ==> (#[trigger] calls@[i].method@, calls@[i].param)
                == spec_plan(m.action)[i],
{
    match m.action {
        Type::MineBlock(blocks) => {
            let mut calls: Vec<RpcCall> = Vec::new();
            let mut k: u64 = 0;
            while k < blocks
                invariant
                    0 <= k <= blocks,
                    calls@.len() == k,
                    forall|i: int|
                        0 <= i < k ==> (#[trigger] calls@[i].method@, calls@[i].param) == (
                            "katana_generateBlock"@,
                            None::<u64>,
                        ),
                decreases blocks - k,
            {
                calls.push(
                    RpcCall { method: String::from_str("katana_generateBlock"), param: None },
                );
                k += 1;
            }
            calls
        },
        Type::IncreaseTime(seconds) => {
            let mut calls: Vec<RpcCall> = Vec::new();
            calls.push(
                RpcCall {
                    method: String::from_str("katana_increaseNextBlockTimestamp"),
                    param: Some(seconds),
                },
            );
            calls.push(RpcCall { method: String::from_str("katana_generateBlock"), param: None });
            calls
        },
    }
}

/// The response text for this manipulation.
pub fn response_message(m: &Manipulation) -> (r: String)
    ensures
        r@ == spec_response(m.action),
{
    match m.action {
        Type::MineBlock(blocks) => {
            String::from_str("Mined ").concat(decimal_string_u64(blocks).as_str()).concat(
                " blocks",
            )
        },
        Type::IncreaseTime(seconds) => {
            String::from_str("Increased block time by ").concat(
                decimal_string_u64(seconds).as_str(),
            ).concat(" seconds")
        },
    }
}

} // verus!
