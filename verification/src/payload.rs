//! The canonical bytes of a relayed call: what the off-chain signer signs.
//!
//! The encoding is fixed byte for byte. Every integer is eight bytes,
//! most significant first; every text is preceded by its length in that
//! form; the destination identifier stands as it is.

use crate::encoding::{be_bytes, be_bytes_of, push_be_bytes, push_be_unsigned};
use crate::keys::{argument_separator, argument_separator_bytes};
use crate::text::{split, split_bytes, views};
use vstd::prelude::*;

verus! {

/// A relayed call as mathematical values.
pub struct RelayCallView {
    /// The destination program.
    pub contract: Seq<u8>,
    /// The function to invoke on it.
    pub function_name: Seq<u8>,
    /// The arguments, joined by the argument separator.
    pub function_args: Seq<u8>,
    /// The chain the call comes from.
    pub caller_chain_id: i64,
    /// The chain the call is to run on.
    pub execution_chain_id: i64,
    /// The source's per-program nonce.
    pub nonce: i64,
    /// The transaction on the source chain that asked for the call.
    pub tx_hash: Seq<u8>,
}

/// A text preceded by its length.
pub open spec fn length_prefixed(text: Seq<u8>) -> Seq<u8> {
    be_bytes_of(text.len() as int) + text
}

/// The arguments one after the other, each preceded by its length.
pub open spec fn arguments_bytes(arguments: Seq<Seq<u8>>) -> Seq<u8>
    decreases arguments.len(),
{
    if arguments.len() == 0 {
        Seq::<u8>::empty()
    } else {
        arguments_bytes(arguments.drop_last()) + length_prefixed(arguments.last())
    }
}

/// The arguments of a call: the pieces of the argument text between the
/// argument separators. An empty last piece is an argument too.
pub open spec fn arguments_of(function_args: Seq<u8>) -> Seq<Seq<u8>> {
    split(function_args, argument_separator())
}

/// The canonical bytes of a call: both chain identifiers and the nonce, the
/// source transaction with its length, the destination identifier, the
/// function name with its length, the number of arguments, and the
/// arguments with their lengths.
pub open spec fn canonical_payload(call: RelayCallView) -> Seq<u8> {
    let arguments = arguments_of(call.function_args);
    be_bytes(call.caller_chain_id) + be_bytes(call.execution_chain_id) + be_bytes(call.nonce)
        + length_prefixed(call.tx_hash) + call.contract + length_prefixed(call.function_name)
        + be_bytes_of(arguments.len() as int) + arguments_bytes(arguments)
}

/// A call that a relayer submits on behalf of a source chain.
pub struct RelayCall {
    /// The destination program.
    pub contract: Vec<u8>,
    /// The function to invoke on it.
    pub function_name: Vec<u8>,
    /// The arguments, joined by the argument separator.
    pub function_args: Vec<u8>,
    /// The chain the call comes from.
    pub caller_chain_id: i64,
    /// The chain the call is to run on.
    pub execution_chain_id: i64,
    /// The source's per-program nonce.
    pub nonce: i64,
    /// The transaction on the source chain that asked for the call.
    pub tx_hash: Vec<u8>,
}

impl View for RelayCall {
    type V = RelayCallView;

    open spec fn view(&self) -> RelayCallView {
        RelayCallView {
            contract: self.contract@,
            function_name: self.function_name@,
            function_args: self.function_args@,
            caller_chain_id: self.caller_chain_id,
            execution_chain_id: self.execution_chain_id,
            nonce: self.nonce,
            tx_hash: self.tx_hash@,
        }
    }
}

/// Appends `text`, preceded by its length, to `out`.
pub fn push_length_prefixed(out: &mut Vec<u8>, text: &[u8])
    ensures
        final(out)@ == old(out)@ + length_prefixed(text@),
{
    let ghost start = out@;
    push_be_unsigned(out, text.len() as u64);
    out.extend_from_slice(text);
    assert(out@ =~= start + length_prefixed(text@));
}

/// Splits the argument text of a call into its arguments.
pub fn split_arguments(function_args: &[u8]) -> (arguments: Vec<Vec<u8>>)
    ensures
        views(arguments@) == arguments_of(function_args@),
{
    let sep = argument_separator_bytes();
    split_bytes(function_args, sep.as_slice())
}

impl RelayCall {
    /// The canonical bytes of the call.
    pub fn payload(&self) -> (out: Vec<u8>)
        ensures
            out@ == canonical_payload(self@),
    {
        let arguments = split_arguments(self.function_args.as_slice());
        let mut out: Vec<u8> = Vec::new();
        push_be_bytes(&mut out, self.caller_chain_id);
        push_be_bytes(&mut out, self.execution_chain_id);
        push_be_bytes(&mut out, self.nonce);
        push_length_prefixed(&mut out, self.tx_hash.as_slice());
        out.extend_from_slice(self.contract.as_slice());
        push_length_prefixed(&mut out, self.function_name.as_slice());
        push_be_unsigned(&mut out, arguments.len() as u64);
        let ghost head = out@;
        let mut i: usize = 0;
        while i < arguments.len()
            invariant
                i <= arguments.len(),
                out@ == head + arguments_bytes(views(arguments@).take(i as int)),
            decreases arguments.len() - i,
        {
            let ghost sofar = views(arguments@).take(i as int);
            let ghost next = views(arguments@).take(i + 1);
            push_length_prefixed(&mut out, arguments[i].as_slice());
            proof {
                assert(next.drop_last() =~= sofar);
                assert(next.last() == arguments@[i as int]@);
                assert(out@ =~= head + arguments_bytes(next));
            }
            i += 1;
        }
        proof {
            assert(views(arguments@).take(arguments@.len() as int) =~= views(arguments@));
            assert(out@ =~= canonical_payload(self@));
        }
        out
    }
}

} // verus!
