use vstd::prelude::*;
use crate::errors::Error;
use crate::ledger::{burn_post, mint_post, Ledger};

verus! {

/// Result of the adapter's chain-specific verification of an inbound
/// bridge proof.  The core consumes the result; it never verifies
/// signatures itself.
#[derive(Clone, Copy, Debug, PartialEq, Eq, Structural)]
pub enum ProofStatus {
    Verified,
    Rejected,
}

/// A cross-chain transfer message: constructed by the outbound burn and
/// consumed exactly once by the destination gateway.  The pair
/// `(source_chain_id, sequence_number)` is its idempotency key.
#[derive(Clone, Copy, Debug, PartialEq, Eq, Structural)]
pub struct BridgeMessage {
    /// Strictly increasing per source gateway.
    pub sequence_number: u64,
    pub source_chain_id: u64,
    pub destination_chain_id: u64,
    /// Account id on the destination ledger, translated by the adapter.
    pub recipient: usize,
    pub amount: u64,
    pub nonce: u64,
}

/// Outbound sequence allocation and inbound replay protection for one
/// ledger.  `consumed` grows monotonically and is never reset: its
/// membership check is the sole defense against double-minting.
pub struct BridgeGateway {
    /// Identifier of the chain this gateway serves, stamped on every
    /// outbound message as the source.
    pub chain_id: u64,
    /// Sequence number the next outbound message will carry.
    pub next_sequence: u64,
    /// `(source_chain_id, sequence_number)` pairs already minted for.
    pub consumed: Vec<(u64, u64)>,
}

/// Whether the replay guard holds the identifier `(chain, seq_no)`.
pub open spec fn guard_contains(consumed: Seq<(u64, u64)>, chain: u64, seq_no: u64) -> bool {
    exists|i: int| 0 <= i < consumed.len() && consumed[i] == (chain, seq_no)
}

/// Whether an inbound message is accepted: transfers not paused, the
/// proof verified by the adapter, and the identifier never seen before.
pub open spec fn bridge_in_accepts(
    gw: BridgeGateway,
    l: Ledger,
    msg: BridgeMessage,
    proof_status: ProofStatus,
) -> bool {
    &&& !l.paused
    &&& proof_status is Verified
    &&& !guard_contains(gw.consumed@, msg.source_chain_id, msg.sequence_number)
}

/// Full description of what `bridge_out` did.
pub open spec fn bridge_out_post(
    pre_gw: BridgeGateway,
    post_gw: BridgeGateway,
    pre_l: Ledger,
    post_l: Ledger,
    sender: int,
    amount: u64,
    destination_chain_id: u64,
    recipient: usize,
    nonce: u64,
    r: Result<BridgeMessage, Error>,
) -> bool {
    &&& post_gw.chain_id == pre_gw.chain_id
    &&& post_gw.consumed@ == pre_gw.consumed@
    &&& match r {
        Ok(msg) => {
            &&& !pre_l.paused
            &&& amount != 0
            &&& pre_l.balances@[sender] >= amount
            &&& msg == (BridgeMessage {
                sequence_number: pre_gw.next_sequence,
                source_chain_id: pre_gw.chain_id,
                destination_chain_id,
                recipient,
                amount,
                nonce,
            })
            &&& post_gw.next_sequence == pre_gw.next_sequence + 1
            &&& post_l.balances@ == pre_l.balances@.update(
                sender,
                (pre_l.balances@[sender] - amount) as u64,
            )
            &&& post_l.balances@[sender] == pre_l.balances@[sender] - amount
            &&& (forall|a: int|
                0 <= a < pre_l.balances@.len() && a != sender ==> post_l.balances@[a]
                    == pre_l.balances@[a])
            &&& post_l.issued == pre_l.issued - amount
            &&& Ledger::config_unchanged(pre_l, post_l)
        },
        Err(e) => {
            &&& post_gw.next_sequence == pre_gw.next_sequence
            &&& post_l == pre_l
            &&& if pre_l.paused {
                e == Error::Paused
            } else if amount == 0 {
                e == Error::ZeroAmount
            } else {
                e == Error::InsufficientBalance && pre_l.balances@[sender] < amount
            }
        },
    }
}

/// Full description of what `bridge_in` did.
pub open spec fn bridge_in_post(
    pre_gw: BridgeGateway,
    post_gw: BridgeGateway,
    pre_l: Ledger,
    post_l: Ledger,
    msg: BridgeMessage,
    proof_status: ProofStatus,
    r: Result<(), Error>,
) -> bool {
    &&& post_gw.chain_id == pre_gw.chain_id
    &&& post_gw.next_sequence == pre_gw.next_sequence
    &&& match r {
        Ok(_) => {
            &&& bridge_in_accepts(pre_gw, pre_l, msg, proof_status)
            &&& post_gw.consumed@ == pre_gw.consumed@.push(
                (msg.source_chain_id, msg.sequence_number),
            )
            &&& post_l.balances@ == pre_l.balances@.update(
                msg.recipient as int,
                (pre_l.balances@[msg.recipient as int] + msg.amount) as u64,
            )
            &&& post_l.balances@[msg.recipient as int] == pre_l.balances@[msg.recipient as int]
                + msg.amount
            &&& (forall|a: int|
                0 <= a < pre_l.balances@.len() && a != msg.recipient ==> post_l.balances@[a]
                    == pre_l.balances@[a])
            &&& post_l.issued == pre_l.issued + msg.amount
            &&& Ledger::config_unchanged(pre_l, post_l)
        },
        Err(e) => {
            &&& !bridge_in_accepts(pre_gw, pre_l, msg, proof_status)
            &&& post_gw.consumed@ == pre_gw.consumed@
            &&& post_l == pre_l
            &&& if pre_l.paused {
                e == Error::Paused
            } else if !(proof_status is Verified) {
                e == Error::ProofNotVerified
            } else {
                &&& e == Error::ReplayDetected
                &&& guard_contains(pre_gw.consumed@, msg.source_chain_id, msg.sequence_number)
            }
        },
    }
}

impl BridgeGateway {
    /// Well-formedness: the replay guard holds no duplicate identifier.
    pub open spec fn wf(self) -> bool {
        forall|i: int, j: int|
            0 <= i < j < self.consumed@.len() ==> self.consumed@[i] != self.consumed@[j]
    }

    /// A fresh gateway for `chain_id`: sequence numbers start at 0 and
    /// the replay guard is empty.
    pub fn new(chain_id: u64) -> (r: BridgeGateway)
        ensures
            r.wf(),
            r.chain_id == chain_id,
            r.next_sequence == 0,
            r.consumed@.len() == 0,
    {
        BridgeGateway { chain_id, next_sequence: 0, consumed: Vec::new() }
    }

    /// Whether the identifier `(chain, seq_no)` was already consumed.
    pub fn is_consumed(&self, chain: u64, seq_no: u64) -> (r: bool)
        ensures
            r == guard_contains(self.consumed@, chain, seq_no),
    {
        let mut k: usize = 0;
        while k < self.consumed.len()
            invariant
                k <= self.consumed@.len(),
                forall|i: int| 0 <= i < k ==> self.consumed@[i] != (chain, seq_no),
            decreases self.consumed@.len() - k,
        {
            let p = self.consumed[k];
            if p.0 == chain && p.1 == seq_no {
                proof {
                    assert(self.consumed@[k as int] == (chain, seq_no));
                }
                return true;
            }
            k = k + 1;
        }
        false
    }

    /// Outbound leg: burns `amount` from the sender, allocates the next
    /// sequence number, and returns the message for the adapter to
    /// relay.  No mint occurs locally; once burned, the transfer is
    /// final.  Refuses a paused ledger, a zero amount and an
    /// insufficient balance, in that order.
    pub fn bridge_out(
        &mut self,
        ledger: &mut Ledger,
        sender: usize,
        amount: u64,
        destination_chain_id: u64,
        recipient: usize,
        nonce: u64,
    ) -> (r: Result<BridgeMessage, Error>)
        requires
            old(self).wf(),
            old(ledger).wf(),
            sender < old(ledger).balances@.len(),
            old(self).next_sequence < u64::MAX,
        ensures
            final(self).wf(),
            final(ledger).wf(),
            final(ledger).balances@.len() == old(ledger).balances@.len(),
            bridge_out_post(
                *old(self),
                *final(self),
                *old(ledger),
                *final(ledger),
                sender as int,
                amount,
                destination_chain_id,
                recipient,
                nonce,
                r,
            ),
    {
        if ledger.paused {
            return Err(Error::Paused);
        }
        if amount == 0 {
            return Err(Error::ZeroAmount);
        }
        match ledger.burn(sender, amount) {
            Ok(()) => {},
            Err(e) => {
                return Err(e);
            },
        }
        let sequence_number = self.next_sequence;
        self.next_sequence = self.next_sequence + 1;
        Ok(
            BridgeMessage {
                sequence_number,
                source_chain_id: self.chain_id,
                destination_chain_id,
                recipient,
                amount,
                nonce,
            },
        )
    }

    /// Inbound leg: consumes a message whose proof the adapter has
    /// already verified.  Refuses a paused ledger, an unverified proof,
    /// and — the sole defense against double-minting — an identifier
    /// already in the replay guard.  Otherwise records the identifier
    /// and mints the amount to the recipient in one state transition.
    pub fn bridge_in(
        &mut self,
        ledger: &mut Ledger,
        msg: &BridgeMessage,
        proof_status: ProofStatus,
    ) -> (r: Result<(), Error>)
        requires
            old(self).wf(),
            old(ledger).wf(),
            msg.recipient < old(ledger).balances@.len(),
            old(ledger).issued + msg.amount <= u64::MAX,
        ensures
            final(self).wf(),
            final(ledger).wf(),
            final(ledger).balances@.len() == old(ledger).balances@.len(),
            bridge_in_post(
                *old(self),
                *final(self),
                *old(ledger),
                *final(ledger),
                *msg,
                proof_status,
                r,
            ),
    {
        if ledger.paused {
            return Err(Error::Paused);
        }
        match proof_status {
            ProofStatus::Verified => {},
            ProofStatus::Rejected => {
                return Err(Error::ProofNotVerified);
            },
        }
        if self.is_consumed(msg.source_chain_id, msg.sequence_number) {
            return Err(Error::ReplayDetected);
        }
        self.consumed.push((msg.source_chain_id, msg.sequence_number));
        ledger.mint(msg.recipient, msg.amount);
        Ok(())
    }
}

/// Outbound sequence numbers strictly increase: of two consecutive
/// successful outbound legs of one gateway, the later message carries
/// the larger sequence number, so no two outbound messages ever share
/// an identifier.
pub proof fn lemma_bridge_out_sequence_increases(
    gw0: BridgeGateway,
    gw1: BridgeGateway,
    gw2: BridgeGateway,
    first_pre: Ledger,
    first_post: Ledger,
    later_pre: Ledger,
    later_post: Ledger,
    first_sender: int,
    first_amount: u64,
    first_dest: u64,
    first_recipient: usize,
    first_nonce: u64,
    first_msg: BridgeMessage,
    later_sender: int,
    later_amount: u64,
    later_dest: u64,
    later_recipient: usize,
    later_nonce: u64,
    later_msg: BridgeMessage,
)
    requires
        bridge_out_post(
            gw0,
            gw1,
            first_pre,
            first_post,
            first_sender,
            first_amount,
            first_dest,
            first_recipient,
            first_nonce,
            Ok(first_msg),
        ),
        bridge_out_post(
            gw1,
            gw2,
            later_pre,
            later_post,
            later_sender,
            later_amount,
            later_dest,
            later_recipient,
            later_nonce,
            Ok(later_msg),
        ),
    ensures
        later_msg.sequence_number > first_msg.sequence_number,
{
}

/// Exactly-once minting: a successful inbound delivery consumes the
/// message's identifier, so a second delivery of any message bearing the
/// same `(source chain, sequence number)` pair is rejected, whatever its
/// payload, proof result or the ledger's state by then.
pub proof fn lemma_bridge_in_at_most_once(
    pre: BridgeGateway,
    post: BridgeGateway,
    first_ledger: Ledger,
    later_ledger: Ledger,
    first_msg: BridgeMessage,
    later_msg: BridgeMessage,
    first_status: ProofStatus,
    later_status: ProofStatus,
)
    requires
        bridge_in_accepts(pre, first_ledger, first_msg, first_status),
        post.consumed@ == pre.consumed@.push(
            (first_msg.source_chain_id, first_msg.sequence_number),
        ),
        later_msg.source_chain_id == first_msg.source_chain_id,
        later_msg.sequence_number == first_msg.sequence_number,
    ensures
        !bridge_in_accepts(post, later_ledger, later_msg, later_status),
{
    assert(post.consumed@[pre.consumed@.len() as int] == (
        later_msg.source_chain_id,
        later_msg.sequence_number,
    ));
}

} // verus!
