//! What the two parties of a channel rely on of each other's signatures, and of their own: that what one
//! signs is what the other's script asks for.
use vstd::prelude::*;

use crate::channel::{
    commitment_keys, derived_public, derived_secret, htlc_input, htlc_redeemscript,
    revocation_public, revocation_secret, ChannelPublicKeys, ChannelTransactionParameters, ChannelTypeFeatures, CommitmentTransaction,
    HTLCOutputInCommitment, SignerError, TxCreationKeys, TxKeysView,
};
use crate::curve::{der, ecdsa, lemma_point_len, public_of, x_only};
use crate::ecdsa::{
    anchor_spend, counterparty_htlc, counterparty_htlc_script, counterparty_htlc_signature,
    counterparty_htlc_taproot, funding_spend, holder_htlc, justice_htlc,
    justice_output, justice_output_taproot,
};
use crate::htlc::{
    htlc_input_witness, taproot_htlc_spend, taproot_htlc_witness, HTLCDescriptor, TaprootHtlcScripts,
};
use crate::script::{
    anchor_redeemscript, funding_redeemscript, funding_script_is_shared, p2tr, p2wsh,
    revokeable_redeemscript, taproot_to_local_revoke_script,
};
use crate::sighash::{segwit_sighash, tap_leaf_sighash, tap_single_leaf_sighash};
use crate::signer::{delayed_input, rotated_key, spends_output, txid_view, SignerView};
use crate::spend::{taproot_channel, to_local_spend, DelayedPaymentOutputDescriptor};
use crate::taproot::{control_block_proves_its_leaf, proves_leaf, tap_leaf_hash};
use crate::taproot_channel::{holder_htlc_signing, htlc_spend_digest, TaprootHtlcSpend};
use crate::tx::{OutPointView, TransactionView, TxInView, TxOutView};

verus! {

/// That two parties hold the parameters of one channel: each names the other's keys and delay as its
/// counterparty's, and of the channel itself both say the same.
pub open spec fn same_channel(
    ours: ChannelTransactionParameters,
    theirs: ChannelTransactionParameters,
) -> bool {
    &&& ours.counterparty_parameters is Some
    &&& theirs.counterparty_parameters is Some
    &&& (ours.counterparty_parameters->0).pubkeys == theirs.holder_pubkeys
    &&& (theirs.counterparty_parameters->0).pubkeys == ours.holder_pubkeys
    &&& (ours.counterparty_parameters->0).selected_contest_delay
        == theirs.holder_selected_contest_delay
    &&& (theirs.counterparty_parameters->0).selected_contest_delay
        == ours.holder_selected_contest_delay
    &&& ours.channel_type_features == theirs.channel_type_features
    &&& ours.channel_value_satoshis == theirs.channel_value_satoshis
}

/// That a signer has the keys that the parameters name as the holder's. Its funding key is the one that the
/// last splice, where there was one, rotated it to.
pub open spec fn holds_keys(s: SignerView, p: ChannelTransactionParameters) -> bool {
    let funding = rotated_key(s.funding_key, txid_view(p.splice_parent_funding_txid));
    &&& funding is Some
    &&& p.holder_pubkeys.funding_pubkey@ == public_of(funding->0)
    &&& p.holder_pubkeys.revocation_basepoint@ == public_of(s.revocation_base_key)
    &&& p.holder_pubkeys.delayed_payment_basepoint@ == public_of(s.delayed_payment_base_key)
    &&& p.holder_pubkeys.htlc_basepoint@ == public_of(s.htlc_base_key)
}

/// Whatever spends the funding output, a commitment, a close or a splice: both parties sign one digest, each
/// with the key that stands for it in the output's script, spliced or not. So their two signatures are what
/// the two-of-two asks for, with the hash type `ALL`.
pub proof fn funding_signatures_meet(
    us: SignerView,
    them: SignerView,
    ours: ChannelTransactionParameters,
    theirs: ChannelTransactionParameters,
    tx: TransactionView,
    index: nat,
)
    requires
        same_channel(ours, theirs),
        holds_keys(us, ours),
        holds_keys(them, theirs),
    ensures
        ({
            let a = funding_spend(us, ours, tx, index);
            let b = funding_spend(them, theirs, tx, index);
            let script = funding_redeemscript(
                ours.holder_pubkeys.funding_pubkey@,
                theirs.holder_pubkeys.funding_pubkey@,
            );
            &&& a is Ok
            &&& b is Ok
            &&& (a->Ok_0).0 == (b->Ok_0).0
            &&& (a->Ok_0).0 == segwit_sighash(tx, index, script, ours.channel_value_satoshis, 1u8)
            &&& public_of((a->Ok_0).1) == ours.holder_pubkeys.funding_pubkey@
            &&& public_of((b->Ok_0).1) == theirs.holder_pubkeys.funding_pubkey@
        }),
{
    lemma_point_len(ours.holder_pubkeys.funding_pubkey);
    lemma_point_len(theirs.holder_pubkeys.funding_pubkey);
    funding_script_is_shared(
        ours.holder_pubkeys.funding_pubkey@,
        theirs.holder_pubkeys.funding_pubkey@,
    );
}

/// The second-level transaction of an HTLC that a descriptor describes: its input and its output, the HTLC's
/// expiry as its lock time where the broadcaster offered the HTLC, and the version that relays it.
pub open spec fn described_htlc_transaction(
    d: HTLCDescriptor,
    taproot_script: Option<Seq<u8>>,
) -> TransactionView {
    TransactionView {
        version: if d.params().channel_type_features.anchor_zero_fee_commitments {
            3
        } else {
            2
        },
        lock_time: if d.htlc.offered {
            d.htlc.cltv_expiry
        } else {
            0
        },
        input: seq![
            TxInView {
                previous_output: OutPointView {
                    txid: d.commitment_txid@,
                    vout: d.htlc.transaction_output_index->0,
                },
                script_sig: Seq::empty(),
                sequence: if d.params().channel_type_features.anchors_zero_fee_htlc_tx {
                    1
                } else {
                    0
                },
                witness: Seq::empty(),
            },
        ],
        output: seq![d.second_level_output(taproot_script)->0],
    }
}

/// The signature that the counterparty gives with our commitment for one of its HTLCs is one of the
/// transaction that the HTLC's descriptor describes, under the script of the HTLC's output, and of the hash
/// type that the descriptor's witness names behind it. It is made with the key that the counterparty has at
/// that commitment.
pub proof fn their_htlc_signature_fits_the_descriptor(
    key: Seq<u8>,
    theirs: ChannelTransactionParameters,
    commitment: CommitmentTransaction,
    d: HTLCDescriptor,
    taproot_script: Option<Seq<u8>>,
    our_signature: Seq<u8>,
)
    requires
        same_channel(d.params(), theirs),
        d.keys() == Some(commitment.keys@),
        d.commitment_txid == commitment.built.txid,
        d.feerate_per_kw == commitment.feerate_per_kw,
    ensures
        ({
            let signature = counterparty_htlc_signature(
                key,
                theirs,
                commitment,
                d.htlc,
                taproot_script,
            );
            let witness = htlc_input_witness(
                our_signature,
                signature,
                d.preimage,
                d.script()->0,
                d.params().channel_type_features,
            );
            &&& d.script() is Some
            &&& d.second_level_output(taproot_script) is Some
            &&& witness.len() == 5
            &&& witness[0] == Seq::<u8>::empty()
            &&& witness[1].last() == if d.params().channel_type_features.anchors_zero_fee_htlc_tx
                || d.params().channel_type_features.anchor_zero_fee_commitments {
                0x83u8
            } else {
                0x01u8
            }
            &&& witness[1].drop_last() == der(signature)
            &&& witness[2].drop_last() == der(our_signature)
            &&& witness[3] == match d.preimage {
                Some(p) => p@,
                None => Seq::empty(),
            }
            &&& signature == ecdsa(
                segwit_sighash(
                    described_htlc_transaction(d, taproot_script),
                    0,
                    witness[4],
                    d.htlc.value_satoshis(),
                    witness[1].last(),
                ),
                key,
            )
        }),
{
    let signature = counterparty_htlc_signature(key, theirs, commitment, d.htlc, taproot_script);
    let witness = htlc_input_witness(
        our_signature,
        signature,
        d.preimage,
        d.script()->0,
        d.params().channel_type_features,
    );
    assert(witness[1].drop_last() =~= der(signature));
    assert(witness[2].drop_last() =~= der(our_signature));
}

/// Our own signature of an HTLC transaction is of the hash type that the descriptor's witness names behind
/// it, under the script that the witness ends with. That script hashes to what the HTLC's output pays, and
/// names the keys of the commitment; the signature is made with our key at that commitment.
pub proof fn our_htlc_signature_fits_the_witness(
    s: SignerView,
    tx: TransactionView,
    input: nat,
    d: HTLCDescriptor,
    our_signature: Seq<u8>,
)
    requires
        d.keys() is Some,
        derived_secret(s.htlc_base_key, d.per_commitment_point@) is Some,
        input < tx.input.len(),
    ensures
        ({
            let signed = holder_htlc(s, tx, input, d);
            let keys = d.keys()->0;
            let witness = htlc_input_witness(
                our_signature,
                d.counterparty_sig@,
                d.preimage,
                d.script()->0,
                d.params().channel_type_features,
            );
            &&& signed is Ok
            &&& (signed->Ok_0).0 == segwit_sighash(
                tx,
                input,
                witness[4],
                d.htlc.value_satoshis(),
                witness[2].last(),
            )
            &&& witness[2].last() == 0x01u8
            &&& (signed->Ok_0).1 == derived_secret(s.htlc_base_key, d.per_commitment_point@)->0
            &&& witness[4] == htlc_redeemscript(
                d.htlc,
                d.params().channel_type_features,
                keys.broadcaster_htlc_key,
                keys.countersignatory_htlc_key,
                keys.revocation_key,
            )
            &&& !d.params().channel_type_features.simple_taproot ==> d.utxo(None) == Some(
                TxOutView {
                    script_pubkey: p2wsh(witness[4]),
                    value: d.htlc.value_satoshis(),
                },
            )
        }),
{
}

/// Both parties sign a taproot HTLC transaction by one digest: that of the leaf which the witness carries,
/// spending the output that the descriptor says it spends. In the witness both signatures are followed by the
/// hash type `SINGLE | ANYONECANPAY`, and then come the preimage, if there is one, the leaf and its control
/// block.
pub proof fn taproot_htlc_signatures_meet(
    s: SignerView,
    d: HTLCDescriptor,
    keys: TxCreationKeys,
    spend: TaprootHtlcSpend,
    signatures: (Seq<u8>, Seq<u8>),
)
    requires
        d.keys() == Some(keys@),
        d.params().channel_type_features.simple_taproot,
        derived_secret(s.htlc_base_key, d.per_commitment_point@) is Some,
        taproot_htlc_spend(keys.revocation_key@, d.htlc, spend.scripts) is Some,
        spend.htlc_tx@.input.len() > 0,
        spend.htlc_tx@.output.len() > 0,
    ensures
        ({
            let ours = holder_htlc_signing(s, spend.htlc_tx@, 0, d, spend.scripts);
            let theirs = htlc_spend_digest(keys, d.htlc, spend);
            let witness = taproot_htlc_witness(
                signatures.0,
                signatures.1,
                d.preimage,
                spend.scripts.two_party(d.htlc),
                d.taproot_control_block(spend.scripts)->0,
            );
            let n = witness.len();
            &&& ours is Ok
            &&& theirs == Ok::<Seq<u8>, SignerError>((ours->Ok_0).0)
            &&& (ours->Ok_0).1 == derived_secret(s.htlc_base_key, d.per_commitment_point@)->0
            &&& d.utxo(Some(spend.scripts)) is Some
            &&& (ours->Ok_0).0 == tap_single_leaf_sighash(
                spend.htlc_tx@,
                0,
                d.utxo(Some(spend.scripts))->0,
                tap_leaf_hash(witness[n - 2]),
            )
            &&& d.utxo(Some(spend.scripts))->0.value == d.htlc.value_satoshis()
            &&& d.utxo(Some(spend.scripts))->0.script_pubkey == p2tr(
                (taproot_htlc_spend(keys.revocation_key@, d.htlc, spend.scripts)->0).0,
            )
            &&& witness[n - 1] == (taproot_htlc_spend(
                keys.revocation_key@,
                d.htlc,
                spend.scripts,
            )->0).1
            &&& witness[0] == signatures.1.push(0x83)
            &&& witness[1] == signatures.0.push(0x83)
            &&& n == if d.preimage is Some {
                5nat
            } else {
                4
            }
            &&& d.preimage matches Some(p) ==> witness[2] == p@
        }),
{
}

/// Our signature of a taproot HTLC transaction, whichever of its inputs spends the HTLC, is made under the leaf
/// that the witness carries and spends the output that the descriptor gives, with our key at the commitment.
/// The witness's control block proves the leaf to be one of that output's, hashes and points being of the bytes
/// that they are.
pub proof fn our_taproot_htlc_signature_fits_the_witness(
    s: SignerView,
    tx: TransactionView,
    input: nat,
    d: HTLCDescriptor,
    scripts: TaprootHtlcScripts,
)
    requires
        d.params().channel_type_features.simple_taproot,
        d.keys() matches Some(k) && k.revocation_key.len() == 33,
        d.taproot_control_block(scripts) is Some,
        tap_leaf_hash(scripts.direct_claim(d.htlc)).len() == 32,
        derived_secret(s.htlc_base_key, d.per_commitment_point@) is Some,
        input < tx.input.len(),
        input < tx.output.len(),
    ensures
        d.utxo(Some(scripts)) is Some,
        holder_htlc_signing(s, tx, input, d, scripts) == Ok::<(Seq<u8>, Seq<u8>), SignerError>(
            (
                tap_single_leaf_sighash(
                    tx,
                    input,
                    d.utxo(Some(scripts))->0,
                    tap_leaf_hash(scripts.two_party(d.htlc)),
                ),
                derived_secret(s.htlc_base_key, d.per_commitment_point@)->0,
            ),
        ),
        exists|key: Seq<u8>|
            d.utxo(Some(scripts))->0.script_pubkey == p2tr(key) && #[trigger] proves_leaf(
                d.taproot_control_block(scripts)->0,
                scripts.two_party(d.htlc),
                key,
            ),
{
    let revocation = (d.keys()->0).revocation_key;
    control_block_proves_its_leaf(
        x_only(revocation),
        scripts.two_party(d.htlc),
        Some(scripts.direct_claim(d.htlc)),
    );
    let (key, block) = taproot_htlc_spend(revocation, d.htlc, scripts)->0;
    assert(block == d.taproot_control_block(scripts)->0);
    assert(d.utxo(Some(scripts))->0.script_pubkey == p2tr(key));
    assert(proves_leaf(d.taproot_control_block(scripts)->0, scripts.two_party(d.htlc), key));
}

/// The leaf of a taproot HTLC by which its broadcaster claims it is the one of the timeout where it offered
/// the HTLC, of the success where it received it; the other leaf is the counterparty's.
pub proof fn taproot_htlc_leaves_are_shared_out(
    scripts: TaprootHtlcScripts,
    htlc: HTLCOutputInCommitment,
)
    ensures
        htlc.offered ==> scripts.two_party(htlc) == scripts.timeout_leaf@ && scripts.direct_claim(
            htlc,
        ) == scripts.success_leaf@,
        !htlc.offered ==> scripts.two_party(htlc) == scripts.success_leaf@ && scripts.direct_claim(
            htlc,
        ) == scripts.timeout_leaf@,
{
}

/// The script under which we sign for an HTLC of a commitment that the counterparty broadcast is the script of
/// the HTLC's output, on a channel of whichever type: the one under which we signed that HTLC when we signed
/// the commitment, and the one that the counterparty's own descriptor of the HTLC gives.
pub proof fn claimed_htlc_script_is_the_outputs(
    ours: ChannelTransactionParameters,
    theirs: HTLCDescriptor,
    keys: TxKeysView,
)
    requires
        same_channel(ours, theirs.params()),
        theirs.keys() == Some(keys),
    ensures
        commitment_keys(
            theirs.per_commitment_point@,
            (ours.counterparty_parameters->0).pubkeys,
            ours.holder_pubkeys,
        ) == Some(keys),
        counterparty_htlc_script(ours, theirs.per_commitment_point@, theirs.htlc) == Some(
            htlc_redeemscript(
                theirs.htlc,
                ours.channel_type_features,
                keys.broadcaster_htlc_key,
                keys.countersignatory_htlc_key,
                keys.revocation_key,
            ),
        ),
        counterparty_htlc_script(ours, theirs.per_commitment_point@, theirs.htlc)
            == theirs.script(),
{
}

/// An HTLC of a commitment that the counterparty broadcast is claimed by a signature under the script of its
/// output, of the hash type `ALL` and for the given amount: with the revocation key where the commitment was
/// revoked, with our HTLC key at that commitment otherwise.
pub proof fn their_htlcs_are_claimed_under_their_script(
    s: SignerView,
    ours: ChannelTransactionParameters,
    theirs: HTLCDescriptor,
    tx: TransactionView,
    input: nat,
    amount: u64,
    commitment_secret: Seq<u8>,
)
    requires
        same_channel(ours, theirs.params()),
        theirs.keys() is Some,
        theirs.per_commitment_point@ == public_of(commitment_secret),
        revocation_secret(s.revocation_base_key, commitment_secret) is Some,
        derived_secret(s.htlc_base_key, theirs.per_commitment_point@) is Some,
    ensures
        theirs.script() is Some,
        justice_htlc(s, ours, tx, input, amount, commitment_secret, theirs.htlc) == Ok::<
            (Seq<u8>, Seq<u8>),
            SignerError,
        >(
            (
                segwit_sighash(tx, input, theirs.script()->0, amount, 1u8),
                revocation_secret(s.revocation_base_key, commitment_secret)->0,
            ),
        ),
        counterparty_htlc(
            s,
            ours,
            tx,
            input,
            amount,
            theirs.per_commitment_point@,
            theirs.htlc,
        ) == Ok::<(Seq<u8>, Seq<u8>), SignerError>(
            (
                segwit_sighash(tx, input, theirs.script()->0, amount, 1u8),
                derived_secret(s.htlc_base_key, theirs.per_commitment_point@)->0,
            ),
        ),
{
    claimed_htlc_script_is_the_outputs(ours, theirs, theirs.keys()->0);
}

/// A taproot HTLC of a commitment that the counterparty broadcast is claimed by the leaf that stands beside
/// the two-party leaf in the output: its hash is what the counterparty's control block carries.
pub proof fn their_taproot_htlcs_are_claimed_by_the_other_leaf(
    s: SignerView,
    theirs: HTLCDescriptor,
    scripts: TaprootHtlcScripts,
    tx: TransactionView,
    input: nat,
    prevouts: Seq<TxOutView>,
)
    requires
        theirs.keys() matches Some(k) && k.revocation_key.len() == 33,
        theirs.taproot_control_block(scripts) is Some,
        derived_secret(s.htlc_base_key, theirs.per_commitment_point@) is Some,
        prevouts.len() == tx.input.len(),
    ensures
        counterparty_htlc_taproot(
            s,
            tx,
            input,
            theirs.per_commitment_point@,
            scripts.direct_claim(theirs.htlc),
            prevouts,
        ) == Ok::<(Seq<u8>, Seq<u8>), SignerError>(
            (
                tap_leaf_sighash(
                    tx,
                    input,
                    prevouts,
                    theirs.taproot_control_block(scripts)->0.skip(33),
                ),
                derived_secret(s.htlc_base_key, theirs.per_commitment_point@)->0,
            ),
        ),
{
    let block = theirs.taproot_control_block(scripts)->0;
    assert(block.skip(33) =~= tap_leaf_hash(scripts.direct_claim(theirs.htlc)));
}

/// A revoked `to_local` output is claimed under its own script: the one that names the revocation key and the
/// delayed key of the revoked commitment and the delay that we asked of the counterparty. The signature is of
/// the hash type `ALL`, made with the revocation key.
pub proof fn revoked_balance_is_claimed_under_its_script(
    s: SignerView,
    ours: ChannelTransactionParameters,
    keys: TxKeysView,
    tx: TransactionView,
    input: nat,
    amount: u64,
    commitment_secret: Seq<u8>,
)
    requires
        commitment_keys(
            public_of(commitment_secret),
            (ours.counterparty_parameters->0).pubkeys,
            ours.holder_pubkeys,
        ) == Some(keys),
        revocation_secret(s.revocation_base_key, commitment_secret) is Some,
    ensures
        justice_output(s, ours, tx, input, amount, commitment_secret) == Ok::<
            (Seq<u8>, Seq<u8>),
            SignerError,
        >(
            (
                segwit_sighash(
                    tx,
                    input,
                    revokeable_redeemscript(
                        keys.revocation_key,
                        ours.holder_selected_contest_delay,
                        keys.broadcaster_delayed_payment_key,
                    ),
                    amount,
                    1u8,
                ),
                revocation_secret(s.revocation_base_key, commitment_secret)->0,
            ),
        ),
{
}

/// What we claim of a revoked commitment is what its broadcaster would have spent after the delay: the script
/// that we sign under is the one in the witness by which the counterparty spends its delayed output.
pub proof fn revoked_balance_is_the_delayed_output(
    us: SignerView,
    them: SignerView,
    ours: ChannelTransactionParameters,
    theirs: DelayedPaymentOutputDescriptor,
    keys: TxKeysView,
    claim: (TransactionView, nat, u64, Seq<u8>),
    spend: (TransactionView, nat, Seq<TxOutView>),
)
    requires
        commitment_keys(
            public_of(claim.3),
            (ours.counterparty_parameters->0).pubkeys,
            ours.holder_pubkeys,
        ) == Some(keys),
        revocation_secret(us.revocation_base_key, claim.3) is Some,
        theirs.per_commitment_point@ == public_of(claim.3),
        theirs.revocation_pubkey@ == keys.revocation_key,
        theirs.to_self_delay == ours.holder_selected_contest_delay,
        !taproot_channel(theirs.channel_transaction_parameters),
        derived_secret(them.delayed_payment_base_key, theirs.per_commitment_point@) matches Some(k)
            && public_of(k) == keys.broadcaster_delayed_payment_key,
        delayed_input(them, spend.0, spend.1, theirs, spend.2).0 is Ok,
    ensures
        justice_output(us, ours, claim.0, claim.1, claim.2, claim.3) is Ok,
        ({
            let witness = delayed_input(them, spend.0, spend.1, theirs, spend.2).0->Ok_0;
            &&& theirs.output.script_pubkey@ == p2wsh(witness[2])
            &&& (justice_output(us, ours, claim.0, claim.1, claim.2, claim.3)->Ok_0).0
                == segwit_sighash(claim.0, claim.1, witness[2], claim.2, 1u8)
        }),
{
}

/// A revoked taproot `to_local` output is claimed by the leaf that stands beside its delay leaf: the hash that
/// is signed under is what the delay leaf's control block carries.
pub proof fn revoked_taproot_balance_is_claimed_by_the_other_leaf(
    s: SignerView,
    ours: ChannelTransactionParameters,
    keys: TxKeysView,
    tx: TransactionView,
    input: nat,
    commitment_secret: Seq<u8>,
    prevouts: Seq<TxOutView>,
)
    requires
        commitment_keys(
            public_of(commitment_secret),
            (ours.counterparty_parameters->0).pubkeys,
            ours.holder_pubkeys,
        ) == Some(keys),
        revocation_secret(s.revocation_base_key, commitment_secret) is Some,
        to_local_spend(
            keys.revocation_key,
            ours.holder_selected_contest_delay,
            keys.broadcaster_delayed_payment_key,
        ) is Some,
        prevouts.len() == tx.input.len(),
    ensures
        ({
            let (_, block) = to_local_spend(
                keys.revocation_key,
                ours.holder_selected_contest_delay,
                keys.broadcaster_delayed_payment_key,
            )->0;
            justice_output_taproot(s, ours, tx, input, commitment_secret, prevouts) == Ok::<
                (Seq<u8>, Seq<u8>),
                SignerError,
            >(
                (
                    tap_leaf_sighash(tx, input, prevouts, block.skip(33)),
                    revocation_secret(s.revocation_base_key, commitment_secret)->0,
                ),
            )
        }),
{
    let (_, block) = to_local_spend(
        keys.revocation_key,
        ours.holder_selected_contest_delay,
        keys.broadcaster_delayed_payment_key,
    )->0;
    assert(block.skip(33) =~= tap_leaf_hash(
        taproot_to_local_revoke_script(
            keys.revocation_key,
            keys.broadcaster_delayed_payment_key,
        ),
    ));
}

/// An HTLC's script makes its spender wait a block on exactly those channels on which the input of the
/// second-level transaction waits it: the channels with anchors. There it ends in `1 CSV DROP ENDIF`.
pub proof fn htlc_inputs_wait_as_their_script_asks(
    txid: Seq<u8>,
    htlc: HTLCOutputInCommitment,
    features: ChannelTypeFeatures,
    broadcaster: Seq<u8>,
    countersignatory: Seq<u8>,
    revocation: Seq<u8>,
)
    ensures
        ({
            let script = htlc_redeemscript(
                htlc,
                features,
                broadcaster,
                countersignatory,
                revocation,
            );
            let sequence = htlc_input(txid, htlc, features).sequence;
            let n = script.len() as int;
            &&& n >= 4
            &&& sequence == if features.anchors_zero_fee_htlc_tx {
                1u32
            } else {
                0u32
            }
            &&& sequence == 1 ==> script.subrange(n - 4, n) == seq![0x51u8, 0xb2, 0x75, 0x68]
            &&& sequence == 0 ==> script.subrange(n - 2, n) == seq![0x68u8, 0x68]
        }),
{
    let script = htlc_redeemscript(htlc, features, broadcaster, countersignatory, revocation);
    let n = script.len() as int;
    if features.anchors_zero_fee_htlc_tx {
        assert(script.subrange(n - 4, n) =~= seq![0x51u8, 0xb2, 0x75, 0x68]);
    } else {
        assert(script.subrange(n - 2, n) =~= seq![0x68u8, 0x68]);
    }
}

/// The holder's anchor is spent with the key that its script names, spliced or not.
pub proof fn anchor_is_spent_by_its_key(
    s: SignerView,
    p: ChannelTransactionParameters,
    tx: TransactionView,
    input: nat,
)
    requires
        holds_keys(s, p),
    ensures
        anchor_spend(s, p, tx, input) matches Ok((digest, key)) && public_of(key)
            == p.holder_pubkeys.funding_pubkey@ && digest == segwit_sighash(
            tx,
            input,
            anchor_redeemscript(public_of(key)),
            330,
            1u8,
        ),
{
}

/// What the second-level transaction of an HTLC leaves is ours to sweep after the delay: the output that its
/// descriptor gives is one that a descriptor of a delayed payment, with the keys of the commitment and the
/// delay that the counterparty asked of us, is signed for. It holds the HTLC's value less the fee, and where
/// HTLC transactions pay no fee, all of it.
pub proof fn second_level_output_can_be_swept(
    s: SignerView,
    d: HTLCDescriptor,
    keys: TxKeysView,
    payment: DelayedPaymentOutputDescriptor,
    tx: TransactionView,
    index: nat,
    prevouts: Seq<TxOutView>,
)
    requires
        d.params().counterparty_parameters is Some,
        !d.params().channel_type_features.simple_taproot,
        d.keys() == Some(keys),
        derived_secret(s.delayed_payment_base_key, d.per_commitment_point@) matches Some(k)
            && public_of(k) == keys.broadcaster_delayed_payment_key,
        payment.output@ == d.second_level_output(None)->0,
        payment.revocation_pubkey@ == keys.revocation_key,
        payment.per_commitment_point == d.per_commitment_point,
        payment.to_self_delay == (d.params().counterparty_parameters->0).selected_contest_delay,
        !taproot_channel(payment.channel_transaction_parameters),
        spends_output(tx, index, payment.outpoint@),
        tx.input[index as int].sequence == payment.to_self_delay,
        d.htlc.second_level_fee(d.feerate_per_kw, d.params().channel_type_features)
            <= d.htlc.value_satoshis(),
    ensures
        d.second_level_output(None) is Some,
        delayed_input(s, tx, index, payment, prevouts).0 is Ok,
        payment.output.value + d.htlc.second_level_fee(
            d.feerate_per_kw,
            d.params().channel_type_features,
        ) == d.htlc.value_satoshis(),
        d.params().channel_type_features.anchors_zero_fee_htlc_tx
            || d.params().channel_type_features.anchor_zero_fee_commitments
            ==> payment.output.value == d.htlc.value_satoshis(),
{
}

/// The keys of a commitment are named alike by both parties: those by which the broadcaster spends come from
/// its own basepoints, those by which the other party does from that party's.
pub proof fn commitment_keys_are_by_role(
    point: Seq<u8>,
    broadcaster: ChannelPublicKeys,
    countersignatory: ChannelPublicKeys,
    keys: TxKeysView,
)
    requires
        commitment_keys(point, broadcaster, countersignatory) == Some(keys),
    ensures
        derived_public(broadcaster.htlc_basepoint@, point) == Some(
            keys.broadcaster_htlc_key,
        ),
        derived_public(broadcaster.delayed_payment_basepoint@, point) == Some(
            keys.broadcaster_delayed_payment_key,
        ),
        derived_public(countersignatory.htlc_basepoint@, point) == Some(
            keys.countersignatory_htlc_key,
        ),
        revocation_public(countersignatory.revocation_basepoint@, point) == Some(
            keys.revocation_key,
        ),
        keys.per_commitment_point == point,
{
}

} // verus!
