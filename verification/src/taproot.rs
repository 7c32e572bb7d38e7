//! Taproot outputs of one or two script leaves: their keys, control blocks and witnesses.
use vstd::prelude::*;

use crate::bytes::{append, bytes_less, concat, copy_bytes, lex_less, text};
use crate::curve::{valid_scalar, xonly_add, xonly_sum, Scalar};
use crate::hashes::{tagged_hash, tagged_hash_of};
use crate::tx::{compact_size, compact_size_of, rows};

verus! {

/// The version byte of a tapscript leaf.
pub const TAPSCRIPT_LEAF_VERSION: u8 = 0xc0;

/// The digest of a tapscript leaf.
pub open spec fn tap_leaf_hash(script: Seq<u8>) -> Seq<u8> {
    tagged_hash(
        text("TapLeaf"),
        seq![TAPSCRIPT_LEAF_VERSION] + compact_size(script.len()) + script,
    )
}

/// The digest of two nodes, the lesser first.
pub open spec fn tap_branch_hash(a: Seq<u8>, b: Seq<u8>) -> Seq<u8> {
    tagged_hash(
        text("TapBranch"),
        if lex_less(a, b) {
            a + b
        } else {
            b + a
        },
    )
}

/// The root over a leaf and, where there is one, its sibling.
pub open spec fn tap_root(leaf: Seq<u8>, sibling: Option<Seq<u8>>) -> Seq<u8> {
    match sibling {
        Some(other) => tap_branch_hash(tap_leaf_hash(leaf), tap_leaf_hash(other)),
        None => tap_leaf_hash(leaf),
    }
}

/// The tweak that commits an internal key to a root.
pub open spec fn tap_tweak(internal: Seq<u8>, root: Seq<u8>) -> Seq<u8> {
    tagged_hash(text("TapTweak"), internal + root)
}

/// The output key of an internal key and a root, and its parity, where they give one.
pub open spec fn tap_output(internal: Seq<u8>, root: Seq<u8>) -> Option<(Seq<u8>, bool)> {
    if valid_scalar(tap_tweak(internal, root)) {
        xonly_sum(internal, tap_tweak(internal, root))
    } else {
        None
    }
}

/// The control block that proves a leaf to be under an output key.
pub open spec fn tap_control_block(internal: Seq<u8>, odd: bool, sibling: Option<Seq<u8>>) -> Seq<
    u8,
> {
    seq![
        if odd {
            (TAPSCRIPT_LEAF_VERSION + 1) as u8
        } else {
            TAPSCRIPT_LEAF_VERSION
        },
    ] + internal + match sibling {
        Some(other) => tap_leaf_hash(other),
        None => Seq::empty(),
    }
}

/// What spending a leaf of a taproot output takes: the output's key and the leaf's control block.
pub struct TaprootSpend {
    pub output_key: [u8; 32],
    pub control_block: Vec<u8>,
}

/// What a leaf's spend holds, where the output key exists.
pub open spec fn tap_spend(internal: Seq<u8>, leaf: Seq<u8>, sibling: Option<Seq<u8>>) -> Option<
    (Seq<u8>, Seq<u8>),
> {
    match tap_output(internal, tap_root(leaf, sibling)) {
        Some((key, odd)) => Some((key, tap_control_block(internal, odd, sibling))),
        None => None,
    }
}

/// Whether a control block proves a leaf to be under an output key: the key that it names, tweaked by the
/// root which the leaf and the hash that it carries give, is the output key, of the parity that it names.
pub open spec fn proves_leaf(block: Seq<u8>, leaf: Seq<u8>, output_key: Seq<u8>) -> bool {
    let path = block.skip(33);
    let root = if path.len() == 0 {
        tap_leaf_hash(leaf)
    } else {
        tap_branch_hash(tap_leaf_hash(leaf), path)
    };
    match tap_output(block.subrange(1, 33), root) {
        Some((key, odd)) => key == output_key && block[0] == if odd {
            0xc1u8
        } else {
            0xc0u8
        },
        None => false,
    }
}

/// The control block of a leaf proves it to be under the output key that comes with it, hashes being of the
/// 32 bytes that they are.
pub proof fn control_block_proves_its_leaf(
    internal: Seq<u8>,
    leaf: Seq<u8>,
    sibling: Option<Seq<u8>>,
)
    requires
        internal.len() == 32,
        sibling matches Some(other) ==> tap_leaf_hash(other).len() == 32,
        tap_spend(internal, leaf, sibling) is Some,
    ensures
        proves_leaf(
            (tap_spend(internal, leaf, sibling)->0).1,
            leaf,
            (tap_spend(internal, leaf, sibling)->0).0,
        ),
{
    let block = (tap_spend(internal, leaf, sibling)->0).1;
    assert(block.subrange(1, 33) =~= internal);
    match sibling {
        Some(other) => {
            assert(block.skip(33) =~= tap_leaf_hash(other));
        },
        None => {
            assert(block.skip(33) =~= Seq::<u8>::empty());
        },
    }
}

/// What an optional byte string holds.
pub open spec fn opt_bytes(s: Option<&[u8]>) -> Option<Seq<u8>> {
    match s {
        Some(s) => Some(s@),
        None => None,
    }
}

/// The digest of a tapscript leaf.
pub fn leaf_hash(script: &[u8]) -> (r: [u8; 32])
    ensures
        r@ == tap_leaf_hash(script@),
{
    let mut data: Vec<u8> = vec![TAPSCRIPT_LEAF_VERSION];
    append(&mut data, compact_size_of(script.len()).as_slice());
    append(&mut data, script);
    assert(data@ =~= seq![TAPSCRIPT_LEAF_VERSION] + compact_size(script@.len()) + script@);
    tagged_hash_of("TapLeaf".as_bytes(), data.as_slice())
}

fn branch_hash(a: &[u8; 32], b: &[u8; 32]) -> (r: [u8; 32])
    ensures
        r@ == tap_branch_hash(a@, b@),
{
    let data: Vec<u8> = if bytes_less(a, b) {
        concat(a, b)
    } else {
        concat(b, a)
    };
    tagged_hash_of("TapBranch".as_bytes(), data.as_slice())
}

/// The root over a leaf and, where there is one, its sibling.
pub fn tree_root(leaf: &[u8], sibling: Option<&[u8]>) -> (r: [u8; 32])
    ensures
        r@ == tap_root(leaf@, opt_bytes(sibling)),
{
    let own: [u8; 32] = leaf_hash(leaf);
    match sibling {
        Some(other) => branch_hash(&own, &leaf_hash(other)),
        None => own,
    }
}

/// The tweak that commits an internal key to a root, where it is a scalar.
pub fn commitment_tweak(internal: &[u8; 32], root: &[u8; 32]) -> (r: Option<Scalar>)
    ensures
        r is Some <==> valid_scalar(tap_tweak(internal@, root@)),
        r matches Some(t) ==> t@ == tap_tweak(internal@, root@),
{
    let data: Vec<u8> = concat(internal, root);
    Scalar::from_be_bytes(&tagged_hash_of("TapTweak".as_bytes(), data.as_slice()))
}

/// The output key and control block of a leaf of a taproot output with this internal key.
pub fn taproot_spend(internal: &[u8; 32], leaf: &[u8], sibling: Option<&[u8]>) -> (r: Option<
    TaprootSpend,
>)
    ensures
        match (r, tap_spend(internal@, leaf@, opt_bytes(sibling))) {
            (Some(s), Some((key, block))) => s.output_key@ == key && s.control_block@ == block
                && s.control_block@.len() == if sibling is Some {
                65nat
            } else {
                33nat
            },
            (None, None) => true,
            _ => false,
        },
{
    let root: [u8; 32] = tree_root(leaf, sibling);
    let tweak: Scalar = match commitment_tweak(internal, &root) {
        Some(t) => t,
        None => {
            return None;
        },
    };
    match xonly_add(internal, &tweak) {
        Some((output_key, odd)) => {
            let version: u8 = if odd {
                TAPSCRIPT_LEAF_VERSION + 1
            } else {
                TAPSCRIPT_LEAF_VERSION
            };
            let mut control_block: Vec<u8> = vec![version];
            append(&mut control_block, internal);
            if let Some(other) = sibling {
                append(&mut control_block, &leaf_hash(other));
            }
            assert(control_block@ =~= tap_control_block(internal@, odd, opt_bytes(sibling)));
            Some(TaprootSpend { output_key, control_block })
        },
        None => None,
    }
}

/// The witness of a script-path spend with one signature: the signature, the leaf, the control
/// block.
pub fn build_taproot_script_path_witness(signature: &[u8], leaf: &[u8], control_block: &[u8]) -> (r:
    Vec<Vec<u8>>)
    ensures
        rows(r@) == seq![signature@, leaf@, control_block@],
{
    let mut r: Vec<Vec<u8>> = Vec::new();
    r.push(copy_bytes(signature));
    r.push(copy_bytes(leaf));
    r.push(copy_bytes(control_block));
    assert(rows(r@) =~= seq![signature@, leaf@, control_block@]);
    r
}

} // verus!
