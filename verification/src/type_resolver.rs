//! A channel's signer, of whichever kind the channel needs.
use vstd::prelude::*;

use crate::node::SignerProvider;
use crate::signer::ChannelSigner;

verus! {

/// The signer of a channel: one for script outputs, or one for taproot outputs.
pub enum ChannelSignerType<SP: SignerProvider> {
    Ecdsa(SP::EcdsaSigner),
    Taproot(SP::TaprootSigner),
}

impl<SP: SignerProvider> ChannelSignerType<SP> {
    /// Borrow the signer as what both kinds are.
    pub fn as_ref(&self) -> (r: &dyn ChannelSigner)
        ensures
            match *self {
                ChannelSignerType::Ecdsa(s) => {
                    let held: &dyn ChannelSigner = &s;
                    r == held
                },
                ChannelSignerType::Taproot(s) => {
                    let held: &dyn ChannelSigner = &s;
                    r == held
                },
            },
    {
        // Each arm returns by itself: a borrow that becomes a trait object twice is no longer known to be
        // the one it was.
        match self {
            ChannelSignerType::Ecdsa(ecs) => {
                return ecs;
            },
            ChannelSignerType::Taproot(tcs) => {
                return tcs;
            },
        };
    }

    /// Borrow the signer for script outputs, if this is one.
    pub fn as_ecdsa(&self) -> (r: Option<&SP::EcdsaSigner>)
        ensures
            match *self {
                ChannelSignerType::Ecdsa(s) => r == Some(&s),
                ChannelSignerType::Taproot(_) => r is None,
            },
    {
        match self {
            ChannelSignerType::Ecdsa(ecs) => Some(ecs),
            _ => None,
        }
    }

    /// Borrow the signer for script outputs mutably, if this is one.
    pub fn as_mut_ecdsa(&mut self) -> (r: Option<&mut SP::EcdsaSigner>)
        ensures
            match *old(self) {
                ChannelSignerType::Ecdsa(s) => r is Some && *(r->0) == s && *final(self)
                    == ChannelSignerType::<SP>::Ecdsa(*final(r->0)),
                ChannelSignerType::Taproot(_) => r is None && *final(self) == *old(self),
            },
    {
        match self {
            ChannelSignerType::Ecdsa(ecs) => Some(ecs),
            _ => None,
        }
    }

    /// Borrow the inner taproot (MuSig2) signer, if this is a taproot channel.
    pub fn as_taproot(&self) -> (r: Option<&SP::TaprootSigner>)
        ensures
            match *self {
                ChannelSignerType::Taproot(s) => r == Some(&s),
                ChannelSignerType::Ecdsa(_) => r is None,
            },
    {
        match self {
            ChannelSignerType::Taproot(tcs) => Some(tcs),
            _ => None,
        }
    }
}

} // verus!
