//! The NFT receiver interface through which tokens are staked.

use vstd::prelude::*;

use crate::contract::Contract;
use crate::TokenId;
use crate::types::{effect_views, CallContext, Effect, EffectView, EventView, StakingError};

verus! {

/// A contract that accepts NFTs sent to it with `nft_transfer_call`.
pub trait NonFungibleTokenReceiver {
    /// The receiver's state is one on which `nft_on_transfer` may be called.
    spec fn receiver_wf(&self) -> bool;

    /// Receives `token_id` from the NFT contract that calls (the context's
    /// caller). Answers whether the token is to be given back, with the
    /// effects to carry out.
    fn nft_on_transfer(
        &mut self,
        ctx: &CallContext,
        sender_id: String,
        previous_owner_id: String,
        token_id: TokenId,
        msg: String,
    ) -> (res: Result<(bool, Vec<Effect>), StakingError>)
        requires
            old(self).receiver_wf(),
        ensures
            final(self).receiver_wf(),
    ;
}

impl NonFungibleTokenReceiver for Contract {
    open spec fn receiver_wf(&self) -> bool {
        self.wf()
    }

    /// Stakes the token for `sender_id` (the account that sent it); the
    /// token is never given back.
    fn nft_on_transfer(
        &mut self,
        ctx: &CallContext,
        sender_id: String,
        previous_owner_id: String,
        token_id: TokenId,
        msg: String,
    ) -> (res: Result<(bool, Vec<Effect>), StakingError>)
        ensures
            match old(self).stake_outcome(
                ctx.predecessor_account_id@,
                sender_id@,
                token_id@,
                ctx.block_timestamp,
            ) {
                Ok(t) => res matches Ok((give_back, effects)) && !give_back && final(self).entries()
                    == t && final(self).same_settings(&*old(self)) && effect_views(effects@) == seq![
                    EffectView::Log(
                        EventView::StakeNft {
                            owner_id: sender_id@,
                            nft_contract_id: ctx.predecessor_account_id@,
                            token_id: token_id@,
                        },
                    ),
                ],
                Err(e) => res == Err::<(bool, Vec<Effect>), StakingError>(e) && *final(self)
                    == *old(self),
            },
    {
        let nft_contract_id = ctx.predecessor_account_id.clone();
        match self._internal_receive_nft(ctx.block_timestamp, nft_contract_id, sender_id, token_id) {
            Ok(effects) => Ok((false, effects)),
            Err(e) => Err(e),
        }
    }
}

} // verus!
