//! Deposits and redemptions: what the vault does when a token arrives through
//! `ft_transfer_call`, and how it settles a redemption.

use vstd::prelude::*;
use crate::account::{near_account_id_rules, str_eq};
use crate::constants::{AFTER_FT_TRANSFER_GAS, FT_TRANSFER_GAS, MIN_USN_AMOUNT, ONE_YOCTO};
use crate::contract::{
    Contract, ContractView, LedgerChange, LedgerChangeView, OnTransferOutcome,
    OnTransferOutcomeView, Reply, ReplyView, SettlementOutcome,
};
use crate::errors::ContractError;
use crate::plan::{call, call_plan, then, then_plan, CallMethod, MethodView, PlanView, PromisePlan};
use crate::pricing::{
    deposit_quote, dusn_for_deposit, min_dusn_for_redeem, min_redeem_quote, redeem_quote,
    usn_for_redeem,
};
use crate::ref_function::{add_stable_liquidity_plan, unstake_plan};

verus! {

/// Free `amount` USN from Ref, transfer it to `account_id`, then settle the
/// redemption of `dusn_received_amount` dUSN in `after_usn_transfer`.
pub open spec fn withdraw_and_transfer_plan(
    c: ContractView,
    account_id: Seq<char>,
    amount: u128,
    dusn_received_amount: u128,
) -> PlanView {
    then_plan(
        unstake_plan(c, amount),
        then_plan(
            call_plan(
                c.usn_token_account_id,
                MethodView::FtTransfer { receiver_id: account_id, amount, memo: None },
                ONE_YOCTO,
                FT_TRANSFER_GAS,
            ),
            call_plan(
                c.current_account_id,
                MethodView::AfterUsnTransfer {
                    account_id,
                    usn_return_amount: amount,
                    dusn_received_amount,
                },
                0,
                AFTER_FT_TRANSFER_GAS,
            ),
        ),
    )
}

/// The addresses that unstaking names are valid account ids.
pub open spec fn unstake_ids_valid(c: ContractView) -> bool {
    &&& near_account_id_rules(c.ref_config.ref_address)
    &&& near_account_id_rules(c.ref_config.farm_address)
    &&& near_account_id_rules(c.usn_token_account_id)
}

/// What the transfer message asks for, before the token's own bookkeeping:
/// dUSN to mint, or a redemption to schedule.
pub open spec fn message_action(
    c: ContractView,
    token_id: Seq<char>,
    sender_id: Seq<char>,
    amount: u128,
    msg: Seq<char>,
    dusn_total_supply: u128,
) -> Result<(Option<LedgerChangeView>, Option<PlanView>), ContractError> {
    if msg == "deposit"@ {
        if token_id != c.usn_token_account_id {
            Err(ContractError::OnlyUsnCanBeDeposited)
        } else if amount < MIN_USN_AMOUNT {
            Err(ContractError::DepositTooSmall)
        } else {
            match deposit_quote(amount, dusn_total_supply, c.usn_reserve) {
                Err(e) => Err(e),
                Ok(minted) => Ok(
                    (Some(LedgerChangeView { account_id: sender_id, amount: minted }), None),
                ),
            }
        }
    } else if msg == "redeem"@ {
        if token_id != c.current_account_id {
            Err(ContractError::OnlyDusnCanBeRedeemed)
        } else {
            match redeem_quote(amount, dusn_total_supply, c.usn_reserve) {
                Err(e) => Err(e),
                Ok(paid) => if paid < MIN_USN_AMOUNT {
                    match min_redeem_quote(dusn_total_supply, c.usn_reserve) {
                        Err(e) => Err(e),
                        Ok(m) => Err(ContractError::RedeemTooSmall { min_dusn_amount: m }),
                    }
                } else if !unstake_ids_valid(c) {
                    Err(ContractError::InvalidAccountId)
                } else {
                    Ok((None, Some(withdraw_and_transfer_plan(c, sender_id, paid, amount))))
                },
            }
        }
    } else {
        Ok((None, None))
    }
}

/// `ft_on_transfer` as a transition: `amount` of token `token_id` arrived from
/// `sender_id` with message `msg`, while `dusn_total_supply` dUSN exist. The
/// result is the vault's next state and what to do, or the refusal.
///
/// - `"deposit"` (USN only, at least 10 USN) mints `deposit_quote` dUSN to the sender.
/// - `"redeem"` (dUSN only) schedules paying out `redeem_quote` USN, at least 10 USN.
/// - Then, USN of any message joins the reserve and goes to the Ref pool (this
///   is the reply); dUSN of any message is burned; other tokens are kept.
pub open spec fn on_transfer_spec(
    c: ContractView,
    token_id: Seq<char>,
    sender_id: Seq<char>,
    amount: u128,
    msg: Seq<char>,
    dusn_total_supply: u128,
) -> Result<(ContractView, OnTransferOutcomeView, Option<PlanView>), ContractError> {
    match message_action(c, token_id, sender_id, amount, msg, dusn_total_supply) {
        Err(e) => Err(e),
        Ok((mint, redemption)) => if token_id == c.usn_token_account_id {
            if c.usn_reserve + amount > u128::MAX {
                Err(ContractError::Overflow)
            } else if !near_account_id_rules(c.ref_config.ref_address) {
                Err(ContractError::InvalidAccountId)
            } else {
                Ok(
                    (
                        c.with_reserve((c.usn_reserve + amount) as u128),
                        OnTransferOutcomeView {
                            mint,
                            burn: None,
                            reply: ReplyView::Promise(add_stable_liquidity_plan(c, amount)),
                        },
                        redemption,
                    ),
                )
            }
        } else {
            Ok(
                (
                    c,
                    OnTransferOutcomeView {
                        mint,
                        burn: if token_id == c.current_account_id {
                            Some(
                                LedgerChangeView { account_id: c.current_account_id, amount },
                            )
                        } else {
                            None
                        },
                        reply: match redemption {
                            Some(p) => ReplyView::Promise(p),
                            None => ReplyView::Value(0),
                        },
                    },
                    None,
                ),
            )
        },
    }
}

/// `after_usn_transfer` as a transition: the vault's next state, the dUSN to
/// mint back, and whether the USN transfer succeeded; or the refusal.
pub open spec fn settle_spec(
    c: ContractView,
    promise_success: bool,
    account_id: Seq<char>,
    usn_return_amount: u128,
    dusn_received_amount: u128,
) -> Result<(ContractView, Option<LedgerChangeView>, bool), ContractError> {
    if promise_success {
        if c.usn_reserve < usn_return_amount {
            Err(ContractError::Overflow)
        } else {
            Ok((c.with_reserve((c.usn_reserve - usn_return_amount) as u128), None, true))
        }
    } else {
        Ok(
            (
                c,
                Some(LedgerChangeView { account_id, amount: dusn_received_amount }),
                false,
            ),
        )
    }
}

impl Contract {
    /// Brings `amount` USN to Ref; see `ref_add_stable_liquidity`.
    pub fn deposit_usn(&mut self, amount: u128) -> (r: Result<PromisePlan, ContractError>)
        ensures
            final(self)@ == old(self)@,
            r is Ok <==> near_account_id_rules(old(self).ref_config.ref_address@),
            r matches Ok(p) ==> p@ == add_stable_liquidity_plan(old(self)@, amount),
            r matches Err(e) ==> e == ContractError::InvalidAccountId,
    {
        self.ref_add_stable_liquidity(amount)
    }

    /// Frees `amount` USN from Ref and transfers it to `sender_id`, then settles
    /// the redemption of `dusn_received_amount` dUSN. Fails only when an address
    /// that unstaking names is not a valid account id.
    pub fn withdraw_and_transfer_usn(
        &mut self,
        sender_id: String,
        amount: u128,
        dusn_received_amount: u128,
    ) -> (r: Result<PromisePlan, ContractError>)
        ensures
            final(self)@ == old(self)@,
            r is Ok <==> unstake_ids_valid(old(self)@),
            r matches Ok(p) ==> p@ == withdraw_and_transfer_plan(
                old(self)@,
                sender_id@,
                amount,
                dusn_received_amount,
            ),
            r matches Err(e) ==> e == ContractError::InvalidAccountId,
    {
        self.redemption_plan(sender_id, amount, dusn_received_amount)
    }

    fn message_action(
        &self,
        token_id: &str,
        sender_id: &String,
        amount: u128,
        msg: &str,
        dusn_total_supply: u128,
    ) -> (r: Result<(Option<LedgerChange>, Option<PromisePlan>), ContractError>)
        ensures
            match message_action(self@, token_id@, sender_id@, amount, msg@, dusn_total_supply) {
                Err(e) => r == Err::<(Option<LedgerChange>, Option<PromisePlan>), _>(e),
                Ok((mint, redemption)) => r is Ok && match r {
                    Ok((m, p)) => crate::contract::opt_change_view(m) == mint && match p {
                        Some(p) => redemption == Some(p@),
                        None => redemption is None,
                    },
                    Err(_) => false,
                },
            },
    {
        if str_eq(msg, "deposit") {
            if !str_eq(token_id, self.usn_token_account_id.as_str()) {
                return Err(ContractError::OnlyUsnCanBeDeposited);
            }
            if amount < MIN_USN_AMOUNT {
                return Err(ContractError::DepositTooSmall);
            }
            let minted = dusn_for_deposit(amount, dusn_total_supply, self.usn_reserve)?;
            Ok((Some(LedgerChange { account_id: sender_id.clone(), amount: minted }), None))
        } else if str_eq(msg, "redeem") {
            if !str_eq(token_id, self.current_account_id.as_str()) {
                return Err(ContractError::OnlyDusnCanBeRedeemed);
            }
            let paid = usn_for_redeem(amount, dusn_total_supply, self.usn_reserve)?;
            if paid < MIN_USN_AMOUNT {
                let m = min_dusn_for_redeem(dusn_total_supply, self.usn_reserve)?;
                return Err(ContractError::RedeemTooSmall { min_dusn_amount: m });
            }
            let plan = self.redemption_plan(sender_id.clone(), paid, amount)?;
            Ok((None, Some(plan)))
        } else {
            Ok((None, None))
        }
    }

    fn redemption_plan(&self, sender_id: String, amount: u128, dusn_received_amount: u128) -> (r:
        Result<PromisePlan, ContractError>)
        ensures
            r is Ok <==> unstake_ids_valid(self@),
            r matches Ok(p) ==> p@ == withdraw_and_transfer_plan(
                self@,
                sender_id@,
                amount,
                dusn_received_amount,
            ),
            r matches Err(e) ==> e == ContractError::InvalidAccountId,
    {
        let unstake = self.ref_unstake_lp_shares_with_token_amount(amount)?;
        let transfer = call(
            self.usn_token_account_id.clone(),
            CallMethod::FtTransfer { receiver_id: sender_id.clone(), amount, memo: None },
            ONE_YOCTO,
            FT_TRANSFER_GAS,
        );
        let settle = call(
            self.current_account_id.clone(),
            CallMethod::AfterUsnTransfer {
                account_id: sender_id,
                usn_return_amount: amount,
                dusn_received_amount,
            },
            0,
            AFTER_FT_TRANSFER_GAS,
        );
        Ok(then(unstake, then(transfer, settle)))
    }

    /// `ft_on_transfer` of NEP-141: `amount` of the token `token_id` (the
    /// predecessor) arrived from `sender_id` with message `msg`, while
    /// `dusn_total_supply` dUSN exist. Decides as `on_transfer_spec` says; on a
    /// refusal the vault is left as it was.
    ///
    /// The contract then mints and burns dUSN as the outcome says, and also
    /// schedules the plan returned beside the outcome: a redemption that the reply
    /// replaced (only when the USN token is this contract itself).
    pub fn ft_on_transfer(
        &mut self,
        token_id: &str,
        sender_id: String,
        amount: u128,
        msg: &str,
        dusn_total_supply: u128,
    ) -> (r: Result<(OnTransferOutcome, Option<PromisePlan>), ContractError>)
        ensures
            match on_transfer_spec(
                old(self)@,
                token_id@,
                sender_id@,
                amount,
                msg@,
                dusn_total_supply,
            ) {
                Err(e) => r == Err::<(OnTransferOutcome, Option<PromisePlan>), _>(e)
                    && final(self)@ == old(self)@,
                Ok((next, outcome, detached)) => r is Ok && final(self)@ == next && match r {
                    Ok((o, d)) => o@ == outcome && match d {
                        Some(p) => detached == Some(p@),
                        None => detached is None,
                    },
                    Err(_) => false,
                },
            },
    {
        let (mint, redemption) = self.message_action(
            token_id,
            &sender_id,
            amount,
            msg,
            dusn_total_supply,
        )?;
        if str_eq(token_id, self.usn_token_account_id.as_str()) {
            let reserve = match self.usn_reserve.checked_add(amount) {
                Some(v) => v,
                None => return Err(ContractError::Overflow),
            };
            let plan = self.ref_add_stable_liquidity(amount)?;
            self.usn_reserve = reserve;
            Ok((OnTransferOutcome { mint, burn: None, reply: Reply::Promise(plan) }, redemption))
        } else {
            let burn = if str_eq(token_id, self.current_account_id.as_str()) {
                Some(LedgerChange { account_id: self.current_account_id.clone(), amount })
            } else {
                None
            };
            let reply = match redemption {
                Some(p) => Reply::Promise(p),
                None => Reply::Value(0),
            };
            Ok((OnTransferOutcome { mint, burn, reply }, None))
        }
    }

    /// Callback that settles a redemption: when the USN transfer to
    /// `account_id` succeeded, `usn_return_amount` leaves the reserve; when it
    /// failed, the `dusn_received_amount` dUSN burned for it are minted back to
    /// `account_id` (and the failure is logged). Answers whether it succeeded.
    pub fn after_usn_transfer(
        &mut self,
        promise_success: bool,
        account_id: String,
        usn_return_amount: u128,
        dusn_received_amount: u128,
    ) -> (r: Result<SettlementOutcome, ContractError>)
        ensures
            match settle_spec(
                old(self)@,
                promise_success,
                account_id@,
                usn_return_amount,
                dusn_received_amount,
            ) {
                Err(e) => r == Err::<SettlementOutcome, _>(e) && final(self)@ == old(self)@,
                Ok((next, refund, transferred)) => r is Ok && final(self)@ == next
                    && crate::contract::opt_change_view(r->Ok_0.refund) == refund
                    && r->Ok_0.transferred == transferred,
            },
    {
        if promise_success {
            if self.usn_reserve < usn_return_amount {
                return Err(ContractError::Overflow);
            }
            self.usn_reserve = self.usn_reserve - usn_return_amount;
            Ok(SettlementOutcome { refund: None, transferred: true })
        } else {
            Ok(
                SettlementOutcome {
                    refund: Some(LedgerChange { account_id, amount: dusn_received_amount }),
                    transferred: false,
                },
            )
        }
    }
}

} // verus!
