//! The vault's state and the values its decisions hand back.

use vstd::prelude::*;
use crate::plan::{PromisePlan, PlanView};
use crate::ref_config::{RefConfig, RefConfigView};

verus! {

/// The part of the vault's state that its decisions read and write: the USN
/// token it accepts, the USN it holds in reserve, its own account id (the dUSN
/// token is this contract), and the Ref Finance contracts it uses.
pub struct Contract {
    pub usn_token_account_id: String,
    pub usn_reserve: u128,
    pub current_account_id: String,
    pub ref_config: RefConfig,
}

/// The mathematical value of a [`Contract`].
pub struct ContractView {
    pub usn_token_account_id: Seq<char>,
    pub usn_reserve: u128,
    pub current_account_id: Seq<char>,
    pub ref_config: RefConfigView,
}

impl ContractView {
    /// The same vault with another USN reserve.
    pub open spec fn with_reserve(self, usn_reserve: u128) -> ContractView {
        ContractView { usn_reserve, ..self }
    }
}

impl View for Contract {
    type V = ContractView;

    open spec fn view(&self) -> ContractView {
        ContractView {
            usn_token_account_id: self.usn_token_account_id@,
            usn_reserve: self.usn_reserve,
            current_account_id: self.current_account_id@,
            ref_config: self.ref_config@,
        }
    }
}

/// dUSN to mint to (or burn from) an account.
#[derive(Debug, PartialEq, Eq)]
pub struct LedgerChange {
    pub account_id: String,
    pub amount: u128,
}

/// The mathematical value of a [`LedgerChange`].
pub struct LedgerChangeView {
    pub account_id: Seq<char>,
    pub amount: u128,
}

impl View for LedgerChange {
    type V = LedgerChangeView;

    open spec fn view(&self) -> LedgerChangeView {
        LedgerChangeView { account_id: self.account_id@, amount: self.amount }
    }
}

pub open spec fn opt_change_view(o: Option<LedgerChange>) -> Option<LedgerChangeView> {
    match o {
        Some(c) => Some(c@),
        None => None,
    }
}

/// What a call answers: a value at once, or the result of a promise.
#[derive(Debug, PartialEq, Eq)]
pub enum Reply {
    Value(u128),
    Promise(PromisePlan),
}

/// The mathematical value of a [`Reply`].
pub enum ReplyView {
    Value(u128),
    Promise(PlanView),
}

impl View for Reply {
    type V = ReplyView;

    open spec fn view(&self) -> ReplyView {
        match self {
            Reply::Value(v) => ReplyView::Value(*v),
            Reply::Promise(p) => ReplyView::Promise(p@),
        }
    }
}

/// What `ft_on_transfer` decided: dUSN to mint to the sender (with an `FtMint`
/// event, memo "dUSN is minted"), dUSN to burn from this contract (with an
/// `FtBurn` event, memo "dUSN is burned"), and the reply to the token contract.
#[derive(Debug, PartialEq, Eq)]
pub struct OnTransferOutcome {
    pub mint: Option<LedgerChange>,
    pub burn: Option<LedgerChange>,
    pub reply: Reply,
}

/// The mathematical value of an [`OnTransferOutcome`].
pub struct OnTransferOutcomeView {
    pub mint: Option<LedgerChangeView>,
    pub burn: Option<LedgerChangeView>,
    pub reply: ReplyView,
}

impl View for OnTransferOutcome {
    type V = OnTransferOutcomeView;

    open spec fn view(&self) -> OnTransferOutcomeView {
        OnTransferOutcomeView {
            mint: opt_change_view(self.mint),
            burn: opt_change_view(self.burn),
            reply: self.reply@,
        }
    }
}

/// What `after_usn_transfer` decided: dUSN to hand back to the redeemer when
/// the USN transfer failed, and whether it succeeded.
#[derive(Debug, PartialEq, Eq)]
pub struct SettlementOutcome {
    pub refund: Option<LedgerChange>,
    pub transferred: bool,
}

} // verus!
