use vstd::prelude::*;
use crate::errors::Error;
use crate::math::{lemma_muldiv_le, lemma_sum_elem, lemma_sum_push, lemma_sum_update, sum};

verus! {

/// What a successful transfer did: the gross amount debited from the
/// sender, the tax withheld for the tax recipient, and the net amount
/// credited to the receiver.  `tax + net == amount`.
#[derive(Clone, Copy, Debug, PartialEq, Eq, Structural)]
pub struct TransferEvent {
    pub amount: u64,
    pub tax: u64,
    pub net: u64,
}

/// Per-account balances and the issuance counter.
///
/// Accounts are dense indices into `balances`; the hosting adapter maps
/// chain-native addresses onto them.  The ledger is the sole mutator of
/// balances: vesting, staking and the bridge all move tokens through its
/// operations, which preserve the conservation invariant
/// `sum(balances) == issued`.
pub struct Ledger {
    /// Balance of each account, indexed by account id.
    pub balances: Vec<u64>,
    /// Running total of net minted-minus-burned tokens.
    pub issued: u64,
    /// When set, transfers and outbound bridging are refused.
    pub paused: bool,
    /// Tax withheld on transfers, in whole percent (at most 100).
    pub tax_rate_percent: u64,
    /// Per-transfer cap on the gross amount.
    pub max_transfer: u64,
    /// Account credited with the withheld tax.
    pub tax_recipient: usize,
}

/// Tax withheld on a gross transfer `amount`: `floor(amount * rate / 100)`.
pub open spec fn tax_of(amount: u64, rate: u64) -> int {
    amount * rate / 100
}

/// The first reason a transfer of `amount` out of `from` is refused, if any.
pub open spec fn transfer_check(pre: Ledger, from: int, amount: u64) -> Option<Error> {
    if pre.paused {
        Some(Error::Paused)
    } else if amount == 0 {
        Some(Error::ZeroAmount)
    } else if amount > pre.max_transfer {
        Some(Error::ExceedsMaximum)
    } else if pre.balances@[from] < amount {
        Some(Error::InsufficientBalance)
    } else {
        None
    }
}

/// Balances after a taxed transfer: debit `from` the gross amount, credit
/// the tax recipient the tax, credit `to` the net, in that order.
pub open spec fn transfer_balances(
    s: Seq<u64>,
    from: int,
    to: int,
    taxr: int,
    amount: u64,
    tax: int,
) -> Seq<u64> {
    let s1 = s.update(from, (s[from] - amount) as u64);
    let s2 = s1.update(taxr, (s1[taxr] + tax) as u64);
    s2.update(to, (s2[to] + (amount - tax)) as u64)
}

/// Balances after an untaxed internal move of `amount` from `from` to `to`.
pub open spec fn moved_balances(s: Seq<u64>, from: int, to: int, amount: u64) -> Seq<u64> {
    let s1 = s.update(from, (s[from] - amount) as u64);
    s1.update(to, (s1[to] + amount) as u64)
}

/// Full description of what `Ledger::transfer` did.
pub open spec fn transfer_post(
    pre: Ledger,
    post: Ledger,
    from: int,
    to: int,
    amount: u64,
    r: Result<TransferEvent, Error>,
) -> bool {
    let tax = tax_of(amount, pre.tax_rate_percent);
    &&& Ledger::config_unchanged(pre, post)
    &&& post.issued == pre.issued
    &&& match r {
        Ok(ev) => {
            &&& transfer_check(pre, from, amount) is None
            &&& ev.amount == amount
            &&& ev.tax == tax
            &&& ev.net == amount - tax
            &&& post.balances@ == transfer_balances(
                pre.balances@,
                from,
                to,
                pre.tax_recipient as int,
                amount,
                tax,
            )
            &&& (forall|a: int|
                0 <= a < pre.balances@.len() && a != from ==> post.balances@[a]
                    >= pre.balances@[a])
            &&& (forall|a: int|
                0 <= a < pre.balances@.len() && a != from && a != pre.tax_recipient && a != to
                    ==> post.balances@[a] == pre.balances@[a])
            &&& (to != from && to != pre.tax_recipient ==> post.balances@[to] == pre.balances@[to]
                + (amount - tax))
            &&& (pre.tax_recipient != from && pre.tax_recipient != to
                ==> post.balances@[pre.tax_recipient as int] == pre.balances@[pre.tax_recipient as int] + tax)
            &&& (from != to && from != pre.tax_recipient ==> post.balances@[from]
                == pre.balances@[from] - amount)
        },
        Err(e) => {
            &&& transfer_check(pre, from, amount) == Some(e)
            &&& post == pre
        },
    }
}

/// Full description of what `Ledger::mint` did.
pub open spec fn mint_post(pre: Ledger, post: Ledger, to: int, amount: u64) -> bool {
    &&& Ledger::config_unchanged(pre, post)
    &&& pre.balances@[to] + amount <= u64::MAX
    &&& post.balances@ == pre.balances@.update(to, (pre.balances@[to] + amount) as u64)
    &&& post.balances@[to] == pre.balances@[to] + amount
    &&& (forall|a: int|
        0 <= a < pre.balances@.len() && a != to ==> post.balances@[a] == pre.balances@[a])
    &&& post.issued == pre.issued + amount
}

/// Full description of what `Ledger::burn` did.
pub open spec fn burn_post(
    pre: Ledger,
    post: Ledger,
    from: int,
    amount: u64,
    r: Result<(), Error>,
) -> bool {
    &&& Ledger::config_unchanged(pre, post)
    &&& match r {
        Ok(_) => {
            &&& pre.balances@[from] >= amount
            &&& post.balances@ == pre.balances@.update(
                from,
                (pre.balances@[from] - amount) as u64,
            )
            &&& post.balances@[from] == pre.balances@[from] - amount
            &&& (forall|a: int|
                0 <= a < pre.balances@.len() && a != from ==> post.balances@[a]
                    == pre.balances@[a])
            &&& post.issued == pre.issued - amount
        },
        Err(e) => {
            &&& e == Error::InsufficientBalance
            &&& pre.balances@[from] < amount
            &&& post == pre
        },
    }
}

/// Full description of what `Ledger::move_untaxed` did.
pub open spec fn move_post(
    pre: Ledger,
    post: Ledger,
    from: int,
    to: int,
    amount: u64,
    r: Result<(), Error>,
) -> bool {
    &&& Ledger::config_unchanged(pre, post)
    &&& post.issued == pre.issued
    &&& match r {
        Ok(_) => {
            &&& pre.balances@[from] >= amount
            &&& post.balances@ == moved_balances(pre.balances@, from, to, amount)
            &&& (forall|a: int|
                0 <= a < pre.balances@.len() && a != from ==> post.balances@[a]
                    >= pre.balances@[a])
            &&& (forall|a: int|
                0 <= a < pre.balances@.len() && a != from && a != to ==> post.balances@[a]
                    == pre.balances@[a])
            &&& (to != from ==> post.balances@[to] == pre.balances@[to] + amount)
            &&& (to != from ==> post.balances@[from] == pre.balances@[from] - amount)
            &&& (to == from ==> post.balances@[to] == pre.balances@[to])
        },
        Err(e) => {
            &&& e == Error::InsufficientBalance
            &&& pre.balances@[from] < amount
            &&& post == pre
        },
    }
}

impl Ledger {
    /// Well-formedness: a valid tax configuration and conservation of
    /// supply — the balances sum to exactly the issued amount.
    pub open spec fn wf(self) -> bool {
        &&& self.tax_recipient < self.balances@.len()
        &&& self.tax_rate_percent <= 100
        &&& sum(self.balances@) == self.issued as int
    }

    /// Balance of `account`, 0 for an account that does not exist.
    pub open spec fn balance_spec(self, account: int) -> u64 {
        if 0 <= account < self.balances@.len() {
            self.balances@[account]
        } else {
            0
        }
    }

    /// The configuration fields an operation never touches.
    pub open spec fn config_unchanged(pre: Ledger, post: Ledger) -> bool {
        &&& post.paused == pre.paused
        &&& post.tax_rate_percent == pre.tax_rate_percent
        &&& post.max_transfer == pre.max_transfer
        &&& post.tax_recipient == pre.tax_recipient
    }

    /// An empty ledger: `n_accounts` accounts with zero balance, nothing
    /// issued, transfers unpaused.
    pub fn new(
        n_accounts: usize,
        tax_rate_percent: u64,
        max_transfer: u64,
        tax_recipient: usize,
    ) -> (r: Ledger)
        requires
            tax_rate_percent <= 100,
            tax_recipient < n_accounts,
        ensures
            r.wf(),
            r.balances@.len() == n_accounts,
            forall|i: int| 0 <= i < n_accounts ==> r.balances@[i] == 0,
            r.issued == 0,
            !r.paused,
            r.tax_rate_percent == tax_rate_percent,
            r.max_transfer == max_transfer,
            r.tax_recipient == tax_recipient,
    {
        let mut balances: Vec<u64> = Vec::new();
        let mut i: usize = 0;
        while i < n_accounts
            invariant
                i <= n_accounts,
                balances@.len() == i,
                forall|j: int| 0 <= j < i ==> balances@[j] == 0,
                sum(balances@) == 0,
            decreases n_accounts - i,
        {
            proof {
                lemma_sum_push(balances@, 0);
            }
            balances.push(0);
            i = i + 1;
        }
        Ledger {
            balances,
            issued: 0,
            paused: false,
            tax_rate_percent,
            max_transfer,
            tax_recipient,
        }
    }

    /// Pure read of an account's balance; never fails.
    pub fn balance_of(&self, account: usize) -> (r: u64)
        ensures
            r == self.balance_spec(account as int),
    {
        if account < self.balances.len() {
            self.balances[account]
        } else {
            0
        }
    }

    /// Pause or resume transfers and outbound bridging.
    pub fn set_paused(&mut self, paused: bool)
        ensures
            *final(self) == (Ledger { paused, ..*old(self) }),
    {
        self.paused = paused;
    }

    /// Append a fresh account with zero balance and return its id.
    pub fn add_account(&mut self) -> (r: usize)
        requires
            old(self).wf(),
        ensures
            final(self).wf(),
            r == old(self).balances@.len(),
            final(self).balances@ == old(self).balances@.push(0),
            final(self).issued == old(self).issued,
            Ledger::config_unchanged(*old(self), *final(self)),
    {
        proof {
            lemma_sum_push(self.balances@, 0);
        }
        let r = self.balances.len();
        self.balances.push(0);
        r
    }

    /// Taxed transfer.  Debits `from` the gross `amount`, credits the tax
    /// recipient `floor(amount * tax_rate_percent / 100)` and `to` the
    /// remainder.  Refuses a paused ledger, a zero amount, an amount over
    /// the cap, and an insufficient balance, in that order.
    pub fn transfer(&mut self, from: usize, to: usize, amount: u64) -> (r: Result<
        TransferEvent,
        Error,
    >)
        requires
            old(self).wf(),
            from < old(self).balances@.len(),
            to < old(self).balances@.len(),
        ensures
            final(self).wf(),
            final(self).balances@.len() == old(self).balances@.len(),
            transfer_post(*old(self), *final(self), from as int, to as int, amount, r),
    {
        if self.paused {
            return Err(Error::Paused);
        }
        if amount == 0 {
            return Err(Error::ZeroAmount);
        }
        if amount > self.max_transfer {
            return Err(Error::ExceedsMaximum);
        }
        let bal_from = self.balances[from];
        if bal_from < amount {
            return Err(Error::InsufficientBalance);
        }

        proof {
            assert((amount as int) * (self.tax_rate_percent as int) <= (u64::MAX as int) * 100)
                by (nonlinear_arith)
                requires
                    self.tax_rate_percent <= 100,
                    amount <= u64::MAX,
            ;
        }
        let tax128: u128 = (amount as u128) * (self.tax_rate_percent as u128) / 100;
        proof {
            lemma_muldiv_le(amount as int, self.tax_rate_percent as int, 100);
        }
        let tax: u64 = tax128 as u64;
        let net: u64 = amount - tax;

        let ghost s0 = self.balances@;
        proof {
            lemma_sum_update(s0, from as int, (bal_from - amount) as u64);
        }
        self.balances.set(from, bal_from - amount);

        let ghost s1 = self.balances@;
        let taxr = self.tax_recipient;
        let bal_taxr = self.balances[taxr];
        proof {
            lemma_sum_elem(s1, taxr as int);
            lemma_sum_update(s1, taxr as int, (bal_taxr + tax) as u64);
        }
        self.balances.set(taxr, bal_taxr + tax);

        let ghost s2 = self.balances@;
        let bal_to = self.balances[to];
        proof {
            lemma_sum_elem(s2, to as int);
            lemma_sum_update(s2, to as int, (bal_to + net) as u64);
        }
        self.balances.set(to, bal_to + net);

        Ok(TransferEvent { amount, tax, net })
    }

    /// Create `amount` new tokens on `to` and raise the issuance counter.
    /// Reached only from instantiation and the bridge's inbound path.
    pub(crate) fn mint(&mut self, to: usize, amount: u64)
        requires
            old(self).wf(),
            to < old(self).balances@.len(),
            old(self).issued + amount <= u64::MAX,
        ensures
            final(self).wf(),
            final(self).balances@.len() == old(self).balances@.len(),
            mint_post(*old(self), *final(self), to as int, amount),
    {
        let bal = self.balances[to];
        proof {
            lemma_sum_elem(self.balances@, to as int);
            lemma_sum_update(self.balances@, to as int, (bal + amount) as u64);
        }
        self.balances.set(to, bal + amount);
        self.issued = self.issued + amount;
    }

    /// Destroy `amount` tokens held by `from` and lower the issuance
    /// counter.  Fails only when `from` holds less than `amount`.
    pub fn burn(&mut self, from: usize, amount: u64) -> (r: Result<(), Error>)
        requires
            old(self).wf(),
            from < old(self).balances@.len(),
        ensures
            final(self).wf(),
            final(self).balances@.len() == old(self).balances@.len(),
            burn_post(*old(self), *final(self), from as int, amount, r),
    {
        let bal = self.balances[from];
        if bal < amount {
            return Err(Error::InsufficientBalance);
        }
        proof {
            lemma_sum_elem(self.balances@, from as int);
            lemma_sum_update(self.balances@, from as int, (bal - amount) as u64);
        }
        self.balances.set(from, bal - amount);
        self.issued = self.issued - amount;
        Ok(())
    }

    /// Untaxed internal move, used for vesting claims, stake custody and
    /// reward payouts.  Fails only when `from` holds less than `amount`.
    pub(crate) fn move_untaxed(&mut self, from: usize, to: usize, amount: u64) -> (r: Result<
        (),
        Error,
    >)
        requires
            old(self).wf(),
            from < old(self).balances@.len(),
            to < old(self).balances@.len(),
        ensures
            final(self).wf(),
            final(self).balances@.len() == old(self).balances@.len(),
            move_post(*old(self), *final(self), from as int, to as int, amount, r),
    {
        let bal_from = self.balances[from];
        if bal_from < amount {
            return Err(Error::InsufficientBalance);
        }
        let ghost s0 = self.balances@;
        proof {
            lemma_sum_update(s0, from as int, (bal_from - amount) as u64);
        }
        self.balances.set(from, bal_from - amount);

        let ghost s1 = self.balances@;
        let bal_to = self.balances[to];
        proof {
            lemma_sum_elem(s1, to as int);
            lemma_sum_update(s1, to as int, (bal_to + amount) as u64);
        }
        self.balances.set(to, bal_to + amount);
        Ok(())
    }
}

/// Conservation of supply: in a well-formed ledger — and every ledger
/// operation both requires and re-establishes well-formedness — the
/// balances, custody pools included, sum to exactly the issued amount.
pub proof fn lemma_supply_conservation(l: Ledger)
    requires
        l.wf(),
    ensures
        sum(l.balances@) == l.issued as int,
{
}

} // verus!
