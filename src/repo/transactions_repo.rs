//! The money ledger: append-only, and the source of the balance.
use vstd::prelude::*;
use vstd::string::*;
use crate::bounds::lemma_sum_fits_i128;
use crate::model::{CreateMoneyTransactionModel, MoneyTransactionModel};

verus! {

#[derive(Debug, Clone, Copy, PartialEq, Eq, Structural)]
pub enum MoneyTransactionError {
    InvalidAmount,
    OtherError,
}

impl MoneyTransactionError {
    pub open spec fn message(self) -> Seq<char> {
        match self {
            MoneyTransactionError::InvalidAmount => "Invalid transaction amount"@,
            MoneyTransactionError::OtherError => "Other database-related error"@,
        }
    }

    pub fn to_string(&self) -> (r: String)
        ensures
            r@ == self.message(),
    {
        match self {
            MoneyTransactionError::InvalidAmount => String::from_str("Invalid transaction amount"),
            MoneyTransactionError::OtherError => String::from_str("Other database-related error"),
        }
    }
}

/// What an entry does to the balance: plus its amount for a credit, minus
/// it for a debit.
pub open spec fn signed_amount(t: MoneyTransactionModel) -> int {
    if t.reduces_balance {
        -(t.amount as int)
    } else {
        t.amount as int
    }
}

/// The balance that a sequence of entries leaves.
pub open spec fn balance_of(s: Seq<MoneyTransactionModel>) -> int
    decreases s.len(),
{
    if s.len() == 0 {
        0
    } else {
        balance_of(s.drop_last()) + signed_amount(s.last())
    }
}

/// The sum of the credit amounts in `s`.
pub open spec fn credit_sum(s: Seq<MoneyTransactionModel>) -> int
    decreases s.len(),
{
    if s.len() == 0 {
        0
    } else {
        credit_sum(s.drop_last()) + if s.last().reduces_balance {
            0
        } else {
            s.last().amount as int
        }
    }
}

/// The sum of the debit amounts in `s`.
pub open spec fn debit_sum(s: Seq<MoneyTransactionModel>) -> int
    decreases s.len(),
{
    if s.len() == 0 {
        0
    } else {
        debit_sum(s.drop_last()) + if s.last().reduces_balance {
            s.last().amount as int
        } else {
            0
        }
    }
}

/// The balance of a ledger is its credits minus its debits; an empty
/// ledger holds nothing.
pub proof fn lemma_balance_is_credits_minus_debits(s: Seq<MoneyTransactionModel>)
    ensures
        balance_of(s) == credit_sum(s) - debit_sum(s),
        s.len() == 0 ==> balance_of(s) == 0,
    decreases s.len(),
{
    if s.len() > 0 {
        lemma_balance_is_credits_minus_debits(s.drop_last());
    }
}

/// The ledger `s` after appending each `(request, time)` of `items` in
/// turn, as `create` appends an accepted request.
pub open spec fn after_appends(
    s: Seq<MoneyTransactionModel>,
    items: Seq<(CreateMoneyTransactionModel, i64)>,
) -> Seq<MoneyTransactionModel>
    decreases items.len(),
{
    if items.len() == 0 {
        s
    } else {
        let before = after_appends(s, items.drop_last());
        before.push(entry_for(items.last().0, before.len(), items.last().1))
    }
}

/// The ledger is append-only: a run of successful appends adds exactly one
/// entry per append, and no entry already there ever changes.
pub proof fn lemma_append_only(
    s: Seq<MoneyTransactionModel>,
    items: Seq<(CreateMoneyTransactionModel, i64)>,
)
    ensures
        after_appends(s, items).len() == s.len() + items.len(),
        forall|i: int| 0 <= i < s.len() ==> #[trigger] after_appends(s, items)[i] == s[i],
    decreases items.len(),
{
    if items.len() > 0 {
        lemma_append_only(s, items.drop_last());
    }
}

/// A well-formed ledger: the amounts are never negative, and entry `i` has
/// the id `i + 1`, so that ids are unique and never the system id.
pub open spec fn ledger_wf(s: Seq<MoneyTransactionModel>) -> bool {
    forall|i: int| 0 <= i < s.len() ==> #[trigger] s[i].amount >= 0 && s[i].id == i + 1
}

/// The entry that the ledger stores for a request appended at position `pos`.
pub open spec fn entry_for(
    item: CreateMoneyTransactionModel,
    pos: nat,
    now: i64,
) -> MoneyTransactionModel {
    MoneyTransactionModel {
        id: (pos + 1) as u128,
        item_id: match item.item_id {
            Some(id) => id,
            None => 0,
        },
        amount: item.amount,
        reduces_balance: item.reduces_balance,
        created_at: Some(now),
        updated_at: Some(now),
    }
}

/// The append-only ledger of money movements, in the order of insertion.
pub struct TransactionsRepo {
    transactions: Vec<MoneyTransactionModel>,
}

impl View for TransactionsRepo {
    type V = Seq<MoneyTransactionModel>;

    closed spec fn view(&self) -> Seq<MoneyTransactionModel> {
        self.transactions@
    }
}

impl TransactionsRepo {
    pub open spec fn wf(&self) -> bool {
        ledger_wf(self@)
    }

    /// An empty ledger.
    pub fn new() -> (r: TransactionsRepo)
        ensures
            r@ == Seq::<MoneyTransactionModel>::empty(),
            r.wf(),
    {
        TransactionsRepo { transactions: Vec::new() }
    }

    /// Every entry, in the order of insertion.
    pub fn get_all(&self) -> (r: Vec<MoneyTransactionModel>)
        ensures
            r@ == self@,
    {
        self.transactions.clone()
    }

    /// The number of entries.
    pub fn len(&self) -> (r: usize)
        ensures
            r == self@.len(),
    {
        self.transactions.len()
    }

    /// Appends one money movement. A negative amount is refused and leaves
    /// the ledger as it was; any other request is stored at the end, with
    /// the next id and `now` as both timestamps.
    pub fn create(&mut self, item: CreateMoneyTransactionModel, now: i64) -> (r: Result<
        MoneyTransactionModel,
        MoneyTransactionError,
    >)
        requires
            old(self).wf(),
        ensures
            final(self).wf(),
            item.amount < 0 ==> r == Err::<MoneyTransactionModel, MoneyTransactionError>(
                MoneyTransactionError::InvalidAmount,
            ) && final(self)@ == old(self)@,
            item.amount >= 0 ==> r == Ok::<MoneyTransactionModel, MoneyTransactionError>(
                entry_for(item, old(self)@.len(), now),
            ) && final(self)@ == old(self)@.push(entry_for(item, old(self)@.len(), now)),
            r is Ok ==> final(self)@.len() == old(self)@.len() + 1,
            forall|i: int| 0 <= i < old(self)@.len() ==> #[trigger] final(self)@[i] == old(self)@[i],
    {
        if item.amount < 0 {
            return Err(MoneyTransactionError::InvalidAmount);
        }
        let pos = self.transactions.len();
        let entry = MoneyTransactionModel {
            id: pos as u128 + 1,
            item_id: match item.item_id {
                Some(id) => id,
                None => 0,
            },
            amount: item.amount,
            reduces_balance: item.reduces_balance,
            created_at: Some(now),
            updated_at: Some(now),
        };
        self.transactions.push(entry);
        proof {
            let s = self@;
            assert forall|i: int| 0 <= i < s.len() implies #[trigger] s[i].amount >= 0 && s[i].id
                == i + 1 by {
                if i < pos {
                    assert(s[i] == old(self)@[i]);
                }
            }
        }
        Ok(entry)
    }

    /// The sum of all credit amounts.
    pub fn total_earned(&self) -> (r: i128)
        ensures
            r == credit_sum(self@),
    {
        let mut total: i128 = 0;
        let mut i: usize = 0;
        while i < self.transactions.len()
            invariant
                i <= self@.len(),
                total == credit_sum(self@.subrange(0, i as int)),
                -(i * 0x8000_0000_0000_0000) <= total <= i * 0x8000_0000_0000_0000,
            decreases self@.len() - i,
        {
            let t = self.transactions[i];
            proof {
                lemma_sum_fits_i128((i + 1) as int);
                assert(self@.subrange(0, i + 1).drop_last() =~= self@.subrange(0, i as int));
            }
            if !t.reduces_balance {
                total = total + t.amount as i128;
            }
            i = i + 1;
        }
        proof {
            assert(self@.subrange(0, i as int) =~= self@);
        }
        total
    }

    /// The sum of all debit amounts.
    pub fn total_spent(&self) -> (r: i128)
        ensures
            r == debit_sum(self@),
    {
        let mut total: i128 = 0;
        let mut i: usize = 0;
        while i < self.transactions.len()
            invariant
                i <= self@.len(),
                total == debit_sum(self@.subrange(0, i as int)),
                -(i * 0x8000_0000_0000_0000) <= total <= i * 0x8000_0000_0000_0000,
            decreases self@.len() - i,
        {
            let t = self.transactions[i];
            proof {
                lemma_sum_fits_i128((i + 1) as int);
                assert(self@.subrange(0, i + 1).drop_last() =~= self@.subrange(0, i as int));
            }
            if t.reduces_balance {
                total = total + t.amount as i128;
            }
            i = i + 1;
        }
        proof {
            assert(self@.subrange(0, i as int) =~= self@);
        }
        total
    }

    /// The balance: credits minus debits over every entry, when it fits in
    /// an `i64`.
    pub fn get_available_balance(&self) -> (r: Result<i64, MoneyTransactionError>)
        ensures
            i64::MIN <= balance_of(self@) <= i64::MAX ==> r == Ok::<i64, MoneyTransactionError>(
                balance_of(self@) as i64,
            ),
            !(i64::MIN <= balance_of(self@) <= i64::MAX) ==> r == Err::<
                i64,
                MoneyTransactionError,
            >(MoneyTransactionError::OtherError),
            r matches Ok(b) ==> b == credit_sum(self@) - debit_sum(self@),
            self@.len() == 0 ==> r == Ok::<i64, MoneyTransactionError>(0),
    {
        proof {
            lemma_balance_is_credits_minus_debits(self@);
        }
        let mut total: i128 = 0;
        let mut i: usize = 0;
        while i < self.transactions.len()
            invariant
                i <= self@.len(),
                total == balance_of(self@.subrange(0, i as int)),
                -(i * 0x8000_0000_0000_0000) <= total <= i * 0x8000_0000_0000_0000,
            decreases self@.len() - i,
        {
            let t = self.transactions[i];
            proof {
                lemma_sum_fits_i128((i + 1) as int);
                assert(self@.subrange(0, i + 1).drop_last() =~= self@.subrange(0, i as int));
            }
            if t.reduces_balance {
                total = total - t.amount as i128;
            } else {
                total = total + t.amount as i128;
            }
            i = i + 1;
        }
        proof {
            assert(self@.subrange(0, i as int) =~= self@);
        }
        if total < i64::MIN as i128 || total > i64::MAX as i128 {
            Err(MoneyTransactionError::OtherError)
        } else {
            Ok(total as i64)
        }
    }
}

} // verus!
