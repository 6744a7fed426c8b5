//! An ERC-20 token: balances, allowances and the transfers between them.
//!
//! The contract's storage is the `Erc20` value; the account that calls a message is
//! passed to it as `caller`, and emitted events are appended to its event log.
use std::collections::HashMap;
use vstd::prelude::*;
use crate::dispatch::{AccountId, Balance};

verus! {

broadcast use vstd::std_specs::hash::group_hash_axioms;

/// Emitted when `value` tokens move from `from` to `to`.
#[derive(Clone, Copy, PartialEq, Eq, Structural, Debug)]
pub struct Transfer {
    pub from: AccountId,
    pub to: AccountId,
    pub value: Balance,
}

/// Emitted when `owner` allows `spender` to spend `value` of its tokens.
#[derive(Clone, Copy, PartialEq, Eq, Structural, Debug)]
pub struct Approval {
    pub owner: AccountId,
    pub spender: AccountId,
    pub value: Balance,
}

/// An event of the contract.
#[derive(Clone, Copy, PartialEq, Eq, Structural, Debug)]
pub enum Event {
    Transfer(Transfer),
    Approval(Approval),
}

/// Why a message failed.
#[derive(Clone, Copy, PartialEq, Eq, Structural, Debug)]
pub enum Error {
    /// The sender holds fewer tokens than it tries to move.
    InsufficientBalance,
    /// The caller may spend fewer of the owner's tokens than it tries to move.
    InsufficientAllowance,
}

/// The value stored for `who`, or 0 where nothing is stored.
pub open spec fn balance_in(m: Map<AccountId, Balance>, who: AccountId) -> Balance {
    if m.contains_key(who) {
        m[who]
    } else {
        0
    }
}

/// The sum of the balances of the accounts in `keys`.
pub open spec fn sum_of(keys: Set<AccountId>, m: Map<AccountId, Balance>) -> int
    decreases keys.len(),
    when keys.finite()
{
    if keys.len() == 0 {
        0
    } else {
        let k = keys.choose();
        balance_in(m, k) + sum_of(keys.remove(k), m)
    }
}

/// The sum of all balances held in `m`.
pub open spec fn total_balance(m: Map<AccountId, Balance>) -> int {
    sum_of(m.dom(), m)
}

/// The key under which the allowance of `spender` over `owner`'s tokens is stored.
pub open spec fn pair_key(owner: AccountId, spender: AccountId) -> u128 {
    (owner as int * 0x1_0000_0000_0000_0000 + spender as int) as u128
}

/// The contract's storage and event log, as mathematical values.
pub struct Erc20Model {
    pub total_supply: Balance,
    pub balances: Map<AccountId, Balance>,
    pub allowances: Map<(AccountId, AccountId), Balance>,
    pub events: Seq<Event>,
}

impl Erc20Model {
    /// The storage of a contract whose creator holds the whole supply.
    pub open spec fn initial(caller: AccountId, total_supply: Balance) -> Erc20Model {
        Erc20Model {
            total_supply,
            balances: Map::empty().insert(caller, total_supply),
            allowances: Map::empty(),
            events: Seq::empty(),
        }
    }

    /// The balance of `who` (0 for an account never credited).
    pub open spec fn balance_of(self, who: AccountId) -> Balance {
        balance_in(self.balances, who)
    }

    /// How many of `owner`'s tokens `spender` may move (0 if never approved).
    pub open spec fn allowance(self, owner: AccountId, spender: AccountId) -> Balance {
        if self.allowances.contains_key((owner, spender)) {
            self.allowances[(owner, spender)]
        } else {
            0
        }
    }

    /// The balances add up to the total supply.
    pub open spec fn supply_is_balanced(self) -> bool {
        &&& self.balances.dom().finite()
        &&& total_balance(self.balances) == self.total_supply
    }

    /// Crediting `to` with `value` after a successful debit of `from` does not overflow.
    pub open spec fn transfer_fits(self, from: AccountId, to: AccountId, value: Balance) -> bool {
        value <= self.balance_of(from) ==> self.balance_of(to) + value <= u128::MAX
    }

    /// Moving `value` tokens from `from` to `to`.
    pub open spec fn move_tokens(self, from: AccountId, to: AccountId, value: Balance) -> (
        Erc20Model,
        Result<(), Error>,
    ) {
        let balance_from = self.balance_of(from);
        let balance_to = self.balance_of(to);
        if value > balance_from {
            (self, Err(Error::InsufficientBalance))
        } else {
            (
                Erc20Model {
                    balances: self.balances.insert(from, (balance_from - value) as u128).insert(
                        to,
                        (balance_to + value) as u128,
                    ),
                    events: self.events.push(Event::Transfer(Transfer { from, to, value })),
                    ..self
                },
                Ok(()),
            )
        }
    }

    /// `caller` allows `spender` to move `value` of its tokens.
    pub open spec fn approve(self, caller: AccountId, spender: AccountId, value: Balance) -> (
        Erc20Model,
        Result<(), Error>,
    ) {
        (
            Erc20Model {
                allowances: self.allowances.insert((caller, spender), value),
                events: self.events.push(
                    Event::Approval(Approval { owner: caller, spender, value }),
                ),
                ..self
            },
            Ok(()),
        )
    }

    /// `caller` moves `value` of `from`'s tokens to `to`, spending its allowance.
    pub open spec fn transfer_from(
        self,
        caller: AccountId,
        from: AccountId,
        to: AccountId,
        value: Balance,
    ) -> (Erc20Model, Result<(), Error>) {
        let allowance = self.allowance(from, caller);
        if allowance < value {
            (self, Err(Error::InsufficientAllowance))
        } else {
            let spent = Erc20Model {
                allowances: self.allowances.insert((from, caller), (allowance - value) as u128),
                ..self
            };
            let (next, r) = spent.move_tokens(from, to, value);
            if r is Ok {
                (next, r)
            } else {
                (self, r)
            }
        }
    }
}

/// An ERC-20 token contract.
pub struct Erc20 {
    total_supply: Balance,
    balances: HashMap<AccountId, Balance>,
    allowances: HashMap<u128, Balance>,
    events: Vec<Event>,
}

impl View for Erc20 {
    type V = Erc20Model;

    closed spec fn view(&self) -> Erc20Model {
        Erc20Model {
            total_supply: self.total_supply,
            balances: self.balances@,
            allowances: Map::new(
                |p: (AccountId, AccountId)| self.allowances@.contains_key(pair_key(p.0, p.1)),
                |p: (AccountId, AccountId)| self.allowances@[pair_key(p.0, p.1)],
            ),
            events: self.events@,
        }
    }
}

proof fn lemma_pair_key_injective(a: AccountId, b: AccountId, c: AccountId, d: AccountId)
    requires
        pair_key(a, b) == pair_key(c, d),
    ensures
        a == c && b == d,
{
    assert(a as int * 0x1_0000_0000_0000_0000 + b as int <= u128::MAX) by (nonlinear_arith)
        requires
            a <= u64::MAX,
            b <= u64::MAX,
    ;
    assert(c as int * 0x1_0000_0000_0000_0000 + d as int <= u128::MAX) by (nonlinear_arith)
        requires
            c <= u64::MAX,
            d <= u64::MAX,
    ;
    assert(a == c && b == d) by (nonlinear_arith)
        requires
            a as int * 0x1_0000_0000_0000_0000 + b as int == c as int * 0x1_0000_0000_0000_0000
                + d as int,
            0 <= b < 0x1_0000_0000_0000_0000,
            0 <= d < 0x1_0000_0000_0000_0000,
    ;
}

/// The sum over a finite set may be split at any of its members.
proof fn lemma_sum_of_remove(keys: Set<AccountId>, m: Map<AccountId, Balance>, a: AccountId)
    requires
        keys.finite(),
        keys.contains(a),
    ensures
        sum_of(keys, m) == balance_in(m, a) + sum_of(keys.remove(a), m),
    decreases keys.len(),
{
    let k = keys.choose();
    if k != a {
        lemma_sum_of_remove(keys.remove(k), m, a);
        lemma_sum_of_remove(keys.remove(a), m, k);
        assert(keys.remove(k).remove(a) =~= keys.remove(a).remove(k));
    }
}

/// Sums over the same keys agree where the balances agree.
proof fn lemma_sum_of_agree(keys: Set<AccountId>, m1: Map<AccountId, Balance>, m2: Map<AccountId, Balance>)
    requires
        keys.finite(),
        forall|k: AccountId| keys.contains(k) ==> balance_in(m1, k) == balance_in(m2, k),
    ensures
        sum_of(keys, m1) == sum_of(keys, m2),
    decreases keys.len(),
{
    if keys.len() > 0 {
        let k = keys.choose();
        lemma_sum_of_agree(keys.remove(k), m1, m2);
    }
}

/// Storing `v` for `k` changes the total by `v` less what `k` held.
proof fn lemma_total_balance_insert(m: Map<AccountId, Balance>, k: AccountId, v: Balance)
    requires
        m.dom().finite(),
    ensures
        m.insert(k, v).dom().finite(),
        total_balance(m.insert(k, v)) == total_balance(m) - balance_in(m, k) + v,
{
    let m2 = m.insert(k, v);
    let d = m.dom();
    if d.contains(k) {
        assert(m2.dom() =~= d);
        lemma_sum_of_remove(d, m2, k);
        lemma_sum_of_remove(d, m, k);
        lemma_sum_of_agree(d.remove(k), m, m2);
    } else {
        assert(m2.dom() =~= d.insert(k));
        lemma_sum_of_remove(m2.dom(), m2, k);
        assert(m2.dom().remove(k) =~= d);
        lemma_sum_of_agree(d, m, m2);
    }
}

impl Erc20 {
    /// Creates the contract; the caller receives the whole supply.
    pub fn new(caller: AccountId, total_supply: Balance) -> (r: Self)
        ensures
            r@ == Erc20Model::initial(caller, total_supply),
            r@.supply_is_balanced(),
            r@.balance_of(caller) == total_supply,
    {
        let mut balances = HashMap::new();
        balances.insert(caller, total_supply);
        let r = Erc20 { total_supply, balances, allowances: HashMap::new(), events: Vec::new() };
        proof {
            assert(r@.allowances =~= Map::empty());
            assert(r@.balances =~= Map::empty().insert(caller, total_supply));
            let e = Map::<AccountId, Balance>::empty();
            assert(total_balance(e) == 0) by {
                assert(e.dom() =~= Set::empty());
            }
            lemma_total_balance_insert(e, caller, total_supply);
        }
        r
    }

    /// The total number of tokens.
    pub fn total_supply(&self) -> (r: Balance)
        ensures
            r == self@.total_supply,
    {
        self.total_supply
    }

    /// The balance of `who`.
    pub fn balance_of(&self, who: AccountId) -> (r: Balance)
        ensures
            r == self@.balance_of(who),
    {
        self.get_balance(&who)
    }

    /// How many of `owner`'s tokens `spender` may still move.
    pub fn allowance(&self, owner: AccountId, spender: AccountId) -> (r: Balance)
        ensures
            r == self@.allowance(owner, spender),
    {
        self.get_allowance(&owner, &spender)
    }

    /// The events emitted so far, oldest first.
    pub fn events(&self) -> (r: &Vec<Event>)
        ensures
            r@ == self@.events,
    {
        &self.events
    }

    /// Lets `spender` move up to `value` of the caller's tokens, replacing any earlier allowance.
    pub fn approve(&mut self, caller: AccountId, spender: AccountId, value: Balance) -> (r: Result<
        (),
        Error,
    >)
        ensures
            (final(self)@, r) == old(self)@.approve(caller, spender, value),
            r is Ok,
            final(self)@.allowance(caller, spender) == value,
            forall|owner: AccountId, other: AccountId|
                (owner, other) != (caller, spender) ==> #[trigger] final(self)@.allowance(owner, other)
                    == old(self)@.allowance(owner, other),
            final(self)@.balances == old(self)@.balances,
            final(self)@.total_supply == old(self)@.total_supply,
    {
        let key = Self::allowance_key(caller, spender);
        self.allowances.insert(key, value);
        self.events.push(Event::Approval(Approval { owner: caller, spender, value }));
        proof {
            let (post, _) = old(self)@.approve(caller, spender, value);
            assert forall|p: (AccountId, AccountId)|
                #![trigger self@.allowances.contains_key(p)]
                #![trigger post.allowances.contains_key(p)]
                self@.allowances.contains_key(p) == post.allowances.contains_key(p)
                && (self@.allowances.contains_key(p) ==> self@.allowances[p] == post.allowances[p]) by {
                if pair_key(p.0, p.1) == key {
                    lemma_pair_key_injective(p.0, p.1, caller, spender);
                }
            }
            assert(self@.allowances =~= post.allowances);
        }
        Ok(())
    }

    /// Moves `value` of the caller's tokens to `to`.
    pub fn transfer(&mut self, caller: AccountId, to: AccountId, value: Balance) -> (r: Result<
        (),
        Error,
    >)
        requires
            old(self)@.transfer_fits(caller, to, value),
        ensures
            (final(self)@, r) == old(self)@.move_tokens(caller, to, value),
            r is Err <==> value > old(self)@.balance_of(caller),
            r is Err ==> final(self)@ == old(self)@,
            r is Ok ==> final(self)@.balances == old(self)@.balances.insert(
                caller,
                (old(self)@.balance_of(caller) - value) as u128,
            ).insert(to, (old(self)@.balance_of(to) + value) as u128),
            final(self)@.allowances == old(self)@.allowances,
            final(self)@.total_supply == old(self)@.total_supply,
    {
        self.transfer_impl(&caller, &to, value)
    }

    /// Moves `value` of `from`'s tokens to `to` on `from`'s behalf, spending the caller's allowance.
    pub fn transfer_from(
        &mut self,
        caller: AccountId,
        from: AccountId,
        to: AccountId,
        value: Balance,
    ) -> (r: Result<(), Error>)
        requires
            value <= old(self)@.allowance(from, caller) ==> old(self)@.transfer_fits(from, to, value),
        ensures
            (final(self)@, r) == old(self)@.transfer_from(caller, from, to, value),
            r == Err::<(), Error>(Error::InsufficientAllowance) <==> value > old(self)@.allowance(from, caller),
            r == Err::<(), Error>(Error::InsufficientBalance) <==> value <= old(self)@.allowance(from, caller)
                && value > old(self)@.balance_of(from),
            r is Err ==> final(self)@ == old(self)@,
            r is Ok ==> final(self)@.allowance(from, caller) == old(self)@.allowance(from, caller) - value,
            r is Ok ==> forall|owner: AccountId, spender: AccountId|
                (owner, spender) != (from, caller) ==> #[trigger] final(self)@.allowance(owner, spender)
                    == old(self)@.allowance(owner, spender),
            r is Ok ==> final(self)@.balances == old(self)@.balances.insert(
                from,
                (old(self)@.balance_of(from) - value) as u128,
            ).insert(to, (old(self)@.balance_of(to) + value) as u128),
            final(self)@.total_supply == old(self)@.total_supply,
    {
        let allowance = self.get_allowance(&from, &caller);
        if allowance < value {
            return Err(Error::InsufficientAllowance);
        }
        if self.get_balance(&from) < value {
            return Err(Error::InsufficientBalance);
        }
        let key = Self::allowance_key(from, caller);
        self.allowances.insert(key, allowance - value);
        proof {
            let spent = Erc20Model {
                allowances: old(self)@.allowances.insert((from, caller), (allowance - value) as u128),
                ..old(self)@
            };
            assert forall|p: (AccountId, AccountId)|
                #![trigger self@.allowances.contains_key(p)]
                #![trigger spent.allowances.contains_key(p)]
                self@.allowances.contains_key(p) == spent.allowances.contains_key(p)
                && (self@.allowances.contains_key(p) ==> self@.allowances[p] == spent.allowances[p]) by {
                if pair_key(p.0, p.1) == key {
                    lemma_pair_key_injective(p.0, p.1, from, caller);
                }
            }
            assert(self@.allowances =~= spent.allowances);
            assert(self@ == spent);
        }
        self.transfer_impl(&from, &to, value)
    }

    /// The balance stored for `owner`, 0 if none.
    fn get_balance(&self, owner: &AccountId) -> (r: Balance)
        ensures
            r == self@.balance_of(*owner),
    {
        match self.balances.get(owner) {
            Some(b) => *b,
            None => 0,
        }
    }

    /// The allowance stored for `spender` over `owner`'s tokens, 0 if none.
    fn get_allowance(&self, owner: &AccountId, spender: &AccountId) -> (r: Balance)
        ensures
            r == self@.allowance(*owner, *spender),
    {
        let key = Self::allowance_key(*owner, *spender);
        match self.allowances.get(&key) {
            Some(a) => *a,
            None => 0,
        }
    }

    fn allowance_key(owner: AccountId, spender: AccountId) -> (r: u128)
        ensures
            r == pair_key(owner, spender),
    {
        assert(owner as int * 0x1_0000_0000_0000_0000 + spender as int <= u128::MAX) by (nonlinear_arith)
            requires
                owner <= u64::MAX,
                spender <= u64::MAX,
        ;
        (owner as u128) * 0x1_0000_0000_0000_0000 + (spender as u128)
    }

    fn transfer_impl(&mut self, from: &AccountId, to: &AccountId, value: Balance) -> (r: Result<
        (),
        Error,
    >)
        requires
            old(self)@.transfer_fits(*from, *to, value),
        ensures
            (final(self)@, r) == old(self)@.move_tokens(*from, *to, value),
            r is Err <==> value > old(self)@.balance_of(*from),
            r is Err ==> final(self)@ == old(self)@,
    {
        let balance_from = self.balance_of(*from);
        let balance_to = self.balance_of(*to);
        if value > balance_from {
            return Err(Error::InsufficientBalance);
        }
        self.balances.insert(*from, balance_from - value);
        self.balances.insert(*to, balance_to + value);
        self.events.push(Event::Transfer(Transfer { from: *from, to: *to, value }));
        proof {
            let (post, _) = old(self)@.move_tokens(*from, *to, value);
            assert(self@.balances =~= post.balances);
            assert(self@.allowances =~= post.allowances);
        }
        Ok(())
    }
}

/// A successful transfer between two distinct accounts keeps the balances adding up
/// to the total supply, and leaves the total supply itself unchanged.
pub proof fn law_transfer_conserves_supply(s: Erc20Model, from: AccountId, to: AccountId, value: Balance)
    requires
        s.supply_is_balanced(),
        s.transfer_fits(from, to, value),
        from != to,
    ensures
        s.move_tokens(from, to, value).0.supply_is_balanced(),
        s.move_tokens(from, to, value).0.total_supply == s.total_supply,
{
    if value <= s.balance_of(from) {
        let b1 = s.balances.insert(from, (s.balance_of(from) - value) as u128);
        lemma_total_balance_insert(s.balances, from, (s.balance_of(from) - value) as u128);
        lemma_total_balance_insert(b1, to, (s.balance_of(to) + value) as u128);
        assert(balance_in(b1, to) == s.balance_of(to));
    }
}

/// A transfer from an account to itself credits it with `value` on top of its balance:
/// the debit is overwritten by the credit computed from the balance read before it.
pub proof fn law_self_transfer_adds_value(s: Erc20Model, who: AccountId, value: Balance)
    requires
        s.transfer_fits(who, who, value),
        value <= s.balance_of(who),
    ensures
        s.move_tokens(who, who, value).0.balance_of(who) == s.balance_of(who) + value,
{
}

/// A successful `transfer_from` between two distinct accounts keeps the balances adding
/// up to the total supply.
pub proof fn law_transfer_from_conserves_supply(
    s: Erc20Model,
    caller: AccountId,
    from: AccountId,
    to: AccountId,
    value: Balance,
)
    requires
        s.supply_is_balanced(),
        value <= s.allowance(from, caller) ==> s.transfer_fits(from, to, value),
        from != to,
    ensures
        s.transfer_from(caller, from, to, value).0.supply_is_balanced(),
        s.transfer_from(caller, from, to, value).0.total_supply == s.total_supply,
{
    let allowance = s.allowance(from, caller);
    if allowance >= value {
        let spent = Erc20Model {
            allowances: s.allowances.insert((from, caller), (allowance - value) as u128),
            ..s
        };
        law_transfer_conserves_supply(spent, from, to, value);
    }
}

/// Approving changes no balance, and what `allowance` reads back afterwards is the
/// approved value, while every other allowance stays as it was.
pub proof fn law_approve_then_allowance(
    s: Erc20Model,
    caller: AccountId,
    spender: AccountId,
    value: Balance,
    owner: AccountId,
    other: AccountId,
)
    ensures
        s.approve(caller, spender, value).0.allowance(caller, spender) == value,
        (owner, other) != (caller, spender) ==> s.approve(caller, spender, value).0.allowance(owner, other)
            == s.allowance(owner, other),
        s.approve(caller, spender, value).0.balances == s.balances,
        s.supply_is_balanced() ==> s.approve(caller, spender, value).0.supply_is_balanced(),
{
}

/// A successful transfer moves exactly `value` from `from` to `to` and leaves every
/// other balance as it was.
pub proof fn law_transfer_moves_value(
    s: Erc20Model,
    from: AccountId,
    to: AccountId,
    value: Balance,
    other: AccountId,
)
    requires
        s.transfer_fits(from, to, value),
        value <= s.balance_of(from),
        from != to,
    ensures
        s.move_tokens(from, to, value).0.balance_of(from) == s.balance_of(from) - value,
        s.move_tokens(from, to, value).0.balance_of(to) == s.balance_of(to) + value,
        other != from && other != to ==> s.move_tokens(from, to, value).0.balance_of(other)
            == s.balance_of(other),
{
}

/// A successful `transfer_from` spends `value` of the caller's allowance over `from`'s
/// tokens and touches no other allowance; it debits `from` and credits `to` with `value`
/// and leaves every other balance as it was.
pub proof fn law_transfer_from_spends_only_its_allowance(
    s: Erc20Model,
    caller: AccountId,
    from: AccountId,
    to: AccountId,
    value: Balance,
    owner: AccountId,
    spender: AccountId,
    other: AccountId,
)
    requires
        s.transfer_fits(from, to, value),
        s.transfer_from(caller, from, to, value).1 is Ok,
    ensures
        value <= s.allowance(from, caller),
        value <= s.balance_of(from),
        s.transfer_from(caller, from, to, value).0.allowance(from, caller) == s.allowance(from, caller)
            - value,
        (owner, spender) != (from, caller) ==> s.transfer_from(caller, from, to, value).0.allowance(
            owner,
            spender,
        ) == s.allowance(owner, spender),
        from != to ==> s.transfer_from(caller, from, to, value).0.balance_of(from) == s.balance_of(from)
            - value,
        from != to ==> s.transfer_from(caller, from, to, value).0.balance_of(to) == s.balance_of(to)
            + value,
        other != from && other != to ==> s.transfer_from(caller, from, to, value).0.balance_of(other)
            == s.balance_of(other),
{
}

/// A message that changes the contract's storage.
pub enum Message {
    Approve { caller: AccountId, spender: AccountId, value: Balance },
    Transfer { caller: AccountId, to: AccountId, value: Balance },
    TransferFrom { caller: AccountId, from: AccountId, to: AccountId, value: Balance },
}

impl Erc20Model {
    /// The storage after `message`, whether it succeeds or fails.
    pub open spec fn apply(self, message: Message) -> Erc20Model {
        match message {
            Message::Approve { caller, spender, value } => self.approve(caller, spender, value).0,
            Message::Transfer { caller, to, value } => self.move_tokens(caller, to, value).0,
            Message::TransferFrom { caller, from, to, value } => self.transfer_from(
                caller,
                from,
                to,
                value,
            ).0,
        }
    }

    /// The storage after `messages`, in order.
    pub open spec fn apply_all(self, messages: Seq<Message>) -> Erc20Model
        decreases messages.len(),
    {
        if messages.len() == 0 {
            self
        } else {
            self.apply_all(messages.drop_last()).apply(messages.last())
        }
    }
}

/// The total supply is the one the contract was created with, whatever messages it
/// received since.
pub proof fn law_total_supply_constant(caller: AccountId, total_supply: Balance, messages: Seq<Message>)
    ensures
        Erc20Model::initial(caller, total_supply).apply_all(messages).total_supply == total_supply,
    decreases messages.len(),
{
    if messages.len() > 0 {
        law_total_supply_constant(caller, total_supply, messages.drop_last());
    }
}

} // verus!
