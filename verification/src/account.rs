use vstd::prelude::*;

use crate::constants::MAX_TOKEN;
use crate::error::DiceError;

verus! {

/// An account identity. Identities are opaque handles minted by the host
/// chain; the ledger never inspects one, it only compares them for equality,
/// so they are modeled as plain integers.
pub type Pubkey = u64;

/// The process-wide asset whitelist: one administrator, a fixed table of
/// `MAX_TOKEN` slots, and the number of slots populated so far.
#[derive(Clone)]
pub struct GlobalPool {
    pub admin: Pubkey,
    pub token_address: Vec<Pubkey>,
    pub token_count: u64,
}

/// One step of the registry: what a `register` request does to the populated
/// prefix of the asset table, and what it returns.
pub open spec fn spec_register(
    assets: Seq<Pubkey>,
    admin: Pubkey,
    caller: Pubkey,
    mint: Pubkey,
) -> (Seq<Pubkey>, Result<u64, DiceError>) {
    if caller != admin {
        (assets, Err(DiceError::CannotAccess))
    } else if assets.contains(mint) {
        (assets, Ok(assets.len() as u64))
    } else if assets.len() < MAX_TOKEN as nat {
        (assets.push(mint), Ok((assets.len() + 1) as u64))
    } else {
        (assets, Err(DiceError::CapacityExceeded))
    }
}

/// In a duplicate-free sequence the only index holding `mint` is the one
/// `Seq::index_of` picks.
pub proof fn lemma_index_of_unique(s: Seq<Pubkey>, mint: Pubkey, i: int)
    requires
        s.no_duplicates(),
        0 <= i < s.len(),
        s[i] == mint,
    ensures
        s.index_of(mint) == i,
{
    assert(exists|j: int| 0 <= j < s.len() && s[j] == mint);
    let k = s.index_of(mint);
    if k != i {
        assert(s[i] != s[k]);
    }
}

/// The whitelist left by a whole sequence of registration requests, every
/// one made by the administrator, starting from `assets`.
pub open spec fn spec_register_all(assets: Seq<Pubkey>, admin: Pubkey, mints: Seq<Pubkey>) -> Seq<
    Pubkey,
>
    decreases mints.len(),
{
    if mints.len() == 0 {
        assets
    } else {
        spec_register_all(spec_register(assets, admin, admin, mints[0]).0, admin, mints.drop_first())
    }
}

/// Law: registering the same asset twice in a row leaves the whitelist
/// exactly as one registration does, whoever the caller is and however the
/// first attempt came out.
pub proof fn lemma_register_idempotent(
    assets: Seq<Pubkey>,
    admin: Pubkey,
    caller: Pubkey,
    mint: Pubkey,
)
    ensures
        spec_register(spec_register(assets, admin, caller, mint).0, admin, caller, mint).0
            == spec_register(assets, admin, caller, mint).0,
{
    let a1 = spec_register(assets, admin, caller, mint).0;
    if caller == admin && !assets.contains(mint) && assets.len() < MAX_TOKEN as nat {
        assert(a1[assets.len() as int] == mint);
        assert(a1.contains(mint));
    }
}

/// A full whitelist never changes again: every further registration is a
/// no-op or a capacity rejection.
pub proof fn lemma_register_all_full(assets: Seq<Pubkey>, admin: Pubkey, mints: Seq<Pubkey>)
    requires
        assets.len() == MAX_TOKEN as nat,
    ensures
        spec_register_all(assets, admin, mints) == assets,
    decreases mints.len(),
{
    if mints.len() > 0 {
        assert(spec_register(assets, admin, admin, mints[0]).0 == assets);
        lemma_register_all_full(assets, admin, mints.drop_first());
    }
}

/// Law: after any sequence of administrator registrations the whitelist is
/// still duplicate-free, and its length is the number of distinct assets
/// ever offered (those already listed plus those in the requests), capped at
/// `MAX_TOKEN`.
pub proof fn lemma_register_all_counts_distinct(
    assets: Seq<Pubkey>,
    admin: Pubkey,
    mints: Seq<Pubkey>,
)
    requires
        assets.no_duplicates(),
        assets.len() <= MAX_TOKEN as nat,
    ensures
        ({
            let result = spec_register_all(assets, admin, mints);
            let total = assets.to_set().union(mints.to_set());
            &&& result.no_duplicates()
            &&& result.len() <= MAX_TOKEN as nat
            &&& (total.len() <= MAX_TOKEN as nat ==> result.to_set() == total && result.len()
                == total.len())
            &&& (total.len() > MAX_TOKEN as nat ==> result.len() == MAX_TOKEN as nat)
        }),
    decreases mints.len(),
{
    broadcast use vstd::seq_lib::seq_to_set_is_finite;
    broadcast use vstd::set::group_set_axioms;

    let result = spec_register_all(assets, admin, mints);
    let total = assets.to_set().union(mints.to_set());
    if mints.len() == 0 {
        assert(result == assets);
        assert(total =~= assets.to_set());
        assets.unique_seq_to_set();
    } else {
        let mint = mints[0];
        let rest = mints.drop_first();
        let a1 = spec_register(assets, admin, admin, mint).0;
        assert(mints.to_set() =~= rest.to_set().insert(mint)) by {
            assert forall|x: Pubkey| mints.contains(x) implies rest.contains(x) || x == mint by {
                let i = choose|i: int| 0 <= i < mints.len() && mints[i] == x;
                if i > 0 {
                    assert(rest[i - 1] == x);
                }
            }
            assert forall|x: Pubkey| rest.contains(x) implies mints.contains(x) by {
                let i = choose|i: int| 0 <= i < rest.len() && rest[i] == x;
                assert(mints[i + 1] == x);
            }
            assert(mints.contains(mint));
        }
        if assets.contains(mint) {
            assert(a1 == assets);
            lemma_register_all_counts_distinct(assets, admin, rest);
            assert(total =~= assets.to_set().union(rest.to_set()));
        } else if assets.len() < MAX_TOKEN as nat {
            assert(a1 == assets.push(mint));
            assert(a1.no_duplicates()) by {
                assert(forall|i: int| 0 <= i < assets.len() ==> a1[i] == assets[i]);
                assert(a1[assets.len() as int] == mint);
            }
            assert(a1.to_set() =~= assets.to_set().insert(mint)) by {
                assert forall|x: Pubkey| a1.contains(x) implies assets.contains(x) || x == mint by {
                    let i = choose|i: int| 0 <= i < a1.len() && a1[i] == x;
                    if i < assets.len() {
                        assert(assets[i] == x);
                    }
                }
                assert forall|x: Pubkey| assets.contains(x) implies a1.contains(x) by {
                    let i = choose|i: int| 0 <= i < assets.len() && assets[i] == x;
                    assert(a1[i] == x);
                }
                assert(a1[assets.len() as int] == mint);
                assert(a1.contains(mint));
            }
            lemma_register_all_counts_distinct(a1, admin, rest);
            assert(a1.to_set().union(rest.to_set()) =~= total);
        } else {
            // Full, and `mint` is new: the request is rejected and the
            // whitelist stays full forever.
            assert(a1 == assets);
            lemma_register_all_full(assets, admin, mints);
            assert(result == assets);
            assets.unique_seq_to_set();
            assert(assets.to_set().insert(mint).subset_of(total)) by {
                assert(mints.contains(mint));
            }
            assert(assets.to_set().insert(mint).len() == MAX_TOKEN as nat + 1);
            vstd::set_lib::lemma_len_subset(assets.to_set().insert(mint), total);
        }
    }
}

/// Law: once the whitelist is full, registering any asset not already on it
/// fails with the capacity error, even for the administrator.
pub proof fn lemma_register_full_rejects_new(assets: Seq<Pubkey>, admin: Pubkey, mint: Pubkey)
    requires
        assets.len() == MAX_TOKEN as nat,
        !assets.contains(mint),
    ensures
        spec_register(assets, admin, admin, mint) == (
            assets,
            Err::<u64, DiceError>(DiceError::CapacityExceeded),
        ),
{
}

/// Law: starting from an empty whitelist, the count after any sequence of
/// administrator registrations is the number of distinct assets requested,
/// capped at `MAX_TOKEN`.
pub proof fn lemma_count_is_distinct_count(admin: Pubkey, mints: Seq<Pubkey>)
    ensures
        mints.to_set().len() <= MAX_TOKEN as nat ==> spec_register_all(
            Seq::empty(),
            admin,
            mints,
        ).len() == mints.to_set().len(),
        mints.to_set().len() > MAX_TOKEN as nat ==> spec_register_all(
            Seq::empty(),
            admin,
            mints,
        ).len() == MAX_TOKEN as nat,
{
    broadcast use vstd::seq_lib::seq_to_set_is_finite;
    broadcast use vstd::set::group_set_axioms;

    lemma_register_all_counts_distinct(Seq::empty(), admin, mints);
    assert(Seq::<Pubkey>::empty().to_set().union(mints.to_set()) =~= mints.to_set());
}

impl GlobalPool {
    /// The populated prefix of the asset table: the whitelist itself.
    pub open spec fn spec_assets(&self) -> Seq<Pubkey> {
        self.token_address@.take(self.token_count as int)
    }

    /// Well-formedness: a full-size table, a count within capacity, and no
    /// asset listed twice.
    pub open spec fn wf(&self) -> bool {
        &&& self.token_address@.len() == MAX_TOKEN as nat
        &&& self.token_count as nat <= MAX_TOKEN as nat
        &&& self.spec_assets().no_duplicates()
    }

    /// Whether `mint` is on the whitelist.
    pub open spec fn spec_registered(&self, mint: Pubkey) -> bool {
        self.spec_assets().contains(mint)
    }

    /// The slot `mint` occupies on the whitelist (meaningful only when
    /// `spec_registered` holds; unique because the whitelist has no
    /// duplicates).
    pub open spec fn spec_index_of(&self, mint: Pubkey) -> int {
        self.spec_assets().index_of(mint)
    }

    /// Linear scan for `mint` over the populated prefix of the table.
    /// Returns the first (and, duplicates being excluded, only) matching
    /// slot.
    pub fn index_of(&self, mint: Pubkey) -> (r: Option<usize>)
        requires
            self.wf(),
        ensures
            r is Some <==> self.spec_registered(mint),
            r matches Some(i) ==> {
                &&& i < self.token_count
                &&& self.spec_assets()[i as int] == mint
                &&& i as int == self.spec_index_of(mint)
            },
    {
        let count: usize = self.token_count as usize;
        let mut i: usize = 0;
        while i < count
            invariant
                self.wf(),
                count == self.token_count,
                i <= count,
                forall|j: int| 0 <= j < i ==> self.spec_assets()[j] != mint,
            decreases count - i,
        {
            if *self.token_address.get(i).unwrap() == mint {
                proof {
                    assert(self.spec_assets()[i as int] == mint);
                    assert(self.spec_registered(mint));
                    lemma_index_of_unique(self.spec_assets(), mint, i as int);
                }
                return Some(i);
            }
            i = i + 1;
        }
        None
    }

    /// Add `mint` to the whitelist. Only the administrator may do so; adding
    /// an asset that is already listed is a no-op that reports the current
    /// count; a new asset lands in the first free slot. The count never
    /// decreases, and any failure leaves the registry untouched.
    pub fn register(&mut self, caller: Pubkey, mint: Pubkey) -> (r: Result<u64, DiceError>)
        requires
            old(self).wf(),
        ensures
            final(self).wf(),
            final(self).admin == old(self).admin,
            final(self).token_count >= old(self).token_count,
            final(self).spec_assets() == spec_register(
                old(self).spec_assets(),
                old(self).admin,
                caller,
                mint,
            ).0,
            r == spec_register(old(self).spec_assets(), old(self).admin, caller, mint).1,
            r is Ok ==> final(self).token_count == r.unwrap(),
            r is Ok ==> final(self).spec_registered(mint),
            forall|m: Pubkey|
                old(self).spec_registered(m) ==> final(self).spec_registered(m),
            r is Err ==> *final(self) == *old(self),
            caller == old(self).admin && old(self).spec_registered(mint) ==> *final(self)
                == *old(self),
    {
        if caller != self.admin {
            return Err(DiceError::CannotAccess);
        }
        match self.index_of(mint) {
            Some(_) => Ok(self.token_count),
            None => {
                if self.token_count < MAX_TOKEN as u64 {
                    let idx: usize = self.token_count as usize;
                    self.token_address.set(idx, mint);
                    self.token_count = self.token_count + 1;
                    proof {
                        assert(self.spec_assets() =~= old(self).spec_assets().push(mint));
                        assert(self.spec_assets()[old(self).token_count as int] == mint);
                        assert forall|m: Pubkey|
                            old(self).spec_registered(m) implies self.spec_registered(m) by {
                            let i = choose|i: int|
                                0 <= i < old(self).spec_assets().len() && old(self).spec_assets()[i]
                                    == m;
                            assert(self.spec_assets()[i] == m);
                        }
                    }
                    Ok(self.token_count)
                } else {
                    Err(DiceError::CapacityExceeded)
                }
            },
        }
    }
}

/// A `MAX_TOKEN`-slot table holding `val` in every slot.
pub(crate) fn filled_u64(val: u64) -> (v: Vec<u64>)
    ensures
        v@.len() == MAX_TOKEN as nat,
        forall|i: int| 0 <= i < MAX_TOKEN as int ==> v@[i] == val,
{
    let mut v: Vec<u64> = Vec::new();
    let mut i: usize = 0;
    while i < MAX_TOKEN
        invariant
            i <= MAX_TOKEN,
            v@.len() == i as nat,
            forall|j: int| 0 <= j < i ==> v@[j] == val,
        decreases MAX_TOKEN - i,
    {
        v.push(val);
        i = i + 1;
    }
    v
}

/// One participant's custody record: the owner, a base-currency balance, and
/// a fixed table of per-asset balances. `token_amount[i]` is the balance of
/// `token_address[i]`; a slot index is the asset's slot in the registry, so
/// the two tables stay parallel to the whitelist.
#[derive(Clone)]
pub struct UserPool {
    pub user_address: Pubkey,
    pub token_address: Vec<Pubkey>,
    pub token_amount: Vec<u64>,
    pub sol_amount: u64,
}

impl UserPool {
    /// Well-formedness: both balance tables have exactly `MAX_TOKEN` slots.
    pub open spec fn wf(&self) -> bool {
        &&& self.token_address@.len() == MAX_TOKEN as nat
        &&& self.token_amount@.len() == MAX_TOKEN as nat
    }

    /// A fresh record for `owner`, holding `initial_base_deposit` of base
    /// currency and nothing else.
    pub fn initialize(owner: Pubkey, initial_base_deposit: u64) -> (r: UserPool)
        ensures
            r.wf(),
            r.user_address == owner,
            r.sol_amount == initial_base_deposit,
            forall|i: int| 0 <= i < MAX_TOKEN as int ==> r.token_address@[i] == 0,
            forall|i: int| 0 <= i < MAX_TOKEN as int ==> r.token_amount@[i] == 0,
    {
        UserPool {
            user_address: owner,
            token_address: filled_u64(0),
            token_amount: filled_u64(0),
            sol_amount: initial_base_deposit,
        }
    }

    /// Record a base-currency deposit: the new balance is the caller-claimed
    /// prior balance plus the deposit. Fails, leaving the record untouched,
    /// only when that sum is not representable.
    pub fn deposit_base(&mut self, ex_amount: u64, deposit_amount: u64) -> (r: Result<
        u64,
        DiceError,
    >)
        requires
            old(self).wf(),
        ensures
            final(self).wf(),
            r is Ok <==> ex_amount + deposit_amount <= u64::MAX,
            ex_amount + deposit_amount <= u64::MAX ==> {
                &&& r == Ok::<u64, DiceError>((ex_amount + deposit_amount) as u64)
                &&& final(self).sol_amount == ex_amount + deposit_amount
                &&& final(self).user_address == old(self).user_address
                &&& final(self).token_address == old(self).token_address
                &&& final(self).token_amount == old(self).token_amount
            },
            ex_amount + deposit_amount > u64::MAX ==> r == Err::<u64, DiceError>(
                DiceError::AmountOverflow,
            ) && *final(self) == *old(self),
    {
        match ex_amount.checked_add(deposit_amount) {
            Some(sum) => {
                self.sol_amount = sum;
                Ok(sum)
            },
            None => Err(DiceError::AmountOverflow),
        }
    }

    /// Record a base-currency withdrawal. Succeeds exactly when the
    /// caller-claimed prior balance strictly exceeds the amount (a drain to
    /// exactly zero is rejected); the new balance is the difference. Failure
    /// leaves the record untouched.
    pub fn withdraw_base(&mut self, ex_amount: u64, withdraw_amount: u64) -> (r: Result<
        u64,
        DiceError,
    >)
        requires
            old(self).wf(),
        ensures
            final(self).wf(),
            r is Ok <==> ex_amount > withdraw_amount,
            ex_amount > withdraw_amount ==> {
                &&& r == Ok::<u64, DiceError>((ex_amount - withdraw_amount) as u64)
                &&& final(self).sol_amount == ex_amount - withdraw_amount
                &&& final(self).user_address == old(self).user_address
                &&& final(self).token_address == old(self).token_address
                &&& final(self).token_amount == old(self).token_amount
            },
            ex_amount <= withdraw_amount ==> r == Err::<u64, DiceError>(DiceError::ExceedAmount)
                && *final(self) == *old(self),
    {
        if ex_amount > withdraw_amount {
            self.sol_amount = ex_amount - withdraw_amount;
            Ok(self.sol_amount)
        } else {
            Err(DiceError::ExceedAmount)
        }
    }

    /// Record an asset deposit into slot `index`: the slot is (re)labelled
    /// with the asset and its balance becomes the claimed prior balance plus
    /// the deposit. Fails, leaving the record untouched, only on overflow.
    pub fn deposit_asset(
        &mut self,
        index: usize,
        mint: Pubkey,
        ex_amount: u64,
        deposit_amount: u64,
    ) -> (r: Result<u64, DiceError>)
        requires
            old(self).wf(),
            index < MAX_TOKEN,
        ensures
            final(self).wf(),
            r is Ok <==> ex_amount + deposit_amount <= u64::MAX,
            ex_amount + deposit_amount <= u64::MAX ==> {
                &&& r == Ok::<u64, DiceError>((ex_amount + deposit_amount) as u64)
                &&& final(self).token_address@ == old(self).token_address@.update(
                    index as int,
                    mint,
                )
                &&& final(self).token_amount@ == old(self).token_amount@.update(
                    index as int,
                    (ex_amount + deposit_amount) as u64,
                )
                &&& final(self).sol_amount == old(self).sol_amount
                &&& final(self).user_address == old(self).user_address
            },
            ex_amount + deposit_amount > u64::MAX ==> r == Err::<u64, DiceError>(
                DiceError::AmountOverflow,
            ) && *final(self) == *old(self),
    {
        match ex_amount.checked_add(deposit_amount) {
            Some(sum) => {
                self.token_address.set(index, mint);
                self.token_amount.set(index, sum);
                Ok(sum)
            },
            None => Err(DiceError::AmountOverflow),
        }
    }

    /// Record an asset withdrawal from slot `index`, under the same strict
    /// balance check as `withdraw_base`. Failure leaves the record untouched.
    pub fn withdraw_asset(
        &mut self,
        index: usize,
        mint: Pubkey,
        ex_amount: u64,
        withdraw_amount: u64,
    ) -> (r: Result<u64, DiceError>)
        requires
            old(self).wf(),
            index < MAX_TOKEN,
        ensures
            final(self).wf(),
            r is Ok <==> ex_amount > withdraw_amount,
            ex_amount > withdraw_amount ==> {
                &&& r == Ok::<u64, DiceError>((ex_amount - withdraw_amount) as u64)
                &&& final(self).token_address@ == old(self).token_address@.update(
                    index as int,
                    mint,
                )
                &&& final(self).token_amount@ == old(self).token_amount@.update(
                    index as int,
                    (ex_amount - withdraw_amount) as u64,
                )
                &&& final(self).sol_amount == old(self).sol_amount
                &&& final(self).user_address == old(self).user_address
            },
            ex_amount <= withdraw_amount ==> r == Err::<u64, DiceError>(DiceError::ExceedAmount)
                && *final(self) == *old(self),
    {
        if ex_amount > withdraw_amount {
            let rest: u64 = ex_amount - withdraw_amount;
            self.token_address.set(index, mint);
            self.token_amount.set(index, rest);
            Ok(rest)
        } else {
            Err(DiceError::ExceedAmount)
        }
    }
}

/// A participant's asset table is aligned with the whitelist when every
/// populated slot carries exactly the asset the registry lists at that slot,
/// and every other slot still holds the zero identity it started with.
pub open spec fn aligned(slots: Seq<Pubkey>, assets: Seq<Pubkey>) -> bool {
    forall|i: int|
        0 <= i < slots.len() ==> slots[i] == 0 || (i < assets.len() && slots[i] == assets[i])
}

/// Law: deposits and withdrawals write an asset only at its own registry
/// slot, so a record aligned with the whitelist stays aligned.
pub proof fn lemma_slot_write_keeps_alignment(
    slots: Seq<Pubkey>,
    assets: Seq<Pubkey>,
    k: int,
    mint: Pubkey,
)
    requires
        aligned(slots, assets),
        0 <= k < assets.len(),
        k < slots.len(),
        assets[k] == mint,
    ensures
        aligned(slots.update(k, mint), assets),
{
}

/// Law: in a record aligned with a duplicate-free whitelist no asset occupies
/// two slots.
pub proof fn lemma_aligned_slots_unique(slots: Seq<Pubkey>, assets: Seq<Pubkey>)
    requires
        aligned(slots, assets),
        assets.no_duplicates(),
    ensures
        forall|i: int, j: int|
            0 <= i < slots.len() && 0 <= j < slots.len() && i != j && slots[i] != 0 ==> slots[i]
                != slots[j],
{
}

/// Law: registrations only append, so an asset keeps its whitelist slot for
/// the lifetime of the registry, and with it its slot in every record.
pub proof fn lemma_register_keeps_slots(
    assets: Seq<Pubkey>,
    admin: Pubkey,
    caller: Pubkey,
    mint: Pubkey,
    listed: Pubkey,
)
    requires
        assets.no_duplicates(),
        assets.contains(listed),
    ensures
        spec_register(assets, admin, caller, mint).0.index_of(listed) == assets.index_of(listed),
{
    let a1 = spec_register(assets, admin, caller, mint).0;
    let i = assets.index_of(listed);
    assert(exists|j: int| 0 <= j < assets.len() && assets[j] == listed);
    assert(0 <= i < assets.len() && assets[i] == listed);
    if a1 != assets {
        assert(a1 == assets.push(mint));
        assert(a1.no_duplicates()) by {
            assert(forall|j: int| 0 <= j < assets.len() ==> a1[j] == assets[j]);
            assert(a1[assets.len() as int] == mint);
        }
        assert(a1[i] == listed);
        lemma_index_of_unique(a1, listed, i);
    }
}

impl Default for UserPool {
    /// A zeroed record: no owner, no balances.
    fn default() -> (r: UserPool)
        ensures
            r.wf(),
            r.user_address == 0,
            r.sol_amount == 0,
            forall|i: int| 0 <= i < MAX_TOKEN as int ==> r.token_address@[i] == 0,
            forall|i: int| 0 <= i < MAX_TOKEN as int ==> r.token_amount@[i] == 0,
    {
        UserPool::initialize(0, 0)
    }
}

} // verus!
