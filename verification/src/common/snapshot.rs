//! Snapshots of protocol state, assembled from what was read from the token
//! contracts and the router, and the readings the invariant checks take.
use vstd::prelude::*;
use crate::common::constants::RAY;

verus! {

/// What was read for one asset when a snapshot was taken.
#[derive(Clone, Copy, Debug)]
pub struct AssetReading {
    /// Total supply of the asset's aToken
    pub a_token_supply: i128,
    /// Total supply of the asset's debt token
    pub debt_supply: i128,
    /// Underlying held by the aToken contract
    pub pool_balance: i128,
    /// Underlying held by the treasury
    pub treasury_balance: i128,
    /// The price the target last set for the asset
    pub price: u128,
    /// Liquidity and variable borrow index, where the reserve query succeeded
    pub indices: Option<(u128, u128)>,
}

/// What was read for one user when a snapshot was taken.
#[derive(Clone, Debug)]
pub struct UserReading {
    /// aToken balance per asset
    pub collateral: Vec<i128>,
    /// Debt-token balance per asset
    pub debt: Vec<i128>,
    /// Underlying balance per asset
    pub underlying: Vec<i128>,
    /// Health factor, where the account query succeeded
    pub health_factor: Option<u128>,
}

/// Reserve data the router reports, with the configuration fields read out.
#[derive(Clone, Copy, Debug, PartialEq, Eq, Structural)]
pub struct ReserveReading {
    pub liquidity_index: u128,
    pub variable_borrow_index: u128,
    pub current_liquidity_rate: u128,
    pub current_variable_borrow_rate: u128,
    pub ltv: u128,
    pub liquidation_threshold: u128,
    pub liquidation_bonus: u128,
    pub reserve_factor: u128,
    pub supply_cap: u128,
    pub borrow_cap: u128,
}

/// Account data the router reports for a user.
#[derive(Clone, Copy, Debug, PartialEq, Eq, Structural)]
pub struct AccountReading {
    pub health_factor: u128,
    pub ltv: u128,
    pub total_collateral_base: u128,
    pub total_debt_base: u128,
}

/// Protocol state at one moment: per-asset totals and per-user balances
/// (indexed user first, then asset).
#[derive(Clone, Debug)]
pub struct ProtocolSnapshot {
    pub total_supply: Vec<i128>,
    pub total_debt: Vec<i128>,
    pub user_collateral: Vec<Vec<i128>>,
    pub user_debt: Vec<Vec<i128>>,
    pub user_underlying: Vec<Vec<i128>>,
    pub treasury_balances: Vec<i128>,
    pub timestamp: u64,
    pub liquidity_indices: Vec<u128>,
    pub borrow_indices: Vec<u128>,
    pub available_liquidity: Vec<i128>,
    pub protocol_reserves: Vec<i128>,
    pub prices: Vec<u128>,
    pub health_factors: Vec<u128>,
}

/// A table with `rows` rows of `cols` entries each.
pub open spec fn table_shaped(t: Seq<Vec<i128>>, rows: nat, cols: nat) -> bool {
    &&& t.len() == rows
    &&& forall|j: int| 0 <= j < rows ==> (#[trigger] t[j])@.len() == cols
}

/// What the aToken contract holds beyond what depositors are owed net of
/// debt: `pool - (supply - debt)`.
pub open spec fn reserves_of(r: AssetReading) -> int {
    r.pool_balance - (r.a_token_supply - r.debt_supply)
}

/// Whether the reserve computation fits in i128 for a reading.
pub open spec fn reading_fits(r: AssetReading) -> bool {
    &&& i128::MIN <= r.a_token_supply - r.debt_supply <= i128::MAX
    &&& i128::MIN <= reserves_of(r) <= i128::MAX
}

impl ProtocolSnapshot {
    /// Number of assets the snapshot covers.
    pub open spec fn assets(&self) -> nat {
        self.total_supply@.len()
    }

    /// Number of users the snapshot covers.
    pub open spec fn users(&self) -> nat {
        self.user_collateral@.len()
    }

    /// Every per-asset vector covers the same assets, every per-user table
    /// the same users.
    pub open spec fn shaped(&self) -> bool {
        let n = self.assets();
        let m = self.users();
        &&& self.total_debt@.len() == n
        &&& self.treasury_balances@.len() == n
        &&& self.liquidity_indices@.len() == n
        &&& self.borrow_indices@.len() == n
        &&& self.available_liquidity@.len() == n
        &&& self.protocol_reserves@.len() == n
        &&& self.prices@.len() == n
        &&& table_shaped(self.user_collateral@, m, n)
        &&& table_shaped(self.user_debt@, m, n)
        &&& table_shaped(self.user_underlying@, m, n)
        &&& self.health_factors@.len() == m
    }

    /// User `j`'s aToken balance of asset `i`.
    pub open spec fn coll(&self, j: int, i: int) -> int {
        self.user_collateral@[j]@[i] as int
    }

    /// User `j`'s debt of asset `i`.
    pub open spec fn debt(&self, j: int, i: int) -> int {
        self.user_debt@[j]@[i] as int
    }

    /// User `j`'s underlying balance of asset `i`.
    pub open spec fn under(&self, j: int, i: int) -> int {
        self.user_underlying@[j]@[i] as int
    }

    /// Assemble a snapshot from the readings of every asset and user: the
    /// protocol reserves of an asset are its pool balance less its aToken
    /// supply net of debt; an index that could not be read counts as RAY, a
    /// health factor that could not be read as `u128::MAX`.
    pub fn capture(assets: &Vec<AssetReading>, users: &Vec<UserReading>, timestamp: u64) -> (s: Self)
        requires
            forall|i: int| 0 <= i < assets@.len() ==> reading_fits(#[trigger] assets@[i]),
        ensures
            s.assets() == assets@.len(),
            s.users() == users@.len(),
            s.timestamp == timestamp,
            forall|i: int|
                #![trigger assets@[i]]
                0 <= i < assets@.len() ==> {
                    &&& s.total_supply@[i] == assets@[i].a_token_supply
                    &&& s.total_debt@[i] == assets@[i].debt_supply
                    &&& s.treasury_balances@[i] == assets@[i].treasury_balance
                    &&& s.available_liquidity@[i] == assets@[i].pool_balance
                    &&& s.prices@[i] == assets@[i].price
                    &&& s.protocol_reserves@[i] == reserves_of(assets@[i])
                    &&& s.liquidity_indices@[i] == (match assets@[i].indices {
                        Some(ix) => ix.0,
                        None => RAY,
                    })
                    &&& s.borrow_indices@[i] == (match assets@[i].indices {
                        Some(ix) => ix.1,
                        None => RAY,
                    })
                },
            forall|j: int|
                #![trigger users@[j]]
                0 <= j < users@.len() ==> {
                    &&& s.user_collateral@[j]@ == users@[j].collateral@
                    &&& s.user_debt@[j]@ == users@[j].debt@
                    &&& s.user_underlying@[j]@ == users@[j].underlying@
                    &&& s.health_factors@[j] == (match users@[j].health_factor {
                        Some(hf) => hf,
                        None => u128::MAX,
                    })
                },
            s.total_debt@.len() == assets@.len(),
            s.treasury_balances@.len() == assets@.len(),
            s.liquidity_indices@.len() == assets@.len(),
            s.borrow_indices@.len() == assets@.len(),
            s.available_liquidity@.len() == assets@.len(),
            s.protocol_reserves@.len() == assets@.len(),
            s.prices@.len() == assets@.len(),
            s.user_debt@.len() == users@.len(),
            s.user_underlying@.len() == users@.len(),
            s.health_factors@.len() == users@.len(),
    {
        let mut total_supply: Vec<i128> = Vec::new();
        let mut total_debt: Vec<i128> = Vec::new();
        let mut treasury_balances: Vec<i128> = Vec::new();
        let mut liquidity_indices: Vec<u128> = Vec::new();
        let mut borrow_indices: Vec<u128> = Vec::new();
        let mut available_liquidity: Vec<i128> = Vec::new();
        let mut protocol_reserves: Vec<i128> = Vec::new();
        let mut prices: Vec<u128> = Vec::new();
        let mut i: usize = 0;
        while i < assets.len()
            invariant
                i <= assets@.len(),
                forall|k: int| 0 <= k < assets@.len() ==> reading_fits(#[trigger] assets@[k]),
                total_supply@.len() == i,
                total_debt@.len() == i,
                treasury_balances@.len() == i,
                liquidity_indices@.len() == i,
                borrow_indices@.len() == i,
                available_liquidity@.len() == i,
                protocol_reserves@.len() == i,
                prices@.len() == i,
                forall|k: int|
                    #![trigger assets@[k]]
                    0 <= k < i ==> {
                        &&& total_supply@[k] == assets@[k].a_token_supply
                        &&& total_debt@[k] == assets@[k].debt_supply
                        &&& treasury_balances@[k] == assets@[k].treasury_balance
                        &&& available_liquidity@[k] == assets@[k].pool_balance
                        &&& prices@[k] == assets@[k].price
                        &&& protocol_reserves@[k] == reserves_of(assets@[k])
                        &&& liquidity_indices@[k] == (match assets@[k].indices {
                            Some(ix) => ix.0,
                            None => RAY,
                        })
                        &&& borrow_indices@[k] == (match assets@[k].indices {
                            Some(ix) => ix.1,
                            None => RAY,
                        })
                    },
            decreases assets@.len() - i,
        {
            let a = assets[i];
            proof {
                assert(reading_fits(assets@[i as int]));
            }
            total_supply.push(a.a_token_supply);
            total_debt.push(a.debt_supply);
            treasury_balances.push(a.treasury_balance);
            available_liquidity.push(a.pool_balance);
            prices.push(a.price);
            let expected_balance = a.a_token_supply - a.debt_supply;
            protocol_reserves.push(a.pool_balance - expected_balance);
            match a.indices {
                Some(ix) => {
                    liquidity_indices.push(ix.0);
                    borrow_indices.push(ix.1);
                },
                None => {
                    liquidity_indices.push(RAY);
                    borrow_indices.push(RAY);
                },
            }
            i = i + 1;
        }
        let mut user_collateral: Vec<Vec<i128>> = Vec::new();
        let mut user_debt: Vec<Vec<i128>> = Vec::new();
        let mut user_underlying: Vec<Vec<i128>> = Vec::new();
        let mut health_factors: Vec<u128> = Vec::new();
        let mut j: usize = 0;
        while j < users.len()
            invariant
                j <= users@.len(),
                user_collateral@.len() == j,
                user_debt@.len() == j,
                user_underlying@.len() == j,
                health_factors@.len() == j,
                forall|k: int|
                    #![trigger users@[k]]
                    0 <= k < j ==> {
                        &&& user_collateral@[k]@ == users@[k].collateral@
                        &&& user_debt@[k]@ == users@[k].debt@
                        &&& user_underlying@[k]@ == users@[k].underlying@
                        &&& health_factors@[k] == (match users@[k].health_factor {
                            Some(hf) => hf,
                            None => u128::MAX,
                        })
                    },
            decreases users@.len() - j,
        {
            let u = &users[j];
            user_collateral.push(copy_balances(&u.collateral));
            user_debt.push(copy_balances(&u.debt));
            user_underlying.push(copy_balances(&u.underlying));
            health_factors.push(
                match u.health_factor {
                    Some(hf) => hf,
                    None => u128::MAX,
                },
            );
            j = j + 1;
        }
        ProtocolSnapshot {
            total_supply,
            total_debt,
            user_collateral,
            user_debt,
            user_underlying,
            treasury_balances,
            timestamp,
            liquidity_indices,
            borrow_indices,
            available_liquidity,
            protocol_reserves,
            prices,
            health_factors,
        }
    }
}

/// An element-for-element copy of a balance vector.
pub fn copy_balances(v: &Vec<i128>) -> (r: Vec<i128>)
    ensures
        r@ == v@,
{
    let mut r: Vec<i128> = Vec::new();
    let mut k: usize = 0;
    while k < v.len()
        invariant
            k <= v@.len(),
            r@ == v@.subrange(0, k as int),
        decreases v@.len() - k,
    {
        r.push(v[k]);
        k = k + 1;
    }
    assert(r@ == v@.subrange(0, v@.len() as int));
    r
}

} // verus!
