//! Universe helpers driven by on-chain randomness: planet and mineral
//! generation, and the choice of a gateway's far end among the registered
//! players.
//!
//! The randomness itself is the chain's business: callers hand in the
//! 32-byte random hash they obtained, and the seed is read from its first
//! eight bytes.

use vstd::prelude::*;
use byteorder::{ByteOrder, LittleEndian};

verus! {

/// Number of planet types.
pub const MAX_PLANET_TYPES: u64 = 20;

/// Number of mineral types.
pub const MAX_MINERALS: u64 = 4;

/// Upper bound (exclusive) of a mineral proof.
pub const MAX_MINERAL_PROOF: u64 = 100;

/// A player's on-chain account.
#[derive(Clone, Copy, Debug, Eq)]
pub struct AccountId {
    pub bytes: [u8; 32],
}

impl PartialEq for AccountId {
    fn eq(&self, other: &AccountId) -> (r: bool) {
        let mut i: usize = 0;
        while i < 32
            invariant
                i <= 32,
                forall|k: int| 0 <= k < i ==> self.bytes@[k] == other.bytes@[k],
            decreases 32 - i,
        {
            if self.bytes[i] != other.bytes[i] {
                return false;
            }
            i = i + 1;
        }
        assert(self.bytes@ =~= other.bytes@);
        true
    }
}

impl vstd::std_specs::cmp::PartialEqSpecImpl for AccountId {
    open spec fn obeys_eq_spec() -> bool {
        true
    }

    open spec fn eq_spec(&self, other: &AccountId) -> bool {
        self.bytes@ == other.bytes@
    }
}

/// Accounts are equal exactly when their bytes are.
proof fn lemma_account_eq(a: AccountId, b: AccountId)
    ensures
        (a == b) == (a.bytes@ == b.bytes@),
{
    if a.bytes@ == b.bytes@ {
        assert(a.bytes =~= b.bytes);
    }
}

/// The value of eight bytes read least significant first.
pub open spec fn le_u64(b: Seq<u8>) -> int {
    b[0] + 256 * (b[1] + 256 * (b[2] + 256 * (b[3] + 256 * (b[4] + 256 * (b[5] + 256 * (b[6]
        + 256 * b[7]))))))
}

/// Relies on byteorder's `LittleEndian::read_u64`: the first eight bytes of
/// `buf`, least significant first. It panics on fewer than eight bytes.
#[verifier::external_body]
fn read_u64_le(buf: &[u8]) -> (r: u64)
    requires
        buf@.len() >= 8,
    ensures
        r as int == le_u64(buf@),
{
    LittleEndian::read_u64(buf)
}

/// The registered players of a universe, in registry order, which the seed
/// driven helpers draw from.
pub struct NewOmegaUniverse {
    players: Vec<AccountId>,
}

/// The player index a gateway of `caller` leads to, for a random seed: the
/// seed modulo the number of players, moved one up (or, at the end, one
/// down) if it lands on the caller.
pub open spec fn gateway_index(players: Seq<AccountId>, seed: int, caller: AccountId) -> int {
    let n = players.len() as int;
    let i = seed % n;
    if players[i] == caller {
        if i + 1 < n { i + 1 } else { i - 1 }
    } else {
        i
    }
}

impl View for NewOmegaUniverse {
    type V = Seq<AccountId>;

    closed spec fn view(&self) -> Seq<AccountId> {
        self.players@
    }
}

impl NewOmegaUniverse {
    /// A player is registered at most once.
    pub open spec fn well_formed(&self) -> bool {
        self@.no_duplicates()
    }

    /// A universe with these registered players.
    pub fn new(players: Vec<AccountId>) -> (r: Self)
        ensures
            r@ == players@,
    {
        NewOmegaUniverse { players }
    }

    /// Whether `caller` is a registered player.
    pub fn is_registered(&self, caller: AccountId) -> (r: bool)
        ensures
            r == self@.contains(caller),
    {
        let mut i: usize = 0;
        while i < self.players.len()
            invariant
                i <= self@.len(),
                forall|k: int| 0 <= k < i ==> self@[k] != caller,
            decreases self@.len() - i,
        {
            proof {
                lemma_account_eq(self@[i as int], caller);
            }
            if self.players[i] == caller {
                return true;
            }
            i = i + 1;
        }
        false
    }

    /// The random seed in a random hash of the chain.
    pub fn generate_random_seed(&self, random_hash: &[u8; 32]) -> (r: u64)
        ensures
            r as int == le_u64(random_hash@),
    {
        read_u64_le(random_hash.as_slice())
    }

    /// A random planet type, below `MAX_PLANET_TYPES`.
    pub fn generate_planet_type(&self, random_hash: &[u8; 32]) -> (r: u8)
        ensures
            r as int == le_u64(random_hash@) % MAX_PLANET_TYPES as int,
    {
        let seed: u64 = self.generate_random_seed(random_hash);
        (seed % MAX_PLANET_TYPES) as u8
    }

    /// A random mineral type, below `MAX_MINERALS`.
    pub fn generate_mineral_type(&self, random_hash: &[u8; 32]) -> (r: u8)
        ensures
            r as int == le_u64(random_hash@) % MAX_MINERALS as int,
    {
        let seed: u64 = self.generate_random_seed(random_hash);
        (seed % MAX_MINERALS) as u8
    }

    /// A random mineral proof, below 100.
    pub fn generate_mineral_proof(&self, random_hash: &[u8; 32]) -> (r: u8)
        ensures
            r as int == le_u64(random_hash@) % MAX_MINERAL_PROOF as int,
    {
        let seed: u64 = self.generate_random_seed(random_hash);
        (seed % MAX_MINERAL_PROOF) as u8
    }

    /// The player a new gateway of `caller` leads to, from the chain's
    /// random hash (drawn for the subject `[no_players % 100]`). None with
    /// fewer than two players; never the caller when players are unique.
    pub fn get_random_gateway_target(&self, caller: AccountId, random_hash: &[u8; 32]) -> (r:
        Option<AccountId>)
        ensures
            self@.len() < 2 ==> r is None,
            self@.len() >= 2 ==> r == Some(
                self@[gateway_index(self@, le_u64(random_hash@), caller)],
            ),
            self.well_formed() && r is Some ==> r->0 != caller,
    {
        let no_players: u64 = self.players.len() as u64;
        if no_players < 2 {
            return None;
        }
        let seed: u64 = self.generate_random_seed(random_hash);
        let random: u64 = seed % no_players;

        // One of (random, random - 1, random + 1) cannot be the caller
        let mut account: AccountId = self.players[random as usize];
        proof {
            lemma_account_eq(account, caller);
        }
        if account == caller {
            if random + 1 < no_players {
                account = self.players[(random + 1) as usize];
            } else {
                account = self.players[(random - 1) as usize];
            }
        }
        Some(account)
    }

    /// The smaller of two values.
    pub fn min(lhs: u32, rhs: u32) -> (r: u32)
        ensures
            r == if lhs < rhs { lhs } else { rhs },
    {
        if lhs < rhs {
            lhs
        } else {
            rhs
        }
    }
}

} // verus!
