use vstd::prelude::*;

verus! {

/// An account of the chain.
pub type AccountId = u64;

/// An amount of the chain's currency.
pub type Balance = u128;

/// A block height.
pub type BlockNumber = u32;

/// A 256-bit hash value; kitty identifiers and DNA both have this shape.
pub type Hash256 = [u8; 32];

/// The gender of a kitty.
#[derive(Clone, Copy, Debug, PartialEq, Eq, Structural)]
pub enum Gender {
    Male,
    Female,
}

impl Default for Gender {
    fn default() -> (g: Self)
        ensures
            g == Gender::Male,
    {
        Gender::Male
    }
}

/// A kitty: its DNA, the price it is offered at (none when it is not for
/// sale), its gender and its owner.
#[derive(Clone, Copy, Debug, PartialEq, Eq)]
pub struct Kitty {
    pub dna: Hash256,
    pub price: Option<Balance>,
    pub gender: Gender,
    pub owner: AccountId,
}

impl Kitty {
    /// A kitty with the given DNA and owner, not for sale, of the default
    /// gender.
    pub fn new(dna: Hash256, owner: AccountId) -> (k: Kitty)
        ensures
            k == (Kitty { dna, price: None, gender: Gender::Male, owner }),
    {
        Kitty { dna, price: None, gender: Gender::default(), owner }
    }
}

/// The index that the SCALE encoding gives a gender.
pub open spec fn gender_index(g: Gender) -> u8 {
    match g {
        Gender::Male => 0,
        Gender::Female => 1,
    }
}

impl Gender {
    /// The index that the SCALE encoding gives this gender.
    pub fn index(&self) -> (r: u8)
        ensures
            r == gender_index(*self),
    {
        match self {
            Gender::Male => 0,
            Gender::Female => 1,
        }
    }
}

/// The reasons the registry refuses a request.
#[derive(Clone, Copy, Debug, PartialEq, Eq, Structural)]
pub enum Error {
    /// The counter of minted kitties would overflow.
    KittyCounterOverflow,
    /// The account already owns the most kitties it may own.
    ExceedMaxKittyOwned,
    /// The buyer already owns the kitty.
    BuyerIsKittyOwner,
    /// A kitty cannot be transferred to its owner.
    TransferToSelf,
    /// No kitty has the given identifier.
    KittyNotExist,
    /// The caller does not own the kitty.
    NoKittyOwner,
    /// The kitty has no asking price.
    KittyNotForSale,
    /// The bid is below the asking price.
    KittyBidPriceToLow,
    /// The buyer's free balance is below the bid.
    NotEnoughBalance,
    /// A kitty with the same identifier already exists.
    KittyIdExists,
    /// A kitty cannot be bred with itself.
    SameKittyId,
}

/// Why a call was refused: a bad origin, a refusal of the registry, or a
/// refusal of the currency when paying.
#[derive(Clone, Copy, Debug, PartialEq, Eq, Structural)]
pub enum DispatchError {
    BadOrigin,
    Module(Error),
    Currency,
}

/// Who makes a call: the root, a signed account, or nobody.
#[derive(Clone, Copy, Debug, PartialEq, Eq, Structural)]
pub enum Origin {
    Root,
    Signed(AccountId),
    Unsigned,
}

/// What a successful call reports.
#[derive(Clone, Copy, Debug, PartialEq, Eq)]
pub enum Event {
    /// A kitty was created: (owner, kitty).
    Created(AccountId, Hash256),
    /// A kitty's price was set: (owner, kitty, price).
    PriceSet(AccountId, Hash256, Option<Balance>),
    /// A kitty changed hands: (from, to, kitty).
    Transferred(AccountId, AccountId, Hash256),
    /// A kitty was bought: (buyer, seller, kitty, price paid).
    Bought(AccountId, AccountId, Hash256, Balance),
    /// A kitty was bred: (owner, kitty).
    Breeded(AccountId, Hash256),
}

/// The values that the chain's randomness and clock give a call: the random
/// value for the subject "dna", the one for the subject "gender", and the
/// current block number.
#[derive(Clone, Copy, Debug, PartialEq, Eq)]
pub struct Entropy {
    pub dna_random: Hash256,
    pub gender_random: Hash256,
    pub block_number: BlockNumber,
}

/// A payment that a purchase asks for: `amount` from `buyer` to `seller`
/// for the kitty `kitty_id`.
#[derive(Clone, Copy, Debug, PartialEq, Eq)]
pub struct Payment {
    pub buyer: AccountId,
    pub seller: AccountId,
    pub kitty_id: Hash256,
    pub amount: Balance,
}

/// What a signed origin is signed by; any other origin is refused.
pub open spec fn signer_of(origin: Origin) -> Result<AccountId, DispatchError> {
    match origin {
        Origin::Signed(who) => Ok(who),
        _ => Err(DispatchError::BadOrigin),
    }
}

/// The account that signed `origin`, or `BadOrigin`.
pub fn ensure_signed(origin: Origin) -> (r: Result<AccountId, DispatchError>)
    ensures
        r == signer_of(origin),
{
    match origin {
        Origin::Signed(who) => Ok(who),
        _ => Err(DispatchError::BadOrigin),
    }
}

/// Whether two hashes are equal, byte by byte.
pub fn hash_eq(a: &Hash256, b: &Hash256) -> (r: bool)
    ensures
        r == (*a == *b),
{
    broadcast use vstd::array::group_array_axioms;
    let mut i: usize = 0;
    while i < 32
        invariant
            i <= 32,
            forall|j: int| 0 <= j < i ==> a[j] == b[j],
        decreases 32 - i,
    {
        if a[i] != b[i] {
            return false;
        }
        i = i + 1;
    }
    assert(*a =~= *b);
    true
}

} // verus!
