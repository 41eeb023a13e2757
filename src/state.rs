use vstd::prelude::*;
use crate::key::Key;

verus! {

/// The currency a payment link asks for.
#[derive(Clone, Copy, Debug, PartialEq, Eq, Structural)]
pub enum Currency {
    Sol,
    Usdc,
}

/// The one profile record of an owner: who owns it and the index the next
/// payment link will get.
#[derive(Clone, Copy, Debug)]
pub struct UserProfileAccount {
    pub authority: Key,
    pub last_payment_link: u8,
}

/// One payment link of an owner.
#[derive(Clone, Copy, Debug)]
pub struct PaymentLinkAccount {
    pub authority: Key,
    pub amount: u64,
    pub currency: Currency,
    pub reference: Key,
    pub idx: u8,
}

/// A stored record; the variant is its type discriminator.
#[derive(Clone, Copy, Debug)]
pub enum AccountData {
    Profile(UserProfileAccount),
    PaymentLink(PaymentLinkAccount),
}

/// Why an operation was refused. A refused operation changes nothing.
#[derive(Clone, Copy, Debug, PartialEq, Eq, Structural)]
pub enum ProgramError {
    /// A record already occupies the address a new record would take.
    AddressAlreadyInUse,
    /// No record lives at the address.
    RecordNotFound,
    /// The record at the address is of the other type.
    TypeMismatch,
    /// The caller is not the record's authority.
    Unauthorized,
    /// The link counter of the profile would pass 255.
    CounterOverflow,
    /// No program address could be derived from the seeds.
    AddressDerivationError,
}

/// What the store holds at one address: the record and the lamports deposited
/// for its space.
#[derive(Clone, Copy, Debug)]
pub struct StoredAccount {
    pub address: Key,
    pub data: AccountData,
    pub lamports: u64,
}

/// The store seen as a map from address to record and deposit.
pub type StoreMap = Map<Seq<u8>, (AccountData, u64)>;

} // verus!
