use vstd::prelude::*;
use crate::address::{payment_link_address, payment_link_address_of, profile_address, profile_address_of};
use crate::key::Key;
use crate::state::{AccountData, Currency, PaymentLinkAccount, ProgramError, StoreMap, UserProfileAccount};
use crate::store::{open_payment_link_spec, open_profile_spec, AccountStore};

verus! {

/// The fields of a new payment link.
#[derive(Clone, Copy, Debug)]
pub struct PaymentLinkCreateInput {
    pub amount: u64,
    pub currency: Currency,
    pub reference: Key,
}

/// A partial update of a payment link: each field that is `None` stays as it is.
#[derive(Clone, Copy, Debug)]
pub struct UpdatePaymentLinkInput {
    pub amount: Option<u64>,
    pub currency: Option<Currency>,
}

/// A request to create the caller's profile; the caller pays `lamports` as the
/// deposit for the new record.
#[derive(Clone, Copy, Debug)]
pub struct CreateUserProfile {
    pub authority: Key,
    pub lamports: u64,
}

/// A request to create a payment link of the caller; the caller pays
/// `lamports` as the deposit for the new record.
#[derive(Clone, Copy, Debug)]
pub struct CreatePaymentLink {
    pub authority: Key,
    pub lamports: u64,
}

/// A request to update a payment link of the caller.
#[derive(Clone, Copy, Debug)]
pub struct UpdatePaymentLink {
    pub authority: Key,
}

/// A request to remove a payment link of the caller.
#[derive(Clone, Copy, Debug)]
pub struct RemovePaymentLink {
    pub authority: Key,
}

/// The profile a new owner starts with.
pub open spec fn fresh_profile(owner: Key) -> AccountData {
    AccountData::Profile(UserProfileAccount { authority: owner, last_payment_link: 0 })
}

/// The payment link that `input` describes, with index `idx`.
pub open spec fn new_payment_link(owner: Key, idx: u8, input: PaymentLinkCreateInput) -> PaymentLinkAccount {
    PaymentLinkAccount {
        authority: owner,
        amount: input.amount,
        currency: input.currency,
        reference: input.reference,
        idx,
    }
}

/// `link` with the fields that `input` sets replaced.
pub open spec fn patched(link: PaymentLinkAccount, input: UpdatePaymentLinkInput) -> PaymentLinkAccount {
    PaymentLinkAccount {
        amount: match input.amount {
            Some(a) => a,
            None => link.amount,
        },
        currency: match input.currency {
            Some(c) => c,
            None => link.currency,
        },
        ..link
    }
}

/// Result and new store of `create_user_profile` on store `m` of program `pid`.
pub open spec fn create_user_profile_spec(pid: Seq<u8>, m: StoreMap, ctx: CreateUserProfile) -> (
    Result<(), ProgramError>,
    StoreMap,
) {
    match profile_address_of(pid, ctx.authority@) {
        None => (Err(ProgramError::AddressDerivationError), m),
        Some(a) => if m.contains_key(a) {
            (Err(ProgramError::AddressAlreadyInUse), m)
        } else {
            (Ok(()), m.insert(a, (fresh_profile(ctx.authority), ctx.lamports)))
        },
    }
}

/// Result and new store of `create_payment_link`: the caller's profile must
/// exist and name the caller; the link takes the profile's counter as its
/// index, at a free address, and the counter moves on by one unless it is 255.
pub open spec fn create_payment_link_spec(
    pid: Seq<u8>,
    m: StoreMap,
    ctx: CreatePaymentLink,
    input: PaymentLinkCreateInput,
) -> (Result<(), ProgramError>, StoreMap) {
    match profile_address_of(pid, ctx.authority@) {
        None => (Err(ProgramError::AddressDerivationError), m),
        Some(pa) => match open_profile_spec(m, pa) {
            Err(e) => (Err(e), m),
            Ok(p) => if p.authority@ != ctx.authority@ {
                (Err(ProgramError::Unauthorized), m)
            } else {
                match payment_link_address_of(pid, ctx.authority@, p.last_payment_link) {
                    None => (Err(ProgramError::AddressDerivationError), m),
                    Some(la) => if m.contains_key(la) {
                        (Err(ProgramError::AddressAlreadyInUse), m)
                    } else if p.last_payment_link == 255 {
                        (Err(ProgramError::CounterOverflow), m)
                    } else {
                        let link = new_payment_link(ctx.authority, p.last_payment_link, input);
                        let profile = UserProfileAccount {
                            last_payment_link: (p.last_payment_link + 1) as u8,
                            ..p
                        };
                        (
                            Ok(()),
                            m.insert(la, (AccountData::PaymentLink(link), ctx.lamports)).insert(
                                pa,
                                (AccountData::Profile(profile), m[pa].1),
                            ),
                        )
                    },
                }
            },
        },
    }
}

/// Result and new store of `update_payment_link`.
pub open spec fn update_payment_link_spec(
    pid: Seq<u8>,
    m: StoreMap,
    ctx: UpdatePaymentLink,
    idx: u8,
    input: UpdatePaymentLinkInput,
) -> (Result<(), ProgramError>, StoreMap) {
    match payment_link_address_of(pid, ctx.authority@, idx) {
        None => (Err(ProgramError::AddressDerivationError), m),
        Some(la) => match open_payment_link_spec(m, la) {
            Err(e) => (Err(e), m),
            Ok(l) => if l.authority@ != ctx.authority@ {
                (Err(ProgramError::Unauthorized), m)
            } else {
                (Ok(()), m.insert(la, (AccountData::PaymentLink(patched(l, input)), m[la].1)))
            },
        },
    }
}

/// Result and new store of `remove_payment_link`: both the caller's profile
/// and the link must exist and name the caller; the link's deposit is handed
/// back.
pub open spec fn remove_payment_link_spec(pid: Seq<u8>, m: StoreMap, ctx: RemovePaymentLink, idx: u8) -> (
    Result<u64, ProgramError>,
    StoreMap,
) {
    match profile_address_of(pid, ctx.authority@) {
        None => (Err(ProgramError::AddressDerivationError), m),
        Some(pa) => match open_profile_spec(m, pa) {
            Err(e) => (Err(e), m),
            Ok(p) => if p.authority@ != ctx.authority@ {
                (Err(ProgramError::Unauthorized), m)
            } else {
                match payment_link_address_of(pid, ctx.authority@, idx) {
                    None => (Err(ProgramError::AddressDerivationError), m),
                    Some(la) => match open_payment_link_spec(m, la) {
                        Err(e) => (Err(e), m),
                        Ok(l) => if l.authority@ != ctx.authority@ {
                            (Err(ProgramError::Unauthorized), m)
                        } else {
                            (Ok(m[la].1), m.remove(la))
                        },
                    },
                }
            },
        },
    }
}

/// Creates the caller's profile with a link counter of 0.
pub fn create_user_profile(store: &mut AccountStore, ctx: CreateUserProfile) -> (r: Result<(), ProgramError>)
    requires
        old(store).wf(),
    ensures
        final(store).wf(),
        final(store).program_id_spec() == old(store).program_id_spec(),
        (r, final(store).records()) == create_user_profile_spec(
            old(store).program_id_spec(),
            old(store).records(),
            ctx,
        ),
{
    let pid = store.program_id();
    let pa = match profile_address(&pid, &ctx.authority) {
        Some(a) => a,
        None => {
            return Err(ProgramError::AddressDerivationError);
        },
    };
    let profile = UserProfileAccount { authority: ctx.authority, last_payment_link: 0 };
    store.create(&pa, AccountData::Profile(profile), ctx.lamports)
}

/// Creates a payment link of the caller at the index its profile counts to,
/// and moves the counter on.
pub fn create_payment_link(
    store: &mut AccountStore,
    ctx: CreatePaymentLink,
    payment_link_create_input: PaymentLinkCreateInput,
) -> (r: Result<(), ProgramError>)
    requires
        old(store).wf(),
    ensures
        final(store).wf(),
        final(store).program_id_spec() == old(store).program_id_spec(),
        (r, final(store).records()) == create_payment_link_spec(
            old(store).program_id_spec(),
            old(store).records(),
            ctx,
            payment_link_create_input,
        ),
{
    let pid = store.program_id();
    let pa = match profile_address(&pid, &ctx.authority) {
        Some(a) => a,
        None => {
            return Err(ProgramError::AddressDerivationError);
        },
    };
    let profile = match store.open_profile(&pa) {
        Ok(p) => p,
        Err(e) => {
            return Err(e);
        },
    };
    if !profile.authority.same_as(&ctx.authority) {
        return Err(ProgramError::Unauthorized);
    }
    let idx = profile.last_payment_link;
    let la = match payment_link_address(&pid, &ctx.authority, idx) {
        Some(a) => a,
        None => {
            return Err(ProgramError::AddressDerivationError);
        },
    };
    if store.read(&la).is_some() {
        return Err(ProgramError::AddressAlreadyInUse);
    }
    let next = match idx.checked_add(1) {
        Some(n) => n,
        None => {
            return Err(ProgramError::CounterOverflow);
        },
    };
    let link = PaymentLinkAccount {
        authority: ctx.authority,
        amount: payment_link_create_input.amount,
        currency: payment_link_create_input.currency,
        reference: payment_link_create_input.reference,
        idx,
    };
    let created = store.create(&la, AccountData::PaymentLink(link), ctx.lamports);
    let updated = UserProfileAccount { last_payment_link: next, ..profile };
    store.write(&pa, AccountData::Profile(updated));
    created
}

/// Overwrites the fields of the caller's payment link `payment_link_idx` that
/// the input sets.
pub fn update_payment_link(
    store: &mut AccountStore,
    ctx: UpdatePaymentLink,
    payment_link_idx: u8,
    update_payment_link_input: UpdatePaymentLinkInput,
) -> (r: Result<(), ProgramError>)
    requires
        old(store).wf(),
    ensures
        final(store).wf(),
        final(store).program_id_spec() == old(store).program_id_spec(),
        (r, final(store).records()) == update_payment_link_spec(
            old(store).program_id_spec(),
            old(store).records(),
            ctx,
            payment_link_idx,
            update_payment_link_input,
        ),
{
    let pid = store.program_id();
    let la = match payment_link_address(&pid, &ctx.authority, payment_link_idx) {
        Some(a) => a,
        None => {
            return Err(ProgramError::AddressDerivationError);
        },
    };
    let mut link = match store.open_payment_link(&la) {
        Ok(l) => l,
        Err(e) => {
            return Err(e);
        },
    };
    if !link.authority.same_as(&ctx.authority) {
        return Err(ProgramError::Unauthorized);
    }
    if let Some(amount) = update_payment_link_input.amount {
        link.amount = amount;
    }
    if let Some(currency) = update_payment_link_input.currency {
        link.currency = currency;
    }
    store.write(&la, AccountData::PaymentLink(link));
    Ok(())
}

/// Removes the caller's payment link `payment_link_idx` and returns the
/// deposit that goes back to the caller. The profile's counter stays.
pub fn remove_payment_link(store: &mut AccountStore, ctx: RemovePaymentLink, payment_link_idx: u8) -> (r:
    Result<u64, ProgramError>)
    requires
        old(store).wf(),
    ensures
        final(store).wf(),
        final(store).program_id_spec() == old(store).program_id_spec(),
        (r, final(store).records()) == remove_payment_link_spec(
            old(store).program_id_spec(),
            old(store).records(),
            ctx,
            payment_link_idx,
        ),
{
    let pid = store.program_id();
    let pa = match profile_address(&pid, &ctx.authority) {
        Some(a) => a,
        None => {
            return Err(ProgramError::AddressDerivationError);
        },
    };
    let profile = match store.open_profile(&pa) {
        Ok(p) => p,
        Err(e) => {
            return Err(e);
        },
    };
    if !profile.authority.same_as(&ctx.authority) {
        return Err(ProgramError::Unauthorized);
    }
    let la = match payment_link_address(&pid, &ctx.authority, payment_link_idx) {
        Some(a) => a,
        None => {
            return Err(ProgramError::AddressDerivationError);
        },
    };
    let link = match store.open_payment_link(&la) {
        Ok(l) => l,
        Err(e) => {
            return Err(e);
        },
    };
    if !link.authority.same_as(&ctx.authority) {
        return Err(ProgramError::Unauthorized);
    }
    match store.close(&la) {
        Some(refund) => Ok(refund),
        None => Err(ProgramError::RecordNotFound),
    }
}

/// What looking up the profile of `owner` gives.
pub open spec fn user_profile_of(pid: Seq<u8>, m: StoreMap, owner: Seq<u8>) -> Result<UserProfileAccount, ProgramError> {
    match profile_address_of(pid, owner) {
        None => Err(ProgramError::AddressDerivationError),
        Some(pa) => open_profile_spec(m, pa),
    }
}

/// What looking up the payment link of `owner` with index `idx` gives.
pub open spec fn payment_link_of(pid: Seq<u8>, m: StoreMap, owner: Seq<u8>, idx: u8) -> Result<
    PaymentLinkAccount,
    ProgramError,
> {
    match payment_link_address_of(pid, owner, idx) {
        None => Err(ProgramError::AddressDerivationError),
        Some(la) => open_payment_link_spec(m, la),
    }
}

/// Looks up the profile of `owner`.
pub fn get_user_profile(store: &AccountStore, owner: &Key) -> (r: Result<UserProfileAccount, ProgramError>)
    requires
        store.wf(),
    ensures
        r == user_profile_of(store.program_id_spec(), store.records(), owner@),
{
    let pid = store.program_id();
    match profile_address(&pid, owner) {
        Some(pa) => store.open_profile(&pa),
        None => Err(ProgramError::AddressDerivationError),
    }
}

/// Looks up the payment link of `owner` with index `idx`.
pub fn get_payment_link(store: &AccountStore, owner: &Key, idx: u8) -> (r: Result<PaymentLinkAccount, ProgramError>)
    requires
        store.wf(),
    ensures
        r == payment_link_of(store.program_id_spec(), store.records(), owner@, idx),
{
    let pid = store.program_id();
    match payment_link_address(&pid, owner, idx) {
        Some(la) => store.open_payment_link(&la),
        None => Err(ProgramError::AddressDerivationError),
    }
}

} // verus!
