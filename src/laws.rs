use vstd::prelude::*;
use crate::address::{payment_link_address_of, profile_address_of};
use crate::program::{
    create_payment_link_spec, create_user_profile_spec, fresh_profile, new_payment_link, payment_link_of,
    remove_payment_link_spec, update_payment_link_spec, user_profile_of, CreatePaymentLink, CreateUserProfile,
    PaymentLinkCreateInput, RemovePaymentLink, UpdatePaymentLink, UpdatePaymentLinkInput,
};
use crate::state::{AccountData, PaymentLinkAccount, ProgramError, StoreMap};
use crate::store::{open_payment_link_spec, open_profile_spec};

verus! {

/// A profile can be created once per owner: the first request succeeds when
/// nothing occupies the owner's profile address, and any later request for the
/// same owner fails with `AddressAlreadyInUse` and changes nothing.
pub proof fn profile_created_once(pid: Seq<u8>, m: StoreMap, first: CreateUserProfile, again: CreateUserProfile)
    requires
        profile_address_of(pid, first.authority@) is Some,
        !m.contains_key(profile_address_of(pid, first.authority@)->Some_0),
        again.authority@ == first.authority@,
    ensures
        create_user_profile_spec(pid, m, first).0 == Ok::<(), ProgramError>(()),
        user_profile_of(pid, create_user_profile_spec(pid, m, first).1, first.authority@) == Ok::<
            _,
            ProgramError,
        >(crate::state::UserProfileAccount { authority: first.authority, last_payment_link: 0 }),
        create_user_profile_spec(pid, create_user_profile_spec(pid, m, first).1, again) == (
            Err::<(), ProgramError>(ProgramError::AddressAlreadyInUse),
            create_user_profile_spec(pid, m, first).1,
        ),
{
}

/// A new payment link takes the index its owner's profile counted to before
/// the call, and the counter then stands one higher; so successive links of an
/// owner get 0, 1, 2, ... in order.
pub proof fn link_takes_next_index(pid: Seq<u8>, m: StoreMap, ctx: CreatePaymentLink, input: PaymentLinkCreateInput)
    requires
        create_payment_link_spec(pid, m, ctx, input).0 is Ok,
    ensures
        user_profile_of(pid, m, ctx.authority@) is Ok,
        ({
            let n = user_profile_of(pid, m, ctx.authority@)->Ok_0.last_payment_link;
            let after = create_payment_link_spec(pid, m, ctx, input).1;
            &&& n < 255
            &&& payment_link_of(pid, after, ctx.authority@, n) == Ok::<_, ProgramError>(
                new_payment_link(ctx.authority, n, input),
            )
            &&& user_profile_of(pid, after, ctx.authority@) is Ok
            &&& user_profile_of(pid, after, ctx.authority@)->Ok_0.last_payment_link == n + 1
        }),
{
    let pa = profile_address_of(pid, ctx.authority@)->Some_0;
    let n = open_profile_spec(m, pa)->Ok_0.last_payment_link;
    let la = payment_link_address_of(pid, ctx.authority@, n)->Some_0;
    assert(pa != la);
}

/// A partial update changes exactly the fields it sets: with only the amount
/// set the currency stays, with only the currency set the amount stays, and
/// with neither set the call still succeeds and the store is unchanged.
/// It succeeds whenever the caller's link exists and names the caller.
pub proof fn update_changes_only_set_fields(
    pid: Seq<u8>,
    m: StoreMap,
    ctx: UpdatePaymentLink,
    idx: u8,
    input: UpdatePaymentLinkInput,
)
    requires
        payment_link_of(pid, m, ctx.authority@, idx) is Ok,
        payment_link_of(pid, m, ctx.authority@, idx)->Ok_0.authority@ == ctx.authority@,
    ensures
        ({
            let before = payment_link_of(pid, m, ctx.authority@, idx)->Ok_0;
            let (r, after) = update_payment_link_spec(pid, m, ctx, idx, input);
            let now = payment_link_of(pid, after, ctx.authority@, idx)->Ok_0;
            &&& r == Ok::<(), ProgramError>(())
            &&& payment_link_of(pid, after, ctx.authority@, idx) is Ok
            &&& input.amount is None ==> now.amount == before.amount
            &&& input.amount is Some ==> now.amount == input.amount->Some_0
            &&& input.currency is None ==> now.currency == before.currency
            &&& input.currency is Some ==> now.currency == input.currency->Some_0
            &&& now.reference == before.reference
            &&& now.idx == before.idx
            &&& now.authority == before.authority
            &&& (input.amount is None && input.currency is None) ==> after == m
        }),
{
    let la = payment_link_address_of(pid, ctx.authority@, idx)->Some_0;
    let after = update_payment_link_spec(pid, m, ctx, idx, input).1;
    if input.amount is None && input.currency is None {
        assert(after =~= m);
    }
}

/// A caller can neither update nor remove a record whose authority is someone
/// else: where the record at the caller's derived address names another
/// authority, both calls fail with `Unauthorized` and change nothing, and no
/// call by the caller alters or removes a record of another authority.
pub proof fn foreign_records_untouched(
    pid: Seq<u8>,
    m: StoreMap,
    upd: UpdatePaymentLink,
    rem: RemovePaymentLink,
    idx: u8,
    input: UpdatePaymentLinkInput,
    a: Seq<u8>,
)
    requires
        rem.authority@ == upd.authority@,
        m.contains_key(a),
        m[a].0 matches AccountData::PaymentLink(l) && l.authority@ != upd.authority@,
    ensures
        update_payment_link_spec(pid, m, upd, idx, input).1.contains_key(a),
        update_payment_link_spec(pid, m, upd, idx, input).1[a] == m[a],
        remove_payment_link_spec(pid, m, rem, idx).1.contains_key(a),
        remove_payment_link_spec(pid, m, rem, idx).1[a] == m[a],
        payment_link_address_of(pid, upd.authority@, idx) == Some(a) ==> update_payment_link_spec(
            pid,
            m,
            upd,
            idx,
            input,
        ) == (Err::<(), ProgramError>(ProgramError::Unauthorized), m),
        (payment_link_address_of(pid, rem.authority@, idx) == Some(a) && (user_profile_of(pid, m, rem.authority@)
            matches Ok(p) && p.authority@ == rem.authority@)) ==> remove_payment_link_spec(pid, m, rem, idx) == (
            Err::<u64, ProgramError>(ProgramError::Unauthorized),
            m,
        ),
{
}

/// A stored link sits at the address derived from its own authority and
/// index, and its authority's profile has counted past that index.
pub open spec fn link_tracked(pid: Seq<u8>, m: StoreMap, a: Seq<u8>, l: PaymentLinkAccount) -> bool {
    &&& payment_link_address_of(pid, l.authority@, l.idx) == Some(a)
    &&& user_profile_of(pid, m, l.authority@) matches Ok(p) && l.idx < p.last_payment_link
}

/// Every stored link is tracked by its owner's profile counter.
pub open spec fn links_tracked(pid: Seq<u8>, m: StoreMap) -> bool {
    forall|a: Seq<u8>|
        #[trigger] m.contains_key(a) ==> match m[a].0 {
            AccountData::PaymentLink(l) => link_tracked(pid, m, a, l),
            AccountData::Profile(_) => true,
        }
}

/// An empty store tracks every link trivially.
pub proof fn empty_store_tracks_links(pid: Seq<u8>)
    ensures
        links_tracked(pid, Map::<Seq<u8>, (AccountData, u64)>::empty()),
{
}

/// Creating a profile keeps every link tracked.
pub proof fn create_user_profile_keeps_links_tracked(pid: Seq<u8>, m: StoreMap, ctx: CreateUserProfile)
    requires
        links_tracked(pid, m),
    ensures
        links_tracked(pid, create_user_profile_spec(pid, m, ctx).1),
{
    let after = create_user_profile_spec(pid, m, ctx).1;
    assert forall|a: Seq<u8>| #[trigger] after.contains_key(a) implies match after[a].0 {
        AccountData::PaymentLink(l) => link_tracked(pid, after, a, l),
        AccountData::Profile(_) => true,
    } by {
        if create_user_profile_spec(pid, m, ctx).0 is Ok {
            let pa = profile_address_of(pid, ctx.authority@)->Some_0;
            if a != pa {
                assert(m.contains_key(a));
                if let AccountData::PaymentLink(l) = m[a].0 {
                    let pl = profile_address_of(pid, l.authority@)->Some_0;
                    assert(m.contains_key(pl));
                    assert(pl != pa);
                }
            }
        }
    }
}

/// Creating a payment link keeps every link tracked.
pub proof fn create_payment_link_keeps_links_tracked(
    pid: Seq<u8>,
    m: StoreMap,
    ctx: CreatePaymentLink,
    input: PaymentLinkCreateInput,
)
    requires
        links_tracked(pid, m),
    ensures
        links_tracked(pid, create_payment_link_spec(pid, m, ctx, input).1),
{
    let after = create_payment_link_spec(pid, m, ctx, input).1;
    if create_payment_link_spec(pid, m, ctx, input).0 is Ok {
        let pa = profile_address_of(pid, ctx.authority@)->Some_0;
        let n = open_profile_spec(m, pa)->Ok_0.last_payment_link;
        let la = payment_link_address_of(pid, ctx.authority@, n)->Some_0;
        assert(pa != la);
        assert forall|a: Seq<u8>| #[trigger] after.contains_key(a) implies match after[a].0 {
            AccountData::PaymentLink(l) => link_tracked(pid, after, a, l),
            AccountData::Profile(_) => true,
        } by {
            if a != la && a != pa {
                assert(m.contains_key(a));
                if let AccountData::PaymentLink(l) = m[a].0 {
                    let pl = profile_address_of(pid, l.authority@)->Some_0;
                    assert(m.contains_key(pl));
                    assert(pl != la);
                }
            }
        }
    }
}

/// Updating a payment link keeps every link tracked.
pub proof fn update_payment_link_keeps_links_tracked(
    pid: Seq<u8>,
    m: StoreMap,
    ctx: UpdatePaymentLink,
    idx: u8,
    input: UpdatePaymentLinkInput,
)
    requires
        links_tracked(pid, m),
    ensures
        links_tracked(pid, update_payment_link_spec(pid, m, ctx, idx, input).1),
{
    let after = update_payment_link_spec(pid, m, ctx, idx, input).1;
    if update_payment_link_spec(pid, m, ctx, idx, input).0 is Ok {
        let la = payment_link_address_of(pid, ctx.authority@, idx)->Some_0;
        assert forall|a: Seq<u8>| #[trigger] after.contains_key(a) implies match after[a].0 {
            AccountData::PaymentLink(l) => link_tracked(pid, after, a, l),
            AccountData::Profile(_) => true,
        } by {
            assert(m.contains_key(a));
            if let AccountData::PaymentLink(l) = m[a].0 {
                let pl = profile_address_of(pid, l.authority@)->Some_0;
                assert(m.contains_key(pl));
                assert(pl != la);
            }
        }
    }
}

/// Removing a payment link keeps every remaining link tracked.
pub proof fn remove_payment_link_keeps_links_tracked(pid: Seq<u8>, m: StoreMap, ctx: RemovePaymentLink, idx: u8)
    requires
        links_tracked(pid, m),
    ensures
        links_tracked(pid, remove_payment_link_spec(pid, m, ctx, idx).1),
{
    let after = remove_payment_link_spec(pid, m, ctx, idx).1;
    if remove_payment_link_spec(pid, m, ctx, idx).0 is Ok {
        let la = payment_link_address_of(pid, ctx.authority@, idx)->Some_0;
        assert forall|a: Seq<u8>| #[trigger] after.contains_key(a) implies match after[a].0 {
            AccountData::PaymentLink(l) => link_tracked(pid, after, a, l),
            AccountData::Profile(_) => true,
        } by {
            assert(m.contains_key(a));
            if let AccountData::PaymentLink(l) = m[a].0 {
                let pl = profile_address_of(pid, l.authority@)->Some_0;
                assert(m.contains_key(pl));
                assert(pl != la);
            }
        }
    }
}

/// After a link is removed, looking it up fails with `RecordNotFound`, the
/// owner's counter is as it was, and the owner's next link takes that counter
/// as its index, never the index of the removed link.
pub proof fn removed_index_not_reused(
    pid: Seq<u8>,
    m: StoreMap,
    rem: RemovePaymentLink,
    idx: u8,
    ctx: CreatePaymentLink,
    input: PaymentLinkCreateInput,
)
    requires
        links_tracked(pid, m),
        remove_payment_link_spec(pid, m, rem, idx).0 is Ok,
        ctx.authority@ == rem.authority@,
    ensures
        ({
            let removed = payment_link_of(pid, m, rem.authority@, idx)->Ok_0;
            let after = remove_payment_link_spec(pid, m, rem, idx).1;
            let n = user_profile_of(pid, m, rem.authority@)->Ok_0.last_payment_link;
            &&& payment_link_of(pid, m, rem.authority@, idx) is Ok
            &&& payment_link_of(pid, after, rem.authority@, idx) == Err::<PaymentLinkAccount, ProgramError>(
                ProgramError::RecordNotFound,
            )
            &&& user_profile_of(pid, after, rem.authority@) == user_profile_of(pid, m, rem.authority@)
            &&& removed.idx < n
            &&& create_payment_link_spec(pid, after, ctx, input).0 is Ok ==> payment_link_of(
                pid,
                create_payment_link_spec(pid, after, ctx, input).1,
                ctx.authority@,
                n,
            ) == Ok::<_, ProgramError>(new_payment_link(ctx.authority, n, input)) && n != removed.idx
        }),
{
    let pa = profile_address_of(pid, rem.authority@)->Some_0;
    let la = payment_link_address_of(pid, rem.authority@, idx)->Some_0;
    let after = remove_payment_link_spec(pid, m, rem, idx).1;
    assert(pa != la);
    assert(m.contains_key(la));
    if create_payment_link_spec(pid, after, ctx, input).0 is Ok {
        link_takes_next_index(pid, after, ctx, input);
    }
}

/// Once an owner's counter stands at 255 no further link can be created: the
/// request fails and changes nothing, with `CounterOverflow` where the address
/// of the would-be link is free.
pub proof fn counter_ceiling(pid: Seq<u8>, m: StoreMap, ctx: CreatePaymentLink, input: PaymentLinkCreateInput)
    requires
        user_profile_of(pid, m, ctx.authority@) matches Ok(p) && p.last_payment_link == 255,
    ensures
        create_payment_link_spec(pid, m, ctx, input).0 is Err,
        create_payment_link_spec(pid, m, ctx, input).1 == m,
        (user_profile_of(pid, m, ctx.authority@)->Ok_0.authority@ == ctx.authority@ && payment_link_of(
            pid,
            m,
            ctx.authority@,
            255,
        ) == Err::<PaymentLinkAccount, ProgramError>(ProgramError::RecordNotFound)) ==> create_payment_link_spec(
            pid,
            m,
            ctx,
            input,
        ).0 == Err::<(), ProgramError>(ProgramError::CounterOverflow),
{
}

} // verus!
