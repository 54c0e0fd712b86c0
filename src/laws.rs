use vstd::prelude::*;
use crate::flow::{transition, Action, Event, LinkFlow};
use crate::record::{
    intent_key, merged, opt_view, state_of_model, Intent, LinkRequest, LinkState, RecordModel,
    UserRecord,
};
use crate::table::{apply_all, apply_intent, keyed_by_id, lookup, StoreModel};

verus! {

/// The wallet intents for `platform_id`, one per address of `addresses`, in order.
pub open spec fn wallet_intents(platform_id: Seq<char>, addresses: Seq<Seq<char>>) -> Seq<Intent> {
    addresses.map_values(|a: Seq<char>| Intent::Wallet { platform_id, wallet_address: a })
}

/// The linking states move as the merge protocol lays down: an identity
/// intent makes an unknown key identity-only and leaves a known key in its
/// state; a wallet intent with a non-empty address links the key from any
/// state.
pub proof fn lemma_state_transitions(current: Option<RecordModel>, i: Intent)
    ensures
        i is Identity ==> state_of_model(Some(merged(current, i))) == match current {
            None => LinkState::IdentityOnly,
            Some(_) => state_of_model(current),
        },
        (i is Wallet && i->Wallet_wallet_address.len() > 0) ==> state_of_model(
            Some(merged(current, i)),
        ) == LinkState::Linked,
{
}

/// Identity then wallet, or wallet then identity, for one key: both orders
/// leave the same store, whose record for that key holds the identifier and
/// the submitted address.
pub proof fn lemma_identity_and_wallet_commute(
    m: StoreModel,
    platform_id: Seq<char>,
    wallet_address: Seq<char>,
)
    ensures
        ({
            let id = Intent::Identity { platform_id };
            let w = Intent::Wallet { platform_id, wallet_address };
            &&& apply_intent(apply_intent(m, id), w) == apply_intent(apply_intent(m, w), id)
            &&& apply_intent(apply_intent(m, id), w)[platform_id] == (RecordModel {
                platform_id,
                wallet_address,
            })
        }),
{
    let id = Intent::Identity { platform_id };
    let w = Intent::Wallet { platform_id, wallet_address };
    assert(apply_intent(apply_intent(m, id), w) =~= apply_intent(apply_intent(m, w), id));
}

/// An identity intent never clears a wallet address that is already set, and
/// applying it a second time changes nothing.
pub proof fn lemma_identity_idempotent(m: StoreModel, platform_id: Seq<char>)
    requires
        keyed_by_id(m),
    ensures
        ({
            let id = Intent::Identity { platform_id };
            let once = apply_intent(m, id);
            &&& apply_intent(once, id) == once
            &&& m.contains_key(platform_id) ==> once[platform_id] == m[platform_id]
            &&& once[platform_id].wallet_address == match lookup(m, platform_id) {
                Some(rec) => rec.wallet_address,
                None => Seq::<char>::empty(),
            }
        }),
{
    let id = Intent::Identity { platform_id };
    let once = apply_intent(m, id);
    assert(apply_intent(once, id) =~= once);
}

/// Of two wallet intents for one key, the later one's address stays: the
/// store is as if only the later one had been applied.
pub proof fn lemma_last_wallet_wins(
    m: StoreModel,
    platform_id: Seq<char>,
    first: Seq<char>,
    second: Seq<char>,
)
    ensures
        ({
            let a = Intent::Wallet { platform_id, wallet_address: first };
            let b = Intent::Wallet { platform_id, wallet_address: second };
            &&& apply_intent(apply_intent(m, a), b) == apply_intent(m, b)
            &&& apply_intent(apply_intent(m, a), b)[platform_id].wallet_address == second
        }),
{
    let a = Intent::Wallet { platform_id, wallet_address: first };
    let b = Intent::Wallet { platform_id, wallet_address: second };
    assert(apply_intent(apply_intent(m, a), b) =~= apply_intent(m, b));
}

/// Wallet intents for one key, serialized in any order: after each of them the
/// key holds exactly the address that it submitted, a whole record and never
/// an older address; so at the end the store holds one of the submitted
/// addresses, the last one in that order.
pub proof fn lemma_serialized_wallets(
    m: StoreModel,
    platform_id: Seq<char>,
    addresses: Seq<Seq<char>>,
)
    requires
        addresses.len() > 0,
    ensures
        forall|n: int|
            0 < n <= addresses.len() ==> (#[trigger] apply_all(
                m,
                wallet_intents(platform_id, addresses.take(n)),
            ))[platform_id] == (RecordModel { platform_id, wallet_address: addresses[n - 1] }),
        apply_all(m, wallet_intents(platform_id, addresses))[platform_id].wallet_address
            == addresses.last(),
        addresses.contains(
            apply_all(m, wallet_intents(platform_id, addresses))[platform_id].wallet_address,
        ),
{
    assert forall|n: int| 0 < n <= addresses.len() implies (#[trigger] apply_all(
        m,
        wallet_intents(platform_id, addresses.take(n)),
    ))[platform_id] == (RecordModel { platform_id, wallet_address: addresses[n - 1] }) by {
        let s = wallet_intents(platform_id, addresses.take(n));
        assert(s.last() == Intent::Wallet { platform_id, wallet_address: addresses[n - 1] });
    }
    assert(addresses.take(addresses.len() as int) == addresses);
    assert(addresses[addresses.len() - 1] == addresses.last());
}

/// Intents for one key never change what is stored under another key.
pub proof fn lemma_isolation(m: StoreModel, s: Seq<Intent>, other: Seq<char>)
    requires
        forall|j: int| 0 <= j < s.len() ==> intent_key(#[trigger] s[j]) != other,
    ensures
        lookup(apply_all(m, s), other) == lookup(m, other),
    decreases s.len(),
{
    if s.len() > 0 {
        let p = s.drop_last();
        assert forall|j: int| 0 <= j < p.len() implies intent_key(#[trigger] p[j]) != other by {
            assert(p[j] == s[j]);
        }
        lemma_isolation(m, p, other);
        assert(intent_key(s[s.len() - 1]) != other);
    }
}

/// The write that a flow issues, after reading what the store holds under the
/// intent's key, leaves the store exactly as one serialized application of
/// the intent would.
pub proof fn lemma_flow_write_applies_intent(
    m: StoreModel,
    request: LinkRequest,
    attempt: u32,
    current: Option<UserRecord>,
    next: LinkFlow,
    a: Action,
)
    requires
        opt_view(current) == lookup(m, intent_key(request@)),
        transition(
            LinkFlow::Reading { request, attempt },
            Event::RecordRead { outcome: Ok(current) },
            next,
            a,
        ),
    ensures
        match a {
            Action::WriteRecord { record, .. } => m.insert(record@.platform_id, record@)
                == apply_intent(m, request@),
            _ => false,
        },
{
}

} // verus!
