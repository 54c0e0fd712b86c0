use vstd::prelude::*;

verus! {

/// The durable user record, addressed by its platform identifier.
#[derive(Clone, Debug)]
pub struct UserRecord {
    pub platform_id: String,
    /// Empty while no wallet is linked.
    pub wallet_address: String,
}

/// What a record holds, as character sequences.
pub struct RecordModel {
    pub platform_id: Seq<char>,
    pub wallet_address: Seq<char>,
}

impl View for UserRecord {
    type V = RecordModel;

    open spec fn view(&self) -> RecordModel {
        RecordModel { platform_id: self.platform_id@, wallet_address: self.wallet_address@ }
    }
}

/// A merge intent, applied against the record of its platform identifier.
#[derive(Clone, Debug)]
pub enum LinkRequest {
    /// The OAuth flow resolved the user's platform identifier.
    IdentityEstablished { platform_id: String },
    /// The wallet flow submitted an address for a platform identifier.
    WalletSubmitted { platform_id: String, wallet_address: String },
}

/// A linking intent over character sequences.
pub enum Intent {
    Identity { platform_id: Seq<char> },
    Wallet { platform_id: Seq<char>, wallet_address: Seq<char> },
}

impl View for LinkRequest {
    type V = Intent;

    open spec fn view(&self) -> Intent {
        match self {
            LinkRequest::IdentityEstablished { platform_id } => Intent::Identity {
                platform_id: platform_id@,
            },
            LinkRequest::WalletSubmitted { platform_id, wallet_address } => Intent::Wallet {
                platform_id: platform_id@,
                wallet_address: wallet_address@,
            },
        }
    }
}

/// The key whose record an intent updates.
pub open spec fn intent_key(i: Intent) -> Seq<char> {
    match i {
        Intent::Identity { platform_id } => platform_id,
        Intent::Wallet { platform_id, .. } => platform_id,
    }
}

/// The record an intent leaves, given what is stored under its key.
///
/// A missing record counts as one with the key set and no wallet. An identity
/// intent keeps the wallet address; a wallet intent replaces it.
pub open spec fn merged(current: Option<RecordModel>, i: Intent) -> RecordModel {
    let wallet = match current {
        Some(rec) => rec.wallet_address,
        None => Seq::empty(),
    };
    match i {
        Intent::Identity { platform_id } => RecordModel { platform_id, wallet_address: wallet },
        Intent::Wallet { platform_id, wallet_address } => RecordModel {
            platform_id,
            wallet_address,
        },
    }
}

/// The view of an optional record.
pub open spec fn opt_view(r: Option<UserRecord>) -> Option<RecordModel> {
    match r {
        Some(rec) => Some(rec@),
        None => None,
    }
}

/// The linking state of a key, derived from what is stored under it.
#[derive(Clone, Copy, Debug, PartialEq, Eq, Structural)]
pub enum LinkState {
    Unknown,
    IdentityOnly,
    Linked,
}

pub open spec fn state_of_model(current: Option<RecordModel>) -> LinkState {
    match current {
        None => LinkState::Unknown,
        Some(rec) => if rec.wallet_address.len() == 0 {
            LinkState::IdentityOnly
        } else {
            LinkState::Linked
        },
    }
}

impl LinkRequest {
    /// The platform identifier that the intent is for.
    pub fn platform_id(&self) -> (r: &String)
        ensures
            r@ == intent_key(self@),
    {
        match self {
            LinkRequest::IdentityEstablished { platform_id } => platform_id,
            LinkRequest::WalletSubmitted { platform_id, .. } => platform_id,
        }
    }
}

impl UserRecord {
    /// A record with the given identifier and no wallet linked.
    pub fn identity_only(platform_id: String) -> (r: UserRecord)
        ensures
            r@.platform_id == platform_id@,
            r@.wallet_address.len() == 0,
    {
        UserRecord { platform_id, wallet_address: String::new() }
    }

    /// A copy of the record, field by field.
    pub fn copied(&self) -> (r: UserRecord)
        ensures
            r@ == self@,
    {
        UserRecord {
            platform_id: self.platform_id.clone(),
            wallet_address: self.wallet_address.clone(),
        }
    }

    /// Whether a wallet address is linked.
    pub fn is_linked(&self) -> (r: bool)
        ensures
            r == (self@.wallet_address.len() > 0),
    {
        !self.wallet_address.as_str().is_empty()
    }
}

/// The linking state of a key whose stored record is `current`.
pub fn link_state(current: &Option<UserRecord>) -> (r: LinkState)
    ensures
        r == state_of_model(opt_view(*current)),
{
    match current {
        None => LinkState::Unknown,
        Some(rec) => if rec.is_linked() {
            LinkState::Linked
        } else {
            LinkState::IdentityOnly
        },
    }
}

/// Applies an intent to the record stored under its key.
pub fn merge_record(current: Option<UserRecord>, request: &LinkRequest) -> (r: UserRecord)
    ensures
        r@ == merged(opt_view(current), request@),
{
    let wallet = match current {
        Some(rec) => rec.wallet_address,
        None => String::new(),
    };
    match request {
        LinkRequest::IdentityEstablished { platform_id } => UserRecord {
            platform_id: platform_id.clone(),
            wallet_address: wallet,
        },
        LinkRequest::WalletSubmitted { platform_id, wallet_address } => UserRecord {
            platform_id: platform_id.clone(),
            wallet_address: wallet_address.clone(),
        },
    }
}

} // verus!
