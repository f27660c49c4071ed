//! The messages that the entity exchanges with its clients, and the operating
//! policy that it publishes.

use crate::identifier::{hyphenated_text, uuid_hyphenated, Identifier};
use vstd::prelude::*;

verus! {

/// Client -> SE: opens a deposit. Both fields are the client's own choice and
/// are kept as they come.
#[derive(Debug, PartialEq, Eq)]
pub struct DepositMsg1 {
    /// The authentication token.
    pub auth: String,
    /// The public key with which the client will prove ownership.
    pub proof_key: String,
}

impl Clone for DepositMsg1 {
    fn clone(&self) -> (copy: DepositMsg1)
        ensures
            copy.auth@ == self.auth@,
            copy.proof_key@ == self.proof_key@,
    {
        DepositMsg1 { auth: self.auth.clone(), proof_key: self.proof_key.clone() }
    }
}

/// An identifier as a string: the form in which it travels.
#[derive(Debug, PartialEq, Eq)]
pub struct UuidDef(String);

impl Clone for UuidDef {
    fn clone(&self) -> (copy: UuidDef)
        ensures
            copy@ == self@,
    {
        UuidDef(self.0.clone())
    }
}

impl View for UuidDef {
    type V = Seq<char>;

    closed spec fn view(&self) -> Seq<char> {
        self.0@
    }
}

impl UuidDef {
    /// Writes `id` out: 36 characters, hyphenated.
    pub fn of(id: Identifier) -> (text: UuidDef)
        ensures
            text@ == hyphenated_text(id.0),
            text@.len() == 36,
    {
        UuidDef(uuid_hyphenated(id.0))
    }

    pub fn as_str(&self) -> (text: &str)
        ensures
            text@ == self@,
    {
        self.0.as_str()
    }
}

/// Client -> SE: names the session whose shared key a later step works on.
#[derive(Debug, Clone, Copy, PartialEq, Eq)]
pub struct DepositMsg2 {
    pub shared_key_id: Identifier,
}

/// SE -> client: the session that was opened, and the challenge that its
/// client has to present in later steps. This is the only place where a
/// challenge leaves the entity.
#[derive(Debug, PartialEq, Eq)]
pub struct UserID {
    pub id: Identifier,
    pub challenge: Option<String>,
}

impl Clone for UserID {
    fn clone(&self) -> (copy: UserID)
        ensures
            copy@ == self@,
    {
        let challenge = match &self.challenge {
            Some(text) => Some(text.clone()),
            None => None,
        };
        UserID { id: self.id, challenge }
    }
}

/// What a `UserID` holds.
pub struct UserIDView {
    pub id: Identifier,
    pub challenge: Option<Seq<char>>,
}

impl View for UserID {
    type V = UserIDView;

    open spec fn view(&self) -> UserIDView {
        UserIDView {
            id: self.id,
            challenge: match self.challenge {
                Some(text) => Some(text@),
                None => None,
            },
        }
    }
}

impl Default for UserID {
    fn default() -> (user: UserID)
        ensures
            user@ == (UserIDView { id: Identifier::spec_nil(), challenge: None }),
    {
        UserID { id: Identifier::nil(), challenge: None }
    }
}

/// Names a statechain.
#[derive(Debug, Clone, Copy, PartialEq, Eq)]
pub struct StatechainID {
    pub id: Identifier,
}

impl Default for StatechainID {
    fn default() -> (chain: StatechainID)
        ensures
            chain.id == Identifier::spec_nil(),
    {
        StatechainID { id: Identifier::nil() }
    }
}

/// Statechain entity operating information: the requirements of the entity
/// that the protocol has to conform with.
#[derive(Debug, PartialEq, Eq)]
pub struct StateEntityFeeInfoAPI {
    /// The Bitcoin address that the fee must be paid to.
    pub address: String,
    /// The deposit fee, as a proportion of the deposit amount in basis points.
    /// A negative fee subsidises deposits.
    pub deposit: i64,
    /// The withdrawal fee, as a proportion of the deposit amount in basis
    /// points.
    pub withdraw: u64,
    /// The interval, in blocks, by which the locktime of each further backup
    /// transaction decrements.
    pub interval: u32,
    /// The locktime of the first backup transaction, in blocks from the
    /// current height.
    pub initlock: u32,
    /// The minimum wallet version required.
    pub wallet_version: String,
    /// The message to display to all wallet users on startup.
    pub wallet_message: String,
}

/// What a `StateEntityFeeInfoAPI` holds.
pub struct FeeInfoView {
    pub address: Seq<char>,
    pub deposit: i64,
    pub withdraw: u64,
    pub interval: u32,
    pub initlock: u32,
    pub wallet_version: Seq<char>,
    pub wallet_message: Seq<char>,
}

impl FeeInfoView {
    /// Whether the policy can be enforced: backup transactions need a first
    /// locktime and a decrement that are both positive. (The withdrawal fee
    /// cannot be negative by its type.)
    pub open spec fn consistent(self) -> bool {
        &&& self.interval > 0
        &&& self.initlock > 0
        &&& self.withdraw >= 0
    }
}

impl View for StateEntityFeeInfoAPI {
    type V = FeeInfoView;

    open spec fn view(&self) -> FeeInfoView {
        FeeInfoView {
            address: self.address@,
            deposit: self.deposit,
            withdraw: self.withdraw,
            interval: self.interval,
            initlock: self.initlock,
            wallet_version: self.wallet_version@,
            wallet_message: self.wallet_message@,
        }
    }
}

impl Clone for StateEntityFeeInfoAPI {
    fn clone(&self) -> (copy: StateEntityFeeInfoAPI)
        ensures
            copy@ == self@,
    {
        StateEntityFeeInfoAPI {
            address: self.address.clone(),
            deposit: self.deposit,
            withdraw: self.withdraw,
            interval: self.interval,
            initlock: self.initlock,
            wallet_version: self.wallet_version.clone(),
            wallet_message: self.wallet_message.clone(),
        }
    }
}

impl StateEntityFeeInfoAPI {
    /// The policy that the entity's documentation shows.
    pub open spec fn spec_example() -> FeeInfoView {
        FeeInfoView {
            address: "bc1qar0srrr7xfkvy5l643lydnw9re59gtzzwf5mdq"@,
            deposit: 0,
            withdraw: 300,
            interval: 144,
            initlock: 14400,
            wallet_version: "0.4.65"@,
            wallet_message: "Warning"@,
        }
    }

    pub fn example() -> (policy: StateEntityFeeInfoAPI)
        ensures
            policy@ == StateEntityFeeInfoAPI::spec_example(),
            policy@.consistent(),
    {
        StateEntityFeeInfoAPI {
            address: "bc1qar0srrr7xfkvy5l643lydnw9re59gtzzwf5mdq".to_owned(),
            deposit: 0,
            withdraw: 300,
            interval: 144,
            initlock: 14400,
            wallet_version: "0.4.65".to_owned(),
            wallet_message: "Warning".to_owned(),
        }
    }

    /// Tells whether the policy can be enforced.
    pub fn is_consistent(&self) -> (consistent: bool)
        ensures
            consistent == self@.consistent(),
    {
        self.interval > 0 && self.initlock > 0
    }
}

} // verus!
