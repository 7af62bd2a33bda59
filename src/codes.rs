use vstd::prelude::*;

verus! {

/// Outcome of a receipt, as recorded in the action log.
#[derive(Clone, Copy, Debug, PartialEq, Eq, Structural)]
pub enum ReceiptStatus {
    Failure,
    Success,
}

/// Kind of a ledger action, as recorded in the action log.
#[derive(Clone, Copy, Debug, PartialEq, Eq, Structural)]
pub enum ActionKind {
    CreateAccount,
    DeployContract,
    FunctionCall,
    Transfer,
    Stake,
    AddKey,
    DeleteKey,
    DeleteAccount,
    Delegate,
}

/// The stable numeric code of each receipt status.
pub open spec fn status_code(s: ReceiptStatus) -> u8 {
    match s {
        ReceiptStatus::Failure => 1,
        ReceiptStatus::Success => 2,
    }
}

/// The stable numeric code of each action kind.
pub open spec fn action_code(a: ActionKind) -> u8 {
    match a {
        ActionKind::CreateAccount => 1,
        ActionKind::DeployContract => 2,
        ActionKind::FunctionCall => 6,
        ActionKind::Transfer => 4,
        ActionKind::Stake => 5,
        ActionKind::AddKey => 3,
        ActionKind::DeleteKey => 7,
        ActionKind::DeleteAccount => 8,
        ActionKind::Delegate => 9,
    }
}

impl ReceiptStatus {
    /// The numeric code stored for this status.
    pub fn code(&self) -> (r: u8)
        ensures
            r == status_code(*self),
    {
        match self {
            ReceiptStatus::Failure => 1,
            ReceiptStatus::Success => 2,
        }
    }

    /// The status stored under `code`, if any.
    pub fn from_code(code: u8) -> (r: Option<ReceiptStatus>)
        ensures
            r matches Some(s) ==> status_code(s) == code,
            r is Some <==> 1 <= code <= 2,
    {
        match code {
            1 => Some(ReceiptStatus::Failure),
            2 => Some(ReceiptStatus::Success),
            _ => None,
        }
    }
}

impl ActionKind {
    /// The numeric code stored for this action kind.
    pub fn code(&self) -> (r: u8)
        ensures
            r == action_code(*self),
    {
        match self {
            ActionKind::CreateAccount => 1,
            ActionKind::DeployContract => 2,
            ActionKind::FunctionCall => 6,
            ActionKind::Transfer => 4,
            ActionKind::Stake => 5,
            ActionKind::AddKey => 3,
            ActionKind::DeleteKey => 7,
            ActionKind::DeleteAccount => 8,
            ActionKind::Delegate => 9,
        }
    }

    /// The action kind stored under `code`, if any.
    pub fn from_code(code: u8) -> (r: Option<ActionKind>)
        ensures
            r matches Some(a) ==> action_code(a) == code,
            r is Some <==> 1 <= code <= 9,
    {
        match code {
            1 => Some(ActionKind::CreateAccount),
            2 => Some(ActionKind::DeployContract),
            3 => Some(ActionKind::AddKey),
            4 => Some(ActionKind::Transfer),
            5 => Some(ActionKind::Stake),
            6 => Some(ActionKind::FunctionCall),
            7 => Some(ActionKind::DeleteKey),
            8 => Some(ActionKind::DeleteAccount),
            9 => Some(ActionKind::Delegate),
            _ => None,
        }
    }
}

/// Distinct statuses have distinct codes, so a status survives a trip
/// through its code unchanged.
pub proof fn lemma_status_code_round_trip(s: ReceiptStatus, t: ReceiptStatus)
    ensures
        status_code(s) == status_code(t) <==> s == t,
        1 <= status_code(s) <= 2,
{
}

/// Distinct action kinds have distinct codes, so an action kind survives a
/// trip through its code unchanged.
pub proof fn lemma_action_code_round_trip(a: ActionKind, b: ActionKind)
    ensures
        action_code(a) == action_code(b) <==> a == b,
        1 <= action_code(a) <= 9,
{
}

} // verus!
