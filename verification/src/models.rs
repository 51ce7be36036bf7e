//! Typed payloads of the individual endpoints, each with its structural
//! decode from the library's JSON model.

use vstd::prelude::*;

use crate::json::{obj_get, spec_obj_get, take1, take3, Json};
use crate::transport::FromJson;

verus! {

/// Identifier of a payment provider in the remote API's catalogue.
pub type ProviderId = u64;

/// The profile of the current user: the three sections the profile endpoint
/// is asked for, kept as decoded JSON documents.
#[derive(Debug, PartialEq, Eq)]
pub struct ProfileInfo {
    pub auth_info: Json,
    pub contract_info: Json,
    pub user_info: Json,
}

impl FromJson for ProfileInfo {
    open spec fn from_json_spec(j: Json) -> Option<ProfileInfo> {
        match j {
            Json::Obj(fields) => (match (
                spec_obj_get(fields@, "authInfo"@),
                spec_obj_get(fields@, "contractInfo"@),
                spec_obj_get(fields@, "userInfo"@),
            ) {
                (Some(a), Some(c), Some(u)) => Some(
                    ProfileInfo { auth_info: a, contract_info: c, user_info: u },
                ),
                _ => None,
            }),
            _ => None,
        }
    }

    fn from_json(j: Json) -> (r: Option<ProfileInfo>) {
        proof {
            reveal_strlit("authInfo");
            reveal_strlit("contractInfo");
            reveal_strlit("userInfo");
            assert(("authInfo"@).len() == 8);
            assert(("contractInfo"@).len() == 12);
            assert(("authInfo"@)[0] == 'a');
            assert(("userInfo"@)[0] == 'u');
            assert(("userInfo"@).len() == 8);
        }
        match j {
            Json::Obj(fields) => {
                let (a, c, u) = take3(
                    fields,
                    &"authInfo".to_owned(),
                    &"contractInfo".to_owned(),
                    &"userInfo".to_owned(),
                );
                match (a, c, u) {
                    (Some(a2), Some(c2), Some(u2)) => Some(
                        ProfileInfo { auth_info: a2, contract_info: c2, user_info: u2 },
                    ),
                    _ => None,
                }
            },
            _ => None,
        }
    }
}

/// Commission terms of one provider, as the catalogue endpoint reports them.
#[derive(Debug, PartialEq, Eq)]
pub struct CommissionInfo {
    pub terms: Json,
}

/// The wire shape around [`CommissionInfo`]: the terms sit under a
/// `commission` field.
#[derive(Debug, PartialEq, Eq)]
pub struct CommissionInfoWrapper {
    pub commission: CommissionInfo,
}

impl FromJson for CommissionInfoWrapper {
    open spec fn from_json_spec(j: Json) -> Option<CommissionInfoWrapper> {
        match j {
            Json::Obj(fields) => (match spec_obj_get(fields@, "commission"@) {
                Some(c) => Some(CommissionInfoWrapper { commission: CommissionInfo { terms: c } }),
                None => None,
            }),
            _ => None,
        }
    }

    fn from_json(j: Json) -> (r: Option<CommissionInfoWrapper>) {
        match j {
            Json::Obj(fields) => match take1(fields, &"commission".to_owned()) {
                Some(c) => Some(CommissionInfoWrapper { commission: CommissionInfo { terms: c } }),
                None => None,
            },
            _ => None,
        }
    }
}

/// A quoted commission for one concrete payment: the amount the wallet
/// charges, under `qwCommission.amount`, kept as the JSON number node so
/// that no decimal precision is lost.
#[derive(Debug, PartialEq, Eq)]
pub struct CommissionQuote {
    pub qw_commission_amount: Json,
}

impl FromJson for CommissionQuote {
    open spec fn from_json_spec(j: Json) -> Option<CommissionQuote> {
        match j {
            Json::Obj(fields) => (match spec_obj_get(fields@, "qwCommission"@) {
                Some(Json::Obj(inner)) => (match spec_obj_get(inner@, "amount"@) {
                    Some(a) => Some(CommissionQuote { qw_commission_amount: a }),
                    None => None,
                }),
                _ => None,
            }),
            _ => None,
        }
    }

    fn from_json(j: Json) -> (r: Option<CommissionQuote>) {
        match j {
            Json::Obj(fields) => match take1(fields, &"qwCommission".to_owned()) {
                Some(Json::Obj(inner)) => match take1(inner, &"amount".to_owned()) {
                    Some(a) => Some(CommissionQuote { qw_commission_amount: a }),
                    None => None,
                },
                _ => None,
            },
            _ => None,
        }
    }
}

/// The acknowledgement of a transfer: the payment's identifier, plus the
/// whole response document for inspection.
#[derive(Debug, PartialEq, Eq)]
pub struct TransferData {
    pub id: String,
    pub details: Json,
}

impl FromJson for TransferData {
    open spec fn from_json_spec(j: Json) -> Option<TransferData> {
        match j {
            Json::Obj(fields) => (match spec_obj_get(fields@, "id"@) {
                Some(Json::Str(s)) => Some(TransferData { id: s, details: Json::Obj(fields) }),
                _ => None,
            }),
            _ => None,
        }
    }

    fn from_json(j: Json) -> (r: Option<TransferData>) {
        match j {
            Json::Obj(fields) => {
                let id_opt: Option<String> = match obj_get(&fields, &"id".to_owned()) {
                    Some(Json::Str(s)) => Some(s.clone()),
                    _ => None,
                };
                match id_opt {
                    Some(id) => Some(TransferData { id, details: Json::Obj(fields) }),
                    None => None,
                }
            },
            _ => None,
        }
    }
}

/// Where a transfer goes: to another wallet, in a chosen currency, or to a
/// cellular account through its carrier's provider.
#[derive(Debug, Clone, PartialEq, Eq)]
pub enum TransferDirection {
    Qiwi { to_phone: String, to_currency: String },
    Cellular { carrier: ProviderId, to_phone: String },
}

} // verus!
