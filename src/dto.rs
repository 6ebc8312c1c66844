use std::collections::HashMap;

use vstd::prelude::*;

verus! {

/// Changes to a tenant; absent fields stay as they are.
pub struct TenantModifyReq {
    pub name: Option<String>,
    pub icon: Option<String>,
    pub allow_account_register: Option<bool>,
    pub parameters: Option<String>,
}

/// A new kind of credential for a tenant, with the number of versions it keeps.
pub struct TenantCertAddReq {
    pub category: String,
    pub version: i32,
}

/// Changes to a credential kind of a tenant.
pub struct TenantCertModifyReq {
    pub version: Option<i32>,
}

/// Changes to an identification kind of a tenant.
pub struct TenantIdentModifyReq {
    pub valid_ak_rule_note: Option<String>,
    pub valid_ak_rule: Option<String>,
    pub valid_sk_rule_note: Option<String>,
    pub valid_sk_rule: Option<String>,
    pub valid_time: Option<i32>,
}

/// Where the configuration service reaches the identity service.
pub struct IamClientConfig {
    pub base_url: String,
}

/// A request whose headers and body are to be encrypted or decrypted.
pub struct AuthEncryptReq {
    pub headers: HashMap<String, String>,
    pub body: String,
}

/// The headers and body after encryption or decryption.
pub struct AuthEncryptResp {
    pub headers: HashMap<String, String>,
    pub body: String,
}

/// The middleware that encrypts and decrypts the identity service's traffic.
#[derive(Clone, Copy, Debug)]
pub struct EncryptMW;

/// The endpoint that the encryption middleware wraps around `E`.
pub struct EncryptMWImpl<E>(pub E);

/// A summary of one attribute of a resource kind.
pub struct RbumKindAttrSummaryResp {
    pub id: String,
    pub name: String,
    pub label: String,
    pub sort: u32,
    pub main_column: bool,
    pub position: bool,
    pub capacity: bool,
    pub overload: bool,
}

/// The kinds of call that a workflow makes to an outside service.
#[derive(Clone, Copy, Debug, PartialEq, Eq, Structural)]
pub enum FlowExternalKind {
    FetchRelObj,
    ModifyField,
    NotifyChanges,
}

/// Asks for the business objects related by `rel_tag`.
pub struct FlowExternalFetchRelObjReq {
    pub rel_tag: String,
}

/// The business objects related to the current one.
pub struct FlowExternalFetchRelObjResp {
    pub curr_tag: String,
    pub curr_bus_obj_id: String,
    pub rel_bus_objs: Vec<RelBusObjResp>,
}

/// The identifiers of the objects related by one tag.
pub struct RelBusObjResp {
    pub rel_tag: String,
    pub rel_bus_obj_ids: Vec<String>,
}

/// The answer to a field change.
pub struct FlowExternalModifyFieldResp {}

/// The answer to a change notification.
pub struct FlowExternalNotifyChangesResp {}

} // verus!
