//! The typed command union: one variant per registered operation, each
//! carrying its resolved, validated parameters.  A value of [`Cmd`] is the
//! complete description of the single contract call an invocation makes;
//! the facade layer executes it against the RPC client.

use vstd::prelude::*;

verus! {

use crate::errors::{string_bytes, strings_bytes};
use crate::resolve::{
    ok_value, opt_u64_s, val_addr, val_bool, val_height, val_hex, val_key, val_list,
    val_opt_u64, val_text, val_u64, vals_deep, values_ok, Value, ValueS,
};
use crate::schema::{exec_group, op_group, op_params_s, quota_index, Group, Operation};
use crate::validate::BlockHeight;

/// The typed commands of the NodeManager contract.
#[derive(Clone, Debug, PartialEq, Eq)]
pub enum NodeCmd {
    ListNode { height: BlockHeight },
    ListStake { height: BlockHeight },
    GetStatus { address: String, height: BlockHeight },
    DeleteNode { admin_key: String, address: String, quota: Option<u64> },
    ApproveNode { admin_key: String, address: String, quota: Option<u64> },
    SetStake { admin_key: String, stake: u64, address: String, quota: Option<u64> },
    StakePermillage { address: String, height: BlockHeight },
}

/// The mathematical shape of a [`NodeCmd`].
pub enum NodeCmdS {
    ListNode { height: BlockHeight },
    ListStake { height: BlockHeight },
    GetStatus { address: Seq<u8>, height: BlockHeight },
    DeleteNode { admin_key: Seq<u8>, address: Seq<u8>, quota: Option<u64> },
    ApproveNode { admin_key: Seq<u8>, address: Seq<u8>, quota: Option<u64> },
    SetStake { admin_key: Seq<u8>, stake: u64, address: Seq<u8>, quota: Option<u64> },
    StakePermillage { address: Seq<u8>, height: BlockHeight },
}

impl View for NodeCmd {
    type V = NodeCmdS;

    open spec fn view(&self) -> NodeCmdS {
        match self {
            NodeCmd::ListNode { height } => NodeCmdS::ListNode { height: *height },
            NodeCmd::ListStake { height } => NodeCmdS::ListStake { height: *height },
            NodeCmd::GetStatus { address, height } => NodeCmdS::GetStatus { address: string_bytes(*address), height: *height },
            NodeCmd::DeleteNode { admin_key, address, quota } => NodeCmdS::DeleteNode { admin_key: string_bytes(*admin_key), address: string_bytes(*address), quota: *quota },
            NodeCmd::ApproveNode { admin_key, address, quota } => NodeCmdS::ApproveNode { admin_key: string_bytes(*admin_key), address: string_bytes(*address), quota: *quota },
            NodeCmd::SetStake { admin_key, stake, address, quota } => NodeCmdS::SetStake { admin_key: string_bytes(*admin_key), stake: *stake, address: string_bytes(*address), quota: *quota },
            NodeCmd::StakePermillage { address, height } => NodeCmdS::StakePermillage { address: string_bytes(*address), height: *height },
        }
    }
}

pub open spec fn build_node_manager_s(op: Operation, vs: Seq<ValueS>) -> NodeCmdS {
    if op == Operation::NodeListNode {
        NodeCmdS::ListNode { height: vs[0]->Height_0 }
    } else if op == Operation::NodeListStake {
        NodeCmdS::ListStake { height: vs[0]->Height_0 }
    } else if op == Operation::NodeGetStatus {
        NodeCmdS::GetStatus { address: vs[0]->Addr_0, height: vs[1]->Height_0 }
    } else if op == Operation::NodeDeleteNode {
        NodeCmdS::DeleteNode { admin_key: vs[0]->Key_0, address: vs[1]->Addr_0, quota: opt_u64_s(vs[2]) }
    } else if op == Operation::NodeApproveNode {
        NodeCmdS::ApproveNode { admin_key: vs[0]->Key_0, address: vs[1]->Addr_0, quota: opt_u64_s(vs[2]) }
    } else if op == Operation::NodeSetStake {
        NodeCmdS::SetStake { admin_key: vs[0]->Key_0, stake: vs[1]->U64_0, address: vs[2]->Addr_0, quota: opt_u64_s(vs[3]) }
    } else if op == Operation::NodeStakePermillage {
        NodeCmdS::StakePermillage { address: vs[0]->Addr_0, height: vs[1]->Height_0 }
    } else {
        vstd::pervasive::arbitrary()
    }
}

#[verifier::spinoff_prover]
#[verifier::rlimit(100)]
fn build_node_manager(op: Operation, vals: &Vec<Value>) -> (r: NodeCmd)
    requires
        op_group(op) == Group::NodeManager,
        values_ok(op_params_s(op), vals_deep(vals@)),
    ensures
        r@ == build_node_manager_s(op, vals_deep(vals@)),
{
    match op {
        Operation::NodeListNode => {
            proof {
                assert(op_params_s(op).len() == 1);
                assert(ok_value(op_params_s(op)[0], vals_deep(vals@)[0]));
            }
            NodeCmd::ListNode { height: val_height(vals, 0) }
        },
        Operation::NodeListStake => {
            proof {
                assert(op_params_s(op).len() == 1);
                assert(ok_value(op_params_s(op)[0], vals_deep(vals@)[0]));
            }
            NodeCmd::ListStake { height: val_height(vals, 0) }
        },
        Operation::NodeGetStatus => {
            proof {
                assert(op_params_s(op).len() == 2);
                assert(ok_value(op_params_s(op)[0], vals_deep(vals@)[0]));
                assert(ok_value(op_params_s(op)[1], vals_deep(vals@)[1]));
            }
            NodeCmd::GetStatus { address: val_addr(vals, 0), height: val_height(vals, 1) }
        },
        Operation::NodeDeleteNode => {
            proof {
                assert(op_params_s(op).len() == 3);
                assert(ok_value(op_params_s(op)[0], vals_deep(vals@)[0]));
                assert(ok_value(op_params_s(op)[1], vals_deep(vals@)[1]));
                assert(ok_value(op_params_s(op)[2], vals_deep(vals@)[2]));
            }
            NodeCmd::DeleteNode { admin_key: val_key(vals, 0), address: val_addr(vals, 1), quota: val_opt_u64(vals, 2) }
        },
        Operation::NodeApproveNode => {
            proof {
                assert(op_params_s(op).len() == 3);
                assert(ok_value(op_params_s(op)[0], vals_deep(vals@)[0]));
                assert(ok_value(op_params_s(op)[1], vals_deep(vals@)[1]));
                assert(ok_value(op_params_s(op)[2], vals_deep(vals@)[2]));
            }
            NodeCmd::ApproveNode { admin_key: val_key(vals, 0), address: val_addr(vals, 1), quota: val_opt_u64(vals, 2) }
        },
        Operation::NodeSetStake => {
            proof {
                assert(op_params_s(op).len() == 4);
                assert(ok_value(op_params_s(op)[0], vals_deep(vals@)[0]));
                assert(ok_value(op_params_s(op)[1], vals_deep(vals@)[1]));
                assert(ok_value(op_params_s(op)[2], vals_deep(vals@)[2]));
                assert(ok_value(op_params_s(op)[3], vals_deep(vals@)[3]));
            }
            NodeCmd::SetStake { admin_key: val_key(vals, 0), stake: val_u64(vals, 1), address: val_addr(vals, 2), quota: val_opt_u64(vals, 3) }
        },
        Operation::NodeStakePermillage => {
            proof {
                assert(op_params_s(op).len() == 2);
                assert(ok_value(op_params_s(op)[0], vals_deep(vals@)[0]));
                assert(ok_value(op_params_s(op)[1], vals_deep(vals@)[1]));
            }
            NodeCmd::StakePermillage { address: val_addr(vals, 0), height: val_height(vals, 1) }
        },
        _ => vstd::pervasive::unreached(),
    }
}

pub open spec fn node_manager_key_s(c: NodeCmdS) -> Option<Seq<u8>> {
    match c {
        NodeCmdS::ListNode { .. } => None,
        NodeCmdS::ListStake { .. } => None,
        NodeCmdS::GetStatus { .. } => None,
        NodeCmdS::DeleteNode { admin_key, .. } => Some(admin_key),
        NodeCmdS::ApproveNode { admin_key, .. } => Some(admin_key),
        NodeCmdS::SetStake { admin_key, .. } => Some(admin_key),
        NodeCmdS::StakePermillage { .. } => None,
    }
}

pub open spec fn node_manager_quota_s(c: NodeCmdS) -> Option<Option<u64>> {
    match c {
        NodeCmdS::ListNode { .. } => None,
        NodeCmdS::ListStake { .. } => None,
        NodeCmdS::GetStatus { .. } => None,
        NodeCmdS::DeleteNode { quota, .. } => Some(quota),
        NodeCmdS::ApproveNode { quota, .. } => Some(quota),
        NodeCmdS::SetStake { quota, .. } => Some(quota),
        NodeCmdS::StakePermillage { .. } => None,
    }
}

fn take_key_node_manager(c: &NodeCmd) -> (r: Option<String>)
    ensures
        match r {
            Some(k) => node_manager_key_s(c@) == Some(string_bytes(k)),
            None => node_manager_key_s(c@) is None,
        },
{
    match c {
        NodeCmd::ListNode { .. } => None,
        NodeCmd::ListStake { .. } => None,
        NodeCmd::GetStatus { .. } => None,
        NodeCmd::DeleteNode { admin_key, .. } => Some(admin_key.clone()),
        NodeCmd::ApproveNode { admin_key, .. } => Some(admin_key.clone()),
        NodeCmd::SetStake { admin_key, .. } => Some(admin_key.clone()),
        NodeCmd::StakePermillage { .. } => None,
    }
}

/// The typed commands of the QuotaManager contract.
#[derive(Clone, Debug, PartialEq, Eq)]
pub enum QuotaCmd {
    GetBql { height: BlockHeight },
    GetDefaultAql { height: BlockHeight },
    GetAccounts { height: BlockHeight },
    GetQuotas { height: BlockHeight },
    GetAql { address: String },
    SetBql { quota_limit: u64, admin_key: String, quota: Option<u64> },
    SetDefaultAql { quota_limit: u64, admin_key: String, quota: Option<u64> },
    SetAql { quota_limit: u64, admin_key: String, address: String, quota: Option<u64> },
}

/// The mathematical shape of a [`QuotaCmd`].
pub enum QuotaCmdS {
    GetBql { height: BlockHeight },
    GetDefaultAql { height: BlockHeight },
    GetAccounts { height: BlockHeight },
    GetQuotas { height: BlockHeight },
    GetAql { address: Seq<u8> },
    SetBql { quota_limit: u64, admin_key: Seq<u8>, quota: Option<u64> },
    SetDefaultAql { quota_limit: u64, admin_key: Seq<u8>, quota: Option<u64> },
    SetAql { quota_limit: u64, admin_key: Seq<u8>, address: Seq<u8>, quota: Option<u64> },
}

impl View for QuotaCmd {
    type V = QuotaCmdS;

    open spec fn view(&self) -> QuotaCmdS {
        match self {
            QuotaCmd::GetBql { height } => QuotaCmdS::GetBql { height: *height },
            QuotaCmd::GetDefaultAql { height } => QuotaCmdS::GetDefaultAql { height: *height },
            QuotaCmd::GetAccounts { height } => QuotaCmdS::GetAccounts { height: *height },
            QuotaCmd::GetQuotas { height } => QuotaCmdS::GetQuotas { height: *height },
            QuotaCmd::GetAql { address } => QuotaCmdS::GetAql { address: string_bytes(*address) },
            QuotaCmd::SetBql { quota_limit, admin_key, quota } => QuotaCmdS::SetBql { quota_limit: *quota_limit, admin_key: string_bytes(*admin_key), quota: *quota },
            QuotaCmd::SetDefaultAql { quota_limit, admin_key, quota } => QuotaCmdS::SetDefaultAql { quota_limit: *quota_limit, admin_key: string_bytes(*admin_key), quota: *quota },
            QuotaCmd::SetAql { quota_limit, admin_key, address, quota } => QuotaCmdS::SetAql { quota_limit: *quota_limit, admin_key: string_bytes(*admin_key), address: string_bytes(*address), quota: *quota },
        }
    }
}

pub open spec fn build_quota_manager_s(op: Operation, vs: Seq<ValueS>) -> QuotaCmdS {
    if op == Operation::QuotaGetBql {
        QuotaCmdS::GetBql { height: vs[0]->Height_0 }
    } else if op == Operation::QuotaGetDefaultAql {
        QuotaCmdS::GetDefaultAql { height: vs[0]->Height_0 }
    } else if op == Operation::QuotaGetAccounts {
        QuotaCmdS::GetAccounts { height: vs[0]->Height_0 }
    } else if op == Operation::QuotaGetQuotas {
        QuotaCmdS::GetQuotas { height: vs[0]->Height_0 }
    } else if op == Operation::QuotaGetAql {
        QuotaCmdS::GetAql { address: vs[0]->Addr_0 }
    } else if op == Operation::QuotaSetBql {
        QuotaCmdS::SetBql { quota_limit: vs[0]->U64_0, admin_key: vs[1]->Key_0, quota: opt_u64_s(vs[2]) }
    } else if op == Operation::QuotaSetDefaultAql {
        QuotaCmdS::SetDefaultAql { quota_limit: vs[0]->U64_0, admin_key: vs[1]->Key_0, quota: opt_u64_s(vs[2]) }
    } else if op == Operation::QuotaSetAql {
        QuotaCmdS::SetAql { quota_limit: vs[0]->U64_0, admin_key: vs[1]->Key_0, address: vs[2]->Addr_0, quota: opt_u64_s(vs[3]) }
    } else {
        vstd::pervasive::arbitrary()
    }
}

#[verifier::spinoff_prover]
#[verifier::rlimit(100)]
fn build_quota_manager(op: Operation, vals: &Vec<Value>) -> (r: QuotaCmd)
    requires
        op_group(op) == Group::QuotaManager,
        values_ok(op_params_s(op), vals_deep(vals@)),
    ensures
        r@ == build_quota_manager_s(op, vals_deep(vals@)),
{
    match op {
        Operation::QuotaGetBql => {
            proof {
                assert(op_params_s(op).len() == 1);
                assert(ok_value(op_params_s(op)[0], vals_deep(vals@)[0]));
            }
            QuotaCmd::GetBql { height: val_height(vals, 0) }
        },
        Operation::QuotaGetDefaultAql => {
            proof {
                assert(op_params_s(op).len() == 1);
                assert(ok_value(op_params_s(op)[0], vals_deep(vals@)[0]));
            }
            QuotaCmd::GetDefaultAql { height: val_height(vals, 0) }
        },
        Operation::QuotaGetAccounts => {
            proof {
                assert(op_params_s(op).len() == 1);
                assert(ok_value(op_params_s(op)[0], vals_deep(vals@)[0]));
            }
            QuotaCmd::GetAccounts { height: val_height(vals, 0) }
        },
        Operation::QuotaGetQuotas => {
            proof {
                assert(op_params_s(op).len() == 1);
                assert(ok_value(op_params_s(op)[0], vals_deep(vals@)[0]));
            }
            QuotaCmd::GetQuotas { height: val_height(vals, 0) }
        },
        Operation::QuotaGetAql => {
            proof {
                assert(op_params_s(op).len() == 1);
                assert(ok_value(op_params_s(op)[0], vals_deep(vals@)[0]));
            }
            QuotaCmd::GetAql { address: val_addr(vals, 0) }
        },
        Operation::QuotaSetBql => {
            proof {
                assert(op_params_s(op).len() == 3);
                assert(ok_value(op_params_s(op)[0], vals_deep(vals@)[0]));
                assert(ok_value(op_params_s(op)[1], vals_deep(vals@)[1]));
                assert(ok_value(op_params_s(op)[2], vals_deep(vals@)[2]));
            }
            QuotaCmd::SetBql { quota_limit: val_u64(vals, 0), admin_key: val_key(vals, 1), quota: val_opt_u64(vals, 2) }
        },
        Operation::QuotaSetDefaultAql => {
            proof {
                assert(op_params_s(op).len() == 3);
                assert(ok_value(op_params_s(op)[0], vals_deep(vals@)[0]));
                assert(ok_value(op_params_s(op)[1], vals_deep(vals@)[1]));
                assert(ok_value(op_params_s(op)[2], vals_deep(vals@)[2]));
            }
            QuotaCmd::SetDefaultAql { quota_limit: val_u64(vals, 0), admin_key: val_key(vals, 1), quota: val_opt_u64(vals, 2) }
        },
        Operation::QuotaSetAql => {
            proof {
                assert(op_params_s(op).len() == 4);
                assert(ok_value(op_params_s(op)[0], vals_deep(vals@)[0]));
                assert(ok_value(op_params_s(op)[1], vals_deep(vals@)[1]));
                assert(ok_value(op_params_s(op)[2], vals_deep(vals@)[2]));
                assert(ok_value(op_params_s(op)[3], vals_deep(vals@)[3]));
            }
            QuotaCmd::SetAql { quota_limit: val_u64(vals, 0), admin_key: val_key(vals, 1), address: val_addr(vals, 2), quota: val_opt_u64(vals, 3) }
        },
        _ => vstd::pervasive::unreached(),
    }
}

pub open spec fn quota_manager_key_s(c: QuotaCmdS) -> Option<Seq<u8>> {
    match c {
        QuotaCmdS::GetBql { .. } => None,
        QuotaCmdS::GetDefaultAql { .. } => None,
        QuotaCmdS::GetAccounts { .. } => None,
        QuotaCmdS::GetQuotas { .. } => None,
        QuotaCmdS::GetAql { .. } => None,
        QuotaCmdS::SetBql { admin_key, .. } => Some(admin_key),
        QuotaCmdS::SetDefaultAql { admin_key, .. } => Some(admin_key),
        QuotaCmdS::SetAql { admin_key, .. } => Some(admin_key),
    }
}

pub open spec fn quota_manager_quota_s(c: QuotaCmdS) -> Option<Option<u64>> {
    match c {
        QuotaCmdS::GetBql { .. } => None,
        QuotaCmdS::GetDefaultAql { .. } => None,
        QuotaCmdS::GetAccounts { .. } => None,
        QuotaCmdS::GetQuotas { .. } => None,
        QuotaCmdS::GetAql { .. } => None,
        QuotaCmdS::SetBql { quota, .. } => Some(quota),
        QuotaCmdS::SetDefaultAql { quota, .. } => Some(quota),
        QuotaCmdS::SetAql { quota, .. } => Some(quota),
    }
}

fn take_key_quota_manager(c: &QuotaCmd) -> (r: Option<String>)
    ensures
        match r {
            Some(k) => quota_manager_key_s(c@) == Some(string_bytes(k)),
            None => quota_manager_key_s(c@) is None,
        },
{
    match c {
        QuotaCmd::GetBql { .. } => None,
        QuotaCmd::GetDefaultAql { .. } => None,
        QuotaCmd::GetAccounts { .. } => None,
        QuotaCmd::GetQuotas { .. } => None,
        QuotaCmd::GetAql { .. } => None,
        QuotaCmd::SetBql { admin_key, .. } => Some(admin_key.clone()),
        QuotaCmd::SetDefaultAql { admin_key, .. } => Some(admin_key.clone()),
        QuotaCmd::SetAql { admin_key, .. } => Some(admin_key.clone()),
    }
}

/// The typed commands of the Group contract.
#[derive(Clone, Debug, PartialEq, Eq)]
pub enum GroupCmd {
    QueryInfo { address: String, height: BlockHeight },
    QueryName { address: String, height: BlockHeight },
    QueryAccounts { address: String, height: BlockHeight },
    QueryChild { address: String, height: BlockHeight },
    QueryChildLength { address: String, height: BlockHeight },
    QueryParent { address: String, height: BlockHeight },
    InGroup { address: String, account: String, height: BlockHeight },
}

/// The mathematical shape of a [`GroupCmd`].
pub enum GroupCmdS {
    QueryInfo { address: Seq<u8>, height: BlockHeight },
    QueryName { address: Seq<u8>, height: BlockHeight },
    QueryAccounts { address: Seq<u8>, height: BlockHeight },
    QueryChild { address: Seq<u8>, height: BlockHeight },
    QueryChildLength { address: Seq<u8>, height: BlockHeight },
    QueryParent { address: Seq<u8>, height: BlockHeight },
    InGroup { address: Seq<u8>, account: Seq<u8>, height: BlockHeight },
}

impl View for GroupCmd {
    type V = GroupCmdS;

    open spec fn view(&self) -> GroupCmdS {
        match self {
            GroupCmd::QueryInfo { address, height } => GroupCmdS::QueryInfo { address: string_bytes(*address), height: *height },
            GroupCmd::QueryName { address, height } => GroupCmdS::QueryName { address: string_bytes(*address), height: *height },
            GroupCmd::QueryAccounts { address, height } => GroupCmdS::QueryAccounts { address: string_bytes(*address), height: *height },
            GroupCmd::QueryChild { address, height } => GroupCmdS::QueryChild { address: string_bytes(*address), height: *height },
            GroupCmd::QueryChildLength { address, height } => GroupCmdS::QueryChildLength { address: string_bytes(*address), height: *height },
            GroupCmd::QueryParent { address, height } => GroupCmdS::QueryParent { address: string_bytes(*address), height: *height },
            GroupCmd::InGroup { address, account, height } => GroupCmdS::InGroup { address: string_bytes(*address), account: string_bytes(*account), height: *height },
        }
    }
}

pub open spec fn build_group_s(op: Operation, vs: Seq<ValueS>) -> GroupCmdS {
    if op == Operation::GroupQueryInfo {
        GroupCmdS::QueryInfo { address: vs[0]->Addr_0, height: vs[1]->Height_0 }
    } else if op == Operation::GroupQueryName {
        GroupCmdS::QueryName { address: vs[0]->Addr_0, height: vs[1]->Height_0 }
    } else if op == Operation::GroupQueryAccounts {
        GroupCmdS::QueryAccounts { address: vs[0]->Addr_0, height: vs[1]->Height_0 }
    } else if op == Operation::GroupQueryChild {
        GroupCmdS::QueryChild { address: vs[0]->Addr_0, height: vs[1]->Height_0 }
    } else if op == Operation::GroupQueryChildLength {
        GroupCmdS::QueryChildLength { address: vs[0]->Addr_0, height: vs[1]->Height_0 }
    } else if op == Operation::GroupQueryParent {
        GroupCmdS::QueryParent { address: vs[0]->Addr_0, height: vs[1]->Height_0 }
    } else if op == Operation::GroupInGroup {
        GroupCmdS::InGroup { address: vs[0]->Addr_0, account: vs[1]->Addr_0, height: vs[2]->Height_0 }
    } else {
        vstd::pervasive::arbitrary()
    }
}

#[verifier::spinoff_prover]
#[verifier::rlimit(100)]
fn build_group(op: Operation, vals: &Vec<Value>) -> (r: GroupCmd)
    requires
        op_group(op) == Group::Group,
        values_ok(op_params_s(op), vals_deep(vals@)),
    ensures
        r@ == build_group_s(op, vals_deep(vals@)),
{
    match op {
        Operation::GroupQueryInfo => {
            proof {
                assert(op_params_s(op).len() == 2);
                assert(ok_value(op_params_s(op)[0], vals_deep(vals@)[0]));
                assert(ok_value(op_params_s(op)[1], vals_deep(vals@)[1]));
            }
            GroupCmd::QueryInfo { address: val_addr(vals, 0), height: val_height(vals, 1) }
        },
        Operation::GroupQueryName => {
            proof {
                assert(op_params_s(op).len() == 2);
                assert(ok_value(op_params_s(op)[0], vals_deep(vals@)[0]));
                assert(ok_value(op_params_s(op)[1], vals_deep(vals@)[1]));
            }
            GroupCmd::QueryName { address: val_addr(vals, 0), height: val_height(vals, 1) }
        },
        Operation::GroupQueryAccounts => {
            proof {
                assert(op_params_s(op).len() == 2);
                assert(ok_value(op_params_s(op)[0], vals_deep(vals@)[0]));
                assert(ok_value(op_params_s(op)[1], vals_deep(vals@)[1]));
            }
            GroupCmd::QueryAccounts { address: val_addr(vals, 0), height: val_height(vals, 1) }
        },
        Operation::GroupQueryChild => {
            proof {
                assert(op_params_s(op).len() == 2);
                assert(ok_value(op_params_s(op)[0], vals_deep(vals@)[0]));
                assert(ok_value(op_params_s(op)[1], vals_deep(vals@)[1]));
            }
            GroupCmd::QueryChild { address: val_addr(vals, 0), height: val_height(vals, 1) }
        },
        Operation::GroupQueryChildLength => {
            proof {
                assert(op_params_s(op).len() == 2);
                assert(ok_value(op_params_s(op)[0], vals_deep(vals@)[0]));
                assert(ok_value(op_params_s(op)[1], vals_deep(vals@)[1]));
            }
            GroupCmd::QueryChildLength { address: val_addr(vals, 0), height: val_height(vals, 1) }
        },
        Operation::GroupQueryParent => {
            proof {
                assert(op_params_s(op).len() == 2);
                assert(ok_value(op_params_s(op)[0], vals_deep(vals@)[0]));
                assert(ok_value(op_params_s(op)[1], vals_deep(vals@)[1]));
            }
            GroupCmd::QueryParent { address: val_addr(vals, 0), height: val_height(vals, 1) }
        },
        Operation::GroupInGroup => {
            proof {
                assert(op_params_s(op).len() == 3);
                assert(ok_value(op_params_s(op)[0], vals_deep(vals@)[0]));
                assert(ok_value(op_params_s(op)[1], vals_deep(vals@)[1]));
                assert(ok_value(op_params_s(op)[2], vals_deep(vals@)[2]));
            }
            GroupCmd::InGroup { address: val_addr(vals, 0), account: val_addr(vals, 1), height: val_height(vals, 2) }
        },
        _ => vstd::pervasive::unreached(),
    }
}

pub open spec fn group_key_s(c: GroupCmdS) -> Option<Seq<u8>> {
    match c {
        GroupCmdS::QueryInfo { .. } => None,
        GroupCmdS::QueryName { .. } => None,
        GroupCmdS::QueryAccounts { .. } => None,
        GroupCmdS::QueryChild { .. } => None,
        GroupCmdS::QueryChildLength { .. } => None,
        GroupCmdS::QueryParent { .. } => None,
        GroupCmdS::InGroup { .. } => None,
    }
}

pub open spec fn group_quota_s(c: GroupCmdS) -> Option<Option<u64>> {
    match c {
        GroupCmdS::QueryInfo { .. } => None,
        GroupCmdS::QueryName { .. } => None,
        GroupCmdS::QueryAccounts { .. } => None,
        GroupCmdS::QueryChild { .. } => None,
        GroupCmdS::QueryChildLength { .. } => None,
        GroupCmdS::QueryParent { .. } => None,
        GroupCmdS::InGroup { .. } => None,
    }
}

fn take_key_group(c: &GroupCmd) -> (r: Option<String>)
    ensures
        match r {
            Some(k) => group_key_s(c@) == Some(string_bytes(k)),
            None => group_key_s(c@) is None,
        },
{
    match c {
        GroupCmd::QueryInfo { .. } => None,
        GroupCmd::QueryName { .. } => None,
        GroupCmd::QueryAccounts { .. } => None,
        GroupCmd::QueryChild { .. } => None,
        GroupCmd::QueryChildLength { .. } => None,
        GroupCmd::QueryParent { .. } => None,
        GroupCmd::InGroup { .. } => None,
    }
}

/// The typed commands of the GroupManagement contract.
#[derive(Clone, Debug, PartialEq, Eq)]
pub enum GroupMgmtCmd {
    NewGroup { origin: String, name: String, accounts: String, quota: Option<u64>, key: String },
    DeleteGroup { origin: String, target: String, quota: Option<u64>, key: String },
    UpdateGroupName { origin: String, target: String, name: String, quota: Option<u64>, key: String },
    AddAccounts { origin: String, target: String, accounts: String, quota: Option<u64>, key: String },
    DeleteAccounts { origin: String, target: String, accounts: String, quota: Option<u64>, key: String },
    CheckScope { origin: String, target: String, height: BlockHeight },
    QueryGroups { height: BlockHeight },
}

/// The mathematical shape of a [`GroupMgmtCmd`].
pub enum GroupMgmtCmdS {
    NewGroup { origin: Seq<u8>, name: Seq<u8>, accounts: Seq<u8>, quota: Option<u64>, key: Seq<u8> },
    DeleteGroup { origin: Seq<u8>, target: Seq<u8>, quota: Option<u64>, key: Seq<u8> },
    UpdateGroupName { origin: Seq<u8>, target: Seq<u8>, name: Seq<u8>, quota: Option<u64>, key: Seq<u8> },
    AddAccounts { origin: Seq<u8>, target: Seq<u8>, accounts: Seq<u8>, quota: Option<u64>, key: Seq<u8> },
    DeleteAccounts { origin: Seq<u8>, target: Seq<u8>, accounts: Seq<u8>, quota: Option<u64>, key: Seq<u8> },
    CheckScope { origin: Seq<u8>, target: Seq<u8>, height: BlockHeight },
    QueryGroups { height: BlockHeight },
}

impl View for GroupMgmtCmd {
    type V = GroupMgmtCmdS;

    open spec fn view(&self) -> GroupMgmtCmdS {
        match self {
            GroupMgmtCmd::NewGroup { origin, name, accounts, quota, key } => GroupMgmtCmdS::NewGroup { origin: string_bytes(*origin), name: string_bytes(*name), accounts: string_bytes(*accounts), quota: *quota, key: string_bytes(*key) },
            GroupMgmtCmd::DeleteGroup { origin, target, quota, key } => GroupMgmtCmdS::DeleteGroup { origin: string_bytes(*origin), target: string_bytes(*target), quota: *quota, key: string_bytes(*key) },
            GroupMgmtCmd::UpdateGroupName { origin, target, name, quota, key } => GroupMgmtCmdS::UpdateGroupName { origin: string_bytes(*origin), target: string_bytes(*target), name: string_bytes(*name), quota: *quota, key: string_bytes(*key) },
            GroupMgmtCmd::AddAccounts { origin, target, accounts, quota, key } => GroupMgmtCmdS::AddAccounts { origin: string_bytes(*origin), target: string_bytes(*target), accounts: string_bytes(*accounts), quota: *quota, key: string_bytes(*key) },
            GroupMgmtCmd::DeleteAccounts { origin, target, accounts, quota, key } => GroupMgmtCmdS::DeleteAccounts { origin: string_bytes(*origin), target: string_bytes(*target), accounts: string_bytes(*accounts), quota: *quota, key: string_bytes(*key) },
            GroupMgmtCmd::CheckScope { origin, target, height } => GroupMgmtCmdS::CheckScope { origin: string_bytes(*origin), target: string_bytes(*target), height: *height },
            GroupMgmtCmd::QueryGroups { height } => GroupMgmtCmdS::QueryGroups { height: *height },
        }
    }
}

pub open spec fn build_group_management_s(op: Operation, vs: Seq<ValueS>) -> GroupMgmtCmdS {
    if op == Operation::GmNewGroup {
        GroupMgmtCmdS::NewGroup { origin: vs[0]->Hex_0, name: vs[1]->Text_0, accounts: vs[2]->Text_0, quota: opt_u64_s(vs[3]), key: vs[4]->Key_0 }
    } else if op == Operation::GmDeleteGroup {
        GroupMgmtCmdS::DeleteGroup { origin: vs[0]->Hex_0, target: vs[1]->Hex_0, quota: opt_u64_s(vs[2]), key: vs[3]->Key_0 }
    } else if op == Operation::GmUpdateGroupName {
        GroupMgmtCmdS::UpdateGroupName { origin: vs[0]->Hex_0, target: vs[1]->Hex_0, name: vs[2]->Text_0, quota: opt_u64_s(vs[3]), key: vs[4]->Key_0 }
    } else if op == Operation::GmAddAccounts {
        GroupMgmtCmdS::AddAccounts { origin: vs[0]->Hex_0, target: vs[1]->Hex_0, accounts: vs[2]->Text_0, quota: opt_u64_s(vs[3]), key: vs[4]->Key_0 }
    } else if op == Operation::GmDeleteAccounts {
        GroupMgmtCmdS::DeleteAccounts { origin: vs[0]->Hex_0, target: vs[1]->Hex_0, accounts: vs[2]->Text_0, quota: opt_u64_s(vs[3]), key: vs[4]->Key_0 }
    } else if op == Operation::GmCheckScope {
        GroupMgmtCmdS::CheckScope { origin: vs[0]->Hex_0, target: vs[1]->Hex_0, height: vs[2]->Height_0 }
    } else if op == Operation::GmQueryGroups {
        GroupMgmtCmdS::QueryGroups { height: vs[0]->Height_0 }
    } else {
        vstd::pervasive::arbitrary()
    }
}

#[verifier::spinoff_prover]
#[verifier::rlimit(100)]
fn build_group_management(op: Operation, vals: &Vec<Value>) -> (r: GroupMgmtCmd)
    requires
        op_group(op) == Group::GroupManagement,
        values_ok(op_params_s(op), vals_deep(vals@)),
    ensures
        r@ == build_group_management_s(op, vals_deep(vals@)),
{
    match op {
        Operation::GmNewGroup => {
            proof {
                assert(op_params_s(op).len() == 5);
                assert(ok_value(op_params_s(op)[0], vals_deep(vals@)[0]));
                assert(ok_value(op_params_s(op)[1], vals_deep(vals@)[1]));
                assert(ok_value(op_params_s(op)[2], vals_deep(vals@)[2]));
                assert(ok_value(op_params_s(op)[3], vals_deep(vals@)[3]));
                assert(ok_value(op_params_s(op)[4], vals_deep(vals@)[4]));
            }
            GroupMgmtCmd::NewGroup { origin: val_hex(vals, 0), name: val_text(vals, 1), accounts: val_text(vals, 2), quota: val_opt_u64(vals, 3), key: val_key(vals, 4) }
        },
        Operation::GmDeleteGroup => {
            proof {
                assert(op_params_s(op).len() == 4);
                assert(ok_value(op_params_s(op)[0], vals_deep(vals@)[0]));
                assert(ok_value(op_params_s(op)[1], vals_deep(vals@)[1]));
                assert(ok_value(op_params_s(op)[2], vals_deep(vals@)[2]));
                assert(ok_value(op_params_s(op)[3], vals_deep(vals@)[3]));
            }
            GroupMgmtCmd::DeleteGroup { origin: val_hex(vals, 0), target: val_hex(vals, 1), quota: val_opt_u64(vals, 2), key: val_key(vals, 3) }
        },
        Operation::GmUpdateGroupName => {
            proof {
                assert(op_params_s(op).len() == 5);
                assert(ok_value(op_params_s(op)[0], vals_deep(vals@)[0]));
                assert(ok_value(op_params_s(op)[1], vals_deep(vals@)[1]));
                assert(ok_value(op_params_s(op)[2], vals_deep(vals@)[2]));
                assert(ok_value(op_params_s(op)[3], vals_deep(vals@)[3]));
                assert(ok_value(op_params_s(op)[4], vals_deep(vals@)[4]));
            }
            GroupMgmtCmd::UpdateGroupName { origin: val_hex(vals, 0), target: val_hex(vals, 1), name: val_text(vals, 2), quota: val_opt_u64(vals, 3), key: val_key(vals, 4) }
        },
        Operation::GmAddAccounts => {
            proof {
                assert(op_params_s(op).len() == 5);
                assert(ok_value(op_params_s(op)[0], vals_deep(vals@)[0]));
                assert(ok_value(op_params_s(op)[1], vals_deep(vals@)[1]));
                assert(ok_value(op_params_s(op)[2], vals_deep(vals@)[2]));
                assert(ok_value(op_params_s(op)[3], vals_deep(vals@)[3]));
                assert(ok_value(op_params_s(op)[4], vals_deep(vals@)[4]));
            }
            GroupMgmtCmd::AddAccounts { origin: val_hex(vals, 0), target: val_hex(vals, 1), accounts: val_text(vals, 2), quota: val_opt_u64(vals, 3), key: val_key(vals, 4) }
        },
        Operation::GmDeleteAccounts => {
            proof {
                assert(op_params_s(op).len() == 5);
                assert(ok_value(op_params_s(op)[0], vals_deep(vals@)[0]));
                assert(ok_value(op_params_s(op)[1], vals_deep(vals@)[1]));
                assert(ok_value(op_params_s(op)[2], vals_deep(vals@)[2]));
                assert(ok_value(op_params_s(op)[3], vals_deep(vals@)[3]));
                assert(ok_value(op_params_s(op)[4], vals_deep(vals@)[4]));
            }
            GroupMgmtCmd::DeleteAccounts { origin: val_hex(vals, 0), target: val_hex(vals, 1), accounts: val_text(vals, 2), quota: val_opt_u64(vals, 3), key: val_key(vals, 4) }
        },
        Operation::GmCheckScope => {
            proof {
                assert(op_params_s(op).len() == 3);
                assert(ok_value(op_params_s(op)[0], vals_deep(vals@)[0]));
                assert(ok_value(op_params_s(op)[1], vals_deep(vals@)[1]));
                assert(ok_value(op_params_s(op)[2], vals_deep(vals@)[2]));
            }
            GroupMgmtCmd::CheckScope { origin: val_hex(vals, 0), target: val_hex(vals, 1), height: val_height(vals, 2) }
        },
        Operation::GmQueryGroups => {
            proof {
                assert(op_params_s(op).len() == 1);
                assert(ok_value(op_params_s(op)[0], vals_deep(vals@)[0]));
            }
            GroupMgmtCmd::QueryGroups { height: val_height(vals, 0) }
        },
        _ => vstd::pervasive::unreached(),
    }
}

pub open spec fn group_management_key_s(c: GroupMgmtCmdS) -> Option<Seq<u8>> {
    match c {
        GroupMgmtCmdS::NewGroup { key, .. } => Some(key),
        GroupMgmtCmdS::DeleteGroup { key, .. } => Some(key),
        GroupMgmtCmdS::UpdateGroupName { key, .. } => Some(key),
        GroupMgmtCmdS::AddAccounts { key, .. } => Some(key),
        GroupMgmtCmdS::DeleteAccounts { key, .. } => Some(key),
        GroupMgmtCmdS::CheckScope { .. } => None,
        GroupMgmtCmdS::QueryGroups { .. } => None,
    }
}

pub open spec fn group_management_quota_s(c: GroupMgmtCmdS) -> Option<Option<u64>> {
    match c {
        GroupMgmtCmdS::NewGroup { quota, .. } => Some(quota),
        GroupMgmtCmdS::DeleteGroup { quota, .. } => Some(quota),
        GroupMgmtCmdS::UpdateGroupName { quota, .. } => Some(quota),
        GroupMgmtCmdS::AddAccounts { quota, .. } => Some(quota),
        GroupMgmtCmdS::DeleteAccounts { quota, .. } => Some(quota),
        GroupMgmtCmdS::CheckScope { .. } => None,
        GroupMgmtCmdS::QueryGroups { .. } => None,
    }
}

fn take_key_group_management(c: &GroupMgmtCmd) -> (r: Option<String>)
    ensures
        match r {
            Some(k) => group_management_key_s(c@) == Some(string_bytes(k)),
            None => group_management_key_s(c@) is None,
        },
{
    match c {
        GroupMgmtCmd::NewGroup { key, .. } => Some(key.clone()),
        GroupMgmtCmd::DeleteGroup { key, .. } => Some(key.clone()),
        GroupMgmtCmd::UpdateGroupName { key, .. } => Some(key.clone()),
        GroupMgmtCmd::AddAccounts { key, .. } => Some(key.clone()),
        GroupMgmtCmd::DeleteAccounts { key, .. } => Some(key.clone()),
        GroupMgmtCmd::CheckScope { .. } => None,
        GroupMgmtCmd::QueryGroups { .. } => None,
    }
}

/// The typed commands of the Role contract.
#[derive(Clone, Debug, PartialEq, Eq)]
pub enum RoleCmd {
    QueryRole { address: String, height: BlockHeight },
    QueryName { address: String, height: BlockHeight },
    QueryPermissions { address: String, height: BlockHeight },
    LengthOfPermissions { address: String, height: BlockHeight },
    InPermissions { address: String, permission: String, height: BlockHeight },
}

/// The mathematical shape of a [`RoleCmd`].
pub enum RoleCmdS {
    QueryRole { address: Seq<u8>, height: BlockHeight },
    QueryName { address: Seq<u8>, height: BlockHeight },
    QueryPermissions { address: Seq<u8>, height: BlockHeight },
    LengthOfPermissions { address: Seq<u8>, height: BlockHeight },
    InPermissions { address: Seq<u8>, permission: Seq<u8>, height: BlockHeight },
}

impl View for RoleCmd {
    type V = RoleCmdS;

    open spec fn view(&self) -> RoleCmdS {
        match self {
            RoleCmd::QueryRole { address, height } => RoleCmdS::QueryRole { address: string_bytes(*address), height: *height },
            RoleCmd::QueryName { address, height } => RoleCmdS::QueryName { address: string_bytes(*address), height: *height },
            RoleCmd::QueryPermissions { address, height } => RoleCmdS::QueryPermissions { address: string_bytes(*address), height: *height },
            RoleCmd::LengthOfPermissions { address, height } => RoleCmdS::LengthOfPermissions { address: string_bytes(*address), height: *height },
            RoleCmd::InPermissions { address, permission, height } => RoleCmdS::InPermissions { address: string_bytes(*address), permission: string_bytes(*permission), height: *height },
        }
    }
}

pub open spec fn build_role_s(op: Operation, vs: Seq<ValueS>) -> RoleCmdS {
    if op == Operation::RoleQueryRole {
        RoleCmdS::QueryRole { address: vs[0]->Addr_0, height: vs[1]->Height_0 }
    } else if op == Operation::RoleQueryName {
        RoleCmdS::QueryName { address: vs[0]->Addr_0, height: vs[1]->Height_0 }
    } else if op == Operation::RoleQueryPermissions {
        RoleCmdS::QueryPermissions { address: vs[0]->Addr_0, height: vs[1]->Height_0 }
    } else if op == Operation::RoleLengthOfPermissions {
        RoleCmdS::LengthOfPermissions { address: vs[0]->Addr_0, height: vs[1]->Height_0 }
    } else if op == Operation::RoleInPermissions {
        RoleCmdS::InPermissions { address: vs[0]->Addr_0, permission: vs[1]->Addr_0, height: vs[2]->Height_0 }
    } else {
        vstd::pervasive::arbitrary()
    }
}

#[verifier::spinoff_prover]
#[verifier::rlimit(100)]
fn build_role(op: Operation, vals: &Vec<Value>) -> (r: RoleCmd)
    requires
        op_group(op) == Group::Role,
        values_ok(op_params_s(op), vals_deep(vals@)),
    ensures
        r@ == build_role_s(op, vals_deep(vals@)),
{
    match op {
        Operation::RoleQueryRole => {
            proof {
                assert(op_params_s(op).len() == 2);
                assert(ok_value(op_params_s(op)[0], vals_deep(vals@)[0]));
                assert(ok_value(op_params_s(op)[1], vals_deep(vals@)[1]));
            }
            RoleCmd::QueryRole { address: val_addr(vals, 0), height: val_height(vals, 1) }
        },
        Operation::RoleQueryName => {
            proof {
                assert(op_params_s(op).len() == 2);
                assert(ok_value(op_params_s(op)[0], vals_deep(vals@)[0]));
                assert(ok_value(op_params_s(op)[1], vals_deep(vals@)[1]));
            }
            RoleCmd::QueryName { address: val_addr(vals, 0), height: val_height(vals, 1) }
        },
        Operation::RoleQueryPermissions => {
            proof {
                assert(op_params_s(op).len() == 2);
                assert(ok_value(op_params_s(op)[0], vals_deep(vals@)[0]));
                assert(ok_value(op_params_s(op)[1], vals_deep(vals@)[1]));
            }
            RoleCmd::QueryPermissions { address: val_addr(vals, 0), height: val_height(vals, 1) }
        },
        Operation::RoleLengthOfPermissions => {
            proof {
                assert(op_params_s(op).len() == 2);
                assert(ok_value(op_params_s(op)[0], vals_deep(vals@)[0]));
                assert(ok_value(op_params_s(op)[1], vals_deep(vals@)[1]));
            }
            RoleCmd::LengthOfPermissions { address: val_addr(vals, 0), height: val_height(vals, 1) }
        },
        Operation::RoleInPermissions => {
            proof {
                assert(op_params_s(op).len() == 3);
                assert(ok_value(op_params_s(op)[0], vals_deep(vals@)[0]));
                assert(ok_value(op_params_s(op)[1], vals_deep(vals@)[1]));
                assert(ok_value(op_params_s(op)[2], vals_deep(vals@)[2]));
            }
            RoleCmd::InPermissions { address: val_addr(vals, 0), permission: val_addr(vals, 1), height: val_height(vals, 2) }
        },
        _ => vstd::pervasive::unreached(),
    }
}

pub open spec fn role_key_s(c: RoleCmdS) -> Option<Seq<u8>> {
    match c {
        RoleCmdS::QueryRole { .. } => None,
        RoleCmdS::QueryName { .. } => None,
        RoleCmdS::QueryPermissions { .. } => None,
        RoleCmdS::LengthOfPermissions { .. } => None,
        RoleCmdS::InPermissions { .. } => None,
    }
}

pub open spec fn role_quota_s(c: RoleCmdS) -> Option<Option<u64>> {
    match c {
        RoleCmdS::QueryRole { .. } => None,
        RoleCmdS::QueryName { .. } => None,
        RoleCmdS::QueryPermissions { .. } => None,
        RoleCmdS::LengthOfPermissions { .. } => None,
        RoleCmdS::InPermissions { .. } => None,
    }
}

fn take_key_role(c: &RoleCmd) -> (r: Option<String>)
    ensures
        match r {
            Some(k) => role_key_s(c@) == Some(string_bytes(k)),
            None => role_key_s(c@) is None,
        },
{
    match c {
        RoleCmd::QueryRole { .. } => None,
        RoleCmd::QueryName { .. } => None,
        RoleCmd::QueryPermissions { .. } => None,
        RoleCmd::LengthOfPermissions { .. } => None,
        RoleCmd::InPermissions { .. } => None,
    }
}

/// The typed commands of the RoleManagement contract.
#[derive(Clone, Debug, PartialEq, Eq)]
pub enum RoleMgmtCmd {
    NewRole { name: String, permissions: String, quota: Option<u64>, key: String },
    DeleteRole { address: String, quota: Option<u64>, key: String },
    UpdateRoleName { address: String, name: String, quota: Option<u64>, key: String },
    AddPermissions { address: String, permissions: String, quota: Option<u64>, key: String },
    DeletePermissions { address: String, permissions: String, quota: Option<u64>, key: String },
    SetRole { account: String, address: String, quota: Option<u64>, key: String },
    CancelRole { account: String, address: String, quota: Option<u64>, key: String },
    ClearRole { account: String, quota: Option<u64>, key: String },
    QueryRoles { account: String, height: BlockHeight },
    QueryAccounts { address: String, height: BlockHeight },
}

/// The mathematical shape of a [`RoleMgmtCmd`].
pub enum RoleMgmtCmdS {
    NewRole { name: Seq<u8>, permissions: Seq<u8>, quota: Option<u64>, key: Seq<u8> },
    DeleteRole { address: Seq<u8>, quota: Option<u64>, key: Seq<u8> },
    UpdateRoleName { address: Seq<u8>, name: Seq<u8>, quota: Option<u64>, key: Seq<u8> },
    AddPermissions { address: Seq<u8>, permissions: Seq<u8>, quota: Option<u64>, key: Seq<u8> },
    DeletePermissions { address: Seq<u8>, permissions: Seq<u8>, quota: Option<u64>, key: Seq<u8> },
    SetRole { account: Seq<u8>, address: Seq<u8>, quota: Option<u64>, key: Seq<u8> },
    CancelRole { account: Seq<u8>, address: Seq<u8>, quota: Option<u64>, key: Seq<u8> },
    ClearRole { account: Seq<u8>, quota: Option<u64>, key: Seq<u8> },
    QueryRoles { account: Seq<u8>, height: BlockHeight },
    QueryAccounts { address: Seq<u8>, height: BlockHeight },
}

impl View for RoleMgmtCmd {
    type V = RoleMgmtCmdS;

    open spec fn view(&self) -> RoleMgmtCmdS {
        match self {
            RoleMgmtCmd::NewRole { name, permissions, quota, key } => RoleMgmtCmdS::NewRole { name: string_bytes(*name), permissions: string_bytes(*permissions), quota: *quota, key: string_bytes(*key) },
            RoleMgmtCmd::DeleteRole { address, quota, key } => RoleMgmtCmdS::DeleteRole { address: string_bytes(*address), quota: *quota, key: string_bytes(*key) },
            RoleMgmtCmd::UpdateRoleName { address, name, quota, key } => RoleMgmtCmdS::UpdateRoleName { address: string_bytes(*address), name: string_bytes(*name), quota: *quota, key: string_bytes(*key) },
            RoleMgmtCmd::AddPermissions { address, permissions, quota, key } => RoleMgmtCmdS::AddPermissions { address: string_bytes(*address), permissions: string_bytes(*permissions), quota: *quota, key: string_bytes(*key) },
            RoleMgmtCmd::DeletePermissions { address, permissions, quota, key } => RoleMgmtCmdS::DeletePermissions { address: string_bytes(*address), permissions: string_bytes(*permissions), quota: *quota, key: string_bytes(*key) },
            RoleMgmtCmd::SetRole { account, address, quota, key } => RoleMgmtCmdS::SetRole { account: string_bytes(*account), address: string_bytes(*address), quota: *quota, key: string_bytes(*key) },
            RoleMgmtCmd::CancelRole { account, address, quota, key } => RoleMgmtCmdS::CancelRole { account: string_bytes(*account), address: string_bytes(*address), quota: *quota, key: string_bytes(*key) },
            RoleMgmtCmd::ClearRole { account, quota, key } => RoleMgmtCmdS::ClearRole { account: string_bytes(*account), quota: *quota, key: string_bytes(*key) },
            RoleMgmtCmd::QueryRoles { account, height } => RoleMgmtCmdS::QueryRoles { account: string_bytes(*account), height: *height },
            RoleMgmtCmd::QueryAccounts { address, height } => RoleMgmtCmdS::QueryAccounts { address: string_bytes(*address), height: *height },
        }
    }
}

pub open spec fn build_role_management_s(op: Operation, vs: Seq<ValueS>) -> RoleMgmtCmdS {
    if op == Operation::RmNewRole {
        RoleMgmtCmdS::NewRole { name: vs[0]->Text_0, permissions: vs[1]->Hex_0, quota: opt_u64_s(vs[2]), key: vs[3]->Key_0 }
    } else if op == Operation::RmDeleteRole {
        RoleMgmtCmdS::DeleteRole { address: vs[0]->Addr_0, quota: opt_u64_s(vs[1]), key: vs[2]->Key_0 }
    } else if op == Operation::RmUpdateRoleName {
        RoleMgmtCmdS::UpdateRoleName { address: vs[0]->Addr_0, name: vs[1]->Text_0, quota: opt_u64_s(vs[2]), key: vs[3]->Key_0 }
    } else if op == Operation::RmAddPermissions {
        RoleMgmtCmdS::AddPermissions { address: vs[0]->Addr_0, permissions: vs[1]->Hex_0, quota: opt_u64_s(vs[2]), key: vs[3]->Key_0 }
    } else if op == Operation::RmDeletePermissions {
        RoleMgmtCmdS::DeletePermissions { address: vs[0]->Addr_0, permissions: vs[1]->Hex_0, quota: opt_u64_s(vs[2]), key: vs[3]->Key_0 }
    } else if op == Operation::RmSetRole {
        RoleMgmtCmdS::SetRole { account: vs[0]->Addr_0, address: vs[1]->Addr_0, quota: opt_u64_s(vs[2]), key: vs[3]->Key_0 }
    } else if op == Operation::RmCancelRole {
        RoleMgmtCmdS::CancelRole { account: vs[0]->Addr_0, address: vs[1]->Addr_0, quota: opt_u64_s(vs[2]), key: vs[3]->Key_0 }
    } else if op == Operation::RmClearRole {
        RoleMgmtCmdS::ClearRole { account: vs[0]->Addr_0, quota: opt_u64_s(vs[1]), key: vs[2]->Key_0 }
    } else if op == Operation::RmQueryRoles {
        RoleMgmtCmdS::QueryRoles { account: vs[0]->Addr_0, height: vs[1]->Height_0 }
    } else if op == Operation::RmQueryAccounts {
        RoleMgmtCmdS::QueryAccounts { address: vs[0]->Addr_0, height: vs[1]->Height_0 }
    } else {
        vstd::pervasive::arbitrary()
    }
}

#[verifier::spinoff_prover]
#[verifier::rlimit(100)]
fn build_role_management(op: Operation, vals: &Vec<Value>) -> (r: RoleMgmtCmd)
    requires
        op_group(op) == Group::RoleManagement,
        values_ok(op_params_s(op), vals_deep(vals@)),
    ensures
        r@ == build_role_management_s(op, vals_deep(vals@)),
{
    match op {
        Operation::RmNewRole => {
            proof {
                assert(op_params_s(op).len() == 4);
                assert(ok_value(op_params_s(op)[0], vals_deep(vals@)[0]));
                assert(ok_value(op_params_s(op)[1], vals_deep(vals@)[1]));
                assert(ok_value(op_params_s(op)[2], vals_deep(vals@)[2]));
                assert(ok_value(op_params_s(op)[3], vals_deep(vals@)[3]));
            }
            RoleMgmtCmd::NewRole { name: val_text(vals, 0), permissions: val_hex(vals, 1), quota: val_opt_u64(vals, 2), key: val_key(vals, 3) }
        },
        Operation::RmDeleteRole => {
            proof {
                assert(op_params_s(op).len() == 3);
                assert(ok_value(op_params_s(op)[0], vals_deep(vals@)[0]));
                assert(ok_value(op_params_s(op)[1], vals_deep(vals@)[1]));
                assert(ok_value(op_params_s(op)[2], vals_deep(vals@)[2]));
            }
            RoleMgmtCmd::DeleteRole { address: val_addr(vals, 0), quota: val_opt_u64(vals, 1), key: val_key(vals, 2) }
        },
        Operation::RmUpdateRoleName => {
            proof {
                assert(op_params_s(op).len() == 4);
                assert(ok_value(op_params_s(op)[0], vals_deep(vals@)[0]));
                assert(ok_value(op_params_s(op)[1], vals_deep(vals@)[1]));
                assert(ok_value(op_params_s(op)[2], vals_deep(vals@)[2]));
                assert(ok_value(op_params_s(op)[3], vals_deep(vals@)[3]));
            }
            RoleMgmtCmd::UpdateRoleName { address: val_addr(vals, 0), name: val_text(vals, 1), quota: val_opt_u64(vals, 2), key: val_key(vals, 3) }
        },
        Operation::RmAddPermissions => {
            proof {
                assert(op_params_s(op).len() == 4);
                assert(ok_value(op_params_s(op)[0], vals_deep(vals@)[0]));
                assert(ok_value(op_params_s(op)[1], vals_deep(vals@)[1]));
                assert(ok_value(op_params_s(op)[2], vals_deep(vals@)[2]));
                assert(ok_value(op_params_s(op)[3], vals_deep(vals@)[3]));
            }
            RoleMgmtCmd::AddPermissions { address: val_addr(vals, 0), permissions: val_hex(vals, 1), quota: val_opt_u64(vals, 2), key: val_key(vals, 3) }
        },
        Operation::RmDeletePermissions => {
            proof {
                assert(op_params_s(op).len() == 4);
                assert(ok_value(op_params_s(op)[0], vals_deep(vals@)[0]));
                assert(ok_value(op_params_s(op)[1], vals_deep(vals@)[1]));
                assert(ok_value(op_params_s(op)[2], vals_deep(vals@)[2]));
                assert(ok_value(op_params_s(op)[3], vals_deep(vals@)[3]));
            }
            RoleMgmtCmd::DeletePermissions { address: val_addr(vals, 0), permissions: val_hex(vals, 1), quota: val_opt_u64(vals, 2), key: val_key(vals, 3) }
        },
        Operation::RmSetRole => {
            proof {
                assert(op_params_s(op).len() == 4);
                assert(ok_value(op_params_s(op)[0], vals_deep(vals@)[0]));
                assert(ok_value(op_params_s(op)[1], vals_deep(vals@)[1]));
                assert(ok_value(op_params_s(op)[2], vals_deep(vals@)[2]));
                assert(ok_value(op_params_s(op)[3], vals_deep(vals@)[3]));
            }
            RoleMgmtCmd::SetRole { account: val_addr(vals, 0), address: val_addr(vals, 1), quota: val_opt_u64(vals, 2), key: val_key(vals, 3) }
        },
        Operation::RmCancelRole => {
            proof {
                assert(op_params_s(op).len() == 4);
                assert(ok_value(op_params_s(op)[0], vals_deep(vals@)[0]));
                assert(ok_value(op_params_s(op)[1], vals_deep(vals@)[1]));
                assert(ok_value(op_params_s(op)[2], vals_deep(vals@)[2]));
                assert(ok_value(op_params_s(op)[3], vals_deep(vals@)[3]));
            }
            RoleMgmtCmd::CancelRole { account: val_addr(vals, 0), address: val_addr(vals, 1), quota: val_opt_u64(vals, 2), key: val_key(vals, 3) }
        },
        Operation::RmClearRole => {
            proof {
                assert(op_params_s(op).len() == 3);
                assert(ok_value(op_params_s(op)[0], vals_deep(vals@)[0]));
                assert(ok_value(op_params_s(op)[1], vals_deep(vals@)[1]));
                assert(ok_value(op_params_s(op)[2], vals_deep(vals@)[2]));
            }
            RoleMgmtCmd::ClearRole { account: val_addr(vals, 0), quota: val_opt_u64(vals, 1), key: val_key(vals, 2) }
        },
        Operation::RmQueryRoles => {
            proof {
                assert(op_params_s(op).len() == 2);
                assert(ok_value(op_params_s(op)[0], vals_deep(vals@)[0]));
                assert(ok_value(op_params_s(op)[1], vals_deep(vals@)[1]));
            }
            RoleMgmtCmd::QueryRoles { account: val_addr(vals, 0), height: val_height(vals, 1) }
        },
        Operation::RmQueryAccounts => {
            proof {
                assert(op_params_s(op).len() == 2);
                assert(ok_value(op_params_s(op)[0], vals_deep(vals@)[0]));
                assert(ok_value(op_params_s(op)[1], vals_deep(vals@)[1]));
            }
            RoleMgmtCmd::QueryAccounts { address: val_addr(vals, 0), height: val_height(vals, 1) }
        },
        _ => vstd::pervasive::unreached(),
    }
}

pub open spec fn role_management_key_s(c: RoleMgmtCmdS) -> Option<Seq<u8>> {
    match c {
        RoleMgmtCmdS::NewRole { key, .. } => Some(key),
        RoleMgmtCmdS::DeleteRole { key, .. } => Some(key),
        RoleMgmtCmdS::UpdateRoleName { key, .. } => Some(key),
        RoleMgmtCmdS::AddPermissions { key, .. } => Some(key),
        RoleMgmtCmdS::DeletePermissions { key, .. } => Some(key),
        RoleMgmtCmdS::SetRole { key, .. } => Some(key),
        RoleMgmtCmdS::CancelRole { key, .. } => Some(key),
        RoleMgmtCmdS::ClearRole { key, .. } => Some(key),
        RoleMgmtCmdS::QueryRoles { .. } => None,
        RoleMgmtCmdS::QueryAccounts { .. } => None,
    }
}

pub open spec fn role_management_quota_s(c: RoleMgmtCmdS) -> Option<Option<u64>> {
    match c {
        RoleMgmtCmdS::NewRole { quota, .. } => Some(quota),
        RoleMgmtCmdS::DeleteRole { quota, .. } => Some(quota),
        RoleMgmtCmdS::UpdateRoleName { quota, .. } => Some(quota),
        RoleMgmtCmdS::AddPermissions { quota, .. } => Some(quota),
        RoleMgmtCmdS::DeletePermissions { quota, .. } => Some(quota),
        RoleMgmtCmdS::SetRole { quota, .. } => Some(quota),
        RoleMgmtCmdS::CancelRole { quota, .. } => Some(quota),
        RoleMgmtCmdS::ClearRole { quota, .. } => Some(quota),
        RoleMgmtCmdS::QueryRoles { .. } => None,
        RoleMgmtCmdS::QueryAccounts { .. } => None,
    }
}

fn take_key_role_management(c: &RoleMgmtCmd) -> (r: Option<String>)
    ensures
        match r {
            Some(k) => role_management_key_s(c@) == Some(string_bytes(k)),
            None => role_management_key_s(c@) is None,
        },
{
    match c {
        RoleMgmtCmd::NewRole { key, .. } => Some(key.clone()),
        RoleMgmtCmd::DeleteRole { key, .. } => Some(key.clone()),
        RoleMgmtCmd::UpdateRoleName { key, .. } => Some(key.clone()),
        RoleMgmtCmd::AddPermissions { key, .. } => Some(key.clone()),
        RoleMgmtCmd::DeletePermissions { key, .. } => Some(key.clone()),
        RoleMgmtCmd::SetRole { key, .. } => Some(key.clone()),
        RoleMgmtCmd::CancelRole { key, .. } => Some(key.clone()),
        RoleMgmtCmd::ClearRole { key, .. } => Some(key.clone()),
        RoleMgmtCmd::QueryRoles { .. } => None,
        RoleMgmtCmd::QueryAccounts { .. } => None,
    }
}

/// The typed commands of the Authorization contract.
#[derive(Clone, Debug, PartialEq, Eq)]
pub enum AuthCmd {
    QueryPermissions { account: String, height: BlockHeight },
    QueryAccounts { permission: String, height: BlockHeight },
    QueryAllAccounts { height: BlockHeight },
    CheckResource { account: String, contract: String, function_hash: String, height: BlockHeight },
    CheckPermission { account: String, permission: String, height: BlockHeight },
}

/// The mathematical shape of a [`AuthCmd`].
pub enum AuthCmdS {
    QueryPermissions { account: Seq<u8>, height: BlockHeight },
    QueryAccounts { permission: Seq<u8>, height: BlockHeight },
    QueryAllAccounts { height: BlockHeight },
    CheckResource { account: Seq<u8>, contract: Seq<u8>, function_hash: Seq<u8>, height: BlockHeight },
    CheckPermission { account: Seq<u8>, permission: Seq<u8>, height: BlockHeight },
}

impl View for AuthCmd {
    type V = AuthCmdS;

    open spec fn view(&self) -> AuthCmdS {
        match self {
            AuthCmd::QueryPermissions { account, height } => AuthCmdS::QueryPermissions { account: string_bytes(*account), height: *height },
            AuthCmd::QueryAccounts { permission, height } => AuthCmdS::QueryAccounts { permission: string_bytes(*permission), height: *height },
            AuthCmd::QueryAllAccounts { height } => AuthCmdS::QueryAllAccounts { height: *height },
            AuthCmd::CheckResource { account, contract, function_hash, height } => AuthCmdS::CheckResource { account: string_bytes(*account), contract: string_bytes(*contract), function_hash: string_bytes(*function_hash), height: *height },
            AuthCmd::CheckPermission { account, permission, height } => AuthCmdS::CheckPermission { account: string_bytes(*account), permission: string_bytes(*permission), height: *height },
        }
    }
}

pub open spec fn build_authorization_s(op: Operation, vs: Seq<ValueS>) -> AuthCmdS {
    if op == Operation::AuthQueryPermissions {
        AuthCmdS::QueryPermissions { account: vs[0]->Addr_0, height: vs[1]->Height_0 }
    } else if op == Operation::AuthQueryAccounts {
        AuthCmdS::QueryAccounts { permission: vs[0]->Addr_0, height: vs[1]->Height_0 }
    } else if op == Operation::AuthQueryAllAccounts {
        AuthCmdS::QueryAllAccounts { height: vs[0]->Height_0 }
    } else if op == Operation::AuthCheckResource {
        AuthCmdS::CheckResource { account: vs[0]->Addr_0, contract: vs[1]->Addr_0, function_hash: vs[2]->Hex_0, height: vs[3]->Height_0 }
    } else if op == Operation::AuthCheckPermission {
        AuthCmdS::CheckPermission { account: vs[0]->Addr_0, permission: vs[1]->Addr_0, height: vs[2]->Height_0 }
    } else {
        vstd::pervasive::arbitrary()
    }
}

#[verifier::spinoff_prover]
#[verifier::rlimit(100)]
fn build_authorization(op: Operation, vals: &Vec<Value>) -> (r: AuthCmd)
    requires
        op_group(op) == Group::Authorization,
        values_ok(op_params_s(op), vals_deep(vals@)),
    ensures
        r@ == build_authorization_s(op, vals_deep(vals@)),
{
    match op {
        Operation::AuthQueryPermissions => {
            proof {
                assert(op_params_s(op).len() == 2);
                assert(ok_value(op_params_s(op)[0], vals_deep(vals@)[0]));
                assert(ok_value(op_params_s(op)[1], vals_deep(vals@)[1]));
            }
            AuthCmd::QueryPermissions { account: val_addr(vals, 0), height: val_height(vals, 1) }
        },
        Operation::AuthQueryAccounts => {
            proof {
                assert(op_params_s(op).len() == 2);
                assert(ok_value(op_params_s(op)[0], vals_deep(vals@)[0]));
                assert(ok_value(op_params_s(op)[1], vals_deep(vals@)[1]));
            }
            AuthCmd::QueryAccounts { permission: val_addr(vals, 0), height: val_height(vals, 1) }
        },
        Operation::AuthQueryAllAccounts => {
            proof {
                assert(op_params_s(op).len() == 1);
                assert(ok_value(op_params_s(op)[0], vals_deep(vals@)[0]));
            }
            AuthCmd::QueryAllAccounts { height: val_height(vals, 0) }
        },
        Operation::AuthCheckResource => {
            proof {
                assert(op_params_s(op).len() == 4);
                assert(ok_value(op_params_s(op)[0], vals_deep(vals@)[0]));
                assert(ok_value(op_params_s(op)[1], vals_deep(vals@)[1]));
                assert(ok_value(op_params_s(op)[2], vals_deep(vals@)[2]));
                assert(ok_value(op_params_s(op)[3], vals_deep(vals@)[3]));
            }
            AuthCmd::CheckResource { account: val_addr(vals, 0), contract: val_addr(vals, 1), function_hash: val_hex(vals, 2), height: val_height(vals, 3) }
        },
        Operation::AuthCheckPermission => {
            proof {
                assert(op_params_s(op).len() == 3);
                assert(ok_value(op_params_s(op)[0], vals_deep(vals@)[0]));
                assert(ok_value(op_params_s(op)[1], vals_deep(vals@)[1]));
                assert(ok_value(op_params_s(op)[2], vals_deep(vals@)[2]));
            }
            AuthCmd::CheckPermission { account: val_addr(vals, 0), permission: val_addr(vals, 1), height: val_height(vals, 2) }
        },
        _ => vstd::pervasive::unreached(),
    }
}

pub open spec fn authorization_key_s(c: AuthCmdS) -> Option<Seq<u8>> {
    match c {
        AuthCmdS::QueryPermissions { .. } => None,
        AuthCmdS::QueryAccounts { .. } => None,
        AuthCmdS::QueryAllAccounts { .. } => None,
        AuthCmdS::CheckResource { .. } => None,
        AuthCmdS::CheckPermission { .. } => None,
    }
}

pub open spec fn authorization_quota_s(c: AuthCmdS) -> Option<Option<u64>> {
    match c {
        AuthCmdS::QueryPermissions { .. } => None,
        AuthCmdS::QueryAccounts { .. } => None,
        AuthCmdS::QueryAllAccounts { .. } => None,
        AuthCmdS::CheckResource { .. } => None,
        AuthCmdS::CheckPermission { .. } => None,
    }
}

fn take_key_authorization(c: &AuthCmd) -> (r: Option<String>)
    ensures
        match r {
            Some(k) => authorization_key_s(c@) == Some(string_bytes(k)),
            None => authorization_key_s(c@) is None,
        },
{
    match c {
        AuthCmd::QueryPermissions { .. } => None,
        AuthCmd::QueryAccounts { .. } => None,
        AuthCmd::QueryAllAccounts { .. } => None,
        AuthCmd::CheckResource { .. } => None,
        AuthCmd::CheckPermission { .. } => None,
    }
}

/// The typed commands of the Permission contract.
#[derive(Clone, Debug, PartialEq, Eq)]
pub enum PermCmd {
    InPermission { permission: String, contract: String, function_hash: String, height: BlockHeight },
    QueryInfo { permission: String, height: BlockHeight },
    QueryName { permission: String, height: BlockHeight },
    QueryResource { permission: String, height: BlockHeight },
}

/// The mathematical shape of a [`PermCmd`].
pub enum PermCmdS {
    InPermission { permission: Seq<u8>, contract: Seq<u8>, function_hash: Seq<u8>, height: BlockHeight },
    QueryInfo { permission: Seq<u8>, height: BlockHeight },
    QueryName { permission: Seq<u8>, height: BlockHeight },
    QueryResource { permission: Seq<u8>, height: BlockHeight },
}

impl View for PermCmd {
    type V = PermCmdS;

    open spec fn view(&self) -> PermCmdS {
        match self {
            PermCmd::InPermission { permission, contract, function_hash, height } => PermCmdS::InPermission { permission: string_bytes(*permission), contract: string_bytes(*contract), function_hash: string_bytes(*function_hash), height: *height },
            PermCmd::QueryInfo { permission, height } => PermCmdS::QueryInfo { permission: string_bytes(*permission), height: *height },
            PermCmd::QueryName { permission, height } => PermCmdS::QueryName { permission: string_bytes(*permission), height: *height },
            PermCmd::QueryResource { permission, height } => PermCmdS::QueryResource { permission: string_bytes(*permission), height: *height },
        }
    }
}

pub open spec fn build_permission_s(op: Operation, vs: Seq<ValueS>) -> PermCmdS {
    if op == Operation::PermInPermission {
        PermCmdS::InPermission { permission: vs[0]->Addr_0, contract: vs[1]->Addr_0, function_hash: vs[2]->Hex_0, height: vs[3]->Height_0 }
    } else if op == Operation::PermQueryInfo {
        PermCmdS::QueryInfo { permission: vs[0]->Addr_0, height: vs[1]->Height_0 }
    } else if op == Operation::PermQueryName {
        PermCmdS::QueryName { permission: vs[0]->Addr_0, height: vs[1]->Height_0 }
    } else if op == Operation::PermQueryResource {
        PermCmdS::QueryResource { permission: vs[0]->Addr_0, height: vs[1]->Height_0 }
    } else {
        vstd::pervasive::arbitrary()
    }
}

#[verifier::spinoff_prover]
#[verifier::rlimit(100)]
fn build_permission(op: Operation, vals: &Vec<Value>) -> (r: PermCmd)
    requires
        op_group(op) == Group::Permission,
        values_ok(op_params_s(op), vals_deep(vals@)),
    ensures
        r@ == build_permission_s(op, vals_deep(vals@)),
{
    match op {
        Operation::PermInPermission => {
            proof {
                assert(op_params_s(op).len() == 4);
                assert(ok_value(op_params_s(op)[0], vals_deep(vals@)[0]));
                assert(ok_value(op_params_s(op)[1], vals_deep(vals@)[1]));
                assert(ok_value(op_params_s(op)[2], vals_deep(vals@)[2]));
                assert(ok_value(op_params_s(op)[3], vals_deep(vals@)[3]));
            }
            PermCmd::InPermission { permission: val_addr(vals, 0), contract: val_addr(vals, 1), function_hash: val_hex(vals, 2), height: val_height(vals, 3) }
        },
        Operation::PermQueryInfo => {
            proof {
                assert(op_params_s(op).len() == 2);
                assert(ok_value(op_params_s(op)[0], vals_deep(vals@)[0]));
                assert(ok_value(op_params_s(op)[1], vals_deep(vals@)[1]));
            }
            PermCmd::QueryInfo { permission: val_addr(vals, 0), height: val_height(vals, 1) }
        },
        Operation::PermQueryName => {
            proof {
                assert(op_params_s(op).len() == 2);
                assert(ok_value(op_params_s(op)[0], vals_deep(vals@)[0]));
                assert(ok_value(op_params_s(op)[1], vals_deep(vals@)[1]));
            }
            PermCmd::QueryName { permission: val_addr(vals, 0), height: val_height(vals, 1) }
        },
        Operation::PermQueryResource => {
            proof {
                assert(op_params_s(op).len() == 2);
                assert(ok_value(op_params_s(op)[0], vals_deep(vals@)[0]));
                assert(ok_value(op_params_s(op)[1], vals_deep(vals@)[1]));
            }
            PermCmd::QueryResource { permission: val_addr(vals, 0), height: val_height(vals, 1) }
        },
        _ => vstd::pervasive::unreached(),
    }
}

pub open spec fn permission_key_s(c: PermCmdS) -> Option<Seq<u8>> {
    match c {
        PermCmdS::InPermission { .. } => None,
        PermCmdS::QueryInfo { .. } => None,
        PermCmdS::QueryName { .. } => None,
        PermCmdS::QueryResource { .. } => None,
    }
}

pub open spec fn permission_quota_s(c: PermCmdS) -> Option<Option<u64>> {
    match c {
        PermCmdS::InPermission { .. } => None,
        PermCmdS::QueryInfo { .. } => None,
        PermCmdS::QueryName { .. } => None,
        PermCmdS::QueryResource { .. } => None,
    }
}

fn take_key_permission(c: &PermCmd) -> (r: Option<String>)
    ensures
        match r {
            Some(k) => permission_key_s(c@) == Some(string_bytes(k)),
            None => permission_key_s(c@) is None,
        },
{
    match c {
        PermCmd::InPermission { .. } => None,
        PermCmd::QueryInfo { .. } => None,
        PermCmd::QueryName { .. } => None,
        PermCmd::QueryResource { .. } => None,
    }
}

/// The typed commands of the PermissionManagement contract.
#[derive(Clone, Debug, PartialEq, Eq)]
pub enum PermMgmtCmd {
    NewPermission { name: String, contracts: String, function_hashes: String, quota: Option<u64>, key: String },
    DeletePermission { permission: String, quota: Option<u64>, key: String },
    UpdatePermissionName { permission: String, name: String, quota: Option<u64>, key: String },
    AddResources { permission: String, contracts: String, function_hashes: String, quota: Option<u64>, key: String },
    DeleteResources { permission: String, contracts: String, function_hashes: String, quota: Option<u64>, key: String },
    SetAuthorization { permission: String, account: String, quota: Option<u64>, key: String },
    SetAuthorizations { permissions: String, account: String, quota: Option<u64>, key: String },
    CancelAuthorization { permission: String, account: String, quota: Option<u64>, key: String },
    CancelAuthorizations { permissions: String, account: String, quota: Option<u64>, key: String },
    ClearAuthorization { account: String, quota: Option<u64>, key: String },
}

/// The mathematical shape of a [`PermMgmtCmd`].
pub enum PermMgmtCmdS {
    NewPermission { name: Seq<u8>, contracts: Seq<u8>, function_hashes: Seq<u8>, quota: Option<u64>, key: Seq<u8> },
    DeletePermission { permission: Seq<u8>, quota: Option<u64>, key: Seq<u8> },
    UpdatePermissionName { permission: Seq<u8>, name: Seq<u8>, quota: Option<u64>, key: Seq<u8> },
    AddResources { permission: Seq<u8>, contracts: Seq<u8>, function_hashes: Seq<u8>, quota: Option<u64>, key: Seq<u8> },
    DeleteResources { permission: Seq<u8>, contracts: Seq<u8>, function_hashes: Seq<u8>, quota: Option<u64>, key: Seq<u8> },
    SetAuthorization { permission: Seq<u8>, account: Seq<u8>, quota: Option<u64>, key: Seq<u8> },
    SetAuthorizations { permissions: Seq<u8>, account: Seq<u8>, quota: Option<u64>, key: Seq<u8> },
    CancelAuthorization { permission: Seq<u8>, account: Seq<u8>, quota: Option<u64>, key: Seq<u8> },
    CancelAuthorizations { permissions: Seq<u8>, account: Seq<u8>, quota: Option<u64>, key: Seq<u8> },
    ClearAuthorization { account: Seq<u8>, quota: Option<u64>, key: Seq<u8> },
}

impl View for PermMgmtCmd {
    type V = PermMgmtCmdS;

    open spec fn view(&self) -> PermMgmtCmdS {
        match self {
            PermMgmtCmd::NewPermission { name, contracts, function_hashes, quota, key } => PermMgmtCmdS::NewPermission { name: string_bytes(*name), contracts: string_bytes(*contracts), function_hashes: string_bytes(*function_hashes), quota: *quota, key: string_bytes(*key) },
            PermMgmtCmd::DeletePermission { permission, quota, key } => PermMgmtCmdS::DeletePermission { permission: string_bytes(*permission), quota: *quota, key: string_bytes(*key) },
            PermMgmtCmd::UpdatePermissionName { permission, name, quota, key } => PermMgmtCmdS::UpdatePermissionName { permission: string_bytes(*permission), name: string_bytes(*name), quota: *quota, key: string_bytes(*key) },
            PermMgmtCmd::AddResources { permission, contracts, function_hashes, quota, key } => PermMgmtCmdS::AddResources { permission: string_bytes(*permission), contracts: string_bytes(*contracts), function_hashes: string_bytes(*function_hashes), quota: *quota, key: string_bytes(*key) },
            PermMgmtCmd::DeleteResources { permission, contracts, function_hashes, quota, key } => PermMgmtCmdS::DeleteResources { permission: string_bytes(*permission), contracts: string_bytes(*contracts), function_hashes: string_bytes(*function_hashes), quota: *quota, key: string_bytes(*key) },
            PermMgmtCmd::SetAuthorization { permission, account, quota, key } => PermMgmtCmdS::SetAuthorization { permission: string_bytes(*permission), account: string_bytes(*account), quota: *quota, key: string_bytes(*key) },
            PermMgmtCmd::SetAuthorizations { permissions, account, quota, key } => PermMgmtCmdS::SetAuthorizations { permissions: string_bytes(*permissions), account: string_bytes(*account), quota: *quota, key: string_bytes(*key) },
            PermMgmtCmd::CancelAuthorization { permission, account, quota, key } => PermMgmtCmdS::CancelAuthorization { permission: string_bytes(*permission), account: string_bytes(*account), quota: *quota, key: string_bytes(*key) },
            PermMgmtCmd::CancelAuthorizations { permissions, account, quota, key } => PermMgmtCmdS::CancelAuthorizations { permissions: string_bytes(*permissions), account: string_bytes(*account), quota: *quota, key: string_bytes(*key) },
            PermMgmtCmd::ClearAuthorization { account, quota, key } => PermMgmtCmdS::ClearAuthorization { account: string_bytes(*account), quota: *quota, key: string_bytes(*key) },
        }
    }
}

pub open spec fn build_permission_management_s(op: Operation, vs: Seq<ValueS>) -> PermMgmtCmdS {
    if op == Operation::PmNewPermission {
        PermMgmtCmdS::NewPermission { name: vs[0]->Text_0, contracts: vs[1]->Hex_0, function_hashes: vs[2]->Text_0, quota: opt_u64_s(vs[3]), key: vs[4]->Key_0 }
    } else if op == Operation::PmDeletePermission {
        PermMgmtCmdS::DeletePermission { permission: vs[0]->Addr_0, quota: opt_u64_s(vs[1]), key: vs[2]->Key_0 }
    } else if op == Operation::PmUpdatePermissionName {
        PermMgmtCmdS::UpdatePermissionName { permission: vs[0]->Addr_0, name: vs[1]->Text_0, quota: opt_u64_s(vs[2]), key: vs[3]->Key_0 }
    } else if op == Operation::PmAddResources {
        PermMgmtCmdS::AddResources { permission: vs[0]->Addr_0, contracts: vs[1]->Hex_0, function_hashes: vs[2]->Text_0, quota: opt_u64_s(vs[3]), key: vs[4]->Key_0 }
    } else if op == Operation::PmDeleteResources {
        PermMgmtCmdS::DeleteResources { permission: vs[0]->Addr_0, contracts: vs[1]->Hex_0, function_hashes: vs[2]->Text_0, quota: opt_u64_s(vs[3]), key: vs[4]->Key_0 }
    } else if op == Operation::PmSetAuthorization {
        PermMgmtCmdS::SetAuthorization { permission: vs[0]->Addr_0, account: vs[1]->Addr_0, quota: opt_u64_s(vs[2]), key: vs[3]->Key_0 }
    } else if op == Operation::PmSetAuthorizations {
        PermMgmtCmdS::SetAuthorizations { permissions: vs[0]->Hex_0, account: vs[1]->Addr_0, quota: opt_u64_s(vs[2]), key: vs[3]->Key_0 }
    } else if op == Operation::PmCancelAuthorization {
        PermMgmtCmdS::CancelAuthorization { permission: vs[0]->Addr_0, account: vs[1]->Addr_0, quota: opt_u64_s(vs[2]), key: vs[3]->Key_0 }
    } else if op == Operation::PmCancelAuthorizations {
        PermMgmtCmdS::CancelAuthorizations { permissions: vs[0]->Hex_0, account: vs[1]->Addr_0, quota: opt_u64_s(vs[2]), key: vs[3]->Key_0 }
    } else if op == Operation::PmClearAuthorization {
        PermMgmtCmdS::ClearAuthorization { account: vs[0]->Addr_0, quota: opt_u64_s(vs[1]), key: vs[2]->Key_0 }
    } else {
        vstd::pervasive::arbitrary()
    }
}

#[verifier::spinoff_prover]
#[verifier::rlimit(100)]
fn build_permission_management(op: Operation, vals: &Vec<Value>) -> (r: PermMgmtCmd)
    requires
        op_group(op) == Group::PermissionManagement,
        values_ok(op_params_s(op), vals_deep(vals@)),
    ensures
        r@ == build_permission_management_s(op, vals_deep(vals@)),
{
    match op {
        Operation::PmNewPermission => {
            proof {
                assert(op_params_s(op).len() == 5);
                assert(ok_value(op_params_s(op)[0], vals_deep(vals@)[0]));
                assert(ok_value(op_params_s(op)[1], vals_deep(vals@)[1]));
                assert(ok_value(op_params_s(op)[2], vals_deep(vals@)[2]));
                assert(ok_value(op_params_s(op)[3], vals_deep(vals@)[3]));
                assert(ok_value(op_params_s(op)[4], vals_deep(vals@)[4]));
            }
            PermMgmtCmd::NewPermission { name: val_text(vals, 0), contracts: val_hex(vals, 1), function_hashes: val_text(vals, 2), quota: val_opt_u64(vals, 3), key: val_key(vals, 4) }
        },
        Operation::PmDeletePermission => {
            proof {
                assert(op_params_s(op).len() == 3);
                assert(ok_value(op_params_s(op)[0], vals_deep(vals@)[0]));
                assert(ok_value(op_params_s(op)[1], vals_deep(vals@)[1]));
                assert(ok_value(op_params_s(op)[2], vals_deep(vals@)[2]));
            }
            PermMgmtCmd::DeletePermission { permission: val_addr(vals, 0), quota: val_opt_u64(vals, 1), key: val_key(vals, 2) }
        },
        Operation::PmUpdatePermissionName => {
            proof {
                assert(op_params_s(op).len() == 4);
                assert(ok_value(op_params_s(op)[0], vals_deep(vals@)[0]));
                assert(ok_value(op_params_s(op)[1], vals_deep(vals@)[1]));
                assert(ok_value(op_params_s(op)[2], vals_deep(vals@)[2]));
                assert(ok_value(op_params_s(op)[3], vals_deep(vals@)[3]));
            }
            PermMgmtCmd::UpdatePermissionName { permission: val_addr(vals, 0), name: val_text(vals, 1), quota: val_opt_u64(vals, 2), key: val_key(vals, 3) }
        },
        Operation::PmAddResources => {
            proof {
                assert(op_params_s(op).len() == 5);
                assert(ok_value(op_params_s(op)[0], vals_deep(vals@)[0]));
                assert(ok_value(op_params_s(op)[1], vals_deep(vals@)[1]));
                assert(ok_value(op_params_s(op)[2], vals_deep(vals@)[2]));
                assert(ok_value(op_params_s(op)[3], vals_deep(vals@)[3]));
                assert(ok_value(op_params_s(op)[4], vals_deep(vals@)[4]));
            }
            PermMgmtCmd::AddResources { permission: val_addr(vals, 0), contracts: val_hex(vals, 1), function_hashes: val_text(vals, 2), quota: val_opt_u64(vals, 3), key: val_key(vals, 4) }
        },
        Operation::PmDeleteResources => {
            proof {
                assert(op_params_s(op).len() == 5);
                assert(ok_value(op_params_s(op)[0], vals_deep(vals@)[0]));
                assert(ok_value(op_params_s(op)[1], vals_deep(vals@)[1]));
                assert(ok_value(op_params_s(op)[2], vals_deep(vals@)[2]));
                assert(ok_value(op_params_s(op)[3], vals_deep(vals@)[3]));
                assert(ok_value(op_params_s(op)[4], vals_deep(vals@)[4]));
            }
            PermMgmtCmd::DeleteResources { permission: val_addr(vals, 0), contracts: val_hex(vals, 1), function_hashes: val_text(vals, 2), quota: val_opt_u64(vals, 3), key: val_key(vals, 4) }
        },
        Operation::PmSetAuthorization => {
            proof {
                assert(op_params_s(op).len() == 4);
                assert(ok_value(op_params_s(op)[0], vals_deep(vals@)[0]));
                assert(ok_value(op_params_s(op)[1], vals_deep(vals@)[1]));
                assert(ok_value(op_params_s(op)[2], vals_deep(vals@)[2]));
                assert(ok_value(op_params_s(op)[3], vals_deep(vals@)[3]));
            }
            PermMgmtCmd::SetAuthorization { permission: val_addr(vals, 0), account: val_addr(vals, 1), quota: val_opt_u64(vals, 2), key: val_key(vals, 3) }
        },
        Operation::PmSetAuthorizations => {
            proof {
                assert(op_params_s(op).len() == 4);
                assert(ok_value(op_params_s(op)[0], vals_deep(vals@)[0]));
                assert(ok_value(op_params_s(op)[1], vals_deep(vals@)[1]));
                assert(ok_value(op_params_s(op)[2], vals_deep(vals@)[2]));
                assert(ok_value(op_params_s(op)[3], vals_deep(vals@)[3]));
            }
            PermMgmtCmd::SetAuthorizations { permissions: val_hex(vals, 0), account: val_addr(vals, 1), quota: val_opt_u64(vals, 2), key: val_key(vals, 3) }
        },
        Operation::PmCancelAuthorization => {
            proof {
                assert(op_params_s(op).len() == 4);
                assert(ok_value(op_params_s(op)[0], vals_deep(vals@)[0]));
                assert(ok_value(op_params_s(op)[1], vals_deep(vals@)[1]));
                assert(ok_value(op_params_s(op)[2], vals_deep(vals@)[2]));
                assert(ok_value(op_params_s(op)[3], vals_deep(vals@)[3]));
            }
            PermMgmtCmd::CancelAuthorization { permission: val_addr(vals, 0), account: val_addr(vals, 1), quota: val_opt_u64(vals, 2), key: val_key(vals, 3) }
        },
        Operation::PmCancelAuthorizations => {
            proof {
                assert(op_params_s(op).len() == 4);
                assert(ok_value(op_params_s(op)[0], vals_deep(vals@)[0]));
                assert(ok_value(op_params_s(op)[1], vals_deep(vals@)[1]));
                assert(ok_value(op_params_s(op)[2], vals_deep(vals@)[2]));
                assert(ok_value(op_params_s(op)[3], vals_deep(vals@)[3]));
            }
            PermMgmtCmd::CancelAuthorizations { permissions: val_hex(vals, 0), account: val_addr(vals, 1), quota: val_opt_u64(vals, 2), key: val_key(vals, 3) }
        },
        Operation::PmClearAuthorization => {
            proof {
                assert(op_params_s(op).len() == 3);
                assert(ok_value(op_params_s(op)[0], vals_deep(vals@)[0]));
                assert(ok_value(op_params_s(op)[1], vals_deep(vals@)[1]));
                assert(ok_value(op_params_s(op)[2], vals_deep(vals@)[2]));
            }
            PermMgmtCmd::ClearAuthorization { account: val_addr(vals, 0), quota: val_opt_u64(vals, 1), key: val_key(vals, 2) }
        },
        _ => vstd::pervasive::unreached(),
    }
}

pub open spec fn permission_management_key_s(c: PermMgmtCmdS) -> Option<Seq<u8>> {
    match c {
        PermMgmtCmdS::NewPermission { key, .. } => Some(key),
        PermMgmtCmdS::DeletePermission { key, .. } => Some(key),
        PermMgmtCmdS::UpdatePermissionName { key, .. } => Some(key),
        PermMgmtCmdS::AddResources { key, .. } => Some(key),
        PermMgmtCmdS::DeleteResources { key, .. } => Some(key),
        PermMgmtCmdS::SetAuthorization { key, .. } => Some(key),
        PermMgmtCmdS::SetAuthorizations { key, .. } => Some(key),
        PermMgmtCmdS::CancelAuthorization { key, .. } => Some(key),
        PermMgmtCmdS::CancelAuthorizations { key, .. } => Some(key),
        PermMgmtCmdS::ClearAuthorization { key, .. } => Some(key),
    }
}

pub open spec fn permission_management_quota_s(c: PermMgmtCmdS) -> Option<Option<u64>> {
    match c {
        PermMgmtCmdS::NewPermission { quota, .. } => Some(quota),
        PermMgmtCmdS::DeletePermission { quota, .. } => Some(quota),
        PermMgmtCmdS::UpdatePermissionName { quota, .. } => Some(quota),
        PermMgmtCmdS::AddResources { quota, .. } => Some(quota),
        PermMgmtCmdS::DeleteResources { quota, .. } => Some(quota),
        PermMgmtCmdS::SetAuthorization { quota, .. } => Some(quota),
        PermMgmtCmdS::SetAuthorizations { quota, .. } => Some(quota),
        PermMgmtCmdS::CancelAuthorization { quota, .. } => Some(quota),
        PermMgmtCmdS::CancelAuthorizations { quota, .. } => Some(quota),
        PermMgmtCmdS::ClearAuthorization { quota, .. } => Some(quota),
    }
}

fn take_key_permission_management(c: &PermMgmtCmd) -> (r: Option<String>)
    ensures
        match r {
            Some(k) => permission_management_key_s(c@) == Some(string_bytes(k)),
            None => permission_management_key_s(c@) is None,
        },
{
    match c {
        PermMgmtCmd::NewPermission { key, .. } => Some(key.clone()),
        PermMgmtCmd::DeletePermission { key, .. } => Some(key.clone()),
        PermMgmtCmd::UpdatePermissionName { key, .. } => Some(key.clone()),
        PermMgmtCmd::AddResources { key, .. } => Some(key.clone()),
        PermMgmtCmd::DeleteResources { key, .. } => Some(key.clone()),
        PermMgmtCmd::SetAuthorization { key, .. } => Some(key.clone()),
        PermMgmtCmd::SetAuthorizations { key, .. } => Some(key.clone()),
        PermMgmtCmd::CancelAuthorization { key, .. } => Some(key.clone()),
        PermMgmtCmd::CancelAuthorizations { key, .. } => Some(key.clone()),
        PermMgmtCmd::ClearAuthorization { key, .. } => Some(key.clone()),
    }
}

/// The typed commands of the AdminManagement contract.
#[derive(Clone, Debug, PartialEq, Eq)]
pub enum AdminCmd {
    Admin { height: BlockHeight },
    IsAdmin { address: String, height: BlockHeight },
    Update { address: String, admin_key: String, quota: Option<u64> },
}

/// The mathematical shape of a [`AdminCmd`].
pub enum AdminCmdS {
    Admin { height: BlockHeight },
    IsAdmin { address: Seq<u8>, height: BlockHeight },
    Update { address: Seq<u8>, admin_key: Seq<u8>, quota: Option<u64> },
}

impl View for AdminCmd {
    type V = AdminCmdS;

    open spec fn view(&self) -> AdminCmdS {
        match self {
            AdminCmd::Admin { height } => AdminCmdS::Admin { height: *height },
            AdminCmd::IsAdmin { address, height } => AdminCmdS::IsAdmin { address: string_bytes(*address), height: *height },
            AdminCmd::Update { address, admin_key, quota } => AdminCmdS::Update { address: string_bytes(*address), admin_key: string_bytes(*admin_key), quota: *quota },
        }
    }
}

pub open spec fn build_admin_management_s(op: Operation, vs: Seq<ValueS>) -> AdminCmdS {
    if op == Operation::AdminAdmin {
        AdminCmdS::Admin { height: vs[0]->Height_0 }
    } else if op == Operation::AdminIsAdmin {
        AdminCmdS::IsAdmin { address: vs[0]->Addr_0, height: vs[1]->Height_0 }
    } else if op == Operation::AdminUpdate {
        AdminCmdS::Update { address: vs[0]->Addr_0, admin_key: vs[1]->Key_0, quota: opt_u64_s(vs[2]) }
    } else {
        vstd::pervasive::arbitrary()
    }
}

#[verifier::spinoff_prover]
#[verifier::rlimit(100)]
fn build_admin_management(op: Operation, vals: &Vec<Value>) -> (r: AdminCmd)
    requires
        op_group(op) == Group::AdminManagement,
        values_ok(op_params_s(op), vals_deep(vals@)),
    ensures
        r@ == build_admin_management_s(op, vals_deep(vals@)),
{
    match op {
        Operation::AdminAdmin => {
            proof {
                assert(op_params_s(op).len() == 1);
                assert(ok_value(op_params_s(op)[0], vals_deep(vals@)[0]));
            }
            AdminCmd::Admin { height: val_height(vals, 0) }
        },
        Operation::AdminIsAdmin => {
            proof {
                assert(op_params_s(op).len() == 2);
                assert(ok_value(op_params_s(op)[0], vals_deep(vals@)[0]));
                assert(ok_value(op_params_s(op)[1], vals_deep(vals@)[1]));
            }
            AdminCmd::IsAdmin { address: val_addr(vals, 0), height: val_height(vals, 1) }
        },
        Operation::AdminUpdate => {
            proof {
                assert(op_params_s(op).len() == 3);
                assert(ok_value(op_params_s(op)[0], vals_deep(vals@)[0]));
                assert(ok_value(op_params_s(op)[1], vals_deep(vals@)[1]));
                assert(ok_value(op_params_s(op)[2], vals_deep(vals@)[2]));
            }
            AdminCmd::Update { address: val_addr(vals, 0), admin_key: val_key(vals, 1), quota: val_opt_u64(vals, 2) }
        },
        _ => vstd::pervasive::unreached(),
    }
}

pub open spec fn admin_management_key_s(c: AdminCmdS) -> Option<Seq<u8>> {
    match c {
        AdminCmdS::Admin { .. } => None,
        AdminCmdS::IsAdmin { .. } => None,
        AdminCmdS::Update { admin_key, .. } => Some(admin_key),
    }
}

pub open spec fn admin_management_quota_s(c: AdminCmdS) -> Option<Option<u64>> {
    match c {
        AdminCmdS::Admin { .. } => None,
        AdminCmdS::IsAdmin { .. } => None,
        AdminCmdS::Update { quota, .. } => Some(quota),
    }
}

fn take_key_admin_management(c: &AdminCmd) -> (r: Option<String>)
    ensures
        match r {
            Some(k) => admin_management_key_s(c@) == Some(string_bytes(k)),
            None => admin_management_key_s(c@) is None,
        },
{
    match c {
        AdminCmd::Admin { .. } => None,
        AdminCmd::IsAdmin { .. } => None,
        AdminCmd::Update { admin_key, .. } => Some(admin_key.clone()),
    }
}

/// The typed commands of the BatchTx contract.
#[derive(Clone, Debug, PartialEq, Eq)]
pub enum BatchCmd {
    MultiTxs { tx_codes: Vec<String>, quota: Option<u64>, key: String },
}

/// The mathematical shape of a [`BatchCmd`].
pub enum BatchCmdS {
    MultiTxs { tx_codes: Seq<Seq<u8>>, quota: Option<u64>, key: Seq<u8> },
}

impl View for BatchCmd {
    type V = BatchCmdS;

    open spec fn view(&self) -> BatchCmdS {
        match self {
            BatchCmd::MultiTxs { tx_codes, quota, key } => BatchCmdS::MultiTxs { tx_codes: strings_bytes(tx_codes@), quota: *quota, key: string_bytes(*key) },
        }
    }
}

pub open spec fn build_batch_tx_s(op: Operation, vs: Seq<ValueS>) -> BatchCmdS {
    if op == Operation::BatchMultiTxs {
        BatchCmdS::MultiTxs { tx_codes: vs[0]->HexList_0, quota: opt_u64_s(vs[1]), key: vs[2]->Key_0 }
    } else {
        vstd::pervasive::arbitrary()
    }
}

#[verifier::spinoff_prover]
#[verifier::rlimit(100)]
fn build_batch_tx(op: Operation, vals: &Vec<Value>) -> (r: BatchCmd)
    requires
        op_group(op) == Group::BatchTx,
        values_ok(op_params_s(op), vals_deep(vals@)),
    ensures
        r@ == build_batch_tx_s(op, vals_deep(vals@)),
{
    match op {
        Operation::BatchMultiTxs => {
            proof {
                assert(op_params_s(op).len() == 3);
                assert(ok_value(op_params_s(op)[0], vals_deep(vals@)[0]));
                assert(ok_value(op_params_s(op)[1], vals_deep(vals@)[1]));
                assert(ok_value(op_params_s(op)[2], vals_deep(vals@)[2]));
            }
            BatchCmd::MultiTxs { tx_codes: val_list(vals, 0), quota: val_opt_u64(vals, 1), key: val_key(vals, 2) }
        },
        _ => vstd::pervasive::unreached(),
    }
}

pub open spec fn batch_tx_key_s(c: BatchCmdS) -> Option<Seq<u8>> {
    match c {
        BatchCmdS::MultiTxs { key, .. } => Some(key),
    }
}

pub open spec fn batch_tx_quota_s(c: BatchCmdS) -> Option<Option<u64>> {
    match c {
        BatchCmdS::MultiTxs { quota, .. } => Some(quota),
    }
}

fn take_key_batch_tx(c: &BatchCmd) -> (r: Option<String>)
    ensures
        match r {
            Some(k) => batch_tx_key_s(c@) == Some(string_bytes(k)),
            None => batch_tx_key_s(c@) is None,
        },
{
    match c {
        BatchCmd::MultiTxs { key, .. } => Some(key.clone()),
    }
}

/// The typed commands of the SysConfig contract.
#[derive(Clone, Debug, PartialEq, Eq)]
pub enum SysCmd {
    GetChainOwner { height: BlockHeight },
    GetDelayBlockNumber { height: BlockHeight },
    GetFeeBackPlatformCheck { height: BlockHeight },
    GetEconomicalModel { height: BlockHeight },
    GetPermissionCheck { height: BlockHeight },
    GetQuotaCheck { height: BlockHeight },
    SetChainName { chain_name: String, quota: Option<u64>, admin_key: String },
    SetOperator { operator: String, quota: Option<u64>, admin_key: String },
    SetWebsite { website: String, quota: Option<u64>, admin_key: String },
}

/// The mathematical shape of a [`SysCmd`].
pub enum SysCmdS {
    GetChainOwner { height: BlockHeight },
    GetDelayBlockNumber { height: BlockHeight },
    GetFeeBackPlatformCheck { height: BlockHeight },
    GetEconomicalModel { height: BlockHeight },
    GetPermissionCheck { height: BlockHeight },
    GetQuotaCheck { height: BlockHeight },
    SetChainName { chain_name: Seq<u8>, quota: Option<u64>, admin_key: Seq<u8> },
    SetOperator { operator: Seq<u8>, quota: Option<u64>, admin_key: Seq<u8> },
    SetWebsite { website: Seq<u8>, quota: Option<u64>, admin_key: Seq<u8> },
}

impl View for SysCmd {
    type V = SysCmdS;

    open spec fn view(&self) -> SysCmdS {
        match self {
            SysCmd::GetChainOwner { height } => SysCmdS::GetChainOwner { height: *height },
            SysCmd::GetDelayBlockNumber { height } => SysCmdS::GetDelayBlockNumber { height: *height },
            SysCmd::GetFeeBackPlatformCheck { height } => SysCmdS::GetFeeBackPlatformCheck { height: *height },
            SysCmd::GetEconomicalModel { height } => SysCmdS::GetEconomicalModel { height: *height },
            SysCmd::GetPermissionCheck { height } => SysCmdS::GetPermissionCheck { height: *height },
            SysCmd::GetQuotaCheck { height } => SysCmdS::GetQuotaCheck { height: *height },
            SysCmd::SetChainName { chain_name, quota, admin_key } => SysCmdS::SetChainName { chain_name: string_bytes(*chain_name), quota: *quota, admin_key: string_bytes(*admin_key) },
            SysCmd::SetOperator { operator, quota, admin_key } => SysCmdS::SetOperator { operator: string_bytes(*operator), quota: *quota, admin_key: string_bytes(*admin_key) },
            SysCmd::SetWebsite { website, quota, admin_key } => SysCmdS::SetWebsite { website: string_bytes(*website), quota: *quota, admin_key: string_bytes(*admin_key) },
        }
    }
}

pub open spec fn build_sys_config_s(op: Operation, vs: Seq<ValueS>) -> SysCmdS {
    if op == Operation::SysGetChainOwner {
        SysCmdS::GetChainOwner { height: vs[0]->Height_0 }
    } else if op == Operation::SysGetDelayBlockNumber {
        SysCmdS::GetDelayBlockNumber { height: vs[0]->Height_0 }
    } else if op == Operation::SysGetFeeBackPlatformCheck {
        SysCmdS::GetFeeBackPlatformCheck { height: vs[0]->Height_0 }
    } else if op == Operation::SysGetEconomicalModel {
        SysCmdS::GetEconomicalModel { height: vs[0]->Height_0 }
    } else if op == Operation::SysGetPermissionCheck {
        SysCmdS::GetPermissionCheck { height: vs[0]->Height_0 }
    } else if op == Operation::SysGetQuotaCheck {
        SysCmdS::GetQuotaCheck { height: vs[0]->Height_0 }
    } else if op == Operation::SysSetChainName {
        SysCmdS::SetChainName { chain_name: vs[0]->Text_0, quota: opt_u64_s(vs[1]), admin_key: vs[2]->Key_0 }
    } else if op == Operation::SysSetOperator {
        SysCmdS::SetOperator { operator: vs[0]->Text_0, quota: opt_u64_s(vs[1]), admin_key: vs[2]->Key_0 }
    } else if op == Operation::SysSetWebsite {
        SysCmdS::SetWebsite { website: vs[0]->Text_0, quota: opt_u64_s(vs[1]), admin_key: vs[2]->Key_0 }
    } else {
        vstd::pervasive::arbitrary()
    }
}

#[verifier::spinoff_prover]
#[verifier::rlimit(100)]
fn build_sys_config(op: Operation, vals: &Vec<Value>) -> (r: SysCmd)
    requires
        op_group(op) == Group::SysConfig,
        values_ok(op_params_s(op), vals_deep(vals@)),
    ensures
        r@ == build_sys_config_s(op, vals_deep(vals@)),
{
    match op {
        Operation::SysGetChainOwner => {
            proof {
                assert(op_params_s(op).len() == 1);
                assert(ok_value(op_params_s(op)[0], vals_deep(vals@)[0]));
            }
            SysCmd::GetChainOwner { height: val_height(vals, 0) }
        },
        Operation::SysGetDelayBlockNumber => {
            proof {
                assert(op_params_s(op).len() == 1);
                assert(ok_value(op_params_s(op)[0], vals_deep(vals@)[0]));
            }
            SysCmd::GetDelayBlockNumber { height: val_height(vals, 0) }
        },
        Operation::SysGetFeeBackPlatformCheck => {
            proof {
                assert(op_params_s(op).len() == 1);
                assert(ok_value(op_params_s(op)[0], vals_deep(vals@)[0]));
            }
            SysCmd::GetFeeBackPlatformCheck { height: val_height(vals, 0) }
        },
        Operation::SysGetEconomicalModel => {
            proof {
                assert(op_params_s(op).len() == 1);
                assert(ok_value(op_params_s(op)[0], vals_deep(vals@)[0]));
            }
            SysCmd::GetEconomicalModel { height: val_height(vals, 0) }
        },
        Operation::SysGetPermissionCheck => {
            proof {
                assert(op_params_s(op).len() == 1);
                assert(ok_value(op_params_s(op)[0], vals_deep(vals@)[0]));
            }
            SysCmd::GetPermissionCheck { height: val_height(vals, 0) }
        },
        Operation::SysGetQuotaCheck => {
            proof {
                assert(op_params_s(op).len() == 1);
                assert(ok_value(op_params_s(op)[0], vals_deep(vals@)[0]));
            }
            SysCmd::GetQuotaCheck { height: val_height(vals, 0) }
        },
        Operation::SysSetChainName => {
            proof {
                assert(op_params_s(op).len() == 3);
                assert(ok_value(op_params_s(op)[0], vals_deep(vals@)[0]));
                assert(ok_value(op_params_s(op)[1], vals_deep(vals@)[1]));
                assert(ok_value(op_params_s(op)[2], vals_deep(vals@)[2]));
            }
            SysCmd::SetChainName { chain_name: val_text(vals, 0), quota: val_opt_u64(vals, 1), admin_key: val_key(vals, 2) }
        },
        Operation::SysSetOperator => {
            proof {
                assert(op_params_s(op).len() == 3);
                assert(ok_value(op_params_s(op)[0], vals_deep(vals@)[0]));
                assert(ok_value(op_params_s(op)[1], vals_deep(vals@)[1]));
                assert(ok_value(op_params_s(op)[2], vals_deep(vals@)[2]));
            }
            SysCmd::SetOperator { operator: val_text(vals, 0), quota: val_opt_u64(vals, 1), admin_key: val_key(vals, 2) }
        },
        Operation::SysSetWebsite => {
            proof {
                assert(op_params_s(op).len() == 3);
                assert(ok_value(op_params_s(op)[0], vals_deep(vals@)[0]));
                assert(ok_value(op_params_s(op)[1], vals_deep(vals@)[1]));
                assert(ok_value(op_params_s(op)[2], vals_deep(vals@)[2]));
            }
            SysCmd::SetWebsite { website: val_text(vals, 0), quota: val_opt_u64(vals, 1), admin_key: val_key(vals, 2) }
        },
        _ => vstd::pervasive::unreached(),
    }
}

pub open spec fn sys_config_key_s(c: SysCmdS) -> Option<Seq<u8>> {
    match c {
        SysCmdS::GetChainOwner { .. } => None,
        SysCmdS::GetDelayBlockNumber { .. } => None,
        SysCmdS::GetFeeBackPlatformCheck { .. } => None,
        SysCmdS::GetEconomicalModel { .. } => None,
        SysCmdS::GetPermissionCheck { .. } => None,
        SysCmdS::GetQuotaCheck { .. } => None,
        SysCmdS::SetChainName { admin_key, .. } => Some(admin_key),
        SysCmdS::SetOperator { admin_key, .. } => Some(admin_key),
        SysCmdS::SetWebsite { admin_key, .. } => Some(admin_key),
    }
}

pub open spec fn sys_config_quota_s(c: SysCmdS) -> Option<Option<u64>> {
    match c {
        SysCmdS::GetChainOwner { .. } => None,
        SysCmdS::GetDelayBlockNumber { .. } => None,
        SysCmdS::GetFeeBackPlatformCheck { .. } => None,
        SysCmdS::GetEconomicalModel { .. } => None,
        SysCmdS::GetPermissionCheck { .. } => None,
        SysCmdS::GetQuotaCheck { .. } => None,
        SysCmdS::SetChainName { quota, .. } => Some(quota),
        SysCmdS::SetOperator { quota, .. } => Some(quota),
        SysCmdS::SetWebsite { quota, .. } => Some(quota),
    }
}

fn take_key_sys_config(c: &SysCmd) -> (r: Option<String>)
    ensures
        match r {
            Some(k) => sys_config_key_s(c@) == Some(string_bytes(k)),
            None => sys_config_key_s(c@) is None,
        },
{
    match c {
        SysCmd::GetChainOwner { .. } => None,
        SysCmd::GetDelayBlockNumber { .. } => None,
        SysCmd::GetFeeBackPlatformCheck { .. } => None,
        SysCmd::GetEconomicalModel { .. } => None,
        SysCmd::GetPermissionCheck { .. } => None,
        SysCmd::GetQuotaCheck { .. } => None,
        SysCmd::SetChainName { admin_key, .. } => Some(admin_key.clone()),
        SysCmd::SetOperator { admin_key, .. } => Some(admin_key.clone()),
        SysCmd::SetWebsite { admin_key, .. } => Some(admin_key.clone()),
    }
}

/// The typed commands of the EmergencyBrake contract.
#[derive(Clone, Debug, PartialEq, Eq)]
pub enum BrakeCmd {
    State { height: BlockHeight },
    SetState { state: bool, quota: Option<u64>, admin_key: String },
}

/// The mathematical shape of a [`BrakeCmd`].
pub enum BrakeCmdS {
    State { height: BlockHeight },
    SetState { state: bool, quota: Option<u64>, admin_key: Seq<u8> },
}

impl View for BrakeCmd {
    type V = BrakeCmdS;

    open spec fn view(&self) -> BrakeCmdS {
        match self {
            BrakeCmd::State { height } => BrakeCmdS::State { height: *height },
            BrakeCmd::SetState { state, quota, admin_key } => BrakeCmdS::SetState { state: *state, quota: *quota, admin_key: string_bytes(*admin_key) },
        }
    }
}

pub open spec fn build_emergency_brake_s(op: Operation, vs: Seq<ValueS>) -> BrakeCmdS {
    if op == Operation::BrakeState {
        BrakeCmdS::State { height: vs[0]->Height_0 }
    } else if op == Operation::BrakeSetState {
        BrakeCmdS::SetState { state: vs[0]->Bool_0, quota: opt_u64_s(vs[1]), admin_key: vs[2]->Key_0 }
    } else {
        vstd::pervasive::arbitrary()
    }
}

#[verifier::spinoff_prover]
#[verifier::rlimit(100)]
fn build_emergency_brake(op: Operation, vals: &Vec<Value>) -> (r: BrakeCmd)
    requires
        op_group(op) == Group::EmergencyBrake,
        values_ok(op_params_s(op), vals_deep(vals@)),
    ensures
        r@ == build_emergency_brake_s(op, vals_deep(vals@)),
{
    match op {
        Operation::BrakeState => {
            proof {
                assert(op_params_s(op).len() == 1);
                assert(ok_value(op_params_s(op)[0], vals_deep(vals@)[0]));
            }
            BrakeCmd::State { height: val_height(vals, 0) }
        },
        Operation::BrakeSetState => {
            proof {
                assert(op_params_s(op).len() == 3);
                assert(ok_value(op_params_s(op)[0], vals_deep(vals@)[0]));
                assert(ok_value(op_params_s(op)[1], vals_deep(vals@)[1]));
                assert(ok_value(op_params_s(op)[2], vals_deep(vals@)[2]));
            }
            BrakeCmd::SetState { state: val_bool(vals, 0), quota: val_opt_u64(vals, 1), admin_key: val_key(vals, 2) }
        },
        _ => vstd::pervasive::unreached(),
    }
}

pub open spec fn emergency_brake_key_s(c: BrakeCmdS) -> Option<Seq<u8>> {
    match c {
        BrakeCmdS::State { .. } => None,
        BrakeCmdS::SetState { admin_key, .. } => Some(admin_key),
    }
}

pub open spec fn emergency_brake_quota_s(c: BrakeCmdS) -> Option<Option<u64>> {
    match c {
        BrakeCmdS::State { .. } => None,
        BrakeCmdS::SetState { quota, .. } => Some(quota),
    }
}

fn take_key_emergency_brake(c: &BrakeCmd) -> (r: Option<String>)
    ensures
        match r {
            Some(k) => emergency_brake_key_s(c@) == Some(string_bytes(k)),
            None => emergency_brake_key_s(c@) is None,
        },
{
    match c {
        BrakeCmd::State { .. } => None,
        BrakeCmd::SetState { admin_key, .. } => Some(admin_key.clone()),
    }
}

/// One typed contract call, the complete result of a dispatch.
#[derive(Clone, Debug, PartialEq, Eq)]
pub enum Cmd {
    NodeManager(NodeCmd),
    QuotaManager(QuotaCmd),
    Group(GroupCmd),
    GroupManagement(GroupMgmtCmd),
    Role(RoleCmd),
    RoleManagement(RoleMgmtCmd),
    Authorization(AuthCmd),
    Permission(PermCmd),
    PermissionManagement(PermMgmtCmd),
    AdminManagement(AdminCmd),
    BatchTx(BatchCmd),
    SysConfig(SysCmd),
    EmergencyBrake(BrakeCmd),
}

/// The mathematical shape of a [`Cmd`].
pub enum CmdS {
    NodeManager(NodeCmdS),
    QuotaManager(QuotaCmdS),
    Group(GroupCmdS),
    GroupManagement(GroupMgmtCmdS),
    Role(RoleCmdS),
    RoleManagement(RoleMgmtCmdS),
    Authorization(AuthCmdS),
    Permission(PermCmdS),
    PermissionManagement(PermMgmtCmdS),
    AdminManagement(AdminCmdS),
    BatchTx(BatchCmdS),
    SysConfig(SysCmdS),
    EmergencyBrake(BrakeCmdS),
}

impl View for Cmd {
    type V = CmdS;

    open spec fn view(&self) -> CmdS {
        match self {
            Cmd::NodeManager(c) => CmdS::NodeManager(c@),
            Cmd::QuotaManager(c) => CmdS::QuotaManager(c@),
            Cmd::Group(c) => CmdS::Group(c@),
            Cmd::GroupManagement(c) => CmdS::GroupManagement(c@),
            Cmd::Role(c) => CmdS::Role(c@),
            Cmd::RoleManagement(c) => CmdS::RoleManagement(c@),
            Cmd::Authorization(c) => CmdS::Authorization(c@),
            Cmd::Permission(c) => CmdS::Permission(c@),
            Cmd::PermissionManagement(c) => CmdS::PermissionManagement(c@),
            Cmd::AdminManagement(c) => CmdS::AdminManagement(c@),
            Cmd::BatchTx(c) => CmdS::BatchTx(c@),
            Cmd::SysConfig(c) => CmdS::SysConfig(c@),
            Cmd::EmergencyBrake(c) => CmdS::EmergencyBrake(c@),
        }
    }
}

/// The typed command an operation builds from its resolved values.
pub open spec fn build_s(op: Operation, vs: Seq<ValueS>) -> CmdS {
    match op_group(op) {
        Group::NodeManager => CmdS::NodeManager(build_node_manager_s(op, vs)),
        Group::QuotaManager => CmdS::QuotaManager(build_quota_manager_s(op, vs)),
        Group::Group => CmdS::Group(build_group_s(op, vs)),
        Group::GroupManagement => CmdS::GroupManagement(build_group_management_s(op, vs)),
        Group::Role => CmdS::Role(build_role_s(op, vs)),
        Group::RoleManagement => CmdS::RoleManagement(build_role_management_s(op, vs)),
        Group::Authorization => CmdS::Authorization(build_authorization_s(op, vs)),
        Group::Permission => CmdS::Permission(build_permission_s(op, vs)),
        Group::PermissionManagement => CmdS::PermissionManagement(build_permission_management_s(op, vs)),
        Group::AdminManagement => CmdS::AdminManagement(build_admin_management_s(op, vs)),
        Group::BatchTx => CmdS::BatchTx(build_batch_tx_s(op, vs)),
        Group::SysConfig => CmdS::SysConfig(build_sys_config_s(op, vs)),
        Group::EmergencyBrake => CmdS::EmergencyBrake(build_emergency_brake_s(op, vs)),
    }
}

/// Builds the typed command of an operation from its resolved values.
pub fn build_cmd(op: Operation, vals: &Vec<Value>) -> (r: Cmd)
    requires
        values_ok(op_params_s(op), vals_deep(vals@)),
    ensures
        r@ == build_s(op, vals_deep(vals@)),
{
    match exec_group(op) {
        Group::NodeManager => Cmd::NodeManager(build_node_manager(op, vals)),
        Group::QuotaManager => Cmd::QuotaManager(build_quota_manager(op, vals)),
        Group::Group => Cmd::Group(build_group(op, vals)),
        Group::GroupManagement => Cmd::GroupManagement(build_group_management(op, vals)),
        Group::Role => Cmd::Role(build_role(op, vals)),
        Group::RoleManagement => Cmd::RoleManagement(build_role_management(op, vals)),
        Group::Authorization => Cmd::Authorization(build_authorization(op, vals)),
        Group::Permission => Cmd::Permission(build_permission(op, vals)),
        Group::PermissionManagement => Cmd::PermissionManagement(build_permission_management(op, vals)),
        Group::AdminManagement => Cmd::AdminManagement(build_admin_management(op, vals)),
        Group::BatchTx => Cmd::BatchTx(build_batch_tx(op, vals)),
        Group::SysConfig => Cmd::SysConfig(build_sys_config(op, vals)),
        Group::EmergencyBrake => Cmd::EmergencyBrake(build_emergency_brake(op, vals)),
    }
}

/// The signing key a command installs before its call: present exactly for
/// the state-mutating operations.
pub open spec fn cmd_key_s(c: CmdS) -> Option<Seq<u8>> {
    match c {
        CmdS::NodeManager(c) => node_manager_key_s(c),
        CmdS::QuotaManager(c) => quota_manager_key_s(c),
        CmdS::Group(c) => group_key_s(c),
        CmdS::GroupManagement(c) => group_management_key_s(c),
        CmdS::Role(c) => role_key_s(c),
        CmdS::RoleManagement(c) => role_management_key_s(c),
        CmdS::Authorization(c) => authorization_key_s(c),
        CmdS::Permission(c) => permission_key_s(c),
        CmdS::PermissionManagement(c) => permission_management_key_s(c),
        CmdS::AdminManagement(c) => admin_management_key_s(c),
        CmdS::BatchTx(c) => batch_tx_key_s(c),
        CmdS::SysConfig(c) => sys_config_key_s(c),
        CmdS::EmergencyBrake(c) => emergency_brake_key_s(c),
    }
}

/// Reads the signing key of a command, if it is a write.
pub fn take_key(c: &Cmd) -> (r: Option<String>)
    ensures
        match r {
            Some(k) => cmd_key_s(c@) == Some(string_bytes(k)),
            None => cmd_key_s(c@) is None,
        },
{
    match c {
        Cmd::NodeManager(c) => take_key_node_manager(c),
        Cmd::QuotaManager(c) => take_key_quota_manager(c),
        Cmd::Group(c) => take_key_group(c),
        Cmd::GroupManagement(c) => take_key_group_management(c),
        Cmd::Role(c) => take_key_role(c),
        Cmd::RoleManagement(c) => take_key_role_management(c),
        Cmd::Authorization(c) => take_key_authorization(c),
        Cmd::Permission(c) => take_key_permission(c),
        Cmd::PermissionManagement(c) => take_key_permission_management(c),
        Cmd::AdminManagement(c) => take_key_admin_management(c),
        Cmd::BatchTx(c) => take_key_batch_tx(c),
        Cmd::SysConfig(c) => take_key_sys_config(c),
        Cmd::EmergencyBrake(c) => take_key_emergency_brake(c),
    }
}

/// The quota override a command carries: `None` for read-only queries,
/// `Some(None)` for a write left to the facade's default.
pub open spec fn cmd_quota_s(c: CmdS) -> Option<Option<u64>> {
    match c {
        CmdS::NodeManager(c) => node_manager_quota_s(c),
        CmdS::QuotaManager(c) => quota_manager_quota_s(c),
        CmdS::Group(c) => group_quota_s(c),
        CmdS::GroupManagement(c) => group_management_quota_s(c),
        CmdS::Role(c) => role_quota_s(c),
        CmdS::RoleManagement(c) => role_management_quota_s(c),
        CmdS::Authorization(c) => authorization_quota_s(c),
        CmdS::Permission(c) => permission_quota_s(c),
        CmdS::PermissionManagement(c) => permission_management_quota_s(c),
        CmdS::AdminManagement(c) => admin_management_quota_s(c),
        CmdS::BatchTx(c) => batch_tx_quota_s(c),
        CmdS::SysConfig(c) => sys_config_quota_s(c),
        CmdS::EmergencyBrake(c) => emergency_brake_quota_s(c),
    }
}

#[verifier::spinoff_prover]
#[verifier::rlimit(100)]
proof fn lemma_build_quota_node_manager(op: Operation, vs: Seq<ValueS>)
    requires
        op_group(op) == Group::NodeManager,
        values_ok(op_params_s(op), vs),
    ensures
        match quota_index(op) {
            Some(k) => cmd_quota_s(build_s(op, vs)) == Some(opt_u64_s(vs[k])),
            None => cmd_quota_s(build_s(op, vs)) is None,
        },
{
    match op {
        Operation::NodeListNode => {},
        Operation::NodeListStake => {},
        Operation::NodeGetStatus => {},
        Operation::NodeDeleteNode => {},
        Operation::NodeApproveNode => {},
        Operation::NodeSetStake => {},
        Operation::NodeStakePermillage => {},
        _ => {
            assert(false);
        },
    }
}

#[verifier::spinoff_prover]
#[verifier::rlimit(100)]
proof fn lemma_build_quota_quota_manager(op: Operation, vs: Seq<ValueS>)
    requires
        op_group(op) == Group::QuotaManager,
        values_ok(op_params_s(op), vs),
    ensures
        match quota_index(op) {
            Some(k) => cmd_quota_s(build_s(op, vs)) == Some(opt_u64_s(vs[k])),
            None => cmd_quota_s(build_s(op, vs)) is None,
        },
{
    match op {
        Operation::QuotaGetBql => {},
        Operation::QuotaGetDefaultAql => {},
        Operation::QuotaGetAccounts => {},
        Operation::QuotaGetQuotas => {},
        Operation::QuotaGetAql => {},
        Operation::QuotaSetBql => {},
        Operation::QuotaSetDefaultAql => {},
        Operation::QuotaSetAql => {},
        _ => {
            assert(false);
        },
    }
}

#[verifier::spinoff_prover]
#[verifier::rlimit(100)]
proof fn lemma_build_quota_group(op: Operation, vs: Seq<ValueS>)
    requires
        op_group(op) == Group::Group,
        values_ok(op_params_s(op), vs),
    ensures
        match quota_index(op) {
            Some(k) => cmd_quota_s(build_s(op, vs)) == Some(opt_u64_s(vs[k])),
            None => cmd_quota_s(build_s(op, vs)) is None,
        },
{
    match op {
        Operation::GroupQueryInfo => {},
        Operation::GroupQueryName => {},
        Operation::GroupQueryAccounts => {},
        Operation::GroupQueryChild => {},
        Operation::GroupQueryChildLength => {},
        Operation::GroupQueryParent => {},
        Operation::GroupInGroup => {},
        _ => {
            assert(false);
        },
    }
}

#[verifier::spinoff_prover]
#[verifier::rlimit(100)]
proof fn lemma_build_quota_group_management(op: Operation, vs: Seq<ValueS>)
    requires
        op_group(op) == Group::GroupManagement,
        values_ok(op_params_s(op), vs),
    ensures
        match quota_index(op) {
            Some(k) => cmd_quota_s(build_s(op, vs)) == Some(opt_u64_s(vs[k])),
            None => cmd_quota_s(build_s(op, vs)) is None,
        },
{
    match op {
        Operation::GmNewGroup => {},
        Operation::GmDeleteGroup => {},
        Operation::GmUpdateGroupName => {},
        Operation::GmAddAccounts => {},
        Operation::GmDeleteAccounts => {},
        Operation::GmCheckScope => {},
        Operation::GmQueryGroups => {},
        _ => {
            assert(false);
        },
    }
}

#[verifier::spinoff_prover]
#[verifier::rlimit(100)]
proof fn lemma_build_quota_role(op: Operation, vs: Seq<ValueS>)
    requires
        op_group(op) == Group::Role,
        values_ok(op_params_s(op), vs),
    ensures
        match quota_index(op) {
            Some(k) => cmd_quota_s(build_s(op, vs)) == Some(opt_u64_s(vs[k])),
            None => cmd_quota_s(build_s(op, vs)) is None,
        },
{
    match op {
        Operation::RoleQueryRole => {},
        Operation::RoleQueryName => {},
        Operation::RoleQueryPermissions => {},
        Operation::RoleLengthOfPermissions => {},
        Operation::RoleInPermissions => {},
        _ => {
            assert(false);
        },
    }
}

#[verifier::spinoff_prover]
#[verifier::rlimit(100)]
proof fn lemma_build_quota_role_management(op: Operation, vs: Seq<ValueS>)
    requires
        op_group(op) == Group::RoleManagement,
        values_ok(op_params_s(op), vs),
    ensures
        match quota_index(op) {
            Some(k) => cmd_quota_s(build_s(op, vs)) == Some(opt_u64_s(vs[k])),
            None => cmd_quota_s(build_s(op, vs)) is None,
        },
{
    match op {
        Operation::RmNewRole => {},
        Operation::RmDeleteRole => {},
        Operation::RmUpdateRoleName => {},
        Operation::RmAddPermissions => {},
        Operation::RmDeletePermissions => {},
        Operation::RmSetRole => {},
        Operation::RmCancelRole => {},
        Operation::RmClearRole => {},
        Operation::RmQueryRoles => {},
        Operation::RmQueryAccounts => {},
        _ => {
            assert(false);
        },
    }
}

#[verifier::spinoff_prover]
#[verifier::rlimit(100)]
proof fn lemma_build_quota_authorization(op: Operation, vs: Seq<ValueS>)
    requires
        op_group(op) == Group::Authorization,
        values_ok(op_params_s(op), vs),
    ensures
        match quota_index(op) {
            Some(k) => cmd_quota_s(build_s(op, vs)) == Some(opt_u64_s(vs[k])),
            None => cmd_quota_s(build_s(op, vs)) is None,
        },
{
    match op {
        Operation::AuthQueryPermissions => {},
        Operation::AuthQueryAccounts => {},
        Operation::AuthQueryAllAccounts => {},
        Operation::AuthCheckResource => {},
        Operation::AuthCheckPermission => {},
        _ => {
            assert(false);
        },
    }
}

#[verifier::spinoff_prover]
#[verifier::rlimit(100)]
proof fn lemma_build_quota_permission(op: Operation, vs: Seq<ValueS>)
    requires
        op_group(op) == Group::Permission,
        values_ok(op_params_s(op), vs),
    ensures
        match quota_index(op) {
            Some(k) => cmd_quota_s(build_s(op, vs)) == Some(opt_u64_s(vs[k])),
            None => cmd_quota_s(build_s(op, vs)) is None,
        },
{
    match op {
        Operation::PermInPermission => {},
        Operation::PermQueryInfo => {},
        Operation::PermQueryName => {},
        Operation::PermQueryResource => {},
        _ => {
            assert(false);
        },
    }
}

#[verifier::spinoff_prover]
#[verifier::rlimit(100)]
proof fn lemma_build_quota_permission_management(op: Operation, vs: Seq<ValueS>)
    requires
        op_group(op) == Group::PermissionManagement,
        values_ok(op_params_s(op), vs),
    ensures
        match quota_index(op) {
            Some(k) => cmd_quota_s(build_s(op, vs)) == Some(opt_u64_s(vs[k])),
            None => cmd_quota_s(build_s(op, vs)) is None,
        },
{
    match op {
        Operation::PmNewPermission => {},
        Operation::PmDeletePermission => {},
        Operation::PmUpdatePermissionName => {},
        Operation::PmAddResources => {},
        Operation::PmDeleteResources => {},
        Operation::PmSetAuthorization => {},
        Operation::PmSetAuthorizations => {},
        Operation::PmCancelAuthorization => {},
        Operation::PmCancelAuthorizations => {},
        Operation::PmClearAuthorization => {},
        _ => {
            assert(false);
        },
    }
}

#[verifier::spinoff_prover]
#[verifier::rlimit(100)]
proof fn lemma_build_quota_admin_management(op: Operation, vs: Seq<ValueS>)
    requires
        op_group(op) == Group::AdminManagement,
        values_ok(op_params_s(op), vs),
    ensures
        match quota_index(op) {
            Some(k) => cmd_quota_s(build_s(op, vs)) == Some(opt_u64_s(vs[k])),
            None => cmd_quota_s(build_s(op, vs)) is None,
        },
{
    match op {
        Operation::AdminAdmin => {},
        Operation::AdminIsAdmin => {},
        Operation::AdminUpdate => {},
        _ => {
            assert(false);
        },
    }
}

#[verifier::spinoff_prover]
#[verifier::rlimit(100)]
proof fn lemma_build_quota_batch_tx(op: Operation, vs: Seq<ValueS>)
    requires
        op_group(op) == Group::BatchTx,
        values_ok(op_params_s(op), vs),
    ensures
        match quota_index(op) {
            Some(k) => cmd_quota_s(build_s(op, vs)) == Some(opt_u64_s(vs[k])),
            None => cmd_quota_s(build_s(op, vs)) is None,
        },
{
    match op {
        Operation::BatchMultiTxs => {},
        _ => {
            assert(false);
        },
    }
}

#[verifier::spinoff_prover]
#[verifier::rlimit(100)]
proof fn lemma_build_quota_sys_config(op: Operation, vs: Seq<ValueS>)
    requires
        op_group(op) == Group::SysConfig,
        values_ok(op_params_s(op), vs),
    ensures
        match quota_index(op) {
            Some(k) => cmd_quota_s(build_s(op, vs)) == Some(opt_u64_s(vs[k])),
            None => cmd_quota_s(build_s(op, vs)) is None,
        },
{
    match op {
        Operation::SysGetChainOwner => {},
        Operation::SysGetDelayBlockNumber => {},
        Operation::SysGetFeeBackPlatformCheck => {},
        Operation::SysGetEconomicalModel => {},
        Operation::SysGetPermissionCheck => {},
        Operation::SysGetQuotaCheck => {},
        Operation::SysSetChainName => {},
        Operation::SysSetOperator => {},
        Operation::SysSetWebsite => {},
        _ => {
            assert(false);
        },
    }
}

#[verifier::spinoff_prover]
#[verifier::rlimit(100)]
proof fn lemma_build_quota_emergency_brake(op: Operation, vs: Seq<ValueS>)
    requires
        op_group(op) == Group::EmergencyBrake,
        values_ok(op_params_s(op), vs),
    ensures
        match quota_index(op) {
            Some(k) => cmd_quota_s(build_s(op, vs)) == Some(opt_u64_s(vs[k])),
            None => cmd_quota_s(build_s(op, vs)) is None,
        },
{
    match op {
        Operation::BrakeState => {},
        Operation::BrakeSetState => {},
        _ => {
            assert(false);
        },
    }
}

/// The quota field of the built command is exactly the resolved quota
/// slot: absent from reads, and never invented by the dispatcher.
pub proof fn lemma_build_quota(op: Operation, vs: Seq<ValueS>)
    requires
        values_ok(op_params_s(op), vs),
    ensures
        match quota_index(op) {
            Some(k) => cmd_quota_s(build_s(op, vs)) == Some(opt_u64_s(vs[k])),
            None => cmd_quota_s(build_s(op, vs)) is None,
        },
{
    match op_group(op) {
        Group::NodeManager => lemma_build_quota_node_manager(op, vs),
        Group::QuotaManager => lemma_build_quota_quota_manager(op, vs),
        Group::Group => lemma_build_quota_group(op, vs),
        Group::GroupManagement => lemma_build_quota_group_management(op, vs),
        Group::Role => lemma_build_quota_role(op, vs),
        Group::RoleManagement => lemma_build_quota_role_management(op, vs),
        Group::Authorization => lemma_build_quota_authorization(op, vs),
        Group::Permission => lemma_build_quota_permission(op, vs),
        Group::PermissionManagement => lemma_build_quota_permission_management(op, vs),
        Group::AdminManagement => lemma_build_quota_admin_management(op, vs),
        Group::BatchTx => lemma_build_quota_batch_tx(op, vs),
        Group::SysConfig => lemma_build_quota_sys_config(op, vs),
        Group::EmergencyBrake => lemma_build_quota_emergency_brake(op, vs),
    }
}

} // verus!
