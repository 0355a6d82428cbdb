//! The command schema registry: the closed set of contract groups and
//! operations, and for each operation its declared parameter list.  The
//! registry is the single source of truth: the dispatcher resolves
//! arguments against exactly these lists, and the usage surface renders
//! them.

use vstd::prelude::*;

verus! {

use vstd::string::StringSliceAdditionalSpecFns;
use crate::errors::string_bytes;

/// The semantic type of one declared parameter.
#[derive(Clone, Copy, Debug, PartialEq, Eq, Structural)]
pub enum ParamKind {
    /// A 20-byte hex address, optionally 0x-prefixed.
    Address,
    /// A hex string of unconstrained length (selectors, block hashes).
    HexStr,
    /// A delimited address list, validated as overall hex syntax and split
    /// by the facade.
    HexList,
    /// A decimal unsigned 64-bit number.
    U64Dec,
    /// A signing key for the active signature scheme.
    PrivateKey,
    /// The literal "latest" or a decimal block number.
    Height,
    /// The literal "true" or "false".
    BoolFlag,
    /// Free text handed to the facade unvalidated.
    FreeText,
    /// A repeatable hex-encoded transaction payload.
    TxList,
}

/// One declared parameter of an operation.
pub struct ParamSpec {
    pub name: String,
    pub required: bool,
    pub kind: ParamKind,
    pub default: Option<String>,
}

/// The mathematical shape of a [`ParamSpec`].
pub struct ParamSpecS {
    pub name: Seq<u8>,
    pub required: bool,
    pub kind: ParamKind,
    pub default: Option<Seq<u8>>,
}

impl View for ParamSpec {
    type V = ParamSpecS;

    open spec fn view(&self) -> ParamSpecS {
        ParamSpecS {
            name: string_bytes(self.name),
            required: self.required,
            kind: self.kind,
            default: match self.default {
                Some(d) => Some(string_bytes(d)),
                None => None,
            },
        }
    }
}

pub open spec fn specs_deep(s: Seq<ParamSpec>) -> Seq<ParamSpecS> {
    s.map(|i: int, p: ParamSpec| p@)
}

pub open spec fn ps_req_s(name: Seq<u8>, kind: ParamKind) -> ParamSpecS {
    ParamSpecS { name, required: true, kind, default: None }
}

/// The optional quota override; when absent the facade applies its own
/// default, the dispatcher never invents one.
pub open spec fn ps_quota_s() -> ParamSpecS {
    ParamSpecS {
        name: "quota".spec_bytes(),
        required: false,
        kind: ParamKind::U64Dec,
        default: None,
    }
}

/// The block height flag, defaulting to "latest" when omitted.
pub open spec fn ps_height_s() -> ParamSpecS {
    ParamSpecS {
        name: "height".spec_bytes(),
        required: false,
        kind: ParamKind::Height,
        default: Some("latest".spec_bytes()),
    }
}

fn ps_req(name: &str, kind: ParamKind) -> (r: ParamSpec)
    ensures
        r@ == ps_req_s(name.spec_bytes(), kind),
{
    ParamSpec { name: name.to_owned(), required: true, kind, default: None }
}

fn ps_quota() -> (r: ParamSpec)
    ensures
        r@ == ps_quota_s(),
{
    ParamSpec { name: "quota".to_owned(), required: false, kind: ParamKind::U64Dec, default: None }
}

fn ps_height() -> (r: ParamSpec)
    ensures
        r@ == ps_height_s(),
{
    ParamSpec {
        name: "height".to_owned(),
        required: false,
        kind: ParamKind::Height,
        default: Some("latest".to_owned()),
    }
}

/// A system-contract group.
#[derive(Clone, Copy, Debug, PartialEq, Eq, Structural)]
pub enum Group {
    NodeManager,
    QuotaManager,
    Group,
    GroupManagement,
    Role,
    RoleManagement,
    Authorization,
    Permission,
    PermissionManagement,
    AdminManagement,
    BatchTx,
    SysConfig,
    EmergencyBrake,
}

/// One operation of one group; the closed set of dispatchable commands.
#[derive(Clone, Copy, Debug, PartialEq, Eq, Structural)]
pub enum Operation {
    NodeListNode,
    NodeListStake,
    NodeGetStatus,
    NodeDeleteNode,
    NodeApproveNode,
    NodeSetStake,
    NodeStakePermillage,
    QuotaGetBql,
    QuotaGetDefaultAql,
    QuotaGetAccounts,
    QuotaGetQuotas,
    QuotaGetAql,
    QuotaSetBql,
    QuotaSetDefaultAql,
    QuotaSetAql,
    GroupQueryInfo,
    GroupQueryName,
    GroupQueryAccounts,
    GroupQueryChild,
    GroupQueryChildLength,
    GroupQueryParent,
    GroupInGroup,
    GmNewGroup,
    GmDeleteGroup,
    GmUpdateGroupName,
    GmAddAccounts,
    GmDeleteAccounts,
    GmCheckScope,
    GmQueryGroups,
    RoleQueryRole,
    RoleQueryName,
    RoleQueryPermissions,
    RoleLengthOfPermissions,
    RoleInPermissions,
    RmNewRole,
    RmDeleteRole,
    RmUpdateRoleName,
    RmAddPermissions,
    RmDeletePermissions,
    RmSetRole,
    RmCancelRole,
    RmClearRole,
    RmQueryRoles,
    RmQueryAccounts,
    AuthQueryPermissions,
    AuthQueryAccounts,
    AuthQueryAllAccounts,
    AuthCheckResource,
    AuthCheckPermission,
    PermInPermission,
    PermQueryInfo,
    PermQueryName,
    PermQueryResource,
    PmNewPermission,
    PmDeletePermission,
    PmUpdatePermissionName,
    PmAddResources,
    PmDeleteResources,
    PmSetAuthorization,
    PmSetAuthorizations,
    PmCancelAuthorization,
    PmCancelAuthorizations,
    PmClearAuthorization,
    AdminAdmin,
    AdminIsAdmin,
    AdminUpdate,
    BatchMultiTxs,
    SysGetChainOwner,
    SysGetDelayBlockNumber,
    SysGetFeeBackPlatformCheck,
    SysGetEconomicalModel,
    SysGetPermissionCheck,
    SysGetQuotaCheck,
    SysSetChainName,
    SysSetOperator,
    SysSetWebsite,
    BrakeState,
    BrakeSetState,
}

/// The group a command path names, if any.
pub open spec fn group_of(g: Seq<u8>) -> Option<Group> {
    if g == "NodeManager".spec_bytes() {
        Some(Group::NodeManager)
    } else if g == "QuotaManager".spec_bytes() {
        Some(Group::QuotaManager)
    } else if g == "Group".spec_bytes() {
        Some(Group::Group)
    } else if g == "GroupManagement".spec_bytes() {
        Some(Group::GroupManagement)
    } else if g == "Role".spec_bytes() {
        Some(Group::Role)
    } else if g == "RoleManagement".spec_bytes() {
        Some(Group::RoleManagement)
    } else if g == "Authorization".spec_bytes() {
        Some(Group::Authorization)
    } else if g == "Permission".spec_bytes() {
        Some(Group::Permission)
    } else if g == "PermissionManagement".spec_bytes() {
        Some(Group::PermissionManagement)
    } else if g == "AdminManagement".spec_bytes() {
        Some(Group::AdminManagement)
    } else if g == "BatchTx".spec_bytes() {
        Some(Group::BatchTx)
    } else if g == "SysConfig".spec_bytes() {
        Some(Group::SysConfig)
    } else if g == "EmergencyBrake".spec_bytes() {
        Some(Group::EmergencyBrake)
    } else {
        None
    }
}

/// The operation a command path names within a group, if any.
pub open spec fn op_of(g: Group, o: Seq<u8>) -> Option<Operation> {
    match g {
        Group::NodeManager => {
            if o == "listNode".spec_bytes() {
                Some(Operation::NodeListNode)
            } else if o == "listStake".spec_bytes() {
                Some(Operation::NodeListStake)
            } else if o == "getStatus".spec_bytes() {
                Some(Operation::NodeGetStatus)
            } else if o == "deleteNode".spec_bytes() {
                Some(Operation::NodeDeleteNode)
            } else if o == "approveNode".spec_bytes() {
                Some(Operation::NodeApproveNode)
            } else if o == "setStake".spec_bytes() {
                Some(Operation::NodeSetStake)
            } else if o == "stakePermillage".spec_bytes() {
                Some(Operation::NodeStakePermillage)
            } else {
                None
            }
        },
        Group::QuotaManager => {
            if o == "getBQL".spec_bytes() {
                Some(Operation::QuotaGetBql)
            } else if o == "getDefaultAQL".spec_bytes() {
                Some(Operation::QuotaGetDefaultAql)
            } else if o == "getAccounts".spec_bytes() {
                Some(Operation::QuotaGetAccounts)
            } else if o == "getQuotas".spec_bytes() {
                Some(Operation::QuotaGetQuotas)
            } else if o == "getAQL".spec_bytes() {
                Some(Operation::QuotaGetAql)
            } else if o == "setBQL".spec_bytes() {
                Some(Operation::QuotaSetBql)
            } else if o == "setDefaultAQL".spec_bytes() {
                Some(Operation::QuotaSetDefaultAql)
            } else if o == "setAQL".spec_bytes() {
                Some(Operation::QuotaSetAql)
            } else {
                None
            }
        },
        Group::Group => {
            if o == "queryInfo".spec_bytes() {
                Some(Operation::GroupQueryInfo)
            } else if o == "queryName".spec_bytes() {
                Some(Operation::GroupQueryName)
            } else if o == "queryAccounts".spec_bytes() {
                Some(Operation::GroupQueryAccounts)
            } else if o == "queryChild".spec_bytes() {
                Some(Operation::GroupQueryChild)
            } else if o == "queryChildLength".spec_bytes() {
                Some(Operation::GroupQueryChildLength)
            } else if o == "queryParent".spec_bytes() {
                Some(Operation::GroupQueryParent)
            } else if o == "inGroup".spec_bytes() {
                Some(Operation::GroupInGroup)
            } else {
                None
            }
        },
        Group::GroupManagement => {
            if o == "newGroup".spec_bytes() {
                Some(Operation::GmNewGroup)
            } else if o == "deleteGroup".spec_bytes() {
                Some(Operation::GmDeleteGroup)
            } else if o == "updateGroupName".spec_bytes() {
                Some(Operation::GmUpdateGroupName)
            } else if o == "addAccounts".spec_bytes() {
                Some(Operation::GmAddAccounts)
            } else if o == "deleteAccounts".spec_bytes() {
                Some(Operation::GmDeleteAccounts)
            } else if o == "checkScope".spec_bytes() {
                Some(Operation::GmCheckScope)
            } else if o == "queryGroups".spec_bytes() {
                Some(Operation::GmQueryGroups)
            } else {
                None
            }
        },
        Group::Role => {
            if o == "queryRole".spec_bytes() {
                Some(Operation::RoleQueryRole)
            } else if o == "queryName".spec_bytes() {
                Some(Operation::RoleQueryName)
            } else if o == "queryPermissions".spec_bytes() {
                Some(Operation::RoleQueryPermissions)
            } else if o == "lengthOfPermissions".spec_bytes() {
                Some(Operation::RoleLengthOfPermissions)
            } else if o == "inPermissions".spec_bytes() {
                Some(Operation::RoleInPermissions)
            } else {
                None
            }
        },
        Group::RoleManagement => {
            if o == "newRole".spec_bytes() {
                Some(Operation::RmNewRole)
            } else if o == "deleteRole".spec_bytes() {
                Some(Operation::RmDeleteRole)
            } else if o == "updateRoleName".spec_bytes() {
                Some(Operation::RmUpdateRoleName)
            } else if o == "addPermissions".spec_bytes() {
                Some(Operation::RmAddPermissions)
            } else if o == "deletePermissions".spec_bytes() {
                Some(Operation::RmDeletePermissions)
            } else if o == "setRole".spec_bytes() {
                Some(Operation::RmSetRole)
            } else if o == "cancelRole".spec_bytes() {
                Some(Operation::RmCancelRole)
            } else if o == "clearRole".spec_bytes() {
                Some(Operation::RmClearRole)
            } else if o == "queryRoles".spec_bytes() {
                Some(Operation::RmQueryRoles)
            } else if o == "queryAccounts".spec_bytes() {
                Some(Operation::RmQueryAccounts)
            } else {
                None
            }
        },
        Group::Authorization => {
            if o == "queryPermissions".spec_bytes() {
                Some(Operation::AuthQueryPermissions)
            } else if o == "queryAccounts".spec_bytes() {
                Some(Operation::AuthQueryAccounts)
            } else if o == "queryAllAccounts".spec_bytes() {
                Some(Operation::AuthQueryAllAccounts)
            } else if o == "checkResource".spec_bytes() {
                Some(Operation::AuthCheckResource)
            } else if o == "checkPermission".spec_bytes() {
                Some(Operation::AuthCheckPermission)
            } else {
                None
            }
        },
        Group::Permission => {
            if o == "inPermission".spec_bytes() {
                Some(Operation::PermInPermission)
            } else if o == "queryInfo".spec_bytes() {
                Some(Operation::PermQueryInfo)
            } else if o == "queryName".spec_bytes() {
                Some(Operation::PermQueryName)
            } else if o == "queryResource".spec_bytes() {
                Some(Operation::PermQueryResource)
            } else {
                None
            }
        },
        Group::PermissionManagement => {
            if o == "newPermission".spec_bytes() {
                Some(Operation::PmNewPermission)
            } else if o == "deletePermission".spec_bytes() {
                Some(Operation::PmDeletePermission)
            } else if o == "updatePermissionName".spec_bytes() {
                Some(Operation::PmUpdatePermissionName)
            } else if o == "addResources".spec_bytes() {
                Some(Operation::PmAddResources)
            } else if o == "deleteResources".spec_bytes() {
                Some(Operation::PmDeleteResources)
            } else if o == "setAuthorization".spec_bytes() {
                Some(Operation::PmSetAuthorization)
            } else if o == "setAuthorizations".spec_bytes() {
                Some(Operation::PmSetAuthorizations)
            } else if o == "cancelAuthorization".spec_bytes() {
                Some(Operation::PmCancelAuthorization)
            } else if o == "cancelAuthorizations".spec_bytes() {
                Some(Operation::PmCancelAuthorizations)
            } else if o == "clearAuthorization".spec_bytes() {
                Some(Operation::PmClearAuthorization)
            } else {
                None
            }
        },
        Group::AdminManagement => {
            if o == "admin".spec_bytes() {
                Some(Operation::AdminAdmin)
            } else if o == "isAdmin".spec_bytes() {
                Some(Operation::AdminIsAdmin)
            } else if o == "update".spec_bytes() {
                Some(Operation::AdminUpdate)
            } else {
                None
            }
        },
        Group::BatchTx => {
            if o == "multiTxs".spec_bytes() {
                Some(Operation::BatchMultiTxs)
            } else {
                None
            }
        },
        Group::SysConfig => {
            if o == "getChainOwner".spec_bytes() {
                Some(Operation::SysGetChainOwner)
            } else if o == "getDelayBlockNumber".spec_bytes() {
                Some(Operation::SysGetDelayBlockNumber)
            } else if o == "getFeeBackPlatformCheck".spec_bytes() {
                Some(Operation::SysGetFeeBackPlatformCheck)
            } else if o == "getEconomicalModel".spec_bytes() {
                Some(Operation::SysGetEconomicalModel)
            } else if o == "getPermissionCheck".spec_bytes() {
                Some(Operation::SysGetPermissionCheck)
            } else if o == "getQuotaCheck".spec_bytes() {
                Some(Operation::SysGetQuotaCheck)
            } else if o == "setChainName".spec_bytes() {
                Some(Operation::SysSetChainName)
            } else if o == "setOperator".spec_bytes() {
                Some(Operation::SysSetOperator)
            } else if o == "setWebsite".spec_bytes() {
                Some(Operation::SysSetWebsite)
            } else {
                None
            }
        },
        Group::EmergencyBrake => {
            if o == "state".spec_bytes() {
                Some(Operation::BrakeState)
            } else if o == "setState".spec_bytes() {
                Some(Operation::BrakeSetState)
            } else {
                None
            }
        },
    }
}

/// The group that owns an operation.
pub open spec fn op_group(op: Operation) -> Group {
    match op {
        Operation::NodeListNode => Group::NodeManager,
        Operation::NodeListStake => Group::NodeManager,
        Operation::NodeGetStatus => Group::NodeManager,
        Operation::NodeDeleteNode => Group::NodeManager,
        Operation::NodeApproveNode => Group::NodeManager,
        Operation::NodeSetStake => Group::NodeManager,
        Operation::NodeStakePermillage => Group::NodeManager,
        Operation::QuotaGetBql => Group::QuotaManager,
        Operation::QuotaGetDefaultAql => Group::QuotaManager,
        Operation::QuotaGetAccounts => Group::QuotaManager,
        Operation::QuotaGetQuotas => Group::QuotaManager,
        Operation::QuotaGetAql => Group::QuotaManager,
        Operation::QuotaSetBql => Group::QuotaManager,
        Operation::QuotaSetDefaultAql => Group::QuotaManager,
        Operation::QuotaSetAql => Group::QuotaManager,
        Operation::GroupQueryInfo => Group::Group,
        Operation::GroupQueryName => Group::Group,
        Operation::GroupQueryAccounts => Group::Group,
        Operation::GroupQueryChild => Group::Group,
        Operation::GroupQueryChildLength => Group::Group,
        Operation::GroupQueryParent => Group::Group,
        Operation::GroupInGroup => Group::Group,
        Operation::GmNewGroup => Group::GroupManagement,
        Operation::GmDeleteGroup => Group::GroupManagement,
        Operation::GmUpdateGroupName => Group::GroupManagement,
        Operation::GmAddAccounts => Group::GroupManagement,
        Operation::GmDeleteAccounts => Group::GroupManagement,
        Operation::GmCheckScope => Group::GroupManagement,
        Operation::GmQueryGroups => Group::GroupManagement,
        Operation::RoleQueryRole => Group::Role,
        Operation::RoleQueryName => Group::Role,
        Operation::RoleQueryPermissions => Group::Role,
        Operation::RoleLengthOfPermissions => Group::Role,
        Operation::RoleInPermissions => Group::Role,
        Operation::RmNewRole => Group::RoleManagement,
        Operation::RmDeleteRole => Group::RoleManagement,
        Operation::RmUpdateRoleName => Group::RoleManagement,
        Operation::RmAddPermissions => Group::RoleManagement,
        Operation::RmDeletePermissions => Group::RoleManagement,
        Operation::RmSetRole => Group::RoleManagement,
        Operation::RmCancelRole => Group::RoleManagement,
        Operation::RmClearRole => Group::RoleManagement,
        Operation::RmQueryRoles => Group::RoleManagement,
        Operation::RmQueryAccounts => Group::RoleManagement,
        Operation::AuthQueryPermissions => Group::Authorization,
        Operation::AuthQueryAccounts => Group::Authorization,
        Operation::AuthQueryAllAccounts => Group::Authorization,
        Operation::AuthCheckResource => Group::Authorization,
        Operation::AuthCheckPermission => Group::Authorization,
        Operation::PermInPermission => Group::Permission,
        Operation::PermQueryInfo => Group::Permission,
        Operation::PermQueryName => Group::Permission,
        Operation::PermQueryResource => Group::Permission,
        Operation::PmNewPermission => Group::PermissionManagement,
        Operation::PmDeletePermission => Group::PermissionManagement,
        Operation::PmUpdatePermissionName => Group::PermissionManagement,
        Operation::PmAddResources => Group::PermissionManagement,
        Operation::PmDeleteResources => Group::PermissionManagement,
        Operation::PmSetAuthorization => Group::PermissionManagement,
        Operation::PmSetAuthorizations => Group::PermissionManagement,
        Operation::PmCancelAuthorization => Group::PermissionManagement,
        Operation::PmCancelAuthorizations => Group::PermissionManagement,
        Operation::PmClearAuthorization => Group::PermissionManagement,
        Operation::AdminAdmin => Group::AdminManagement,
        Operation::AdminIsAdmin => Group::AdminManagement,
        Operation::AdminUpdate => Group::AdminManagement,
        Operation::BatchMultiTxs => Group::BatchTx,
        Operation::SysGetChainOwner => Group::SysConfig,
        Operation::SysGetDelayBlockNumber => Group::SysConfig,
        Operation::SysGetFeeBackPlatformCheck => Group::SysConfig,
        Operation::SysGetEconomicalModel => Group::SysConfig,
        Operation::SysGetPermissionCheck => Group::SysConfig,
        Operation::SysGetQuotaCheck => Group::SysConfig,
        Operation::SysSetChainName => Group::SysConfig,
        Operation::SysSetOperator => Group::SysConfig,
        Operation::SysSetWebsite => Group::SysConfig,
        Operation::BrakeState => Group::EmergencyBrake,
        Operation::BrakeSetState => Group::EmergencyBrake,
    }
}

/// The group that owns an operation, computed.
#[verifier::rlimit(100)]
pub fn exec_group(op: Operation) -> (g: Group)
    ensures
        g == op_group(op),
{
    match op {
        Operation::NodeListNode => Group::NodeManager,
        Operation::NodeListStake => Group::NodeManager,
        Operation::NodeGetStatus => Group::NodeManager,
        Operation::NodeDeleteNode => Group::NodeManager,
        Operation::NodeApproveNode => Group::NodeManager,
        Operation::NodeSetStake => Group::NodeManager,
        Operation::NodeStakePermillage => Group::NodeManager,
        Operation::QuotaGetBql => Group::QuotaManager,
        Operation::QuotaGetDefaultAql => Group::QuotaManager,
        Operation::QuotaGetAccounts => Group::QuotaManager,
        Operation::QuotaGetQuotas => Group::QuotaManager,
        Operation::QuotaGetAql => Group::QuotaManager,
        Operation::QuotaSetBql => Group::QuotaManager,
        Operation::QuotaSetDefaultAql => Group::QuotaManager,
        Operation::QuotaSetAql => Group::QuotaManager,
        Operation::GroupQueryInfo => Group::Group,
        Operation::GroupQueryName => Group::Group,
        Operation::GroupQueryAccounts => Group::Group,
        Operation::GroupQueryChild => Group::Group,
        Operation::GroupQueryChildLength => Group::Group,
        Operation::GroupQueryParent => Group::Group,
        Operation::GroupInGroup => Group::Group,
        Operation::GmNewGroup => Group::GroupManagement,
        Operation::GmDeleteGroup => Group::GroupManagement,
        Operation::GmUpdateGroupName => Group::GroupManagement,
        Operation::GmAddAccounts => Group::GroupManagement,
        Operation::GmDeleteAccounts => Group::GroupManagement,
        Operation::GmCheckScope => Group::GroupManagement,
        Operation::GmQueryGroups => Group::GroupManagement,
        Operation::RoleQueryRole => Group::Role,
        Operation::RoleQueryName => Group::Role,
        Operation::RoleQueryPermissions => Group::Role,
        Operation::RoleLengthOfPermissions => Group::Role,
        Operation::RoleInPermissions => Group::Role,
        Operation::RmNewRole => Group::RoleManagement,
        Operation::RmDeleteRole => Group::RoleManagement,
        Operation::RmUpdateRoleName => Group::RoleManagement,
        Operation::RmAddPermissions => Group::RoleManagement,
        Operation::RmDeletePermissions => Group::RoleManagement,
        Operation::RmSetRole => Group::RoleManagement,
        Operation::RmCancelRole => Group::RoleManagement,
        Operation::RmClearRole => Group::RoleManagement,
        Operation::RmQueryRoles => Group::RoleManagement,
        Operation::RmQueryAccounts => Group::RoleManagement,
        Operation::AuthQueryPermissions => Group::Authorization,
        Operation::AuthQueryAccounts => Group::Authorization,
        Operation::AuthQueryAllAccounts => Group::Authorization,
        Operation::AuthCheckResource => Group::Authorization,
        Operation::AuthCheckPermission => Group::Authorization,
        Operation::PermInPermission => Group::Permission,
        Operation::PermQueryInfo => Group::Permission,
        Operation::PermQueryName => Group::Permission,
        Operation::PermQueryResource => Group::Permission,
        Operation::PmNewPermission => Group::PermissionManagement,
        Operation::PmDeletePermission => Group::PermissionManagement,
        Operation::PmUpdatePermissionName => Group::PermissionManagement,
        Operation::PmAddResources => Group::PermissionManagement,
        Operation::PmDeleteResources => Group::PermissionManagement,
        Operation::PmSetAuthorization => Group::PermissionManagement,
        Operation::PmSetAuthorizations => Group::PermissionManagement,
        Operation::PmCancelAuthorization => Group::PermissionManagement,
        Operation::PmCancelAuthorizations => Group::PermissionManagement,
        Operation::PmClearAuthorization => Group::PermissionManagement,
        Operation::AdminAdmin => Group::AdminManagement,
        Operation::AdminIsAdmin => Group::AdminManagement,
        Operation::AdminUpdate => Group::AdminManagement,
        Operation::BatchMultiTxs => Group::BatchTx,
        Operation::SysGetChainOwner => Group::SysConfig,
        Operation::SysGetDelayBlockNumber => Group::SysConfig,
        Operation::SysGetFeeBackPlatformCheck => Group::SysConfig,
        Operation::SysGetEconomicalModel => Group::SysConfig,
        Operation::SysGetPermissionCheck => Group::SysConfig,
        Operation::SysGetQuotaCheck => Group::SysConfig,
        Operation::SysSetChainName => Group::SysConfig,
        Operation::SysSetOperator => Group::SysConfig,
        Operation::SysSetWebsite => Group::SysConfig,
        Operation::BrakeState => Group::EmergencyBrake,
        Operation::BrakeSetState => Group::EmergencyBrake,
    }
}

/// Parses a group name.
pub fn parse_group(g: &str) -> (r: Option<Group>)
    ensures
        r == group_of(g.spec_bytes()),
{
    let b = g.as_bytes();
    if crate::validate::bytes_eq(b, "NodeManager".as_bytes()) {
        Some(Group::NodeManager)
    } else if crate::validate::bytes_eq(b, "QuotaManager".as_bytes()) {
        Some(Group::QuotaManager)
    } else if crate::validate::bytes_eq(b, "Group".as_bytes()) {
        Some(Group::Group)
    } else if crate::validate::bytes_eq(b, "GroupManagement".as_bytes()) {
        Some(Group::GroupManagement)
    } else if crate::validate::bytes_eq(b, "Role".as_bytes()) {
        Some(Group::Role)
    } else if crate::validate::bytes_eq(b, "RoleManagement".as_bytes()) {
        Some(Group::RoleManagement)
    } else if crate::validate::bytes_eq(b, "Authorization".as_bytes()) {
        Some(Group::Authorization)
    } else if crate::validate::bytes_eq(b, "Permission".as_bytes()) {
        Some(Group::Permission)
    } else if crate::validate::bytes_eq(b, "PermissionManagement".as_bytes()) {
        Some(Group::PermissionManagement)
    } else if crate::validate::bytes_eq(b, "AdminManagement".as_bytes()) {
        Some(Group::AdminManagement)
    } else if crate::validate::bytes_eq(b, "BatchTx".as_bytes()) {
        Some(Group::BatchTx)
    } else if crate::validate::bytes_eq(b, "SysConfig".as_bytes()) {
        Some(Group::SysConfig)
    } else if crate::validate::bytes_eq(b, "EmergencyBrake".as_bytes()) {
        Some(Group::EmergencyBrake)
    } else {
        None
    }
}

/// Parses an operation name within a known group.
pub fn parse_operation(g: Group, op: &str) -> (r: Option<Operation>)
    ensures
        r == op_of(g, op.spec_bytes()),
{
    let b = op.as_bytes();
    match g {
        Group::NodeManager => {
            if crate::validate::bytes_eq(b, "listNode".as_bytes()) {
                Some(Operation::NodeListNode)
            } else if crate::validate::bytes_eq(b, "listStake".as_bytes()) {
                Some(Operation::NodeListStake)
            } else if crate::validate::bytes_eq(b, "getStatus".as_bytes()) {
                Some(Operation::NodeGetStatus)
            } else if crate::validate::bytes_eq(b, "deleteNode".as_bytes()) {
                Some(Operation::NodeDeleteNode)
            } else if crate::validate::bytes_eq(b, "approveNode".as_bytes()) {
                Some(Operation::NodeApproveNode)
            } else if crate::validate::bytes_eq(b, "setStake".as_bytes()) {
                Some(Operation::NodeSetStake)
            } else if crate::validate::bytes_eq(b, "stakePermillage".as_bytes()) {
                Some(Operation::NodeStakePermillage)
            } else {
                None
            }
        },
        Group::QuotaManager => {
            if crate::validate::bytes_eq(b, "getBQL".as_bytes()) {
                Some(Operation::QuotaGetBql)
            } else if crate::validate::bytes_eq(b, "getDefaultAQL".as_bytes()) {
                Some(Operation::QuotaGetDefaultAql)
            } else if crate::validate::bytes_eq(b, "getAccounts".as_bytes()) {
                Some(Operation::QuotaGetAccounts)
            } else if crate::validate::bytes_eq(b, "getQuotas".as_bytes()) {
                Some(Operation::QuotaGetQuotas)
            } else if crate::validate::bytes_eq(b, "getAQL".as_bytes()) {
                Some(Operation::QuotaGetAql)
            } else if crate::validate::bytes_eq(b, "setBQL".as_bytes()) {
                Some(Operation::QuotaSetBql)
            } else if crate::validate::bytes_eq(b, "setDefaultAQL".as_bytes()) {
                Some(Operation::QuotaSetDefaultAql)
            } else if crate::validate::bytes_eq(b, "setAQL".as_bytes()) {
                Some(Operation::QuotaSetAql)
            } else {
                None
            }
        },
        Group::Group => {
            if crate::validate::bytes_eq(b, "queryInfo".as_bytes()) {
                Some(Operation::GroupQueryInfo)
            } else if crate::validate::bytes_eq(b, "queryName".as_bytes()) {
                Some(Operation::GroupQueryName)
            } else if crate::validate::bytes_eq(b, "queryAccounts".as_bytes()) {
                Some(Operation::GroupQueryAccounts)
            } else if crate::validate::bytes_eq(b, "queryChild".as_bytes()) {
                Some(Operation::GroupQueryChild)
            } else if crate::validate::bytes_eq(b, "queryChildLength".as_bytes()) {
                Some(Operation::GroupQueryChildLength)
            } else if crate::validate::bytes_eq(b, "queryParent".as_bytes()) {
                Some(Operation::GroupQueryParent)
            } else if crate::validate::bytes_eq(b, "inGroup".as_bytes()) {
                Some(Operation::GroupInGroup)
            } else {
                None
            }
        },
        Group::GroupManagement => {
            if crate::validate::bytes_eq(b, "newGroup".as_bytes()) {
                Some(Operation::GmNewGroup)
            } else if crate::validate::bytes_eq(b, "deleteGroup".as_bytes()) {
                Some(Operation::GmDeleteGroup)
            } else if crate::validate::bytes_eq(b, "updateGroupName".as_bytes()) {
                Some(Operation::GmUpdateGroupName)
            } else if crate::validate::bytes_eq(b, "addAccounts".as_bytes()) {
                Some(Operation::GmAddAccounts)
            } else if crate::validate::bytes_eq(b, "deleteAccounts".as_bytes()) {
                Some(Operation::GmDeleteAccounts)
            } else if crate::validate::bytes_eq(b, "checkScope".as_bytes()) {
                Some(Operation::GmCheckScope)
            } else if crate::validate::bytes_eq(b, "queryGroups".as_bytes()) {
                Some(Operation::GmQueryGroups)
            } else {
                None
            }
        },
        Group::Role => {
            if crate::validate::bytes_eq(b, "queryRole".as_bytes()) {
                Some(Operation::RoleQueryRole)
            } else if crate::validate::bytes_eq(b, "queryName".as_bytes()) {
                Some(Operation::RoleQueryName)
            } else if crate::validate::bytes_eq(b, "queryPermissions".as_bytes()) {
                Some(Operation::RoleQueryPermissions)
            } else if crate::validate::bytes_eq(b, "lengthOfPermissions".as_bytes()) {
                Some(Operation::RoleLengthOfPermissions)
            } else if crate::validate::bytes_eq(b, "inPermissions".as_bytes()) {
                Some(Operation::RoleInPermissions)
            } else {
                None
            }
        },
        Group::RoleManagement => {
            if crate::validate::bytes_eq(b, "newRole".as_bytes()) {
                Some(Operation::RmNewRole)
            } else if crate::validate::bytes_eq(b, "deleteRole".as_bytes()) {
                Some(Operation::RmDeleteRole)
            } else if crate::validate::bytes_eq(b, "updateRoleName".as_bytes()) {
                Some(Operation::RmUpdateRoleName)
            } else if crate::validate::bytes_eq(b, "addPermissions".as_bytes()) {
                Some(Operation::RmAddPermissions)
            } else if crate::validate::bytes_eq(b, "deletePermissions".as_bytes()) {
                Some(Operation::RmDeletePermissions)
            } else if crate::validate::bytes_eq(b, "setRole".as_bytes()) {
                Some(Operation::RmSetRole)
            } else if crate::validate::bytes_eq(b, "cancelRole".as_bytes()) {
                Some(Operation::RmCancelRole)
            } else if crate::validate::bytes_eq(b, "clearRole".as_bytes()) {
                Some(Operation::RmClearRole)
            } else if crate::validate::bytes_eq(b, "queryRoles".as_bytes()) {
                Some(Operation::RmQueryRoles)
            } else if crate::validate::bytes_eq(b, "queryAccounts".as_bytes()) {
                Some(Operation::RmQueryAccounts)
            } else {
                None
            }
        },
        Group::Authorization => {
            if crate::validate::bytes_eq(b, "queryPermissions".as_bytes()) {
                Some(Operation::AuthQueryPermissions)
            } else if crate::validate::bytes_eq(b, "queryAccounts".as_bytes()) {
                Some(Operation::AuthQueryAccounts)
            } else if crate::validate::bytes_eq(b, "queryAllAccounts".as_bytes()) {
                Some(Operation::AuthQueryAllAccounts)
            } else if crate::validate::bytes_eq(b, "checkResource".as_bytes()) {
                Some(Operation::AuthCheckResource)
            } else if crate::validate::bytes_eq(b, "checkPermission".as_bytes()) {
                Some(Operation::AuthCheckPermission)
            } else {
                None
            }
        },
        Group::Permission => {
            if crate::validate::bytes_eq(b, "inPermission".as_bytes()) {
                Some(Operation::PermInPermission)
            } else if crate::validate::bytes_eq(b, "queryInfo".as_bytes()) {
                Some(Operation::PermQueryInfo)
            } else if crate::validate::bytes_eq(b, "queryName".as_bytes()) {
                Some(Operation::PermQueryName)
            } else if crate::validate::bytes_eq(b, "queryResource".as_bytes()) {
                Some(Operation::PermQueryResource)
            } else {
                None
            }
        },
        Group::PermissionManagement => {
            if crate::validate::bytes_eq(b, "newPermission".as_bytes()) {
                Some(Operation::PmNewPermission)
            } else if crate::validate::bytes_eq(b, "deletePermission".as_bytes()) {
                Some(Operation::PmDeletePermission)
            } else if crate::validate::bytes_eq(b, "updatePermissionName".as_bytes()) {
                Some(Operation::PmUpdatePermissionName)
            } else if crate::validate::bytes_eq(b, "addResources".as_bytes()) {
                Some(Operation::PmAddResources)
            } else if crate::validate::bytes_eq(b, "deleteResources".as_bytes()) {
                Some(Operation::PmDeleteResources)
            } else if crate::validate::bytes_eq(b, "setAuthorization".as_bytes()) {
                Some(Operation::PmSetAuthorization)
            } else if crate::validate::bytes_eq(b, "setAuthorizations".as_bytes()) {
                Some(Operation::PmSetAuthorizations)
            } else if crate::validate::bytes_eq(b, "cancelAuthorization".as_bytes()) {
                Some(Operation::PmCancelAuthorization)
            } else if crate::validate::bytes_eq(b, "cancelAuthorizations".as_bytes()) {
                Some(Operation::PmCancelAuthorizations)
            } else if crate::validate::bytes_eq(b, "clearAuthorization".as_bytes()) {
                Some(Operation::PmClearAuthorization)
            } else {
                None
            }
        },
        Group::AdminManagement => {
            if crate::validate::bytes_eq(b, "admin".as_bytes()) {
                Some(Operation::AdminAdmin)
            } else if crate::validate::bytes_eq(b, "isAdmin".as_bytes()) {
                Some(Operation::AdminIsAdmin)
            } else if crate::validate::bytes_eq(b, "update".as_bytes()) {
                Some(Operation::AdminUpdate)
            } else {
                None
            }
        },
        Group::BatchTx => {
            if crate::validate::bytes_eq(b, "multiTxs".as_bytes()) {
                Some(Operation::BatchMultiTxs)
            } else {
                None
            }
        },
        Group::SysConfig => {
            if crate::validate::bytes_eq(b, "getChainOwner".as_bytes()) {
                Some(Operation::SysGetChainOwner)
            } else if crate::validate::bytes_eq(b, "getDelayBlockNumber".as_bytes()) {
                Some(Operation::SysGetDelayBlockNumber)
            } else if crate::validate::bytes_eq(b, "getFeeBackPlatformCheck".as_bytes()) {
                Some(Operation::SysGetFeeBackPlatformCheck)
            } else if crate::validate::bytes_eq(b, "getEconomicalModel".as_bytes()) {
                Some(Operation::SysGetEconomicalModel)
            } else if crate::validate::bytes_eq(b, "getPermissionCheck".as_bytes()) {
                Some(Operation::SysGetPermissionCheck)
            } else if crate::validate::bytes_eq(b, "getQuotaCheck".as_bytes()) {
                Some(Operation::SysGetQuotaCheck)
            } else if crate::validate::bytes_eq(b, "setChainName".as_bytes()) {
                Some(Operation::SysSetChainName)
            } else if crate::validate::bytes_eq(b, "setOperator".as_bytes()) {
                Some(Operation::SysSetOperator)
            } else if crate::validate::bytes_eq(b, "setWebsite".as_bytes()) {
                Some(Operation::SysSetWebsite)
            } else {
                None
            }
        },
        Group::EmergencyBrake => {
            if crate::validate::bytes_eq(b, "state".as_bytes()) {
                Some(Operation::BrakeState)
            } else if crate::validate::bytes_eq(b, "setState".as_bytes()) {
                Some(Operation::BrakeSetState)
            } else {
                None
            }
        },
    }
}

pub open spec fn op_params_node_manager_s(op: Operation) -> Seq<ParamSpecS> {
    match op {
        Operation::NodeListNode => seq![ps_height_s()],
        Operation::NodeListStake => seq![ps_height_s()],
        Operation::NodeGetStatus => seq![ps_req_s("address".spec_bytes(), ParamKind::Address), ps_height_s()],
        Operation::NodeDeleteNode => seq![ps_req_s("admin-private".spec_bytes(), ParamKind::PrivateKey), ps_req_s("address".spec_bytes(), ParamKind::Address), ps_quota_s()],
        Operation::NodeApproveNode => seq![ps_req_s("admin-private".spec_bytes(), ParamKind::PrivateKey), ps_req_s("address".spec_bytes(), ParamKind::Address), ps_quota_s()],
        Operation::NodeSetStake => seq![ps_req_s("admin-private".spec_bytes(), ParamKind::PrivateKey), ps_req_s("stake".spec_bytes(), ParamKind::U64Dec), ps_req_s("address".spec_bytes(), ParamKind::Address), ps_quota_s()],
        Operation::NodeStakePermillage => seq![ps_req_s("address".spec_bytes(), ParamKind::Address), ps_height_s()],
        _ => vstd::pervasive::arbitrary(),
    }
}

pub open spec fn op_params_quota_manager_s(op: Operation) -> Seq<ParamSpecS> {
    match op {
        Operation::QuotaGetBql => seq![ps_height_s()],
        Operation::QuotaGetDefaultAql => seq![ps_height_s()],
        Operation::QuotaGetAccounts => seq![ps_height_s()],
        Operation::QuotaGetQuotas => seq![ps_height_s()],
        Operation::QuotaGetAql => seq![ps_req_s("address".spec_bytes(), ParamKind::Address)],
        Operation::QuotaSetBql => seq![ps_req_s("quota-limit".spec_bytes(), ParamKind::U64Dec), ps_req_s("admin-private".spec_bytes(), ParamKind::PrivateKey), ps_quota_s()],
        Operation::QuotaSetDefaultAql => seq![ps_req_s("quota-limit".spec_bytes(), ParamKind::U64Dec), ps_req_s("admin-private".spec_bytes(), ParamKind::PrivateKey), ps_quota_s()],
        Operation::QuotaSetAql => seq![ps_req_s("quota-limit".spec_bytes(), ParamKind::U64Dec), ps_req_s("admin-private".spec_bytes(), ParamKind::PrivateKey), ps_req_s("address".spec_bytes(), ParamKind::Address), ps_quota_s()],
        _ => vstd::pervasive::arbitrary(),
    }
}

pub open spec fn op_params_group_s(op: Operation) -> Seq<ParamSpecS> {
    match op {
        Operation::GroupQueryInfo => seq![ps_req_s("address".spec_bytes(), ParamKind::Address), ps_height_s()],
        Operation::GroupQueryName => seq![ps_req_s("address".spec_bytes(), ParamKind::Address), ps_height_s()],
        Operation::GroupQueryAccounts => seq![ps_req_s("address".spec_bytes(), ParamKind::Address), ps_height_s()],
        Operation::GroupQueryChild => seq![ps_req_s("address".spec_bytes(), ParamKind::Address), ps_height_s()],
        Operation::GroupQueryChildLength => seq![ps_req_s("address".spec_bytes(), ParamKind::Address), ps_height_s()],
        Operation::GroupQueryParent => seq![ps_req_s("address".spec_bytes(), ParamKind::Address), ps_height_s()],
        Operation::GroupInGroup => seq![ps_req_s("address".spec_bytes(), ParamKind::Address), ps_req_s("account".spec_bytes(), ParamKind::Address), ps_height_s()],
        _ => vstd::pervasive::arbitrary(),
    }
}

pub open spec fn op_params_group_management_s(op: Operation) -> Seq<ParamSpecS> {
    match op {
        Operation::GmNewGroup => seq![ps_req_s("origin".spec_bytes(), ParamKind::HexStr), ps_req_s("name".spec_bytes(), ParamKind::FreeText), ps_req_s("accounts".spec_bytes(), ParamKind::FreeText), ps_quota_s(), ps_req_s("private-key".spec_bytes(), ParamKind::PrivateKey)],
        Operation::GmDeleteGroup => seq![ps_req_s("origin".spec_bytes(), ParamKind::HexStr), ps_req_s("target".spec_bytes(), ParamKind::HexStr), ps_quota_s(), ps_req_s("private-key".spec_bytes(), ParamKind::PrivateKey)],
        Operation::GmUpdateGroupName => seq![ps_req_s("origin".spec_bytes(), ParamKind::HexStr), ps_req_s("target".spec_bytes(), ParamKind::HexStr), ps_req_s("name".spec_bytes(), ParamKind::FreeText), ps_quota_s(), ps_req_s("private-key".spec_bytes(), ParamKind::PrivateKey)],
        Operation::GmAddAccounts => seq![ps_req_s("origin".spec_bytes(), ParamKind::HexStr), ps_req_s("target".spec_bytes(), ParamKind::HexStr), ps_req_s("accounts".spec_bytes(), ParamKind::FreeText), ps_quota_s(), ps_req_s("private-key".spec_bytes(), ParamKind::PrivateKey)],
        Operation::GmDeleteAccounts => seq![ps_req_s("origin".spec_bytes(), ParamKind::HexStr), ps_req_s("target".spec_bytes(), ParamKind::HexStr), ps_req_s("accounts".spec_bytes(), ParamKind::FreeText), ps_quota_s(), ps_req_s("private-key".spec_bytes(), ParamKind::PrivateKey)],
        Operation::GmCheckScope => seq![ps_req_s("origin".spec_bytes(), ParamKind::HexStr), ps_req_s("target".spec_bytes(), ParamKind::HexStr), ps_height_s()],
        Operation::GmQueryGroups => seq![ps_height_s()],
        _ => vstd::pervasive::arbitrary(),
    }
}

pub open spec fn op_params_role_s(op: Operation) -> Seq<ParamSpecS> {
    match op {
        Operation::RoleQueryRole => seq![ps_req_s("address".spec_bytes(), ParamKind::Address), ps_height_s()],
        Operation::RoleQueryName => seq![ps_req_s("address".spec_bytes(), ParamKind::Address), ps_height_s()],
        Operation::RoleQueryPermissions => seq![ps_req_s("address".spec_bytes(), ParamKind::Address), ps_height_s()],
        Operation::RoleLengthOfPermissions => seq![ps_req_s("address".spec_bytes(), ParamKind::Address), ps_height_s()],
        Operation::RoleInPermissions => seq![ps_req_s("address".spec_bytes(), ParamKind::Address), ps_req_s("permission".spec_bytes(), ParamKind::Address), ps_height_s()],
        _ => vstd::pervasive::arbitrary(),
    }
}

pub open spec fn op_params_role_management_s(op: Operation) -> Seq<ParamSpecS> {
    match op {
        Operation::RmNewRole => seq![ps_req_s("name".spec_bytes(), ParamKind::FreeText), ps_req_s("permissions".spec_bytes(), ParamKind::HexList), ps_quota_s(), ps_req_s("private-key".spec_bytes(), ParamKind::PrivateKey)],
        Operation::RmDeleteRole => seq![ps_req_s("address".spec_bytes(), ParamKind::Address), ps_quota_s(), ps_req_s("private-key".spec_bytes(), ParamKind::PrivateKey)],
        Operation::RmUpdateRoleName => seq![ps_req_s("address".spec_bytes(), ParamKind::Address), ps_req_s("name".spec_bytes(), ParamKind::FreeText), ps_quota_s(), ps_req_s("private-key".spec_bytes(), ParamKind::PrivateKey)],
        Operation::RmAddPermissions => seq![ps_req_s("address".spec_bytes(), ParamKind::Address), ps_req_s("permissions".spec_bytes(), ParamKind::HexList), ps_quota_s(), ps_req_s("private-key".spec_bytes(), ParamKind::PrivateKey)],
        Operation::RmDeletePermissions => seq![ps_req_s("address".spec_bytes(), ParamKind::Address), ps_req_s("permissions".spec_bytes(), ParamKind::HexList), ps_quota_s(), ps_req_s("private-key".spec_bytes(), ParamKind::PrivateKey)],
        Operation::RmSetRole => seq![ps_req_s("account".spec_bytes(), ParamKind::Address), ps_req_s("address".spec_bytes(), ParamKind::Address), ps_quota_s(), ps_req_s("private-key".spec_bytes(), ParamKind::PrivateKey)],
        Operation::RmCancelRole => seq![ps_req_s("account".spec_bytes(), ParamKind::Address), ps_req_s("address".spec_bytes(), ParamKind::Address), ps_quota_s(), ps_req_s("private-key".spec_bytes(), ParamKind::PrivateKey)],
        Operation::RmClearRole => seq![ps_req_s("account".spec_bytes(), ParamKind::Address), ps_quota_s(), ps_req_s("private-key".spec_bytes(), ParamKind::PrivateKey)],
        Operation::RmQueryRoles => seq![ps_req_s("account".spec_bytes(), ParamKind::Address), ps_height_s()],
        Operation::RmQueryAccounts => seq![ps_req_s("address".spec_bytes(), ParamKind::Address), ps_height_s()],
        _ => vstd::pervasive::arbitrary(),
    }
}

pub open spec fn op_params_authorization_s(op: Operation) -> Seq<ParamSpecS> {
    match op {
        Operation::AuthQueryPermissions => seq![ps_req_s("account".spec_bytes(), ParamKind::Address), ps_height_s()],
        Operation::AuthQueryAccounts => seq![ps_req_s("permission".spec_bytes(), ParamKind::Address), ps_height_s()],
        Operation::AuthQueryAllAccounts => seq![ps_height_s()],
        Operation::AuthCheckResource => seq![ps_req_s("account".spec_bytes(), ParamKind::Address), ps_req_s("contract".spec_bytes(), ParamKind::Address), ps_req_s("function-hash".spec_bytes(), ParamKind::HexStr), ps_height_s()],
        Operation::AuthCheckPermission => seq![ps_req_s("account".spec_bytes(), ParamKind::Address), ps_req_s("permission".spec_bytes(), ParamKind::Address), ps_height_s()],
        _ => vstd::pervasive::arbitrary(),
    }
}

pub open spec fn op_params_permission_s(op: Operation) -> Seq<ParamSpecS> {
    match op {
        Operation::PermInPermission => seq![ps_req_s("permission".spec_bytes(), ParamKind::Address), ps_req_s("contract".spec_bytes(), ParamKind::Address), ps_req_s("function-hash".spec_bytes(), ParamKind::HexStr), ps_height_s()],
        Operation::PermQueryInfo => seq![ps_req_s("permission".spec_bytes(), ParamKind::Address), ps_height_s()],
        Operation::PermQueryName => seq![ps_req_s("permission".spec_bytes(), ParamKind::Address), ps_height_s()],
        Operation::PermQueryResource => seq![ps_req_s("permission".spec_bytes(), ParamKind::Address), ps_height_s()],
        _ => vstd::pervasive::arbitrary(),
    }
}

pub open spec fn op_params_permission_management_s(op: Operation) -> Seq<ParamSpecS> {
    match op {
        Operation::PmNewPermission => seq![ps_req_s("name".spec_bytes(), ParamKind::FreeText), ps_req_s("contracts".spec_bytes(), ParamKind::HexList), ps_req_s("function-hashes".spec_bytes(), ParamKind::FreeText), ps_quota_s(), ps_req_s("private-key".spec_bytes(), ParamKind::PrivateKey)],
        Operation::PmDeletePermission => seq![ps_req_s("permission".spec_bytes(), ParamKind::Address), ps_quota_s(), ps_req_s("private-key".spec_bytes(), ParamKind::PrivateKey)],
        Operation::PmUpdatePermissionName => seq![ps_req_s("permission".spec_bytes(), ParamKind::Address), ps_req_s("name".spec_bytes(), ParamKind::FreeText), ps_quota_s(), ps_req_s("private-key".spec_bytes(), ParamKind::PrivateKey)],
        Operation::PmAddResources => seq![ps_req_s("permission".spec_bytes(), ParamKind::Address), ps_req_s("contracts".spec_bytes(), ParamKind::HexList), ps_req_s("function-hashes".spec_bytes(), ParamKind::FreeText), ps_quota_s(), ps_req_s("private-key".spec_bytes(), ParamKind::PrivateKey)],
        Operation::PmDeleteResources => seq![ps_req_s("permission".spec_bytes(), ParamKind::Address), ps_req_s("contracts".spec_bytes(), ParamKind::HexList), ps_req_s("function-hashes".spec_bytes(), ParamKind::FreeText), ps_quota_s(), ps_req_s("private-key".spec_bytes(), ParamKind::PrivateKey)],
        Operation::PmSetAuthorization => seq![ps_req_s("permission".spec_bytes(), ParamKind::Address), ps_req_s("account".spec_bytes(), ParamKind::Address), ps_quota_s(), ps_req_s("private-key".spec_bytes(), ParamKind::PrivateKey)],
        Operation::PmSetAuthorizations => seq![ps_req_s("permissions".spec_bytes(), ParamKind::HexList), ps_req_s("account".spec_bytes(), ParamKind::Address), ps_quota_s(), ps_req_s("private-key".spec_bytes(), ParamKind::PrivateKey)],
        Operation::PmCancelAuthorization => seq![ps_req_s("permission".spec_bytes(), ParamKind::Address), ps_req_s("account".spec_bytes(), ParamKind::Address), ps_quota_s(), ps_req_s("private-key".spec_bytes(), ParamKind::PrivateKey)],
        Operation::PmCancelAuthorizations => seq![ps_req_s("permissions".spec_bytes(), ParamKind::HexList), ps_req_s("account".spec_bytes(), ParamKind::Address), ps_quota_s(), ps_req_s("private-key".spec_bytes(), ParamKind::PrivateKey)],
        Operation::PmClearAuthorization => seq![ps_req_s("account".spec_bytes(), ParamKind::Address), ps_quota_s(), ps_req_s("private-key".spec_bytes(), ParamKind::PrivateKey)],
        _ => vstd::pervasive::arbitrary(),
    }
}

pub open spec fn op_params_admin_management_s(op: Operation) -> Seq<ParamSpecS> {
    match op {
        Operation::AdminAdmin => seq![ps_height_s()],
        Operation::AdminIsAdmin => seq![ps_req_s("address".spec_bytes(), ParamKind::Address), ps_height_s()],
        Operation::AdminUpdate => seq![ps_req_s("address".spec_bytes(), ParamKind::Address), ps_req_s("admin-private".spec_bytes(), ParamKind::PrivateKey), ps_quota_s()],
        _ => vstd::pervasive::arbitrary(),
    }
}

pub open spec fn op_params_batch_tx_s(op: Operation) -> Seq<ParamSpecS> {
    match op {
        Operation::BatchMultiTxs => seq![ps_req_s("tx-code".spec_bytes(), ParamKind::TxList), ps_quota_s(), ps_req_s("private-key".spec_bytes(), ParamKind::PrivateKey)],
        _ => vstd::pervasive::arbitrary(),
    }
}

pub open spec fn op_params_sys_config_s(op: Operation) -> Seq<ParamSpecS> {
    match op {
        Operation::SysGetChainOwner => seq![ps_height_s()],
        Operation::SysGetDelayBlockNumber => seq![ps_height_s()],
        Operation::SysGetFeeBackPlatformCheck => seq![ps_height_s()],
        Operation::SysGetEconomicalModel => seq![ps_height_s()],
        Operation::SysGetPermissionCheck => seq![ps_height_s()],
        Operation::SysGetQuotaCheck => seq![ps_height_s()],
        Operation::SysSetChainName => seq![ps_req_s("chain-name".spec_bytes(), ParamKind::FreeText), ps_quota_s(), ps_req_s("admin-private".spec_bytes(), ParamKind::PrivateKey)],
        Operation::SysSetOperator => seq![ps_req_s("operator".spec_bytes(), ParamKind::FreeText), ps_quota_s(), ps_req_s("admin-private".spec_bytes(), ParamKind::PrivateKey)],
        Operation::SysSetWebsite => seq![ps_req_s("website".spec_bytes(), ParamKind::FreeText), ps_quota_s(), ps_req_s("admin-private".spec_bytes(), ParamKind::PrivateKey)],
        _ => vstd::pervasive::arbitrary(),
    }
}

pub open spec fn op_params_emergency_brake_s(op: Operation) -> Seq<ParamSpecS> {
    match op {
        Operation::BrakeState => seq![ps_height_s()],
        Operation::BrakeSetState => seq![ps_req_s("state".spec_bytes(), ParamKind::BoolFlag), ps_quota_s(), ps_req_s("admin-private".spec_bytes(), ParamKind::PrivateKey)],
        _ => vstd::pervasive::arbitrary(),
    }
}

/// The declared parameter list of an operation, in declaration order.
pub open spec fn op_params_s(op: Operation) -> Seq<ParamSpecS> {
    match op_group(op) {
        Group::NodeManager => op_params_node_manager_s(op),
        Group::QuotaManager => op_params_quota_manager_s(op),
        Group::Group => op_params_group_s(op),
        Group::GroupManagement => op_params_group_management_s(op),
        Group::Role => op_params_role_s(op),
        Group::RoleManagement => op_params_role_management_s(op),
        Group::Authorization => op_params_authorization_s(op),
        Group::Permission => op_params_permission_s(op),
        Group::PermissionManagement => op_params_permission_management_s(op),
        Group::AdminManagement => op_params_admin_management_s(op),
        Group::BatchTx => op_params_batch_tx_s(op),
        Group::SysConfig => op_params_sys_config_s(op),
        Group::EmergencyBrake => op_params_emergency_brake_s(op),
    }
}

fn op_params_node_list_node() -> (r: Vec<ParamSpec>)
    ensures
        specs_deep(r@) == op_params_s(Operation::NodeListNode),
{
    let r: Vec<ParamSpec> = vec![ps_height()];
    proof {
        assert(specs_deep(r@) =~= op_params_s(Operation::NodeListNode));
    }
    r
}

fn op_params_node_list_stake() -> (r: Vec<ParamSpec>)
    ensures
        specs_deep(r@) == op_params_s(Operation::NodeListStake),
{
    let r: Vec<ParamSpec> = vec![ps_height()];
    proof {
        assert(specs_deep(r@) =~= op_params_s(Operation::NodeListStake));
    }
    r
}

fn op_params_node_get_status() -> (r: Vec<ParamSpec>)
    ensures
        specs_deep(r@) == op_params_s(Operation::NodeGetStatus),
{
    let r: Vec<ParamSpec> = vec![ps_req("address", ParamKind::Address), ps_height()];
    proof {
        assert(specs_deep(r@) =~= op_params_s(Operation::NodeGetStatus));
    }
    r
}

fn op_params_node_delete_node() -> (r: Vec<ParamSpec>)
    ensures
        specs_deep(r@) == op_params_s(Operation::NodeDeleteNode),
{
    let r: Vec<ParamSpec> = vec![ps_req("admin-private", ParamKind::PrivateKey), ps_req("address", ParamKind::Address), ps_quota()];
    proof {
        assert(specs_deep(r@) =~= op_params_s(Operation::NodeDeleteNode));
    }
    r
}

fn op_params_node_approve_node() -> (r: Vec<ParamSpec>)
    ensures
        specs_deep(r@) == op_params_s(Operation::NodeApproveNode),
{
    let r: Vec<ParamSpec> = vec![ps_req("admin-private", ParamKind::PrivateKey), ps_req("address", ParamKind::Address), ps_quota()];
    proof {
        assert(specs_deep(r@) =~= op_params_s(Operation::NodeApproveNode));
    }
    r
}

fn op_params_node_set_stake() -> (r: Vec<ParamSpec>)
    ensures
        specs_deep(r@) == op_params_s(Operation::NodeSetStake),
{
    let r: Vec<ParamSpec> = vec![ps_req("admin-private", ParamKind::PrivateKey), ps_req("stake", ParamKind::U64Dec), ps_req("address", ParamKind::Address), ps_quota()];
    proof {
        assert(specs_deep(r@) =~= op_params_s(Operation::NodeSetStake));
    }
    r
}

fn op_params_node_stake_permillage() -> (r: Vec<ParamSpec>)
    ensures
        specs_deep(r@) == op_params_s(Operation::NodeStakePermillage),
{
    let r: Vec<ParamSpec> = vec![ps_req("address", ParamKind::Address), ps_height()];
    proof {
        assert(specs_deep(r@) =~= op_params_s(Operation::NodeStakePermillage));
    }
    r
}

fn op_params_quota_get_bql() -> (r: Vec<ParamSpec>)
    ensures
        specs_deep(r@) == op_params_s(Operation::QuotaGetBql),
{
    let r: Vec<ParamSpec> = vec![ps_height()];
    proof {
        assert(specs_deep(r@) =~= op_params_s(Operation::QuotaGetBql));
    }
    r
}

fn op_params_quota_get_default_aql() -> (r: Vec<ParamSpec>)
    ensures
        specs_deep(r@) == op_params_s(Operation::QuotaGetDefaultAql),
{
    let r: Vec<ParamSpec> = vec![ps_height()];
    proof {
        assert(specs_deep(r@) =~= op_params_s(Operation::QuotaGetDefaultAql));
    }
    r
}

fn op_params_quota_get_accounts() -> (r: Vec<ParamSpec>)
    ensures
        specs_deep(r@) == op_params_s(Operation::QuotaGetAccounts),
{
    let r: Vec<ParamSpec> = vec![ps_height()];
    proof {
        assert(specs_deep(r@) =~= op_params_s(Operation::QuotaGetAccounts));
    }
    r
}

fn op_params_quota_get_quotas() -> (r: Vec<ParamSpec>)
    ensures
        specs_deep(r@) == op_params_s(Operation::QuotaGetQuotas),
{
    let r: Vec<ParamSpec> = vec![ps_height()];
    proof {
        assert(specs_deep(r@) =~= op_params_s(Operation::QuotaGetQuotas));
    }
    r
}

fn op_params_quota_get_aql() -> (r: Vec<ParamSpec>)
    ensures
        specs_deep(r@) == op_params_s(Operation::QuotaGetAql),
{
    let r: Vec<ParamSpec> = vec![ps_req("address", ParamKind::Address)];
    proof {
        assert(specs_deep(r@) =~= op_params_s(Operation::QuotaGetAql));
    }
    r
}

fn op_params_quota_set_bql() -> (r: Vec<ParamSpec>)
    ensures
        specs_deep(r@) == op_params_s(Operation::QuotaSetBql),
{
    let r: Vec<ParamSpec> = vec![ps_req("quota-limit", ParamKind::U64Dec), ps_req("admin-private", ParamKind::PrivateKey), ps_quota()];
    proof {
        assert(specs_deep(r@) =~= op_params_s(Operation::QuotaSetBql));
    }
    r
}

fn op_params_quota_set_default_aql() -> (r: Vec<ParamSpec>)
    ensures
        specs_deep(r@) == op_params_s(Operation::QuotaSetDefaultAql),
{
    let r: Vec<ParamSpec> = vec![ps_req("quota-limit", ParamKind::U64Dec), ps_req("admin-private", ParamKind::PrivateKey), ps_quota()];
    proof {
        assert(specs_deep(r@) =~= op_params_s(Operation::QuotaSetDefaultAql));
    }
    r
}

fn op_params_quota_set_aql() -> (r: Vec<ParamSpec>)
    ensures
        specs_deep(r@) == op_params_s(Operation::QuotaSetAql),
{
    let r: Vec<ParamSpec> = vec![ps_req("quota-limit", ParamKind::U64Dec), ps_req("admin-private", ParamKind::PrivateKey), ps_req("address", ParamKind::Address), ps_quota()];
    proof {
        assert(specs_deep(r@) =~= op_params_s(Operation::QuotaSetAql));
    }
    r
}

fn op_params_group_query_info() -> (r: Vec<ParamSpec>)
    ensures
        specs_deep(r@) == op_params_s(Operation::GroupQueryInfo),
{
    let r: Vec<ParamSpec> = vec![ps_req("address", ParamKind::Address), ps_height()];
    proof {
        assert(specs_deep(r@) =~= op_params_s(Operation::GroupQueryInfo));
    }
    r
}

fn op_params_group_query_name() -> (r: Vec<ParamSpec>)
    ensures
        specs_deep(r@) == op_params_s(Operation::GroupQueryName),
{
    let r: Vec<ParamSpec> = vec![ps_req("address", ParamKind::Address), ps_height()];
    proof {
        assert(specs_deep(r@) =~= op_params_s(Operation::GroupQueryName));
    }
    r
}

fn op_params_group_query_accounts() -> (r: Vec<ParamSpec>)
    ensures
        specs_deep(r@) == op_params_s(Operation::GroupQueryAccounts),
{
    let r: Vec<ParamSpec> = vec![ps_req("address", ParamKind::Address), ps_height()];
    proof {
        assert(specs_deep(r@) =~= op_params_s(Operation::GroupQueryAccounts));
    }
    r
}

fn op_params_group_query_child() -> (r: Vec<ParamSpec>)
    ensures
        specs_deep(r@) == op_params_s(Operation::GroupQueryChild),
{
    let r: Vec<ParamSpec> = vec![ps_req("address", ParamKind::Address), ps_height()];
    proof {
        assert(specs_deep(r@) =~= op_params_s(Operation::GroupQueryChild));
    }
    r
}

fn op_params_group_query_child_length() -> (r: Vec<ParamSpec>)
    ensures
        specs_deep(r@) == op_params_s(Operation::GroupQueryChildLength),
{
    let r: Vec<ParamSpec> = vec![ps_req("address", ParamKind::Address), ps_height()];
    proof {
        assert(specs_deep(r@) =~= op_params_s(Operation::GroupQueryChildLength));
    }
    r
}

fn op_params_group_query_parent() -> (r: Vec<ParamSpec>)
    ensures
        specs_deep(r@) == op_params_s(Operation::GroupQueryParent),
{
    let r: Vec<ParamSpec> = vec![ps_req("address", ParamKind::Address), ps_height()];
    proof {
        assert(specs_deep(r@) =~= op_params_s(Operation::GroupQueryParent));
    }
    r
}

fn op_params_group_in_group() -> (r: Vec<ParamSpec>)
    ensures
        specs_deep(r@) == op_params_s(Operation::GroupInGroup),
{
    let r: Vec<ParamSpec> = vec![ps_req("address", ParamKind::Address), ps_req("account", ParamKind::Address), ps_height()];
    proof {
        assert(specs_deep(r@) =~= op_params_s(Operation::GroupInGroup));
    }
    r
}

fn op_params_gm_new_group() -> (r: Vec<ParamSpec>)
    ensures
        specs_deep(r@) == op_params_s(Operation::GmNewGroup),
{
    let r: Vec<ParamSpec> = vec![ps_req("origin", ParamKind::HexStr), ps_req("name", ParamKind::FreeText), ps_req("accounts", ParamKind::FreeText), ps_quota(), ps_req("private-key", ParamKind::PrivateKey)];
    proof {
        assert(specs_deep(r@) =~= op_params_s(Operation::GmNewGroup));
    }
    r
}

fn op_params_gm_delete_group() -> (r: Vec<ParamSpec>)
    ensures
        specs_deep(r@) == op_params_s(Operation::GmDeleteGroup),
{
    let r: Vec<ParamSpec> = vec![ps_req("origin", ParamKind::HexStr), ps_req("target", ParamKind::HexStr), ps_quota(), ps_req("private-key", ParamKind::PrivateKey)];
    proof {
        assert(specs_deep(r@) =~= op_params_s(Operation::GmDeleteGroup));
    }
    r
}

fn op_params_gm_update_group_name() -> (r: Vec<ParamSpec>)
    ensures
        specs_deep(r@) == op_params_s(Operation::GmUpdateGroupName),
{
    let r: Vec<ParamSpec> = vec![ps_req("origin", ParamKind::HexStr), ps_req("target", ParamKind::HexStr), ps_req("name", ParamKind::FreeText), ps_quota(), ps_req("private-key", ParamKind::PrivateKey)];
    proof {
        assert(specs_deep(r@) =~= op_params_s(Operation::GmUpdateGroupName));
    }
    r
}

fn op_params_gm_add_accounts() -> (r: Vec<ParamSpec>)
    ensures
        specs_deep(r@) == op_params_s(Operation::GmAddAccounts),
{
    let r: Vec<ParamSpec> = vec![ps_req("origin", ParamKind::HexStr), ps_req("target", ParamKind::HexStr), ps_req("accounts", ParamKind::FreeText), ps_quota(), ps_req("private-key", ParamKind::PrivateKey)];
    proof {
        assert(specs_deep(r@) =~= op_params_s(Operation::GmAddAccounts));
    }
    r
}

fn op_params_gm_delete_accounts() -> (r: Vec<ParamSpec>)
    ensures
        specs_deep(r@) == op_params_s(Operation::GmDeleteAccounts),
{
    let r: Vec<ParamSpec> = vec![ps_req("origin", ParamKind::HexStr), ps_req("target", ParamKind::HexStr), ps_req("accounts", ParamKind::FreeText), ps_quota(), ps_req("private-key", ParamKind::PrivateKey)];
    proof {
        assert(specs_deep(r@) =~= op_params_s(Operation::GmDeleteAccounts));
    }
    r
}

fn op_params_gm_check_scope() -> (r: Vec<ParamSpec>)
    ensures
        specs_deep(r@) == op_params_s(Operation::GmCheckScope),
{
    let r: Vec<ParamSpec> = vec![ps_req("origin", ParamKind::HexStr), ps_req("target", ParamKind::HexStr), ps_height()];
    proof {
        assert(specs_deep(r@) =~= op_params_s(Operation::GmCheckScope));
    }
    r
}

fn op_params_gm_query_groups() -> (r: Vec<ParamSpec>)
    ensures
        specs_deep(r@) == op_params_s(Operation::GmQueryGroups),
{
    let r: Vec<ParamSpec> = vec![ps_height()];
    proof {
        assert(specs_deep(r@) =~= op_params_s(Operation::GmQueryGroups));
    }
    r
}

fn op_params_role_query_role() -> (r: Vec<ParamSpec>)
    ensures
        specs_deep(r@) == op_params_s(Operation::RoleQueryRole),
{
    let r: Vec<ParamSpec> = vec![ps_req("address", ParamKind::Address), ps_height()];
    proof {
        assert(specs_deep(r@) =~= op_params_s(Operation::RoleQueryRole));
    }
    r
}

fn op_params_role_query_name() -> (r: Vec<ParamSpec>)
    ensures
        specs_deep(r@) == op_params_s(Operation::RoleQueryName),
{
    let r: Vec<ParamSpec> = vec![ps_req("address", ParamKind::Address), ps_height()];
    proof {
        assert(specs_deep(r@) =~= op_params_s(Operation::RoleQueryName));
    }
    r
}

fn op_params_role_query_permissions() -> (r: Vec<ParamSpec>)
    ensures
        specs_deep(r@) == op_params_s(Operation::RoleQueryPermissions),
{
    let r: Vec<ParamSpec> = vec![ps_req("address", ParamKind::Address), ps_height()];
    proof {
        assert(specs_deep(r@) =~= op_params_s(Operation::RoleQueryPermissions));
    }
    r
}

fn op_params_role_length_of_permissions() -> (r: Vec<ParamSpec>)
    ensures
        specs_deep(r@) == op_params_s(Operation::RoleLengthOfPermissions),
{
    let r: Vec<ParamSpec> = vec![ps_req("address", ParamKind::Address), ps_height()];
    proof {
        assert(specs_deep(r@) =~= op_params_s(Operation::RoleLengthOfPermissions));
    }
    r
}

fn op_params_role_in_permissions() -> (r: Vec<ParamSpec>)
    ensures
        specs_deep(r@) == op_params_s(Operation::RoleInPermissions),
{
    let r: Vec<ParamSpec> = vec![ps_req("address", ParamKind::Address), ps_req("permission", ParamKind::Address), ps_height()];
    proof {
        assert(specs_deep(r@) =~= op_params_s(Operation::RoleInPermissions));
    }
    r
}

fn op_params_rm_new_role() -> (r: Vec<ParamSpec>)
    ensures
        specs_deep(r@) == op_params_s(Operation::RmNewRole),
{
    let r: Vec<ParamSpec> = vec![ps_req("name", ParamKind::FreeText), ps_req("permissions", ParamKind::HexList), ps_quota(), ps_req("private-key", ParamKind::PrivateKey)];
    proof {
        assert(specs_deep(r@) =~= op_params_s(Operation::RmNewRole));
    }
    r
}

fn op_params_rm_delete_role() -> (r: Vec<ParamSpec>)
    ensures
        specs_deep(r@) == op_params_s(Operation::RmDeleteRole),
{
    let r: Vec<ParamSpec> = vec![ps_req("address", ParamKind::Address), ps_quota(), ps_req("private-key", ParamKind::PrivateKey)];
    proof {
        assert(specs_deep(r@) =~= op_params_s(Operation::RmDeleteRole));
    }
    r
}

fn op_params_rm_update_role_name() -> (r: Vec<ParamSpec>)
    ensures
        specs_deep(r@) == op_params_s(Operation::RmUpdateRoleName),
{
    let r: Vec<ParamSpec> = vec![ps_req("address", ParamKind::Address), ps_req("name", ParamKind::FreeText), ps_quota(), ps_req("private-key", ParamKind::PrivateKey)];
    proof {
        assert(specs_deep(r@) =~= op_params_s(Operation::RmUpdateRoleName));
    }
    r
}

fn op_params_rm_add_permissions() -> (r: Vec<ParamSpec>)
    ensures
        specs_deep(r@) == op_params_s(Operation::RmAddPermissions),
{
    let r: Vec<ParamSpec> = vec![ps_req("address", ParamKind::Address), ps_req("permissions", ParamKind::HexList), ps_quota(), ps_req("private-key", ParamKind::PrivateKey)];
    proof {
        assert(specs_deep(r@) =~= op_params_s(Operation::RmAddPermissions));
    }
    r
}

fn op_params_rm_delete_permissions() -> (r: Vec<ParamSpec>)
    ensures
        specs_deep(r@) == op_params_s(Operation::RmDeletePermissions),
{
    let r: Vec<ParamSpec> = vec![ps_req("address", ParamKind::Address), ps_req("permissions", ParamKind::HexList), ps_quota(), ps_req("private-key", ParamKind::PrivateKey)];
    proof {
        assert(specs_deep(r@) =~= op_params_s(Operation::RmDeletePermissions));
    }
    r
}

fn op_params_rm_set_role() -> (r: Vec<ParamSpec>)
    ensures
        specs_deep(r@) == op_params_s(Operation::RmSetRole),
{
    let r: Vec<ParamSpec> = vec![ps_req("account", ParamKind::Address), ps_req("address", ParamKind::Address), ps_quota(), ps_req("private-key", ParamKind::PrivateKey)];
    proof {
        assert(specs_deep(r@) =~= op_params_s(Operation::RmSetRole));
    }
    r
}

fn op_params_rm_cancel_role() -> (r: Vec<ParamSpec>)
    ensures
        specs_deep(r@) == op_params_s(Operation::RmCancelRole),
{
    let r: Vec<ParamSpec> = vec![ps_req("account", ParamKind::Address), ps_req("address", ParamKind::Address), ps_quota(), ps_req("private-key", ParamKind::PrivateKey)];
    proof {
        assert(specs_deep(r@) =~= op_params_s(Operation::RmCancelRole));
    }
    r
}

fn op_params_rm_clear_role() -> (r: Vec<ParamSpec>)
    ensures
        specs_deep(r@) == op_params_s(Operation::RmClearRole),
{
    let r: Vec<ParamSpec> = vec![ps_req("account", ParamKind::Address), ps_quota(), ps_req("private-key", ParamKind::PrivateKey)];
    proof {
        assert(specs_deep(r@) =~= op_params_s(Operation::RmClearRole));
    }
    r
}

fn op_params_rm_query_roles() -> (r: Vec<ParamSpec>)
    ensures
        specs_deep(r@) == op_params_s(Operation::RmQueryRoles),
{
    let r: Vec<ParamSpec> = vec![ps_req("account", ParamKind::Address), ps_height()];
    proof {
        assert(specs_deep(r@) =~= op_params_s(Operation::RmQueryRoles));
    }
    r
}

fn op_params_rm_query_accounts() -> (r: Vec<ParamSpec>)
    ensures
        specs_deep(r@) == op_params_s(Operation::RmQueryAccounts),
{
    let r: Vec<ParamSpec> = vec![ps_req("address", ParamKind::Address), ps_height()];
    proof {
        assert(specs_deep(r@) =~= op_params_s(Operation::RmQueryAccounts));
    }
    r
}

fn op_params_auth_query_permissions() -> (r: Vec<ParamSpec>)
    ensures
        specs_deep(r@) == op_params_s(Operation::AuthQueryPermissions),
{
    let r: Vec<ParamSpec> = vec![ps_req("account", ParamKind::Address), ps_height()];
    proof {
        assert(specs_deep(r@) =~= op_params_s(Operation::AuthQueryPermissions));
    }
    r
}

fn op_params_auth_query_accounts() -> (r: Vec<ParamSpec>)
    ensures
        specs_deep(r@) == op_params_s(Operation::AuthQueryAccounts),
{
    let r: Vec<ParamSpec> = vec![ps_req("permission", ParamKind::Address), ps_height()];
    proof {
        assert(specs_deep(r@) =~= op_params_s(Operation::AuthQueryAccounts));
    }
    r
}

fn op_params_auth_query_all_accounts() -> (r: Vec<ParamSpec>)
    ensures
        specs_deep(r@) == op_params_s(Operation::AuthQueryAllAccounts),
{
    let r: Vec<ParamSpec> = vec![ps_height()];
    proof {
        assert(specs_deep(r@) =~= op_params_s(Operation::AuthQueryAllAccounts));
    }
    r
}

fn op_params_auth_check_resource() -> (r: Vec<ParamSpec>)
    ensures
        specs_deep(r@) == op_params_s(Operation::AuthCheckResource),
{
    let r: Vec<ParamSpec> = vec![ps_req("account", ParamKind::Address), ps_req("contract", ParamKind::Address), ps_req("function-hash", ParamKind::HexStr), ps_height()];
    proof {
        assert(specs_deep(r@) =~= op_params_s(Operation::AuthCheckResource));
    }
    r
}

fn op_params_auth_check_permission() -> (r: Vec<ParamSpec>)
    ensures
        specs_deep(r@) == op_params_s(Operation::AuthCheckPermission),
{
    let r: Vec<ParamSpec> = vec![ps_req("account", ParamKind::Address), ps_req("permission", ParamKind::Address), ps_height()];
    proof {
        assert(specs_deep(r@) =~= op_params_s(Operation::AuthCheckPermission));
    }
    r
}

fn op_params_perm_in_permission() -> (r: Vec<ParamSpec>)
    ensures
        specs_deep(r@) == op_params_s(Operation::PermInPermission),
{
    let r: Vec<ParamSpec> = vec![ps_req("permission", ParamKind::Address), ps_req("contract", ParamKind::Address), ps_req("function-hash", ParamKind::HexStr), ps_height()];
    proof {
        assert(specs_deep(r@) =~= op_params_s(Operation::PermInPermission));
    }
    r
}

fn op_params_perm_query_info() -> (r: Vec<ParamSpec>)
    ensures
        specs_deep(r@) == op_params_s(Operation::PermQueryInfo),
{
    let r: Vec<ParamSpec> = vec![ps_req("permission", ParamKind::Address), ps_height()];
    proof {
        assert(specs_deep(r@) =~= op_params_s(Operation::PermQueryInfo));
    }
    r
}

fn op_params_perm_query_name() -> (r: Vec<ParamSpec>)
    ensures
        specs_deep(r@) == op_params_s(Operation::PermQueryName),
{
    let r: Vec<ParamSpec> = vec![ps_req("permission", ParamKind::Address), ps_height()];
    proof {
        assert(specs_deep(r@) =~= op_params_s(Operation::PermQueryName));
    }
    r
}

fn op_params_perm_query_resource() -> (r: Vec<ParamSpec>)
    ensures
        specs_deep(r@) == op_params_s(Operation::PermQueryResource),
{
    let r: Vec<ParamSpec> = vec![ps_req("permission", ParamKind::Address), ps_height()];
    proof {
        assert(specs_deep(r@) =~= op_params_s(Operation::PermQueryResource));
    }
    r
}

fn op_params_pm_new_permission() -> (r: Vec<ParamSpec>)
    ensures
        specs_deep(r@) == op_params_s(Operation::PmNewPermission),
{
    let r: Vec<ParamSpec> = vec![ps_req("name", ParamKind::FreeText), ps_req("contracts", ParamKind::HexList), ps_req("function-hashes", ParamKind::FreeText), ps_quota(), ps_req("private-key", ParamKind::PrivateKey)];
    proof {
        assert(specs_deep(r@) =~= op_params_s(Operation::PmNewPermission));
    }
    r
}

fn op_params_pm_delete_permission() -> (r: Vec<ParamSpec>)
    ensures
        specs_deep(r@) == op_params_s(Operation::PmDeletePermission),
{
    let r: Vec<ParamSpec> = vec![ps_req("permission", ParamKind::Address), ps_quota(), ps_req("private-key", ParamKind::PrivateKey)];
    proof {
        assert(specs_deep(r@) =~= op_params_s(Operation::PmDeletePermission));
    }
    r
}

fn op_params_pm_update_permission_name() -> (r: Vec<ParamSpec>)
    ensures
        specs_deep(r@) == op_params_s(Operation::PmUpdatePermissionName),
{
    let r: Vec<ParamSpec> = vec![ps_req("permission", ParamKind::Address), ps_req("name", ParamKind::FreeText), ps_quota(), ps_req("private-key", ParamKind::PrivateKey)];
    proof {
        assert(specs_deep(r@) =~= op_params_s(Operation::PmUpdatePermissionName));
    }
    r
}

fn op_params_pm_add_resources() -> (r: Vec<ParamSpec>)
    ensures
        specs_deep(r@) == op_params_s(Operation::PmAddResources),
{
    let r: Vec<ParamSpec> = vec![ps_req("permission", ParamKind::Address), ps_req("contracts", ParamKind::HexList), ps_req("function-hashes", ParamKind::FreeText), ps_quota(), ps_req("private-key", ParamKind::PrivateKey)];
    proof {
        assert(specs_deep(r@) =~= op_params_s(Operation::PmAddResources));
    }
    r
}

fn op_params_pm_delete_resources() -> (r: Vec<ParamSpec>)
    ensures
        specs_deep(r@) == op_params_s(Operation::PmDeleteResources),
{
    let r: Vec<ParamSpec> = vec![ps_req("permission", ParamKind::Address), ps_req("contracts", ParamKind::HexList), ps_req("function-hashes", ParamKind::FreeText), ps_quota(), ps_req("private-key", ParamKind::PrivateKey)];
    proof {
        assert(specs_deep(r@) =~= op_params_s(Operation::PmDeleteResources));
    }
    r
}

fn op_params_pm_set_authorization() -> (r: Vec<ParamSpec>)
    ensures
        specs_deep(r@) == op_params_s(Operation::PmSetAuthorization),
{
    let r: Vec<ParamSpec> = vec![ps_req("permission", ParamKind::Address), ps_req("account", ParamKind::Address), ps_quota(), ps_req("private-key", ParamKind::PrivateKey)];
    proof {
        assert(specs_deep(r@) =~= op_params_s(Operation::PmSetAuthorization));
    }
    r
}

fn op_params_pm_set_authorizations() -> (r: Vec<ParamSpec>)
    ensures
        specs_deep(r@) == op_params_s(Operation::PmSetAuthorizations),
{
    let r: Vec<ParamSpec> = vec![ps_req("permissions", ParamKind::HexList), ps_req("account", ParamKind::Address), ps_quota(), ps_req("private-key", ParamKind::PrivateKey)];
    proof {
        assert(specs_deep(r@) =~= op_params_s(Operation::PmSetAuthorizations));
    }
    r
}

fn op_params_pm_cancel_authorization() -> (r: Vec<ParamSpec>)
    ensures
        specs_deep(r@) == op_params_s(Operation::PmCancelAuthorization),
{
    let r: Vec<ParamSpec> = vec![ps_req("permission", ParamKind::Address), ps_req("account", ParamKind::Address), ps_quota(), ps_req("private-key", ParamKind::PrivateKey)];
    proof {
        assert(specs_deep(r@) =~= op_params_s(Operation::PmCancelAuthorization));
    }
    r
}

fn op_params_pm_cancel_authorizations() -> (r: Vec<ParamSpec>)
    ensures
        specs_deep(r@) == op_params_s(Operation::PmCancelAuthorizations),
{
    let r: Vec<ParamSpec> = vec![ps_req("permissions", ParamKind::HexList), ps_req("account", ParamKind::Address), ps_quota(), ps_req("private-key", ParamKind::PrivateKey)];
    proof {
        assert(specs_deep(r@) =~= op_params_s(Operation::PmCancelAuthorizations));
    }
    r
}

fn op_params_pm_clear_authorization() -> (r: Vec<ParamSpec>)
    ensures
        specs_deep(r@) == op_params_s(Operation::PmClearAuthorization),
{
    let r: Vec<ParamSpec> = vec![ps_req("account", ParamKind::Address), ps_quota(), ps_req("private-key", ParamKind::PrivateKey)];
    proof {
        assert(specs_deep(r@) =~= op_params_s(Operation::PmClearAuthorization));
    }
    r
}

fn op_params_admin_admin() -> (r: Vec<ParamSpec>)
    ensures
        specs_deep(r@) == op_params_s(Operation::AdminAdmin),
{
    let r: Vec<ParamSpec> = vec![ps_height()];
    proof {
        assert(specs_deep(r@) =~= op_params_s(Operation::AdminAdmin));
    }
    r
}

fn op_params_admin_is_admin() -> (r: Vec<ParamSpec>)
    ensures
        specs_deep(r@) == op_params_s(Operation::AdminIsAdmin),
{
    let r: Vec<ParamSpec> = vec![ps_req("address", ParamKind::Address), ps_height()];
    proof {
        assert(specs_deep(r@) =~= op_params_s(Operation::AdminIsAdmin));
    }
    r
}

fn op_params_admin_update() -> (r: Vec<ParamSpec>)
    ensures
        specs_deep(r@) == op_params_s(Operation::AdminUpdate),
{
    let r: Vec<ParamSpec> = vec![ps_req("address", ParamKind::Address), ps_req("admin-private", ParamKind::PrivateKey), ps_quota()];
    proof {
        assert(specs_deep(r@) =~= op_params_s(Operation::AdminUpdate));
    }
    r
}

fn op_params_batch_multi_txs() -> (r: Vec<ParamSpec>)
    ensures
        specs_deep(r@) == op_params_s(Operation::BatchMultiTxs),
{
    let r: Vec<ParamSpec> = vec![ps_req("tx-code", ParamKind::TxList), ps_quota(), ps_req("private-key", ParamKind::PrivateKey)];
    proof {
        assert(specs_deep(r@) =~= op_params_s(Operation::BatchMultiTxs));
    }
    r
}

fn op_params_sys_get_chain_owner() -> (r: Vec<ParamSpec>)
    ensures
        specs_deep(r@) == op_params_s(Operation::SysGetChainOwner),
{
    let r: Vec<ParamSpec> = vec![ps_height()];
    proof {
        assert(specs_deep(r@) =~= op_params_s(Operation::SysGetChainOwner));
    }
    r
}

fn op_params_sys_get_delay_block_number() -> (r: Vec<ParamSpec>)
    ensures
        specs_deep(r@) == op_params_s(Operation::SysGetDelayBlockNumber),
{
    let r: Vec<ParamSpec> = vec![ps_height()];
    proof {
        assert(specs_deep(r@) =~= op_params_s(Operation::SysGetDelayBlockNumber));
    }
    r
}

fn op_params_sys_get_fee_back_platform_check() -> (r: Vec<ParamSpec>)
    ensures
        specs_deep(r@) == op_params_s(Operation::SysGetFeeBackPlatformCheck),
{
    let r: Vec<ParamSpec> = vec![ps_height()];
    proof {
        assert(specs_deep(r@) =~= op_params_s(Operation::SysGetFeeBackPlatformCheck));
    }
    r
}

fn op_params_sys_get_economical_model() -> (r: Vec<ParamSpec>)
    ensures
        specs_deep(r@) == op_params_s(Operation::SysGetEconomicalModel),
{
    let r: Vec<ParamSpec> = vec![ps_height()];
    proof {
        assert(specs_deep(r@) =~= op_params_s(Operation::SysGetEconomicalModel));
    }
    r
}

fn op_params_sys_get_permission_check() -> (r: Vec<ParamSpec>)
    ensures
        specs_deep(r@) == op_params_s(Operation::SysGetPermissionCheck),
{
    let r: Vec<ParamSpec> = vec![ps_height()];
    proof {
        assert(specs_deep(r@) =~= op_params_s(Operation::SysGetPermissionCheck));
    }
    r
}

fn op_params_sys_get_quota_check() -> (r: Vec<ParamSpec>)
    ensures
        specs_deep(r@) == op_params_s(Operation::SysGetQuotaCheck),
{
    let r: Vec<ParamSpec> = vec![ps_height()];
    proof {
        assert(specs_deep(r@) =~= op_params_s(Operation::SysGetQuotaCheck));
    }
    r
}

fn op_params_sys_set_chain_name() -> (r: Vec<ParamSpec>)
    ensures
        specs_deep(r@) == op_params_s(Operation::SysSetChainName),
{
    let r: Vec<ParamSpec> = vec![ps_req("chain-name", ParamKind::FreeText), ps_quota(), ps_req("admin-private", ParamKind::PrivateKey)];
    proof {
        assert(specs_deep(r@) =~= op_params_s(Operation::SysSetChainName));
    }
    r
}

fn op_params_sys_set_operator() -> (r: Vec<ParamSpec>)
    ensures
        specs_deep(r@) == op_params_s(Operation::SysSetOperator),
{
    let r: Vec<ParamSpec> = vec![ps_req("operator", ParamKind::FreeText), ps_quota(), ps_req("admin-private", ParamKind::PrivateKey)];
    proof {
        assert(specs_deep(r@) =~= op_params_s(Operation::SysSetOperator));
    }
    r
}

fn op_params_sys_set_website() -> (r: Vec<ParamSpec>)
    ensures
        specs_deep(r@) == op_params_s(Operation::SysSetWebsite),
{
    let r: Vec<ParamSpec> = vec![ps_req("website", ParamKind::FreeText), ps_quota(), ps_req("admin-private", ParamKind::PrivateKey)];
    proof {
        assert(specs_deep(r@) =~= op_params_s(Operation::SysSetWebsite));
    }
    r
}

fn op_params_brake_state() -> (r: Vec<ParamSpec>)
    ensures
        specs_deep(r@) == op_params_s(Operation::BrakeState),
{
    let r: Vec<ParamSpec> = vec![ps_height()];
    proof {
        assert(specs_deep(r@) =~= op_params_s(Operation::BrakeState));
    }
    r
}

fn op_params_brake_set_state() -> (r: Vec<ParamSpec>)
    ensures
        specs_deep(r@) == op_params_s(Operation::BrakeSetState),
{
    let r: Vec<ParamSpec> = vec![ps_req("state", ParamKind::BoolFlag), ps_quota(), ps_req("admin-private", ParamKind::PrivateKey)];
    proof {
        assert(specs_deep(r@) =~= op_params_s(Operation::BrakeSetState));
    }
    r
}

fn op_params_node_manager(op: Operation) -> (r: Vec<ParamSpec>)
    requires
        op_group(op) == Group::NodeManager,
    ensures
        specs_deep(r@) == op_params_s(op),
{
    match op {
        Operation::NodeListNode => op_params_node_list_node(),
        Operation::NodeListStake => op_params_node_list_stake(),
        Operation::NodeGetStatus => op_params_node_get_status(),
        Operation::NodeDeleteNode => op_params_node_delete_node(),
        Operation::NodeApproveNode => op_params_node_approve_node(),
        Operation::NodeSetStake => op_params_node_set_stake(),
        Operation::NodeStakePermillage => op_params_node_stake_permillage(),
        _ => vstd::pervasive::unreached(),
    }
}

fn op_params_quota_manager(op: Operation) -> (r: Vec<ParamSpec>)
    requires
        op_group(op) == Group::QuotaManager,
    ensures
        specs_deep(r@) == op_params_s(op),
{
    match op {
        Operation::QuotaGetBql => op_params_quota_get_bql(),
        Operation::QuotaGetDefaultAql => op_params_quota_get_default_aql(),
        Operation::QuotaGetAccounts => op_params_quota_get_accounts(),
        Operation::QuotaGetQuotas => op_params_quota_get_quotas(),
        Operation::QuotaGetAql => op_params_quota_get_aql(),
        Operation::QuotaSetBql => op_params_quota_set_bql(),
        Operation::QuotaSetDefaultAql => op_params_quota_set_default_aql(),
        Operation::QuotaSetAql => op_params_quota_set_aql(),
        _ => vstd::pervasive::unreached(),
    }
}

fn op_params_group(op: Operation) -> (r: Vec<ParamSpec>)
    requires
        op_group(op) == Group::Group,
    ensures
        specs_deep(r@) == op_params_s(op),
{
    match op {
        Operation::GroupQueryInfo => op_params_group_query_info(),
        Operation::GroupQueryName => op_params_group_query_name(),
        Operation::GroupQueryAccounts => op_params_group_query_accounts(),
        Operation::GroupQueryChild => op_params_group_query_child(),
        Operation::GroupQueryChildLength => op_params_group_query_child_length(),
        Operation::GroupQueryParent => op_params_group_query_parent(),
        Operation::GroupInGroup => op_params_group_in_group(),
        _ => vstd::pervasive::unreached(),
    }
}

fn op_params_group_management(op: Operation) -> (r: Vec<ParamSpec>)
    requires
        op_group(op) == Group::GroupManagement,
    ensures
        specs_deep(r@) == op_params_s(op),
{
    match op {
        Operation::GmNewGroup => op_params_gm_new_group(),
        Operation::GmDeleteGroup => op_params_gm_delete_group(),
        Operation::GmUpdateGroupName => op_params_gm_update_group_name(),
        Operation::GmAddAccounts => op_params_gm_add_accounts(),
        Operation::GmDeleteAccounts => op_params_gm_delete_accounts(),
        Operation::GmCheckScope => op_params_gm_check_scope(),
        Operation::GmQueryGroups => op_params_gm_query_groups(),
        _ => vstd::pervasive::unreached(),
    }
}

fn op_params_role(op: Operation) -> (r: Vec<ParamSpec>)
    requires
        op_group(op) == Group::Role,
    ensures
        specs_deep(r@) == op_params_s(op),
{
    match op {
        Operation::RoleQueryRole => op_params_role_query_role(),
        Operation::RoleQueryName => op_params_role_query_name(),
        Operation::RoleQueryPermissions => op_params_role_query_permissions(),
        Operation::RoleLengthOfPermissions => op_params_role_length_of_permissions(),
        Operation::RoleInPermissions => op_params_role_in_permissions(),
        _ => vstd::pervasive::unreached(),
    }
}

fn op_params_role_management(op: Operation) -> (r: Vec<ParamSpec>)
    requires
        op_group(op) == Group::RoleManagement,
    ensures
        specs_deep(r@) == op_params_s(op),
{
    match op {
        Operation::RmNewRole => op_params_rm_new_role(),
        Operation::RmDeleteRole => op_params_rm_delete_role(),
        Operation::RmUpdateRoleName => op_params_rm_update_role_name(),
        Operation::RmAddPermissions => op_params_rm_add_permissions(),
        Operation::RmDeletePermissions => op_params_rm_delete_permissions(),
        Operation::RmSetRole => op_params_rm_set_role(),
        Operation::RmCancelRole => op_params_rm_cancel_role(),
        Operation::RmClearRole => op_params_rm_clear_role(),
        Operation::RmQueryRoles => op_params_rm_query_roles(),
        Operation::RmQueryAccounts => op_params_rm_query_accounts(),
        _ => vstd::pervasive::unreached(),
    }
}

fn op_params_authorization(op: Operation) -> (r: Vec<ParamSpec>)
    requires
        op_group(op) == Group::Authorization,
    ensures
        specs_deep(r@) == op_params_s(op),
{
    match op {
        Operation::AuthQueryPermissions => op_params_auth_query_permissions(),
        Operation::AuthQueryAccounts => op_params_auth_query_accounts(),
        Operation::AuthQueryAllAccounts => op_params_auth_query_all_accounts(),
        Operation::AuthCheckResource => op_params_auth_check_resource(),
        Operation::AuthCheckPermission => op_params_auth_check_permission(),
        _ => vstd::pervasive::unreached(),
    }
}

fn op_params_permission(op: Operation) -> (r: Vec<ParamSpec>)
    requires
        op_group(op) == Group::Permission,
    ensures
        specs_deep(r@) == op_params_s(op),
{
    match op {
        Operation::PermInPermission => op_params_perm_in_permission(),
        Operation::PermQueryInfo => op_params_perm_query_info(),
        Operation::PermQueryName => op_params_perm_query_name(),
        Operation::PermQueryResource => op_params_perm_query_resource(),
        _ => vstd::pervasive::unreached(),
    }
}

fn op_params_permission_management(op: Operation) -> (r: Vec<ParamSpec>)
    requires
        op_group(op) == Group::PermissionManagement,
    ensures
        specs_deep(r@) == op_params_s(op),
{
    match op {
        Operation::PmNewPermission => op_params_pm_new_permission(),
        Operation::PmDeletePermission => op_params_pm_delete_permission(),
        Operation::PmUpdatePermissionName => op_params_pm_update_permission_name(),
        Operation::PmAddResources => op_params_pm_add_resources(),
        Operation::PmDeleteResources => op_params_pm_delete_resources(),
        Operation::PmSetAuthorization => op_params_pm_set_authorization(),
        Operation::PmSetAuthorizations => op_params_pm_set_authorizations(),
        Operation::PmCancelAuthorization => op_params_pm_cancel_authorization(),
        Operation::PmCancelAuthorizations => op_params_pm_cancel_authorizations(),
        Operation::PmClearAuthorization => op_params_pm_clear_authorization(),
        _ => vstd::pervasive::unreached(),
    }
}

fn op_params_admin_management(op: Operation) -> (r: Vec<ParamSpec>)
    requires
        op_group(op) == Group::AdminManagement,
    ensures
        specs_deep(r@) == op_params_s(op),
{
    match op {
        Operation::AdminAdmin => op_params_admin_admin(),
        Operation::AdminIsAdmin => op_params_admin_is_admin(),
        Operation::AdminUpdate => op_params_admin_update(),
        _ => vstd::pervasive::unreached(),
    }
}

fn op_params_batch_tx(op: Operation) -> (r: Vec<ParamSpec>)
    requires
        op_group(op) == Group::BatchTx,
    ensures
        specs_deep(r@) == op_params_s(op),
{
    match op {
        Operation::BatchMultiTxs => op_params_batch_multi_txs(),
        _ => vstd::pervasive::unreached(),
    }
}

fn op_params_sys_config(op: Operation) -> (r: Vec<ParamSpec>)
    requires
        op_group(op) == Group::SysConfig,
    ensures
        specs_deep(r@) == op_params_s(op),
{
    match op {
        Operation::SysGetChainOwner => op_params_sys_get_chain_owner(),
        Operation::SysGetDelayBlockNumber => op_params_sys_get_delay_block_number(),
        Operation::SysGetFeeBackPlatformCheck => op_params_sys_get_fee_back_platform_check(),
        Operation::SysGetEconomicalModel => op_params_sys_get_economical_model(),
        Operation::SysGetPermissionCheck => op_params_sys_get_permission_check(),
        Operation::SysGetQuotaCheck => op_params_sys_get_quota_check(),
        Operation::SysSetChainName => op_params_sys_set_chain_name(),
        Operation::SysSetOperator => op_params_sys_set_operator(),
        Operation::SysSetWebsite => op_params_sys_set_website(),
        _ => vstd::pervasive::unreached(),
    }
}

fn op_params_emergency_brake(op: Operation) -> (r: Vec<ParamSpec>)
    requires
        op_group(op) == Group::EmergencyBrake,
    ensures
        specs_deep(r@) == op_params_s(op),
{
    match op {
        Operation::BrakeState => op_params_brake_state(),
        Operation::BrakeSetState => op_params_brake_set_state(),
        _ => vstd::pervasive::unreached(),
    }
}

/// Builds the declared parameter list of an operation.
pub fn op_params(op: Operation) -> (r: Vec<ParamSpec>)
    ensures
        specs_deep(r@) == op_params_s(op),
{
    match exec_group(op) {
        Group::NodeManager => op_params_node_manager(op),
        Group::QuotaManager => op_params_quota_manager(op),
        Group::Group => op_params_group(op),
        Group::GroupManagement => op_params_group_management(op),
        Group::Role => op_params_role(op),
        Group::RoleManagement => op_params_role_management(op),
        Group::Authorization => op_params_authorization(op),
        Group::Permission => op_params_permission(op),
        Group::PermissionManagement => op_params_permission_management(op),
        Group::AdminManagement => op_params_admin_management(op),
        Group::BatchTx => op_params_batch_tx(op),
        Group::SysConfig => op_params_sys_config(op),
        Group::EmergencyBrake => op_params_emergency_brake(op),
    }
}

/// A well-formed parameter declaration: a height flag always carries the
/// "latest" default, and a repeatable flag is required and has none.
pub open spec fn wf_param(p: ParamSpecS) -> bool {
    &&& p.kind is Height ==> p == ps_height_s()
    &&& p.kind is TxList ==> p.default is None && p.required
}

proof fn lemma_registry_wf_node_manager(op: Operation)
    requires
        op_group(op) == Group::NodeManager,
    ensures
        forall|i: int|
            0 <= i < op_params_s(op).len() ==> wf_param(#[trigger] op_params_s(op)[i]),
{
    match op {
        Operation::NodeListNode => {
            assert(forall|i: int|
                0 <= i < op_params_s(op).len() ==> wf_param(#[trigger] op_params_s(op)[i]));
        },
        Operation::NodeListStake => {
            assert(forall|i: int|
                0 <= i < op_params_s(op).len() ==> wf_param(#[trigger] op_params_s(op)[i]));
        },
        Operation::NodeGetStatus => {
            assert(forall|i: int|
                0 <= i < op_params_s(op).len() ==> wf_param(#[trigger] op_params_s(op)[i]));
        },
        Operation::NodeDeleteNode => {
            assert(forall|i: int|
                0 <= i < op_params_s(op).len() ==> wf_param(#[trigger] op_params_s(op)[i]));
        },
        Operation::NodeApproveNode => {
            assert(forall|i: int|
                0 <= i < op_params_s(op).len() ==> wf_param(#[trigger] op_params_s(op)[i]));
        },
        Operation::NodeSetStake => {
            assert(forall|i: int|
                0 <= i < op_params_s(op).len() ==> wf_param(#[trigger] op_params_s(op)[i]));
        },
        Operation::NodeStakePermillage => {
            assert(forall|i: int|
                0 <= i < op_params_s(op).len() ==> wf_param(#[trigger] op_params_s(op)[i]));
        },
        _ => {
            assert(false);
        },
    }
}

proof fn lemma_registry_wf_quota_manager(op: Operation)
    requires
        op_group(op) == Group::QuotaManager,
    ensures
        forall|i: int|
            0 <= i < op_params_s(op).len() ==> wf_param(#[trigger] op_params_s(op)[i]),
{
    match op {
        Operation::QuotaGetBql => {
            assert(forall|i: int|
                0 <= i < op_params_s(op).len() ==> wf_param(#[trigger] op_params_s(op)[i]));
        },
        Operation::QuotaGetDefaultAql => {
            assert(forall|i: int|
                0 <= i < op_params_s(op).len() ==> wf_param(#[trigger] op_params_s(op)[i]));
        },
        Operation::QuotaGetAccounts => {
            assert(forall|i: int|
                0 <= i < op_params_s(op).len() ==> wf_param(#[trigger] op_params_s(op)[i]));
        },
        Operation::QuotaGetQuotas => {
            assert(forall|i: int|
                0 <= i < op_params_s(op).len() ==> wf_param(#[trigger] op_params_s(op)[i]));
        },
        Operation::QuotaGetAql => {
            assert(forall|i: int|
                0 <= i < op_params_s(op).len() ==> wf_param(#[trigger] op_params_s(op)[i]));
        },
        Operation::QuotaSetBql => {
            assert(forall|i: int|
                0 <= i < op_params_s(op).len() ==> wf_param(#[trigger] op_params_s(op)[i]));
        },
        Operation::QuotaSetDefaultAql => {
            assert(forall|i: int|
                0 <= i < op_params_s(op).len() ==> wf_param(#[trigger] op_params_s(op)[i]));
        },
        Operation::QuotaSetAql => {
            assert(forall|i: int|
                0 <= i < op_params_s(op).len() ==> wf_param(#[trigger] op_params_s(op)[i]));
        },
        _ => {
            assert(false);
        },
    }
}

proof fn lemma_registry_wf_group(op: Operation)
    requires
        op_group(op) == Group::Group,
    ensures
        forall|i: int|
            0 <= i < op_params_s(op).len() ==> wf_param(#[trigger] op_params_s(op)[i]),
{
    match op {
        Operation::GroupQueryInfo => {
            assert(forall|i: int|
                0 <= i < op_params_s(op).len() ==> wf_param(#[trigger] op_params_s(op)[i]));
        },
        Operation::GroupQueryName => {
            assert(forall|i: int|
                0 <= i < op_params_s(op).len() ==> wf_param(#[trigger] op_params_s(op)[i]));
        },
        Operation::GroupQueryAccounts => {
            assert(forall|i: int|
                0 <= i < op_params_s(op).len() ==> wf_param(#[trigger] op_params_s(op)[i]));
        },
        Operation::GroupQueryChild => {
            assert(forall|i: int|
                0 <= i < op_params_s(op).len() ==> wf_param(#[trigger] op_params_s(op)[i]));
        },
        Operation::GroupQueryChildLength => {
            assert(forall|i: int|
                0 <= i < op_params_s(op).len() ==> wf_param(#[trigger] op_params_s(op)[i]));
        },
        Operation::GroupQueryParent => {
            assert(forall|i: int|
                0 <= i < op_params_s(op).len() ==> wf_param(#[trigger] op_params_s(op)[i]));
        },
        Operation::GroupInGroup => {
            assert(forall|i: int|
                0 <= i < op_params_s(op).len() ==> wf_param(#[trigger] op_params_s(op)[i]));
        },
        _ => {
            assert(false);
        },
    }
}

proof fn lemma_registry_wf_group_management(op: Operation)
    requires
        op_group(op) == Group::GroupManagement,
    ensures
        forall|i: int|
            0 <= i < op_params_s(op).len() ==> wf_param(#[trigger] op_params_s(op)[i]),
{
    match op {
        Operation::GmNewGroup => {
            assert(forall|i: int|
                0 <= i < op_params_s(op).len() ==> wf_param(#[trigger] op_params_s(op)[i]));
        },
        Operation::GmDeleteGroup => {
            assert(forall|i: int|
                0 <= i < op_params_s(op).len() ==> wf_param(#[trigger] op_params_s(op)[i]));
        },
        Operation::GmUpdateGroupName => {
            assert(forall|i: int|
                0 <= i < op_params_s(op).len() ==> wf_param(#[trigger] op_params_s(op)[i]));
        },
        Operation::GmAddAccounts => {
            assert(forall|i: int|
                0 <= i < op_params_s(op).len() ==> wf_param(#[trigger] op_params_s(op)[i]));
        },
        Operation::GmDeleteAccounts => {
            assert(forall|i: int|
                0 <= i < op_params_s(op).len() ==> wf_param(#[trigger] op_params_s(op)[i]));
        },
        Operation::GmCheckScope => {
            assert(forall|i: int|
                0 <= i < op_params_s(op).len() ==> wf_param(#[trigger] op_params_s(op)[i]));
        },
        Operation::GmQueryGroups => {
            assert(forall|i: int|
                0 <= i < op_params_s(op).len() ==> wf_param(#[trigger] op_params_s(op)[i]));
        },
        _ => {
            assert(false);
        },
    }
}

proof fn lemma_registry_wf_role(op: Operation)
    requires
        op_group(op) == Group::Role,
    ensures
        forall|i: int|
            0 <= i < op_params_s(op).len() ==> wf_param(#[trigger] op_params_s(op)[i]),
{
    match op {
        Operation::RoleQueryRole => {
            assert(forall|i: int|
                0 <= i < op_params_s(op).len() ==> wf_param(#[trigger] op_params_s(op)[i]));
        },
        Operation::RoleQueryName => {
            assert(forall|i: int|
                0 <= i < op_params_s(op).len() ==> wf_param(#[trigger] op_params_s(op)[i]));
        },
        Operation::RoleQueryPermissions => {
            assert(forall|i: int|
                0 <= i < op_params_s(op).len() ==> wf_param(#[trigger] op_params_s(op)[i]));
        },
        Operation::RoleLengthOfPermissions => {
            assert(forall|i: int|
                0 <= i < op_params_s(op).len() ==> wf_param(#[trigger] op_params_s(op)[i]));
        },
        Operation::RoleInPermissions => {
            assert(forall|i: int|
                0 <= i < op_params_s(op).len() ==> wf_param(#[trigger] op_params_s(op)[i]));
        },
        _ => {
            assert(false);
        },
    }
}

proof fn lemma_registry_wf_role_management(op: Operation)
    requires
        op_group(op) == Group::RoleManagement,
    ensures
        forall|i: int|
            0 <= i < op_params_s(op).len() ==> wf_param(#[trigger] op_params_s(op)[i]),
{
    match op {
        Operation::RmNewRole => {
            assert(forall|i: int|
                0 <= i < op_params_s(op).len() ==> wf_param(#[trigger] op_params_s(op)[i]));
        },
        Operation::RmDeleteRole => {
            assert(forall|i: int|
                0 <= i < op_params_s(op).len() ==> wf_param(#[trigger] op_params_s(op)[i]));
        },
        Operation::RmUpdateRoleName => {
            assert(forall|i: int|
                0 <= i < op_params_s(op).len() ==> wf_param(#[trigger] op_params_s(op)[i]));
        },
        Operation::RmAddPermissions => {
            assert(forall|i: int|
                0 <= i < op_params_s(op).len() ==> wf_param(#[trigger] op_params_s(op)[i]));
        },
        Operation::RmDeletePermissions => {
            assert(forall|i: int|
                0 <= i < op_params_s(op).len() ==> wf_param(#[trigger] op_params_s(op)[i]));
        },
        Operation::RmSetRole => {
            assert(forall|i: int|
                0 <= i < op_params_s(op).len() ==> wf_param(#[trigger] op_params_s(op)[i]));
        },
        Operation::RmCancelRole => {
            assert(forall|i: int|
                0 <= i < op_params_s(op).len() ==> wf_param(#[trigger] op_params_s(op)[i]));
        },
        Operation::RmClearRole => {
            assert(forall|i: int|
                0 <= i < op_params_s(op).len() ==> wf_param(#[trigger] op_params_s(op)[i]));
        },
        Operation::RmQueryRoles => {
            assert(forall|i: int|
                0 <= i < op_params_s(op).len() ==> wf_param(#[trigger] op_params_s(op)[i]));
        },
        Operation::RmQueryAccounts => {
            assert(forall|i: int|
                0 <= i < op_params_s(op).len() ==> wf_param(#[trigger] op_params_s(op)[i]));
        },
        _ => {
            assert(false);
        },
    }
}

proof fn lemma_registry_wf_authorization(op: Operation)
    requires
        op_group(op) == Group::Authorization,
    ensures
        forall|i: int|
            0 <= i < op_params_s(op).len() ==> wf_param(#[trigger] op_params_s(op)[i]),
{
    match op {
        Operation::AuthQueryPermissions => {
            assert(forall|i: int|
                0 <= i < op_params_s(op).len() ==> wf_param(#[trigger] op_params_s(op)[i]));
        },
        Operation::AuthQueryAccounts => {
            assert(forall|i: int|
                0 <= i < op_params_s(op).len() ==> wf_param(#[trigger] op_params_s(op)[i]));
        },
        Operation::AuthQueryAllAccounts => {
            assert(forall|i: int|
                0 <= i < op_params_s(op).len() ==> wf_param(#[trigger] op_params_s(op)[i]));
        },
        Operation::AuthCheckResource => {
            assert(forall|i: int|
                0 <= i < op_params_s(op).len() ==> wf_param(#[trigger] op_params_s(op)[i]));
        },
        Operation::AuthCheckPermission => {
            assert(forall|i: int|
                0 <= i < op_params_s(op).len() ==> wf_param(#[trigger] op_params_s(op)[i]));
        },
        _ => {
            assert(false);
        },
    }
}

proof fn lemma_registry_wf_permission(op: Operation)
    requires
        op_group(op) == Group::Permission,
    ensures
        forall|i: int|
            0 <= i < op_params_s(op).len() ==> wf_param(#[trigger] op_params_s(op)[i]),
{
    match op {
        Operation::PermInPermission => {
            assert(forall|i: int|
                0 <= i < op_params_s(op).len() ==> wf_param(#[trigger] op_params_s(op)[i]));
        },
        Operation::PermQueryInfo => {
            assert(forall|i: int|
                0 <= i < op_params_s(op).len() ==> wf_param(#[trigger] op_params_s(op)[i]));
        },
        Operation::PermQueryName => {
            assert(forall|i: int|
                0 <= i < op_params_s(op).len() ==> wf_param(#[trigger] op_params_s(op)[i]));
        },
        Operation::PermQueryResource => {
            assert(forall|i: int|
                0 <= i < op_params_s(op).len() ==> wf_param(#[trigger] op_params_s(op)[i]));
        },
        _ => {
            assert(false);
        },
    }
}

proof fn lemma_registry_wf_permission_management(op: Operation)
    requires
        op_group(op) == Group::PermissionManagement,
    ensures
        forall|i: int|
            0 <= i < op_params_s(op).len() ==> wf_param(#[trigger] op_params_s(op)[i]),
{
    match op {
        Operation::PmNewPermission => {
            assert(forall|i: int|
                0 <= i < op_params_s(op).len() ==> wf_param(#[trigger] op_params_s(op)[i]));
        },
        Operation::PmDeletePermission => {
            assert(forall|i: int|
                0 <= i < op_params_s(op).len() ==> wf_param(#[trigger] op_params_s(op)[i]));
        },
        Operation::PmUpdatePermissionName => {
            assert(forall|i: int|
                0 <= i < op_params_s(op).len() ==> wf_param(#[trigger] op_params_s(op)[i]));
        },
        Operation::PmAddResources => {
            assert(forall|i: int|
                0 <= i < op_params_s(op).len() ==> wf_param(#[trigger] op_params_s(op)[i]));
        },
        Operation::PmDeleteResources => {
            assert(forall|i: int|
                0 <= i < op_params_s(op).len() ==> wf_param(#[trigger] op_params_s(op)[i]));
        },
        Operation::PmSetAuthorization => {
            assert(forall|i: int|
                0 <= i < op_params_s(op).len() ==> wf_param(#[trigger] op_params_s(op)[i]));
        },
        Operation::PmSetAuthorizations => {
            assert(forall|i: int|
                0 <= i < op_params_s(op).len() ==> wf_param(#[trigger] op_params_s(op)[i]));
        },
        Operation::PmCancelAuthorization => {
            assert(forall|i: int|
                0 <= i < op_params_s(op).len() ==> wf_param(#[trigger] op_params_s(op)[i]));
        },
        Operation::PmCancelAuthorizations => {
            assert(forall|i: int|
                0 <= i < op_params_s(op).len() ==> wf_param(#[trigger] op_params_s(op)[i]));
        },
        Operation::PmClearAuthorization => {
            assert(forall|i: int|
                0 <= i < op_params_s(op).len() ==> wf_param(#[trigger] op_params_s(op)[i]));
        },
        _ => {
            assert(false);
        },
    }
}

proof fn lemma_registry_wf_admin_management(op: Operation)
    requires
        op_group(op) == Group::AdminManagement,
    ensures
        forall|i: int|
            0 <= i < op_params_s(op).len() ==> wf_param(#[trigger] op_params_s(op)[i]),
{
    match op {
        Operation::AdminAdmin => {
            assert(forall|i: int|
                0 <= i < op_params_s(op).len() ==> wf_param(#[trigger] op_params_s(op)[i]));
        },
        Operation::AdminIsAdmin => {
            assert(forall|i: int|
                0 <= i < op_params_s(op).len() ==> wf_param(#[trigger] op_params_s(op)[i]));
        },
        Operation::AdminUpdate => {
            assert(forall|i: int|
                0 <= i < op_params_s(op).len() ==> wf_param(#[trigger] op_params_s(op)[i]));
        },
        _ => {
            assert(false);
        },
    }
}

proof fn lemma_registry_wf_batch_tx(op: Operation)
    requires
        op_group(op) == Group::BatchTx,
    ensures
        forall|i: int|
            0 <= i < op_params_s(op).len() ==> wf_param(#[trigger] op_params_s(op)[i]),
{
    match op {
        Operation::BatchMultiTxs => {
            assert(forall|i: int|
                0 <= i < op_params_s(op).len() ==> wf_param(#[trigger] op_params_s(op)[i]));
        },
        _ => {
            assert(false);
        },
    }
}

proof fn lemma_registry_wf_sys_config(op: Operation)
    requires
        op_group(op) == Group::SysConfig,
    ensures
        forall|i: int|
            0 <= i < op_params_s(op).len() ==> wf_param(#[trigger] op_params_s(op)[i]),
{
    match op {
        Operation::SysGetChainOwner => {
            assert(forall|i: int|
                0 <= i < op_params_s(op).len() ==> wf_param(#[trigger] op_params_s(op)[i]));
        },
        Operation::SysGetDelayBlockNumber => {
            assert(forall|i: int|
                0 <= i < op_params_s(op).len() ==> wf_param(#[trigger] op_params_s(op)[i]));
        },
        Operation::SysGetFeeBackPlatformCheck => {
            assert(forall|i: int|
                0 <= i < op_params_s(op).len() ==> wf_param(#[trigger] op_params_s(op)[i]));
        },
        Operation::SysGetEconomicalModel => {
            assert(forall|i: int|
                0 <= i < op_params_s(op).len() ==> wf_param(#[trigger] op_params_s(op)[i]));
        },
        Operation::SysGetPermissionCheck => {
            assert(forall|i: int|
                0 <= i < op_params_s(op).len() ==> wf_param(#[trigger] op_params_s(op)[i]));
        },
        Operation::SysGetQuotaCheck => {
            assert(forall|i: int|
                0 <= i < op_params_s(op).len() ==> wf_param(#[trigger] op_params_s(op)[i]));
        },
        Operation::SysSetChainName => {
            assert(forall|i: int|
                0 <= i < op_params_s(op).len() ==> wf_param(#[trigger] op_params_s(op)[i]));
        },
        Operation::SysSetOperator => {
            assert(forall|i: int|
                0 <= i < op_params_s(op).len() ==> wf_param(#[trigger] op_params_s(op)[i]));
        },
        Operation::SysSetWebsite => {
            assert(forall|i: int|
                0 <= i < op_params_s(op).len() ==> wf_param(#[trigger] op_params_s(op)[i]));
        },
        _ => {
            assert(false);
        },
    }
}

proof fn lemma_registry_wf_emergency_brake(op: Operation)
    requires
        op_group(op) == Group::EmergencyBrake,
    ensures
        forall|i: int|
            0 <= i < op_params_s(op).len() ==> wf_param(#[trigger] op_params_s(op)[i]),
{
    match op {
        Operation::BrakeState => {
            assert(forall|i: int|
                0 <= i < op_params_s(op).len() ==> wf_param(#[trigger] op_params_s(op)[i]));
        },
        Operation::BrakeSetState => {
            assert(forall|i: int|
                0 <= i < op_params_s(op).len() ==> wf_param(#[trigger] op_params_s(op)[i]));
        },
        _ => {
            assert(false);
        },
    }
}

/// Every parameter the registry declares is well formed.
pub proof fn lemma_registry_wf(op: Operation)
    ensures
        forall|i: int|
            0 <= i < op_params_s(op).len() ==> wf_param(#[trigger] op_params_s(op)[i]),
{
    match op_group(op) {
        Group::NodeManager => lemma_registry_wf_node_manager(op),
        Group::QuotaManager => lemma_registry_wf_quota_manager(op),
        Group::Group => lemma_registry_wf_group(op),
        Group::GroupManagement => lemma_registry_wf_group_management(op),
        Group::Role => lemma_registry_wf_role(op),
        Group::RoleManagement => lemma_registry_wf_role_management(op),
        Group::Authorization => lemma_registry_wf_authorization(op),
        Group::Permission => lemma_registry_wf_permission(op),
        Group::PermissionManagement => lemma_registry_wf_permission_management(op),
        Group::AdminManagement => lemma_registry_wf_admin_management(op),
        Group::BatchTx => lemma_registry_wf_batch_tx(op),
        Group::SysConfig => lemma_registry_wf_sys_config(op),
        Group::EmergencyBrake => lemma_registry_wf_emergency_brake(op),
    }
}

#[verifier::spinoff_prover]
#[verifier::rlimit(100)]
proof fn lemma_registry_height_node_manager(op: Operation)
    requires
        op_group(op) == Group::NodeManager,
    ensures
        forall|i: int|
            0 <= i < op_params_s(op).len() ==> ((#[trigger] op_params_s(op)[i]).name
                == "height".spec_bytes() ==> op_params_s(op)[i] == ps_height_s()),
{
    crate::names::lemma_flags_differ_from_height();
    match op {
        Operation::NodeListNode => {
            assert forall|i: int|
                0 <= i < op_params_s(op).len() implies ((#[trigger] op_params_s(op)[i]).name
                    == "height".spec_bytes() ==> op_params_s(op)[i] == ps_height_s()) by {
                if i == 0 {
                    assert(op_params_s(op)[0] == ps_height_s());
                }
            }
        },
        Operation::NodeListStake => {
            assert forall|i: int|
                0 <= i < op_params_s(op).len() implies ((#[trigger] op_params_s(op)[i]).name
                    == "height".spec_bytes() ==> op_params_s(op)[i] == ps_height_s()) by {
                if i == 0 {
                    assert(op_params_s(op)[0] == ps_height_s());
                }
            }
        },
        Operation::NodeGetStatus => {
            assert forall|i: int|
                0 <= i < op_params_s(op).len() implies ((#[trigger] op_params_s(op)[i]).name
                    == "height".spec_bytes() ==> op_params_s(op)[i] == ps_height_s()) by {
                if i == 0 {
                    assert(op_params_s(op)[0].name == "address".spec_bytes());
                    assert(op_params_s(op)[0].name != "height".spec_bytes());
                } else if i == 1 {
                    assert(op_params_s(op)[1] == ps_height_s());
                }
            }
        },
        Operation::NodeDeleteNode => {
            assert forall|i: int|
                0 <= i < op_params_s(op).len() implies ((#[trigger] op_params_s(op)[i]).name
                    == "height".spec_bytes() ==> op_params_s(op)[i] == ps_height_s()) by {
                if i == 0 {
                    assert(op_params_s(op)[0].name == "admin-private".spec_bytes());
                    assert(op_params_s(op)[0].name != "height".spec_bytes());
                } else if i == 1 {
                    assert(op_params_s(op)[1].name == "address".spec_bytes());
                    assert(op_params_s(op)[1].name != "height".spec_bytes());
                } else if i == 2 {
                    assert(op_params_s(op)[2].name == "quota".spec_bytes());
                    assert(op_params_s(op)[2].name != "height".spec_bytes());
                }
            }
        },
        Operation::NodeApproveNode => {
            assert forall|i: int|
                0 <= i < op_params_s(op).len() implies ((#[trigger] op_params_s(op)[i]).name
                    == "height".spec_bytes() ==> op_params_s(op)[i] == ps_height_s()) by {
                if i == 0 {
                    assert(op_params_s(op)[0].name == "admin-private".spec_bytes());
                    assert(op_params_s(op)[0].name != "height".spec_bytes());
                } else if i == 1 {
                    assert(op_params_s(op)[1].name == "address".spec_bytes());
                    assert(op_params_s(op)[1].name != "height".spec_bytes());
                } else if i == 2 {
                    assert(op_params_s(op)[2].name == "quota".spec_bytes());
                    assert(op_params_s(op)[2].name != "height".spec_bytes());
                }
            }
        },
        Operation::NodeSetStake => {
            assert forall|i: int|
                0 <= i < op_params_s(op).len() implies ((#[trigger] op_params_s(op)[i]).name
                    == "height".spec_bytes() ==> op_params_s(op)[i] == ps_height_s()) by {
                if i == 0 {
                    assert(op_params_s(op)[0].name == "admin-private".spec_bytes());
                    assert(op_params_s(op)[0].name != "height".spec_bytes());
                } else if i == 1 {
                    assert(op_params_s(op)[1].name == "stake".spec_bytes());
                    assert(op_params_s(op)[1].name != "height".spec_bytes());
                } else if i == 2 {
                    assert(op_params_s(op)[2].name == "address".spec_bytes());
                    assert(op_params_s(op)[2].name != "height".spec_bytes());
                } else if i == 3 {
                    assert(op_params_s(op)[3].name == "quota".spec_bytes());
                    assert(op_params_s(op)[3].name != "height".spec_bytes());
                }
            }
        },
        Operation::NodeStakePermillage => {
            assert forall|i: int|
                0 <= i < op_params_s(op).len() implies ((#[trigger] op_params_s(op)[i]).name
                    == "height".spec_bytes() ==> op_params_s(op)[i] == ps_height_s()) by {
                if i == 0 {
                    assert(op_params_s(op)[0].name == "address".spec_bytes());
                    assert(op_params_s(op)[0].name != "height".spec_bytes());
                } else if i == 1 {
                    assert(op_params_s(op)[1] == ps_height_s());
                }
            }
        },
        _ => {
            assert(false);
        },
    }
}

#[verifier::spinoff_prover]
#[verifier::rlimit(100)]
proof fn lemma_registry_height_quota_manager(op: Operation)
    requires
        op_group(op) == Group::QuotaManager,
    ensures
        forall|i: int|
            0 <= i < op_params_s(op).len() ==> ((#[trigger] op_params_s(op)[i]).name
                == "height".spec_bytes() ==> op_params_s(op)[i] == ps_height_s()),
{
    crate::names::lemma_flags_differ_from_height();
    match op {
        Operation::QuotaGetBql => {
            assert forall|i: int|
                0 <= i < op_params_s(op).len() implies ((#[trigger] op_params_s(op)[i]).name
                    == "height".spec_bytes() ==> op_params_s(op)[i] == ps_height_s()) by {
                if i == 0 {
                    assert(op_params_s(op)[0] == ps_height_s());
                }
            }
        },
        Operation::QuotaGetDefaultAql => {
            assert forall|i: int|
                0 <= i < op_params_s(op).len() implies ((#[trigger] op_params_s(op)[i]).name
                    == "height".spec_bytes() ==> op_params_s(op)[i] == ps_height_s()) by {
                if i == 0 {
                    assert(op_params_s(op)[0] == ps_height_s());
                }
            }
        },
        Operation::QuotaGetAccounts => {
            assert forall|i: int|
                0 <= i < op_params_s(op).len() implies ((#[trigger] op_params_s(op)[i]).name
                    == "height".spec_bytes() ==> op_params_s(op)[i] == ps_height_s()) by {
                if i == 0 {
                    assert(op_params_s(op)[0] == ps_height_s());
                }
            }
        },
        Operation::QuotaGetQuotas => {
            assert forall|i: int|
                0 <= i < op_params_s(op).len() implies ((#[trigger] op_params_s(op)[i]).name
                    == "height".spec_bytes() ==> op_params_s(op)[i] == ps_height_s()) by {
                if i == 0 {
                    assert(op_params_s(op)[0] == ps_height_s());
                }
            }
        },
        Operation::QuotaGetAql => {
            assert forall|i: int|
                0 <= i < op_params_s(op).len() implies ((#[trigger] op_params_s(op)[i]).name
                    == "height".spec_bytes() ==> op_params_s(op)[i] == ps_height_s()) by {
                if i == 0 {
                    assert(op_params_s(op)[0].name == "address".spec_bytes());
                    assert(op_params_s(op)[0].name != "height".spec_bytes());
                }
            }
        },
        Operation::QuotaSetBql => {
            assert forall|i: int|
                0 <= i < op_params_s(op).len() implies ((#[trigger] op_params_s(op)[i]).name
                    == "height".spec_bytes() ==> op_params_s(op)[i] == ps_height_s()) by {
                if i == 0 {
                    assert(op_params_s(op)[0].name == "quota-limit".spec_bytes());
                    assert(op_params_s(op)[0].name != "height".spec_bytes());
                } else if i == 1 {
                    assert(op_params_s(op)[1].name == "admin-private".spec_bytes());
                    assert(op_params_s(op)[1].name != "height".spec_bytes());
                } else if i == 2 {
                    assert(op_params_s(op)[2].name == "quota".spec_bytes());
                    assert(op_params_s(op)[2].name != "height".spec_bytes());
                }
            }
        },
        Operation::QuotaSetDefaultAql => {
            assert forall|i: int|
                0 <= i < op_params_s(op).len() implies ((#[trigger] op_params_s(op)[i]).name
                    == "height".spec_bytes() ==> op_params_s(op)[i] == ps_height_s()) by {
                if i == 0 {
                    assert(op_params_s(op)[0].name == "quota-limit".spec_bytes());
                    assert(op_params_s(op)[0].name != "height".spec_bytes());
                } else if i == 1 {
                    assert(op_params_s(op)[1].name == "admin-private".spec_bytes());
                    assert(op_params_s(op)[1].name != "height".spec_bytes());
                } else if i == 2 {
                    assert(op_params_s(op)[2].name == "quota".spec_bytes());
                    assert(op_params_s(op)[2].name != "height".spec_bytes());
                }
            }
        },
        Operation::QuotaSetAql => {
            assert forall|i: int|
                0 <= i < op_params_s(op).len() implies ((#[trigger] op_params_s(op)[i]).name
                    == "height".spec_bytes() ==> op_params_s(op)[i] == ps_height_s()) by {
                if i == 0 {
                    assert(op_params_s(op)[0].name == "quota-limit".spec_bytes());
                    assert(op_params_s(op)[0].name != "height".spec_bytes());
                } else if i == 1 {
                    assert(op_params_s(op)[1].name == "admin-private".spec_bytes());
                    assert(op_params_s(op)[1].name != "height".spec_bytes());
                } else if i == 2 {
                    assert(op_params_s(op)[2].name == "address".spec_bytes());
                    assert(op_params_s(op)[2].name != "height".spec_bytes());
                } else if i == 3 {
                    assert(op_params_s(op)[3].name == "quota".spec_bytes());
                    assert(op_params_s(op)[3].name != "height".spec_bytes());
                }
            }
        },
        _ => {
            assert(false);
        },
    }
}

#[verifier::spinoff_prover]
#[verifier::rlimit(100)]
proof fn lemma_registry_height_group(op: Operation)
    requires
        op_group(op) == Group::Group,
    ensures
        forall|i: int|
            0 <= i < op_params_s(op).len() ==> ((#[trigger] op_params_s(op)[i]).name
                == "height".spec_bytes() ==> op_params_s(op)[i] == ps_height_s()),
{
    crate::names::lemma_flags_differ_from_height();
    match op {
        Operation::GroupQueryInfo => {
            assert forall|i: int|
                0 <= i < op_params_s(op).len() implies ((#[trigger] op_params_s(op)[i]).name
                    == "height".spec_bytes() ==> op_params_s(op)[i] == ps_height_s()) by {
                if i == 0 {
                    assert(op_params_s(op)[0].name == "address".spec_bytes());
                    assert(op_params_s(op)[0].name != "height".spec_bytes());
                } else if i == 1 {
                    assert(op_params_s(op)[1] == ps_height_s());
                }
            }
        },
        Operation::GroupQueryName => {
            assert forall|i: int|
                0 <= i < op_params_s(op).len() implies ((#[trigger] op_params_s(op)[i]).name
                    == "height".spec_bytes() ==> op_params_s(op)[i] == ps_height_s()) by {
                if i == 0 {
                    assert(op_params_s(op)[0].name == "address".spec_bytes());
                    assert(op_params_s(op)[0].name != "height".spec_bytes());
                } else if i == 1 {
                    assert(op_params_s(op)[1] == ps_height_s());
                }
            }
        },
        Operation::GroupQueryAccounts => {
            assert forall|i: int|
                0 <= i < op_params_s(op).len() implies ((#[trigger] op_params_s(op)[i]).name
                    == "height".spec_bytes() ==> op_params_s(op)[i] == ps_height_s()) by {
                if i == 0 {
                    assert(op_params_s(op)[0].name == "address".spec_bytes());
                    assert(op_params_s(op)[0].name != "height".spec_bytes());
                } else if i == 1 {
                    assert(op_params_s(op)[1] == ps_height_s());
                }
            }
        },
        Operation::GroupQueryChild => {
            assert forall|i: int|
                0 <= i < op_params_s(op).len() implies ((#[trigger] op_params_s(op)[i]).name
                    == "height".spec_bytes() ==> op_params_s(op)[i] == ps_height_s()) by {
                if i == 0 {
                    assert(op_params_s(op)[0].name == "address".spec_bytes());
                    assert(op_params_s(op)[0].name != "height".spec_bytes());
                } else if i == 1 {
                    assert(op_params_s(op)[1] == ps_height_s());
                }
            }
        },
        Operation::GroupQueryChildLength => {
            assert forall|i: int|
                0 <= i < op_params_s(op).len() implies ((#[trigger] op_params_s(op)[i]).name
                    == "height".spec_bytes() ==> op_params_s(op)[i] == ps_height_s()) by {
                if i == 0 {
                    assert(op_params_s(op)[0].name == "address".spec_bytes());
                    assert(op_params_s(op)[0].name != "height".spec_bytes());
                } else if i == 1 {
                    assert(op_params_s(op)[1] == ps_height_s());
                }
            }
        },
        Operation::GroupQueryParent => {
            assert forall|i: int|
                0 <= i < op_params_s(op).len() implies ((#[trigger] op_params_s(op)[i]).name
                    == "height".spec_bytes() ==> op_params_s(op)[i] == ps_height_s()) by {
                if i == 0 {
                    assert(op_params_s(op)[0].name == "address".spec_bytes());
                    assert(op_params_s(op)[0].name != "height".spec_bytes());
                } else if i == 1 {
                    assert(op_params_s(op)[1] == ps_height_s());
                }
            }
        },
        Operation::GroupInGroup => {
            assert forall|i: int|
                0 <= i < op_params_s(op).len() implies ((#[trigger] op_params_s(op)[i]).name
                    == "height".spec_bytes() ==> op_params_s(op)[i] == ps_height_s()) by {
                if i == 0 {
                    assert(op_params_s(op)[0].name == "address".spec_bytes());
                    assert(op_params_s(op)[0].name != "height".spec_bytes());
                } else if i == 1 {
                    assert(op_params_s(op)[1].name == "account".spec_bytes());
                    assert(op_params_s(op)[1].name != "height".spec_bytes());
                } else if i == 2 {
                    assert(op_params_s(op)[2] == ps_height_s());
                }
            }
        },
        _ => {
            assert(false);
        },
    }
}

#[verifier::spinoff_prover]
#[verifier::rlimit(100)]
proof fn lemma_registry_height_group_management(op: Operation)
    requires
        op_group(op) == Group::GroupManagement,
    ensures
        forall|i: int|
            0 <= i < op_params_s(op).len() ==> ((#[trigger] op_params_s(op)[i]).name
                == "height".spec_bytes() ==> op_params_s(op)[i] == ps_height_s()),
{
    crate::names::lemma_flags_differ_from_height();
    match op {
        Operation::GmNewGroup => {
            assert forall|i: int|
                0 <= i < op_params_s(op).len() implies ((#[trigger] op_params_s(op)[i]).name
                    == "height".spec_bytes() ==> op_params_s(op)[i] == ps_height_s()) by {
                if i == 0 {
                    assert(op_params_s(op)[0].name == "origin".spec_bytes());
                    assert(op_params_s(op)[0].name != "height".spec_bytes());
                } else if i == 1 {
                    assert(op_params_s(op)[1].name == "name".spec_bytes());
                    assert(op_params_s(op)[1].name != "height".spec_bytes());
                } else if i == 2 {
                    assert(op_params_s(op)[2].name == "accounts".spec_bytes());
                    assert(op_params_s(op)[2].name != "height".spec_bytes());
                } else if i == 3 {
                    assert(op_params_s(op)[3].name == "quota".spec_bytes());
                    assert(op_params_s(op)[3].name != "height".spec_bytes());
                } else if i == 4 {
                    assert(op_params_s(op)[4].name == "private-key".spec_bytes());
                    assert(op_params_s(op)[4].name != "height".spec_bytes());
                }
            }
        },
        Operation::GmDeleteGroup => {
            assert forall|i: int|
                0 <= i < op_params_s(op).len() implies ((#[trigger] op_params_s(op)[i]).name
                    == "height".spec_bytes() ==> op_params_s(op)[i] == ps_height_s()) by {
                if i == 0 {
                    assert(op_params_s(op)[0].name == "origin".spec_bytes());
                    assert(op_params_s(op)[0].name != "height".spec_bytes());
                } else if i == 1 {
                    assert(op_params_s(op)[1].name == "target".spec_bytes());
                    assert(op_params_s(op)[1].name != "height".spec_bytes());
                } else if i == 2 {
                    assert(op_params_s(op)[2].name == "quota".spec_bytes());
                    assert(op_params_s(op)[2].name != "height".spec_bytes());
                } else if i == 3 {
                    assert(op_params_s(op)[3].name == "private-key".spec_bytes());
                    assert(op_params_s(op)[3].name != "height".spec_bytes());
                }
            }
        },
        Operation::GmUpdateGroupName => {
            assert forall|i: int|
                0 <= i < op_params_s(op).len() implies ((#[trigger] op_params_s(op)[i]).name
                    == "height".spec_bytes() ==> op_params_s(op)[i] == ps_height_s()) by {
                if i == 0 {
                    assert(op_params_s(op)[0].name == "origin".spec_bytes());
                    assert(op_params_s(op)[0].name != "height".spec_bytes());
                } else if i == 1 {
                    assert(op_params_s(op)[1].name == "target".spec_bytes());
                    assert(op_params_s(op)[1].name != "height".spec_bytes());
                } else if i == 2 {
                    assert(op_params_s(op)[2].name == "name".spec_bytes());
                    assert(op_params_s(op)[2].name != "height".spec_bytes());
                } else if i == 3 {
                    assert(op_params_s(op)[3].name == "quota".spec_bytes());
                    assert(op_params_s(op)[3].name != "height".spec_bytes());
                } else if i == 4 {
                    assert(op_params_s(op)[4].name == "private-key".spec_bytes());
                    assert(op_params_s(op)[4].name != "height".spec_bytes());
                }
            }
        },
        Operation::GmAddAccounts => {
            assert forall|i: int|
                0 <= i < op_params_s(op).len() implies ((#[trigger] op_params_s(op)[i]).name
                    == "height".spec_bytes() ==> op_params_s(op)[i] == ps_height_s()) by {
                if i == 0 {
                    assert(op_params_s(op)[0].name == "origin".spec_bytes());
                    assert(op_params_s(op)[0].name != "height".spec_bytes());
                } else if i == 1 {
                    assert(op_params_s(op)[1].name == "target".spec_bytes());
                    assert(op_params_s(op)[1].name != "height".spec_bytes());
                } else if i == 2 {
                    assert(op_params_s(op)[2].name == "accounts".spec_bytes());
                    assert(op_params_s(op)[2].name != "height".spec_bytes());
                } else if i == 3 {
                    assert(op_params_s(op)[3].name == "quota".spec_bytes());
                    assert(op_params_s(op)[3].name != "height".spec_bytes());
                } else if i == 4 {
                    assert(op_params_s(op)[4].name == "private-key".spec_bytes());
                    assert(op_params_s(op)[4].name != "height".spec_bytes());
                }
            }
        },
        Operation::GmDeleteAccounts => {
            assert forall|i: int|
                0 <= i < op_params_s(op).len() implies ((#[trigger] op_params_s(op)[i]).name
                    == "height".spec_bytes() ==> op_params_s(op)[i] == ps_height_s()) by {
                if i == 0 {
                    assert(op_params_s(op)[0].name == "origin".spec_bytes());
                    assert(op_params_s(op)[0].name != "height".spec_bytes());
                } else if i == 1 {
                    assert(op_params_s(op)[1].name == "target".spec_bytes());
                    assert(op_params_s(op)[1].name != "height".spec_bytes());
                } else if i == 2 {
                    assert(op_params_s(op)[2].name == "accounts".spec_bytes());
                    assert(op_params_s(op)[2].name != "height".spec_bytes());
                } else if i == 3 {
                    assert(op_params_s(op)[3].name == "quota".spec_bytes());
                    assert(op_params_s(op)[3].name != "height".spec_bytes());
                } else if i == 4 {
                    assert(op_params_s(op)[4].name == "private-key".spec_bytes());
                    assert(op_params_s(op)[4].name != "height".spec_bytes());
                }
            }
        },
        Operation::GmCheckScope => {
            assert forall|i: int|
                0 <= i < op_params_s(op).len() implies ((#[trigger] op_params_s(op)[i]).name
                    == "height".spec_bytes() ==> op_params_s(op)[i] == ps_height_s()) by {
                if i == 0 {
                    assert(op_params_s(op)[0].name == "origin".spec_bytes());
                    assert(op_params_s(op)[0].name != "height".spec_bytes());
                } else if i == 1 {
                    assert(op_params_s(op)[1].name == "target".spec_bytes());
                    assert(op_params_s(op)[1].name != "height".spec_bytes());
                } else if i == 2 {
                    assert(op_params_s(op)[2] == ps_height_s());
                }
            }
        },
        Operation::GmQueryGroups => {
            assert forall|i: int|
                0 <= i < op_params_s(op).len() implies ((#[trigger] op_params_s(op)[i]).name
                    == "height".spec_bytes() ==> op_params_s(op)[i] == ps_height_s()) by {
                if i == 0 {
                    assert(op_params_s(op)[0] == ps_height_s());
                }
            }
        },
        _ => {
            assert(false);
        },
    }
}

#[verifier::spinoff_prover]
#[verifier::rlimit(100)]
proof fn lemma_registry_height_role(op: Operation)
    requires
        op_group(op) == Group::Role,
    ensures
        forall|i: int|
            0 <= i < op_params_s(op).len() ==> ((#[trigger] op_params_s(op)[i]).name
                == "height".spec_bytes() ==> op_params_s(op)[i] == ps_height_s()),
{
    crate::names::lemma_flags_differ_from_height();
    match op {
        Operation::RoleQueryRole => {
            assert forall|i: int|
                0 <= i < op_params_s(op).len() implies ((#[trigger] op_params_s(op)[i]).name
                    == "height".spec_bytes() ==> op_params_s(op)[i] == ps_height_s()) by {
                if i == 0 {
                    assert(op_params_s(op)[0].name == "address".spec_bytes());
                    assert(op_params_s(op)[0].name != "height".spec_bytes());
                } else if i == 1 {
                    assert(op_params_s(op)[1] == ps_height_s());
                }
            }
        },
        Operation::RoleQueryName => {
            assert forall|i: int|
                0 <= i < op_params_s(op).len() implies ((#[trigger] op_params_s(op)[i]).name
                    == "height".spec_bytes() ==> op_params_s(op)[i] == ps_height_s()) by {
                if i == 0 {
                    assert(op_params_s(op)[0].name == "address".spec_bytes());
                    assert(op_params_s(op)[0].name != "height".spec_bytes());
                } else if i == 1 {
                    assert(op_params_s(op)[1] == ps_height_s());
                }
            }
        },
        Operation::RoleQueryPermissions => {
            assert forall|i: int|
                0 <= i < op_params_s(op).len() implies ((#[trigger] op_params_s(op)[i]).name
                    == "height".spec_bytes() ==> op_params_s(op)[i] == ps_height_s()) by {
                if i == 0 {
                    assert(op_params_s(op)[0].name == "address".spec_bytes());
                    assert(op_params_s(op)[0].name != "height".spec_bytes());
                } else if i == 1 {
                    assert(op_params_s(op)[1] == ps_height_s());
                }
            }
        },
        Operation::RoleLengthOfPermissions => {
            assert forall|i: int|
                0 <= i < op_params_s(op).len() implies ((#[trigger] op_params_s(op)[i]).name
                    == "height".spec_bytes() ==> op_params_s(op)[i] == ps_height_s()) by {
                if i == 0 {
                    assert(op_params_s(op)[0].name == "address".spec_bytes());
                    assert(op_params_s(op)[0].name != "height".spec_bytes());
                } else if i == 1 {
                    assert(op_params_s(op)[1] == ps_height_s());
                }
            }
        },
        Operation::RoleInPermissions => {
            assert forall|i: int|
                0 <= i < op_params_s(op).len() implies ((#[trigger] op_params_s(op)[i]).name
                    == "height".spec_bytes() ==> op_params_s(op)[i] == ps_height_s()) by {
                if i == 0 {
                    assert(op_params_s(op)[0].name == "address".spec_bytes());
                    assert(op_params_s(op)[0].name != "height".spec_bytes());
                } else if i == 1 {
                    assert(op_params_s(op)[1].name == "permission".spec_bytes());
                    assert(op_params_s(op)[1].name != "height".spec_bytes());
                } else if i == 2 {
                    assert(op_params_s(op)[2] == ps_height_s());
                }
            }
        },
        _ => {
            assert(false);
        },
    }
}

#[verifier::spinoff_prover]
#[verifier::rlimit(100)]
proof fn lemma_registry_height_role_management(op: Operation)
    requires
        op_group(op) == Group::RoleManagement,
    ensures
        forall|i: int|
            0 <= i < op_params_s(op).len() ==> ((#[trigger] op_params_s(op)[i]).name
                == "height".spec_bytes() ==> op_params_s(op)[i] == ps_height_s()),
{
    crate::names::lemma_flags_differ_from_height();
    match op {
        Operation::RmNewRole => {
            assert forall|i: int|
                0 <= i < op_params_s(op).len() implies ((#[trigger] op_params_s(op)[i]).name
                    == "height".spec_bytes() ==> op_params_s(op)[i] == ps_height_s()) by {
                if i == 0 {
                    assert(op_params_s(op)[0].name == "name".spec_bytes());
                    assert(op_params_s(op)[0].name != "height".spec_bytes());
                } else if i == 1 {
                    assert(op_params_s(op)[1].name == "permissions".spec_bytes());
                    assert(op_params_s(op)[1].name != "height".spec_bytes());
                } else if i == 2 {
                    assert(op_params_s(op)[2].name == "quota".spec_bytes());
                    assert(op_params_s(op)[2].name != "height".spec_bytes());
                } else if i == 3 {
                    assert(op_params_s(op)[3].name == "private-key".spec_bytes());
                    assert(op_params_s(op)[3].name != "height".spec_bytes());
                }
            }
        },
        Operation::RmDeleteRole => {
            assert forall|i: int|
                0 <= i < op_params_s(op).len() implies ((#[trigger] op_params_s(op)[i]).name
                    == "height".spec_bytes() ==> op_params_s(op)[i] == ps_height_s()) by {
                if i == 0 {
                    assert(op_params_s(op)[0].name == "address".spec_bytes());
                    assert(op_params_s(op)[0].name != "height".spec_bytes());
                } else if i == 1 {
                    assert(op_params_s(op)[1].name == "quota".spec_bytes());
                    assert(op_params_s(op)[1].name != "height".spec_bytes());
                } else if i == 2 {
                    assert(op_params_s(op)[2].name == "private-key".spec_bytes());
                    assert(op_params_s(op)[2].name != "height".spec_bytes());
                }
            }
        },
        Operation::RmUpdateRoleName => {
            assert forall|i: int|
                0 <= i < op_params_s(op).len() implies ((#[trigger] op_params_s(op)[i]).name
                    == "height".spec_bytes() ==> op_params_s(op)[i] == ps_height_s()) by {
                if i == 0 {
                    assert(op_params_s(op)[0].name == "address".spec_bytes());
                    assert(op_params_s(op)[0].name != "height".spec_bytes());
                } else if i == 1 {
                    assert(op_params_s(op)[1].name == "name".spec_bytes());
                    assert(op_params_s(op)[1].name != "height".spec_bytes());
                } else if i == 2 {
                    assert(op_params_s(op)[2].name == "quota".spec_bytes());
                    assert(op_params_s(op)[2].name != "height".spec_bytes());
                } else if i == 3 {
                    assert(op_params_s(op)[3].name == "private-key".spec_bytes());
                    assert(op_params_s(op)[3].name != "height".spec_bytes());
                }
            }
        },
        Operation::RmAddPermissions => {
            assert forall|i: int|
                0 <= i < op_params_s(op).len() implies ((#[trigger] op_params_s(op)[i]).name
                    == "height".spec_bytes() ==> op_params_s(op)[i] == ps_height_s()) by {
                if i == 0 {
                    assert(op_params_s(op)[0].name == "address".spec_bytes());
                    assert(op_params_s(op)[0].name != "height".spec_bytes());
                } else if i == 1 {
                    assert(op_params_s(op)[1].name == "permissions".spec_bytes());
                    assert(op_params_s(op)[1].name != "height".spec_bytes());
                } else if i == 2 {
                    assert(op_params_s(op)[2].name == "quota".spec_bytes());
                    assert(op_params_s(op)[2].name != "height".spec_bytes());
                } else if i == 3 {
                    assert(op_params_s(op)[3].name == "private-key".spec_bytes());
                    assert(op_params_s(op)[3].name != "height".spec_bytes());
                }
            }
        },
        Operation::RmDeletePermissions => {
            assert forall|i: int|
                0 <= i < op_params_s(op).len() implies ((#[trigger] op_params_s(op)[i]).name
                    == "height".spec_bytes() ==> op_params_s(op)[i] == ps_height_s()) by {
                if i == 0 {
                    assert(op_params_s(op)[0].name == "address".spec_bytes());
                    assert(op_params_s(op)[0].name != "height".spec_bytes());
                } else if i == 1 {
                    assert(op_params_s(op)[1].name == "permissions".spec_bytes());
                    assert(op_params_s(op)[1].name != "height".spec_bytes());
                } else if i == 2 {
                    assert(op_params_s(op)[2].name == "quota".spec_bytes());
                    assert(op_params_s(op)[2].name != "height".spec_bytes());
                } else if i == 3 {
                    assert(op_params_s(op)[3].name == "private-key".spec_bytes());
                    assert(op_params_s(op)[3].name != "height".spec_bytes());
                }
            }
        },
        Operation::RmSetRole => {
            assert forall|i: int|
                0 <= i < op_params_s(op).len() implies ((#[trigger] op_params_s(op)[i]).name
                    == "height".spec_bytes() ==> op_params_s(op)[i] == ps_height_s()) by {
                if i == 0 {
                    assert(op_params_s(op)[0].name == "account".spec_bytes());
                    assert(op_params_s(op)[0].name != "height".spec_bytes());
                } else if i == 1 {
                    assert(op_params_s(op)[1].name == "address".spec_bytes());
                    assert(op_params_s(op)[1].name != "height".spec_bytes());
                } else if i == 2 {
                    assert(op_params_s(op)[2].name == "quota".spec_bytes());
                    assert(op_params_s(op)[2].name != "height".spec_bytes());
                } else if i == 3 {
                    assert(op_params_s(op)[3].name == "private-key".spec_bytes());
                    assert(op_params_s(op)[3].name != "height".spec_bytes());
                }
            }
        },
        Operation::RmCancelRole => {
            assert forall|i: int|
                0 <= i < op_params_s(op).len() implies ((#[trigger] op_params_s(op)[i]).name
                    == "height".spec_bytes() ==> op_params_s(op)[i] == ps_height_s()) by {
                if i == 0 {
                    assert(op_params_s(op)[0].name == "account".spec_bytes());
                    assert(op_params_s(op)[0].name != "height".spec_bytes());
                } else if i == 1 {
                    assert(op_params_s(op)[1].name == "address".spec_bytes());
                    assert(op_params_s(op)[1].name != "height".spec_bytes());
                } else if i == 2 {
                    assert(op_params_s(op)[2].name == "quota".spec_bytes());
                    assert(op_params_s(op)[2].name != "height".spec_bytes());
                } else if i == 3 {
                    assert(op_params_s(op)[3].name == "private-key".spec_bytes());
                    assert(op_params_s(op)[3].name != "height".spec_bytes());
                }
            }
        },
        Operation::RmClearRole => {
            assert forall|i: int|
                0 <= i < op_params_s(op).len() implies ((#[trigger] op_params_s(op)[i]).name
                    == "height".spec_bytes() ==> op_params_s(op)[i] == ps_height_s()) by {
                if i == 0 {
                    assert(op_params_s(op)[0].name == "account".spec_bytes());
                    assert(op_params_s(op)[0].name != "height".spec_bytes());
                } else if i == 1 {
                    assert(op_params_s(op)[1].name == "quota".spec_bytes());
                    assert(op_params_s(op)[1].name != "height".spec_bytes());
                } else if i == 2 {
                    assert(op_params_s(op)[2].name == "private-key".spec_bytes());
                    assert(op_params_s(op)[2].name != "height".spec_bytes());
                }
            }
        },
        Operation::RmQueryRoles => {
            assert forall|i: int|
                0 <= i < op_params_s(op).len() implies ((#[trigger] op_params_s(op)[i]).name
                    == "height".spec_bytes() ==> op_params_s(op)[i] == ps_height_s()) by {
                if i == 0 {
                    assert(op_params_s(op)[0].name == "account".spec_bytes());
                    assert(op_params_s(op)[0].name != "height".spec_bytes());
                } else if i == 1 {
                    assert(op_params_s(op)[1] == ps_height_s());
                }
            }
        },
        Operation::RmQueryAccounts => {
            assert forall|i: int|
                0 <= i < op_params_s(op).len() implies ((#[trigger] op_params_s(op)[i]).name
                    == "height".spec_bytes() ==> op_params_s(op)[i] == ps_height_s()) by {
                if i == 0 {
                    assert(op_params_s(op)[0].name == "address".spec_bytes());
                    assert(op_params_s(op)[0].name != "height".spec_bytes());
                } else if i == 1 {
                    assert(op_params_s(op)[1] == ps_height_s());
                }
            }
        },
        _ => {
            assert(false);
        },
    }
}

#[verifier::spinoff_prover]
#[verifier::rlimit(100)]
proof fn lemma_registry_height_authorization(op: Operation)
    requires
        op_group(op) == Group::Authorization,
    ensures
        forall|i: int|
            0 <= i < op_params_s(op).len() ==> ((#[trigger] op_params_s(op)[i]).name
                == "height".spec_bytes() ==> op_params_s(op)[i] == ps_height_s()),
{
    crate::names::lemma_flags_differ_from_height();
    match op {
        Operation::AuthQueryPermissions => {
            assert forall|i: int|
                0 <= i < op_params_s(op).len() implies ((#[trigger] op_params_s(op)[i]).name
                    == "height".spec_bytes() ==> op_params_s(op)[i] == ps_height_s()) by {
                if i == 0 {
                    assert(op_params_s(op)[0].name == "account".spec_bytes());
                    assert(op_params_s(op)[0].name != "height".spec_bytes());
                } else if i == 1 {
                    assert(op_params_s(op)[1] == ps_height_s());
                }
            }
        },
        Operation::AuthQueryAccounts => {
            assert forall|i: int|
                0 <= i < op_params_s(op).len() implies ((#[trigger] op_params_s(op)[i]).name
                    == "height".spec_bytes() ==> op_params_s(op)[i] == ps_height_s()) by {
                if i == 0 {
                    assert(op_params_s(op)[0].name == "permission".spec_bytes());
                    assert(op_params_s(op)[0].name != "height".spec_bytes());
                } else if i == 1 {
                    assert(op_params_s(op)[1] == ps_height_s());
                }
            }
        },
        Operation::AuthQueryAllAccounts => {
            assert forall|i: int|
                0 <= i < op_params_s(op).len() implies ((#[trigger] op_params_s(op)[i]).name
                    == "height".spec_bytes() ==> op_params_s(op)[i] == ps_height_s()) by {
                if i == 0 {
                    assert(op_params_s(op)[0] == ps_height_s());
                }
            }
        },
        Operation::AuthCheckResource => {
            assert forall|i: int|
                0 <= i < op_params_s(op).len() implies ((#[trigger] op_params_s(op)[i]).name
                    == "height".spec_bytes() ==> op_params_s(op)[i] == ps_height_s()) by {
                if i == 0 {
                    assert(op_params_s(op)[0].name == "account".spec_bytes());
                    assert(op_params_s(op)[0].name != "height".spec_bytes());
                } else if i == 1 {
                    assert(op_params_s(op)[1].name == "contract".spec_bytes());
                    assert(op_params_s(op)[1].name != "height".spec_bytes());
                } else if i == 2 {
                    assert(op_params_s(op)[2].name == "function-hash".spec_bytes());
                    assert(op_params_s(op)[2].name != "height".spec_bytes());
                } else if i == 3 {
                    assert(op_params_s(op)[3] == ps_height_s());
                }
            }
        },
        Operation::AuthCheckPermission => {
            assert forall|i: int|
                0 <= i < op_params_s(op).len() implies ((#[trigger] op_params_s(op)[i]).name
                    == "height".spec_bytes() ==> op_params_s(op)[i] == ps_height_s()) by {
                if i == 0 {
                    assert(op_params_s(op)[0].name == "account".spec_bytes());
                    assert(op_params_s(op)[0].name != "height".spec_bytes());
                } else if i == 1 {
                    assert(op_params_s(op)[1].name == "permission".spec_bytes());
                    assert(op_params_s(op)[1].name != "height".spec_bytes());
                } else if i == 2 {
                    assert(op_params_s(op)[2] == ps_height_s());
                }
            }
        },
        _ => {
            assert(false);
        },
    }
}

#[verifier::spinoff_prover]
#[verifier::rlimit(100)]
proof fn lemma_registry_height_permission(op: Operation)
    requires
        op_group(op) == Group::Permission,
    ensures
        forall|i: int|
            0 <= i < op_params_s(op).len() ==> ((#[trigger] op_params_s(op)[i]).name
                == "height".spec_bytes() ==> op_params_s(op)[i] == ps_height_s()),
{
    crate::names::lemma_flags_differ_from_height();
    match op {
        Operation::PermInPermission => {
            assert forall|i: int|
                0 <= i < op_params_s(op).len() implies ((#[trigger] op_params_s(op)[i]).name
                    == "height".spec_bytes() ==> op_params_s(op)[i] == ps_height_s()) by {
                if i == 0 {
                    assert(op_params_s(op)[0].name == "permission".spec_bytes());
                    assert(op_params_s(op)[0].name != "height".spec_bytes());
                } else if i == 1 {
                    assert(op_params_s(op)[1].name == "contract".spec_bytes());
                    assert(op_params_s(op)[1].name != "height".spec_bytes());
                } else if i == 2 {
                    assert(op_params_s(op)[2].name == "function-hash".spec_bytes());
                    assert(op_params_s(op)[2].name != "height".spec_bytes());
                } else if i == 3 {
                    assert(op_params_s(op)[3] == ps_height_s());
                }
            }
        },
        Operation::PermQueryInfo => {
            assert forall|i: int|
                0 <= i < op_params_s(op).len() implies ((#[trigger] op_params_s(op)[i]).name
                    == "height".spec_bytes() ==> op_params_s(op)[i] == ps_height_s()) by {
                if i == 0 {
                    assert(op_params_s(op)[0].name == "permission".spec_bytes());
                    assert(op_params_s(op)[0].name != "height".spec_bytes());
                } else if i == 1 {
                    assert(op_params_s(op)[1] == ps_height_s());
                }
            }
        },
        Operation::PermQueryName => {
            assert forall|i: int|
                0 <= i < op_params_s(op).len() implies ((#[trigger] op_params_s(op)[i]).name
                    == "height".spec_bytes() ==> op_params_s(op)[i] == ps_height_s()) by {
                if i == 0 {
                    assert(op_params_s(op)[0].name == "permission".spec_bytes());
                    assert(op_params_s(op)[0].name != "height".spec_bytes());
                } else if i == 1 {
                    assert(op_params_s(op)[1] == ps_height_s());
                }
            }
        },
        Operation::PermQueryResource => {
            assert forall|i: int|
                0 <= i < op_params_s(op).len() implies ((#[trigger] op_params_s(op)[i]).name
                    == "height".spec_bytes() ==> op_params_s(op)[i] == ps_height_s()) by {
                if i == 0 {
                    assert(op_params_s(op)[0].name == "permission".spec_bytes());
                    assert(op_params_s(op)[0].name != "height".spec_bytes());
                } else if i == 1 {
                    assert(op_params_s(op)[1] == ps_height_s());
                }
            }
        },
        _ => {
            assert(false);
        },
    }
}

#[verifier::spinoff_prover]
#[verifier::rlimit(100)]
proof fn lemma_registry_height_permission_management(op: Operation)
    requires
        op_group(op) == Group::PermissionManagement,
    ensures
        forall|i: int|
            0 <= i < op_params_s(op).len() ==> ((#[trigger] op_params_s(op)[i]).name
                == "height".spec_bytes() ==> op_params_s(op)[i] == ps_height_s()),
{
    crate::names::lemma_flags_differ_from_height();
    match op {
        Operation::PmNewPermission => {
            assert forall|i: int|
                0 <= i < op_params_s(op).len() implies ((#[trigger] op_params_s(op)[i]).name
                    == "height".spec_bytes() ==> op_params_s(op)[i] == ps_height_s()) by {
                if i == 0 {
                    assert(op_params_s(op)[0].name == "name".spec_bytes());
                    assert(op_params_s(op)[0].name != "height".spec_bytes());
                } else if i == 1 {
                    assert(op_params_s(op)[1].name == "contracts".spec_bytes());
                    assert(op_params_s(op)[1].name != "height".spec_bytes());
                } else if i == 2 {
                    assert(op_params_s(op)[2].name == "function-hashes".spec_bytes());
                    assert(op_params_s(op)[2].name != "height".spec_bytes());
                } else if i == 3 {
                    assert(op_params_s(op)[3].name == "quota".spec_bytes());
                    assert(op_params_s(op)[3].name != "height".spec_bytes());
                } else if i == 4 {
                    assert(op_params_s(op)[4].name == "private-key".spec_bytes());
                    assert(op_params_s(op)[4].name != "height".spec_bytes());
                }
            }
        },
        Operation::PmDeletePermission => {
            assert forall|i: int|
                0 <= i < op_params_s(op).len() implies ((#[trigger] op_params_s(op)[i]).name
                    == "height".spec_bytes() ==> op_params_s(op)[i] == ps_height_s()) by {
                if i == 0 {
                    assert(op_params_s(op)[0].name == "permission".spec_bytes());
                    assert(op_params_s(op)[0].name != "height".spec_bytes());
                } else if i == 1 {
                    assert(op_params_s(op)[1].name == "quota".spec_bytes());
                    assert(op_params_s(op)[1].name != "height".spec_bytes());
                } else if i == 2 {
                    assert(op_params_s(op)[2].name == "private-key".spec_bytes());
                    assert(op_params_s(op)[2].name != "height".spec_bytes());
                }
            }
        },
        Operation::PmUpdatePermissionName => {
            assert forall|i: int|
                0 <= i < op_params_s(op).len() implies ((#[trigger] op_params_s(op)[i]).name
                    == "height".spec_bytes() ==> op_params_s(op)[i] == ps_height_s()) by {
                if i == 0 {
                    assert(op_params_s(op)[0].name == "permission".spec_bytes());
                    assert(op_params_s(op)[0].name != "height".spec_bytes());
                } else if i == 1 {
                    assert(op_params_s(op)[1].name == "name".spec_bytes());
                    assert(op_params_s(op)[1].name != "height".spec_bytes());
                } else if i == 2 {
                    assert(op_params_s(op)[2].name == "quota".spec_bytes());
                    assert(op_params_s(op)[2].name != "height".spec_bytes());
                } else if i == 3 {
                    assert(op_params_s(op)[3].name == "private-key".spec_bytes());
                    assert(op_params_s(op)[3].name != "height".spec_bytes());
                }
            }
        },
        Operation::PmAddResources => {
            assert forall|i: int|
                0 <= i < op_params_s(op).len() implies ((#[trigger] op_params_s(op)[i]).name
                    == "height".spec_bytes() ==> op_params_s(op)[i] == ps_height_s()) by {
                if i == 0 {
                    assert(op_params_s(op)[0].name == "permission".spec_bytes());
                    assert(op_params_s(op)[0].name != "height".spec_bytes());
                } else if i == 1 {
                    assert(op_params_s(op)[1].name == "contracts".spec_bytes());
                    assert(op_params_s(op)[1].name != "height".spec_bytes());
                } else if i == 2 {
                    assert(op_params_s(op)[2].name == "function-hashes".spec_bytes());
                    assert(op_params_s(op)[2].name != "height".spec_bytes());
                } else if i == 3 {
                    assert(op_params_s(op)[3].name == "quota".spec_bytes());
                    assert(op_params_s(op)[3].name != "height".spec_bytes());
                } else if i == 4 {
                    assert(op_params_s(op)[4].name == "private-key".spec_bytes());
                    assert(op_params_s(op)[4].name != "height".spec_bytes());
                }
            }
        },
        Operation::PmDeleteResources => {
            assert forall|i: int|
                0 <= i < op_params_s(op).len() implies ((#[trigger] op_params_s(op)[i]).name
                    == "height".spec_bytes() ==> op_params_s(op)[i] == ps_height_s()) by {
                if i == 0 {
                    assert(op_params_s(op)[0].name == "permission".spec_bytes());
                    assert(op_params_s(op)[0].name != "height".spec_bytes());
                } else if i == 1 {
                    assert(op_params_s(op)[1].name == "contracts".spec_bytes());
                    assert(op_params_s(op)[1].name != "height".spec_bytes());
                } else if i == 2 {
                    assert(op_params_s(op)[2].name == "function-hashes".spec_bytes());
                    assert(op_params_s(op)[2].name != "height".spec_bytes());
                } else if i == 3 {
                    assert(op_params_s(op)[3].name == "quota".spec_bytes());
                    assert(op_params_s(op)[3].name != "height".spec_bytes());
                } else if i == 4 {
                    assert(op_params_s(op)[4].name == "private-key".spec_bytes());
                    assert(op_params_s(op)[4].name != "height".spec_bytes());
                }
            }
        },
        Operation::PmSetAuthorization => {
            assert forall|i: int|
                0 <= i < op_params_s(op).len() implies ((#[trigger] op_params_s(op)[i]).name
                    == "height".spec_bytes() ==> op_params_s(op)[i] == ps_height_s()) by {
                if i == 0 {
                    assert(op_params_s(op)[0].name == "permission".spec_bytes());
                    assert(op_params_s(op)[0].name != "height".spec_bytes());
                } else if i == 1 {
                    assert(op_params_s(op)[1].name == "account".spec_bytes());
                    assert(op_params_s(op)[1].name != "height".spec_bytes());
                } else if i == 2 {
                    assert(op_params_s(op)[2].name == "quota".spec_bytes());
                    assert(op_params_s(op)[2].name != "height".spec_bytes());
                } else if i == 3 {
                    assert(op_params_s(op)[3].name == "private-key".spec_bytes());
                    assert(op_params_s(op)[3].name != "height".spec_bytes());
                }
            }
        },
        Operation::PmSetAuthorizations => {
            assert forall|i: int|
                0 <= i < op_params_s(op).len() implies ((#[trigger] op_params_s(op)[i]).name
                    == "height".spec_bytes() ==> op_params_s(op)[i] == ps_height_s()) by {
                if i == 0 {
                    assert(op_params_s(op)[0].name == "permissions".spec_bytes());
                    assert(op_params_s(op)[0].name != "height".spec_bytes());
                } else if i == 1 {
                    assert(op_params_s(op)[1].name == "account".spec_bytes());
                    assert(op_params_s(op)[1].name != "height".spec_bytes());
                } else if i == 2 {
                    assert(op_params_s(op)[2].name == "quota".spec_bytes());
                    assert(op_params_s(op)[2].name != "height".spec_bytes());
                } else if i == 3 {
                    assert(op_params_s(op)[3].name == "private-key".spec_bytes());
                    assert(op_params_s(op)[3].name != "height".spec_bytes());
                }
            }
        },
        Operation::PmCancelAuthorization => {
            assert forall|i: int|
                0 <= i < op_params_s(op).len() implies ((#[trigger] op_params_s(op)[i]).name
                    == "height".spec_bytes() ==> op_params_s(op)[i] == ps_height_s()) by {
                if i == 0 {
                    assert(op_params_s(op)[0].name == "permission".spec_bytes());
                    assert(op_params_s(op)[0].name != "height".spec_bytes());
                } else if i == 1 {
                    assert(op_params_s(op)[1].name == "account".spec_bytes());
                    assert(op_params_s(op)[1].name != "height".spec_bytes());
                } else if i == 2 {
                    assert(op_params_s(op)[2].name == "quota".spec_bytes());
                    assert(op_params_s(op)[2].name != "height".spec_bytes());
                } else if i == 3 {
                    assert(op_params_s(op)[3].name == "private-key".spec_bytes());
                    assert(op_params_s(op)[3].name != "height".spec_bytes());
                }
            }
        },
        Operation::PmCancelAuthorizations => {
            assert forall|i: int|
                0 <= i < op_params_s(op).len() implies ((#[trigger] op_params_s(op)[i]).name
                    == "height".spec_bytes() ==> op_params_s(op)[i] == ps_height_s()) by {
                if i == 0 {
                    assert(op_params_s(op)[0].name == "permissions".spec_bytes());
                    assert(op_params_s(op)[0].name != "height".spec_bytes());
                } else if i == 1 {
                    assert(op_params_s(op)[1].name == "account".spec_bytes());
                    assert(op_params_s(op)[1].name != "height".spec_bytes());
                } else if i == 2 {
                    assert(op_params_s(op)[2].name == "quota".spec_bytes());
                    assert(op_params_s(op)[2].name != "height".spec_bytes());
                } else if i == 3 {
                    assert(op_params_s(op)[3].name == "private-key".spec_bytes());
                    assert(op_params_s(op)[3].name != "height".spec_bytes());
                }
            }
        },
        Operation::PmClearAuthorization => {
            assert forall|i: int|
                0 <= i < op_params_s(op).len() implies ((#[trigger] op_params_s(op)[i]).name
                    == "height".spec_bytes() ==> op_params_s(op)[i] == ps_height_s()) by {
                if i == 0 {
                    assert(op_params_s(op)[0].name == "account".spec_bytes());
                    assert(op_params_s(op)[0].name != "height".spec_bytes());
                } else if i == 1 {
                    assert(op_params_s(op)[1].name == "quota".spec_bytes());
                    assert(op_params_s(op)[1].name != "height".spec_bytes());
                } else if i == 2 {
                    assert(op_params_s(op)[2].name == "private-key".spec_bytes());
                    assert(op_params_s(op)[2].name != "height".spec_bytes());
                }
            }
        },
        _ => {
            assert(false);
        },
    }
}

#[verifier::spinoff_prover]
#[verifier::rlimit(100)]
proof fn lemma_registry_height_admin_management(op: Operation)
    requires
        op_group(op) == Group::AdminManagement,
    ensures
        forall|i: int|
            0 <= i < op_params_s(op).len() ==> ((#[trigger] op_params_s(op)[i]).name
                == "height".spec_bytes() ==> op_params_s(op)[i] == ps_height_s()),
{
    crate::names::lemma_flags_differ_from_height();
    match op {
        Operation::AdminAdmin => {
            assert forall|i: int|
                0 <= i < op_params_s(op).len() implies ((#[trigger] op_params_s(op)[i]).name
                    == "height".spec_bytes() ==> op_params_s(op)[i] == ps_height_s()) by {
                if i == 0 {
                    assert(op_params_s(op)[0] == ps_height_s());
                }
            }
        },
        Operation::AdminIsAdmin => {
            assert forall|i: int|
                0 <= i < op_params_s(op).len() implies ((#[trigger] op_params_s(op)[i]).name
                    == "height".spec_bytes() ==> op_params_s(op)[i] == ps_height_s()) by {
                if i == 0 {
                    assert(op_params_s(op)[0].name == "address".spec_bytes());
                    assert(op_params_s(op)[0].name != "height".spec_bytes());
                } else if i == 1 {
                    assert(op_params_s(op)[1] == ps_height_s());
                }
            }
        },
        Operation::AdminUpdate => {
            assert forall|i: int|
                0 <= i < op_params_s(op).len() implies ((#[trigger] op_params_s(op)[i]).name
                    == "height".spec_bytes() ==> op_params_s(op)[i] == ps_height_s()) by {
                if i == 0 {
                    assert(op_params_s(op)[0].name == "address".spec_bytes());
                    assert(op_params_s(op)[0].name != "height".spec_bytes());
                } else if i == 1 {
                    assert(op_params_s(op)[1].name == "admin-private".spec_bytes());
                    assert(op_params_s(op)[1].name != "height".spec_bytes());
                } else if i == 2 {
                    assert(op_params_s(op)[2].name == "quota".spec_bytes());
                    assert(op_params_s(op)[2].name != "height".spec_bytes());
                }
            }
        },
        _ => {
            assert(false);
        },
    }
}

#[verifier::spinoff_prover]
#[verifier::rlimit(100)]
proof fn lemma_registry_height_batch_tx(op: Operation)
    requires
        op_group(op) == Group::BatchTx,
    ensures
        forall|i: int|
            0 <= i < op_params_s(op).len() ==> ((#[trigger] op_params_s(op)[i]).name
                == "height".spec_bytes() ==> op_params_s(op)[i] == ps_height_s()),
{
    crate::names::lemma_flags_differ_from_height();
    match op {
        Operation::BatchMultiTxs => {
            assert forall|i: int|
                0 <= i < op_params_s(op).len() implies ((#[trigger] op_params_s(op)[i]).name
                    == "height".spec_bytes() ==> op_params_s(op)[i] == ps_height_s()) by {
                if i == 0 {
                    assert(op_params_s(op)[0].name == "tx-code".spec_bytes());
                    assert(op_params_s(op)[0].name != "height".spec_bytes());
                } else if i == 1 {
                    assert(op_params_s(op)[1].name == "quota".spec_bytes());
                    assert(op_params_s(op)[1].name != "height".spec_bytes());
                } else if i == 2 {
                    assert(op_params_s(op)[2].name == "private-key".spec_bytes());
                    assert(op_params_s(op)[2].name != "height".spec_bytes());
                }
            }
        },
        _ => {
            assert(false);
        },
    }
}

#[verifier::spinoff_prover]
#[verifier::rlimit(100)]
proof fn lemma_registry_height_sys_config(op: Operation)
    requires
        op_group(op) == Group::SysConfig,
    ensures
        forall|i: int|
            0 <= i < op_params_s(op).len() ==> ((#[trigger] op_params_s(op)[i]).name
                == "height".spec_bytes() ==> op_params_s(op)[i] == ps_height_s()),
{
    crate::names::lemma_flags_differ_from_height();
    match op {
        Operation::SysGetChainOwner => {
            assert forall|i: int|
                0 <= i < op_params_s(op).len() implies ((#[trigger] op_params_s(op)[i]).name
                    == "height".spec_bytes() ==> op_params_s(op)[i] == ps_height_s()) by {
                if i == 0 {
                    assert(op_params_s(op)[0] == ps_height_s());
                }
            }
        },
        Operation::SysGetDelayBlockNumber => {
            assert forall|i: int|
                0 <= i < op_params_s(op).len() implies ((#[trigger] op_params_s(op)[i]).name
                    == "height".spec_bytes() ==> op_params_s(op)[i] == ps_height_s()) by {
                if i == 0 {
                    assert(op_params_s(op)[0] == ps_height_s());
                }
            }
        },
        Operation::SysGetFeeBackPlatformCheck => {
            assert forall|i: int|
                0 <= i < op_params_s(op).len() implies ((#[trigger] op_params_s(op)[i]).name
                    == "height".spec_bytes() ==> op_params_s(op)[i] == ps_height_s()) by {
                if i == 0 {
                    assert(op_params_s(op)[0] == ps_height_s());
                }
            }
        },
        Operation::SysGetEconomicalModel => {
            assert forall|i: int|
                0 <= i < op_params_s(op).len() implies ((#[trigger] op_params_s(op)[i]).name
                    == "height".spec_bytes() ==> op_params_s(op)[i] == ps_height_s()) by {
                if i == 0 {
                    assert(op_params_s(op)[0] == ps_height_s());
                }
            }
        },
        Operation::SysGetPermissionCheck => {
            assert forall|i: int|
                0 <= i < op_params_s(op).len() implies ((#[trigger] op_params_s(op)[i]).name
                    == "height".spec_bytes() ==> op_params_s(op)[i] == ps_height_s()) by {
                if i == 0 {
                    assert(op_params_s(op)[0] == ps_height_s());
                }
            }
        },
        Operation::SysGetQuotaCheck => {
            assert forall|i: int|
                0 <= i < op_params_s(op).len() implies ((#[trigger] op_params_s(op)[i]).name
                    == "height".spec_bytes() ==> op_params_s(op)[i] == ps_height_s()) by {
                if i == 0 {
                    assert(op_params_s(op)[0] == ps_height_s());
                }
            }
        },
        Operation::SysSetChainName => {
            assert forall|i: int|
                0 <= i < op_params_s(op).len() implies ((#[trigger] op_params_s(op)[i]).name
                    == "height".spec_bytes() ==> op_params_s(op)[i] == ps_height_s()) by {
                if i == 0 {
                    assert(op_params_s(op)[0].name == "chain-name".spec_bytes());
                    assert(op_params_s(op)[0].name != "height".spec_bytes());
                } else if i == 1 {
                    assert(op_params_s(op)[1].name == "quota".spec_bytes());
                    assert(op_params_s(op)[1].name != "height".spec_bytes());
                } else if i == 2 {
                    assert(op_params_s(op)[2].name == "admin-private".spec_bytes());
                    assert(op_params_s(op)[2].name != "height".spec_bytes());
                }
            }
        },
        Operation::SysSetOperator => {
            assert forall|i: int|
                0 <= i < op_params_s(op).len() implies ((#[trigger] op_params_s(op)[i]).name
                    == "height".spec_bytes() ==> op_params_s(op)[i] == ps_height_s()) by {
                if i == 0 {
                    assert(op_params_s(op)[0].name == "operator".spec_bytes());
                    assert(op_params_s(op)[0].name != "height".spec_bytes());
                } else if i == 1 {
                    assert(op_params_s(op)[1].name == "quota".spec_bytes());
                    assert(op_params_s(op)[1].name != "height".spec_bytes());
                } else if i == 2 {
                    assert(op_params_s(op)[2].name == "admin-private".spec_bytes());
                    assert(op_params_s(op)[2].name != "height".spec_bytes());
                }
            }
        },
        Operation::SysSetWebsite => {
            assert forall|i: int|
                0 <= i < op_params_s(op).len() implies ((#[trigger] op_params_s(op)[i]).name
                    == "height".spec_bytes() ==> op_params_s(op)[i] == ps_height_s()) by {
                if i == 0 {
                    assert(op_params_s(op)[0].name == "website".spec_bytes());
                    assert(op_params_s(op)[0].name != "height".spec_bytes());
                } else if i == 1 {
                    assert(op_params_s(op)[1].name == "quota".spec_bytes());
                    assert(op_params_s(op)[1].name != "height".spec_bytes());
                } else if i == 2 {
                    assert(op_params_s(op)[2].name == "admin-private".spec_bytes());
                    assert(op_params_s(op)[2].name != "height".spec_bytes());
                }
            }
        },
        _ => {
            assert(false);
        },
    }
}

#[verifier::spinoff_prover]
#[verifier::rlimit(100)]
proof fn lemma_registry_height_emergency_brake(op: Operation)
    requires
        op_group(op) == Group::EmergencyBrake,
    ensures
        forall|i: int|
            0 <= i < op_params_s(op).len() ==> ((#[trigger] op_params_s(op)[i]).name
                == "height".spec_bytes() ==> op_params_s(op)[i] == ps_height_s()),
{
    crate::names::lemma_flags_differ_from_height();
    match op {
        Operation::BrakeState => {
            assert forall|i: int|
                0 <= i < op_params_s(op).len() implies ((#[trigger] op_params_s(op)[i]).name
                    == "height".spec_bytes() ==> op_params_s(op)[i] == ps_height_s()) by {
                if i == 0 {
                    assert(op_params_s(op)[0] == ps_height_s());
                }
            }
        },
        Operation::BrakeSetState => {
            assert forall|i: int|
                0 <= i < op_params_s(op).len() implies ((#[trigger] op_params_s(op)[i]).name
                    == "height".spec_bytes() ==> op_params_s(op)[i] == ps_height_s()) by {
                if i == 0 {
                    assert(op_params_s(op)[0].name == "state".spec_bytes());
                    assert(op_params_s(op)[0].name != "height".spec_bytes());
                } else if i == 1 {
                    assert(op_params_s(op)[1].name == "quota".spec_bytes());
                    assert(op_params_s(op)[1].name != "height".spec_bytes());
                } else if i == 2 {
                    assert(op_params_s(op)[2].name == "admin-private".spec_bytes());
                    assert(op_params_s(op)[2].name != "height".spec_bytes());
                }
            }
        },
        _ => {
            assert(false);
        },
    }
}

/// Within the registry, only the height flag is named "height": any
/// declared parameter with that name is the height parameter itself.
pub proof fn lemma_registry_height(op: Operation)
    ensures
        forall|i: int|
            0 <= i < op_params_s(op).len() ==> ((#[trigger] op_params_s(op)[i]).name
                == "height".spec_bytes() ==> op_params_s(op)[i] == ps_height_s()),
{
    match op_group(op) {
        Group::NodeManager => lemma_registry_height_node_manager(op),
        Group::QuotaManager => lemma_registry_height_quota_manager(op),
        Group::Group => lemma_registry_height_group(op),
        Group::GroupManagement => lemma_registry_height_group_management(op),
        Group::Role => lemma_registry_height_role(op),
        Group::RoleManagement => lemma_registry_height_role_management(op),
        Group::Authorization => lemma_registry_height_authorization(op),
        Group::Permission => lemma_registry_height_permission(op),
        Group::PermissionManagement => lemma_registry_height_permission_management(op),
        Group::AdminManagement => lemma_registry_height_admin_management(op),
        Group::BatchTx => lemma_registry_height_batch_tx(op),
        Group::SysConfig => lemma_registry_height_sys_config(op),
        Group::EmergencyBrake => lemma_registry_height_emergency_brake(op),
    }
}

pub open spec fn quota_index_node_manager(op: Operation) -> Option<int> {
    match op {
        Operation::NodeListNode => None,
        Operation::NodeListStake => None,
        Operation::NodeGetStatus => None,
        Operation::NodeDeleteNode => Some(2),
        Operation::NodeApproveNode => Some(2),
        Operation::NodeSetStake => Some(3),
        Operation::NodeStakePermillage => None,
        _ => vstd::pervasive::arbitrary(),
    }
}

pub open spec fn quota_index_quota_manager(op: Operation) -> Option<int> {
    match op {
        Operation::QuotaGetBql => None,
        Operation::QuotaGetDefaultAql => None,
        Operation::QuotaGetAccounts => None,
        Operation::QuotaGetQuotas => None,
        Operation::QuotaGetAql => None,
        Operation::QuotaSetBql => Some(2),
        Operation::QuotaSetDefaultAql => Some(2),
        Operation::QuotaSetAql => Some(3),
        _ => vstd::pervasive::arbitrary(),
    }
}

pub open spec fn quota_index_group(op: Operation) -> Option<int> {
    match op {
        Operation::GroupQueryInfo => None,
        Operation::GroupQueryName => None,
        Operation::GroupQueryAccounts => None,
        Operation::GroupQueryChild => None,
        Operation::GroupQueryChildLength => None,
        Operation::GroupQueryParent => None,
        Operation::GroupInGroup => None,
        _ => vstd::pervasive::arbitrary(),
    }
}

pub open spec fn quota_index_group_management(op: Operation) -> Option<int> {
    match op {
        Operation::GmNewGroup => Some(3),
        Operation::GmDeleteGroup => Some(2),
        Operation::GmUpdateGroupName => Some(3),
        Operation::GmAddAccounts => Some(3),
        Operation::GmDeleteAccounts => Some(3),
        Operation::GmCheckScope => None,
        Operation::GmQueryGroups => None,
        _ => vstd::pervasive::arbitrary(),
    }
}

pub open spec fn quota_index_role(op: Operation) -> Option<int> {
    match op {
        Operation::RoleQueryRole => None,
        Operation::RoleQueryName => None,
        Operation::RoleQueryPermissions => None,
        Operation::RoleLengthOfPermissions => None,
        Operation::RoleInPermissions => None,
        _ => vstd::pervasive::arbitrary(),
    }
}

pub open spec fn quota_index_role_management(op: Operation) -> Option<int> {
    match op {
        Operation::RmNewRole => Some(2),
        Operation::RmDeleteRole => Some(1),
        Operation::RmUpdateRoleName => Some(2),
        Operation::RmAddPermissions => Some(2),
        Operation::RmDeletePermissions => Some(2),
        Operation::RmSetRole => Some(2),
        Operation::RmCancelRole => Some(2),
        Operation::RmClearRole => Some(1),
        Operation::RmQueryRoles => None,
        Operation::RmQueryAccounts => None,
        _ => vstd::pervasive::arbitrary(),
    }
}

pub open spec fn quota_index_authorization(op: Operation) -> Option<int> {
    match op {
        Operation::AuthQueryPermissions => None,
        Operation::AuthQueryAccounts => None,
        Operation::AuthQueryAllAccounts => None,
        Operation::AuthCheckResource => None,
        Operation::AuthCheckPermission => None,
        _ => vstd::pervasive::arbitrary(),
    }
}

pub open spec fn quota_index_permission(op: Operation) -> Option<int> {
    match op {
        Operation::PermInPermission => None,
        Operation::PermQueryInfo => None,
        Operation::PermQueryName => None,
        Operation::PermQueryResource => None,
        _ => vstd::pervasive::arbitrary(),
    }
}

pub open spec fn quota_index_permission_management(op: Operation) -> Option<int> {
    match op {
        Operation::PmNewPermission => Some(3),
        Operation::PmDeletePermission => Some(1),
        Operation::PmUpdatePermissionName => Some(2),
        Operation::PmAddResources => Some(3),
        Operation::PmDeleteResources => Some(3),
        Operation::PmSetAuthorization => Some(2),
        Operation::PmSetAuthorizations => Some(2),
        Operation::PmCancelAuthorization => Some(2),
        Operation::PmCancelAuthorizations => Some(2),
        Operation::PmClearAuthorization => Some(1),
        _ => vstd::pervasive::arbitrary(),
    }
}

pub open spec fn quota_index_admin_management(op: Operation) -> Option<int> {
    match op {
        Operation::AdminAdmin => None,
        Operation::AdminIsAdmin => None,
        Operation::AdminUpdate => Some(2),
        _ => vstd::pervasive::arbitrary(),
    }
}

pub open spec fn quota_index_batch_tx(op: Operation) -> Option<int> {
    match op {
        Operation::BatchMultiTxs => Some(1),
        _ => vstd::pervasive::arbitrary(),
    }
}

pub open spec fn quota_index_sys_config(op: Operation) -> Option<int> {
    match op {
        Operation::SysGetChainOwner => None,
        Operation::SysGetDelayBlockNumber => None,
        Operation::SysGetFeeBackPlatformCheck => None,
        Operation::SysGetEconomicalModel => None,
        Operation::SysGetPermissionCheck => None,
        Operation::SysGetQuotaCheck => None,
        Operation::SysSetChainName => Some(1),
        Operation::SysSetOperator => Some(1),
        Operation::SysSetWebsite => Some(1),
        _ => vstd::pervasive::arbitrary(),
    }
}

pub open spec fn quota_index_emergency_brake(op: Operation) -> Option<int> {
    match op {
        Operation::BrakeState => None,
        Operation::BrakeSetState => Some(1),
        _ => vstd::pervasive::arbitrary(),
    }
}

/// The position of the optional quota flag in an operation's parameter
/// list, if the operation takes one.
pub open spec fn quota_index(op: Operation) -> Option<int> {
    match op_group(op) {
        Group::NodeManager => quota_index_node_manager(op),
        Group::QuotaManager => quota_index_quota_manager(op),
        Group::Group => quota_index_group(op),
        Group::GroupManagement => quota_index_group_management(op),
        Group::Role => quota_index_role(op),
        Group::RoleManagement => quota_index_role_management(op),
        Group::Authorization => quota_index_authorization(op),
        Group::Permission => quota_index_permission(op),
        Group::PermissionManagement => quota_index_permission_management(op),
        Group::AdminManagement => quota_index_admin_management(op),
        Group::BatchTx => quota_index_batch_tx(op),
        Group::SysConfig => quota_index_sys_config(op),
        Group::EmergencyBrake => quota_index_emergency_brake(op),
    }
}

proof fn lemma_quota_index_node_manager(op: Operation)
    requires
        op_group(op) == Group::NodeManager,
    ensures
        match quota_index(op) {
            Some(k) => 0 <= k < op_params_s(op).len() && op_params_s(op)[k] == ps_quota_s(),
            None => true,
        },
{
    match op {
        Operation::NodeListNode => {},
        Operation::NodeListStake => {},
        Operation::NodeGetStatus => {},
        Operation::NodeDeleteNode => {},
        Operation::NodeApproveNode => {},
        Operation::NodeSetStake => {},
        Operation::NodeStakePermillage => {},
        _ => {
            assert(false);
        },
    }
}

proof fn lemma_quota_index_quota_manager(op: Operation)
    requires
        op_group(op) == Group::QuotaManager,
    ensures
        match quota_index(op) {
            Some(k) => 0 <= k < op_params_s(op).len() && op_params_s(op)[k] == ps_quota_s(),
            None => true,
        },
{
    match op {
        Operation::QuotaGetBql => {},
        Operation::QuotaGetDefaultAql => {},
        Operation::QuotaGetAccounts => {},
        Operation::QuotaGetQuotas => {},
        Operation::QuotaGetAql => {},
        Operation::QuotaSetBql => {},
        Operation::QuotaSetDefaultAql => {},
        Operation::QuotaSetAql => {},
        _ => {
            assert(false);
        },
    }
}

proof fn lemma_quota_index_group(op: Operation)
    requires
        op_group(op) == Group::Group,
    ensures
        match quota_index(op) {
            Some(k) => 0 <= k < op_params_s(op).len() && op_params_s(op)[k] == ps_quota_s(),
            None => true,
        },
{
    match op {
        Operation::GroupQueryInfo => {},
        Operation::GroupQueryName => {},
        Operation::GroupQueryAccounts => {},
        Operation::GroupQueryChild => {},
        Operation::GroupQueryChildLength => {},
        Operation::GroupQueryParent => {},
        Operation::GroupInGroup => {},
        _ => {
            assert(false);
        },
    }
}

proof fn lemma_quota_index_group_management(op: Operation)
    requires
        op_group(op) == Group::GroupManagement,
    ensures
        match quota_index(op) {
            Some(k) => 0 <= k < op_params_s(op).len() && op_params_s(op)[k] == ps_quota_s(),
            None => true,
        },
{
    match op {
        Operation::GmNewGroup => {},
        Operation::GmDeleteGroup => {},
        Operation::GmUpdateGroupName => {},
        Operation::GmAddAccounts => {},
        Operation::GmDeleteAccounts => {},
        Operation::GmCheckScope => {},
        Operation::GmQueryGroups => {},
        _ => {
            assert(false);
        },
    }
}

proof fn lemma_quota_index_role(op: Operation)
    requires
        op_group(op) == Group::Role,
    ensures
        match quota_index(op) {
            Some(k) => 0 <= k < op_params_s(op).len() && op_params_s(op)[k] == ps_quota_s(),
            None => true,
        },
{
    match op {
        Operation::RoleQueryRole => {},
        Operation::RoleQueryName => {},
        Operation::RoleQueryPermissions => {},
        Operation::RoleLengthOfPermissions => {},
        Operation::RoleInPermissions => {},
        _ => {
            assert(false);
        },
    }
}

proof fn lemma_quota_index_role_management(op: Operation)
    requires
        op_group(op) == Group::RoleManagement,
    ensures
        match quota_index(op) {
            Some(k) => 0 <= k < op_params_s(op).len() && op_params_s(op)[k] == ps_quota_s(),
            None => true,
        },
{
    match op {
        Operation::RmNewRole => {},
        Operation::RmDeleteRole => {},
        Operation::RmUpdateRoleName => {},
        Operation::RmAddPermissions => {},
        Operation::RmDeletePermissions => {},
        Operation::RmSetRole => {},
        Operation::RmCancelRole => {},
        Operation::RmClearRole => {},
        Operation::RmQueryRoles => {},
        Operation::RmQueryAccounts => {},
        _ => {
            assert(false);
        },
    }
}

proof fn lemma_quota_index_authorization(op: Operation)
    requires
        op_group(op) == Group::Authorization,
    ensures
        match quota_index(op) {
            Some(k) => 0 <= k < op_params_s(op).len() && op_params_s(op)[k] == ps_quota_s(),
            None => true,
        },
{
    match op {
        Operation::AuthQueryPermissions => {},
        Operation::AuthQueryAccounts => {},
        Operation::AuthQueryAllAccounts => {},
        Operation::AuthCheckResource => {},
        Operation::AuthCheckPermission => {},
        _ => {
            assert(false);
        },
    }
}

proof fn lemma_quota_index_permission(op: Operation)
    requires
        op_group(op) == Group::Permission,
    ensures
        match quota_index(op) {
            Some(k) => 0 <= k < op_params_s(op).len() && op_params_s(op)[k] == ps_quota_s(),
            None => true,
        },
{
    match op {
        Operation::PermInPermission => {},
        Operation::PermQueryInfo => {},
        Operation::PermQueryName => {},
        Operation::PermQueryResource => {},
        _ => {
            assert(false);
        },
    }
}

proof fn lemma_quota_index_permission_management(op: Operation)
    requires
        op_group(op) == Group::PermissionManagement,
    ensures
        match quota_index(op) {
            Some(k) => 0 <= k < op_params_s(op).len() && op_params_s(op)[k] == ps_quota_s(),
            None => true,
        },
{
    match op {
        Operation::PmNewPermission => {},
        Operation::PmDeletePermission => {},
        Operation::PmUpdatePermissionName => {},
        Operation::PmAddResources => {},
        Operation::PmDeleteResources => {},
        Operation::PmSetAuthorization => {},
        Operation::PmSetAuthorizations => {},
        Operation::PmCancelAuthorization => {},
        Operation::PmCancelAuthorizations => {},
        Operation::PmClearAuthorization => {},
        _ => {
            assert(false);
        },
    }
}

proof fn lemma_quota_index_admin_management(op: Operation)
    requires
        op_group(op) == Group::AdminManagement,
    ensures
        match quota_index(op) {
            Some(k) => 0 <= k < op_params_s(op).len() && op_params_s(op)[k] == ps_quota_s(),
            None => true,
        },
{
    match op {
        Operation::AdminAdmin => {},
        Operation::AdminIsAdmin => {},
        Operation::AdminUpdate => {},
        _ => {
            assert(false);
        },
    }
}

proof fn lemma_quota_index_batch_tx(op: Operation)
    requires
        op_group(op) == Group::BatchTx,
    ensures
        match quota_index(op) {
            Some(k) => 0 <= k < op_params_s(op).len() && op_params_s(op)[k] == ps_quota_s(),
            None => true,
        },
{
    match op {
        Operation::BatchMultiTxs => {},
        _ => {
            assert(false);
        },
    }
}

proof fn lemma_quota_index_sys_config(op: Operation)
    requires
        op_group(op) == Group::SysConfig,
    ensures
        match quota_index(op) {
            Some(k) => 0 <= k < op_params_s(op).len() && op_params_s(op)[k] == ps_quota_s(),
            None => true,
        },
{
    match op {
        Operation::SysGetChainOwner => {},
        Operation::SysGetDelayBlockNumber => {},
        Operation::SysGetFeeBackPlatformCheck => {},
        Operation::SysGetEconomicalModel => {},
        Operation::SysGetPermissionCheck => {},
        Operation::SysGetQuotaCheck => {},
        Operation::SysSetChainName => {},
        Operation::SysSetOperator => {},
        Operation::SysSetWebsite => {},
        _ => {
            assert(false);
        },
    }
}

proof fn lemma_quota_index_emergency_brake(op: Operation)
    requires
        op_group(op) == Group::EmergencyBrake,
    ensures
        match quota_index(op) {
            Some(k) => 0 <= k < op_params_s(op).len() && op_params_s(op)[k] == ps_quota_s(),
            None => true,
        },
{
    match op {
        Operation::BrakeState => {},
        Operation::BrakeSetState => {},
        _ => {
            assert(false);
        },
    }
}

/// Where an operation takes a quota flag, the registry declares it as the
/// shared optional quota parameter.
pub proof fn lemma_quota_index(op: Operation)
    ensures
        match quota_index(op) {
            Some(k) => 0 <= k < op_params_s(op).len() && op_params_s(op)[k] == ps_quota_s(),
            None => true,
        },
{
    match op_group(op) {
        Group::NodeManager => lemma_quota_index_node_manager(op),
        Group::QuotaManager => lemma_quota_index_quota_manager(op),
        Group::Group => lemma_quota_index_group(op),
        Group::GroupManagement => lemma_quota_index_group_management(op),
        Group::Role => lemma_quota_index_role(op),
        Group::RoleManagement => lemma_quota_index_role_management(op),
        Group::Authorization => lemma_quota_index_authorization(op),
        Group::Permission => lemma_quota_index_permission(op),
        Group::PermissionManagement => lemma_quota_index_permission_management(op),
        Group::AdminManagement => lemma_quota_index_admin_management(op),
        Group::BatchTx => lemma_quota_index_batch_tx(op),
        Group::SysConfig => lemma_quota_index_sys_config(op),
        Group::EmergencyBrake => lemma_quota_index_emergency_brake(op),
    }
}

} // verus!
