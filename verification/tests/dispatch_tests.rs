use scm_dispatch::command::{
    AdminCmd, BatchCmd, BrakeCmd, Cmd, GroupMgmtCmd, QuotaCmd, SysCmd,
};
use scm_dispatch::dispatch::{dispatch, ClientContext};
use scm_dispatch::errors::Error;
use scm_dispatch::report::{report, OperationResult, Session};
use scm_dispatch::schema::{op_params, parse_group, parse_operation, Group, Operation, ParamKind};
use scm_dispatch::validate::{BlockHeight, HashScheme};

const ADDR: &str = "0x35cf9a1b5e1d2fdcfadd73bbdca980b5fb8eb657";
const KEY: &str = "3ef2627393529fed043c7dbfd9358a4ae47a88a59949b07e7631722fd6959002";

fn ctx() -> ClientContext {
    ClientContext {
        uri: "http://127.0.0.1:1337".to_string(),
        debug: false,
        scheme: HashScheme::Secp256k1,
        key: None,
    }
}

fn bag(pairs: &[(&str, &str)]) -> Vec<(String, String)> {
    pairs.iter().map(|(k, v)| (k.to_string(), v.to_string())).collect()
}

#[test]
fn unknown_group_fails_with_unknown_command() {
    let mut c = ctx();
    let r = dispatch(&mut c, "NoSuchManager", "listNode", &bag(&[]));
    assert_eq!(
        r,
        Err(Error::UnknownCommand {
            group: "NoSuchManager".to_string(),
            operation: "listNode".to_string(),
        })
    );
    assert_eq!(c, ctx());
}

#[test]
fn unknown_operation_in_known_group_fails_identically() {
    let mut c = ctx();
    let r = dispatch(&mut c, "QuotaManager", "noSuchOp", &bag(&[]));
    assert_eq!(
        r,
        Err(Error::UnknownCommand {
            group: "QuotaManager".to_string(),
            operation: "noSuchOp".to_string(),
        })
    );
}

#[test]
fn height_defaults_to_latest_when_omitted() {
    let mut c1 = ctx();
    let with_default = dispatch(&mut c1, "NodeManager", "listNode", &bag(&[]));
    let mut c2 = ctx();
    let with_flag = dispatch(&mut c2, "NodeManager", "listNode", &bag(&[("height", "latest")]));
    assert_eq!(with_default, with_flag);
    match with_default {
        Ok(Cmd::NodeManager(scm_dispatch::command::NodeCmd::ListNode { height })) => {
            assert_eq!(height, BlockHeight::Latest);
        }
        other => panic!("unexpected dispatch result: {other:?}"),
    }
}

#[test]
fn explicit_height_is_parsed_as_number() {
    let mut c = ctx();
    let r = dispatch(&mut c, "SysConfig", "getEconomicalModel", &bag(&[("height", "100")]));
    assert_eq!(
        r,
        Ok(Cmd::SysConfig(SysCmd::GetEconomicalModel { height: BlockHeight::Number(100) }))
    );
    // a read-only query needs no private key and leaves the context alone
    assert_eq!(c, ctx());
}

#[test]
fn bad_height_fails_with_invalid_height() {
    let mut c = ctx();
    let r = dispatch(&mut c, "SysConfig", "getEconomicalModel", &bag(&[("height", "soon")]));
    assert_eq!(r, Err(Error::InvalidHeight { param: "height".to_string() }));
}

#[test]
fn set_aql_resolves_all_parameters_and_installs_key() {
    let mut c = ctx();
    let args = bag(&[("address", ADDR), ("quota-limit", "1000000"), ("admin-private", KEY)]);
    let r = dispatch(&mut c, "QuotaManager", "setAQL", &args);
    assert_eq!(
        r,
        Ok(Cmd::QuotaManager(QuotaCmd::SetAql {
            quota_limit: 1_000_000,
            admin_key: KEY.to_string(),
            address: ADDR.to_string(),
            quota: None,
        }))
    );
    // the resolved key is installed into the context, and nothing else moves
    assert_eq!(c.key, Some(KEY.to_string()));
    assert_eq!(c.uri, ctx().uri);
    assert_eq!(c.debug, ctx().debug);
    assert_eq!(c.scheme, ctx().scheme);
}

#[test]
fn write_without_quota_leaves_quota_to_the_facade() {
    let mut c = ctx();
    let args = bag(&[("quota-limit", "4096"), ("admin-private", KEY)]);
    let r = dispatch(&mut c, "QuotaManager", "setBQL", &args);
    match r {
        Ok(Cmd::QuotaManager(QuotaCmd::SetBql { quota, quota_limit, .. })) => {
            assert_eq!(quota, None);
            assert_eq!(quota_limit, 4096);
        }
        other => panic!("unexpected dispatch result: {other:?}"),
    }
}

#[test]
fn write_with_quota_carries_the_override() {
    let mut c = ctx();
    let args = bag(&[("quota-limit", "4096"), ("admin-private", KEY), ("quota", "30000")]);
    let r = dispatch(&mut c, "QuotaManager", "setBQL", &args);
    match r {
        Ok(Cmd::QuotaManager(QuotaCmd::SetBql { quota, .. })) => {
            assert_eq!(quota, Some(30000));
        }
        other => panic!("unexpected dispatch result: {other:?}"),
    }
}

#[test]
fn missing_required_parameter_short_circuits() {
    let mut c = ctx();
    let args = bag(&[("quota-limit", "1000000"), ("admin-private", KEY)]);
    let r = dispatch(&mut c, "QuotaManager", "setAQL", &args);
    assert_eq!(r, Err(Error::MissingRequiredParameter { param: "address".to_string() }));
    // validation failed before any key was installed
    assert_eq!(c, ctx());
}

#[test]
fn non_boolean_state_fails_before_any_call() {
    let mut c = ctx();
    let args = bag(&[("state", "notaboolean"), ("admin-private", KEY)]);
    let r = dispatch(&mut c, "EmergencyBrake", "setState", &args);
    assert_eq!(r, Err(Error::InvalidFormat { param: "state".to_string() }));
    assert_eq!(c, ctx());
}

#[test]
fn boolean_state_resolves() {
    let mut c = ctx();
    let args = bag(&[("state", "true"), ("admin-private", KEY)]);
    let r = dispatch(&mut c, "EmergencyBrake", "setState", &args);
    assert_eq!(
        r,
        Ok(Cmd::EmergencyBrake(BrakeCmd::SetState {
            state: true,
            quota: None,
            admin_key: KEY.to_string(),
        }))
    );
}

#[test]
fn bad_private_key_fails_with_invalid_key() {
    let mut c = ctx();
    let args = bag(&[("address", ADDR), ("admin-private", "deadbeef")]);
    let r = dispatch(&mut c, "AdminManagement", "update", &args);
    assert_eq!(r, Err(Error::InvalidKey { param: "admin-private".to_string() }));
    assert_eq!(c.key, None);
}

#[test]
fn bad_address_fails_with_invalid_format() {
    let mut c = ctx();
    let args = bag(&[("address", "0x1234"), ("admin-private", KEY)]);
    let r = dispatch(&mut c, "AdminManagement", "update", &args);
    assert_eq!(r, Err(Error::InvalidFormat { param: "address".to_string() }));
}

#[test]
fn admin_update_resolves() {
    let mut c = ctx();
    let args = bag(&[("address", ADDR), ("admin-private", KEY), ("quota", "50000")]);
    let r = dispatch(&mut c, "AdminManagement", "update", &args);
    assert_eq!(
        r,
        Ok(Cmd::AdminManagement(AdminCmd::Update {
            address: ADDR.to_string(),
            admin_key: KEY.to_string(),
            quota: Some(50000),
        }))
    );
    assert_eq!(c.key, Some(KEY.to_string()));
}

#[test]
fn repeated_tx_code_flags_collect_in_order() {
    let mut c = ctx();
    let args = bag(&[("tx-code", "0xdead"), ("tx-code", "0xbeef"), ("private-key", KEY)]);
    let r = dispatch(&mut c, "BatchTx", "multiTxs", &args);
    assert_eq!(
        r,
        Ok(Cmd::BatchTx(BatchCmd::MultiTxs {
            tx_codes: vec!["0xdead".to_string(), "0xbeef".to_string()],
            quota: None,
            key: KEY.to_string(),
        }))
    );
}

#[test]
fn non_hex_tx_code_fails() {
    let mut c = ctx();
    let args = bag(&[("tx-code", "0xdead"), ("tx-code", "nothex"), ("private-key", KEY)]);
    let r = dispatch(&mut c, "BatchTx", "multiTxs", &args);
    assert_eq!(r, Err(Error::InvalidFormat { param: "tx-code".to_string() }));
}

#[test]
fn group_management_write_resolves_free_text() {
    let mut c = ctx();
    let args = bag(&[
        ("origin", "0xffffffffffffffffffffffffffffffffff02000b"),
        ("name", "testGroup"),
        ("accounts", "0xaaaa,0xbbbb"),
        ("private-key", KEY),
    ]);
    let r = dispatch(&mut c, "GroupManagement", "newGroup", &args);
    assert_eq!(
        r,
        Ok(Cmd::GroupManagement(GroupMgmtCmd::NewGroup {
            origin: "0xffffffffffffffffffffffffffffffffff02000b".to_string(),
            name: "testGroup".to_string(),
            accounts: "0xaaaa,0xbbbb".to_string(),
            quota: None,
            key: KEY.to_string(),
        }))
    );
}

#[test]
fn first_occurrence_of_a_flag_wins() {
    let mut c = ctx();
    let args = bag(&[("height", "7"), ("height", "9")]);
    let r = dispatch(&mut c, "QuotaManager", "getBQL", &args);
    assert_eq!(r, Ok(Cmd::QuotaManager(QuotaCmd::GetBql { height: BlockHeight::Number(7) })));
}

#[test]
fn repeated_read_only_query_is_identical() {
    let args = bag(&[("height", "42")]);
    let mut c1 = ctx();
    let r1 = dispatch(&mut c1, "QuotaManager", "getQuotas", &args);
    let mut c2 = ctx();
    let r2 = dispatch(&mut c2, "QuotaManager", "getQuotas", &args);
    assert_eq!(r1, r2);
    assert_eq!(c1, c2);
    assert_eq!(c1, ctx());
}

#[test]
fn report_records_last_output_on_success() {
    let mut s = Session::new();
    let out = report(OperationResult::Query("0x01".to_string()), &mut s);
    assert_eq!(out, Ok("0x01".to_string()));
    assert_eq!(s.last_output, Some("0x01".to_string()));
    let out2 = report(OperationResult::TxReceipt("0xabc".to_string()), &mut s);
    assert_eq!(out2, Ok("0xabc".to_string()));
    assert_eq!(s.last_output, Some("0xabc".to_string()));
}

#[test]
fn report_leaves_session_alone_on_failure() {
    let mut s = Session::new();
    report(OperationResult::Query("0x01".to_string()), &mut s).unwrap();
    let err = Error::Transport { message: "connection refused".to_string() };
    let out = report(OperationResult::Failure(err.clone()), &mut s);
    assert_eq!(out, Err(err));
    assert_eq!(s.last_output, Some("0x01".to_string()));
}

#[test]
fn registry_exposes_declared_parameters() {
    let g = parse_group("QuotaManager").unwrap();
    let op = parse_operation(g, "setAQL").unwrap();
    assert_eq!(op, Operation::QuotaSetAql);
    let params = op_params(op);
    let names: Vec<&str> = params.iter().map(|p| p.name.as_str()).collect();
    assert_eq!(names, vec!["quota-limit", "admin-private", "address", "quota"]);
    assert_eq!(params[0].kind, ParamKind::U64Dec);
    assert!(params[0].required);
    assert_eq!(params[1].kind, ParamKind::PrivateKey);
    assert_eq!(params[2].kind, ParamKind::Address);
    assert!(!params[3].required);
}

#[test]
fn every_listed_group_parses() {
    for (name, g) in [
        ("NodeManager", Group::NodeManager),
        ("QuotaManager", Group::QuotaManager),
        ("Group", Group::Group),
        ("GroupManagement", Group::GroupManagement),
        ("Role", Group::Role),
        ("RoleManagement", Group::RoleManagement),
        ("Authorization", Group::Authorization),
        ("Permission", Group::Permission),
        ("PermissionManagement", Group::PermissionManagement),
        ("AdminManagement", Group::AdminManagement),
        ("BatchTx", Group::BatchTx),
        ("SysConfig", Group::SysConfig),
        ("EmergencyBrake", Group::EmergencyBrake),
    ] {
        assert_eq!(parse_group(name), Some(g));
    }
    assert_eq!(parse_group("nodeManager"), None);
    assert_eq!(parse_group(""), None);
}

#[test]
fn role_management_set_role_resolves_positionally() {
    let mut c = ctx();
    let role = "0x0000000000000000000000000000000000000001";
    let args = bag(&[("account", ADDR), ("address", role), ("private-key", KEY)]);
    let r = dispatch(&mut c, "RoleManagement", "setRole", &args);
    assert_eq!(
        r,
        Ok(Cmd::RoleManagement(scm_dispatch::command::RoleMgmtCmd::SetRole {
            account: ADDR.to_string(),
            address: role.to_string(),
            quota: None,
            key: KEY.to_string(),
        }))
    );
}

#[test]
fn node_get_status_requires_its_address() {
    let mut c = ctx();
    let r = dispatch(&mut c, "NodeManager", "getStatus", &bag(&[]));
    assert_eq!(r, Err(Error::MissingRequiredParameter { param: "address".to_string() }));
    let r2 = dispatch(&mut c, "NodeManager", "getStatus", &bag(&[("address", ADDR)]));
    assert_eq!(
        r2,
        Ok(Cmd::NodeManager(scm_dispatch::command::NodeCmd::GetStatus {
            address: ADDR.to_string(),
            height: BlockHeight::Latest,
        }))
    );
}

#[test]
fn authorization_check_resource_validates_function_hash_as_hex() {
    let mut c = ctx();
    let contract = "0xffffffffffffffffffffffffffffffffff020005";
    let ok = dispatch(
        &mut c,
        "Authorization",
        "checkResource",
        &bag(&[("account", ADDR), ("contract", contract), ("function-hash", "0x60fe47b1")]),
    );
    assert_eq!(
        ok,
        Ok(Cmd::Authorization(scm_dispatch::command::AuthCmd::CheckResource {
            account: ADDR.to_string(),
            contract: contract.to_string(),
            function_hash: "0x60fe47b1".to_string(),
            height: BlockHeight::Latest,
        }))
    );
    let bad = dispatch(
        &mut c,
        "Authorization",
        "checkResource",
        &bag(&[("account", ADDR), ("contract", contract), ("function-hash", "not-hex")]),
    );
    assert_eq!(bad, Err(Error::InvalidFormat { param: "function-hash".to_string() }));
}

#[test]
fn permission_management_function_hashes_pass_through_to_the_facade() {
    // the delimited function-hash list is split by the facade, not here,
    // so it is accepted verbatim; the contracts list must be hex overall
    let mut c = ctx();
    let r = dispatch(
        &mut c,
        "PermissionManagement",
        "newPermission",
        &bag(&[
            ("name", "perm"),
            ("contracts", "0xffffffffffffffffffffffffffffffffff020005"),
            ("function-hashes", "0x60fe47b1,0x9507d39a"),
            ("private-key", KEY),
        ]),
    );
    assert_eq!(
        r,
        Ok(Cmd::PermissionManagement(scm_dispatch::command::PermMgmtCmd::NewPermission {
            name: "perm".to_string(),
            contracts: "0xffffffffffffffffffffffffffffffffff020005".to_string(),
            function_hashes: "0x60fe47b1,0x9507d39a".to_string(),
            quota: None,
            key: KEY.to_string(),
        }))
    );
    let bad = dispatch(
        &mut c,
        "PermissionManagement",
        "newPermission",
        &bag(&[
            ("name", "perm"),
            ("contracts", "not-hex"),
            ("function-hashes", "0x60fe47b1"),
            ("private-key", KEY),
        ]),
    );
    assert_eq!(bad, Err(Error::InvalidFormat { param: "contracts".to_string() }));
}

#[test]
fn role_reads_resolve() {
    let mut c = ctx();
    let r = dispatch(&mut c, "Role", "queryName", &bag(&[("address", ADDR), ("height", "9")]));
    assert_eq!(
        r,
        Ok(Cmd::Role(scm_dispatch::command::RoleCmd::QueryName {
            address: ADDR.to_string(),
            height: BlockHeight::Number(9),
        }))
    );
}

#[test]
fn sys_config_writes_resolve_free_text() {
    let mut c = ctx();
    let r = dispatch(
        &mut c,
        "SysConfig",
        "setChainName",
        &bag(&[("chain-name", "test-chain"), ("admin-private", KEY)]),
    );
    assert_eq!(
        r,
        Ok(Cmd::SysConfig(SysCmd::SetChainName {
            chain_name: "test-chain".to_string(),
            quota: None,
            admin_key: KEY.to_string(),
        }))
    );
    assert_eq!(c.key, Some(KEY.to_string()));
}

#[test]
fn group_in_group_takes_both_addresses() {
    let mut c = ctx();
    let account = "0x0000000000000000000000000000000000000042";
    let r = dispatch(
        &mut c,
        "Group",
        "inGroup",
        &bag(&[("address", ADDR), ("account", account)]),
    );
    assert_eq!(
        r,
        Ok(Cmd::Group(scm_dispatch::command::GroupCmd::InGroup {
            address: ADDR.to_string(),
            account: account.to_string(),
            height: BlockHeight::Latest,
        }))
    );
}
