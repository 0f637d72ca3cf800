use validator_whitelist::args::{ArgumentError, ValidatorWhitelistArgs};
use validator_whitelist::invoke::{
    admin_channel_address, after_call, after_connect, plan_invocation, CallEvent, ConnectEvent,
    InvocationError, InvocationStep,
};

#[test]
fn admin_address_is_fixed_under_the_data_directory() {
    let data_dir = "/var/node/ledger".to_string();
    assert_eq!(
        admin_channel_address(&data_dir),
        "/var/node/ledger/admin.rpc".to_string()
    );
}

#[test]
fn missing_path_aborts_before_any_connection() {
    let identity = "/var/node/ledger".to_string();
    let argv = vec!["validator-whitelist".to_string()];
    assert_eq!(
        plan_invocation(&identity, &argv),
        InvocationStep::Abort(ArgumentError::MissingRequiredValue("path".to_string()))
    );
}

#[test]
fn well_formed_invocation_plans_one_connect() {
    let identity = "/var/node/ledger".to_string();
    let argv = vec!["validator-whitelist".to_string(), "list.json".to_string()];
    assert_eq!(
        plan_invocation(&identity, &argv),
        InvocationStep::Connect {
            address: "/var/node/ledger/admin.rpc".to_string(),
            request: ValidatorWhitelistArgs {
                path: "list.json".to_string(),
            },
        }
    );
}

#[test]
fn no_listener_yields_unreachable_with_transport_detail() {
    let request = ValidatorWhitelistArgs {
        path: "list.json".to_string(),
    };
    let event = ConnectEvent::Failed("connection refused".to_string());
    assert_eq!(
        after_connect(request, event),
        Err(InvocationError::Unreachable(
            "connection refused".to_string()
        ))
    );
}

#[test]
fn established_connection_passes_the_request_through() {
    let request = ValidatorWhitelistArgs {
        path: "list.json".to_string(),
    };
    assert_eq!(
        after_connect(request, ConnectEvent::Established),
        Ok(ValidatorWhitelistArgs {
            path: "list.json".to_string(),
        })
    );
}

#[test]
fn accepted_call_reports_success() {
    assert_eq!(after_call(CallEvent::Succeeded), Ok(()));
}

#[test]
fn rejected_call_carries_the_remote_detail() {
    let event = CallEvent::Rejected("malformed whitelist file".to_string());
    assert_eq!(
        after_call(event),
        Err(InvocationError::Rejected(
            "malformed whitelist file".to_string()
        ))
    );
}

#[test]
fn whitelist_invocation_scenario() {
    let identity = "/var/node/ledger".to_string();

    let bare = vec!["validator-whitelist".to_string()];
    assert_eq!(
        plan_invocation(&identity, &bare),
        InvocationStep::Abort(ArgumentError::MissingRequiredValue("path".to_string()))
    );

    let argv = vec!["validator-whitelist".to_string(), "test.json".to_string()];
    let step = plan_invocation(&identity, &argv);
    match step {
        InvocationStep::Connect { address, request } => {
            assert_eq!(address, "/var/node/ledger/admin.rpc".to_string());
            assert_eq!(
                request,
                ValidatorWhitelistArgs {
                    path: "test.json".to_string(),
                }
            );
            let event = ConnectEvent::Failed("no such file or directory".to_string());
            assert_eq!(
                after_connect(request, event),
                Err(InvocationError::Unreachable(
                    "no such file or directory".to_string()
                ))
            );
        }
        InvocationStep::Abort(e) => panic!("well-formed invocation aborted: {:?}", e),
    }
}
