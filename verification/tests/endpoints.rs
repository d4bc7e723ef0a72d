use reqwest::StatusCode;
use smarthome_sdk_rs::{
    Auth, Client, ExportRequest, HmsRunMode, HomescriptArg, HomescriptCodeRequest,
    HomescriptData, HomescriptType, Method, Next, Reply, Request, TokenResponse, User,
    VersionResponse,
};

fn client(auth: Auth) -> Client {
    let version = VersionResponse {
        smarthome_version: "0.5.2".to_string(),
        go_version: "go1.21".to_string(),
    };
    let state = Client::create("http://box.local", auth)
        .unwrap()
        .on_version(Reply::Answered { status: StatusCode::OK, body: Ok(version) })
        .unwrap();
    match state.advance().unwrap() {
        Next::Ready(client) => client,
        Next::Login(state, _) => state
            .on_login(Reply::Answered {
                status: StatusCode::OK,
                body: Ok(TokenResponse {
                    username: "carol".to_string(),
                    token_label: "phone".to_string(),
                }),
            })
            .unwrap(),
    }
}

fn anonymous() -> Client {
    client(Auth::NoAuth)
}

fn goes_to<T>(request: &Request<T>, method: Method, url: &str) {
    assert_eq!(request.method, method);
    assert_eq!(request.url.as_str(), url);
}

#[test]
fn requests_without_a_body() {
    let c = anonymous();
    let plain = [
        (c.debug_info_request().unwrap(), "http://box.local/api/debug"),
        (c.list_personal_homescripts_request().unwrap(), "http://box.local/api/homescript/list/personal"),
        (c.personal_switches_request().unwrap(), "http://box.local/api/devices/list/personal/rich"),
        (c.all_switches_request().unwrap(), "http://box.local/api/devices/list/all/rich"),
        (c.power_usage_request(true).unwrap(), "http://box.local/api/power/usage/all"),
        (c.power_usage_request(false).unwrap(), "http://box.local/api/power/usage/day"),
        (c.personal_rooms_request().unwrap(), "http://box.local/api/room/list/personal"),
        (c.camera_feed_request("front-door").unwrap(), "http://box.local/api/camera/feed/front-door"),
    ];
    for (request, url) in plain {
        goes_to(&request, Method::Get, url);
        assert!(request.body.is_none());
        assert!(request.query.is_empty());
    }
}

#[test]
fn every_request_carries_the_credentials_of_the_client() {
    let c = client(Auth::QueryPassword(User {
        username: "alice".to_string(),
        password: "pw".to_string(),
    }));
    assert_eq!(c.username(), Some("alice"));
    let expected = vec![
        ("username".to_string(), "alice".to_string()),
        ("password".to_string(), "pw".to_string()),
    ];
    assert_eq!(c.debug_info_request().unwrap().query, expected);
    assert_eq!(c.camera_feed_request("x").unwrap().query, expected);
    assert_eq!(c.set_power_request("lamp", true).unwrap().query, expected);
    assert_eq!(c.build_request::<()>(Method::Delete, "/api/any", None).unwrap().query, expected);
    let c = client(Auth::SessionToken("t".to_string()));
    assert_eq!(c.username(), Some("carol"));
    assert!(c.debug_info_request().unwrap().query.is_empty());
    assert!(c.set_power_request("lamp", true).unwrap().query.is_empty());
}

#[test]
fn export_request() {
    let c = anonymous();
    let what = ExportRequest { include_profile_pictures: true, include_cache_data: false };
    let request = c.export_config_request(&what).unwrap();
    goes_to(&request, Method::Post, "http://box.local/api/system/config/export");
    let body = request.body.unwrap();
    assert!(body.include_profile_pictures);
    assert!(!body.include_cache_data);
}

#[test]
fn script_record_requests() {
    let c = anonymous();
    let data = HomescriptData {
        id: "night".to_string(),
        name: "Night".to_string(),
        description: "".to_string(),
        quick_actions_enabled: false,
        scheduler_enabled: true,
        is_widget: false,
        code: "switch('lamp', off)".to_string(),
        md_icon: "code".to_string(),
        type_: HomescriptType::Normal,
        workspace: "default".to_string(),
    };
    let request = c.create_homescript_request(&data).unwrap();
    goes_to(&request, Method::Post, "http://box.local/api/homescript/add");
    assert_eq!(request.body.unwrap().id, "night");
    let request = c.modify_homescript_request(&data).unwrap();
    goes_to(&request, Method::Put, "http://box.local/api/homescript/modify");
    assert_eq!(request.body.unwrap().code, "switch('lamp', off)");
    let request = c.delete_homescript_request("night").unwrap();
    goes_to(&request, Method::Delete, "http://box.local/api/homescript/delete");
    assert_eq!(request.body.unwrap().id, "night");
}

#[test]
fn script_run_requests() {
    let c = anonymous();
    let args = || vec![HomescriptArg { key: "room", value: "kitchen" }];
    let request = c.exec_homescript_code_request("print(1)", args(), HmsRunMode::Execute).unwrap();
    goes_to(&request, Method::Post, "http://box.local/api/homescript/run/live");
    match request.body {
        Some(HomescriptCodeRequest::Run(run)) => {
            assert_eq!(run.code, "print(1)");
            assert_eq!(run.args.len(), 1);
            assert_eq!(run.args[0].key, "room");
            assert_eq!(run.args[0].value, "kitchen");
        }
        other => panic!("expected a run, got {:?}", other),
    }
    let mode = HmsRunMode::Lint { module_name: "main", is_driver: true };
    let request = c.exec_homescript_code_request("print(1)", args(), mode).unwrap();
    goes_to(&request, Method::Post, "http://box.local/api/homescript/lint/live");
    match request.body {
        Some(HomescriptCodeRequest::Lint(lint)) => {
            assert_eq!(lint.code, "print(1)");
            assert_eq!(lint.module_name, "main");
            assert!(lint.is_driver);
            assert_eq!(lint.args.len(), 1);
        }
        other => panic!("expected a check, got {:?}", other),
    }
    let request = c.exec_homescript_request("night", args(), false).unwrap();
    goes_to(&request, Method::Post, "http://box.local/api/homescript/run");
    assert_eq!(request.body.unwrap().id, "night");
    let request = c.exec_homescript_request("night", vec![], true).unwrap();
    goes_to(&request, Method::Post, "http://box.local/api/homescript/lint");
    assert!(request.body.unwrap().args.is_empty());
}

#[test]
fn power_request() {
    let c = anonymous();
    let request = c.set_power_request("lamp", false).unwrap();
    goes_to(&request, Method::Post, "http://box.local/api/devices/action/power");
    let body = request.body.unwrap();
    assert_eq!(body.device_id, "lamp");
    assert!(!body.power.unwrap().state);
}
