use intiface_engine::cli::IntifaceCLIArguments;
use intiface_engine::devices::{setup_server_device_comm_managers, CommManager};
use intiface_engine::{EngineOptions, EngineOptionsBuilder, LogLevel};

#[test]
fn builder_sets_each_option() {
    let mut b = EngineOptionsBuilder::default();
    b.sentry_api_key("key")
        .ipc_pipe_name("pipe")
        .device_config_json("{}")
        .user_device_config_json("{\"user\":1}")
        .server_name("Test Server")
        .crash_reporting(true)
        .websocket_use_all_interfaces(true)
        .allow_raw_messages(true)
        .use_bluetooth_le(true)
        .use_serial_port(true)
        .use_hid(true)
        .use_lovense_dongle_serial(true)
        .use_lovense_dongle_hid(true)
        .use_xinput(true)
        .use_lovense_connect(true)
        .use_device_websocket_server(true)
        .websocket_port(12345)
        .frontend_websocket_port(12346)
        .frontend_in_process_channel(true)
        .device_websocket_server_port(54817)
        .max_ping_time(500)
        .log_level(LogLevel::Debug)
        .broadcast_server_mdns(true)
        .mdns_suffix("desk");
    let o = b.finish();
    assert_eq!(o.sentry_api_key().as_deref(), Some("key"));
    assert_eq!(o.ipc_pipe_name().as_deref(), Some("pipe"));
    assert_eq!(o.device_config_json().as_deref(), Some("{}"));
    assert_eq!(o.user_device_config_json().as_deref(), Some("{\"user\":1}"));
    assert_eq!(o.server_name(), "Test Server");
    assert!(o.crash_reporting());
    assert!(o.websocket_use_all_interfaces());
    assert!(o.allow_raw_messages());
    assert!(o.use_bluetooth_le() && o.use_serial_port() && o.use_hid());
    assert!(o.use_lovense_dongle_serial() && o.use_lovense_dongle_hid());
    assert!(o.use_xinput() && o.use_lovense_connect() && o.use_device_websocket_server());
    assert_eq!(o.websocket_port(), Some(12345));
    assert_eq!(o.frontend_websocket_port(), Some(12346));
    assert!(o.frontend_in_process_channel());
    assert_eq!(o.device_websocket_server_port(), Some(54817));
    assert_eq!(o.max_ping_time(), 500);
    assert_eq!(o.log_level(), Some(LogLevel::Debug));
    assert!(o.broadcast_server_mdns());
    assert_eq!(o.mdns_suffix().as_deref(), Some("desk"));
    assert!(!o.crash_main_thread() && !o.crash_task_thread());
}

#[test]
fn ipc_pipe_name_does_not_touch_other_keys() {
    let mut b = EngineOptionsBuilder::default();
    b.ipc_pipe_name("pipe");
    let o = b.finish();
    assert_eq!(o.sentry_api_key(), &None);
    assert_eq!(o.ipc_pipe_name().as_deref(), Some("pipe"));
    let mut b = EngineOptionsBuilder::default();
    b.crash_task_thread(true);
    let o = b.finish();
    assert!(o.crash_task_thread());
    assert!(!o.crash_main_thread());
}

#[test]
fn default_options_are_empty() {
    let o = EngineOptions::default();
    assert_eq!(o.server_name(), "");
    assert_eq!(o.websocket_port(), None);
    assert_eq!(o.log_level(), None);
    assert!(!o.use_bluetooth_le());
    assert_eq!(o.max_ping_time(), 0);
    assert!(setup_server_device_comm_managers(&o).is_empty());
}

fn arguments() -> IntifaceCLIArguments {
    IntifaceCLIArguments {
        version: false,
        server_version: false,
        crash_reporting: false,
        websocket_use_all_interfaces: true,
        websocket_port: Some(12345),
        frontend_websocket_port: None,
        server_name: "Buttplug Server".to_string(),
        device_config_file: Some("devices.json".to_string()),
        user_device_config_file: None,
        max_ping_time: 0,
        log: Some(LogLevel::Info),
        allow_raw: false,
        use_bluetooth_le: true,
        use_serial: true,
        use_hid: false,
        use_lovense_dongle_serial: false,
        use_lovense_dongle_hid: true,
        use_xinput: false,
        use_lovense_connect: false,
        use_device_websocket_server: true,
        device_websocket_server_port: Some(54817),
        crash_main_thread: false,
        crash_task_thread: false,
    }
}

#[test]
fn arguments_give_options() {
    let o = arguments().to_options(Some("{\"version\":1}".to_string()), None);
    assert_eq!(o.server_name(), "Buttplug Server");
    assert_eq!(o.websocket_port(), Some(12345));
    assert!(o.websocket_use_all_interfaces());
    assert_eq!(o.device_config_json().as_deref(), Some("{\"version\":1}"));
    assert_eq!(o.user_device_config_json(), &None);
    assert_eq!(o.log_level(), Some(LogLevel::Info));
    assert!(o.use_bluetooth_le() && o.use_serial_port() && o.use_lovense_dongle_hid());
    assert!(!o.use_hid());
}

#[test]
fn comm_managers_follow_options() {
    let o = arguments().to_options(None, None);
    assert_eq!(
        setup_server_device_comm_managers(&o),
        vec![
            CommManager::BluetoothLe,
            CommManager::LovenseHidDongle,
            CommManager::SerialPort,
            CommManager::DeviceWebsocketServer { port: Some(54817) },
        ]
    );
}
