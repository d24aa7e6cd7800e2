//! Command-line arguments, and the options they give.
use vstd::prelude::*;
use vstd::string::StringExecFns;
use crate::options::{EngineOptions, LogLevel};

verus! {

/// The command line, parsed.
pub struct IntifaceCLIArguments {
    /// Print the version and exit.
    pub version: bool,
    /// Print the server version and exit.
    pub server_version: bool,
    pub crash_reporting: bool,
    pub websocket_use_all_interfaces: bool,
    pub websocket_port: Option<u16>,
    pub frontend_websocket_port: Option<u16>,
    pub server_name: String,
    /// Path of the device configuration file.
    pub device_config_file: Option<String>,
    /// Path of the user device configuration file.
    pub user_device_config_file: Option<String>,
    pub max_ping_time: u32,
    pub log: Option<LogLevel>,
    pub allow_raw: bool,
    pub use_bluetooth_le: bool,
    pub use_serial: bool,
    pub use_hid: bool,
    pub use_lovense_dongle_serial: bool,
    pub use_lovense_dongle_hid: bool,
    pub use_xinput: bool,
    pub use_lovense_connect: bool,
    pub use_device_websocket_server: bool,
    pub device_websocket_server_port: Option<u16>,
    pub crash_main_thread: bool,
    pub crash_task_thread: bool,
}

/// The options that `args` ask for, given the text of the configuration files
/// that they name.
pub open spec fn options_of(
    args: IntifaceCLIArguments,
    device_config_json: Option<String>,
    user_device_config_json: Option<String>,
) -> EngineOptions {
    EngineOptions {
        sentry_api_key: None,
        ipc_pipe_name: None,
        device_config_json,
        user_device_config_json,
        mdns_suffix: None,
        server_name: args.server_name,
        websocket_port: args.websocket_port,
        frontend_websocket_port: args.frontend_websocket_port,
        device_websocket_server_port: args.device_websocket_server_port,
        max_ping_time: args.max_ping_time,
        log_level: args.log,
        crash_reporting: args.crash_reporting,
        websocket_use_all_interfaces: args.websocket_use_all_interfaces,
        frontend_in_process_channel: false,
        allow_raw_messages: args.allow_raw,
        use_bluetooth_le: args.use_bluetooth_le,
        use_serial_port: args.use_serial,
        use_hid: args.use_hid,
        use_lovense_dongle_serial: args.use_lovense_dongle_serial,
        use_lovense_dongle_hid: args.use_lovense_dongle_hid,
        use_xinput: args.use_xinput,
        use_lovense_connect: args.use_lovense_connect,
        use_device_websocket_server: args.use_device_websocket_server,
        crash_main_thread: args.crash_main_thread,
        crash_task_thread: args.crash_task_thread,
        broadcast_server_mdns: false,
    }
}

impl IntifaceCLIArguments {
    /// The options these arguments ask for. The caller reads the files that
    /// `device_config_file` and `user_device_config_file` name, and passes their text.
    pub fn to_options(
        &self,
        device_config_json: Option<String>,
        user_device_config_json: Option<String>,
    ) -> (r: EngineOptions)
        ensures
            r == options_of(*self, device_config_json, user_device_config_json),
    {
        EngineOptions {
            sentry_api_key: None,
            ipc_pipe_name: None,
            device_config_json,
            user_device_config_json,
            mdns_suffix: None,
            server_name: self.server_name.clone(),
            websocket_port: self.websocket_port,
            frontend_websocket_port: self.frontend_websocket_port,
            device_websocket_server_port: self.device_websocket_server_port,
            max_ping_time: self.max_ping_time,
            log_level: self.log,
            crash_reporting: self.crash_reporting,
            websocket_use_all_interfaces: self.websocket_use_all_interfaces,
            frontend_in_process_channel: false,
            allow_raw_messages: self.allow_raw,
            use_bluetooth_le: self.use_bluetooth_le,
            use_serial_port: self.use_serial,
            use_hid: self.use_hid,
            use_lovense_dongle_serial: self.use_lovense_dongle_serial,
            use_lovense_dongle_hid: self.use_lovense_dongle_hid,
            use_xinput: self.use_xinput,
            use_lovense_connect: self.use_lovense_connect,
            use_device_websocket_server: self.use_device_websocket_server,
            crash_main_thread: self.crash_main_thread,
            crash_task_thread: self.crash_task_thread,
            broadcast_server_mdns: false,
        }
    }
}

} // verus!
