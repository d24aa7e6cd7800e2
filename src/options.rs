//! Engine configuration, and a builder for it.
use vstd::prelude::*;
use vstd::string::StringExecFns;

verus! {

/// How much the engine logs.
#[derive(PartialEq, Eq, Structural, Clone, Copy, Debug)]
pub enum LogLevel {
    Trace,
    Debug,
    Info,
    Warn,
    Error,
}

/// Everything the engine needs to know to run, already checked.
pub struct EngineOptions {
    /// Key for the crash-reporting service.
    pub sentry_api_key: Option<String>,
    /// Name of the pipe to a frontend.
    pub ipc_pipe_name: Option<String>,
    /// Device configuration, as JSON text.
    pub device_config_json: Option<String>,
    /// User device configuration, as JSON text.
    pub user_device_config_json: Option<String>,
    /// Text added to the advertised instance name.
    pub mdns_suffix: Option<String>,
    /// Name the server gives connecting clients.
    pub server_name: String,
    /// Port of the client-facing websocket.
    pub websocket_port: Option<u16>,
    /// Port on which a frontend connects.
    pub frontend_websocket_port: Option<u16>,
    /// Port of the device websocket server.
    pub device_websocket_server_port: Option<u16>,
    /// Ping timeout for clients, in milliseconds; 0 for none.
    pub max_ping_time: u32,
    /// Log level for messages to the frontend; none for no log messages.
    pub log_level: Option<LogLevel>,
    /// Report crashes to the crash-reporting service.
    pub crash_reporting: bool,
    /// The client-facing websocket listens on all interfaces, not only on loopback.
    pub websocket_use_all_interfaces: bool,
    /// The frontend runs in this process.
    pub frontend_in_process_channel: bool,
    /// Clients may send raw device messages.
    pub allow_raw_messages: bool,
    /// Bluetooth LE devices.
    pub use_bluetooth_le: bool,
    /// Serial port devices.
    pub use_serial_port: bool,
    /// HID devices.
    pub use_hid: bool,
    /// Lovense dongles on a serial port.
    pub use_lovense_dongle_serial: bool,
    /// Lovense dongles over HID.
    pub use_lovense_dongle_hid: bool,
    /// XInput gamepads.
    pub use_xinput: bool,
    /// The Lovense Connect app.
    pub use_lovense_connect: bool,
    /// Devices that connect over a websocket server.
    pub use_device_websocket_server: bool,
    /// Fault injection: crash the main task once serving.
    pub crash_main_thread: bool,
    /// Fault injection: crash a spawned task.
    pub crash_task_thread: bool,
    /// Advertise each session on the local network until a client connects.
    pub broadcast_server_mdns: bool,
}

/// An exact copy of an optional string.
fn copy_text(o: &Option<String>) -> (r: Option<String>)
    ensures
        r == *o,
{
    match o {
        Some(s) => Some(s.clone()),
        None => None,
    }
}

impl EngineOptions {
    /// Nothing is set: no ports, no devices, an empty server name, no log level.
    pub open spec fn is_default(&self) -> bool {
        &&& self.sentry_api_key is None
        &&& self.ipc_pipe_name is None
        &&& self.device_config_json is None
        &&& self.user_device_config_json is None
        &&& self.mdns_suffix is None
        &&& self.server_name@.len() == 0
        &&& self.websocket_port is None
        &&& self.frontend_websocket_port is None
        &&& self.device_websocket_server_port is None
        &&& self.max_ping_time == 0
        &&& self.log_level is None
        &&& !self.crash_reporting
        &&& !self.websocket_use_all_interfaces
        &&& !self.frontend_in_process_channel
        &&& !self.allow_raw_messages
        &&& !self.use_bluetooth_le
        &&& !self.use_serial_port
        &&& !self.use_hid
        &&& !self.use_lovense_dongle_serial
        &&& !self.use_lovense_dongle_hid
        &&& !self.use_xinput
        &&& !self.use_lovense_connect
        &&& !self.use_device_websocket_server
        &&& !self.crash_main_thread
        &&& !self.crash_task_thread
        &&& !self.broadcast_server_mdns
    }

    /// An exact copy of these options.
    pub fn copy(&self) -> (r: EngineOptions)
        ensures
            r == *self,
    {
        EngineOptions {
            sentry_api_key: copy_text(&self.sentry_api_key),
            ipc_pipe_name: copy_text(&self.ipc_pipe_name),
            device_config_json: copy_text(&self.device_config_json),
            user_device_config_json: copy_text(&self.user_device_config_json),
            mdns_suffix: copy_text(&self.mdns_suffix),
            server_name: self.server_name.clone(),
            websocket_port: self.websocket_port,
            frontend_websocket_port: self.frontend_websocket_port,
            device_websocket_server_port: self.device_websocket_server_port,
            max_ping_time: self.max_ping_time,
            log_level: self.log_level,
            crash_reporting: self.crash_reporting,
            websocket_use_all_interfaces: self.websocket_use_all_interfaces,
            frontend_in_process_channel: self.frontend_in_process_channel,
            allow_raw_messages: self.allow_raw_messages,
            use_bluetooth_le: self.use_bluetooth_le,
            use_serial_port: self.use_serial_port,
            use_hid: self.use_hid,
            use_lovense_dongle_serial: self.use_lovense_dongle_serial,
            use_lovense_dongle_hid: self.use_lovense_dongle_hid,
            use_xinput: self.use_xinput,
            use_lovense_connect: self.use_lovense_connect,
            use_device_websocket_server: self.use_device_websocket_server,
            crash_main_thread: self.crash_main_thread,
            crash_task_thread: self.crash_task_thread,
            broadcast_server_mdns: self.broadcast_server_mdns,
        }
    }

    pub fn sentry_api_key(&self) -> (r: &Option<String>)
        ensures
            *r == self.sentry_api_key,
    {
        &self.sentry_api_key
    }

    pub fn ipc_pipe_name(&self) -> (r: &Option<String>)
        ensures
            *r == self.ipc_pipe_name,
    {
        &self.ipc_pipe_name
    }

    pub fn device_config_json(&self) -> (r: &Option<String>)
        ensures
            *r == self.device_config_json,
    {
        &self.device_config_json
    }

    pub fn user_device_config_json(&self) -> (r: &Option<String>)
        ensures
            *r == self.user_device_config_json,
    {
        &self.user_device_config_json
    }

    pub fn mdns_suffix(&self) -> (r: &Option<String>)
        ensures
            *r == self.mdns_suffix,
    {
        &self.mdns_suffix
    }

    pub fn server_name(&self) -> (r: &String)
        ensures
            *r == self.server_name,
    {
        &self.server_name
    }

    pub fn websocket_port(&self) -> (r: Option<u16>)
        ensures
            r == self.websocket_port,
    {
        self.websocket_port
    }

    pub fn frontend_websocket_port(&self) -> (r: Option<u16>)
        ensures
            r == self.frontend_websocket_port,
    {
        self.frontend_websocket_port
    }

    pub fn device_websocket_server_port(&self) -> (r: Option<u16>)
        ensures
            r == self.device_websocket_server_port,
    {
        self.device_websocket_server_port
    }

    pub fn max_ping_time(&self) -> (r: u32)
        ensures
            r == self.max_ping_time,
    {
        self.max_ping_time
    }

    pub fn log_level(&self) -> (r: Option<LogLevel>)
        ensures
            r == self.log_level,
    {
        self.log_level
    }

    pub fn crash_reporting(&self) -> (r: bool)
        ensures
            r == self.crash_reporting,
    {
        self.crash_reporting
    }

    pub fn websocket_use_all_interfaces(&self) -> (r: bool)
        ensures
            r == self.websocket_use_all_interfaces,
    {
        self.websocket_use_all_interfaces
    }

    pub fn frontend_in_process_channel(&self) -> (r: bool)
        ensures
            r == self.frontend_in_process_channel,
    {
        self.frontend_in_process_channel
    }

    pub fn allow_raw_messages(&self) -> (r: bool)
        ensures
            r == self.allow_raw_messages,
    {
        self.allow_raw_messages
    }

    pub fn use_bluetooth_le(&self) -> (r: bool)
        ensures
            r == self.use_bluetooth_le,
    {
        self.use_bluetooth_le
    }

    pub fn use_serial_port(&self) -> (r: bool)
        ensures
            r == self.use_serial_port,
    {
        self.use_serial_port
    }

    pub fn use_hid(&self) -> (r: bool)
        ensures
            r == self.use_hid,
    {
        self.use_hid
    }

    pub fn use_lovense_dongle_serial(&self) -> (r: bool)
        ensures
            r == self.use_lovense_dongle_serial,
    {
        self.use_lovense_dongle_serial
    }

    pub fn use_lovense_dongle_hid(&self) -> (r: bool)
        ensures
            r == self.use_lovense_dongle_hid,
    {
        self.use_lovense_dongle_hid
    }

    pub fn use_xinput(&self) -> (r: bool)
        ensures
            r == self.use_xinput,
    {
        self.use_xinput
    }

    pub fn use_lovense_connect(&self) -> (r: bool)
        ensures
            r == self.use_lovense_connect,
    {
        self.use_lovense_connect
    }

    pub fn use_device_websocket_server(&self) -> (r: bool)
        ensures
            r == self.use_device_websocket_server,
    {
        self.use_device_websocket_server
    }

    pub fn crash_main_thread(&self) -> (r: bool)
        ensures
            r == self.crash_main_thread,
    {
        self.crash_main_thread
    }

    pub fn crash_task_thread(&self) -> (r: bool)
        ensures
            r == self.crash_task_thread,
    {
        self.crash_task_thread
    }

    pub fn broadcast_server_mdns(&self) -> (r: bool)
        ensures
            r == self.broadcast_server_mdns,
    {
        self.broadcast_server_mdns
    }
}

impl Default for EngineOptions {
    fn default() -> (r: EngineOptions)
        ensures
            r.is_default(),
    {
        EngineOptions {
            sentry_api_key: None,
            ipc_pipe_name: None,
            device_config_json: None,
            user_device_config_json: None,
            mdns_suffix: None,
            server_name: String::new(),
            websocket_port: None,
            frontend_websocket_port: None,
            device_websocket_server_port: None,
            max_ping_time: 0,
            log_level: None,
            crash_reporting: false,
            websocket_use_all_interfaces: false,
            frontend_in_process_channel: false,
            allow_raw_messages: false,
            use_bluetooth_le: false,
            use_serial_port: false,
            use_hid: false,
            use_lovense_dongle_serial: false,
            use_lovense_dongle_hid: false,
            use_xinput: false,
            use_lovense_connect: false,
            use_device_websocket_server: false,
            crash_main_thread: false,
            crash_task_thread: false,
            broadcast_server_mdns: false,
        }
    }
}

/// Builds [`EngineOptions`] one setting at a time.
pub struct EngineOptionsBuilder {
    options: EngineOptions,
}

impl View for EngineOptionsBuilder {
    type V = EngineOptions;

    closed spec fn view(&self) -> EngineOptions {
        self.options
    }
}

impl Default for EngineOptionsBuilder {
    fn default() -> (r: EngineOptionsBuilder)
        ensures
            r@.is_default(),
    {
        EngineOptionsBuilder { options: EngineOptions::default() }
    }
}

impl EngineOptionsBuilder {
    pub fn sentry_api_key(&mut self, value: &str) -> (r: &mut Self)
        ensures
            r@ == (EngineOptions { sentry_api_key: r@.sentry_api_key, ..old(self)@ }),
            r@.sentry_api_key matches Some(v) && v@ == value@,
            final(self)@ == final(r)@,
    {
        self.options.sentry_api_key = Some(String::from_str(value));
        self
    }

    pub fn ipc_pipe_name(&mut self, value: &str) -> (r: &mut Self)
        ensures
            r@ == (EngineOptions { ipc_pipe_name: r@.ipc_pipe_name, ..old(self)@ }),
            r@.ipc_pipe_name matches Some(v) && v@ == value@,
            final(self)@ == final(r)@,
    {
        self.options.ipc_pipe_name = Some(String::from_str(value));
        self
    }

    pub fn device_config_json(&mut self, value: &str) -> (r: &mut Self)
        ensures
            r@ == (EngineOptions { device_config_json: r@.device_config_json, ..old(self)@ }),
            r@.device_config_json matches Some(v) && v@ == value@,
            final(self)@ == final(r)@,
    {
        self.options.device_config_json = Some(String::from_str(value));
        self
    }

    pub fn user_device_config_json(&mut self, value: &str) -> (r: &mut Self)
        ensures
            r@ == (EngineOptions { user_device_config_json: r@.user_device_config_json, ..old(self)@ }),
            r@.user_device_config_json matches Some(v) && v@ == value@,
            final(self)@ == final(r)@,
    {
        self.options.user_device_config_json = Some(String::from_str(value));
        self
    }

    pub fn mdns_suffix(&mut self, value: &str) -> (r: &mut Self)
        ensures
            r@ == (EngineOptions { mdns_suffix: r@.mdns_suffix, ..old(self)@ }),
            r@.mdns_suffix matches Some(v) && v@ == value@,
            final(self)@ == final(r)@,
    {
        self.options.mdns_suffix = Some(String::from_str(value));
        self
    }

    pub fn server_name(&mut self, value: &str) -> (r: &mut Self)
        ensures
            r@ == (EngineOptions { server_name: r@.server_name, ..old(self)@ }),
            r@.server_name@ == value@,
            final(self)@ == final(r)@,
    {
        self.options.server_name = String::from_str(value);
        self
    }

    pub fn crash_main_thread(&mut self, value: bool) -> (r: &mut Self)
        ensures
            r@ == (EngineOptions { crash_main_thread: value, ..old(self)@ }),
            final(self)@ == final(r)@,
    {
        self.options.crash_main_thread = value;
        self
    }

    pub fn crash_task_thread(&mut self, value: bool) -> (r: &mut Self)
        ensures
            r@ == (EngineOptions { crash_task_thread: value, ..old(self)@ }),
            final(self)@ == final(r)@,
    {
        self.options.crash_task_thread = value;
        self
    }

    pub fn crash_reporting(&mut self, value: bool) -> (r: &mut Self)
        ensures
            r@ == (EngineOptions { crash_reporting: value, ..old(self)@ }),
            final(self)@ == final(r)@,
    {
        self.options.crash_reporting = value;
        self
    }

    pub fn websocket_use_all_interfaces(&mut self, value: bool) -> (r: &mut Self)
        ensures
            r@ == (EngineOptions { websocket_use_all_interfaces: value, ..old(self)@ }),
            final(self)@ == final(r)@,
    {
        self.options.websocket_use_all_interfaces = value;
        self
    }

    pub fn allow_raw_messages(&mut self, value: bool) -> (r: &mut Self)
        ensures
            r@ == (EngineOptions { allow_raw_messages: value, ..old(self)@ }),
            final(self)@ == final(r)@,
    {
        self.options.allow_raw_messages = value;
        self
    }

    pub fn use_bluetooth_le(&mut self, value: bool) -> (r: &mut Self)
        ensures
            r@ == (EngineOptions { use_bluetooth_le: value, ..old(self)@ }),
            final(self)@ == final(r)@,
    {
        self.options.use_bluetooth_le = value;
        self
    }

    pub fn use_serial_port(&mut self, value: bool) -> (r: &mut Self)
        ensures
            r@ == (EngineOptions { use_serial_port: value, ..old(self)@ }),
            final(self)@ == final(r)@,
    {
        self.options.use_serial_port = value;
        self
    }

    pub fn use_hid(&mut self, value: bool) -> (r: &mut Self)
        ensures
            r@ == (EngineOptions { use_hid: value, ..old(self)@ }),
            final(self)@ == final(r)@,
    {
        self.options.use_hid = value;
        self
    }

    pub fn use_lovense_dongle_serial(&mut self, value: bool) -> (r: &mut Self)
        ensures
            r@ == (EngineOptions { use_lovense_dongle_serial: value, ..old(self)@ }),
            final(self)@ == final(r)@,
    {
        self.options.use_lovense_dongle_serial = value;
        self
    }

    pub fn use_lovense_dongle_hid(&mut self, value: bool) -> (r: &mut Self)
        ensures
            r@ == (EngineOptions { use_lovense_dongle_hid: value, ..old(self)@ }),
            final(self)@ == final(r)@,
    {
        self.options.use_lovense_dongle_hid = value;
        self
    }

    pub fn use_xinput(&mut self, value: bool) -> (r: &mut Self)
        ensures
            r@ == (EngineOptions { use_xinput: value, ..old(self)@ }),
            final(self)@ == final(r)@,
    {
        self.options.use_xinput = value;
        self
    }

    pub fn use_lovense_connect(&mut self, value: bool) -> (r: &mut Self)
        ensures
            r@ == (EngineOptions { use_lovense_connect: value, ..old(self)@ }),
            final(self)@ == final(r)@,
    {
        self.options.use_lovense_connect = value;
        self
    }

    pub fn use_device_websocket_server(&mut self, value: bool) -> (r: &mut Self)
        ensures
            r@ == (EngineOptions { use_device_websocket_server: value, ..old(self)@ }),
            final(self)@ == final(r)@,
    {
        self.options.use_device_websocket_server = value;
        self
    }

    pub fn frontend_in_process_channel(&mut self, value: bool) -> (r: &mut Self)
        ensures
            r@ == (EngineOptions { frontend_in_process_channel: value, ..old(self)@ }),
            final(self)@ == final(r)@,
    {
        self.options.frontend_in_process_channel = value;
        self
    }

    pub fn broadcast_server_mdns(&mut self, value: bool) -> (r: &mut Self)
        ensures
            r@ == (EngineOptions { broadcast_server_mdns: value, ..old(self)@ }),
            final(self)@ == final(r)@,
    {
        self.options.broadcast_server_mdns = value;
        self
    }

    pub fn websocket_port(&mut self, port: u16) -> (r: &mut Self)
        ensures
            r@ == (EngineOptions { websocket_port: Some(port), ..old(self)@ }),
            final(self)@ == final(r)@,
    {
        self.options.websocket_port = Some(port);
        self
    }

    pub fn frontend_websocket_port(&mut self, port: u16) -> (r: &mut Self)
        ensures
            r@ == (EngineOptions { frontend_websocket_port: Some(port), ..old(self)@ }),
            final(self)@ == final(r)@,
    {
        self.options.frontend_websocket_port = Some(port);
        self
    }

    pub fn device_websocket_server_port(&mut self, port: u16) -> (r: &mut Self)
        ensures
            r@ == (EngineOptions { device_websocket_server_port: Some(port), ..old(self)@ }),
            final(self)@ == final(r)@,
    {
        self.options.device_websocket_server_port = Some(port);
        self
    }

    pub fn max_ping_time(&mut self, value: u32) -> (r: &mut Self)
        ensures
            r@ == (EngineOptions { max_ping_time: value, ..old(self)@ }),
            final(self)@ == final(r)@,
    {
        self.options.max_ping_time = value;
        self
    }

    pub fn log_level(&mut self, level: LogLevel) -> (r: &mut Self)
        ensures
            r@ == (EngineOptions { log_level: Some(level), ..old(self)@ }),
            final(self)@ == final(r)@,
    {
        self.options.log_level = Some(level);
        self
    }

    /// The options set so far.
    pub fn finish(&mut self) -> (r: EngineOptions)
        ensures
            r == old(self)@,
            final(self)@ == old(self)@,
    {
        self.options.copy()
    }
}

} // verus!
