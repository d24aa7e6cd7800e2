//! Which device communication managers a server gets.
use vstd::prelude::*;
use crate::options::EngineOptions;

verus! {

#[derive(PartialEq, Eq, Structural, Clone, Copy, Debug)]
pub enum CommManager {
    BluetoothLe,
    LovenseConnect,
    LovenseHidDongle,
    LovenseSerialDongle,
    SerialPort,
    /// Gamepads; only Windows has them.
    XInput,
    /// A websocket server that devices connect to, on all interfaces, on the
    /// given port or its default one.
    DeviceWebsocketServer { port: Option<u16> },
}

pub open spec fn when(c: bool, m: CommManager) -> Seq<CommManager> {
    if c {
        seq![m]
    } else {
        Seq::empty()
    }
}

/// The managers that `options` enable, in the order they are added.
pub open spec fn comm_managers_of(options: EngineOptions) -> Seq<CommManager> {
    when(options.use_bluetooth_le, CommManager::BluetoothLe) + when(
        options.use_lovense_connect,
        CommManager::LovenseConnect,
    ) + when(options.use_lovense_dongle_hid, CommManager::LovenseHidDongle) + when(
        options.use_lovense_dongle_serial,
        CommManager::LovenseSerialDongle,
    ) + when(options.use_serial_port, CommManager::SerialPort) + when(
        options.use_xinput,
        CommManager::XInput,
    ) + when(
        options.use_device_websocket_server,
        CommManager::DeviceWebsocketServer { port: options.device_websocket_server_port },
    )
}

fn push_when(v: &mut Vec<CommManager>, c: bool, m: CommManager)
    ensures
        final(v)@ == old(v)@ + when(c, m),
{
    if c {
        v.push(m);
    }
    assert(v@ =~= old(v)@ + when(c, m));
}

/// The device communication managers to set up for `options`.
pub fn setup_server_device_comm_managers(options: &EngineOptions) -> (r: Vec<CommManager>)
    ensures
        r@ == comm_managers_of(*options),
{
    let mut v: Vec<CommManager> = Vec::new();
    push_when(&mut v, options.use_bluetooth_le, CommManager::BluetoothLe);
    push_when(&mut v, options.use_lovense_connect, CommManager::LovenseConnect);
    push_when(&mut v, options.use_lovense_dongle_hid, CommManager::LovenseHidDongle);
    push_when(&mut v, options.use_lovense_dongle_serial, CommManager::LovenseSerialDongle);
    push_when(&mut v, options.use_serial_port, CommManager::SerialPort);
    push_when(&mut v, options.use_xinput, CommManager::XInput);
    push_when(
        &mut v,
        options.use_device_websocket_server,
        CommManager::DeviceWebsocketServer { port: options.device_websocket_server_port },
    );
    v
}

} // verus!
