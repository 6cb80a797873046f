//! The camera on its wireless link.
//!
//! Characteristics are named by the 128 bits of their UUID.

use vstd::prelude::*;
use crate::codec::encoded;
use crate::command::CommandID;
use crate::error::Error;
use crate::invoker::{after_invoke, invoke, invoke_result, same_result};
use crate::registry::Registry;

verus! {

/// The service through which the camera's access point is set up.
pub const WIFI_ACCESS_POINT_SERVICE: u128 = 0xb5f90001_aa8d_11e3_9046_0002a5d5c51b;

/// The service that a camera advertises, by which a scan finds it.
pub const CONTROL_QUERY_SERVICE: u128 = 0x0000fea6_0000_1000_8000_00805f9b34fb;

/// The characteristic to which command frames are written.
pub const COMMAND_REQ_CHARACTERISTIC: u128 = 0xb5f90072_aa8d_11e3_9046_0002a5d5c51b;

/// The characteristic on which the camera answers commands.
pub const COMMAND_RESP_CHARACTERISTIC: u128 = 0xb5f90073_aa8d_11e3_9046_0002a5d5c51b;

/// A camera that is connected over Bluetooth: the calls that wait for its
/// responses. `S` is the sending half of the channel on which a caller
/// waits.
pub struct BluetoothCamera<S> {
    pub command_notifications: Registry<S>,
}

impl<S> View for BluetoothCamera<S> {
    type V = Map<CommandID, S>;

    /// The commands that wait for a response, each with its channel.
    open spec fn view(&self) -> Map<CommandID, S> {
        self.command_notifications@
    }
}

/// The parameters of the shutter command: one byte, 1 to start and 0 to stop.
pub open spec fn shutter_parameters(on: bool) -> Seq<u8> {
    seq![if on { 1u8 } else { 0u8 }]
}

impl<S> BluetoothCamera<S> {
    /// The state of a connection that has just been made: nothing waits.
    pub fn connect() -> (camera: Self)
        ensures
            camera@ == Map::<CommandID, S>::empty(),
    {
        BluetoothCamera { command_notifications: Registry::new() }
    }

    /// Starts the call that starts or stops the shutter, as `invoke` starts
    /// any call: the frame to write is `[3, 1, 1, 1]` to start and
    /// `[3, 1, 1, 0]` to stop.
    pub fn set_shutter(&mut self, on: bool, channel: S) -> (frame: Result<Vec<u8>, Error>)
        ensures
            same_result(frame, invoke_result(old(self)@, CommandID::SetShutter, shutter_parameters(on))),
            final(self)@ == after_invoke(
                old(self)@,
                CommandID::SetShutter,
                shutter_parameters(on),
                channel,
            ),
            frame matches Ok(bytes) ==> bytes@ == seq![3u8, 1u8, 1u8, if on { 1u8 } else { 0u8 }],
    {
        let parameters: [u8; 1] = [if on { 1 } else { 0 }];
        assert(parameters@ == shutter_parameters(on));
        let frame = invoke(
            &mut self.command_notifications,
            CommandID::SetShutter,
            parameters.as_slice(),
            channel,
        );
        proof {
            if frame is Ok {
                assert(encoded(CommandID::SetShutter, shutter_parameters(on)) == seq![
                    3u8,
                    1u8,
                    1u8,
                    if on { 1u8 } else { 0u8 },
                ]);
            }
        }
        frame
    }
}

} // verus!
