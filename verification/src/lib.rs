//! Control of GoPro cameras over the Open GoPro protocol.
//!
//! The crate holds the part of a client that decides: how command frames are
//! laid out, how responses are told apart, which caller a notification belongs
//! to, and how a base address becomes a request. It performs no input or
//! output itself. A driver writes the frames, awaits the notifications and
//! hands every outcome back.

use vstd::prelude::*;

pub mod ble;
pub mod codec;
pub mod command;
pub mod dispatcher;
pub mod error;
pub mod http;
pub mod invoker;
mod private;
pub mod registry;
pub mod status;

pub use ble::{
    BluetoothCamera, COMMAND_REQ_CHARACTERISTIC, COMMAND_RESP_CHARACTERISTIC,
    CONTROL_QUERY_SERVICE, WIFI_ACCESS_POINT_SERVICE,
};
pub use codec::{decode, encode, NotificationFrame, Opcode};
pub use command::CommandID;
pub use dispatcher::{dispatch, shutdown, Dispatch};
pub use error::Error;
pub use http::HttpCamera;
pub use invoker::{complete, invoke, resolve, Completion};
pub use registry::{Delivery, Registry};
pub use status::CommandResponseCode;

verus! {

/// What every camera over HTTP can be asked for. Each method gives the
/// address that the driver is to request with GET; any status but success in
/// the answer is an error. No method changes the camera's base address.
pub trait CameraControl: private::Sealed {
    /// The text of the base address that requests are made against.
    spec fn base_text(&self) -> Seq<char>;

    /// The address to request so that the shutter starts (`on`) or stops.
    fn set_shutter(&mut self, on: bool) -> (request: Result<url::Url, crate::Error>)
        ensures
            final(self).base_text() == old(self).base_text(),
            http::is_request_for(request, old(self).base_text(), http::spec_shutter_path(on)),
    ;

    /// Reset the keep alive time to keep the camera from entering sleep mode.
    ///
    /// If the intention is to keep the camera alive forever, then the best
    /// practice is to send this command every 3 seconds.
    fn keep_alive(&mut self) -> (request: Result<url::Url, crate::Error>)
        ensures
            final(self).base_text() == old(self).base_text(),
            http::is_request_for(request, old(self).base_text(), http::KEEP_ALIVE_PATH@),
    ;
}

} // verus!
