//! The seal on `CameraControl`: only the cameras of this crate control one.

use vstd::prelude::*;

verus! {

pub trait Sealed {

}

impl Sealed for crate::HttpCamera {

}

impl<S> Sealed for crate::BluetoothCamera<S> {

}

} // verus!
