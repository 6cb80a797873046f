use open_gopro::{
    complete, dispatch, invoke, resolve, shutdown, BluetoothCamera, CommandID,
    CommandResponseCode, Completion, Dispatch, Error, NotificationFrame, Opcode,
    COMMAND_REQ_CHARACTERISTIC, COMMAND_RESP_CHARACTERISTIC,
};
use tokio::sync::oneshot::error::TryRecvError;
use tokio::sync::oneshot::{channel, Receiver, Sender};

type Camera = BluetoothCamera<Sender<NotificationFrame>>;

/// What a driver does with a notification: hands it to the dispatcher and
/// sends what is delivered.
fn notify(camera: &mut Camera, endpoint: u128, raw: &[u8]) -> &'static str {
    match dispatch(&mut camera.command_notifications, endpoint, raw) {
        Dispatch::Delivered { channel, frame } => {
            let _ = channel.send(frame);
            "delivered"
        }
        Dispatch::Orphaned { .. } => "orphaned",
        Dispatch::Malformed => "malformed",
        Dispatch::Foreign => "foreign",
    }
}

/// What a driver does when the wait of a call is over: looks at the channel,
/// then lets the library end the call.
fn finish(
    camera: &mut Camera,
    command: CommandID,
    receiver: &mut Receiver<NotificationFrame>,
) -> Result<Vec<u8>, Error> {
    let completion = match receiver.try_recv() {
        Ok(frame) => Completion::Response(frame),
        Err(TryRecvError::Empty) => Completion::TimedOut,
        Err(TryRecvError::Closed) => Completion::Closed,
    };
    complete(&mut camera.command_notifications, command, completion)
}

#[test]
fn set_shutter_answered_with_success() {
    let mut camera = Camera::connect();
    let (sender, mut receiver) = channel();
    let written = camera.set_shutter(true, sender).unwrap();
    assert_eq!(written, vec![0x03, 0x01, 0x01, 0x01]);

    let echo = [0x02, written[1], 0x00];
    assert_eq!(notify(&mut camera, COMMAND_RESP_CHARACTERISTIC, &echo), "delivered");
    assert_eq!(finish(&mut camera, CommandID::SetShutter, &mut receiver), Ok(vec![]));
    assert!(!camera.command_notifications.is_pending(CommandID::SetShutter));
}

#[test]
fn set_shutter_off_writes_zero() {
    let mut camera = Camera::connect();
    let (sender, _receiver) = channel();
    assert_eq!(camera.set_shutter(false, sender), Ok(vec![0x03, 0x01, 0x01, 0x00]));
    assert!(camera.command_notifications.is_pending(CommandID::SetShutter));
}

#[test]
fn set_shutter_rejected_with_invalid_parameter() {
    let mut camera = Camera::connect();
    let (sender, mut receiver) = channel();
    camera.set_shutter(true, sender).unwrap();

    assert_eq!(notify(&mut camera, COMMAND_RESP_CHARACTERISTIC, &[0x02, 0x01, 0x02]), "delivered");
    assert_eq!(
        finish(&mut camera, CommandID::SetShutter, &mut receiver),
        Err(Error::DeviceRejected(CommandResponseCode::InvalidParameter))
    );
}

#[test]
fn set_shutter_times_out_and_leaves_no_entry() {
    let mut camera = Camera::connect();
    let (sender, mut receiver) = channel();
    camera.set_shutter(true, sender).unwrap();
    assert!(camera.command_notifications.is_pending(CommandID::SetShutter));

    assert_eq!(finish(&mut camera, CommandID::SetShutter, &mut receiver), Err(Error::Timeout));
    assert!(!camera.command_notifications.is_pending(CommandID::SetShutter));
}

#[test]
fn stream_end_closes_the_pending_call() {
    let mut camera = Camera::connect();
    let (sender, mut receiver) = channel();
    camera.set_shutter(true, sender).unwrap();
    let (other_sender, mut other_receiver) = channel();
    invoke(&mut camera.command_notifications, CommandID::Sleep, &[], other_sender).unwrap();

    shutdown(&mut camera.command_notifications);

    assert_eq!(
        finish(&mut camera, CommandID::SetShutter, &mut receiver),
        Err(Error::ConnectionClosed)
    );
    assert_eq!(
        finish(&mut camera, CommandID::Sleep, &mut other_receiver),
        Err(Error::ConnectionClosed)
    );
    assert!(!camera.command_notifications.is_pending(CommandID::SetShutter));
    assert!(!camera.command_notifications.is_pending(CommandID::Sleep));
}

#[test]
fn second_invoke_fails_and_the_first_is_still_answered() {
    let mut camera = Camera::connect();
    let (first, mut first_end) = channel();
    let (second, mut second_end) = channel();
    camera.set_shutter(true, first).unwrap();
    assert_eq!(camera.set_shutter(false, second), Err(Error::CommandAlreadyInFlight));
    assert_eq!(second_end.try_recv(), Err(TryRecvError::Closed));

    assert_eq!(
        notify(&mut camera, COMMAND_RESP_CHARACTERISTIC, &[0x03, 0x01, 0x00, 0x42]),
        "delivered"
    );
    assert_eq!(finish(&mut camera, CommandID::SetShutter, &mut first_end), Ok(vec![0x42]));
}

#[test]
fn in_flight_is_reported_before_frame_too_large() {
    let mut camera = Camera::connect();
    let (first, _first_end) = channel();
    let (second, _second_end) = channel();
    let registry = &mut camera.command_notifications;
    invoke(registry, CommandID::LoadPreset, &[1, 2, 3, 4], first).unwrap();
    assert_eq!(
        invoke(registry, CommandID::LoadPreset, &[0; 18], second),
        Err(Error::CommandAlreadyInFlight)
    );
}

#[test]
fn frame_too_large_enters_nothing() {
    let mut camera = Camera::connect();
    let (sender, mut receiver) = channel();
    let registry = &mut camera.command_notifications;
    assert_eq!(invoke(registry, CommandID::LoadPreset, &[0; 18], sender), Err(Error::FrameTooLarge));
    assert!(!registry.is_pending(CommandID::LoadPreset));
    assert_eq!(receiver.try_recv(), Err(TryRecvError::Closed));
}

#[test]
fn invoke_lays_out_the_frame() {
    let mut camera = Camera::connect();
    let (sender, _receiver) = channel();
    assert_eq!(
        invoke(&mut camera.command_notifications, CommandID::LoadPresetGroup, &[0x03, 0xE8], sender),
        Ok(vec![0x04, 0x3E, 0x02, 0x03, 0xE8])
    );
    assert!(camera.command_notifications.is_pending(CommandID::LoadPresetGroup));
}

#[test]
fn orphan_does_not_touch_other_calls() {
    let mut camera = Camera::connect();
    let (sender, mut receiver) = channel();
    camera.set_shutter(true, sender).unwrap();

    assert_eq!(notify(&mut camera, COMMAND_RESP_CHARACTERISTIC, &[0x02, 0x05, 0x00]), "orphaned");
    assert_eq!(notify(&mut camera, COMMAND_RESP_CHARACTERISTIC, &[0x02, 0x99, 0x00]), "orphaned");
    assert!(camera.command_notifications.is_pending(CommandID::SetShutter));
    assert_eq!(receiver.try_recv(), Err(TryRecvError::Empty));

    assert_eq!(notify(&mut camera, COMMAND_RESP_CHARACTERISTIC, &[0x02, 0x01, 0x00]), "delivered");
    assert_eq!(finish(&mut camera, CommandID::SetShutter, &mut receiver), Ok(vec![]));
}

#[test]
fn malformed_notification_is_passed_over() {
    let mut camera = Camera::connect();
    let (sender, mut receiver) = channel();
    camera.set_shutter(true, sender).unwrap();

    assert_eq!(notify(&mut camera, COMMAND_RESP_CHARACTERISTIC, &[]), "malformed");
    assert_eq!(notify(&mut camera, COMMAND_RESP_CHARACTERISTIC, &[0x01, 0x01]), "malformed");
    assert!(camera.command_notifications.is_pending(CommandID::SetShutter));
    assert_eq!(receiver.try_recv(), Err(TryRecvError::Empty));
}

#[test]
fn notification_from_another_characteristic_is_foreign() {
    let mut camera = Camera::connect();
    let (sender, mut receiver) = channel();
    camera.set_shutter(true, sender).unwrap();

    assert_eq!(notify(&mut camera, COMMAND_REQ_CHARACTERISTIC, &[0x02, 0x01, 0x00]), "foreign");
    assert_eq!(notify(&mut camera, 0, &[0x02, 0x01, 0x00]), "foreign");
    assert!(camera.command_notifications.is_pending(CommandID::SetShutter));
    assert_eq!(receiver.try_recv(), Err(TryRecvError::Empty));
}

#[test]
fn response_after_timeout_is_orphaned() {
    let mut camera = Camera::connect();
    let (sender, mut receiver) = channel();
    camera.set_shutter(true, sender).unwrap();
    assert_eq!(finish(&mut camera, CommandID::SetShutter, &mut receiver), Err(Error::Timeout));

    assert_eq!(notify(&mut camera, COMMAND_RESP_CHARACTERISTIC, &[0x02, 0x01, 0x00]), "orphaned");
    assert_eq!(receiver.try_recv(), Err(TryRecvError::Closed));

    let (again, mut again_end) = channel();
    assert_eq!(camera.set_shutter(true, again), Ok(vec![0x03, 0x01, 0x01, 0x01]));
    assert_eq!(notify(&mut camera, COMMAND_RESP_CHARACTERISTIC, &[0x02, 0x01, 0x00]), "delivered");
    assert_eq!(finish(&mut camera, CommandID::SetShutter, &mut again_end), Ok(vec![]));
}

#[test]
fn write_failure_leaves_no_entry() {
    let mut camera = Camera::connect();
    let (sender, mut receiver) = channel();
    camera.set_shutter(true, sender).unwrap();
    assert_eq!(
        complete(&mut camera.command_notifications, CommandID::SetShutter, Completion::WriteFailed),
        Err(Error::TransportError)
    );
    assert!(!camera.command_notifications.is_pending(CommandID::SetShutter));
    assert_eq!(receiver.try_recv(), Err(TryRecvError::Closed));
}

#[test]
fn complete_leaves_other_calls_waiting() {
    let mut camera = Camera::connect();
    let (shutter, _shutter_end) = channel();
    let (sleep, _sleep_end) = channel();
    camera.set_shutter(true, shutter).unwrap();
    invoke(&mut camera.command_notifications, CommandID::Sleep, &[], sleep).unwrap();
    assert_eq!(
        complete(&mut camera.command_notifications, CommandID::Sleep, Completion::TimedOut),
        Err(Error::Timeout)
    );
    assert!(camera.command_notifications.is_pending(CommandID::SetShutter));
    assert!(!camera.command_notifications.is_pending(CommandID::Sleep));
    assert_eq!(
        complete(&mut camera.command_notifications, CommandID::Sleep, Completion::Closed),
        Err(Error::ConnectionClosed)
    );
    assert!(camera.command_notifications.is_pending(CommandID::SetShutter));
}

#[test]
fn calls_for_different_commands_are_answered_out_of_order() {
    let mut camera = Camera::connect();
    let (shutter, mut shutter_end) = channel();
    let (info, mut info_end) = channel();
    camera.set_shutter(true, shutter).unwrap();
    invoke(&mut camera.command_notifications, CommandID::GetHardwareInfo, &[], info).unwrap();

    assert_eq!(
        notify(&mut camera, COMMAND_RESP_CHARACTERISTIC, &[0x04, 0x3C, 0x00, 0x11, 0x22]),
        "delivered"
    );
    assert_eq!(notify(&mut camera, COMMAND_RESP_CHARACTERISTIC, &[0x02, 0x01, 0x01]), "delivered");
    assert_eq!(
        finish(&mut camera, CommandID::SetShutter, &mut shutter_end),
        Err(Error::DeviceRejected(CommandResponseCode::Error))
    );
    assert_eq!(
        finish(&mut camera, CommandID::GetHardwareInfo, &mut info_end),
        Ok(vec![0x11, 0x22])
    );
}

#[test]
fn resolve_reads_the_status() {
    let frame = |status| NotificationFrame {
        command: Opcode::Known(CommandID::SetShutter),
        status,
        payload: vec![1, 2, 3],
    };
    assert_eq!(resolve(frame(CommandResponseCode::Success)), Ok(vec![1, 2, 3]));
    assert_eq!(
        resolve(frame(CommandResponseCode::Error)),
        Err(Error::DeviceRejected(CommandResponseCode::Error))
    );
    assert_eq!(
        resolve(frame(CommandResponseCode::Unrecognized(0x80))),
        Err(Error::DeviceRejected(CommandResponseCode::Unrecognized(0x80)))
    );
}
