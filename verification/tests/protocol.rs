use rui::protocol::{
    Envelope, IpcMessage, ServiceError, GPU_SERVICE, INVALID_PID, NO_WINDOW, NULL_BASE,
    RENDER_SERVICE, WM_SERVICE,
};

#[test]
fn services_are_found_by_their_names() {
    assert_eq!(WM_SERVICE, "wm");
    assert_eq!(RENDER_SERVICE, "render");
    assert_eq!(GPU_SERVICE, "gpu-driver");
}

#[test]
fn sentinels_are_zero() {
    assert_eq!(INVALID_PID, 0);
    assert_eq!(NO_WINDOW, 0);
    assert_eq!(NULL_BASE, 0);
}

#[test]
fn messages_compare_by_kind_and_fields() {
    let a = IpcMessage::MouseClick { x: 150, y: 250 };
    assert_eq!(a, IpcMessage::MouseClick { x: 150, y: 250 });
    assert_ne!(a, IpcMessage::MouseMove { x: 150, y: 250 });
    assert_ne!(a, IpcMessage::MouseClick { x: 150, y: 251 });
    let e = Envelope { to: 123, message: a };
    assert_eq!(e, Envelope { to: 123, message: a });
    assert_ne!(e, Envelope { to: 124, message: a });
    assert_ne!(ServiceError::NotFound, ServiceError::InvalidHandle);
}
