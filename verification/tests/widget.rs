use rui::color::Rgb;
use rui::protocol::{Envelope, IpcMessage, ServiceError};
use rui::widget::{icon_color, point_in_bounds, Button, Command, Icon, Widget, Window};

const RENDER: u64 = 7;
const WM: u64 = 8;

fn blue() -> Rgb {
    Rgb { r: 0, g: 120, b: 215 }
}

#[test]
fn button_keeps_what_it_was_made_with() {
    let b = Button::new(50, 50, 100, 30, "click me", blue(), Command::Nothing);
    assert_eq!((b.x, b.y, b.width, b.height), (50, 50, 100, 30));
    assert_eq!(b.text, "click me");
    assert_eq!(b.color, blue());
    assert_eq!(b.command, Command::Nothing);
}

#[test]
fn button_draws_its_rectangle() {
    let b = Button::new(50, 50, 100, 30, "click me", blue(), Command::Nothing);
    assert_eq!(
        b.draw(1, RENDER),
        Envelope {
            to: RENDER,
            message: IpcMessage::RenderDrawRect { x: 50, y: 50, w: 100, h: 30, color: blue() },
        }
    );
}

#[test]
fn button_click_inside_gives_the_command() {
    let command =
        Command::Send(Envelope { to: WM, message: IpcMessage::WmFocusWindow { window_id: 4 } });
    let mut b = Button::new(50, 50, 100, 30, "w", blue(), command);
    assert_eq!(b.on_click(50, 50), Some(command));
    assert_eq!(b.on_click(149, 79), Some(command));
    assert_eq!(b.on_click(100, 60), Some(command));
    assert_eq!(b, Button::new(50, 50, 100, 30, "w", blue(), command));
}

#[test]
fn button_click_outside_gives_nothing() {
    let mut b = Button::new(50, 50, 100, 30, "w", blue(), Command::Launch { program: "p" });
    assert_eq!(b.on_click(49, 50), None);
    assert_eq!(b.on_click(50, 49), None);
    assert_eq!(b.on_click(150, 50), None);
    assert_eq!(b.on_click(50, 80), None);
    assert_eq!(b.on_click(0, 0), None);
}

#[test]
fn button_at_the_largest_coordinates_does_not_wrap() {
    let mut b = Button::new(u16::MAX, u16::MAX, u16::MAX, u16::MAX, "w", blue(), Command::Nothing);
    assert_eq!(b.on_click(u16::MAX, u16::MAX), Some(Command::Nothing));
    assert_eq!(b.on_click(10, 10), None);
}

#[test]
fn point_in_bounds_is_half_open() {
    assert!(point_in_bounds(10, 20, 5, 6, 10, 20));
    assert!(point_in_bounds(10, 20, 5, 6, 14, 25));
    assert!(!point_in_bounds(10, 20, 5, 6, 15, 25));
    assert!(!point_in_bounds(10, 20, 5, 6, 14, 26));
    assert!(!point_in_bounds(10, 20, 0, 6, 10, 20));
    assert!(!point_in_bounds(10, 20, 5, 0, 10, 20));
}

#[test]
fn icon_draws_its_plate_and_answers_clicks() {
    let mut icon = Icon::new(4, 5, 32, 32, "calc", Command::Launch { program: "calculator" });
    assert_eq!(
        icon.draw(0, RENDER),
        Envelope {
            to: RENDER,
            message: IpcMessage::RenderDrawRect { x: 4, y: 5, w: 32, h: 32, color: icon_color() },
        }
    );
    assert_eq!(icon_color(), Rgb { r: 200, g: 200, b: 200 });
    assert_eq!(icon.on_click(4, 5), Some(Command::Launch { program: "calculator" }));
    assert_eq!(icon.on_click(35, 36), Some(Command::Launch { program: "calculator" }));
    assert_eq!(icon.on_click(36, 36), None);
    assert_eq!(icon.on_click(3, 5), None);
    assert_eq!(icon.name, "calc");
}

#[test]
fn client_window_asks_the_compositor() {
    let (window, request) = Window::new(WM, "demo", 100, 100, 400, 300).unwrap();
    assert_eq!(window.id(), 1);
    assert_eq!(window.wm_pid(), WM);
    assert_eq!(
        request,
        Envelope {
            to: WM,
            message: IpcMessage::WmCreateWindow { x: 100, y: 100, w: 400, h: 300, title: "demo" },
        }
    );
}

#[test]
fn client_window_without_compositor_is_not_found() {
    assert_eq!(Window::new(0, "demo", 100, 100, 400, 300), Err(ServiceError::NotFound));
}

#[test]
fn client_request_opens_a_window_in_the_compositor() {
    let (window, request) = Window::new(WM, "demo", 100, 100, 400, 300).unwrap();
    let mut wm = rui::wm::WmState::new(RENDER).unwrap();
    let out = wm.handle_ipc_message(55, request.message);
    assert_eq!(
        out.last(),
        Some(&Envelope {
            to: 55,
            message: IpcMessage::WmWindowOpened { title: "demo", window_id: window.id() },
        })
    );
}
