use rui::color::Rgb;
use rui::desktop::{send_all, Desktop, Dock, Taskbar};
use rui::protocol::{Envelope, IpcMessage, ServiceError};
use rui::widget::{icon_color, Button, Command, Icon};

const RENDER: u64 = 7;
const WM: u64 = 8;

fn white() -> Rgb {
    Rgb { r: 255, g: 255, b: 255 }
}

fn rect(x: u16, y: u16, w: u16, h: u16, color: Rgb) -> Envelope {
    Envelope { to: RENDER, message: IpcMessage::RenderDrawRect { x, y, w, h, color } }
}

fn text(x: u16, y: u16, text: &'static str) -> Envelope {
    Envelope { to: RENDER, message: IpcMessage::RenderDrawText { x, y, text, color: white() } }
}

fn focus_button(title: &'static str, window_id: u32) -> Button {
    Button {
        x: 0,
        y: 0,
        width: 100,
        height: 20,
        text: title,
        color: Rgb { r: 100, g: 100, b: 100 },
        command: Command::Send(Envelope {
            to: WM,
            message: IpcMessage::WmFocusWindow { window_id },
        }),
    }
}

fn launcher(name: &'static str, program: &'static str) -> Icon {
    Icon { x: 0, y: 0, width: 32, height: 32, name, command: Command::Launch { program } }
}

fn taskbar_requests() -> Vec<Envelope> {
    vec![
        rect(0, 0, 800, 24, Rgb { r: 50, g: 50, b: 50 }),
        text(10, 4, "RUI Desktop"),
        text(750, 4, "12:00"),
    ]
}

fn dock_requests(size: u16) -> Vec<Envelope> {
    vec![
        rect(332, 552, 136, 48, Rgb { r: 80, g: 80, b: 80 }),
        rect(342, 560, size, size, icon_color()),
        rect(384, 560, 32, 32, icon_color()),
        rect(426, 560, 32, 32, icon_color()),
    ]
}

#[test]
fn taskbar_spans_the_top_of_the_screen() {
    let t = Taskbar::new(800);
    assert_eq!((t.x, t.y, t.width, t.height), (0, 0, 800, 24));
    assert!(t.window_buttons.is_empty());
    assert_eq!(t.time_text, "12:00");
}

#[test]
fn taskbar_draws_plate_title_and_clock() {
    let t = Taskbar::new(800);
    assert_eq!(t.draw(RENDER), taskbar_requests());
    let narrow = Taskbar::new(50);
    assert_eq!(narrow.draw(RENDER)[2], text(0, 4, "12:00"));
}

#[test]
fn taskbar_gets_a_button_per_window() {
    let mut t = Taskbar::new(800);
    t.add_window_button("one", 1, WM);
    t.add_window_button("two", 2, WM);
    assert_eq!(t.window_buttons, vec![focus_button("one", 1), focus_button("two", 2)]);
    let mut expected = taskbar_requests();
    expected.push(rect(0, 0, 100, 20, Rgb { r: 100, g: 100, b: 100 }));
    expected.push(rect(0, 0, 100, 20, Rgb { r: 100, g: 100, b: 100 }));
    assert_eq!(t.draw(RENDER), expected);
}

#[test]
fn dock_is_centered_at_the_bottom() {
    let d = Dock::new(800, 600, WM);
    assert_eq!((d.x, d.y, d.height), (342, 552, 48));
    assert_eq!(
        d.icons,
        vec![
            launcher("calc", "rui-app-calculator"),
            launcher("editor", "rui-app-text-editor"),
            launcher("terminal", "rui-app-terminal"),
        ]
    );
    let smallest = Dock::new(116, 48, WM);
    assert_eq!((smallest.x, smallest.y), (0, 0));
    let odd = Dock::new(137, 49, WM);
    assert_eq!((odd.x, odd.y), (10, 1));
}

#[test]
fn dock_draws_plate_and_icons_in_a_row() {
    let d = Dock::new(800, 600, WM);
    assert_eq!(d.draw(RENDER), dock_requests(32));
}

#[test]
fn dock_grows_the_icon_under_the_pointer() {
    let mut d = Dock::new(800, 600, WM);
    d.icons[1].x = 100;
    d.icons[2].x = 200;
    d.handle_hover(110, 10);
    let sizes: Vec<(u16, u16)> = d.icons.iter().map(|i| (i.width, i.height)).collect();
    assert_eq!(sizes, vec![(32, 32), (40, 40), (32, 32)]);
    d.handle_hover(139, 39);
    assert_eq!(d.icons[1].width, 40);
    d.handle_hover(140, 39);
    let sizes: Vec<(u16, u16)> = d.icons.iter().map(|i| (i.width, i.height)).collect();
    assert_eq!(sizes, vec![(32, 32), (32, 32), (32, 32)]);
    assert_eq!((d.x, d.y, d.height), (342, 552, 48));
    assert_eq!(d.icons[1].x, 100);
}

#[test]
fn desktop_without_a_service_is_not_found() {
    assert!(matches!(Desktop::init(0, RENDER), Err(ServiceError::NotFound)));
    assert!(matches!(Desktop::init(WM, 0), Err(ServiceError::NotFound)));
    assert!(matches!(Desktop::init(0, 0), Err(ServiceError::NotFound)));
}

#[test]
fn desktop_lays_itself_out_for_800_by_600() {
    let d = Desktop::init(WM, RENDER).unwrap();
    assert_eq!((d.screen_width, d.screen_height), (800, 600));
    assert_eq!((d.wm_pid, d.render_pid), (WM, RENDER));
    assert_eq!(d.taskbar.width, 800);
    assert_eq!((d.dock.x, d.dock.y), (342, 552));
}

#[test]
fn desktop_draws_background_taskbar_and_dock() {
    let d = Desktop::init(WM, RENDER).unwrap();
    let mut expected = vec![rect(0, 0, 800, 600, Rgb { r: 240, g: 240, b: 240 })];
    expected.extend(taskbar_requests());
    expected.extend(dock_requests(32));
    assert_eq!(d.draw(), expected);
}

#[test]
fn desktop_click_asks_icons_then_buttons() {
    let mut d = Desktop::init(WM, RENDER).unwrap();
    d.taskbar.add_window_button("one", 1, WM);
    d.dock.icons[1].x = 500;
    let out = d.handle_ipc_message(IpcMessage::MouseClick { x: 5, y: 5 });
    assert_eq!(
        out,
        vec![
            Command::Launch { program: "rui-app-calculator" },
            Command::Launch { program: "rui-app-terminal" },
            Command::Send(Envelope { to: WM, message: IpcMessage::WmFocusWindow { window_id: 1 } }),
        ]
    );
    assert_eq!(d.click(5, 5), out);
    assert_eq!(d.click(40, 5), vec![Command::Send(Envelope {
        to: WM,
        message: IpcMessage::WmFocusWindow { window_id: 1 },
    })]);
    assert_eq!(d.click(510, 10), vec![Command::Launch { program: "rui-app-text-editor" }]);
    assert!(d.click(300, 300).is_empty());
}

#[test]
fn desktop_pointer_move_redraws_the_dock() {
    let mut d = Desktop::init(WM, RENDER).unwrap();
    d.dock.icons[1].x = 100;
    d.dock.icons[2].x = 200;
    let out = d.handle_ipc_message(IpcMessage::MouseMove { x: 5, y: 5 });
    assert_eq!(out, send_all(dock_requests(40)));
    assert_eq!(d.dock.icons[0].width, 40);
    assert_eq!(d.dock.icons[1].width, 32);
}

#[test]
fn desktop_adds_a_button_when_a_window_opens() {
    let mut d = Desktop::init(WM, RENDER).unwrap();
    let out = d.handle_ipc_message(IpcMessage::WmWindowOpened { title: "demo", window_id: 3 });
    assert_eq!(d.taskbar.window_buttons, vec![focus_button("demo", 3)]);
    let mut expected = taskbar_requests();
    expected.push(rect(0, 0, 100, 20, Rgb { r: 100, g: 100, b: 100 }));
    assert_eq!(out, send_all(expected));
}

#[test]
fn desktop_ignores_other_messages() {
    let mut d = Desktop::init(WM, RENDER).unwrap();
    for message in [
        IpcMessage::GpuFlush,
        IpcMessage::GpuGetFb,
        IpcMessage::WmFocusWindow { window_id: 1 },
        IpcMessage::RenderDrawPixel { x: 1, y: 1, color: white() },
    ] {
        assert!(d.handle_ipc_message(message).is_empty());
    }
    assert!(d.taskbar.window_buttons.is_empty());
    assert_eq!(d.dock.icons.len(), 3);
}

#[test]
fn send_all_wraps_every_message() {
    let requests = vec![rect(1, 2, 3, 4, white()), text(5, 6, "t")];
    assert_eq!(
        send_all(requests.clone()),
        vec![Command::Send(requests[0]), Command::Send(requests[1])]
    );
    assert!(send_all(Vec::new()).is_empty());
}
