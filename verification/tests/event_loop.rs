use tao_ohos::ability::{ImeEvent, InputEvent, KeyEventData, MainEvent, RectChangeReason};
use tao_ohos::binary64::Binary64;
use tao_ohos::channel::PeekableReceiver;
use tao_ohos::color::{ColorMode, Theme};
use tao_ohos::event::{Event, StartCause, WindowEvent};
use tao_ohos::event_loop::{
    deliver, handle_received, sent_outcome, EventLoop, EventLoopClosed, EventLoopWindowTarget,
    FocusState, PlatformSpecificEventLoopAttributes, Wake,
};
use tao_ohos::geometry::{PhysicalPosition, PhysicalSize, Rect, Size};
use tao_ohos::ids::WindowId;
use tao_ohos::keyboard::{Key, KeyAction, KeyLocation, PressedKeys};
use tao_ohos::links::{opened_urls, urls_from_parsed};

type Ev = Event<u32, char>;

struct Session {
    event_loop: EventLoop<u32, &'static str>,
    focus: FocusState,
    keys: PressedKeys,
}

impl Session {
    fn new() -> Session {
        let attributes = PlatformSpecificEventLoopAttributes { openharmony_app: Some("app") };
        Session {
            event_loop: EventLoop::new(&attributes),
            focus: FocusState::new(),
            keys: PressedKeys::new(),
        }
    }

    fn delivery(&mut self, event: MainEvent<char>) -> Vec<Ev> {
        self.event_loop.handle_main_event(&mut self.focus, &mut self.keys, event)
    }

    /// The events told, once it is sure that the clearing notice follows each.
    fn told(&mut self, event: MainEvent<char>) -> Vec<Ev> {
        let delivery = self.delivery(event);
        assert_eq!(delivery.len() % 2, 0);
        let mut told = vec![];
        for (i, e) in delivery.into_iter().enumerate() {
            if i % 2 == 1 {
                assert_eq!(e, Event::MainEventsCleared);
            } else {
                told.push(e);
            }
        }
        told
    }
}

fn window(event: WindowEvent<char>) -> Ev {
    Event::WindowEvent { window_id: WindowId, event }
}

#[test]
fn a_loop_starts_for_its_application() {
    let session = Session::new();
    assert_eq!(session.event_loop.openharmony_app, "app");
    assert_eq!(session.event_loop.window_target().app, "app");
    assert!(!session.event_loop.window_target().exit);
    let none: PlatformSpecificEventLoopAttributes<u8> = Default::default();
    assert_eq!(none.openharmony_app, None);
    assert_eq!(none.clone().openharmony_app, None);
}

#[test]
fn lifecycle_events_are_told() {
    let mut s = Session::new();
    assert_eq!(
        s.told(MainEvent::SurfaceCreate),
        vec![Event::NewEvents(StartCause::Init), Event::Resumed]
    );
    assert_eq!(s.told(MainEvent::SurfaceDestroy), vec![Event::Suspended]);
    assert_eq!(s.told(MainEvent::Start), vec![Event::Started]);
    assert_eq!(s.told(MainEvent::Resume), vec![Event::Resumed]);
    assert_eq!(s.told(MainEvent::SaveState), vec![Event::SaveStateRequested]);
    assert_eq!(s.told(MainEvent::Pause), vec![Event::Suspended]);
    assert_eq!(
        s.told(MainEvent::WindowDestroy),
        vec![window(WindowEvent::CloseRequested), window(WindowEvent::Destroyed)]
    );
    assert_eq!(s.told(MainEvent::Destroy), vec![Event::LoopDestroyed]);
    assert_eq!(s.told(MainEvent::Unknown), vec![]);
}

#[test]
fn window_changes_are_told() {
    let mut s = Session::new();
    assert_eq!(
        s.told(MainEvent::WindowResize(Size { width: 640, height: -1 })),
        vec![window(WindowEvent::Resized(PhysicalSize { width: 640, height: u32::MAX }))]
    );
    assert_eq!(s.told(MainEvent::WindowRedraw), vec![Event::RedrawRequested(WindowId)]);
    let rect = Rect { top: 1, left: 2, width: 3, height: 4 };
    let reasons = [
        RectChangeReason::Undefined,
        RectChangeReason::Maximize,
        RectChangeReason::Recover,
        RectChangeReason::Move,
        RectChangeReason::Drag,
        RectChangeReason::DragStart,
        RectChangeReason::DragEnd,
    ];
    for (i, reason) in reasons.into_iter().enumerate() {
        assert_eq!(
            s.told(MainEvent::ContentRectChange { rect, reason }),
            vec![Event::ContentRectChanged { rect: (2, 1, 3, 4), reason: i as u32 }]
        );
    }
    let scale = Binary64 { bits: 2.5f64.to_bits() };
    assert_eq!(
        s.told(MainEvent::ConfigChanged { content_rect: rect, scale }),
        vec![window(WindowEvent::ScaleFactorChanged {
            scale_factor: scale,
            new_inner_size: PhysicalSize { width: 3, height: 4 },
        })]
    );
}

#[test]
fn focus_is_told_and_kept() {
    let mut s = Session::new();
    assert!(s.focus.focused);
    assert_eq!(s.told(MainEvent::LostFocus), vec![window(WindowEvent::Focused(false))]);
    assert!(!s.focus.focused);
    s.told(MainEvent::Pause);
    s.told(MainEvent::Input(InputEvent::ImeEvent(ImeEvent::EnterEvent)));
    assert!(!s.focus.focused);
    assert_eq!(s.told(MainEvent::GainedFocus), vec![window(WindowEvent::Focused(true))]);
    assert!(s.focus.focused);
}

#[test]
fn each_event_is_followed_by_the_clearing_notice() {
    let mut s = Session::new();
    assert_eq!(
        s.delivery(MainEvent::SurfaceCreate),
        vec![
            Event::NewEvents(StartCause::Init),
            Event::MainEventsCleared,
            Event::Resumed,
            Event::MainEventsCleared,
        ]
    );
    let none: Vec<Ev> = deliver(vec![]);
    assert_eq!(none, vec![]);
}

#[test]
fn keys_are_remembered_between_events() {
    let mut s = Session::new();
    for repeat_expected in [false, true] {
        let told = s.told(MainEvent::Input(InputEvent::KeyEvent(KeyEventData {
            code: 7,
            native_code: 7,
            action: KeyAction::Down,
            device_id: 0,
            logical_key: Key::Mapped('x'),
            location: KeyLocation::Standard,
        })));
        match &told[0] {
            Event::WindowEvent { event: WindowEvent::KeyboardInput { event, .. }, .. } => {
                assert_eq!(event.repeat, repeat_expected)
            }
            other => panic!("{other:?}"),
        }
        s.told(MainEvent::LostFocus);
    }
}

#[test]
fn launches_are_told_with_their_address() {
    let mut s = Session::new();
    assert_eq!(
        s.told(MainEvent::NewWant { uri: "HTTPS://Example.COM/a b".to_string() }),
        vec![Event::Opened { urls: vec!["https://example.com/a%20b".to_string()] }]
    );
    assert_eq!(
        s.told(MainEvent::NewWant { uri: String::new() }),
        vec![Event::Opened { urls: vec![] }]
    );
    assert_eq!(
        s.told(MainEvent::NewWant { uri: "no address".to_string() }),
        vec![Event::Opened { urls: vec![] }]
    );
}

#[test]
fn addresses_are_put_in_normal_form() {
    assert_eq!(opened_urls("myapp:open?x=1"), vec!["myapp:open?x=1".to_string()]);
    assert_eq!(opened_urls("http://a:80/../b"), vec!["http://a/b".to_string()]);
    assert_eq!(opened_urls(""), Vec::<String>::new());
    assert_eq!(opened_urls("/relative"), Vec::<String>::new());
    assert_eq!(urls_from_parsed(None), Vec::<String>::new());
    assert_eq!(urls_from_parsed(Some("u:v".to_string())), vec!["u:v".to_string()]);
}

#[test]
fn own_events_reach_the_loop_in_order() {
    let mut s = Session::new();
    let proxy = s.event_loop.create_proxy();
    assert_eq!(s.told(MainEvent::UserEvent), vec![]);
    assert_eq!(proxy.send_event(1), Ok(Wake));
    assert_eq!(proxy.clone().send_event(2), Ok(Wake));
    assert_eq!(s.told(MainEvent::UserEvent), vec![Event::UserEvent(1)]);
    assert_eq!(s.told(MainEvent::UserEvent), vec![Event::UserEvent(2)]);
    assert_eq!(s.told(MainEvent::UserEvent), vec![]);
}

#[test]
fn own_events_are_told_once_each_and_none_is_lost() {
    let mut s = Session::new();
    let proxy = s.event_loop.create_proxy();
    let mut told = vec![];
    for own in 1..=3 {
        assert_eq!(proxy.send_event(own), Ok(Wake));
    }
    told.extend(s.told(MainEvent::UserEvent));
    assert_eq!(told, vec![Event::UserEvent(1)]);
    told.extend(s.told(MainEvent::Pause));
    told.extend(s.told(MainEvent::NewWant { uri: String::new() }));
    told.extend(s.told(MainEvent::UserEvent));
    assert_eq!(proxy.send_event(4), Ok(Wake));
    for _ in 0..4 {
        told.extend(s.told(MainEvent::UserEvent));
    }
    assert_eq!(
        told,
        vec![
            Event::UserEvent(1),
            Event::Suspended,
            Event::Opened { urls: vec![] },
            Event::UserEvent(2),
            Event::UserEvent(3),
            Event::UserEvent(4),
        ]
    );
}

#[test]
fn an_event_for_an_ended_loop_comes_back() {
    let proxy = Session::new().event_loop.create_proxy();
    assert_eq!(proxy.send_event(5), Err(EventLoopClosed(5)));
}

#[test]
fn outcomes_of_channel_calls() {
    let events: Vec<Ev> = handle_received::<u32, char, ()>(Ok(3));
    assert_eq!(events, vec![Event::UserEvent(3)]);
    let events: Vec<Ev> = handle_received::<u32, char, ()>(Err(()));
    assert_eq!(events, vec![]);
    assert_eq!(sent_outcome::<u8>(Ok(())), Ok(Wake));
    assert_eq!(sent_outcome::<u8>(Err(4)), Err(EventLoopClosed(4)));
}

#[test]
fn a_receiver_gives_what_the_channel_gives() {
    let (sender, receiver) = std::sync::mpsc::channel();
    let mut receiver = PeekableReceiver::from_recv(receiver);
    assert_eq!(receiver.try_recv(), Err(std::sync::mpsc::TryRecvError::Empty));
    sender.send('a').unwrap();
    assert_eq!(receiver.try_recv(), Ok('a'));
    drop(sender);
    assert_eq!(receiver.try_recv(), Err(std::sync::mpsc::TryRecvError::Disconnected));
}

#[test]
fn a_receiver_gives_each_item_once_and_in_order() {
    let (sender, receiver) = std::sync::mpsc::channel();
    sender.send('z').unwrap();
    assert_eq!(receiver.recv(), Ok('z'));
    for item in ['a', 'b', 'c'] {
        sender.send(item).unwrap();
    }
    let mut receiver = PeekableReceiver::from_recv(receiver);
    let received: Vec<_> = (0..5).map(|_| receiver.try_recv()).collect();
    let empty = Err(std::sync::mpsc::TryRecvError::Empty);
    assert_eq!(received, vec![Ok('a'), Ok('b'), Ok('c'), empty, empty]);
    sender.send('d').unwrap();
    drop(sender);
    assert_eq!(receiver.try_recv(), Ok('d'));
    assert_eq!(receiver.try_recv(), Err(std::sync::mpsc::TryRecvError::Disconnected));
}

#[test]
fn an_application_that_is_to_end_is_told_last() {
    let mut s = Session::new();
    let (events, code): (Vec<Ev>, Option<i32>) = s.event_loop.finish_event();
    assert_eq!((events, code), (vec![], None));
    s.event_loop.window_target.exit = true;
    let (events, code): (Vec<Ev>, Option<i32>) = s.event_loop.finish_event();
    assert_eq!(events, vec![Event::LoopDestroyed, Event::MainEventsCleared]);
    assert_eq!(code, Some(0));
}

#[test]
fn a_target_answers_for_the_only_display() {
    let target = EventLoopWindowTarget { app: 'A', exit: false };
    let monitors = target.available_monitors();
    assert_eq!(monitors.len(), 1);
    assert_eq!(monitors[0].app, 'A');
    assert_eq!(target.primary_monitor().unwrap().app, 'A');
    let origin = Binary64 { bits: 0 };
    assert_eq!(target.monitor_from_point(origin, origin), None);
    assert_eq!(target.set_theme(Some(Theme::Dark)), ColorMode::Dark);
    assert_eq!(target.set_theme(None), ColorMode::NoSet);
    assert!(matches!(
        target.raw_display_handle_rwh_06(),
        Ok(raw_window_handle::RawDisplayHandle::Ohos(_))
    ));
    assert_eq!(
        target.cursor_position(1.0f64.to_bits(), 2.0f64.to_bits()),
        Ok(PhysicalPosition {
            x: Binary64 { bits: 1.0f64.to_bits() },
            y: Binary64 { bits: 2.0f64.to_bits() },
        })
    );
    let copy = target.clone();
    assert_eq!((copy.app, copy.exit), ('A', false));
}
