//! The event loop: what the application is told of each event of its ability.
use crate::ability::{InputEvent, KeyEventData, MainEvent, RectChangeReason};
use crate::binary64::Binary64;
use crate::channel::PeekableReceiver;
use crate::color::{color_mode_of, theme_to_color_mode, ColorMode, Theme};
use crate::event::{of_window, window_event, Event, StartCause, WindowEvent};
use crate::geometry::{PhysicalPosition, PhysicalSize, Rect, Size};
use crate::handles::display_handle;
use crate::ids::{ExternalError, WindowId};
use crate::inbox::{items_of, lemma_items_of_both};
use crate::input::{
    handle_input_event, held_after_input, input_events, law_input_concerns_the_window,
};
use crate::keyboard::{
    down_since, held_by, law_repeat_means_still_held, KeyStroke, PressedKeys,
};
use crate::links::{law_launch_opens_its_address, opened_urls, parsed_url, texts, urls_to_open};
use crate::monitor::{monitors_of, MonitorHandle};
use raw_window_handle::{HandleError, RawDisplayHandle};
use std::collections::VecDeque;
use std::sync::mpsc::{Receiver, SendError, Sender, TryRecvError};
use vstd::prelude::*;

verus! {

// ---------------------------------------------------------------------------------------------
// Focus
// ---------------------------------------------------------------------------------------------

/// Whether the application has the focus.
#[derive(Clone, Copy, Debug, PartialEq, Eq, Structural)]
pub struct FocusState {
    pub focused: bool,
}

impl FocusState {
    /// An application starts with the focus.
    pub fn new() -> (focus: FocusState)
        ensures
            focus.focused,
    {
        FocusState { focused: true }
    }
}

/// Whether the application has the focus after an event.
pub open spec fn focused_after<K>(focused: bool, event: MainEvent<K>) -> bool {
    match event {
        MainEvent::GainedFocus => true,
        MainEvent::LostFocus => false,
        _ => focused,
    }
}

/// The keys held down after an event.
pub open spec fn held_after_event<K>(held: Set<i32>, event: MainEvent<K>) -> Set<i32> {
    match event {
        MainEvent::Input(input) => held_after_input(held, input),
        _ => held,
    }
}

// ---------------------------------------------------------------------------------------------
// What each event becomes
// ---------------------------------------------------------------------------------------------

/// What the application is told of an event while the keys `held` are held down. Launches and
/// the application's own events are described by `tells_opened` and `tells_user_event`.
pub open spec fn plain_events<T, K>(held: Set<i32>, event: MainEvent<K>) -> Seq<Event<T, K>> {
    match event {
        MainEvent::SurfaceCreate => seq![Event::NewEvents(StartCause::Init), Event::Resumed],
        MainEvent::SurfaceDestroy => seq![Event::Suspended],
        MainEvent::WindowResize(size) => seq![
            window_event(
                WindowEvent::Resized(
                    PhysicalSize::of_extents(size.width as int, size.height as int),
                ),
            ),
        ],
        MainEvent::WindowRedraw => seq![Event::RedrawRequested(WindowId)],
        MainEvent::ContentRectChange { rect, reason } => seq![
            Event::ContentRectChanged {
                rect: (rect.left, rect.top, rect.width, rect.height),
                reason: reason.number(),
            },
        ],
        MainEvent::GainedFocus => seq![window_event(WindowEvent::Focused(true))],
        MainEvent::LostFocus => seq![window_event(WindowEvent::Focused(false))],
        MainEvent::ConfigChanged { content_rect, scale } => seq![
            window_event(
                WindowEvent::ScaleFactorChanged {
                    scale_factor: scale,
                    new_inner_size: content_rect.size(),
                },
            ),
        ],
        MainEvent::Start => seq![Event::Started],
        MainEvent::Resume => seq![Event::Resumed],
        MainEvent::SaveState => seq![Event::SaveStateRequested],
        MainEvent::Pause => seq![Event::Suspended],
        MainEvent::WindowDestroy => seq![
            window_event(WindowEvent::CloseRequested),
            window_event(WindowEvent::Destroyed),
        ],
        MainEvent::Destroy => seq![Event::LoopDestroyed],
        MainEvent::Input(input) => input_events(held, input),
        MainEvent::NewWant { .. } | MainEvent::UserEvent | MainEvent::Unknown => Seq::empty(),
    }
}

/// Whether `events` tells the application that it was launched again, and nothing else.
pub open spec fn tells_opened<T, K>(events: Seq<Event<T, K>>, urls: Seq<Seq<char>>) -> bool {
    &&& events.len() == 1
    &&& events[0] matches Event::Opened { urls: opened } && texts(opened@) == urls
}

/// What the application is told once something, or nothing, has been received from the channel.
pub open spec fn received_events<T, K, E>(received: Result<T, E>) -> Seq<Event<T, K>> {
    match received {
        Ok(event) => seq![Event::UserEvent(event)],
        Err(_) => Seq::empty(),
    }
}

/// Hands the application what was received from the channel.
pub fn handle_received<T, K, E>(received: Result<T, E>) -> (events: Vec<Event<T, K>>)
    ensures
        events@ == received_events::<T, K, E>(received),
{
    let mut events: Vec<Event<T, K>> = Vec::new();
    if let Ok(event) = received {
        events.push(Event::UserEvent(event));
    }
    events
}

/// Whether `events` hands the application the item that was taken from the channel beforehand,
/// with the channel left alone, or else what the channel answered when it was asked once.
/// `answers` is what the channel answered meanwhile.
pub open spec fn tells_user_event<T, K>(
    events: Seq<Event<T, K>>,
    peeked: Option<T>,
    answers: Seq<Result<T, TryRecvError>>,
) -> bool {
    match peeked {
        Some(first) => answers.len() == 0 && events == seq![Event::<T, K>::UserEvent(first)],
        None => answers.len() == 1 && events == received_events::<T, K, TryRecvError>(answers[0]),
    }
}

/// Whether `events` is what the application is told of an event, while the keys `held` are held
/// down and `peeked` has been taken from the channel beforehand. `answers` is what the channel
/// answered meanwhile: it is asked for the application's own events only.
pub open spec fn tells<T, K>(
    held: Set<i32>,
    peeked: Option<T>,
    answers: Seq<Result<T, TryRecvError>>,
    event: MainEvent<K>,
    events: Seq<Event<T, K>>,
) -> bool {
    match event {
        MainEvent::NewWant { uri } => answers.len() == 0 && tells_opened(events, urls_to_open(uri@)),
        MainEvent::UserEvent => tells_user_event(events, peeked, answers),
        _ => answers.len() == 0 && events == plain_events::<T, K>(held, event),
    }
}

/// The application's own events among those that it is told of, in order.
pub open spec fn own_events<T, K>(events: Seq<Event<T, K>>) -> Seq<T>
    decreases events.len(),
{
    if events.len() == 0 {
        Seq::empty()
    } else {
        let before = own_events(events.drop_last());
        match events.last() {
            Event::UserEvent(own) => before.push(own),
            _ => before,
        }
    }
}

// ---------------------------------------------------------------------------------------------
// Delivery
// ---------------------------------------------------------------------------------------------

/// Each event, followed by the notice that the events at hand have been handled.
pub open spec fn each_then_cleared<T, K>(events: Seq<Event<T, K>>) -> Seq<Event<T, K>> {
    Seq::new(
        2 * events.len(),
        |i: int|
            if i % 2 == 0 {
                events[i / 2]
            } else {
                Event::MainEventsCleared
            },
    )
}

/// The events of a delivery without the notices that follow them.
pub open spec fn without_cleared<T, K>(delivery: Seq<Event<T, K>>) -> Seq<Event<T, K>> {
    Seq::new(delivery.len() / 2, |i: int| delivery[2 * i])
}

/// Whether every second event of a delivery, and the last, is the notice that the events at hand
/// have been handled.
pub open spec fn is_delivery<T, K>(delivery: Seq<Event<T, K>>) -> bool {
    delivery == each_then_cleared(without_cleared(delivery))
}

/// Follows each event by the notice that the events at hand have been handled.
pub fn deliver<T, K>(events: Vec<Event<T, K>>) -> (delivery: Vec<Event<T, K>>)
    ensures
        delivery@ == each_then_cleared(events@),
        is_delivery(delivery@),
        without_cleared(delivery@) == events@,
{
    let ghost all = events@;
    let mut delivery: Vec<Event<T, K>> = Vec::new();
    for event in it: events
        invariant
            it.seq() == all,
            delivery@ == each_then_cleared(all.take(it.index() as int)),
    {
        delivery.push(event);
        delivery.push(Event::MainEventsCleared);
    }
    proof {
        assert(all.take(all.len() as int) =~= all);
        assert(without_cleared(each_then_cleared(all)) =~= all);
    }
    delivery
}

// ---------------------------------------------------------------------------------------------
// The loop
// ---------------------------------------------------------------------------------------------

/// What an event loop is made from; `A` is the type of the application's handle.
#[derive(Debug, PartialEq, Eq, Hash)]
pub struct PlatformSpecificEventLoopAttributes<A> {
    pub openharmony_app: Option<A>,
}

impl<A> Default for PlatformSpecificEventLoopAttributes<A> {
    fn default() -> (attributes: PlatformSpecificEventLoopAttributes<A>)
        ensures
            attributes.openharmony_app is None,
    {
        PlatformSpecificEventLoopAttributes { openharmony_app: None }
    }
}

impl<A: Clone> Clone for PlatformSpecificEventLoopAttributes<A> {
    fn clone(&self) -> (other: PlatformSpecificEventLoopAttributes<A>)
        ensures
            self.openharmony_app is Some <==> other.openharmony_app is Some,
            self.openharmony_app is Some ==> cloned(
                self.openharmony_app->0,
                other.openharmony_app->0,
            ),
    {
        PlatformSpecificEventLoopAttributes { openharmony_app: self.openharmony_app.clone() }
    }
}

/// What a window is opened on.
#[derive(Debug)]
pub struct EventLoopWindowTarget<A> {
    pub app: A,
    /// Whether the application is to end.
    pub exit: bool,
}

impl<A: Clone> Clone for EventLoopWindowTarget<A> {
    fn clone(&self) -> (other: EventLoopWindowTarget<A>)
        ensures
            cloned(self.app, other.app),
            other.exit == self.exit,
    {
        EventLoopWindowTarget { app: self.app.clone(), exit: self.exit }
    }
}

impl<A: Clone> EventLoopWindowTarget<A> {
    /// The displays: the only one.
    pub fn available_monitors(&self) -> (monitors: VecDeque<MonitorHandle<A>>)
        ensures
            monitors@.len() == 1,
            cloned(self.app, monitors@[0].app),
    {
        monitors_of(&self.app)
    }

    /// The main display.
    pub fn primary_monitor(&self) -> (monitor: Option<MonitorHandle<A>>)
        ensures
            monitor matches Some(m) && cloned(self.app, m.app),
    {
        Some(MonitorHandle::new(self.app.clone()))
    }

    /// The display at a point. The platform does not tell.
    pub fn monitor_from_point(&self, _x: Binary64, _y: Binary64) -> (monitor: Option<
        MonitorHandle<A>,
    >)
        ensures
            monitor is None,
    {
        None
    }

    /// The handle of the display.
    pub fn raw_display_handle_rwh_06(&self) -> (handle: Result<RawDisplayHandle, HandleError>)
        ensures
            handle matches Ok(raw) && raw is Ohos,
    {
        display_handle()
    }

    /// The position of the cursor, given the bits of its two coordinates.
    pub fn cursor_position(&self, x_bits: u64, y_bits: u64) -> (position: Result<
        PhysicalPosition<Binary64>,
        ExternalError,
    >)
        ensures
            position == Ok::<PhysicalPosition<Binary64>, ExternalError>(
                PhysicalPosition { x: Binary64 { bits: x_bits }, y: Binary64 { bits: y_bits } },
            ),
    {
        Ok(PhysicalPosition { x: Binary64 { bits: x_bits }, y: Binary64 { bits: y_bits } })
    }

    /// Asks for a theme; gives the colour mode that the ability has to be set to.
    pub fn set_theme(&self, theme: Option<Theme>) -> (mode: ColorMode)
        ensures
            mode == color_mode_of(theme),
    {
        theme_to_color_mode(theme)
    }
}

/// The event loop of an application whose own events are of type `T`.
#[verifier::reject_recursive_types(T)]
pub struct EventLoop<T, A> {
    pub openharmony_app: A,
    pub window_target: EventLoopWindowTarget<A>,
    pub user_events_sender: Sender<T>,
    pub user_events_receiver: PeekableReceiver<T>,
}

impl<T, A: Clone> EventLoop<T, A> {
    /// An event loop for the application named in the attributes, which has to be there. Its two
    /// ends for the application's own events are those of one new channel.
    pub fn new(attributes: &PlatformSpecificEventLoopAttributes<A>) -> (event_loop: EventLoop<T, A>)
        requires
            attributes.openharmony_app is Some,
        ensures
            cloned(attributes.openharmony_app->0, event_loop.openharmony_app),
            cloned(attributes.openharmony_app->0, event_loop.window_target.app),
            !event_loop.window_target.exit,
            call_ensures(
                std::sync::mpsc::channel::<T>,
                (),
                (event_loop.user_events_sender, event_loop.user_events_receiver.channel()),
            ),
            event_loop.user_events_receiver.peeked() is None,
            event_loop.user_events_receiver.answers() == Seq::<Result<T, TryRecvError>>::empty(),
    {
        let (user_events_sender, receiver) = std::sync::mpsc::channel();
        let openharmony_app = attributes.openharmony_app.as_ref().unwrap();
        EventLoop {
            openharmony_app: openharmony_app.clone(),
            window_target: EventLoopWindowTarget { app: openharmony_app.clone(), exit: false },
            user_events_sender,
            user_events_receiver: PeekableReceiver::from_recv(receiver),
        }
    }

    /// What windows are opened on.
    pub fn window_target(&self) -> (target: &EventLoopWindowTarget<A>)
        ensures
            *target == self.window_target,
    {
        &self.window_target
    }

    /// What the application is told of an event.
    fn translate<K>(
        &mut self,
        focus: &mut FocusState,
        keys: &mut PressedKeys,
        event: MainEvent<K>,
    ) -> (events: Vec<Event<T, K>>)
        ensures
            old(self).user_events_receiver.answers().is_prefix_of(
                final(self).user_events_receiver.answers(),
            ),
            tells(
                old(keys)@,
                old(self).user_events_receiver.peeked(),
                final(self).user_events_receiver.answers().skip(
                    old(self).user_events_receiver.answers().len() as int,
                ),
                event,
                events@,
            ),
            final(keys)@ == held_after_event(old(keys)@, event),
            final(focus).focused == focused_after(old(focus).focused, event),
            final(self).openharmony_app == old(self).openharmony_app,
            final(self).window_target == old(self).window_target,
            final(self).user_events_sender == old(self).user_events_sender,
            event is UserEvent && old(self).user_events_receiver.peeked() is None ==> call_ensures(
                Receiver::<T>::try_recv,
                (&old(self).user_events_receiver.channel(),),
                final(self).user_events_receiver.answers().last(),
            ),
            final(self).user_events_receiver.channel() == old(self).user_events_receiver.channel(),
            final(self).user_events_receiver.peeked() == if event is UserEvent {
                None
            } else {
                old(self).user_events_receiver.peeked()
            },
    {
        let mut events: Vec<Event<T, K>> = Vec::new();
        match event {
            MainEvent::SurfaceCreate => {
                events.push(Event::NewEvents(StartCause::Init));
                events.push(Event::Resumed);
            },
            MainEvent::SurfaceDestroy => {
                events.push(Event::Suspended);
            },
            MainEvent::WindowResize(size) => {
                let size = PhysicalSize::from_extents(size.width, size.height);
                events.push(of_window(WindowEvent::Resized(size)));
            },
            MainEvent::WindowRedraw => {
                events.push(Event::RedrawRequested(WindowId));
            },
            MainEvent::ContentRectChange { rect, reason } => {
                events.push(
                    Event::ContentRectChanged {
                        rect: (rect.left, rect.top, rect.width, rect.height),
                        reason: reason.to_number(),
                    },
                );
            },
            MainEvent::GainedFocus => {
                focus.focused = true;
                events.push(of_window(WindowEvent::Focused(true)));
            },
            MainEvent::LostFocus => {
                focus.focused = false;
                events.push(of_window(WindowEvent::Focused(false)));
            },
            MainEvent::ConfigChanged { content_rect, scale } => {
                events.push(
                    of_window(
                        WindowEvent::ScaleFactorChanged {
                            scale_factor: scale,
                            new_inner_size: content_rect.physical_size(),
                        },
                    ),
                );
            },
            MainEvent::Start => {
                events.push(Event::Started);
            },
            MainEvent::Resume => {
                events.push(Event::Resumed);
            },
            MainEvent::SaveState => {
                events.push(Event::SaveStateRequested);
            },
            MainEvent::Pause => {
                events.push(Event::Suspended);
            },
            MainEvent::WindowDestroy => {
                events.push(of_window(WindowEvent::CloseRequested));
                events.push(of_window(WindowEvent::Destroyed));
            },
            MainEvent::Destroy => {
                events.push(Event::LoopDestroyed);
            },
            MainEvent::Input(input) => {
                return handle_input_event(keys, input);
            },
            MainEvent::NewWant { uri } => {
                events.push(Event::Opened { urls: opened_urls(uri.as_str()) });
            },
            MainEvent::UserEvent => {
                return handle_received(self.user_events_receiver.try_recv());
            },
            MainEvent::Unknown => {},
        }
        assert(event !is NewWant ==> events@ =~= plain_events::<T, K>(old(keys)@, event));
        events
    }

    /// Handles an event of the ability: gives the events that the application has to be told, in
    /// order, and notes the focus and the keys that are held.
    ///
    /// For `MainEvent::UserEvent` the channel is asked once, unless an item has been taken from it
    /// beforehand, and `handle_received` says what is made of the answer. An item that was taken is
    /// told of: what has been taken grows by exactly the application's own events in the delivery.
    pub fn handle_main_event<K>(
        &mut self,
        focus: &mut FocusState,
        keys: &mut PressedKeys,
        event: MainEvent<K>,
    ) -> (delivery: Vec<Event<T, K>>)
        ensures
            is_delivery(delivery@),
            old(self).user_events_receiver.answers().is_prefix_of(
                final(self).user_events_receiver.answers(),
            ),
            tells(
                old(keys)@,
                old(self).user_events_receiver.peeked(),
                final(self).user_events_receiver.answers().skip(
                    old(self).user_events_receiver.answers().len() as int,
                ),
                event,
                without_cleared(delivery@),
            ),
            old(self).user_events_receiver.peeked() is None ==> items_of(
                final(self).user_events_receiver.answers(),
            ) == items_of(old(self).user_events_receiver.answers()) + own_events(
                without_cleared(delivery@),
            ),
            final(keys)@ == held_after_event(old(keys)@, event),
            final(focus).focused == focused_after(old(focus).focused, event),
            final(self).openharmony_app == old(self).openharmony_app,
            final(self).window_target == old(self).window_target,
            final(self).user_events_sender == old(self).user_events_sender,
            event is UserEvent && old(self).user_events_receiver.peeked() is None ==> call_ensures(
                Receiver::<T>::try_recv,
                (&old(self).user_events_receiver.channel(),),
                final(self).user_events_receiver.answers().last(),
            ),
            final(self).user_events_receiver.channel() == old(self).user_events_receiver.channel(),
            final(self).user_events_receiver.peeked() == if event is UserEvent {
                None
            } else {
                old(self).user_events_receiver.peeked()
            },
    {
        let events = self.translate(focus, keys, event);
        let delivery = deliver(events);
        proof {
            let before = old(self).user_events_receiver.answers();
            let asked = self.user_events_receiver.answers().skip(before.len() as int);
            assert(self.user_events_receiver.answers() =~= before + asked);
            lemma_items_of_both(before, asked);
            if old(self).user_events_receiver.peeked() is None {
                law_what_is_taken_is_told(old(keys)@, asked, event, events@);
            }
        }
        delivery
    }

    /// Ends the handling of an event, once the application has been told of it. If the application
    /// is to end, gives the last events and the exit code.
    pub fn finish_event<K>(&self) -> (last: (Vec<Event<T, K>>, Option<i32>))
        ensures
            last.0@ == if self.window_target.exit {
                each_then_cleared(seq![Event::<T, K>::LoopDestroyed])
            } else {
                Seq::empty()
            },
            last.1 == if self.window_target.exit {
                Some(0i32)
            } else {
                None
            },
    {
        let mut events: Vec<Event<T, K>> = Vec::new();
        if self.window_target.exit {
            events.push(Event::LoopDestroyed);
            (deliver(events), Some(0))
        } else {
            (events, None)
        }
    }

    /// A handle by which other threads send events to the loop.
    pub fn create_proxy(&self) -> (proxy: EventLoopProxy<T>)
        ensures
            cloned(self.user_events_sender, proxy.sender()),
    {
        EventLoopProxy { user_events_sender: self.user_events_sender.clone() }
    }
}

// ---------------------------------------------------------------------------------------------
// Events of the application's own
// ---------------------------------------------------------------------------------------------

/// The loop has to be woken, since an event waits for it.
#[derive(Clone, Copy, Debug, PartialEq, Eq, Structural)]
pub struct Wake;

/// The error of an event sent to a loop that has ended. It gives the event back.
#[derive(Debug, PartialEq, Eq)]
pub struct EventLoopClosed<T>(pub T);

/// Sends events to an event loop from any thread.
#[verifier::reject_recursive_types(T)]
pub struct EventLoopProxy<T> {
    user_events_sender: Sender<T>,
}

impl<T> EventLoopProxy<T> {
    /// The sending end of the application's channel.
    pub closed spec fn sender(&self) -> Sender<T> {
        self.user_events_sender
    }

    /// Sends an event to the loop, which then has to be woken. If the loop has ended, the event
    /// comes back.
    ///
    /// What comes out is what the channel made of this very event: it was handed to the sending
    /// end, which took it or gave it back.
    pub fn send_event(&self, event: T) -> (sent: Result<Wake, EventLoopClosed<T>>)
        ensures
            sent is Ok ==> call_ensures(Sender::<T>::send, (&self.sender(), event), Ok(())),
            sent matches Err(closed) ==> {
                &&& closed == EventLoopClosed(event)
                &&& call_ensures(
                    Sender::<T>::send,
                    (&self.sender(), event),
                    Err(SendError(event)),
                )
            },
    {
        let sent = self.user_events_sender.send(event);
        assert(sent matches Ok(taken) ==> taken == ());
        match sent {
            Ok(()) => sent_outcome(Ok(())),
            Err(unsent) => sent_outcome(Err(unsent.0)),
        }
    }
}

impl<T> Clone for EventLoopProxy<T> {
    fn clone(&self) -> (other: EventLoopProxy<T>)
        ensures
            cloned(self.sender(), other.sender()),
    {
        EventLoopProxy { user_events_sender: self.user_events_sender.clone() }
    }
}

/// What sending comes to, once the channel has taken the event or given it back: only an event
/// that was taken wakes the loop.
pub fn sent_outcome<T>(sent: Result<(), T>) -> (outcome: Result<Wake, EventLoopClosed<T>>)
    ensures
        sent is Ok ==> outcome == Ok::<Wake, EventLoopClosed<T>>(Wake),
        sent matches Err(event) ==> outcome == Err::<Wake, EventLoopClosed<T>>(
            EventLoopClosed(event),
        ),
{
    match sent {
        Ok(()) => Ok(Wake),
        Err(event) => Err(EventLoopClosed(event)),
    }
}

// ---------------------------------------------------------------------------------------------
// Laws
// ---------------------------------------------------------------------------------------------

/// Every event that the application is told of is followed at once by the notice that the events
/// at hand have been handled, and the notice comes nowhere else.
pub proof fn law_every_event_is_followed_by_clearing<T, K>(
    held: Set<i32>,
    peeked: Option<T>,
    answers: Seq<Result<T, TryRecvError>>,
    event: MainEvent<K>,
    delivery: Seq<Event<T, K>>,
)
    requires
        is_delivery(delivery),
        tells(held, peeked, answers, event, without_cleared(delivery)),
    ensures
        delivery.len() % 2 == 0,
        forall|i: int|
            0 <= i < delivery.len() ==> (#[trigger] delivery[i] is MainEventsCleared <==> i % 2
                == 1),
{
    let plain = without_cleared(delivery);
    lemma_plain_events::<T, K>(held, event);
    assert forall|i: int| 0 <= i < delivery.len() implies (#[trigger] delivery[i]
        is MainEventsCleared <==> i % 2 == 1) by {
        assert(each_then_cleared(plain)[i] == delivery[i]);
        if i % 2 == 0 {
            assert(delivery[i] == plain[i / 2]);
        }
    }
}

/// Neither the notice nor an event of the application's own is among what is told of the events
/// that are neither launches nor the application's own.
proof fn lemma_plain_events<T, K>(held: Set<i32>, event: MainEvent<K>)
    ensures
        forall|i: int|
            0 <= i < plain_events::<T, K>(held, event).len() ==> {
                &&& #[trigger] plain_events::<T, K>(held, event)[i] !is MainEventsCleared
                &&& plain_events::<T, K>(held, event)[i] !is UserEvent
            },
{
    if let MainEvent::Input(input) = event {
        law_input_concerns_the_window::<T, K>(held, input);
    }
}

/// Among events none of which is the application's own there are none of its own.
proof fn lemma_no_own_events<T, K>(events: Seq<Event<T, K>>)
    requires
        forall|i: int| 0 <= i < events.len() ==> #[trigger] events[i] !is UserEvent,
    ensures
        own_events(events) == Seq::<T>::empty(),
    decreases events.len(),
{
    if events.len() > 0 {
        lemma_no_own_events(events.drop_last());
    }
}

/// Whatever happens, the application is told of its own events exactly as they are taken from the
/// channel meanwhile: each once, in order, and none that was not taken.
pub proof fn law_what_is_taken_is_told<T, K>(
    held: Set<i32>,
    answers: Seq<Result<T, TryRecvError>>,
    event: MainEvent<K>,
    events: Seq<Event<T, K>>,
)
    requires
        tells(held, None, answers, event, events),
    ensures
        own_events(events) == items_of(answers),
{
    if event is UserEvent {
        assert(answers.drop_last() =~= Seq::<Result<T, TryRecvError>>::empty());
        assert(items_of(answers.drop_last()) =~= Seq::<T>::empty());
        if answers[0] is Ok {
            assert(events.drop_last() =~= Seq::<Event<T, K>>::empty());
            assert(own_events(events.drop_last()) =~= Seq::<T>::empty());
        }
    } else {
        lemma_plain_events::<T, K>(held, event);
        lemma_no_own_events(events);
    }
}

/// The events that the application is told of in a series of deliveries.
pub open spec fn all_told<T, K>(told: Seq<Seq<Event<T, K>>>) -> Seq<Event<T, K>>
    decreases told.len(),
{
    if told.len() == 0 {
        Seq::empty()
    } else {
        all_told(told.drop_last()) + told.last()
    }
}

/// How many of a series of events say that the application's own events wait.
pub open spec fn wake_ups<K>(history: Seq<MainEvent<K>>) -> nat
    decreases history.len(),
{
    if history.len() == 0 {
        0
    } else {
        wake_ups(history.drop_last()) + if history.last() is UserEvent {
            1nat
        } else {
            0nat
        }
    }
}

/// Whether the application is told of event `i` of a session what it has to be told.
pub open spec fn is_handled<T, K>(
    history: Seq<MainEvent<K>>,
    records: Seq<Seq<Result<T, TryRecvError>>>,
    told: Seq<Seq<Event<T, K>>>,
    i: int,
) -> bool {
    &&& records[i].is_prefix_of(records[i + 1])
    &&& tells(
        held_by_events(history.take(i)),
        None,
        records[i + 1].skip(records[i].len() as int),
        history[i],
        told[i],
    )
}

/// Whether `told` is what the application is told of a series of events, oldest first, that began
/// with no key held and nothing taken from the channel. `records` are the answers of the channel
/// up to the beginning of each event, and up to the end.
pub open spec fn is_session<T, K>(
    history: Seq<MainEvent<K>>,
    records: Seq<Seq<Result<T, TryRecvError>>>,
    told: Seq<Seq<Event<T, K>>>,
) -> bool {
    &&& told.len() == history.len()
    &&& records.len() == history.len() + 1
    &&& records[0] == Seq::<Result<T, TryRecvError>>::empty()
    &&& forall|i: int| 0 <= i < history.len() ==> #[trigger] is_handled(history, records, told, i)
}

/// Over a whole session, the application is told of its own events exactly as the channel gave
/// them: each once, in order, none lost and none made up. The channel is asked once for each
/// notice that they wait, so that a notice tells of at most one and the others stay in the channel.
pub proof fn law_own_events_over_a_session<T, K>(
    history: Seq<MainEvent<K>>,
    records: Seq<Seq<Result<T, TryRecvError>>>,
    told: Seq<Seq<Event<T, K>>>,
)
    requires
        is_session(history, records, told),
    ensures
        own_events(all_told(told)) == items_of(records.last()),
        records.last().len() == wake_ups(history),
        items_of(records.last()).len() <= wake_ups(history),
    decreases history.len(),
{
    if history.len() > 0 {
        let end = history.len() - 1;
        let (h, r, t) = (history.drop_last(), records.drop_last(), told.drop_last());
        assert forall|i: int| 0 <= i < h.len() implies #[trigger] is_handled(h, r, t, i) by {
            assert(is_handled(history, records, told, i));
            assert(history.take(i) =~= h.take(i));
        }
        law_own_events_over_a_session(h, r, t);
        let before = records[end];
        let asked = records[end + 1].skip(before.len() as int);
        assert(is_handled(history, records, told, end));
        assert(records[end + 1] =~= before + asked);
        lemma_items_of_both(before, asked);
        law_what_is_taken_is_told(held_by_events(history.take(end)), asked, history[end], told[end]);
        lemma_own_events_of_both(all_told(t), told[end]);
    }
    lemma_items_are_answers(records.last());
}

/// There are no more items than answers.
proof fn lemma_items_are_answers<T>(answers: Seq<Result<T, TryRecvError>>)
    ensures
        items_of(answers).len() <= answers.len(),
    decreases answers.len(),
{
    if answers.len() > 0 {
        lemma_items_are_answers(answers.drop_last());
    }
}

/// The application's own events in two series are those of the first and then those of the second.
proof fn lemma_own_events_of_both<T, K>(first: Seq<Event<T, K>>, second: Seq<Event<T, K>>)
    ensures
        own_events(first + second) == own_events(first) + own_events(second),
    decreases second.len(),
{
    let both = first + second;
    if second.len() == 0 {
        assert(both =~= first);
    } else {
        lemma_own_events_of_both(first, second.drop_last());
        assert(both.drop_last() =~= first + second.drop_last());
    }
}

/// Each launch is told to the application exactly once, whether or not there is an address to
/// open, and with at most one address.
pub proof fn law_every_launch_is_told<T, K>(
    held: Set<i32>,
    peeked: Option<T>,
    answers: Seq<Result<T, TryRecvError>>,
    uri: String,
    events: Seq<Event<T, K>>,
)
    requires
        tells(held, peeked, answers, MainEvent::<K>::NewWant { uri }, events),
    ensures
        events.len() == 1,
        events[0] matches Event::Opened { urls } && urls@.len() <= 1 && (uri@.len() == 0
            ==> urls@.len() == 0),
{
    let opened = events[0]->urls;
    assert(texts(opened@).len() == opened@.len());
}

/// Whether the application has the focus after a series of events, oldest first, that began with
/// it having the focus.
pub open spec fn focused_by<K>(history: Seq<MainEvent<K>>) -> bool
    decreases history.len(),
{
    if history.len() == 0 {
        true
    } else {
        focused_after(focused_by(history.drop_last()), history.last())
    }
}

/// Whether the focus was lost at event `i` and not regained later.
pub open spec fn lost_since<K>(history: Seq<MainEvent<K>>, i: int) -> bool {
    &&& 0 <= i < history.len()
    &&& history[i] is LostFocus
    &&& forall|j: int| i < j < history.len() ==> #[trigger] history[j] !is GainedFocus
}

/// The application is without the focus exactly if it has lost it and not regained it since.
pub proof fn law_focus_is_last_change<K>(history: Seq<MainEvent<K>>)
    ensures
        !focused_by(history) <==> exists|i: int| lost_since(history, i),
    decreases history.len(),
{
    if history.len() > 0 {
        let before = history.drop_last();
        let end = history.len() - 1;
        law_focus_is_last_change(before);
        assert(history[end] == history.last());
        if history.last() is LostFocus {
            assert(lost_since(history, end));
        } else if history.last() is GainedFocus {
            assert forall|i: int| !lost_since(history, i) by {
                if 0 <= i < end {
                    assert(history[end] is GainedFocus);
                }
            }
        } else {
            assert forall|i: int| lost_since(before, i) implies lost_since(history, i) by {
                assert(before[i] == history[i]);
                assert forall|j: int| i < j < history.len() implies #[trigger] history[j]
                    !is GainedFocus by {
                    if j < end {
                        assert(before[j] == history[j]);
                    }
                }
            }
            assert forall|i: int| lost_since(history, i) implies lost_since(before, i) by {
                assert(before[i] == history[i]);
                assert forall|j: int| i < j < before.len() implies #[trigger] before[j]
                    !is GainedFocus by {
                    assert(before[j] == history[j]);
                }
            }
        }
    }
}

/// The application is told of the focus exactly when the platform reports a change of it, and
/// what it is told is what it can ask for afterwards.
pub proof fn law_focus_told_is_focus_kept<T, K>(
    held: Set<i32>,
    focused: bool,
    event: MainEvent<K>,
    told: bool,
)
    ensures
        plain_events::<T, K>(held, event).contains(
            window_event::<T, K>(WindowEvent::Focused(told)),
        ) <==> (event is GainedFocus || event is LostFocus) && told == focused_after(
            focused,
            event,
        ),
{
    let events = plain_events::<T, K>(held, event);
    let focus_event = window_event::<T, K>(WindowEvent::Focused(told));
    if (event is GainedFocus || event is LostFocus) && told == focused_after(focused, event) {
        assert(events[0] == focus_event);
    }
}

/// Input never changes the focus, and nothing but the keyboard changes the keys that are held.
pub proof fn law_input_and_focus_are_apart<K>(held: Set<i32>, focused: bool, event: MainEvent<K>)
    ensures
        event is Input ==> focused_after(focused, event) == focused,
        held_after_event(held, event) != held ==> event is Input && event->Input_0 is KeyEvent,
{
}

/// The key strokes among a series of events, oldest first.
pub open spec fn strokes_of<K>(history: Seq<MainEvent<K>>) -> Seq<KeyStroke>
    decreases history.len(),
{
    if history.len() == 0 {
        Seq::empty()
    } else {
        let before = strokes_of(history.drop_last());
        match history.last() {
            MainEvent::Input(InputEvent::KeyEvent(key)) => before.push(
                KeyStroke { action: key.action, key: key.code },
            ),
            _ => before,
        }
    }
}

/// The keys held down after a series of events, oldest first, that began with no key held.
pub open spec fn held_by_events<K>(history: Seq<MainEvent<K>>) -> Set<i32>
    decreases history.len(),
{
    if history.len() == 0 {
        Set::empty()
    } else {
        held_after_event(held_by_events(history.drop_last()), history.last())
    }
}

/// Over a whole session, a key that goes down is told of as a repeat exactly if it went down
/// earlier in the session and has not come up since, whatever else happened in between.
pub proof fn law_repeats_over_a_session<T, K>(history: Seq<MainEvent<K>>, key: KeyEventData<K>)
    ensures
        held_by_events(history) == held_by(strokes_of(history)),
        plain_events::<T, K>(
            held_by_events(history),
            MainEvent::Input(InputEvent::KeyEvent(key)),
        )[0] matches Event::WindowEvent { event: WindowEvent::KeyboardInput { event, .. }, .. }
            && (event.repeat <==> key.action is Down && exists|i: int|
            down_since(strokes_of(history), key.code, i)),
{
    lemma_held_by_strokes(history);
    law_repeat_means_still_held(strokes_of(history), key.action, key.code);
}

proof fn lemma_held_by_strokes<K>(history: Seq<MainEvent<K>>)
    ensures
        held_by_events(history) == held_by(strokes_of(history)),
    decreases history.len(),
{
    if history.len() > 0 {
        let before = history.drop_last();
        lemma_held_by_strokes(before);
        if let MainEvent::Input(InputEvent::KeyEvent(key)) = history.last() {
            let stroke = KeyStroke { action: key.action, key: key.code };
            assert(strokes_of(before).push(stroke).drop_last() =~= strokes_of(before));
        }
    }
}

// ---------------------------------------------------------------------------------------------
// What the application is told of each event
// ---------------------------------------------------------------------------------------------

/// A delivery is twice as long as what is told, which stands at its even places, in order, with the
/// notice behind each.
pub proof fn law_delivery_keeps_the_order<T, K>(events: Vec<Event<T, K>>, delivery: Vec<Event<T, K>>)
    requires
        call_ensures(deliver::<T, K>, (events,), delivery),
    ensures
        delivery@.len() == 2 * events@.len(),
        forall|i: int|
            0 <= i < events@.len() ==> {
                &&& #[trigger] delivery@[2 * i] == events@[i]
                &&& delivery@[2 * i + 1] is MainEventsCleared
            },
{
}

/// What a delivery tells stands at its even places, and the notice at the others.
proof fn lemma_delivery<T, K>(delivery: Seq<Event<T, K>>)
    requires
        is_delivery(delivery),
    ensures
        delivery.len() == 2 * without_cleared(delivery).len(),
        forall|i: int|
            0 <= i < without_cleared(delivery).len() ==> {
                &&& delivery[2 * i] == #[trigger] without_cleared(delivery)[i]
                &&& delivery[2 * i + 1] is MainEventsCleared
            },
{
    let told = without_cleared(delivery);
    assert forall|i: int| 0 <= i < told.len() implies {
        &&& delivery[2 * i] == #[trigger] told[i]
        &&& delivery[2 * i + 1] is MainEventsCleared
    } by {
        assert(each_then_cleared(told)[2 * i + 1] is MainEventsCleared);
    }
}

/// A change of the window's size is told of by one event, whose width is the width reported and
/// whose height is the height reported; what is negative is raised by 2^32.
pub proof fn law_resize_is_told_as_reported<T, A: Clone, K>(
    event_loop: &mut EventLoop<T, A>,
    focus: &mut FocusState,
    keys: &mut PressedKeys,
    size: Size,
    delivery: Vec<Event<T, K>>,
)
    requires
        call_ensures(
            EventLoop::<T, A>::handle_main_event::<K>,
            (event_loop, focus, keys, MainEvent::<K>::WindowResize(size)),
            delivery,
        ),
    ensures
        delivery@.len() == 2,
        delivery@[0] matches Event::WindowEvent { event: WindowEvent::Resized(told), .. } && {
            &&& size.width >= 0 ==> told.width == size.width
            &&& size.width < 0 ==> told.width == size.width + 0x1_0000_0000
            &&& size.height >= 0 ==> told.height == size.height
            &&& size.height < 0 ==> told.height == size.height + 0x1_0000_0000
        },
        delivery@[1] is MainEventsCleared,
{
    lemma_delivery(delivery@);
    assert(without_cleared(delivery@)[0] == delivery@[0]);
}

/// A change of the content area is told of by one event with the left, the top, the width and the
/// height reported, in this order, and the number of the reason.
pub proof fn law_content_area_is_told_as_reported<T, A: Clone, K>(
    event_loop: &mut EventLoop<T, A>,
    focus: &mut FocusState,
    keys: &mut PressedKeys,
    rect: Rect,
    reason: RectChangeReason,
    delivery: Vec<Event<T, K>>,
)
    requires
        call_ensures(
            EventLoop::<T, A>::handle_main_event::<K>,
            (event_loop, focus, keys, MainEvent::<K>::ContentRectChange { rect, reason }),
            delivery,
        ),
    ensures
        delivery@.len() == 2,
        delivery@[0] matches Event::ContentRectChanged { rect: told, reason: number } && {
            &&& told.0 == rect.left
            &&& told.1 == rect.top
            &&& told.2 == rect.width
            &&& told.3 == rect.height
            &&& number <= 6
            &&& number == 0 <==> reason is Undefined
            &&& number == 1 <==> reason is Maximize
            &&& number == 2 <==> reason is Recover
            &&& number == 3 <==> reason is Move
            &&& number == 4 <==> reason is Drag
            &&& number == 5 <==> reason is DragStart
            &&& number == 6 <==> reason is DragEnd
        },
        delivery@[1] is MainEventsCleared,
{
    lemma_delivery(delivery@);
    assert(without_cleared(delivery@)[0] == delivery@[0]);
}

/// A change of the configuration is told of by one event with the scale and the size of the content
/// area that were reported.
pub proof fn law_configuration_is_told_as_reported<T, A: Clone, K>(
    event_loop: &mut EventLoop<T, A>,
    focus: &mut FocusState,
    keys: &mut PressedKeys,
    content_rect: Rect,
    scale: Binary64,
    delivery: Vec<Event<T, K>>,
)
    requires
        call_ensures(
            EventLoop::<T, A>::handle_main_event::<K>,
            (event_loop, focus, keys, MainEvent::<K>::ConfigChanged { content_rect, scale }),
            delivery,
        ),
    ensures
        delivery@.len() == 2,
        delivery@[0] matches Event::WindowEvent {
            event: WindowEvent::ScaleFactorChanged { scale_factor, new_inner_size },
            ..
        } && {
            &&& scale_factor == scale
            &&& content_rect.width >= 0 ==> new_inner_size.width == content_rect.width
            &&& content_rect.width < 0 ==> new_inner_size.width == content_rect.width
                + 0x1_0000_0000
            &&& content_rect.height >= 0 ==> new_inner_size.height == content_rect.height
            &&& content_rect.height < 0 ==> new_inner_size.height == content_rect.height
                + 0x1_0000_0000
        },
        delivery@[1] is MainEventsCleared,
{
    lemma_delivery(delivery@);
    assert(without_cleared(delivery@)[0] == delivery@[0]);
}

/// The application is told that it has gained or lost the focus when it has, and the focus is kept
/// as told. No other event changes it.
pub proof fn law_focus_is_told_as_reported<T, A: Clone, K>(
    event_loop: &mut EventLoop<T, A>,
    focus: &mut FocusState,
    keys: &mut PressedKeys,
    event: MainEvent<K>,
    delivery: Vec<Event<T, K>>,
)
    requires
        call_ensures(
            EventLoop::<T, A>::handle_main_event::<K>,
            (event_loop, focus, keys, event),
            delivery,
        ),
    ensures
        event is GainedFocus || event is LostFocus ==> {
            &&& delivery@.len() == 2
            &&& delivery@[0] matches Event::WindowEvent { event: WindowEvent::Focused(told), .. }
                && (told <==> event is GainedFocus)
            &&& delivery@[1] is MainEventsCleared
        },
        event is GainedFocus ==> final(focus).focused,
        event is LostFocus ==> !final(focus).focused,
        event !is GainedFocus && event !is LostFocus ==> final(focus).focused == old(focus).focused,
{
    lemma_delivery(delivery@);
    if event is GainedFocus || event is LostFocus {
        assert(without_cleared(delivery@)[0] == delivery@[0]);
    }
}

/// The stages of the application's life are told of under their own names, each followed by the
/// notice: the creation of the surface as the start of a round and then as a resumption, its end and
/// a pause as a suspension, and the end of the window as the wish to close it and then as its end.
pub proof fn law_lifecycle_is_told_as_reported<T, A: Clone, K>(
    event_loop: &mut EventLoop<T, A>,
    focus: &mut FocusState,
    keys: &mut PressedKeys,
    event: MainEvent<K>,
    delivery: Vec<Event<T, K>>,
)
    requires
        call_ensures(
            EventLoop::<T, A>::handle_main_event::<K>,
            (event_loop, focus, keys, event),
            delivery,
        ),
    ensures
        event is SurfaceCreate ==> {
            &&& delivery@.len() == 4
            &&& delivery@[0] matches Event::NewEvents(cause) && cause is Init
            &&& delivery@[1] is MainEventsCleared
            &&& delivery@[2] is Resumed
            &&& delivery@[3] is MainEventsCleared
        },
        event is WindowDestroy ==> {
            &&& delivery@.len() == 4
            &&& delivery@[0] matches Event::WindowEvent { event: told, .. } && told is CloseRequested
            &&& delivery@[1] is MainEventsCleared
            &&& delivery@[2] matches Event::WindowEvent { event: told, .. } && told is Destroyed
            &&& delivery@[3] is MainEventsCleared
        },
        event is SurfaceDestroy || event is Pause ==> delivery@.len() == 2 && delivery@[0]
            is Suspended && delivery@[1] is MainEventsCleared,
        event is WindowRedraw ==> delivery@.len() == 2 && delivery@[0] is RedrawRequested
            && delivery@[1] is MainEventsCleared,
        event is Start ==> delivery@.len() == 2 && delivery@[0] is Started && delivery@[1]
            is MainEventsCleared,
        event is Resume ==> delivery@.len() == 2 && delivery@[0] is Resumed && delivery@[1]
            is MainEventsCleared,
        event is SaveState ==> delivery@.len() == 2 && delivery@[0] is SaveStateRequested
            && delivery@[1] is MainEventsCleared,
        event is Destroy ==> delivery@.len() == 2 && delivery@[0] is LoopDestroyed && delivery@[1]
            is MainEventsCleared,
        event is Unknown ==> delivery@.len() == 0,
{
    lemma_delivery(delivery@);
    let told = without_cleared(delivery@);
    if told.len() > 0 {
        assert(told[0] == delivery@[0]);
    }
    if told.len() > 1 {
        assert(told[1] == delivery@[2]);
    }
}

/// A launch is told of by one event. It opens the normal form of the address alone if that can be
/// read, and nothing if there is no address or none that can be read.
pub proof fn law_launch_is_told_with_its_address<T, A: Clone, K>(
    event_loop: &mut EventLoop<T, A>,
    focus: &mut FocusState,
    keys: &mut PressedKeys,
    uri: String,
    delivery: Vec<Event<T, K>>,
)
    requires
        call_ensures(
            EventLoop::<T, A>::handle_main_event::<K>,
            (event_loop, focus, keys, MainEvent::<K>::NewWant { uri }),
            delivery,
        ),
    ensures
        delivery@.len() == 2,
        delivery@[0] matches Event::Opened { urls } && {
            &&& uri@.len() == 0 || parsed_url(uri@) is None ==> urls@.len() == 0
            &&& uri@.len() > 0 && parsed_url(uri@) is Some ==> urls@.len() == 1 && urls@[0]@
                == parsed_url(uri@)->0
        },
        delivery@[1] is MainEventsCleared,
{
    lemma_delivery(delivery@);
    assert(without_cleared(delivery@)[0] == delivery@[0]);
    law_launch_opens_its_address(uri@, delivery@[0]->urls@);
}

/// With nothing held back, the notice that the application's own events wait asks the channel once
/// more. An item that it gives is told of alone; if it gives none, nothing is told.
pub proof fn law_own_event_is_told_as_received<T, A: Clone, K>(
    event_loop: &mut EventLoop<T, A>,
    focus: &mut FocusState,
    keys: &mut PressedKeys,
    delivery: Vec<Event<T, K>>,
)
    requires
        call_ensures(
            EventLoop::<T, A>::handle_main_event::<K>,
            (event_loop, focus, keys, MainEvent::<K>::UserEvent),
            delivery,
        ),
        old(event_loop).user_events_receiver.peeked() is None,
    ensures
        final(event_loop).user_events_receiver.answers().len() == old(
            event_loop,
        ).user_events_receiver.answers().len() + 1,
        final(event_loop).user_events_receiver.answers().last() matches Ok(item) ==> {
            &&& delivery@.len() == 2
            &&& delivery@[0] matches Event::UserEvent(told) && told == item
            &&& delivery@[1] is MainEventsCleared
        },
        final(event_loop).user_events_receiver.answers().last() is Err ==> delivery@.len() == 0,
{
    lemma_delivery(delivery@);
    let before = old(event_loop).user_events_receiver.answers();
    let after = final(event_loop).user_events_receiver.answers();
    assert(after.skip(before.len() as int)[0] == after.last());
    if after.last() is Ok {
        assert(without_cleared(delivery@)[0] == delivery@[0]);
    }
}

/// An item that was held back is told of alone when the application's own events wait, and the
/// channel is left alone.
pub proof fn law_own_event_held_back_is_told_first<T, A: Clone, K>(
    event_loop: &mut EventLoop<T, A>,
    focus: &mut FocusState,
    keys: &mut PressedKeys,
    first: T,
    delivery: Vec<Event<T, K>>,
)
    requires
        call_ensures(
            EventLoop::<T, A>::handle_main_event::<K>,
            (event_loop, focus, keys, MainEvent::<K>::UserEvent),
            delivery,
        ),
        old(event_loop).user_events_receiver.peeked() == Some(first),
    ensures
        delivery@.len() == 2,
        delivery@[0] matches Event::UserEvent(told) && told == first,
        delivery@[1] is MainEventsCleared,
        final(event_loop).user_events_receiver.answers() == old(
            event_loop,
        ).user_events_receiver.answers(),
        final(event_loop).user_events_receiver.peeked() is None,
{
    lemma_delivery(delivery@);
    assert(without_cleared(delivery@)[0] == delivery@[0]);
    let before = old(event_loop).user_events_receiver.answers();
    let after = final(event_loop).user_events_receiver.answers();
    assert(after =~= before + after.skip(before.len() as int));
}

/// Input is told of in the order that it is translated in, with the notice behind each event, and
/// the same keys are held then.
pub proof fn law_input_is_delivered_in_order<T, A: Clone, K>(
    event_loop: &mut EventLoop<T, A>,
    focus: &mut FocusState,
    keys: &mut PressedKeys,
    same: &mut PressedKeys,
    input: InputEvent<K>,
    told: Vec<Event<T, K>>,
    delivery: Vec<Event<T, K>>,
)
    requires
        call_ensures(
            EventLoop::<T, A>::handle_main_event::<K>,
            (event_loop, focus, keys, MainEvent::Input(input)),
            delivery,
        ),
        old(keys)@ == old(same)@,
        call_ensures(handle_input_event::<T, K>, (same, input), told),
    ensures
        delivery@.len() == 2 * told@.len(),
        forall|i: int|
            0 <= i < told@.len() ==> {
                &&& delivery@[2 * i] == #[trigger] told@[i]
                &&& delivery@[2 * i + 1] is MainEventsCleared
            },
        final(keys)@ == final(same)@,
{
    lemma_delivery(delivery@);
}

/// Events other than input leave the keys that are held alone, and events other than the
/// application's own leave its channel alone.
pub proof fn law_events_keep_apart<T, A: Clone, K>(
    event_loop: &mut EventLoop<T, A>,
    focus: &mut FocusState,
    keys: &mut PressedKeys,
    event: MainEvent<K>,
    delivery: Vec<Event<T, K>>,
)
    requires
        call_ensures(
            EventLoop::<T, A>::handle_main_event::<K>,
            (event_loop, focus, keys, event),
            delivery,
        ),
    ensures
        event !is Input ==> final(keys)@ == old(keys)@,
        event !is UserEvent ==> final(event_loop).user_events_receiver.answers() == old(
            event_loop,
        ).user_events_receiver.answers(),
        event !is UserEvent ==> final(event_loop).user_events_receiver.peeked() == old(
            event_loop,
        ).user_events_receiver.peeked(),
        final(event_loop).window_target == old(event_loop).window_target,
{
    let before = old(event_loop).user_events_receiver.answers();
    let after = final(event_loop).user_events_receiver.answers();
    assert(after =~= before + after.skip(before.len() as int));
}

/// An application that is to end is told so by one last event, followed by the notice, and ends
/// with code zero. Any other is told nothing and goes on.
pub proof fn law_the_end_is_told<T, A: Clone, K>(
    event_loop: EventLoop<T, A>,
    last: (Vec<Event<T, K>>, Option<i32>),
)
    requires
        call_ensures(EventLoop::<T, A>::finish_event::<K>, (&event_loop,), last),
    ensures
        event_loop.window_target.exit ==> {
            &&& last.0@.len() == 2
            &&& last.0@[0] is LoopDestroyed
            &&& last.0@[1] is MainEventsCleared
            &&& last.1 == Some(0i32)
        },
        !event_loop.window_target.exit ==> last.0@.len() == 0 && last.1 is None,
{
}

/// An event that the channel took wakes the loop, and one that it did not take comes back as it is.
pub proof fn law_sent_events_wake_or_come_back<T>(
    sent: Result<(), T>,
    outcome: Result<Wake, EventLoopClosed<T>>,
)
    requires
        call_ensures(sent_outcome::<T>, (sent,), outcome),
    ensures
        outcome is Ok <==> sent is Ok,
        sent matches Err(event) ==> outcome == Err::<Wake, EventLoopClosed<T>>(
            EventLoopClosed(event),
        ),
{
}

} // verus!
