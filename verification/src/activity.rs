//! OS activity events: which application came to the foreground and
//! which audio devices became current. The platform listeners that
//! observe these live outside the library; they feed a channel whose
//! receiving end the session loop drains.

use vstd::prelude::*;

verus! {

/// Mathematical model of an [`Event`].
#[verifier::ext_equal]
pub enum EventView {
    AppChange(Seq<char>),
    AudioOutputChange(Seq<char>),
    AudioInputChange(Seq<char>),
}

/// One OS activity observation: the foreground application changed, or
/// the default audio output or input device changed.
#[derive(Debug)]
pub enum Event {
    AppChange(String),
    AudioOutputChange(String),
    AudioInputChange(String),
}

impl View for Event {
    type V = EventView;

    open spec fn view(&self) -> EventView {
        match self {
            Event::AppChange(s) => EventView::AppChange(s@),
            Event::AudioOutputChange(s) => EventView::AudioOutputChange(s@),
            Event::AudioInputChange(s) => EventView::AudioInputChange(s@),
        }
    }
}

impl Clone for Event {
    fn clone(&self) -> (r: Self)
        ensures
            r@ == self@,
    {
        match self {
            Event::AppChange(s) => Event::AppChange(s.clone()),
            Event::AudioOutputChange(s) => Event::AudioOutputChange(s.clone()),
            Event::AudioInputChange(s) => Event::AudioInputChange(s.clone()),
        }
    }
}

/// A foreground-application observation alone, as the workspace
/// listener reports it.
#[derive(Debug)]
pub enum ActivityEvent {
    AppChange(String),
}

impl View for ActivityEvent {
    type V = Seq<char>;

    open spec fn view(&self) -> Seq<char> {
        match self {
            ActivityEvent::AppChange(s) => s@,
        }
    }
}

impl Clone for ActivityEvent {
    fn clone(&self) -> (r: Self)
        ensures
            r@ == self@,
    {
        match self {
            ActivityEvent::AppChange(s) => ActivityEvent::AppChange(s.clone()),
        }
    }
}

/// Sending half of an in-process channel, from the standard library;
/// opaque to the library's reasoning.
#[verifier::external_type_specification]
#[verifier::external_body]
#[verifier::reject_recursive_types(T)]
pub struct ExSender<T>(std::sync::mpsc::Sender<T>);

/// Receiving half of an in-process channel, from the standard library;
/// opaque to the library's reasoning.
#[verifier::external_type_specification]
#[verifier::external_body]
#[verifier::reject_recursive_types(T)]
pub struct ExReceiver<T>(std::sync::mpsc::Receiver<T>);

/// Relies on `std::sync::mpsc::channel`: a fresh connected pair of
/// sender and receiver. Nothing is assumed of the pair's behaviour.
#[verifier::external_body]
fn channel_pair<T>() -> (r: (std::sync::mpsc::Sender<T>, std::sync::mpsc::Receiver<T>)) {
    std::sync::mpsc::channel()
}

/// The channel the platform listeners feed their observations into.
pub struct Monitor {
    event_tx: std::sync::mpsc::Sender<Event>,
}

impl Monitor {
    /// A fresh monitor channel: the listeners send through the monitor,
    /// the session loop drains the returned receiver.
    pub fn new() -> (r: (Monitor, std::sync::mpsc::Receiver<Event>)) {
        let (event_tx, event_rx) = channel_pair();
        (Monitor { event_tx }, event_rx)
    }

    /// Relies on `std::sync::mpsc::Sender::send`: queues the event for
    /// the receiver; reports whether the receiver still exists.
    #[verifier::external_body]
    pub fn send(&self, event: Event) -> (r: bool) {
        self.event_tx.send(event).is_ok()
    }
}

/// The channel a foreground-application listener feeds alone.
pub struct ActivityMonitor {
    event_tx: std::sync::mpsc::Sender<ActivityEvent>,
}

impl ActivityMonitor {
    /// A fresh application-change channel.
    pub fn new() -> (r: (ActivityMonitor, std::sync::mpsc::Receiver<ActivityEvent>)) {
        let (event_tx, event_rx) = channel_pair();
        (ActivityMonitor { event_tx }, event_rx)
    }

    /// Relies on `std::sync::mpsc::Sender::send`: queues the event for
    /// the receiver; reports whether the receiver still exists.
    #[verifier::external_body]
    pub fn send(&self, event: ActivityEvent) -> (r: bool) {
        self.event_tx.send(event).is_ok()
    }
}

} // verus!
