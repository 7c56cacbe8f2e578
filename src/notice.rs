use vstd::prelude::*;

verus! {

/// How long a notification stays visible before its hide fires.
pub const HIDE_DELAY_MS: u32 = 2000;

/// A deferred hide to schedule: after `delay_ms`, report `epoch` back to
/// [`Notifier::timer_fired`].
#[derive(Clone, Copy, Debug, PartialEq, Eq)]
pub struct HideTimer {
    pub epoch: u64,
    pub delay_ms: u32,
}

/// A single-slot notification: hidden, or one visible message tagged with the
/// epoch of the `show` that set it. The epoch counts every `show` so far.
#[derive(Clone, Debug)]
pub struct Notifier {
    message: Option<String>,
    epoch: u64,
}

/// The state of a [`Notifier`]: `message` is `None` when hidden.
pub struct NotifierView {
    pub message: Option<Seq<char>>,
    pub epoch: nat,
}

impl View for Notifier {
    type V = NotifierView;

    closed spec fn view(&self) -> NotifierView {
        NotifierView {
            message: match self.message {
                Some(m) => Some(m@),
                None => None,
            },
            epoch: self.epoch as nat,
        }
    }
}

/// The hidden state in which a session starts.
pub open spec fn initial() -> NotifierView {
    NotifierView { message: None, epoch: 0 }
}

/// `show(m)`: `m` becomes the one visible message, under a fresh epoch.
pub open spec fn show_spec(s: NotifierView, m: Seq<char>) -> NotifierView {
    NotifierView { message: Some(m), epoch: s.epoch + 1 }
}

/// The hide tagged `e` fires: it hides the message only if no later `show`
/// has superseded the one that scheduled it.
pub open spec fn hide_spec(s: NotifierView, e: nat) -> NotifierView {
    if s.message is Some && s.epoch == e {
        NotifierView { message: None, epoch: s.epoch }
    } else {
        s
    }
}

/// An event that a notifier reacts to.
pub enum NoticeEvent {
    Show(Seq<char>),
    Hide(nat),
}

pub open spec fn step(s: NotifierView, ev: NoticeEvent) -> NotifierView {
    match ev {
        NoticeEvent::Show(m) => show_spec(s, m),
        NoticeEvent::Hide(e) => hide_spec(s, e),
    }
}

/// The state after the events, in order, starting from `s`.
pub open spec fn run(s: NotifierView, evs: Seq<NoticeEvent>) -> NotifierView
    decreases evs.len(),
{
    if evs.len() == 0 {
        s
    } else {
        step(run(s, evs.drop_last()), evs.last())
    }
}

/// The number of `Show` events.
pub open spec fn shows(evs: Seq<NoticeEvent>) -> nat
    decreases evs.len(),
{
    if evs.len() == 0 {
        0
    } else {
        shows(evs.drop_last()) + if evs.last() is Show {
            1nat
        } else {
            0nat
        }
    }
}

/// The message of the last `Show` event, if there is one.
pub open spec fn last_shown(evs: Seq<NoticeEvent>) -> Option<Seq<char>>
    decreases evs.len(),
{
    if evs.len() == 0 {
        None
    } else {
        match evs.last() {
            NoticeEvent::Show(m) => Some(m),
            NoticeEvent::Hide(_) => last_shown(evs.drop_last()),
        }
    }
}

impl Notifier {
    pub fn new() -> (r: Notifier)
        ensures
            r@ == initial(),
    {
        Notifier { message: None, epoch: 0 }
    }

    /// Makes `message` the visible one and returns the hide to schedule for it.
    pub fn show(&mut self, message: String) -> (r: HideTimer)
        requires
            old(self)@.epoch < u64::MAX,
        ensures
            final(self)@ == show_spec(old(self)@, message@),
            r.epoch == final(self)@.epoch,
            r.delay_ms == HIDE_DELAY_MS,
    {
        self.epoch = self.epoch + 1;
        self.message = Some(message);
        HideTimer { epoch: self.epoch, delay_ms: HIDE_DELAY_MS }
    }

    /// The hide tagged `epoch` fires.
    pub fn timer_fired(&mut self, epoch: u64)
        ensures
            final(self)@ == hide_spec(old(self)@, epoch as nat),
    {
        if self.message.is_some() && self.epoch == epoch {
            self.message = None;
        }
    }

    /// The visible message, if any.
    pub fn message(&self) -> (r: Option<&String>)
        ensures
            match r {
                Some(m) => self@.message == Some(m@),
                None => self@.message is None,
            },
    {
        match &self.message {
            Some(m) => Some(m),
            None => None,
        }
    }

    pub fn is_visible(&self) -> (r: bool)
        ensures
            r == self@.message is Some,
    {
        self.message.is_some()
    }

    /// The epoch of the latest `show`; 0 before the first.
    pub fn epoch(&self) -> (r: u64)
        ensures
            r == self@.epoch,
    {
        self.epoch
    }
}

/// A newer notification outlives the pending hide of an older one: after
/// `show(a)` then `show(b)`, the hide scheduled for `a` changes nothing, `b`
/// stays visible through any hides not tagged with its own epoch, and its own
/// hide then clears it.
pub proof fn lemma_newer_show_wins(s: NotifierView, a: Seq<char>, b: Seq<char>, es: Seq<nat>)
    ensures
        ({
            let sa = show_spec(s, a);
            let sb = show_spec(sa, b);
            &&& sb.message == Some(b)
            &&& hide_spec(sb, sa.epoch) == sb
            &&& (forall|i: int| 0 <= i < es.len() ==> es[i] != sb.epoch) ==> run(
                sb,
                es.map_values(|e: nat| NoticeEvent::Hide(e)),
            ) == sb
            &&& hide_spec(sb, sb.epoch).message is None
        }),
    decreases es.len(),
{
    let sb = show_spec(show_spec(s, a), b);
    if es.len() > 0 && (forall|i: int| 0 <= i < es.len() ==> es[i] != sb.epoch) {
        lemma_newer_show_wins(s, a, b, es.drop_last());
        assert(es.map_values(|e: nat| NoticeEvent::Hide(e)).drop_last() =~= es.drop_last().map_values(
            |e: nat| NoticeEvent::Hide(e),
        ));
        assert(es.drop_last().len() < es.len());
        assert forall|i: int| 0 <= i < es.drop_last().len() implies es.drop_last()[i] != sb.epoch by {
            assert(es.drop_last()[i] == es[i]);
        }
        assert(es[es.len() - 1] != sb.epoch);
    }
}

/// At most one message is visible at any point, and it is the one of the
/// latest `show`: from the initial state, after any events, the epoch counts
/// the shows and a visible message is the last one shown.
pub proof fn lemma_single_visible_message(evs: Seq<NoticeEvent>)
    ensures
        run(initial(), evs).epoch == shows(evs),
        run(initial(), evs).message is Some ==> run(initial(), evs).message == last_shown(evs),
    decreases evs.len(),
{
    if evs.len() > 0 {
        lemma_single_visible_message(evs.drop_last());
    }
}

} // verus!
