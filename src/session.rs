use vstd::prelude::*;

use crate::filter::{filter, visible};
use crate::notice::{hide_spec, initial, show_spec, HideTimer, Notifier, NotifierView, HIDE_DELAY_MS};
use crate::record::{views, Record, RecordView};
use crate::text::lower_of;

verus! {

/// The confirmation shown after a symbol was copied.
pub const COPIED_MESSAGE: &'static str = "✅ Copied to clipboard!";

/// How a clipboard write ended.
#[derive(Clone, Debug, PartialEq)]
pub enum CopyOutcome {
    Copied,
    Failed(String),
}

/// What the host must do after a clipboard write ended.
#[derive(Clone, Debug, PartialEq)]
pub enum CopyEffect {
    /// Schedule the hide of the confirmation that is now visible.
    ScheduleHide(HideTimer),
    /// Report the failure on the diagnostic channel; nothing is shown.
    Report(String),
}

/// The interactive session: the loaded records, the current query and the
/// notification slot.
#[derive(Clone, Debug)]
pub struct Session {
    records: Vec<Record>,
    query: String,
    notice: Notifier,
}

pub struct SessionView {
    pub records: Seq<RecordView>,
    pub query: Seq<char>,
    pub notice: NotifierView,
}

impl View for Session {
    type V = SessionView;

    closed spec fn view(&self) -> SessionView {
        SessionView { records: views(self.records@), query: self.query@, notice: self.notice@ }
    }
}

impl Session {
    /// A session before the records have loaded: no records, an empty query,
    /// nothing shown.
    pub fn new() -> (r: Session)
        ensures
            r@.records == Seq::<RecordView>::empty(),
            r@.query == Seq::<char>::empty(),
            r@.notice == initial(),
    {
        let r = Session { records: Vec::new(), query: String::new(), notice: Notifier::new() };
        assert(views(r.records@) =~= Seq::<RecordView>::empty());
        r
    }

    /// The load of the records ended: with the collection, or with `None` when
    /// it failed, which leaves the collection as it was.
    pub fn load_finished(&mut self, loaded: Option<Vec<Record>>)
        ensures
            final(self)@.records == match loaded {
                Some(v) => views(v@),
                None => old(self)@.records,
            },
            final(self)@.query == old(self)@.query,
            final(self)@.notice == old(self)@.notice,
    {
        match loaded {
            Some(v) => {
                self.records = v;
            },
            None => {},
        }
    }

    /// The search text changed to `query`.
    pub fn set_query(&mut self, query: String)
        ensures
            final(self)@.query == query@,
            final(self)@.records == old(self)@.records,
            final(self)@.notice == old(self)@.notice,
    {
        self.query = query;
    }

    /// The records that match the current query, ignoring case, in order.
    pub fn visible(&self) -> (r: Vec<Record>)
        ensures
            views(r@) == visible(self@.records, lower_of(self@.query)),
    {
        filter(&self.records, self.query.as_str())
    }

    /// A clipboard write ended. On success the confirmation becomes the
    /// visible message and its hide is to be scheduled; on failure nothing
    /// changes and the failure is to be reported.
    pub fn copy_finished(&mut self, outcome: CopyOutcome) -> (r: CopyEffect)
        requires
            old(self)@.notice.epoch < u64::MAX,
        ensures
            final(self)@.records == old(self)@.records,
            final(self)@.query == old(self)@.query,
            match outcome {
                CopyOutcome::Copied => {
                    &&& final(self)@.notice == show_spec(old(self)@.notice, COPIED_MESSAGE@)
                    &&& r == CopyEffect::ScheduleHide(
                        HideTimer { epoch: final(self)@.notice.epoch as u64, delay_ms: HIDE_DELAY_MS },
                    )
                },
                CopyOutcome::Failed(details) => {
                    &&& final(self)@.notice == old(self)@.notice
                    &&& r == CopyEffect::Report(details)
                },
            },
    {
        match outcome {
            CopyOutcome::Copied => {
                let timer = self.notice.show(String::from_str(COPIED_MESSAGE));
                CopyEffect::ScheduleHide(timer)
            },
            CopyOutcome::Failed(details) => CopyEffect::Report(details),
        }
    }

    /// The hide scheduled under `epoch` fired.
    pub fn timer_fired(&mut self, epoch: u64)
        ensures
            final(self)@.notice == hide_spec(old(self)@.notice, epoch as nat),
            final(self)@.records == old(self)@.records,
            final(self)@.query == old(self)@.query,
    {
        self.notice.timer_fired(epoch);
    }

    pub fn records(&self) -> (r: &Vec<Record>)
        ensures
            views(r@) == self@.records,
    {
        &self.records
    }

    pub fn query(&self) -> (r: &String)
        ensures
            r@ == self@.query,
    {
        &self.query
    }

    pub fn notice(&self) -> (r: &Notifier)
        ensures
            r@ == self@.notice,
    {
        &self.notice
    }
}

} // verus!
