//! The category-based report page: one summary block per category, fetched
//! on entry.

use vstd::prelude::*;

use crate::http::{CategorySummary, CategorySummaryView, HttpRequest, ReqView, SummariesReply,
    SummariesReplyView};
use crate::keys::Key;
use crate::nav::NavSignal;

verus! {

/// The report page.
pub struct ReportMain {
    pub email: String,
    pub summary_blocks: Vec<CategorySummary>,
    pub message: String,
}

/// The mathematical model of a [`ReportMain`].
pub struct ReportMainView {
    pub email: Seq<char>,
    pub summary_blocks: Seq<CategorySummaryView>,
    pub message: Seq<char>,
}

impl View for ReportMain {
    type V = ReportMainView;

    open spec fn view(&self) -> ReportMainView {
        ReportMainView {
            email: self.email@,
            summary_blocks: self.summary_blocks.deep_view(),
            message: self.message@,
        }
    }
}

/// A fresh report page for the given user: no blocks yet, no message.
pub open spec fn report_init(email: Seq<char>) -> ReportMainView {
    ReportMainView {
        email,
        summary_blocks: Seq::<CategorySummaryView>::empty(),
        message: Seq::<char>::empty(),
    }
}

/// Where each key leads from the report page: Esc returns to the homepage,
/// everything else stays.
pub open spec fn report_step(key: Key) -> NavSignal {
    match key {
        Key::Esc => NavSignal::Back,
        _ => NavSignal::Stay,
    }
}

/// The reply to a report-details fetch: a 200 with a well-formed body
/// replaces the blocks; anything else only sets the message.
pub open spec fn report_fetch_step(p: ReportMainView, r: SummariesReplyView) -> ReportMainView {
    match r {
        SummariesReplyView::Response { status, records } => if status == 200 {
            match records {
                Option::Some(rs) => ReportMainView { summary_blocks: rs, ..p },
                Option::None => ReportMainView {
                    message: "Failed to parse report details"@,
                    ..p
                },
            }
        } else {
            ReportMainView { message: "Failed to fetch report details"@, ..p }
        },
        SummariesReplyView::Failed { cause } => ReportMainView {
            message: "Error fetching report details: "@ + cause,
            ..p
        },
    }
}

impl ReportMain {
    /// A fresh report page for the given user.
    pub fn new(email: String) -> (p: ReportMain)
        ensures
            p@ == report_init(email@),
    {
        let p = ReportMain {
            email,
            summary_blocks: Vec::new(),
            message: String::new(),
        };
        proof {
            assert(p@.summary_blocks =~= Seq::<CategorySummaryView>::empty());
        }
        p
    }

    /// The fetch that populates this page on entry.
    pub fn initialize(&self) -> (r: HttpRequest)
        ensures
            r@ == (ReqView::FetchSummaries { email: self@.email }),
    {
        HttpRequest::FetchSummaries { email: self.email.clone() }
    }

    /// Routes one key, as [`report_step`] describes.
    pub fn handle_input(&self, key: Key) -> (n: NavSignal)
        ensures
            n == report_step(key),
    {
        match key {
            Key::Esc => NavSignal::Back,
            _ => NavSignal::Stay,
        }
    }

    /// Applies the reply to a report-details fetch, as [`report_fetch_step`]
    /// describes.
    pub fn apply_fetch_reply(&mut self, reply: SummariesReply)
        ensures
            final(self)@ == report_fetch_step(old(self)@, reply@),
    {
        match reply {
            SummariesReply::Response { status, records } => {
                if status == 200 {
                    match records {
                        Option::Some(rs) => {
                            self.summary_blocks = rs;
                        },
                        Option::None => {
                            self.message = String::from_str("Failed to parse report details");
                        },
                    }
                } else {
                    self.message = String::from_str("Failed to fetch report details");
                }
            },
            SummariesReply::Failed { cause } => {
                let mut m = String::from_str("Error fetching report details: ");
                m.append(cause.as_str());
                self.message = m;
            },
        }
    }
}

} // verus!
