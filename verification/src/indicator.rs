//! The activity indicator: owns the status table and the attached-or-absent
//! auto-updater snapshot, resolves content on demand, and dispatches click
//! actions.

use vstd::prelude::*;
use vstd::string::StringExecFns;
use crate::content::{
    ActionTag, AutoUpdateState, Content, auto_update_content, checking_content,
    downloading_content, failed_content, pending_content, resolve,
};
use crate::pending::{ProviderStatus, pending_language_server_work, pending_work_spec};
use crate::status::{
    InstallStatus, StatusRecord, checking_names, downloading_names, drained, failed_names,
    failed_pairs, remove_name, spec_update,
};

verus! {

/// An event emitted for one drained `Failed` install record.
pub enum Event {
    ShowError { lsp_name: String, error: String },
}

impl Event {
    /// The provider name and error text the event carries.
    pub open spec fn model(self) -> (Seq<char>, Seq<char>) {
        match self {
            Event::ShowError { lsp_name, error } => (lsp_name@, error@),
        }
    }
}

/// The models of a sequence of events.
pub open spec fn event_models(events: Seq<Event>) -> Seq<(Seq<char>, Seq<char>)> {
    events.map_values(|e: Event| e.model())
}

/// The externally visible effects of one dispatched click action.
pub struct DispatchOutcome {
    pub events: Vec<Event>,
    pub dismiss_update_error: bool,
    pub restart: bool,
}

/// The aggregator: the status table, plus the last observed state of the
/// auto-updater when one is attached.
pub struct ActivityIndicator {
    pub statuses: Vec<StatusRecord>,
    pub auto_updater: Option<AutoUpdateState>,
}

impl ActivityIndicator {
    /// A fresh indicator with an empty status table; the auto-updater is
    /// attached or absent for the indicator's whole lifetime.
    pub fn new(auto_updater: Option<AutoUpdateState>) -> (r: ActivityIndicator)
        ensures
            r.statuses@ == Seq::<StatusRecord>::empty(),
            r.auto_updater == auto_updater,
    {
        ActivityIndicator { statuses: Vec::new(), auto_updater }
    }

    /// Observes a state change of the attached auto-updater; without an
    /// attached updater there is nothing to observe.
    pub fn observe_auto_update_state(&mut self, state: AutoUpdateState)
        ensures
            final(self).statuses == old(self).statuses,
            final(self).auto_updater == (if old(self).auto_updater is Some {
                Option::Some(state)
            } else {
                Option::<AutoUpdateState>::None
            }),
    {
        if self.auto_updater.is_some() {
            self.auto_updater = Option::Some(state);
        }
    }

    /// One install-status event: removes any record held under the provider
    /// name, then appends the new record at the end of the table.
    pub fn update_status(&mut self, name: String, status: InstallStatus)
        ensures
            final(self).statuses@ == spec_update(
                old(self).statuses@,
                (StatusRecord { name, status }),
            ),
            final(self).auto_updater == old(self).auto_updater,
    {
        let ghost t = self.statuses@;
        let ghost au = self.auto_updater;
        let mut kept: Vec<StatusRecord> = Vec::new();
        proof {
            assert(t.take(0) =~= Seq::<StatusRecord>::empty());
            assert(t.skip(0) =~= t);
        }
        while self.statuses.len() > 0
            invariant
                self.auto_updater == au,
                self.statuses@.len() <= t.len(),
                self.statuses@ == t.skip(t.len() - self.statuses@.len()),
                kept@ == remove_name(t.take(t.len() - self.statuses@.len()), name@),
            decreases self.statuses@.len(),
        {
            let ghost k = t.len() - self.statuses@.len();
            let rec = self.statuses.remove(0);
            proof {
                assert(rec == t[k]);
            }
            if !(rec.name == name) {
                kept.push(rec);
            }
            proof {
                assert(self.statuses@ =~= t.skip(k + 1));
                assert(t.take(k + 1).drop_last() =~= t.take(k));
                assert(t.take(k + 1).last() == t[k]);
                assert(kept@ == remove_name(t.take(k + 1), name@));
            }
        }
        proof {
            assert(t.take(t.len() as int) =~= t);
        }
        kept.push(StatusRecord { name, status });
        self.statuses = kept;
    }

    /// Drains every `Failed` record from the table and returns one event per
    /// drained record, in table order; every other record stays, in order.
    pub fn show_error_message(&mut self) -> (events: Vec<Event>)
        ensures
            final(self).statuses@ == drained(old(self).statuses@),
            event_models(events@) == failed_pairs(old(self).statuses@),
            final(self).auto_updater == old(self).auto_updater,
    {
        let ghost t = self.statuses@;
        let ghost au = self.auto_updater;
        let mut events: Vec<Event> = Vec::new();
        let mut kept: Vec<StatusRecord> = Vec::new();
        proof {
            assert(t.take(0) =~= Seq::<StatusRecord>::empty());
            assert(t.skip(0) =~= t);
            assert(event_models(Seq::<Event>::empty()) =~= Seq::<(Seq<char>, Seq<char>)>::empty());
        }
        while self.statuses.len() > 0
            invariant
                self.auto_updater == au,
                self.statuses@.len() <= t.len(),
                self.statuses@ == t.skip(t.len() - self.statuses@.len()),
                kept@ == drained(t.take(t.len() - self.statuses@.len())),
                event_models(events@) == failed_pairs(t.take(t.len() - self.statuses@.len())),
            decreases self.statuses@.len(),
        {
            let ghost k = t.len() - self.statuses@.len();
            let ghost evs = events@;
            let rec = self.statuses.remove(0);
            proof {
                assert(rec == t[k]);
            }
            let StatusRecord { name, status } = rec;
            match status {
                InstallStatus::Failed { error } => {
                    events.push(Event::ShowError { lsp_name: name, error });
                },
                other => {
                    kept.push(StatusRecord { name, status: other });
                },
            }
            proof {
                assert(self.statuses@ =~= t.skip(k + 1));
                assert(t.take(k + 1).drop_last() =~= t.take(k));
                assert(t.take(k + 1).last() == t[k]);
                if t[k].status is Failed {
                    assert(event_models(events@) =~= event_models(evs).push(
                        (t[k].name@, t[k].status->error@),
                    ));
                }
                assert(kept@ == drained(t.take(k + 1)));
                assert(event_models(events@) == failed_pairs(t.take(k + 1)));
            }
        }
        proof {
            assert(t.take(t.len() as int) =~= t);
        }
        self.statuses = kept;
        events
    }

    /// Forwards a dismiss request to the attached auto-updater; reports
    /// whether there was one to forward to.
    pub fn dismiss_error_message(&self) -> (forwarded: bool)
        ensures
            forwarded == (self.auto_updater is Some),
    {
        self.auto_updater.is_some()
    }

    /// The priority cascade: pending work, then the install-status buckets,
    /// then the attached auto-updater, then the most recent ambient task,
    /// then empty content.
    pub fn content_to_render(
        &self,
        providers: &Vec<ProviderStatus>,
        active_tasks: &Vec<String>,
    ) -> (c: Content)
        ensures
            c.model() == resolve(
                self.statuses@,
                pending_work_spec(providers@),
                self.auto_updater,
                active_tasks.deep_view(),
            ),
    {
        let pending = pending_language_server_work(providers);
        if pending.len() > 0 {
            return pending_content(&pending);
        }
        let ghost t = self.statuses@;
        let mut downloading: Vec<String> = Vec::new();
        let mut checking_for_update: Vec<String> = Vec::new();
        let mut failed: Vec<String> = Vec::new();
        let n = self.statuses.len();
        let mut i: usize = 0;
        proof {
            assert(t.take(0) =~= Seq::<StatusRecord>::empty());
        }
        while i < n
            invariant
                i <= n,
                n == t.len(),
                self.statuses@ == t,
                downloading.deep_view() == downloading_names(t.take(i as int)),
                checking_for_update.deep_view() == checking_names(t.take(i as int)),
                failed.deep_view() == failed_names(t.take(i as int)),
            decreases n - i,
        {
            let rec = &self.statuses[i];
            match &rec.status {
                InstallStatus::CheckingForUpdate => {
                    checking_for_update.push(rec.name.clone());
                },
                InstallStatus::Downloading => {
                    downloading.push(rec.name.clone());
                },
                InstallStatus::Failed { .. } => {
                    failed.push(rec.name.clone());
                },
                InstallStatus::Downloaded => {},
                InstallStatus::Cached => {},
            }
            proof {
                assert(t.take(i as int + 1).drop_last() =~= t.take(i as int));
                assert(t.take(i as int + 1).last() == t[i as int]);
                assert(downloading.deep_view() =~= downloading_names(t.take(i as int + 1)));
                assert(checking_for_update.deep_view() =~= checking_names(t.take(i as int + 1)));
                assert(failed.deep_view() =~= failed_names(t.take(i as int + 1)));
            }
            i += 1;
        }
        proof {
            assert(t.take(n as int) =~= t);
        }
        if downloading.len() > 0 {
            return downloading_content(&downloading);
        }
        if checking_for_update.len() > 0 {
            return checking_content(&checking_for_update);
        }
        if failed.len() > 0 {
            return failed_content(&failed);
        }
        match &self.auto_updater {
            Option::Some(state) => {
                return auto_update_content(state);
            },
            Option::None => {},
        }
        if active_tasks.len() > 0 {
            let message = active_tasks[active_tasks.len() - 1].clone();
            proof {
                assert(message@ == active_tasks.deep_view().last());
            }
            return Content { icon: Option::None, message, action: Option::None };
        }
        Content { icon: Option::None, message: String::new(), action: Option::None }
    }

    /// Translates one click action into its externally visible effects:
    /// `ShowErrors` drains the failed records and emits their events,
    /// `DismissUpdateError` forwards a dismiss request to the attached
    /// updater, `RestartToUpdate` requests an application restart.
    pub fn dispatch_action(&mut self, action: ActionTag) -> (r: DispatchOutcome)
        ensures
            final(self).auto_updater == old(self).auto_updater,
            action is ShowErrors ==> final(self).statuses@ == drained(old(self).statuses@)
                && event_models(r.events@) == failed_pairs(old(self).statuses@)
                && !r.dismiss_update_error && !r.restart,
            action is DismissUpdateError ==> final(self).statuses == old(self).statuses
                && r.events@.len() == 0 && r.dismiss_update_error == (old(self).auto_updater
                is Some) && !r.restart,
            action is RestartToUpdate ==> final(self).statuses == old(self).statuses
                && r.events@.len() == 0 && !r.dismiss_update_error && r.restart,
    {
        match action {
            ActionTag::ShowErrors => {
                let events = self.show_error_message();
                DispatchOutcome { events, dismiss_update_error: false, restart: false }
            },
            ActionTag::DismissUpdateError => {
                let forwarded = self.dismiss_error_message();
                DispatchOutcome {
                    events: Vec::new(),
                    dismiss_update_error: forwarded,
                    restart: false,
                }
            },
            ActionTag::RestartToUpdate => {
                DispatchOutcome { events: Vec::new(), dismiss_update_error: false, restart: true }
            },
        }
    }
}

/// The contents of the error-review text surface for one drained event.
pub open spec fn error_review_spec(name: Seq<char>, error: Seq<char>) -> Seq<char> {
    "Language server error: "@ + name + "\n\n"@ + error
}

/// Builds the error-review text for one drained event.
pub fn error_review_text(event: &Event) -> (r: String)
    ensures
        r@ == error_review_spec(event.model().0, event.model().1),
{
    match event {
        Event::ShowError { lsp_name, error } => {
            let mut r = String::from_str("Language server error: ");
            r.append(lsp_name.as_str());
            r.append("\n\n");
            r.append(error.as_str());
            proof {
                assert(r@ =~= error_review_spec(lsp_name@, error@));
            }
            r
        },
    }
}

} // verus!
