//! The application core: the catalog, its filtered view, the current
//! search text and the latest status note. The presentation layer owns
//! the event loop; it hands catalog reloads, search edits and observed
//! command outcomes to these methods and renders the fields.

use vstd::prelude::*;
use crate::command::{ActionError, ActionKind, CommandOutcome, spec_action_result,
    run_action_result};
use crate::package::Package;
use crate::search::{filter_catalog, lower_of, spec_filter};

verus! {

/// The message the presentation layer shows for the latest event.
pub enum StatusNote {
    /// Nothing to report.
    Quiet,
    /// The catalog was reloaded from its source.
    CatalogReloaded,
    /// An action finished; `package` is the index of its package in the
    /// catalog, and `result` what the action command's outcome meant.
    ActionReport { package: usize, kind: ActionKind, result: Result<(), ActionError> },
}

/// The application core state.
pub struct PackageManagerApp {
    /// The full catalog, in source order.
    pub packages: Vec<Package>,
    /// The catalog entries hit by the current search text, in catalog order.
    pub filtered_packages: Vec<Package>,
    /// The current search text.
    pub search_text: String,
    /// The latest status note.
    pub status: StatusNote,
}

impl PackageManagerApp {
    /// The filtered view is exactly the catalog filtered by the current
    /// search text.
    pub open spec fn inv(self) -> bool {
        self.filtered_packages@ == spec_filter(self.packages@, lower_of(self.search_text@))
    }

    /// Starts from the given catalog, with an empty search text, the full
    /// catalog as the filtered view, and nothing to report.
    pub fn new(packages: Vec<Package>) -> (app: Self)
        ensures
            app.inv(),
            app.packages@ == packages@,
            app.search_text@.len() == 0,
            app.filtered_packages@ == packages@,
            app.status is Quiet,
    {
        let mut app = PackageManagerApp {
            packages,
            filtered_packages: Vec::new(),
            search_text: String::new(),
            status: StatusNote::Quiet,
        };
        app.filter_packages();
        app
    }

    /// Recomputes the filtered view from the catalog and the current
    /// search text; everything else is left as it was.
    pub fn filter_packages(&mut self)
        ensures
            final(self).packages == old(self).packages,
            final(self).search_text == old(self).search_text,
            final(self).status == old(self).status,
            final(self).inv(),
            old(self).search_text@.len() == 0 ==> final(self).filtered_packages@ == old(
                self,
            ).packages@,
    {
        self.filtered_packages = filter_catalog(&self.packages, self.search_text.as_str());
    }

    /// Replaces the search text and recomputes the filtered view.
    pub fn set_search(&mut self, text: String)
        ensures
            final(self).packages == old(self).packages,
            final(self).status == old(self).status,
            final(self).search_text@ == text@,
            final(self).inv(),
            text@.len() == 0 ==> final(self).filtered_packages@ == old(self).packages@,
    {
        self.search_text = text;
        self.filter_packages();
    }

    /// Replaces the whole catalog (a reload from the source), recomputes
    /// the filtered view under the unchanged search text, and reports the
    /// reload.
    pub fn reload(&mut self, packages: Vec<Package>)
        ensures
            final(self).packages@ == packages@,
            final(self).search_text == old(self).search_text,
            final(self).status is CatalogReloaded,
            final(self).inv(),
            old(self).search_text@.len() == 0 ==> final(self).filtered_packages@ == packages@,
    {
        self.packages = packages;
        self.filter_packages();
        self.status = StatusNote::CatalogReloaded;
    }

    /// Records what running an action command for the package at `package`
    /// came to; catalog, filtered view and search text are untouched.
    pub fn record_action(&mut self, package: usize, kind: ActionKind, outcome: CommandOutcome)
        requires
            package < old(self).packages@.len(),
        ensures
            final(self).packages == old(self).packages,
            final(self).filtered_packages == old(self).filtered_packages,
            final(self).search_text == old(self).search_text,
            final(self).status == (StatusNote::ActionReport {
                package,
                kind,
                result: spec_action_result(outcome),
            }),
    {
        let result = run_action_result(&outcome);
        self.status = StatusNote::ActionReport { package, kind, result };
    }
}

} // verus!
