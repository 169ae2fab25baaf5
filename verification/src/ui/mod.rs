//! The application's panels as state machines: each answers a message by
//! changing its state and naming the outside work (I/O, dialogs, clipboard)
//! that the application shell then performs.
pub mod services;
pub mod projects;
pub mod database;

use vstd::prelude::*;
use crate::ui::database::{next_action, next_model, same_message, DatabaseAction, DatabaseMessage, DatabaseState};
use crate::ui::projects::{projects_step, ProjectsAction, ProjectsMessage, ProjectsState};
use crate::ui::services::{services_step, ServicesAction, ServicesMessage, ServicesState};

verus! {

/// The panel on show.
#[derive(Debug, Clone, Copy, PartialEq, Eq, Structural)]
pub enum Tab {
    Services,
    Projects,
    Database,
}

/// A message for the application, routed to its panel.
#[derive(Debug)]
pub enum Message {
    TabSelected(Tab),
    Services(ServicesMessage),
    Projects(ProjectsMessage),
    Database(DatabaseMessage),
    RefreshServices,
}

impl Clone for Message {
    fn clone(&self) -> (r: Self)
        ensures
            match *self {
                Message::Database(m) => r matches Message::Database(n) && same_message(m, n),
                _ => r == *self,
            },
    {
        match self {
            Message::TabSelected(t) => Message::TabSelected(*t),
            Message::Services(m) => Message::Services(m.clone()),
            Message::Projects(m) => Message::Projects(m.clone()),
            Message::Database(m) => Message::Database(m.clone()),
            Message::RefreshServices => Message::RefreshServices,
        }
    }
}

/// Outside work asked for by a panel.
#[derive(Debug)]
pub enum AppAction {
    Nothing,
    Services(ServicesAction),
    Projects(ProjectsAction),
    Database(DatabaseAction),
}

/// The application: the tab on show and the three panels.
#[derive(Debug)]
pub struct App {
    pub active_tab: Tab,
    pub services: ServicesState,
    pub projects: ProjectsState,
    pub database: DatabaseState,
}

impl App {
    /// The application over its panels, showing the services tab.
    pub fn new(services: ServicesState, projects: ProjectsState, database: DatabaseState) -> (r: Self)
        ensures
            r.active_tab == Tab::Services,
            r.services@ == services@,
            r.projects@ == projects@,
            r.database@ == database@,
    {
        App { active_tab: Tab::Services, services, projects, database }
    }

    /// Routes a message: a tab choice changes the tab on show; a refresh of the
    /// services asks for their statuses; any other message is answered by its
    /// panel, and the others stay as they were.
    pub fn update(&mut self, message: Message) -> (r: AppAction)
        ensures
            match message {
                Message::TabSelected(t) => {
                    &&& final(self).active_tab == t
                    &&& final(self).services@ == old(self).services@
                    &&& final(self).projects@ == old(self).projects@
                    &&& final(self).database@ == old(self).database@
                    &&& r is Nothing
                },
                Message::RefreshServices => {
                    &&& final(self).active_tab == old(self).active_tab
                    &&& final(self).services@ == old(self).services@
                    &&& final(self).projects@ == old(self).projects@
                    &&& final(self).database@ == old(self).database@
                    &&& r matches AppAction::Services(a) && a == ServicesAction::ReadStatuses
                },
                Message::Services(m) => {
                    &&& final(self).active_tab == old(self).active_tab
                    &&& final(self).projects@ == old(self).projects@
                    &&& final(self).database@ == old(self).database@
                    &&& r matches AppAction::Services(a) && services_step(
                        old(self).services@,
                        m,
                        final(self).services@,
                        a,
                    )
                },
                Message::Projects(m) => {
                    &&& final(self).active_tab == old(self).active_tab
                    &&& final(self).services@ == old(self).services@
                    &&& final(self).database@ == old(self).database@
                    &&& r matches AppAction::Projects(a) && projects_step(
                        old(self).projects@,
                        m,
                        final(self).projects@,
                        a,
                    )
                },
                Message::Database(m) => {
                    &&& final(self).active_tab == old(self).active_tab
                    &&& final(self).services@ == old(self).services@
                    &&& final(self).projects@ == old(self).projects@
                    &&& final(self).database@ == next_model(old(self).database@, m)
                    &&& r matches AppAction::Database(a) && a@ == next_action(
                        old(self).database@,
                        m,
                    )
                },
            },
    {
        match message {
            Message::TabSelected(tab) => {
                self.active_tab = tab;
                AppAction::Nothing
            },
            Message::RefreshServices => AppAction::Services(ServicesAction::ReadStatuses),
            Message::Services(msg) => AppAction::Services(self.services.update(msg)),
            Message::Projects(msg) => AppAction::Projects(self.projects.update(msg)),
            Message::Database(msg) => AppAction::Database(self.database.update(msg)),
        }
    }
}

} // verus!
