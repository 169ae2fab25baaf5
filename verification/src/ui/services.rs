//! The services panel: the state behind it and how it answers each message.
use vstd::prelude::*;
use vstd::string::*;
use crate::service::ServiceStatus;
use crate::text::same_text;

verus! {

broadcast use vstd::string::group_string_axioms;

/// What the services panel is asked to do.
#[derive(Debug)]
pub enum ServicesMessage {
    /// Start (`true`) or stop a service.
    Toggle(String, bool),
    Refresh,
    /// A start or stop ended.
    Toggled(String, Result<(), String>),
}

impl Clone for ServicesMessage {
    fn clone(&self) -> (r: Self)
        ensures
            r == *self,
    {
        match self {
            ServicesMessage::Toggle(name, start) => ServicesMessage::Toggle(name.clone(), *start),
            ServicesMessage::Refresh => ServicesMessage::Refresh,
            ServicesMessage::Toggled(name, result) => {
                let copied: Result<(), String> = match result {
                    Ok(u) => Ok(*u),
                    Err(e) => Err(e.clone()),
                };
                ServicesMessage::Toggled(name.clone(), copied)
            },
        }
    }
}

/// Outside work the panel asks for.
#[derive(Debug, Clone, PartialEq, Eq)]
pub enum ServicesAction {
    Nothing,
    /// Read the status of both services and hand them to `refresh`.
    ReadStatuses,
    /// Start or stop the service, then send `Toggled` with the outcome.
    Toggle(String, bool),
    /// Read this service's status again and hand it to `set_status`.
    ReadStatus(String),
}

/// The status of Apache and MariaDB and the last error.
#[derive(Debug, Clone)]
pub struct ServicesState {
    pub apache_status: ServiceStatus,
    pub mariadb_status: ServiceStatus,
    pub error: Option<String>,
}

pub open spec fn opt_text(o: Option<String>) -> Option<Seq<char>> {
    match o {
        Some(s) => Some(s@),
        None => None,
    }
}

/// The panel as values: Apache's status, MariaDB's, the last error.
pub type ServicesModel = (ServiceStatus, ServiceStatus, Option<Seq<char>>);

impl View for ServicesState {
    type V = ServicesModel;

    open spec fn view(&self) -> ServicesModel {
        (self.apache_status, self.mariadb_status, opt_text(self.error))
    }
}

/// How the panel answers a message: a refresh or a toggle is outside work;
/// after a toggle the error is cleared and the service's status read again, or
/// the error shown. The statuses change only through `refresh` and `set_status`.
pub open spec fn services_step(
    old: ServicesModel,
    msg: ServicesMessage,
    new: ServicesModel,
    r: ServicesAction,
) -> bool {
    &&& new.0 == old.0
    &&& new.1 == old.1
    &&& match msg {
        ServicesMessage::Refresh => r == ServicesAction::ReadStatuses && new.2 == old.2,
        ServicesMessage::Toggle(name, start) => {
            &&& r matches ServicesAction::Toggle(n, s) && n@ == name@ && s == start
            &&& new.2 == old.2
        },
        ServicesMessage::Toggled(name, Ok(())) => {
            &&& new.2 is None
            &&& if name@ == "apache2"@ || name@ == "mariadb"@ {
                r matches ServicesAction::ReadStatus(n) && n@ == name@
            } else {
                r == ServicesAction::Nothing
            }
        },
        ServicesMessage::Toggled(_, Err(e)) => r == ServicesAction::Nothing && new.2 == Some(e@),
    }
}

impl ServicesState {
    /// The panel with the statuses just read.
    pub fn new(apache: ServiceStatus, mariadb: ServiceStatus) -> (r: Self)
        ensures
            r.apache_status == apache,
            r.mariadb_status == mariadb,
            r.error is None,
    {
        let mut s = ServicesState {
            apache_status: ServiceStatus::Unknown,
            mariadb_status: ServiceStatus::Unknown,
            error: None,
        };
        s.refresh(apache, mariadb);
        s
    }

    /// Takes in freshly read statuses.
    pub fn refresh(&mut self, apache: ServiceStatus, mariadb: ServiceStatus)
        ensures
            final(self).apache_status == apache,
            final(self).mariadb_status == mariadb,
            opt_text(final(self).error) == opt_text(old(self).error),
    {
        self.apache_status = apache;
        self.mariadb_status = mariadb;
    }

    /// Takes in the status of one service (`apache2` or `mariadb`; others are ignored).
    pub fn set_status(&mut self, name: &str, status: ServiceStatus)
        ensures
            final(self).apache_status == (if name@ == "apache2"@ {
                status
            } else {
                old(self).apache_status
            }),
            final(self).mariadb_status == (if name@ == "mariadb"@ {
                status
            } else {
                old(self).mariadb_status
            }),
            opt_text(final(self).error) == opt_text(old(self).error),
    {
        proof {
            reveal_strlit("apache2");
            reveal_strlit("mariadb");
            assert("apache2"@[0] != "mariadb"@[0]);
        }
        if same_text(name, "apache2") {
            self.apache_status = status;
        } else if same_text(name, "mariadb") {
            self.mariadb_status = status;
        }
    }

    /// Answers a message (see `services_step`).
    pub fn update(&mut self, msg: ServicesMessage) -> (r: ServicesAction)
        ensures
            services_step(old(self)@, msg, final(self)@, r),
    {
        match msg {
            ServicesMessage::Refresh => ServicesAction::ReadStatuses,
            ServicesMessage::Toggle(name, start) => ServicesAction::Toggle(name, start),
            ServicesMessage::Toggled(name, result) => match result {
                Ok(()) => {
                    self.error = None;
                    if same_text(name.as_str(), "apache2") || same_text(name.as_str(), "mariadb") {
                        ServicesAction::ReadStatus(name)
                    } else {
                        ServicesAction::Nothing
                    }
                },
                Err(e) => {
                    self.error = Some(e);
                    ServicesAction::Nothing
                },
            },
        }
    }
}

} // verus!
