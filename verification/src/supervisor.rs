use vstd::prelude::*;

verus! {

/// Which of the two long-lived units of work ended. The process lives until
/// either unit terminates; there is no restart policy of its own.
pub enum UnitExit {
    /// The file-serving endpoint stopped.
    WebServer,
    /// The gateway connection stopped, cleanly or with an error description.
    Gateway { error: Option<String> },
}

/// The line logged when a unit ends the process; a clean gateway exit logs
/// nothing.
pub fn exit_report(exit: &UnitExit) -> (r: Option<String>)
    ensures
        match exit {
            UnitExit::WebServer => (r matches Some(t) && t@ == "Web server has stopped."@),
            UnitExit::Gateway { error: Some(e) } => (r matches Some(t) && t@
                == "Discord client error: "@ + e@),
            UnitExit::Gateway { error: None } => r is None,
        },
{
    match exit {
        UnitExit::WebServer => Some(String::from_str("Web server has stopped.")),
        UnitExit::Gateway { error: Some(e) } => {
            let mut t = String::from_str("Discord client error: ");
            t.append(e.as_str());
            Some(t)
        },
        UnitExit::Gateway { error: None } => None,
    }
}

} // verus!
