//! The error reported when no robot controller can be reached.
use vstd::prelude::*;

verus! {

broadcast use vstd::string::group_string_axioms;

/// No robot controller answered on any known host.
#[derive(Debug, Clone, Copy, PartialEq, Eq, Structural)]
pub enum RobotError {
    NotConnected,
}

/// The text that describes `e` to the user.
pub open spec fn not_connected_message(e: RobotError) -> Seq<char> {
    match e {
        RobotError::NotConnected => "No known hosts were online. Please check that your robot controller\n\
             is in \"Program & Manage\" mode and that your computer is connected to the\n\
             robot controller via wifi-direct.\n\n\
             Alternatively, you can try manually specifying a host address with the\n\
             --host option or extending the timeout period with the --timeout-ms option."@,
    }
}

impl RobotError {
    /// The text that describes this error to the user.
    pub fn message(&self) -> (m: String)
        ensures
            m@ == not_connected_message(*self),
    {
        match self {
            RobotError::NotConnected => String::from_str(
                "No known hosts were online. Please check that your robot controller\n\
             is in \"Program & Manage\" mode and that your computer is connected to the\n\
             robot controller via wifi-direct.\n\n\
             Alternatively, you can try manually specifying a host address with the\n\
             --host option or extending the timeout period with the --timeout-ms option.",
            ),
        }
    }
}

} // verus!
