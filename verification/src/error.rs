use vstd::prelude::*;

verus! {

use crate::render::dec_seq;
use crate::render::render_decimal;

/// A construction-time failure of the validation engine.
///
/// Both variants are raised before any hardware interaction: either the
/// executing processor lacks the hardware random instruction, or the
/// requested iteration count is below the mode-specific minimum.
#[derive(Clone, Copy, Debug, PartialEq, Eq, Structural)]
pub enum Error {
    /// The supplied iteration count is below the minimum that the selected
    /// mode requires (1 for the duplicate survey, 2 for the smoke test).
    InsufficientIterations { required: usize },
    /// The executing CPU does not expose the hardware random instruction.
    UnsupportedProcessor,
}

impl Error {
    /// The text this error presents to the user.
    pub open spec fn message_spec(self) -> Seq<char> {
        match self {
            Error::InsufficientIterations { required } => "at least "@ + dec_seq(
                required as nat,
            ) + if required == 1 {
                " iteration is required"@
            } else {
                " iterations are required"@
            },
            Error::UnsupportedProcessor => "current CPU does not support RDRAND"@,
        }
    }

    /// Renders this error for display, exactly as `message_spec` says.
    pub fn message(&self) -> (r: String)
        ensures
            r@ == self.message_spec(),
    {
        match self {
            Error::InsufficientIterations { required } => {
                let mut s = String::from_str("at least ");
                let num = render_decimal(*required as u64);
                s.append(num.as_str());
                if *required == 1 {
                    s.append(" iteration is required");
                } else {
                    s.append(" iterations are required");
                }
                s
            },
            Error::UnsupportedProcessor => String::from_str(
                "current CPU does not support RDRAND",
            ),
        }
    }
}

} // verus!
