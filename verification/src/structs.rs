//! Small value types shared with the transport layer.

use vstd::prelude::*;

verus! {

/// A verification key in its string form.
pub type VerKey = String;

/// An out-of-band invitation, packed as the URL the client dereferences.
#[derive(Clone, Debug, PartialEq)]
pub struct URLInvitation {
    pub invitation: String,
}

impl View for URLInvitation {
    type V = Seq<char>;

    open spec fn view(&self) -> Seq<char> {
        self.invitation@
    }
}

} // verus!
