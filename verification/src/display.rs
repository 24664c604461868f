//! The display an embed window is on: there is no screen, so it is a fixed one.

use vstd::prelude::*;

verus! {

/// Calls `uuid::Uuid::nil`: the identifier whose sixteen bytes are all zero.
#[verifier::external_body]
fn nil_uuid() -> (bytes: [u8; 16])
    ensures
        forall|i: int| 0 <= i < 16 ==> bytes@[i] == 0,
{
    uuid::Uuid::nil().into_bytes()
}

/// The display of the macOS and Windows producers, and, as [`HeadlessDisplay`], of
/// the Linux one. Its corner is the origin.
#[derive(Clone, Copy, Debug, PartialEq, Eq, Structural)]
pub struct EmbedDisplay {
    pub width: u32,
    pub height: u32,
}

/// The display of the headless client.
pub type HeadlessDisplay = EmbedDisplay;

impl EmbedDisplay {
    /// The display, 1920 by 1080.
    pub fn new() -> (display: EmbedDisplay)
        ensures
            display == (EmbedDisplay { width: 1920, height: 1080 }),
    {
        EmbedDisplay { width: 1920, height: 1080 }
    }

    /// The display's number.
    pub fn id(&self) -> (id: u32)
        ensures
            id == 0,
    {
        0
    }

    /// The display's identity, which is stable: there is exactly one.
    pub fn uuid(&self) -> (bytes: [u8; 16])
        ensures
            forall|i: int| 0 <= i < 16 ==> bytes@[i] == 0,
    {
        nil_uuid()
    }
}

/// The display with a number, if it is that of the one there is.
pub fn display(id: u32) -> (found: Option<EmbedDisplay>)
    ensures
        found == if id == 0 {
            Some(EmbedDisplay { width: 1920, height: 1080 })
        } else {
            None
        },
{
    let display = EmbedDisplay::new();
    if display.id() == id {
        Some(display)
    } else {
        None
    }
}

} // verus!
