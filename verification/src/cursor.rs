//! Cursor styles and the CSS names by which a consumer finds them.

use vstd::prelude::*;
use vstd::utf8::{encode_utf8, is_ascii_chars, is_ascii_chars_encode_utf8};

use crate::protocol::{cursor_message, whole_cursor_message, MAX_CURSOR_BYTES};

verus! {

/// The cursor an element asks for.
#[derive(Clone, Copy, Debug, PartialEq, Eq, Structural)]
pub enum CursorStyle {
    Arrow,
    IBeam,
    Crosshair,
    ClosedHand,
    OpenHand,
    PointingHand,
    ResizeLeft,
    ResizeRight,
    ResizeLeftRight,
    ResizeUp,
    ResizeDown,
    ResizeUpDown,
    ResizeUpLeftDownRight,
    ResizeUpRightDownLeft,
    ResizeColumn,
    ResizeRow,
    IBeamCursorForVerticalLayout,
    OperationNotAllowed,
    /// Any style without a name of its own.
    Other,
}

/// The CSS name of a cursor style. Styles without one get the default cursor's.
pub open spec fn cursor_name_spec(style: CursorStyle) -> Seq<char> {
    match style {
        CursorStyle::Arrow => "default"@,
        CursorStyle::IBeam => "text"@,
        CursorStyle::Crosshair => "crosshair"@,
        CursorStyle::ClosedHand => "grabbing"@,
        CursorStyle::OpenHand => "grab"@,
        CursorStyle::PointingHand => "pointer"@,
        CursorStyle::ResizeLeft => "w-resize"@,
        CursorStyle::ResizeRight => "e-resize"@,
        CursorStyle::ResizeLeftRight => "ew-resize"@,
        CursorStyle::ResizeUp => "n-resize"@,
        CursorStyle::ResizeDown => "s-resize"@,
        CursorStyle::ResizeUpDown => "ns-resize"@,
        CursorStyle::ResizeUpLeftDownRight => "nwse-resize"@,
        CursorStyle::ResizeUpRightDownLeft => "nesw-resize"@,
        CursorStyle::ResizeColumn => "col-resize"@,
        CursorStyle::ResizeRow => "row-resize"@,
        CursorStyle::IBeamCursorForVerticalLayout => "vertical-text"@,
        CursorStyle::OperationNotAllowed => "not-allowed"@,
        CursorStyle::Other => "default"@,
    }
}

/// The CSS name of a cursor style, the same on every platform.
pub fn cursor_name(style: CursorStyle) -> (name: &'static str)
    ensures
        name@ == cursor_name_spec(style),
{
    match style {
        CursorStyle::Arrow => "default",
        CursorStyle::IBeam => "text",
        CursorStyle::Crosshair => "crosshair",
        CursorStyle::ClosedHand => "grabbing",
        CursorStyle::OpenHand => "grab",
        CursorStyle::PointingHand => "pointer",
        CursorStyle::ResizeLeft => "w-resize",
        CursorStyle::ResizeRight => "e-resize",
        CursorStyle::ResizeLeftRight => "ew-resize",
        CursorStyle::ResizeUp => "n-resize",
        CursorStyle::ResizeDown => "s-resize",
        CursorStyle::ResizeUpDown => "ns-resize",
        CursorStyle::ResizeUpLeftDownRight => "nwse-resize",
        CursorStyle::ResizeUpRightDownLeft => "nesw-resize",
        CursorStyle::ResizeColumn => "col-resize",
        CursorStyle::ResizeRow => "row-resize",
        CursorStyle::IBeamCursorForVerticalLayout => "vertical-text",
        CursorStyle::OperationNotAllowed => "not-allowed",
        CursorStyle::Other => "default",
    }
}

/// The cursor that was asked for last. A paint asks several times, for the default one
/// and then for the hovered element's; what is left when the tick is over is sent.
pub struct PendingCursor {
    pub name: Option<&'static str>,
}

impl PendingCursor {
    /// None was asked for.
    pub fn new() -> (pending: PendingCursor)
        ensures
            pending.name is None,
    {
        PendingCursor { name: None }
    }

    /// Asks for a cursor in place of the one that was asked for before.
    pub fn set_cursor_style(&mut self, style: CursorStyle)
        ensures
            final(self).name matches Some(name) && name@ == cursor_name_spec(style),
    {
        self.name = Some(cursor_name(style));
    }

    /// Takes what was asked for.
    pub fn take(&mut self) -> (name: Option<&'static str>)
        ensures
            name == old(self).name,
            final(self).name is None,
    {
        self.name.take()
    }
}

/// Cursor names are short ASCII words, one byte per character.
pub proof fn cursor_names_are_short(style: CursorStyle)
    ensures
        0 < encode_utf8(cursor_name_spec(style)).len() <= 13,
        encode_utf8(cursor_name_spec(style)).len() == cursor_name_spec(style).len(),
{
    reveal_strlit("default");
    reveal_strlit("text");
    reveal_strlit("crosshair");
    reveal_strlit("grabbing");
    reveal_strlit("grab");
    reveal_strlit("pointer");
    reveal_strlit("w-resize");
    reveal_strlit("e-resize");
    reveal_strlit("ew-resize");
    reveal_strlit("n-resize");
    reveal_strlit("s-resize");
    reveal_strlit("ns-resize");
    reveal_strlit("nwse-resize");
    reveal_strlit("nesw-resize");
    reveal_strlit("col-resize");
    reveal_strlit("row-resize");
    reveal_strlit("vertical-text");
    reveal_strlit("not-allowed");
    let name = cursor_name_spec(style);
    assert(is_ascii_chars(name));
    is_ascii_chars_encode_utf8(name);
}

/// Every producer sends the same bytes for a cursor: the limit that macOS and
/// Windows put on a name cuts none off, and the length fits the byte that Linux
/// gives it.
pub proof fn cursor_messages_agree(style: CursorStyle)
    ensures
        cursor_message(cursor_name_spec(style)) == whole_cursor_message(cursor_name_spec(style)),
{
    cursor_names_are_short(style);
    let bytes = encode_utf8(cursor_name_spec(style));
    assert(bytes.len() <= MAX_CURSOR_BYTES);
    assert(bytes.take(bytes.len() as int) =~= bytes);
}

/// The letters of a style's name that tell the sides of what it resizes: north, east, south
/// and west.
pub open spec fn sides(style: CursorStyle) -> Seq<char> {
    match style {
        CursorStyle::ResizeLeft => seq!['w'],
        CursorStyle::ResizeRight => seq!['e'],
        CursorStyle::ResizeLeftRight => seq!['e', 'w'],
        CursorStyle::ResizeUp => seq!['n'],
        CursorStyle::ResizeDown => seq!['s'],
        CursorStyle::ResizeUpDown => seq!['n', 's'],
        CursorStyle::ResizeUpLeftDownRight => seq!['n', 'w', 's', 'e'],
        CursorStyle::ResizeUpRightDownLeft => seq!['n', 'e', 's', 'w'],
        _ => Seq::empty(),
    }
}

/// A style that resizes sides is named by them, and by what it does.
#[verifier::rlimit(50)]
pub proof fn resize_cursors_name_their_sides(style: CursorStyle)
    ensures
        sides(style).len() > 0 ==> cursor_name_spec(style) == sides(style) + "-resize"@,
{
    reveal_strlit("-resize");
    reveal_strlit("w-resize");
    reveal_strlit("e-resize");
    reveal_strlit("ew-resize");
    reveal_strlit("n-resize");
    reveal_strlit("s-resize");
    reveal_strlit("ns-resize");
    reveal_strlit("nwse-resize");
    reveal_strlit("nesw-resize");
    if sides(style).len() > 0 {
        assert(cursor_name_spec(style) =~= sides(style) + "-resize"@);
    }
}

/// The style that a consumer shows for a name.
pub open spec fn shown_as(name: Seq<char>) -> CursorStyle {
    if name == "text"@ {
        CursorStyle::IBeam
    } else if name == "vertical-text"@ {
        CursorStyle::IBeamCursorForVerticalLayout
    } else if name == "crosshair"@ {
        CursorStyle::Crosshair
    } else if name == "grabbing"@ {
        CursorStyle::ClosedHand
    } else if name == "grab"@ {
        CursorStyle::OpenHand
    } else if name == "pointer"@ {
        CursorStyle::PointingHand
    } else if name == "col-resize"@ {
        CursorStyle::ResizeColumn
    } else if name == "row-resize"@ {
        CursorStyle::ResizeRow
    } else if name == "not-allowed"@ {
        CursorStyle::OperationNotAllowed
    } else {
        CursorStyle::Arrow
    }
}

/// A consumer shows the style that was asked for: every style that resizes no side has a
/// name that stands for it alone. One without a name of its own is shown as an arrow.
#[verifier::rlimit(50)]
pub proof fn cursors_are_shown_as_asked(style: CursorStyle)
    ensures
        sides(style).len() == 0 ==> shown_as(cursor_name_spec(style)) == if style
            == CursorStyle::Other {
            CursorStyle::Arrow
        } else {
            style
        },
{
    reveal_strlit("default");
    reveal_strlit("text");
    reveal_strlit("crosshair");
    reveal_strlit("grabbing");
    reveal_strlit("grab");
    reveal_strlit("pointer");
    reveal_strlit("col-resize");
    reveal_strlit("row-resize");
    reveal_strlit("vertical-text");
    reveal_strlit("not-allowed");
    let name = cursor_name_spec(style);
    assert("text"@.len() == 4 && "grab"@.len() == 4 && "text"@[0] == 't' && "grab"@[0] == 'g');
    assert("default"@.len() == 7 && "pointer"@.len() == 7 && "default"@[0] == 'd' && "pointer"@[0]
        == 'p');
    assert("crosshair"@.len() == 9 && "grabbing"@.len() == 8 && "vertical-text"@.len() == 13);
    assert("col-resize"@.len() == 10 && "row-resize"@.len() == 10 && "col-resize"@[0] == 'c'
        && "row-resize"@[0] == 'r');
    assert("not-allowed"@.len() == 11);
}

} // verus!
