//! From input messages to events.
//!
//! Mouse events carry the current position and the held button, but the messages
//! report moves and buttons separately, so the last of each is remembered.

use vstd::prelude::*;

use crate::embed_palette::{set_embed_palette, EmbedBridge, EmbedPalette};
use crate::events::{
    no_modifiers, Keystroke, LogicalPoint, PlatformInput, ScrollDelta, TouchPhase,
};
use crate::input::{
    mouse_button, mouse_button_spec, EmbedInput, Modifiers, MouseButton, NavigationDirection,
};
use crate::linux::clock::{bridge_after, clipboard_after};

verus! {

/// Where the pointer is, and which button is held.
#[derive(Clone, Copy, Debug, PartialEq, Eq, Structural)]
pub struct EmbedInputState {
    pub position: LogicalPoint,
    pub pressed_button: Option<MouseButton>,
}

/// What is left to do with a message.
#[derive(Debug)]
pub enum EmbedAction {
    /// Hand the window an event.
    Dispatch(PlatformInput),
    /// Resize the window to device pixels.
    Resize { width: u32, height: u32 },
    /// Adopt a scale, in hundredths.
    SetScale { percent: u32 },
    /// Pace frames on another display.
    RetargetClock { display_id: u32 },
    /// Nothing: the palette or the clipboard was stored, or the window takes no note.
    Stored,
}

impl EmbedInputState {
    /// The state before any input.
    pub open spec fn initial() -> EmbedInputState {
        EmbedInputState {
            position: LogicalPoint { x_bits: 0, y_bits: 0, scale_percent: 100 },
            pressed_button: None,
        }
    }

    /// The state after a message, with the scale at which it arrived.
    pub open spec fn after(self, input: EmbedInput, scale_percent: u32) -> EmbedInputState {
        match input {
            EmbedInput::PointerMove { x_bits, y_bits } => EmbedInputState {
                position: LogicalPoint { x_bits, y_bits, scale_percent },
                ..self
            },
            EmbedInput::Button { button, pressed } => EmbedInputState {
                pressed_button: if pressed {
                    Some(mouse_button_spec(button))
                } else {
                    None
                },
                ..self
            },
            _ => self,
        }
    }

    /// What to do with a message that led to this state.
    pub open spec fn action(
        self,
        input: EmbedInput,
        scale_percent: u32,
        lines_per_notch: u32,
    ) -> EmbedAction {
        match input {
            EmbedInput::PointerMove { .. } => EmbedAction::Dispatch(
                PlatformInput::MouseMove {
                    position: self.position,
                    pressed_button: self.pressed_button,
                    modifiers: no_modifiers(),
                },
            ),
            EmbedInput::Button { button, pressed } => if pressed {
                EmbedAction::Dispatch(
                    PlatformInput::MouseDown {
                        button: mouse_button_spec(button),
                        position: self.position,
                        modifiers: no_modifiers(),
                        click_count: 1,
                        first_mouse: false,
                    },
                )
            } else {
                EmbedAction::Dispatch(
                    PlatformInput::MouseUp {
                        button: mouse_button_spec(button),
                        position: self.position,
                        modifiers: no_modifiers(),
                        click_count: 1,
                    },
                )
            },
            EmbedInput::Scroll { dx_bits, dy_bits } => EmbedAction::Dispatch(
                PlatformInput::ScrollWheel {
                    position: self.position,
                    delta: ScrollDelta::Lines { dx_bits, dy_bits, lines_per_notch },
                    modifiers: no_modifiers(),
                    touch_phase: TouchPhase::Moved,
                },
            ),
            EmbedInput::ScrollPixels { dx_bits, dy_bits } => EmbedAction::Dispatch(
                PlatformInput::ScrollWheel {
                    position: self.position,
                    delta: ScrollDelta::Pixels { dx_bits, dy_bits, scale_percent },
                    modifiers: no_modifiers(),
                    touch_phase: TouchPhase::Moved,
                },
            ),
            EmbedInput::ModifiersChanged { modifiers } => EmbedAction::Dispatch(
                PlatformInput::ModifiersChanged { modifiers, capslock: false },
            ),
            EmbedInput::Key { key, key_char, modifiers, pressed } => {
                let keystroke = Keystroke { modifiers, key, key_char };
                if pressed {
                    EmbedAction::Dispatch(
                        PlatformInput::KeyDown {
                            keystroke,
                            is_held: false,
                            prefer_character_input: false,
                        },
                    )
                } else {
                    EmbedAction::Dispatch(PlatformInput::KeyUp { keystroke })
                }
            },
            EmbedInput::Resize { width, height } => EmbedAction::Resize { width, height },
            EmbedInput::ScalePercent { pct } => EmbedAction::SetScale { percent: pct },
            EmbedInput::Display { display_id } => EmbedAction::RetargetClock { display_id },
            EmbedInput::Palette { .. } => EmbedAction::Stored,
            EmbedInput::Clipboard { .. } => EmbedAction::Stored,
        }
    }

    /// The state after messages, each with the scale at which it arrived.
    pub open spec fn after_each(self, inputs: Seq<(EmbedInput, u32)>) -> EmbedInputState
        decreases inputs.len(),
    {
        if inputs.len() == 0 {
            self
        } else {
            let (input, scale_percent) = inputs.last();
            self.after_each(inputs.drop_last()).after(input, scale_percent)
        }
    }

    /// The state before any input.
    pub fn new() -> (state: EmbedInputState)
        ensures
            state == EmbedInputState::initial(),
    {
        EmbedInputState {
            position: LogicalPoint { x_bits: 0, y_bits: 0, scale_percent: 100 },
            pressed_button: None,
        }
    }

    /// Applies one message, at the window's scale and with the lines that a notch
    /// scrolls. Stores a palette in the bridge and clipboard text in the cache;
    /// returns what else is to be done, and whether that is to dispatch an event rather
    /// than one of the messages that the window or the session consumes itself.
    pub fn apply(
        &mut self,
        input: EmbedInput,
        scale_percent: u32,
        lines_per_notch: u32,
        bridge: &mut EmbedBridge,
        clipboard: &mut Option<String>,
    ) -> (result: (bool, EmbedAction))
        ensures
            *final(self) == old(self).after(input, scale_percent),
            result.1 == final(self).action(input, scale_percent, lines_per_notch),
            result.0 == (result.1 is Dispatch),
            final(bridge)@ == bridge_after(old(bridge)@, input),
            *final(clipboard) == clipboard_after(*old(clipboard), input),
    {
        match input {
            EmbedInput::PointerMove { x_bits, y_bits } => {
                self.position = LogicalPoint { x_bits, y_bits, scale_percent };
                let event = PlatformInput::MouseMove {
                    position: self.position,
                    pressed_button: self.pressed_button,
                    modifiers: Modifiers::default(),
                };
                (true, EmbedAction::Dispatch(event))
            },
            EmbedInput::Button { button, pressed } => {
                let button = mouse_button(button);
                if pressed {
                    self.pressed_button = Some(button);
                    let event = PlatformInput::MouseDown {
                        button,
                        position: self.position,
                        modifiers: Modifiers::default(),
                        click_count: 1,
                        first_mouse: false,
                    };
                    (true, EmbedAction::Dispatch(event))
                } else {
                    self.pressed_button = None;
                    let event = PlatformInput::MouseUp {
                        button,
                        position: self.position,
                        modifiers: Modifiers::default(),
                        click_count: 1,
                    };
                    (true, EmbedAction::Dispatch(event))
                }
            },
            EmbedInput::Scroll { dx_bits, dy_bits } => {
                let event = PlatformInput::ScrollWheel {
                    position: self.position,
                    delta: ScrollDelta::Lines { dx_bits, dy_bits, lines_per_notch },
                    modifiers: Modifiers::default(),
                    touch_phase: TouchPhase::Moved,
                };
                (true, EmbedAction::Dispatch(event))
            },
            EmbedInput::ScrollPixels { dx_bits, dy_bits } => {
                let event = PlatformInput::ScrollWheel {
                    position: self.position,
                    delta: ScrollDelta::Pixels { dx_bits, dy_bits, scale_percent },
                    modifiers: Modifiers::default(),
                    touch_phase: TouchPhase::Moved,
                };
                (true, EmbedAction::Dispatch(event))
            },
            EmbedInput::ModifiersChanged { modifiers } => {
                let event = PlatformInput::ModifiersChanged { modifiers, capslock: false };
                (true, EmbedAction::Dispatch(event))
            },
            EmbedInput::Key { key, key_char, modifiers, pressed } => {
                let keystroke = Keystroke { modifiers, key, key_char };
                let event = if pressed {
                    PlatformInput::KeyDown {
                        keystroke,
                        is_held: false,
                        prefer_character_input: false,
                    }
                } else {
                    PlatformInput::KeyUp { keystroke }
                };
                (true, EmbedAction::Dispatch(event))
            },
            EmbedInput::Resize { width, height } => (false, EmbedAction::Resize { width, height }),
            EmbedInput::Palette { colors } => {
                set_embed_palette(bridge, EmbedPalette { colors });
                (false, EmbedAction::Stored)
            },
            EmbedInput::Clipboard { text } => {
                *clipboard = Some(text);
                (false, EmbedAction::Stored)
            },
            EmbedInput::ScalePercent { pct } => (false, EmbedAction::SetScale { percent: pct }),
            EmbedInput::Display { display_id } => {
                (false, EmbedAction::RetargetClock { display_id })
            },
        }
    }
}

/// A drag carries its button: after a press, whatever arrives that is no button
/// message leaves the button held, and a move reports it, at whatever scale each arrives.
pub proof fn drags_carry_the_button(
    state: EmbedInputState,
    button: u8,
    press_scale: u32,
    between: Seq<(EmbedInput, u32)>,
    x_bits: u32,
    y_bits: u32,
    move_scale: u32,
    lines_per_notch: u32,
)
    requires
        forall|i: int| 0 <= i < between.len() ==> !(#[trigger] between[i].0 is Button),
    ensures
        ({
            let press = EmbedInput::Button { button, pressed: true };
            let moved = EmbedInput::PointerMove { x_bits, y_bits };
            let held = state.after(press, press_scale).after_each(between);
            held.after(moved, move_scale).action(moved, move_scale, lines_per_notch)
                == EmbedAction::Dispatch(
                PlatformInput::MouseMove {
                    position: LogicalPoint { x_bits, y_bits, scale_percent: move_scale },
                    pressed_button: Some(mouse_button_spec(button)),
                    modifiers: no_modifiers(),
                },
            )
        }),
{
    only_buttons_change_the_button(
        state.after(EmbedInput::Button { button, pressed: true }, press_scale),
        between,
    );
}

/// Messages other than those of buttons leave the held button as it is.
pub proof fn only_buttons_change_the_button(
    state: EmbedInputState,
    inputs: Seq<(EmbedInput, u32)>,
)
    requires
        forall|i: int| 0 <= i < inputs.len() ==> !(#[trigger] inputs[i].0 is Button),
    ensures
        state.after_each(inputs).pressed_button == state.pressed_button,
    decreases inputs.len(),
{
    if inputs.len() > 0 {
        assert(!(inputs[inputs.len() - 1].0 is Button));
        only_buttons_change_the_button(state, inputs.drop_last());
    }
}

/// A click lands where the pointer moved last: messages other than moves leave the
/// position as it is, a later change of scale included.
pub proof fn only_moves_change_the_position(
    state: EmbedInputState,
    inputs: Seq<(EmbedInput, u32)>,
)
    requires
        forall|i: int| 0 <= i < inputs.len() ==> !(#[trigger] inputs[i].0 is PointerMove),
    ensures
        state.after_each(inputs).position == state.position,
    decreases inputs.len(),
{
    if inputs.len() > 0 {
        assert(!(inputs[inputs.len() - 1].0 is PointerMove));
        only_moves_change_the_position(state, inputs.drop_last());
    }
}

/// The button that a number stands for, as a consumer means it.
pub open spec fn stands_for(number: u8, button: MouseButton) -> bool {
    match button {
        MouseButton::Middle => number == 2,
        MouseButton::Right => number == 3,
        MouseButton::Navigate(NavigationDirection::Back) => number == 8,
        MouseButton::Navigate(NavigationDirection::Forward) => number == 9,
        MouseButton::Left => number != 2 && number != 3 && number != 8 && number != 9,
    }
}

/// One button is pressed, held and released: the press, the moves until the release and the
/// release all name the button that the number stands for, and afterwards none is held. A
/// click is a single one, and never the one that brings a window to the front.
pub proof fn a_press_names_its_button(
    state: EmbedInputState,
    number: u8,
    press_scale: u32,
    between: Seq<(EmbedInput, u32)>,
    x_bits: u32,
    y_bits: u32,
    move_scale: u32,
    release_scale: u32,
    lines_per_notch: u32,
)
    requires
        forall|i: int| 0 <= i < between.len() ==> !(#[trigger] between[i].0 is Button),
    ensures
        ({
            let press = EmbedInput::Button { button: number, pressed: true };
            let moved = EmbedInput::PointerMove { x_bits, y_bits };
            let release = EmbedInput::Button { button: number, pressed: false };
            let pressed = state.after(press, press_scale);
            let held = pressed.after_each(between).after(moved, move_scale);
            let released = held.after(release, release_scale);
            &&& pressed.action(press, press_scale, lines_per_notch) matches EmbedAction::Dispatch(
                PlatformInput::MouseDown { button, click_count, first_mouse, modifiers, .. },
            )
            &&& stands_for(number, button)
            &&& click_count == 1 && !first_mouse && modifiers == no_modifiers()
            &&& held.action(moved, move_scale, lines_per_notch) matches EmbedAction::Dispatch(
                PlatformInput::MouseMove { pressed_button: Some(dragged), .. },
            )
            &&& dragged == button
            &&& released.action(release, release_scale, lines_per_notch)
                matches EmbedAction::Dispatch(
                PlatformInput::MouseUp {
                    button: up,
                    click_count: up_count,
                    modifiers: up_modifiers,
                    ..
                },
            )
            &&& up == button && up_count == 1 && up_modifiers == no_modifiers()
            &&& released.pressed_button is None
        }),
{
    only_buttons_change_the_button(
        state.after(EmbedInput::Button { button: number, pressed: true }, press_scale),
        between,
    );
}

/// A press, a release or a scroll happens where the pointer moved last, at the scale that
/// it moved at.
pub proof fn events_happen_at_the_pointer(
    state: EmbedInputState,
    x_bits: u32,
    y_bits: u32,
    move_scale: u32,
    between: Seq<(EmbedInput, u32)>,
    input: EmbedInput,
    scale_percent: u32,
    lines_per_notch: u32,
)
    requires
        forall|i: int| 0 <= i < between.len() ==> !(#[trigger] between[i].0 is PointerMove),
        input is Button || input is Scroll || input is ScrollPixels,
    ensures
        ({
            let moved = EmbedInput::PointerMove { x_bits, y_bits };
            let there = state.after(moved, move_scale).after_each(between);
            let point = LogicalPoint { x_bits, y_bits, scale_percent: move_scale };
            match there.after(input, scale_percent).action(input, scale_percent, lines_per_notch) {
                EmbedAction::Dispatch(PlatformInput::MouseDown { position, .. }) => position
                    == point && (input matches EmbedInput::Button { pressed, .. } && pressed),
                EmbedAction::Dispatch(PlatformInput::MouseUp { position, .. }) => position == point
                    && (input matches EmbedInput::Button { pressed, .. } && !pressed),
                EmbedAction::Dispatch(PlatformInput::ScrollWheel { position, .. }) => position
                    == point && !(input is Button),
                _ => false,
            }
        }),
{
    only_moves_change_the_position(
        state.after(EmbedInput::PointerMove { x_bits, y_bits }, move_scale),
        between,
    );
}

/// A scroll goes as far as the consumer says, along the axes that it says: in notches by
/// the lines of one, in pixels by the scale it arrives at.
pub proof fn scrolls_keep_their_distance(
    state: EmbedInputState,
    across: u32,
    down: u32,
    scale_percent: u32,
    lines_per_notch: u32,
)
    ensures
        state.action(
            EmbedInput::Scroll { dx_bits: across, dy_bits: down },
            scale_percent,
            lines_per_notch,
        ) matches EmbedAction::Dispatch(
            PlatformInput::ScrollWheel {
                delta: ScrollDelta::Lines { dx_bits, dy_bits, lines_per_notch: lines },
                touch_phase: TouchPhase::Moved,
                modifiers,
                ..
            },
        ) && dx_bits == across && dy_bits == down && lines == lines_per_notch && modifiers
            == no_modifiers(),
        state.action(
            EmbedInput::ScrollPixels { dx_bits: across, dy_bits: down },
            scale_percent,
            lines_per_notch,
        ) matches EmbedAction::Dispatch(
            PlatformInput::ScrollWheel {
                delta: ScrollDelta::Pixels { dx_bits, dy_bits, scale_percent: scale },
                touch_phase: TouchPhase::Moved,
                modifiers,
                ..
            },
        ) && dx_bits == across && dy_bits == down && scale == scale_percent && modifiers
            == no_modifiers(),
{
}

/// A key goes down where it is pressed and up where it is released, as the same keystroke;
/// a modifier that changes on its own is reported with the modifiers that are then held.
/// None of them changes where the pointer is or what it holds.
pub proof fn keys_go_as_they_came(
    state: EmbedInputState,
    keystroke: Keystroke,
    pressed: bool,
    scale_percent: u32,
    lines_per_notch: u32,
)
    ensures
        ({
            let input = EmbedInput::Key {
                key: keystroke.key,
                key_char: keystroke.key_char,
                modifiers: keystroke.modifiers,
                pressed,
            };
            &&& state.after(input, scale_percent) == state
            &&& match state.action(input, scale_percent, lines_per_notch) {
                EmbedAction::Dispatch(
                    PlatformInput::KeyDown { keystroke: down, is_held, prefer_character_input },
                ) => pressed && down == keystroke && !is_held && !prefer_character_input,
                EmbedAction::Dispatch(PlatformInput::KeyUp { keystroke: up }) => !pressed && up
                    == keystroke,
                _ => false,
            }
        }),
        ({
            let input = EmbedInput::ModifiersChanged { modifiers: keystroke.modifiers };
            &&& state.after(input, scale_percent) == state
            &&& state.action(input, scale_percent, lines_per_notch) matches EmbedAction::Dispatch(
                PlatformInput::ModifiersChanged { modifiers, capslock },
            )
            &&& modifiers == keystroke.modifiers && !capslock
        }),
{
}

/// A message is either an event for the window or what the session takes itself: a size, a
/// scale and a display are handed on as they came, and a palette and a text are stored.
pub proof fn what_is_no_event_is_handed_on(
    state: EmbedInputState,
    input: EmbedInput,
    scale_percent: u32,
    lines_per_notch: u32,
)
    ensures
        ({
            let action = state.action(input, scale_percent, lines_per_notch);
            &&& action is Dispatch <==> !(input is Resize || input is ScalePercent
                || input is Display || input is Palette || input is Clipboard)
            &&& input matches EmbedInput::Resize { width, height } ==> (action
                matches EmbedAction::Resize { width: w, height: h } && w == width && h == height)
            &&& input matches EmbedInput::ScalePercent { pct } ==> (action
                matches EmbedAction::SetScale { percent } && percent == pct)
            &&& input matches EmbedInput::Display { display_id } ==> (action
                matches EmbedAction::RetargetClock { display_id: display } && display == display_id)
            &&& input is Palette || input is Clipboard ==> action is Stored
            &&& !(action is Dispatch) ==> state.after(input, scale_percent) == state
        }),
{
}

/// Before any input the pointer is at the origin, at the scale of one, and no button is held.
pub proof fn before_any_input_nothing_is_held()
    ensures
        EmbedInputState::initial().position.x_bits == 0,
        EmbedInputState::initial().position.y_bits == 0,
        EmbedInputState::initial().position.scale_percent == 100,
        EmbedInputState::initial().pressed_button is None,
{
}

} // verus!
