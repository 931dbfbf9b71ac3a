//! The state of the input buttons.

use vstd::prelude::*;

verus! {

/// Number of input buttons.
pub const BUTTON_COUNT: usize = 6;

/// An input button.
#[derive(Debug, Clone, Copy, PartialEq, Eq, Structural)]
pub enum Button {
    Up,
    Down,
    Left,
    Right,
    Accept,
    Cancel,
}

impl Button {
    /// Position of the button's state among the states of all buttons.
    pub open spec fn position(self) -> int {
        match self {
            Button::Up => 0,
            Button::Down => 1,
            Button::Left => 2,
            Button::Right => 3,
            Button::Accept => 4,
            Button::Cancel => 5,
        }
    }

    /// Position of the button's state among the states of all buttons.
    pub fn index(self) -> (res: usize)
        ensures
            res == self.position(),
            res < BUTTON_COUNT,
    {
        match self {
            Button::Up => 0,
            Button::Down => 1,
            Button::Left => 2,
            Button::Right => 3,
            Button::Accept => 4,
            Button::Cancel => 5,
        }
    }
}

/// State of an input button.
#[derive(Debug, Clone, Copy, PartialEq, Eq, Structural)]
pub struct ButtonState {
    /// Instant the button was first pressed or `None` if the button is not
    /// pressed.
    pub pressed_at: Option<u64>,
    /// Whether the press was repeated, which is `true` periodically while
    /// the button is held down.
    pub repeated: bool,
}

/// A change of a button that the window reported.
#[derive(Debug, Clone, Copy, PartialEq, Eq, Structural)]
pub enum ButtonEvent {
    Pressed(Button),
    Released(Button),
}

/// The state of a button after an event: a press keeps the instant of an
/// earlier press and counts as repeated, a release clears both.
pub open spec fn after_event(state: ButtonState, now: u64) -> ButtonState {
    ButtonState {
        pressed_at: match state.pressed_at {
            Some(at) => Some(at),
            None => Some(now),
        },
        repeated: true,
    }
}

/// The states of all buttons after one event.
pub open spec fn apply_event(states: Seq<ButtonState>, event: ButtonEvent, now: u64) -> Seq<
    ButtonState,
> {
    match event {
        ButtonEvent::Pressed(button) => states.update(
            button.position(),
            after_event(states[button.position()], now),
        ),
        ButtonEvent::Released(button) => states.update(
            button.position(),
            ButtonState { pressed_at: None, repeated: false },
        ),
    }
}

/// The states of all buttons after a list of events, in order.
pub open spec fn apply_events(states: Seq<ButtonState>, events: Seq<ButtonEvent>, now: u64) -> Seq<
    ButtonState,
>
    decreases events.len(),
{
    if events.len() == 0 {
        states
    } else {
        apply_event(apply_events(states, events.drop_last(), now), events.last(), now)
    }
}

/// The states with no press counted as repeated.
pub open spec fn unrepeated(states: Seq<ButtonState>) -> Seq<ButtonState> {
    Seq::new(
        states.len(),
        |i: int| ButtonState { pressed_at: states[i].pressed_at, repeated: false },
    )
}

/// Resource that stores the current input state.
#[derive(Debug)]
pub struct Input {
    /// State of all available input buttons.
    pub buttons: Vec<ButtonState>,
}

impl Input {
    /// There is a state for every button.
    pub open spec fn wf(&self) -> bool {
        self.buttons@.len() == BUTTON_COUNT
    }

    /// The state in which no button is pressed.
    pub fn new() -> (res: Self)
        ensures
            res.wf(),
            forall|i: int|
                0 <= i < BUTTON_COUNT ==> res.buttons@[i] == (ButtonState {
                    pressed_at: None,
                    repeated: false,
                }),
    {
        let mut buttons: Vec<ButtonState> = Vec::new();
        let mut i: usize = 0;
        while i < BUTTON_COUNT
            invariant
                i <= BUTTON_COUNT,
                buttons@.len() == i,
                forall|j: int|
                    0 <= j < i ==> buttons@[j] == (ButtonState { pressed_at: None, repeated: false }),
            decreases BUTTON_COUNT - i,
        {
            buttons.push(ButtonState { pressed_at: None, repeated: false });
            i += 1;
        }
        Input { buttons }
    }

    /// Returns `true` while the given `button` is held down.
    pub fn is_pressed(&self, button: Button) -> (res: bool)
        requires
            self.wf(),
        ensures
            res == self.buttons@[button.position()].pressed_at is Some,
    {
        self.buttons[button.index()].pressed_at.is_some()
    }

    /// Returns `true` on the first frame the given `button` is pressed and
    /// periodically while it is held down.
    ///
    /// This is useful for discrete actions that should repeatedly happen
    /// while a button is held, such as selecting menu items with the
    /// directional pad.
    pub fn is_pressed_repeated(&self, button: Button) -> (res: bool)
        requires
            self.wf(),
        ensures
            res == self.buttons@[button.position()].repeated,
    {
        self.buttons[button.index()].repeated
    }

    /// Updates the state for a frame: no press counts as repeated any
    /// more, then the frame's events are applied in order.
    pub fn update(&mut self, now: u64, events: &Vec<ButtonEvent>)
        requires
            old(self).wf(),
        ensures
            final(self).wf(),
            final(self).buttons@ == apply_events(unrepeated(old(self).buttons@), events@, now),
    {
        let mut i: usize = 0;
        while i < BUTTON_COUNT
            invariant
                i <= BUTTON_COUNT,
                self.buttons@.len() == BUTTON_COUNT,
                forall|j: int|
                    0 <= j < i ==> self.buttons@[j] == (ButtonState {
                        pressed_at: old(self).buttons@[j].pressed_at,
                        repeated: false,
                    }),
                forall|j: int| i <= j < BUTTON_COUNT ==> self.buttons@[j] == old(self).buttons@[j],
            decreases BUTTON_COUNT - i,
        {
            let state = self.buttons[i];
            self.buttons.set(i, ButtonState { pressed_at: state.pressed_at, repeated: false });
            i += 1;
        }
        proof {
            assert(self.buttons@ =~= unrepeated(old(self).buttons@));
        }
        let ghost start = self.buttons@;
        let mut k: usize = 0;
        while k < events.len()
            invariant
                k <= events.len(),
                self.buttons@.len() == BUTTON_COUNT,
                start.len() == BUTTON_COUNT,
                self.buttons@ == apply_events(start, events@.subrange(0, k as int), now),
            decreases events.len() - k,
        {
            let ghost before = self.buttons@;
            match events[k] {
                ButtonEvent::Pressed(button) => {
                    let at = button.index();
                    let state = self.buttons[at];
                    let pressed_at = match state.pressed_at {
                        Some(at) => Some(at),
                        None => Some(now),
                    };
                    self.buttons.set(at, ButtonState { pressed_at, repeated: true });
                },
                ButtonEvent::Released(button) => {
                    self.buttons.set(
                        button.index(),
                        ButtonState { pressed_at: None, repeated: false },
                    );
                },
            }
            proof {
                let upto = events@.subrange(0, k + 1);
                assert(upto.drop_last() =~= events@.subrange(0, k as int));
                assert(upto.last() == events@[k as int]);
                assert(self.buttons@ =~= apply_event(before, events@[k as int], now));
            }
            k += 1;
        }
        proof {
            assert(events@.subrange(0, events@.len() as int) =~= events@);
        }
    }
}

} // verus!
