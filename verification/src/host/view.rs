//! The view in which the screen is shown and from which input comes.

use super::display::{DisplayModel, DisplayState};
use super::input::{
    capslock_batches, key_batch, release_all_modifiers, release_batches, scroll_batch,
    send_capslock_toggle, send_key_event, send_mouse_scroll, sync_batches, sync_modifiers,
    InputModel, InputState, KEY_CAPSLOCK, KEY_DOWN, KEY_REPEAT, KEY_UP,
};
use std::collections::HashSet;
use vstd::prelude::*;

verus! {

broadcast use vstd::std_specs::hash::group_hash_axioms;

/// The key code with which the view learns of the caps lock key.
pub const CAPSLOCK_KEY_CODE: u16 = 57;

/// The number of the primary mouse button.
pub const PRIMARY_BUTTON: u16 = 0;

/// The number of the secondary mouse button.
pub const SECONDARY_BUTTON: u16 = 1;

/// The variables of the native view. It has none of its own.
#[derive(Clone, Copy, Debug, Default)]
pub struct FramebufferViewIvars;

/// The keys that are down.
pub struct PressedKeys {
    codes: HashSet<u16>,
}

impl View for PressedKeys {
    type V = Set<u16>;

    closed spec fn view(&self) -> Set<u16> {
        self.codes@
    }
}

impl PressedKeys {
    /// No key is down.
    pub fn new() -> (keys: PressedKeys)
        ensures
            keys@ == Set::<u16>::empty(),
    {
        PressedKeys { codes: HashSet::new() }
    }
}

/// The value of the key `code` when it is reported down: it repeats if it is down already.
pub open spec fn press_value(pressed: Set<u16>, code: u16) -> u32 {
    if pressed.contains(code) {
        KEY_REPEAT
    } else {
        KEY_DOWN
    }
}

/// Remember that the key `code` is down. The result is the value to report.
pub fn track_key_press(pressed: &mut PressedKeys, code: u16) -> (value: u32)
    ensures
        value == press_value(old(pressed)@, code),
        final(pressed)@ == old(pressed)@.insert(code),
{
    if pressed.codes.insert(code) {
        KEY_DOWN
    } else {
        KEY_REPEAT
    }
}

/// Remember that the key `code` is up.
pub fn track_key_release(pressed: &mut PressedKeys, code: u16)
    ensures
        final(pressed)@ == old(pressed)@.remove(code),
{
    pressed.codes.remove(&code);
    assert(pressed@ =~= old(pressed)@.remove(code));
}

/// What a `FramebufferView` holds: the keys that are down in it, and the address of the surface
/// that it shows.
#[verifier::ext_equal]
pub struct ViewModel {
    pub pressed: Set<u16>,
    pub displayed: usize,
}

impl ViewModel {
    /// The key `code` is down: the state that it leaves, and what waits to be read then.
    pub open spec fn key_down(self, input: InputModel, code: u16) -> (ViewModel, InputModel) {
        if code == 0 {
            (self, input)
        } else {
            (
                ViewModel { pressed: self.pressed.insert(code), ..self },
                input.with_keyboard(key_batch(code, press_value(self.pressed, code))),
            )
        }
    }

    /// The key `code` is up: the state that it leaves, and what waits to be read then.
    pub open spec fn key_up(self, input: InputModel, code: u16) -> (ViewModel, InputModel) {
        if code == 0 {
            (self, input)
        } else {
            (
                ViewModel { pressed: self.pressed.remove(code), ..self },
                input.with_keyboard(key_batch(code, KEY_UP)),
            )
        }
    }

    /// The display is asked for a frame: the state that it leaves, and the surface to show from
    /// now on, if it is another one.
    pub open spec fn updated(self, display: DisplayModel) -> (ViewModel, Option<usize>) {
        match display.front() {
            Some(front) => (
                ViewModel { displayed: front, ..self },
                if front == self.displayed {
                    None
                } else {
                    Some(front)
                },
            ),
            None => (self, None),
        }
    }
}

/// What waits to be read once the modifier keys have changed to `flags` by the key `key_code`.
pub open spec fn after_flags_changed(input: InputModel, key_code: u16, flags: usize) -> InputModel {
    if key_code == CAPSLOCK_KEY_CODE {
        input.with_keyboard(capslock_batches())
    } else {
        input.with_keyboard(sync_batches(input.flags, flags)).with_flags(flags)
    }
}

/// What waits to be read once the view gets no more input.
pub open spec fn after_resigning(input: InputModel) -> InputModel {
    input.with_keyboard(release_batches()).with_flags(0)
}

/// What waits to be read once the wheels have turned.
pub open spec fn after_scrolling(input: InputModel, dx: i32, dy: i32) -> InputModel {
    if dx == 0 && dy == 0 {
        input
    } else {
        input.with_mouse(scroll_batch(dx, dy))
    }
}

/// The number of the button that a click of the primary button stands for.
pub open spec fn button_clicked(control: bool) -> u16 {
    if control {
        SECONDARY_BUTTON
    } else {
        PRIMARY_BUTTON
    }
}

/// How many pixels of the native screen a pixel takes at the scale `scale`.
pub open spec fn scale_used(scale: u32) -> u32 {
    if scale < 1 {
        1
    } else {
        scale
    }
}

/// What the view remembers between events.
pub struct FramebufferView {
    pressed: PressedKeys,
    last_displayed: usize,
}

impl View for FramebufferView {
    type V = ViewModel;

    closed spec fn view(&self) -> ViewModel {
        ViewModel { pressed: self.pressed@, displayed: self.last_displayed }
    }
}

impl FramebufferView {
    /// A view in which no key is down and which shows nothing.
    pub fn new() -> (view: FramebufferView)
        ensures
            view@ == (ViewModel { pressed: Set::<u16>::empty(), displayed: 0 }),
    {
        FramebufferView { pressed: PressedKeys::new(), last_displayed: 0 }
    }

    /// The key `code` is down. A key that the virtual machine does not have is code zero, and is
    /// passed over.
    pub fn key_down(&mut self, input: &mut InputState, code: u16)
        ensures
            (final(self)@, final(input)@) == old(self)@.key_down(old(input)@, code),
            code == 0 ==> final(self)@ == old(self)@ && final(input)@ == old(input)@,
            code != 0 ==> {
                &&& final(self)@ == (ViewModel {
                    pressed: old(self)@.pressed.insert(code),
                    ..old(self)@
                })
                &&& final(input)@ == old(input)@.with_keyboard(
                    key_batch(code, press_value(old(self)@.pressed, code)),
                )
            },
    {
        if code != 0 {
            let value = track_key_press(&mut self.pressed, code);
            send_key_event(input, code, value);
        }
    }

    /// The key `code` is up. A key that the virtual machine does not have is code zero, and is
    /// passed over.
    pub fn key_up(&mut self, input: &mut InputState, code: u16)
        ensures
            (final(self)@, final(input)@) == old(self)@.key_up(old(input)@, code),
            code == 0 ==> final(self)@ == old(self)@ && final(input)@ == old(input)@,
            code != 0 ==> {
                &&& final(self)@ == (ViewModel {
                    pressed: old(self)@.pressed.remove(code),
                    ..old(self)@
                })
                &&& final(input)@ == old(input)@.with_keyboard(key_batch(code, KEY_UP))
            },
    {
        if code != 0 {
            track_key_release(&mut self.pressed, code);
            send_key_event(input, code, KEY_UP);
        }
    }

    /// The surface to show from now on, if it is another one than the view shows.
    pub fn update_framebuffer(&mut self, display: &mut DisplayState) -> (surface: Option<usize>)
        requires
            old(display).wf(),
        ensures
            (final(self)@, surface) == old(self)@.updated(old(display)@),
            final(display).wf(),
            final(display)@ == old(display)@.refreshed(),
            match old(display)@.front() {
                Some(front) => {
                    &&& final(self)@ == (ViewModel { displayed: front, ..old(self)@ })
                    &&& surface == (if front == old(self)@.displayed {
                        None
                    } else {
                        Some(front)
                    })
                },
                None => surface is None && final(self)@ == old(self)@,
            },
    {
        match display.get_front_surface() {
            Some(surface) => {
                let previous = self.last_displayed;
                self.last_displayed = surface;
                if surface == previous {
                    None
                } else {
                    Some(surface)
                }
            },
            None => None,
        }
    }
}

/// The modifier keys have changed to `flags`, and the event came from the key `key_code`. Caps
/// lock is toggled and leaves the other modifiers as they are.
pub fn flags_changed(input: &mut InputState, key_code: u16, flags: usize)
    ensures
        final(input)@ == after_flags_changed(old(input)@, key_code, flags),
        key_code == CAPSLOCK_KEY_CODE ==> final(input)@ == old(input)@.with_keyboard(
            key_batch(KEY_CAPSLOCK, KEY_DOWN) + key_batch(KEY_CAPSLOCK, KEY_UP),
        ),
        key_code != CAPSLOCK_KEY_CODE ==> final(input)@ == old(input)@.with_keyboard(
            sync_batches(old(input)@.flags, flags),
        ).with_flags(flags),
{
    if key_code == CAPSLOCK_KEY_CODE {
        send_capslock_toggle(input);
        return;
    }
    sync_modifiers(input, flags);
}

/// The view no longer gets input. No modifier is left held, and the view agrees to be left.
pub fn resign_first_responder(input: &mut InputState) -> (agreed: bool)
    ensures
        final(input)@ == after_resigning(old(input)@),
        agreed,
        final(input)@ == old(input)@.with_keyboard(release_batches()).with_flags(0),
{
    release_all_modifiers(input);
    true
}

/// The wheels have turned by whole steps. Wheels that stand still send nothing.
pub fn scroll_wheel(input: &mut InputState, dx: i32, dy: i32)
    ensures
        final(input)@ == after_scrolling(old(input)@, dx, dy),
        dx == 0 && dy == 0 ==> final(input)@ == old(input)@,
        dx != 0 || dy != 0 ==> final(input)@ == old(input)@.with_mouse(scroll_batch(dx, dy)),
{
    if dx != 0 || dy != 0 {
        send_mouse_scroll(input, dx, dy);
    }
}

/// The number of the button that a click of the primary button stands for: with the control key
/// held it is the secondary one.
pub fn clicked_button(control: bool) -> (number: u16)
    ensures
        number == button_clicked(control),
        number == (if control {
            SECONDARY_BUTTON
        } else {
            PRIMARY_BUTTON
        }),
{
    if control {
        SECONDARY_BUTTON
    } else {
        PRIMARY_BUTTON
    }
}

/// How many pixels of the native screen a pixel takes at the scale `scale`: at least one.
pub fn contents_scale(scale: u32) -> (pixels: u32)
    ensures
        pixels == scale_used(scale),
        pixels == (if scale < 1 {
            1
        } else {
            scale
        }),
{
    if scale < 1 {
        1
    } else {
        scale
    }
}

} // verus!
