//! Input events on their way to the virtual machine.
//!
//! Events wait in two queues, one of the keyboard and one of the mouse. They are queued in
//! batches, and every batch ends with a report that tells the machine to act on it.

use std::collections::VecDeque;
use vstd::prelude::*;

verus! {

/// Events that separate batches.
pub const EV_SYN: u16 = 0;

/// Events of keys and buttons.
pub const EV_KEY: u16 = 1;

/// Events of relative movement.
pub const EV_REL: u16 = 2;

/// Events of absolute position.
pub const EV_ABS: u16 = 3;

/// The end of a batch.
pub const SYN_REPORT: u16 = 0;

/// The horizontal position.
pub const ABS_X: u16 = 0;

/// The vertical position.
pub const ABS_Y: u16 = 1;

/// The horizontal wheel.
pub const REL_HWHEEL: u16 = 6;

/// The vertical wheel.
pub const REL_WHEEL: u16 = 8;

/// The code of the caps lock key.
pub const KEY_CAPSLOCK: u16 = 58;

/// The value of a key that goes up.
pub const KEY_UP: u32 = 0;

/// The value of a key that goes down.
pub const KEY_DOWN: u32 = 1;

/// The value of a key that is held down and repeats.
pub const KEY_REPEAT: u32 = 2;

/// One event as the virtual machine reads it.
#[derive(Clone, Copy, Debug, PartialEq, Eq)]
pub struct KrunInputEvent {
    pub event_type: u16,
    pub code: u16,
    pub value: u32,
}

/// The end of a batch.
pub open spec fn report() -> KrunInputEvent {
    KrunInputEvent { event_type: EV_SYN, code: SYN_REPORT, value: 0 }
}

/// The batch of one key or button that goes up, goes down or repeats.
pub open spec fn key_batch(code: u16, value: u32) -> Seq<KrunInputEvent> {
    seq![KrunInputEvent { event_type: EV_KEY, code, value }, report()]
}

/// The batch of a move to an absolute position.
pub open spec fn move_batch(x: u32, y: u32) -> Seq<KrunInputEvent> {
    seq![
        KrunInputEvent { event_type: EV_ABS, code: ABS_X, value: x },
        KrunInputEvent { event_type: EV_ABS, code: ABS_Y, value: y },
        report(),
    ]
}

/// The batch of a button that goes down or up.
pub open spec fn button_batch(button: u16, pressed: bool) -> Seq<KrunInputEvent> {
    key_batch(
        button,
        if pressed {
            KEY_DOWN
        } else {
            KEY_UP
        },
    )
}

/// The batches of one press of the caps lock key.
pub open spec fn capslock_batches() -> Seq<KrunInputEvent> {
    key_batch(KEY_CAPSLOCK, KEY_DOWN) + key_batch(KEY_CAPSLOCK, KEY_UP)
}

/// The event of a wheel, unless it stands still.
pub open spec fn wheel_events(code: u16, turn: i32) -> Seq<KrunInputEvent> {
    if turn == 0 {
        seq![]
    } else {
        seq![KrunInputEvent { event_type: EV_REL, code, value: turn as u32 }]
    }
}

/// The batch of a turn of the wheels, the vertical one first.
pub open spec fn scroll_batch(dx: i32, dy: i32) -> Seq<KrunInputEvent> {
    wheel_events(REL_WHEEL, dy) + wheel_events(REL_HWHEEL, dx) + seq![report()]
}

/// A modifier key: its flag among the modifier flags, and its code.
#[derive(Clone, Copy, Debug, PartialEq, Eq)]
pub struct ModifierMapping {
    pub flag: usize,
    pub linux_code: u16,
}

/// The modifier keys: shift, control, option and command.
pub open spec fn modifiers() -> Seq<ModifierMapping> {
    seq![
        ModifierMapping { flag: 0x2_0000, linux_code: 42 },
        ModifierMapping { flag: 0x4_0000, linux_code: 29 },
        ModifierMapping { flag: 0x8_0000, linux_code: 56 },
        ModifierMapping { flag: 0x10_0000, linux_code: 125 },
    ]
}

/// Whether a modifier is held according to `flags`.
pub open spec fn held(flags: usize, modifier: ModifierMapping) -> bool {
    flags & modifier.flag != 0
}

/// The batch of a modifier that goes up or down as the flags change, or nothing if it stays.
pub open spec fn change_batch(
    before: usize,
    after: usize,
    modifier: ModifierMapping,
) -> Seq<KrunInputEvent> {
    if held(before, modifier) && !held(after, modifier) {
        key_batch(modifier.linux_code, KEY_UP)
    } else if !held(before, modifier) && held(after, modifier) {
        key_batch(modifier.linux_code, KEY_DOWN)
    } else {
        seq![]
    }
}

/// The batches of all modifiers as the flags change.
pub open spec fn sync_batches(before: usize, after: usize) -> Seq<KrunInputEvent> {
    change_batch(before, after, modifiers()[0]) + change_batch(before, after, modifiers()[1])
        + change_batch(before, after, modifiers()[2]) + change_batch(
        before,
        after,
        modifiers()[3],
    )
}

/// The batches that let go of all modifiers.
pub open spec fn release_batches() -> Seq<KrunInputEvent> {
    key_batch(modifiers()[0].linux_code, KEY_UP) + key_batch(modifiers()[1].linux_code, KEY_UP)
        + key_batch(modifiers()[2].linux_code, KEY_UP) + key_batch(
        modifiers()[3].linux_code,
        KEY_UP,
    )
}

/// The batches of the first `count` modifiers as the flags change.
spec fn sync_prefix(before: usize, after: usize, count: nat) -> Seq<KrunInputEvent>
    decreases count,
{
    if count == 0 {
        seq![]
    } else {
        sync_prefix(before, after, (count - 1) as nat) + change_batch(
            before,
            after,
            modifiers()[count - 1],
        )
    }
}

/// The batches that let go of the first `count` modifiers.
spec fn release_prefix(count: nat) -> Seq<KrunInputEvent>
    decreases count,
{
    if count == 0 {
        seq![]
    } else {
        release_prefix((count - 1) as nat) + key_batch(modifiers()[count - 1].linux_code, KEY_UP)
    }
}

/// Events that wait to be read, the oldest first.
pub struct EventQueue {
    events: VecDeque<KrunInputEvent>,
}

impl View for EventQueue {
    type V = Seq<KrunInputEvent>;

    closed spec fn view(&self) -> Seq<KrunInputEvent> {
        self.events@
    }
}

impl EventQueue {
    /// A queue in which nothing waits.
    pub fn new() -> (queue: EventQueue)
        ensures
            queue@ == Seq::<KrunInputEvent>::empty(),
    {
        EventQueue { events: VecDeque::new() }
    }

    /// Let a batch wait behind what waits already.
    pub fn push_batch(&mut self, batch: &[KrunInputEvent])
        ensures
            final(self)@ == old(self)@ + batch@,
    {
        let mut i: usize = 0;
        while i < batch.len()
            invariant
                i <= batch@.len(),
                self@ == old(self)@ + batch@.take(i as int),
            decreases batch@.len() - i,
        {
            self.events.push_back(batch[i]);
            assert(batch@.take(i + 1) =~= batch@.take(i as int).push(batch@[i as int]));
            i = i + 1;
        }
        assert(batch@.take(i as int) =~= batch@);
    }

    /// Take the oldest event, if one waits.
    pub fn pop(&mut self) -> (event: Option<KrunInputEvent>)
        ensures
            match event {
                Some(event) => old(self)@ == seq![event] + final(self)@,
                None => old(self)@.len() == 0 && final(self)@ == old(self)@,
            },
    {
        self.events.pop_front()
    }
}

/// What an `InputState` holds: what waits in either queue, and the modifier flags that the
/// virtual machine knows of.
#[verifier::ext_equal]
pub struct InputModel {
    pub keyboard: Seq<KrunInputEvent>,
    pub mouse: Seq<KrunInputEvent>,
    pub flags: usize,
}

impl InputModel {
    /// `events` wait behind what waits already of the keyboard.
    pub open spec fn with_keyboard(self, events: Seq<KrunInputEvent>) -> InputModel {
        InputModel { keyboard: self.keyboard + events, ..self }
    }

    /// `events` wait behind what waits already of the mouse.
    pub open spec fn with_mouse(self, events: Seq<KrunInputEvent>) -> InputModel {
        InputModel { mouse: self.mouse + events, ..self }
    }

    /// The oldest event of `device` is read, if one waits: what waits then, and the event.
    pub open spec fn read(self, device: InputDevice) -> (InputModel, Option<KrunInputEvent>) {
        match device {
            InputDevice::Keyboard => if self.keyboard.len() == 0 {
                (self, None)
            } else {
                (
                    InputModel { keyboard: self.keyboard.drop_first(), ..self },
                    Some(self.keyboard[0]),
                )
            },
            InputDevice::Mouse => if self.mouse.len() == 0 {
                (self, None)
            } else {
                (InputModel { mouse: self.mouse.drop_first(), ..self }, Some(self.mouse[0]))
            },
        }
    }

    /// The virtual machine knows of the modifier flags `flags`.
    pub open spec fn with_flags(self, flags: usize) -> InputModel {
        InputModel { flags, ..self }
    }
}

/// The input devices of a virtual machine.
pub struct InputState {
    keyboard: EventQueue,
    mouse: EventQueue,
    last_modifier_flags: usize,
}

impl View for InputState {
    type V = InputModel;

    closed spec fn view(&self) -> InputModel {
        InputModel {
            keyboard: self.keyboard@,
            mouse: self.mouse@,
            flags: self.last_modifier_flags,
        }
    }
}

impl InputState {
    /// Devices that have sent nothing, with no modifier held.
    pub fn new() -> (input: InputState)
        ensures
            input@ == (InputModel { keyboard: seq![], mouse: seq![], flags: 0 }),
    {
        InputState {
            keyboard: EventQueue::new(),
            mouse: EventQueue::new(),
            last_modifier_flags: 0,
        }
    }
}

/// The input devices of a virtual machine, one by one.
#[derive(Clone, Copy, Debug, PartialEq, Eq, Structural)]
pub enum InputDevice {
    Keyboard,
    Mouse,
}

/// Which device the virtual machine is to have.
#[derive(Clone, Copy, Debug, PartialEq, Eq)]
pub struct KrunInputConfig {
    pub device: InputDevice,
}

/// From which device's queue the virtual machine reads events.
#[derive(Clone, Copy, Debug, PartialEq, Eq)]
pub struct KrunInputEventProvider {
    pub device: InputDevice,
}

/// The keyboard, and where its events come from.
pub fn create_keyboard_backend() -> (backend: (KrunInputConfig, KrunInputEventProvider))
    ensures
        backend.0.device == InputDevice::Keyboard,
        backend.1.device == InputDevice::Keyboard,
{
    (
        KrunInputConfig { device: InputDevice::Keyboard },
        KrunInputEventProvider { device: InputDevice::Keyboard },
    )
}

/// The mouse, and where its events come from.
pub fn create_mouse_backend() -> (backend: (KrunInputConfig, KrunInputEventProvider))
    ensures
        backend.0.device == InputDevice::Mouse,
        backend.1.device == InputDevice::Mouse,
{
    (
        KrunInputConfig { device: InputDevice::Mouse },
        KrunInputEventProvider { device: InputDevice::Mouse },
    )
}

impl KrunInputEventProvider {
    /// Take the oldest event of the device, if one waits. The other device's events stay.
    pub fn next_event(&self, input: &mut InputState) -> (event: Option<KrunInputEvent>)
        ensures
            (final(input)@, event) == old(input)@.read(self.device),
            match (self.device, event) {
                (InputDevice::Keyboard, Some(event)) => old(input)@ == (InputModel {
                    keyboard: seq![event] + final(input)@.keyboard,
                    ..final(input)@
                }),
                (InputDevice::Mouse, Some(event)) => old(input)@ == (InputModel {
                    mouse: seq![event] + final(input)@.mouse,
                    ..final(input)@
                }),
                (InputDevice::Keyboard, None) => old(input)@.keyboard.len() == 0
                    && final(input)@ == old(input)@,
                (InputDevice::Mouse, None) => old(input)@.mouse.len() == 0 && final(input)@ == old(
                    input,
                )@,
            },
    {
        match self.device {
            InputDevice::Keyboard => input.keyboard.pop(),
            InputDevice::Mouse => input.mouse.pop(),
        }
    }
}

fn syn_report() -> (event: KrunInputEvent)
    ensures
        event == report(),
{
    KrunInputEvent { event_type: EV_SYN, code: SYN_REPORT, value: 0 }
}

fn modifier_map() -> (map: [ModifierMapping; 4])
    ensures
        map@ == modifiers(),
{
    let map = [
        ModifierMapping { flag: 0x2_0000, linux_code: 42 },
        ModifierMapping { flag: 0x4_0000, linux_code: 29 },
        ModifierMapping { flag: 0x8_0000, linux_code: 56 },
        ModifierMapping { flag: 0x10_0000, linux_code: 125 },
    ];
    assert(map@ =~= modifiers());
    map
}

/// Send a key that goes up, goes down or repeats.
pub fn send_key_event(input: &mut InputState, code: u16, value: u32)
    ensures
        final(input)@ == old(input)@.with_keyboard(key_batch(code, value)),
{
    let batch = [KrunInputEvent { event_type: EV_KEY, code, value }, syn_report()];
    assert(batch@ =~= key_batch(code, value));
    input.keyboard.push_batch(&batch);
}

/// Send a move of the mouse to an absolute position.
pub fn send_mouse_move_abs(input: &mut InputState, x: u32, y: u32)
    ensures
        final(input)@ == old(input)@.with_mouse(move_batch(x, y)),
{
    let batch = [
        KrunInputEvent { event_type: EV_ABS, code: ABS_X, value: x },
        KrunInputEvent { event_type: EV_ABS, code: ABS_Y, value: y },
        syn_report(),
    ];
    assert(batch@ =~= move_batch(x, y));
    input.mouse.push_batch(&batch);
}

/// Send a button of the mouse that goes down or up.
pub fn send_mouse_button(input: &mut InputState, button: u16, pressed: bool)
    ensures
        final(input)@ == old(input)@.with_mouse(button_batch(button, pressed)),
        final(input)@ == old(input)@.with_mouse(
            key_batch(
                button,
                if pressed {
                    KEY_DOWN
                } else {
                    KEY_UP
                },
            ),
        ),
{
    let value: u32 = if pressed {
        KEY_DOWN
    } else {
        KEY_UP
    };
    let batch = [KrunInputEvent { event_type: EV_KEY, code: button, value }, syn_report()];
    assert(batch@ =~= key_batch(button, value));
    input.mouse.push_batch(&batch);
}

/// Send a turn of the mouse's wheels.
pub fn send_mouse_scroll(input: &mut InputState, dx: i32, dy: i32)
    ensures
        final(input)@ == old(input)@.with_mouse(scroll_batch(dx, dy)),
{
    let mut batch: Vec<KrunInputEvent> = Vec::new();
    if dy != 0 {
        batch.push(KrunInputEvent { event_type: EV_REL, code: REL_WHEEL, value: dy as u32 });
    }
    if dx != 0 {
        batch.push(KrunInputEvent { event_type: EV_REL, code: REL_HWHEEL, value: dx as u32 });
    }
    batch.push(syn_report());
    assert(batch@ =~= scroll_batch(dx, dy));
    input.mouse.push_batch(batch.as_slice());
}

/// Send the modifiers that go down or up as the flags become `new_flags`.
pub fn sync_modifiers(input: &mut InputState, new_flags: usize)
    ensures
        final(input)@ == old(input)@.with_keyboard(
            sync_batches(old(input)@.flags, new_flags),
        ).with_flags(new_flags),
{
    let old_flags = input.last_modifier_flags;
    input.last_modifier_flags = new_flags;
    let map = modifier_map();
    let mut i: usize = 0;
    while i < map.len()
        invariant
            i <= map@.len(),
            map@ == modifiers(),
            old_flags == old(input)@.flags,
            input@ == old(input)@.with_keyboard(
                sync_prefix(old_flags, new_flags, i as nat),
            ).with_flags(new_flags),
        decreases map@.len() - i,
    {
        let modifier = map[i];
        let was = old_flags & modifier.flag != 0;
        let now = new_flags & modifier.flag != 0;
        if was && !now {
            send_key_event(input, modifier.linux_code, KEY_UP);
        } else if !was && now {
            send_key_event(input, modifier.linux_code, KEY_DOWN);
        }
        i = i + 1;
    }
    proof {
        reveal_with_fuel(sync_prefix, 5);
        assert(sync_prefix(old_flags, new_flags, 4) =~= sync_batches(old_flags, new_flags));
    }
}

/// Let go of every modifier, whether or not it was held.
pub fn release_all_modifiers(input: &mut InputState)
    ensures
        final(input)@ == old(input)@.with_keyboard(release_batches()).with_flags(0),
{
    input.last_modifier_flags = 0;
    let map = modifier_map();
    let mut i: usize = 0;
    while i < map.len()
        invariant
            i <= map@.len(),
            map@ == modifiers(),
            input@ == old(input)@.with_keyboard(release_prefix(i as nat)).with_flags(0),
        decreases map@.len() - i,
    {
        send_key_event(input, map[i].linux_code, KEY_UP);
        i = i + 1;
    }
    proof {
        reveal_with_fuel(release_prefix, 5);
        assert(release_prefix(4) =~= release_batches());
    }
}

/// Send one press of the caps lock key, which toggles it.
pub fn send_capslock_toggle(input: &mut InputState)
    ensures
        final(input)@ == old(input)@.with_keyboard(capslock_batches()),
        final(input)@ == old(input)@.with_keyboard(
            key_batch(KEY_CAPSLOCK, KEY_DOWN) + key_batch(KEY_CAPSLOCK, KEY_UP),
        ),
{
    let batch = [
        KrunInputEvent { event_type: EV_KEY, code: KEY_CAPSLOCK, value: KEY_DOWN },
        syn_report(),
        KrunInputEvent { event_type: EV_KEY, code: KEY_CAPSLOCK, value: KEY_UP },
        syn_report(),
    ];
    assert(batch@ =~= key_batch(KEY_CAPSLOCK, KEY_DOWN) + key_batch(KEY_CAPSLOCK, KEY_UP));
    input.keyboard.push_batch(&batch);
}

} // verus!
