//! What each thing that happens to the screen and to the input comes to.

use super::capture::{capturable, covers, is_picture, row_len, wide_enough, FramebufferCapture};
use super::display::{
    first_free, incomplete, next_seq, present_surfaces, row_fits, surface_for, DisplayModel,
    FrameStep, ScanoutStep, SetupModel,
};
use super::input::{
    button_batch, capslock_batches, key_batch, modifiers, move_batch, release_batches,
    scroll_batch, sync_batches, InputDevice, InputModel, KrunInputEvent,
};
use super::laws::{law_picture_channels, presented_times};
use super::view::{
    after_flags_changed, after_resigning, after_scrolling, button_clicked, press_value, scale_used,
    ViewModel,
};
use vstd::prelude::*;

verus! {

/// The surface at `place`, if there is one.
pub open spec fn surface_at(display: DisplayModel, place: Option<usize>) -> Option<usize> {
    match place {
        Some(place) if display.surfaces[place as int] != 0 => Some(display.surfaces[place as int]),
        _ => None,
    }
}

/// A display has no screen and no surfaces at first, and draws to the first place.
pub proof fn law_blank(place: int)
    ensures
        ({
            let display = DisplayModel::blank();
            &&& display.surfaces.len() == 4
            &&& 0 <= place < 4 ==> display.surfaces[place] == 0
            &&& display.write == 0
            &&& display.ready is None
            &&& display.shown is None
            &&& display.shown_before is None
            &&& display.frame_seq == 0
            &&& display.last_seen == 0
            &&& display.width == 0
            &&& display.height == 0
            &&& display.stride == 0
        }),
{
}

/// Whatever size the screen had, it has the size that it is given, and the surfaces that are to
/// be made have that size too: four bytes to a pixel and no gap between the rows. What is drawn
/// and what is shown stays. The size that it has already asks for nothing, so giving the same
/// size again does.
pub proof fn law_configure(display: DisplayModel, width: u32, height: u32)
    requires
        display.wf(),
        row_fits(width),
    ensures
        ({
            let (after, step) = display.configured(width, height);
            &&& after.wf()
            &&& after.width == width
            &&& after.height == height
            &&& after.stride == width * 4
            &&& after.surfaces == display.surfaces
            &&& after.write == display.write
            &&& after.ready == display.ready
            &&& after.shown == display.shown
            &&& after.shown_before == display.shown_before
            &&& after.frame_seq == display.frame_seq
            &&& after.last_seen == display.last_seen
            &&& display.width == width && display.height == height ==> step
                == (ScanoutStep::Unchanged { status: 0 })
            &&& display.width != width || display.height != height ==> {
                &&& step matches ScanoutStep::CreateSurfaces(properties) && properties.width
                    == width && properties.height == height && properties.bytes_per_row == width
                    * 4 && properties.bytes_per_element == 4 && properties.pixel_format
                    == 0x42475241
            }
            &&& after.configured(width, height) == (after, ScanoutStep::Unchanged { status: 0 })
        }),
{
}

/// The properties of a surface are those of the screen that it is for.
pub proof fn law_surface_properties(width: u32, height: u32)
    requires
        row_fits(width),
    ensures
        surface_for(width, height).width == width,
        surface_for(width, height).height == height,
        surface_for(width, height).bytes_per_row == width * 4,
        surface_for(width, height).bytes_per_element == 4,
        surface_for(width, height).pixel_format == 0x42475241,
{
}

/// A new size with its state alone: the size changes and nothing else.
pub proof fn law_resize(display: DisplayModel, width: u32, height: u32)
    requires
        row_fits(width),
    ensures
        display.resized(width, height) == (DisplayModel {
            surfaces: display.surfaces,
            write: display.write,
            ready: display.ready,
            shown: display.shown,
            shown_before: display.shown_before,
            frame_seq: display.frame_seq,
            last_seen: display.last_seen,
            width,
            height,
            stride: (width * 4) as u32,
        }),
{
}

/// A surface that could not be made gives up all that were made, and nothing changes. One that
/// could be made waits with the others until there are four. Then they are in place in the order
/// in which they were made, none of them drawn or shown, and those that were there before are to
/// be let go.
pub proof fn law_setup(display: DisplayModel, created: Seq<usize>, surface: usize)
    requires
        display.wf(),
        incomplete(created),
    ensures
        ({
            let (after, step) = display.surface_made(created, surface);
            &&& after.wf()
            &&& surface == 0 ==> {
                &&& after == display
                &&& step == (SetupModel::Failed { status: -1, release: created })
            }
            &&& surface != 0 && created.len() < 3 ==> {
                &&& after == display
                &&& step == SetupModel::CreateNext(created + seq![surface])
                &&& incomplete(created + seq![surface])
            }
            &&& surface != 0 && created.len() == 3 ==> {
                &&& step == (SetupModel::Installed {
                    status: 0,
                    release: present_surfaces(display.surfaces),
                })
                &&& after.surfaces == created + seq![surface]
                &&& after.write == 0
                &&& after.ready is None
                &&& after.shown is None
                &&& after.shown_before is None
                &&& after.frame_seq == display.frame_seq
                &&& after.last_seen == display.last_seen
                &&& after.width == display.width
                &&& after.height == display.height
                &&& after.stride == display.stride
            }
        }),
{
    assert(created.push(surface) =~= created + seq![surface]);
}

/// Four surfaces that are made one after the other are all put in place, in that order.
pub proof fn law_four_surfaces(display: DisplayModel, a: usize, b: usize, c: usize, d: usize)
    requires
        display.wf(),
        a != 0,
        b != 0,
        c != 0,
        d != 0,
    ensures
        ({
            let first = display.surface_made(seq![], a);
            let second = first.0.surface_made(first.1->CreateNext_0, b);
            let third = second.0.surface_made(second.1->CreateNext_0, c);
            let fourth = third.0.surface_made(third.1->CreateNext_0, d);
            &&& first.1 is CreateNext && second.1 is CreateNext && third.1 is CreateNext
            &&& fourth.1 is Installed
            &&& fourth.0.surfaces == seq![a, b, c, d]
        }),
{
    assert(seq![].push(a).push(b).push(c).push(d) =~= seq![a, b, c, d]);
}

/// What is made so far is no more than three surfaces, and no failure is among them.
pub proof fn law_incomplete(created: Seq<usize>)
    ensures
        incomplete(created) <==> created.len() < 4 && !created.contains(0),
{
    if incomplete(created) {
        assert forall|i: int| 0 <= i < created.len() implies created[i] != 0 by {}
    } else if created.len() < 4 {
        let i = choose|i: int| 0 <= i < created.len() && created[i] == 0;
        assert(created[i] == 0);
    }
}

/// The surfaces to let go are all that there are, each as often and in the order in which they
/// stand. A place without a surface is passed over.
pub proof fn law_present_surfaces(surfaces: Seq<usize>, surface: usize)
    ensures
        present_surfaces(seq![]) == Seq::<usize>::empty(),
        present_surfaces(surfaces.push(0)) == present_surfaces(surfaces),
        surface != 0 ==> present_surfaces(surfaces.push(surface)) == present_surfaces(
            surfaces,
        ).push(surface),
{
    reveal(Seq::filter);
    assert(surfaces.push(0).drop_last() =~= surfaces);
    assert(surfaces.push(surface).drop_last() =~= surfaces);
}

/// A frame is drawn to the surface at the place of drawing, if there is one.
pub proof fn law_allocate(display: DisplayModel)
    requires
        display.wf(),
    ensures
        ({
            let surface = display.surfaces[display.write as int];
            &&& display.drawn() == surface
            &&& surface == 0 ==> display.allocated() is NoSurface
            &&& surface == 0 ==> display.allocated()->NoSurface_status == -1
            &&& surface != 0 ==> display.allocated() == (FrameStep::Draw { surface, status: 1 })
        }),
{
}

/// A finished frame waits to be shown, in place of one that waited before. The next one is drawn
/// to the first place that holds neither this frame, nor what is shown, nor what was shown just
/// before. What is shown does not change, nor does the screen or any surface.
pub proof fn law_present(display: DisplayModel, place: usize)
    requires
        display.wf(),
    ensures
        ({
            let after = display.presented();
            &&& after.wf()
            &&& after.ready == Some(display.write)
            &&& after.write < 4
            &&& after.write != display.write
            &&& display.shown != Some(after.write)
            &&& display.shown_before != Some(after.write)
            &&& place < after.write ==> place == display.write || display.shown == Some(place)
                || display.shown_before == Some(place)
            &&& after.surfaces == display.surfaces
            &&& after.shown == display.shown
            &&& after.shown_before == display.shown_before
            &&& after.width == display.width
            &&& after.height == display.height
            &&& after.stride == display.stride
            &&& after.last_seen == display.last_seen
            &&& display.frame_seq < u64::MAX ==> after.frame_seq == display.frame_seq + 1
            &&& display.frame_seq == u64::MAX ==> after.frame_seq == 0
            &&& display.finished().surface == display.surfaces[display.write as int]
            &&& display.finished().status == 0
        }),
{
}

/// The first free place is under four, is none of those that are taken, and no place before it is
/// free.
pub proof fn law_first_free_place(a: usize, b: Option<usize>, c: Option<usize>, place: usize)
    ensures
        first_free(a, b, c) < 4,
        first_free(a, b, c) != a,
        b != Some(first_free(a, b, c)),
        c != Some(first_free(a, b, c)),
        place < first_free(a, b, c) ==> place == a || b == Some(place) || c == Some(place),
{
}

/// Frames are numbered one after the other, and start over when the numbers run out.
pub proof fn law_next_seq(seq: u64)
    ensures
        seq < u64::MAX ==> next_seq(seq) == seq + 1,
        seq == u64::MAX ==> next_seq(seq) == 0,
{
}

/// A screen that asks for a frame gets the one that waits, if one has been finished since it last
/// asked. That one is shown then, and the one that was shown is the one shown before. Otherwise
/// the screen gets nothing, and what is shown stays.
pub proof fn law_refresh(display: DisplayModel)
    ensures
        ({
            let after = display.refreshed();
            let fresh = display.frame_seq != display.last_seen;
            &&& after.last_seen == display.frame_seq
            &&& after.frame_seq == display.frame_seq
            &&& after.surfaces == display.surfaces
            &&& after.write == display.write
            &&& after.width == display.width
            &&& after.height == display.height
            &&& after.stride == display.stride
            &&& fresh && display.ready is Some ==> {
                &&& display.front() == surface_at(display, display.ready)
                &&& after.ready is None
                &&& after.shown == display.ready
                &&& after.shown_before == display.shown
            }
            &&& !(fresh && display.ready is Some) ==> {
                &&& display.front() is None
                &&& after.ready == display.ready
                &&& after.shown == display.shown
                &&& after.shown_before == display.shown_before
            }
        }),
{
}

/// The picture on the screen is that of the surface which is shown, whether or not a newer frame
/// waits and whatever was shown before. As long as none is shown it is that of the one which waits.
/// A screen without pixels has no picture.
pub proof fn law_capture(display: DisplayModel)
    ensures
        display.width > 0 && display.height > 0 && display.shown is Some ==> display.captured()
            == surface_at(display, display.shown),
        display.width > 0 && display.height > 0 && display.shown is None ==> display.captured()
            == surface_at(display, display.ready),
        display.width == 0 || display.height == 0 ==> display.captured() is None,
{
}

/// However many frames are finished while one is shown, it is the shown one that is captured.
pub proof fn law_capture_is_steady(display: DisplayModel, count: nat)
    requires
        display.wf(),
        display.shown is Some,
    ensures
        presented_times(display, count).captured() == display.captured(),
        presented_times(display, count).shown == display.shown,
        display.presented().captured() == display.captured(),
    decreases count,
{
    if count > 0 {
        law_capture_is_steady(display, (count - 1) as nat);
    }
}

/// A picture can be had of the surface that is captured, as long as its rows are wide enough for
/// the screen.
pub proof fn law_capturable(display: DisplayModel, stride: usize)
    ensures
        capturable(display, stride) <==> display.captured() is Some && display.width * 4 <= stride,
        wide_enough(stride, display.width) <==> display.width * 4 <= stride,
{
}

/// A row of pixels has four bytes for each, it fits its field as long as that many do, and bytes
/// hold a picture if they reach to the end of its last row.
pub proof fn law_rows(len: nat, stride: int, width: u32, height: u32)
    ensures
        row_len(width) == width * 4,
        row_fits(width) <==> width * 4 <= u32::MAX,
        height == 0 ==> covers(len, stride, width, height),
        height > 0 ==> (covers(len, stride, width, height) <==> (height - 1) * stride + width * 4
            <= len),
{
}

/// A picture has the size of the screen, and four bytes for each of its pixels: the red, green,
/// blue and alpha of the pixel of the surface in the same row and column. A surface has blue,
/// green, red and alpha, and its rows start `stride` bytes apart.
pub proof fn law_picture(
    capture: FramebufferCapture,
    mapped: Seq<u8>,
    stride: int,
    width: u32,
    height: u32,
    row: int,
    column: int,
)
    requires
        is_picture(capture, mapped, stride, width, height),
        0 <= row < height,
        0 <= column < width,
    ensures
        capture.width == width,
        capture.height == height,
        capture.pixels_rgba@.len() == height * (width * 4),
        ({
            let pixels = capture.pixels_rgba@;
            let to = (row * width + column) * 4;
            let from = row * stride + column * 4;
            &&& 0 <= to && to + 3 < pixels.len()
            &&& pixels[to] == mapped[from + 2]
            &&& pixels[to + 1] == mapped[from + 1]
            &&& pixels[to + 2] == mapped[from]
            &&& pixels[to + 3] == mapped[from + 3]
        }),
{
    let to = (row * width + column) * 4;
    assert(row * row_len(width) + column * 4 == to) by (nonlinear_arith)
        requires
            row_len(width) == width * 4,
            to == (row * width + column) * 4,
    ;
    assert(0 <= to && to + 3 < height * row_len(width)) by (nonlinear_arith)
        requires
            0 <= row < height,
            0 <= column < width,
            row_len(width) == width * 4,
            to == (row * width + column) * 4,
    ;
    law_picture_channels(capture.pixels_rgba@, mapped, stride, width, row, column);
}

/// The end of a batch.
pub open spec fn ends(event: KrunInputEvent) -> bool {
    event.event_type == 0 && event.code == 0 && event.value == 0
}

/// A key or button, a move of the mouse, and a press of the caps lock key as the virtual machine
/// reads them.
pub proof fn law_batches(code: u16, value: u32, pressed: bool, x: u32, y: u32)
    ensures
        ({
            let batch = key_batch(code, value);
            &&& batch.len() == 2
            &&& batch[0].event_type == 1 && batch[0].code == code && batch[0].value == value
            &&& ends(batch[1])
        }),
        ({
            let batch = button_batch(code, pressed);
            &&& batch.len() == 2
            &&& batch[0].event_type == 1 && batch[0].code == code
            &&& pressed ==> batch[0].value == 1
            &&& !pressed ==> batch[0].value == 0
            &&& ends(batch[1])
        }),
        ({
            let batch = move_batch(x, y);
            &&& batch.len() == 3
            &&& batch[0].event_type == 3 && batch[0].code == 0 && batch[0].value == x
            &&& batch[1].event_type == 3 && batch[1].code == 1 && batch[1].value == y
            &&& ends(batch[2])
        }),
        ({
            let batch = capslock_batches();
            &&& batch.len() == 4
            &&& batch[0].event_type == 1 && batch[0].code == 58 && batch[0].value == 1
            &&& ends(batch[1])
            &&& batch[2].event_type == 1 && batch[2].code == 58 && batch[2].value == 0
            &&& ends(batch[3])
        }),
{
}

/// A wheel that has turned by `turn` steps, in either direction.
pub open spec fn turned(event: KrunInputEvent, code: u16, turn: i32) -> bool {
    event.event_type == 2 && event.code == code && event.value as i32 == turn
}

/// A turn of the wheels tells of each wheel that has turned, the vertical one first, by how many
/// steps and in which direction, and of no other.
pub proof fn law_scroll(dx: i32, dy: i32)
    ensures
        ({
            let batch = scroll_batch(dx, dy);
            &&& dy != 0 && dx != 0 ==> batch.len() == 3 && turned(batch[0], 8, dy) && turned(
                batch[1],
                6,
                dx,
            )
            &&& dy != 0 && dx == 0 ==> batch.len() == 2 && turned(batch[0], 8, dy)
            &&& dy == 0 && dx != 0 ==> batch.len() == 2 && turned(batch[0], 6, dx)
            &&& dy == 0 && dx == 0 ==> batch.len() == 1
            &&& ends(batch.last())
        }),
{
    assert((dx as u32) as i32 == dx) by (bit_vector);
    assert((dy as u32) as i32 == dy) by (bit_vector);
}

/// What is sent of the key `code` as it is held or let go: nothing if it stays as it was.
pub open spec fn key_change(code: u16, was: bool, now: bool) -> Seq<KrunInputEvent> {
    if was == now {
        seq![]
    } else {
        let value: u32 = if now {
            1
        } else {
            0
        };
        seq![
            KrunInputEvent { event_type: 1, code, value },
            KrunInputEvent { event_type: 0, code: 0, value: 0 },
        ]
    }
}

/// As the flags change, the keys of shift, control, option and command go down and up as their
/// bits do, in this order, and no other key does.
pub proof fn law_sync(before: usize, after: usize)
    ensures
        sync_batches(before, after) == key_change(
            42,
            before & 0x2_0000 != 0,
            after & 0x2_0000 != 0,
        ) + key_change(29, before & 0x4_0000 != 0, after & 0x4_0000 != 0) + key_change(
            56,
            before & 0x8_0000 != 0,
            after & 0x8_0000 != 0,
        ) + key_change(125, before & 0x10_0000 != 0, after & 0x10_0000 != 0),
        modifiers().len() == 4,
{
    assert(sync_batches(before, after) =~= key_change(
        42,
        before & 0x2_0000 != 0,
        after & 0x2_0000 != 0,
    ) + key_change(29, before & 0x4_0000 != 0, after & 0x4_0000 != 0) + key_change(
        56,
        before & 0x8_0000 != 0,
        after & 0x8_0000 != 0,
    ) + key_change(125, before & 0x10_0000 != 0, after & 0x10_0000 != 0));
}

/// Letting go of all modifiers sends that the keys of shift, control, option and command are up.
pub proof fn law_release()
    ensures
        release_batches() == key_change(42, true, false) + key_change(29, true, false)
            + key_change(56, true, false) + key_change(125, true, false),
{
    assert(release_batches() =~= key_change(42, true, false) + key_change(29, true, false)
        + key_change(56, true, false) + key_change(125, true, false));
}

/// What is sent of a device waits behind what waits already of it. The other device, and the
/// flags, are left alone, and so are both devices as the flags change.
pub proof fn law_queues(input: InputModel, events: Seq<KrunInputEvent>, flags: usize)
    ensures
        input.with_keyboard(events).keyboard == input.keyboard + events,
        input.with_keyboard(events).mouse == input.mouse,
        input.with_keyboard(events).flags == input.flags,
        input.with_mouse(events).mouse == input.mouse + events,
        input.with_mouse(events).keyboard == input.keyboard,
        input.with_mouse(events).flags == input.flags,
        input.with_flags(flags).flags == flags,
        input.with_flags(flags).keyboard == input.keyboard,
        input.with_flags(flags).mouse == input.mouse,
{
}

/// The oldest event of a device is read first and then waits no longer. The other device's events,
/// and the flags, are left alone.
pub proof fn law_read_events(input: InputModel)
    ensures
        ({
            let (after, event) = input.read(InputDevice::Keyboard);
            &&& after.mouse == input.mouse && after.flags == input.flags
            &&& input.keyboard.len() == 0 ==> event is None && after.keyboard == input.keyboard
            &&& input.keyboard.len() > 0 ==> event == Some(input.keyboard[0]) && after.keyboard
                == input.keyboard.skip(1)
        }),
        ({
            let (after, event) = input.read(InputDevice::Mouse);
            &&& after.keyboard == input.keyboard && after.flags == input.flags
            &&& input.mouse.len() == 0 ==> event is None && after.mouse == input.mouse
            &&& input.mouse.len() > 0 ==> event == Some(input.mouse[0]) && after.mouse
                == input.mouse.skip(1)
        }),
{
}

/// A key that goes down is reported down, or as a repeat if it is down already, and is down from
/// then on. A key that goes up is reported up, and is not down from then on. Other keys, the mouse
/// and what is shown are left alone. A key that the virtual machine does not have does nothing.
pub proof fn law_keys(view: ViewModel, input: InputModel, code: u16, other: u16)
    ensures
        view.key_down(input, 0) == (view, input),
        view.key_up(input, 0) == (view, input),
        press_value(view.pressed, code) == if view.pressed.contains(code) {
            2u32
        } else {
            1u32
        },
        code != 0 ==> {
            let down = view.key_down(input, code);
            let up = view.key_up(input, code);
            let sent = down.1.keyboard;
            &&& down.0.pressed.contains(other) <==> other == code || view.pressed.contains(other)
            &&& down.0.displayed == view.displayed
            &&& sent.len() == input.keyboard.len() + 2
            &&& sent.take(input.keyboard.len() as int) == input.keyboard
            &&& sent[input.keyboard.len() as int].event_type == 1
            &&& sent[input.keyboard.len() as int].code == code
            &&& sent[input.keyboard.len() as int].value == if view.pressed.contains(code) {
                2u32
            } else {
                1u32
            }
            &&& ends(sent.last())
            &&& down.1.mouse == input.mouse && down.1.flags == input.flags
            &&& up.0.pressed.contains(other) <==> other != code && view.pressed.contains(other)
            &&& up.0.displayed == view.displayed
            &&& up.1.keyboard == input.keyboard + key_change(code, true, false)
            &&& up.1.mouse == input.mouse && up.1.flags == input.flags
        },
{
    if code != 0 {
        let sent = view.key_down(input, code).1.keyboard;
        assert(sent.take(input.keyboard.len() as int) =~= input.keyboard);
        assert(key_change(code, true, false) =~= key_batch(code, 0));
    }
}

/// The view shows the surface that the display gives it, and says so only if it is another one
/// than it shows. If the display gives none, the view goes on showing what it shows. The keys are
/// left alone.
pub proof fn law_view_follows_display(view: ViewModel, display: DisplayModel)
    ensures
        ({
            let (after, shown) = view.updated(display);
            &&& after.pressed == view.pressed
            &&& display.front() is None ==> shown is None && after.displayed == view.displayed
            &&& display.front() matches Some(front) ==> after.displayed == front
            &&& display.front() matches Some(front) ==> (front != view.displayed <==> shown is Some)
            &&& shown matches Some(surface) ==> Some(surface) == display.front()
        }),
{
}

/// Caps lock is pressed once each time its key changes, and leaves the flags as they are. Any
/// other change of the flags sends the modifiers that have changed since the flags that were known
/// before, and the new flags are known from then on.
pub proof fn law_flags_changed(input: InputModel, key_code: u16, flags: usize)
    ensures
        ({
            let after = after_flags_changed(input, key_code, flags);
            &&& after.mouse == input.mouse
            &&& key_code == 57 ==> after.flags == input.flags && after.keyboard == input.keyboard
                + key_change(58, false, true) + key_change(58, true, false)
            &&& key_code != 57 ==> after.flags == flags && after.keyboard == input.keyboard
                + sync_batches(input.flags, flags)
        }),
{
    if key_code == 57 {
        assert(input.keyboard + capslock_batches() =~= input.keyboard + key_change(58, false, true)
            + key_change(58, true, false));
    }
}

/// A view that gets no more input lets go of all modifiers and knows of none.
pub proof fn law_resign(input: InputModel)
    ensures
        after_resigning(input).flags == 0,
        after_resigning(input).mouse == input.mouse,
        after_resigning(input).keyboard == input.keyboard + release_batches(),
{
}

/// Wheels that have turned are told of to the mouse, and wheels that stand still are not.
pub proof fn law_scroll_wheel(input: InputModel, dx: i32, dy: i32)
    ensures
        after_scrolling(input, 0, 0) == input,
        dx != 0 || dy != 0 ==> {
            let after = after_scrolling(input, dx, dy);
            &&& after.mouse == input.mouse + scroll_batch(dx, dy)
            &&& after.keyboard == input.keyboard
            &&& after.flags == input.flags
        },
{
}

/// A click is one of the first button, and with the control key held one of the second.
pub proof fn law_click()
    ensures
        button_clicked(false) == 0,
        button_clicked(true) == 1,
{
}

/// A pixel takes as many native ones as the scale says, and never none.
pub proof fn law_scale(scale: u32)
    ensures
        scale > 0 ==> scale_used(scale) == scale,
        scale_used(0) == 1,
{
}

} // verus!
