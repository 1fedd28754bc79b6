//! What holds of the screen and of the input as a whole.

use super::capture::{lemma_source_index, row_len, shows};
use super::display::{first_free, free, next_seq, row_fits, DisplayModel, NUM_SURFACES};
use super::input::{
    change_batch, held, key_batch, modifiers, move_batch, report, scroll_batch, sync_batches,
    KrunInputEvent, ModifierMapping, EV_KEY, KEY_DOWN, KEY_REPEAT, KEY_UP,
};
use super::view::press_value;
use vstd::prelude::*;

verus! {

/// The place that is drawn to next is free, and it is the first that is.
pub proof fn law_first_free(a: usize, b: Option<usize>, c: Option<usize>, earlier: usize)
    ensures
        first_free(a, b, c) < NUM_SURFACES,
        free(first_free(a, b, c), a, b, c),
        earlier < first_free(a, b, c) ==> !free(earlier, a, b, c),
{
}

/// Every step of the display keeps the four roles apart: a finished frame, a refresh of the
/// screen, a new size, and new surfaces.
pub proof fn law_roles_stay_apart(
    display: DisplayModel,
    width: u32,
    height: u32,
    surfaces: Seq<usize>,
)
    requires
        display.wf(),
        row_fits(width),
        surfaces.len() == NUM_SURFACES,
    ensures
        display.presented().wf(),
        display.refreshed().wf(),
        display.resized(width, height).wf(),
        display.installed(surfaces).wf(),
{
}

/// What can happen to the display.
pub ghost enum DisplayEvent {
    /// The frame that is drawn is finished.
    Presented,
    /// The screen asks for a frame.
    Refreshed,
    /// The screen gets a new size.
    Resized { width: u32, height: u32 },
    /// New surfaces are put in.
    Installed { surfaces: Seq<usize> },
}

impl DisplayEvent {
    /// A size whose rows fit, and as many surfaces as there are places.
    pub open spec fn wf(self) -> bool {
        match self {
            DisplayEvent::Resized { width, .. } => row_fits(width),
            DisplayEvent::Installed { surfaces } => surfaces.len() == NUM_SURFACES,
            _ => true,
        }
    }
}

/// The display after `events`, from the blank display on.
pub open spec fn display_after(events: Seq<DisplayEvent>) -> DisplayModel
    decreases events.len(),
{
    if events.len() == 0 {
        DisplayModel::blank()
    } else {
        let before = display_after(events.drop_last());
        match events.last() {
            DisplayEvent::Presented => before.presented(),
            DisplayEvent::Refreshed => before.refreshed(),
            DisplayEvent::Resized { width, height } => before.resized(width, height),
            DisplayEvent::Installed { surfaces } => before.installed(surfaces),
        }
    }
}

/// Whatever has happened to a display since it was made, the four roles are apart.
pub proof fn law_roles_always_apart(events: Seq<DisplayEvent>)
    requires
        forall|i: int| 0 <= i < events.len() ==> (#[trigger] events[i]).wf(),
    ensures
        display_after(events).wf(),
    decreases events.len(),
{
    if events.len() > 0 {
        law_roles_always_apart(events.drop_last());
        assert(events[events.len() - 1].wf());
    }
}

/// What is drawn to is never what waits to be shown, what is shown, or what was shown just
/// before, as long as the surfaces are different ones.
pub proof fn law_drawing_disturbs_nothing(display: DisplayModel)
    requires
        display.wf(),
        display.surfaces.no_duplicates(),
    ensures
        display.ready matches Some(place) ==> display.surfaces[place as int] != display.drawn(),
        display.shown matches Some(place) ==> display.surfaces[place as int] != display.drawn(),
        display.shown_before matches Some(place) ==> display.surfaces[place as int]
            != display.drawn(),
{
}

/// A frame that is finished is the one that the screen gets next, unless the frame numbers have
/// gone all the way round since it last asked.
pub proof fn law_finished_frame_is_shown(display: DisplayModel)
    requires
        display.wf(),
        display.drawn() != 0,
        next_seq(display.frame_seq) != display.last_seen,
    ensures
        display.presented().front() == Some(display.drawn()),
        display.presented().refreshed().shown == Some(display.write),
        display.presented().refreshed().shown_before == display.shown,
{
}

/// The screen gets a frame once. Asking again before another one is finished brings nothing and
/// changes nothing.
pub proof fn law_frame_shown_once(display: DisplayModel)
    ensures
        display.refreshed().front() is None,
        display.refreshed().refreshed() == display.refreshed(),
{
}

/// The display after `count` frames have been finished, one after the other.
pub open spec fn presented_times(display: DisplayModel, count: nat) -> DisplayModel
    decreases count,
{
    if count == 0 {
        display
    } else {
        presented_times(display, (count - 1) as nat).presented()
    }
}

proof fn lemma_presented_times(display: DisplayModel, count: nat)
    requires
        display.wf(),
    ensures
        presented_times(display, count).wf(),
        presented_times(display, count).last_seen == display.last_seen,
        presented_times(display, count).frame_seq == (display.frame_seq + count) % (u64::MAX + 1),
    decreases count,
{
    if count > 0 {
        lemma_presented_times(display, (count - 1) as nat);
    }
}

/// Of all the frames that are finished before the screen asks, it gets the last one, unless the
/// frame numbers have come round to the one that it asked at.
pub proof fn law_latest_frame_wins(display: DisplayModel, count: nat)
    requires
        display.wf(),
        count > 0,
        presented_times(display, (count - 1) as nat).drawn() != 0,
        (display.frame_seq + count) % (u64::MAX + 1) != display.last_seen,
    ensures
        presented_times(display, count).front() == Some(
            presented_times(display, (count - 1) as nat).drawn(),
        ),
{
    lemma_presented_times(display, count);
    lemma_presented_times(display, (count - 1) as nat);
}

/// What is on the screen can be captured from the moment it is shown.
pub proof fn law_shown_frame_is_captured(display: DisplayModel)
    requires
        display.wf(),
        display.width != 0,
        display.height != 0,
        display.front() is Some,
    ensures
        display.refreshed().captured() == display.front(),
{
}

/// New surfaces hold no frame: nothing is shown or captured until one is finished.
pub proof fn law_new_surfaces_are_blank(display: DisplayModel, surfaces: Seq<usize>)
    ensures
        display.installed(surfaces).front() is None,
        display.installed(surfaces).captured() is None,
{
}

/// A picture has the red, green, blue and alpha of each pixel of the surface, which has them in
/// the order blue, green, red, alpha.
pub proof fn law_picture_channels(
    pixels: Seq<u8>,
    mapped: Seq<u8>,
    stride: int,
    width: u32,
    row: int,
    pixel: int,
)
    requires
        shows(pixels, mapped, stride, width),
        0 <= row,
        0 <= pixel < width,
        row * row_len(width) + pixel * 4 + 3 < pixels.len(),
    ensures
        pixels[row * row_len(width) + pixel * 4] == mapped[row * stride + pixel * 4 + 2],
        pixels[row * row_len(width) + pixel * 4 + 1] == mapped[row * stride + pixel * 4 + 1],
        pixels[row * row_len(width) + pixel * 4 + 2] == mapped[row * stride + pixel * 4],
        pixels[row * row_len(width) + pixel * 4 + 3] == mapped[row * stride + pixel * 4 + 3],
{
    assert(0 <= row * row_len(width)) by (nonlinear_arith)
        requires
            0 <= row,
            0 <= row_len(width),
    ;
    lemma_source_index(row, pixel, 0, stride, width);
    lemma_source_index(row, pixel, 1, stride, width);
    lemma_source_index(row, pixel, 2, stride, width);
    lemma_source_index(row, pixel, 3, stride, width);
}

/// Every batch ends with a report, and has no other.
pub proof fn law_batches_end_with_report(code: u16, value: u32, x: u32, y: u32, dx: i32, dy: i32)
    ensures
        key_batch(code, value).last() == report(),
        !key_batch(code, value).drop_last().contains(report()),
        move_batch(x, y).last() == report(),
        !move_batch(x, y).drop_last().contains(report()),
        scroll_batch(dx, dy).last() == report(),
        !scroll_batch(dx, dy).drop_last().contains(report()),
{
}

/// Events are read in the order in which they were sent: what waited before a batch was sent
/// comes before it, and the batch comes from its first event on.
pub proof fn law_events_read_in_order(
    waiting: Seq<KrunInputEvent>,
    batch: Seq<KrunInputEvent>,
    event: KrunInputEvent,
    rest: Seq<KrunInputEvent>,
)
    requires
        waiting + batch == seq![event] + rest,
    ensures
        waiting.len() > 0 ==> event == waiting[0] && rest == waiting.skip(1) + batch,
        waiting.len() == 0 ==> event == batch[0] && rest == batch.skip(1),
{
    let all = seq![event] + rest;
    assert(all[0] == event);
    assert(all.skip(1) =~= rest);
    if waiting.len() > 0 {
        assert((waiting + batch)[0] == waiting[0]);
        assert((waiting + batch).skip(1) =~= waiting.skip(1) + batch);
    } else {
        assert(waiting + batch =~= batch);
    }
}

/// Flags that hold the same modifiers as the flags before send nothing, whatever else they hold.
pub proof fn law_same_modifiers_send_nothing(before: usize, after: usize)
    requires
        forall|i: int|
            0 <= i < modifiers().len() ==> held(before, #[trigger] modifiers()[i]) == held(
                after,
                modifiers()[i],
            ),
    ensures
        sync_batches(before, after) == Seq::<KrunInputEvent>::empty(),
{
    assert(modifiers().len() == 4);
    assert(change_batch(before, after, modifiers()[0]).len() == 0);
    assert(change_batch(before, after, modifiers()[1]).len() == 0);
    assert(change_batch(before, after, modifiers()[2]).len() == 0);
    assert(change_batch(before, after, modifiers()[3]).len() == 0);
}

/// The events that are sent as the flags take the values of `run` one after the other, from a
/// start at which no modifier is held.
pub open spec fn run_batches(run: Seq<usize>) -> Seq<KrunInputEvent>
    decreases run.len(),
{
    if run.len() == 0 {
        seq![]
    } else {
        run_batches(run.drop_last()) + sync_batches(last_flags(run.drop_last()), run.last())
    }
}

/// The flags at the end of `run`.
pub open spec fn last_flags(run: Seq<usize>) -> usize {
    if run.len() == 0 {
        0
    } else {
        run.last()
    }
}

/// The values that key `code` takes in `events`, one after the other.
pub open spec fn key_values(events: Seq<KrunInputEvent>, code: u16) -> Seq<u32>
    decreases events.len(),
{
    if events.len() == 0 {
        seq![]
    } else {
        let values = key_values(events.drop_last(), code);
        let event = events.last();
        if event.event_type == EV_KEY && event.code == code {
            values.push(event.value)
        } else {
            values
        }
    }
}

proof fn lemma_key_values_join(a: Seq<KrunInputEvent>, b: Seq<KrunInputEvent>, code: u16)
    ensures
        key_values(a + b, code) == key_values(a, code) + key_values(b, code),
    decreases b.len(),
{
    if b.len() == 0 {
        assert(a + b =~= a);
        assert(key_values(a, code) + key_values(b, code) =~= key_values(a, code));
    } else {
        lemma_key_values_join(a, b.drop_last(), code);
        assert((a + b).drop_last() =~= a + b.drop_last());
        assert((a + b).last() == b.last());
        assert(key_values(a + b, code) =~= key_values(a, code) + key_values(b, code));
    }
}

/// The value that the key of a modifier takes as the flags change, if it takes one.
spec fn change_values(before: usize, after: usize, modifier: ModifierMapping) -> Seq<u32> {
    if held(before, modifier) == held(after, modifier) {
        seq![]
    } else if held(after, modifier) {
        seq![KEY_DOWN]
    } else {
        seq![KEY_UP]
    }
}

proof fn lemma_change_values(before: usize, after: usize, modifier: ModifierMapping, code: u16)
    ensures
        key_values(change_batch(before, after, modifier), code) == if code == modifier.linux_code {
            change_values(before, after, modifier)
        } else {
            seq![]
        },
{
    let batch = change_batch(before, after, modifier);
    reveal_with_fuel(key_values, 3);
    if batch.len() > 0 {
        assert(batch.len() == 2);
        assert(batch.last() == report());
        assert(batch.drop_last().last() == batch[0]);
        assert(batch.drop_last().drop_last().len() == 0);
    }
    if code == modifier.linux_code {
        assert(key_values(batch, code) =~= change_values(before, after, modifier));
    } else {
        assert(key_values(batch, code) =~= seq![]);
    }
}

proof fn lemma_sync_values(before: usize, after: usize, i: int)
    requires
        0 <= i < modifiers().len(),
    ensures
        key_values(sync_batches(before, after), modifiers()[i].linux_code) == change_values(
            before,
            after,
            modifiers()[i],
        ),
{
    let code = modifiers()[i].linux_code;
    let first = change_batch(before, after, modifiers()[0]);
    let second = change_batch(before, after, modifiers()[1]);
    let third = change_batch(before, after, modifiers()[2]);
    let fourth = change_batch(before, after, modifiers()[3]);
    lemma_key_values_join(first, second, code);
    lemma_key_values_join(first + second, third, code);
    lemma_key_values_join(first + second + third, fourth, code);
    lemma_change_values(before, after, modifiers()[0], code);
    lemma_change_values(before, after, modifiers()[1], code);
    lemma_change_values(before, after, modifiers()[2], code);
    lemma_change_values(before, after, modifiers()[3], code);
    assert(key_values(sync_batches(before, after), code) =~= change_values(
        before,
        after,
        modifiers()[i],
    ));
}

/// Over any run of flags, the key of a modifier goes down and up in turn, starting with down, and
/// it is down in the end exactly where the last flags hold it.
pub proof fn law_modifiers_take_turns(run: Seq<usize>, i: int)
    requires
        0 <= i < modifiers().len(),
    ensures
        ({
            let values = key_values(run_batches(run), modifiers()[i].linux_code);
            &&& forall|k: int|
                0 <= k < values.len() ==> #[trigger] values[k] == if k % 2 == 0 {
                    KEY_DOWN
                } else {
                    KEY_UP
                }
            &&& held(last_flags(run), modifiers()[i]) <==> values.len() > 0 && values.last()
                == KEY_DOWN
        }),
    decreases run.len(),
{
    let modifier = modifiers()[i];
    let code = modifier.linux_code;
    if run.len() == 0 {
        let flag = modifier.flag;
        assert(0usize & flag == 0) by (bit_vector);
    } else {
        let before = last_flags(run.drop_last());
        law_modifiers_take_turns(run.drop_last(), i);
        lemma_key_values_join(
            run_batches(run.drop_last()),
            sync_batches(before, run.last()),
            code,
        );
        lemma_sync_values(before, run.last(), i);
    }
}

/// A modifier that goes down as the flags change goes up as they change back, and one that stays
/// as they change stays as they change back.
pub proof fn law_change_is_undone(before: usize, after: usize, modifier: ModifierMapping)
    ensures
        change_batch(before, after, modifier) == key_batch(modifier.linux_code, KEY_DOWN)
            <==> change_batch(after, before, modifier) == key_batch(modifier.linux_code, KEY_UP),
        change_batch(before, after, modifier) == Seq::<KrunInputEvent>::empty()
            <==> change_batch(after, before, modifier) == Seq::<KrunInputEvent>::empty(),
{
    let up = key_batch(modifier.linux_code, KEY_UP);
    let down = key_batch(modifier.linux_code, KEY_DOWN);
    assert(up[0] != down[0]);
    assert(up.len() == 2 && down.len() == 2);
}

/// After all modifiers have been let go, flags in which none is held send nothing.
pub proof fn law_release_leaves_none_held(flags: usize)
    requires
        forall|i: int| 0 <= i < modifiers().len() ==> !held(flags, #[trigger] modifiers()[i]),
    ensures
        sync_batches(0, flags) == Seq::<KrunInputEvent>::empty(),
{
    assert forall|i: int| 0 <= i < modifiers().len() implies change_batch(
        0,
        flags,
        #[trigger] modifiers()[i],
    ) == Seq::<KrunInputEvent>::empty() by {
        let flag = modifiers()[i].flag;
        assert(0usize & flag == 0) by (bit_vector);
    }
}

/// A key that is reported down again repeats, until it has gone up.
pub proof fn law_repeat_until_release(pressed: Set<u16>, code: u16, other: u16)
    requires
        other != code,
    ensures
        press_value(pressed.insert(code), code) == KEY_REPEAT,
        press_value(pressed.remove(code), code) == KEY_DOWN,
        press_value(pressed.insert(code), other) == press_value(pressed, other),
        press_value(pressed.remove(code), other) == press_value(pressed, other),
{
}

} // verus!
