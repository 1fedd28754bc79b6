//! The surfaces that frames are drawn to and shown from.
//!
//! There are four. One is being drawn to; one may hold a finished frame that waits to be shown;
//! one is on the screen; and one was on the screen just before, and may still be read there. The
//! four roles never fall on the same surface, so what is drawn never disturbs what is seen.
//!
//! A surface is known by its address. The address zero stands for no surface.

use vstd::prelude::*;

verus! {

/// How many surfaces take turns.
pub const NUM_SURFACES: usize = 4;

/// How many bytes a pixel takes.
pub const BYTES_PER_PIXEL: u32 = 4;

/// The pixel format of a surface: the characters `BGRA`.
pub const PIXEL_FORMAT_BGRA: u32 = 0x42475241;

/// What a surface is to be like.
#[derive(Clone, Copy, Debug, PartialEq, Eq)]
pub struct SurfaceProperties {
    pub width: u32,
    pub height: u32,
    pub bytes_per_row: u32,
    pub bytes_per_element: u32,
    pub pixel_format: u32,
}

/// The surface for a screen of `width` by `height` pixels: its rows follow one another without a
/// gap.
pub open spec fn surface_for(width: u32, height: u32) -> SurfaceProperties {
    SurfaceProperties {
        width,
        height,
        bytes_per_row: (width * BYTES_PER_PIXEL) as u32,
        bytes_per_element: BYTES_PER_PIXEL,
        pixel_format: PIXEL_FORMAT_BGRA,
    }
}

/// Whether a row of `width` pixels has a length that fits its field.
pub open spec fn row_fits(width: u32) -> bool {
    width * BYTES_PER_PIXEL <= u32::MAX
}

/// The surface for a screen of `width` by `height` pixels.
pub fn surface_properties(width: u32, height: u32) -> (properties: SurfaceProperties)
    requires
        row_fits(width),
    ensures
        properties == surface_for(width, height),
        properties.bytes_per_row == width * BYTES_PER_PIXEL,
{
    SurfaceProperties {
        width,
        height,
        bytes_per_row: width * BYTES_PER_PIXEL,
        bytes_per_element: BYTES_PER_PIXEL,
        pixel_format: PIXEL_FORMAT_BGRA,
    }
}

/// What a `DisplayState` holds. `write`, `ready`, `shown` and `shown_before` are the places of
/// the surfaces in the four roles.
#[verifier::ext_equal]
pub struct DisplayModel {
    pub surfaces: Seq<usize>,
    pub write: usize,
    pub ready: Option<usize>,
    pub shown: Option<usize>,
    pub shown_before: Option<usize>,
    pub frame_seq: u64,
    pub last_seen: u64,
    pub width: u32,
    pub height: u32,
    pub stride: u32,
}

/// Whether `place` is not `a` and neither `b` nor `c`.
pub open spec fn free(place: usize, a: usize, b: Option<usize>, c: Option<usize>) -> bool {
    place != a && b != Some(place) && c != Some(place)
}

/// The first place that is not `a` and neither `b` nor `c`. Of four places one always is.
pub open spec fn first_free(a: usize, b: Option<usize>, c: Option<usize>) -> usize {
    if free(0, a, b, c) {
        0
    } else if free(1, a, b, c) {
        1
    } else if free(2, a, b, c) {
        2
    } else {
        3
    }
}

/// The number of the frame after frame number `seq`. The numbers start over when they run out.
pub open spec fn next_seq(seq: u64) -> u64 {
    if seq == u64::MAX {
        0
    } else {
        (seq + 1) as u64
    }
}

impl DisplayModel {
    /// The roles name places that there are, no two of them the same, and a row of the screen
    /// is as long as its pixels.
    pub open spec fn wf(self) -> bool {
        &&& self.surfaces.len() == NUM_SURFACES
        &&& self.write < NUM_SURFACES
        &&& self.ready matches Some(place) ==> place < NUM_SURFACES
        &&& self.shown matches Some(place) ==> place < NUM_SURFACES
        &&& self.shown_before matches Some(place) ==> place < NUM_SURFACES
        &&& self.ready != Some(self.write)
        &&& self.shown != Some(self.write)
        &&& self.shown_before != Some(self.write)
        &&& self.ready is Some ==> self.ready != self.shown && self.ready != self.shown_before
        &&& self.shown is Some ==> self.shown != self.shown_before
        &&& self.stride == self.width * BYTES_PER_PIXEL
    }

    /// The display with no screen and no surfaces.
    pub open spec fn blank() -> DisplayModel {
        DisplayModel {
            surfaces: seq![0usize, 0usize, 0usize, 0usize],
            write: 0,
            ready: None,
            shown: None,
            shown_before: None,
            frame_seq: 0,
            last_seen: 0,
            width: 0,
            height: 0,
            stride: 0,
        }
    }

    /// The surface that is drawn to.
    pub open spec fn drawn(self) -> usize {
        self.surfaces[self.write as int]
    }

    /// The frame that was drawn is finished and waits to be shown, and another surface is drawn
    /// to.
    pub open spec fn presented(self) -> DisplayModel {
        DisplayModel {
            ready: Some(self.write),
            write: first_free(self.write, self.shown, self.shown_before),
            frame_seq: next_seq(self.frame_seq),
            ..self
        }
    }

    /// The state after the screen has asked for a frame: if one has been finished since it last
    /// asked, and waits, that one is shown.
    pub open spec fn refreshed(self) -> DisplayModel {
        if self.frame_seq == self.last_seen {
            self
        } else if self.ready is None {
            DisplayModel { last_seen: self.frame_seq, ..self }
        } else {
            DisplayModel {
                last_seen: self.frame_seq,
                ready: None,
                shown: self.ready,
                shown_before: self.shown,
                ..self
            }
        }
    }

    /// The surface that the screen gets when it asks for a frame.
    pub open spec fn front(self) -> Option<usize> {
        if self.frame_seq == self.last_seen {
            None
        } else {
            match self.ready {
                Some(place) if self.surfaces[place as int] != 0 => Some(
                    self.surfaces[place as int],
                ),
                _ => None,
            }
        }
    }

    /// The screen has a new size. The surfaces are still the old ones.
    pub open spec fn resized(self, width: u32, height: u32) -> DisplayModel {
        DisplayModel { width, height, stride: (width * BYTES_PER_PIXEL) as u32, ..self }
    }

    /// New surfaces are in place, and none of them holds a frame.
    pub open spec fn installed(self, surfaces: Seq<usize>) -> DisplayModel {
        DisplayModel {
            surfaces,
            write: 0,
            ready: None,
            shown: None,
            shown_before: None,
            ..self
        }
    }

    /// The screen is given a size: the state that it leaves, and what follows.
    pub open spec fn configured(self, width: u32, height: u32) -> (DisplayModel, ScanoutStep) {
        if self.width == width && self.height == height {
            (self, ScanoutStep::Unchanged { status: 0 })
        } else {
            (
                self.resized(width, height),
                ScanoutStep::CreateSurfaces(surface_for(width, height)),
            )
        }
    }

    /// The address `surface` has come of making a surface, after those of `created` have been
    /// made: the state that it leaves, and what follows.
    pub open spec fn surface_made(self, created: Seq<usize>, surface: usize) -> (
        DisplayModel,
        SetupModel,
    ) {
        if surface == 0 {
            (self, SetupModel::Failed { status: -1, release: created })
        } else if created.len() + 1 < NUM_SURFACES {
            (self, SetupModel::CreateNext(created.push(surface)))
        } else {
            (
                self.installed(created.push(surface)),
                SetupModel::Installed { status: 0, release: present_surfaces(self.surfaces) },
            )
        }
    }

    /// What the virtual machine gets to draw the next frame to.
    pub open spec fn allocated(self) -> FrameStep {
        if self.drawn() == 0 {
            FrameStep::NoSurface { status: -1i32 }
        } else {
            FrameStep::Draw { surface: self.drawn(), status: 1 }
        }
    }

    /// The frame that is finished.
    pub open spec fn finished(self) -> FinishedFrame {
        FinishedFrame { surface: self.drawn(), status: 0 }
    }

    /// The surface from which the picture on the screen can be read: the one that is shown, or
    /// else the one that waits.
    pub open spec fn captured(self) -> Option<usize> {
        let place = if self.shown is Some {
            self.shown
        } else {
            self.ready
        };
        if self.width == 0 || self.height == 0 {
            None
        } else {
            match place {
                Some(place) if self.surfaces[place as int] != 0 => Some(
                    self.surfaces[place as int],
                ),
                _ => None,
            }
        }
    }
}

/// The surfaces of a screen, and the size of the screen.
pub struct DisplayState {
    surfaces: [usize; NUM_SURFACES],
    write_idx: usize,
    ready_idx: Option<usize>,
    display_idx: Option<usize>,
    prev_display_idx: Option<usize>,
    frame_seq: u64,
    last_seen: u64,
    width: u32,
    height: u32,
    stride: u32,
}

impl View for DisplayState {
    type V = DisplayModel;

    closed spec fn view(&self) -> DisplayModel {
        DisplayModel {
            surfaces: self.surfaces@,
            write: self.write_idx,
            ready: self.ready_idx,
            shown: self.display_idx,
            shown_before: self.prev_display_idx,
            frame_seq: self.frame_seq,
            last_seen: self.last_seen,
            width: self.width,
            height: self.height,
            stride: self.stride,
        }
    }
}

/// Surfaces that have been made for a new screen size, while some are still to be made.
#[derive(Debug, PartialEq, Eq)]
pub struct SurfaceSetup {
    created: Vec<usize>,
}

impl View for SurfaceSetup {
    type V = Seq<usize>;

    closed spec fn view(&self) -> Seq<usize> {
        self.created@
    }
}

/// All that has been made so far is a surface, and more are to be made.
pub open spec fn incomplete(created: Seq<usize>) -> bool {
    &&& created.len() < NUM_SURFACES
    &&& forall|i: int| 0 <= i < created.len() ==> #[trigger] created[i] != 0
}

/// The addresses among `surfaces` that stand for a surface.
pub open spec fn present_surfaces(surfaces: Seq<usize>) -> Seq<usize> {
    surfaces.filter(|surface: usize| surface != 0)
}

/// What follows once the screen has been given a size. The status is what the virtual machine is
/// told.
#[derive(Clone, Copy, Debug, PartialEq, Eq)]
pub enum ScanoutStep {
    /// The screen has had this size all along. Report success.
    Unchanged { status: i32 },
    /// Make surfaces for the new size.
    CreateSurfaces(SurfaceProperties),
}

/// What the virtual machine gets to draw the next frame to.
#[derive(Clone, Copy, Debug, PartialEq, Eq)]
pub enum FrameStep {
    /// There is no surface. Report the failure.
    NoSurface { status: i32 },
    /// Hand out the memory of the surface, and report that there is one.
    Draw { surface: usize, status: i32 },
}

/// A finished frame: the surface that it was drawn to, and what to report.
#[derive(Clone, Copy, Debug, PartialEq, Eq)]
pub struct FinishedFrame {
    pub surface: usize,
    pub status: i32,
}

/// What follows once a surface has been made, or could not be made.
#[derive(Debug, PartialEq, Eq)]
pub enum SetupStep {
    /// Make another surface.
    CreateNext(SurfaceSetup),
    /// Let go of the surfaces to release, and report the failure.
    Failed { status: i32, release: Vec<usize> },
    /// The new surfaces are in place. Let go of the surfaces to release, and report success.
    Installed { status: i32, release: Vec<usize> },
}

/// What follows once a surface has been made, or could not be made, in the model.
pub ghost enum SetupModel {
    CreateNext(Seq<usize>),
    Failed { status: int, release: Seq<usize> },
    Installed { status: int, release: Seq<usize> },
}

impl View for SetupStep {
    type V = SetupModel;

    open spec fn view(&self) -> SetupModel {
        match self {
            SetupStep::CreateNext(setup) => SetupModel::CreateNext(setup@),
            SetupStep::Failed { status, release } => SetupModel::Failed {
                status: *status as int,
                release: release@,
            },
            SetupStep::Installed { status, release } => SetupModel::Installed {
                status: *status as int,
                release: release@,
            },
        }
    }
}

impl SurfaceSetup {
    pub open spec fn wf(&self) -> bool {
        incomplete(self@)
    }

    /// No surface has been made yet.
    pub fn new() -> (setup: SurfaceSetup)
        ensures
            setup.wf(),
            setup@ == Seq::<usize>::empty(),
    {
        SurfaceSetup { created: Vec::new() }
    }
}

fn is_free(place: usize, a: usize, b: Option<usize>, c: Option<usize>) -> (answer: bool)
    ensures
        answer == free(place, a, b, c),
{
    if place == a {
        return false;
    }
    match b {
        Some(b) => {
            if place == b {
                return false;
            }
        },
        None => {},
    }
    match c {
        Some(c) => place != c,
        None => true,
    }
}

impl DisplayState {
    pub open spec fn wf(&self) -> bool {
        self@.wf()
    }

    /// The display with no screen and no surfaces.
    pub fn new() -> (display: DisplayState)
        ensures
            display.wf(),
            display@ == DisplayModel::blank(),
    {
        let display = DisplayState {
            surfaces: [0; NUM_SURFACES],
            write_idx: 0,
            ready_idx: None,
            display_idx: None,
            prev_display_idx: None,
            frame_seq: 0,
            last_seen: 0,
            width: 0,
            height: 0,
            stride: 0,
        };
        assert(display@.surfaces =~= DisplayModel::blank().surfaces);
        display
    }

    /// The width of the screen in pixels.
    pub fn vm_width(&self) -> (width: u32)
        ensures
            width == self@.width,
    {
        self.width
    }

    /// The height of the screen in pixels.
    pub fn vm_height(&self) -> (height: u32)
        ensures
            height == self@.height,
    {
        self.height
    }

    /// The surface to show now, if there is one that has not been asked for yet.
    pub fn get_front_surface(&mut self) -> (surface: Option<usize>)
        requires
            old(self).wf(),
        ensures
            final(self).wf(),
            surface == old(self)@.front(),
            final(self)@ == old(self)@.refreshed(),
    {
        if self.frame_seq == self.last_seen {
            return None;
        }
        self.last_seen = self.frame_seq;
        match self.ready_idx {
            Some(ready) => {
                self.ready_idx = None;
                self.prev_display_idx = self.display_idx;
                self.display_idx = Some(ready);
                let surface = self.surfaces[ready];
                if surface == 0 {
                    None
                } else {
                    Some(surface)
                }
            },
            None => None,
        }
    }

    /// Give the screen a new size. If it has another one now, the result says what surfaces to
    /// make for it.
    pub fn configure_scanout(&mut self, width: u32, height: u32) -> (step: ScanoutStep)
        requires
            old(self).wf(),
            row_fits(width),
        ensures
            final(self).wf(),
            (final(self)@, step) == old(self)@.configured(width, height),
            final(self)@.width == width,
            final(self)@.height == height,
            old(self)@.width == width && old(self)@.height == height ==> {
                &&& step == (ScanoutStep::Unchanged { status: 0 })
                &&& final(self)@ == old(self)@
            },
            old(self)@.width != width || old(self)@.height != height ==> {
                &&& step == ScanoutStep::CreateSurfaces(surface_for(width, height))
                &&& final(self)@ == old(self)@.resized(width, height)
            },
    {
        let properties = surface_properties(width, height);
        if self.width == width && self.height == height {
            return ScanoutStep::Unchanged { status: 0 };
        }
        self.width = width;
        self.height = height;
        self.stride = properties.bytes_per_row;
        ScanoutStep::CreateSurfaces(properties)
    }

    /// Go on with `setup` once the address `surface` has come of making a surface. A failure to
    /// make one gives up those that were made; the last one puts them all in place.
    pub fn surface_created(&mut self, setup: SurfaceSetup, surface: usize) -> (step: SetupStep)
        requires
            old(self).wf(),
            setup.wf(),
        ensures
            final(self).wf(),
            (final(self)@, step@) == old(self)@.surface_made(setup@, surface),
            match step {
                SetupStep::Failed { status, release } => {
                    &&& surface == 0
                    &&& status == -1
                    &&& release@ == setup@
                    &&& final(self)@ == old(self)@
                },
                SetupStep::CreateNext(next) => {
                    &&& surface != 0
                    &&& setup@.len() + 1 < NUM_SURFACES
                    &&& next.wf()
                    &&& next@ == setup@.push(surface)
                    &&& final(self)@ == old(self)@
                },
                SetupStep::Installed { status, release } => {
                    &&& surface != 0
                    &&& setup@.len() + 1 == NUM_SURFACES
                    &&& status == 0
                    &&& release@ == present_surfaces(old(self)@.surfaces)
                    &&& final(self)@ == old(self)@.installed(setup@.push(surface))
                },
            },
    {
        let mut created = setup.created;
        if surface == 0 {
            return SetupStep::Failed { status: -1, release: created };
        }
        created.push(surface);
        if created.len() < NUM_SURFACES {
            return SetupStep::CreateNext(SurfaceSetup { created });
        }
        let release = self.live_surfaces();
        self.surfaces = [created[0], created[1], created[2], created[3]];
        self.write_idx = 0;
        self.ready_idx = None;
        self.display_idx = None;
        self.prev_display_idx = None;
        assert(self.surfaces@ =~= setup@.push(surface));
        SetupStep::Installed { status: 0, release }
    }

    fn live_surfaces(&self) -> (live: Vec<usize>)
        requires
            self.wf(),
        ensures
            live@ == present_surfaces(self@.surfaces),
    {
        let mut live: Vec<usize> = Vec::new();
        let mut i: usize = 0;
        proof {
            assert(self@.surfaces.take(0) =~= Seq::<usize>::empty());
            reveal(Seq::filter);
        }
        while i < NUM_SURFACES
            invariant
                self.wf(),
                i <= NUM_SURFACES,
                live@ == present_surfaces(self@.surfaces.take(i as int)),
            decreases NUM_SURFACES - i,
        {
            proof {
                reveal(Seq::filter);
                assert(self@.surfaces.take(i + 1).drop_last() =~= self@.surfaces.take(i as int));
            }
            if self.surfaces[i] != 0 {
                live.push(self.surfaces[i]);
            }
            i = i + 1;
        }
        assert(self@.surfaces.take(NUM_SURFACES as int) =~= self@.surfaces);
        live
    }

    /// The surface to draw the next frame to, if there is one.
    pub fn alloc_frame(&self) -> (step: FrameStep)
        requires
            self.wf(),
        ensures
            step == self@.allocated(),
            match step {
                FrameStep::NoSurface { status } => self@.drawn() == 0 && status == -1,
                FrameStep::Draw { surface, status } => {
                    &&& self@.drawn() != 0
                    &&& surface == self@.drawn()
                    &&& status == 1
                },
            },
    {
        let surface = self.surfaces[self.write_idx];
        if surface == 0 {
            FrameStep::NoSurface { status: -1 }
        } else {
            FrameStep::Draw { surface, status: 1 }
        }
    }

    /// The frame is finished. The result says which surface it was drawn to.
    pub fn present_frame(&mut self) -> (finished: FinishedFrame)
        requires
            old(self).wf(),
        ensures
            final(self).wf(),
            finished == old(self)@.finished(),
            finished == (FinishedFrame { surface: old(self)@.drawn(), status: 0 }),
            final(self)@ == old(self)@.presented(),
    {
        let finished_idx = self.write_idx;
        let surface = self.surfaces[finished_idx];
        self.ready_idx = Some(finished_idx);
        let mut candidate: usize = 0;
        while candidate < NUM_SURFACES
            invariant_except_break
                candidate < NUM_SURFACES,
                forall|place: usize|
                    place < candidate ==> !#[trigger] free(
                        place,
                        finished_idx,
                        self@.shown,
                        self@.shown_before,
                    ),
                self@ == (DisplayModel { ready: Some(finished_idx), ..old(self)@ }),
            ensures
                self@ == (DisplayModel {
                    ready: Some(finished_idx),
                    write: first_free(finished_idx, old(self)@.shown, old(self)@.shown_before),
                    ..old(self)@
                }),
            decreases NUM_SURFACES - candidate,
        {
            if is_free(candidate, finished_idx, self.display_idx, self.prev_display_idx) {
                self.write_idx = candidate;
                break;
            }
            candidate = candidate + 1;
            assert(candidate < NUM_SURFACES) by {
                assert(free(0, finished_idx, self@.shown, self@.shown_before) || free(
                    1,
                    finished_idx,
                    self@.shown,
                    self@.shown_before,
                ) || free(2, finished_idx, self@.shown, self@.shown_before) || free(
                    3,
                    finished_idx,
                    self@.shown,
                    self@.shown_before,
                ));
            }
        }
        self.frame_seq = self.frame_seq.wrapping_add(1);
        FinishedFrame { surface, status: 0 }
    }

    /// The surface from which the picture on the screen can be read, if there is one.
    pub fn capture_surface(&self) -> (surface: Option<usize>)
        requires
            self.wf(),
        ensures
            surface == self@.captured(),
    {
        if self.width == 0 || self.height == 0 {
            return None;
        }
        let place = match self.display_idx {
            Some(place) => Some(place),
            None => self.ready_idx,
        };
        match place {
            Some(place) => {
                let surface = self.surfaces[place];
                if surface == 0 {
                    None
                } else {
                    Some(surface)
                }
            },
            None => None,
        }
    }
}

} // verus!
