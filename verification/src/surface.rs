//! The life of a swapchain: created for the surface's size, destroyed when
//! the window is resized or the device calls it out of date, and created
//! anew for the next frame.

use vstd::prelude::*;
use crate::backend::{acquire_failure, classify_acquire_error, SwapchainFailure};
use crate::types::Size;

verus! {

/// Number of times that a frame tries to acquire an image before it gives
/// up on a swapchain that is out of date every time.
pub const DEFAULT_ACQUIRE_ATTEMPTS: u32 = 5;

/// What the device has to destroy when a swapchain goes: the framebuffers
/// first, then the swapchain.
pub struct Teardown {
    pub framebuffers: Vec<u64>,
    pub swapchain: Option<u64>,
}

/// A teardown as contracts speak of it.
pub struct TeardownView {
    pub framebuffers: Seq<u64>,
    pub swapchain: Option<u64>,
}

impl View for Teardown {
    type V = TeardownView;

    open spec fn view(&self) -> TeardownView {
        TeardownView { framebuffers: self.framebuffers@, swapchain: self.swapchain }
    }
}

/// The teardown with nothing in it.
pub open spec fn nothing() -> TeardownView {
    TeardownView { framebuffers: Seq::empty(), swapchain: None }
}

/// What to do next in order to get an image to draw the frame into.
pub enum AcquireStep {
    /// Create a swapchain of this size with a framebuffer for each of its
    /// images, and report it.
    Create { size: Size },
    /// Acquire the next image of this swapchain, and report the outcome.
    Acquire { swapchain: u64 },
    /// Draw into this framebuffer, which belongs to the acquired image.
    Ready { framebuffer: u64, index: usize },
    /// The swapchain was out of date: destroy it, create one of this size
    /// and report it.
    Recreate { teardown: Teardown, size: Size },
    /// The swapchain was out of date on every attempt: destroy it and
    /// fail.
    GiveUp { teardown: Teardown },
    /// The device failed; there is no recovery.
    Fatal(SwapchainFailure),
}

/// A step as contracts speak of it.
pub enum StepView {
    Create { size: Size },
    Acquire { swapchain: u64 },
    Ready { framebuffer: u64, index: usize },
    Recreate { teardown: TeardownView, size: Size },
    GiveUp { teardown: TeardownView },
    Fatal(SwapchainFailure),
}

impl View for AcquireStep {
    type V = StepView;

    open spec fn view(&self) -> StepView {
        match *self {
            AcquireStep::Create { size } => StepView::Create { size },
            AcquireStep::Acquire { swapchain } => StepView::Acquire { swapchain },
            AcquireStep::Ready { framebuffer, index } => StepView::Ready { framebuffer, index },
            AcquireStep::Recreate { teardown, size } => StepView::Recreate {
                teardown: teardown@,
                size,
            },
            AcquireStep::GiveUp { teardown } => StepView::GiveUp { teardown: teardown@ },
            AcquireStep::Fatal(failure) => StepView::Fatal(failure),
        }
    }
}

/// A window's surface with the swapchain that presents to it, if one is
/// created.
pub struct Surface {
    pub size: Size,
    pub swapchain: Option<u64>,
    pub framebuffers: Vec<u64>,
    pub frame: usize,
    pub retry_bound: u32,
    pub attempts: u32,
}

/// A surface as contracts speak of it.
pub struct SurfaceView {
    pub size: Size,
    pub swapchain: Option<u64>,
    pub framebuffers: Seq<u64>,
    pub frame: usize,
    pub retry_bound: u32,
    pub attempts: u32,
}

impl View for Surface {
    type V = SurfaceView;

    open spec fn view(&self) -> SurfaceView {
        SurfaceView {
            size: self.size,
            swapchain: self.swapchain,
            framebuffers: self.framebuffers@,
            frame: self.frame,
            retry_bound: self.retry_bound,
            attempts: self.attempts,
        }
    }
}

impl SurfaceView {
    /// Without a swapchain there are no framebuffers and no current
    /// frame, and no more attempts are counted than are allowed.
    pub open spec fn wf(self) -> bool {
        &&& self.attempts <= self.retry_bound
        &&& self.swapchain is None ==> self.framebuffers.len() == 0 && self.frame == 0
    }

    /// Whether a swapchain is created.
    pub open spec fn created(self) -> bool {
        self.swapchain is Some
    }

    /// What is left to destroy of the swapchain.
    pub open spec fn remains(self) -> TeardownView {
        TeardownView { framebuffers: self.framebuffers, swapchain: self.swapchain }
    }

    /// The surface without its swapchain.
    pub open spec fn destroyed(self) -> SurfaceView {
        SurfaceView { swapchain: None, framebuffers: Seq::empty(), frame: 0, ..self }
    }

    /// The surface after the window took the given size: a change of size
    /// destroys the swapchain.
    pub open spec fn resized(self, size: Size) -> SurfaceView {
        if size == self.size {
            self
        } else {
            SurfaceView { size, ..self.destroyed() }
        }
    }

    /// The surface with a swapchain that was created for it.
    pub open spec fn with_swapchain(self, swapchain: u64, framebuffers: Seq<u64>) -> SurfaceView {
        SurfaceView { swapchain: Some(swapchain), framebuffers, frame: 0, ..self }
    }

    /// The surface at the start of a frame: no attempt is counted yet.
    pub open spec fn begun(self) -> SurfaceView {
        SurfaceView { attempts: 0, ..self }
    }

    /// The step towards an image: create the swapchain where there is
    /// none, acquire from it where there is one.
    pub open spec fn next_step(self) -> StepView {
        match self.swapchain {
            None => StepView::Create { size: self.size },
            Some(swapchain) => StepView::Acquire { swapchain },
        }
    }

    /// The first step of a frame.
    pub open spec fn first_step(self) -> StepView {
        if self.retry_bound == 0 {
            StepView::GiveUp { teardown: nothing() }
        } else {
            self.next_step()
        }
    }

    /// The surface after an image was acquired.
    pub open spec fn acquired(self, index: usize) -> SurfaceView {
        SurfaceView { frame: index, ..self }
    }

    /// The number of attempts after one more has failed.
    pub open spec fn counted(self) -> u32 {
        if self.attempts < self.retry_bound {
            (self.attempts + 1) as u32
        } else {
            self.attempts
        }
    }

    /// The surface after an attempt to acquire an image failed: a
    /// swapchain that is out of date is destroyed and the attempt counted.
    pub open spec fn failed(self, failure: SwapchainFailure) -> SurfaceView {
        match failure {
            SwapchainFailure::OutOfDate => SurfaceView {
                attempts: self.counted(),
                ..self.destroyed()
            },
            _ => self,
        }
    }

    /// The step after an attempt to acquire an image failed: create the
    /// swapchain anew while attempts are left, give up when they are used
    /// up; any other failure is fatal.
    pub open spec fn step_after_failure(self, failure: SwapchainFailure) -> StepView {
        match failure {
            SwapchainFailure::OutOfDate => if self.counted() < self.retry_bound {
                StepView::Recreate { teardown: self.remains(), size: self.size }
            } else {
                StepView::GiveUp { teardown: self.remains() }
            },
            _ => StepView::Fatal(failure),
        }
    }
}

impl Surface {
    /// A surface of the given size with no swapchain yet, which gives up
    /// after the given number of attempts in one frame.
    pub fn new(size: Size, retry_bound: u32) -> (res: Self)
        ensures
            res@.wf(),
            res@ == (SurfaceView {
                size,
                swapchain: None,
                framebuffers: Seq::empty(),
                frame: 0,
                retry_bound,
                attempts: 0,
            }),
    {
        Surface {
            size,
            swapchain: None,
            framebuffers: Vec::new(),
            frame: 0,
            retry_bound,
            attempts: 0,
        }
    }

    /// A surface of the given size with no swapchain yet, which gives up
    /// after the usual number of attempts in one frame.
    pub fn with_size(size: Size) -> (res: Self)
        ensures
            res@.wf(),
            res@ == (SurfaceView {
                size,
                swapchain: None,
                framebuffers: Seq::empty(),
                frame: 0,
                retry_bound: DEFAULT_ACQUIRE_ATTEMPTS,
                attempts: 0,
            }),
    {
        Surface::new(size, DEFAULT_ACQUIRE_ATTEMPTS)
    }

    /// Size of the surface in pixels.
    pub fn size(&self) -> (res: Size)
        ensures
            res == self@.size,
    {
        self.size
    }

    /// Whether a swapchain is created.
    pub fn is_created(&self) -> (res: bool)
        ensures
            res == self@.created(),
    {
        self.swapchain.is_some()
    }

    /// Tears down all framebuffers and the swapchain, and returns them for
    /// the device to destroy. Without a swapchain there is nothing to do.
    pub fn destroy_swapchain(&mut self) -> (res: Teardown)
        requires
            old(self)@.wf(),
        ensures
            final(self)@.wf(),
            final(self)@ == old(self)@.destroyed(),
            res@ == old(self)@.remains(),
            !old(self)@.created() ==> res@ == nothing() && final(self)@ == old(self)@,
    {
        let mut framebuffers: Vec<u64> = Vec::new();
        core::mem::swap(&mut self.framebuffers, &mut framebuffers);
        self.frame = 0;
        let swapchain = self.swapchain.take();
        proof {
            assert(self.framebuffers@ =~= Seq::<u64>::empty());
            if !old(self)@.created() {
                assert(framebuffers@ =~= Seq::<u64>::empty());
                assert(self@.framebuffers =~= old(self)@.framebuffers);
            }
        }
        Teardown { framebuffers, swapchain }
    }

    /// Notes the window's size. A change of size destroys the swapchain,
    /// so that the next frame creates one of the new size.
    pub fn resize(&mut self, size: Size) -> (res: Teardown)
        requires
            old(self)@.wf(),
        ensures
            final(self)@.wf(),
            final(self)@ == old(self)@.resized(size),
            res@ == if size == old(self)@.size {
                nothing()
            } else {
                old(self)@.remains()
            },
    {
        if size == self.size {
            Teardown { framebuffers: Vec::new(), swapchain: None }
        } else {
            self.size = size;
            self.destroy_swapchain()
        }
    }

    /// The size of the swapchain to create, where there is none.
    pub fn ensure_swapchain(&self) -> (res: Option<Size>)
        ensures
            res == if self@.created() {
                None
            } else {
                Some(self@.size)
            },
    {
        match self.swapchain {
            Some(_) => None,
            None => Some(self.size),
        }
    }

    /// Starts a frame and says how to get an image for it.
    pub fn begin_frame(&mut self) -> (res: AcquireStep)
        requires
            old(self)@.wf(),
        ensures
            final(self)@.wf(),
            final(self)@ == old(self)@.begun(),
            res@ == old(self)@.first_step(),
    {
        self.attempts = 0;
        if self.retry_bound == 0 {
            AcquireStep::GiveUp { teardown: Teardown { framebuffers: Vec::new(), swapchain: None } }
        } else {
            match self.swapchain {
                None => AcquireStep::Create { size: self.size },
                Some(swapchain) => AcquireStep::Acquire { swapchain },
            }
        }
    }

    /// Notes the swapchain that the device created, with one framebuffer
    /// for each of its images, and says to acquire an image of it.
    pub fn swapchain_created(&mut self, swapchain: u64, framebuffers: Vec<u64>) -> (res:
        AcquireStep)
        requires
            old(self)@.wf(),
            !old(self)@.created(),
        ensures
            final(self)@.wf(),
            final(self)@ == old(self)@.with_swapchain(swapchain, framebuffers@),
            res@ == (StepView::Acquire { swapchain }),
    {
        self.swapchain = Some(swapchain);
        self.framebuffers = framebuffers;
        self.frame = 0;
        AcquireStep::Acquire { swapchain }
    }

    /// Whether the swapchain has an image of the given number.
    pub fn has_image(&self, index: usize) -> (res: bool)
        ensures
            res == (index < self@.framebuffers.len()),
    {
        index < self.framebuffers.len()
    }

    /// Notes the image that was acquired and names its framebuffer.
    pub fn image_acquired(&mut self, index: usize) -> (res: AcquireStep)
        requires
            old(self)@.wf(),
            index < old(self)@.framebuffers.len(),
        ensures
            final(self)@.wf(),
            final(self)@ == old(self)@.acquired(index),
            res@ == (StepView::Ready { framebuffer: old(self)@.framebuffers[index as int], index }),
    {
        self.frame = index;
        AcquireStep::Ready { framebuffer: self.framebuffers[index], index }
    }

    /// Notes that no image could be acquired, and says how to go on.
    pub fn acquire_failed(&mut self, failure: SwapchainFailure) -> (res: AcquireStep)
        requires
            old(self)@.wf(),
        ensures
            final(self)@.wf(),
            final(self)@ == old(self)@.failed(failure),
            res@ == old(self)@.step_after_failure(failure),
    {
        match failure {
            SwapchainFailure::OutOfDate => {
                if self.attempts < self.retry_bound {
                    self.attempts = self.attempts + 1;
                }
                let teardown = self.destroy_swapchain();
                if self.attempts < self.retry_bound {
                    AcquireStep::Recreate { teardown, size: self.size }
                } else {
                    AcquireStep::GiveUp { teardown }
                }
            },
            _ => AcquireStep::Fatal(failure),
        }
    }

    /// Notes gfx-hal's error for an image that could not be acquired, and
    /// says how to go on.
    pub fn acquire_error(&mut self, err: gfx_hal::window::AcquireError) -> (res: AcquireStep)
        requires
            old(self)@.wf(),
        ensures
            final(self)@.wf(),
            final(self)@ == old(self)@.failed(acquire_failure(err)),
            res@ == old(self)@.step_after_failure(acquire_failure(err)),
    {
        self.acquire_failed(classify_acquire_error(err))
    }

    /// Notes the outcome of a presentation: a swapchain that could not
    /// present is destroyed, so that the next frame creates one anew.
    pub fn presented(&mut self, ok: bool) -> (res: Teardown)
        requires
            old(self)@.wf(),
        ensures
            final(self)@.wf(),
            final(self)@ == if ok {
                old(self)@
            } else {
                old(self)@.destroyed()
            },
            res@ == if ok {
                nothing()
            } else {
                old(self)@.remains()
            },
    {
        if ok {
            Teardown { framebuffers: Vec::new(), swapchain: None }
        } else {
            self.destroy_swapchain()
        }
    }
}

/// A swapchain as the device created it: its handle and one framebuffer
/// for each of its images.
pub struct Created {
    pub swapchain: u64,
    pub framebuffers: Seq<u64>,
}

/// The surface after the device created the given swapchain for it, where
/// it had none.
pub open spec fn recreated(s: SurfaceView, created: Created) -> SurfaceView {
    if s.created() {
        s
    } else {
        s.with_swapchain(created.swapchain, created.framebuffers)
    }
}

/// The surface after as many attempts in a row found the swapchain out of
/// date as there are swapchains in `rounds`, each created for one attempt.
pub open spec fn after_out_of_date(s: SurfaceView, rounds: Seq<Created>) -> SurfaceView
    decreases rounds.len(),
{
    if rounds.len() == 0 {
        s
    } else {
        recreated(after_out_of_date(s, rounds.drop_last()), rounds.last()).failed(
            SwapchainFailure::OutOfDate,
        )
    }
}

/// The step that follows the last of those attempts.
pub open spec fn step_after_out_of_date(s: SurfaceView, rounds: Seq<Created>) -> StepView
    recommends
        rounds.len() > 0,
{
    recreated(after_out_of_date(s, rounds.drop_last()), rounds.last()).step_after_failure(
        SwapchainFailure::OutOfDate,
    )
}

/// While attempts are left, attempts that find the swapchain out of date
/// are counted one by one and leave no swapchain behind.
pub proof fn lemma_out_of_date_counts(s: SurfaceView, rounds: Seq<Created>)
    requires
        s.wf(),
        s.attempts == 0,
        rounds.len() <= s.retry_bound,
    ensures
        after_out_of_date(s, rounds).wf(),
        after_out_of_date(s, rounds).attempts == rounds.len(),
        after_out_of_date(s, rounds).retry_bound == s.retry_bound,
        after_out_of_date(s, rounds).size == s.size,
        rounds.len() > 0 ==> !after_out_of_date(s, rounds).created(),
    decreases rounds.len(),
{
    if rounds.len() > 0 {
        lemma_out_of_date_counts(s, rounds.drop_last());
    }
}

/// A frame on a device that calls the swapchain out of date every time
/// fails after exactly as many attempts as the surface allows: each
/// earlier attempt is followed by a new swapchain and another attempt, the
/// last one by giving up.
pub proof fn lemma_gives_up_at_bound(s: SurfaceView, rounds: Seq<Created>)
    requires
        s.wf(),
        s.attempts == 0,
        0 < rounds.len() <= s.retry_bound,
    ensures
        rounds.len() < s.retry_bound ==> step_after_out_of_date(s, rounds)
            is Recreate,
        rounds.len() == s.retry_bound ==> step_after_out_of_date(s, rounds) is GiveUp,
{
    lemma_out_of_date_counts(s, rounds.drop_last());
}

/// After the window changed its size the surface has the new size and no
/// swapchain, and the next frame gets its image without the caller's
/// help: it asks for a swapchain of the new size, acquires from the one
/// that is created, and names the framebuffer of the image that comes.
pub proof fn lemma_resize_recreates(s: SurfaceView, size: Size, created: Created, index: usize)
    requires
        s.wf(),
        s.retry_bound > 0,
        size != s.size,
        index < created.framebuffers.len(),
    ensures
        s.resized(size).size == size,
        s.resized(size).size != s.size,
        !s.resized(size).created(),
        s.resized(size).begun().wf(),
        s.resized(size).first_step() == (StepView::Create { size }),
        recreated(s.resized(size).begun(), created).next_step() == (StepView::Acquire {
            swapchain: created.swapchain,
        }),
        recreated(s.resized(size).begun(), created).framebuffers[index as int]
            == created.framebuffers[index as int],
        recreated(s.resized(size).begun(), created).acquired(index).created(),
{
}

} // verus!
