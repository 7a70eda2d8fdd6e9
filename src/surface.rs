use vstd::prelude::*;

use crate::format::PixelFormat;
use crate::types::SurfaceError;

verus! {

/// Number of frames that a suboptimal swapchain is kept before it is
/// rebuilt, so that a passing suboptimal report does not rebuild it.
pub const SUBOPTIMAL_RETIRE_COOLDOWN: u64 = 10;

/// Number of retired swapchains at which the surface waits for the device to
/// go idle and destroys them all.
pub const MAX_RETIRED: usize = 8;

/// A presentation chain: a native swapchain, or the single stand-in image
/// used while the surface has zero area.
#[derive(Clone, Copy, Debug, PartialEq, Eq, Structural)]
pub struct Chain {
    pub handle: u64,
    pub fake: bool,
}

/// Countdown before a suboptimal swapchain is retired.
#[derive(Clone, Copy, Debug, PartialEq, Eq, Structural)]
pub enum SuboptimalRetire {
    Cooldown(u64),
    Retire,
}

/// Present modes, in the order of preference used when a surface is made.
#[derive(Clone, Copy, Debug, PartialEq, Eq, Structural)]
pub enum PresentMode {
    Immediate,
    Mailbox,
    Fifo,
    FifoRelaxed,
}

/// What a surface holds: its current chain, the retired chains oldest first,
/// the suboptimal countdown, whether it was lost, and how many frames the
/// stand-in image has served.
pub struct SurfaceView {
    pub current: Option<Chain>,
    pub retired: Seq<Chain>,
    pub suboptimal: SuboptimalRetire,
    pub lost: bool,
    pub fake_frames: u64,
}

/// Number of leading retired chains whose images are all released.
pub open spec fn detached_prefix(d: Seq<bool>) -> int
    decreases d.len(),
{
    if d.len() == 0 {
        0
    } else if !d[0] {
        0
    } else {
        1 + detached_prefix(d.subrange(1, d.len() as int))
    }
}

proof fn lemma_detached_prefix(d: Seq<bool>)
    ensures
        0 <= detached_prefix(d) <= d.len(),
        forall|j: int| 0 <= j < detached_prefix(d) ==> d[j],
        detached_prefix(d) < d.len() ==> !d[detached_prefix(d)],
    decreases d.len(),
{
    if d.len() > 0 && d[0] {
        let t = d.subrange(1, d.len() as int);
        lemma_detached_prefix(t);
        assert forall|j: int| 0 <= j < detached_prefix(d) implies d[j] by {
            if j > 0 {
                assert(d[j] == t[j - 1]);
            }
        }
    }
}

/// What `init` does next, once the surface's extent is known.
#[derive(Clone, Copy, Debug, PartialEq, Eq, Structural)]
pub enum InitStep {
    /// The stand-in image still serves a zero-area surface.
    KeepFake,
    /// Build a stand-in image of at least one pixel each way.
    CreateFake(u32, u32),
    /// Build a swapchain of this extent, handing over the old one (zero for
    /// none).
    CreateSwapchain(u32, u32, u64),
}

/// The native outcome of acquiring an image.
#[derive(Clone, Copy, Debug, PartialEq, Eq, Structural)]
pub enum AcquireOutcome {
    Acquired(u32),
    Suboptimal(u32),
    OutOfDate,
    OutOfMemory,
    Lost,
}

/// What follows an acquisition.
#[derive(Clone, Copy, Debug, PartialEq, Eq, Structural)]
pub enum AcquireStep {
    /// Image `idx` is ready.
    Image(u32),
    /// The swapchain is out of date: initialize and acquire again.
    Reinit,
}

/// Layout that a frame's image is left in for presentation.
#[derive(Clone, Copy, Debug, PartialEq, Eq, Structural)]
pub enum PresentLayout {
    /// Ready for the presentation engine.
    PresentSrc,
    /// Any use; the stand-in image is never presented.
    General,
}

/// A frame to render to and present. It must be synchronized with a queue
/// exactly once before the work that uses it is submitted.
pub struct Frame {
    pub swapchain: u64,
    pub image: u64,
    pub idx: u32,
    pub acquire: u64,
    pub present: u64,
    pub synced: bool,
}

impl Frame {
    /// A frame not yet synchronized.
    pub fn new(swapchain: u64, image: u64, idx: u32, acquire: u64, present: u64) -> (r: Frame)
        ensures
            r.swapchain == swapchain,
            r.image == image,
            r.idx == idx,
            r.acquire == acquire,
            r.present == present,
            !r.synced,
    {
        Frame { swapchain, image, idx, acquire, present, synced: false }
    }

    /// Whether the frame was synchronized.
    pub fn is_synced(&self) -> (r: bool)
        ensures
            r == self.synced,
    {
        self.synced
    }

    /// Whether the frame comes from a real swapchain rather than the
    /// stand-in image.
    pub fn is_real(&self) -> (r: bool)
        ensures
            r == (self.swapchain != 0),
    {
        self.swapchain != 0
    }

    /// Layout that the frame's image is moved to before presentation.
    pub fn present_layout(&self) -> (r: PresentLayout)
        ensures
            r == (if self.swapchain != 0 { PresentLayout::PresentSrc } else { PresentLayout::General }),
    {
        if self.is_real() {
            PresentLayout::PresentSrc
        } else {
            PresentLayout::General
        }
    }

    /// Marks the frame synchronized; returns the semaphore that the next
    /// submission must wait on, if any.
    pub fn sync(&mut self) -> (r: Option<u64>)
        requires
            !old(self).synced,
        ensures
            final(self).synced,
            final(self).swapchain == old(self).swapchain,
            final(self).image == old(self).image,
            final(self).idx == old(self).idx,
            final(self).acquire == old(self).acquire,
            final(self).present == old(self).present,
            old(self).acquire == 0 ==> r is None,
            old(self).acquire != 0 ==> r == Some(old(self).acquire),
    {
        self.synced = true;
        if self.acquire != 0 {
            Some(self.acquire)
        } else {
            None
        }
    }
}

/// The decisions of a presentable surface: which chain is current, when a
/// superseded chain may be destroyed, and when the chain is rebuilt.
pub struct Surface {
    current: Option<Chain>,
    retired: Vec<Chain>,
    suboptimal: SuboptimalRetire,
    lost: bool,
    fake_frames: u64,
}

impl View for Surface {
    type V = SurfaceView;

    closed spec fn view(&self) -> SurfaceView {
        SurfaceView {
            current: self.current,
            retired: self.retired@,
            suboptimal: self.suboptimal,
            lost: self.lost,
            fake_frames: self.fake_frames,
        }
    }
}

impl Surface {
    /// A surface with no chain yet.
    pub fn new() -> (r: Surface)
        ensures
            r@.current is None,
            r@.retired == Seq::<Chain>::empty(),
            r@.suboptimal == SuboptimalRetire::Cooldown(SUBOPTIMAL_RETIRE_COOLDOWN),
            !r@.lost,
            r@.fake_frames == 0,
    {
        Surface {
            current: None,
            retired: Vec::new(),
            suboptimal: SuboptimalRetire::Cooldown(SUBOPTIMAL_RETIRE_COOLDOWN),
            lost: false,
            fake_frames: 0,
        }
    }

    /// The current chain.
    pub fn current(&self) -> (r: Option<Chain>)
        ensures
            r == self@.current,
    {
        self.current
    }

    /// Number of retired chains not yet destroyed.
    pub fn retired_len(&self) -> (r: usize)
        ensures
            r == self@.retired.len(),
    {
        self.retired.len()
    }

    /// The retired chains, oldest first.
    pub fn retired(&self) -> (r: &Vec<Chain>)
        ensures
            r@ == self@.retired,
    {
        &self.retired
    }

    /// Whether the surface or its device was lost.
    pub fn is_lost(&self) -> (r: bool)
        ensures
            r == self@.lost,
    {
        self.lost
    }

    /// The suboptimal countdown.
    pub fn suboptimal(&self) -> (r: SuboptimalRetire)
        ensures
            r == self@.suboptimal,
    {
        self.suboptimal
    }

    /// Destroys retired chains from the oldest while their images are all
    /// released, as `detached` tells for each retired chain, and stops at
    /// the first that still has an image in use. Returns the chains to
    /// destroy, oldest first.
    pub fn clear_retired(&mut self, detached: &Vec<bool>) -> (r: Vec<Chain>)
        requires
            detached@.len() == old(self)@.retired.len(),
        ensures
            r@ == old(self)@.retired.take(detached_prefix(detached@)),
            final(self)@.retired == old(self)@.retired.skip(detached_prefix(detached@)),
            final(self)@.current == old(self)@.current,
            final(self)@.suboptimal == old(self)@.suboptimal,
            final(self)@.lost == old(self)@.lost,
            final(self)@.fake_frames == old(self)@.fake_frames,
            forall|j: int| 0 <= j < r@.len() ==> detached@[j],
    {
        proof { lemma_detached_prefix(detached@); }
        let ghost k = detached_prefix(detached@);
        let mut n: usize = 0;
        while n < detached.len() && detached[n]
            invariant
                n <= detached@.len(),
                forall|j: int| 0 <= j < n ==> detached@[j],
            decreases detached@.len() - n,
        {
            n = n + 1;
        }
        proof { lemma_prefix_exact(detached@, n as int); }
        let ghost old_retired = self.retired@;
        let mut done: Vec<Chain> = Vec::new();
        let mut i: usize = 0;
        let mut rest: Vec<Chain> = Vec::new();
        while i < self.retired.len()
            invariant
                n == k,
                n <= self.retired@.len(),
                self.retired@ == old_retired,
                i <= self.retired@.len(),
                i <= n ==> done@ == old_retired.take(i as int) && rest@.len() == 0,
                i > n ==> done@ == old_retired.take(n as int) && rest@ == old_retired.subrange(
                    n as int,
                    i as int,
                ),
            decreases self.retired@.len() - i,
        {
            if i < n {
                done.push(self.retired[i]);
                assert(old_retired.take(i + 1) =~= old_retired.take(i as int).push(old_retired[i as int]));
            } else {
                rest.push(self.retired[i]);
                assert(old_retired.subrange(n as int, i + 1) =~= old_retired.subrange(n as int, i as int).push(
                    old_retired[i as int],
                ));
            }
            i = i + 1;
        }
        assert(old_retired.subrange(n as int, n as int) =~= Seq::<Chain>::empty());
        assert(old_retired.subrange(n as int, old_retired.len() as int) =~= old_retired.skip(n as int));
        self.retired = rest;
        done
    }

    /// Whether so many chains are retired that the surface must wait for the
    /// device to go idle and destroy them all.
    pub fn needs_force_clear(&self) -> (r: bool)
        ensures
            r == (self@.retired.len() >= MAX_RETIRED),
    {
        self.retired.len() >= MAX_RETIRED
    }

    /// Destroys every retired chain after the device went idle. Once the
    /// device is idle no image of a retired chain may still be in use.
    pub fn force_clear_retired(&mut self, detached: &Vec<bool>) -> (r: Vec<Chain>)
        requires
            detached@.len() == old(self)@.retired.len(),
            forall|j: int| 0 <= j < detached@.len() ==> detached@[j],
        ensures
            r@ == old(self)@.retired,
            final(self)@.retired == Seq::<Chain>::empty(),
            final(self)@.current == old(self)@.current,
            final(self)@.suboptimal == old(self)@.suboptimal,
            final(self)@.lost == old(self)@.lost,
            final(self)@.fake_frames == old(self)@.fake_frames,
    {
        proof {
            lemma_all_detached(detached@);
        }
        let r = self.clear_retired(detached);
        assert(self@.retired =~= Seq::<Chain>::empty());
        assert(r@ =~= old(self)@.retired);
        r
    }

    /// Starts a frame: fails at once on a lost surface; counts the
    /// suboptimal countdown down. Returns whether the chain must be
    /// (re)built first: there is none, or a suboptimal one is due to retire.
    pub fn begin_frame(&mut self) -> (r: Result<bool, SurfaceError>)
        ensures
            old(self)@.lost ==> r == Err::<bool, SurfaceError>(SurfaceError::SurfaceLost) && final(self)@ == old(self)@,
            !old(self)@.lost ==> r == Ok::<bool, SurfaceError>(
                old(self)@.current is None || old(self)@.suboptimal == SuboptimalRetire::Retire,
            ),
            final(self)@.current == old(self)@.current,
            final(self)@.retired == old(self)@.retired,
            final(self)@.lost == old(self)@.lost,
            final(self)@.fake_frames == old(self)@.fake_frames,
            !old(self)@.lost ==> match old(self)@.suboptimal {
                SuboptimalRetire::Cooldown(n) => final(self)@.suboptimal == SuboptimalRetire::Cooldown(
                    if n > 0 {
                        (n - 1) as u64
                    } else {
                        0
                    },
                ),
                SuboptimalRetire::Retire => final(self)@.suboptimal == SuboptimalRetire::Retire,
            },
    {
        if self.lost {
            return Err(SurfaceError::SurfaceLost);
        }
        match self.suboptimal {
            SuboptimalRetire::Cooldown(n) => {
                if n > 0 {
                    self.suboptimal = SuboptimalRetire::Cooldown(n - 1);
                }
                Ok(self.current.is_none())
            },
            SuboptimalRetire::Retire => Ok(true),
        }
    }

    /// Starts (re)building the chain once retired chains were handled.
    /// `caps` is the surface's current extent as the platform reports it,
    /// or the error of that query. The countdown restarts. On a zero-area
    /// surface the stand-in image serves: an existing one is kept, a real
    /// swapchain is retired. Otherwise the current chain is retired and a
    /// swapchain is built in its place.
    pub fn init_begin(&mut self, caps: Result<(u32, u32), SurfaceError>) -> (r: Result<InitStep, SurfaceError>)
        ensures
            old(self)@.lost ==> r == Err::<InitStep, SurfaceError>(SurfaceError::SurfaceLost) && final(self)@ == old(self)@,
            !old(self)@.lost ==> final(self)@.suboptimal == SuboptimalRetire::Cooldown(SUBOPTIMAL_RETIRE_COOLDOWN),
            final(self)@.fake_frames == old(self)@.fake_frames,
            !old(self)@.lost && caps == Err::<(u32, u32), SurfaceError>(SurfaceError::SurfaceLost) ==> r == Err::<InitStep, SurfaceError>(SurfaceError::SurfaceLost)
                && final(self)@.lost && final(self)@.current == old(self)@.current && final(self)@.retired == old(self)@.retired,
            !old(self)@.lost && caps == Err::<(u32, u32), SurfaceError>(SurfaceError::OutOfMemory) ==> r == Err::<InitStep, SurfaceError>(SurfaceError::OutOfMemory)
                && !final(self)@.lost && final(self)@.current == old(self)@.current && final(self)@.retired == old(self)@.retired,
            !old(self)@.lost ==> (caps matches Ok((w, h)) ==> !final(self)@.lost && (if w == 0 || h == 0 {
                match old(self)@.current {
                    Some(c) => if c.fake {
                        r == Ok::<InitStep, SurfaceError>(InitStep::KeepFake) && final(self)@.current == old(self)@.current
                            && final(self)@.retired == old(self)@.retired
                    } else {
                        r == Ok::<InitStep, SurfaceError>(InitStep::CreateFake(if w > 0 { w } else { 1 }, if h > 0 { h } else { 1 }))
                            && final(self)@.current is None && final(self)@.retired == old(self)@.retired.push(c)
                    },
                    None => r == Ok::<InitStep, SurfaceError>(InitStep::CreateFake(if w > 0 { w } else { 1 }, if h > 0 { h } else { 1 }))
                        && final(self)@.current is None && final(self)@.retired == old(self)@.retired,
                }
            } else {
                final(self)@.current is None && match old(self)@.current {
                    Some(c) => r == Ok::<InitStep, SurfaceError>(InitStep::CreateSwapchain(w, h, if c.fake { 0 } else { c.handle }))
                        && final(self)@.retired == old(self)@.retired.push(c),
                    None => r == Ok::<InitStep, SurfaceError>(InitStep::CreateSwapchain(w, h, 0))
                        && final(self)@.retired == old(self)@.retired,
                }
            })),
    {
        if self.lost {
            return Err(SurfaceError::SurfaceLost);
        }
        self.suboptimal = SuboptimalRetire::Cooldown(SUBOPTIMAL_RETIRE_COOLDOWN);
        let (w, h) = match caps {
            Ok(e) => e,
            Err(SurfaceError::SurfaceLost) => {
                self.lost = true;
                return Err(SurfaceError::SurfaceLost);
            },
            Err(SurfaceError::OutOfMemory) => {
                return Err(SurfaceError::OutOfMemory);
            },
        };
        if w == 0 || h == 0 {
            let fw = if w > 0 { w } else { 1 };
            let fh = if h > 0 { h } else { 1 };
            match self.current {
                Some(c) => {
                    if c.fake {
                        Ok(InitStep::KeepFake)
                    } else {
                        self.retired.push(c);
                        self.current = None;
                        Ok(InitStep::CreateFake(fw, fh))
                    }
                },
                None => Ok(InitStep::CreateFake(fw, fh)),
            }
        } else {
            match self.current {
                Some(c) => {
                    self.retired.push(c);
                    self.current = None;
                    Ok(InitStep::CreateSwapchain(w, h, if c.fake { 0 } else { c.handle }))
                },
                None => Ok(InitStep::CreateSwapchain(w, h, 0)),
            }
        }
    }

    /// Finishes (re)building with the chain that was built, or the error of
    /// building it.
    pub fn init_finish(&mut self, created: Result<Chain, SurfaceError>) -> (r: Result<(), SurfaceError>)
        requires
            old(self)@.current is None,
        ensures
            final(self)@.retired == old(self)@.retired,
            final(self)@.suboptimal == old(self)@.suboptimal,
            created matches Ok(c) ==> r is Ok && final(self)@.current == Some(c) && final(self)@.lost
                == old(self)@.lost && final(self)@.fake_frames == (if c.fake { 0 } else { old(self)@.fake_frames }),
            created matches Err(e) ==> r == Err::<(), SurfaceError>(e) && final(self)@.current is None
                && final(self)@.fake_frames == old(self)@.fake_frames
                && final(self)@.lost == (old(self)@.lost || e == SurfaceError::SurfaceLost),
    {
        match created {
            Ok(c) => {
                if c.fake {
                    self.fake_frames = 0;
                }
                self.current = Some(c);
                Ok(())
            },
            Err(e) => {
                if e == SurfaceError::SurfaceLost {
                    self.lost = true;
                }
                Err(e)
            },
        }
    }

    /// Applies the outcome of acquiring an image of the current swapchain.
    /// A suboptimal image is used; once the countdown has run out the
    /// swapchain is marked to retire at the next frame. An out-of-date
    /// swapchain is rebuilt and acquisition retried. Loss is permanent.
    pub fn on_acquire(&mut self, outcome: AcquireOutcome) -> (r: Result<AcquireStep, SurfaceError>)
        ensures
            final(self)@.current == old(self)@.current,
            final(self)@.retired == old(self)@.retired,
            final(self)@.fake_frames == old(self)@.fake_frames,
            outcome matches AcquireOutcome::Acquired(i) ==> r == Ok::<AcquireStep, SurfaceError>(AcquireStep::Image(i))
                && final(self)@ == old(self)@,
            outcome matches AcquireOutcome::Suboptimal(i) ==> r == Ok::<AcquireStep, SurfaceError>(AcquireStep::Image(i))
                && final(self)@.lost == old(self)@.lost && final(self)@.suboptimal == (if old(self)@.suboptimal
                == SuboptimalRetire::Cooldown(0) {
                SuboptimalRetire::Retire
            } else {
                old(self)@.suboptimal
            }),
            outcome == AcquireOutcome::OutOfDate ==> r == Ok::<AcquireStep, SurfaceError>(AcquireStep::Reinit)
                && final(self)@ == old(self)@,
            outcome == AcquireOutcome::OutOfMemory ==> r == Err::<AcquireStep, SurfaceError>(SurfaceError::OutOfMemory)
                && final(self)@ == old(self)@,
            outcome == AcquireOutcome::Lost ==> r == Err::<AcquireStep, SurfaceError>(SurfaceError::SurfaceLost)
                && final(self)@.lost && final(self)@.suboptimal == old(self)@.suboptimal,
    {
        match outcome {
            AcquireOutcome::Acquired(i) => Ok(AcquireStep::Image(i)),
            AcquireOutcome::Suboptimal(i) => {
                if self.suboptimal == SuboptimalRetire::Cooldown(0) {
                    self.suboptimal = SuboptimalRetire::Retire;
                }
                Ok(AcquireStep::Image(i))
            },
            AcquireOutcome::OutOfDate => Ok(AcquireStep::Reinit),
            AcquireOutcome::OutOfMemory => Err(SurfaceError::OutOfMemory),
            AcquireOutcome::Lost => {
                self.lost = true;
                Err(SurfaceError::SurfaceLost)
            },
        }
    }

    /// A frame of the stand-in image, which always counts as suboptimal.
    /// Its semaphore is waited on from the second frame on, since the first
    /// has no earlier presentation to wait for.
    pub fn fake_frame(&mut self, image: u64, semaphore: u64) -> (r: Frame)
        requires
            old(self)@.current matches Some(c) && c.fake,
            old(self)@.fake_frames < u64::MAX,
        ensures
            final(self)@.current == old(self)@.current,
            final(self)@.retired == old(self)@.retired,
            final(self)@.lost == old(self)@.lost,
            final(self)@.fake_frames == old(self)@.fake_frames + 1,
            final(self)@.suboptimal == (if old(self)@.suboptimal == SuboptimalRetire::Cooldown(0) {
                SuboptimalRetire::Retire
            } else {
                old(self)@.suboptimal
            }),
            r.swapchain == 0,
            r.image == image,
            r.idx == 0,
            r.acquire == (if old(self)@.fake_frames > 0 { semaphore } else { 0 }),
            r.present == semaphore,
            !r.synced,
    {
        if self.suboptimal == SuboptimalRetire::Cooldown(0) {
            self.suboptimal = SuboptimalRetire::Retire;
        }
        let acquire = if self.fake_frames > 0 { semaphore } else { 0 };
        self.fake_frames = self.fake_frames + 1;
        Frame::new(0, image, 0, acquire, semaphore)
    }

    /// Takes the surface apart: the current chain and every retired one, to
    /// destroy once the device is idle.
    pub fn teardown(self) -> (r: (Option<Chain>, Vec<Chain>))
        ensures
            r.0 == self@.current,
            r.1@ == self@.retired,
    {
        (self.current, self.retired)
    }
}

proof fn lemma_prefix_exact(d: Seq<bool>, n: int)
    requires
        0 <= n <= d.len(),
        forall|j: int| 0 <= j < n ==> d[j],
        n == d.len() || !d[n],
    ensures
        detached_prefix(d) == n,
    decreases d.len(),
{
    if d.len() > 0 && n > 0 {
        let t = d.subrange(1, d.len() as int);
        lemma_prefix_exact(t, n - 1);
    }
}

proof fn lemma_all_detached(d: Seq<bool>)
    requires
        forall|j: int| 0 <= j < d.len() ==> d[j],
    ensures
        detached_prefix(d) == d.len(),
    decreases d.len(),
{
    if d.len() > 0 {
        let t = d.subrange(1, d.len() as int);
        lemma_all_detached(t);
    }
}

/// Retired chains are destroyed in order, never while an image of theirs is
/// still in use, and no later than a forced clear: `clear_retired` destroys
/// exactly the leading chains whose images were all released and keeps the
/// rest, and once the device is idle and every image released, a forced
/// clear destroys them all.
pub proof fn retirement_ordering(retired: Seq<Chain>, detached: Seq<bool>)
    requires
        detached.len() == retired.len(),
    ensures
        forall|j: int| 0 <= j < detached_prefix(detached) ==> detached[j],
        detached_prefix(detached) < retired.len() ==> !detached[detached_prefix(detached)],
        retired.take(detached_prefix(detached)) + retired.skip(detached_prefix(detached)) == retired,
        (forall|j: int| 0 <= j < detached.len() ==> detached[j]) ==> retired.skip(
            detached_prefix(detached),
        ).len() == 0,
{
    lemma_detached_prefix(detached);
    assert(retired.take(detached_prefix(detached)) + retired.skip(detached_prefix(detached)) =~= retired);
    if forall|j: int| 0 <= j < detached.len() ==> detached[j] {
        lemma_all_detached(detached);
    }
}

/// Index of the preferred surface format among `formats`: RGBA8 unorm,
/// then BGRA8 unorm, then BGRA8 sRGB, then RGBA8 sRGB. Formats that this
/// library has no name for are `None`.
pub fn pick_format(formats: &Vec<Option<PixelFormat>>) -> (r: Option<usize>)
    ensures
        r matches Some(i) ==> i < formats@.len() && exists|k: int| 0 <= k < 4 && formats@[i as int] == Some(
            format_preference(k),
        ) && (forall|j: int| 0 <= j < i ==> formats@[j] != Some(format_preference(k))) && (forall|
            k2: int,
            j: int,
        | 0 <= k2 < k && 0 <= j < formats@.len() ==> formats@[j] != Some(format_preference(k2))),
        r is None ==> forall|k: int, j: int|
            0 <= k < 4 && 0 <= j < formats@.len() ==> formats@[j] != Some(format_preference(k)),
{
    let prefs = [PixelFormat::Rgba8Unorm, PixelFormat::Bgra8Unorm, PixelFormat::Bgra8Srgb, PixelFormat::Rgba8Srgb];
    let mut k: usize = 0;
    while k < 4
        invariant
            k <= 4,
            prefs@ == seq![format_preference(0), format_preference(1), format_preference(2), format_preference(3)],
            forall|k2: int, j: int|
                0 <= k2 < k && 0 <= j < formats@.len() ==> formats@[j] != Some(format_preference(k2)),
        decreases 4 - k,
    {
        let want = prefs[k];
        assert(want == format_preference(k as int));
        let mut i: usize = 0;
        while i < formats.len()
            invariant
                i <= formats@.len(),
                k < 4,
                want == format_preference(k as int),
                forall|j: int| 0 <= j < i ==> formats@[j] != Some(want),
                forall|k2: int, j: int|
                    0 <= k2 < k && 0 <= j < formats@.len() ==> formats@[j] != Some(format_preference(k2)),
            decreases formats@.len() - i,
        {
            if let Some(f) = formats[i] {
                if f == want {
                    assert(formats@[i as int] == Some(format_preference(k as int)));
                    return Some(i);
                }
            }
            i = i + 1;
        }
        k = k + 1;
    }
    None
}

/// The surface formats in order of preference.
pub open spec fn format_preference(k: int) -> PixelFormat {
    if k == 0 {
        PixelFormat::Rgba8Unorm
    } else if k == 1 {
        PixelFormat::Bgra8Unorm
    } else if k == 2 {
        PixelFormat::Bgra8Srgb
    } else {
        PixelFormat::Rgba8Srgb
    }
}

/// The preferred present mode among `modes`: mailbox, then FIFO, then
/// immediate.
pub fn pick_mode(modes: &Vec<PresentMode>) -> (r: Option<PresentMode>)
    ensures
        modes@.contains(PresentMode::Mailbox) ==> r == Some(PresentMode::Mailbox),
        !modes@.contains(PresentMode::Mailbox) && modes@.contains(PresentMode::Fifo) ==> r == Some(
            PresentMode::Fifo,
        ),
        !modes@.contains(PresentMode::Mailbox) && !modes@.contains(PresentMode::Fifo)
            && modes@.contains(PresentMode::Immediate) ==> r == Some(PresentMode::Immediate),
        !modes@.contains(PresentMode::Mailbox) && !modes@.contains(PresentMode::Fifo)
            && !modes@.contains(PresentMode::Immediate) ==> r is None,
{
    if has_mode(modes, PresentMode::Mailbox) {
        Some(PresentMode::Mailbox)
    } else if has_mode(modes, PresentMode::Fifo) {
        Some(PresentMode::Fifo)
    } else if has_mode(modes, PresentMode::Immediate) {
        Some(PresentMode::Immediate)
    } else {
        None
    }
}

fn has_mode(modes: &Vec<PresentMode>, m: PresentMode) -> (r: bool)
    ensures
        r == modes@.contains(m),
{
    let mut i: usize = 0;
    while i < modes.len()
        invariant
            i <= modes@.len(),
            forall|j: int| 0 <= j < i ==> modes@[j] != m,
        decreases modes@.len() - i,
    {
        if modes[i] == m {
            assert(modes@[i as int] == m);
            return true;
        }
        i = i + 1;
    }
    false
}

} // verus!
