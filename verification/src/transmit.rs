//! The transmission loop as a state machine.
//!
//! The caller owns the clock and the socket. It asks the painter what to do,
//! does it, and tells the painter how a send went.

use vstd::prelude::*;
use crate::address::{address_of, craftaddr, CANVAS_PREFIX, PAINT_FLAG};
use crate::clock::{expired, Timer};
use crate::config::Config;
use crate::hue::{advance, hue_after, next_hue, TURN_PERIOD_SECS};
use crate::packet::{build_echo_request, echo_request_bytes, EchoRequestTemplate};
use crate::raster::{hue_turned, resizable, resized, Raster, RasterView};
use crate::source::{extract, lemma_same_frame_same_positions, pixel_source, Pixel};
use crate::stats::{Report, Stats};

verus! {

/// Seconds to sleep before asking again while the painter idles.
pub const NAP_SECS: u64 = 1;

/// Where the loop stands.
#[derive(Clone, Copy, Debug, PartialEq, Eq, Structural)]
pub enum Phase {
    /// Between two passes: the next pass begins once the pause is over.
    Idling,
    /// Within a pass: one pixel is waiting to be sent.
    Sending,
    /// After the only pass of a run that sends once.
    Done,
}

/// What the caller is to do next.
#[derive(Clone, Copy, Debug, PartialEq, Eq, Structural)]
pub enum Action {
    /// Sleep for `NAP_SECS`, then ask again.
    Sleep,
    /// Send the request to this address, then record how it went.
    Send { address: u128 },
    /// A pass without pixels is over: ask again.
    Again,
    /// Stop: the run is over.
    Stop,
}

/// What a poll answers: the action, and what there is to tell the user.
#[derive(Clone, Copy, Debug, PartialEq, Eq)]
pub struct Step {
    pub action: Action,
    /// A pause has ended, and the run is not quiet.
    pub woke: bool,
    /// The hue has turned to this angle, and the run is not quiet.
    pub hue: Option<i32>,
}

/// The canvas coordinate of an image coordinate: the offset added, held at
/// `0xffff` where the sum does not fit in sixteen bits.
pub open spec fn canvas_coord(offset: u16, coord: u32) -> u16 {
    if offset + coord > 0xffff {
        0xffffu16
    } else {
        (offset + coord) as u16
    }
}

/// The address that paints `pixel` on the canvas.
pub open spec fn target(config: Config, pixel: Pixel) -> int {
    address_of(
        CANVAS_PREFIX,
        PAINT_FLAG,
        canvas_coord(config.x, pixel.x),
        canvas_coord(config.y, pixel.y),
        pixel.color.r,
        pixel.color.g,
        pixel.color.b,
    )
}

/// Adds the canvas offset to an image coordinate, saturating at `0xffff`.
pub fn place(offset: u16, coord: u32) -> (placed: u16)
    ensures
        placed == canvas_coord(offset, coord),
{
    let sum: u64 = offset as u64 + coord as u64;
    if sum > 0xffff {
        0xffff
    } else {
        sum as u16
    }
}

/// The address to send to for `pixel`.
pub fn address_for(config: &Config, pixel: &Pixel) -> (address: u128)
    ensures
        address as int == target(*config, *pixel),
{
    craftaddr(
        place(config.x, pixel.x),
        place(config.y, pixel.y),
        pixel.color.r,
        pixel.color.g,
        pixel.color.b,
    )
}

/// The image that a run paints: `image` as it is, or resized where a size is
/// configured. `None` where the sizes are beyond what can be resized.
pub fn prepare(image: Raster, resize: Option<(u32, u32)>) -> (prepared: Option<Raster>)
    ensures
        resize is None ==> prepared == Some(image),
        resize matches Some((width, height)) ==> {
            &&& prepared is Some <==> resizable(image@.width, image@.height, width, height)
            &&& prepared matches Some(scaled) ==> scaled@ == resized(image@, width, height)
                && scaled@.width == width && scaled@.height == height && scaled@.wf()
        },
{
    match resize {
        None => Some(image),
        Some((width, height)) => image.resize_exact(width, height),
    }
}

/// The state of a painter.
pub struct PainterView {
    pub config: Config,
    /// The image as it was decoded; the hue is always turned from here.
    pub decoded: RasterView,
    /// The bytes of the request that is sent to every address.
    pub request: Seq<u8>,
    /// The pixels of a pass, in the order in which they are sent.
    pub pixels: Seq<Pixel>,
    /// Degrees by which the hue of the pixels is turned.
    pub hue: i32,
    /// Index of the pixel that is sent next.
    pub cursor: nat,
    pub phase: Phase,
    pub stats: Stats,
    /// When the last pause ended.
    pub idle_since: u128,
    /// When the hue last turned.
    pub hue_since: u128,
}

impl PainterView {
    /// What holds of every painter: the hue lies within a full turn either
    /// way, within a pass the cursor stands on a pixel, every pass has as
    /// many pixels as the decoded image has to send, the request is the one
    /// that is built for every run, and the statistics go by the
    /// configuration.
    pub open spec fn wf(self) -> bool {
        &&& -360 < self.hue < 360
        &&& self.phase is Sending ==> self.cursor < self.pixels.len()
        &&& self.decoded.wf()
        &&& self.pixels.len() == pixel_source(self.decoded, self.config.opaque_only).len()
        &&& self.request == echo_request_bytes()
        &&& self.stats.interval == self.config.interval
        &&& self.stats.quiet == self.config.quiet
    }

    /// Whether the pause before a pass is over at `now`: always without a
    /// timeout or with a timeout of zero, else once more than the timeout has
    /// passed.
    pub open spec fn wakes(self, now: u128) -> bool {
        match self.config.timeout {
            None => true,
            Some(secs) => secs == 0 || expired(self.idle_since, now, secs),
        }
    }

    /// Whether the hue turns at `now`.
    pub open spec fn turns(self, now: u128) -> bool {
        self.config.hue_speed is Some && expired(self.hue_since, now, TURN_PERIOD_SECS)
    }

    /// Whether a poll at `now` begins a pass.
    pub open spec fn begins(self, now: u128) -> bool {
        self.phase is Idling && self.wakes(now)
    }

    /// The phase that follows a pass.
    pub open spec fn after_pass(self) -> Phase {
        if self.config.once {
            Phase::Done
        } else {
            Phase::Idling
        }
    }

    /// The hue after a poll at `now`.
    pub open spec fn hue_at(self, now: u128) -> i32 {
        if self.begins(now) && self.turns(now) {
            next_hue(self.hue, self.config.hue_speed->0) as i32
        } else {
            self.hue
        }
    }

    /// The pixels of the decoded image with its hue turned by `hue` degrees,
    /// in raster order.
    pub open spec fn turned_source(self, hue: i32) -> Seq<Pixel> {
        pixel_source(hue_turned(self.decoded, hue), self.config.opaque_only)
    }

    /// Whether a poll at `now` may leave `pixels` to send. Where the hue
    /// turns, they are the pixels of the decoded image turned to the new hue:
    /// in raster order, or in any order where the run shuffles. Else they are
    /// the pixels that were there.
    pub open spec fn may_send(self, now: u128, pixels: Seq<Pixel>) -> bool {
        if self.begins(now) && self.turns(now) {
            &&& pixels.to_multiset() == self.turned_source(self.hue_at(now)).to_multiset()
            &&& !self.config.shuffle ==> pixels == self.turned_source(self.hue_at(now))
        } else {
            pixels == self.pixels
        }
    }

    /// The state after a poll at `now` that leaves `pixels` to send.
    pub open spec fn polled(self, now: u128, pixels: Seq<Pixel>) -> PainterView {
        if self.begins(now) {
            PainterView {
                idle_since: if self.config.timeout is Some {
                    now
                } else {
                    self.idle_since
                },
                hue: self.hue_at(now),
                hue_since: if self.turns(now) {
                    now
                } else {
                    self.hue_since
                },
                pixels,
                cursor: 0,
                phase: if pixels.len() == 0 {
                    self.after_pass()
                } else {
                    Phase::Sending
                },
                ..self
            }
        } else {
            self
        }
    }

    /// What a poll at `now` that leaves `pixels` to send answers.
    pub open spec fn answer(self, now: u128, pixels: Seq<Pixel>) -> Step {
        match self.phase {
            Phase::Done => Step { action: Action::Stop, woke: false, hue: None },
            Phase::Sending => Step {
                action: Action::Send {
                    address: target(self.config, self.pixels[self.cursor as int]) as u128,
                },
                woke: false,
                hue: None,
            },
            Phase::Idling => if !self.wakes(now) {
                Step { action: Action::Sleep, woke: false, hue: None }
            } else {
                Step {
                    action: if pixels.len() > 0 {
                        Action::Send { address: target(self.config, pixels[0]) as u128 }
                    } else if self.config.once {
                        Action::Stop
                    } else {
                        Action::Again
                    },
                    woke: self.config.timeout is Some && !self.config.quiet,
                    hue: if self.turns(now) && !self.config.quiet {
                        Some(self.hue_at(now))
                    } else {
                        None
                    },
                }
            },
        }
    }

    /// The state after the send of the pixel at the cursor has been recorded
    /// at `now`: the send is counted, a report that is due is made, and the
    /// cursor moves on, or the pass ends.
    pub open spec fn recorded(self, ok: bool, now: u128) -> PainterView {
        let last = self.cursor + 1 >= self.pixels.len();
        PainterView {
            stats: self.stats.counted(true, !ok).reported(now),
            cursor: if last {
                0
            } else {
                self.cursor + 1
            },
            phase: if last {
                self.after_pass()
            } else {
                Phase::Sending
            },
            ..self
        }
    }
}

impl PainterView {
    /// The state after the sends of the next pixels have been recorded one
    /// after the other, send `i` with outcome `oks[i]` at `nows[i]`.
    pub open spec fn recorded_all(self, oks: Seq<bool>, nows: Seq<u128>) -> PainterView
        decreases oks.len(),
    {
        if oks.len() == 0 {
            self
        } else {
            self.recorded_all(oks.drop_last(), nows.drop_last()).recorded(oks.last(), nows.last())
        }
    }
}

/// Within a pass the pixels are sent in their order, each once: after the
/// first `n` sends of a pass have been recorded, the painter asks for the
/// send of pixel `n`, and after the last the pass is over. Whatever the
/// outcomes, the pixels and the image stay as they are.
pub proof fn lemma_pass_in_order(start: PainterView, oks: Seq<bool>, nows: Seq<u128>)
    requires
        start.wf(),
        start.phase is Sending,
        start.cursor == 0,
        oks.len() == nows.len(),
        oks.len() <= start.pixels.len(),
    ensures
        start.recorded_all(oks, nows).wf(),
        start.recorded_all(oks, nows).pixels == start.pixels,
        start.recorded_all(oks, nows).decoded == start.decoded,
        start.recorded_all(oks, nows).hue == start.hue,
        start.recorded_all(oks, nows).config == start.config,
        oks.len() < start.pixels.len() ==> start.recorded_all(oks, nows).phase is Sending
            && start.recorded_all(oks, nows).cursor == oks.len(),
        oks.len() < start.pixels.len() ==> forall|now: u128|
            (#[trigger] start.recorded_all(oks, nows).answer(now, start.pixels)).action
                == (Action::Send {
                address: target(start.config, start.pixels[oks.len() as int]) as u128,
            }),
        oks.len() == start.pixels.len() ==> start.recorded_all(oks, nows).phase
            == start.after_pass(),
    decreases oks.len(),
{
    if oks.len() > 0 {
        lemma_pass_in_order(start, oks.drop_last(), nows.drop_last());
    }
}

/// Every turn of the hue is one more step from 0: a painter that stands at the
/// hue of `turns` turns stands, after a poll that turns the hue, at the hue of
/// one turn more, and its pixels are those of the decoded image turned to
/// that hue, not of the image as it was turned before.
pub proof fn lemma_hue_counts_turns(before: PainterView, now: u128, pixels: Seq<Pixel>, turns: nat)
    requires
        before.begins(now),
        before.turns(now),
        before.hue == hue_after(before.config.hue_speed->0, turns),
        before.may_send(now, pixels),
    ensures
        before.polled(now, pixels).hue == hue_after(before.config.hue_speed->0, turns + 1),
        before.polled(now, pixels).decoded == before.decoded,
        pixels.to_multiset() == pixel_source(
            hue_turned(before.decoded, before.polled(now, pixels).hue),
            before.config.opaque_only,
        ).to_multiset(),
{
}

/// The transmission loop: the image, the pixels of the current pass, the
/// counters and the timers.
pub struct Painter {
    config: Config,
    decoded: Raster,
    request: EchoRequestTemplate,
    pixels: Vec<Pixel>,
    hue: i32,
    cursor: usize,
    phase: Phase,
    stats: Stats,
    idle_timer: Timer,
    hue_timer: Timer,
}

impl View for Painter {
    type V = PainterView;

    closed spec fn view(&self) -> PainterView {
        PainterView {
            config: self.config,
            decoded: self.decoded@,
            request: self.request@,
            pixels: self.pixels@,
            hue: self.hue,
            cursor: self.cursor as nat,
            phase: self.phase,
            stats: self.stats,
            idle_since: self.idle_timer.since,
            hue_since: self.hue_timer.since,
        }
    }
}

impl Painter {
    #[verifier::type_invariant]
    spec fn inv(&self) -> bool {
        self@.wf()
    }

    /// A painter for `image` at `now`: at the start of its first pause, the
    /// hue as decoded, nothing counted.
    pub fn new(config: Config, image: Raster, now: u128) -> (painter: Painter)
        ensures
            painter@.wf(),
            painter@.config == config,
            painter@.decoded == image@,
            painter@.pixels.to_multiset() == pixel_source(image@, config.opaque_only).to_multiset(),
            !config.shuffle ==> painter@.pixels == pixel_source(image@, config.opaque_only),
            painter@.hue == 0,
            painter@.cursor == 0,
            painter@.phase is Idling,
            painter@.stats == Stats::at_zero(config.interval, config.quiet, now),
            painter@.idle_since == now,
            painter@.hue_since == now,
    {
        let pixels = extract(&image, config.opaque_only, config.shuffle);
        Painter {
            config,
            decoded: image,
            request: build_echo_request(),
            pixels,
            hue: 0,
            cursor: 0,
            phase: Phase::Idling,
            stats: Stats::new(config.interval, config.quiet, now),
            idle_timer: Timer::start(now),
            hue_timer: Timer::start(now),
        }
    }

    /// Says what to do at `now`.
    ///
    /// Between passes: while the pause lasts, sleep. Once it is over the hue
    /// turns if its time has come, the pixels are taken anew from the decoded
    /// image turned to the new hue, and the pass begins with the first pixel;
    /// a pass without pixels is over at once. Within a pass: send the pixel at
    /// the cursor. After the last pass: stop.
    pub fn poll(&mut self, now: u128) -> (step: Step)
        ensures
            old(self)@.may_send(now, final(self)@.pixels),
            final(self)@ == old(self)@.polled(now, final(self)@.pixels),
            step == old(self)@.answer(now, final(self)@.pixels),
            final(self)@.wf(),
    {
        proof {
            use_type_invariant(&*self);
        }
        match self.phase {
            Phase::Done => Step { action: Action::Stop, woke: false, hue: None },
            Phase::Sending => {
                let address = address_for(&self.config, &self.pixels[self.cursor]);
                Step { action: Action::Send { address }, woke: false, hue: None }
            },
            Phase::Idling => {
                let mut woke = false;
                if let Some(secs) = self.config.timeout {
                    if secs == 0 || self.idle_timer.is_expired(now, secs) {
                        self.idle_timer = Timer::start(now);
                        woke = !self.config.quiet;
                    } else {
                        return Step { action: Action::Sleep, woke: false, hue: None };
                    }
                }
                let mut hue: Option<i32> = None;
                if let Some(speed) = self.config.hue_speed {
                    if self.hue_timer.is_expired(now, TURN_PERIOD_SECS) {
                        self.hue_timer = Timer::start(now);
                        self.hue = advance(self.hue, speed);
                        if !self.config.quiet {
                            hue = Some(self.hue);
                        }
                        let turned = self.decoded.huerotate(self.hue);
                        proof {
                            lemma_same_frame_same_positions(
                                self.decoded@,
                                turned@,
                                self.config.opaque_only,
                            );
                        }
                        self.pixels =
                            extract(&turned, self.config.opaque_only, self.config.shuffle);
                    }
                }
                self.cursor = 0;
                let action = if self.pixels.len() > 0 {
                    self.phase = Phase::Sending;
                    Action::Send { address: address_for(&self.config, &self.pixels[0]) }
                } else if self.config.once {
                    self.phase = Phase::Done;
                    Action::Stop
                } else {
                    Action::Again
                };
                Step { action, woke, hue }
            },
        }
    }

    /// Records at `now` how the send of the pixel at the cursor went, and
    /// returns the report if one is due.
    pub fn record(&mut self, ok: bool, now: u128) -> (report: Option<Report>)
        requires
            old(self)@.phase is Sending,
        ensures
            final(self)@ == old(self)@.recorded(ok, now),
            report == old(self)@.stats.counted(true, !ok).report_at(now),
            final(self)@.wf(),
    {
        proof {
            use_type_invariant(&*self);
        }
        let count: usize = self.pixels.len();
        let mut stats = self.stats;
        stats.record(true, !ok);
        let report = stats.maybe_report(now);
        self.stats = stats;
        if self.cursor + 1 >= count {
            self.phase = if self.config.once {
                Phase::Done
            } else {
                Phase::Idling
            };
            self.cursor = 0;
        } else {
            self.cursor = self.cursor + 1;
        }
        report
    }

    /// Where the loop stands.
    pub fn phase(&self) -> (phase: Phase)
        ensures
            phase == self@.phase,
    {
        self.phase
    }

    /// The configuration of the run.
    pub fn config(&self) -> (config: Config)
        ensures
            config == self@.config,
    {
        self.config
    }

    /// Degrees by which the hue is turned.
    pub fn hue(&self) -> (hue: i32)
        ensures
            hue == self@.hue,
    {
        self.hue
    }

    /// The counters and their timer.
    pub fn stats(&self) -> (stats: Stats)
        ensures
            stats == self@.stats,
    {
        self.stats
    }

    /// The request that is sent to every address.
    pub fn request(&self) -> (request: &EchoRequestTemplate)
        ensures
            request@ == self@.request,
            self@.wf(),
    {
        proof {
            use_type_invariant(self);
        }
        &self.request
    }

    /// The pixels of the current pass, in the order in which they are sent.
    pub fn pixels(&self) -> (pixels: &[Pixel])
        ensures
            pixels@ == self@.pixels,
    {
        self.pixels.as_slice()
    }
}

} // verus!
