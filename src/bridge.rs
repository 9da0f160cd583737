//! The two ends of the bridge: `AudioBridge`, held by the control side, and
//! `RenderLoop`, run by the output callback. They share the volume and the
//! hand-off channel for sample sources, and nothing else.
use crate::render::{
    always_ready, drawn_from, lemma_flatten_member, rendered, sample_of, streamed, yields, Playback, RenderReport,
};
use crate::volume::{clamped, Volume, VolumeReader, MAX_VOLUME};
use crossbeam_channel::{Receiver, Sender};
use vstd::prelude::*;

verus! {

/// What one callback reports: whether it adopted a source that was waiting
/// in the hand-off channel, the volume it read, and what its fill did.
#[derive(Clone, Copy, Debug, PartialEq, Eq)]
pub struct CallbackReport {
    pub adopted: bool,
    pub volume: u8,
    pub fill: RenderReport,
}

/// What one callback did, given the source it found waiting (`incoming`,
/// present exactly when `r.adopted`): a waiting source replaces the active
/// one and everything still decoded from it; then the buffer is filled at
/// the volume read, `r.volume`.
pub open spec fn serviced<
    A,
    S,
    O,
    T: Fn(&A) -> Option<Vec<S>>,
    C: Fn() -> u64,
    V: Fn(S, u8) -> O,
>(
    before: Playback<A, S>,
    incoming: Option<A>,
    after: Playback<A, S>,
    out: Seq<O>,
    silence: O,
    take: T,
    clock: C,
    convert: V,
    r: CallbackReport,
) -> bool {
    &&& r.volume <= MAX_VOLUME
    &&& r.adopted <==> incoming is Some
    &&& match incoming {
        Some(src) => {
            &&& after.active() == Some(src)
            &&& rendered(
                Some(src),
                Seq::empty(),
                after.pending(),
                out,
                silence,
                r.volume,
                take,
                clock,
                convert,
                r.fill,
            )
        },
        None => {
            &&& after.active() == before.active()
            &&& rendered(
                before.active(),
                before.pending(),
                after.pending(),
                out,
                silence,
                r.volume,
                take,
                clock,
                convert,
                r.fill,
            )
        },
    }
}

/// Replacing the source mid-stream: a callback that found `new` waiting
/// writes only silence and samples of chunks that `new` handed out. Nothing
/// decoded from the source it replaced reaches the output.
pub proof fn lemma_replacement_isolates<
    A,
    S,
    O,
    T: Fn(&A) -> Option<Vec<S>>,
    C: Fn() -> u64,
    V: Fn(S, u8) -> O,
>(
    before: Playback<A, S>,
    new: A,
    after: Playback<A, S>,
    out: Seq<O>,
    silence: O,
    take: T,
    clock: C,
    convert: V,
    report: CallbackReport,
)
    requires
        serviced(before, Some(new), after, out, silence, take, clock, convert, report),
    ensures
        after.active() == Some(new),
        forall|i: int|
            0 <= i < out.len() ==> #[trigger] out[i] == silence || exists|x: S|
                sample_of(take, new, x) && #[trigger] convert.ensures((x, report.volume), out[i]),
{
    let volume = report.volume;
    let r = report.fill;
    let taken = choose|taken: Seq<Seq<S>>|
        #[trigger] drawn_from(take, new, taken) && streamed(
            Seq::empty(),
            taken,
            after.pending(),
            out,
            silence,
            volume,
            convert,
            r,
        );
    let stream = Seq::<S>::empty() + taken.flatten();
    assert(stream =~= taken.flatten());
    assert forall|i: int|
        0 <= i < out.len() implies #[trigger] out[i] == silence || exists|x: S|
            sample_of(take, new, x) && #[trigger] convert.ensures((x, volume), out[i]) by {
        if i < r.from_source {
            lemma_flatten_member(taken, i);
            let (j, k) = choose|j: int, k: int|
                0 <= j < taken.len() && 0 <= k < taken[j].len() && #[trigger] taken[j][k]
                    == taken.flatten()[i];
            assert(yields(take, new, taken[j]));
            assert(sample_of(take, new, stream[i]));
            assert(convert.ensures((stream[i], volume), out[i]));
        }
    }
}

/// The control side of the bridge: sets the volume and publishes new
/// sample sources, never waiting on the output callback.
#[verifier::reject_recursive_types(A)]
pub struct AudioBridge<A> {
    volume: Volume,
    sender: Sender<A>,
    receiver: Receiver<A>,
}

/// Relies on crossbeam_channel::Sender::send: on an unbounded channel it
/// queues the message without waiting, and fails only once every receiver
/// of the channel is gone. The bridge holds a receiver of its own channel
/// for as long as it lives, so a send from it succeeds.
#[verifier::external_body]
fn send_source<A>(bridge: &AudioBridge<A>, source: A) -> (r: bool)
    ensures
        r,
{
    bridge.sender.send(source).is_ok()
}

impl<A> AudioBridge<A> {
    /// The master volume last set.
    pub closed spec fn level(&self) -> u8 {
        self.volume.level()
    }

    /// A bridge with the volume muted and no source published.
    pub fn new() -> (r: Self)
        ensures
            r.level() == 0,
    {
        let (sender, receiver) = crossbeam_channel::unbounded();
        AudioBridge { volume: Volume::new(), sender, receiver }
    }

    /// Sets the master volume, clamped into `0..=MAX_VOLUME`, and returns
    /// the level stored. The output callback uses it from its next buffer on.
    pub fn set_volume(&mut self, level: u8) -> (r: u8)
        ensures
            r as int == clamped(level as int),
            final(self).level() == r,
    {
        self.volume.set(level)
    }

    /// The master volume last set.
    pub fn volume(&self) -> (r: u8)
        ensures
            r == self.level(),
            r <= MAX_VOLUME,
    {
        self.volume.get()
    }

    /// Queues `source` for adoption by the output callback, without
    /// waiting. It always succeeds: the bridge keeps the channel open.
    pub fn publish_source(&self, source: A) -> (r: bool)
        ensures
            r,
    {
        send_source(self, source)
    }

    /// A render loop for a new output stream, starting from `current` (the
    /// source that was active before, if any) and adopting what is
    /// published from here on.
    pub fn render_loop<S: Copy>(&self, current: Option<A>) -> (r: RenderLoop<A, S>)
        ensures
            r.state().active() == current,
            r.state().pending().len() == 0,
    {
        RenderLoop {
            slot: self.receiver.clone(),
            volume: self.volume.reader(),
            playback: Playback::new(current),
        }
    }
}

/// The callback side of the bridge, run once per hardware buffer request.
#[verifier::reject_recursive_types(A)]
pub struct RenderLoop<A, S> {
    slot: Receiver<A>,
    volume: VolumeReader,
    playback: Playback<A, S>,
}

impl<A, S: Copy> RenderLoop<A, S> {
    /// The playback state.
    pub closed spec fn state(&self) -> Playback<A, S> {
        self.playback
    }

    /// The playback state, to inspect.
    pub fn playback(&self) -> (r: &Playback<A, S>)
        ensures
            *r == self.state(),
    {
        &self.playback
    }

    /// Services one hardware buffer request: adopts at most one source
    /// waiting in the hand-off channel, reads the volume, and fills `out`
    /// (see `Playback::fill`). The volume is read once per request, so every
    /// frame of one buffer is scaled by the same level and the report can say
    /// which; a change reaches the output within one buffer period.
    pub fn render<O: Copy, T, C, V>(
        &mut self,
        out: &mut [O],
        silence: O,
        take: &T,
        clock: &C,
        convert: &V,
    ) -> (r: CallbackReport) where
        T: Fn(&A) -> Option<Vec<S>>,
        C: Fn() -> u64,
        V: Fn(S, u8) -> O,

        requires
            forall|a: &A| take.requires((a,)),
            clock.requires(()),
            forall|x: S, v: u8| convert.requires((x, v)),
        ensures
            final(out)@.len() == old(out)@.len(),
            exists|incoming: Option<A>|
                #[trigger] serviced(
                    old(self).state(),
                    incoming,
                    final(self).state(),
                    final(out)@,
                    silence,
                    *take,
                    *clock,
                    *convert,
                    r,
                ),
            always_ready(*take) ==> !r.fill.underrun,
    {
        let incoming = match self.slot.try_recv() {
            Ok(src) => Some(src),
            Err(_) => None,
        };
        let adopted = incoming.is_some();
        let ghost arrived = incoming;
        self.playback.adopt(incoming);
        let volume = self.volume.get();
        let fill = self.playback.fill(out, silence, volume, take, clock, convert);
        let r = CallbackReport { adopted, volume, fill };
        assert(serviced(
            old(self).state(),
            arrived,
            self.state(),
            out@,
            silence,
            *take,
            *clock,
            *convert,
            r,
        ));
        r
    }
}

} // verus!
