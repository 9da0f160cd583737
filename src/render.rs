use vstd::prelude::*;

verus! {

/// Longest wait for one refill, in microseconds of the caller's clock. It
/// stays inside one hardware buffer period, so a starved source costs
/// silence, never a stalled callback.
pub const REFILL_TIMEOUT_MICROS: u64 = 20_000;

/// Most polls of the source in one refill. The wait then ends even if the
/// clock handed in never advances.
pub const MAX_POLLS: u64 = 4_294_967_295;

/// Outcome of one refill of the decoded buffer.
#[derive(Clone, Copy, Debug, PartialEq, Eq)]
pub struct Refill {
    /// A non-empty chunk was taken and is now being drained.
    pub filled: bool,
    /// How many times the source was asked for a chunk.
    pub polls: u64,
    /// Clock time between the start of the refill and its last reading.
    pub waited: u64,
}

/// What one call of `Playback::fill` did, for diagnostics.
#[derive(Clone, Copy, Debug, PartialEq, Eq)]
pub struct RenderReport {
    /// Frames written from source samples; the rest of the buffer is silence.
    pub from_source: usize,
    /// Refills attempted: one for each time the decoded buffer ran dry.
    pub refills: usize,
    /// A refill gave up, and the buffer was completed with silence.
    pub underrun: bool,
    /// The last refill attempted, if any (all zero and `false` otherwise).
    pub last_refill: Refill,
}

/// The `last_refill` of a fill that attempted none.
pub open spec fn no_refill() -> Refill {
    Refill { filled: false, polls: 0, waited: 0 }
}

/// What a refill does after one poll of the source.
#[derive(Debug)]
pub enum RefillStep<S> {
    /// The poll handed out this non-empty chunk: it becomes the decoded buffer.
    Adopt(Vec<S>),
    /// Nothing usable yet, and there is time left: poll again.
    PollAgain,
    /// Nothing usable, and the wait has passed the timeout or the polls are spent.
    GiveUp,
}

/// Clock time from `start` to `now`; a clock that ran backwards counts as no time.
pub open spec fn elapsed(start: u64, now: u64) -> u64 {
    if now >= start {
        (now - start) as u64
    } else {
        0
    }
}

/// What a refill does after its `polls`-th poll returned `got`, with the
/// clock reading `now` after a start at `start`. A non-empty chunk is always
/// adopted; otherwise the refill gives up exactly when the wait has passed
/// `REFILL_TIMEOUT_MICROS` or `MAX_POLLS` polls are spent.
pub open spec fn step_of<S>(got: Option<Vec<S>>, start: u64, now: u64, polls: u64) -> RefillStep<S> {
    if got is Some && got->0@.len() > 0 {
        RefillStep::Adopt(got->0)
    } else if elapsed(start, now) > REFILL_TIMEOUT_MICROS || polls >= MAX_POLLS {
        RefillStep::GiveUp
    } else {
        RefillStep::PollAgain
    }
}

/// Decides the step after one poll (see `step_of`).
pub fn refill_step<S>(got: Option<Vec<S>>, start: u64, now: u64, polls: u64) -> (r: RefillStep<S>)
    ensures
        r == step_of(got, start, now, polls),
{
    match got {
        Some(c) => {
            if c.len() > 0 {
                return RefillStep::Adopt(c);
            }
        },
        None => {},
    }
    if now.saturating_sub(start) > REFILL_TIMEOUT_MICROS || polls >= MAX_POLLS {
        RefillStep::GiveUp
    } else {
        RefillStep::PollAgain
    }
}

/// One run of a refill on `src`: the clock read `start`, then poll `k`
/// returned `trace[k].0` and the clock read `trace[k].1` after it. Every
/// poll but the last led to another poll; the last one adopted a chunk
/// (whose contents are `chunk`) or gave up, as `r.filled` says.
pub open spec fn refill_run<A, S, T: Fn(&A) -> Option<Vec<S>>, C: Fn() -> u64>(
    take: T,
    src: A,
    clock: C,
    start: u64,
    trace: Seq<(Option<Vec<S>>, u64)>,
    r: Refill,
    chunk: Seq<S>,
) -> bool {
    &&& r.polls >= 1
    &&& trace.len() == r.polls
    &&& clock.ensures((), start)
    &&& forall|k: int|
        0 <= k < trace.len() ==> take.ensures((&src,), (#[trigger] trace[k]).0) && clock.ensures(
            (),
            trace[k].1,
        )
    &&& forall|k: int|
        0 <= k < trace.len() - 1 ==> step_of((#[trigger] trace[k]).0, start, trace[k].1, (k + 1) as u64)
            is PollAgain
    &&& r.waited == elapsed(start, trace.last().1)
    &&& r.filled ==> step_of(trace.last().0, start, trace.last().1, r.polls) == RefillStep::Adopt(
        trace.last().0->0,
    ) && trace.last().0->0@ == chunk
    &&& !r.filled ==> step_of(trace.last().0, start, trace.last().1, r.polls) is GiveUp
}

/// Some run of a refill on `src` that `take` and `clock` allow ended as `r`
/// reports, having adopted `chunk` if it filled.
pub open spec fn ran<A, S, T: Fn(&A) -> Option<Vec<S>>, C: Fn() -> u64>(
    take: T,
    src: A,
    clock: C,
    r: Refill,
    chunk: Seq<S>,
) -> bool {
    exists|start: u64, trace: Seq<(Option<Vec<S>>, u64)>|
        #[trigger] refill_run(take, src, clock, start, trace, r, chunk)
}

/// `chunk` is the contents of a chunk that `take` can hand out for `src`.
pub open spec fn yields<A, S, T: Fn(&A) -> Option<Vec<S>>>(take: T, src: A, chunk: Seq<S>) -> bool {
    exists|v: Vec<S>| v@ == chunk && #[trigger] take.ensures((&src,), Some(v))
}

/// Every chunk in `taken` is non-empty and came from `take` on `src`.
pub open spec fn drawn_from<A, S, T: Fn(&A) -> Option<Vec<S>>>(
    take: T,
    src: A,
    taken: Seq<Seq<S>>,
) -> bool {
    forall|j: int|
        0 <= j < taken.len() ==> #[trigger] taken[j].len() > 0 && yields(take, src, taken[j])
}

/// A source that, whenever asked, has a non-empty chunk ready.
pub open spec fn always_ready<A, S, T: Fn(&A) -> Option<Vec<S>>>(take: T) -> bool {
    forall|a: &A, r: Option<Vec<S>>| #[trigger] take.ensures((a,), r) ==> r is Some && r->0@.len() > 0
}

/// `x` is a sample of some chunk that `take` can hand out for `src`.
pub open spec fn sample_of<A, S, T: Fn(&A) -> Option<Vec<S>>>(take: T, src: A, x: S) -> bool {
    exists|chunk: Seq<S>, k: int|
        #![trigger yields(take, src, chunk), chunk[k]]
        0 <= k < chunk.len() && chunk[k] == x && yields(take, src, chunk)
}

/// Each sample of a flattened sequence of chunks is a sample of one of them.
pub proof fn lemma_flatten_member<S>(chunks: Seq<Seq<S>>, i: int)
    requires
        0 <= i < chunks.flatten().len(),
    ensures
        exists|j: int, k: int|
            0 <= j < chunks.len() && 0 <= k < chunks[j].len() && #[trigger] chunks[j][k]
                == chunks.flatten()[i],
    decreases chunks.len(),
{
    if chunks.len() == 0 {
        assert(chunks.flatten().len() == 0);
    } else {
        let head = chunks.first();
        let tail = chunks.drop_first();
        assert(chunks.flatten() == head + tail.flatten());
        if i < head.len() {
            assert(chunks[0][i] == chunks.flatten()[i]);
        } else {
            lemma_flatten_member(tail, i - head.len());
            let (j, k) = choose|j: int, k: int|
                0 <= j < tail.len() && 0 <= k < tail[j].len() && #[trigger] tail[j][k]
                    == tail.flatten()[i - head.len()];
            assert(chunks[j + 1][k] == chunks.flatten()[i]);
        }
    }
}

/// The output of one fill, starting from the active source `active` and the
/// undrained samples `pending`, leaving `rest` undrained, with the chunks
/// `taken` drawn on the way: the first `r.from_source` frames convert the
/// samples of `pending` and then of `taken`, in order, at `volume`; every
/// later frame is `silence`.
pub open spec fn streamed<S, O, V: Fn(S, u8) -> O>(
    pending: Seq<S>,
    taken: Seq<Seq<S>>,
    rest: Seq<S>,
    out: Seq<O>,
    silence: O,
    volume: u8,
    convert: V,
    r: RenderReport,
) -> bool {
    let stream = pending + taken.flatten();
    &&& r.from_source <= out.len()
    &&& r.from_source <= stream.len()
    &&& forall|i: int| 0 <= i < r.from_source ==> convert.ensures((stream[i], volume), #[trigger] out[i])
    &&& forall|i: int| r.from_source <= i < out.len() ==> #[trigger] out[i] == silence
    &&& rest == stream.skip(r.from_source as int)
    &&& r.underrun <==> r.from_source < out.len()
    &&& r.underrun ==> rest.len() == 0 && !r.last_refill.filled
    &&& r.refills == 0 ==> r.last_refill == no_refill()
    &&& r.refills > 0 && !r.underrun ==> r.last_refill.filled && r.last_refill.polls >= 1
    &&& r.refills == taken.len() + if r.underrun { 1int } else { 0int }
    // a chunk is only taken once the one before it is drained
    &&& taken.len() > 0 ==> rest.len() < taken.last().len()
}

/// One fill of an output buffer from the source `active` with `pending`
/// samples undrained. With no source, every frame is silence and nothing
/// is drained. An underrun comes only from a refill run that polled until
/// the timeout passed (or its polls were spent) with no chunk handed out.
pub open spec fn rendered<
    A,
    S,
    O,
    T: Fn(&A) -> Option<Vec<S>>,
    C: Fn() -> u64,
    V: Fn(S, u8) -> O,
>(
    active: Option<A>,
    pending: Seq<S>,
    rest: Seq<S>,
    out: Seq<O>,
    silence: O,
    volume: u8,
    take: T,
    clock: C,
    convert: V,
    r: RenderReport,
) -> bool {
    match active {
        None => {
            &&& r.from_source == 0
            &&& r.refills == 0
            &&& !r.underrun
            &&& r.last_refill == no_refill()
            &&& rest == pending
            &&& forall|i: int| 0 <= i < out.len() ==> #[trigger] out[i] == silence
        },
        Some(src) => {
            &&& exists|taken: Seq<Seq<S>>|
                #[trigger] drawn_from(take, src, taken) && streamed(
                    pending,
                    taken,
                    rest,
                    out,
                    silence,
                    volume,
                    convert,
                    r,
                )
            &&& r.underrun ==> ran(take, src, clock, r.last_refill, Seq::empty())
        },
    }
}

/// The callback side's playback state: the active sample source, if one was
/// ever adopted, and the decoded chunk being drained.
pub struct Playback<A, S> {
    source: Option<A>,
    chunk: Vec<S>,
    pos: usize,
}

impl<A, S> Playback<A, S> {
    #[verifier::type_invariant]
    closed spec fn wf(&self) -> bool {
        self.pos <= self.chunk.len()
    }

    /// The active source.
    pub closed spec fn active(&self) -> Option<A> {
        self.source
    }

    /// The decoded samples not yet written out.
    pub closed spec fn pending(&self) -> Seq<S> {
        self.chunk@.skip(self.pos as int)
    }
}

impl<A, S: Copy> Playback<A, S> {
    /// Playback from `current`, with nothing decoded yet.
    pub fn new(current: Option<A>) -> (r: Self)
        ensures
            r.active() == current,
            r.pending().len() == 0,
    {
        Playback { source: current, chunk: Vec::new(), pos: 0 }
    }

    /// Whether a source was ever adopted.
    pub fn has_source(&self) -> (r: bool)
        ensures
            r == self.active() is Some,
    {
        self.source.is_some()
    }

    /// How many decoded samples wait to be written out.
    pub fn pending_len(&self) -> (r: usize)
        ensures
            r == self.pending().len(),
    {
        proof {
            use_type_invariant(self);
        }
        self.chunk.len() - self.pos
    }

    /// Adopts `incoming`, if there is one: it becomes the active source, and
    /// the previous source and its undrained samples are dropped at once.
    pub fn adopt(&mut self, incoming: Option<A>)
        ensures
            incoming is Some ==> final(self).active() == incoming && final(self).pending().len() == 0,
            incoming is None ==> final(self).active() == old(self).active() && final(self).pending()
                == old(self).pending(),
    {
        proof {
            use_type_invariant(&*self);
        }
        if let Some(src) = incoming {
            self.source = Some(src);
            self.pos = 0;
            self.chunk = Vec::new();
        }
    }

    /// Refills the drained buffer from the active source. After each poll
    /// it reads `clock` and takes the step that `refill_step` decides: it
    /// adopts a non-empty chunk, gives up once the wait has passed
    /// `REFILL_TIMEOUT_MICROS` (or `MAX_POLLS` polls are spent), and polls
    /// again otherwise. A source with data ready is asked exactly once.
    pub fn refill<T, C>(&mut self, take: &T, clock: &C) -> (r: Refill) where
        T: Fn(&A) -> Option<Vec<S>>,
        C: Fn() -> u64,

        requires
            old(self).active() is Some,
            old(self).pending().len() == 0,
            forall|a: &A| take.requires((a,)),
            clock.requires(()),
        ensures
            final(self).active() == old(self).active(),
            1 <= r.polls <= MAX_POLLS,
            ran(*take, old(self).active()->0, *clock, r, final(self).pending()),
            r.filled ==> final(self).pending().len() > 0 && yields(
                *take,
                old(self).active()->0,
                final(self).pending(),
            ),
            !r.filled ==> final(self).pending() == old(self).pending(),
            always_ready(*take) ==> r.filled && r.polls == 1,
    {
        proof {
            use_type_invariant(&*self);
        }
        let ghost src = self.source->0;
        let mut polls: u64 = 0;
        let start = clock();
        let ghost mut trace: Seq<(Option<Vec<S>>, u64)> = Seq::empty();
        loop
            invariant
                self.source == Some(src),
                old(self).source == Some(src),
                old(self).pending().len() == 0,
                self.pending().len() == 0,
                forall|a: &A| take.requires((a,)),
                clock.requires(()),
                clock.ensures((), start),
                polls < MAX_POLLS,
                trace.len() == polls,
                forall|k: int|
                    0 <= k < trace.len() ==> take.ensures((&src,), (#[trigger] trace[k]).0)
                        && clock.ensures((), trace[k].1),
                forall|k: int|
                    0 <= k < trace.len() ==> step_of(
                        (#[trigger] trace[k]).0,
                        start,
                        trace[k].1,
                        (k + 1) as u64,
                    ) is PollAgain,
                always_ready(*take) ==> polls == 0,
            decreases MAX_POLLS - polls,
        {
            let got = match &self.source {
                Some(s) => take(s),
                None => None,
            };
            let now = clock();
            polls = polls + 1;
            let ghost before = trace;
            proof {
                trace = trace.push((got, now));
                assert forall|k: int| 0 <= k < trace.len() - 1 implies trace[k] == before[k] by {}
            }
            let ghost step = step_of(got, start, now, polls);
            match refill_step(got, start, now, polls) {
                RefillStep::Adopt(c) => {
                    self.pos = 0;
                    self.chunk = c;
                    assert(self.pending() =~= self.chunk@);
                    let r = Refill { filled: true, polls, waited: now.saturating_sub(start) };
                    assert(refill_run(*take, src, *clock, start, trace, r, self.pending()));
                    return r;
                },
                RefillStep::GiveUp => {
                    assert(self.pending() =~= old(self).pending());
                    let r = Refill { filled: false, polls, waited: now.saturating_sub(start) };
                    assert(refill_run(*take, src, *clock, start, trace, r, self.pending()));
                    return r;
                },
                RefillStep::PollAgain => {},
            }
        }
    }

    /// Fills `out` for one hardware buffer request. With no source ever
    /// adopted, every frame is `silence` and nothing blocks. Otherwise each
    /// frame converts the next decoded sample at `volume`, refilling the
    /// buffer from the source whenever it runs dry; when a refill gives up,
    /// the rest of `out` is `silence`.
    pub fn fill<O: Copy, T, C, V>(
        &mut self,
        out: &mut [O],
        silence: O,
        volume: u8,
        take: &T,
        clock: &C,
        convert: &V,
    ) -> (r: RenderReport) where
        T: Fn(&A) -> Option<Vec<S>>,
        C: Fn() -> u64,
        V: Fn(S, u8) -> O,

        requires
            forall|a: &A| take.requires((a,)),
            clock.requires(()),
            forall|x: S| convert.requires((x, volume)),
        ensures
            final(self).active() == old(self).active(),
            final(out)@.len() == old(out)@.len(),
            rendered(
                old(self).active(),
                old(self).pending(),
                final(self).pending(),
                final(out)@,
                silence,
                volume,
                *take,
                *clock,
                *convert,
                r,
            ),
            old(self).active() is None ==> r.from_source == 0 && forall|i: int|
                0 <= i < final(out)@.len() ==> #[trigger] final(out)@[i] == silence,
            always_ready(*take) ==> !r.underrun,
    {
        proof {
            use_type_invariant(&*self);
        }
        let n = out.len();
        let idle = Refill { filled: false, polls: 0, waited: 0 };
        if self.source.is_none() {
            let mut i: usize = 0;
            while i < n
                invariant
                    i <= n == out@.len(),
                    forall|j: int| 0 <= j < i ==> #[trigger] out@[j] == silence,
                decreases n - i,
            {
                out[i] = silence;
                i = i + 1;
            }
            return RenderReport { from_source: 0, refills: 0, underrun: false, last_refill: idle };
        }
        let ghost src = self.source->0;
        let ghost pending = self.pending();
        let ghost mut taken: Seq<Seq<S>> = Seq::empty();
        let mut refills: usize = 0;
        let mut last_refill = idle;
        let mut underrun = false;
        let mut i: usize = 0;
        assert(pending + taken.flatten() =~= pending);
        while i < n
            invariant_except_break
                !underrun,
                refills == taken.len(),
                taken.len() == 0 ==> last_refill == no_refill(),
                taken.len() > 0 ==> last_refill.filled && last_refill.polls >= 1,
            invariant
                self.source == Some(src),
                old(self).source == Some(src),
                forall|a: &A| take.requires((a,)),
                clock.requires(()),
                forall|x: S| convert.requires((x, volume)),
                i <= n == out@.len(),
                drawn_from(*take, src, taken),
                taken.len() <= i,
                i <= (pending + taken.flatten()).len(),
                self.pending() =~= (pending + taken.flatten()).skip(i as int),
                forall|j: int|
                    0 <= j < i ==> convert.ensures(
                        ((pending + taken.flatten())[j], volume),
                        #[trigger] out@[j],
                    ),
                taken.len() > 0 ==> self.pending().len() < taken.last().len(),
            ensures
                !underrun ==> i == n && refills == taken.len() && (taken.len() == 0 ==> last_refill
                    == no_refill()) && (taken.len() > 0 ==> last_refill.filled && last_refill.polls
                    >= 1),
                underrun ==> i < n && refills == taken.len() + 1 && !last_refill.filled && ran(
                    *take,
                    src,
                    *clock,
                    last_refill,
                    Seq::empty(),
                )
                    && self.pending().len() == 0,
                always_ready(*take) ==> !underrun,
            decreases n - i,
        {
            if self.pos >= self.chunk.len() {
                let ghost before = pending + taken.flatten();
                proof {
                    use_type_invariant(&*self);
                }
                assert(before.len() == i) by {
                    assert(self.pending().len() == 0);
                    assert(before.skip(i as int).len() == before.len() - i);
                }
                let refill = self.refill(take, clock);
                refills = refills + 1;
                last_refill = refill;
                if !refill.filled {
                    assert(self.pending() =~= Seq::<S>::empty());
                    underrun = true;
                    break;
                }
                proof {
                    let c = self.pending();
                    taken.lemma_flatten_push(c);
                    taken = taken.push(c);
                    assert(taken.last() == c);
                    let after = pending + taken.flatten();
                    assert(after =~= before + c);
                    assert(after.skip(i as int) =~= c);
                    assert forall|j: int| 0 <= j < i implies after[j] == before[j] by {}
                    assert forall|j: int| 0 <= j < taken.len() implies #[trigger] taken[j].len() > 0
                        && yields(*take, src, taken[j]) by {
                        if j < taken.len() - 1 {
                            assert(taken[j] == taken.drop_last()[j]);
                        }
                    }
                }
            }
            let ghost stream = pending + taken.flatten();
            proof {
                use_type_invariant(&*self);
            }
            let ghost rest = self.pending();
            assert(rest.len() > 0 && rest[0] == self.chunk@[self.pos as int]);
            assert(rest[0] == stream[i as int]);
            let x = self.chunk[self.pos];
            out[i] = convert(x, volume);
            self.pos = self.pos + 1;
            i = i + 1;
            assert(self.pending() =~= rest.skip(1));
            assert(self.pending() =~= stream.skip(i as int));
        }
        let from_source = i;
        let ghost drained = self.pending();
        while i < n
            invariant
                from_source <= i <= n == out@.len(),
                forall|j: int| from_source <= j < i ==> #[trigger] out@[j] == silence,
                forall|j: int|
                    0 <= j < from_source ==> convert.ensures(
                        ((pending + taken.flatten())[j], volume),
                        #[trigger] out@[j],
                    ),
            decreases n - i,
        {
            out[i] = silence;
            i = i + 1;
        }
        let r = RenderReport { from_source, refills, underrun, last_refill };
        assert(drawn_from(*take, src, taken) && streamed(
            pending,
            taken,
            self.pending(),
            out@,
            silence,
            volume,
            *convert,
            r,
        ));
        r
    }
}

} // verus!
