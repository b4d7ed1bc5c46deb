//! The single-slot sink between the capture callback and the output file.
//!
//! The slot holds at most one open encoder. The controller installs an
//! encoder when a segment begins and finalizes it when the segment ends; the
//! capture callback hands each buffer to whatever encoder is installed, or
//! drops the buffer when there is none.
use vstd::prelude::*;

verus! {

/// An open output file that accepts samples of type `S` one at a time.
///
/// Implemented for the file encoder that a recorder installs into its sink.
pub trait Encoder<S>: Sized {
    /// The samples handed to this encoder, in order, since it was created.
    spec fn written(&self) -> Vec<S>;

    /// Whether this encoder's file has been completed: a valid header
    /// followed by exactly the samples of `written()`.
    spec fn completes(&self) -> bool;

    /// Appends one sample; false when the encoder reports it could not
    /// store it.
    fn write_sample(&mut self, s: S) -> (r: bool)
        ensures
            final(self).written()@ == old(self).written()@.push(s),
    ;

    /// Completes the file, or says why it could not.
    fn finalize(self) -> (r: Result<(), String>)
        ensures
            r is Ok ==> self.completes(),
    ;
}

/// What the sink holds, as seen by its contracts: whether an encoder is
/// installed, and the samples handed to the installed encoder.
pub ghost struct SinkView<S> {
    pub installed: bool,
    pub log: Seq<S>,
}

/// The sink after a buffer is offered: with an encoder installed, the whole
/// buffer follows what was handed before; without one, the buffer is dropped.
pub open spec fn after_write<S>(v: SinkView<S>, data: Seq<S>) -> SinkView<S> {
    if v.installed {
        SinkView { installed: true, log: v.log + data }
    } else {
        v
    }
}

/// An empty slot.
pub open spec fn empty<S>() -> SinkView<S> {
    SinkView { installed: false, log: Seq::empty() }
}

/// The sink after each buffer of `bufs` is offered in turn.
pub open spec fn after_writes<S>(v: SinkView<S>, bufs: Seq<Seq<S>>) -> SinkView<S>
    decreases bufs.len(),
{
    if bufs.len() == 0 {
        v
    } else {
        after_write(after_writes(v, bufs.drop_last()), bufs.last())
    }
}

/// The buffers' samples, one buffer after another.
pub open spec fn concat<S>(bufs: Seq<Seq<S>>) -> Seq<S>
    decreases bufs.len(),
{
    if bufs.len() == 0 {
        Seq::empty()
    } else {
        concat(bufs.drop_last()) + bufs.last()
    }
}

/// While an encoder stays installed, it is handed exactly the samples of the
/// buffers offered, whole and in order, after what it held when installed.
pub proof fn lemma_segment_round_trip<S>(start: Seq<S>, bufs: Seq<Seq<S>>)
    ensures
        after_writes(SinkView { installed: true, log: start }, bufs) == (SinkView {
            installed: true,
            log: start + concat(bufs),
        }),
    decreases bufs.len(),
{
    if bufs.len() > 0 {
        lemma_segment_round_trip(start, bufs.drop_last());
        assert(start + concat(bufs) == (start + concat(bufs.drop_last())) + bufs.last());
    } else {
        assert(start + concat(bufs) == start);
    }
}

/// With no encoder installed, every buffer offered is dropped.
pub proof fn lemma_empty_sink_drops<S>(bufs: Seq<Seq<S>>)
    ensures
        after_writes(empty::<S>(), bufs) == empty::<S>(),
    decreases bufs.len(),
{
    if bufs.len() > 0 {
        lemma_empty_sink_drops(bufs.drop_last());
    }
}

/// Why finalizing failed.
#[derive(Clone, Debug, PartialEq, Eq)]
pub enum SinkError {
    /// No encoder was installed.
    NotInstalled,
    /// The encoder could not complete the file; the text says why.
    Encode(String),
}

/// A slot for at most one encoder of samples of type `S`.
#[verifier::reject_recursive_types(E)]
#[verifier::reject_recursive_types(S)]
pub struct SampleSink<E, S> {
    slot: Option<E>,
    samples: core::marker::PhantomData<S>,
}

impl<S: Copy, E: Encoder<S>> SampleSink<E, S> {
    /// The installed encoder, if any.
    pub closed spec fn encoder(&self) -> Option<E> {
        self.slot
    }

    pub open spec fn view(&self) -> SinkView<S> {
        match self.encoder() {
            Some(e) => SinkView { installed: true, log: e.written()@ },
            None => empty::<S>(),
        }
    }

    /// An empty sink.
    pub fn new() -> (r: Self)
        ensures
            r.encoder() is None,
            r@ == empty::<S>(),
    {
        SampleSink { slot: None, samples: core::marker::PhantomData }
    }

    /// Whether an encoder is installed.
    pub fn is_installed(&self) -> (r: bool)
        ensures
            r == self@.installed,
    {
        self.slot.is_some()
    }

    /// Installs an encoder into an empty slot. A busy slot is left as it was
    /// and the offered encoder is handed back.
    pub fn install(&mut self, w: E) -> (r: Result<(), E>)
        ensures
            r.is_ok() <==> !old(self)@.installed,
            r.is_ok() ==> final(self).encoder() == Some(w),
            r matches Err(x) ==> x == w && final(self).encoder() == old(self).encoder(),
    {
        if self.slot.is_some() {
            Err(w)
        } else {
            self.slot = Some(w);
            Ok(())
        }
    }

    /// Hands a whole buffer to the installed encoder, one sample at a time;
    /// drops it when no encoder is installed. A sample the encoder reports it
    /// could not store is not retried.
    pub fn try_write(&mut self, data: &[S])
        ensures
            final(self)@ == after_write(old(self)@, data@),
            old(self).encoder() is None ==> final(self).encoder() is None,
            old(self).encoder() is Some ==> final(self).encoder() is Some
                && final(self).encoder()->Some_0.written()@
                == old(self).encoder()->Some_0.written()@ + data@,
    {
        let mut taken: Option<E> = None;
        core::mem::swap(&mut self.slot, &mut taken);
        match taken {
            None => {},
            Some(mut w) => {
                let ghost start = w.written()@;
                let mut i: usize = 0;
                while i < data.len()
                    invariant
                        self.slot.is_none(),
                        i <= data@.len(),
                        w.written()@ == start + data@.take(i as int),
                    decreases data@.len() - i,
                {
                    let _ = w.write_sample(data[i]);
                    assert(data@.take(i as int + 1) == data@.take(i as int).push(data@[i as int]));
                    i = i + 1;
                }
                assert(data@.take(data@.len() as int) == data@);
                self.slot = Some(w);
            },
        }
    }

    /// Removes the installed encoder and completes its file. The slot is
    /// empty afterwards whatever the outcome.
    pub fn finalize(&mut self) -> (r: Result<(), SinkError>)
        ensures
            final(self).encoder() is None,
            final(self)@ == empty::<S>(),
            r == Err::<(), SinkError>(SinkError::NotInstalled) <==> !old(self)@.installed,
            r is Ok ==> old(self).encoder()->Some_0.completes(),
    {
        let mut taken: Option<E> = None;
        core::mem::swap(&mut self.slot, &mut taken);
        match taken {
            None => Err(SinkError::NotInstalled),
            Some(w) => match w.finalize() {
                Ok(()) => Ok(()),
                Err(text) => Err(SinkError::Encode(text)),
            },
        }
    }
}

} // verus!
