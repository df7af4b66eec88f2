//! The engine handle: one native engine, its application object, and the
//! values it has published.
use vstd::prelude::*;
use crate::host::ApplicationHost;
use crate::native::{calls_of, lemma_occurrences_push, occurrences, Call, NativeCall, ValueSource};
use crate::uri::{build_file_uri, file_uri, PathStyle};
use vstd::string::StringExecFns;

verus! {

/// Whether `c` refers to no retained value at an index of `n` or more.
pub open spec fn refers_within(c: Call, n: nat) -> bool {
    match c {
        Call::ContextSetProperty(_, ValueSource::Retained(k)) => k < n,
        _ => true,
    }
}

/// Whether every call of `s` refers only to retained values below index `n`.
pub open spec fn all_refer_within(s: Seq<Call>, n: nat) -> bool {
    forall|i: int| 0 <= i < s.len() ==> refers_within(#[trigger] s[i], n)
}

/// The calls that tear a handle down, in the order the native layer needs:
/// stop the loop, release the engine, then release the application object
/// that the engine's resources live on.
pub open spec fn teardown_calls() -> Seq<Call> {
    seq![Call::AppQuit, Call::EngineDelete, Call::AppDelete]
}

/// Whether `c` creates or releases one of the two native objects.
pub open spec fn is_lifecycle(c: Call) -> bool {
    c == Call::AppCreate || c == Call::EngineCreate || c == Call::EngineDelete || c
        == Call::AppDelete
}

/// Owner of one native application engine and of the application object it
/// runs on.
///
/// Each operation queues the native calls that carry it out; the embedder
/// takes them with [`QmlEngine::take_pending`] and makes them in order. Values
/// published with [`QmlEngine::set_and_store_property`] are kept by the handle
/// until it is dropped, since the UI layer only holds a view of them.
pub struct QmlEngine<V> {
    host: ApplicationHost,
    engine_live: bool,
    stored: Vec<V>,
    pending: Vec<NativeCall>,
    taken: Ghost<Seq<Call>>,
}

impl<V> QmlEngine<V> {
    /// Whether the engine exists, that is, the handle has not been torn down.
    pub closed spec fn live(&self) -> bool {
        self.engine_live
    }

    /// The values kept alive by the handle, in the order they were published.
    pub closed spec fn retained(&self) -> Seq<V> {
        self.stored@
    }

    /// The calls queued and not yet taken, oldest first.
    pub closed spec fn pending_calls(&self) -> Seq<Call> {
        calls_of(self.pending@)
    }

    /// Every call issued through the handle since it was made, taken or not.
    pub closed spec fn issued(&self) -> Seq<Call> {
        self.taken@ + self.pending_calls()
    }

    /// The handle's invariant: the application object is created first, the
    /// engine second, each once; neither is released while the handle is live;
    /// a torn-down handle has released both once, by the teardown calls, which
    /// are the last it issued; and every retained value that a call refers to
    /// is still held.
    pub closed spec fn wf(&self) -> bool {
        let s = self.issued();
        &&& self.host.is_live() == self.engine_live
        &&& s.len() >= 2
        &&& s[0] == Call::AppCreate
        &&& s[1] == Call::EngineCreate
        &&& occurrences(s, Call::AppCreate) == 1
        &&& occurrences(s, Call::EngineCreate) == 1
        &&& self.engine_live ==> occurrences(s, Call::EngineDelete) == 0 && occurrences(
            s,
            Call::AppDelete,
        ) == 0
        &&& !self.engine_live ==> {
            &&& s.len() >= 5
            &&& occurrences(s, Call::EngineDelete) == 1
            &&& occurrences(s, Call::AppDelete) == 1
            &&& s.subrange(s.len() - 3, s.len() as int) == teardown_calls()
        }
        &&& all_refer_within(s, self.stored@.len())
    }

    /// Appends `call` to the queue.
    fn queue(&mut self, call: NativeCall)
        ensures
            final(self).pending_calls() == old(self).pending_calls().push(call@),
            final(self).issued() == old(self).issued().push(call@),
            final(self).host == old(self).host,
            final(self).engine_live == old(self).engine_live,
            final(self).stored@ == old(self).stored@,
    {
        let ghost before = self.pending@;
        self.pending.push(call);
        proof {
            assert(calls_of(self.pending@) =~= calls_of(before).push(call@));
            assert(self.issued() =~= old(self).issued().push(call@));
        }
    }

    /// Queuing a call that neither creates nor releases anything, and refers
    /// only to values held, keeps a live handle well formed.
    proof fn lemma_queue_keeps_wf(a: Self, b: Self, x: Call)
        requires
            a.wf(),
            a.engine_live,
            b.engine_live,
            b.host == a.host,
            b.issued() == a.issued().push(x),
            a.stored@.len() <= b.stored@.len(),
            !is_lifecycle(x),
            refers_within(x, b.stored@.len()),
        ensures
            b.wf(),
    {
        let s = a.issued();
        lemma_occurrences_push(s, x, Call::AppCreate);
        lemma_occurrences_push(s, x, Call::EngineCreate);
        lemma_occurrences_push(s, x, Call::EngineDelete);
        lemma_occurrences_push(s, x, Call::AppDelete);
        assert forall|i: int| 0 <= i < b.issued().len() implies refers_within(
            #[trigger] b.issued()[i],
            b.stored@.len(),
        ) by {
            if i < s.len() {
                assert(refers_within(s[i], a.stored@.len()));
            }
        }
    }

    /// Creates the application object, then the engine on it.
    pub fn new() -> (r: Self)
        ensures
            r.wf(),
            r.live(),
            r.retained() == Seq::<V>::empty(),
            r.issued() == seq![Call::AppCreate, Call::EngineCreate],
            r.pending_calls() == seq![Call::AppCreate, Call::EngineCreate],
    {
        let (host, create) = ApplicationHost::create();
        let mut pending: Vec<NativeCall> = Vec::new();
        pending.push(create);
        pending.push(NativeCall::EngineCreate);
        let r = QmlEngine { host, engine_live: true, stored: Vec::new(), pending, taken: Ghost(Seq::empty()) };
        proof {
            let s = r.issued();
            let e = Seq::<Call>::empty();
            assert(s =~= e.push(Call::AppCreate).push(Call::EngineCreate));
            assert(occurrences(e, Call::AppCreate) == 0);
            lemma_occurrences_push(e, Call::AppCreate, Call::AppCreate);
            lemma_occurrences_push(e, Call::AppCreate, Call::EngineCreate);
            lemma_occurrences_push(e, Call::AppCreate, Call::EngineDelete);
            lemma_occurrences_push(e, Call::AppCreate, Call::AppDelete);
            let e1 = e.push(Call::AppCreate);
            lemma_occurrences_push(e1, Call::EngineCreate, Call::AppCreate);
            lemma_occurrences_push(e1, Call::EngineCreate, Call::EngineCreate);
            lemma_occurrences_push(e1, Call::EngineCreate, Call::EngineDelete);
            lemma_occurrences_push(e1, Call::EngineCreate, Call::AppDelete);
            assert(r.pending_calls() =~= seq![Call::AppCreate, Call::EngineCreate]);
        }
        r
    }
    /// Whether the handle has not been torn down.
    pub fn is_live(&self) -> (r: bool)
        ensures
            r == self.live(),
    {
        self.engine_live
    }

    /// Has the engine load the UI file at the absolute path `path`, by its
    /// `file://` URI. Loading goes on inside the engine; its failures are
    /// reported by the engine's own diagnostics.
    pub fn load_file(&mut self, path: &str, style: PathStyle)
        requires
            old(self).wf(),
            old(self).live(),
        ensures
            final(self).wf(),
            final(self).live(),
            final(self).retained() == old(self).retained(),
            final(self).issued() == old(self).issued().push(Call::EngineLoadUrl(file_uri(path@, style))),
            final(self).pending_calls() == old(self).pending_calls().push(
                Call::EngineLoadUrl(file_uri(path@, style)),
            ),
    {
        let uri = build_file_uri(path, style);
        self.queue(NativeCall::EngineLoadUrl(uri));
        proof {
            Self::lemma_queue_keeps_wf(*old(self), *self, Call::EngineLoadUrl(file_uri(path@, style)));
        }
    }

    /// Has the engine load the inline UI source `data`, with the same
    /// reporting of failures as [`QmlEngine::load_file`].
    pub fn load_data(&mut self, data: &str)
        requires
            old(self).wf(),
            old(self).live(),
        ensures
            final(self).wf(),
            final(self).live(),
            final(self).retained() == old(self).retained(),
            final(self).issued() == old(self).issued().push(Call::EngineLoadData(data@)),
            final(self).pending_calls() == old(self).pending_calls().push(Call::EngineLoadData(data@)),
    {
        self.queue(NativeCall::EngineLoadData(String::from_str(data)));
        proof {
            Self::lemma_queue_keeps_wf(*old(self), *self, Call::EngineLoadData(data@));
        }
    }

    /// Runs the application's event loop; the call that enters it returns
    /// once [`QmlEngine::quit`] is carried out.
    pub fn exec(&mut self)
        requires
            old(self).wf(),
            old(self).live(),
        ensures
            final(self).wf(),
            final(self).live(),
            final(self).retained() == old(self).retained(),
            final(self).issued() == old(self).issued().push(Call::AppExec),
            final(self).pending_calls() == old(self).pending_calls().push(Call::AppExec),
    {
        let call = self.host.run_loop();
        self.queue(call);
        proof {
            Self::lemma_queue_keeps_wf(*old(self), *self, Call::AppExec);
        }
    }

    /// Asks the event loop to stop; where none runs the native call does
    /// nothing, so this may come before any [`QmlEngine::exec`].
    pub fn quit(&mut self)
        requires
            old(self).wf(),
            old(self).live(),
        ensures
            final(self).wf(),
            final(self).live(),
            final(self).retained() == old(self).retained(),
            final(self).issued() == old(self).issued().push(Call::AppQuit),
            final(self).pending_calls() == old(self).pending_calls().push(Call::AppQuit),
    {
        let call = self.host.request_stop();
        self.queue(call);
        proof {
            Self::lemma_queue_keeps_wf(*old(self), *self, Call::AppQuit);
        }
    }

    /// Publishes `value` under `name` and keeps it until the handle is
    /// dropped. A value published earlier under the same name stays kept too.
    pub fn set_and_store_property(&mut self, name: &str, value: V)
        requires
            old(self).wf(),
            old(self).live(),
        ensures
            final(self).wf(),
            final(self).live(),
            final(self).retained() == old(self).retained().push(value),
            final(self).retained().len() == old(self).retained().len() + 1,
            final(self).issued() == old(self).issued() + seq![
                Call::EngineContext,
                Call::ContextSetProperty(name@, ValueSource::Retained(old(self).retained().len() as usize)),
            ],
            final(self).pending_calls() == old(self).pending_calls() + seq![
                Call::EngineContext,
                Call::ContextSetProperty(name@, ValueSource::Retained(old(self).retained().len() as usize)),
            ],
    {
        let slot = self.stored.len();
        let ghost s0 = self.issued();
        let ghost p0 = self.pending_calls();
        self.stored.push(value);
        self.queue(NativeCall::EngineContext);
        proof {
            Self::lemma_queue_keeps_wf(*old(self), *self, Call::EngineContext);
        }
        let ghost mid = *self;
        self.queue(NativeCall::ContextSetProperty(String::from_str(name), ValueSource::Retained(slot)));
        proof {
            let x = Call::ContextSetProperty(name@, ValueSource::Retained(slot));
            Self::lemma_queue_keeps_wf(mid, *self, x);
            assert(self.issued() =~= s0 + seq![Call::EngineContext, x]);
            assert(self.pending_calls() =~= p0 + seq![Call::EngineContext, x]);
        }
    }

    /// Publishes under `name` a value that the caller keeps alive for as long
    /// as the UI may read it; the handle keeps nothing.
    pub fn set_property(&mut self, name: &str)
        requires
            old(self).wf(),
            old(self).live(),
        ensures
            final(self).wf(),
            final(self).live(),
            final(self).retained() == old(self).retained(),
            final(self).issued() == old(self).issued() + seq![
                Call::EngineContext,
                Call::ContextSetProperty(name@, ValueSource::Given),
            ],
            final(self).pending_calls() == old(self).pending_calls() + seq![
                Call::EngineContext,
                Call::ContextSetProperty(name@, ValueSource::Given),
            ],
    {
        let ghost s0 = self.issued();
        let ghost p0 = self.pending_calls();
        self.queue(NativeCall::EngineContext);
        proof {
            Self::lemma_queue_keeps_wf(*old(self), *self, Call::EngineContext);
        }
        let ghost mid = *self;
        self.queue(NativeCall::ContextSetProperty(String::from_str(name), ValueSource::Given));
        proof {
            let x = Call::ContextSetProperty(name@, ValueSource::Given);
            Self::lemma_queue_keeps_wf(mid, *self, x);
            assert(self.issued() =~= s0 + seq![Call::EngineContext, x]);
            assert(self.pending_calls() =~= p0 + seq![Call::EngineContext, x]);
        }
    }
    /// Tears the handle down: stops the event loop if it runs, releases the
    /// engine, then the application object. On a handle already torn down it
    /// does nothing, so neither object is ever released twice. The retained
    /// values stay held until the handle itself is dropped, after the embedder
    /// has carried out the teardown calls.
    pub fn destroy(&mut self)
        requires
            old(self).wf(),
        ensures
            final(self).wf(),
            !final(self).live(),
            final(self).retained() == old(self).retained(),
            old(self).live() ==> final(self).issued() == old(self).issued() + teardown_calls(),
            old(self).live() ==> final(self).pending_calls() == old(self).pending_calls()
                + teardown_calls(),
            !old(self).live() ==> final(self).issued() == old(self).issued(),
            !old(self).live() ==> final(self).pending_calls() == old(self).pending_calls(),
            occurrences(final(self).issued(), Call::EngineDelete) == 1,
            occurrences(final(self).issued(), Call::AppDelete) == 1,
    {
        if self.engine_live {
            let ghost s0 = self.issued();
            let ghost p0 = self.pending_calls();
            let stop = self.host.request_stop();
            self.queue(stop);
            self.queue(NativeCall::EngineDelete);
            self.engine_live = false;
            let release = self.host.destroy();
            self.queue(release);
            proof {
                let s1 = s0.push(Call::AppQuit);
                let s2 = s1.push(Call::EngineDelete);
                let c = seq![Call::AppCreate, Call::EngineCreate, Call::EngineDelete, Call::AppDelete];
                assert forall|k: int| 0 <= k < 4 implies #[trigger] occurrences(self.issued(), c[k])
                    == occurrences(s0, c[k]) + if c[k] == Call::EngineDelete || c[k] == Call::AppDelete {
                    1nat
                } else {
                    0nat
                } by {
                    lemma_occurrences_push(s0, Call::AppQuit, c[k]);
                    lemma_occurrences_push(s1, Call::EngineDelete, c[k]);
                    lemma_occurrences_push(s2, Call::AppDelete, c[k]);
                }
                assert(occurrences(self.issued(), c[0]) == 1);
                assert(occurrences(self.issued(), c[1]) == 1);
                assert(occurrences(self.issued(), c[2]) == 1);
                assert(occurrences(self.issued(), c[3]) == 1);
                assert(self.issued() =~= s0 + teardown_calls());
                assert(self.pending_calls() =~= p0 + teardown_calls());
                let s = self.issued();
                assert(s.subrange(s.len() - 3, s.len() as int) =~= teardown_calls());
                assert forall|i: int| 0 <= i < s.len() implies refers_within(
                    #[trigger] s[i],
                    self.stored@.len(),
                ) by {
                    if i < s0.len() {
                        assert(refers_within(s0[i], self.stored@.len()));
                    }
                }
            }
        }
    }

    /// Hands out the queued calls, oldest first, for the embedder to make in
    /// that order; the queue is left empty.
    pub fn take_pending(&mut self) -> (r: Vec<NativeCall>)
        requires
            old(self).wf(),
        ensures
            final(self).wf(),
            calls_of(r@) == old(self).pending_calls(),
            final(self).pending_calls() == Seq::<Call>::empty(),
            final(self).issued() == old(self).issued(),
            final(self).live() == old(self).live(),
            final(self).retained() == old(self).retained(),
    {
        let mut r: Vec<NativeCall> = Vec::new();
        std::mem::swap(&mut r, &mut self.pending);
        self.taken = Ghost(self.taken@ + calls_of(r@));
        proof {
            assert(calls_of(self.pending@) =~= Seq::<Call>::empty());
            assert(self.issued() =~= old(self).issued());
        }
        r
    }

    /// How many values the handle keeps.
    pub fn retained_count(&self) -> (r: usize)
        ensures
            r == self.retained().len(),
    {
        self.stored.len()
    }

    /// The value kept at index `k`, which a call referring to
    /// [`ValueSource::Retained`]`(k)` publishes.
    pub fn retained_value(&self, k: usize) -> (r: &V)
        requires
            k < self.retained().len(),
        ensures
            *r == self.retained()[k as int],
    {
        &self.stored[k]
    }

    /// However a handle has been used, each of the two native objects has
    /// been created exactly once and released at most once, and every retained
    /// value that an issued call refers to is still held. Once the handle is
    /// torn down both objects have been released exactly once, and the last
    /// calls it issued stop the loop, release the engine and then the
    /// application object.
    pub proof fn lemma_created_once_released_at_most_once(e: Self)
        requires
            e.wf(),
        ensures
            occurrences(e.issued(), Call::AppCreate) == 1,
            occurrences(e.issued(), Call::EngineCreate) == 1,
            occurrences(e.issued(), Call::EngineDelete) <= 1,
            occurrences(e.issued(), Call::AppDelete) <= 1,
            e.issued()[0] == Call::AppCreate,
            e.issued()[1] == Call::EngineCreate,
            all_refer_within(e.issued(), e.retained().len()),
            !e.live() ==> occurrences(e.issued(), Call::EngineDelete) == 1,
            !e.live() ==> occurrences(e.issued(), Call::AppDelete) == 1,
            !e.live() ==> e.issued().len() >= 5 && e.issued().subrange(
                e.issued().len() - 3,
                e.issued().len() as int,
            ) == teardown_calls(),
    {
    }
}

impl<V> Default for QmlEngine<V> {
    /// The same as [`QmlEngine::new`].
    fn default() -> (r: Self)
        ensures
            r.wf(),
            r.live(),
            r.retained() == Seq::<V>::empty(),
            r.issued() == seq![Call::AppCreate, Call::EngineCreate],
            r.pending_calls() == seq![Call::AppCreate, Call::EngineCreate],
    {
        Self::new()
    }
}

} // verus!
