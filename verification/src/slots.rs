//! Publish-subscribe distribution of the latest validated configuration.
//!
//! Two slots hold the newest client and server views, both derived from
//! one validated bundle; subscribers observe the current value without
//! coordination and never see views of two different generations in one
//! read. Updates are total replacements; there is no queue. The producer
//! folds loader results into the slots until every subscriber of either
//! slot has gone, at which point the pipeline retires.

use vstd::prelude::*;

use crate::config::{ClientConfig, CommonConfig, CommonSettings, ServerConfig, TlsVersion};

verus! {

/// What one store attempt reported.
#[derive(Clone, Copy, Debug, PartialEq, Eq, Structural)]
pub enum StoreOutcome {
    /// Both slots now hold views of the given bundle.
    Stored,
    /// A slot has no subscribers left; nothing was stored.
    Disconnected,
}

/// The two latest-value slots, their generation counter, and the
/// subscriber counts.
pub struct Slots {
    generation: u64,
    client_slot: Option<ClientConfig>,
    server_slot: Option<ServerConfig>,
    client_watchers: u64,
    server_watchers: u64,
}

/// A subscriber's handle onto the client slot, remembering the newest
/// generation it has observed.
pub struct ClientSubscription {
    last_seen: u64,
}

impl ClientSubscription {
    /// The newest generation this subscriber has observed.
    pub closed spec fn last_seen_model(self) -> u64 {
        self.last_seen
    }
}

/// A subscriber's handle onto the server slot.
pub struct ServerSubscription {
    last_seen: u64,
}

impl ServerSubscription {
    /// The newest generation this subscriber has observed.
    pub closed spec fn last_seen_model(self) -> u64 {
        self.last_seen
    }
}

impl Slots {
    /// The generation of the published value; zero before the first
    /// publication.
    pub closed spec fn current_gen(self) -> u64 {
        self.generation
    }

    /// The client slot.
    pub closed spec fn client_view(self) -> Option<ClientConfig> {
        self.client_slot
    }

    /// The server slot.
    pub closed spec fn server_view(self) -> Option<ServerConfig> {
        self.server_slot
    }

    /// Living subscribers of the client slot.
    pub closed spec fn client_count(self) -> u64 {
        self.client_watchers
    }

    /// Living subscribers of the server slot.
    pub closed spec fn server_count(self) -> u64 {
        self.server_watchers
    }

    /// The slots are `absent` until the first publication and filled
    /// afterwards, and they always carry views of one and the same
    /// bundle: the same snapshot on both sides, and the conservative
    /// protocol versions on the server side.
    pub open spec fn wf(self) -> bool {
        &&& (self.current_gen() == 0 <==> self.client_view() is None)
        &&& (self.client_view() is None <==> self.server_view() is None)
        &&& match (self.client_view(), self.server_view()) {
            (Some(c), Some(s)) => {
                &&& c.cert_resolver.model() == s.cert_resolver.model()
                &&& s.versions@ == seq![TlsVersion::Tls12]
            },
            _ => true,
        }
    }

    /// Fresh slots: no publication, no subscribers.
    pub fn new() -> (r: Slots)
        ensures
            r.wf(),
            r.current_gen() == 0,
            r.client_view() is None,
            r.server_view() is None,
            r.client_count() == 0,
            r.server_count() == 0,
    {
        Slots {
            generation: 0,
            client_slot: None,
            server_slot: None,
            client_watchers: 0,
            server_watchers: 0,
        }
    }

    /// Current generation, for callers that only need the counter.
    pub fn generation_value(&self) -> (g: u64)
        ensures
            g == self.current_gen(),
    {
        self.generation
    }

    /// Whether the client slot is still `absent`.
    pub fn client_absent(&self) -> (r: bool)
        ensures
            r == (self.client_view() is None),
    {
        self.client_slot.is_none()
    }

    /// Whether the server slot is still `absent`.
    pub fn server_absent(&self) -> (r: bool)
        ensures
            r == (self.server_view() is None),
    {
        self.server_slot.is_none()
    }

    /// Register one more subscriber of the client slot. The subscription
    /// starts unread: its first observation returns the current value, if
    /// one was ever published.
    pub fn subscribe_client(&mut self) -> (s: ClientSubscription)
        requires
            old(self).client_count() < u64::MAX,
        ensures
            final(self).client_count() == old(self).client_count() + 1,
            final(self).server_count() == old(self).server_count(),
            final(self).current_gen() == old(self).current_gen(),
            final(self).client_view() == old(self).client_view(),
            final(self).server_view() == old(self).server_view(),
            old(self).wf() ==> final(self).wf(),
            s.last_seen_model() == 0,
    {
        self.client_watchers = self.client_watchers + 1;
        ClientSubscription { last_seen: 0 }
    }

    /// Register one more subscriber of the server slot.
    pub fn subscribe_server(&mut self) -> (s: ServerSubscription)
        requires
            old(self).server_count() < u64::MAX,
        ensures
            final(self).server_count() == old(self).server_count() + 1,
            final(self).client_count() == old(self).client_count(),
            final(self).current_gen() == old(self).current_gen(),
            final(self).client_view() == old(self).client_view(),
            final(self).server_view() == old(self).server_view(),
            old(self).wf() ==> final(self).wf(),
            s.last_seen_model() == 0,
    {
        self.server_watchers = self.server_watchers + 1;
        ServerSubscription { last_seen: 0 }
    }

    /// A subscriber of the client slot is gone.
    pub fn drop_client(&mut self, sub: ClientSubscription)
        requires
            old(self).client_count() > 0,
        ensures
            final(self).client_count() == old(self).client_count() - 1,
            final(self).server_count() == old(self).server_count(),
            final(self).current_gen() == old(self).current_gen(),
            final(self).client_view() == old(self).client_view(),
            final(self).server_view() == old(self).server_view(),
            old(self).wf() ==> final(self).wf(),
    {
        let _ = sub;
        self.client_watchers = self.client_watchers - 1;
    }

    /// A subscriber of the server slot is gone.
    pub fn drop_server(&mut self, sub: ServerSubscription)
        requires
            old(self).server_count() > 0,
        ensures
            final(self).server_count() == old(self).server_count() - 1,
            final(self).client_count() == old(self).client_count(),
            final(self).current_gen() == old(self).current_gen(),
            final(self).client_view() == old(self).client_view(),
            final(self).server_view() == old(self).server_view(),
            old(self).wf() ==> final(self).wf(),
    {
        let _ = sub;
        self.server_watchers = self.server_watchers - 1;
    }

    /// Publish a validated bundle: replace both slots, within one
    /// non-suspending step, with views derived from it, and advance the
    /// generation. When either slot has no subscribers left, nothing is
    /// stored and the caller learns the pipeline is done. Generations are
    /// monotone: a published generation is never republished.
    pub fn store(&mut self, config: &CommonConfig) -> (r: StoreOutcome)
        requires
            old(self).wf(),
            old(self).current_gen() < u64::MAX,
        ensures
            final(self).wf(),
            (r == StoreOutcome::Disconnected) == (old(self).client_count() == 0
                || old(self).server_count() == 0),
            r == StoreOutcome::Disconnected ==> *final(self) == *old(self),
            r == StoreOutcome::Stored ==> {
                &&& final(self).current_gen() == old(self).current_gen() + 1
                &&& final(self).client_count() == old(self).client_count()
                &&& final(self).server_count() == old(self).server_count()
                &&& final(self).client_view() matches Some(c) && c.cert_resolver.model()
                    == config.model()
                &&& final(self).server_view() matches Some(s) && s.cert_resolver.model()
                    == config.model() && s.versions@ == seq![TlsVersion::Tls12]
            },
    {
        if self.client_watchers == 0 || self.server_watchers == 0 {
            return StoreOutcome::Disconnected;
        }
        let client = ClientConfig::from(config);
        let server = ServerConfig::from(config);
        self.client_slot = Some(client);
        self.server_slot = Some(server);
        self.generation = self.generation + 1;
        StoreOutcome::Stored
    }

    /// Observe the client slot: the current value and its generation when
    /// this subscriber has not yet seen it, `None` otherwise. Successive
    /// successful observations of one subscription carry strictly
    /// increasing generations, with no value of a generation the producer
    /// never published.
    pub fn observe_client(&self, sub: &mut ClientSubscription) -> (r: Option<(u64, ClientConfig)>)
        requires
            self.wf(),
        ensures
            (r is Some) == (self.current_gen() > old(sub).last_seen_model()),
            r matches Some((g, c)) ==> {
                &&& g == self.current_gen()
                &&& g > old(sub).last_seen_model()
                &&& final(sub).last_seen_model() == g
                &&& self.client_view() matches Some(cc) && c.cert_resolver.model()
                    == cc.cert_resolver.model()
            },
            r is None ==> *final(sub) == *old(sub),
    {
        if self.generation > sub.last_seen {
            match &self.client_slot {
                Some(c) => {
                    sub.last_seen = self.generation;
                    Some((self.generation, c.clone()))
                },
                None => {
                    proof {
                        assert(false);
                    }
                    None
                },
            }
        } else {
            None
        }
    }

    /// Observe the server slot; as `observe_client`.
    pub fn observe_server(&self, sub: &mut ServerSubscription) -> (r: Option<(u64, ServerConfig)>)
        requires
            self.wf(),
        ensures
            (r is Some) == (self.current_gen() > old(sub).last_seen_model()),
            r matches Some((g, s)) ==> {
                &&& g == self.current_gen()
                &&& g > old(sub).last_seen_model()
                &&& final(sub).last_seen_model() == g
                &&& self.server_view() matches Some(ss) && s.cert_resolver.model()
                    == ss.cert_resolver.model() && s.versions@ == ss.versions@
            },
            r is None ==> *final(sub) == *old(sub),
    {
        if self.generation > sub.last_seen {
            match &self.server_slot {
                Some(s) => {
                    sub.last_seen = self.generation;
                    Some((self.generation, s.clone()))
                },
                None => {
                    proof {
                        assert(false);
                    }
                    None
                },
            }
        } else {
            None
        }
    }
}

/// Both slots of a well-formed slot pair that has published carry views
/// of one snapshot, and the server view permits TLS 1.2 alone: a reader
/// of both slots never sees a cross-generation mismatch.
pub proof fn lemma_slots_consistent(b: Slots)
    requires
        b.wf(),
        b.current_gen() > 0,
    ensures
        b.client_view() matches Some(c) && b.server_view() matches Some(s)
            && c.cert_resolver.model() == s.cert_resolver.model() && s.versions@ == seq![
            TlsVersion::Tls12,
        ],
{
}

/// The background pipeline: the slots, and whether the fold has retired.
pub struct Pipeline {
    /// The slots the pipeline publishes into.
    pub slots: Slots,
    /// The settings the pipeline loads from; `None` in plaintext mode.
    pub settings: Option<CommonSettings>,
    /// Whether the fold has retired.
    pub finished: bool,
}

impl Pipeline {
    /// Whether the fold has retired, for callers.
    pub fn is_finished(&self) -> (r: bool)
        ensures
            r == self.finished,
    {
        self.finished
    }

    /// One fold step over one watcher tick: `loaded` is the loader's
    /// result for that tick, `None` when the attempt failed. A failed
    /// attempt changes nothing — the previous publication stays in
    /// force — and never retires the pipeline. A successful attempt is
    /// published, unless a slot has lost all subscribers, which retires
    /// the pipeline within that one step. The result reports whether the
    /// pipeline is now retired.
    pub fn step(&mut self, loaded: Option<&CommonConfig>) -> (done: bool)
        requires
            old(self).slots.wf(),
            old(self).slots.current_gen() < u64::MAX,
        ensures
            final(self).slots.wf(),
            done == final(self).finished,
            final(self).settings == old(self).settings,
            old(self).finished ==> *final(self) == *old(self) && done,
            !old(self).finished ==> match loaded {
                None => *final(self) == *old(self) && !done,
                Some(c) => {
                    if old(self).slots.client_count() == 0 || old(self).slots.server_count()
                        == 0 {
                        &&& done
                        &&& final(self).slots == old(self).slots
                    } else {
                        &&& !done
                        &&& final(self).slots.current_gen() == old(
                            self,
                        ).slots.current_gen() + 1
                        &&& final(self).slots.client_view() matches Some(cc)
                            && cc.cert_resolver.model() == c.model()
                        &&& final(self).slots.server_view() matches Some(ss)
                            && ss.cert_resolver.model() == c.model()
                        &&& final(self).slots.client_count() == old(
                            self,
                        ).slots.client_count()
                        &&& final(self).slots.server_count() == old(
                            self,
                        ).slots.server_count()
                    }
                },
            },
    {
        if self.finished {
            return true;
        }
        match loaded {
            None => false,
            Some(config) => {
                match self.slots.store(config) {
                    StoreOutcome::Stored => false,
                    StoreOutcome::Disconnected => {
                        self.finished = true;
                        true
                    },
                }
            },
        }
    }
}

/// Wire the pipeline: fresh slots with one subscription each, and the
/// fold state. With settings, the caller drives `Pipeline::step` with one
/// loader result per watcher tick; both slots stay `absent` until the
/// first successful attempt. Without settings — plaintext mode — the
/// slots stay `absent` forever and the pipeline is already retired.
pub fn watch_for_config_changes(settings: Option<&CommonSettings>) -> (r: (
    ClientSubscription,
    ServerSubscription,
    Pipeline,
))
    ensures
        r.2.slots.wf(),
        r.2.slots.current_gen() == 0,
        r.2.slots.client_view() is None,
        r.2.slots.server_view() is None,
        r.2.slots.client_count() == 1,
        r.2.slots.server_count() == 1,
        r.0.last_seen_model() == 0,
        r.1.last_seen_model() == 0,
        r.2.finished == (settings is None),
        match settings {
            Some(s) => r.2.settings matches Some(t) && t == *s,
            None => r.2.settings is None,
        },
{
    let mut slots = Slots::new();
    let client_sub = slots.subscribe_client();
    let server_sub = slots.subscribe_server();
    match settings {
        Some(s) => {
            let pipeline = Pipeline { slots, settings: Some(s.clone()), finished: false };
            (client_sub, server_sub, pipeline)
        },
        None => {
            let pipeline = Pipeline { slots, settings: None, finished: true };
            (client_sub, server_sub, pipeline)
        },
    }
}

impl ServerConfig {
    /// A server slot for a process configured without TLS: permanently
    /// `absent`, with an already-retired pipeline behind it.
    pub fn no_tls() -> (r: (ServerSubscription, Pipeline))
        ensures
            r.1.slots.wf(),
            r.1.slots.server_view() is None,
            r.1.slots.current_gen() == 0,
            r.1.finished,
            r.0.last_seen_model() == 0,
    {
        let mut slots = Slots::new();
        let server_sub = slots.subscribe_server();
        let pipeline = Pipeline { slots, settings: None, finished: true };
        (server_sub, pipeline)
    }
}

} // verus!
