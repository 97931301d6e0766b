use vstd::prelude::*;
use crate::error::{ErrorKind, MozimError};
use crate::status::{decode_status, status_of_json, DhcpState, DhcpStatus};
use crate::text::same_text;
use crate::worker::{state_after, MozimDhcpCmd};

verus! {

/// How a command/reply exchange with a worker broke down.
#[derive(PartialEq, Eq, Structural, Clone, Copy, Debug)]
pub enum ChannelFault {
    /// The command could not be handed to the worker.
    Send,
    /// The worker's reply never came.
    Recv,
}

/// `r` is what the registry makes of the outcome `reply` of one exchange: a
/// broken channel is an internal fault, a worker's error passes through, and
/// a worker's text is decoded as a status.
pub open spec fn reply_outcome(
    reply: Result<Result<String, MozimError>, ChannelFault>,
    r: Result<DhcpStatus, MozimError>,
) -> bool {
    match reply {
        Err(_) => r is Err && r->Err_0.kind == ErrorKind::MozimBug,
        Ok(Err(e)) => r is Err && r->Err_0.kind == e.kind && r->Err_0.msg@ == e.msg@,
        Ok(Ok(s)) => match status_of_json(s@) {
            Some(p) => r is Ok && r->Ok_0.iface_name@ == p.0 && r->Ok_0.state == p.1,
            None => r is Err && r->Err_0.kind == ErrorKind::MozimBug,
        },
    }
}

/// Some outcome that `exchange` may give for `cmd` sent to the worker `h`
/// becomes `r`.
pub open spec fn exchange_gives<H, X>(
    exchange: &X,
    h: &H,
    cmd: MozimDhcpCmd,
    r: Result<DhcpStatus, MozimError>,
) -> bool where
    X: Fn(&H, MozimDhcpCmd) -> Result<Result<String, MozimError>, ChannelFault>,
 {
    exists|reply: Result<Result<String, MozimError>, ChannelFault>|
        exchange.ensures((h, cmd), reply) && reply_outcome(reply, r)
}

/// Turns the outcome of one exchange with a worker into a status.
pub fn handle_reply(reply: Result<Result<String, MozimError>, ChannelFault>) -> (r: Result<
    DhcpStatus,
    MozimError,
>)
    ensures
        reply_outcome(reply, r),
{
    match reply {
        Err(ChannelFault::Send) => Err(
            MozimError::bug(String::from_str("Thread communication send error")),
        ),
        Err(ChannelFault::Recv) => Err(
            MozimError::bug(String::from_str("Thread communication recv error")),
        ),
        Ok(Err(e)) => Err(e),
        Ok(Ok(s)) => decode_status(s.as_str()),
    }
}

/// Every answer that `exchange` may give for a command sent to the worker
/// `h` is a status text that reads as interface `id` in the state that the
/// command leads to.
pub open spec fn answers_for<H, X>(exchange: &X, h: &H, id: Seq<char>) -> bool where
    X: Fn(&H, MozimDhcpCmd) -> Result<Result<String, MozimError>, ChannelFault>,
 {
    forall|c: MozimDhcpCmd, reply: Result<Result<String, MozimError>, ChannelFault>|
        #[trigger] exchange.ensures((h, c), reply) ==> reply is Ok && reply->Ok_0 is Ok
            && status_of_json(reply->Ok_0->Ok_0@) == Some((id, state_after(c)))
}

/// Every worker that `spawn` may create for a name answers for that name.
pub open spec fn spawns_faithfully<H, S, X>(spawn: &S, exchange: &X) -> bool where
    S: Fn(&str) -> Result<H, MozimError>,
    X: Fn(&H, MozimDhcpCmd) -> Result<Result<String, MozimError>, ChannelFault>,
 {
    forall|a: &str, h: H| #[trigger] spawn.ensures((a,), Ok::<H, MozimError>(h))
        ==> answers_for(exchange, &h, a@)
}

/// The position of `id` in `ids`.
pub open spec fn index_of(ids: Seq<Seq<char>>, id: Seq<char>) -> int {
    choose|i: int| 0 <= i < ids.len() && ids[i] == id
}

/// The live workers, one handle per interface, each reachable only through
/// the registry.
pub struct Registry<H> {
    names: Vec<String>,
    handles: Vec<H>,
}

impl<H> Registry<H> {
    /// The interfaces that have a live worker, in registration order.
    pub closed spec fn ifaces(&self) -> Seq<Seq<char>> {
        self.names@.map_values(|s: String| s@)
    }

    /// The handles of the live workers, in the order of `ifaces`.
    pub closed spec fn workers(&self) -> Seq<H> {
        self.handles@
    }

    /// One handle per interface, and no interface twice.
    pub open spec fn wf(&self) -> bool {
        self.ifaces().len() == self.workers().len() && self.ifaces().no_duplicates()
    }

    /// The handle of the worker of `id`.
    pub open spec fn worker_of(&self, id: Seq<char>) -> H {
        self.workers()[index_of(self.ifaces(), id)]
    }

    /// What `start` of `id` does, taking `self` to `after` and returning `r`:
    /// a live worker is reused and sent `StartDhcp`; otherwise `spawn` is
    /// asked for one, and either its error is returned with nothing
    /// registered, or the new worker is registered last and sent `StartDhcp`.
    pub open spec fn started<S, X>(
        self,
        after: Self,
        id: Seq<char>,
        spawn: &S,
        exchange: &X,
        r: Result<DhcpStatus, MozimError>,
    ) -> bool where
        S: Fn(&str) -> Result<H, MozimError>,
        X: Fn(&H, MozimDhcpCmd) -> Result<Result<String, MozimError>, ChannelFault>,
     {
        if self.ifaces().contains(id) {
            after.ifaces() == self.ifaces() && after.workers() == self.workers() && exchange_gives(
                exchange,
                &self.worker_of(id),
                MozimDhcpCmd::StartDhcp,
                r,
            )
        } else {
            (exists|a: &str, sr: Result<H, MozimError>|
                a@ == id && spawn.ensures((a,), sr) && sr is Err && after.ifaces() == self.ifaces()
                    && after.workers() == self.workers() && r is Err && r->Err_0 == sr->Err_0)
                || (exists|a: &str, h: H|
                a@ == id && spawn.ensures((a,), Ok::<H, MozimError>(h)) && after.ifaces()
                    == self.ifaces().push(id) && after.workers() == self.workers().push(h)
                    && exchange_gives(exchange, &h, MozimDhcpCmd::StartDhcp, r))
        }
    }

    /// What `query` of `id` returns: the live worker's answer to `QueryDhcp`,
    /// or `Stopped` for an interface without one.
    pub open spec fn queried<X>(self, id: Seq<char>, exchange: &X, r: Result<DhcpStatus, MozimError>) -> bool where
        X: Fn(&H, MozimDhcpCmd) -> Result<Result<String, MozimError>, ChannelFault>,
     {
        if self.ifaces().contains(id) {
            exchange_gives(exchange, &self.worker_of(id), MozimDhcpCmd::QueryDhcp, r)
        } else {
            r is Ok && r->Ok_0.iface_name@ == id && r->Ok_0.state == DhcpState::Stopped
        }
    }

    /// What `stop` of `id` does, taking `self` to `after` and returning `r`:
    /// the live worker is unregistered, then sent `StopDhcp`; an interface
    /// without one is reported `Stopped` and nothing changes.
    pub open spec fn stopped<X>(
        self,
        after: Self,
        id: Seq<char>,
        exchange: &X,
        r: Result<DhcpStatus, MozimError>,
    ) -> bool where
        X: Fn(&H, MozimDhcpCmd) -> Result<Result<String, MozimError>, ChannelFault>,
     {
        &&& !after.ifaces().contains(id)
        &&& if self.ifaces().contains(id) {
            after.ifaces() == self.ifaces().remove(index_of(self.ifaces(), id))
                && after.workers() == self.workers().remove(index_of(self.ifaces(), id))
                && exchange_gives(exchange, &self.worker_of(id), MozimDhcpCmd::StopDhcp, r)
        } else {
            after.ifaces() == self.ifaces() && after.workers() == self.workers() && r is Ok
                && r->Ok_0.iface_name@ == id && r->Ok_0.state == DhcpState::Stopped
        }
    }

    /// What `query_all` returns: one status per live worker, in registration
    /// order, each its answer to `QueryDhcp`; or the failure of one of them.
    pub open spec fn all_queried<X>(self, exchange: &X, r: Result<Vec<DhcpStatus>, MozimError>) -> bool where
        X: Fn(&H, MozimDhcpCmd) -> Result<Result<String, MozimError>, ChannelFault>,
     {
        &&& r is Ok ==> r->Ok_0@.len() == self.ifaces().len() && forall|i: int|
            0 <= i < self.ifaces().len() ==> #[trigger] exchange_gives(
                exchange,
                &self.workers()[i],
                MozimDhcpCmd::QueryDhcp,
                Ok(r->Ok_0@[i]),
            )
        &&& r is Err ==> exists|i: int|
            0 <= i < self.ifaces().len() && #[trigger] exchange_gives(
                exchange,
                &self.workers()[i],
                MozimDhcpCmd::QueryDhcp,
                Err(r->Err_0),
            )
    }

    /// Each live worker answers for the interface it is registered under.
    pub open spec fn faithful<X>(self, exchange: &X) -> bool where
        X: Fn(&H, MozimDhcpCmd) -> Result<Result<String, MozimError>, ChannelFault>,
     {
        forall|i: int|
            0 <= i < self.ifaces().len() ==> answers_for(
                exchange,
                &#[trigger] self.workers()[i],
                self.ifaces()[i],
            )
    }

    /// An empty registry.
    pub fn new() -> (r: Registry<H>)
        ensures
            r.wf(),
            r.ifaces().len() == 0,
    {
        let r = Registry { names: Vec::new(), handles: Vec::new() };
        assert(r.ifaces() =~= Seq::empty());
        r
    }

    /// The number of live workers.
    pub fn len(&self) -> (r: usize)
        requires
            self.wf(),
        ensures
            r == self.ifaces().len(),
    {
        self.names.len()
    }

    fn find(&self, id: &str) -> (r: Option<usize>)
        requires
            self.wf(),
        ensures
            r is None <==> !self.ifaces().contains(id@),
            r is Some ==> r->0 < self.ifaces().len() && self.ifaces()[r->0 as int] == id@
                && index_of(self.ifaces(), id@) == r->0,
    {
        let mut i: usize = 0;
        while i < self.names.len()
            invariant
                self.wf(),
                i <= self.names@.len(),
                forall|j: int| 0 <= j < i ==> self.ifaces()[j] != id@,
            decreases self.names@.len() - i,
        {
            if same_text(self.names[i].as_str(), id) {
                let ghost k = index_of(self.ifaces(), id@);
                assert(self.ifaces()[i as int] == id@);
                assert(k == i) by {
                    assert(0 <= k < self.ifaces().len() && self.ifaces()[k] == id@);
                }
                return Some(i);
            }
            i = i + 1;
        }
        None
    }

    /// Whether `id` has a live worker.
    pub fn contains(&self, id: &str) -> (r: bool)
        requires
            self.wf(),
        ensures
            r == self.ifaces().contains(id@),
    {
        self.find(id).is_some()
    }

    /// Sends `StartDhcp` to the worker of `id`, which is created first through
    /// `spawn` when `id` has none; a second start reuses the live worker.
    pub fn start<S, X>(&mut self, id: &str, spawn: &S, exchange: &X) -> (r: Result<
        DhcpStatus,
        MozimError,
    >) where
        S: Fn(&str) -> Result<H, MozimError>,
        X: Fn(&H, MozimDhcpCmd) -> Result<Result<String, MozimError>, ChannelFault>,

        requires
            old(self).wf(),
            forall|a: &str| spawn.requires((a,)),
            forall|h: &H, c: MozimDhcpCmd| exchange.requires((h, c)),
        ensures
            final(self).wf(),
            old(self).started(*final(self), id@, spawn, exchange, r),
    {
        match self.find(id) {
            Some(i) => {
                let reply = exchange(&self.handles[i], MozimDhcpCmd::StartDhcp);
                handle_reply(reply)
            },
            None => {
                let sr = spawn(id);
                match sr {
                    Err(e) => Err(e),
                    Ok(h) => {
                        let ghost old_ifaces = self.ifaces();
                        self.names.push(String::from_str(id));
                        self.handles.push(h);
                        assert(self.ifaces() =~= old_ifaces.push(id@));
                        let n = self.handles.len();
                        let reply = exchange(&self.handles[n - 1], MozimDhcpCmd::StartDhcp);
                        handle_reply(reply)
                    },
                }
            },
        }
    }

    /// Sends `QueryDhcp` to the worker of `id`; an interface without a live
    /// worker is reported `Stopped` and no worker is created.
    pub fn query<X>(&self, id: &str, exchange: &X) -> (r: Result<DhcpStatus, MozimError>) where
        X: Fn(&H, MozimDhcpCmd) -> Result<Result<String, MozimError>, ChannelFault>,

        requires
            self.wf(),
            forall|h: &H, c: MozimDhcpCmd| exchange.requires((h, c)),
        ensures
            self.queried(id@, exchange, r),
    {
        match self.find(id) {
            Some(i) => {
                let reply = exchange(&self.handles[i], MozimDhcpCmd::QueryDhcp);
                handle_reply(reply)
            },
            None => Ok(DhcpStatus::stopped(id)),
        }
    }

    /// Removes the worker of `id` from the registry, then sends it
    /// `StopDhcp`; an interface without a live worker is reported `Stopped`.
    pub fn stop<X>(&mut self, id: &str, exchange: &X) -> (r: Result<DhcpStatus, MozimError>) where
        X: Fn(&H, MozimDhcpCmd) -> Result<Result<String, MozimError>, ChannelFault>,

        requires
            old(self).wf(),
            forall|h: &H, c: MozimDhcpCmd| exchange.requires((h, c)),
        ensures
            final(self).wf(),
            old(self).stopped(*final(self), id@, exchange, r),
    {
        match self.find(id) {
            Some(i) => {
                let ghost old_ifaces = self.ifaces();
                let ghost ii = i as int;
                let _ = self.names.remove(i);
                let h = self.handles.remove(i);
                assert(self.ifaces() =~= old_ifaces.remove(ii));
                assert(self.ifaces().no_duplicates()) by {
                    assert forall|a: int, b: int|
                        0 <= a < self.ifaces().len() && 0 <= b < self.ifaces().len() && a != b
                        implies self.ifaces()[a] != self.ifaces()[b] by {
                        let oa = if a < ii { a } else { a + 1 };
                        let ob = if b < ii { b } else { b + 1 };
                        assert(self.ifaces()[a] == old_ifaces[oa]);
                        assert(self.ifaces()[b] == old_ifaces[ob]);
                    }
                }
                assert(!self.ifaces().contains(id@)) by {
                    if self.ifaces().contains(id@) {
                        let a = choose|a: int| 0 <= a < self.ifaces().len() && self.ifaces()[a] == id@;
                        let oa = if a < ii { a } else { a + 1 };
                        assert(old_ifaces[oa] == id@);
                    }
                }
                let reply = exchange(&h, MozimDhcpCmd::StopDhcp);
                handle_reply(reply)
            },
            None => Ok(DhcpStatus::stopped(id)),
        }
    }

    /// Sends `QueryDhcp` to every live worker, in registration order, and
    /// collects the statuses; the first failure ends the walk.
    pub fn query_all<X>(&self, exchange: &X) -> (r: Result<Vec<DhcpStatus>, MozimError>) where
        X: Fn(&H, MozimDhcpCmd) -> Result<Result<String, MozimError>, ChannelFault>,

        requires
            self.wf(),
            forall|h: &H, c: MozimDhcpCmd| exchange.requires((h, c)),
        ensures
            self.all_queried(exchange, r),
    {
        let mut out: Vec<DhcpStatus> = Vec::new();
        let mut i: usize = 0;
        while i < self.handles.len()
            invariant
                self.wf(),
                forall|h: &H, c: MozimDhcpCmd| exchange.requires((h, c)),
                i <= self.handles@.len(),
                out@.len() == i,
                forall|j: int|
                    0 <= j < i ==> #[trigger] exchange_gives(exchange, &self.workers()[j], MozimDhcpCmd::QueryDhcp, Ok(out@[j])),
            decreases self.handles@.len() - i,
        {
            let reply = exchange(&self.handles[i], MozimDhcpCmd::QueryDhcp);
            let ghost g = reply;
            let st = handle_reply(reply);
            match st {
                Ok(s) => {
                    let ghost prev = out@;
                    out.push(s);
                    assert forall|j: int| 0 <= j < i + 1 implies exchange_gives(exchange, &self.workers()[j], MozimDhcpCmd::QueryDhcp, Ok(out@[j])) by {
                        if j < i {
                            assert(out@[j] == prev[j]);
                        } else {
                            assert(reply_outcome(g, Ok(out@[j])));
                        }
                    }
                },
                Err(e) => {
                    assert(reply_outcome(g, Err(e)));
                    assert(exchange_gives(
                        exchange,
                        &self.workers()[i as int],
                        MozimDhcpCmd::QueryDhcp,
                        Err(e),
                    ));
                    let r: Result<Vec<DhcpStatus>, MozimError> = Err(e);
                    assert(exists|k: int|
                        0 <= k < self.ifaces().len() && #[trigger] exchange_gives(
                            exchange,
                            &self.workers()[k],
                            MozimDhcpCmd::QueryDhcp,
                            Err(r->Err_0),
                        )) by {
                        assert(r->Err_0 == e);
                        assert((i as int) < self.ifaces().len());
                    }
                    return r;
                },
            }
            i = i + 1;
        }
        Ok(out)
    }
}


/// Starting the same interface twice leaves exactly one live worker for it:
/// once a start has succeeded, a second start registers nothing new.
pub proof fn lemma_start_twice<H, S, X>(
    r0: Registry<H>,
    r1: Registry<H>,
    r2: Registry<H>,
    id: Seq<char>,
    spawn: &S,
    exchange: &X,
    first: Result<DhcpStatus, MozimError>,
    second: Result<DhcpStatus, MozimError>,
) where
    S: Fn(&str) -> Result<H, MozimError>,
    X: Fn(&H, MozimDhcpCmd) -> Result<Result<String, MozimError>, ChannelFault>,

    requires
        r1.wf(),
        r0.started(r1, id, spawn, exchange, first),
        r1.started(r2, id, spawn, exchange, second),
        first is Ok,
    ensures
        r2.ifaces() == r1.ifaces(),
        r2.workers() == r1.workers(),
        exists|i: int|
            0 <= i < r2.ifaces().len() && r2.ifaces()[i] == id && forall|j: int|
                0 <= j < r2.ifaces().len() && #[trigger] r2.ifaces()[j] == id ==> j == i,
{
    if !r0.ifaces().contains(id) {
        let n = r0.ifaces().len();
        assert(r1.ifaces()[n as int] == id);
    }
    assert(r1.ifaces().contains(id));
    let i = choose|i: int| 0 <= i < r1.ifaces().len() && r1.ifaces()[i] == id;
    assert(forall|j: int|
        0 <= j < r2.ifaces().len() && #[trigger] r2.ifaces()[j] == id ==> j == i);
}

/// Stopping an interface twice: the first stop unregisters it, and the
/// second one finds no worker, reports it `Stopped` and changes nothing.
pub proof fn lemma_stop_twice<H, X>(
    r0: Registry<H>,
    r1: Registry<H>,
    r2: Registry<H>,
    id: Seq<char>,
    exchange: &X,
    first: Result<DhcpStatus, MozimError>,
    second: Result<DhcpStatus, MozimError>,
) where
    X: Fn(&H, MozimDhcpCmd) -> Result<Result<String, MozimError>, ChannelFault>,

    requires
        r0.stopped(r1, id, exchange, first),
        r1.stopped(r2, id, exchange, second),
    ensures
        !r1.ifaces().contains(id),
        r2.ifaces() == r1.ifaces(),
        r2.workers() == r1.workers(),
        second is Ok,
        second->Ok_0.iface_name@ == id,
        second->Ok_0.state == DhcpState::Stopped,
{
}

/// Starting an interface whose worker is live and answers for it reuses
/// that worker: the registry is unchanged and the answer is the interface,
/// `Requesting`.
pub proof fn lemma_start_live<H, S, X>(
    before: Registry<H>,
    after: Registry<H>,
    id: Seq<char>,
    spawn: &S,
    exchange: &X,
    r: Result<DhcpStatus, MozimError>,
) where
    S: Fn(&str) -> Result<H, MozimError>,
    X: Fn(&H, MozimDhcpCmd) -> Result<Result<String, MozimError>, ChannelFault>,

    requires
        before.wf(),
        before.faithful(exchange),
        before.ifaces().contains(id),
        before.started(after, id, spawn, exchange, r),
    ensures
        after.ifaces() == before.ifaces(),
        after.workers() == before.workers(),
        r is Ok,
        r->Ok_0.iface_name@ == id,
        r->Ok_0.state == DhcpState::Requesting,
{
    let k = index_of(before.ifaces(), id);
    assert(answers_for(exchange, &before.workers()[k], before.ifaces()[k]));
}

/// Stopping an interface whose worker is live and answers for it
/// unregisters exactly that interface and answers it `Stopped`.
pub proof fn lemma_stop_live<H, X>(
    before: Registry<H>,
    after: Registry<H>,
    id: Seq<char>,
    exchange: &X,
    r: Result<DhcpStatus, MozimError>,
) where
    X: Fn(&H, MozimDhcpCmd) -> Result<Result<String, MozimError>, ChannelFault>,

    requires
        before.wf(),
        before.faithful(exchange),
        before.ifaces().contains(id),
        before.stopped(after, id, exchange, r),
    ensures
        after.ifaces() == before.ifaces().remove(index_of(before.ifaces(), id)),
        !after.ifaces().contains(id),
        after.ifaces().len() == before.ifaces().len() - 1,
        r is Ok,
        r->Ok_0.iface_name@ == id,
        r->Ok_0.state == DhcpState::Stopped,
{
    let k = index_of(before.ifaces(), id);
    assert(answers_for(exchange, &before.workers()[k], before.ifaces()[k]));
}

/// Starting a new interface beside live ones leaves their workers as they
/// were: either spawning fails and nothing changes, or the new worker is
/// registered after the others, which keep their places and handles, and
/// answers for the new interface, `Requesting`. The registry keeps
/// answering faithfully.
pub proof fn lemma_start_beside<H, S, X>(
    before: Registry<H>,
    after: Registry<H>,
    id: Seq<char>,
    spawn: &S,
    exchange: &X,
    r: Result<DhcpStatus, MozimError>,
) where
    S: Fn(&str) -> Result<H, MozimError>,
    X: Fn(&H, MozimDhcpCmd) -> Result<Result<String, MozimError>, ChannelFault>,

    requires
        before.wf(),
        before.faithful(exchange),
        spawns_faithfully(spawn, exchange),
        !before.ifaces().contains(id),
        before.started(after, id, spawn, exchange, r),
    ensures
        after.faithful(exchange),
        r is Err ==> after.ifaces() == before.ifaces() && after.workers() == before.workers(),
        r is Ok ==> after.ifaces() == before.ifaces().push(id) && after.workers().len()
            == before.workers().len() + 1 && after.workers().take(before.workers().len() as int)
            == before.workers() && r->Ok_0.iface_name@ == id && r->Ok_0.state
            == DhcpState::Requesting,
{
    if exists|a: &str, h: H|
        a@ == id && spawn.ensures((a,), Ok::<H, MozimError>(h)) && after.ifaces()
            == before.ifaces().push(id) && after.workers() == before.workers().push(h)
            && exchange_gives(exchange, &h, MozimDhcpCmd::StartDhcp, r) {
        let (a, h) = choose|a: &str, h: H|
            a@ == id && spawn.ensures((a,), Ok::<H, MozimError>(h)) && after.ifaces()
                == before.ifaces().push(id) && after.workers() == before.workers().push(h)
                && exchange_gives(exchange, &h, MozimDhcpCmd::StartDhcp, r);
        assert(answers_for(exchange, &h, a@));
        assert(after.workers().take(before.workers().len() as int) =~= before.workers());
        assert forall|i: int| 0 <= i < after.ifaces().len() implies answers_for(
            exchange,
            &#[trigger] after.workers()[i],
            after.ifaces()[i],
        ) by {
            if i < before.ifaces().len() {
                assert(after.workers()[i] == before.workers()[i]);
                assert(after.ifaces()[i] == before.ifaces()[i]);
                assert(answers_for(exchange, &before.workers()[i], before.ifaces()[i]));
            }
        }
    }
}

} // verus!
