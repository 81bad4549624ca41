//! Setting the clock: a time server is looked up and started, and the device
//! waits for it only if the clock was never set.

use crate::kernel::mdns::ServiceQuery;
use crate::network::{service_or, Service};
use vstd::prelude::*;

verus! {

/// A clock that reads earlier than this many seconds after the epoch was never
/// set: it starts from the epoch when the device boots.
pub const RTC_INITIALIZED_SECS: u64 = (2022 - 1970) * 365 * 24 * 60 * 60;

/// The query for a time server.
pub fn ntp_query() -> (query: ServiceQuery)
    ensures
        query.asks_for("_ntp"@, "_udp"@),
{
    ServiceQuery::new("_ntp", "_udp")
}

/// The time server to use: the one that was found, or else the public pool.
pub fn ntp_service(found: Option<Service>) -> (service: Service)
    ensures
        service@ == crate::network::found_or(found, "pool.ntp.org"@, 123),
{
    service_or(found, "pool.ntp.org", 123)
}

/// Whether a clock was ever set, by the whole seconds that it reads after the
/// epoch; nothing stands for a time before the epoch.
pub open spec fn was_set(clock: Option<u64>) -> bool {
    clock matches Some(secs) && secs >= RTC_INITIALIZED_SECS
}

/// The step that is under way.
#[derive(Clone, Copy, PartialEq, Eq, Structural, Debug)]
pub enum RtcStage {
    Querying,
    StartingSntp,
    ReadingClock,
    AwaitingSync,
    Ready,
    Failed,
}

/// What a step that went well replies.
pub enum RtcReply {
    /// The time server that was found, if any.
    Found(Option<Service>),
    /// The time server is being asked.
    Started,
    /// The whole seconds after the epoch that the clock reads; nothing before it.
    Clock(Option<u64>),
    /// The clock was set.
    Synced,
}

/// The step to take next.
pub enum RtcAction<E> {
    StartSntp { server: String },
    ReadClock,
    AwaitSync,
    Finish,
    Fail(E),
}

pub enum RtcActionView<E> {
    StartSntp { server: Seq<char> },
    ReadClock,
    AwaitSync,
    Finish,
    Fail(E),
}

impl<E> View for RtcAction<E> {
    type V = RtcActionView<E>;

    open spec fn view(&self) -> RtcActionView<E> {
        match self {
            RtcAction::StartSntp { server } => RtcActionView::StartSntp { server: server@ },
            RtcAction::ReadClock => RtcActionView::ReadClock,
            RtcAction::AwaitSync => RtcActionView::AwaitSync,
            RtcAction::Finish => RtcActionView::Finish,
            RtcAction::Fail(error) => RtcActionView::Fail(*error),
        }
    }
}

impl RtcStage {
    /// Whether `reply` answers the step. The query and the start of the time
    /// server can fail; reading the clock and waiting for it cannot.
    pub open spec fn awaits<E>(self, reply: Result<RtcReply, E>) -> bool {
        match self {
            RtcStage::Querying => reply matches Ok(good) ==> good is Found,
            RtcStage::StartingSntp => reply matches Ok(good) ==> good is Started,
            RtcStage::ReadingClock => reply matches Ok(good) && good is Clock,
            RtcStage::AwaitingSync => reply matches Ok(good) && good is Synced,
            RtcStage::Ready | RtcStage::Failed => false,
        }
    }

    /// The stage after a reply.
    pub open spec fn after<E>(self, reply: Result<RtcReply, E>) -> RtcStage {
        match reply {
            Err(_) => RtcStage::Failed,
            Ok(good) => match self {
                RtcStage::Querying => RtcStage::StartingSntp,
                RtcStage::StartingSntp => RtcStage::ReadingClock,
                RtcStage::ReadingClock => if was_set(good->Clock_0) {
                    RtcStage::Ready
                } else {
                    RtcStage::AwaitingSync
                },
                RtcStage::AwaitingSync => RtcStage::Ready,
                RtcStage::Ready | RtcStage::Failed => self,
            },
        }
    }

    /// The step to take after a reply: the one that belongs to the stage that is
    /// entered.
    pub open spec fn action<E>(self, reply: Result<RtcReply, E>) -> RtcActionView<E> {
        match self.after(reply) {
            RtcStage::Querying | RtcStage::StartingSntp => RtcActionView::StartSntp {
                server: crate::network::found_or(
                    reply->Ok_0->Found_0,
                    "pool.ntp.org"@,
                    123,
                ).hostname,
            },
            RtcStage::ReadingClock => RtcActionView::ReadClock,
            RtcStage::AwaitingSync => RtcActionView::AwaitSync,
            RtcStage::Ready => RtcActionView::Finish,
            RtcStage::Failed => RtcActionView::Fail(reply->Err_0),
        }
    }
}

/// The clock on its way to being set.
pub struct RtcInit {
    stage: RtcStage,
}

/// Begins with the local network being asked for a time server.
pub fn init_rtc() -> (init: RtcInit)
    ensures
        init.stage() is Querying,
{
    RtcInit { stage: RtcStage::Querying }
}

impl RtcInit {
    /// The step that is under way.
    pub closed spec fn stage(&self) -> RtcStage {
        self.stage
    }

    /// Whether `reply` answers the step that is under way.
    pub fn awaits<E>(&self, reply: &Result<RtcReply, E>) -> (awaited: bool)
        ensures
            awaited == self.stage().awaits(*reply),
    {
        match (&self.stage, reply) {
            (RtcStage::Querying, Ok(RtcReply::Found(_))) => true,
            (RtcStage::Querying, Err(_)) => true,
            (RtcStage::StartingSntp, Ok(RtcReply::Started)) => true,
            (RtcStage::StartingSntp, Err(_)) => true,
            (RtcStage::ReadingClock, Ok(RtcReply::Clock(_))) => true,
            (RtcStage::AwaitingSync, Ok(RtcReply::Synced)) => true,
            _ => false,
        }
    }

    /// Takes the reply to the step that is under way, and says what the next step
    /// is.
    pub fn step<E>(&mut self, reply: Result<RtcReply, E>) -> (action: RtcAction<E>)
        requires
            old(self).stage().awaits(reply),
        ensures
            final(self).stage() == old(self).stage().after(reply),
            action@ == old(self).stage().action(reply),
    {
        match reply {
            Err(error) => {
                self.stage = RtcStage::Failed;
                RtcAction::Fail(error)
            },
            Ok(RtcReply::Found(found)) => {
                self.stage = RtcStage::StartingSntp;
                RtcAction::StartSntp { server: ntp_service(found).hostname }
            },
            Ok(RtcReply::Started) => {
                self.stage = RtcStage::ReadingClock;
                RtcAction::ReadClock
            },
            Ok(RtcReply::Clock(clock)) => {
                let set: bool = match clock {
                    Some(secs) => secs >= RTC_INITIALIZED_SECS,
                    None => false,
                };
                if set {
                    self.stage = RtcStage::Ready;
                    RtcAction::Finish
                } else {
                    self.stage = RtcStage::AwaitingSync;
                    RtcAction::AwaitSync
                }
            },
            Ok(RtcReply::Synced) => {
                self.stage = RtcStage::Ready;
                RtcAction::Finish
            },
        }
    }
}

/// The stage after all the replies, taken in order from the start.
pub open spec fn run<E>(replies: Seq<Result<RtcReply, E>>) -> RtcStage
    decreases replies.len(),
{
    if replies.len() == 0 {
        RtcStage::Querying
    } else {
        run(replies.drop_last()).after(replies.last())
    }
}

/// Whether each reply answers the step that was under way.
pub open spec fn answers<E>(replies: Seq<Result<RtcReply, E>>) -> bool
    decreases replies.len(),
{
    replies.len() > 0 ==> answers(replies.drop_last()) && run(replies.drop_last()).awaits(
        replies.last(),
    )
}

proof fn lemma_stage_tells_replies<E>(replies: Seq<Result<RtcReply, E>>)
    requires
        answers(replies),
    ensures
        match run(replies) {
            RtcStage::Querying => replies.len() == 0,
            RtcStage::StartingSntp => replies.len() == 1,
            RtcStage::ReadingClock => replies.len() == 2,
            RtcStage::AwaitingSync => replies.len() == 3 && (replies[2] matches Ok(
                RtcReply::Clock(clock),
            ) && !was_set(clock)),
            RtcStage::Ready => clock_is_right(replies),
            RtcStage::Failed => replies.len() <= 2 && replies.last() is Err,
        },
    decreases replies.len(),
{
    if replies.len() > 0 {
        let before = replies.drop_last();
        lemma_stage_tells_replies(before);
        assert(forall|i: int| 0 <= i < before.len() ==> before[i] == #[trigger] replies[i]);
    }
}

/// Whether the replies end with a clock that was set before, or with one that was
/// not and that has been set since.
pub open spec fn clock_is_right<E>(replies: Seq<Result<RtcReply, E>>) -> bool {
    ||| replies.len() == 3 && (replies[2] matches Ok(RtcReply::Clock(clock)) && was_set(clock))
    ||| replies.len() == 4 && (replies[2] matches Ok(RtcReply::Clock(clock)) && !was_set(clock))
        && (replies[3] matches Ok(good) && good is Synced)
}

/// The clock is ready only once it is right, and the device waits for the time
/// server only if the clock was never set.
pub proof fn law_ready_clock_is_right<E>(replies: Seq<Result<RtcReply, E>>)
    requires
        answers(replies),
        run(replies) is Ready,
    ensures
        clock_is_right(replies),
{
    lemma_stage_tells_replies(replies);
}

/// Setting the clock fails only with the query or with the start of the time
/// server, and not once that has been started.
pub proof fn law_fails_only_before_sntp_runs<E>(replies: Seq<Result<RtcReply, E>>)
    requires
        answers(replies),
        run(replies) is Failed,
    ensures
        replies.len() <= 2,
        replies.last() is Err,
{
    lemma_stage_tells_replies(replies);
}

/// A view tells every part of a step.
pub proof fn law_action_views_are_whole<E>(server: String, error: E)
    ensures
        (RtcAction::<E>::StartSntp { server })@ == (RtcActionView::<E>::StartSntp {
            server: server@,
        }),
        RtcAction::<E>::ReadClock@ is ReadClock,
        RtcAction::<E>::AwaitSync@ is AwaitSync,
        RtcAction::<E>::Finish@ is Finish,
        RtcAction::Fail(error)@ == RtcActionView::Fail(error),
{
}

/// A time server that was found is the one that is asked, whichever it is; the public pool
/// is asked only where none was found.
pub proof fn law_found_time_servers_are_asked<E>(service: Service)
    ensures
        RtcStage::Querying.awaits(Ok::<RtcReply, E>(RtcReply::Found(Some(service)))),
        RtcStage::Querying.awaits(Ok::<RtcReply, E>(RtcReply::Found(None))),
        RtcStage::Querying.action(Ok::<RtcReply, E>(RtcReply::Found(Some(service)))) == (
        RtcActionView::<E>::StartSntp { server: service.hostname@ }),
        RtcStage::Querying.action(Ok::<RtcReply, E>(RtcReply::Found(None))) == (RtcActionView::<
            E,
        >::StartSntp { server: "pool.ntp.org"@ }),
        RtcStage::Querying.after(Ok::<RtcReply, E>(RtcReply::Found(Some(service))))
            is StartingSntp,
        RtcStage::Querying.after(Ok::<RtcReply, E>(RtcReply::Found(None))) is StartingSntp,
{
}

/// Once the time server is asked, the clock is read; once it was set, the device goes on.
pub proof fn law_clock_is_read_once_sntp_runs<E>()
    ensures
        RtcStage::StartingSntp.awaits(Ok::<RtcReply, E>(RtcReply::Started)),
        RtcStage::StartingSntp.after(Ok::<RtcReply, E>(RtcReply::Started)) is ReadingClock,
        RtcStage::StartingSntp.action(Ok::<RtcReply, E>(RtcReply::Started)) is ReadClock,
        RtcStage::AwaitingSync.awaits(Ok::<RtcReply, E>(RtcReply::Synced)),
        RtcStage::AwaitingSync.after(Ok::<RtcReply, E>(RtcReply::Synced)) is Ready,
        RtcStage::AwaitingSync.action(Ok::<RtcReply, E>(RtcReply::Synced)) is Finish,
{
}

/// The device waits for the time server exactly if the clock reads a time before the epoch,
/// or one of fewer than fifty-two years of 365 days after it; at any later time it goes on.
pub proof fn law_device_waits_only_for_an_unset_clock<E>(clock: Option<u64>)
    ensures
        RtcStage::ReadingClock.awaits(Ok::<RtcReply, E>(RtcReply::Clock(clock))),
        clock is None ==> {
            &&& RtcStage::ReadingClock.action(Ok::<RtcReply, E>(RtcReply::Clock(clock))) is AwaitSync
            &&& RtcStage::ReadingClock.after(Ok::<RtcReply, E>(RtcReply::Clock(clock)))
                is AwaitingSync
        },
        clock matches Some(secs) ==> secs < 1_639_872_000 ==> {
            &&& RtcStage::ReadingClock.action(Ok::<RtcReply, E>(RtcReply::Clock(clock))) is AwaitSync
            &&& RtcStage::ReadingClock.after(Ok::<RtcReply, E>(RtcReply::Clock(clock)))
                is AwaitingSync
        },
        clock matches Some(secs) ==> secs >= 1_639_872_000 ==> {
            &&& RtcStage::ReadingClock.action(Ok::<RtcReply, E>(RtcReply::Clock(clock))) is Finish
            &&& RtcStage::ReadingClock.after(Ok::<RtcReply, E>(RtcReply::Clock(clock))) is Ready
        },
{
}

/// A clock that is not waited for is not waited for at any later time either.
pub proof fn law_set_clocks_stay_set<E>(earlier: u64, later: u64)
    requires
        earlier <= later,
        RtcStage::ReadingClock.action(Ok::<RtcReply, E>(RtcReply::Clock(Some(earlier)))) is Finish,
    ensures
        RtcStage::ReadingClock.action(Ok::<RtcReply, E>(RtcReply::Clock(Some(later)))) is Finish,
{
}

/// The query and the start of the time server can fail, and fail with their own error;
/// nothing else can, and nothing is awaited at the end.
pub proof fn law_clock_failures_are_passed_on<E>(stage: RtcStage, error: E, good: RtcReply)
    ensures
        stage.awaits(Err::<RtcReply, E>(error)) <==> stage is Querying || stage is StartingSntp,
        stage.awaits(Ok::<RtcReply, E>(good)) <==> {
            ||| stage is Querying && good is Found
            ||| stage is StartingSntp && good is Started
            ||| stage is ReadingClock && good is Clock
            ||| stage is AwaitingSync && good is Synced
        },
        stage.after(Err::<RtcReply, E>(error)) is Failed,
        stage.action(Err::<RtcReply, E>(error)) == RtcActionView::<E>::Fail(error),
{
}

/// The time server that was found is used whole, and the public pool only without one.
pub proof fn law_time_servers_are_kept(found: Option<Service>, service: Service)
    requires
        call_ensures(ntp_service, (found,), service),
    ensures
        found matches Some(server) ==> service.hostname@ == server.hostname@ && service.port
            == server.port,
        found is None ==> service.hostname@ == "pool.ntp.org"@ && service.port == 123,
{
}

} // verus!
