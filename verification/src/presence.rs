use vstd::prelude::*;

use crate::config::RPCConfig;
use crate::events::all_event_kinds;
use crate::events::EventKind;
use crate::queue::SharedEventQueue;
use crate::state::{ActivityPayload, ActivityState, ActivityTimestamps};

verus! {

#[verifier::external_type_specification]
#[verifier::external_body]
/// The external client's error type.
pub struct ExDiscordError(discord_presence::DiscordError);

#[verifier::external_type_specification]
#[verifier::external_body]
/// The external wire representation of one activity update.
pub struct ExActivity(discord_presence::models::Activity);

/// The bare handle to the external client object, which this crate shares a
/// public name with, so the type is hidden whole rather than declared. Every
/// outside call on the client goes through this struct's trusted methods; the
/// public [`Client`] around it keeps the verified record of what was asked of
/// them.
#[verifier::external_body]
struct RawClient {
    inner: discord_presence::Client,
}

impl RawClient {
    /// Relies on discord_presence::Client::new: builds a client handle for
    /// this application id. No connection is made until `start_connection`.
    #[verifier::external_body]
    fn new(client_id: u64) -> (client: Self) {
        RawClient { inner: discord_presence::Client::new(client_id) }
    }

    /// Relies on discord_presence::Client::on_event and
    /// EventCallbackHandle::persist: permanently registers, for the one
    /// external lifecycle event matching `kind`, a callback that only pushes
    /// `kind` onto the given shared queue and returns — it blocks on nothing
    /// but that queue's lock.
    #[verifier::external_body]
    fn register_push_callback(&self, kind: EventKind, queue: SharedEventQueue) {
        let event = match kind {
            EventKind::Ready => discord_presence::Event::Ready,
            EventKind::Connected => discord_presence::Event::Connected,
            EventKind::Disconnected => discord_presence::Event::Disconnected,
            EventKind::Error => discord_presence::Event::Error,
            EventKind::ActivityJoin => discord_presence::Event::ActivityJoin,
            EventKind::ActivitySpectate => discord_presence::Event::ActivitySpectate,
            EventKind::ActivityJoinRequest => discord_presence::Event::ActivityJoinRequest,
        };
        self.inner.on_event(event, move |_| queue.push(kind)).persist();
    }

    /// Relies on discord_presence::Client::start: spawns the background
    /// connection thread. Fire-and-forget by design: the call surfaces no
    /// result, and retry and backoff are the external client's own.
    #[verifier::external_body]
    fn start_connection(&mut self) {
        self.inner.start();
    }

    /// Relies on discord_presence::Client::set_activity: makes exactly one
    /// update call carrying the given wire activity. Err when the connection
    /// is not ready or the exchange with the service fails.
    #[verifier::external_body]
    fn set_activity_raw(&mut self, wire: discord_presence::models::Activity) -> (r: Result<
        (),
        discord_presence::DiscordError,
    >) {
        match self.inner.set_activity(move |_| wire) {
            Ok(_) => Ok(()),
            Err(e) => Err(e),
        }
    }
}

/// A handle to the external presence client, together with the verified
/// record of what this library asked of it: which lifecycle event kinds have
/// a queue-push callback registered and onto which queue, whether the
/// background connection was started, and the update payloads handed to it,
/// in order. Constructed once at startup; `startup_client` registers the
/// callbacks and begins the connection, which then runs for the process
/// lifetime. Handshake, transport, reconnection and backoff all live in the
/// external client.
pub struct Client {
    raw: RawClient,
    registered: Ghost<Map<EventKind, SharedEventQueue>>,
    started: Ghost<bool>,
    updates: Ghost<Seq<ActivityPayload>>,
}

impl Client {
    /// Which event kinds have a queue-push callback registered, each mapped
    /// to the shared queue its callback feeds.
    pub closed spec fn registered(&self) -> Map<EventKind, SharedEventQueue> {
        self.registered@
    }

    /// Whether the background connection was started.
    pub closed spec fn started(&self) -> bool {
        self.started@
    }

    /// The update payloads handed to the external client so far, in order.
    pub closed spec fn updates(&self) -> Seq<ActivityPayload> {
        self.updates@
    }

    /// Builds the client handle for this application id. Nothing is
    /// registered, started or sent yet.
    pub fn new(client_id: u64) -> (client: Self)
        ensures
            client.registered() == Map::<EventKind, SharedEventQueue>::empty(),
            !client.started(),
            client.updates() == Seq::<ActivityPayload>::empty(),
    {
        Client {
            raw: RawClient::new(client_id),
            registered: Ghost(Map::empty()),
            started: Ghost(false),
            updates: Ghost(Seq::empty()),
        }
    }

    /// Registers the permanent queue-push callback for `kind`, feeding the
    /// given shared queue, and records the registration.
    fn register_push_callback(&mut self, kind: EventKind, queue: SharedEventQueue)
        ensures
            final(self).registered() == old(self).registered().insert(kind, queue),
            final(self).started() == old(self).started(),
            final(self).updates() == old(self).updates(),
    {
        let ghost reg = self.registered@.insert(kind, queue);
        self.raw.register_push_callback(kind, queue);
        self.registered = Ghost(reg);
    }

    /// Begins the background connection (fire-and-forget) and records that it
    /// was started.
    fn start_connection(&mut self)
        ensures
            final(self).started(),
            final(self).registered() == old(self).registered(),
            final(self).updates() == old(self).updates(),
    {
        self.raw.start_connection();
        self.started = Ghost(true);
    }
}

/// Relies on the public optional fields of discord_presence::models::Activity:
/// copies each payload field one for one into the wire activity. A `None`
/// field stays at the wire default — absent, skipped in serialization — and is
/// never explicitly cleared.
#[verifier::external_body]
fn wire_activity(p: &ActivityPayload) -> (wire: discord_presence::models::Activity) {
    discord_presence::models::Activity {
        details: p.details.clone(),
        state: p.state.clone(),
        instance: p.instance,
        timestamps: p.timestamps.map(|t| discord_presence::models::ActivityTimestamps {
            start: t.start,
            end: t.end,
        }),
        ..discord_presence::models::Activity::new()
    }
}

/// Relies on discord_presence::DiscordError's Display rendering: the report
/// text for a failed update call.
#[verifier::external_body]
fn error_message(e: &discord_presence::DiscordError) -> (msg: String) {
    format!("{e}")
}

#[verifier::external_type_specification]
#[verifier::external_body]
/// The opaque wall-clock instant handed between the two clock wrappers.
pub struct ExSystemTime(std::time::SystemTime);

/// Relies on std::time::SystemTime::now: the wall clock's reading at the
/// call. The result depends on the clock; nothing is promised of it.
#[verifier::external_body]
fn system_now() -> (t: std::time::SystemTime) {
    std::time::SystemTime::now()
}

/// Relies on std::time::SystemTime::duration_since, measured from UNIX_EPOCH:
/// the instant as whole seconds since the epoch, or None when the instant is
/// before the epoch.
#[verifier::external_body]
fn secs_since_epoch(t: std::time::SystemTime) -> (secs: Option<u64>) {
    match t.duration_since(std::time::UNIX_EPOCH) {
        Ok(d) => Some(d.as_secs()),
        Err(_) => None,
    }
}

/// The wall-clock time as whole seconds since the epoch, or None when the
/// system clock reports a time before the epoch.
fn now_unix_secs() -> (now: Option<u64>) {
    secs_since_epoch(system_now())
}

/// Makes one update call for this payload, recorded in the client's update
/// history: the wire activity is built from exactly the populated fields
/// (unpopulated ones stay unset), then sent. On failure the error's report
/// text is returned; whether the call succeeds is the external service's
/// verdict, so nothing is promised about which way it goes.
pub(crate) fn send_activity_update(client: &mut Client, update: &ActivityPayload) -> (r: Result<
    (),
    String,
>)
    ensures
        final(client).updates() == old(client).updates().push(*update),
        final(client).registered() == old(client).registered(),
        final(client).started() == old(client).started(),
{
    let wire = wire_activity(update);
    let outcome = client.raw.set_activity_raw(wire);
    client.updates = Ghost(client.updates@.push(*update));
    match outcome {
        Ok(()) => Ok(()),
        Err(e) => Err(error_message(&e)),
    }
}

/// Why startup cannot proceed: the system clock reported a time before the
/// epoch while elapsed-time timestamps were requested. Fatal for the caller by
/// design — an unrecoverable environment error, not retried.
#[derive(Clone, Copy, Debug, PartialEq, Eq, Structural)]
pub enum StartupError {
    /// The wall clock is before the epoch; no start timestamp can be seeded.
    ClockBeforeEpoch,
}

impl StartupError {
    /// The report text for this fatal startup error.
    pub fn message(&self) -> (msg: String)
        ensures
            msg@ == "time has gone backwards: system clock is before the epoch"@,
    {
        "time has gone backwards: system clock is before the epoch".to_owned()
    }
}

/// The payload after timestamp seeding at a startup wall-clock time of
/// `now_secs`: the start half is set to that time, the end half is unset, and
/// every other field is untouched.
pub open spec fn seeded_payload(p: ActivityPayload, now_secs: u64) -> ActivityPayload {
    ActivityPayload {
        timestamps: Some(ActivityTimestamps { start: Some(now_secs), end: None }),
        ..p
    }
}

/// Seeds the activity's start timestamp from the given startup wall-clock
/// time, in whole seconds since the epoch — but only when `show_time` asks
/// for it; otherwise the state is left exactly as it was, timestamps unset if
/// they were unset.
pub fn seed_timestamps(activity: &mut ActivityState, show_time: bool, now_secs: u64)
    ensures
        show_time ==> final(activity).payload() == seeded_payload(old(activity).payload(), now_secs),
        show_time ==> final(activity).dirty(),
        !show_time ==> *final(activity) == *old(activity),
        final(activity).events() == old(activity).events(),
{
    if show_time {
        activity.set_timestamps(Some(ActivityTimestamps { start: Some(now_secs), end: None }));
    }
}

/// The registration record of a client whose every lifecycle event kind has
/// its queue-push callback registered, all feeding the one shared queue `q`.
pub open spec fn fully_registered(q: SharedEventQueue) -> Map<EventKind, SharedEventQueue> {
    Map::new(|k: EventKind| true, |k: EventKind| q)
}

/// Registers the queue-push callback for every known lifecycle event kind,
/// each feeding this activity's own shared queue, so that every event the
/// background connection emits lands there.
pub fn register_lifecycle_callbacks(activity: &ActivityState, client: &mut Client)
    ensures
        final(client).registered() == fully_registered(activity.events()),
        final(client).started() == old(client).started(),
        final(client).updates() == old(client).updates(),
{
    let kinds = all_event_kinds();
    let n = kinds.len();
    let mut i: usize = 0;
    while i < n
        invariant
            i <= n,
            n == kinds@.len(),
            forall|k: EventKind| kinds@.contains(k),
            client.started() == old(client).started(),
            client.updates() == old(client).updates(),
            forall|j: int|
                0 <= j < i ==> client.registered().contains_key(kinds@[j])
                    && client.registered()[kinds@[j]] == activity.events(),
        decreases n - i,
    {
        let handle = activity.events_handle();
        client.register_push_callback(kinds[i], handle);
        i = i + 1;
    }
    proof {
        let reg = client.registered();
        let full = fully_registered(activity.events());
        assert forall|k: EventKind| reg.contains_key(k) && reg[k] == full[k] by {
            assert(kinds@.contains(k));
            let j = choose|j: int| 0 <= j < kinds@.len() && kinds@[j] == k;
            assert(reg.contains_key(kinds@[j]) && reg[kinds@[j]] == activity.events());
            assert(full.contains_key(k));
        }
        assert(reg =~= full);
    }
}

/// The startup routine, given the startup wall-clock reading it has to work
/// with: Err exactly when elapsed-time timestamps were requested but the
/// reading is missing (the clock was before the epoch), and then nothing has
/// been seeded, registered or started. Otherwise it seeds the start timestamp
/// when requested, registers one queue-push callback per known lifecycle
/// event kind — each feeding this activity's own queue — and begins the
/// background connection.
pub fn startup_with_clock(
    activity: &mut ActivityState,
    client: &mut Client,
    config: &RPCConfig,
    now: Option<u64>,
) -> (r: Result<(), StartupError>)
    ensures
        r is Ok <==> (!config.show_time || now is Some),
        r is Err ==> r == Err::<(), StartupError>(StartupError::ClockBeforeEpoch)
            && *final(activity) == *old(activity) && *final(client) == *old(client),
        !config.show_time ==> final(activity).payload() == old(activity).payload()
            && final(activity).dirty() == old(activity).dirty(),
        config.show_time && now is Some ==> final(activity).payload() == seeded_payload(
            old(activity).payload(),
            now->0,
        ) && final(activity).dirty(),
        final(activity).events() == old(activity).events(),
        r is Ok ==> final(client).started() && final(client).registered() == fully_registered(
            old(activity).events(),
        ),
        final(client).updates() == old(client).updates(),
{
    if config.show_time {
        match now {
            Some(t) => seed_timestamps(activity, true, t),
            None => {
                return Err(StartupError::ClockBeforeEpoch);
            },
        }
    }
    register_lifecycle_callbacks(activity, client);
    client.start_connection();
    Ok(())
}

/// The run-once startup routine: reads the wall clock and hands it to
/// `startup_with_clock` — seeding the elapsed-time start timestamp when the
/// configuration asks for it, registering one queue-push callback per known
/// lifecycle event kind onto this activity's own queue, and beginning the
/// background connection (fire-and-forget: that call's own success is not
/// surfaced).
///
/// Err means the system clock was before the epoch while `show_time` was set.
/// That is fatal for the caller by design; nothing has been registered or
/// started in that case, and the state is untouched.
pub fn startup_client(activity: &mut ActivityState, client: &mut Client, config: &RPCConfig) -> (r:
    Result<(), StartupError>)
    ensures
        !config.show_time ==> r is Ok && final(activity).payload() == old(activity).payload()
            && final(activity).dirty() == old(activity).dirty(),
        r is Err ==> r == Err::<(), StartupError>(StartupError::ClockBeforeEpoch)
            && config.show_time && *final(activity) == *old(activity)
            && *final(client) == *old(client),
        config.show_time && r is Ok ==> final(activity).dirty() && (exists|t: u64|
            final(activity).payload() == seeded_payload(old(activity).payload(), t)),
        final(activity).events() == old(activity).events(),
        r is Ok ==> final(client).started() && final(client).registered() == fully_registered(
            old(activity).events(),
        ),
        final(client).updates() == old(client).updates(),
{
    let now = now_unix_secs();
    let r = startup_with_clock(activity, client, config, now);
    proof {
        if config.show_time && r is Ok {
            assert(activity.payload() == seeded_payload(old(activity).payload(), now->0));
        }
    }
    r
}

} // verus!
