//! The idle timeout of UDP streams.

use crate::error::{ErrorKind, NetError};
use once_cell::sync::OnceCell;
use vstd::prelude::*;

verus! {

/// The nanoseconds of one second.
pub const NANOS_PER_SEC: u32 = 1_000_000_000;

/// The seconds that a UDP stream may stay idle where nothing else was set.
pub const DEFAULT_TIMEOUT_SECS: u64 = 20;

/// A span of time. Its view is the number of nanoseconds.
#[derive(Clone, Copy, Debug, PartialEq, Eq, Structural)]
pub struct Duration {
    secs: u64,
    nanos: u32,
}

impl View for Duration {
    type V = nat;

    closed spec fn view(&self) -> nat {
        (self.secs * NANOS_PER_SEC + self.nanos) as nat
    }
}

impl Duration {
    #[verifier::type_invariant]
    spec fn well_formed(self) -> bool {
        self.nanos < NANOS_PER_SEC
    }

    /// A span of whole seconds and the nanoseconds of the last one; `None` where
    /// these make a second or more.
    pub fn from_parts(secs: u64, nanos: u32) -> (d: Option<Duration>)
        ensures
            d is Some <==> nanos < NANOS_PER_SEC,
            d matches Some(d) ==> d@ == secs * NANOS_PER_SEC + nanos,
    {
        if nanos < NANOS_PER_SEC {
            Some(Duration { secs, nanos })
        } else {
            None
        }
    }

    /// A span of whole seconds.
    pub fn from_secs(secs: u64) -> (d: Duration)
        ensures
            d@ == secs * NANOS_PER_SEC,
    {
        Duration { secs, nanos: 0 }
    }

    /// The whole seconds of the span.
    pub fn as_secs(&self) -> (secs: u64)
        ensures
            secs == self@ / (NANOS_PER_SEC as nat),
    {
        proof {
            use_type_invariant(self);
        }
        assert(self.secs == (self.secs * NANOS_PER_SEC + self.nanos) / (NANOS_PER_SEC as int));
        self.secs
    }

    /// The nanoseconds beyond the whole seconds.
    pub fn subsec_nanos(&self) -> (nanos: u32)
        ensures
            nanos == self@ % (NANOS_PER_SEC as nat),
    {
        proof {
            use_type_invariant(self);
        }
        assert(self.nanos == (self.secs * NANOS_PER_SEC + self.nanos) % (NANOS_PER_SEC as int));
        self.nanos
    }
}

/// The text that `std` prints for a `Duration` of so many nanoseconds, as in
/// `20s` or `1.5s`.
pub uninterp spec fn duration_debug(nanos: nat) -> Seq<char>;

/// `Debug` of `std::time::Duration`: the text depends on the length of the span
/// alone.
#[verifier::external_body]
fn debug_text(d: &Duration) -> (text: String)
    ensures
        text@ == duration_debug(d@),
{
    format!("{:?}", std::time::Duration::new(d.secs, d.nanos))
}

/// The message of the error that ends an idle stream.
pub open spec fn timeout_message(timeout: nat) -> Seq<char> {
    "UdpStream timeout with duration:"@ + duration_debug(timeout)
}

/// The error that ends a stream idle for `timeout`.
pub fn timeout_error(timeout: &Duration) -> (e: NetError)
    ensures
        e.says(ErrorKind::TimedOut, timeout_message(timeout@)),
        e.kind == ErrorKind::TimedOut,
        e.message@ == "UdpStream timeout with duration:"@ + duration_debug(timeout@),
{
    NetError::with_detail(
        ErrorKind::TimedOut,
        "UdpStream timeout with duration:",
        debug_text(timeout).as_str(),
    )
}

#[verifier::external_type_specification]
#[verifier::external_body]
#[verifier::reject_recursive_types(T)]
pub struct ExOnceCell<T>(OnceCell<T>);

/// What a cell that is written at most once holds.
pub uninterp spec fn once_value(cell: OnceCell<Duration>) -> Option<Duration>;

/// `OnceCell::new`: an empty cell.
#[verifier::external_body]
fn once_new() -> (cell: OnceCell<Duration>)
    ensures
        once_value(cell) is None,
{
    OnceCell::new()
}

/// `OnceCell::get_or_init`: what the cell holds; an empty one is first filled
/// with `value`. The cell is borrowed mutably, so that nobody else fills it
/// meanwhile.
#[verifier::external_body]
fn once_get_or_init(cell: &mut OnceCell<Duration>, value: Duration) -> (d: Duration)
    ensures
        d == (match once_value(*old(cell)) {
            Some(held) => held,
            None => value,
        }),
        once_value(*final(cell)) == Some(d),
{
    *cell.get_or_init(|| value)
}

/// The timeout of a process, as nanoseconds: the one that was asked for, and the
/// one that is in force since a stream first needed it.
pub struct TimeoutState {
    pub custom: Option<nat>,
    pub chosen: Option<nat>,
}

impl TimeoutState {
    /// The timeout that the next stream gets.
    pub open spec fn effective(self) -> nat {
        match (self.chosen, self.custom) {
            (Some(d), _) => d,
            (None, Some(d)) => d,
            (None, None) => (DEFAULT_TIMEOUT_SECS * NANOS_PER_SEC) as nat,
        }
    }

    /// The state after another timeout was asked for.
    pub open spec fn with_custom(self, timeout: nat) -> TimeoutState {
        TimeoutState { custom: Some(timeout), chosen: self.chosen }
    }

    /// The state after a stream needed the timeout.
    pub open spec fn used(self) -> TimeoutState {
        TimeoutState { custom: self.custom, chosen: Some(self.effective()) }
    }
}

/// Holds the timeout of a process.
pub struct TimeoutSettings {
    custom: Option<Duration>,
    chosen: OnceCell<Duration>,
}

impl View for TimeoutSettings {
    type V = TimeoutState;

    closed spec fn view(&self) -> TimeoutState {
        TimeoutState {
            custom: match self.custom {
                Some(d) => Some(d@),
                None => None,
            },
            chosen: match once_value(self.chosen) {
                Some(d) => Some(d@),
                None => None,
            },
        }
    }
}

impl TimeoutSettings {
    /// Nothing asked for, nothing in force.
    pub fn new() -> (settings: TimeoutSettings)
        ensures
            settings@ == (TimeoutState { custom: None, chosen: None }),
    {
        TimeoutSettings { custom: None, chosen: once_new() }
    }
}

/// Asks for a timeout. It takes effect only where no stream has needed the
/// timeout yet.
pub fn set_custom_timeout(settings: &mut TimeoutSettings, timeout: Duration)
    ensures
        final(settings)@ == old(settings)@.with_custom(timeout@),
        final(settings)@.custom == Some(timeout@),
        final(settings)@.chosen == old(settings)@.chosen,
{
    settings.custom = Some(timeout);
}

/// The timeout in force. The first call settles it for good.
pub fn get_timeout_duration(settings: &mut TimeoutSettings) -> (timeout: Duration)
    ensures
        timeout@ == old(settings)@.effective(),
        final(settings)@ == old(settings)@.used(),
        match (old(settings)@.chosen, old(settings)@.custom) {
            (Some(chosen), _) => timeout@ == chosen,
            (None, Some(custom)) => timeout@ == custom,
            (None, None) => timeout@ == 20_000_000_000,
        },
        final(settings)@.chosen == Some(timeout@),
        final(settings)@.custom == old(settings)@.custom,
{
    let wanted = match settings.custom {
        Some(d) => d,
        None => Duration::from_secs(DEFAULT_TIMEOUT_SECS),
    };
    once_get_or_init(&mut settings.chosen, wanted)
}

/// A timeout asked for before any stream needed one is the one that streams get.
pub proof fn early_custom_timeout_is_used(state: TimeoutState, timeout: nat)
    requires
        state.chosen is None,
    ensures
        state.with_custom(timeout).effective() == timeout,
{
}

/// Once a stream has needed the timeout, asking for another changes nothing, and
/// every later stream gets the same one.
pub proof fn timeout_is_settled_by_first_use(state: TimeoutState, timeout: nat)
    ensures
        state.used().effective() == state.effective(),
        state.used().with_custom(timeout).effective() == state.effective(),
        state.used().with_custom(timeout).used().chosen == state.used().chosen,
{
}

/// Where nothing was asked for and nothing is in force, streams get 20 seconds.
/// What is in force is never replaced, and what was asked for last is what comes
/// into force.
pub proof fn timeout_in_force(state: TimeoutState, first: nat, second: nat)
    ensures
        state.chosen is None && state.custom is None ==> state.effective() == 20_000_000_000,
        state.chosen matches Some(chosen) ==> state.effective() == chosen,
        state.chosen is None && state.custom is Some ==> state.custom == Some(state.effective()),
        state.used().chosen == Some(state.effective()),
        state.used().custom == state.custom,
        state.with_custom(first).custom == Some(first),
        state.with_custom(first).chosen == state.chosen,
        state.chosen is None ==> state.with_custom(first).with_custom(second).effective() == second,
{
}

/// The message of a timeout is the text of the span behind a fixed beginning.
pub proof fn timeout_message_ends_in_the_span(timeout: nat)
    ensures
        timeout_message(timeout).len() == 32 + duration_debug(timeout).len(),
        timeout_message(timeout).take(32) == "UdpStream timeout with duration:"@,
        timeout_message(timeout).skip(32) == duration_debug(timeout),
{
    reveal_strlit("UdpStream timeout with duration:");
    assert(timeout_message(timeout).take(32) =~= "UdpStream timeout with duration:"@);
    assert(timeout_message(timeout).skip(32) =~= duration_debug(timeout));
}

} // verus!
