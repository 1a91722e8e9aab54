//! The state machine of a printing actor.
//!
//! The actor owns a configured message, a tick period, a tick counter and an
//! active flag. Commands arrive one at a time from its mailbox and are applied
//! by [`PrintingActor::handle_message`]; timer ticks are applied by
//! [`PrintingActor::tick`]. The runtime that races the mailbox against the
//! timer lives outside this crate and only calls these two functions, so every
//! change of state goes through the contracts below.
use vstd::prelude::*;

verus! {

/// Period, in milliseconds, that a freshly spawned actor ticks at.
pub const DEFAULT_PERIOD_MS: u64 = 100;

/// Usage errors that a command can provoke.
#[derive(Debug)]
pub enum ActorError {
    /// The init-only command was sent while a message was already configured;
    /// carries the message that stays in place.
    MessageAlreadySet(String),
}

impl ActorError {
    /// Human-readable description of the error.
    pub fn describe(&self) -> (r: String)
        ensures
            match self {
                ActorError::MessageAlreadySet(m) => r@ == "Message already set: "@ + m@,
            },
    {
        match self {
            ActorError::MessageAlreadySet(m) => {
                let mut out = String::from_str("Message already set: ");
                out.append(m.as_str());
                out
            },
        }
    }
}

/// A command for the actor. The two queries carry no reply channel here: the
/// answer comes back as a [`Reply`] and the runtime forwards it.
#[derive(Debug)]
pub enum ActorMessage {
    /// Configure the message only if none is configured yet.
    InitMessage(String),
    /// Configure the message, replacing any earlier one.
    SetMessage(String),
    /// Re-arm the timer with a new period in milliseconds.
    SetPeriod(u64),
    SetActive,
    SetInactive,
    ToggleActive,
    GetPrintCount,
    GetStatus,
}

/// What the runtime has to do after a command was applied.
#[derive(Debug, Clone, Copy, PartialEq, Eq)]
pub enum Reply {
    /// Nothing beyond the state change.
    Done,
    /// Replace the timer by a fresh one with this period (milliseconds).
    Rearm(u64),
    /// Answer to a tick-count query.
    PrintCount(u32),
    /// Answer to an active-status query.
    Status(bool),
}

/// Mathematical model of an actor's state.
pub struct ActorState {
    pub message: Option<Seq<char>>,
    pub period_ms: u64,
    pub count: nat,
    pub active: bool,
}

/// Mathematical model of a command.
pub enum Command {
    InitMessage(Seq<char>),
    SetMessage(Seq<char>),
    SetPeriod(u64),
    SetActive,
    SetInactive,
    ToggleActive,
    GetPrintCount,
    GetStatus,
}

impl View for ActorMessage {
    type V = Command;

    open spec fn view(&self) -> Command {
        match self {
            ActorMessage::InitMessage(m) => Command::InitMessage(m@),
            ActorMessage::SetMessage(m) => Command::SetMessage(m@),
            ActorMessage::SetPeriod(p) => Command::SetPeriod(*p),
            ActorMessage::SetActive => Command::SetActive,
            ActorMessage::SetInactive => Command::SetInactive,
            ActorMessage::ToggleActive => Command::ToggleActive,
            ActorMessage::GetPrintCount => Command::GetPrintCount,
            ActorMessage::GetStatus => Command::GetStatus,
        }
    }
}

/// The state of a freshly spawned actor: active, no message, nothing printed.
pub open spec fn initial_state() -> ActorState {
    ActorState { message: None, period_ms: DEFAULT_PERIOD_MS, count: 0, active: true }
}

/// A command is rejected exactly when it is the init-only command and a
/// message is already configured.
pub open spec fn rejects(s: ActorState, c: Command) -> bool {
    c is InitMessage && s.message is Some
}

/// The state after applying one command; a rejected command changes nothing.
pub open spec fn apply(s: ActorState, c: Command) -> ActorState {
    match c {
        Command::InitMessage(m) => if s.message is Some {
            s
        } else {
            ActorState { message: Some(m), period_ms: s.period_ms, count: s.count, active: s.active }
        },
        Command::SetMessage(m) => ActorState {
            message: Some(m),
            period_ms: s.period_ms,
            count: s.count,
            active: s.active,
        },
        Command::SetPeriod(p) => ActorState {
            message: s.message,
            period_ms: p,
            count: s.count,
            active: s.active,
        },
        Command::SetActive => ActorState {
            message: s.message,
            period_ms: s.period_ms,
            count: s.count,
            active: true,
        },
        Command::SetInactive => ActorState {
            message: s.message,
            period_ms: s.period_ms,
            count: s.count,
            active: false,
        },
        Command::ToggleActive => ActorState {
            message: s.message,
            period_ms: s.period_ms,
            count: s.count,
            active: !s.active,
        },
        Command::GetPrintCount => s,
        Command::GetStatus => s,
    }
}

/// What the runtime is told to do after a command that was not rejected.
/// Queries answer from the state the command found.
pub open spec fn reply_of(s: ActorState, c: Command) -> Reply {
    match c {
        Command::SetPeriod(p) => Reply::Rearm(p),
        Command::GetPrintCount => Reply::PrintCount(s.count as u32),
        Command::GetStatus => Reply::Status(s.active),
        _ => Reply::Done,
    }
}

/// A tick has an effect exactly when the actor is active and has a message.
pub open spec fn fires(s: ActorState) -> bool {
    s.active && s.message is Some
}

/// The state after one timer tick.
pub open spec fn after_tick(s: ActorState) -> ActorState {
    if fires(s) {
        ActorState { message: s.message, period_ms: s.period_ms, count: s.count + 1, active: s.active }
    } else {
        s
    }
}

/// The state after applying a sequence of commands in arrival order.
pub open spec fn run(s: ActorState, cs: Seq<Command>) -> ActorState
    decreases cs.len(),
{
    if cs.len() == 0 {
        s
    } else {
        run(apply(s, cs[0]), cs.drop_first())
    }
}

/// The state after `n` timer ticks with no command in between.
pub open spec fn ticks(s: ActorState, n: nat) -> ActorState
    decreases n,
{
    if n == 0 {
        s
    } else {
        ticks(after_tick(s), (n - 1) as nat)
    }
}

/// The value fixed by the last `SetActive` / `SetInactive` of `cs`, if any.
pub open spec fn last_setting(cs: Seq<Command>) -> Option<bool>
    decreases cs.len(),
{
    if cs.len() == 0 {
        None
    } else {
        match cs.last() {
            Command::SetActive => Some(true),
            Command::SetInactive => Some(false),
            _ => last_setting(cs.drop_last()),
        }
    }
}

/// The number of `ToggleActive` commands after the last setting command.
pub open spec fn trailing_toggles(cs: Seq<Command>) -> nat
    decreases cs.len(),
{
    if cs.len() == 0 {
        0
    } else {
        match cs.last() {
            Command::SetActive => 0,
            Command::SetInactive => 0,
            Command::ToggleActive => trailing_toggles(cs.drop_last()) + 1,
            _ => trailing_toggles(cs.drop_last()),
        }
    }
}

/// The net effect of a command sequence on the active flag: the last setting
/// command (or the starting flag, if there is none), negated once per toggle
/// that follows it.
pub open spec fn net_active(start: bool, cs: Seq<Command>) -> bool {
    let base = match last_setting(cs) {
        Some(v) => v,
        None => start,
    };
    if trailing_toggles(cs) % 2 == 1 {
        !base
    } else {
        base
    }
}

/// Applying `cs` and then `c` is applying `cs.push(c)`.
proof fn lemma_run_push(s: ActorState, cs: Seq<Command>, c: Command)
    ensures
        run(s, cs.push(c)) == apply(run(s, cs), c),
    decreases cs.len(),
{
    if cs.len() == 0 {
        assert(cs.push(c).drop_first() =~= Seq::<Command>::empty());
        assert(cs.push(c)[0] == c);
        assert(run(apply(s, c), Seq::<Command>::empty()) == apply(s, c));
    } else {
        assert(cs.push(c).drop_first() =~= cs.drop_first().push(c));
        assert(cs.push(c)[0] == cs[0]);
        lemma_run_push(apply(s, cs[0]), cs.drop_first(), c);
    }
}

/// For every sequence of commands, the final active flag is the net effect of
/// the activation commands in arrival order: the last `SetActive` or
/// `SetInactive` decides (so repeating one changes nothing), and each later
/// `ToggleActive` negates.
pub proof fn lemma_active_is_net_effect(s: ActorState, cs: Seq<Command>)
    ensures
        run(s, cs).active == net_active(s.active, cs),
    decreases cs.len(),
{
    if cs.len() > 0 {
        let rest = cs.drop_last();
        assert(rest.push(cs.last()) =~= cs);
        lemma_run_push(s, rest, cs.last());
        lemma_active_is_net_effect(s, rest);
    }
}

/// Sending the init-only command twice: the first configures the message, the
/// second is rejected and leaves the state, and so the first message, as it was.
pub proof fn lemma_init_only_once(s: ActorState, first: Seq<char>, second: Seq<char>)
    requires
        s.message is None,
    ensures
        !rejects(s, Command::InitMessage(first)),
        apply(s, Command::InitMessage(first)).message == Some(first),
        rejects(apply(s, Command::InitMessage(first)), Command::InitMessage(second)),
        apply(apply(s, Command::InitMessage(first)), Command::InitMessage(second)) == apply(
            s,
            Command::InitMessage(first),
        ),
{
}

/// While the actor is active with a message, `n` ticks raise the counter by
/// exactly `n`; while it is inactive, ticks change nothing at all.
pub proof fn lemma_tick_counting(s: ActorState, n: nat)
    ensures
        fires(s) ==> ticks(s, n).count == s.count + n && ticks(s, n).active,
        !s.active ==> ticks(s, n) == s,
    decreases n,
{
    if n > 0 {
        lemma_tick_counting(after_tick(s), (n - 1) as nat);
    }
}

/// An actor: its private state, which only its own loop mutates.
pub struct PrintingActor {
    print_message: Option<String>,
    period_ms: u64,
    print_count: u32,
    active: bool,
}

impl View for PrintingActor {
    type V = ActorState;

    closed spec fn view(&self) -> ActorState {
        ActorState {
            message: match self.print_message {
                Some(m) => Some(m@),
                None => None,
            },
            period_ms: self.period_ms,
            count: self.print_count as nat,
            active: self.active,
        }
    }
}

impl PrintingActor {
    /// A fresh actor: active, without a message, ticking every
    /// [`DEFAULT_PERIOD_MS`] milliseconds.
    pub fn new() -> (r: PrintingActor)
        ensures
            r@ == initial_state(),
    {
        PrintingActor { print_message: None, period_ms: DEFAULT_PERIOD_MS, print_count: 0, active: true }
    }

    /// The number of ticks that printed so far.
    pub fn print_count(&self) -> (r: u32)
        ensures
            r as nat == self@.count,
    {
        self.print_count
    }

    /// Whether the timer is armed.
    pub fn is_active(&self) -> (r: bool)
        ensures
            r == self@.active,
    {
        self.active
    }

    /// The current tick period in milliseconds.
    pub fn period_ms(&self) -> (r: u64)
        ensures
            r == self@.period_ms,
    {
        self.period_ms
    }

    /// The configured message, if any.
    pub fn message(&self) -> (r: Option<String>)
        ensures
            match r {
                Some(m) => self@.message == Some(m@),
                None => self@.message is None,
            },
    {
        match &self.print_message {
            Some(m) => Some(m.clone()),
            None => None,
        }
    }

    /// Applies one command. The init-only command on an actor that already has
    /// a message fails with `MessageAlreadySet`, carrying the message that
    /// stays, and changes nothing; every other command succeeds.
    pub fn handle_message(&mut self, msg: ActorMessage) -> (r: Result<Reply, ActorError>)
        ensures
            final(self)@ == apply(old(self)@, msg@),
            rejects(old(self)@, msg@) ==> match r {
                Err(ActorError::MessageAlreadySet(m)) => old(self)@.message == Some(m@),
                Ok(_) => false,
            },
            !rejects(old(self)@, msg@) ==> r == Ok::<Reply, ActorError>(reply_of(old(self)@, msg@)),
    {
        match msg {
            ActorMessage::InitMessage(m) => {
                match &self.print_message {
                    Some(existing) => {
                        return Err(ActorError::MessageAlreadySet(existing.clone()));
                    },
                    None => {},
                }
                self.print_message = Some(m);
                Ok(Reply::Done)
            },
            ActorMessage::SetMessage(m) => {
                self.print_message = Some(m);
                Ok(Reply::Done)
            },
            ActorMessage::SetPeriod(p) => {
                self.period_ms = p;
                Ok(Reply::Rearm(p))
            },
            ActorMessage::SetActive => {
                self.active = true;
                Ok(Reply::Done)
            },
            ActorMessage::SetInactive => {
                self.active = false;
                Ok(Reply::Done)
            },
            ActorMessage::ToggleActive => {
                self.active = !self.active;
                Ok(Reply::Done)
            },
            ActorMessage::GetPrintCount => Ok(Reply::PrintCount(self.print_count)),
            ActorMessage::GetStatus => Ok(Reply::Status(self.active)),
        }
    }

    /// Applies one timer tick. When the actor is active and has a message, the
    /// counter rises by one and the message to emit is returned; otherwise
    /// nothing changes and nothing is emitted.
    pub fn tick(&mut self) -> (r: Option<String>)
        requires
            old(self)@.count < u32::MAX,
        ensures
            final(self)@ == after_tick(old(self)@),
            fires(old(self)@) ==> r is Some && old(self)@.message == Some(r.unwrap()@),
            !fires(old(self)@) ==> r is None,
    {
        if self.active {
            match &self.print_message {
                Some(m) => {
                    self.print_count = self.print_count + 1;
                    return Some(m.clone());
                },
                None => {},
            }
        }
        None
    }
}

} // verus!
