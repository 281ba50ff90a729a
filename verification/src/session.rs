use vstd::prelude::*;
use crate::amplitude::{amplitude_bits_ok, Amplitude};
use crate::error::Error;

verus! {

/// What a termination signal causes, by how many came before it. The
/// policy escalates so that repeated operator requests are bounded by an
/// immediate abort.
#[derive(Clone, Copy, PartialEq, Eq, Structural, Debug)]
pub enum SignalAction {
    /// First signal: notify the blocked controller, which drains the
    /// stream and stops cleanly.
    Notify,
    /// Second signal: warn that the next one will force an exit.
    Warn,
    /// Third signal: force an immediate but clean process exit.
    ForceExit,
    /// Fourth or later signal: abort the process without cleanup.
    Abort,
}

/// The action taken by the signal handler when `prior` signals were
/// already counted before the current one.
pub open spec fn signal_action_spec(prior: u32) -> SignalAction {
    if prior == 0 {
        SignalAction::Notify
    } else if prior == 1 {
        SignalAction::Warn
    } else if prior == 2 {
        SignalAction::ForceExit
    } else {
        SignalAction::Abort
    }
}

/// Decide what a termination signal does, given the count of signals that
/// arrived before it. The handler that calls this may run at arbitrary
/// points, so the decision depends on nothing but that count.
pub fn handler_decision(prior: u32) -> (a: SignalAction)
    ensures
        a == signal_action_spec(prior),
{
    if prior == 0 {
        SignalAction::Notify
    } else if prior == 1 {
        SignalAction::Warn
    } else if prior == 2 {
        SignalAction::ForceExit
    } else {
        SignalAction::Abort
    }
}

/// The lifecycle of one playback run.
#[derive(Clone, Copy, PartialEq, Eq, Structural, Debug)]
pub enum Phase {
    /// Configuration is being validated; no audio hardware touched yet.
    Init,
    /// The default output stream is open, the source not yet attached.
    StreamOpen,
    /// The composed source is attached; the controller blocks for a
    /// termination signal.
    Playing,
    /// A termination signal arrived; the stream is being released.
    Draining,
    /// Terminal: the stream is gone and the run ended cleanly.
    Stopped,
    /// Terminal: a fatal startup error, reported once.
    Failed(Error),
}

/// The playback session controller: owns the run's phase, the count of
/// termination signals, and the amplitude once validated.
pub struct Controller {
    phase: Phase,
    signals: u32,
    amplitude: Option<Amplitude>,
}

impl Controller {
    pub closed spec fn phase_spec(self) -> Phase {
        self.phase
    }

    pub closed spec fn signals_spec(self) -> u32 {
        self.signals
    }

    pub closed spec fn amplitude_spec(self) -> Option<Amplitude> {
        self.amplitude
    }

    /// Once the controller has left `Init` without failing, it carries a
    /// validated amplitude, and that amplitude is in range.
    pub open spec fn wf(self) -> bool {
        &&& (match self.phase_spec() {
            Phase::Init => true,
            Phase::Failed(_) => true,
            _ => self.amplitude_spec() is Some,
        })
        &&& (self.amplitude_spec() matches Some(a) ==> a.wf())
    }

    /// A fresh run: nothing validated, nothing open, no signal counted.
    pub fn new() -> (c: Controller)
        ensures
            c.phase_spec() == Phase::Init,
            c.signals_spec() == 0,
            c.amplitude_spec() is None,
            c.wf(),
    {
        Controller { phase: Phase::Init, signals: 0, amplitude: None }
    }

    /// Validate the requested amplitude, given as the bit pattern of the
    /// requested single-precision percentage. Acceptance keeps the run in
    /// `Init` and records the amplitude; rejection is fatal and moves the
    /// run to `Failed` before any audio hardware is touched.
    pub fn validate_amplitude(&mut self, bits: u32) -> (r: Result<Amplitude, Error>)
        requires
            old(self).phase_spec() == Phase::Init,
            old(self).wf(),
        ensures
            final(self).wf(),
            final(self).signals_spec() == old(self).signals_spec(),
            r is Ok <==> amplitude_bits_ok(bits),
            r matches Ok(a) ==> a.bits_spec() == bits && final(self).phase_spec() == Phase::Init
                && final(self).amplitude_spec() == Some(a),
            r matches Err(e) ==> e == Error::Amplitude(bits) && final(self).phase_spec()
                == Phase::Failed(Error::Amplitude(bits)),
    {
        match Amplitude::validate(bits) {
            Ok(a) => {
                self.amplitude = Some(a);
                Ok(a)
            },
            Err(e) => {
                self.phase = Phase::Failed(e);
                Err(e)
            },
        }
    }

    /// The default output stream opened: the run advances to `StreamOpen`.
    pub fn stream_opened(&mut self)
        requires
            old(self).phase_spec() == Phase::Init,
            old(self).amplitude_spec() is Some,
            old(self).wf(),
        ensures
            final(self).wf(),
            final(self).phase_spec() == Phase::StreamOpen,
            final(self).signals_spec() == old(self).signals_spec(),
            final(self).amplitude_spec() == old(self).amplitude_spec(),
    {
        self.phase = Phase::StreamOpen;
    }

    /// The default output stream could not be opened: fatal.
    pub fn stream_failed(&mut self)
        requires
            old(self).phase_spec() == Phase::Init,
            old(self).wf(),
        ensures
            final(self).wf(),
            final(self).phase_spec() == Phase::Failed(Error::Stream),
            final(self).signals_spec() == old(self).signals_spec(),
            final(self).amplitude_spec() == old(self).amplitude_spec(),
    {
        self.phase = Phase::Failed(Error::Stream);
    }

    /// The composed source is attached to the stream's mixer: playing.
    pub fn source_attached(&mut self)
        requires
            old(self).phase_spec() == Phase::StreamOpen,
            old(self).wf(),
        ensures
            final(self).wf(),
            final(self).phase_spec() == Phase::Playing,
            final(self).signals_spec() == old(self).signals_spec(),
            final(self).amplitude_spec() == old(self).amplitude_spec(),
    {
        self.phase = Phase::Playing;
    }

    /// Count one termination signal and decide what it does. The count
    /// saturates; every signal from the fourth on aborts anyway. The phase
    /// is untouched: the handler only counts, the blocked controller
    /// performs the transition when it wakes.
    pub fn signal(&mut self) -> (a: SignalAction)
        requires
            old(self).wf(),
        ensures
            final(self).wf(),
            a == signal_action_spec(old(self).signals_spec()),
            final(self).signals_spec() == if old(self).signals_spec() < u32::MAX {
                old(self).signals_spec() + 1
            } else {
                old(self).signals_spec() as int
            },
            final(self).phase_spec() == old(self).phase_spec(),
            final(self).amplitude_spec() == old(self).amplitude_spec(),
    {
        let prior = self.signals;
        if prior < u32::MAX {
            self.signals = prior + 1;
        }
        handler_decision(prior)
    }

    /// The blocked controller woke on the termination notification: the
    /// run leaves `Playing` and releases the stream.
    pub fn termination_received(&mut self)
        requires
            old(self).phase_spec() == Phase::Playing,
            old(self).wf(),
        ensures
            final(self).wf(),
            final(self).phase_spec() == Phase::Draining,
            final(self).signals_spec() == old(self).signals_spec(),
            final(self).amplitude_spec() == old(self).amplitude_spec(),
    {
        self.phase = Phase::Draining;
    }

    /// The stream is released and audio output has halted: terminal,
    /// clean exit.
    pub fn drained(&mut self)
        requires
            old(self).phase_spec() == Phase::Draining,
            old(self).wf(),
        ensures
            final(self).wf(),
            final(self).phase_spec() == Phase::Stopped,
            final(self).signals_spec() == old(self).signals_spec(),
            final(self).amplitude_spec() == old(self).amplitude_spec(),
    {
        self.phase = Phase::Stopped;
    }

    /// The run's phase, for the surrounding process to report on.
    pub fn phase(&self) -> (p: Phase)
        ensures
            p == self.phase_spec(),
    {
        self.phase
    }

    /// How many termination signals have been counted.
    pub fn signal_count(&self) -> (n: u32)
        ensures
            n == self.signals_spec(),
    {
        self.signals
    }
}

/// The escalating shutdown policy: the first signal notifies the blocked
/// controller so the run stops cleanly, the second only warns, the third
/// forces a clean exit, and every later one aborts without cleanup.
pub proof fn lemma_escalating_shutdown(n: u32)
    ensures
        signal_action_spec(0) == SignalAction::Notify,
        signal_action_spec(1) == SignalAction::Warn,
        signal_action_spec(2) == SignalAction::ForceExit,
        3 <= n ==> signal_action_spec(n) == SignalAction::Abort,
{
}

} // verus!
