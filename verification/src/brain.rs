//! The memory-daemon prober's decisions: the chip a probe yields, the one
//! automatic revive a session allows, and what a revive reports. The host
//! probes the socket, pings the daemon and runs the revive.
use vstd::prelude::*;

use crate::provider::BrainChip;
use crate::text::push_str;
use crate::transcript::InlineMessageKind;

verus! {

/// The chip of one probe: memory off hides it; a missing socket is down; a
/// socket whose ping did not succeed in time is degraded.
pub open spec fn chip_of_probe(memory_enabled: bool, socket_present: bool, ping_ok: bool) -> BrainChip {
    if !memory_enabled {
        BrainChip::Off
    } else if !socket_present {
        BrainChip::Down
    } else if ping_ok {
        BrainChip::Healthy
    } else {
        BrainChip::Degraded
    }
}

/// The chip of one probe (see `chip_of_probe`).
pub fn probe_chip(memory_enabled: bool, socket_present: bool, ping_ok: bool) -> (c: BrainChip)
    ensures
        c == chip_of_probe(memory_enabled, socket_present, ping_ok),
{
    if !memory_enabled {
        BrainChip::Off
    } else if !socket_present {
        BrainChip::Down
    } else if ping_ok {
        BrainChip::Healthy
    } else {
        BrainChip::Degraded
    }
}

/// The daemon needs reviving: it is down or degraded.
pub fn chip_is_down(c: BrainChip) -> (r: bool)
    ensures
        r == (c == BrainChip::Down || c == BrainChip::Degraded),
{
    c == BrainChip::Down || c == BrainChip::Degraded
}

/// What the prober does after a probe.
#[derive(Debug, Clone, Copy, PartialEq, Eq, Structural)]
pub enum ProbeAction {
    /// Report this chip.
    Report(BrainChip),
    /// Run the revive, then report through `revive_outcome`.
    Revive(BrainChip),
}

/// The prober's state: whether this session's one automatic revive was
/// spent (success or failure: a broken daemon must not become a spawn loop).
#[derive(Debug, Clone, Copy, PartialEq, Eq, Structural)]
pub struct BrainProber {
    pub auto_revive_attempted: bool,
}

impl BrainProber {
    /// A session's prober: the revive not spent yet.
    pub fn new() -> (p: Self)
        ensures
            !p.auto_revive_attempted,
    {
        BrainProber { auto_revive_attempted: false }
    }

    /// After a probe that gave `chip`: `revive_wanted` is the revive
    /// policy's answer for this prober's state; a wanted revive spends the
    /// session's attempt and runs only when the daemon is `installed`.
    pub fn probed(&mut self, chip: BrainChip, revive_wanted: bool, installed: bool) -> (a: ProbeAction)
        ensures
            final(self).auto_revive_attempted == (old(self).auto_revive_attempted || revive_wanted),
            a == (if revive_wanted && installed { ProbeAction::Revive(chip) } else { ProbeAction::Report(chip) }),
    {
        if revive_wanted {
            self.auto_revive_attempted = true;
            if installed {
                return ProbeAction::Revive(chip);
            }
        }
        ProbeAction::Report(chip)
    }
}

/// What a revive reports: on success an info line with its message, and a
/// healthy chip when the re-probe's ping succeeded (else the old chip); on
/// failure a warning line and the old chip.
pub open spec fn revive_report(chip: BrainChip, outcome: Result<Seq<char>, Seq<char>>, reprobe_ok: bool) -> (BrainChip, InlineMessageKind, Seq<char>) {
    match outcome {
        Ok(msg) => (if reprobe_ok { BrainChip::Healthy } else { chip }, InlineMessageKind::Info, "brain: daemon was down \u{2014} "@ + msg),
        Err(e) => (chip, InlineMessageKind::Warning, "brain: auto-restart failed \u{2014} "@ + e + " (run /brain for details)"@),
    }
}

/// The chip and the transcript line after a revive (see `revive_report`).
pub fn revive_outcome(chip: BrainChip, outcome: Result<String, String>, reprobe_ok: bool) -> (r: (BrainChip, InlineMessageKind, String))
    ensures
        (r.0, r.1, r.2@) == revive_report(chip, match outcome { Ok(m) => Ok(m@), Err(e) => Err(e@) }, reprobe_ok),
{
    match outcome {
        Ok(msg) => {
            let mut t = String::from_str("brain: daemon was down \u{2014} ");
            push_str(&mut t, msg.as_str());
            (if reprobe_ok { BrainChip::Healthy } else { chip }, InlineMessageKind::Info, t)
        },
        Err(e) => {
            let mut t = String::from_str("brain: auto-restart failed \u{2014} ");
            push_str(&mut t, e.as_str());
            push_str(&mut t, " (run /brain for details)");
            (chip, InlineMessageKind::Warning, t)
        },
    }
}

} // verus!
