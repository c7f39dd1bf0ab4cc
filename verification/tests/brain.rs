use oxicode_tui::brain::{chip_is_down, probe_chip, revive_outcome, BrainProber, ProbeAction};
use oxicode_tui::provider::BrainChip;
use oxicode_tui::transcript::InlineMessageKind;

#[test]
fn probes_give_the_chip() {
    assert_eq!(probe_chip(false, true, true), BrainChip::Off);
    assert_eq!(probe_chip(true, false, true), BrainChip::Down);
    assert_eq!(probe_chip(true, true, true), BrainChip::Healthy);
    assert_eq!(probe_chip(true, true, false), BrainChip::Degraded);
    assert!(chip_is_down(BrainChip::Down) && chip_is_down(BrainChip::Degraded));
    assert!(!chip_is_down(BrainChip::Off) && !chip_is_down(BrainChip::Healthy));
}

#[test]
fn one_auto_revive_per_session() {
    let mut p = BrainProber::new();
    assert_eq!(p.probed(BrainChip::Down, false, true), ProbeAction::Report(BrainChip::Down));
    assert!(!p.auto_revive_attempted);
    // Not installed: the attempt is spent, nothing runs.
    assert_eq!(p.probed(BrainChip::Down, true, false), ProbeAction::Report(BrainChip::Down));
    assert!(p.auto_revive_attempted);
    let mut q = BrainProber::new();
    assert_eq!(q.probed(BrainChip::Degraded, true, true), ProbeAction::Revive(BrainChip::Degraded));
    assert!(q.auto_revive_attempted);
    assert_eq!(q.probed(BrainChip::Down, false, true), ProbeAction::Report(BrainChip::Down));
    assert!(q.auto_revive_attempted, "the attempt stays spent");
}

#[test]
fn revive_outcomes_report_on_the_transcript() {
    let (chip, kind, text) = revive_outcome(BrainChip::Down, Ok("restarted".into()), true);
    assert_eq!((chip, kind, text.as_str()), (BrainChip::Healthy, InlineMessageKind::Info, "brain: daemon was down \u{2014} restarted"));
    let (chip, _, _) = revive_outcome(BrainChip::Down, Ok("restarted".into()), false);
    assert_eq!(chip, BrainChip::Down);
    let (chip, kind, text) = revive_outcome(BrainChip::Degraded, Err("no binary".into()), true);
    assert_eq!(chip, BrainChip::Degraded);
    assert_eq!(kind, InlineMessageKind::Warning);
    assert_eq!(text, "brain: auto-restart failed \u{2014} no binary (run /brain for details)");
}
